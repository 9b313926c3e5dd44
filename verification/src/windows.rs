//! The open-window switcher. Its ordering is the whole value: the window wanted is almost always
//! the one used last, so the host keeps a most-recently-used list of window ids fed by the same
//! poll that drives auto mode.
use vstd::prelude::*;

verus! {

/// How many window ids the most-recently-used list keeps: only its top is ever read.
pub const MRU_CAP: usize = 64;

/// A window as the platform reports it, before ordering.
pub struct Win {
    pub id: isize,
    pub title: String,
    /// Full path to the owning executable.
    pub exe: String,
    pub minimized: bool,
}

/// A window by its contents.
pub struct WinView {
    pub id: isize,
    pub title: Seq<char>,
    pub exe: Seq<char>,
    pub minimized: bool,
}

impl View for Win {
    type V = WinView;

    open spec fn view(&self) -> WinView {
        WinView { id: self.id, title: self.title@, exe: self.exe@, minimized: self.minimized }
    }
}

impl Clone for Win {
    fn clone(&self) -> (r: Self)
        ensures
            r@ == self@,
    {
        Win {
            id: self.id,
            title: self.title.clone(),
            exe: self.exe.clone(),
            minimized: self.minimized,
        }
    }
}

/// A list of windows by their contents.
pub open spec fn win_views(ws: Seq<Win>) -> Seq<WinView> {
    ws.map_values(|w: Win| w@)
}

/// The first index of `id` in the most-recently-used list.
pub open spec fn rank(mru: Seq<isize>, id: isize) -> Option<int>
    decreases mru.len(),
{
    if mru.len() == 0 {
        None
    } else if mru[0] == id {
        Some(0)
    } else {
        match rank(mru.drop_first(), id) {
            Some(r) => Some(r + 1),
            None => None,
        }
    }
}

/// The windows of `ws` whose rank is `r`, in their incoming order.
pub open spec fn ranked(ws: Seq<WinView>, mru: Seq<isize>, r: Option<int>) -> Seq<WinView>
    decreases ws.len(),
{
    if ws.len() == 0 {
        Seq::empty()
    } else if rank(mru, ws.last().id) == r {
        ranked(ws.drop_last(), mru, r).push(ws.last())
    } else {
        ranked(ws.drop_last(), mru, r)
    }
}

/// The windows of `ws` by rank from `r` on: rank `r`, then `r + 1`, and so on, and the windows
/// the list never saw last. A stable sort by rank.
pub open spec fn by_rank(ws: Seq<WinView>, mru: Seq<isize>, r: int) -> Seq<WinView>
    decreases mru.len() - r,
{
    if r < 0 || r >= mru.len() {
        ranked(ws, mru, None)
    } else {
        ranked(ws, mru, Some(r)) + by_rank(ws, mru, r + 1)
    }
}

/// The windows of `ws` whose id is (or is not) `id`, in order.
pub open spec fn with_id(ws: Seq<WinView>, id: isize, keep: bool) -> Seq<WinView>
    decreases ws.len(),
{
    if ws.len() == 0 {
        Seq::empty()
    } else if (ws.last().id == id) == keep {
        with_id(ws.drop_last(), id, keep).push(ws.last())
    } else {
        with_id(ws.drop_last(), id, keep)
    }
}

/// The switcher's order: the current window first, then every other window in most-recently-used
/// order, then the windows never brought to the front in the order the platform reported them.
/// Being minimized changes nothing.
pub open spec fn ordered(raw: Seq<WinView>, mru: Seq<isize>, current: isize) -> Seq<WinView> {
    with_id(raw, current, true) + by_rank(with_id(raw, current, false), mru, 0)
}

/// The list with `id` removed wherever it occurs.
pub open spec fn without(list: Seq<isize>, id: isize) -> Seq<isize>
    decreases list.len(),
{
    if list.len() == 0 {
        Seq::empty()
    } else if list.last() == id {
        without(list.drop_last(), id)
    } else {
        without(list.drop_last(), id).push(list.last())
    }
}

/// The most-recently-used list after `id` came to the front: unchanged for no window or one
/// already in front, otherwise `id` first and every other entry after it, capped.
pub open spec fn touched(list: Seq<isize>, id: isize) -> Seq<isize> {
    if id == 0 || (list.len() > 0 && list[0] == id) {
        list
    } else {
        let l = seq![id] + without(list, id);
        if l.len() > MRU_CAP {
            l.take(MRU_CAP as int)
        } else {
            l
        }
    }
}

/// The first index of `id` in the list.
fn rank_exec(mru: &[isize], id: isize) -> (r: Option<usize>)
    ensures
        match r {
            Some(i) => rank(mru@, id) == Some(i as int),
            None => rank(mru@, id) is None,
        },
{
    let mut i: usize = 0;
    proof {
        lemma_rank(mru@, id);
    }
    while i < mru.len()
        invariant
            i <= mru.len(),
            forall|j: int| 0 <= j < i ==> mru@[j] != id,
            rank(mru@, id) matches Some(k) ==> 0 <= k < mru@.len() && mru@[k] == id && forall|
                j: int,
            |
                0 <= j < k ==> mru@[j] != id,
            rank(mru@, id) is None ==> forall|j: int| 0 <= j < mru@.len() ==> mru@[j] != id,
        decreases mru.len() - i,
    {
        if mru[i] == id {
            return Some(i);
        }
        i = i + 1;
    }
    None
}

/// `rank` finds the first occurrence, and finds one exactly when there is one.
proof fn lemma_rank(mru: Seq<isize>, id: isize)
    ensures
        rank(mru, id) matches Some(k) ==> 0 <= k < mru.len() && mru[k] == id && forall|j: int|
            0 <= j < k ==> mru[j] != id,
        rank(mru, id) is None ==> forall|j: int| 0 <= j < mru.len() ==> mru[j] != id,
    decreases mru.len(),
{
    if mru.len() > 0 && mru[0] != id {
        lemma_rank(mru.drop_first(), id);
        assert forall|j: int| 1 <= j < mru.len() implies mru[j] == mru.drop_first()[j - 1] by {}
    }
}

/// The windows of `ws` with rank `r`, in order.
fn ranked_exec(ws: &Vec<Win>, mru: &[isize], r: Option<usize>, out: &mut Vec<Win>)
    ensures
        win_views(final(out)@) == win_views(old(out)@) + ranked(
            win_views(ws@),
            mru@,
            match r {
                Some(k) => Some(k as int),
                None => None,
            },
        ),
{
    let ghost wv = win_views(ws@);
    let ghost rr = match r {
        Some(k) => Some(k as int),
        None => None,
    };
    let ghost start = win_views(out@);
    let mut i: usize = 0;
    while i < ws.len()
        invariant
            i <= ws.len(),
            wv == win_views(ws@),
            rr == match r {
                Some(k) => Some(k as int),
                None => None,
            },
            win_views(out@) == start + ranked(wv.subrange(0, i as int), mru@, rr),
        decreases ws.len() - i,
    {
        let k = rank_exec(mru, ws[i].id);
        let hit = match (k, r) {
            (Some(a), Some(b)) => a == b,
            (None, None) => true,
            _ => false,
        };
        proof {
            let pre = wv.subrange(0, i as int);
            let nxt = wv.subrange(0, i + 1);
            assert(nxt.drop_last() =~= pre);
            assert(nxt.last() == ws@[i as int]@);
        }
        if hit {
            let ghost before = win_views(out@);
            out.push(ws[i].clone());
            assert(win_views(out@) =~= before.push(ws@[i as int]@));
        }
        i = i + 1;
    }
    assert(wv.subrange(0, ws@.len() as int) =~= wv);
}

/// Orders windows for the switcher: the current one first, then by most recent use, then the
/// untouched ones in the order the platform reported them.
pub fn order(raw: Vec<Win>, mru_ids: &[isize], current: isize) -> (r: Vec<Win>)
    ensures
        win_views(r@) == ordered(win_views(raw@), mru_ids@, current),
{
    let ghost rv = win_views(raw@);
    let mut out: Vec<Win> = Vec::new();
    let mut rest: Vec<Win> = Vec::new();
    let mut i: usize = 0;
    while i < raw.len()
        invariant
            i <= raw.len(),
            rv == win_views(raw@),
            win_views(out@) == with_id(rv.subrange(0, i as int), current, true),
            win_views(rest@) == with_id(rv.subrange(0, i as int), current, false),
        decreases raw.len() - i,
    {
        proof {
            let pre = rv.subrange(0, i as int);
            let nxt = rv.subrange(0, i + 1);
            assert(nxt.drop_last() =~= pre);
            assert(nxt.last() == raw@[i as int]@);
        }
        let w = raw[i].clone();
        if w.id == current {
            let ghost before = win_views(out@);
            out.push(w);
            assert(win_views(out@) =~= before.push(raw@[i as int]@));
        } else {
            let ghost before = win_views(rest@);
            rest.push(w);
            assert(win_views(rest@) =~= before.push(raw@[i as int]@));
        }
        i = i + 1;
    }
    assert(rv.subrange(0, raw@.len() as int) =~= rv);
    let ghost head = win_views(out@);
    let ghost others = win_views(rest@);
    let mut r: usize = 0;
    while r < mru_ids.len()
        invariant
            r <= mru_ids.len(),
            others == win_views(rest@),
            win_views(out@) + by_rank(others, mru_ids@, r as int) == head + by_rank(
                others,
                mru_ids@,
                0,
            ),
        decreases mru_ids.len() - r,
    {
        let ghost before = win_views(out@);
        ranked_exec(&rest, mru_ids, Some(r), &mut out);
        assert(by_rank(others, mru_ids@, r as int) == ranked(others, mru_ids@, Some(r as int))
            + by_rank(others, mru_ids@, r + 1));
        assert(win_views(out@) + by_rank(others, mru_ids@, r + 1) =~= before + by_rank(
            others,
            mru_ids@,
            r as int,
        ));
        r = r + 1;
    }
    ranked_exec(&rest, mru_ids, None, &mut out);
    assert(win_views(out@) =~= head + by_rank(others, mru_ids@, 0));
    out
}

/// Records that window `id` is in front now: it moves to the top of the list, appears there only
/// once, and the list stays capped. No window (0) and a window already in front change nothing.
pub fn touch(list: &mut Vec<isize>, id: isize)
    ensures
        final(list)@ == touched(old(list)@, id),
{
    if id == 0 {
        return;
    }
    if list.len() > 0 && list[0] == id {
        return;
    }
    let ghost before = list@;
    let mut next: Vec<isize> = Vec::new();
    next.push(id);
    let mut i: usize = 0;
    while i < list.len() && next.len() < MRU_CAP
        invariant
            i <= list.len(),
            list@ == before,
            1 <= next@.len() <= MRU_CAP,
            next@ == (seq![id] + without(before.subrange(0, i as int), id)),
        decreases list.len() - i,
    {
        proof {
            assert(before.subrange(0, i + 1).drop_last() =~= before.subrange(0, i as int));
        }
        if list[i] != id {
            next.push(list[i]);
        }
        i = i + 1;
    }
    proof {
        let l = seq![id] + without(before, id);
        lemma_without_prefix(before, id, i as int);
        if i == before.len() {
            assert(before.subrange(0, i as int) =~= before);
        } else {
            assert(next@.len() == MRU_CAP);
            assert(l.take(MRU_CAP as int) =~= next@);
        }
    }
    *list = next;
}

/// Removing `id` from a prefix gives a prefix of removing it from the whole.
proof fn lemma_without_prefix(list: Seq<isize>, id: isize, n: int)
    requires
        0 <= n <= list.len(),
    ensures
        without(list.subrange(0, n), id).len() <= without(list, id).len(),
        without(list, id).subrange(0, without(list.subrange(0, n), id).len() as int) == without(
            list.subrange(0, n),
            id,
        ),
    decreases list.len() - n,
{
    if n < list.len() {
        lemma_without_prefix(list, id, n + 1);
        assert(list.subrange(0, n + 1).drop_last() =~= list.subrange(0, n));
        let a = without(list.subrange(0, n), id);
        let b = without(list.subrange(0, n + 1), id);
        let w = without(list, id);
        assert(w.subrange(0, a.len() as int) =~= b.subrange(0, a.len() as int));
    } else {
        assert(list.subrange(0, n) =~= list);
        assert(without(list, id).subrange(0, without(list, id).len() as int) =~= without(list, id));
    }
}

/// Removing `id` leaves no `id` behind, keeps only entries of the list, and keeps a list free of
/// duplicates free of them.
proof fn lemma_without(list: Seq<isize>, id: isize)
    ensures
        !without(list, id).contains(id),
        forall|x: isize| without(list, id).contains(x) ==> list.contains(x),
        list.no_duplicates() ==> without(list, id).no_duplicates(),
    decreases list.len(),
{
    if list.len() > 0 {
        let d = list.drop_last();
        lemma_without(d, id);
        let w = without(list, id);
        let wd = without(d, id);
        assert forall|x: isize| wd.contains(x) implies list.contains(x) by {
            assert(d.contains(x));
            let i = choose|i: int| 0 <= i < d.len() && d[i] == x;
            assert(list[i] == x);
        }
        if list.last() != id {
            assert(w == wd.push(list.last()));
            assert(list[list.len() - 1] == list.last());
            assert forall|x: isize| w.contains(x) implies list.contains(x) by {
                let i = choose|i: int| 0 <= i < w.len() && w[i] == x;
                if i < wd.len() {
                    assert(wd[i] == x);
                }
            }
            if !w.contains(id) {
            } else {
                let i = choose|i: int| 0 <= i < w.len() && w[i] == id;
                if i < wd.len() {
                    assert(wd[i] == id);
                }
            }
            if list.no_duplicates() {
                assert(d.no_duplicates()) by {
                    assert forall|i: int, j: int| 0 <= i < d.len() && 0 <= j < d.len() && i != j
                        implies d[i] != d[j] by {
                        assert(d[i] == list[i] && d[j] == list[j]);
                    }
                }
                if wd.contains(list.last()) {
                    assert(d.contains(list.last()));
                    let i = choose|i: int| 0 <= i < d.len() && d[i] == list.last();
                    assert(list[i] == list[list.len() - 1]);
                    assert(false);
                }
                assert forall|i: int, j: int| 0 <= i < w.len() && 0 <= j < w.len() && i != j
                    implies w[i] != w[j] by {
                    if i < wd.len() && j < wd.len() {
                        assert(w[i] == wd[i] && w[j] == wd[j]);
                    } else if i < wd.len() {
                        assert(wd.contains(w[i]));
                    } else if j < wd.len() {
                        assert(wd.contains(w[j]));
                    }
                }
            }
        } else {
            assert(w == wd);
            if list.no_duplicates() {
                assert(d.no_duplicates()) by {
                    assert forall|i: int, j: int| 0 <= i < d.len() && 0 <= j < d.len() && i != j
                        implies d[i] != d[j] by {
                        assert(d[i] == list[i] && d[j] == list[j]);
                    }
                }
            }
        }
    }
}

/// Bringing a window to the front puts it first, exactly once, never grows a list past the cap,
/// and a second touch of the same window changes nothing.
pub proof fn law_touch_moves_to_front_once(list: Seq<isize>, id: isize)
    requires
        id != 0,
        list.no_duplicates(),
    ensures
        touched(list, id).len() > 0,
        touched(list, id)[0] == id,
        touched(list, id).no_duplicates(),
        list.len() <= MRU_CAP ==> touched(list, id).len() <= MRU_CAP,
        touched(touched(list, id), id) == touched(list, id),
{
    lemma_without(list, id);
    if !(list.len() > 0 && list[0] == id) {
        let w = without(list, id);
        let l = seq![id] + w;
        assert(l[0] == id);
        assert forall|i: int, j: int| 0 <= i < l.len() && 0 <= j < l.len() && i != j implies l[i]
            != l[j] by {
            if i > 0 && j > 0 {
                assert(l[i] == w[i - 1] && l[j] == w[j - 1]);
            } else if i == 0 {
                assert(l[j] == w[j - 1]);
                assert(w.contains(l[j]));
            } else {
                assert(l[i] == w[i - 1]);
                assert(w.contains(l[i]));
            }
        }
        if l.len() > MRU_CAP {
            let t = l.take(MRU_CAP as int);
            assert(t[0] == id);
            assert forall|i: int, j: int| 0 <= i < t.len() && 0 <= j < t.len() && i != j
                implies t[i] != t[j] by {
                assert(t[i] == l[i] && t[j] == l[j]);
            }
        }
        if list.len() <= MRU_CAP {
            lemma_without_len(list, id);
        }
    }
}

/// Removing entries never lengthens a list, and removing a present entry shortens it.
proof fn lemma_without_len(list: Seq<isize>, id: isize)
    ensures
        without(list, id).len() <= list.len(),
        list.contains(id) ==> without(list, id).len() < list.len(),
    decreases list.len(),
{
    if list.len() > 0 {
        lemma_without_len(list.drop_last(), id);
        if list.contains(id) && list.last() != id {
            let i = choose|i: int| 0 <= i < list.len() && list[i] == id;
            assert(list.drop_last()[i] == id);
        }
    }
}

/// How many times `w` occurs in `ws`.
pub open spec fn occ(ws: Seq<WinView>, w: WinView) -> nat
    decreases ws.len(),
{
    if ws.len() == 0 {
        0
    } else {
        occ(ws.drop_last(), w) + if ws.last() == w {
            1nat
        } else {
            0nat
        }
    }
}

proof fn lemma_occ_push(x: Seq<WinView>, l: WinView, w: WinView)
    ensures
        occ(x.push(l), w) == occ(x, w) + if l == w {
            1nat
        } else {
            0nat
        },
{
    assert(x.push(l).drop_last() =~= x);
}

proof fn lemma_occ_concat(a: Seq<WinView>, b: Seq<WinView>, w: WinView)
    ensures
        occ(a + b, w) == occ(a, w) + occ(b, w),
    decreases b.len(),
{
    if b.len() == 0 {
        assert(a + b =~= a);
    } else {
        lemma_occ_concat(a, b.drop_last(), w);
        assert((a + b).drop_last() =~= a + b.drop_last());
    }
}

proof fn lemma_occ_with_id(ws: Seq<WinView>, id: isize, w: WinView)
    ensures
        occ(with_id(ws, id, true), w) + occ(with_id(ws, id, false), w) == occ(ws, w),
        w.id == id ==> occ(with_id(ws, id, false), w) == 0,
        w.id != id ==> occ(with_id(ws, id, true), w) == 0,
    decreases ws.len(),
{
    if ws.len() > 0 {
        lemma_occ_with_id(ws.drop_last(), id, w);
        lemma_occ_push(with_id(ws.drop_last(), id, true), ws.last(), w);
        lemma_occ_push(with_id(ws.drop_last(), id, false), ws.last(), w);
    }
}

proof fn lemma_rank_bounds(mru: Seq<isize>, id: isize)
    ensures
        rank(mru, id) matches Some(k) ==> 0 <= k < mru.len(),
    decreases mru.len(),
{
    if mru.len() > 0 && mru[0] != id {
        lemma_rank_bounds(mru.drop_first(), id);
    }
}

proof fn lemma_occ_ranked(ws: Seq<WinView>, mru: Seq<isize>, r: Option<int>, w: WinView)
    ensures
        occ(ranked(ws, mru, r), w) == if rank(mru, w.id) == r {
            occ(ws, w)
        } else {
            0
        },
    decreases ws.len(),
{
    if ws.len() > 0 {
        lemma_occ_ranked(ws.drop_last(), mru, r, w);
        lemma_occ_push(ranked(ws.drop_last(), mru, r), ws.last(), w);
    }
}

proof fn lemma_occ_by_rank(ws: Seq<WinView>, mru: Seq<isize>, r: int, w: WinView)
    requires
        0 <= r,
    ensures
        occ(by_rank(ws, mru, r), w) == if rank(mru, w.id) matches Some(k) && k < r {
            0
        } else {
            occ(ws, w)
        },
    decreases mru.len() - r,
{
    lemma_rank_bounds(mru, w.id);
    if r >= mru.len() {
        lemma_occ_ranked(ws, mru, None, w);
    } else {
        lemma_occ_by_rank(ws, mru, r + 1, w);
        lemma_occ_ranked(ws, mru, Some(r), w);
        lemma_occ_concat(ranked(ws, mru, Some(r)), by_rank(ws, mru, r + 1), w);
    }
}

/// The switcher neither loses nor invents a window: every window the platform reported is listed
/// exactly as many times as it was reported, and nothing else is.
pub proof fn law_order_lists_every_window_once(raw: Seq<WinView>, mru: Seq<isize>, current: isize, w: WinView)
    ensures
        occ(ordered(raw, mru, current), w) == occ(raw, w),
        ordered(raw, mru, current).len() == raw.len(),
{
    lemma_occ_with_id(raw, current, w);
    lemma_rank_bounds(mru, w.id);
    lemma_occ_by_rank(with_id(raw, current, false), mru, 0, w);
    lemma_occ_concat(with_id(raw, current, true), by_rank(with_id(raw, current, false), mru, 0), w);
    lemma_order_len(raw, mru, current);
}

proof fn lemma_with_id_len(ws: Seq<WinView>, id: isize)
    ensures
        with_id(ws, id, true).len() + with_id(ws, id, false).len() == ws.len(),
    decreases ws.len(),
{
    if ws.len() > 0 {
        lemma_with_id_len(ws.drop_last(), id);
    }
}

/// Windows of rank below `r` that stay out of `by_rank(.., r)`.
spec fn below(ws: Seq<WinView>, mru: Seq<isize>, r: int) -> nat
    decreases ws.len(),
{
    if ws.len() == 0 {
        0
    } else {
        below(ws.drop_last(), mru, r) + if rank(mru, ws.last().id) matches Some(k) && k < r {
            1nat
        } else {
            0nat
        }
    }
}

proof fn lemma_ranked_len(ws: Seq<WinView>, mru: Seq<isize>, r: int)
    requires
        0 <= r,
    ensures
        ranked(ws, mru, Some(r)).len() + below(ws, mru, r) == below(ws, mru, r + 1),
        ranked(ws, mru, None).len() + below(ws, mru, mru.len() as int) == ws.len(),
    decreases ws.len(),
{
    if ws.len() > 0 {
        lemma_ranked_len(ws.drop_last(), mru, r);
        lemma_rank_bounds(mru, ws.last().id);
    }
}

proof fn lemma_by_rank_len(ws: Seq<WinView>, mru: Seq<isize>, r: int)
    requires
        0 <= r,
    ensures
        by_rank(ws, mru, r).len() + below(ws, mru, if r < mru.len() { r } else { mru.len() as int })
            == ws.len(),
    decreases mru.len() - r,
{
    lemma_ranked_len(ws, mru, r);
    if r < mru.len() {
        lemma_by_rank_len(ws, mru, r + 1);
        lemma_ranked_len(ws, mru, r);
    }
}

proof fn lemma_below_zero(ws: Seq<WinView>, mru: Seq<isize>)
    ensures
        below(ws, mru, 0) == 0,
    decreases ws.len(),
{
    if ws.len() > 0 {
        lemma_below_zero(ws.drop_last(), mru);
        lemma_rank_bounds(mru, ws.last().id);
    }
}

proof fn lemma_order_len(raw: Seq<WinView>, mru: Seq<isize>, current: isize)
    ensures
        ordered(raw, mru, current).len() == raw.len(),
{
    let rest = with_id(raw, current, false);
    lemma_with_id_len(raw, current);
    lemma_by_rank_len(rest, mru, 0);
    lemma_below_zero(rest, mru);
}

/// Which page of the window switcher a client gets and how many there are: the whole grid per
/// page (the switcher draws nothing in the reserved cells), at least one page, and a page past
/// the last one shows the last.
pub open spec fn switcher_pages(count: int, size: int, page: int) -> (int, int) {
    let pages = if count == 0 { 1 } else { (count + size - 1) / size };
    (if page < pages - 1 { page } else { pages - 1 }, pages)
}

/// The page of the switcher to draw and the number of pages, for `count` windows on a grid of
/// `size` cells; the page's windows are `page * size ..` up to `size` of them.
pub fn switcher_page(count: usize, size: usize, page: usize) -> (r: (usize, usize))
    requires
        size >= 1,
    ensures
        (r.0 as int, r.1 as int) == switcher_pages(count as int, size as int, page as int),
        r.0 < r.1,
        r.0 * size <= count || count == 0,
{
    let q = count / size;
    let rem = count % size;
    assert(rem != 0 ==> q < usize::MAX) by (nonlinear_arith)
        requires
            size >= 1,
            q == count / size,
            rem == count % size,
            count <= usize::MAX,
    ;
    assert(count > 0 && rem == 0 ==> q >= 1) by (nonlinear_arith)
        requires
            size >= 1,
            q == count / size,
            rem == count % size,
    ;
    let pages: usize = if count == 0 { 1 } else { q + if rem == 0 { 0 } else { 1 } };
    assert(pages as int == if count == 0 { 1 } else { (count + size - 1) / (size as int) }) by (nonlinear_arith)
        requires
            size >= 1,
            pages == if count == 0 { 1int } else { count / size + if count % size == 0 { 0int } else { 1int } },
    ;
    let at = if page < pages - 1 { page } else { pages - 1 };
    assert(at * size <= count || count == 0) by (nonlinear_arith)
        requires
            size >= 1,
            at <= pages - 1,
            pages == if count == 0 { 1 } else { (count + size - 1) / (size as int) },
    ;
    (at, pages)
}

} // verus!
