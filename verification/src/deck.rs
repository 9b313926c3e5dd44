//! Manual mode: repaginates a deck page onto whatever grid the client declared, and resolves a
//! (page, pos) press back to the key that owns it.
//!
//! Decks are authored on the reference 5×3 grid. A client with a different grid gets the SAME keys
//! in the same order, cut into different pages. Nothing stored depends on the client.
use vstd::prelude::*;

use crate::config::{at_pos, empty_key, key_views, opt_view, Deck, DeckView, Key, KeyKind, KeyState, KeyView, Page, PageView};
use crate::faces::{addr, addr_of, face_is_on, face_on, face_set, wear_face, worn};
use crate::i18n::{tr, translated, Lang};
use crate::state::ObsState;
use crate::text::{chars_of, is, own, string_of, strip_prefix, strip_prefix_lit, trim, trim_exec};

verus! {

/// No real key pad is bigger than this per side. Also caps the per-page allocation.
pub const MAX_SIDE: usize = 12;

/// The longest dense page a stored page can produce, whatever positions it claims.
pub const MAX_DENSE: usize = 1152;

/// The key grid a client declared in `hello`.
#[derive(Clone, Copy, PartialEq, Eq, Debug, Structural)]
pub struct Grid {
    pub rows: usize,
    pub cols: usize,
    /// Cells at the END of every page the client keeps for itself.
    pub reserve: usize,
}

/// `v` clamped into `[lo, hi]`.
pub open spec fn clamp(v: int, lo: int, hi: int) -> int {
    if v < lo {
        lo
    } else if v > hi {
        hi
    } else {
        v
    }
}

impl Grid {
    /// Both sides within `[1, MAX_SIDE]` and at least one usable cell.
    pub open spec fn wf(self) -> bool {
        1 <= self.rows <= MAX_SIDE && 1 <= self.cols <= MAX_SIDE && self.reserve < self.rows
            * self.cols
    }

    /// Every cell, including the reserved ones.
    pub open spec fn spec_size(self) -> int {
        self.rows * self.cols
    }

    /// Cells the host may put keys in.
    pub open spec fn spec_usable(self) -> int {
        if self.spec_size() - self.reserve < 1 {
            1
        } else {
            self.spec_size() - self.reserve
        }
    }

    /// Builds a grid from what a client claims, both sides clamped to `[1, MAX_SIDE]`.
    pub fn new(rows: usize, cols: usize) -> (g: Grid)
        ensures
            g.wf(),
            g.rows == clamp(rows as int, 1, MAX_SIDE as int),
            g.cols == clamp(cols as int, 1, MAX_SIDE as int),
            g.reserve == 0,
    {
        let r = if rows < 1 { 1 } else if rows > MAX_SIDE { MAX_SIDE } else { rows };
        let c = if cols < 1 { 1 } else if cols > MAX_SIDE { MAX_SIDE } else { cols };
        assert(r * c >= 1) by (nonlinear_arith)
            requires
                r >= 1,
                c >= 1,
        ;
        Grid { rows: r, cols: c, reserve: 0 }
    }

    /// Same grid, with `n` cells at the end left to the client, never all of them.
    pub fn reserving(self, n: usize) -> (g: Grid)
        requires
            self.wf(),
        ensures
            g.wf(),
            g.rows == self.rows,
            g.cols == self.cols,
            g.reserve == if n < self.spec_size() - 1 { n as int } else { self.spec_size() - 1 },
    {
        let size = self.size();
        let keep = size - 1;
        let reserve = if n < keep { n } else { keep };
        Grid { reserve, ..self }
    }

    /// Every cell, including the reserved ones. What the client draws.
    pub fn size(self) -> (r: usize)
        requires
            self.wf(),
        ensures
            r == self.spec_size(),
            1 <= r <= MAX_SIDE * MAX_SIDE,
    {
        assert(1 <= self.rows * self.cols <= 144) by (nonlinear_arith)
            requires
                1 <= self.rows <= 12,
                1 <= self.cols <= 12,
        ;
        self.rows * self.cols
    }

    /// Cells the host may put keys in: the same number pagination and addressing run on.
    pub fn usable(self) -> (r: usize)
        requires
            self.wf(),
        ensures
            r == self.spec_usable(),
            1 <= r <= MAX_SIDE * MAX_SIDE,
    {
        let size = self.size();
        let d = if size > self.reserve { size - self.reserve } else { 0 };
        if d < 1 {
            1
        } else {
            d
        }
    }
}

impl Default for Grid {
    /// The reference device, used when a client omits `grid`.
    fn default() -> (g: Grid)
        ensures
            g == (Grid { rows: 3, cols: 5, reserve: 0 }),
            g.wf(),
    {
        Grid { rows: 3, cols: 5, reserve: 0 }
    }
}

// ---------------------------------------------------------------------------------------------
// Dense pages
// ---------------------------------------------------------------------------------------------

/// One past a key's position, as the host computes it (wrapping at the top of `usize`).
pub open spec fn pos_end(p: usize) -> nat {
    if p == usize::MAX {
        0
    } else {
        (p + 1) as nat
    }
}

/// The largest `pos_end` over `keys`.
pub open spec fn max_end(keys: Seq<KeyView>) -> nat
    decreases keys.len(),
{
    if keys.len() == 0 {
        0
    } else {
        let rest = max_end(keys.drop_last());
        let e = pos_end(keys.last().pos);
        if e > rest {
            e
        } else {
            rest
        }
    }
}

/// How many slots the dense form of a page has.
pub open spec fn dense_len(keys: Seq<KeyView>) -> nat {
    if max_end(keys) > MAX_DENSE {
        MAX_DENSE as nat
    } else {
        max_end(keys)
    }
}

/// The LAST key of `keys` stored at position `i`.
pub open spec fn last_at(keys: Seq<KeyView>, i: int) -> Option<KeyView>
    decreases keys.len(),
{
    if keys.len() == 0 {
        None
    } else if keys.last().pos == i {
        Some(keys.last())
    } else {
        last_at(keys.drop_last(), i)
    }
}

/// What slot `i` of the dense page shows: the last key stored there, or a hole.
pub open spec fn dense_slot(keys: Seq<KeyView>, i: int) -> KeyView {
    match last_at(keys, i) {
        Some(k) => k,
        None => empty_key(i as usize),
    }
}

/// A page flattened into a hole-preserving sequence indexed by `pos`: duplicate positions do not
/// shift later keys (last writer wins), and a position past the cap is dropped.
pub open spec fn dense(keys: Seq<KeyView>) -> Seq<KeyView> {
    Seq::new(dense_len(keys), |i: int| dense_slot(keys, i))
}

/// `last_at` only ever finds a key stored at that position.
pub proof fn lemma_last_at(keys: Seq<KeyView>, i: int)
    ensures
        last_at(keys, i) matches Some(k) ==> k.pos == i && keys.contains(k),
        last_at(keys, i) is None ==> forall|j: int| 0 <= j < keys.len() ==> keys[j].pos != i,
    decreases keys.len(),
{
    if keys.len() > 0 {
        lemma_last_at(keys.drop_last(), i);
        if keys.last().pos != i {
            if let Some(k) = last_at(keys.drop_last(), i) {
                let j = choose|j: int| 0 <= j < keys.drop_last().len() && keys.drop_last()[j] == k;
                assert(keys[j] == k);
            }
        } else {
            assert(keys[keys.len() - 1] == keys.last());
        }
        if last_at(keys, i) is None {
            assert forall|j: int| 0 <= j < keys.len() implies keys[j].pos != i by {
                if j < keys.len() - 1 {
                    assert(keys[j] == keys.drop_last()[j]);
                }
            }
        }
    }
}

/// Every stored position lies below `max_end`, unless it is the top of `usize`.
pub proof fn lemma_max_end(keys: Seq<KeyView>)
    ensures
        forall|j: int| 0 <= j < keys.len() && keys[j].pos < usize::MAX ==> keys[j].pos < max_end(keys),
    decreases keys.len(),
{
    if keys.len() > 0 {
        lemma_max_end(keys.drop_last());
        assert forall|j: int| 0 <= j < keys.len() && keys[j].pos < usize::MAX implies keys[j].pos
            < max_end(keys) by {
            if j < keys.len() - 1 {
                assert(keys[j] == keys.drop_last()[j]);
            }
        }
    }
}

/// The dense form of a page's keys.
fn dense_exec(keys: &Vec<Key>) -> (r: Vec<Key>)
    ensures
        key_views(r@) == dense(key_views(keys@)),
{
    let ghost kv = key_views(keys@);
    let mut len: usize = 0;
    let mut j: usize = 0;
    while j < keys.len()
        invariant
            j <= keys.len(),
            kv == key_views(keys@),
            len == max_end(kv.subrange(0, j as int)),
            len <= usize::MAX,
        decreases keys.len() - j,
    {
        let p = keys[j].pos;
        let e: usize = if p == usize::MAX { 0 } else { p + 1 };
        proof {
            assert(kv.subrange(0, j + 1).drop_last() == kv.subrange(0, j as int));
            assert(kv.subrange(0, j + 1).last() == kv[j as int]);
        }
        if e > len {
            len = e;
        }
        j = j + 1;
    }
    assert(kv.subrange(0, keys@.len() as int) == kv);
    if len > MAX_DENSE {
        len = MAX_DENSE;
    }
    assert(len == dense_len(kv));
    let mut out: Vec<Key> = Vec::new();
    let mut i: usize = 0;
    while i < len
        invariant
            i <= len,
            out@.len() == i,
            forall|k: int| 0 <= k < i ==> (#[trigger] out@[k])@ == empty_key(k as usize),
        decreases len - i,
    {
        out.push(Key::empty(i));
        i = i + 1;
    }
    let mut j: usize = 0;
    while j < keys.len()
        invariant
            j <= keys.len(),
            kv == key_views(keys@),
            len == dense_len(kv),
            out@.len() == len,
            forall|k: int|
                0 <= k < len ==> (#[trigger] out@[k])@ == dense_slot(kv.subrange(0, j as int), k),
        decreases keys.len() - j,
    {
        let p = keys[j].pos;
        proof {
            let pre = kv.subrange(0, j as int);
            let nxt = kv.subrange(0, j + 1);
            assert(nxt.drop_last() == pre);
            assert(nxt.last() == kv[j as int]);
        }
        if p < len {
            let k = keys[j].clone();
            out.set(p, k);
        }
        j = j + 1;
    }
    proof {
        assert(kv.subrange(0, keys@.len() as int) == kv);
        assert(key_views(out@) =~= dense(kv));
    }
    out
}

/// Total client pages a deck page needs on `grid`: at least one, so an empty page still renders.
pub open spec fn page_count(keys: Seq<KeyView>, grid: Grid) -> int {
    let n = dense_len(keys) as int;
    let u = grid.spec_usable();
    let c = (n + u - 1) / u;
    if c < 1 {
        1
    } else {
        c
    }
}

/// Total client pages this deck page needs on `grid`.
pub fn pages(page: &Page, grid: Grid) -> (r: usize)
    requires
        grid.wf(),
    ensures
        r == page_count(page@.keys, grid),
        r >= 1,
        r <= MAX_DENSE,
{
    let all = dense_exec(&page.keys);
    let n = all.len();
    assert(n == dense(key_views(page.keys@)).len());
    let u = grid.usable();
    assert((n + u - 1) / (u as int) <= MAX_DENSE) by (nonlinear_arith)
        requires
            n <= MAX_DENSE,
            u >= 1,
    ;
    let c = (n + u - 1) / u;
    if c < 1 {
        1
    } else {
        c
    }
}

} // verus!

verus! {

// ---------------------------------------------------------------------------------------------
// Arrow keys
// ---------------------------------------------------------------------------------------------

/// The four directions a key can point in.
#[derive(Clone, Copy, PartialEq, Eq, Debug, Structural)]
pub enum ArrowDirection {
    Up,
    Down,
    Left,
    Right,
}

/// Which way a key points, by its icon.
pub open spec fn arrow_dir(k: KeyView) -> Option<ArrowDirection> {
    if k.icon == "scrollup"@ || k.icon == "up"@ {
        Some(ArrowDirection::Up)
    } else if k.icon == "scrolldown"@ || k.icon == "down"@ {
        Some(ArrowDirection::Down)
    } else if k.icon == "prev"@ || k.icon == "back"@ || k.icon == "left"@ {
        Some(ArrowDirection::Left)
    } else if k.icon == "next"@ || k.icon == "fwdnav"@ || k.icon == "right"@ {
        Some(ArrowDirection::Right)
    } else {
        None
    }
}

/// Which way a key points.
pub fn arrow_direction(key: &Key) -> (r: Option<ArrowDirection>)
    ensures
        r == arrow_dir(key@),
{
    let icon = chars_of(key.icon.as_str());
    let s = icon.as_slice();
    if is(s, "scrollup") || is(s, "up") {
        Some(ArrowDirection::Up)
    } else if is(s, "scrolldown") || is(s, "down") {
        Some(ArrowDirection::Down)
    } else if is(s, "prev") || is(s, "back") || is(s, "left") {
        Some(ArrowDirection::Left)
    } else if is(s, "next") || is(s, "fwdnav") || is(s, "right") {
        Some(ArrowDirection::Right)
    } else {
        None
    }
}

/// The first index at or after `i` of a key pointing `d`.
pub open spec fn first_dir_from(keys: Seq<KeyView>, d: ArrowDirection, i: int) -> Option<int>
    decreases keys.len() - i,
{
    if i < 0 || i >= keys.len() {
        None
    } else if arrow_dir(keys[i]) == Some(d) {
        Some(i)
    } else {
        first_dir_from(keys, d, i + 1)
    }
}

/// The first key pointing `d`.
pub open spec fn first_dir(keys: Seq<KeyView>, d: ArrowDirection) -> Option<int> {
    first_dir_from(keys, d, 0)
}

/// `first_dir_from` finds a key pointing that way, at or after `i`.
pub proof fn lemma_first_dir_from(keys: Seq<KeyView>, d: ArrowDirection, i: int)
    requires
        0 <= i,
    ensures
        first_dir_from(keys, d, i) matches Some(j) ==> i <= j < keys.len() && arrow_dir(keys[j])
            == Some(d),
    decreases keys.len() - i,
{
    if i < keys.len() && arrow_dir(keys[i]) != Some(d) {
        lemma_first_dir_from(keys, d, i + 1);
    }
}

/// The arrangements the arrow keys can take.
#[derive(Clone, Copy, PartialEq, Eq, Debug, Structural)]
pub enum Shape {
    /// Up above Down, Left and Right beside Down: an inverted T.
    Four,
    /// Up directly above Down.
    Vertical,
    /// Left immediately left of Right.
    Horizontal,
}

/// The cells the arrows occupy for the block anchored at (row, col), in the order the selection
/// lists them: Up, Left, Down, Right for `Four`; Up, Down for `Vertical`; Left, Right for
/// `Horizontal`.
pub open spec fn shape_targets(shape: Shape, cols: int, row: int, col: int) -> Seq<int> {
    match shape {
        Shape::Four => seq![
            row * cols + col + 1,
            (row + 1) * cols + col,
            (row + 1) * cols + col + 1,
            (row + 1) * cols + col + 2,
        ],
        Shape::Vertical => seq![row * cols + col, (row + 1) * cols + col],
        Shape::Horizontal => seq![row * cols + col, row * cols + col + 1],
    }
}

/// Every cell of the block lands inside the page.
pub open spec fn fits(shape: Shape, cols: int, size: int, row: int, col: int) -> bool {
    forall|k: int| 0 <= k < shape_targets(shape, cols, row, col).len() ==> #[trigger] shape_targets(
        shape,
        cols,
        row,
        col,
    )[k] < size
}

/// The last column below `n` of row `row` where the block fits.
pub open spec fn scan_row(shape: Shape, cols: int, size: int, row: int, n: int) -> Option<int>
    decreases n,
{
    if n <= 0 {
        None
    } else if fits(shape, cols, size, row, n - 1) {
        Some(n - 1)
    } else {
        scan_row(shape, cols, size, row, n - 1)
    }
}

/// The last (row, col) in row-major order, rows below `nrow` and columns below `ncol`, where the
/// block fits: what a scan that keeps overwriting its answer ends with.
pub open spec fn scan(shape: Shape, cols: int, size: int, nrow: int, ncol: int) -> Option<(int, int)>
    decreases nrow,
{
    if nrow <= 0 {
        None
    } else {
        match scan_row(shape, cols, size, nrow - 1, ncol) {
            Some(c) => Some((nrow - 1, c)),
            None => scan(shape, cols, size, nrow - 1, ncol),
        }
    }
}

/// How many rows and columns a block's anchor can range over on `grid`.
pub open spec fn anchor_range(shape: Shape, grid: Grid) -> (int, int) {
    match shape {
        Shape::Four => (grid.rows - 1, grid.cols - 2),
        Shape::Vertical => (grid.rows - 1, grid.cols as int),
        Shape::Horizontal => (grid.rows as int, grid.cols - 1),
    }
}

/// Where a block of this shape goes on a page of `size` keys, if anywhere.
pub open spec fn place(shape: Shape, grid: Grid, size: int) -> Option<(int, int)> {
    let (nr, nc) = anchor_range(shape, grid);
    if nr >= 1 && nc >= 1 {
        scan(shape, grid.cols as int, size, nr, nc)
    } else {
        None
    }
}

/// The (source index, target cell) moves for `shape` anchored at (row, col), given the sources.
pub open spec fn moves(shape: Shape, cols: int, row: int, col: int, srcs: Seq<int>) -> Seq<(int, int)> {
    let t = shape_targets(shape, cols, row, col);
    Seq::new(t.len(), |k: int| (srcs[k], t[k]))
}

/// Which keys move where: the inverted T when all four arrows exist and fit, otherwise a vertical
/// pair when Up and Down exist, otherwise a horizontal pair when Left and Right do.
pub open spec fn selection(keys: Seq<KeyView>, grid: Grid) -> Seq<(int, int)> {
    let size = keys.len() as int;
    let up = first_dir(keys, ArrowDirection::Up);
    let down = first_dir(keys, ArrowDirection::Down);
    let left = first_dir(keys, ArrowDirection::Left);
    let right = first_dir(keys, ArrowDirection::Right);
    let four = if up is Some && down is Some && left is Some && right is Some {
        match place(Shape::Four, grid, size) {
            Some((r, c)) => moves(
                Shape::Four,
                grid.cols as int,
                r,
                c,
                seq![up->0, left->0, down->0, right->0],
            ),
            None => Seq::empty(),
        }
    } else {
        Seq::empty()
    };
    if four.len() > 0 {
        four
    } else if up is Some && down is Some {
        match place(Shape::Vertical, grid, size) {
            Some((r, c)) => moves(Shape::Vertical, grid.cols as int, r, c, seq![up->0, down->0]),
            None => Seq::empty(),
        }
    } else if left is Some && right is Some {
        match place(Shape::Horizontal, grid, size) {
            Some((r, c)) => moves(
                Shape::Horizontal,
                grid.cols as int,
                r,
                c,
                seq![left->0, right->0],
            ),
            None => Seq::empty(),
        }
    } else {
        Seq::empty()
    }
}

/// The first move whose target is cell `t`.
pub open spec fn move_into(sel: Seq<(int, int)>, t: int) -> Option<int>
    decreases sel.len(),
{
    if sel.len() == 0 {
        None
    } else if sel[0].1 == t {
        Some(0)
    } else {
        match move_into(sel.drop_first(), t) {
            Some(j) => Some(j + 1),
            None => None,
        }
    }
}

/// Whether index `i` is the source of some move.
pub open spec fn is_source(sel: Seq<(int, int)>, i: int) -> bool {
    exists|j: int| 0 <= j < sel.len() && sel[j].0 == i
}

/// The keys that do not move, in their original order, among the first `n`.
pub open spec fn staying(keys: Seq<KeyView>, sel: Seq<(int, int)>, n: int) -> Seq<KeyView>
    decreases n,
{
    if n <= 0 {
        Seq::empty()
    } else if is_source(sel, n - 1) {
        staying(keys, sel, n - 1)
    } else {
        staying(keys, sel, n - 1).push(keys[n - 1])
    }
}

/// How many cells below `n` are the target of some move.
pub open spec fn targets_below(sel: Seq<(int, int)>, n: int) -> nat
    decreases n,
{
    if n <= 0 {
        0
    } else {
        targets_below(sel, n - 1) + if move_into(sel, n - 1) is Some {
            1nat
        } else {
            0nat
        }
    }
}

/// Directional keys moved into keyboard geometry without consuming extra cells: the selected keys
/// land on their targets, and every other key fills the remaining cells in its original order.
pub open spec fn arrange(keys: Seq<KeyView>, grid: Grid) -> Seq<KeyView> {
    let sel = selection(keys, grid);
    if sel.len() == 0 {
        keys
    } else {
        let stay = staying(keys, sel, keys.len() as int);
        Seq::new(
            keys.len(),
            |t: int|
                match move_into(sel, t) {
                    Some(j) => keys[sel[j].0],
                    None => stay[t - targets_below(sel, t)],
                },
        )
    }
}

} // verus!

verus! {

// ---------------------------------------------------------------------------------------------
// Counting cells: the arithmetic behind "no key is lost"
// ---------------------------------------------------------------------------------------------

/// How many of the cells `0..n` appear in `xs`.
pub open spec fn count_in(xs: Seq<int>, n: int) -> nat
    decreases n,
{
    if n <= 0 {
        0
    } else {
        count_in(xs, n - 1) + if xs.contains(n - 1) {
            1nat
        } else {
            0nat
        }
    }
}

/// How many entries of `xs` are below `n`.
pub open spec fn cnt_lt(xs: Seq<int>, n: int) -> nat
    decreases xs.len(),
{
    if xs.len() == 0 {
        0
    } else {
        cnt_lt(xs.drop_last(), n) + if xs.last() < n {
            1nat
        } else {
            0nat
        }
    }
}

/// How many entries of `xs` equal `v`.
pub open spec fn cnt_eq(xs: Seq<int>, v: int) -> nat
    decreases xs.len(),
{
    if xs.len() == 0 {
        0
    } else {
        cnt_eq(xs.drop_last(), v) + if xs.last() == v {
            1nat
        } else {
            0nat
        }
    }
}

proof fn lemma_cnt_lt_succ(xs: Seq<int>, n: int)
    ensures
        cnt_lt(xs, n + 1) == cnt_lt(xs, n) + cnt_eq(xs, n),
    decreases xs.len(),
{
    if xs.len() > 0 {
        lemma_cnt_lt_succ(xs.drop_last(), n);
    }
}

proof fn lemma_cnt_eq_distinct(xs: Seq<int>, v: int)
    requires
        xs.no_duplicates(),
    ensures
        cnt_eq(xs, v) == if xs.contains(v) {
            1nat
        } else {
            0nat
        },
    decreases xs.len(),
{
    if xs.len() > 0 {
        let d = xs.drop_last();
        assert(d.no_duplicates()) by {
            assert forall|i: int, j: int| 0 <= i < d.len() && 0 <= j < d.len() && i != j implies d[i]
                != d[j] by {
                assert(d[i] == xs[i] && d[j] == xs[j]);
            }
        }
        lemma_cnt_eq_distinct(d, v);
        if xs.last() == v {
            if d.contains(v) {
                let i = choose|i: int| 0 <= i < d.len() && d[i] == v;
                assert(xs[i] == xs[xs.len() - 1]);
            }
        } else {
            if xs.contains(v) {
                let i = choose|i: int| 0 <= i < xs.len() && xs[i] == v;
                assert(d[i] == v);
            }
            if d.contains(v) {
                let i = choose|i: int| 0 <= i < d.len() && d[i] == v;
                assert(xs[i] == v);
            }
        }
    }
}

proof fn lemma_cnt_lt_nonneg(xs: Seq<int>)
    requires
        forall|j: int| 0 <= j < xs.len() ==> xs[j] >= 0,
    ensures
        cnt_lt(xs, 0) == 0,
    decreases xs.len(),
{
    if xs.len() > 0 {
        lemma_cnt_lt_nonneg(xs.drop_last());
    }
}

/// For distinct non-negative cells, counting the cells below `n` that occur equals counting the
/// entries below `n`.
pub proof fn lemma_count_in_distinct(xs: Seq<int>, n: int)
    requires
        xs.no_duplicates(),
        forall|j: int| 0 <= j < xs.len() ==> xs[j] >= 0,
        n >= 0,
    ensures
        count_in(xs, n) == cnt_lt(xs, n),
    decreases n,
{
    if n == 0 {
        lemma_cnt_lt_nonneg(xs);
    } else {
        lemma_count_in_distinct(xs, n - 1);
        lemma_cnt_lt_succ(xs, n - 1);
        lemma_cnt_eq_distinct(xs, n - 1);
    }
}

/// When every entry is below `size`, all of them are counted.
pub proof fn lemma_cnt_lt_all(xs: Seq<int>, size: int)
    requires
        forall|j: int| 0 <= j < xs.len() ==> xs[j] < size,
    ensures
        cnt_lt(xs, size) == xs.len(),
    decreases xs.len(),
{
    if xs.len() > 0 {
        lemma_cnt_lt_all(xs.drop_last(), size);
    }
}

/// The count grows by at most one per cell.
pub proof fn lemma_count_in_growth(xs: Seq<int>, n: int, m: int)
    requires
        0 <= n <= m,
    ensures
        count_in(xs, m) <= count_in(xs, n) + (m - n),
        count_in(xs, n) <= count_in(xs, m),
    decreases m - n,
{
    if n < m {
        lemma_count_in_growth(xs, n, m - 1);
    }
}

/// The cells the moves land on.
pub open spec fn move_targets(sel: Seq<(int, int)>) -> Seq<int> {
    sel.map_values(|p: (int, int)| p.1)
}

/// The keys the moves take.
pub open spec fn move_sources(sel: Seq<(int, int)>) -> Seq<int> {
    sel.map_values(|p: (int, int)| p.0)
}

/// `move_into` finds the first move into a cell, and finds one exactly when one exists.
pub proof fn lemma_move_into(sel: Seq<(int, int)>, t: int)
    ensures
        move_into(sel, t) matches Some(j) ==> 0 <= j < sel.len() && sel[j].1 == t,
        move_into(sel, t) is Some <==> move_targets(sel).contains(t),
    decreases sel.len(),
{
    if sel.len() > 0 {
        lemma_move_into(sel.drop_first(), t);
        if sel[0].1 != t {
            if move_targets(sel).contains(t) {
                let j = choose|j: int| 0 <= j < sel.len() && move_targets(sel)[j] == t;
                assert(move_targets(sel.drop_first())[j - 1] == t);
            }
            if move_targets(sel.drop_first()).contains(t) {
                let j = choose|j: int|
                    0 <= j < sel.len() - 1 && move_targets(sel.drop_first())[j] == t;
                assert(move_targets(sel)[j + 1] == t);
            }
        } else {
            assert(move_targets(sel)[0] == t);
        }
    }
}

/// Counting target cells below `n` is counting the occurrences of the targets.
pub proof fn lemma_targets_below(sel: Seq<(int, int)>, n: int)
    ensures
        targets_below(sel, n) == count_in(move_targets(sel), n),
    decreases n,
{
    if n > 0 {
        lemma_targets_below(sel, n - 1);
        lemma_move_into(sel, n - 1);
    }
}

/// How many keys stay: those that are no move's source.
pub proof fn lemma_staying_len(keys: Seq<KeyView>, sel: Seq<(int, int)>, n: int)
    requires
        0 <= n,
    ensures
        staying(keys, sel, n).len() + count_in(move_sources(sel), n) == n,
    decreases n,
{
    if n > 0 {
        lemma_staying_len(keys, sel, n - 1);
        if is_source(sel, n - 1) {
            let j = choose|j: int| 0 <= j < sel.len() && sel[j].0 == n - 1;
            assert(move_sources(sel)[j] == n - 1);
        } else {
            if move_sources(sel).contains(n - 1) {
                let j = choose|j: int| 0 <= j < sel.len() && move_sources(sel)[j] == n - 1;
                assert(sel[j].0 == n - 1);
            }
        }
    }
}

/// Every key that stays is one of the keys.
pub proof fn lemma_staying_from(keys: Seq<KeyView>, sel: Seq<(int, int)>, n: int)
    requires
        0 <= n <= keys.len(),
    ensures
        forall|i: int|
            0 <= i < staying(keys, sel, n).len() ==> exists|j: int|
                0 <= j < n && !is_source(sel, j) && #[trigger] staying(keys, sel, n)[i] == keys[j],
    decreases n,
{
    if n > 0 {
        lemma_staying_from(keys, sel, n - 1);
        let prev = staying(keys, sel, n - 1);
        let cur = staying(keys, sel, n);
        assert forall|i: int| 0 <= i < cur.len() implies exists|j: int|
            0 <= j < n && !is_source(sel, j) && #[trigger] cur[i] == keys[j] by {
            if i < prev.len() {
                assert(cur[i] == prev[i]);
                let j = choose|j: int| 0 <= j < n - 1 && !is_source(sel, j) && prev[i] == keys[j];
            } else {
                assert(cur[i] == keys[n - 1]);
            }
        }
    }
}

} // verus!

verus! {

/// An optional anchor, as integers.
pub open spec fn opt_pair(o: Option<(usize, usize)>) -> Option<(int, int)> {
    match o {
        Some((a, b)) => Some((a as int, b as int)),
        None => None,
    }
}

/// A list of moves, as integers.
pub open spec fn sel_view(s: Seq<(usize, usize)>) -> Seq<(int, int)> {
    s.map_values(|p: (usize, usize)| (p.0 as int, p.1 as int))
}

/// Whether the block anchored at (row, col) lands inside a page of `size` cells.
fn fits_exec(shape: Shape, cols: usize, size: usize, row: usize, col: usize) -> (r: bool)
    requires
        cols <= MAX_SIDE,
        row <= MAX_SIDE,
        col <= MAX_SIDE,
    ensures
        r == fits(shape, cols as int, size as int, row as int, col as int),
{
    assert(row * cols <= 144 && (row + 1) * cols <= 156) by (nonlinear_arith)
        requires
            row <= 12,
            cols <= 12,
    ;
    let a = row * cols + col;
    let b = (row + 1) * cols + col;
    let ghost t = shape_targets(shape, cols as int, row as int, col as int);
    match shape {
        Shape::Four => {
            assert(t.len() == 4 && t[0] == a + 1 && t[1] == b && t[2] == b + 1 && t[3] == b + 2);
            a + 1 < size && b < size && b + 1 < size && b + 2 < size
        },
        Shape::Vertical => {
            assert(t.len() == 2 && t[0] == a && t[1] == b);
            a < size && b < size
        },
        Shape::Horizontal => {
            assert(t.len() == 2 && t[0] == a && t[1] == a + 1);
            a < size && a + 1 < size
        },
    }
}

/// Where a block of this shape goes on a page of `size` keys, if anywhere.
fn place_exec(shape: Shape, grid: Grid, size: usize) -> (r: Option<(usize, usize)>)
    requires
        grid.wf(),
    ensures
        opt_pair(r) == place(shape, grid, size as int),
{
    let (nr, nc): (usize, usize) = match shape {
        Shape::Four => (
            if grid.rows >= 1 { grid.rows - 1 } else { 0 },
            if grid.cols >= 2 { grid.cols - 2 } else { 0 },
        ),
        Shape::Vertical => (if grid.rows >= 1 { grid.rows - 1 } else { 0 }, grid.cols),
        Shape::Horizontal => (grid.rows, if grid.cols >= 1 { grid.cols - 1 } else { 0 }),
    };
    if nr < 1 || nc < 1 {
        return None;
    }
    assert((nr as int, nc as int) == anchor_range(shape, grid));
    let cols = grid.cols;
    let mut best: Option<(usize, usize)> = None;
    let mut row: usize = 0;
    while row < nr
        invariant
            grid.wf(),
            cols == grid.cols,
            nr <= MAX_SIDE,
            nc <= MAX_SIDE,
            row <= nr,
            opt_pair(best) == scan(shape, cols as int, size as int, row as int, nc as int),
        decreases nr - row,
    {
        let mut col: usize = 0;
        while col < nc
            invariant
                grid.wf(),
                cols == grid.cols,
                nr <= MAX_SIDE,
                nc <= MAX_SIDE,
                row < nr,
                col <= nc,
                opt_pair(best) == match scan_row(
                    shape,
                    cols as int,
                    size as int,
                    row as int,
                    col as int,
                ) {
                    Some(c) => Some((row as int, c)),
                    None => scan(shape, cols as int, size as int, row as int, nc as int),
                },
            decreases nc - col,
        {
            if fits_exec(shape, cols, size, row, col) {
                best = Some((row, col));
            }
            col = col + 1;
        }
        row = row + 1;
    }
    best
}

/// The first key pointing `d`.
fn first_dir_exec(keys: &Vec<Key>, d: ArrowDirection) -> (r: Option<usize>)
    ensures
        r matches Some(i) ==> first_dir(key_views(keys@), d) == Some(i as int),
        r is None ==> first_dir(key_views(keys@), d) is None,
{
    let ghost kv = key_views(keys@);
    let mut i: usize = 0;
    while i < keys.len()
        invariant
            i <= keys.len(),
            kv == key_views(keys@),
            first_dir(kv, d) == first_dir_from(kv, d, i as int),
        decreases keys.len() - i,
    {
        if arrow_direction(&keys[i]) == Some(d) {
            return Some(i);
        }
        i = i + 1;
    }
    None
}

/// The moves for a block anchored at (row, col) with the given sources, in the selection's order.
fn moves_exec(shape: Shape, cols: usize, row: usize, col: usize, srcs: &Vec<usize>) -> (r: Vec<
    (usize, usize),
>)
    requires
        cols <= MAX_SIDE,
        row <= MAX_SIDE,
        col <= MAX_SIDE,
        srcs.len() == shape_targets(shape, cols as int, row as int, col as int).len(),
    ensures
        sel_view(r@) == moves(
            shape,
            cols as int,
            row as int,
            col as int,
            srcs@.map_values(|s: usize| s as int),
        ),
{
    assert(row * cols <= 144 && (row + 1) * cols <= 156) by (nonlinear_arith)
        requires
            row <= 12,
            cols <= 12,
    ;
    let a = row * cols + col;
    let b = (row + 1) * cols + col;
    let targets: Vec<usize> = match shape {
        Shape::Four => vec![a + 1, b, b + 1, b + 2],
        Shape::Vertical => vec![a, b],
        Shape::Horizontal => vec![a, a + 1],
    };
    let ghost t = shape_targets(shape, cols as int, row as int, col as int);
    assert(targets@.map_values(|x: usize| x as int) =~= t);
    let mut r: Vec<(usize, usize)> = Vec::new();
    let mut k: usize = 0;
    while k < targets.len()
        invariant
            k <= targets.len(),
            targets.len() == srcs.len(),
            targets@.map_values(|x: usize| x as int) == t,
            t.len() == targets.len(),
            t == shape_targets(shape, cols as int, row as int, col as int),
            sel_view(r@) == moves(
                shape,
                cols as int,
                row as int,
                col as int,
                srcs@.map_values(|s: usize| s as int),
            ).subrange(0, k as int),
        decreases targets.len() - k,
    {
        let ghost prev = r@;
        r.push((srcs[k], targets[k]));
        proof {
            assert(r@ == prev.push((srcs[k as int], targets[k as int])));
            assert(sel_view(r@) =~= sel_view(prev).push((srcs[k as int] as int, targets[k as int] as int)));
            assert(t[k as int] == targets[k as int] as int);
            let m = moves(
                shape,
                cols as int,
                row as int,
                col as int,
                srcs@.map_values(|s: usize| s as int),
            );
            assert(m.len() == t.len());
            assert(sel_view(r@) =~= m.subrange(0, k + 1));
        }
        k = k + 1;
    }
    proof {
        let m = moves(
            shape,
            cols as int,
            row as int,
            col as int,
            srcs@.map_values(|s: usize| s as int),
        );
        assert(m.subrange(0, m.len() as int) == m);
    }
    r
}

/// Which keys move where.
fn selection_exec(keys: &Vec<Key>, grid: Grid) -> (r: Vec<(usize, usize)>)
    requires
        grid.wf(),
    ensures
        sel_view(r@) == selection(key_views(keys@), grid),
{
    let ghost kv = key_views(keys@);
    let size = keys.len();
    let up = first_dir_exec(keys, ArrowDirection::Up);
    let down = first_dir_exec(keys, ArrowDirection::Down);
    let left = first_dir_exec(keys, ArrowDirection::Left);
    let right = first_dir_exec(keys, ArrowDirection::Right);
    let mut four: Vec<(usize, usize)> = Vec::new();
    if let (Some(u), Some(d), Some(l), Some(rt)) = (up, down, left, right) {
        if let Some((row, col)) = place_exec(Shape::Four, grid, size) {
            proof { lemma_scan_range(Shape::Four, grid, size as int); }
            let srcs = vec![u, l, d, rt];
            assert(srcs@.map_values(|s: usize| s as int) =~= seq![
                u as int,
                l as int,
                d as int,
                rt as int,
            ]);
            four = moves_exec(Shape::Four, grid.cols, row, col, &srcs);
        }
    }
    assert(sel_view(four@).len() == four@.len());
    if four.len() > 0 {
        return four;
    }
    if let (Some(u), Some(d)) = (up, down) {
        if let Some((row, col)) = place_exec(Shape::Vertical, grid, size) {
            proof { lemma_scan_range(Shape::Vertical, grid, size as int); }
            let srcs = vec![u, d];
            assert(srcs@.map_values(|s: usize| s as int) =~= seq![u as int, d as int]);
            return moves_exec(Shape::Vertical, grid.cols, row, col, &srcs);
        }
        let empty: Vec<(usize, usize)> = Vec::new();
        assert(sel_view(empty@) =~= Seq::<(int, int)>::empty());
        return empty;
    }
    if let (Some(l), Some(rt)) = (left, right) {
        if let Some((row, col)) = place_exec(Shape::Horizontal, grid, size) {
            proof { lemma_scan_range(Shape::Horizontal, grid, size as int); }
            let srcs = vec![l, rt];
            assert(srcs@.map_values(|s: usize| s as int) =~= seq![l as int, rt as int]);
            return moves_exec(Shape::Horizontal, grid.cols, row, col, &srcs);
        }
    }
    let empty: Vec<(usize, usize)> = Vec::new();
    assert(sel_view(empty@) =~= Seq::<(int, int)>::empty());
    empty
}

/// A scan only ever answers with an anchor inside its range, where the block fits.
pub proof fn lemma_scan_row(shape: Shape, cols: int, size: int, row: int, n: int)
    ensures
        scan_row(shape, cols, size, row, n) matches Some(c) ==> 0 <= c < n && fits(
            shape,
            cols,
            size,
            row,
            c,
        ),
    decreases n,
{
    if n > 0 && !fits(shape, cols, size, row, n - 1) {
        lemma_scan_row(shape, cols, size, row, n - 1);
    }
}

/// A scan only ever answers with an anchor inside its range, where the block fits.
pub proof fn lemma_scan(shape: Shape, cols: int, size: int, nrow: int, ncol: int)
    ensures
        scan(shape, cols, size, nrow, ncol) matches Some((r, c)) ==> 0 <= r < nrow && 0 <= c < ncol
            && fits(shape, cols, size, r, c),
    decreases nrow,
{
    if nrow > 0 {
        lemma_scan_row(shape, cols, size, nrow - 1, ncol);
        lemma_scan(shape, cols, size, nrow - 1, ncol);
    }
}

/// A placement is an anchor inside the grid's range, where the block fits.
pub proof fn lemma_scan_range(shape: Shape, grid: Grid, size: int)
    requires
        grid.wf(),
    ensures
        place(shape, grid, size) matches Some((r, c)) ==> 0 <= r < anchor_range(shape, grid).0
            && 0 <= c < anchor_range(shape, grid).1 && r <= MAX_SIDE && c <= MAX_SIDE && fits(
            shape,
            grid.cols as int,
            size,
            r,
            c,
        ),
{
    let (nr, nc) = anchor_range(shape, grid);
    lemma_scan(shape, grid.cols as int, size, nr, nc);
}

} // verus!

verus! {

/// The selection never names a key or a cell outside the page, takes each key at most once, and
/// lands on each cell at most once.
pub proof fn lemma_selection_wf(keys: Seq<KeyView>, grid: Grid)
    requires
        grid.wf(),
    ensures
        forall|j: int|
            0 <= j < selection(keys, grid).len() ==> 0 <= #[trigger] selection(keys, grid)[j].0
                < keys.len() && 0 <= selection(keys, grid)[j].1 < keys.len(),
        move_sources(selection(keys, grid)).no_duplicates(),
        move_targets(selection(keys, grid)).no_duplicates(),
{
    let size = keys.len() as int;
    let sel = selection(keys, grid);
    let cols = grid.cols as int;
    let up = first_dir(keys, ArrowDirection::Up);
    let down = first_dir(keys, ArrowDirection::Down);
    let left = first_dir(keys, ArrowDirection::Left);
    let right = first_dir(keys, ArrowDirection::Right);
    lemma_first_dir_from(keys, ArrowDirection::Up, 0);
    lemma_first_dir_from(keys, ArrowDirection::Down, 0);
    lemma_first_dir_from(keys, ArrowDirection::Left, 0);
    lemma_first_dir_from(keys, ArrowDirection::Right, 0);
    lemma_scan_range(Shape::Four, grid, size);
    lemma_scan_range(Shape::Vertical, grid, size);
    lemma_scan_range(Shape::Horizontal, grid, size);
    let four_ok = up is Some && down is Some && left is Some && right is Some && place(
        Shape::Four,
        grid,
        size,
    ) is Some;
    if four_ok {
        let (r, c) = place(Shape::Four, grid, size)->0;
        let t = shape_targets(Shape::Four, cols, r, c);
        assert(t[0] < size && t[1] < size && t[2] < size && t[3] < size);
        assert((r + 1) * cols == r * cols + cols && r * cols >= 0) by (nonlinear_arith)
            requires
                r >= 0,
                cols >= 0,
        ;
        assert(sel == moves(Shape::Four, cols, r, c, seq![up->0, left->0, down->0, right->0]));
        assert(move_sources(sel) =~= seq![up->0, left->0, down->0, right->0]);
        assert(move_targets(sel) =~= t);
    } else if up is Some && down is Some {
        if let Some((r, c)) = place(Shape::Vertical, grid, size) {
            let t = shape_targets(Shape::Vertical, cols, r, c);
            assert(t[0] < size && t[1] < size);
            assert((r + 1) * cols == r * cols + cols && r * cols >= 0) by (nonlinear_arith)
                requires
                    r >= 0,
                    cols >= 0,
            ;
            assert(move_sources(sel) =~= seq![up->0, down->0]);
            assert(move_targets(sel) =~= t);
        } else {
            assert(sel.len() == 0);
            assert(move_sources(sel) =~= Seq::<int>::empty());
            assert(move_targets(sel) =~= Seq::<int>::empty());
        }
    } else if left is Some && right is Some {
        if let Some((r, c)) = place(Shape::Horizontal, grid, size) {
            let t = shape_targets(Shape::Horizontal, cols, r, c);
            assert(t[0] < size && t[1] < size);
            assert(r * cols >= 0) by (nonlinear_arith)
                requires
                    r >= 0,
                    cols >= 0,
            ;
            assert(move_sources(sel) =~= seq![left->0, right->0]);
            assert(move_targets(sel) =~= t);
        } else {
            assert(sel.len() == 0);
            assert(move_sources(sel) =~= Seq::<int>::empty());
            assert(move_targets(sel) =~= Seq::<int>::empty());
        }
    } else {
        assert(sel.len() == 0);
        assert(move_sources(sel) =~= Seq::<int>::empty());
        assert(move_targets(sel) =~= Seq::<int>::empty());
    }
}

/// Whether index `i` is the source of some move.
fn is_source_exec(sel: &Vec<(usize, usize)>, i: usize) -> (r: bool)
    ensures
        r == is_source(sel_view(sel@), i as int),
{
    let mut j: usize = 0;
    while j < sel.len()
        invariant
            j <= sel.len(),
            forall|k: int| 0 <= k < j ==> sel_view(sel@)[k].0 != i,
        decreases sel.len() - j,
    {
        if sel[j].0 == i {
            assert(sel_view(sel@)[j as int].0 == i);
            return true;
        }
        j = j + 1;
    }
    false
}

/// The first move into cell `t`.
fn move_into_exec(sel: &Vec<(usize, usize)>, t: usize) -> (r: Option<usize>)
    ensures
        r matches Some(j) ==> move_into(sel_view(sel@), t as int) == Some(j as int),
        r is None ==> move_into(sel_view(sel@), t as int) is None,
{
    let ghost sv = sel_view(sel@);
    let mut j: usize = 0;
    while j < sel.len()
        invariant
            j <= sel.len(),
            sv == sel_view(sel@),
            forall|k: int| 0 <= k < j ==> sv[k].1 != t,
        decreases sel.len() - j,
    {
        if sel[j].1 == t {
            proof {
                lemma_move_into_first(sv, t as int, j as int);
            }
            return Some(j);
        }
        j = j + 1;
    }
    proof {
        lemma_move_into(sv, t as int);
        if move_into(sv, t as int) is Some {
            let k = move_into(sv, t as int)->0;
            assert(sv[k].1 == t);
        }
    }
    None
}

/// The first move into `t` is the first index whose target is `t`.
proof fn lemma_move_into_first(sel: Seq<(int, int)>, t: int, j: int)
    requires
        0 <= j < sel.len(),
        sel[j].1 == t,
        forall|k: int| 0 <= k < j ==> sel[k].1 != t,
    ensures
        move_into(sel, t) == Some(j),
    decreases j,
{
    if j > 0 {
        assert forall|k: int| 0 <= k < j - 1 implies sel.drop_first()[k].1 != t by {
            assert(sel.drop_first()[k] == sel[k + 1]);
        }
        lemma_move_into_first(sel.drop_first(), t, j - 1);
    }
}

/// Arrow keys moved into keyboard geometry; every other key keeps its relative order.
fn arrange_exec(keys: Vec<Key>, grid: Grid) -> (r: Vec<Key>)
    requires
        grid.wf(),
    ensures
        key_views(r@) == arrange(key_views(keys@), grid),
{
    let ghost kv = key_views(keys@);
    let sel = selection_exec(&keys, grid);
    let ghost sv = sel_view(sel@);
    if sel.len() == 0 {
        return keys;
    }
    proof {
        lemma_selection_wf(kv, grid);
    }
    let size = keys.len();
    let mut stay: Vec<Key> = Vec::new();
    let mut i: usize = 0;
    while i < size
        invariant
            size == keys.len(),
            kv == key_views(keys@),
            sv == sel_view(sel@),
            i <= size,
            key_views(stay@) == staying(kv, sv, i as int),
        decreases size - i,
    {
        if !is_source_exec(&sel, i) {
            stay.push(keys[i].clone());
            proof {
                assert(key_views(stay@) =~= staying(kv, sv, i as int).push(kv[i as int]));
            }
        }
        i = i + 1;
    }
    proof {
        lemma_staying_len(kv, sv, size as int);
        lemma_count_in_distinct(move_sources(sv), size as int);
        lemma_cnt_lt_all(move_sources(sv), size as int);
        lemma_count_in_distinct(move_targets(sv), size as int);
        lemma_cnt_lt_all(move_targets(sv), size as int);
    }
    let ghost stay_v = staying(kv, sv, size as int);
    assert(stay@.len() + sv.len() == size);
    let mut out: Vec<Key> = Vec::new();
    let mut rix: usize = 0;
    let mut t: usize = 0;
    while t < size
        invariant
            size == keys.len(),
            kv == key_views(keys@),
            sv == sel_view(sel@),
            sv == selection(kv, grid),
            sv.len() > 0,
            t <= size,
            key_views(stay@) == stay_v,
            stay_v == staying(kv, sv, size as int),
            stay@.len() + sv.len() == size,
            count_in(move_targets(sv), size as int) == sv.len(),
            forall|j: int| 0 <= j < sv.len() ==> 0 <= #[trigger] sv[j].0 < size && 0 <= sv[j].1 < size,
            rix + targets_below(sv, t as int) == t,
            key_views(out@) == arrange(kv, grid).subrange(0, t as int),
        decreases size - t,
    {
        let ghost prev = key_views(out@);
        proof {
            lemma_targets_below(sv, t as int);
            lemma_targets_below(sv, t + 1);
            lemma_move_into(sv, t as int);
        }
        match move_into_exec(&sel, t) {
            Some(j) => {
                let src = sel[j].0;
                assert(sv[j as int].0 == src);
                out.push(keys[src].clone());
                proof {
                    assert(key_views(out@) =~= prev.push(kv[src as int]));
                    assert(arrange(kv, grid)[t as int] == kv[src as int]);
                }
            },
            None => {
                proof {
                    lemma_count_in_growth(move_targets(sv), t + 1, size as int);
                }
                out.push(stay[rix].clone());
                proof {
                    assert(key_views(out@) =~= prev.push(stay_v[rix as int]));
                    assert(arrange(kv, grid)[t as int] == stay_v[rix as int]);
                }
                rix = rix + 1;
            },
        }
        proof {
            assert(key_views(out@) =~= arrange(kv, grid).subrange(0, t + 1));
        }
        t = t + 1;
    }
    proof {
        assert(arrange(kv, grid).subrange(0, size as int) =~= arrange(kv, grid));
    }
    out
}

} // verus!

verus! {

// ---------------------------------------------------------------------------------------------
// Client pages
// ---------------------------------------------------------------------------------------------

/// Client page `want` cut out of a dense page: `size` slots starting at `want * size`, holes past
/// the end.
pub open spec fn window(all: Seq<KeyView>, size: int, want: int) -> Seq<KeyView> {
    Seq::new(
        size as nat,
        |i: int|
            if want * size + i < all.len() {
                all[want * size + i]
            } else {
                empty_key(0)
            },
    )
}

/// One client page with the stored positions intact and the arrows moved into place.
pub open spec fn arranged(keys: Seq<KeyView>, grid: Grid, want: int) -> Seq<KeyView> {
    arrange(window(dense(keys), grid.spec_usable(), want), grid)
}

/// One client page re-addressed to that page: the key in cell `i` carries `pos == i`.
pub open spec fn shown(keys: Seq<KeyView>, grid: Grid, want: int) -> Seq<KeyView> {
    let a = arranged(keys, grid, want);
    Seq::new(a.len(), |i: int| at_pos(a[i], i as usize))
}

/// The first index at or after `i` of a stored, non-empty key at position `p`.
pub open spec fn first_live_from(keys: Seq<KeyView>, p: usize, i: int) -> Option<int>
    decreases keys.len() - i,
{
    if i < 0 || i >= keys.len() {
        None
    } else if keys[i].pos == p && keys[i].kind != KeyKind::Empty {
        Some(i)
    } else {
        first_live_from(keys, p, i + 1)
    }
}

/// The stored key a client meant by pressing cell `pos` of client page `want`: none off the grid,
/// none on a hole.
pub open spec fn resolved(keys: Seq<KeyView>, grid: Grid, want: int, pos: int) -> Option<KeyView> {
    let a = arranged(keys, grid, want);
    if pos < 0 || pos >= a.len() {
        None
    } else if a[pos].kind == KeyKind::Empty {
        None
    } else {
        match first_live_from(keys, a[pos].pos, 0) {
            Some(i) => Some(keys[i]),
            None => None,
        }
    }
}

/// The absolute position behind a (client page, client cell) pair, if it exists and fits a `usize`.
pub open spec fn flat_spec(grid: Grid, at_page: int, pos: int) -> Option<int> {
    if pos >= grid.spec_usable() {
        None
    } else if at_page * grid.spec_usable() + pos > usize::MAX {
        None
    } else {
        Some(at_page * grid.spec_usable() + pos)
    }
}

/// One client page with the stored positions intact. Rendering re-addresses them afterwards;
/// resolving uses them to run the same key the client saw after the arrows moved.
fn arranged_page(page: &Page, grid: Grid, want: usize) -> (r: Vec<Key>)
    requires
        grid.wf(),
    ensures
        key_views(r@) == arranged(page@.keys, grid, want as int),
{
    let all = dense_exec(&page.keys);
    let ghost av = key_views(all@);
    let size = grid.usable();
    let start = want.checked_mul(size);
    let ghost win = window(av, size as int, want as int);
    assert(all@.len() <= MAX_DENSE);
    let mut keys: Vec<Key> = Vec::new();
    let mut i: usize = 0;
    while i < size
        invariant
            i <= size,
            size == grid.spec_usable(),
            av == key_views(all@),
            all@.len() <= MAX_DENSE,
            start == (if want * size > usize::MAX {
                None
            } else {
                Some((want * size) as usize)
            }),
            win == window(av, size as int, want as int),
            key_views(keys@) == win.subrange(0, i as int),
        decreases size - i,
    {
        let k = match start {
            Some(s) => {
                if s < all.len() && i < all.len() - s {
                    all[s + i].clone()
                } else {
                    Key::empty(0)
                }
            },
            None => Key::empty(0),
        };
        proof {
            if start is None {
                assert(want * size + i > all@.len());
            }
        }
        let ghost prev = key_views(keys@);
        keys.push(k);
        proof {
            assert(key_views(keys@) =~= prev.push(win[i as int]));
            assert(win.subrange(0, i + 1) =~= win.subrange(0, i as int).push(win[i as int]));
        }
        i = i + 1;
    }
    assert(win.subrange(0, size as int) =~= win);
    arrange_exec(keys, grid)
}

/// The keys for one client page, re-addressed so that `pos` runs `0..grid.usable()`: exactly what
/// the client sends back in a `key` message. Short pages are padded with holes.
pub fn keys_for(page: &Page, grid: Grid, want: usize) -> (r: Vec<Key>)
    requires
        grid.wf(),
    ensures
        key_views(r@) == shown(page@.keys, grid, want as int),
{
    let keys = arranged_page(page, grid, want);
    let ghost a = key_views(keys@);
    let mut out: Vec<Key> = Vec::new();
    let mut i: usize = 0;
    while i < keys.len()
        invariant
            i <= keys.len(),
            a == key_views(keys@),
            a == arranged(page@.keys, grid, want as int),
            key_views(out@) == shown(page@.keys, grid, want as int).subrange(0, i as int),
        decreases keys.len() - i,
    {
        let mut k = keys[i].clone();
        k.pos = i;
        let ghost prev = key_views(out@);
        out.push(k);
        proof {
            assert(key_views(out@) =~= prev.push(at_pos(a[i as int], i)));
        }
        i = i + 1;
    }
    assert(shown(page@.keys, grid, want as int).subrange(0, keys@.len() as int) =~= shown(
        page@.keys,
        grid,
        want as int,
    ));
    out
}

/// The stored key a client meant by (client page, cell). The client sends a position, never an
/// action, so it cannot ask for anything that was not on the layout it was given: anything off
/// the grid, past the end, or on a hole resolves to nothing.
pub fn resolve(page: &Page, grid: Grid, at_page: usize, pos: usize) -> (r: Option<&Key>)
    requires
        grid.wf(),
    ensures
        match r {
            Some(k) => resolved(page@.keys, grid, at_page as int, pos as int) == Some(k@),
            None => resolved(page@.keys, grid, at_page as int, pos as int) is None,
        },
{
    let shown_keys = arranged_page(page, grid, at_page);
    if pos >= shown_keys.len() {
        return None;
    }
    if shown_keys[pos].kind == KeyKind::Empty {
        return None;
    }
    let p = shown_keys[pos].pos;
    let ghost kv = page@.keys;
    let ghost target = match first_live_from(kv, p, 0) {
        Some(j) => Some(kv[j]),
        None => None,
    };
    assert(key_views(shown_keys@)[pos as int] == shown_keys@[pos as int]@);
    assert(resolved(kv, grid, at_page as int, pos as int) == target);
    let mut i: usize = 0;
    while i < page.keys.len()
        invariant
            i <= page.keys.len(),
            kv == key_views(page.keys@),
            kv == page@.keys,
            resolved(kv, grid, at_page as int, pos as int) == target,
            target == match first_live_from(kv, p, 0) {
                Some(j) => Some(kv[j]),
                None => None,
            },
            first_live_from(kv, p, 0) == first_live_from(kv, p, i as int),
        decreases page.keys.len() - i,
    {
        if page.keys[i].pos == p && page.keys[i].kind != KeyKind::Empty {
            assert(kv[i as int] == page.keys@[i as int]@);
            return Some(&page.keys[i]);
        }
        i = i + 1;
    }
    None
}

/// A key's absolute position in its page behind a (client page, client cell) pair: grid-dependent
/// going in, grid-independent coming out.
pub fn flat(grid: Grid, at_page: usize, pos: usize) -> (r: Option<usize>)
    requires
        grid.wf(),
    ensures
        match r {
            Some(v) => flat_spec(grid, at_page as int, pos as int) == Some(v as int),
            None => flat_spec(grid, at_page as int, pos as int) is None,
        },
{
    let u = grid.usable();
    if pos >= u {
        return None;
    }
    match at_page.checked_mul(u) {
        Some(base) => base.checked_add(pos),
        None => {
            assert(at_page * u + pos > usize::MAX);
            None
        },
    }
}

} // verus!

verus! {

// ---------------------------------------------------------------------------------------------
// What pagination promises
// ---------------------------------------------------------------------------------------------

/// No two stored keys of a page share a position: the rule `validate` enforces, because the
/// position IS the address a client presses.
pub open spec fn positions_distinct(keys: Seq<KeyView>) -> bool {
    forall|i: int, j: int| 0 <= i < j < keys.len() ==> keys[i].pos != keys[j].pos
}

/// Every cell of an arranged page holds one of the keys it was given.
pub proof fn lemma_arrange_from(keys: Seq<KeyView>, grid: Grid, t: int)
    requires
        grid.wf(),
        0 <= t < keys.len(),
    ensures
        exists|j: int| 0 <= j < keys.len() && arrange(keys, grid)[t] == keys[j],
{
    let sel = selection(keys, grid);
    if sel.len() == 0 {
        assert(arrange(keys, grid)[t] == keys[t]);
    } else {
        let size = keys.len() as int;
        lemma_selection_wf(keys, grid);
        lemma_move_into(sel, t);
        match move_into(sel, t) {
            Some(j) => {
                assert(arrange(keys, grid)[t] == keys[sel[j].0]);
            },
            None => {
                let targets = move_targets(sel);
                let sources = move_sources(sel);
                lemma_targets_below(sel, t);
                lemma_count_in_growth(targets, 0, t);
                lemma_count_in_growth(targets, t + 1, size);
                lemma_count_in_distinct(targets, size);
                lemma_cnt_lt_all(targets, size);
                lemma_staying_len(keys, sel, size);
                lemma_count_in_distinct(sources, size);
                lemma_cnt_lt_all(sources, size);
                lemma_staying_from(keys, sel, size);
                let stay = staying(keys, sel, size);
                let idx = t - targets_below(sel, t);
                assert(0 <= idx < stay.len());
                assert(arrange(keys, grid)[t] == stay[idx]);
                let j = choose|j: int| 0 <= j < size && !is_source(sel, j) && stay[idx] == keys[j];
            },
        }
    }
}

/// The indices of the keys that do not move, in order, among the first `n`.
pub open spec fn stay_idx(sel: Seq<(int, int)>, n: int) -> Seq<int>
    decreases n,
{
    if n <= 0 {
        Seq::empty()
    } else if is_source(sel, n - 1) {
        stay_idx(sel, n - 1)
    } else {
        stay_idx(sel, n - 1).push(n - 1)
    }
}

/// The staying keys are the keys at `stay_idx`, which climbs strictly and names no source.
proof fn lemma_stay_idx(keys: Seq<KeyView>, sel: Seq<(int, int)>, n: int)
    requires
        0 <= n <= keys.len(),
    ensures
        stay_idx(sel, n).len() == staying(keys, sel, n).len(),
        forall|q: int| 0 <= q < stay_idx(sel, n).len() ==> 0 <= #[trigger] stay_idx(sel, n)[q] < n
            && !is_source(sel, stay_idx(sel, n)[q]) && staying(keys, sel, n)[q] == keys[stay_idx(
            sel,
            n,
        )[q]],
        forall|a: int, b: int| 0 <= a < b < stay_idx(sel, n).len() ==> stay_idx(sel, n)[a] < stay_idx(
            sel,
            n,
        )[b],
    decreases n,
{
    if n > 0 {
        lemma_stay_idx(keys, sel, n - 1);
    }
}

/// The key of the given page that cell `t` of its arranged form holds.
pub open spec fn arrange_source(keys: Seq<KeyView>, grid: Grid, t: int) -> int {
    let sel = selection(keys, grid);
    if sel.len() == 0 {
        t
    } else {
        match move_into(sel, t) {
            Some(j) => sel[j].0,
            None => stay_idx(sel, keys.len() as int)[t - targets_below(sel, t)],
        }
    }
}

proof fn lemma_arrange_source(keys: Seq<KeyView>, grid: Grid, t: int)
    requires
        grid.wf(),
        0 <= t < keys.len(),
    ensures
        0 <= arrange_source(keys, grid, t) < keys.len(),
        arrange(keys, grid)[t] == keys[arrange_source(keys, grid, t)],
        selection(keys, grid).len() > 0 ==> (move_into(selection(keys, grid), t) is Some <==> is_source(
            selection(keys, grid),
            arrange_source(keys, grid, t),
        )),
        selection(keys, grid).len() > 0 && move_into(selection(keys, grid), t) is None ==> 0 <= t
            - targets_below(selection(keys, grid), t) < stay_idx(selection(keys, grid), keys.len() as int).len(),
{
    let sel = selection(keys, grid);
    if sel.len() > 0 {
        let size = keys.len() as int;
        lemma_selection_wf(keys, grid);
        lemma_move_into(sel, t);
        lemma_stay_idx(keys, sel, size);
        match move_into(sel, t) {
            Some(j) => {
                assert(is_source(sel, sel[j].0));
            },
            None => {
                let targets = move_targets(sel);
                let sources = move_sources(sel);
                lemma_targets_below(sel, t);
                lemma_count_in_growth(targets, 0, t);
                lemma_count_in_growth(targets, t + 1, size);
                lemma_count_in_distinct(targets, size);
                lemma_cnt_lt_all(targets, size);
                lemma_staying_len(keys, sel, size);
                lemma_count_in_distinct(sources, size);
                lemma_cnt_lt_all(sources, size);
                let idx = t - targets_below(sel, t);
                assert(0 <= idx < staying(keys, sel, size).len());
                assert(arrange(keys, grid)[t] == staying(keys, sel, size)[idx]);
            },
        }
    }
}

/// Laying the arrows out like a keyboard loses no key and repeats none: cell `t` of the arranged
/// page holds key `arrange_source(t)` of the page, and no two cells take the same key, so the
/// arranged page is a rearrangement of the page.
pub proof fn law_arranging_keeps_every_key_once(keys: Seq<KeyView>, grid: Grid)
    requires
        grid.wf(),
    ensures
        arrange(keys, grid).len() == keys.len(),
        forall|t: int| 0 <= t < keys.len() ==> 0 <= #[trigger] arrange_source(keys, grid, t) < keys.len()
            && arrange(keys, grid)[t] == keys[arrange_source(keys, grid, t)],
        forall|t1: int, t2: int|
            0 <= t1 < keys.len() && 0 <= t2 < keys.len() && t1 != t2 ==> #[trigger] arrange_source(
                keys,
                grid,
                t1,
            ) != #[trigger] arrange_source(keys, grid, t2),
{
    let sel = selection(keys, grid);
    let size = keys.len() as int;
    assert forall|t: int| 0 <= t < keys.len() implies 0 <= #[trigger] arrange_source(keys, grid, t)
        < keys.len() && arrange(keys, grid)[t] == keys[arrange_source(keys, grid, t)] by {
        lemma_arrange_source(keys, grid, t);
    }
    assert forall|t1: int, t2: int|
        0 <= t1 < keys.len() && 0 <= t2 < keys.len() && t1 != t2 implies #[trigger] arrange_source(
            keys,
            grid,
            t1,
        ) != #[trigger] arrange_source(keys, grid, t2) by {
        if sel.len() > 0 {
            lemma_arrange_source(keys, grid, t1);
            lemma_arrange_source(keys, grid, t2);
            lemma_selection_wf(keys, grid);
            lemma_move_into(sel, t1);
            lemma_move_into(sel, t2);
            lemma_stay_idx(keys, sel, size);
            match (move_into(sel, t1), move_into(sel, t2)) {
                (Some(j1), Some(j2)) => {
                    assert(j1 != j2);
                    assert(move_sources(sel)[j1] == sel[j1].0);
                    assert(move_sources(sel)[j2] == sel[j2].0);
                },
                (None, None) => {
                    let (a, b) = if t1 < t2 { (t1, t2) } else { (t2, t1) };
                    let targets = move_targets(sel);
                    lemma_targets_below(sel, a);
                    lemma_targets_below(sel, a + 1);
                    lemma_targets_below(sel, b);
                    lemma_count_in_growth(targets, a + 1, b);
                    assert(targets_below(sel, a + 1) == targets_below(sel, a));
                    assert(a - targets_below(sel, a) < b - targets_below(sel, b));
                },
                _ => {},
            }
        }
    }
}

/// A page repaginates to any grid without losing or reordering anything: every cell of the dense
/// page lands on exactly one client page, at the cell its position says, and reading the pages
/// back in order reads the dense page.
pub proof fn law_pages_cover_the_page_in_order(keys: Seq<KeyView>, grid: Grid, n: int)
    requires
        grid.wf(),
        0 <= n < dense(keys).len(),
    ensures
        n / grid.spec_usable() < page_count(keys, grid),
        window(dense(keys), grid.spec_usable(), n / grid.spec_usable())[n % grid.spec_usable()]
            == dense(keys)[n],
{
    let u = grid.spec_usable();
    let len = dense(keys).len() as int;
    assert(u >= 1);
    let q = n / u;
    let r = n % u;
    assert(q * u + r == n && 0 <= r < u && q >= 0) by (nonlinear_arith)
        requires
            u >= 1,
            n >= 0,
            q == n / u,
            r == n % u,
    ;
    assert(q < (len + u - 1) / u) by (nonlinear_arith)
        requires
            u >= 1,
            0 <= n < len,
            q == n / u,
    ;
}

/// The first live key at a position is the only key there, when positions are distinct.
proof fn lemma_first_live(keys: Seq<KeyView>, p: usize, i: int, j: int)
    requires
        0 <= i <= j < keys.len(),
        keys[j].pos == p,
        keys[j].kind != KeyKind::Empty,
        forall|k: int| i <= k < j ==> keys[k].pos != p,
    ensures
        first_live_from(keys, p, i) == Some(j),
    decreases j - i,
{
    if i < j {
        lemma_first_live(keys, p, i + 1, j);
    }
}

/// A stored key lands in the dense page exactly at its own position: holes before it do not
/// shift it, as long as no other key claims that position.
pub proof fn law_holes_do_not_shift_keys(keys: Seq<KeyView>, j: int)
    requires
        positions_distinct(keys),
        0 <= j < keys.len(),
        keys[j].pos < MAX_DENSE,
    ensures
        keys[j].pos < dense(keys).len(),
        dense(keys)[keys[j].pos as int] == keys[j],
{
    let p = keys[j].pos as int;
    lemma_max_end(keys);
    lemma_last_at(keys, p);
    if let Some(k) = last_at(keys, p) {
        let i = choose|i: int| 0 <= i < keys.len() && keys[i] == k;
        assert(keys[i].pos == keys[j].pos);
    }
}

/// No key of the page points like an arrow, so arranging moves nothing.
pub open spec fn no_arrows(keys: Seq<KeyView>) -> bool {
    forall|m: int| 0 <= m < keys.len() ==> arrow_dir(#[trigger] keys[m]) is None
}

/// With no arrow among the keys, no key points any way.
proof fn lemma_no_dir(keys: Seq<KeyView>, d: ArrowDirection, i: int)
    requires
        0 <= i,
        no_arrows(keys),
    ensures
        first_dir_from(keys, d, i) is None,
    decreases keys.len() - i,
{
    if i < keys.len() {
        assert(arrow_dir(keys[i]) is None);
        lemma_no_dir(keys, d, i + 1);
    }
}

/// A client page of a page without arrows is its window of the dense page, re-addressed.
proof fn lemma_shown_without_arrows(keys: Seq<KeyView>, grid: Grid, i: int)
    requires
        grid.wf(),
        0 <= i,
        no_arrows(keys),
    ensures
        shown(keys, grid, i).len() == grid.spec_usable(),
        forall|j: int| 0 <= j < grid.spec_usable() ==> #[trigger] shown(keys, grid, i)[j] == at_pos(
            window(dense(keys), grid.spec_usable(), i)[j],
            j as usize,
        ),
{
    let u = grid.spec_usable();
    let w = window(dense(keys), u, i);
    let d = dense(keys);
    assert(u >= 1);
    assert(no_arrows(w)) by {
        assert forall|m: int| 0 <= m < w.len() implies arrow_dir(#[trigger] w[m]) is None by {
            assert(w[m] == if i * u + m < d.len() {
                d[i * u + m]
            } else {
                empty_key(0)
            });
            reveal_strlit("scrollup");
            reveal_strlit("up");
            reveal_strlit("scrolldown");
            reveal_strlit("down");
            reveal_strlit("prev");
            reveal_strlit("back");
            reveal_strlit("left");
            reveal_strlit("next");
            reveal_strlit("fwdnav");
            reveal_strlit("right");
            let n = i * u + m;
            assert(empty_key(0).icon.len() == 0);
            assert(arrow_dir(empty_key(0)) is None);
            if n < d.len() {
                assert(d[n] == dense_slot(keys, n));
                lemma_last_at(keys, n);
                if let Some(k) = last_at(keys, n) {
                    let x = choose|x: int| 0 <= x < keys.len() && keys[x] == k;
                    assert(arrow_dir(keys[x]) is None);
                    assert(d[n] == k);
                } else {
                    assert(d[n] == empty_key(n as usize));
                    assert(arrow_dir(empty_key(n as usize)) is None);
                }
                assert(arrow_dir(d[n]) is None);
            }
        }
    }
    lemma_no_dir(w, ArrowDirection::Up, 0);
    lemma_no_dir(w, ArrowDirection::Down, 0);
    lemma_no_dir(w, ArrowDirection::Left, 0);
    lemma_no_dir(w, ArrowDirection::Right, 0);
    assert(selection(w, grid).len() == 0);
    assert(arranged(keys, grid, i) == w);
}

/// Repaginating loses, reorders and invents nothing. On a page whose keys sit at distinct
/// positions below the cap and none of which is an arrow, every client page has exactly one cell
/// per usable slot, addressed `0..usable`; cell `j` of client page `i` shows the stored key at
/// position `i * usable + j`, with its label, action and everything else but the position, and it
/// is a hole (`Empty`) where no key is stored; and every stored key is shown on the client page
/// and cell its position gives. Reading the client pages in order, the keys that are not holes
/// are the page's keys in ascending position order.
pub proof fn law_client_pages_read_back_the_page(keys: Seq<KeyView>, grid: Grid, i: int, j: int)
    requires
        grid.wf(),
        positions_distinct(keys),
        forall|m: int| 0 <= m < keys.len() ==> (#[trigger] keys[m]).pos < MAX_DENSE,
        no_arrows(keys),
        0 <= i,
        0 <= j < grid.spec_usable(),
    ensures
        shown(keys, grid, i).len() == grid.spec_usable(),
        shown(keys, grid, i)[j].pos == j,
        forall|m: int|
            0 <= m < keys.len() && (#[trigger] keys[m]).pos == i * grid.spec_usable() + j
                ==> shown(keys, grid, i)[j] == at_pos(keys[m], j as usize),
        (forall|m: int| 0 <= m < keys.len() ==> (#[trigger] keys[m]).pos != i * grid.spec_usable() + j)
            ==> shown(keys, grid, i)[j].kind == KeyKind::Empty,
        forall|m: int|
            0 <= m < keys.len() ==> (#[trigger] keys[m]).pos as int / grid.spec_usable() < page_count(
                keys,
                grid,
            ) && shown(keys, grid, keys[m].pos as int / grid.spec_usable())[keys[m].pos as int
                % grid.spec_usable()] == at_pos(keys[m], (keys[m].pos as int % grid.spec_usable()) as usize),
{
    let u = grid.spec_usable();
    let n = i * u + j;
    let d = dense(keys);
    assert(grid.rows * grid.cols <= 144) by (nonlinear_arith)
        requires
            1 <= grid.rows <= 12,
            1 <= grid.cols <= 12,
    ;
    assert(j < 144);
    lemma_shown_without_arrows(keys, grid, i);
    assert(shown(keys, grid, i)[j] == at_pos(window(d, u, i)[j], j as usize));
    assert forall|m: int|
        0 <= m < keys.len() && (#[trigger] keys[m]).pos == n implies shown(keys, grid, i)[j] == at_pos(
        keys[m],
        j as usize,
    ) by {
        law_holes_do_not_shift_keys(keys, m);
    }
    if forall|m: int| 0 <= m < keys.len() ==> (#[trigger] keys[m]).pos != n {
        if n < d.len() {
            lemma_last_at(keys, n);
            if let Some(k) = last_at(keys, n) {
                let x = choose|x: int| 0 <= x < keys.len() && keys[x] == k;
                assert(keys[x].pos != n);
            }
        }
    }
    assert forall|m: int| 0 <= m < keys.len() implies (#[trigger] keys[m]).pos as int / u < page_count(keys, grid)
        && shown(keys, grid, keys[m].pos as int / u)[keys[m].pos as int % u] == at_pos(
        keys[m],
        (keys[m].pos as int % u) as usize,
    ) by {
        let p = keys[m].pos as int;
        law_holes_do_not_shift_keys(keys, m);
        law_pages_cover_the_page_in_order(keys, grid, p);
        let q = p / u;
        let r = p % u;
        assert(q * u + r == p && 0 <= r < u && q >= 0) by (nonlinear_arith)
            requires
                u >= 1,
                p >= 0,
                q == p / u,
                r == p % u,
        ;
        lemma_shown_without_arrows(keys, grid, q);
        assert(shown(keys, grid, q)[r] == at_pos(window(d, u, q)[r], r as usize));
    }
}

/// What a client was shown at (page, cell) is what a press there runs: a live cell resolves to
/// the very stored key drawn in it, and only a hole resolves to nothing. Holds for every page
/// whose keys sit at distinct positions.
pub proof fn law_resolve_inverts_pagination(keys: Seq<KeyView>, grid: Grid, at: int, pos: int)
    requires
        grid.wf(),
        positions_distinct(keys),
        0 <= at,
        0 <= pos < grid.spec_usable(),
    ensures
        pos < shown(keys, grid, at).len(),
        match resolved(keys, grid, at, pos) {
            Some(k) => shown(keys, grid, at)[pos] == at_pos(k, pos as usize),
            None => shown(keys, grid, at)[pos].kind == KeyKind::Empty,
        },
{
    let all = dense(keys);
    let u = grid.spec_usable();
    let w = window(all, u, at);
    let a = arrange(w, grid);
    assert(a == arranged(keys, grid, at));
    lemma_arrange_from(w, grid, pos);
    let m = choose|m: int| 0 <= m < w.len() && a[pos] == w[m];
    if a[pos].kind != KeyKind::Empty {
        let n = at * u + m;
        assert(n < all.len());
        assert(a[pos] == dense_slot(keys, n));
        lemma_last_at(keys, n);
        let k = last_at(keys, n)->0;
        let j = choose|j: int| 0 <= j < keys.len() && keys[j] == k;
        assert forall|x: int| 0 <= x < j implies keys[x].pos != k.pos by {
            assert(keys[x].pos != keys[j].pos);
        }
        lemma_first_live(keys, k.pos, 0, j);
    }
}

} // verus!

verus! {

// ---------------------------------------------------------------------------------------------
// Rendering a page
// ---------------------------------------------------------------------------------------------

/// One client page as it is drawn: which page it turned out to be, how many there are, and the
/// keys wearing the faces that show.
pub struct Rendered {
    pub page: usize,
    pub pages: usize,
    pub keys: Vec<Key>,
}

/// The page actually drawn when a client asks for `at_page`: the last one when it asks past it.
pub open spec fn drawn_page(keys: Seq<KeyView>, grid: Grid, at_page: int) -> int {
    if at_page < page_count(keys, grid) - 1 {
        at_page
    } else {
        page_count(keys, grid) - 1
    }
}

/// The keys of a drawn page, each wearing the face that shows at its absolute address.
pub open spec fn worn_keys(
    deck: DeckView,
    page: PageView,
    grid: Grid,
    at: int,
    faces: Seq<Seq<char>>,
    obs: ObsState,
) -> Seq<KeyView> {
    let s = shown(page.keys, grid, at);
    Seq::new(
        s.len(),
        |i: int|
            worn(
                s[i],
                face_on(
                    s[i],
                    addr_of(deck.id, page.id, (at * grid.spec_usable() + i) as usize),
                    faces,
                    obs,
                ),
            ),
    )
}

/// One client page of a deck page, clamped to the pages there are, with every two-state key
/// wearing the face that shows: OBS's answer where OBS knows, the remembered face otherwise.
pub fn render_page(
    deck: &Deck,
    page: &Page,
    grid: Grid,
    at_page: usize,
    faces: &Vec<String>,
    obs: &ObsState,
) -> (r: Rendered)
    requires
        grid.wf(),
    ensures
        r.pages == page_count(page@.keys, grid),
        r.page == drawn_page(page@.keys, grid, at_page as int),
        key_views(r.keys@) == worn_keys(deck@, page@, grid, r.page as int, face_set(faces@), *obs),
{
    let total = pages(page, grid);
    let at = if at_page < total - 1 { at_page } else { total - 1 };
    let mut keys = keys_for(page, grid, at);
    let ghost s = key_views(keys@);
    let u = grid.usable();
    assert(at * u <= 1152 * 144) by (nonlinear_arith)
        requires
            at < 1152,
            u <= 144,
    ;
    let mut i: usize = 0;
    while i < keys.len()
        invariant
            i <= keys@.len(),
            s.len() == keys@.len(),
            s == shown(page@.keys, grid, at as int),
            u == grid.spec_usable(),
            u <= 144,
            at * u <= 1152 * 144,
            s.len() == grid.spec_usable(),
            forall|k: int|
                0 <= k < i ==> (#[trigger] keys@[k])@ == worn(
                    s[k],
                    face_on(
                        s[k],
                        addr_of(deck@.id, page@.id, (at * u + k) as usize),
                        face_set(faces@),
                        *obs,
                    ),
                ),
            forall|k: int| i <= k < keys@.len() ==> (#[trigger] keys@[k])@ == s[k],
        decreases keys@.len() - i,
    {
        let at_addr = addr(deck.id.as_str(), page.id.as_str(), at * u + i);
        let on = face_is_on(&keys[i], at_addr.as_str(), faces, obs);
        let mut k = keys[i].clone();
        wear_face(&mut k, on);
        keys.set(i, k);
        i = i + 1;
    }
    assert(key_views(keys@) =~= worn_keys(deck@, page@, grid, at as int, face_set(faces@), *obs));
    Rendered { page: at, pages: total, keys }
}

/// The catalogue app a key's action names, for `launch:`, `focus:` and `kill:` keys.
pub open spec fn app_target(action: Option<Seq<char>>) -> Option<Seq<char>> {
    match action {
        None => None,
        Some(a) => match strip_prefix(a, "launch:"@) {
            Some(id) => Some(trim(id)),
            None => match strip_prefix(a, "focus:"@) {
                Some(id) => Some(trim(id)),
                None => match strip_prefix(a, "kill:"@) {
                    Some(id) => Some(trim(id)),
                    None => None,
                },
            },
        },
    }
}

/// The catalogue app a key's action names.
pub fn app_target_exec(action: &Option<String>) -> (r: Option<String>)
    ensures
        opt_view(r) == app_target(opt_view(*action)),
{
    let a = match action {
        Some(a) => chars_of(a.as_str()),
        None => {
            return None;
        },
    };
    let id = match strip_prefix_lit(a.as_slice(), "launch:") {
        Some(id) => id,
        None => match strip_prefix_lit(a.as_slice(), "focus:") {
            Some(id) => id,
            None => match strip_prefix_lit(a.as_slice(), "kill:") {
                Some(id) => id,
                None => {
                    return None;
                },
            },
        },
    };
    let t = trim_exec(id.as_slice());
    Some(string_of(t.as_slice()))
}

/// The keys of a page that name a catalogue app, as (index, app id), in order.
pub open spec fn app_targets_spec(keys: Seq<KeyView>) -> Seq<(int, Seq<char>)>
    decreases keys.len(),
{
    if keys.len() == 0 {
        Seq::empty()
    } else {
        let rest = app_targets_spec(keys.drop_last());
        match app_target(keys.last().action) {
            Some(id) => rest.push(((keys.len() - 1) as int, id)),
            None => rest,
        }
    }
}

/// The keys of a page that name a catalogue app.
pub fn app_targets(keys: &Vec<Key>) -> (r: Vec<(usize, String)>)
    ensures
        r@.map_values(|t: (usize, String)| (t.0 as int, t.1@)) == app_targets_spec(key_views(keys@)),
        forall|j: int| 0 <= j < r@.len() ==> (#[trigger] r@[j]).0 < keys@.len(),
        forall|a: int, b: int| 0 <= a < b < r@.len() ==> r@[a].0 < r@[b].0,
{
    let ghost kv = key_views(keys@);
    let mut out: Vec<(usize, String)> = Vec::new();
    let mut i: usize = 0;
    while i < keys.len()
        invariant
            i <= keys@.len(),
            kv == key_views(keys@),
            out@.map_values(|t: (usize, String)| (t.0 as int, t.1@)) == app_targets_spec(
                kv.subrange(0, i as int),
            ),
            forall|j: int| 0 <= j < out@.len() ==> (#[trigger] out@[j]).0 < i,
            forall|a: int, b: int| 0 <= a < b < out@.len() ==> out@[a].0 < out@[b].0,
        decreases keys@.len() - i,
    {
        let ghost before = out@.map_values(|t: (usize, String)| (t.0 as int, t.1@));
        proof {
            let pre = kv.subrange(0, i + 1);
            assert(pre.drop_last() =~= kv.subrange(0, i as int));
            assert(pre.last() == keys@[i as int]@);
        }
        match app_target_exec(&keys[i].action) {
            Some(id) => {
                let ghost idv = id@;
                out.push((i, id));
                assert(out@.map_values(|t: (usize, String)| (t.0 as int, t.1@)) =~= before.push(
                    (i as int, idv),
                ));
            },
            None => {},
        }
        i = i + 1;
    }
    assert(kv.subrange(0, keys@.len() as int) =~= kv);
    out
}

/// A key that names an app, with its icon attached (unless it carries an image of its own, or
/// there is no icon) and whether the app runs now.
pub open spec fn decorated(k: KeyView, running: bool, icon: Seq<char>) -> KeyView {
    KeyView {
        image: if k.image is None && icon.len() > 0 {
            Some("data:image/png;base64,"@ + icon)
        } else {
            k.image
        },
        state: Some(
            KeyState {
                on: match k.state {
                    Some(st) => st.on,
                    None => None,
                },
                running: Some(running),
            },
        ),
        ..k
    }
}

/// Attaches what a stored deck cannot hold to the keys that name an app: its icon and whether it
/// runs now. `targets` names each key once, in order, with the answers for it alongside.
pub fn decorate_apps(keys: &mut Vec<Key>, targets: &Vec<(usize, String)>, running: &Vec<bool>, icons: &Vec<String>)
    requires
        running@.len() == targets@.len(),
        icons@.len() == targets@.len(),
        forall|j: int| 0 <= j < targets@.len() ==> (#[trigger] targets@[j]).0 < old(keys)@.len(),
        forall|a: int, b: int| 0 <= a < b < targets@.len() ==> targets@[a].0 < targets@[b].0,
    ensures
        final(keys)@.len() == old(keys)@.len(),
        forall|j: int|
            0 <= j < targets@.len() ==> (#[trigger] final(keys)@[targets@[j].0 as int])@ == decorated(
                old(keys)@[targets@[j].0 as int]@,
                running@[j],
                icons@[j]@,
            ),
        forall|i: int|
            0 <= i < final(keys)@.len() && !(exists|j: int|
                0 <= j < targets@.len() && #[trigger] targets@[j].0 == i) ==> final(keys)@[i]
                == old(keys)@[i],
{
    let ghost before = keys@;
    let mut j: usize = 0;
    while j < targets.len()
        invariant
            j <= targets@.len(),
            running@.len() == targets@.len(),
            icons@.len() == targets@.len(),
            keys@.len() == before.len(),
            forall|x: int| 0 <= x < targets@.len() ==> (#[trigger] targets@[x]).0 < keys@.len(),
            forall|a: int, b: int| 0 <= a < b < targets@.len() ==> targets@[a].0 < targets@[b].0,
            forall|x: int|
                0 <= x < j ==> (#[trigger] keys@[targets@[x].0 as int])@ == decorated(
                    before[targets@[x].0 as int]@,
                    running@[x],
                    icons@[x]@,
                ),
            forall|i: int|
                0 <= i < keys@.len() && !(exists|x: int| 0 <= x < j && #[trigger] targets@[x].0 == i)
                    ==> keys@[i] == before[i],
        decreases targets@.len() - j,
    {
        let i = targets[j].0;
        assert(!(exists|x: int| 0 <= x < j && #[trigger] targets@[x].0 == i));
        let mut k = keys[i].clone();
        assert(k@ == before[i as int]@);
        if k.image.is_none() && !icons[j].as_str().is_empty() {
            let mut img = String::from_str("data:image/png;base64,");
            img.append(icons[j].as_str());
            k.image = Some(img);
        }
        let on = match &k.state {
            Some(st) => st.on,
            None => None,
        };
        k.state = Some(KeyState { on, running: Some(running[j]) });
        assert(k@ == decorated(before[i as int]@, running@[j as int], icons@[j as int]@));
        keys.set(i, k);
        proof {
            assert forall|x: int| 0 <= x < j + 1 implies (#[trigger] keys@[targets@[x].0 as int])@
                == decorated(before[targets@[x].0 as int]@, running@[x], icons@[x]@) by {
                if x < j {
                    assert(targets@[x].0 < targets@[j as int].0);
                }
            }
            assert forall|y: int|
                0 <= y < keys@.len() && !(exists|x: int| 0 <= x < j + 1 && #[trigger] targets@[x].0 == y)
                    implies keys@[y] == before[y] by {
                assert(targets@[j as int].0 != y);
                assert(!(exists|x: int| 0 <= x < j && #[trigger] targets@[x].0 == y)) by {
                    if exists|x: int| 0 <= x < j && #[trigger] targets@[x].0 == y {
                        let x = choose|x: int| 0 <= x < j && #[trigger] targets@[x].0 == y;
                        assert(0 <= x < j + 1 && targets@[x].0 == y);
                    }
                }
            }
        }
        j = j + 1;
    }
}

/// Every non-empty label in a client's language. A label the catalogue does not know, a user's
/// own or an app's name, is left as it is.
pub fn translate_labels(keys: &mut Vec<Key>, lang: Lang)
    ensures
        final(keys)@.len() == old(keys)@.len(),
        forall|i: int|
            0 <= i < final(keys)@.len() ==> (#[trigger] final(keys)@[i])@ == (KeyView {
                label: if old(keys)@[i]@.label.len() > 0 {
                    translated(lang, old(keys)@[i]@.label)
                } else {
                    old(keys)@[i]@.label
                },
                ..old(keys)@[i]@
            }),
{
    let ghost before = keys@;
    let mut i: usize = 0;
    while i < keys.len()
        invariant
            i <= keys@.len(),
            keys@.len() == before.len(),
            forall|k: int|
                0 <= k < i ==> (#[trigger] keys@[k])@ == (KeyView {
                    label: if before[k]@.label.len() > 0 {
                        translated(lang, before[k]@.label)
                    } else {
                        before[k]@.label
                    },
                    ..before[k]@
                }),
            forall|k: int| i <= k < keys@.len() ==> keys@[k] == before[k],
        decreases keys@.len() - i,
    {
        let mut k = keys[i].clone();
        if !k.label.as_str().is_empty() {
            let t = own(tr(lang, k.label.as_str()));
            k.label = t;
        }
        keys.set(i, k);
        i = i + 1;
    }
}

} // verus!

verus! {

/// The client page a preload asks for, when it exists: nothing before the first page and nothing
/// after the last, never a clamped copy of a page already on screen.
pub fn preload_page(page: &Page, grid: Grid, at_page: isize) -> (r: Option<usize>)
    requires
        grid.wf(),
    ensures
        r == if 0 <= at_page < page_count(page@.keys, grid) {
            Some(at_page as usize)
        } else {
            None::<usize>
        },
{
    if at_page < 0 {
        return None;
    }
    let p = at_page as usize;
    if p < pages(page, grid) {
        Some(p)
    } else {
        None
    }
}

} // verus!
