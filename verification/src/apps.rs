//! The app catalogue: which window belongs to which catalogue entry, which apps are running, what
//! a `launch:` / `focus:` / `kill:` key does about it, and the rolling month of recently used apps
//! the Launcher deck is built from.
//!
//! A catalogue id is an AUMID (`Microsoft.WindowsNotepad_8wekyb3d8bbwe!App`), a known-folder
//! AppID (`{GUID}\rel\app.exe`) or an absolute path. The desktop itself (listing windows, focusing
//! one, starting a process) is the caller's: everything here decides from what it was handed.
use vstd::prelude::*;

use crate::text::{
    ascii_lower, ascii_lower_exec, chars_eq, chars_of, concat_chars, ends_with,
    eq_ignore_ascii_case, eq_ignore_ascii_case_exec, find, split, split_char, split_once,
    split_once_char, split_once_exec, slice_chars, strip_suffix, lemma_find_from, chars_lt,
    chars_lt_exec, to_lowercase, unicode_lower, same,
};

verus! {

/// One catalogue entry. `id` is what a `launch:` / `focus:` / `kill:` key stores.
pub struct App {
    pub id: String,
    pub name: String,
    /// Absolute path when it can be resolved; empty for packaged apps.
    pub exe: String,
    /// The platform's best guess at when it last ran, in milliseconds since the epoch; only used
    /// to seed the recent list.
    pub last_opened: u64,
}

/// An app by its contents.
pub struct AppView {
    pub id: Seq<char>,
    pub name: Seq<char>,
    pub exe: Seq<char>,
    pub last_opened: u64,
}

impl View for App {
    type V = AppView;

    open spec fn view(&self) -> AppView {
        AppView { id: self.id@, name: self.name@, exe: self.exe@, last_opened: self.last_opened }
    }
}

impl Clone for App {
    fn clone(&self) -> (r: Self)
        ensures
            r@ == self@,
    {
        App {
            id: self.id.clone(),
            name: self.name.clone(),
            exe: self.exe.clone(),
            last_opened: self.last_opened,
        }
    }
}

impl Default for App {
    fn default() -> (r: Self)
        ensures
            r@.id.len() == 0,
            r@.name.len() == 0,
            r@.exe.len() == 0,
            r@.last_opened == 0,
    {
        App { id: String::new(), name: String::new(), exe: String::new(), last_opened: 0 }
    }
}

// ---------------------------------------------------------------------------------------------
// Which window is whose
// ---------------------------------------------------------------------------------------------

/// A path separator, either way round.
pub open spec fn is_sep(c: char) -> bool {
    c == '\\' || c == '/'
}

/// What follows the last separator: the file name of a path.
pub open spec fn last_segment(s: Seq<char>) -> Seq<char>
    decreases s.len(),
{
    if s.len() == 0 {
        s
    } else if is_sep(s.last()) {
        Seq::empty()
    } else {
        last_segment(s.drop_last()).push(s.last())
    }
}

/// What comes before the first separator.
pub open spec fn first_segment(s: Seq<char>) -> Seq<char>
    decreases s.len(),
{
    if s.len() == 0 {
        s
    } else if is_sep(s[0]) {
        Seq::empty()
    } else {
        seq![s[0]] + first_segment(s.drop_first())
    }
}

/// A path's file name, ASCII lower-cased, without a trailing `.exe`:
/// `C:\W\System32\cleanmgr.exe` is `cleanmgr`.
pub open spec fn stem(path: Seq<char>) -> Seq<char> {
    let n = ascii_lower(last_segment(path));
    match strip_suffix(n, ".exe"@) {
        Some(t) => t,
        None => n,
    }
}

/// The last non-empty piece.
pub open spec fn last_nonempty(pieces: Seq<Seq<char>>) -> Option<Seq<char>>
    decreases pieces.len(),
{
    if pieces.len() == 0 {
        None
    } else if pieces.last().len() > 0 {
        Some(pieces.last())
    } else {
        last_nonempty(pieces.drop_last())
    }
}

/// What follows the `WindowsApps` folder in a path, either separator.
pub open spec fn after_windows_apps(exe: Seq<char>) -> Option<Seq<char>> {
    match split_once(exe, "\\WindowsApps\\"@) {
        Some((_, r)) => Some(r),
        None => match split_once(exe, "/WindowsApps/"@) {
            Some((_, r)) => Some(r),
            None => None,
        },
    }
}

/// The package family a packaged app's executable lives in:
/// `…\WindowsApps\Microsoft.WindowsNotepad_11.2605.34.0_x64__8wekyb3d8bbwe\Notepad.exe` gives
/// `Microsoft.WindowsNotepad_8wekyb3d8bbwe` (the name, then the publisher id, which is the last
/// non-empty piece of the folder). None for anything outside `WindowsApps`.
pub open spec fn package_family(exe: Seq<char>) -> Option<Seq<char>> {
    match after_windows_apps(exe) {
        None => None,
        Some(rest) => {
            let pieces = split(first_segment(rest), seq!['_']);
            let name = pieces[0];
            match last_nonempty(pieces) {
                None => None,
                Some(p) => if name.len() == 0 || p == name {
                    None
                } else {
                    Some(name + seq!['_'] + p)
                },
            }
        },
    }
}

/// Whether a window belongs to app `id`, given the executable behind it and the AUMID it
/// advertises. A packaged app is its AUMID when the window advertises one, and otherwise its
/// package family; it never falls back to the executable. Anything else is matched by file stem.
pub open spec fn app_matches(id: Seq<char>, exe: Seq<char>, aumid: Seq<char>) -> bool {
    if id.len() == 0 {
        false
    } else {
        match split_once(id, seq!['!']) {
            Some((family, _)) => if aumid.len() > 0 {
                eq_ignore_ascii_case(aumid, id)
            } else {
                match package_family(exe) {
                    Some(f) => eq_ignore_ascii_case(f, family),
                    None => false,
                }
            },
            None => exe.len() > 0 && stem(id).len() > 0 && stem(id) == stem(exe),
        }
    }
}

/// Splitting always gives at least one piece.
pub proof fn lemma_split_nonempty(s: Seq<char>, sep: Seq<char>)
    ensures
        split(s, sep).len() >= 1,
    decreases s.len(),
{
    if sep.len() > 0 {
        if let Some(i) = find(s, sep) {
            lemma_find_from(s, sep, 0);
            lemma_split_nonempty(s.subrange(i + sep.len(), s.len() as int), sep);
        }
    }
}

/// The file name of a path.
fn last_segment_exec(s: &[char]) -> (r: Vec<char>)
    ensures
        r@ == last_segment(s@),
{
    let mut i: usize = s.len();
    assert(s@.subrange(0, s@.len() as int) =~= s@);
    assert(last_segment(s@) + s@.subrange(s@.len() as int, s@.len() as int) =~= last_segment(s@));
    while i > 0 && !(s[i - 1] == '\\' || s[i - 1] == '/')
        invariant
            i <= s.len(),
            last_segment(s@) == last_segment(s@.subrange(0, i as int)) + s@.subrange(
                i as int,
                s@.len() as int,
            ),
        decreases i,
    {
        proof {
            let pre = s@.subrange(0, i as int);
            assert(pre.drop_last() =~= s@.subrange(0, i - 1));
            assert(pre.last() == s@[i - 1]);
            assert(s@.subrange(i - 1, s@.len() as int) =~= seq![s@[i - 1]] + s@.subrange(
                i as int,
                s@.len() as int,
            ));
        }
        i = i - 1;
    }
    proof {
        if i == 0 {
            assert(s@.subrange(0, 0) =~= Seq::<char>::empty());
        } else {
            let pre = s@.subrange(0, i as int);
            assert(pre.last() == s@[i - 1]);
        }
        assert(Seq::<char>::empty() + s@.subrange(i as int, s@.len() as int) =~= s@.subrange(
            i as int,
            s@.len() as int,
        ));
    }
    slice_chars(s, i, s.len())
}

/// What comes before the first separator.
fn first_segment_exec(s: &[char]) -> (r: Vec<char>)
    ensures
        r@ == first_segment(s@),
{
    let mut i: usize = 0;
    assert(s@.subrange(0, s@.len() as int) =~= s@);
    assert(s@.subrange(0, 0) + first_segment(s@) =~= first_segment(s@));
    while i < s.len() && !(s[i] == '\\' || s[i] == '/')
        invariant
            i <= s.len(),
            first_segment(s@) == s@.subrange(0, i as int) + first_segment(
                s@.subrange(i as int, s@.len() as int),
            ),
        decreases s.len() - i,
    {
        proof {
            let rest = s@.subrange(i as int, s@.len() as int);
            assert(rest[0] == s@[i as int]);
            assert(rest.drop_first() =~= s@.subrange(i + 1, s@.len() as int));
            assert(s@.subrange(0, i + 1) =~= s@.subrange(0, i as int) + seq![s@[i as int]]);
        }
        i = i + 1;
    }
    proof {
        let rest = s@.subrange(i as int, s@.len() as int);
        if i < s.len() {
            assert(rest[0] == s@[i as int]);
        }
        assert(s@.subrange(0, i as int) + first_segment(rest) =~= s@.subrange(0, i as int));
    }
    slice_chars(s, 0, i)
}

/// A path's file name, ASCII lower-cased, without `.exe`.
fn stem_exec(path: &[char]) -> (r: Vec<char>)
    ensures
        r@ == stem(path@),
{
    let name = last_segment_exec(path);
    let n = ascii_lower_exec(name.as_slice());
    let ext = chars_of(".exe");
    if ends_with(n.as_slice(), ext.as_slice()) {
        slice_chars(n.as_slice(), 0, n.len() - ext.len())
    } else {
        n
    }
}

/// The package family of a packaged app's executable.
fn package_family_exec(exe: &[char]) -> (r: Option<Vec<char>>)
    ensures
        match r {
            Some(f) => package_family(exe@) == Some(f@),
            None => package_family(exe@) is None,
        },
{
    let back = chars_of("\\WindowsApps\\");
    let fwd = chars_of("/WindowsApps/");
    let rest = match split_once_exec(exe, back.as_slice()) {
        Some((_, r)) => r,
        None => match split_once_exec(exe, fwd.as_slice()) {
            Some((_, r)) => r,
            None => {
                return None;
            },
        },
    };
    assert(after_windows_apps(exe@) == Some(rest@));
    let folder = first_segment_exec(rest.as_slice());
    let pieces = split_char(folder.as_slice(), '_');
    let ghost pv = split(folder@, seq!['_']);
    assert(pieces@.map_values(|v: Vec<char>| v@) == pv);
    proof {
        lemma_split_nonempty(folder@, seq!['_']);
    }
    assert(pieces@[0]@ == pv[0]);
    let mut j: usize = pieces.len();
    assert(pv.subrange(0, pv.len() as int) =~= pv);
    while j > 0 && pieces[j - 1].len() == 0
        invariant
            j <= pieces@.len(),
            pieces@.map_values(|v: Vec<char>| v@) == pv,
            last_nonempty(pv) == last_nonempty(pv.subrange(0, j as int)),
        decreases j,
    {
        proof {
            let pre = pv.subrange(0, j as int);
            assert(pre.drop_last() =~= pv.subrange(0, j - 1));
            assert(pre.last() == pieces@[j - 1]@);
        }
        j = j - 1;
    }
    if j == 0 {
        return None;
    }
    proof {
        let pre = pv.subrange(0, j as int);
        assert(pre.last() == pieces@[j - 1]@);
    }
    let name = &pieces[0];
    let publisher = &pieces[j - 1];
    if name.len() == 0 || chars_eq(publisher.as_slice(), name.as_slice()) {
        return None;
    }
    let under = vec!['_'];
    let head = concat_chars(name.as_slice(), under.as_slice());
    Some(concat_chars(head.as_slice(), publisher.as_slice()))
}

/// Whether a window belongs to app `id`, given its executable and the AUMID it advertises.
pub fn matches(id: &str, win_exe: &str, win_aumid: &str) -> (r: bool)
    ensures
        r == app_matches(id@, win_exe@, win_aumid@),
{
    let idc = chars_of(id);
    if idc.len() == 0 {
        return false;
    }
    let exe = chars_of(win_exe);
    match split_once_char(idc.as_slice(), '!') {
        Some((family, _)) => {
            let aumid = chars_of(win_aumid);
            if aumid.len() > 0 {
                return eq_ignore_ascii_case_exec(aumid.as_slice(), idc.as_slice());
            }
            match package_family_exec(exe.as_slice()) {
                Some(f) => eq_ignore_ascii_case_exec(f.as_slice(), family.as_slice()),
                None => false,
            }
        },
        None => {
            if exe.len() == 0 {
                return false;
            }
            let a = stem_exec(idc.as_slice());
            if a.len() == 0 {
                return false;
            }
            let b = stem_exec(exe.as_slice());
            chars_eq(a.as_slice(), b.as_slice())
        },
    }
}

// ---------------------------------------------------------------------------------------------
// Running, launching, focusing, closing
// ---------------------------------------------------------------------------------------------

/// A window as the desktop reports it for matching: its id, its executable, the AUMID it
/// advertises (empty when none).
pub open spec fn win_is(id: Seq<char>, w: (isize, String, String)) -> bool {
    app_matches(id, w.1@, w.2@)
}

/// The windows of app `id`, in the order the desktop listed them.
pub open spec fn windows_of(id: Seq<char>, wins: Seq<(isize, String, String)>) -> Seq<isize>
    decreases wins.len(),
{
    if wins.len() == 0 {
        Seq::empty()
    } else if win_is(id, wins.last()) {
        windows_of(id, wins.drop_last()).push(wins.last().0)
    } else {
        windows_of(id, wins.drop_last())
    }
}

/// Whether app `id` has at least one open window.
pub open spec fn is_running(id: Seq<char>, wins: Seq<(String, String)>) -> bool {
    exists|j: int| 0 <= j < wins.len() && app_matches(id, (#[trigger] wins[j]).0@, wins[j].1@)
}

/// The windows of app `id`.
pub fn windows_of_exec(id: &str, wins: &[(isize, String, String)]) -> (r: Vec<isize>)
    ensures
        r@ == windows_of(id@, wins@),
{
    let mut out: Vec<isize> = Vec::new();
    let mut i: usize = 0;
    while i < wins.len()
        invariant
            i <= wins.len(),
            out@ == windows_of(id@, wins@.subrange(0, i as int)),
        decreases wins.len() - i,
    {
        proof {
            let pre = wins@.subrange(0, i + 1);
            assert(pre.drop_last() =~= wins@.subrange(0, i as int));
            assert(pre.last() == wins@[i as int]);
        }
        if matches(id, wins[i].1.as_str(), wins[i].2.as_str()) {
            out.push(wins[i].0);
        }
        i = i + 1;
    }
    assert(wins@.subrange(0, wins@.len() as int) =~= wins@);
    out
}

/// Which of `ids` have at least one open window, in one pass over the window list.
pub fn running(ids: &[String], wins: &[(String, String)]) -> (r: Vec<bool>)
    ensures
        r@.len() == ids@.len(),
        forall|i: int| 0 <= i < ids@.len() ==> r@[i] == is_running(ids@[i]@, wins@),
{
    let mut out: Vec<bool> = Vec::new();
    let mut i: usize = 0;
    while i < ids.len()
        invariant
            i <= ids.len(),
            out@.len() == i,
            forall|k: int| 0 <= k < i ==> out@[k] == is_running(ids@[k]@, wins@),
        decreases ids.len() - i,
    {
        let mut hit = false;
        let mut j: usize = 0;
        while j < wins.len()
            invariant
                j <= wins.len(),
                i < ids.len(),
                hit == exists|x: int|
                    0 <= x < j && app_matches(ids@[i as int]@, (#[trigger] wins@[x]).0@, wins@[x].1@),
            decreases wins.len() - j,
        {
            if matches(ids[i].as_str(), wins[j].0.as_str(), wins[j].1.as_str()) {
                hit = true;
            }
            j = j + 1;
        }
        out.push(hit);
        i = i + 1;
    }
    out
}

/// What a `launch:` key does: bring a running instance to the front rather than starting a second
/// one, otherwise start the app.
#[derive(Clone, Copy, PartialEq, Eq, Debug, Structural)]
pub enum Launch {
    /// Bring this window to the front.
    Focus(isize),
    /// Start the catalogue entry.
    Activate,
}

/// What `launch:<id>` does with the windows open now.
pub fn launch(id: &str, wins: &[(isize, String, String)]) -> (r: Launch)
    ensures
        r == if windows_of(id@, wins@).len() > 0 {
            Launch::Focus(windows_of(id@, wins@)[0])
        } else {
            Launch::Activate
        },
{
    let hit = windows_of_exec(id, wins);
    if hit.len() > 0 {
        Launch::Focus(hit[0])
    } else {
        Launch::Activate
    }
}

/// The window `focus:<id>` brings to the front; never starts anything.
pub fn focus(id: &str, wins: &[(isize, String, String)]) -> (r: Result<isize, &'static str>)
    ensures
        match r {
            Ok(h) => windows_of(id@, wins@).len() > 0 && h == windows_of(id@, wins@)[0],
            Err(e) => windows_of(id@, wins@).len() == 0 && e@ == "not_running"@,
        },
{
    let hit = windows_of_exec(id, wins);
    if hit.len() > 0 {
        Ok(hit[0])
    } else {
        Err("not_running")
    }
}

/// Every window `kill:<id>` asks to close, the same as clicking its close button.
pub fn close(id: &str, wins: &[(isize, String, String)]) -> (r: Result<Vec<isize>, &'static str>)
    ensures
        match r {
            Ok(hs) => windows_of(id@, wins@).len() > 0 && hs@ == windows_of(id@, wins@),
            Err(e) => windows_of(id@, wins@).len() == 0 && e@ == "not_running"@,
        },
{
    let hit = windows_of_exec(id, wins);
    if hit.len() == 0 {
        Err("not_running")
    } else {
        Ok(hit)
    }
}

/// The executable behind a catalogue id, or "".
pub fn exe_of<'a>(apps: &'a [App], id: &str) -> (r: &'a str)
    ensures
        (exists|i: int| 0 <= i < apps@.len() && #[trigger] apps@[i]@.id == id@) ==> exists|i: int|
            0 <= i < apps@.len() && apps@[i]@.id == id@ && r@ == apps@[i]@.exe && forall|j: int|
                0 <= j < i ==> apps@[j]@.id != id@,
        !(exists|i: int| 0 <= i < apps@.len() && #[trigger] apps@[i]@.id == id@) ==> r@ == ""@,
{
    let want = chars_of(id);
    let mut i: usize = 0;
    while i < apps.len()
        invariant
            i <= apps.len(),
            want@ == id@,
            forall|j: int| 0 <= j < i ==> apps@[j]@.id != id@,
        decreases apps.len() - i,
    {
        let got = chars_of(apps[i].id.as_str());
        if chars_eq(got.as_slice(), want.as_slice()) {
            assert(apps@[i as int]@.id == id@);
            return apps[i].exe.as_str();
        }
        i = i + 1;
    }
    ""
}

// ---------------------------------------------------------------------------------------------
// Recently used apps
// ---------------------------------------------------------------------------------------------

/// Thirty rolling days in milliseconds: an app used 29 days ago is still useful today.
pub const RECENT_WINDOW_MS: u64 = 2592000000;

/// One day in milliseconds: how far ahead of the clock a stored time may be and still count.
pub const DAY_MS: u64 = 86400000;

/// When each app was last in front, in milliseconds since the epoch, one entry per app id.
pub open spec fn keys_unique(values: Seq<(String, u64)>) -> bool {
    forall|i: int, j: int| 0 <= i < j < values.len() ==> values[i].0@ != values[j].0@
}

/// The time stored for an app id.
pub open spec fn lookup(values: Seq<(String, u64)>, id: Seq<char>) -> Option<u64>
    decreases values.len(),
{
    if values.len() == 0 {
        None
    } else if values[0].0@ == id {
        Some(values[0].1)
    } else {
        lookup(values.drop_first(), id)
    }
}

/// The oldest time that still counts as recent at `now`.
pub open spec fn cutoff(now: u64) -> int {
    if now < RECENT_WINDOW_MS {
        0
    } else {
        now - RECENT_WINDOW_MS
    }
}

/// The newest time that still counts at `now`: a day ahead, for clocks that disagree.
pub open spec fn ceiling(now: u64) -> int {
    if now + DAY_MS > u64::MAX {
        u64::MAX as int
    } else {
        now + DAY_MS
    }
}

/// The apps among the first `n` with a recent time, as (index, time), in catalogue order.
pub open spec fn recent_rows(apps: Seq<AppView>, values: Seq<(String, u64)>, now: u64, n: int) -> Seq<
    (int, u64),
>
    decreases n,
{
    if n <= 0 {
        Seq::empty()
    } else {
        let rest = recent_rows(apps, values, now, n - 1);
        match lookup(values, apps[n - 1].id) {
            Some(u) => if cutoff(now) <= u <= ceiling(now) {
                rest.push((n - 1, u))
            } else {
                rest
            },
            None => rest,
        }
    }
}

/// Row `a` ranks strictly before row `b`: newer first, then by lower-cased name.
pub open spec fn row_before(apps: Seq<AppView>, a: (int, u64), b: (int, u64)) -> bool {
    a.1 > b.1 || (a.1 == b.1 && chars_lt(
        unicode_lower(apps[a.0].name),
        unicode_lower(apps[b.0].name),
    ))
}

/// Where a row goes among sorted rows: before the first one it ranks strictly before, so rows
/// that rank alike keep the order they came in.
pub open spec fn insert_pos(apps: Seq<AppView>, s: Seq<(int, u64)>, x: (int, u64), i: int) -> int
    decreases s.len() - i,
{
    if i < 0 || i >= s.len() {
        s.len() as int
    } else if row_before(apps, x, s[i]) {
        i
    } else {
        insert_pos(apps, s, x, i + 1)
    }
}

/// Rows sorted by rank, stably.
pub open spec fn sort_rows(apps: Seq<AppView>, rows: Seq<(int, u64)>) -> Seq<(int, u64)>
    decreases rows.len(),
{
    if rows.len() == 0 {
        Seq::empty()
    } else {
        let s = sort_rows(apps, rows.drop_last());
        s.insert(insert_pos(apps, s, rows.last(), 0), rows.last())
    }
}

/// The catalogue entries used during the rolling month, newest first, ties by name.
pub open spec fn recent_ranking(apps: Seq<AppView>, values: Seq<(String, u64)>, now: u64) -> Seq<
    AppView,
> {
    sort_rows(apps, recent_rows(apps, values, now, apps.len() as int)).map_values(
        |r: (int, u64)| apps[r.0],
    )
}

/// The apps of a catalogue by their contents.
pub open spec fn app_views(apps: Seq<App>) -> Seq<AppView> {
    apps.map_values(|a: App| a@)
}

/// Every recent row names an app of the catalogue.
proof fn lemma_recent_rows(apps: Seq<AppView>, values: Seq<(String, u64)>, now: u64, n: int)
    requires
        0 <= n <= apps.len(),
    ensures
        forall|k: int|
            0 <= k < recent_rows(apps, values, now, n).len() ==> 0 <= (
            #[trigger] recent_rows(apps, values, now, n)[k]).0 < n,
    decreases n,
{
    if n > 0 {
        lemma_recent_rows(apps, values, now, n - 1);
        let rest = recent_rows(apps, values, now, n - 1);
        let cur = recent_rows(apps, values, now, n);
        assert forall|k: int| 0 <= k < cur.len() implies 0 <= (#[trigger] cur[k]).0 < n by {
            if k < rest.len() {
                assert(cur[k] == rest[k]);
            }
        }
    }
}

/// The time stored for an app id.
fn lookup_exec(values: &[(String, u64)], id: &str) -> (r: Option<u64>)
    ensures
        r == lookup(values@, id@),
{
    let mut i: usize = 0;
    assert(values@.subrange(0, values@.len() as int) =~= values@);
    while i < values.len()
        invariant
            i <= values.len(),
            lookup(values@, id@) == lookup(values@.subrange(i as int, values@.len() as int), id@),
        decreases values.len() - i,
    {
        proof {
            let rest = values@.subrange(i as int, values@.len() as int);
            assert(rest[0] == values@[i as int]);
            assert(rest.drop_first() =~= values@.subrange(i + 1, values@.len() as int));
        }
        if same(values[i].0.as_str(), id) {
            return Some(values[i].1);
        }
        i = i + 1;
    }
    None
}

/// Whether row `a` ranks strictly before row `b`.
fn row_before_exec(apps: &[App], lows: &Vec<Vec<char>>, a: (usize, u64), b: (usize, u64)) -> (r:
    bool)
    requires
        a.0 < apps.len(),
        b.0 < apps.len(),
        lows@.len() == apps@.len(),
        forall|i: int| 0 <= i < apps@.len() ==> (#[trigger] lows@[i])@ == unicode_lower(apps@[i]@.name),
    ensures
        r == row_before(app_views(apps@), (a.0 as int, a.1), (b.0 as int, b.1)),
{
    if a.1 != b.1 {
        a.1 > b.1
    } else {
        chars_lt_exec(lows[a.0].as_slice(), lows[b.0].as_slice())
    }
}

/// The rows as the spec sees them.
pub open spec fn row_views(rows: Seq<(usize, u64)>) -> Seq<(int, u64)> {
    rows.map_values(|r: (usize, u64)| (r.0 as int, r.1))
}

/// Catalogue entries used during the rolling month, newest first; apps used at the same moment
/// come in the order of their lower-cased names.
pub fn ranked_recent<'a>(apps: &'a [App], values: &[(String, u64)], now: u64) -> (r: Vec<&'a App>)
    ensures
        r@.len() == recent_ranking(app_views(apps@), values@, now).len(),
        forall|i: int|
            0 <= i < r@.len() ==> (#[trigger] r@[i])@ == recent_ranking(app_views(apps@), values@, now)[i],
{
    let ghost av = app_views(apps@);
    let cut: u64 = if now < RECENT_WINDOW_MS { 0 } else { now - RECENT_WINDOW_MS };
    let top: u64 = if now > u64::MAX - DAY_MS { u64::MAX } else { now + DAY_MS };
    let mut lows: Vec<Vec<char>> = Vec::new();
    let mut i: usize = 0;
    while i < apps.len()
        invariant
            i <= apps.len(),
            lows@.len() == i,
            forall|k: int| 0 <= k < i ==> (#[trigger] lows@[k])@ == unicode_lower(apps@[k]@.name),
        decreases apps.len() - i,
    {
        let low = to_lowercase(apps[i].name.as_str());
        lows.push(chars_of(low.as_str()));
        i = i + 1;
    }
    let mut rows: Vec<(usize, u64)> = Vec::new();
    let mut i: usize = 0;
    while i < apps.len()
        invariant
            i <= apps.len(),
            av == app_views(apps@),
            cut == cutoff(now),
            top == ceiling(now),
            lows@.len() == apps@.len(),
            forall|k: int| 0 <= k < apps@.len() ==> (#[trigger] lows@[k])@ == unicode_lower(apps@[k]@.name),
            row_views(rows@) == sort_rows(av, recent_rows(av, values@, now, i as int)),
            forall|k: int| 0 <= k < rows@.len() ==> (#[trigger] rows@[k]).0 < i,
        decreases apps.len() - i,
    {
        let ghost before = row_views(rows@);
        proof {
            lemma_sort_rows(av, recent_rows(av, values@, now, i as int));
        }
        match lookup_exec(values, apps[i].id.as_str()) {
            Some(used) => {
                if cut <= used && used <= top {
                    let x = (i, used);
                    let mut p: usize = 0;
                    while p < rows.len() && !row_before_exec(apps, &lows, x, rows[p])
                        invariant
                            p <= rows@.len(),
                            i < apps.len(),
                            lows@.len() == apps@.len(),
                            forall|k: int|
                                0 <= k < apps@.len() ==> (#[trigger] lows@[k])@ == unicode_lower(
                                    apps@[k]@.name,
                                ),
                            forall|k: int| 0 <= k < rows@.len() ==> (#[trigger] rows@[k]).0 < i,
                            av == app_views(apps@),
                            x == (i, used),
                            before == row_views(rows@),
                            insert_pos(av, before, (i as int, used), 0) == insert_pos(
                                av,
                                before,
                                (i as int, used),
                                p as int,
                            ),
                        decreases rows.len() - p,
                    {
                        assert(before[p as int] == (rows@[p as int].0 as int, rows@[p as int].1));
                        p = p + 1;
                    }
                    proof {
                        if p < rows@.len() {
                            assert(before[p as int] == (rows@[p as int].0 as int, rows@[p as int].1));
                        }
                        assert(insert_pos(av, before, (i as int, used), p as int) == p);
                        let rr = recent_rows(av, values@, now, i as int);
                        assert(recent_rows(av, values@, now, i + 1) == rr.push((i as int, used)));
                        assert(rr.push((i as int, used)).drop_last() =~= rr);
                    }
                    let ghost old_rows = rows@;
                    rows.insert(p, x);
                    proof {
                        assert(row_views(rows@) =~= before.insert(p as int, (i as int, used)));
                        assert forall|k: int| 0 <= k < rows@.len() implies (#[trigger] rows@[k]).0
                            < i + 1 by {
                            if k < p {
                                assert(rows@[k] == old_rows[k]);
                            } else if k > p {
                                assert(rows@[k] == old_rows[k - 1]);
                            }
                        }
                    }
                }
            },
            None => {},
        }
        i = i + 1;
    }
    let ghost sorted = row_views(rows@);
    proof {
        lemma_recent_rows(av, values@, now, apps@.len() as int);
        lemma_sort_rows(av, recent_rows(av, values@, now, apps@.len() as int));
    }
    let mut out: Vec<&'a App> = Vec::new();
    let mut k: usize = 0;
    while k < rows.len()
        invariant
            k <= rows.len(),
            av == app_views(apps@),
            sorted == row_views(rows@),
            forall|j: int| 0 <= j < rows@.len() ==> (#[trigger] rows@[j]).0 < apps@.len(),
            out@.len() == k,
            forall|j: int| 0 <= j < k ==> (#[trigger] out@[j])@ == av[sorted[j].0],
        decreases rows.len() - k,
    {
        out.push(&apps[rows[k].0]);
        k = k + 1;
    }
    out
}

/// The catalogue entries used during the rolling month, newest first.
pub fn recent_catalogue<'a>(apps: &'a [App], values: &[(String, u64)], now: u64) -> (r: Vec<&'a App>)
    ensures
        r@.len() == recent_ranking(app_views(apps@), values@, now).len(),
        forall|i: int|
            0 <= i < r@.len() ==> (#[trigger] r@[i])@ == recent_ranking(app_views(apps@), values@, now)[i],
{
    ranked_recent(apps, values, now)
}

/// `lookup` finds the first entry with the id, and finds one exactly when there is one.
proof fn lemma_lookup(s: Seq<(String, u64)>, k: Seq<char>)
    ensures
        lookup(s, k) is None <==> forall|j: int| 0 <= j < s.len() ==> s[j].0@ != k,
        keys_unique(s) ==> forall|j: int|
            0 <= j < s.len() && s[j].0@ == k ==> lookup(s, k) == Some(s[j].1),
    decreases s.len(),
{
    if s.len() > 0 {
        let d = s.drop_first();
        lemma_lookup(d, k);
        assert forall|j: int| 1 <= j < s.len() implies s[j] == d[j - 1] by {}
        if keys_unique(s) {
            assert(keys_unique(d)) by {
                assert forall|i: int, j: int| 0 <= i < j < d.len() implies d[i].0@ != d[j].0@ by {
                    assert(d[i] == s[i + 1] && d[j] == s[j + 1]);
                }
            }
        }
    }
}

/// Looking an id up after appending an entry.
proof fn lemma_lookup_push(s: Seq<(String, u64)>, e: (String, u64), k: Seq<char>)
    ensures
        lookup(s.push(e), k) == match lookup(s, k) {
            Some(u) => Some(u),
            None => if e.0@ == k {
                Some(e.1)
            } else {
                None
            },
        },
    decreases s.len(),
{
    if s.len() > 0 {
        let t = s.push(e);
        assert(t[0] == s[0]);
        assert(t.drop_first() =~= s.drop_first().push(e));
        lemma_lookup_push(s.drop_first(), e, k);
        if s[0].0@ == k {
            assert(lookup(t, k) == Some(s[0].1));
        } else {
            assert(lookup(t, k) == lookup(t.drop_first(), k));
            assert(lookup(s, k) == lookup(s.drop_first(), k));
        }
    } else {
        let t = s.push(e);
        assert(t.drop_first() =~= Seq::<(String, u64)>::empty());
        assert(t[0] == e);
        assert(lookup(t.drop_first(), k) is None);
    }
}

/// What the recent list says of an id after `id` was used at `now`: `now` for `id`, and for every
/// other id what it said before if that is still recent.
pub open spec fn after_touch(old: Seq<(String, u64)>, id: Seq<char>, now: u64, k: Seq<char>) -> Option<
    u64,
> {
    if k == id {
        Some(now)
    } else {
        match lookup(old, k) {
            Some(u) => if u >= cutoff(now) {
                Some(u)
            } else {
                None
            },
            None => None,
        }
    }
}

/// Records that catalogue app `id` was used at `now`, forgetting what fell out of the rolling
/// month. Returns false, changing nothing, when `id` is not in the catalogue.
pub fn touch_recent_id(apps: &[App], values: &mut Vec<(String, u64)>, id: &str, now: u64) -> (r:
    bool)
    requires
        keys_unique(old(values)@),
    ensures
        r == exists|i: int| 0 <= i < apps@.len() && #[trigger] apps@[i]@.id == id@,
        !r ==> final(values)@ == old(values)@,
        r ==> keys_unique(final(values)@),
        r ==> forall|k: Seq<char>|
            #[trigger] lookup(final(values)@, k) == after_touch(old(values)@, id@, now, k),
{
    let mut known = false;
    let mut i: usize = 0;
    while i < apps.len()
        invariant
            i <= apps.len(),
            known == exists|j: int| 0 <= j < i && #[trigger] apps@[j]@.id == id@,
        decreases apps.len() - i,
    {
        if same(apps[i].id.as_str(), id) {
            assert(apps@[i as int]@.id == id@);
            known = true;
        }
        i = i + 1;
    }
    if !known {
        return false;
    }
    let cut: u64 = if now < RECENT_WINDOW_MS { 0 } else { now - RECENT_WINDOW_MS };
    let ghost old_v = values@;
    let mut next: Vec<(String, u64)> = Vec::new();
    let mut i: usize = 0;
    while i < values.len()
        invariant
            i <= values.len(),
            values@ == old_v,
            keys_unique(old_v),
            cut == cutoff(now),
            keys_unique(next@),
            forall|j: int| 0 <= j < next@.len() ==> (#[trigger] next@[j]).0@ != id@,
            forall|k: Seq<char>|
                #[trigger] lookup(next@, k) == if k == id@ {
                    None
                } else {
                    match lookup(old_v.subrange(0, i as int), k) {
                        Some(u) => if u >= cut {
                            Some(u)
                        } else {
                            None
                        },
                        None => None,
                    }
                },
        decreases values.len() - i,
    {
        let ghost pre = old_v.subrange(0, i as int);
        let ghost nxt = old_v.subrange(0, i + 1);
        proof {
            assert(nxt =~= pre.push(old_v[i as int]));
            lemma_lookup(pre, old_v[i as int].0@);
            assert forall|j: int| 0 <= j < pre.len() implies pre[j].0@ != old_v[i as int].0@ by {
                assert(pre[j] == old_v[j]);
            }
            assert forall|k: Seq<char>| #[trigger] lookup(nxt, k) == match lookup(pre, k) {
                Some(u) => Some(u),
                None => if old_v[i as int].0@ == k {
                    Some(old_v[i as int].1)
                } else {
                    None
                },
            } by {
                lemma_lookup_push(pre, old_v[i as int], k);
            }
        }
        if !same(values[i].0.as_str(), id) && values[i].1 >= cut {
            let ghost before = next@;
            let e = (values[i].0.clone(), values[i].1);
            proof {
                lemma_lookup(before, e.0@);
            }
            next.push(e);
            proof {
                assert forall|k: Seq<char>| #[trigger] lookup(next@, k) == match lookup(before, k) {
                    Some(u) => Some(u),
                    None => if e.0@ == k {
                        Some(e.1)
                    } else {
                        None
                    },
                } by {
                    lemma_lookup_push(before, e, k);
                }
                assert forall|a: int, b: int| 0 <= a < b < next@.len() implies next@[a].0@
                    != next@[b].0@ by {
                    if b == next@.len() - 1 {
                        assert(next@[a] == before[a]);
                    } else {
                        assert(next@[a] == before[a] && next@[b] == before[b]);
                    }
                }
                assert forall|j: int| 0 <= j < next@.len() implies (#[trigger] next@[j]).0@ != id@ by {
                    if j < before.len() {
                        assert(next@[j] == before[j]);
                    }
                }
            }
        }
        i = i + 1;
    }
    proof {
        assert(old_v.subrange(0, old_v.len() as int) =~= old_v);
    }
    let ghost before = next@;
    let e = (String::from_str(id), now);
    proof {
        lemma_lookup(before, id@);
    }
    next.push(e);
    proof {
        assert forall|k: Seq<char>| #[trigger] lookup(next@, k) == after_touch(old_v, id@, now, k) by {
            lemma_lookup_push(before, e, k);
        }
        assert forall|a: int, b: int| 0 <= a < b < next@.len() implies next@[a].0@ != next@[b].0@ by {
            if b == next@.len() - 1 {
                assert(next@[a] == before[a]);
            } else {
                assert(next@[a] == before[a] && next@[b] == before[b]);
            }
        }
    }
    *values = next;
    true
}

/// The first catalogue app a window belongs to.
fn app_of_window(apps: &[App], exe: &str, aumid: &str) -> (r: Option<usize>)
    ensures
        match r {
            Some(i) => i < apps@.len() && app_matches(apps@[i as int]@.id, exe@, aumid@) && forall|
                j: int,
            |
                0 <= j < i ==> !app_matches(#[trigger] apps@[j]@.id, exe@, aumid@),
            None => forall|j: int|
                0 <= j < apps@.len() ==> !app_matches(#[trigger] apps@[j]@.id, exe@, aumid@),
        },
{
    let mut i: usize = 0;
    while i < apps.len()
        invariant
            i <= apps.len(),
            forall|j: int| 0 <= j < i ==> !app_matches(#[trigger] apps@[j]@.id, exe@, aumid@),
        decreases apps.len() - i,
    {
        if matches(apps[i].id.as_str(), exe, aumid) {
            return Some(i);
        }
        i = i + 1;
    }
    None
}

/// Records the app owning the window in front at `now`: the first catalogue entry, in catalogue
/// order, that the window matches. True only when the window belonged to a catalogue app, so the
/// caller knows the Launcher may need reordering.
pub fn touch_recent_window(
    apps: &[App],
    values: &mut Vec<(String, u64)>,
    exe: &str,
    aumid: &str,
    now: u64,
) -> (r: bool)
    requires
        keys_unique(old(values)@),
    ensures
        r == exists|i: int| 0 <= i < apps@.len() && app_matches(#[trigger] apps@[i]@.id, exe@, aumid@),
        !r ==> final(values)@ == old(values)@,
        r ==> keys_unique(final(values)@),
        r ==> exists|i: int|
            0 <= i < apps@.len() && app_matches(#[trigger] apps@[i]@.id, exe@, aumid@) && (forall|
                j: int,
            | 0 <= j < i ==> !app_matches(#[trigger] apps@[j]@.id, exe@, aumid@)) && forall|
                k: Seq<char>,
            | #[trigger] lookup(final(values)@, k) == after_touch(old(values)@, apps@[i]@.id, now, k),
{
    match app_of_window(apps, exe, aumid) {
        None => false,
        Some(i) => {
            let id = apps[i].id.clone();
            let hit = touch_recent_id(apps, values, id.as_str(), now);
            assert(apps@[i as int]@.id == id@);
            hit
        },
    }
}

/// Sets the time stored for `id` to `t`, keeping one entry per id.
fn put_time(values: &mut Vec<(String, u64)>, id: &str, t: u64)
    requires
        keys_unique(old(values)@),
    ensures
        keys_unique(final(values)@),
        forall|k: Seq<char>| #[trigger] lookup(final(values)@, k) == if k == id@ {
            Some(t)
        } else {
            lookup(old(values)@, k)
        },
{
    let ghost before = values@;
    let mut i: usize = 0;
    while i < values.len()
        invariant
            i <= values.len(),
            values@ == before,
            before == old(values)@,
            keys_unique(before),
            forall|j: int| 0 <= j < i ==> (#[trigger] values@[j]).0@ != id@,
        decreases values.len() - i,
    {
        if same(values[i].0.as_str(), id) {
            let e = (crate::text::own(id), t);
            assert(before[i as int].0@ == id@);
            values.set(i, e);
            proof {
                let after = values@;
                assert(after =~= before.update(i as int, e));
                assert forall|a: int, b: int| 0 <= a < b < after.len() implies after[a].0@
                    != after[b].0@ by {
                    assert(after[a].0@ == before[a].0@ && after[b].0@ == before[b].0@);
                }
                assert forall|k: Seq<char>| #[trigger] lookup(after, k) == if k == id@ {
                    Some(t)
                } else {
                    lookup(before, k)
                } by {
                    lemma_lookup(after, k);
                    lemma_lookup(before, k);
                    if k != id@ {
                        assert forall|j: int| 0 <= j < after.len() implies (after[j].0@ == k
                            <==> before[j].0@ == k) && (after[j].0@ == k ==> after[j] == before[j]) by {
                            if j == i {
                                assert(after[j].0@ == id@);
                            }
                        }
                        if lookup(before, k) is Some {
                            let j = choose|j: int| 0 <= j < before.len() && before[j].0@ == k;
                            assert(after[j] == before[j]);
                        }
                    } else {
                        assert(after[i as int].0@ == k);
                    }
                }
            }
            return;
        }
        i = i + 1;
    }
    let e = (crate::text::own(id), t);
    proof {
        lemma_lookup(before, id@);
    }
    values.push(e);
    proof {
        assert forall|k: Seq<char>| #[trigger] lookup(values@, k) == if k == id@ {
            Some(t)
        } else {
            lookup(before, k)
        } by {
            lemma_lookup_push(before, e, k);
        }
        assert forall|a: int, b: int| 0 <= a < b < values@.len() implies values@[a].0@
            != values@[b].0@ by {
            if b == values@.len() - 1 {
                assert(values@[a] == before[a]);
            } else {
                assert(values@[a] == before[a] && values@[b] == before[b]);
            }
        }
    }
}

/// Whether a stored time counts as recent at `now`: within the rolling month, and at most a day
/// ahead.
pub open spec fn in_window(u: u64, now: u64) -> bool {
    cutoff(now) <= u && u <= ceiling(now)
}

/// What is left of a stored time once the entries outside the window are dropped.
pub open spec fn windowed(v: Option<u64>, now: u64) -> Option<u64> {
    match v {
        Some(u) => if in_window(u, now) {
            Some(u)
        } else {
            None
        },
        None => None,
    }
}

/// The entries still recent at `now`, one per id as before.
fn keep_recent(values: &Vec<(String, u64)>, now: u64) -> (r: Vec<(String, u64)>)
    requires
        keys_unique(values@),
    ensures
        keys_unique(r@),
        forall|k: Seq<char>| #[trigger] lookup(r@, k) == windowed(lookup(values@, k), now),
{
    let cut: u64 = if now < RECENT_WINDOW_MS { 0 } else { now - RECENT_WINDOW_MS };
    let top: u64 = if now > u64::MAX - DAY_MS { u64::MAX } else { now + DAY_MS };
    let ghost old_v = values@;
    let mut next: Vec<(String, u64)> = Vec::new();
    let mut i: usize = 0;
    while i < values.len()
        invariant
            i <= values.len(),
            values@ == old_v,
            keys_unique(old_v),
            cut == cutoff(now),
            top == ceiling(now),
            keys_unique(next@),
            forall|j: int| 0 <= j < next@.len() ==> exists|m: int| 0 <= m < i && (#[trigger] next@[j]).0@ == old_v[m].0@,
            forall|k: Seq<char>|
                #[trigger] lookup(next@, k) == windowed(lookup(old_v.subrange(0, i as int), k), now),
        decreases values.len() - i,
    {
        let ghost pre = old_v.subrange(0, i as int);
        let ghost nxt = old_v.subrange(0, i + 1);
        proof {
            assert(nxt =~= pre.push(old_v[i as int]));
            lemma_lookup(pre, old_v[i as int].0@);
            assert forall|j: int| 0 <= j < pre.len() implies pre[j].0@ != old_v[i as int].0@ by {
                assert(pre[j] == old_v[j]);
            }
            assert forall|k: Seq<char>| #[trigger] lookup(nxt, k) == match lookup(pre, k) {
                Some(u) => Some(u),
                None => if old_v[i as int].0@ == k {
                    Some(old_v[i as int].1)
                } else {
                    None
                },
            } by {
                lemma_lookup_push(pre, old_v[i as int], k);
            }
        }
        if cut <= values[i].1 && values[i].1 <= top {
            let ghost before = next@;
            let e = (values[i].0.clone(), values[i].1);
            proof {
                lemma_lookup(before, e.0@);
                assert forall|j: int| 0 <= j < before.len() implies before[j].0@ != e.0@ by {
                    let m = choose|m: int| 0 <= m < i && before[j].0@ == old_v[m].0@;
                }
            }
            next.push(e);
            proof {
                assert forall|k: Seq<char>| #[trigger] lookup(next@, k) == match lookup(before, k) {
                    Some(u) => Some(u),
                    None => if e.0@ == k {
                        Some(e.1)
                    } else {
                        None
                    },
                } by {
                    lemma_lookup_push(before, e, k);
                }
                assert forall|a: int, b: int| 0 <= a < b < next@.len() implies next@[a].0@
                    != next@[b].0@ by {
                    if b == next@.len() - 1 {
                        assert(next@[a] == before[a]);
                    } else {
                        assert(next@[a] == before[a] && next@[b] == before[b]);
                    }
                }
                assert forall|j: int| 0 <= j < next@.len() implies exists|m: int|
                    0 <= m < i + 1 && (#[trigger] next@[j]).0@ == old_v[m].0@ by {
                    if j < before.len() {
                        assert(next@[j] == before[j]);
                        let m = choose|m: int| 0 <= m < i && before[j].0@ == old_v[m].0@;
                        assert(0 <= m < i + 1 && next@[j].0@ == old_v[m].0@);
                    } else {
                        assert(next@[j].0@ == old_v[i as int].0@);
                    }
                }
            }
        } else {
            proof {
                assert forall|k: Seq<char>| #[trigger] lookup(next@, k) == windowed(lookup(nxt, k), now) by {
                    if lookup(pre, k) is None && old_v[i as int].0@ == k {
                        lemma_lookup(next@, k);
                        assert forall|j: int| 0 <= j < next@.len() implies next@[j].0@ != k by {
                            let m = choose|m: int| 0 <= m < i && next@[j].0@ == old_v[m].0@;
                            assert(old_v[m].0@ != old_v[i as int].0@);
                        }
                    }
                }
                assert forall|j: int| 0 <= j < next@.len() implies exists|m: int|
                    0 <= m < i + 1 && (#[trigger] next@[j]).0@ == old_v[m].0@ by {
                    let m = choose|m: int| 0 <= m < i && next@[j].0@ == old_v[m].0@;
                    assert(0 <= m < i + 1 && next@[j].0@ == old_v[m].0@);
                }
            }
        }
        i = i + 1;
    }
    proof {
        assert(old_v.subrange(0, old_v.len() as int) =~= old_v);
    }
    next
}

/// The newest time the platform itself reports one of the first `n` catalogue entries with this
/// id was opened, or 0.
pub open spec fn opened_at(apps: Seq<AppView>, k: Seq<char>, n: int) -> u64
    decreases n,
{
    if n <= 0 {
        0
    } else {
        let prev = opened_at(apps, k, n - 1);
        if apps[n - 1].id == k && apps[n - 1].last_opened > prev {
            apps[n - 1].last_opened
        } else {
            prev
        }
    }
}

/// The stored time for `k` once the platform's record of the first `n` entries is merged in: the
/// platform's when it is newer, the stored one otherwise.
pub open spec fn merged(old: Seq<(String, u64)>, apps: Seq<AppView>, k: Seq<char>, n: int) -> Option<u64> {
    let m = opened_at(apps, k, n);
    match lookup(old, k) {
        Some(u) => if m > u {
            Some(m)
        } else {
            Some(u)
        },
        None => if m > 0 {
            Some(m)
        } else {
            None
        },
    }
}

/// Whether one of the first `n` catalogue entries with this id has a window open.
pub open spec fn open_among(apps: Seq<AppView>, open: Seq<bool>, k: Seq<char>, n: int) -> bool {
    exists|i: int| 0 <= i < n && #[trigger] apps[i].id == k && open[i]
}

/// What the recent history says of `k` when the host starts: `now` for an app with a window open
/// (open windows are as recent as it gets), otherwise the newer of the stored time and the
/// platform's own record; and nothing outside the rolling month or more than a day ahead.
pub open spec fn seeded(old: Seq<(String, u64)>, apps: Seq<AppView>, open: Seq<bool>, now: u64, k: Seq<char>) -> Option<u64> {
    let n = if apps.len() < open.len() {
        apps.len()
    } else {
        open.len()
    };
    windowed(
        if open_among(apps, open, k, n as int) {
            Some(now)
        } else {
            merged(old, apps, k, apps.len() as int)
        },
        now,
    )
}

/// Brings the stored recent history up to date when the host starts, so the first Launcher is not
/// almost empty while the user's daily apps are on screen: the platform's record of when each app
/// last ran is merged in where it is newer, apps with a window open (`open`, by catalogue index)
/// count as used now, and whatever fell out of the rolling month is dropped.
pub fn seed_recent(apps: &[App], values: &mut Vec<(String, u64)>, open: &[bool], now: u64)
    requires
        keys_unique(old(values)@),
    ensures
        keys_unique(final(values)@),
        forall|k: Seq<char>| #[trigger] lookup(final(values)@, k) == seeded(
            old(values)@,
            app_views(apps@),
            open@,
            now,
            k,
        ),
{
    let ghost old_v = values@;
    let ghost av = app_views(apps@);
    let mut i: usize = 0;
    while i < apps.len()
        invariant
            i <= apps.len(),
            av == app_views(apps@),
            keys_unique(values@),
            forall|k: Seq<char>| #[trigger] lookup(values@, k) == merged(old_v, av, k, i as int),
        decreases apps.len() - i,
    {
        let ghost before = values@;
        assert(av[i as int] == apps@[i as int]@);
        let cur = lookup_exec(values.as_slice(), apps[i].id.as_str());
        let stored = match cur {
            Some(u) => u,
            None => 0,
        };
        if apps[i].last_opened > stored {
            put_time(values, apps[i].id.as_str(), apps[i].last_opened);
        }
        proof {
            assert forall|k: Seq<char>| #[trigger] lookup(values@, k) == merged(old_v, av, k, i + 1) by {
                assert(opened_at(av, k, i + 1) == if av[i as int].id == k && av[i as int].last_opened
                    > opened_at(av, k, i as int) {
                    av[i as int].last_opened
                } else {
                    opened_at(av, k, i as int)
                });
            }
        }
        i = i + 1;
    }
    let n: usize = if apps.len() < open.len() {
        apps.len()
    } else {
        open.len()
    };
    let mut i: usize = 0;
    while i < n
        invariant
            i <= n,
            n <= apps.len(),
            n <= open.len(),
            av == app_views(apps@),
            keys_unique(values@),
            forall|k: Seq<char>| #[trigger] lookup(values@, k) == if open_among(av, open@, k, i as int) {
                Some(now)
            } else {
                merged(old_v, av, k, av.len() as int)
            },
        decreases n - i,
    {
        let ghost before = values@;
        assert(av[i as int] == apps@[i as int]@);
        if open[i] {
            put_time(values, apps[i].id.as_str(), now);
        }
        proof {
            assert forall|k: Seq<char>| #[trigger] lookup(values@, k) == if open_among(av, open@, k, i + 1) {
                Some(now)
            } else {
                merged(old_v, av, k, av.len() as int)
            } by {
                if open_among(av, open@, k, i + 1) && !open_among(av, open@, k, i as int) {
                    let j = choose|j: int| 0 <= j < i + 1 && #[trigger] av[j].id == k && open@[j];
                    assert(j == i);
                }
                if open_among(av, open@, k, i as int) {
                    let j = choose|j: int| 0 <= j < i && #[trigger] av[j].id == k && open@[j];
                    assert(0 <= j < i + 1 && av[j].id == k && open@[j]);
                }
                if open@[i as int] && av[i as int].id == k {
                    assert(open_among(av, open@, k, i + 1));
                }
            }
        }
        i = i + 1;
    }
    let kept = keep_recent(values, now);
    *values = kept;
}

/// An app's real icon as base64 PNG, or empty: what a `launch:` key shows instead of a glyph. A
/// desktop app's comes from its executable; a packaged app has none, so the shell's tile is asked
/// for instead. Without a desktop backend neither source has one.
pub fn icon(apps: &[App], id: &str) -> (r: String)
    ensures
        r@.len() == 0,
{
    let exe = exe_of(apps, id);
    if exe.unicode_len() > 0 {
        crate::platform::icon_cached(exe)
    } else {
        crate::platform::shell_tile_b64(id)
    }
}

/// `insert_pos` stays within the rows, past every row the new one does not rank before.
proof fn lemma_insert_pos(apps: Seq<AppView>, s: Seq<(int, u64)>, x: (int, u64), i: int)
    requires
        0 <= i <= s.len(),
    ensures
        i <= insert_pos(apps, s, x, i) <= s.len(),
        forall|k: int| i <= k < insert_pos(apps, s, x, i) ==> !row_before(apps, x, #[trigger] s[k]),
        insert_pos(apps, s, x, i) < s.len() ==> row_before(apps, x, s[insert_pos(apps, s, x, i)]),
    decreases s.len() - i,
{
    if i < s.len() && !row_before(apps, x, s[i]) {
        lemma_insert_pos(apps, s, x, i + 1);
    }
}

proof fn lemma_rows_in_window(apps: Seq<AppView>, values: Seq<(String, u64)>, now: u64, n: int)
    requires
        0 <= n <= apps.len(),
    ensures
        forall|k: int| 0 <= k < recent_rows(apps, values, now, n).len() ==> cutoff(now) <= (
        #[trigger] recent_rows(apps, values, now, n)[k]).1 <= ceiling(now),
    decreases n,
{
    if n > 0 {
        lemma_rows_in_window(apps, values, now, n - 1);
        let rest = recent_rows(apps, values, now, n - 1);
        let cur = recent_rows(apps, values, now, n);
        assert forall|k: int| 0 <= k < rest.len() implies cur[k] == rest[k] by {}
    }
}

/// Sorting keeps the rows and orders them newest first.
proof fn lemma_sort_rows(apps: Seq<AppView>, rows: Seq<(int, u64)>)
    ensures
        sort_rows(apps, rows).len() == rows.len(),
        forall|a: int, b: int| 0 <= a < b < rows.len() ==> (#[trigger] sort_rows(apps, rows)[a]).1
            >= (#[trigger] sort_rows(apps, rows)[b]).1,
        forall|k: int| 0 <= k < rows.len() ==> exists|j: int| 0 <= j < rows.len() && #[trigger] sort_rows(apps, rows)[k] == rows[j],
    decreases rows.len(),
{
    if rows.len() > 0 {
        let d = rows.drop_last();
        lemma_sort_rows(apps, d);
        let s = sort_rows(apps, d);
        let x = rows.last();
        let p = insert_pos(apps, s, x, 0);
        lemma_insert_pos(apps, s, x, 0);
        let out = s.insert(p, x);
        assert(out == sort_rows(apps, rows));
        assert forall|a: int, b: int| 0 <= a < b < rows.len() implies (#[trigger] out[a]).1 >= (
        #[trigger] out[b]).1 by {
            if b < p {
                assert(out[a] == s[a] && out[b] == s[b]);
            } else if b == p {
                assert(out[b] == x);
                assert(out[a] == s[a]);
                assert(!row_before(apps, x, s[a]));
            } else if a > p {
                assert(out[a] == s[a - 1] && out[b] == s[b - 1]);
            } else if a == p {
                assert(out[a] == x);
                assert(out[b] == s[b - 1]);
                assert(row_before(apps, x, s[p]));
                if b - 1 > p {
                    assert(s[p].1 >= s[b - 1].1);
                }
            } else {
                assert(out[a] == s[a] && out[b] == s[b - 1]);
            }
        }
        assert forall|k: int| 0 <= k < rows.len() implies exists|j: int| 0 <= j < rows.len() && #[trigger] out[k] == rows[j] by {
            if k < p {
                assert(out[k] == s[k]);
                let j = choose|j: int| 0 <= j < d.len() && s[k] == d[j];
                assert(rows[j] == d[j]);
            } else if k == p {
                assert(out[k] == rows[rows.len() - 1]);
            } else {
                assert(out[k] == s[k - 1]);
                let j = choose|j: int| 0 <= j < d.len() && s[k - 1] == d[j];
                assert(rows[j] == d[j]);
            }
        }
    }
}

/// The recent list is the rolling month, newest first: every app it offers was last in front
/// within thirty days of `now` (or at most a day ahead, for clocks that disagree), and an app
/// used more recently always comes before one used earlier.
pub proof fn law_recent_apps_are_newest_first(apps: Seq<AppView>, values: Seq<(String, u64)>, now: u64)
    ensures
        ({
            let rows = sort_rows(apps, recent_rows(apps, values, now, apps.len() as int));
            &&& recent_ranking(apps, values, now).len() == rows.len()
            &&& forall|k: int| 0 <= k < rows.len() ==> recent_ranking(apps, values, now)[k] == apps[(
            #[trigger] rows[k]).0] && cutoff(now) <= rows[k].1 <= ceiling(now)
            &&& forall|a: int, b: int| 0 <= a < b < rows.len() ==> (#[trigger] rows[a]).1 >= (
            #[trigger] rows[b]).1
        }),
{
    let raw = recent_rows(apps, values, now, apps.len() as int);
    lemma_rows_in_window(apps, values, now, apps.len() as int);
    lemma_sort_rows(apps, raw);
    let rows = sort_rows(apps, raw);
    assert forall|k: int| 0 <= k < rows.len() implies cutoff(now) <= (#[trigger] rows[k]).1 <= ceiling(now) by {
        let j = choose|j: int| 0 <= j < raw.len() && rows[k] == raw[j];
    }
}

/// A packaged app's window that advertises an AUMID is matched by that AUMID alone, however the
/// letters are cased: the executable behind it never decides, so two apps sharing a host process
/// are never confused.
pub proof fn law_an_aumid_never_falls_back_to_the_executable(
    id: Seq<char>,
    aumid: Seq<char>,
    exe1: Seq<char>,
    exe2: Seq<char>,
)
    requires
        id.len() > 0,
        split_once(id, seq!['!']) is Some,
        aumid.len() > 0,
    ensures
        app_matches(id, exe1, aumid) == app_matches(id, exe2, aumid),
        app_matches(id, exe1, aumid) == eq_ignore_ascii_case(aumid, id),
{
}

} // verus!
