//! Which shell is running inside the foreground window, from its process tree.
//!
//! The window title is not enough: a terminal changes it per tab, and it lies the moment another
//! shell runs inside (`wsl` started from a PowerShell tab leaves the title saying "Windows
//! PowerShell"). So the process tree decides: the deepest shell below the window's own process
//! wins, and a tie at that depth is broken by the title, which does follow the active tab.
use vstd::prelude::*;

use crate::text::{chars_of, contains, contains_lit, is, to_lowercase, unicode_lower};

verus! {

/// The shells a window can be running.
#[derive(Clone, Copy, PartialEq, Eq, Debug, Structural)]
pub enum ShellKind {
    Bash,
    Cmd,
    Pwsh,
}

/// The profile id each shell kind selects.
pub open spec fn kind_label(k: ShellKind) -> Seq<char> {
    match k {
        ShellKind::Bash => "shell-bash"@,
        ShellKind::Cmd => "shell-cmd"@,
        ShellKind::Pwsh => "shell-pwsh"@,
    }
}

/// The profile id of a shell kind.
pub fn kind_name(k: ShellKind) -> (r: &'static str)
    ensures
        r@ == kind_label(k),
{
    match k {
        ShellKind::Bash => "shell-bash",
        ShellKind::Cmd => "shell-cmd",
        ShellKind::Pwsh => "shell-pwsh",
    }
}

/// The shell an executable is, if it is one. The WSL launchers count: the shell lives in the VM
/// but its console process is on this side.
pub open spec fn kind_of(exe: Seq<char>) -> Option<ShellKind> {
    if exe == "powershell.exe"@ || exe == "pwsh.exe"@ {
        Some(ShellKind::Pwsh)
    } else if exe == "cmd.exe"@ {
        Some(ShellKind::Cmd)
    } else if exe == "bash.exe"@ || exe == "wsl.exe"@ || exe == "ubuntu.exe"@ || exe
        == "debian.exe"@ || exe == "zsh.exe"@ || exe == "fish.exe"@ {
        Some(ShellKind::Bash)
    } else {
        None
    }
}

/// The shell an executable is.
fn kind_of_exec(exe: &str) -> (r: Option<ShellKind>)
    ensures
        r == kind_of(exe@),
{
    let c = chars_of(exe);
    let s = c.as_slice();
    if is(s, "powershell.exe") || is(s, "pwsh.exe") {
        Some(ShellKind::Pwsh)
    } else if is(s, "cmd.exe") {
        Some(ShellKind::Cmd)
    } else if is(s, "bash.exe") || is(s, "wsl.exe") || is(s, "ubuntu.exe") || is(s, "debian.exe")
        || is(s, "zsh.exe") || is(s, "fish.exe") {
        Some(ShellKind::Bash)
    } else {
        None
    }
}

/// How many processes the walk expands at most.
pub const WALK_CAP: usize = 400;

/// A process as (pid, parent pid, executable name).
pub type Proc = (u32, u32, String);

/// One expansion of process `pid` at `depth`: every process listed as `pid` that is a shell is
/// recorded at that depth, and every child not seen before joins the queue one level deeper.
pub open spec fn visit(
    procs: Seq<Proc>,
    pid: u32,
    depth: int,
    j: int,
    queue: Seq<(u32, int)>,
    seen: Seq<u32>,
    found: Seq<(ShellKind, int)>,
) -> (Seq<(u32, int)>, Seq<u32>, Seq<(ShellKind, int)>)
    decreases procs.len() - j,
{
    if j < 0 || j >= procs.len() {
        (queue, seen, found)
    } else {
        let p = procs[j].0;
        let parent = procs[j].1;
        let k = kind_of(procs[j].2@);
        let found2 = if p == pid && k is Some {
            found.push((k->0, depth))
        } else {
            found
        };
        let grow = parent == pid && !seen.contains(p);
        let queue2 = if grow {
            queue.push((p, depth + 1))
        } else {
            queue
        };
        let seen2 = if grow {
            seen.push(p)
        } else {
            seen
        };
        visit(procs, pid, depth, j + 1, queue2, seen2, found2)
    }
}

/// The breadth-first walk from queue entry `i` on, up to the cap: the shells it finds, each with
/// its depth below the window's own process.
pub open spec fn walk(
    procs: Seq<Proc>,
    i: int,
    queue: Seq<(u32, int)>,
    seen: Seq<u32>,
    found: Seq<(ShellKind, int)>,
) -> Seq<(ShellKind, int)>
    decreases WALK_CAP - i,
{
    if i < 0 || i >= queue.len() || i >= WALK_CAP {
        found
    } else {
        let r = visit(procs, queue[i].0, queue[i].1, 0, queue, seen, found);
        walk(procs, i + 1, r.0, r.1, r.2)
    }
}

/// Every shell in the tree below `root` (the window's own process at depth 0), with its depth.
pub open spec fn shells_found(procs: Seq<Proc>, root: u32) -> Seq<(ShellKind, int)> {
    walk(procs, 0, seq![(root, 0int)], seq![root], Seq::empty())
}

/// The greatest depth found, or -1.
pub open spec fn max_depth(found: Seq<(ShellKind, int)>) -> int
    decreases found.len(),
{
    if found.len() == 0 {
        -1
    } else {
        let rest = max_depth(found.drop_last());
        if found.last().1 > rest {
            found.last().1
        } else {
            rest
        }
    }
}

/// Whether shell `k` was found at depth `d`.
pub open spec fn found_at(found: Seq<(ShellKind, int)>, k: ShellKind, d: int) -> bool {
    exists|i: int| 0 <= i < found.len() && #[trigger] found[i] == (k, d)
}

/// The distinct kinds found at the greatest depth, in the order their ids sort.
pub open spec fn deepest(found: Seq<(ShellKind, int)>) -> Seq<ShellKind> {
    let d = max_depth(found);
    (if found_at(found, ShellKind::Bash, d) {
        seq![ShellKind::Bash]
    } else {
        Seq::empty()
    }) + (if found_at(found, ShellKind::Cmd, d) {
        seq![ShellKind::Cmd]
    } else {
        Seq::empty()
    }) + (if found_at(found, ShellKind::Pwsh, d) {
        seq![ShellKind::Pwsh]
    } else {
        Seq::empty()
    })
}

/// The kinds out of `ks` a lower-cased title hints at, in order.
pub open spec fn hinted_among(ks: Seq<ShellKind>, t: Seq<char>) -> Seq<ShellKind>
    decreases ks.len(),
{
    if ks.len() == 0 {
        Seq::empty()
    } else if hinted(ks.last(), t) {
        hinted_among(ks.drop_last(), t).push(ks.last())
    } else {
        hinted_among(ks.drop_last(), t)
    }
}

/// Whether a lower-cased title hints at a shell kind.
pub open spec fn hinted(k: ShellKind, t: Seq<char>) -> bool {
    match k {
        ShellKind::Bash => contains(t, "wsl"@) || contains(t, "ubuntu"@) || contains(t, "debian"@)
            || contains(t, "bash"@) || contains(t, "mingw"@) || contains(t, "@"@) || contains(
            t,
            "~"@,
        ),
        ShellKind::Pwsh => contains(t, "powershell"@) || contains(t, "pwsh"@),
        ShellKind::Cmd => contains(t, "cmd"@) || contains(t, "símbolo del sistema"@) || contains(
            t,
            "command prompt"@,
        ),
    }
}

/// The shell a window runs: the only kind at the greatest depth, or, when several tie there, the
/// only one of them the title hints at. Nothing when no shell was found or the title cannot
/// decide.
pub open spec fn shell_choice(found: Seq<(ShellKind, int)>, title: Seq<char>) -> Option<ShellKind> {
    if found.len() == 0 {
        None
    } else {
        let d = deepest(found);
        if d.len() == 1 {
            Some(d[0])
        } else {
            let h = hinted_among(d, unicode_lower(title));
            if h.len() == 1 {
                Some(h[0])
            } else {
                None
            }
        }
    }
}

/// The queue as the spec sees it.
pub open spec fn queue_view(q: Seq<(u32, u32)>) -> Seq<(u32, int)> {
    q.map_values(|e: (u32, u32)| (e.0, e.1 as int))
}

/// The shells found as the spec sees them.
pub open spec fn found_view(f: Seq<(ShellKind, u32)>) -> Seq<(ShellKind, int)> {
    f.map_values(|e: (ShellKind, u32)| (e.0, e.1 as int))
}

/// Whether `x` is among the first entries of `v`.
fn has_u32(v: &Vec<u32>, x: u32) -> (r: bool)
    ensures
        r == v@.contains(x),
{
    let mut i: usize = 0;
    while i < v.len()
        invariant
            i <= v.len(),
            forall|k: int| 0 <= k < i ==> v@[k] != x,
        decreases v.len() - i,
    {
        if v[i] == x {
            assert(v@[i as int] == x);
            return true;
        }
        i = i + 1;
    }
    false
}

/// Walks the process tree from the window's own process and lists the shells in it with their
/// depth.
fn walk_exec(procs: &[Proc], root: u32) -> (r: Vec<(ShellKind, u32)>)
    ensures
        found_view(r@) == shells_found(procs@, root),
        forall|k: int| 0 <= k < r@.len() ==> (#[trigger] r@[k]).1 <= WALK_CAP,
{
    let mut queue: Vec<(u32, u32)> = Vec::new();
    queue.push((root, 0));
    let mut seen: Vec<u32> = Vec::new();
    seen.push(root);
    let mut found: Vec<(ShellKind, u32)> = Vec::new();
    assert(queue_view(queue@) =~= seq![(root, 0int)]);
    assert(found_view(found@) =~= Seq::<(ShellKind, int)>::empty());
    let mut i: usize = 0;
    while i < queue.len() && i < WALK_CAP
        invariant
            i <= queue@.len(),
            i <= WALK_CAP,
            forall|k: int| 0 <= k < queue@.len() ==> (#[trigger] queue@[k]).1 <= k,
            forall|k: int| 0 <= k < found@.len() ==> (#[trigger] found@[k]).1 <= WALK_CAP,
            shells_found(procs@, root) == walk(
                procs@,
                i as int,
                queue_view(queue@),
                seen@,
                found_view(found@),
            ),
        decreases WALK_CAP - i,
    {
        let pid = queue[i].0;
        let depth = queue[i].1;
        assert(depth <= i);
        let ghost q0 = queue_view(queue@);
        let ghost s0 = seen@;
        let ghost f0 = found_view(found@);
        assert(q0[i as int] == (pid, depth as int));
        let mut j: usize = 0;
        while j < procs.len()
            invariant
                j <= procs@.len(),
                i < queue@.len(),
                i < WALK_CAP,
                depth <= i,
                forall|k: int| 0 <= k < queue@.len() ==> (#[trigger] queue@[k]).1 <= k,
                forall|k: int| 0 <= k < found@.len() ==> (#[trigger] found@[k]).1 <= WALK_CAP,
                visit(procs@, pid, depth as int, 0, q0, s0, f0) == visit(
                    procs@,
                    pid,
                    depth as int,
                    j as int,
                    queue_view(queue@),
                    seen@,
                    found_view(found@),
                ),
            decreases procs@.len() - j,
        {
            let p = procs[j].0;
            let parent = procs[j].1;
            let ghost fb = found_view(found@);
            match kind_of_exec(procs[j].2.as_str()) {
                Some(k) => {
                    if p == pid {
                        found.push((k, depth));
                        assert(found_view(found@) =~= fb.push((k, depth as int)));
                    }
                },
                None => {},
            }
            let ghost qb = queue_view(queue@);
            if parent == pid && !has_u32(&seen, p) {
                seen.push(p);
                queue.push((p, depth + 1));
                assert(queue_view(queue@) =~= qb.push((p, depth + 1)));
            }
            j = j + 1;
        }
        i = i + 1;
    }
    found
}

/// The greatest depth found.
fn max_depth_exec(found: &Vec<(ShellKind, u32)>) -> (r: i64)
    requires
        forall|k: int| 0 <= k < found@.len() ==> (#[trigger] found@[k]).1 <= WALK_CAP,
    ensures
        r == max_depth(found_view(found@)),
{
    let ghost fv = found_view(found@);
    let mut m: i64 = -1;
    let mut i: usize = 0;
    while i < found.len()
        invariant
            i <= found@.len(),
            fv == found_view(found@),
            forall|k: int| 0 <= k < found@.len() ==> (#[trigger] found@[k]).1 <= WALK_CAP,
            m == max_depth(fv.subrange(0, i as int)),
            -1 <= m <= WALK_CAP,
        decreases found@.len() - i,
    {
        proof {
            assert(fv.subrange(0, i + 1).drop_last() =~= fv.subrange(0, i as int));
            assert(fv.subrange(0, i + 1).last() == fv[i as int]);
        }
        let d = found[i].1 as i64;
        if d > m {
            m = d;
        }
        i = i + 1;
    }
    assert(fv.subrange(0, found@.len() as int) =~= fv);
    m
}

/// Whether shell `k` was found at depth `d`.
fn found_at_exec(found: &Vec<(ShellKind, u32)>, k: ShellKind, d: i64) -> (r: bool)
    ensures
        r == found_at(found_view(found@), k, d as int),
{
    let ghost fv = found_view(found@);
    let mut i: usize = 0;
    while i < found.len()
        invariant
            i <= found@.len(),
            fv == found_view(found@),
            forall|x: int| 0 <= x < i ==> fv[x] != (k, d as int),
        decreases found@.len() - i,
    {
        if found[i].0 == k && found[i].1 as i64 == d {
            assert(fv[i as int] == (k, d as int));
            return true;
        }
        i = i + 1;
    }
    false
}

/// Whether a lower-cased title hints at a shell kind.
fn hinted_exec(k: ShellKind, t: &[char]) -> (r: bool)
    ensures
        r == hinted(k, t@),
{
    match k {
        ShellKind::Bash => contains_lit(t, "wsl") || contains_lit(t, "ubuntu") || contains_lit(
            t,
            "debian",
        ) || contains_lit(t, "bash") || contains_lit(t, "mingw") || contains_lit(t, "@")
            || contains_lit(t, "~"),
        ShellKind::Pwsh => contains_lit(t, "powershell") || contains_lit(t, "pwsh"),
        ShellKind::Cmd => contains_lit(t, "cmd") || contains_lit(t, "símbolo del sistema")
            || contains_lit(t, "command prompt"),
    }
}

/// Which shell runs inside a window, given the processes on the machine as (pid, parent pid,
/// executable name), the window's own process and its title: the profile id of that shell.
pub fn pick_shell(procs: &[Proc], root_pid: u32, title: &str) -> (r: Option<&'static str>)
    ensures
        match r {
            Some(s) => shell_choice(shells_found(procs@, root_pid), title@) matches Some(k) && s@
                == kind_label(k),
            None => shell_choice(shells_found(procs@, root_pid), title@) is None,
        },
{
    let found = walk_exec(procs, root_pid);
    let ghost fv = found_view(found@);
    if found.len() == 0 {
        return None;
    }
    let maxd = max_depth_exec(&found);
    let b = found_at_exec(&found, ShellKind::Bash, maxd);
    let c = found_at_exec(&found, ShellKind::Cmd, maxd);
    let p = found_at_exec(&found, ShellKind::Pwsh, maxd);
    let mut deep: Vec<ShellKind> = Vec::new();
    if b {
        deep.push(ShellKind::Bash);
    }
    if c {
        deep.push(ShellKind::Cmd);
    }
    if p {
        deep.push(ShellKind::Pwsh);
    }
    assert(deep@ =~= deepest(fv));
    if deep.len() == 1 {
        return Some(kind_name(deep[0]));
    }
    let low = to_lowercase(title);
    let t = chars_of(low.as_str());
    let mut hits: Vec<ShellKind> = Vec::new();
    let mut i: usize = 0;
    while i < deep.len()
        invariant
            i <= deep@.len(),
            t@ == unicode_lower(title@),
            hits@ == hinted_among(deep@.subrange(0, i as int), t@),
        decreases deep@.len() - i,
    {
        proof {
            let pre = deep@.subrange(0, i + 1);
            assert(pre.drop_last() =~= deep@.subrange(0, i as int));
            assert(pre.last() == deep@[i as int]);
        }
        if hinted_exec(deep[i], t.as_slice()) {
            hits.push(deep[i]);
        }
        i = i + 1;
    }
    assert(deep@.subrange(0, deep@.len() as int) =~= deep@);
    if hits.len() == 1 {
        Some(kind_name(hits[0]))
    } else {
        None
    }
}

proof fn lemma_hinted_among_subset(ks: Seq<ShellKind>, t: Seq<char>)
    ensures
        forall|i: int| 0 <= i < hinted_among(ks, t).len() ==> ks.contains(#[trigger] hinted_among(ks, t)[i]),
    decreases ks.len(),
{
    if ks.len() > 0 {
        lemma_hinted_among_subset(ks.drop_last(), t);
        let rest = hinted_among(ks.drop_last(), t);
        assert forall|i: int| 0 <= i < rest.len() implies ks.contains(#[trigger] rest[i]) by {
            let j = choose|j: int| 0 <= j < ks.drop_last().len() && ks.drop_last()[j] == rest[i];
            assert(ks[j] == rest[i]);
        }
        assert(ks[ks.len() - 1] == ks.last());
    }
}

/// The deepest shell in the window's process tree wins: whatever is chosen runs at the greatest
/// depth found, and a shell alone at that depth is chosen whatever the title says. The title only
/// breaks a tie between shells at that depth.
pub proof fn law_the_deepest_shell_wins(found: Seq<(ShellKind, int)>, title: Seq<char>)
    ensures
        shell_choice(found, title) matches Some(k) ==> found_at(found, k, max_depth(found)),
        found.len() > 0 && deepest(found).len() == 1 ==> shell_choice(found, title) == Some(
            deepest(found)[0],
        ),
{
    let d = deepest(found);
    let m = max_depth(found);
    assert forall|i: int| 0 <= i < d.len() implies found_at(found, #[trigger] d[i], m) by {
        let b = if found_at(found, ShellKind::Bash, m) { seq![ShellKind::Bash] } else { Seq::empty() };
        let c = if found_at(found, ShellKind::Cmd, m) { seq![ShellKind::Cmd] } else { Seq::empty() };
        let p = if found_at(found, ShellKind::Pwsh, m) { seq![ShellKind::Pwsh] } else { Seq::empty() };
        assert(d == b + c + p);
        if i < b.len() {
            assert(d[i] == b[i]);
        } else if i < b.len() + c.len() {
            assert(d[i] == c[i - b.len()]);
        } else {
            assert(d[i] == p[i - b.len() - c.len()]);
        }
    }
    if found.len() > 0 && d.len() != 1 {
        let h = hinted_among(d, unicode_lower(title));
        lemma_hinted_among_subset(d, unicode_lower(title));
        if h.len() == 1 {
            let j = choose|j: int| 0 <= j < d.len() && d[j] == h[0];
        }
    }
}

} // verus!
