//! What the host's editor window asks of the library: saving and previewing decks, the settings
//! it changes, and where an exported deck is written.
use vstd::prelude::*;

use crate::config::{deck_views, Deck};
use crate::faces::{deck_addrs, face_set, forget_orphans};
use crate::pairing::new_token;
use crate::seeding::Config;
use crate::session::{clear_preview, set_preview};
use crate::text::{chars_of, string_of, trim, trim_exec};
use crate::validation::{decks_fit, decks_problem, validate};

verus! {

/// A character that may stay in a file name: ASCII letters and digits, `-` and `_`.
pub open spec fn file_safe(c: char) -> bool {
    ('a' <= c && c <= 'z') || ('A' <= c && c <= 'Z') || ('0' <= c && c <= '9') || c == '-' || c
        == '_'
}

/// Every other character flattened to `-`.
pub open spec fn flattened(id: Seq<char>) -> Seq<char> {
    Seq::new(id.len(), |i: int| if file_safe(id[i]) { id[i] } else { '-' })
}

/// Nothing but dashes (the empty name included).
pub open spec fn only_dashes(s: Seq<char>) -> bool {
    forall|i: int| 0 <= i < s.len() ==> s[i] == '-'
}

/// The file name an exported deck is written under: the id with everything that is not a plain
/// name character flattened to `-`, or `deck` when nothing but dashes would be left.
pub open spec fn safe_name(id: Seq<char>) -> Seq<char> {
    if only_dashes(flattened(id)) {
        "deck"@
    } else {
        flattened(id)
    }
}

/// A deck id comes from the config or from a file somebody else wrote, and here it becomes a
/// path. Everything that is not a plain name is flattened, so no id can name a parent folder, a
/// drive, an extension or a device, and the name is never empty.
pub fn safe_file_name(id: &str) -> (r: String)
    ensures
        r@ == safe_name(id@),
        r@.len() > 0,
        forall|i: int| 0 <= i < r@.len() ==> file_safe(#[trigger] r@[i]),
{
    let cs = crate::text::chars_of(id);
    let mut out: Vec<char> = Vec::new();
    let mut dashes_only = true;
    let mut i: usize = 0;
    while i < cs.len()
        invariant
            i <= cs.len(),
            cs@ == id@,
            out@ == flattened(id@).subrange(0, i as int),
            dashes_only == only_dashes(out@),
        decreases cs.len() - i,
    {
        let c = cs[i];
        let keep = ('a' <= c && c <= 'z') || ('A' <= c && c <= 'Z') || ('0' <= c && c <= '9')
            || c == '-' || c == '_';
        let d = if keep {
            c
        } else {
            '-'
        };
        let ghost before = out@;
        let ghost was = dashes_only;
        out.push(d);
        if d != '-' {
            dashes_only = false;
        }
        proof {
            assert(out@ == before.push(d));
            assert(out@[before.len() as int] == d);
            if dashes_only {
                assert forall|k: int| 0 <= k < out@.len() implies out@[k] == '-' by {
                    if k < before.len() {
                        assert(out@[k] == before[k]);
                    }
                }
            } else if d == '-' {
                assert(!was);
                assert(!only_dashes(before));
                let k = choose|k: int| 0 <= k < before.len() && before[k] != '-';
                assert(out@[k] == before[k]);
            }
            assert(out@ =~= flattened(id@).subrange(0, i + 1));
        }
        i = i + 1;
    }
    assert(out@ =~= flattened(id@));
    proof {
        reveal_strlit("deck");
    }
    if dashes_only {
        crate::text::own("deck")
    } else {
        crate::text::string_of(out.as_slice())
    }
}

/// Saves the edited decks when they validate: they replace the stored ones, the remembered ON
/// faces that no two-state key carries any more are forgotten, and the preview is dropped (the
/// saved decks are the truth again). Decks that do not validate change nothing, and the first
/// problem comes back.
pub fn save_decks(c: &mut Config, faces: &mut Vec<String>, preview: &mut Option<Vec<Deck>>, decks: Vec<Deck>)
    -> (r: Result<(), String>)
    requires
        decks_fit(deck_views(decks@)),
        face_set(old(faces)@).no_duplicates(),
    ensures
        face_set(final(faces)@).no_duplicates(),
        match r {
            Ok(_) => {
                &&& decks_problem(deck_views(decks@)) is None
                &&& final(c).decks@ == decks@
                &&& *final(preview) is None
                &&& forall|x: Seq<char>|
                    #[trigger] face_set(final(faces)@).contains(x) == (face_set(old(faces)@).contains(x)
                        && deck_addrs(deck_views(decks@)).contains(x))
            },
            Err(e) => {
                &&& decks_problem(deck_views(decks@)) == Some(e@)
                &&& final(c).decks == old(c).decks
                &&& final(faces)@ == old(faces)@
                &&& *final(preview) == *old(preview)
            },
        },
        final(c).profiles == old(c).profiles,
        final(c).devices == old(c).devices,
        final(c).token == old(c).token,
        final(c).host_id == old(c).host_id,
        final(c).manual_enabled == old(c).manual_enabled,
        final(c).obs_password == old(c).obs_password,
{
    match validate(&decks) {
        Err(e) => Err(e),
        Ok(()) => {
            c.decks = decks;
            forget_orphans(faces, &c.decks);
            let _ = clear_preview(preview);
            Ok(())
        },
    }
}

/// Shows unsaved decks on the phones in manual mode, validated exactly like a save: decks that do
/// not validate leave the preview as it was, and the first problem comes back.
pub fn preview_decks(preview: &mut Option<Vec<Deck>>, decks: Vec<Deck>) -> (r: Result<(), String>)
    requires
        decks_fit(deck_views(decks@)),
    ensures
        match r {
            Ok(_) => decks_problem(deck_views(decks@)) is None && *final(preview) == Some(decks),
            Err(e) => decks_problem(deck_views(decks@)) == Some(e@) && *final(preview) == *old(preview),
        },
{
    match validate(&decks) {
        Err(e) => Err(e),
        Ok(()) => {
            set_preview(preview, decks);
            Ok(())
        },
    }
}

/// Forgets every pairing of the first scheme: a new shared token, and no phone remembered under
/// it. Devices paired one by one keep their own tokens.
pub fn unpair_all(c: &mut Config)
    ensures
        exists|b: Seq<u8>| b.len() == 16 && final(c).token@ == crate::pairing::hex(b),
        final(c).token@.len() == 32,
        final(c).paired@.len() == 0,
        final(c).devices == old(c).devices,
        final(c).decks == old(c).decks,
        final(c).profiles == old(c).profiles,
        final(c).host_id == old(c).host_id,
{
    c.token = new_token();
    c.paired = Vec::new();
}

/// Stores the OBS WebSocket password, without the blanks at either end.
pub fn set_obs_password(c: &mut Config, password: &str)
    ensures
        final(c).obs_password@ == trim(password@),
        final(c).token == old(c).token,
        final(c).devices == old(c).devices,
        final(c).decks == old(c).decks,
        final(c).profiles == old(c).profiles,
{
    let cs = chars_of(password);
    let t = trim_exec(cs.as_slice());
    c.obs_password = string_of(t.as_slice());
}

} // verus!
