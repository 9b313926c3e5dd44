//! The macro language a key runs: steps chained with `>>`, each a hotkey, a typed text, a UI
//! control pressed by name, a pause, a mouse gesture or an app action. This module reads an action
//! string into the steps to perform; performing them on the desktop is the caller's.
use vstd::prelude::*;

use crate::text::{
    chars_of, concat_chars, contains, contains_lit, is, parse_i32, parse_i32_exec, parse_u64,
    parse_u64_exec, replace_all, replace_exec, split, split_char, split_lit, split_once,
    split_once_char, starts_with_lit, strip_prefix, strip_prefix_lit, string_of, to_lowercase,
    trim, trim_exec, unicode_lower, is_prefix,
};

verus! {

// ---------------------------------------------------------------------------------------------
// Keys that ask the client something first
// ---------------------------------------------------------------------------------------------

/// The `at`-th `Name=value` entry of a `;`-separated list, split at its first `=`: the name
/// trimmed, the value (an action chain with `=` of its own) as written.
pub open spec fn branch_of(list: Seq<char>, at: int) -> Option<(Seq<char>, Seq<char>)> {
    let pieces = split(list, seq![';']);
    if 0 <= at < pieces.len() {
        match split_once(pieces[at], seq!['=']) {
            Some((name, value)) => Some((trim(name), value)),
            None => None,
        }
    } else {
        None
    }
}

/// The concrete action behind a key that asks first: a `picker:` runs the chosen branch, a
/// `colorpicker:` presses the chosen palette entry by name, a `prompt:` fills its template's holes
/// with the trimmed text (refusing empty text and text that would open a step of its own).
/// Anything else is the action itself. None when the choice names nothing.
pub open spec fn choice(action: Seq<char>, option: Option<usize>, text: Option<Seq<char>>) -> Option<
    Seq<char>,
> {
    match strip_prefix(action, "picker:"@) {
        Some(list) => match option {
            Some(o) => match branch_of(list, o as int) {
                Some((_, value)) => Some(value),
                None => None,
            },
            None => None,
        },
        None => match strip_prefix(action, "colorpicker:"@) {
            Some(list) => match option {
                Some(o) => match branch_of(list, o as int) {
                    Some((name, _)) => Some("uia:"@ + name),
                    None => None,
                },
                None => None,
            },
            None => match strip_prefix(action, "prompt:"@) {
                Some(rest) => match split_once(rest, seq!['=']) {
                    Some((_, template)) => match text {
                        Some(t) => {
                            let t = trim(t);
                            if t.len() == 0 || contains(t, ">>"@) {
                                None
                            } else {
                                Some(replace_all(template, "{}"@, t))
                            }
                        },
                        None => None,
                    },
                    None => None,
                },
                None => Some(action),
            },
        },
    }
}

/// The `at`-th entry of a `;`-separated list of `Name=value`.
fn branch(list: &[char], at: usize) -> (r: Option<(Vec<char>, Vec<char>)>)
    ensures
        match r {
            Some((n, v)) => branch_of(list@, at as int) == Some((n@, v@)),
            None => branch_of(list@, at as int) is None,
        },
{
    let pieces = split_char(list, ';');
    assert(pieces@.map_values(|v: Vec<char>| v@) == split(list@, seq![';']));
    if at >= pieces.len() {
        return None;
    }
    assert(pieces@[at as int]@ == split(list@, seq![';'])[at as int]);
    match split_once_char(pieces[at].as_slice(), '=') {
        Some((name, value)) => Some((trim_exec(name.as_slice()), value)),
        None => None,
    }
}

/// The concrete action behind a key: the chosen branch of a `picker:` or `colorpicker:`, the
/// filled template of a `prompt:`, or the action itself.
pub fn choose_action(action: &str, option: Option<usize>, text: Option<&str>) -> (r: Option<String>)
    ensures
        match r {
            Some(s) => choice(
                action@,
                option,
                match text {
                    Some(t) => Some(t@),
                    None => None,
                },
            ) == Some(s@),
            None => choice(
                action@,
                option,
                match text {
                    Some(t) => Some(t@),
                    None => None,
                },
            ) is None,
        },
{
    let a = chars_of(action);
    if let Some(list) = strip_prefix_lit(a.as_slice(), "picker:") {
        let o = match option {
            Some(o) => o,
            None => {
                return None;
            },
        };
        return match branch(list.as_slice(), o) {
            Some((_, value)) => Some(string_of(value.as_slice())),
            None => None,
        };
    }
    if let Some(list) = strip_prefix_lit(a.as_slice(), "colorpicker:") {
        let o = match option {
            Some(o) => o,
            None => {
                return None;
            },
        };
        return match branch(list.as_slice(), o) {
            Some((name, _)) => {
                let head = chars_of("uia:");
                let full = concat_chars(head.as_slice(), name.as_slice());
                Some(string_of(full.as_slice()))
            },
            None => None,
        };
    }
    if let Some(rest) = strip_prefix_lit(a.as_slice(), "prompt:") {
        let template = match split_once_char(rest.as_slice(), '=') {
            Some((_, t)) => t,
            None => {
                return None;
            },
        };
        let t = match text {
            Some(t) => t,
            None => {
                return None;
            },
        };
        let tc = chars_of(t);
        let trimmed = trim_exec(tc.as_slice());
        if trimmed.len() == 0 || contains_lit(trimmed.as_slice(), ">>") {
            return None;
        }
        let hole = chars_of("{}");
        proof {
            reveal_strlit("{}");
        }
        let filled = replace_exec(template.as_slice(), hole.as_slice(), trimmed.as_slice());
        return Some(string_of(filled.as_slice()));
    }
    Some(string_of(a.as_slice()))
}

// ---------------------------------------------------------------------------------------------
// Steps
// ---------------------------------------------------------------------------------------------

/// A mouse button.
#[derive(Clone, Copy, PartialEq, Eq, Debug, Structural)]
pub enum Button {
    Left,
    Right,
}

/// A modifier held down around a key.
#[derive(Clone, Copy, PartialEq, Eq, Debug, Structural)]
pub enum Modifier {
    Control,
    Shift,
    Alt,
    Meta,
}

/// A key pressed by a hotkey.
#[derive(Clone, Copy, PartialEq, Eq, Debug, Structural)]
pub enum KeyCode {
    /// A function key, `F1` to `F12`.
    F(u8),
    Return,
    Tab,
    Escape,
    Space,
    Backspace,
    Delete,
    Home,
    End,
    Up,
    Down,
    Left,
    Right,
    VolumeUp,
    VolumeDown,
    VolumeMute,
    PlayPause,
    NextTrack,
    PrevTrack,
    /// A virtual key by number: the numpad's plus and minus, which do not depend on the layout.
    Other(u16),
    /// The key that types this character.
    Unicode(char),
}

/// One step of a macro.
pub enum Step {
    /// Save a screenshot.
    Screenshot,
    /// Pause this many milliseconds (at most two seconds).
    Wait(u64),
    /// Press an application control by its accessibility name.
    Uia(String),
    /// A request to OBS.
    Obs(String),
    /// Set the master volume to this percentage, as written.
    Volume(String),
    /// Turn the wheel this many lines (positive is down).
    Scroll(i32),
    /// Move the cursor by (dx, dy).
    Mouse(i32, i32),
    /// Press and hold a button, to drag.
    Hold(Button),
    /// Let go of a held button.
    Release(Button),
    /// Click a button.
    Click(Button),
    /// Turn the horizontal wheel.
    HScroll(i32),
    /// Zoom in (negative) or out (positive) with control and the wheel.
    Zoom(i32),
    /// Type this text.
    Type(String),
    /// Hand a web address or absolute path to its default handler.
    Open(String),
    /// Bring an app to the front, starting it when it is not running.
    Launch(String),
    /// Bring a running app to the front.
    Focus(String),
    /// Ask every window of an app to close.
    Kill(String),
    /// Press a key with these modifiers held.
    Hotkey(Vec<Modifier>, KeyCode),
}

/// A step by its contents.
pub enum StepView {
    Screenshot,
    Wait(u64),
    Uia(Seq<char>),
    Obs(Seq<char>),
    Volume(Seq<char>),
    Scroll(i32),
    Mouse(i32, i32),
    Hold(Button),
    Release(Button),
    Click(Button),
    HScroll(i32),
    Zoom(i32),
    Type(Seq<char>),
    Open(Seq<char>),
    Launch(Seq<char>),
    Focus(Seq<char>),
    Kill(Seq<char>),
    Hotkey(Seq<Modifier>, KeyCode),
}

impl View for Step {
    type V = StepView;

    open spec fn view(&self) -> StepView {
        match self {
            Step::Screenshot => StepView::Screenshot,
            Step::Wait(ms) => StepView::Wait(*ms),
            Step::Uia(s) => StepView::Uia(s@),
            Step::Obs(s) => StepView::Obs(s@),
            Step::Volume(s) => StepView::Volume(s@),
            Step::Scroll(n) => StepView::Scroll(*n),
            Step::Mouse(x, y) => StepView::Mouse(*x, *y),
            Step::Hold(b) => StepView::Hold(*b),
            Step::Release(b) => StepView::Release(*b),
            Step::Click(b) => StepView::Click(*b),
            Step::HScroll(n) => StepView::HScroll(*n),
            Step::Zoom(n) => StepView::Zoom(*n),
            Step::Type(s) => StepView::Type(s@),
            Step::Open(s) => StepView::Open(s@),
            Step::Launch(s) => StepView::Launch(s@),
            Step::Focus(s) => StepView::Focus(s@),
            Step::Kill(s) => StepView::Kill(s@),
            Step::Hotkey(m, k) => StepView::Hotkey(m@, *k),
        }
    }
}

/// A step or the reason it cannot run, by its contents.
pub open spec fn step_result(r: Result<Step, &'static str>) -> Result<StepView, Seq<char>> {
    match r {
        Ok(s) => Ok(s@),
        Err(e) => Err(e@),
    }
}

/// The modifier a token names, ignoring case.
pub open spec fn modifier_of(tok: Seq<char>) -> Result<Modifier, Seq<char>> {
    let t = unicode_lower(tok);
    if t == "ctrl"@ || t == "control"@ {
        Ok(Modifier::Control)
    } else if t == "shift"@ {
        Ok(Modifier::Shift)
    } else if t == "alt"@ {
        Ok(Modifier::Alt)
    } else if t == "win"@ || t == "meta"@ || t == "super"@ || t == "cmd"@ {
        Ok(Modifier::Meta)
    } else {
        Err("bad_modifier"@)
    }
}

/// A byte written in decimal, as `u8::from_str` reads it.
pub open spec fn parse_u8(s: Seq<char>) -> Option<u8> {
    match parse_u64(s) {
        Some(v) => if v <= 255 {
            Some(v as u8)
        } else {
            None
        },
        None => None,
    }
}

/// The key a lower-cased token names by its name.
pub open spec fn named_key(t: Seq<char>) -> Option<KeyCode> {
    if t == "enter"@ || t == "return"@ {
        Some(KeyCode::Return)
    } else if t == "tab"@ {
        Some(KeyCode::Tab)
    } else if t == "esc"@ || t == "escape"@ {
        Some(KeyCode::Escape)
    } else if t == "space"@ {
        Some(KeyCode::Space)
    } else if t == "backspace"@ {
        Some(KeyCode::Backspace)
    } else if t == "delete"@ || t == "del"@ {
        Some(KeyCode::Delete)
    } else if t == "home"@ {
        Some(KeyCode::Home)
    } else if t == "end"@ {
        Some(KeyCode::End)
    } else if t == "up"@ {
        Some(KeyCode::Up)
    } else if t == "down"@ {
        Some(KeyCode::Down)
    } else if t == "left"@ {
        Some(KeyCode::Left)
    } else if t == "right"@ {
        Some(KeyCode::Right)
    } else if t == "volup"@ {
        Some(KeyCode::VolumeUp)
    } else if t == "voldown"@ {
        Some(KeyCode::VolumeDown)
    } else if t == "volmute"@ {
        Some(KeyCode::VolumeMute)
    } else if t == "playpause"@ {
        Some(KeyCode::PlayPause)
    } else if t == "nexttrack"@ {
        Some(KeyCode::NextTrack)
    } else if t == "prevtrack"@ {
        Some(KeyCode::PrevTrack)
    } else if t == "add"@ {
        Some(KeyCode::Other(0x6B))
    } else if t == "subtract"@ {
        Some(KeyCode::Other(0x6D))
    } else if t.len() == 1 {
        Some(KeyCode::Unicode(t[0]))
    } else {
        None
    }
}

/// The key a token names, ignoring case: `f1` to `f12` (any other `f` and a number is refused),
/// then the named keys, then any single character.
pub open spec fn key_of(tok: Seq<char>) -> Result<KeyCode, Seq<char>> {
    let t = unicode_lower(tok);
    let f = if t.len() > 0 && t[0] == 'f' {
        parse_u8(t.drop_first())
    } else {
        None
    };
    match f {
        Some(n) => if 1 <= n <= 12 {
            Ok(KeyCode::F(n))
        } else {
            Err("bad_key"@)
        },
        None => match named_key(t) {
            Some(k) => Ok(k),
            None => Err("bad_key"@),
        },
    }
}

/// The trimmed, non-empty pieces.
pub open spec fn trimmed_parts(pieces: Seq<Seq<char>>) -> Seq<Seq<char>>
    decreases pieces.len(),
{
    if pieces.len() == 0 {
        Seq::empty()
    } else if trim(pieces.last()).len() > 0 {
        trimmed_parts(pieces.drop_last()).push(trim(pieces.last()))
    } else {
        trimmed_parts(pieces.drop_last())
    }
}

/// The modifiers the tokens name, or the first one that names none.
pub open spec fn modifiers_of(toks: Seq<Seq<char>>) -> Result<Seq<Modifier>, Seq<char>>
    decreases toks.len(),
{
    if toks.len() == 0 {
        Ok(Seq::empty())
    } else {
        match modifiers_of(toks.drop_last()) {
            Err(e) => Err(e),
            Ok(ms) => match modifier_of(toks.last()) {
                Ok(m) => Ok(ms.push(m)),
                Err(e) => Err(e),
            },
        }
    }
}

/// A shortcut like `ctrl+shift+p`: every `+`-separated token but the last is a modifier, the last
/// is the key.
pub open spec fn hotkey_of(combo: Seq<char>) -> Result<StepView, Seq<char>> {
    let parts = trimmed_parts(split(combo, seq!['+']));
    if parts.len() == 0 {
        Err("bad_keys"@)
    } else {
        match modifiers_of(parts.drop_last()) {
            Err(e) => Err(e),
            Ok(ms) => match key_of(parts.last()) {
                Ok(k) => Ok(StepView::Hotkey(ms, k)),
                Err(e) => Err(e),
            },
        }
    }
}

/// The button a trimmed word names: right when it says so, left otherwise.
pub open spec fn button_of(which: Seq<char>) -> Button {
    if trim(which) == "right"@ {
        Button::Right
    } else {
        Button::Left
    }
}

/// A whole number argument, or the error it gives.
pub open spec fn int_arg(s: Seq<char>, err: Seq<char>) -> Result<i32, Seq<char>> {
    match parse_i32(trim(s)) {
        Some(v) => Ok(v),
        None => Err(err),
    }
}

/// The step a trimmed piece of a macro is; a piece that is none of the known forms and no valid
/// shortcut is an `unknown_action`. `absolute` is whether the platform takes the trimmed
/// target of an `open:` for an absolute path; web addresses need no such word.
pub open spec fn step_of(step: Seq<char>, absolute: bool) -> Result<StepView, Seq<char>> {
    if step == "screenshot"@ {
        Ok(StepView::Screenshot)
    } else if let Some(ms) = strip_prefix(step, "wait:"@) {
        match parse_u64(trim(ms)) {
            Some(v) => Ok(StepView::Wait(if v < 2000 { v } else { 2000 })),
            None => Err("bad_wait"@),
        }
    } else if let Some(name) = strip_prefix(step, "uia:"@) {
        Ok(StepView::Uia(trim(name)))
    } else if let Some(cmd) = strip_prefix(step, "obs:"@) {
        Ok(StepView::Obs(cmd))
    } else if let Some(v) = strip_prefix(step, "vol:"@) {
        Ok(StepView::Volume(trim(v)))
    } else if let Some(n) = strip_prefix(step, "scroll:"@) {
        match int_arg(n, "bad_scroll"@) {
            Ok(v) => Ok(StepView::Scroll(v)),
            Err(e) => Err(e),
        }
    } else if let Some(rest) = strip_prefix(step, "mouse:"@) {
        match split_once(rest, seq![',']) {
            None => Err("bad_mouse"@),
            Some((dx, dy)) => match (int_arg(dx, "bad_mouse"@), int_arg(dy, "bad_mouse"@)) {
                (Ok(x), Ok(y)) => Ok(StepView::Mouse(x, y)),
                _ => Err("bad_mouse"@),
            },
        }
    } else if let Some(which) = strip_prefix(step, "hold:"@) {
        Ok(StepView::Hold(button_of(which)))
    } else if let Some(which) = strip_prefix(step, "release:"@) {
        Ok(StepView::Release(button_of(which)))
    } else if let Some(which) = strip_prefix(step, "click:"@) {
        Ok(StepView::Click(button_of(which)))
    } else if let Some(n) = strip_prefix(step, "hscroll:"@) {
        match int_arg(n, "bad_scroll"@) {
            Ok(v) => Ok(StepView::HScroll(v)),
            Err(e) => Err(e),
        }
    } else if let Some(n) = strip_prefix(step, "zoom:"@) {
        match int_arg(n, "bad_zoom"@) {
            Ok(v) => Ok(StepView::Zoom(v)),
            Err(e) => Err(e),
        }
    } else if let Some(text) = strip_prefix(step, "type:"@) {
        Ok(StepView::Type(text))
    } else if let Some(target) = strip_prefix(step, "open:"@) {
        let t = trim(target);
        if is_prefix("http://"@, t) || is_prefix("https://"@, t) || absolute {
            Ok(StepView::Open(t))
        } else {
            Err("blocked_action"@)
        }
    } else if let Some(id) = strip_prefix(step, "launch:"@) {
        Ok(StepView::Launch(trim(id)))
    } else if let Some(id) = strip_prefix(step, "focus:"@) {
        Ok(StepView::Focus(trim(id)))
    } else if let Some(id) = strip_prefix(step, "kill:"@) {
        Ok(StepView::Kill(trim(id)))
    } else if is_prefix("run:"@, step) {
        Err("blocked_action"@)
    } else {
        match hotkey_of(step) {
            Ok(h) => Ok(h),
            Err(_) => Err("unknown_action"@),
        }
    }
}

/// The modifier a token names, ignoring case.
pub fn parse_modifier(tok: &str) -> (r: Result<Modifier, &'static str>)
    ensures
        match r {
            Ok(m) => modifier_of(tok@) == Ok::<Modifier, Seq<char>>(m),
            Err(e) => modifier_of(tok@) == Err::<Modifier, Seq<char>>(e@),
        },
{
    let low = to_lowercase(tok);
    let c = chars_of(low.as_str());
    let t = c.as_slice();
    if is(t, "ctrl") || is(t, "control") {
        Ok(Modifier::Control)
    } else if is(t, "shift") {
        Ok(Modifier::Shift)
    } else if is(t, "alt") {
        Ok(Modifier::Alt)
    } else if is(t, "win") || is(t, "meta") || is(t, "super") || is(t, "cmd") {
        Ok(Modifier::Meta)
    } else {
        Err("bad_modifier")
    }
}

/// The key a lower-cased token names by its name.
fn named_key_exec(t: &[char]) -> (r: Option<KeyCode>)
    ensures
        r == named_key(t@),
{
    if is(t, "enter") || is(t, "return") {
        Some(KeyCode::Return)
    } else if is(t, "tab") {
        Some(KeyCode::Tab)
    } else if is(t, "esc") || is(t, "escape") {
        Some(KeyCode::Escape)
    } else if is(t, "space") {
        Some(KeyCode::Space)
    } else if is(t, "backspace") {
        Some(KeyCode::Backspace)
    } else if is(t, "delete") || is(t, "del") {
        Some(KeyCode::Delete)
    } else if is(t, "home") {
        Some(KeyCode::Home)
    } else if is(t, "end") {
        Some(KeyCode::End)
    } else if is(t, "up") {
        Some(KeyCode::Up)
    } else if is(t, "down") {
        Some(KeyCode::Down)
    } else if is(t, "left") {
        Some(KeyCode::Left)
    } else if is(t, "right") {
        Some(KeyCode::Right)
    } else if is(t, "volup") {
        Some(KeyCode::VolumeUp)
    } else if is(t, "voldown") {
        Some(KeyCode::VolumeDown)
    } else if is(t, "volmute") {
        Some(KeyCode::VolumeMute)
    } else if is(t, "playpause") {
        Some(KeyCode::PlayPause)
    } else if is(t, "nexttrack") {
        Some(KeyCode::NextTrack)
    } else if is(t, "prevtrack") {
        Some(KeyCode::PrevTrack)
    } else if is(t, "add") {
        Some(KeyCode::Other(0x6B))
    } else if is(t, "subtract") {
        Some(KeyCode::Other(0x6D))
    } else if t.len() == 1 {
        Some(KeyCode::Unicode(t[0]))
    } else {
        None
    }
}

/// The key a token names, ignoring case.
pub fn parse_key(tok: &str) -> (r: Result<KeyCode, &'static str>)
    ensures
        match r {
            Ok(k) => key_of(tok@) == Ok::<KeyCode, Seq<char>>(k),
            Err(e) => key_of(tok@) == Err::<KeyCode, Seq<char>>(e@),
        },
{
    let low = to_lowercase(tok);
    let c = chars_of(low.as_str());
    let t = c.as_slice();
    if t.len() > 0 && t[0] == 'f' {
        let rest = crate::text::slice_chars(t, 1, t.len());
        assert(rest@ == t@.drop_first());
        match parse_u64_exec(rest.as_slice()) {
            Some(v) => {
                if v <= 255 {
                    let n = v as u8;
                    return if 1 <= n && n <= 12 {
                        Ok(KeyCode::F(n))
                    } else {
                        Err("bad_key")
                    };
                }
            },
            None => {},
        }
    }
    match named_key_exec(t) {
        Some(k) => Ok(k),
        None => Err("bad_key"),
    }
}

/// A shortcut like `ctrl+shift+p`.
fn hotkey(combo: &[char]) -> (r: Result<Step, &'static str>)
    ensures
        step_result(r) == hotkey_of(combo@),
{
    let pieces = split_char(combo, '+');
    let ghost pv = pieces@.map_values(|v: Vec<char>| v@);
    assert(pv == split(combo@, seq!['+']));
    let mut parts: Vec<Vec<char>> = Vec::new();
    let mut i: usize = 0;
    while i < pieces.len()
        invariant
            i <= pieces@.len(),
            pv == pieces@.map_values(|v: Vec<char>| v@),
            parts@.map_values(|v: Vec<char>| v@) == trimmed_parts(pv.subrange(0, i as int)),
        decreases pieces@.len() - i,
    {
        proof {
            let pre = pv.subrange(0, i + 1);
            assert(pre.drop_last() =~= pv.subrange(0, i as int));
            assert(pre.last() == pieces@[i as int]@);
        }
        let t = trim_exec(pieces[i].as_slice());
        if t.len() > 0 {
            let ghost before = parts@.map_values(|v: Vec<char>| v@);
            parts.push(t);
            assert(parts@.map_values(|v: Vec<char>| v@) =~= before.push(trim(pieces@[i as int]@)));
        }
        i = i + 1;
    }
    assert(pv.subrange(0, pv.len() as int) =~= pv);
    let ghost parts_v = parts@.map_values(|v: Vec<char>| v@);
    if parts.len() == 0 {
        return Err("bad_keys");
    }
    let last = parts.len() - 1;
    let mut mods: Vec<Modifier> = Vec::new();
    let mut j: usize = 0;
    while j < last
        invariant
            j <= last,
            last == parts@.len() - 1,
            parts_v == parts@.map_values(|v: Vec<char>| v@),
            parts_v == trimmed_parts(split(combo@, seq!['+'])),
            modifiers_of(parts_v.subrange(0, j as int)) == Ok::<Seq<Modifier>, Seq<char>>(mods@),
        decreases last - j,
    {
        proof {
            let pre = parts_v.subrange(0, j + 1);
            assert(pre.drop_last() =~= parts_v.subrange(0, j as int));
            assert(pre.last() == parts@[j as int]@);
        }
        let tok = string_of(parts[j].as_slice());
        match parse_modifier(tok.as_str()) {
            Ok(m) => {
                mods.push(m);
            },
            Err(e) => {
                proof {
                    assert(parts_v.drop_last().subrange(0, j + 1) =~= parts_v.subrange(0, j + 1));
                    assert(modifiers_of(parts_v.subrange(0, j + 1)) == Err::<Seq<Modifier>, Seq<
                        char,
                    >>(e@));
                    lemma_modifiers_err(parts_v.drop_last(), j as int + 1);
                }
                return Err(e);
            },
        }
        j = j + 1;
    }
    assert(parts_v.subrange(0, last as int) =~= parts_v.drop_last());
    assert(parts_v.last() == parts@[last as int]@);
    let tok = string_of(parts[last].as_slice());
    match parse_key(tok.as_str()) {
        Ok(k) => Ok(Step::Hotkey(mods, k)),
        Err(e) => Err(e),
    }
}

/// A failure among the first modifiers is the failure of them all.
proof fn lemma_modifiers_err(toks: Seq<Seq<char>>, n: int)
    requires
        0 <= n <= toks.len(),
        modifiers_of(toks.subrange(0, n)) is Err,
    ensures
        modifiers_of(toks) == modifiers_of(toks.subrange(0, n)),
    decreases toks.len() - n,
{
    if n < toks.len() {
        let nxt = toks.subrange(0, n + 1);
        assert(nxt.drop_last() =~= toks.subrange(0, n));
        lemma_modifiers_err(toks, n + 1);
    } else {
        assert(toks.subrange(0, n) =~= toks);
    }
}

/// A whole-number argument.
fn int_arg_exec(s: &[char], err: &'static str) -> (r: Result<i32, &'static str>)
    ensures
        match r {
            Ok(v) => int_arg(s@, err@) == Ok::<i32, Seq<char>>(v),
            Err(e) => int_arg(s@, err@) == Err::<i32, Seq<char>>(e@),
        },
{
    let t = trim_exec(s);
    match parse_i32_exec(t.as_slice()) {
        Some(v) => Ok(v),
        None => Err(err),
    }
}

/// The button a word names.
fn button_exec(which: &[char]) -> (r: Button)
    ensures
        r == button_of(which@),
{
    let t = trim_exec(which);
    if is(t.as_slice(), "right") {
        Button::Right
    } else {
        Button::Left
    }
}

/// The step a trimmed piece of a macro is, given whether the platform takes the target of an
/// `open:` for an absolute path.
pub fn parse_step_with(step: &str, absolute: bool) -> (r: Result<Step, &'static str>)
    ensures
        step_result(r) == step_of(step@, absolute),
{
    let c = chars_of(step);
    let s = c.as_slice();
    if is(s, "screenshot") {
        return Ok(Step::Screenshot);
    }
    if let Some(ms) = strip_prefix_lit(s, "wait:") {
        let t = trim_exec(ms.as_slice());
        return match parse_u64_exec(t.as_slice()) {
            Some(v) => Ok(Step::Wait(if v < 2000 { v } else { 2000 })),
            None => Err("bad_wait"),
        };
    }
    if let Some(name) = strip_prefix_lit(s, "uia:") {
        let t = trim_exec(name.as_slice());
        return Ok(Step::Uia(string_of(t.as_slice())));
    }
    if let Some(cmd) = strip_prefix_lit(s, "obs:") {
        return Ok(Step::Obs(string_of(cmd.as_slice())));
    }
    if let Some(v) = strip_prefix_lit(s, "vol:") {
        let t = trim_exec(v.as_slice());
        return Ok(Step::Volume(string_of(t.as_slice())));
    }
    if let Some(n) = strip_prefix_lit(s, "scroll:") {
        return match int_arg_exec(n.as_slice(), "bad_scroll") {
            Ok(v) => Ok(Step::Scroll(v)),
            Err(e) => Err(e),
        };
    }
    if let Some(rest) = strip_prefix_lit(s, "mouse:") {
        return match split_once_char(rest.as_slice(), ',') {
            None => Err("bad_mouse"),
            Some((dx, dy)) => match (
                int_arg_exec(dx.as_slice(), "bad_mouse"),
                int_arg_exec(dy.as_slice(), "bad_mouse"),
            ) {
                (Ok(x), Ok(y)) => Ok(Step::Mouse(x, y)),
                _ => Err("bad_mouse"),
            },
        };
    }
    if let Some(which) = strip_prefix_lit(s, "hold:") {
        return Ok(Step::Hold(button_exec(which.as_slice())));
    }
    if let Some(which) = strip_prefix_lit(s, "release:") {
        return Ok(Step::Release(button_exec(which.as_slice())));
    }
    if let Some(which) = strip_prefix_lit(s, "click:") {
        return Ok(Step::Click(button_exec(which.as_slice())));
    }
    if let Some(n) = strip_prefix_lit(s, "hscroll:") {
        return match int_arg_exec(n.as_slice(), "bad_scroll") {
            Ok(v) => Ok(Step::HScroll(v)),
            Err(e) => Err(e),
        };
    }
    if let Some(n) = strip_prefix_lit(s, "zoom:") {
        return match int_arg_exec(n.as_slice(), "bad_zoom") {
            Ok(v) => Ok(Step::Zoom(v)),
            Err(e) => Err(e),
        };
    }
    if let Some(text) = strip_prefix_lit(s, "type:") {
        return Ok(Step::Type(string_of(text.as_slice())));
    }
    if let Some(target) = strip_prefix_lit(s, "open:") {
        let t = trim_exec(target.as_slice());
        let web = starts_with_lit(t.as_slice(), "http://") || starts_with_lit(t.as_slice(), "https://");
        return if web || absolute {
            Ok(Step::Open(string_of(t.as_slice())))
        } else {
            Err("blocked_action")
        };
    }
    if let Some(id) = strip_prefix_lit(s, "launch:") {
        let t = trim_exec(id.as_slice());
        return Ok(Step::Launch(string_of(t.as_slice())));
    }
    if let Some(id) = strip_prefix_lit(s, "focus:") {
        let t = trim_exec(id.as_slice());
        return Ok(Step::Focus(string_of(t.as_slice())));
    }
    if let Some(id) = strip_prefix_lit(s, "kill:") {
        let t = trim_exec(id.as_slice());
        return Ok(Step::Kill(string_of(t.as_slice())));
    }
    if starts_with_lit(s, "run:") {
        return Err("blocked_action");
    }
    match hotkey(s) {
        Ok(h) => Ok(h),
        Err(_) => Err("unknown_action"),
    }
}

/// Whether a path starts the way an absolute path must on some platform: with a separator (`/`
/// on Unix; `\\` for the verbatim, UNC and device prefixes on Windows) or with a drive letter and
/// its colon.
pub open spec fn rooted(t: Seq<char>) -> bool {
    (t.len() > 0 && (t[0] == '/' || t[0] == '\\')) || (t.len() >= 2 && t[1] == ':')
}

/// `std::path::Path::is_absolute`: whether this platform takes the text for an absolute path. On
/// Unix a path is absolute when it starts with `/`; on Windows it needs a prefix (a drive like
/// `C:`, or one starting `\\`) and a root. Claimed only what holds on every platform: a path that
/// starts neither with a separator nor with a drive and colon is never absolute. Which rooted
/// paths are absolute is left to the platform.
#[verifier::external_body]
fn path_is_absolute(s: &str) -> (r: bool)
    ensures
        !rooted(s@) ==> !r,
{
    std::path::Path::new(s).is_absolute()
}

/// The results a trimmed piece of a macro may parse to: the step with an `open:` target taken as
/// not absolute, or, only where that target is rooted and the platform takes it for absolute,
/// the step with it taken as absolute.
pub open spec fn parsed_as(step: Seq<char>, r: Result<StepView, Seq<char>>) -> bool {
    r == step_of(step, false) || (r == step_of(step, true) && match strip_prefix(step, "open:"@) {
        Some(t) => rooted(trim(t)),
        None => false,
    })
}

/// The step a trimmed piece of a macro is. The platform decides which rooted `open:` targets are
/// absolute paths; any other target that is not a web address is refused with `blocked_action`.
pub fn parse_step(step: &str) -> (r: Result<Step, &'static str>)
    ensures
        parsed_as(step@, step_result(r)),
{
    let c = chars_of(step);
    let absolute = match strip_prefix_lit(c.as_slice(), "open:") {
        Some(target) => {
            let t = trim_exec(target.as_slice());
            let ts = string_of(t.as_slice());
            path_is_absolute(ts.as_str())
        },
        None => false,
    };
    parse_step_with(step, absolute)
}

/// The steps a whole action runs, in order, each parsed or refused. An action that starts with
/// `uia:` is a chain of controls pressed by name (a menu, then an entry in it); any other is a
/// chain of steps. Steps run one after the other, and the first refused one stops the chain.
pub fn plan_action(action: &str) -> (r: Vec<Result<Step, &'static str>>)
    ensures
        match strip_prefix(action@, "uia:"@) {
            Some(chain) => r@.len() == split(chain, ">>"@).len() && forall|i: int|
                0 <= i < r@.len() ==> step_result(#[trigger] r@[i]) == Ok::<StepView, Seq<char>>(
                    StepView::Uia(trim(split(chain, ">>"@)[i])),
                ),
            None => r@.len() == split(action@, ">>"@).len() && forall|i: int|
                0 <= i < r@.len() ==> parsed_as(
                    trim(split(action@, ">>"@)[i]),
                    step_result(#[trigger] r@[i]),
                ),
        },
{
    proof {
        reveal_strlit(">>");
    }
    let c = chars_of(action);
    let mut out: Vec<Result<Step, &'static str>> = Vec::new();
    match strip_prefix_lit(c.as_slice(), "uia:") {
        Some(chain) => {
            let pieces = split_lit(chain.as_slice(), ">>");
            let ghost pv = pieces@.map_values(|v: Vec<char>| v@);
            let mut i: usize = 0;
            while i < pieces.len()
                invariant
                    i <= pieces@.len(),
                    pv == pieces@.map_values(|v: Vec<char>| v@),
                    pv == split(chain@, ">>"@),
                    out@.len() == i,
                    forall|k: int|
                        0 <= k < i ==> step_result(#[trigger] out@[k]) == Ok::<StepView, Seq<char>>(
                            StepView::Uia(trim(pv[k])),
                        ),
                decreases pieces@.len() - i,
            {
                let t = trim_exec(pieces[i].as_slice());
                out.push(Ok(Step::Uia(string_of(t.as_slice()))));
                i = i + 1;
            }
        },
        None => {
            let pieces = split_lit(c.as_slice(), ">>");
            let ghost pv = pieces@.map_values(|v: Vec<char>| v@);
            let mut i: usize = 0;
            while i < pieces.len()
                invariant
                    i <= pieces@.len(),
                    pv == pieces@.map_values(|v: Vec<char>| v@),
                    pv == split(action@, ">>"@),
                    out@.len() == i,
                    forall|k: int|
                        0 <= k < i ==> parsed_as(trim(pv[k]), step_result(#[trigger] out@[k])),
                decreases pieces@.len() - i,
            {
                let t = trim_exec(pieces[i].as_slice());
                let ts = string_of(t.as_slice());
                out.push(parse_step(ts.as_str()));
                i = i + 1;
            }
        },
    }
    out
}

/// A prefix whose first character differs from a text's is not a prefix of it.
proof fn lemma_first_char_rules_out(s: Seq<char>, q: Seq<char>)
    requires
        s.len() > 0,
        q.len() > 0,
        s[0] != q[0],
    ensures
        !is_prefix(q, s),
        strip_prefix(s, q) is None,
        s != q,
{
    if is_prefix(q, s) {
        assert(s.subrange(0, q.len() as int)[0] == s[0]);
    }
}

/// `p + rest` starts with `p`, and stripping `p` leaves `rest`.
proof fn lemma_strip_own_prefix(p: Seq<char>, rest: Seq<char>)
    ensures
        is_prefix(p, p + rest),
        strip_prefix(p + rest, p) == Some(rest),
{
    assert((p + rest).subrange(0, p.len() as int) =~= p);
    assert((p + rest).subrange(p.len() as int, (p + rest).len() as int) =~= rest);
}

/// A step starting with `l`, `f` or `k` is none of the forms the parser tries before the app
/// steps, and no `run:`.
proof fn lemma_no_earlier_form(s: Seq<char>)
    requires
        s.len() > 0,
        s[0] == 'l' || s[0] == 'f' || s[0] == 'k',
    ensures
        s != "screenshot"@,
        !is_prefix("run:"@, s),
        strip_prefix(s, "wait:"@) is None,
        strip_prefix(s, "uia:"@) is None,
        strip_prefix(s, "obs:"@) is None,
        strip_prefix(s, "vol:"@) is None,
        strip_prefix(s, "scroll:"@) is None,
        strip_prefix(s, "mouse:"@) is None,
        strip_prefix(s, "hold:"@) is None,
        strip_prefix(s, "release:"@) is None,
        strip_prefix(s, "click:"@) is None,
        strip_prefix(s, "hscroll:"@) is None,
        strip_prefix(s, "zoom:"@) is None,
        strip_prefix(s, "type:"@) is None,
        strip_prefix(s, "open:"@) is None,
{
    reveal_strlit("screenshot");
    reveal_strlit("wait:");
    reveal_strlit("uia:");
    reveal_strlit("obs:");
    reveal_strlit("vol:");
    reveal_strlit("scroll:");
    reveal_strlit("mouse:");
    reveal_strlit("hold:");
    reveal_strlit("release:");
    reveal_strlit("click:");
    reveal_strlit("hscroll:");
    reveal_strlit("zoom:");
    reveal_strlit("type:");
    reveal_strlit("open:");
    reveal_strlit("launch:");
    reveal_strlit("focus:");
    reveal_strlit("kill:");
    reveal_strlit("run:");
    lemma_first_char_rules_out(s, "screenshot"@);
    lemma_first_char_rules_out(s, "wait:"@);
    lemma_first_char_rules_out(s, "uia:"@);
    lemma_first_char_rules_out(s, "obs:"@);
    lemma_first_char_rules_out(s, "vol:"@);
    lemma_first_char_rules_out(s, "scroll:"@);
    lemma_first_char_rules_out(s, "mouse:"@);
    lemma_first_char_rules_out(s, "hold:"@);
    lemma_first_char_rules_out(s, "release:"@);
    lemma_first_char_rules_out(s, "click:"@);
    lemma_first_char_rules_out(s, "hscroll:"@);
    lemma_first_char_rules_out(s, "zoom:"@);
    lemma_first_char_rules_out(s, "type:"@);
    lemma_first_char_rules_out(s, "open:"@);
    lemma_first_char_rules_out(s, "run:"@);
}

/// The app steps name what they do with the app: `launch:<id>` starts or fronts it,
/// `focus:<id>` only fronts it, `kill:<id>` closes it, always with the id trimmed; the three are
/// never confused, whatever the id and whatever the platform says of paths.
pub proof fn law_app_steps_keep_their_kind(id: Seq<char>, absolute: bool)
    ensures
        step_of("launch:"@ + id, absolute) == Ok::<StepView, Seq<char>>(StepView::Launch(trim(id))),
        step_of("focus:"@ + id, absolute) == Ok::<StepView, Seq<char>>(StepView::Focus(trim(id))),
        step_of("kill:"@ + id, absolute) == Ok::<StepView, Seq<char>>(StepView::Kill(trim(id))),
{
    reveal_strlit("launch:");
    reveal_strlit("focus:");
    reveal_strlit("kill:");
    let l = "launch:"@ + id;
    let f = "focus:"@ + id;
    let k = "kill:"@ + id;
    assert(l[0] == 'l' && f[0] == 'f' && k[0] == 'k');
    lemma_no_earlier_form(l);
    lemma_no_earlier_form(f);
    lemma_no_earlier_form(k);
    lemma_strip_own_prefix("launch:"@, id);
    lemma_strip_own_prefix("focus:"@, id);
    lemma_strip_own_prefix("kill:"@, id);
    lemma_first_char_rules_out(f, "launch:"@);
    lemma_first_char_rules_out(k, "launch:"@);
    lemma_first_char_rules_out(k, "focus:"@);
}

} // verus!
