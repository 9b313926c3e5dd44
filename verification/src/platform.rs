//! The desktop surface on targets without a desktop backend: nothing to enumerate, nothing to
//! press, every action answers that the platform does not support it. A host built here still
//! runs its decks, its pairing and its protocol; only what needs the desktop is missing.
use vstd::prelude::*;

use crate::apps::App;

verus! {

/// An executable's icon as base64 PNG: none here.
pub fn extract_icon_b64(path: &str) -> (r: String)
    ensures
        r@.len() == 0,
{
    String::new()
}

/// The shell inside a window: none can be told here.
pub fn detect_shell_kind(root_pid: u32, title: &str) -> (r: Option<&'static str>)
    ensures
        r is None,
{
    None
}

/// The actions of a profile whose control is disabled in the app in front: none can be seen here.
pub fn uia_disabled_actions(buttons: &[(usize, String, String, String, bool, bool)]) -> (r: Vec<
    String,
>)
    ensures
        r@.len() == 0,
{
    Vec::new()
}

/// Presses an application control by name: not supported here.
pub fn invoke_uia(name: &str) -> (r: Result<(), &'static str>)
    ensures
        r matches Err(e) && e@ == "unsupported_platform"@,
{
    Err("unsupported_platform")
}

/// The master volume and whether it is muted: unknown here.
pub fn system_volume() -> (r: Option<(u8, bool)>)
    ensures
        r is None,
{
    None
}

/// An executable's icon, cached: none here.
pub fn icon_cached(path: &str) -> (r: String)
    ensures
        r@.len() == 0,
{
    String::new()
}

/// Brings a window to the front: nothing to bring here.
pub fn focus_window(id: isize) {
}

/// Whether a process of one of these names runs: none can be seen here.
pub fn process_running(names: &[&str]) -> (r: bool)
    ensures
        !r,
{
    false
}

/// Saves a screenshot: not supported here.
pub fn take_screenshot() -> (r: Result<(), &'static str>)
    ensures
        r matches Err(e) && e@ == "unsupported_platform"@,
{
    Err("unsupported_platform")
}

/// The installed apps: none can be listed here.
pub fn catalogue() -> (r: Vec<App>)
    ensures
        r@.len() == 0,
{
    Vec::new()
}

/// Starts an app: not supported here.
pub fn activate(id: &str) -> (r: Result<(), &'static str>)
    ensures
        r matches Err(e) && e@ == "unsupported_platform"@,
{
    Err("unsupported_platform")
}

/// A packaged app's tile as base64 PNG: none here.
pub fn shell_tile_b64(id: &str) -> (r: String)
    ensures
        r@.len() == 0,
{
    String::new()
}

} // verus!
