//! KiBoard host logic: the deck model and its pagination, the macro language, auto-mode profile
//! resolution, the window switcher's ordering, the app catalogue's identity rules, OBS state,
//! pairing, and the small text and number codecs all of them share.
pub mod text;
pub mod config;
pub mod deck;
pub mod validation;
pub mod windows;
pub mod apps;
pub mod shell;
pub mod actions;
pub mod state;
pub mod platform;
pub mod i18n;
pub mod profiles;
pub mod faces;
pub mod layout;
pub mod session;
pub mod obs;
pub mod pairing;
pub mod host;
pub mod seeding;
pub mod protocol;
pub mod connection;
pub mod pixels;

use vstd::prelude::*;

verus! {

} // verus!
