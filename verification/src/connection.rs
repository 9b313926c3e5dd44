//! One phone's connection, as a state machine: what the host does after each thing that happens
//! on it. The socket, the timers and the rendering are the caller's; this says which of them to
//! use, in which order.
//!
//! A connection brakes guessing: every failed `hello` or `pair_confirm` costs a pause and the
//! fifth closes the socket. An authenticated session is kept alive by pings, answered with the
//! pages either side of every layout it is sent, sent the auto layout when it authenticates and
//! whenever the app in front changes (auto mode) or the decks are saved or previewed (manual
//! mode). A drag still held when the connection ends is released.
use vstd::prelude::*;

use crate::text::{chars_of, contains, contains_lit};

verus! {

/// How many failed authentication attempts close a connection.
pub const MAX_FAILED_AUTH: u32 = 5;

/// What the connection remembers between events.
#[derive(Clone, Copy, PartialEq, Eq, Debug, Structural)]
pub struct ConnState {
    /// The session has authenticated.
    pub authed: bool,
    /// The session is in manual mode.
    pub manual: bool,
    /// The phone is holding the left button down (a trackpad drag).
    pub dragging: bool,
    /// Failed authentication attempts so far.
    pub failed_auth: u32,
}

/// Something that happened on the connection.
#[derive(Clone, Copy, PartialEq, Eq, Debug, Structural)]
pub enum ConnEvent {
    /// The keep-alive timer fired.
    Tick,
    /// A text message was answered. The session's flags as the answer left them, whether the
    /// message tried to authenticate, and whether the reply is a layout.
    Answered { authed: bool, manual: bool, dragging: bool, auth_attempt: bool, layout_reply: bool },
    /// The app in front changed, and with it the auto layout.
    LayoutChanged,
    /// The decks were saved, or a preview of them started or ended.
    DecksChanged,
    /// The connection is over: the phone left, or a send failed, or it was closed.
    Ended,
}

/// What to do, in order.
#[derive(Clone, Copy, PartialEq, Eq, Debug, Structural)]
pub enum ConnAction {
    /// Send a keep-alive ping.
    Ping,
    /// Wait half a second before going on: the brake on guessing.
    Pause,
    /// Send the reply to the message.
    Reply,
    /// Send the pages either side of the one the session is on.
    Preloads,
    /// Count one more connected phone.
    CountClient,
    /// Send the current auto layout, if there is one, and then its neighbouring pages.
    AutoLayout,
    /// Send the layout the session is on now, if there is one, and then its neighbouring pages.
    CurrentLayout,
    /// Close the connection.
    Close,
    /// Release the left button a drag left held.
    ReleaseDrag,
    /// Count one connected phone less.
    UncountClient,
}

/// One more failed attempt, stopping at the type's end.
pub open spec fn one_more(n: u32) -> u32 {
    if n == u32::MAX {
        u32::MAX
    } else {
        (n + 1) as u32
    }
}

/// What follows the reply to a message: its neighbouring pages when the reply is a layout, and
/// for a session that has just authenticated, the count and the auto layout.
pub open spec fn after_reply(was_authed: bool, authed: bool, layout_reply: bool) -> Seq<ConnAction> {
    (if layout_reply {
        seq![ConnAction::Preloads]
    } else {
        Seq::empty()
    }) + (if !was_authed && authed {
        seq![ConnAction::CountClient, ConnAction::AutoLayout]
    } else {
        Seq::empty()
    })
}

/// The next state of a connection and what to do, for each event.
pub open spec fn conn_next(c: ConnState, ev: ConnEvent) -> (ConnState, Seq<ConnAction>) {
    match ev {
        ConnEvent::Tick => (c, if c.authed {
            seq![ConnAction::Ping]
        } else {
            Seq::empty()
        }),
        ConnEvent::Answered { authed, manual, dragging, auth_attempt, layout_reply } => {
            let c1 = ConnState { authed, manual, dragging, ..c };
            if !authed && auth_attempt {
                let n = one_more(c.failed_auth);
                if n >= MAX_FAILED_AUTH {
                    (
                        ConnState { failed_auth: n, ..c1 },
                        seq![ConnAction::Pause, ConnAction::Reply, ConnAction::Close],
                    )
                } else {
                    (
                        ConnState { failed_auth: n, ..c1 },
                        seq![ConnAction::Pause, ConnAction::Reply] + after_reply(
                            c.authed,
                            authed,
                            layout_reply,
                        ),
                    )
                }
            } else {
                (c1, seq![ConnAction::Reply] + after_reply(c.authed, authed, layout_reply))
            }
        },
        ConnEvent::LayoutChanged => (c, if c.authed && !c.manual {
            seq![ConnAction::CurrentLayout]
        } else {
            Seq::empty()
        }),
        ConnEvent::DecksChanged => (c, if c.authed && c.manual {
            seq![ConnAction::CurrentLayout]
        } else {
            Seq::empty()
        }),
        ConnEvent::Ended => (c, (if c.dragging {
            seq![ConnAction::ReleaseDrag]
        } else {
            Seq::empty()
        }) + (if c.authed {
            seq![ConnAction::UncountClient]
        } else {
            Seq::empty()
        })),
    }
}

/// A fresh connection: not authenticated, in auto mode, nothing held, no failed attempt.
pub fn conn_start() -> (c: ConnState)
    ensures
        !c.authed && !c.manual && !c.dragging && c.failed_auth == 0,
{
    ConnState { authed: false, manual: false, dragging: false, failed_auth: 0 }
}

/// What the connection does after `ev`, and the state it is left in.
pub fn conn_step(c: &ConnState, ev: ConnEvent) -> (r: (ConnState, Vec<ConnAction>))
    ensures
        (r.0, r.1@) == conn_next(*c, ev),
{
    let mut acts: Vec<ConnAction> = Vec::new();
    match ev {
        ConnEvent::Tick => {
            if c.authed {
                acts.push(ConnAction::Ping);
            }
            assert(acts@ =~= conn_next(*c, ev).1);
            (*c, acts)
        },
        ConnEvent::Answered { authed, manual, dragging, auth_attempt, layout_reply } => {
            let mut next = ConnState { authed, manual, dragging, failed_auth: c.failed_auth };
            if !authed && auth_attempt {
                let n: u32 = if c.failed_auth == u32::MAX {
                    u32::MAX
                } else {
                    c.failed_auth + 1
                };
                next.failed_auth = n;
                acts.push(ConnAction::Pause);
                acts.push(ConnAction::Reply);
                if n >= MAX_FAILED_AUTH {
                    acts.push(ConnAction::Close);
                    assert(acts@ =~= conn_next(*c, ev).1);
                    return (next, acts);
                }
            } else {
                acts.push(ConnAction::Reply);
            }
            let ghost head = acts@;
            if layout_reply {
                acts.push(ConnAction::Preloads);
            }
            if !c.authed && authed {
                acts.push(ConnAction::CountClient);
                acts.push(ConnAction::AutoLayout);
            }
            assert(acts@ =~= head + after_reply(c.authed, authed, layout_reply));
            (next, acts)
        },
        ConnEvent::LayoutChanged => {
            if c.authed && !c.manual {
                acts.push(ConnAction::CurrentLayout);
            }
            assert(acts@ =~= conn_next(*c, ev).1);
            (*c, acts)
        },
        ConnEvent::DecksChanged => {
            if c.authed && c.manual {
                acts.push(ConnAction::CurrentLayout);
            }
            assert(acts@ =~= conn_next(*c, ev).1);
            (*c, acts)
        },
        ConnEvent::Ended => {
            if c.dragging {
                acts.push(ConnAction::ReleaseDrag);
            }
            if c.authed {
                acts.push(ConnAction::UncountClient);
            }
            assert(acts@ =~= conn_next(*c, ev).1);
            (*c, acts)
        },
    }
}

/// Whether a message's text tries to authenticate: it names a `hello` or a `pair_confirm`.
pub fn is_auth_attempt(txt: &str) -> (r: bool)
    ensures
        r == (contains(txt@, "\"hello\""@) || contains(txt@, "\"pair_confirm\""@)),
{
    let c = chars_of(txt);
    contains_lit(c.as_slice(), "\"hello\"") || contains_lit(c.as_slice(), "\"pair_confirm\"")
}

/// Whether a reply is a layout, which lands the session somewhere with new neighbouring pages.
pub fn is_layout_reply(reply: &str) -> (r: bool)
    ensures
        r == contains(reply@, "\"type\":\"layout\""@),
{
    let c = chars_of(reply);
    contains_lit(c.as_slice(), "\"type\":\"layout\"")
}

/// Guessing is braked: every failed authentication attempt costs a pause before the answer, and
/// the fifth closes the connection right after answering it.
pub proof fn law_the_fifth_failed_login_closes(c: ConnState, manual: bool, dragging: bool, layout_reply: bool)
    requires
        c.failed_auth < MAX_FAILED_AUTH,
    ensures
        ({
            let (n, acts) = conn_next(
                c,
                ConnEvent::Answered { authed: false, manual, dragging, auth_attempt: true, layout_reply },
            );
            &&& n.failed_auth == c.failed_auth + 1
            &&& acts[0] == ConnAction::Pause
            &&& (acts.contains(ConnAction::Close) <==> c.failed_auth + 1 == MAX_FAILED_AUTH)
            &&& !acts.contains(ConnAction::CountClient)
        }),
{
    let (n, acts) = conn_next(
        c,
        ConnEvent::Answered { authed: false, manual, dragging, auth_attempt: true, layout_reply },
    );
    if c.failed_auth + 1 == MAX_FAILED_AUTH {
        assert(acts[2] == ConnAction::Close);
    } else {
        assert(!acts.contains(ConnAction::Close)) by {
            if acts.contains(ConnAction::Close) {
                let i = choose|i: int| 0 <= i < acts.len() && acts[i] == ConnAction::Close;
                assert(i >= 2);
            }
        }
    }
    assert(!acts.contains(ConnAction::CountClient)) by {
        if acts.contains(ConnAction::CountClient) {
            let i = choose|i: int| 0 <= i < acts.len() && acts[i] == ConnAction::CountClient;
            assert(i >= 2);
        }
    }
}

/// Layout changes reach exactly the authenticated sessions that show them: a new auto layout the
/// sessions in auto mode, saved or previewed decks the sessions in manual mode; nothing reaches a
/// session that has not authenticated.
pub proof fn law_pushes_reach_only_the_sessions_that_show_them(c: ConnState)
    ensures
        conn_next(c, ConnEvent::LayoutChanged).1.len() > 0 <==> c.authed && !c.manual,
        conn_next(c, ConnEvent::DecksChanged).1.len() > 0 <==> c.authed && c.manual,
        !c.authed ==> conn_next(c, ConnEvent::Tick).1.len() == 0,
{
}

/// A drag still held when the connection ends is released, and an authenticated phone stops
/// being counted.
pub proof fn law_an_ended_connection_lets_go(c: ConnState)
    ensures
        conn_next(c, ConnEvent::Ended).1.contains(ConnAction::ReleaseDrag) == c.dragging,
        conn_next(c, ConnEvent::Ended).1.contains(ConnAction::UncountClient) == c.authed,
{
    let acts = conn_next(c, ConnEvent::Ended).1;
    if c.dragging {
        assert(acts[0] == ConnAction::ReleaseDrag);
    }
    if c.authed {
        assert(acts[acts.len() - 1] == ConnAction::UncountClient);
    }
}

} // verus!
