//! The mute / in-call state machine fed by the broker's state topics.
use vstd::prelude::*;

use crate::text::same_text;

verus! {

/// Which subscribed topic a payload arrived on.
#[derive(Debug, Clone, Copy, PartialEq, Eq, Structural)]
pub enum StateTopic {
    Microphone,
    MicrophoneControl,
    InCall,
}

/// Microphone and call state as derived from the broker.
#[derive(Debug, Clone, Copy, PartialEq, Eq, Structural)]
pub struct MicState {
    pub muted: bool,
    /// `None`: unknown (no in-call message seen yet).
    pub in_call: Option<bool>,
}

/// The state a control renders from: microphone, call and camera.
#[derive(Debug, Clone, Copy, PartialEq, Eq, Structural)]
pub struct TeamsState {
    pub muted: bool,
    /// `None`: unknown (no in-call message seen yet).
    pub in_call: Option<bool>,
    /// `None`: not reported.
    pub camera_on: Option<bool>,
}

/// The state before any message: unmuted, call state unknown.
pub open spec fn initial_mic() -> MicState {
    MicState { muted: false, in_call: None }
}

/// The state after the call ended: not in a call, and not muted.
pub open spec fn call_over() -> MicState {
    MicState { muted: false, in_call: Some(false) }
}

/// The state that `payload` on `topic` leads to from `s`.
pub open spec fn applied(s: MicState, topic: StateTopic, payload: Seq<char>) -> MicState {
    match topic {
        StateTopic::MicrophoneControl => {
            if payload == "muted"@ {
                MicState { muted: true, ..s }
            } else if payload == "unmuted"@ {
                MicState { muted: false, ..s }
            } else if payload == "off"@ {
                call_over()
            } else {
                s
            }
        },
        StateTopic::Microphone => {
            if payload == "true"@ || payload == "muted"@ {
                MicState { muted: true, ..s }
            } else if payload == "false"@ || payload == "speaking"@ || payload == "silent"@ {
                MicState { muted: false, ..s }
            } else if payload == "off"@ {
                call_over()
            } else {
                s
            }
        },
        StateTopic::InCall => {
            if payload == "true"@ {
                MicState { in_call: Some(true), ..s }
            } else if payload == "false"@ {
                call_over()
            } else {
                s
            }
        },
    }
}

impl MicState {
    /// This state with the camera not reported.
    pub open spec fn teams_view(self) -> TeamsState {
        TeamsState { muted: self.muted, in_call: self.in_call, camera_on: None }
    }
}

impl Default for MicState {
    fn default() -> (s: Self)
        ensures
            s == initial_mic(),
    {
        MicState { muted: false, in_call: None }
    }
}

impl Default for TeamsState {
    fn default() -> (s: Self)
        ensures
            s == (TeamsState { muted: false, in_call: None, camera_on: None }),
    {
        TeamsState { muted: false, in_call: None, camera_on: None }
    }
}

impl MicState {
    pub fn in_active_call(&self) -> (r: bool)
        ensures
            r == (self.in_call == Some(true)),
    {
        match self.in_call {
            Some(b) => b,
            None => false,
        }
    }

    /// Apply a payload received on `topic`. Returns true if the state changed.
    pub fn apply(&mut self, topic: StateTopic, payload: &str) -> (changed: bool)
        ensures
            *final(self) == applied(*old(self), topic, payload@),
            changed == (*final(self) != *old(self)),
    {
        let before = *self;
        match topic {
            StateTopic::MicrophoneControl => {
                if same_text(payload, "muted") {
                    self.muted = true;
                } else if same_text(payload, "unmuted") {
                    self.muted = false;
                } else if same_text(payload, "off") {
                    self.in_call = Some(false);
                    self.muted = false;
                }
            },
            StateTopic::Microphone => {
                if same_text(payload, "true") || same_text(payload, "muted") {
                    self.muted = true;
                } else if same_text(payload, "false") || same_text(payload, "speaking")
                    || same_text(payload, "silent") {
                    self.muted = false;
                } else if same_text(payload, "off") {
                    self.in_call = Some(false);
                    self.muted = false;
                }
            },
            StateTopic::InCall => {
                if same_text(payload, "true") {
                    self.in_call = Some(true);
                } else if same_text(payload, "false") {
                    self.in_call = Some(false);
                    self.muted = false;
                }
            },
        }
        *self != before
    }

    /// This state with the camera not reported.
    pub fn teams_state(&self) -> (t: TeamsState)
        ensures
            t == self.teams_view(),
    {
        TeamsState { muted: self.muted, in_call: self.in_call, camera_on: None }
    }
}

impl TeamsState {
    pub fn in_active_call(&self) -> (r: bool)
        ensures
            r == (self.in_call == Some(true)),
    {
        match self.in_call {
            Some(b) => b,
            None => false,
        }
    }
}

/// Delivering the same payload on the same topic a second time changes
/// nothing: every transition is idempotent.
pub proof fn law_apply_idempotent(s: MicState, topic: StateTopic, payload: Seq<char>)
    ensures
        applied(applied(s, topic, payload), topic, payload) == applied(s, topic, payload),
{
}

/// An `off` on either microphone topic, or `false` on the in-call topic, ends
/// the call and clears the mute flag, whatever the state was.
pub proof fn law_call_end_resets_mute(s: MicState)
    ensures
        applied(s, StateTopic::MicrophoneControl, "off"@) == call_over(),
        applied(s, StateTopic::Microphone, "off"@) == call_over(),
        applied(s, StateTopic::InCall, "false"@) == call_over(),
{
    reveal_strlit("off");
    reveal_strlit("muted");
    reveal_strlit("unmuted");
    reveal_strlit("true");
    reveal_strlit("false");
    reveal_strlit("speaking");
    reveal_strlit("silent");
    assert("off"@.len() == 3);
    assert("muted"@.len() == 5 && "unmuted"@.len() == 7 && "true"@.len() == 4);
    assert("false"@.len() == 5 && "speaking"@.len() == 8 && "silent"@.len() == 6);
}

/// Once the call state is known it stays known: no payload makes it unknown
/// again.
pub proof fn law_call_state_stays_known(s: MicState, topic: StateTopic, payload: Seq<char>)
    requires
        s.in_call is Some,
    ensures
        applied(s, topic, payload).in_call is Some,
{
}

/// A mute report sets the mute flag whatever the state was, and leaves the
/// call state as it was: `true` or `muted` on the microphone topic, `muted`
/// on the microphone-control topic. In particular a mute that arrives before
/// the call state is known is kept.
pub proof fn law_mute_reports_mute(s: MicState)
    ensures
        applied(s, StateTopic::Microphone, "true"@) == (MicState { muted: true, in_call: s.in_call }),
        applied(s, StateTopic::Microphone, "muted"@) == (MicState { muted: true, in_call: s.in_call }),
        applied(s, StateTopic::MicrophoneControl, "muted"@) == (MicState {
            muted: true,
            in_call: s.in_call,
        }),
{
}

/// An unmute report clears the mute flag whatever the state was, and leaves
/// the call state as it was: `false`, `speaking` or `silent` on the
/// microphone topic, `unmuted` on the microphone-control topic.
pub proof fn law_unmute_reports_unmute(s: MicState)
    ensures
        applied(s, StateTopic::Microphone, "false"@) == (MicState { muted: false, in_call: s.in_call }),
        applied(s, StateTopic::Microphone, "speaking"@) == (MicState {
            muted: false,
            in_call: s.in_call,
        }),
        applied(s, StateTopic::Microphone, "silent"@) == (MicState { muted: false, in_call: s.in_call }),
        applied(s, StateTopic::MicrophoneControl, "unmuted"@) == (MicState {
            muted: false,
            in_call: s.in_call,
        }),
{
    reveal_strlit("true");
    reveal_strlit("muted");
    reveal_strlit("unmuted");
    reveal_strlit("false");
    reveal_strlit("speaking");
    reveal_strlit("silent");
    assert("true"@.len() == 4 && "muted"@.len() == 5 && "unmuted"@.len() == 7);
    assert("false"@.len() == 5 && "false"@[0] != "muted"@[0]);
    assert("speaking"@.len() == 8 && "silent"@.len() == 6);
}

/// A call starting (`true` on the in-call topic) marks the call active and
/// keeps the mute flag.
pub proof fn law_call_start_keeps_mute(s: MicState)
    ensures
        applied(s, StateTopic::InCall, "true"@) == (MicState { muted: s.muted, in_call: Some(true) }),
{
}

/// A payload that is none of the known words changes nothing, on any topic.
pub proof fn law_unknown_payload_ignored(s: MicState, topic: StateTopic, payload: Seq<char>)
    requires
        payload != "true"@,
        payload != "false"@,
        payload != "muted"@,
        payload != "unmuted"@,
        payload != "speaking"@,
        payload != "silent"@,
        payload != "off"@,
    ensures
        applied(s, topic, payload) == s,
{
}

/// The retained mute report and the retained call report lead to the same
/// state in either order: in a call and muted.
pub proof fn law_mute_and_call_commute(s: MicState)
    ensures
        applied(applied(s, StateTopic::Microphone, "muted"@), StateTopic::InCall, "true"@)
            == applied(applied(s, StateTopic::InCall, "true"@), StateTopic::Microphone, "muted"@),
        applied(applied(s, StateTopic::Microphone, "muted"@), StateTopic::InCall, "true"@) == (MicState {
            muted: true,
            in_call: Some(true),
        }),
{
}

} // verus!
