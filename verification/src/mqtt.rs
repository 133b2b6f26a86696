//! The broker-connection decisions: which settings are in force, when to
//! reconnect, how incoming state payloads fold into the display input, and
//! where a key press publishes.
use vstd::prelude::*;

use crate::control::{ready_to_act, Control};
use crate::settings::{resolution, resolve, topic_path, FileSettings, PiSettings, Resolved, ResolvedView};
use crate::state::{applied, initial_mic, MicState, StateTopic};
use crate::text::{
    ascii_lower, from_utf8_lossy, is_white_space, law_trim_removes_surrounding_space, lowercase,
    same_text, strip_start, to_lowercase, trim, trimmed, utf8_lossy,
};
use vstd::utf8::{decode_utf8, valid_utf8};

verus! {

broadcast use vstd::string::group_string_axioms;

/// Everything a key needs to render: the Teams state and whether the plugin
/// is configured.
#[derive(Debug, Clone, Copy, PartialEq, Eq, Structural)]
pub struct DisplayInput {
    pub mic: MicState,
    pub configured: bool,
}

impl Default for DisplayInput {
    fn default() -> (d: Self)
        ensures
            d == (DisplayInput { mic: initial_mic(), configured: false }),
    {
        DisplayInput { mic: MicState::default(), configured: false }
    }
}

/// What a settings change asks of the connection.
#[derive(Debug, Clone, Copy, PartialEq, Eq, Structural)]
pub enum SettingsChange {
    /// Nothing changed: keep the connection and the state.
    Unchanged,
    /// Drop the connection and the state; open a new connection when
    /// `connect` holds (the new settings are configured).
    Reconnect { connect: bool },
}

/// The topic a payload arrived on, matched against the subscribed topics in
/// subscription order.
pub open spec fn routed(r: ResolvedView, topic: Seq<char>) -> Option<StateTopic> {
    if topic == topic_path(r.topic_prefix, r.microphone_suffix) {
        Some(StateTopic::Microphone)
    } else if topic == topic_path(r.topic_prefix, r.microphone_control_suffix) {
        Some(StateTopic::MicrophoneControl)
    } else if topic == topic_path(r.topic_prefix, r.in_call_suffix) {
        Some(StateTopic::InCall)
    } else {
        None
    }
}

/// The subscriptions for settings `r`, in order: the microphone, the
/// microphone-control and the in-call topic, each with the state topic it
/// feeds.
pub open spec fn subscribes_to(v: Seq<(String, StateTopic)>, r: ResolvedView) -> bool {
    &&& v.len() == 3
    &&& v[0].0@ == topic_path(r.topic_prefix, r.microphone_suffix)
    &&& v[0].1 == StateTopic::Microphone
    &&& v[1].0@ == topic_path(r.topic_prefix, r.microphone_control_suffix)
    &&& v[1].1 == StateTopic::MicrophoneControl
    &&& v[2].0@ == topic_path(r.topic_prefix, r.in_call_suffix)
    &&& v[2].1 == StateTopic::InCall
}

/// A payload as the state machine reads it: decoded (invalid UTF-8
/// replaced), trimmed, lowercased.
pub open spec fn normalized(payload: Seq<u8>) -> Seq<char> {
    lowercase(trimmed(utf8_lossy(payload)))
}

/// Decode, trim and lowercase a payload.
pub fn normalize_payload(payload: &[u8]) -> (r: String)
    ensures
        r@ == normalized(payload@),
        valid_utf8(payload@) && (forall|i: int|
            0 <= i < decode_utf8(payload@).len() ==> (#[trigger] decode_utf8(payload@)[i] as int)
                < 128) ==> r@ == trimmed(decode_utf8(payload@)).map_values(|c: char| ascii_lower(c)),
{
    let text = from_utf8_lossy(payload);
    let t = trim(text.as_str());
    proof {
        law_trim_removes_surrounding_space(text@);
        if valid_utf8(payload@) && (forall|i: int|
            0 <= i < decode_utf8(payload@).len() ==> (#[trigger] decode_utf8(payload@)[i] as int)
                < 128) {
            let k = text@.len() - strip_start(text@, |c: char| is_white_space(c)).len();
            assert forall|i: int| 0 <= i < t@.len() implies (#[trigger] t@[i] as int) < 128 by {
                assert(t@[i] == text@[k + i]);
            }
        }
    }
    to_lowercase(t.as_str())
}

impl Resolved {
    /// The state topic that `topic` is, if it is one of the subscribed ones.
    pub fn route(&self, topic: &str) -> (r: Option<StateTopic>)
        ensures
            r == routed(self@, topic@),
    {
        if same_text(topic, self.microphone_topic().as_str()) {
            Some(StateTopic::Microphone)
        } else if same_text(topic, self.microphone_control_topic().as_str()) {
            Some(StateTopic::MicrophoneControl)
        } else if same_text(topic, self.in_call_topic().as_str()) {
            Some(StateTopic::InCall)
        } else {
            None
        }
    }

    /// The topics to subscribe to on connect, each with the state topic it
    /// feeds.
    pub fn subscriptions(&self) -> (v: Vec<(String, StateTopic)>)
        ensures
            subscribes_to(v@, self@),
    {
        let mut v: Vec<(String, StateTopic)> = Vec::new();
        v.push((self.microphone_topic(), StateTopic::Microphone));
        v.push((self.microphone_control_topic(), StateTopic::MicrophoneControl));
        v.push((self.in_call_topic(), StateTopic::InCall));
        v
    }

    /// User name and password for the broker; none when the user name is
    /// empty.
    pub fn credentials(&self) -> (r: Option<(String, String)>)
        ensures
            r is Some <==> self.username@.len() > 0,
            r is Some ==> (r->0).0@ == self.username@ && (r->0).1@ == self.password@,
    {
        if self.username.as_str().is_empty() {
            None
        } else {
            Some((self.username.clone(), self.password.clone()))
        }
    }
}

/// The connection decisions' state as plain values.
pub struct ControllerView {
    /// The settings in force, once any were applied.
    pub resolved: Option<ResolvedView>,
    /// What the keys render from.
    pub input: DisplayInput,
}

/// The key renders as configured exactly when settings are in force and
/// they are configured.
pub open spec fn consistent(c: ControllerView) -> bool {
    match c.resolved {
        Some(r) => c.input.configured == r.configured,
        None => !c.input.configured,
    }
}

/// Before any settings: nothing in force, unconfigured, initial state.
pub open spec fn initial_controller() -> ControllerView {
    ControllerView { resolved: None, input: DisplayInput { mic: initial_mic(), configured: false } }
}

/// Applying resolved settings `r`: unchanged settings keep everything;
/// changed ones reset the state, take over the configured flag, and connect
/// when configured.
pub open spec fn settings_step(c: ControllerView, r: ResolvedView) -> (ControllerView, SettingsChange) {
    if c.resolved == Some(r) {
        (c, SettingsChange::Unchanged)
    } else {
        (
            ControllerView {
                resolved: Some(r),
                input: DisplayInput { mic: initial_mic(), configured: r.configured },
            },
            SettingsChange::Reconnect { connect: r.configured },
        )
    }
}

/// A payload arriving on `topic` while connected updates the state when the
/// topic is a subscribed one; otherwise nothing changes.
pub open spec fn publish_step(c: ControllerView, topic: Seq<char>, payload: Seq<u8>) -> ControllerView {
    if c.input.configured && c.resolved is Some && routed(c.resolved->0, topic) is Some {
        ControllerView {
            input: DisplayInput {
                mic: applied(c.input.mic, routed(c.resolved->0, topic)->0, normalized(payload)),
                ..c.input
            },
            ..c
        }
    } else {
        c
    }
}

/// Where a press of a control publishes: the command topic when the
/// control may act on the current state, nothing otherwise.
pub open spec fn press_topic(c: ControllerView) -> Option<Seq<char>> {
    if c.resolved is Some && ready_to_act(c.input.mic.teams_view(), c.input.configured) {
        Some(topic_path(c.resolved->0.topic_prefix, c.resolved->0.command_suffix))
    } else {
        None
    }
}

/// Seconds the connection task waits after a connection error before it
/// polls again.
pub const RETRY_DELAY_SECS: u64 = 5;

/// What the broker connection reported.
#[derive(Debug, Clone, PartialEq, Eq)]
pub enum BrokerEvent {
    /// The broker acknowledged the connection.
    Connected,
    /// A message arrived.
    Message { topic: String, payload: Vec<u8> },
    /// The connection failed.
    Failed,
    /// Anything else.
    Other,
}

/// What the connection task does next.
#[derive(Debug, Clone, PartialEq, Eq)]
pub enum BrokerAction {
    /// Subscribe to these topics.
    Subscribe(Vec<(String, StateTopic)>),
    /// The display input changed: show this one.
    Render(DisplayInput),
    /// Wait this long before polling again.
    Wait { seconds: u64 },
    /// Nothing to do.
    Nothing,
}

/// The decisions behind one plugin instance's broker connection.
pub struct MqttController {
    resolved: Option<Resolved>,
    input: DisplayInput,
}

impl View for MqttController {
    type V = ControllerView;

    closed spec fn view(&self) -> ControllerView {
        ControllerView {
            resolved: match self.resolved {
                Some(r) => Some(r@),
                None => None,
            },
            input: self.input,
        }
    }
}

impl MqttController {
    /// The key renders as configured only with settings in force.
    #[verifier::type_invariant]
    spec fn configured_has_settings(&self) -> bool {
        match self.resolved {
            Some(r) => self.input.configured == r.configured,
            None => !self.input.configured,
        }
    }

    pub fn new() -> (c: Self)
        ensures
            c@ == initial_controller(),
            consistent(c@),
    {
        MqttController { resolved: None, input: DisplayInput::default() }
    }

    /// Latest Teams state and configured flag, for a control to render from.
    pub fn current_input(&self) -> (d: DisplayInput)
        ensures
            d == self@.input,
            consistent(self@),
    {
        proof {
            use_type_invariant(self);
        }
        self.input
    }

    /// The settings in force.
    pub fn resolved(&self) -> (r: Option<Resolved>)
        ensures
            r is Some <==> self@.resolved is Some,
            r is Some ==> r->0@ == self@.resolved->0,
            consistent(self@),
    {
        proof {
            use_type_invariant(self);
        }
        match &self.resolved {
            Some(r) => Some(r.copied()),
            None => None,
        }
    }

    /// Resolve the settings from the config file's contents (if it was read)
    /// and the property inspector, and say whether the connection must be
    /// replaced.
    pub fn apply_settings(&mut self, file: Option<&FileSettings>, pi: &PiSettings) -> (change:
        SettingsChange)
        ensures
            (final(self)@, change) == settings_step(
                old(self)@,
                resolution(
                    match file {
                        Some(f) => Some(*f),
                        None => None,
                    },
                    *pi,
                ),
            ),
            consistent(final(self)@),
    {
        proof {
            use_type_invariant(&*self);
        }
        let resolved = resolve(file, pi);
        let same = match &self.resolved {
            Some(current) => current.same_as(&resolved),
            None => false,
        };
        if same {
            return SettingsChange::Unchanged;
        }
        let connect = resolved.configured;
        *self = MqttController {
            resolved: Some(resolved),
            input: DisplayInput { mic: MicState::default(), configured: connect },
        };
        SettingsChange::Reconnect { connect }
    }

    /// A payload arrived on `topic`. Returns true if the display input
    /// changed.
    pub fn on_publish(&mut self, topic: &str, payload: &[u8]) -> (changed: bool)
        ensures
            final(self)@ == publish_step(old(self)@, topic@, payload@),
            changed == (final(self)@.input != old(self)@.input),
            consistent(final(self)@),
    {
        proof {
            use_type_invariant(&*self);
        }
        if !self.input.configured {
            return false;
        }
        let route = match &self.resolved {
            Some(r) => r.route(topic),
            None => None,
        };
        match route {
            Some(t) => {
                let p = normalize_payload(payload);
                let mut mic = self.input.mic;
                let changed = mic.apply(t, p.as_str());
                self.input = DisplayInput { mic, configured: self.input.configured };
                changed
            },
            None => false,
        }
    }

    /// One step of the connection task: subscribe on connect, fold a message
    /// into the state (and render when it changed), wait after an error.
    pub fn on_event(&mut self, event: BrokerEvent) -> (action: BrokerAction)
        ensures
            consistent(final(self)@),
            match event {
                BrokerEvent::Connected => {
                    &&& final(self)@ == old(self)@
                    &&& old(self)@.resolved is Some ==> action is Subscribe && subscribes_to(
                        action->Subscribe_0@,
                        old(self)@.resolved->0,
                    )
                    &&& old(self)@.resolved is None ==> action is Nothing
                },
                BrokerEvent::Message { topic, payload } => {
                    &&& final(self)@ == publish_step(old(self)@, topic@, payload@)
                    &&& final(self)@.input != old(self)@.input ==> action == BrokerAction::Render(
                        final(self)@.input,
                    )
                    &&& final(self)@.input == old(self)@.input ==> action is Nothing
                },
                BrokerEvent::Failed => {
                    &&& final(self)@ == old(self)@
                    &&& action == (BrokerAction::Wait { seconds: RETRY_DELAY_SECS })
                },
                BrokerEvent::Other => final(self)@ == old(self)@ && action is Nothing,
            },
    {
        proof {
            use_type_invariant(&*self);
        }
        match event {
            BrokerEvent::Connected => match &self.resolved {
                Some(r) => BrokerAction::Subscribe(r.subscriptions()),
                None => BrokerAction::Nothing,
            },
            BrokerEvent::Message { topic, payload } => {
                if self.on_publish(topic.as_str(), payload.as_slice()) {
                    BrokerAction::Render(self.input)
                } else {
                    BrokerAction::Nothing
                }
            },
            BrokerEvent::Failed => BrokerAction::Wait { seconds: RETRY_DELAY_SECS },
            BrokerEvent::Other => BrokerAction::Nothing,
        }
    }

    /// A key of control `C` was pressed: the topic to publish `C::COMMAND` to
    /// when the control may act now, none when the press is refused.
    pub fn key_pressed<C: Control>(&self) -> (r: Option<String>)
        ensures
            r is Some <==> press_topic(self@) is Some,
            r is Some ==> r->0@ == press_topic(self@)->0,
            consistent(self@),
            (self@.resolved is None || !self@.resolved->0.configured) ==> r is None,
    {
        proof {
            use_type_invariant(self);
        }
        let input = self.input;
        if !C::can_activate(input.mic.teams_state(), input.configured) {
            return None;
        }
        match &self.resolved {
            Some(r) => Some(r.command_topic()),
            None => None,
        }
    }
}

/// Applying the same settings twice reconnects at most once: the second
/// application changes nothing and asks for nothing.
pub proof fn law_same_settings_keep_connection(c: ControllerView, r: ResolvedView)
    ensures
        settings_step(settings_step(c, r).0, r) == (settings_step(c, r).0, SettingsChange::Unchanged),
{
}

/// Every reconnect starts from the initial state, with the configured flag
/// of the new settings, and connects exactly when they are configured.
pub proof fn law_reconnect_resets_state(c: ControllerView, r: ResolvedView)
    ensures
        settings_step(c, r).1 != SettingsChange::Unchanged ==> {
            &&& settings_step(c, r).0.input.mic == initial_mic()
            &&& settings_step(c, r).0.input.configured == r.configured
            &&& settings_step(c, r).1 == (SettingsChange::Reconnect { connect: r.configured })
        },
{
}

/// Unconfigured, the plugin ignores the broker and refuses every press.
pub proof fn law_unconfigured_is_inert(c: ControllerView, topic: Seq<char>, payload: Seq<u8>)
    requires
        !c.input.configured,
    ensures
        publish_step(c, topic, payload) == c,
        press_topic(c) is None,
{
}

/// Applying settings always leaves exactly those settings in force, and
/// keeps the connection only when they equal, in every field, the settings
/// already in force: any change of host, port, user, password, prefix or
/// topic reconnects.
pub proof fn law_settings_take_effect(c: ControllerView, r: ResolvedView)
    ensures
        settings_step(c, r).0.resolved == Some(r),
        settings_step(c, r).1 == SettingsChange::Unchanged <==> c.resolved == Some(r),
        settings_step(c, r).1 == SettingsChange::Unchanged ==> settings_step(c, r).0 == c,
{
}

/// A press publishes exactly when settings are in force, the plugin is
/// configured and Teams reports a call, whatever the mute state, and then to
/// the command topic of the settings in force.
pub proof fn law_press_publishes_in_call(c: ControllerView)
    ensures
        press_topic(c) is Some <==> (c.resolved is Some && c.input.configured && c.input.mic.in_call
            == Some(true)),
        press_topic(c) is Some ==> press_topic(c)->0 == topic_path(
            c.resolved->0.topic_prefix,
            c.resolved->0.command_suffix,
        ),
{
}

/// The mute flag never decides whether a press publishes: muting or
/// unmuting leaves the press's outcome as it was, so a muted key can unmute.
pub proof fn law_press_ignores_mute(c: ControllerView, muted: bool)
    ensures
        press_topic(
            ControllerView {
                input: DisplayInput { mic: MicState { muted, ..c.input.mic }, ..c.input },
                ..c
            },
        ) == press_topic(c),
{
}

/// A message is taken for the state topic whose full topic it arrived on,
/// checked in subscription order; a topic that is none of the three is
/// ignored.
pub proof fn law_route_matches_topics(r: ResolvedView, topic: Seq<char>)
    ensures
        routed(r, topic) == Some(StateTopic::Microphone) <==> topic == topic_path(
            r.topic_prefix,
            r.microphone_suffix,
        ),
        routed(r, topic) == Some(StateTopic::MicrophoneControl) ==> topic == topic_path(
            r.topic_prefix,
            r.microphone_control_suffix,
        ),
        routed(r, topic) == Some(StateTopic::InCall) ==> topic == topic_path(
            r.topic_prefix,
            r.in_call_suffix,
        ),
        routed(r, topic) is None <==> (topic != topic_path(r.topic_prefix, r.microphone_suffix)
            && topic != topic_path(r.topic_prefix, r.microphone_control_suffix) && topic
            != topic_path(r.topic_prefix, r.in_call_suffix)),
{
}

/// A message never changes the settings in force or the configured flag,
/// and one on a topic that is not subscribed changes nothing at all.
pub proof fn law_message_moves_only_the_state(c: ControllerView, topic: Seq<char>, payload: Seq<u8>)
    ensures
        publish_step(c, topic, payload).resolved == c.resolved,
        publish_step(c, topic, payload).input.configured == c.input.configured,
        (c.resolved is None || routed(c.resolved->0, topic) is None) ==> publish_step(
            c,
            topic,
            payload,
        ) == c,
{
}

/// Configured, a payload reading `muted` on the microphone or the
/// microphone-control topic mutes, and keeps the call state, whatever the
/// state was.
pub proof fn law_muted_message_mutes(c: ControllerView, payload: Seq<u8>)
    requires
        c.resolved is Some,
        c.input.configured,
        normalized(payload) == "muted"@,
    ensures
        ({
            let r = c.resolved->0;
            let on_mic = publish_step(c, topic_path(r.topic_prefix, r.microphone_suffix), payload);
            let on_control = publish_step(
                c,
                topic_path(r.topic_prefix, r.microphone_control_suffix),
                payload,
            );
            &&& on_mic.input.mic == (MicState { muted: true, in_call: c.input.mic.in_call })
            &&& on_control.input.mic == (MicState { muted: true, in_call: c.input.mic.in_call })
        }),
{
}

/// Configured, a payload reading `true` on the in-call topic (when that
/// topic is not also a microphone topic) marks the call active and keeps
/// the mute flag.
pub proof fn law_call_message_starts_call(c: ControllerView, payload: Seq<u8>)
    requires
        c.resolved is Some,
        c.input.configured,
        normalized(payload) == "true"@,
        topic_path(c.resolved->0.topic_prefix, c.resolved->0.in_call_suffix) != topic_path(
            c.resolved->0.topic_prefix,
            c.resolved->0.microphone_suffix,
        ),
        topic_path(c.resolved->0.topic_prefix, c.resolved->0.in_call_suffix) != topic_path(
            c.resolved->0.topic_prefix,
            c.resolved->0.microphone_control_suffix,
        ),
    ensures
        publish_step(
            c,
            topic_path(c.resolved->0.topic_prefix, c.resolved->0.in_call_suffix),
            payload,
        ).input.mic == (MicState { muted: c.input.mic.muted, in_call: Some(true) }),
{
}

} // verus!
