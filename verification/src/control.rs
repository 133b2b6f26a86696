//! Toggle controls: each key publishes one command and mirrors a piece of
//! live Teams state. A control owns its whole state-to-display mapping.
use vstd::prelude::*;

use crate::state::TeamsState;

verus! {

broadcast use vstd::string::group_string_axioms;

/// The images a key can show.
#[derive(Debug, Clone, Copy, PartialEq, Eq, Structural)]
pub enum Icon {
    MuteNormal,
    MuteMuted,
    MuteOff,
    CamOn,
    CamOff,
    CamDisabled,
    HandOn,
    HandDisabled,
}

/// The PNG file under the plugin's `icons/` directory that holds each image.
pub open spec fn icon_file(icon: Icon) -> Seq<char> {
    match icon {
        Icon::MuteNormal => "icon@2x.png"@,
        Icon::MuteMuted => "icon-muted@2x.png"@,
        Icon::MuteOff => "icon-off@2x.png"@,
        Icon::CamOn => "cam@2x.png"@,
        Icon::CamOff => "cam-off@2x.png"@,
        Icon::CamDisabled => "cam-disabled@2x.png"@,
        Icon::HandOn => "hand@2x.png"@,
        Icon::HandDisabled => "hand-disabled@2x.png"@,
    }
}

impl Icon {
    /// File name of this image under the plugin's `icons/` directory.
    pub fn file_name(&self) -> (r: &'static str)
        ensures
            r@ == icon_file(*self),
    {
        match self {
            Icon::MuteNormal => "icon@2x.png",
            Icon::MuteMuted => "icon-muted@2x.png",
            Icon::MuteOff => "icon-off@2x.png",
            Icon::CamOn => "cam@2x.png",
            Icon::CamOff => "cam-off@2x.png",
            Icon::CamDisabled => "cam-disabled@2x.png",
            Icon::HandOn => "hand@2x.png",
            Icon::HandDisabled => "hand-disabled@2x.png",
        }
    }
}

/// One digit of the standard base64 alphabet (RFC 4648): `A`-`Z`, `a`-`z`,
/// `0`-`9`, `+`, `/` for the values 0 to 63.
pub open spec fn base64_digit(v: int) -> char {
    if v < 26 {
        (65 + v) as char
    } else if v < 52 {
        (97 + v - 26) as char
    } else if v < 62 {
        (48 + v - 52) as char
    } else if v == 62 {
        '+'
    } else {
        '/'
    }
}

/// Standard padded base64 (RFC 4648, section 4): each group of three bytes
/// becomes four digits of six bits each, most significant first; a final
/// group of one or two bytes is zero-filled and padded with `=` to four
/// characters.
pub open spec fn base64_standard(bytes: Seq<u8>) -> Seq<char>
    decreases bytes.len(),
{
    if bytes.len() == 0 {
        seq![]
    } else if bytes.len() == 1 {
        let a = bytes[0] as int;
        seq![base64_digit(a / 4), base64_digit((a % 4) * 16), '=', '=']
    } else if bytes.len() == 2 {
        let a = bytes[0] as int;
        let b = bytes[1] as int;
        seq![base64_digit(a / 4), base64_digit((a % 4) * 16 + b / 16), base64_digit((b % 16) * 4), '=']
    } else {
        let a = bytes[0] as int;
        let b = bytes[1] as int;
        let c = bytes[2] as int;
        seq![
            base64_digit(a / 4),
            base64_digit((a % 4) * 16 + b / 16),
            base64_digit((b % 16) * 4 + c / 64),
            base64_digit(c % 64),
        ] + base64_standard(bytes.skip(3))
    }
}

proof fn lemma_base64_digit_injective(v: int, w: int)
    requires
        0 <= v < 64,
        0 <= w < 64,
    ensures
        base64_digit(v) == base64_digit(w) ==> v == w,
        base64_digit(v) != '=',
{
}

proof fn lemma_base64_length(bytes: Seq<u8>)
    ensures
        bytes.len() == 0 ==> base64_standard(bytes).len() == 0,
        bytes.len() > 0 ==> base64_standard(bytes).len() >= 4,
    decreases bytes.len(),
{
    if bytes.len() >= 3 {
        lemma_base64_length(bytes.skip(3));
    }
}

/// Standard base64 is one-to-one: different byte strings never encode to
/// the same text.
pub proof fn lemma_base64_injective(x: Seq<u8>, y: Seq<u8>)
    requires
        base64_standard(x) == base64_standard(y),
    ensures
        x == y,
    decreases x.len(),
{
    let ex = base64_standard(x);
    let ey = base64_standard(y);
    lemma_base64_length(x);
    lemma_base64_length(y);
    if x.len() == 0 || y.len() == 0 {
        assert(x =~= y);
        return;
    }
    let (a, b, c) = (x[0] as int, if x.len() > 1 { x[1] as int } else { 0 }, if x.len() > 2 { x[2] as int } else { 0 });
    let (p, q, r) = (y[0] as int, if y.len() > 1 { y[1] as int } else { 0 }, if y.len() > 2 { y[2] as int } else { 0 });
    // The digits that never are `=`, and the positions of the padding,
    // fix how long the last group is.
    lemma_base64_digit_injective(a / 4, p / 4);
    lemma_base64_digit_injective((a % 4) * 16 + b / 16, (p % 4) * 16 + q / 16);
    lemma_base64_digit_injective((b % 16) * 4 + c / 64, (q % 16) * 4 + r / 64);
    lemma_base64_digit_injective(c % 64, r % 64);
    lemma_base64_digit_injective((a % 4) * 16, (p % 4) * 16);
    lemma_base64_digit_injective((b % 16) * 4, (q % 16) * 4);
    lemma_base64_digit_injective((a % 4) * 16 + b / 16, (p % 4) * 16);
    lemma_base64_digit_injective((a % 4) * 16, (p % 4) * 16 + q / 16);
    lemma_base64_digit_injective((b % 16) * 4 + c / 64, (q % 16) * 4);
    lemma_base64_digit_injective((b % 16) * 4, (q % 16) * 4 + r / 64);
    assert(ex[0] == ey[0] && ex[1] == ey[1] && ex[2] == ey[2] && ex[3] == ey[3]);
    if x.len() >= 3 {
        assert(y.len() >= 3);
        assert(a == p && b == q && c == r);
        assert(ex.skip(4) =~= base64_standard(x.skip(3)));
        assert(ey.skip(4) =~= base64_standard(y.skip(3)));
        lemma_base64_injective(x.skip(3), y.skip(3));
        assert(x =~= x.take(3) + x.skip(3));
        assert(y =~= y.take(3) + y.skip(3));
        assert(x.take(3) =~= y.take(3));
    } else {
        assert(y.len() == x.len());
        assert(x =~= y);
    }
}

/// `base64::engine::general_purpose::STANDARD.encode`. Trusted: the result is
/// the standard padded encoding of `bytes` (standard alphabet, `=` padding).
/// The bound keeps the crate's output-length computation from overflowing,
/// where it would panic; no slice is longer.
#[verifier::external_body]
fn base64_encode(bytes: &[u8]) -> (s: String)
    requires
        bytes@.len() <= isize::MAX,
    ensures
        s@ == base64_standard(bytes@),
{
    base64::Engine::encode(&base64::engine::general_purpose::STANDARD, bytes)
}

/// The `data:` URI of a PNG image.
pub open spec fn png_uri(bytes: Seq<u8>) -> Seq<char> {
    "data:image/png;base64,"@ + base64_standard(bytes)
}

/// Every image URI starts with the `data:` prefix, and different images get
/// different URIs.
pub proof fn law_png_uris_distinct(x: Seq<u8>, y: Seq<u8>)
    ensures
        png_uri(x).subrange(0, "data:image/png;base64,"@.len() as int) == "data:image/png;base64,"@,
        x != y ==> png_uri(x) != png_uri(y),
{
    let prefix = "data:image/png;base64,"@;
    assert(png_uri(x).subrange(0, prefix.len() as int) =~= prefix);
    if png_uri(x) == png_uri(y) {
        assert(png_uri(x).skip(prefix.len() as int) =~= base64_standard(x));
        assert(png_uri(y).skip(prefix.len() as int) =~= base64_standard(y));
        lemma_base64_injective(x, y);
    }
}

/// A PNG image as a `data:` URI: the fixed prefix, then the bytes in base64.
pub fn png_data_uri(bytes: &[u8]) -> (uri: String)
    requires
        bytes@.len() <= isize::MAX,
    ensures
        uri@ == png_uri(bytes@),
{
    let mut uri = "data:image/png;base64,".to_owned();
    let encoded = base64_encode(bytes);
    uri.append(encoded.as_str());
    uri
}

/// What a control's key shows: the manifest state, its title and its image.
#[derive(Debug, Clone, Copy, PartialEq, Eq)]
pub struct Display {
    pub state_index: u16,
    pub title: &'static str,
    pub image: Icon,
}

/// A key's look as plain values.
pub struct DisplayView {
    pub state_index: u16,
    pub title: Seq<char>,
    pub image: Icon,
}

impl View for Display {
    type V = DisplayView;

    open spec fn view(&self) -> DisplayView {
        DisplayView { state_index: self.state_index, title: self.title@, image: self.image }
    }
}

pub open spec fn look(state_index: u16, title: Seq<char>, image: Icon) -> DisplayView {
    DisplayView { state_index, title, image }
}

/// In a call and configured: the precondition every control shares before
/// it acts on a press.
pub open spec fn ready_to_act(state: TeamsState, configured: bool) -> bool {
    configured && state.in_call == Some(true)
}

fn ready(state: TeamsState, configured: bool) -> (r: bool)
    ensures
        r == ready_to_act(state, configured),
{
    configured && state.in_active_call()
}

/// Whether a control may act depends on the call state and the configured
/// flag alone: the mute and camera state never decide it.
pub proof fn law_ready_ignores_mute_and_camera(s1: TeamsState, s2: TeamsState, configured: bool)
    requires
        s1.in_call == s2.in_call,
    ensures
        ready_to_act(s1, configured) == ready_to_act(s2, configured),
        ready_to_act(s1, configured) == (configured && s1.in_call == Some(true)),
{
}

/// A toggle control bound to exactly one action UUID.
pub trait Control: Send + Sync + 'static {
    /// The action's UUID in the plugin manifest.
    const UUID: &'static str;

    /// The JSON payload published to the command topic on a press.
    const COMMAND: &'static str;

    /// What the key shows for a state.
    spec fn display_for(state: TeamsState, configured: bool) -> DisplayView;

    /// Map the current state to what the key shows.
    fn display(state: TeamsState, configured: bool) -> (d: Display)
        ensures
            d@ == Self::display_for(state, configured),
    ;

    /// Whether a press publishes the command right now.
    fn can_activate(state: TeamsState, configured: bool) -> (r: bool)
        ensures
            r == ready_to_act(state, configured),
    ;
}

/// Microphone mute and unmute.
pub struct MuteControl;

/// Camera on and off.
pub struct CameraControl;

/// Raise and lower hand. Teams reports no hand state, so the key shows only
/// whether a press would act.
pub struct HandControl;

pub open spec fn mute_display(state: TeamsState, configured: bool) -> DisplayView {
    if !configured {
        look(0, "SETUP"@, Icon::MuteOff)
    } else if state.in_call != Some(true) {
        look(0, "OFF"@, Icon::MuteOff)
    } else if state.muted {
        look(1, "MUTED"@, Icon::MuteMuted)
    } else {
        look(0, "MIC"@, Icon::MuteNormal)
    }
}

pub open spec fn camera_display(state: TeamsState, configured: bool) -> DisplayView {
    if !configured {
        look(0, "SETUP"@, Icon::CamDisabled)
    } else if state.in_call != Some(true) {
        look(0, "OFF"@, Icon::CamDisabled)
    } else if state.camera_on == Some(true) {
        look(0, "CAM"@, Icon::CamOn)
    } else {
        look(1, "CAM OFF"@, Icon::CamOff)
    }
}

pub open spec fn hand_display(state: TeamsState, configured: bool) -> DisplayView {
    if !configured {
        look(0, "SETUP"@, Icon::HandDisabled)
    } else if state.in_call != Some(true) {
        look(0, "OFF"@, Icon::HandDisabled)
    } else {
        look(0, "HAND"@, Icon::HandOn)
    }
}

impl Control for MuteControl {
    const UUID: &'static str = "com.geoffdavis.teamsforlinux.toggle-mute";

    const COMMAND: &'static str = "{\"action\":\"toggle-mute\"}";

    open spec fn display_for(state: TeamsState, configured: bool) -> DisplayView {
        mute_display(state, configured)
    }

    fn display(state: TeamsState, configured: bool) -> (d: Display) {
        if !configured {
            Display { state_index: 0, title: "SETUP", image: Icon::MuteOff }
        } else if !state.in_active_call() {
            Display { state_index: 0, title: "OFF", image: Icon::MuteOff }
        } else if state.muted {
            Display { state_index: 1, title: "MUTED", image: Icon::MuteMuted }
        } else {
            Display { state_index: 0, title: "MIC", image: Icon::MuteNormal }
        }
    }

    fn can_activate(state: TeamsState, configured: bool) -> (r: bool) {
        ready(state, configured)
    }
}

impl Control for CameraControl {
    const UUID: &'static str = "com.geoffdavis.teamsforlinux.toggle-camera";

    const COMMAND: &'static str = "{\"action\":\"toggle-video\"}";

    open spec fn display_for(state: TeamsState, configured: bool) -> DisplayView {
        camera_display(state, configured)
    }

    fn display(state: TeamsState, configured: bool) -> (d: Display) {
        if !configured {
            Display { state_index: 0, title: "SETUP", image: Icon::CamDisabled }
        } else if !state.in_active_call() {
            Display { state_index: 0, title: "OFF", image: Icon::CamDisabled }
        } else if match state.camera_on {
            Some(on) => on,
            None => false,
        } {
            Display { state_index: 0, title: "CAM", image: Icon::CamOn }
        } else {
            // In a call with the camera off or not yet reported.
            Display { state_index: 1, title: "CAM OFF", image: Icon::CamOff }
        }
    }

    fn can_activate(state: TeamsState, configured: bool) -> (r: bool) {
        ready(state, configured)
    }
}

impl Control for HandControl {
    const UUID: &'static str = "com.geoffdavis.teamsforlinux.toggle-hand-raise";

    const COMMAND: &'static str = "{\"action\":\"toggle-hand-raise\"}";

    open spec fn display_for(state: TeamsState, configured: bool) -> DisplayView {
        hand_display(state, configured)
    }

    fn display(state: TeamsState, configured: bool) -> (d: Display) {
        if !configured {
            Display { state_index: 0, title: "SETUP", image: Icon::HandDisabled }
        } else if !state.in_active_call() {
            Display { state_index: 0, title: "OFF", image: Icon::HandDisabled }
        } else {
            Display { state_index: 0, title: "HAND", image: Icon::HandOn }
        }
    }

    fn can_activate(state: TeamsState, configured: bool) -> (r: bool) {
        ready(state, configured)
    }
}

/// A key that is not showing `SETUP` or `OFF`.
pub open spec fn active_look(d: DisplayView) -> bool {
    d.title != "SETUP"@ && d.title != "OFF"@
}

/// For every control, a press acts exactly when the key shows its active
/// look: `SETUP` and `OFF` are shown precisely when a press is refused.
pub proof fn law_press_acts_iff_key_active(state: TeamsState, configured: bool)
    ensures
        ready_to_act(state, configured) <==> active_look(mute_display(state, configured)),
        ready_to_act(state, configured) <==> active_look(camera_display(state, configured)),
        ready_to_act(state, configured) <==> active_look(hand_display(state, configured)),
{
    reveal_strlit("SETUP");
    reveal_strlit("OFF");
    reveal_strlit("MIC");
    reveal_strlit("MUTED");
    reveal_strlit("CAM");
    reveal_strlit("CAM OFF");
    reveal_strlit("HAND");
    assert("SETUP"@.len() == 5 && "OFF"@.len() == 3);
    assert("MIC"@[0] != "OFF"@[0] && "CAM"@[0] != "OFF"@[0]);
    assert("MUTED"@[0] != "SETUP"@[0] && "CAM OFF"@.len() == 7 && "HAND"@.len() == 4);
}

/// The mute key in a configured call shows the second (muted) state and the
/// muted image exactly when Teams reports the microphone muted, and the
/// first state with the normal image otherwise; outside a call, or
/// unconfigured, it shows the first state with the off image. The camera
/// report never changes it.
pub proof fn law_mute_key_mirrors_mute(state: TeamsState, configured: bool)
    ensures
        ({
            let d = MuteControl::display_for(state, configured);
            &&& configured && state.in_call == Some(true) ==> {
                &&& d.state_index == 1 <==> state.muted
                &&& d.state_index == 0 <==> !state.muted
                &&& d.image == Icon::MuteMuted <==> state.muted
                &&& d.image == Icon::MuteNormal <==> !state.muted
                &&& d.title == (if state.muted { "MUTED"@ } else { "MIC"@ })
            }
            &&& !(configured && state.in_call == Some(true)) ==> {
                &&& d.state_index == 0
                &&& d.image == Icon::MuteOff
                &&& d.title == (if configured { "OFF"@ } else { "SETUP"@ })
            }
            &&& d == MuteControl::display_for(TeamsState { camera_on: None, ..state }, configured)
        }),
{
}

/// The camera key in a configured call shows the first state and the camera
/// image exactly when Teams reports the camera on; off or unreported, the
/// second state and the camera-off image. Outside a call, or unconfigured,
/// it shows the first state with the disabled image. The mute flag never
/// changes it.
pub proof fn law_camera_key_mirrors_camera(state: TeamsState, configured: bool)
    ensures
        ({
            let d = CameraControl::display_for(state, configured);
            &&& configured && state.in_call == Some(true) ==> {
                &&& d.state_index == 0 <==> state.camera_on == Some(true)
                &&& d.image == Icon::CamOn <==> state.camera_on == Some(true)
                &&& d.image == Icon::CamOff <==> state.camera_on != Some(true)
                &&& d.title == (if state.camera_on == Some(true) { "CAM"@ } else { "CAM OFF"@ })
            }
            &&& !(configured && state.in_call == Some(true)) ==> {
                &&& d.state_index == 0
                &&& d.image == Icon::CamDisabled
                &&& d.title == (if configured { "OFF"@ } else { "SETUP"@ })
            }
            &&& d == CameraControl::display_for(TeamsState { muted: false, ..state }, configured)
        }),
{
}

/// The hand key always shows its first state; its image is the active one
/// exactly when a press would act.
pub proof fn law_hand_key_shows_readiness(state: TeamsState, configured: bool)
    ensures
        ({
            let d = HandControl::display_for(state, configured);
            &&& d.state_index == 0
            &&& d.image == Icon::HandOn <==> ready_to_act(state, configured)
            &&& d.image == Icon::HandDisabled <==> !ready_to_act(state, configured)
            &&& d.title == (if !configured { "SETUP"@ } else if state.in_call != Some(true) {
                "OFF"@
            } else {
                "HAND"@
            })
        }),
{
}

} // verus!
