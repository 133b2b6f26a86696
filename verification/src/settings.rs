//! Settings: property-inspector values layered over an optional config file
//! and built-in defaults.
use vstd::prelude::*;

use crate::text::{
    chars_of, is_white_space, law_trim_end_removes_trailing_space, parse_u16, parsed_u16, trim, trim_end, trim_slashes, trimmed, trimmed_end,
    without_slashes,
};

verus! {

broadcast use vstd::string::group_string_axioms;

/// Raw per-instance settings as the property inspector stores them: all
/// strings, an empty (or all-blank) field inherits.
#[derive(Debug, Clone, PartialEq, Eq, Default)]
pub struct PiSettings {
    pub broker_host: String,
    pub broker_port: String,
    pub username: String,
    pub password: String,
    pub topic_prefix: String,
    pub microphone_topic: String,
    pub microphone_control_topic: String,
    pub in_call_topic: String,
    pub command_topic: String,
}

/// The optional declarative config file; every key may be absent.
#[derive(Debug, Clone, PartialEq, Eq, Default)]
pub struct FileSettings {
    pub broker_host: Option<String>,
    pub broker_port: Option<u16>,
    pub username: Option<String>,
    pub password: Option<String>,
    /// Path to a file whose contents, trailing white space removed, become
    /// the password. Wins over `password`.
    pub password_file: Option<String>,
    pub topic_prefix: Option<String>,
    pub microphone_topic: Option<String>,
    pub microphone_control_topic: Option<String>,
    pub in_call_topic: Option<String>,
    pub command_topic: Option<String>,
}

/// Fully resolved, ready-to-use settings.
#[derive(Debug, Clone, PartialEq, Eq)]
pub struct Resolved {
    pub broker_host: String,
    pub broker_port: u16,
    pub username: String,
    pub password: String,
    pub topic_prefix: String,
    pub microphone_suffix: String,
    pub microphone_control_suffix: String,
    pub in_call_suffix: String,
    pub command_suffix: String,
    pub configured: bool,
}

/// Resolved settings as plain values.
pub struct ResolvedView {
    pub broker_host: Seq<char>,
    pub broker_port: u16,
    pub username: Seq<char>,
    pub password: Seq<char>,
    pub topic_prefix: Seq<char>,
    pub microphone_suffix: Seq<char>,
    pub microphone_control_suffix: Seq<char>,
    pub in_call_suffix: Seq<char>,
    pub command_suffix: Seq<char>,
    pub configured: bool,
}

impl View for Resolved {
    type V = ResolvedView;

    open spec fn view(&self) -> ResolvedView {
        ResolvedView {
            broker_host: self.broker_host@,
            broker_port: self.broker_port,
            username: self.username@,
            password: self.password@,
            topic_prefix: self.topic_prefix@,
            microphone_suffix: self.microphone_suffix@,
            microphone_control_suffix: self.microphone_control_suffix@,
            in_call_suffix: self.in_call_suffix@,
            command_suffix: self.command_suffix@,
            configured: self.configured,
        }
    }
}

pub open spec fn opt_view(o: Option<String>) -> Option<Seq<char>> {
    match o {
        Some(s) => Some(s@),
        None => None,
    }
}

/// A field set in the property inspector: something other than white space.
pub open spec fn is_set(s: Seq<char>) -> bool {
    trimmed(s).len() > 0
}

/// True if anything at all is set in the property inspector.
pub open spec fn any_pi_set(pi: PiSettings) -> bool {
    ||| is_set(pi.broker_host@)
    ||| is_set(pi.broker_port@)
    ||| is_set(pi.username@)
    ||| is_set(pi.password@)
    ||| is_set(pi.topic_prefix@)
    ||| is_set(pi.microphone_topic@)
    ||| is_set(pi.microphone_control_topic@)
    ||| is_set(pi.in_call_topic@)
    ||| is_set(pi.command_topic@)
}

/// One string setting: a set property-inspector value (trimmed) wins, then a
/// config-file value (trimmed, even if blank), then the default.
pub open spec fn layered(pi: Seq<char>, file: Option<Seq<char>>, default: Seq<char>) -> Seq<char> {
    if is_set(pi) {
        trimmed(pi)
    } else {
        match file {
            Some(v) => trimmed(v),
            None => default,
        }
    }
}

/// The port: a property-inspector value that parses as a `u16` wins, then
/// the config file, then 1883.
pub open spec fn layered_port(pi: Seq<char>, file: Option<u16>) -> u16 {
    match parsed_u16(trimmed(pi)) {
        Some(p) => p,
        None => match file {
            Some(p) => p,
            None => 1883,
        },
    }
}

/// Defaults < config file < non-empty property-inspector fields.
pub open spec fn resolution(file: Option<FileSettings>, pi: PiSettings) -> ResolvedView {
    let f = match file {
        Some(f) => f,
        None => FileSettings {
            broker_host: None,
            broker_port: None,
            username: None,
            password: None,
            password_file: None,
            topic_prefix: None,
            microphone_topic: None,
            microphone_control_topic: None,
            in_call_topic: None,
            command_topic: None,
        },
    };
    ResolvedView {
        broker_host: layered(pi.broker_host@, opt_view(f.broker_host), "127.0.0.1"@),
        broker_port: layered_port(pi.broker_port@, f.broker_port),
        username: layered(pi.username@, opt_view(f.username), ""@),
        password: layered(pi.password@, opt_view(f.password), ""@),
        topic_prefix: layered(pi.topic_prefix@, opt_view(f.topic_prefix), "teams"@),
        microphone_suffix: layered(pi.microphone_topic@, opt_view(f.microphone_topic), "microphone"@),
        microphone_control_suffix: layered(
            pi.microphone_control_topic@,
            opt_view(f.microphone_control_topic),
            "microphone/control"@,
        ),
        in_call_suffix: layered(pi.in_call_topic@, opt_view(f.in_call_topic), "in-call"@),
        command_suffix: layered(pi.command_topic@, opt_view(f.command_topic), "command"@),
        configured: file is Some || any_pi_set(pi),
    }
}

/// `prefix/suffix` with stray slashes trimmed from both parts.
pub open spec fn topic_path(prefix: Seq<char>, suffix: Seq<char>) -> Seq<char> {
    without_slashes(prefix) + "/"@ + without_slashes(suffix)
}

fn is_set_field(s: &String) -> (r: bool)
    ensures
        r == is_set(s@),
{
    let t = trim(s.as_str());
    !t.as_str().is_empty()
}

impl PiSettings {
    /// True if the user has set anything at all in the property inspector.
    pub fn any_set(&self) -> (r: bool)
        ensures
            r == any_pi_set(*self),
    {
        is_set_field(&self.broker_host) || is_set_field(&self.broker_port) || is_set_field(
            &self.username,
        ) || is_set_field(&self.password) || is_set_field(&self.topic_prefix) || is_set_field(
            &self.microphone_topic,
        ) || is_set_field(&self.microphone_control_topic) || is_set_field(&self.in_call_topic)
            || is_set_field(&self.command_topic)
    }
}

/// `prefix/suffix` with stray slashes trimmed from both parts.
pub fn join_topic(prefix: &str, suffix: &str) -> (r: String)
    ensures
        r@ == topic_path(prefix@, suffix@),
{
    let mut r = trim_slashes(prefix);
    r.append("/");
    let s = trim_slashes(suffix);
    r.append(s.as_str());
    r
}

fn pick(pi_value: &String, file_value: &Option<String>, default: &str) -> (r: String)
    ensures
        r@ == layered(pi_value@, opt_view(*file_value), default@),
{
    let pi_trimmed = trim(pi_value.as_str());
    if !pi_trimmed.as_str().is_empty() {
        pi_trimmed
    } else {
        match file_value {
            Some(v) => trim(v.as_str()),
            None => default.to_owned(),
        }
    }
}

/// Layer: defaults < file < non-empty PI fields.
pub fn resolve(file: Option<&FileSettings>, pi: &PiSettings) -> (r: Resolved)
    ensures
        r@ == resolution(
            match file {
                Some(f) => Some(*f),
                None => None,
            },
            *pi,
        ),
{
    let none: Option<String> = None;
    let (host, port, user, pass, prefix, mic, control, in_call, command) = match file {
        Some(f) => (
            &f.broker_host,
            f.broker_port,
            &f.username,
            &f.password,
            &f.topic_prefix,
            &f.microphone_topic,
            &f.microphone_control_topic,
            &f.in_call_topic,
            &f.command_topic,
        ),
        None => (&none, None, &none, &none, &none, &none, &none, &none, &none),
    };
    let pi_port = parse_u16(trim(pi.broker_port.as_str()).as_str());
    let broker_port = match pi_port {
        Some(p) => p,
        None => match port {
            Some(p) => p,
            None => 1883,
        },
    };
    let configured = file.is_some() || pi.any_set();
    Resolved {
        broker_host: pick(&pi.broker_host, host, "127.0.0.1"),
        broker_port,
        username: pick(&pi.username, user, ""),
        password: pick(&pi.password, pass, ""),
        topic_prefix: pick(&pi.topic_prefix, prefix, "teams"),
        microphone_suffix: pick(&pi.microphone_topic, mic, "microphone"),
        microphone_control_suffix: pick(
            &pi.microphone_control_topic,
            control,
            "microphone/control",
        ),
        in_call_suffix: pick(&pi.in_call_topic, in_call, "in-call"),
        command_suffix: pick(&pi.command_topic, command, "command"),
        configured,
    }
}

impl Resolved {
    /// `prefix/microphone`.
    pub fn microphone_topic(&self) -> (r: String)
        ensures
            r@ == topic_path(self.topic_prefix@, self.microphone_suffix@),
    {
        join_topic(self.topic_prefix.as_str(), self.microphone_suffix.as_str())
    }

    /// `prefix/microphone-control`.
    pub fn microphone_control_topic(&self) -> (r: String)
        ensures
            r@ == topic_path(self.topic_prefix@, self.microphone_control_suffix@),
    {
        join_topic(self.topic_prefix.as_str(), self.microphone_control_suffix.as_str())
    }

    /// `prefix/in-call`.
    pub fn in_call_topic(&self) -> (r: String)
        ensures
            r@ == topic_path(self.topic_prefix@, self.in_call_suffix@),
    {
        join_topic(self.topic_prefix.as_str(), self.in_call_suffix.as_str())
    }

    /// `prefix/command`.
    pub fn command_topic(&self) -> (r: String)
        ensures
            r@ == topic_path(self.topic_prefix@, self.command_suffix@),
    {
        join_topic(self.topic_prefix.as_str(), self.command_suffix.as_str())
    }

    /// Field-by-field equality.
    pub fn same_as(&self, other: &Resolved) -> (r: bool)
        ensures
            r == (self@ == other@),
    {
        self.broker_host == other.broker_host && self.broker_port == other.broker_port
            && self.username == other.username && self.password == other.password
            && self.topic_prefix == other.topic_prefix && self.microphone_suffix
            == other.microphone_suffix && self.microphone_control_suffix
            == other.microphone_control_suffix && self.in_call_suffix == other.in_call_suffix
            && self.command_suffix == other.command_suffix && self.configured
            == other.configured
    }

    /// An owned copy with the same values.
    pub fn copied(&self) -> (r: Resolved)
        ensures
            r@ == self@,
    {
        Resolved {
            broker_host: self.broker_host.clone(),
            broker_port: self.broker_port,
            username: self.username.clone(),
            password: self.password.clone(),
            topic_prefix: self.topic_prefix.clone(),
            microphone_suffix: self.microphone_suffix.clone(),
            microphone_control_suffix: self.microphone_control_suffix.clone(),
            in_call_suffix: self.in_call_suffix.clone(),
            command_suffix: self.command_suffix.clone(),
            configured: self.configured,
        }
    }

    /// The effective values the property inspector shows as placeholders.
    /// The password itself is never included, only whether one is set.
    pub fn effective(&self) -> (e: EffectiveSettings)
        ensures
            e.broker_host@ == self.broker_host@,
            e.broker_port == self.broker_port,
            e.username@ == self.username@,
            e.password_set == (self.password@.len() > 0),
            e.topic_prefix@ == self.topic_prefix@,
            e.microphone_topic@ == self.microphone_suffix@,
            e.microphone_control_topic@ == self.microphone_control_suffix@,
            e.in_call_topic@ == self.in_call_suffix@,
            e.command_topic@ == self.command_suffix@,
    {
        EffectiveSettings {
            broker_host: self.broker_host.clone(),
            broker_port: self.broker_port,
            username: self.username.clone(),
            password_set: !self.password.as_str().is_empty(),
            topic_prefix: self.topic_prefix.clone(),
            microphone_topic: self.microphone_suffix.clone(),
            microphone_control_topic: self.microphone_control_suffix.clone(),
            in_call_topic: self.in_call_suffix.clone(),
            command_topic: self.command_suffix.clone(),
        }
    }
}

/// What the property inspector is told about the settings in effect: every
/// value but the password, of which only whether it is set.
#[derive(Debug, Clone, PartialEq, Eq)]
pub struct EffectiveSettings {
    pub broker_host: String,
    pub broker_port: u16,
    pub username: String,
    pub password_set: bool,
    pub topic_prefix: String,
    pub microphone_topic: String,
    pub microphone_control_topic: String,
    pub in_call_topic: String,
    pub command_topic: String,
}

impl FileSettings {
    /// The config file's `password_file` step: when `password_file` is set
    /// and its contents could be read, they become the password with only
    /// trailing white space removed (leading white space is kept on
    /// purpose). An unreadable file leaves the inline password in place.
    pub fn use_password_file(&mut self, contents: Option<&str>)
        ensures
            (old(self).password_file is Some && contents is Some) ==> final(self).password
                is Some && final(self).password->0@ == trimmed_end(contents->0@),
            !(old(self).password_file is Some && contents is Some) ==> final(self).password
                == old(self).password,
            final(self).broker_host == old(self).broker_host,
            final(self).broker_port == old(self).broker_port,
            final(self).username == old(self).username,
            final(self).password_file == old(self).password_file,
            final(self).topic_prefix == old(self).topic_prefix,
            final(self).microphone_topic == old(self).microphone_topic,
            final(self).microphone_control_topic == old(self).microphone_control_topic,
            final(self).in_call_topic == old(self).in_call_topic,
            final(self).command_topic == old(self).command_topic,
            (old(self).password_file is Some && contents is Some) ==> {
                let pw = final(self).password->0@;
                let text = contents->0@;
                &&& pw.len() <= text.len()
                &&& pw == text.take(pw.len() as int)
                &&& forall|i: int| pw.len() <= i < text.len() ==> is_white_space(#[trigger] text[i])
                &&& pw.len() == 0 || !is_white_space(pw.last())
            },
    {
        if self.password_file.is_some() {
            if let Some(pw) = contents {
                proof {
                    law_trim_end_removes_trailing_space(pw@);
                }
                self.password = Some(trim_end(pw));
            }
        }
    }
}

/// `PathBuf::join` of a relative component: a separator is added unless the
/// base is empty or already ends in one.
pub open spec fn path_join(base: Seq<char>, rel: Seq<char>) -> Seq<char> {
    if base.len() > 0 && base.last() != '/' {
        base + "/"@ + rel
    } else {
        base + rel
    }
}

/// The configuration directory: `$XDG_CONFIG_HOME` when it is an absolute
/// path, else `$HOME/.config` when `HOME` is non-empty, else `/.config`.
pub open spec fn config_base(xdg_config_home: Option<Seq<char>>, home: Option<Seq<char>>) -> Seq<
    char,
> {
    if xdg_config_home is Some && xdg_config_home->0.len() > 0 && xdg_config_home->0[0] == '/' {
        xdg_config_home->0
    } else if home is Some && home->0.len() > 0 {
        path_join(home->0, ".config"@)
    } else {
        path_join("/"@, ".config"@)
    }
}

/// `<config dir>/opendeck-teams-for-linux/config.toml`.
pub open spec fn config_path(xdg_config_home: Option<Seq<char>>, home: Option<Seq<char>>) -> Seq<
    char,
> {
    path_join(
        path_join(config_base(xdg_config_home, home), "opendeck-teams-for-linux"@),
        "config.toml"@,
    )
}

fn join_path(base: String, rel: &str) -> (r: String)
    ensures
        r@ == path_join(base@, rel@),
{
    let v = chars_of(base.as_str());
    let mut r = base;
    if v.len() > 0 && v[v.len() - 1] != '/' {
        r.append("/");
    }
    r.append(rel);
    r
}

fn is_absolute(p: &str) -> (r: bool)
    ensures
        r == (p@.len() > 0 && p@[0] == '/'),
{
    let v = chars_of(p);
    v.len() > 0 && v[0] == '/'
}

/// Where the config file lives, given the values of the environment
/// variables `XDG_CONFIG_HOME` and `HOME` (`None` when unset).
pub fn config_file_path(xdg_config_home: Option<&str>, home: Option<&str>) -> (r: String)
    ensures
        r@ == config_path(
            match xdg_config_home {
                Some(x) => Some(x@),
                None => None,
            },
            match home {
                Some(h) => Some(h@),
                None => None,
            },
        ),
{
    let base = match xdg_config_home {
        Some(x) if is_absolute(x) => x.to_owned(),
        _ => match home {
            Some(h) if !h.is_empty() => join_path(h.to_owned(), ".config"),
            _ => join_path("/".to_owned(), ".config"),
        },
    };
    join_path(join_path(base, "opendeck-teams-for-linux"), "config.toml")
}

/// Resolution order, defaults < config file < property inspector: a set
/// inspector field wins whatever the file says; an unset one takes the
/// file's value when the file has the key, and the default otherwise.
pub proof fn law_layers(pi: Seq<char>, file: Option<Seq<char>>, default: Seq<char>)
    ensures
        is_set(pi) ==> layered(pi, file, default) == trimmed(pi),
        !is_set(pi) && file is Some ==> layered(pi, file, default) == trimmed(file->0),
        !is_set(pi) && file is None ==> layered(pi, file, default) == default,
{
}

/// The plugin counts as configured exactly when a config file was read or
/// some inspector field is set; with neither, every value is the default.
pub proof fn law_configured(file: Option<FileSettings>, pi: PiSettings)
    ensures
        resolution(file, pi).configured <==> (file is Some || any_pi_set(pi)),
        (file is None && !any_pi_set(pi)) ==> {
            let r = resolution(file, pi);
            &&& r.broker_host == "127.0.0.1"@
            &&& r.broker_port == 1883
            &&& r.username == ""@
            &&& r.password == ""@
            &&& r.topic_prefix == "teams"@
            &&& r.microphone_suffix == "microphone"@
            &&& r.microphone_control_suffix == "microphone/control"@
            &&& r.in_call_suffix == "in-call"@
            &&& r.command_suffix == "command"@
        },
{
}

/// Every setting, the password included, comes from the inspector when the
/// inspector sets it (trimmed), and otherwise from the config file when the
/// file has the key (trimmed); the port likewise, from an inspector value that
/// parses as a port, else the file.
pub proof fn law_inspector_over_file(f: FileSettings, pi: PiSettings)
    ensures
        ({
            let file = Some(f);
            &&& parsed_u16(trimmed(pi.broker_port@)) matches Some(p) ==> resolution(file, pi).broker_port == p
            &&& parsed_u16(trimmed(pi.broker_port@)) is None && f.broker_port is Some
                ==> resolution(file, pi).broker_port == f.broker_port->0
        }),
        is_set(pi.broker_host@) ==> resolution(Some(f), pi).broker_host == trimmed(pi.broker_host@),
        is_set(pi.username@) ==> resolution(Some(f), pi).username == trimmed(pi.username@),
        is_set(pi.password@) ==> resolution(Some(f), pi).password == trimmed(pi.password@),
        is_set(pi.topic_prefix@) ==> resolution(Some(f), pi).topic_prefix == trimmed(pi.topic_prefix@),
        is_set(pi.microphone_topic@) ==> resolution(Some(f), pi).microphone_suffix == trimmed(pi.microphone_topic@),
        is_set(pi.microphone_control_topic@) ==> resolution(Some(f), pi).microphone_control_suffix == trimmed(pi.microphone_control_topic@),
        is_set(pi.in_call_topic@) ==> resolution(Some(f), pi).in_call_suffix == trimmed(pi.in_call_topic@),
        is_set(pi.command_topic@) ==> resolution(Some(f), pi).command_suffix == trimmed(pi.command_topic@),
        !is_set(pi.broker_host@) && f.broker_host is Some ==> resolution(Some(f), pi).broker_host == trimmed(f.broker_host->0@),
        !is_set(pi.username@) && f.username is Some ==> resolution(Some(f), pi).username == trimmed(f.username->0@),
        !is_set(pi.password@) && f.password is Some ==> resolution(Some(f), pi).password == trimmed(f.password->0@),
        !is_set(pi.topic_prefix@) && f.topic_prefix is Some ==> resolution(Some(f), pi).topic_prefix == trimmed(f.topic_prefix->0@),
        !is_set(pi.microphone_topic@) && f.microphone_topic is Some ==> resolution(Some(f), pi).microphone_suffix == trimmed(f.microphone_topic->0@),
        !is_set(pi.microphone_control_topic@) && f.microphone_control_topic is Some ==> resolution(Some(f), pi).microphone_control_suffix == trimmed(f.microphone_control_topic->0@),
        !is_set(pi.in_call_topic@) && f.in_call_topic is Some ==> resolution(Some(f), pi).in_call_suffix == trimmed(f.in_call_topic->0@),
        !is_set(pi.command_topic@) && f.command_topic is Some ==> resolution(Some(f), pi).command_suffix == trimmed(f.command_topic->0@),
{
}

/// Without a config file, an unset inspector field takes its default.
pub proof fn law_defaults_fill_unset_fields(pi: PiSettings)
    ensures
        !is_set(pi.broker_host@) ==> resolution(None, pi).broker_host == "127.0.0.1"@,
        parsed_u16(trimmed(pi.broker_port@)) is None ==> resolution(None, pi).broker_port == 1883,
        !is_set(pi.username@) ==> resolution(None, pi).username == ""@,
        !is_set(pi.password@) ==> resolution(None, pi).password == ""@,
        !is_set(pi.topic_prefix@) ==> resolution(None, pi).topic_prefix == "teams"@,
        !is_set(pi.microphone_topic@) ==> resolution(None, pi).microphone_suffix == "microphone"@,
        !is_set(pi.microphone_control_topic@) ==> resolution(None, pi).microphone_control_suffix
            == "microphone/control"@,
        !is_set(pi.in_call_topic@) ==> resolution(None, pi).in_call_suffix == "in-call"@,
        !is_set(pi.command_topic@) ==> resolution(None, pi).command_suffix == "command"@,
{
}

/// No slash at either end of `s`.
pub open spec fn slash_free_ends(s: Seq<char>) -> bool {
    s.len() > 0 && s[0] != '/' && s.last() != '/'
}

/// A topic part with no slash at either end is used as it is: the topic is
/// the prefix, one `/`, and the suffix.
pub proof fn law_topic_is_prefix_slash_suffix(prefix: Seq<char>, suffix: Seq<char>)
    ensures
        slash_free_ends(prefix) && slash_free_ends(suffix) ==> topic_path(prefix, suffix) == prefix
            + "/"@ + suffix,
{
    let p = |c: char| c == '/';
    if slash_free_ends(prefix) && slash_free_ends(suffix) {
        crate::text::lemma_strip_start_at(prefix, p, 0);
        assert(prefix.skip(0) =~= prefix);
        crate::text::lemma_strip_end_at(prefix, p, prefix.len() as int);
        assert(prefix.take(prefix.len() as int) =~= prefix);
        crate::text::lemma_strip_start_at(suffix, p, 0);
        assert(suffix.skip(0) =~= suffix);
        crate::text::lemma_strip_end_at(suffix, p, suffix.len() as int);
        assert(suffix.take(suffix.len() as int) =~= suffix);
    }
}

/// Where the config file lives: under `$XDG_CONFIG_HOME` when that is an
/// absolute path, whatever `HOME` is; else under `$HOME/.config` when `HOME`
/// is set and non-empty; else under `/.config`. The file is always
/// `opendeck-teams-for-linux/config.toml` below that directory.
pub proof fn law_config_file_location(xdg: Option<Seq<char>>, home: Option<Seq<char>>)
    ensures
        ({
            let tail = "opendeck-teams-for-linux"@ + "/"@ + "config.toml"@;
            let x = xdg->0;
            let h = home->0;
            let xdg_absolute = xdg is Some && x.len() > 0 && x[0] == '/';
            &&& xdg_absolute && x.last() != '/' ==> config_path(xdg, home) == x + "/"@ + tail
            &&& xdg_absolute && x.last() == '/' ==> config_path(xdg, home) == x + tail
            &&& !xdg_absolute && home is Some && h.len() > 0 && h.last() != '/' ==> config_path(
                xdg,
                home,
            ) == h + "/"@ + ".config"@ + "/"@ + tail
            &&& !xdg_absolute && !(home is Some && h.len() > 0) ==> config_path(xdg, home) == "/"@
                + ".config"@ + "/"@ + tail
        }),
{
    reveal_strlit("opendeck-teams-for-linux");
    reveal_strlit(".config");
    reveal_strlit("/");
    reveal_strlit("config.toml");
    let dir = "opendeck-teams-for-linux"@;
    let tail = dir + "/"@ + "config.toml"@;
    assert(dir.len() > 0 && dir.last() != '/');
    assert(".config"@.len() > 0 && ".config"@.last() != '/');
    let base = config_base(xdg, home);
    assert(path_join(base, dir).len() > 0);
    assert((base + "/"@ + dir).last() == dir.last());
    assert((base + dir).last() == dir.last());
    assert(base + "/"@ + dir + "/"@ + "config.toml"@ =~= base + "/"@ + tail);
    assert(base + dir + "/"@ + "config.toml"@ =~= base + tail);
    if !(xdg is Some && xdg->0.len() > 0 && xdg->0[0] == '/') {
        if home is Some {
            let h = home->0;
            if h.len() > 0 && h.last() != '/' {
                let b = h + "/"@ + ".config"@;
                assert(b.last() == ".config"@.last());
                assert(b + "/"@ + tail =~= h + "/"@ + ".config"@ + "/"@ + tail);
            }
        }
        let root = "/"@ + ".config"@;
        assert(root.last() == ".config"@.last());
        assert("/"@.last() == '/');
        assert(root + "/"@ + tail =~= "/"@ + ".config"@ + "/"@ + tail);
    }
}

/// Any single inspector field set to something other than white space makes
/// the plugin configured, even without a config file; a config file alone
/// does too; with neither, it is not configured.
pub proof fn law_any_field_configures(file: Option<FileSettings>, pi: PiSettings)
    ensures
        is_set(pi.broker_host@) ==> resolution(file, pi).configured,
        is_set(pi.broker_port@) ==> resolution(file, pi).configured,
        is_set(pi.username@) ==> resolution(file, pi).configured,
        is_set(pi.password@) ==> resolution(file, pi).configured,
        is_set(pi.topic_prefix@) ==> resolution(file, pi).configured,
        is_set(pi.microphone_topic@) ==> resolution(file, pi).configured,
        is_set(pi.microphone_control_topic@) ==> resolution(file, pi).configured,
        is_set(pi.in_call_topic@) ==> resolution(file, pi).configured,
        is_set(pi.command_topic@) ==> resolution(file, pi).configured,
        file is Some ==> resolution(file, pi).configured,
        file is None && !is_set(pi.broker_host@) && !is_set(pi.broker_port@) && !is_set(pi.username@) && !is_set(pi.password@) && !is_set(pi.topic_prefix@) && !is_set(pi.microphone_topic@) && !is_set(pi.microphone_control_topic@) && !is_set(pi.in_call_topic@) && !is_set(pi.command_topic@) ==> !resolution(file, pi).configured,
{
}

} // verus!
