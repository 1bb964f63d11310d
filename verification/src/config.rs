//! The configuration: where its file is looked for, and what the file says.

use crate::failure::{IoError, IoErrorView};
use crate::net::{addresses_are_read_as_written, read_ipv4, Ipv4Addr};
use crate::number::{decimal, decimal_digit, decimal_is_positional, decimal_round_trip, hex_digit, hex_digit_round_trip, hex_digit_str, hex_digit_value, hex_value, parse_number, read_number};
use crate::text::{after, before, chars_of, fields, find, first_separator_splits, is_space, join, joined_parts_are_the_fields, lemma_fields_prepend, lemma_find, lemma_find_unique, lemma_trim, lemma_trim_back_splits, lemma_trim_ignores_trailing_space, lines, part_before, same_text, split_fields, split_lines, split_once, trim, trim_back, trim_leaves_the_core, trimmed, views};
use vstd::hash_map::StringHashMap;
use vstd::prelude::*;

verus! {

/// Seconds without input after which the screen counts as idle, where the file does not say.
pub const DEFAULT_IDLE_TIMEOUT: u64 = 300;

/// Which idle monitor is used.
#[derive(Debug, Clone, Copy, PartialEq, Eq, Structural)]
pub enum ScreenBackend {
    /// Whichever is found.
    Auto,
    /// The one of GNOME.
    Gnome,
    /// `swayidle`.
    Swayidle,
}

impl ScreenBackend {
    /// The name of the backend.
    pub open spec fn text(self) -> Seq<char> {
        match self {
            ScreenBackend::Auto => "auto"@,
            ScreenBackend::Gnome => "gnome"@,
            ScreenBackend::Swayidle => "swayidle"@,
        }
    }

    /// The backend that a text names.
    pub open spec fn read(s: Seq<char>) -> Option<ScreenBackend> {
        if s == "auto"@ {
            Some(ScreenBackend::Auto)
        } else if s == "gnome"@ {
            Some(ScreenBackend::Gnome)
        } else if s == "swayidle"@ {
            Some(ScreenBackend::Swayidle)
        } else {
            None
        }
    }

    /// The name of the backend.
    pub fn as_str(&self) -> (name: &'static str)
        ensures
            name@ == self.text(),
    {
        match self {
            ScreenBackend::Auto => "auto",
            ScreenBackend::Gnome => "gnome",
            ScreenBackend::Swayidle => "swayidle",
        }
    }

    /// The backend that `value` names.
    pub fn parse(value: &str) -> (backend: Option<ScreenBackend>)
        ensures
            backend == ScreenBackend::read(value@),
    {
        if same_text(value, "auto") {
            Some(ScreenBackend::Auto)
        } else if same_text(value, "gnome") {
            Some(ScreenBackend::Gnome)
        } else if same_text(value, "swayidle") {
            Some(ScreenBackend::Swayidle)
        } else {
            None
        }
    }
}

impl std::str::FromStr for ScreenBackend {
    type Err = ();

    fn from_str(value: &str) -> (backend: Result<Self, ()>)
        ensures
            backend == (match ScreenBackend::read(value@) {
                Some(found) => Ok(found),
                None => Err(()),
            }),
    {
        match ScreenBackend::parse(value) {
            Some(backend) => Ok(backend),
            None => Err(()),
        }
    }
}

/// When a screen that went off is put back on.
#[derive(Debug, Clone, Copy, PartialEq, Eq, Structural)]
pub enum ScreenRestorePolicy {
    /// Only where the marker says that it was put off here.
    MarkerOnly,
    /// In any case.
    Aggressive,
}

impl ScreenRestorePolicy {
    /// The name of the policy.
    pub open spec fn text(self) -> Seq<char> {
        match self {
            ScreenRestorePolicy::MarkerOnly => "marker_only"@,
            ScreenRestorePolicy::Aggressive => "aggressive"@,
        }
    }

    /// The policy that a text names. `conservative` is another name of `marker_only`.
    pub open spec fn read(s: Seq<char>) -> Option<ScreenRestorePolicy> {
        if s == "marker_only"@ || s == "conservative"@ {
            Some(ScreenRestorePolicy::MarkerOnly)
        } else if s == "aggressive"@ {
            Some(ScreenRestorePolicy::Aggressive)
        } else {
            None
        }
    }

    /// The name of the policy.
    pub fn as_str(&self) -> (name: &'static str)
        ensures
            name@ == self.text(),
    {
        match self {
            ScreenRestorePolicy::MarkerOnly => "marker_only",
            ScreenRestorePolicy::Aggressive => "aggressive",
        }
    }

    /// The policy that `value` names.
    pub fn parse(value: &str) -> (policy: Option<ScreenRestorePolicy>)
        ensures
            policy == ScreenRestorePolicy::read(value@),
    {
        if same_text(value, "marker_only") || same_text(value, "conservative") {
            Some(ScreenRestorePolicy::MarkerOnly)
        } else if same_text(value, "aggressive") {
            Some(ScreenRestorePolicy::Aggressive)
        } else {
            None
        }
    }
}

impl std::str::FromStr for ScreenRestorePolicy {
    type Err = ();

    fn from_str(value: &str) -> (policy: Result<Self, ()>)
        ensures
            policy == (match ScreenRestorePolicy::read(value@) {
                Some(found) => Ok(found),
                None => Err(()),
            }),
    {
        match ScreenRestorePolicy::parse(value) {
            Some(policy) => Ok(policy),
            None => Err(()),
        }
    }
}

/// An HDMI port of the television.
#[derive(Debug, Clone, Copy, PartialEq, Eq, Structural)]
pub enum HdmiInput {
    /// Port 1.
    Hdmi1,
    /// Port 2.
    Hdmi2,
    /// Port 3.
    Hdmi3,
    /// Port 4.
    Hdmi4,
}

impl HdmiInput {
    /// The name of the port.
    pub open spec fn text(self) -> Seq<char> {
        match self {
            HdmiInput::Hdmi1 => "HDMI_1"@,
            HdmiInput::Hdmi2 => "HDMI_2"@,
            HdmiInput::Hdmi3 => "HDMI_3"@,
            HdmiInput::Hdmi4 => "HDMI_4"@,
        }
    }

    /// The application that the television shows for the port.
    pub open spec fn app_id(self) -> Seq<char> {
        match self {
            HdmiInput::Hdmi1 => "com.webos.app.hdmi1"@,
            HdmiInput::Hdmi2 => "com.webos.app.hdmi2"@,
            HdmiInput::Hdmi3 => "com.webos.app.hdmi3"@,
            HdmiInput::Hdmi4 => "com.webos.app.hdmi4"@,
        }
    }

    /// The port that a text names.
    pub open spec fn read(s: Seq<char>) -> Option<HdmiInput> {
        if s == "HDMI_1"@ {
            Some(HdmiInput::Hdmi1)
        } else if s == "HDMI_2"@ {
            Some(HdmiInput::Hdmi2)
        } else if s == "HDMI_3"@ {
            Some(HdmiInput::Hdmi3)
        } else if s == "HDMI_4"@ {
            Some(HdmiInput::Hdmi4)
        } else {
            None
        }
    }

    /// The port that an application stands for.
    pub open spec fn read_app_id(s: Seq<char>) -> Option<HdmiInput> {
        if s == "com.webos.app.hdmi1"@ {
            Some(HdmiInput::Hdmi1)
        } else if s == "com.webos.app.hdmi2"@ {
            Some(HdmiInput::Hdmi2)
        } else if s == "com.webos.app.hdmi3"@ {
            Some(HdmiInput::Hdmi3)
        } else if s == "com.webos.app.hdmi4"@ {
            Some(HdmiInput::Hdmi4)
        } else {
            None
        }
    }

    /// The name of the port.
    pub fn as_str(&self) -> (name: &'static str)
        ensures
            name@ == self.text(),
    {
        match self {
            HdmiInput::Hdmi1 => "HDMI_1",
            HdmiInput::Hdmi2 => "HDMI_2",
            HdmiInput::Hdmi3 => "HDMI_3",
            HdmiInput::Hdmi4 => "HDMI_4",
        }
    }

    /// The application that the television shows for the port.
    pub fn expected_app_id(&self) -> (id: &'static str)
        ensures
            id@ == self.app_id(),
    {
        match self {
            HdmiInput::Hdmi1 => "com.webos.app.hdmi1",
            HdmiInput::Hdmi2 => "com.webos.app.hdmi2",
            HdmiInput::Hdmi3 => "com.webos.app.hdmi3",
            HdmiInput::Hdmi4 => "com.webos.app.hdmi4",
        }
    }

    /// The port that an application stands for.
    pub fn from_app_id(value: &str) -> (input: Option<HdmiInput>)
        ensures
            input == HdmiInput::read_app_id(value@),
    {
        if same_text(value, "com.webos.app.hdmi1") {
            Some(HdmiInput::Hdmi1)
        } else if same_text(value, "com.webos.app.hdmi2") {
            Some(HdmiInput::Hdmi2)
        } else if same_text(value, "com.webos.app.hdmi3") {
            Some(HdmiInput::Hdmi3)
        } else if same_text(value, "com.webos.app.hdmi4") {
            Some(HdmiInput::Hdmi4)
        } else {
            None
        }
    }

    /// The port that `value` names.
    pub fn parse(value: &str) -> (input: Option<HdmiInput>)
        ensures
            input == HdmiInput::read(value@),
    {
        if same_text(value, "HDMI_1") {
            Some(HdmiInput::Hdmi1)
        } else if same_text(value, "HDMI_2") {
            Some(HdmiInput::Hdmi2)
        } else if same_text(value, "HDMI_3") {
            Some(HdmiInput::Hdmi3)
        } else if same_text(value, "HDMI_4") {
            Some(HdmiInput::Hdmi4)
        } else {
            None
        }
    }
}

impl std::str::FromStr for HdmiInput {
    type Err = ();

    fn from_str(value: &str) -> (input: Result<Self, ()>)
        ensures
            input == (match HdmiInput::read(value@) {
                Some(found) => Ok(found),
                None => Err(()),
            }),
    {
        match HdmiInput::parse(value) {
            Some(input) => Ok(input),
            None => Err(()),
        }
    }
}

/// The hardware address of a network interface, as its six octets.
#[derive(Debug, Clone, Copy, PartialEq, Eq, Structural)]
pub struct MacAddress {
    /// The first octet.
    pub a: u8,
    /// The second octet.
    pub b: u8,
    /// The third octet.
    pub c: u8,
    /// The fourth octet.
    pub d: u8,
    /// The fifth octet.
    pub e: u8,
    /// The sixth octet.
    pub f: u8,
}

/// The octet that two characters write: two hexadecimal digits, or a plus sign and one.
pub open spec fn read_mac_octet(s: Seq<char>) -> Option<u8> {
    if s.len() != 2 {
        None
    } else {
        match (hex_value(s[0]), hex_value(s[1])) {
            (Some(high), Some(low)) => Some((high * 16 + low) as u8),
            (None, Some(low)) => if s[0] == '+' {
                Some(low as u8)
            } else {
                None
            },
            _ => None,
        }
    }
}

/// The address that `s` writes: six octets between colons.
pub open spec fn read_mac(s: Seq<char>) -> Option<MacAddress> {
    let parts = fields(s, ':');
    if parts.len() != 6 {
        None
    } else {
        match (
            read_mac_octet(parts[0]),
            read_mac_octet(parts[1]),
            read_mac_octet(parts[2]),
            read_mac_octet(parts[3]),
            read_mac_octet(parts[4]),
            read_mac_octet(parts[5]),
        ) {
            (Some(a), Some(b), Some(c), Some(d), Some(e), Some(f)) => Some(
                MacAddress { a, b, c, d, e, f },
            ),
            _ => None,
        }
    }
}

/// An octet in two lower-case hexadecimal digits.
pub open spec fn mac_octet_text(octet: u8) -> Seq<char> {
    seq![hex_digit((octet / 16) as nat), hex_digit((octet % 16) as nat)]
}

impl View for MacAddress {
    type V = Seq<u8>;

    open spec fn view(&self) -> Seq<u8> {
        seq![self.a, self.b, self.c, self.d, self.e, self.f]
    }
}

impl MacAddress {
    /// The octets between colons, in lower-case hexadecimal digits.
    pub open spec fn text(self) -> Seq<char> {
        mac_octet_text(self.a) + seq![':'] + mac_octet_text(self.b) + seq![':'] + mac_octet_text(
            self.c,
        ) + seq![':'] + mac_octet_text(self.d) + seq![':'] + mac_octet_text(self.e) + seq![':']
            + mac_octet_text(self.f)
    }

    /// The six octets in order.
    pub fn octets(&self) -> (octets: [u8; 6])
        ensures
            octets@ == self@,
    {
        let octets = [self.a, self.b, self.c, self.d, self.e, self.f];
        assert(octets@ =~= self@);
        octets
    }

    /// The octets between colons, in lower-case hexadecimal digits.
    pub fn to_string(&self) -> (text: String)
        ensures
            text@ == self.text(),
    {
        proof {
            reveal_strlit(":");
            assert(":"@ =~= seq![':']);
        }
        let mut text = mac_octet_string(self.a);
        text.append(":");
        text.append(mac_octet_string(self.b).as_str());
        text.append(":");
        text.append(mac_octet_string(self.c).as_str());
        text.append(":");
        text.append(mac_octet_string(self.d).as_str());
        text.append(":");
        text.append(mac_octet_string(self.e).as_str());
        text.append(":");
        text.append(mac_octet_string(self.f).as_str());
        text
    }

    /// Reads six octets between colons.
    pub fn parse(value: &str) -> (mac: Option<MacAddress>)
        ensures
            mac == read_mac(value@),
    {
        let parts = split_fields(value, ':');
        assert(views(parts@).len() == parts.len());
        if parts.len() != 6 {
            return None;
        }
        assert(forall|i: int| 0 <= i < 6 ==> views(parts@)[i] == parts[i]@);
        match (
            parse_mac_octet(parts[0]),
            parse_mac_octet(parts[1]),
            parse_mac_octet(parts[2]),
            parse_mac_octet(parts[3]),
            parse_mac_octet(parts[4]),
            parse_mac_octet(parts[5]),
        ) {
            (Some(a), Some(b), Some(c), Some(d), Some(e), Some(f)) => Some(
                MacAddress { a, b, c, d, e, f },
            ),
            _ => None,
        }
    }
}

impl std::str::FromStr for MacAddress {
    type Err = ();

    fn from_str(value: &str) -> (mac: Result<Self, ()>)
        ensures
            match mac {
                Ok(found) => read_mac(value@) == Some(found),
                Err(_) => read_mac(value@) is None,
            },
    {
        match MacAddress::parse(value) {
            Some(mac) => Ok(mac),
            None => Err(()),
        }
    }
}

/// An octet in two lower-case hexadecimal digits.
fn mac_octet_string(octet: u8) -> (text: String)
    ensures
        text@ == mac_octet_text(octet),
{
    let text = hex_digit_str(octet / 16).to_owned().concat(hex_digit_str(octet % 16));
    assert(text@ =~= mac_octet_text(octet));
    text
}

/// Reads two hexadecimal digits, or a plus sign and one.
fn parse_mac_octet(value: &str) -> (octet: Option<u8>)
    ensures
        octet == read_mac_octet(value@),
{
    let chars = chars_of(value);
    if chars.len() != 2 {
        return None;
    }
    match (hex_digit_value(chars[0]), hex_digit_value(chars[1])) {
        (Some(high), Some(low)) => Some(high * 16 + low),
        (None, Some(low)) => if chars[0] == '+' {
            Some(low)
        } else {
            None
        },
        _ => None,
    }
}

/// What the configuration file settles.
#[derive(Debug, Clone, Copy, PartialEq, Eq, Structural)]
pub struct Config {
    /// The address of the television.
    pub tv_ip: Ipv4Addr,
    /// The hardware address of the television.
    pub tv_mac: MacAddress,
    /// The network mask of the television, where one is given.
    pub tv_subnet: Option<Ipv4Addr>,
    /// The port that the computer is connected to.
    pub input: HdmiInput,
    /// The idle monitor.
    pub screen_backend: ScreenBackend,
    /// Seconds without input after which the screen counts as idle.
    pub screen_idle_timeout: u64,
    /// When the screen is put back on.
    pub screen_restore_policy: ScreenRestorePolicy,
}

/// Why there is no configuration.
#[derive(Debug, PartialEq, Eq)]
pub enum ConfigError {
    /// The file could not be read.
    Io(IoError),
    /// The file does not set a key that it must set.
    MissingRequiredKey(&'static str),
    /// The file sets a key to something that it cannot be.
    InvalidValue {
        /// The key.
        key: &'static str,
        /// What it is set to.
        value: String,
        /// What it can be.
        expected: &'static str,
    },
}

/// What a `ConfigError` says.
pub enum ConfigErrorView {
    /// The file could not be read.
    Io(IoErrorView),
    /// The file does not set a key that it must set.
    MissingRequiredKey(Seq<char>),
    /// The file sets a key to something that it cannot be.
    InvalidValue {
        /// The key.
        key: Seq<char>,
        /// What it is set to.
        value: Seq<char>,
        /// What it can be.
        expected: Seq<char>,
    },
}

impl View for ConfigError {
    type V = ConfigErrorView;

    open spec fn view(&self) -> ConfigErrorView {
        match self {
            ConfigError::Io(error) => ConfigErrorView::Io(error@),
            ConfigError::MissingRequiredKey(key) => ConfigErrorView::MissingRequiredKey(key@),
            ConfigError::InvalidValue { key, value, expected } => ConfigErrorView::InvalidValue {
                key: key@,
                value: value@,
                expected: expected@,
            },
        }
    }
}

impl ConfigErrorView {
    /// The error in words.
    pub open spec fn text(self) -> Seq<char> {
        match self {
            ConfigErrorView::Io(error) => error.message,
            ConfigErrorView::MissingRequiredKey(key) => "missing required config key `"@ + key
                + "`"@,
            ConfigErrorView::InvalidValue { key, value, expected } => "invalid value for `"@ + key
                + "`: `"@ + value + "`; expected "@ + expected,
        }
    }
}

impl ConfigError {
    /// The error in words.
    pub fn to_string(&self) -> (text: String)
        ensures
            text@ == self@.text(),
    {
        match self {
            ConfigError::Io(error) => error.message.clone(),
            ConfigError::MissingRequiredKey(key) => {
                "missing required config key `".to_owned().concat(key).concat("`")
            },
            ConfigError::InvalidValue { key, value, expected } => {
                "invalid value for `".to_owned().concat(key).concat("`: `").concat(
                    value.as_str(),
                ).concat("`; expected ").concat(expected)
            },
        }
    }
}

impl From<IoError> for ConfigError {
    fn from(error: IoError) -> (config_error: ConfigError) {
        ConfigError::Io(error)
    }
}

impl vstd::std_specs::convert::FromSpecImpl<IoError> for ConfigError {
    open spec fn obeys_from_spec() -> bool {
        true
    }

    open spec fn from_spec(error: IoError) -> ConfigError {
        ConfigError::Io(error)
    }
}

/// A value without the comment behind it and without the whitespace around it.
pub open spec fn sanitized(value: Seq<char>) -> Seq<char> {
    trim(before(value, '#'))
}

/// The key that a line sets and the value that it sets it to. Lines that are blank, that
/// begin with `#` or that have no `=` set nothing.
pub open spec fn assignment(line: Seq<char>) -> Option<(Seq<char>, Seq<char>)> {
    let content = trim(line);
    if content.len() == 0 || content[0] == '#' || !content.contains('=') {
        None
    } else {
        Some((trim(before(content, '=')), sanitized(after(content, '='))))
    }
}

/// What the last of `lines` that sets `key` sets it to.
pub open spec fn last_value(lines: Seq<Seq<char>>, key: Seq<char>) -> Option<Seq<char>>
    decreases lines.len(),
{
    if lines.len() == 0 {
        None
    } else {
        match assignment(lines.last()) {
            Some((name, value)) if name == key => Some(value),
            _ => last_value(lines.drop_last(), key),
        }
    }
}

/// What a file with the text `contents` sets `key` to.
pub open spec fn setting(contents: Seq<char>, key: Seq<char>) -> Option<Seq<char>> {
    last_value(lines(contents), key)
}

/// The value of a key that must be set and read, or the error.
pub open spec fn required<T>(
    value: Option<Seq<char>>,
    read: spec_fn(Seq<char>) -> Option<T>,
    key: Seq<char>,
    expected: Seq<char>,
) -> Result<T, ConfigErrorView> {
    match value {
        None => Err(ConfigErrorView::MissingRequiredKey(key)),
        Some(text) => match read(text) {
            Some(found) => Ok(found),
            None => Err(ConfigErrorView::InvalidValue { key, value: text, expected }),
        },
    }
}

/// The value of a key that may be set, or `default` where it is not set or does not read.
pub open spec fn optional<T>(
    value: Option<Seq<char>>,
    read: spec_fn(Seq<char>) -> Option<T>,
    default: T,
) -> T {
    match value {
        None => default,
        Some(text) => match read(text) {
            Some(found) => found,
            None => default,
        },
    }
}

/// The number of seconds that a text stands for.
pub open spec fn read_seconds(s: Seq<char>) -> Option<u64> {
    match read_number(s, u64::MAX as nat) {
        Ok(seconds) => Some(seconds as u64),
        Err(_) => None,
    }
}

/// What the settings of a file come to. `value` gives the setting of each key.
pub open spec fn config_of(value: spec_fn(Seq<char>) -> Option<Seq<char>>) -> Result<
    Config,
    ConfigErrorView,
> {
    let ip = required(value("tv_ip"@), |s: Seq<char>| read_ipv4(s), "tv_ip"@, "an IPv4 address"@);
    let mac = required(
        value("tv_mac"@),
        |s: Seq<char>| read_mac(s),
        "tv_mac"@,
        "a MAC address like aa:bb:cc:dd:ee:ff"@,
    );
    let input = required(
        value("input"@),
        |s: Seq<char>| HdmiInput::read(s),
        "input"@,
        "one of HDMI_1, HDMI_2, HDMI_3, HDMI_4"@,
    );
    match (ip, mac, input) {
        (Err(error), _, _) => Err(error),
        (Ok(_), Err(error), _) => Err(error),
        (Ok(_), Ok(_), Err(error)) => Err(error),
        (Ok(tv_ip), Ok(tv_mac), Ok(input)) => Ok(
            Config {
                tv_ip,
                tv_mac,
                tv_subnet: optional(
                    value("tv_subnet"@),
                    |s: Seq<char>| Some(read_ipv4(s)),
                    None,
                ),
                input,
                screen_backend: optional(
                    value("screen_backend"@),
                    |s: Seq<char>| ScreenBackend::read(s),
                    ScreenBackend::Auto,
                ),
                screen_idle_timeout: optional(
                    value("screen_idle_timeout"@),
                    |s: Seq<char>| read_seconds(s),
                    DEFAULT_IDLE_TIMEOUT,
                ),
                screen_restore_policy: optional(
                    value("screen_restore_policy"@),
                    |s: Seq<char>| ScreenRestorePolicy::read(s),
                    ScreenRestorePolicy::MarkerOnly,
                ),
            },
        ),
    }
}

/// What a file with the text `contents` comes to.
pub open spec fn read_config(contents: Seq<char>) -> Result<Config, ConfigErrorView> {
    config_of(|key: Seq<char>| setting(contents, key))
}

/// A configuration, or what the error says.
pub open spec fn config_result(result: Result<Config, ConfigError>) -> Result<
    Config,
    ConfigErrorView,
> {
    match result {
        Ok(config) => Ok(config),
        Err(error) => Err(error@),
    }
}

/// A value without the comment behind it and without the whitespace around it.
pub fn sanitize_config_value(value: &str) -> (clean: String)
    ensures
        clean@ == sanitized(value@),
{
    trimmed(part_before(value, '#')).to_owned()
}

/// Whether `entries` holds what `lines` set, and nothing else.
pub open spec fn holds_settings(
    entries: Map<Seq<char>, String>,
    lines: Seq<Seq<char>>,
) -> bool {
    forall|key: Seq<char>|
        #![trigger entries.contains_key(key)]
        #![trigger last_value(lines, key)]
        match last_value(lines, key) {
            Some(value) => entries.contains_key(key) && entries[key]@ == value,
            None => !entries.contains_key(key),
        }
}

/// The settings of a file with the text `contents`.
pub fn parse_entries(contents: &str) -> (entries: StringHashMap<String>)
    ensures
        holds_settings(entries@, lines(contents@)),
{
    let mut entries: StringHashMap<String> = StringHashMap::new();
    let all = split_lines(contents);
    let ghost whole = lines(contents@);
    for i in 0..all.len()
        invariant
            views(all@) == whole,
            holds_settings(entries@, whole.take(i as int)),
    {
        let line = all[i];
        let ghost seen = whole.take(i + 1);
        assert(views(all@)[i as int] == line@);
        assert(seen.drop_last() =~= whole.take(i as int));
        assert(seen.last() == line@);
        let content = trimmed(line);
        if !content.is_empty() && !starts_with_hash(content) {
            match split_once(content, '=') {
                None => {},
                Some((key, value)) => {
                    entries.insert(trimmed(key).to_owned(), sanitize_config_value(value));
                },
            }
        }
    }
    assert(whole.take(whole.len() as int) =~= whole);
    entries
}

/// Whether the first character of `s` is `#`.
fn starts_with_hash(s: &str) -> (found: bool)
    requires
        s@.len() > 0,
    ensures
        found == (s@[0] == '#'),
{
    s.get_char(0) == '#'
}

/// What a file with the text `contents` comes to.
pub fn parse_config(contents: &str) -> (config: Result<Config, ConfigError>)
    ensures
        config_result(config) == read_config(contents@),
{
    let entries = parse_entries(contents);

    let tv_ip = match entries.get("tv_ip") {
        None => {
            return Err(ConfigError::MissingRequiredKey("tv_ip"));
        },
        Some(value) => match Ipv4Addr::parse(value.as_str()) {
            Some(tv_ip) => tv_ip,
            None => {
                return Err(
                    ConfigError::InvalidValue {
                        key: "tv_ip",
                        value: value.clone(),
                        expected: "an IPv4 address",
                    },
                );
            },
        },
    };

    let tv_mac = match entries.get("tv_mac") {
        None => {
            return Err(ConfigError::MissingRequiredKey("tv_mac"));
        },
        Some(value) => match MacAddress::parse(value.as_str()) {
            Some(tv_mac) => tv_mac,
            None => {
                return Err(
                    ConfigError::InvalidValue {
                        key: "tv_mac",
                        value: value.clone(),
                        expected: "a MAC address like aa:bb:cc:dd:ee:ff",
                    },
                );
            },
        },
    };

    let tv_subnet = match entries.get("tv_subnet") {
        None => None,
        Some(value) => Ipv4Addr::parse(value.as_str()),
    };

    let input = match entries.get("input") {
        None => {
            return Err(ConfigError::MissingRequiredKey("input"));
        },
        Some(value) => match HdmiInput::parse(value.as_str()) {
            Some(input) => input,
            None => {
                return Err(
                    ConfigError::InvalidValue {
                        key: "input",
                        value: value.clone(),
                        expected: "one of HDMI_1, HDMI_2, HDMI_3, HDMI_4",
                    },
                );
            },
        },
    };

    let screen_backend = match entries.get("screen_backend") {
        None => ScreenBackend::Auto,
        Some(value) => match ScreenBackend::parse(value.as_str()) {
            Some(backend) => backend,
            None => ScreenBackend::Auto,
        },
    };

    let screen_idle_timeout: u64 = match entries.get("screen_idle_timeout") {
        None => DEFAULT_IDLE_TIMEOUT,
        Some(value) => match parse_number(value.as_str(), u64::MAX) {
            Ok(seconds) => seconds,
            Err(_) => DEFAULT_IDLE_TIMEOUT,
        },
    };

    let screen_restore_policy = match entries.get("screen_restore_policy") {
        None => ScreenRestorePolicy::MarkerOnly,
        Some(value) => match ScreenRestorePolicy::parse(value.as_str()) {
            Some(policy) => policy,
            None => ScreenRestorePolicy::MarkerOnly,
        },
    };

    Ok(
        Config {
            tv_ip,
            tv_mac,
            tv_subnet,
            input,
            screen_backend,
            screen_idle_timeout,
            screen_restore_policy,
        },
    )
}

/// What reading the file gave, taken further: the failure, or what its text comes to.
pub fn load_config(contents: Result<String, IoError>) -> (config: Result<Config, ConfigError>)
    ensures
        config_result(config) == (match contents {
            Ok(text) => read_config(text@),
            Err(error) => Err(ConfigErrorView::Io(error@)),
        }),
{
    match contents {
        Ok(text) => parse_config(text.as_str()),
        Err(error) => Err(ConfigError::from(error)),
    }
}

/// The names of the backends are read back, and nothing else is read as a backend.
pub proof fn backend_round_trip(backend: ScreenBackend, s: Seq<char>)
    ensures
        ScreenBackend::read(s) == Some(backend) <==> s == backend.text(),
{
    reveal_strlit("auto");
    reveal_strlit("gnome");
    reveal_strlit("swayidle");
    assert("auto"@.len() == 4 && "gnome"@.len() == 5 && "swayidle"@.len() == 8);
}

/// The names of the policies are read back.
pub proof fn policy_round_trip(policy: ScreenRestorePolicy)
    ensures
        ScreenRestorePolicy::read(policy.text()) == Some(policy),
{
    reveal_strlit("marker_only");
    reveal_strlit("conservative");
    reveal_strlit("aggressive");
    assert("marker_only"@.len() == 11 && "conservative"@.len() == 12 && "aggressive"@.len() == 10);
}

/// The names of the ports are read back, and nothing else is read as a port.
pub proof fn input_round_trip(input: HdmiInput, s: Seq<char>)
    ensures
        HdmiInput::read(s) == Some(input) <==> s == input.text(),
{
    reveal_strlit("HDMI_1");
    reveal_strlit("HDMI_2");
    reveal_strlit("HDMI_3");
    reveal_strlit("HDMI_4");
    assert("HDMI_1"@[5] == '1' && "HDMI_2"@[5] == '2' && "HDMI_3"@[5] == '3' && "HDMI_4"@[5]
        == '4');
}

/// The applications of the ports are recognised, and nothing else is taken for a port.
pub proof fn app_id_round_trip(input: HdmiInput, s: Seq<char>)
    ensures
        HdmiInput::read_app_id(s) == Some(input) <==> s == input.app_id(),
{
    reveal_strlit("com.webos.app.hdmi1");
    reveal_strlit("com.webos.app.hdmi2");
    reveal_strlit("com.webos.app.hdmi3");
    reveal_strlit("com.webos.app.hdmi4");
    assert("com.webos.app.hdmi1"@[18] == '1' && "com.webos.app.hdmi2"@[18] == '2'
        && "com.webos.app.hdmi3"@[18] == '3' && "com.webos.app.hdmi4"@[18] == '4');
}

proof fn lemma_mac_octet(octet: u8)
    ensures
        read_mac_octet(mac_octet_text(octet)) == Some(octet),
        !mac_octet_text(octet).contains(':'),
{
    hex_digit_round_trip((octet / 16) as nat);
    hex_digit_round_trip((octet % 16) as nat);
}

/// A hardware address that is written is read back.
pub proof fn mac_round_trip(mac: MacAddress)
    ensures
        read_mac(mac.text()) == Some(mac),
{
    let (a, b, c) = (mac_octet_text(mac.a), mac_octet_text(mac.b), mac_octet_text(mac.c));
    let (d, e, f) = (mac_octet_text(mac.d), mac_octet_text(mac.e), mac_octet_text(mac.f));
    lemma_mac_octet(mac.a);
    lemma_mac_octet(mac.b);
    lemma_mac_octet(mac.c);
    lemma_mac_octet(mac.d);
    lemma_mac_octet(mac.e);
    lemma_mac_octet(mac.f);
    let from_e = e + seq![':'] + f;
    let from_d = d + seq![':'] + from_e;
    let from_c = c + seq![':'] + from_d;
    let from_b = b + seq![':'] + from_c;
    lemma_fields_prepend(e, ':', f);
    lemma_fields_prepend(d, ':', from_e);
    lemma_fields_prepend(c, ':', from_d);
    lemma_fields_prepend(b, ':', from_c);
    lemma_fields_prepend(a, ':', from_b);
    assert(mac.text() =~= a + seq![':'] + from_b);
    assert(fields(mac.text(), ':') =~= seq![a, b, c, d, e, f]);
}

/// A value that is kept has no comment in it and no whitespace around it, and cleaning it
/// again changes nothing.
pub proof fn sanitized_is_clean(value: Seq<char>)
    ensures
        !sanitized(value).contains('#'),
        trim(sanitized(value)) == sanitized(value),
        sanitized(sanitized(value)) == sanitized(value),
{
    let kept = before(value, '#');
    lemma_find(value, '#');
    lemma_trim(kept);
    let clean = sanitized(value);
    assert forall|i: int| 0 <= i < clean.len() implies clean[i] != '#' by {
        assert(kept.contains(clean[i]));
    }
    lemma_find_unique(clean, '#', clean.len() as int);
    assert(before(clean, '#') =~= clean);
}

/// A later line overrides an earlier one; a line that sets nothing, or another key, changes
/// nothing.
pub proof fn later_line_wins(earlier: Seq<Seq<char>>, line: Seq<char>, key: Seq<char>)
    ensures
        last_value(earlier.push(line), key) == match assignment(line) {
            Some((name, value)) if name == key => Some(value),
            _ => last_value(earlier, key),
        },
{
    assert(earlier.push(line).drop_last() =~= earlier);
}

/// A line behind the last line ending of a text is the last of its lines.
pub proof fn appended_line_is_last(contents: Seq<char>, line: Seq<char>)
    requires
        contents.len() == 0 || contents.last() == '\n',
        line.len() > 0,
        !line.contains('\n'),
    ensures
        lines(contents + line) == lines(contents).push(line),
    decreases contents.len(),
{
    let whole = contents + line;
    if contents.len() == 0 {
        assert(whole =~= line);
        assert(lines(line) =~= lines(contents).push(line));
    } else {
        assert(contents[contents.len() - 1] == '\n');
        lemma_find(contents, '\n');
        let at = find(contents, '\n');
        assert(whole[at] == '\n');
        lemma_find_unique(whole, '\n', at);
        assert(before(whole, '\n') =~= before(contents, '\n'));
        assert(after(whole, '\n') =~= after(contents, '\n') + line);
        appended_line_is_last(after(contents, '\n'), line);
        assert(lines(whole) =~= lines(contents).push(line));
    }
}

/// The configuration depends on nothing but what the file sets its seven keys to.
pub proof fn only_the_keys_matter(first: Seq<char>, second: Seq<char>)
    requires
        setting(first, "tv_ip"@) == setting(second, "tv_ip"@),
        setting(first, "tv_mac"@) == setting(second, "tv_mac"@),
        setting(first, "tv_subnet"@) == setting(second, "tv_subnet"@),
        setting(first, "input"@) == setting(second, "input"@),
        setting(first, "screen_backend"@) == setting(second, "screen_backend"@),
        setting(first, "screen_idle_timeout"@) == setting(second, "screen_idle_timeout"@),
        setting(first, "screen_restore_policy"@) == setting(second, "screen_restore_policy"@),
    ensures
        read_config(first) == read_config(second),
{
}

/// A file is refused only for what it sets the address, the hardware address and the port of
/// the television to.
pub proof fn only_required_keys_are_refused(contents: Seq<char>)
    ensures
        read_config(contents) is Ok <==> {
            &&& setting(contents, "tv_ip"@) matches Some(ip) && read_ipv4(ip) is Some
            &&& setting(contents, "tv_mac"@) matches Some(mac) && read_mac(mac) is Some
            &&& setting(contents, "input"@) matches Some(input) && HdmiInput::read(input) is Some
        },
{
}

/// The names of the policies, and nothing else, are read as policies.
pub proof fn policies_are_read(s: Seq<char>)
    ensures
        ScreenRestorePolicy::read(s) == Some(ScreenRestorePolicy::Aggressive) <==> s
            == "aggressive"@,
        ScreenRestorePolicy::read(s) == Some(ScreenRestorePolicy::MarkerOnly) <==> s
            == "marker_only"@ || s == "conservative"@,
{
    reveal_strlit("marker_only");
    reveal_strlit("conservative");
    reveal_strlit("aggressive");
    assert("marker_only"@.len() == 11 && "conservative"@.len() == 12 && "aggressive"@.len() == 10);
}

/// An accepted configuration is what the file sets: the television's address, hardware address
/// and port as written; the mask where it is an address; the backend where it is named; the
/// idle time where it is a number, however small or large; the policy where it is named; and
/// what is usual where that is not so.
pub proof fn config_is_what_the_file_sets(
    contents: Seq<char>,
    config: Config,
    mask: Ipv4Addr,
    seconds: u64,
)
    requires
        read_config(contents) == Ok::<Config, ConfigErrorView>(config),
    ensures
        setting(contents, "tv_ip"@) == Some(config.tv_ip.text()),
        setting(contents, "tv_mac"@) matches Some(mac) && read_mac(mac) == Some(config.tv_mac),
        setting(contents, "input"@) == Some(config.input.text()),
        config.tv_subnet == Some(mask) <==> setting(contents, "tv_subnet"@) == Some(mask.text()),
        config.screen_backend == ScreenBackend::Gnome <==> setting(contents, "screen_backend"@)
            == Some("gnome"@),
        config.screen_backend == ScreenBackend::Swayidle <==> setting(contents, "screen_backend"@)
            == Some("swayidle"@),
        config.screen_restore_policy == ScreenRestorePolicy::Aggressive <==> setting(
            contents,
            "screen_restore_policy"@,
        ) == Some("aggressive"@),
        setting(contents, "screen_idle_timeout"@) == Some(decimal(seconds as nat))
            ==> config.screen_idle_timeout == seconds,
        match setting(contents, "screen_idle_timeout"@) {
            None => config.screen_idle_timeout == 300,
            Some(text) => match read_number(text, 0xffff_ffff_ffff_ffff) {
                Ok(number) => config.screen_idle_timeout == number,
                Err(_) => config.screen_idle_timeout == 300,
            },
        },
{
    let ip = setting(contents, "tv_ip"@);
    let input = setting(contents, "input"@);
    addresses_are_read_as_written(ip->Some_0, config.tv_ip);
    input_round_trip(config.input, input->Some_0);
    let subnet = setting(contents, "tv_subnet"@);
    if subnet is Some {
        addresses_are_read_as_written(subnet->Some_0, mask);
    }
    let backend = setting(contents, "screen_backend"@);
    if backend is Some {
        backend_round_trip(ScreenBackend::Gnome, backend->Some_0);
        backend_round_trip(ScreenBackend::Swayidle, backend->Some_0);
    }
    let policy = setting(contents, "screen_restore_policy"@);
    if policy is Some {
        policies_are_read(policy->Some_0);
    }
    decimal_round_trip(seconds as nat, u64::MAX as nat);
    let timeout = setting(contents, "screen_idle_timeout"@);
    if timeout is Some {
        lemma_number_bound(timeout->Some_0, u64::MAX as nat);
    }
}

proof fn lemma_number_bound(s: Seq<char>, max: nat)
    ensures
        read_number(s, max) matches Ok(value) ==> value <= max,
{
}

/// A file is refused for the first of the required keys that it does not set, or sets to what
/// cannot be read, and the error says which, what it is set to and what it can be.
pub proof fn first_fault_is_told(contents: Seq<char>)
    ensures
        match (
            setting(contents, "tv_ip"@),
            setting(contents, "tv_mac"@),
            setting(contents, "input"@),
        ) {
            (None, _, _) => read_config(contents) == Err::<Config, ConfigErrorView>(
                ConfigErrorView::MissingRequiredKey("tv_ip"@),
            ),
            (Some(ip), mac, input) => if read_ipv4(ip) is None {
                read_config(contents) == Err::<Config, ConfigErrorView>(
                    ConfigErrorView::InvalidValue {
                        key: "tv_ip"@,
                        value: ip,
                        expected: "an IPv4 address"@,
                    },
                )
            } else {
                match mac {
                    None => read_config(contents) == Err::<Config, ConfigErrorView>(
                        ConfigErrorView::MissingRequiredKey("tv_mac"@),
                    ),
                    Some(mac) => if read_mac(mac) is None {
                        read_config(contents) == Err::<Config, ConfigErrorView>(
                            ConfigErrorView::InvalidValue {
                                key: "tv_mac"@,
                                value: mac,
                                expected: "a MAC address like aa:bb:cc:dd:ee:ff"@,
                            },
                        )
                    } else {
                        match input {
                            None => read_config(contents) == Err::<Config, ConfigErrorView>(
                                ConfigErrorView::MissingRequiredKey("input"@),
                            ),
                            Some(input) => HdmiInput::read(input) is None ==> read_config(contents)
                                == Err::<Config, ConfigErrorView>(
                                ConfigErrorView::InvalidValue {
                                    key: "input"@,
                                    value: input,
                                    expected: "one of HDMI_1, HDMI_2, HDMI_3, HDMI_4"@,
                                },
                            ),
                        }
                    },
                }
            },
        },
{
}

/// An error names the key, and where there is one the value and what it can be.
pub proof fn config_errors_in_words(
    key: Seq<char>,
    value: Seq<char>,
    expected: Seq<char>,
    error: IoErrorView,
)
    ensures
        ConfigErrorView::Io(error).text() == error.message,
        ConfigErrorView::MissingRequiredKey(key).text() == "missing required config key `"@ + (key
            + "`"@),
        (ConfigErrorView::InvalidValue { key, value, expected }).text() == "invalid value for `"@
            + (key + ("`: `"@ + (value + ("`; expected "@ + expected)))),
{
    assert(ConfigErrorView::MissingRequiredKey(key).text() =~= "missing required config key `"@ + (
    key + "`"@));
    assert((ConfigErrorView::InvalidValue { key, value, expected }).text()
        =~= "invalid value for `"@ + (key + ("`: `"@ + (value + ("`; expected "@ + expected)))));
}

/// Two characters stand for an octet where both are hexadecimal digits, the first the greater,
/// or where the first is a plus sign and the second a digit.
pub proof fn octets_are_read(first: char, second: char)
    ensures
        match (hex_value(first), hex_value(second)) {
            (Some(high), Some(low)) => read_mac_octet(seq![first, second]) == Some(
                (16 * high + low) as u8,
            ),
            (None, Some(low)) => read_mac_octet(seq![first, second]) == if first == '+' {
                Some(low as u8)
            } else {
                None
            },
            _ => read_mac_octet(seq![first, second]) is None,
        },
{
}

/// A hardware address is read from six octets between colons, and from nothing else.
pub proof fn hardware_addresses_are_read(parts: Seq<Seq<char>>)
    requires
        parts.len() > 0,
        forall|i: int| 0 <= i < parts.len() ==> !(#[trigger] parts[i]).contains(':'),
    ensures
        read_mac(join(parts, ':')) is Some <==> parts.len() == 6 && forall|i: int|
            0 <= i < 6 ==> read_mac_octet(#[trigger] parts[i]) is Some,
        read_mac(join(parts, ':')) matches Some(mac) ==> forall|i: int|
            0 <= i < 6 ==> read_mac_octet(#[trigger] parts[i]) == Some(mac@[i]),
        forall|part: Seq<char>| #[trigger]
            read_mac_octet(part) is Some ==> part.len() == 2 && hex_value(part[1]) is Some,
{
    joined_parts_are_the_fields(parts, ':');
    if parts.len() == 6 {
        assert(read_mac_octet(parts[0]) is Some && read_mac_octet(parts[1]) is Some
            && read_mac_octet(parts[2]) is Some && read_mac_octet(parts[3]) is Some
            && read_mac_octet(parts[4]) is Some && read_mac_octet(parts[5]) is Some <==> (forall|
            i: int,
        | 0 <= i < 6 ==> read_mac_octet(#[trigger] parts[i]) is Some));
    }
}

/// What stands behind a `#` is not part of a value.
pub proof fn comments_are_cut(value: Seq<char>, comment: Seq<char>)
    requires
        !value.contains('#'),
    ensures
        sanitized(value + seq!['#'] + comment) == trim(value),
        sanitized(value) == trim(value),
{
    first_separator_splits(value, '#', comment);
}

/// A line sets what stands before its first `=` to what stands behind it, with whitespace and
/// comments left out.
pub proof fn lines_set_keys(
    front: Seq<char>,
    key: Seq<char>,
    gap: Seq<char>,
    value: Seq<char>,
)
    requires
        forall|i: int| 0 <= i < front.len() ==> is_space(#[trigger] front[i]),
        forall|i: int| 0 <= i < gap.len() ==> is_space(#[trigger] gap[i]),
        key.len() > 0,
        !is_space(key[0]),
        !is_space(key.last()),
        key[0] != '#',
        !key.contains('='),
    ensures
        assignment(front + key + gap + seq!['='] + value) == Some((key, sanitized(value))),
{
    let line = front + key + gap + seq!['='] + value;
    let kept = trim_back(value);
    lemma_trim_back_splits(value);
    let back = value.skip(kept.len() as int);
    let core = key + gap + seq!['='] + kept;
    assert(line =~= front + core + back);
    assert(core[0] == key[0]);
    assert(core.last() == if kept.len() > 0 {
        kept.last()
    } else {
        '='
    });
    trim_leaves_the_core(front, core, back);
    let named = key + gap;
    assert forall|i: int| 0 <= i < named.len() implies named[i] != '=' by {
        if i < key.len() {
            assert(named[i] == key[i]);
            assert(key.contains(key[i]));
        } else {
            assert(named[i] == gap[i - key.len()]);
        }
    }
    assert(!named.contains('='));
    first_separator_splits(named, '=', kept);
    assert(core =~= named + seq!['='] + kept);
    assert(core[named.len() as int] == '=');
    assert(core.contains('='));
    trim_leaves_the_core(seq![], key, gap);
    assert(seq![] + key + gap =~= named);
    lemma_sanitized_ignores_trailing_space(value);
}

proof fn lemma_sanitized_ignores_trailing_space(value: Seq<char>)
    ensures
        sanitized(trim_back(value)) == sanitized(value),
{
    let kept = trim_back(value);
    let back = value.skip(kept.len() as int);
    lemma_trim_back_splits(value);
    assert(value =~= kept + back);
    assert forall|i: int| 0 <= i < back.len() implies back[i] != '#' by {
        assert(is_space(back[i]));
    }
    if kept.contains('#') {
        lemma_find(kept, '#');
        let at = find(kept, '#');
        assert forall|i: int| 0 <= i < at implies value[i] != '#' by {
            assert(value[i] == kept[i]);
        }
        assert(value[at] == '#');
        lemma_find_unique(value, '#', at);
        assert(before(value, '#') =~= before(kept, '#'));
    } else {
        assert forall|i: int| 0 <= i < value.len() implies value[i] != '#' by {
            if i < kept.len() {
                assert(value[i] == kept[i]);
                assert(kept.contains(kept[i]));
            } else {
                assert(value[i] == back[i - kept.len()]);
            }
        }
        lemma_find_unique(value, '#', value.len() as int);
        assert forall|i: int| 0 <= i < kept.len() implies kept[i] != '#' by {
            assert(kept.contains(kept[i]));
        }
        lemma_find_unique(kept, '#', kept.len() as int);
        assert(before(value, '#') =~= value);
        assert(before(kept, '#') =~= kept);
        lemma_trim_ignores_trailing_space(value);
    }
}

/// Lines that are blank, that begin with `#` or that hold no `=` set nothing.
pub proof fn other_lines_set_nothing(front: Seq<char>, rest: Seq<char>)
    requires
        forall|i: int| 0 <= i < front.len() ==> is_space(#[trigger] front[i]),
    ensures
        assignment(front) is None,
        assignment(front + seq!['#'] + rest) is None,
        !rest.contains('=') ==> assignment(rest) is None,
{
    trim_leaves_the_core(front, seq![], seq![]);
    assert(front + seq![] + seq![] =~= front);
    let kept = trim_back(rest);
    lemma_trim_back_splits(rest);
    let back = rest.skip(kept.len() as int);
    let core = seq!['#'] + kept;
    assert(front + seq!['#'] + rest =~= front + core + back);
    assert(core[0] == '#');
    assert(core.last() == if kept.len() > 0 {
        kept.last()
    } else {
        '#'
    });
    trim_leaves_the_core(front, core, back);
    lemma_trim(rest);
}

/// A file that ends in a whole line can be extended by a line that sets a key: that is then
/// what the key is set to, and every other key is set as before.
pub proof fn appended_assignment_holds(
    contents: Seq<char>,
    key: Seq<char>,
    value: Seq<char>,
    other: Seq<char>,
)
    requires
        contents.len() == 0 || contents.last() == '\n',
        key.len() > 0,
        !is_space(key[0]),
        !is_space(key.last()),
        key[0] != '#',
        !key.contains('='),
        !key.contains('\n'),
        !value.contains('\n'),
    ensures
        setting(contents + key + seq!['='] + value, key) == Some(sanitized(value)),
        other != key ==> setting(contents + key + seq!['='] + value, other) == setting(
            contents,
            other,
        ),
{
    let line = key + seq!['='] + value;
    assert(!line.contains('\n')) by {
        assert forall|i: int| 0 <= i < line.len() implies line[i] != '\n' by {
            if i < key.len() {
                assert(key.contains(line[i]));
            } else if i > key.len() {
                assert(value.contains(line[i]));
            }
        }
    }
    appended_line_is_last(contents, line);
    assert(contents + key + seq!['='] + value =~= contents + line);
    lines_set_keys(seq![], key, seq![], value);
    assert(seq![] + key + seq![] + seq!['='] + value =~= line);
    later_line_wins(lines(contents), line, key);
    later_line_wins(lines(contents), line, other);
}

/// A file without lines sets nothing.
pub proof fn empty_file_sets_nothing(key: Seq<char>)
    ensures
        setting(seq![], key) is None,
{
}

/// The names of the ports end in their numbers, and so do their applications.
pub proof fn ports_are_numbered(input: HdmiInput)
    ensures
        ({
            let number: nat = match input {
                HdmiInput::Hdmi1 => 1,
                HdmiInput::Hdmi2 => 2,
                HdmiInput::Hdmi3 => 3,
                HdmiInput::Hdmi4 => 4,
            };
            &&& input.text() == "HDMI_"@ + decimal(number)
            &&& input.app_id() == "com.webos.app.hdmi"@ + decimal(number)
        }),
{
    reveal_strlit("HDMI_");
    reveal_strlit("HDMI_1");
    reveal_strlit("HDMI_2");
    reveal_strlit("HDMI_3");
    reveal_strlit("HDMI_4");
    reveal_strlit("com.webos.app.hdmi");
    reveal_strlit("com.webos.app.hdmi1");
    reveal_strlit("com.webos.app.hdmi2");
    reveal_strlit("com.webos.app.hdmi3");
    reveal_strlit("com.webos.app.hdmi4");
    decimal_is_positional(0, 1);
    decimal_is_positional(0, 2);
    decimal_is_positional(0, 3);
    decimal_is_positional(0, 4);
    assert(decimal_digit(1) == '1' && decimal_digit(2) == '2' && decimal_digit(3) == '3'
        && decimal_digit(4) == '4');
    match input {
        HdmiInput::Hdmi1 => {
            assert(input.text() =~= "HDMI_"@ + decimal(1));
            assert(input.app_id() =~= "com.webos.app.hdmi"@ + decimal(1));
        },
        HdmiInput::Hdmi2 => {
            assert(input.text() =~= "HDMI_"@ + decimal(2));
            assert(input.app_id() =~= "com.webos.app.hdmi"@ + decimal(2));
        },
        HdmiInput::Hdmi3 => {
            assert(input.text() =~= "HDMI_"@ + decimal(3));
            assert(input.app_id() =~= "com.webos.app.hdmi"@ + decimal(3));
        },
        HdmiInput::Hdmi4 => {
            assert(input.text() =~= "HDMI_"@ + decimal(4));
            assert(input.app_id() =~= "com.webos.app.hdmi"@ + decimal(4));
        },
    }
}

/// The names of the backends and policies.
pub proof fn backends_and_policies_are_named(backend: ScreenBackend, policy: ScreenRestorePolicy)
    ensures
        backend.text() == match backend {
            ScreenBackend::Auto => "auto"@,
            ScreenBackend::Gnome => "gnome"@,
            ScreenBackend::Swayidle => "swayidle"@,
        },
        policy.text() == match policy {
            ScreenRestorePolicy::MarkerOnly => "marker_only"@,
            ScreenRestorePolicy::Aggressive => "aggressive"@,
        },
{
}

/// A hardware address is written as its six octets between colons, each in two digits.
pub proof fn hardware_addresses_are_written_in_order(mac: MacAddress, octet: u8)
    ensures
        fields(mac.text(), ':') == seq![
            mac_octet_text(mac.a),
            mac_octet_text(mac.b),
            mac_octet_text(mac.c),
            mac_octet_text(mac.d),
            mac_octet_text(mac.e),
            mac_octet_text(mac.f),
        ],
        mac_octet_text(octet) == seq![
            hex_digit((octet / 16) as nat),
            hex_digit((octet % 16) as nat),
        ],
        mac@ == seq![mac.a, mac.b, mac.c, mac.d, mac.e, mac.f],
{
    let parts = seq![
        mac_octet_text(mac.a),
        mac_octet_text(mac.b),
        mac_octet_text(mac.c),
        mac_octet_text(mac.d),
        mac_octet_text(mac.e),
        mac_octet_text(mac.f),
    ];
    lemma_mac_octet(mac.a);
    lemma_mac_octet(mac.b);
    lemma_mac_octet(mac.c);
    lemma_mac_octet(mac.d);
    lemma_mac_octet(mac.e);
    lemma_mac_octet(mac.f);
    joined_parts_are_the_fields(parts, ':');
    reveal_with_fuel(join, 7);
    assert(mac.text() =~= join(parts, ':'));
}

/// What a reading of a file comes to keeps the configuration and tells the error in full.
pub proof fn config_results_are_told_in_full(config: Config, error: ConfigError)
    ensures
        config_result(Ok(config)) == Ok::<Config, ConfigErrorView>(config),
        config_result(Err(error)) == Err::<Config, ConfigErrorView>(
            match error {
                ConfigError::Io(source) => ConfigErrorView::Io(
                    IoErrorView { kind: source.kind, message: source.message@ },
                ),
                ConfigError::MissingRequiredKey(key) => ConfigErrorView::MissingRequiredKey(key@),
                ConfigError::InvalidValue { key, value, expected } => {
                    ConfigErrorView::InvalidValue {
                        key: key@,
                        value: value@,
                        expected: expected@,
                    }
                },
            },
        ),
{
}

} // verus!
