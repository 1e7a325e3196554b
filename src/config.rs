//! User settings: defaults, recovery from a missing or broken settings
//! document, and the edits that the settings menu offers.

use vstd::prelude::*;
use crate::text::{decimal_u32, parse_decimal_u32, same_text, trim_text, trimmed};

verus! {

/// The modem's settings.
#[derive(Clone, Debug)]
pub struct ModemConfig {
    pub baud_rate: u32,
    pub connection_type: String,
    pub sound_enabled: bool,
    pub log_level: String,
}

/// What the settings hold, as plain values.
pub struct ConfigView {
    pub baud_rate: nat,
    pub connection_type: Seq<char>,
    pub sound_enabled: bool,
    pub log_level: Seq<char>,
}

impl View for ModemConfig {
    type V = ConfigView;

    open spec fn view(&self) -> ConfigView {
        ConfigView {
            baud_rate: self.baud_rate as nat,
            connection_type: self.connection_type@,
            sound_enabled: self.sound_enabled,
            log_level: self.log_level@,
        }
    }
}

/// The settings used where none could be read: 1200 baud, `hayes`, sound on,
/// log level `info`.
pub open spec fn default_config() -> ConfigView {
    ConfigView {
        baud_rate: 1200,
        connection_type: "hayes"@,
        sound_enabled: true,
        log_level: "info"@,
    }
}

/// Settings are usable when the baud rate is positive.
pub open spec fn config_valid(c: ConfigView) -> bool {
    c.baud_rate > 0
}

/// The settings in force, given what was read from the settings document:
/// what was read where it is usable, the defaults otherwise.
pub open spec fn resolved(loaded: Option<ConfigView>) -> ConfigView {
    match loaded {
        Some(c) => if config_valid(c) {
            c
        } else {
            default_config()
        },
        None => default_config(),
    }
}

impl Default for ModemConfig {
    fn default() -> (r: ModemConfig)
        ensures
            r@ == default_config(),
    {
        ModemConfig {
            baud_rate: 1200,
            connection_type: "hayes".to_owned(),
            sound_enabled: true,
            log_level: "info".to_owned(),
        }
    }
}

/// A change that the settings menu can make.
#[derive(Debug)]
pub enum ConfigEdit {
    SetBaudRate(u32),
    SetConnectionType(String),
    ToggleSound,
    Reset,
}

/// The settings after `edit`.
pub open spec fn edited(c: ConfigView, edit: ConfigEdit) -> ConfigView {
    match edit {
        ConfigEdit::SetBaudRate(rate) => ConfigView { baud_rate: rate as nat, ..c },
        ConfigEdit::SetConnectionType(t) => ConfigView { connection_type: t@, ..c },
        ConfigEdit::ToggleSound => ConfigView { sound_enabled: !c.sound_enabled, ..c },
        ConfigEdit::Reset => default_config(),
    }
}

impl ModemConfig {
    /// Settings as read from the settings document (`None` where it is missing
    /// or could not be parsed), replaced by the defaults where not usable.
    pub fn resolve(loaded: Option<ModemConfig>) -> (r: ModemConfig)
        ensures
            r@ == resolved(
                match loaded {
                    Some(c) => Some(c@),
                    None => None,
                },
            ),
            config_valid(r@),
    {
        match loaded {
            Some(c) => if c.baud_rate > 0 {
                c
            } else {
                ModemConfig::default()
            },
            None => ModemConfig::default(),
        }
    }

    /// Applies one edit of the settings menu.
    pub fn apply(&mut self, edit: ConfigEdit)
        requires
            edit matches ConfigEdit::SetBaudRate(rate) ==> rate > 0,
        ensures
            final(self)@ == edited(old(self)@, edit),
    {
        match edit {
            ConfigEdit::SetBaudRate(rate) => {
                self.baud_rate = rate;
            },
            ConfigEdit::SetConnectionType(t) => {
                self.connection_type = t;
            },
            ConfigEdit::ToggleSound => {
                self.sound_enabled = !self.sound_enabled;
            },
            ConfigEdit::Reset => {
                *self = ModemConfig::default();
            },
        }
    }
}

/// An entry of the settings menu.
#[derive(Clone, Copy, Debug, PartialEq, Eq, Structural)]
pub enum MenuChoice {
    BaudRate,
    ConnectionType,
    ToggleSound,
    Reset,
    Back,
}

/// The menu entry that a (trimmed) answer selects; anything unrecognised goes back.
pub open spec fn menu_choice_of(t: Seq<char>) -> MenuChoice {
    if t == "1"@ {
        MenuChoice::BaudRate
    } else if t == "2"@ {
        MenuChoice::ConnectionType
    } else if t == "3"@ {
        MenuChoice::ToggleSound
    } else if t == "4"@ {
        MenuChoice::Reset
    } else {
        MenuChoice::Back
    }
}

/// The menu entry that an input line selects, ignoring surrounding whitespace.
pub fn menu_choice(line: &str) -> (r: MenuChoice)
    ensures
        r == menu_choice_of(trimmed(line@)),
{
    let t = trim_text(line);
    if same_text(t, "1") {
        MenuChoice::BaudRate
    } else if same_text(t, "2") {
        MenuChoice::ConnectionType
    } else if same_text(t, "3") {
        MenuChoice::ToggleSound
    } else if same_text(t, "4") {
        MenuChoice::Reset
    } else {
        MenuChoice::Back
    }
}

/// The baud rate that an answer gives: a positive decimal `u32`, surrounding
/// whitespace ignored.
pub open spec fn baud_rate_of(t: Seq<char>) -> Option<u32> {
    match decimal_u32(t) {
        Some(v) => if v > 0 {
            Some(v)
        } else {
            None
        },
        None => None,
    }
}

/// Reads a baud rate from an input line; `None` where it is no valid rate.
pub fn baud_rate_input(line: &str) -> (r: Option<u32>)
    ensures
        r == baud_rate_of(trimmed(line@)),
{
    match parse_decimal_u32(trim_text(line)) {
        Some(v) => if v > 0 {
            Some(v)
        } else {
            None
        },
        None => None,
    }
}

/// Reads a connection type from an input line: the line without surrounding whitespace.
pub fn connection_type_input(line: &str) -> (r: String)
    ensures
        r@ == trimmed(line@),
{
    trim_text(line).to_owned()
}

/// A missing or unusable settings document always gives exactly the default
/// settings, and a resolved setting is always usable.
pub proof fn lemma_missing_config_gives_defaults(loaded: Option<ConfigView>)
    ensures
        resolved(None) == default_config(),
        (loaded matches Some(c) && !config_valid(c)) ==> resolved(loaded) == default_config(),
        config_valid(resolved(loaded)),
        resolved(None).baud_rate == 1200,
{
}

} // verus!
