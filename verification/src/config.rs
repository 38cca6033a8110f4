use crate::iracing::{default_path, DEFAULT_PATH};
use crate::text::{decimal, decimal_of, digit};
use vstd::prelude::*;

verus! {

/// The discovery port unless the configuration names another.
pub const DEFAULT_PORT: u16 = 9222;

/// The section of the configuration file that holds the settings.
pub const SECTION: &'static str = "Config";

/// The key of the installation folder.
pub const PATH_KEY: &'static str = "IRACING_PATH";

/// The key of the discovery port.
pub const PORT_KEY: &'static str = "PORT";

/// The settings: where the simulator is installed, and the local port of its
/// discovery service.
#[derive(Debug, Clone)]
pub struct Config {
    pub iracing_path: String,
    pub port: u16,
}

/// What to do about the stored settings at start.
#[derive(Debug, Clone)]
pub enum LoadStep {
    /// Take these settings as they are.
    Use(Config),
    /// Give up: the file is there but does not yield settings.
    Fail,
    /// Find the installation folder, make fresh settings and store them.
    Create,
}

/// The value of a decimal digit, or `None` for any other character.
pub open spec fn digit_value(c: char) -> Option<nat> {
    if 48 <= (c as nat) <= 57 {
        Some(((c as nat) - 48) as nat)
    } else {
        None
    }
}

/// The number that a run of decimal digits writes; `None` where a character
/// is no digit. The empty run writes zero.
pub open spec fn numeral_value(digits: Seq<char>) -> Option<nat>
    decreases digits.len(),
{
    if digits.len() == 0 {
        Some(0)
    } else {
        match (numeral_value(digits.drop_last()), digit_value(digits.last())) {
            (Some(above), Some(unit)) => Some(10 * above + unit),
            _ => None,
        }
    }
}

/// The port that a text reads as: an optional plus sign, then at least one
/// decimal digit and nothing else, with a value that fits in sixteen bits.
pub open spec fn parsed_port(text: Seq<char>) -> Option<u16> {
    let digits = if text.len() > 0 && text[0] == '+' {
        text.drop_first()
    } else {
        text
    };
    match numeral_value(digits) {
        Some(value) => if digits.len() > 0 && value <= u16::MAX {
            Some(value as u16)
        } else {
            None
        },
        None => None,
    }
}

/// Calls `str::parse::<u16>`, which reads an optional plus sign followed by
/// decimal digits only, and rejects the empty text, any other character and
/// a value beyond sixteen bits.
#[verifier::external_body]
fn parse_port(text: &str) -> (port: Option<u16>)
    ensures
        port == parsed_port(text@),
{
    text.parse::<u16>().ok()
}

/// The port that a stored entry stands for: the number it reads as, or the
/// default where there is no entry or it does not read as a port.
pub open spec fn port_of(entry: Option<Seq<char>>) -> u16 {
    match entry {
        Some(text) => match parsed_port(text) {
            Some(port) => port,
            None => DEFAULT_PORT,
        },
        None => DEFAULT_PORT,
    }
}

impl Default for Config {
    fn default() -> (config: Config)
        ensures
            config.iracing_path@ == DEFAULT_PATH@,
            config.port == DEFAULT_PORT,
    {
        Config { iracing_path: default_path(), port: DEFAULT_PORT }
    }
}

impl Config {
    /// Decides what to do at start. `stored` is `None` where there is no
    /// settings file, and otherwise what the file yielded, if anything;
    /// `stored_is_valid` says whether the folder that the settings name holds
    /// an installation. Settings that name no installation are made anew.
    pub fn load(stored: Option<Option<Config>>, stored_is_valid: bool) -> (step: LoadStep)
        ensures
            match stored {
                None => step is Create,
                Some(None) => step is Fail,
                Some(Some(config)) => if stored_is_valid {
                    step == LoadStep::Use(config)
                } else {
                    step is Create
                },
            },
    {
        match stored {
            None => LoadStep::Create,
            Some(None) => LoadStep::Fail,
            Some(Some(config)) => if stored_is_valid {
                LoadStep::Use(config)
            } else {
                LoadStep::Create
            },
        }
    }

    /// Fresh settings for an installation folder, with the default port.
    pub fn created(iracing_path: String) -> (config: Config)
        ensures
            config.iracing_path == iracing_path,
            config.port == DEFAULT_PORT,
    {
        Config { iracing_path, port: DEFAULT_PORT }
    }

    /// The port to use, given what the stored entry read as, if anything.
    pub fn port_or_default(read: Option<u16>) -> (port: u16)
        ensures
            port == match read {
                Some(p) => p,
                None => DEFAULT_PORT,
            },
    {
        match read {
            Some(p) => p,
            None => DEFAULT_PORT,
        }
    }

    /// The settings that the stored entries stand for. The installation
    /// folder must be there; the port falls back to the default.
    pub fn from_entries(path: Option<String>, port: Option<String>) -> (config: Option<Config>)
        ensures
            match path {
                None => config is None,
                Some(p) => {
                    &&& config is Some
                    &&& config->0.iracing_path == p
                    &&& config->0.port == port_of(
                        match port {
                            Some(text) => Some(text@),
                            None => None,
                        },
                    )
                },
            },
    {
        match path {
            None => None,
            Some(iracing_path) => {
                let read = match port {
                    Some(text) => parse_port(text.as_str()),
                    None => None,
                };
                Some(Config { iracing_path, port: Config::port_or_default(read) })
            },
        }
    }

    /// The entries to store: the installation folder as it is, and the port
    /// as a decimal numeral.
    pub fn entries(&self) -> (stored: (String, String))
        ensures
            stored.0 == self.iracing_path,
            stored.1@ == decimal(self.port as nat),
    {
        (self.iracing_path.clone(), decimal_of(self.port as u64))
    }
}

proof fn decimal_reads_back(n: nat)
    ensures
        decimal(n).len() > 0,
        decimal(n)[0] != '+',
        numeral_value(decimal(n)) == Some(n),
    decreases n,
{
    if n < 10 {
        let d = decimal(n);
        assert(d.drop_last() =~= Seq::<char>::empty());
        assert(d.last() == digit(n));
        assert(numeral_value(d.drop_last()) == Some(0nat));
    } else {
        decimal_reads_back(n / 10);
        let d = decimal(n);
        assert(d.drop_last() =~= decimal(n / 10));
        assert(d.last() == digit(n % 10));
        assert(d[0] == decimal(n / 10)[0]);
    }
}

/// What `entries` stores, `from_entries` reads back as the same settings.
pub proof fn stored_entries_read_back(config: Config)
    ensures
        port_of(Some(decimal(config.port as nat))) == config.port,
{
    decimal_reads_back(config.port as nat);
}

} // verus!
