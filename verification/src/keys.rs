//! The command that generates keys, and that computes public keys.

use vstd::prelude::*;
use crate::noise::compute_public_key;
use crate::noise;
use crate::noise::Base64KeyPair;
use crate::noise::ComputeKeyError;
use crate::noise::NoiseError;

verus! {

/// A command on keys.
pub enum KeyCommand {
    /// Generate a new public / private key pair
    /// for use with Core - Periphery authentication.
    Generate {
        /// Specify the format of the output.
        format: KeyOutputFormat,
    },
    /// Compute the public key for a given private key.
    Compute {
        /// Pass the private key
        private_key: String,
        /// Specify the format of the output.
        format: KeyOutputFormat,
    },
}

/// The format of the output.
#[derive(Debug, Clone, Copy, PartialEq, Eq, Structural)]
pub enum KeyOutputFormat {
    /// Readable output format. Default.
    Standard,
    /// Json (single line) output format.
    Json,
    /// Json "pretty" (multi line) output format.
    JsonPretty,
}

impl Default for KeyOutputFormat {
    fn default() -> (r: KeyOutputFormat)
        ensures
            r == KeyOutputFormat::Standard,
    {
        KeyOutputFormat::Standard
    }
}

/// A key pair, as it is printed.
pub struct KeyPair<'a> {
    pub private_key: &'a str,
    pub public_key: &'a str,
}

/// What the command prints.
pub enum KeyReport {
    /// The public key in a line of its own. Where there is a private key, a line
    /// with it follows, prefixed so that Core / Periphery know to parse it as
    /// base64.
    Standard { public_key: String, shown_private_key: Option<String> },
    /// The key pair as json, on one line or more.
    Json { private_key: String, public_key: String, pretty: bool },
}

impl KeyReport {
    /// The key pair that is printed as json.
    pub fn key_pair<'a>(&'a self) -> (r: Option<KeyPair<'a>>)
        ensures
            match *self {
                KeyReport::Standard { .. } => r is None,
                KeyReport::Json { private_key, public_key, pretty } => r matches Some(pair) && pair.private_key@
                    == private_key@ && pair.public_key@ == public_key@,
            },
    {
        match self {
            KeyReport::Standard { .. } => None,
            KeyReport::Json { private_key, public_key, .. } => Some(
                KeyPair { private_key: private_key.as_str(), public_key: public_key.as_str() },
            ),
        }
    }
}

/// What stands before a private key that is base64.
pub const BASE64_PREFIX: &'static str = "base64:";

/// Why the command failed.
#[derive(Debug, Clone, Copy, PartialEq, Eq, Structural)]
pub enum KeyError {
    /// Failed to generate key pair.
    Generate(NoiseError),
    /// Failed to compute public key.
    Compute(ComputeKeyError),
}

/// Whether `report` shows the keys in `format`. `shown` tells whether the
/// readable format shows the private key too.
pub open spec fn is_report(
    format: KeyOutputFormat,
    shown: bool,
    private: Seq<char>,
    public: Seq<char>,
    report: KeyReport,
) -> bool {
    match format {
        KeyOutputFormat::Standard => {
            &&& report matches KeyReport::Standard { public_key, shown_private_key }
            &&& public_key@ == public
            &&& match shown_private_key {
                Some(key) => shown && key@ == private,
                None => !shown,
            }
        },
        _ => {
            &&& report matches KeyReport::Json { private_key, public_key, pretty }
            &&& private_key@ == private
            &&& public_key@ == public
            &&& pretty == (format == KeyOutputFormat::JsonPretty)
        },
    }
}

fn report(format: KeyOutputFormat, shown: bool, private: String, public: String) -> (r: KeyReport)
    ensures
        is_report(format, shown, private@, public@, r),
{
    match format {
        KeyOutputFormat::Standard => {
            let shown_private_key: Option<String> = if shown {
                Some(private)
            } else {
                None
            };
            KeyReport::Standard { public_key: public, shown_private_key }
        },
        KeyOutputFormat::Json => KeyReport::Json { private_key: private, public_key: public, pretty: false },
        KeyOutputFormat::JsonPretty => KeyReport::Json { private_key: private, public_key: public, pretty: true },
    }
}

/// Carries the command out. It fails on a private key that can be read only
/// where the machine has no random bytes to give.
pub fn handle(command: &KeyCommand) -> (r: Result<KeyReport, KeyError>)
    requires
        command matches KeyCommand::Compute { private_key, format } ==> noise::key_fits(private_key@),
    ensures
        match *command {
            KeyCommand::Generate { format } => match r {
                Ok(report) => exists|private: Seq<char>|
                    noise::key_error(private) is None && noise::key_bytes(private).len() == 32 && #[trigger] is_report(
                        format,
                        true,
                        private,
                        noise::public_key_of(private),
                        report,
                    ),
                Err(e) => e == KeyError::Generate(NoiseError::Generate),
            },
            KeyCommand::Compute { private_key, format } => {
                &&& r matches Ok(report) ==> noise::key_error(private_key@) is None && is_report(
                    format,
                    false,
                    private_key@,
                    noise::public_key_of(private_key@),
                    report,
                )
                &&& noise::key_error(private_key@) is Some ==> r == Err::<KeyReport, KeyError>(
                    KeyError::Compute(ComputeKeyError::Server(noise::key_error(private_key@)->0)),
                )
                &&& noise::key_error(private_key@) is None ==> (r matches Err(e) ==> e == KeyError::Compute(
                    ComputeKeyError::WriteMessage1,
                ) || e == KeyError::Compute(ComputeKeyError::WriteMessage2))
            },
        },
{
    match command {
        KeyCommand::Generate { format } => {
            let keys: Base64KeyPair = match Base64KeyPair::generate() {
                Ok(keys) => keys,
                Err(e) => return Err(KeyError::Generate(e)),
            };
            let ghost private = keys.private_key@;
            let ghost public = keys.public_key@;
            let r: KeyReport = report(*format, true, keys.private_key, keys.public_key);
            assert(is_report(*format, true, private, noise::public_key_of(private), r));
            Ok(r)
        },
        KeyCommand::Compute { private_key, format } => {
            let public_key: String = match compute_public_key(private_key.as_str()) {
                Ok(public_key) => public_key,
                Err(e) => return Err(KeyError::Compute(e)),
            };
            Ok(report(*format, false, private_key.as_str().to_owned(), public_key))
        },
    }
}

/// What the command prints: always the public key; the private key in json, and
/// in readable output only where it was asked to be shown; and json on one line
/// unless it is to be pretty.
pub proof fn law_report_shows_the_keys(
    format: KeyOutputFormat,
    shown: bool,
    private: Seq<char>,
    public: Seq<char>,
    report: KeyReport,
)
    requires
        is_report(format, shown, private, public, report),
    ensures
        report is Standard <==> format == KeyOutputFormat::Standard,
        report matches KeyReport::Standard { public_key, shown_private_key } ==> {
            &&& public_key@ == public
            &&& shown_private_key is Some <==> shown
            &&& shown ==> shown_private_key->0@ == private
        },
        report matches KeyReport::Json { private_key, public_key, pretty } ==> {
            &&& public_key@ == public
            &&& private_key@ == private
            &&& pretty <==> format == KeyOutputFormat::JsonPretty
        },
{
}

} // verus!
