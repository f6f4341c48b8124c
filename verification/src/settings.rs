//! From the raw text of the process settings to checked values.

use url::Url;
use vstd::prelude::*;
use crate::decimal::{count_digits, decimal_usize, digit_count, parse_decimal};
use crate::listeners::ethereum::{EthereumListener, ListenerView, DEFAULT_REORG_THRESHOLD};
use crate::listeners::pacing::Span;

verus! {

/// What `Url::parse` makes of `input`: `None` where it fails, else the
/// scheme of the URL and its serialisation.
pub uninterp spec fn url_parts(input: Seq<char>) -> Option<(Seq<char>, Seq<char>)>;

/// What `humantime::parse_duration` makes of `input`: `None` where it fails,
/// else the duration in nanoseconds.
pub uninterp spec fn humantime_nanos(input: Seq<char>) -> Option<u128>;

/// The scheme of the URL that `input` writes, if it writes one.
pub open spec fn scheme_of(input: Seq<char>) -> Option<Seq<char>> {
    match url_parts(input) {
        Some((scheme, _)) => Some(scheme),
        None => None,
    }
}

/// The serialisation of the URL that `input` writes; of no account where
/// it writes none.
pub open spec fn serialization_of(input: Seq<char>) -> Seq<char> {
    match url_parts(input) {
        Some((_, text)) => text,
        None => Seq::empty(),
    }
}

/// Calls `Url::parse`. On success the scheme, as `Url::scheme` gives it, and
/// the serialisation, as the conversion of the URL into a `String` gives it,
/// are returned; a failure becomes `None`.
#[verifier::external_body]
fn parse_url(input: &str) -> (parts: Option<(String, String)>)
    ensures
        match parts {
            Some((scheme, text)) => url_parts(input@) == Some((scheme@, text@)),
            None => url_parts(input@) is None,
        },
{
    match Url::parse(input) {
        Ok(url) => Some((url.scheme().to_owned(), String::from(url))),
        Err(_) => None,
    }
}

/// The most digits that the text of a polling interval may hold.
pub const MAX_INTERVAL_DIGITS: usize = 11;

/// Whether `input` can be read as a polling interval: it holds no more
/// digits than `MAX_INTERVAL_DIGITS`, and it writes a duration.
pub open spec fn writes_interval(input: Seq<char>) -> bool {
    digit_count(input) <= MAX_INTERVAL_DIGITS && humantime_nanos(input) is Some
}

/// Calls `humantime::parse_duration`. On success the duration is returned in
/// nanoseconds, as `Duration::as_nanos` gives them; a failure becomes
/// `None`.
///
/// The parser adds up its seconds with checked arithmetic, but it builds the
/// result with `Duration::new`, which panics when a carry out of the
/// nanoseconds overflows the seconds. That takes seconds at the very top of
/// `u64`. The numbers in a text of at most eleven digits are below 10^11 in
/// sum, and the largest unit, the year, has 31,557,600 seconds, so the
/// seconds of such a text stay below 2^62: only such texts are admitted.
#[verifier::external_body]
fn parse_span(input: &str) -> (span: Option<Span>)
    requires
        digit_count(input@) <= MAX_INTERVAL_DIGITS,
    ensures
        match span {
            Some(span) => humantime_nanos(input@) == Some(span.nanos),
            None => humantime_nanos(input@) is None,
        },
{
    match humantime::parse_duration(input) {
        Ok(duration) => Some(Span { nanos: duration.as_nanos() }),
        Err(_) => None,
    }
}

/// The settings as the process environment holds them: text, or nothing.
pub struct RawSettings {
    pub database_url: Option<String>,
    pub rpc_url: Option<String>,
    pub start_height: Option<String>,
    pub reorg_threshold: Option<String>,
    pub time_between_indexes: Option<String>,
}

/// Why the raw settings cannot be used.
#[derive(Clone, Copy, Debug, PartialEq, Eq, Structural)]
pub enum SettingsError {
    /// No database URL is set.
    DatabaseUrlMissing,
    /// No endpoint URL is set.
    RpcUrlMissing,
    /// The endpoint URL is no URL.
    RpcUrlInvalid,
    /// The endpoint URL does not use the `wss` scheme.
    RpcUrlNotSecure,
    /// The start height is no non-negative integer.
    StartHeightInvalid,
    /// The polling interval is no duration, or holds too many digits.
    TimeBetweenIndexesInvalid,
}

impl SettingsError {
    /// The complaint in words.
    pub fn message(&self) -> (text: &'static str)
        ensures
            text@ == match *self {
                SettingsError::DatabaseUrlMissing => "DATABASE_URL is not set"@,
                SettingsError::RpcUrlMissing => "RPC_URL is not set"@,
                SettingsError::RpcUrlInvalid => "Invalid RPC_URL"@,
                SettingsError::RpcUrlNotSecure => "RPC_URL must use wss protocol"@,
                SettingsError::StartHeightInvalid => "Invalid START_HEIGHT"@,
                SettingsError::TimeBetweenIndexesInvalid => "Invalid TIME_BETWEEN_INDEXES"@,
            },
    {
        match self {
            SettingsError::DatabaseUrlMissing => "DATABASE_URL is not set",
            SettingsError::RpcUrlMissing => "RPC_URL is not set",
            SettingsError::RpcUrlInvalid => "Invalid RPC_URL",
            SettingsError::RpcUrlNotSecure => "RPC_URL must use wss protocol",
            SettingsError::StartHeightInvalid => "Invalid START_HEIGHT",
            SettingsError::TimeBetweenIndexesInvalid => "Invalid TIME_BETWEEN_INDEXES",
        }
    }
}

/// The reorg threshold as the settings give it.
#[derive(Clone, Copy, Debug, PartialEq, Eq, Structural)]
pub enum ThresholdSetting {
    /// No threshold is set.
    Unset,
    /// A threshold is set.
    Given(usize),
    /// Something is set that is no non-negative integer: the default is
    /// used, and the caller is to warn about it.
    Malformed,
}

/// The settings, checked.
pub struct Settings {
    pub database_url: String,
    pub rpc_url: String,
    pub starting_block: Option<usize>,
    pub reorg_threshold: ThresholdSetting,
    pub time_between_indexes: Option<Span>,
}

/// The checked settings as a mathematical value.
pub struct SettingsView {
    pub database_url: Seq<char>,
    pub rpc_url: Seq<char>,
    pub starting_block: Option<usize>,
    pub reorg_threshold: ThresholdSetting,
    pub time_between_indexes: Option<Span>,
}

impl View for Settings {
    type V = SettingsView;

    open spec fn view(&self) -> SettingsView {
        SettingsView {
            database_url: self.database_url@,
            rpc_url: self.rpc_url@,
            starting_block: self.starting_block,
            reorg_threshold: self.reorg_threshold,
            time_between_indexes: self.time_between_indexes,
        }
    }
}

/// How a reorg threshold given as text is taken.
pub open spec fn threshold_setting(input: Option<Seq<char>>) -> ThresholdSetting {
    match input {
        None => ThresholdSetting::Unset,
        Some(text) => match decimal_usize(text) {
            Some(value) => ThresholdSetting::Given(value),
            None => ThresholdSetting::Malformed,
        },
    }
}

/// The view of a setting that may be absent.
pub open spec fn text_of(setting: Option<String>) -> Option<Seq<char>> {
    match setting {
        Some(text) => Some(text@),
        None => None,
    }
}

/// What the raw settings resolve to. The database URL and the endpoint URL
/// must be there; the endpoint URL must parse and use the `wss` scheme; a
/// start height, where given, must parse; a polling interval, where given,
/// must hold no more digits than `MAX_INTERVAL_DIGITS` and must parse. A
/// reorg threshold that does not parse is no error.
pub open spec fn resolved(raw: RawSettings) -> Result<SettingsView, SettingsError> {
    if raw.database_url is None {
        Err(SettingsError::DatabaseUrlMissing)
    } else if raw.rpc_url is None {
        Err(SettingsError::RpcUrlMissing)
    } else if url_parts(raw.rpc_url->0@) is None {
        Err(SettingsError::RpcUrlInvalid)
    } else if scheme_of(raw.rpc_url->0@) != Some("wss"@) {
        Err(SettingsError::RpcUrlNotSecure)
    } else if raw.start_height is Some && decimal_usize(raw.start_height->0@) is None {
        Err(SettingsError::StartHeightInvalid)
    } else if raw.time_between_indexes is Some && !writes_interval(raw.time_between_indexes->0@) {
        Err(SettingsError::TimeBetweenIndexesInvalid)
    } else {
        Ok(
            SettingsView {
                database_url: raw.database_url->0@,
                rpc_url: serialization_of(raw.rpc_url->0@),
                starting_block: match raw.start_height {
                    Some(text) => decimal_usize(text@),
                    None => None,
                },
                reorg_threshold: threshold_setting(text_of(raw.reorg_threshold)),
                time_between_indexes: match raw.time_between_indexes {
                    Some(text) => Some(Span { nanos: humantime_nanos(text@)->0 }),
                    None => None,
                },
            },
        )
    }
}

/// Takes a reorg threshold given as text.
pub fn read_threshold(input: &Option<String>) -> (setting: ThresholdSetting)
    ensures
        setting == threshold_setting(text_of(*input)),
{
    match input {
        None => ThresholdSetting::Unset,
        Some(text) => match parse_decimal(text.as_str()) {
            Some(value) => ThresholdSetting::Given(value),
            None => ThresholdSetting::Malformed,
        },
    }
}

/// Checks the raw settings.
pub fn resolve(raw: RawSettings) -> (outcome: Result<Settings, SettingsError>)
    ensures
        match outcome {
            Ok(settings) => resolved(raw) == Ok::<SettingsView, SettingsError>(settings@),
            Err(error) => resolved(raw) == Err::<SettingsView, SettingsError>(error),
        },
{
    let reorg_threshold = read_threshold(&raw.reorg_threshold);
    let database_url = match raw.database_url {
        Some(text) => text,
        None => {
            return Err(SettingsError::DatabaseUrlMissing);
        },
    };
    let endpoint = match raw.rpc_url {
        Some(text) => text,
        None => {
            return Err(SettingsError::RpcUrlMissing);
        },
    };
    let (scheme, rpc_url) = match parse_url(endpoint.as_str()) {
        Some(parts) => parts,
        None => {
            return Err(SettingsError::RpcUrlInvalid);
        },
    };
    if scheme != "wss".to_owned() {
        return Err(SettingsError::RpcUrlNotSecure);
    }
    let starting_block = match raw.start_height {
        Some(text) => match parse_decimal(text.as_str()) {
            Some(height) => Some(height),
            None => {
                return Err(SettingsError::StartHeightInvalid);
            },
        },
        None => None,
    };
    let time_between_indexes = match raw.time_between_indexes {
        Some(text) => {
            if count_digits(text.as_str()) > MAX_INTERVAL_DIGITS {
                return Err(SettingsError::TimeBetweenIndexesInvalid);
            }
            match parse_span(text.as_str()) {
                Some(span) => Some(span),
                None => {
                    return Err(SettingsError::TimeBetweenIndexesInvalid);
                },
            }
        },
        None => None,
    };
    Ok(Settings { database_url, rpc_url, starting_block, reorg_threshold, time_between_indexes })
}

/// A listener after the checked settings have been applied to it: the
/// endpoint is always taken; a start height, a threshold and an interval
/// only where they are set; and a malformed threshold gives the default.
pub open spec fn configured<A>(listener: ListenerView<A>, settings: SettingsView) -> ListenerView<
    A,
> {
    ListenerView {
        rpc_url: settings.rpc_url,
        starting_block: match settings.starting_block {
            Some(height) => Some(height),
            None => listener.starting_block,
        },
        reorg_threshold: match settings.reorg_threshold {
            ThresholdSetting::Unset => listener.reorg_threshold,
            ThresholdSetting::Given(value) => value as u64,
            ThresholdSetting::Malformed => DEFAULT_REORG_THRESHOLD,
        },
        time_between_indexes: match settings.time_between_indexes {
            Some(span) => Some(span),
            None => listener.time_between_indexes,
        },
        ..listener
    }
}

impl<T> EthereumListener<T> {
    /// The same listener with the checked settings applied.
    pub fn with_settings(self, settings: &Settings) -> (listener: Self)
        ensures
            listener@ == configured(self@, settings@),
    {
        let mut listener = self.with_rpc_url(settings.rpc_url.clone());
        listener = match settings.starting_block {
            Some(height) => listener.with_starting_block(height),
            None => listener,
        };
        listener = match settings.reorg_threshold {
            ThresholdSetting::Unset => listener,
            ThresholdSetting::Given(value) => listener.with_reorg_threshold(value),
            ThresholdSetting::Malformed => listener.with_default_reorg_threshold(),
        };
        match settings.time_between_indexes {
            Some(span) => listener.with_time_between_indexes(span),
            None => listener,
        }
    }
}

/// Whatever text stands where a reorg threshold is expected, if it writes no
/// non-negative integer that a `usize` can hold, a listener configured from
/// settings that took it has the default threshold.
pub proof fn law_malformed_threshold_defaults<A>(
    text: Seq<char>,
    settings: SettingsView,
    listener: ListenerView<A>,
)
    requires
        decimal_usize(text) is None,
        settings.reorg_threshold == threshold_setting(Some(text)),
    ensures
        settings.reorg_threshold == ThresholdSetting::Malformed,
        configured(listener, settings).reorg_threshold == DEFAULT_REORG_THRESHOLD,
{
}

} // verus!
