//! Configuration for the sequencer.

use std::str::FromStr;
use std::time::Duration;
use url::Url;
use vstd::prelude::*;
use vstd::string::*;

verus! {

/// A URL of the `url` crate, carried as it came.
#[verifier::external_type_specification]
#[verifier::external_body]
pub struct ExUrl(url::Url);

/// `Clone::clone` of `url::Url`.
///
/// Claimed of it: the copy is the same URL.
pub assume_specification[ <url::Url as Clone>::clone ](url: &Url) -> (copy: Url)
    ensures
        copy == *url,
;

/// The duration that `std::time::Duration::from_secs` makes of a number of seconds.
pub uninterp spec fn whole_seconds(secs: u64) -> Duration;

/// `std::time::Duration::from_secs`.
///
/// Claimed of it: the duration is determined by the number of seconds.
pub assume_specification[ std::time::Duration::from_secs ](secs: u64) -> (duration: Duration)
    ensures
        duration == whole_seconds(secs),
;

/// Default conductor RPC timeout, in seconds.
pub const DEFAULT_CONDUCTOR_RPC_TIMEOUT_SECS: u64 = 1;

/// The lowercase form of an ASCII letter. Any other character is its own.
pub open spec fn ascii_lowercase(c: char) -> char {
    if 'A' <= c && c <= 'Z' {
        (c as int + ('a' as int - 'A' as int)) as char
    } else {
        c
    }
}

/// `str::to_ascii_lowercase`.
///
/// Claimed of it: each ASCII letter is mapped to its lowercase form, and no other character
/// changes.
pub assume_specification[ str::to_ascii_lowercase ](s: &str) -> (lower: String)
    ensures
        lower@ == s@.map_values(|c: char| ascii_lowercase(c)),
;

/// Sequencer synchronization source.
#[derive(Debug, Clone, Copy, PartialEq, Eq)]
pub enum SequencerSyncMode {
    /// Preserve the legacy sequencer behavior, where CL unsafe-block ingestion completes sync.
    Cl,
    /// Allow the sequencer to complete sync from the execution layer's canonical head.
    El,
}

impl Default for SequencerSyncMode {
    fn default() -> (mode: Self)
        ensures
            mode == SequencerSyncMode::Cl,
    {
        SequencerSyncMode::Cl
    }
}

impl SequencerSyncMode {
    /// Returns whether this mode completes sequencer sync from the execution layer.
    pub fn is_el(self) -> (el: bool)
        ensures
            el == (self == SequencerSyncMode::El),
    {
        matches!(self, SequencerSyncMode::El)
    }

    /// The name of the mode.
    pub open spec fn name(self) -> Seq<char> {
        match self {
            SequencerSyncMode::Cl => "cl"@,
            SequencerSyncMode::El => "el"@,
        }
    }

    /// The mode that a text names, in upper or lower case.
    pub open spec fn named(raw: Seq<char>) -> Option<SequencerSyncMode> {
        let lower = raw.map_values(|c: char| ascii_lowercase(c));
        if lower == "cl"@ {
            Some(SequencerSyncMode::Cl)
        } else if lower == "el"@ {
            Some(SequencerSyncMode::El)
        } else {
            None
        }
    }

    /// Writes the name of the mode.
    pub fn to_string(&self) -> (text: String)
        ensures
            text@ == self.name(),
    {
        match self {
            SequencerSyncMode::Cl => "cl".to_owned(),
            SequencerSyncMode::El => "el".to_owned(),
        }
    }
}

impl FromStr for SequencerSyncMode {
    type Err = String;

    /// Reads the name of a mode, in upper or lower case.
    ///
    /// Where the text names no mode, the error holds the text as it was given.
    fn from_str(raw: &str) -> (mode: Result<Self, String>)
        ensures
            SequencerSyncMode::named(raw@) matches Some(named) ==> mode == Ok::<Self, String>(named),
            SequencerSyncMode::named(raw@) is None ==> {
                &&& mode matches Err(message)
                &&& message@ == "expected `cl` or `el`, got `"@ + raw@ + "`"@
            },
            mode == Ok::<Self, String>(SequencerSyncMode::Cl) <==> {
                &&& raw@.len() == 2
                &&& raw@[0] == 'c' || raw@[0] == 'C'
                &&& raw@[1] == 'l' || raw@[1] == 'L'
            },
            mode == Ok::<Self, String>(SequencerSyncMode::El) <==> {
                &&& raw@.len() == 2
                &&& raw@[0] == 'e' || raw@[0] == 'E'
                &&& raw@[1] == 'l' || raw@[1] == 'L'
            },
    {
        proof {
            law_names_are_case_insensitive(raw@);
        }
        let lower = raw.to_ascii_lowercase();
        if lower == "cl".to_owned() {
            Ok(SequencerSyncMode::Cl)
        } else if lower == "el".to_owned() {
            Ok(SequencerSyncMode::El)
        } else {
            let mut message = "expected `cl` or `el`, got `".to_owned();
            message.append(raw);
            message.append("`");
            Err(message)
        }
    }
}

/// A number of blocks that is not zero.
#[derive(Debug, Clone, Copy, PartialEq, Eq)]
pub struct NonZeroU64 {
    value: u64,
}

impl NonZeroU64 {
    #[verifier::type_invariant]
    spec fn is_not_zero(self) -> bool {
        self.value != 0
    }

    /// The number.
    pub closed spec fn number(self) -> u64 {
        self.value
    }

    /// Takes a number that is not zero.
    pub fn new(value: u64) -> (taken: Option<Self>)
        ensures
            taken is Some <==> value != 0,
            taken matches Some(number) ==> number.number() == value,
    {
        if value == 0 {
            None
        } else {
            Some(NonZeroU64 { value })
        }
    }

    /// Returns the number.
    pub fn get(self) -> (value: u64)
        ensures
            value == self.number(),
            value != 0,
    {
        proof {
            use_type_invariant(&self);
        }
        self.value
    }
}

/// Configuration for the sequencer.
#[derive(Debug, PartialEq, Eq)]
pub struct SequencerConfig {
    /// Whether or not the sequencer is enabled at startup.
    pub sequencer_stopped: bool,
    /// Whether or not the sequencer is in recovery mode.
    pub sequencer_recovery_mode: bool,
    /// Number of private blocks to build per cycle when running as a shadow sequencer.
    ///
    /// When [`None`], the node runs as a normal sequencer.
    pub shadow_blocks_per_cycle: Option<NonZeroU64>,
    /// Where the sequencer completes its initial chain sync from.
    pub sequencer_sync_mode: SequencerSyncMode,
    /// The [`Url`] for the conductor RPC endpoint. If [`Some`], enables the conductor service.
    pub conductor_rpc_url: Option<Url>,
    /// Use the conductor's SSZ-binary commit endpoint (`POST /commit-unsafe-payload`)
    /// instead of the JSON-RPC `conductor_commitUnsafePayload` method. Avoids the
    /// JSON encode/decode round trip on the leader's RPC handler, and is a prerequisite for
    /// blocks larger than the conductor's 5 `MiB` JSON-RPC body limit.
    ///
    /// Requires a conductor with binary endpoint support.
    pub conductor_binary_commit: bool,
    /// Request timeout for conductor RPC calls (both JSON-RPC and binary commit).
    pub conductor_rpc_timeout: Duration,
    /// The confirmation delay for the sequencer.
    pub l1_conf_delay: u64,
}

impl Default for SequencerConfig {
    fn default() -> (config: Self)
        ensures
            !config.sequencer_stopped,
            !config.sequencer_recovery_mode,
            config.shadow_blocks_per_cycle is None,
            config.sequencer_sync_mode == SequencerSyncMode::Cl,
            config.conductor_rpc_url is None,
            !config.conductor_binary_commit,
            config.conductor_rpc_timeout == whole_seconds(DEFAULT_CONDUCTOR_RPC_TIMEOUT_SECS),
            config.l1_conf_delay == 0,
    {
        Self {
            sequencer_stopped: false,
            sequencer_recovery_mode: false,
            shadow_blocks_per_cycle: None,
            sequencer_sync_mode: SequencerSyncMode::default(),
            conductor_rpc_url: None,
            conductor_binary_commit: false,
            conductor_rpc_timeout: Duration::from_secs(DEFAULT_CONDUCTOR_RPC_TIMEOUT_SECS),
            l1_conf_delay: 0,
        }
    }
}

impl Clone for SequencerConfig {
    fn clone(&self) -> (copy: Self)
        ensures
            copy == *self,
    {
        Self {
            sequencer_stopped: self.sequencer_stopped,
            sequencer_recovery_mode: self.sequencer_recovery_mode,
            shadow_blocks_per_cycle: self.shadow_blocks_per_cycle,
            sequencer_sync_mode: self.sequencer_sync_mode,
            conductor_rpc_url: match &self.conductor_rpc_url {
                Some(url) => Some(url.clone()),
                None => None,
            },
            conductor_binary_commit: self.conductor_binary_commit,
            conductor_rpc_timeout: self.conductor_rpc_timeout,
            l1_conf_delay: self.l1_conf_delay,
        }
    }
}

/// The modes are read in upper and lower case alike: a text names a mode exactly when it is the
/// two letters of the mode's name, each in either case.
pub proof fn law_names_are_case_insensitive(raw: Seq<char>)
    ensures
        SequencerSyncMode::named(raw) == Some(SequencerSyncMode::Cl) <==> {
            &&& raw.len() == 2
            &&& raw[0] == 'c' || raw[0] == 'C'
            &&& raw[1] == 'l' || raw[1] == 'L'
        },
        SequencerSyncMode::named(raw) == Some(SequencerSyncMode::El) <==> {
            &&& raw.len() == 2
            &&& raw[0] == 'e' || raw[0] == 'E'
            &&& raw[1] == 'l' || raw[1] == 'L'
        },
{
    reveal_strlit("cl");
    reveal_strlit("el");
    assert("cl"@ =~= seq!['c', 'l']);
    assert("el"@ =~= seq!['e', 'l']);
    let lower = raw.map_values(|c: char| ascii_lowercase(c));
    assert forall|first: char|
        lower == seq![first, 'l'] <==> raw.len() == 2 && ascii_lowercase(raw[0]) == first
            && ascii_lowercase(raw[1]) == 'l' by {
        if lower == seq![first, 'l'] {
            assert(seq![first, 'l'].len() == 2);
            assert(lower[0] == first && lower[1] == 'l');
            assert(lower[0] == ascii_lowercase(raw[0]) && lower[1] == ascii_lowercase(raw[1]));
        } else if raw.len() == 2 && ascii_lowercase(raw[0]) == first && ascii_lowercase(raw[1])
            == 'l' {
            assert(lower =~= seq![first, 'l']);
        }
    }
}

/// The written name of a mode is read as that mode.
pub proof fn law_written_names_are_read_back(mode: SequencerSyncMode)
    ensures
        SequencerSyncMode::named(mode.name()) == Some(mode),
{
    reveal_strlit("cl");
    reveal_strlit("el");
    law_names_are_case_insensitive(mode.name());
}

} // verus!
