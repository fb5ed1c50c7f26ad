use vstd::prelude::*;
use vstd::string::*;

use crate::icmp::TracertProvider;
use crate::text::{dec_text, join_spec};

verus! {

/// An IP address as the octets it is made of.
#[derive(Debug, Clone, Copy, PartialEq, Eq)]
pub enum IpAddress {
    V4([u8; 4]),
    V6([u8; 16]),
}

/// The text of an IPv4 address: its four octets in decimal, joined by dots.
pub open spec fn ipv4_text(octets: [u8; 4]) -> Seq<char> {
    join_spec(octets@.map_values(|b: u8| dec_text(b as nat)), seq!['.'])
}

/// What `Display` writes for an IP address.
pub uninterp spec fn ip_text(ip: IpAddress) -> Seq<char>;

impl IpAddress {
    /// The text of the address, as `Display` of `core::net::IpAddr` writes it:
    /// for IPv4 the four octets in decimal joined by dots ("dot-decimal
    /// notation"); for IPv6 the standard text, which is named and not spelled out.
    #[verifier::external_body]
    pub(crate) fn to_text(&self) -> (s: String)
        ensures
            s@ == ip_text(*self),
            *self matches IpAddress::V4(o) ==> s@ == ipv4_text(o),
    {
        match self {
            IpAddress::V4(o) => core::net::Ipv4Addr::from(*o).to_string(),
            IpAddress::V6(o) => core::net::Ipv6Addr::from(*o).to_string(),
        }
    }
}

/// How the pollers are scheduled.
#[derive(Debug, Clone, Copy, PartialEq, Eq, Structural)]
pub enum Strategy {
    Independent,
    Synchronized,
}

impl Strategy {
    /// The name of the strategy, as it is written in the configuration and the log.
    pub open spec fn text_spec(self) -> Seq<char> {
        match self {
            Strategy::Independent => "independent"@,
            Strategy::Synchronized => "synchronized"@,
        }
    }

    /// The name of the strategy, as its `Display` writes it.
    pub fn to_text(&self) -> (s: String)
        ensures
            s@ == self.text_spec(),
    {
        match self {
            Strategy::Independent => String::from_str("independent"),
            Strategy::Synchronized => String::from_str("synchronized"),
        }
    }
}

/// The kind of a poll.
#[derive(Debug, Clone, Copy, PartialEq, Eq, Structural)]
pub enum PollType {
    Ping,
    Snmp,
}

impl PollType {
    /// The name of the kind of poll, in capitals.
    pub open spec fn text_spec(self) -> Seq<char> {
        match self {
            PollType::Ping => "PING"@,
            PollType::Snmp => "SNMP"@,
        }
    }

    /// The name of the kind of poll, as its `Display` writes it.
    pub fn to_text(&self) -> (s: String)
        ensures
            s@ == self.text_spec(),
    {
        match self {
            PollType::Ping => String::from_str("PING"),
            PollType::Snmp => String::from_str("SNMP"),
        }
    }
}

/// A record of the log: the session, the time it was written, and the event.
#[derive(Debug, Clone)]
pub struct Envelope {
    pub session_id: String,
    pub timestamp: String,
    pub event: Event,
}

/// The outcome of one poll, with all its attempts.
#[derive(Debug, Clone)]
pub struct FetchResult {
    pub test_type: PollType,
    pub target: IpAddress,
    pub start: String,
    pub end: String,
    pub success: bool,
    pub attempts: u8,
    /// The time the poll took, in nanoseconds.
    pub latency_ns: u64,
    pub details: Option<String>,
}

/// What the monitor reports.
#[derive(Debug, Clone)]
pub enum Event {
    PollResult { strategy: Strategy, step: usize, payload: FetchResult },
    Config { strategy: Strategy, details: ConfigStrategyDetails },
    Error { error_type: String, message: String },
}

/// How the pollers of a strategy are set up.
#[derive(Debug, Clone)]
pub enum ConfigStrategyDetails {
    Independent { pollers: Vec<IndependentPollerConfig> },
    Synchronized { interval_seconds: u64, providers: Vec<ProviderConfig> },
}

/// How an independent poller is set up.
#[derive(Debug, Clone)]
pub struct IndependentPollerConfig {
    pub provider: ProviderConfig,
    pub retries: u8,
    pub retries_interval_ms: u64,
    pub interval_ms: u64,
}

/// How a provider is set up; `extra` holds its trace route settings, if any.
#[derive(Debug, Clone)]
pub struct ProviderConfig {
    pub name: PollType,
    pub target: IpAddress,
    pub timeout_ms: u64,
    pub extra: Option<TracertProvider>,
}

} // verus!
