use vstd::prelude::*;
use vstd::string::*;

use async_snmp::Oid;

use crate::models::{ip_text, IpAddress, PollType, ProviderConfig};
use crate::oid::{
    dotted_text, oid_arcs, oid_from_arcs, oid_text_arcs, oid_text_valid, oid_to_text, parse_oid_text,
};
use crate::text::{dec_text, decimal_text, join_spec, join_strings};
use crate::traits::Pollable;
use crate::utils::{all_oids_valid, is_first_invalid};

verus! {

/// The message for an OID text that `create_oids` cannot read.
pub open spec fn create_oids_message(oid: Seq<char>) -> Seq<char> {
    "Internal error: invalid OID '"@ + oid + "' passed to create_oids"@
}

/// The OIDs that the dotted texts `oids` denote, in order; the error names the
/// first text with a piece that is not the text of a `u32`.
pub fn create_oids(oids: &[String]) -> (r: Result<Vec<Oid>, String>)
    ensures
        r is Ok <==> all_oids_valid(oids@),
        r matches Ok(v) ==> v@.len() == oids@.len() && forall|i: int|
            0 <= i < oids@.len() ==> oid_arcs(#[trigger] v@[i]) == oid_text_arcs(oids@[i]@),
        forall|p: int|
            is_first_invalid(oids@, p) ==> (r matches Err(e) && e@ == create_oids_message(
                oids@[p]@,
            )),
{
    let mut out: Vec<Oid> = Vec::new();
    let mut i: usize = 0;
    while i < oids.len()
        invariant
            i <= oids@.len(),
            out@.len() == i,
            forall|q: int| 0 <= q < i ==> oid_text_valid(#[trigger] oids@[q]@),
            forall|q: int| 0 <= q < i ==> oid_arcs(#[trigger] out@[q]) == oid_text_arcs(oids@[q]@),
        decreases oids.len() - i,
    {
        let text = &oids[i];
        match parse_oid_text(text.as_str()) {
            Some(arcs) => {
                out.push(oid_from_arcs(arcs));
            },
            None => {
                let mut msg = String::from_str("Internal error: invalid OID '");
                msg.append(text.as_str());
                msg.append("' passed to create_oids");
                assert forall|p: int| is_first_invalid(oids@, p) implies p == i by {
                    if p < i {
                        assert(oid_text_valid(oids@[p]@));
                    }
                    if p > i {
                        assert(oid_text_valid(oids@[i as int]@));
                    }
                }
                return Err(msg);
            },
        }
        i = i + 1;
    }
    Ok(out)
}

/// The text of one answered variable: its OID, `=`, and its value's text.
pub open spec fn varbind_text(oid: Oid, value: Seq<char>) -> Seq<char> {
    dotted_text(oid_arcs(oid)) + "="@ + value
}

/// The texts of the answered variables, in order.
pub open spec fn varbind_texts(binds: Seq<(Oid, String)>) -> Seq<Seq<char>> {
    Seq::new(binds.len(), |i: int| varbind_text(binds[i].0, binds[i].1@))
}

/// The message for a client that could not connect to `target`:`port`.
pub open spec fn connect_error_text(target: IpAddress, port: u16, e: Seq<char>) -> Seq<char> {
    "SNMP: failed to connect to "@ + ip_text(target) + ":"@ + dec_text(port as nat) + " — "@ + e
}

/// What an SNMP client is connected with: the text of the agent's address and
/// its port, the community, the time after which a request fails (in whole
/// seconds), and how often and how far apart (in milliseconds) an unanswered
/// request is sent again.
#[derive(Debug, Clone)]
pub struct SnmpClientSettings {
    pub address: String,
    pub port: u16,
    pub community: String,
    pub request_timeout_secs: u64,
    pub retries: u32,
    pub retry_delay_ms: u64,
}

/// Whether `s` are the settings of a client of `target`:`port` with the
/// community `community`, requests that time out after `timeout_seconds`
/// seconds, and `retries` resends of an unanswered request, one right after
/// the other.
pub open spec fn settings_of(
    s: SnmpClientSettings,
    target: IpAddress,
    port: u16,
    community: Seq<char>,
    timeout_seconds: u64,
    retries: u32,
) -> bool {
    &&& s.address@ == ip_text(target)
    &&& s.port == port
    &&& s.community@ == community
    &&& s.request_timeout_secs == timeout_seconds
    &&& s.retries == retries
    &&& s.retry_delay_ms == 0
}

/// The whole seconds in `timeout_ms` milliseconds, rounded up.
pub open spec fn seconds_up(timeout_ms: u64) -> int {
    (timeout_ms + 999) / 1000
}

/// An SNMP poller of some OIDs of a target.
#[derive(Debug, Clone)]
pub struct SnmpProvider {
    pub name: String,
    pub target: IpAddress,
    pub port: u16,
    pub timeout_ms: u64,
    pub oids: Vec<Oid>,
}

impl SnmpProvider {
    /// The settings of the client of a provider of `target`:`port` with the
    /// community `community`: requests time out after `timeout_seconds`
    /// seconds, and an unanswered one is sent again `retries` times, with no
    /// pause between.
    pub fn client_settings(
        target: IpAddress,
        port: u16,
        community: &str,
        timeout_seconds: u64,
        retries: u32,
    ) -> (r: SnmpClientSettings)
        ensures
            settings_of(r, target, port, community@, timeout_seconds, retries),
    {
        SnmpClientSettings {
            address: target.to_text(),
            port,
            community: community.to_string(),
            request_timeout_secs: timeout_seconds,
            retries,
            retry_delay_ms: 0,
        }
    }

    /// The settings of the client of a configured provider, whose timeout is
    /// given in milliseconds: the timeout is rounded up to whole seconds, so
    /// that it is never cut to nothing, and a request is sent once, since a
    /// failed fetch is tried again by the poll itself (`RetryRun`) as often as
    /// the configuration says.
    pub fn configured_settings(
        target: IpAddress,
        port: u16,
        community: &str,
        timeout_ms: u64,
    ) -> (r: SnmpClientSettings)
        ensures
            settings_of(r, target, port, community@, seconds_up(timeout_ms) as u64, 0),
    {
        let secs: u64 = timeout_ms / 1000 + if timeout_ms % 1000 == 0 { 0 } else { 1 };
        SnmpProvider::client_settings(target, port, community, secs, 0)
    }

    /// A provider for the OIDs with the dotted texts `oids`, once the caller
    /// has tried to connect its client (`connected`, with the settings of
    /// `client_settings`). Where the connection failed, the error names the
    /// target and port and the OIDs are not read; else it fails as
    /// `create_oids` does.
    pub fn new(
        name: String,
        target: IpAddress,
        port: u16,
        oids: &[String],
        timeout_ms: u64,
        connected: Result<(), String>,
    ) -> (r: Result<Self, String>)
        ensures
            connected matches Err(e) ==> (r matches Err(m) && m@ == connect_error_text(
                target,
                port,
                e@,
            )),
            connected is Ok ==> (r is Ok <==> all_oids_valid(oids@)),
            connected is Ok ==> (r matches Ok(p) ==> {
                &&& p.name == name
                &&& p.target == target
                &&& p.port == port
                &&& p.timeout_ms == timeout_ms
                &&& p.oids@.len() == oids@.len()
                &&& forall|i: int|
                    0 <= i < oids@.len() ==> oid_arcs(#[trigger] p.oids@[i]) == oid_text_arcs(
                        oids@[i]@,
                    )
            }),
            connected is Ok ==> forall|p: int|
                is_first_invalid(oids@, p) ==> (r matches Err(e) && e@ == create_oids_message(
                    oids@[p]@,
                )),
    {
        if let Err(e) = connected {
            return Err(SnmpProvider::connect_error(target, port, e.as_str()));
        }
        let oids = create_oids(oids)?;
        Ok(SnmpProvider { name, target, port, timeout_ms, oids })
    }

    /// The outcome of a request for the provider's OIDs: the answered variables
    /// joined by `" | "`, or the error.
    pub fn get_many(&self, response: Result<Vec<(Oid, String)>, String>) -> (r: Result<
        String,
        String,
    >)
        ensures
            match response {
                Ok(binds) => r matches Ok(m) && m@ == join_spec(varbind_texts(binds@), " | "@),
                Err(e) => r matches Err(m) && m@ == "SNMP error: "@ + e@,
            },
    {
        match response {
            Ok(binds) => {
                let mut texts: Vec<String> = Vec::new();
                let mut i: usize = 0;
                while i < binds.len()
                    invariant
                        i <= binds@.len(),
                        texts@.len() == i,
                        forall|k: int|
                            0 <= k < i ==> (#[trigger] texts@[k])@ == varbind_text(
                                binds@[k].0,
                                binds@[k].1@,
                            ),
                    decreases binds.len() - i,
                {
                    let mut t = oid_to_text(&binds[i].0);
                    t.append("=");
                    t.append(binds[i].1.as_str());
                    texts.push(t);
                    i = i + 1;
                }
                let joined = join_strings(&texts, " | ");
                assert(texts@.map_values(|p: String| p@) =~= varbind_texts(binds@));
                Ok(joined)
            },
            Err(e) => {
                let mut m = String::from_str("SNMP error: ");
                m.append(e.as_str());
                Err(m)
            },
        }
    }

    /// The message for a client that could not connect to `target`:`port`.
    pub fn connect_error(target: IpAddress, port: u16, e: &str) -> (r: String)
        ensures
            r@ == connect_error_text(target, port, e@),
    {
        let target_text = target.to_text();
        let mut m = String::from_str("SNMP: failed to connect to ");
        m.append(target_text.as_str());
        m.append(":");
        m.append(decimal_text(port as u64).as_str());
        m.append(" — ");
        m.append(e);
        m
    }

    pub fn get_provider_name(&self) -> (r: String)
        ensures
            r@ == "SnmpProvider"@,
    {
        String::from_str("SnmpProvider")
    }

    pub fn dump(&self) -> (r: ProviderConfig)
        ensures
            r == (ProviderConfig {
                name: PollType::Snmp,
                target: self.target,
                timeout_ms: self.timeout_ms,
                extra: None,
            }),
    {
        ProviderConfig { name: PollType::Snmp, target: self.target, timeout_ms: self.timeout_ms, extra: None }
    }
}

impl Pollable for SnmpProvider {
    open spec fn config_spec(&self) -> ProviderConfig {
        ProviderConfig { name: PollType::Snmp, target: self.target, timeout_ms: self.timeout_ms, extra: None }
    }

    open spec fn username_spec(&self) -> Seq<char> {
        self.name@
    }

    fn username(&self) -> (r: String) {
        self.name.clone()
    }

    fn target(&self) -> (r: IpAddress) {
        self.target
    }

    fn whoami(&self) -> (r: PollType) {
        PollType::Snmp
    }

    fn dump(&self) -> (r: ProviderConfig) {
        SnmpProvider::dump(self)
    }
}

} // verus!
