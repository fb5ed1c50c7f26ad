use vstd::prelude::*;
use vstd::string::*;

use crate::models::{IpAddress, Strategy};
use crate::poller::PollerConfig;
use crate::text::{
    chars_of, clone_strings, contains_spec, contains_text, split_chars, split_spec, string_from_chars,
};

verus! {

/// The monitor's configuration.
#[derive(Debug, Clone)]
pub struct Config {
    pub strategy: Strategy,
    pub log: String,
    pub network: NetworkConfig,
    pub independent: IndependentStrategyConfig,
    pub synchronized: SynchronizedStrategyConfig,
}

/// The host that every provider polls.
#[derive(Debug, Clone, Copy, PartialEq, Eq)]
pub struct NetworkConfig {
    pub target: IpAddress,
}

/// The providers of the independent strategy, each polled at its own interval.
#[derive(Debug, Clone, Default)]
pub struct IndependentStrategyConfig {
    pub ping: Vec<IndependentPingInstance>,
    pub snmp: Vec<IndependentSnmpInstance>,
    pub tracert: Vec<IndependentTracertInstance>,
}

#[derive(Debug, Clone, PartialEq, Eq)]
pub struct IndependentPingInstance {
    pub name: String,
    pub interval_ms: u64,
    pub timeout_ms: u64,
    pub fallback_tracert: bool,
    pub retries: u8,
    pub retries_delay_ms: u64,
}

#[derive(Debug, Clone, PartialEq, Eq)]
pub struct IndependentSnmpInstance {
    pub name: String,
    pub interval_ms: u64,
    pub timeout_ms: u64,
    pub port: u16,
    pub community: String,
    pub retries: u8,
    pub retries_delay_ms: u64,
    pub oids: Vec<String>,
}

#[derive(Debug, Clone, PartialEq, Eq)]
pub struct IndependentTracertInstance {
    pub name: String,
    pub interval_ms: u64,
    pub max_hops: u32,
    pub queries_per_hop: u32,
}

/// The providers of the synchronized strategy, all polled together at one interval.
#[derive(Debug, Clone, Default)]
pub struct SynchronizedStrategyConfig {
    pub interval_ms: u64,
    pub ping: Vec<SynchronizedPingInstance>,
    pub snmp: Vec<SynchronizedSnmpInstance>,
    pub tracert: Vec<SynchronizedTracertInstance>,
}

#[derive(Debug, Clone, PartialEq, Eq)]
pub struct SynchronizedPingInstance {
    pub name: String,
    pub timeout_ms: u64,
    pub fallback_tracert: bool,
    pub retries: u8,
    pub retries_delay_ms: u64,
}

#[derive(Debug, Clone, PartialEq, Eq)]
pub struct SynchronizedSnmpInstance {
    pub name: String,
    pub timeout_ms: u64,
    pub port: u16,
    pub community: String,
    pub retries: u8,
    pub retries_delay_ms: u64,
    pub oids: Vec<String>,
}

#[derive(Debug, Clone, PartialEq, Eq)]
pub struct SynchronizedTracertInstance {
    pub name: String,
    pub max_hops: u32,
    pub queries_per_hop: u32,
}

/// The piece of `msg` between its first and second backquote, if it has one.
pub open spec fn quoted_piece(msg: Seq<char>) -> Option<Seq<char>> {
    let parts = split_spec(msg, '`');
    if parts.len() >= 2 {
        Some(parts[1])
    } else {
        None
    }
}

/// A reader's version of a configuration parser's message.
pub open spec fn friendly_error_text(msg: Seq<char>) -> Seq<char> {
    if contains_spec(msg, "missing field"@) {
        match quoted_piece(msg) {
            Some(f) => "отсутствует поле '"@ + f + "'"@,
            None => "отсутствует обязательное поле"@,
        }
    } else if contains_spec(msg, "unknown field"@) && quoted_piece(msg) is Some {
        "неизвестное поле '"@ + quoted_piece(msg).unwrap() + "' — проверьте название"@
    } else if contains_spec(msg, "invalid type"@) {
        "неверный тип значения (например, строка вместо числа)"@
    } else {
        msg
    }
}

/// A reader's version of the message of a configuration parser's error: the
/// missing or unknown field by name, or a wrong value type; any other message
/// as it is.
pub fn user_friendly_error(msg: &str) -> (r: String)
    ensures
        r@ == friendly_error_text(msg@),
{
    let chars = chars_of(msg);
    let parts = split_chars(&chars, '`');
    let ghost pv = parts@.map_values(|p: Vec<char>| p@);
    assert(pv == split_spec(msg@, '`'));
    if contains_text(msg, "missing field") {
        if parts.len() >= 2 {
            let field = string_from_chars(&parts[1]);
            let mut r = String::from_str("отсутствует поле '");
            r.append(field.as_str());
            r.append("'");
            return r;
        }
        return String::from_str("отсутствует обязательное поле");
    }
    if contains_text(msg, "unknown field") {
        if parts.len() >= 2 {
            let field = string_from_chars(&parts[1]);
            let mut r = String::from_str("неизвестное поле '");
            r.append(field.as_str());
            r.append("' — проверьте название");
            return r;
        }
    }
    if contains_text(msg, "invalid type") {
        return String::from_str("неверный тип значения (например, строка вместо числа)");
    }
    String::from_str(msg)
}

/// The configuration that `generate-config` writes.
pub const DEFAULT_CONFIG: &'static str = r#"strategy = "independent"
log = "monitor.json"

[network]
target = "10.179.180.190"

# ============================================
# INDEPENDENT STRATEGY
# ============================================

# ---------- PING ----------
[[independent.ping]]
name = "fast"
interval_ms = 1000
timeout_ms = 200
fallback_tracert = false
retries = 3
retries_delay_ms = 200

[[independent.ping]]
name = "slow"
interval_ms = 5000
timeout_ms = 500
fallback_tracert = true
retries = 5
retries_delay_ms = 500

# ---------- SNMP ----------
[[independent.snmp]]
name = "main"
interval_ms = 6000
timeout_ms = 350
port = 161
community = "UTMC"
retries = 2
retries_delay_ms = 300
oids = [
    "1.3.6.1.2.1.1.3.0",
    "1.3.6.1.4.1.13267.3.2.4.1.0",
]

# ---------- TRACERT ----------
[[independent.tracert]]
name = "default"
interval_ms = 30000
max_hops = 30
queries_per_hop = 1

# ============================================
# SYNCHRONIZED STRATEGY
# ============================================

[synchronized]
interval_ms = 4000

# ---------- PING ----------
[[synchronized.ping]]
name = "primary"
timeout_ms = 200
fallback_tracert = true
retries = 3
retries_delay_ms = 200

# ---------- SNMP ----------
[[synchronized.snmp]]
name = "main"
timeout_ms = 350
port = 161
community = "UTMC"
retries = 2
retries_delay_ms = 300
oids = [
    "1.3.6.1.2.1.1.3.0",
]

# ---------- TRACERT ----------
[[synchronized.tracert]]
name = "default"
max_hops = 30
queries_per_hop = 1
"#;

/// What `generate-config` does.
#[derive(Debug, Clone, PartialEq, Eq)]
pub enum GenerateAction {
    /// Print this text.
    Show(String),
    /// Write this text to the output file.
    Write(String),
}

impl Config {
    /// Decides what `generate-config` does: print the default configuration
    /// when asked to show it; refuse to overwrite an existing file unless
    /// forced; else write the default configuration to `output`.
    pub fn generate_default(output: &str, force: bool, show: bool, file_exists: bool) -> (r: Result<
        GenerateAction,
        String,
    >)
        ensures
            show ==> (r matches Ok(GenerateAction::Show(t)) && t@ == DEFAULT_CONFIG@),
            !show && file_exists && !force ==> (r matches Err(e) && e@ == "❌ Файл '"@ + output@
                + "' уже существует.\n💡 Используйте --force для перезаписи."@),
            !show && (!file_exists || force) ==> (r matches Ok(GenerateAction::Write(t)) && t@
                == DEFAULT_CONFIG@),
    {
        if show {
            return Ok(GenerateAction::Show(String::from_str(DEFAULT_CONFIG)));
        }
        if file_exists && !force {
            let mut e = String::from_str("❌ Файл '");
            e.append(output);
            e.append("' уже существует.\n💡 Используйте --force для перезаписи.");
            return Err(e);
        }
        Ok(GenerateAction::Write(String::from_str(DEFAULT_CONFIG)))
    }

    /// What `generate-config` reports once the write to `output` is over: the
    /// line to print, or the error.
    pub fn write_outcome(output: &str, written: Result<(), String>) -> (r: Result<String, String>)
        ensures
            match written {
                Ok(()) => r matches Ok(m) && m@ == "✅ Дефолтный конфиг создан: "@ + output@,
                Err(e) => r matches Err(m) && m@ == "❌ Не удалось записать '"@ + output@ + "': "@
                    + e@,
            },
    {
        match written {
            Ok(()) => {
                let mut m = String::from_str("✅ Дефолтный конфиг создан: ");
                m.append(output);
                Ok(m)
            },
            Err(e) => {
                let mut m = String::from_str("❌ Не удалось записать '");
                m.append(output);
                m.append("': ");
                m.append(e.as_str());
                Err(m)
            },
        }
    }

    /// The message for a configuration file that could not be read.
    pub fn read_error(path: &str, e: &str) -> (r: String)
        ensures
            r@ == "❌ Не удалось прочитать '"@ + path@ + "': "@ + e@,
    {
        let mut m = String::from_str("❌ Не удалось прочитать '");
        m.append(path);
        m.append("': ");
        m.append(e);
        m
    }

    /// The message for a configuration file that could not be parsed, from the
    /// parser's message.
    pub fn parse_error(msg: &str) -> (r: String)
        ensures
            r@ == "❌ Ошибка в конфиге: "@ + friendly_error_text(msg@),
    {
        let mut m = String::from_str("❌ Ошибка в конфиге: ");
        m.append(user_friendly_error(msg).as_str());
        m
    }
}

/// A provider to set up, with the schedule of its poller.
#[derive(Debug, Clone, PartialEq, Eq)]
pub enum ProviderPlan {
    Icmp { name: String, timeout_ms: u64, poll: PollerConfig },
    Snmp {
        name: String,
        timeout_ms: u64,
        port: u16,
        community: String,
        oids: Vec<String>,
        poll: PollerConfig,
    },
}

/// Whether `p` sets up the ping instance `i` of the independent strategy.
pub open spec fn plans_independent_ping(p: ProviderPlan, i: IndependentPingInstance) -> bool {
    p == ProviderPlan::Icmp {
        name: i.name,
        timeout_ms: i.timeout_ms,
        poll: PollerConfig {
            interval_ms: i.interval_ms,
            retries: i.retries,
            retries_delay_ms: i.retries_delay_ms,
        },
    }
}

/// Whether `p` sets up the SNMP instance `i` of the independent strategy.
pub open spec fn plans_independent_snmp(p: ProviderPlan, i: IndependentSnmpInstance) -> bool {
    match p {
        ProviderPlan::Snmp { name, timeout_ms, port, community, oids, poll } => {
            &&& name == i.name
            &&& timeout_ms == i.timeout_ms
            &&& port == i.port
            &&& community == i.community
            &&& oids@ == i.oids@
            &&& poll == PollerConfig {
                interval_ms: i.interval_ms,
                retries: i.retries,
                retries_delay_ms: i.retries_delay_ms,
            }
        },
        _ => false,
    }
}

/// Whether `p` sets up the ping instance `i` of the synchronized strategy,
/// polled every `interval_ms`.
pub open spec fn plans_synchronized_ping(
    p: ProviderPlan,
    i: SynchronizedPingInstance,
    interval_ms: u64,
) -> bool {
    p == ProviderPlan::Icmp {
        name: i.name,
        timeout_ms: i.timeout_ms,
        poll: PollerConfig { interval_ms, retries: i.retries, retries_delay_ms: i.retries_delay_ms },
    }
}

/// Whether `p` sets up the SNMP instance `i` of the synchronized strategy,
/// polled every `interval_ms`.
pub open spec fn plans_synchronized_snmp(
    p: ProviderPlan,
    i: SynchronizedSnmpInstance,
    interval_ms: u64,
) -> bool {
    match p {
        ProviderPlan::Snmp { name, timeout_ms, port, community, oids, poll } => {
            &&& name == i.name
            &&& timeout_ms == i.timeout_ms
            &&& port == i.port
            &&& community == i.community
            &&& oids@ == i.oids@
            &&& poll == PollerConfig {
                interval_ms,
                retries: i.retries,
                retries_delay_ms: i.retries_delay_ms,
            }
        },
        _ => false,
    }
}

/// An SNMP plan of either strategy connects to the agent as its instance
/// says: it carries the instance's name, port, community and OIDs, and the
/// instance's retries and pause between them.
pub proof fn law_snmp_plans_keep_the_instance(
    p: ProviderPlan,
    a: IndependentSnmpInstance,
    b: SynchronizedSnmpInstance,
    q: ProviderPlan,
    interval_ms: u64,
)
    requires
        plans_independent_snmp(p, a),
        plans_synchronized_snmp(q, b, interval_ms),
    ensures
        p matches ProviderPlan::Snmp { name, timeout_ms, port, community, oids, poll } && name@
            == a.name@ && timeout_ms == a.timeout_ms && port == a.port && community@ == a.community@
            && oids@ == a.oids@ && poll.interval_ms == a.interval_ms && poll.retries == a.retries
            && poll.retries_delay_ms == a.retries_delay_ms,
        q matches ProviderPlan::Snmp { name, timeout_ms, port, community, oids, poll } && name@
            == b.name@ && timeout_ms == b.timeout_ms && port == b.port && community@ == b.community@
            && oids@ == b.oids@ && poll.interval_ms == interval_ms && poll.retries == b.retries
            && poll.retries_delay_ms == b.retries_delay_ms,
{
}

/// A ping plan of either strategy carries its instance's name and timeout,
/// and the instance's retries and pause between them.
pub proof fn law_ping_plans_keep_the_instance(
    p: ProviderPlan,
    a: IndependentPingInstance,
    q: ProviderPlan,
    b: SynchronizedPingInstance,
    interval_ms: u64,
)
    requires
        plans_independent_ping(p, a),
        plans_synchronized_ping(q, b, interval_ms),
    ensures
        p matches ProviderPlan::Icmp { name, timeout_ms, poll } && name@ == a.name@ && timeout_ms
            == a.timeout_ms && poll.interval_ms == a.interval_ms && poll.retries == a.retries
            && poll.retries_delay_ms == a.retries_delay_ms,
        q matches ProviderPlan::Icmp { name, timeout_ms, poll } && name@ == b.name@ && timeout_ms
            == b.timeout_ms && poll.interval_ms == interval_ms && poll.retries == b.retries
            && poll.retries_delay_ms == b.retries_delay_ms,
{
}

impl Config {
    /// The providers of the independent strategy, in the order the monitor
    /// sets them up: every ping instance, then every SNMP instance.
    pub fn independent_plan(&self) -> (r: Vec<ProviderPlan>)
        ensures
            r@.len() == self.independent.ping@.len() + self.independent.snmp@.len(),
            forall|i: int|
                0 <= i < self.independent.ping@.len() ==> plans_independent_ping(
                    #[trigger] r@[i],
                    self.independent.ping@[i],
                ),
            forall|j: int|
                0 <= j < self.independent.snmp@.len() ==> plans_independent_snmp(
                    #[trigger] r@[self.independent.ping@.len() + j],
                    self.independent.snmp@[j],
                ),
            forall|j: int|
                0 <= j < self.independent.snmp@.len() ==> (#[trigger] r@[self.independent.ping@.len()
                    + j] matches ProviderPlan::Snmp { name, port, community, oids, .. } && {
                    let inst = self.independent.snmp@[j];
                    &&& name@ == inst.name@
                    &&& port == inst.port
                    &&& community@ == inst.community@
                    &&& oids@ == inst.oids@
                }),
    {
        let pings = &self.independent.ping;
        let snmps = &self.independent.snmp;
        let mut r: Vec<ProviderPlan> = Vec::new();
        let mut i: usize = 0;
        while i < pings.len()
            invariant
                i <= pings@.len(),
                r@.len() == i,
                forall|k: int| 0 <= k < i ==> plans_independent_ping(#[trigger] r@[k], pings@[k]),
            decreases pings.len() - i,
        {
            let inst = &pings[i];
            r.push(
                ProviderPlan::Icmp {
                    name: inst.name.clone(),
                    timeout_ms: inst.timeout_ms,
                    poll: PollerConfig::new(inst.interval_ms, inst.retries, inst.retries_delay_ms),
                },
            );
            i = i + 1;
        }
        let mut j: usize = 0;
        while j < snmps.len()
            invariant
                j <= snmps@.len(),
                r@.len() == pings@.len() + j,
                forall|k: int| 0 <= k < pings@.len() ==> plans_independent_ping(#[trigger] r@[k], pings@[k]),
                forall|k: int|
                    0 <= k < j ==> plans_independent_snmp(#[trigger] r@[pings@.len() + k], snmps@[k]),
            decreases snmps.len() - j,
        {
            let inst = &snmps[j];
            r.push(
                ProviderPlan::Snmp {
                    name: inst.name.clone(),
                    timeout_ms: inst.timeout_ms,
                    port: inst.port,
                    community: inst.community.clone(),
                    oids: clone_strings(&inst.oids),
                    poll: PollerConfig::new(inst.interval_ms, inst.retries, inst.retries_delay_ms),
                },
            );
            j = j + 1;
        }
        r
    }

    /// The providers of the synchronized strategy, in the order the monitor
    /// sets them up: every ping instance, then every SNMP instance, all polled
    /// at the strategy's interval.
    pub fn synchronized_plan(&self) -> (r: Vec<ProviderPlan>)
        ensures
            r@.len() == self.synchronized.ping@.len() + self.synchronized.snmp@.len(),
            forall|i: int|
                0 <= i < self.synchronized.ping@.len() ==> plans_synchronized_ping(
                    #[trigger] r@[i],
                    self.synchronized.ping@[i],
                    self.synchronized.interval_ms,
                ),
            forall|j: int|
                0 <= j < self.synchronized.snmp@.len() ==> plans_synchronized_snmp(
                    #[trigger] r@[self.synchronized.ping@.len() + j],
                    self.synchronized.snmp@[j],
                    self.synchronized.interval_ms,
                ),
            forall|j: int|
                0 <= j < self.synchronized.snmp@.len() ==> (#[trigger] r@[self.synchronized.ping@.len()
                    + j] matches ProviderPlan::Snmp { name, port, community, oids, .. } && {
                    let inst = self.synchronized.snmp@[j];
                    &&& name@ == inst.name@
                    &&& port == inst.port
                    &&& community@ == inst.community@
                    &&& oids@ == inst.oids@
                }),
    {
        let pings = &self.synchronized.ping;
        let snmps = &self.synchronized.snmp;
        let interval_ms = self.synchronized.interval_ms;
        let mut r: Vec<ProviderPlan> = Vec::new();
        let mut i: usize = 0;
        while i < pings.len()
            invariant
                i <= pings@.len(),
                r@.len() == i,
                forall|k: int|
                    0 <= k < i ==> plans_synchronized_ping(#[trigger] r@[k], pings@[k], interval_ms),
            decreases pings.len() - i,
        {
            let inst = &pings[i];
            r.push(
                ProviderPlan::Icmp {
                    name: inst.name.clone(),
                    timeout_ms: inst.timeout_ms,
                    poll: PollerConfig::new(interval_ms, inst.retries, inst.retries_delay_ms),
                },
            );
            i = i + 1;
        }
        let mut j: usize = 0;
        while j < snmps.len()
            invariant
                j <= snmps@.len(),
                r@.len() == pings@.len() + j,
                forall|k: int|
                    0 <= k < pings@.len() ==> plans_synchronized_ping(#[trigger] r@[k], pings@[k], interval_ms),
                forall|k: int|
                    0 <= k < j ==> plans_synchronized_snmp(
                        #[trigger] r@[pings@.len() + k],
                        snmps@[k],
                        interval_ms,
                    ),
            decreases snmps.len() - j,
        {
            let inst = &snmps[j];
            r.push(
                ProviderPlan::Snmp {
                    name: inst.name.clone(),
                    timeout_ms: inst.timeout_ms,
                    port: inst.port,
                    community: inst.community.clone(),
                    oids: clone_strings(&inst.oids),
                    poll: PollerConfig::new(interval_ms, inst.retries, inst.retries_delay_ms),
                },
            );
            j = j + 1;
        }
        r
    }
}

} // verus!
