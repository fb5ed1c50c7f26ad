use vstd::prelude::*;
use vstd::string::*;

use crate::models::{ip_text, IpAddress, PollType, ProviderConfig};
use crate::text::{dec_text, decimal_text, pad_right, pad_right_spec, repeat_char, repeat_spec};
use crate::traits::Pollable;

verus! {

/// The settings of a trace route.
#[derive(Debug, Clone, Copy, PartialEq, Eq)]
pub struct TracertProvider {
    pub target: IpAddress,
    pub max_hops: u8,
    pub queries_per_hop: u8,
}

/// One hop of a finished trace route, with its numbers already written out.
#[derive(Debug, Clone, PartialEq, Eq)]
pub struct HopRow {
    pub ttl: u8,
    /// The first address that answered at this hop, if any.
    pub addr: Option<IpAddress>,
    /// The average round trip in milliseconds with two decimals, if it is positive.
    pub avg_rtt: Option<String>,
    /// The loss in percent with one decimal.
    pub loss: String,
}

/// What became of a trace route.
#[derive(Debug, Clone, PartialEq, Eq)]
pub enum TraceOutcome {
    BuildFailed(String),
    RunFailed(String),
    Completed { hops: Vec<HopRow> },
}

/// The line of a hop in the trace route table.
pub open spec fn hop_line(h: HopRow) -> Seq<char> {
    let addr = match h.addr {
        Some(a) => ip_text(a),
        None => "*"@,
    };
    let rtt = match h.avg_rtt {
        Some(r) => r@,
        None => "---"@,
    };
    pad_right_spec(dec_text(h.ttl as nat), 3) + " "@ + pad_right_spec(addr, 20) + " "@
        + pad_right_spec(rtt, 15) + " "@ + pad_right_spec(h.loss@, 10) + "%\n"@
}

/// The lines of the hops, in order.
pub open spec fn hop_lines(hops: Seq<HopRow>) -> Seq<char>
    decreases hops.len(),
{
    if hops.len() == 0 {
        Seq::empty()
    } else {
        hop_lines(hops.drop_last()) + hop_line(hops.last())
    }
}

/// The heading of the trace route table.
pub open spec fn report_header(target: Seq<char>) -> Seq<char> {
    "\n=== Traceroute to "@ + target + " ===\n"@ + pad_right_spec("TTL"@, 3) + " "@
        + pad_right_spec("Address"@, 20) + " "@ + pad_right_spec("Avg RTT (ms)"@, 15) + " "@
        + pad_right_spec("Loss%"@, 10) + "\n"@ + repeat_spec('-', 60) + "\n"@
}

/// The text of a trace route to `target`: the error where it failed, else the
/// table of hops under a heading that names the target.
pub open spec fn traceroute_text(target: IpAddress, outcome: TraceOutcome) -> Seq<char> {
    match outcome {
        TraceOutcome::BuildFailed(e) => "Ошибка создания трассировщика: "@ + e@,
        TraceOutcome::RunFailed(e) => "Ошибка выполнения трассировки: "@ + e@,
        TraceOutcome::Completed { hops } => report_header(ip_text(target)) + hop_lines(hops@),
    }
}

impl TracertProvider {
    /// Trace route settings; this never fails.
    pub fn new(target: IpAddress, max_hops: u8, queries_per_hop: u8) -> (r: Result<Self, String>)
        ensures
            r matches Ok(t) && t.target == target && t.max_hops == max_hops && t.queries_per_hop
                == queries_per_hop,
    {
        Ok(TracertProvider { target, max_hops, queries_per_hop })
    }

    /// The text of a trace route run with these settings, from what became of it.
    pub fn traceroute(&self, outcome: &TraceOutcome) -> (r: String)
        ensures
            r@ == traceroute_text(self.target, *outcome),
    {
        match outcome {
            TraceOutcome::BuildFailed(e) => {
                let mut r = String::from_str("Ошибка создания трассировщика: ");
                r.append(e.as_str());
                r
            },
            TraceOutcome::RunFailed(e) => {
                let mut r = String::from_str("Ошибка выполнения трассировки: ");
                r.append(e.as_str());
                r
            },
            TraceOutcome::Completed { hops } => {
                let target_text = self.target.to_text();
                let mut r = String::from_str("\n=== Traceroute to ");
                r.append(target_text.as_str());
                r.append(" ===\n");
                r.append(pad_right("TTL", 3).as_str());
                r.append(" ");
                r.append(pad_right("Address", 20).as_str());
                r.append(" ");
                r.append(pad_right("Avg RTT (ms)", 15).as_str());
                r.append(" ");
                r.append(pad_right("Loss%", 10).as_str());
                r.append("\n");
                r.append(repeat_char('-', 60).as_str());
                r.append("\n");
                assert(r@ == report_header(target_text@));
                let ghost head = r@;
                let mut i: usize = 0;
                while i < hops.len()
                    invariant
                        i <= hops@.len(),
                        r@ == head + hop_lines(hops@.take(i as int)),
                    decreases hops.len() - i,
                {
                    let line = hop_line_text(&hops[i]);
                    r.append(line.as_str());
                    assert(hops@.take(i + 1).drop_last() =~= hops@.take(i as int));
                    i = i + 1;
                    assert(r@ =~= head + hop_lines(hops@.take(i as int)));
                }
                assert(hops@.take(hops@.len() as int) =~= hops@);
                r
            },
        }
    }
}

/// The line of a hop in the trace route table.
fn hop_line_text(h: &HopRow) -> (r: String)
    ensures
        r@ == hop_line(*h),
{
    let ttl = decimal_text(h.ttl as u64);
    let mut r = pad_right(ttl.as_str(), 3);
    r.append(" ");
    match &h.addr {
        Some(a) => r.append(pad_right(a.to_text().as_str(), 20).as_str()),
        None => r.append(pad_right("*", 20).as_str()),
    }
    r.append(" ");
    match &h.avg_rtt {
        Some(t) => r.append(pad_right(t.as_str(), 15).as_str()),
        None => r.append(pad_right("---", 15).as_str()),
    }
    r.append(" ");
    r.append(pad_right(h.loss.as_str(), 10).as_str());
    r.append("%\n");
    r
}

/// The status of an ICMP echo reply.
#[derive(Debug, Clone, Copy, PartialEq, Eq, Structural)]
pub enum EchoStatus {
    Success,
    TimedOut,
    Unreachable,
    Unknown,
}

/// What `{:?}` writes for the `Duration` of `secs` seconds and `nanos` nanoseconds.
pub uninterp spec fn duration_debug(secs: u64, nanos: u32) -> Seq<char>;

/// The `Debug` text of `Duration::new(secs, nanos)`.
#[verifier::external_body]
fn duration_debug_text(secs: u64, nanos: u32) -> (s: String)
    requires
        nanos < 1_000_000_000,
    ensures
        s@ == duration_debug(secs, nanos),
{
    format!("{:?}", std::time::Duration::new(secs, nanos))
}

/// The outcome of one echo request whose reply came back with `status`, `rtt`
/// being the text of its round trip time: a message on success, an error otherwise.
pub open spec fn echo_reply_outcome(status: EchoStatus, rtt: Seq<char>) -> Result<Seq<char>, Seq<char>> {
    match status {
        EchoStatus::Success => Ok("Успех. RTT: "@ + rtt),
        EchoStatus::TimedOut => Err("Превышен таймаут ответа.: "@ + rtt),
        EchoStatus::Unreachable => Err("Хост недоступен. RTT: "@ + rtt),
        EchoStatus::Unknown => Err("Ошибка запроса(Unknown)"@),
    }
}

/// An ICMP echo poller of a target, with trace route settings for when it fails.
#[derive(Debug, Clone, PartialEq, Eq)]
pub struct IcmpProvider {
    pub name: String,
    pub target: IpAddress,
    pub tracert: Option<TracertProvider>,
    pub timeout_ms: u64,
}

impl IcmpProvider {
    pub fn new(
        name: String,
        target: IpAddress,
        timeout_ms: u64,
        tracert: Option<TracertProvider>,
    ) -> (r: Self)
        ensures
            r.name == name,
            r.target == target,
            r.timeout_ms == timeout_ms,
            r.tracert == tracert,
    {
        IcmpProvider { name, target, tracert, timeout_ms }
    }

    /// The message for an echo requestor that could not be created.
    pub fn requestor_error(e: &str) -> (r: String)
        ensures
            r@ == "Ошибка создания ping-опроса: "@ + e@,
    {
        let mut m = String::from_str("Ошибка создания ping-опроса: ");
        m.append(e);
        m
    }

    /// The outcome of an echo request that got a reply.
    pub fn reply_outcome(status: EchoStatus, rtt_secs: u64, rtt_nanos: u32) -> (r: Result<
        String,
        String,
    >)
        requires
            rtt_nanos < 1_000_000_000,
        ensures
            match r {
                Ok(m) => echo_reply_outcome(status, duration_debug(rtt_secs, rtt_nanos)) == Ok::<
                    Seq<char>,
                    Seq<char>,
                >(m@),
                Err(e) => echo_reply_outcome(status, duration_debug(rtt_secs, rtt_nanos)) == Err::<
                    Seq<char>,
                    Seq<char>,
                >(e@),
            },
    {
        let rtt = duration_debug_text(rtt_secs, rtt_nanos);
        match status {
            EchoStatus::Success => {
                let mut m = String::from_str("Успех. RTT: ");
                m.append(rtt.as_str());
                Ok(m)
            },
            EchoStatus::TimedOut => {
                let mut m = String::from_str("Превышен таймаут ответа.: ");
                m.append(rtt.as_str());
                Err(m)
            },
            EchoStatus::Unreachable => {
                let mut m = String::from_str("Хост недоступен. RTT: ");
                m.append(rtt.as_str());
                Err(m)
            },
            EchoStatus::Unknown => Err(String::from_str("Ошибка запроса(Unknown)")),
        }
    }

    /// The outcome of an echo request that could not be sent.
    pub fn send_error_outcome(e: &str) -> (r: Result<String, String>)
        ensures
            r matches Err(m) && m@ == "Ошибка: "@ + e@,
    {
        let mut m = String::from_str("Ошибка: ");
        m.append(e);
        Err(m)
    }

    /// The trace route settings, which the log shows as the provider's extra part.
    pub fn get_extra(&self) -> (r: Option<TracertProvider>)
        ensures
            r == self.tracert,
    {
        self.tracert
    }

    pub fn dump(&self) -> (r: ProviderConfig)
        ensures
            r == (ProviderConfig {
                name: PollType::Ping,
                target: self.target,
                timeout_ms: self.timeout_ms,
                extra: self.tracert,
            }),
    {
        ProviderConfig {
            name: PollType::Ping,
            target: self.target,
            timeout_ms: self.timeout_ms,
            extra: self.get_extra(),
        }
    }

    pub fn get_name(&self) -> (r: String)
        ensures
            r@ == "IcmpProvider"@,
    {
        String::from_str("IcmpProvider")
    }
}

impl Pollable for IcmpProvider {
    open spec fn config_spec(&self) -> ProviderConfig {
        ProviderConfig {
            name: PollType::Ping,
            target: self.target,
            timeout_ms: self.timeout_ms,
            extra: self.tracert,
        }
    }

    open spec fn username_spec(&self) -> Seq<char> {
        self.name@
    }

    fn username(&self) -> (r: String) {
        self.name.clone()
    }

    fn target(&self) -> (r: IpAddress) {
        self.target
    }

    fn whoami(&self) -> (r: PollType) {
        PollType::Ping
    }

    fn dump(&self) -> (r: ProviderConfig) {
        IcmpProvider::dump(self)
    }
}

} // verus!
