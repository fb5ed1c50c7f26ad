use net_monitor::icmp::{EchoStatus, HopRow, IcmpProvider, TraceOutcome, TracertProvider};
use net_monitor::models::{ConfigStrategyDetails, Event, IpAddress, PollType, ProviderConfig, Strategy};
use async_snmp::Oid;
use net_monitor::poller::{
    check_spawned_tasks, ctrl_c_error, init_failed_message, sender_setup_error, IndependentPoller, PollerConfig, Provider,
    RetryAction, RetryRun, SynchronizedPoller,
};
use net_monitor::snmp::SnmpProvider;
use net_monitor::traits::Pollable;

const TARGET: IpAddress = IpAddress::V4([10, 179, 180, 190]);

fn icmp(name: &str) -> IcmpProvider {
    IcmpProvider::new(name.to_string(), TARGET, 200, None)
}

#[test]
fn poller_config_new_keeps_fields() {
    let c = PollerConfig::new(1000, 3, 200);
    assert_eq!(c, PollerConfig { interval_ms: 1000, retries: 3, retries_delay_ms: 200 });
}

#[test]
fn retry_run_stops_at_first_success() {
    let mut run = RetryRun::new(3, 200);
    assert_eq!(run.start(), RetryAction::Fetch);
    assert_eq!(run.record(Err("timeout".to_string())), RetryAction::SleepThenFetch(200));
    assert_eq!(run.record(Ok("pong".to_string())), RetryAction::Done);
    let r = run.finish(TARGET, PollType::Ping, "s".to_string(), "e".to_string(), 1_500_000);
    assert!(r.success);
    assert_eq!(r.attempts, 2);
    assert_eq!(r.details, Some("Попытка 1: timeout; Попытка 2: pong".to_string()));
    assert_eq!(r.latency_ns, 1_500_000);
    assert_eq!(r.start, "s");
    assert_eq!(r.end, "e");
    assert_eq!(r.test_type, PollType::Ping);
    assert_eq!(r.target, TARGET);
}

#[test]
fn retry_run_gives_up_after_retries() {
    let mut run = RetryRun::new(2, 50);
    assert_eq!(run.start(), RetryAction::Fetch);
    assert_eq!(run.record(Err("a".to_string())), RetryAction::SleepThenFetch(50));
    assert_eq!(run.record(Err("b".to_string())), RetryAction::Done);
    let r = run.finish(TARGET, PollType::Snmp, String::new(), String::new(), 0);
    assert!(!r.success);
    assert_eq!(r.attempts, 2);
    assert_eq!(r.details, Some("Попытка 1: a; Попытка 2: b".to_string()));
}

#[test]
fn retry_run_with_no_retries_makes_no_attempt() {
    let run = RetryRun::new(0, 50);
    assert_eq!(run.start(), RetryAction::Done);
    let r = run.finish(TARGET, PollType::Ping, String::new(), String::new(), 0);
    assert!(!r.success);
    assert_eq!(r.attempts, 0);
    assert_eq!(r.details, Some(String::new()));
}

#[test]
fn independent_poller_counts_steps() {
    let mut p = IndependentPoller::new(icmp("fast"), PollerConfig::new(1000, 3, 200));
    let payload = RetryRun::new(0, 0).finish(TARGET, PollType::Ping, String::new(), String::new(), 0);
    for expected in 1..=3usize {
        match p.next_event(payload.clone()) {
            Event::PollResult { strategy, step, .. } => {
                assert_eq!(strategy, Strategy::Independent);
                assert_eq!(step, expected);
            }
            _ => panic!("unexpected event"),
        }
    }
    assert_eq!(p.step, 3);
}

#[test]
fn independent_poller_dump_and_config_event() {
    let p = IndependentPoller::new(Provider::Icmp(icmp("fast")), PollerConfig::new(1000, 3, 200));
    let d = p.dump();
    assert_eq!(d.retries, 3);
    assert_eq!(d.retries_interval_ms, 200);
    assert_eq!(d.interval_ms, 1000);
    assert_eq!(d.provider.name, PollType::Ping);
    assert_eq!(d.provider.timeout_ms, 200);
    match IndependentPoller::config_event(&vec![p]) {
        Event::Config { strategy: Strategy::Independent, details: ConfigStrategyDetails::Independent { pollers } } => {
            assert_eq!(pollers.len(), 1);
            assert_eq!(pollers[0].interval_ms, 1000);
        }
        _ => panic!("unexpected event"),
    }
}

#[test]
fn synchronized_poller_dump_and_steps() {
    let snmp = SnmpProvider::new("main".to_string(), TARGET, 161, &["1.3.6.1.2.1.1.3.0".to_string()], 350, Ok(())).unwrap();
    let mut p = SynchronizedPoller::new(
        vec![
            (Provider::Icmp(icmp("primary")), PollerConfig::new(4000, 3, 200)),
            (Provider::Snmp(snmp), PollerConfig::new(4000, 2, 300)),
        ],
        4500,
    );
    match p.dump() {
        ConfigStrategyDetails::Synchronized { interval_seconds, providers } => {
            assert_eq!(interval_seconds, 4);
            assert_eq!(providers.len(), 2);
            assert_eq!(providers[0].name, PollType::Ping);
            assert_eq!(providers[1].name, PollType::Snmp);
            assert_eq!(providers[1].timeout_ms, 350);
        }
        _ => panic!("unexpected details"),
    }
    assert!(matches!(p.config_event(), Event::Config { strategy: Strategy::Synchronized, .. }));
    assert_eq!(p.next_step(), 1);
    assert_eq!(p.next_step(), 2);
    let payload = RetryRun::new(0, 0).finish(TARGET, PollType::Ping, String::new(), String::new(), 0);
    assert!(matches!(
        SynchronizedPoller::poll_event(2, payload),
        Event::PollResult { strategy: Strategy::Synchronized, step: 2, .. }
    ));
}

#[test]
fn startup_messages() {
    assert_eq!(init_failed_message("IcmpProvider", "boom"), "IcmpProvider init failed.: boom");
    assert_eq!(check_spawned_tasks(0), Err("Нет задач для опроса. Монитор не запущен.".to_string()));
    assert_eq!(check_spawned_tasks(2), Ok(()));
    assert_eq!(sender_setup_error(), "Ошибка конфигурации.\n");
    assert_eq!(ctrl_c_error("no signal"), "Ошибка системы: no signal");
}

#[test]
fn icmp_provider_describes_itself() {
    let t = TracertProvider::new(TARGET, 30, 1).unwrap();
    let p = IcmpProvider::new("slow".to_string(), TARGET, 500, Some(t));
    assert_eq!(p.get_name(), "IcmpProvider");
    assert_eq!(p.get_extra(), Some(t));
    let d = p.dump();
    assert_eq!(d.name, PollType::Ping);
    assert_eq!(d.target, TARGET);
    assert_eq!(d.timeout_ms, 500);
    assert_eq!(d.extra, Some(t));
    assert_eq!(Pollable::username(&p), "slow");
    assert_eq!(Pollable::whoami(&p), PollType::Ping);
    assert_eq!(Pollable::target(&p), TARGET);
}

#[test]
fn icmp_reply_outcomes() {
    assert_eq!(IcmpProvider::reply_outcome(EchoStatus::Success, 0, 1_500_000), Ok("Успех. RTT: 1.5ms".to_string()));
    assert_eq!(
        IcmpProvider::reply_outcome(EchoStatus::TimedOut, 2, 0),
        Err("Превышен таймаут ответа.: 2s".to_string())
    );
    assert_eq!(
        IcmpProvider::reply_outcome(EchoStatus::Unreachable, 0, 250),
        Err("Хост недоступен. RTT: 250ns".to_string())
    );
    assert_eq!(IcmpProvider::reply_outcome(EchoStatus::Unknown, 0, 0), Err("Ошибка запроса(Unknown)".to_string()));
    assert_eq!(IcmpProvider::send_error_outcome("denied"), Err("Ошибка: denied".to_string()));
    assert_eq!(IcmpProvider::requestor_error("x"), "Ошибка создания ping-опроса: x");
}

#[test]
fn traceroute_texts() {
    let t = TracertProvider::new(TARGET, 30, 1).unwrap();
    assert_eq!(t.traceroute(&TraceOutcome::BuildFailed("e1".to_string())), "Ошибка создания трассировщика: e1");
    assert_eq!(t.traceroute(&TraceOutcome::RunFailed("e2".to_string())), "Ошибка выполнения трассировки: e2");
    let hops = vec![
        HopRow { ttl: 1, addr: Some(IpAddress::V4([10, 0, 0, 1])), avg_rtt: Some("1.25".to_string()), loss: "0.0".to_string() },
        HopRow { ttl: 2, addr: None, avg_rtt: None, loss: "100.0".to_string() },
    ];
    let text = t.traceroute(&TraceOutcome::Completed { hops });
    let mut expected = String::new();
    expected.push_str("\n=== Traceroute to 10.179.180.190 ===\n");
    expected.push_str(&format!("{:<3} {:<20} {:<15} {:<10}\n", "TTL", "Address", "Avg RTT (ms)", "Loss%"));
    expected.push_str(&"-".repeat(60));
    expected.push('\n');
    expected.push_str(&format!("{:<3} {:<20} {:<15} {:<10.1}%\n", 1, "10.0.0.1", "1.25", 0.0f64));
    expected.push_str(&format!("{:<3} {:<20} {:<15} {:<10.1}%\n", 2, "*", "---", 100.0f64));
    assert_eq!(text, expected);
}

#[test]
fn snmp_provider_new_and_responses() {
    let p = SnmpProvider::new("main".to_string(), TARGET, 161, &["1.3.6.1.2.1.1.3.0".to_string()], 350, Ok(())).unwrap();
    assert_eq!(p.oids.len(), 1);
    assert_eq!(p.oids[0].arcs(), &[1, 3, 6, 1, 2, 1, 1, 3, 0]);
    assert_eq!(p.get_provider_name(), "SnmpProvider");
    let d: ProviderConfig = p.dump();
    assert_eq!(d.name, PollType::Snmp);
    assert_eq!(d.extra, None);
    let ok = p.get_many(Ok(vec![
        (Oid::from(vec![1, 3, 6]), "Counter(5)".to_string()),
        (Oid::from(vec![1, 3, 7, 0]), "OctetString(\"x\")".to_string()),
    ]));
    assert_eq!(ok, Ok("1.3.6=Counter(5) | 1.3.7.0=OctetString(\"x\")".to_string()));
    assert_eq!(p.get_many(Ok(vec![])), Ok(String::new()));
    assert_eq!(p.get_many(Err("timeout".to_string())), Err("SNMP error: timeout".to_string()));
    assert_eq!(
        SnmpProvider::connect_error(TARGET, 161, "refused"),
        "SNMP: failed to connect to 10.179.180.190:161 — refused"
    );
    assert_eq!(
        SnmpProvider::new("m".to_string(), TARGET, 161, &["1.z".to_string()], 1, Ok(())).unwrap_err(),
        "Internal error: invalid OID '1.z' passed to create_oids"
    );
}

#[test]
fn snmp_provider_new_reports_a_failed_connection_first() {
    let e = SnmpProvider::new("m".to_string(), TARGET, 1161, &["1.z".to_string()], 1, Err("timed out".to_string()))
        .unwrap_err();
    assert_eq!(e, "SNMP: failed to connect to 10.179.180.190:1161 — timed out");
    let v6 = IpAddress::V6([0x20, 0x01, 0x0d, 0xb8, 0, 0, 0, 0, 0, 0, 0, 0, 0, 0, 0, 1]);
    assert_eq!(SnmpProvider::connect_error(v6, 161, "x"), "SNMP: failed to connect to 2001:db8::1:161 — x");
}

#[test]
fn snmp_client_settings() {
    let s = SnmpProvider::client_settings(TARGET, 161, "UTMC", 5, 2);
    assert_eq!(s.address, "10.179.180.190");
    assert_eq!(s.port, 161);
    assert_eq!(s.community, "UTMC");
    assert_eq!(s.request_timeout_secs, 5);
    assert_eq!(s.retries, 2);
    assert_eq!(s.retry_delay_ms, 0);
    let c = SnmpProvider::configured_settings(TARGET, 1161, "public", 350);
    assert_eq!(c.address, "10.179.180.190");
    assert_eq!(c.port, 1161);
    assert_eq!(c.community, "public");
    assert_eq!(c.request_timeout_secs, 1);
    assert_eq!(c.retries, 0);
    assert_eq!(c.retry_delay_ms, 0);
    assert_eq!(SnmpProvider::configured_settings(TARGET, 161, "p", 2000).request_timeout_secs, 2);
    assert_eq!(SnmpProvider::configured_settings(TARGET, 161, "p", 2001).request_timeout_secs, 3);
    assert_eq!(SnmpProvider::configured_settings(TARGET, 161, "p", 0).request_timeout_secs, 0);
}
