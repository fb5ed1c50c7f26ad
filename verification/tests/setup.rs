use net_monitor::cli::{Cli, Command, OutputFormat};
use net_monitor::config::{
    user_friendly_error, Config, GenerateAction, IndependentPingInstance, IndependentSnmpInstance,
    IndependentStrategyConfig, NetworkConfig, ProviderPlan, SynchronizedPingInstance,
    SynchronizedSnmpInstance, SynchronizedStrategyConfig, DEFAULT_CONFIG,
};
use net_monitor::models::{Event, IpAddress, PollType, Strategy};
use net_monitor::poller::{PollerConfig, RetryRun};
use net_monitor::sender::{EventSender, JsonSender, SendStage};
use net_monitor::setup::{Setup, SetupAction, SetupEvent, SetupStage};
use net_monitor::utils::{
    format_local_time, format_timestamp_at, format_utc_timestamp, get_fmt_current_time,
    get_session_id, get_timestamp_fmt, get_utc_timestamp, session_id_from, session_id_text, MAX_CLOCK_SECS,
};

fn sample_config() -> Config {
    Config {
        strategy: Strategy::Independent,
        log: "monitor.json".to_string(),
        network: NetworkConfig { target: IpAddress::V4([10, 179, 180, 190]) },
        independent: IndependentStrategyConfig {
            ping: vec![IndependentPingInstance {
                name: "fast".to_string(),
                interval_ms: 1000,
                timeout_ms: 200,
                fallback_tracert: false,
                retries: 3,
                retries_delay_ms: 200,
            }],
            snmp: vec![IndependentSnmpInstance {
                name: "main".to_string(),
                interval_ms: 6000,
                timeout_ms: 350,
                port: 161,
                community: "UTMC".to_string(),
                retries: 2,
                retries_delay_ms: 300,
                oids: vec!["1.3.6.1.2.1.1.3.0".to_string()],
            }],
            tracert: vec![],
        },
        synchronized: SynchronizedStrategyConfig {
            interval_ms: 4000,
            ping: vec![SynchronizedPingInstance {
                name: "primary".to_string(),
                timeout_ms: 200,
                fallback_tracert: true,
                retries: 3,
                retries_delay_ms: 200,
            }],
            snmp: vec![SynchronizedSnmpInstance {
                name: "main".to_string(),
                timeout_ms: 350,
                port: 161,
                community: "UTMC".to_string(),
                retries: 2,
                retries_delay_ms: 300,
                oids: vec!["1.3.6.1.2.1.1.3.0".to_string()],
            }],
            tracert: vec![],
        },
    }
}

#[test]
fn friendly_errors() {
    assert_eq!(user_friendly_error("missing field `log`"), "отсутствует поле 'log'");
    assert_eq!(user_friendly_error("missing field log"), "отсутствует обязательное поле");
    assert_eq!(
        user_friendly_error("unknown field `lg`, expected one of `log`"),
        "неизвестное поле 'lg' — проверьте название"
    );
    assert_eq!(user_friendly_error("unknown field lg"), "unknown field lg");
    assert_eq!(
        user_friendly_error("invalid type: string \"a\", expected u64"),
        "неверный тип значения (например, строка вместо числа)"
    );
    assert_eq!(user_friendly_error("something else"), "something else");
}

#[test]
fn config_error_messages() {
    assert_eq!(Config::read_error("c.toml", "No such file"), "❌ Не удалось прочитать 'c.toml': No such file");
    assert_eq!(Config::parse_error("missing field `log`"), "❌ Ошибка в конфиге: отсутствует поле 'log'");
}

#[test]
fn generate_default_decisions() {
    assert_eq!(Config::generate_default("c.toml", false, true, true), Ok(GenerateAction::Show(DEFAULT_CONFIG.to_string())));
    assert_eq!(
        Config::generate_default("c.toml", false, false, true),
        Err("❌ Файл 'c.toml' уже существует.\n💡 Используйте --force для перезаписи.".to_string())
    );
    assert_eq!(Config::generate_default("c.toml", true, false, true), Ok(GenerateAction::Write(DEFAULT_CONFIG.to_string())));
    assert_eq!(Config::generate_default("c.toml", false, false, false), Ok(GenerateAction::Write(DEFAULT_CONFIG.to_string())));
    assert_eq!(Config::write_outcome("c.toml", Ok(())), Ok("✅ Дефолтный конфиг создан: c.toml".to_string()));
    assert_eq!(
        Config::write_outcome("c.toml", Err("denied".to_string())),
        Err("❌ Не удалось записать 'c.toml': denied".to_string())
    );
    assert!(DEFAULT_CONFIG.starts_with("strategy = \"independent\"\nlog = \"monitor.json\""));
}

#[test]
fn independent_plan_follows_config() {
    let plan = sample_config().independent_plan();
    assert_eq!(plan.len(), 2);
    assert_eq!(
        plan[0],
        ProviderPlan::Icmp { name: "fast".to_string(), timeout_ms: 200, poll: PollerConfig::new(1000, 3, 200) }
    );
    assert_eq!(
        plan[1],
        ProviderPlan::Snmp {
            name: "main".to_string(),
            timeout_ms: 350,
            port: 161,
            community: "UTMC".to_string(),
            oids: vec!["1.3.6.1.2.1.1.3.0".to_string()],
            poll: PollerConfig::new(6000, 2, 300),
        }
    );
}

#[test]
fn synchronized_plan_uses_common_interval() {
    let plan = sample_config().synchronized_plan();
    assert_eq!(plan.len(), 2);
    assert_eq!(
        plan[0],
        ProviderPlan::Icmp { name: "primary".to_string(), timeout_ms: 200, poll: PollerConfig::new(4000, 3, 200) }
    );
    match &plan[1] {
        ProviderPlan::Snmp { poll, port, .. } => {
            assert_eq!(*poll, PollerConfig::new(4000, 2, 300));
            assert_eq!(*port, 161);
        }
        _ => panic!("expected an SNMP plan"),
    }
}

#[test]
fn strategy_and_poll_type_texts() {
    assert_eq!(Strategy::Independent.to_text(), "independent");
    assert_eq!(Strategy::Synchronized.to_text(), "synchronized");
    assert_eq!(PollType::Ping.to_text(), "PING");
    assert_eq!(PollType::Snmp.to_text(), "SNMP");
}

#[test]
fn json_sender_builds_records() {
    assert_eq!(JsonSender::new("log.json", "sid".to_string(), Err("denied".to_string())), Err("Cannot open: denied".to_string()));
    let s = JsonSender::new("log.json", "sid".to_string(), Ok(())).unwrap();
    assert_eq!(s.path, "log.json");
    let event = Event::Error { error_type: "t".to_string(), message: "m".to_string() };
    let env = s.send(event, "2024-01-01T00:00:00Z".to_string());
    assert_eq!(env.session_id, "sid");
    assert_eq!(env.timestamp, "2024-01-01T00:00:00Z");
    assert!(matches!(env.event, Event::Error { .. }));
    assert_eq!(JsonSender::frame("{}"), "{}\n");
    assert_eq!(JsonSender::error_text(SendStage::Serialize, "x"), "JSON error: x");
    assert_eq!(JsonSender::error_text(SendStage::Open, "x"), "Cannot open: x");
    assert_eq!(JsonSender::error_text(SendStage::Write, "x"), "Write error: x");
}

#[test]
fn session_ids() {
    assert_eq!(session_id_text(0, 0xabc), "000000000abc");
    let secs = 1_700_000_000u64;
    let nanos = 123_456_789u32;
    let total = secs as u128 * 1_000_000_000 + nanos as u128;
    let expected = format!("{:012x}", total & 0xFFFFFFFFFFFF);
    let id = session_id_text(secs, nanos);
    assert_eq!(id, expected);
    assert_eq!(u128::from_str_radix(&id, 16).unwrap(), total % (1u128 << 48));
    let live = get_session_id();
    assert_eq!(live.len(), 12);
    assert!(live.chars().all(|c| c.is_ascii_hexdigit() && !c.is_ascii_uppercase()));
}

#[test]
fn clock_texts() {
    let t = get_fmt_current_time().unwrap();
    assert_eq!(t.len(), 23);
    let ts = get_timestamp_fmt().unwrap();
    assert!(ts.ends_with("+03:00"), "{}", ts);
    assert_eq!(ts.len(), 29);
    let t: Vec<char> = t.chars().collect();
    assert_eq!((t[4], t[7], t[10], t[13], t[16], t[19]), ('-', '-', ' ', ':', ':', '.'));
    let ts: Vec<char> = ts.chars().collect();
    assert_eq!((ts[4], ts[7], ts[10], ts[13], ts[16], ts[19]), ('-', '-', 'T', ':', ':', '.'));
    let utc = get_utc_timestamp().unwrap();
    assert!(utc.ends_with("+00:00"), "{}", utc);
    assert_eq!(utc.chars().nth(10), Some('T'));
}

#[test]
fn clock_texts_of_readings() {
    assert_eq!(format_timestamp_at(Some((0, 5_000_000))), Some("1970-01-01T03:00:00.005+03:00".to_string()));
    assert_eq!(
        format_timestamp_at(Some((1_700_000_000, 123_456_789))),
        Some("2023-11-15T01:13:20.123+03:00".to_string())
    );
    assert_eq!(format_utc_timestamp(Some((0, 0))), Some("1970-01-01T00:00:00+00:00".to_string()));
    assert_eq!(
        format_utc_timestamp(Some((1_700_000_000, 500_000_000))),
        Some("2023-11-14T22:13:20.500+00:00".to_string())
    );
    assert_eq!(format_utc_timestamp(None), None);
    assert_eq!(format_timestamp_at(None), None);
    assert_eq!(format_local_time(None), None);
    assert_eq!(format_timestamp_at(Some((MAX_CLOCK_SECS + 1, 0))), None);
    assert_eq!(format_utc_timestamp(Some((0, 1_000_000_000))), None);
    let local = format_local_time(Some((1_700_000_000, 250_000_000))).unwrap();
    assert_eq!(local.len(), 23);
    assert!(local.ends_with(".250"));
    assert!(format_timestamp_at(Some((MAX_CLOCK_SECS, 999_999_999))).unwrap().ends_with("+03:00"));
}

#[test]
fn cli_values() {
    let cli = Cli { command: Command::ProcessLog { log: "monitor.json".to_string(), format: OutputFormat::Csv } };
    assert!(matches!(cli.command, Command::ProcessLog { format: OutputFormat::Csv, .. }));
    let c = Command::GenerateConfig { output: "config.toml".to_string(), force: false, show: true };
    assert_eq!(c.clone(), c);
}

#[test]
fn retry_details_number_attempts() {
    let mut run = RetryRun::new(12, 0);
    for _ in 0..11 {
        run.record(Err("e".to_string()));
    }
    run.record(Ok("ok".to_string()));
    let r = run.finish(IpAddress::V4([1, 1, 1, 1]), PollType::Ping, String::new(), String::new(), 0);
    let details = r.details.unwrap();
    assert!(details.starts_with("Попытка 1: e; Попытка 2: e"));
    assert!(details.ends_with("Попытка 11: e; Попытка 12: ok"));
    assert_eq!(r.attempts, 12);
}

#[test]
fn session_id_of_a_reading_or_none() {
    assert_eq!(session_id_from(Some((0, 0xabc))), "000000000abc");
    assert_eq!(session_id_from(Some((1_700_000_000, 123_456_789))), session_id_text(1_700_000_000, 123_456_789));
    let u = session_id_from(None);
    assert_eq!(u.len(), 36);
    let c: Vec<char> = u.chars().collect();
    assert_eq!((c[8], c[13], c[14], c[18], c[23]), ('-', '-', '4', '-', '-'));
    assert!("89ab".contains(c[19]));
    assert_ne!(session_id_from(None), u);
}

#[test]
fn setup_runs_in_order() {
    let mut s = Setup::new(2);
    assert_eq!(s.step(SetupEvent::Begin), SetupAction::OpenSender);
    assert_eq!(s.step(SetupEvent::SenderOpened(Ok(()))), SetupAction::InitProvider(0));
    assert_eq!(s.step(SetupEvent::ProviderReady(Ok(()))), SetupAction::InitProvider(1));
    assert_eq!(s.step(SetupEvent::ProviderReady(Ok(()))), SetupAction::SendConfigEvent);
    assert_eq!(s.ready, 2);
    assert_eq!(s.step(SetupEvent::ConfigSent(Ok(()))), SetupAction::SpawnTasks);
    assert_eq!(s.step(SetupEvent::TasksSpawned(2)), SetupAction::WaitForShutdown);
    assert_eq!(s.stage, SetupStage::Running);
    assert_eq!(s.step(SetupEvent::Shutdown(Ok(()))), SetupAction::Finish(Ok(())));
    assert_eq!(s.stage, SetupStage::Done);
}

#[test]
fn setup_with_no_providers_reports_and_refuses_to_run() {
    let mut s = Setup::new(0);
    assert_eq!(s.step(SetupEvent::Begin), SetupAction::OpenSender);
    assert_eq!(s.step(SetupEvent::SenderOpened(Ok(()))), SetupAction::SendConfigEvent);
    assert_eq!(s.step(SetupEvent::ConfigSent(Ok(()))), SetupAction::SpawnTasks);
    assert_eq!(
        s.step(SetupEvent::TasksSpawned(0)),
        SetupAction::Finish(Err("Нет задач для опроса. Монитор не запущен.".to_string()))
    );
}

#[test]
fn setup_stops_at_the_first_failure() {
    let mut s = Setup::new(1);
    s.step(SetupEvent::Begin);
    assert_eq!(
        s.step(SetupEvent::SenderOpened(Err("denied".to_string()))),
        SetupAction::Finish(Err("Ошибка конфигурации.\n".to_string()))
    );
    let mut s = Setup::new(3);
    s.step(SetupEvent::Begin);
    s.step(SetupEvent::SenderOpened(Ok(())));
    s.step(SetupEvent::ProviderReady(Ok(())));
    assert_eq!(
        s.step(SetupEvent::ProviderReady(Err("SnmpProvider init failed: x".to_string()))),
        SetupAction::Finish(Err("SnmpProvider init failed: x".to_string()))
    );
    assert_eq!(s.ready, 1);
    let mut s = Setup::new(1);
    s.step(SetupEvent::Begin);
    s.step(SetupEvent::SenderOpened(Ok(())));
    s.step(SetupEvent::ProviderReady(Ok(())));
    assert_eq!(
        s.step(SetupEvent::ConfigSent(Err("channel closed".to_string()))),
        SetupAction::Finish(Err("channel closed".to_string()))
    );
    let mut s = Setup::new(1);
    s.step(SetupEvent::Begin);
    s.step(SetupEvent::SenderOpened(Ok(())));
    s.step(SetupEvent::ProviderReady(Ok(())));
    s.step(SetupEvent::ConfigSent(Ok(())));
    s.step(SetupEvent::TasksSpawned(1));
    assert_eq!(
        s.step(SetupEvent::Shutdown(Err("no signal".to_string()))),
        SetupAction::Finish(Err("Ошибка системы: no signal".to_string()))
    );
}
