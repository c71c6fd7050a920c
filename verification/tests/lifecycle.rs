use scalpel::config::{
    create_dyn_cache, fsce_lru_sz, fsce_rw_buf_sz, opt_reject_invalid_sni, read_and_parse_file,
    settings_files, AppConfig, CacheEngine, ConfigError, ConfigSearch, FileAction, FsConfig,
    RocksConfig, SearchStep,
};
use scalpel::lifecycle::{try_shrink_db, Schedule, ShutdownWait};
use scalpel::run::{PingOutcome, RunAction, RunEvent, Runner};
use scalpel::utils::{clock_millis, now_as_millis, Secret, Timer, PROG_NAME, SPEC};

const SECOND: u64 = 1_000_000_000;

fn config(port: u16) -> AppConfig {
    AppConfig {
        client_secret: Secret("secret".to_string()),
        max_grace_period: 60,
        skip_tokens: false,
        disable_ssl: false,
        cache_size_mebibytes: 40960,
        cache_engine: "rocksdb".to_string(),
        rocks_opt: None,
        fs_opt: None,
        port,
        bind_address: "0.0.0.0".to_string(),
        worker_threads: None,
        keep_alive: 60,
        enforce_secure_tls: true,
        disable_ad_headers: false,
        reject_invalid_sni: true,
        gzip_compress: false,
        external_ip: None,
        external_port: None,
        external_max_speed: None,
    }
}

#[test]
fn pings_are_a_minute_apart() {
    let mut schedule = Schedule::new(5);
    assert!(!schedule.ping_due(5 + 60 * SECOND - 1));
    assert!(schedule.ping_due(5 + 60 * SECOND));
    assert!(!schedule.ping_due(5 + 60 * SECOND + 1));
    assert!(!schedule.ping_due(5 + 120 * SECOND - 1));
    assert!(schedule.ping_due(5 + 130 * SECOND));
    assert!(!schedule.ping_due(0));
}

#[test]
fn shrinking_is_tried_at_once_and_then_every_five_minutes() {
    let mut schedule = Schedule::new(0);
    assert!(schedule.shrink_due(1));
    assert!(!schedule.shrink_due(300 * SECOND));
    assert!(schedule.shrink_due(300 * SECOND + 1));
    assert!(!schedule.shrink_due(2));
}

#[test]
fn shutdown_waits_for_the_last_requests() {
    assert!(!ShutdownWait::new(-1, 0).begins());
    let mut wait = ShutdownWait::new(12, 3);
    assert!(wait.begins());
    assert!(wait.goes_on(4, 5));
    assert!(wait.goes_on(5, 10));
    // no request in the interval
    assert!(!wait.goes_on(5, 11));
    // the grace period is over
    assert!(!ShutdownWait::new(12, 3).goes_on(4, 12));
    // no limit
    assert!(ShutdownWait::new(0, 3).goes_on(4, 100_000));
}

#[test]
fn shrinking_thresholds() {
    let max = 40960u64 * 1024 * 1024;
    assert_eq!(try_shrink_db(40_802_189_312, 40960), None);
    assert_eq!(try_shrink_db(40_802_189_313, 40960), Some(38_654_705_664));
    assert_eq!(try_shrink_db(max, 40960), Some(38_654_705_664));
    assert_eq!(try_shrink_db(0, 0), None);
    assert_eq!(try_shrink_db(1, 0), Some(0));
    assert_eq!(try_shrink_db(996_147, 1), None);
    assert_eq!(try_shrink_db(996_148, 1), Some(943_718));
}

#[test]
fn shrinking_thresholds_are_those_of_double_precision() {
    let mut mebibytes: u32 = 1;
    for i in 0..20_000u32 {
        mebibytes = mebibytes.wrapping_mul(1_664_525).wrapping_add(1_013_904_223);
        let size = mebibytes >> (i % 20);
        let max = size as f64 * 1024f64 * 1024f64;
        let edge = (max * 0.95) as u64;
        for reported in [edge.saturating_sub(1), edge, edge + 1] {
            let expected = if reported as f64 > max * 0.95 {
                Some((max * 0.9) as u64)
            } else {
                None
            };
            assert_eq!(try_shrink_db(reported, size), expected);
        }
    }
}

#[test]
fn shrinking_settles_down() {
    for size in [0u32, 1, 7, 40960, 123_456_789, u32::MAX] {
        if let Some(target) = try_shrink_db(u64::MAX, size) {
            assert_eq!(try_shrink_db(target, size), None);
        }
    }
}

#[test]
fn files_are_parsed_by_extension() {
    assert_eq!(
        settings_files(),
        vec!["./settings.yaml", "./settings.json"]
    );
    assert!(read_and_parse_file(true, Some("yaml")) == FileAction::ParseYaml);
    assert!(read_and_parse_file(true, Some("json")) == FileAction::ParseJson);
    assert!(read_and_parse_file(true, Some("yml")) == FileAction::UnexpectedProblem);
    assert!(read_and_parse_file(true, None) == FileAction::UnexpectedProblem);
    assert!(read_and_parse_file(false, Some("yaml")) == FileAction::IoError);
    assert!(read_and_parse_file(false, None) == FileAction::IoError);
}

#[test]
fn the_first_valid_file_wins() {
    let mut search = ConfigSearch::new(2);
    assert!(matches!(search.begin(), SearchStep::Try(0)));
    assert!(matches!(search.try_files(None), SearchStep::Try(1)));
    assert!(matches!(search.try_files(Some(config(7))), SearchStep::Found(c) if c.port == 7));

    let mut search = ConfigSearch::new(2);
    assert!(matches!(search.try_files(Some(config(8))), SearchStep::Found(c) if c.port == 8));

    let mut search = ConfigSearch::new(2);
    assert!(matches!(search.try_files(None), SearchStep::Try(1)));
    assert!(matches!(search.try_files(None), SearchStep::GiveUp));
    assert!(matches!(ConfigSearch::new(0).begin(), SearchStep::GiveUp));
}

#[test]
fn config_errors_have_texts() {
    let base = || "x".to_string();
    assert_eq!(
        ConfigError::IoError(base()).to_text(),
        "error opening or reading file: x"
    );
    assert_eq!(
        ConfigError::YamlParseError(base()).to_text(),
        "error parsing yaml: x"
    );
    assert_eq!(
        ConfigError::JsonParseError(base()).to_text(),
        "error parsing json: x"
    );
    assert_eq!(
        ConfigError::UnexpectedProblem.to_text(),
        "unexpected problem happened when handling config parse"
    );
}

#[test]
fn config_defaults() {
    assert!(opt_reject_invalid_sni());
    assert_eq!(fsce_rw_buf_sz(), 16);
    assert_eq!(fsce_lru_sz(), 128);
}

#[test]
fn caches_have_a_least_size() {
    assert!(config(1).meets_minimum_cache_size());
    let small = AppConfig {
        cache_size_mebibytes: 40959,
        ..config(1)
    };
    assert!(!small.meets_minimum_cache_size());
}

#[test]
fn engines_are_selected_by_name() {
    let rocks = AppConfig {
        rocks_opt: Some(RocksConfig {
            path: "db".to_string(),
            disable_bloom_filter: false,
            lru_size: None,
            parallelism: None,
            write_buffer_size: None,
            write_rate_limit: None,
        }),
        ..config(1)
    };
    assert!(matches!(create_dyn_cache(&rocks), Ok(CacheEngine::Rocks(o)) if o.path == "db"));
    assert!(
        matches!(create_dyn_cache(&config(1)), Err(e) if e == "rocksdb ce config not provided")
    );
    let fs = AppConfig {
        cache_engine: "fs".to_string(),
        fs_opt: Some(FsConfig {
            path: "dir".to_string(),
            rw_buffer_size: 16,
            lru_size_mebibytes: 128,
        }),
        ..config(1)
    };
    assert!(matches!(create_dyn_cache(&fs), Ok(CacheEngine::Fs(o)) if o.path == "dir"));
    let fs = AppConfig { fs_opt: None, ..fs };
    assert!(matches!(create_dyn_cache(&fs), Err(e) if e == "fs ce config not provided"));
    let other = AppConfig {
        cache_engine: "tape".to_string(),
        ..config(1)
    };
    assert!(
        matches!(create_dyn_cache(&other), Err(e) if e == "\"tape\" is not a valid cache engine")
    );
}

#[test]
fn constants_of_the_client() {
    assert_eq!(PROG_NAME, "Scalpel MD@Home");
    assert_eq!(SPEC, 31);
}

#[test]
fn secrets_are_hidden_but_usable() {
    let secret = Secret("abc".to_string());
    assert_eq!(secret.debug_text(), "Hidden");
    assert_eq!(secret.len(), 3);
    assert_eq!(secret.clone().0, "abc");
}

#[test]
fn clocks_and_timers() {
    assert_eq!(clock_millis(None), 0);
    assert_eq!(clock_millis(Some(12)), 12);
    assert_eq!(clock_millis(Some((1u128 << 64) + 5)), 5);
    // the year 2020
    assert!(now_as_millis() > 1_577_836_800_000);
    let timer = Timer::start();
    let first = timer.elapsed_micros();
    assert!(timer.elapsed_micros() >= first);
    let past = std::time::Instant::now() - std::time::Duration::from_millis(5);
    assert!(Timer::started_at(past).elapsed_micros() >= 5_000);
}

#[test]
fn timers_measure_from_start_to_reading() {
    let start = std::time::Instant::now();
    let timer = Timer::started_at(start);
    assert_eq!(timer.micros_at(start), 0);
    assert_eq!(timer.micros_at(start + std::time::Duration::from_nanos(5_001_999)), 5_001);
    let later = Timer::started_at(start + std::time::Duration::from_secs(1));
    assert_eq!(later.micros_at(start), 0);
    let before = start.elapsed().as_micros();
    let measured = timer.elapsed_micros();
    assert!(before <= measured && measured <= start.elapsed().as_micros());
}

#[test]
fn the_wall_clock_is_read_in_milliseconds() {
    let millis = || {
        std::time::SystemTime::now()
            .duration_since(std::time::UNIX_EPOCH)
            .unwrap()
            .as_millis() as u64
    };
    let before = millis();
    let now = now_as_millis();
    assert!(before <= now && now <= millis());
}

fn pinged(outcome: PingOutcome) -> RunEvent {
    RunEvent::Pinged(outcome)
}

/// A client whose server runs since the time zero.
fn started() -> Runner {
    let (mut runner, action) = Runner::new();
    assert!(matches!(action, RunAction::Ping));
    let action = runner.next(pinged(PingOutcome::Certificate), 0, true);
    assert!(matches!(action, RunAction::Start));
    let action = runner.next(RunEvent::Started(true), 0, true);
    assert!(matches!(action, RunAction::Tick));
    runner
}

#[test]
fn a_round_pings_restarts_and_shrinks() {
    let mut runner = started();
    let now = 60 * SECOND;
    assert!(matches!(runner.next(RunEvent::Ticked, now, true), RunAction::Ping));
    assert!(matches!(
        runner.next(pinged(PingOutcome::Certificate), now + 1, true),
        RunAction::Restart
    ));
    assert!(matches!(runner.next(RunEvent::Started(true), now + 2, true), RunAction::Shrink));
    assert!(matches!(runner.next(RunEvent::Shrunk, now + 3, true), RunAction::Tick));
    // the next ping is due a minute after the last one, the next attempt to shrink later
    assert!(matches!(runner.next(RunEvent::Ticked, 2 * now - 1, true), RunAction::Tick));
    assert!(matches!(runner.next(RunEvent::Ticked, 2 * now, true), RunAction::Ping));
    assert!(matches!(
        runner.next(pinged(PingOutcome::Failed), 2 * now, true),
        RunAction::Tick
    ));
}

#[test]
fn a_client_that_is_told_to_stop_shuts_down() {
    let mut runner = started();
    assert!(matches!(runner.next(RunEvent::Ticked, 1, false), RunAction::Shrink));
    assert!(matches!(runner.next(RunEvent::Shrunk, 2, false), RunAction::Stop));
    assert!(!runner.accepts(RunEvent::Ticked));
    assert!(runner.accepts(RunEvent::Stopped));
    assert!(matches!(runner.next(RunEvent::Stopped, 3, false), RunAction::Exit));
    assert!(!runner.accepts(RunEvent::Stopped));
}

#[test]
fn a_client_without_certificate_or_server_ends_in_panic() {
    let (mut runner, _) = Runner::new();
    assert!(matches!(runner.next(pinged(PingOutcome::Failed), 0, true),
        RunAction::Panic(p) if p == "error pinging backend on initial ping"));
    let (mut runner, _) = Runner::new();
    assert!(matches!(runner.next(pinged(PingOutcome::NoCertificate), 0, true),
        RunAction::Panic(p) if p == "TLS certificate wasn't provided in initial ping"));
    let (mut runner, _) = Runner::new();
    runner.next(pinged(PingOutcome::Certificate), 0, true);
    assert!(matches!(runner.next(RunEvent::Started(false), 0, true), RunAction::Stop));
    assert!(matches!(runner.next(RunEvent::Stopped, 0, true),
        RunAction::Panic(p) if p == "error creating HTTP server"));
    let mut runner = started();
    runner.next(RunEvent::Ticked, 60 * SECOND, true);
    runner.next(pinged(PingOutcome::Certificate), 60 * SECOND, true);
    assert!(matches!(runner.next(RunEvent::Started(false), 60 * SECOND, true),
        RunAction::Panic(_)));
}
