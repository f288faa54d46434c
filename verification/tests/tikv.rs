use roboflow::distributed::tikv::circuit::{CircuitBreaker, CircuitConfig, CircuitState};
use roboflow::clock::TimeSpan;
use roboflow::distributed::tikv::config::TikvConfig;
use roboflow::distributed::tikv::error::TikvError;

#[test]
fn test_state_from_u8() {
    assert_eq!(CircuitState::from_u8(0), Some(CircuitState::Closed));
    assert_eq!(CircuitState::from_u8(1), Some(CircuitState::Open));
    assert_eq!(CircuitState::from_u8(2), Some(CircuitState::HalfOpen));
    assert_eq!(CircuitState::from_u8(3), None);
}

#[test]
fn test_circuit_default() {
    let breaker = CircuitBreaker::new();
    assert_eq!(breaker.state(), CircuitState::Closed);
    assert_eq!(breaker.failure_count(), 0);
}

#[test]
fn test_circuit_opens_on_failures() {
    let config = CircuitConfig { failure_threshold: 3, ..Default::default() };
    let mut breaker = CircuitBreaker::with_config(config);
    assert_eq!(breaker.state(), CircuitState::Closed);
    assert!(breaker.is_call_permitted());
    breaker.record_failure();
    assert_eq!(breaker.state(), CircuitState::Closed);
    assert!(breaker.is_call_permitted());
    breaker.record_failure();
    assert_eq!(breaker.state(), CircuitState::Closed);
    assert!(breaker.is_call_permitted());
    breaker.record_failure();
    assert_eq!(breaker.state(), CircuitState::Open);
    assert!(!breaker.is_call_permitted());
}

#[test]
fn test_circuit_resets_on_success() {
    let config = CircuitConfig { failure_threshold: 3, success_threshold: 2, ..Default::default() };
    let mut breaker = CircuitBreaker::with_config(config);
    breaker.record_failure();
    breaker.record_failure();
    breaker.record_failure();
    assert_eq!(breaker.state(), CircuitState::Open);
    breaker.reset();
    assert_eq!(breaker.state(), CircuitState::Closed);
    breaker.record_failure();
    breaker.record_success();
    assert_eq!(breaker.failure_count(), 0);
    assert_eq!(breaker.state(), CircuitState::Closed);
}

#[test]
fn test_half_open_to_closed() {
    let config = CircuitConfig { failure_threshold: 2, success_threshold: 3, ..Default::default() };
    let mut breaker = CircuitBreaker::with_config(config);
    breaker.record_failure();
    breaker.record_failure();
    assert_eq!(breaker.state(), CircuitState::Open);
    breaker.set_state(CircuitState::HalfOpen);
    assert_eq!(breaker.state(), CircuitState::HalfOpen);
    assert!(breaker.is_call_permitted());
    breaker.record_success();
    assert_eq!(breaker.state(), CircuitState::HalfOpen);
    breaker.record_success();
    assert_eq!(breaker.state(), CircuitState::HalfOpen);
    breaker.record_success();
    assert_eq!(breaker.state(), CircuitState::Closed);
}

#[test]
fn test_half_open_failure_reopens() {
    let config = CircuitConfig { failure_threshold: 2, success_threshold: 3, ..Default::default() };
    let mut breaker = CircuitBreaker::with_config(config);
    breaker.record_failure();
    breaker.record_failure();
    assert_eq!(breaker.state(), CircuitState::Open);
    breaker.set_state(CircuitState::HalfOpen);
    breaker.record_success();
    assert_eq!(breaker.success_count(), 1);
    breaker.record_failure();
    assert_eq!(breaker.state(), CircuitState::Open);
    assert_eq!(breaker.success_count(), 0);
}

#[test]
fn test_manual_trip_and_reset() {
    let mut breaker = CircuitBreaker::new();
    breaker.trip();
    assert_eq!(breaker.state(), CircuitState::Open);
    assert!(!breaker.is_call_permitted());
    breaker.reset();
    assert_eq!(breaker.state(), CircuitState::Closed);
    assert!(breaker.is_call_permitted());
}

#[test]
fn test_config_builder() {
    let config = CircuitConfig::default()
        .with_failure_threshold(10)
        .with_open_timeout(TimeSpan::from_secs(60))
        .with_success_threshold(5);
    assert_eq!(config.failure_threshold, 10);
    assert_eq!(config.open_timeout, TimeSpan::from_secs(60));
    assert_eq!(config.success_threshold, 5);
}

// Timeout-driven transitions, at explicit times (nanoseconds).
const SEC: u64 = 1_000_000_000;

#[test]
fn circuit_open_waits_for_timeout_then_half_opens() {
    let config = CircuitConfig::default().with_failure_threshold(1);
    let mut breaker = CircuitBreaker::with_config_at(config, 100 * SEC);
    breaker.record_failure_at(100 * SEC);
    assert_eq!(breaker.state(), CircuitState::Open);
    assert!(!breaker.is_call_permitted_at(130 * SEC - 1));
    assert_eq!(breaker.state(), CircuitState::Open);
    assert!(breaker.is_call_permitted_at(130 * SEC));
    assert_eq!(breaker.state(), CircuitState::HalfOpen);
    // The half-open window is 5 seconds.
    assert!(!breaker.is_call_permitted_at(135 * SEC));
    assert_eq!(breaker.state(), CircuitState::Open);
}

#[test]
fn circuit_sub_second_open_timeout() {
    let config = CircuitConfig::default()
        .with_failure_threshold(1)
        .with_open_timeout(TimeSpan::new(1, 500_000_000));
    let mut breaker = CircuitBreaker::with_config_at(config, 10 * SEC);
    breaker.record_failure_at(10 * SEC);
    assert_eq!(breaker.state(), CircuitState::Open);
    // 1.499999999 s is short of 1.5 s.
    assert!(!breaker.is_call_permitted_at(11 * SEC + 499_999_999));
    assert_eq!(breaker.state(), CircuitState::Open);
    assert!(breaker.is_call_permitted_at(11 * SEC + 500_000_000));
    assert_eq!(breaker.state(), CircuitState::HalfOpen);
}

#[test]
fn circuit_half_open_call_limit() {
    let mut breaker = CircuitBreaker::with_config_at(CircuitConfig::default(), 0);
    breaker.set_state_at(CircuitState::HalfOpen, 0);
    for _ in 0..10 {
        assert!(breaker.admit_call_at(SEC).is_ok());
    }
    match breaker.admit_call_at(SEC) {
        Err(TikvError::CircuitOpen { failures }) => assert_eq!(failures, 0),
        other => panic!("expected CircuitOpen, got {:?}", other),
    }
    assert_eq!(breaker.state(), CircuitState::Open);
}

#[test]
fn circuit_complete_call_records_only_retryable_failures() {
    let mut breaker = CircuitBreaker::with_config_at(CircuitConfig::default(), 0);
    let r: Result<u32, TikvError> = breaker.complete_call_at(Err(TikvError::KeyNotFound("k".to_string())), SEC);
    assert!(r.is_err());
    assert_eq!(breaker.failure_count(), 0);
    let r: Result<u32, TikvError> = breaker.complete_call_at(Err(TikvError::Timeout("t".to_string())), SEC);
    assert!(r.is_err());
    assert_eq!(breaker.failure_count(), 1);
    let r = breaker.complete_call_at(Ok(7u32), 2 * SEC);
    assert_eq!(r.unwrap(), 7);
    assert_eq!(breaker.failure_count(), 0);
}

#[test]
fn test_parse_pd_endpoints_single() {
    let endpoints = TikvConfig::parse_pd_endpoints("127.0.0.1:2379");
    assert_eq!(endpoints, vec!["127.0.0.1:2379"]);
}

#[test]
fn test_parse_pd_endpoints_multiple() {
    let endpoints = TikvConfig::parse_pd_endpoints("127.0.0.1:2379,127.0.0.1:2380,127.0.0.1:2381");
    assert_eq!(endpoints, vec!["127.0.0.1:2379", "127.0.0.1:2380", "127.0.0.1:2381"]);
}

#[test]
fn test_with_pd_endpoints() {
    let config = TikvConfig::with_pd_endpoints("192.168.1.1:2379,192.168.1.2:2379");
    assert_eq!(config.pd_endpoints, vec!["192.168.1.1:2379", "192.168.1.2:2379"]);
}

#[test]
fn test_with_key_prefix() {
    let config = TikvConfig::default().with_key_prefix("custom/prefix");
    assert_eq!(config.key_prefix, "/custom/prefix/");
}

#[test]
fn test_validate() {
    let config = TikvConfig::default();
    assert!(config.validate().is_ok());
    let mut config = TikvConfig::default();
    config.pd_endpoints = vec![];
    assert!(config.validate().is_err());
}

#[test]
fn client_test_config_validation() {
    let config = TikvConfig::default();
    assert!(config.validate().is_ok());
    let mut invalid_config = TikvConfig::default();
    invalid_config.pd_endpoints = vec![];
    assert!(invalid_config.validate().is_err());
}

#[test]
fn test_config_describe() {
    let config = TikvConfig::default();
    let desc = config.describe();
    assert!(desc.contains("TiKV"));
    assert!(desc.contains("pd_endpoints"));
}

#[test]
fn config_describe_exact_text() {
    let config = TikvConfig::with_pd_endpoints("a:1, b:2").with_timeout(TimeSpan::from_secs(7));
    assert_eq!(
        config.describe(),
        "TiKV(pd_endpoints=[\"a:1\", \"b:2\"], timeout=7s, tls=disabled, key_prefix=/roboflow/v1/)"
    );
}

#[test]
fn config_parse_trims_and_drops_empty_pieces() {
    let endpoints = TikvConfig::parse_pd_endpoints(" a:1 ,, \tb:2,  ,");
    assert_eq!(endpoints, vec!["a:1", "b:2"]);
    assert!(TikvConfig::parse_pd_endpoints("").is_empty());
}

#[test]
fn config_key_prefix_kept_when_wrapped() {
    let config = TikvConfig::default().with_key_prefix("/already/");
    assert_eq!(config.key_prefix, "/already/");
    let config = TikvConfig::default().with_key_prefix("");
    assert_eq!(config.key_prefix, "/");
}

#[test]
fn config_validate_reports_prefix() {
    let mut config = TikvConfig::default();
    config.key_prefix = "nope".to_string();
    match config.validate() {
        Err(TikvError::InvalidConfig(m)) => assert_eq!(m, "Key prefix must start with /"),
        other => panic!("unexpected {:?}", other),
    }
    config.pd_endpoints.clear();
    match config.validate() {
        Err(TikvError::InvalidConfig(m)) => assert_eq!(m, "No PD endpoints specified"),
        other => panic!("unexpected {:?}", other),
    }
}

#[test]
fn config_from_settings_and_tls() {
    let config = TikvConfig::from_settings(Some("x:1"), Some(3), Some("/ca".to_string()), None, None);
    assert_eq!(config.pd_endpoints, vec!["x:1"]);
    assert_eq!(config.connection_timeout.as_secs(), 3);
    assert_eq!(config.connection_timeout.subsec_nanos(), 0);
    assert!(config.is_tls_enabled());
    assert!(!TikvConfig::default().is_tls_enabled());
}

#[test]
fn test_error_is_retryable() {
    assert!(TikvError::Timeout("test".to_string()).is_retryable());
    assert!(TikvError::ConnectionFailed("test".to_string()).is_retryable());
    assert!(!TikvError::KeyNotFound("test".to_string()).is_retryable());
    assert!(!TikvError::CasFailed { expected: 1, got: 2 }.is_retryable());
    assert!(TikvError::WriteConflict.is_retryable());
    assert!(TikvError::LockAcquisitionFailed("test".to_string()).is_retryable());
    assert!(TikvError::ClientError("WriteConflict".to_string()).is_retryable());
    assert!(TikvError::ClientError("key_version error".to_string()).is_retryable());
    assert!(TikvError::TransactionAborted("WriteConflict".to_string()).is_retryable());
    assert!(!TikvError::ClientError("other error".to_string()).is_retryable());
}

#[test]
fn test_error_is_write_conflict() {
    assert!(TikvError::WriteConflict.is_write_conflict());
    assert!(TikvError::ClientError("WriteConflict detected".to_string()).is_write_conflict());
    assert!(TikvError::ClientError("key_version mismatch".to_string()).is_write_conflict());
    assert!(TikvError::TransactionAborted("WriteConflict".to_string()).is_write_conflict());
    assert!(!TikvError::Timeout("test".to_string()).is_write_conflict());
    assert!(!TikvError::ConnectionFailed("test".to_string()).is_write_conflict());
}

#[test]
fn error_spaced_conflict_is_retryable_but_not_named() {
    let e = TikvError::ClientError("a Write Conflict here".to_string());
    assert!(e.is_retryable());
    assert!(!e.is_write_conflict());
    match TikvError::retryable(1, 3, "again") {
        TikvError::Retryable { attempt, max, message } => {
            assert_eq!((attempt, max, message.as_str()), (1, 3, "again"));
        }
        _ => panic!("expected Retryable"),
    }
}

#[test]
fn config_describe_timeout_as_duration() {
    let with = |t: TimeSpan| TikvConfig::with_pd_endpoints("a:1").with_timeout(t).describe();
    assert!(with(TimeSpan::from_secs(0)).contains(", timeout=0ns, "));
    assert!(with(TimeSpan::new(1, 500_000_000)).contains(", timeout=1.5s, "));
    assert!(with(TimeSpan::new(0, 250_000_000)).contains(", timeout=250ms, "));
    assert!(TikvConfig::default().describe().contains(", timeout=10s, "));
    let t = TimeSpan::new(2, 3_000_000_001);
    assert_eq!((t.as_secs(), t.subsec_nanos()), (5, 1));
}
