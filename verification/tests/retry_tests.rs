use mcp_client::client::McpError;
use mcp_client::retry::{grow_delay, is_error_retryable, RetryConfig, RetryDecision, RetryState};

fn run(config: &RetryConfig, retryable: bool) -> (usize, Vec<u64>) {
    let mut state = RetryState::start(config);
    let mut attempts = 0;
    let mut waits = Vec::new();
    loop {
        attempts += 1;
        match state.on_failure(config, retryable) {
            RetryDecision::GiveUp => return (attempts, waits),
            RetryDecision::RetryAfter { delay_ms } => waits.push(delay_ms),
        }
    }
}

#[test]
fn default_policy_values() {
    assert_eq!(
        RetryConfig::default(),
        RetryConfig {
            max_retries: 3,
            initial_delay_ms: 500,
            backoff_permille: 1500,
            max_delay_ms: 5000
        }
    );
}

#[test]
fn default_policy_makes_four_attempts() {
    let (attempts, waits) = run(&RetryConfig::default(), true);
    assert_eq!(attempts, 4);
    assert_eq!(waits, vec![500, 750, 1125]);
}

#[test]
fn fatal_error_stops_at_the_first_attempt() {
    let config = RetryConfig {
        max_retries: 100,
        initial_delay_ms: 1,
        backoff_permille: 2000,
        max_delay_ms: 10,
    };
    let (attempts, waits) = run(&config, false);
    assert_eq!(attempts, 1);
    assert!(waits.is_empty());
}

#[test]
fn no_retries_means_one_attempt() {
    let config = RetryConfig {
        max_retries: 0,
        initial_delay_ms: 1,
        backoff_permille: 2000,
        max_delay_ms: 10,
    };
    assert_eq!(run(&config, true).0, 1);
}

#[test]
fn delay_grows_rounds_down_and_is_capped() {
    let config = RetryConfig::default();
    assert_eq!(grow_delay(&config, 500), 750);
    assert_eq!(grow_delay(&config, 1125), 1687);
    assert_eq!(grow_delay(&config, 4000), 5000);
    assert_eq!(grow_delay(&config, u64::MAX), 5000);
    let steep = RetryConfig {
        max_retries: 1,
        initial_delay_ms: 1,
        backoff_permille: u64::MAX,
        max_delay_ms: u64::MAX,
    };
    assert_eq!(grow_delay(&steep, u64::MAX), u64::MAX);
}

#[test]
fn give_up_leaves_the_state_alone() {
    let config = RetryConfig::default();
    let mut state = RetryState { attempt: 3, delay_ms: 1687 };
    assert_eq!(state.on_failure(&config, true), RetryDecision::GiveUp);
    assert_eq!(state, RetryState { attempt: 3, delay_ms: 1687 });
}

#[test]
fn retryable_kinds() {
    assert!(is_error_retryable(&McpError::ConnectionError("x".to_string())));
    assert!(is_error_retryable(&McpError::CommunicationError("x".to_string())));
    assert!(is_error_retryable(&McpError::Timeout));
    assert!(is_error_retryable(&McpError::ServerError {
        code: "503".to_string(),
        message: "m".to_string()
    }));
    assert!(!is_error_retryable(&McpError::ServerError {
        code: "429".to_string(),
        message: "rate".to_string()
    }));
    assert!(!is_error_retryable(&McpError::ServerError {
        code: "".to_string(),
        message: "m".to_string()
    }));
    assert!(!is_error_retryable(&McpError::ProtocolError("x".to_string())));
    assert!(!is_error_retryable(&McpError::Disconnected));
    assert!(!is_error_retryable(&McpError::InternalError("x".to_string())));
}
