use webhook_dispatcher::config::{effective_prefetch, parse_u16, Config, DEFAULT_PREFETCH};
use webhook_dispatcher::connection::session_plan;
use webhook_dispatcher::consumer::{Phase, TransportError};
use webhook_dispatcher::supervisor::{supervise, SessionError, SupervisorDecision,
    RESTART_DELAY_SECS};

#[test]
fn connect_failure_is_retried_after_five_seconds() {
    let d = supervise(false, &Err(SessionError::Connect));
    assert_eq!(d, SupervisorDecision::RetryAfterSecs(5));
    assert_eq!(RESTART_DELAY_SECS, 5);
}

#[test]
fn transport_failure_is_retried_unless_shutdown_pending() {
    for t in [TransportError::StreamEnded, TransportError::StreamBroken] {
        assert_eq!(
            supervise(false, &Err(SessionError::Transport(t))),
            SupervisorDecision::RetryAfterSecs(RESTART_DELAY_SECS)
        );
        assert_eq!(
            supervise(true, &Err(SessionError::Transport(t))),
            SupervisorDecision::Stop
        );
    }
}

#[test]
fn clean_completion_stops_the_supervisor() {
    assert_eq!(supervise(false, &Ok(())), SupervisorDecision::Stop);
    assert_eq!(supervise(true, &Ok(())), SupervisorDecision::Stop);
}

#[test]
fn failure_during_intentional_shutdown_is_a_clean_exit() {
    assert_eq!(supervise(true, &Err(SessionError::Connect)), SupervisorDecision::Stop);
}

#[test]
fn prefetch_defaults_to_ten() {
    assert_eq!(effective_prefetch(None), 10);
    assert_eq!(DEFAULT_PREFETCH, 10);
    assert_eq!(effective_prefetch(Some(32)), 32);
}

#[test]
fn prefetch_setting_parses_like_a_decimal_u16() {
    assert_eq!(parse_u16("10"), Some(10));
    assert_eq!(parse_u16("0"), Some(0));
    assert_eq!(parse_u16("+25"), Some(25));
    assert_eq!(parse_u16("65535"), Some(65535));
    assert_eq!(parse_u16("65536"), None);
    assert_eq!(parse_u16("99999999999999999999"), None);
    assert_eq!(parse_u16(""), None);
    assert_eq!(parse_u16("+"), None);
    assert_eq!(parse_u16("-1"), None);
    assert_eq!(parse_u16("1 0"), None);
    assert_eq!(parse_u16("ten"), None);
    assert_eq!(parse_u16("10x"), None);
    // agrees with the standard library's parser on these
    for s in ["10", "0", "+25", "65535", "65536", "", "+", "-1", "1 0", "ten", "10x"] {
        assert_eq!(parse_u16(s), s.parse::<u16>().ok());
    }
}

#[test]
fn session_declares_the_durable_quorum_webhooks_queue() {
    let p = session_plan(None);
    assert_eq!(p.queue_name, "webhooks");
    assert!(p.durable);
    assert!(p.quorum);
    assert_eq!(p.consumer_tag, "webhook-dispatcher");
    assert_eq!(p.prefetch, 10);
}

#[test]
fn loop_capacity_matches_the_session_prefetch() {
    let p = session_plan(Some(3));
    let s = p.initial_loop_state();
    assert_eq!(s.max_concurrent, 3);
    assert_eq!(s.in_flight, 0);
    assert_eq!(s.phase, Phase::Running);
}

#[test]
fn config_holds_its_fields() {
    let c = Config {
        rabbitmq_url: "amqp://localhost:5672".to_owned(),
        supabase_url: "https://logs.example.com".to_owned(),
        supabase_service_token: "token".to_owned(),
    };
    let d = c.clone();
    assert_eq!(d.rabbitmq_url, c.rabbitmq_url);
    assert_eq!(d.supabase_url, c.supabase_url);
    assert_eq!(d.supabase_service_token, c.supabase_service_token);
}
