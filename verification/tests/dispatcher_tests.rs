use webhook_dispatcher::dispatcher::{build_log, dispatch_result, prepare_request, DispatchError,
    HttpOutcome};
use webhook_dispatcher::models::{WebhookPayload, WebhookQueueMessage};
use webhook_dispatcher::signature::sign_payload;

fn sample_message() -> WebhookQueueMessage {
    WebhookQueueMessage {
        webhook_url: "https://example.com/hook".to_owned(),
        payload: WebhookPayload {
            success: true,
            event_type: "crawl.page".to_owned(),
            id: Some("doc-1".to_owned()),
            job_id: None,
            data: vec!["{\"url\":\"https://example.com\"}".to_owned()],
            error: None,
            metadata: None,
        },
        headers: vec![("X-Team".to_owned(), "alpha".to_owned())],
        team_id: "team-1".to_owned(),
        job_id: "job-9".to_owned(),
        scrape_id: Some("scrape-4".to_owned()),
        event: "crawl.page".to_owned(),
        timeout_ms: 30_000,
    }
}

#[test]
fn only_2xx_statuses_are_success() {
    assert_eq!(dispatch_result(&HttpOutcome::Status(200)), Ok(()));
    assert_eq!(dispatch_result(&HttpOutcome::Status(204)), Ok(()));
    assert_eq!(dispatch_result(&HttpOutcome::Status(299)), Ok(()));
    assert_eq!(
        dispatch_result(&HttpOutcome::Status(199)),
        Err(DispatchError::NonSuccessStatus(199))
    );
    assert_eq!(
        dispatch_result(&HttpOutcome::Status(300)),
        Err(DispatchError::NonSuccessStatus(300))
    );
    assert_eq!(
        dispatch_result(&HttpOutcome::Status(500)),
        Err(DispatchError::NonSuccessStatus(500))
    );
}

#[test]
fn timeout_and_connection_failure_are_dispatch_errors() {
    assert_eq!(dispatch_result(&HttpOutcome::TimedOut), Err(DispatchError::TimedOut));
    assert_eq!(
        dispatch_result(&HttpOutcome::ConnectionFailed),
        Err(DispatchError::ConnectionFailed)
    );
}

#[test]
fn server_error_logs_failure_with_status() {
    let msg = sample_message();
    let log = build_log(&msg, &HttpOutcome::Status(500));
    assert!(!log.success);
    assert_eq!(log.status_code, Some(500));
    assert_eq!(log.error.as_deref(), Some("non-success status"));
    assert_eq!(log.team_id, "team-1");
    assert_eq!(log.crawl_id, "job-9");
    assert_eq!(log.scrape_id.as_deref(), Some("scrape-4"));
    assert_eq!(log.url, "https://example.com/hook");
    assert_eq!(log.event, "crawl.page");
}

#[test]
fn successful_delivery_logs_success() {
    let msg = sample_message();
    let log = build_log(&msg, &HttpOutcome::Status(200));
    assert!(log.success);
    assert_eq!(log.status_code, Some(200));
    assert_eq!(log.error, None);
}

#[test]
fn timeout_logs_failure_without_status() {
    let msg = sample_message();
    let log = build_log(&msg, &HttpOutcome::TimedOut);
    assert!(!log.success);
    assert_eq!(log.status_code, None);
    assert_eq!(log.error.as_deref(), Some("request timed out"));
}

#[test]
fn request_carries_merged_headers_and_signature() {
    let msg = sample_message();
    let body = "{\"success\":true}";
    let req = prepare_request(&msg, "secret", body);
    assert_eq!(req.url, "https://example.com/hook");
    assert_eq!(req.body, body);
    assert_eq!(req.timeout_ms, 30_000);
    assert_eq!(req.headers.len(), 2);
    assert_eq!(req.headers[0], ("X-Team".to_owned(), "alpha".to_owned()));
    assert_eq!(req.headers[1].0, "X-Webhook-Signature");
    assert_eq!(req.headers[1].1, sign_payload("secret", body));
    assert_eq!(
        req.headers[1].1,
        "sha256=8654a464e966658d4fb3467f2df004b76d96867ec7afd20cb52fdcce423e74d7"
    );
}
