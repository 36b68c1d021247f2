//! Webhook dispatch: turning one queued message into a signed HTTP request,
//! classifying the transport's outcome, and recording it for the log sink.
//!
//! The HTTP call itself is an external collaborator; this module fixes what
//! is sent, what counts as success, and what is logged, as functions of the
//! message and of the transport's reported outcome.

use vstd::prelude::*;
use vstd::string::StringSliceAdditionalSpecFns;
use crate::models::{WebhookLog, WebhookQueueMessage};
use crate::signature::{sign_payload, spec_signature};

verus! {

/// What the HTTP transport reports for one outbound call: a response status,
/// or no response within the message's timeout, or a failure to connect.
#[derive(Debug, Clone, Copy, PartialEq, Eq, Structural)]
pub enum HttpOutcome {
    Status(u16),
    TimedOut,
    ConnectionFailed,
}

/// Why a dispatch failed: a response outside the 2xx range, no response
/// within the timeout, or a connection failure. All three are transient from
/// the queue's point of view and lead to a requeue.
#[derive(Debug, Clone, Copy, PartialEq, Eq, Structural)]
pub enum DispatchError {
    NonSuccessStatus(u16),
    TimedOut,
    ConnectionFailed,
}

/// An HTTP status in the 2xx range.
pub open spec fn is_success_status(s: u16) -> bool {
    200 <= s < 300
}

/// The dispatch result owed for a transport outcome: success exactly on a
/// 2xx response within the timeout, and the matching error otherwise.
pub open spec fn spec_dispatch_result(h: HttpOutcome) -> Result<(), DispatchError> {
    match h {
        HttpOutcome::Status(s) => if is_success_status(s) {
            Ok(())
        } else {
            Err(DispatchError::NonSuccessStatus(s))
        },
        HttpOutcome::TimedOut => Err(DispatchError::TimedOut),
        HttpOutcome::ConnectionFailed => Err(DispatchError::ConnectionFailed),
    }
}

/// Classifies the transport's outcome: `Ok` exactly on a 2xx response, and
/// the error naming the failure otherwise.
pub fn dispatch_result(h: &HttpOutcome) -> (r: Result<(), DispatchError>)
    ensures
        r == spec_dispatch_result(*h),
        r is Ok <==> (*h matches HttpOutcome::Status(s) && is_success_status(s)),
{
    match h {
        HttpOutcome::Status(s) => {
            if 200 <= *s && *s < 300 {
                Ok(())
            } else {
                Err(DispatchError::NonSuccessStatus(*s))
            }
        },
        HttpOutcome::TimedOut => Err(DispatchError::TimedOut),
        HttpOutcome::ConnectionFailed => Err(DispatchError::ConnectionFailed),
    }
}

/// The outbound request for one message: where to post, the merged headers
/// (caller-supplied ones first, then the signature header), the serialized
/// payload as the body, and the message's own timeout.
#[derive(Debug, Clone, PartialEq)]
pub struct WebhookRequest {
    pub url: String,
    pub headers: Vec<(String, String)>,
    pub body: String,
    pub timeout_ms: u64,
}

/// Builds the outbound request for a message whose payload serialized to
/// `payload_json`: the message's URL and timeout, the caller-supplied headers
/// in their order, and one added signature header over the body.
pub fn prepare_request(msg: &WebhookQueueMessage, secret: &str, payload_json: &str) -> (r:
    WebhookRequest)
    ensures
        r.url@ == msg.webhook_url@,
        r.body@ == payload_json@,
        r.timeout_ms == msg.timeout_ms,
        r.headers@.len() == msg.headers@.len() + 1,
        forall|i: int| 0 <= i < msg.headers@.len() ==> r.headers@[i] == msg.headers@[i],
        r.headers@.last().0@ == "X-Webhook-Signature"@,
        r.headers@.last().1@ == spec_signature(secret.spec_bytes(), payload_json.spec_bytes()),
{
    let mut headers: Vec<(String, String)> = Vec::new();
    let mut i: usize = 0;
    while i < msg.headers.len()
        invariant
            i <= msg.headers@.len(),
            headers@.len() == i,
            forall|j: int| 0 <= j < i ==> headers@[j] == msg.headers@[j],
        decreases msg.headers@.len() - i,
    {
        let name = msg.headers[i].0.clone();
        let value = msg.headers[i].1.clone();
        headers.push((name, value));
        i += 1;
    }
    headers.push(("X-Webhook-Signature".to_owned(), sign_payload(secret, payload_json)));
    WebhookRequest {
        url: msg.webhook_url.clone(),
        headers,
        body: payload_json.to_owned(),
        timeout_ms: msg.timeout_ms,
    }
}

/// The delivery-outcome record owed to the log sink for one message and one
/// transport outcome: success mirrors the dispatch result, the status code is
/// carried when a response arrived, and a failure names its reason.
pub fn build_log(msg: &WebhookQueueMessage, h: &HttpOutcome) -> (l: WebhookLog)
    ensures
        l.success == (spec_dispatch_result(*h) is Ok),
        l.team_id@ == msg.team_id@,
        l.crawl_id@ == msg.job_id@,
        l.scrape_id == msg.scrape_id,
        l.url@ == msg.webhook_url@,
        l.event@ == msg.event@,
        match *h {
            HttpOutcome::Status(s) => l.status_code == Some(s as i32) && (if is_success_status(s) {
                l.error is None
            } else {
                l.error matches Some(e) && e@ == "non-success status"@
            }),
            HttpOutcome::TimedOut => l.status_code is None && (l.error matches Some(e) && e@
                == "request timed out"@),
            HttpOutcome::ConnectionFailed => l.status_code is None && (l.error matches Some(e) && e@
                == "connection failed"@),
        },
{
    let (success, status_code, error): (bool, Option<i32>, Option<String>) = match h {
        HttpOutcome::Status(s) => {
            if 200 <= *s && *s < 300 {
                (true, Some(*s as i32), None)
            } else {
                (false, Some(*s as i32), Some("non-success status".to_owned()))
            }
        },
        HttpOutcome::TimedOut => (false, None, Some("request timed out".to_owned())),
        HttpOutcome::ConnectionFailed => (false, None, Some("connection failed".to_owned())),
    };
    WebhookLog {
        success,
        error,
        team_id: msg.team_id.clone(),
        crawl_id: msg.job_id.clone(),
        scrape_id: msg.scrape_id.clone(),
        url: msg.webhook_url.clone(),
        status_code,
        event: msg.event.clone(),
    }
}

} // verus!
