//! Data carried through the dispatcher: the queued message, its payload, and
//! the delivery-outcome record sent to the log sink.

use vstd::prelude::*;

verus! {

/// The JSON body delivered to the webhook endpoint. Fields holding `None`
/// are omitted from the serialized form rather than emitted as null. Each
/// entry of `data` is the serialized text of one opaque JSON value, carried
/// verbatim; `metadata` is a sequence of key/value pairs.
#[derive(Debug, Clone, PartialEq)]
pub struct WebhookPayload {
    pub success: bool,
    pub event_type: String,
    pub id: Option<String>,
    pub job_id: Option<String>,
    pub data: Vec<String>,
    pub error: Option<String>,
    pub metadata: Option<Vec<(String, String)>>,
}

/// One message drained from the work queue, immutable once decoded. The
/// caller-supplied `headers` are merged into the outbound request; the HTTP
/// call is bounded by `timeout_ms`.
#[derive(Debug, Clone, PartialEq)]
pub struct WebhookQueueMessage {
    pub webhook_url: String,
    pub payload: WebhookPayload,
    pub headers: Vec<(String, String)>,
    pub team_id: String,
    pub job_id: String,
    pub scrape_id: Option<String>,
    pub event: String,
    pub timeout_ms: u64,
}

/// A write-only record of one delivery outcome, sent to the external log
/// sink; there is no local persistence.
#[derive(Debug, Clone, PartialEq)]
pub struct WebhookLog {
    pub success: bool,
    pub error: Option<String>,
    pub team_id: String,
    pub crawl_id: String,
    pub scrape_id: Option<String>,
    pub url: String,
    pub status_code: Option<i32>,
    pub event: String,
}

} // verus!
