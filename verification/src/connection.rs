//! What the connection manager establishes on every (re)connect: the queue
//! declaration, the consumer identity, and the prefetch limit. The broker
//! session itself is an external collaborator; this module fixes the
//! parameters handed to it, so a reconnect redeclares exactly the same
//! queue — which is what makes redeclaration idempotent and safe.

use vstd::prelude::*;
use crate::config::{effective_prefetch, DEFAULT_PREFETCH};
use crate::consumer::{LoopState, Phase};

verus! {

/// The parameters of one broker session: the durable quorum queue to
/// declare, the identity to consume under, and the prefetch/QoS limit — the
/// number of unacknowledged deliveries the broker may hold outstanding,
/// which is also the cap on concurrent processing tasks.
#[derive(Debug, Clone, PartialEq)]
pub struct SessionPlan {
    pub queue_name: String,
    pub durable: bool,
    pub quorum: bool,
    pub consumer_tag: String,
    pub prefetch: u16,
}

/// The session parameters for a configured prefetch override: always the
/// durable, quorum-replicated `"webhooks"` queue under the stable identity
/// `"webhook-dispatcher"`, with the configured prefetch or its default.
pub fn session_plan(prefetch_override: Option<u16>) -> (p: SessionPlan)
    ensures
        p.queue_name@ == "webhooks"@,
        p.durable,
        p.quorum,
        p.consumer_tag@ == "webhook-dispatcher"@,
        p.prefetch == match prefetch_override {
            Some(v) => v,
            None => DEFAULT_PREFETCH,
        },
{
    SessionPlan {
        queue_name: "webhooks".to_owned(),
        durable: true,
        quorum: true,
        consumer_tag: "webhook-dispatcher".to_owned(),
        prefetch: effective_prefetch(prefetch_override),
    }
}

impl SessionPlan {
    /// The consumer loop this session starts with: nothing in flight, and
    /// the concurrency cap equal to the session's prefetch limit, so the
    /// loop never schedules more work than the broker will hold outstanding.
    pub fn initial_loop_state(&self) -> (s: LoopState)
        ensures
            s == (LoopState {
                max_concurrent: self.prefetch as usize,
                in_flight: 0,
                phase: Phase::Running,
            }),
            s.wf(),
    {
        LoopState::new(self.prefetch as usize)
    }
}

} // verus!
