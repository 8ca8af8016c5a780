//! Per-connection state machine.
//!
//! A connection is admitted in phase `Authed`, becomes `Steady` once its
//! `sys.authed` went out, turns `Closing` on any exit condition and is
//! `Gone` after cleanup. The functions here decide; the caller reads the
//! socket, awaits services and timers, and writes what it is handed.

use vstd::prelude::*;
use crate::config::schema::HotErrorMode;
use crate::error::{ClientCode, WsPrismError};
use crate::policy::bucket::TokenBucket;
use crate::protocol::hot::{HotFrame, HotFrameView};
use crate::protocol::text::{Envelope, EnvelopeView};
use crate::realtime::ctx::RealtimeCtx;
use crate::realtime::egress::RealtimeCore;
use crate::realtime::types::{WireMessage, WireView};
use crate::transport::sysmsg::{error_data, sys_error_json, sys_text};

verus! {

/// Where a connection stands in its life.
#[derive(Debug, Clone, Copy, PartialEq, Eq, Structural)]
pub enum Phase {
    /// Admitted; `sys.authed` not yet sent.
    Authed,
    /// In the frame loop.
    Steady,
    /// Leaving the loop; cleanup is due.
    Closing,
    /// Cleaned up.
    Gone,
}

/// The lane a frame arrived on.
#[derive(Debug, Clone, Copy, PartialEq, Eq, Structural)]
pub enum Lane {
    Ext,
    Hot,
}

/// State of one connection.
#[derive(Debug, Clone)]
pub struct Connection {
    pub tenant_id: String,
    pub user_id: String,
    pub session_id: String,
    pub user_key: String,
    pub session_key: String,
    pub trace_id: String,
    pub phase: Phase,
    /// The room that Hot frames are routed to.
    pub active_room: Option<String>,
    /// Clock reading at the last inbound frame.
    pub last_activity_ms: u64,
    /// The connection's own rate limit, if the tenant has one per
    /// connection.
    pub bucket: Option<TokenBucket>,
}

/// What the caller does after a step.
#[derive(Debug)]
pub enum Outcome {
    /// Keep reading.
    Continue,
    /// Hand the envelope to the Ext service that it names.
    DispatchText(Envelope),
    /// Hand the frame to the Hot service that it names.
    DispatchHot(HotFrame),
    /// Leave the loop and clean up.
    Close,
}

/// Mathematical content of an `Outcome`.
pub enum OutcomeView {
    Continue,
    DispatchText(EnvelopeView),
    DispatchHot(HotFrameView),
    Close,
}

impl View for Outcome {
    type V = OutcomeView;

    open spec fn view(&self) -> OutcomeView {
        match self {
            Outcome::Continue => OutcomeView::Continue,
            Outcome::DispatchText(e) => OutcomeView::DispatchText(e@),
            Outcome::DispatchHot(f) => OutcomeView::DispatchHot(f@),
            Outcome::Close => OutcomeView::Close,
        }
    }
}

/// Why a step ended as it did, for counting.
#[derive(Debug, Clone, Copy, PartialEq, Eq, Structural)]
pub enum Cause {
    /// The connection is outside the frame loop.
    Ignored,
    /// The session is registered no more.
    Evicted,
    /// The frame did not decode.
    Decode,
    /// A ping, a pong or a close from the peer.
    Control,
    /// Policy dropped the frame.
    Dropped,
    /// Policy rejected the frame, with this code.
    Rejected(ClientCode),
    /// Policy closed the connection, with this code.
    Closed(ClientCode),
    /// A Hot frame without the active room that the tenant asks for.
    Roomless,
    /// A room was joined.
    Joined,
    /// A cap refused the join of a room.
    JoinRefused,
    /// A room was left.
    Left,
    /// The message goes to a service.
    Dispatched,
    /// The connection was idle for too long.
    Idle,
    /// The idle check found nothing to do.
    Alive,
}

/// Result of one step: at most one frame for the connection's own queue,
/// what to do next, and why.
#[derive(Debug)]
pub struct Step {
    pub reply: Option<WireMessage>,
    pub outcome: Outcome,
    pub cause: Cause,
}

/// Mathematical content of a `Step`.
pub struct StepView {
    pub reply: Option<WireView>,
    pub outcome: OutcomeView,
}

impl View for Step {
    type V = StepView;

    open spec fn view(&self) -> StepView {
        StepView {
            reply: match self.reply {
                Some(m) => Some(m@),
                None => None,
            },
            outcome: self.outcome@,
        }
    }
}

/// The `sys.error` frame for `code` and `msg` on a connection traced as
/// `trace_id`.
pub open spec fn error_frame(code: ClientCode, msg: Seq<char>, trace_id: Seq<char>) -> WireView {
    WireView::Text(sys_text("error"@, Some(error_data(code.wire_name(), msg)), None, trace_id))
}

/// The `sys.error` frame that reports `e`.
pub open spec fn error_frame_of(e: WsPrismError, trace_id: Seq<char>) -> WireView {
    error_frame(e.code(), e.description(), trace_id)
}

/// The name of the room that a `room.join` or `room.leave` without a
/// `room` member means when no room is active.
pub open spec fn default_room() -> Seq<char> {
    "default"@
}

impl Connection {
    /// The connection's invariant: a sound bucket, if it has one.
    pub open spec fn wf(&self) -> bool {
        self.bucket matches Some(b) ==> b.wf()
    }

    /// Whether the connection's own rate limit admits a frame at `now_ms`.
    pub open spec fn bucket_admits(&self, now_ms: u64) -> bool {
        match self.bucket {
            Some(b) => b.admits(now_ms),
            None => true,
        }
    }

    /// Everything but the phase, the active room, the clock and the bucket.
    pub open spec fn same_identity(&self, other: &Connection) -> bool {
        &&& other.tenant_id@ == self.tenant_id@
        &&& other.user_id@ == self.user_id@
        &&& other.session_id@ == self.session_id@
        &&& other.user_key@ == self.user_key@
        &&& other.session_key@ == self.session_key@
        &&& other.trace_id@ == self.trace_id@
    }

    /// `sys.authed` went out: the connection enters the frame loop. A
    /// connection in another phase stays where it is.
    pub fn mark_steady(&mut self)
        ensures
            final(self).phase == (if old(self).phase == Phase::Authed {
                Phase::Steady
            } else {
                old(self).phase
            }),
            old(self).same_identity(final(self)),
            final(self).active_room == old(self).active_room,
            final(self).last_activity_ms == old(self).last_activity_ms,
            final(self).bucket == old(self).bucket,
    {
        match self.phase {
            Phase::Authed => {
                self.phase = Phase::Steady;
            },
            _ => {},
        }
    }

    /// An exit condition arose: the peer closed, a write timed out, the
    /// session was evicted or the gateway drains. A connection that is
    /// gone stays gone.
    pub fn close(&mut self)
        ensures
            final(self).phase == (if old(self).phase == Phase::Gone {
                Phase::Gone
            } else {
                Phase::Closing
            }),
            old(self).same_identity(final(self)),
            final(self).active_room == old(self).active_room,
            final(self).last_activity_ms == old(self).last_activity_ms,
            final(self).bucket == old(self).bucket,
    {
        match self.phase {
            Phase::Gone => {},
            _ => {
                self.phase = Phase::Closing;
            },
        }
    }

    /// The context of a message on this connection.
    pub fn context<'a>(&self, core: &'a RealtimeCore) -> (c: RealtimeCtx<'a>)
        ensures
            c.spec_tenant() == self.tenant_id@,
            c.spec_user() == self.user_id@,
            c.spec_session() == self.session_id@,
            c.spec_user_key() == self.user_key@,
            c.spec_session_key() == self.session_key@,
            c.spec_trace_id() == self.trace_id@,
            c.spec_active_room() == (match self.active_room {
                Some(r) => Some(r@),
                None => None,
            }),
            c.spec_core() == core,
    {
        RealtimeCtx::new(
            self.tenant_id.clone(),
            self.user_id.clone(),
            self.session_id.clone(),
            self.user_key.clone(),
            self.session_key.clone(),
            self.trace_id.clone(),
            self.active_room.clone(),
            core,
        )
    }

    /// Whether the connection is in the frame loop.
    pub fn is_steady(&self) -> (b: bool)
        ensures
            b == (self.phase == Phase::Steady),
    {
        match self.phase {
            Phase::Steady => true,
            _ => false,
        }
    }

    /// The `sys.error` frame for `code` and `msg`.
    pub fn error_reply(&self, code: ClientCode, msg: &str) -> (m: WireMessage)
        ensures
            m@ == error_frame(code, msg@, self.trace_id@),
    {
        WireMessage::Text(sys_error_json(code.as_str(), msg, self.trace_id.as_str()))
    }

    /// The `sys.error` frame that reports `e`.
    pub fn error_reply_of(&self, e: &WsPrismError) -> (m: WireMessage)
        ensures
            m@ == error_frame_of(*e, self.trace_id@),
    {
        let text = e.describe();
        self.error_reply(e.client_code(), text.as_str())
    }

    /// Idle check. A steady connection that saw no frame for
    /// `idle_timeout_ms` is told so and closes; any other keeps going.
    pub fn on_idle_check(&mut self, now_ms: u64, idle_timeout_ms: u64) -> (step: Step)
        ensures
            old(self).same_identity(final(self)),
            final(self).active_room == old(self).active_room,
            final(self).last_activity_ms == old(self).last_activity_ms,
            final(self).bucket == old(self).bucket,
            step.cause == (if old(self).idle_expired(now_ms, idle_timeout_ms) {
                Cause::Idle
            } else {
                Cause::Alive
            }),
            old(self).idle_expired(now_ms, idle_timeout_ms) ==> final(self).phase == Phase::Closing
                && step@ == (StepView {
                reply: Some(error_frame(ClientCode::Timeout, "idle timeout"@, old(self).trace_id@)),
                outcome: OutcomeView::Close,
            }),
            !old(self).idle_expired(now_ms, idle_timeout_ms) ==> final(self).phase == old(
                self,
            ).phase && step@ == (StepView { reply: None, outcome: OutcomeView::Continue }),
    {
        let steady = self.is_steady();
        let idle: u64 = if now_ms >= self.last_activity_ms {
            now_ms - self.last_activity_ms
        } else {
            0
        };
        if steady && idle >= idle_timeout_ms {
            let reply = self.error_reply(ClientCode::Timeout, "idle timeout");
            self.phase = Phase::Closing;
            Step { reply: Some(reply), outcome: Outcome::Close, cause: Cause::Idle }
        } else {
            Step { reply: None, outcome: Outcome::Continue, cause: Cause::Alive }
        }
    }

    /// Whether a steady connection has been idle for `idle_timeout_ms` at
    /// `now_ms`.
    pub open spec fn idle_expired(&self, now_ms: u64, idle_timeout_ms: u64) -> bool {
        self.phase == Phase::Steady && (if now_ms >= self.last_activity_ms {
            now_ms - self.last_activity_ms
        } else {
            0
        }) >= idle_timeout_ms
    }

    /// What a service made of a dispatched message. Success sends nothing.
    /// A failure is reported with `sys.error` on the Ext lane, and on the
    /// Hot lane as the tenant's Hot error mode says.
    pub fn on_service_result(
        &self,
        lane: Lane,
        mode: HotErrorMode,
        result: &Result<(), WsPrismError>,
    ) -> (reply: Option<WireMessage>)
        ensures
            match *result {
                Ok(_) => reply is None,
                Err(e) => if lane == Lane::Hot && mode == HotErrorMode::Silent {
                    reply is None
                } else {
                    reply matches Some(m) && m@ == error_frame_of(e, self.trace_id@)
                },
            },
    {
        match result {
            Ok(_) => None,
            Err(e) => {
                let silent = match lane {
                    Lane::Ext => false,
                    Lane::Hot => match mode {
                        HotErrorMode::Silent => true,
                        HotErrorMode::SysError => false,
                    },
                };
                if silent {
                    None
                } else {
                    Some(self.error_reply_of(e))
                }
            },
        }
    }
}

/// The heartbeat frame sent on every ping tick.
pub fn ping_frame() -> (m: WireMessage)
    ensures
        m@ == WireView::Ping(Seq::empty()),
{
    WireMessage::Ping(Vec::new())
}

} // verus!
