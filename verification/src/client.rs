//! The compositor event client: one value owning the connection phase, the
//! pending state of the current epoch, and the producing side of the
//! consumer channel.
//!
//! The surrounding process performs the I/O — opening the socket, writing
//! the subscription, reading lines, sleeping between retries — and calls in
//! here for every decision: which phase comes next, what a line means, and
//! what a debounce tick emits.
use vstd::prelude::*;

use crate::connection::ConnAction;
use crate::connection::ConnEvent;
use crate::connection::ConnPhase;
use crate::connection::spec_step;
use crate::connection::step;
use crate::pending::OutboundEvent;
use crate::pending::PendingModel;
use crate::pending::PendingState;
use crate::pending::apply_model;
use crate::pending::flush_model;
use crate::pending::out_views;
use crate::protocol::classify_line;
use crate::protocol::spec_classify;
use crate::publish::Publisher;

verus! {

/// The fixed subscription request written once per connection, naming the
/// event categories of interest.
pub fn subscription_request() -> (r: &'static str)
    ensures
        r@ == "[\"subscribe\", [\"workspace\", \"fullscreen\"]]"@,
{
    "[\"subscribe\", [\"workspace\", \"fullscreen\"]]"
}

/// One compositor event client.
pub struct HyprlandClient {
    /// Where the connection lifecycle stands.
    pub phase: ConnPhase,
    /// What changed since the last flush, for the current connection epoch.
    pub pending: PendingState,
    /// The producing side of the consumer channel.
    pub publisher: Publisher,
}

impl HyprlandClient {
    /// A client that has not resolved a socket path yet, with nothing
    /// pending, publishing to the given consumer channel.
    pub fn new(sender: async_channel::Sender<OutboundEvent>) -> (c: HyprlandClient)
        ensures
            c.phase == ConnPhase::Resolving,
            c.pending@ == PendingModel::empty(),
    {
        HyprlandClient {
            phase: ConnPhase::Resolving,
            pending: PendingState::new(),
            publisher: Publisher::new(sender),
        }
    }

    /// Advance the connection lifecycle by one reported event and say what
    /// to do next.  Entering the stream opens a fresh epoch: pending state
    /// left over from an earlier connection is discarded, never carried
    /// across a reconnect.
    pub fn on_io_event(&mut self, e: ConnEvent) -> (a: ConnAction)
        ensures
            final(self).phase == spec_step(old(self).phase, e).0,
            a == spec_step(old(self).phase, e).1,
            final(self).pending@ == (if final(self).phase is Streaming && !(old(
                self,
            ).phase is Streaming) {
                PendingModel::empty()
            } else {
                old(self).pending@
            }),
    {
        let r = step(self.phase, e);
        let entered_stream = match (self.phase, r.0) {
            (ConnPhase::Streaming, _) => false,
            (_, ConnPhase::Streaming) => true,
            _ => false,
        };
        self.phase = r.0;
        if entered_stream {
            self.pending = PendingState::new();
        }
        r.1
    }

    /// Fold one raw protocol line into the pending state.  Nothing is
    /// emitted here, and no input raises: malformed lines classify to an
    /// ignored event.
    pub fn event_matches(&mut self, line: &str)
        ensures
            final(self).pending@ == apply_model(old(self).pending@, spec_classify(line@)),
            final(self).phase == old(self).phase,
    {
        let ev = classify_line(line);
        self.pending.apply(ev);
    }

    /// One debounce tick: drain the pending state into outbound events, in
    /// flush order, clearing every field.
    pub fn debounce(&mut self) -> (out: Vec<OutboundEvent>)
        ensures
            final(self).pending@ == PendingModel::empty(),
            out_views(out@) == flush_model(old(self).pending@),
            final(self).phase == old(self).phase,
    {
        self.pending.flush()
    }

    /// One debounce tick, with the flushed events offered to the consumer
    /// in flush order.  Delivery is best effort: a full or closed consumer
    /// channel drops events and the client carries on.
    pub fn debounce_and_publish(&mut self) -> (delivered: usize)
        ensures
            final(self).pending@ == PendingModel::empty(),
            delivered <= flush_model(old(self).pending@).len(),
            final(self).phase == old(self).phase,
    {
        let out = self.debounce();
        proof {
            assert(out@.len() == flush_model(old(self).pending@).len());
        }
        self.publisher.publish_all(out)
    }
}

/// A raw line named `workspace` or `change` always classifies to a
/// workspace update, and folding it into any pending state marks the
/// workspace flag, so the next flush will carry a workspace event.
pub proof fn lemma_workspace_line_marks_dirty(line: Seq<char>, m: PendingModel)
    requires
        crate::protocol::line_name(line) == "workspace"@ || crate::protocol::line_name(line)
            == "change"@,
    ensures
        spec_classify(line) is Workspace,
        apply_model(m, spec_classify(line)).workspace_dirty,
{
    crate::protocol::lemma_workspace_line(line);
    crate::pending::lemma_workspace_marks_dirty(m, spec_classify(line));
}

} // verus!
