use vstd::prelude::*;

verus! {

/// What a stream of requests has recorded: how many sent requests still await their
/// identifier, whether its input has closed, and whether it was given up.
pub struct StreamStateView {
    pub inflight: usize,
    pub finished: bool,
    pub abort: bool,
}

/// The shared record of one stream of requests.
pub struct StreamState {
    inflight: usize,
    finished: bool,
    abort: bool,
}

/// A change that one of the parts of a stream makes to its record.
pub enum StreamOp {
    Add(usize),
    Sub(usize),
    StoreFinished(bool),
    Abort,
}

/// The record after one change; the count of requests in flight wraps as the
/// underlying atomic counter does.
pub open spec fn apply_op(v: StreamStateView, op: StreamOp) -> StreamStateView {
    match op {
        StreamOp::Add(n) => StreamStateView {
            inflight: vstd::wrapping::usize_specs::wrapping_add(v.inflight, n),
            ..v
        },
        StreamOp::Sub(n) => StreamStateView {
            inflight: vstd::wrapping::usize_specs::wrapping_sub(v.inflight, n),
            ..v
        },
        StreamOp::StoreFinished(f) => StreamStateView { finished: f, ..v },
        StreamOp::Abort => StreamStateView { abort: true, ..v },
    }
}

/// The record after a run of changes, in order.
pub open spec fn apply_ops(v: StreamStateView, ops: Seq<StreamOp>) -> StreamStateView
    decreases ops.len(),
{
    if ops.len() == 0 {
        v
    } else {
        apply_op(apply_ops(v, ops.drop_last()), ops.last())
    }
}

/// The record of a stream that has just started.
pub open spec fn fresh_stream() -> StreamStateView {
    StreamStateView { inflight: 0, finished: false, abort: false }
}

/// Whether the stream is over: it was given up, or its input has closed and no sent
/// request awaits its identifier.
pub open spec fn is_done(v: StreamStateView) -> bool {
    v.abort || (v.finished && v.inflight == 0)
}

impl View for StreamState {
    type V = StreamStateView;

    closed spec fn view(&self) -> StreamStateView {
        StreamStateView { inflight: self.inflight, finished: self.finished, abort: self.abort }
    }
}

impl StreamState {
    /// The record of a stream that has just started.
    pub fn new() -> (s: Self)
        ensures
            s@ == fresh_stream(),
    {
        StreamState { inflight: 0, finished: false, abort: false }
    }

    /// `value` sent requests have had their identifier back.
    pub fn inflight_sub(&mut self, value: usize)
        ensures
            final(self)@ == apply_op(old(self)@, StreamOp::Sub(value)),
    {
        self.inflight = self.inflight.wrapping_sub(value);
    }

    /// `value` more requests have been sent.
    pub fn inflight_add(&mut self, value: usize)
        ensures
            final(self)@ == apply_op(old(self)@, StreamOp::Add(value)),
    {
        self.inflight = self.inflight.wrapping_add(value);
    }

    /// Records whether the input of the stream has closed.
    pub fn store_finished_state(&mut self, finished: bool)
        ensures
            final(self)@ == apply_op(old(self)@, StreamOp::StoreFinished(finished)),
    {
        self.finished = finished;
    }

    /// Gives the stream up.
    pub fn abort(&mut self)
        ensures
            final(self)@ == apply_op(old(self)@, StreamOp::Abort),
    {
        self.abort = true;
    }

    /// Whether the stream is over.
    pub fn finished(&self) -> (r: bool)
        ensures
            r == is_done(self@),
    {
        if self.abort {
            return true;
        }
        if !self.finished {
            return false;
        }
        self.inflight == 0
    }
}

/// How one wait for a returned identifier went.
pub enum IdReadOutcome {
    /// An identifier came back.
    Popped,
    /// The wait failed; `reconnected` tells whether a new connection was had.
    PopFailed { reconnected: bool },
}

/// What the identifier reader does after a wait.
#[derive(Debug, PartialEq, Eq, Structural)]
pub enum IdReadAction {
    /// Hand the identifier to the result reader (reporting `IDSenderErr` where that
    /// fails), then wait again while the stream is not over.
    ForwardId,
    /// Wait again, on the new connection, while the stream is not over.
    ReadAgain,
    /// Report that no connection is to be had, then wait again on the old connection
    /// while the stream is not over.
    ReportNoConnection,
}

/// The step of the identifier reader: an identifier that comes back is counted off the
/// requests in flight and handed on; a failed wait changes nothing in the record and
/// either goes on with a new connection or reports that none was had.
pub fn id_reader_step(state: &mut StreamState, outcome: IdReadOutcome) -> (a: IdReadAction)
    ensures
        match outcome {
            IdReadOutcome::Popped => final(state)@ == apply_op(old(state)@, StreamOp::Sub(1)) && a
                == IdReadAction::ForwardId,
            IdReadOutcome::PopFailed { reconnected: true } => final(state)@ == old(state)@ && a
                == IdReadAction::ReadAgain,
            IdReadOutcome::PopFailed { reconnected: false } => final(state)@ == old(state)@ && a
                == IdReadAction::ReportNoConnection,
        },
{
    match outcome {
        IdReadOutcome::Popped => {
            state.inflight_sub(1);
            IdReadAction::ForwardId
        },
        IdReadOutcome::PopFailed { reconnected } => {
            if reconnected {
                IdReadAction::ReadAgain
            } else {
                IdReadAction::ReportNoConnection
            }
        },
    }
}

/// Once a stream has been given up it is over, whatever is recorded after.
pub proof fn law_abort_is_final(v: StreamStateView, ops: Seq<StreamOp>)
    requires
        v.abort,
    ensures
        apply_ops(v, ops).abort,
        is_done(apply_ops(v, ops)),
    decreases ops.len(),
{
    if ops.len() > 0 {
        law_abort_is_final(v, ops.drop_last());
    }
}

/// Counting `n` requests as sent and then `n` identifiers as back leaves the record as
/// it was.
pub proof fn law_add_then_sub_restores(v: StreamStateView, n: usize)
    ensures
        apply_op(apply_op(v, StreamOp::Add(n)), StreamOp::Sub(n)) == v,
{
}

/// What the parts of a stream record: a request was sent, an identifier came back, the
/// input closed.
pub enum StreamEvent {
    Sent,
    Returned,
    InputClosed,
}

/// The change that an event makes to the record.
pub open spec fn event_op(e: StreamEvent) -> StreamOp {
    match e {
        StreamEvent::Sent => StreamOp::Add(1),
        StreamEvent::Returned => StreamOp::Sub(1),
        StreamEvent::InputClosed => StreamOp::StoreFinished(true),
    }
}

pub open spec fn event_ops(es: Seq<StreamEvent>) -> Seq<StreamOp> {
    es.map_values(|e: StreamEvent| event_op(e))
}

pub open spec fn count_sent(es: Seq<StreamEvent>) -> nat
    decreases es.len(),
{
    if es.len() == 0 {
        0
    } else {
        count_sent(es.drop_last()) + if es.last() is Sent { 1nat } else { 0nat }
    }
}

pub open spec fn count_returned(es: Seq<StreamEvent>) -> nat
    decreases es.len(),
{
    if es.len() == 0 {
        0
    } else {
        count_returned(es.drop_last()) + if es.last() is Returned { 1nat } else { 0nat }
    }
}

pub open spec fn input_closed(es: Seq<StreamEvent>) -> bool {
    exists|i: int| 0 <= i < es.len() && es[i] is InputClosed
}

/// The count of requests in flight that the record keeps: sent minus returned, taken
/// around the width of a `usize` as the atomic counter does.
pub open spec fn wrapped_difference(sent: nat, returned: nat) -> int {
    if sent >= returned {
        sent - returned
    } else {
        sent - returned + usize::MAX + 1
    }
}

proof fn lemma_event_run(es: Seq<StreamEvent>)
    requires
        count_sent(es) <= usize::MAX,
        count_returned(es) <= usize::MAX,
    ensures
        apply_ops(fresh_stream(), event_ops(es)).inflight == wrapped_difference(
            count_sent(es),
            count_returned(es),
        ),
        apply_ops(fresh_stream(), event_ops(es)).finished == input_closed(es),
        !apply_ops(fresh_stream(), event_ops(es)).abort,
    decreases es.len(),
{
    if es.len() > 0 {
        let p = es.drop_last();
        lemma_event_run(p);
        assert(event_ops(es).drop_last() =~= event_ops(p));
        if input_closed(es) && !(es.last() is InputClosed) {
            let i = choose|i: int| 0 <= i < es.len() && es[i] is InputClosed;
            assert(p[i] is InputClosed);
        }
        if input_closed(p) {
            let i = choose|i: int| 0 <= i < p.len() && p[i] is InputClosed;
            assert(es[i] is InputClosed);
        }
    } else {
        assert(apply_ops(fresh_stream(), event_ops(es)) == fresh_stream());
    }
}

/// The record of a stream that was not given up counts, in whatever order requests
/// were sent and identifiers came back (one may come back before its send is counted),
/// the sent requests minus the returned ones around the width of a `usize`; and the
/// stream is over exactly when its input has closed and as many identifiers came back
/// as requests were sent. Both counts are taken to fit in a `usize`.
pub proof fn law_done_when_all_returned(es: Seq<StreamEvent>)
    requires
        count_sent(es) <= usize::MAX,
        count_returned(es) <= usize::MAX,
    ensures
        apply_ops(fresh_stream(), event_ops(es)).inflight == wrapped_difference(
            count_sent(es),
            count_returned(es),
        ),
        is_done(apply_ops(fresh_stream(), event_ops(es))) <==> (input_closed(es) && count_sent(es)
            == count_returned(es)),
{
    lemma_event_run(es);
}

} // verus!
