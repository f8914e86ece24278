//! The bounded aggregator: owns the pending events, bounds them, and releases
//! them in batches under one of two disciplines.
use crate::event::NetworkEvent;
use std::collections::VecDeque;
use vstd::prelude::*;

verus! {

/// Which releases an aggregator makes on its own.
#[derive(Clone, Copy, Debug, PartialEq, Eq, Structural)]
pub enum ReleasePolicy {
    /// Releases on a timer and whenever the buffer fills up.
    Autonomous,
    /// Releases only when asked.
    Interactive,
}

/// The three ways a batch leaves the aggregator.
pub enum ReleaseKind {
    Timer,
    Capacity,
    Demand,
}

/// The mathematical state of an aggregator.
pub struct ProcessorState {
    pub pending: Seq<NetworkEvent>,
    pub capacity: nat,
    pub policy: ReleasePolicy,
}

impl ProcessorState {
    pub open spec fn wf(self) -> bool {
        &&& self.capacity > 0
        &&& self.pending.len() <= self.capacity
    }

    /// The same state with nothing pending.
    pub open spec fn drained(self) -> ProcessorState {
        ProcessorState { pending: Seq::empty(), ..self }
    }
}

/// Appends `e`, dropping the oldest event when the bound is exceeded.
pub open spec fn push_bounded(s: ProcessorState, e: NetworkEvent) -> ProcessorState {
    let pushed = s.pending.push(e);
    ProcessorState {
        pending: if pushed.len() > s.capacity {
            pushed.drop_first()
        } else {
            pushed
        },
        ..s
    }
}

/// The next state and the batch (if any) of one release.
pub open spec fn release_step(s: ProcessorState, kind: ReleaseKind) -> (ProcessorState, Option<
    Seq<NetworkEvent>,
>) {
    match kind {
        ReleaseKind::Timer => if s.pending.len() == 0 {
            (s, None)
        } else {
            (s.drained(), Some(s.pending))
        },
        ReleaseKind::Capacity => if s.policy == ReleasePolicy::Autonomous && s.pending.len()
            >= s.capacity {
            (s.drained(), Some(s.pending))
        } else {
            (s, None)
        },
        ReleaseKind::Demand => (s.drained(), Some(s.pending)),
    }
}

/// One ingest: a bounded append followed by the capacity check.
pub open spec fn ingest_step(s: ProcessorState, e: NetworkEvent) -> (ProcessorState, Option<
    Seq<NetworkEvent>,
>) {
    release_step(push_bounded(s, e), ReleaseKind::Capacity)
}

pub open spec fn batch_view(r: Option<Vec<NetworkEvent>>) -> Option<Seq<NetworkEvent>> {
    match r {
        Some(v) => Some(v@),
        None => None,
    }
}

/// Holds the events captured since the last release, at most
/// `max_buffer_size` of them, oldest first.
pub struct NetworkEventProcessor {
    buffer: VecDeque<NetworkEvent>,
    max_buffer_size: usize,
    policy: ReleasePolicy,
}

impl View for NetworkEventProcessor {
    type V = ProcessorState;

    closed spec fn view(&self) -> ProcessorState {
        ProcessorState {
            pending: self.buffer@,
            capacity: self.max_buffer_size as nat,
            policy: self.policy,
        }
    }
}

impl NetworkEventProcessor {
    /// An interactive aggregator holding at most `max_buffer_size` events.
    /// The channel capacity belongs to the transport around the aggregator.
    pub fn new(max_buffer_size: usize, _channel_capacity: usize) -> (r: Self)
        requires
            max_buffer_size > 0,
        ensures
            r@.wf(),
            r@.pending.len() == 0,
            r@.capacity == max_buffer_size,
            r@.policy == ReleasePolicy::Interactive,
    {
        Self::with_policy(max_buffer_size, ReleasePolicy::Interactive)
    }

    /// An aggregator holding at most `max_buffer_size` events, releasing
    /// under `policy`.
    pub fn with_policy(max_buffer_size: usize, policy: ReleasePolicy) -> (r: Self)
        requires
            max_buffer_size > 0,
        ensures
            r@.wf(),
            r@.pending.len() == 0,
            r@.capacity == max_buffer_size,
            r@.policy == policy,
    {
        NetworkEventProcessor {
            buffer: VecDeque::with_capacity(max_buffer_size),
            max_buffer_size,
            policy,
        }
    }

    pub fn len(&self) -> (r: usize)
        ensures
            r == self@.pending.len(),
    {
        self.buffer.len()
    }

    pub fn capacity(&self) -> (r: usize)
        ensures
            r == self@.capacity,
    {
        self.max_buffer_size
    }

    pub fn policy(&self) -> (r: ReleasePolicy)
        ensures
            r == self@.policy,
    {
        self.policy
    }

    /// Takes every pending event out, oldest first.
    fn drain(&mut self) -> (r: Vec<NetworkEvent>)
        ensures
            r@ == old(self)@.pending,
            final(self)@ == old(self)@.drained(),
    {
        let ghost start = self.buffer@;
        let mut out: Vec<NetworkEvent> = Vec::new();
        while self.buffer.len() > 0
            invariant
                out@ + self.buffer@ == start,
                self.max_buffer_size == old(self).max_buffer_size,
                self.policy == old(self).policy,
                start == old(self).buffer@,
            decreases self.buffer@.len(),
        {
            let ghost before = self.buffer@;
            match self.buffer.pop_front() {
                Some(e) => {
                    out.push(e);
                    assert(out@ + self.buffer@ =~= start) by {
                        assert(before =~= seq![e] + self.buffer@);
                    }
                },
                None => {},
            }
        }
        assert(out@ =~= start);
        assert(self.buffer@ =~= Seq::<NetworkEvent>::empty());
        out
    }

    /// The capacity check made after every insertion: in autonomous mode a
    /// full buffer is released at once.
    pub fn release_on_capacity(&mut self) -> (r: Option<Vec<NetworkEvent>>)
        requires
            old(self)@.capacity > 0,
        ensures
            (final(self)@, batch_view(r)) == release_step(old(self)@, ReleaseKind::Capacity),
    {
        if self.policy == ReleasePolicy::Autonomous && self.buffer.len() >= self.max_buffer_size {
            Some(self.drain())
        } else {
            None
        }
    }

    /// Appends `event`; when that exceeds the bound the oldest event is
    /// dropped first. Returns the batch of a capacity release, if one fired.
    pub fn ingest(&mut self, event: NetworkEvent) -> (r: Option<Vec<NetworkEvent>>)
        requires
            old(self)@.wf(),
        ensures
            (final(self)@, batch_view(r)) == ingest_step(old(self)@, event),
            final(self)@.wf(),
            final(self)@.pending.len() <= final(self)@.capacity,
            final(self)@.policy == ReleasePolicy::Autonomous ==> final(self)@.pending.len()
                < final(self)@.capacity,
    {
        self.buffer.push_back(event);
        if self.buffer.len() > self.max_buffer_size {
            let _ = self.buffer.pop_front();
        }
        proof {
            assert(self@ == push_bounded(old(self)@, event));
        }
        self.release_on_capacity()
    }

    /// The periodic release: nothing when the buffer is empty, otherwise
    /// every pending event.
    pub fn release_on_timer(&mut self) -> (r: Option<Vec<NetworkEvent>>)
        ensures
            (final(self)@, batch_view(r)) == release_step(old(self)@, ReleaseKind::Timer),
    {
        if self.buffer.len() == 0 {
            None
        } else {
            Some(self.drain())
        }
    }

    /// The release asked for by a query: every pending event, possibly none.
    pub fn release_on_demand(&mut self, _query: &str) -> (r: Vec<NetworkEvent>)
        ensures
            (final(self)@, Some(r@)) == release_step(old(self)@, ReleaseKind::Demand),
    {
        self.drain()
    }
}

/// Once an aggregator has released, a second release before any new event
/// hands out nothing. (A capacity check that did not fire released nothing,
/// so it is not a first release here.)
pub proof fn lemma_drain_atomic(s: ProcessorState, first: ReleaseKind, second: ReleaseKind)
    requires
        s.wf(),
        first is Capacity ==> release_step(s, first).1 is Some,
    ensures
        ({
            let (s1, b1) = release_step(s, first);
            let (s2, b2) = release_step(s1, second);
            b2 is None || b2 == Some(Seq::<NetworkEvent>::empty())
        }),
{
    if s.pending.len() == 0 {
        assert(s.pending =~= Seq::<NetworkEvent>::empty());
    }
}

/// What reaches the aggregator's event loop.
pub enum ProcessorInput {
    /// A new event from the packet source.
    Event(NetworkEvent),
    /// The release timer fired.
    Tick,
    /// A caller asks about recent traffic.
    Query(String),
}

/// What the event loop must do after handling one input.
pub enum ProcessorOutput {
    /// Nothing to hand out.
    Idle,
    /// Forward this batch to the analysis pipeline.
    Deliver(Vec<NetworkEvent>),
    /// Answer the pending query with this batch.
    Reply(Vec<NetworkEvent>),
}

/// The next state and the batch (if any) that one input produces.
pub open spec fn input_step(s: ProcessorState, input: ProcessorInput) -> (ProcessorState, Option<
    Seq<NetworkEvent>,
>) {
    match input {
        ProcessorInput::Event(e) => ingest_step(s, e),
        ProcessorInput::Tick => release_step(s, ReleaseKind::Timer),
        ProcessorInput::Query(_) => release_step(s, ReleaseKind::Demand),
    }
}

/// The batch that an output carries.
pub open spec fn output_batch(o: ProcessorOutput) -> Option<Seq<NetworkEvent>> {
    match o {
        ProcessorOutput::Idle => None,
        ProcessorOutput::Deliver(v) => Some(v@),
        ProcessorOutput::Reply(v) => Some(v@),
    }
}

impl NetworkEventProcessor {
    /// Handles one input of the event loop: an event is ingested (and may
    /// fill the buffer, giving a delivery), a tick is a timer release, and a
    /// query is answered with a demand release.
    pub fn step(&mut self, input: ProcessorInput) -> (r: ProcessorOutput)
        requires
            old(self)@.wf(),
        ensures
            (final(self)@, output_batch(r)) == input_step(old(self)@, input),
            final(self)@.wf(),
            input is Query <==> r is Reply,
    {
        match input {
            ProcessorInput::Event(e) => match self.ingest(e) {
                Some(b) => ProcessorOutput::Deliver(b),
                None => ProcessorOutput::Idle,
            },
            ProcessorInput::Tick => match self.release_on_timer() {
                Some(b) => ProcessorOutput::Deliver(b),
                None => ProcessorOutput::Idle,
            },
            ProcessorInput::Query(q) => ProcessorOutput::Reply(self.release_on_demand(q.as_str())),
        }
    }
}

/// The state after a run of inputs, and every event released on the way,
/// batch after batch.
pub open spec fn run(s: ProcessorState, inputs: Seq<ProcessorInput>) -> (ProcessorState, Seq<
    NetworkEvent,
>)
    decreases inputs.len(),
{
    if inputs.len() == 0 {
        (s, Seq::empty())
    } else {
        let (s1, released) = run(s, inputs.drop_last());
        let (s2, b) = input_step(s1, inputs.last());
        (
            s2,
            released + match b {
                Some(b) => b,
                None => Seq::empty(),
            },
        )
    }
}

/// The events that a run of inputs brings in, in order.
pub open spec fn events_in(inputs: Seq<ProcessorInput>) -> Seq<NetworkEvent>
    decreases inputs.len(),
{
    if inputs.len() == 0 {
        Seq::empty()
    } else {
        match inputs.last() {
            ProcessorInput::Event(e) => events_in(inputs.drop_last()).push(e),
            _ => events_in(inputs.drop_last()),
        }
    }
}

/// `f` maps each position of `a` to a position of `b` holding the same
/// event, keeping order and never using a position of `b` twice.
pub open spec fn is_embedding(f: spec_fn(int) -> int, a: Seq<NetworkEvent>, b: Seq<NetworkEvent>) -> bool {
    &&& forall|i: int| 0 <= i < a.len() ==> 0 <= #[trigger] f(i) < b.len() && a[i] == b[f(i)]
    &&& forall|i: int, j: int| 0 <= i < j < a.len() ==> #[trigger] f(i) < #[trigger] f(j)
}

/// `a` is `b` with some occurrences left out.
pub open spec fn embeds(a: Seq<NetworkEvent>, b: Seq<NetworkEvent>) -> bool {
    exists|f: spec_fn(int) -> int| #[trigger] is_embedding(f, a, b)
}

proof fn lemma_embeds_push(a: Seq<NetworkEvent>, b: Seq<NetworkEvent>, x: NetworkEvent)
    requires
        embeds(a, b),
    ensures
        embeds(a.push(x), b.push(x)),
{
    let f = choose|f: spec_fn(int) -> int| #[trigger] is_embedding(f, a, b);
    let g = |i: int| if i < a.len() { f(i) } else { b.len() as int };
    assert(is_embedding(g, a.push(x), b.push(x)));
}

proof fn lemma_embeds_remove(a: Seq<NetworkEvent>, b: Seq<NetworkEvent>, k: int)
    requires
        embeds(a, b),
        0 <= k < a.len(),
    ensures
        embeds(a.remove(k), b),
{
    let f = choose|f: spec_fn(int) -> int| #[trigger] is_embedding(f, a, b);
    let g = |i: int| if i < k { f(i) } else { f(i + 1) };
    let a2 = a.remove(k);
    assert forall|i: int| 0 <= i < a2.len() implies 0 <= #[trigger] g(i) < b.len() && a2[i] == b[g(i)] by {
        if i < k {
            assert(f(i) == g(i));
        } else {
            assert(f(i + 1) == g(i));
        }
    }
    assert forall|i: int, j: int| 0 <= i < j < a2.len() implies #[trigger] g(i) < #[trigger] g(j) by {
        if i < k && j >= k {
            assert(f(i) < f(j + 1));
        } else if i < k {
            assert(f(i) < f(j));
        } else {
            assert(f(i + 1) < f(j + 1));
        }
    }
    assert(is_embedding(g, a2, b));
}

/// No event is ever released twice: over any run of inputs, the events
/// released batch after batch, followed by those still pending, are the
/// events that were pending at the start and those brought in since, with
/// some left out (the evicted ones) and the capture order kept.
pub proof fn lemma_no_duplication(s: ProcessorState, inputs: Seq<ProcessorInput>)
    requires
        s.wf(),
    ensures
        run(s, inputs).0.wf(),
        embeds(run(s, inputs).1 + run(s, inputs).0.pending, s.pending + events_in(inputs)),
    decreases inputs.len(),
{
    if inputs.len() == 0 {
        let a = Seq::<NetworkEvent>::empty() + s.pending;
        let b = s.pending + Seq::<NetworkEvent>::empty();
        assert(a =~= s.pending);
        assert(b =~= s.pending);
        let f = |i: int| i;
        assert(is_embedding(f, a, b));
    } else {
        let prefix = inputs.drop_last();
        lemma_no_duplication(s, prefix);
        let (s1, d1) = run(s, prefix);
        let (s2, bt) = input_step(s1, inputs.last());
        let d2 = run(s, inputs).1;
        let src1 = s.pending + events_in(prefix);
        assert(run(s, inputs).0 == s2);
        assert(d2 == d1 + match bt {
            Some(b) => b,
            None => Seq::<NetworkEvent>::empty(),
        });
        match inputs.last() {
            ProcessorInput::Event(e) => {
                assert(events_in(inputs) == events_in(prefix).push(e));
                assert(s.pending + events_in(inputs) =~= src1.push(e));
                lemma_embeds_push(d1 + s1.pending, src1, e);
                let pushed = s1.pending.push(e);
                let mid = push_bounded(s1, e);
                if pushed.len() > s1.capacity {
                    assert((d1 + s1.pending).push(e).remove(d1.len() as int) =~= d1 + mid.pending);
                    lemma_embeds_remove((d1 + s1.pending).push(e), src1.push(e), d1.len() as int);
                } else {
                    assert((d1 + s1.pending).push(e) =~= d1 + mid.pending);
                }
                assert(d2 + s2.pending =~= d1 + mid.pending);
            },
            ProcessorInput::Tick => {
                assert(events_in(inputs) == events_in(prefix));
                assert(d2 + s2.pending =~= d1 + s1.pending);
            },
            ProcessorInput::Query(_) => {
                assert(events_in(inputs) == events_in(prefix));
                assert(d2 + s2.pending =~= d1 + s1.pending);
            },
        }
    }
}

} // verus!
