//! The jitter buffer between the audio ingest channel and the decoder, and the
//! decision the playback consumer makes on each receive.
use std::collections::VecDeque;
use vstd::prelude::*;

verus! {

/// The number of chunks held before the oldest is released, unless another
/// threshold is chosen.
pub const DEFAULT_MIN_FILL: usize = 2;

/// Pending chunks after appending `chunk` to `pending`, and the chunk released:
/// the oldest one, as soon as at least `min_fill` chunks are pending.
pub open spec fn push_step(pending: Seq<Vec<u8>>, chunk: Vec<u8>, min_fill: nat) -> (
    Seq<Vec<u8>>,
    Option<Vec<u8>>,
) {
    let q = pending.push(chunk);
    if q.len() >= min_fill {
        (q.drop_first(), Some(q[0]))
    } else {
        (q, None)
    }
}

/// The chunks released and the chunks still pending after pushing `inputs` one
/// by one onto a buffer that holds `pending`.
pub open spec fn push_all_spec(pending: Seq<Vec<u8>>, inputs: Seq<Vec<u8>>, min_fill: nat) -> (
    Seq<Vec<u8>>,
    Seq<Vec<u8>>,
)
    decreases inputs.len(),
{
    if inputs.len() == 0 {
        (Seq::empty(), pending)
    } else {
        let (released, held) = push_all_spec(pending, inputs.drop_last(), min_fill);
        let (next, out) = push_step(held, inputs.last(), min_fill);
        match out {
            Some(c) => (released.push(c), next),
            None => (released, next),
        }
    }
}

/// What the playback consumer does after one receive from the ingest channel.
pub enum PlaybackAction {
    /// Decode this chunk and hand it to the sink.
    Play(Vec<u8>),
    /// Nothing to play yet: receive again.
    Wait,
    /// The channel is closed: stop.
    Stop,
}

/// An ordered queue of audio chunks with a minimum fill.
pub struct JitterBuffer {
    queue: VecDeque<Vec<u8>>,
    min_fill: usize,
}

impl JitterBuffer {
    /// The chunks waiting, oldest first.
    pub closed spec fn pending(&self) -> Seq<Vec<u8>> {
        self.queue@
    }

    /// The threshold at which the oldest chunk is released.
    pub closed spec fn threshold(&self) -> nat {
        self.min_fill as nat
    }

    /// An empty buffer that releases a chunk once `min_fill` are pending.
    pub fn new(min_fill: usize) -> (r: Self)
        ensures
            r.pending() == Seq::<Vec<u8>>::empty(),
            r.threshold() == min_fill,
    {
        JitterBuffer { queue: VecDeque::new(), min_fill }
    }

    /// The number of chunks waiting.
    pub fn len(&self) -> (r: usize)
        ensures
            r == self.pending().len(),
    {
        self.queue.len()
    }

    /// Appends `chunk` at the tail; then, if at least the threshold of chunks
    /// is pending, removes and returns the oldest.
    pub fn push(&mut self, chunk: Vec<u8>) -> (r: Option<Vec<u8>>)
        ensures
            final(self).threshold() == old(self).threshold(),
            (final(self).pending(), r) == push_step(old(self).pending(), chunk, old(self).threshold()),
    {
        self.queue.push_back(chunk);
        if self.queue.len() >= self.min_fill {
            self.queue.pop_front()
        } else {
            None
        }
    }

    /// The consumer's step for one receive: `None` means the channel closed,
    /// and the pending chunks are not drained.
    pub fn on_receive(&mut self, received: Option<Vec<u8>>) -> (r: PlaybackAction)
        ensures
            final(self).threshold() == old(self).threshold(),
            received is None ==> r is Stop && final(self).pending() == old(self).pending(),
            received is Some ==> ({
                let (next, out) = push_step(old(self).pending(), received->Some_0, old(self).threshold());
                &&& final(self).pending() == next
                &&& out is Some ==> r == PlaybackAction::Play(out->Some_0)
                &&& out is None ==> r is Wait
            }),
    {
        match received {
            None => PlaybackAction::Stop,
            Some(chunk) => match self.push(chunk) {
                Some(c) => PlaybackAction::Play(c),
                None => PlaybackAction::Wait,
            },
        }
    }
}

/// Chunks leave in the order they arrived: what was released, followed by
/// what is still pending, is what was pending followed by the new chunks, for
/// any threshold and any sequence of pushes.
pub proof fn lemma_order_kept(pending: Seq<Vec<u8>>, inputs: Seq<Vec<u8>>, min_fill: nat)
    ensures
        ({
            let (released, held) = push_all_spec(pending, inputs, min_fill);
            released + held == pending + inputs
        }),
    decreases inputs.len(),
{
    if inputs.len() > 0 {
        lemma_order_kept(pending, inputs.drop_last(), min_fill);
        let (released, held) = push_all_spec(pending, inputs.drop_last(), min_fill);
        let q = held.push(inputs.last());
        assert(inputs =~= inputs.drop_last().push(inputs.last()));
        assert(released + held == pending + inputs.drop_last());
        assert(released + q =~= (released + held).push(inputs.last()));
        assert(pending + inputs =~= (pending + inputs.drop_last()).push(inputs.last()));
        if q.len() >= min_fill {
            assert(released.push(q[0]) + q.drop_first() =~= released + q);
        }
    }
}

/// Starting empty with a threshold of at least one, the buffer holds back
/// exactly the newest `min(n, threshold - 1)` of `n` chunks, and releases all
/// the others, oldest first.
pub proof fn lemma_fill_from_empty(inputs: Seq<Vec<u8>>, min_fill: nat)
    requires
        min_fill >= 1,
    ensures
        ({
            let (released, held) = push_all_spec(Seq::empty(), inputs, min_fill);
            let kept = if inputs.len() < min_fill { inputs.len() } else { (min_fill - 1) as nat };
            &&& held.len() == kept
            &&& released == inputs.take(inputs.len() - kept)
        }),
    decreases inputs.len(),
{
    lemma_order_kept(Seq::empty(), inputs, min_fill);
    if inputs.len() > 0 {
        lemma_fill_from_empty(inputs.drop_last(), min_fill);
        let (released, held) = push_all_spec(Seq::empty(), inputs, min_fill);
        let kept = if inputs.len() < min_fill { inputs.len() } else { (min_fill - 1) as nat };
        assert(Seq::<Vec<u8>>::empty() + inputs =~= inputs);
        assert(released + held == inputs);
        assert(released.len() == inputs.len() - kept);
        assert(released =~= (released + held).take(released.len() as int));
    }
}

} // verus!
