use vstd::prelude::*;

verus! {

/// A key press, reduced to what the dashboard's key bindings distinguish.
/// The terminal layer translates its own key-event type into this one before
/// handing the press to the library.
#[derive(Clone, Copy, PartialEq, Eq, Structural, Debug)]
pub enum KeyCode {
    Char(char),
    Up,
    Down,
    Enter,
    Esc,
    Other,
}

/// What travels from the input-sampling thread to the run loop: either a key
/// press or the periodic tick heartbeat.
#[derive(Clone, Copy, PartialEq, Eq, Structural, Debug)]
pub enum Event<I> {
    Input(I),
    Tick,
}

/// The single-producer/single-consumer channel between the input sampler and
/// the run loop, modelled as the sequence of messages sent but not yet
/// received. `send` appends at the back, `recv` takes from the front, so
/// messages are observed in exactly the order they were sent.
pub struct Channel<T> {
    buf: Vec<T>,
}

impl<T> Channel<T> {
    /// The messages still in flight, oldest first.
    pub closed spec fn view(&self) -> Seq<T> {
        self.buf@
    }

    /// An empty channel.
    pub fn new() -> (c: Channel<T>)
        ensures
            c@ == Seq::<T>::empty(),
    {
        Channel { buf: Vec::new() }
    }

    /// The producer side: enqueue a message behind all earlier ones.
    pub fn send(&mut self, msg: T)
        ensures
            final(self)@ == old(self)@.push(msg),
    {
        self.buf.push(msg);
    }

    /// The consumer side: dequeue the oldest message, or `None` when the
    /// channel is empty (for the run loop, an empty scripted channel plays
    /// the part of a disconnected producer).
    pub fn recv(&mut self) -> (r: Option<T>)
        ensures
            old(self)@.len() == 0 ==> r is None && final(self)@ == old(self)@,
            old(self)@.len() > 0 ==> r == Some(old(self)@[0]) && final(self)@ == old(self)@.drop_first(),
    {
        if self.buf.len() == 0 {
            None
        } else {
            let front = self.buf.remove(0);
            assert(self@ =~= old(self)@.drop_first());
            Some(front)
        }
    }

    /// How many messages are waiting.
    pub fn len(&self) -> (n: usize)
        ensures
            n == self@.len(),
    {
        self.buf.len()
    }
}

/// The input sampler's poll timeout: wait for a key at most for the part of
/// the tick interval that has not elapsed yet, clamped to zero once a tick
/// is already due. This bounds key-delivery latency by the tick interval.
pub fn poll_timeout(tick_rate_ms: u64, elapsed_ms: u64) -> (t: u64)
    ensures
        t == (if elapsed_ms < tick_rate_ms {
            (tick_rate_ms - elapsed_ms) as u64
        } else {
            0u64
        }),
{
    if elapsed_ms < tick_rate_ms {
        tick_rate_ms - elapsed_ms
    } else {
        0
    }
}

/// Whether the sampler owes the run loop a tick: one is due exactly when a
/// whole tick interval has elapsed since the last one.
pub fn tick_due(tick_rate_ms: u64, elapsed_ms: u64) -> (due: bool)
    ensures
        due == (elapsed_ms >= tick_rate_ms),
{
    elapsed_ms >= tick_rate_ms
}

/// The channel state after `k` receives from a channel holding `s`.
pub open spec fn after_recvs<T>(s: Seq<T>, k: nat) -> Seq<T> {
    s.skip(k as int)
}

/// Message ordering: from a channel holding the sent sequence `s`, the
/// `k`-th receive (counting from zero) observes exactly `s[k]` — the consumer
/// sees the messages in the order the producer sent them.
pub proof fn lemma_fifo_order<T>(s: Seq<T>, k: nat)
    requires
        k < s.len(),
    ensures
        after_recvs(s, k).len() > 0,
        after_recvs(s, k)[0] == s[k as int],
        after_recvs(s, (k + 1) as nat) == after_recvs(s, k).drop_first(),
{
    assert(after_recvs(s, (k + 1) as nat) =~= after_recvs(s, k).drop_first());
}

} // verus!
