//! Single-slot primitives for handing events and values between tasks.

use vstd::prelude::*;

verus! {

/// A single-slot wake signal without payload.
///
/// Notifications are not counted: however many arrive before the next wait,
/// one wake is pending. Whoever is woken reads the state it cares about
/// afresh, so nothing is lost by merging them.
#[derive(Clone, Copy, Debug, PartialEq, Eq, Structural)]
pub struct Signal {
    pending: bool,
}

impl Signal {
    /// Whether a wake is pending.
    pub closed spec fn pending(self) -> bool {
        self.pending
    }

    /// The signal after one notification.
    pub closed spec fn notified(self) -> Signal {
        Signal { pending: true }
    }

    /// The signal after `count` notifications in a row.
    pub open spec fn notified_times(self, count: nat) -> Signal
        decreases count,
    {
        if count == 0 {
            self
        } else {
            self.notified_times((count - 1) as nat).notified()
        }
    }

    /// The signal after a wait was attempted on it.
    pub closed spec fn waited(self) -> Signal {
        Signal { pending: false }
    }

    /// A signal with no wake pending.
    pub fn new() -> (signal: Self)
        ensures
            !signal.pending(),
    {
        Signal { pending: false }
    }

    /// Whether a wake is pending.
    pub fn is_pending(&self) -> (pending: bool)
        ensures
            pending == self.pending(),
    {
        self.pending
    }

    /// Records that something happened. Never blocks; a wake that is already
    /// pending stays the only one.
    pub fn notify(&mut self)
        ensures
            *final(self) == old(self).notified(),
            final(self).pending(),
    {
        self.pending = true;
    }

    /// One attempt to wait: consumes the pending wake and returns `true`, or
    /// returns `false` where none is pending and the caller has to suspend.
    pub fn try_wait(&mut self) -> (woken: bool)
        ensures
            woken == old(self).pending(),
            *final(self) == old(self).waited(),
            !final(self).pending(),
    {
        let woken = self.pending;
        self.pending = false;
        woken
    }
}

impl Default for Signal {
    fn default() -> (signal: Self)
        ensures
            !signal.pending(),
    {
        Signal::new()
    }
}

/// A notification leaves a wake pending.
pub broadcast proof fn lemma_notified_is_pending(signal: Signal)
    ensures
        (#[trigger] signal.notified()).pending(),
{
}

/// An attempt to wait leaves no wake pending.
pub broadcast proof fn lemma_waited_is_not_pending(signal: Signal)
    ensures
        !(#[trigger] signal.waited()).pending(),
{
}

/// A signal is nothing but its pending wake.
pub proof fn lemma_signal_by_pending(a: Signal, b: Signal)
    requires
        a.pending() == b.pending(),
    ensures
        a == b,
{
}

/// Any number of notifications, at least one, before a wait give exactly one
/// wake: the first wait after them is resolved and the one after that is not.
/// This holds whatever the signal held before, so a notification that comes
/// before the first wait is kept.
pub proof fn lemma_notifications_coalesce(signal: Signal, count: nat)
    requires
        count >= 1,
    ensures
        signal.notified_times(count).pending(),
        !signal.notified_times(count).waited().pending(),
        signal.notified_times(count) == signal.notified(),
{
}

/// Waits on several signals at once, as far as one attempt goes: the first
/// of `signals` with a wake pending, in their order, has it consumed and its
/// index returned; the others keep theirs. With no wake pending anywhere
/// nothing changes and the caller has to suspend.
pub fn select_array<const N: usize>(signals: &mut [Signal; N]) -> (ready: Option<usize>)
    ensures
        match ready {
            Some(index) => {
                &&& index < N
                &&& old(signals)[index as int].pending()
                &&& forall|i: int| 0 <= i < index ==> !(#[trigger] old(signals)[i]).pending()
                &&& final(signals)@ == old(signals)@.update(
                    index as int,
                    old(signals)[index as int].waited(),
                )
            },
            None => {
                &&& forall|i: int| 0 <= i < N ==> !(#[trigger] old(signals)[i]).pending()
                &&& *final(signals) == *old(signals)
            },
        },
{
    let mut index: usize = 0;
    while index < N
        invariant
            index <= N,
            *signals == *old(signals),
            forall|i: int| 0 <= i < index ==> !(#[trigger] old(signals)[i]).pending(),
        decreases N - index,
    {
        let mut signal = signals[index];
        if signal.try_wait() {
            signals[index] = signal;
            return Some(index);
        }
        index += 1;
    }
    None
}

/// A single-slot channel: it holds the latest value sent and not yet
/// received. A value sent while another waits replaces it.
#[derive(Debug)]
pub struct Mailbox<T> {
    latest: Option<T>,
}

impl<T> Mailbox<T> {
    /// The value that waits to be received, if any.
    pub closed spec fn waiting(&self) -> Option<T> {
        self.latest
    }

    /// An empty mailbox.
    pub fn new() -> (mailbox: Self)
        ensures
            mailbox.waiting() is None,
    {
        Mailbox { latest: None }
    }

    /// Puts `value` into the slot, in place of whatever waited there.
    pub fn send(&mut self, value: T)
        ensures
            final(self).waiting() == Some(value),
    {
        self.latest = Some(value);
    }

    /// The value that waits to be received, if any; it stays in the slot.
    pub fn peek(&self) -> (value: Option<T>) where T: Copy
        ensures
            value == self.waiting(),
    {
        self.latest
    }

    /// Takes the waiting value out, or returns `None` where the slot is
    /// empty and the caller has to suspend.
    pub fn try_recv(&mut self) -> (value: Option<T>)
        ensures
            value == old(self).waiting(),
            final(self).waiting() is None,
    {
        self.latest.take()
    }
}

} // verus!
