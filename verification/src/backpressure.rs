//! Credit-based backpressure for one channel's emitter.
//!
//! An emitter counts the blocks it has taken since it last received a credit.
//! At the threshold it takes no further block until the consumer grants one
//! credit, which opens a fresh window.

use std::sync::mpsc::Receiver;
use std::sync::{Mutex, MutexGuard};
use vstd::prelude::*;

verus! {

/// `std::sync::mpsc::Receiver`, carried through as it is: the end of a
/// channel on which the consumer's credits arrive.
#[verifier::external_type_specification]
#[verifier::external_body]
#[verifier::reject_recursive_types(T)]
pub struct ExReceiver<T>(Receiver<T>);

/// `std::sync::Mutex`, carried through as it is: the emitters of a session
/// share one channel of credits.
#[verifier::external_type_specification]
#[verifier::external_body]
#[verifier::reject_recursive_types(T)]
pub struct ExMutex<T: ?Sized>(Mutex<T>);

/// `std::sync::MutexGuard`, carried through as it is: the hold of one emitter
/// on the channel, released when the guard is dropped.
#[verifier::external_type_specification]
#[verifier::external_body]
#[verifier::reject_recursive_types(T)]
pub struct ExMutexGuard<'a, T: ?Sized + 'a>(MutexGuard<'a, T>);

/// Takes hold of the consumer's channel: `Mutex::lock`. The call blocks while
/// another emitter holds the channel. It yields the guard, or `None` where the
/// lock is poisoned because its holder panicked. Nothing is claimed of which.
#[verifier::external_body]
fn hold_credits<'a>(credits: &'a Mutex<Receiver<()>>) -> (held: Option<
    MutexGuard<'a, Receiver<()>>,
>) {
    credits.lock().ok()
}

/// Waits on the consumer's channel for one credit: `Receiver::recv`. The call
/// returns once the consumer has sent a credit, with `true`, or has dropped
/// its end of the channel, with `false`; until then it blocks. Which of the
/// two happens is the consumer's doing, so nothing is claimed of the result.
#[verifier::external_body]
fn receive_credit(held: &MutexGuard<'_, Receiver<()>>) -> (received: bool) {
    held.recv().is_ok()
}

/// The number of blocks an emitter may take on one credit.
pub const CREDIT_THRESHOLD: u32 = 40;

/// What an emitter asks of its window.
pub enum WindowCall {
    /// Permission to take the next block.
    Reserve,
    /// The consumer granted a credit.
    Credit,
}

/// What the emitter is told when it asks to take a block.
#[derive(Debug, Clone, Copy, PartialEq, Eq, Structural)]
pub enum Admission {
    /// The block may be taken; it has been counted.
    Granted,
    /// The window is used up: wait for one credit, report it, ask again.
    AwaitCredit,
}

/// What becomes visible of a call: a block emitted, or a credit consumed.
/// A refused reservation leaves no trace.
pub enum WindowEvent {
    Emitted,
    CreditReceived,
}

/// One call against a window that has counted `count` blocks: the new count and
/// what the call made visible.
pub open spec fn window_step(count: nat, call: WindowCall) -> (nat, Option<WindowEvent>) {
    match call {
        WindowCall::Reserve => if count < CREDIT_THRESHOLD {
            (count + 1, Some(WindowEvent::Emitted))
        } else {
            (count, None)
        },
        WindowCall::Credit => (0, Some(WindowEvent::CreditReceived)),
    }
}

/// The count after a sequence of calls against a fresh window.
pub open spec fn window_count(calls: Seq<WindowCall>) -> nat
    decreases calls.len(),
{
    if calls.len() == 0 {
        0
    } else {
        window_step(window_count(calls.drop_last()), calls.last()).0
    }
}

/// Everything a sequence of calls against a fresh window made visible, in order.
pub open spec fn window_log(calls: Seq<WindowCall>) -> Seq<WindowEvent>
    decreases calls.len(),
{
    if calls.len() == 0 {
        Seq::empty()
    } else {
        let before = window_log(calls.drop_last());
        match window_step(window_count(calls.drop_last()), calls.last()).1 {
            Some(event) => before.push(event),
            None => before,
        }
    }
}

/// Whether `log[from..to]` holds emitted blocks only.
pub open spec fn all_emitted(log: Seq<WindowEvent>, from: int, to: int) -> bool {
    forall|k: int| from <= k < to ==> (#[trigger] log[k]) is Emitted
}

/// The credit window of one channel's emitter.
pub struct CreditWindow {
    count: u32,
}

impl View for CreditWindow {
    type V = nat;

    /// The blocks taken since the last credit.
    closed spec fn view(&self) -> nat {
        self.count as nat
    }
}

impl CreditWindow {
    #[verifier::type_invariant]
    spec fn within_threshold(self) -> bool {
        self.count <= CREDIT_THRESHOLD
    }

    /// A fresh window: nothing taken yet.
    pub fn new() -> (window: CreditWindow)
        ensures
            window@ == 0,
    {
        CreditWindow { count: 0 }
    }

    /// The blocks taken since the last credit.
    pub fn in_flight(&self) -> (count: u32)
        ensures
            count == self@,
            count <= CREDIT_THRESHOLD,
    {
        proof {
            use_type_invariant(self);
        }
        self.count
    }

    /// Asks to take the next block. Below the threshold the block is counted
    /// and granted; at the threshold nothing changes and the emitter has to
    /// wait for a credit.
    pub fn reserve(&mut self) -> (admission: Admission)
        ensures
            final(self)@ == window_step(old(self)@, WindowCall::Reserve).0,
            admission is Granted <==> old(self)@ < CREDIT_THRESHOLD,
            admission is Granted <==> window_step(old(self)@, WindowCall::Reserve).1 is Some,
    {
        proof {
            use_type_invariant(&*self);
        }
        if self.count < CREDIT_THRESHOLD {
            self.count = self.count + 1;
            Admission::Granted
        } else {
            Admission::AwaitCredit
        }
    }

    /// Goes on after a wait for credit. Where a credit was received, the
    /// window starts over and the block is counted in it; where none can
    /// come any more, nothing changes and nothing is granted.
    pub fn resume(&mut self, received: bool) -> (admission: Admission)
        ensures
            received ==> admission is Granted && final(self)@ == 1 && final(self)@ == window_step(
                window_step(old(self)@, WindowCall::Credit).0,
                WindowCall::Reserve,
            ).0,
            !received ==> admission is AwaitCredit && final(self)@ == old(self)@,
    {
        if received {
            self.credit();
            self.reserve()
        } else {
            Admission::AwaitCredit
        }
    }

    /// Takes the next block's place in the window, and waits on `credits` for
    /// one credit first where the window is used up. There is no timeout: a
    /// consumer that never grants credit keeps the emitter waiting. The
    /// calling thread must not already hold `credits`: the wait takes the lock
    /// itself, for its own duration, and a thread that locks what it holds may
    /// never return.
    ///
    /// Below the threshold the block is counted and granted at once, and the
    /// channel is not touched. At the threshold the outcome is the consumer's:
    /// with a credit the window starts over with this block; if no credit can
    /// come any more, because the consumer has dropped its end of the channel
    /// or the lock on the channel is poisoned, nothing is granted and nothing
    /// changes.
    pub fn acquire(&mut self, credits: &Mutex<Receiver<()>>) -> (admission: Admission)
        ensures
            old(self)@ < CREDIT_THRESHOLD ==> admission is Granted && final(self)@ == old(self)@
                + 1,
            old(self)@ >= CREDIT_THRESHOLD ==> (admission is Granted && final(self)@ == 1) || (
            admission is AwaitCredit && final(self)@ == old(self)@),
    {
        match self.reserve() {
            Admission::Granted => Admission::Granted,
            Admission::AwaitCredit => {
                let received = match hold_credits(credits) {
                    Some(held) => receive_credit(&held),
                    None => false,
                };
                self.resume(received)
            },
        }
    }

    /// Records one credit from the consumer: the window starts over.
    pub fn credit(&mut self)
        ensures
            final(self)@ == window_step(old(self)@, WindowCall::Credit).0,
            final(self)@ == 0,
    {
        self.count = 0;
    }
}

/// The blocks counted by a window are the emitted blocks at the end of its log:
/// after any calls, the last `window_count` entries of the log are emitted
/// blocks, a consumed credit stands before them unless they reach back to the
/// start, and the count is within the threshold.
pub proof fn lemma_count_is_tail(calls: Seq<WindowCall>)
    ensures
        window_count(calls) <= CREDIT_THRESHOLD,
        window_count(calls) <= window_log(calls).len(),
        all_emitted(
            window_log(calls),
            window_log(calls).len() - window_count(calls),
            window_log(calls).len() as int,
        ),
        window_count(calls) < window_log(calls).len() ==> window_log(calls)[window_log(calls).len()
            - window_count(calls) - 1] is CreditReceived,
    decreases calls.len(),
{
    if calls.len() > 0 {
        lemma_count_is_tail(calls.drop_last());
    }
}

/// Backpressure bound: whatever the emitter and the consumer do, no more than
/// `CREDIT_THRESHOLD` blocks are emitted in a row without a credit between them.
pub proof fn lemma_credit_bound(calls: Seq<WindowCall>, from: int, to: int)
    requires
        0 <= from <= to <= window_log(calls).len(),
        all_emitted(window_log(calls), from, to),
    ensures
        to - from <= CREDIT_THRESHOLD,
    decreases calls.len(),
{
    if calls.len() > 0 {
        let before = window_log(calls.drop_last());
        let log = window_log(calls);
        if to <= before.len() {
            // The stretch lay in the log before the last call was made.
            assert forall|k: int| from <= k < to implies (#[trigger] before[k]) is Emitted by {
                assert(log[k] is Emitted);
            }
            lemma_credit_bound(calls.drop_last(), from, to);
        } else {
            // The stretch ends with the entry that the last call added, so it
            // cannot reach back beyond the blocks that the window has counted:
            // a consumed credit stands there.
            lemma_count_is_tail(calls);
            let boundary = log.len() - window_count(calls) - 1;
            if from <= boundary {
                assert(log[boundary] is Emitted);
            }
        }
    }
}

} // verus!
