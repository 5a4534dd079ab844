//! The poll-or-suspend discipline that drives every wait on the connection.
//!
//! A wait alternates between polling the connection without blocking and
//! suspending until the socket is readable. After a wakeup the readiness signal
//! is cleared before the next poll, so a poll that finds nothing always leads to
//! a fresh suspension and never to a tight loop.
use vstd::prelude::*;

verus! {

/// What a non-blocking poll of the connection reported.
pub enum PollResult<T, E> {
    /// The awaited message was there.
    Ready(T),
    /// Nothing yet: the driver has to suspend until the socket is readable.
    NotReady,
    /// The transport failed; the wait ends with this error.
    Failed(E),
}

/// What a wait is for: the reply to one request, or the next queued event.
#[derive(Clone, Copy, Debug, PartialEq, Eq, Structural)]
pub enum Target {
    /// The reply correlated with the request that was given this token.
    Reply(u64),
    /// The next event, first in first out.
    Event,
}

/// The step a wait stands at.
#[derive(Clone, Copy, Debug, PartialEq, Eq, Structural)]
pub enum Phase {
    /// About to poll.
    Attempt,
    /// The last poll found nothing; waiting for the socket to become readable.
    Suspended,
    /// The socket was reported readable; the signal still has to be cleared.
    Signalled,
    /// The wait has delivered a message or an error.
    Finished,
}

/// What the driver of a wait has to do next.
#[derive(Clone, Copy, Debug, PartialEq, Eq, Structural)]
pub enum Action {
    /// Poll for the target without blocking.
    Poll(Target),
    /// Suspend until the socket is readable.
    AwaitReadable,
    /// Clear the readiness signal that woke the driver.
    ClearReadiness,
    /// Nothing more: the wait is over.
    Stop,
}

/// The action that belongs to a phase.
pub open spec fn action_of(phase: Phase, target: Target) -> Action {
    match phase {
        Phase::Attempt => Action::Poll(target),
        Phase::Suspended => Action::AwaitReadable,
        Phase::Signalled => Action::ClearReadiness,
        Phase::Finished => Action::Stop,
    }
}

/// Whether a poll result lets the wait go on.
pub open spec fn is_not_ready<T, E>(p: PollResult<T, E>) -> bool {
    p is NotReady
}

/// What a wait delivers after the given sequence of poll results: the first
/// message or error, or nothing while every poll so far found nothing.
pub open spec fn outcome<T, E>(polls: Seq<PollResult<T, E>>) -> Option<Result<T, E>>
    decreases polls.len(),
{
    if polls.len() == 0 {
        None
    } else {
        match polls[0] {
            PollResult::Ready(t) => Some(Ok(t)),
            PollResult::Failed(e) => Some(Err(e)),
            PollResult::NotReady => outcome(polls.drop_first()),
        }
    }
}

/// One wait on the connection, from its first poll to the message or error it
/// delivers.
pub struct Retry<T, E> {
    target: Target,
    phase: Phase,
    polled: Ghost<Seq<PollResult<T, E>>>,
    waits: Ghost<nat>,
    clears: Ghost<nat>,
}

impl<T, E> Retry<T, E> {
    /// The target the wait was made for.
    pub closed spec fn target_spec(&self) -> Target {
        self.target
    }

    /// The step the wait stands at.
    pub closed spec fn phase(&self) -> Phase {
        self.phase
    }

    /// Every poll result seen so far, oldest first.
    pub closed spec fn polled(&self) -> Seq<PollResult<T, E>> {
        self.polled@
    }

    /// How many times the driver suspended until the socket was readable.
    pub closed spec fn waits(&self) -> nat {
        self.waits@
    }

    /// How many readiness signals the driver cleared.
    pub closed spec fn clears(&self) -> nat {
        self.clears@
    }

    /// The wait is consistent: every poll but the last found nothing, and
    /// between two polls the driver suspended once and cleared the signal once.
    pub closed spec fn wf(&self) -> bool {
        let n = self.polled@.len();
        &&& forall|i: int| 0 <= i < n - 1 ==> is_not_ready(#[trigger] self.polled@[i])
        &&& match self.phase {
            Phase::Attempt => {
                &&& n == self.waits@
                &&& n == self.clears@
                &&& n > 0 ==> is_not_ready(self.polled@[n - 1])
            },
            Phase::Suspended => {
                &&& n == self.waits@ + 1
                &&& n == self.clears@ + 1
                &&& is_not_ready(self.polled@[n - 1])
            },
            Phase::Signalled => {
                &&& n == self.waits@
                &&& n == self.clears@ + 1
                &&& n > 0
                &&& is_not_ready(self.polled@[n - 1])
            },
            Phase::Finished => {
                &&& n == self.waits@ + 1
                &&& n == self.clears@ + 1
                &&& !is_not_ready(self.polled@[n - 1])
            },
        }
    }

    /// Starts a wait for the given target; the first step is a poll.
    pub fn new(target: Target) -> (r: Self)
        ensures
            r.wf(),
            r.target_spec() == target,
            r.phase() == Phase::Attempt,
            r.polled() == Seq::<PollResult<T, E>>::empty(),
            r.waits() == 0,
            r.clears() == 0,
    {
        Retry {
            target,
            phase: Phase::Attempt,
            polled: Ghost(Seq::empty()),
            waits: Ghost(0),
            clears: Ghost(0),
        }
    }

    /// The target the wait was made for.
    pub fn target(&self) -> (r: Target)
        ensures
            r == self.target_spec(),
    {
        self.target
    }

    /// What the driver has to do next.
    pub fn next_action(&self) -> (r: Action)
        ensures
            r == action_of(self.phase(), self.target_spec()),
    {
        match self.phase {
            Phase::Attempt => Action::Poll(self.target),
            Phase::Suspended => Action::AwaitReadable,
            Phase::Signalled => Action::ClearReadiness,
            Phase::Finished => Action::Stop,
        }
    }

    /// Takes the result of a poll. A message or an error ends the wait and is
    /// handed back; nothing found sends the driver to suspend.
    pub fn on_poll(&mut self, p: PollResult<T, E>) -> (r: Option<Result<T, E>>)
        requires
            old(self).wf(),
            old(self).phase() == Phase::Attempt,
        ensures
            final(self).wf(),
            final(self).target_spec() == old(self).target_spec(),
            final(self).polled() == old(self).polled().push(p),
            final(self).waits() == old(self).waits(),
            final(self).clears() == old(self).clears(),
            r == outcome(final(self).polled()),
            match p {
                PollResult::Ready(t) => r == Some(Ok::<T, E>(t)) && final(self).phase() == Phase::Finished,
                PollResult::Failed(e) => r == Some(Err::<T, E>(e)) && final(self).phase() == Phase::Finished,
                PollResult::NotReady => r is None && final(self).phase() == Phase::Suspended,
            },
    {
        proof {
            let s = self.polled@;
            lemma_outcome_after_not_ready(s, p);
        }
        self.polled = Ghost(self.polled@.push(p));
        match p {
            PollResult::Ready(t) => {
                self.phase = Phase::Finished;
                Some(Ok(t))
            },
            PollResult::Failed(e) => {
                self.phase = Phase::Finished;
                Some(Err(e))
            },
            PollResult::NotReady => {
                self.phase = Phase::Suspended;
                None
            },
        }
    }

    /// The socket was reported readable; the signal has to be cleared next.
    pub fn on_readable(&mut self)
        requires
            old(self).wf(),
            old(self).phase() == Phase::Suspended,
        ensures
            final(self).wf(),
            final(self).target_spec() == old(self).target_spec(),
            final(self).phase() == Phase::Signalled,
            final(self).polled() == old(self).polled(),
            final(self).waits() == old(self).waits() + 1,
            final(self).clears() == old(self).clears(),
    {
        self.phase = Phase::Signalled;
        self.waits = Ghost(self.waits@ + 1);
    }

    /// The readiness signal was cleared; the next step is a poll.
    pub fn on_cleared(&mut self)
        requires
            old(self).wf(),
            old(self).phase() == Phase::Signalled,
        ensures
            final(self).wf(),
            final(self).target_spec() == old(self).target_spec(),
            final(self).phase() == Phase::Attempt,
            final(self).polled() == old(self).polled(),
            final(self).waits() == old(self).waits(),
            final(self).clears() == old(self).clears() + 1,
    {
        self.phase = Phase::Attempt;
        self.clears = Ghost(self.clears@ + 1);
    }
}

/// A wait never polls twice in a row: every poll after the first one follows
/// a suspension until the socket was readable and the clearing of that
/// readiness signal.
pub proof fn lemma_no_busy_loop<T, E>(r: Retry<T, E>)
    requires
        r.wf(),
    ensures
        r.polled().len() <= r.clears() + 1,
        r.clears() <= r.waits(),
        r.waits() <= r.polled().len(),
        r.phase() == Phase::Attempt ==> r.polled().len() == r.clears(),
{
}

/// A wait for a reply delivers exactly the message its poll returned, however
/// many polls before it found nothing.
pub proof fn lemma_reply_after_not_ready<T, E>(n: nat, t: T)
    ensures
        outcome(Seq::new(n, |i: int| PollResult::<T, E>::NotReady).push(PollResult::Ready(t)))
            == Some(Ok::<T, E>(t)),
{
    let s = Seq::new(n, |i: int| PollResult::<T, E>::NotReady);
    assert forall|i: int| 0 <= i < s.len() implies is_not_ready(#[trigger] s[i]) by {}
    lemma_outcome_after_not_ready(s, PollResult::Ready(t));
}

/// Appending a poll result to polls that all found nothing gives that result's
/// outcome.
proof fn lemma_outcome_after_not_ready<T, E>(s: Seq<PollResult<T, E>>, p: PollResult<T, E>)
    requires
        forall|i: int| 0 <= i < s.len() ==> is_not_ready(#[trigger] s[i]),
    ensures
        outcome(s) is None,
        outcome(s.push(p)) == match p {
            PollResult::Ready(t) => Some(Ok::<T, E>(t)),
            PollResult::Failed(e) => Some(Err::<T, E>(e)),
            PollResult::NotReady => None,
        },
    decreases s.len(),
{
    reveal_with_fuel(outcome, 2);
    if s.len() == 0 {
        assert(s.push(p).drop_first() =~= Seq::<PollResult<T, E>>::empty());
    } else {
        lemma_outcome_after_not_ready(s.drop_first(), p);
        assert(s.push(p).drop_first() =~= s.drop_first().push(p));
    }
}

} // verus!
