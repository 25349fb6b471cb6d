//! Track connection attempts independently of worker completion order.
//!
//! Each attempt gets a fresh number. A worker reports back with the number it
//! was started with, so a worker of a cancelled or finished attempt can never
//! finish the attempt that replaced it.

use vstd::prelude::*;

verus! {

/// The attempts as numbers: the last number handed out (0 when none was),
/// and the attempt in progress, if any.
pub struct AttemptsView {
    pub issued: u64,
    pub active: Option<u64>,
}

/// The attempt in progress, if any, is the one handed out last.
pub open spec fn attempts_valid(v: AttemptsView) -> bool {
    v.active matches Some(a) ==> a == v.issued && a >= 1
}

/// What [`ConnectionAttempts::begin`] does: nothing while an attempt is in
/// progress; otherwise hand out the next number and make it current.
pub open spec fn begin_step(v: AttemptsView) -> (AttemptsView, Option<u64>) {
    if v.active is Some {
        (v, None)
    } else {
        let n = (v.issued + 1) as u64;
        (AttemptsView { issued: n, active: Some(n) }, Some(n))
    }
}

/// What [`ConnectionAttempts::finish`] does with `attempt`.
pub open spec fn finish_step(v: AttemptsView, attempt: u64) -> (AttemptsView, bool) {
    if v.active == Some(attempt) {
        (AttemptsView { active: None, ..v }, true)
    } else {
        (v, false)
    }
}

/// What [`ConnectionAttempts::cancel`] does.
pub open spec fn cancel_step(v: AttemptsView) -> (AttemptsView, bool) {
    (AttemptsView { active: None, ..v }, v.active is Some)
}

/// At most one connection attempt is active at a time.
pub struct ConnectionAttempts {
    generation: u64,
    active: Option<u64>,
}

impl View for ConnectionAttempts {
    type V = AttemptsView;

    closed spec fn view(&self) -> AttemptsView {
        AttemptsView { issued: self.generation, active: self.active }
    }
}

impl ConnectionAttempts {
    #[verifier::type_invariant]
    closed spec fn well_formed(&self) -> bool {
        attempts_valid(self@)
    }

    /// Start an attempt, unless one is already active.
    ///
    /// The new attempt's number is one more than the last one handed out.
    pub fn begin(&mut self) -> (r: Option<u64>)
        requires
            old(self)@.active is None ==> old(self)@.issued < u64::MAX,
        ensures
            (final(self)@, r) == begin_step(old(self)@),
            attempts_valid(final(self)@),
    {
        proof { use_type_invariant(&*self); }
        if self.active.is_some() {
            return None;
        }
        self.generation = self.generation + 1;
        self.active = Some(self.generation);
        self.active
    }

    /// Whether `attempt` is the attempt in progress.
    pub fn is_current(&self, attempt: u64) -> (r: bool)
        ensures
            r == (self@.active == Some(attempt)),
    {
        match self.active {
            Some(a) => a == attempt,
            None => false,
        }
    }

    /// End `attempt` if it is the one in progress; report whether it was.
    pub fn finish(&mut self, attempt: u64) -> (r: bool)
        ensures
            (final(self)@, r) == finish_step(old(self)@, attempt),
            attempts_valid(final(self)@),
    {
        proof { use_type_invariant(&*self); }
        if !self.is_current(attempt) {
            return false;
        }
        self.active = None;
        true
    }

    /// Abandon the attempt in progress; report whether there was one.
    pub fn cancel(&mut self) -> (r: bool)
        ensures
            (final(self)@, r) == cancel_step(old(self)@),
            r == (old(self)@.active is Some),
            final(self)@.active is None,
            final(self)@.issued == old(self)@.issued,
            attempts_valid(final(self)@),
    {
        proof { use_type_invariant(&*self); }
        let had = self.active.is_some();
        self.active = None;
        had
    }
}

impl Default for ConnectionAttempts {
    fn default() -> (r: Self)
        ensures
            r@ == (AttemptsView { issued: 0, active: None }),
            attempts_valid(r@),
    {
        ConnectionAttempts { generation: 0, active: None }
    }
}

/// Every step keeps the attempts valid and never lowers the last number
/// handed out.
pub proof fn lemma_steps_keep_attempts_valid(v: AttemptsView, attempt: u64)
    requires
        attempts_valid(v),
        v.active is None ==> v.issued < u64::MAX,
    ensures
        attempts_valid(begin_step(v).0),
        attempts_valid(finish_step(v, attempt).0),
        attempts_valid(cancel_step(v).0),
        begin_step(v).0.issued >= v.issued,
        finish_step(v, attempt).0.issued == v.issued,
        cancel_step(v).0.issued == v.issued,
{
}

/// Repeated connect starts one attempt: while one is in progress, starting
/// another changes nothing and hands out no number.
pub proof fn lemma_one_attempt_at_a_time(v: AttemptsView)
    requires
        v.active is Some,
    ensures
        begin_step(v) == (v, None::<u64>),
{
}

/// A new attempt's number was never handed out before: it is larger than
/// every earlier one.
pub proof fn lemma_new_attempt_is_fresh(v: AttemptsView, earlier: u64)
    requires
        attempts_valid(v),
        v.active is None ==> v.issued < u64::MAX,
        earlier <= v.issued,
    ensures
        begin_step(v).1 matches Some(n) ==> n > earlier,
{
}

/// Only the attempt in progress can be finished; any other number leaves
/// everything as it was.
pub proof fn lemma_only_the_current_attempt_finishes(v: AttemptsView, attempt: u64)
    requires
        v.active != Some(attempt),
    ensures
        finish_step(v, attempt) == (v, false),
{
}

/// Cancelling reports exactly whether an attempt was in progress, leaves none
/// in progress, and keeps the last number handed out; so a cancel right after
/// a successful finish reports that there was nothing to cancel.
pub proof fn lemma_cancel_reports_the_attempt_in_progress(v: AttemptsView, attempt: u64)
    ensures
        cancel_step(v).1 <==> v.active is Some,
        cancel_step(v).0.active is None,
        cancel_step(v).0.issued == v.issued,
        finish_step(v, attempt).1 ==> !cancel_step(finish_step(v, attempt).0).1,
        !cancel_step(cancel_step(v).0).1,
{
}

/// After an attempt finishes or is cancelled, no attempt is in progress.
pub proof fn lemma_nothing_current_after_finish_or_cancel(v: AttemptsView, attempt: u64)
    ensures
        finish_step(v, attempt).1 ==> finish_step(v, attempt).0.active is None,
        cancel_step(v).0.active is None,
{
}

/// A worker of a cancelled attempt cannot finish the attempt started after
/// it: the new attempt has another number, and finishing the old number fails.
pub proof fn lemma_cancelled_worker_cannot_finish_new_attempt(v: AttemptsView, old_attempt: u64)
    requires
        attempts_valid(v),
        v.active == Some(old_attempt),
        v.issued < u64::MAX,
    ensures
        ({
            let cancelled = cancel_step(v).0;
            let (started, n) = begin_step(cancelled);
            &&& n is Some
            &&& n != Some(old_attempt)
            &&& finish_step(started, old_attempt) == (started, false)
            &&& finish_step(started, n->0).1
        }),
{
}

/// Whether attempt `x` is the one in progress.
pub open spec fn in_progress(v: AttemptsView, x: u64) -> bool {
    v.active == Some(x)
}

/// A call on a [`ConnectionAttempts`].
pub enum AttemptCall {
    Begin,
    Finish(u64),
    Cancel,
}

/// Running `calls` in order from [`ConnectionAttempts::default`]: the state
/// reached, the numbers that `begin` handed out in order, and the position in
/// `calls` of the last `begin` that handed one out (-1 when none did).
pub open spec fn run_calls(calls: Seq<AttemptCall>) -> (AttemptsView, Seq<u64>, int)
    decreases calls.len(),
{
    if calls.len() == 0 {
        (AttemptsView { issued: 0, active: None }, seq![], -1)
    } else {
        let (v, handed, last) = run_calls(calls.drop_last());
        match calls.last() {
            AttemptCall::Begin => match begin_step(v) {
                (w, Some(n)) => (w, handed.push(n), calls.len() - 1),
                (w, None) => (w, handed, last),
            },
            AttemptCall::Finish(a) => (finish_step(v, a).0, handed, last),
            AttemptCall::Cancel => (cancel_step(v).0, handed, last),
        }
    }
}

/// Whether attempt `x` was ended by a call in `calls` after position `from`:
/// a cancel, or finishing `x`.
pub open spec fn ended_after(calls: Seq<AttemptCall>, from: int, x: u64) -> bool {
    exists|k: int|
        from < k < calls.len() && (#[trigger] calls[k] matches AttemptCall::Cancel || calls[k]
            == AttemptCall::Finish(x))
}

/// Over any run of calls from the default: the attempts stay valid, the
/// numbers handed out are 1, 2, 3, … in order, so each is larger than every
/// earlier one and none is handed out twice; and an attempt is in progress
/// exactly when it is the one handed out last and no cancel and no finish of
/// it came after.
pub proof fn lemma_runs_of_calls(calls: Seq<AttemptCall>)
    requires
        calls.len() < u64::MAX,
    ensures
        ({
            let (v, handed, last) = run_calls(calls);
            &&& attempts_valid(v)
            &&& v.issued == handed.len()
            &&& handed.len() <= calls.len()
            &&& forall|i: int| 0 <= i < handed.len() ==> #[trigger] handed[i] == i + 1
            &&& forall|i: int, j: int| 0 <= i < j < handed.len() ==> handed[i] < handed[j]
            &&& (handed.len() == 0 <==> last == -1)
            &&& -1 <= last < calls.len()
            &&& forall|x: u64|
                #[trigger] in_progress(v, x) <==> (handed.len() > 0 && x == handed.last()
                    && !ended_after(calls, last, x))
        }),
    decreases calls.len(),
{
    if calls.len() > 0 {
        let prev = calls.drop_last();
        lemma_runs_of_calls(prev);
        let (v, handed, last) = run_calls(prev);
        let (v2, handed2, last2) = run_calls(calls);
        assert(v.issued <= prev.len());
        assert forall|k: int| 0 <= k < prev.len() implies #[trigger] prev[k] == calls[k] by {}
        assert forall|x: u64|
            #[trigger] in_progress(v2, x) <==> (handed2.len() > 0 && x == handed2.last()
                && !ended_after(calls, last2, x)) by {
            assert(in_progress(v, x) <==> (handed.len() > 0 && x == handed.last()
                && !ended_after(prev, last, x)));
            if ended_after(prev, last, x) {
                let k = choose|k: int| last < k < prev.len() && (#[trigger] prev[k] matches AttemptCall::Cancel
                    || prev[k] == AttemptCall::Finish(x));
                assert(calls[k] == prev[k]);
            }
            if last2 == last && ended_after(calls, last, x) {
                let k = choose|k: int| last < k < calls.len() && (#[trigger] calls[k] matches AttemptCall::Cancel
                    || calls[k] == AttemptCall::Finish(x));
                if k < prev.len() {
                    assert(prev[k] == calls[k]);
                }
            }
            if last2 == calls.len() - 1 {
                assert(!ended_after(calls, last2, x));
            }
            match calls.last() {
                AttemptCall::Finish(a) => {
                    if a == x && handed.len() > 0 && x == handed.last() {
                        assert(calls[calls.len() - 1] == AttemptCall::Finish(x));
                    }
                },
                AttemptCall::Cancel => {
                    if handed.len() > 0 {
                        assert(calls[calls.len() - 1] matches AttemptCall::Cancel);
                    }
                },
                AttemptCall::Begin => {},
            }
        }
    }
}

} // verus!
