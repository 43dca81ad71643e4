//! The settlement poller: the background task that claims an ecash-backed
//! receive once its mint quote is paid.
//!
//! A poller is started once per ecash-backed receive. It checks the quote's
//! payment state, claims (mints) the quote exactly once when it sees it
//! paid, sleeps a fixed interval otherwise, and gives up for good once the
//! overall timeout has elapsed — a quote paid after that is never claimed by
//! it. The waiting and the calls to the mint happen outside this crate; the
//! state machine here decides every move, and a registry supervises the
//! tasks, at most one per quote id.

use vstd::prelude::*;

use crate::config::{POLL_INTERVAL_SECS, POLL_TIMEOUT_SECS};

verus! {

/// Payment state of a mint quote, as the mint reports it.
#[derive(Debug, Clone, Copy, PartialEq, Eq, Structural)]
pub enum QuoteState {
    /// The quote's invoice has not been paid.
    Unpaid,
    /// The quote's invoice has been paid; the quote can be claimed.
    Paid,
}

/// The move a settlement poller makes after one observation of its quote.
#[derive(Debug, Clone, Copy, PartialEq, Eq, Structural)]
pub enum PollAction {
    /// The quote is paid: claim (mint) it and end the task.
    Claim,
    /// The quote is not paid yet: sleep one poll interval, then check again.
    Wait,
    /// The task is over — it claimed already, or its timeout elapsed: do
    /// nothing further, ever.
    Stop,
}

/// The state of one background settlement task for a single mint quote.
#[derive(Debug, Clone, Copy, PartialEq, Eq, Structural)]
pub struct SettlementPoller {
    /// The accumulated waiting time of the task, in seconds.
    pub elapsed_secs: u64,
    /// Whether the task has ended, by claiming or by timing out.
    pub finished: bool,
    /// Whether the task has claimed its quote.
    pub claimed: bool,
}

impl SettlementPoller {
    /// The waited time is a whole number of poll intervals within the
    /// timeout, and only a claim can have finished the task early.
    pub open spec fn wf(self) -> bool {
        &&& self.elapsed_secs <= POLL_TIMEOUT_SECS
        &&& self.elapsed_secs % POLL_INTERVAL_SECS == 0
        &&& (self.claimed ==> self.finished)
    }

    /// A freshly scheduled task: nothing waited, nothing claimed.
    pub open spec fn spec_new() -> SettlementPoller {
        SettlementPoller { elapsed_secs: 0, finished: false, claimed: false }
    }

    /// Starts a settlement task.
    pub fn new() -> (r: SettlementPoller)
        ensures
            r == SettlementPoller::spec_new(),
            r.wf(),
    {
        SettlementPoller { elapsed_secs: 0, finished: false, claimed: false }
    }

    /// One step of the task: what it does upon observing the quote in the
    /// given state.
    ///
    /// A finished task does nothing. The timeout is checked first: once the
    /// waited time reaches it, the task stops without claiming, whatever the
    /// observed state. Before the timeout, a paid quote is claimed — once,
    /// since the claim finishes the task — and an unpaid one adds a poll
    /// interval of waiting.
    pub open spec fn spec_observe(self, state: QuoteState) -> (SettlementPoller, PollAction) {
        if self.finished {
            (self, PollAction::Stop)
        } else if self.elapsed_secs >= POLL_TIMEOUT_SECS {
            (SettlementPoller { finished: true, ..self }, PollAction::Stop)
        } else if state == QuoteState::Paid {
            (SettlementPoller { finished: true, claimed: true, ..self }, PollAction::Claim)
        } else {
            (
                SettlementPoller {
                    elapsed_secs: (self.elapsed_secs + POLL_INTERVAL_SECS) as u64,
                    ..self
                },
                PollAction::Wait,
            )
        }
    }

    /// Advances the task by one observation and returns its move.
    pub fn observe(&mut self, state: QuoteState) -> (r: PollAction)
        requires
            old(self).wf(),
        ensures
            final(self).wf(),
            (*final(self), r) == old(self).spec_observe(state),
    {
        if self.finished {
            PollAction::Stop
        } else if self.elapsed_secs >= POLL_TIMEOUT_SECS {
            self.finished = true;
            PollAction::Stop
        } else if state == QuoteState::Paid {
            self.finished = true;
            self.claimed = true;
            PollAction::Claim
        } else {
            self.elapsed_secs = self.elapsed_secs + POLL_INTERVAL_SECS;
            PollAction::Wait
        }
    }
}

/// How many claims a task makes over a whole run of observations.
pub open spec fn claims_in_run(p: SettlementPoller, states: Seq<QuoteState>) -> int
    decreases states.len(),
{
    if states.len() == 0 {
        0
    } else {
        let step = p.spec_observe(states[0]);
        (if step.1 == PollAction::Claim {
            1int
        } else {
            0int
        }) + claims_in_run(step.0, states.drop_first())
    }
}

/// Law: over any run of observations, a settlement task claims its quote at
/// most once, and a task that has already ended never claims again.
pub proof fn lemma_poller_claims_at_most_once(p: SettlementPoller, states: Seq<QuoteState>)
    ensures
        0 <= claims_in_run(p, states) <= 1,
        p.finished ==> claims_in_run(p, states) == 0,
    decreases states.len(),
{
    if states.len() > 0 {
        let step = p.spec_observe(states[0]);
        lemma_poller_claims_at_most_once(step.0, states.drop_first());
    }
}

/// Law: once the timeout has elapsed, the task never claims — even if the
/// quote becomes paid during the rest of the run.
pub proof fn lemma_poller_never_claims_after_timeout(p: SettlementPoller, states: Seq<QuoteState>)
    requires
        p.elapsed_secs >= POLL_TIMEOUT_SECS,
    ensures
        claims_in_run(p, states) == 0,
    decreases states.len(),
{
    if states.len() > 0 {
        let step = p.spec_observe(states[0]);
        lemma_poller_never_claims_after_timeout(step.0, states.drop_first());
    }
}

/// Law: a fresh task that sees its quote unpaid until some observation finds
/// it paid within the timeout claims exactly once over the run.
pub proof fn lemma_poller_claims_once_when_paid_in_time(states: Seq<QuoteState>, i: int)
    requires
        0 <= i < states.len(),
        states[i] == QuoteState::Paid,
        forall|j: int| 0 <= j < i ==> states[j] == QuoteState::Unpaid,
        i * POLL_INTERVAL_SECS < POLL_TIMEOUT_SECS,
    ensures
        claims_in_run(SettlementPoller::spec_new(), states) == 1,
{
    lemma_poller_claims_once_aux(SettlementPoller::spec_new(), states, i);
}

proof fn lemma_poller_claims_once_aux(p: SettlementPoller, states: Seq<QuoteState>, i: int)
    requires
        p.wf(),
        !p.finished,
        0 <= i < states.len(),
        states[i] == QuoteState::Paid,
        forall|j: int| 0 <= j < i ==> states[j] == QuoteState::Unpaid,
        p.elapsed_secs + i * POLL_INTERVAL_SECS < POLL_TIMEOUT_SECS,
    ensures
        claims_in_run(p, states) == 1,
    decreases i,
{
    let step = p.spec_observe(states[0]);
    if i == 0 {
        lemma_poller_claims_at_most_once(step.0, states.drop_first());
    } else {
        assert(states[0] == QuoteState::Unpaid);
        let rest = states.drop_first();
        assert(rest[i - 1] == states[i]);
        assert(forall|j: int| 0 <= j < i - 1 ==> rest[j] == states[j + 1]);
        lemma_poller_claims_once_aux(step.0, rest, i - 1);
    }
}

/// One scheduled settlement task, keyed by the id of its mint quote.
#[derive(Debug, Clone, PartialEq, Eq)]
pub struct PollerEntry {
    /// The mint quote the task settles.
    pub quote_id: String,
    /// The task's state.
    pub poller: SettlementPoller,
}

/// The supervised registry of settlement tasks: at most one task per quote
/// id, with an explicit query and cancel interface.
#[derive(Debug)]
pub struct SettlementRegistry {
    entries: Vec<PollerEntry>,
}

impl SettlementRegistry {
    /// The quote ids with a scheduled task, in scheduling order.
    pub closed spec fn ids(self) -> Seq<Seq<char>> {
        self.entries@.map_values(|e: PollerEntry| e.quote_id@)
    }

    /// Whether a task is scheduled for the quote id.
    pub open spec fn contains_id(self, id: Seq<char>) -> bool {
        self.ids().contains(id)
    }

    spec fn index_of(self, id: Seq<char>) -> int {
        choose|i: int| 0 <= i < self.entries@.len() && self.entries@[i].quote_id@ == id
    }

    /// The state of the task scheduled for the quote id.
    pub closed spec fn poller_for(self, id: Seq<char>) -> SettlementPoller {
        self.entries@[self.index_of(id)].poller
    }

    /// No two tasks share a quote id, and every task is well-formed.
    pub closed spec fn wf(self) -> bool {
        &&& forall|i: int, j: int|
            0 <= i < j < self.entries@.len() ==> self.entries@[i].quote_id@
                != self.entries@[j].quote_id@
        &&& forall|i: int| 0 <= i < self.entries@.len() ==> (#[trigger] self.entries@[i]).poller.wf()
    }

    proof fn lemma_entry_lookup(self, i: int)
        requires
            self.wf(),
            0 <= i < self.entries@.len(),
        ensures
            self.contains_id(self.entries@[i].quote_id@),
            self.index_of(self.entries@[i].quote_id@) == i,
            self.poller_for(self.entries@[i].quote_id@) == self.entries@[i].poller,
    {
        let id = self.entries@[i].quote_id@;
        assert(self.ids()[i] == id);
        let k = self.index_of(id);
        assert(0 <= k < self.entries@.len() && self.entries@[k].quote_id@ == id);
        if k != i {
            if k < i {
                assert(self.entries@[k].quote_id@ != self.entries@[i].quote_id@);
            } else {
                assert(self.entries@[i].quote_id@ != self.entries@[k].quote_id@);
            }
        }
    }

    /// An empty registry: no task is scheduled.
    pub fn new() -> (r: SettlementRegistry)
        ensures
            r.wf(),
            r.ids() == Seq::<Seq<char>>::empty(),
    {
        let r = SettlementRegistry { entries: Vec::new() };
        proof {
            assert(r.ids() =~= Seq::<Seq<char>>::empty());
        }
        r
    }

    fn find_index(&self, quote_id: &String) -> (r: Option<usize>)
        ensures
            r is Some <==> self.contains_id(quote_id@),
            r matches Some(i) ==> 0 <= i < self.entries@.len() && self.entries@[i as int].quote_id@
                == quote_id@,
    {
        let mut i: usize = 0;
        while i < self.entries.len()
            invariant
                0 <= i <= self.entries@.len(),
                forall|j: int| 0 <= j < i ==> self.entries@[j].quote_id@ != quote_id@,
            decreases self.entries@.len() - i,
        {
            if self.entries[i].quote_id == *quote_id {
                proof {
                    assert(self.ids()[i as int] == quote_id@);
                }
                return Some(i);
            }
            i = i + 1;
        }
        proof {
            if self.contains_id(quote_id@) {
                let k = choose|k: int| 0 <= k < self.ids().len() && self.ids()[k] == quote_id@;
                assert(self.entries@[k].quote_id@ == quote_id@);
            }
        }
        None
    }

    /// Whether a task is currently scheduled for the quote id.
    pub fn contains(&self, quote_id: &String) -> (r: bool)
        ensures
            r == self.contains_id(quote_id@),
    {
        self.find_index(quote_id).is_some()
    }

    /// Schedules a settlement task for the quote id.
    ///
    /// Exactly one task ever exists per quote id: a fresh id gets one new
    /// task appended, an id that already has a task is left untouched.
    /// Returns whether the task is new.
    pub fn schedule(&mut self, quote_id: &String) -> (fresh: bool)
        requires
            old(self).wf(),
        ensures
            final(self).wf(),
            fresh == !old(self).contains_id(quote_id@),
            final(self).contains_id(quote_id@),
            fresh ==> final(self).ids() == old(self).ids().push(quote_id@)
                && final(self).poller_for(quote_id@) == SettlementPoller::spec_new(),
            !fresh ==> *final(self) == *old(self),
            forall|other: Seq<char>|
                other != quote_id@ ==> (#[trigger] final(self).contains_id(other)
                    == old(self).contains_id(other) && (old(self).contains_id(other)
                    ==> final(self).poller_for(other) == old(self).poller_for(other))),
    {
        match self.find_index(quote_id) {
            Some(_) => false,
            None => {
                let ghost pre = *self;
                let entry = PollerEntry { quote_id: quote_id.clone(), poller: SettlementPoller::new() };
                self.entries.push(entry);
                proof {
                    assert(self.ids() =~= pre.ids().push(quote_id@));
                    let n = pre.entries@.len() as int;
                    assert forall|a: int, b: int|
                        0 <= a < b < self.entries@.len() implies self.entries@[a].quote_id@
                        != self.entries@[b].quote_id@ by {
                        if b == n {
                            assert(pre.ids()[a] == pre.entries@[a].quote_id@);
                        }
                    }
                    assert(self.wf());
                    self.lemma_entry_lookup(n);
                    assert forall|other: Seq<char>|
                        other != quote_id@ implies (#[trigger] self.contains_id(other)
                        == pre.contains_id(other) && (pre.contains_id(other)
                        ==> self.poller_for(other) == pre.poller_for(other))) by {
                        if pre.contains_id(other) {
                            let k = choose|k: int|
                                0 <= k < pre.ids().len() && pre.ids()[k] == other;
                            assert(self.ids()[k] == other);
                            pre.lemma_entry_lookup(k);
                            self.lemma_entry_lookup(k);
                        }
                        if self.contains_id(other) {
                            let k = choose|k: int|
                                0 <= k < self.ids().len() && self.ids()[k] == other;
                            assert(k < n);
                            assert(pre.ids()[k] == other);
                        }
                    }
                }
                true
            },
        }
    }

    /// Advances the task for the quote id by one observation of its mint
    /// quote, returning the task's move; an id with no task yields nothing
    /// and changes nothing.
    pub fn step(&mut self, quote_id: &String, state: QuoteState) -> (r: Option<PollAction>)
        requires
            old(self).wf(),
        ensures
            final(self).wf(),
            r is Some <==> old(self).contains_id(quote_id@),
            final(self).ids() == old(self).ids(),
            !old(self).contains_id(quote_id@) ==> *final(self) == *old(self),
            old(self).contains_id(quote_id@) ==> {
                let step = old(self).poller_for(quote_id@).spec_observe(state);
                r == Some(step.1) && final(self).poller_for(quote_id@) == step.0
            },
            forall|other: Seq<char>|
                other != quote_id@ && old(self).contains_id(other)
                    ==> #[trigger] final(self).poller_for(other) == old(self).poller_for(other),
    {
        match self.find_index(quote_id) {
            Some(i) => {
                let ghost pre = *self;
                let mut poller = self.entries[i].poller;
                proof {
                    pre.lemma_entry_lookup(i as int);
                }
                let action = poller.observe(state);
                self.entries[i].poller = poller;
                proof {
                    assert(self.ids() =~= pre.ids());
                    self.lemma_entry_lookup(i as int);
                    assert forall|other: Seq<char>|
                        other != quote_id@ && pre.contains_id(other) implies #[trigger] self.poller_for(
                        other,
                    ) == pre.poller_for(other) by {
                        let k = choose|k: int| 0 <= k < pre.ids().len() && pre.ids()[k] == other;
                        pre.lemma_entry_lookup(k);
                        self.lemma_entry_lookup(k);
                    }
                }
                Some(action)
            },
            None => None,
        }
    }

    /// Cancels the task for the quote id, if one is scheduled: the task is
    /// marked finished without claiming, so every later move of it is to do
    /// nothing. Returns whether a task was cancelled.
    pub fn cancel(&mut self, quote_id: &String) -> (r: bool)
        requires
            old(self).wf(),
        ensures
            final(self).wf(),
            r == old(self).contains_id(quote_id@),
            final(self).ids() == old(self).ids(),
            !old(self).contains_id(quote_id@) ==> *final(self) == *old(self),
            old(self).contains_id(quote_id@) ==> final(self).poller_for(quote_id@) == (
            SettlementPoller {
                finished: true,
                ..old(self).poller_for(quote_id@)
            }),
            forall|other: Seq<char>|
                other != quote_id@ && old(self).contains_id(other)
                    ==> #[trigger] final(self).poller_for(other) == old(self).poller_for(other),
    {
        match self.find_index(quote_id) {
            Some(i) => {
                let ghost pre = *self;
                proof {
                    pre.lemma_entry_lookup(i as int);
                }
                self.entries[i].poller.finished = true;
                proof {
                    assert(self.ids() =~= pre.ids());
                    self.lemma_entry_lookup(i as int);
                    assert forall|other: Seq<char>|
                        other != quote_id@ && pre.contains_id(other) implies #[trigger] self.poller_for(
                        other,
                    ) == pre.poller_for(other) by {
                        let k = choose|k: int| 0 <= k < pre.ids().len() && pre.ids()[k] == other;
                        pre.lemma_entry_lookup(k);
                        self.lemma_entry_lookup(k);
                    }
                }
                true
            },
            None => false,
        }
    }
}

} // verus!
