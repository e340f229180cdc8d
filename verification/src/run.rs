//! Carrying out an instruction: its actions in order, stopping at the first
//! one that fails.
//!
//! The caller performs each action that a [`Run`] hands out and reports its
//! outcome back; the run then hands out the next action or the instruction's
//! result.
use vstd::prelude::*;
use crate::action::Action;
use crate::error::Error;

verus! {

/// What the caller does next.
#[derive(Debug, PartialEq, Eq)]
pub enum Command {
    /// Perform this action and report its outcome.
    Perform(Action),
    /// The instruction is over, with this result.
    Finish(Result<(), Error>),
}

/// The first command of a run of `plan`, with the number of actions handed
/// out after it and whether the run is then over.
pub open spec fn begin(plan: Seq<Action>) -> (nat, bool, Command) {
    if plan.len() == 0 {
        (0, true, Command::Finish(Ok(())))
    } else {
        (1, false, Command::Perform(plan[0]))
    }
}

/// The command that follows the outcome of the last action handed out, when
/// `issued` actions of `plan` have been handed out.
pub open spec fn resume(plan: Seq<Action>, issued: nat, outcome: Result<(), Error>) -> (
    nat,
    bool,
    Command,
) {
    match outcome {
        Err(e) => (issued, true, Command::Finish(Err(e))),
        Ok(()) => if issued >= plan.len() {
            (issued, true, Command::Finish(Ok(())))
        } else {
            (issued + 1, false, Command::Perform(plan[issued as int]))
        },
    }
}

/// The commands that follow when the actions handed out report `outcomes`
/// in turn, `issued` actions having been handed out.
pub open spec fn replay(plan: Seq<Action>, issued: nat, outcomes: Seq<Result<(), Error>>) -> Seq<
    Command,
>
    decreases outcomes.len(),
{
    if outcomes.len() == 0 {
        Seq::empty()
    } else {
        let (next_issued, over, command) = resume(plan, issued, outcomes[0]);
        if over {
            seq![command]
        } else {
            seq![command] + replay(plan, next_issued, outcomes.drop_first())
        }
    }
}

/// All the commands of a run of `plan` whose actions report `outcomes`.
pub open spec fn session(plan: Seq<Action>, outcomes: Seq<Result<(), Error>>) -> Seq<Command> {
    let (issued, over, command) = begin(plan);
    if over {
        seq![command]
    } else {
        seq![command] + replay(plan, issued, outcomes)
    }
}

/// The index of the first failed outcome, or the number of outcomes when
/// none failed.
pub open spec fn first_failure(outcomes: Seq<Result<(), Error>>) -> int
    decreases outcomes.len(),
{
    if outcomes.len() == 0 {
        0
    } else if outcomes[0] is Err {
        0
    } else {
        1 + first_failure(outcomes.drop_first())
    }
}

/// The commands that perform `actions` in order.
pub open spec fn performs(actions: Seq<Action>) -> Seq<Command> {
    actions.map_values(|a: Action| Command::Perform(a))
}

/// What an instruction whose actions are `plan` does when its actions report
/// `outcomes`: it performs the actions in order up to and including the
/// first that fails, and then finishes with that action's error; when none
/// fails it performs them all and finishes with `Ok(())`.
pub open spec fn expected_session(plan: Seq<Action>, outcomes: Seq<Result<(), Error>>) -> Seq<
    Command,
> {
    let k = first_failure(outcomes);
    if k < plan.len() {
        performs(plan.take(k + 1)) + seq![Command::Finish(Err(outcomes[k as int]->Err_0))]
    } else {
        performs(plan) + seq![Command::Finish(Ok(()))]
    }
}

/// A run of an instruction's actions.
pub struct Run {
    plan: Ghost<Seq<Action>>,
    /// The actions not handed out yet, the next one last.
    pending: Vec<Action>,
    issued: usize,
    over: bool,
}

impl Run {
    /// The actions of the instruction, in order.
    pub closed spec fn plan(&self) -> Seq<Action> {
        self.plan@
    }

    /// How many actions have been handed out.
    pub closed spec fn issued(&self) -> nat {
        self.issued as nat
    }

    /// Whether the run has finished.
    pub closed spec fn is_over(&self) -> bool {
        self.over
    }

    /// The run's internal bookkeeping agrees with its plan.
    pub closed spec fn well_formed(&self) -> bool {
        &&& self.issued <= self.plan@.len() <= usize::MAX
        &&& self.pending@ =~= self.plan@.skip(self.issued as int).reverse()
    }

    /// A run that has not started yet.
    pub fn new(plan: Vec<Action>) -> (r: Run)
        ensures
            r.well_formed(),
            r.plan() == plan@,
            r.issued() == 0,
            !r.is_over(),
    {
        let ghost whole = plan@;
        let count: usize = plan.len();
        assert(whole.len() == count);
        let mut pending: Vec<Action> = Vec::new();
        let mut plan = plan;
        while plan.len() > 0
            invariant
                whole.len() == plan@.len() + pending@.len(),
                plan@ =~= whole.take(plan@.len() as int),
                pending@ =~= whole.skip(plan@.len() as int).reverse(),
            decreases plan.len(),
        {
            let a = plan.pop().unwrap();
            pending.push(a);
        }
        assert(whole.skip(0) =~= whole);
        Run { plan: Ghost(whole), pending, issued: 0, over: false }
    }

    /// The first command of the run.
    pub fn start(&mut self) -> (c: Command)
        requires
            old(self).issued() == 0,
            !old(self).is_over(),
            old(self).well_formed(),
        ensures
            final(self).well_formed(),
            final(self).plan() == old(self).plan(),
            (final(self).issued(), final(self).is_over(), c) == begin(old(self).plan()),
    {
        if self.pending.len() == 0 {
            self.over = true;
            Command::Finish(Ok(()))
        } else {
            let a = self.pending.pop().unwrap();
            self.issued = 1;
            proof {
                assert(self.plan@.skip(1).reverse() =~= self.plan@.skip(0).reverse().drop_last());
            }
            Command::Perform(a)
        }
    }

    /// The command that follows `outcome`, the outcome of the last action
    /// handed out.
    pub fn next(&mut self, outcome: Result<(), Error>) -> (c: Command)
        requires
            old(self).issued() > 0,
            !old(self).is_over(),
            old(self).well_formed(),
        ensures
            final(self).well_formed(),
            final(self).plan() == old(self).plan(),
            (final(self).issued(), final(self).is_over(), c) == resume(
                old(self).plan(),
                old(self).issued(),
                outcome,
            ),
    {
        match outcome {
            Err(e) => {
                self.over = true;
                Command::Finish(Err(e))
            },
            Ok(()) => {
                if self.pending.len() == 0 {
                    self.over = true;
                    Command::Finish(Ok(()))
                } else {
                    let a = self.pending.pop().unwrap();
                    proof {
                        let i = self.issued as int;
                        assert(self.plan@.skip(i + 1).reverse() =~= self.plan@.skip(i).reverse().drop_last());
                        assert(self.plan@.skip(i).reverse().last() == self.plan@[i]);
                    }
                    self.issued = self.issued + 1;
                    Command::Perform(a)
                }
            },
        }
    }
}

/// The first failure is where the first failed outcome stands.
proof fn lemma_first_failure(outcomes: Seq<Result<(), Error>>)
    ensures
        0 <= first_failure(outcomes) <= outcomes.len(),
        first_failure(outcomes) < outcomes.len() ==> outcomes[first_failure(outcomes)] is Err,
        forall|i: int| 0 <= i < first_failure(outcomes) ==> outcomes[i] is Ok,
    decreases outcomes.len(),
{
    if outcomes.len() > 0 && outcomes[0] is Ok {
        let rest = outcomes.drop_first();
        lemma_first_failure(rest);
        assert forall|i: int| 0 <= i < first_failure(outcomes) implies outcomes[i] is Ok by {
            if i > 0 {
                assert(outcomes[i] == rest[i - 1]);
            }
        }
    }
}

/// One outcome per action handed out, from the `issued`-th on: the commands
/// that follow are the remaining actions up to the first failure, then the
/// instruction's result.
proof fn lemma_replay(plan: Seq<Action>, issued: nat, outcomes: Seq<Result<(), Error>>)
    requires
        1 <= issued <= plan.len(),
        outcomes.len() == plan.len() - issued + 1,
    ensures
        ({
            let k = first_failure(outcomes);
            if k < outcomes.len() {
                replay(plan, issued, outcomes) == performs(
                    plan.subrange(issued as int, issued + k),
                ) + seq![Command::Finish(Err(outcomes[k as int]->Err_0))]
            } else {
                replay(plan, issued, outcomes) == performs(
                    plan.subrange(issued as int, plan.len() as int),
                ) + seq![Command::Finish(Ok(()))]
            }
        }),
    decreases outcomes.len(),
{
    lemma_first_failure(outcomes);
    let k = first_failure(outcomes);
    if outcomes[0] is Err {
        assert(plan.subrange(issued as int, issued as int) =~= Seq::empty());
        assert(performs(Seq::empty()) =~= Seq::empty());
    } else if issued == plan.len() {
        assert(outcomes.len() == 1);
        assert(outcomes.drop_first().len() == 0);
        assert(k == 1);
        assert(plan.subrange(issued as int, plan.len() as int) =~= Seq::empty());
        assert(performs(Seq::empty()) =~= Seq::empty());
    } else {
        let rest = outcomes.drop_first();
        lemma_first_failure(rest);
        lemma_replay(plan, (issued + 1) as nat, rest);
        let k2 = first_failure(rest);
        assert(k == 1 + k2);
        if k2 < rest.len() {
            assert(rest[k2 as int] == outcomes[k as int]);
            assert(plan.subrange(issued as int, issued + k) =~= seq![plan[issued as int]]
                + plan.subrange(issued + 1int, issued + 1int + k2));
            assert(performs(plan.subrange(issued as int, issued + k)) =~= seq![
                Command::Perform(plan[issued as int]),
            ] + performs(plan.subrange(issued + 1int, issued + 1int + k2)));
        } else {
            assert(plan.subrange(issued as int, plan.len() as int) =~= seq![plan[issued as int]]
                + plan.subrange(issued + 1int, plan.len() as int));
            assert(performs(plan.subrange(issued as int, plan.len() as int)) =~= seq![
                Command::Perform(plan[issued as int]),
            ] + performs(plan.subrange(issued + 1int, plan.len() as int)));
        }
    }
}

/// Every instruction carried out by a [`Run`] performs its actions in order,
/// stops at the first action that fails and finishes with that action's
/// error; it finishes with `Ok(())` exactly when every action succeeded.
/// `outcomes` holds one outcome per action of the plan (those after a
/// failure are never asked for).
pub proof fn law_run_stops_at_first_failure(plan: Seq<Action>, outcomes: Seq<Result<(), Error>>)
    requires
        outcomes.len() == plan.len(),
    ensures
        session(plan, outcomes) == expected_session(plan, outcomes),
{
    lemma_first_failure(outcomes);
    let k = first_failure(outcomes);
    if plan.len() == 0 {
        assert(performs(plan) =~= Seq::empty());
    } else {
        lemma_replay(plan, 1, outcomes);
        if k < plan.len() {
            assert(plan.take(k + 1) =~= seq![plan[0]] + plan.subrange(1, 1 + k));
            assert(performs(plan.take(k + 1)) =~= seq![Command::Perform(plan[0])] + performs(
                plan.subrange(1, 1 + k),
            ));
        } else {
            assert(plan =~= seq![plan[0]] + plan.subrange(1, plan.len() as int));
            assert(performs(plan) =~= seq![Command::Perform(plan[0])] + performs(
                plan.subrange(1, plan.len() as int),
            ));
        }
    }
}

} // verus!
