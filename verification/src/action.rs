//! Actions, conditions, and the evaluator that walks an action tree.
//!
//! Evaluation never touches a plugin itself. It proceeds in steps: each step
//! either ends the evaluation or names one command or query to dispatch, and
//! hands out the token that takes the dispatch's result and yields the next
//! step. What an action does is defined by [`eval`], over the results that the
//! dispatches come back with; the stepping functions are proved against it.

use vstd::prelude::*;
use crate::error::ActionError;
use crate::plugins::{PluginAction, PluginQuery};
use crate::table::Table;

verus! {

/// A query together with the answer it is expected to give.
#[derive(Debug, PartialEq, Eq)]
pub struct Condition {
    pub query: PluginQuery,
    pub target: String,
}

/// What a button or a remote trigger sets off.
#[derive(Debug, PartialEq, Eq)]
pub enum Action {
    /// One command.
    Single(PluginAction),
    /// Actions carried out in order, up to the first that fails.
    Chain(Vec<Action>),
    /// A branch: the second action where the condition holds, else the third,
    /// if there is one.
    If(Condition, Box<Action>, Option<Box<Action>>),
}

/// The actions that buttons and remote triggers can set off, by name.
#[derive(Debug)]
pub struct ActionConfig {
    pub actions: Table<Action>,
}

impl Default for ActionConfig {
    /// No action at all.
    fn default() -> (config: ActionConfig)
        ensures
            config.actions.wf(),
            config.actions@ == Map::<Seq<char>, Action>::empty(),
            config.actions.names().len() == 0,
    {
        ActionConfig { actions: Table::new() }
    }
}

/// A dispatch that an evaluation asked for.
pub enum Dispatch {
    Run(PluginAction),
    Query(PluginQuery),
}

/// The result that a dispatch came back with.
#[derive(Debug)]
pub enum Reply {
    /// The result of a command.
    Ran(Result<(), ActionError>),
    /// The result of a query.
    Value(Result<String, ActionError>),
}

/// What an evaluation does when it is fed a sequence of replies.
pub struct Outcome {
    /// The dispatches asked for, in order.
    pub dispatches: Seq<Dispatch>,
    /// How the evaluation ended; `None` while the reply to the last dispatch
    /// is still missing from the sequence, or is of the wrong kind.
    pub result: Option<Result<(), ActionError>>,
}

impl Outcome {
    /// An evaluation that ends at once.
    pub open spec fn done(result: Result<(), ActionError>) -> Outcome {
        Outcome { dispatches: Seq::empty(), result: Some(result) }
    }

    /// An evaluation that asks for one dispatch and waits.
    pub open spec fn waiting(dispatch: Dispatch) -> Outcome {
        Outcome { dispatches: seq![dispatch], result: None }
    }

    /// This outcome, preceded by earlier dispatches.
    pub open spec fn after(self, earlier: Seq<Dispatch>) -> Outcome {
        Outcome { dispatches: earlier + self.dispatches, result: self.result }
    }
}

impl Clone for Condition {
    fn clone(&self) -> (copy: Self)
        ensures
            copy == *self,
    {
        Condition { query: self.query, target: self.target.clone() }
    }
}

impl Action {
    /// Whether the two actions say the same: trees of the same shape, with
    /// the same commands and conditions at the same places.
    pub open spec fn alike(self, other: Action) -> bool
        decreases self,
    {
        match (self, other) {
            (Action::Single(a), Action::Single(b)) => a.alike(b),
            (Action::Chain(xs), Action::Chain(ys)) => {
                &&& xs@.len() == ys@.len()
                &&& forall|i: int| 0 <= i < xs@.len() ==> (#[trigger] xs@[i]).alike(ys@[i])
            },
            (Action::If(c, t, e), Action::If(d, u, f)) => {
                &&& c == d
                &&& (*t).alike(*u)
                &&& match (e, f) {
                    (Some(x), Some(y)) => (*x).alike(*y),
                    (None, None) => true,
                    _ => false,
                }
            },
            _ => false,
        }
    }

    /// A copy of a list of actions.
    pub fn duplicate_all(actions: &Vec<Action>) -> (copy: Vec<Action>)
        ensures
            copy@.len() == actions@.len(),
            forall|i: int| 0 <= i < actions@.len() ==> (#[trigger] copy@[i]).alike(actions@[i]),
        decreases actions,
    {
        let mut copy: Vec<Action> = Vec::new();
        let mut i: usize = 0;
        while i < actions.len()
            invariant
                i <= actions@.len(),
                copy@.len() == i,
                forall|j: int| 0 <= j < i ==> (#[trigger] copy@[j]).alike(actions@[j]),
            decreases actions@.len() - i,
        {
            let child = (&actions[i]).clone();
            copy.push(child);
            i += 1;
        }
        copy
    }
}

impl Clone for Action {
    fn clone(&self) -> (copy: Self)
        ensures
            copy.alike(*self),
        decreases self,
    {
        match self {
            Action::Single(command) => Action::Single(command.clone()),
            Action::Chain(children) => {
                let copied = Action::duplicate_all(children);
                Action::Chain(copied)
            },
            Action::If(condition, taken, otherwise) => Action::If(
                condition.clone(),
                Box::new((&**taken).clone()),
                match otherwise {
                    Some(other) => Some(Box::new((&**other).clone())),
                    None => None,
                },
            ),
        }
    }
}

impl Condition {
    /// Whether an answer is the expected one: the same text, character for
    /// character.
    pub open spec fn holds(self, answer: Seq<char>) -> bool {
        answer == self.target@
    }

    /// Compares the answer of this condition's query with the target.
    ///
    /// A failed query is handed on as it is, never taken for `false`.
    pub fn check(&self, answer: Result<String, ActionError>) -> (r: Result<bool, ActionError>)
        ensures
            match answer {
                Ok(text) => r == Ok::<bool, ActionError>(self.holds(text@)),
                Err(e) => r == Err::<bool, ActionError>(e),
            },
    {
        match answer {
            Ok(text) => Ok(text == self.target),
            Err(e) => Err(e),
        }
    }
}

/// What evaluating `action` does, given the replies that its dispatches get,
/// in order.
pub open spec fn eval(action: Action, replies: Seq<Reply>) -> Outcome
    decreases action,
{
    match action {
        Action::Single(command) => {
            if replies.len() > 0 && replies[0] is Ran {
                Outcome { dispatches: seq![Dispatch::Run(command)], result: Some(replies[0]->Ran_0) }
            } else {
                Outcome::waiting(Dispatch::Run(command))
            }
        },
        Action::Chain(children) => eval_chain(children@, 0, replies),
        Action::If(condition, taken, otherwise) => {
            if replies.len() > 0 && replies[0] is Value {
                match replies[0]->Value_0 {
                    Err(e) => Outcome {
                        dispatches: seq![Dispatch::Query(condition.query)],
                        result: Some(Err(e)),
                    },
                    Ok(answer) => {
                        let branch = if condition.holds(answer@) {
                            eval(*taken, replies.skip(1))
                        } else {
                            match otherwise {
                                Some(other) => eval(*other, replies.skip(1)),
                                None => Outcome::done(Ok(())),
                            }
                        };
                        branch.after(seq![Dispatch::Query(condition.query)])
                    },
                }
            } else {
                Outcome::waiting(Dispatch::Query(condition.query))
            }
        },
    }
}

/// What evaluating the children of a chain does, from child `from` on.
pub open spec fn eval_chain(children: Seq<Action>, from: int, replies: Seq<Reply>) -> Outcome
    decreases children, children.len() - from,
{
    if 0 <= from < children.len() {
        let first = eval(children[from], replies);
        match first.result {
            None => first,
            Some(Err(e)) => Outcome {
                dispatches: first.dispatches,
                result: Some(Err(ActionError::ChainAborted(Box::new(e)))),
            },
            Some(Ok(_)) => eval_chain(
                children,
                from + 1,
                replies.skip(first.dispatches.len() as int),
            ).after(first.dispatches),
        }
    } else {
        Outcome::done(Ok(()))
    }
}

/// The nodes of an action tree, each chain counted twice.
pub open spec fn weight(action: Action) -> nat
    decreases action,
{
    match action {
        Action::Single(_) => 1,
        Action::Chain(children) => 2 + weight_from(children@, 0),
        Action::If(_, taken, otherwise) => 1 + weight(*taken) + match otherwise {
            Some(other) => weight(*other),
            None => 0,
        },
    }
}

/// The weight of the children of a chain, from child `from` on.
pub open spec fn weight_from(children: Seq<Action>, from: int) -> nat
    decreases children, children.len() - from,
{
    if 0 <= from < children.len() {
        weight(children[from]) + weight_from(children, from + 1)
    } else {
        0
    }
}

/// A chain that the evaluation is inside of, and the child that comes next.
struct ChainFrame<'a> {
    children: &'a Vec<Action>,
    next: usize,
}

/// The chains that the evaluation is inside of, outermost first.
type Stack<'a> = Vec<ChainFrame<'a>>;

/// What is left to do once the innermost open chain's current child has ended
/// with `result`.
spec fn unwind(
    stack: Seq<ChainFrame<'_>>,
    result: Result<(), ActionError>,
    replies: Seq<Reply>,
) -> Outcome
    decreases stack.len(), 0nat,
{
    if stack.len() == 0 {
        Outcome::done(result)
    } else {
        let frame = stack.last();
        match result {
            Err(e) => unwind(
                stack.drop_last(),
                Err(ActionError::ChainAborted(Box::new(e))),
                replies,
            ),
            Ok(_) => then_unwind(
                eval_chain(frame.children@, frame.next as int, replies),
                stack.drop_last(),
                replies,
            ),
        }
    }
}

/// The outcome `first`, followed, once it has ended, by what is left on the
/// stack.
spec fn then_unwind(
    first: Outcome,
    stack: Seq<ChainFrame<'_>>,
    replies: Seq<Reply>,
) -> Outcome
    decreases stack.len(), 1nat,
{
    match first.result {
        None => first,
        Some(result) => unwind(stack, result, replies.skip(first.dispatches.len() as int)).after(
            first.dispatches,
        ),
    }
}

/// The work that a stack of open chains still stands for.
spec fn pending(stack: Seq<ChainFrame<'_>>) -> nat
    decreases stack.len(),
{
    if stack.len() == 0 {
        0
    } else {
        pending(stack.drop_last()) + 1 + weight_from(
            stack.last().children@,
            stack.last().next as int,
        )
    }
}

/// The token of an evaluation that waits for the result of a command.
pub struct AwaitingRun<'a> {
    stack: Stack<'a>,
}

/// The token of an evaluation that waits for the answer to a condition's
/// query.
pub struct AwaitingQuery<'a> {
    condition: &'a Condition,
    taken: &'a Action,
    otherwise: &'a Option<Box<Action>>,
    stack: Stack<'a>,
}

/// One step of an evaluation.
pub enum Step<'a> {
    /// The evaluation has ended.
    Finished(Result<(), ActionError>),
    /// The command is to be dispatched, and its result given to the token.
    Run(&'a PluginAction, AwaitingRun<'a>),
    /// The query is to be dispatched, and its answer given to the token.
    Query(&'a PluginQuery, AwaitingQuery<'a>),
}

impl<'a> AwaitingRun<'a> {
    /// What the evaluation does from here, once the command has come back
    /// with `result`, on the replies that follow.
    pub closed spec fn after(self, result: Result<(), ActionError>, replies: Seq<Reply>) -> Outcome {
        unwind(self.stack@, result, replies)
    }

    /// A bound on the dispatches that the evaluation can still ask for,
    /// the one that it waits on included.
    pub closed spec fn remaining(self) -> nat {
        1 + pending(self.stack@)
    }

    /// Takes the result of the command and moves on. Each step leaves
    /// less to do than the step before.
    pub fn resume(self, result: Result<(), ActionError>) -> (step: Step<'a>)
        ensures
            forall|replies: Seq<Reply>| #[trigger]
                step.outcome(replies) == self.after(result, replies),
            step.remaining() < self.remaining(),
    {
        advance(Course::Leave(result), self.stack)
    }
}

impl<'a> AwaitingQuery<'a> {
    /// What the evaluation does from here, once the query has come back with
    /// `answer`, on the replies that follow.
    pub closed spec fn after(self, answer: Result<String, ActionError>, replies: Seq<Reply>) -> Outcome {
        match answer {
            Err(e) => unwind(self.stack@, Err(e), replies),
            Ok(text) => {
                if self.condition.holds(text@) {
                    then_unwind(eval(*self.taken, replies), self.stack@, replies)
                } else {
                    match *self.otherwise {
                        Some(other) => then_unwind(eval(*other, replies), self.stack@, replies),
                        None => unwind(self.stack@, Ok(()), replies),
                    }
                }
            },
        }
    }

    /// A bound on the dispatches that the evaluation can still ask for,
    /// the one that it waits on included.
    pub closed spec fn remaining(self) -> nat {
        1 + weight(*self.taken) + (match *self.otherwise {
            Some(other) => weight(*other),
            None => 0,
        }) + pending(self.stack@)
    }

    /// Takes the answer to the query and moves on: into the first branch
    /// where it is the expected one, else into the second, if any. A failed
    /// query ends the branch node with that failure. Each step leaves less
    /// to do than the step before.
    pub fn resume(self, answer: Result<String, ActionError>) -> (step: Step<'a>)
        ensures
            forall|replies: Seq<Reply>| #[trigger]
                step.outcome(replies) == self.after(answer, replies),
            step.remaining() < self.remaining(),
    {
        match self.condition.check(answer) {
            Err(e) => advance(Course::Leave(Err(e)), self.stack),
            Ok(true) => advance(Course::Enter(self.taken), self.stack),
            Ok(false) => match self.otherwise {
                Some(other) => advance(Course::Enter(&**other), self.stack),
                None => advance(Course::Leave(Ok(())), self.stack),
            },
        }
    }
}

impl<'a> Step<'a> {
    /// A bound on the dispatches that the evaluation can still ask for,
    /// the one that this step names included.
    pub open spec fn remaining(self) -> nat {
        match self {
            Step::Finished(_) => 0,
            Step::Run(_, token) => token.remaining(),
            Step::Query(_, token) => token.remaining(),
        }
    }

    /// What the evaluation does from this step on, given the replies that
    /// its dispatches get.
    pub open spec fn outcome(self, replies: Seq<Reply>) -> Outcome {
        match self {
            Step::Finished(result) => Outcome::done(result),
            Step::Run(command, token) => {
                if replies.len() > 0 && replies[0] is Ran {
                    token.after(replies[0]->Ran_0, replies.skip(1)).after(
                        seq![Dispatch::Run(*command)],
                    )
                } else {
                    Outcome::waiting(Dispatch::Run(*command))
                }
            },
            Step::Query(query, token) => {
                if replies.len() > 0 && replies[0] is Value {
                    token.after(replies[0]->Value_0, replies.skip(1)).after(
                        seq![Dispatch::Query(*query)],
                    )
                } else {
                    Outcome::waiting(Dispatch::Query(*query))
                }
            },
        }
    }
}

impl Action {
    /// Begins the evaluation of this action. The evaluation asks for no
    /// more dispatches than the action's weight.
    pub fn run(&self) -> (step: Step<'_>)
        ensures
            forall|replies: Seq<Reply>| #[trigger] step.outcome(replies) == eval(*self, replies),
            step.remaining() <= weight(*self),
    {
        let step = advance(Course::Enter(self), Vec::new());
        proof {
            assert forall|replies: Seq<Reply>| #[trigger]
                step.outcome(replies) == eval(*self, replies) by {
                lemma_then_unwind_empty(eval(*self, replies), replies);
            }
        }
        step
    }
}

/// Where the walk stands between two steps.
enum Course<'a> {
    /// About to evaluate an action.
    Enter(&'a Action),
    /// An action has just ended with this result.
    Leave(Result<(), ActionError>),
}

impl<'a> Course<'a> {
    /// What the evaluation does from this point, under a stack of open
    /// chains.
    spec fn outcome(self, stack: Seq<ChainFrame<'a>>, replies: Seq<Reply>) -> Outcome {
        match self {
            Course::Enter(action) => then_unwind(eval(*action, replies), stack, replies),
            Course::Leave(result) => unwind(stack, result, replies),
        }
    }

    /// The work left from this point.
    spec fn measure(self, stack: Seq<ChainFrame<'a>>) -> nat {
        match self {
            Course::Enter(action) => weight(*action) + pending(stack),
            Course::Leave(_) => pending(stack),
        }
    }

    /// Entering ranks below leaving, where the work left is the same.
    spec fn rank(self) -> nat {
        match self {
            Course::Enter(_) => 0,
            Course::Leave(_) => 1,
        }
    }
}

/// Walks on from `course` until the evaluation ends or needs a dispatch.
fn advance<'a>(start: Course<'a>, chains: Stack<'a>) -> (step: Step<'a>)
    ensures
        forall|replies: Seq<Reply>| #[trigger]
            step.outcome(replies) == start.outcome(chains@, replies),
        step.remaining() <= start.measure(chains@),
{
    let ghost course0 = start;
    let ghost stack0 = chains@;
    let mut course = start;
    let mut stack = chains;
    loop
        invariant
            course0 == start,
            stack0 == chains@,
            course.measure(stack@) <= course0.measure(stack0),
            forall|replies: Seq<Reply>| #[trigger]
                course.outcome(stack@, replies) == course0.outcome(stack0, replies),
        decreases course.measure(stack@), course.rank(),
    {
        let ghost here = course;
        let ghost open = stack@;
        match course {
            Course::Enter(action) => match action {
                Action::Single(command) => {
                    let step = Step::Run(command, AwaitingRun { stack });
                    proof {
                        assert forall|replies: Seq<Reply>| #[trigger]
                            step.outcome(replies) == course0.outcome(stack0, replies) by {
                            assert(here.outcome(open, replies) == course0.outcome(stack0, replies));
                            if replies.len() > 0 && replies[0] is Ran {
                                lemma_step_single(*command, replies[0]->Ran_0, open, replies);
                            }
                        }
                    }
                    return step;
                },
                Action::If(condition, taken, otherwise) => {
                    let step = Step::Query(
                        &condition.query,
                        AwaitingQuery { condition, taken: &**taken, otherwise, stack },
                    );
                    proof {
                        assert forall|replies: Seq<Reply>| #[trigger]
                            step.outcome(replies) == course0.outcome(stack0, replies) by {
                            assert(here.outcome(open, replies) == course0.outcome(stack0, replies));
                            lemma_enter_branch(step, *action, replies);
                        }
                    }
                    return step;
                },
                Action::Chain(children) => {
                    if children.len() == 0 {
                        course = Course::Leave(Ok(()));
                        proof {
                            assert forall|replies: Seq<Reply>| #[trigger]
                                course.outcome(stack@, replies) == course0.outcome(
                                    stack0,
                                    replies,
                                ) by {
                                assert(here.outcome(open, replies) == course0.outcome(
                                    stack0,
                                    replies,
                                ));
                                assert(eval(*action, replies) == eval_chain(
                                    children@,
                                    0,
                                    replies,
                                ));
                                assert(eval(*action, replies) == Outcome::done(Ok(())));
                                lemma_then_unwind_done(open, Ok(()), replies);
                            }
                        }
                    } else {
                        stack.push(ChainFrame { children, next: 1 });
                        course = Course::Enter(&children[0]);
                        proof {
                            assert(stack@.drop_last() =~= open);
                            assert forall|replies: Seq<Reply>| #[trigger]
                                course.outcome(stack@, replies) == course0.outcome(
                                    stack0,
                                    replies,
                                ) by {
                                assert(here.outcome(open, replies) == course0.outcome(
                                    stack0,
                                    replies,
                                ));
                                lemma_enter_child(children@, 0, open, stack@, replies);
                            }
                            assert(weight_from(children@, 0) == weight(children@[0]) + weight_from(
                                children@,
                                1,
                            ));
                        }
                    }
                },
            },
            Course::Leave(result) => {
                match stack.pop() {
                    None => {
                        let step = Step::Finished(result);
                        proof {
                            assert forall|replies: Seq<Reply>| #[trigger]
                                step.outcome(replies) == course0.outcome(stack0, replies) by {
                                assert(here.outcome(open, replies) == course0.outcome(
                                    stack0,
                                    replies,
                                ));
                            }
                        }
                        return step;
                    },
                    Some(frame) => {
                        let ghost below = stack@;
                        assert(below =~= open.drop_last());
                        assert(frame == open.last());
                        match result {
                            Err(e) => {
                                course = Course::Leave(
                                    Err(ActionError::ChainAborted(Box::new(e))),
                                );
                                proof {
                                    assert forall|replies: Seq<Reply>| #[trigger]
                                        course.outcome(stack@, replies) == course0.outcome(
                                            stack0,
                                            replies,
                                        ) by {
                                        assert(here.outcome(open, replies) == course0.outcome(
                                            stack0,
                                            replies,
                                        ));
                                    }
                                }
                            },
                            Ok(unit) => {
                                if frame.next < frame.children.len() {
                                    let children = frame.children;
                                    let next = frame.next;
                                    stack.push(ChainFrame { children, next: next + 1 });
                                    course = Course::Enter(&children[next]);
                                    proof {
                                        assert(stack@.drop_last() =~= below);
                                        assert forall|replies: Seq<Reply>| #[trigger]
                                            course.outcome(stack@, replies) == course0.outcome(
                                                stack0,
                                                replies,
                                            ) by {
                                            assert(here.outcome(open, replies) == course0.outcome(
                                                stack0,
                                                replies,
                                            ));
                                            lemma_enter_child(
                                                children@,
                                                next as int,
                                                below,
                                                stack@,
                                                replies,
                                            );
                                        }
                                        assert(weight_from(children@, next as int) == weight(
                                            children@[next as int],
                                        ) + weight_from(children@, next + 1));
                                    }
                                } else {
                                    course = Course::Leave(Ok(unit));
                                    proof {
                                        assert forall|replies: Seq<Reply>| #[trigger]
                                            course.outcome(stack@, replies) == course0.outcome(
                                                stack0,
                                                replies,
                                            ) by {
                                            assert(here.outcome(open, replies) == course0.outcome(
                                                stack0,
                                                replies,
                                            ));
                                            lemma_then_unwind_done(below, Ok(()), replies);
                                        }
                                    }
                                }
                            },
                        }
                    },
                }
            },
        }
    }
}

/// A step that does what evaluating `action` does ends the evaluation
/// where the action needs no dispatch, and else names the action's first
/// dispatch.
pub proof fn lemma_step_names_first_dispatch(step: Step<'_>, action: Action)
    requires
        forall|replies: Seq<Reply>| #[trigger] step.outcome(replies) == eval(action, replies),
    ensures
        match step {
            Step::Finished(result) => eval(action, Seq::empty()) == Outcome::done(result),
            Step::Run(command, _) => eval(action, Seq::empty()) == Outcome::waiting(
                Dispatch::Run(*command),
            ),
            Step::Query(query, _) => eval(action, Seq::empty()) == Outcome::waiting(
                Dispatch::Query(*query),
            ),
        },
{
    assert(step.outcome(Seq::empty()) == eval(action, Seq::empty()));
}

/// An empty chain succeeds without a single dispatch, whatever replies stand
/// ready.
pub proof fn lemma_empty_chain_does_nothing(chain: Action, replies: Seq<Reply>)
    requires
        chain is Chain,
        chain->Chain_0@.len() == 0,
    ensures
        eval(chain, replies) == Outcome::done(Ok(())),
        eval(chain, replies).dispatches.len() == 0,
{
    assert(eval_chain(chain->Chain_0@, 0, replies) == Outcome::done(Ok(())));
}

/// A chain stops at its first failing child: where the children before
/// `failing` succeed and that child fails, the chain dispatches what those
/// children dispatch and nothing more, and fails with the child's failure
/// wrapped once. The children after `failing` have no part in the outcome.
pub proof fn lemma_chain_stops_at_first_failure(
    chain: Action,
    failing: int,
    replies: Seq<Reply>,
)
    requires
        chain is Chain,
        0 <= failing < chain->Chain_0@.len(),
        eval_chain(chain->Chain_0@.take(failing), 0, replies).result == Some(
            Ok::<(), ActionError>(()),
        ),
        eval(
            chain->Chain_0@[failing],
            replies.skip(
                eval_chain(chain->Chain_0@.take(failing), 0, replies).dispatches.len() as int,
            ),
        ).result is Some,
        eval(
            chain->Chain_0@[failing],
            replies.skip(
                eval_chain(chain->Chain_0@.take(failing), 0, replies).dispatches.len() as int,
            ),
        ).result->0 is Err,
    ensures
        ({
            let before = eval_chain(chain->Chain_0@.take(failing), 0, replies);
            let failed = eval(
                chain->Chain_0@[failing],
                replies.skip(before.dispatches.len() as int),
            );
            eval(chain, replies) == (Outcome {
                dispatches: before.dispatches + failed.dispatches,
                result: Some(
                    Err(ActionError::ChainAborted(Box::new(failed.result->0->Err_0))),
                ),
            })
        }),
{
    lemma_chain_prefix(chain->Chain_0@, 0, failing, replies);
}

/// The statement of `lemma_chain_stops_at_first_failure`, from any child on.
proof fn lemma_chain_prefix(children: Seq<Action>, from: int, failing: int, replies: Seq<Reply>)
    requires
        0 <= from <= failing < children.len(),
        eval_chain(children.take(failing), from, replies).result == Some(
            Ok::<(), ActionError>(()),
        ),
        eval(
            children[failing],
            replies.skip(eval_chain(children.take(failing), from, replies).dispatches.len() as int),
        ).result is Some,
        eval(
            children[failing],
            replies.skip(eval_chain(children.take(failing), from, replies).dispatches.len() as int),
        ).result->0 is Err,
    ensures
        ({
            let before = eval_chain(children.take(failing), from, replies);
            let failed = eval(children[failing], replies.skip(before.dispatches.len() as int));
            eval_chain(children, from, replies) == (Outcome {
                dispatches: before.dispatches + failed.dispatches,
                result: Some(
                    Err(ActionError::ChainAborted(Box::new(failed.result->0->Err_0))),
                ),
            })
        }),
    decreases failing - from,
{
    let head = children.take(failing);
    let before = eval_chain(head, from, replies);
    if from == failing {
        assert(replies.skip(0) =~= replies);
        let failed = eval(children[failing], replies);
        assert(Seq::<Dispatch>::empty() + failed.dispatches =~= failed.dispatches);
    } else {
        assert(head[from] == children[from]);
        let first = eval(children[from], replies);
        let n = first.dispatches.len() as int;
        let rest = replies.skip(n);
        let tail = eval_chain(head, from + 1, rest);
        assert(before == tail.after(first.dispatches));
        lemma_eval_consumes(children[from], replies);
        lemma_eval_chain_consumes(head, from + 1, rest);
        let m = tail.dispatches.len() as int;
        assert(rest.skip(m) =~= replies.skip(n + m));
        assert(before.dispatches.len() == n + m);
        lemma_chain_prefix(children, from + 1, failing, rest);
        let failed = eval(children[failing], rest.skip(m));
        assert(first.dispatches + (tail.dispatches + failed.dispatches) =~= (first.dispatches
            + tail.dispatches) + failed.dispatches);
    }
}

/// A branch follows the answer to its query: into its first action where the
/// answer is the target, else into its second action, and where there is
/// none it succeeds at once. The other action is never entered.
pub proof fn lemma_branch_follows_answer(branch: Action, answer: String, replies: Seq<Reply>)
    requires
        branch is If,
        replies.len() > 0,
        replies[0] == Reply::Value(Ok(answer)),
    ensures
        ({
            let asked = seq![Dispatch::Query(branch->If_0.query)];
            let rest = replies.skip(1);
            &&& branch->If_0.holds(answer@) ==> eval(branch, replies) == eval(
                *branch->If_1,
                rest,
            ).after(asked)
            &&& !branch->If_0.holds(answer@) && branch->If_2 is Some ==> eval(branch, replies)
                == eval(*branch->If_2->0, rest).after(asked)
            &&& !branch->If_0.holds(answer@) && branch->If_2 is None ==> eval(branch, replies)
                == (Outcome { dispatches: asked, result: Some(Ok(())) })
        }),
{
    let asked = seq![Dispatch::Query(branch->If_0.query)];
    assert(asked + Seq::<Dispatch>::empty() =~= asked);
}

/// A branch whose query fails ends with that failure, and enters neither of
/// its actions: the query is its only dispatch.
pub proof fn lemma_failed_condition_ends_branch(
    branch: Action,
    failure: ActionError,
    replies: Seq<Reply>,
)
    requires
        branch is If,
        replies.len() > 0,
        replies[0] == Reply::Value(Err(failure)),
    ensures
        eval(branch, replies) == (Outcome {
            dispatches: seq![Dispatch::Query(branch->If_0.query)],
            result: Some(Err(failure)),
        }),
{
}

impl Dispatch {
    /// Whether the two dispatches say the same.
    pub open spec fn alike(self, other: Dispatch) -> bool {
        match (self, other) {
            (Dispatch::Run(a), Dispatch::Run(b)) => a.alike(b),
            (Dispatch::Query(a), Dispatch::Query(b)) => a == b,
            _ => false,
        }
    }
}

impl Outcome {
    /// Whether the two outcomes are the same but for copies: they end
    /// alike, after dispatches that say the same, one by one.
    pub open spec fn alike(self, other: Outcome) -> bool {
        &&& self.result == other.result
        &&& self.dispatches.len() == other.dispatches.len()
        &&& forall|i: int|
            0 <= i < self.dispatches.len() ==> (#[trigger] self.dispatches[i]).alike(
                other.dispatches[i],
            )
    }
}

/// A copy of an action does what the action does: on the same replies, the
/// two ask for dispatches that say the same and end alike.
pub proof fn lemma_copies_evaluate_alike(copy: Action, action: Action, replies: Seq<Reply>)
    requires
        copy.alike(action),
    ensures
        eval(copy, replies).alike(eval(action, replies)),
    decreases copy,
{
    match (copy, action) {
        (Action::Single(_), Action::Single(_)) => {},
        (Action::Chain(xs), Action::Chain(ys)) => {
            lemma_chains_evaluate_alike(xs@, ys@, 0, replies);
        },
        (Action::If(c, t, e), Action::If(d, u, f)) => {
            if replies.len() > 0 && replies[0] is Value {
                match replies[0]->Value_0 {
                    Err(_) => {},
                    Ok(answer) => {
                        let asked = seq![Dispatch::Query(c.query)];
                        if c.holds(answer@) {
                            lemma_copies_evaluate_alike(*t, *u, replies.skip(1));
                            lemma_alike_after(
                                eval(*t, replies.skip(1)),
                                eval(*u, replies.skip(1)),
                                asked,
                                asked,
                            );
                        } else {
                            match (e, f) {
                                (Some(x), Some(y)) => {
                                    lemma_copies_evaluate_alike(*x, *y, replies.skip(1));
                                    lemma_alike_after(
                                        eval(*x, replies.skip(1)),
                                        eval(*y, replies.skip(1)),
                                        asked,
                                        asked,
                                    );
                                },
                                _ => {},
                            }
                        }
                    },
                }
            }
        },
        _ => {},
    }
}

/// The children of a copy of a chain do what the children of the chain do.
proof fn lemma_chains_evaluate_alike(
    copies: Seq<Action>,
    children: Seq<Action>,
    from: int,
    replies: Seq<Reply>,
)
    requires
        copies.len() == children.len(),
        forall|i: int| 0 <= i < copies.len() ==> (#[trigger] copies[i]).alike(children[i]),
    ensures
        eval_chain(copies, from, replies).alike(eval_chain(children, from, replies)),
    decreases copies, copies.len() - from,
{
    if 0 <= from < copies.len() {
        lemma_copies_evaluate_alike(copies[from], children[from], replies);
        let first = eval(copies[from], replies);
        let other = eval(children[from], replies);
        match first.result {
            Some(Ok(_)) => {
                let rest = replies.skip(first.dispatches.len() as int);
                lemma_chains_evaluate_alike(copies, children, from + 1, rest);
                lemma_alike_after(
                    eval_chain(copies, from + 1, rest),
                    eval_chain(children, from + 1, rest),
                    first.dispatches,
                    other.dispatches,
                );
            },
            _ => {},
        }
    }
}

/// Outcomes that are alike stay alike behind earlier dispatches that say
/// the same.
proof fn lemma_alike_after(a: Outcome, b: Outcome, before_a: Seq<Dispatch>, before_b: Seq<Dispatch>)
    requires
        a.alike(b),
        before_a.len() == before_b.len(),
        forall|i: int| 0 <= i < before_a.len() ==> (#[trigger] before_a[i]).alike(before_b[i]),
    ensures
        a.after(before_a).alike(b.after(before_b)),
{
    let x = a.after(before_a);
    let y = b.after(before_b);
    assert forall|i: int| 0 <= i < x.dispatches.len() implies (#[trigger] x.dispatches[i]).alike(
        y.dispatches[i],
    ) by {
        if i < before_a.len() {
            assert(x.dispatches[i] == before_a[i]);
            assert(y.dispatches[i] == before_b[i]);
        } else {
            assert(x.dispatches[i] == a.dispatches[i - before_a.len()]);
            assert(y.dispatches[i] == b.dispatches[i - before_b.len()]);
        }
    }
}

/// An evaluation asks for no more dispatches than the action weighs,
/// whatever the replies.
pub proof fn lemma_dispatches_bounded(action: Action, replies: Seq<Reply>)
    ensures
        eval(action, replies).dispatches.len() <= weight(action),
    decreases action,
{
    match action {
        Action::Single(_) => {},
        Action::Chain(children) => {
            lemma_chain_dispatches_bounded(children@, 0, replies);
        },
        Action::If(condition, taken, otherwise) => {
            if replies.len() > 0 && replies[0] is Value {
                match replies[0]->Value_0 {
                    Err(_) => {},
                    Ok(answer) => {
                        if condition.holds(answer@) {
                            lemma_dispatches_bounded(*taken, replies.skip(1));
                        } else {
                            match otherwise {
                                Some(other) => {
                                    lemma_dispatches_bounded(*other, replies.skip(1));
                                },
                                None => {},
                            }
                        }
                    },
                }
            }
        },
    }
}

/// The children of a chain ask for no more dispatches than they weigh.
proof fn lemma_chain_dispatches_bounded(children: Seq<Action>, from: int, replies: Seq<Reply>)
    ensures
        eval_chain(children, from, replies).dispatches.len() <= weight_from(children, from),
    decreases children, children.len() - from,
{
    if 0 <= from < children.len() {
        let first = eval(children[from], replies);
        lemma_dispatches_bounded(children[from], replies);
        match first.result {
            Some(Ok(_)) => {
                lemma_chain_dispatches_bounded(
                    children,
                    from + 1,
                    replies.skip(first.dispatches.len() as int),
                );
            },
            _ => {},
        }
    }
}

/// An evaluation that has ended used one reply for each of its dispatches.
pub proof fn lemma_eval_consumes(action: Action, replies: Seq<Reply>)
    ensures
        eval(action, replies).result is Some ==> eval(action, replies).dispatches.len()
            <= replies.len(),
    decreases action,
{
    match action {
        Action::Single(_) => {},
        Action::Chain(children) => {
            lemma_eval_chain_consumes(children@, 0, replies);
        },
        Action::If(condition, taken, otherwise) => {
            if replies.len() > 0 && replies[0] is Value {
                match replies[0]->Value_0 {
                    Err(_) => {},
                    Ok(answer) => {
                        if condition.holds(answer@) {
                            lemma_eval_consumes(*taken, replies.skip(1));
                        } else {
                            match otherwise {
                                Some(other) => {
                                    lemma_eval_consumes(*other, replies.skip(1));
                                },
                                None => {},
                            }
                        }
                    },
                }
            }
        },
    }
}

/// The children of a chain, once they have ended, used one reply for each of
/// their dispatches.
pub proof fn lemma_eval_chain_consumes(children: Seq<Action>, from: int, replies: Seq<Reply>)
    ensures
        eval_chain(children, from, replies).result is Some ==> eval_chain(
            children,
            from,
            replies,
        ).dispatches.len() <= replies.len(),
    decreases children, children.len() - from,
{
    if 0 <= from < children.len() {
        let first = eval(children[from], replies);
        lemma_eval_consumes(children[from], replies);
        match first.result {
            Some(Ok(_)) => {
                lemma_eval_chain_consumes(
                    children,
                    from + 1,
                    replies.skip(first.dispatches.len() as int),
                );
            },
            _ => {},
        }
    }
}

/// Putting earlier dispatches in front, twice, is putting their join in front.
proof fn lemma_after_after(o: Outcome, a: Seq<Dispatch>, b: Seq<Dispatch>)
    ensures
        o.after(a).after(b) == o.after(b + a),
{
    assert(b + (a + o.dispatches) =~= (b + a) + o.dispatches);
}

/// With no chain open, what follows an outcome is nothing.
proof fn lemma_then_unwind_empty(first: Outcome, replies: Seq<Reply>)
    ensures
        then_unwind(first, Seq::empty(), replies) == first,
{
    match first.result {
        None => {},
        Some(result) => {
            let rest = replies.skip(first.dispatches.len() as int);
            assert(unwind(Seq::empty(), result, rest) == Outcome::done(result));
            assert(first.dispatches + Seq::<Dispatch>::empty() =~= first.dispatches);
        },
    }
}

/// An outcome that ends at once is followed directly by the stack.
proof fn lemma_then_unwind_done(
    stack: Seq<ChainFrame<'_>>,
    result: Result<(), ActionError>,
    replies: Seq<Reply>,
)
    ensures
        then_unwind(Outcome::done(result), stack, replies) == unwind(stack, result, replies),
{
    assert(replies.skip(0) =~= replies);
    let o = unwind(stack, result, replies);
    assert(Seq::<Dispatch>::empty() + o.dispatches =~= o.dispatches);
}

/// A command that has come back is followed directly by the stack.
proof fn lemma_step_single(
    command: PluginAction,
    result: Result<(), ActionError>,
    stack: Seq<ChainFrame<'_>>,
    replies: Seq<Reply>,
)
    requires
        replies.len() > 0,
    ensures
        then_unwind(
            Outcome { dispatches: seq![Dispatch::Run(command)], result: Some(result) },
            stack,
            replies,
        ) == unwind(stack, result, replies.skip(1)).after(seq![Dispatch::Run(command)]),
{
}

/// A step that dispatches a condition's query does what evaluating the
/// branch does.
proof fn lemma_enter_branch(step: Step<'_>, action: Action, replies: Seq<Reply>)
    requires
        action is If,
        step is Query,
        *step->Query_0 == action->If_0.query,
        *step->Query_1.condition == action->If_0,
        *step->Query_1.taken == *action->If_1,
        *step->Query_1.otherwise == action->If_2,
    ensures
        step.outcome(replies) == then_unwind(eval(action, replies), step->Query_1.stack@, replies),
{
    let stack = step->Query_1.stack@;
    let asked = seq![Dispatch::Query(action->If_0.query)];
    if replies.len() > 0 && replies[0] is Value {
        let rest = replies.skip(1);
        match replies[0]->Value_0 {
            Err(e) => {},
            Ok(text) => {
                let branch = if action->If_0.holds(text@) {
                    eval(*action->If_1, rest)
                } else {
                    match action->If_2 {
                        Some(other) => eval(*other, rest),
                        None => Outcome::done(Ok(())),
                    }
                };
                if action->If_0.holds(text@) {
                    lemma_eval_consumes(*action->If_1, rest);
                } else {
                    match action->If_2 {
                        Some(other) => {
                            lemma_eval_consumes(*other, rest);
                        },
                        None => {},
                    }
                }
                lemma_then_unwind_after(branch, asked, stack, replies);
                if !action->If_0.holds(text@) && action->If_2 is None {
                    lemma_then_unwind_done(stack, Ok(()), rest);
                }
            },
        }
    }
}

/// What follows an outcome that has one dispatch put in front follows the
/// outcome itself, one reply later.
proof fn lemma_then_unwind_after(
    branch: Outcome,
    asked: Seq<Dispatch>,
    stack: Seq<ChainFrame<'_>>,
    replies: Seq<Reply>,
)
    requires
        asked.len() == 1,
        replies.len() > 0,
        branch.result is Some ==> branch.dispatches.len() <= replies.len() - 1,
    ensures
        then_unwind(branch.after(asked), stack, replies) == then_unwind(
            branch,
            stack,
            replies.skip(1),
        ).after(asked),
{
    match branch.result {
        None => {},
        Some(result) => {
            let n = branch.dispatches.len() as int;
            assert(replies.skip(1).skip(n) =~= replies.skip(1 + n));
            assert((asked + branch.dispatches).len() == 1 + n);
            lemma_after_after(unwind(stack, result, replies.skip(1 + n)), branch.dispatches, asked);
        },
    }
}

/// Entering child `at` of a chain, with the chain's frame pushed, does what
/// evaluating the chain from that child on does.
proof fn lemma_enter_child(
    children: Seq<Action>,
    at: int,
    below: Seq<ChainFrame<'_>>,
    stack: Seq<ChainFrame<'_>>,
    replies: Seq<Reply>,
)
    requires
        0 <= at < children.len(),
        stack.len() > 0,
        stack.drop_last() == below,
        stack.last().children@ == children,
        stack.last().next == at + 1,
    ensures
        then_unwind(eval(children[at], replies), stack, replies) == then_unwind(
            eval_chain(children, at, replies),
            below,
            replies,
        ),
{
    let first = eval(children[at], replies);
    let n = first.dispatches.len() as int;
    lemma_eval_consumes(children[at], replies);
    match first.result {
        None => {},
        Some(Err(e)) => {},
        Some(Ok(_)) => {
            let rest = replies.skip(n);
            let tail = eval_chain(children, at + 1, rest);
            lemma_eval_chain_consumes(children, at + 1, rest);
            assert(eval_chain(children, at, replies) == tail.after(first.dispatches));
            assert(unwind(stack, Ok(()), rest) == then_unwind(tail, below, rest));
            match tail.result {
                None => {},
                Some(r2) => {
                    let m = tail.dispatches.len() as int;
                    assert(rest.skip(m) =~= replies.skip(n + m));
                    assert((first.dispatches + tail.dispatches).len() == n + m);
                    lemma_after_after(
                        unwind(below, r2, rest.skip(m)),
                        tail.dispatches,
                        first.dispatches,
                    );
                },
            }
        },
    }
}

} // verus!
