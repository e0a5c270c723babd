//! The deferred actions of a run: a queue that is filled in order, and then
//! drained once, one action after the other, until all are done or one
//! fails.
//!
//! Nothing here starts a process or calls a callback. Draining hands out the
//! action that is due and takes back how it ended; whoever holds the drain
//! carries the action out.

use crate::error::{
    outcome_view, result_view, ActionError, ActionErrorView, MergeError, MergeErrorView,
};
use vstd::prelude::*;

verus! {

/// One deferred action.
#[derive(Debug)]
pub enum QueuedAction<F> {
    /// A process to run to completion.
    External { program: String, args: Vec<String>, working_dir: String, label: String },
    /// A step to run in this process.
    Callback { label: String, run: F },
}

/// A `QueuedAction` as plain text.
pub enum ActionView<F> {
    External { program: Seq<char>, args: Seq<Seq<char>>, working_dir: Seq<char>, label: Seq<char> },
    Callback { label: Seq<char>, run: F },
}

impl<F> ActionView<F> {
    /// The label that a failure of the action is reported under.
    pub open spec fn label(self) -> Seq<char> {
        match self {
            ActionView::External { label, .. } => label,
            ActionView::Callback { label, .. } => label,
        }
    }
}

impl<F> View for QueuedAction<F> {
    type V = ActionView<F>;

    open spec fn view(&self) -> ActionView<F> {
        match self {
            QueuedAction::External { program, args, working_dir, label } => ActionView::External {
                program: program@,
                args: args.deep_view(),
                working_dir: working_dir@,
                label: label@,
            },
            QueuedAction::Callback { label, run } => ActionView::Callback {
                label: label@,
                run: *run,
            },
        }
    }
}

impl<F> QueuedAction<F> {
    /// The label that a failure of the action is reported under.
    pub fn label(&self) -> (label: &String)
        ensures
            label@ == self@.label(),
    {
        match self {
            QueuedAction::External { label, .. } => label,
            QueuedAction::Callback { label, .. } => label,
        }
    }
}

impl<F> DeepView for QueuedAction<F> {
    type V = ActionView<F>;

    open spec fn deep_view(&self) -> ActionView<F> {
        self@
    }
}

/// Where a queue or a drain stands.
#[derive(Clone, Copy, Debug, PartialEq, Eq, Structural)]
pub enum QueueState {
    /// Nothing has been queued.
    Empty,
    /// Actions have been queued and none has run.
    Building,
    /// An action is due.
    Draining,
    /// Every action has succeeded.
    Completed,
    /// An action has failed; those behind it were dropped.
    Failed,
}

/// The actions of a run, in the order in which they will run.
#[derive(Debug)]
pub struct CommandQueue<F> {
    actions: Vec<QueuedAction<F>>,
}

impl<F> View for CommandQueue<F> {
    type V = Seq<ActionView<F>>;

    closed spec fn view(&self) -> Seq<ActionView<F>> {
        self.actions.deep_view()
    }
}

impl<F> CommandQueue<F> {
    /// A queue that holds nothing.
    pub fn new() -> (queue: Self)
        ensures
            queue@ == Seq::<ActionView<F>>::empty(),
    {
        let queue = CommandQueue { actions: Vec::new() };
        assert(queue@ =~= Seq::<ActionView<F>>::empty());
        queue
    }

    /// Puts `action` behind all that are queued.
    pub fn enqueue(&mut self, action: QueuedAction<F>)
        ensures
            final(self)@ == old(self)@.push(action@),
    {
        self.actions.push(action);
        assert(self@ =~= old(self)@.push(action@));
    }

    /// Queues a process: `program` with `args`, run in `working_dir`.
    pub fn enqueue_simple_external(
        &mut self,
        label: &str,
        program: &str,
        args: Vec<String>,
        working_dir: &str,
    )
        ensures
            final(self)@ == old(self)@.push(
                ActionView::External {
                    program: program@,
                    args: args.deep_view(),
                    working_dir: working_dir@,
                    label: label@,
                },
            ),
    {
        self.enqueue(
            QueuedAction::External {
                program: program.to_owned(),
                args,
                working_dir: working_dir.to_owned(),
                label: label.to_owned(),
            },
        );
    }

    /// Queues a step to run in this process.
    pub fn enqueue_function(&mut self, label: &str, run: F)
        ensures
            final(self)@ == old(self)@.push(ActionView::Callback { label: label@, run }),
    {
        self.enqueue(QueuedAction::Callback { label: label.to_owned(), run });
    }

    /// The number of queued actions.
    pub fn len(&self) -> (n: usize)
        ensures
            n == self@.len(),
    {
        self.actions.len()
    }

    /// `Empty` before the first action is queued, `Building` from then on.
    pub fn state(&self) -> (state: QueueState)
        ensures
            state == (if self@.len() == 0 {
                QueueState::Empty
            } else {
                QueueState::Building
            }),
    {
        if self.actions.len() == 0 {
            QueueState::Empty
        } else {
            QueueState::Building
        }
    }

    /// The action at place `index`, counted from the front.
    pub fn get(&self, index: usize) -> (action: Option<&QueuedAction<F>>)
        ensures
            index < self@.len() ==> action is Some && action->0@ == self@[index as int],
            index >= self@.len() ==> action is None,
    {
        if index < self.actions.len() {
            Some(&self.actions[index])
        } else {
            None
        }
    }

    /// Ends the building of the queue and begins its one drain, with the
    /// first action due.
    pub fn start(self) -> (drain: Drain<F>)
        ensures
            drain@ == fresh(self@),
            drain@.wf(),
    {
        Drain { actions: self.actions, done: 0, failure: None }
    }

    /// The labels of the queued actions, front first.
    pub fn labels(&self) -> (labels: Vec<String>)
        ensures
            labels.deep_view() == self@.map_values(|a: ActionView<F>| a.label()),
    {
        let mut labels: Vec<String> = Vec::new();
        let mut i: usize = 0;
        while i < self.actions.len()
            invariant
                i <= self.actions@.len(),
                labels@.len() == i,
                forall|k: int| 0 <= k < i ==> labels@[k]@ == self.actions@[k]@.label(),
            decreases self.actions@.len() - i,
        {
            labels.push(self.actions[i].label().clone());
            i = i + 1;
        }
        assert(labels.deep_view() =~= self@.map_values(|a: ActionView<F>| a.label()));
        labels
    }
}

/// A queue that is being drained: its actions front first, how many of them
/// have succeeded, and the failure that ended the drain, if one did.
#[derive(Debug)]
pub struct Drain<F> {
    actions: Vec<QueuedAction<F>>,
    done: usize,
    failure: Option<MergeError>,
}

/// A `Drain` as plain values.
pub struct DrainView<F> {
    pub actions: Seq<ActionView<F>>,
    pub done: nat,
    pub failure: Option<MergeErrorView>,
}

impl<F> DrainView<F> {
    /// No more actions have succeeded than there are, and a failure is that
    /// of an action of the queue.
    pub open spec fn wf(self) -> bool {
        &&& self.done <= self.actions.len()
        &&& self.failure is Some ==> self.done < self.actions.len()
    }

    /// `Failed` once an action has failed, `Completed` once all have
    /// succeeded, `Draining` until then.
    pub open spec fn state(self) -> QueueState {
        if self.failure is Some {
            QueueState::Failed
        } else if self.done >= self.actions.len() {
            QueueState::Completed
        } else {
            QueueState::Draining
        }
    }

    /// The action that is due: the first that has not run, as long as none
    /// has failed.
    pub open spec fn due(self) -> Option<ActionView<F>> {
        if self.state() == QueueState::Draining {
            Some(self.actions[self.done as int])
        } else {
            None
        }
    }

    /// The drain after the action that was due has ended with `outcome`. A
    /// success makes the next action due. A failure ends the drain under
    /// the label of the action that failed, and the actions behind it are
    /// never due. Where no action was due, nothing changes.
    pub open spec fn after(self, outcome: Result<(), ActionErrorView>) -> DrainView<F> {
        if self.state() == QueueState::Draining {
            match outcome {
                Ok(()) => DrainView { done: self.done + 1, ..self },
                Err(error) => DrainView {
                    failure: Some(error.labelled(self.actions[self.done as int].label())),
                    ..self
                },
            }
        } else {
            self
        }
    }

    /// The result of the run: none while an action is due, then success
    /// where all actions succeeded, else the failure.
    pub open spec fn result(self) -> Option<Result<(), MergeErrorView>> {
        match self.failure {
            Some(error) => Some(Err(error)),
            None => if self.done >= self.actions.len() {
                Some(Ok(()))
            } else {
                None
            },
        }
    }
}

/// The drain at its start.
pub open spec fn fresh<F>(actions: Seq<ActionView<F>>) -> DrainView<F> {
    DrainView { actions, done: 0, failure: None }
}

/// The drain after the outcomes `outcomes` have been reported, one after
/// the other.
pub open spec fn run<F>(
    drain: DrainView<F>,
    outcomes: Seq<Result<(), ActionErrorView>>,
) -> DrainView<F>
    decreases outcomes.len(),
{
    if outcomes.len() == 0 {
        drain
    } else {
        run(drain.after(outcomes[0]), outcomes.skip(1))
    }
}

/// The actions that were due, one after the other, while the outcomes
/// `outcomes` were reported: those that were carried out.
pub open spec fn carried_out<F>(
    drain: DrainView<F>,
    outcomes: Seq<Result<(), ActionErrorView>>,
) -> Seq<ActionView<F>>
    decreases outcomes.len(),
{
    if outcomes.len() == 0 {
        Seq::empty()
    } else {
        match drain.due() {
            Some(action) => seq![action] + carried_out(
                drain.after(outcomes[0]),
                outcomes.skip(1),
            ),
            None => Seq::empty(),
        }
    }
}

/// A drain that has completed or failed stays as it is, whatever is
/// reported to it, and no action is carried out any more.
pub proof fn drain_is_final<F>(drain: DrainView<F>, outcomes: Seq<Result<(), ActionErrorView>>)
    requires
        drain.state() != QueueState::Draining,
    ensures
        drain.due() is None,
        run(drain, outcomes) == drain,
        carried_out(drain, outcomes) == Seq::<ActionView<F>>::empty(),
    decreases outcomes.len(),
{
    if outcomes.len() > 0 {
        drain_is_final(drain, outcomes.skip(1));
    }
}

proof fn lemma_first_failure<F>(
    drain: DrainView<F>,
    outcomes: Seq<Result<(), ActionErrorView>>,
    k: int,
)
    requires
        drain.failure is None,
        0 <= k < outcomes.len(),
        drain.done + k < drain.actions.len(),
        forall|j: int| 0 <= j < k ==> (#[trigger] outcomes[j]) is Ok,
        outcomes[k] is Err,
    ensures
        carried_out(drain, outcomes) == drain.actions.subrange(
            drain.done as int,
            drain.done + k + 1,
        ),
        run(drain, outcomes) == (DrainView {
            done: (drain.done + k) as nat,
            failure: Some(
                outcomes[k]->Err_0.labelled(drain.actions[drain.done + k].label()),
            ),
            ..drain
        }),
    decreases k,
{
    let next = drain.after(outcomes[0]);
    let rest = outcomes.skip(1);
    if k == 0 {
        drain_is_final(next, rest);
        assert(carried_out(drain, outcomes) =~= drain.actions.subrange(
            drain.done as int,
            drain.done as int + 1,
        ));
    } else {
        assert(outcomes[0] is Ok);
        assert forall|j: int| 0 <= j < k - 1 implies (#[trigger] rest[j]) is Ok by {
            assert(outcomes[j + 1] is Ok);
        }
        lemma_first_failure(next, rest, k - 1);
        assert(carried_out(drain, outcomes) =~= drain.actions.subrange(
            drain.done as int,
            drain.done + k + 1,
        ));
    }
}

proof fn lemma_all_succeed<F>(drain: DrainView<F>, outcomes: Seq<Result<(), ActionErrorView>>)
    requires
        drain.failure is None,
        drain.done <= drain.actions.len(),
        outcomes.len() >= drain.actions.len() - drain.done,
        forall|j: int| 0 <= j < drain.actions.len() - drain.done ==> (#[trigger] outcomes[j]) is Ok,
    ensures
        carried_out(drain, outcomes) == drain.actions.subrange(
            drain.done as int,
            drain.actions.len() as int,
        ),
        run(drain, outcomes) == (DrainView { done: drain.actions.len(), ..drain }),
    decreases drain.actions.len() - drain.done,
{
    if drain.done == drain.actions.len() {
        drain_is_final(drain, outcomes);
        assert(drain.actions.subrange(drain.done as int, drain.actions.len() as int)
            =~= Seq::<ActionView<F>>::empty());
    } else {
        let next = drain.after(outcomes[0]);
        let rest = outcomes.skip(1);
        assert(outcomes[0] is Ok);
        assert forall|j: int| 0 <= j < next.actions.len() - next.done implies (
        #[trigger] rest[j]) is Ok by {
            assert(outcomes[j + 1] is Ok);
        }
        lemma_all_succeed(next, rest);
        assert(carried_out(drain, outcomes) =~= drain.actions.subrange(
            drain.done as int,
            drain.actions.len() as int,
        ));
    }
}

/// The first failure ends the run. Where the first `k` actions succeed and
/// the next one fails, the actions carried out are those up to the one that
/// failed, each once and in the order of the queue; the run has failed
/// under that action's label; and none of the actions behind it is ever
/// carried out, whatever is reported afterwards.
pub proof fn drain_fails_fast<F>(
    actions: Seq<ActionView<F>>,
    outcomes: Seq<Result<(), ActionErrorView>>,
    k: int,
)
    requires
        0 <= k < actions.len(),
        k < outcomes.len(),
        forall|j: int| 0 <= j < k ==> (#[trigger] outcomes[j]) is Ok,
        outcomes[k] is Err,
    ensures
        carried_out(fresh(actions), outcomes) == actions.take(k + 1),
        run(fresh(actions), outcomes).state() == QueueState::Failed,
        run(fresh(actions), outcomes).done == k,
        run(fresh(actions), outcomes).result() == Some(
            Err::<(), MergeErrorView>(outcomes[k]->Err_0.labelled(actions[k].label())),
        ),
{
    lemma_first_failure(fresh(actions), outcomes, k);
    assert(actions.subrange(0, k + 1) =~= actions.take(k + 1));
}

/// Where every action succeeds, the actions carried out are those of the
/// queue, each once and in the order in which they were queued, and the
/// run has completed.
pub proof fn drain_completes<F>(
    actions: Seq<ActionView<F>>,
    outcomes: Seq<Result<(), ActionErrorView>>,
)
    requires
        outcomes.len() >= actions.len(),
        forall|j: int| 0 <= j < actions.len() ==> (#[trigger] outcomes[j]) is Ok,
    ensures
        carried_out(fresh(actions), outcomes) == actions,
        run(fresh(actions), outcomes).state() == QueueState::Completed,
        run(fresh(actions), outcomes).result() == Some(Ok::<(), MergeErrorView>(())),
{
    lemma_all_succeed(fresh(actions), outcomes);
    assert(actions.subrange(0, actions.len() as int) =~= actions);
}

/// A run succeeds only if every action does: where the result is success,
/// an outcome was reported for every action of the queue, and each was a
/// success.
pub proof fn drain_succeeds_only_if_all_do<F>(
    actions: Seq<ActionView<F>>,
    outcomes: Seq<Result<(), ActionErrorView>>,
)
    requires
        run(fresh(actions), outcomes).result() == Some(Ok::<(), MergeErrorView>(())),
    ensures
        outcomes.len() >= actions.len(),
        forall|j: int| 0 <= j < actions.len() ==> (#[trigger] outcomes[j]) is Ok,
        carried_out(fresh(actions), outcomes) == actions,
{
    lemma_success(fresh(actions), outcomes);
    if outcomes.len() >= actions.len() {
        drain_completes(actions, outcomes);
    }
}

proof fn lemma_success<F>(drain: DrainView<F>, outcomes: Seq<Result<(), ActionErrorView>>)
    requires
        drain.failure is None,
        drain.done <= drain.actions.len(),
        run(drain, outcomes).result() == Some(Ok::<(), MergeErrorView>(())),
    ensures
        outcomes.len() >= drain.actions.len() - drain.done,
        forall|j: int| 0 <= j < drain.actions.len() - drain.done ==> (#[trigger] outcomes[j]) is Ok,
    decreases outcomes.len(),
{
    if drain.done < drain.actions.len() {
        if outcomes.len() > 0 {
            let next = drain.after(outcomes[0]);
            let rest = outcomes.skip(1);
            if outcomes[0] is Err {
                drain_is_final(next, rest);
            } else {
                lemma_success(next, rest);
                assert forall|j: int| 0 <= j < drain.actions.len() - drain.done implies (
                #[trigger] outcomes[j]) is Ok by {
                    if j > 0 {
                        assert(rest[j - 1] is Ok);
                    }
                }
            }
        }
    }
}

impl<F> View for Drain<F> {
    type V = DrainView<F>;

    closed spec fn view(&self) -> DrainView<F> {
        DrainView {
            actions: self.actions.deep_view(),
            done: self.done as nat,
            failure: match self.failure {
                Some(error) => Some(error@),
                None => None,
            },
        }
    }
}

impl<F> Drain<F> {
    #[verifier::type_invariant]
    closed spec fn inv(self) -> bool {
        self@.wf()
    }

    /// Where the drain stands.
    pub fn state(&self) -> (state: QueueState)
        ensures
            state == self@.state(),
            self@.wf(),
    {
        proof {
            use_type_invariant(self);
        }
        if self.failure.is_some() {
            QueueState::Failed
        } else if self.done >= self.actions.len() {
            QueueState::Completed
        } else {
            QueueState::Draining
        }
    }

    /// The number of actions that have succeeded.
    pub fn completed(&self) -> (done: usize)
        ensures
            done == self@.done,
    {
        self.done
    }

    /// The action to carry out now, if one is due.
    pub fn next_action(&self) -> (action: Option<&QueuedAction<F>>)
        ensures
            action is Some <==> self@.due() is Some,
            action is Some ==> Some(action->0@) == self@.due(),
            self@.wf(),
    {
        proof {
            use_type_invariant(self);
        }
        if self.failure.is_none() && self.done < self.actions.len() {
            Some(&self.actions[self.done])
        } else {
            None
        }
    }

    /// Takes the outcome of the action that was due. A success makes the
    /// next action due. A failure ends the drain: it becomes the result of
    /// the run, under the label of the action that failed, and no action is
    /// due any more. Where no action was due, nothing changes.
    pub fn report(&mut self, outcome: Result<(), ActionError>)
        ensures
            final(self)@ == old(self)@.after(outcome_view(outcome)),
            final(self)@.wf(),
    {
        proof {
            use_type_invariant(&*self);
        }
        if self.failure.is_none() && self.done < self.actions.len() {
            match outcome {
                Ok(()) => {
                    self.done = self.done + 1;
                },
                Err(error) => {
                    let failure = error.labelled(self.actions[self.done].label().as_str());
                    self.failure = Some(failure);
                },
            }
        }
    }

    /// The result of the run: none while an action is due, then success
    /// where all actions succeeded, else the failure.
    pub fn result(&self) -> (result: Option<Result<(), MergeError>>)
        ensures
            result is Some <==> self@.result() is Some,
            result is Some ==> Some(result_view(result->0)) == self@.result(),
    {
        proof {
            use_type_invariant(self);
        }
        match &self.failure {
            Some(error) => Some(Err(error.clone())),
            None => {
                if self.done >= self.actions.len() {
                    Some(Ok(()))
                } else {
                    None
                }
            },
        }
    }
}

} // verus!
