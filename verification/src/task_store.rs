//! `TaskStore`: a FIFO store whose tasks move through the states
//! Pending -> Running -> (Complete | back to Pending).
//!
//! Each state has its own queue. Pushing a task gives it the next id, which
//! the task carries through all its states. A handle names the front task of
//! one state's queue; a transition takes that task off the front and appends
//! its successor to the back of the target state's queue. A handle that is
//! dropped without a transition leaves the task at the front.
use vstd::prelude::*;
use std::collections::VecDeque;
use vstd::multiset::Multiset;

verus! {

broadcast use vstd::std_specs::vecdeque::group_vec_dequeue_axioms;

/// A task in state `Pending`.
#[derive(Debug, Clone, Copy, PartialEq, Eq, Default)]
pub struct TasksPending {
    pub id: u64,
}

/// A task in state `Running`.
#[derive(Debug, Clone, Copy, PartialEq, Eq, Default)]
pub struct TasksRunning {
    pub id: u64,
    pub worker: u64,
}

/// A task in state `Complete`.
#[derive(Debug, Clone, Copy, PartialEq, Eq, Default)]
pub struct TasksComplete {
    pub id: u64,
    pub result: i32,
}

/// Why a store operation did not happen.
#[derive(Debug, Clone, Copy, PartialEq, Eq, Structural)]
pub enum TaskStoreError {
    /// Item not found in the expected state.
    NotFound,
    /// The transition's guard condition failed.
    GuardFailed,
}

/// The model of a [`TaskStore`]: each state's queue, front first, and the id
/// the next pushed task gets.
#[verifier::ext_equal]
pub struct TaskQueues {
    pub pending: Seq<TasksPending>,
    pub running: Seq<TasksRunning>,
    pub complete: Seq<TasksComplete>,
    pub next_id: u64,
}

/// The id after `id`, wrapping from `u64::MAX` to 0.
pub open spec fn following_id(id: u64) -> u64 {
    if id == u64::MAX {
        0
    } else {
        (id + 1) as u64
    }
}

/// Total number of tasks over all states.
pub open spec fn task_count(q: TaskQueues) -> nat {
    q.pending.len() + q.running.len() + q.complete.len()
}

/// The store after a push: a `Pending` task with the next id at the back.
pub open spec fn after_push(q: TaskQueues) -> TaskQueues {
    TaskQueues { pending: q.pending.push(TasksPending { id: q.next_id }), next_id: following_id(q.next_id), ..q }
}

/// The store after the front `Pending` task starts on `worker`.
pub open spec fn after_start(q: TaskQueues, worker: u64) -> TaskQueues {
    TaskQueues {
        pending: q.pending.drop_first(),
        running: q.running.push(TasksRunning { id: q.pending[0].id, worker }),
        ..q
    }
}

/// The store after the front `Running` task completes with `result`.
pub open spec fn after_complete(q: TaskQueues, result: i32) -> TaskQueues {
    TaskQueues {
        running: q.running.drop_first(),
        complete: q.complete.push(TasksComplete { id: q.running[0].id, result }),
        ..q
    }
}

/// The store after the front `Running` task fails and is queued again.
pub open spec fn after_fail(q: TaskQueues) -> TaskQueues {
    TaskQueues {
        running: q.running.drop_first(),
        pending: q.pending.push(TasksPending { id: q.running[0].id }),
        ..q
    }
}

/// The ids of all tasks, in whatever state.
pub open spec fn all_ids(q: TaskQueues) -> Multiset<u64> {
    q.pending.map_values(|t: TasksPending| t.id).to_multiset()
        .add(q.running.map_values(|t: TasksRunning| t.id).to_multiset())
        .add(q.complete.map_values(|t: TasksComplete| t.id).to_multiset())
}

/// No two tasks share an id, and every id was given before `next_id`.
pub open spec fn ids_unique_below_next(q: TaskQueues) -> bool {
    forall|x: u64| #[trigger] all_ids(q).count(x) <= 1 && (all_ids(q).count(x) > 0 ==> x < q.next_id)
}

proof fn lemma_ids_drop_first<T>(s: Seq<T>, f: spec_fn(T) -> u64)
    requires
        s.len() > 0,
    ensures
        s.map_values(f).to_multiset() == s.drop_first().map_values(f).to_multiset().insert(f(s[0])),
{
    broadcast use vstd::seq_lib::group_to_multiset_ensures;
    let m = s.map_values(f);
    assert(s.drop_first().map_values(f) =~= m.drop_first());
    assert(m =~= seq![f(s[0])] + m.drop_first());
    vstd::seq_lib::lemma_multiset_commutative(seq![f(s[0])], m.drop_first());
    assert(seq![f(s[0])].to_multiset() =~= Multiset::<u64>::empty().insert(f(s[0]))) by {
        assert(seq![f(s[0])] =~= Seq::<u64>::empty().push(f(s[0])));
    }
}

proof fn lemma_ids_push<T>(s: Seq<T>, x: T, f: spec_fn(T) -> u64)
    ensures
        s.push(x).map_values(f).to_multiset() == s.map_values(f).to_multiset().insert(f(x)),
{
    broadcast use vstd::seq_lib::group_to_multiset_ensures;
    assert(s.push(x).map_values(f) =~= s.map_values(f).push(f(x)));
}

/// Starting, completing or failing a task moves it without changing the ids
/// that the store holds.
pub proof fn law_transitions_keep_ids(q: TaskQueues, worker: u64, result: i32)
    ensures
        q.pending.len() > 0 ==> all_ids(after_start(q, worker)) == all_ids(q),
        q.running.len() > 0 ==> all_ids(after_complete(q, result)) == all_ids(q),
        q.running.len() > 0 ==> all_ids(after_fail(q)) == all_ids(q),
{
    let fp = |t: TasksPending| t.id;
    let fr = |t: TasksRunning| t.id;
    let fc = |t: TasksComplete| t.id;
    if q.pending.len() > 0 {
        let q2 = after_start(q, worker);
        lemma_ids_drop_first(q.pending, fp);
        lemma_ids_push(q.running, TasksRunning { id: q.pending[0].id, worker }, fr);
        assert(all_ids(q2) =~= all_ids(q));
    }
    if q.running.len() > 0 {
        lemma_ids_drop_first(q.running, fr);
        let q3 = after_complete(q, result);
        lemma_ids_push(q.complete, TasksComplete { id: q.running[0].id, result }, fc);
        assert(all_ids(q3) =~= all_ids(q));
        let q4 = after_fail(q);
        lemma_ids_push(q.pending, TasksPending { id: q.running[0].id }, fp);
        assert(all_ids(q4) =~= all_ids(q));
    }
}

/// A push adds exactly one id, the store's next id.
pub proof fn law_push_adds_next_id(q: TaskQueues)
    ensures
        all_ids(after_push(q)) == all_ids(q).insert(q.next_id),
        after_push(q).next_id == following_id(q.next_id),
{
    lemma_ids_push(q.pending, TasksPending { id: q.next_id }, |t: TasksPending| t.id);
    assert(all_ids(after_push(q)) =~= all_ids(q).insert(q.next_id));
}

/// Ids are unique: a new store has none, a push gives an id no task has
/// (until the ids wrap around at `u64::MAX`), and transitions keep the ids.
pub proof fn law_ids_stay_unique(q: TaskQueues, worker: u64, result: i32)
    ensures
        ids_unique_below_next(TaskQueues { pending: Seq::empty(), running: Seq::empty(), complete: Seq::empty(), next_id: 0 }),
        ids_unique_below_next(q) && q.next_id < u64::MAX ==> ids_unique_below_next(after_push(q)),
        ids_unique_below_next(q) && q.pending.len() > 0 ==> ids_unique_below_next(after_start(q, worker)),
        ids_unique_below_next(q) && q.running.len() > 0 ==> ids_unique_below_next(after_complete(q, result)),
        ids_unique_below_next(q) && q.running.len() > 0 ==> ids_unique_below_next(after_fail(q)),
{
    broadcast use vstd::seq_lib::group_to_multiset_ensures;
    let e = TaskQueues { pending: Seq::empty(), running: Seq::empty(), complete: Seq::empty(), next_id: 0 };
    assert(all_ids(e) =~= Multiset::<u64>::empty()) by {
        assert(e.pending.map_values(|t: TasksPending| t.id) =~= Seq::<u64>::empty());
        assert(e.running.map_values(|t: TasksRunning| t.id) =~= Seq::<u64>::empty());
        assert(e.complete.map_values(|t: TasksComplete| t.id) =~= Seq::<u64>::empty());
    }
    law_transitions_keep_ids(q, worker, result);
    law_push_adds_next_id(q);
    if ids_unique_below_next(q) && q.next_id < u64::MAX {
        let q2 = after_push(q);
        assert(all_ids(q).count(q.next_id) == 0);
        assert forall|x: u64| #[trigger] all_ids(q2).count(x) <= 1 && (all_ids(q2).count(x) > 0 ==> x < q2.next_id) by {
            assert(all_ids(q).count(x) <= 1);
        }
    }
}

/// The store holds exactly the ids it has given: each id below `next_id`
/// once, and no other.
pub open spec fn ids_are_those_given(q: TaskQueues) -> bool {
    forall|x: u64| #[trigger] all_ids(q).count(x) == if x < q.next_id { 1nat } else { 0nat }
}

/// A new store has given no id and holds none; each push (before the ids
/// wrap around at `u64::MAX`) gives the next id and holds it; starting,
/// completing and failing a task keep the ids held. So after `n` pushes,
/// whatever transitions ran between them, the ids held are `0..n`, each once.
pub proof fn law_ids_are_those_given(q: TaskQueues, worker: u64, result: i32)
    ensures
        ids_are_those_given(TaskQueues { pending: Seq::empty(), running: Seq::empty(), complete: Seq::empty(), next_id: 0 }),
        ids_are_those_given(q) && q.next_id < u64::MAX ==> ids_are_those_given(after_push(q)),
        ids_are_those_given(q) && q.pending.len() > 0 ==> ids_are_those_given(after_start(q, worker)),
        ids_are_those_given(q) && q.running.len() > 0 ==> ids_are_those_given(after_complete(q, result)),
        ids_are_those_given(q) && q.running.len() > 0 ==> ids_are_those_given(after_fail(q)),
{
    broadcast use vstd::seq_lib::group_to_multiset_ensures;
    let e = TaskQueues { pending: Seq::empty(), running: Seq::empty(), complete: Seq::empty(), next_id: 0 };
    assert(all_ids(e) =~= Multiset::<u64>::empty()) by {
        assert(e.pending.map_values(|t: TasksPending| t.id) =~= Seq::<u64>::empty());
        assert(e.running.map_values(|t: TasksRunning| t.id) =~= Seq::<u64>::empty());
        assert(e.complete.map_values(|t: TasksComplete| t.id) =~= Seq::<u64>::empty());
    }
    law_transitions_keep_ids(q, worker, result);
    law_push_adds_next_id(q);
    if ids_are_those_given(q) && q.next_id < u64::MAX {
        let q2 = after_push(q);
        assert forall|x: u64| #[trigger] all_ids(q2).count(x) == if x < q2.next_id { 1nat } else { 0nat } by {
            assert(all_ids(q).count(x) == if x < q.next_id { 1nat } else { 0nat });
        }
    }
}

/// One operation on a task store: a push, or a transition of the front task
/// of a state (taken through a handle).
pub enum TaskOp {
    Push,
    Start(u64),
    Complete(i32),
    Fail,
}

/// The store after `op`; a transition from an empty state changes nothing.
pub open spec fn apply_op(q: TaskQueues, op: TaskOp) -> TaskQueues {
    match op {
        TaskOp::Push => after_push(q),
        TaskOp::Start(w) => if q.pending.len() > 0 { after_start(q, w) } else { q },
        TaskOp::Complete(r) => if q.running.len() > 0 { after_complete(q, r) } else { q },
        TaskOp::Fail => if q.running.len() > 0 { after_fail(q) } else { q },
    }
}

/// The store after running `ops` in order from `q`.
pub open spec fn run_ops(q: TaskQueues, ops: Seq<TaskOp>) -> TaskQueues
    decreases ops.len(),
{
    if ops.len() == 0 { q } else { apply_op(run_ops(q, ops.drop_last()), ops.last()) }
}

/// How many pushes `ops` holds.
pub open spec fn push_count(ops: Seq<TaskOp>) -> nat
    decreases ops.len(),
{
    if ops.len() == 0 { 0 } else { push_count(ops.drop_last()) + if ops.last() is Push { 1nat } else { 0nat } }
}

/// A store with no task, whose next id is 0.
pub open spec fn empty_tasks() -> TaskQueues {
    TaskQueues { pending: Seq::empty(), running: Seq::empty(), complete: Seq::empty(), next_id: 0 }
}

/// After any run of operations from a new store with at most `u64::MAX`
/// pushes, the next id is the number of pushes `n` (so the push at each
/// point returned the number of pushes before it), the store holds `n`
/// tasks, and the ids it holds are exactly `0..n`, each once.
pub proof fn law_ids_after_a_run(ops: Seq<TaskOp>)
    requires
        push_count(ops) <= u64::MAX,
    ensures
        run_ops(empty_tasks(), ops).next_id == push_count(ops),
        task_count(run_ops(empty_tasks(), ops)) == push_count(ops),
        ids_are_those_given(run_ops(empty_tasks(), ops)),
    decreases ops.len(),
{
    if ops.len() == 0 {
        law_ids_are_those_given(empty_tasks(), 0, 0);
    } else {
        let prev = ops.drop_last();
        law_ids_after_a_run(prev);
        let q = run_ops(empty_tasks(), prev);
        match ops.last() {
            TaskOp::Push => {
                law_ids_are_those_given(q, 0, 0);
            },
            TaskOp::Start(w) => {
                law_ids_are_those_given(q, w, 0);
            },
            TaskOp::Complete(r) => {
                law_ids_are_those_given(q, 0, r);
            },
            TaskOp::Fail => {
                law_ids_are_those_given(q, 0, 0);
            },
        }
    }
}

/// Per-state FIFO queues of tasks with generated `u64` ids.
#[derive(Debug)]
pub struct TaskStore {
    tasks_pending: VecDeque<TasksPending>,
    tasks_running: VecDeque<TasksRunning>,
    tasks_complete: VecDeque<TasksComplete>,
    tasks_next_id: u64,
}

impl View for TaskStore {
    type V = TaskQueues;

    closed spec fn view(&self) -> TaskQueues {
        TaskQueues {
            pending: self.tasks_pending@,
            running: self.tasks_running@,
            complete: self.tasks_complete@,
            next_id: self.tasks_next_id,
        }
    }
}

impl TaskStore {
    /// Creates an empty store whose first task gets id 0.
    pub fn new() -> (s: Self)
        ensures
            s@ == (TaskQueues {
                pending: Seq::empty(),
                running: Seq::empty(),
                complete: Seq::empty(),
                next_id: 0,
            }),
    {
        let s = TaskStore {
            tasks_pending: VecDeque::new(),
            tasks_running: VecDeque::new(),
            tasks_complete: VecDeque::new(),
            tasks_next_id: 0,
        };
        assert(s@ =~= (TaskQueues {
            pending: Seq::empty(),
            running: Seq::empty(),
            complete: Seq::empty(),
            next_id: 0,
        }));
        s
    }

    /// Appends a new task in the initial state `Pending` and returns its id;
    /// the next task gets the following id.
    pub fn tasks_push(&mut self) -> (id: u64)
        ensures
            id == old(self)@.next_id,
            final(self)@ == after_push(old(self)@),
    {
        let id = self.tasks_next_id;
        self.tasks_next_id = id.wrapping_add(1);
        self.tasks_pending.push_back(TasksPending { id });
        assert(self@ =~= after_push(old(self)@));
        id
    }

    /// Number of tasks over all states.
    pub fn tasks_len(&self) -> (n: usize)
        requires
            task_count(self@) <= usize::MAX,
        ensures
            n == task_count(self@),
    {
        self.tasks_pending.len() + self.tasks_running.len() + self.tasks_complete.len()
    }

    /// Number of tasks in state `Pending`.
    pub fn tasks_pending_len(&self) -> (n: usize)
        ensures
            n == self@.pending.len(),
    {
        self.tasks_pending.len()
    }

    /// Number of tasks in state `Running`.
    pub fn tasks_running_len(&self) -> (n: usize)
        ensures
            n == self@.running.len(),
    {
        self.tasks_running.len()
    }

    /// Number of tasks in state `Complete`.
    pub fn tasks_complete_len(&self) -> (n: usize)
        ensures
            n == self@.complete.len(),
    {
        self.tasks_complete.len()
    }

    /// A handle to the front task in state `Pending`; the store is left as it
    /// is until a transition of the handle is taken.
    pub fn tasks_next_pending(&mut self) -> (handle: Option<TasksPendingHandle<'_>>)
        ensures
            handle is Some <==> old(self)@.pending.len() > 0,
            handle matches Some(h) ==> {
                &&& h.wf()
                &&& h.before() == *old(self)
                &&& *final(self) == *final(h.store_ref())
            },
            handle is None ==> *final(self) == *old(self),
    {
        if self.tasks_pending.len() > 0 {
            Some(TasksPendingHandle { store: self })
        } else {
            None
        }
    }

    /// A handle to the front task in state `Running`; the store is left as it
    /// is until a transition of the handle is taken.
    pub fn tasks_next_running(&mut self) -> (handle: Option<TasksRunningHandle<'_>>)
        ensures
            handle is Some <==> old(self)@.running.len() > 0,
            handle matches Some(h) ==> {
                &&& h.wf()
                &&& h.before() == *old(self)
                &&& *final(self) == *final(h.store_ref())
            },
            handle is None ==> *final(self) == *old(self),
    {
        if self.tasks_running.len() > 0 {
            Some(TasksRunningHandle { store: self })
        } else {
            None
        }
    }

    /// A handle to the front task in state `Complete`; the store is left as it
    /// is until a transition of the handle is taken.
    pub fn tasks_next_complete(&mut self) -> (handle: Option<TasksCompleteHandle<'_>>)
        ensures
            handle is Some <==> old(self)@.complete.len() > 0,
            handle matches Some(h) ==> {
                &&& h.wf()
                &&& h.before() == *old(self)
                &&& *final(self) == *final(h.store_ref())
            },
            handle is None ==> *final(self) == *old(self),
    {
        if self.tasks_complete.len() > 0 {
            Some(TasksCompleteHandle { store: self })
        } else {
            None
        }
    }

    /// A copy of the front task in state `Pending`, which stays where it is.
    pub fn tasks_peek_pending(&self) -> (t: Option<TasksPending>)
        ensures
            t == (if self@.pending.len() > 0 { Some(self@.pending[0]) } else { None::<TasksPending> }),
    {
        if self.tasks_pending.len() > 0 {
            Some(self.tasks_pending[0])
        } else {
            None
        }
    }

    /// A copy of the front task in state `Running`, which stays where it is.
    pub fn tasks_peek_running(&self) -> (t: Option<TasksRunning>)
        ensures
            t == (if self@.running.len() > 0 { Some(self@.running[0]) } else { None::<TasksRunning> }),
    {
        if self.tasks_running.len() > 0 {
            Some(self.tasks_running[0])
        } else {
            None
        }
    }

    /// A copy of the front task in state `Complete`, which stays where it is.
    pub fn tasks_peek_complete(&self) -> (t: Option<TasksComplete>)
        ensures
            t == (if self@.complete.len() > 0 { Some(self@.complete[0]) } else { None::<TasksComplete> }),
    {
        if self.tasks_complete.len() > 0 {
            Some(self.tasks_complete[0])
        } else {
            None
        }
    }
}

/// A handle to the front task in state `Pending` of a [`TaskStore`].
pub struct TasksPendingHandle<'a> {
    store: &'a mut TaskStore,
}

impl<'a> TasksPendingHandle<'a> {
    /// The store the handle points into.
    pub closed spec fn store_ref(&self) -> &'a mut TaskStore {
        self.store
    }

    /// The store as it is while the handle is held.
    pub closed spec fn before(&self) -> TaskStore {
        *self.store
    }

    /// The `Pending` queue is not empty, so the handle has a task.
    pub open spec fn wf(&self) -> bool {
        self.before()@.pending.len() > 0
    }

    /// A handle that is given up without a transition leaves the task at the
    /// front of its queue and the store as it was.
    pub broadcast proof fn lemma_released(self)
        requires
            has_resolved(self),
        ensures
            #[trigger] has_resolved(self) ==> *final(self.store_ref()) == self.before(),
    {
    }

    /// Field `id` of the task.
    pub fn id(&self) -> (v: &u64)
        requires
            self.wf(),
        ensures
            *v == self.before()@.pending[0].id,
    {
        &self.store.tasks_pending[0].id
    }

    /// Pending -> Running on the given worker; the task keeps its id.
    pub fn start(self, worker: u64) -> (r: Result<(), TaskStoreError>)
        requires
            self.wf(),
        ensures
            r is Ok,
            final(self.store_ref())@ == after_start(self.before()@, worker),
    {
        let store = self.store;
        let ghost pre = store@;
        let item = store.tasks_pending.pop_front().unwrap();
        store.tasks_running.push_back(TasksRunning { id: item.id, worker });
        assert(store@ =~= (TaskQueues {
            pending: pre.pending.drop_first(),
            running: pre.running.push(TasksRunning { id: item.id, worker }),
            ..pre
        }));
        Ok(())
    }
}

/// A handle to the front task in state `Running` of a [`TaskStore`].
pub struct TasksRunningHandle<'a> {
    store: &'a mut TaskStore,
}

impl<'a> TasksRunningHandle<'a> {
    /// The store the handle points into.
    pub closed spec fn store_ref(&self) -> &'a mut TaskStore {
        self.store
    }

    /// The store as it is while the handle is held.
    pub closed spec fn before(&self) -> TaskStore {
        *self.store
    }

    /// The `Running` queue is not empty, so the handle has a task.
    pub open spec fn wf(&self) -> bool {
        self.before()@.running.len() > 0
    }

    /// A handle that is given up without a transition leaves the task at the
    /// front of its queue and the store as it was.
    pub broadcast proof fn lemma_released(self)
        requires
            has_resolved(self),
        ensures
            #[trigger] has_resolved(self) ==> *final(self.store_ref()) == self.before(),
    {
    }

    /// Field `id` of the task.
    pub fn id(&self) -> (v: &u64)
        requires
            self.wf(),
        ensures
            *v == self.before()@.running[0].id,
    {
        &self.store.tasks_running[0].id
    }

    /// Field `worker` of the task.
    pub fn worker(&self) -> (v: &u64)
        requires
            self.wf(),
        ensures
            *v == self.before()@.running[0].worker,
    {
        &self.store.tasks_running[0].worker
    }

    /// Running -> Complete with the given result; the task keeps its id.
    pub fn complete(self, result: i32) -> (r: Result<(), TaskStoreError>)
        requires
            self.wf(),
        ensures
            r is Ok,
            final(self.store_ref())@ == after_complete(self.before()@, result),
    {
        let store = self.store;
        let ghost pre = store@;
        let item = store.tasks_running.pop_front().unwrap();
        store.tasks_complete.push_back(TasksComplete { id: item.id, result });
        assert(store@ =~= (TaskQueues {
            running: pre.running.drop_first(),
            complete: pre.complete.push(TasksComplete { id: item.id, result }),
            ..pre
        }));
        Ok(())
    }

    /// Running -> Pending: the task is queued again, with its id.
    pub fn fail(self) -> (r: Result<(), TaskStoreError>)
        requires
            self.wf(),
        ensures
            r is Ok,
            final(self.store_ref())@ == after_fail(self.before()@),
    {
        let store = self.store;
        let ghost pre = store@;
        let item = store.tasks_running.pop_front().unwrap();
        store.tasks_pending.push_back(TasksPending { id: item.id });
        assert(store@ =~= (TaskQueues {
            running: pre.running.drop_first(),
            pending: pre.pending.push(TasksPending { id: item.id }),
            ..pre
        }));
        Ok(())
    }
}

/// A handle to the front task in state `Complete` of a [`TaskStore`].
pub struct TasksCompleteHandle<'a> {
    store: &'a mut TaskStore,
}

impl<'a> TasksCompleteHandle<'a> {
    /// The store the handle points into.
    pub closed spec fn store_ref(&self) -> &'a mut TaskStore {
        self.store
    }

    /// The store as it is while the handle is held.
    pub closed spec fn before(&self) -> TaskStore {
        *self.store
    }

    /// The `Complete` queue is not empty, so the handle has a task.
    pub open spec fn wf(&self) -> bool {
        self.before()@.complete.len() > 0
    }

    /// A handle that is given up without a transition leaves the task at the
    /// front of its queue and the store as it was.
    pub broadcast proof fn lemma_released(self)
        requires
            has_resolved(self),
        ensures
            #[trigger] has_resolved(self) ==> *final(self.store_ref()) == self.before(),
    {
    }

    /// Field `id` of the task.
    pub fn id(&self) -> (v: &u64)
        requires
            self.wf(),
        ensures
            *v == self.before()@.complete[0].id,
    {
        &self.store.tasks_complete[0].id
    }

    /// Field `result` of the task.
    pub fn result(&self) -> (v: &i32)
        requires
            self.wf(),
        ensures
            *v == self.before()@.complete[0].result,
    {
        &self.store.tasks_complete[0].result
    }
}

/// Brings into scope that a handle given up without a transition leaves the
/// store as it was.
pub broadcast group group_task_store_handles {
    TasksPendingHandle::lemma_released,
    TasksRunningHandle::lemma_released,
    TasksCompleteHandle::lemma_released,
}

impl Default for TaskStore {
    /// An empty store whose first task gets id 0.
    fn default() -> (s: Self)
        ensures
            s@ == (TaskQueues {
                pending: Seq::empty(),
                running: Seq::empty(),
                complete: Seq::empty(),
                next_id: 0,
            }),
    {
        TaskStore::new()
    }
}

} // verus!
