//! A bounded work pool: which task may start next, so that no more than a
//! fixed number run at once, and what became of each.
//!
//! The pool does no work itself. Its driver asks it for a task to start,
//! runs that task, and reports back whether it succeeded; a failure is
//! recorded and never stops the other tasks.

use vstd::prelude::*;

verus! {

/// Where one task stands.
#[derive(Clone, Copy, Debug, PartialEq, Eq, Structural)]
pub enum TaskState {
    Waiting,
    Running,
    Succeeded,
    Failed,
}

/// How many tasks of `s` are in state `st`.
pub open spec fn count_state(s: Seq<TaskState>, st: TaskState) -> nat
    decreases s.len(),
{
    if s.len() == 0 {
        0
    } else {
        count_state(s.drop_last(), st) + if s.last() == st {
            1nat
        } else {
            0nat
        }
    }
}

pub proof fn lemma_count_push(s: Seq<TaskState>, x: TaskState, st: TaskState)
    ensures
        count_state(s.push(x), st) == count_state(s, st) + if x == st {
            1nat
        } else {
            0nat
        },
{
    assert(s.push(x).drop_last() =~= s);
}

pub proof fn lemma_count_update(s: Seq<TaskState>, i: int, x: TaskState, st: TaskState)
    requires
        0 <= i < s.len(),
    ensures
        count_state(s.update(i, x), st) + (if s[i] == st {
            1nat
        } else {
            0nat
        }) == count_state(s, st) + if x == st {
            1nat
        } else {
            0nat
        },
    decreases s.len(),
{
    if i == s.len() - 1 {
        assert(s.update(i, x).drop_last() =~= s.drop_last());
    } else {
        lemma_count_update(s.drop_last(), i, x, st);
        assert(s.update(i, x).drop_last() =~= s.drop_last().update(i, x));
    }
}

/// The four counts add up to the number of tasks.
pub proof fn lemma_count_total(s: Seq<TaskState>)
    ensures
        count_state(s, TaskState::Waiting) + count_state(s, TaskState::Running) + count_state(
            s,
            TaskState::Succeeded,
        ) + count_state(s, TaskState::Failed) == s.len(),
    decreases s.len(),
{
    if s.len() > 0 {
        lemma_count_total(s.drop_last());
    }
}

/// No task of `s` is in state `st`.
pub proof fn lemma_count_zero(s: Seq<TaskState>, st: TaskState)
    requires
        count_state(s, st) == 0,
    ensures
        forall|i: int| 0 <= i < s.len() ==> s[i] != st,
    decreases s.len(),
{
    if s.len() > 0 {
        lemma_count_zero(s.drop_last(), st);
        assert forall|i: int| 0 <= i < s.len() implies s[i] != st by {
            if i < s.len() - 1 {
                assert(s.drop_last()[i] == s[i]);
            }
        }
    }
}

pub struct WorkPool {
    limit: usize,
    next: usize,
    running: usize,
    succeeded: usize,
    failed: usize,
    states: Vec<TaskState>,
}

impl View for WorkPool {
    type V = Seq<TaskState>;

    /// The state of each task.
    closed spec fn view(&self) -> Seq<TaskState> {
        self.states@
    }
}

impl WorkPool {
    /// The most tasks that may run at once.
    pub closed spec fn spec_limit(&self) -> nat {
        self.limit as nat
    }

    /// The pool is consistent: tasks start in order, the counters agree with
    /// the states, and no more than `limit` tasks run.
    pub closed spec fn wf(&self) -> bool {
        &&& self.limit >= 1
        &&& self.next <= self.states@.len()
        &&& forall|i: int| 0 <= i < self.next ==> self.states@[i] != TaskState::Waiting
        &&& forall|i: int|
            self.next <= i < self.states@.len() ==> self.states@[i] == TaskState::Waiting
        &&& self.running == count_state(self.states@, TaskState::Running)
        &&& self.succeeded == count_state(self.states@, TaskState::Succeeded)
        &&& self.failed == count_state(self.states@, TaskState::Failed)
        &&& self.running <= self.limit
    }

    /// A pool of `tasks` waiting tasks, of which at most `limit` may run at once.
    pub fn new(tasks: usize, limit: usize) -> (r: WorkPool)
        requires
            limit >= 1,
        ensures
            r.wf(),
            r@ == Seq::new(tasks as nat, |i: int| TaskState::Waiting),
            r.spec_limit() == limit,
    {
        let mut states: Vec<TaskState> = Vec::new();
        let mut i: usize = 0;
        while i < tasks
            invariant
                i <= tasks,
                states@ =~= Seq::new(i as nat, |k: int| TaskState::Waiting),
                count_state(states@, TaskState::Running) == 0,
                count_state(states@, TaskState::Succeeded) == 0,
                count_state(states@, TaskState::Failed) == 0,
            decreases tasks - i,
        {
            proof {
                lemma_count_push(states@, TaskState::Waiting, TaskState::Running);
                lemma_count_push(states@, TaskState::Waiting, TaskState::Succeeded);
                lemma_count_push(states@, TaskState::Waiting, TaskState::Failed);
            }
            states.push(TaskState::Waiting);
            i = i + 1;
        }
        WorkPool { limit, next: 0, running: 0, succeeded: 0, failed: 0, states }
    }

    /// Starts the next waiting task, if one waits and fewer than `limit` run.
    pub fn try_start(&mut self) -> (r: Option<usize>)
        requires
            old(self).wf(),
        ensures
            final(self).wf(),
            final(self).spec_limit() == old(self).spec_limit(),
            r matches Some(i) ==> old(self)@[i as int] == TaskState::Waiting && final(self)@
                == old(self)@.update(i as int, TaskState::Running),
            r is None ==> final(self)@ == old(self)@,
            r is None <==> (count_state(old(self)@, TaskState::Running) == old(self).spec_limit()
                || count_state(old(self)@, TaskState::Waiting) == 0),
    {
        proof {
            lemma_count_total(self.states@);
            if self.next < self.states@.len() {
                assert(self.states@[self.next as int] == TaskState::Waiting);
                if count_state(self.states@, TaskState::Waiting) == 0 {
                    lemma_count_zero(self.states@, TaskState::Waiting);
                }
            } else {
                assert(count_state(self.states@, TaskState::Waiting) == 0) by {
                    lemma_count_waiting_prefix(self.states@, self.next as int);
                }
            }
        }
        if self.running < self.limit && self.next < self.states.len() {
            let i = self.next;
            proof {
                lemma_count_update(self.states@, i as int, TaskState::Running, TaskState::Running);
                lemma_count_update(self.states@, i as int, TaskState::Running, TaskState::Succeeded);
                lemma_count_update(self.states@, i as int, TaskState::Running, TaskState::Failed);
            }
            self.states.set(i, TaskState::Running);
            self.next = i + 1;
            self.running = self.running + 1;
            Some(i)
        } else {
            None
        }
    }

    /// Records that running task `task` ended, well or not.
    pub fn finish(&mut self, task: usize, ok: bool)
        requires
            old(self).wf(),
            task < old(self)@.len(),
            old(self)@[task as int] == TaskState::Running,
        ensures
            final(self).wf(),
            final(self).spec_limit() == old(self).spec_limit(),
            final(self)@ == old(self)@.update(
                task as int,
                if ok {
                    TaskState::Succeeded
                } else {
                    TaskState::Failed
                },
            ),
    {
        let st = if ok {
            TaskState::Succeeded
        } else {
            TaskState::Failed
        };
        let n = self.states.len();
        proof {
            assert(self.states@[task as int] == TaskState::Running);
            lemma_count_update(self.states@, task as int, st, TaskState::Running);
            lemma_count_update(self.states@, task as int, st, TaskState::Succeeded);
            lemma_count_update(self.states@, task as int, st, TaskState::Failed);
            lemma_count_total(self.states@);
        }
        self.states.set(task, st);
        self.running = self.running - 1;
        if ok {
            self.succeeded = self.succeeded + 1;
        } else {
            self.failed = self.failed + 1;
        }
    }

    /// Whether every task has ended.
    pub fn is_done(&self) -> (r: bool)
        requires
            self.wf(),
        ensures
            r == (count_state(self@, TaskState::Waiting) == 0 && count_state(
                self@,
                TaskState::Running,
            ) == 0),
    {
        proof {
            if self.next < self.states@.len() {
                assert(self.states@[self.next as int] == TaskState::Waiting);
                if count_state(self.states@, TaskState::Waiting) == 0 {
                    lemma_count_zero(self.states@, TaskState::Waiting);
                }
            } else {
                lemma_count_waiting_prefix(self.states@, self.next as int);
            }
        }
        self.next == self.states.len() && self.running == 0
    }

    /// How many tasks run now.
    pub fn running(&self) -> (r: usize)
        requires
            self.wf(),
        ensures
            r == count_state(self@, TaskState::Running),
    {
        self.running
    }

    /// How many tasks ended well.
    pub fn succeeded(&self) -> (r: usize)
        requires
            self.wf(),
        ensures
            r == count_state(self@, TaskState::Succeeded),
    {
        self.succeeded
    }

    /// How many tasks failed.
    pub fn failed(&self) -> (r: usize)
        requires
            self.wf(),
        ensures
            r == count_state(self@, TaskState::Failed),
    {
        self.failed
    }

    /// The number of tasks.
    pub fn tasks(&self) -> (r: usize)
        ensures
            r == self@.len(),
    {
        self.states.len()
    }

    /// Where task `task` stands.
    pub fn state(&self, task: usize) -> (r: TaskState)
        requires
            task < self@.len(),
        ensures
            r == self@[task as int],
    {
        self.states[task]
    }

    /// A consistent pool never has more than its limit of tasks running.
    pub proof fn lemma_bounded(&self)
        requires
            self.wf(),
        ensures
            count_state(self@, TaskState::Running) <= self.spec_limit(),
    {
    }

    /// Once a consistent pool is done, each task has either succeeded or
    /// failed, and the two counts add up to the number of tasks.
    pub proof fn lemma_done_accounts(&self)
        requires
            self.wf(),
            count_state(self@, TaskState::Waiting) == 0,
            count_state(self@, TaskState::Running) == 0,
        ensures
            count_state(self@, TaskState::Succeeded) + count_state(self@, TaskState::Failed)
                == self@.len(),
            forall|i: int|
                0 <= i < self@.len() ==> self@[i] == TaskState::Succeeded || self@[i]
                    == TaskState::Failed,
    {
        lemma_count_total(self@);
        lemma_count_zero(self@, TaskState::Waiting);
        lemma_count_zero(self@, TaskState::Running);
    }
}

/// When the tasks before `n` have started and those from `n` on wait, the
/// number waiting is the number from `n` on.
proof fn lemma_count_waiting_prefix(s: Seq<TaskState>, n: int)
    requires
        0 <= n <= s.len(),
        forall|i: int| 0 <= i < n ==> s[i] != TaskState::Waiting,
        forall|i: int| n <= i < s.len() ==> s[i] == TaskState::Waiting,
    ensures
        count_state(s, TaskState::Waiting) == s.len() - n,
    decreases s.len(),
{
    if s.len() > 0 {
        if n == s.len() {
            lemma_count_waiting_prefix(s.drop_last(), n - 1);
        } else {
            lemma_count_waiting_prefix(s.drop_last(), n);
        }
    }
}

} // verus!
