use vstd::prelude::*;

verus! {

/// One hook run: the script to run and the two arguments it is given, the
/// elapsed time as `HH:MM:SS` and the name of the active application.
pub struct DispatchTask {
    pub script: String,
    pub time: String,
    pub app_name: String,
}

/// The queue of hook runs that wait for the worker, oldest first. Tasks leave
/// it in the order in which they were submitted.
pub struct CommandExecutor {
    pending: Vec<DispatchTask>,
}

impl View for CommandExecutor {
    type V = Seq<DispatchTask>;

    closed spec fn view(&self) -> Seq<DispatchTask> {
        self.pending@
    }
}

/// The queue after submitting each task of `ts` in turn.
pub open spec fn after_submissions(q: Seq<DispatchTask>, ts: Seq<DispatchTask>) -> Seq<DispatchTask>
    decreases ts.len(),
{
    if ts.len() == 0 {
        q
    } else {
        after_submissions(q.push(ts[0]), ts.drop_first())
    }
}

/// The tasks in the order in which taking them one at a time hands them out,
/// until the queue is empty.
pub open spec fn drain_order(q: Seq<DispatchTask>) -> Seq<DispatchTask>
    decreases q.len(),
{
    if q.len() == 0 {
        Seq::empty()
    } else {
        seq![q[0]] + drain_order(q.drop_first())
    }
}

proof fn lemma_after_submissions(q: Seq<DispatchTask>, ts: Seq<DispatchTask>)
    ensures
        after_submissions(q, ts) == q + ts,
    decreases ts.len(),
{
    if ts.len() > 0 {
        lemma_after_submissions(q.push(ts[0]), ts.drop_first());
        assert(q.push(ts[0]) + ts.drop_first() =~= q + ts);
    } else {
        assert(q + ts =~= q);
    }
}

proof fn lemma_drain_order(q: Seq<DispatchTask>)
    ensures
        drain_order(q) == q,
    decreases q.len(),
{
    if q.len() > 0 {
        lemma_drain_order(q.drop_first());
        assert(seq![q[0]] + q.drop_first() =~= q);
    } else {
        assert(q =~= Seq::<DispatchTask>::empty());
    }
}

/// Tasks submitted one after another are handed out in exactly that order,
/// after those that were already waiting.
pub proof fn lemma_fifo(q: Seq<DispatchTask>, ts: Seq<DispatchTask>)
    ensures
        drain_order(after_submissions(q, ts)) == q + ts,
{
    lemma_after_submissions(q, ts);
    lemma_drain_order(q + ts);
}

impl CommandExecutor {
    /// An empty queue.
    pub fn new() -> (e: CommandExecutor)
        ensures
            e@ == Seq::<DispatchTask>::empty(),
    {
        CommandExecutor { pending: Vec::new() }
    }

    /// Queues a run of the script at `script_path` with `time` and `app_name`
    /// as its arguments, behind every task already waiting.
    pub fn execute(&mut self, script_path: String, time: String, app_name: String)
        ensures
            final(self)@ == old(self)@.push(
                (DispatchTask { script: script_path, time: time, app_name: app_name }),
            ),
    {
        self.pending.push(DispatchTask { script: script_path, time, app_name });
    }

    /// Queues `task` behind every task already waiting.
    pub fn submit(&mut self, task: DispatchTask)
        ensures
            final(self)@ == old(self)@.push(task),
    {
        self.pending.push(task);
    }

    /// Takes the oldest waiting task, if any.
    pub fn take_next(&mut self) -> (r: Option<DispatchTask>)
        ensures
            old(self)@.len() == 0 ==> r is None && final(self)@ == old(self)@,
            old(self)@.len() > 0 ==> r == Some(old(self)@[0]) && final(self)@
                == old(self)@.drop_first(),
    {
        if self.pending.len() == 0 {
            None
        } else {
            let t = self.pending.remove(0);
            assert(self.pending@ =~= old(self)@.drop_first());
            Some(t)
        }
    }

    /// The number of tasks waiting.
    pub fn pending_count(&self) -> (r: usize)
        ensures
            r == self@.len(),
    {
        self.pending.len()
    }
}

} // verus!
