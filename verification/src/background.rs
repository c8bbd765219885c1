//! The table of background tasks: admission, completion, cancellation and recovery.
use vstd::prelude::*;
use crate::text::{append_str, byte_prefix, char_boundary, str_eq, usize_to_string, decimal, utf8_len, utf8_truncate};
use crate::text_split::{is_ws};

verus! {

/// Where a background task stands.
#[derive(Debug, Clone, Copy, PartialEq, Eq, Structural)]
pub enum TaskStatus {
    Pending,
    Running,
    Completed,
    Failed,
    Cancelled,
    Lost,
}

/// How a status is written (`{:?}`).
pub open spec fn status_text(s: TaskStatus) -> Seq<char> {
    match s {
        TaskStatus::Pending => "Pending"@,
        TaskStatus::Running => "Running"@,
        TaskStatus::Completed => "Completed"@,
        TaskStatus::Failed => "Failed"@,
        TaskStatus::Cancelled => "Cancelled"@,
        TaskStatus::Lost => "Lost"@,
    }
}

/// How a status is written.
pub fn status_name(s: TaskStatus) -> (r: &'static str)
    ensures
        r@ == status_text(s),
{
    match s {
        TaskStatus::Pending => "Pending",
        TaskStatus::Running => "Running",
        TaskStatus::Completed => "Completed",
        TaskStatus::Failed => "Failed",
        TaskStatus::Cancelled => "Cancelled",
        TaskStatus::Lost => "Lost",
    }
}

/// What to run: a shell command (none for an agent task), where, with which environment and
/// time limit.
#[derive(Debug, Clone)]
pub struct TaskSpec {
    pub command: Option<String>,
    pub cwd: Option<String>,
    pub env: Option<Vec<(String, String)>>,
    pub timeout_secs: Option<u64>,
}

/// A background task. Times are seconds since the Unix epoch, read by the caller.
#[derive(Debug, Clone)]
pub struct BackgroundTask {
    pub id: String,
    pub status: TaskStatus,
    pub spec: TaskSpec,
    pub created_at: i64,
    pub completed_at: Option<i64>,
    pub output: Option<String>,
    pub error: Option<String>,
    pub pid: Option<u32>,
}

pub struct TaskView {
    pub id: Seq<char>,
    pub status: TaskStatus,
    pub created_at: i64,
    pub pid: Option<u32>,
    pub command: Option<Seq<char>>,
    pub cwd: Option<Seq<char>>,
    pub env: Option<Seq<(Seq<char>, Seq<char>)>>,
    pub timeout_secs: Option<u64>,
    pub completed_at: Option<i64>,
    pub output: Option<Seq<char>>,
    pub error: Option<Seq<char>>,
}

pub open spec fn opt_text(s: Option<String>) -> Option<Seq<char>> {
    match s {
        Some(t) => Some(t@),
        None => None,
    }
}

/// An environment as pairs of texts.
pub open spec fn env_view(e: Option<Vec<(String, String)>>) -> Option<Seq<(Seq<char>, Seq<char>)>> {
    match e {
        Some(v) => Some(v@.map_values(|p: (String, String)| (p.0@, p.1@))),
        None => None,
    }
}

impl View for BackgroundTask {
    type V = TaskView;

    open spec fn view(&self) -> TaskView {
        TaskView {
            id: self.id@,
            status: self.status,
            created_at: self.created_at,
            pid: self.pid,
            command: opt_text(self.spec.command),
            cwd: opt_text(self.spec.cwd),
            env: env_view(self.spec.env),
            timeout_secs: self.spec.timeout_secs,
            completed_at: self.completed_at,
            output: opt_text(self.output),
            error: opt_text(self.error),
        }
    }
}

fn copy_opt(s: &Option<String>) -> (r: Option<String>)
    ensures
        opt_text(r) == opt_text(*s),
{
    match s {
        Some(t) => Some(crate::llm::copy_string(t)),
        None => None,
    }
}

impl TaskSpec {
    /// A copy of the spec.
    pub fn duplicate(&self) -> (r: TaskSpec)
        ensures
            opt_text(r.command) == opt_text(self.command),
            opt_text(r.cwd) == opt_text(self.cwd),
            env_view(r.env) == env_view(self.env),
            r.timeout_secs == self.timeout_secs,
    {
        let env = match &self.env {
            Some(pairs) => {
                let mut v: Vec<(String, String)> = Vec::new();
                let mut i: usize = 0;
                while i < pairs.len()
                    invariant
                        i <= pairs@.len(),
                        v@.map_values(|p: (String, String)| (p.0@, p.1@))
                            == pairs@.map_values(|p: (String, String)| (p.0@, p.1@)).take(i as int),
                    decreases pairs@.len() - i,
                {
                    let ghost before = v@;
                    let k = crate::llm::copy_string(&pairs[i].0);
                    let x = crate::llm::copy_string(&pairs[i].1);
                    v.push((k, x));
                    proof {
                        let f = |p: (String, String)| (p.0@, p.1@);
                        assert(v@ == before.push((k, x)));
                        assert(v@.map_values(f) =~= before.map_values(f).push(f((k, x))));
                        assert(f((k, x)) == f(pairs@[i as int]));
                        assert(pairs@.map_values(f).take(i + 1) =~= pairs@.map_values(f).take(i as int).push(
                            f(pairs@[i as int]),
                        ));
                    }
                    i = i + 1;
                }
                assert(pairs@.map_values(|p: (String, String)| (p.0@, p.1@)).take(pairs@.len() as int)
                    =~= pairs@.map_values(|p: (String, String)| (p.0@, p.1@)));
                Some(v)
            },
            None => None,
        };
        TaskSpec {
            command: copy_opt(&self.command),
            cwd: copy_opt(&self.cwd),
            env,
            timeout_secs: self.timeout_secs,
        }
    }
}

impl BackgroundTask {
    /// A pending shell task.
    pub fn new_bash(id: String, spec: TaskSpec, pid: Option<u32>, now: i64) -> (t: BackgroundTask)
        ensures
            t.id@ == id@,
            t.status == TaskStatus::Pending,
            opt_text(t.spec.command) == opt_text(spec.command),
            opt_text(t.spec.cwd) == opt_text(spec.cwd),
            env_view(t.spec.env) == env_view(spec.env),
            t.spec.timeout_secs == spec.timeout_secs,
            t.created_at == now,
            t.completed_at.is_none() && t.output.is_none() && t.error.is_none(),
            t.pid == pid,
    {
        BackgroundTask { id, status: TaskStatus::Pending, spec, created_at: now, completed_at: None, output: None, error: None, pid }
    }

    /// A pending agent task: no command, no process.
    pub fn new_agent(id: String, now: i64) -> (t: BackgroundTask)
        ensures
            t.id@ == id@,
            t.status == TaskStatus::Pending,
            t.spec.command.is_none() && t.spec.cwd.is_none() && t.spec.env.is_none() && t.spec.timeout_secs.is_none(),
            t.created_at == now,
            t.completed_at.is_none() && t.output.is_none() && t.error.is_none() && t.pid.is_none(),
    {
        BackgroundTask {
            id,
            status: TaskStatus::Pending,
            spec: TaskSpec { command: None, cwd: None, env: None, timeout_secs: None },
            created_at: now,
            completed_at: None,
            output: None,
            error: None,
            pid: None,
        }
    }
}

/// The background tasks, at most one per id, with the admission limit and agent time limit.
pub struct TaskTable {
    tasks: Vec<BackgroundTask>,
    max_running: usize,
    agent_task_timeout_secs: u64,
    keep_alive: bool,
}

pub open spec fn tasks_view(ts: Seq<BackgroundTask>) -> Seq<TaskView> {
    ts.map_values(|t: BackgroundTask| t@)
}

/// How many tasks are running.
pub open spec fn running_count(ts: Seq<TaskView>) -> nat
    decreases ts.len(),
{
    if ts.len() == 0 {
        0
    } else {
        running_count(ts.drop_last()) + if ts.last().status == TaskStatus::Running { 1nat } else { 0nat }
    }
}

/// The index of the task with the given id.
pub open spec fn task_index(ts: Seq<TaskView>, id: Seq<char>) -> Option<int> {
    if exists|i: int| 0 <= i < ts.len() && ts[i].id == id {
        Some(choose|i: int| 0 <= i < ts.len() && ts[i].id == id)
    } else {
        None
    }
}

pub open spec fn ids_distinct(ts: Seq<TaskView>) -> bool {
    forall|i: int, j: int| 0 <= i < ts.len() && 0 <= j < ts.len() && i != j ==> ts[i].id != ts[j].id
}

/// Whether a status is final.
pub open spec fn is_terminal(s: TaskStatus) -> bool {
    s == TaskStatus::Completed || s == TaskStatus::Failed || s == TaskStatus::Cancelled
}

impl TaskTable {
    /// The tasks, in the order they were first added.
    pub closed spec fn tasks(&self) -> Seq<TaskView> {
        tasks_view(self.tasks@)
    }

    /// At most this many tasks run at once.
    pub closed spec fn limit(&self) -> nat {
        self.max_running as nat
    }

    /// The time limit of an agent task, in seconds.
    pub closed spec fn agent_timeout(&self) -> nat {
        self.agent_task_timeout_secs as nat
    }

    /// Whether tasks keep running after the program exits.
    pub closed spec fn keeps_alive(&self) -> bool {
        self.keep_alive
    }

    pub open spec fn wf(&self) -> bool {
        ids_distinct(self.tasks())
    }

    /// The time limit of an agent task, in seconds.
    pub fn agent_task_timeout(&self) -> (n: u64)
        ensures
            n == self.agent_timeout(),
    {
        self.agent_task_timeout_secs
    }

    /// Whether tasks keep running after the program exits.
    pub fn keep_alive(&self) -> (b: bool)
        ensures
            b == self.keeps_alive(),
    {
        self.keep_alive
    }

    /// An empty table.
    pub fn new(max_running: usize, agent_task_timeout_secs: u64, keep_alive: bool) -> (t: TaskTable)
        ensures
            t.wf(),
            t.tasks().len() == 0,
            t.limit() == max_running,
            t.agent_timeout() == agent_task_timeout_secs,
            t.keeps_alive() == keep_alive,
    {
        let t = TaskTable { tasks: Vec::new(), max_running, agent_task_timeout_secs, keep_alive };
        assert(t.tasks() =~= Seq::<TaskView>::empty());
        t
    }

    /// Copies of all tasks.
    pub fn list_tasks(&self) -> (r: Vec<BackgroundTask>)
        ensures
            tasks_view(r@) == self.tasks(),
    {
        let mut r: Vec<BackgroundTask> = Vec::new();
        let mut i: usize = 0;
        while i < self.tasks.len()
            invariant
                i <= self.tasks@.len(),
                r@.len() == i,
                forall|j: int| 0 <= j < i ==> (#[trigger] r@[j])@ == self.tasks@[j]@,
            decreases self.tasks@.len() - i,
        {
            let t = &self.tasks[i];
            let c = BackgroundTask {
                id: crate::llm::copy_string(&t.id),
                status: t.status,
                spec: t.spec.duplicate(),
                created_at: t.created_at,
                completed_at: t.completed_at,
                output: copy_opt(&t.output),
                error: copy_opt(&t.error),
                pid: t.pid,
            };
            assert(c@ == t@);
            r.push(c);
            i = i + 1;
        }
        assert(tasks_view(r@) =~= tasks_view(self.tasks@));
        r
    }
}

/// The error a background task operation reports.
pub open spec fn task_error(msg: Seq<char>) -> Seq<char> {
    "background task error: "@ + msg
}

/// The message when no more tasks may run.
pub open spec fn capacity_message(limit: nat) -> Seq<char> {
    task_error("Max running tasks ("@ + decimal(limit) + ") reached. Try again later."@)
}

/// The tasks after one with the given id is added or replaced.
pub open spec fn tasks_insert(ts: Seq<TaskView>, t: TaskView) -> Seq<TaskView> {
    match task_index(ts, t.id) {
        Some(i) => ts.update(i, t),
        None => ts.push(t),
    }
}

/// The tasks after the one with the given id (if any) is changed by `f`.
pub open spec fn tasks_update(ts: Seq<TaskView>, id: Seq<char>, f: spec_fn(TaskView) -> TaskView) -> Seq<TaskView> {
    match task_index(ts, id) {
        Some(i) => ts.update(i, f(ts[i])),
        None => ts,
    }
}

/// A task after it finished with the given result at time `now`.
pub open spec fn finished(t: TaskView, result: Result<Seq<char>, Seq<char>>, now: i64) -> TaskView {
    match result {
        Ok(out) => TaskView { status: TaskStatus::Completed, output: Some(out), completed_at: Some(now), ..t },
        Err(e) => TaskView { status: TaskStatus::Failed, error: Some(e), completed_at: Some(now), ..t },
    }
}

/// A task after it was cancelled at time `now`.
pub open spec fn cancelled(t: TaskView, now: i64) -> TaskView {
    TaskView { status: TaskStatus::Cancelled, completed_at: Some(now), ..t }
}

/// The status of a task found on disk by `recover`: the status file's word, or running when no
/// status was written and the task keeps running after exit, or lost.
pub open spec fn recovered(status: Option<Seq<char>>, keep_alive: bool) -> TaskStatus {
    match status {
        Some(s) => if s == "completed"@ {
            TaskStatus::Completed
        } else if s == "failed"@ {
            TaskStatus::Failed
        } else if s == "cancelled"@ {
            TaskStatus::Cancelled
        } else {
            TaskStatus::Lost
        },
        None => if keep_alive { TaskStatus::Running } else { TaskStatus::Lost },
    }
}

/// The status `reconcile` gives a task that is not running, from its trimmed status file: a new
/// status only when the file says `completed` or `failed` and the task says otherwise.
pub open spec fn reconciled(current: TaskStatus, trimmed_status: Seq<char>) -> Option<TaskStatus> {
    if current == TaskStatus::Running {
        None
    } else if trimmed_status == "completed"@ {
        if current != TaskStatus::Completed { Some(TaskStatus::Completed) } else { None }
    } else if trimmed_status == "failed"@ {
        if current != TaskStatus::Failed { Some(TaskStatus::Failed) } else { None }
    } else {
        None
    }
}

fn task_error_text(msg: &str) -> (r: String)
    ensures
        r@ == task_error(msg@),
{
    let mut r = String::from_str("background task error: ");
    append_str(&mut r, msg);
    r
}

/// The status of a recovered task.
pub fn recovered_status(status: Option<&str>, keep_alive: bool) -> (r: TaskStatus)
    ensures
        r == recovered(crate::shell::opt_str_view(status), keep_alive),
{
    match status {
        Some(s) => {
            if str_eq(s, "completed") {
                TaskStatus::Completed
            } else if str_eq(s, "failed") {
                TaskStatus::Failed
            } else if str_eq(s, "cancelled") {
                TaskStatus::Cancelled
            } else {
                TaskStatus::Lost
            }
        },
        None => if keep_alive { TaskStatus::Running } else { TaskStatus::Lost },
    }
}

/// The new status of a task that is not running, from the text of its status file.
pub fn reconciled_status(current: TaskStatus, status_text: &str) -> (r: Option<TaskStatus>)
    ensures
        r == reconciled(current, crate::text_split::trimmed(status_text@)),
{
    if current == TaskStatus::Running {
        return None;
    }
    let t = crate::text_split::trim(status_text);
    if str_eq(t.as_str(), "completed") {
        if current != TaskStatus::Completed { Some(TaskStatus::Completed) } else { None }
    } else if str_eq(t.as_str(), "failed") {
        if current != TaskStatus::Failed { Some(TaskStatus::Failed) } else { None }
    } else {
        None
    }
}

/// The command of a shell task, or the error when the spec has none.
pub fn bash_command(spec: &TaskSpec) -> (r: Result<String, String>)
    ensures
        match (spec.command, r) {
            (Some(c), Ok(x)) => x@ == c@,
            (None, Err(e)) => e@ == task_error("No command specified"@),
            _ => false,
        },
{
    match &spec.command {
        Some(c) => Ok(crate::llm::copy_string(c)),
        None => Err(task_error_text("No command specified")),
    }
}

/// Adds a line of a running command's output: standard error lines are marked `[stderr] `.
pub fn add_output_line(output: &mut String, line: &str, from_stderr: bool)
    ensures
        final(output)@ == old(output)@ + (if from_stderr { "[stderr] "@ } else { Seq::empty() }) + line@ + "\n"@,
{
    if from_stderr {
        append_str(output, "[stderr] ");
    } else {
        assert(old(output)@ + Seq::<char>::empty() =~= old(output)@);
    }
    append_str(output, line);
    append_str(output, "\n");
}

/// How a shell task ended: its output, the command's error, or the time limit (`None`).
pub fn monitor_result(outcome: Option<Result<(), String>>, output: String) -> (r: Result<String, String>)
    ensures
        match (outcome, r) {
            (Some(Ok(())), Ok(x)) => x@ == output@,
            (Some(Err(e)), Err(x)) => x@ == e@,
            (None, Err(x)) => x@ == task_error("Task timed out"@),
            _ => false,
        },
{
    match outcome {
        Some(Ok(())) => Ok(output),
        Some(Err(e)) => Err(e),
        None => Err(task_error_text("Task timed out")),
    }
}

/// How an agent task ended: its answer, its error, or the time limit (`None`).
pub fn agent_task_result(outcome: Option<Result<String, String>>) -> (r: Result<String, String>)
    ensures
        match (outcome, r) {
            (Some(Ok(a)), Ok(x)) => x@ == a@,
            (Some(Err(e)), Err(x)) => x@ == e@,
            (None, Err(x)) => x@ == "Agent task timed out"@,
            _ => false,
        },
{
    match outcome {
        Some(res) => res,
        None => Err(String::from_str("Agent task timed out")),
    }
}

/// What an agent task without a prompt answers.
pub fn empty_prompt_answer() -> (r: String)
    ensures
        r@ == "Agent task completed with no prompt."@,
{
    String::from_str("Agent task completed with no prompt.")
}

impl TaskTable {
    fn find(&self, id: &str) -> (r: Option<usize>)
        requires
            self.wf(),
        ensures
            match r {
                Some(i) => i < self.tasks().len() && self.tasks()[i as int].id == id@ && task_index(self.tasks(), id@) == Some(i as int),
                None => task_index(self.tasks(), id@).is_none(),
            },
    {
        let mut i: usize = 0;
        while i < self.tasks.len()
            invariant
                i <= self.tasks@.len(),
                self.wf(),
                forall|j: int| 0 <= j < i ==> self.tasks()[j].id != id@,
            decreases self.tasks@.len() - i,
        {
            if str_eq(self.tasks[i].id.as_str(), id) {
                proof {
                    assert(self.tasks()[i as int] == self.tasks@[i as int]@);
                    let k = choose|k: int| 0 <= k < self.tasks().len() && self.tasks()[k].id == id@;
                    if k != i {
                        assert(ids_distinct(self.tasks()));
                        assert(self.tasks()[k].id != self.tasks()[i as int].id);
                    }
                }
                return Some(i);
            }
            i = i + 1;
        }
        None
    }

    /// How many tasks are running.
    pub fn running(&self) -> (n: usize)
        ensures
            n == running_count(self.tasks()),
    {
        let ghost ts = self.tasks();
        let mut n: usize = 0;
        let mut i: usize = 0;
        while i < self.tasks.len()
            invariant
                i <= self.tasks@.len(),
                ts == self.tasks(),
                n == running_count(ts.take(i as int)),
                n <= i,
            decreases self.tasks@.len() - i,
        {
            assert(ts.take(i + 1).drop_last() =~= ts.take(i as int));
            if self.tasks[i].status == TaskStatus::Running {
                n = n + 1;
            }
            i = i + 1;
        }
        assert(ts.take(ts.len() as int) =~= ts);
        n
    }

    /// Whether another task may start: an error when the running tasks already reach the limit.
    pub fn check_capacity(&self) -> (r: Result<(), String>)
        ensures
            r is Ok <==> running_count(self.tasks()) < self.limit(),
            r is Err ==> r->Err_0@ == capacity_message(self.limit()),
    {
        let running = self.running();
        if running >= self.max_running {
            let mut e = task_error_text("Max running tasks (");
            append_str(&mut e, usize_to_string(self.max_running).as_str());
            append_str(&mut e, ") reached. Try again later.");
            Err(e)
        } else {
            Ok(())
        }
    }

    /// Adds a task, replacing the one with the same id.
    pub fn insert(&mut self, task: BackgroundTask)
        requires
            old(self).wf(),
        ensures
            final(self).wf(),
            final(self).tasks() == tasks_insert(old(self).tasks(), task@),
            final(self).limit() == old(self).limit(),
            final(self).agent_timeout() == old(self).agent_timeout(),
            final(self).keeps_alive() == old(self).keeps_alive(),
    {
        let ghost tv = task@;
        let ghost before = self.tasks();
        match self.find(task.id.as_str()) {
            Some(i) => {
                self.tasks.set(i, task);
                assert(self.tasks() =~= before.update(i as int, tv));
            },
            None => {
                self.tasks.push(task);
                assert(self.tasks() =~= before.push(tv));
            },
        }
    }

    /// The task with the given id.
    pub fn get_task(&self, id: &str) -> (r: Option<&BackgroundTask>)
        requires
            self.wf(),
        ensures
            match task_index(self.tasks(), id@) {
                Some(i) => r.is_some() && r.unwrap()@ == self.tasks()[i],
                None => r.is_none(),
            },
    {
        match self.find(id) {
            Some(i) => Some(&self.tasks[i]),
            None => None,
        }
    }

    /// Records how the task with the given id ended, at time `now`.
    pub fn finish(&mut self, id: &str, result: Result<String, String>, now: i64)
        requires
            old(self).wf(),
        ensures
            final(self).wf(),
            final(self).tasks() == tasks_update(old(self).tasks(), id@, |t: TaskView| finished(t, crate::slash::result_text(result), now)),
            final(self).limit() == old(self).limit(),
    {
        let ghost before = self.tasks();
        let ghost rv = crate::slash::result_text(result);
        if let Some(i) = self.find(id) {
            let t = &self.tasks[i];
            let updated = match result {
                Ok(out) => BackgroundTask {
                    id: crate::llm::copy_string(&t.id),
                    status: TaskStatus::Completed,
                    spec: t.spec.duplicate(),
                    created_at: t.created_at,
                    completed_at: Some(now),
                    output: Some(out),
                    error: copy_opt(&t.error),
                    pid: t.pid,
                },
                Err(e) => BackgroundTask {
                    id: crate::llm::copy_string(&t.id),
                    status: TaskStatus::Failed,
                    spec: t.spec.duplicate(),
                    created_at: t.created_at,
                    completed_at: Some(now),
                    output: copy_opt(&t.output),
                    error: Some(e),
                    pid: t.pid,
                },
            };
            assert(updated@ == finished(before[i as int], rv, now));
            self.tasks.set(i, updated);
            assert(self.tasks() =~= before.update(i as int, finished(before[i as int], rv, now)));
        }
    }

    /// Marks the task with the given id cancelled at time `now`.
    pub fn kill(&mut self, id: &str, now: i64)
        requires
            old(self).wf(),
        ensures
            final(self).wf(),
            final(self).tasks() == tasks_update(old(self).tasks(), id@, |t: TaskView| cancelled(t, now)),
            final(self).limit() == old(self).limit(),
    {
        let ghost before = self.tasks();
        if let Some(i) = self.find(id) {
            let t = &self.tasks[i];
            let updated = BackgroundTask {
                id: crate::llm::copy_string(&t.id),
                status: TaskStatus::Cancelled,
                spec: t.spec.duplicate(),
                created_at: t.created_at,
                completed_at: Some(now),
                output: copy_opt(&t.output),
                error: copy_opt(&t.error),
                pid: t.pid,
            };
            assert(updated@ == cancelled(before[i as int], now));
            self.tasks.set(i, updated);
            assert(self.tasks() =~= before.update(i as int, cancelled(before[i as int], now)));
        }
    }

    /// Whether the task with the given id has ended; an error when there is no such task.
    pub fn wait_poll(&self, id: &str) -> (r: Result<bool, String>)
        requires
            self.wf(),
        ensures
            match task_index(self.tasks(), id@) {
                Some(i) => r == Ok::<bool, String>(is_terminal(self.tasks()[i].status)),
                None => r is Err && r->Err_0@ == task_error("Task "@ + id@ + " not found"@),
            },
    {
        match self.find(id) {
            Some(i) => {
                let s = self.tasks[i].status;
                Ok(s == TaskStatus::Completed || s == TaskStatus::Failed || s == TaskStatus::Cancelled)
            },
            None => {
                let mut e = task_error_text("Task ");
                append_str(&mut e, id);
                append_str(&mut e, " not found");
                Err(e)
            },
        }
    }

    /// Whether a task directory found on disk is taken up by `recover`: it has a name and no
    /// task has it yet.
    pub fn wants_recovery(&self, id: &str) -> (b: bool)
        requires
            self.wf(),
        ensures
            b == (id@.len() > 0 && task_index(self.tasks(), id@).is_none()),
    {
        !id.is_empty() && self.find(id).is_none()
    }
}

/// A task found on disk: no spec, finished at `now` with the recovered status.
pub fn recovered_task(
    id: String,
    status_text: Option<&str>,
    keep_alive: bool,
    output: Option<String>,
    error: Option<String>,
    now: i64,
) -> (t: BackgroundTask)
    ensures
        t@ == (TaskView {
            id: id@,
            status: recovered(crate::shell::opt_str_view(status_text), keep_alive),
            created_at: now,
            pid: None,
            command: None,
            cwd: None,
            env: None,
            timeout_secs: None,
            completed_at: Some(now),
            output: opt_text(output),
            error: opt_text(error),
        }),
{
    BackgroundTask {
        id,
        status: recovered_status(status_text, keep_alive),
        spec: TaskSpec { command: None, cwd: None, env: None, timeout_secs: None },
        created_at: now,
        completed_at: Some(now),
        output,
        error,
        pid: None,
    }
}

/// The listing of the `ListTasks` tool: each task's short id, status and command.
pub open spec fn task_listing(ts: Seq<TaskView>) -> Seq<char>
    decreases ts.len(),
{
    if ts.len() == 0 {
        "Background tasks:\n"@
    } else {
        task_listing(ts.drop_last()) + "  "@ + utf8_truncate(ts.last().id, 8) + " - "@ + status_text(ts.last().status)
            + " - "@ + (match ts.last().command { Some(c) => c, None => "agent task"@ }) + "\n"@
    }
}

/// What `ListTasks` answers.
pub fn list_tasks_text(tasks: &Vec<BackgroundTask>) -> (r: String)
    requires
        forall|i: int| 0 <= i < tasks@.len() ==> utf8_len((#[trigger] tasks@[i]).id@) >= 8 && char_boundary(tasks@[i].id@, 8),
    ensures
        tasks@.len() == 0 ==> r@ == "No background tasks."@,
        tasks@.len() > 0 ==> r@ == task_listing(tasks_view(tasks@)),
{
    if tasks.len() == 0 {
        return String::from_str("No background tasks.");
    }
    let ghost tv = tasks_view(tasks@);
    let mut out = String::from_str("Background tasks:\n");
    let mut i: usize = 0;
    while i < tasks.len()
        invariant
            i <= tasks@.len(),
            tv == tasks_view(tasks@),
            forall|k: int| 0 <= k < tasks@.len() ==> utf8_len((#[trigger] tasks@[k]).id@) >= 8 && char_boundary(tasks@[k].id@, 8),
            out@ == task_listing(tv.take(i as int)),
        decreases tasks@.len() - i,
    {
        let t = &tasks[i];
        assert(utf8_len(tasks@[i as int].id@) >= 8 && char_boundary(tasks@[i as int].id@, 8));
        append_str(&mut out, "  ");
        append_str(&mut out, byte_prefix(t.id.as_str(), 8));
        append_str(&mut out, " - ");
        append_str(&mut out, status_name(t.status));
        append_str(&mut out, " - ");
        match &t.spec.command {
            Some(c) => append_str(&mut out, c.as_str()),
            None => append_str(&mut out, "agent task"),
        }
        append_str(&mut out, "\n");
        proof {
            let s = tv.take(i + 1);
            assert(s.drop_last() =~= tv.take(i as int));
            assert(s.last() == tasks@[i as int]@);
        }
        i = i + 1;
    }
    assert(tv.take(tasks@.len() as int) =~= tv);
    out
}

/// What the `BackgroundTask` tool answers once the task started.
pub fn task_started_text(id: &str) -> (r: String)
    ensures
        r@ == "Background task started with ID: "@ + id@ + "\nUse /tasks or ListTasks to check status."@,
{
    let mut s = String::from_str("Background task started with ID: ");
    append_str(&mut s, id);
    append_str(&mut s, "\nUse /tasks or ListTasks to check status.");
    s
}

/// Law: a task that finished, or was cancelled, has ended: waiting for it is over.
pub proof fn lemma_finished_task_ended(ts: Seq<TaskView>, id: Seq<char>, result: Result<Seq<char>, Seq<char>>, now: i64)
    requires
        task_index(ts, id).is_some(),
    ensures
        is_terminal(tasks_update(ts, id, |t: TaskView| finished(t, result, now))[task_index(ts, id).unwrap()].status),
        is_terminal(tasks_update(ts, id, |t: TaskView| cancelled(t, now))[task_index(ts, id).unwrap()].status),
        tasks_update(ts, id, |t: TaskView| finished(t, result, now)).len() == ts.len(),
{
}

} // verus!
