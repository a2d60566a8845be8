use vstd::prelude::*;
use vstd::string::StringExecFns;

use crate::request::models::RequestIdResult;
use crate::utils::command::{
    failure_text, CommandExecutionMode, CommandOutputError, ExternalCommand, IoErrorKind,
    IoFailure,
};
use crate::utils::output::{copy_bytes, Output};

verus! {

/// One thing a job does to the host.
pub enum Operation {
    /// Creates a directory and its missing parents.
    CreateDir { path: String },
    /// Writes `content` to the file at `path`, replacing what it held.
    WriteFile { path: String, content: String },
    /// Writes the host platform, read from the output of the command run
    /// just before, to the file at `path`.
    WriteHostPlatform { path: String },
    /// Copies the directory tree at `from` into `to`.
    CopyDir { from: String, to: String },
    /// Deletes a directory and everything in it.
    RemoveDir { path: String },
    /// Deletes a file.
    RemoveFile { path: String },
    /// Runs an external command.
    Run { command: ExternalCommand, mode: CommandExecutionMode },
}

/// What a failed step means for its job.
#[derive(PartialEq, Eq, Structural, Clone, Copy, Debug)]
pub enum OnFailure {
    /// The job ends with an error.
    Abort,
    /// The job goes on as if the step had succeeded.
    Ignore,
    /// A target that is not there counts as done; any other failure ends
    /// the job.
    AbsentOk,
    /// As `AbsentOk`; besides, the step is tried once more where the first
    /// try finds the directory not empty.
    AbsentOkRetryNotEmpty,
}

/// A step of a job: what it does, what a failure means, and the words that
/// open its error message.
pub struct Step {
    pub op: Operation,
    pub on_failure: OnFailure,
    pub context: String,
}

/// Why a step failed.
#[allow(inconsistent_fields)]
pub enum Failure {
    Io { e: IoFailure },
    Command { e: CommandOutputError },
}

/// How a step went: done, with what the command printed (empty for other
/// operations); or failed.
pub enum Outcome {
    Done { output: Vec<u8> },
    Failed { failure: Failure },
}

/// The steps of a job, and whether its success carries the output of its
/// last command.
pub struct Plan {
    pub steps: Vec<Step>,
    pub body_from_output: bool,
}

/// A result as text.
pub enum ResultView {
    Success { body: Option<Seq<char>> },
    Error { error: Seq<char> },
}

/// The text of a result.
pub open spec fn result_view(r: RequestIdResult) -> ResultView {
    match r {
        RequestIdResult::Success { body } => ResultView::Success {
            body: match body {
                Some(b) => Some(b@),
                None => None,
            },
        },
        RequestIdResult::Error { error } => ResultView::Error { error: error@ },
    }
}

/// Where a job stands: the next step, whether that step has been retried,
/// the output of the last command, the outcome each passed step had, and
/// the result once the job has ended.
pub struct RunState {
    pub pos: nat,
    pub retried: bool,
    pub last_output: Seq<u8>,
    pub passed: Seq<Outcome>,
    pub result: Option<ResultView>,
}

/// Whether `f` says that the target was not there.
pub open spec fn is_absent(f: Failure) -> bool {
    f matches Failure::Io { e } && e.kind == IoErrorKind::NotFound
}

/// Whether `f` says that a directory was not empty.
pub open spec fn is_not_empty(f: Failure) -> bool {
    f matches Failure::Io { e } && e.kind == IoErrorKind::DirectoryNotEmpty
}

/// The message of a failure.
pub open spec fn failure_message(f: Failure) -> Seq<char> {
    match f {
        Failure::Io { e } => e.message@,
        Failure::Command { e } => failure_text(e),
    }
}

/// Whether `o` lets the job go past a step with policy `p`.
pub open spec fn acceptable(p: OnFailure, o: Outcome) -> bool {
    match o {
        Outcome::Done { .. } => true,
        Outcome::Failed { failure } => match p {
            OnFailure::Abort => false,
            OnFailure::Ignore => true,
            OnFailure::AbsentOk => is_absent(failure),
            OnFailure::AbsentOkRetryNotEmpty => is_absent(failure),
        },
    }
}

/// The body of a successful job: the last command's output where the plan
/// asks for it and it is text.
pub open spec fn success_body(body_from_output: bool, out: Seq<u8>) -> Option<Seq<char>> {
    if body_from_output && vstd::utf8::valid_utf8(out) {
        Some(vstd::utf8::decode_utf8(out))
    } else {
        None
    }
}

/// A job that has not started.
pub open spec fn start_state(steps: Seq<Step>, body_from_output: bool) -> RunState {
    RunState {
        pos: 0,
        retried: false,
        last_output: Seq::empty(),
        passed: Seq::empty(),
        result: if steps.len() == 0 {
            Some(ResultView::Success { body: success_body(body_from_output, Seq::empty()) })
        } else {
            None
        },
    }
}

/// The job after it goes past its current step with outcome `o`.
pub open spec fn proceed(
    steps: Seq<Step>,
    body_from_output: bool,
    s: RunState,
    o: Outcome,
    out: Seq<u8>,
) -> RunState {
    RunState {
        pos: s.pos + 1,
        retried: false,
        last_output: out,
        passed: s.passed.push(o),
        result: if s.pos + 1 == steps.len() {
            Some(ResultView::Success { body: success_body(body_from_output, out) })
        } else {
            None
        },
    }
}

/// The job after its current step fails for good with `f`.
pub open spec fn abort(steps: Seq<Step>, s: RunState, f: Failure) -> RunState {
    RunState {
        result: Some(
            ResultView::Error { error: steps[s.pos as int].context@ + ": "@ + failure_message(f) },
        ),
        ..s
    }
}

/// The job after its current step reports outcome `o`. A job that has
/// ended stays as it is.
pub open spec fn advance(steps: Seq<Step>, body_from_output: bool, s: RunState, o: Outcome) -> RunState {
    if s.result is Some || s.pos >= steps.len() {
        s
    } else {
        let step = steps[s.pos as int];
        match o {
            Outcome::Done { output } => proceed(
                steps,
                body_from_output,
                s,
                o,
                if step.op is Run {
                    output@
                } else {
                    s.last_output
                },
            ),
            Outcome::Failed { failure } => match step.on_failure {
                OnFailure::Abort => abort(steps, s, failure),
                OnFailure::Ignore => proceed(steps, body_from_output, s, o, s.last_output),
                OnFailure::AbsentOk => if is_absent(failure) {
                    proceed(steps, body_from_output, s, o, s.last_output)
                } else {
                    abort(steps, s, failure)
                },
                OnFailure::AbsentOkRetryNotEmpty => if is_absent(failure) {
                    proceed(steps, body_from_output, s, o, s.last_output)
                } else if is_not_empty(failure) && !s.retried {
                    RunState { retried: true, ..s }
                } else {
                    abort(steps, s, failure)
                },
            },
        }
    }
}

/// The job after the outcomes `os` are reported one after the other.
pub open spec fn run_all(steps: Seq<Step>, body_from_output: bool, s: RunState, os: Seq<Outcome>) -> RunState
    decreases os.len(),
{
    if os.len() == 0 {
        s
    } else {
        run_all(steps, body_from_output, advance(steps, body_from_output, s, os[0]), os.skip(1))
    }
}

/// What holds of every state a job passes through.
pub open spec fn consistent(steps: Seq<Step>, s: RunState) -> bool {
    &&& s.pos <= steps.len()
    &&& s.passed.len() == s.pos
    &&& forall|k: int| 0 <= k < s.pos ==> acceptable(steps[k].on_failure, #[trigger] s.passed[k])
    &&& s.result is None ==> s.pos < steps.len()
    &&& s.result matches Some(ResultView::Success { .. }) ==> s.pos == steps.len()
}

proof fn lemma_advance_consistent(steps: Seq<Step>, body: bool, s: RunState, o: Outcome)
    requires
        consistent(steps, s),
    ensures
        consistent(steps, advance(steps, body, s, o)),
{
    let t = advance(steps, body, s, o);
    if s.result is None && s.pos < steps.len() && t.pos == s.pos + 1 {
        assert forall|k: int| 0 <= k < t.pos implies acceptable(
            steps[k].on_failure,
            #[trigger] t.passed[k],
        ) by {
            if k < s.pos {
                assert(t.passed[k] == s.passed[k]);
            }
        }
    }
}

proof fn lemma_run_all_consistent(steps: Seq<Step>, body: bool, s: RunState, os: Seq<Outcome>)
    requires
        consistent(steps, s),
    ensures
        consistent(steps, run_all(steps, body, s, os)),
    decreases os.len(),
{
    if os.len() > 0 {
        lemma_advance_consistent(steps, body, s, os[0]);
        lemma_run_all_consistent(steps, body, advance(steps, body, s, os[0]), os.skip(1));
    }
}

/// A job that has ended stays ended, with the same result, whatever is
/// reported after: no step runs after the one that ended it.
pub proof fn lemma_ended_job_is_final(steps: Seq<Step>, body: bool, s: RunState, os: Seq<Outcome>)
    requires
        s.result is Some,
    ensures
        run_all(steps, body, s, os) == s,
    decreases os.len(),
{
    if os.len() > 0 {
        lemma_ended_job_is_final(steps, body, s, os.skip(1));
    }
}

/// A job succeeds only once it has gone past every step, and a step whose
/// failure ends the job was passed only by being done: after success every
/// such step was carried out.
pub proof fn lemma_success_means_every_required_step_done(
    steps: Seq<Step>,
    body: bool,
    os: Seq<Outcome>,
)
    ensures
        ({
            let end = run_all(steps, body, start_state(steps, body), os);
            end.result matches Some(ResultView::Success { .. }) ==> end.pos == steps.len() && forall|
                k: int,
            |
                0 <= k < steps.len() && steps[k].on_failure == OnFailure::Abort
                    ==> #[trigger] end.passed[k] is Done
        }),
{
    lemma_run_all_consistent(steps, body, start_state(steps, body), os);
    let end = run_all(steps, body, start_state(steps, body), os);
    assert forall|k: int|
        0 <= k < end.pos && steps[k].on_failure == OnFailure::Abort implies #[trigger] end.passed[k] is Done by {
        assert(acceptable(steps[k].on_failure, end.passed[k]));
    }
}

/// A job whose every step has an outcome that lets it go on succeeds, with
/// no body unless the plan asks for one.
pub proof fn lemma_acceptable_outcomes_succeed(steps: Seq<Step>, body: bool, os: Seq<Outcome>)
    requires
        os.len() == steps.len(),
        forall|k: int| 0 <= k < steps.len() ==> acceptable(steps[k].on_failure, #[trigger] os[k]),
    ensures
        run_all(steps, body, start_state(steps, body), os).result matches Some(
            ResultView::Success { .. },
        ),
        !body ==> run_all(steps, body, start_state(steps, body), os).result == Some(
            ResultView::Success { body: None },
        ),
{
    lemma_run_from(steps, body, start_state(steps, body), os, 0);
    assert(os.skip(0) =~= os);
}

proof fn lemma_run_from(steps: Seq<Step>, body: bool, s: RunState, os: Seq<Outcome>, k: nat)
    requires
        k <= steps.len(),
        os.len() == steps.len(),
        forall|j: int| 0 <= j < steps.len() ==> acceptable(steps[j].on_failure, #[trigger] os[j]),
        s.pos == k,
        k < steps.len() ==> s.result is None,
        k == steps.len() ==> s.result == Some(
            ResultView::Success { body: success_body(body, s.last_output) },
        ),
    ensures
        run_all(steps, body, s, os.skip(k as int)).result matches Some(ResultView::Success { .. }),
        !body ==> run_all(steps, body, s, os.skip(k as int)).result == Some(
            ResultView::Success { body: None },
        ),
    decreases steps.len() - k,
{
    if k == steps.len() {
        assert(os.skip(k as int).len() == 0);
    } else {
        let o = os[k as int];
        assert(acceptable(steps[k as int].on_failure, o));
        let t = advance(steps, body, s, o);
        assert(os.skip(k as int)[0] == o);
        assert(os.skip(k as int).skip(1) =~= os.skip(k + 1 as int));
        lemma_run_from(steps, body, t, os, k + 1);
    }
}

/// Reporting `a` and then `b` is reporting `a + b`.
pub proof fn lemma_run_all_append(
    steps: Seq<Step>,
    body: bool,
    s: RunState,
    a: Seq<Outcome>,
    b: Seq<Outcome>,
)
    ensures
        run_all(steps, body, s, a + b) == run_all(steps, body, run_all(steps, body, s, a), b),
    decreases a.len(),
{
    if a.len() == 0 {
        assert(a + b =~= b);
    } else {
        assert((a + b)[0] == a[0]);
        assert((a + b).skip(1) =~= a.skip(1) + b);
        lemma_run_all_append(steps, body, advance(steps, body, s, a[0]), a.skip(1), b);
    }
}

/// After `k` outcomes that let each step go on, short of the last step, the
/// job stands at step `k`, not ended.
pub proof fn lemma_acceptable_prefix(steps: Seq<Step>, body: bool, os: Seq<Outcome>, k: nat)
    requires
        k < steps.len(),
        k <= os.len(),
        forall|j: int| 0 <= j < k ==> acceptable(steps[j].on_failure, #[trigger] os[j]),
    ensures
        run_all(steps, body, start_state(steps, body), os.take(k as int)).pos == k,
        run_all(steps, body, start_state(steps, body), os.take(k as int)).result is None,
    decreases k,
{
    if k > 0 {
        lemma_acceptable_prefix(steps, body, os, (k - 1) as nat);
        assert(os.take(k as int) =~= os.take(k - 1) + seq![os[k - 1]]);
        lemma_run_all_append(
            steps,
            body,
            start_state(steps, body),
            os.take(k - 1),
            seq![os[k - 1]],
        );
        let s1 = run_all(steps, body, start_state(steps, body), os.take(k - 1));
        let o = os[k - 1];
        assert(acceptable(steps[k - 1].on_failure, o));
        assert(seq![o].skip(1) =~= Seq::<Outcome>::empty());
        assert(seq![o][0] == o);
        assert(run_all(steps, body, s1, seq![o]) == run_all(
            steps,
            body,
            advance(steps, body, s1, o),
            Seq::empty(),
        ));
    } else {
        assert(os.take(0) =~= Seq::<Outcome>::empty());
        assert(run_all(steps, body, start_state(steps, body), Seq::empty()) == start_state(
            steps,
            body,
        ));
    }
}

/// A job whose steps before `k` went past and whose step `k` fails for good
/// ends there, with an error that names the step and carries the failure's
/// message: no later step is carried out.
pub proof fn lemma_fail_fast(steps: Seq<Step>, body: bool, os: Seq<Outcome>, k: nat, f: Failure)
    requires
        k < steps.len(),
        k < os.len(),
        forall|j: int| 0 <= j < k ==> acceptable(steps[j].on_failure, #[trigger] os[j]),
        os[k as int] == (Outcome::Failed { failure: f }),
        steps[k as int].on_failure == OnFailure::Abort,
    ensures
        ({
            let end = run_all(steps, body, start_state(steps, body), os);
            &&& end.pos == k
            &&& end.passed.len() == k
            &&& end.result == Some(
                ResultView::Error { error: steps[k as int].context@ + ": "@ + failure_message(f) },
            )
        }),
{
    lemma_acceptable_prefix(steps, body, os, k);
    let s = run_all(steps, body, start_state(steps, body), os.take(k as int));
    assert(os =~= os.take(k as int) + os.skip(k as int));
    lemma_run_all_append(steps, body, start_state(steps, body), os.take(k as int), os.skip(k as int));
    assert(os.skip(k as int)[0] == os[k as int]);
    lemma_run_all_consistent(steps, body, start_state(steps, body), os.take(k as int));
    assert(run_all(steps, body, s, os.skip(k as int)) == run_all(
        steps,
        body,
        advance(steps, body, s, os[k as int]),
        os.skip(k as int).skip(1),
    ));
    lemma_failure_ends_job(steps, body, s, f, os.skip(k as int).skip(1));
}

/// A job whose step fails for good, after the steps before it went past,
/// ends with an error that names the step and carries the failure's message,
/// and goes no further.
pub proof fn lemma_failure_ends_job(
    steps: Seq<Step>,
    body: bool,
    s: RunState,
    f: Failure,
    later: Seq<Outcome>,
)
    requires
        s.result is None,
        s.pos < steps.len(),
        steps[s.pos as int].on_failure == OnFailure::Abort,
    ensures
        ({
            let end = run_all(
                steps,
                body,
                advance(steps, body, s, Outcome::Failed { failure: f }),
                later,
            );
            &&& end.pos == s.pos
            &&& end.passed == s.passed
            &&& end.result == Some(
                ResultView::Error {
                    error: steps[s.pos as int].context@ + ": "@ + failure_message(f),
                },
            )
        }),
{
    let t = advance(steps, body, s, Outcome::Failed { failure: f });
    lemma_ended_job_is_final(steps, body, t, later);
}


/// The host platform from the output of `uname -m`: the output without its
/// final newline, followed by `-linux`.
pub open spec fn host_platform_bytes(out: Seq<u8>) -> Seq<u8> {
    (if out.len() > 0 {
        out.drop_last()
    } else {
        out
    }) + seq![45u8, 108u8, 105u8, 110u8, 117u8, 120u8]
}

/// A job in progress: its plan and where it stands.
pub struct JobRun {
    steps: Vec<Step>,
    body_from_output: bool,
    pos: usize,
    retried: bool,
    last_output: Vec<u8>,
    passed: Ghost<Seq<Outcome>>,
    result: Option<RequestIdResult>,
}

impl JobRun {
    /// The steps of the job.
    pub closed spec fn steps(&self) -> Seq<Step> {
        self.steps@
    }

    /// Whether success carries the last command's output.
    pub closed spec fn body_from_output(&self) -> bool {
        self.body_from_output
    }

    /// Where the job stands.
    pub closed spec fn state(&self) -> RunState {
        RunState {
            pos: self.pos as nat,
            retried: self.retried,
            last_output: self.last_output@,
            passed: self.passed@,
            result: match self.result {
                Some(r) => Some(result_view(r)),
                None => None,
            },
        }
    }

    /// The job's state is one that its steps can lead to.
    pub closed spec fn wf(&self) -> bool {
        consistent(self.steps@, self.state())
    }

    /// A job that carries out `plan`, not started yet.
    pub fn new(plan: Plan) -> (r: JobRun)
        ensures
            r.wf(),
            r.steps() == plan.steps@,
            r.body_from_output() == plan.body_from_output,
            r.state() == start_state(plan.steps@, plan.body_from_output),
    {
        let empty = plan.steps.len() == 0;
        let body = if plan.body_from_output {
            body_text(Vec::new())
        } else {
            None
        };
        let r = JobRun {
            steps: plan.steps,
            body_from_output: plan.body_from_output,
            pos: 0,
            retried: false,
            last_output: Vec::new(),
            passed: Ghost(Seq::empty()),
            result: if empty {
                Some(RequestIdResult::Success { body })
            } else {
                None
            },
        };
        assert(r.last_output@ =~= Seq::<u8>::empty());
        r
    }

    /// Whether the job has ended.
    pub fn is_finished(&self) -> (r: bool)
        ensures
            r == self.state().result is Some,
    {
        self.result.is_some()
    }

    /// The step to carry out next, none once the job has ended.
    pub fn current(&self) -> (r: Option<&Step>)
        requires
            self.wf(),
        ensures
            self.state().result is None ==> r == Some(&self.steps()[self.state().pos as int]),
            self.state().result is Some ==> r is None,
    {
        if self.result.is_some() {
            None
        } else {
            Some(&self.steps[self.pos])
        }
    }

    /// What a step that writes the host platform writes.
    pub fn host_platform(&self) -> (r: Vec<u8>)
        ensures
            r@ == host_platform_bytes(self.state().last_output),
    {
        let mut r: Vec<u8> = Vec::new();
        let n = if self.last_output.len() > 0 {
            self.last_output.len() - 1
        } else {
            0
        };
        let mut i: usize = 0;
        while i < n
            invariant
                n == (if self.last_output@.len() > 0 {
                    self.last_output@.len() - 1
                } else {
                    0
                }),
                i <= n,
                r@ == self.last_output@.take(i as int),
            decreases n - i,
        {
            r.push(self.last_output[i]);
            i = i + 1;
            assert(r@ =~= self.last_output@.take(i as int));
        }
        r.push(45u8);
        r.push(108u8);
        r.push(105u8);
        r.push(110u8);
        r.push(117u8);
        r.push(120u8);
        assert(r@ =~= host_platform_bytes(self.state().last_output));
        r
    }

    /// The result, once the job has ended.
    pub fn result(&self) -> (r: Option<RequestIdResult>)
        ensures
            r is None <==> self.state().result is None,
            r matches Some(x) ==> self.state().result == Some(result_view(x)),
    {
        match &self.result {
            Some(x) => Some(x.copy()),
            None => None,
        }
    }

    fn go_on(&mut self, o: Ghost<Outcome>)
        requires
            old(self).wf(),
            old(self).result is None,
        ensures
            final(self).steps == old(self).steps,
            final(self).body_from_output == old(self).body_from_output,
            final(self).state() == proceed(
                old(self).steps@,
                old(self).body_from_output,
                old(self).state(),
                o@,
                old(self).last_output@,
            ),
    {
        let n = self.steps.len();
        assert(self.pos < n);
        self.pos = self.pos + 1;
        self.retried = false;
        self.passed = Ghost(self.passed@.push(o@));
        if self.pos == self.steps.len() {
            let body = if self.body_from_output {
                body_text(copy_bytes(&self.last_output))
            } else {
                None
            };
            self.result = Some(RequestIdResult::Success { body });
        }
    }

    fn stop(&mut self, f: Failure)
        requires
            old(self).wf(),
            old(self).result is None,
        ensures
            final(self).steps == old(self).steps,
            final(self).body_from_output == old(self).body_from_output,
            final(self).state() == abort(old(self).steps@, old(self).state(), f),
    {
        let detail = match &f {
            Failure::Io { e } => e.message.clone(),
            Failure::Command { e } => e.to_message(),
        };
        let mut error = self.steps[self.pos].context.clone();
        error.append(": ");
        error.append(detail.as_str());
        self.result = Some(RequestIdResult::Error { error });
    }

    /// Takes in how the current step went, and moves the job on.
    pub fn report(&mut self, outcome: Outcome)
        requires
            old(self).wf(),
        ensures
            final(self).wf(),
            final(self).steps() == old(self).steps(),
            final(self).body_from_output() == old(self).body_from_output(),
            final(self).state() == advance(
                old(self).steps(),
                old(self).body_from_output(),
                old(self).state(),
                outcome,
            ),
    {
        proof {
            lemma_advance_consistent(self.steps@, self.body_from_output, self.state(), outcome);
        }
        if self.result.is_some() {
            return;
        }
        let ghost o = outcome;
        let is_run = match &self.steps[self.pos].op {
            Operation::Run { .. } => true,
            _ => false,
        };
        let policy = self.steps[self.pos].on_failure;
        match outcome {
            Outcome::Done { output } => {
                if is_run {
                    self.last_output = output;
                }
                self.go_on(Ghost(o));
            },
            Outcome::Failed { failure } => {
                let absent = match &failure {
                    Failure::Io { e } => e.kind == IoErrorKind::NotFound,
                    _ => false,
                };
                let not_empty = match &failure {
                    Failure::Io { e } => e.kind == IoErrorKind::DirectoryNotEmpty,
                    _ => false,
                };
                match policy {
                    OnFailure::Abort => self.stop(failure),
                    OnFailure::Ignore => self.go_on(Ghost(o)),
                    OnFailure::AbsentOk => {
                        if absent {
                            self.go_on(Ghost(o));
                        } else {
                            self.stop(failure);
                        }
                    },
                    OnFailure::AbsentOkRetryNotEmpty => {
                        if absent {
                            self.go_on(Ghost(o));
                        } else if not_empty && !self.retried {
                            self.retried = true;
                        } else {
                            self.stop(failure);
                        }
                    },
                }
            },
        }
    }
}

/// The output as text, where it is valid UTF-8.
fn body_text(out: Vec<u8>) -> (r: Option<String>)
    ensures
        r is Some <==> vstd::utf8::valid_utf8(out@),
        r matches Some(s) ==> s@ == vstd::utf8::decode_utf8(out@),
{
    match Output::from_bytes(out) {
        Output::UTF8 { output } => Some(output),
        Output::Bytes { .. } => None,
    }
}


/// An operation as text.
pub enum OpView {
    CreateDir { path: Seq<char> },
    WriteFile { path: Seq<char>, content: Seq<char> },
    WriteHostPlatform { path: Seq<char> },
    CopyDir { from: Seq<char>, to: Seq<char> },
    RemoveDir { path: Seq<char> },
    RemoveFile { path: Seq<char> },
    Run {
        words: Seq<Seq<char>>,
        envs: Seq<(Seq<char>, Seq<char>)>,
        recorded_under: Option<u32>,
    },
}

/// A step as text.
pub struct StepView {
    pub op: OpView,
    pub on_failure: OnFailure,
    pub context: Seq<char>,
}

/// The environment variables of a command as text.
pub open spec fn envs_view(envs: Seq<(String, String)>) -> Seq<(Seq<char>, Seq<char>)> {
    envs.map_values(|e: (String, String)| (e.0@, e.1@))
}

/// An operation as text.
pub open spec fn op_view(op: Operation) -> OpView {
    match op {
        Operation::CreateDir { path } => OpView::CreateDir { path: path@ },
        Operation::WriteFile { path, content } => OpView::WriteFile {
            path: path@,
            content: content@,
        },
        Operation::WriteHostPlatform { path } => OpView::WriteHostPlatform { path: path@ },
        Operation::CopyDir { from, to } => OpView::CopyDir { from: from@, to: to@ },
        Operation::RemoveDir { path } => OpView::RemoveDir { path: path@ },
        Operation::RemoveFile { path } => OpView::RemoveFile { path: path@ },
        Operation::Run { command, mode } => OpView::Run {
            words: command.words(),
            envs: envs_view(command.envs@),
            recorded_under: match mode {
                CommandExecutionMode::Simple => None,
                CommandExecutionMode::Stream { request_id } => Some(request_id),
            },
        },
    }
}

/// A step as text.
pub open spec fn step_view(s: Step) -> StepView {
    StepView { op: op_view(s.op), on_failure: s.on_failure, context: s.context@ }
}

/// Steps as text.
pub open spec fn steps_view(steps: Seq<Step>) -> Seq<StepView> {
    steps.map_values(|s: Step| step_view(s))
}

} // verus!
