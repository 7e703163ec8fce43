//! The job runner: one submit / poll / fetch cycle against the upstream
//! service, driven as a state machine.
//!
//! The machine itself performs no I/O.  `next_action` names the outside call
//! the surrounding application must make next, and `step` consumes what came
//! back as a plain value.  A ghost model mirrors every transition, and the
//! laws about whole runs (how many polls a cycle makes, when it times out,
//! that the payload is returned verbatim) are proved over runs of the model.

use crate::uniprot::idmapping;
use crate::uniprot::idmapping::parse_job_id;
use crate::uniprot::idmapping::parse_job_status;
use crate::uniprot::idmapping::results_url;
use crate::uniprot::idmapping::run_url;
use crate::uniprot::idmapping::spec_form_body;
use crate::uniprot::idmapping::spec_results_url;
use crate::uniprot::idmapping::spec_run_url;
use crate::uniprot::idmapping::spec_status_url;
use crate::uniprot::idmapping::status_url;
use crate::uniprot::idmapping::JobId;
use crate::wire::spec_extract_string_field;
use vstd::prelude::*;
use vstd::string::StringExecFns;

verus! {

/// How many status calls one job cycle makes at most, by default.
pub const DEFAULT_MAX_POLL_ATTEMPTS: u32 = 10;

/// How many seconds separate two consecutive status calls.
pub const POLL_INTERVAL_SECS: u64 = 1;

/// The only status string the upstream service reports for a finished job.
pub open spec fn spec_finished() -> Seq<char> {
    "FINISHED"@
}

/// Why a job cycle failed: the submission, a status call, the attempt
/// budget, or the final fetch.
#[derive(Debug, Clone, Copy, PartialEq, Eq, Structural)]
pub enum JobError {
    /// The submission could not be sent or its response carried no job id.
    Submission,
    /// A status call could not be made or its response carried no status.
    Poll,
    /// The job never reported itself finished within the attempt budget.
    Timeout,
    /// The result could not be fetched.
    Fetch,
}

/// Where one job cycle stands.
#[derive(Debug, Clone, PartialEq)]
pub enum RunnerState {
    /// The query has not been submitted yet.
    Submitting,
    /// The job is submitted and `polls_made` status calls are behind us.
    Polling { job_id: JobId, polls_made: u32 },
    /// The job reported itself finished; its result is still to fetch.
    Fetching { job_id: JobId },
    /// The raw result payload, exactly as fetched.
    Done { result: String },
    /// The cycle failed and says why.
    Failed { error: JobError },
}

/// The outside call the application must make next.
#[derive(Debug, Clone, PartialEq)]
pub enum Action {
    /// POST the form-encoded body to the URL.
    Submit { url: String, body: String },
    /// Wait `delay_secs`, then GET the URL with redirects disabled.
    Poll { url: String, delay_secs: u64 },
    /// GET the URL.
    Fetch { url: String },
    /// The cycle is over; there is nothing left to call.
    Stop,
}

/// What one outside call came back with.
#[derive(Debug, Clone, PartialEq)]
pub enum Event {
    /// The response body, as text.
    Response { body: String },
    /// The call could not be made or its body could not be read.
    TransportFailure,
}

/// The runner's state, over the mathematical content of its strings.
pub ghost enum ModelState {
    Submitting,
    Polling { job_id: Seq<char>, polls_made: nat },
    Fetching { job_id: Seq<char> },
    Done { result: Seq<char> },
    Failed { error: JobError },
}

/// An event, over the mathematical content of its strings.
pub ghost enum ModelEvent {
    Response { body: Seq<char> },
    TransportFailure,
}

/// An action, over the mathematical content of its strings.
pub ghost enum ModelAction {
    Submit { url: Seq<char>, body: Seq<char> },
    Poll { url: Seq<char>, delay_secs: int },
    Fetch { url: Seq<char> },
    Stop,
}

impl RunnerState {
    /// The mathematical content of the state.
    pub open spec fn model(&self) -> ModelState {
        match self {
            RunnerState::Submitting => ModelState::Submitting,
            RunnerState::Polling { job_id, polls_made } => ModelState::Polling {
                job_id: job_id.job_id@,
                polls_made: *polls_made as nat,
            },
            RunnerState::Fetching { job_id } => ModelState::Fetching { job_id: job_id.job_id@ },
            RunnerState::Done { result } => ModelState::Done { result: result@ },
            RunnerState::Failed { error } => ModelState::Failed { error: *error },
        }
    }
}

impl Event {
    /// The mathematical content of the event.
    pub open spec fn model(&self) -> ModelEvent {
        match self {
            Event::Response { body } => ModelEvent::Response { body: body@ },
            Event::TransportFailure => ModelEvent::TransportFailure,
        }
    }
}

impl Action {
    /// The mathematical content of the action.
    pub open spec fn model(&self) -> ModelAction {
        match self {
            Action::Submit { url, body } => ModelAction::Submit { url: url@, body: body@ },
            Action::Poll { url, delay_secs } => ModelAction::Poll {
                url: url@,
                delay_secs: *delay_secs as int,
            },
            Action::Fetch { url } => ModelAction::Fetch { url: url@ },
            Action::Stop => ModelAction::Stop,
        }
    }
}

/// One transition of the model machine: what consuming the given event does
/// to the given state.  A submission response must carry a job id and a
/// status response a status string, else the cycle fails; any status other
/// than the finished one is one more poll against the attempt budget, and
/// exhausting the budget is a timeout, never a crash.  Terminal states
/// absorb every event.
pub open spec fn model_step(s: ModelState, max_attempts: nat, ev: ModelEvent) -> ModelState {
    match s {
        ModelState::Submitting => match ev {
            ModelEvent::TransportFailure => ModelState::Failed { error: JobError::Submission },
            ModelEvent::Response { body } => match spec_extract_string_field(body, "jobId"@) {
                None => ModelState::Failed { error: JobError::Submission },
                Some(job_id) => ModelState::Polling { job_id, polls_made: 0 },
            },
        },
        ModelState::Polling { job_id, polls_made } => match ev {
            ModelEvent::TransportFailure => ModelState::Failed { error: JobError::Poll },
            ModelEvent::Response { body } => match spec_extract_string_field(
                body,
                "jobStatus"@,
            ) {
                None => ModelState::Failed { error: JobError::Poll },
                Some(status) => if status == spec_finished() {
                    ModelState::Fetching { job_id }
                } else if polls_made + 1 < max_attempts {
                    ModelState::Polling { job_id, polls_made: polls_made + 1 }
                } else {
                    ModelState::Failed { error: JobError::Timeout }
                },
            },
        },
        ModelState::Fetching { job_id } => match ev {
            ModelEvent::TransportFailure => ModelState::Failed { error: JobError::Fetch },
            ModelEvent::Response { body } => ModelState::Done { result: body },
        },
        ModelState::Done { result } => ModelState::Done { result },
        ModelState::Failed { error } => ModelState::Failed { error },
    }
}

/// The outside call the model machine asks for in the given state, where
/// `body` is the form-encoded submission body of the query being run.  The
/// first status call follows the submission at once; every further one
/// waits the fixed interval.
pub open spec fn model_action(s: ModelState, body: Seq<char>) -> ModelAction {
    match s {
        ModelState::Submitting => ModelAction::Submit { url: spec_run_url(), body },
        ModelState::Polling { job_id, polls_made } => ModelAction::Poll {
            url: spec_status_url(job_id),
            delay_secs: if polls_made == 0 {
                0
            } else {
                POLL_INTERVAL_SECS as int
            },
        },
        ModelState::Fetching { job_id } => ModelAction::Fetch { url: spec_results_url(job_id) },
        ModelState::Done { .. } => ModelAction::Stop,
        ModelState::Failed { .. } => ModelAction::Stop,
    }
}

/// One job cycle: the translated query it runs, its attempt budget, and
/// where it stands.
pub struct Runner {
    /// The translated query this cycle submits.
    pub query: idmapping::Query,
    /// How many status calls the cycle makes at most.
    pub max_attempts: u32,
    /// Where the cycle stands.
    pub state: RunnerState,
}

impl Runner {
    /// The runner's invariant: the query is fully defaulted, the attempt
    /// budget is positive, and the polls made never reach the budget while
    /// polling goes on.
    pub open spec fn wf(&self) -> bool {
        &&& self.query.wf()
        &&& self.max_attempts >= 1
        &&& (self.state matches RunnerState::Polling { polls_made, .. } ==> polls_made
            < self.max_attempts)
    }

    /// Starts one cycle for a translated query with the given attempt
    /// budget.
    pub fn new(query: idmapping::Query, max_attempts: u32) -> (r: Runner)
        requires
            query.wf(),
            max_attempts >= 1,
        ensures
            r.wf(),
            r.query == query,
            r.max_attempts == max_attempts,
            r.state.model() == ModelState::Submitting,
    {
        Runner { query, max_attempts, state: RunnerState::Submitting }
    }

    /// The outside call the application must make next.
    pub fn next_action(&self) -> (a: Action)
        requires
            self.wf(),
        ensures
            a.model() == model_action(self.state.model(), spec_form_body(self.query.model())),
    {
        match &self.state {
            RunnerState::Submitting => Action::Submit {
                url: run_url(),
                body: self.query.form_body(),
            },
            RunnerState::Polling { job_id, polls_made } => Action::Poll {
                url: status_url(job_id),
                delay_secs: if *polls_made == 0 {
                    0
                } else {
                    POLL_INTERVAL_SECS
                },
            },
            RunnerState::Fetching { job_id } => Action::Fetch { url: results_url(job_id) },
            RunnerState::Done { .. } => Action::Stop,
            RunnerState::Failed { .. } => Action::Stop,
        }
    }

    /// Feeds back what the outside call came back with; the state moves
    /// exactly as the model machine does.
    pub fn step(&mut self, ev: Event)
        requires
            old(self).wf(),
        ensures
            final(self).wf(),
            final(self).query == old(self).query,
            final(self).max_attempts == old(self).max_attempts,
            final(self).state.model() == model_step(
                old(self).state.model(),
                old(self).max_attempts as nat,
                ev.model(),
            ),
    {
        let next = match &self.state {
            RunnerState::Submitting => match ev {
                Event::TransportFailure => RunnerState::Failed { error: JobError::Submission },
                Event::Response { body } => match parse_job_id(body.as_str()) {
                    None => RunnerState::Failed { error: JobError::Submission },
                    Some(job_id) => RunnerState::Polling { job_id, polls_made: 0 },
                },
            },
            RunnerState::Polling { job_id, polls_made } => match ev {
                Event::TransportFailure => RunnerState::Failed { error: JobError::Poll },
                Event::Response { body } => match parse_job_status(body.as_str()) {
                    None => RunnerState::Failed { error: JobError::Poll },
                    Some(status) => {
                        if status.job_status == String::from_str("FINISHED") {
                            RunnerState::Fetching { job_id: job_id.clone() }
                        } else if *polls_made + 1 < self.max_attempts {
                            RunnerState::Polling {
                                job_id: job_id.clone(),
                                polls_made: *polls_made + 1,
                            }
                        } else {
                            RunnerState::Failed { error: JobError::Timeout }
                        }
                    },
                },
            },
            RunnerState::Fetching { .. } => match ev {
                Event::TransportFailure => RunnerState::Failed { error: JobError::Fetch },
                Event::Response { body } => RunnerState::Done { result: body },
            },
            RunnerState::Done { result } => RunnerState::Done { result: result.clone() },
            RunnerState::Failed { error } => RunnerState::Failed { error: *error },
        };
        self.state = next;
    }
}

/// The state after the model machine consumes the given events in order.
pub open spec fn model_run(s: ModelState, max_attempts: nat, evs: Seq<ModelEvent>) -> ModelState
    decreases evs.len(),
{
    if evs.len() == 0 {
        s
    } else {
        model_run(model_step(s, max_attempts, evs[0]), max_attempts, evs.drop_first())
    }
}

/// Consuming concatenated events is consuming them in two runs.
pub proof fn lemma_model_run_app(
    s: ModelState,
    max_attempts: nat,
    a: Seq<ModelEvent>,
    b: Seq<ModelEvent>,
)
    ensures
        model_run(s, max_attempts, a + b) == model_run(
            model_run(s, max_attempts, a),
            max_attempts,
            b,
        ),
    decreases a.len(),
{
    if a.len() == 0 {
        assert(a + b =~= b);
    } else {
        assert((a + b)[0] == a[0]);
        assert((a + b).drop_first() =~= a.drop_first() + b);
        lemma_model_run_app(model_step(s, max_attempts, a[0]), max_attempts, a.drop_first(), b);
    }
}

/// True when the body reports a status that keeps the runner polling: it
/// carries a status string other than the finished one.
pub open spec fn spec_reports_pending(body: Seq<char>) -> bool {
    spec_extract_string_field(body, "jobStatus"@) matches Some(status) && status
        != spec_finished()
}

/// As long as every status response reports a pending status and the
/// attempt budget is not exhausted, the runner keeps polling and counts
/// every status call.
pub proof fn lemma_poll_progress(
    job_id: Seq<char>,
    evs: Seq<ModelEvent>,
    max_attempts: nat,
    polls_made: nat,
)
    requires
        polls_made + evs.len() < max_attempts,
        forall|i: int|
            0 <= i < evs.len() ==> ((#[trigger] evs[i]) matches ModelEvent::Response { body }
                && spec_reports_pending(body)),
    ensures
        model_run((ModelState::Polling { job_id, polls_made }), max_attempts, evs)
            == (ModelState::Polling { job_id, polls_made: (polls_made + evs.len()) as nat }),
    decreases evs.len(),
{
    if evs.len() > 0 {
        assert(evs[0] matches ModelEvent::Response { body } && spec_reports_pending(body));
        lemma_poll_progress(job_id, evs.drop_first(), max_attempts, polls_made + 1);
    }
}

/// Against an upstream that reports the job finished on the first status
/// call, the cycle is one submission, exactly one status call, and one
/// fetch, whose payload comes back verbatim.
pub proof fn lemma_finishes_on_first_poll(
    submit_body: Seq<char>,
    job_id: Seq<char>,
    status_body: Seq<char>,
    payload: Seq<char>,
    max_attempts: nat,
)
    requires
        max_attempts >= 1,
        spec_extract_string_field(submit_body, "jobId"@) == Some(job_id),
        spec_extract_string_field(status_body, "jobStatus"@) == Some(spec_finished()),
    ensures
        model_run(
            ModelState::Submitting,
            max_attempts,
            seq![(ModelEvent::Response { body: submit_body })],
        ) == (ModelState::Polling { job_id, polls_made: 0 }),
        model_run(
            ModelState::Submitting,
            max_attempts,
            seq![
                (ModelEvent::Response { body: submit_body }),
                (ModelEvent::Response { body: status_body }),
            ],
        ) == (ModelState::Fetching { job_id }),
        model_run(
            ModelState::Submitting,
            max_attempts,
            seq![
                (ModelEvent::Response { body: submit_body }),
                (ModelEvent::Response { body: status_body }),
                (ModelEvent::Response { body: payload }),
            ],
        ) == (ModelState::Done { result: payload }),
        // the one status call waits for nothing, and after the payload came
        // back nothing more is called:
        model_action((ModelState::Polling { job_id, polls_made: 0 }), submit_body)
            == (ModelAction::Poll { url: spec_status_url(job_id), delay_secs: 0 }),
        model_action((ModelState::Fetching { job_id }), submit_body) == (ModelAction::Fetch {
            url: spec_results_url(job_id),
        }),
        model_action((ModelState::Done { result: payload }), submit_body) == ModelAction::Stop,
{
    reveal_with_fuel(model_run, 4);
    let e1 = ModelEvent::Response { body: submit_body };
    let e2 = ModelEvent::Response { body: status_body };
    let e3 = ModelEvent::Response { body: payload };
    assert(seq![e1].drop_first() =~= Seq::<ModelEvent>::empty());
    assert(seq![e1, e2].drop_first() =~= seq![e2]);
    assert(seq![e2].drop_first() =~= Seq::<ModelEvent>::empty());
    assert(seq![e1, e2, e3].drop_first() =~= seq![e2, e3]);
    assert(seq![e2, e3].drop_first() =~= seq![e3]);
    assert(seq![e3].drop_first() =~= Seq::<ModelEvent>::empty());
}

/// Against an upstream that reports a pending status `n` times and then the
/// finished one, the cycle makes exactly `n + 1` status calls, each repeat
/// poll waits the fixed interval, and the fetched payload comes back
/// verbatim.
pub proof fn lemma_polls_until_finished(
    submit_body: Seq<char>,
    job_id: Seq<char>,
    pending_body: Seq<char>,
    finished_body: Seq<char>,
    payload: Seq<char>,
    n: nat,
    max_attempts: nat,
)
    requires
        n + 1 <= max_attempts,
        spec_extract_string_field(submit_body, "jobId"@) == Some(job_id),
        spec_reports_pending(pending_body),
        spec_extract_string_field(finished_body, "jobStatus"@) == Some(spec_finished()),
    ensures
// After the submission and `k` pending status calls the runner still polls
// and has counted exactly `k` calls:

        forall|k: nat|
            k <= n ==> model_run(
                ModelState::Submitting,
                max_attempts,
                seq![(ModelEvent::Response { body: submit_body })] + Seq::new(
                    k,
                    |i: int| (ModelEvent::Response { body: pending_body }),
                ),
            ) == (ModelState::Polling { job_id, polls_made: k }),
        // every repeat poll waits the fixed interval:
        forall|k: nat|
            1 <= k <= n ==> model_action(
                (ModelState::Polling { job_id, polls_made: k }),
                submit_body,
            ) == (ModelAction::Poll {
                url: spec_status_url(job_id),
                delay_secs: POLL_INTERVAL_SECS as int,
            }),
        // the whole run returns the payload verbatim:
        model_run(
            ModelState::Submitting,
            max_attempts,
            seq![(ModelEvent::Response { body: submit_body })] + Seq::new(
                n,
                |i: int| (ModelEvent::Response { body: pending_body }),
            ) + seq![
                (ModelEvent::Response { body: finished_body }),
                (ModelEvent::Response { body: payload }),
            ],
        ) == (ModelState::Done { result: payload }),
{
    reveal_with_fuel(model_run, 4);
    let sub = seq![ModelEvent::Response { body: submit_body }];
    let pending = |k: nat| Seq::new(k, |i: int| ModelEvent::Response { body: pending_body });
    assert(sub.drop_first() =~= Seq::<ModelEvent>::empty());
    assert(model_run(ModelState::Submitting, max_attempts, sub) == ModelState::Polling {
        job_id,
        polls_made: 0,
    });
    assert forall|k: nat| k <= n implies model_run(
        ModelState::Submitting,
        max_attempts,
        sub + pending(k),
    ) == ModelState::Polling { job_id, polls_made: k } by {
        lemma_model_run_app(ModelState::Submitting, max_attempts, sub, pending(k));
        lemma_poll_progress(job_id, pending(k), max_attempts, 0);
    }
    let tail = seq![
        ModelEvent::Response { body: finished_body },
        ModelEvent::Response { body: payload },
    ];
    lemma_model_run_app(ModelState::Submitting, max_attempts, sub + pending(n), tail);
    assert(model_run(ModelState::Submitting, max_attempts, sub + pending(n))
        == ModelState::Polling { job_id, polls_made: n });
    assert(tail.drop_first() =~= seq![ModelEvent::Response { body: payload }]);
    assert(seq![ModelEvent::Response { body: payload }].drop_first() =~= Seq::<
        ModelEvent,
    >::empty());
}

/// Against an upstream that never reports the job finished, the runner
/// keeps polling until it has spent exactly its attempt budget and then
/// fails with a timeout error; it does not crash and makes no further
/// calls.
pub proof fn lemma_timeout_after_max_attempts(
    job_id: Seq<char>,
    evs: Seq<ModelEvent>,
    max_attempts: nat,
)
    requires
        max_attempts >= 1,
        evs.len() == max_attempts,
        forall|i: int|
            0 <= i < evs.len() ==> ((#[trigger] evs[i]) matches ModelEvent::Response { body }
                && spec_reports_pending(body)),
    ensures
// before the budget is spent the runner still polls:

        forall|k: int|
            0 <= k < max_attempts ==> model_run(
                (ModelState::Polling { job_id, polls_made: 0 }),
                max_attempts,
                evs.take(k),
            ) == (ModelState::Polling { job_id, polls_made: k as nat }),
        // spending it is a timeout error, after which nothing more is called:
        model_run((ModelState::Polling { job_id, polls_made: 0 }), max_attempts, evs)
            == (ModelState::Failed { error: JobError::Timeout }),
        model_action((ModelState::Failed { error: JobError::Timeout }), Seq::empty())
            == ModelAction::Stop,
{
    assert forall|k: int|
        0 <= k < max_attempts implies model_run(
        ModelState::Polling { job_id, polls_made: 0 },
        max_attempts,
        evs.take(k),
    ) == ModelState::Polling { job_id, polls_made: k as nat } by {
        lemma_poll_progress(job_id, evs.take(k), max_attempts, 0);
    }
    lemma_timeout_helper(job_id, evs, max_attempts, 0);
}

proof fn lemma_timeout_helper(
    job_id: Seq<char>,
    evs: Seq<ModelEvent>,
    max_attempts: nat,
    polls_made: nat,
)
    requires
        polls_made < max_attempts,
        polls_made + evs.len() == max_attempts,
        forall|i: int|
            0 <= i < evs.len() ==> ((#[trigger] evs[i]) matches ModelEvent::Response { body }
                && spec_reports_pending(body)),
    ensures
        model_run((ModelState::Polling { job_id, polls_made }), max_attempts, evs)
            == (ModelState::Failed { error: JobError::Timeout }),
    decreases evs.len(),
{
    reveal_with_fuel(model_run, 2);
    assert(evs[0] matches ModelEvent::Response { body } && spec_reports_pending(body));
    if polls_made + 1 < max_attempts {
        lemma_timeout_helper(job_id, evs.drop_first(), max_attempts, polls_made + 1);
    } else {
        assert(evs.drop_first().len() == 0);
    }
}


} // verus!
