use backend_rs::runner::{Action, Event, JobError, Runner, RunnerState, DEFAULT_MAX_POLL_ATTEMPTS};
use backend_rs::uniprot::idmapping;
use backend_rs::uniprot_proxy;

fn translated_query() -> idmapping::Query {
    let q = uniprot_proxy::Query {
        tax_id: 9606,
        ids: vec![String::from("BRCA1"), String::from("TP53")],
        from: None,
        to: None,
    };
    idmapping::Query::from(&q)
}

fn response(body: &str) -> Event {
    Event::Response { body: String::from(body) }
}

#[test]
fn run_submits_the_translated_form_body() {
    let r = Runner::new(translated_query(), DEFAULT_MAX_POLL_ATTEMPTS);
    match r.next_action() {
        Action::Submit { url, body } => {
            assert_eq!(url, "https://rest.uniprot.org/idmapping/run");
            assert_eq!(body, "from=Gene_Name&to=UniProtKB-Swiss-Prot&ids=BRCA1,TP53&taxId=9606");
        }
        other => panic!("expected a submit action, got {:?}", other),
    }
}

#[test]
fn finishes_on_first_poll_with_one_call_of_each_kind() {
    let mut r = Runner::new(translated_query(), DEFAULT_MAX_POLL_ATTEMPTS);
    assert!(matches!(r.next_action(), Action::Submit { .. }));
    r.step(response("{\"jobId\":\"J1\"}"));
    match r.next_action() {
        Action::Poll { url, delay_secs } => {
            assert_eq!(url, "https://rest.uniprot.org/idmapping/status/J1");
            assert_eq!(delay_secs, 0);
        }
        other => panic!("expected a poll action, got {:?}", other),
    }
    r.step(response("{\"jobStatus\":\"FINISHED\"}"));
    match r.next_action() {
        Action::Fetch { url } => {
            assert_eq!(
                url,
                "https://rest.uniprot.org/idmapping/uniprotkb/results/J1?compressed=false&format=json"
            );
        }
        other => panic!("expected a fetch action, got {:?}", other),
    }
    r.step(response("{\"results\":[{\"from\":\"BRCA1\"}]}"));
    assert!(matches!(r.next_action(), Action::Stop));
    match r.state {
        RunnerState::Done { result } => {
            assert_eq!(result, "{\"results\":[{\"from\":\"BRCA1\"}]}");
        }
        other => panic!("expected the cycle to be done, got {:?}", other),
    }
}

#[test]
fn pending_statuses_cost_one_poll_each_with_the_fixed_interval() {
    let n = 3;
    let mut r = Runner::new(translated_query(), DEFAULT_MAX_POLL_ATTEMPTS);
    r.step(response("{\"jobId\":\"J2\"}"));
    let mut polls = 0;
    for _ in 0..n {
        match r.next_action() {
            Action::Poll { delay_secs, .. } => {
                assert_eq!(delay_secs, if polls == 0 { 0 } else { 1 });
                polls += 1;
            }
            other => panic!("expected a poll action, got {:?}", other),
        }
        r.step(response("{\"jobStatus\":\"RUNNING\"}"));
    }
    match r.next_action() {
        Action::Poll { delay_secs, .. } => {
            assert_eq!(delay_secs, 1);
            polls += 1;
        }
        other => panic!("expected a poll action, got {:?}", other),
    }
    r.step(response("{\"jobStatus\":\"FINISHED\"}"));
    assert_eq!(polls, n + 1);
    assert!(matches!(r.next_action(), Action::Fetch { .. }));
    r.step(response("payload"));
    match r.state {
        RunnerState::Done { result } => assert_eq!(result, "payload"),
        other => panic!("expected the cycle to be done, got {:?}", other),
    }
}

#[test]
fn never_finished_times_out_after_exactly_the_budget() {
    let mut r = Runner::new(translated_query(), DEFAULT_MAX_POLL_ATTEMPTS);
    r.step(response("{\"jobId\":\"J3\"}"));
    let mut polls = 0;
    loop {
        match r.next_action() {
            Action::Poll { .. } => {
                polls += 1;
                r.step(response("{\"jobStatus\":\"RUNNING\"}"));
            }
            Action::Stop => break,
            other => panic!("expected a poll action or the end, got {:?}", other),
        }
    }
    assert_eq!(polls, DEFAULT_MAX_POLL_ATTEMPTS);
    match r.state {
        RunnerState::Failed { error } => assert_eq!(error, JobError::Timeout),
        other => panic!("expected a timeout failure, got {:?}", other),
    }
}

#[test]
fn error_statuses_also_count_against_the_budget() {
    let mut r = Runner::new(translated_query(), 2);
    r.step(response("{\"jobId\":\"J4\"}"));
    r.step(response("{\"jobStatus\":\"ERROR\"}"));
    assert!(matches!(r.state, RunnerState::Polling { .. }));
    r.step(response("{\"jobStatus\":\"ERROR\"}"));
    match r.state {
        RunnerState::Failed { error } => assert_eq!(error, JobError::Timeout),
        other => panic!("expected a timeout failure, got {:?}", other),
    }
}

#[test]
fn transport_failure_at_submission_fails_with_submission_error() {
    let mut r = Runner::new(translated_query(), DEFAULT_MAX_POLL_ATTEMPTS);
    r.step(Event::TransportFailure);
    match r.state {
        RunnerState::Failed { error } => assert_eq!(error, JobError::Submission),
        other => panic!("expected a submission failure, got {:?}", other),
    }
    assert!(matches!(r.next_action(), Action::Stop));
}

#[test]
fn undecodable_submission_body_fails_with_submission_error() {
    let mut r = Runner::new(translated_query(), DEFAULT_MAX_POLL_ATTEMPTS);
    r.step(response("no job id here"));
    match r.state {
        RunnerState::Failed { error } => assert_eq!(error, JobError::Submission),
        other => panic!("expected a submission failure, got {:?}", other),
    }
}

#[test]
fn transport_failure_while_polling_fails_with_poll_error() {
    let mut r = Runner::new(translated_query(), DEFAULT_MAX_POLL_ATTEMPTS);
    r.step(response("{\"jobId\":\"J5\"}"));
    r.step(Event::TransportFailure);
    match r.state {
        RunnerState::Failed { error } => assert_eq!(error, JobError::Poll),
        other => panic!("expected a poll failure, got {:?}", other),
    }
}

#[test]
fn undecodable_status_body_fails_with_poll_error() {
    let mut r = Runner::new(translated_query(), DEFAULT_MAX_POLL_ATTEMPTS);
    r.step(response("{\"jobId\":\"J6\"}"));
    r.step(response("{\"unexpected\":\"shape\"}"));
    match r.state {
        RunnerState::Failed { error } => assert_eq!(error, JobError::Poll),
        other => panic!("expected a poll failure, got {:?}", other),
    }
}

#[test]
fn transport_failure_at_fetch_fails_with_fetch_error() {
    let mut r = Runner::new(translated_query(), DEFAULT_MAX_POLL_ATTEMPTS);
    r.step(response("{\"jobId\":\"J7\"}"));
    r.step(response("{\"jobStatus\":\"FINISHED\"}"));
    r.step(Event::TransportFailure);
    match r.state {
        RunnerState::Failed { error } => assert_eq!(error, JobError::Fetch),
        other => panic!("expected a fetch failure, got {:?}", other),
    }
}
