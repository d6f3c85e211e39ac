use perspective::ApiError;
use perspective::ApiErrorBody;
use perspective::Dispatcher;
use perspective::EmptyApiResponse;
use perspective::Priority;
use perspective::RawApiResponse;
use perspective::SubmitOutcome;

fn accepted_ticket(outcome: SubmitOutcome<u64>) -> u64 {
    match outcome {
        SubmitOutcome::Accepted { ticket } => ticket,
        SubmitOutcome::Rejected { .. } => panic!("submission was rejected"),
        SubmitOutcome::Halted => panic!("dispatcher was halted"),
    }
}

#[test]
fn third_submission_over_capacity_is_rejected_immediately() {
    // maximum_queue_size = 2: two Normal submissions queue, the third
    // yields QueueFull at once, with no pacer tick involved.
    let mut d: Dispatcher<u64> = Dispatcher::new(2);
    accepted_ticket(d.submit(Priority::Normal));
    accepted_ticket(d.submit(Priority::Normal));
    match d.submit(Priority::Normal) {
        SubmitOutcome::Rejected { response } => {
            assert_eq!(response, Err(ApiError::QueueFull));
        }
        _ => panic!("third submission should have been rejected"),
    }
    assert_eq!(d.tier_len(Priority::Normal), 2);
}

#[test]
fn rejection_is_per_tier() {
    let mut d: Dispatcher<u64> = Dispatcher::new(1);
    accepted_ticket(d.submit(Priority::Normal));
    assert!(matches!(
        d.submit(Priority::Normal),
        SubmitOutcome::Rejected { .. }
    ));
    // the other tiers still have room
    accepted_ticket(d.submit(Priority::High));
    accepted_ticket(d.submit(Priority::Low));
}

#[test]
fn one_release_per_tick_high_first() {
    // One High and one Low request, both already completed: the next
    // tick releases the High response alone; the Low response waits
    // for a later tick.
    let mut d: Dispatcher<u64> = Dispatcher::new(4);
    let th = accepted_ticket(d.submit(Priority::High));
    let tl = accepted_ticket(d.submit(Priority::Low));
    assert!(d.complete(tl, Ok(100)));
    assert!(d.complete(th, Ok(200)));
    assert_eq!(d.tick(), Some(Ok(200)));
    assert_eq!(d.tick(), Some(Ok(100)));
    assert_eq!(d.tick(), None);
}

#[test]
fn within_a_tier_responses_keep_submission_order() {
    // The second call finishes first, but the tier stays FIFO: nothing
    // leaves until the head of line completes.
    let mut d: Dispatcher<u64> = Dispatcher::new(4);
    let t1 = accepted_ticket(d.submit(Priority::Normal));
    let t2 = accepted_ticket(d.submit(Priority::Normal));
    assert!(d.complete(t2, Ok(22)));
    assert_eq!(d.tick(), None);
    assert!(d.complete(t1, Ok(11)));
    assert_eq!(d.tick(), Some(Ok(11)));
    assert_eq!(d.tick(), Some(Ok(22)));
    assert_eq!(d.tick(), None);
}

#[test]
fn pending_high_head_blocks_ready_lower_tiers() {
    // Strict priority: while the High tier has an uncompleted head of
    // line, a ready Normal response is not released either.
    let mut d: Dispatcher<u64> = Dispatcher::new(4);
    let _th = accepted_ticket(d.submit(Priority::High));
    let tn = accepted_ticket(d.submit(Priority::Normal));
    assert!(d.complete(tn, Ok(1)));
    assert_eq!(d.tick(), None);
}

#[test]
fn errors_flow_through_like_successes() {
    let mut d: Dispatcher<u64> = Dispatcher::new(2);
    let t = accepted_ticket(d.submit(Priority::Normal));
    let failure = Err(ApiError::TransportFailure("connection reset".into()));
    assert!(d.complete(t, failure.clone()));
    assert_eq!(d.tick(), Some(failure));
}

#[test]
fn completion_for_unknown_ticket_changes_nothing() {
    let mut d: Dispatcher<u64> = Dispatcher::new(2);
    let t = accepted_ticket(d.submit(Priority::Normal));
    assert!(!d.complete(t + 1, Ok(9)));
    assert_eq!(d.tick(), None);
}

#[test]
fn empty_tick_is_a_no_op() {
    let mut d: Dispatcher<u64> = Dispatcher::new(2);
    assert_eq!(d.tick(), None);
    assert_eq!(d.tier_len(Priority::High), 0);
    assert_eq!(d.tier_len(Priority::Normal), 0);
    assert_eq!(d.tier_len(Priority::Low), 0);
}

#[test]
fn shutdown_discards_queued_work_and_silences_ticks() {
    // Even when in-flight calls complete after the shutdown signal, no
    // further response is released.
    let mut d: Dispatcher<u64> = Dispatcher::new(4);
    let t1 = accepted_ticket(d.submit(Priority::High));
    let t2 = accepted_ticket(d.submit(Priority::Low));
    assert!(d.complete(t1, Ok(1)));
    d.shutdown();
    assert!(d.is_stopped());
    assert!(!d.complete(t2, Ok(2)));
    assert_eq!(d.tick(), None);
    assert!(matches!(d.submit(Priority::Normal), SubmitOutcome::Halted));
    assert_eq!(d.tier_len(Priority::High), 0);
    assert_eq!(d.tier_len(Priority::Low), 0);
}

#[test]
fn dispatcher_reports_its_shape() {
    let d: Dispatcher<u64> = Dispatcher::new(7);
    assert_eq!(d.capacity(), 7);
    assert!(!d.is_stopped());
    assert!(d.has_fresh_ticket());
}

#[test]
fn extract_classifies_scored_payloads_as_success() {
    let raw: RawApiResponse<u64> = RawApiResponse::Valid(42);
    assert_eq!(raw.extract(), Ok(42));
}

#[test]
fn extract_classifies_empty_answers_as_errors() {
    let empty = EmptyApiResponse {
        languages: vec![],
        client_token: Some("tok".into()),
    };
    let raw: RawApiResponse<u64> = RawApiResponse::ValidNoResponse(empty.clone());
    assert_eq!(raw.extract(), Err(ApiError::EmptyResponse(empty)));
}

#[test]
fn extract_classifies_structured_errors() {
    let body = ApiErrorBody::new(400, "API key not valid".into(), "INVALID_ARGUMENT".into());
    let raw: RawApiResponse<u64> = RawApiResponse::Invalid(body.clone());
    assert_eq!(raw.extract(), Err(ApiError::RemoteError(body.clone())));
    assert_eq!(body.message(), "API key not valid");
}
