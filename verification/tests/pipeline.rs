use fossbox::Action;
use fossbox::ContentIdentifier;
use fossbox::Event;
use fossbox::Fault;
use fossbox::Orchestrator;
use fossbox::Phase;

fn ident(text: &str) -> ContentIdentifier {
    ContentIdentifier::from_bytes(text.as_bytes().to_vec())
}

fn expect_run_publish(a: Action, text: &str) {
    match a {
        Action::RunPublish(id) => assert_eq!(id.as_bytes().as_slice(), text.as_bytes()),
        _ => panic!("expected a publish action"),
    }
}

/// Runs one full successful snapshot-and-publish round from `Idle`.
fn publish_round(orc: &mut Orchestrator, text: &str) {
    assert!(matches!(orc.step(Event::Trigger), Action::RunStore));
    let a = orc.step(Event::StoreDone(Ok(ident(text))));
    expect_run_publish(a, text);
    assert!(matches!(orc.step(Event::PublishDone(Ok(()))), Action::Nothing));
    assert_eq!(orc.phase(), Phase::Idle);
    assert_eq!(
        orc.last_published().unwrap().as_bytes().as_slice(),
        text.as_bytes()
    );
}

#[test]
fn first_publish_records_identifier() {
    let mut orc = Orchestrator::new();
    assert_eq!(orc.phase(), Phase::Idle);
    assert!(orc.last_published().is_none());
    publish_round(&mut orc, "Qm111");
}

#[test]
fn unchanged_tree_skips_publish() {
    let mut orc = Orchestrator::new();
    publish_round(&mut orc, "Qm111");
    // The tree is unchanged: the same identifier comes back and the naming
    // service is not invoked again.
    assert!(matches!(orc.step(Event::Trigger), Action::RunStore));
    assert!(matches!(
        orc.step(Event::StoreDone(Ok(ident("Qm111")))),
        Action::Nothing
    ));
    assert_eq!(orc.phase(), Phase::Idle);
    assert_eq!(orc.last_published().unwrap().as_bytes().as_slice(), b"Qm111");
}

#[test]
fn changed_then_reverted_tree() {
    let mut orc = Orchestrator::new();
    // Empty directory: Qm111 is published and recorded.
    publish_round(&mut orc, "Qm111");
    // A file is added: Qm222 is published and recorded.
    publish_round(&mut orc, "Qm222");
    // The file is removed, restoring the old contents: the store hands back
    // Qm111 again. The record holds Qm222, so this revert is republished.
    publish_round(&mut orc, "Qm111");
    // A further trigger over the unchanged tree is deduplicated.
    assert!(matches!(orc.step(Event::Trigger), Action::RunStore));
    assert!(matches!(
        orc.step(Event::StoreDone(Ok(ident("Qm111")))),
        Action::Nothing
    ));
    assert_eq!(orc.last_published().unwrap().as_bytes().as_slice(), b"Qm111");
}

#[test]
fn malformed_store_output_fails_softly() {
    // The store's output holds no identifier token.
    let out = b"\n".to_vec();
    let fault = match fossbox::parse_store_output(&out) {
        Err(f) => f,
        Ok(_) => panic!("malformed output must not parse"),
    };
    assert_eq!(fault, Fault::StoreError);
    // The orchestrator takes the failure, backs off, and comes back to rest
    // without updating the record and without crashing.
    let mut orc = Orchestrator::new();
    publish_round(&mut orc, "Qm111");
    assert!(matches!(orc.step(Event::Trigger), Action::RunStore));
    assert!(matches!(
        orc.step(Event::StoreDone(Err(fault))),
        Action::StartBackoff
    ));
    assert_eq!(orc.phase(), Phase::Failed);
    assert_eq!(orc.last_fault(), Some(Fault::StoreError));
    assert_eq!(orc.last_published().unwrap().as_bytes().as_slice(), b"Qm111");
    assert!(matches!(orc.step(Event::BackoffElapsed), Action::Nothing));
    assert_eq!(orc.phase(), Phase::Idle);
}

#[test]
fn trigger_during_snapshot_is_queued_not_run() {
    let mut orc = Orchestrator::new();
    assert!(matches!(orc.step(Event::Trigger), Action::RunStore));
    assert_eq!(orc.phase(), Phase::Snapshotting);
    // A second trigger while the store runs must not start a second
    // sequence.
    assert!(matches!(orc.step(Event::Trigger), Action::Nothing));
    assert!(matches!(orc.step(Event::Trigger), Action::Nothing));
    assert_eq!(orc.phase(), Phase::Snapshotting);
    assert!(orc.has_pending_trigger());
}

#[test]
fn trigger_during_publish_is_served_after_completion() {
    let mut orc = Orchestrator::new();
    assert!(matches!(orc.step(Event::Trigger), Action::RunStore));
    let a = orc.step(Event::StoreDone(Ok(ident("Qm111"))));
    expect_run_publish(a, "Qm111");
    // A change arrives while the publish is in flight.
    assert!(matches!(orc.step(Event::Trigger), Action::Nothing));
    assert!(orc.has_pending_trigger());
    // Once the publish completes, exactly one new store run is issued.
    assert!(matches!(orc.step(Event::PublishDone(Ok(()))), Action::RunStore));
    assert!(!orc.has_pending_trigger());
    assert_eq!(orc.phase(), Phase::Snapshotting);
    assert_eq!(orc.last_published().unwrap().as_bytes().as_slice(), b"Qm111");
    // The queued trigger was consumed: completing this round quietly leaves
    // the machine at rest, with no further store run.
    assert!(matches!(
        orc.step(Event::StoreDone(Ok(ident("Qm111")))),
        Action::Nothing
    ));
    assert_eq!(orc.phase(), Phase::Idle);
}

#[test]
fn store_failure_does_not_block_later_trigger() {
    let mut orc = Orchestrator::new();
    assert!(matches!(orc.step(Event::Trigger), Action::RunStore));
    assert!(matches!(
        orc.step(Event::StoreDone(Err(Fault::StoreUnavailable))),
        Action::StartBackoff
    ));
    assert_eq!(orc.phase(), Phase::Failed);
    assert_eq!(orc.last_fault(), Some(Fault::StoreUnavailable));
    assert!(matches!(orc.step(Event::BackoffElapsed), Action::Nothing));
    assert_eq!(orc.phase(), Phase::Idle);
    // A later, independent trigger is processed in full.
    publish_round(&mut orc, "Qm333");
}

#[test]
fn failed_publish_is_not_recorded_and_is_retried() {
    let mut orc = Orchestrator::new();
    assert!(matches!(orc.step(Event::Trigger), Action::RunStore));
    let a = orc.step(Event::StoreDone(Ok(ident("Qm111"))));
    expect_run_publish(a, "Qm111");
    assert!(matches!(
        orc.step(Event::PublishDone(Err(Fault::PublishUnavailable))),
        Action::StartBackoff
    ));
    assert_eq!(orc.last_fault(), Some(Fault::PublishUnavailable));
    // The identifier was not recorded, so the next trigger retries the same
    // publish.
    assert!(orc.last_published().is_none());
    assert!(matches!(orc.step(Event::BackoffElapsed), Action::Nothing));
    publish_round(&mut orc, "Qm111");
}

#[test]
fn publish_error_is_reported() {
    let mut orc = Orchestrator::new();
    assert!(matches!(orc.step(Event::Trigger), Action::RunStore));
    let a = orc.step(Event::StoreDone(Ok(ident("Qm444"))));
    expect_run_publish(a, "Qm444");
    assert!(matches!(
        orc.step(Event::PublishDone(Err(Fault::PublishError))),
        Action::StartBackoff
    ));
    assert_eq!(orc.last_fault(), Some(Fault::PublishError));
    assert!(orc.last_published().is_none());
}

#[test]
fn trigger_during_backoff_is_queued() {
    let mut orc = Orchestrator::new();
    assert!(matches!(orc.step(Event::Trigger), Action::RunStore));
    assert!(matches!(
        orc.step(Event::StoreDone(Err(Fault::StoreError))),
        Action::StartBackoff
    ));
    assert!(matches!(orc.step(Event::Trigger), Action::Nothing));
    assert!(orc.has_pending_trigger());
    // The queued trigger is served as soon as the backoff ends.
    assert!(matches!(orc.step(Event::BackoffElapsed), Action::RunStore));
    assert_eq!(orc.phase(), Phase::Snapshotting);
    assert!(!orc.has_pending_trigger());
}
