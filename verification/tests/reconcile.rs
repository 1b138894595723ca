use bitwarden_secret_operator::bitwarden_cli::{BitwardenError, BitwardenItem, BitwardenItemField};
use bitwarden_secret_operator::operator::controller::{
    error_policy, reconcile_bitwarden_secret, reconcile_bitwarden_secret_at, Action,
    BitwardenOperatorError, ReconcileStep, ERROR_REQUEUE_SECS, RECENT_REQUEUE_SECS,
    REFRESH_TTL_SECS, RESYNC_INTERVAL_SECS,
};
use bitwarden_secret_operator::operator::schemas::{
    BitwardenSecret, BitwardenSecretError, BitwardenSecretSpec, BitwardenSecretStatus,
    ContentEntry, ObjectMeta, OwnerReference,
};
use bitwarden_secret_operator::time::Timestamp;

fn text(s: &str) -> String {
    s.to_string()
}

fn owner() -> OwnerReference {
    OwnerReference {
        api_version: text("bitwarden-secret-operator.io/v1beta1"),
        kind: text("BitwardenSecret"),
        name: text("res"),
        uid: text("1234"),
        controller: Some(true),
        block_owner_deletion: None,
    }
}

fn field_entry(key: &str, id: &str, field: &str) -> ContentEntry {
    ContentEntry {
        kubernetes_secret_key: text(key),
        bitwarden_id: Some(text(id)),
        bitwarden_secret_field: Some(text(field)),
        ..ContentEntry::default()
    }
}

fn resource(content: Vec<ContentEntry>, last_updated: Option<Timestamp>) -> BitwardenSecret {
    BitwardenSecret {
        metadata: ObjectMeta { name: Some(text("res")), namespace: Some(text("ns")) },
        spec: BitwardenSecretSpec {
            name: Some(text("target")),
            content,
            ..BitwardenSecretSpec::default()
        },
        status: last_updated
            .map(|t| BitwardenSecretStatus { checksum: text("todo"), last_updated: Some(t) }),
    }
}

fn item(id: &str, field: &str, value: &str) -> BitwardenItem {
    BitwardenItem {
        id: text(id),
        note: None,
        fields: Some(vec![BitwardenItemField { name: text(field), value: text(value) }]),
    }
}

fn at(secs: i64, nanos: u32) -> Timestamp {
    Timestamp { secs, nanos }
}

fn ended(step: ReconcileStep) -> Result<Action, BitwardenOperatorError> {
    match step {
        ReconcileStep::Done(end) => end,
        other => panic!("the pass goes on: {:?}", other),
    }
}

#[test]
fn the_delays_are_fixed() {
    assert_eq!(REFRESH_TTL_SECS, 3600);
    assert_eq!(RECENT_REQUEUE_SECS, 60);
    assert_eq!(ERROR_REQUEUE_SECS, 5);
    assert_eq!(RESYNC_INTERVAL_SECS, 60);
    assert_eq!(Action::requeue(60), Action { requeue_after: Some(60) });
    assert_eq!(Action::await_change(), Action { requeue_after: None });
}

#[test]
fn a_fresh_secret_is_left_alone() {
    let obj = resource(vec![field_entry("k", "abc", "f")], Some(at(1000, 0)));
    let step = reconcile_bitwarden_secret_at(obj, owner(), at(1001, 0));
    assert_eq!(ended(step), Ok(Action { requeue_after: Some(60) }));
}

#[test]
fn a_secret_is_fresh_up_to_the_last_nanosecond_of_the_hour() {
    let obj = resource(vec![], Some(at(1000, 500)));
    let step = reconcile_bitwarden_secret_at(obj, owner(), at(4600, 499));
    assert_eq!(ended(step), Ok(Action { requeue_after: Some(60) }));
}

#[test]
fn a_secret_is_stale_after_one_hour() {
    let obj = resource(vec![], Some(at(1000, 500)));
    let step = reconcile_bitwarden_secret_at(obj, owner(), at(4600, 500));
    assert!(matches!(step, ReconcileStep::Lookup(_)));
    let later = resource(vec![field_entry("k", "abc", "f")], Some(at(1000, 0)));
    let step = reconcile_bitwarden_secret_at(later, owner(), at(10_000, 0));
    assert!(matches!(step, ReconcileStep::Fetch(_)));
}

#[test]
fn a_secret_counts_as_fresh_before_its_last_update() {
    let obj = resource(vec![], Some(at(1000, 0)));
    let step = reconcile_bitwarden_secret_at(obj, owner(), at(10, 0));
    assert_eq!(ended(step), Ok(Action { requeue_after: Some(60) }));
}

#[test]
fn a_fresh_secret_is_left_alone_even_where_the_spec_is_broken() {
    let broken = ContentEntry { kubernetes_secret_key: text("k"), ..ContentEntry::default() };
    let obj = resource(vec![broken], Some(at(1000, 0)));
    let step = reconcile_bitwarden_secret_at(obj, owner(), at(1001, 0));
    assert_eq!(ended(step), Ok(Action { requeue_after: Some(60) }));
}

#[test]
fn a_status_without_time_is_stale() {
    let mut obj = resource(vec![], None);
    obj.status = Some(BitwardenSecretStatus { checksum: text("todo"), last_updated: None });
    let step = reconcile_bitwarden_secret_at(obj, owner(), at(0, 0));
    assert!(matches!(step, ReconcileStep::Lookup(_)));
}

#[test]
fn a_time_at_the_bounds_does_not_overflow() {
    let obj = resource(vec![], Some(at(i64::MAX, u32::MAX)));
    let step = reconcile_bitwarden_secret_at(obj, owner(), at(i64::MAX, u32::MAX));
    assert_eq!(ended(step), Ok(Action { requeue_after: Some(60) }));
    let obj = resource(vec![], Some(at(i64::MIN, 0)));
    let step = reconcile_bitwarden_secret_at(obj, owner(), at(i64::MAX, 0));
    assert!(matches!(step, ReconcileStep::Lookup(_)));
}

#[test]
fn a_broken_spec_ends_the_pass_before_anything_is_fetched() {
    let broken = ContentEntry { kubernetes_secret_key: text("k"), ..ContentEntry::default() };
    let obj = resource(vec![field_entry("a", "abc", "f"), broken], None);
    let step = reconcile_bitwarden_secret_at(obj, owner(), at(5000, 0));
    assert_eq!(
        ended(step),
        Err(BitwardenOperatorError::BitwardenSecretError(
            BitwardenSecretError::MissingBitwardenId(text("k"))
        ))
    );
}

#[test]
fn a_pass_creates_a_secret_that_is_not_there() {
    let obj = resource(
        vec![field_entry("a", "one", "f"), field_entry("b", "two", "g"), field_entry("c", "one", "h")],
        None,
    );
    let step = reconcile_bitwarden_secret_at(obj, owner(), at(5000, 0));
    let ReconcileStep::Fetch(fetch) = step else { panic!("no fetch") };
    assert_eq!(fetch.item_id(), "one");
    let mut first = item("one", "f", "1");
    first.fields.as_mut().unwrap().push(BitwardenItemField { name: text("h"), value: text("3") });
    let step = fetch.resume_at(Ok(first), at(5001, 0));
    let ReconcileStep::Fetch(fetch) = step else { panic!("no second fetch") };
    assert_eq!(fetch.item_id(), "two");
    let step = fetch.resume_at(Ok(item("two", "g", "2")), at(5002, 0));
    let ReconcileStep::Lookup(lookup) = step else { panic!("no lookup") };
    assert_eq!(lookup.secret().namespace, "ns");
    assert_eq!(lookup.secret().name, "target");
    assert_eq!(lookup.secret().data.get("a"), Some(&b"1".to_vec()));
    assert_eq!(lookup.secret().data.get("b"), Some(&b"2".to_vec()));
    assert_eq!(lookup.secret().data.get("c"), Some(&b"3".to_vec()));
    assert_eq!(
        lookup.secret().labels.get("bitwarden-secret-operator-rs.io/last-update"),
        Some(&text("5002"))
    );
    let step = lookup.resume(Ok(false));
    let ReconcileStep::Write(write) = step else { panic!("no write") };
    assert!(!write.replaces());
    assert_eq!(write.secret().name, "target");
    assert_eq!(write.secret().data.len(), 3);
    assert_eq!(write.secret().owner_references.len(), 1);
    let step = write.resume_at(Ok(()), at(5003, 7));
    let ReconcileStep::Patch(patch) = step else { panic!("no patch") };
    assert_eq!(patch.namespace(), "ns");
    assert_eq!(patch.name(), "res");
    assert_eq!(patch.status().checksum, "todo");
    assert_eq!(patch.status().last_updated, Some(at(5003, 7)));
    assert_eq!(ended(patch.resume(Ok(()))), Ok(Action { requeue_after: None }));
}

#[test]
fn a_pass_replaces_a_secret_that_is_there() {
    let obj = resource(vec![], None);
    let step = reconcile_bitwarden_secret_at(obj, owner(), at(5000, 0));
    let ReconcileStep::Lookup(lookup) = step else { panic!("no lookup") };
    let ReconcileStep::Write(write) = lookup.resume(Ok(true)) else { panic!("no write") };
    assert!(write.replaces());
}

#[test]
fn an_item_that_cannot_be_fetched_ends_the_pass() {
    let obj = resource(vec![field_entry("a", "one", "f"), field_entry("b", "two", "g")], None);
    let step = reconcile_bitwarden_secret_at(obj, owner(), at(5000, 0));
    let ReconcileStep::Fetch(fetch) = step else { panic!("no fetch") };
    let ReconcileStep::Fetch(fetch) = fetch.resume_at(Ok(item("one", "f", "1")), at(5000, 0))
    else {
        panic!("no second fetch")
    };
    let step = fetch.resume_at(Err(BitwardenError::ItemNotFound(text("two"))), at(5000, 0));
    assert_eq!(
        ended(step),
        Err(BitwardenOperatorError::BitwardenSecretError(
            BitwardenSecretError::BitwardenItemNotFound(text("two"))
        ))
    );
}

#[test]
fn any_failure_of_a_fetch_counts_as_an_item_not_found() {
    let obj = resource(vec![field_entry("a", "one", "f")], None);
    let step = reconcile_bitwarden_secret_at(obj, owner(), at(5000, 0));
    let ReconcileStep::Fetch(fetch) = step else { panic!("no fetch") };
    let step = fetch.resume_at(Err(BitwardenError::SyncFailedTokenMissing), at(5000, 0));
    assert_eq!(
        ended(step),
        Err(BitwardenOperatorError::BitwardenSecretError(
            BitwardenSecretError::BitwardenItemNotFound(text("one"))
        ))
    );
}

#[test]
fn a_value_that_cannot_be_selected_ends_the_pass() {
    let obj = resource(vec![field_entry("a", "one", "f")], None);
    let step = reconcile_bitwarden_secret_at(obj, owner(), at(5000, 0));
    let ReconcileStep::Fetch(fetch) = step else { panic!("no fetch") };
    let step = fetch.resume_at(Ok(item("one", "other", "1")), at(5000, 0));
    assert_eq!(
        ended(step),
        Err(BitwardenOperatorError::BitwardenSecretError(
            BitwardenSecretError::BitwardenItemNotFound(text("f"))
        ))
    );
}

#[test]
fn a_failed_call_to_the_cluster_ends_the_pass() {
    let failed = |message: &str| Err(BitwardenOperatorError::KubernetesError(text(message)));

    let step = reconcile_bitwarden_secret_at(resource(vec![], None), owner(), at(5000, 0));
    let ReconcileStep::Lookup(lookup) = step else { panic!("no lookup") };
    assert_eq!(ended(lookup.resume(Err(text("lookup refused")))), failed("lookup refused"));

    let step = reconcile_bitwarden_secret_at(resource(vec![], None), owner(), at(5000, 0));
    let ReconcileStep::Lookup(lookup) = step else { panic!("no lookup") };
    let ReconcileStep::Write(write) = lookup.resume(Ok(true)) else { panic!("no write") };
    assert_eq!(ended(write.resume_at(Err(text("write refused")), at(5000, 0))), failed("write refused"));

    let step = reconcile_bitwarden_secret_at(resource(vec![], None), owner(), at(5000, 0));
    let ReconcileStep::Lookup(lookup) = step else { panic!("no lookup") };
    let ReconcileStep::Write(write) = lookup.resume(Ok(false)) else { panic!("no write") };
    let ReconcileStep::Patch(patch) = write.resume_at(Ok(()), at(5000, 0)) else {
        panic!("no patch")
    };
    assert_eq!(ended(patch.resume(Err(text("patch refused")))), failed("patch refused"));
}

#[test]
fn every_failure_is_tried_again_after_the_same_delay() {
    let obj = resource(vec![], None);
    let errors = vec![
        BitwardenOperatorError::KubernetesError(text("refused")),
        BitwardenOperatorError::BitwardenSecretError(BitwardenSecretError::MissingBitwardenId(
            text("k"),
        )),
        BitwardenOperatorError::BitwardenSecretError(BitwardenSecretError::WrongValues(
            text("abc"),
            text("bitwarden_use_note"),
        )),
    ];
    for error in &errors {
        assert_eq!(error_policy(&obj, error), Action { requeue_after: Some(5) });
    }
}

#[test]
fn a_pass_by_the_clock_goes_the_same_way() {
    let obj = resource(vec![field_entry("a", "one", "f")], None);
    let ReconcileStep::Fetch(fetch) = reconcile_bitwarden_secret(obj, owner()) else {
        panic!("no fetch")
    };
    let ReconcileStep::Lookup(lookup) = fetch.resume(Ok(item("one", "f", "1"))) else {
        panic!("no lookup")
    };
    let ReconcileStep::Write(write) = lookup.resume(Ok(false)) else { panic!("no write") };
    let ReconcileStep::Patch(patch) = write.resume(Ok(())) else { panic!("no patch") };
    assert!(patch.status().last_updated.unwrap().secs > 1_600_000_000);
    assert_eq!(ended(patch.resume(Ok(()))), Ok(Action { requeue_after: None }));
}

#[test]
fn a_secret_just_written_is_fresh_at_the_next_pass() {
    let ReconcileStep::Lookup(lookup) =
        reconcile_bitwarden_secret_at(resource(vec![], None), owner(), at(5000, 0))
    else {
        panic!("no lookup")
    };
    let ReconcileStep::Write(write) = lookup.resume(Ok(false)) else { panic!("no write") };
    let ReconcileStep::Patch(patch) = write.resume_at(Ok(()), at(5000, 0)) else {
        panic!("no patch")
    };
    let recorded = patch.status().last_updated;
    let next = resource(vec![], recorded);
    let step = reconcile_bitwarden_secret_at(next, owner(), at(5001, 0));
    assert_eq!(ended(step), Ok(Action { requeue_after: Some(60) }));
}
