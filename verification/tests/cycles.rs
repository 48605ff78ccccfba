//! End-to-end scenarios over a tiny in-memory stand-in for the platform's
//! marker store, exercising the planning pipeline as the orchestrator would.

use review_bot::compose::HEADER;
use review_bot::compose::compose_comment;
use review_bot::errors::CycleError;
use review_bot::filter::SkipReason;
use review_bot::item::ChangeRecord;
use review_bot::item::Item;
use review_bot::item::Lifecycle;
use review_bot::item::RawItem;
use review_bot::item::validate_item;
use review_bot::markers::MarkerOp;
use review_bot::markers::MarkerPair;
use review_bot::markers::clear_ops;
use review_bot::plan::ItemAction;
use review_bot::plan::plan_item;
use review_bot::precheck::PrecheckPolicy;
use review_bot::tracker::AttemptDecision;
use review_bot::tracker::evaluate;

/// An in-memory marker store: the identifiers of the two markers, if
/// present, and a counter handing out fresh identifiers.
struct FakeStore {
    pair: MarkerPair,
    next_id: u64,
}

impl FakeStore {
    fn new() -> FakeStore {
        FakeStore { pair: MarkerPair { primary: None, secondary: None }, next_id: 100 }
    }

    fn apply(&mut self, ops: &[MarkerOp]) {
        for op in ops {
            match op {
                MarkerOp::CreatePrimary => {
                    self.pair.primary = Some(self.next_id);
                    self.next_id += 1;
                }
                MarkerOp::CreateSecondary => {
                    self.pair.secondary = Some(self.next_id);
                    self.next_id += 1;
                }
                MarkerOp::DeletePrimary(id) => {
                    assert_eq!(self.pair.primary, Some(*id));
                    self.pair.primary = None;
                }
                MarkerOp::DeleteSecondary(id) => {
                    assert_eq!(self.pair.secondary, Some(*id));
                    self.pair.secondary = None;
                }
            }
        }
    }
}

fn policy() -> PrecheckPolicy {
    PrecheckPolicy { flag_multiple: false }
}

fn item_forty_two() -> Item {
    Item {
        id: 42,
        state: Lifecycle::Open,
        comments: 0,
        labels: vec!["Size: M".to_string()],
        body: "## Summary\nfoo".to_string(),
        records: vec![ChangeRecord { message: "title\n\nbody".to_string() }],
    }
}

#[test]
fn an_open_item_is_attempted_published_and_cleared() {
    let mut store = FakeStore::new();
    let item = item_forty_two();

    let action = plan_item(&item, &store.pair, &policy());
    let (ops, advisory) = match action {
        ItemAction::Generate { ops, prompt, advisory } => {
            assert!(prompt.ends_with("## Summary\nfoo"));
            (ops, advisory)
        }
        ItemAction::Skip(reason) => panic!("item skipped: {:?}", reason),
    };

    // Bumping from fresh creates the primary marker.
    assert_eq!(ops, vec![MarkerOp::CreatePrimary]);
    store.apply(&ops);
    assert!(store.pair.primary.is_some());
    assert!(store.pair.secondary.is_none());

    // The generation service answers; the comment is composed and published.
    let comment = compose_comment(&advisory, "Looks fine.");
    assert_eq!(comment, format!("{}\n\n\n\nLooks fine.", HEADER));

    // On publish success the markers are cleared back to fresh.
    let clearing = clear_ops(&store.pair);
    store.apply(&clearing);
    assert_eq!(store.pair.primary, None);
    assert_eq!(store.pair.secondary, None);
}

#[test]
fn the_excluded_size_is_rejected_before_any_marker_call() {
    let store = FakeStore::new();
    let mut item = item_forty_two();
    item.id = 43;
    item.labels = vec!["Size: XS".to_string()];

    let action = plan_item(&item, &store.pair, &policy());
    match action {
        ItemAction::Skip(reason) => assert_eq!(reason, SkipReason::ExcludedSize),
        ItemAction::Generate { .. } => panic!("item 43 must not be attempted"),
    }
}

#[test]
fn three_failed_cycles_exhaust_the_attempts_and_the_fourth_skips() {
    let mut store = FakeStore::new();

    // Three cycles each bump and then fail before publishing, so the
    // markers are never cleared.
    for _cycle in 0..3 {
        match evaluate(&store.pair) {
            AttemptDecision::Proceed(ops) => store.apply(&ops),
            AttemptDecision::Skip => panic!("attempts exhausted too early"),
        }
    }

    // Both markers now stand: the terminal state.
    assert!(store.pair.primary.is_some());
    assert!(store.pair.secondary.is_some());

    // The fourth cycle observes the terminal state and skips without any
    // further marker operation.
    assert!(matches!(evaluate(&store.pair), AttemptDecision::Skip));

    // The whole pipeline skips such an item too, whatever else it offers.
    let action = plan_item(&item_forty_two(), &store.pair, &policy());
    match action {
        ItemAction::Skip(reason) => assert_eq!(reason, SkipReason::Exhausted),
        ItemAction::Generate { .. } => panic!("an exhausted item must not be attempted"),
    }
}

#[test]
fn a_fetched_item_missing_a_field_is_rejected() {
    let raw = RawItem {
        id: 7,
        state: None,
        comments: Some(0),
        labels: Some(vec![]),
        body: Some("b".to_string()),
        records: vec![],
    };
    assert_eq!(validate_item(raw).err(), Some(CycleError::MissingField));
}

#[test]
fn a_complete_item_carries_its_fields_over_and_defaults_the_body() {
    let raw = RawItem {
        id: 7,
        state: Some(Lifecycle::Open),
        comments: Some(2),
        labels: Some(vec!["Size: L".to_string()]),
        body: None,
        records: vec![ChangeRecord { message: "m\n\nb".to_string() }],
    };
    let item = validate_item(raw).expect("complete item must validate");
    assert_eq!(item.id, 7);
    assert_eq!(item.state, Lifecycle::Open);
    assert_eq!(item.comments, 2);
    assert_eq!(item.labels, vec!["Size: L".to_string()]);
    assert_eq!(item.body, "");
    assert_eq!(item.records.len(), 1);
}
