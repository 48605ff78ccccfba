use review_bot::item::ChangeRecord;
use review_bot::precheck::FILL_MESSAGE_ADVISORY;
use review_bot::precheck::PrecheckPolicy;
use review_bot::precheck::SQUASH_ADVISORY;
use review_bot::precheck::precheck;

fn records(messages: &[&str]) -> Vec<ChangeRecord> {
    messages.iter().map(|m| ChangeRecord { message: m.to_string() }).collect()
}

fn quiet() -> PrecheckPolicy {
    PrecheckPolicy { flag_multiple: false }
}

#[test]
fn a_message_without_separator_is_flagged() {
    let advisory = precheck(&records(&["fix bug"]), &quiet());
    assert_eq!(advisory, FILL_MESSAGE_ADVISORY);
}

#[test]
fn a_message_with_title_and_body_is_not_flagged() {
    let advisory = precheck(&records(&["fix bug\n\ndetails"]), &quiet());
    assert_eq!(advisory, "");
}

#[test]
fn a_single_newline_counts_as_separator() {
    let advisory = precheck(&records(&["fix bug\ndetails"]), &quiet());
    assert_eq!(advisory, "");
}

#[test]
fn one_bad_message_among_good_ones_is_flagged_once() {
    let advisory = precheck(&records(&["a\n\nb", "oops", "c\n\nd"]), &quiet());
    assert_eq!(advisory, FILL_MESSAGE_ADVISORY);
}

#[test]
fn no_records_give_no_advisory() {
    let advisory = precheck(&records(&[]), &quiet());
    assert_eq!(advisory, "");
}

#[test]
fn multiple_records_are_flagged_when_the_policy_says_so() {
    let noisy = PrecheckPolicy { flag_multiple: true };
    let advisory = precheck(&records(&["a\n\nb", "c\n\nd"]), &noisy);
    assert_eq!(advisory, SQUASH_ADVISORY);
}

#[test]
fn the_squash_advisory_precedes_the_message_advisory() {
    let noisy = PrecheckPolicy { flag_multiple: true };
    let advisory = precheck(&records(&["a\n\nb", "oops"]), &noisy);
    assert_eq!(advisory, format!("{}{}", SQUASH_ADVISORY, FILL_MESSAGE_ADVISORY));
}

#[test]
fn the_policy_switch_silences_the_squash_advisory() {
    let advisory = precheck(&records(&["a\n\nb", "c\n\nd"]), &quiet());
    assert_eq!(advisory, "");
}
