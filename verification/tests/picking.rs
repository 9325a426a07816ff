use togglcli::models::{Project, TimeEntry};
use togglcli::picker::{
    entry_items, interpret_external, match_label, picker_input, project_items, PickReply,
    PickerItem,
};

fn item(label: &str, value: u64) -> PickerItem {
    PickerItem { label: label.to_string(), value }
}

#[test]
fn empty_candidates_need_no_ui() {
    let items: Vec<PickerItem> = Vec::new();
    assert_eq!(picker_input(&items), None);
}

#[test]
fn picker_input_is_one_label_per_line_in_order() {
    let items = vec![item("first", 0), item("second", 1)];
    assert_eq!(picker_input(&items), Some("first\nsecond\n".to_string()));
}

#[test]
fn match_label_takes_first_of_equal_labels() {
    let items = vec![item("dup", 0), item("dup", 1), item("other", 2)];
    assert_eq!(match_label(&items, &"dup".to_string()), Some(0));
    assert_eq!(match_label(&items, &"other".to_string()), Some(2));
    assert_eq!(match_label(&items, &"missing".to_string()), None);
}

#[test]
fn no_output_is_a_cancellation_whatever_the_exit() {
    let items = vec![item("a", 0)];
    assert_eq!(interpret_external(&items, true, None), PickReply::Cancelled);
    assert_eq!(interpret_external(&items, false, None), PickReply::Cancelled);
}

#[test]
fn clean_exit_with_known_label_selects_it() {
    let items = vec![item("a", 0), item("b", 1)];
    assert_eq!(
        interpret_external(&items, true, Some("b".to_string())),
        PickReply::Selected(1)
    );
}

#[test]
fn failures_are_distinct_from_cancellation() {
    let items = vec![item("a", 0)];
    assert_eq!(
        interpret_external(&items, false, Some("a".to_string())),
        PickReply::Failed
    );
    assert_eq!(
        interpret_external(&items, true, Some("unknown".to_string())),
        PickReply::Failed
    );
}

#[test]
fn project_items_are_labelled_by_name() {
    let ps = vec![
        Project { id: 4, name: "web".to_string(), billable: true, workspace_id: 1 },
        Project { id: 9, name: "ops".to_string(), billable: false, workspace_id: 1 },
    ];
    let items = project_items(&ps);
    assert_eq!(items.len(), 2);
    assert_eq!(items[0].label, "web");
    assert_eq!(items[0].value, 0);
    assert_eq!(items[1].label, "ops");
    assert_eq!(items[1].value, 1);
}

#[test]
fn entry_items_are_labelled_by_description() {
    let es = vec![TimeEntry {
        id: 1,
        description: "deploy".to_string(),
        project_id: None,
        start: 0,
        stop: None,
        billable: false,
    }];
    let items = entry_items(&es);
    assert_eq!(items.len(), 1);
    assert_eq!(items[0].label, "deploy");
    assert_eq!(items[0].value, 0);
}
