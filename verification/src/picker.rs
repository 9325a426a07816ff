use vstd::prelude::*;
use vstd::string::StringExecFns;

use crate::models::{Project, TimeEntry};

verus! {

/// A labelled candidate handed to the picker. The value is round-tripped back
/// unchanged — the picker never interprets it; here it is the index of the
/// candidate in the list the items were built from.
#[derive(Debug, PartialEq)]
pub struct PickerItem {
    pub label: String,
    pub value: u64,
}

/// What one round of picking ends in: a selected value, a user-initiated
/// cancellation, or a failure of the picker mechanism itself.
#[derive(Clone, Copy, Debug, PartialEq, Eq, Structural)]
pub enum PickReply {
    Selected(u64),
    Cancelled,
    Failed,
}

/// First index among `items` whose label reads `label`, if any: with duplicate
/// labels, the first match wins.
pub open spec fn first_label_match(items: Seq<PickerItem>, label: Seq<char>) -> Option<int>
    decreases items.len(),
{
    if items.len() == 0 {
        None
    } else if items[0].label@ == label {
        Some(0int)
    } else {
        match first_label_match(items.drop_first(), label) {
            Some(i) => Some(i + 1),
            None => None,
        }
    }
}

/// `first_label_match` returns exactly the first match: a valid index whose
/// item carries the label, with no earlier match; `None` when no item does.
pub proof fn lemma_first_label_match(items: Seq<PickerItem>, label: Seq<char>)
    ensures
        match first_label_match(items, label) {
            Some(i) => 0 <= i < items.len() && items[i].label@ == label
                && (forall|j: int| 0 <= j < i ==> items[j].label@ != label),
            None => forall|j: int| 0 <= j < items.len() ==> items[j].label@ != label,
        },
    decreases items.len(),
{
    if items.len() > 0 && items[0].label@ != label {
        lemma_first_label_match(items.drop_first(), label);
        assert forall|j: int| 1 <= j < items.len() implies items[j] == items.drop_first()[j - 1] by {}
    }
}

/// Maps a label the picker returned back to the first item carrying it.
pub fn match_label(items: &Vec<PickerItem>, chosen: &String) -> (r: Option<usize>)
    ensures
        match r {
            Some(i) => first_label_match(items@, chosen@) == Some(i as int),
            None => first_label_match(items@, chosen@) is None,
        },
{
    let mut i: usize = 0;
    while i < items.len()
        invariant
            i <= items@.len(),
            forall|j: int| 0 <= j < i ==> items@[j].label@ != chosen@,
        decreases items@.len() - i,
    {
        if items[i].label == *chosen {
            proof {
                lemma_first_label_match(items@, chosen@);
            }
            return Some(i);
        }
        i = i + 1;
    }
    proof {
        lemma_first_label_match(items@, chosen@);
    }
    None
}

/// The labels of `items` in their given order, each followed by a newline:
/// what an external fuzzy-finder process is fed on its standard input.
pub open spec fn joined_labels(items: Seq<PickerItem>) -> Seq<char>
    decreases items.len(),
{
    if items.len() == 0 {
        Seq::empty()
    } else {
        items[0].label@ + "\n"@ + joined_labels(items.drop_first())
    }
}

/// Appending one item appends its label and a newline.
pub proof fn lemma_joined_labels_push(items: Seq<PickerItem>, it: PickerItem)
    ensures
        joined_labels(items.push(it)) == joined_labels(items) + it.label@ + "\n"@,
    decreases items.len(),
{
    let pushed = items.push(it);
    if items.len() == 0 {
        assert(pushed[0] == it);
        assert(pushed.drop_first() =~= Seq::<PickerItem>::empty());
        assert(joined_labels(pushed.drop_first()) == Seq::<char>::empty());
        assert(joined_labels(pushed) =~= joined_labels(items) + it.label@ + "\n"@);
    } else {
        assert(pushed[0] == items[0]);
        assert(pushed.drop_first() =~= items.drop_first().push(it));
        lemma_joined_labels_push(items.drop_first(), it);
        assert(joined_labels(pushed) == pushed[0].label@ + "\n"@ + joined_labels(pushed.drop_first()));
        assert(joined_labels(pushed) =~= joined_labels(items) + it.label@ + "\n"@);
    }
}

/// First step of either picker strategy: with no candidates there is nothing
/// to present, and the pick is already "no selection" — no UI is shown, no
/// process is spawned. Otherwise this is the text piped to the picker, one
/// label per line in the given order.
pub fn picker_input(items: &Vec<PickerItem>) -> (r: Option<String>)
    ensures
        r is Some <==> items@.len() > 0,
        match r {
            Some(s) => s@ == joined_labels(items@),
            None => true,
        },
{
    if items.len() == 0 {
        return None;
    }
    let mut out = String::new();
    let mut i: usize = 0;
    while i < items.len()
        invariant
            i <= items@.len(),
            out@ == joined_labels(items@.take(i as int)),
        decreases items@.len() - i,
    {
        out.append(items[i].label.as_str());
        out.append("\n");
        proof {
            assert(items@.take(i + 1int) =~= items@.take(i as int).push(items@[i as int]));
            lemma_joined_labels_push(items@.take(i as int), items@[i as int]);
        }
        i = i + 1;
    }
    proof {
        assert(items@.take(items@.len() as int) =~= items@);
    }
    Some(out)
}

/// What the reply of an external picker process means. No output means the
/// user cancelled, whatever the exit status; output from a cleanly exited
/// process selects the first item carrying that label; anything else — a
/// non-zero exit after a real selection attempt, or a label no item carries —
/// is a failure of the mechanism, distinct from cancellation.
pub open spec fn external_reply_spec(items: Seq<PickerItem>, exited_cleanly: bool, output: Option<Seq<char>>) -> PickReply {
    match output {
        None => PickReply::Cancelled,
        Some(line) => {
            if !exited_cleanly {
                PickReply::Failed
            } else {
                match first_label_match(items, line) {
                    Some(i) => PickReply::Selected(items[i].value),
                    None => PickReply::Failed,
                }
            }
        },
    }
}

/// Interprets what an external picker process handed back.
pub fn interpret_external(items: &Vec<PickerItem>, exited_cleanly: bool, output: Option<String>) -> (r: PickReply)
    ensures
        r == external_reply_spec(
            items@,
            exited_cleanly,
            match output {
                Some(line) => Some(line@),
                None => None,
            },
        ),
{
    match output {
        None => PickReply::Cancelled,
        Some(line) => {
            if !exited_cleanly {
                PickReply::Failed
            } else {
                match match_label(items, &line) {
                    Some(i) => {
                        proof {
                            lemma_first_label_match(items@, line@);
                        }
                        PickReply::Selected(items[i].value)
                    },
                    None => PickReply::Failed,
                }
            }
        },
    }
}

/// Picker candidates for the projects a Start may run under: labelled by the
/// project's name, valued by its position.
pub fn project_items(ps: &Vec<Project>) -> (r: Vec<PickerItem>)
    ensures
        r@.len() == ps@.len(),
        forall|i: int| 0 <= i < ps@.len() ==> #[trigger] r@[i].label@ == ps@[i].name@ && r@[i].value == i,
{
    let mut items: Vec<PickerItem> = Vec::new();
    let mut i: usize = 0;
    while i < ps.len()
        invariant
            i <= ps@.len(),
            items@.len() == i,
            forall|j: int| 0 <= j < i ==> #[trigger] items@[j].label@ == ps@[j].name@ && items@[j].value == j,
        decreases ps@.len() - i,
    {
        items.push(PickerItem { label: ps[i].name.clone(), value: i as u64 });
        i = i + 1;
    }
    items
}

/// Picker candidates for the recent entries a Continue may re-create:
/// labelled by the entry's description, valued by its position.
pub fn entry_items(es: &Vec<TimeEntry>) -> (r: Vec<PickerItem>)
    ensures
        r@.len() == es@.len(),
        forall|i: int| 0 <= i < es@.len() ==> #[trigger] r@[i].label@ == es@[i].description@ && r@[i].value == i,
{
    let mut items: Vec<PickerItem> = Vec::new();
    let mut i: usize = 0;
    while i < es.len()
        invariant
            i <= es@.len(),
            items@.len() == i,
            forall|j: int| 0 <= j < i ==> #[trigger] items@[j].label@ == es@[j].description@ && items@[j].value == j,
        decreases es@.len() - i,
    {
        items.push(PickerItem { label: es[i].description.clone(), value: i as u64 });
        i = i + 1;
    }
    items
}

} // verus!
