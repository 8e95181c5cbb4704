//! A submission as it travels in a request: the fields of a JSON object.
//!
//! A submission is sent with the fields that a client sets and that are set;
//! the fields that only the service fills in never travel, and a field that
//! is not set is left out. A field always holds a value: there is no way to
//! send one as `null`.

use crate::model::{Decimal, Submission};
use vstd::prelude::*;

verus! {

/// What a field of an encoded object holds.
#[derive(Debug, PartialEq)]
pub enum FieldValue {
    /// A JSON string.
    Text(String),
    /// A JSON number without a fractional part.
    Count(usize),
    /// `true` or `false`.
    Flag(bool),
    /// A JSON number with a fractional part.
    Quantity(Decimal),
}

/// One field of an encoded object: its key and what it holds.
#[derive(Debug, PartialEq)]
pub struct Field {
    pub name: &'static str,
    pub value: FieldValue,
}

/// What a [`FieldValue`] holds, as mathematical values.
pub enum FieldValueView {
    Text(Seq<char>),
    Count(usize),
    Flag(bool),
    Quantity(Decimal),
}

/// What a [`Field`] holds, as mathematical values.
pub struct FieldView {
    pub name: Seq<char>,
    pub value: FieldValueView,
}

/// A field of a record that may or may not be set: its key and, if it is
/// set, what it holds.
pub struct Candidate {
    pub name: Seq<char>,
    pub value: Option<FieldValueView>,
}

impl View for FieldValue {
    type V = FieldValueView;

    open spec fn view(&self) -> FieldValueView {
        match *self {
            FieldValue::Text(text) => FieldValueView::Text(text@),
            FieldValue::Count(count) => FieldValueView::Count(count),
            FieldValue::Flag(on) => FieldValueView::Flag(on),
            FieldValue::Quantity(quantity) => FieldValueView::Quantity(quantity),
        }
    }
}

impl View for Field {
    type V = FieldView;

    open spec fn view(&self) -> FieldView {
        FieldView { name: self.name@, value: self.value@ }
    }
}

/// The fields of an object, in their order.
pub open spec fn object_view(fields: Seq<Field>) -> Seq<FieldView> {
    Seq::new(fields.len(), |i: int| fields[i]@)
}

/// The objects of an array, in their order.
pub open spec fn array_view(objects: Seq<Vec<Field>>) -> Seq<Seq<FieldView>> {
    Seq::new(objects.len(), |i: int| object_view(objects[i]@))
}

/// A field that holds a text.
pub open spec fn text_field(name: Seq<char>, text: Seq<char>) -> FieldView {
    FieldView { name, value: FieldValueView::Text(text) }
}

/// A field that holds a count.
pub open spec fn count_field(name: Seq<char>, count: usize) -> FieldView {
    FieldView { name, value: FieldValueView::Count(count) }
}

/// A text that may be set, as the content of a field.
pub open spec fn text_of(text: Option<String>) -> Option<FieldValueView> {
    match text {
        Some(t) => Some(FieldValueView::Text(t@)),
        None => None,
    }
}

/// A count that may be set, as the content of a field.
pub open spec fn count_of(count: Option<usize>) -> Option<FieldValueView> {
    match count {
        Some(n) => Some(FieldValueView::Count(n)),
        None => None,
    }
}

/// A flag that may be set, as the content of a field.
pub open spec fn flag_of(on: Option<bool>) -> Option<FieldValueView> {
    match on {
        Some(b) => Some(FieldValueView::Flag(b)),
        None => None,
    }
}

/// A quantity that may be set, as the content of a field.
pub open spec fn quantity_of(quantity: Option<Decimal>) -> Option<FieldValueView> {
    match quantity {
        Some(q) => Some(FieldValueView::Quantity(q)),
        None => None,
    }
}

/// The fields of a submission that a client may set, each under its key, in
/// the order in which they are sent.
pub open spec fn optional_inputs(submission: Submission) -> Seq<Candidate> {
    seq![
        Candidate { name: "compiler_options"@, value: text_of(submission.compiler_options) },
        Candidate {
            name: "command_line_arguments"@,
            value: text_of(submission.command_line_arguments),
        },
        Candidate { name: "stdin"@, value: text_of(submission.stdin) },
        Candidate { name: "expected_output"@, value: text_of(submission.expected_output) },
        Candidate { name: "cpu_time_limit"@, value: quantity_of(submission.cpu_time_limit) },
        Candidate { name: "cpu_extra_time"@, value: quantity_of(submission.cpu_extra_time) },
        Candidate { name: "wall_time_limit"@, value: quantity_of(submission.wall_time_limit) },
        Candidate { name: "memory_limit"@, value: quantity_of(submission.memory_limit) },
        Candidate { name: "stack_limit"@, value: count_of(submission.stack_limit) },
        Candidate {
            name: "max_processes_and_or_threads"@,
            value: count_of(submission.max_processes_and_or_threads),
        },
        Candidate {
            name: "enable_per_process_and_thread_time_limit"@,
            value: flag_of(submission.enable_per_process_and_thread_time_limit),
        },
        Candidate {
            name: "enable_per_process_and_thread_memory_limit"@,
            value: flag_of(submission.enable_per_process_and_thread_memory_limit),
        },
        Candidate { name: "max_file_size"@, value: count_of(submission.max_file_size) },
        Candidate {
            name: "redirect_stderr_to_stdout"@,
            value: flag_of(submission.redirect_stderr_to_stdout),
        },
        Candidate { name: "enable_network"@, value: flag_of(submission.enable_network) },
        Candidate { name: "number_of_runs"@, value: count_of(submission.number_of_runs) },
        Candidate { name: "additional_files"@, value: text_of(submission.additional_files) },
        Candidate { name: "callback_url"@, value: text_of(submission.callback_url) },
    ]
}

/// Of the candidates, those that are set, in their order.
pub open spec fn set_fields(candidates: Seq<Candidate>) -> Seq<FieldView>
    decreases candidates.len(),
{
    if candidates.len() == 0 {
        seq![]
    } else {
        let last = candidates.last();
        match last.value {
            Some(value) => set_fields(candidates.drop_last()).push(
                FieldView { name: last.name, value },
            ),
            None => set_fields(candidates.drop_last()),
        }
    }
}

/// The fields that are always sent: the source and the language.
pub open spec fn required_inputs(submission: Submission) -> Seq<FieldView> {
    seq![
        text_field("source_code"@, submission.source_code@),
        count_field("language_id"@, submission.language_id),
    ]
}

/// The object that stands for a submission in a request: the source and the
/// language, then each of the other fields that a client sets, if it is
/// set.
pub open spec fn input_fields(submission: Submission) -> Seq<FieldView> {
    required_inputs(submission) + set_fields(optional_inputs(submission))
}

/// The objects that stand for the submissions of a list, in the same order.
pub open spec fn all_input_fields(list: Seq<Submission>) -> Seq<Seq<FieldView>> {
    Seq::new(list.len(), |i: int| input_fields(list[i]))
}

/// A field of a record as the encoder meets it: its key and, if the field
/// is set, what it holds.
struct Slot {
    name: &'static str,
    value: Option<FieldValue>,
}

spec fn slot_view(slot: Slot) -> Candidate {
    Candidate {
        name: slot.name@,
        value: match slot.value {
            Some(value) => Some(value@),
            None => None,
        },
    }
}

spec fn slots_view(slots: Seq<Slot>) -> Seq<Candidate> {
    Seq::new(slots.len(), |i: int| slot_view(slots[i]))
}

fn text_slot(name: &'static str, text: &Option<String>) -> (slot: Slot)
    ensures
        slot_view(slot) == (Candidate { name: name@, value: text_of(*text) }),
{
    match text {
        Some(t) => Slot { name, value: Some(FieldValue::Text(t.clone())) },
        None => Slot { name, value: None },
    }
}

fn count_slot(name: &'static str, count: Option<usize>) -> (slot: Slot)
    ensures
        slot_view(slot) == (Candidate { name: name@, value: count_of(count) }),
{
    match count {
        Some(n) => Slot { name, value: Some(FieldValue::Count(n)) },
        None => Slot { name, value: None },
    }
}

fn flag_slot(name: &'static str, on: Option<bool>) -> (slot: Slot)
    ensures
        slot_view(slot) == (Candidate { name: name@, value: flag_of(on) }),
{
    match on {
        Some(b) => Slot { name, value: Some(FieldValue::Flag(b)) },
        None => Slot { name, value: None },
    }
}

fn quantity_slot(name: &'static str, quantity: Option<Decimal>) -> (slot: Slot)
    ensures
        slot_view(slot) == (Candidate { name: name@, value: quantity_of(quantity) }),
{
    match quantity {
        Some(q) => Slot { name, value: Some(FieldValue::Quantity(q)) },
        None => Slot { name, value: None },
    }
}

impl Submission {
    /// The fields that a client may set, as the encoder meets them.
    fn slots(&self) -> (slots: Vec<Slot>)
        ensures
            slots_view(slots@) == optional_inputs(*self),
    {
        let mut slots: Vec<Slot> = Vec::new();
        slots.push(text_slot("compiler_options", &self.compiler_options));
        slots.push(text_slot("command_line_arguments", &self.command_line_arguments));
        slots.push(text_slot("stdin", &self.stdin));
        slots.push(text_slot("expected_output", &self.expected_output));
        slots.push(quantity_slot("cpu_time_limit", self.cpu_time_limit));
        slots.push(quantity_slot("cpu_extra_time", self.cpu_extra_time));
        slots.push(quantity_slot("wall_time_limit", self.wall_time_limit));
        slots.push(quantity_slot("memory_limit", self.memory_limit));
        slots.push(count_slot("stack_limit", self.stack_limit));
        slots.push(count_slot("max_processes_and_or_threads", self.max_processes_and_or_threads));
        slots.push(
            flag_slot(
                "enable_per_process_and_thread_time_limit",
                self.enable_per_process_and_thread_time_limit,
            ),
        );
        slots.push(
            flag_slot(
                "enable_per_process_and_thread_memory_limit",
                self.enable_per_process_and_thread_memory_limit,
            ),
        );
        slots.push(count_slot("max_file_size", self.max_file_size));
        slots.push(flag_slot("redirect_stderr_to_stdout", self.redirect_stderr_to_stdout));
        slots.push(flag_slot("enable_network", self.enable_network));
        slots.push(count_slot("number_of_runs", self.number_of_runs));
        slots.push(text_slot("additional_files", &self.additional_files));
        slots.push(text_slot("callback_url", &self.callback_url));
        assert(slots_view(slots@) =~= optional_inputs(*self));
        slots
    }

    /// Lists the fields that stand for the submission in a request.
    pub fn input_fields(&self) -> (fields: Vec<Field>)
        ensures
            object_view(fields@) == input_fields(*self),
    {
        let mut fields: Vec<Field> = Vec::new();
        fields.push(
            Field { name: "source_code", value: FieldValue::Text(self.source_code.clone()) },
        );
        fields.push(Field { name: "language_id", value: FieldValue::Count(self.language_id) });
        let slots = self.slots();
        assert(object_view(fields@) =~= required_inputs(*self) + set_fields(
            slots_view(slots@).take(0),
        ));
        for slot in iter: slots
            invariant
                slots_view(iter.seq()) == optional_inputs(*self),
                object_view(fields@) == required_inputs(*self) + set_fields(
                    slots_view(iter.seq()).take(iter.index() as int),
                ),
        {
            proof {
                let all = slots_view(iter.seq());
                let k = iter.index() as int;
                assert(all.take(k + 1).drop_last() =~= all.take(k));
                assert(all.take(k + 1).last() == slot_view(slot));
            }
            let ghost before = object_view(fields@);
            match slot.value {
                Some(value) => {
                    fields.push(Field { name: slot.name, value });
                    assert(object_view(fields@) =~= before.push(
                        FieldView { name: slot.name@, value: value@ },
                    ));
                },
                None => {},
            }
        }
        assert(slots_view(slots@).take(slots@.len() as int) =~= slots_view(slots@));
        fields
    }
}

/// Lists, for each submission, the fields that stand for it in a request.
/// The order stays.
pub fn all_fields(list: &Vec<Submission>) -> (objects: Vec<Vec<Field>>)
    ensures
        array_view(objects@) == all_input_fields(list@),
{
    let mut objects: Vec<Vec<Field>> = Vec::new();
    let mut i: usize = 0;
    while i < list.len()
        invariant
            i <= list.len(),
            objects@.len() == i,
            forall|j: int|
                0 <= j < i ==> object_view(#[trigger] objects@[j]@) == input_fields(list@[j]),
        decreases list.len() - i,
    {
        objects.push(list[i].input_fields());
        i = i + 1;
    }
    assert(array_view(objects@) =~= all_input_fields(list@));
    objects
}

} // verus!
