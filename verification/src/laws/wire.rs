//! What holds of the object that stands for a submission in a request.

use crate::model::Submission;
use crate::wire::{
    count_field, input_fields, optional_inputs, set_fields, text_field, Candidate, FieldView,
};
use vstd::prelude::*;

verus! {

/// Whether the field is what the candidate gives when it is set.
pub open spec fn comes_from(field: FieldView, candidate: Candidate) -> bool {
    candidate.value == Some(field.value) && candidate.name == field.name
}

/// Of a list of candidates exactly those that are set become fields: each
/// set candidate gives a field, each field comes from a set candidate, and
/// there are no more fields than candidates.
pub proof fn law_set_fields(candidates: Seq<Candidate>)
    ensures
        set_fields(candidates).len() <= candidates.len(),
        forall|i: int|
            0 <= i < candidates.len() && (#[trigger] candidates[i]).value is Some ==> set_fields(
                candidates,
            ).contains(FieldView { name: candidates[i].name, value: candidates[i].value->0 }),
        forall|j: int|
            0 <= j < set_fields(candidates).len() ==> exists|i: int|
                0 <= i < candidates.len() && comes_from(
                    #[trigger] set_fields(candidates)[j],
                    #[trigger] candidates[i],
                ),
        (forall|i: int| 0 <= i < candidates.len() ==> (#[trigger] candidates[i]).value is None)
            ==> set_fields(candidates).len() == 0,
    decreases candidates.len(),
{
    if candidates.len() > 0 {
        let front = candidates.drop_last();
        let last = candidates.last();
        let n = front.len() as int;
        law_set_fields(front);
        let fields = set_fields(candidates);
        assert forall|i: int|
            0 <= i < candidates.len() && (#[trigger] candidates[i]).value is Some implies
            fields.contains(
            FieldView { name: candidates[i].name, value: candidates[i].value->0 },
        ) by {
            let field = FieldView { name: candidates[i].name, value: candidates[i].value->0 };
            if i < n {
                assert(front[i] == candidates[i]);
                assert(set_fields(front).contains(field));
                let j = choose|j: int|
                    0 <= j < set_fields(front).len() && set_fields(front)[j] == field;
                assert(fields[j] == field);
            } else {
                assert(fields[fields.len() - 1] == field);
            }
        }
        assert forall|j: int| 0 <= j < fields.len() implies exists|i: int|
            0 <= i < candidates.len() && comes_from(
                #[trigger] fields[j],
                #[trigger] candidates[i],
            ) by {
            if j < set_fields(front).len() {
                assert(fields[j] == set_fields(front)[j]);
                let i = choose|i: int|
                    0 <= i < front.len() && comes_from(set_fields(front)[j], #[trigger] front[i]);
                assert(front[i] == candidates[i]);
                assert(comes_from(fields[j], candidates[i]));
            } else {
                assert(comes_from(fields[j], candidates[n]));
            }
        }
        if forall|i: int| 0 <= i < candidates.len() ==> (#[trigger] candidates[i]).value is None {
            assert(candidates[n].value is None);
            assert forall|i: int| 0 <= i < front.len() implies (#[trigger] front[i]).value
                is None by {
                assert(front[i] == candidates[i]);
            }
        }
    }
}

/// A submission of which only the source and the language are set is sent
/// as an object of exactly these two fields: no other key stands in the
/// body, and none with an empty value in its place.
pub proof fn law_minimal_submission(submission: Submission)
    requires
        submission.is_minimal(),
    ensures
        input_fields(submission) == seq![
            text_field("source_code"@, submission.source_code@),
            count_field("language_id"@, submission.language_id),
        ],
{
    law_set_fields(optional_inputs(submission));
    assert(input_fields(submission) =~= seq![
        text_field("source_code"@, submission.source_code@),
        count_field("language_id"@, submission.language_id),
    ]);
}

/// Each field that a client may set and that is set stands in the object,
/// under its key and with its value.
pub proof fn law_set_inputs_travel(submission: Submission, i: int)
    requires
        0 <= i < optional_inputs(submission).len(),
        optional_inputs(submission)[i].value is Some,
    ensures
        input_fields(submission).contains(
            FieldView {
                name: optional_inputs(submission)[i].name,
                value: optional_inputs(submission)[i].value->0,
            },
        ),
{
    let candidates = optional_inputs(submission);
    law_set_fields(candidates);
    let field = FieldView { name: candidates[i].name, value: candidates[i].value->0 };
    assert(set_fields(candidates).contains(field));
    let j = choose|j: int|
        0 <= j < set_fields(candidates).len() && set_fields(candidates)[j] == field;
    assert(input_fields(submission)[2 + j] == field);
}

/// Nothing else stands in the object: beyond the source and the language,
/// each of its fields is one that a client may set and that is set.
pub proof fn law_only_set_inputs_travel(submission: Submission, j: int)
    requires
        2 <= j < input_fields(submission).len(),
    ensures
        exists|i: int|
            0 <= i < optional_inputs(submission).len() && comes_from(
                input_fields(submission)[j],
                #[trigger] optional_inputs(submission)[i],
            ),
{
    let candidates = optional_inputs(submission);
    law_set_fields(candidates);
    assert(input_fields(submission)[j] == set_fields(candidates)[j - 2]);
}

/// What only the service fills in never travels: a submission is sent as
/// the same object whatever its result fields hold.
pub proof fn law_results_never_travel(submission: Submission, other: Submission)
    requires
        submission.inputs() == other.inputs(),
    ensures
        input_fields(submission) == input_fields(other),
{
    assert(optional_inputs(submission) =~= optional_inputs(submission.inputs()));
    assert(optional_inputs(other) =~= optional_inputs(other.inputs()));
}

/// An object never has fewer fields than the two that are always there,
/// nor more than the twenty that a client can set, and it starts with the
/// source and the language.
pub proof fn law_object_shape(submission: Submission)
    ensures
        2 <= input_fields(submission).len() <= 20,
        input_fields(submission)[0] == text_field("source_code"@, submission.source_code@),
        input_fields(submission)[1] == count_field("language_id"@, submission.language_id),
{
    law_set_fields(optional_inputs(submission));
}

} // verus!
