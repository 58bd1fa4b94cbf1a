//! Field rules of request bodies and the text of a failed validation, as the
//! `validator` crate checks and renders them.

use vstd::prelude::*;

verus! {

/// A failed field rule: the field's name and the rule's message.
#[derive(Debug, Clone, Copy, PartialEq, Eq)]
pub struct FieldViolation {
    pub field: &'static str,
    pub message: &'static str,
}

/// The field name and message of a violation, as character sequences.
pub open spec fn violation_view(v: FieldViolation) -> (Seq<char>, Seq<char>) {
    (v.field@, v.message@)
}

/// The violations of a list, as character sequences.
pub open spec fn violations_view(v: Seq<FieldViolation>) -> Seq<(Seq<char>, Seq<char>)> {
    v.map_values(|x: FieldViolation| violation_view(x))
}

/// One violation when `bad` holds, none otherwise.
pub open spec fn violation_if(bad: bool, field: Seq<char>, message: Seq<char>) -> Seq<
    (Seq<char>, Seq<char>),
> {
    if bad {
        seq![(field, message)]
    } else {
        seq![]
    }
}

/// Whether a text has between `min` and `max` characters (a bound that is
/// `None` is not checked).
pub open spec fn length_within_spec(s: Seq<char>, min: Option<u64>, max: Option<u64>) -> bool {
    &&& (min matches Some(m) ==> s.len() >= m)
    &&& (max matches Some(m) ==> s.len() <= m)
}

/// `validator::ValidateLength::validate_length` on a text: the length is its
/// number of characters, and it must lie within the bounds given.
#[verifier::external_body]
pub(crate) fn length_within(s: &str, min: Option<u64>, max: Option<u64>) -> (r: bool)
    ensures
        r == length_within_spec(s@, min, max),
{
    validator::ValidateLength::<u64>::validate_length(&s, min, max, None)
}

/// The text of the `validator::ValidationErrors` that holds these violations
/// (each a `length` error with the given message), as its `Display` writes it.
///
/// One violation reads `field: message`; violations of two fields are written
/// on two lines in the order in which the errors' hash map is walked, which
/// the contract leaves open between the two orders.
#[verifier::external_body]
pub(crate) fn violations_text(violations: &Vec<FieldViolation>) -> (r: String)
    ensures
        violations@.len() == 0 ==> r@ == Seq::<char>::empty(),
        violations@.len() == 1 ==> r@ == violations@[0].field@ + ": "@ + violations@[0].message@,
        violations@.len() == 2 && violations@[0].field@ != violations@[1].field@ ==> {
            let a = violations@[0].field@ + ": "@ + violations@[0].message@;
            let b = violations@[1].field@ + ": "@ + violations@[1].message@;
            r@ == a + "\n"@ + b || r@ == b + "\n"@ + a
        },
{
    let mut errors = validator::ValidationErrors::new();
    for v in violations {
        let e = validator::ValidationError::new("length");
        errors.add(v.field, e.with_message(std::borrow::Cow::Borrowed(v.message)));
    }
    errors.to_string()
}

} // verus!
