//! Human-readable lines for validation reports: one line per violated field,
//! naming the field and the constraint kind.

use vstd::prelude::*;
use vstd::string::StringExecFns;

verus! {

/// One violated field constraint, as a report line names it: the field and
/// the constraint kind.
pub struct FieldIssue {
    pub field: String,
    pub code: String,
}

/// The report line for one violated field constraint.
pub open spec fn spec_validation_message(field: Seq<char>, code: Seq<char>) -> Seq<char> {
    " '"@ + field + "' no cumple con el formato de "@ + code
}

/// Builds one report line per violated field constraint, in order.
pub fn get_validation_errors(issues: &Vec<FieldIssue>) -> (r: Vec<String>)
    ensures
        r@.len() == issues@.len(),
        forall|i: int|
            0 <= i < r@.len() ==> #[trigger] r@[i]@ == spec_validation_message(
                issues@[i].field@,
                issues@[i].code@,
            ),
{
    let mut key_errors_vec: Vec<String> = Vec::new();
    let n = issues.len();
    for i in 0..n
        invariant
            n == issues@.len(),
            key_errors_vec@.len() == i,
            forall|j: int|
                0 <= j < i ==> #[trigger] key_errors_vec@[j]@ == spec_validation_message(
                    issues@[j].field@,
                    issues@[j].code@,
                ),
    {
        let mut line = " '".to_owned();
        line.append(issues[i].field.as_str());
        line.append("' no cumple con el formato de ");
        line.append(issues[i].code.as_str());
        key_errors_vec.push(line);
    }
    key_errors_vec
}

} // verus!
