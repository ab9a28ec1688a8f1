//! The link resolver's reading of responses: the HTTP status of a reply and
//! the `initiate` field of a requisition-link response.

use vstd::prelude::*;
use crate::model::WorkflowError;

verus! {

/// The field of a requisition-link response that holds the authorization URL.
pub const LINK_FIELD: &'static str = "initiate";

/// What an HTTP status means for a request of the workflow: nothing for a
/// success (2xx), a rejected credential for 401 and 403, a failed request
/// otherwise.
pub open spec fn status_outcome(status: u16) -> Option<WorkflowError> {
    if 200 <= status <= 299 {
        None
    } else if status == 401 || status == 403 {
        Some(WorkflowError::AuthError)
    } else {
        Some(WorkflowError::NetworkError)
    }
}

/// Classifies the HTTP status of a reply from the aggregation service.
pub fn status_error(status: u16) -> (r: Option<WorkflowError>)
    ensures
        r == status_outcome(status),
{
    if 200 <= status && status <= 299 {
        None
    } else if status == 401 || status == 403 {
        Some(WorkflowError::AuthError)
    } else {
        Some(WorkflowError::NetworkError)
    }
}

/// Whether `entries` has no entry keyed `key` before position `end`.
pub open spec fn key_absent_before(entries: Seq<(String, String)>, key: Seq<char>, end: int) -> bool {
    forall|j: int| 0 <= j < end ==> (#[trigger] entries[j]).0@ != key
}

/// Whether `r` is what the fields `entries` of a requisition-link response
/// give: the value of the first field named `initiate`, or a missing-field
/// error when there is none.
pub open spec fn link_result(entries: Seq<(String, String)>, r: Result<String, WorkflowError>) -> bool {
    match r {
        Ok(url) => exists|i: int|
            0 <= i < entries.len() && entries[i].0@ == LINK_FIELD@ && #[trigger] entries[i].1@ == url@
                && key_absent_before(entries, LINK_FIELD@, i),
        Err(e) => e == WorkflowError::MissingFieldError && key_absent_before(
            entries,
            LINK_FIELD@,
            entries.len() as int,
        ),
    }
}

/// Reads the authorization URL out of the fields of a requisition-link
/// response: the value of the first field named `initiate`, or a missing-field
/// error when there is none.
pub fn authorization_url(entries: &Vec<(String, String)>) -> (r: Result<String, WorkflowError>)
    ensures
        link_result(entries@, r),
{
    let key = LINK_FIELD.to_owned();
    let mut i: usize = 0;
    while i < entries.len()
        invariant
            i <= entries@.len(),
            key@ == LINK_FIELD@,
            key_absent_before(entries@, LINK_FIELD@, i as int),
        decreases entries@.len() - i,
    {
        if entries[i].0 == key {
            let url = entries[i].1.clone();
            assert(entries@[i as int].1@ == url@);
            return Ok(url);
        }
        i = i + 1;
    }
    Err(WorkflowError::MissingFieldError)
}

} // verus!
