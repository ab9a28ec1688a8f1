//! Bank listing and the user's choice of a bank by its 1-based position.

use vstd::prelude::*;
use crate::model::{Bank, WorkflowError};
use crate::text::{decimal_of, index_label, parse_usize, parsed_usize, right_aligned, trim_text, trimmed};

verus! {

/// The listing line of the bank at 1-based `position`: its right-aligned
/// position, ` - `, and its name.
pub open spec fn bank_line(position: nat, name: Seq<char>) -> Seq<char> {
    right_aligned(decimal_of(position), 2) + seq![' ', '-', ' '] + name
}

/// What a trimmed selection `text` chooses among `count` banks: the 0-based
/// index of the bank at the position it names, or a validation error.
pub open spec fn selection_outcome(text: Seq<char>, count: nat) -> Result<nat, WorkflowError> {
    match parsed_usize(text) {
        Some(n) => if 1 <= n && n <= count {
            Ok((n - 1) as nat)
        } else {
            Err(WorkflowError::ValidationError)
        },
        None => Err(WorkflowError::ValidationError),
    }
}

/// One line per bank, in the order received, numbered from 1.
pub fn bank_listing(banks: &Vec<Bank>) -> (r: Vec<String>)
    ensures
        r@.len() == banks@.len(),
        forall|i: int|
            0 <= i < r@.len() ==> #[trigger] r@[i]@ == bank_line((i + 1) as nat, banks@[i].display_name@),
{
    let mut lines: Vec<String> = Vec::new();
    let mut i: usize = 0;
    while i < banks.len()
        invariant
            i <= banks@.len(),
            lines@.len() == i,
            forall|j: int|
                0 <= j < i ==> #[trigger] lines@[j]@ == bank_line((j + 1) as nat, banks@[j].display_name@),
        decreases banks@.len() - i,
    {
        let mut line = index_label(i + 1);
        line.append(" - ");
        line.append(banks[i].display_name.as_str());
        proof {
            reveal_strlit(" - ");
            assert(line@ =~= bank_line((i + 1) as nat, banks@[i as int].display_name@));
        }
        lines.push(line);
        i = i + 1;
    }
    lines
}

/// Reads the user's choice among `banks` from a line of input: the 0-based
/// index of the bank at the 1-based position typed, surrounded by any white
/// space.
pub fn choose_bank(banks: &Vec<Bank>, input: &str) -> (r: Result<usize, WorkflowError>)
    ensures
        match r {
            Ok(i) => selection_outcome(trimmed(input@), banks@.len()) == Ok::<nat, WorkflowError>(
                i as nat,
            ),
            Err(e) => selection_outcome(trimmed(input@), banks@.len()) == Err::<nat, WorkflowError>(
                e,
            ),
        },
        r matches Ok(i) ==> i < banks@.len() && parsed_usize(trimmed(input@)) == Some((i + 1) as nat),
{
    let text = trim_text(input);
    match parse_usize(text) {
        Some(n) => {
            if n >= 1 && n <= banks.len() {
                Ok(n - 1)
            } else {
                Err(WorkflowError::ValidationError)
            }
        },
        None => Err(WorkflowError::ValidationError),
    }
}

/// A position names the bank at that place in the order received: a text
/// that reads as `position`, with `1 <= position <= count`, selects index
/// `position - 1`.
pub proof fn selection_follows_listing_order(text: Seq<char>, count: nat, position: nat)
    requires
        parsed_usize(text) == Some(position),
        1 <= position <= count,
    ensures
        selection_outcome(text, count) == Ok::<nat, WorkflowError>((position - 1) as nat),
{
}

/// Zero, a negative number, a text that is not a number, and any position
/// past the last bank are all rejected as validation errors.
pub proof fn out_of_range_selections_rejected(text: Seq<char>, count: nat)
    requires
        parsed_usize(text) is None || parsed_usize(text) == Some(0nat) || (parsed_usize(text) matches Some(
            n,
        ) && n > count) || (text.len() > 0 && text[0] == '-'),
    ensures
        selection_outcome(text, count) == Err::<nat, WorkflowError>(WorkflowError::ValidationError),
{
    if text.len() > 0 && text[0] == '-' {
        let d = crate::text::unsigned_digits(text);
        assert(d == text);
        assert(!crate::text::is_ascii_digit(d[0]));
    }
}

} // verus!
