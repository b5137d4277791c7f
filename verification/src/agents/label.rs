//! Printable names of the agents: the kind of agent and, in brackets, its
//! position in the state.

use vstd::prelude::*;

verus! {

/// The character of a decimal digit.
pub open spec fn digit(d: nat) -> char {
    if d == 0 {
        '0'
    } else if d == 1 {
        '1'
    } else if d == 2 {
        '2'
    } else if d == 3 {
        '3'
    } else if d == 4 {
        '4'
    } else if d == 5 {
        '5'
    } else if d == 6 {
        '6'
    } else if d == 7 {
        '7'
    } else if d == 8 {
        '8'
    } else {
        '9'
    }
}

/// The decimal numeral of `n`, without sign or leading zeros.
pub open spec fn decimal(n: nat) -> Seq<char>
    decreases n,
{
    if n < 10 {
        seq![digit(n)]
    } else {
        decimal(n / 10).push(digit(n % 10))
    }
}

/// The name of the agent of kind `kind` at position `id`.
pub open spec fn label_of(kind: Seq<char>, id: usize) -> Seq<char> {
    kind + seq!['('] + decimal(id as nat) + seq![')']
}

/// Calls `format!` with the plain form of a string and of a number. The
/// contract claims what std documents of that form: the string as it is,
/// and the number as a decimal numeral without sign or leading zeros.
#[verifier::external_body]
pub(crate) fn agent_label(kind: &str, id: usize) -> (label: String)
    ensures
        label@ == label_of(kind@, id),
{
    format!("{}({})", kind, id)
}

} // verus!
