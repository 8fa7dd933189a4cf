//! The text of a quantity: its digits, then the symbol of its prefix.

use crate::si::SiPrefix;
use vstd::prelude::*;
use vstd::string::StringExecFns;

verus! {

/// What follows the digits: the symbol of the chosen prefix, or nothing
/// where none was chosen.
pub open spec fn suffix(choice: Option<SiPrefix>) -> Seq<char> {
    match choice {
        Some(p) => p.spec_symbol(),
        None => Seq::empty(),
    }
}

/// The text of a vector with the components `x` and `y`.
pub open spec fn pair_text(x: Seq<char>, y: Seq<char>) -> Seq<char> {
    seq!['('] + x + seq![',', ' '] + y + seq![')']
}

/// The text of a quantity from the digits of the scaled number and the
/// choice of prefix: the symbol follows the digits at once.
pub fn prefix(digits: &str, choice: Option<SiPrefix>) -> (text: String)
    ensures
        text@ == digits@ + suffix(choice),
{
    let mut text = String::from_str(digits);
    match choice {
        Some(p) => {
            text.append(p.symbol());
        },
        None => {
            assert(text@ =~= digits@ + suffix(choice));
        },
    }
    text
}

/// The text of a vector from the texts of its two components: both in
/// round brackets, a comma and a space between them.
pub fn prefix_dvec2(x: &str, y: &str) -> (text: String)
    ensures
        text@ == pair_text(x@, y@),
{
    proof {
        reveal_strlit("(");
        reveal_strlit(", ");
        reveal_strlit(")");
    }
    let mut text = String::from_str("(");
    text.append(x);
    text.append(", ");
    text.append(y);
    text.append(")");
    assert(text@ =~= pair_text(x@, y@));
    text
}

} // verus!
