//! The operator's console: what an answer to the menu asks for, and what the
//! operator is told after offering a site.

use vstd::prelude::*;
use vstd::string::*;
use crate::site_blocking::{trim, trimmed};

verus! {

/// What the operator chose from the menu.
#[derive(Clone, Copy, Debug, PartialEq, Eq, Structural)]
pub enum Choice {
    /// Offer a site to the block list.
    BlockSite,
    /// List the blocked sites.
    ListSites,
    /// Leave the console.
    Close,
}

/// The choice that an answer stands for, once the white space around it is
/// off: `a` blocks a site, `b` lists the sites, anything else leaves.
pub open spec fn choice_of(answer: Seq<char>) -> Choice {
    if trimmed(answer) == seq!['a'] {
        Choice::BlockSite
    } else if trimmed(answer) == seq!['b'] {
        Choice::ListSites
    } else {
        Choice::Close
    }
}

/// Reads the operator's answer to the menu.
pub fn read_choice(answer: &str) -> (choice: Choice)
    ensures
        choice == choice_of(answer@),
{
    let word = String::from_str(trim(answer));
    proof {
        reveal_strlit("a");
        reveal_strlit("b");
        assert("a"@ =~= seq!['a']);
        assert("b"@ =~= seq!['b']);
    }
    if word == String::from_str("a") {
        Choice::BlockSite
    } else if word == String::from_str("b") {
        Choice::ListSites
    } else {
        Choice::Close
    }
}

/// What the operator is told after a site was offered.
pub open spec fn report_text(added: bool) -> Seq<char> {
    if added {
        "*** site added successfully ***"@
    } else {
        "!! site already exists !!"@
    }
}

/// The words for the operator after a site was offered.
pub fn add_report(added: bool) -> (words: &'static str)
    ensures
        words@ == report_text(added),
{
    if added {
        "*** site added successfully ***"
    } else {
        "!! site already exists !!"
    }
}

} // verus!
