//! The prefix commands. Each command runs as a few steps: a step decides on
//! what it was given (the arguments, then the answer of the previous
//! database request) and names either the next request or the reply.

pub mod count;
pub mod minigames;
pub mod tags;

use vstd::prelude::*;
use crate::text::{decimal, format_u64};

verus! {

/// How a mention of the user `id` is written: `<@id>`.
pub open spec fn mention_text(id: u64) -> Seq<char> {
    "<@"@ + decimal(id as nat) + ">"@
}

/// The mention of the user `id`.
pub fn mention(id: u64) -> (res: String)
    ensures
        res@ == mention_text(id),
{
    let mut s = String::from_str("<@");
    let digits = format_u64(id);
    s.append(digits.as_str());
    s.append(">");
    s
}

/// How a user id is stored as an owner: its decimal writing.
pub open spec fn owner_text(id: u64) -> Seq<char> {
    decimal(id as nat)
}

/// The stored owner of a user id.
pub fn owner_of(id: u64) -> (res: String)
    ensures
        res@ == owner_text(id),
{
    format_u64(id)
}

/// Whether the owner rows found for a name show that someone other than
/// `author` owns it: there is exactly one row, and it names someone else.
pub open spec fn owned_by_other(owners: Seq<Seq<char>>, author: u64) -> bool {
    owners.len() == 1 && owners[0] != owner_text(author)
}

/// A word or tag is someone else's exactly when there is one owner row and
/// its whole text differs from the caller's id written in decimal; with no
/// owner row, or several, it is not.
pub proof fn law_owned_by_other_compares_whole_id(owners: Seq<Seq<char>>, author: u64)
    ensures
        owners.len() == 1 ==> (owned_by_other(owners, author) <==> owners[0] != decimal(author as nat)),
        owners.len() == 1 && owners[0] == decimal(author as nat) ==> !owned_by_other(owners, author),
        owners.len() != 1 ==> !owned_by_other(owners, author),
{
}

/// Decides `owned_by_other`.
pub fn is_owned_by_other(owners: &Vec<String>, author: u64) -> (res: bool)
    ensures
        res == owned_by_other(crate::text::views(owners@), author),
{
    if owners.len() != 1 {
        return false;
    }
    let me = owner_of(author);
    !(owners[0] == me)
}

} // verus!
