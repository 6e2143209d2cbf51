//! The tag commands: `tag`, `tadd`, `tcopy`, `tremove`, `tedit`, `tlist`.

use vstd::prelude::*;
use crate::commands::{is_owned_by_other, owned_by_other, owner_of, owner_text};
use crate::commands::count::spaced;
use crate::messages::{extracted, ExtractInfo, MessageData};
use crate::paging::{list_embed, list_start, open_list, ListEmbed, ListOpen, ListRow, ListStart};
use crate::text::{decimal, join, joined, views};

verus! {

/// The colour of the tag list embed (serenity's `Colour::FABLED_PINK`).
pub const TAG_LIST_COLOUR: u32 = 0xFAB1ED;

/// The guild whose moderator role may change anyone's tags.
pub const GUILD_ID: u64 = 874699899067838535;

/// The moderator role that may change anyone's tags.
pub const ROLE_ID: u64 = 957155053184102400;

/// The largest edit distance at which a stored tag is offered as the one meant.
pub const DIST_LIMIT: i32 = 2;

/// First step of `tag`.
#[derive(PartialEq, Eq, Debug)]
pub enum TagStep {
    Reply(String),
    /// Find the value of the tag `name`.
    FindTag { name: String },
}

/// `tag <name>`: shows a tag's value. The name is the arguments run together.
pub fn tag(args: &Vec<String>) -> (res: TagStep)
    ensures
        joined(views(args@), ""@).len() == 0 ==> (res matches TagStep::Reply(t) && t@ == "Mention the tag retard"@),
        joined(views(args@), ""@).len() > 0 ==> (res matches TagStep::FindTag { name } && name@ == joined(views(args@), ""@)),
{
    let query = join(args, "");
    if query.as_str().is_empty() {
        TagStep::Reply(String::from_str("Mention the tag retard"))
    } else {
        TagStep::FindTag { name: query }
    }
}

/// Second step of `tag`.
#[derive(PartialEq, Eq, Debug)]
pub enum TagFound {
    Reply(String),
    /// Find the stored tag closest to `name`, measuring distances up to `limit`.
    FindClosest { name: String, limit: i32 },
}

/// After the lookup: the tag's value, or else a search for the closest tag.
pub fn tag_after_lookup(name: String, values: &Vec<String>) -> (res: TagFound)
    ensures
        values@.len() > 0 ==> (res matches TagFound::Reply(t) && t@ == values@[0]@),
        values@.len() == 0 ==> res == (TagFound::FindClosest { name, limit: DIST_LIMIT }),
{
    if values.len() > 0 {
        TagFound::Reply(values[0].clone())
    } else {
        TagFound::FindClosest { name, limit: DIST_LIMIT }
    }
}

/// The reply when no tag has the name: how to add it, and the closest tag
/// when it is within `DIST_LIMIT` edits.
pub open spec fn no_tag_text(name: Seq<char>, closest: Seq<char>, dist: i32) -> Seq<char> {
    "No entry for '"@ + name + "' found. If you want to add it, run `,tadd "@ + name + " <value>`"@
        + (if dist > DIST_LIMIT {
        Seq::empty()
    } else {
        "\nDid you mean `"@ + closest + "`?"@
    })
}

/// The reply of `tag` for a missing tag, given the closest stored tag and
/// its distance.
pub fn tag_not_found(name: &str, closest: &str, dist: i32) -> (res: String)
    ensures
        res@ == no_tag_text(name@, closest@, dist),
{
    let mut t = String::from_str("No entry for '");
    t.append(name);
    t.append("' found. If you want to add it, run `,tadd ");
    t.append(name);
    t.append(" <value>`");
    if dist <= DIST_LIMIT {
        t.append("\nDid you mean `");
        t.append(closest);
        t.append("`?");
    }
    t
}

/// The reply when `tadd` or `tedit` gets no value.
pub open spec fn tag_syntax_text() -> Seq<char> {
    "Please use the proper syntax: `,tadd <name> <value>` or attach something"@
}

/// First step of the commands that write a tag's value.
#[derive(PartialEq, Eq, Debug)]
pub enum TagValueStep {
    Reply(String),
    /// Look up the tag `name`; it is to get `value`.
    FindTag { name: String, value: String },
}

/// The value a tag command takes from its message: the text after the name,
/// the attachments, and the replied-to message.
pub open spec fn tag_value(message: MessageData) -> Option<Seq<char>> {
    extracted(message, 2, true)
}

fn tag_value_step(args: &Vec<String>, message: &MessageData) -> (res: TagValueStep)
    requires
        tag_value(*message) is Some ==> args@.len() > 0,
    ensures
        tag_value(*message) is None ==> (res matches TagValueStep::Reply(t) && t@ == tag_syntax_text()),
        tag_value(*message) matches Some(v) ==> (res matches TagValueStep::FindTag { name, value }
            && name@ == args@[0]@ && value@ == v),
{
    match message.extract_text(2, true) {
        None => TagValueStep::Reply(
            String::from_str("Please use the proper syntax: `,tadd <name> <value>` or attach something"),
        ),
        Some(value) => TagValueStep::FindTag { name: args[0].clone(), value },
    }
}

/// `tadd <name> <value>`: stores a new tag; its value may also come from
/// attachments or the replied-to message. With a value there is a name
/// argument.
pub fn tadd(args: &Vec<String>, message: &MessageData) -> (res: TagValueStep)
    requires
        tag_value(*message) is Some ==> args@.len() > 0,
    ensures
        tag_value(*message) is None ==> (res matches TagValueStep::Reply(t) && t@ == tag_syntax_text()),
        tag_value(*message) matches Some(v) ==> (res matches TagValueStep::FindTag { name, value }
            && name@ == args@[0]@ && value@ == v),
{
    tag_value_step(args, message)
}

/// A write to the tags table, a reply instead of it, or a check of the
/// caller's moderator role first.
#[derive(PartialEq, Eq, Debug)]
pub enum TagWrite {
    Reply(String),
    /// Store a new tag; then reply `reply`.
    Insert { name: String, value: String, owner: String, reply: String },
    /// Store the tag `to` with the value of the tag `from`; then reply `reply`.
    Copy { from: String, to: String, owner: String, reply: String },
    /// Set the value of the tag `name`; then reply `reply`.
    Update { name: String, value: String, reply: String },
    /// Delete the tag `name`; then reply `reply`.
    Delete { name: String, reply: String },
    /// Someone else owns the tag: ask whether the caller is a moderator.
    CheckRole,
}

/// After looking up the tag: refuse a name already taken, else store the tag.
pub fn tadd_after_lookup(name: String, value: String, author: u64, existing: &Vec<String>) -> (res: TagWrite)
    ensures
        existing@.len() > 0 ==> (res matches TagWrite::Reply(t) && t@ == "This tag already exists"@),
        existing@.len() == 0 ==> (res matches TagWrite::Insert { name: n, value: v, owner, reply }
            && n == name && v == value && owner@ == owner_text(author) && reply@ == "Added"@),
{
    if existing.len() != 0 {
        TagWrite::Reply(String::from_str("This tag already exists"))
    } else {
        TagWrite::Insert { name, value, owner: owner_of(author), reply: String::from_str("Added") }
    }
}

/// First step of `tcopy`.
#[derive(PartialEq, Eq, Debug)]
pub enum CopyStep {
    Reply(String),
    /// Look up the tag `from`, to copy it as `to`.
    FindTag { from: String, to: String },
}

/// `tcopy <original> <new>`: copies a tag under a new name, as the caller's.
pub fn tcopy(args: &Vec<String>) -> (res: CopyStep)
    ensures
        args@.len() != 2 ==> (res matches CopyStep::Reply(t) && t@
            == "Please use the proper syntax: `,tcopy <original> <new>`"@),
        args@.len() == 2 ==> (res matches CopyStep::FindTag { from, to } && from@ == args@[0]@ && to@
            == args@[1]@),
{
    if args.len() != 2 {
        CopyStep::Reply(String::from_str("Please use the proper syntax: `,tcopy <original> <new>`"))
    } else {
        CopyStep::FindTag { from: args[0].clone(), to: args[1].clone() }
    }
}

/// After looking up the original: refuse a missing one, else copy it.
pub fn tcopy_after_lookup(from: String, to: String, author: u64, existing: &Vec<String>) -> (res: TagWrite)
    ensures
        existing@.len() == 0 ==> (res matches TagWrite::Reply(t) && t@ == "This tag does not exist"@),
        existing@.len() > 0 ==> (res matches TagWrite::Copy { from: f, to: t, owner, reply } && f@ == from@
            && t@ == to@ && owner@ == owner_text(author) && reply@ == "Copied "@ + from@ + " to "@ + to@),
{
    if existing.len() == 0 {
        TagWrite::Reply(String::from_str("This tag does not exist"))
    } else {
        let mut reply = String::from_str("Copied ");
        reply.append(from.as_str());
        reply.append(" to ");
        reply.append(to.as_str());
        TagWrite::Copy { from, to, owner: owner_of(author), reply }
    }
}

/// First step of `tremove`.
#[derive(PartialEq, Eq, Debug)]
pub enum TagRemoveStep {
    Reply(String),
    /// Find the owners of the tag `name`.
    FindOwner { name: String },
}

/// `tremove <name>`: deletes a tag, unless someone else owns it and the
/// caller is not a moderator.
pub fn tremove(args: &Vec<String>) -> (res: TagRemoveStep)
    ensures
        spaced(args@).len() == 0 ==> (res matches TagRemoveStep::Reply(t) && t@ == "remove what?"@),
        spaced(args@).len() > 0 ==> (res matches TagRemoveStep::FindOwner { name } && name@ == spaced(args@)),
{
    let query = join(args, " ");
    if query.as_str().is_empty() {
        TagRemoveStep::Reply(String::from_str("remove what?"))
    } else {
        TagRemoveStep::FindOwner { name: query }
    }
}

/// The reply after deleting the tag `name`.
pub open spec fn deleted_text(name: Seq<char>) -> Seq<char> {
    "Deleted "@ + name + " if it existed"@
}

fn tag_delete(name: String) -> (res: TagWrite)
    ensures
        res matches TagWrite::Delete { name: n, reply } && n == name && reply@ == deleted_text(name@),
{
    let mut reply = String::from_str("Deleted ");
    reply.append(name.as_str());
    reply.append(" if it existed");
    TagWrite::Delete { name, reply }
}

/// After finding the owners: ask about the caller's role when the tag is
/// someone else's, else delete it.
pub fn tremove_after_owner(name: String, author: u64, owners: &Vec<String>) -> (res: TagWrite)
    ensures
        owned_by_other(views(owners@), author) ==> res == TagWrite::CheckRole,
        !owned_by_other(views(owners@), author) ==> (res matches TagWrite::Delete { name: n, reply }
            && n == name && reply@ == deleted_text(name@)),
{
    if is_owned_by_other(owners, author) {
        TagWrite::CheckRole
    } else {
        tag_delete(name)
    }
}

/// After the role check: a moderator deletes the tag, anyone else is refused.
pub fn tremove_after_role(name: String, is_moderator: bool) -> (res: TagWrite)
    ensures
        !is_moderator ==> (res matches TagWrite::Reply(t) && t@ == "You don't even own this tag"@),
        is_moderator ==> (res matches TagWrite::Delete { name: n, reply } && n == name && reply@
            == deleted_text(name@)),
{
    if !is_moderator {
        TagWrite::Reply(String::from_str("You don't even own this tag"))
    } else {
        tag_delete(name)
    }
}

/// `tedit <name> <value>`: sets a tag's value, unless someone else owns it
/// and the caller is not a moderator. With a value there is a name argument.
pub fn tedit(args: &Vec<String>, message: &MessageData) -> (res: TagValueStep)
    requires
        tag_value(*message) is Some ==> args@.len() > 0,
    ensures
        tag_value(*message) is None ==> (res matches TagValueStep::Reply(t) && t@ == tag_syntax_text()),
        tag_value(*message) matches Some(v) ==> (res matches TagValueStep::FindTag { name, value }
            && name@ == args@[0]@ && value@ == v),
{
    tag_value_step(args, message)
}

fn tag_update(name: String, value: String) -> (res: TagWrite)
    ensures
        res matches TagWrite::Update { name: n, value: v, reply } && n == name && v == value && reply@
            == "Changed the value if it existed"@,
{
    TagWrite::Update { name, value, reply: String::from_str("Changed the value if it existed") }
}

/// After finding the owners: ask about the caller's role when the tag is
/// someone else's, else set its value.
pub fn tedit_after_owner(name: String, value: String, author: u64, owners: &Vec<String>) -> (res: TagWrite)
    ensures
        owned_by_other(views(owners@), author) ==> res == TagWrite::CheckRole,
        !owned_by_other(views(owners@), author) ==> (res matches TagWrite::Update { name: n, value: v, reply }
            && n == name && v == value && reply@ == "Changed the value if it existed"@),
{
    if is_owned_by_other(owners, author) {
        TagWrite::CheckRole
    } else {
        tag_update(name, value)
    }
}

/// After the role check: a moderator sets the value, anyone else is refused.
pub fn tedit_after_role(name: String, value: String, is_moderator: bool) -> (res: TagWrite)
    ensures
        !is_moderator ==> (res matches TagWrite::Reply(t) && t@ == "You don't even own this tag"@),
        is_moderator ==> (res matches TagWrite::Update { name: n, value: v, reply } && n == name && v
            == value && reply@ == "Changed the value if it existed"@),
{
    if !is_moderator {
        TagWrite::Reply(String::from_str("You don't even own this tag"))
    } else {
        tag_update(name, value)
    }
}

/// The embed of page `cur` of the tag list.
pub fn make_list_embed(cur: usize, group: &[ListRow]) -> (res: ListEmbed)
    ensures
        res.title@ == "List of tags: Page "@ + decimal(cur as nat),
        res.colour == TAG_LIST_COLOUR,
        res.fields@.len() == group@.len(),
        forall|i: int| 0 <= i < group@.len() ==> crate::paging::field_is(#[trigger] res.fields@[i], group@[i]),
{
    list_embed("List of tags: Page ", TAG_LIST_COLOUR, cur, group)
}

/// `tlist [size]`: first step, reading the page size (5 by default).
pub fn tlist(args: &Vec<String>) -> (res: ListStart)
    ensures
        crate::paging::requested_size(views(args@)) is None ==> res == ListStart::Fail,
        crate::paging::requested_size(views(args@)) matches Some(size) ==> (res matches ListStart::Fetch { size: s, warning } && s == size && (warning is Some <==> size > 15) && (warning matches Some(w) ==> w@ == "Please input a number less than 15"@)),
{
    list_start(args)
}

/// `tlist`, once the tags are fetched: a reply that there are none, or the
/// viewer over the pages.
pub fn tlist_open(n_rows: usize, size: usize) -> (res: ListOpen)
    requires
        n_rows > 0 ==> size > 0,
    ensures
        n_rows == 0 ==> (res matches ListOpen::Reply(t) && t@ == "No tags stored"@),
        n_rows > 0 ==> res == (ListOpen::Show {
            pager: crate::paging::Pager { cur: 1, pages: crate::paging::pages_of(n_rows as nat, size as nat) as usize },
            action: crate::paging::PageAction::Show { page: 1, terminal: crate::paging::Terminal::First },
        }),
{
    open_list(n_rows, size, "No tags stored")
}

} // verus!
