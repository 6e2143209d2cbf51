//! The word counter commands: `count`, `cadd`, `cremove`, `cedit`, `clist`.

use vstd::prelude::*;
use crate::commands::{is_owned_by_other, owned_by_other, owner_of, owner_text};
use crate::outside::{compile_regex, regex_accepts};
use crate::paging::{list_embed, list_start, open_list, ListEmbed, ListOpen, ListRow, ListStart};
use crate::text::{
    contains_char, decimal, format_i64, format_u64, join, joined, signed_decimal, split_first,
    split_once, views,
};

verus! {

/// The colour of the word list embed (serenity's `Colour::TEAL`).
pub const WORD_LIST_COLOUR: u32 = 0x1ABC9C;

/// The arguments joined back with single spaces.
pub open spec fn spaced(args: Seq<String>) -> Seq<char> {
    joined(views(args), " "@)
}

/// First step of `count`: ask for the words whose pattern matches the query.
#[derive(PartialEq, Eq, Debug)]
pub enum CountStep {
    Reply(String),
    /// Find the names of the words whose regex matches `query`.
    FindMatching { query: String },
}

/// `count <query>`: shows the caller's counts of the words the query names.
pub fn count(args: &Vec<String>) -> (res: CountStep)
    ensures
        spaced(args@).len() == 0 ==> (res matches CountStep::Reply(t) && t@ == "Count what?"@),
        spaced(args@).len() > 0 ==> (res matches CountStep::FindMatching { query } && query@ == spaced(args@)),
{
    let query = join(args, " ");
    if query.as_str().is_empty() {
        CountStep::Reply(String::from_str("Count what?"))
    } else {
        CountStep::FindMatching { query }
    }
}

/// Later steps of `count`.
#[derive(PartialEq, Eq, Debug)]
pub enum CountNames {
    Reply(String),
    /// Find the words named exactly `query`.
    FindNamed { query: String },
    /// Fetch the caller's count of each of `names`.
    FetchCounts { names: Vec<String> },
}

/// After the pattern search: the matched words, or else a search by name.
pub fn count_after_patterns(query: String, matched: Vec<String>) -> (res: CountNames)
    ensures
        matched@.len() == 0 ==> res == (CountNames::FindNamed { query }),
        matched@.len() > 0 ==> res == (CountNames::FetchCounts { names: matched }),
{
    if matched.len() == 0 {
        CountNames::FindNamed { query }
    } else {
        CountNames::FetchCounts { names: matched }
    }
}

/// The reply when no word matches or is named by the query.
pub open spec fn no_word_text(query: Seq<char>) -> Seq<char> {
    "No entry for '"@ + query + "' found. If you want to add it, run `,cadd "@ + query
        + "&<regex>`"@
}

/// After the search by name: the named words, or else a reply that there is none.
pub fn count_after_names(query: &str, named: Vec<String>) -> (res: CountNames)
    ensures
        named@.len() == 0 ==> (res matches CountNames::Reply(t) && t@ == no_word_text(query@)),
        named@.len() > 0 ==> res == (CountNames::FetchCounts { names: named }),
{
    if named.len() == 0 {
        let mut t = String::from_str("No entry for '");
        t.append(query);
        t.append("' found. If you want to add it, run `,cadd ");
        t.append(query);
        t.append("&<regex>`");
        CountNames::Reply(t)
    } else {
        CountNames::FetchCounts { names: named }
    }
}

/// A count as its rows give it: the first row's value, or 0 without rows.
pub open spec fn total_of(rows: Seq<i32>) -> int {
    if rows.len() == 0 {
        0
    } else {
        rows[0] as int
    }
}

/// One line per word: a line break, the name, and the count.
pub open spec fn count_lines(names: Seq<Seq<char>>, totals: Seq<int>) -> Seq<char>
    decreases names.len(),
{
    if names.len() == 0 {
        Seq::empty()
    } else {
        count_lines(names.drop_last(), totals.drop_last()) + "\n"@ + names.last()
            + " count for you: "@ + signed_decimal(totals.last())
    }
}

/// The reply of `count`: how many patterns matched (unless exactly one),
/// then a line per word.
pub open spec fn count_reply_text(names: Seq<Seq<char>>, totals: Seq<int>) -> Seq<char> {
    (if names.len() == 1 {
        Seq::empty()
    } else {
        decimal(names.len()) + " patterns matched"@
    }) + count_lines(names, totals)
}

/// One word's reply is a single line with its count; with two words the
/// reply first says that 2 patterns matched, then gives a line per word in
/// order. A word without a count row counts 0, otherwise its first row counts.
pub proof fn law_count_reply_lines(a: Seq<char>, b: Seq<char>, x: int, y: int, rows: Seq<i32>)
    ensures
        count_reply_text(seq![a], seq![x]) == "\n"@ + a + " count for you: "@ + signed_decimal(x),
        count_reply_text(seq![a, b], seq![x, y]) == decimal(2) + " patterns matched"@ + "\n"@ + a
            + " count for you: "@ + signed_decimal(x) + "\n"@ + b + " count for you: "@ + signed_decimal(y),
        rows.len() == 0 ==> total_of(rows) == 0,
        rows.len() > 0 ==> total_of(rows) == rows[0] as int,
{
    assert(count_lines(Seq::empty(), Seq::empty()) == Seq::<char>::empty());
    assert(seq![a].drop_last() =~= Seq::<Seq<char>>::empty());
    assert(seq![a].last() == a && seq![x].last() == x);
    assert(seq![a, b].last() == b && seq![x, y].last() == y);
    assert(seq![x].drop_last() =~= Seq::<int>::empty());
    assert(seq![a, b].drop_last() =~= seq![a]);
    assert(seq![x, y].drop_last() =~= seq![x]);
    assert(count_lines(seq![a], seq![x]) =~= Seq::<char>::empty() + "\n"@ + a + " count for you: "@ + signed_decimal(x));
    assert(count_reply_text(seq![a], seq![x]) =~= "\n"@ + a + " count for you: "@ + signed_decimal(x));
    assert(count_reply_text(seq![a, b], seq![x, y]) =~= decimal(2) + " patterns matched"@ + "\n"@ + a
        + " count for you: "@ + signed_decimal(x) + "\n"@ + b + " count for you: "@ + signed_decimal(y));
}

/// The totals of the count rows fetched for each word.
pub open spec fn totals_of(counts: Seq<Vec<i32>>) -> Seq<int> {
    Seq::new(counts.len(), |i: int| total_of(counts[i]@))
}

/// The reply of `count`, given for each word the count rows fetched for it.
pub fn count_reply(names: &Vec<String>, counts: &Vec<Vec<i32>>) -> (res: String)
    requires
        names@.len() == counts@.len(),
    ensures
        res@ == count_reply_text(views(names@), totals_of(counts@)),
{
    let n = names.len();
    let mut res = if n == 1 {
        String::new()
    } else {
        let mut h = format_u64(n as u64);
        h.append(" patterns matched");
        h
    };
    let ghost header = res@;
    let ghost all_names = views(names@);
    let ghost all_totals = totals_of(counts@);
    let mut i: usize = 0;
    while i < n
        invariant
            n == names@.len(),
            n == counts@.len(),
            0 <= i <= n,
            all_names == views(names@),
            all_totals == totals_of(counts@),
            res@ == header + count_lines(all_names.take(i as int), all_totals.take(i as int)),
        decreases n - i,
    {
        let total: i32 = if counts[i].len() == 0 {
            0
        } else {
            counts[i][0]
        };
        res.append("\n");
        res.append(names[i].as_str());
        res.append(" count for you: ");
        let digits = format_i64(total as i64);
        res.append(digits.as_str());
        proof {
            assert(all_names.take(i + 1).drop_last() =~= all_names.take(i as int));
            assert(all_totals.take(i + 1).drop_last() =~= all_totals.take(i as int));
            assert(all_totals[i as int] == total as int);
        }
        i = i + 1;
    }
    assert(all_names.take(n as int) =~= all_names);
    assert(all_totals.take(n as int) =~= all_totals);
    res
}

/// The reply when `cadd` is not given `<name>&<regex>`.
pub open spec fn cadd_syntax_text() -> Seq<char> {
    "Please use the proper syntax: `,cadd <name>&<regex>`\nIf you don't know what regex is, just do: `,cadd <name>&<name>`"@
}

/// First step of `cadd`.
#[derive(PartialEq, Eq, Debug)]
pub enum CaddStep {
    Reply(String),
    /// Look up the word `name`; if it is new, store it with the regex `reg`.
    FindWord { name: String, reg: String },
}

/// The regex stored for a pattern: case-insensitive.
pub open spec fn stored_regex(pattern: Seq<char>) -> Seq<char> {
    "(?i)"@ + pattern
}

/// `cadd <name>&<regex>`: adds a word whose counter follows the regex,
/// matched without regard to case. The regex must compile.
pub fn cadd(args: &Vec<String>) -> (res: CaddStep)
    ensures
        split_first(spaced(args@), '&') is None ==> (res matches CaddStep::Reply(t) && t@ == cadd_syntax_text()),
        split_first(spaced(args@), '&') matches Some((name, pattern)) ==> {
            if regex_accepts(stored_regex(pattern)) {
                res matches CaddStep::FindWord { name: n, reg } && n@ == name && reg@ == stored_regex(pattern)
            } else {
                res matches CaddStep::Reply(t) && t@ == "Please enter a valid regex"@
            }
        },
{
    let query = join(args, " ");
    match split_once(query.as_str(), '&') {
        None => CaddStep::Reply(
            String::from_str(
                "Please use the proper syntax: `,cadd <name>&<regex>`\nIf you don't know what regex is, just do: `,cadd <name>&<name>`",
            ),
        ),
        Some((name, pattern)) => {
            let mut flagged = String::from_str("(?i)");
            flagged.append(pattern.as_str());
            match compile_regex(flagged.as_str()) {
                None => CaddStep::Reply(String::from_str("Please enter a valid regex")),
                Some(reg) => CaddStep::FindWord { name, reg },
            }
        },
    }
}

/// A write to the words table, or a reply instead of it.
#[derive(PartialEq, Eq, Debug)]
pub enum WordWrite {
    Reply(String),
    /// Store a new word; then reply `reply`.
    Insert { name: String, reg: String, owner: String, reply: String },
    /// Set the regex of the word `name`; then reply `reply`.
    Update { name: String, reg: String, reply: String },
    /// Delete the word `name`; then reply `reply`.
    Delete { name: String, reply: String },
}

/// After looking up the word: refuse a name already taken (quoting its regex),
/// else store the word as the caller's.
pub fn cadd_after_lookup(name: String, reg: String, author: u64, existing: &Vec<String>) -> (res: WordWrite)
    ensures
        existing@.len() > 0 ==> (res matches WordWrite::Reply(t) && t@
            == "This word already exists with the regex '"@ + existing@[0]@ + "'"@),
        existing@.len() == 0 ==> (res matches WordWrite::Insert { name: n, reg: r, owner, reply }
            && n == name && r == reg && owner@ == owner_text(author) && reply@ == "Added"@),
{
    if existing.len() != 0 {
        let mut t = String::from_str("This word already exists with the regex '");
        t.append(existing[0].as_str());
        t.append("'");
        WordWrite::Reply(t)
    } else {
        WordWrite::Insert { name, reg, owner: owner_of(author), reply: String::from_str("Added") }
    }
}

/// A step that looks up who owns a word before changing it.
#[derive(PartialEq, Eq, Debug)]
pub enum OwnerStep {
    Reply(String),
    /// Find the owners of the word `name`.
    FindOwner { name: String },
}

/// `cremove <name>`: deletes a word, unless someone else owns it.
pub fn cremove(args: &Vec<String>) -> (res: OwnerStep)
    ensures
        spaced(args@).len() == 0 ==> (res matches OwnerStep::Reply(t) && t@ == "remove what?"@),
        spaced(args@).len() > 0 ==> (res matches OwnerStep::FindOwner { name } && name@ == spaced(args@)),
{
    let query = join(args, " ");
    if query.as_str().is_empty() {
        OwnerStep::Reply(String::from_str("remove what?"))
    } else {
        OwnerStep::FindOwner { name: query }
    }
}

/// After finding the owners: refuse when the word is someone else's, else delete it.
pub fn cremove_after_owner(name: String, author: u64, owners: &Vec<String>) -> (res: WordWrite)
    ensures
        owned_by_other(views(owners@), author) ==> (res matches WordWrite::Reply(t) && t@
            == "You don't even own this word"@),
        !owned_by_other(views(owners@), author) ==> (res matches WordWrite::Delete { name: n, reply }
            && n == name && reply@ == "Deleted if it existed"@),
{
    if is_owned_by_other(owners, author) {
        WordWrite::Reply(String::from_str("You don't even own this word"))
    } else {
        WordWrite::Delete { name, reply: String::from_str("Deleted if it existed") }
    }
}

/// First step of `cedit`.
#[derive(PartialEq, Eq, Debug)]
pub enum CeditStep {
    Reply(String),
    /// Find the owners of the word `name`; it is to get the regex `reg`.
    FindOwner { name: String, reg: String },
}

/// `cedit <name>&<regex>`: gives a word a new regex, made case-insensitive.
/// A regex holding a space is refused.
pub fn cedit(args: &Vec<String>) -> (res: CeditStep)
    ensures
        split_first(spaced(args@), '&') is None ==> (res matches CeditStep::Reply(t) && t@
            == "Please use the proper syntax\n,cedit <name>&<regex>"@),
        split_first(spaced(args@), '&') matches Some((name, pattern)) ==> {
            if pattern.contains(' ') {
                res matches CeditStep::Reply(t) && t@ == "Not a valid regex"@
            } else {
                res matches CeditStep::FindOwner { name: n, reg } && n@ == name && reg@ == stored_regex(pattern)
            }
        },
{
    let query = join(args, " ");
    match split_once(query.as_str(), '&') {
        None => CeditStep::Reply(String::from_str("Please use the proper syntax\n,cedit <name>&<regex>")),
        Some((name, pattern)) => {
            if contains_char(pattern.as_str(), ' ') {
                CeditStep::Reply(String::from_str("Not a valid regex"))
            } else {
                let mut reg = String::from_str("(?i)");
                reg.append(pattern.as_str());
                CeditStep::FindOwner { name, reg }
            }
        },
    }
}

/// After finding the owners: refuse when the word is someone else's, else set its regex.
pub fn cedit_after_owner(name: String, reg: String, author: u64, owners: &Vec<String>) -> (res: WordWrite)
    ensures
        owned_by_other(views(owners@), author) ==> (res matches WordWrite::Reply(t) && t@
            == "You don't even own this word"@),
        !owned_by_other(views(owners@), author) ==> (res matches WordWrite::Update { name: n, reg: r, reply }
            && n == name && r == reg && reply@ == "Changed the value if it existed"@),
{
    if is_owned_by_other(owners, author) {
        WordWrite::Reply(String::from_str("You don't even own this word"))
    } else {
        WordWrite::Update { name, reg, reply: String::from_str("Changed the value if it existed") }
    }
}

/// The embed of page `cur` of the word list.
pub fn make_list_embed(cur: usize, group: &[ListRow]) -> (res: ListEmbed)
    ensures
        res.title@ == "List of words: Page "@ + decimal(cur as nat),
        res.colour == WORD_LIST_COLOUR,
        res.fields@.len() == group@.len(),
        forall|i: int| 0 <= i < group@.len() ==> crate::paging::field_is(#[trigger] res.fields@[i], group@[i]),
{
    list_embed("List of words: Page ", WORD_LIST_COLOUR, cur, group)
}

/// `clist [size]`: first step, reading the page size (5 by default).
pub fn clist(args: &Vec<String>) -> (res: ListStart)
    ensures
        crate::paging::requested_size(views(args@)) is None ==> res == ListStart::Fail,
        crate::paging::requested_size(views(args@)) matches Some(size) ==> (res matches ListStart::Fetch { size: s, warning } && s == size && (warning is Some <==> size > 15) && (warning matches Some(w) ==> w@ == "Please input a number less than 15"@)),
{
    list_start(args)
}

/// `clist`, once the words are fetched: a reply that there are none, or the
/// viewer over the pages.
pub fn clist_open(n_rows: usize, size: usize) -> (res: ListOpen)
    requires
        n_rows > 0 ==> size > 0,
    ensures
        n_rows == 0 ==> (res matches ListOpen::Reply(t) && t@ == "No words stored"@),
        n_rows > 0 ==> res == (ListOpen::Show {
            pager: crate::paging::Pager { cur: 1, pages: crate::paging::pages_of(n_rows as nat, size as nat) as usize },
            action: crate::paging::PageAction::Show { page: 1, terminal: crate::paging::Terminal::First },
        }),
{
    open_list(n_rows, size, "No words stored")
}

} // verus!
