//! The text a tag is made of: the words after a command in a message, the
//! message's attachments, and the message it replies to.

use vstd::prelude::*;
use crate::text::{join, joined, opt_view, split_first, split_once, views};

verus! {

/// What the logic reads of a chat message: its text, the URLs of its
/// attachments, and the message it replies to, if any.
pub struct MessageData {
    pub content: String,
    pub attachments: Vec<String>,
    pub referenced: Option<Box<MessageData>>,
}

/// The text after the `n`-th space of `s` (all of `s` for `n == 0`), or
/// `None` when `s` holds fewer than `n` spaces. With `n + 1` pieces,
/// `s.splitn(n + 1, " ")` has this text as its last piece.
pub open spec fn after_spaces(s: Seq<char>, n: nat) -> Option<Seq<char>>
    decreases n,
{
    if n == 0 {
        Some(s)
    } else {
        match split_first(s, ' ') {
            Some((_, rest)) => after_spaces(rest, (n - 1) as nat),
            None => None,
        }
    }
}

/// How many spaces `s` holds.
pub open spec fn space_count(s: Seq<char>) -> nat
    decreases s.len(),
{
    if s.len() == 0 {
        0
    } else {
        space_count(s.drop_last()) + if s.last() == ' ' {
            1nat
        } else {
            0nat
        }
    }
}

/// Counting spaces adds up over concatenation, and text without a space has none.
pub proof fn lemma_space_count(x: Seq<char>, y: Seq<char>)
    ensures
        space_count(x + y) == space_count(x) + space_count(y),
        !x.contains(' ') ==> space_count(x) == 0,
    decreases x.len() + y.len(),
{
    if y.len() > 0 {
        lemma_space_count(x, y.drop_last());
        assert((x + y).drop_last() =~= x + y.drop_last());
    } else {
        assert(x + y =~= x);
        if x.len() > 0 && !x.contains(' ') {
            lemma_space_count(x.drop_last(), Seq::empty());
            if x.drop_last().contains(' ') {
                let k = choose|k: int| 0 <= k < x.drop_last().len() && x.drop_last()[k] == ' ';
                assert(x[k] == ' ');
            }
            assert(x.last() == x[x.len() - 1]);
        }
    }
}

/// `after_spaces` is the text after the `n`-th space: it ends `s`, what
/// comes before it holds exactly `n` spaces and (for `n > 0`) ends in one;
/// and there is no such text exactly when `s` holds fewer than `n` spaces.
pub proof fn law_after_spaces_is_rest(s: Seq<char>, n: nat)
    ensures
        after_spaces(s, n) matches Some(t) ==> {
            &&& t.len() <= s.len()
            &&& s.skip(s.len() - t.len()) == t
            &&& space_count(s.take(s.len() - t.len())) == n
            &&& n > 0 ==> s[s.len() - t.len() - 1] == ' '
        },
        after_spaces(s, n) is None <==> space_count(s) < n,
    decreases n,
{
    crate::text::law_split_rejoins(s, ' ');
    if n == 0 {
        assert(s.skip(0) =~= s);
        assert(s.take(0) =~= Seq::<char>::empty());
    } else {
        match split_first(s, ' ') {
            None => {
                lemma_space_count(s, Seq::empty());
                assert(s + Seq::<char>::empty() =~= s);
            },
            Some((a, rest)) => {
                law_after_spaces_is_rest(rest, (n - 1) as nat);
                lemma_space_count(a, Seq::empty());
                lemma_space_count(a, seq![' ']);
                lemma_space_count(a + seq![' '], rest);
                assert(space_count(seq![' ']) == 1) by {
                    assert(seq![' '].drop_last() =~= Seq::<char>::empty());
                }
                match after_spaces(rest, (n - 1) as nat) {
                    Some(t) => {
                        let p2 = rest.take(rest.len() - t.len());
                        let p = a + seq![' '] + p2;
                        assert(rest =~= p2 + rest.skip(rest.len() - t.len()));
                        assert(s =~= p + t);
                        assert(s.take(s.len() - t.len()) =~= p);
                        assert(s.skip(s.len() - t.len()) =~= t);
                        lemma_space_count(a + seq![' '], p2);
                    },
                    None => {},
                }
            },
        }
    }
}

/// The part the message text contributes after skipping `skip` words:
/// the rest of the text and a line break when there is such a rest, nothing
/// when the text has exactly `skip` words, and `None` (no text at all) when
/// it has fewer.
pub open spec fn lead_text(content: Seq<char>, skip: nat) -> Option<Seq<char>> {
    match after_spaces(content, skip) {
        Some(t) => Some(t + seq!['\n']),
        None => if skip >= 1 && after_spaces(content, (skip - 1) as nat) is Some {
            Some(Seq::empty())
        } else {
            None
        },
    }
}

/// The attachment URLs of a message, one per line.
pub open spec fn attachment_text(m: MessageData) -> Seq<char> {
    joined(views(m.attachments@), seq!['\n'])
}

/// The text of a message alone, without the message it replies to.
pub open spec fn own_text(m: MessageData, skip: nat) -> Option<Seq<char>> {
    match lead_text(m.content@, skip) {
        Some(lead) => Some(lead + attachment_text(m)),
        None => None,
    }
}

/// The text extracted from `m` after skipping `skip` words: its own text,
/// then, when `with_ref` holds and `m` replies to a message, a line break and
/// the whole own text of that message. `None` when the text has fewer than
/// `skip - 1` spaces or when the result would be empty.
pub open spec fn extracted(m: MessageData, skip: nat, with_ref: bool) -> Option<Seq<char>> {
    match own_text(m, skip) {
        None => None,
        Some(base) => {
            let full = if with_ref && m.referenced is Some {
                match own_text(*m.referenced->0, 0) {
                    Some(t) => base + seq!['\n'] + t,
                    None => base,
                }
            } else {
                base
            };
            if full.len() == 0 {
                None
            } else {
                Some(full)
            }
        },
    }
}

/// Extraction never hands back empty text, and it skips words only from the
/// message's own text: with nothing to skip there always is some text.
pub proof fn law_extracted_text_is_not_empty(m: MessageData, skip: nat, with_ref: bool)
    ensures
        extracted(m, skip, with_ref) matches Some(t) ==> t.len() > 0,
        skip == 0 ==> extracted(m, skip, with_ref) is Some,
{
}

/// With `with_ref`, the text of the replied-to message follows the message's
/// own text after a line break: its whole content, a line break, and its
/// attachment URLs one per line, whatever those attachments are. Without
/// `with_ref` the replied-to message plays no part.
pub proof fn law_reply_text_follows(m: MessageData, skip: nat)
    requires
        own_text(m, skip) is Some,
    ensures
        m.referenced matches Some(r) ==> extracted(m, skip, true) == Some(own_text(m, skip)->0
            + seq!['\n'] + r.content@ + seq!['\n'] + joined(views(r.attachments@), seq!['\n'])),
        m.referenced is None ==> extracted(m, skip, true) == extracted(m, skip, false),
        own_text(m, skip)->0.len() > 0 ==> extracted(m, skip, false) == own_text(m, skip),
        own_text(m, skip)->0.len() == 0 ==> extracted(m, skip, false) is None,
{
}

/// A message's own text after skipping `skip` words is the rest of its
/// content after the `skip`-th space and a line break, then its attachment
/// URLs one per line; with exactly `skip` words there is no rest and no
/// line break; with fewer there is no text.
pub proof fn law_own_text_parts(m: MessageData, skip: nat)
    ensures
        after_spaces(m.content@, skip) matches Some(rest) ==> own_text(m, skip) == Some(rest + seq!['\n']
            + joined(views(m.attachments@), seq!['\n'])),
        after_spaces(m.content@, skip) is None && skip >= 1 && after_spaces(m.content@, (skip - 1) as nat)
            is Some ==> own_text(m, skip) == Some(joined(views(m.attachments@), seq!['\n'])),
        after_spaces(m.content@, skip) is None && (skip == 0 || after_spaces(m.content@, (skip - 1) as nat)
            is None) ==> own_text(m, skip) is None,
        skip == 0 ==> after_spaces(m.content@, skip) == Some(m.content@),
{
    assert(Seq::<char>::empty() + joined(views(m.attachments@), seq!['\n']) =~= joined(views(m.attachments@), seq!['\n']));
}

/// Text extraction from a message, for commands whose argument may be typed,
/// attached, or quoted from the replied-to message.
pub trait ExtractInfo {
    /// What `extract_text` returns.
    spec fn extract_text_spec(&self, skip: usize, with_ref: bool) -> Option<Seq<char>>;

    /// The text after the first `skip` words, then the attachment URLs, then
    /// (with `with_ref`) the text of the message replied to; `None` when the
    /// message has fewer than `skip` words and nothing else, or nothing at all.
    fn extract_text(&self, skip: usize, with_ref: bool) -> (res: Option<String>)
        requires
            skip < usize::MAX,
        ensures
            opt_view(res) == self.extract_text_spec(skip, with_ref),
    ;
}

/// The text after the `n`-th space of `s`.
fn text_after_spaces(s: &str, n: usize) -> (res: Option<String>)
    ensures
        opt_view(res) == after_spaces(s@, n as nat),
{
    let mut cur = String::from_str(s);
    let mut k: usize = 0;
    while k < n
        invariant
            0 <= k <= n,
            after_spaces(s@, n as nat) == after_spaces(cur@, (n - k) as nat),
        decreases n - k,
    {
        match split_once(cur.as_str(), ' ') {
            Some((_, rest)) => {
                cur = rest;
            },
            None => {
                return None;
            },
        }
        k = k + 1;
    }
    Some(cur)
}

impl MessageData {
    /// The text of this message alone, after skipping `skip` words.
    fn own_text(&self, skip: usize) -> (res: Option<String>)
        requires
            skip < usize::MAX,
        ensures
            opt_view(res) == own_text(*self, skip as nat),
    {
        proof {
            reveal_strlit("\n");
        }
        let mut ret = String::new();
        match text_after_spaces(self.content.as_str(), skip) {
            Some(t) => {
                ret.append(t.as_str());
                ret.append("\n");
            },
            None => {
                if skip == 0 {
                    return None;
                }
                if text_after_spaces(self.content.as_str(), skip - 1).is_none() {
                    return None;
                }
            },
        }
        assert("\n"@ =~= seq!['\n']);
        let ghost lead = ret@;
        let urls = join(&self.attachments, "\n");
        ret.append(urls.as_str());
        assert(lead_text(self.content@, skip as nat) == Some(lead));
        Some(ret)
    }
}

impl ExtractInfo for MessageData {
    open spec fn extract_text_spec(&self, skip: usize, with_ref: bool) -> Option<Seq<char>> {
        extracted(*self, skip as nat, with_ref)
    }

    fn extract_text(&self, skip: usize, with_ref: bool) -> (res: Option<String>) {
        proof {
            reveal_strlit("\n");
        }
        let mut ret = match self.own_text(skip) {
            Some(t) => t,
            None => {
                return None;
            },
        };
        if let Some(msg) = &self.referenced {
            let ref_text = msg.own_text(0);
            if with_ref && ref_text.is_some() {
                ret.append("\n");
                ret.append(ref_text.unwrap().as_str());
            }
        }
        if ret.as_str().is_empty() {
            None
        } else {
            Some(ret)
        }
    }
}

} // verus!
