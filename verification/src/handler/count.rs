//! Counting: every message is matched against each stored word's regex, and
//! the author's counter of each word that matched grows by its number of
//! matches.

use vstd::prelude::*;
use crate::outside::{count_regex_matches, regex_accepts, regex_match_count};
use crate::text::{decimal, format_u64};

verus! {

/// A stored word and its regex.
#[derive(PartialEq, Eq, Debug)]
pub struct WordPattern {
    pub name: String,
    pub reg: String,
}

/// A word found in a message, and how many times.
#[derive(PartialEq, Eq, Debug)]
pub struct WordHit {
    pub name: String,
    pub count: i32,
}

/// The views of a list of hits.
pub open spec fn hit_views(hits: Seq<WordHit>) -> Seq<(Seq<char>, i32)> {
    hits.map_values(|h: WordHit| (h.name@, h.count))
}

/// The names of the words.
pub open spec fn word_names(words: Seq<WordPattern>) -> Seq<Seq<char>> {
    words.map_values(|w: WordPattern| w.name@)
}

/// The words with a positive count, in order, with their counts.
pub open spec fn hits_of(names: Seq<Seq<char>>, counts: Seq<i32>) -> Seq<(Seq<char>, i32)>
    decreases names.len(),
{
    if names.len() == 0 || counts.len() == 0 {
        Seq::empty()
    } else {
        let earlier = hits_of(names.drop_last(), counts.drop_last());
        if counts.last() > 0 {
            earlier.push((names.last(), counts.last()))
        } else {
            earlier
        }
    }
}

/// The numbers of matches as the counter stores them (an `i32`).
pub open spec fn stored_counts(counts: Seq<usize>) -> Seq<i32> {
    counts.map_values(|c: usize| c as i32)
}

/// The hits, given each word's number of matches.
pub fn hits_from_counts(words: &Vec<WordPattern>, counts: &Vec<usize>) -> (res: Vec<WordHit>)
    requires
        words@.len() == counts@.len(),
    ensures
        hit_views(res@) == hits_of(word_names(words@), stored_counts(counts@)),
{
    let ghost names = word_names(words@);
    let ghost stored = stored_counts(counts@);
    let mut res: Vec<WordHit> = Vec::new();
    let n = words.len();
    let mut i: usize = 0;
    while i < n
        invariant
            n == words@.len(),
            n == counts@.len(),
            0 <= i <= n,
            names == word_names(words@),
            stored == stored_counts(counts@),
            hit_views(res@) == hits_of(names.take(i as int), stored.take(i as int)),
        decreases n - i,
    {
        let c = counts[i] as i32;
        proof {
            assert(names.take(i + 1).drop_last() =~= names.take(i as int));
            assert(stored.take(i + 1).drop_last() =~= stored.take(i as int));
        }
        if c > 0 {
            let ghost before = res@;
            res.push(WordHit { name: words[i].name.clone(), count: c });
            assert(hit_views(res@) =~= hit_views(before).push((names[i as int], c)));
        }
        i = i + 1;
    }
    assert(names.take(n as int) =~= names);
    assert(stored.take(n as int) =~= stored);
    res
}

/// Whether every stored regex compiles.
pub open spec fn all_compile(words: Seq<WordPattern>) -> bool {
    forall|i: int| 0 <= i < words.len() ==> regex_accepts(#[trigger] words[i].reg@)
}

/// Each word's number of matches in `content`, as the counter stores it.
pub open spec fn match_counts(words: Seq<WordPattern>, content: Seq<char>) -> Seq<i32> {
    Seq::new(words.len(), |i: int| regex_match_count(words[i].reg@, content) as i32)
}

/// Each word is counted over the whole message: its count is the number of
/// matches of its regex in the entire content, kept as an `i32`.
pub proof fn law_counts_cover_whole_message(words: Seq<WordPattern>, content: Seq<char>)
    ensures
        match_counts(words, content).len() == words.len(),
        forall|i: int| 0 <= i < words.len() ==> #[trigger] match_counts(words, content)[i]
            == regex_match_count(words[i].reg@, content) as i32,
{
}

/// Whether `hit` is word `i` with its count, and that count is positive.
pub open spec fn is_positive_count_at(names: Seq<Seq<char>>, counts: Seq<i32>, i: int, hit: (Seq<char>, i32)) -> bool {
    0 <= i < names.len() && counts[i] > 0 && hit == (names[i], counts[i])
}

/// Whether the `k`-th hit is some word with its positive count.
pub open spec fn hit_comes_from_word(names: Seq<Seq<char>>, counts: Seq<i32>, k: int) -> bool {
    exists|i: int| #[trigger] is_positive_count_at(names, counts, i, hits_of(names, counts)[k])
}

/// The hits list only words with a positive count, each with its own count,
/// and every word with a positive count is hit.
pub proof fn law_hits_are_positive_counts(names: Seq<Seq<char>>, counts: Seq<i32>)
    requires
        names.len() == counts.len(),
    ensures
        forall|k: int| 0 <= k < hits_of(names, counts).len() ==> #[trigger] hit_comes_from_word(names, counts, k),
        forall|i: int| 0 <= i < names.len() && #[trigger] counts[i] > 0 ==> hits_of(names, counts).contains(
            (names[i], counts[i]),
        ),
    decreases names.len(),
{
    if names.len() > 0 {
        let n0 = names.drop_last();
        let c0 = counts.drop_last();
        law_hits_are_positive_counts(n0, c0);
        let earlier = hits_of(n0, c0);
        let h = hits_of(names, counts);
        let last = names.len() - 1;
        assert(names.last() == names[last] && counts.last() == counts[last]);
        if counts[last] > 0 {
            assert(h == earlier.push((names[last], counts[last])));
        } else {
            assert(h == earlier);
        }
        assert forall|k: int| 0 <= k < h.len() implies #[trigger] hit_comes_from_word(names, counts, k) by {
            if k < earlier.len() {
                assert(h[k] == earlier[k]);
                assert(hit_comes_from_word(n0, c0, k));
                let i = choose|i: int| #[trigger] is_positive_count_at(n0, c0, i, earlier[k]);
                assert(names[i] == n0[i] && counts[i] == c0[i]);
                assert(is_positive_count_at(names, counts, i, h[k]));
            } else {
                assert(counts[last] > 0);
                assert(h[k] == (names[last], counts[last]));
                assert(is_positive_count_at(names, counts, last, h[k]));
            }
        }
        assert forall|i: int| 0 <= i < names.len() && #[trigger] counts[i] > 0 implies h.contains(
            (names[i], counts[i]),
        ) by {
            if i < last {
                assert(names[i] == n0[i] && counts[i] == c0[i] && c0[i] > 0);
                assert(earlier.contains((n0[i], c0[i])));
                let k = choose|k: int| 0 <= k < earlier.len() && earlier[k] == (n0[i], c0[i]);
                assert(h[k] == earlier[k]);
            } else {
                assert(h[h.len() - 1] == (names[i], counts[i]));
            }
        }
    } else {
        assert(hits_of(names, counts).len() == 0);
    }
}

/// The words found in a message, with their numbers of matches; `None` when
/// a stored regex does not compile (the message cannot be counted).
pub fn count(words: &Vec<WordPattern>, content: &str) -> (res: Option<Vec<WordHit>>)
    ensures
        res is Some <==> all_compile(words@),
        res matches Some(hits) ==> hit_views(hits@) == hits_of(word_names(words@), match_counts(words@, content@)),
{
    let mut counts: Vec<usize> = Vec::new();
    let n = words.len();
    let mut i: usize = 0;
    while i < n
        invariant
            n == words@.len(),
            0 <= i <= n,
            counts@.len() == i,
            forall|j: int| 0 <= j < i ==> regex_accepts(#[trigger] words@[j].reg@),
            forall|j: int| 0 <= j < i ==> #[trigger] counts@[j] as nat == regex_match_count(words@[j].reg@, content@),
        decreases n - i,
    {
        match count_regex_matches(words[i].reg.as_str(), content) {
            None => {
                return None;
            },
            Some(k) => {
                counts.push(k);
            },
        }
        i = i + 1;
    }
    let hits = hits_from_counts(words, &counts);
    assert(stored_counts(counts@) =~= match_counts(words@, content@));
    Some(hits)
}

/// A write to the author's counter table.
#[derive(PartialEq, Eq, Debug)]
pub enum TallyWrite {
    /// Start a counter for the word at 0.
    InsertZero { name: String },
    /// Add `amount` to the counter of the word.
    Add { name: String, amount: i32 },
}

/// The writes that record `hit` when the author has `existing` counter rows
/// for the word: a new counter at 0 when there is none, then the hit added.
pub open spec fn is_tally_plan(writes: Seq<TallyWrite>, hit: WordHit, existing: Seq<i32>) -> bool {
    &&& existing.len() == 0 ==> writes.len() == 2 && (writes[0] matches TallyWrite::InsertZero { name }
        && name@ == hit.name@)
    &&& existing.len() > 0 ==> writes.len() == 1
    &&& writes.last() matches TallyWrite::Add { name, amount } && name@ == hit.name@ && amount == hit.count
}

/// The writes that record a hit, given the counter rows the author already
/// has for the word.
pub fn tally_plan(hit: &WordHit, existing: &Vec<i32>) -> (res: Vec<TallyWrite>)
    ensures
        is_tally_plan(res@, *hit, existing@),
{
    let mut res: Vec<TallyWrite> = Vec::new();
    if existing.len() == 0 {
        res.push(TallyWrite::InsertZero { name: hit.name.clone() });
    }
    res.push(TallyWrite::Add { name: hit.name.clone(), amount: hit.count });
    res
}

/// The counter a word has after `writes`, starting from `current` (`None`:
/// no counter yet).
pub open spec fn counter_after(current: Option<int>, writes: Seq<TallyWrite>) -> Option<int>
    decreases writes.len(),
{
    if writes.len() == 0 {
        current
    } else {
        let before = counter_after(current, writes.drop_last());
        match writes.last() {
            TallyWrite::InsertZero { .. } => if before is None {
                Some(0)
            } else {
                before
            },
            TallyWrite::Add { amount, .. } => match before {
                Some(v) => Some(v + amount),
                None => None,
            },
        }
    }
}

/// The counter a word's rows show: the first row's, if any.
pub open spec fn counter_of(rows: Seq<i32>) -> Option<int> {
    if rows.len() == 0 {
        None
    } else {
        Some(rows[0] as int)
    }
}

/// The table that holds the counters of the user `id`.
pub fn user_table(id: u64) -> (res: String)
    ensures
        res@ == "user"@ + decimal(id as nat),
{
    let mut t = String::from_str("user");
    let digits = format_u64(id);
    t.append(digits.as_str());
    t
}

/// Recording a hit raises the author's counter for the word by the number
/// of matches, starting from 0 when there was none: what `count` reads back
/// afterwards is the earlier total plus the hit.
pub proof fn law_recorded_hit_reads_back(writes: Seq<TallyWrite>, hit: WordHit, existing: Seq<i32>)
    requires
        is_tally_plan(writes, hit, existing),
    ensures
        counter_after(counter_of(existing), writes) == Some(crate::commands::count::total_of(existing) + hit.count),
{
    let c = counter_of(existing);
    if existing.len() == 0 {
        let w1 = writes.drop_last();
        assert(w1.drop_last() =~= Seq::<TallyWrite>::empty());
        assert(counter_after(c, w1.drop_last()) == c);
        assert(w1.last() == writes[0]);
        assert(counter_after(c, w1) == Some(0int));
    } else {
        assert(writes.drop_last() =~= Seq::<TallyWrite>::empty());
        assert(counter_after(c, writes.drop_last()) == c);
    }
}

/// An author's counters: the count stored for each word name.
pub open spec fn counter_or_zero(table: Map<Seq<char>, int>, name: Seq<char>) -> int {
    if table.contains_key(name) {
        table[name]
    } else {
        0
    }
}

/// The counters after one hit is recorded: the word's counter (0 when it had
/// none) grows by the hit's count. This is what `tally_plan`'s writes do to
/// the word's counter (`law_tally_plan_records_hit`).
pub open spec fn record_hit(table: Map<Seq<char>, int>, hit: (Seq<char>, i32)) -> Map<Seq<char>, int> {
    table.insert(hit.0, counter_or_zero(table, hit.0) + hit.1)
}

/// The counters after the hits of a message are recorded, one after the other.
pub open spec fn record_hits(table: Map<Seq<char>, int>, hits: Seq<(Seq<char>, i32)>) -> Map<Seq<char>, int>
    decreases hits.len(),
{
    if hits.len() == 0 {
        table
    } else {
        record_hit(record_hits(table, hits.drop_last()), hits.last())
    }
}

/// The sum of the counts of the hits on the word `name`.
pub open spec fn hits_for(hits: Seq<(Seq<char>, i32)>, name: Seq<char>) -> int
    decreases hits.len(),
{
    if hits.len() == 0 {
        0
    } else {
        hits_for(hits.drop_last(), name) + if hits.last().0 == name {
            hits.last().1 as int
        } else {
            0
        }
    }
}

/// The hits of a message: the words with their positive numbers of matches.
pub open spec fn message_hits(words: Seq<WordPattern>, content: Seq<char>) -> Seq<(Seq<char>, i32)> {
    hits_of(word_names(words), match_counts(words, content))
}

/// The writes `tally_plan` makes for a hit leave the word's counter where
/// `record_hit` puts it, whatever counter the author had.
pub proof fn law_tally_plan_records_hit(
    writes: Seq<TallyWrite>,
    hit: WordHit,
    existing: Seq<i32>,
    table: Map<Seq<char>, int>,
)
    requires
        is_tally_plan(writes, hit, existing),
        counter_of(existing) == (if table.contains_key(hit.name@) {
            Some(table[hit.name@])
        } else {
            None
        }),
    ensures
        counter_after(counter_of(existing), writes) == Some(record_hit(table, (hit.name@, hit.count))[hit.name@]),
{
    law_recorded_hit_reads_back(writes, hit, existing);
}

/// Recording hits adds, to each word's counter, the counts of its hits, and
/// creates counters only for words that were hit.
pub proof fn lemma_record_hits(table: Map<Seq<char>, int>, hits: Seq<(Seq<char>, i32)>, name: Seq<char>)
    ensures
        counter_or_zero(record_hits(table, hits), name) == counter_or_zero(table, name) + hits_for(hits, name),
        record_hits(table, hits).contains_key(name) <==> (table.contains_key(name) || exists|i: int|
            0 <= i < hits.len() && (#[trigger] hits[i]).0 == name),
    decreases hits.len(),
{
    if hits.len() > 0 {
        let rest = hits.drop_last();
        lemma_record_hits(table, rest, name);
        if exists|i: int| 0 <= i < rest.len() && (#[trigger] rest[i]).0 == name {
            let i = choose|i: int| 0 <= i < rest.len() && (#[trigger] rest[i]).0 == name;
            assert(hits[i] == rest[i]);
        }
        if exists|i: int| 0 <= i < hits.len() && (#[trigger] hits[i]).0 == name {
            let i = choose|i: int| 0 <= i < hits.len() && (#[trigger] hits[i]).0 == name;
            if i < hits.len() - 1 {
                assert(rest[i] == hits[i]);
            }
        }
    }
}

/// The counts of the hits of a message are positive, so their sum on any word
/// is never negative.
pub proof fn lemma_message_hits_count_up(names: Seq<Seq<char>>, counts: Seq<i32>, name: Seq<char>)
    ensures
        hits_for(hits_of(names, counts), name) >= 0,
    decreases names.len(),
{
    if names.len() > 0 && counts.len() > 0 {
        lemma_message_hits_count_up(names.drop_last(), counts.drop_last(), name);
        let earlier = hits_of(names.drop_last(), counts.drop_last());
        if counts.last() > 0 {
            let h = earlier.push((names.last(), counts.last()));
            assert(h.drop_last() =~= earlier);
        }
    }
}

/// Counting two messages of one author in either order leaves the same
/// counters: each word's counter grows by its matches in the first message
/// plus its matches in the second, and no counter ever goes down.
pub proof fn law_counting_commutes(
    table: Map<Seq<char>, int>,
    words: Seq<WordPattern>,
    m1: Seq<char>,
    m2: Seq<char>,
)
    ensures
        record_hits(record_hits(table, message_hits(words, m1)), message_hits(words, m2))
            == record_hits(record_hits(table, message_hits(words, m2)), message_hits(words, m1)),
        forall|name: Seq<char>|
            #![trigger counter_or_zero(record_hits(record_hits(table, message_hits(words, m1)), message_hits(words, m2)), name)]
            counter_or_zero(record_hits(record_hits(table, message_hits(words, m1)), message_hits(words, m2)), name)
                == counter_or_zero(table, name) + hits_for(message_hits(words, m1), name)
                + hits_for(message_hits(words, m2), name),
        forall|name: Seq<char>|
            #![trigger counter_or_zero(record_hits(record_hits(table, message_hits(words, m1)), message_hits(words, m2)), name)]
            counter_or_zero(record_hits(record_hits(table, message_hits(words, m1)), message_hits(words, m2)), name)
                >= counter_or_zero(table, name),
{
    let h1 = message_hits(words, m1);
    let h2 = message_hits(words, m2);
    let a = record_hits(record_hits(table, h1), h2);
    let b = record_hits(record_hits(table, h2), h1);
    assert forall|name: Seq<char>|
        counter_or_zero(a, name) == counter_or_zero(table, name) + hits_for(h1, name) + hits_for(h2, name)
            && counter_or_zero(a, name) >= counter_or_zero(table, name)
            && counter_or_zero(b, name) == counter_or_zero(a, name)
            && (a.contains_key(name) <==> b.contains_key(name)) by {
        lemma_record_hits(table, h1, name);
        lemma_record_hits(record_hits(table, h1), h2, name);
        lemma_record_hits(table, h2, name);
        lemma_record_hits(record_hits(table, h2), h1, name);
        lemma_message_hits_count_up(word_names(words), match_counts(words, m1), name);
        lemma_message_hits_count_up(word_names(words), match_counts(words, m2), name);
    }
    assert forall|name: Seq<char>| #[trigger] a.dom().contains(name) == b.dom().contains(name) by {
        assert(counter_or_zero(b, name) == counter_or_zero(a, name));
    }
    assert(a.dom() =~= b.dom());
    assert forall|name: Seq<char>| #[trigger] a.contains_key(name) implies a[name] == b[name] by {
        assert(counter_or_zero(a, name) == counter_or_zero(b, name));
    }
    assert(a =~= b);
}

} // verus!
