use tagbot::handler::count::{count, hits_from_counts, tally_plan, user_table, TallyWrite, WordHit, WordPattern};

fn word(name: &str, reg: &str) -> WordPattern {
    WordPattern { name: name.to_string(), reg: reg.to_string() }
}

fn hit(name: &str, count: i32) -> WordHit {
    WordHit { name: name.to_string(), count }
}

#[test]
fn message_hits_count_matches() {
    let words = vec![word("hi", "(?i)hi"), word("bye", "(?i)bye"), word("nope", "(?i)zzz")];
    assert_eq!(count(&words, "Hi hi HI bye"), Some(vec![hit("hi", 3), hit("bye", 1)]));
    assert_eq!(count(&words, "quiet room"), Some(vec![]));
}

#[test]
fn message_with_broken_regex_is_not_counted() {
    let words = vec![word("hi", "(?i)hi"), word("bad", "(?i)((")];
    assert_eq!(count(&words, "hi"), None);
    assert_eq!(count(&vec![], "hi"), Some(vec![]));
}

#[test]
fn hits_keep_positive_counts_in_order() {
    let words = vec![word("a", ""), word("b", ""), word("c", "")];
    assert_eq!(hits_from_counts(&words, &vec![2, 0, 5]), vec![hit("a", 2), hit("c", 5)]);
}

#[test]
fn tally_starts_missing_counters() {
    let h = hit("hi", 3);
    assert_eq!(
        tally_plan(&h, &vec![]),
        vec![TallyWrite::InsertZero { name: "hi".to_string() }, TallyWrite::Add { name: "hi".to_string(), amount: 3 }]
    );
    assert_eq!(tally_plan(&h, &vec![10]), vec![TallyWrite::Add { name: "hi".to_string(), amount: 3 }]);
}

#[test]
fn recorded_hit_reads_back() {
    // Apply the planned writes to a counter the way the database does.
    fn apply(current: Option<i64>, writes: &[TallyWrite]) -> Option<i64> {
        let mut c = current;
        for w in writes {
            c = match (w, c) {
                (TallyWrite::InsertZero { .. }, None) => Some(0),
                (TallyWrite::InsertZero { .. }, v) => v,
                (TallyWrite::Add { amount, .. }, Some(v)) => Some(v + *amount as i64),
                (TallyWrite::Add { .. }, None) => None,
            };
        }
        c
    }
    let h = hit("hi", 3);
    assert_eq!(apply(None, &tally_plan(&h, &vec![])), Some(3));
    assert_eq!(apply(Some(10), &tally_plan(&h, &vec![10])), Some(13));
}

#[test]
fn user_table_names() {
    assert_eq!(user_table(42), "user42");
    assert_eq!(user_table(0), "user0");
}

#[test]
fn counting_two_messages_commutes() {
    fn record(table: &mut std::collections::HashMap<String, i64>, hits: &[WordHit]) {
        for h in hits {
            *table.entry(h.name.clone()).or_insert(0) += h.count as i64;
        }
    }
    let words = vec![word("hi", "(?i)hi"), word("bye", "(?i)bye")];
    let m1 = count(&words, "hi hi bye").unwrap();
    let m2 = count(&words, "HI there").unwrap();
    let mut a: std::collections::HashMap<String, i64> = std::collections::HashMap::new();
    a.insert("hi".to_string(), 4);
    let mut b = a.clone();
    record(&mut a, &m1);
    record(&mut a, &m2);
    record(&mut b, &m2);
    record(&mut b, &m1);
    assert_eq!(a, b);
    assert_eq!(a["hi"], 4 + 2 + 1);
    assert_eq!(a["bye"], 1);
}
