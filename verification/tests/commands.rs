use tagbot::commands::count::{
    cadd, cadd_after_lookup, cedit, cedit_after_owner, clist, clist_open, count,
    count_after_names, count_after_patterns, count_reply, cremove, cremove_after_owner,
    make_list_embed, CaddStep, CeditStep, CountNames, CountStep, OwnerStep, WordWrite,
};
use tagbot::commands::minigames::{
    challenge, challenge_answer, challenge_outcome, challenge_result, ChallengeAnswer,
    ChallengeStart,
};
use tagbot::commands::tags::{
    tadd, tadd_after_lookup, tag, tag_after_lookup, tag_not_found, tcopy, tcopy_after_lookup,
    tedit, tedit_after_owner, tedit_after_role, tlist, tlist_open, tremove, tremove_after_owner,
    tremove_after_role, CopyStep, TagFound, TagRemoveStep, TagStep, TagValueStep, TagWrite,
    DIST_LIMIT,
};
use tagbot::commands::{mention, owner_of};
use tagbot::interactions::{general, responses};
use tagbot::messages::MessageData;
use tagbot::paging::{ListOpen, ListRow, ListStart, PageAction, Pager, Terminal};

fn strings(v: &[&str]) -> Vec<String> {
    v.iter().map(|s| s.to_string()).collect()
}

fn s(x: &str) -> String {
    x.to_string()
}

#[test]
fn mention_and_owner_texts() {
    assert_eq!(mention(42), "<@42>");
    assert_eq!(owner_of(874699899067838535), "874699899067838535");
}

#[test]
fn count_needs_a_query() {
    assert_eq!(count(&strings(&[])), CountStep::Reply(s("Count what?")));
    assert_eq!(count(&strings(&[""])), CountStep::Reply(s("Count what?")));
    assert_eq!(count(&strings(&["hello", "world"])), CountStep::FindMatching { query: s("hello world") });
}

#[test]
fn count_falls_back_to_names() {
    assert_eq!(count_after_patterns(s("q"), vec![]), CountNames::FindNamed { query: s("q") });
    assert_eq!(
        count_after_patterns(s("q"), strings(&["a", "b"])),
        CountNames::FetchCounts { names: strings(&["a", "b"]) }
    );
    assert_eq!(
        count_after_names("bruh", vec![]),
        CountNames::Reply(s("No entry for 'bruh' found. If you want to add it, run `,cadd bruh&<regex>`"))
    );
    assert_eq!(count_after_names("bruh", strings(&["bruh"])), CountNames::FetchCounts { names: strings(&["bruh"]) });
}

#[test]
fn count_reply_lists_counts() {
    assert_eq!(count_reply(&strings(&["a"]), &vec![vec![3]]), "\na count for you: 3");
    assert_eq!(
        count_reply(&strings(&["a", "b"]), &vec![vec![], vec![5, 9]]),
        "2 patterns matched\na count for you: 0\nb count for you: 5"
    );
    assert_eq!(count_reply(&strings(&[]), &vec![]), "0 patterns matched");
    assert_eq!(count_reply(&strings(&["n"]), &vec![vec![-4]]), "\nn count for you: -4");
}

#[test]
fn cadd_checks_syntax_and_regex() {
    let syntax = "Please use the proper syntax: `,cadd <name>&<regex>`\nIf you don't know what regex is, just do: `,cadd <name>&<name>`";
    assert_eq!(cadd(&strings(&["foo"])), CaddStep::Reply(s(syntax)));
    assert_eq!(cadd(&strings(&[])), CaddStep::Reply(s(syntax)));
    assert_eq!(cadd(&strings(&["foo&ba(r"])), CaddStep::Reply(s("Please enter a valid regex")));
    assert_eq!(cadd(&strings(&["foo&bar"])), CaddStep::FindWord { name: s("foo"), reg: s("(?i)bar") });
    assert_eq!(cadd(&strings(&["big", "word&b", "c&d"])), CaddStep::FindWord { name: s("big word"), reg: s("(?i)b c&d") });
}

#[test]
fn cadd_refuses_taken_names() {
    assert_eq!(
        cadd_after_lookup(s("foo"), s("(?i)bar"), 42, &strings(&["(?i)old"])),
        WordWrite::Reply(s("This word already exists with the regex '(?i)old'"))
    );
    assert_eq!(
        cadd_after_lookup(s("foo"), s("(?i)bar"), 42, &vec![]),
        WordWrite::Insert { name: s("foo"), reg: s("(?i)bar"), owner: s("42"), reply: s("Added") }
    );
}

#[test]
fn cremove_respects_owners() {
    assert_eq!(cremove(&strings(&[])), OwnerStep::Reply(s("remove what?")));
    assert_eq!(cremove(&strings(&["a", "b"])), OwnerStep::FindOwner { name: s("a b") });
    let deleted = WordWrite::Delete { name: s("w"), reply: s("Deleted if it existed") };
    assert_eq!(cremove_after_owner(s("w"), 42, &strings(&["42"])), deleted);
    assert_eq!(cremove_after_owner(s("w"), 42, &vec![]), deleted);
    assert_eq!(cremove_after_owner(s("w"), 42, &strings(&["7", "8"])), deleted);
    assert_eq!(cremove_after_owner(s("w"), 42, &strings(&["7"])), WordWrite::Reply(s("You don't even own this word")));
}

#[test]
fn cedit_checks_syntax_and_owner() {
    assert_eq!(cedit(&strings(&["w"])), CeditStep::Reply(s("Please use the proper syntax\n,cedit <name>&<regex>")));
    assert_eq!(cedit(&strings(&["w&a", "b"])), CeditStep::Reply(s("Not a valid regex")));
    assert_eq!(cedit(&strings(&["w&ab"])), CeditStep::FindOwner { name: s("w"), reg: s("(?i)ab") });
    assert_eq!(cedit(&strings(&["w&(("])), CeditStep::FindOwner { name: s("w"), reg: s("(?i)((") });
    assert_eq!(
        cedit_after_owner(s("w"), s("(?i)ab"), 42, &strings(&["42"])),
        WordWrite::Update { name: s("w"), reg: s("(?i)ab"), reply: s("Changed the value if it existed") }
    );
    assert_eq!(cedit_after_owner(s("w"), s("(?i)ab"), 42, &strings(&["1"])), WordWrite::Reply(s("You don't even own this word")));
}

#[test]
fn clist_and_tlist_pages() {
    assert_eq!(clist(&strings(&[])), ListStart::Fetch { size: 5, warning: None });
    assert_eq!(tlist(&strings(&["x"])), ListStart::Fail);
    assert_eq!(clist_open(0, 5), ListOpen::Reply(s("No words stored")));
    assert_eq!(tlist_open(0, 5), ListOpen::Reply(s("No tags stored")));
    assert_eq!(
        tlist_open(6, 5),
        ListOpen::Show { pager: Pager { cur: 1, pages: 2 }, action: PageAction::Show { page: 1, terminal: Terminal::First } }
    );
    let rows = vec![ListRow { idx: 3, name: s("t"), owner: s("9") }];
    let w = make_list_embed(1, &rows);
    assert_eq!(w.title, "List of words: Page 1");
    assert_eq!(w.colour, 0x1ABC9C);
    let t = tagbot::commands::tags::make_list_embed(4, &rows);
    assert_eq!(t.title, "List of tags: Page 4");
    assert_eq!(t.colour, 0xFAB1ED);
    assert_eq!(t.fields[0].name, "3. t");
}

#[test]
fn tag_lookup_and_suggestion() {
    assert_eq!(tag(&strings(&[])), TagStep::Reply(s("Mention the tag retard")));
    assert_eq!(tag(&strings(&["a", "b"])), TagStep::FindTag { name: s("ab") });
    assert_eq!(tag_after_lookup(s("ab"), &strings(&["value"])), TagFound::Reply(s("value")));
    assert_eq!(tag_after_lookup(s("ab"), &vec![]), TagFound::FindClosest { name: s("ab"), limit: DIST_LIMIT });
    assert_eq!(
        tag_not_found("helo", "hello", 1),
        "No entry for 'helo' found. If you want to add it, run `,tadd helo <value>`\nDid you mean `hello`?"
    );
    assert_eq!(
        tag_not_found("helo", "hello", 2),
        "No entry for 'helo' found. If you want to add it, run `,tadd helo <value>`\nDid you mean `hello`?"
    );
    assert_eq!(tag_not_found("zzz", "hello", 3), "No entry for 'zzz' found. If you want to add it, run `,tadd zzz <value>`");
}

fn message(content: &str, attachments: &[&str]) -> MessageData {
    MessageData { content: s(content), attachments: strings(attachments), referenced: None }
}

#[test]
fn tadd_takes_value_from_message() {
    let syntax = "Please use the proper syntax: `,tadd <name> <value>` or attach something";
    assert_eq!(tadd(&strings(&["name"]), &message("xxtadd name", &[])), TagValueStep::Reply(s(syntax)));
    assert_eq!(
        tadd(&strings(&["name", "hello", "there"]), &message("xxtadd name hello there", &[])),
        TagValueStep::FindTag { name: s("name"), value: s("hello there\n") }
    );
    assert_eq!(
        tadd(&strings(&["name"]), &message("xxtadd name", &["http://img"])),
        TagValueStep::FindTag { name: s("name"), value: s("http://img") }
    );
    assert_eq!(tadd_after_lookup(s("n"), s("v"), 5, &strings(&["n"])), TagWrite::Reply(s("This tag already exists")));
    assert_eq!(
        tadd_after_lookup(s("n"), s("v"), 5, &vec![]),
        TagWrite::Insert { name: s("n"), value: s("v"), owner: s("5"), reply: s("Added") }
    );
}

#[test]
fn tcopy_needs_two_names_and_an_original() {
    let syntax = "Please use the proper syntax: `,tcopy <original> <new>`";
    assert_eq!(tcopy(&strings(&["a"])), CopyStep::Reply(s(syntax)));
    assert_eq!(tcopy(&strings(&["a", "b", "c"])), CopyStep::Reply(s(syntax)));
    assert_eq!(tcopy(&strings(&["a", "b"])), CopyStep::FindTag { from: s("a"), to: s("b") });
    assert_eq!(tcopy_after_lookup(s("a"), s("b"), 3, &vec![]), TagWrite::Reply(s("This tag does not exist")));
    assert_eq!(
        tcopy_after_lookup(s("a"), s("b"), 3, &strings(&["a"])),
        TagWrite::Copy { from: s("a"), to: s("b"), owner: s("3"), reply: s("Copied a to b") }
    );
}

#[test]
fn tremove_needs_owner_or_moderator() {
    assert_eq!(tremove(&strings(&[])), TagRemoveStep::Reply(s("remove what?")));
    assert_eq!(tremove(&strings(&["my", "tag"])), TagRemoveStep::FindOwner { name: s("my tag") });
    let deleted = TagWrite::Delete { name: s("t"), reply: s("Deleted t if it existed") };
    assert_eq!(tremove_after_owner(s("t"), 1, &strings(&["1"])), deleted);
    assert_eq!(tremove_after_owner(s("t"), 1, &strings(&["2"])), TagWrite::CheckRole);
    assert_eq!(tremove_after_role(s("t"), true), deleted);
    assert_eq!(tremove_after_role(s("t"), false), TagWrite::Reply(s("You don't even own this tag")));
}

#[test]
fn tedit_needs_owner_or_moderator() {
    assert_eq!(
        tedit(&strings(&["t", "new"]), &message("xxtedit t new", &[])),
        TagValueStep::FindTag { name: s("t"), value: s("new\n") }
    );
    let updated = TagWrite::Update { name: s("t"), value: s("v"), reply: s("Changed the value if it existed") };
    assert_eq!(tedit_after_owner(s("t"), s("v"), 1, &vec![]), updated);
    assert_eq!(tedit_after_owner(s("t"), s("v"), 1, &strings(&["2"])), TagWrite::CheckRole);
    assert_eq!(tedit_after_role(s("t"), s("v"), true), updated);
    assert_eq!(tedit_after_role(s("t"), s("v"), false), TagWrite::Reply(s("You don't even own this tag")));
}

#[test]
fn challenge_needs_a_mention() {
    assert_eq!(challenge(1, &vec![]), ChallengeStart::Reply(s("mention to daal chutiye")));
    assert_eq!(
        challenge(1, &vec![2, 3]),
        ChallengeStart::Issue {
            opponent: 2,
            text: s("<@2>, reply to this message to accept the challenge by <@1> in 60s [y/n]"),
        }
    );
}

#[test]
fn challenge_answers_ignore_case() {
    assert_eq!(challenge_answer(1, Some("YES")), ChallengeAnswer::Accepted { reply: s("Challenge accepted, <@1>") });
    assert_eq!(challenge_answer(1, Some("Ha")), ChallengeAnswer::Accepted { reply: s("Challenge accepted, <@1>") });
    assert_eq!(challenge_answer(1, Some("y")), ChallengeAnswer::Accepted { reply: s("Challenge accepted, <@1>") });
    assert_eq!(challenge_answer(1, Some("NAHI")), ChallengeAnswer::Declined { reply: s("Challenge not accepted") });
    assert_eq!(challenge_answer(1, Some("n")), ChallengeAnswer::Declined { reply: s("Challenge not accepted") });
    assert_eq!(
        challenge_answer(1, Some("maybe")),
        ChallengeAnswer::Unclear { reply: s("Please only answer in no/nahi/n or yes/ha/y\ndeleting challenge ...") }
    );
    assert_eq!(challenge_answer(1, None), ChallengeAnswer::TimedOut { reply: s("Challenge not accepted in 60s") });
}

#[test]
fn challenge_has_one_winner() {
    assert_eq!(challenge_outcome(1, 2, true), "<@2> won, <@1> ki ma ki chut");
    assert_eq!(challenge_outcome(1, 2, false), "<@1> won, <@2> ki ma ki chut");
    for _ in 0..20 {
        let r = challenge_result(1, 2);
        assert!(r == challenge_outcome(1, 2, true) || r == challenge_outcome(1, 2, false));
    }
}

#[test]
fn slash_commands_and_answers() {
    let cmds = general();
    let names: Vec<&str> = cmds.iter().map(|c| c.name.as_str()).collect();
    assert_eq!(names, vec!["allah", "ping", "chut"]);
    assert_eq!(cmds[1].description, "Pong! bhay");
    assert_eq!(responses(s("allah")), "suar ki chamdi");
    assert_eq!(responses(s("ping")), "na hai bhay");
}
