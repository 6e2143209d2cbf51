//! The `challenge` minigame: one user challenges another, who answers
//! yes or no; an accepted challenge is won by one of the two at random.

use vstd::prelude::*;
use crate::commands::{mention, mention_text};
use crate::outside::{coin_flip, lowercase, to_lowercase};
use crate::text::same_text;

verus! {

/// First step of `challenge`.
#[derive(PartialEq, Eq, Debug)]
pub enum ChallengeStart {
    Reply(String),
    /// Post `text` in the channel and wait up to 60 s for `opponent` to reply.
    Issue { opponent: u64, text: String },
}

/// The challenge posted in the channel.
pub open spec fn challenge_text(author: u64, opponent: u64) -> Seq<char> {
    mention_text(opponent) + ", reply to this message to accept the challenge by "@
        + mention_text(author) + " in 60s [y/n]"@
}

/// `challenge @user`: challenges the first user the message mentions.
pub fn challenge(author: u64, mentions: &Vec<u64>) -> (res: ChallengeStart)
    ensures
        mentions@.len() == 0 ==> (res matches ChallengeStart::Reply(t) && t@ == "mention to daal chutiye"@),
        mentions@.len() > 0 ==> (res matches ChallengeStart::Issue { opponent, text }
            && opponent == mentions@[0] && text@ == challenge_text(author, mentions@[0])),
{
    if mentions.len() == 0 {
        return ChallengeStart::Reply(String::from_str("mention to daal chutiye"));
    }
    let opponent = mentions[0];
    let mut text = mention(opponent);
    text.append(", reply to this message to accept the challenge by ");
    let me = mention(author);
    text.append(me.as_str());
    text.append(" in 60s [y/n]");
    ChallengeStart::Issue { opponent, text }
}

/// How the challenge goes on after the wait.
#[derive(PartialEq, Eq, Debug)]
pub enum ChallengeAnswer {
    /// Reply `reply` to the answer, delete the challenge, and play it out.
    Accepted { reply: String },
    /// Reply `reply` to the command and delete the challenge; it ends.
    Declined { reply: String },
    /// Reply `reply` to the answer and play the challenge out anyway.
    Unclear { reply: String },
    /// Reply `reply` to the command; it ends.
    TimedOut { reply: String },
}

/// Whether a lowercased answer accepts.
pub open spec fn is_yes(a: Seq<char>) -> bool {
    a == "yes"@ || a == "y"@ || a == "ha"@
}

/// Whether a lowercased answer declines.
pub open spec fn is_no(a: Seq<char>) -> bool {
    a == "no"@ || a == "nahi"@ || a == "n"@
}

fn one_of_three(a: &str, x: &str, y: &str, z: &str) -> (res: bool)
    ensures
        res == (a@ == x@ || a@ == y@ || a@ == z@),
{
    same_text(a, x) || same_text(a, y) || same_text(a, z)
}

/// Reads the opponent's answer (`None` when 60 s passed without one),
/// compared without regard to case.
pub fn challenge_answer(author: u64, answer: Option<&str>) -> (res: ChallengeAnswer)
    ensures
        answer is None ==> (res matches ChallengeAnswer::TimedOut { reply } && reply@
            == "Challenge not accepted in 60s"@),
        answer matches Some(a) ==> {
            if is_yes(lowercase(a@)) {
                res matches ChallengeAnswer::Accepted { reply } && reply@ == "Challenge accepted, "@
                    + mention_text(author)
            } else if is_no(lowercase(a@)) {
                res matches ChallengeAnswer::Declined { reply } && reply@ == "Challenge not accepted"@
            } else {
                res matches ChallengeAnswer::Unclear { reply } && reply@
                    == "Please only answer in no/nahi/n or yes/ha/y\ndeleting challenge ..."@
            }
        },
        answer matches Some(a) && (lowercase(a@) == "yes"@ || lowercase(a@) == "y"@ || lowercase(a@)
            == "ha"@) ==> res is Accepted,
        answer matches Some(a) && (lowercase(a@) == "no"@ || lowercase(a@) == "nahi"@ || lowercase(a@)
            == "n"@) ==> res is Declined,
        answer matches Some(a) && !(lowercase(a@) == "yes"@ || lowercase(a@) == "y"@ || lowercase(a@)
            == "ha"@ || lowercase(a@) == "no"@ || lowercase(a@) == "nahi"@ || lowercase(a@) == "n"@)
            ==> res is Unclear,
{
    proof {
        reveal_strlit("yes");
        reveal_strlit("y");
        reveal_strlit("ha");
        reveal_strlit("no");
        reveal_strlit("nahi");
        reveal_strlit("n");
        assert("yes"@[0] == 'y' && "y"@[0] == 'y' && "ha"@[0] == 'h');
        assert("no"@[0] == 'n' && "nahi"@[0] == 'n' && "n"@[0] == 'n');
    }
    match answer {
        None => ChallengeAnswer::TimedOut { reply: String::from_str("Challenge not accepted in 60s") },
        Some(a) => {
            let lowered = to_lowercase(a);
            if one_of_three(lowered.as_str(), "yes", "y", "ha") {
                let mut reply = String::from_str("Challenge accepted, ");
                let me = mention(author);
                reply.append(me.as_str());
                ChallengeAnswer::Accepted { reply }
            } else if one_of_three(lowered.as_str(), "no", "nahi", "n") {
                ChallengeAnswer::Declined { reply: String::from_str("Challenge not accepted") }
            } else {
                ChallengeAnswer::Unclear {
                    reply: String::from_str(
                        "Please only answer in no/nahi/n or yes/ha/y\ndeleting challenge ...",
                    ),
                }
            }
        },
    }
}

/// The announcement of a played-out challenge: the winner, then the loser.
pub open spec fn outcome_text(author: u64, opponent: u64, opponent_won: bool) -> Seq<char> {
    let winner = if opponent_won { opponent } else { author };
    let loser = if opponent_won { author } else { opponent };
    mention_text(winner) + " won, "@ + mention_text(loser) + " ki ma ki chut"@
}

/// The announcement, given which of the two won.
pub fn challenge_outcome(author: u64, opponent: u64, opponent_won: bool) -> (res: String)
    ensures
        res@ == outcome_text(author, opponent, opponent_won),
{
    let winner = if opponent_won { opponent } else { author };
    let loser = if opponent_won { author } else { opponent };
    let mut text = mention(winner);
    text.append(" won, ");
    let l = mention(loser);
    text.append(l.as_str());
    text.append(" ki ma ki chut");
    text
}

/// Plays the challenge out: a coin flip picks the winner.
pub fn challenge_result(author: u64, opponent: u64) -> (res: String)
    ensures
        res@ == outcome_text(author, opponent, true) || res@ == outcome_text(author, opponent, false),
{
    let won = coin_flip();
    challenge_outcome(author, opponent, won)
}

} // verus!
