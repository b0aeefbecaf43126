//! The telnet conversation with a mail server that tells whether an address
//! exists: greet, give the sender, give the recipient, and read the verdict.

use vstd::prelude::*;
use crate::text::{seq_contains, str_contains};

verus! {

/// The step into the telnet discussion we're in.
#[derive(Debug, Clone, Copy, PartialEq, Eq, Structural)]
pub enum Step {
    Welcome,
    SentHelo,
    SentMailFrom,
    SentRcptTo,
    Found,
    NotFound,
}

/// How far the conversation has gone.
pub open spec fn step_rank(s: Step) -> nat {
    match s {
        Step::Welcome => 0,
        Step::SentHelo => 1,
        Step::SentMailFrom => 2,
        Step::SentRcptTo => 3,
        Step::Found => 4,
        Step::NotFound => 4,
    }
}

/// In these steps the server's answer is read.
pub open spec fn is_reading(s: Step) -> bool {
    s is Welcome || s is SentHelo || s is SentMailFrom || s is SentRcptTo
}

/// The next step and the line to send, given the server's answer, or None
/// when the conversation stops.
pub open spec fn telnet_next_spec(step: Step, answer: Seq<char>, from: Seq<char>, to: Seq<char>) -> Option<
    (Step, Seq<char>),
> {
    match step {
        Step::Welcome => if seq_contains(answer, "220"@) {
            Some((Step::SentHelo, "HELO Hi\n"@))
        } else {
            None
        },
        Step::SentHelo => if seq_contains(answer, "250"@) {
            Some((Step::SentMailFrom, "MAIL FROM: <"@ + from + ">\n"@))
        } else {
            None
        },
        Step::SentMailFrom => if seq_contains(answer, "2.1.0"@) {
            Some((Step::SentRcptTo, "RCPT TO: <"@ + to + ">\n"@))
        } else {
            None
        },
        Step::SentRcptTo => if seq_contains(answer, "2.1.5"@) {
            Some((Step::Found, "QUIT\n"@))
        } else {
            Some((Step::NotFound, "QUIT\n"@))
        },
        _ => None,
    }
}

/// Given the server's answer in a reading step, the next step and the line
/// to send to the server (None: stop the conversation). `2.1.5` in the answer
/// to `RCPT TO` means that the address exists.
pub fn telnet_next(step: Step, answer: &str, from: &str, to: &str) -> (r: Option<(Step, String)>)
    ensures
        match r {
            Some((s, q)) => telnet_next_spec(step, answer@, from@, to@) == Some((s, q@)),
            None => telnet_next_spec(step, answer@, from@, to@) is None,
        },
{
    match step {
        Step::Welcome => if str_contains(answer, "220") {
            Some((Step::SentHelo, String::from_str("HELO Hi\n")))
        } else {
            None
        },
        Step::SentHelo => if str_contains(answer, "250") {
            Some((Step::SentMailFrom, String::from_str("MAIL FROM: <").concat(from).concat(">\n")))
        } else {
            None
        },
        Step::SentMailFrom => if str_contains(answer, "2.1.0") {
            Some((Step::SentRcptTo, String::from_str("RCPT TO: <").concat(to).concat(">\n")))
        } else {
            None
        },
        Step::SentRcptTo => if str_contains(answer, "2.1.5") {
            Some((Step::Found, String::from_str("QUIT\n")))
        } else {
            Some((Step::NotFound, String::from_str("QUIT\n")))
        },
        _ => None,
    }
}

/// Each exchange moves the conversation one step forward, so that it sends
/// at most four lines before it stops.
pub proof fn lemma_telnet_progress(step: Step, answer: Seq<char>, from: Seq<char>, to: Seq<char>)
    ensures
        telnet_next_spec(step, answer, from, to) matches Some((s, _)) ==> step_rank(s) == step_rank(
            step,
        ) + 1,
        !is_reading(step) ==> telnet_next_spec(step, answer, from, to) is None,
{
}

/// The address is found only after the answer to `RCPT TO` holds `2.1.5`.
pub proof fn lemma_found_only_on_rcpt_ok(step: Step, answer: Seq<char>, from: Seq<char>, to: Seq<char>)
    ensures
        telnet_next_spec(step, answer, from, to) matches Some((s, _)) && s == Step::Found
            ==> step == Step::SentRcptTo && seq_contains(answer, "2.1.5"@),
{
}

/// Where the conversation stands after the given answers, read in order,
/// and whether it has stopped: it stops at the first answer that fails its
/// step's check, or that comes once a verdict is reached, and the answers
/// after that are never read.
pub open spec fn telnet_run(answers: Seq<Seq<char>>, from: Seq<char>, to: Seq<char>) -> (Step, bool)
    decreases answers.len(),
{
    if answers.len() == 0 {
        (Step::Welcome, false)
    } else {
        let (prev, stopped) = telnet_run(answers.drop_last(), from, to);
        if stopped {
            (prev, true)
        } else {
            match telnet_next_spec(prev, answers.last(), from, to) {
                Some((s, _)) => (s, false),
                None => (prev, true),
            }
        }
    }
}

/// The step at which the conversation ends, given the answers the server
/// gave: the first answer that fails its check ends it, and nothing after it
/// counts.
pub open spec fn telnet_final_step(answers: Seq<Seq<char>>, from: Seq<char>, to: Seq<char>) -> Step {
    telnet_run(answers, from, to).0
}

/// Once the conversation has stopped, later answers change nothing.
pub proof fn lemma_stopped_is_final(answers: Seq<Seq<char>>, from: Seq<char>, to: Seq<char>, i: int)
    requires
        0 <= i <= answers.len(),
        telnet_run(answers.subrange(0, i), from, to).1,
    ensures
        telnet_run(answers, from, to) == telnet_run(answers.subrange(0, i), from, to),
    decreases answers.len() - i,
{
    if i < answers.len() {
        let longer = answers.subrange(0, i + 1);
        assert(longer.drop_last() =~= answers.subrange(0, i));
        assert(longer.subrange(0, i + 1) =~= longer);
        lemma_stopped_is_final(answers, from, to, i + 1);
    } else {
        assert(answers.subrange(0, i) =~= answers);
    }
}

/// The lines sent to the server, in order, given the answers it gave: after
/// each answer that passes its step's check, the line that the next step
/// sends (`HELO Hi`, `MAIL FROM: <from>`, `RCPT TO: <to>`, then `QUIT` once
/// the answer to `RCPT TO` arrives), each ended by a newline; nothing once the
/// conversation has stopped.
pub open spec fn telnet_sent(answers: Seq<Seq<char>>, from: Seq<char>, to: Seq<char>) -> Seq<Seq<char>>
    decreases answers.len(),
{
    if answers.len() == 0 {
        Seq::empty()
    } else {
        let before = telnet_sent(answers.drop_last(), from, to);
        let (prev, stopped) = telnet_run(answers.drop_last(), from, to);
        if stopped {
            before
        } else {
            match telnet_next_spec(prev, answers.last(), from, to) {
                Some((_, q)) => before.push(q),
                None => before,
            }
        }
    }
}

/// Once the conversation has stopped, later answers make it send nothing.
pub proof fn lemma_stopped_sends_nothing(answers: Seq<Seq<char>>, from: Seq<char>, to: Seq<char>, i: int)
    requires
        0 <= i <= answers.len(),
        telnet_run(answers.subrange(0, i), from, to).1,
    ensures
        telnet_sent(answers, from, to) == telnet_sent(answers.subrange(0, i), from, to),
    decreases answers.len() - i,
{
    if i < answers.len() {
        let longer = answers.subrange(0, i + 1);
        assert(longer.drop_last() =~= answers.subrange(0, i));
        assert(longer.subrange(0, i + 1) =~= longer);
        lemma_stopped_is_final(answers, from, to, i + 1);
        lemma_stopped_sends_nothing(answers, from, to, i + 1);
    } else {
        assert(answers.subrange(0, i) =~= answers);
    }
}

/// The conversation sends one line per step it has gone through, so at
/// most four.
pub proof fn lemma_one_line_per_step(answers: Seq<Seq<char>>, from: Seq<char>, to: Seq<char>)
    ensures
        telnet_sent(answers, from, to).len() == step_rank(telnet_run(answers, from, to).0),
    decreases answers.len(),
{
    if answers.len() > 0 {
        lemma_one_line_per_step(answers.drop_last(), from, to);
        let (prev, stopped) = telnet_run(answers.drop_last(), from, to);
        lemma_telnet_progress(prev, answers.last(), from, to);
    }
}

/// The conversation given the answers that the server gave, in order:
/// whether the address was found, and the lines sent to the server. It stops
/// at the first answer that fails its check.
pub fn telnet_conversation(answers: &Vec<String>, from: &str, to: &str) -> (r: (bool, Vec<String>))
    ensures
        r.0 == (telnet_final_step(answers@.map_values(|a: String| a@), from@, to@) == Step::Found),
        r.1@.map_values(|l: String| l@) == telnet_sent(answers@.map_values(|a: String| a@), from@, to@),
{
    let ghost all = answers@.map_values(|a: String| a@);
    let mut step = Step::Welcome;
    let mut sent: Vec<String> = Vec::new();
    let mut i: usize = 0;
    assert(all.subrange(0, 0) =~= Seq::<Seq<char>>::empty());
    assert(sent@.map_values(|l: String| l@) =~= Seq::<Seq<char>>::empty());
    while i < answers.len()
        invariant
            i <= answers@.len(),
            all == answers@.map_values(|a: String| a@),
            telnet_run(all.subrange(0, i as int), from@, to@) == (step, false),
            sent@.map_values(|l: String| l@) == telnet_sent(all.subrange(0, i as int), from@, to@),
        decreases answers@.len() - i,
    {
        assert(all.subrange(0, i + 1).drop_last() =~= all.subrange(0, i as int));
        assert(all.subrange(0, i + 1).last() == answers@[i as int]@);
        match telnet_next(step, answers[i].as_str(), from, to) {
            Some((s, q)) => {
                step = s;
                let ghost before = sent@;
                sent.push(q);
                proof {
                    assert(sent@.map_values(|l: String| l@) =~= before.map_values(|l: String| l@).push(q@));
                }
            },
            None => {
                proof {
                    lemma_stopped_is_final(all, from@, to@, i + 1);
                    lemma_stopped_sends_nothing(all, from@, to@, i + 1);
                }
                return (step == Step::Found, sent);
            },
        }
        i += 1;
    }
    assert(all.subrange(0, answers@.len() as int) =~= all);
    (step == Step::Found, sent)
}

/// Whether the address was found, given the answers that the server gave,
/// in order: the conversation stops at the first answer that fails its
/// check.
pub fn connect(answers: &Vec<String>, from: &str, to: &str) -> (r: bool)
    ensures
        r == (telnet_final_step(answers@.map_values(|a: String| a@), from@, to@) == Step::Found),
{
    telnet_conversation(answers, from, to).0
}

} // verus!
