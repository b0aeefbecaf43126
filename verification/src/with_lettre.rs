//! The SMTP conversation of the simple email check: connect,
//! `EHLO`, `STARTTLS` when the server offers it, `MAIL FROM`, `RCPT TO`,
//! `QUIT`; the address exists when every reply is positive.

use vstd::prelude::*;

verus! {

/// The stage of the conversation: the command whose reply is awaited, or
/// the verdict.
#[derive(Debug, Clone, Copy, PartialEq, Eq, Structural)]
pub enum Stage {
    Connect,
    Ehlo,
    StartTls,
    MailFrom,
    RcptTo,
    Quit,
    Exists,
    Failed,
}

/// The stage after a reply: a reply that is not positive (or an error) ends
/// the conversation in failure; `STARTTLS` is sent only when the `EHLO` reply
/// offers it.
pub open spec fn next_stage_spec(stage: Stage, positive: bool, supports_starttls: bool) -> Stage {
    if stage is Exists || stage is Failed {
        stage
    } else if !positive {
        Stage::Failed
    } else {
        match stage {
            Stage::Connect => Stage::Ehlo,
            Stage::Ehlo => if supports_starttls {
                Stage::StartTls
            } else {
                Stage::MailFrom
            },
            Stage::StartTls => Stage::MailFrom,
            Stage::MailFrom => Stage::RcptTo,
            Stage::RcptTo => Stage::Quit,
            _ => Stage::Exists,
        }
    }
}

/// The stage after a reply.
pub fn next_stage(stage: Stage, positive: bool, supports_starttls: bool) -> (r: Stage)
    ensures
        r == next_stage_spec(stage, positive, supports_starttls),
{
    if stage == Stage::Exists || stage == Stage::Failed {
        stage
    } else if !positive {
        Stage::Failed
    } else {
        match stage {
            Stage::Connect => Stage::Ehlo,
            Stage::Ehlo => if supports_starttls {
                Stage::StartTls
            } else {
                Stage::MailFrom
            },
            Stage::StartTls => Stage::MailFrom,
            Stage::MailFrom => Stage::RcptTo,
            Stage::RcptTo => Stage::Quit,
            _ => Stage::Exists,
        }
    }
}

/// The stage reached after the given replies, in order.
pub open spec fn stage_after(replies: Seq<bool>, supports_starttls: bool) -> Stage
    decreases replies.len(),
{
    if replies.len() == 0 {
        Stage::Connect
    } else {
        next_stage_spec(stage_after(replies.drop_last(), supports_starttls), replies.last(), supports_starttls)
    }
}

/// Whether the address exists, given whether each reply of the conversation
/// was positive, in order, and whether the server offers `STARTTLS`.
pub fn email_exists(replies: &[bool], supports_starttls: bool) -> (r: bool)
    ensures
        r == (stage_after(replies@, supports_starttls) == Stage::Exists),
{
    let mut stage = Stage::Connect;
    let mut i: usize = 0;
    while i < replies.len()
        invariant
            i <= replies@.len(),
            stage == stage_after(replies@.subrange(0, i as int), supports_starttls),
        decreases replies@.len() - i,
    {
        assert(replies@.subrange(0, i + 1).drop_last() == replies@.subrange(0, i as int));
        stage = next_stage(stage, replies[i], supports_starttls);
        i += 1;
    }
    assert(replies@.subrange(0, replies@.len() as int) == replies@);
    stage == Stage::Exists
}

/// A failed conversation stays failed, whatever replies come after.
pub proof fn lemma_failure_is_final(replies: Seq<bool>, more: Seq<bool>, starttls: bool)
    requires
        stage_after(replies, starttls) == Stage::Failed,
    ensures
        stage_after(replies + more, starttls) == Stage::Failed,
    decreases more.len(),
{
    if more.len() > 0 {
        lemma_failure_is_final(replies, more.drop_last(), starttls);
        assert((replies + more).drop_last() =~= replies + more.drop_last());
    } else {
        assert(replies + more =~= replies);
    }
}

/// The address exists after a conversation of positive replies only: five
/// of them, or six when the server offers `STARTTLS`.
pub proof fn lemma_all_positive_exists(starttls: bool)
    ensures
        stage_after(seq![true, true, true, true, true], false) == Stage::Exists,
        stage_after(seq![true, true, true, true, true, true], true) == Stage::Exists,
{
    let s5 = seq![true, true, true, true, true];
    let s6 = seq![true, true, true, true, true, true];
    assert(s5.drop_last().drop_last().drop_last().drop_last().drop_last() =~= Seq::<bool>::empty());
    assert(s6.drop_last().drop_last().drop_last().drop_last().drop_last().drop_last() =~= Seq::<
        bool,
    >::empty());
    reveal_with_fuel(stage_after, 7);
}

} // verus!
