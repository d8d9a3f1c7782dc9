//! What holds of every run of additions to the guestbook's log.

use vstd::prelude::*;

use crate::guestbook::{after_call, appended, entries_of, replay, run_calls};
use crate::message::Message;

verus! {

/// Adding the pairs `(users[i], contents[i])` one after the other to any log
/// leaves that log in front, followed by exactly the added entries, in the
/// order of the additions.
pub proof fn lemma_replay_extends(
    log: Seq<Message>,
    users: Seq<soroban_sdk::Address>,
    contents: Seq<soroban_sdk::String>,
)
    requires
        users.len() == contents.len(),
    ensures
        replay(log, users, contents) == log + entries_of(users, contents),
    decreases users.len(),
{
    if users.len() == 0 {
        assert(log + entries_of(users, contents) =~= log);
    } else {
        let (us, cs) = (users.drop_last(), contents.drop_last());
        lemma_replay_extends(log, us, cs);
        assert(appended(log + entries_of(us, cs), users.last(), contents.last())
            =~= log + entries_of(users, contents));
    }
}

/// A log that starts empty and receives `(users[0], contents[0])`, ...,
/// `(users[n-1], contents[n-1])` holds exactly those entries, in call order.
pub proof fn lemma_history_is_exact(
    users: Seq<soroban_sdk::Address>,
    contents: Seq<soroban_sdk::String>,
)
    requires
        users.len() == contents.len(),
    ensures
        replay(Seq::empty(), users, contents) == entries_of(users, contents),
{
    lemma_replay_extends(Seq::empty(), users, contents);
    assert(Seq::<Message>::empty() + entries_of(users, contents) =~= entries_of(users, contents));
}

/// Additions never alter or remove an earlier entry: after any further
/// additions, the log is one entry longer per addition and starts with the
/// earlier log, unchanged.
pub proof fn lemma_earlier_entries_kept(
    log: Seq<Message>,
    users: Seq<soroban_sdk::Address>,
    contents: Seq<soroban_sdk::String>,
)
    requires
        users.len() == contents.len(),
    ensures
        replay(log, users, contents).len() == log.len() + users.len(),
        replay(log, users, contents).subrange(0, log.len() as int) == log,
        forall|i: int|
            0 <= i < log.len() ==> #[trigger] replay(log, users, contents)[i] == log[i],
{
    lemma_replay_extends(log, users, contents);
    assert(replay(log, users, contents).subrange(0, log.len() as int) =~= log);
}

/// Whatever the host answers to each call, a run of calls never alters or
/// removes an entry that was there before it: every earlier log is a prefix
/// of every later one.
pub proof fn lemma_calls_keep_earlier(
    log: Seq<Message>,
    users: Seq<soroban_sdk::Address>,
    contents: Seq<soroban_sdk::String>,
    authorized: Seq<bool>,
)
    ensures
        log.len() <= run_calls(log, users, contents, authorized).len(),
        run_calls(log, users, contents, authorized).subrange(0, log.len() as int) == log,
    decreases users.len(),
{
    if users.len() == 0 || contents.len() == 0 || authorized.len() == 0 {
        assert(log.subrange(0, log.len() as int) =~= log);
    } else {
        let before = run_calls(log, users.drop_last(), contents.drop_last(), authorized.drop_last());
        lemma_calls_keep_earlier(log, users.drop_last(), contents.drop_last(), authorized.drop_last());
        let after = after_call(before, users.last(), contents.last(), authorized.last());
        assert(after.subrange(0, log.len() as int) =~= before.subrange(0, log.len() as int));
    }
}

/// A run of calls none of which the host authorized leaves the log as it was.
pub proof fn lemma_unauthorized_calls_change_nothing(
    log: Seq<Message>,
    users: Seq<soroban_sdk::Address>,
    contents: Seq<soroban_sdk::String>,
    authorized: Seq<bool>,
)
    requires
        forall|i: int| 0 <= i < authorized.len() ==> !#[trigger] authorized[i],
    ensures
        run_calls(log, users, contents, authorized) == log,
    decreases users.len(),
{
    if users.len() == 0 || contents.len() == 0 || authorized.len() == 0 {
    } else {
        let a = authorized.drop_last();
        assert forall|i: int| 0 <= i < a.len() implies !#[trigger] a[i] by {
            assert(a[i] == authorized[i]);
        }
        lemma_unauthorized_calls_change_nothing(log, users.drop_last(), contents.drop_last(), a);
    }
}

} // verus!
