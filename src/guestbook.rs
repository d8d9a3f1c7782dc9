//! The guestbook's log: an append-only sequence of messages, with the rules
//! for adding to it and reading it back.

use vstd::prelude::*;

use crate::host::{
    address_items, content_count, new_contents, new_users, push_content, push_user, string_items,
    try_content_at, try_user_at, user_count, HostContents, HostUsers,
};
use crate::message::Message;

verus! {

/// The largest number of entries that the log holds: the host counts the
/// items of its vectors with a `u32`.
pub const MAX_MESSAGES: u32 = 0xffff_ffff;

/// Why a call on the guestbook failed.
#[derive(Debug, Clone, Copy, PartialEq, Eq, Structural)]
pub enum GuestbookError {
    /// The host did not confirm that the claimed author authorized the call.
    Unauthorized,
    /// What the log's storage slot holds is not a log: the authors and the
    /// texts differ in number, or an item is not of its vector's type.
    MalformedLog,
}

/// The log with one more entry at its end: `content`, written by `user`.
pub open spec fn appended(
    log: Seq<Message>,
    user: soroban_sdk::Address,
    content: soroban_sdk::String,
) -> Seq<Message> {
    log.push(Message { user, content })
}

/// The entries that the pairs `(users[i], contents[i])` make, in order.
pub open spec fn entries_of(
    users: Seq<soroban_sdk::Address>,
    contents: Seq<soroban_sdk::String>,
) -> Seq<Message> {
    Seq::new(users.len(), |i: int| Message { user: users[i], content: contents[i] })
}

/// The log after `(users[0], contents[0])`, `(users[1], contents[1])`, ... have
/// been added to `log`, one after the other.
pub open spec fn replay(
    log: Seq<Message>,
    users: Seq<soroban_sdk::Address>,
    contents: Seq<soroban_sdk::String>,
) -> Seq<Message>
    decreases users.len(),
{
    if users.len() == 0 || contents.len() == 0 {
        log
    } else {
        appended(replay(log, users.drop_last(), contents.drop_last()), users.last(), contents.last())
    }
}

/// The log after one call that adds `content` for `user`: one entry longer
/// when the call was authorized, unchanged when it was not.
pub open spec fn after_call(
    log: Seq<Message>,
    user: soroban_sdk::Address,
    content: soroban_sdk::String,
    authorized: bool,
) -> Seq<Message> {
    if authorized {
        appended(log, user, content)
    } else {
        log
    }
}

/// The log after a run of calls, call `i` adding `contents[i]` for
/// `users[i]` with the host's answer `authorized[i]`, one after the other.
pub open spec fn run_calls(
    log: Seq<Message>,
    users: Seq<soroban_sdk::Address>,
    contents: Seq<soroban_sdk::String>,
    authorized: Seq<bool>,
) -> Seq<Message>
    decreases users.len(),
{
    if users.len() == 0 || contents.len() == 0 || authorized.len() == 0 {
        log
    } else {
        after_call(
            run_calls(log, users.drop_last(), contents.drop_last(), authorized.drop_last()),
            users.last(),
            contents.last(),
            authorized.last(),
        )
    }
}

/// Whether every item of a stored vector is of the vector's element type.
pub open spec fn all_read<T>(items: Seq<Option<T>>) -> bool {
    forall|i: int| 0 <= i < items.len() ==> #[trigger] items[i] is Some
}

/// Whether the stored authors and texts make a log: as many of each, and
/// every item of the right type.
pub open spec fn is_log(
    users: Seq<Option<soroban_sdk::Address>>,
    contents: Seq<Option<soroban_sdk::String>>,
) -> bool {
    users.len() == contents.len() && all_read(users) && all_read(contents)
}

/// The entries that stored authors and texts stand for: entry `i` pairs the
/// author at `i` with the text at `i`.
pub open spec fn log_of(
    users: Seq<Option<soroban_sdk::Address>>,
    contents: Seq<Option<soroban_sdk::String>>,
) -> Seq<Message> {
    Seq::new(users.len(), |i: int| Message { user: users[i]->Some_0, content: contents[i]->Some_0 })
}

/// The guestbook: one log of messages, in the order in which they were added,
/// held in two host vectors, one of authors and one of texts.
pub struct GuestbookContract {
    users: HostUsers,
    contents: HostContents,
}

impl View for GuestbookContract {
    type V = Seq<Message>;

    closed spec fn view(&self) -> Seq<Message> {
        log_of(address_items(self.users), string_items(self.contents))
    }
}

impl GuestbookContract {
    /// The two host vectors hold one log.
    pub closed spec fn wf(&self) -> bool {
        is_log(address_items(self.users), string_items(self.contents))
    }

    /// A guestbook whose log is empty.
    pub fn new(env: &soroban_sdk::Env) -> (r: GuestbookContract)
        ensures
            r.wf(),
            r@ == Seq::<Message>::empty(),
    {
        let users = new_users(env);
        let contents = new_contents(env);
        let r = GuestbookContract { users, contents };
        assert(r@ =~= Seq::<Message>::empty());
        r
    }

    /// The guestbook as the host last stored it: `stored` is what the log's
    /// storage slot holds, and a slot that was never written stands for an
    /// empty log. Stored vectors that do not make a log are refused.
    pub fn restore(
        env: &soroban_sdk::Env,
        stored: Option<(HostUsers, HostContents)>,
    ) -> (r: Result<GuestbookContract, GuestbookError>)
        ensures
            stored is None ==> (r matches Ok(g) && g.wf() && g@ == Seq::<Message>::empty()),
            stored matches Some((u, c)) ==> (r is Ok <==> is_log(address_items(u), string_items(c))),
            stored matches Some((u, c)) ==> (r matches Ok(g) ==> g.wf()
                && g@ == log_of(address_items(u), string_items(c))),
            r is Err ==> r == Err::<GuestbookContract, GuestbookError>(GuestbookError::MalformedLog),
    {
        match stored {
            None => Ok(GuestbookContract::new(env)),
            Some((users, contents)) => GuestbookContract::check_stored(users, contents),
        }
    }

    /// The guestbook that stored authors and texts make, if they make one.
    fn check_stored(users: HostUsers, contents: HostContents) -> (r: Result<
        GuestbookContract,
        GuestbookError,
    >)
        ensures
            r is Ok <==> is_log(address_items(users), string_items(contents)),
            r matches Ok(g) ==> g.wf() && g@ == log_of(address_items(users), string_items(contents)),
            r is Err ==> r == Err::<GuestbookContract, GuestbookError>(GuestbookError::MalformedLog),
    {
        let n = user_count(&users);
        if n != content_count(&contents) {
            return Err(GuestbookError::MalformedLog);
        }
        let mut i: u32 = 0;
        while i < n
            invariant
                n as int == address_items(users).len(),
                n as int == string_items(contents).len(),
                i <= n,
                forall|j: int| 0 <= j < i ==> #[trigger] address_items(users)[j] is Some,
                forall|j: int| 0 <= j < i ==> #[trigger] string_items(contents)[j] is Some,
            decreases n - i,
        {
            if try_user_at(&users, i).is_err() {
                assert(address_items(users)[i as int] is None);
                return Err(GuestbookError::MalformedLog);
            }
            if try_content_at(&contents, i).is_err() {
                assert(string_items(contents)[i as int] is None);
                return Err(GuestbookError::MalformedLog);
            }
            i = i + 1;
        }
        Ok(GuestbookContract { users, contents })
    }

    /// The log in the form in which the host stores it.
    pub fn stored(&self) -> (r: (&HostUsers, &HostContents))
        requires
            self.wf(),
        ensures
            is_log(address_items(*r.0), string_items(*r.1)),
            log_of(address_items(*r.0), string_items(*r.1)) == self@,
    {
        (&self.users, &self.contents)
    }

    /// Adds `message`, written by `user`, at the end of the log. `authorized`
    /// is the host's answer to whether `user` authorized this call: without
    /// it the log stays as it was and the call fails.
    pub fn add_message(
        &mut self,
        user: soroban_sdk::Address,
        message: soroban_sdk::String,
        authorized: bool,
    ) -> (r: Result<(), GuestbookError>)
        requires
            old(self).wf(),
            authorized ==> old(self)@.len() < MAX_MESSAGES,
        ensures
            final(self).wf(),
            final(self)@ == after_call(old(self)@, user, message, authorized),
            authorized ==> r is Ok && final(self)@ == appended(old(self)@, user, message),
            !authorized ==> r == Err::<(), GuestbookError>(GuestbookError::Unauthorized)
                && final(self)@ == old(self)@,
    {
        if !authorized {
            return Err(GuestbookError::Unauthorized);
        }
        let ghost before = self@;
        push_user(&mut self.users, user);
        push_content(&mut self.contents, message);
        assert(self@ =~= appended(before, user, message));
        Ok(())
    }

    /// Every entry of the log, oldest first.
    pub fn get_messages(&self) -> (r: Vec<Message>)
        requires
            self.wf(),
        ensures
            r@ == self@,
    {
        let n = user_count(&self.users);
        let mut out: Vec<Message> = Vec::new();
        let mut i: u32 = 0;
        while i < n
            invariant
                self.wf(),
                n as int == address_items(self.users).len(),
                i <= n,
                out@ =~= self@.subrange(0, i as int),
            decreases n - i,
        {
            let user = try_user_at(&self.users, i);
            let content = try_content_at(&self.contents, i);
            if let (Ok(Some(user)), Ok(Some(content))) = (user, content) {
                out.push(Message { user, content });
            }
            i = i + 1;
        }
        out
    }

    /// The number of entries in the log.
    pub fn get_total_messages(&self) -> (r: u32)
        requires
            self.wf(),
        ensures
            r as int == self@.len(),
    {
        user_count(&self.users)
    }
}

} // verus!
