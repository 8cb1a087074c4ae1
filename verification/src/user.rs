//! The identity under which files are owned and commands are run.

use crate::text::{CharClass, chars_of, lemma_span, scan};
use vstd::prelude::*;

verus! {

/// An account of the operating system: a user id and a group id.
#[derive(Clone, Copy, Debug, PartialEq, Eq, Structural)]
pub struct User {
    uid: u32,
    gid: u32,
}

/// What a search of the user database for one name came to.
#[derive(Clone, Copy, Debug)]
pub struct Lookup {
    /// The status the search returned: zero where it ran without an error.
    pub status: i32,
    /// Whether the search handed back the entry it was given to fill.
    pub found: bool,
    /// The user id in that entry.
    pub uid: u32,
    /// The id of the primary group in that entry.
    pub gid: u32,
}

impl Lookup {
    /// The account that the search found: one only where it ran without an
    /// error and handed back an entry.
    pub open spec fn account(self) -> Option<User> {
        if self.status == 0 && self.found {
            Some(User::spec_new(self.uid, self.gid))
        } else {
            None
        }
    }
}

impl User {
    /// The account with these ids.
    pub closed spec fn spec_new(uid: u32, gid: u32) -> User {
        User { uid, gid }
    }

    /// The user id of the account.
    pub closed spec fn spec_uid(&self) -> u32 {
        self.uid
    }

    /// The group id of the account.
    pub closed spec fn spec_gid(&self) -> u32 {
        self.gid
    }

    /// An account is its two ids, and nothing else.
    pub proof fn lemma_ids(self)
        ensures
            self == User::spec_new(self.spec_uid(), self.spec_gid()),
    {
    }

    /// The ids of a made account are those it was made with.
    pub proof fn lemma_new(uid: u32, gid: u32)
        ensures
            User::spec_new(uid, gid).spec_uid() == uid,
            User::spec_new(uid, gid).spec_gid() == gid,
    {
    }

    /// The account with these ids.
    #[verifier::when_used_as_spec(spec_new)]
    pub fn new(uid: u32, gid: u32) -> (made: Self)
        ensures
            made == User::spec_new(uid, gid),
            made.spec_uid() == uid,
            made.spec_gid() == gid,
    {
        Self { uid, gid }
    }

    /// The account found by a search of the user database.
    pub fn from_lookup(answer: Lookup) -> (user: Option<Self>)
        ensures
            user == answer.account(),
    {
        if answer.status != 0 || !answer.found {
            return None;
        }
        Some(User::new(answer.uid, answer.gid))
    }

    /// The account to act as, for the name that was configured. Without a
    /// name there is none, and `lookup` is not called. A name that holds a
    /// NUL cannot be searched for: there is none either. Any other name is
    /// handed to `lookup`, which searches the user database for it, and the
    /// account is the one the search found, if any: a search that fails is
    /// no error.
    pub fn as_user<F: FnOnce(String) -> Lookup>(name: Option<String>, lookup: F) -> (user: Option<
        Self,
    >)
        requires
            name matches Some(username) ==> call_requires(lookup, (username,)),
        ensures
            match name {
                None => user is None,
                Some(username) => if username@.contains('\0') {
                    user is None
                } else {
                    exists|answer: Lookup|
                        call_ensures(lookup, (username,), answer) && user == answer.account()
                },
            },
    {
        match name {
            Some(username) => {
                let chars = chars_of(username.as_str());
                let end = scan(&chars, 0, chars.len(), CharClass::Is('\0'), false);
                proof {
                    assert(chars@.subrange(0, chars@.len() as int) =~= chars@);
                    lemma_span(chars@, CharClass::Is('\0'), false);
                }
                if end < chars.len() {
                    assert(chars@[end as int] == '\0');
                    return None;
                }
                let answer = lookup(username);
                User::from_lookup(answer)
            },
            None => None,
        }
    }

    /// The user id of the account.
    #[verifier::when_used_as_spec(spec_uid)]
    pub fn uid(&self) -> (uid: u32)
        ensures
            uid == self.spec_uid(),
    {
        self.uid
    }

    /// The group id of the account.
    #[verifier::when_used_as_spec(spec_gid)]
    pub fn gid(&self) -> (gid: u32)
        ensures
            gid == self.spec_gid(),
    {
        self.gid
    }
}

}
