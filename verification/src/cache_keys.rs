//! The keys under which the cache holds sessions, pending sign-ups and the
//! queue.

use vstd::prelude::*;

verus! {

/// What a cache entry is about.
#[allow(non_camel_case_types)]
#[derive(Debug, Clone, Copy, PartialEq, Eq)]
pub enum AppCacheKey<'a> {
    /// The session with the given id.
    SESSION(&'a str),
    /// The pending sign-up for the given e-mail address.
    SIGN_UP_OTP(&'a str),
    /// The queue.
    PLAYLIST(),
}

/// The key of a session.
pub open spec fn session_key(session_id: Seq<char>) -> Seq<char> {
    "AUTH_SESSION_"@ + session_id
}

/// The key of a pending sign-up.
pub open spec fn sign_up_key(email: Seq<char>) -> Seq<char> {
    "SIGN_UP_OTP_"@ + email
}

impl<'a> AppCacheKey<'a> {
    /// The key as text.
    pub open spec fn text(self) -> Seq<char> {
        match self {
            AppCacheKey::SESSION(session_id) => session_key(session_id@),
            AppCacheKey::SIGN_UP_OTP(email) => sign_up_key(email@),
            AppCacheKey::PLAYLIST() => "PLAYLIST"@,
        }
    }

    /// The key as text.
    pub fn build_key(&self) -> (key: String)
        ensures
            key@ == self.text(),
    {
        match self {
            AppCacheKey::SESSION(session_id) => {
                let mut key = "AUTH_SESSION_".to_owned();
                key.append(session_id);
                key
            },
            AppCacheKey::SIGN_UP_OTP(email) => {
                let mut key = "SIGN_UP_OTP_".to_owned();
                key.append(email);
                key
            },
            AppCacheKey::PLAYLIST() => "PLAYLIST".to_owned(),
        }
    }
}

/// The key of a session that owns its id.
#[allow(non_camel_case_types)]
#[derive(Debug, PartialEq, Eq)]
pub enum CacheKey {
    SESSION(String),
}

impl CacheKey {
    /// The key as text.
    pub open spec fn text(self) -> Seq<char> {
        match self {
            CacheKey::SESSION(session_id) => session_key(session_id@),
        }
    }

    /// The key as text.
    pub fn build_key(&self) -> (key: String)
        ensures
            key@ == self.text(),
    {
        match self {
            CacheKey::SESSION(session_id) => {
                let mut key = "AUTH_SESSION_".to_owned();
                key.append(session_id.as_str());
                key
            },
        }
    }
}

/// A session and a pending sign-up never share a key, and neither shares
/// one with the queue.
pub proof fn lemma_keys_apart(session_id: Seq<char>, email: Seq<char>)
    ensures
        session_key(session_id) != sign_up_key(email),
        session_key(session_id) != "PLAYLIST"@,
        sign_up_key(email) != "PLAYLIST"@,
{
    reveal_strlit("AUTH_SESSION_");
    reveal_strlit("SIGN_UP_OTP_");
    reveal_strlit("PLAYLIST");
    assert(session_key(session_id)[0] == 'A');
    assert(sign_up_key(email)[0] == 'S');
    assert("PLAYLIST"@[0] == 'P');
}

} // verus!
