//! The session of one client, as the challenge protocol reads and writes it.
//!
//! A [`Session`] is a handle on state that the session middleware keeps for the
//! request at hand. The functions here take it by `&mut` wherever they change that
//! state, and their contracts speak of the state behind the handle before and
//! after the call. They hold as long as the handle that is passed in is the only
//! one through which the state is touched while a function of this crate runs.
//! That includes reading: a borrow of the entries that is taken through another
//! handle and still alive during such a call makes the session panic.

use actix_session::Session;
use actix_session::SessionGetError;
use actix_session::SessionInsertError;
use vstd::prelude::*;

verus! {

#[verifier::external_type_specification]
#[verifier::external_body]
pub struct ExSession(Session);

#[verifier::external_type_specification]
#[verifier::external_body]
pub struct ExSessionInsertError(SessionInsertError);

#[verifier::external_type_specification]
#[verifier::external_body]
pub struct ExSessionGetError(SessionGetError);

/// The entries of a `Session`: each key with the JSON text that is stored under
/// it.
pub uninterp spec fn session_entries(session: Session) -> Map<Seq<char>, Seq<char>>;

/// Whether a `Session` has been flagged for deletion, that is, whether its status
/// is `Purged`. A session that is flagged stays so for the rest of the request,
/// and takes no new entries.
pub uninterp spec fn session_purged(session: Session) -> bool;

/// What `serde_json::to_string` makes of a code's value and its expiry in seconds
/// and nanoseconds, given as a tuple of the three: the JSON text, or `None` where
/// it returns an error. `Session::insert` encodes its values with it.
pub uninterp spec fn code_to_json(value: Seq<char>, secs: u64, nanos: u32) -> Option<Seq<char>>;

/// What `serde_json::from_str` reads out of a JSON text when asked for a tuple of
/// a code's value and its expiry in seconds and nanoseconds: the three, or `None`
/// where it returns an error. `Session::get` decodes its entries with it.
pub uninterp spec fn code_from_json(text: Seq<char>) -> Option<(Seq<char>, u64, u32)>;

/// Two sessions with the same entries and the same flag.
pub open spec fn same_state(a: Session, b: Session) -> bool {
    &&& session_entries(a) == session_entries(b)
    &&& session_purged(a) == session_purged(b)
}

/// A session that is flagged for deletion and holds nothing.
pub open spec fn is_wiped(session: Session) -> bool {
    &&& session_purged(session)
    &&& session_entries(session) == Map::<Seq<char>, Seq<char>>::empty()
}

/// `Session::purge`: flags the session for deletion and drops every entry.
#[verifier::external_body]
pub(crate) fn purge(session: &mut Session)
    ensures
        is_wiped(*final(session)),
{
    session.purge();
}

/// `Session::insert`, given a code's value and expiry as one JSON array.
///
/// A session that is flagged for deletion takes nothing and reports success.
/// Any other session stays unflagged; it gets the encoder's text under `key`,
/// replacing what was there, or is left with its entries and reports the error
/// where the encoder declines.
#[verifier::external_body]
pub(crate) fn store_code(session: &mut Session, key: &str, value: &str, secs: u64, nanos: u32) -> (res:
    Result<(), SessionInsertError>)
    ensures
        session_purged(*old(session)) ==> res is Ok && same_state(*final(session), *old(session)),
        !session_purged(*old(session)) ==> !session_purged(*final(session)),
        !session_purged(*old(session)) && code_to_json(value@, secs, nanos) is None ==> res is Err
            && session_entries(*final(session)) == session_entries(*old(session)),
        !session_purged(*old(session)) && code_to_json(value@, secs, nanos) is Some ==> res is Ok
            && session_entries(*final(session)) == session_entries(*old(session)).insert(
            key@,
            code_to_json(value@, secs, nanos).unwrap(),
        ),
{
    session.insert(key, (value, secs, nanos))
}

/// `Session::get`, asked for a code's value and expiry as one JSON array.
///
/// Without an entry under `key` there is nothing to return. With one, the result
/// is what the decoder reads out of its text, or the error where it reads nothing.
#[verifier::external_body]
pub(crate) fn load_code(session: &Session, key: &str) -> (res: Result<
    Option<(String, u64, u32)>,
    SessionGetError,
>)
    ensures
        res matches Ok(None) ==> !session_entries(*session).contains_key(key@),
        res matches Ok(Some(found)) ==> session_entries(*session).contains_key(key@)
            && code_from_json(session_entries(*session)[key@]) == Some((found.0@, found.1, found.2)),
        res is Err ==> session_entries(*session).contains_key(key@) && code_from_json(
            session_entries(*session)[key@],
        ) is None,
{
    session.get::<(String, u64, u32)>(key)
}

} // verus!
