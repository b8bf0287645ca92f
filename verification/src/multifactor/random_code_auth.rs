//! A second factor that sends a short-lived random code to the user.

use crate::clock::Timestamp;
use crate::multifactor::CheckCodeError;
use crate::multifactor::Factor;
use crate::multifactor::GenerateCodeCause;
use crate::multifactor::GenerateCodeError;
use crate::session::code_from_json;
use crate::session::code_to_json;
use crate::session::is_wiped;
use crate::session::load_code;
use crate::session::purge;
use crate::session::same_state;
use crate::session::session_entries;
use crate::session::session_purged;
use crate::session::store_code;
use actix_session::Session;
use actix_session::SessionGetError;
use actix_session::SessionInsertError;
use vstd::prelude::*;

verus! {

/// The one key under which a session holds its pending code.
pub const MFA_RANDOM_CODE_KEY: &'static str = "mfa_random_code";

/// A code together with the instant from which on it no longer counts.
#[derive(Debug)]
pub struct RandomCode {
    value: String,
    valid_until: Timestamp,
}

/// A [`RandomCode`] as contracts see it.
pub struct RandomCodeView {
    pub value: Seq<char>,
    pub valid_until: Timestamp,
}

impl View for RandomCode {
    type V = RandomCodeView;

    closed spec fn view(&self) -> RandomCodeView {
        RandomCodeView { value: self.value@, valid_until: self.valid_until }
    }
}

impl Clone for RandomCode {
    fn clone(&self) -> (code: Self)
        ensures
            code@ == self@,
    {
        Self { value: self.value.clone(), valid_until: self.valid_until }
    }
}

impl RandomCode {
    /// The code `value`, which counts until the instant `valid_until` is reached.
    pub fn new(value: &str, valid_until: Timestamp) -> (code: Self)
        ensures
            code@.value == value@,
            code@.valid_until == valid_until,
    {
        Self { value: value.to_owned(), valid_until }
    }

    /// What the user has to respond with.
    pub fn value(&self) -> (value: &str)
        ensures
            value@ == self@.value,
    {
        self.value.as_str()
    }

    /// The first instant at which the code no longer counts.
    pub fn valid_until(&self) -> (valid_until: &Timestamp)
        ensures
            *valid_until == self@.valid_until,
    {
        &self.valid_until
    }
}

/// What a session holds under [`MFA_RANDOM_CODE_KEY`].
pub enum Pending {
    /// Nothing.
    Absent,
    /// An entry that cannot be read as a code.
    Unreadable,
    /// A code.
    Stored(RandomCodeView),
}

/// The challenge that is pending in a session.
pub open spec fn pending_code(session: Session) -> Pending {
    let entries = session_entries(session);
    if !entries.contains_key(MFA_RANDOM_CODE_KEY@) {
        Pending::Absent
    } else {
        match code_from_json(entries[MFA_RANDOM_CODE_KEY@]) {
            Some((value, secs, nanos)) => Pending::Stored(
                RandomCodeView { value, valid_until: Timestamp { secs, nanos } },
            ),
            None => Pending::Unreadable,
        }
    }
}

/// How a response fares against a pending challenge.
#[derive(Clone, Copy, Debug, PartialEq, Eq, Structural)]
pub enum Verdict {
    /// The response is the pending code, and the code has not expired.
    Accepted,
    /// The code has not expired, and the response is something else.
    Mismatch,
    /// The code has expired, whatever the response.
    Expired,
    /// The session's entry is no code.
    Unreadable,
    /// The session has no entry.
    Missing,
}

/// The verdict on the response `candidate`, given at the instant `now`.
pub open spec fn verdict(pending: Pending, candidate: Seq<char>, now: Timestamp) -> Verdict {
    match pending {
        Pending::Absent => Verdict::Missing,
        Pending::Unreadable => Verdict::Unreadable,
        Pending::Stored(code) => if now.instant() >= code.valid_until.instant() {
            Verdict::Expired
        } else if candidate != code.value {
            Verdict::Mismatch
        } else {
            Verdict::Accepted
        },
    }
}

/// The result by which a verdict is reported.
pub open spec fn reports(res: Result<(), CheckCodeError>, verdict: Verdict) -> bool {
    match verdict {
        Verdict::Accepted => res is Ok,
        Verdict::Mismatch => res == Err::<(), CheckCodeError>(CheckCodeError::InvalidCode),
        Verdict::Expired => res matches Err(CheckCodeError::TimeIsUp(message)) && message@
            == "Code is no longer valid"@,
        Verdict::Unreadable => res matches Err(CheckCodeError::UnknownError(message)) && message@
            == "Could not load random code from session"@,
        Verdict::Missing => res matches Err(CheckCodeError::UnknownError(message)) && message@
            == "No random code in session"@,
    }
}

/// Whether a verdict lets the session stand as it is. Every other verdict wipes it.
pub open spec fn keeps_session(verdict: Verdict) -> bool {
    verdict is Accepted || verdict is Mismatch
}

/// What becomes of the response `candidate` at the instant `now`: the
/// result reports the verdict on the challenge that was pending, and the session
/// is left untouched or wiped as the verdict says.
pub open spec fn check_outcome(
    before: Session,
    after: Session,
    candidate: Seq<char>,
    now: Timestamp,
    res: Result<(), CheckCodeError>,
) -> bool {
    let ruling = verdict(pending_code(before), candidate, now);
    &&& reports(res, ruling)
    &&& keeps_session(ruling) ==> after == before
    &&& !keeps_session(ruling) ==> is_wiped(after)
}

/// Wipes the session and makes the error for a challenge that cannot be read.
fn cleanup_and_unknown_code_error(session: &mut Session, msg: &str) -> (e: CheckCodeError)
    ensures
        is_wiped(*final(session)),
        e matches CheckCodeError::UnknownError(message) && message@ == msg@,
{
    purge(session);
    CheckCodeError::UnknownError(msg.to_owned())
}

/// Wipes the session and makes the error for a challenge that has expired.
fn cleanup_and_time_is_up_error(session: &mut Session) -> (e: CheckCodeError)
    ensures
        is_wiped(*final(session)),
        e matches CheckCodeError::TimeIsUp(message) && message@ == "Code is no longer valid"@,
{
    purge(session);
    CheckCodeError::TimeIsUp("Code is no longer valid".to_owned())
}

/// What a session is found to hold, by what loading its entry returned: nothing
/// where there was no entry, an unreadable entry where loading failed, and else
/// the code that was loaded.
pub open spec fn pending_of(loaded: Result<Option<(String, u64, u32)>, SessionGetError>) -> Pending {
    match loaded {
        Err(_) => Pending::Unreadable,
        Ok(None) => Pending::Absent,
        Ok(Some(found)) => Pending::Stored(
            RandomCodeView {
                value: found.0@,
                valid_until: Timestamp { secs: found.1, nanos: found.2 },
            },
        ),
    }
}

/// The verdict on the response `candidate`, given at the instant `now`, on what
/// loading the session's entry returned.
///
/// A code that has expired is expired whatever the response; before its expiry
/// it is answered by its exact value and by nothing else.
pub fn judge(
    loaded: &Result<Option<(String, u64, u32)>, SessionGetError>,
    candidate: &str,
    now: Timestamp,
) -> (ruling: Verdict)
    ensures
        ruling == verdict(pending_of(*loaded), candidate@, now),
{
    match loaded {
        Err(_) => Verdict::Unreadable,
        Ok(None) => Verdict::Missing,
        Ok(Some(found)) => {
            let valid_until = Timestamp::new(found.1, found.2);
            if now.has_reached(&valid_until) {
                Verdict::Expired
            } else if candidate.to_owned() != found.0 {
                Verdict::Mismatch
            } else {
                Verdict::Accepted
            }
        },
    }
}

/// Turns a verdict into the result that reports it, and wipes the session unless
/// the verdict lets it stand.
pub fn conclude(ruling: Verdict, session: &mut Session) -> (res: Result<(), CheckCodeError>)
    ensures
        reports(res, ruling),
        keeps_session(ruling) ==> *final(session) == *old(session),
        !keeps_session(ruling) ==> is_wiped(*final(session)),
{
    match ruling {
        Verdict::Accepted => Ok(()),
        Verdict::Mismatch => Err(CheckCodeError::InvalidCode),
        Verdict::Expired => Err(cleanup_and_time_is_up_error(session)),
        Verdict::Unreadable => Err(
            cleanup_and_unknown_code_error(session, "Could not load random code from session"),
        ),
        Verdict::Missing => Err(cleanup_and_unknown_code_error(session, "No random code in session")),
    }
}

/// Checks the response `code` against the session's pending challenge, at the
/// instant `now`.
///
/// A session without a readable code is wiped, and the response fails with
/// `UnknownError`. A code that has expired is wiped with the session, and the
/// response fails with `TimeIsUp`. A response that differs from the code fails with
/// `InvalidCode` and leaves the session as it is. A response that equals the code
/// succeeds; the code stays in the session for the caller to clear.
pub fn check_code_at(code: &str, session: &mut Session, now: Timestamp) -> (res: Result<
    (),
    CheckCodeError,
>)
    ensures
        check_outcome(*old(session), *final(session), code@, now, res),
{
    let loaded = load_code(session, MFA_RANDOM_CODE_KEY);
    let ruling = judge(&loaded, code, now);
    conclude(ruling, session)
}

/// Delivers a code to the user it is meant for.
pub trait CodeSender {
    /// What a delivery can fail with.
    type Error;

    /// Hands `random_code` over for delivery.
    fn send_code(&self, random_code: RandomCode) -> Result<(), Self::Error>;
}

/// The random-code factor: it takes each new code from `code_generator`, keeps it
/// in the session and has `code_sender` deliver it.
pub struct MfaRandomCode<G: Fn() -> RandomCode, T: CodeSender> {
    code_generator: G,
    code_sender: T,
}

/// Wipes the session and makes the error for a challenge that was not issued.
fn cleanup_and_unknown_error<E>(session: &mut Session, msg: &str, cause: GenerateCodeCause<E>) -> (e:
    GenerateCodeError<E>)
    ensures
        is_wiped(*final(session)),
        e.message@ == msg@,
        e.cause == cause,
{
    purge(session);
    GenerateCodeError::new_with_cause(msg, cause)
}

/// What a session holds once `code` has been written into it: the code's text
/// under [`MFA_RANDOM_CODE_KEY`], in place of any code that was pending, and
/// every other entry as before. A session that is flagged for deletion stays as
/// it is.
pub open spec fn holds_new_code(before: Session, after: Session, code: RandomCodeView) -> bool {
    let text = code_to_json(code.value, code.valid_until.secs, code.valid_until.nanos);
    if session_purged(before) {
        same_state(after, before)
    } else {
        &&& text is Some
        &&& !session_purged(after)
        &&& session_entries(after) == session_entries(before).insert(
            MFA_RANDOM_CODE_KEY@,
            text.unwrap(),
        )
    }
}

/// Whether `res` reports that the session did not take the code.
pub open spec fn storage_failed<E>(res: Result<(), GenerateCodeError<E>>) -> bool {
    match res {
        Ok(_) => false,
        Err(e) => e.cause is Session && e.message@ == "Could not insert mfa code into session"@,
    }
}

/// Whether `res` reports that the sender did not deliver the code.
pub open spec fn delivery_failed<E>(res: Result<(), GenerateCodeError<E>>) -> bool {
    match res {
        Ok(_) => false,
        Err(e) => e.cause is Sender && e.message@ == "Could not send code to user"@,
    }
}

/// What the sender made of `code`, and how the result of issuing it goes by that:
/// `sent` is what `send_code` returned for this very code, the result is `Ok`
/// exactly if `sent` is, and a failure of the sender is the cause that the result
/// hands on.
pub open spec fn delivery_decides<T: CodeSender>(
    sender: T,
    code: RandomCode,
    sent: Result<(), T::Error>,
    res: Result<(), GenerateCodeError<T::Error>>,
) -> bool {
    &&& call_ensures(T::send_code, (&sender, code), sent)
    &&& sent is Ok <==> res is Ok
    &&& sent matches Err(cause) ==> res matches Err(e) && e.cause == GenerateCodeCause::Sender(
        cause,
    )
}

/// What issuing `code` through `sender` comes to.
///
/// The session fails to take the code exactly where it is not flagged for
/// deletion and the code has no text; the result then says so. In every other
/// case the result goes by what the sender returned when it was handed this
/// code: on its success the result is `Ok` and the session holds the code, on
/// its failure the result hands on the sender's error. After any failure the
/// session is wiped.
pub open spec fn issue_outcome<T: CodeSender>(
    sender: T,
    before: Session,
    after: Session,
    code: RandomCode,
    res: Result<(), GenerateCodeError<T::Error>>,
) -> bool {
    &&& res is Ok ==> holds_new_code(before, after, code@)
    &&& res is Err ==> is_wiped(after)
    &&& res is Err ==> storage_failed(res) || delivery_failed(res)
    &&& storage_failed(res) <==> !session_purged(before) && code_to_json(
        code@.value,
        code@.valid_until.secs,
        code@.valid_until.nanos,
    ) is None
    &&& !storage_failed(res) ==> exists|sent: Result<(), T::Error>| #[trigger]
        delivery_decides(sender, code, sent, res)
}

/// Goes on with the issuing of a challenge after the session was asked to take the
/// code: where it did not, the session is wiped and the failure handed on.
pub fn settle_storage<E>(stored: Result<(), SessionInsertError>, session: &mut Session) -> (res:
    Result<(), GenerateCodeError<E>>)
    ensures
        stored is Ok ==> res is Ok && *final(session) == *old(session),
        stored is Err ==> is_wiped(*final(session)) && storage_failed(res),
        stored matches Err(cause) ==> res matches Err(e) && e.cause == GenerateCodeCause::<
            E,
        >::Session(cause),
{
    match stored {
        Ok(()) => Ok(()),
        Err(cause) => Err(
            cleanup_and_unknown_error(
                session,
                "Could not insert mfa code into session",
                GenerateCodeCause::Session(cause),
            ),
        ),
    }
}

/// Concludes the issuing of a challenge with what the sender reported: on a
/// failed delivery the session is wiped and the failure handed on.
pub fn settle_delivery<E>(sent: Result<(), E>, session: &mut Session) -> (res: Result<
    (),
    GenerateCodeError<E>,
>)
    ensures
        sent is Ok ==> res is Ok && *final(session) == *old(session),
        sent is Err ==> is_wiped(*final(session)) && delivery_failed(res),
        sent matches Err(cause) ==> res matches Err(e) && e.cause == GenerateCodeCause::Sender(cause),
{
    match sent {
        Ok(()) => Ok(()),
        Err(cause) => Err(
            cleanup_and_unknown_error(
                session,
                "Could not send code to user",
                GenerateCodeCause::Sender(cause),
            ),
        ),
    }
}

impl<G: Fn() -> RandomCode, T: CodeSender> MfaRandomCode<G, T> {
    #[verifier::type_invariant]
    spec fn generator_is_callable(self) -> bool {
        call_requires(self.code_generator, ())
    }

    /// Where the factor takes its codes from.
    pub closed spec fn generator(&self) -> G {
        self.code_generator
    }

    /// Who delivers the factor's codes.
    pub closed spec fn sender(&self) -> T {
        self.code_sender
    }

    /// The factor over a generator that can be called as it stands.
    pub fn new(code_generator: G, code_sender: T) -> (factor: Self)
        requires
            call_requires(code_generator, ()),
        ensures
            factor.generator() == code_generator,
            factor.sender() == code_sender,
    {
        Self { code_generator, code_sender }
    }

    /// Writes `code` into the session as its pending challenge and then has the
    /// sender deliver this same code. Where the session does not take the code,
    /// the sender is not asked. Where the session does not take the code, or the
    /// sender does not deliver it, the session is wiped and the failure returned.
    /// Else the result is `Ok`: what the sender returns decides, as
    /// [`settle_delivery`] says.
    pub fn issue(&self, code: RandomCode, session: &mut Session) -> (res: Result<
        (),
        GenerateCodeError<T::Error>,
    >)
        ensures
            res is Ok ==> holds_new_code(*old(session), *final(session), code@),
            res is Err ==> is_wiped(*final(session)),
            res is Err ==> storage_failed(res) || delivery_failed(res),
            storage_failed(res) <==> !session_purged(*old(session)) && code_to_json(
                code@.value,
                code@.valid_until.secs,
                code@.valid_until.nanos,
            ) is None,
            !storage_failed(res) ==> exists|sent: Result<(), T::Error>| #[trigger]
                delivery_decides(self.sender(), code, sent, res),
            issue_outcome(self.sender(), *old(session), *final(session), code, res),
    {
        let stored = store_code(
            session,
            MFA_RANDOM_CODE_KEY,
            code.value(),
            code.valid_until.secs,
            code.valid_until.nanos,
        );
        match settle_storage(stored, session) {
            Err(failure) => Err(failure),
            Ok(()) => {
                let sent = self.code_sender.send_code(code);
                let res = settle_delivery(sent, session);
                assert(delivery_decides(self.sender(), code, sent, res));
                res
            },
        }
    }
}

impl<G: Fn() -> RandomCode, T: CodeSender> Factor for MfaRandomCode<G, T> {
    type SendError = T::Error;

    /// Takes one new code from the generator and issues it: that code is written
    /// into the session and then handed to the sender, as [`issue_outcome`] says.
    /// On success the session holds that code; on failure it is wiped.
    fn generate_code(&self, session: &mut Session) -> (res: Result<
        (),
        GenerateCodeError<T::Error>,
    >)
        ensures
            exists|code: RandomCode|
                call_ensures(self.generator(), (), code) && #[trigger] issue_outcome(
                    self.sender(),
                    *old(session),
                    *final(session),
                    code,
                    res,
                ),
            res is Err ==> is_wiped(*final(session)),
            res is Err ==> storage_failed(res) || delivery_failed(res),
    {
        proof {
            use_type_invariant(self);
        }
        let random_code = (self.code_generator)();
        self.issue(random_code, session)
    }

    /// The name of the random-code factor.
    fn get_unique_id(&self) -> (id: String)
        ensures
            id@ == "RNDCODE"@,
    {
        "RNDCODE".to_owned()
    }

    /// Checks `code` against the pending challenge at the time that the system
    /// clock shows.
    fn check_code(&self, code: &str, session: &mut Session) -> (res: Result<(), CheckCodeError>)
        ensures
            exists|now: Timestamp| check_outcome(*old(session), *final(session), code@, now, res),
    {
        let now = Timestamp::now();
        check_code_at(code, session, now)
    }
}

/// Before its expiry a pending code is answered by its exact value, and by nothing
/// else: the value succeeds, and any other response fails with `InvalidCode`.
/// Either way the code stays in the session as it was, so a failed response can be
/// followed by another.
pub proof fn lemma_unexpired_code_is_compared(
    before: Session,
    after: Session,
    candidate: Seq<char>,
    now: Timestamp,
    res: Result<(), CheckCodeError>,
    code: RandomCodeView,
)
    requires
        check_outcome(before, after, candidate, now, res),
        pending_code(before) == Pending::Stored(code),
        now.instant() < code.valid_until.instant(),
    ensures
        candidate == code.value <==> res is Ok,
        candidate != code.value <==> res == Err::<(), CheckCodeError>(CheckCodeError::InvalidCode),
        after == before,
        pending_code(after) == Pending::Stored(code),
{
}

/// From its expiry on a pending code is answered by nothing, not even by its own
/// value: every response fails with `TimeIsUp`, and the session holds no code
/// after.
pub proof fn lemma_expired_code_is_refused(
    before: Session,
    after: Session,
    candidate: Seq<char>,
    now: Timestamp,
    res: Result<(), CheckCodeError>,
    code: RandomCodeView,
)
    requires
        check_outcome(before, after, candidate, now, res),
        pending_code(before) == Pending::Stored(code),
        now.instant() >= code.valid_until.instant(),
    ensures
        res matches Err(CheckCodeError::TimeIsUp(_)),
        pending_code(after) is Absent,
        is_wiped(after),
{
}

/// Expiry is final: a code that has expired at one instant has expired at every
/// later one, and a code that is still good at one instant was good at every
/// earlier one.
pub proof fn lemma_expiry_is_final(
    code: RandomCodeView,
    candidate: Seq<char>,
    response: Seq<char>,
    earlier: Timestamp,
    later: Timestamp,
)
    requires
        earlier.instant() <= later.instant(),
    ensures
        verdict(Pending::Stored(code), candidate, earlier) is Expired ==> verdict(
            Pending::Stored(code),
            response,
            later,
        ) is Expired,
        !(verdict(Pending::Stored(code), response, later) is Expired) ==> !(verdict(
            Pending::Stored(code),
            candidate,
            earlier,
        ) is Expired),
{
}

/// In a session that holds no code, because none was issued or because the one
/// that was has been cleared since, every response fails with `UnknownError`, at
/// any time, and the session holds no code after.
pub proof fn lemma_missing_code_is_refused(
    before: Session,
    after: Session,
    candidate: Seq<char>,
    now: Timestamp,
    res: Result<(), CheckCodeError>,
)
    requires
        check_outcome(before, after, candidate, now, res),
        !session_entries(before).contains_key(MFA_RANDOM_CODE_KEY@),
    ensures
        res matches Err(CheckCodeError::UnknownError(_)),
        pending_code(after) is Absent,
        is_wiped(after),
{
}

/// No response leaves a session with a code unless it was accepted or found
/// merely mismatched: after any other result the session is wiped.
pub proof fn lemma_refusal_clears_session(
    before: Session,
    after: Session,
    candidate: Seq<char>,
    now: Timestamp,
    res: Result<(), CheckCodeError>,
)
    requires
        check_outcome(before, after, candidate, now, res),
    ensures
        res is Ok || res == Err::<(), CheckCodeError>(CheckCodeError::InvalidCode) ==> after == before,
        !(res is Ok || res == Err::<(), CheckCodeError>(CheckCodeError::InvalidCode)) ==> is_wiped(
            after,
        ) && pending_code(after) is Absent,
{
}

/// A code that the session takes and the sender delivers is issued: where the
/// session did not fail to take the code, and the sender can only succeed on this
/// code, the result is `Ok` and the session holds the code.
pub proof fn lemma_delivered_code_is_issued<T: CodeSender>(
    sender: T,
    before: Session,
    after: Session,
    code: RandomCode,
    res: Result<(), GenerateCodeError<T::Error>>,
)
    requires
        issue_outcome(sender, before, after, code, res),
        !storage_failed(res),
        forall|sent: Result<(), T::Error>|
            call_ensures(T::send_code, (&sender, code), sent) ==> sent is Ok,
    ensures
        res is Ok,
        holds_new_code(before, after, code@),
{
    let sent = choose|sent: Result<(), T::Error>| #[trigger]
        delivery_decides(sender, code, sent, res);
    assert(delivery_decides(sender, code, sent, res));
}

/// A code that the sender does not deliver is not issued: where the sender can
/// only fail on this code, the result is an error, the sender's own unless the
/// session had not taken the code, and the session is wiped, so that no code is
/// pending in it.
pub proof fn lemma_undelivered_code_is_withdrawn<T: CodeSender>(
    sender: T,
    before: Session,
    after: Session,
    code: RandomCode,
    res: Result<(), GenerateCodeError<T::Error>>,
)
    requires
        issue_outcome(sender, before, after, code, res),
        forall|sent: Result<(), T::Error>|
            call_ensures(T::send_code, (&sender, code), sent) ==> sent is Err,
    ensures
        res is Err,
        storage_failed(res) || delivery_failed(res),
        is_wiped(after),
        pending_code(after) is Absent,
{
    if !storage_failed(res) {
        let sent = choose|sent: Result<(), T::Error>| #[trigger]
            delivery_decides(sender, code, sent, res);
        assert(delivery_decides(sender, code, sent, res));
    }
}

/// Issuing succeeds exactly where the session took the code, or was flagged for
/// deletion and took nothing, and the sender then returned `Ok` for this code.
pub proof fn lemma_issued_means_stored_and_sent<T: CodeSender>(
    sender: T,
    before: Session,
    after: Session,
    code: RandomCode,
    res: Result<(), GenerateCodeError<T::Error>>,
)
    requires
        issue_outcome(sender, before, after, code, res),
    ensures
        res is Ok <==> !storage_failed(res) && exists|sent: Result<(), T::Error>|
            call_ensures(T::send_code, (&sender, code), sent) && sent is Ok && #[trigger]
            delivery_decides(sender, code, sent, res),
        res is Ok ==> holds_new_code(before, after, code@),
        res is Err <==> is_wiped(after) && (storage_failed(res) || delivery_failed(res)),
{
    if !storage_failed(res) {
        let sent = choose|sent: Result<(), T::Error>| #[trigger]
            delivery_decides(sender, code, sent, res);
        assert(delivery_decides(sender, code, sent, res));
    }
}

/// What is pending after a code has been issued does not depend on what was
/// pending before: the new code's text stands alone under the key, whatever code
/// the session held.
pub proof fn lemma_pending_code_forgets_the_old(
    before: Session,
    after: Session,
    other_before: Session,
    other_after: Session,
    code: RandomCodeView,
)
    requires
        holds_new_code(before, after, code),
        holds_new_code(other_before, other_after, code),
        !session_purged(before),
        !session_purged(other_before),
    ensures
        pending_code(after) == pending_code(other_after),
        !(pending_code(after) is Absent),
{
}

/// A newly issued code takes the place of the one that was pending: the session
/// has one entry for its challenge, and all its other entries are as before.
pub proof fn lemma_new_code_replaces_pending(before: Session, after: Session, code: RandomCodeView, key: Seq<char>)
    requires
        holds_new_code(before, after, code),
        !session_purged(before),
    ensures
        session_entries(after).contains_key(MFA_RANDOM_CODE_KEY@),
        session_entries(after)[MFA_RANDOM_CODE_KEY@] == code_to_json(
            code.value,
            code.valid_until.secs,
            code.valid_until.nanos,
        ).unwrap(),
        key != MFA_RANDOM_CODE_KEY@ ==> session_entries(after).contains_key(key)
            == session_entries(before).contains_key(key),
        key != MFA_RANDOM_CODE_KEY@ && session_entries(before).contains_key(key)
            ==> session_entries(after)[key] == session_entries(before)[key],
{
}

} // verus!
