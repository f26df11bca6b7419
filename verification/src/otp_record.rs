//! What checking a code does to the two keys that the store holds for it.

use crate::otp::{
    attempts_key, decoded, encoded, key_prefix, otp_key, store_command, verify_call, OtpPurpose,
    OtpVerifyResult,
};
use crate::text::same_text;
use vstd::prelude::*;

verus! {

/// The key of a code and the key of its failed attempts, as the store holds them.
#[derive(Debug, PartialEq, Eq)]
pub struct OtpRecord {
    pub code: Option<String>,
    /// The whole milliseconds that the code has left, zero in its last one; -1 for a code that
    /// stays, -2 for one that is not there.
    pub code_ttl: i64,
    /// The failed attempts; zero where none are recorded.
    pub attempts: u64,
    /// The milliseconds after which the count goes; `None` where it stays or is not there.
    pub attempts_ttl: Option<i64>,
}

/// What an [`OtpRecord`] holds.
pub struct OtpState {
    pub code: Option<Seq<char>>,
    pub code_ttl: int,
    pub attempts: nat,
    pub attempts_ttl: Option<int>,
}

impl View for OtpRecord {
    type V = OtpState;

    open spec fn view(&self) -> OtpState {
        OtpState {
            code: match self.code {
                Some(code) => Some(code@),
                None => None,
            },
            code_ttl: self.code_ttl as int,
            attempts: self.attempts as nat,
            attempts_ttl: match self.attempts_ttl {
                Some(ttl) => Some(ttl as int),
                None => None,
            },
        }
    }
}

/// Up to here the numbers of the store's scripts are exact.
pub const MAX_EXACT: u64 = 9_007_199_254_740_992;

/// Neither a code nor a count.
pub open spec fn empty_state() -> OtpState {
    OtpState { code: None, code_ttl: -2, attempts: 0, attempts_ttl: None }
}

/// The state after a code is stored. A count of failed attempts stays as it is.
pub open spec fn stored(s: OtpState, code: Seq<char>, ttl: int) -> OtpState {
    OtpState { code: Some(code), code_ttl: ttl, ..s }
}

/// For how many milliseconds the count of a code lives that has `code_ttl` left: as long as the
/// code, and to the end of the next millisecond where the last one of the code is running. The
/// count of a code that stays, stays.
pub open spec fn inherited_ttl(code_ttl: int) -> Option<int> {
    if code_ttl > 0 {
        Some(code_ttl)
    } else if code_ttl == 0 {
        Some(1)
    } else {
        None
    }
}

/// The state with one more failed attempt. The first one gives the count the time that the code
/// has left; later ones change no time.
pub open spec fn failed_once_more(s: OtpState) -> OtpState {
    OtpState {
        attempts: s.attempts + 1,
        attempts_ttl: if s.attempts > 0 { s.attempts_ttl } else { inherited_ttl(s.code_ttl) },
        ..s
    }
}

/// What a check of a submitted code returns.
pub open spec fn verify_result(s: OtpState, submitted: Seq<char>, max: u64) -> OtpVerifyResult {
    if s.code is None {
        OtpVerifyResult::NotFound
    } else if s.code == Some(submitted) {
        OtpVerifyResult::Matched
    } else if s.attempts + 1 >= max {
        OtpVerifyResult::Exceeded
    } else {
        OtpVerifyResult::Invalid { remaining: (max - (s.attempts + 1)) as u64 }
    }
}

/// What a check of a submitted code leaves behind.
pub open spec fn state_after(s: OtpState, submitted: Seq<char>, max: u64) -> OtpState {
    match verify_result(s, submitted, max) {
        OtpVerifyResult::NotFound => s,
        OtpVerifyResult::Matched => empty_state(),
        OtpVerifyResult::Exceeded => empty_state(),
        OtpVerifyResult::Invalid { remaining } => failed_once_more(s),
    }
}

impl OtpRecord {
    fn clear(&mut self)
        ensures
            final(self)@ == empty_state(),
    {
        self.code = None;
        self.code_ttl = -2;
        self.attempts = 0;
        self.attempts_ttl = None;
    }

    /// Does to the two keys what the verification script does, and returns its reply.
    pub fn verify(&mut self, submitted: &str, max_attempts: u64) -> (reply: Vec<i64>)
        requires
            old(self).attempts < MAX_EXACT,
            max_attempts <= MAX_EXACT,
        ensures
            final(self)@ == state_after(old(self)@, submitted@, max_attempts),
            reply@ == encoded(verify_result(old(self)@, submitted@, max_attempts)),
    {
        let matches = match &self.code {
            None => {
                return vec![-1i64, 0];
            },
            Some(code) => same_text(code.as_str(), submitted),
        };
        if matches {
            self.clear();
            return vec![1i64, 0];
        }
        let attempts: u64 = self.attempts + 1;
        self.attempts = attempts;
        if attempts == 1 {
            self.attempts_ttl = if self.code_ttl > 0 {
                Some(self.code_ttl)
            } else if self.code_ttl == 0 {
                Some(1)
            } else {
                None
            };
        }
        if attempts >= max_attempts {
            self.clear();
            return vec![-2i64, 0];
        }
        let remaining: i64 = (max_attempts - attempts) as i64;
        vec![0i64, remaining]
    }
}

/// A result survives the way through the script's reply.
pub proof fn reply_reads_back(result: OtpVerifyResult)
    requires
        result is Invalid ==> result->remaining <= i64::MAX,
    ensures
        decoded(encoded(result)) == result,
{
}

/// A code that was just stored is accepted, however many attempts failed before.
pub proof fn stored_code_is_accepted(s: OtpState, code: Seq<char>, ttl: int, max: u64)
    ensures
        verify_result(stored(s, code, ttl), code, max) == OtpVerifyResult::Matched,
{
}

/// Only the stored code is accepted.
pub proof fn only_the_stored_code_is_accepted(s: OtpState, submitted: Seq<char>, max: u64)
    ensures
        verify_result(s, submitted, max) == OtpVerifyResult::Matched <==> s.code == Some(submitted),
{
}

/// A code works once, and is gone with its count when it was used or the limit was reached: until
/// another one is stored every check finds none and changes nothing.
pub proof fn spent_code_is_gone(
    s: OtpState,
    submitted: Seq<char>,
    max: u64,
    later: Seq<char>,
    later_max: u64,
)
    requires
        verify_result(s, submitted, max) is Matched || verify_result(s, submitted, max) is Exceeded,
    ensures
        state_after(s, submitted, max) == empty_state(),
        verify_result(state_after(s, submitted, max), later, later_max)
            == OtpVerifyResult::NotFound,
        state_after(state_after(s, submitted, max), later, later_max) == state_after(
            s,
            submitted,
            max,
        ),
{
}

/// The count of failed attempts starts with the time that the code has left, whatever that is:
/// the count of a code that expires expires too, not before the code and at most a millisecond
/// after it, and with any time left at exactly the same one.
pub proof fn first_failure_inherits_the_ttl(s: OtpState, submitted: Seq<char>, max: u64)
    requires
        verify_result(s, submitted, max) is Invalid,
        s.attempts == 0,
        s.code_ttl >= 0,
    ensures
        ({
            let after = state_after(s, submitted, max);
            &&& after.code_ttl == s.code_ttl
            &&& after.attempts == 1
            &&& after.attempts_ttl is Some
            &&& s.code_ttl <= after.attempts_ttl->0 <= s.code_ttl + 1
            &&& s.code_ttl > 0 ==> after.attempts_ttl == Some(s.code_ttl)
        }),
{
}

/// A later failed attempt changes neither the time of the code nor that of the count.
pub proof fn later_failures_keep_the_ttls(s: OtpState, submitted: Seq<char>, max: u64)
    requires
        verify_result(s, submitted, max) is Invalid,
        s.attempts > 0,
    ensures
        state_after(s, submitted, max).code_ttl == s.code_ttl,
        state_after(s, submitted, max).attempts_ttl == s.attempts_ttl,
{
}

/// The state after a row of submitted codes.
pub open spec fn state_after_all(s: OtpState, guesses: Seq<Seq<char>>, max: u64) -> OtpState
    decreases guesses.len(),
{
    if guesses.len() == 0 {
        s
    } else {
        state_after(state_after_all(s, guesses.drop_last(), max), guesses.last(), max)
    }
}

/// What the check of the guess after `earlier` ones returns.
pub open spec fn result_after_all(
    s: OtpState,
    earlier: Seq<Seq<char>>,
    guess: Seq<char>,
    max: u64,
) -> OtpVerifyResult {
    verify_result(state_after_all(s, earlier, max), guess, max)
}

proof fn wrong_guesses_add_up(s: OtpState, earlier: Seq<Seq<char>>, max: u64)
    requires
        s.code is Some,
        forall|i: int| 0 <= i < earlier.len() ==> s.code != Some(#[trigger] earlier[i]),
    ensures
        earlier.len() == 0 || s.attempts + earlier.len() < max ==> {
            &&& state_after_all(s, earlier, max).code == s.code
            &&& state_after_all(s, earlier, max).attempts == s.attempts + earlier.len()
        },
        earlier.len() > 0 && s.attempts + earlier.len() >= max ==> state_after_all(s, earlier, max)
            == empty_state(),
    decreases earlier.len(),
{
    if earlier.len() > 0 {
        wrong_guesses_add_up(s, earlier.drop_last(), max);
        assert(s.code != Some(earlier.last()));
    }
}

/// Guessing is bounded: after a row of wrong codes the next wrong one is told how many attempts
/// remain; the one that reaches the limit removes the code; and from then on there is none to
/// guess. A code with no failed attempts stands `max` wrong guesses, or one where `max` is zero.
pub proof fn guessing_is_bounded(
    s: OtpState,
    earlier: Seq<Seq<char>>,
    guess: Seq<char>,
    max: u64,
)
    requires
        s.code is Some,
        s.attempts == 0,
        forall|i: int| 0 <= i < earlier.len() ==> s.code != Some(#[trigger] earlier[i]),
        s.code != Some(guess),
    ensures
        earlier.len() + 1 < max ==> result_after_all(s, earlier, guess, max)
            == (OtpVerifyResult::Invalid { remaining: (max - earlier.len() - 1) as u64 }),
        earlier.len() + 1 == max || (earlier.len() == 0 && max == 0) ==> result_after_all(
            s,
            earlier,
            guess,
            max,
        ) == OtpVerifyResult::Exceeded,
        earlier.len() > 0 && earlier.len() >= max ==> result_after_all(s, earlier, guess, max)
            == OtpVerifyResult::NotFound,
{
    wrong_guesses_add_up(s, earlier, max);
}

/// Once so many wrong codes came that the limit is reached, the right one is refused as well.
pub proof fn too_late_for_the_right_code(s: OtpState, earlier: Seq<Seq<char>>, max: u64)
    requires
        s.code is Some,
        earlier.len() > 0,
        s.attempts + earlier.len() >= max,
        forall|i: int| 0 <= i < earlier.len() ==> s.code != Some(#[trigger] earlier[i]),
    ensures
        result_after_all(s, earlier, s.code->0, max) == OtpVerifyResult::NotFound,
{
    wrong_guesses_add_up(s, earlier, max);
}

/// Storing another code does not give back the attempts that were used up.
pub proof fn new_code_keeps_the_count(s: OtpState, code: Seq<char>, ttl: int)
    ensures
        stored(s, code, ttl).attempts == s.attempts,
        stored(s, code, ttl).attempts_ttl == s.attempts_ttl,
{
}

proof fn prefixes_differ(a: OtpPurpose, b: OtpPurpose)
    requires
        a != b,
    ensures
        exists|i: int|
            0 <= i < key_prefix(a).len() && i < key_prefix(b).len() && #[trigger] key_prefix(a)[i]
                != key_prefix(b)[i],
{
    reveal_strlit("otp:register:");
    reveal_strlit("otp:login:");
    reveal_strlit("otp:recover:");
    reveal_strlit("otp:2fa:setup:");
    reveal_strlit("otp:2fa:login:");
    let i: int = if (a == OtpPurpose::Register || a == OtpPurpose::Recover) && (b
        == OtpPurpose::Register || b == OtpPurpose::Recover) {
        6
    } else if (a == OtpPurpose::TwoFaSetup || a == OtpPurpose::TwoFaLogin) && (b
        == OtpPurpose::TwoFaSetup || b == OtpPurpose::TwoFaLogin) {
        8
    } else {
        4
    };
    assert(key_prefix(a)[i] != key_prefix(b)[i]);
}

/// Codes never meet: keys are the same only for the same purpose and the same phone or user.
pub proof fn otp_keys_are_distinct(
    a: OtpPurpose,
    a_subject: Seq<char>,
    b: OtpPurpose,
    b_subject: Seq<char>,
)
    requires
        otp_key(a, a_subject) == otp_key(b, b_subject),
    ensures
        a == b,
        a_subject == b_subject,
{
    if a != b {
        prefixes_differ(a, b);
        let i = choose|i: int|
            0 <= i < key_prefix(a).len() && i < key_prefix(b).len() && #[trigger] key_prefix(a)[i]
                != key_prefix(b)[i];
        assert(otp_key(a, a_subject)[i] == key_prefix(a)[i]);
        assert(otp_key(b, b_subject)[i] == key_prefix(b)[i]);
    } else {
        let n = key_prefix(a).len() as int;
        assert(otp_key(a, a_subject).skip(n) =~= a_subject);
        assert(otp_key(b, b_subject).skip(n) =~= b_subject);
    }
}

/// A code is checked where it was stored: the first key of the check is the one that the code was
/// stored under, and the first argument is compared with what was stored there.
pub proof fn codes_are_checked_where_they_were_stored(
    purpose: OtpPurpose,
    subject: Seq<char>,
    code: Seq<char>,
    ttl: u64,
    submitted: Seq<char>,
    max_attempts: u64,
)
    ensures
        ({
            let command = store_command(purpose, subject, code, ttl);
            let call = verify_call(otp_key(purpose, subject), submitted, max_attempts);
            &&& command is SetEx
            &&& call.keys[0] == command->SetEx_key
            &&& command->value == code
            &&& call.args[0] == submitted
            &&& call.keys[1] == attempts_key(otp_key(purpose, subject))
        }),
{
}

/// Whether a text ends with what marks the key of a count.
pub open spec fn ends_like_a_count(s: Seq<char>) -> bool {
    ":attempts"@.is_suffix_of(s)
}

/// Each code has a count of its own, and no count is mistaken for a code: the key of a count is
/// that of no other count, and not that of a code for a phone or user that does not itself end
/// with `:attempts`.
pub proof fn counts_are_kept_apart(
    a: OtpPurpose,
    a_subject: Seq<char>,
    b: OtpPurpose,
    b_subject: Seq<char>,
)
    ensures
        attempts_key(otp_key(a, a_subject)) == attempts_key(otp_key(b, b_subject)) ==> a == b
            && a_subject == b_subject,
        !ends_like_a_count(b_subject) ==> attempts_key(otp_key(a, a_subject)) != otp_key(
            b,
            b_subject,
        ),
{
    reveal_strlit(":attempts");
    let mark = ":attempts"@;
    let a_key = otp_key(a, a_subject);
    let b_key = otp_key(b, b_subject);
    if attempts_key(a_key) == attempts_key(b_key) {
        assert(attempts_key(a_key).take(attempts_key(a_key).len() - 9) =~= a_key);
        assert(attempts_key(b_key).take(attempts_key(b_key).len() - 9) =~= b_key);
        otp_keys_are_distinct(a, a_subject, b, b_subject);
    }
    if attempts_key(a_key) == b_key && !ends_like_a_count(b_subject) {
        let n = key_prefix(b).len() as int;
        let total = b_key.len() as int;
        reveal_strlit("otp:register:");
        reveal_strlit("otp:login:");
        reveal_strlit("otp:recover:");
        reveal_strlit("otp:2fa:setup:");
        reveal_strlit("otp:2fa:login:");
        assert(attempts_key(a_key).skip(total - 9) =~= mark);
        if b_subject.len() >= 9 {
            assert(b_subject.skip(b_subject.len() - 9) =~= b_key.skip(total - 9));
            assert(false);
        }
        assert(b_key[n - 1] == ':');
        assert(mark[n - 1 - (total - 9)] == b_key.skip(total - 9)[n - 1 - (total - 9)]);
        assert(a_key.len() == n - 1);
        if a != b {
            prefixes_differ(a, b);
            let i = choose|i: int|
                0 <= i < key_prefix(a).len() && i < key_prefix(b).len() && #[trigger] key_prefix(
                    a,
                )[i] != key_prefix(b)[i];
            assert(attempts_key(a_key)[i] == key_prefix(a)[i]);
            assert(b_key[i] == key_prefix(b)[i]);
        }
    }
}

/// Every check ends in one of four ways: there is no code; the code is right; the code is wrong and
/// attempts remain, as many as the limit has left after this one and all before it; or the code is
/// wrong and the limit is reached.
pub proof fn attempts_add_up_to_the_limit(s: OtpState, submitted: Seq<char>, max: u64)
    ensures
        ({
            let result = verify_result(s, submitted, max);
            let wrong = s.code is Some && s.code->0 != submitted;
            &&& result is NotFound <==> s.code is None
            &&& result is Matched <==> s.code is Some && s.code->0 == submitted
            &&& result is Exceeded <==> wrong && s.attempts + 1 >= max
            &&& result is Invalid <==> wrong && s.attempts + 1 < max
            &&& result is Invalid ==> s.attempts + 1 + result->remaining == max
        }),
{
}

/// A failed attempt that leaves others counts one and keeps the code; a check that finds no code
/// changes nothing; any other leaves neither code nor count.
pub proof fn checks_leave_what_they_should(s: OtpState, submitted: Seq<char>, max: u64)
    ensures
        ({
            let result = verify_result(s, submitted, max);
            let after = state_after(s, submitted, max);
            &&& result is Invalid ==> after.code == s.code && after.code_ttl == s.code_ttl
                && after.attempts == s.attempts + 1
            &&& result is Invalid && s.attempts == 0 && s.code_ttl < 0 ==> after.attempts_ttl is None
            &&& result is NotFound ==> after == s
            &&& result is Matched || result is Exceeded ==> after.code is None && after.attempts == 0
                && after.attempts_ttl is None
        }),
{
}

/// A code that is stored is there, whole and with its time.
pub proof fn stored_codes_are_there(s: OtpState, code: Seq<char>, ttl: int)
    ensures
        stored(s, code, ttl).code == Some(code),
        stored(s, code, ttl).code_ttl == ttl,
{
}

/// What a record holds is what its fields say.
pub proof fn records_hold_what_their_fields_say(r: OtpRecord)
    ensures
        r.code is Some ==> r@.code == Some(r.code->0@),
        r.code is None ==> r@.code is None,
        r@.code_ttl == r.code_ttl,
        r@.attempts == r.attempts,
        r.attempts_ttl is Some ==> r@.attempts_ttl == Some(r.attempts_ttl->0 as int),
        r.attempts_ttl is None ==> r@.attempts_ttl is None,
{
}

} // verus!
