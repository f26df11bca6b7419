//! One-time codes: making them, storing them and checking what a user submits.

use crate::rate_limit;
use crate::rate_limit::RateCheck;
use crate::store::{ScriptCall, ScriptCallView, StoreCommand, StoreCommandView};
use crate::text::{join2, u64_text, zero_padded_text};
use vstd::arithmetic::power::pow;
use vstd::prelude::*;

verus! {

/// Result of a verification attempt.
///
/// - [`OtpVerifyResult::Matched`]: the code was correct and has been consumed.
/// - [`OtpVerifyResult::Invalid`]: the code was wrong; so many attempts remain.
/// - [`OtpVerifyResult::Exceeded`]: the attempt limit is reached and the code invalidated.
/// - [`OtpVerifyResult::NotFound`]: there is no code: expired, or never issued.
#[derive(Debug, PartialEq, Eq, Structural)]
pub enum OtpVerifyResult {
    Matched,
    Invalid { remaining: u64 },
    Exceeded,
    NotFound,
}

/// What a code is for.
#[derive(Clone, Copy, Debug, PartialEq, Eq, Structural)]
pub enum OtpPurpose {
    Register,
    Login,
    Recover,
    TwoFaSetup,
    TwoFaLogin,
}

/// How many wrong codes a user may submit before the code is gone.
pub const MAX_ATTEMPTS: u64 = 3;

/// Compares the submitted code with the stored one, and counts failed attempts, in one piece.
///
/// `KEYS[1]` holds the code, `KEYS[2]` the count of failed attempts; `ARGV[1]` is the submitted
/// code, `ARGV[2]` the attempt limit. The reply is a pair of status and remaining attempts:
/// `{1, 0}` for a match, `{0, n}` for a wrong code, `{-1, 0}` where there is no code and
/// `{-2, 0}` where the limit is reached.
///
/// The first failed attempt gives the count the milliseconds that the code has left, so that both
/// go together. A code in its last millisecond, which has none left, gives it one: an expiry of
/// zero would take the count away before the code.
pub const VERIFY_SCRIPT: &'static str = r#"
            local stored = redis.call('GET', KEYS[1])
            if not stored then
                return {-1, 0}
            end

            if stored == ARGV[1] then
                redis.call('DEL', KEYS[1])
                redis.call('DEL', KEYS[2])
                return {1, 0}
            end

            local attempts = redis.call('INCR', KEYS[2])
            if attempts == 1 then
                local ttl = redis.call('PTTL', KEYS[1])
                if ttl >= 0 then
                    redis.call('PEXPIRE', KEYS[2], math.max(ttl, 1))
                end
            end

            local max = tonumber(ARGV[2])
            if attempts >= max then
                redis.call('DEL', KEYS[1])
                redis.call('DEL', KEYS[2])
                return {-2, 0}
            end

            return {0, max - attempts}
        "#;

/// What stands before the phone number or user of a code in its key.
pub open spec fn key_prefix(purpose: OtpPurpose) -> Seq<char> {
    match purpose {
        OtpPurpose::Register => "otp:register:"@,
        OtpPurpose::Login => "otp:login:"@,
        OtpPurpose::Recover => "otp:recover:"@,
        OtpPurpose::TwoFaSetup => "otp:2fa:setup:"@,
        OtpPurpose::TwoFaLogin => "otp:2fa:login:"@,
    }
}

/// The key of a code.
pub open spec fn otp_key(purpose: OtpPurpose, subject: Seq<char>) -> Seq<char> {
    key_prefix(purpose) + subject
}

/// The command that stores a code.
pub open spec fn store_command(
    purpose: OtpPurpose,
    subject: Seq<char>,
    code: Seq<char>,
    ttl: u64,
) -> StoreCommandView {
    StoreCommandView::SetEx { key: otp_key(purpose, subject), value: code, seconds: ttl }
}

/// The key of the count of failed attempts that belongs to the key of a code.
pub open spec fn attempts_key(key: Seq<char>) -> Seq<char> {
    key + ":attempts"@
}

/// The script call that checks a code.
pub open spec fn verify_call(
    key: Seq<char>,
    submitted: Seq<char>,
    max_attempts: u64,
) -> ScriptCallView {
    ScriptCallView {
        script: VERIFY_SCRIPT@,
        keys: seq![key, attempts_key(key)],
        args: seq![submitted, crate::text::decimal(max_attempts as nat)],
    }
}

/// The six digit code that a random number gives.
pub open spec fn otp_code(random: u32) -> Seq<char> {
    crate::text::zero_padded((random % 1_000_000) as nat, 6)
}

/// Whether a text is six decimal digits.
pub open spec fn is_otp_code(s: Seq<char>) -> bool {
    s.len() == 6 && crate::text::all_digits(s)
}

/// Calls `rand::random::<u32>`. Any number may come out; the call does not return where the
/// machine has no source of randomness.
#[verifier::external_body]
fn random_u32() -> u32 {
    rand::random::<u32>()
}

/// Prepares what the code endpoints ask of the store.
#[derive(Clone)]
pub struct OtpService {
    otp_ttl: u64,
}

impl OtpService {
    /// For how many seconds a code lives.
    pub closed spec fn ttl(&self) -> u64 {
        self.otp_ttl
    }

    pub fn new(otp_ttl: u64) -> (service: OtpService)
        ensures
            service.ttl() == otp_ttl,
    {
        OtpService { otp_ttl }
    }

    /// The six digit code that a random number gives.
    pub fn code_from(random: u32) -> (code: String)
        ensures
            code@ == otp_code(random),
            is_otp_code(code@),
    {
        let code: u64 = (random % 1_000_000) as u64;
        proof {
            assert(pow(10, 6) == 1_000_000) by {
                reveal_with_fuel(pow, 7);
            }
            crate::text::zero_padded_shape(code as nat, 6);
        }
        zero_padded_text(code, 6)
    }

    /// A fresh random code.
    pub fn generate() -> (code: String)
        ensures
            exists|random: u32| code@ == #[trigger] otp_code(random),
            is_otp_code(code@),
    {
        let random: u32 = random_u32();
        Self::code_from(random)
    }

    fn store_otp(&self, prefix: &str, subject: &str, code: &str) -> (command: StoreCommand)
        ensures
            command@ == (StoreCommandView::SetEx {
                key: prefix@ + subject@,
                value: code@,
                seconds: self.ttl(),
            }),
    {
        StoreCommand::SetEx {
            key: join2(prefix, subject),
            value: code.to_owned(),
            seconds: self.otp_ttl,
        }
    }

    pub fn store_register_otp(&self, phone: &str, code: &str) -> (command: StoreCommand)
        ensures
            command@ == store_command(OtpPurpose::Register, phone@, code@, self.ttl()),
    {
        self.store_otp("otp:register:", phone, code)
    }

    pub fn store_login_otp(&self, phone: &str, code: &str) -> (command: StoreCommand)
        ensures
            command@ == store_command(OtpPurpose::Login, phone@, code@, self.ttl()),
    {
        self.store_otp("otp:login:", phone, code)
    }

    pub fn store_recover_otp(&self, phone: &str, code: &str) -> (command: StoreCommand)
        ensures
            command@ == store_command(OtpPurpose::Recover, phone@, code@, self.ttl()),
    {
        self.store_otp("otp:recover:", phone, code)
    }

    pub fn store_two_fa_setup_otp(&self, user_id: &str, code: &str) -> (command: StoreCommand)
        ensures
            command@ == store_command(OtpPurpose::TwoFaSetup, user_id@, code@, self.ttl()),
    {
        self.store_otp("otp:2fa:setup:", user_id, code)
    }

    pub fn store_two_fa_login_otp(&self, user_id: &str, code: &str) -> (command: StoreCommand)
        ensures
            command@ == store_command(OtpPurpose::TwoFaLogin, user_id@, code@, self.ttl()),
    {
        self.store_otp("otp:2fa:login:", user_id, code)
    }

    /// Prepares the check of a submitted code.
    ///
    /// The failed attempts are counted under the key of the code with `:attempts` behind it.
    pub fn verify_otp_with_limit(
        &self,
        otp_key: &str,
        submitted_code: &str,
        max_attempts: u64,
    ) -> (call: ScriptCall)
        ensures
            call@ == verify_call(otp_key@, submitted_code@, max_attempts),
    {
        let call = ScriptCall {
            script: VERIFY_SCRIPT.to_owned(),
            keys: vec![otp_key.to_owned(), join2(otp_key, ":attempts")],
            args: vec![submitted_code.to_owned(), u64_text(max_attempts)],
        };
        proof {
            let expected = verify_call(otp_key@, submitted_code@, max_attempts);
            assert(call@.keys =~= expected.keys);
            assert(call@.args =~= expected.args);
        }
        call
    }

    pub fn verify_register_otp(&self, phone: &str, code: &str) -> (call: ScriptCall)
        ensures
            call@ == verify_call(otp_key(OtpPurpose::Register, phone@), code@, MAX_ATTEMPTS),
    {
        let key = join2("otp:register:", phone);
        self.verify_otp_with_limit(key.as_str(), code, MAX_ATTEMPTS)
    }

    pub fn verify_login_otp(&self, phone: &str, code: &str) -> (call: ScriptCall)
        ensures
            call@ == verify_call(otp_key(OtpPurpose::Login, phone@), code@, MAX_ATTEMPTS),
    {
        let key = join2("otp:login:", phone);
        self.verify_otp_with_limit(key.as_str(), code, MAX_ATTEMPTS)
    }

    pub fn verify_recover_otp(&self, phone: &str, code: &str) -> (call: ScriptCall)
        ensures
            call@ == verify_call(otp_key(OtpPurpose::Recover, phone@), code@, MAX_ATTEMPTS),
    {
        let key = join2("otp:recover:", phone);
        self.verify_otp_with_limit(key.as_str(), code, MAX_ATTEMPTS)
    }

    pub fn verify_two_fa_setup_otp(&self, user_id: &str, code: &str) -> (call: ScriptCall)
        ensures
            call@ == verify_call(otp_key(OtpPurpose::TwoFaSetup, user_id@), code@, MAX_ATTEMPTS),
    {
        let key = join2("otp:2fa:setup:", user_id);
        self.verify_otp_with_limit(key.as_str(), code, MAX_ATTEMPTS)
    }

    pub fn verify_two_fa_login_otp(&self, user_id: &str, code: &str) -> (call: ScriptCall)
        ensures
            call@ == verify_call(otp_key(OtpPurpose::TwoFaLogin, user_id@), code@, MAX_ATTEMPTS),
    {
        let key = join2("otp:2fa:login:", user_id);
        self.verify_otp_with_limit(key.as_str(), code, MAX_ATTEMPTS)
    }

    /// Prepares the check whether one more code may be sent.
    pub fn check_rate_limit(&self, key: &str, limit: u64, window: u64) -> (check: RateCheck)
        ensures
            check.call@ == rate_limit::rate_call(key@, window),
            check.limit == limit,
    {
        rate_limit::check_rate_limit(key, limit, window)
    }
}

/// What a reply of [`VERIFY_SCRIPT`] says. A reply without a status counts as one that found no
/// code, and a remainder that is missing or negative as none.
pub open spec fn decoded(reply: Seq<i64>) -> OtpVerifyResult {
    let status: int = if reply.len() > 0 { reply[0] as int } else { -1 };
    let remaining: u64 = if reply.len() > 1 && reply[1] > 0 { reply[1] as u64 } else { 0 };
    if status == 1 {
        OtpVerifyResult::Matched
    } else if status == 0 {
        OtpVerifyResult::Invalid { remaining }
    } else if status == -2 {
        OtpVerifyResult::Exceeded
    } else {
        OtpVerifyResult::NotFound
    }
}

/// The reply of [`VERIFY_SCRIPT`] that stands for a result.
pub open spec fn encoded(result: OtpVerifyResult) -> Seq<i64> {
    match result {
        OtpVerifyResult::Matched => seq![1i64, 0],
        OtpVerifyResult::Invalid { remaining } => seq![0i64, remaining as i64],
        OtpVerifyResult::Exceeded => seq![-2i64, 0],
        OtpVerifyResult::NotFound => seq![-1i64, 0],
    }
}

impl OtpVerifyResult {
    /// Reads a reply of [`VERIFY_SCRIPT`].
    pub fn from_reply(reply: &Vec<i64>) -> (result: OtpVerifyResult)
        ensures
            result == decoded(reply@),
    {
        let status: i64 = if reply.len() > 0 {
            reply[0]
        } else {
            -1
        };
        let remaining: u64 = if reply.len() > 1 && reply[1] > 0 {
            reply[1] as u64
        } else {
            0
        };
        if status == 1 {
            OtpVerifyResult::Matched
        } else if status == 0 {
            OtpVerifyResult::Invalid { remaining }
        } else if status == -2 {
            OtpVerifyResult::Exceeded
        } else {
            OtpVerifyResult::NotFound
        }
    }
}

/// No code is left out: each row of six digits comes of some random number.
pub proof fn every_code_is_possible(code: Seq<char>) -> (random: u32)
    requires
        is_otp_code(code),
    ensures
        otp_code(random) == code,
{
    crate::text::digits_are_zero_padded(code);
    assert(pow(10, 6) == 1_000_000) by {
        reveal_with_fuel(pow, 7);
    }
    crate::text::digits_value(code) as u32
}

/// A reply of two numbers, zero and `n`, is read as a wrong code with exactly `n` attempts
/// remaining, and a wrong code with `n` attempts remaining is replied as zero and `n`.
pub proof fn remaining_attempts_are_told_as_they_are(n: i64)
    requires
        n >= 0,
    ensures
        decoded(seq![0i64, n]) == (OtpVerifyResult::Invalid { remaining: n as u64 }),
        encoded(OtpVerifyResult::Invalid { remaining: n as u64 }) == seq![0i64, n],
        encoded(OtpVerifyResult::Matched) == seq![1i64, 0i64],
        encoded(OtpVerifyResult::Exceeded) == seq![-2i64, 0i64],
        encoded(OtpVerifyResult::NotFound) == seq![-1i64, 0i64],
{
}

/// The first number of a reply alone decides what the reply is, and only the second one how many
/// attempts remain. A second number below zero, or none, stands for no attempts; a first number
/// that has no meaning, or none, for no code.
pub proof fn replies_are_read_by_their_first_two_numbers(reply: Seq<i64>, more: Seq<i64>)
    ensures
        decoded(reply) is Matched <==> reply.len() > 0 && reply[0] == 1,
        decoded(reply) is Invalid <==> reply.len() > 0 && reply[0] == 0,
        decoded(reply) is Exceeded <==> reply.len() > 0 && reply[0] == -2,
        decoded(reply) is NotFound <==> reply.len() == 0 || (reply[0] != 1 && reply[0] != 0
            && reply[0] != -2),
        decoded(reply) is Invalid && reply.len() > 1 && reply[1] >= 0 ==> decoded(reply)->remaining
            == reply[1],
        decoded(reply) is Invalid && (reply.len() == 1 || reply[1] < 0) ==> decoded(
            reply,
        )->remaining == 0,
        reply.len() >= 2 ==> decoded(reply + more) == decoded(reply),
{
    assert(reply.len() > 0 ==> (reply + more)[0] == reply[0]);
    assert(reply.len() > 1 ==> (reply + more)[1] == reply[1]);
}

/// A code is the random number's last six decimal digits: it stands for the remainder by a
/// million, and two numbers give the same code exactly if they share that remainder.
pub proof fn codes_are_the_last_six_digits(a: u32, b: u32)
    ensures
        is_otp_code(otp_code(a)),
        crate::text::digits_value(otp_code(a)) == a % 1_000_000,
        otp_code(a) == otp_code(b) <==> a % 1_000_000 == b % 1_000_000,
{
    assert(pow(10, 6) == 1_000_000) by {
        reveal_with_fuel(pow, 7);
    }
    crate::text::zero_padded_shape((a % 1_000_000) as nat, 6);
    crate::text::zero_padded_shape((b % 1_000_000) as nat, 6);
}

/// The whole phone number or user stands at the end of the key of a code, behind what is the same
/// for all codes of that purpose.
pub proof fn code_keys_end_with_their_subject(purpose: OtpPurpose, a: Seq<char>, b: Seq<char>)
    ensures
        otp_key(purpose, a).len() >= a.len(),
        otp_key(purpose, a).skip(otp_key(purpose, a).len() - a.len()) == a,
        otp_key(purpose, a + b) == otp_key(purpose, a) + b,
        otp_key(purpose, a) == otp_key(purpose, Seq::empty()) + a,
{
    let key = otp_key(purpose, a);
    assert(key.skip(key.len() - a.len()) =~= a);
    assert(otp_key(purpose, a + b) =~= key + b);
    assert(otp_key(purpose, Seq::empty()) =~= key_prefix(purpose));
}

/// A code is stored whole, for exactly the time that was set.
pub proof fn codes_are_stored_as_they_are(
    purpose: OtpPurpose,
    subject: Seq<char>,
    code: Seq<char>,
    ttl: u64,
)
    ensures
        ({
            let command = store_command(purpose, subject, code, ttl);
            &&& command is SetEx
            &&& command->SetEx_key == otp_key(purpose, Seq::empty()) + subject
            &&& command->value == code
            &&& command->seconds == ttl
        }),
{
    code_keys_end_with_their_subject(purpose, subject, Seq::empty());
}

/// A check hands on two keys, that of the code and that of the count, which is the first with
/// `:attempts` behind it; and two arguments, the submitted code as it is and the limit, in digits
/// that stand for it.
pub proof fn checks_hand_on_code_and_limit(key: Seq<char>, submitted: Seq<char>, max_attempts: u64)
    ensures
        ({
            let call = verify_call(key, submitted, max_attempts);
            &&& call.script == VERIFY_SCRIPT@
            &&& call.keys.len() == 2 && call.args.len() == 2
            &&& call.keys[0] == key
            &&& call.keys[1] == key + ":attempts"@
            &&& call.args[0] == submitted
            &&& crate::text::all_digits(call.args[1])
            &&& crate::text::digits_value(call.args[1]) == max_attempts
        }),
{
    crate::text::decimal_reads_back(max_attempts as nat);
}

/// The script, line by line: it finds no code, or compares the submitted one with it and drops
/// both keys on a match; else it counts the failure, gives the first one the time that the code
/// has left, drops both keys at the limit, and tells how many attempts remain.
pub proof fn verify_script_compares_counts_and_drops()
    ensures
        VERIFY_SCRIPT@ == "\n            local stored = redis.call('GET', KEYS[1])"@
            + "\n            if not stored then"@
            + "\n                return {-1, 0}"@
            + "\n            end"@
            + "\n\n            if stored == ARGV[1] then"@
            + "\n                redis.call('DEL', KEYS[1])"@
            + "\n                redis.call('DEL', KEYS[2])"@
            + "\n                return {1, 0}"@
            + "\n            end"@
            + "\n\n            local attempts = redis.call('INCR', KEYS[2])"@
            + "\n            if attempts == 1 then"@
            + "\n                local ttl = redis.call('PTTL', KEYS[1])"@
            + "\n                if ttl >= 0 then"@
            + "\n                    redis.call('PEXPIRE', KEYS[2], math.max(ttl, 1))"@
            + "\n                end"@
            + "\n            end"@
            + "\n\n            local max = tonumber(ARGV[2])"@
            + "\n            if attempts >= max then"@
            + "\n                redis.call('DEL', KEYS[1])"@
            + "\n                redis.call('DEL', KEYS[2])"@
            + "\n                return {-2, 0}"@
            + "\n            end"@
            + "\n\n            return {0, max - attempts}\n        "@,
{
    reveal_strlit(
        "\n            local stored = redis.call('GET', KEYS[1])\n            if not stored then\n                return {-1, 0}\n            end\n\n            if stored == ARGV[1] then\n                redis.call('DEL', KEYS[1])\n                redis.call('DEL', KEYS[2])\n                return {1, 0}\n            end\n\n            local attempts = redis.call('INCR', KEYS[2])\n            if attempts == 1 then\n                local ttl = redis.call('PTTL', KEYS[1])\n                if ttl >= 0 then\n                    redis.call('PEXPIRE', KEYS[2], math.max(ttl, 1))\n                end\n            end\n\n            local max = tonumber(ARGV[2])\n            if attempts >= max then\n                redis.call('DEL', KEYS[1])\n                redis.call('DEL', KEYS[2])\n                return {-2, 0}\n            end\n\n            return {0, max - attempts}\n        ",
    );
    reveal_strlit("\n            local stored = redis.call('GET', KEYS[1])");
    reveal_strlit("\n            if not stored then");
    reveal_strlit("\n                return {-1, 0}");
    reveal_strlit("\n            end");
    reveal_strlit("\n\n            if stored == ARGV[1] then");
    reveal_strlit("\n                redis.call('DEL', KEYS[1])");
    reveal_strlit("\n                redis.call('DEL', KEYS[2])");
    reveal_strlit("\n                return {1, 0}");
    reveal_strlit("\n\n            local attempts = redis.call('INCR', KEYS[2])");
    reveal_strlit("\n            if attempts == 1 then");
    reveal_strlit("\n                local ttl = redis.call('PTTL', KEYS[1])");
    reveal_strlit("\n                if ttl >= 0 then");
    reveal_strlit("\n                    redis.call('PEXPIRE', KEYS[2], math.max(ttl, 1))");
    reveal_strlit("\n                end");
    reveal_strlit("\n\n            local max = tonumber(ARGV[2])");
    reveal_strlit("\n            if attempts >= max then");
    reveal_strlit("\n                return {-2, 0}");
    reveal_strlit("\n\n            return {0, max - attempts}\n        ");
    assert(VERIFY_SCRIPT@ =~= "\n            local stored = redis.call('GET', KEYS[1])"@
            + "\n            if not stored then"@
            + "\n                return {-1, 0}"@
            + "\n            end"@
            + "\n\n            if stored == ARGV[1] then"@
            + "\n                redis.call('DEL', KEYS[1])"@
            + "\n                redis.call('DEL', KEYS[2])"@
            + "\n                return {1, 0}"@
            + "\n            end"@
            + "\n\n            local attempts = redis.call('INCR', KEYS[2])"@
            + "\n            if attempts == 1 then"@
            + "\n                local ttl = redis.call('PTTL', KEYS[1])"@
            + "\n                if ttl >= 0 then"@
            + "\n                    redis.call('PEXPIRE', KEYS[2], math.max(ttl, 1))"@
            + "\n                end"@
            + "\n            end"@
            + "\n\n            local max = tonumber(ARGV[2])"@
            + "\n            if attempts >= max then"@
            + "\n                redis.call('DEL', KEYS[1])"@
            + "\n                redis.call('DEL', KEYS[2])"@
            + "\n                return {-2, 0}"@
            + "\n            end"@
            + "\n\n            return {0, max - attempts}\n        "@);
}

} // verus!
