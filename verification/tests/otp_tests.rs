use messenger_core::otp::{OtpService, OtpVerifyResult, VERIFY_SCRIPT};
use messenger_core::otp_record::OtpRecord;
use messenger_core::rate_limit::{check_rate_limit, RateWindow, RATE_SCRIPT};
use messenger_core::store::StoreCommand;

fn set_ex(key: &str, value: &str, seconds: u64) -> StoreCommand {
    StoreCommand::SetEx { key: key.to_string(), value: value.to_string(), seconds }
}

#[test]
fn codes_have_six_digits() {
    assert_eq!(OtpService::code_from(0), "000000");
    assert_eq!(OtpService::code_from(42), "000042");
    assert_eq!(OtpService::code_from(999_999), "999999");
    assert_eq!(OtpService::code_from(1_000_000), "000000");
    assert_eq!(OtpService::code_from(u32::MAX), "967295");
}

#[test]
fn generated_codes_are_random_digits() {
    let codes: Vec<String> = (0..50).map(|_| OtpService::generate()).collect();
    for code in &codes {
        assert_eq!(code.len(), 6);
        assert!(code.chars().all(|c| c.is_ascii_digit()));
    }
    assert!(codes.iter().any(|c| c != &codes[0]));
}

#[test]
fn codes_are_stored_by_purpose() {
    let service = OtpService::new(300);
    assert_eq!(service.store_register_otp("+57", "1"), set_ex("otp:register:+57", "1", 300));
    assert_eq!(service.store_login_otp("+57", "2"), set_ex("otp:login:+57", "2", 300));
    assert_eq!(service.store_recover_otp("+57", "3"), set_ex("otp:recover:+57", "3", 300));
    assert_eq!(service.store_two_fa_setup_otp("u", "4"), set_ex("otp:2fa:setup:u", "4", 300));
    assert_eq!(service.store_two_fa_login_otp("u", "5"), set_ex("otp:2fa:login:u", "5", 300));
}

#[test]
fn codes_are_checked_by_purpose() {
    let service = OtpService::new(300);
    let calls = vec![
        (service.verify_register_otp("+57", "1"), "otp:register:+57"),
        (service.verify_login_otp("+57", "1"), "otp:login:+57"),
        (service.verify_recover_otp("+57", "1"), "otp:recover:+57"),
        (service.verify_two_fa_setup_otp("+57", "1"), "otp:2fa:setup:+57"),
        (service.verify_two_fa_login_otp("+57", "1"), "otp:2fa:login:+57"),
    ];
    for (call, key) in calls {
        assert_eq!(call.script, VERIFY_SCRIPT);
        assert_eq!(call.keys, vec![key.to_string(), format!("{}:attempts", key)]);
        assert_eq!(call.args, vec!["1".to_string(), "3".to_string()]);
    }
    let call = service.verify_otp_with_limit("k", "c", u64::MAX);
    assert_eq!(call.args[1], u64::MAX.to_string());
}

#[test]
fn replies_are_read() {
    let read = |reply: Vec<i64>| OtpVerifyResult::from_reply(&reply);
    assert_eq!(read(vec![1, 0]), OtpVerifyResult::Matched);
    assert_eq!(read(vec![0, 2]), OtpVerifyResult::Invalid { remaining: 2 });
    assert_eq!(read(vec![0, -2]), OtpVerifyResult::Invalid { remaining: 0 });
    assert_eq!(read(vec![0]), OtpVerifyResult::Invalid { remaining: 0 });
    assert_eq!(read(vec![-1, 0]), OtpVerifyResult::NotFound);
    assert_eq!(read(vec![-2, 0]), OtpVerifyResult::Exceeded);
    assert_eq!(read(vec![]), OtpVerifyResult::NotFound);
    assert_eq!(read(vec![17, 3]), OtpVerifyResult::NotFound);
}

fn record(code: &str, ttl: i64) -> OtpRecord {
    OtpRecord { code: Some(code.to_string()), code_ttl: ttl, attempts: 0, attempts_ttl: None }
}

fn verify(record: &mut OtpRecord, guess: &str) -> OtpVerifyResult {
    OtpVerifyResult::from_reply(&record.verify(guess, 3))
}

#[test]
fn a_code_works_once() {
    let mut r = record("123456", 300);
    assert_eq!(verify(&mut r, "123456"), OtpVerifyResult::Matched);
    assert_eq!(verify(&mut r, "123456"), OtpVerifyResult::NotFound);
}

#[test]
fn guessing_is_cut_off() {
    let mut r = record("123456", 300);
    assert_eq!(verify(&mut r, "000000"), OtpVerifyResult::Invalid { remaining: 2 });
    assert_eq!(r.attempts_ttl, Some(300));
    r.code_ttl = 200;
    assert_eq!(verify(&mut r, "000001"), OtpVerifyResult::Invalid { remaining: 1 });
    assert_eq!(r.attempts_ttl, Some(300));
    assert_eq!(verify(&mut r, "000002"), OtpVerifyResult::Exceeded);
    assert_eq!(verify(&mut r, "123456"), OtpVerifyResult::NotFound);
    assert_eq!(r.attempts, 0);
}

#[test]
fn a_code_can_be_right_at_the_last_attempt() {
    let mut r = record("123456", 300);
    verify(&mut r, "000000");
    verify(&mut r, "000001");
    assert_eq!(verify(&mut r, "123456"), OtpVerifyResult::Matched);
    assert_eq!(r.attempts, 0);
}

#[test]
fn another_code_does_not_reset_the_count() {
    let mut r = record("123456", 300);
    verify(&mut r, "000000");
    r.code = Some("654321".to_string());
    assert_eq!(verify(&mut r, "000000"), OtpVerifyResult::Invalid { remaining: 1 });
}

#[test]
fn a_limit_of_zero_or_one_ends_with_the_first_mistake() {
    for limit in [0, 1] {
        let mut r = record("1", -1);
        assert_eq!(r.verify("2", limit), vec![-2, 0]);
        assert_eq!(r.code, None);
    }
}

#[test]
fn the_count_of_a_code_that_stays_stays() {
    let mut r = record("1", -1);
    verify(&mut r, "2");
    assert_eq!(r.attempts_ttl, None);
    assert_eq!(r.attempts, 1);
}

#[test]
fn requests_are_counted_under_a_rate_key() {
    let check = check_rate_limit("msg:user", 30, 60);
    assert_eq!(check.call.script, RATE_SCRIPT);
    assert_eq!(check.call.keys, vec!["rate:msg:user".to_string()]);
    assert_eq!(check.call.args, vec!["60".to_string()]);
    assert!(check.allows(1));
    assert!(check.allows(30));
    assert!(!check.allows(31));
    let same = OtpService::new(1).check_rate_limit("msg:user", 30, 60);
    assert_eq!(same.call, check.call);
    assert_eq!(same.limit, 30);
}

#[test]
fn a_window_allows_the_limit_and_no_more() {
    let check = check_rate_limit("k", 2, 60);
    let mut window = RateWindow { count: 0, expires_in: None };
    let allowed: Vec<bool> = (0..4)
        .map(|_| {
            let count = window.hit(60);
            check.allows(count)
        })
        .collect();
    assert_eq!(allowed, vec![true, true, false, false]);
    assert_eq!(window, RateWindow { count: 4, expires_in: Some(60) });
}

#[test]
fn a_window_of_no_length_never_fills() {
    let mut window = RateWindow { count: 0, expires_in: None };
    assert_eq!(window.hit(0), 1);
    assert_eq!(window.hit(0), 1);
}

#[test]
fn a_limit_of_zero_allows_nothing() {
    assert!(!check_rate_limit("k", 0, 60).allows(1));
}

#[test]
fn codes_are_checked_under_the_key_they_were_stored_under() {
    let service = OtpService::new(60);
    let stored = match service.store_two_fa_login_otp("u", "1") {
        StoreCommand::SetEx { key, .. } => key,
        _ => panic!("a code is stored with a time to live"),
    };
    assert_eq!(service.verify_two_fa_login_otp("u", "1").keys[0], stored);
}

#[test]
fn counts_and_codes_have_keys_of_their_own() {
    let service = OtpService::new(60);
    let mut keys: Vec<String> = vec![];
    for subject in ["1", "attempts", "login"] {
        for call in vec![
            service.verify_register_otp(subject, "c"),
            service.verify_login_otp(subject, "c"),
            service.verify_recover_otp(subject, "c"),
            service.verify_two_fa_setup_otp(subject, "c"),
            service.verify_two_fa_login_otp(subject, "c"),
        ] {
            keys.extend(call.keys);
        }
    }
    let count = keys.len();
    keys.sort();
    keys.dedup();
    assert_eq!(keys.len(), count);
}

#[test]
fn a_count_goes_with_its_code() {
    for (code_ttl, attempts_ttl) in [(0, 1), (1, 1), (499, 499), (300_000, 300_000)] {
        let mut r = record("1", code_ttl);
        assert_eq!(verify(&mut r, "2"), OtpVerifyResult::Invalid { remaining: 2 });
        assert_eq!(r.attempts_ttl, Some(attempts_ttl));
        assert_eq!(r.code_ttl, code_ttl);
        r.code_ttl = 0;
        verify(&mut r, "2");
        assert_eq!(r.attempts_ttl, Some(attempts_ttl));
    }
}

#[test]
fn times_are_passed_on_in_milliseconds() {
    assert!(VERIFY_SCRIPT.contains("redis.call('PTTL', KEYS[1])"));
    assert!(VERIFY_SCRIPT.contains("redis.call('PEXPIRE', KEYS[2], math.max(ttl, 1))"));
}
