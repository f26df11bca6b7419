//! Limits on how often something may be done in a stretch of time.

use crate::store::{ScriptCall, ScriptCallView};
use crate::text::{join2, u64_text};
use vstd::prelude::*;

verus! {

/// Counts a request, and starts the clock of the window at the first one.
pub const RATE_SCRIPT: &'static str = r#"
        local count = redis.call('INCR', KEYS[1])
        if count == 1 then
            redis.call('EXPIRE', KEYS[1], ARGV[1])
        end
        return count
    "#;

/// A request to be counted, and how many are allowed.
pub struct RateCheck {
    pub call: ScriptCall,
    pub limit: u64,
}

/// The key under which requests are counted.
pub open spec fn rate_key(key: Seq<char>) -> Seq<char> {
    "rate:"@ + key
}

/// The script call that counts a request under `key` in a window of `window` seconds.
pub open spec fn rate_call(key: Seq<char>, window: u64) -> ScriptCallView {
    ScriptCallView {
        script: RATE_SCRIPT@,
        keys: seq![rate_key(key)],
        args: seq![crate::text::decimal(window as nat)],
    }
}

/// Prepares the check whether a request is within the allowed rate.
///
/// * `key`: what the requests are counted under, such as `msg:` and a user.
/// * `limit`: how many requests a window allows.
/// * `window`: the length of the window in seconds.
pub fn check_rate_limit(key: &str, limit: u64, window: u64) -> (check: RateCheck)
    ensures
        check.call@ == rate_call(key@, window),
        check.limit == limit,
{
    let rate_key = join2("rate:", key);
    let call = ScriptCall {
        script: RATE_SCRIPT.to_owned(),
        keys: vec![rate_key],
        args: vec![u64_text(window)],
    };
    assert(call@.keys =~= rate_call(key@, window).keys);
    assert(call@.args =~= rate_call(key@, window).args);
    RateCheck { call, limit }
}

/// Whether the request that brings the count to `count` is allowed.
pub open spec fn is_allowed(count: nat, limit: u64) -> bool {
    count <= limit
}

impl RateCheck {
    /// Whether the request that brought the count to `count` is allowed.
    pub fn allows(&self, count: u64) -> (allowed: bool)
        ensures
            allowed == is_allowed(count as nat, self.limit),
    {
        count <= self.limit
    }
}

/// What the store holds for one rate key: how often it was hit, and in how many seconds it goes.
/// A key that is not there has a count of zero.
#[derive(Clone, Copy, Debug, PartialEq, Eq, Structural)]
pub struct RateWindow {
    pub count: u64,
    pub expires_in: Option<u64>,
}

/// The longest window, in seconds, that [`RateWindow::hit`] takes. The store adds the window to
/// the time of day on a clock of 64 bit milliseconds; this is a choice, half of what that clock
/// counts, which leaves the other half for the time of day.
pub const MAX_WINDOW: u64 = 4_611_686_018_427_387;

/// A key that is not there.
pub open spec fn no_window() -> RateWindow {
    RateWindow { count: 0, expires_in: None }
}

/// What [`RATE_SCRIPT`] leaves behind. A window of no length is over at once.
pub open spec fn window_after(w: RateWindow, window: u64) -> RateWindow {
    if w.count > 0 {
        RateWindow { count: (w.count + 1) as u64, ..w }
    } else if window == 0 {
        no_window()
    } else {
        RateWindow { count: 1, expires_in: Some(window) }
    }
}

impl RateWindow {
    /// Does to one rate key what [`RATE_SCRIPT`] does, and returns the count that it replies with.
    pub fn hit(&mut self, window: u64) -> (count: u64)
        requires
            old(self).count < i64::MAX,
            window <= MAX_WINDOW,
        ensures
            *final(self) == window_after(*old(self), window),
            count == old(self).count + 1,
    {
        let count: u64 = self.count + 1;
        if count == 1 {
            if window == 0 {
                self.count = 0;
                self.expires_in = None;
                return count;
            }
            self.expires_in = Some(window);
        }
        self.count = count;
        count
    }
}

/// The window after `hits` requests, none of them so late that the key was gone.
pub open spec fn window_after_hits(hits: nat, window: u64) -> RateWindow
    decreases hits,
{
    if hits == 0 {
        no_window()
    } else {
        window_after(window_after_hits((hits - 1) as nat, window), window)
    }
}

/// Within one window the first `limit` requests are allowed and all later ones refused, and
/// only the first one starts the clock.
pub proof fn window_allows_exactly_the_limit(limit: u64, hits: nat, window: u64)
    requires
        0 < window,
        0 < hits < i64::MAX,
    ensures
        window_after_hits(hits, window).count == hits,
        window_after_hits(hits, window).expires_in == Some(window),
        is_allowed(window_after_hits(hits, window).count as nat, limit) == (hits <= limit),
    decreases hits,
{
    if hits > 1 {
        window_allows_exactly_the_limit(limit, (hits - 1) as nat, window);
    } else {
        reveal_with_fuel(window_after_hits, 2);
    }
}

/// Requests with different keys are counted apart: store keys are the same only for the same key,
/// the whole of which stands at the end of its store key, behind what is the same for all.
pub proof fn different_keys_are_counted_apart(a: Seq<char>, b: Seq<char>)
    ensures
        rate_key(a) == rate_key(b) ==> a == b,
        rate_key(a).len() >= a.len(),
        rate_key(a).skip(rate_key(a).len() - a.len()) == a,
        rate_key(a).take(rate_key(a).len() - a.len()) == "rate:"@,
        rate_key(a + b) == rate_key(a) + b,
{
    assert(rate_key(a).skip(rate_key(a).len() - a.len()) =~= a);
    assert(rate_key(a).take(rate_key(a).len() - a.len()) =~= "rate:"@);
    assert(rate_key(a + b) =~= rate_key(a) + b);
    if rate_key(a) == rate_key(b) {
        let n = "rate:"@.len() as int;
        assert(rate_key(a).skip(n) =~= a);
        assert(rate_key(b).skip(n) =~= b);
    }
}

/// A check counts under one key, which only the asked-for key decides, and hands on the window and
/// nothing else: one argument, in digits that stand for it.
pub proof fn checks_name_their_key_and_window(key: Seq<char>, window: u64, other_window: u64)
    ensures
        ({
            let call = rate_call(key, window);
            &&& call.script == RATE_SCRIPT@
            &&& call.keys.len() == 1 && call.args.len() == 1
            &&& call.keys[0].len() >= key.len()
            &&& call.keys[0].skip(call.keys[0].len() - key.len()) == key
            &&& call.keys == rate_call(key, other_window).keys
            &&& crate::text::all_digits(call.args[0])
            &&& crate::text::digits_value(call.args[0]) == window
        }),
{
    different_keys_are_counted_apart(key, key);
    crate::text::decimal_reads_back(window as nat);
}

/// Exactly the counts up to the limit are allowed, the limit itself included.
pub proof fn the_limit_is_the_last_allowed_count(limit: u64, count: nat)
    ensures
        is_allowed(limit as nat, limit),
        !is_allowed(limit as nat + 1, limit),
        is_allowed(count + 1, limit) ==> is_allowed(count, limit),
        is_allowed(count, limit) <==> count <= limit,
{
}

/// Each hit counts once. The first one starts the clock of the window, later ones leave it alone,
/// and a window of no length is over at once.
pub proof fn hits_count_once(w: RateWindow, window: u64)
    requires
        w.count < i64::MAX,
    ensures
        w.count > 0 ==> window_after(w, window).count == w.count + 1,
        w.count > 0 ==> window_after(w, window).expires_in == w.expires_in,
        w.count == 0 && window > 0 ==> window_after(w, window).count == 1,
        w.count == 0 && window > 0 ==> window_after(w, window).expires_in == Some(window),
        w.count == 0 && window == 0 ==> window_after(w, window).count == 0,
        no_window().count == 0,
{
}

/// The script, line by line: it counts the request, starts the clock of the window where this is
/// the first one, and replies with the count.
pub proof fn rate_script_counts_and_starts_the_clock()
    ensures
        RATE_SCRIPT@ == "\n        local count = redis.call('INCR', KEYS[1])"@
            + "\n        if count == 1 then"@
            + "\n            redis.call('EXPIRE', KEYS[1], ARGV[1])"@ + "\n        end"@
            + "\n        return count\n    "@,
{
    reveal_strlit(
        "\n        local count = redis.call('INCR', KEYS[1])\n        if count == 1 then\n            redis.call('EXPIRE', KEYS[1], ARGV[1])\n        end\n        return count\n    ",
    );
    reveal_strlit("\n        local count = redis.call('INCR', KEYS[1])");
    reveal_strlit("\n        if count == 1 then");
    reveal_strlit("\n            redis.call('EXPIRE', KEYS[1], ARGV[1])");
    reveal_strlit("\n        end");
    reveal_strlit("\n        return count\n    ");
    assert(RATE_SCRIPT@ =~= "\n        local count = redis.call('INCR', KEYS[1])"@
        + "\n        if count == 1 then"@ + "\n            redis.call('EXPIRE', KEYS[1], ARGV[1])"@
        + "\n        end"@ + "\n        return count\n    "@);
}

} // verus!
