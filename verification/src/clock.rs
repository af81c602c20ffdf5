//! Clock readings and the texts made from them: timestamps and log ids.

use vstd::prelude::*;

use crate::text::{decimal, is_digit, lemma_decimal_text_order, text_le, lemma_decimal_digits, lemma_decimal_injective, push_char, push_decimal, signed_decimal, signed_decimal_text};
use std::time::{Duration, SystemTime};

verus! {

#[verifier::external_type_specification]
#[verifier::external_body]
pub struct ExSystemTime(std::time::SystemTime);

/// Calls `SystemTime::now`. Trusted to return; nothing is stated of the reading, which
/// depends on the machine's clock.
#[verifier::external_body]
fn system_time_now() -> SystemTime {
    SystemTime::now()
}

/// Calls `SystemTime::duration_since` with `UNIX_EPOCH`: the time elapsed since the Unix
/// epoch, or `None` where `t` lies before it. Nothing is stated of which of the two comes
/// back, which depends on the clock reading `t`.
#[verifier::external_body]
fn since_unix_epoch(t: &SystemTime) -> Option<Duration> {
    match t.duration_since(std::time::UNIX_EPOCH) {
        Ok(d) => Some(d),
        Err(_) => None,
    }
}

/// Calls `Duration::as_millis`: the whole milliseconds in `d`. Nothing is stated of the
/// number, since a `Duration` is opaque here.
#[verifier::external_body]
fn whole_millis(d: &Duration) -> u128 {
    d.as_millis()
}

/// Calls `Duration::as_nanos`: the nanoseconds in `d`. Nothing is stated of the number,
/// since a `Duration` is opaque here.
#[verifier::external_body]
fn whole_nanos(d: &Duration) -> u128 {
    d.as_nanos()
}

/// The millisecond timestamp kept from a clock reading: the milliseconds elapsed since the
/// Unix epoch cut to `i64` as `as i64` does, or 0 for a reading before the epoch.
pub fn millis_from_elapsed(elapsed_millis: Option<u128>) -> (r: i64)
    ensures
        r == match elapsed_millis {
            Some(ms) => ms as i64,
            None => 0i64,
        },
{
    match elapsed_millis {
        Some(ms) => ms as i64,
        None => 0,
    }
}

/// The current time in milliseconds since the Unix epoch, 0 when the clock stands before
/// the epoch. What is returned for each reading of the clock is stated by
/// `millis_from_elapsed`; of the reading itself nothing can be stated, and every `i64` is
/// the cut of some reading.
pub fn now_millis() -> i64 {
    let t = system_time_now();
    let elapsed = match since_unix_epoch(&t) {
        Some(d) => Some(whole_millis(&d)),
        None => None,
    };
    millis_from_elapsed(elapsed)
}

/// The current time as the decimal text of `now_millis`, the form in which rows store
/// their times.
pub fn now_text() -> (r: String)
    ensures
        exists|ms: i64| r@ == #[trigger] signed_decimal(ms as int),
{
    let ms = now_millis();
    let r = signed_decimal_text(ms);
    assert(r@ == signed_decimal(ms as int));
    r
}

/// Timestamps of one length stand in text order as the clock readings they render do: of
/// two non-negative readings `a <= b` whose texts are equally long, the text of `a` comes
/// no later. This is why listing rows by the text of `updated_at`, newest first, lists
/// them by time for as long as timestamps keep their length.
pub proof fn lemma_timestamp_text_order(a: int, b: int)
    requires
        0 <= a <= b,
        signed_decimal(a).len() == signed_decimal(b).len(),
    ensures
        text_le(signed_decimal(a), signed_decimal(b)),
{
    lemma_decimal_text_order(a as nat, b as nat);
}

/// The id of an execution log row of the task `task_id` written `nanos` nanoseconds after
/// the Unix epoch: `log_`, the task id, `_`, and the nanoseconds in decimal.
pub open spec fn log_id_text(task_id: Seq<char>, nanos: nat) -> Seq<char> {
    seq!['l', 'o', 'g', '_'] + task_id + seq!['_'] + decimal(nanos)
}

/// The log id for the task `task_id` and the clock reading `nanos`.
pub fn log_id_for(task_id: &str, nanos: u128) -> (r: String)
    ensures
        r@ == log_id_text(task_id@, nanos as nat),
{
    let mut s = String::new();
    push_char(&mut s, 'l');
    push_char(&mut s, 'o');
    push_char(&mut s, 'g');
    push_char(&mut s, '_');
    s.append(task_id);
    push_char(&mut s, '_');
    push_decimal(&mut s, nanos);
    assert(s@ =~= log_id_text(task_id@, nanos as nat));
    s
}

/// A fresh id for an execution log row of the task `task_id`, from the nanoseconds
/// elapsed since the Unix epoch (0 when the clock stands before the epoch).
pub fn new_log_id(task_id: &str) -> (r: String)
    ensures
        exists|nanos: nat| r@ == #[trigger] log_id_text(task_id@, nanos),
{
    let t = system_time_now();
    let nanos = match since_unix_epoch(&t) {
        Some(d) => whole_nanos(&d),
        None => 0,
    };
    log_id_for(task_id, nanos)
}

/// A log id names one task and one clock reading: two ids are equal only when both the
/// task ids and the readings are, even where task ids hold underscores.
pub proof fn lemma_log_id_injective(t1: Seq<char>, n1: nat, t2: Seq<char>, n2: nat)
    requires
        log_id_text(t1, n1) == log_id_text(t2, n2),
    ensures
        t1 == t2,
        n1 == n2,
{
    let s = log_id_text(t1, n1);
    lemma_decimal_digits(n1);
    lemma_decimal_digits(n2);
    let k1: int = 4 + t1.len() as int;
    let k2: int = 4 + t2.len() as int;
    assert(s.len() == k1 + 1 + decimal(n1).len());
    assert(log_id_text(t2, n2).len() == k2 + 1 + decimal(n2).len());
    assert(s[k1] == '_');
    assert(log_id_text(t2, n2)[k2] == '_');
    if k1 < k2 {
        assert(s[k2] == decimal(n1)[k2 - k1 - 1]);
        assert(is_digit(decimal(n1)[k2 - k1 - 1]));
    } else if k2 < k1 {
        assert(log_id_text(t2, n2)[k1] == decimal(n2)[k1 - k2 - 1]);
        assert(is_digit(decimal(n2)[k1 - k2 - 1]));
    } else {
        assert(t1 =~= s.subrange(4, k1));
        assert(t2 =~= log_id_text(t2, n2).subrange(4, k2));
        assert(decimal(n1) =~= s.skip(k1 + 1));
        assert(decimal(n2) =~= log_id_text(t2, n2).skip(k2 + 1));
        lemma_decimal_injective(n1, n2);
    }
}

} // verus!
