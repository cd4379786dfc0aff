//! What the Messages database holds, as read from `~/Library/Messages/chat.db`,
//! and the time arithmetic on its timestamps.
use vstd::prelude::*;

verus! {

/// Seconds from 1970-01-01 UTC to 2001-01-01 UTC (the Cocoa epoch).
pub const APPLE_EPOCH_OFFSET: i64 = 978_307_200;

/// `a / b` rounded toward zero, as Rust's `/` on integers does (`b > 0`).
pub open spec fn trunc_div(a: int, b: int) -> int {
    if a >= 0 {
        a / b
    } else {
        -((-a) / b)
    }
}

/// `|a|`.
pub open spec fn abs(a: int) -> int {
    if a < 0 {
        -a
    } else {
        a
    }
}

/// The seconds since the Cocoa epoch that a stored date stands for: values
/// above 10^12 in magnitude are nanoseconds, others seconds.
pub open spec fn cocoa_seconds(cocoa: int) -> int {
    if abs(cocoa) > 1_000_000_000_000 {
        trunc_div(cocoa, 1_000_000_000)
    } else {
        cocoa
    }
}

/// Apple Cocoa absolute time → Unix seconds.
/// Messages stores nanoseconds since 2001-01-01 UTC; older rows store seconds.
/// Heuristic: if value > 1e12, treat as nanoseconds; else seconds.
/// (`i64::MIN` has no absolute value, which `i64::abs` panics on.)
pub fn cocoa_to_unix_seconds(cocoa: i64) -> (unix: i64)
    requires
        cocoa != i64::MIN,
    ensures
        unix == cocoa_seconds(cocoa as int) + APPLE_EPOCH_OFFSET,
{
    let magnitude: i64 = if cocoa < 0 { -cocoa } else { cocoa };
    let seconds: i64 = if magnitude > 1_000_000_000_000 {
        if cocoa < 0 {
            -(magnitude / 1_000_000_000)
        } else {
            cocoa / 1_000_000_000
        }
    } else {
        cocoa
    };
    proof {
        if magnitude > 1_000_000_000_000 {
            assert(0 <= magnitude / 1_000_000_000 <= i64::MAX / 1_000_000_000) by (nonlinear_arith)
                requires
                    0 <= magnitude <= i64::MAX,
            ;
        }
    }
    seconds + APPLE_EPOCH_OFFSET
}

/// A Cocoa date stored in nanoseconds and the same date stored in seconds
/// give the same Unix time, whenever the nanosecond form is above the 10^12
/// threshold (more than 1000 seconds from the epoch) and fits an `i64`.
pub proof fn lemma_nanosecond_and_second_forms_agree(n: int)
    requires
        1000 < abs(n),
        abs(n) * 1_000_000_000 <= i64::MAX,
    ensures
        cocoa_seconds(n * 1_000_000_000) + APPLE_EPOCH_OFFSET == cocoa_seconds(n) + APPLE_EPOCH_OFFSET,
{
    assert(abs(n * 1_000_000_000) == abs(n) * 1_000_000_000) by (nonlinear_arith);
    assert(abs(n) * 1_000_000_000 > 1_000_000_000_000) by (nonlinear_arith)
        requires
            1000 < abs(n),
    ;
    assert(abs(n) <= 1_000_000_000_000) by (nonlinear_arith)
        requires
            abs(n) * 1_000_000_000 <= i64::MAX,
    ;
    if n >= 0 {
        assert((n * 1_000_000_000) / 1_000_000_000 == n) by (nonlinear_arith);
    } else {
        assert((-(n * 1_000_000_000)) / 1_000_000_000 == -n) by (nonlinear_arith);
    }
}

/// One chat, as the chat list query returns it.
#[derive(Debug, Clone)]
pub struct ChatRow {
    pub guid: String,
    pub chat_identifier: String,
    pub display_name: String,
    pub last_message_cocoa: i64,
    pub last_message_text: String,
}

/// One message, as the message query returns it.
#[derive(Debug, Clone)]
pub struct MessageRow {
    pub rowid: i64,
    pub date_cocoa: i64,
    pub is_from_me: bool,
    pub sender: String,
    pub text: String,
}

/// The most recent messages, which the query yields newest first, put in
/// display order: oldest first.
pub fn oldest_first(newest_first: Vec<MessageRow>) -> (rows: Vec<MessageRow>)
    ensures
        rows@ == newest_first@.reverse(),
{
    let mut rest = newest_first;
    let ghost all = rest@;
    let mut out: Vec<MessageRow> = Vec::new();
    while rest.len() > 0
        invariant
            rest@ == all.take(rest@.len() as int),
            rest@.len() <= all.len(),
            out@ == all.skip(rest@.len() as int).reverse(),
        decreases rest.len(),
    {
        let ghost k = rest@.len();
        let r = rest.pop().unwrap();
        out.push(r);
        assert(rest@ =~= all.take(k - 1));
        assert(out@ =~= all.skip(k - 1).reverse());
    }
    assert(all.skip(0) =~= all);
    out
}

} // verus!
