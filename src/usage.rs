//! Usage figures of an account and their rendering as percentages.
use vstd::prelude::*;
use crate::text::{decimal, push_decimal};

verus! {

/// One usage window: how much was used of how much is allowed. A figure that
/// was missing or not a number is `None`.
#[derive(Clone, Copy, Debug, PartialEq, Eq)]
pub struct UsageCounter {
    pub used: Option<u64>,
    pub limit: Option<u64>,
}

/// The usage of an account over the five-hour and the weekly window.
#[derive(Clone, Copy, Debug, PartialEq, Eq)]
pub struct UsageStats {
    pub five_hour: UsageCounter,
    pub weekly: UsageCounter,
}

/// The amount used; a missing figure counts as nothing used.
pub open spec fn used_amount(c: UsageCounter) -> nat {
    match c.used {
        Some(u) => u as nat,
        None => 0,
    }
}

/// The divisor: the limit, where a missing limit or a limit of zero counts as one.
pub open spec fn limit_divisor(c: UsageCounter) -> nat {
    match c.limit {
        Some(l) => if l > 0 { l as nat } else { 1 },
        None => 1,
    }
}

/// `n / d` rounded to the nearest integer, a tie going to the even one.
pub open spec fn round_div(n: nat, d: nat) -> nat
    recommends
        d > 0,
{
    let q = n / d;
    let r = n % d;
    if 2 * r > d {
        q + 1
    } else if 2 * r < d {
        q
    } else if q % 2 == 0 {
        q
    } else {
        q + 1
    }
}

/// The share of the window that was used, in whole percent.
pub open spec fn percent_of(c: UsageCounter) -> nat {
    round_div(used_amount(c) * 100, limit_divisor(c))
}

/// Computes the share of the window that was used, in whole percent:
/// `used / limit * 100`, rounded to nearest with ties to even, where a missing
/// `used` is 0 and a missing or zero `limit` is 1.
pub fn percent(c: &UsageCounter) -> (r: u128)
    ensures
        r as nat == percent_of(*c),
{
    let used: u128 = match c.used {
        Some(u) => u as u128,
        None => 0,
    };
    let divisor: u128 = match c.limit {
        Some(l) => if l > 0 { l as u128 } else { 1 },
        None => 1,
    };
    assert(used * 100 <= 0xffff_ffff_ffff_ffff * 100) by (nonlinear_arith)
        requires used <= 0xffff_ffff_ffff_ffff;
    let n: u128 = used * 100;
    let q: u128 = n / divisor;
    let rem: u128 = n % divisor;
    assert(q <= n) by (nonlinear_arith)
        requires divisor >= 1, q == n / divisor;
    if 2 * rem > divisor {
        q + 1
    } else if 2 * rem < divisor {
        q
    } else if q % 2 == 0 {
        q
    } else {
        q + 1
    }
}

/// The text that follows an account's name when its usage is known:
/// ` [5h: P% / W: Q%]`.
pub open spec fn usage_suffix(u: UsageStats) -> Seq<char> {
    " [5h: "@ + decimal(percent_of(u.five_hour)) + "% / W: "@ + decimal(percent_of(u.weekly))
        + "%]"@
}

/// The label of an account in the menu: its name, followed by its usage where known.
pub open spec fn account_label(name: Seq<char>, usage: Option<UsageStats>) -> Seq<char> {
    match usage {
        Some(u) => name + usage_suffix(u),
        None => name,
    }
}

/// Appends the usage text of `u` to `out`.
pub fn push_usage_suffix(out: &mut String, u: &UsageStats)
    ensures
        final(out)@ == old(out)@ + usage_suffix(*u),
{
    out.append(" [5h: ");
    push_decimal(out, percent(&u.five_hour));
    out.append("% / W: ");
    push_decimal(out, percent(&u.weekly));
    out.append("%]");
    assert(final(out)@ =~= old(out)@ + usage_suffix(*u));
}

} // verus!
