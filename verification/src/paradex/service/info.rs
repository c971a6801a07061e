use crate::util::error::ExchangeError;
use vstd::prelude::*;

verus! {

/// The funding period of Paradex, in milliseconds.
pub open spec fn funding_interval() -> u64 {
    5000
}

/// The next funding time after `now`: the next multiple of the funding
/// period.
pub open spec fn next_funding(now: u64) -> int {
    (now / 5000 + 1) * 5000
}

/// The next funding time after `now` (milliseconds).
pub fn next_funding_time(now: u64) -> (t: u64)
    requires
        next_funding(now) <= u64::MAX,
    ensures
        t == next_funding(now),
{
    let interval: u64 = 5000;
    (now / interval + 1) * interval
}

/// The next funding time comes after `now`, on a multiple of the funding
/// period, and no more than one period later.
pub proof fn next_funding_is_next_period(now: u64)
    ensures
        now < next_funding(now) <= now + 5000,
        next_funding(now) % 5000 == 0,
{
    assert(now < next_funding(now) <= now + 5000) by (nonlinear_arith);
    assert(next_funding(now) % 5000 == 0) by (nonlinear_arith);
}

/// Whether a fee tier of kind `kind` named `name` is the account's own:
/// for a pro account, the pro tier of its pro tier name; else the retail
/// tier of its retail tier name.
pub open spec fn tier_fits(
    kind: Seq<char>,
    name: Seq<char>,
    pro: bool,
    pro_tier: Seq<char>,
    retail_tier: Seq<char>,
) -> bool {
    if pro {
        kind == "pro"@ && name == pro_tier
    } else {
        kind == "retail"@ && name == retail_tier
    }
}

/// A pro account's own tier is the pro tier with its pro tier name and a
/// retail account's the retail tier with its retail tier name; no account
/// takes a tier of the other kind.
pub proof fn tier_fits_law(kind: Seq<char>, name: Seq<char>, pro: bool, pro_tier: Seq<char>, retail_tier: Seq<char>)
    ensures
        pro ==> (tier_fits(kind, name, pro, pro_tier, retail_tier) <==> (kind == "pro"@ && name == pro_tier)),
        !pro ==> (tier_fits(kind, name, pro, pro_tier, retail_tier) <==> (kind == "retail"@ && name == retail_tier)),
        tier_fits(kind, name, pro, pro_tier, retail_tier) ==> kind != (if pro { "retail"@ } else { "pro"@ }),
{
    reveal_strlit("pro");
    reveal_strlit("retail");
    assert("pro"@.len() != "retail"@.len());
}

/// The first of the fee tiers, given as (kind, name), that is the
/// account's own; `None` when none is.
pub fn select_tier(tiers: &Vec<(String, String)>, pro: bool, pro_tier: &String, retail_tier: &String) -> (r: Option<
    usize,
>)
    ensures
        r matches Some(i) ==> i < tiers.len() && tier_fits(tiers@[i as int].0@, tiers@[i as int].1@, pro, pro_tier@, retail_tier@)
            && forall|j: int| 0 <= j < i ==> !tier_fits(#[trigger] tiers@[j].0@, tiers@[j].1@, pro, pro_tier@, retail_tier@),
        r is None ==> forall|j: int| 0 <= j < tiers.len() ==> !tier_fits(#[trigger] tiers@[j].0@, tiers@[j].1@, pro, pro_tier@, retail_tier@),
{
    let pro_kind = String::from_str("pro");
    let retail_kind = String::from_str("retail");
    let mut i: usize = 0;
    while i < tiers.len()
        invariant
            i <= tiers.len(),
            pro_kind@ == "pro"@,
            retail_kind@ == "retail"@,
            forall|j: int| 0 <= j < i ==> !tier_fits(#[trigger] tiers@[j].0@, tiers@[j].1@, pro, pro_tier@, retail_tier@),
        decreases tiers.len() - i,
    {
        let (kind, name) = &tiers[i];
        let fits = if pro {
            *kind == pro_kind && *name == *pro_tier
        } else {
            *kind == retail_kind && *name == *retail_tier
        };
        if fits {
            return Some(i);
        }
        i = i + 1;
    }
    None
}

/// Milliseconds in the eight hours a funding rate is quoted for.
pub open spec fn quote_period() -> u64 {
    28_800_000
}

/// A Paradex rate is quoted for eight hours, and funding comes every five
/// seconds.
pub proof fn paradex_periods_law()
    ensures
        quote_period() == 8 * 60 * 60 * 1000,
        funding_interval() == 5 * 1000,
        quote_period() / funding_interval() == 5760,
{
}

/// The funding interval of a history, newest first, as the distance between
/// its two newest records, and how many intervals make up the eight hours a
/// rate is quoted for. Fewer than two records cannot be measured.
pub fn funding_history_interval(times: &Vec<u64>) -> (r: Result<(u64, u64), ExchangeError>)
    requires
        times.len() >= 2 ==> times[0] > times[1],
    ensures
        times.len() < 2 ==> r == Err::<(u64, u64), ExchangeError>(ExchangeError::OrderNotFound),
        times.len() >= 2 ==> r == Ok::<(u64, u64), ExchangeError>(
            ((times[0] - times[1]) as u64, (quote_period() / ((times[0] - times[1]) as u64)) as u64),
        ),
{
    if times.len() < 2 {
        return Err(ExchangeError::OrderNotFound);
    }
    let interval = times[0] - times[1];
    let period: u64 = 28_800_000;
    Ok((interval, period / interval))
}

} // verus!
