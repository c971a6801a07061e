use crate::toobit::futures_api::http::info::GetFundingRateHistoryRequest;
use crate::util::error::ExchangeError;
use crate::util::symbol::{Symbol, SymbolKind};
use vstd::prelude::*;

verus! {

/// The most days of funding history that can be asked for.
pub open spec fn max_history_days() -> u8 {
    5
}

/// At most five days of funding history can be asked for, at 24 records
/// a day, so a request never asks for more than 120 records.
pub proof fn toobit_history_days_law(day: u8)
    ensures
        max_history_days() == 5,
        day <= max_history_days() ==> 24 * day <= 120,
{
}

/// The request for `day` days of funding history of the market named
/// `symbol_id`: 24 records a day. More than five days are refused.
pub fn funding_rate_history_request(symbol_id: String, day: u8) -> (r: Result<GetFundingRateHistoryRequest, ExchangeError>)
    ensures
        day > max_history_days() ==> (r matches Err(ExchangeError::Forbidden(m)) && m@ == "day max 5"@),
        day <= max_history_days() ==> (r matches Ok(req) && req.symbol == symbol_id && req.limit == 24 * day),
{
    if day > 5 {
        return Err(ExchangeError::Forbidden(String::from_str("day max 5")));
    }
    Ok(GetFundingRateHistoryRequest { symbol: symbol_id, limit: 24 * day })
}

/// The positions, in order, among the first `n` records, of those settled
/// after `start`.
pub open spec fn kept(times: Seq<u64>, start: u64, n: nat) -> Seq<usize>
    decreases n,
{
    if n == 0 {
        Seq::<usize>::empty()
    } else {
        let k = kept(times, start, (n - 1) as nat);
        if times[n - 1] > start {
            k.push((n - 1) as usize)
        } else {
            k
        }
    }
}

/// The kept positions are increasing positions of records settled after
/// `start`.
pub proof fn kept_positions(times: Seq<u64>, start: u64, n: nat)
    requires
        n <= times.len(),
        times.len() <= usize::MAX,
    ensures
        forall|i: int| 0 <= i < kept(times, start, n).len() ==> (#[trigger] kept(times, start, n)[i]) < n
            && times[kept(times, start, n)[i] as int] > start,
        forall|i: int, j: int| 0 <= i < j < kept(times, start, n).len() ==> kept(times, start, n)[i] < kept(times, start, n)[j],
    decreases n,
{
    if n > 0 {
        kept_positions(times, start, (n - 1) as nat);
        let k = kept(times, start, (n - 1) as nat);
        let kn = kept(times, start, n);
        if times[n - 1] > start {
            assert(kn == k.push((n - 1) as usize));
            assert forall|i: int| 0 <= i < kn.len() implies (#[trigger] kn[i]) < n && times[kn[i] as int] > start by {
                if i < k.len() {
                    assert(kn[i] == k[i]);
                }
            }
            assert forall|i: int, j: int| 0 <= i < j < kn.len() implies kn[i] < kn[j] by {
                assert(kn[i] == k[i]);
                if j < k.len() {
                    assert(kn[j] == k[j]);
                }
            }
        }
    }
}

/// Every record settled after `start` is kept.
pub proof fn kept_complete(times: Seq<u64>, start: u64, n: nat, p: int)
    requires
        n <= times.len(),
        times.len() <= usize::MAX,
        0 <= p < n,
        times[p] > start,
    ensures
        kept(times, start, n).contains(p as usize),
    decreases n,
{
    if p < n - 1 {
        kept_complete(times, start, (n - 1) as nat, p);
        let k = kept(times, start, (n - 1) as nat);
        let i = choose|i: int| 0 <= i < k.len() && k[i] == p as usize;
        if times[n - 1] > start {
            assert(k.push((n - 1) as usize)[i] == p as usize);
        }
    } else {
        assert(kept(times, start, n).last() == p as usize);
    }
}

/// Whether the two newest kept records are in settlement order, so that
/// their distance is the funding interval.
pub open spec fn interval_defined(times: Seq<u64>, start: u64) -> bool {
    let k = kept(times, start, times.len());
    k.len() >= 2 ==> times[k[0] as int] >= times[k[1] as int]
}

/// Keeps the funding records, newest first, that were settled after
/// `start` (milliseconds) and measures the funding interval as the distance
/// between the first two kept. Fewer than two kept records are an error.
pub fn select_funding_history(times: &Vec<u64>, start: u64) -> (r: Result<(Vec<usize>, u64), ExchangeError>)
    requires
        interval_defined(times@, start),
    ensures
        kept(times@, start, times@.len()).len() < 2 ==> r == Err::<(Vec<usize>, u64), ExchangeError>(
            ExchangeError::OrderNotFound,
        ),
        kept(times@, start, times@.len()).len() >= 2 ==> (r matches Ok((idx, interval)) && idx@ == kept(
            times@,
            start,
            times@.len(),
        ) && interval == times@[idx@[0] as int] - times@[idx@[1] as int]),
{
    let mut idx: Vec<usize> = Vec::new();
    let mut i: usize = 0;
    while i < times.len()
        invariant
            i <= times.len(),
            idx@ == kept(times@, start, i as nat),
        decreases times.len() - i,
    {
        if times[i] > start {
            idx.push(i);
        }
        i = i + 1;
    }
    if idx.len() < 2 {
        return Err(ExchangeError::OrderNotFound);
    }
    proof {
        kept_positions(times@, start, times@.len());
    }
    let interval = times[idx[0]] - times[idx[1]];
    Ok((idx, interval))
}

/// The first contract of the exchange's list, given by name, that is the
/// market `symbol_id`; `None` when the market is not listed.
pub fn find_contract(symbols: &Vec<String>, symbol_id: &String) -> (r: Option<usize>)
    ensures
        r matches Some(i) ==> i < symbols.len() && symbols@[i as int]@ == symbol_id@ && forall|j: int|
            0 <= j < i ==> (#[trigger] symbols@[j])@ != symbol_id@,
        r is None ==> forall|j: int| 0 <= j < symbols.len() ==> (#[trigger] symbols@[j])@ != symbol_id@,
{
    let mut i: usize = 0;
    while i < symbols.len()
        invariant
            i <= symbols.len(),
            forall|j: int| 0 <= j < i ==> (#[trigger] symbols@[j])@ != symbol_id@,
        decreases symbols.len() - i,
    {
        if symbols[i] == *symbol_id {
            return Some(i);
        }
        i = i + 1;
    }
    None
}

/// Whether new positions may still be opened on a market once its contract
/// reports `status`: a contract that is not trading closes the market, any
/// other leaves it as it was.
pub fn open_after_status(can_open: bool, status: &String) -> (r: bool)
    ensures
        r == (can_open && status@ == "TRADING"@),
{
    let trading = String::from_str("TRADING");
    if *status != trading {
        false
    } else {
        can_open
    }
}

/// The market under which the index price of `symbol` is asked: none for
/// a spot market, whose index price is taken as zero; else the same market
/// as a spot market.
pub fn index_price_symbol(symbol: &Symbol) -> (r: Option<Symbol>)
    ensures
        symbol.kind == SymbolKind::Spot ==> r is None,
        symbol.kind != SymbolKind::Spot ==> (r matches Some(s) && s.kind == SymbolKind::Spot && s.base@ == symbol.base@
            && s.base_id == symbol.base_id && s.quote@ == symbol.quote@ && s.quote_id == symbol.quote_id
            && s.prefix == symbol.prefix && s.suffix == symbol.suffix && s.precision == symbol.precision
            && s.precision_price == symbol.precision_price && s.can_open == symbol.can_open),
{
    if symbol.is_spot() {
        return None;
    }
    Some(
        Symbol {
            kind: SymbolKind::Spot,
            base: symbol.base.clone(),
            base_id: symbol.base_id.clone(),
            quote: symbol.quote.clone(),
            quote_id: symbol.quote_id.clone(),
            prefix: symbol.prefix.clone(),
            suffix: symbol.suffix.clone(),
            precision: symbol.precision,
            precision_price: symbol.precision_price,
            can_open: symbol.can_open,
        },
    )
}

} // verus!
