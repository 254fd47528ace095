//! The price of a token, which rises by a fixed step from one phase to the
//! next until it reaches its maximum.
use vstd::prelude::*;
use crate::error::SaleError;
use crate::state::SaleRecord;
use crate::state::TokenSaleProgramData;

verus! {

/// The price and the phase start that hold at some moment.
#[derive(Clone, Copy, Debug, PartialEq, Eq, Structural)]
pub struct PhaseQuote {
    /// The price of one token.
    pub per_token_price: u64,
    /// When the phase of that price began.
    pub phase_start_time: i64,
}

/// Whether the sale enters a later phase at `now`: a whole phase has gone by
/// since the current one began, and the price is still below its maximum.
pub open spec fn advance_due(r: SaleRecord, now: i64) -> bool {
    now >= r.phase_start_time + r.phase_delay_time && r.per_token_price < r.max_token_price
}

/// How many whole phases have gone by at `now` since the current one began.
pub open spec fn elapsed_phases(r: SaleRecord, now: i64) -> int {
    (now - r.phase_start_time) / (r.phase_delay_time as int)
}

/// How many steps the price can still rise without passing its maximum.
pub open spec fn room_for_phases(r: SaleRecord) -> int {
    (r.max_token_price - r.per_token_price) / (r.increase_token_price as int)
}

/// How many phases the sale moves on at `now`: those gone by, but no more
/// than the price has room for. A step of zero leaves the price where it is,
/// so it sets no limit.
pub open spec fn phases_entered(r: SaleRecord, now: i64) -> int {
    if !advance_due(r, now) {
        0
    } else if r.increase_token_price == 0 || elapsed_phases(r, now) <= room_for_phases(r) {
        elapsed_phases(r, now)
    } else {
        room_for_phases(r)
    }
}

/// The price at `now`.
pub open spec fn price_at(r: SaleRecord, now: i64) -> int {
    r.per_token_price + phases_entered(r, now) * r.increase_token_price
}

/// When the phase that holds at `now` began.
pub open spec fn phase_start_at(r: SaleRecord, now: i64) -> int {
    r.phase_start_time + phases_entered(r, now) * r.phase_delay_time
}

/// Whether the price at `now` can be told: moving on by phases needs phases
/// of a positive length.
pub open spec fn quotable(r: SaleRecord, now: i64) -> bool {
    advance_due(r, now) ==> r.phase_delay_time > 0
}

/// The record as it stands once the phases gone by at `now` are entered.
pub open spec fn advanced(r: SaleRecord, now: i64) -> SaleRecord {
    SaleRecord {
        per_token_price: price_at(r, now) as u64,
        phase_start_time: phase_start_at(r, now) as i64,
        ..r
    }
}

/// Entering phases keeps the sale within its bounds. The price only rises,
/// in whole steps, and stops at the maximum if it began at or below it. The
/// phase start only moves forward, by whole phases, and moves only when a
/// whole phase has gone by; after a move it is not later than `now`, and
/// less than one phase before it unless the price ran out of room first.
pub proof fn lemma_advance_bounds(r: SaleRecord, now: i64)
    requires
        quotable(r, now),
    ensures
        phases_entered(r, now) >= 0,
        r.per_token_price <= price_at(r, now) <= u64::MAX,
        r.per_token_price <= r.max_token_price ==> price_at(r, now) <= r.max_token_price,
        advance_due(r, now) ==> price_at(r, now) <= r.max_token_price,
        r.phase_start_time <= phase_start_at(r, now) <= i64::MAX,
        phases_entered(r, now) > 0 ==> now >= r.phase_start_time + r.phase_delay_time,
        advance_due(r, now) ==> phase_start_at(r, now) <= now,
        advance_due(r, now) && phases_entered(r, now) == elapsed_phases(r, now) ==> now
            < phase_start_at(r, now) + r.phase_delay_time,
        !advance_due(r, now) ==> price_at(r, now) == r.per_token_price && phase_start_at(r, now)
            == r.phase_start_time && advanced(r, now) == r,
{
    if advance_due(r, now) {
        let span: int = now - r.phase_start_time;
        let delay: int = r.phase_delay_time as int;
        let step: int = r.increase_token_price as int;
        let gap: int = r.max_token_price - r.per_token_price;
        let k: int = phases_entered(r, now);
        assert(0 <= span / delay && (span / delay) * delay <= span && span < (span / delay) * delay
            + delay) by (nonlinear_arith)
            requires
                delay > 0,
                span >= delay,
        ;
        if step > 0 {
            assert(0 <= gap / step && (gap / step) * step <= gap) by (nonlinear_arith)
                requires
                    step > 0,
                    gap > 0,
            ;
        }
        assert(0 <= k * delay <= span) by (nonlinear_arith)
            requires
                0 <= k <= span / delay,
                (span / delay) * delay <= span,
                delay > 0,
        ;
        if step > 0 {
            assert(0 <= k * step <= gap) by (nonlinear_arith)
                requires
                    0 <= k <= gap / step,
                    (gap / step) * step <= gap,
                    step > 0,
            ;
        } else {
            assert(k * step == 0) by (nonlinear_arith)
                requires
                    step == 0,
            ;
        }
    } else {
        assert(phases_entered(r, now) * r.increase_token_price == 0) by (nonlinear_arith)
            requires
                phases_entered(r, now) == 0,
        ;
        assert(phases_entered(r, now) * r.phase_delay_time == 0) by (nonlinear_arith)
            requires
                phases_entered(r, now) == 0,
        ;
    }
}

/// The price and the phase start that hold at `now`. Where a later phase is
/// due and the record's phase length is not positive, the phases gone by
/// cannot be counted and the quote is refused.
pub fn phase_quote(record: &TokenSaleProgramData, now: i64) -> (res: Result<PhaseQuote, SaleError>)
    ensures
        !quotable(record@, now) ==> res == Err::<PhaseQuote, SaleError>(SaleError::ArithmeticError),
        quotable(record@, now) ==> res is Ok && res->Ok_0.per_token_price == price_at(record@, now)
            && res->Ok_0.phase_start_time == phase_start_at(record@, now),
        res is Ok ==> record.per_token_price <= res->Ok_0.per_token_price
            && record.phase_start_time <= res->Ok_0.phase_start_time,
        res is Ok && record.per_token_price <= record.max_token_price ==> res->Ok_0.per_token_price
            <= record.max_token_price,
        res is Ok && (res->Ok_0.per_token_price != record.per_token_price
            || res->Ok_0.phase_start_time != record.phase_start_time) ==> now
            >= record.phase_start_time + record.phase_delay_time && res->Ok_0.phase_start_time
            <= now && res->Ok_0.per_token_price <= record.max_token_price,
{
    let start: i128 = record.phase_start_time as i128;
    let delay: i128 = record.phase_delay_time as i128;
    let price: u64 = record.per_token_price;
    let step: u64 = record.increase_token_price;
    if (now as i128) < start + delay || price >= record.max_token_price {
        proof {
            lemma_advance_bounds(record@, now);
        }
        return Ok(PhaseQuote { per_token_price: price, phase_start_time: record.phase_start_time });
    }
    if record.phase_delay_time <= 0 {
        return Err(SaleError::ArithmeticError);
    }
    proof {
        lemma_advance_bounds(record@, now);
    }
    let span: u128 = ((now as i128) - start) as u128;
    let length: u128 = delay as u128;
    let elapsed: u128 = span / length;
    let mut entered: u128 = elapsed;
    if step > 0 {
        let room: u64 = (record.max_token_price - price) / step;
        if elapsed > room as u128 {
            entered = room as u128;
        }
    }
    assert(entered == phases_entered(record@, now));
    assert(entered * length == phases_entered(record@, now) * record.phase_delay_time)
        by (nonlinear_arith)
        requires
            entered == phases_entered(record@, now),
            length == record.phase_delay_time,
    ;
    assert(entered * (step as u128) == phases_entered(record@, now) * record.increase_token_price)
        by (nonlinear_arith)
        requires
            entered == phases_entered(record@, now),
            step == record.increase_token_price,
    ;
    let moved: u128 = entered * length;
    let risen: u128 = entered * (step as u128);
    let new_start: i128 = start + (moved as i128);
    let new_price: u128 = (price as u128) + risen;
    Ok(PhaseQuote { per_token_price: new_price as u64, phase_start_time: new_start as i64 })
}

} // verus!
