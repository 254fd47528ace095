//! What a purchase and a free allocation do to the sale record, and what
//! holds of the record over any run of them.
use vstd::prelude::*;
use crate::error::SaleError;
use crate::pricing::advance_due;
use crate::pricing::advanced;
use crate::pricing::lemma_advance_bounds;
use crate::pricing::phase_quote;
use crate::pricing::phase_start_at;
use crate::pricing::price_at;
use crate::pricing::quotable;
use crate::state::SaleRecord;
use crate::state::TokenSaleProgramData;

verus! {

/// What a purchase costs: the price at `now` for each token.
pub open spec fn purchase_cost(r: SaleRecord, now: i64, number_of_tokens: u64) -> int {
    price_at(r, now) * number_of_tokens
}

/// Whether a purchase can be accounted for: the price at `now` can be told,
/// and neither the cost nor the new count of tokens leaves 64 bits.
pub open spec fn purchasable(r: SaleRecord, now: i64, number_of_tokens: u64) -> bool {
    &&& quotable(r, now)
    &&& purchase_cost(r, now, number_of_tokens) <= u64::MAX
    &&& r.purchased_token_amount + number_of_tokens <= u64::MAX
}

/// The record after a purchase at `now`: the phases gone by are entered and
/// the tokens are counted.
pub open spec fn purchased(r: SaleRecord, now: i64, number_of_tokens: u64) -> SaleRecord {
    SaleRecord {
        purchased_token_amount: (r.purchased_token_amount + number_of_tokens) as u64,
        ..advanced(r, now)
    }
}

/// Whether a free allocation can be accounted for: the new count of tokens
/// stays within 64 bits.
pub open spec fn grantable(r: SaleRecord, number_of_tokens: u64) -> bool {
    r.purchased_token_amount + number_of_tokens <= u64::MAX
}

/// The record after a free allocation: the tokens are counted, nothing else
/// changes.
pub open spec fn granted(r: SaleRecord, number_of_tokens: u64) -> SaleRecord {
    SaleRecord {
        purchased_token_amount: (r.purchased_token_amount + number_of_tokens) as u64,
        ..r
    }
}

/// Accounts for a purchase of `number_of_tokens` at `now` and returns its
/// cost. A purchase that cannot be accounted for is refused and leaves the
/// record as it was.
pub fn record_purchase(record: &mut TokenSaleProgramData, now: i64, number_of_tokens: u64) -> (res:
    Result<u64, SaleError>)
    ensures
        purchasable(old(record)@, now, number_of_tokens) ==> res is Ok && res->Ok_0
            == purchase_cost(old(record)@, now, number_of_tokens) && final(record)@ == purchased(
            old(record)@,
            now,
            number_of_tokens,
        ),
        !purchasable(old(record)@, now, number_of_tokens) ==> res == Err::<u64, SaleError>(
            SaleError::ArithmeticError,
        ) && *final(record) == *old(record),
{
    let quote = match phase_quote(record, now) {
        Ok(quote) => quote,
        Err(e) => {
            return Err(SaleError::ArithmeticError);
        },
    };
    assert((quote.per_token_price as u128) * (number_of_tokens as u128) <= u64::MAX * u64::MAX)
        by (nonlinear_arith)
        requires
            quote.per_token_price <= u64::MAX,
            number_of_tokens <= u64::MAX,
    ;
    let cost: u128 = (quote.per_token_price as u128) * (number_of_tokens as u128);
    if cost > u64::MAX as u128 {
        return Err(SaleError::ArithmeticError);
    }
    if number_of_tokens > u64::MAX - record.purchased_token_amount {
        return Err(SaleError::ArithmeticError);
    }
    record.update_sale_phase(quote.per_token_price, quote.phase_start_time);
    record.increase_token_amount(number_of_tokens);
    Ok(cost as u64)
}

/// Accounts for a free allocation of `number_of_tokens`. One that would
/// carry the count past 64 bits is refused and leaves the record as it was.
pub fn record_grant(record: &mut TokenSaleProgramData, number_of_tokens: u64) -> (res: Result<
    (),
    SaleError,
>)
    ensures
        grantable(old(record)@, number_of_tokens) ==> res is Ok && final(record)@ == granted(
            old(record)@,
            number_of_tokens,
        ),
        !grantable(old(record)@, number_of_tokens) ==> res == Err::<(), SaleError>(
            SaleError::ArithmeticError,
        ) && *final(record) == *old(record),
{
    if number_of_tokens > u64::MAX - record.purchased_token_amount {
        return Err(SaleError::ArithmeticError);
    }
    record.increase_token_amount(number_of_tokens);
    Ok(())
}

/// One step in the life of a running sale.
pub enum Disbursement {
    /// A purchase of `number_of_tokens` at the moment `now`.
    Purchase { now: i64, number_of_tokens: u64 },
    /// A free allocation of `number_of_tokens`.
    Grant { number_of_tokens: u64 },
}

impl Disbursement {
    /// The tokens that the step asks for.
    pub open spec fn number_of_tokens(self) -> u64 {
        match self {
            Disbursement::Purchase { now, number_of_tokens } => number_of_tokens,
            Disbursement::Grant { number_of_tokens } => number_of_tokens,
        }
    }

    /// Whether the step can be accounted for on the record `r`.
    pub open spec fn accepted(self, r: SaleRecord) -> bool {
        match self {
            Disbursement::Purchase { now, number_of_tokens } => purchasable(
                r,
                now,
                number_of_tokens,
            ),
            Disbursement::Grant { number_of_tokens } => grantable(r, number_of_tokens),
        }
    }

    /// The record after the step.
    pub open spec fn applied(self, r: SaleRecord) -> SaleRecord {
        match self {
            Disbursement::Purchase { now, number_of_tokens } => purchased(r, now, number_of_tokens),
            Disbursement::Grant { number_of_tokens } => granted(r, number_of_tokens),
        }
    }
}

/// Whether every step of `steps`, taken in order from `r`, is accepted.
pub open spec fn all_accepted(r: SaleRecord, steps: Seq<Disbursement>) -> bool
    decreases steps.len(),
{
    if steps.len() == 0 {
        true
    } else {
        steps[0].accepted(r) && all_accepted(steps[0].applied(r), steps.skip(1))
    }
}

/// The record after all of `steps`, taken in order from `r`.
pub open spec fn replayed(r: SaleRecord, steps: Seq<Disbursement>) -> SaleRecord
    decreases steps.len(),
{
    if steps.len() == 0 {
        r
    } else {
        replayed(steps[0].applied(r), steps.skip(1))
    }
}

/// The tokens that `steps` ask for, all together.
pub open spec fn tokens_requested(steps: Seq<Disbursement>) -> int
    decreases steps.len(),
{
    if steps.len() == 0 {
        0
    } else {
        steps[0].number_of_tokens() + tokens_requested(steps.skip(1))
    }
}

/// One accepted step counts its tokens and keeps the sale within bounds:
/// the count grows by exactly the tokens asked for, the price does not fall
/// and stays at or below the maximum if it was there before, the phase start
/// does not move back, and the parties and parameters of the sale stay.
pub proof fn lemma_step_keeps_bounds(r: SaleRecord, step: Disbursement)
    requires
        step.accepted(r),
    ensures
        step.applied(r).purchased_token_amount == r.purchased_token_amount
            + step.number_of_tokens(),
        step.applied(r).per_token_price >= r.per_token_price,
        r.per_token_price <= r.max_token_price ==> step.applied(r).per_token_price
            <= r.max_token_price,
        step.applied(r).phase_start_time >= r.phase_start_time,
        step.applied(r).is_initialized == r.is_initialized,
        step.applied(r).seller_pubkey == r.seller_pubkey,
        step.applied(r).temp_token_account_pubkey == r.temp_token_account_pubkey,
        step.applied(r).max_token_price == r.max_token_price,
        step.applied(r).increase_token_price == r.increase_token_price,
        step.applied(r).phase_delay_time == r.phase_delay_time,
{
    match step {
        Disbursement::Purchase { now, number_of_tokens } => {
            lemma_advance_bounds(r, now);
        },
        Disbursement::Grant { number_of_tokens } => {},
    }
}

/// Over any run of accepted purchases and free allocations the count of
/// tokens handed out grows by exactly the sum of the tokens asked for, so it
/// never falls, and from a fresh sale it is that sum. Along the way the
/// price never falls and never passes the maximum it began under, the
/// phase start never moves back, and the parties and the terms of the sale
/// stay as they were.
pub proof fn lemma_run_counts_every_token(r: SaleRecord, steps: Seq<Disbursement>)
    requires
        all_accepted(r, steps),
    ensures
        replayed(r, steps).purchased_token_amount == r.purchased_token_amount + tokens_requested(
            steps,
        ),
        tokens_requested(steps) >= 0,
        replayed(r, steps).purchased_token_amount >= r.purchased_token_amount,
        r.purchased_token_amount == 0 ==> replayed(r, steps).purchased_token_amount
            == tokens_requested(steps),
        replayed(r, steps).per_token_price >= r.per_token_price,
        r.per_token_price <= r.max_token_price ==> replayed(r, steps).per_token_price
            <= r.max_token_price,
        replayed(r, steps).phase_start_time >= r.phase_start_time,
        replayed(r, steps).max_token_price == r.max_token_price,
        replayed(r, steps).increase_token_price == r.increase_token_price,
        replayed(r, steps).phase_delay_time == r.phase_delay_time,
        replayed(r, steps).is_initialized == r.is_initialized,
        replayed(r, steps).seller_pubkey == r.seller_pubkey,
        replayed(r, steps).temp_token_account_pubkey == r.temp_token_account_pubkey,
    decreases steps.len(),
{
    if steps.len() > 0 {
        lemma_step_keeps_bounds(r, steps[0]);
        lemma_run_counts_every_token(steps[0].applied(r), steps.skip(1));
    }
}

/// A purchase moves the sale into a later phase only when a whole phase has
/// gone by, and the phase it enters has begun by `now`.
pub proof fn lemma_purchase_enters_due_phases(r: SaleRecord, now: i64, number_of_tokens: u64)
    requires
        purchasable(r, now, number_of_tokens),
    ensures
        purchased(r, now, number_of_tokens).phase_start_time != r.phase_start_time ==> now
            >= r.phase_start_time + r.phase_delay_time,
        purchased(r, now, number_of_tokens).per_token_price != r.per_token_price ==> now
            >= r.phase_start_time + r.phase_delay_time,
        advance_due(r, now) ==> purchased(r, now, number_of_tokens).phase_start_time <= now,
        purchased(r, now, number_of_tokens).per_token_price == price_at(r, now),
        purchased(r, now, number_of_tokens).phase_start_time == phase_start_at(r, now),
{
    lemma_advance_bounds(r, now);
}

} // verus!
