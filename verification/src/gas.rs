//! The two-phase gas metering protocol: `fill_gas` reserves provably
//! available funds before contract execution, `empty_unused_gas` settles the
//! actual usage afterwards.
//!
//! The slice of ledger state the protocol touches is threaded explicitly
//! through each call as a [`Ledger`] value, including the transient
//! fee-exchange intent slot, instead of living in process-wide storage:
//! block execution is sequential, so at most one transaction is mid-dispatch
//! at any instant.

use vstd::prelude::*;

use crate::arith::{checked_mul_u128, saturating_add_u128};
use crate::{AssetId, Balance, Gas};

verus! {

/// Why a gas payment operation was refused. Every failure of `fill_gas` is
/// atomic: it leaves the ledger untouched.
#[derive(Clone, Copy, Debug, PartialEq, Eq, Structural)]
pub enum GasPaymentError {
    /// A checked multiply or subtract would overflow.
    ArithmeticOverflow,
    /// The projected post-payment balance of the payment asset is negative.
    InsufficientLiquidity,
    /// The quoted cost exceeds the payer's declared cap.
    ExceedsMaxPayment,
    /// The currency or asset ledger refused the withdrawal.
    WithdrawalRejected,
}

/// A payer's declaration to settle gas cost in a non-native asset, capped at
/// a maximum payment.
#[derive(Clone, Copy, Debug, PartialEq, Eq, Structural)]
pub struct FeeExchange {
    /// The asset the payer wishes to pay gas in.
    pub asset_id: AssetId,
    /// The most of that asset the payer is willing to spend.
    pub max_payment: Balance,
}

impl FeeExchange {
    pub fn new(asset_id: AssetId, max_payment: Balance) -> (r: FeeExchange)
        ensures
            r == (FeeExchange { asset_id, max_payment }),
    {
        FeeExchange { asset_id, max_payment }
    }
}

/// Per-transaction gas meter, created by `fill_gas`, written by the
/// execution sandbox during dispatch, and consumed by `empty_unused_gas`.
#[derive(Clone, Copy, Debug, PartialEq, Eq, Structural)]
pub struct GasMeter {
    /// The most gas this transaction may consume.
    pub gas_limit: Gas,
    /// Price of one unit of gas, in native currency, captured at fill time.
    pub gas_price: Balance,
    /// Gas consumed so far by the sandbox.
    pub gas_spent: Gas,
}

/// The gas still unused: `gas_limit - gas_spent`, never negative.
pub open spec fn spec_gas_left(m: GasMeter) -> int {
    if m.gas_spent <= m.gas_limit {
        m.gas_limit - m.gas_spent
    } else {
        0
    }
}

impl GasMeter {
    /// A fresh meter with nothing spent yet.
    pub fn with_limit(gas_limit: Gas, gas_price: Balance) -> (r: GasMeter)
        ensures
            r == (GasMeter { gas_limit, gas_price, gas_spent: 0 }),
    {
        GasMeter { gas_limit, gas_price, gas_spent: 0 }
    }

    /// Gas consumed so far.
    pub fn spent(&self) -> (r: Gas)
        ensures
            r == self.gas_spent,
    {
        self.gas_spent
    }

    /// Gas still unused.
    pub fn gas_left(&self) -> (r: Gas)
        ensures
            r as int == spec_gas_left(*self),
    {
        if self.gas_spent <= self.gas_limit {
            self.gas_limit - self.gas_spent
        } else {
            0
        }
    }
}

/// In-memory exchange-rate oracle: quotes the cost in the nominated payment
/// asset of acquiring a given amount of the native fee currency, at a spot
/// rate of `rate_num / rate_den` payment units per native unit, the pool's
/// exchange fee already folded into the rate. A zero denominator is treated
/// as one.
#[derive(Clone, Copy, Debug, PartialEq, Eq, Structural)]
pub struct Oracle {
    pub rate_num: Balance,
    pub rate_den: Balance,
}

/// Division rounding up, for a positive divisor.
pub open spec fn spec_ceil_div(n: int, d: int) -> int {
    if n % d == 0 {
        n / d
    } else {
        n / d + 1
    }
}

/// The denominator the oracle actually divides by.
pub open spec fn spec_rate_den(o: Oracle) -> int {
    if o.rate_den == 0 {
        1
    } else {
        o.rate_den as int
    }
}

/// The quoted cost of `native_amount` of native currency in the payment
/// asset: `native_amount * rate_num / rate_den`, rounded up so the pool is
/// never underpaid. `None` when the cost cannot be represented.
pub open spec fn spec_quote(o: Oracle, native_amount: int) -> Option<int> {
    let scaled = native_amount * o.rate_num;
    if scaled > u128::MAX as int {
        None
    } else {
        Some(spec_ceil_div(scaled, spec_rate_den(o)))
    }
}

impl Oracle {
    pub fn new(rate_num: Balance, rate_den: Balance) -> (r: Oracle)
        ensures
            r == (Oracle { rate_num, rate_den }),
    {
        Oracle { rate_num, rate_den }
    }

    /// Oracle quote: the cost in the payment asset to obtain `native_amount`
    /// of native currency, or `None` when it cannot be represented.
    pub fn quote(&self, native_amount: Balance) -> (r: Option<Balance>)
        ensures
            r is Some <==> spec_quote(*self, native_amount as int) is Some,
            r is Some ==> r->0 as int == spec_quote(*self, native_amount as int)->0,
    {
        let den: u128 = if self.rate_den == 0 {
            1
        } else {
            self.rate_den
        };
        match checked_mul_u128(native_amount, self.rate_num) {
            None => None,
            Some(scaled) => {
                let q: u128 = scaled / den;
                let rem: u128 = scaled % den;
                if rem == 0 {
                    Some(q)
                } else {
                    proof {
                        vstd::arithmetic::div_mod::lemma_mod_bound(scaled as int, den as int);
                        vstd::arithmetic::div_mod::lemma_div_is_ordered_by_denominator(
                            scaled as int,
                            2,
                            den as int,
                        );
                        vstd::arithmetic::div_mod::lemma_div_is_ordered(
                            scaled as int,
                            u128::MAX as int,
                            2,
                        );
                    }
                    Some(q + 1)
                }
            },
        }
    }
}

/// The slice of ledger state the gas protocol reads and writes, carried as
/// part of the per-transaction execution context. Balances are those of the
/// transactor paying for the gas.
#[derive(Clone, Copy, Debug, PartialEq, Eq, Structural)]
pub struct Ledger {
    /// Price of one unit of gas in native currency.
    pub gas_price: Balance,
    /// The minimum native balance an account must keep to stay alive.
    pub existential_deposit: Balance,
    /// The transient fee-exchange intent slot, consumed exactly once per
    /// transaction by `empty_unused_gas`.
    pub intent: Option<FeeExchange>,
    /// The transactor's free native balance.
    pub native_free: Balance,
    /// The transactor's free balance of the intent's payment asset.
    pub asset_free: Balance,
    /// The part of that payment-asset balance that liquidity restrictions
    /// keep in place.
    pub asset_locked: Balance,
    /// Native funds collected by the fee-payment sink.
    pub fee_pot: Balance,
    /// The exchange-rate oracle for the payment asset.
    pub oracle: Oracle,
}

/// The keep-alive existence rule: a native withdrawal must not take the
/// account below its minimum-existence balance.
pub open spec fn spec_can_withdraw_native(l: Ledger, amount: int) -> bool {
    amount <= l.native_free && l.native_free - amount >= l.existential_deposit
}

/// Effect of the oracle executing a purchase of `native_amount` of native
/// fee currency on the payer's behalf, capped at the intent's maximum: the
/// payment asset is debited by the quote, the native balance credited. Any
/// refusal leaves the ledger untouched.
pub open spec fn spec_buy_fee_asset(l: Ledger, native_amount: int, fx: FeeExchange) -> (
    Ledger,
    Result<(), GasPaymentError>,
) {
    match spec_quote(l.oracle, native_amount) {
        None => (l, Err(GasPaymentError::ArithmeticOverflow)),
        Some(q) => {
            if q > fx.max_payment as int {
                (l, Err(GasPaymentError::ExceedsMaxPayment))
            } else if q > l.asset_free as int {
                (l, Err(GasPaymentError::InsufficientLiquidity))
            } else if l.asset_free - q < l.asset_locked as int {
                (l, Err(GasPaymentError::WithdrawalRejected))
            } else {
                let credited = if l.native_free + native_amount > u128::MAX as int {
                    u128::MAX as int
                } else {
                    l.native_free + native_amount
                };
                (
                    Ledger {
                        asset_free: (l.asset_free - q) as u128,
                        native_free: credited as u128,
                        ..l
                    },
                    Ok(()),
                )
            }
        },
    }
}

impl Ledger {
    /// Transient store `take`: reads and removes the fee-exchange intent, so
    /// it is consumed exactly once.
    pub fn take_intent(&mut self) -> (r: Option<FeeExchange>)
        ensures
            r == old(self).intent,
            *final(self) == (Ledger { intent: None, ..*old(self) }),
    {
        let taken = self.intent;
        self.intent = None;
        taken
    }

    /// Transient store `insert`: records a fee-exchange intent for the
    /// transaction about to be dispatched.
    pub fn set_intent(&mut self, fx: FeeExchange)
        ensures
            *final(self) == (Ledger { intent: Some(fx), ..*old(self) }),
    {
        self.intent = Some(fx);
    }

    /// Currency `deposit_creating`: mints `amount` into the transactor's
    /// native balance, clamping at the numeric ceiling.
    fn deposit_creating(&mut self, amount: Balance)
        ensures
            *final(self) == (Ledger {
                native_free: if old(self).native_free + amount > u128::MAX as int {
                    u128::MAX
                } else {
                    (old(self).native_free + amount) as u128
                },
                ..*old(self)
            }),
    {
        self.native_free = saturating_add_u128(self.native_free, amount);
    }

    /// Oracle `execute_purchase`: buys `native_amount` of native fee
    /// currency for the payer, spending at most `fee_exchange.max_payment`
    /// of the payment asset at the oracle's rate. Refusals are atomic.
    fn buy_fee_asset(&mut self, native_amount: Balance, fee_exchange: &FeeExchange) -> (r: Result<
        (),
        GasPaymentError,
    >)
        ensures
            *final(self) == spec_buy_fee_asset(*old(self), native_amount as int, *fee_exchange).0,
            r == spec_buy_fee_asset(*old(self), native_amount as int, *fee_exchange).1,
            r is Err ==> *final(self) == *old(self),
    {
        let quoted = match self.oracle.quote(native_amount) {
            Some(q) => q,
            None => {
                return Err(GasPaymentError::ArithmeticOverflow);
            },
        };
        if quoted > fee_exchange.max_payment {
            return Err(GasPaymentError::ExceedsMaxPayment);
        }
        if quoted > self.asset_free {
            return Err(GasPaymentError::InsufficientLiquidity);
        }
        if self.asset_free - quoted < self.asset_locked {
            return Err(GasPaymentError::WithdrawalRejected);
        }
        self.asset_free = self.asset_free - quoted;
        self.native_free = saturating_add_u128(self.native_free, native_amount);
        Ok(())
    }
}

/// Orchestrates the two-phase gas payment protocol per transaction:
/// `Unreserved -> Reserved -> Settled`, with no partial state persisted.
pub struct GasHandler;

/// The reservation phase as a function of the starting ledger state: the
/// state after `fill_gas`, and its result.
///
/// With a zero gas price the meter is filled for free. Otherwise the cost of
/// the full limit is computed with a checked multiply; with no intent
/// pending it is withdrawn up front from the native balance under the
/// keep-alive rule, and with an intent pending the converted cost is only
/// checked against the cap and the projected post-payment balance - the real
/// debit is deferred to settlement, when the spent amount is known.
pub open spec fn spec_fill_gas(l: Ledger, gas_limit: Gas) -> (Ledger, Result<
    GasMeter,
    GasPaymentError,
>) {
    let meter = GasMeter { gas_limit, gas_price: l.gas_price, gas_spent: 0 };
    if l.gas_price == 0 {
        (l, Ok(meter))
    } else if l.gas_price * gas_limit > u128::MAX as int {
        (l, Err(GasPaymentError::ArithmeticOverflow))
    } else {
        let cost = l.gas_price * gas_limit;
        match l.intent {
            None => {
                if spec_can_withdraw_native(l, cost) {
                    let pot = if l.fee_pot + cost > u128::MAX as int {
                        u128::MAX as int
                    } else {
                        l.fee_pot + cost
                    };
                    (
                        Ledger {
                            native_free: (l.native_free - cost) as u128,
                            fee_pot: pot as u128,
                            ..l
                        },
                        Ok(meter),
                    )
                } else {
                    (l, Err(GasPaymentError::WithdrawalRejected))
                }
            },
            Some(fx) => {
                match spec_quote(l.oracle, cost) {
                    None => (l, Err(GasPaymentError::ArithmeticOverflow)),
                    Some(q) => {
                        if q > fx.max_payment as int {
                            (l, Err(GasPaymentError::ExceedsMaxPayment))
                        } else if q > l.asset_free as int {
                            (l, Err(GasPaymentError::InsufficientLiquidity))
                        } else if l.asset_free - q < l.asset_locked as int {
                            (l, Err(GasPaymentError::WithdrawalRejected))
                        } else {
                            (l, Ok(meter))
                        }
                    },
                }
            },
        }
    }
}

/// The settlement phase as a function of the ledger state and the consumed
/// meter: the intent slot is always cleared; with an intent pending the
/// spent cost is purchased in the payment asset (best effort), otherwise the
/// unused remainder of the up-front debit is minted back.
pub open spec fn spec_empty_unused_gas(l: Ledger, meter: GasMeter) -> Ledger {
    let cleared = Ledger { intent: None, ..l };
    match l.intent {
        Some(fx) => {
            if meter.gas_price * meter.gas_spent > u128::MAX as int {
                cleared
            } else {
                spec_buy_fee_asset(cleared, meter.gas_price * meter.gas_spent, fx).0
            }
        },
        None => {
            let refund = meter.gas_price * spec_gas_left(meter);
            if refund > u128::MAX as int {
                cleared
            } else if cleared.native_free + refund > u128::MAX as int {
                Ledger { native_free: u128::MAX, ..cleared }
            } else {
                Ledger { native_free: (cleared.native_free + refund) as u128, ..cleared }
            }
        },
    }
}

impl GasHandler {
    /// Fills the gas meter for a transaction, reserving funds for the full
    /// `gas_limit` before any contract execution. Failures are atomic: the
    /// ledger is left untouched and the sandbox must not run.
    pub fn fill_gas(ledger: &mut Ledger, gas_limit: Gas) -> (r: Result<GasMeter, GasPaymentError>)
        ensures
            *final(ledger) == spec_fill_gas(*old(ledger), gas_limit).0,
            r == spec_fill_gas(*old(ledger), gas_limit).1,
            r is Err ==> *final(ledger) == *old(ledger),
    {
        // Calculate the cost to fill the meter in the native fee currency.
        let gas_price = ledger.gas_price;
        if gas_price == 0 {
            // Gas is free in this configuration, fill the meter.
            return Ok(GasMeter::with_limit(gas_limit, 0));
        }
        let fill_meter_cost = match checked_mul_u128(gas_price, gas_limit as u128) {
            Some(cost) => cost,
            None => {
                return Err(GasPaymentError::ArithmeticOverflow);
            },
        };

        // Check if a fee exchange has been specified for this transaction.
        match ledger.intent {
            None => {
                // The transactor pays for gas in the native fee currency:
                // withdraw the full cost now, under the keep-alive rule, and
                // hand it to the fee-payment sink.
                if fill_meter_cost <= ledger.native_free && ledger.native_free - fill_meter_cost
                    >= ledger.existential_deposit {
                    ledger.native_free = ledger.native_free - fill_meter_cost;
                    ledger.fee_pot = saturating_add_u128(ledger.fee_pot, fill_meter_cost);
                    Ok(GasMeter::with_limit(gas_limit, gas_price))
                } else {
                    Err(GasPaymentError::WithdrawalRejected)
                }
            },
            Some(fee_exchange) => {
                // The transactor pays in a nominated asset: convert the fill
                // cost at the exchange rate.
                let converted_cost = match ledger.oracle.quote(fill_meter_cost) {
                    Some(cost) => cost,
                    None => {
                        return Err(GasPaymentError::ArithmeticOverflow);
                    },
                };

                // Respect the payer's maximum fee preference.
                if converted_cost > fee_exchange.max_payment {
                    return Err(GasPaymentError::ExceedsMaxPayment);
                }

                // The projected balance after paying the converted cost must
                // exist and uphold liquidity restrictions. No balance moves
                // in this phase: the real debit happens at settlement, when
                // the actually spent gas is known, avoiding a refund.
                if converted_cost > ledger.asset_free {
                    return Err(GasPaymentError::InsufficientLiquidity);
                }
                let balance_after_fill = ledger.asset_free - converted_cost;
                if balance_after_fill < ledger.asset_locked {
                    return Err(GasPaymentError::WithdrawalRejected);
                }
                Ok(GasMeter::with_limit(gas_limit, gas_price))
            },
        }
    }

    /// Settles gas usage after contract execution: consumes the transient
    /// intent, and either purchases the spent cost in the nominated asset
    /// (best effort - execution cannot be rolled back, so a late oracle
    /// failure is swallowed) or refunds the unused part of the up-front
    /// native debit.
    pub fn empty_unused_gas(ledger: &mut Ledger, gas_meter: GasMeter)
        ensures
            *final(ledger) == spec_empty_unused_gas(*old(ledger), gas_meter),
            final(ledger).intent is None,
    {
        let gas_left = gas_meter.gas_left();
        let gas_price = gas_meter.gas_price;
        let gas_spent = gas_meter.spent();

        // Taking the intent ensures it is consumed exactly once.
        match ledger.take_intent() {
            Some(fee_exchange) => {
                // Pay for the spent gas in the nominated currency. Payment
                // is expected to succeed, as liquidity was verified before
                // the meter was filled.
                if let Some(used_gas_cost) = checked_mul_u128(gas_price, gas_spent as u128) {
                    let _ = ledger.buy_fee_asset(used_gas_cost, &fee_exchange);
                }
            },
            None => {
                // Refund the unused remainder of the up-front debit by
                // minting it back as native fee currency.
                if let Some(refund) = checked_mul_u128(gas_price, gas_left as u128) {
                    ledger.deposit_creating(refund);
                }
            },
        }
    }
}

/// Division rounding up is monotone in the dividend.
proof fn lemma_ceil_div_ordered(n1: int, n2: int, d: int)
    requires
        0 <= n1 <= n2,
        1 <= d,
    ensures
        spec_ceil_div(n1, d) <= spec_ceil_div(n2, d),
{
    vstd::arithmetic::div_mod::lemma_div_is_ordered(n1, n2, d);
    vstd::arithmetic::div_mod::lemma_fundamental_div_mod(n1, d);
    vstd::arithmetic::div_mod::lemma_fundamental_div_mod(n2, d);
    vstd::arithmetic::div_mod::lemma_mod_bound(n1, d);
    vstd::arithmetic::div_mod::lemma_mod_bound(n2, d);
}

/// With an exchange intent and a positive gas price, settlement after a
/// successful reservation never fails: liquidity for the cost of the full
/// limit was verified before the meter was filled, the spent cost never
/// exceeds it, and no balance moved in between. The payment asset is
/// debited by exactly the quote of the spent cost, which respects the
/// payer's declared cap.
pub proof fn lemma_exchange_settlement_succeeds(l: Ledger, gas_limit: Gas, gas_spent: Gas)
    requires
        l.intent is Some,
        l.gas_price > 0,
        gas_spent <= gas_limit,
        spec_fill_gas(l, gas_limit).1 is Ok,
    ensures
        l.gas_price * gas_spent <= u128::MAX as int,
        spec_quote(l.oracle, l.gas_price * gas_spent) is Some,
        ({
            let filled = spec_fill_gas(l, gas_limit).0;
            let meter = GasMeter { gas_spent, ..spec_fill_gas(l, gas_limit).1->Ok_0 };
            let settled = spec_empty_unused_gas(filled, meter);
            let paid = spec_quote(l.oracle, l.gas_price * gas_spent)->0;
            paid <= l.intent->0.max_payment && settled.asset_free == l.asset_free - paid
        }),
{
    let price = l.gas_price as int;
    let limit = gas_limit as int;
    let spent = gas_spent as int;
    let cost_limit = price * limit;
    let cost_spent = price * spent;
    let num = l.oracle.rate_num as int;
    let den = spec_rate_den(l.oracle);
    assert(0 <= cost_spent <= cost_limit) by (nonlinear_arith)
        requires
            0 < price,
            0 <= spent <= limit,
            cost_spent == price * spent,
            cost_limit == price * limit,
    ;
    // The reservation checked the quote of the full-limit cost; the spent
    // cost is quoted at most as high.
    vstd::arithmetic::mul::lemma_mul_nonnegative(cost_spent, num);
    vstd::arithmetic::mul::lemma_mul_inequality(cost_spent, cost_limit, num);
    lemma_ceil_div_ordered(cost_spent * num, cost_limit * num, den);
}

/// Round trip of the native payment path: for a transaction with no
/// exchange intent, reserving the full limit and then refunding the unused
/// remainder nets to exactly `gas_price * gas_spent` - the withdraw-then-
/// refund cycle neither double-charges nor under-credits.
pub proof fn lemma_native_settlement_round_trip(l: Ledger, gas_limit: Gas, gas_spent: Gas)
    requires
        l.intent is None,
        gas_spent <= gas_limit,
        spec_fill_gas(l, gas_limit).1 is Ok,
    ensures
        ({
            let filled = spec_fill_gas(l, gas_limit).0;
            let meter = GasMeter { gas_spent, ..spec_fill_gas(l, gas_limit).1->Ok_0 };
            let settled = spec_empty_unused_gas(filled, meter);
            l.native_free - settled.native_free == l.gas_price * gas_spent
        }),
{
    let price = l.gas_price as int;
    let limit = gas_limit as int;
    let spent = gas_spent as int;
    if price == 0 {
        let meter = GasMeter { gas_spent, ..spec_fill_gas(l, gas_limit).1->Ok_0 };
        assert(price * spent == 0 && price * limit == 0 && price * (limit - spent) == 0)
            by (nonlinear_arith)
            requires
                price == 0,
        ;
        assert(spec_gas_left(meter) == limit - spent);
    } else {
        let filled = spec_fill_gas(l, gas_limit).0;
        let meter = GasMeter { gas_spent, ..spec_fill_gas(l, gas_limit).1->Ok_0 };
        assert(spec_gas_left(meter) == limit - spent);
        assert(0 <= price * spent <= price * limit && 0 <= price * (limit - spent) <= price * limit
            && price * limit - price * (limit - spent) == price * spent) by (nonlinear_arith)
            requires
                0 < price,
                0 <= spent <= limit,
        ;
        assert(filled.native_free == l.native_free - price * limit);
    }
}

} // verus!
