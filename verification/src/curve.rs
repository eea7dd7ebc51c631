//! Swap calculations and curve implementations.
//!
//! The two Newton solvers below are specified by spec functions that state,
//! step by checked step, the value each solver returns; the executable code
//! is proved to return exactly that value.  Both solvers are pure functions
//! of their arguments, so equal inputs always produce equal outputs.

use vstd::arithmetic::div_mod::{
    lemma_basic_div, lemma_div_basics_1, lemma_div_basics_3, lemma_div_basics_4,
    lemma_div_by_multiple, lemma_div_is_ordered,
};
use vstd::arithmetic::mul::lemma_mul_is_commutative;
use vstd::pervasive::unreached;
use vstd::prelude::*;

use crate::bn::{
    nat_checked_add, nat_checked_div, nat_checked_mul, nat_checked_sub, opt_value, u256_bound,
    U256,
};
use crate::error::SwapError;

verus! {

/// Number of pooled assets; both solvers are specialized to exactly two.
const N_COINS: u64 = 2;

/// Upper bound on Newton iterations when solving for the invariant `D`.
pub const MAX_ITERATIONS_D: usize = 256;

/// Upper bound on Newton iterations when solving for the balance `y`.
pub const MAX_ITERATIONS_Y: usize = 128;

/// The absolute difference of two naturals.
pub open spec fn abs_diff(a: nat, b: nat) -> nat {
    if a >= b {
        (a - b) as nat
    } else {
        (b - a) as nat
    }
}

/// One Newton update for `D`: the next iterate
/// `d * (2 * d_p + ann * sum_x) / ((ann - 1) * d + 3 * d_p)` with
/// `ann = 2 * amp`, or `None` when a checked step fails.
pub open spec fn spec_next_d(amp: nat, d: nat, d_p: nat, sum_x: nat) -> Option<nat> {
    match nat_checked_mul(amp, 2) {
        None => None,
        Some(ann) => match nat_checked_mul(ann, sum_x) {
            None => None,
            Some(leverage) => match nat_checked_mul(d_p, 2) {
                None => None,
                Some(d_p_doubled) => match nat_checked_add(d_p_doubled, leverage) {
                    None => None,
                    Some(numerator_inner) => match nat_checked_mul(d, numerator_inner) {
                        None => None,
                        Some(numerator) => match nat_checked_sub(ann, 1) {
                            None => None,
                            Some(ann_minus_one) => match nat_checked_mul(d, ann_minus_one) {
                                None => None,
                                Some(d_scaled) => match nat_checked_mul(d_p, 3) {
                                    None => None,
                                    Some(d_p_tripled) => match nat_checked_add(
                                        d_scaled,
                                        d_p_tripled,
                                    ) {
                                        None => None,
                                        Some(denominator) => nat_checked_div(
                                            numerator,
                                            denominator,
                                        ),
                                    },
                                },
                            },
                        },
                    },
                },
            },
        },
    }
}

/// The Newton iteration for `D`, run for at most `iters` more steps from the
/// current iterate `d`.  Each step recomputes
/// `d_p = d^3 / (scaled_a * scaled_b)` by two truncating divisions, takes one
/// update, and stops as soon as two consecutive iterates differ by at most
/// one unit; the final iterate is returned even when that tolerance was
/// never reached.
pub open spec fn spec_d_iterations(
    amp: nat,
    scaled_a: nat,
    scaled_b: nat,
    sum_x: nat,
    d: nat,
    iters: nat,
) -> Option<nat>
    decreases iters,
{
    if iters == 0 {
        Some(d)
    } else {
        match nat_checked_mul(d, d) {
            None => None,
            Some(d_squared) => match nat_checked_div(d_squared, scaled_a) {
                None => None,
                Some(partial) => match nat_checked_mul(partial, d) {
                    None => None,
                    Some(partial_cubed) => match nat_checked_div(partial_cubed, scaled_b) {
                        None => None,
                        Some(d_p) => match spec_next_d(amp, d, d_p, sum_x) {
                            None => None,
                            Some(d_next) => if abs_diff(d_next, d) <= 1 {
                                Some(d_next)
                            } else {
                                spec_d_iterations(
                                    amp,
                                    scaled_a,
                                    scaled_b,
                                    sum_x,
                                    d_next,
                                    (iters - 1) as nat,
                                )
                            },
                        },
                    },
                },
            },
        }
    }
}

/// The invariant `D` of the curve for balances `amount_a` and `amount_b` and
/// amplification coefficient `amp`: zero for the empty pool, and otherwise
/// the value the bounded Newton iteration converges to, starting from the
/// sum of the balances.  Absent whenever a checked step fails, in particular
/// when exactly one balance is zero (a division by zero) or the balances are
/// large enough to overflow 256-bit intermediates.
pub open spec fn spec_compute_d(amp: nat, amount_a: nat, amount_b: nat) -> Option<nat> {
    match nat_checked_add(amount_a, amount_b) {
        None => None,
        Some(sum_x) => if sum_x == 0 {
            Some(0)
        } else {
            match nat_checked_mul(amount_a, 2) {
                None => None,
                Some(scaled_a) => match nat_checked_mul(amount_b, 2) {
                    None => None,
                    Some(scaled_b) => spec_d_iterations(
                        amp,
                        scaled_a,
                        scaled_b,
                        sum_x,
                        sum_x,
                        MAX_ITERATIONS_D as nat,
                    ),
                },
            }
        },
    }
}

/// The Newton iteration for `y`, solving `y^2 + b * y = c`, run for at most
/// `iters` more steps from the current iterate `y`.  Each step takes
/// `y_next = (y^2 + c) / (2 * y + b - d)` and stops as soon as two
/// consecutive iterates differ by at most one unit; the final iterate is
/// returned even when that tolerance was never reached.
pub open spec fn spec_y_iterations(c: nat, b: nat, d: nat, y: nat, iters: nat) -> Option<nat>
    decreases iters,
{
    if iters == 0 {
        Some(y)
    } else {
        match nat_checked_mul(y, y) {
            None => None,
            Some(y_squared) => match nat_checked_add(y_squared, c) {
                None => None,
                Some(numerator) => match nat_checked_mul(y, 2) {
                    None => None,
                    Some(y_doubled) => match nat_checked_add(y_doubled, b) {
                        None => None,
                        Some(partial_den) => match nat_checked_sub(partial_den, d) {
                            None => None,
                            Some(denominator) => match nat_checked_div(numerator, denominator) {
                                None => None,
                                Some(y_next) => if abs_diff(y_next, y) <= 1 {
                                    Some(y_next)
                                } else {
                                    spec_y_iterations(c, b, d, y_next, (iters - 1) as nat)
                                },
                            },
                        },
                    },
                },
            },
        }
    }
}

/// The post-trade balance `y` of the outgoing asset implied by holding `d`
/// constant when the incoming asset's balance becomes `x`: the value the
/// bounded Newton iteration for `y^2 + b * y = c` converges to, with
/// `c = d^3 / (4 * x * ann)` and `b = d / ann + x` for `ann = 2 * amp`,
/// starting from `y = d`.  Absent whenever a checked step fails.
pub open spec fn spec_compute_y(amp: nat, x: nat, d: nat) -> Option<nat> {
    match nat_checked_mul(amp, 2) {
        None => None,
        Some(ann) => match nat_checked_mul(d, d) {
            None => None,
            Some(d_squared) => match nat_checked_mul(d_squared, d) {
                None => None,
                Some(d_cubed) => match nat_checked_mul(x, 2) {
                    None => None,
                    Some(x_doubled) => match nat_checked_mul(x_doubled, 2) {
                        None => None,
                        Some(x_quadrupled) => match nat_checked_mul(x_quadrupled, ann) {
                            None => None,
                            Some(c_denominator) => match nat_checked_div(d_cubed, c_denominator) {
                                None => None,
                                Some(c) => match nat_checked_div(d, ann) {
                                    None => None,
                                    Some(d_over_ann) => match nat_checked_add(d_over_ann, x) {
                                        None => None,
                                        Some(b) => spec_y_iterations(
                                            c,
                                            b,
                                            d,
                                            d,
                                            MAX_ITERATIONS_Y as nat,
                                        ),
                                    },
                                },
                            },
                        },
                    },
                },
            },
        },
    }
}

/// The pre-fee output of a swap: the amount `dy = swap_dest - y` that leaves
/// the pool before the fee is taken.  Absent whenever a checked step fails.
pub open spec fn spec_pre_fee_output(
    amp: nat,
    source_amount: nat,
    swap_source: nat,
    swap_dest: nat,
) -> Option<nat> {
    match nat_checked_add(swap_source, source_amount) {
        None => None,
        Some(new_source) => match spec_compute_d(amp, swap_source, swap_dest) {
            None => None,
            Some(d) => match spec_compute_y(amp, new_source, d) {
                None => None,
                Some(y) => nat_checked_sub(swap_dest, y),
            },
        },
    }
}

/// The complete swap result `(new_source, new_destination, amount_swapped)`:
/// the pre-fee output `dy`, reduced by the truncated fee
/// `dy * fee_num / fee_den`, leaves the destination balance, and the traded
/// amount joins the source balance.  Absent whenever a checked step fails.
pub open spec fn spec_swap_to(
    amp: nat,
    source_amount: nat,
    swap_source: nat,
    swap_dest: nat,
    fee_num: nat,
    fee_den: nat,
) -> Option<(nat, nat, nat)> {
    match nat_checked_add(swap_source, source_amount) {
        None => None,
        Some(new_source) => match spec_pre_fee_output(amp, source_amount, swap_source, swap_dest) {
            None => None,
            Some(dy) => match nat_checked_mul(dy, fee_num) {
                None => None,
                Some(dy_scaled) => match nat_checked_div(dy_scaled, fee_den) {
                    None => None,
                    Some(dy_fee) => match nat_checked_sub(dy, dy_fee) {
                        None => None,
                        Some(amount_swapped) => match nat_checked_sub(swap_dest, amount_swapped) {
                            None => None,
                            Some(new_dest) => Some((new_source, new_dest, amount_swapped)),
                        },
                    },
                },
            },
        },
    }
}

/// The proportional redemption `pool_tokens * balance / supply`, with the
/// multiplication performed first and checked; absent when it overflows or
/// when the supply is zero.
pub open spec fn spec_token_rate(pool_tokens: nat, balance: nat, supply: nat) -> Option<nat> {
    match nat_checked_mul(pool_tokens, balance) {
        None => None,
        Some(scaled) => nat_checked_div(scaled, supply),
    }
}

/// Encodes all results of swapping from a source token to a destination token.
#[derive(Clone, Copy, Debug, PartialEq, Eq, Structural)]
pub struct SwapResult {
    /// New amount of source token.
    pub new_source_amount: U256,
    /// New amount of destination token.
    pub new_destination_amount: U256,
    /// Amount of destination token swapped.
    pub amount_swapped: U256,
}

/// The model of an optional [`SwapResult`] as its three values.
pub open spec fn swap_result_model(r: Option<SwapResult>) -> Option<(nat, nat, nat)> {
    match r {
        Some(res) => Some(
            (res.new_source_amount@, res.new_destination_amount@, res.amount_swapped@),
        ),
        None => None,
    }
}

/// The stable-swap invariant calculator.
pub struct StableSwap {
    /// Amplification coefficient (A).
    pub amp_factor: U256,
}

impl StableSwap {
    /// New stable-swap calculator.
    pub fn new(amp_factor_u64: u64) -> (r: Result<StableSwap, SwapError>)
        ensures
            r matches Ok(s) && s.amp_factor@ == amp_factor_u64 as nat,
    {
        let amp_factor = U256::from_u64(amp_factor_u64);
        Ok(StableSwap { amp_factor })
    }

    /// One Newton update for `D`.
    fn compute_next_d(&self, initial_d: U256, d_p: U256, sum_x: U256) -> (r: Option<U256>)
        ensures
            opt_value(r) == spec_next_d(self.amp_factor@, initial_d@, d_p@, sum_x@),
    {
        let coins = U256::from_u64(N_COINS);
        let ann = match self.amp_factor.checked_mul(coins) {
            Some(v) => v,
            None => { return None; },
        };
        let leverage = match ann.checked_mul(sum_x) {
            Some(v) => v,
            None => { return None; },
        };
        let d_p_doubled = match d_p.checked_mul(coins) {
            Some(v) => v,
            None => { return None; },
        };
        let numerator_inner = match d_p_doubled.checked_add(leverage) {
            Some(v) => v,
            None => { return None; },
        };
        let numerator = match initial_d.checked_mul(numerator_inner) {
            Some(v) => v,
            None => { return None; },
        };
        let ann_minus_one = match ann.checked_sub(U256::from_u64(1)) {
            Some(v) => v,
            None => { return None; },
        };
        let d_scaled = match initial_d.checked_mul(ann_minus_one) {
            Some(v) => v,
            None => { return None; },
        };
        let d_p_tripled = match d_p.checked_mul(U256::from_u64(N_COINS + 1)) {
            Some(v) => v,
            None => { return None; },
        };
        let denominator = match d_scaled.checked_add(d_p_tripled) {
            Some(v) => v,
            None => { return None; },
        };
        numerator.checked_div(denominator)
    }

    /// Compute the stable-swap invariant (D).
    ///
    /// Equation: `A * sum(x_i) * n^n + D = A * D * n^n + D^(n+1) / (n^n * prod(x_i))`.
    #[verifier::loop_isolation(false)]
    pub fn compute_d(&self, amount_a: U256, amount_b: U256) -> (r: Option<U256>)
        ensures
            opt_value(r) == spec_compute_d(self.amp_factor@, amount_a@, amount_b@),
            amount_a@ + amount_b@ == 0 ==> (r matches Some(d) && d@ == 0),
            amount_a@ + amount_b@ >= u256_bound() ==> r is None,
    {
        let sum_x = match amount_a.checked_add(amount_b) {
            Some(v) => v,
            None => { return None; },
        };
        if sum_x.is_zero() {
            return Some(U256::from_u64(0));
        }
        let coins = U256::from_u64(N_COINS);
        let scaled_a = match amount_a.checked_mul(coins) {
            Some(v) => v,
            None => { return None; },
        };
        let scaled_b = match amount_b.checked_mul(coins) {
            Some(v) => v,
            None => { return None; },
        };

        let mut d = sum_x;
        let mut i: usize = 0;
        while i < MAX_ITERATIONS_D
            invariant
                i <= MAX_ITERATIONS_D,
                spec_compute_d(self.amp_factor@, amount_a@, amount_b@) == spec_d_iterations(
                    self.amp_factor@,
                    scaled_a@,
                    scaled_b@,
                    sum_x@,
                    d@,
                    (MAX_ITERATIONS_D - i) as nat,
                ),
            decreases MAX_ITERATIONS_D - i,
        {
            let d_squared = match d.checked_mul(d) {
                Some(v) => v,
                None => { return None; },
            };
            let partial = match d_squared.checked_div(scaled_a) {
                Some(v) => v,
                None => { return None; },
            };
            let partial_cubed = match partial.checked_mul(d) {
                Some(v) => v,
                None => { return None; },
            };
            let d_p = match partial_cubed.checked_div(scaled_b) {
                Some(v) => v,
                None => { return None; },
            };
            let d_next = match self.compute_next_d(d, d_p, sum_x) {
                Some(v) => v,
                None => { return None; },
            };
            let diff = match d_next.checked_sub(d) {
                Some(v) => v,
                None => match d.checked_sub(d_next) {
                    Some(v) => v,
                    None => unreached(),
                },
            };
            if diff.at_most_one() {
                return Some(d_next);
            }
            d = d_next;
            i = i + 1;
        }
        Some(d)
    }

    /// Compute the swap amount `y` in proportion to `x`.
    ///
    /// Solves for `y`:
    /// `y^2 + y * (sum' - (A * n^n - 1) * D / (A * n^n)) = D^(n+1) / (n^(2n) * prod' * A)`,
    /// written as `y^2 + b * y = c`.
    #[verifier::loop_isolation(false)]
    pub fn compute_y(&self, x: U256, d: U256) -> (r: Option<U256>)
        ensures
            opt_value(r) == spec_compute_y(self.amp_factor@, x@, d@),
    {
        let coins = U256::from_u64(N_COINS);
        let ann = match self.amp_factor.checked_mul(coins) {
            Some(v) => v,
            None => { return None; },
        };
        let d_squared = match d.checked_mul(d) {
            Some(v) => v,
            None => { return None; },
        };
        let d_cubed = match d_squared.checked_mul(d) {
            Some(v) => v,
            None => { return None; },
        };
        let x_doubled = match x.checked_mul(coins) {
            Some(v) => v,
            None => { return None; },
        };
        let x_quadrupled = match x_doubled.checked_mul(coins) {
            Some(v) => v,
            None => { return None; },
        };
        let c_denominator = match x_quadrupled.checked_mul(ann) {
            Some(v) => v,
            None => { return None; },
        };
        let c = match d_cubed.checked_div(c_denominator) {
            Some(v) => v,
            None => { return None; },
        };
        let d_over_ann = match d.checked_div(ann) {
            Some(v) => v,
            None => { return None; },
        };
        let b = match d_over_ann.checked_add(x) {
            Some(v) => v,
            None => { return None; },
        };

        let mut y = d;
        let mut i: usize = 0;
        while i < MAX_ITERATIONS_Y
            invariant
                i <= MAX_ITERATIONS_Y,
                spec_compute_y(self.amp_factor@, x@, d@) == spec_y_iterations(
                    c@,
                    b@,
                    d@,
                    y@,
                    (MAX_ITERATIONS_Y - i) as nat,
                ),
            decreases MAX_ITERATIONS_Y - i,
        {
            let y_squared = match y.checked_mul(y) {
                Some(v) => v,
                None => { return None; },
            };
            let numerator = match y_squared.checked_add(c) {
                Some(v) => v,
                None => { return None; },
            };
            let y_doubled = match y.checked_mul(coins) {
                Some(v) => v,
                None => { return None; },
            };
            let partial_den = match y_doubled.checked_add(b) {
                Some(v) => v,
                None => { return None; },
            };
            let denominator = match partial_den.checked_sub(d) {
                Some(v) => v,
                None => { return None; },
            };
            let y_next = match numerator.checked_div(denominator) {
                Some(v) => v,
                None => { return None; },
            };
            let diff = match y_next.checked_sub(y) {
                Some(v) => v,
                None => match y.checked_sub(y_next) {
                    Some(v) => v,
                    None => unreached(),
                },
            };
            if diff.at_most_one() {
                return Some(y_next);
            }
            y = y_next;
            i = i + 1;
        }
        Some(y)
    }

    /// Compute the [`SwapResult`] after an exchange.
    pub fn swap_to(
        &self,
        source_amount: U256,
        swap_source_amount: U256,
        swap_destination_amount: U256,
        fee_numerator: U256,
        fee_denominator: U256,
    ) -> (r: Option<SwapResult>)
        ensures
            swap_result_model(r) == spec_swap_to(
                self.amp_factor@,
                source_amount@,
                swap_source_amount@,
                swap_destination_amount@,
                fee_numerator@,
                fee_denominator@,
            ),
            r matches Some(res) ==> {
                &&& res.new_source_amount@ == swap_source_amount@ + source_amount@
                &&& res.new_destination_amount@ == swap_destination_amount@
                    - res.amount_swapped@
                &&& res.amount_swapped@ <= swap_destination_amount@
            },
    {
        let new_source_amount = match swap_source_amount.checked_add(source_amount) {
            Some(v) => v,
            None => { return None; },
        };
        let d = match self.compute_d(swap_source_amount, swap_destination_amount) {
            Some(v) => v,
            None => { return None; },
        };
        let y = match self.compute_y(new_source_amount, d) {
            Some(v) => v,
            None => { return None; },
        };
        let dy = match swap_destination_amount.checked_sub(y) {
            Some(v) => v,
            None => { return None; },
        };
        let dy_scaled = match dy.checked_mul(fee_numerator) {
            Some(v) => v,
            None => { return None; },
        };
        let dy_fee = match dy_scaled.checked_div(fee_denominator) {
            Some(v) => v,
            None => { return None; },
        };
        let amount_swapped = match dy.checked_sub(dy_fee) {
            Some(v) => v,
            None => { return None; },
        };
        let new_destination_amount = match swap_destination_amount.checked_sub(amount_swapped) {
            Some(v) => v,
            None => { return None; },
        };
        Some(
            SwapResult {
                new_source_amount,
                new_destination_amount,
                amount_swapped,
            },
        )
    }
}

/// Conservation law: whenever a swap succeeds, the new source balance is
/// exactly the old one plus the traded amount, the new destination balance
/// is exactly the old one minus the delivered amount, and the delivered
/// amount never exceeds the old destination balance.
pub proof fn lemma_swap_conservation(
    amp: nat,
    source_amount: nat,
    swap_source: nat,
    swap_dest: nat,
    fee_num: nat,
    fee_den: nat,
)
    ensures
        spec_swap_to(amp, source_amount, swap_source, swap_dest, fee_num, fee_den) matches Some(r)
            ==> {
            &&& r.0 == swap_source + source_amount
            &&& r.1 == swap_dest - r.2
            &&& r.2 <= swap_dest
        },
{
}

/// Fee bound law: whenever a swap succeeds, the delivered amount never
/// exceeds the pre-fee output `dy`, and the two are equal exactly when the
/// truncated fee `dy * fee_num / fee_den` comes to zero units, which always
/// holds for a zero fee numerator.
pub proof fn lemma_swap_fee_bound(
    amp: nat,
    source_amount: nat,
    swap_source: nat,
    swap_dest: nat,
    fee_num: nat,
    fee_den: nat,
)
    ensures
        spec_swap_to(amp, source_amount, swap_source, swap_dest, fee_num, fee_den) matches Some(r)
            ==> (spec_pre_fee_output(amp, source_amount, swap_source, swap_dest) matches Some(dy)
            && r.2 <= dy && (fee_num == 0 ==> r.2 == dy) && (dy * fee_num < fee_den
            ==> r.2 == dy) && (dy * fee_num >= fee_den ==> r.2 < dy)),
{
    let swapped = spec_swap_to(amp, source_amount, swap_source, swap_dest, fee_num, fee_den);
    if swapped is Some {
        let r = swapped->Some_0;
        let dy = spec_pre_fee_output(amp, source_amount, swap_source, swap_dest)->Some_0;
        let dy_fee = (dy * fee_num) / fee_den;
        assert(fee_den > 0);
        assert(r.2 == dy - dy_fee);
        assert(r.2 <= dy) by {
            lemma_div_basics_4((dy * fee_num) as int, fee_den as int);
        }
        if fee_num == 0 {
            assert(dy * fee_num == 0) by (nonlinear_arith)
                requires fee_num == 0,
            ;
            lemma_div_basics_1(fee_den as int);
            assert(dy_fee == 0);
        }
        if dy * fee_num < fee_den {
            lemma_basic_div((dy * fee_num) as int, fee_den as int);
            assert(dy_fee == 0);
        } else {
            lemma_div_is_ordered(fee_den as int, (dy * fee_num) as int, fee_den as int);
            lemma_div_basics_3(fee_den as int);
            assert(dy_fee >= 1);
        }
    }
}

/// Zero-balance law: for every amplification coefficient, the invariant of
/// the empty pool is zero.
pub proof fn lemma_compute_d_empty_pool(amp: nat)
    ensures
        spec_compute_d(amp, 0, 0) == Some(0nat),
{
}

/// Conversions for pool tokens: how much to deposit or withdraw, along with
/// proper initialization.
pub struct PoolTokenConverter {
    /// Total supply.
    pub supply: U256,
    /// Token A amount.
    pub token_a: U256,
    /// Token B amount.
    pub token_b: U256,
}

impl PoolTokenConverter {
    /// Create a converter based on existing market information.
    pub fn new(supply: U256, token_a: U256, token_b: U256) -> (r: Self)
        ensures
            r.supply@ == supply@,
            r.token_a@ == token_a@,
            r.token_b@ == token_b@,
    {
        Self { supply, token_a, token_b }
    }

    /// A tokens for pool tokens.
    pub fn token_a_rate(&self, pool_tokens: U256) -> (r: Option<U256>)
        ensures
            opt_value(r) == spec_token_rate(pool_tokens@, self.token_a@, self.supply@),
    {
        let scaled = match pool_tokens.checked_mul(self.token_a) {
            Some(v) => v,
            None => { return None; },
        };
        scaled.checked_div(self.supply)
    }

    /// B tokens for pool tokens.
    pub fn token_b_rate(&self, pool_tokens: U256) -> (r: Option<U256>)
        ensures
            opt_value(r) == spec_token_rate(pool_tokens@, self.token_b@, self.supply@),
    {
        let scaled = match pool_tokens.checked_mul(self.token_b) {
            Some(v) => v,
            None => { return None; },
        };
        scaled.checked_div(self.supply)
    }
}

/// Converter identity law: redeeming pool tokens equal to the whole supply
/// returns the whole balance exactly, for any positive supply whose product
/// with the balance fits in 256 bits.
pub proof fn lemma_token_rate_whole_supply(supply: nat, balance: nat)
    requires
        supply > 0,
        supply * balance < u256_bound(),
    ensures
        spec_token_rate(supply, balance, supply) == Some(balance),
{
    lemma_mul_is_commutative(supply as int, balance as int);
    lemma_div_by_multiple(balance as int, supply as int);
}

} // verus!
