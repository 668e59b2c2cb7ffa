//! From a credit history to the amount that an auction is held for.

use vstd::prelude::*;
use vstd::arithmetic::div_mod::lemma_fundamental_div_mod;

verus! {

/// One credit of a client.
#[derive(Clone, Copy, Debug, PartialEq, Eq, Structural)]
pub struct Credit {
    /// The amount of money.
    pub sum: u128,
    /// The interest rate.
    pub interest_rate: u128,
    /// The time to close the credit, in months.
    pub time: u128,
    /// Whether the credit has been closed.
    pub is_closed: bool,
}

/// The credit history of a client.
#[derive(Clone, Debug, PartialEq, Eq)]
pub struct History {
    /// What the client owes at present.
    pub debts: Option<u128>,
    /// All credits of the client.
    pub credits: Vec<Credit>,
}

/// A credit that someone proposes to grant.
#[derive(Clone, Copy, Debug, PartialEq, Eq, Structural)]
pub struct Proposal {
    pub sum: u128,
    pub interest_rate: u128,
    pub time: u128,
}

/// The hours of a month of thirty days.
pub const HOURS_PER_MONTH: u128 = 720;

/// The tokens that a credit of `sum` at `interest_rate` over `time` months is worth: the
/// interest per hour of its term.
pub open spec fn credit_tokens(sum: u128, interest_rate: u128, time: u128) -> int {
    (sum * interest_rate) / (time * HOURS_PER_MONTH)
}

/// Whether the worth of such a credit can be computed: its term is not zero, and neither
/// product leaves the range of the machine's numbers.
pub open spec fn credit_fits(sum: u128, interest_rate: u128, time: u128) -> bool {
    time > 0 && sum * interest_rate <= u128::MAX && time * HOURS_PER_MONTH <= u128::MAX
}

/// The worth of a credit; `None` where it cannot be computed.
pub fn credit_worth(sum: u128, interest_rate: u128, time: u128) -> (r: Option<u128>)
    ensures
        r == (if credit_fits(sum, interest_rate, time) {
            Some(credit_tokens(sum, interest_rate, time) as u128)
        } else {
            None
        }),
{
    if time == 0 {
        return None;
    }
    let product = match sum.checked_mul(interest_rate) {
        Some(v) => v,
        None => {
            return None;
        },
    };
    let hours = match time.checked_mul(HOURS_PER_MONTH) {
        Some(v) => v,
        None => {
            return None;
        },
    };
    Some(product / hours)
}

/// The balance of a history in tokens: closed credits count for the client, open ones
/// against.
pub open spec fn token_balance(s: Seq<Credit>) -> int
    decreases s.len(),
{
    if s.len() == 0 {
        0
    } else {
        let c = s.last();
        let worth = credit_tokens(c.sum, c.interest_rate, c.time);
        token_balance(s.drop_last()) + if c.is_closed {
            worth
        } else {
            -worth
        }
    }
}

/// Whether the balance of a history can be computed credit by credit: every credit's worth
/// can, and the balance never leaves the range of a signed 128-bit number on the way.
pub open spec fn tokens_computable(s: Seq<Credit>) -> bool
    decreases s.len(),
{
    s.len() == 0 || {
        let c = s.last();
        &&& tokens_computable(s.drop_last())
        &&& credit_fits(c.sum, c.interest_rate, c.time)
        &&& i128::MIN <= token_balance(s) <= i128::MAX
    }
}

/// A history whose balance can be computed has no beginning whose balance cannot.
pub proof fn lemma_tokens_computable_prefix(s: Seq<Credit>, k: int)
    requires
        tokens_computable(s),
        0 <= k <= s.len(),
    ensures
        tokens_computable(s.take(k)),
    decreases s.len(),
{
    if k == s.len() {
        assert(s.take(k) =~= s);
    } else {
        lemma_tokens_computable_prefix(s.drop_last(), k);
        assert(s.drop_last().take(k) =~= s.take(k));
    }
}

/// The sale tokens that a credit history is good for: its balance, where that can be
/// computed and is not negative.
pub fn convert_to_tokens(history: &Vec<Credit>) -> (r: Option<u128>)
    ensures
        r == (if tokens_computable(history@) && token_balance(history@) >= 0 {
            Some(token_balance(history@) as u128)
        } else {
            None
        }),
{
    let mut tokens: i128 = 0;
    let mut i: usize = 0;
    while i < history.len()
        invariant
            i <= history.len(),
            tokens_computable(history@.take(i as int)),
            tokens == token_balance(history@.take(i as int)),
        decreases history.len() - i,
    {
        let c = history[i];
        proof {
            assert(history@.take(i + 1).drop_last() =~= history@.take(i as int));
            if tokens_computable(history@) {
                lemma_tokens_computable_prefix(history@, i + 1);
            }
        }
        let worth = match credit_worth(c.sum, c.interest_rate, c.time) {
            Some(v) => v,
            None => {
                return None;
            },
        };
        let next = if c.is_closed {
            tokens.checked_add_unsigned(worth)
        } else {
            tokens.checked_sub_unsigned(worth)
        };
        match next {
            Some(v) => {
                tokens = v;
            },
            None => {
                return None;
            },
        }
        i = i + 1;
    }
    assert(history@.take(history.len() as int) =~= history@);
    if tokens < 0 {
        None
    } else {
        Some(tokens as u128)
    }
}

/// The largest power of ten that is not greater than `n`.
pub open spec fn leading_power_of_ten(n: nat) -> nat
    decreases n,
{
    if n < 10 {
        1
    } else {
        10 * leading_power_of_ten(n / 10)
    }
}

/// The largest power of ten that is not greater than `n`: a one followed by as many zeros as
/// `n` has digits after its first.
pub fn perfect_proposal(n: u128) -> (r: u128)
    requires
        n > 0,
    ensures
        r == leading_power_of_ten(n as nat),
        r <= n,
{
    let mut power: u128 = 1;
    let mut rest: u128 = n;
    while rest >= 10
        invariant
            rest > 0,
            power > 0,
            power * rest <= n,
            leading_power_of_ten(n as nat) == power * leading_power_of_ten(rest as nat),
        decreases rest,
    {
        proof {
            let p = power as int;
            let q = (rest / 10) as int;
            let t = rest as int;
            let l = leading_power_of_ten((rest / 10) as nat) as int;
            assert(10 * q <= t);
            assert(p * 10 * q <= p * t) by (nonlinear_arith)
                requires
                    10 * q <= t,
                    p > 0,
            ;
            assert(p * 10 <= p * 10 * q) by (nonlinear_arith)
                requires
                    q >= 1,
                    p > 0,
            ;
            assert(p * (10 * l) == (p * 10) * l) by (nonlinear_arith);
        }
        power = power * 10;
        rest = rest / 10;
    }
    assert(power * rest >= power) by (nonlinear_arith)
        requires
            rest >= 1,
            power > 0,
    ;
    assert(power * 1 == power) by (nonlinear_arith);
    power
}

/// The highest bid that an auction accepts where a client who expects a credit of
/// `expected` offers to pay back `payment`.
pub open spec fn estimation(payment: u128, expected: u128, mul: u128) -> int {
    (payment / expected) * mul + payment % expected
}

/// The highest bid that an auction accepts; `None` where nothing is expected or the result
/// leaves the range of the machine's numbers.
pub fn calculate_estimation(payment: u128, expected: u128, mul: u128) -> (r: Option<u128>)
    ensures
        r == (if expected > 0 && estimation(payment, expected, mul) <= u128::MAX {
            Some(estimation(payment, expected, mul) as u128)
        } else {
            None
        }),
{
    if expected == 0 {
        return None;
    }
    let rest = payment % expected;
    match (payment / expected).checked_mul(mul) {
        Some(v) => v.checked_add(rest),
        None => {
            assert((payment / expected) * mul + rest > u128::MAX);
            None
        },
    }
}

/// The weight of a credit in a score.
pub open spec fn credit_weight(c: Credit) -> int {
    c.sum * c.interest_rate * c.time
}

/// Whether the weight of a credit stays in the range of the machine's numbers.
pub open spec fn weight_fits(c: Credit) -> bool {
    c.sum * c.interest_rate <= u128::MAX && c.sum * c.interest_rate * c.time <= u128::MAX
}

/// The balance of a history by weight: closed credits count for the client, open ones
/// against.
pub open spec fn weight_balance(s: Seq<Credit>) -> int
    decreases s.len(),
{
    if s.len() == 0 {
        0
    } else {
        weight_balance(s.drop_last()) + if s.last().is_closed {
            credit_weight(s.last())
        } else {
            -credit_weight(s.last())
        }
    }
}

/// Whether the balance by weight can be computed credit by credit.
pub open spec fn weights_computable(s: Seq<Credit>) -> bool
    decreases s.len(),
{
    s.len() == 0 || {
        &&& weights_computable(s.drop_last())
        &&& weight_fits(s.last())
        &&& i128::MIN <= weight_balance(s) <= i128::MAX
    }
}

/// A history whose balance by weight can be computed has no beginning whose balance cannot.
pub proof fn lemma_weights_computable_prefix(s: Seq<Credit>, k: int)
    requires
        weights_computable(s),
        0 <= k <= s.len(),
    ensures
        weights_computable(s.take(k)),
    decreases s.len(),
{
    if k == s.len() {
        assert(s.take(k) =~= s);
    } else {
        lemma_weights_computable_prefix(s.drop_last(), k);
        assert(s.drop_last().take(k) =~= s.take(k));
    }
}

/// The balance of a history by weight; `None` where it cannot be computed.
pub fn history_weight(credits: &Vec<Credit>) -> (r: Option<i128>)
    ensures
        r == (if weights_computable(credits@) {
            Some(weight_balance(credits@) as i128)
        } else {
            None
        }),
{
    let mut total: i128 = 0;
    let mut i: usize = 0;
    while i < credits.len()
        invariant
            i <= credits.len(),
            weights_computable(credits@.take(i as int)),
            total == weight_balance(credits@.take(i as int)),
        decreases credits.len() - i,
    {
        let c = credits[i];
        proof {
            assert(credits@.take(i + 1).drop_last() =~= credits@.take(i as int));
            if weights_computable(credits@) {
                lemma_weights_computable_prefix(credits@, i + 1);
            }
        }
        let product = match c.sum.checked_mul(c.interest_rate) {
            Some(v) => v,
            None => {
                return None;
            },
        };
        let weight = match product.checked_mul(c.time) {
            Some(v) => v,
            None => {
                return None;
            },
        };
        let next = if c.is_closed {
            total.checked_add_unsigned(weight)
        } else {
            total.checked_sub_unsigned(weight)
        };
        match next {
            Some(v) => {
                total = v;
            },
            None => {
                return None;
            },
        }
        i = i + 1;
    }
    assert(credits@.take(credits.len() as int) =~= credits@);
    Some(total)
}

/// The points of a client: half of a positive balance by weight, rounded up; less a third
/// of the debts, the remainder added; plus a fifth of `mul` for every credit, the remainder
/// added.
pub open spec fn score_points(debts: Option<u128>, credits: Seq<Credit>, mul: u128) -> int {
    let balance = weight_balance(credits);
    let earned = if balance > 0 {
        balance / 2 + balance % 2
    } else {
        0
    };
    let owed = match debts {
        Some(d) => d / 3 + d % 3,
        None => 0,
    };
    let base = (credits.len() * mul) / 5 + (credits.len() * mul) % 5;
    earned - owed + base
}

/// The score that `points` amount to on the scale `mul`.
pub open spec fn score_of(points: int, mul: u128) -> int {
    (points / (mul as int) + points % (mul as int)) / 100
}

/// Whether a client has a score: the scale is not zero, the balance by weight can be
/// computed, the scale times the number of credits stays in the range of the machine's
/// numbers, and the points are not negative and stay in that range too.
pub open spec fn score_computable(debts: Option<u128>, credits: Seq<Credit>, mul: u128) -> bool {
    &&& mul > 0
    &&& weights_computable(credits)
    &&& credits.len() * mul <= u128::MAX
    &&& 0 <= score_points(debts, credits, mul) <= i128::MAX
}

/// The score of a client on the scale `mul`: `None` where the client has none, and where
/// the score is zero.
pub fn calculate_score(history: &History, mul: u128) -> (r: Option<u128>)
    ensures
        r == (if score_computable(history.debts, history.credits@, mul) && score_of(
            score_points(history.debts, history.credits@, mul),
            mul,
        ) > 0 {
            Some(score_of(score_points(history.debts, history.credits@, mul), mul) as u128)
        } else {
            None
        }),
{
    if mul == 0 {
        return None;
    }
    let balance = match history_weight(&history.credits) {
        Some(v) => v,
        None => {
            return None;
        },
    };
    let mut score: i128 = 0;
    if balance > 0 {
        let b = balance as u128;
        score = (b / 2 + b % 2) as i128;
    }
    if let Some(d) = history.debts {
        let owed: u128 = d / 3 + d % 3;
        match score.checked_sub_unsigned(owed) {
            Some(v) => {
                score = v;
            },
            None => {
                return None;
            },
        }
    }
    let scaled = match (history.credits.len() as u128).checked_mul(mul) {
        Some(v) => v,
        None => {
            return None;
        },
    };
    let base: u128 = scaled / 5 + scaled % 5;
    match score.checked_add_unsigned(base) {
        Some(v) => {
            score = v;
        },
        None => {
            return None;
        },
    }
    if score < 0 {
        return None;
    }
    let points = score as u128;
    proof {
        lemma_fundamental_div_mod(points as int, mul as int);
        let q = (points / mul) as int;
        let m = mul as int;
        assert(m * q >= q) by (nonlinear_arith)
            requires
                m >= 1,
                q >= 0,
        ;
    }
    let result = (points / mul + points % mul) / 100;
    if result == 0 {
        None
    } else {
        Some(result)
    }
}

/// What a proposal is worth as a bid against a lot of `required_amount`: its worth, where
/// that is less than the lot.
pub open spec fn proposal_bid(required_amount: u128, proposal: Proposal) -> Option<u128> {
    let worth = credit_tokens(proposal.sum, proposal.interest_rate, proposal.time);
    if worth < required_amount {
        Some(worth as u128)
    } else {
        None
    }
}

} // verus!
