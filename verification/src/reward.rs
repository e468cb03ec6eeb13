use vstd::prelude::*;
use vstd::arithmetic::mul::lemma_mul_inequality;
use crate::errors::ErrorCode;

verus! {

/// Decimal power that converts a human-readable quantity into the asset's
/// smallest indivisible unit.
pub open spec fn pow10(e: nat) -> nat
    decreases e,
{
    if e == 0 {
        1
    } else {
        10 * pow10((e - 1) as nat)
    }
}

pub proof fn lemma_pow10_positive(e: nat)
    ensures
        pow10(e) >= 1,
    decreases e,
{
    if e > 0 {
        lemma_pow10_positive((e - 1) as nat);
    }
}

pub proof fn lemma_pow10_monotonic(a: nat, b: nat)
    requires
        a <= b,
    ensures
        pow10(a) <= pow10(b),
    decreases b,
{
    if a < b {
        lemma_pow10_monotonic(a, (b - 1) as nat);
        lemma_pow10_positive((b - 1) as nat);
    }
}

/// The reward owed after holding a stake for `elapsed` time units at asset
/// scale `scale`. The staked amount does not enter the formula: equal
/// durations earn equal rewards.
pub open spec fn reward_spec(elapsed: nat, scale: nat) -> nat {
    elapsed * pow10(scale)
}

/// The reward is zero when no time has passed.
pub proof fn lemma_reward_zero(scale: nat)
    ensures
        reward_spec(0, scale) == 0,
{
}

/// The reward never shrinks as more time passes.
pub proof fn lemma_reward_monotonic(e1: nat, e2: nat, scale: nat)
    requires
        e1 <= e2,
    ensures
        reward_spec(e1, scale) <= reward_spec(e2, scale),
{
    lemma_mul_inequality(e1 as int, e2 as int, pow10(scale) as int);
}

/// `10^e`, refusing exponents whose power does not fit in `u64`.
pub fn pow10_checked(e: u8) -> (r: Option<u64>)
    ensures
        r matches Some(v) ==> v == pow10(e as nat),
        r is None ==> pow10(e as nat) > u64::MAX,
{
    let mut acc: u64 = 1;
    let mut i: u8 = 0;
    while i < e
        invariant
            i <= e,
            acc == pow10(i as nat),
        decreases e - i,
    {
        match acc.checked_mul(10) {
            Some(next) => {
                acc = next;
            }
            None => {
                proof {
                    assert(pow10((i + 1) as nat) == 10 * pow10(i as nat));
                    lemma_pow10_monotonic((i + 1) as nat, e as nat);
                }
                return None;
            }
        }
        i = i + 1;
    }
    Some(acc)
}

/// Reward for a stake held `elapsed` time units at scale `asset_scale`,
/// computed with overflow-detecting arithmetic.
pub fn reward(elapsed: u64, asset_scale: u8) -> (r: Result<u64, ErrorCode>)
    ensures
        reward_spec(elapsed as nat, asset_scale as nat) <= u64::MAX ==> r == Ok::<u64, ErrorCode>(
            reward_spec(elapsed as nat, asset_scale as nat) as u64,
        ),
        reward_spec(elapsed as nat, asset_scale as nat) > u64::MAX ==> r == Err::<u64, ErrorCode>(
            ErrorCode::ArithmeticOverflow,
        ),
        elapsed == 0 ==> r == Ok::<u64, ErrorCode>(0u64),
{
    if elapsed == 0 {
        return Ok(0);
    }
    match pow10_checked(asset_scale) {
        None => {
            proof {
                lemma_mul_inequality(1, elapsed as int, pow10(asset_scale as nat) as int);
            }
            Err(ErrorCode::ArithmeticOverflow)
        }
        Some(p) => match elapsed.checked_mul(p) {
            None => Err(ErrorCode::ArithmeticOverflow),
            Some(v) => Ok(v),
        },
    }
}

} // verus!
