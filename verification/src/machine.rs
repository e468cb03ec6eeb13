use vstd::prelude::*;
use crate::authority::{principal_transfer_authority, reward_transfer_authority};
use crate::errors::ErrorCode;
use crate::reward::{pow10, pow10_checked, reward, reward_spec};
use vstd::arithmetic::mul::lemma_mul_inequality;

verus! {

/// Per-participant record of staking state. `staked_at_slot` is meaningful
/// only while `is_staked` holds; it is overwritten on every transition.
#[derive(Clone, Copy, Debug, PartialEq, Eq, Structural)]
pub struct StakeInfo {
    pub staked_at_slot: u64,
    pub is_staked: bool,
}

/// Everything a `stake` call reads and writes, as plain values: the
/// participant's record, the two balances the transfer touches (in the
/// asset's smallest unit) and the asset scale. The host reads these from the
/// ledger before the call and commits them back only when the call returns
/// `Ok`, which keeps each operation atomic.
#[derive(Clone, Copy, Debug, PartialEq, Eq, Structural)]
pub struct Stake {
    pub stake_info: StakeInfo,
    /// Balance of the participant's own wallet.
    pub player_token_account: u64,
    /// Balance of the participant's vault, the escrow holding the principal.
    pub player_stake_token_account: u64,
    /// Decimal scale of the asset.
    pub mint_decimals: u8,
}

/// Everything a `destake` call reads and writes: as [`Stake`], plus the
/// pool's aggregate balance, from which the reward is paid.
#[derive(Clone, Copy, Debug, PartialEq, Eq, Structural)]
pub struct DeStake {
    pub stake_info: StakeInfo,
    /// Balance of the participant's own wallet.
    pub player_token_account: u64,
    /// Balance of the participant's vault, the escrow holding the principal.
    pub player_stake_token_account: u64,
    /// Aggregate balance of the stake pool.
    pub stake_pool_account: u64,
    /// Decimal scale of the asset.
    pub mint_decimals: u8,
}

/// What `initialize` works on: the pool escrow's balance, or `None` while
/// the escrow does not exist yet.
#[derive(Clone, Copy, Debug, PartialEq, Eq)]
pub struct Initialize {
    pub stake_pool_account: Option<u64>,
}

/// Result and post-state of `stake`, as one mathematical function.
pub open spec fn stake_spec(pre: Stake, amount: u64, now: u64) -> (Result<(), ErrorCode>, Stake) {
    let scaled = amount * pow10(pre.mint_decimals as nat);
    if pre.stake_info.is_staked {
        (Err(ErrorCode::AlreadyStaked), pre)
    } else if amount == 0 {
        (Err(ErrorCode::ZeroAmount), pre)
    } else if scaled > u64::MAX {
        (Err(ErrorCode::ArithmeticOverflow), pre)
    } else if scaled > pre.player_token_account
        || pre.player_stake_token_account + scaled > u64::MAX {
        (Err(ErrorCode::LedgerError), pre)
    } else {
        (
            Ok(()),
            Stake {
                stake_info: StakeInfo { staked_at_slot: now, is_staked: true },
                player_token_account: (pre.player_token_account - scaled) as u64,
                player_stake_token_account: (pre.player_stake_token_account + scaled) as u64,
                mint_decimals: pre.mint_decimals,
            },
        )
    }
}

/// Result and post-state of `destake`, as one mathematical function.
pub open spec fn destake_spec(pre: DeStake, now: u64) -> (Result<(), ErrorCode>, DeStake) {
    if !pre.stake_info.is_staked {
        (Err(ErrorCode::NotStaked), pre)
    } else if now < pre.stake_info.staked_at_slot {
        (Err(ErrorCode::InvalidClock), pre)
    } else {
        let owed = reward_spec((now - pre.stake_info.staked_at_slot) as nat, pre.mint_decimals as nat);
        let principal = pre.player_stake_token_account;
        if owed > u64::MAX {
            (Err(ErrorCode::ArithmeticOverflow), pre)
        } else if owed > pre.stake_pool_account {
            (Err(ErrorCode::InsufficientPoolFunds), pre)
        } else if pre.player_token_account + owed + principal > u64::MAX {
            (Err(ErrorCode::LedgerError), pre)
        } else {
            (
                Ok(()),
                DeStake {
                    stake_info: StakeInfo { staked_at_slot: now, is_staked: false },
                    player_token_account: (pre.player_token_account + owed + principal) as u64,
                    player_stake_token_account: 0,
                    stake_pool_account: (pre.stake_pool_account - owed) as u64,
                    mint_decimals: pre.mint_decimals,
                },
            )
        }
    }
}

/// The ledger work a successful `destake` requests, in order: two transfers
/// into the participant's wallet, each given as the quantity moved and the
/// derived identity that authorizes it. The reward leaves the pool under
/// the pool's authority; the principal — the whole vault balance — leaves
/// the vault under that participant's vault authority.
pub open spec fn destake_settlement(
    pre: DeStake,
    now: u64,
    program_id: Seq<u8>,
    participant: Seq<u8>,
) -> Seq<(nat, Option<(Seq<u8>, u8)>)> {
    let owed = reward_spec((now - pre.stake_info.staked_at_slot) as nat, pre.mint_decimals as nat);
    seq![
        (owed, reward_transfer_authority(program_id)),
        (pre.player_stake_token_account as nat, principal_transfer_authority(
            program_id,
            participant,
        )),
    ]
}

/// Law: the balance movements of a successful `destake` are exactly its two
/// authorized transfers. The pool's decrease is the first transfer's
/// quantity, authorized by the pool's derived authority; the vault empties
/// by the second, authorized by the participant's vault authority; and the
/// wallet gains the sum of the two.
pub proof fn lemma_destake_settles_by_authorized_transfers(
    pre: DeStake,
    now: u64,
    program_id: Seq<u8>,
    participant: Seq<u8>,
)
    requires
        destake_spec(pre, now).0 is Ok,
    ensures
        ({
            let post = destake_spec(pre, now).1;
            let transfers = destake_settlement(pre, now, program_id, participant);
            &&& transfers.len() == 2
            &&& transfers[0].0 == pre.stake_pool_account - post.stake_pool_account
            &&& transfers[0].1 == reward_transfer_authority(program_id)
            &&& transfers[1].0 == pre.player_stake_token_account
            &&& transfers[1].1 == principal_transfer_authority(program_id, participant)
            &&& post.player_stake_token_account == 0
            &&& post.player_token_account == pre.player_token_account + transfers[0].0
                + transfers[1].0
        }),
{
}

/// A participant's vault holds escrowed principal only while a stake is
/// active: whenever no stake is active, the vault is empty.
pub open spec fn escrow_consistent(info: StakeInfo, vault: u64) -> bool {
    !info.is_staked ==> vault == 0
}

/// Law: `stake` preserves the vault invariant, whatever its outcome.
pub proof fn lemma_stake_preserves_escrow_consistency(pre: Stake, amount: u64, now: u64)
    requires
        escrow_consistent(pre.stake_info, pre.player_stake_token_account),
    ensures
        ({
            let post = stake_spec(pre, amount, now).1;
            escrow_consistent(post.stake_info, post.player_stake_token_account)
        }),
{
}

/// Law: `destake` preserves the vault invariant, whatever its outcome.
pub proof fn lemma_destake_preserves_escrow_consistency(pre: DeStake, now: u64)
    requires
        escrow_consistent(pre.stake_info, pre.player_stake_token_account),
    ensures
        ({
            let post = destake_spec(pre, now).1;
            escrow_consistent(post.stake_info, post.player_stake_token_account)
        }),
{
}

/// The view a `destake` call has of the world that a `stake` call left
/// behind, once the pool's aggregate balance is read in beside it.
pub open spec fn with_pool(s: Stake, pool: u64) -> DeStake {
    DeStake {
        stake_info: s.stake_info,
        player_token_account: s.player_token_account,
        player_stake_token_account: s.player_stake_token_account,
        stake_pool_account: pool,
        mint_decimals: s.mint_decimals,
    }
}

/// Law: a successful `stake(amount)` at time `t0` followed by a successful
/// `destake` at time `t1 >= t0` returns the vault to zero, pays the
/// participant's wallet the scaled principal `amount * 10^scale` plus the
/// reward `(t1 - t0) * 10^scale`, drains exactly the reward from the pool,
/// and leaves the participant unstaked.
pub proof fn lemma_stake_destake_round_trip(pre: Stake, pool: u64, amount: u64, t0: u64, t1: u64)
    requires
        pre.player_stake_token_account == 0,
        t0 <= t1,
        stake_spec(pre, amount, t0).0 is Ok,
        destake_spec(with_pool(stake_spec(pre, amount, t0).1, pool), t1).0 is Ok,
    ensures
        ({
            let staked = stake_spec(pre, amount, t0).1;
            let settled = destake_spec(with_pool(staked, pool), t1).1;
            let scaled = amount * pow10(pre.mint_decimals as nat);
            let owed = reward_spec((t1 - t0) as nat, pre.mint_decimals as nat);
            &&& staked.player_token_account == pre.player_token_account - scaled
            &&& staked.player_stake_token_account == scaled
            &&& settled.player_stake_token_account == 0
            &&& settled.player_token_account == staked.player_token_account + scaled + owed
            &&& settled.player_token_account == pre.player_token_account + owed
            &&& settled.stake_pool_account == pool - owed
            &&& !settled.stake_info.is_staked
        }),
{
}

/// Ensure the pool escrow exists: create it empty if absent, leave it
/// untouched if present. Idempotent and infallible.
pub fn initialize(ctx: &mut Initialize) -> (r: Result<(), ErrorCode>)
    ensures
        r == Ok::<(), ErrorCode>(()),
        final(ctx).stake_pool_account is Some,
        old(ctx).stake_pool_account is Some ==> *final(ctx) == *old(ctx),
        old(ctx).stake_pool_account is None ==> final(ctx).stake_pool_account == Some(0u64),
{
    if ctx.stake_pool_account.is_none() {
        ctx.stake_pool_account = Some(0);
    }
    Ok(())
}

/// Lock `amount` units of the asset: move `amount * 10^scale` smallest units
/// from the participant's wallet into the participant's vault and record the
/// staking time. Fails, changing nothing, when a stake is already active,
/// the amount is zero, the scaling overflows, or the ledger refuses the
/// transfer.
pub fn stake(ctx: &mut Stake, amount: u64, now: u64) -> (r: Result<(), ErrorCode>)
    ensures
        (r, *final(ctx)) == stake_spec(*old(ctx), amount, now),
        r is Err ==> *final(ctx) == *old(ctx),
        old(ctx).stake_info.is_staked ==> r == Err::<(), ErrorCode>(ErrorCode::AlreadyStaked),
        !old(ctx).stake_info.is_staked && amount == 0 ==> r == Err::<(), ErrorCode>(
            ErrorCode::ZeroAmount,
        ),
        !old(ctx).stake_info.is_staked && amount > 0 && amount * pow10(
            old(ctx).mint_decimals as nat,
        ) > u64::MAX ==> r == Err::<(), ErrorCode>(ErrorCode::ArithmeticOverflow),
        r is Ok ==> {
            &&& final(ctx).stake_info.is_staked
            &&& final(ctx).stake_info.staked_at_slot == now
            &&& final(ctx).player_stake_token_account == old(ctx).player_stake_token_account
                + amount * pow10(old(ctx).mint_decimals as nat)
            &&& final(ctx).player_token_account == old(ctx).player_token_account - amount * pow10(
                old(ctx).mint_decimals as nat,
            )
        },
{
    if ctx.stake_info.is_staked {
        return Err(ErrorCode::AlreadyStaked);
    }
    if amount == 0 {
        return Err(ErrorCode::ZeroAmount);
    }
    let power = match pow10_checked(ctx.mint_decimals) {
        None => {
            proof {
                lemma_mul_inequality(1, amount as int, pow10(ctx.mint_decimals as nat) as int);
            }
            return Err(ErrorCode::ArithmeticOverflow);
        }
        Some(p) => p,
    };
    let scaled = match amount.checked_mul(power) {
        None => {
            return Err(ErrorCode::ArithmeticOverflow);
        }
        Some(s) => s,
    };
    if scaled > ctx.player_token_account {
        return Err(ErrorCode::LedgerError);
    }
    let new_vault = match ctx.player_stake_token_account.checked_add(scaled) {
        None => {
            return Err(ErrorCode::LedgerError);
        }
        Some(v) => v,
    };
    ctx.player_token_account = ctx.player_token_account - scaled;
    ctx.player_stake_token_account = new_vault;
    ctx.stake_info.staked_at_slot = now;
    ctx.stake_info.is_staked = true;
    Ok(())
}

/// Release an active stake: pay `(now - staked_at) * 10^scale` reward from
/// the pool and return the whole vault balance as principal, both into the
/// participant's wallet, then mark the record unstaked. The host executes
/// the two movements as ledger transfers authorized by the pool's and the
/// participant's vault derived authorities, as [`destake_settlement`]
/// states. Fails, changing nothing, when no stake is active, the clock ran
/// backwards, the reward computation overflows, the pool cannot cover the
/// reward, or the ledger refuses a transfer.
pub fn destake(ctx: &mut DeStake, now: u64) -> (r: Result<(), ErrorCode>)
    ensures
        (r, *final(ctx)) == destake_spec(*old(ctx), now),
        r is Err ==> *final(ctx) == *old(ctx),
        !old(ctx).stake_info.is_staked ==> r == Err::<(), ErrorCode>(ErrorCode::NotStaked),
        old(ctx).stake_info.is_staked && now < old(ctx).stake_info.staked_at_slot ==> r == Err::<
            (),
            ErrorCode,
        >(ErrorCode::InvalidClock),
        old(ctx).stake_info.is_staked && now >= old(ctx).stake_info.staked_at_slot && reward_spec(
            (now - old(ctx).stake_info.staked_at_slot) as nat,
            old(ctx).mint_decimals as nat,
        ) > u64::MAX ==> r == Err::<(), ErrorCode>(ErrorCode::ArithmeticOverflow),
        r is Ok ==> {
            &&& !final(ctx).stake_info.is_staked
            &&& final(ctx).stake_info.staked_at_slot == now
            &&& final(ctx).player_stake_token_account == 0
            &&& final(ctx).player_token_account == old(ctx).player_token_account + reward_spec(
                (now - old(ctx).stake_info.staked_at_slot) as nat,
                old(ctx).mint_decimals as nat,
            ) + old(ctx).player_stake_token_account
            &&& final(ctx).stake_pool_account == old(ctx).stake_pool_account - reward_spec(
                (now - old(ctx).stake_info.staked_at_slot) as nat,
                old(ctx).mint_decimals as nat,
            )
        },
{
    if !ctx.stake_info.is_staked {
        return Err(ErrorCode::NotStaked);
    }
    if now < ctx.stake_info.staked_at_slot {
        return Err(ErrorCode::InvalidClock);
    }
    let elapsed = now - ctx.stake_info.staked_at_slot;
    let owed = match reward(elapsed, ctx.mint_decimals) {
        Err(e) => {
            return Err(e);
        }
        Ok(v) => v,
    };
    if owed > ctx.stake_pool_account {
        return Err(ErrorCode::InsufficientPoolFunds);
    }
    let principal = ctx.player_stake_token_account;
    let with_reward = match ctx.player_token_account.checked_add(owed) {
        None => {
            return Err(ErrorCode::LedgerError);
        }
        Some(v) => v,
    };
    let new_wallet = match with_reward.checked_add(principal) {
        None => {
            return Err(ErrorCode::LedgerError);
        }
        Some(v) => v,
    };
    ctx.player_token_account = new_wallet;
    ctx.player_stake_token_account = 0;
    ctx.stake_pool_account = ctx.stake_pool_account - owed;
    ctx.stake_info.staked_at_slot = now;
    ctx.stake_info.is_staked = false;
    Ok(())
}

} // verus!
