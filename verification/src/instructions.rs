//! The operations on a surge. Each one decides from the records it is
//! handed, changes them only when it succeeds, and returns the orders that
//! the host has to carry out: the library moves no funds itself.

use crate::accounts::{
    AssetPayment, BuyOrder, Claim, CurrencyTransfer, Deploy, DeployPlan, Fund, IncrementSurgeCounter,
    InitializeSurge, InitializeSurgeCounter, Payout, VaultAuthority, VaultPayment,
};
use crate::address::Address;
use crate::error::ErrorCode;
use crate::shares::{
    creator_fee, fee_of, lemma_fee_within_pool, pro_rata_share, share_of, spend_limit_of,
    CREATOR_FEE_PERCENT,
};
use crate::state::{Receipt, Surge, SurgeCounter};
use vstd::prelude::*;

verus! {

/// What `deploy` returns for each context: the caller is tested first, then
/// the state of the surge, then the fee.
pub open spec fn deploy_outcome(ctx: Deploy, amount_token: u64, max_sol_cost: u64) -> Result<
    DeployPlan,
    ErrorCode,
> {
    if ctx.authority != ctx.surge.authority {
        Err(ErrorCode::NotAuthority)
    } else if ctx.surge.spl_amount > 0 {
        Err(ErrorCode::AlreadyDeployed)
    } else if ctx.surge.amount_deposited * CREATOR_FEE_PERCENT > u64::MAX {
        Err(ErrorCode::Overflow)
    } else {
        Ok(
            DeployPlan {
                buy: BuyOrder {
                    authority: ctx.vault_authority(),
                    mint: ctx.mint,
                    amount_token,
                    max_sol_cost: spend_limit_of(
                        max_sol_cost as int,
                        ctx.surge.amount_deposited as int,
                    ) as u64,
                },
                fee: VaultPayment {
                    authority: ctx.vault_authority(),
                    to: ctx.surge.authority,
                    lamports: fee_of(ctx.surge.amount_deposited as int) as u64,
                },
            },
        )
    }
}

/// Plans the deployment of a surge: the purchase of `amount_token` units of
/// the asset for at most `max_sol_cost`, capped by the pool less the fee,
/// and the payment of the fee to the creator. Only the creator may deploy,
/// and only a surge that holds no asset yet. The records stay as they are:
/// `record_deployment` writes them once the host has carried the plan out.
pub fn deploy(ctx: &Deploy, amount_token: u64, max_sol_cost: u64) -> (result: Result<
    DeployPlan,
    ErrorCode,
>)
    ensures
        result == deploy_outcome(*ctx, amount_token, max_sol_cost),
        ctx.authority != ctx.surge.authority ==> result == Err::<DeployPlan, ErrorCode>(
            ErrorCode::NotAuthority,
        ),
        ctx.surge.spl_amount > 0 ==> result is Err,
        result matches Ok(plan) ==> plan.buy.max_sol_cost <= max_sol_cost && plan.buy.max_sol_cost
            + plan.fee.lamports <= ctx.surge.amount_deposited,
{
    if !ctx.authority.same(&ctx.surge.authority) {
        return Err(ErrorCode::NotAuthority);
    }
    if ctx.surge.spl_amount > 0 {
        return Err(ErrorCode::AlreadyDeployed);
    }
    let creator_fee: u64 = match creator_fee(ctx.surge.amount_deposited) {
        Some(fee) => fee,
        None => {
            return Err(ErrorCode::Overflow);
        },
    };
    proof {
        lemma_fee_within_pool(ctx.surge.amount_deposited as int);
    }
    let deploy_amount: u64 = ctx.surge.amount_deposited - creator_fee;
    let authority = VaultAuthority {
        vault: ctx.pda_vault,
        surge_key: ctx.surge_key,
        bump: ctx.vault_bump,
    };
    let spend: u64 = if max_sol_cost <= deploy_amount {
        max_sol_cost
    } else {
        deploy_amount
    };
    Ok(
        DeployPlan {
            buy: BuyOrder { authority, mint: ctx.mint, amount_token, max_sol_cost: spend },
            fee: VaultPayment { authority, to: ctx.surge.authority, lamports: creator_fee },
        },
    )
}

/// What `record_deployment` does to each context.
pub open spec fn deployment_outcome(ctx: Deploy, vault_token_after: u64, vault_sol_after: u64) -> Result<
    Deploy,
    ErrorCode,
> {
    if ctx.authority != ctx.surge.authority {
        Err(ErrorCode::NotAuthority)
    } else if ctx.surge.spl_amount > 0 {
        Err(ErrorCode::AlreadyDeployed)
    } else if vault_token_after == 0 {
        Err(ErrorCode::NothingBought)
    } else {
        Ok(
            Deploy {
                surge: Surge {
                    spl_amount: vault_token_after,
                    leftover_sol: vault_sol_after,
                    mint: ctx.mint,
                    ..ctx.surge
                },
                ..ctx
            },
        )
    }
}

/// Records a deployment that the host has carried out: the balances of the
/// asset and of the currency that the vault holds after the purchase and the
/// payment of the fee, and the asset that was bought. What the vault holds is
/// taken as the truth, not what was ordered. A vault without any of the asset
/// is a purchase that failed: nothing is recorded, so that the host undoes
/// what it did and the fee is not paid a second time. With the record the
/// surge is deployed. The deposits are not touched.
pub fn record_deployment(ctx: &mut Deploy, vault_token_after: u64, vault_sol_after: u64) -> (result:
    Result<(), ErrorCode>)
    ensures
        match result {
            Ok(_) => deployment_outcome(*old(ctx), vault_token_after, vault_sol_after) == Ok::<
                Deploy,
                ErrorCode,
            >(*final(ctx)),
            Err(code) => deployment_outcome(*old(ctx), vault_token_after, vault_sol_after) == Err::<
                Deploy,
                ErrorCode,
            >(code) && *final(ctx) == *old(ctx),
        },
        old(ctx).authority != old(ctx).surge.authority ==> result == Err::<(), ErrorCode>(
            ErrorCode::NotAuthority,
        ),
        final(ctx).surge.amount_deposited == old(ctx).surge.amount_deposited,
        result is Ok ==> final(ctx).surge.spl_amount > 0,
{
    if !ctx.authority.same(&ctx.surge.authority) {
        return Err(ErrorCode::NotAuthority);
    }
    if ctx.surge.spl_amount > 0 {
        return Err(ErrorCode::AlreadyDeployed);
    }
    if vault_token_after == 0 {
        return Err(ErrorCode::NothingBought);
    }
    ctx.surge.spl_amount = vault_token_after;
    ctx.surge.leftover_sol = vault_sol_after;
    ctx.surge.mint = ctx.mint;
    Ok(())
}

/// The shares of a receipt fit in 64 bits: the surge holds deposits, and
/// neither quotient passes the largest number.
pub open spec fn shares_fit(surge: Surge, receipt: Receipt) -> bool {
    &&& surge.amount_deposited > 0
    &&& share_of(
        receipt.amount_deposited as int,
        surge.spl_amount as int,
        surge.amount_deposited as int,
    ) <= u64::MAX
    &&& share_of(
        receipt.amount_deposited as int,
        surge.leftover_sol as int,
        surge.amount_deposited as int,
    ) <= u64::MAX
}

/// What a claim pays out, where the shares fit.
pub open spec fn payout_of(ctx: Claim) -> Payout {
    Payout {
        asset: AssetPayment {
            authority: ctx.vault_authority(),
            mint: ctx.surge.mint,
            to: ctx.receipt.owner,
            amount: share_of(
                ctx.receipt.amount_deposited as int,
                ctx.surge.spl_amount as int,
                ctx.surge.amount_deposited as int,
            ) as u64,
        },
        currency: VaultPayment {
            authority: ctx.vault_authority(),
            to: ctx.receipt.owner,
            lamports: share_of(
                ctx.receipt.amount_deposited as int,
                ctx.surge.leftover_sol as int,
                ctx.surge.amount_deposited as int,
            ) as u64,
        },
    }
}

/// What `claim` does to each context and what it returns: the tests come in
/// this order, and the first that fails decides.
pub open spec fn claim_outcome(ctx: Claim) -> Result<(Claim, Payout), ErrorCode> {
    if ctx.surge.spl_amount == 0 {
        Err(ErrorCode::ClaimNotOpen)
    } else if ctx.receipt.claimed {
        Err(ErrorCode::AlreadyClaimed)
    } else if ctx.owner != ctx.receipt.owner {
        Err(ErrorCode::NotAuthorizedToClaim)
    } else if ctx.receipt.surge_id != ctx.surge.id {
        Err(ErrorCode::ReceiptMismatch)
    } else if !shares_fit(ctx.surge, ctx.receipt) {
        Err(ErrorCode::Overflow)
    } else {
        Ok((Claim { receipt: Receipt { claimed: true, ..ctx.receipt }, ..ctx }, payout_of(ctx)))
    }
}

/// Pays out the share of one receipt, once. The surge must be deployed, the
/// receipt unclaimed, the caller its owner, and the receipt one of this
/// surge. The contributor gets the rounded-down part of the asset and of the
/// leftover currency that the deposit is of all deposits; the product is
/// formed in 128 bits before it is divided. On success the receipt is marked
/// as claimed; the surge is never changed.
pub fn claim(ctx: &mut Claim) -> (result: Result<Payout, ErrorCode>)
    ensures
        match result {
            Ok(payout) => claim_outcome(*old(ctx)) == Ok::<(Claim, Payout), ErrorCode>(
                (*final(ctx), payout),
            ),
            Err(code) => claim_outcome(*old(ctx)) == Err::<(Claim, Payout), ErrorCode>(code)
                && *final(ctx) == *old(ctx),
        },
        result is Ok ==> final(ctx).receipt.claimed,
        old(ctx).surge.spl_amount > 0 && old(ctx).receipt.claimed ==> result == Err::<
            Payout,
            ErrorCode,
        >(ErrorCode::AlreadyClaimed),
        final(ctx).surge == old(ctx).surge,
{
    if ctx.surge.spl_amount == 0 {
        return Err(ErrorCode::ClaimNotOpen);
    }
    if ctx.receipt.claimed {
        return Err(ErrorCode::AlreadyClaimed);
    }
    if !ctx.owner.same(&ctx.receipt.owner) {
        return Err(ErrorCode::NotAuthorizedToClaim);
    }
    if ctx.receipt.surge_id != ctx.surge.id {
        return Err(ErrorCode::ReceiptMismatch);
    }
    let claim_amount: u64 = match pro_rata_share(
        ctx.receipt.amount_deposited,
        ctx.surge.spl_amount,
        ctx.surge.amount_deposited,
    ) {
        Some(amount) => amount,
        None => {
            return Err(ErrorCode::Overflow);
        },
    };
    let sol_claim_amount: u64 = match pro_rata_share(
        ctx.receipt.amount_deposited,
        ctx.surge.leftover_sol,
        ctx.surge.amount_deposited,
    ) {
        Some(amount) => amount,
        None => {
            return Err(ErrorCode::Overflow);
        },
    };
    let authority = VaultAuthority {
        vault: ctx.pda_vault,
        surge_key: ctx.surge_key,
        bump: ctx.vault_bump,
    };
    let payout = Payout {
        asset: AssetPayment {
            authority,
            mint: ctx.surge.mint,
            to: ctx.receipt.owner,
            amount: claim_amount,
        },
        currency: VaultPayment { authority, to: ctx.receipt.owner, lamports: sol_claim_amount },
    };
    ctx.receipt.claimed = true;
    Ok(payout)
}

/// What `fund` does to each context and what it returns: the tests come in
/// this order, and the first that fails decides.
pub open spec fn fund_outcome(ctx: Fund, amount: u64) -> Result<(Fund, CurrencyTransfer), ErrorCode> {
    if ctx.surge.spl_amount > 0 {
        Err(ErrorCode::DepositsClosed)
    } else if ctx.surge.amount_deposited + amount > ctx.surge.threshold {
        Err(ErrorCode::DepositsClosed)
    } else if ctx.receipt matches Some(held) && !held.filed_under(ctx.surge.id, ctx.signer) {
        Err(ErrorCode::ReceiptMismatch)
    } else if ctx.receipt matches Some(held) && held.amount_deposited + amount > u64::MAX {
        Err(ErrorCode::Overflow)
    } else {
        Ok(
            (
                Fund {
                    receipt: Some(
                        match ctx.receipt {
                            Some(held) => Receipt {
                                amount_deposited: (held.amount_deposited + amount) as u64,
                                ..held
                            },
                            None => Receipt::opened(ctx.surge.id, ctx.signer, amount),
                        },
                    ),
                    surge: Surge {
                        amount_deposited: (ctx.surge.amount_deposited + amount) as u64,
                        ..ctx.surge
                    },
                    ..ctx
                },
                CurrencyTransfer { from: ctx.signer, to: ctx.pda_vault, lamports: amount },
            ),
        )
    }
}

/// Accepts a deposit of `amount` from the signer. A surge that holds the
/// asset takes no deposits, and one that would pass the threshold is refused
/// whole. The deposit is added to the surge and to the signer's receipt,
/// which the first deposit opens; the order returned moves the currency from
/// the signer into the vault. A deposit of zero is accepted and changes no
/// amount.
pub fn fund(ctx: &mut Fund, amount: u64) -> (result: Result<CurrencyTransfer, ErrorCode>)
    ensures
        match result {
            Ok(transfer) => fund_outcome(*old(ctx), amount) == Ok::<
                (Fund, CurrencyTransfer),
                ErrorCode,
            >((*final(ctx), transfer)),
            Err(code) => fund_outcome(*old(ctx), amount) == Err::<
                (Fund, CurrencyTransfer),
                ErrorCode,
            >(code) && *final(ctx) == *old(ctx),
        },
        old(ctx).surge.spl_amount > 0 ==> result == Err::<CurrencyTransfer, ErrorCode>(
            ErrorCode::DepositsClosed,
        ),
        old(ctx).surge.amount_deposited + amount > old(ctx).surge.threshold ==> result == Err::<
            CurrencyTransfer,
            ErrorCode,
        >(ErrorCode::DepositsClosed),
        old(ctx).surge.within_threshold() ==> final(ctx).surge.within_threshold(),
        final(ctx).surge.amount_deposited >= old(ctx).surge.amount_deposited,
{
    if ctx.surge.spl_amount > 0 {
        return Err(ErrorCode::DepositsClosed);
    }
    let total: u64 = match ctx.surge.amount_deposited.checked_add(amount) {
        Some(sum) => sum,
        None => {
            return Err(ErrorCode::DepositsClosed);
        },
    };
    if total > ctx.surge.threshold {
        return Err(ErrorCode::DepositsClosed);
    }
    let receipt = match ctx.receipt {
        Some(held) => {
            if held.surge_id != ctx.surge.id || !held.owner.same(&ctx.signer) {
                return Err(ErrorCode::ReceiptMismatch);
            }
            match held.amount_deposited.checked_add(amount) {
                Some(sum) => Receipt {
                    amount_deposited: sum,
                    vote: held.vote,
                    claimed: held.claimed,
                    owner: held.owner,
                    surge_id: held.surge_id,
                },
                None => {
                    return Err(ErrorCode::Overflow);
                },
            }
        },
        None => Receipt {
            amount_deposited: amount,
            vote: Address::zero(),
            claimed: false,
            owner: ctx.signer,
            surge_id: ctx.surge.id,
        },
    };
    ctx.surge.amount_deposited = total;
    ctx.receipt = Some(receipt);
    Ok(CurrencyTransfer { from: ctx.signer, to: ctx.pda_vault, lamports: amount })
}

/// What `initialize_surge` does to each context.
pub open spec fn initialize_surge_outcome(ctx: InitializeSurge, name: String, threshold: u64) -> Result<
    InitializeSurge,
    ErrorCode,
> {
    if threshold == 0 {
        Err(ErrorCode::InvalidThreshold)
    } else if ctx.surge is Some {
        Err(ErrorCode::AlreadyInitialized)
    } else if ctx.surge_counter.next_surge_id == u64::MAX {
        Err(ErrorCode::Overflow)
    } else {
        Ok(
            InitializeSurge {
                surge_counter: ctx.surge_counter.advanced(),
                surge: Some(
                    Surge {
                        id: ctx.surge_counter.next_surge_id,
                        authority: ctx.signer,
                        name,
                        amount_deposited: 0,
                        threshold,
                        spl_amount: 0,
                        spl_address: Address::zero_value(),
                        mint: Address::zero_value(),
                        leftover_sol: 0,
                        bump: ctx.surge_bump,
                    },
                ),
                ..ctx
            },
        )
    }
}

/// Creates a surge for the signer: it gets the next number of the counter,
/// which advances by one, and starts open with nothing deposited. A
/// threshold of zero is refused, and so is a surge that exists already.
pub fn initialize_surge(ctx: &mut InitializeSurge, name: String, threshold: u64) -> (result: Result<
    (),
    ErrorCode,
>)
    ensures
        match result {
            Ok(_) => initialize_surge_outcome(*old(ctx), name, threshold) == Ok::<
                InitializeSurge,
                ErrorCode,
            >(*final(ctx)),
            Err(code) => initialize_surge_outcome(*old(ctx), name, threshold) == Err::<
                InitializeSurge,
                ErrorCode,
            >(code) && *final(ctx) == *old(ctx),
        },
{
    if threshold == 0 {
        return Err(ErrorCode::InvalidThreshold);
    }
    if ctx.surge.is_some() {
        return Err(ErrorCode::AlreadyInitialized);
    }
    let id: u64 = match ctx.surge_counter.next() {
        Ok(id) => id,
        Err(code) => {
            return Err(code);
        },
    };
    ctx.surge = Some(
        Surge {
            id,
            authority: ctx.signer,
            name,
            amount_deposited: 0,
            threshold,
            spl_amount: 0,
            spl_address: Address::zero(),
            mint: Address::zero(),
            leftover_sol: 0,
            bump: ctx.surge_bump,
        },
    );
    Ok(())
}

/// Creates the counter of surges: the first surge gets the number 1. A
/// counter that exists already is left as it is.
pub fn initialize_surge_counter(ctx: &mut InitializeSurgeCounter) -> (result: Result<(), ErrorCode>)
    ensures
        old(ctx).surge_counter is None ==> result is Ok && *final(ctx) == (InitializeSurgeCounter {
            surge_counter: Some(SurgeCounter { next_surge_id: 1 }),
            ..*old(ctx)
        }),
        old(ctx).surge_counter is Some ==> result == Err::<(), ErrorCode>(
            ErrorCode::AlreadyInitialized,
        ) && *final(ctx) == *old(ctx),
{
    if ctx.surge_counter.is_some() {
        return Err(ErrorCode::AlreadyInitialized);
    }
    ctx.surge_counter = Some(SurgeCounter { next_surge_id: 1 });
    Ok(())
}

/// Advances the counter of surges by one, so that one number is never given
/// out. At the last number of 64 bits the counter stays and the call fails.
pub fn increment_surge_counter(ctx: &mut IncrementSurgeCounter) -> (result: Result<(), ErrorCode>)
    ensures
        old(ctx).surge_counter.next_surge_id < u64::MAX ==> result is Ok && *final(ctx)
            == (IncrementSurgeCounter {
            surge_counter: old(ctx).surge_counter.advanced(),
            ..*old(ctx)
        }),
        old(ctx).surge_counter.next_surge_id == u64::MAX ==> result == Err::<(), ErrorCode>(
            ErrorCode::Overflow,
        ) && *final(ctx) == *old(ctx),
{
    match ctx.surge_counter.next() {
        Ok(_) => Ok(()),
        Err(code) => Err(code),
    }
}

} // verus!
