//! What holds across the operations on one surge: it is deployed at most
//! once, a deployed surge takes no deposits and is never changed again, and
//! every receipt is paid out exactly once.

use crate::accounts::{Claim, Deploy, Fund};
use crate::error::ErrorCode;
use crate::instructions::{
    claim_outcome, deploy_outcome, deployment_outcome, fund_outcome, shares_fit,
};
use crate::shares::lemma_share_within_pool;
use crate::state::{Receipt, Status, Surge};
use vstd::prelude::*;

verus! {

/// Single deployment: once a deployment has been recorded, no second one is
/// planned or recorded for that surge, whoever asks. The creator is told
/// that the surge is deployed already.
pub proof fn lemma_single_deployment(
    first: Deploy,
    vault_token_after: u64,
    vault_sol_after: u64,
    second: Deploy,
    amount_token: u64,
    max_sol_cost: u64,
    second_token_after: u64,
    second_sol_after: u64,
)
    requires
        deployment_outcome(first, vault_token_after, vault_sol_after) matches Ok(recorded)
            && second.surge == recorded.surge,
    ensures
        deploy_outcome(second, amount_token, max_sol_cost) is Err,
        deployment_outcome(second, second_token_after, second_sol_after) is Err,
        second.authority == second.surge.authority ==> deploy_outcome(
            second,
            amount_token,
            max_sol_cost,
        ) == Err::<crate::accounts::DeployPlan, ErrorCode>(ErrorCode::AlreadyDeployed),
{
}

/// Deposit closure: a deployed surge refuses every deposit, and no
/// operation changes it again, so it stays deployed for good.
pub proof fn lemma_deployed_is_final(
    surge: Surge,
    deposit: Fund,
    amount: u64,
    payment: Claim,
    deployment: Deploy,
    vault_token_after: u64,
    vault_sol_after: u64,
)
    requires
        surge.status_of() == Status::Deployed,
        deposit.surge == surge,
        payment.surge == surge,
        deployment.surge == surge,
    ensures
        fund_outcome(deposit, amount) == Err::<(Fund, crate::accounts::CurrencyTransfer), ErrorCode>(
            ErrorCode::DepositsClosed,
        ),
        deployment_outcome(deployment, vault_token_after, vault_sol_after) is Err,
        claim_outcome(payment) matches Ok(paid) ==> paid.0.surge == surge,
{
}

/// The deployment that is recorded closes the deposits: it takes an open
/// surge to a deployed one, with the deposits and the threshold it had
/// before.
pub proof fn lemma_deployment_closes_deposits(
    ctx: Deploy,
    vault_token_after: u64,
    vault_sol_after: u64,
)
    requires
        deployment_outcome(ctx, vault_token_after, vault_sol_after) is Ok,
    ensures
        ({
            let recorded = deployment_outcome(ctx, vault_token_after, vault_sol_after)->Ok_0;
            &&& recorded.surge.status_of() == Status::Deployed
            &&& ctx.surge.status_of() == Status::Open
            &&& recorded.surge.amount_deposited == ctx.surge.amount_deposited
            &&& recorded.surge.threshold == ctx.surge.threshold
            &&& recorded.surge.spl_amount == vault_token_after
            &&& recorded.surge.leftover_sol == vault_sol_after
        }),
{
}

/// The deposits of a surge stay within its threshold: no operation that
/// succeeds takes a surge that is within it past it.
pub proof fn lemma_threshold_is_kept(
    deposit: Fund,
    amount: u64,
    payment: Claim,
    deployment: Deploy,
    vault_token_after: u64,
    vault_sol_after: u64,
)
    ensures
        fund_outcome(deposit, amount) matches Ok(funded) ==> (deposit.surge.within_threshold()
            ==> funded.0.surge.within_threshold()),
        claim_outcome(payment) matches Ok(paid) ==> (payment.surge.within_threshold()
            ==> paid.0.surge.within_threshold()),
        deployment_outcome(deployment, vault_token_after, vault_sol_after) matches Ok(recorded) ==> (
        deployment.surge.within_threshold() ==> recorded.surge.within_threshold()),
{
}

/// A receipt that is part of the deposits of its surge has shares that fit.
pub proof fn lemma_contributor_shares_fit(surge: Surge, receipt: Receipt)
    requires
        0 < surge.amount_deposited,
        receipt.amount_deposited <= surge.amount_deposited,
    ensures
        shares_fit(surge, receipt),
{
    lemma_share_within_pool(
        receipt.amount_deposited as int,
        surge.spl_amount as int,
        surge.amount_deposited as int,
    );
    lemma_share_within_pool(
        receipt.amount_deposited as int,
        surge.leftover_sol as int,
        surge.amount_deposited as int,
    );
}

/// Exactly-once claim: on a deployed surge the owner's first claim of a
/// receipt that is part of the surge's deposits succeeds and pays no more
/// than the vault holds; after it, every claim of that receipt on a deployed
/// surge is refused as already claimed, whoever makes it.
pub proof fn lemma_claim_exactly_once(first: Claim, later: Claim)
    requires
        first.surge.status_of() == Status::Deployed,
        !first.receipt.claimed,
        first.owner == first.receipt.owner,
        first.receipt.surge_id == first.surge.id,
        0 < first.surge.amount_deposited,
        first.receipt.amount_deposited <= first.surge.amount_deposited,
        later.surge.status_of() == Status::Deployed,
        claim_outcome(first) matches Ok(paid) ==> later.receipt == paid.0.receipt,
    ensures
        claim_outcome(first) is Ok,
        ({
            let (after, payout) = claim_outcome(first)->Ok_0;
            &&& after.receipt.claimed
            &&& after.surge == first.surge
            &&& payout.asset.amount <= first.surge.spl_amount
            &&& payout.currency.lamports <= first.surge.leftover_sol
            &&& payout.asset.to == first.receipt.owner
            &&& payout.currency.to == first.receipt.owner
        }),
        claim_outcome(later) == Err::<(Claim, crate::accounts::Payout), ErrorCode>(
            ErrorCode::AlreadyClaimed,
        ),
{
    lemma_contributor_shares_fit(first.surge, first.receipt);
    lemma_share_within_pool(
        first.receipt.amount_deposited as int,
        first.surge.spl_amount as int,
        first.surge.amount_deposited as int,
    );
    lemma_share_within_pool(
        first.receipt.amount_deposited as int,
        first.surge.leftover_sol as int,
        first.surge.amount_deposited as int,
    );
}

/// Authorization: whoever is not the creator gets `NotAuthority` from both
/// halves of a deployment, whatever the state of the surge, and so gets no
/// plan to carry out.
pub proof fn lemma_only_creator_deploys(
    ctx: Deploy,
    amount_token: u64,
    max_sol_cost: u64,
    vault_token_after: u64,
    vault_sol_after: u64,
)
    requires
        ctx.authority != ctx.surge.authority,
    ensures
        deploy_outcome(ctx, amount_token, max_sol_cost) == Err::<
            crate::accounts::DeployPlan,
            ErrorCode,
        >(ErrorCode::NotAuthority),
        deployment_outcome(ctx, vault_token_after, vault_sol_after) == Err::<Deploy, ErrorCode>(
            ErrorCode::NotAuthority,
        ),
{
}

} // verus!
