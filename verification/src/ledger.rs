//! The book of a surge: the surge together with the receipts of all its
//! contributors, as the host stores them one by one. The book exists in
//! proofs only. It states what holds of a surge and its receipts together,
//! whatever deposits are made and in whatever order.

use crate::accounts::Fund;
use crate::address::Address;
use crate::accounts::InitializeSurge;
use crate::instructions::{fund_outcome, initialize_surge_outcome, shares_fit};
use crate::lifecycle::lemma_contributor_shares_fit;
use crate::shares::{lemma_share_rounds_down, share_of};
use crate::state::{Receipt, Status, Surge};
use vstd::prelude::*;

verus! {

/// Sum of the deposits that the receipts record.
pub open spec fn total_deposited(receipts: Seq<Receipt>) -> int
    decreases receipts.len(),
{
    if receipts.len() == 0 {
        0
    } else {
        total_deposited(receipts.drop_last()) + receipts.last().amount_deposited
    }
}

/// Sum of the shares of `pool` that the receipts are entitled to, each
/// rounded down, where `total` has been deposited in all.
pub open spec fn total_shares(receipts: Seq<Receipt>, pool: int, total: int) -> int
    decreases receipts.len(),
{
    if receipts.len() == 0 {
        0
    } else {
        total_shares(receipts.drop_last(), pool, total) + share_of(
            receipts.last().amount_deposited as int,
            pool,
            total,
        )
    }
}

/// A surge with the receipts of its contributors.
pub struct Book {
    pub surge: Surge,
    pub pda_vault: Address,
    pub receipts: Seq<Receipt>,
}

impl Book {
    /// The surge has recorded exactly what its receipts record.
    pub open spec fn balanced(self) -> bool {
        total_deposited(self.receipts) == self.surge.amount_deposited
    }

    /// Every receipt is one of this surge, and no contributor has two.
    pub open spec fn well_filed(self) -> bool {
        &&& forall|i: int|
            0 <= i < self.receipts.len() ==> (#[trigger] self.receipts[i]).surge_id == self.surge.id
        &&& forall|i: int, j: int|
            0 <= i < j < self.receipts.len() ==> (#[trigger] self.receipts[i]).owner != (
            #[trigger] self.receipts[j]).owner
    }

    /// The contributor has a receipt in the book.
    pub open spec fn holds(self, owner: Address) -> bool {
        exists|i: int| 0 <= i < self.receipts.len() && (#[trigger] self.receipts[i]).owner == owner
    }

    /// Where the receipt of the contributor stands.
    pub open spec fn slot_of(self, owner: Address) -> int {
        choose|i: int| 0 <= i < self.receipts.len() && (#[trigger] self.receipts[i]).owner == owner
    }

    /// What a deposit of `signer` is handed: the surge, and the signer's
    /// receipt if there is one.
    pub open spec fn fund_context(self, signer: Address) -> Fund {
        Fund {
            receipt: if self.holds(signer) {
                Some(self.receipts[self.slot_of(signer)])
            } else {
                None
            },
            signer,
            surge: self.surge,
            pda_vault: self.pda_vault,
        }
    }

    /// The book after `signer` has tried to deposit `amount`: a deposit that
    /// is refused leaves the book as it was.
    pub open spec fn deposit(self, signer: Address, amount: u64) -> Book {
        match fund_outcome(self.fund_context(signer), amount) {
            Ok((after, _)) => Book {
                surge: after.surge,
                receipts: if self.holds(signer) {
                    self.receipts.update(self.slot_of(signer), after.receipt.unwrap())
                } else {
                    self.receipts.push(after.receipt.unwrap())
                },
                ..self
            },
            Err(_) => self,
        }
    }

    /// The book after the deposits have been tried one after the other.
    pub open spec fn replay(self, deposits: Seq<(Address, u64)>) -> Book
        decreases deposits.len(),
    {
        if deposits.len() == 0 {
            self
        } else {
            self.replay(deposits.drop_last()).deposit(deposits.last().0, deposits.last().1)
        }
    }
}

/// A surge starts balanced: as it is created it is open, has recorded
/// nothing, and has no receipts.
pub proof fn lemma_created_surge_is_balanced(
    ctx: InitializeSurge,
    name: String,
    threshold: u64,
    pda_vault: Address,
)
    requires
        initialize_surge_outcome(ctx, name, threshold) is Ok,
    ensures
        ({
            let created = initialize_surge_outcome(ctx, name, threshold)->Ok_0.surge.unwrap();
            let book = Book { surge: created, pda_vault, receipts: Seq::empty() };
            &&& book.balanced()
            &&& book.well_filed()
            &&& created.within_threshold()
            &&& created.status_of() == Status::Open
        }),
{
}

/// Receipts record no negative sum.
pub proof fn lemma_total_is_not_negative(receipts: Seq<Receipt>)
    ensures
        0 <= total_deposited(receipts),
    decreases receipts.len(),
{
    if receipts.len() > 0 {
        lemma_total_is_not_negative(receipts.drop_last());
    }
}

/// No receipt records more than all receipts together.
pub proof fn lemma_receipt_within_total(receipts: Seq<Receipt>, slot: int)
    requires
        0 <= slot < receipts.len(),
    ensures
        receipts[slot].amount_deposited <= total_deposited(receipts),
    decreases receipts.len(),
{
    lemma_total_is_not_negative(receipts.drop_last());
    if slot < receipts.len() - 1 {
        lemma_receipt_within_total(receipts.drop_last(), slot);
    }
}

/// What conservation is for: in a balanced book of a deployed surge that
/// holds deposits, the shares of every receipt fit, and all receipts
/// together are paid no more of the asset and of the currency than the
/// vault held when the deployment was recorded.
pub proof fn lemma_book_pays_within_vault(book: Book)
    requires
        book.balanced(),
        book.surge.status_of() == Status::Deployed,
        0 < book.surge.amount_deposited,
    ensures
        forall|slot: int|
            0 <= slot < book.receipts.len() ==> shares_fit(book.surge, #[trigger] book.receipts[slot]),
        total_shares(
            book.receipts,
            book.surge.spl_amount as int,
            book.surge.amount_deposited as int,
        ) <= book.surge.spl_amount,
        total_shares(
            book.receipts,
            book.surge.leftover_sol as int,
            book.surge.amount_deposited as int,
        ) <= book.surge.leftover_sol,
{
    assert forall|slot: int| 0 <= slot < book.receipts.len() implies shares_fit(
        book.surge,
        #[trigger] book.receipts[slot],
    ) by {
        lemma_receipt_within_total(book.receipts, slot);
        lemma_contributor_shares_fit(book.surge, book.receipts[slot]);
    }
    lemma_shares_within_pool(
        book.receipts,
        book.surge.spl_amount as int,
        book.surge.amount_deposited as int,
    );
    lemma_shares_within_pool(
        book.receipts,
        book.surge.leftover_sol as int,
        book.surge.amount_deposited as int,
    );
}

/// Replacing one receipt changes the sum by the difference of the two.
pub proof fn lemma_total_after_update(receipts: Seq<Receipt>, slot: int, receipt: Receipt)
    requires
        0 <= slot < receipts.len(),
    ensures
        total_deposited(receipts.update(slot, receipt)) == total_deposited(receipts)
            - receipts[slot].amount_deposited + receipt.amount_deposited,
    decreases receipts.len(),
{
    let updated = receipts.update(slot, receipt);
    if slot == receipts.len() - 1 {
        assert(updated.drop_last() =~= receipts.drop_last());
    } else {
        assert(updated.drop_last() =~= receipts.drop_last().update(slot, receipt));
        lemma_total_after_update(receipts.drop_last(), slot, receipt);
    }
}

/// A new receipt adds its deposit to the sum.
pub proof fn lemma_total_after_push(receipts: Seq<Receipt>, receipt: Receipt)
    ensures
        total_deposited(receipts.push(receipt)) == total_deposited(receipts)
            + receipt.amount_deposited,
{
    assert(receipts.push(receipt).drop_last() =~= receipts);
}

/// Conservation, one deposit: if the surge has recorded exactly the sum of
/// its receipts, it still has after any deposit, accepted or refused.
pub proof fn lemma_deposit_keeps_balance(book: Book, signer: Address, amount: u64)
    requires
        book.balanced(),
    ensures
        book.deposit(signer, amount).balanced(),
{
    match fund_outcome(book.fund_context(signer), amount) {
        Ok((after, _)) => {
            if book.holds(signer) {
                lemma_total_after_update(
                    book.receipts,
                    book.slot_of(signer),
                    after.receipt.unwrap(),
                );
            } else {
                lemma_total_after_push(book.receipts, after.receipt.unwrap());
            }
        },
        Err(_) => {},
    }
}

/// Conservation, any deposits: if the surge has recorded exactly the sum of
/// its receipts, it has after every deposit of any sequence of deposits.
pub proof fn lemma_replay_keeps_balance(book: Book, deposits: Seq<(Address, u64)>)
    requires
        book.balanced(),
    ensures
        forall|made: int|
            0 <= made <= deposits.len() ==> (#[trigger] book.replay(deposits.take(made))).balanced(),
{
    assert forall|made: int| 0 <= made <= deposits.len() implies (#[trigger] book.replay(
        deposits.take(made),
    )).balanced() by {
        lemma_replay_ends_balanced(book, deposits.take(made));
    }
}

/// Conservation at the end of a sequence of deposits.
pub proof fn lemma_replay_ends_balanced(book: Book, deposits: Seq<(Address, u64)>)
    requires
        book.balanced(),
    ensures
        book.replay(deposits).balanced(),
    decreases deposits.len(),
{
    if deposits.len() > 0 {
        lemma_replay_ends_balanced(book, deposits.drop_last());
        lemma_deposit_keeps_balance(
            book.replay(deposits.drop_last()),
            deposits.last().0,
            deposits.last().1,
        );
    }
}

/// No deposit takes a surge past its threshold, and none takes anything
/// away from it.
pub proof fn lemma_deposit_keeps_threshold(book: Book, signer: Address, amount: u64)
    requires
        book.surge.within_threshold(),
    ensures
        book.deposit(signer, amount).surge.within_threshold(),
        book.deposit(signer, amount).surge.amount_deposited >= book.surge.amount_deposited,
        book.surge.amount_deposited + amount > book.surge.threshold ==> book.deposit(signer, amount)
            == book,
{
}

/// Every receipt stays one of the surge, and every contributor keeps to one
/// receipt.
pub proof fn lemma_deposit_keeps_filing(book: Book, signer: Address, amount: u64)
    requires
        book.well_filed(),
    ensures
        book.deposit(signer, amount).well_filed(),
{
    let after = book.deposit(signer, amount);
    match fund_outcome(book.fund_context(signer), amount) {
        Ok((funded, _)) => {
            let receipt = funded.receipt.unwrap();
            assert(receipt.owner == signer);
            assert(receipt.surge_id == book.surge.id);
            if book.holds(signer) {
                let slot = book.slot_of(signer);
                assert(book.receipts[slot].owner == signer);
                assert forall|i: int, j: int| 0 <= i < j < after.receipts.len() implies (
                #[trigger] after.receipts[i]).owner != (#[trigger] after.receipts[j]).owner by {
                    assert(after.receipts[i].owner == book.receipts[i].owner);
                    assert(after.receipts[j].owner == book.receipts[j].owner);
                }
            } else {
                assert forall|i: int, j: int| 0 <= i < j < after.receipts.len() implies (
                #[trigger] after.receipts[i]).owner != (#[trigger] after.receipts[j]).owner by {
                    if j == book.receipts.len() {
                        assert(book.receipts[i].owner != signer);
                    } else {
                        assert(after.receipts[i] == book.receipts[i]);
                        assert(after.receipts[j] == book.receipts[j]);
                    }
                }
            }
        },
        Err(_) => {},
    }
}

/// The shares of all receipts together never exceed the pool: every share
/// is rounded down, so what rounding leaves stays in the vault.
pub proof fn lemma_shares_within_pool(receipts: Seq<Receipt>, pool: int, total: int)
    requires
        0 <= pool,
        0 < total,
        total_deposited(receipts) == total,
    ensures
        total_shares(receipts, pool, total) <= pool,
{
    lemma_shares_scaled(receipts, pool, total);
    assert(total_shares(receipts, pool, total) <= pool) by (nonlinear_arith)
        requires
            total_shares(receipts, pool, total) * total <= total * pool,
            0 < total,
    ;
}

/// The shares of the receipts, times the total, do not exceed their
/// deposits times the pool.
pub proof fn lemma_shares_scaled(receipts: Seq<Receipt>, pool: int, total: int)
    requires
        0 < total,
    ensures
        total_shares(receipts, pool, total) * total <= total_deposited(receipts) * pool,
    decreases receipts.len(),
{
    if receipts.len() > 0 {
        let rest = receipts.drop_last();
        let deposit = receipts.last().amount_deposited as int;
        lemma_shares_scaled(rest, pool, total);
        lemma_share_rounds_down(deposit, pool, total);
        assert((total_shares(rest, pool, total) + share_of(deposit, pool, total)) * total
            == total_shares(rest, pool, total) * total + share_of(deposit, pool, total) * total)
            by (nonlinear_arith);
        assert((total_deposited(rest) + deposit) * pool == total_deposited(rest) * pool + deposit
            * pool) by (nonlinear_arith);
    }
}

} // verus!
