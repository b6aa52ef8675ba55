//! Derived addresses. The records of a surge and its vault live at addresses
//! computed from seeds and the program's own address, so any party can find
//! them again and nobody holds a key for them.

use crate::address::Address;
use anchor_lang::solana_program::pubkey::Pubkey;
use vstd::prelude::*;

verus! {

/// A derived address together with the bump seed that completes its seeds.
#[derive(Clone, Copy, Debug, PartialEq, Eq)]
pub struct Derived {
    pub address: Address,
    pub bump: u8,
}

/// The address and bump seed that `Pubkey::try_find_program_address` finds
/// for these seeds under this program, `None` where it finds none.
pub uninterp spec fn derived_address(seeds: Seq<Seq<u8>>, program_id: Seq<u8>) -> Option<
    (Seq<u8>, u8),
>;

/// `found` is what the derivation gives for `seeds` under `program_id`.
pub open spec fn derives(found: Option<Derived>, seeds: Seq<Seq<u8>>, program_id: Seq<u8>) -> bool {
    match found {
        Some(derived) => derived_address(seeds, program_id) == Some(
            (derived.address@, derived.bump),
        ),
        None => derived_address(seeds, program_id) is None,
    }
}

/// The seeds held by `seeds`, each as a sequence of bytes.
pub open spec fn seeds_view(seeds: &Vec<Vec<u8>>) -> Seq<Seq<u8>> {
    Seq::new(seeds@.len(), |i: int| seeds@[i]@)
}

/// Calls `Pubkey::try_find_program_address`. Trusted: the result is the one
/// that function computes from the seeds and the program's address alone (a
/// hash and a curve test, with no other input), and the function returns
/// `None` instead of panicking where the seeds are too many or too long.
#[verifier::external_body]
fn try_find_program_address(seeds: &Vec<Vec<u8>>, program_id: &Address) -> (found: Option<Derived>)
    ensures
        found is None ==> derived_address(seeds_view(seeds), program_id@) is None,
        found matches Some(derived) ==> derived_address(seeds_view(seeds), program_id@) == Some(
            (derived.address@, derived.bump),
        ),
{
    let parts: Vec<&[u8]> = seeds.iter().map(|seed| seed.as_slice()).collect();
    let program = Pubkey::new_from_array(program_id.bytes);
    Pubkey::try_find_program_address(&parts, &program).map(
        |(key, bump)| Derived { address: Address { bytes: key.to_bytes() }, bump },
    )
}

/// The bytes of `value`, least significant first, `count` of them.
pub open spec fn le_digits(value: nat, count: nat) -> Seq<u8>
    decreases count,
{
    if count == 0 {
        Seq::empty()
    } else {
        seq![(value % 256) as u8] + le_digits(value / 256, (count - 1) as nat)
    }
}

/// The eight bytes of a 64-bit number, least significant first.
pub open spec fn le_bytes(value: u64) -> Seq<u8> {
    le_digits(value as nat, 8)
}

/// Writes a 64-bit number as eight bytes, least significant first.
pub fn u64_le_bytes(value: u64) -> (bytes: Vec<u8>)
    ensures
        bytes@ == le_bytes(value),
        bytes@.len() == 8,
{
    let mut bytes: Vec<u8> = Vec::new();
    let mut rest: u64 = value;
    let mut i: usize = 0;
    while i < 8
        invariant
            i <= 8,
            bytes@.len() == i,
            bytes@ + le_digits(rest as nat, (8 - i) as nat) == le_bytes(value),
        decreases 8 - i,
    {
        let ghost before = bytes@;
        let ghost tail = le_digits(rest as nat / 256, (8 - i - 1) as nat);
        let digit: u8 = (rest % 256) as u8;
        bytes.push(digit);
        proof {
            assert(le_digits(rest as nat, (8 - i) as nat) == seq![digit] + tail);
            assert(bytes@ + tail =~= before + (seq![digit] + tail));
        }
        rest = rest / 256;
        i += 1;
    }
    assert(bytes@ + le_digits(rest as nat, 0) =~= bytes@);
    bytes
}

/// Tag that opens the seeds of the counter of surges: the text `SURGE_COUNTER`.
pub open spec fn surge_counter_tag() -> Seq<u8> {
    seq![83u8, 85u8, 82u8, 71u8, 69u8, 95u8, 67u8, 79u8, 85u8, 78u8, 84u8, 69u8, 82u8]
}

/// Tag that opens the seeds of a surge: the text `SURGE`.
pub open spec fn surge_tag() -> Seq<u8> {
    seq![83u8, 85u8, 82u8, 71u8, 69u8]
}

/// Tag that opens the seeds of a vault: the text `VAULT`.
pub open spec fn vault_tag() -> Seq<u8> {
    seq![86u8, 65u8, 85u8, 76u8, 84u8]
}

/// Seeds of the one counter of surges.
pub open spec fn surge_counter_seeds() -> Seq<Seq<u8>> {
    seq![surge_counter_tag()]
}

/// Seeds of the surge that `authority` created under the number `id`.
pub open spec fn surge_seeds(authority: Seq<u8>, id: u64) -> Seq<Seq<u8>> {
    seq![surge_tag(), authority, le_bytes(id)]
}

/// Seeds of the vault of the surge stored at `surge_key`.
pub open spec fn vault_seeds(surge_key: Seq<u8>) -> Seq<Seq<u8>> {
    seq![vault_tag(), surge_key]
}

/// Seeds of the receipt of `owner` in the surge numbered `surge_id`.
pub open spec fn receipt_seeds(owner: Seq<u8>, surge_id: u64) -> Seq<Seq<u8>> {
    seq![owner, le_bytes(surge_id)]
}

/// Seeds with which the program signs for the vault: the vault's seeds and
/// its bump seed.
pub open spec fn vault_signer_seeds(surge_key: Seq<u8>, bump: u8) -> Seq<Seq<u8>> {
    seq![vault_tag(), surge_key, seq![bump]]
}

fn surge_counter_tag_bytes() -> (tag: Vec<u8>)
    ensures
        tag@ == surge_counter_tag(),
{
    let tag: Vec<u8> = vec![83u8, 85u8, 82u8, 71u8, 69u8, 95u8, 67u8, 79u8, 85u8, 78u8, 84u8, 69u8, 82u8];
    assert(tag@ =~= surge_counter_tag());
    tag
}

fn surge_tag_bytes() -> (tag: Vec<u8>)
    ensures
        tag@ == surge_tag(),
{
    let tag: Vec<u8> = vec![83u8, 85u8, 82u8, 71u8, 69u8];
    assert(tag@ =~= surge_tag());
    tag
}

fn vault_tag_bytes() -> (tag: Vec<u8>)
    ensures
        tag@ == vault_tag(),
{
    let tag: Vec<u8> = vec![86u8, 65u8, 85u8, 76u8, 84u8];
    assert(tag@ =~= vault_tag());
    tag
}

/// Builds the seeds with which the program signs for the vault of the surge
/// stored at `surge_key`.
pub fn signer_seeds_of_vault(surge_key: &Address, bump: u8) -> (seeds: Vec<Vec<u8>>)
    ensures
        seeds_view(&seeds) == vault_signer_seeds(surge_key@, bump),
{
    let bump_seed: Vec<u8> = vec![bump];
    let seeds: Vec<Vec<u8>> = vec![vault_tag_bytes(), surge_key.to_vec(), bump_seed];
    assert(bump_seed@ =~= seq![bump]);
    assert(seeds_view(&seeds) =~= vault_signer_seeds(surge_key@, bump));
    seeds
}

/// Finds the address of the one counter of surges under `program_id`.
pub fn surge_counter_address(program_id: &Address) -> (found: Option<Derived>)
    ensures
        derives(found, surge_counter_seeds(), program_id@),
{
    let seeds: Vec<Vec<u8>> = vec![surge_counter_tag_bytes()];
    assert(seeds_view(&seeds) =~= surge_counter_seeds());
    try_find_program_address(&seeds, program_id)
}

/// Finds the address of the surge that `authority` created under the number
/// `id`.
pub fn surge_address(authority: &Address, id: u64, program_id: &Address) -> (found: Option<Derived>)
    ensures
        derives(found, surge_seeds(authority@, id), program_id@),
{
    let seeds: Vec<Vec<u8>> = vec![surge_tag_bytes(), authority.to_vec(), u64_le_bytes(id)];
    assert(seeds_view(&seeds) =~= surge_seeds(authority@, id));
    try_find_program_address(&seeds, program_id)
}

/// Finds the address of the vault of the surge stored at `surge_key`.
pub fn vault_address(surge_key: &Address, program_id: &Address) -> (found: Option<Derived>)
    ensures
        derives(found, vault_seeds(surge_key@), program_id@),
{
    let seeds: Vec<Vec<u8>> = vec![vault_tag_bytes(), surge_key.to_vec()];
    assert(seeds_view(&seeds) =~= vault_seeds(surge_key@));
    try_find_program_address(&seeds, program_id)
}

/// Finds the address of the receipt of `owner` in the surge numbered
/// `surge_id`.
pub fn receipt_address(owner: &Address, surge_id: u64, program_id: &Address) -> (found: Option<
    Derived,
>)
    ensures
        derives(found, receipt_seeds(owner@, surge_id), program_id@),
{
    let seeds: Vec<Vec<u8>> = vec![owner.to_vec(), u64_le_bytes(surge_id)];
    assert(seeds_view(&seeds) =~= receipt_seeds(owner@, surge_id));
    try_find_program_address(&seeds, program_id)
}

/// Whether a derivation that gave `found` confirms `candidate` with `bump`.
pub open spec fn confirms(found: Option<Derived>, candidate: Seq<u8>, bump: u8) -> bool {
    found matches Some(derived) && derived.address@ == candidate && derived.bump == bump
}

/// Tests the outcome of a derivation against an address and a bump seed that
/// a caller presents.
pub fn confirm_derived(found: &Option<Derived>, candidate: &Address, bump: u8) -> (confirmed: bool)
    ensures
        confirmed == confirms(*found, candidate@, bump),
{
    match found {
        Some(derived) => derived.address.same(candidate) && derived.bump == bump,
        None => false,
    }
}

/// Whether `candidate` with `bump` is the vault of the surge stored at
/// `surge_key`: the vault is derived again and compared.
pub fn is_vault_of(candidate: &Address, bump: u8, surge_key: &Address, program_id: &Address) -> (confirmed:
    bool)
    ensures
        confirmed == (derived_address(vault_seeds(surge_key@), program_id@) == Some(
            (candidate@, bump),
        )),
{
    let found = vault_address(surge_key, program_id);
    confirm_derived(&found, candidate, bump)
}

/// Deriving twice from the same seeds under the same program gives the same
/// address and the same bump seed.
pub proof fn lemma_rederivation(
    first: Option<Derived>,
    second: Option<Derived>,
    seeds: Seq<Seq<u8>>,
    program_id: Seq<u8>,
)
    requires
        derives(first, seeds, program_id),
        derives(second, seeds, program_id),
    ensures
        first == second,
{
    if first is Some {
        assert(first.unwrap().address.bytes =~= second.unwrap().address.bytes);
    }
}

} // verus!
