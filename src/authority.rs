//! The transfer authority of a loan: a program-derived address scoped to the
//! receiver, the reserve and the caller.
use vstd::prelude::*;
use crate::address::Address;
use crate::error::AggregatorError;

verus! {

/// The program address and bump seed that the bump search finds for `seeds` under
/// `program_id`, if it finds one.
pub uninterp spec fn program_address_search(seeds: Seq<Seq<u8>>, program_id: Seq<u8>) -> Option<(Seq<u8>, u8)>;

/// Relies on `Pubkey::try_find_program_address` of solana-program: a deterministic
/// bump search that returns `None` when no bump gives an address off the curve, or
/// when the seeds with the bump exceed 16 seeds or a seed exceeds 32 bytes.
#[verifier::external_body]
pub(crate) fn find_program_address(seeds: &Vec<Vec<u8>>, program_id: &Address) -> (r: Option<(Address, u8)>)
    ensures
        r is Some <==> program_address_search(seeds.deep_view(), program_id@) is Some,
        r matches Some((a, b)) ==> program_address_search(seeds.deep_view(), program_id@) == Some((a@, b)),
        (seeds@.len() > 15 || exists|i: int| 0 <= i < seeds@.len() && seeds@[i]@.len() > 32)
            ==> r is None,
{
    let slices: Vec<&[u8]> = seeds.iter().map(|s| s.as_slice()).collect();
    let program = solana_program::pubkey::Pubkey::new_from_array(program_id.0);
    solana_program::pubkey::Pubkey::try_find_program_address(&slices, &program).map(
        |(k, b)| (Address(k.to_bytes()), b),
    )
}

/// A derived signing authority and the seeds that sign for it.
#[derive(Debug, PartialEq, Eq)]
pub struct TransferAuthority {
    /// The program-derived address.
    pub address: Address,
    /// The bump seed the search settled on.
    pub bump: u8,
    /// The derivation seeds followed by the one-byte bump seed.
    pub signing_seeds: Vec<Vec<u8>>,
}

impl View for TransferAuthority {
    type V = (Seq<u8>, u8, Seq<Seq<u8>>);

    open spec fn view(&self) -> (Seq<u8>, u8, Seq<Seq<u8>>) {
        (self.address@, self.bump, self.signing_seeds.deep_view())
    }
}

/// A copy of `bytes`.
fn copy_bytes(bytes: &Vec<u8>) -> (r: Vec<u8>)
    ensures
        r@ == bytes@,
{
    let mut out: Vec<u8> = Vec::new();
    let mut i: usize = 0;
    while i < bytes.len()
        invariant
            i <= bytes@.len(),
            out@ == bytes@.subrange(0, i as int),
        decreases bytes@.len() - i,
    {
        out.push(bytes[i]);
        i = i + 1;
        assert(out@ =~= bytes@.subrange(0, i as int));
    }
    assert(bytes@.subrange(0, bytes@.len() as int) =~= bytes@);
    out
}

impl TransferAuthority {
    /// A copy of the signing seeds, to hand to a signed call.
    pub fn signer_seeds(&self) -> (r: Vec<Vec<u8>>)
        ensures
            r.deep_view() == self.signing_seeds.deep_view(),
    {
        let mut out: Vec<Vec<u8>> = Vec::new();
        let mut i: usize = 0;
        while i < self.signing_seeds.len()
            invariant
                i <= self.signing_seeds@.len(),
                out.deep_view() == self.signing_seeds.deep_view().subrange(0, i as int),
            decreases self.signing_seeds@.len() - i,
        {
            let seed = copy_bytes(&self.signing_seeds[i]);
            assert(seed.deep_view() =~= self.signing_seeds@[i as int].deep_view());
            let ghost prev = out.deep_view();
            let ghost prev_view = out@;
            out.push(seed);
            assert(out@ == prev_view.push(seed));
            assert(out.deep_view() =~= prev.push(seed.deep_view()));
            i = i + 1;
            assert(out.deep_view() =~= self.signing_seeds.deep_view().subrange(0, i as int));
        }
        assert(self.signing_seeds.deep_view().subrange(0, i as int) =~= self.signing_seeds.deep_view());
        out
    }
}

/// The seeds of the authority for a `(receiver, reserve, caller)` triple.
pub open spec fn authority_seeds(receiver: Seq<u8>, reserve: Seq<u8>, caller: Seq<u8>) -> Seq<Seq<u8>> {
    seq![receiver, reserve, caller]
}

/// The authority `derive` must produce: the searched address, its bump, and the
/// seeds followed by the bump; `None` when the search finds no address.
pub open spec fn derivation(
    program_id: Seq<u8>,
    receiver: Seq<u8>,
    reserve: Seq<u8>,
    caller: Seq<u8>,
) -> Option<(Seq<u8>, u8, Seq<Seq<u8>>)> {
    let seeds = authority_seeds(receiver, reserve, caller);
    match program_address_search(seeds, program_id) {
        Some((address, bump)) => Some((address, bump, seeds.push(seq![bump]))),
        None => None,
    }
}

/// `r` is what `derive` owes for these inputs.
pub open spec fn derived_as(
    r: Result<TransferAuthority, AggregatorError>,
    program_id: Seq<u8>,
    receiver: Seq<u8>,
    reserve: Seq<u8>,
    caller: Seq<u8>,
) -> bool {
    match derivation(program_id, receiver, reserve, caller) {
        Some(v) => r matches Ok(t) && t@ == v,
        None => r == Err::<TransferAuthority, AggregatorError>(AggregatorError::DerivationExhausted),
    }
}

/// Derives the transfer authority of `program_id` for a loan to `receiver` from
/// `reserve` requested by `caller`. Fails with `DerivationExhausted` when the bump
/// search finds no address.
pub fn derive(program_id: &Address, receiver: &Address, reserve: &Address, caller: &Address) -> (r: Result<
    TransferAuthority,
    AggregatorError,
>)
    ensures
        derived_as(r, program_id@, receiver@, reserve@, caller@),
{
    let receiver_seed = receiver.to_vec();
    let reserve_seed = reserve.to_vec();
    let caller_seed = caller.to_vec();
    assert(receiver_seed.deep_view() =~= receiver@);
    assert(reserve_seed.deep_view() =~= reserve@);
    assert(caller_seed.deep_view() =~= caller@);
    let mut seeds: Vec<Vec<u8>> = Vec::new();
    seeds.push(receiver_seed);
    seeds.push(reserve_seed);
    seeds.push(caller_seed);
    let ghost expected = authority_seeds(receiver@, reserve@, caller@);
    assert(seeds.deep_view() =~= expected);
    match find_program_address(&seeds, program_id) {
        Some((address, bump)) => {
            let mut bump_seed: Vec<u8> = Vec::new();
            bump_seed.push(bump);
            seeds.push(bump_seed);
            assert(bump_seed.deep_view() =~= seq![bump]);
            assert(seeds.deep_view() =~= expected.push(seq![bump]));
            Ok(TransferAuthority { address, bump, signing_seeds: seeds })
        },
        None => Err(AggregatorError::DerivationExhausted),
    }
}

/// Derivation is deterministic: two results that both meet `derive`'s contract on
/// the same inputs are the same authority, address and signing seeds alike.
pub proof fn lemma_derive_deterministic(
    program_id: Seq<u8>,
    receiver: Seq<u8>,
    reserve: Seq<u8>,
    caller: Seq<u8>,
    first: Result<TransferAuthority, AggregatorError>,
    second: Result<TransferAuthority, AggregatorError>,
)
    requires
        derived_as(first, program_id, receiver, reserve, caller),
        derived_as(second, program_id, receiver, reserve, caller),
    ensures
        first is Ok <==> second is Ok,
        first matches Ok(a) ==> second matches Ok(b) && a@ == b@,
        first is Err ==> first == second,
{
}

} // verus!
