use vstd::prelude::*;
use vstd::slice::slice_to_vec;

verus! {

broadcast use vstd::array::axiom_spec_array_fill_for_copy_type;

/// A 32-byte account address, the identity under which the ledger runtime
/// stores a record.
#[derive(Clone, Copy, Debug, PartialEq, Eq, Hash)]
pub struct Address {
    pub bytes: [u8; 32],
}

impl View for Address {
    type V = Seq<u8>;

    open spec fn view(&self) -> Seq<u8> {
        self.bytes@
    }
}

/// The all-zero byte string: the content of freshly allocated storage.
pub open spec fn zero_address() -> Seq<u8> {
    Seq::new(32, |i: int| 0u8)
}

impl Address {
    pub fn new(bytes: [u8; 32]) -> (a: Address)
        ensures
            a@ == bytes@,
    {
        Address { bytes }
    }

    /// The all-zero address.
    pub fn zero() -> (a: Address)
        ensures
            a@ == zero_address(),
    {
        let a = Address { bytes: [0u8; 32] };
        proof {
            assert(a@ =~= zero_address());
        }
        a
    }
}

/// What `Pubkey::try_find_program_address` returns for the given seed list
/// and program id: a hash-derived address and its disambiguation ("bump")
/// byte, a pure function of those two inputs alone.
pub uninterp spec fn pda_of(seeds: Seq<Seq<u8>>, program_id: Seq<u8>) -> Option<(Seq<u8>, u8)>;

/// Relies on `anchor_lang::prelude::Pubkey::try_find_program_address` (the
/// Solana SDK's program-derived-address search): the returned address and
/// bump byte are a hash of the seed slices and the program id, hence depend
/// on those two inputs alone; `None` comes only when the seed list breaks
/// the runtime's count or length limits, or when no bump byte in the search
/// space yields a valid (off-curve) address.
#[verifier::external_body]
fn find_program_address(seeds: &Vec<Vec<u8>>, program_id: &Address) -> (r: Option<(Address, u8)>)
    ensures
        r matches Some(p) ==> pda_of(seeds.deep_view(), program_id@) == Some((p.0@, p.1)),
        r is None ==> pda_of(seeds.deep_view(), program_id@) is None,
{
    let seed_slices: Vec<&[u8]> = seeds.iter().map(|s| s.as_slice()).collect();
    let pid = anchor_lang::prelude::Pubkey::new_from_array(program_id.bytes);
    anchor_lang::prelude::Pubkey::try_find_program_address(&seed_slices, &pid)
        .map(|(address, bump)| (Address { bytes: address.to_bytes() }, bump))
}

/// The seed list of a derivation: the fixed label alone, or the label
/// followed by the discriminating key.
pub open spec fn seeds_for(label: Seq<u8>, discriminator: Option<Seq<u8>>) -> Seq<Seq<u8>> {
    match discriminator {
        Some(d) => seq![label, d],
        None => seq![label],
    }
}

/// The outcome of deriving a storage address from a label, an optional
/// discriminator and a program id.
pub open spec fn derive_spec(
    label: Seq<u8>,
    discriminator: Option<Seq<u8>>,
    program_id: Seq<u8>,
) -> Option<(Seq<u8>, u8)> {
    pda_of(seeds_for(label, discriminator), program_id)
}

/// Derive the storage address for `label` (optionally discriminated by a
/// further key) under `program_id`, together with its bump byte.
///
/// Deterministic and side-effect-free; fails only when the label or key
/// exceeds the runtime's seed limits, or when no bump byte in the bounded
/// search space yields a valid address.
pub fn derive_address(label: &[u8], discriminator: Option<&[u8]>, program_id: &Address) -> (r: Option<
    (Address, u8),
>)
    ensures
        r matches Some(p) ==> derive_spec(label@, discriminator.deep_view(), program_id@)
            == Some((p.0@, p.1)),
        r is None ==> derive_spec(label@, discriminator.deep_view(), program_id@) is None,
{
    let mut seeds: Vec<Vec<u8>> = Vec::new();
    seeds.push(slice_to_vec(label));
    if let Some(d) = discriminator {
        seeds.push(slice_to_vec(d));
    }
    proof {
        assert(seeds.deep_view() =~~= seeds_for(label@, discriminator.deep_view()));
    }
    find_program_address(&seeds, program_id)
}

/// Determinism of derivation: two derivations with identical label,
/// discriminator and program id yield the identical (address, bump) outcome.
pub proof fn lemma_derive_deterministic(
    label: Seq<u8>,
    discriminator: Option<Seq<u8>>,
    program_id: Seq<u8>,
    r1: Option<(Seq<u8>, u8)>,
    r2: Option<(Seq<u8>, u8)>,
)
    requires
        r1 == derive_spec(label, discriminator, program_id),
        r2 == derive_spec(label, discriminator, program_id),
    ensures
        r1 == r2,
{
}

} // verus!
