use vstd::prelude::*;
use anchor_lang::solana_program::pubkey::Pubkey;

verus! {

/// A 32-byte account address.
#[derive(Clone, Copy, Debug)]
pub struct Address {
    pub bytes: [u8; 32],
}

impl View for Address {
    type V = Seq<u8>;

    open spec fn view(&self) -> Seq<u8> {
        self.bytes@
    }
}

impl Address {
    pub fn new(bytes: [u8; 32]) -> (r: Address)
        ensures
            r@ == bytes@,
    {
        Address { bytes }
    }
}

impl PartialEq for Address {
    fn eq(&self, o: &Address) -> (r: bool) {
        let mut i: usize = 0;
        while i < 32
            invariant
                0 <= i <= 32,
                self.bytes@.len() == 32,
                o.bytes@.len() == 32,
                forall|j: int| 0 <= j < i ==> self.bytes@[j] == o.bytes@[j],
            decreases 32 - i,
        {
            if self.bytes[i] != o.bytes[i] {
                return false;
            }
            i = i + 1;
        }
        proof {
            assert(self.bytes@ =~= o.bytes@);
        }
        true
    }
}

impl vstd::std_specs::cmp::PartialEqSpecImpl for Address {
    open spec fn obeys_eq_spec() -> bool {
        true
    }

    open spec fn eq_spec(&self, o: &Address) -> bool {
        self@ == o@
    }
}

/// Compares two addresses byte by byte.
pub fn same_address(a: &Address, b: &Address) -> (r: bool)
    ensures
        r == (a@ == b@),
{
    a == b
}

/// The address that the seeds (bump seed included) derive under a program,
/// or `None` where the derivation lands on the curve or the seeds are out
/// of bounds.
pub uninterp spec fn program_address(seeds: Seq<Seq<u8>>, program: Seq<u8>) -> Option<Seq<u8>>;

/// The view of a list of seeds.
pub open spec fn seeds_view(seeds: Seq<Vec<u8>>) -> Seq<Seq<u8>> {
    seeds.map_values(|s: Vec<u8>| s@)
}

/// The view of an optional address.
pub open spec fn address_opt(o: Option<Address>) -> Option<Seq<u8>> {
    match o {
        Some(a) => Some(a@),
        None => None,
    }
}

/// The view of an optional address with its bump.
pub open spec fn found_opt(o: Option<(Address, u8)>) -> Option<(Seq<u8>, u8)> {
    match o {
        Some(p) => Some((p.0@, p.1)),
        None => None,
    }
}

/// The canonical bump search: bump seeds from `bump` down to 1, the first
/// one under which the seeds derive an address.
pub open spec fn bump_search(seeds: Seq<Seq<u8>>, program: Seq<u8>, bump: nat) -> Option<(Seq<u8>, u8)>
    decreases bump,
{
    if bump == 0 || bump > 255 {
        None
    } else {
        match program_address(seeds.push(seq![bump as u8]), program) {
            Some(a) => Some((a, bump as u8)),
            None => bump_search(seeds, program, (bump - 1) as nat),
        }
    }
}

/// The canonical derived address of the seeds and its bump.
pub open spec fn find_address(seeds: Seq<Seq<u8>>, program: Seq<u8>) -> Option<(Seq<u8>, u8)> {
    bump_search(seeds, program, 255)
}

/// Relies on `Pubkey::create_program_address`: hashes the seeds with the
/// program id and fails where the seeds are out of bounds or the hash is a
/// curve point; the result depends on the seeds and the program alone.
#[verifier::external_body]
pub(crate) fn create_program_address(seeds: &Vec<Vec<u8>>, program: &Address) -> (r: Option<Address>)
    ensures
        address_opt(r) == program_address(seeds_view(seeds@), program@),
{
    let s: Vec<&[u8]> = seeds.iter().map(|x| x.as_slice()).collect();
    let p = Pubkey::new_from_array(program.bytes);
    Pubkey::create_program_address(&s, &p).ok().map(|k| Address { bytes: k.to_bytes() })
}

/// Relies on `Pubkey::try_find_program_address`: appends the bump seeds 255
/// down to 1 and returns the first address that `create_program_address`
/// derives, with its bump.
#[verifier::external_body]
pub(crate) fn try_find_program_address(seeds: &Vec<Vec<u8>>, program: &Address) -> (r: Option<(Address, u8)>)
    ensures
        found_opt(r) == find_address(seeds_view(seeds@), program@),
{
    let s: Vec<&[u8]> = seeds.iter().map(|x| x.as_slice()).collect();
    let p = Pubkey::new_from_array(program.bytes);
    Pubkey::try_find_program_address(&s, &p).map(|(k, b)| (Address { bytes: k.to_bytes() }, b))
}

} // verus!
