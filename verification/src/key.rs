//! Account addresses.
use vstd::prelude::*;

verus! {

/// A 32-byte account address.
#[derive(Clone, Copy, Debug, PartialEq, Eq)]
pub struct Pubkey {
    pub bytes: [u8; 32],
}

impl View for Pubkey {
    type V = Seq<u8>;

    open spec fn view(&self) -> Seq<u8> {
        self.bytes@
    }
}

impl Pubkey {
    /// The address made of the given bytes.
    pub fn new_from_array(bytes: [u8; 32]) -> (k: Pubkey)
        ensures
            k@ == bytes@,
    {
        Pubkey { bytes }
    }

    /// Whether both addresses hold the same bytes.
    pub fn same_as(&self, other: &Pubkey) -> (r: bool)
        ensures
            r == (self@ == other@),
    {
        let mut i: usize = 0;
        while i < 32
            invariant
                0 <= i <= 32,
                self@.len() == 32,
                other@.len() == 32,
                forall|j: int| 0 <= j < i ==> self@[j] == other@[j],
            decreases 32 - i,
        {
            if self.bytes[i] != other.bytes[i] {
                return false;
            }
            i = i + 1;
        }
        assert(self@ =~= other@);
        true
    }
}

} // verus!

verus! {

/// Whether every byte of `k` is zero: the default address, which is also
/// the address of the system program.
pub open spec fn is_zero_key(k: Seq<u8>) -> bool {
    forall|i: int| 0 <= i < k.len() ==> k[i] == 0
}

/// Whether `keys` holds an address equal to `k`.
pub open spec fn holds_key(keys: Seq<Pubkey>, k: Pubkey) -> bool {
    exists|i: int| 0 <= i < keys.len() && #[trigger] keys[i]@ == k@
}

impl Pubkey {
    /// Whether this is the default address, all of whose bytes are zero.
    pub fn is_default(&self) -> (r: bool)
        ensures
            r == is_zero_key(self@),
    {
        let mut i: usize = 0;
        while i < 32
            invariant
                0 <= i <= 32,
                self@.len() == 32,
                forall|j: int| 0 <= j < i ==> self@[j] == 0,
            decreases 32 - i,
        {
            if self.bytes[i] != 0 {
                return false;
            }
            i = i + 1;
        }
        true
    }
}

/// Whether `keys` holds `k`, as `ADMINS.contains(&key)` asks of the list of
/// operators.
pub fn contains_key(keys: &Vec<Pubkey>, k: &Pubkey) -> (r: bool)
    ensures
        r == holds_key(keys@, *k),
{
    let mut i: usize = 0;
    while i < keys.len()
        invariant
            0 <= i <= keys.len(),
            forall|j: int| 0 <= j < i ==> keys@[j]@ != k@,
        decreases keys.len() - i,
    {
        if keys[i].same_as(k) {
            return true;
        }
        i = i + 1;
    }
    false
}

/// The update authority stored in token metadata for `key`, as
/// `OptionalNonZeroPubkey::try_from(Some(key))` gives it: refused (`None`)
/// for the default address, which that type uses to mean "no authority".
pub fn optional_non_zero(key: Pubkey) -> (r: Option<Pubkey>)
    ensures
        r == (if is_zero_key(key@) { None } else { Some(key) }),
{
    if key.is_default() {
        None
    } else {
        Some(key)
    }
}

/// The bytes of `k`, as a seed.
pub fn key_bytes(k: &Pubkey) -> (r: Vec<u8>)
    ensures
        r@ == k@,
        r.deep_view() == k@,
{
    let mut r: Vec<u8> = Vec::new();
    let mut i: usize = 0;
    while i < 32
        invariant
            0 <= i <= 32,
            k@.len() == 32,
            r@ =~= k@.take(i as int),
        decreases 32 - i,
    {
        r.push(k.bytes[i]);
        i = i + 1;
    }
    assert(k@.take(32) =~= k@);
    assert(r.deep_view() =~= r@);
    r
}

/// A copy of `bytes`.
pub fn copy_bytes(bytes: &Vec<u8>) -> (r: Vec<u8>)
    ensures
        r@ == bytes@,
        r.deep_view() == bytes@,
{
    let mut r: Vec<u8> = Vec::new();
    let mut i: usize = 0;
    while i < bytes.len()
        invariant
            0 <= i <= bytes.len(),
            r@ =~= bytes@.take(i as int),
        decreases bytes.len() - i,
    {
        r.push(bytes[i]);
        i = i + 1;
    }
    assert(bytes@.take(bytes.len() as int) =~= bytes@);
    assert(r.deep_view() =~= r@);
    r
}

/// The bytes of the rent sysvar's address,
/// `SysvarRent111111111111111111111111111111111`.
pub open spec fn rent_sysvar_bytes() -> Seq<u8> {
    seq![
        6u8, 167, 213, 23, 25, 44, 92, 81, 33, 140, 201, 76, 61, 74, 241, 127, 88, 218, 238, 8,
        155, 161, 253, 68, 227, 219, 217, 138, 0, 0, 0, 0,
    ]
}

/// The address of the rent sysvar, `solana_program::sysvar::rent::ID`.
///
/// Trusted: solana-program declares it with
/// `declare_sysvar_id!("SysvarRent111111111111111111111111111111111", Rent)`;
/// the contract states the 32 bytes that this base58 text stands for.
#[verifier::external_body]
pub(crate) fn rent_sysvar_id() -> (k: Pubkey)
    ensures
        k@ == rent_sysvar_bytes(),
{
    Pubkey { bytes: solana_program::sysvar::rent::ID.to_bytes() }
}

/// The address of the system program, `solana_program::system_program::ID`.
///
/// Trusted: the constant is declared in solana-program with
/// `declare_id!("11111111111111111111111111111111")`, the base58 text of 32
/// zero bytes; the contract states that its bytes are all zero.
#[verifier::external_body]
pub(crate) fn system_program_id() -> (k: Pubkey)
    ensures
        k@.len() == 32,
        is_zero_key(k@),
{
    Pubkey { bytes: solana_program::system_program::ID.to_bytes() }
}

} // verus!

verus! {

/// No address is in the empty list, and a list with one more address holds
/// a key exactly when the list held it or the added address is that key,
/// compared byte for byte.
pub proof fn law_holds_key_by_bytes(keys: Seq<Pubkey>, added: Pubkey, k: Pubkey)
    ensures
        !holds_key(Seq::<Pubkey>::empty(), k),
        holds_key(keys.push(added), k) <==> (holds_key(keys, k) || added@ == k@),
{
    if holds_key(keys, k) {
        let i = choose|i: int| 0 <= i < keys.len() && #[trigger] keys[i]@ == k@;
        assert(keys.push(added)[i]@ == k@);
    }
    if added@ == k@ {
        assert(keys.push(added)[keys.len() as int]@ == k@);
    }
    if holds_key(keys.push(added), k) {
        let i = choose|i: int| 0 <= i < keys.len() + 1 && #[trigger] keys.push(added)[i]@ == k@;
        if i < keys.len() {
            assert(keys[i]@ == k@);
        }
    }
}

} // verus!
