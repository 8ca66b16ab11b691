//! What the ledger hands to a program: addresses, signers, accounts, and the
//! derivation of the address of a record from its seeds.
use vstd::prelude::*;

verus! {

/// A 32-byte address, held as its two big-endian 128-bit halves, so that
/// addresses are ordered as their bytes are.
pub type Pubkey = (u128, u128);

/// A 32-byte digest, held like an address.
pub type Digest = (u128, u128);

/// The largest size, in bytes, that the ledger gives to one account.
pub const MAX_PERMITTED_DATA_LENGTH: usize = 10485760;

/// The bytes that precede the data of every account and tell its type.
pub const DISCRIMINATOR_SIZE: usize = 8;

/// An account that may have signed the operation.
#[derive(Debug, Clone, Copy)]
pub struct Signer {
    pub key: Pubkey,
    pub is_signer: bool,
}

/// A storage slot of the ledger at address `key`: `space` bytes, holding a
/// record of type `T` once it is initialised.
#[derive(Debug)]
pub struct Account<T> {
    pub key: Pubkey,
    pub space: usize,
    pub data: Option<T>,
}

/// The accounts of one operation, and the address of the program that runs it.
#[derive(Debug)]
pub struct Context<T> {
    pub program_id: Pubkey,
    pub accounts: T,
}

impl<T> Account<T> {
    /// The empty slot at `key`.
    pub fn uninitialized(key: Pubkey) -> (slot: Self)
        ensures
            slot == (Account::<T> { key, space: 0, data: None }),
    {
        Account { key, space: 0, data: None }
    }

    /// Moves the slot out and leaves it without its record.
    pub fn take(&mut self) -> (moved: Self)
        ensures
            moved == *old(self),
            *final(self) == (Account::<T> { key: old(self).key, space: old(self).space, data: None }),
    {
        let data = self.data.take();
        Account { key: self.key, space: self.space, data }
    }
}

/// Byte `i` of the eight big-endian bytes of `x`.
pub open spec fn u64_be_byte(x: u64, i: int) -> u8 {
    ((x >> (((7 - i) * 8) as u64)) & 0xff) as u8
}

/// The eight big-endian bytes of `x`.
pub open spec fn u64_be_bytes(x: u64) -> Seq<u8> {
    Seq::new(8, |i: int| u64_be_byte(x, i))
}

/// Byte `i` of the sixteen big-endian bytes of `x`.
pub open spec fn u128_be_byte(x: u128, i: int) -> u8 {
    ((x >> (((15 - i) * 8) as u128)) & 0xff) as u8
}

/// The 32 bytes of an address: the high half, then the low half, each
/// big-endian.
pub open spec fn pubkey_bytes(key: Pubkey) -> Seq<u8> {
    Seq::new(32, |i: int| if i < 16 { u128_be_byte(key.0, i) } else { u128_be_byte(key.1, i - 16) })
}

/// The eight big-endian bytes of `x`.
pub fn u64_to_be_bytes(x: u64) -> (bytes: Vec<u8>)
    ensures
        bytes@ == u64_be_bytes(x),
{
    let mut bytes: Vec<u8> = Vec::new();
    let mut i: u64 = 0;
    while i < 8
        invariant
            i <= 8,
            bytes@.len() == i,
            forall|j: int| 0 <= j < i ==> bytes@[j] == u64_be_byte(x, j),
        decreases 8 - i,
    {
        let shift: u64 = (7 - i) * 8;
        let word: u64 = (x >> shift) & 0xff;
        assert(word <= 0xff) by (bit_vector)
            requires
                word == (x >> shift) & 0xff,
        ;
        bytes.push(word as u8);
        i += 1;
    }
    assert(bytes@ =~= u64_be_bytes(x));
    bytes
}

/// The 32 bytes of the address.
pub fn pubkey_to_bytes(key: &Pubkey) -> (bytes: Vec<u8>)
    ensures
        bytes@ == pubkey_bytes(*key),
{
    let mut bytes: Vec<u8> = Vec::new();
    let mut i: u128 = 0;
    while i < 32
        invariant
            i <= 32,
            bytes@.len() == i,
            forall|j: int| 0 <= j < i ==> bytes@[j] == pubkey_bytes(*key)[j],
        decreases 32 - i,
    {
        let half: u128 = if i < 16 { key.0 } else { key.1 };
        let at: u128 = if i < 16 { i } else { i - 16 };
        let shift: u128 = (15 - at) * 8;
        let word: u128 = (half >> shift) & 0xff;
        assert(word <= 0xff) by (bit_vector)
            requires
                word == (half >> shift) & 0xff,
        ;
        bytes.push(word as u8);
        i += 1;
    }
    assert(bytes@ =~= pubkey_bytes(*key));
    bytes
}

/// A copy of the bytes of a seed tag.
pub fn seed_from_tag<const N: usize>(tag: &[u8; N]) -> (seed: Vec<u8>)
    ensures
        seed@ == tag@,
{
    let mut seed: Vec<u8> = Vec::new();
    let mut i: usize = 0;
    while i < N
        invariant
            i <= N,
            tag@.len() == N,
            seed@ == tag@.take(i as int),
        decreases N - i,
    {
        seed.push(tag[i]);
        assert(tag@.take(i + 1) =~= tag@.take(i as int).push(tag@[i as int]));
        i += 1;
    }
    assert(tag@.take(tag@.len() as int) =~= tag@);
    seed
}

/// A copy of the bytes of a seed.
pub fn seed_from_slice(bytes: &[u8]) -> (seed: Vec<u8>)
    ensures
        seed@ == bytes@,
{
    let mut seed: Vec<u8> = Vec::new();
    let mut i: usize = 0;
    while i < bytes.len()
        invariant
            i <= bytes.len(),
            seed@ == bytes@.take(i as int),
        decreases bytes.len() - i,
    {
        seed.push(bytes[i]);
        assert(bytes@.take(i + 1) =~= bytes@.take(i as int).push(bytes@[i as int]));
        i += 1;
    }
    assert(bytes@.take(bytes@.len() as int) =~= bytes@);
    seed
}

/// The seeds as sequences of bytes.
pub open spec fn seeds_view(seeds: Seq<Vec<u8>>) -> Seq<Seq<u8>> {
    seeds.map_values(|seed: Vec<u8>| seed@)
}

/// Whether `signer` has signed and is the account at `address`.
pub open spec fn is_authority(signer: Signer, address: Option<Pubkey>) -> bool {
    signer.is_signer && address == Some(signer.key)
}

/// The address that the ledger derives for `seeds` under `program`, with the
/// bump that completes the seeds, where it derives one.
pub uninterp spec fn program_address(seeds: Seq<Seq<u8>>, program: Pubkey) -> Option<(Pubkey, u8)>;

/// The Keccak-256 digest of `data`.
pub uninterp spec fn keccak256(data: Seq<u8>) -> Digest;

/// The address derived for `seeds` under `program`, where there is one.
pub open spec fn derived_address(seeds: Seq<Seq<u8>>, program: Pubkey) -> Option<Pubkey> {
    match program_address(seeds, program) {
        Some(found) => Some(found.0),
        None => None,
    }
}

/// Calls `Pubkey::try_find_program_address` of `anchor_lang` (solana-program).
/// Trusted: the result is a function of the seeds and the program address
/// alone, which is what [`program_address`] names. Off chain the call hashes
/// the seeds with each bump from 255 down and returns the first digest that
/// is no curve point, or `None`; it does not panic.
#[verifier::external_body]
fn try_find_program_address(seeds: &Vec<Vec<u8>>, program: &Pubkey) -> (found: Option<(Pubkey, u8)>)
    ensures
        found == program_address(seeds_view(seeds@), *program),
{
    let mut id = [0u8; 32];
    id[..16].copy_from_slice(&program.0.to_be_bytes());
    id[16..].copy_from_slice(&program.1.to_be_bytes());
    let parts: Vec<&[u8]> = seeds.iter().map(|s| s.as_slice()).collect();
    let id = anchor_lang::prelude::Pubkey::new_from_array(id);
    anchor_lang::prelude::Pubkey::try_find_program_address(&parts, &id).map(|(key, bump)| {
        let b = key.to_bytes();
        let hi = u128::from_be_bytes(b[..16].try_into().unwrap());
        let lo = u128::from_be_bytes(b[16..].try_into().unwrap());
        ((hi, lo), bump)
    })
}

/// Calls `keccak::hash` of `anchor_lang::solana_program`. Trusted: the digest
/// is a function of the bytes alone, which is what [`keccak256`] names.
#[verifier::external_body]
fn keccak_hash(data: &Vec<u8>) -> (digest: Digest)
    ensures
        digest == keccak256(data@),
{
    let b = anchor_lang::solana_program::keccak::hash(data.as_slice()).to_bytes();
    let hi = u128::from_be_bytes(b[..16].try_into().unwrap());
    let lo = u128::from_be_bytes(b[16..].try_into().unwrap());
    (hi, lo)
}

/// The address of the record that `seeds` identify under `program`; `None`
/// where the ledger derives none for them.
pub fn find_program_address(seeds: &Vec<Vec<u8>>, program: &Pubkey) -> (address: Option<Pubkey>)
    ensures
        address == derived_address(seeds_view(seeds@), *program),
{
    match try_find_program_address(seeds, program) {
        Some(found) => Some(found.0),
        None => None,
    }
}

/// The digest under which a component schema is filed by its name.
pub fn schema_hash(name: &Vec<u8>) -> (digest: Digest)
    ensures
        digest == keccak256(name@),
{
    keccak_hash(name)
}

/// Whether two addresses are the same.
pub fn same_key(a: &Pubkey, b: &Pubkey) -> (same: bool)
    ensures
        same == (*a == *b),
{
    a.0 == b.0 && a.1 == b.1
}

/// Whether `signer` has signed and is the account at `address`.
pub fn signs_as(signer: &Signer, address: &Option<Pubkey>) -> (signs: bool)
    ensures
        signs == is_authority(*signer, *address),
{
    signer.is_signer && is_address(&signer.key, address)
}

/// Whether `key` is the address `expected`.
pub fn is_address(key: &Pubkey, expected: &Option<Pubkey>) -> (same: bool)
    ensures
        same == (*expected == Some(*key)),
{
    match expected {
        Some(address) => same_key(key, address),
        None => false,
    }
}

/// The set of the first `n + 1` items of a sequence is the set of the first
/// `n` with the one that follows them.
pub proof fn lemma_take_to_set<T>(items: Seq<T>, n: int)
    requires
        0 <= n < items.len(),
    ensures
        items.take(n + 1).to_set() == items.take(n).to_set().insert(items[n]),
{
    let before = items.take(n);
    let after = items.take(n + 1);
    assert forall|item: T| after.to_set().contains(item) <==> before.to_set().insert(
        items[n],
    ).contains(item) by {
        if after.to_set().contains(item) {
            let j = choose|j: int| 0 <= j < after.len() && after[j] == item;
            if j < n {
                assert(before[j] == item);
            }
        }
        if before.to_set().contains(item) {
            let j = choose|j: int| 0 <= j < before.len() && before[j] == item;
            assert(after[j] == item);
        }
        if item == items[n] {
            assert(after[n] == item);
        }
    }
    assert(after.to_set() =~= before.to_set().insert(items[n]));
}

/// A list without duplicates stays one when an item that it does not hold is
/// put at its end, and then lists that item beside the others.
pub proof fn lemma_push_fresh<T>(items: Seq<T>, item: T)
    requires
        items.no_duplicates(),
        !items.to_set().contains(item),
    ensures
        items.push(item).no_duplicates(),
        items.push(item).to_set() == items.to_set().insert(item),
{
    let grown = items.push(item);
    lemma_take_to_set(grown, items.len() as int);
    assert(grown.take(items.len() as int) =~= items);
    assert(grown.take(grown.len() as int) =~= grown);
    assert forall|i: int, j: int| 0 <= i < grown.len() && 0 <= j < grown.len() && i
        != j implies grown[i] != grown[j] by {
        if i == items.len() {
            assert(items.to_set().contains(items[j]));
        } else if j == items.len() {
            assert(items.to_set().contains(items[i]));
        }
    }
}

} // verus!
