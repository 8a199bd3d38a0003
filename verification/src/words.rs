//! Machine words and account addresses, modelled as plain integers.
//!
//! The virtual machine works with 256-bit words and 160-bit account
//! addresses.  A word is held as two 128-bit halves and an address as a
//! 32-bit and a 128-bit half, so that equality, truncation and byte-level
//! decomposition are all ordinary integer arithmetic.

use vstd::prelude::*;

verus! {

/// A 256-bit machine word: a storage key, a stored value, or a packed
/// call descriptor.
#[derive(Clone, Copy, Debug, PartialEq, Eq, Structural, Hash)]
pub struct Word {
    /// The most significant 128 bits.
    pub hi: u128,
    /// The least significant 128 bits.
    pub lo: u128,
}

/// A 160-bit account address.
#[derive(Clone, Copy, Debug, PartialEq, Eq, Structural, Hash)]
pub struct Address {
    /// The most significant 32 bits.
    pub hi: u32,
    /// The least significant 128 bits.
    pub lo: u128,
}

/// A storage slot: a contract address together with a 256-bit key.
#[derive(Clone, Copy, Debug, PartialEq, Eq, Structural, Hash)]
pub struct SlotId {
    pub address: Address,
    pub key: Word,
}

impl Word {
    /// The all-zero word.
    pub open spec fn spec_zero() -> Word {
        Word { hi: 0, lo: 0 }
    }

    #[verifier::when_used_as_spec(spec_zero)]
    pub fn zero() -> (r: Word)
        ensures
            r == Word::spec_zero(),
    {
        Word { hi: 0, lo: 0 }
    }

    pub fn is_zero(&self) -> (r: bool)
        ensures
            r == (*self == Word::spec_zero()),
    {
        self.hi == 0 && self.lo == 0
    }

    /// The word whose value is a small integer.
    pub open spec fn spec_from_small(v: u128) -> Word {
        Word { hi: 0, lo: v }
    }

    #[verifier::when_used_as_spec(spec_from_small)]
    pub fn from_small(v: u128) -> (r: Word)
        ensures
            r == Word::spec_from_small(v),
    {
        Word { hi: 0, lo: v }
    }
}

impl Address {
    /// The address whose value is a small integer.
    pub open spec fn spec_from_small(v: u128) -> Address {
        Address { hi: 0, lo: v }
    }

    #[verifier::when_used_as_spec(spec_from_small)]
    pub fn from_small(v: u128) -> (r: Address)
        ensures
            r == Address::spec_from_small(v),
    {
        Address { hi: 0, lo: v }
    }
}

/// An address reinterpreted as a word: the 160 bits, zero-extended.
pub open spec fn spec_address_to_word(a: Address) -> Word {
    Word { hi: a.hi as u128, lo: a.lo }
}

pub fn address_to_word(a: &Address) -> (r: Word)
    ensures
        r == spec_address_to_word(*a),
{
    Word { hi: a.hi as u128, lo: a.lo }
}

/// A word truncated to its low 160 bits and read as an address.
pub open spec fn spec_word_to_address(w: Word) -> Address {
    Address { hi: (w.hi % 0x100000000) as u32, lo: w.lo }
}

pub fn word_to_address(w: &Word) -> (r: Address)
    ensures
        r == spec_word_to_address(*w),
{
    Address { hi: (w.hi % 0x100000000) as u32, lo: w.lo }
}

// ---------------------------------------------------------------------------
// Well-known system contract addresses of the protocol.
// ---------------------------------------------------------------------------

/// The bootloader, the protocol's own transaction driver.
pub open spec fn spec_bootloader_address() -> Address {
    Address { hi: 0, lo: 0x8001 }
}

#[verifier::when_used_as_spec(spec_bootloader_address)]
pub fn bootloader_address() -> (r: Address)
    ensures
        r == spec_bootloader_address(),
{
    Address { hi: 0, lo: 0x8001 }
}

/// The account-code-storage system contract: slot `a` holds the code hash
/// of account `a`.
pub open spec fn spec_account_code_storage_address() -> Address {
    Address { hi: 0, lo: 0x8002 }
}

#[verifier::when_used_as_spec(spec_account_code_storage_address)]
pub fn account_code_storage_address() -> (r: Address)
    ensures
        r == spec_account_code_storage_address(),
{
    Address { hi: 0, lo: 0x8002 }
}

/// The contract-deployer system contract.
pub open spec fn spec_contract_deployer_address() -> Address {
    Address { hi: 0, lo: 0x8006 }
}

#[verifier::when_used_as_spec(spec_contract_deployer_address)]
pub fn contract_deployer_address() -> (r: Address)
    ensures
        r == spec_contract_deployer_address(),
{
    Address { hi: 0, lo: 0x8006 }
}

/// The value-transfer simulator system contract.
pub open spec fn spec_msg_value_simulator_address() -> Address {
    Address { hi: 0, lo: 0x8009 }
}

#[verifier::when_used_as_spec(spec_msg_value_simulator_address)]
pub fn msg_value_simulator_address() -> (r: Address)
    ensures
        r == spec_msg_value_simulator_address(),
{
    Address { hi: 0, lo: 0x8009 }
}

/// The native-token system contract.
pub open spec fn spec_eth_token_address() -> Address {
    Address { hi: 0, lo: 0x800a }
}

#[verifier::when_used_as_spec(spec_eth_token_address)]
pub fn eth_token_address() -> (r: Address)
    ensures
        r == spec_eth_token_address(),
{
    Address { hi: 0, lo: 0x800a }
}

/// The system-context contract; its slot 0 holds the chain id.
pub open spec fn spec_system_context_address() -> Address {
    Address { hi: 0, lo: 0x800b }
}

#[verifier::when_used_as_spec(spec_system_context_address)]
pub fn system_context_address() -> (r: Address)
    ensures
        r == spec_system_context_address(),
{
    Address { hi: 0, lo: 0x800b }
}

/// The keccak-256 precompile.
pub open spec fn spec_keccak256_precompile_address() -> Address {
    Address { hi: 0, lo: 0x8010 }
}

#[verifier::when_used_as_spec(spec_keccak256_precompile_address)]
pub fn keccak256_precompile_address() -> (r: Address)
    ensures
        r == spec_keccak256_precompile_address(),
{
    Address { hi: 0, lo: 0x8010 }
}

// ---------------------------------------------------------------------------
// Big-endian byte decomposition.
// ---------------------------------------------------------------------------

/// The big-endian value of the 16 bytes of `s` starting at `off`.
pub open spec fn be_u128_int(s: Seq<u8>, off: int) -> int {
    s[off] * 0x1000000000000000000000000000000 + s[off + 1] * 0x10000000000000000000000000000
        + s[off + 2] * 0x100000000000000000000000000 + s[off + 3] * 0x1000000000000000000000000
        + s[off + 4] * 0x10000000000000000000000 + s[off + 5] * 0x100000000000000000000 + s[off
        + 6] * 0x1000000000000000000 + s[off + 7] * 0x10000000000000000 + s[off + 8]
        * 0x100000000000000 + s[off + 9] * 0x1000000000000 + s[off + 10] * 0x10000000000 + s[off
        + 11] * 0x100000000 + s[off + 12] * 0x1000000 + s[off + 13] * 0x10000 + s[off + 14] * 0x100
        + s[off + 15]
}

/// The big-endian value of the 4 bytes of `s` starting at `off`.
pub open spec fn be_u32_int(s: Seq<u8>, off: int) -> int {
    s[off] * 0x1000000 + s[off + 1] * 0x10000 + s[off + 2] * 0x100 + s[off + 3]
}

/// The word held big-endian in the 32 bytes of `s` starting at `off`.
pub open spec fn spec_word_from_be(s: Seq<u8>, off: int) -> Word {
    Word { hi: be_u128_int(s, off) as u128, lo: be_u128_int(s, off + 16) as u128 }
}

/// Reads 16 bytes of `v`, starting at `off`, as a big-endian integer.
pub fn be_u128_from(v: &Vec<u8>, off: usize) -> (r: u128)
    requires
        off + 16 <= v.len(),
    ensures
        r as int == be_u128_int(v@, off as int),
{
    (v[off] as u128) * 0x1000000000000000000000000000000 + (v[off + 1] as u128)
        * 0x10000000000000000000000000000 + (v[off + 2] as u128) * 0x100000000000000000000000000 + (
    v[off + 3] as u128) * 0x1000000000000000000000000 + (v[off + 4] as u128)
        * 0x10000000000000000000000 + (v[off + 5] as u128) * 0x100000000000000000000 + (v[off
        + 6] as u128) * 0x1000000000000000000 + (v[off + 7] as u128) * 0x10000000000000000 + (v[off
        + 8] as u128) * 0x100000000000000 + (v[off + 9] as u128) * 0x1000000000000 + (v[off
        + 10] as u128) * 0x10000000000 + (v[off + 11] as u128) * 0x100000000 + (v[off
        + 12] as u128) * 0x1000000 + (v[off + 13] as u128) * 0x10000 + (v[off + 14] as u128) * 0x100
        + (v[off + 15] as u128)
}

/// Reads 4 bytes of `v`, starting at `off`, as a big-endian integer.
pub fn be_u32_from(v: &Vec<u8>, off: usize) -> (r: u32)
    requires
        off + 4 <= v.len(),
    ensures
        r as int == be_u32_int(v@, off as int),
{
    (v[off] as u32) * 0x1000000 + (v[off + 1] as u32) * 0x10000 + (v[off + 2] as u32) * 0x100 + (
    v[off + 3] as u32)
}

/// Reads 32 bytes of `v`, starting at `off`, as a big-endian word.
pub fn word_from_be(v: &Vec<u8>, off: usize) -> (r: Word)
    requires
        off + 32 <= v.len(),
    ensures
        r == spec_word_from_be(v@, off as int),
{
    Word { hi: be_u128_from(v, off), lo: be_u128_from(v, off + 16) }
}

// ---------------------------------------------------------------------------
// Safe big-endian address decoding.
// ---------------------------------------------------------------------------

/// The address held right-aligned in the 32 bytes of `s` starting at `off`,
/// or nothing if the 12 leading bytes are not all zero (the bytes then do
/// not form a valid address).
pub open spec fn spec_be_safe_address(s: Seq<u8>, off: int) -> Option<Address> {
    if forall|j: int| 0 <= j < 12 ==> #[trigger] s[off + j] == 0 {
        Some(
            Address {
                hi: be_u32_int(s, off + 12) as u32,
                lo: be_u128_int(s, off + 16) as u128,
            },
        )
    } else {
        None
    }
}

/// Decodes 32 bytes of `v`, starting at `off`, as a right-aligned address;
/// bytes that cannot form a valid address yield `None`.
pub fn be_bytes_to_safe_address(v: &Vec<u8>, off: usize) -> (r: Option<Address>)
    requires
        off + 32 <= v.len(),
    ensures
        r == spec_be_safe_address(v@, off as int),
{
    let mut j: usize = 0;
    while j < 12
        invariant
            j <= 12,
            off + 32 <= v.len(),
            forall|k: int| 0 <= k < j ==> #[trigger] v@[off + k] == 0,
        decreases 12 - j,
    {
        if v[off + j] != 0 {
            return None;
        }
        j += 1;
    }
    Some(Address { hi: be_u32_from(v, off + 12), lo: be_u128_from(v, off + 16) })
}

// ---------------------------------------------------------------------------
// Big-endian byte composition, for presentation.
// ---------------------------------------------------------------------------

/// The 16 big-endian bytes of a 128-bit integer.
pub open spec fn u128_be_bytes(x: u128) -> Seq<u8> {
    seq![
        ((x / 0x1000000000000000000000000000000) % 0x100) as u8,
        ((x / 0x10000000000000000000000000000) % 0x100) as u8,
        ((x / 0x100000000000000000000000000) % 0x100) as u8,
        ((x / 0x1000000000000000000000000) % 0x100) as u8,
        ((x / 0x10000000000000000000000) % 0x100) as u8,
        ((x / 0x100000000000000000000) % 0x100) as u8,
        ((x / 0x1000000000000000000) % 0x100) as u8,
        ((x / 0x10000000000000000) % 0x100) as u8,
        ((x / 0x100000000000000) % 0x100) as u8,
        ((x / 0x1000000000000) % 0x100) as u8,
        ((x / 0x10000000000) % 0x100) as u8,
        ((x / 0x100000000) % 0x100) as u8,
        ((x / 0x1000000) % 0x100) as u8,
        ((x / 0x10000) % 0x100) as u8,
        ((x / 0x100) % 0x100) as u8,
        (x % 0x100) as u8,
    ]
}

/// The 4 big-endian bytes of a 32-bit integer.
pub open spec fn u32_be_bytes(x: u32) -> Seq<u8> {
    seq![
        ((x / 0x1000000) % 0x100) as u8,
        ((x / 0x10000) % 0x100) as u8,
        ((x / 0x100) % 0x100) as u8,
        (x % 0x100) as u8,
    ]
}

/// The 20 big-endian bytes of an address.
pub open spec fn address_be_bytes(a: Address) -> Seq<u8> {
    u32_be_bytes(a.hi) + u128_be_bytes(a.lo)
}

/// The 32 big-endian bytes of a word.
pub open spec fn word_be_bytes(w: Word) -> Seq<u8> {
    u128_be_bytes(w.hi) + u128_be_bytes(w.lo)
}

/// Appends the 16 big-endian bytes of `x` to `out`.
fn push_u128_be(out: &mut Vec<u8>, x: u128)
    ensures
        final(out)@ == old(out)@ + u128_be_bytes(x),
{
    out.push(((x / 0x1000000000000000000000000000000) % 0x100) as u8);
    out.push(((x / 0x10000000000000000000000000000) % 0x100) as u8);
    out.push(((x / 0x100000000000000000000000000) % 0x100) as u8);
    out.push(((x / 0x1000000000000000000000000) % 0x100) as u8);
    out.push(((x / 0x10000000000000000000000) % 0x100) as u8);
    out.push(((x / 0x100000000000000000000) % 0x100) as u8);
    out.push(((x / 0x1000000000000000000) % 0x100) as u8);
    out.push(((x / 0x10000000000000000) % 0x100) as u8);
    out.push(((x / 0x100000000000000) % 0x100) as u8);
    out.push(((x / 0x1000000000000) % 0x100) as u8);
    out.push(((x / 0x10000000000) % 0x100) as u8);
    out.push(((x / 0x100000000) % 0x100) as u8);
    out.push(((x / 0x1000000) % 0x100) as u8);
    out.push(((x / 0x10000) % 0x100) as u8);
    out.push(((x / 0x100) % 0x100) as u8);
    out.push((x % 0x100) as u8);
    proof {
        assert(out@ =~= old(out)@ + u128_be_bytes(x));
    }
}

/// Appends the 4 big-endian bytes of `x` to `out`.
fn push_u32_be(out: &mut Vec<u8>, x: u32)
    ensures
        final(out)@ == old(out)@ + u32_be_bytes(x),
{
    out.push(((x / 0x1000000) % 0x100) as u8);
    out.push(((x / 0x10000) % 0x100) as u8);
    out.push(((x / 0x100) % 0x100) as u8);
    out.push((x % 0x100) as u8);
    proof {
        assert(out@ =~= old(out)@ + u32_be_bytes(x));
    }
}

/// The 20 big-endian bytes of an address, as a vector.
pub fn address_to_be_bytes(a: &Address) -> (r: Vec<u8>)
    ensures
        r@ == address_be_bytes(*a),
{
    let mut out: Vec<u8> = Vec::new();
    push_u32_be(&mut out, a.hi);
    push_u128_be(&mut out, a.lo);
    proof {
        assert(out@ =~= address_be_bytes(*a));
    }
    out
}

/// The 32 big-endian bytes of a word, as a vector.
pub fn word_to_be_bytes(w: &Word) -> (r: Vec<u8>)
    ensures
        r@ == word_be_bytes(*w),
{
    let mut out: Vec<u8> = Vec::new();
    push_u128_be(&mut out, w.hi);
    push_u128_be(&mut out, w.lo);
    proof {
        assert(out@ =~= word_be_bytes(*w));
    }
    out
}

} // verus!
