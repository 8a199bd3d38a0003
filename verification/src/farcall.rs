//! Decoding of packed far-call descriptors.
//!
//! A far call carries its target and its forwarded-memory region in a packed
//! 256-bit descriptor.  The fields the policy reads sit at fixed bit
//! positions: the fat pointer's offset, memory page, start and length are the
//! four 32-bit fields of the low 128 bits, and the forwarding-mode byte is at
//! bits 224..232.

use vstd::prelude::*;

use crate::words::{
    keccak256_precompile_address, spec_keccak256_precompile_address, spec_word_to_address,
    word_to_address, Word,
};

use zk_evm::zkevm_opcode_defs::FarCallABI;
use zk_evm::zkevm_opcode_defs::FarCallForwardPageType as VmForwardPageType;
use zk_evm::zkevm_opcode_defs::ethereum_types::U256;

verus! {

/// How a far call hands its input region to the callee: forward an existing
/// fat pointer, or use the caller's heap or auxiliary heap.
#[derive(Clone, Copy, Debug, PartialEq, Eq, Structural)]
pub enum ForwardPageKind {
    UseHeap,
    ForwardFatPointer,
    UseAuxHeap,
}

/// The parts of a packed far-call descriptor that the policy reads.
#[derive(Clone, Copy, Debug, PartialEq, Eq, Structural)]
pub struct FarCallAbi {
    /// Offset of the forwarded region, relative to `start`.
    pub offset: u32,
    /// Memory page of a forwarded fat pointer.
    pub memory_page: u32,
    /// Absolute start of the forwarded region.
    pub start: u32,
    /// Length of the forwarded region, in bytes.
    pub length: u32,
    /// How the input region is handed to the callee.
    pub forwarding_mode: ForwardPageKind,
}

/// Bits 0..32 of the descriptor: the fat pointer's offset.
pub open spec fn spec_abi_offset(w: Word) -> u128 {
    w.lo % 0x100000000
}

/// Bits 32..64 of the descriptor: the fat pointer's memory page.
pub open spec fn spec_abi_memory_page(w: Word) -> u128 {
    (w.lo / 0x100000000) % 0x100000000
}

/// Bits 64..96 of the descriptor: the fat pointer's start.
pub open spec fn spec_abi_start(w: Word) -> u128 {
    (w.lo / 0x10000000000000000) % 0x100000000
}

/// Bits 96..128 of the descriptor: the fat pointer's length.
pub open spec fn spec_abi_length(w: Word) -> u128 {
    w.lo / 0x1000000000000000000000000
}

/// Bits 224..232 of the descriptor: the forwarding-mode byte.
pub open spec fn spec_abi_forwarding_byte(w: Word) -> u128 {
    (w.hi / 0x1000000000000000000000000) % 0x100
}

/// The forwarding mode named by the descriptor; an out-of-range byte falls
/// back to the heap mode.
pub open spec fn spec_abi_forwarding_mode(w: Word) -> ForwardPageKind {
    if spec_abi_forwarding_byte(w) == 1 {
        ForwardPageKind::ForwardFatPointer
    } else if spec_abi_forwarding_byte(w) == 2 {
        ForwardPageKind::UseAuxHeap
    } else {
        ForwardPageKind::UseHeap
    }
}

/// All the descriptor fields the policy reads.
pub open spec fn spec_decode_far_call_abi(w: Word) -> FarCallAbi {
    FarCallAbi {
        offset: spec_abi_offset(w) as u32,
        memory_page: spec_abi_memory_page(w) as u32,
        start: spec_abi_start(w) as u32,
        length: spec_abi_length(w) as u32,
        forwarding_mode: spec_abi_forwarding_mode(w),
    }
}

/// Relies on the virtual-machine crate's `FarCallABI::from_u256`: the packed
/// descriptor holds the fat pointer's offset, memory page, start and length
/// as the four 32-bit fields of its low 128 bits, the forwarding-mode byte at
/// bits 224..232, and a forwarding byte other than 0, 1 or 2 falls back to
/// the heap mode.
#[verifier::external_body]
fn decode_far_call_abi_call(packed: &Word) -> (r: FarCallAbi)
    ensures
        r == spec_decode_far_call_abi(*packed),
{
    let raw =
        U256([packed.lo as u64, (packed.lo >> 64) as u64, packed.hi as u64, (packed.hi >> 64) as u64]);
    let abi = FarCallABI::from_u256(raw);
    let fp = abi.memory_quasi_fat_pointer;
    let forwarding_mode = match abi.forwarding_mode {
        VmForwardPageType::UseHeap => ForwardPageKind::UseHeap,
        VmForwardPageType::ForwardFatPointer => ForwardPageKind::ForwardFatPointer,
        VmForwardPageType::UseAuxHeap => ForwardPageKind::UseAuxHeap,
    };
    let (offset, memory_page, start, length) = (fp.offset, fp.memory_page, fp.start, fp.length);
    FarCallAbi { offset, memory_page, start, length, forwarding_mode }
}

/// Whether a far call probes the keccak-256 precompile with exactly 64 bytes
/// of input: the call that can make a new storage slot trusted.
pub open spec fn spec_is_keccak_probe(packed_abi: Word, destination_value: Word) -> bool {
    &&& spec_word_to_address(destination_value) == spec_keccak256_precompile_address()
    &&& spec_abi_length(packed_abi) == 64
}

/// Decodes a far call's descriptor and says whether the call probes the
/// keccak-256 precompile with exactly 64 bytes of input; if it does, the
/// decoded descriptor tells the driver where those bytes live.
pub fn keccak_probe_request(packed_abi: &Word, destination_value: &Word) -> (r: Option<FarCallAbi>)
    ensures
        r is Some <==> spec_is_keccak_probe(*packed_abi, *destination_value),
        r is Some ==> r == Some(spec_decode_far_call_abi(*packed_abi)),
{
    let abi = decode_far_call_abi_call(packed_abi);
    let called = word_to_address(destination_value);
    if called == keccak256_precompile_address() && abi.length == 64 {
        Some(abi)
    } else {
        None
    }
}

/// Resolves the forwarding mode to the page the call's input lives on: a
/// forwarded fat pointer names its own page; the heap modes use the caller's
/// heap or auxiliary-heap page, which the memory layout supplies.
pub open spec fn spec_calldata_page(abi: FarCallAbi, heap_page: u32, aux_heap_page: u32) -> u32 {
    match abi.forwarding_mode {
        ForwardPageKind::ForwardFatPointer => abi.memory_page,
        ForwardPageKind::UseHeap => heap_page,
        ForwardPageKind::UseAuxHeap => aux_heap_page,
    }
}

/// The page the call's input bytes live on, given the caller's resolved heap
/// and auxiliary-heap pages.
pub fn get_calldata_page_via_abi(abi: &FarCallAbi, heap_page: u32, aux_heap_page: u32) -> (r: u32)
    ensures
        r == spec_calldata_page(*abi, heap_page, aux_heap_page),
{
    match abi.forwarding_mode {
        ForwardPageKind::ForwardFatPointer => abi.memory_page,
        ForwardPageKind::UseHeap => heap_page,
        ForwardPageKind::UseAuxHeap => aux_heap_page,
    }
}

} // verus!
