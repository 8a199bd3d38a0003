//! The guarantees the tracer gives, stated and proved once and for all.

use vstd::prelude::*;

use crate::farcall::spec_is_keccak_probe;
use crate::keccak::keccak_of;
use crate::tracer::{
    spec_after_round, spec_allowed_storage_read, spec_hook_faults, spec_keccak_slot_to_add,
    spec_merge_round, spec_round_outcome, ContextQuery, ExecutionState, InstructionView,
    NewItemsView, TracerModel, ValidationHook, ValidationTracerMode, ViolatedValidationRule,
};
use crate::words::{
    spec_be_safe_address, spec_system_context_address, spec_word_from_be, spec_word_to_address,
    Address, SlotId, Word,
};

verus! {

/// Law: a slot in the trusted-slots set may be read by any caller, in any
/// phase, whatever the slot currently holds.
pub proof fn lemma_trusted_slot_always_readable(
    m: TracerModel,
    address: Address,
    key: Word,
    msg_sender: Address,
    stored_value: Word,
)
    requires
        m.trusted_slots.contains((SlotId { address, key })),
    ensures
        spec_allowed_storage_read(m, address, key, msg_sender, stored_value),
{
}

/// Law: at an address in the trusted-addresses set any key may be read, by
/// any caller, in any phase.
pub proof fn lemma_trusted_address_always_readable(
    m: TracerModel,
    address: Address,
    key: Word,
    msg_sender: Address,
    stored_value: Word,
)
    requires
        m.trusted_addresses.contains(address),
    ensures
        spec_allowed_storage_read(m, address, key, msg_sender, stored_value),
{
}

/// Law: system-context slot 0, the chain id, is always readable.
pub proof fn lemma_system_context_chain_id_readable(
    m: TracerModel,
    msg_sender: Address,
    stored_value: Word,
)
    ensures
        spec_allowed_storage_read(
            m,
            spec_system_context_address(),
            Word::spec_zero(),
            msg_sender,
            stored_value,
        ),
{
}

/// Law: during user validation no system-context slot other than slot 0 is
/// readable, unless some unrelated allowance covers it; the premises rule
/// those out (the slot is in no trust set, the user is not the context
/// contract itself, and the key neither aliases the user nor was made
/// trusted at run time).
pub proof fn lemma_system_context_other_slots_disallowed(
    m: TracerModel,
    key: Word,
    msg_sender: Address,
    stored_value: Word,
)
    requires
        m.mode is UserTxValidation,
        key != Word::spec_zero(),
        !m.trusted_slots.contains((SlotId { address: spec_system_context_address(), key })),
        !m.trusted_addresses.contains(spec_system_context_address()),
        !m.trusted_address_slots.contains((SlotId { address: spec_system_context_address(), key })),
        m.user_address != spec_system_context_address(),
        spec_word_to_address(key) != m.user_address,
        !m.aux_allowed_slots.contains(key),
    ensures
        !spec_allowed_storage_read(
            m,
            spec_system_context_address(),
            key,
            msg_sender,
            stored_value,
        ),
{
}

/// Law: a far call to a destination with a zero code hash, where the
/// destination is not the user, is the no-code violation — whenever the
/// budget was not already exceeded and the call is not a keccak probe.
pub proof fn lemma_call_without_code_is_violation(
    m: TracerModel,
    state: ExecutionState,
    packed_abi: Word,
    destination_value: Word,
)
    requires
        m.gas_used <= m.gas_limit,
        !spec_is_keccak_probe(packed_abi, destination_value),
        spec_word_to_address(destination_value) != m.user_address,
    ensures
        spec_round_outcome(
            m,
            state,
            (InstructionView::FarCall {
                packed_abi,
                destination_value,
                keccak_input: None,
                destination_code_hash: Word::spec_zero(),
            }),
        ) == Err::<NewItemsView, ViolatedValidationRule>(
            ViolatedValidationRule::CalledContractWithNoCode(
                spec_word_to_address(destination_value),
            ),
        ),
{
}

/// Law: a 64-byte keccak probe whose first word decodes to the user's
/// address yields exactly one new trusted slot: the digest of the whole
/// input.
pub proof fn lemma_keccak_user_mapping_adds_digest_slot(
    m: TracerModel,
    state: ExecutionState,
    packed_abi: Word,
    destination_value: Word,
    input: Seq<u8>,
    destination_code_hash: Word,
)
    requires
        m.gas_used <= m.gas_limit,
        spec_is_keccak_probe(packed_abi, destination_value),
        input.len() == 64,
        spec_be_safe_address(input, 0) == Some(m.user_address),
    ensures
        spec_round_outcome(
            m,
            state,
            (InstructionView::FarCall {
                packed_abi,
                destination_value,
                keccak_input: Some(input),
                destination_code_hash,
            }),
        ) == Ok::<NewItemsView, ViolatedValidationRule>(
            (NewItemsView {
                slots: seq![spec_word_from_be(keccak_of(input), 0)],
                addresses: Seq::empty(),
            }),
        ),
{
}

/// Law: the same probe with an unrelated first word and an untrusted second
/// word yields no new trusted slot.
pub proof fn lemma_keccak_unrelated_probe_adds_nothing(
    m: TracerModel,
    state: ExecutionState,
    packed_abi: Word,
    destination_value: Word,
    input: Seq<u8>,
    destination_code_hash: Word,
)
    requires
        m.gas_used <= m.gas_limit,
        spec_is_keccak_probe(packed_abi, destination_value),
        input.len() == 64,
        spec_be_safe_address(input, 0) != Some(m.user_address),
        !m.aux_allowed_slots.contains(spec_word_from_be(input, 32)),
    ensures
        spec_round_outcome(
            m,
            state,
            (InstructionView::FarCall {
                packed_abi,
                destination_value,
                keccak_input: Some(input),
                destination_code_hash,
            }),
        ) == Ok::<NewItemsView, ViolatedValidationRule>(NewItemsView::empty()),
{
}

/// Law: nested mappings stay reachable.  Once one keccak probe has made its
/// digest slot trusted and the round was merged, a second probe that uses
/// that very digest as its second word derives a new trusted slot, whatever
/// its first word holds.
pub proof fn lemma_keccak_nested_mapping(
    aux_before: Seq<Word>,
    aux_after: Seq<Word>,
    first: Seq<u8>,
    second: Seq<u8>,
    user_address: Address,
)
    requires
        first.len() == 64,
        second.len() == 64,
        spec_keccak_slot_to_add(aux_before, first, user_address) is Some,
        aux_after == aux_before + seq![spec_word_from_be(keccak_of(first), 0)],
        spec_word_from_be(second, 32) == spec_word_from_be(keccak_of(first), 0),
    ensures
        spec_keccak_slot_to_add(aux_after, second, user_address) == Some(
            spec_word_from_be(keccak_of(second), 0),
        ),
{
    assert(aux_after[aux_before.len() as int] == spec_word_from_be(second, 32));
    assert(aux_after.contains(spec_word_from_be(second, 32)));
}

/// Law: once the budget has been exceeded, every evaluation on the same
/// state yields the budget violation, whatever the instruction, and the
/// whole step leaves the budget exceeded — so every later evaluation yields
/// it too.
pub proof fn lemma_budget_violation_is_permanent(
    m: TracerModel,
    gas_price: u32,
    state: ExecutionState,
    instr: InstructionView,
)
    requires
        m.gas_used > m.gas_limit,
    ensures
        spec_round_outcome(m, state, instr) == Err::<NewItemsView, ViolatedValidationRule>(
            ViolatedValidationRule::TookTooManyComputationalGas(m.gas_limit),
        ),
        spec_after_round(m, gas_price, state, instr).gas_used > spec_after_round(
            m,
            gas_price,
            state,
            instr,
        ).gas_limit,
{
}

/// Law: the charged gas never decreases, whatever one step does.
pub proof fn lemma_gas_monotonic(
    m: TracerModel,
    gas_price: u32,
    state: ExecutionState,
    instr: InstructionView,
)
    ensures
        spec_after_round(m, gas_price, state, instr).gas_used >= m.gas_used,
{
}

/// Law: querying the full machine metadata yields the context violation
/// whenever the budget was not already exceeded.
pub proof fn lemma_context_meta_disallowed(m: TracerModel, state: ExecutionState)
    requires
        m.gas_used <= m.gas_limit,
    ensures
        spec_round_outcome(m, state, (InstructionView::Context { query: ContextQuery::Meta }))
            == Err::<NewItemsView, ViolatedValidationRule>(
            ViolatedValidationRule::TouchedUnallowedContext,
        ),
{
}

/// Law: querying the remaining gas never yields the context violation, in
/// any state.
pub proof fn lemma_context_ergs_left_allowed(m: TracerModel, state: ExecutionState)
    ensures
        spec_round_outcome(m, state, (InstructionView::Context { query: ContextQuery::ErgsLeft }))
            != Err::<NewItemsView, ViolatedValidationRule>(
            ViolatedValidationRule::TouchedUnallowedContext,
        ),
        m.gas_used <= m.gas_limit ==> spec_round_outcome(
            m,
            state,
            (InstructionView::Context { query: ContextQuery::ErgsLeft }),
        ) == Ok::<NewItemsView, ViolatedValidationRule>(NewItemsView::empty()),
{
}

/// Law: entering user or paymaster validation while any validation phase is
/// active is the fatal protocol fault, never a recoverable rule violation.
pub proof fn lemma_nested_entry_faults(mode: ValidationTracerMode, hook: ValidationHook)
    requires
        !(mode is NoValidation),
        hook is AccountValidationEntered || hook is PaymasterValidationEntered,
    ensures
        spec_hook_faults(mode, hook),
{
}

/// Law: the trust sets only grow.  Whatever one step merges, every slot and
/// every address trusted before is still trusted after.
pub proof fn lemma_trust_sets_grow(
    m: TracerModel,
    gas_price: u32,
    state: ExecutionState,
    instr: InstructionView,
)
    ensures
        forall|w: Word|
            m.aux_allowed_slots.contains(w) ==> #[trigger] spec_after_round(
                m,
                gas_price,
                state,
                instr,
            ).aux_allowed_slots.contains(w),
        forall|a: Address|
            m.trusted_addresses.contains(a) ==> #[trigger] spec_after_round(
                m,
                gas_price,
                state,
                instr,
            ).trusted_addresses.contains(a),
{
    let stepped = spec_after_round(m, gas_price, state, instr);
    assert forall|w: Word| m.aux_allowed_slots.contains(w) implies stepped.aux_allowed_slots.contains(
        w,
    ) by {
        let i = choose|i: int|
            0 <= i < m.aux_allowed_slots.len() && m.aux_allowed_slots[i] == w;
        assert(stepped.aux_allowed_slots[i] == w);
    }
    assert forall|a: Address| m.trusted_addresses.contains(a) implies stepped.trusted_addresses.contains(
        a,
    ) by {
        let i = choose|i: int|
            0 <= i < m.trusted_addresses.len() && m.trusted_addresses[i] == a;
        assert(stepped.trusted_addresses[i] == a);
    }
}

/// Law: merging a violation latches it: the first broken rule is kept and a
/// later one never overwrites it.
pub proof fn lemma_first_violation_wins(m: TracerModel, rule: ViolatedValidationRule)
    ensures
        m.error is None ==> spec_merge_round(
            m,
            Err::<NewItemsView, ViolatedValidationRule>(rule),
        ).error == Some(rule),
        m.error is Some ==> spec_merge_round(
            m,
            Err::<NewItemsView, ViolatedValidationRule>(rule),
        ).error == m.error,
{
}

/// Law: outside user validation one step evaluates no rule and charges no
/// gas: the state is untouched.  Paymaster validation is tracked but, by
/// design, not rule-checked.
pub proof fn lemma_only_user_validation_is_checked(
    m: TracerModel,
    gas_price: u32,
    state: ExecutionState,
    instr: InstructionView,
)
    requires
        !(m.mode is UserTxValidation),
    ensures
        spec_after_round(m, gas_price, state, instr) == m,
{
}

} // verus!


