use sha3::Digest;

use validation_tracer::tracer::{
    ContextQuery, ExecutionState, NestedValidationFault, ObservedInstruction, ValidationError,
    ValidationHook, ValidationTracer, ValidationTracerMode, ValidationTracerParams,
    ViolatedValidationRule,
};
use validation_tracer::words::{word_from_be, Address, SlotId, Word};

fn addr(lo: u128) -> Address {
    Address { hi: 0, lo }
}

fn word(lo: u128) -> Word {
    Word { hi: 0, lo }
}

fn empty_params(user: Address, limit: u32) -> ValidationTracerParams {
    ValidationTracerParams {
        user_address: user,
        paymaster_address: addr(0xA1),
        trusted_slots: Vec::new(),
        trusted_addresses: Vec::new(),
        trusted_address_slots: Vec::new(),
        computational_gas_limit: limit,
    }
}

fn state(this_address: Address, msg_sender: Address) -> ExecutionState {
    ExecutionState { this_address, msg_sender }
}

fn storage_read(key: Word, stored_value: Word) -> ObservedInstruction {
    ObservedInstruction::StorageRead { key, stored_value }
}

/// A user tracer with user validation already entered.
fn user_tracer(user: Address, limit: u32) -> ValidationTracer {
    let mut t = ValidationTracer::new(empty_params(user, limit));
    let r = t.before_execution(
        0,
        ValidationHook::AccountValidationEntered,
        &state(addr(0x8001), addr(0x8001)),
        &ObservedInstruction::Other,
    );
    assert!(r.is_ok());
    assert_eq!(t.validation_mode, ValidationTracerMode::UserTxValidation);
    t
}

/// A packed far-call descriptor whose fat pointer has the given fields.
fn packed_abi(offset: u32, memory_page: u32, start: u32, length: u32, fwd_byte: u8) -> Word {
    let lo = (offset as u128)
        | ((memory_page as u128) << 32)
        | ((start as u128) << 64)
        | ((length as u128) << 96);
    let hi = (fwd_byte as u128) << 96;
    Word { hi, lo }
}

/// A 64-byte keccak input: the first word a right-aligned address, the
/// second word as given.
fn keccak_input(first: Address, second: &[u8; 32]) -> Vec<u8> {
    let mut v = vec![0u8; 32];
    v[12] = (first.hi >> 24) as u8;
    v[13] = (first.hi >> 16) as u8;
    v[14] = (first.hi >> 8) as u8;
    v[15] = first.hi as u8;
    for i in 0..16 {
        v[16 + i] = (first.lo >> (8 * (15 - i))) as u8;
    }
    v.extend_from_slice(second);
    v
}

fn keccak_probe(input: Vec<u8>) -> ObservedInstruction {
    ObservedInstruction::FarCall {
        packed_abi: packed_abi(0, 0, 0, 64, 0),
        destination_value: word(0x8010),
        keccak_input: Some(input),
        destination_code_hash: word(0),
    }
}

fn plain_far_call(destination: Address, code_hash: Word) -> ObservedInstruction {
    ObservedInstruction::FarCall {
        packed_abi: packed_abi(0, 0, 0, 36, 0),
        destination_value: Word { hi: destination.hi as u128, lo: destination.lo },
        keccak_input: None,
        destination_code_hash: code_hash,
    }
}

fn digest_word(input: &[u8]) -> Word {
    let digest: Vec<u8> = sha3::Keccak256::digest(input).to_vec();
    word_from_be(&digest, 0)
}

// --- the scenario of the design: own slot allowed, unrelated slot latched ---

#[test]
fn scenario_own_slot_then_unrelated_slot() {
    let user = addr(0xAA);
    let mut t = user_tracer(user, 1000);

    // Instruction 1: a storage read at (user, 0) is allowed.
    let r = t.before_execution(
        1,
        ValidationHook::Irrelevant,
        &state(user, addr(0xAA)),
        &storage_read(word(0), word(0)),
    );
    assert!(r.is_ok());
    assert!(t.validation_error.is_none());

    // Instruction 2: a storage read at (0xBB, 7) with no trust relationship.
    let r = t.before_execution(
        1,
        ValidationHook::Irrelevant,
        &state(addr(0xBB), addr(0xAA)),
        &storage_read(word(7), word(0)),
    );
    assert!(r.is_ok());
    assert_eq!(
        t.validation_error,
        Some(ViolatedValidationRule::TouchedUnallowedStorageSlots(addr(0xBB), word(7)))
    );
    // The violation is latched separately from the stop flag.
    assert!(!t.should_stop_execution());
}

// --- trust sets ---

#[test]
fn trusted_slot_is_readable_by_any_caller() {
    let user = addr(0xAA);
    let mut params = empty_params(user, 1000);
    params.trusted_slots.push(SlotId { address: addr(0xBB), key: word(7) });
    let mut t = ValidationTracer::new(params);
    let r = t.before_execution(
        0,
        ValidationHook::AccountValidationEntered,
        &state(addr(0x8001), addr(0x8001)),
        &ObservedInstruction::Other,
    );
    assert!(r.is_ok());
    assert!(t.is_allowed_storage_read(&addr(0xBB), &word(7), &addr(0xC0), &word(0)));
    assert!(!t.is_allowed_storage_read(&addr(0xBB), &word(8), &addr(0xC0), &word(0)));
}

#[test]
fn trusted_address_is_readable_at_any_key() {
    let user = addr(0xAA);
    let mut params = empty_params(user, 1000);
    params.trusted_addresses.push(addr(0xBB));
    let t = {
        let mut t = ValidationTracer::new(params);
        let r = t.before_execution(
            0,
            ValidationHook::AccountValidationEntered,
            &state(addr(0x8001), addr(0x8001)),
            &ObservedInstruction::Other,
        );
        assert!(r.is_ok());
        t
    };
    assert!(t.is_allowed_storage_read(&addr(0xBB), &word(7), &addr(0xC0), &word(0)));
    assert!(t.is_allowed_storage_read(&addr(0xBB), &word(12345), &addr(0xC1), &word(0)));
}

#[test]
fn trusted_address_slot_read_trusts_its_value() {
    let user = addr(0xAA);
    let mut params = empty_params(user, 1000);
    params.trusted_address_slots.push(SlotId { address: addr(0xDD), key: word(3) });
    let mut t = ValidationTracer::new(params);
    let r = t.before_execution(
        0,
        ValidationHook::AccountValidationEntered,
        &state(addr(0x8001), addr(0x8001)),
        &ObservedInstruction::Other,
    );
    assert!(r.is_ok());
    // Before the indirection slot is read, its value is not trusted.
    assert!(!t.is_allowed_storage_read(&addr(0xEE), &word(9), &addr(0xC0), &word(0)));
    // Reading the indirection slot, whose current value names 0xEE.
    let r = t.before_execution(
        1,
        ValidationHook::Irrelevant,
        &state(addr(0xDD), addr(0xAA)),
        &storage_read(word(3), word(0xEE)),
    );
    assert!(r.is_ok());
    assert!(t.validation_error.is_none());
    // Now any slot at 0xEE is readable.
    assert!(t.is_allowed_storage_read(&addr(0xEE), &word(9), &addr(0xC0), &word(0)));
}

// --- system context ---

#[test]
fn system_context_only_slot_zero_is_readable() {
    let user = addr(0xAA);
    let t = user_tracer(user, 1000);
    let ctx = addr(0x800b);
    assert!(t.is_allowed_storage_read(&ctx, &word(0), &addr(0xC0), &word(0)));
    assert!(!t.is_allowed_storage_read(&ctx, &word(1), &addr(0xC0), &word(0)));
    assert!(!t.is_allowed_storage_read(&ctx, &word(2), &addr(0xC0), &word(0)));
}

// --- the protocol's own value-transfer path ---

#[test]
fn eth_token_readable_for_protocol_callers_only() {
    let user = addr(0xAA);
    let t = user_tracer(user, 1000);
    let token = addr(0x800a);
    assert!(t.is_allowed_storage_read(&token, &word(5), &addr(0x8009), &word(0)));
    assert!(t.is_allowed_storage_read(&token, &word(5), &addr(0x8006), &word(0)));
    assert!(t.is_allowed_storage_read(&token, &word(5), &addr(0x8001), &word(0)));
    assert!(!t.is_allowed_storage_read(&token, &word(5), &addr(0xC0), &word(0)));
}

// --- code-hash probing ---

#[test]
fn code_hash_probe_allowed_when_code_exists() {
    let user = addr(0xAA);
    let t = user_tracer(user, 1000);
    let code_storage = addr(0x8002);
    assert!(t.is_allowed_storage_read(&code_storage, &word(0xBB), &addr(0xC0), &word(1)));
    assert!(!t.is_allowed_storage_read(&code_storage, &word(0xBB), &addr(0xC0), &word(0)));
}

// --- far calls ---

#[test]
fn far_call_to_codeless_contract_is_violation() {
    let user = addr(0xAA);
    let mut t = user_tracer(user, 1000);
    let r = t.before_execution(
        1,
        ValidationHook::Irrelevant,
        &state(user, addr(0xAA)),
        &plain_far_call(addr(0xBB), word(0)),
    );
    assert!(r.is_ok());
    assert_eq!(
        t.validation_error,
        Some(ViolatedValidationRule::CalledContractWithNoCode(addr(0xBB)))
    );
}

#[test]
fn far_call_to_contract_with_code_is_fine() {
    let user = addr(0xAA);
    let mut t = user_tracer(user, 1000);
    let r = t.before_execution(
        1,
        ValidationHook::Irrelevant,
        &state(user, addr(0xAA)),
        &plain_far_call(addr(0xBB), word(0x1234)),
    );
    assert!(r.is_ok());
    assert!(t.validation_error.is_none());
}

#[test]
fn far_call_to_codeless_user_is_fine() {
    let user = addr(0xAA);
    let mut t = user_tracer(user, 1000);
    let r = t.before_execution(
        1,
        ValidationHook::Irrelevant,
        &state(user, addr(0xAA)),
        &plain_far_call(user, word(0)),
    );
    assert!(r.is_ok());
    assert!(t.validation_error.is_none());
}

// --- the keccak-call interpreter ---

#[test]
fn keccak_probe_with_user_first_word_adds_digest_slot() {
    let user = addr(0xAA);
    let mut t = user_tracer(user, 1000);
    let input = keccak_input(user, &[0x11u8; 32]);
    let expected = digest_word(&input);
    let r = t.before_execution(
        1,
        ValidationHook::Irrelevant,
        &state(user, addr(0xAA)),
        &keccak_probe(input),
    );
    assert!(r.is_ok());
    assert!(t.validation_error.is_none());
    assert_eq!(t.auxiliary_allowed_slots, vec![expected]);
    // The derived slot is now a readable key anywhere the user executes.
    assert!(t.is_allowed_storage_read(&addr(0xBB), &expected, &addr(0xC0), &word(0)));
}

#[test]
fn keccak_probe_with_unrelated_words_adds_nothing() {
    let user = addr(0xAA);
    let mut t = user_tracer(user, 1000);
    let input = keccak_input(addr(0xCC), &[0x11u8; 32]);
    let r = t.before_execution(
        1,
        ValidationHook::Irrelevant,
        &state(user, addr(0xAA)),
        &keccak_probe(input),
    );
    assert!(r.is_ok());
    assert!(t.validation_error.is_none());
    assert!(t.auxiliary_allowed_slots.is_empty());
}

#[test]
fn keccak_probe_with_unsafe_first_word_adds_nothing() {
    let user = addr(0xAA);
    let t = user_tracer(user, 1000);
    // A first word whose leading bytes are not zero decodes to no address.
    let mut input = keccak_input(user, &[0x11u8; 32]);
    input[0] = 0x01;
    let r = t.slot_to_add_from_keccak_call(&input, &user);
    assert!(r.is_none());
}

#[test]
fn keccak_nested_mapping_extends_through_sub_key() {
    let user = addr(0xAA);
    let mut t = user_tracer(user, 1000);

    // First probe: mapping(address => ...) rooted at the user.
    let first = keccak_input(user, &[0x22u8; 32]);
    let first_digest: Vec<u8> = sha3::Keccak256::digest(&first).to_vec();
    let r = t.before_execution(
        1,
        ValidationHook::Irrelevant,
        &state(user, addr(0xAA)),
        &keccak_probe(first.clone()),
    );
    assert!(r.is_ok());

    // Second probe: the first digest as sub-key, any first word.
    let mut second_word = [0u8; 32];
    second_word.copy_from_slice(&first_digest);
    let second = keccak_input(addr(0xCC), &second_word);
    let expected = digest_word(&second);
    let r = t.before_execution(
        1,
        ValidationHook::Irrelevant,
        &state(user, addr(0xAA)),
        &keccak_probe(second),
    );
    assert!(r.is_ok());
    assert!(t.validation_error.is_none());
    assert!(t.auxiliary_allowed_slots.contains(&expected));
}

// --- the computational budget ---

#[test]
fn budget_violation_is_permanent_and_first_wins() {
    let user = addr(0xAA);
    let mut t = user_tracer(user, 10);

    // This instruction is evaluated within budget but charges past it.
    let r = t.before_execution(
        11,
        ValidationHook::Irrelevant,
        &state(user, addr(0xAA)),
        &ObservedInstruction::Other,
    );
    assert!(r.is_ok());
    assert!(t.validation_error.is_none());
    assert_eq!(t.computational_gas_used(), 11);

    // From now on every evaluation reports the exceeded budget.
    let r = t.before_execution(
        0,
        ValidationHook::Irrelevant,
        &state(user, addr(0xAA)),
        &ObservedInstruction::Other,
    );
    assert!(r.is_ok());
    assert_eq!(
        t.validation_error,
        Some(ViolatedValidationRule::TookTooManyComputationalGas(10))
    );

    // A later violation never overwrites the latched one.
    let r = t.before_execution(
        0,
        ValidationHook::Irrelevant,
        &state(user, addr(0xAA)),
        &ObservedInstruction::Context { query: ContextQuery::Meta },
    );
    assert!(r.is_ok());
    assert_eq!(
        t.validation_error,
        Some(ViolatedValidationRule::TookTooManyComputationalGas(10))
    );
}

#[test]
fn gas_charging_saturates() {
    let user = addr(0xAA);
    let mut t = user_tracer(user, u32::MAX);
    for _ in 0..2 {
        let r = t.before_execution(
            u32::MAX,
            ValidationHook::Irrelevant,
            &state(user, addr(0xAA)),
            &ObservedInstruction::Other,
        );
        assert!(r.is_ok());
    }
    assert_eq!(t.computational_gas_used(), u32::MAX);
}

// --- context queries ---

#[test]
fn context_meta_is_violation_ergs_left_is_not() {
    let user = addr(0xAA);
    let mut t = user_tracer(user, 1000);
    let r = t.before_execution(
        1,
        ValidationHook::Irrelevant,
        &state(user, addr(0xAA)),
        &ObservedInstruction::Context { query: ContextQuery::ErgsLeft },
    );
    assert!(r.is_ok());
    assert!(t.validation_error.is_none());
    let r = t.before_execution(
        1,
        ValidationHook::Irrelevant,
        &state(user, addr(0xAA)),
        &ObservedInstruction::Context { query: ContextQuery::OtherQuery },
    );
    assert!(r.is_ok());
    assert!(t.validation_error.is_none());
    let r = t.before_execution(
        1,
        ValidationHook::Irrelevant,
        &state(user, addr(0xAA)),
        &ObservedInstruction::Context { query: ContextQuery::Meta },
    );
    assert!(r.is_ok());
    assert_eq!(
        t.validation_error,
        Some(ViolatedValidationRule::TouchedUnallowedContext)
    );
}

// --- the state machine ---

#[test]
fn phases_enter_and_unwind() {
    let user = addr(0xAA);
    let mut t = ValidationTracer::new(empty_params(user, 1000));
    assert_eq!(t.validation_mode, ValidationTracerMode::NoValidation);
    let s = state(addr(0x8001), addr(0x8001));

    let r = t.before_execution(0, ValidationHook::PaymasterValidationEntered, &s, &ObservedInstruction::Other);
    assert!(r.is_ok());
    assert_eq!(t.validation_mode, ValidationTracerMode::PaymasterTxValidation);

    let r = t.before_execution(0, ValidationHook::NoValidationEntered, &s, &ObservedInstruction::Other);
    assert!(r.is_ok());
    assert_eq!(t.validation_mode, ValidationTracerMode::NoValidation);

    let r = t.before_execution(0, ValidationHook::AccountValidationEntered, &s, &ObservedInstruction::Other);
    assert!(r.is_ok());
    assert_eq!(t.validation_mode, ValidationTracerMode::UserTxValidation);

    assert!(!t.should_stop_execution());
    let r = t.before_execution(0, ValidationHook::ValidationStepEnded, &s, &ObservedInstruction::Other);
    assert!(r.is_ok());
    assert!(t.should_stop_execution());
    // The stop flag does not change the phase.
    assert_eq!(t.validation_mode, ValidationTracerMode::UserTxValidation);
}

#[test]
fn nested_validation_entry_is_fatal_fault() {
    let user = addr(0xAA);
    let mut t = user_tracer(user, 1000);
    let s = state(user, addr(0xAA));

    let r = t.before_execution(0, ValidationHook::AccountValidationEntered, &s, &ObservedInstruction::Other);
    assert_eq!(
        r,
        Err(NestedValidationFault {
            mode: ValidationTracerMode::UserTxValidation,
            hook: ValidationHook::AccountValidationEntered,
        })
    );
    // The fault is not a recoverable rule violation.
    assert!(t.validation_error.is_none());

    let r = t.before_execution(0, ValidationHook::PaymasterValidationEntered, &s, &ObservedInstruction::Other);
    assert_eq!(
        r,
        Err(NestedValidationFault {
            mode: ValidationTracerMode::UserTxValidation,
            hook: ValidationHook::PaymasterValidationEntered,
        })
    );
}

#[test]
fn paymaster_validation_is_tracked_but_not_checked() {
    let user = addr(0xAA);
    let mut t = ValidationTracer::new(empty_params(user, 1000));
    let s = state(addr(0x8001), addr(0x8001));
    let r = t.before_execution(0, ValidationHook::PaymasterValidationEntered, &s, &ObservedInstruction::Other);
    assert!(r.is_ok());
    // A read that user validation would reject passes unchecked here.
    let r = t.before_execution(
        1,
        ValidationHook::Irrelevant,
        &state(addr(0xBB), addr(0xC0)),
        &storage_read(word(7), word(0)),
    );
    assert!(r.is_ok());
    assert!(t.validation_error.is_none());
    // And no gas is charged outside user validation.
    assert_eq!(t.computational_gas_used(), 0);
}

// --- messages ---

#[test]
fn rule_messages_match_their_wording() {
    assert_eq!(
        ViolatedValidationRule::TouchedUnallowedContext.message(),
        "Touched unallowed context"
    );
    assert_eq!(
        ViolatedValidationRule::TookTooManyComputationalGas(1000).message(),
        "Took too many computational gas, allowed limit: 1000"
    );
    assert_eq!(
        ViolatedValidationRule::CalledContractWithNoCode(addr(0xBB)).message(),
        "Called contract with no code: 00000000000000000000000000000000000000bb"
    );
    assert_eq!(
        ViolatedValidationRule::TouchedUnallowedStorageSlots(addr(0xBB), word(7)).message(),
        "Touched unallowed storage slots: address 00000000000000000000000000000000000000bb, \
         key: 0000000000000000000000000000000000000000000000000000000000000007"
    );
}

#[test]
fn error_messages_match_their_wording() {
    assert_eq!(
        ValidationError::FailedTx("out of gas".to_string()).message(),
        "Validation revert: out of gas"
    );
    assert_eq!(
        ValidationError::ViolatedRule(ViolatedValidationRule::TouchedUnallowedContext).message(),
        "Violated validation rules: Touched unallowed context"
    );
}
