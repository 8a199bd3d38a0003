//! The validation tracer: phase tracking, trust sets, budget and the
//! per-instruction rule evaluator.

use vstd::prelude::*;

use crate::farcall::{keccak_probe_request, spec_is_keccak_probe};
use crate::keccak::{keccak256, keccak_of};
use crate::policy::{
    is_constant_code_hash, spec_is_constant_code_hash, spec_touches_allowed_context,
    spec_valid_eth_token_call, touches_allowed_context, valid_eth_token_call,
};
use crate::words::{
    be_bytes_to_safe_address, spec_be_safe_address, spec_word_from_be, spec_word_to_address,
    word_from_be, word_to_address, Address, SlotId, Word,
};

verus! {

/// Which validation phase is active.
#[derive(Debug, Clone, Copy, Eq, PartialEq, Structural)]
pub enum ValidationTracerMode {
    /// The transaction is being validated by the user's account code.
    UserTxValidation,
    /// The transaction is being validated by the paymaster.
    PaymasterTxValidation,
    /// No restrictions on the execution.
    NoValidation,
}

/// A policy rule that the validated code broke.  The first rule observed is
/// latched and reported as the reason the transaction was rejected.
#[derive(Debug, Clone, Copy, PartialEq, Eq, Structural)]
pub enum ViolatedValidationRule {
    /// A storage read outside every allowance, at (contract, key).
    TouchedUnallowedStorageSlots(Address, Word),
    /// A far call to a destination with no deployed code.
    CalledContractWithNoCode(Address),
    /// A query of the full machine metadata.
    TouchedUnallowedContext,
    /// The computational budget (the carried limit) was exceeded.
    TookTooManyComputationalGas(u32),
}

/// Why validation failed: the transaction reverted on its own, or the
/// validated code broke a policy rule.
#[derive(Debug, Clone)]
pub enum ValidationError {
    /// The validation-phase execution reverted; carries the revert reason.
    FailedTx(String),
    /// The validated code broke a policy rule.
    ViolatedRule(ViolatedValidationRule),
}

/// A lifecycle signal the machine's hook classifier emits alongside an
/// instruction.  Its detection is the classifier's concern; only its meaning
/// is consumed here.
#[derive(Debug, Clone, Copy, PartialEq, Eq, Structural)]
pub enum ValidationHook {
    /// The user's account-validation code starts.
    AccountValidationEntered,
    /// The paymaster-validation code starts.
    PaymasterValidationEntered,
    /// Validation is turned off; normal phase completion unwinds this way.
    NoValidationEntered,
    /// The whole validation step is over; execution must halt.
    ValidationStepEnded,
    /// A signal the tracer does not care about.
    Irrelevant,
}

/// The context-query kinds the policy distinguishes.
#[derive(Debug, Clone, Copy, PartialEq, Eq, Structural)]
pub enum ContextQuery {
    /// The full machine metadata; disallowed during user validation.
    Meta,
    /// The remaining gas; explicitly allowed.
    ErgsLeft,
    /// Any other context query; allowed.
    OtherQuery,
}

/// The fatal protocol fault: a validation phase was entered while another
/// one was active.  Phases never nest; when this is reported the hook
/// classifier and the tracer are out of sync and the driver must abort the
/// process rather than continue with corrupted state.  It is deliberately a
/// separate type from [`ViolatedValidationRule`]: it is not a reportable,
/// user-triggerable error.
#[derive(Debug, Clone, Copy, PartialEq, Eq, Structural)]
pub struct NestedValidationFault {
    /// The phase that was already active.
    pub mode: ValidationTracerMode,
    /// The entering signal that arrived while it was active.
    pub hook: ValidationHook,
}

/// The call-stack top of the machine at the instruction about to execute.
#[derive(Debug, Clone, Copy, PartialEq, Eq, Structural)]
pub struct ExecutionState {
    /// The contract whose code is executing.
    pub this_address: Address,
    /// The caller of the current call frame.
    pub msg_sender: Address,
}

/// One instruction about to execute, with the outside values its evaluation
/// reads already fetched by the driver: the 64 input bytes of a keccak
/// probe, the destination's stored code hash for any other far call, and
/// the current stored word of the slot a storage read touches.
#[derive(Debug, Clone)]
pub enum ObservedInstruction {
    /// A cross-contract call, with its packed descriptor and destination.
    FarCall {
        packed_abi: Word,
        destination_value: Word,
        /// The forwarded input bytes, exactly when the call is a 64-byte
        /// keccak-precompile probe.
        keccak_input: Option<Vec<u8>>,
        /// The code hash the storage backend holds for the destination.
        destination_code_hash: Word,
    },
    /// A context query.
    Context { query: ContextQuery },
    /// A storage read at `key` of the executing contract.
    StorageRead {
        key: Word,
        /// The word the storage backend currently holds at that slot.
        stored_value: Word,
    },
    /// Any other instruction; never an outcome.
    Other,
}

/// The view of an observed instruction.
#[verifier::ext_equal]
pub ghost enum InstructionView {
    FarCall {
        packed_abi: Word,
        destination_value: Word,
        keccak_input: Option<Seq<u8>>,
        destination_code_hash: Word,
    },
    Context { query: ContextQuery },
    StorageRead { key: Word, stored_value: Word },
    Other,
}

impl View for ObservedInstruction {
    type V = InstructionView;

    open spec fn view(&self) -> InstructionView {
        match self {
            ObservedInstruction::FarCall {
                packed_abi,
                destination_value,
                keccak_input,
                destination_code_hash,
            } => InstructionView::FarCall {
                packed_abi: *packed_abi,
                destination_value: *destination_value,
                keccak_input: match keccak_input {
                    Some(input) => Some(input@),
                    None => None,
                },
                destination_code_hash: *destination_code_hash,
            },
            ObservedInstruction::Context { query } => InstructionView::Context { query: *query },
            ObservedInstruction::StorageRead { key, stored_value } => InstructionView::StorageRead {
                key: *key,
                stored_value: *stored_value,
            },
            ObservedInstruction::Other => InstructionView::Other,
        }
    }
}

/// An observed instruction is well formed when it carries the keccak input
/// bytes exactly for a 64-byte keccak-precompile probe, and those bytes are
/// the probe's 64 input bytes.
pub open spec fn spec_instruction_wf(iv: InstructionView) -> bool {
    match iv {
        InstructionView::FarCall { packed_abi, destination_value, keccak_input, .. } => {
            match keccak_input {
                Some(input) => spec_is_keccak_probe(packed_abi, destination_value) && input.len()
                    == 64,
                None => !spec_is_keccak_probe(packed_abi, destination_value),
            }
        },
        _ => true,
    }
}

/// Newly trusted items one evaluated instruction proposes: storage slots for
/// the auxiliary allowed set and addresses for the trusted-address set.
#[derive(Debug, Clone)]
pub struct NewTrustedValidationItems {
    pub new_allowed_slots: Vec<Word>,
    pub new_trusted_addresses: Vec<Address>,
}

/// The view of proposed trusted items.
#[verifier::ext_equal]
pub ghost struct NewItemsView {
    pub slots: Seq<Word>,
    pub addresses: Seq<Address>,
}

impl NewItemsView {
    /// No new items.
    pub open spec fn empty() -> NewItemsView {
        NewItemsView { slots: Seq::empty(), addresses: Seq::empty() }
    }
}

impl View for NewTrustedValidationItems {
    type V = NewItemsView;

    open spec fn view(&self) -> NewItemsView {
        NewItemsView { slots: self.new_allowed_slots@, addresses: self.new_trusted_addresses@ }
    }
}

impl Default for NewTrustedValidationItems {
    /// No new items.
    fn default() -> (r: Self)
        ensures
            r@ == NewItemsView::empty(),
    {
        let r = NewTrustedValidationItems {
            new_allowed_slots: Vec::new(),
            new_trusted_addresses: Vec::new(),
        };
        proof {
            assert(r@ =~= NewItemsView::empty());
        }
        r
    }
}

/// What one evaluated instruction produced: new trusted items, or the rule
/// it broke.  Never both.
pub type ValidationRoundResult = Result<NewTrustedValidationItems, ViolatedValidationRule>;

/// The view of a round result.
pub open spec fn spec_round_result_view(r: ValidationRoundResult) -> Result<
    NewItemsView,
    ViolatedValidationRule,
> {
    match r {
        Ok(items) => Ok(items@),
        Err(rule) => Err(rule),
    }
}

/// The static parameters of one validation attempt.
#[derive(Debug, Clone)]
pub struct ValidationTracerParams {
    pub user_address: Address,
    pub paymaster_address: Address,
    /// Slots the user may read.
    pub trusted_slots: Vec<SlotId>,
    /// Addresses where the user may read any slot.
    pub trusted_addresses: Vec<Address>,
    /// Slots whose current value names a further trusted address; this is
    /// how proxies and beacons, which store their implementation address,
    /// stay readable.
    pub trusted_address_slots: Vec<SlotId>,
    /// The computational budget of the validation step.
    pub computational_gas_limit: u32,
}

/// The mathematical state of the tracer.
#[verifier::ext_equal]
pub ghost struct TracerModel {
    pub mode: ValidationTracerMode,
    pub aux_allowed_slots: Seq<Word>,
    pub error: Option<ViolatedValidationRule>,
    pub user_address: Address,
    pub paymaster_address: Address,
    pub should_stop: bool,
    pub trusted_slots: Seq<SlotId>,
    pub trusted_addresses: Seq<Address>,
    pub trusted_address_slots: Seq<SlotId>,
    pub gas_used: u32,
    pub gas_limit: u32,
}

/// Observes every instruction the machine is about to execute during the
/// validation phase and enforces the anti-denial-of-service policy.
#[derive(Debug, Clone)]
pub struct ValidationTracer {
    pub validation_mode: ValidationTracerMode,
    pub auxiliary_allowed_slots: Vec<Word>,
    pub validation_error: Option<ViolatedValidationRule>,
    user_address: Address,
    paymaster_address: Address,
    should_stop: bool,
    trusted_slots: Vec<SlotId>,
    trusted_addresses: Vec<Address>,
    trusted_address_slots: Vec<SlotId>,
    computational_gas_used: u32,
    computational_gas_limit: u32,
}

impl View for ValidationTracer {
    type V = TracerModel;

    closed spec fn view(&self) -> TracerModel {
        TracerModel {
            mode: self.validation_mode,
            aux_allowed_slots: self.auxiliary_allowed_slots@,
            error: self.validation_error,
            user_address: self.user_address,
            paymaster_address: self.paymaster_address,
            should_stop: self.should_stop,
            trusted_slots: self.trusted_slots@,
            trusted_addresses: self.trusted_addresses@,
            trusted_address_slots: self.trusted_address_slots@,
            gas_used: self.computational_gas_used,
            gas_limit: self.computational_gas_limit,
        }
    }
}

// ---------------------------------------------------------------------------
// Membership in the trust sets.
// ---------------------------------------------------------------------------

fn contains_slot(v: &Vec<SlotId>, address: &Address, key: &Word) -> (r: bool)
    ensures
        r == v@.contains((SlotId { address: *address, key: *key })),
{
    let mut i: usize = 0;
    while i < v.len()
        invariant
            i <= v.len(),
            forall|j: int|
                0 <= j < i ==> v@[j] != (SlotId { address: *address, key: *key }),
        decreases v.len() - i,
    {
        if v[i].address == *address && v[i].key == *key {
            return true;
        }
        i += 1;
    }
    false
}

fn contains_address(v: &Vec<Address>, a: &Address) -> (r: bool)
    ensures
        r == v@.contains(*a),
{
    let mut i: usize = 0;
    while i < v.len()
        invariant
            i <= v.len(),
            forall|j: int| 0 <= j < i ==> v@[j] != *a,
        decreases v.len() - i,
    {
        if v[i] == *a {
            return true;
        }
        i += 1;
    }
    false
}

fn contains_word(v: &Vec<Word>, w: &Word) -> (r: bool)
    ensures
        r == v@.contains(*w),
{
    let mut i: usize = 0;
    while i < v.len()
        invariant
            i <= v.len(),
            forall|j: int| 0 <= j < i ==> v@[j] != *w,
        decreases v.len() - i,
    {
        if v[i] == *w {
            return true;
        }
        i += 1;
    }
    false
}

// ---------------------------------------------------------------------------
// The policy, stated over the model.
// ---------------------------------------------------------------------------

/// Whether the policy allows a storage read at (`address`, `key`) by
/// `msg_sender` while the tracer is in state `m`; `stored_value` is the word
/// the storage backend currently holds at that slot.
pub open spec fn spec_allowed_storage_read(
    m: TracerModel,
    address: Address,
    key: Word,
    msg_sender: Address,
    stored_value: Word,
) -> bool {
    ||| m.mode is NoValidation
    ||| m.mode is PaymasterTxValidation
    ||| spec_valid_eth_token_call(address, msg_sender)
    ||| m.trusted_slots.contains(SlotId { address, key })
    ||| m.trusted_addresses.contains(address)
    ||| m.trusted_address_slots.contains(SlotId { address, key })
    ||| spec_touches_allowed_context(address, key)
    ||| address == m.user_address
    ||| spec_word_to_address(key) == m.user_address
    ||| m.aux_allowed_slots.contains(key)
    ||| spec_is_constant_code_hash(address, stored_value)
}

/// The slot a 64-byte keccak-precompile probe makes trusted, if any: when
/// the first word decodes to the validated address (a `mapping(address =>
/// ...)` access) or the second word is an already-allowed slot (a nested
/// mapping whose outer key was already trusted), the digest of the whole
/// input is the derived slot.
pub open spec fn spec_keccak_slot_to_add(
    aux_allowed_slots: Seq<Word>,
    calldata: Seq<u8>,
    validated_address: Address,
) -> Option<Word> {
    if spec_be_safe_address(calldata, 0) == Some(validated_address) || aux_allowed_slots.contains(
        spec_word_from_be(calldata, 32),
    ) {
        Some(spec_word_from_be(keccak_of(calldata), 0))
    } else {
        None
    }
}

/// A saturating 32-bit addition.
pub open spec fn spec_saturating_add_u32(a: u32, b: u32) -> u32 {
    if a + b > u32::MAX {
        u32::MAX
    } else {
        (a + b) as u32
    }
}

/// The tracer state after one evaluation charged its instruction cost:
/// unchanged when the budget was already exceeded (the evaluation stops
/// before charging), otherwise with the cost added, saturating.
pub open spec fn spec_charged(m: TracerModel, gas_price: u32) -> TracerModel {
    if m.gas_used > m.gas_limit {
        m
    } else {
        TracerModel { gas_used: spec_saturating_add_u32(m.gas_used, gas_price), ..m }
    }
}

/// What evaluating one instruction produces in state `m`: the budget check
/// first, then the dispatch on the instruction kind.
pub open spec fn spec_round_outcome(
    m: TracerModel,
    state: ExecutionState,
    instr: InstructionView,
) -> Result<NewItemsView, ViolatedValidationRule> {
    if m.gas_used > m.gas_limit {
        Err(ViolatedValidationRule::TookTooManyComputationalGas(m.gas_limit))
    } else {
        match instr {
            InstructionView::FarCall {
                packed_abi,
                destination_value,
                keccak_input,
                destination_code_hash,
            } => {
                let called_address = spec_word_to_address(destination_value);
                if spec_is_keccak_probe(packed_abi, destination_value) {
                    match keccak_input {
                        Some(input) => match spec_keccak_slot_to_add(
                            m.aux_allowed_slots,
                            input,
                            m.user_address,
                        ) {
                            Some(slot) => Ok(
                                NewItemsView { slots: seq![slot], addresses: Seq::empty() },
                            ),
                            None => Ok(NewItemsView::empty()),
                        },
                        None => Ok(NewItemsView::empty()),
                    }
                } else if called_address != m.user_address && destination_code_hash
                    == Word::spec_zero() {
                    Err(ViolatedValidationRule::CalledContractWithNoCode(called_address))
                } else {
                    Ok(NewItemsView::empty())
                }
            },
            InstructionView::Context { query } => match query {
                ContextQuery::Meta => Err(ViolatedValidationRule::TouchedUnallowedContext),
                _ => Ok(NewItemsView::empty()),
            },
            InstructionView::StorageRead { key, stored_value } => {
                if !spec_allowed_storage_read(m, state.this_address, key, state.msg_sender,
                    stored_value) {
                    Err(ViolatedValidationRule::TouchedUnallowedStorageSlots(
                        state.this_address,
                        key,
                    ))
                } else if m.trusted_address_slots.contains(
                    SlotId { address: state.this_address, key },
                ) {
                    Ok(
                        NewItemsView {
                            slots: Seq::empty(),
                            addresses: seq![spec_word_to_address(stored_value)],
                        },
                    )
                } else {
                    Ok(NewItemsView::empty())
                }
            },
            InstructionView::Other => Ok(NewItemsView::empty()),
        }
    }
}

/// The tracer state after a round result was merged: new items are appended
/// to the auxiliary allowed slots and the trusted addresses; a broken rule
/// is latched, first occurrence kept.
pub open spec fn spec_merge_round(
    m: TracerModel,
    r: Result<NewItemsView, ViolatedValidationRule>,
) -> TracerModel {
    match r {
        Ok(items) => TracerModel {
            aux_allowed_slots: m.aux_allowed_slots + items.slots,
            trusted_addresses: m.trusted_addresses + items.addresses,
            ..m
        },
        Err(rule) => TracerModel {
            error: if m.error is Some {
                m.error
            } else {
                Some(rule)
            },
            ..m
        },
    }
}

/// One whole per-instruction step while user validation is active: charge the
/// cost, evaluate the rules, merge the outcome.  Outside user validation the
/// state is untouched.
pub open spec fn spec_after_round(
    m: TracerModel,
    gas_price: u32,
    state: ExecutionState,
    instr: InstructionView,
) -> TracerModel {
    if m.mode is UserTxValidation {
        spec_merge_round(spec_charged(m, gas_price), spec_round_outcome(m, state, instr))
    } else {
        m
    }
}

/// Whether a lifecycle signal is the fatal nested entry: a validation phase
/// entered while any phase is already active.
pub open spec fn spec_hook_faults(mode: ValidationTracerMode, hook: ValidationHook) -> bool {
    &&& {
        ||| hook is AccountValidationEntered
        ||| hook is PaymasterValidationEntered
    }
    &&& !(mode is NoValidation)
}

/// The phase transition a lifecycle signal causes, when it is not the fatal
/// nested entry.
pub open spec fn spec_apply_hook(m: TracerModel, hook: ValidationHook) -> TracerModel {
    match hook {
        ValidationHook::AccountValidationEntered => TracerModel {
            mode: ValidationTracerMode::UserTxValidation,
            ..m
        },
        ValidationHook::PaymasterValidationEntered => TracerModel {
            mode: ValidationTracerMode::PaymasterTxValidation,
            ..m
        },
        ValidationHook::NoValidationEntered => TracerModel {
            mode: ValidationTracerMode::NoValidation,
            ..m
        },
        ValidationHook::ValidationStepEnded => TracerModel { should_stop: true, ..m },
        ValidationHook::Irrelevant => m,
    }
}

impl ValidationTracer {
    /// A fresh tracer for one validation attempt: no phase active, no
    /// violation, empty auxiliary set, zero gas used, trust sets and budget
    /// as given.
    pub fn new(params: ValidationTracerParams) -> (t: Self)
        ensures
            t@.mode is NoValidation,
            t@.aux_allowed_slots == Seq::<Word>::empty(),
            t@.error is None,
            t@.user_address == params.user_address,
            t@.paymaster_address == params.paymaster_address,
            t@.should_stop == false,
            t@.trusted_slots == params.trusted_slots@,
            t@.trusted_addresses == params.trusted_addresses@,
            t@.trusted_address_slots == params.trusted_address_slots@,
            t@.gas_used == 0,
            t@.gas_limit == params.computational_gas_limit,
    {
        ValidationTracer {
            validation_mode: ValidationTracerMode::NoValidation,
            auxiliary_allowed_slots: Vec::new(),
            validation_error: None,
            user_address: params.user_address,
            paymaster_address: params.paymaster_address,
            should_stop: false,
            trusted_slots: params.trusted_slots,
            trusted_addresses: params.trusted_addresses,
            trusted_address_slots: params.trusted_address_slots,
            computational_gas_used: 0,
            computational_gas_limit: params.computational_gas_limit,
        }
    }

    /// The validated user address.
    pub fn user_address(&self) -> (r: Address)
        ensures
            r == self@.user_address,
    {
        self.user_address
    }

    /// The computational gas charged so far.
    pub fn computational_gas_used(&self) -> (r: u32)
        ensures
            r == self@.gas_used,
    {
        self.computational_gas_used
    }

    /// Whether the end of the validation step was signalled.  The latched
    /// violation is a separate latch: the driver inspects both after each
    /// instruction, and a violation alone does not raise this flag.
    pub fn should_stop_execution(&self) -> (r: bool)
        ensures
            r == self@.should_stop,
    {
        self.should_stop
    }

    /// Whether the policy allows a storage read at (`address`, `key`) by
    /// `msg_sender`; `stored_value` is the word the storage backend
    /// currently holds at that slot.
    pub fn is_allowed_storage_read(
        &self,
        address: &Address,
        key: &Word,
        msg_sender: &Address,
        stored_value: &Word,
    ) -> (r: bool)
        ensures
            r == spec_allowed_storage_read(self@, *address, *key, *msg_sender, *stored_value),
    {
        // With no restrictions every storage read is valid; paymaster
        // validation is tracked but not rule-checked.
        if self.validation_mode == ValidationTracerMode::NoValidation || self.validation_mode
            == ValidationTracerMode::PaymasterTxValidation {
            return true;
        }
        // The protocol's own value-transfer path is safe.
        if valid_eth_token_call(address, msg_sender) {
            return true;
        }
        if contains_slot(&self.trusted_slots, address, key) || contains_address(
            &self.trusted_addresses,
            address,
        ) || contains_slot(&self.trusted_address_slots, address, key) {
            return true;
        }
        if touches_allowed_context(address, key) {
            return true;
        }
        // The user may touch its own slots and slots semantically related
        // to it.
        let valid_users_slot = *address == self.user_address || word_to_address(key)
            == self.user_address || contains_word(&self.auxiliary_allowed_slots, key);
        if valid_users_slot {
            return true;
        }
        if is_constant_code_hash(address, stored_value) {
            return true;
        }
        false
    }

    /// The slot a 64-byte keccak-precompile probe makes trusted, if any;
    /// user-related mapping entries (balances, allowances) become readable
    /// this way.
    pub fn slot_to_add_from_keccak_call(
        &self,
        calldata: &Vec<u8>,
        validated_address: &Address,
    ) -> (r: Option<Word>)
        requires
            calldata@.len() == 64,
        ensures
            r == spec_keccak_slot_to_add(self@.aux_allowed_slots, calldata@, *validated_address),
    {
        let potential_address = be_bytes_to_safe_address(calldata, 0);
        let sub_key = word_from_be(calldata, 32);
        let first_word_is_validated = match potential_address {
            Some(a) => a == *validated_address,
            None => false,
        };
        if first_word_is_validated || contains_word(&self.auxiliary_allowed_slots, &sub_key) {
            let digest = keccak256(calldata);
            Some(word_from_be(&digest, 0))
        } else {
            None
        }
    }

    /// Evaluates one instruction: the budget check first, then the charge,
    /// then the dispatch on the instruction kind.  Only the gas counter
    /// changes; the caller merges the outcome.
    pub fn check_user_restrictions(
        &mut self,
        gas_price: u32,
        state: &ExecutionState,
        instruction: &ObservedInstruction,
    ) -> (r: ValidationRoundResult)
        requires
            spec_instruction_wf(instruction@),
        ensures
            final(self)@ == spec_charged(old(self)@, gas_price),
            spec_round_result_view(r) == spec_round_outcome(old(self)@, *state, instruction@),
    {
        if self.computational_gas_used > self.computational_gas_limit {
            return Err(
                ViolatedValidationRule::TookTooManyComputationalGas(self.computational_gas_limit),
            );
        }
        let used = self.computational_gas_used;
        self.computational_gas_used = if used > u32::MAX - gas_price {
            u32::MAX
        } else {
            used + gas_price
        };
        match instruction {
            ObservedInstruction::FarCall {
                packed_abi,
                destination_value,
                keccak_input,
                destination_code_hash,
            } => {
                let called_address = word_to_address(destination_value);
                if keccak_probe_request(packed_abi, destination_value).is_some() {
                    match keccak_input {
                        Some(input) => {
                            match self.slot_to_add_from_keccak_call(input, &self.user_address) {
                                Some(slot) => {
                                    let mut new_allowed_slots: Vec<Word> = Vec::new();
                                    new_allowed_slots.push(slot);
                                    let items = NewTrustedValidationItems {
                                        new_allowed_slots,
                                        new_trusted_addresses: Vec::new(),
                                    };
                                    proof {
                                        assert(items@.slots =~= seq![slot]);
                                        assert(items@.addresses =~= Seq::<Address>::empty());
                                    }
                                    Ok(items)
                                },
                                None => Ok(Default::default()),
                            }
                        },
                        None => Ok(Default::default()),
                    }
                } else if called_address != self.user_address && destination_code_hash.is_zero() {
                    // Calling a contract with no deployed code is not
                    // allowed.
                    Err(ViolatedValidationRule::CalledContractWithNoCode(called_address))
                } else {
                    Ok(Default::default())
                }
            },
            ObservedInstruction::Context { query } => match query {
                ContextQuery::Meta => Err(ViolatedValidationRule::TouchedUnallowedContext),
                _ => Ok(Default::default()),
            },
            ObservedInstruction::StorageRead { key, stored_value } => {
                if !self.is_allowed_storage_read(
                    &state.this_address,
                    key,
                    &state.msg_sender,
                    stored_value,
                ) {
                    return Err(
                        ViolatedValidationRule::TouchedUnallowedStorageSlots(
                            state.this_address,
                            *key,
                        ),
                    );
                }
                if contains_slot(&self.trusted_address_slots, &state.this_address, key) {
                    // The slot's current value names the trusted address a
                    // proxy or beacon points at.
                    let mut new_trusted_addresses: Vec<Address> = Vec::new();
                    new_trusted_addresses.push(word_to_address(stored_value));
                    let items = NewTrustedValidationItems {
                        new_allowed_slots: Vec::new(),
                        new_trusted_addresses,
                    };
                    proof {
                        assert(items@.slots =~= Seq::<Word>::empty());
                        assert(items@.addresses =~= seq![spec_word_to_address(*stored_value)]);
                    }
                    return Ok(items);
                }
                Ok(Default::default())
            },
            ObservedInstruction::Other => Ok(Default::default()),
        }
    }

    /// Merges what one evaluated instruction produced: new items grow the
    /// trust sets; a broken rule is latched, first occurrence kept.
    pub fn process_validation_round_result(&mut self, result: ValidationRoundResult)
        ensures
            final(self)@ == spec_merge_round(old(self)@, spec_round_result_view(result)),
    {
        match result {
            Ok(items) => {
                let mut items = items;
                self.auxiliary_allowed_slots.append(&mut items.new_allowed_slots);
                self.trusted_addresses.append(&mut items.new_trusted_addresses);
            },
            Err(rule) => {
                if self.validation_error.is_none() {
                    self.validation_error = Some(rule);
                }
            },
        }
    }

    /// One whole tracer step for the instruction about to execute: while
    /// user validation is active the rules are evaluated and their outcome
    /// merged; then the lifecycle signal is applied.  A nested validation
    /// entry is the fatal protocol fault: it is reported instead of a
    /// transition, and the driver must abort the process.
    pub fn before_execution(
        &mut self,
        gas_price: u32,
        hook: ValidationHook,
        state: &ExecutionState,
        instruction: &ObservedInstruction,
    ) -> (r: Result<(), NestedValidationFault>)
        requires
            spec_instruction_wf(instruction@),
        ensures
            ({
                let stepped = spec_after_round(old(self)@, gas_price, *state, instruction@);
                if spec_hook_faults(stepped.mode, hook) {
                    &&& final(self)@ == stepped
                    &&& r == Err::<(), NestedValidationFault>(
                        (NestedValidationFault { mode: stepped.mode, hook }),
                    )
                } else {
                    &&& final(self)@ == spec_apply_hook(stepped, hook)
                    &&& r == Ok::<(), NestedValidationFault>(())
                }
            }),
    {
        // Only user validation is rule-checked for now.
        if self.validation_mode == ValidationTracerMode::UserTxValidation {
            let round = self.check_user_restrictions(gas_price, state, instruction);
            self.process_validation_round_result(round);
        }
        match hook {
            ValidationHook::AccountValidationEntered => {
                if self.validation_mode == ValidationTracerMode::NoValidation {
                    // Account validation may start only when no validation
                    // is active: phases never nest.
                    self.validation_mode = ValidationTracerMode::UserTxValidation;
                } else {
                    return Err(
                        NestedValidationFault { mode: self.validation_mode, hook },
                    );
                }
            },
            ValidationHook::PaymasterValidationEntered => {
                if self.validation_mode == ValidationTracerMode::NoValidation {
                    self.validation_mode = ValidationTracerMode::PaymasterTxValidation;
                } else {
                    return Err(
                        NestedValidationFault { mode: self.validation_mode, hook },
                    );
                }
            },
            ValidationHook::NoValidationEntered => {
                // Validation can always be turned off.
                self.validation_mode = ValidationTracerMode::NoValidation;
            },
            ValidationHook::ValidationStepEnded => {
                // The validation step has ended; execution must halt.
                self.should_stop = true;
            },
            ValidationHook::Irrelevant => {},
        }
        Ok(())
    }
}

} // verus!
