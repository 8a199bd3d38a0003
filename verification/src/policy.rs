//! Stateless policy predicates over addresses and storage keys.

use vstd::prelude::*;

use crate::words::{
    spec_account_code_storage_address, spec_address_to_word, spec_bootloader_address,
    spec_contract_deployer_address, spec_eth_token_address, spec_msg_value_simulator_address,
    spec_system_context_address, account_code_storage_address, address_to_word,
    bootloader_address, contract_deployer_address, eth_token_address,
    msg_value_simulator_address, system_context_address, Address, SlotId, Word,
};

verus! {

/// Whether a storage read touches the one system-context slot that is exposed
/// to user code: slot 0, the chain id.
pub open spec fn spec_touches_allowed_context(address: Address, key: Word) -> bool {
    address == spec_system_context_address() && key == Word::spec_zero()
}

/// Only the chain id may be read from the system-context contract.
pub fn touches_allowed_context(address: &Address, key: &Word) -> (r: bool)
    ensures
        r == spec_touches_allowed_context(*address, *key),
{
    if *address != system_context_address() {
        // The context is not touched at all.
        return false;
    }
    key.is_zero()
}

/// Whether the pair (contract, caller) is the protocol's own value-transfer
/// path: the native-token contract called by the value-transfer simulator,
/// the contract deployer, or the bootloader.
pub open spec fn spec_valid_eth_token_call(address: Address, msg_sender: Address) -> bool {
    &&& address == spec_eth_token_address()
    &&& {
        ||| msg_sender == spec_msg_value_simulator_address()
        ||| msg_sender == spec_contract_deployer_address()
        ||| msg_sender == spec_bootloader_address()
    }
}

/// The native-token contract may always be read when the caller is one of the
/// protocol's own balance-mutating contracts.
pub fn valid_eth_token_call(address: &Address, msg_sender: &Address) -> (r: bool)
    ensures
        r == spec_valid_eth_token_call(*address, *msg_sender),
{
    let is_valid_caller = *msg_sender == msg_value_simulator_address() || *msg_sender
        == contract_deployer_address() || *msg_sender == bootloader_address();
    *address == eth_token_address() && is_valid_caller
}

/// Whether a read at `address` probes for deployed code: the address is the
/// account-code-storage contract and the probed slot currently holds a
/// non-zero code hash.
pub open spec fn spec_is_constant_code_hash(address: Address, stored_value: Word) -> bool {
    address == spec_account_code_storage_address() && stored_value != Word::spec_zero()
}

/// Probing whether an account has deployed code is always allowed; the probe
/// succeeds when the stored code hash is non-zero.  `stored_value` is the
/// word the storage backend currently holds at the probed slot.
pub fn is_constant_code_hash(address: &Address, stored_value: &Word) -> (r: bool)
    ensures
        r == spec_is_constant_code_hash(*address, *stored_value),
{
    if *address != account_code_storage_address() {
        // Not a code hash.
        return false;
    }
    !stored_value.is_zero()
}

/// The storage slot that holds the code hash of an account: the
/// account-code-storage contract, keyed by the account's own address.
pub open spec fn spec_code_hash_slot(address: Address) -> SlotId {
    SlotId {
        address: spec_account_code_storage_address(),
        key: spec_address_to_word(address),
    }
}

/// Where the storage backend keeps the code hash of `address`; the driver
/// reads this slot before a far call is evaluated.
pub fn code_hash_slot(address: &Address) -> (r: SlotId)
    ensures
        r == spec_code_hash_slot(*address),
{
    SlotId { address: account_code_storage_address(), key: address_to_word(address) }
}

} // verus!
