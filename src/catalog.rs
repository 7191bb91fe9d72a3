//! The host functions that the target runtime exposes to a compiled contract.
use vstd::prelude::*;

verus! {

/// The host API catalog, in its fixed order: storage, context, economics,
/// cryptography, promises and their batch actions, validator queries, and the
/// curve primitives.
pub open spec fn host_api_catalog() -> Seq<Seq<char>> {
    seq![
        "value_return"@,
        "input"@,
        "log"@,
        "storage_write"@,
        "storage_read"@,
        "storage_remove"@,
        "storage_has_key"@,
        "current_account_id"@,
        "predecessor_account_id"@,
        "signer_account_id"@,
        "block_height"@,
        "block_timestamp"@,
        "sha256"@,
        "keccak256"@,
        "signer_account_pk"@,
        "epoch_height"@,
        "storage_usage"@,
        "account_balance"@,
        "account_locked_balance"@,
        "attached_deposit"@,
        "prepaid_gas"@,
        "used_gas"@,
        "random_seed"@,
        "keccak512"@,
        "ripemd160"@,
        "ecrecover"@,
        "ed25519_verify"@,
        "promise_create"@,
        "promise_then"@,
        "promise_and"@,
        "promise_batch_create"@,
        "promise_batch_then"@,
        "promise_results_count"@,
        "promise_result"@,
        "promise_return"@,
        "promise_batch_action_create_account"@,
        "promise_batch_action_deploy_contract"@,
        "promise_batch_action_function_call"@,
        "promise_batch_action_function_call_weight"@,
        "promise_batch_action_transfer"@,
        "promise_batch_action_stake"@,
        "promise_batch_action_add_key_with_full_access"@,
        "promise_batch_action_add_key_with_function_call"@,
        "promise_batch_action_delete_key"@,
        "promise_batch_action_delete_account"@,
        "validator_stake"@,
        "validator_total_stake"@,
        "alt_bn128_g1_multiexp"@,
        "alt_bn128_g1_sum"@,
        "alt_bn128_pairing_check"@,
        "bls12381_p1_sum"@,
        "bls12381_p2_sum"@,
        "bls12381_g1_multiexp"@,
        "bls12381_g2_multiexp"@,
        "bls12381_map_fp_to_g1"@,
        "bls12381_map_fp2_to_g2"@,
        "bls12381_pairing_check"@,
        "bls12381_p1_decompress"@,
        "bls12381_p2_decompress"@,
    ]
}

/// The character sequences that a vector of strings holds.
pub open spec fn strings_view(v: Seq<String>) -> Seq<Seq<char>> {
    v.map_values(|s: String| s@)
}

/// The names of the host functions, in catalog order. The Monty compiler
/// takes no list of host functions (`MontyRun::new` has no such parameter):
/// a contract's calls to them are resolved when it runs, so this catalog is
/// for the runtime side and for callers that check a script against it.
pub fn near_external_functions() -> (r: Vec<String>)
    ensures
        strings_view(r@) == host_api_catalog(),
{
    let mut names: Vec<String> = Vec::new();
    names.push("value_return".to_owned());
    names.push("input".to_owned());
    names.push("log".to_owned());
    names.push("storage_write".to_owned());
    names.push("storage_read".to_owned());
    names.push("storage_remove".to_owned());
    names.push("storage_has_key".to_owned());
    names.push("current_account_id".to_owned());
    names.push("predecessor_account_id".to_owned());
    names.push("signer_account_id".to_owned());
    names.push("block_height".to_owned());
    names.push("block_timestamp".to_owned());
    names.push("sha256".to_owned());
    names.push("keccak256".to_owned());
    names.push("signer_account_pk".to_owned());
    names.push("epoch_height".to_owned());
    names.push("storage_usage".to_owned());
    names.push("account_balance".to_owned());
    names.push("account_locked_balance".to_owned());
    names.push("attached_deposit".to_owned());
    names.push("prepaid_gas".to_owned());
    names.push("used_gas".to_owned());
    names.push("random_seed".to_owned());
    names.push("keccak512".to_owned());
    names.push("ripemd160".to_owned());
    names.push("ecrecover".to_owned());
    names.push("ed25519_verify".to_owned());
    names.push("promise_create".to_owned());
    names.push("promise_then".to_owned());
    names.push("promise_and".to_owned());
    names.push("promise_batch_create".to_owned());
    names.push("promise_batch_then".to_owned());
    names.push("promise_results_count".to_owned());
    names.push("promise_result".to_owned());
    names.push("promise_return".to_owned());
    names.push("promise_batch_action_create_account".to_owned());
    names.push("promise_batch_action_deploy_contract".to_owned());
    names.push("promise_batch_action_function_call".to_owned());
    names.push("promise_batch_action_function_call_weight".to_owned());
    names.push("promise_batch_action_transfer".to_owned());
    names.push("promise_batch_action_stake".to_owned());
    names.push("promise_batch_action_add_key_with_full_access".to_owned());
    names.push("promise_batch_action_add_key_with_function_call".to_owned());
    names.push("promise_batch_action_delete_key".to_owned());
    names.push("promise_batch_action_delete_account".to_owned());
    names.push("validator_stake".to_owned());
    names.push("validator_total_stake".to_owned());
    names.push("alt_bn128_g1_multiexp".to_owned());
    names.push("alt_bn128_g1_sum".to_owned());
    names.push("alt_bn128_pairing_check".to_owned());
    names.push("bls12381_p1_sum".to_owned());
    names.push("bls12381_p2_sum".to_owned());
    names.push("bls12381_g1_multiexp".to_owned());
    names.push("bls12381_g2_multiexp".to_owned());
    names.push("bls12381_map_fp_to_g1".to_owned());
    names.push("bls12381_map_fp2_to_g2".to_owned());
    names.push("bls12381_pairing_check".to_owned());
    names.push("bls12381_p1_decompress".to_owned());
    names.push("bls12381_p2_decompress".to_owned());
    assert(strings_view(names@) =~= host_api_catalog());
    names
}

} // verus!
