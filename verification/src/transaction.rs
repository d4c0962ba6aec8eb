//! Assembly of the deployment transaction: the stored-contract payload
//! (base64 bytecode and its hash) and the transaction body populated from
//! a deployment configuration.

use vstd::prelude::*;

use crate::codec::{base64_max_len, base64_standard, base64_standard_of, sha256_hex, sha256_hex_of};

verus! {

broadcast use vstd::seq::Seq::lemma_push_map_commute;

/// The compiled module as a transaction carries it: the bytecode in
/// base64, and the hex SHA-256 hash of the raw bytecode.
#[derive(Debug, PartialEq, Eq)]
pub struct StoredContractWasm {
    /// The module's bytecode, base64-encoded.
    pub bytecode: String,
    /// The lowercase hex SHA-256 hash of the raw bytecode.
    pub bytecode_hash: String,
}

/// The mathematical value of a [`StoredContractWasm`].
pub ghost struct StoredContractWasmV {
    /// The module's bytecode, base64-encoded.
    pub bytecode: Seq<char>,
    /// The hex SHA-256 hash of the raw bytecode.
    pub bytecode_hash: Seq<char>,
}

impl View for StoredContractWasm {
    type V = StoredContractWasmV;

    open spec fn view(&self) -> StoredContractWasmV {
        StoredContractWasmV { bytecode: self.bytecode@, bytecode_hash: self.bytecode_hash@ }
    }
}

/// The transaction-shaped part of a deployment configuration: every field
/// is copied into the transaction as it stands, except the stored
/// contract, which may be absent and is then derived from the compiled
/// artifact.
#[derive(Debug, PartialEq, Eq)]
pub struct TransactionData {
    /// The sending address.
    pub sender: Option<String>,
    /// The keystore password.
    pub password: Option<String>,
    /// The contract's display name.
    pub contract_name: Option<String>,
    /// The stored contract, if the configuration carries one directly.
    pub stored_contract: Option<StoredContractWasm>,
    /// Constructor parameters, carried verbatim.
    pub params: Option<String>,
    /// Attached payments, carried verbatim.
    pub payments: Option<String>,
    /// The transaction fee.
    pub fee: Option<u64>,
    /// The asset the fee is paid in.
    pub fee_asset_id: Option<String>,
    /// The contract's validation policy.
    pub validation_policy: Option<String>,
    /// Whether the contract is confidential.
    pub is_confidential: Option<bool>,
    /// The confidential group's participants.
    pub group_participants: Option<Vec<String>>,
    /// The confidential group's owners.
    pub group_owners: Option<Vec<String>>,
}

/// The mathematical value of a [`TransactionData`].
pub ghost struct TransactionDataV {
    /// The sending address.
    pub sender: Option<Seq<char>>,
    /// The keystore password.
    pub password: Option<Seq<char>>,
    /// The contract's display name.
    pub contract_name: Option<Seq<char>>,
    /// The stored contract, if carried directly.
    pub stored_contract: Option<StoredContractWasmV>,
    /// Constructor parameters.
    pub params: Option<Seq<char>>,
    /// Attached payments.
    pub payments: Option<Seq<char>>,
    /// The transaction fee.
    pub fee: Option<u64>,
    /// The asset the fee is paid in.
    pub fee_asset_id: Option<Seq<char>>,
    /// The validation policy.
    pub validation_policy: Option<Seq<char>>,
    /// Whether the contract is confidential.
    pub is_confidential: Option<bool>,
    /// The confidential group's participants.
    pub group_participants: Option<Seq<Seq<char>>>,
    /// The confidential group's owners.
    pub group_owners: Option<Seq<Seq<char>>>,
}

/// The value of an optional text field.
pub open spec fn view_opt_text(o: Option<String>) -> Option<Seq<char>> {
    match o {
        Option::Some(s) => Option::Some(s@),
        Option::None => Option::None,
    }
}

/// The value of an optional list of text fields.
pub open spec fn view_opt_texts(o: Option<Vec<String>>) -> Option<Seq<Seq<char>>> {
    match o {
        Option::Some(v) => Option::Some(v@.map_values(|s: String| s@)),
        Option::None => Option::None,
    }
}

/// The value of an optional stored contract.
pub open spec fn view_opt_stored(o: Option<StoredContractWasm>) -> Option<StoredContractWasmV> {
    match o {
        Option::Some(s) => Option::Some(s@),
        Option::None => Option::None,
    }
}

impl View for TransactionData {
    type V = TransactionDataV;

    open spec fn view(&self) -> TransactionDataV {
        TransactionDataV {
            sender: view_opt_text(self.sender),
            password: view_opt_text(self.password),
            contract_name: view_opt_text(self.contract_name),
            stored_contract: view_opt_stored(self.stored_contract),
            params: view_opt_text(self.params),
            payments: view_opt_text(self.payments),
            fee: self.fee,
            fee_asset_id: view_opt_text(self.fee_asset_id),
            validation_policy: view_opt_text(self.validation_policy),
            is_confidential: self.is_confidential,
            group_participants: view_opt_texts(self.group_participants),
            group_owners: view_opt_texts(self.group_owners),
        }
    }
}

/// A deployment configuration: the node to talk to, the key to talk with,
/// and the transaction data to send.
#[derive(Debug, PartialEq, Eq)]
pub struct Config {
    /// The node's URL.
    pub node_url: String,
    /// The API key the node expects.
    pub api_key: String,
    /// The transaction data.
    pub transaction: TransactionData,
}

/// The mathematical value of a [`Config`].
pub ghost struct ConfigV {
    /// The node's URL.
    pub node_url: Seq<char>,
    /// The API key.
    pub api_key: Seq<char>,
    /// The transaction data.
    pub transaction: TransactionDataV,
}

impl View for Config {
    type V = ConfigV;

    open spec fn view(&self) -> ConfigV {
        ConfigV {
            node_url: self.node_url@,
            api_key: self.api_key@,
            transaction: self.transaction@,
        }
    }
}

/// A contract-deployment transaction, ready to be serialized and sent.
#[derive(Debug, PartialEq, Eq)]
pub struct TransactionContractWasm {
    /// The transaction type tag.
    pub type_id: Option<u64>,
    /// The transaction version.
    pub version: Option<u64>,
    /// The sending address.
    pub sender: Option<String>,
    /// The keystore password.
    pub password: Option<String>,
    /// The contract's display name.
    pub contract_name: Option<String>,
    /// The stored contract: always present in an assembled transaction.
    pub stored_contract: Option<StoredContractWasm>,
    /// Constructor parameters, carried verbatim.
    pub params: Option<String>,
    /// Attached payments, carried verbatim.
    pub payments: Option<String>,
    /// The transaction fee.
    pub fee: Option<u64>,
    /// The asset the fee is paid in.
    pub fee_asset_id: Option<String>,
    /// The contract's validation policy.
    pub validation_policy: Option<String>,
    /// Whether the contract is confidential.
    pub is_confidential: Option<bool>,
    /// The confidential group's participants.
    pub group_participants: Option<Vec<String>>,
    /// The confidential group's owners.
    pub group_owners: Option<Vec<String>>,
}

/// The mathematical value of a [`TransactionContractWasm`].
pub ghost struct TransactionContractWasmV {
    /// The transaction type tag.
    pub type_id: Option<u64>,
    /// The transaction version.
    pub version: Option<u64>,
    /// The sending address.
    pub sender: Option<Seq<char>>,
    /// The keystore password.
    pub password: Option<Seq<char>>,
    /// The contract's display name.
    pub contract_name: Option<Seq<char>>,
    /// The stored contract.
    pub stored_contract: Option<StoredContractWasmV>,
    /// Constructor parameters.
    pub params: Option<Seq<char>>,
    /// Attached payments.
    pub payments: Option<Seq<char>>,
    /// The transaction fee.
    pub fee: Option<u64>,
    /// The asset the fee is paid in.
    pub fee_asset_id: Option<Seq<char>>,
    /// The validation policy.
    pub validation_policy: Option<Seq<char>>,
    /// Whether the contract is confidential.
    pub is_confidential: Option<bool>,
    /// The confidential group's participants.
    pub group_participants: Option<Seq<Seq<char>>>,
    /// The confidential group's owners.
    pub group_owners: Option<Seq<Seq<char>>>,
}

impl View for TransactionContractWasm {
    type V = TransactionContractWasmV;

    open spec fn view(&self) -> TransactionContractWasmV {
        TransactionContractWasmV {
            type_id: self.type_id,
            version: self.version,
            sender: view_opt_text(self.sender),
            password: view_opt_text(self.password),
            contract_name: view_opt_text(self.contract_name),
            stored_contract: view_opt_stored(self.stored_contract),
            params: view_opt_text(self.params),
            payments: view_opt_text(self.payments),
            fee: self.fee,
            fee_asset_id: view_opt_text(self.fee_asset_id),
            validation_policy: view_opt_text(self.validation_policy),
            is_confidential: self.is_confidential,
            group_participants: view_opt_texts(self.group_participants),
            group_owners: view_opt_texts(self.group_owners),
        }
    }
}

/// The stored-contract payload derived from raw bytecode: the bytecode
/// base64-encoded, and the hex SHA-256 hash of the raw bytes.
pub open spec fn spec_stored_contract_of(bytecode: Seq<u8>) -> StoredContractWasmV {
    StoredContractWasmV {
        bytecode: base64_standard(bytecode),
        bytecode_hash: sha256_hex(bytecode),
    }
}

/// The stored contract a transaction carries: the one the configuration
/// holds if it holds one, else the payload derived from the compiled
/// artifact's bytecode.
pub open spec fn spec_check_stored_contract(
    stored: Option<StoredContractWasmV>,
    bytecode: Seq<u8>,
) -> StoredContractWasmV {
    match stored {
        Option::Some(s) => s,
        Option::None => spec_stored_contract_of(bytecode),
    }
}

/// The transaction assembled from a configuration: the given type tag and
/// version, every configuration field copied as it stands, and the stored
/// contract resolved against the artifact's bytecode.
pub open spec fn spec_transaction_create(
    c: ConfigV,
    type_id: u64,
    version: u64,
    bytecode: Seq<u8>,
) -> TransactionContractWasmV {
    TransactionContractWasmV {
        type_id: Option::Some(type_id),
        version: Option::Some(version),
        sender: c.transaction.sender,
        password: c.transaction.password,
        contract_name: c.transaction.contract_name,
        stored_contract: Option::Some(
            spec_check_stored_contract(c.transaction.stored_contract, bytecode),
        ),
        params: c.transaction.params,
        payments: c.transaction.payments,
        fee: c.transaction.fee,
        fee_asset_id: c.transaction.fee_asset_id,
        validation_policy: c.transaction.validation_policy,
        is_confidential: c.transaction.is_confidential,
        group_participants: c.transaction.group_participants,
        group_owners: c.transaction.group_owners,
    }
}

/// Duplicates an optional text field.
fn dup_text(o: &Option<String>) -> (r: Option<String>)
    ensures
        view_opt_text(r) == view_opt_text(*o),
{
    match o {
        Option::Some(s) => Option::Some(s.clone()),
        Option::None => Option::None,
    }
}

/// Duplicates an optional list of text fields.
fn dup_texts(o: &Option<Vec<String>>) -> (r: Option<Vec<String>>)
    ensures
        view_opt_texts(r) == view_opt_texts(*o),
{
    match o {
        Option::Some(v) => {
            let mut r: Vec<String> = Vec::new();
            let n = v.len();
            for i in 0..n
                invariant
                    n == v.len(),
                    r@.map_values(|s: String| s@) == v@.take(i as int).map_values(
                        |s: String| s@,
                    ),
            {
                r.push(v[i].clone());
                proof {
                    assert(v@.take(i + 1) =~= v@.take(i as int).push(v@[i as int]));
                    assert(r@.map_values(|s: String| s@) =~= v@.take(i + 1).map_values(
                        |s: String| s@,
                    ));
                }
            }
            proof {
                assert(v@.take(n as int) =~= v@);
            }
            Option::Some(r)
        },
        Option::None => Option::None,
    }
}

/// Builds the stored-contract payload from raw bytecode: base64 bytecode
/// beside the hex SHA-256 hash of the raw bytes.
pub fn stored_contract_from_bytecode(bytecode: &Vec<u8>) -> (r: StoredContractWasm)
    requires
        bytecode@.len() <= base64_max_len(),
    ensures
        r@ == spec_stored_contract_of(bytecode@),
{
    StoredContractWasm {
        bytecode: base64_standard_of(bytecode),
        bytecode_hash: sha256_hex_of(bytecode),
    }
}

/// Resolves the transaction's stored contract: a payload the configuration
/// carries is used as it stands; an absent one is derived from the
/// compiled artifact's bytecode. Only the absent case encodes the bytes,
/// so only it bounds their length.
pub fn check_stored_contract(
    stored: &Option<StoredContractWasm>,
    bytecode: &Vec<u8>,
) -> (r: StoredContractWasm)
    requires
        *stored is None ==> bytecode@.len() <= base64_max_len(),
    ensures
        r@ == spec_check_stored_contract(view_opt_stored(*stored), bytecode@),
{
    match stored {
        Option::Some(s) => StoredContractWasm {
            bytecode: s.bytecode.clone(),
            bytecode_hash: s.bytecode_hash.clone(),
        },
        Option::None => stored_contract_from_bytecode(bytecode),
    }
}

/// Assembles a deployment transaction from a configuration: the given
/// type tag and version, every transaction field of the configuration
/// copied as it stands, and the stored contract resolved against the
/// compiled artifact's bytecode.
pub fn transaction_create(
    config: &Config,
    type_id: u64,
    version: u64,
    bytecode: &Vec<u8>,
) -> (t: TransactionContractWasm)
    requires
        config.transaction.stored_contract is None ==> bytecode@.len() <= base64_max_len(),
    ensures
        t@ == spec_transaction_create(config@, type_id, version, bytecode@),
{
    let stored = check_stored_contract(&config.transaction.stored_contract, bytecode);
    let t = TransactionContractWasm {
        type_id: Option::Some(type_id),
        version: Option::Some(version),
        sender: dup_text(&config.transaction.sender),
        password: dup_text(&config.transaction.password),
        contract_name: dup_text(&config.transaction.contract_name),
        stored_contract: Option::Some(stored),
        params: dup_text(&config.transaction.params),
        payments: dup_text(&config.transaction.payments),
        fee: config.transaction.fee,
        fee_asset_id: dup_text(&config.transaction.fee_asset_id),
        validation_policy: dup_text(&config.transaction.validation_policy),
        is_confidential: config.transaction.is_confidential,
        group_participants: dup_texts(&config.transaction.group_participants),
        group_owners: dup_texts(&config.transaction.group_owners),
    };
    assert(t@ =~= spec_transaction_create(config@, type_id, version, bytecode@));
    t
}

} // verus!
