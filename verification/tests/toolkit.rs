use we_toolkit::convert::{wasm_to_wat, wat_to_wasm, ConvertError};
use we_toolkit::paths::{
    artifact_destination, basename, metadata_file_path, replace_wat_wasm, wasm_artifact_path,
    wat_output_name,
};
use we_toolkit::scaffold::{contract_template, ignore_template, manifest_template};
use we_toolkit::transaction::{
    check_stored_contract, stored_contract_from_bytecode, transaction_create, Config,
    StoredContractWasm, TransactionData,
};

#[test]
fn basename_takes_the_part_after_the_last_separator() {
    assert_eq!(basename("a/b/c.wat"), "c.wat");
    assert_eq!(basename("c.wat"), "c.wat");
    assert_eq!(basename("a/b/"), "");
    assert_eq!(basename(""), "");
    assert_eq!(basename("/x"), "x");
}

#[test]
fn replace_swaps_every_wat_occurrence() {
    assert_eq!(replace_wat_wasm("module.wat"), "module.wasm");
    assert_eq!(replace_wat_wasm("a.wat.wat"), "a.wasm.wasm");
    assert_eq!(replace_wat_wasm("module.wasm"), "module.wasm");
    assert_eq!(replace_wat_wasm(""), "");
    assert_eq!(replace_wat_wasm(".wat"), ".wasm");
    assert_eq!(replace_wat_wasm("wat"), "wat");
}

#[test]
fn conversion_output_name_prefers_the_given_one() {
    assert_eq!(wat_output_name("dir/m.wat", &Some("out.bin".to_string())), "out.bin");
    assert_eq!(wat_output_name("dir/m.wat", &None), "m.wasm");
    assert_eq!(wat_output_name("m.txt", &None), "m.txt");
}

#[test]
fn artifact_destination_requires_matching_target_with_a_file() {
    let files = vec!["/tmp/build/out/demo.wasm".to_string()];
    assert_eq!(
        artifact_destination("demo", "demo", &files),
        Some("target/we/demo.wasm".to_string())
    );
    assert_eq!(artifact_destination("demo", "other", &files), None);
    assert_eq!(artifact_destination("demo", "demo", &vec![]), None);
}

#[test]
fn fixed_artifact_paths() {
    assert_eq!(metadata_file_path("demo"), "target/we/demo.json");
    assert_eq!(wasm_artifact_path("demo"), "target/we/demo.wasm");
}

#[test]
fn stored_contract_encodes_and_hashes_the_bytecode() {
    let empty = stored_contract_from_bytecode(&vec![]);
    assert_eq!(empty.bytecode, "");
    assert_eq!(
        empty.bytecode_hash,
        "e3b0c44298fc1c149afbf4c8996fb92427ae41e4649b934ca495991b7852b855"
    );

    let hi = stored_contract_from_bytecode(&vec![104, 105]);
    assert_eq!(hi.bytecode, "aGk=");
    assert_eq!(
        hi.bytecode_hash,
        "8f434346648f6b96df89dda901c5176b10a6d83961dd3c1ac88b59b2dc327aa4"
    );
}

#[test]
fn stored_contract_from_config_is_kept_as_it_stands() {
    let given = Some(StoredContractWasm {
        bytecode: "AAA=".to_string(),
        bytecode_hash: "feed".to_string(),
    });
    let kept = check_stored_contract(&given, &vec![1, 2, 3]);
    assert_eq!(kept.bytecode, "AAA=");
    assert_eq!(kept.bytecode_hash, "feed");

    let derived = check_stored_contract(&None, &vec![104, 105]);
    assert_eq!(derived.bytecode, "aGk=");
    assert_eq!(
        derived.bytecode_hash,
        "8f434346648f6b96df89dda901c5176b10a6d83961dd3c1ac88b59b2dc327aa4"
    );
}

fn sample_config(stored: Option<StoredContractWasm>) -> Config {
    Config {
        node_url: "https://node.example".to_string(),
        api_key: "test-api-key".to_string(),
        transaction: TransactionData {
            sender: Some("3NBVqYXrapgJP9atQccdBPAgJPwHDKkh6A8".to_string()),
            password: None,
            contract_name: Some("demo".to_string()),
            stored_contract: stored,
            params: Some("[]".to_string()),
            payments: None,
            fee: Some(100_000_000),
            fee_asset_id: None,
            validation_policy: Some("any".to_string()),
            is_confidential: Some(false),
            group_participants: Some(vec!["alice".to_string(), "bob".to_string()]),
            group_owners: Some(vec!["alice".to_string()]),
        },
    }
}

#[test]
fn transaction_copies_the_configuration_and_tags_it() {
    let config = sample_config(None);
    let t = transaction_create(&config, 107, 6, &vec![104, 105]);
    assert_eq!(t.type_id, Some(107));
    assert_eq!(t.version, Some(6));
    assert_eq!(t.sender, config.transaction.sender);
    assert_eq!(t.password, None);
    assert_eq!(t.contract_name, Some("demo".to_string()));
    assert_eq!(t.params, Some("[]".to_string()));
    assert_eq!(t.payments, None);
    assert_eq!(t.fee, Some(100_000_000));
    assert_eq!(t.fee_asset_id, None);
    assert_eq!(t.validation_policy, Some("any".to_string()));
    assert_eq!(t.is_confidential, Some(false));
    assert_eq!(
        t.group_participants,
        Some(vec!["alice".to_string(), "bob".to_string()])
    );
    assert_eq!(t.group_owners, Some(vec!["alice".to_string()]));
    let stored = t.stored_contract.expect("always present after assembly");
    assert_eq!(stored.bytecode, "aGk=");
    assert_eq!(
        stored.bytecode_hash,
        "8f434346648f6b96df89dda901c5176b10a6d83961dd3c1ac88b59b2dc327aa4"
    );
}

#[test]
fn transaction_keeps_a_stored_contract_the_configuration_carries() {
    let config = sample_config(Some(StoredContractWasm {
        bytecode: "AAA=".to_string(),
        bytecode_hash: "feed".to_string(),
    }));
    let t = transaction_create(&config, 107, 6, &vec![104, 105]);
    let stored = t.stored_contract.expect("always present after assembly");
    assert_eq!(stored.bytecode, "AAA=");
    assert_eq!(stored.bytecode_hash, "feed");
}

#[test]
fn text_to_binary_produces_a_wasm_header() {
    let binary = wat_to_wasm("(module)").expect("minimal module parses");
    assert_eq!(&binary[0..4], &[0, 97, 115, 109]);
}

#[test]
fn malformed_text_is_rejected_as_such() {
    assert_eq!(wat_to_wasm("(modul"), Err(ConvertError::MalformedText));
}

#[test]
fn malformed_binary_is_rejected_as_such() {
    assert_eq!(wasm_to_wat(&vec![1, 2, 3]), Err(ConvertError::MalformedBinary));
}

#[test]
fn text_binary_text_round_trip() {
    let binary = wat_to_wasm("(module)").expect("minimal module parses");
    let text = wasm_to_wat(&binary).expect("printer accepts its own parser's output");
    assert!(text.contains("module"));
    let again = wat_to_wasm(&text).expect("printed text parses back");
    assert_eq!(again, binary);
}

#[test]
fn manifest_template_splices_the_project_name() {
    let manifest = manifest_template("demo");
    assert!(manifest.starts_with("[package]\nname = \"demo\"\n"));
    assert!(manifest.contains("crate-type = [\"cdylib\"]"));
    assert!(manifest.contains("we-cdk = \"0.1.1\""));
    let other = manifest_template("other");
    assert!(other.contains("name = \"other\""));
    assert!(!other.contains("demo"));
}

#[test]
fn fixed_templates_have_the_expected_shape() {
    let contract = contract_template();
    assert!(contract.starts_with("#![no_std]\n#![no_main]\n"));
    assert!(contract.contains("fn _constructor(init_value: Boolean)"));
    assert!(contract.contains("fn flip()"));
    let ignore = ignore_template();
    assert!(ignore.contains("target/\n"));
    assert!(ignore.contains("Cargo.lock"));
}
