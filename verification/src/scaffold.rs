//! The file contents a freshly scaffolded contract project starts from:
//! its package manifest, its initial contract source, and its ignore
//! list. The toolkit's shell writes them to disk; the contents are fixed
//! here, with the project's name spliced into the manifest.

use vstd::prelude::*;

verus! {

/// The manifest of a new contract project, with the project's name
/// spliced in.
pub open spec fn spec_manifest_template(name: Seq<char>) -> Seq<char> {
    "[package]\nname = \""@ + name
        + "\"\nversion = \"0.1.0\"\nedition = \"2021\"\n\n# See more keys and their definitions at https://doc.rust-lang.org/cargo/reference/manifest.html\n\n[lib]\ncrate-type = [\"cdylib\"]\npath = \"lib.rs\"\n\n[profile.release]\ncodegen-units = 1\nlto = true\nopt-level = 'z'\npanic = 'abort'\nstrip = true\n\n[dependencies]\nwe-cdk = \"0.1.1\"\n"@
}

/// The manifest of a new contract project, with the project's name
/// spliced in.
pub fn manifest_template(name: &str) -> (r: String)
    ensures
        r@ == spec_manifest_template(name@),
{
    let mut s = "[package]\nname = \"".to_owned();
    s.append(name);
    s.append(
        "\"\nversion = \"0.1.0\"\nedition = \"2021\"\n\n# See more keys and their definitions at https://doc.rust-lang.org/cargo/reference/manifest.html\n\n[lib]\ncrate-type = [\"cdylib\"]\npath = \"lib.rs\"\n\n[profile.release]\ncodegen-units = 1\nlto = true\nopt-level = 'z'\npanic = 'abort'\nstrip = true\n\n[dependencies]\nwe-cdk = \"0.1.1\"\n",
    );
    s
}

/// The initial contract source of a new project: a stored boolean with a
/// constructor and an action that flips it.
pub open spec fn spec_contract_template() -> Seq<char> {
    "#![no_std]\n#![no_main]\nuse we_cdk::*;\n\n#[action]\nfn _constructor(init_value: Boolean) {\n    set_storage!(boolean :: \"value\" => init_value);\n}\n\n#[action]\nfn flip() {\n    let value: Boolean = get_storage!(boolean :: \"value\");\n    set_storage!(boolean :: \"value\" => !value);\n}\n"@
}

/// The initial contract source of a new project.
pub fn contract_template() -> (r: String)
    ensures
        r@ == spec_contract_template(),
{
    "#![no_std]\n#![no_main]\nuse we_cdk::*;\n\n#[action]\nfn _constructor(init_value: Boolean) {\n    set_storage!(boolean :: \"value\" => init_value);\n}\n\n#[action]\nfn flip() {\n    let value: Boolean = get_storage!(boolean :: \"value\");\n    set_storage!(boolean :: \"value\" => !value);\n}\n".to_owned()
}

/// The ignore list of a new project.
pub open spec fn spec_ignore_template() -> Seq<char> {
    "# Generated by Cargo\n# will have compiled files and executables\ndebug/\ntarget/\n\n# Remove Cargo.lock from gitignore if creating an executable, leave it for libraries\n# More information here https://doc.rust-lang.org/cargo/guide/cargo-toml-vs-cargo-lock.html\nCargo.lock\n\n# These are backup files generated by rustfmt\n**/*.rs.bk\n\n# Used by macOS' file system to track custom attributes of containing folder\n.DS_Store\n\n# Editors' specific files\n.idea/\n.vscode/\n"@
}

/// The ignore list of a new project.
pub fn ignore_template() -> (r: String)
    ensures
        r@ == spec_ignore_template(),
{
    "# Generated by Cargo\n# will have compiled files and executables\ndebug/\ntarget/\n\n# Remove Cargo.lock from gitignore if creating an executable, leave it for libraries\n# More information here https://doc.rust-lang.org/cargo/guide/cargo-toml-vs-cargo-lock.html\nCargo.lock\n\n# These are backup files generated by rustfmt\n**/*.rs.bk\n\n# Used by macOS' file system to track custom attributes of containing folder\n.DS_Store\n\n# Editors' specific files\n.idea/\n.vscode/\n".to_owned()
}

} // verus!
