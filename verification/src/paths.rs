//! Derivation of the file names and artifact paths the toolkit works
//! with: the output name of a text-to-binary conversion, the destination
//! of a freshly built artifact, and the fixed locations under the build
//! output directory.

use vstd::prelude::*;

use crate::transaction::view_opt_text;

verus! {

/// The part of a path after its last separator; the whole path when it
/// has none; empty when it ends with one.
pub open spec fn spec_basename(path: Seq<char>) -> Seq<char>
    decreases path.len(),
{
    if path.len() == 0 {
        path
    } else if path.last() == '/' {
        Seq::<char>::empty()
    } else {
        spec_basename(path.drop_last()).push(path.last())
    }
}

/// The text with every occurrence of `.wat`, leftmost first and without
/// overlap, replaced by `.wasm`.
pub open spec fn spec_replace_wat_wasm(text: Seq<char>) -> Seq<char>
    decreases text.len(),
{
    if text.len() < 4 {
        text
    } else if text.take(4) == ".wat"@ {
        ".wasm"@ + spec_replace_wat_wasm(text.skip(4))
    } else {
        seq![text[0]] + spec_replace_wat_wasm(text.skip(1))
    }
}

/// The output file name of a text-to-binary conversion: the name asked
/// for when one was given, else the input's base name with `.wat`
/// replaced by `.wasm`.
pub open spec fn spec_wat_output_name(filename: Seq<char>, output: Option<Seq<char>>) -> Seq<char> {
    match output {
        Option::Some(name) => name,
        Option::None => spec_replace_wat_wasm(spec_basename(filename)),
    }
}

/// The part of a path after its last `/`; the whole path when it has
/// none. It matches how the build lays paths out on the platforms the
/// toolkit targets.
pub fn basename(path: &str) -> (r: String)
    ensures
        r@ == spec_basename(path@),
{
    let n = path.unicode_len();
    let mut start: usize = 0;
    for i in 0..n
        invariant
            n == path@.len(),
            start <= i,
            path@.subrange(start as int, i as int) == spec_basename(path@.take(i as int)),
    {
        proof {
            assert(path@.take(i + 1) =~= path@.take(i as int).push(path@[i as int]));
            assert(path@.take(i + 1).drop_last() =~= path@.take(i as int));
        }
        if path.get_char(i) == '/' {
            start = i + 1;
            proof {
                assert(path@.subrange(start as int, i + 1) =~= Seq::<char>::empty());
            }
        } else {
            proof {
                assert(path@.subrange(start as int, i + 1) =~= path@.subrange(
                    start as int,
                    i as int,
                ).push(path@[i as int]));
            }
        }
    }
    proof {
        assert(path@.take(n as int) =~= path@);
    }
    let tail = path.substring_char(start, n);
    tail.to_owned()
}

/// The text with every occurrence of `.wat`, leftmost first and without
/// overlap, replaced by `.wasm`.
pub fn replace_wat_wasm(text: &str) -> (r: String)
    ensures
        r@ == spec_replace_wat_wasm(text@),
{
    let n = text.unicode_len();
    let mut out = String::new();
    let mut i: usize = 0;
    proof {
        assert(text@.skip(0) =~= text@);
        assert(out@ + spec_replace_wat_wasm(text@) =~= spec_replace_wat_wasm(text@));
    }
    while i < n
        invariant
            n == text@.len(),
            i <= n,
            out@ + spec_replace_wat_wasm(text@.skip(i as int)) == spec_replace_wat_wasm(text@),
        decreases n - i,
    {
        let ghost rest = text@.skip(i as int);
        let mut matched = false;
        if n - i >= 4 {
            let word = text.substring_char(i, i + 4);
            if crate::abi::str_eq(word, ".wat") {
                matched = true;
            }
        }
        proof {
            if i + 4 <= n {
                assert(rest.take(4) =~= text@.subrange(i as int, i + 4));
            } else {
                assert(rest.len() < 4);
            }
        }
        if matched {
            out.append(".wasm");
            i = i + 4;
            proof {
                assert(text@.skip(i as int) =~= rest.skip(4));
            }
        } else {
            let c = text.substring_char(i, i + 1);
            out.append(c);
            i = i + 1;
            proof {
                assert(text@.skip(i as int) =~= rest.skip(1));
                assert(c@ =~= seq![rest[0]]);
                if rest.len() >= 4 {
                    assert(rest.take(4) != ".wat"@);
                }
            }
        }
    }
    proof {
        assert(text@.skip(n as int) =~= Seq::<char>::empty());
        assert(out@ + Seq::<char>::empty() =~= out@);
    }
    out
}

/// The output file name of a text-to-binary conversion: the name asked
/// for when one was given, else the input's base name with `.wat`
/// replaced by `.wasm`.
pub fn wat_output_name(filename: &str, output: &Option<String>) -> (r: String)
    ensures
        r@ == spec_wat_output_name(filename@, view_opt_text(*output)),
{
    match output {
        Option::Some(name) => name.clone(),
        Option::None => {
            let base = basename(filename);
            replace_wat_wasm(base.as_str())
        },
    }
}

/// Where a freshly built artifact is moved: under the build output
/// directory, under its own file name — but only for the artifact whose
/// target is the project itself and that names at least one file.
pub open spec fn spec_artifact_destination(
    project_name: Seq<char>,
    target_name: Seq<char>,
    file_names: Seq<Seq<char>>,
) -> Option<Seq<char>> {
    if target_name == project_name && file_names.len() > 0 {
        Option::Some("target/we/"@ + spec_basename(file_names[0]))
    } else {
        Option::None
    }
}

/// Decides whether a build artifact belongs to the project and, when it
/// does, where it is moved: the build output directory plus the
/// artifact's own file name.
pub fn artifact_destination(
    project_name: &str,
    target_name: &str,
    file_names: &Vec<String>,
) -> (r: Option<String>)
    ensures
        view_opt_text(r) == spec_artifact_destination(
            project_name@,
            target_name@,
            file_names@.map_values(|s: String| s@),
        ),
{
    if crate::abi::str_eq(target_name, project_name) && file_names.len() > 0 {
        let base = basename(file_names[0].as_str());
        let mut dest = "target/we/".to_owned();
        dest.append(base.as_str());
        Option::Some(dest)
    } else {
        Option::None
    }
}

/// The path of the build metadata file written beside the artifact.
pub open spec fn spec_metadata_file_path(project_name: Seq<char>) -> Seq<char> {
    "target/we/"@ + project_name + ".json"@
}

/// The path of the build metadata file written beside the artifact.
pub fn metadata_file_path(project_name: &str) -> (r: String)
    ensures
        r@ == spec_metadata_file_path(project_name@),
{
    let mut path = "target/we/".to_owned();
    path.append(project_name);
    path.append(".json");
    path
}

/// The path of the project's compiled module under the build output
/// directory.
pub open spec fn spec_wasm_artifact_path(project_name: Seq<char>) -> Seq<char> {
    "target/we/"@ + project_name + ".wasm"@
}

/// The path of the project's compiled module under the build output
/// directory.
pub fn wasm_artifact_path(project_name: &str) -> (r: String)
    ensures
        r@ == spec_wasm_artifact_path(project_name@),
{
    let mut path = "target/we/".to_owned();
    path.append(project_name);
    path.append(".wasm");
    path
}

} // verus!
