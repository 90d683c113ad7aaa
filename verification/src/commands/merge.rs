//! Merging: at least two existing PDFs, into a directory that exists.

use vstd::prelude::*;
use vstd::string::*;
use crate::commands::utils::{pdf_check, validate_pdf};
use crate::ghostscript::{ghostscript_call, merge, merge_args};
use crate::locate::Host;
use crate::paths::{parent, path_extension, path_parent};
use crate::process::{agrees, opt_view, result_view, Invocation, InvocationView};
use crate::text::{concat2, views};

verus! {

/// The first complaint of a list of checks, in order, or `Ok` where none
/// complains.
pub open spec fn first_err(checks: Seq<Result<(), Seq<char>>>) -> Result<(), Seq<char>>
    decreases checks.len(),
{
    if checks.len() == 0 {
        Ok(())
    } else {
        match first_err(checks.drop_last()) {
            Err(e) => Err(e),
            Ok(_) => checks.last(),
        }
    }
}

/// A list of checks passes exactly when each of them passes.
pub proof fn lemma_first_err_all(checks: Seq<Result<(), Seq<char>>>)
    ensures
        first_err(checks) is Ok <==> forall|i: int|
            0 <= i < checks.len() ==> (#[trigger] checks[i]) is Ok,
    decreases checks.len(),
{
    if checks.len() > 0 {
        let head = checks.drop_last();
        lemma_first_err_all(head);
        if first_err(checks) is Ok {
            assert forall|i: int| 0 <= i < checks.len() implies (#[trigger] checks[i]) is Ok by {
                if i < head.len() {
                    assert(head[i] is Ok);
                }
            }
        } else {
            if first_err(head) is Ok {
                assert(!(checks[checks.len() - 1] is Ok));
            } else {
                let i = choose|i: int| 0 <= i < head.len() && !((#[trigger] head[i]) is Ok);
                assert(!(checks[i] is Ok));
            }
        }
    }
}

/// A complaint among the first `j` checks is the complaint of the whole
/// list.
proof fn lemma_first_err_stays(checks: Seq<Result<(), Seq<char>>>, j: int)
    requires
        0 <= j <= checks.len(),
        first_err(checks.take(j)) is Err,
    ensures
        first_err(checks) == first_err(checks.take(j)),
    decreases checks.len() - j,
{
    if j == checks.len() {
        assert(checks.take(j) =~= checks);
    } else {
        assert(checks.take(j + 1).drop_last() =~= checks.take(j));
        lemma_first_err_stays(checks, j + 1);
    }
}

/// The views of the checks of a vector, in order.
pub open spec fn check_views(v: Seq<Result<(), String>>) -> Seq<Result<(), Seq<char>>> {
    Seq::new(v.len(), |i: int| result_view(v[i]))
}

/// Finds the first complaint of a list of checks.
pub fn first_failure(checks: &Vec<Result<(), String>>) -> (r: Result<(), String>)
    ensures
        agrees(r, first_err(check_views(checks@))),
{
    let ghost all = check_views(checks@);
    let mut i: usize = 0;
    while i < checks.len()
        invariant
            i <= checks@.len(),
            all == check_views(checks@),
            first_err(all.take(i as int)) is Ok,
        decreases checks@.len() - i,
    {
        proof {
            assert(all.take(i + 1).drop_last() =~= all.take(i as int));
            assert(all.take(i + 1).last() == all[i as int]);
        }
        match &checks[i] {
            Err(e) => {
                proof {
                    lemma_first_err_stays(all, i + 1);
                }
                return Err(e.clone());
            },
            Ok(_) => {},
        }
        i += 1;
    }
    proof {
        assert(all.take(checks@.len() as int) =~= all);
    }
    Ok(())
}

/// Whether input `i` was seen to exist; an input without a mark counts as
/// missing.
pub open spec fn marked(exists: Seq<bool>, i: int) -> bool {
    0 <= i < exists.len() && exists[i]
}

/// What the validation of input `i` says.
pub open spec fn input_check(paths: Seq<Seq<char>>, exists: Seq<bool>, i: int) -> Result<
    (),
    Seq<char>,
> {
    pdf_check(paths[i], marked(exists, i), path_extension(paths[i]))
}

/// What the validation of all inputs says: the complaint about the first
/// input that fails, in the order given, or `Ok` where none fails.
pub open spec fn inputs_check(paths: Seq<Seq<char>>, exists: Seq<bool>) -> Result<(), Seq<char>> {
    first_err(Seq::new(paths.len(), |i: int| input_check(paths, exists, i)))
}

/// Validates every input, `exists[i]` saying whether the i-th input is
/// there.
pub fn validate_inputs(paths: &Vec<String>, exists: &Vec<bool>) -> (r: Result<(), String>)
    ensures
        agrees(r, inputs_check(views(paths@), exists@)),
{
    let mut checks: Vec<Result<(), String>> = Vec::new();
    let mut i: usize = 0;
    while i < paths.len()
        invariant
            i <= paths@.len(),
            check_views(checks@) == Seq::new(
                i as nat,
                |k: int| input_check(views(paths@), exists@, k),
            ),
        decreases paths@.len() - i,
    {
        let there = i < exists.len() && exists[i];
        let ghost before = check_views(checks@);
        checks.push(validate_pdf(paths[i].as_str(), there));
        proof {
            assert(views(paths@)[i as int] == paths@[i as int]@);
            assert(check_views(checks@) =~= before.push(
                input_check(views(paths@), exists@, i as int),
            ));
        }
        i += 1;
        assert(check_views(checks@) =~= Seq::new(
            i as nat,
            |k: int| input_check(views(paths@), exists@, k),
        ));
    }
    first_failure(&checks)
}

/// What the check of the output's directory says. A path without a
/// directory part, or with an empty one, needs none; any other directory
/// must exist.
pub open spec fn output_dir_check(output_dir: Option<Seq<char>>, dir_exists: bool) -> Result<
    (),
    Seq<char>,
> {
    match output_dir {
        Some(dir) => if !dir_exists && dir.len() > 0 {
            Err("Output directory does not exist: "@ + dir)
        } else {
            Ok(())
        },
        None => Ok(()),
    }
}

/// What a merge request comes to, given what the validation of the inputs
/// said and the directory part of the output path. In this order: there
/// must be two inputs or more; the inputs must have passed; the directory
/// of the output must exist; the interpreter must be there. Then the
/// inputs are merged in the order given.
pub open spec fn merge_decision(
    host: Host,
    input_paths: Seq<Seq<char>>,
    validation: Result<(), Seq<char>>,
    output_path: Seq<char>,
    output_dir: Option<Seq<char>>,
    output_dir_exists: bool,
) -> Result<InvocationView, Seq<char>> {
    if input_paths.len() < 2 {
        Err("At least 2 PDF files are required for merging"@)
    } else {
        match validation {
            Err(e) => Err(e),
            Ok(_) => match output_dir_check(output_dir, output_dir_exists) {
                Err(e) => Err(e),
                Ok(_) => ghostscript_call(host, merge_args(input_paths, output_path)),
            },
        }
    }
}

/// Decides on a merge from what the validation of the inputs said and
/// from the directory part of the output path, `output_dir_exists` saying
/// whether that directory is there.
pub fn merge_job(
    host: &Host,
    input_paths: &Vec<String>,
    validation: Result<(), String>,
    output_path: &str,
    output_dir: Option<String>,
    output_dir_exists: bool,
) -> (r: Result<Invocation, String>)
    ensures
        agrees(
            r,
            merge_decision(
                *host,
                views(input_paths@),
                result_view(validation),
                output_path@,
                opt_view(output_dir),
                output_dir_exists,
            ),
        ),
        r is Ok ==> input_paths@.len() >= 2 && validation is Ok,
{
    if input_paths.len() < 2 {
        return Err(String::from_str("At least 2 PDF files are required for merging"));
    }
    match validation {
        Err(e) => {
            return Err(e);
        },
        Ok(_) => {},
    }
    match output_dir {
        Some(dir) => {
            if !output_dir_exists && dir.as_str().unicode_len() > 0 {
                return Err(concat2("Output directory does not exist: ", dir.as_str()));
            }
        },
        None => {},
    }
    merge(host, input_paths, output_path)
}

/// What a merge request comes to: the decision taken on the validation of
/// the input paths and on the directory part of the output path.
pub open spec fn merge_request(
    host: Host,
    input_paths: Seq<Seq<char>>,
    inputs_exist: Seq<bool>,
    output_path: Seq<char>,
    output_dir_exists: bool,
) -> Result<InvocationView, Seq<char>> {
    merge_decision(
        host,
        input_paths,
        inputs_check(input_paths, inputs_exist),
        output_path,
        path_parent(output_path),
        output_dir_exists,
    )
}

/// Prepares the merge of `input_paths` into `output_path`.
/// `inputs_exist[i]` says whether the i-th input is there, and
/// `output_dir_exists` whether the directory part of `output_path` is.
/// Nothing is to be run unless the result is `Ok`, and then there are two
/// inputs or more and each is an existing PDF.
pub fn merge_pdfs(
    host: &Host,
    input_paths: &Vec<String>,
    inputs_exist: &Vec<bool>,
    output_path: &str,
    output_dir_exists: bool,
) -> (r: Result<Invocation, String>)
    ensures
        agrees(
            r,
            merge_request(
                *host,
                views(input_paths@),
                inputs_exist@,
                output_path@,
                output_dir_exists,
            ),
        ),
        r is Ok ==> input_paths@.len() >= 2,
        r is Ok ==> forall|i: int|
            0 <= i < input_paths@.len() ==> (#[trigger] input_check(
                views(input_paths@),
                inputs_exist@,
                i,
            )) is Ok,
{
    let validation = validate_inputs(input_paths, inputs_exist);
    let output_dir = parent(output_path);
    proof {
        let checks = Seq::new(
            input_paths@.len(),
            |i: int| input_check(views(input_paths@), inputs_exist@, i),
        );
        lemma_first_err_all(checks);
        if validation is Ok {
            assert forall|i: int| 0 <= i < input_paths@.len() implies (#[trigger] input_check(
                views(input_paths@),
                inputs_exist@,
                i,
            )) is Ok by {
                assert(checks[i] is Ok);
            }
        }
    }
    merge_job(host, input_paths, validation, output_path, output_dir, output_dir_exists)
}

} // verus!
