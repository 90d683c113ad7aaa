//! Result records, input validation and the derivation of output names.

use vstd::prelude::*;
use vstd::string::*;
use crate::paths::{derived_file_name, derived_name, extension, join, parent, parent_or_current,
    path_extension, path_file_stem, path_join, path_parent, stem_of, stem_or_empty};
use crate::process::{agrees, opt_view, result_view};
use crate::text::{concat2, eq_ignore_ascii_case, same_ignoring_ascii_case, views};

verus! {

/// Outcome of a compression: where the result is and the two sizes in
/// bytes.
#[derive(Debug, Clone, PartialEq, Eq)]
pub struct CompressionResult {
    pub output_path: String,
    pub original_size: u64,
    pub compressed_size: u64,
}

/// The mathematical content of a [`CompressionResult`].
pub struct CompressionResultView {
    pub output_path: Seq<char>,
    pub original_size: u64,
    pub compressed_size: u64,
}

impl View for CompressionResult {
    type V = CompressionResultView;

    open spec fn view(&self) -> CompressionResultView {
        CompressionResultView {
            output_path: self.output_path@,
            original_size: self.original_size,
            compressed_size: self.compressed_size,
        }
    }
}

/// Outcome of an operation that writes one file.
#[derive(Debug, Clone, PartialEq, Eq)]
pub struct FileResult {
    pub output_path: String,
    pub size: u64,
}

/// The mathematical content of a [`FileResult`].
pub struct FileResultView {
    pub output_path: Seq<char>,
    pub size: u64,
}

impl View for FileResult {
    type V = FileResultView;

    open spec fn view(&self) -> FileResultView {
        FileResultView { output_path: self.output_path@, size: self.size }
    }
}

/// Outcome of a split: the files written, in order, and the number of
/// pages of the document that was split.
#[derive(Debug, Clone, PartialEq, Eq)]
pub struct SplitResult {
    pub output_paths: Vec<String>,
    pub total_pages: u32,
}

/// The mathematical content of a [`SplitResult`].
pub struct SplitResultView {
    pub output_paths: Seq<Seq<char>>,
    pub total_pages: u32,
}

impl View for SplitResult {
    type V = SplitResultView;

    open spec fn view(&self) -> SplitResultView {
        SplitResultView { output_paths: views(self.output_paths@), total_pages: self.total_pages }
    }
}

/// How to split: `mode` is `range`, `extract` or `every-n`, and the other
/// fields are read according to it.
#[derive(Debug, Clone, PartialEq, Eq)]
pub struct SplitOptions {
    pub mode: String,
    pub range_start: Option<u32>,
    pub range_end: Option<u32>,
    pub pages: Option<Vec<u32>>,
    pub every_n: Option<u32>,
}

/// The view of an optional list of pages.
pub open spec fn pages_view(pages: Option<Vec<u32>>) -> Option<Seq<u32>> {
    match pages {
        Some(p) => Some(p@),
        None => None,
    }
}

/// The mathematical content of [`SplitOptions`].
pub struct SplitOptionsView {
    pub mode: Seq<char>,
    pub range_start: Option<u32>,
    pub range_end: Option<u32>,
    pub pages: Option<Seq<u32>>,
    pub every_n: Option<u32>,
}

impl View for SplitOptions {
    type V = SplitOptionsView;

    open spec fn view(&self) -> SplitOptionsView {
        SplitOptionsView {
            mode: self.mode@,
            range_start: self.range_start,
            range_end: self.range_end,
            pages: pages_view(self.pages),
            every_n: self.every_n,
        }
    }
}

/// Where the result of an operation on `input_path` goes when the caller
/// names no place: beside the input, under the input's stem followed by
/// `suffix` and `.pdf`. `stem` and `parent` are the stem and the directory
/// part of the input path.
pub open spec fn output_path_from(
    stem: Option<Seq<char>>,
    parent: Option<Seq<char>>,
    suffix: Seq<char>,
) -> Seq<char> {
    path_join(parent_or_current(parent), derived_name(stem_or_empty(stem), suffix))
}

/// Derives an output path from the input path and a suffix.
pub fn generate_output_path(input_path: &str, suffix: &str) -> (r: String)
    ensures
        r@ == output_path_from(path_file_stem(input_path@), path_parent(input_path@), suffix@),
{
    let stem = stem_of(input_path);
    let name = derived_file_name(stem.as_str(), suffix);
    match parent(input_path) {
        Some(dir) => join(dir.as_str(), name.as_str()),
        None => join(".", name.as_str()),
    }
}

/// The place for the result: the one asked for, or one derived from the
/// input path and `suffix`.
pub open spec fn chosen_output(
    output_path: Option<Seq<char>>,
    input_path: Seq<char>,
    suffix: Seq<char>,
) -> Seq<char> {
    match output_path {
        Some(p) => p,
        None => output_path_from(path_file_stem(input_path), path_parent(input_path), suffix),
    }
}

/// Picks the place for the result of an operation on `input_path`.
pub fn choose_output(output_path: Option<String>, input_path: &str, suffix: &str) -> (r: String)
    ensures
        r@ == chosen_output(opt_view(output_path), input_path@, suffix@),
{
    match output_path {
        Some(p) => p,
        None => generate_output_path(input_path, suffix),
    }
}

/// What the validation of an input file says, given whether the file
/// exists and what extension its path has: a missing file is reported
/// first, then an extension other than `pdf` in any mix of cases.
pub open spec fn pdf_check(path: Seq<char>, exists: bool, extension: Option<Seq<char>>) -> Result<
    (),
    Seq<char>,
> {
    if !exists {
        Err("File not found: "@ + path)
    } else if extension is Some && same_ignoring_ascii_case(extension.unwrap(), "pdf"@) {
        Ok(())
    } else {
        Err("File is not a PDF"@)
    }
}

/// The view of an optional string slice.
pub open spec fn str_view(o: Option<&str>) -> Option<Seq<char>> {
    match o {
        Some(s) => Some(s@),
        None => None,
    }
}

/// Validates an input file from what is known of it: whether it exists,
/// and the extension of its path, if it has one.
pub fn check_pdf(path: &str, exists: bool, extension: Option<&str>) -> (r: Result<(), String>)
    ensures
        agrees(r, pdf_check(path@, exists, str_view(extension))),
{
    if !exists {
        return Err(concat2("File not found: ", path));
    }
    match extension {
        Some(e) => {
            if eq_ignore_ascii_case(e, "pdf") {
                Ok(())
            } else {
                Err(String::from_str("File is not a PDF"))
            }
        },
        None => Err(String::from_str("File is not a PDF")),
    }
}

/// Validates that `path` names an existing PDF; `exists` says whether a
/// file is there.
pub fn validate_pdf(path: &str, exists: bool) -> (r: Result<(), String>)
    ensures
        agrees(r, pdf_check(path@, exists, path_extension(path@))),
{
    match extension(path) {
        Some(e) => check_pdf(path, exists, Some(e.as_str())),
        None => check_pdf(path, exists, None),
    }
}

/// The record of an operation that wrote `output_path`, given the size
/// read from that file or the system's description of why it could not be
/// read.
pub open spec fn file_record(output_path: Seq<char>, size: Result<u64, Seq<char>>) -> Result<
    FileResultView,
    Seq<char>,
> {
    match size {
        Ok(n) => Ok(FileResultView { output_path, size: n }),
        Err(detail) => Err("Failed to read output file: "@ + detail),
    }
}

/// Makes the record of an operation that wrote `output_path`.
pub fn file_result(output_path: String, size: Result<u64, String>) -> (r: Result<
    FileResult,
    String,
>)
    ensures
        agrees(r, file_record(output_path@, result_view(size))),
{
    match size {
        Ok(n) => Ok(FileResult { output_path, size: n }),
        Err(detail) => Err(concat2("Failed to read output file: ", detail.as_str())),
    }
}

} // verus!
