//! Splitting: one range of pages, a list of pages, or parts of equal
//! length.

use vstd::prelude::*;
use vstd::string::*;
use crate::commands::utils::{pages_view, pdf_check, validate_pdf, SplitOptions, SplitOptionsView,
    SplitResult};
use crate::ghostscript::{get_page_count, ghostscript_call, page_count_args};
use crate::locate::Host;
use crate::paths::{join, path_extension, path_file_stem, path_join, stem_of, stem_or_empty};
use crate::process::{agrees, result_view, Invocation, InvocationView};
use crate::text::{concat2, concat3, decimal, decimal_string, equal, joined, views};

verus! {

/// The pages that one output file receives.
#[derive(Debug, Clone, PartialEq, Eq)]
pub enum Selection {
    /// Pages `start` to `end`, both included.
    Range { start: u32, end: u32 },
    /// The pages listed, in the order of the list.
    Pages(Vec<u32>),
}

/// The mathematical content of a [`Selection`].
pub enum SelectionView {
    Range { start: u32, end: u32 },
    Pages(Seq<u32>),
}

impl View for Selection {
    type V = SelectionView;

    open spec fn view(&self) -> SelectionView {
        match self {
            Selection::Range { start, end } => SelectionView::Range { start: *start, end: *end },
            Selection::Pages(pages) => SelectionView::Pages(pages@),
        }
    }
}

/// One output file of a split and the pages that go into it.
#[derive(Debug, Clone, PartialEq, Eq)]
pub struct SplitJob {
    pub output_path: String,
    pub selection: Selection,
}

/// The mathematical content of a [`SplitJob`].
pub struct SplitJobView {
    pub output_path: Seq<char>,
    pub selection: SelectionView,
}

impl View for SplitJob {
    type V = SplitJobView;

    open spec fn view(&self) -> SplitJobView {
        SplitJobView { output_path: self.output_path@, selection: self.selection@ }
    }
}

/// The views of the jobs of a vector, in order.
pub open spec fn job_views(v: Seq<SplitJob>) -> Seq<SplitJobView> {
    Seq::new(v.len(), |i: int| v[i]@)
}

/// A split that is ready to run: its jobs, in the order in which they are
/// to be carried out, and the number of pages of the document.
#[derive(Debug, Clone, PartialEq, Eq)]
pub struct SplitPlan {
    pub jobs: Vec<SplitJob>,
    pub total_pages: u32,
}

/// The mathematical content of a [`SplitPlan`].
pub struct SplitPlanView {
    pub jobs: Seq<SplitJobView>,
    pub total_pages: u32,
}

impl View for SplitPlan {
    type V = SplitPlanView;

    open spec fn view(&self) -> SplitPlanView {
        SplitPlanView { jobs: job_views(self.jobs@), total_pages: self.total_pages }
    }
}

/// What to report for a range that does not lie within the document.
pub open spec fn invalid_range(start: u32, end: u32, total: u32) -> Seq<char> {
    "Invalid page range "@ + decimal(start as nat) + "-"@ + decimal(end as nat) + ". PDF has "@
        + decimal(total as nat) + " pages."@
}

/// The file name of a range of pages.
pub open spec fn range_name(stem: Seq<char>, start: u32, end: u32) -> Seq<char> {
    stem + "_pages_"@ + decimal(start as nat) + "-"@ + decimal(end as nat) + ".pdf"@
}

/// Whether pages `start` to `end` lie within a document of `total` pages:
/// counted from 1, not reversed, not beyond the last page.
pub open spec fn range_is_valid(start: u32, end: u32, total: u32) -> bool {
    1 <= start <= end <= total
}

/// The jobs of mode `range`: one file with the pages from `range_start`,
/// by default the first page, to `range_end`, by default the last.
pub open spec fn range_jobs(
    stem: Seq<char>,
    dir: Seq<char>,
    range_start: Option<u32>,
    range_end: Option<u32>,
    total: u32,
) -> Result<Seq<SplitJobView>, Seq<char>> {
    let start = range_start.unwrap_or(1u32);
    let end = range_end.unwrap_or(total);
    if range_is_valid(start, end, total) {
        Ok(
            seq![
                SplitJobView {
                    output_path: path_join(dir, range_name(stem, start, end)),
                    selection: SelectionView::Range { start, end },
                },
            ],
        )
    } else {
        Err(invalid_range(start, end, total))
    }
}

/// The first entry of `pages` that is no page of a document of `total`
/// pages, if there is one.
pub open spec fn first_bad_page(pages: Seq<u32>, total: u32) -> Option<u32>
    decreases pages.len(),
{
    if pages.len() == 0 {
        None
    } else {
        match first_bad_page(pages.drop_last(), total) {
            Some(p) => Some(p),
            None => if pages.last() < 1 || pages.last() > total {
                Some(pages.last())
            } else {
                None
            },
        }
    }
}

/// What to report for an entry that is no page of the document.
pub open spec fn invalid_page(page: u32, total: u32) -> Seq<char> {
    "Invalid page number "@ + decimal(page as nat) + ". PDF has "@ + decimal(total as nat)
        + " pages."@
}

/// How a list of pages shows in a file name: up to three pages by their
/// numbers with hyphens between, more by their count.
pub open spec fn pages_label(pages: Seq<u32>) -> Seq<char> {
    if pages.len() <= 3 {
        joined(Seq::new(pages.len(), |i: int| decimal(pages[i] as nat)), "-"@)
    } else {
        decimal(pages.len()) + "-pages"@
    }
}

/// The file name of a list of pages.
pub open spec fn pages_name(stem: Seq<char>, pages: Seq<u32>) -> Seq<char> {
    stem + "_"@ + pages_label(pages) + ".pdf"@
}

/// The jobs of mode `extract`: one file with the pages listed. The list
/// must be there, must not be empty, and must hold pages of the document
/// only; the first entry that is none is reported.
pub open spec fn extract_jobs(
    stem: Seq<char>,
    dir: Seq<char>,
    pages: Option<Seq<u32>>,
    total: u32,
) -> Result<Seq<SplitJobView>, Seq<char>> {
    match pages {
        None => Err("Pages list required for extract mode"@),
        Some(list) => if list.len() == 0 {
            Err("No pages specified"@)
        } else {
            match first_bad_page(list, total) {
                Some(page) => Err(invalid_page(page, total)),
                None => Ok(
                    seq![
                        SplitJobView {
                            output_path: path_join(dir, pages_name(stem, list)),
                            selection: SelectionView::Pages(list),
                        },
                    ],
                ),
            }
        },
    }
}

/// The number of parts of `n` pages that a document of `total` pages
/// falls into, the last part possibly shorter.
pub open spec fn part_count(total: nat, n: nat) -> nat {
    if n == 0 {
        0
    } else {
        ((total + n - 1) / (n as int)) as nat
    }
}

/// The file name of part `number`, counted from 1.
pub open spec fn part_name(stem: Seq<char>, number: nat) -> Seq<char> {
    stem + "_part"@ + decimal(number) + ".pdf"@
}

/// Part `k`, counted from 0, of a document of `total` pages cut every `n`
/// pages: it begins after the `k * n` pages of the parts before it and ends
/// `n` pages on, or with the document.
pub open spec fn part_job(stem: Seq<char>, dir: Seq<char>, total: u32, n: u32, k: int)
    -> SplitJobView {
    let last = if (k + 1) * n < total {
        (k + 1) * n
    } else {
        total as int
    };
    SplitJobView {
        output_path: path_join(dir, part_name(stem, (k + 1) as nat)),
        selection: SelectionView::Range { start: (k * n + 1) as u32, end: last as u32 },
    }
}

/// The jobs of mode `every-n`: the document cut every `every_n` pages, by
/// default every page. A document without pages gives no job.
pub open spec fn every_n_jobs(
    stem: Seq<char>,
    dir: Seq<char>,
    every_n: Option<u32>,
    total: u32,
) -> Result<Seq<SplitJobView>, Seq<char>> {
    let n = every_n.unwrap_or(1u32);
    if n < 1 {
        Err("every_n must be at least 1"@)
    } else {
        Ok(
            Seq::new(
                part_count(total as nat, n as nat),
                |k: int| part_job(stem, dir, total, n, k),
            ),
        )
    }
}

/// What to report for a mode that is none of the three.
pub open spec fn invalid_mode(mode: Seq<char>) -> Seq<char> {
    "Invalid split mode '"@ + mode + "'. Valid options: range, extract, every-n"@
}

/// The jobs that the options ask for, on a document of `total` pages whose
/// path has the stem `stem`, with the output files in `dir`.
pub open spec fn split_jobs(
    stem: Seq<char>,
    dir: Seq<char>,
    options: SplitOptionsView,
    total: u32,
) -> Result<Seq<SplitJobView>, Seq<char>> {
    if options.mode == "range"@ {
        range_jobs(stem, dir, options.range_start, options.range_end, total)
    } else if options.mode == "extract"@ {
        extract_jobs(stem, dir, options.pages, total)
    } else if options.mode == "every-n"@ {
        every_n_jobs(stem, dir, options.every_n, total)
    } else {
        Err(invalid_mode(options.mode))
    }
}

/// What a split comes to, for a document of `total_pages` pages whose
/// path has the stem `stem`.
pub open spec fn split_decision(
    stem: Seq<char>,
    output_dir: Seq<char>,
    options: SplitOptionsView,
    total_pages: u32,
) -> Result<SplitPlanView, Seq<char>> {
    match split_jobs(stem, output_dir, options, total_pages) {
        Ok(jobs) => Ok(SplitPlanView { jobs, total_pages }),
        Err(e) => Err(e),
    }
}

/// What a split comes to, given what the validation of the input said: a
/// failed validation is passed on as it is, whatever the options; else the
/// split is decided on the stem.
pub open spec fn split_job_decision(
    validation: Result<(), Seq<char>>,
    stem: Seq<char>,
    output_dir: Seq<char>,
    options: SplitOptionsView,
    total_pages: u32,
) -> Result<SplitPlanView, Seq<char>> {
    match validation {
        Err(e) => Err(e),
        Ok(_) => split_decision(stem, output_dir, options, total_pages),
    }
}

/// What a split request comes to: the decision taken on the validation of
/// the input path and on its stem, empty where the path has none.
pub open spec fn split_request(
    input_path: Seq<char>,
    input_exists: bool,
    output_dir: Seq<char>,
    options: SplitOptionsView,
    total_pages: u32,
) -> Result<SplitPlanView, Seq<char>> {
    split_job_decision(
        pdf_check(input_path, input_exists, path_extension(input_path)),
        stem_or_empty(path_file_stem(input_path)),
        output_dir,
        options,
        total_pages,
    )
}

/// What a split does first, once its input has passed validation.
#[derive(Debug, Clone, Copy, PartialEq, Eq, Structural)]
pub enum SplitStart {
    /// The output directory is missing: make it, then count the pages.
    CreateOutputDir,
    /// The output directory is there: count the pages.
    CountPages,
}

impl View for SplitStart {
    type V = SplitStart;

    open spec fn view(&self) -> SplitStart {
        *self
    }
}

/// How a split begins, given what the validation of the input said. A
/// failed validation is passed on as it is and ends the split: no
/// directory is to be made and no page count asked. Else the output
/// directory is made unless it is there, and the pages are counted.
pub open spec fn split_first_step(validation: Result<(), Seq<char>>, output_dir_exists: bool)
    -> Result<SplitStart, Seq<char>> {
    match validation {
        Err(e) => Err(e),
        Ok(_) => if output_dir_exists {
            Ok(SplitStart::CountPages)
        } else {
            Ok(SplitStart::CreateOutputDir)
        },
    }
}

/// The view of the jobs that were planned, or of the complaint.
pub open spec fn planned_view(r: Result<Vec<SplitJob>, String>) -> Result<
    Seq<SplitJobView>,
    Seq<char>,
> {
    match r {
        Ok(jobs) => Ok(job_views(jobs@)),
        Err(e) => Err(e@),
    }
}

/// Writes "`a`-`b`" in decimal.
fn dashed(a: u32, b: u32) -> (s: String)
    ensures
        s@ == decimal(a as nat) + "-"@ + decimal(b as nat),
{
    concat3(decimal_string(a as u64).as_str(), "-", decimal_string(b as u64).as_str())
}

/// Writes the closing words of a complaint: how many pages there are.
fn has_pages(total: u32) -> (s: String)
    ensures
        s@ == ". PDF has "@ + decimal(total as nat) + " pages."@,
{
    concat3(". PDF has ", decimal_string(total as u64).as_str(), " pages.")
}

/// Plans mode `range`.
fn plan_range(
    stem: &str,
    dir: &str,
    range_start: Option<u32>,
    range_end: Option<u32>,
    total: u32,
) -> (r: Result<Vec<SplitJob>, String>)
    ensures
        planned_view(r) == range_jobs(stem@, dir@, range_start, range_end, total),
{
    let start: u32 = match range_start {
        Some(s) => s,
        None => 1,
    };
    let end: u32 = match range_end {
        Some(e) => e,
        None => total,
    };
    if start > end || start < 1 || end > total {
        let message = concat3(
            "Invalid page range ",
            dashed(start, end).as_str(),
            has_pages(total).as_str(),
        );
        assert(message@ =~= invalid_range(start, end, total));
        return Err(message);
    }
    let name = concat3(concat2(stem, "_pages_").as_str(), dashed(start, end).as_str(), ".pdf");
    assert(name@ =~= range_name(stem@, start, end));
    let mut jobs: Vec<SplitJob> = Vec::new();
    jobs.push(
        SplitJob {
            output_path: join(dir, name.as_str()),
            selection: Selection::Range { start, end },
        },
    );
    assert(job_views(jobs@) =~= seq![jobs@[0]@]);
    Ok(jobs)
}

/// Finds the first entry of `pages` that is no page of the document.
fn find_bad_page(pages: &Vec<u32>, total: u32) -> (r: Option<u32>)
    ensures
        r == first_bad_page(pages@, total),
{
    let mut i: usize = 0;
    while i < pages.len()
        invariant
            i <= pages@.len(),
            first_bad_page(pages@.take(i as int), total) is None,
        decreases pages@.len() - i,
    {
        let page: u32 = pages[i];
        proof {
            assert(pages@.take(i + 1).drop_last() =~= pages@.take(i as int));
            assert(pages@.take(i + 1).last() == page);
        }
        if page < 1 || page > total {
            proof {
                lemma_bad_page_stays(pages@, total, i + 1);
            }
            return Some(page);
        }
        i += 1;
    }
    proof {
        assert(pages@.take(pages@.len() as int) =~= pages@);
    }
    None
}

/// A bad page among the first `j` entries is the first bad page of the
/// whole list.
proof fn lemma_bad_page_stays(pages: Seq<u32>, total: u32, j: int)
    requires
        0 <= j <= pages.len(),
        first_bad_page(pages.take(j), total) is Some,
    ensures
        first_bad_page(pages, total) == first_bad_page(pages.take(j), total),
    decreases pages.len() - j,
{
    if j == pages.len() {
        assert(pages.take(j) =~= pages);
    } else {
        assert(pages.take(j + 1).drop_last() =~= pages.take(j));
        lemma_bad_page_stays(pages, total, j + 1);
    }
}

/// Writes the label of a list of pages.
fn label_pages(pages: &Vec<u32>) -> (s: String)
    ensures
        s@ == pages_label(pages@),
{
    if pages.len() <= 3 {
        let mut numbers: Vec<String> = Vec::new();
        let mut i: usize = 0;
        while i < pages.len()
            invariant
                i <= pages@.len(),
                views(numbers@) == Seq::new(i as nat, |k: int| decimal(pages@[k] as nat)),
            decreases pages@.len() - i,
        {
            let ghost before = views(numbers@);
            numbers.push(decimal_string(pages[i] as u64));
            i += 1;
            assert(views(numbers@) =~= before.push(decimal(pages@[i - 1] as nat)));
            assert(views(numbers@) =~= Seq::new(i as nat, |k: int| decimal(pages@[k] as nat)));
        }
        crate::text::join(&numbers, "-")
    } else {
        concat2(decimal_string(pages.len() as u64).as_str(), "-pages")
    }
}

/// Plans mode `extract`.
fn plan_extract(stem: &str, dir: &str, pages: Option<Vec<u32>>, total: u32) -> (r: Result<
    Vec<SplitJob>,
    String,
>)
    ensures
        planned_view(r) == extract_jobs(stem@, dir@, pages_view(pages), total),
{
    let list = match pages {
        Some(p) => p,
        None => {
            return Err(String::from_str("Pages list required for extract mode"));
        },
    };
    if list.len() == 0 {
        return Err(String::from_str("No pages specified"));
    }
    match find_bad_page(&list, total) {
        Some(page) => {
            let message = concat3(
                "Invalid page number ",
                decimal_string(page as u64).as_str(),
                has_pages(total).as_str(),
            );
            assert(message@ =~= invalid_page(page, total));
            return Err(message);
        },
        None => {},
    }
    let name = concat3(concat2(stem, "_").as_str(), label_pages(&list).as_str(), ".pdf");
    assert(name@ =~= pages_name(stem@, list@));
    let mut jobs: Vec<SplitJob> = Vec::new();
    jobs.push(SplitJob { output_path: join(dir, name.as_str()), selection: Selection::Pages(list) });
    assert(job_views(jobs@) =~= seq![jobs@[0]@]);
    Ok(jobs)
}

/// Once `k` parts of `n` pages do not reach the end of the document and
/// `k + 1` parts do, the document has `k + 1` parts.
proof fn lemma_part_count(total: nat, n: nat, k: nat)
    requires
        n >= 1,
        k * n < total <= (k + 1) * n,
    ensures
        part_count(total, n) == k + 1,
{
    assert((total + n - 1) / (n as int) == k + 1) by (nonlinear_arith)
        requires
            n >= 1,
            k * n < total <= (k + 1) * n,
    ;
}

/// Plans mode `every-n`.
fn plan_every_n(stem: &str, dir: &str, every_n: Option<u32>, total: u32) -> (r: Result<
    Vec<SplitJob>,
    String,
>)
    ensures
        planned_view(r) == every_n_jobs(stem@, dir@, every_n, total),
{
    let n: u32 = match every_n {
        Some(n) => n,
        None => 1,
    };
    if n < 1 {
        return Err(String::from_str("every_n must be at least 1"));
    }
    let mut jobs: Vec<SplitJob> = Vec::new();
    let mut covered: u32 = 0;
    let mut k: u32 = 0;
    while covered < total
        invariant
            n >= 1,
            covered <= total,
            k <= covered,
            covered < total ==> covered == k * n,
            covered == total ==> (k == 0 && total == 0) || (k > 0 && (k - 1) * n < total <= k * n),
            jobs@.len() == k,
            job_views(jobs@) == Seq::new(k as nat, |j: int| part_job(stem@, dir@, total, n, j)),
        decreases total - covered,
    {
        let start: u32 = covered + 1;
        let end: u32 = if n - 1 >= total - start {
            total
        } else {
            start + (n - 1)
        };
        proof {
            assert((k + 1) * n == k * n + n) by (nonlinear_arith);
            assert(end == if (k + 1) * n < total {
                (k + 1) * n
            } else {
                total as int
            });
        }
        let name = concat3(
            concat2(stem, "_part").as_str(),
            decimal_string((k + 1) as u64).as_str(),
            ".pdf",
        );
        assert(name@ =~= part_name(stem@, (k + 1) as nat));
        let ghost before = job_views(jobs@);
        jobs.push(
            SplitJob {
                output_path: join(dir, name.as_str()),
                selection: Selection::Range { start, end },
            },
        );
        proof {
            assert(jobs@[k as int]@ == part_job(stem@, dir@, total, n, k as int));
            assert(job_views(jobs@) =~= before.push(part_job(stem@, dir@, total, n, k as int)));
            assert(job_views(jobs@) =~= Seq::new(
                (k + 1) as nat,
                |j: int| part_job(stem@, dir@, total, n, j),
            ));
        }
        covered = end;
        k = k + 1;
    }
    proof {
        if k > 0 {
            lemma_part_count(total as nat, n as nat, (k - 1) as nat);
        } else {
            assert((n - 1) / (n as int) == 0) by (nonlinear_arith)
                requires
                    n >= 1,
            ;
        }
    }
    Ok(jobs)
}

/// Plans a split from the stem of the input's name: a document of
/// `total_pages` pages is split into files under `output_dir` as `options`
/// ask.
pub fn plan_split(stem: &str, output_dir: &str, options: SplitOptions, total_pages: u32) -> (r:
    Result<SplitPlan, String>)
    ensures
        agrees(r, split_decision(stem@, output_dir@, options@, total_pages)),
        options@.mode == "range"@ && !range_is_valid(
            options@.range_start.unwrap_or(1u32),
            options@.range_end.unwrap_or(total_pages),
            total_pages,
        ) ==> r is Err,
{
    let planned = if equal(options.mode.as_str(), "range") {
        plan_range(stem, output_dir, options.range_start, options.range_end, total_pages)
    } else if equal(options.mode.as_str(), "extract") {
        plan_extract(stem, output_dir, options.pages, total_pages)
    } else if equal(options.mode.as_str(), "every-n") {
        plan_every_n(stem, output_dir, options.every_n, total_pages)
    } else {
        Err(
            concat3(
                "Invalid split mode '",
                options.mode.as_str(),
                "'. Valid options: range, extract, every-n",
            ),
        )
    };
    match planned {
        Ok(jobs) => Ok(SplitPlan { jobs, total_pages }),
        Err(e) => Err(e),
    }
}

/// Decides how a split begins from what the validation of the input
/// said; `output_dir_exists` says whether the output directory is there.
/// Nothing is to be done unless the result is `Ok`.
pub fn split_start(validation: Result<(), String>, output_dir_exists: bool) -> (r: Result<
    SplitStart,
    String,
>)
    ensures
        agrees(r, split_first_step(result_view(validation), output_dir_exists)),
        validation is Err ==> result_view(r) == Err::<SplitStart, Seq<char>>(
            validation->Err_0@,
        ),
{
    match validation {
        Err(e) => Err(e),
        Ok(_) => {
            if output_dir_exists {
                Ok(SplitStart::CountPages)
            } else {
                Ok(SplitStart::CreateOutputDir)
            }
        },
    }
}

/// Begins the split of `input_path`: `input_exists` says whether the file
/// is there, `output_dir_exists` whether the output directory is. Nothing
/// is to be done unless the result is `Ok`.
pub fn begin_split(input_path: &str, input_exists: bool, output_dir_exists: bool) -> (r: Result<
    SplitStart,
    String,
>)
    ensures
        agrees(
            r,
            split_first_step(
                pdf_check(input_path@, input_exists, path_extension(input_path@)),
                output_dir_exists,
            ),
        ),
{
    split_start(validate_pdf(input_path, input_exists), output_dir_exists)
}

/// Decides on a split from what the validation of the input said and from
/// the stem of the input's name.
pub fn split_job(
    validation: Result<(), String>,
    stem: &str,
    output_dir: &str,
    options: SplitOptions,
    total_pages: u32,
) -> (r: Result<SplitPlan, String>)
    ensures
        agrees(
            r,
            split_job_decision(
                result_view(validation),
                stem@,
                output_dir@,
                options@,
                total_pages,
            ),
        ),
        validation is Err ==> result_view(r) == Err::<SplitPlanView, Seq<char>>(
            validation->Err_0@,
        ),
        options@.mode == "range"@ && !range_is_valid(
            options@.range_start.unwrap_or(1u32),
            options@.range_end.unwrap_or(total_pages),
            total_pages,
        ) ==> r is Err,
{
    match validation {
        Err(e) => Err(e),
        Ok(_) => plan_split(stem, output_dir, options, total_pages),
    }
}

/// Plans the split of `input_path`, a document of `total_pages` pages,
/// into files under `output_dir`; `input_exists` says whether the input is
/// there. Nothing is to be run unless the result is `Ok`; then the jobs are
/// to be carried out in order.
pub fn split_pdf(
    input_path: &str,
    input_exists: bool,
    output_dir: &str,
    options: SplitOptions,
    total_pages: u32,
) -> (r: Result<SplitPlan, String>)
    ensures
        agrees(r, split_request(input_path@, input_exists, output_dir@, options@, total_pages)),
        options@.mode == "range"@ && !range_is_valid(
            options@.range_start.unwrap_or(1u32),
            options@.range_end.unwrap_or(total_pages),
            total_pages,
        ) ==> r is Err,
{
    let validation = validate_pdf(input_path, input_exists);
    let stem = stem_of(input_path);
    split_job(validation, stem.as_str(), output_dir, options, total_pages)
}

/// The record of a split that ran: the files of its jobs, in order.
pub fn split_result(plan: &SplitPlan) -> (r: SplitResult)
    ensures
        r@.total_pages == plan@.total_pages,
        r@.output_paths == Seq::new(plan@.jobs.len(), |i: int| plan@.jobs[i].output_path),
{
    let mut output_paths: Vec<String> = Vec::new();
    let mut i: usize = 0;
    while i < plan.jobs.len()
        invariant
            i <= plan.jobs@.len(),
            views(output_paths@) == Seq::new(i as nat, |k: int| plan.jobs@[k].output_path@),
        decreases plan.jobs@.len() - i,
    {
        let ghost before = views(output_paths@);
        output_paths.push(plan.jobs[i].output_path.clone());
        i += 1;
        assert(views(output_paths@) =~= before.push(plan.jobs@[i - 1].output_path@));
        assert(views(output_paths@) =~= Seq::new(i as nat, |k: int| plan.jobs@[k].output_path@));
    }
    let r = SplitResult { output_paths, total_pages: plan.total_pages };
    assert(r@.output_paths =~= Seq::new(plan@.jobs.len(), |i: int| plan@.jobs[i].output_path));
    r
}

/// The first and the last page of a job that takes a range.
pub open spec fn bounds(job: SplitJobView) -> (int, int) {
    match job.selection {
        SelectionView::Range { start, end } => (start as int, end as int),
        SelectionView::Pages(_) => (0, 0),
    }
}

/// The parts of mode `every-n` tile the document: the first part begins
/// with page 1, each part holds at least one page and at most `n`, each
/// begins where the part before it ended, and the last part ends with the
/// last page.
pub proof fn lemma_parts_tile(stem: Seq<char>, dir: Seq<char>, total: u32, n: u32)
    requires
        n >= 1,
    ensures
        ({
            let jobs = every_n_jobs(stem, dir, Some(n), total)->Ok_0;
            &&& every_n_jobs(stem, dir, Some(n), total) is Ok
            &&& (total == 0 <==> jobs.len() == 0)
            &&& jobs.len() > 0 ==> bounds(jobs[0]).0 == 1 && bounds(jobs.last()).1 == total
            &&& forall|k: int|
                0 <= k < jobs.len() ==> {
                    &&& bounds(#[trigger] jobs[k]).0 <= bounds(jobs[k]).1
                    &&& bounds(jobs[k]).1 - bounds(jobs[k]).0 < n
                }
            &&& forall|k: int|
                0 < k < jobs.len() ==> bounds(#[trigger] jobs[k]).0 == bounds(jobs[k - 1]).1 + 1
        }),
{
    let count = part_count(total as nat, n as nat);
    let jobs = every_n_jobs(stem, dir, Some(n), total)->Ok_0;
    assert(jobs.len() == count);
    assert(total == 0 <==> count == 0) by (nonlinear_arith)
        requires
            n >= 1,
            count == (total + n - 1) / (n as int),
    ;
    assert forall|k: int| 0 <= k < jobs.len() implies {
        &&& bounds(#[trigger] jobs[k]).0 <= bounds(jobs[k]).1
        &&& bounds(jobs[k]).1 - bounds(jobs[k]).0 < n
    } by {
        lemma_part_bounds(total, n, k);
    }
    assert forall|k: int| 0 < k < jobs.len() implies bounds(#[trigger] jobs[k]).0 == bounds(
        jobs[k - 1],
    ).1 + 1 by {
        lemma_part_bounds(total, n, k - 1);
        lemma_part_bounds(total, n, k);
    }
    if count > 0 {
        lemma_part_bounds(total, n, 0);
        lemma_part_bounds(total, n, count - 1);
    }
}

/// Where part `k` lies: it begins within the document, and unless it is
/// the last part its `n` pages end before the document does, while the
/// last part reaches the end.
proof fn lemma_part_bounds(total: u32, n: u32, k: int)
    requires
        n >= 1,
        0 <= k < part_count(total as nat, n as nat),
    ensures
        (k + 1) * n == k * n + n,
        0 <= k * n < total,
        k == 0 ==> k * n == 0,
        k + 1 < part_count(total as nat, n as nat) ==> (k + 1) * n < total,
        k + 1 == part_count(total as nat, n as nat) ==> (k + 1) * n >= total,
{
    let count = part_count(total as nat, n as nat);
    assert(count * n >= total && (count - 1) * n < total) by (nonlinear_arith)
        requires
            n >= 1,
            count == (total + n - 1) / (n as int),
            count > 0,
    ;
    assert((k + 1) * n == k * n + n && 0 <= k * n && k * n <= (count - 1) * n && (k + 1 < count
        ==> (k + 1) * n <= (count - 1) * n) && (k == 0 ==> k * n == 0)) by (nonlinear_arith)
        requires
            0 <= k < count,
            n >= 1,
    ;
}

/// What a page count request comes to, given what the validation of the
/// input said: the input must have passed, and the interpreter must be
/// there. Then the first page count query is to be run.
pub open spec fn page_count_decision(
    host: Host,
    input_path: Seq<char>,
    validation: Result<(), Seq<char>>,
) -> Result<InvocationView, Seq<char>> {
    match validation {
        Err(e) => Err(e),
        Ok(_) => ghostscript_call(host, page_count_args(input_path)),
    }
}

/// Decides on a page count from what the validation of the input said.
pub fn page_count_job(host: &Host, input_path: &str, validation: Result<(), String>) -> (r: Result<
    Invocation,
    String,
>)
    ensures
        agrees(r, page_count_decision(*host, input_path@, result_view(validation))),
{
    match validation {
        Err(e) => Err(e),
        Ok(_) => get_page_count(host, input_path),
    }
}

/// Prepares the page count of `input_path`; `input_exists` says whether
/// the file is there.
pub fn get_pdf_page_count(host: &Host, input_path: &str, input_exists: bool) -> (r: Result<
    Invocation,
    String,
>)
    ensures
        agrees(
            r,
            page_count_decision(
                *host,
                input_path@,
                pdf_check(input_path@, input_exists, path_extension(input_path@)),
            ),
        ),
{
    page_count_job(host, input_path, validate_pdf(input_path, input_exists))
}

/// What to report when the output directory could not be made; `detail`
/// is the system's own description of the failure.
pub fn create_dir_failure(detail: &str) -> (s: String)
    ensures
        s@ == "Failed to create output directory: "@ + detail@,
{
    concat2("Failed to create output directory: ", detail)
}

} // verus!
