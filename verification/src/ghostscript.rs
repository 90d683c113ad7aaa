//! Command lines for the PostScript interpreter, and the reading of what it
//! reports: compression, merging, page counting and page extraction.

use vstd::prelude::*;
use vstd::string::*;
use crate::locate::{locate, located, Host, Platform};
use crate::process::{agrees, call_of, code_text, describe_code, opt_view, result_view, ExitStatus,
    Invocation, InvocationView, ProcessOutput};
use crate::text::{concat2, concat3, decimal, decimal_string, last_line, last_line_of, parse_u32,
    parsed_u32, push_char, chars_of, trim, trimmed, views};
use crate::paths::{join, path_join};

verus! {

/// The usual install places of the interpreter, most likely first.
pub open spec fn ghostscript_places(platform: Platform) -> Seq<Seq<char>> {
    match platform {
        Platform::Windows => seq![
            "C:\\Program Files\\gs\\gs10.04.0\\bin\\gswin64c.exe"@,
            "C:\\Program Files\\gs\\gs10.03.0\\bin\\gswin64c.exe"@,
            "C:\\Program Files\\gs\\gs10.02.0\\bin\\gswin64c.exe"@,
            "C:\\Program Files\\gs\\gs10.01.0\\bin\\gswin64c.exe"@,
            "C:\\Program Files\\gs\\gs10.00.0\\bin\\gswin64c.exe"@,
            "C:\\Program Files\\gs\\gs9.56.1\\bin\\gswin64c.exe"@,
            "C:\\Program Files (x86)\\gs\\gs10.04.0\\bin\\gswin32c.exe"@,
        ],
        Platform::MacOs => seq![
            "/opt/homebrew/bin/gs"@,
            "/usr/local/bin/gs"@,
            "/opt/local/bin/gs"@,
        ],
        Platform::Linux => seq!["/usr/bin/gs"@, "/usr/local/bin/gs"@],
        Platform::Other => Seq::empty(),
    }
}

/// Lists the usual install places of the interpreter on `platform`.
pub fn ghostscript_candidates(platform: Platform) -> (v: Vec<String>)
    ensures
        views(v@) == ghostscript_places(platform),
{
    let mut v: Vec<String> = Vec::new();
    match platform {
        Platform::Windows => {
            v.push(String::from_str("C:\\Program Files\\gs\\gs10.04.0\\bin\\gswin64c.exe"));
            v.push(String::from_str("C:\\Program Files\\gs\\gs10.03.0\\bin\\gswin64c.exe"));
            v.push(String::from_str("C:\\Program Files\\gs\\gs10.02.0\\bin\\gswin64c.exe"));
            v.push(String::from_str("C:\\Program Files\\gs\\gs10.01.0\\bin\\gswin64c.exe"));
            v.push(String::from_str("C:\\Program Files\\gs\\gs10.00.0\\bin\\gswin64c.exe"));
            v.push(String::from_str("C:\\Program Files\\gs\\gs9.56.1\\bin\\gswin64c.exe"));
            v.push(String::from_str("C:\\Program Files (x86)\\gs\\gs10.04.0\\bin\\gswin32c.exe"));
        },
        Platform::MacOs => {
            v.push(String::from_str("/opt/homebrew/bin/gs"));
            v.push(String::from_str("/usr/local/bin/gs"));
            v.push(String::from_str("/opt/local/bin/gs"));
        },
        Platform::Linux => {
            v.push(String::from_str("/usr/bin/gs"));
            v.push(String::from_str("/usr/local/bin/gs"));
        },
        Platform::Other => {},
    }
    assert(views(v@) =~= ghostscript_places(platform));
    v
}

/// Finds the interpreter: `on_path` is what a search of the command path
/// for `gs` gave, and `present[i]` says whether the i-th install place of
/// `platform` exists. The search path wins; then the first place present.
pub fn find_ghostscript(on_path: Option<String>, platform: Platform, present: &Vec<bool>) -> (r:
    Option<String>)
    ensures
        opt_view(r) == located(opt_view(on_path), ghostscript_places(platform), present@),
{
    locate(on_path, ghostscript_candidates(platform), present)
}

/// What to tell a user who has no interpreter installed.
pub open spec fn ghostscript_missing(platform: Platform) -> Seq<char> {
    "Ghostscript not found. "@ + match platform {
        Platform::MacOs => "Install with: brew install ghostscript"@,
        Platform::Windows => "Download from: https://ghostscript.com/releases/gsdnld.html"@,
        _ => "Install with: sudo apt install ghostscript"@,
    }
}

/// The place of the interpreter on `host`, or the complaint that it is
/// missing, with a hint on how to install it there.
pub fn get_gs(host: &Host) -> (r: Result<String, String>)
    ensures
        agrees(
            r,
            match opt_view(host.ghostscript) {
                Some(p) => Ok(p),
                None => Err(ghostscript_missing(host.platform)),
            },
        ),
{
    match &host.ghostscript {
        Some(p) => Ok(p.clone()),
        None => {
            let hint = match host.platform {
                Platform::MacOs => "Install with: brew install ghostscript",
                Platform::Windows => "Download from: https://ghostscript.com/releases/gsdnld.html",
                _ => "Install with: sudo apt install ghostscript",
            };
            Err(concat2("Ghostscript not found. ", hint))
        },
    }
}

/// The command line that runs the interpreter of `host` on `args`, or the
/// complaint that there is none.
pub open spec fn ghostscript_call(host: Host, args: Seq<Seq<char>>) -> Result<
    InvocationView,
    Seq<char>,
> {
    call_of(opt_view(host.ghostscript), ghostscript_missing(host.platform), args)
}

/// Makes the command line of the interpreter on `host` with `args`.
fn call(host: &Host, args: Vec<String>) -> (r: Result<Invocation, String>)
    ensures
        agrees(r, ghostscript_call(*host, views(args@))),
{
    match get_gs(host) {
        Ok(program) => Ok(Invocation { program, args }),
        Err(e) => Err(e),
    }
}

/// What to report when the interpreter could not be started at all;
/// `detail` is the system's own description of the failure.
pub fn launch_failure(detail: &str) -> (s: String)
    ensures
        s@ == "Failed to run Ghostscript: "@ + detail@,
{
    concat2("Failed to run Ghostscript: ", detail)
}

/// The command line that asks the interpreter for its version.
pub fn get_version(host: &Host) -> (r: Result<Invocation, String>)
    ensures
        agrees(r, ghostscript_call(*host, seq!["--version"@])),
{
    let mut args: Vec<String> = Vec::new();
    args.push(String::from_str("--version"));
    assert(views(args@) =~= seq!["--version"@]);
    call(host, args)
}

/// Reads the reply to a version query: on success the version is what was
/// printed, without surrounding white space.
pub fn read_version(output: &ProcessOutput) -> (r: Result<String, String>)
    ensures
        agrees(
            r,
            if output.status.success {
                Ok(trimmed(output.stdout@))
            } else {
                Err("Failed to get Ghostscript version"@)
            },
        ),
{
    if output.status.success {
        Ok(trim(output.stdout.as_str()))
    } else {
        Err(String::from_str("Failed to get Ghostscript version"))
    }
}

/// The arguments of a compression run: rewrite `input` into `output` with
/// the quality preset `preset`, detecting duplicate images and compressing
/// and subsetting fonts.
pub open spec fn compress_args(input: Seq<char>, output: Seq<char>, preset: Seq<char>) -> Seq<
    Seq<char>,
> {
    seq![
        "-sDEVICE=pdfwrite"@,
        "-dCompatibilityLevel=1.4"@,
        "-dPDFSETTINGS=/"@ + preset,
        "-dNOPAUSE"@,
        "-dQUIET"@,
        "-dBATCH"@,
        "-dDetectDuplicateImages=true"@,
        "-dCompressFonts=true"@,
        "-dSubsetFonts=true"@,
        "-sOutputFile="@ + output,
        input,
    ]
}

/// The command line that compresses `input` into `output`.
pub fn compress(host: &Host, input: &str, output: &str, preset: &str) -> (r: Result<
    Invocation,
    String,
>)
    ensures
        agrees(r, ghostscript_call(*host, compress_args(input@, output@, preset@))),
{
    let mut args: Vec<String> = Vec::new();
    args.push(String::from_str("-sDEVICE=pdfwrite"));
    args.push(String::from_str("-dCompatibilityLevel=1.4"));
    args.push(concat2("-dPDFSETTINGS=/", preset));
    args.push(String::from_str("-dNOPAUSE"));
    args.push(String::from_str("-dQUIET"));
    args.push(String::from_str("-dBATCH"));
    args.push(String::from_str("-dDetectDuplicateImages=true"));
    args.push(String::from_str("-dCompressFonts=true"));
    args.push(String::from_str("-dSubsetFonts=true"));
    args.push(concat2("-sOutputFile=", output));
    args.push(String::from_str(input));
    assert(views(args@) =~= compress_args(input@, output@, preset@));
    call(host, args)
}

/// Reads how a compression run ended: a failure carries the exit code.
pub fn compress_status(status: ExitStatus) -> (r: Result<(), String>)
    ensures
        agrees(
            r,
            if status.success {
                Ok(())
            } else {
                Err("Ghostscript compression failed with exit code: "@ + code_text(status.code))
            },
        ),
{
    if status.success {
        Ok(())
    } else {
        Err(
            concat2(
                "Ghostscript compression failed with exit code: ",
                describe_code(status.code).as_str(),
            ),
        )
    }
}

/// The arguments of a merge: write to `output` the documents of `inputs`,
/// one after another in the order given.
pub open spec fn merge_args(inputs: Seq<Seq<char>>, output: Seq<char>) -> Seq<Seq<char>> {
    seq![
        "-sDEVICE=pdfwrite"@,
        "-dNOPAUSE"@,
        "-dQUIET"@,
        "-dBATCH"@,
        "-sOutputFile="@ + output,
    ] + inputs
}

/// The command line that merges `inputs` into `output`.
pub fn merge(host: &Host, inputs: &Vec<String>, output: &str) -> (r: Result<Invocation, String>)
    ensures
        agrees(r, ghostscript_call(*host, merge_args(views(inputs@), output@))),
{
    let mut args: Vec<String> = Vec::new();
    args.push(String::from_str("-sDEVICE=pdfwrite"));
    args.push(String::from_str("-dNOPAUSE"));
    args.push(String::from_str("-dQUIET"));
    args.push(String::from_str("-dBATCH"));
    args.push(concat2("-sOutputFile=", output));
    let ghost head = views(args@);
    let mut i: usize = 0;
    while i < inputs.len()
        invariant
            i <= inputs@.len(),
            views(args@) == head + views(inputs@).take(i as int),
        decreases inputs@.len() - i,
    {
        let item = inputs[i].clone();
        let ghost before = views(args@);
        args.push(item);
        assert(views(args@) =~= before.push(inputs@[i as int]@));
        i += 1;
        assert(views(inputs@).take(i as int) =~= views(inputs@).take(i - 1).push(
            inputs@[i - 1]@,
        ));
        assert(views(args@) =~= head + views(inputs@).take(i as int));
    }
    assert(views(args@) =~= merge_args(views(inputs@), output@));
    call(host, args)
}

/// Reads how a merge ended: a failure carries the exit code.
pub fn merge_status(status: ExitStatus) -> (r: Result<(), String>)
    ensures
        agrees(
            r,
            if status.success {
                Ok(())
            } else {
                Err("Ghostscript merge failed with exit code: "@ + code_text(status.code))
            },
        ),
{
    if status.success {
        Ok(())
    } else {
        Err(
            concat2(
                "Ghostscript merge failed with exit code: ",
                describe_code(status.code).as_str(),
            ),
        )
    }
}

/// The PostScript program that prints the number of pages of the file
/// whose name, written as a PostScript string body, is `name`.
pub open spec fn page_count_program(name: Seq<char>) -> Seq<char> {
    "("@ + name + ") (r) file runpdfbegin pdfpagecount = quit"@
}

/// The arguments of the first page count query: the program rides in one
/// argument together with its `-c` switch, the file name as it stands.
pub open spec fn page_count_args(input: Seq<char>) -> Seq<Seq<char>> {
    seq!["-q"@, "-dNODISPLAY"@, "-dNOSAFER"@, "-c "@ + page_count_program(input)]
}

/// The command line of the first page count query for `input`.
pub fn get_page_count(host: &Host, input: &str) -> (r: Result<Invocation, String>)
    ensures
        agrees(r, ghostscript_call(*host, page_count_args(input@))),
{
    let mut args: Vec<String> = Vec::new();
    args.push(String::from_str("-q"));
    args.push(String::from_str("-dNODISPLAY"));
    args.push(String::from_str("-dNOSAFER"));
    let program = concat3("(", input, ") (r) file runpdfbegin pdfpagecount = quit");
    args.push(concat2("-c ", program.as_str()));
    assert(views(args@) =~= page_count_args(input@));
    call(host, args)
}

/// What the first page count query settles, given whether it succeeded and
/// what it printed. `None` means nothing is settled: the query failed and
/// the alternative query is to be tried. Otherwise the printed text without
/// surrounding white space is read as a number.
pub open spec fn page_count_reply(success: bool, stdout: Seq<char>) -> Option<
    Result<u32, Seq<char>>,
> {
    if success {
        let text = trimmed(stdout);
        match parsed_u32(text) {
            Some(n) => Some(Ok(n)),
            None => Some(Err("Failed to parse page count: "@ + text)),
        }
    } else {
        None
    }
}

/// The view of a reply to the first page count query.
pub open spec fn reply_view(r: Option<Result<u32, String>>) -> Option<Result<u32, Seq<char>>> {
    match r {
        Some(settled) => Some(result_view(settled)),
        None => None,
    }
}

/// Reads the reply to the first page count query. `None`: try the
/// alternative query.
pub fn read_page_count(output: &ProcessOutput) -> (r: Option<Result<u32, String>>)
    ensures
        reply_view(r) == page_count_reply(output.status.success, output.stdout@),
{
    if output.status.success {
        let text = trim(output.stdout.as_str());
        match parse_u32(text.as_str()) {
            Some(n) => Some(Ok(n)),
            None => Some(Err(concat2("Failed to parse page count: ", text.as_str()))),
        }
    } else {
        None
    }
}

/// How one character of a file name is written inside a PostScript string:
/// a backslash becomes a slash, and a parenthesis gets a backslash in front.
pub open spec fn escaped_char(c: char) -> Seq<char> {
    if c == '\\' {
        seq!['/']
    } else if c == '(' {
        seq!['\\', '(']
    } else if c == ')' {
        seq!['\\', ')']
    } else {
        seq![c]
    }
}

/// A file name written as the body of a PostScript string.
pub open spec fn escaped(name: Seq<char>) -> Seq<char>
    decreases name.len(),
{
    if name.len() == 0 {
        Seq::empty()
    } else {
        escaped(name.drop_last()) + escaped_char(name.last())
    }
}

/// Writes a file name as the body of a PostScript string.
pub fn escape(name: &str) -> (s: String)
    ensures
        s@ == escaped(name@),
{
    let chars = chars_of(name);
    let mut s: String = String::new();
    let mut i: usize = 0;
    while i < chars.len()
        invariant
            i <= chars@.len(),
            chars@ == name@,
            s@ == escaped(chars@.take(i as int)),
        decreases chars@.len() - i,
    {
        let c: char = chars[i];
        proof {
            assert(chars@.take(i + 1).drop_last() =~= chars@.take(i as int));
            assert(chars@.take(i + 1).last() == c);
        }
        let ghost before = s@;
        if c == '\\' {
            push_char(&mut s, '/');
            assert(s@ =~= before + escaped_char(c));
        } else if c == '(' || c == ')' {
            push_char(&mut s, '\\');
            push_char(&mut s, c);
            assert(s@ =~= before + escaped_char(c));
        } else {
            push_char(&mut s, c);
            assert(s@ =~= before + escaped_char(c));
        }
        i += 1;
    }
    assert(chars@.take(chars@.len() as int) =~= chars@);
    s
}

/// In an escaped name every parenthesis has a backslash in front, and a
/// backslash stands nowhere else: whatever the name, the PostScript string
/// around it ends where it is meant to end.
pub proof fn lemma_escaped_is_closed(name: Seq<char>)
    ensures
        forall|i: int|
            0 <= i < escaped(name).len() && (#[trigger] escaped(name)[i] == '(' || escaped(
                name,
            )[i] == ')') ==> i > 0 && escaped(name)[i - 1] == '\\',
        forall|i: int|
            0 <= i < escaped(name).len() && #[trigger] escaped(name)[i] == '\\' ==> i + 1
                < escaped(name).len() && (escaped(name)[i + 1] == '(' || escaped(name)[i + 1]
                == ')'),
    decreases name.len(),
{
    if name.len() > 0 {
        let head = escaped(name.drop_last());
        let tail = escaped_char(name.last());
        let all = escaped(name);
        lemma_escaped_is_closed(name.drop_last());
        assert(all =~= head + tail);
        assert forall|i: int|
            0 <= i < all.len() && (#[trigger] all[i] == '(' || all[i] == ')') implies i > 0
            && all[i - 1] == '\\' by {
            if i < head.len() {
                assert(all[i] == head[i]);
                assert(all[i - 1] == head[i - 1]);
            } else {
                assert(all[i] == tail[i - head.len()]);
                assert(i - head.len() == 1);
                assert(all[i - 1] == tail[0]);
            }
        }
        assert forall|i: int| 0 <= i < all.len() && #[trigger] all[i] == '\\' implies i + 1
            < all.len() && (all[i + 1] == '(' || all[i + 1] == ')') by {
            if i < head.len() {
                assert(all[i] == head[i]);
                assert(i + 1 < head.len());
                assert(all[i + 1] == head[i + 1]);
            } else {
                assert(all[i] == tail[i - head.len()]);
                assert(i - head.len() == 0);
                assert(all[i + 1] == tail[1]);
            }
        }
    }
}

/// The arguments of the alternative page count query: the program is an
/// argument of its own after `-c`, and the file name is escaped.
pub open spec fn page_count_alternative_args(input: Seq<char>) -> Seq<Seq<char>> {
    seq![
        "-q"@,
        "-dNODISPLAY"@,
        "-dBATCH"@,
        "-dNOPAUSE"@,
        "-c"@,
        page_count_program(escaped(input)),
    ]
}

/// The command line of the alternative page count query for `input`.
pub fn get_page_count_alternative(host: &Host, input: &str) -> (r: Result<Invocation, String>)
    ensures
        agrees(r, ghostscript_call(*host, page_count_alternative_args(input@))),
{
    let mut args: Vec<String> = Vec::new();
    args.push(String::from_str("-q"));
    args.push(String::from_str("-dNODISPLAY"));
    args.push(String::from_str("-dBATCH"));
    args.push(String::from_str("-dNOPAUSE"));
    args.push(String::from_str("-c"));
    args.push(
        concat3("(", escape(input).as_str(), ") (r) file runpdfbegin pdfpagecount = quit"),
    );
    assert(views(args@) =~= page_count_alternative_args(input@));
    call(host, args)
}

/// What the alternative page count query gives. On success the number is
/// read from the last line of what was printed, white space aside; a
/// failed run is reported with what the interpreter wrote to its error
/// stream.
pub open spec fn page_count_alternative_reply(
    success: bool,
    stdout: Seq<char>,
    stderr: Seq<char>,
) -> Result<u32, Seq<char>> {
    if success {
        let text = trimmed(stdout);
        match parsed_u32(trimmed(last_line(text))) {
            Some(n) => Ok(n),
            None => Err("Failed to parse page count from: "@ + text),
        }
    } else {
        Err("Failed to get page count: "@ + stderr)
    }
}

/// Reads the reply to the alternative page count query.
pub fn read_page_count_alternative(output: &ProcessOutput) -> (r: Result<u32, String>)
    ensures
        agrees(
            r,
            page_count_alternative_reply(output.status.success, output.stdout@, output.stderr@),
        ),
{
    if output.status.success {
        let text = trim(output.stdout.as_str());
        let line = last_line_of(text.as_str());
        let number = trim(line.as_str());
        match parse_u32(number.as_str()) {
            Some(n) => Ok(n),
            None => Err(concat2("Failed to parse page count from: ", text.as_str())),
        }
    } else {
        Err(concat2("Failed to get page count: ", output.stderr.as_str()))
    }
}

/// The arguments of an extraction: write pages `start` to `end` of `input`
/// to `output`.
pub open spec fn extract_args(input: Seq<char>, output: Seq<char>, start: u32, end: u32) -> Seq<
    Seq<char>,
> {
    seq![
        "-sDEVICE=pdfwrite"@,
        "-dNOPAUSE"@,
        "-dQUIET"@,
        "-dBATCH"@,
        "-dFirstPage="@ + decimal(start as nat),
        "-dLastPage="@ + decimal(end as nat),
        "-sOutputFile="@ + output,
        input,
    ]
}

/// The command line that extracts pages `start` to `end` of `input`.
pub fn extract_pages(host: &Host, input: &str, output: &str, start: u32, end: u32) -> (r: Result<
    Invocation,
    String,
>)
    ensures
        agrees(r, ghostscript_call(*host, extract_args(input@, output@, start, end))),
{
    let mut args: Vec<String> = Vec::new();
    args.push(String::from_str("-sDEVICE=pdfwrite"));
    args.push(String::from_str("-dNOPAUSE"));
    args.push(String::from_str("-dQUIET"));
    args.push(String::from_str("-dBATCH"));
    args.push(concat2("-dFirstPage=", decimal_string(start as u64).as_str()));
    args.push(concat2("-dLastPage=", decimal_string(end as u64).as_str()));
    args.push(concat2("-sOutputFile=", output));
    args.push(String::from_str(input));
    assert(views(args@) =~= extract_args(input@, output@, start, end));
    call(host, args)
}

/// What to report when pages `start` to `end` could not be extracted: the
/// range, and the exit code of the interpreter.
pub open spec fn extract_failure(start: u32, end: u32, code: Option<i32>) -> Seq<char> {
    "Failed to extract pages "@ + decimal(start as nat) + "-"@ + decimal(end as nat)
        + " with exit code: "@ + code_text(code)
}

/// Reads how the extraction of pages `start` to `end` ended: a failure
/// names the range and carries the exit code.
pub fn extract_pages_status(status: ExitStatus, start: u32, end: u32) -> (r: Result<(), String>)
    ensures
        agrees(
            r,
            if status.success {
                Ok(())
            } else {
                Err(extract_failure(start, end, status.code))
            },
        ),
{
    if status.success {
        Ok(())
    } else {
        let range = concat3(
            decimal_string(start as u64).as_str(),
            "-",
            decimal_string(end as u64).as_str(),
        );
        let message = concat3(
            concat2("Failed to extract pages ", range.as_str()).as_str(),
            " with exit code: ",
            describe_code(status.code).as_str(),
        );
        assert(message@ =~= extract_failure(start, end, status.code));
        Err(message)
    }
}

/// How the pages extracted one by one become the output file.
#[derive(Debug, Clone, PartialEq, Eq)]
pub enum Assembly {
    /// A single page was extracted: copy its file to the output.
    Copy { from: String, to: String },
    /// Merge the extracted files, in order, into the output.
    Merge(Invocation),
}

/// The mathematical content of an [`Assembly`].
pub enum AssemblyView {
    Copy { from: Seq<char>, to: Seq<char> },
    Merge(InvocationView),
}

impl View for Assembly {
    type V = AssemblyView;

    open spec fn view(&self) -> AssemblyView {
        match self {
            Assembly::Copy { from, to } => AssemblyView::Copy { from: from@, to: to@ },
            Assembly::Merge(invocation) => AssemblyView::Merge(invocation@),
        }
    }
}

/// The steps that gather an arbitrary list of pages into one file: one
/// extraction per page into a temporary file, then the assembly.
#[derive(Debug, Clone, PartialEq, Eq)]
pub struct PageListPlan {
    pub extractions: Vec<Invocation>,
    pub temp_files: Vec<String>,
    pub assembly: Assembly,
}

/// The mathematical content of a [`PageListPlan`].
pub struct PageListPlanView {
    pub extractions: Seq<InvocationView>,
    pub temp_files: Seq<Seq<char>>,
    pub assembly: AssemblyView,
}

/// The views of the command lines of a vector, in order.
pub open spec fn invocation_views(v: Seq<Invocation>) -> Seq<InvocationView> {
    Seq::new(v.len(), |i: int| v[i]@)
}

impl View for PageListPlan {
    type V = PageListPlanView;

    open spec fn view(&self) -> PageListPlanView {
        PageListPlanView {
            extractions: invocation_views(self.extractions@),
            temp_files: views(self.temp_files@),
            assembly: self.assembly@,
        }
    }
}

/// The temporary file that receives page `page`.
pub open spec fn temp_page_file(temp_dir: Seq<char>, page: u32) -> Seq<char> {
    path_join(temp_dir, "page_"@ + decimal(page as nat) + ".pdf"@)
}

/// The temporary files of a list of pages, one per entry of the list.
pub open spec fn temp_page_files(temp_dir: Seq<char>, pages: Seq<u32>) -> Seq<Seq<char>> {
    Seq::new(pages.len(), |i: int| temp_page_file(temp_dir, pages[i]))
}

/// The plan that gathers `pages` of `input` into `output` by way of
/// `temp_dir`: page by page in the order of the list, a page listed twice
/// extracted twice. One page alone is copied; any other number of files is
/// merged.
pub open spec fn page_list_plan(
    program: Seq<char>,
    input: Seq<char>,
    output: Seq<char>,
    pages: Seq<u32>,
    temp_dir: Seq<char>,
) -> PageListPlanView {
    let temp_files = temp_page_files(temp_dir, pages);
    PageListPlanView {
        extractions: Seq::new(
            pages.len(),
            |i: int|
                InvocationView {
                    program,
                    args: extract_args(input, temp_files[i], pages[i], pages[i]),
                },
        ),
        temp_files,
        assembly: if pages.len() == 1 {
            AssemblyView::Copy { from: temp_files[0], to: output }
        } else {
            AssemblyView::Merge(InvocationView { program, args: merge_args(temp_files, output) })
        },
    }
}

/// What a request to gather `pages` comes to. A missing interpreter is
/// reported first; then a temporary directory that could not be made,
/// `temp_dir` holding the system's description of that failure.
pub open spec fn page_list_request(
    host: Host,
    input: Seq<char>,
    output: Seq<char>,
    pages: Seq<u32>,
    temp_dir: Result<Seq<char>, Seq<char>>,
) -> Result<PageListPlanView, Seq<char>> {
    match opt_view(host.ghostscript) {
        None => Err(ghostscript_missing(host.platform)),
        Some(program) => match temp_dir {
            Err(detail) => Err("Failed to create temp directory: "@ + detail),
            Ok(dir) => Ok(page_list_plan(program, input, output, pages, dir)),
        },
    }
}

/// Plans the gathering of `pages` of `input` into `output`. `temp_dir` is
/// a fresh directory for the single pages, or the system's description of
/// why none could be made.
pub fn extract_page_list(
    host: &Host,
    input: &str,
    output: &str,
    pages: &Vec<u32>,
    temp_dir: &Result<String, String>,
) -> (r: Result<PageListPlan, String>)
    ensures
        agrees(r, page_list_request(*host, input@, output@, pages@, result_view(*temp_dir))),
{
    let program = match get_gs(host) {
        Ok(p) => p,
        Err(e) => {
            return Err(e);
        },
    };
    let dir = match temp_dir {
        Ok(d) => d,
        Err(detail) => {
            return Err(concat2("Failed to create temp directory: ", detail.as_str()));
        },
    };
    let ghost want = page_list_plan(program@, input@, output@, pages@, dir@);
    let mut extractions: Vec<Invocation> = Vec::new();
    let mut temp_files: Vec<String> = Vec::new();
    let mut i: usize = 0;
    while i < pages.len()
        invariant
            i <= pages@.len(),
            opt_view(host.ghostscript) == Some(program@),
            want == page_list_plan(program@, input@, output@, pages@, dir@),
            extractions@.len() == i,
            temp_files@.len() == i,
            invocation_views(extractions@) == want.extractions.take(i as int),
            views(temp_files@) == want.temp_files.take(i as int),
        decreases pages@.len() - i,
    {
        let page: u32 = pages[i];
        let name = concat3("page_", decimal_string(page as u64).as_str(), ".pdf");
        let temp = join(dir.as_str(), name.as_str());
        let extraction = match extract_pages(host, input, temp.as_str(), page, page) {
            Ok(invocation) => invocation,
            Err(e) => {
                return Err(e);
            },
        };
        let ghost before_e = invocation_views(extractions@);
        let ghost before_t = views(temp_files@);
        extractions.push(extraction);
        temp_files.push(temp);
        proof {
            assert(temp_files@[i as int]@ == want.temp_files[i as int]);
            assert(extractions@[i as int]@ == want.extractions[i as int]);
            assert(invocation_views(extractions@) =~= before_e.push(want.extractions[i as int]));
            assert(views(temp_files@) =~= before_t.push(want.temp_files[i as int]));
            assert(want.extractions.take(i + 1) =~= want.extractions.take(i as int).push(
                want.extractions[i as int],
            ));
            assert(want.temp_files.take(i + 1) =~= want.temp_files.take(i as int).push(
                want.temp_files[i as int],
            ));
        }
        i += 1;
    }
    proof {
        assert(want.extractions.take(pages@.len() as int) =~= want.extractions);
        assert(want.temp_files.take(pages@.len() as int) =~= want.temp_files);
    }
    let assembly = if temp_files.len() == 1 {
        Assembly::Copy { from: temp_files[0].clone(), to: String::from_str(output) }
    } else {
        match merge(host, &temp_files, output) {
            Ok(invocation) => Assembly::Merge(invocation),
            Err(e) => {
                return Err(e);
            },
        }
    };
    Ok(PageListPlan { extractions, temp_files, assembly })
}

/// What to report when the single extracted page could not be copied to
/// the output; `detail` is the system's own description of the failure.
pub fn copy_failure(detail: &str) -> (s: String)
    ensures
        s@ == "Failed to copy output: "@ + detail@,
{
    concat2("Failed to copy output: ", detail)
}

} // verus!
