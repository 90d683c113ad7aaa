//! Command lines for the PDF security tool, and the reading of what it
//! reports: encryption, decryption, optimization and the encryption query.

use vstd::prelude::*;
use vstd::string::*;
use crate::locate::{locate, located, Host, Platform};
use crate::process::{agrees, call_of, opt_view, ExitStatus, Invocation, InvocationView};
use crate::text::{concat2, views};

verus! {

/// The usual install places of the tool, most likely first.
pub open spec fn qpdf_places(platform: Platform) -> Seq<Seq<char>> {
    match platform {
        Platform::Windows => seq![
            "C:\\Program Files\\qpdf\\bin\\qpdf.exe"@,
            "C:\\Program Files (x86)\\qpdf\\bin\\qpdf.exe"@,
        ],
        Platform::MacOs => seq![
            "/opt/homebrew/bin/qpdf"@,
            "/usr/local/bin/qpdf"@,
            "/opt/local/bin/qpdf"@,
        ],
        Platform::Linux => seq!["/usr/bin/qpdf"@, "/usr/local/bin/qpdf"@],
        Platform::Other => Seq::empty(),
    }
}

/// Lists the usual install places of the tool on `platform`.
pub fn qpdf_candidates(platform: Platform) -> (v: Vec<String>)
    ensures
        views(v@) == qpdf_places(platform),
{
    let mut v: Vec<String> = Vec::new();
    match platform {
        Platform::Windows => {
            v.push(String::from_str("C:\\Program Files\\qpdf\\bin\\qpdf.exe"));
            v.push(String::from_str("C:\\Program Files (x86)\\qpdf\\bin\\qpdf.exe"));
        },
        Platform::MacOs => {
            v.push(String::from_str("/opt/homebrew/bin/qpdf"));
            v.push(String::from_str("/usr/local/bin/qpdf"));
            v.push(String::from_str("/opt/local/bin/qpdf"));
        },
        Platform::Linux => {
            v.push(String::from_str("/usr/bin/qpdf"));
            v.push(String::from_str("/usr/local/bin/qpdf"));
        },
        Platform::Other => {},
    }
    assert(views(v@) =~= qpdf_places(platform));
    v
}

/// Finds the tool: `on_path` is what a search of the command path for
/// `qpdf` gave, and `present[i]` says whether the i-th install place of
/// `platform` exists. The search path wins; then the first place present.
pub fn find_qpdf(on_path: Option<String>, platform: Platform, present: &Vec<bool>) -> (r: Option<
    String,
>)
    ensures
        opt_view(r) == located(opt_view(on_path), qpdf_places(platform), present@),
{
    locate(on_path, qpdf_candidates(platform), present)
}

/// What to tell a user who has no copy of the tool installed.
pub open spec fn qpdf_missing(platform: Platform) -> Seq<char> {
    "qpdf not found. "@ + match platform {
        Platform::MacOs => "Install with: brew install qpdf"@,
        Platform::Windows => "Download from: https://github.com/qpdf/qpdf/releases"@,
        _ => "Install with: sudo apt install qpdf"@,
    }
}

/// The place of the tool on `host`, or the complaint that it is missing,
/// with a hint on how to install it there.
pub fn get_qpdf(host: &Host) -> (r: Result<String, String>)
    ensures
        agrees(
            r,
            match opt_view(host.qpdf) {
                Some(p) => Ok(p),
                None => Err(qpdf_missing(host.platform)),
            },
        ),
{
    match &host.qpdf {
        Some(p) => Ok(p.clone()),
        None => {
            let hint = match host.platform {
                Platform::MacOs => "Install with: brew install qpdf",
                Platform::Windows => "Download from: https://github.com/qpdf/qpdf/releases",
                _ => "Install with: sudo apt install qpdf",
            };
            Err(concat2("qpdf not found. ", hint))
        },
    }
}

/// The command line that runs the tool of `host` on `args`, or the
/// complaint that there is none.
pub open spec fn qpdf_call(host: Host, args: Seq<Seq<char>>) -> Result<InvocationView, Seq<char>> {
    call_of(opt_view(host.qpdf), qpdf_missing(host.platform), args)
}

/// Makes the command line of the tool on `host` with `args`.
fn call(host: &Host, args: Vec<String>) -> (r: Result<Invocation, String>)
    ensures
        agrees(r, qpdf_call(*host, views(args@))),
{
    match get_qpdf(host) {
        Ok(program) => Ok(Invocation { program, args }),
        Err(e) => Err(e),
    }
}

/// What to report when the tool could not be started at all; `detail` is
/// the system's own description of the failure.
pub fn launch_failure(detail: &str) -> (s: String)
    ensures
        s@ == "Failed to run qpdf: "@ + detail@,
{
    concat2("Failed to run qpdf: ", detail)
}

/// The arguments of an encryption: both passwords, a key length of 256
/// bits, and after the separator the input and the output.
pub open spec fn encrypt_args(
    input: Seq<char>,
    output: Seq<char>,
    user_password: Seq<char>,
    owner_password: Seq<char>,
) -> Seq<Seq<char>> {
    seq!["--encrypt"@, user_password, owner_password, "256"@, "--"@, input, output]
}

/// The command line that encrypts `input` into `output`.
pub fn encrypt(
    host: &Host,
    input: &str,
    output: &str,
    user_password: &str,
    owner_password: &str,
) -> (r: Result<Invocation, String>)
    ensures
        agrees(r, qpdf_call(*host, encrypt_args(input@, output@, user_password@, owner_password@))),
{
    let mut args: Vec<String> = Vec::new();
    args.push(String::from_str("--encrypt"));
    args.push(String::from_str(user_password));
    args.push(String::from_str(owner_password));
    args.push(String::from_str("256"));
    args.push(String::from_str("--"));
    args.push(String::from_str(input));
    args.push(String::from_str(output));
    assert(views(args@) =~= encrypt_args(input@, output@, user_password@, owner_password@));
    call(host, args)
}

/// Reads how an encryption ended. The tool's exit code is not passed on,
/// and neither password is: a failure gets one fixed message.
pub fn encrypt_status(status: ExitStatus) -> (r: Result<(), String>)
    ensures
        agrees(
            r,
            if status.success {
                Ok(())
            } else {
                Err("Failed to encrypt PDF."@)
            },
        ),
{
    if status.success {
        Ok(())
    } else {
        Err(String::from_str("Failed to encrypt PDF."))
    }
}

/// The arguments of a decryption: the password, the input and the output.
pub open spec fn decrypt_args(input: Seq<char>, output: Seq<char>, password: Seq<char>) -> Seq<
    Seq<char>,
> {
    seq!["--decrypt"@, "--password="@ + password, input, output]
}

/// The command line that decrypts `input` into `output`.
pub fn decrypt(host: &Host, input: &str, output: &str, password: &str) -> (r: Result<
    Invocation,
    String,
>)
    ensures
        agrees(r, qpdf_call(*host, decrypt_args(input@, output@, password@))),
{
    let mut args: Vec<String> = Vec::new();
    args.push(String::from_str("--decrypt"));
    args.push(concat2("--password=", password));
    args.push(String::from_str(input));
    args.push(String::from_str(output));
    assert(views(args@) =~= decrypt_args(input@, output@, password@));
    call(host, args)
}

/// Reads how a decryption ended. The tool's exit code is not passed on: a
/// failure most often means a wrong password, and the message says so.
pub fn decrypt_status(status: ExitStatus) -> (r: Result<(), String>)
    ensures
        agrees(
            r,
            if status.success {
                Ok(())
            } else {
                Err("Failed to decrypt PDF. Check if the password is correct."@)
            },
        ),
{
    if status.success {
        Ok(())
    } else {
        Err(String::from_str("Failed to decrypt PDF. Check if the password is correct."))
    }
}

/// The arguments of an optimization: linearize, compress streams and
/// generate object streams.
pub open spec fn optimize_args(input: Seq<char>, output: Seq<char>) -> Seq<Seq<char>> {
    seq![
        "--linearize"@,
        "--compress-streams=y"@,
        "--object-streams=generate"@,
        input,
        output,
    ]
}

/// The command line that optimizes `input` into `output`.
pub fn optimize(host: &Host, input: &str, output: &str) -> (r: Result<Invocation, String>)
    ensures
        agrees(r, qpdf_call(*host, optimize_args(input@, output@))),
{
    let mut args: Vec<String> = Vec::new();
    args.push(String::from_str("--linearize"));
    args.push(String::from_str("--compress-streams=y"));
    args.push(String::from_str("--object-streams=generate"));
    args.push(String::from_str(input));
    args.push(String::from_str(output));
    assert(views(args@) =~= optimize_args(input@, output@));
    call(host, args)
}

/// Reads how an optimization ended. The tool's exit code is not passed
/// on: a failure gets one fixed message.
pub fn optimize_status(status: ExitStatus) -> (r: Result<(), String>)
    ensures
        agrees(
            r,
            if status.success {
                Ok(())
            } else {
                Err("Failed to optimize PDF."@)
            },
        ),
{
    if status.success {
        Ok(())
    } else {
        Err(String::from_str("Failed to optimize PDF."))
    }
}

/// The command line that asks whether `input` is encrypted.
pub fn is_encrypted(host: &Host, input: &str) -> (r: Result<Invocation, String>)
    ensures
        agrees(r, qpdf_call(*host, seq!["--is-encrypted"@, input@])),
{
    let mut args: Vec<String> = Vec::new();
    args.push(String::from_str("--is-encrypted"));
    args.push(String::from_str(input));
    assert(views(args@) =~= seq!["--is-encrypted"@, input@]);
    call(host, args)
}

/// Reads the answer to the encryption query: the tool exits with code 0
/// for an encrypted file and with another code, or none, otherwise.
pub fn read_is_encrypted(status: ExitStatus) -> (encrypted: bool)
    ensures
        encrypted == (status.code == Some(0i32)),
{
    match status.code {
        Some(c) => c == 0,
        None => false,
    }
}

} // verus!
