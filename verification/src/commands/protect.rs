//! Password protection: adding a password to a PDF and taking it off.

use vstd::prelude::*;
use vstd::string::*;
use crate::commands::utils::{choose_output, chosen_output, pdf_check, validate_pdf};
use crate::locate::Host;
use crate::paths::path_extension;
use crate::process::{agrees, opt_view, result_view, Invocation, InvocationView};
use crate::qpdf::{decrypt, decrypt_args, encrypt, encrypt_args, qpdf_call};

verus! {

/// An operation on one file that is ready to run: where its result goes,
/// and the command line that makes it.
#[derive(Debug, Clone, PartialEq, Eq)]
pub struct FileJob {
    pub output_path: String,
    pub invocation: Invocation,
}

/// The mathematical content of a [`FileJob`].
pub struct FileJobView {
    pub output_path: Seq<char>,
    pub invocation: InvocationView,
}

impl View for FileJob {
    type V = FileJobView;

    open spec fn view(&self) -> FileJobView {
        FileJobView { output_path: self.output_path@, invocation: self.invocation@ }
    }
}

/// The owner password in force: the one given, or the user password.
pub open spec fn owner_or_user(owner_password: Option<Seq<char>>, user_password: Seq<char>) -> Seq<
    char,
> {
    match owner_password {
        Some(p) => p,
        None => user_password,
    }
}

/// What a request for protection comes to, given what the validation of
/// the input said and where the result is to go. In this order: the input
/// must have passed; the user password must not be empty; the tool must be
/// there. Then the job encrypts to `output`.
pub open spec fn protect_decision(
    host: Host,
    input_path: Seq<char>,
    validation: Result<(), Seq<char>>,
    output: Seq<char>,
    user_password: Seq<char>,
    owner_password: Option<Seq<char>>,
) -> Result<FileJobView, Seq<char>> {
    match validation {
        Err(e) => Err(e),
        Ok(_) => if user_password.len() == 0 {
            Err("Password cannot be empty"@)
        } else {
            match qpdf_call(
                host,
                encrypt_args(
                    input_path,
                    output,
                    user_password,
                    owner_or_user(owner_password, user_password),
                ),
            ) {
                Err(e) => Err(e),
                Ok(invocation) => Ok(FileJobView { output_path: output, invocation }),
            }
        },
    }
}

/// Decides on a protection from what the validation of the input said and
/// from the place for the result.
pub fn protect_job(
    host: &Host,
    input_path: &str,
    validation: Result<(), String>,
    output: String,
    user_password: &str,
    owner_password: Option<String>,
) -> (r: Result<FileJob, String>)
    ensures
        agrees(
            r,
            protect_decision(
                *host,
                input_path@,
                result_view(validation),
                output@,
                user_password@,
                opt_view(owner_password),
            ),
        ),
        user_password@.len() == 0 ==> r is Err,
{
    match validation {
        Err(e) => {
            return Err(e);
        },
        Ok(_) => {},
    }
    if user_password.unicode_len() == 0 {
        return Err(String::from_str("Password cannot be empty"));
    }
    let owner = match owner_password {
        Some(p) => p,
        None => String::from_str(user_password),
    };
    match encrypt(host, input_path, output.as_str(), user_password, owner.as_str()) {
        Ok(invocation) => Ok(FileJob { output_path: output, invocation }),
        Err(e) => Err(e),
    }
}

/// What a request for protection comes to: the decision taken on the
/// validation of the input path and on the output asked for or, where none
/// is asked for, derived with the suffix `-protected`.
pub open spec fn protect_request(
    host: Host,
    input_path: Seq<char>,
    input_exists: bool,
    output_path: Option<Seq<char>>,
    user_password: Seq<char>,
    owner_password: Option<Seq<char>>,
) -> Result<FileJobView, Seq<char>> {
    protect_decision(
        host,
        input_path,
        pdf_check(input_path, input_exists, path_extension(input_path)),
        chosen_output(output_path, input_path, "-protected"@),
        user_password,
        owner_password,
    )
}

/// Prepares the protection of `input_path` with `user_password`;
/// `input_exists` says whether the file is there. Nothing is to be run
/// unless the result is `Ok`.
pub fn protect_pdf(
    host: &Host,
    input_path: &str,
    input_exists: bool,
    output_path: Option<String>,
    user_password: &str,
    owner_password: Option<String>,
) -> (r: Result<FileJob, String>)
    ensures
        agrees(
            r,
            protect_request(
                *host,
                input_path@,
                input_exists,
                opt_view(output_path),
                user_password@,
                opt_view(owner_password),
            ),
        ),
        user_password@.len() == 0 ==> r is Err,
{
    let validation = validate_pdf(input_path, input_exists);
    let output = choose_output(output_path, input_path, "-protected");
    protect_job(host, input_path, validation, output, user_password, owner_password)
}

/// What a request to remove protection comes to, given what the
/// validation of the input said and where the result is to go. In this
/// order: the input must have passed; the tool must be there. Then the job
/// decrypts to `output` with the password as given, empty or not.
pub open spec fn unlock_decision(
    host: Host,
    input_path: Seq<char>,
    validation: Result<(), Seq<char>>,
    output: Seq<char>,
    password: Seq<char>,
) -> Result<FileJobView, Seq<char>> {
    match validation {
        Err(e) => Err(e),
        Ok(_) => match qpdf_call(host, decrypt_args(input_path, output, password)) {
            Err(e) => Err(e),
            Ok(invocation) => Ok(FileJobView { output_path: output, invocation }),
        },
    }
}

/// Decides on the removal of a protection from what the validation of the
/// input said and from the place for the result.
pub fn unlock_job(
    host: &Host,
    input_path: &str,
    validation: Result<(), String>,
    output: String,
    password: &str,
) -> (r: Result<FileJob, String>)
    ensures
        agrees(
            r,
            unlock_decision(*host, input_path@, result_view(validation), output@, password@),
        ),
{
    match validation {
        Err(e) => {
            return Err(e);
        },
        Ok(_) => {},
    }
    match decrypt(host, input_path, output.as_str(), password) {
        Ok(invocation) => Ok(FileJob { output_path: output, invocation }),
        Err(e) => Err(e),
    }
}

/// What a request to remove protection comes to: the decision taken on
/// the validation of the input path and on the output asked for or, where
/// none is asked for, derived with the suffix `-unlocked`.
pub open spec fn unlock_request(
    host: Host,
    input_path: Seq<char>,
    input_exists: bool,
    output_path: Option<Seq<char>>,
    password: Seq<char>,
) -> Result<FileJobView, Seq<char>> {
    unlock_decision(
        host,
        input_path,
        pdf_check(input_path, input_exists, path_extension(input_path)),
        chosen_output(output_path, input_path, "-unlocked"@),
        password,
    )
}

/// Prepares the removal of the protection of `input_path`; `input_exists`
/// says whether the file is there. Nothing is to be run unless the result
/// is `Ok`.
pub fn unlock_pdf(
    host: &Host,
    input_path: &str,
    input_exists: bool,
    output_path: Option<String>,
    password: &str,
) -> (r: Result<FileJob, String>)
    ensures
        agrees(
            r,
            unlock_request(*host, input_path@, input_exists, opt_view(output_path), password@),
        ),
{
    let validation = validate_pdf(input_path, input_exists);
    let output = choose_output(output_path, input_path, "-unlocked");
    unlock_job(host, input_path, validation, output, password)
}

/// Says where the security tool is, for display.
pub fn check_qpdf(host: &Host) -> (r: Result<String, String>)
    ensures
        agrees(
            r,
            match opt_view(host.qpdf) {
                Some(p) => Ok(p),
                None => Err(
                    "qpdf not found. Please install qpdf for password protection features."@,
                ),
            },
        ),
{
    match &host.qpdf {
        Some(p) => Ok(p.clone()),
        None => Err(
            String::from_str(
                "qpdf not found. Please install qpdf for password protection features.",
            ),
        ),
    }
}

} // verus!
