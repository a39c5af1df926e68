//! Interpreting the output of a credential tool run in a platform shell.
//!
//! The surrounding glue runs `/bin/sh -c "cd {workdir} && {command}"` and
//! observes what happened; everything that is decided about that
//! observation — which message describes a failure, when the tool itself is
//! considered missing, and when the token is deserialized — lives here,
//! with exact contracts.

use vstd::prelude::*;
use vstd::string::{StrSliceExecFns, StringExecFns};

use crate::error::{Error, ErrorKind};

verus! {

/// An access token as the logic reads it: the token text and its expiry in
/// seconds since the Unix epoch.
#[derive(Debug, Clone)]
pub struct AccessToken {
    /// The token text.
    pub token: String,
    /// Expiry instant, in seconds since the Unix epoch.
    pub expires_on: i64,
}

/// Processes the output of a credential tool. Implementers supply the
/// tool-specific pieces: how to read a token from stdout and how to turn
/// stderr into a friendlier message.
pub trait OutputProcessor {
    /// The credential name to include in error messages.
    fn credential_name() -> String;

    /// Deserializes an access token from what the tool wrote to stdout.
    fn deserialize_token(stdout: &str) -> Result<AccessToken, Error>;

    /// Optionally converts stderr to a user-friendly error message. When
    /// this returns `None`, the error message will include stderr verbatim.
    fn get_error_message(stderr: &str) -> Option<String>;

    /// Name of the tool used to get the token.
    fn tool_name() -> String;
}

/// What running the shell command produced, as the logic reads it.
#[derive(Debug)]
pub enum ExecOutcome {
    /// The process ran to completion, successfully or not, with the given
    /// exit code and captured output.
    Exited { success: bool, code: Option<i32>, stdout: String, stderr: String },
    /// The shell program could not be launched because it was not found.
    LaunchNotFound,
    /// The shell program could not be launched for another reason; `kind`
    /// names the failure class and `detail` describes it.
    LaunchFailed { kind: String, detail: String },
}

/// Whether `needle` occurs contiguously inside `hay`.
pub open spec fn is_substring(hay: Seq<char>, needle: Seq<char>) -> bool {
    exists|k: int|
        0 <= k <= hay.len() - needle.len() && #[trigger] hay.subrange(k, k + needle.len() as int)
            == needle
}

/// Decides whether `needle` occurs contiguously inside `hay`.
pub fn str_contains(hay: &str, needle: &str) -> (b: bool)
    ensures
        b == is_substring(hay@, needle@),
{
    let h = hay.unicode_len();
    let n = needle.unicode_len();
    if n > h {
        return false;
    }
    let mut k: usize = 0;
    while k <= h - n
        invariant
            n <= h,
            h == hay@.len(),
            n == needle@.len(),
            k <= h - n + 1,
            forall|j: int| 0 <= j < k ==> #[trigger] hay@.subrange(j, j + n as int) != needle@,
        decreases h - n + 1 - k,
    {
        let mut m: usize = 0;
        let mut matched = true;
        while m < n
            invariant
                m <= n,
                n <= h,
                k <= h - n,
                h == hay@.len(),
                n == needle@.len(),
                matched <==> (forall|t: int| 0 <= t < m ==> hay@[k + t] == needle@[t]),
            decreases n - m,
        {
            if hay.get_char(k + m) != needle.get_char(m) {
                matched = false;
            }
            m += 1;
        }
        if matched {
            proof {
                assert(hay@.subrange(k as int, k + n as int) =~= needle@);
            }
            return true;
        }
        proof {
            let t = choose|t: int| 0 <= t < n && hay@[k + t] != needle@[t];
            assert(hay@.subrange(k as int, k + n as int)[t] == hay@[k + t]);
        }
        k += 1;
    }
    proof {
        assert forall|j: int| 0 <= j <= h - n implies #[trigger] hay@.subrange(j, j + n as int)
            != needle@ by {
            assert(j < k);
        }
    }
    false
}

/// The shell complaint that a command's program is not a recognized name.
pub open spec fn not_recognized_text() -> Seq<char> {
    "' is not recognized"@
}

/// The error message chosen for a tool that ran but failed: a message
/// supplied by the processor wins; otherwise exit code 127 or a shell
/// complaint that the command is not recognized means the tool itself is
/// missing from the search path; otherwise stderr is reported verbatim.
pub open spec fn spec_failure_text(
    tool: Seq<char>,
    custom: Option<Seq<char>>,
    code: Option<i32>,
    stderr: Seq<char>,
) -> Seq<char> {
    match custom {
        Some(m) => m,
        None => if code == Some(127i32) || is_substring(stderr, not_recognized_text()) {
            tool + " not found on PATH"@
        } else {
            stderr
        },
    }
}

/// The full message of a failed authentication attempt.
pub open spec fn spec_auth_failed_message(credential: Seq<char>, text: Seq<char>) -> Seq<char> {
    credential + " authentication failed: "@ + text
}

/// Builds the error reported when the tool ran but exited unsuccessfully.
pub fn failure_error(
    credential_name: &str,
    tool_name: &str,
    custom_message: Option<String>,
    code: Option<i32>,
    stderr: &str,
) -> (r: Error)
    ensures
        r.spec_kind() == ErrorKind::Credential,
        r.spec_message() == spec_auth_failed_message(
            credential_name@,
            spec_failure_text(
                tool_name@,
                (match custom_message {
                    Some(m) => Some(m@),
                    None => None,
                }),
                code,
                stderr@,
            ),
        ),
{
    let text: String = match custom_message {
        Some(m) => m,
        None => {
            let code_is_127 = match code {
                Some(c) => c == 127,
                None => false,
            };
            if code_is_127 || str_contains(stderr, "' is not recognized") {
                let mut t = String::from_str(tool_name);
                t.append(" not found on PATH");
                t
            } else {
                String::from_str(stderr)
            }
        },
    };
    let mut message = String::from_str(credential_name);
    message.append(" authentication failed: ");
    message.append(text.as_str());
    Error::new(ErrorKind::Credential, message)
}

/// The full message reported when the shell program itself was not found.
pub open spec fn spec_program_missing_message(
    credential: Seq<char>,
    program: Seq<char>,
) -> Seq<char> {
    credential + " authentication failed: \""@ + program + "\" wasn't found on PATH"@
}

/// Builds the error reported when the shell program could not be launched
/// because it was not found; the program name appears quoted.
pub fn launch_not_found_error(credential_name: &str, program: &str) -> (r: Error)
    ensures
        r.spec_kind() == ErrorKind::Credential,
        r.spec_message() == spec_program_missing_message(credential_name@, program@),
{
    let mut message = String::from_str(credential_name);
    message.append(" authentication failed: \"");
    message.append(program);
    message.append("\" wasn't found on PATH");
    Error::new(ErrorKind::Credential, message)
}

/// The full message reported when launching the shell failed for another
/// reason.
pub open spec fn spec_launch_failed_message(
    credential: Seq<char>,
    kind: Seq<char>,
    detail: Seq<char>,
) -> Seq<char> {
    credential + " failed due to "@ + kind + " error: "@ + detail
}

/// Builds the error reported when launching the shell failed for a reason
/// other than the program missing.
pub fn launch_failed_error(credential_name: &str, kind: &str, detail: &str) -> (r: Error)
    ensures
        r.spec_kind() == ErrorKind::Credential,
        r.spec_message() == spec_launch_failed_message(credential_name@, kind@, detail@),
{
    let mut message = String::from_str(credential_name);
    message.append(" failed due to ");
    message.append(kind);
    message.append(" error: ");
    message.append(detail);
    Error::new(ErrorKind::Credential, message)
}

/// The command line handed to the shell: enter the working directory, then
/// run the command.
pub open spec fn spec_shell_command_line(workdir: Seq<char>, command: Seq<char>) -> Seq<char> {
    "cd "@ + workdir + " && "@ + command
}

/// Builds the command line handed to the shell.
pub fn shell_command_line(workdir: &str, command: &str) -> (r: String)
    ensures
        r@ == spec_shell_command_line(workdir@, command@),
{
    let mut line = String::from_str("cd ");
    line.append(workdir);
    line.append(" && ");
    line.append(command);
    line
}

/// Interprets what running the credential tool produced.
///
/// On a successful exit the processor deserializes the token from stdout
/// and its result is returned as is. Every failure is reported as a
/// credential error; the exact message of each failure class is pinned by
/// [`failure_error`], [`launch_not_found_error`] and
/// [`launch_failed_error`], which this function applies to the processor's
/// answers.
pub fn interpret_exec_outcome<T: OutputProcessor>(program: &str, outcome: ExecOutcome) -> (r:
    Result<AccessToken, Error>)
    ensures
        (match outcome {
            ExecOutcome::Exited { success, .. } => !success ==> (r matches Err(e)
                && e.spec_kind() == ErrorKind::Credential),
            ExecOutcome::LaunchNotFound => r matches Err(e) && e.spec_kind()
                == ErrorKind::Credential,
            ExecOutcome::LaunchFailed { .. } => r matches Err(e) && e.spec_kind()
                == ErrorKind::Credential,
        }),
{
    match outcome {
        ExecOutcome::Exited { success, code, stdout, stderr } => {
            if success {
                T::deserialize_token(stdout.as_str())
            } else {
                let custom = T::get_error_message(stderr.as_str());
                let credential = T::credential_name();
                let tool = T::tool_name();
                Err(
                    failure_error(
                        credential.as_str(),
                        tool.as_str(),
                        custom,
                        code,
                        stderr.as_str(),
                    ),
                )
            }
        },
        ExecOutcome::LaunchNotFound => {
            let credential = T::credential_name();
            Err(launch_not_found_error(credential.as_str(), program))
        },
        ExecOutcome::LaunchFailed { kind, detail } => {
            let credential = T::credential_name();
            Err(launch_failed_error(credential.as_str(), kind.as_str(), detail.as_str()))
        },
    }
}

} // verus!
