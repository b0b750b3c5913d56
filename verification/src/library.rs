//! The marshaling and status-interpretation discipline of the native
//! binding.
//!
//! The binding exposes a fixed set of native entry points - registration
//! check, register, unregister, configure, query-configuration,
//! interactive launch, and redirected launch. Every operation follows one
//! discipline: validate the caller's strings and fail fast on an embedded
//! terminator before anything reaches the native layer, marshal text to
//! NUL-terminated UTF-16, invoke the entry point, and translate a failure
//! status into an error that names the operation, its key arguments, and
//! the raw status. The `plan_` functions here perform the validation and
//! marshaling; the `finish_` functions interpret what the entry point
//! returned. The platform layer between them only resolves and calls the
//! native function pointers.

use vstd::prelude::*;

use crate::configuration::Configuration;
use crate::configuration::EnvironmentVariables;
use crate::error::hresult_failed;
use crate::error::succeeded;
use crate::error::Error;
use crate::error::E_INVALIDARG;
use crate::flags::WSL_DISTRIBUTION_FLAGS;
use crate::process::Process;
use crate::render::hex_fixed_chars;
use crate::render::push_char;
use crate::render::u32_to_hex8;
use crate::stdio::Stdio;
use crate::wide::contains_zero_unit;
use crate::wide::encode_wide;
use crate::wide::has_nul;
use crate::wide::lemma_encode_zero_iff_nul;
use crate::wide::terminate;
use crate::wide::wide_nul;

verus! {

/// A piece of text wrapped in double quotes, as arguments appear in
/// diagnostic messages.
pub open spec fn quoted(s: Seq<char>) -> Seq<char> {
    seq!['"'] + s + seq!['"']
}

/// The rendering of a boolean argument in diagnostic messages.
pub open spec fn bool_chars(b: bool) -> Seq<char> {
    if b {
        "true"@
    } else {
        "false"@
    }
}

/// The diagnostic message for an argument with an embedded terminator:
/// the operation, its arguments, and which argument was rejected.
pub open spec fn invalid_name_message(op: Seq<char>, args: Seq<char>, which: Seq<char>) -> Seq<char> {
    op + "("@ + args + ") failed: "@ + which + " contained a NUL character"@
}

/// The diagnostic message for a native entry point that reported failure:
/// the operation with its arguments, and the raw status.
pub open spec fn status_message(op_desc: Seq<char>, hr: u32) -> Seq<char> {
    op_desc + " failed with HRESULT 0x"@ + hex_fixed_chars(hr as nat, 8)
}

/// The diagnostic message for a stream that could not be converted for a
/// launch: the operation, which stream failed, and the underlying reason.
pub open spec fn conversion_message(op_desc: Seq<char>, which: Seq<char>, detail: Seq<char>) -> Seq<char> {
    op_desc + " failed: failed to convert "@ + which + ": "@ + detail
}

/// The argument list of a register operation as it appears in messages.
pub open spec fn register_args(name: Seq<char>, path: Seq<char>) -> Seq<char> {
    quoted(name) + ", "@ + quoted(path)
}

/// The argument list of a launch operation as it appears in messages.
pub open spec fn command_args(name: Seq<char>, command: Seq<char>, use_cwd: bool) -> Seq<char> {
    quoted(name) + ", "@ + quoted(command) + ", "@ + bool_chars(use_cwd)
}

/// Appends `text` wrapped in double quotes.
fn append_quoted(s: &mut String, text: &str)
    ensures
        final(s)@ == old(s)@ + quoted(text@),
{
    push_char(s, '"');
    s.append(text);
    push_char(s, '"');
    proof {
        assert(s@ =~= old(s)@ + quoted(text@));
    }
}

/// Appends the rendering of a boolean argument.
fn append_bool(s: &mut String, b: bool)
    ensures
        final(s)@ == old(s)@ + bool_chars(b),
{
    if b {
        s.append("true");
    } else {
        s.append("false");
    }
}

/// Builds the error for an argument with an embedded terminator.
fn invalid_name_error(op: &str, args: String, which: &str) -> (e: Error)
    ensures
        e.spec_hresult() == E_INVALIDARG,
        e.spec_message() == invalid_name_message(op@, args@, which@),
{
    let mut m = String::from_str(op);
    m.append("(");
    m.append(args.as_str());
    m.append(") failed: ");
    m.append(which);
    m.append(" contained a NUL character");
    proof {
        assert(m@ =~= invalid_name_message(op@, args@, which@));
    }
    Error::new(E_INVALIDARG, m)
}

/// Encodes a string for the native boundary: the terminated wide form when
/// it is clean, or nothing when it holds an embedded terminator.
fn encode_checked(s: &str) -> (r: Option<Vec<u16>>)
    ensures
        r is Some <==> !has_nul(s@),
        r matches Some(w) ==> w@ == wide_nul(s@),
{
    let w = encode_wide(s);
    let dirty = contains_zero_unit(&w);
    proof {
        lemma_encode_zero_iff_nul(s@);
    }
    if dirty {
        None
    } else {
        Some(terminate(w))
    }
}

/// Validates and marshals the distribution name of a registration check.
/// A name with an embedded terminator yields nothing - the check reports
/// `false` without any native call.
pub fn plan_is_distribution_registered(distribution_name: &str) -> (r: Option<Vec<u16>>)
    ensures
        r is Some <==> !has_nul(distribution_name@),
        r matches Some(w) ==> w@ == wide_nul(distribution_name@),
{
    encode_checked(distribution_name)
}

/// Interprets the native `BOOL` of a registration check.
pub fn bool_from_native(returned: i32) -> (b: bool)
    ensures
        b == (returned != 0),
{
    returned != 0
}

/// Validates and marshals a distribution name for an operation that takes
/// only the name (unregister, configure, query-configuration): the
/// terminated wide form, or the invalid-argument error when the name holds
/// an embedded terminator.
pub fn plan_name_only(op: &str, distribution_name: &str) -> (r: Result<Vec<u16>, Error>)
    ensures
        r is Ok <==> !has_nul(distribution_name@),
        r matches Ok(w) ==> w@ == wide_nul(distribution_name@),
        r matches Err(e) ==> e.spec_hresult() == E_INVALIDARG
            && e.spec_message() == invalid_name_message(
                op@, quoted(distribution_name@), "distribution_name"@),
{
    match encode_checked(distribution_name) {
        Some(w) => Ok(w),
        None => {
            let mut args = String::new();
            append_quoted(&mut args, distribution_name);
            proof {
                assert(args@ =~= quoted(distribution_name@));
            }
            Err(invalid_name_error(op, args, "distribution_name"))
        }
    }
}

/// Validates and marshals the arguments of a register operation: the
/// terminated wide forms of the name and the archive path, or the
/// invalid-argument error naming whichever argument holds an embedded
/// terminator (the name is checked first).
pub fn plan_register_distribution(distribution_name: &str, tar_gz_filename: &str) -> (r: Result<
    (Vec<u16>, Vec<u16>),
    Error,
>)
    ensures
        r is Ok <==> !has_nul(distribution_name@) && !has_nul(tar_gz_filename@),
        r matches Ok(p) ==> p.0@ == wide_nul(distribution_name@)
            && p.1@ == wide_nul(tar_gz_filename@),
        r matches Err(e) ==> e.spec_hresult() == E_INVALIDARG
            && e.spec_message() == invalid_name_message(
                "register_distribution"@,
                register_args(distribution_name@, tar_gz_filename@),
                if has_nul(distribution_name@) {
                    "distribution_name"@
                } else {
                    "tar_gz_filename"@
                },
            ),
{
    let wname = encode_checked(distribution_name);
    let wpath = encode_checked(tar_gz_filename);
    match (wname, wpath) {
        (Some(n), Some(p)) => Ok((n, p)),
        (n, _) => {
            let mut args = String::new();
            append_quoted(&mut args, distribution_name);
            args.append(", ");
            append_quoted(&mut args, tar_gz_filename);
            proof {
                assert(args@ =~= register_args(distribution_name@, tar_gz_filename@));
            }
            let which = if n.is_none() {
                "distribution_name"
            } else {
                "tar_gz_filename"
            };
            Err(invalid_name_error("register_distribution", args, which))
        }
    }
}

/// The marshaled arguments of a launch: the terminated wide forms of the
/// distribution name and the command, and whether the command was empty
/// (an interactive launch passes no command text at all then, so the
/// default shell runs).
#[derive(Debug)]
pub struct CommandPlan {
    /// The distribution name, terminated, in wide form.
    pub name_wide: Vec<u16>,
    /// The command, terminated, in wide form.
    pub command_wide: Vec<u16>,
    /// Whether the command was the empty string.
    pub command_empty: bool,
}

/// Validates and marshals the arguments of a launch operation (interactive
/// or redirected): the wide forms, or the invalid-argument error naming
/// whichever argument holds an embedded terminator (the name is checked
/// first).
pub fn plan_command(
    op: &str,
    distribution_name: &str,
    command: &str,
    use_current_working_directory: bool,
) -> (r: Result<CommandPlan, Error>)
    ensures
        r is Ok <==> !has_nul(distribution_name@) && !has_nul(command@),
        r matches Ok(p) ==> p.name_wide@ == wide_nul(distribution_name@)
            && p.command_wide@ == wide_nul(command@)
            && p.command_empty == (command@.len() == 0),
        r matches Err(e) ==> e.spec_hresult() == E_INVALIDARG
            && e.spec_message() == invalid_name_message(
                op@,
                command_args(distribution_name@, command@, use_current_working_directory),
                if has_nul(distribution_name@) {
                    "distribution_name"@
                } else {
                    "command"@
                },
            ),
{
    let wname = encode_checked(distribution_name);
    let wcmd = encode_checked(command);
    match (wname, wcmd) {
        (Some(n), Some(c)) => {
            let empty = command.unicode_len() == 0;
            Ok(CommandPlan { name_wide: n, command_wide: c, command_empty: empty })
        }
        (n, _) => {
            let mut args = String::new();
            append_quoted(&mut args, distribution_name);
            args.append(", ");
            append_quoted(&mut args, command);
            args.append(", ");
            append_bool(&mut args, use_current_working_directory);
            proof {
                assert(args@ =~= command_args(
                    distribution_name@,
                    command@,
                    use_current_working_directory,
                ));
            }
            let which = if n.is_none() {
                "distribution_name"
            } else {
                "command"
            };
            Err(invalid_name_error(op, args, which))
        }
    }
}

/// Builds the error for a native entry point that reported failure.
fn status_error(op_desc: &str, hr: u32) -> (e: Error)
    ensures
        e.spec_hresult() == hr,
        e.spec_message() == status_message(op_desc@, hr),
{
    let mut m = String::from_str(op_desc);
    m.append(" failed with HRESULT 0x");
    let h = u32_to_hex8(hr);
    m.append(h.as_str());
    proof {
        assert(m@ =~= status_message(op_desc@, hr));
    }
    Error::new(hr, m)
}

/// Interprets the status of an operation that returns nothing else
/// (register, unregister, configure): success, or the error wrapping the
/// status under the given operation description.
pub fn finish_status(op_desc: &str, hr: u32) -> (r: Result<(), Error>)
    ensures
        r is Ok <==> !hresult_failed(hr),
        r matches Err(e) ==> e.spec_hresult() == hr && e.spec_message() == status_message(
            op_desc@,
            hr,
        ),
{
    if succeeded(hr) {
        Ok(())
    } else {
        Err(status_error(op_desc, hr))
    }
}

/// Builds the error for a stream that could not be converted for a launch,
/// naming which of the three streams failed.
pub fn stream_conversion_error(op_desc: &str, which: &str, detail: &str) -> (e: Error)
    ensures
        e.spec_hresult() == E_INVALIDARG,
        e.spec_message() == conversion_message(op_desc@, which@, detail@),
{
    let mut m = String::from_str(op_desc);
    m.append(" failed: failed to convert ");
    m.append(which);
    m.append(": ");
    m.append(detail);
    proof {
        assert(m@ =~= conversion_message(op_desc@, which@, detail@));
    }
    Error::new(E_INVALIDARG, m)
}

/// Interprets the outcome of an interactive launch: the exit code the
/// native call reported on success, or the error wrapping the status.
pub fn finish_launch_interactive(op_desc: &str, hr: u32, exit_code: u32) -> (r: Result<u32, Error>)
    ensures
        r is Ok <==> !hresult_failed(hr),
        r matches Ok(c) ==> c == exit_code,
        r matches Err(e) ==> e.spec_hresult() == hr && e.spec_message() == status_message(
            op_desc@,
            hr,
        ),
{
    if succeeded(hr) {
        Ok(exit_code)
    } else {
        Err(status_error(op_desc, hr))
    }
}

/// Interprets the outcome of a redirected launch: on success, ownership of
/// the process handle and the three streams moves into a new [`Process`];
/// on failure, the streams are released and the error wraps the status.
pub fn finish_launch(
    op_desc: &str,
    hr: u32,
    handle: u64,
    stdin: Stdio,
    stdout: Stdio,
    stderr: Stdio,
) -> (r: Result<Process, Error>)
    ensures
        r is Ok <==> !hresult_failed(hr),
        r matches Ok(p) ==> p.spec_handle() == handle && p.spec_stdin() == stdin
            && p.spec_stdout() == stdout && p.spec_stderr() == stderr,
        r matches Err(e) ==> e.spec_hresult() == hr && e.spec_message() == status_message(
            op_desc@,
            hr,
        ),
{
    if succeeded(hr) {
        Ok(Process::assemble(handle, stdin, stdout, stderr))
    } else {
        Err(status_error(op_desc, hr))
    }
}

/// Interprets the outcome of a configuration query. The environment
/// variables are taken over in every case, matching the native allocation
/// contract - whatever the native call allocated must be owned and freed;
/// on failure they are released here and the error wraps the status.
pub fn finish_configuration(
    op_desc: &str,
    hr: u32,
    version: u32,
    default_uid: u32,
    flag_bits: u32,
    default_environment_variables: EnvironmentVariables,
) -> (r: Result<Configuration, Error>)
    ensures
        r is Ok <==> !hresult_failed(hr),
        r matches Ok(c) ==> c.version == version && c.default_uid == default_uid
            && c.flags.0 == flag_bits
            && c.default_environment_variables.entries_model()
                == default_environment_variables.entries_model(),
        r matches Err(e) ==> e.spec_hresult() == hr && e.spec_message() == status_message(
            op_desc@,
            hr,
        ),
{
    if succeeded(hr) {
        Ok(Configuration {
            version,
            default_uid,
            flags: WSL_DISTRIBUTION_FLAGS(flag_bits),
            default_environment_variables,
        })
    } else {
        Err(status_error(op_desc, hr))
    }
}

} // verus!
