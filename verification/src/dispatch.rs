//! The dispatcher: top-level token handling and the translation of
//! sub-parser outcomes into the process-level result.
//!
//! Each command's handler feeds the remaining tokens to a dedicated
//! sub-parser (which offers nothing beyond the built-in help flag) and,
//! only on a clean parse, asks for the matching device operation. The
//! device work itself is a collaborator outside this crate: a handler
//! reports which operation is to be performed, and its caller runs it
//! and propagates that operation's own result unchanged.

use vstd::prelude::*;

verus! {

use crate::command::Command;
use crate::command::spec_invocation;
use crate::command::spec_parse;

/// The operations the device collaborator offers.
#[derive(Clone, Copy, Debug, PartialEq, Eq, Structural)]
pub enum DeviceOp {
    QueryStatus,
    OpenVolume,
    CloseVolume,
    ClearCachedPassphrase,
}

/// The tri-state outcome of running a sub-parser.
#[derive(Clone, Copy, Debug, PartialEq, Eq, Structural)]
pub enum ParseOutcome {
    /// The arguments parsed cleanly; the command's real work may proceed.
    Parsed,
    /// Help text was printed; the invocation is complete and successful.
    HelpShown,
    /// The arguments were rejected.
    Failed,
}

/// An error surfaced by the dispatch layer.
#[derive(Clone, Copy, Debug, PartialEq, Eq, Structural)]
pub enum Error {
    /// The uniform argument-parsing failure: a sub-parser rejected the
    /// arguments, for whatever underlying reason.
    ArgparseError,
}

/// What a successfully dispatched command asks of its caller.
#[derive(Clone, Copy, Debug, PartialEq, Eq, Structural)]
pub enum Effect {
    /// Run this device operation and propagate its result unchanged.
    Device(DeviceOp),
    /// Help text has already been shown; there is nothing left to do.
    Help,
}

/// The device operation each command routes to.
pub open spec fn spec_device_op(c: Command) -> DeviceOp {
    match c {
        Command::Clear => DeviceOp::ClearCachedPassphrase,
        Command::Close => DeviceOp::CloseVolume,
        Command::Open => DeviceOp::OpenVolume,
        Command::Status => DeviceOp::QueryStatus,
    }
}

/// The tri-state reading of a sub-parser's return code.
pub open spec fn spec_classify(code: Result<(), i32>) -> ParseOutcome {
    match code {
        Ok(_) => ParseOutcome::Parsed,
        Err(e) => if e == 0 {
            ParseOutcome::HelpShown
        } else {
            ParseOutcome::Failed
        },
    }
}

/// The uniform translation of a sub-parser outcome: on a clean parse the
/// given device operation is requested, shown help is overall success,
/// and any other failure is the one generic argument-parsing error.
pub open spec fn spec_complete(outcome: ParseOutcome, op: DeviceOp) -> Result<Effect, Error> {
    match outcome {
        ParseOutcome::Parsed => Ok(Effect::Device(op)),
        ParseOutcome::HelpShown => Ok(Effect::Help),
        ParseOutcome::Failed => Err(Error::ArgparseError),
    }
}

/// What executing a command comes to, given its sub-parser's return code.
pub open spec fn spec_execute(c: Command, code: Result<(), i32>) -> Result<Effect, Error> {
    spec_complete(spec_classify(code), spec_device_op(c))
}

/// The return code of a sub-parser run over the given argument tokens.
pub uninterp spec fn sub_parse_code(args: Seq<Seq<char>>) -> Result<(), i32>;

/// Relies on argparse::ArgumentParser::parse: runs a parser that offers
/// no options beyond the built-in `-h`/`--help` flag over `args`, taking
/// `args[0]` as the program name and writing any help or usage text to
/// the standard streams. The returned code is a function of `args` alone
/// (the description only shapes the help text): Ok on a clean parse,
/// Err(0) after help was printed, and a nonzero Err code otherwise.
#[verifier::external_body]
fn run_sub_parser(description: &str, args: Vec<String>) -> (r: Result<(), i32>)
    ensures
        r == sub_parse_code(args.deep_view()),
{
    let mut parser = argparse::ArgumentParser::new();
    parser.set_description(description);
    parser.parse(args, &mut std::io::stdout(), &mut std::io::stderr())
}

/// Read a sub-parser's return code as the tri-state outcome: 0 is the
/// code a parser hands back after printing help.
pub fn classify(code: Result<(), i32>) -> (r: ParseOutcome)
    ensures
        r == spec_classify(code),
{
    match code {
        Ok(_) => ParseOutcome::Parsed,
        Err(e) => if e == 0 {
            ParseOutcome::HelpShown
        } else {
            ParseOutcome::Failed
        },
    }
}

/// The shared translation every handler applies to its sub-parser's
/// outcome, identically at every sub-parse site.
pub fn complete(outcome: ParseOutcome, op: DeviceOp) -> (r: Result<Effect, Error>)
    ensures
        r == spec_complete(outcome, op),
{
    match outcome {
        ParseOutcome::Parsed => Ok(Effect::Device(op)),
        ParseOutcome::HelpShown => Ok(Effect::Help),
        ParseOutcome::Failed => Err(Error::ArgparseError),
    }
}

/// Inquire the status of the nitrokey.
fn status(args: Vec<String>) -> (r: Result<Effect, Error>)
    ensures
        r == spec_execute(Command::Status, sub_parse_code(args.deep_view())),
{
    let code = run_sub_parser("Print the status of the connected Nitrokey Storage", args);
    complete(classify(code), DeviceOp::QueryStatus)
}

/// Open the encrypted volume on the nitrokey.
fn open(args: Vec<String>) -> (r: Result<Effect, Error>)
    ensures
        r == spec_execute(Command::Open, sub_parse_code(args.deep_view())),
{
    let code = run_sub_parser("Opens the encrypted volume on a Nitrokey Storage", args);
    complete(classify(code), DeviceOp::OpenVolume)
}

/// Close the previously opened encrypted volume.
fn close(args: Vec<String>) -> (r: Result<Effect, Error>)
    ensures
        r == spec_execute(Command::Close, sub_parse_code(args.deep_view())),
{
    let code = run_sub_parser("Closes the encrypted volume on a Nitrokey Storage", args);
    complete(classify(code), DeviceOp::CloseVolume)
}

/// Clear the PIN stored when opening the nitrokey's encrypted volume.
fn clear(args: Vec<String>) -> (r: Result<Effect, Error>)
    ensures
        r == spec_execute(Command::Clear, sub_parse_code(args.deep_view())),
{
    let code = run_sub_parser("Clears the cached passphrase", args);
    complete(classify(code), DeviceOp::ClearCachedPassphrase)
}

impl Command {
    /// Execute this command with the given arguments: run the command's
    /// sub-parser over them and translate its outcome, asking for this
    /// command's device operation exactly when the parse was clean.
    pub fn execute(&self, args: Vec<String>) -> (r: Result<Effect, Error>)
        ensures
            r == spec_execute(*self, sub_parse_code(args.deep_view())),
    {
        match *self {
            Command::Clear => clear(args),
            Command::Close => close(args),
            Command::Open => open(args),
            Command::Status => status(args),
        }
    }
}

/// Split the process-supplied tokens into the selected command and the
/// argument list for that command's sub-parser. The first token must be
/// a recognized command name; the tokens after it are kept verbatim,
/// behind a synthesized program-name token. A missing or unrecognized
/// command yields nothing, for the caller's own usage-and-exit path.
pub fn parse_arguments(tokens: Vec<String>) -> (r: Option<(Command, Vec<String>)>)
    ensures
        match r {
            Some(pair) => {
                &&& tokens@.len() > 0
                &&& spec_parse(tokens@[0]@) == Some(pair.0)
                &&& pair.1@.len() == tokens@.len()
                &&& pair.1@[0]@ == spec_invocation(pair.0)
                &&& forall|i: int| 1 <= i < tokens@.len() ==> pair.1@[i]@ == tokens@[i]@
            },
            None => tokens@.len() == 0 || spec_parse(tokens@[0]@) is None,
        },
{
    if tokens.len() == 0 {
        return None;
    }
    let command = match Command::parse(tokens[0].as_str()) {
        Some(c) => c,
        None => {
            return None;
        },
    };
    let mut args: Vec<String> = Vec::new();
    args.push(command.invocation());
    let mut i: usize = 1;
    while i < tokens.len()
        invariant
            1 <= i <= tokens@.len(),
            args@.len() == i,
            args@[0]@ == spec_invocation(command),
            forall|j: int| 1 <= j < i ==> args@[j]@ == tokens@[j]@,
        decreases tokens@.len() - i,
    {
        args.push(tokens[i].clone());
        i = i + 1;
    }
    Some((command, args))
}

} // verus!
