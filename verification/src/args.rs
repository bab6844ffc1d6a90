//! Parsing of the process's invocation arguments into a role. Unrecognized
//! or missing role selection is fatal: the process must abort before any
//! network activity.
use vstd::prelude::*;

use vstd::string::StringExecFns;

use crate::role::ConnectionInfo;

verus! {

/// Why the invocation arguments select no role: they are too few, or the
/// role argument is not one of the recognized forms.
#[derive(Clone, Copy, Debug, PartialEq, Eq)]
pub enum ArgumentError {
    MissingRole,
    UnrecognizedRole,
}

impl ArgumentError {
    /// The diagnostic the process aborts with.
    pub fn message(&self) -> (m: String)
        ensures
            m@ == "Need to select to run as either a server (--server) or a client (--client)."@,
    {
        String::from_str(
            "Need to select to run as either a server (--server) or a client (--client).",
        )
    }
}

/// The argument forms that select the server role.
pub open spec fn selects_server(arg: Seq<char>) -> bool {
    arg == "--server"@ || arg == "-s"@
}

/// The argument forms that select the client role.
pub open spec fn selects_client(arg: Seq<char>) -> bool {
    arg == "--client"@ || arg == "-c"@
}

/// The argument forms that switch the server's echo reply on.
pub open spec fn selects_pong(arg: Seq<char>) -> bool {
    arg == "--pong"@ || arg == "-p"@
}

/// The views of the invocation arguments, in order.
pub open spec fn arg_views(args: Seq<String>) -> Seq<Seq<char>> {
    args.map_values(|s: String| s@)
}

/// What an argument list selects. The first argument is the program name;
/// the second must select a role; a server checks the third, when there is
/// one, for the echo switch and ignores any other value there.
pub open spec fn parsed_role(args: Seq<Seq<char>>) -> Result<ConnectionInfo, ArgumentError> {
    if args.len() < 2 {
        Err(ArgumentError::MissingRole)
    } else if selects_server(args[1]) {
        Ok(ConnectionInfo::Server { pong: args.len() >= 3 && selects_pong(args[2]) })
    } else if selects_client(args[1]) {
        Ok(ConnectionInfo::Client)
    } else {
        Err(ArgumentError::UnrecognizedRole)
    }
}

/// True exactly when the argument equals the given literal form.
fn arg_is(arg: &String, lit: &str) -> (r: bool)
    ensures
        r == (arg@ == lit@),
{
    let s = String::from_str(lit);
    arg.eq(&s)
}

/// Parses the invocation arguments into the role to run, exactly as
/// `parsed_role` describes; on an argument list that selects no role the
/// error says whether a role argument was missing or unrecognized.
pub fn parse_args(args: &Vec<String>) -> (r: Result<ConnectionInfo, ArgumentError>)
    ensures
        r == parsed_role(arg_views(args@)),
{
    if args.len() < 2 {
        return Err(ArgumentError::MissingRole);
    }
    let sel = &args[1];
    if arg_is(sel, "--server") || arg_is(sel, "-s") {
        let mut pong = false;
        if args.len() >= 3 {
            pong = arg_is(&args[2], "--pong") || arg_is(&args[2], "-p");
        }
        Ok(ConnectionInfo::Server { pong })
    } else if arg_is(sel, "--client") || arg_is(sel, "-c") {
        Ok(ConnectionInfo::Client)
    } else {
        Err(ArgumentError::UnrecognizedRole)
    }
}

} // verus!
