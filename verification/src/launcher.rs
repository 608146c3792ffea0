//! Building the child's launch: the exact command-line tokens, the launch
//! error taxonomy, and the one decision taken on the launch outcome.
//!
//! The host resolves the bundled executable and performs the spawn; this
//! module fixes what is spawned with which arguments, and how a success or a
//! failure changes the supervisor's state.

use vstd::prelude::*;
use vstd::string::StringExecFns;
use crate::supervisor::{ProcessHandle, SupervisorState};

verus! {

/// The fixed TCP port the child serves on. There is no negotiation or
/// discovery: the value is a constant for the lifetime of the design.
pub const BACKEND_PORT: u16 = 3001;

/// Why a launch failed. None of these is retried; the application keeps
/// running without a backend and the caller decides what to offer instead.
#[derive(Debug, PartialEq, Eq)]
pub enum LaunchError {
    /// The data directory could not be created or written; carries the
    /// underlying OS error text.
    DataDirUnavailable(String),
    /// The bundled executable could not be resolved; carries the resolver's
    /// error text.
    ExecutableNotFound(String),
    /// The OS rejected the spawn request; carries the OS error text.
    SpawnFailed(String),
}

/// The short fixed name of a launch error's kind.
pub open spec fn spec_kind_text(e: LaunchError) -> Seq<char> {
    match e {
        LaunchError::DataDirUnavailable(_) => "data directory unavailable"@,
        LaunchError::ExecutableNotFound(_) => "executable not found"@,
        LaunchError::SpawnFailed(_) => "spawn failed"@,
    }
}

impl LaunchError {
    /// The short fixed name of this error's kind, for the host's log line.
    pub fn kind_text(&self) -> (s: String)
        ensures
            s@ == spec_kind_text(*self),
    {
        match self {
            LaunchError::DataDirUnavailable(_) => String::from_str("data directory unavailable"),
            LaunchError::ExecutableNotFound(_) => String::from_str("executable not found"),
            LaunchError::SpawnFailed(_) => String::from_str("spawn failed"),
        }
    }

    /// The underlying error text wrapped by this variant.
    pub fn detail(&self) -> (s: &String)
        ensures
            match *self {
                LaunchError::DataDirUnavailable(t) => s@ == t@,
                LaunchError::ExecutableNotFound(t) => s@ == t@,
                LaunchError::SpawnFailed(t) => s@ == t@,
            },
    {
        match self {
            LaunchError::DataDirUnavailable(t) => t,
            LaunchError::ExecutableNotFound(t) => t,
            LaunchError::SpawnFailed(t) => t,
        }
    }
}

/// The character of one decimal digit.
pub open spec fn digit_char(d: nat) -> char
    recommends
        d < 10,
{
    ((d + 48) as u8) as char
}

/// The decimal rendering of a number, most significant digit first, with no
/// leading zero except for the number zero itself.
pub open spec fn decimal_digits(n: nat) -> Seq<char>
    decreases n,
{
    if n < 10 {
        seq![digit_char(n)]
    } else {
        decimal_digits(n / 10) + seq![digit_char(n % 10)]
    }
}

/// Relies on `String::push` of std: appends the given character to the end
/// of the string.
pub assume_specification[ String::push ](s: &mut String, ch: char)
    ensures
        final(s)@ == old(s)@.push(ch),
;

/// The character of one decimal digit, executably.
fn digit_to_char(d: u16) -> (c: char)
    requires
        d < 10,
    ensures
        c == digit_char(d as nat),
{
    ((d + 48) as u8) as char
}

/// Renders a number in decimal, most significant digit first.
pub fn decimal_string(n: u16) -> (s: String)
    ensures
        s@ == decimal_digits(n as nat),
{
    let mut rest: u16 = n;
    let mut chars: Vec<char> = Vec::new();
    proof {
        assert(decimal_digits(n as nat) =~= decimal_digits(rest as nat) + chars@);
    }
    loop
        invariant_except_break
            decimal_digits(n as nat) == decimal_digits(rest as nat) + chars@,
        ensures
            decimal_digits(n as nat) == chars@,
        decreases rest,
    {
        let ghost before: nat = rest as nat;
        let ghost prefix = chars@;
        let d = rest % 10;
        let c = digit_to_char(d);
        chars.insert(0, c);
        rest = rest / 10;
        proof {
            assert(chars@ =~= seq![digit_char(before % 10)] + prefix);
            if rest == 0 {
                assert(decimal_digits(before) =~= seq![digit_char(before)]);
                assert(decimal_digits(n as nat) =~= chars@);
            } else {
                assert(decimal_digits(before) =~= decimal_digits(before / 10) + seq![
                    digit_char(before % 10),
                ]);
                assert(decimal_digits(n as nat) =~= decimal_digits(rest as nat) + chars@);
            }
        }
        if rest == 0 {
            break;
        }
    }
    let mut s = String::new();
    let mut i: usize = 0;
    while i < chars.len()
        invariant
            i <= chars.len(),
            s@ == chars@.take(i as int),
            decimal_digits(n as nat) == chars@,
        decreases chars.len() - i,
    {
        s.push(chars[i]);
        i = i + 1;
        proof {
            assert(s@ =~= chars@.take(i as int));
        }
    }
    proof {
        assert(chars@.take(chars@.len() as int) =~= chars@);
    }
    s
}

/// The decimal token for the fixed port: the rendering of `BACKEND_PORT`,
/// which is exactly the text `3001`.
pub fn port_argument() -> (s: String)
    ensures
        s@ == decimal_digits(BACKEND_PORT as nat),
        s@ == "3001"@,
{
    let s = decimal_string(BACKEND_PORT);
    proof {
        reveal_strlit("3001");
        reveal_with_fuel(decimal_digits, 5);
        assert(decimal_digits(BACKEND_PORT as nat) =~= "3001"@);
    }
    s
}

/// The exact argument tokens handed to the child for a given data directory:
/// the data directory and the fixed port, each as a flag followed by its
/// value in a separate token.
pub fn build_launch_args(data_dir: String) -> (args: Vec<String>)
    ensures
        args@.len() == 4,
        args@[0]@ == "--path"@,
        args@[1]@ == data_dir@,
        args@[2]@ == "--port"@,
        args@[3]@ == "3001"@,
        args@[3]@ == decimal_digits(BACKEND_PORT as nat),
{
    let mut args: Vec<String> = Vec::new();
    args.push(String::from_str("--path"));
    args.push(data_dir);
    args.push(String::from_str("--port"));
    args.push(port_argument());
    args
}

/// Everything the host needs to spawn the child: the bundled executable's
/// identifier and the exact argument tokens.
pub struct LaunchPlan {
    pub executable: String,
    pub args: Vec<String>,
}

/// Plans a launch: the named bundled executable, called with the data
/// directory and the fixed port as its arguments.
pub fn plan_launch(executable_id: String, data_dir: String) -> (plan: LaunchPlan)
    ensures
        plan.executable@ == executable_id@,
        plan.args@.len() == 4,
        plan.args@[0]@ == "--path"@,
        plan.args@[1]@ == data_dir@,
        plan.args@[2]@ == "--port"@,
        plan.args@[3]@ == "3001"@,
{
    LaunchPlan { executable: executable_id, args: build_launch_args(data_dir) }
}

/// The one decision taken on a launch outcome, on the single startup path:
/// a successful launch installs the returned handle into the empty state; a
/// failed launch leaves the state empty — no child process exists, nothing
/// to track — and hands the error back unchanged for the host to log.
pub fn install_if_launched(state: &mut SupervisorState, outcome: Result<
    ProcessHandle,
    LaunchError,
>) -> (r: Result<(), LaunchError>)
    requires
        old(state).child is None,
    ensures
        outcome matches Ok(h) ==> final(state).child == Some(h) && r is Ok,
        outcome matches Err(e) ==> final(state).child is None && r == Result::<
            (),
            LaunchError,
        >::Err(e),
{
    match outcome {
        Result::Ok(handle) => {
            state.install(handle);
            Result::Ok(())
        },
        Result::Err(e) => Result::Err(e),
    }
}

} // verus!
