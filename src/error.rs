use vstd::prelude::*;
use vstd::string::*;

use crate::status::PvStatus;
use crate::text::{decimal, joined, push_decimal};

verus! {

/// The kind of an error of this library.
#[derive(Clone, Copy, Debug, PartialEq, Eq, Structural)]
pub enum RhinoErrorStatus {
    /// A native call returned a status other than success.
    LibraryError(PvStatus),
    /// The shared library could not be opened or lacks a required symbol.
    LibraryLoadError,
    /// A frame of the wrong length was handed to the engine.
    FrameLengthError,
    /// The configuration was refused before any native call.
    ArgumentError,
}

/// An error: its kind, a message naming what failed, and the diagnostic
/// messages that the native engine reported, innermost last.
#[derive(Clone, Debug, PartialEq)]
pub struct RhinoError {
    pub status: RhinoErrorStatus,
    pub message: String,
    pub message_stack: Vec<String>,
}

/// The name of a native status, as it is printed.
pub open spec fn status_name(s: PvStatus) -> Seq<char> {
    match s {
        PvStatus::SUCCESS => "SUCCESS"@,
        PvStatus::OUT_OF_MEMORY => "OUT_OF_MEMORY"@,
        PvStatus::IO_ERROR => "IO_ERROR"@,
        PvStatus::INVALID_ARGUMENT => "INVALID_ARGUMENT"@,
        PvStatus::STOP_ITERATION => "STOP_ITERATION"@,
        PvStatus::KEY_ERROR => "KEY_ERROR"@,
        PvStatus::INVALID_STATE => "INVALID_STATE"@,
        PvStatus::RUNTIME_ERROR => "RUNTIME_ERROR"@,
        PvStatus::ACTIVATION_ERROR => "ACTIVATION_ERROR"@,
        PvStatus::ACTIVATION_LIMIT_REACHED => "ACTIVATION_LIMIT_REACHED"@,
        PvStatus::ACTIVATION_THROTTLED => "ACTIVATION_THROTTLED"@,
        PvStatus::ACTIVATION_REFUSED => "ACTIVATION_REFUSED"@,
    }
}

/// The name of an error kind, as it is printed.
pub open spec fn error_status_name(s: RhinoErrorStatus) -> Seq<char> {
    match s {
        RhinoErrorStatus::LibraryError(p) => "LibraryError("@ + status_name(p) + ")"@,
        RhinoErrorStatus::LibraryLoadError => "LibraryLoadError"@,
        RhinoErrorStatus::FrameLengthError => "FrameLengthError"@,
        RhinoErrorStatus::ArgumentError => "ArgumentError"@,
    }
}

/// The lines that print the native messages from index `i` on, each as
/// `  [index] message` and a line break.
pub open spec fn stack_lines(stack: Seq<Seq<char>>, i: nat) -> Seq<char>
    decreases stack.len() - i,
{
    if i >= stack.len() {
        Seq::empty()
    } else {
        "  ["@ + decimal(i) + "] "@ + stack[i as int] + "\n"@ + stack_lines(stack, i + 1)
    }
}

/// The printed form of an error.
pub open spec fn error_text(message: Seq<char>, status: RhinoErrorStatus, stack: Seq<Seq<char>>) -> Seq<char> {
    let head = message + " with status '"@ + error_status_name(status) + "'"@;
    if stack.len() == 0 {
        head
    } else {
        head + ":"@ + stack_lines(stack, 0)
    }
}

/// The views of a list of strings.
pub open spec fn views(v: Seq<String>) -> Seq<Seq<char>> {
    v.map_values(|s: String| s@)
}

impl PvStatus {
    /// The name of this status.
    pub fn name(&self) -> (r: &'static str)
        ensures
            r@ == status_name(*self),
    {
        match self {
            PvStatus::SUCCESS => "SUCCESS",
            PvStatus::OUT_OF_MEMORY => "OUT_OF_MEMORY",
            PvStatus::IO_ERROR => "IO_ERROR",
            PvStatus::INVALID_ARGUMENT => "INVALID_ARGUMENT",
            PvStatus::STOP_ITERATION => "STOP_ITERATION",
            PvStatus::KEY_ERROR => "KEY_ERROR",
            PvStatus::INVALID_STATE => "INVALID_STATE",
            PvStatus::RUNTIME_ERROR => "RUNTIME_ERROR",
            PvStatus::ACTIVATION_ERROR => "ACTIVATION_ERROR",
            PvStatus::ACTIVATION_LIMIT_REACHED => "ACTIVATION_LIMIT_REACHED",
            PvStatus::ACTIVATION_THROTTLED => "ACTIVATION_THROTTLED",
            PvStatus::ACTIVATION_REFUSED => "ACTIVATION_REFUSED",
        }
    }
}

impl RhinoErrorStatus {
    /// The name of this error kind.
    pub fn name(&self) -> (r: String)
        ensures
            r@ == error_status_name(*self),
    {
        match self {
            RhinoErrorStatus::LibraryError(p) => {
                let mut r = String::from_str("LibraryError(");
                r.append(p.name());
                r.append(")");
                r
            },
            RhinoErrorStatus::LibraryLoadError => String::from_str("LibraryLoadError"),
            RhinoErrorStatus::FrameLengthError => String::from_str("FrameLengthError"),
            RhinoErrorStatus::ArgumentError => String::from_str("ArgumentError"),
        }
    }
}

impl RhinoError {
    /// An error with no native messages.
    pub fn new(status: RhinoErrorStatus, message: String) -> (r: Self)
        ensures
            r.status == status,
            r.message@ == message@,
            r.message_stack@.len() == 0,
    {
        RhinoError { status, message, message_stack: Vec::new() }
    }

    /// An error that carries the messages the native engine reported.
    pub fn new_with_stack(status: RhinoErrorStatus, message: String, message_stack: Vec<String>) -> (r: Self)
        ensures
            r.status == status,
            r.message@ == message@,
            r.message_stack@ == message_stack@,
    {
        RhinoError { status, message, message_stack }
    }

    /// The printed form of this error: its message and kind, then, when the
    /// native engine reported any, one line per native message.
    pub fn to_string(&self) -> (r: String)
        ensures
            r@ == error_text(self.message@, self.status, views(self.message_stack@)),
    {
        let mut r = joined(self.message.as_str(), " with status '");
        let name = self.status.name();
        r.append(name.as_str());
        r.append("'");
        let n = self.message_stack.len();
        if n == 0 {
            return r;
        }
        let ghost head = r@;
        r.append(":");
        let ghost stack = views(self.message_stack@);
        let mut i: usize = 0;
        while i < n
            invariant
                n == self.message_stack@.len(),
                stack == views(self.message_stack@),
                i <= n,
                r@ + stack_lines(stack, i as nat) == head + ":"@ + stack_lines(stack, 0),
            decreases n - i,
        {
            let ghost before = r@;
            r.append("  [");
            push_decimal(&mut r, i as u64);
            r.append("] ");
            r.append(self.message_stack[i].as_str());
            r.append("\n");
            assert(r@ == before + ("  ["@ + decimal(i as nat) + "] "@ + stack[i as int] + "\n"@));
            assert(stack_lines(stack, i as nat) == "  ["@ + decimal(i as nat) + "] "@ + stack[i as int]
                + "\n"@ + stack_lines(stack, (i + 1) as nat));
            i = i + 1;
        }
        assert(stack_lines(stack, n as nat) == Seq::<char>::empty());
        r
    }
}

/// What an error holds, as plain values.
pub struct ErrorView {
    pub status: RhinoErrorStatus,
    pub message: Seq<char>,
    pub message_stack: Seq<Seq<char>>,
}

impl View for RhinoError {
    type V = ErrorView;

    open spec fn view(&self) -> ErrorView {
        ErrorView { status: self.status, message: self.message@, message_stack: views(self.message_stack@) }
    }
}

/// The error for a native call named `function_name` that returned
/// `status`, given what fetching the native message stack gave: the
/// messages, or the status with which fetching them failed. A failure to
/// fetch the messages is reported in place of the call's own error.
pub open spec fn call_failure(
    status: PvStatus,
    function_name: Seq<char>,
    stack: Result<Seq<Seq<char>>, PvStatus>,
) -> ErrorView {
    match stack {
        Ok(messages) => ErrorView {
            status: RhinoErrorStatus::LibraryError(status),
            message: "'"@ + function_name + "' failed"@,
            message_stack: messages,
        },
        Err(s) => ErrorView {
            status: RhinoErrorStatus::LibraryError(s),
            message: "Unable to get Rhino error state"@,
            message_stack: Seq::empty(),
        },
    }
}

/// The views of a fetched message stack.
pub open spec fn stack_views(stack: Result<Vec<String>, PvStatus>) -> Result<Seq<Seq<char>>, PvStatus> {
    match stack {
        Ok(v) => Ok(views(v@)),
        Err(s) => Err(s),
    }
}

/// The error for a native call named `function_name` that returned `status`,
/// given the outcome of fetching the native message stack right after it.
pub fn call_failed(status: PvStatus, function_name: &str, stack: Result<Vec<String>, PvStatus>) -> (r: RhinoError)
    ensures
        r@ == call_failure(status, function_name@, stack_views(stack)),
{
    match stack {
        Ok(messages) => {
            let mut message = joined("'", function_name);
            message.append("' failed");
            RhinoError::new_with_stack(RhinoErrorStatus::LibraryError(status), message, messages)
        },
        Err(s) => {
            let r = RhinoError::new(
                RhinoErrorStatus::LibraryError(s),
                String::from_str("Unable to get Rhino error state"),
            );
            assert(views(r.message_stack@) =~= Seq::<Seq<char>>::empty());
            r
        },
    }
}

/// The error for a shared library that could not be opened, with what the
/// loader reported.
pub fn library_load_failed(diagnostic: &str) -> (r: RhinoError)
    ensures
        r@ == (ErrorView {
            status: RhinoErrorStatus::LibraryLoadError,
            message: "Failed to load rhino dynamic library: "@ + diagnostic@,
            message_stack: Seq::empty(),
        }),
{
    let r = RhinoError::new(
        RhinoErrorStatus::LibraryLoadError,
        joined("Failed to load rhino dynamic library: ", diagnostic),
    );
    assert(views(r.message_stack@) =~= Seq::<Seq<char>>::empty());
    r
}

/// The error for a symbol that the shared library does not export, naming
/// the symbol and what the loader reported.
pub fn symbol_missing(symbol: &str, diagnostic: &str) -> (r: RhinoError)
    ensures
        r@ == (ErrorView {
            status: RhinoErrorStatus::LibraryLoadError,
            message: "Failed to load function symbol '"@ + symbol@ + "' from rhino library: "@ + diagnostic@,
            message_stack: Seq::empty(),
        }),
{
    let mut message = joined("Failed to load function symbol '", symbol);
    message.append("' from rhino library: ");
    message.append(diagnostic);
    let r = RhinoError::new(RhinoErrorStatus::LibraryLoadError, message);
    assert(views(r.message_stack@) =~= Seq::<Seq<char>>::empty());
    r
}

} // verus!
