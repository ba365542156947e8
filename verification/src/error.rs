//! Error types for threading operations, with the recoverable/
//! non-recoverable classification and recovery suggestions that callers
//! use for retry decisions.

use vstd::prelude::*;
use vstd::string::StringExecFns;

verus! {

/// Main error type for threading operations. Message strings that wrap
/// an underlying failure carry its text.
#[derive(Debug)]
pub enum ThreadError {
    /// No thread is registered under the identifier
    ThreadNotFound(u32),
    /// A thread is already registered under the identifier
    ThreadAlreadyExists(u32),
    /// A worker thread could not be created
    ThreadCreationFailed(String),
    /// A command could not be handed to the worker
    CommandSendFailed(String),
    /// The device transport failed
    DeviceError(String),
    /// An input/output failure
    IoError(String),
    /// A worker thread could not be joined
    ThreadJoinError,
    /// The command is not valid
    InvalidCommand(String),
    /// The operation timed out
    Timeout,
    /// The operation is not supported
    NotSupported,
    /// A parameter is out of range
    InvalidParameter(String),
    /// The operation failed
    OperationFailed(String),
    /// A lock was poisoned
    LockPoisoned(String),
    /// A channel receive failed
    ChannelReceiveError(String),
    /// A channel send failed
    ChannelSendError(String),
    /// The state is inconsistent
    StateError(String),
    /// The connection failed
    ConnectionError(String),
    /// Initialization failed
    InitializationError(String),
    /// The configuration is not valid
    ConfigurationError(String),
    /// The thread identifier is not valid
    InvalidThreadId(usize),
    /// The device type is not supported
    UnsupportedDevice,
    /// A pin does not support the requested capability
    PinCapabilityError { message: String, pin: u8, capability: String, suggestion: Option<String> },
    /// A hardware constraint was violated
    HardwareConstraint { message: String, constraint: String, suggestion: String },
    /// Validation failed
    ValidationError { message: String, context: String, recovery_suggestion: Option<String> },
    /// A resource is already in use
    ResourceConflict { message: String, resource: String, conflicting_operation: String },
    /// Any other failure
    Other(String),
}

/// The recovery suggestion carried by an error, if any, as text.
pub open spec fn recovery_suggestion_spec(e: ThreadError) -> Option<Seq<char>> {
    match e {
        ThreadError::PinCapabilityError { suggestion, .. } => match suggestion {
            Option::Some(s) => Option::Some(s@),
            Option::None => Option::None,
        },
        ThreadError::HardwareConstraint { suggestion, .. } => Option::Some(suggestion@),
        ThreadError::ValidationError { recovery_suggestion, .. } => match recovery_suggestion {
            Option::Some(s) => Option::Some(s@),
            Option::None => Option::None,
        },
        _ => Option::None,
    }
}

/// The character of one decimal digit.
pub open spec fn dec_digit(d: int) -> char {
    if d == 0 {
        '0'
    } else if d == 1 {
        '1'
    } else if d == 2 {
        '2'
    } else if d == 3 {
        '3'
    } else if d == 4 {
        '4'
    } else if d == 5 {
        '5'
    } else if d == 6 {
        '6'
    } else if d == 7 {
        '7'
    } else if d == 8 {
        '8'
    } else {
        '9'
    }
}

/// The decimal text of a non-negative integer, most significant digit
/// first.
pub open spec fn dec_spec(n: int) -> Seq<char>
    decreases n,
{
    if n < 10 {
        seq![dec_digit(n)]
    } else {
        dec_spec(n / 10) + seq![dec_digit(n % 10)]
    }
}

/// The text of one decimal digit.
fn dec_digit_str(d: u64) -> (r: &'static str)
    requires
        d < 10,
    ensures
        r@ == seq![dec_digit(d as int)],
{
    if d == 0 {
        proof {
            reveal_strlit("0");
            assert("0"@ =~= seq![dec_digit(0)]);
        }
        "0"
    } else if d == 1 {
        proof {
            reveal_strlit("1");
            assert("1"@ =~= seq![dec_digit(1)]);
        }
        "1"
    } else if d == 2 {
        proof {
            reveal_strlit("2");
            assert("2"@ =~= seq![dec_digit(2)]);
        }
        "2"
    } else if d == 3 {
        proof {
            reveal_strlit("3");
            assert("3"@ =~= seq![dec_digit(3)]);
        }
        "3"
    } else if d == 4 {
        proof {
            reveal_strlit("4");
            assert("4"@ =~= seq![dec_digit(4)]);
        }
        "4"
    } else if d == 5 {
        proof {
            reveal_strlit("5");
            assert("5"@ =~= seq![dec_digit(5)]);
        }
        "5"
    } else if d == 6 {
        proof {
            reveal_strlit("6");
            assert("6"@ =~= seq![dec_digit(6)]);
        }
        "6"
    } else if d == 7 {
        proof {
            reveal_strlit("7");
            assert("7"@ =~= seq![dec_digit(7)]);
        }
        "7"
    } else if d == 8 {
        proof {
            reveal_strlit("8");
            assert("8"@ =~= seq![dec_digit(8)]);
        }
        "8"
    } else {
        proof {
            reveal_strlit("9");
            assert("9"@ =~= seq![dec_digit(9)]);
        }
        "9"
    }
}

/// Render a value as decimal text, digit by digit.
pub fn u64_to_dec(n: u64) -> (r: String)
    ensures
        r@ == dec_spec(n as int),
    decreases n,
{
    if n < 10 {
        dec_digit_str(n).to_owned()
    } else {
        let mut prefix = u64_to_dec(n / 10);
        prefix.append(dec_digit_str(n % 10));
        prefix
    }
}

/// Whether an error is classified recoverable: the caller may adjust the
/// input and retry.
pub open spec fn is_recoverable_spec(e: ThreadError) -> bool {
    match e {
        ThreadError::PinCapabilityError { .. } => true,
        ThreadError::ValidationError { .. } => true,
        ThreadError::InvalidParameter(_) => true,
        ThreadError::ConfigurationError(_) => true,
        _ => false,
    }
}

impl ThreadError {
    /// Create a pin capability error with context.
    pub fn pin_capability_error(pin: u8, capability: &str, suggestion: Option<String>) -> (r: Self)
        ensures
            r matches ThreadError::PinCapabilityError {
                message: m,
                pin: p,
                capability: c,
                suggestion: s,
            } && m@ == "Pin "@ + dec_spec(pin as int) + " does not support "@ + capability@ && p
                == pin && c@ == capability@ && s == suggestion,
    {
        let message = "Pin ".to_owned().concat(u64_to_dec(pin as u64).as_str()).concat(
            " does not support ",
        ).concat(capability);
        ThreadError::PinCapabilityError {
            message,
            pin,
            capability: capability.to_owned(),
            suggestion,
        }
    }

    /// Create a hardware constraint error.
    pub fn hardware_constraint(constraint: &str, suggestion: &str) -> (r: Self)
        ensures
            r matches ThreadError::HardwareConstraint {
                message: m,
                constraint: c,
                suggestion: s,
            } && m@ == "Hardware constraint violated: "@ + constraint@ && c@ == constraint@ && s@
                == suggestion@,
    {
        let message = "Hardware constraint violated: ".to_owned().concat(constraint);
        ThreadError::HardwareConstraint {
            message,
            constraint: constraint.to_owned(),
            suggestion: suggestion.to_owned(),
        }
    }

    /// Create a validation error with a recovery suggestion.
    pub fn validation_error(message: &str, context: &str, recovery: Option<&str>) -> (r: Self)
        ensures
            r matches ThreadError::ValidationError {
                message: m,
                context: c,
                recovery_suggestion: s,
            } && m@ == message@ && c@ == context@,
            recovery is None ==> (r matches ThreadError::ValidationError {
                recovery_suggestion: s,
                ..
            } && s is None),
            recovery matches Some(t) ==> (r matches ThreadError::ValidationError {
                recovery_suggestion: s,
                ..
            } && s matches Some(ss) && ss@ == t@),
    {
        let recovery_suggestion = match recovery {
            Option::Some(s) => Option::Some(s.to_owned()),
            Option::None => Option::None,
        };
        ThreadError::ValidationError {
            message: message.to_owned(),
            context: context.to_owned(),
            recovery_suggestion,
        }
    }

    /// Create a resource conflict error.
    pub fn resource_conflict(resource: &str, operation: &str) -> (r: Self)
        ensures
            r matches ThreadError::ResourceConflict {
                message: m,
                resource: rs,
                conflicting_operation: op,
            } && m@ == "Resource "@ + resource@ + " is already in use"@ && rs@ == resource@ && op@
                == operation@,
    {
        let message = "Resource ".to_owned().concat(resource).concat(" is already in use");
        ThreadError::ResourceConflict {
            message,
            resource: resource.to_owned(),
            conflicting_operation: operation.to_owned(),
        }
    }

    /// Get the recovery suggestion, if the error carries one.
    pub fn recovery_suggestion(&self) -> (r: Option<&str>)
        ensures
            r is Some <==> recovery_suggestion_spec(*self) is Some,
            r matches Some(s) ==> recovery_suggestion_spec(*self) == Option::Some(s@),
    {
        match self {
            ThreadError::PinCapabilityError { suggestion, .. } => match suggestion {
                Option::Some(s) => Option::Some(s.as_str()),
                Option::None => Option::None,
            },
            ThreadError::HardwareConstraint { suggestion, .. } => Option::Some(
                suggestion.as_str(),
            ),
            ThreadError::ValidationError { recovery_suggestion, .. } => match recovery_suggestion {
                Option::Some(s) => Option::Some(s.as_str()),
                Option::None => Option::None,
            },
            _ => Option::None,
        }
    }

    /// Check whether the error is classified recoverable.
    pub fn is_recoverable(&self) -> (r: bool)
        ensures
            r == is_recoverable_spec(*self),
    {
        match self {
            ThreadError::PinCapabilityError { .. } => true,
            ThreadError::ValidationError { .. } => true,
            ThreadError::InvalidParameter(_) => true,
            ThreadError::ConfigurationError(_) => true,
            _ => false,
        }
    }

    /// The error rendered as one line of text.
    pub fn message(&self) -> String {
        match self {
            ThreadError::ThreadNotFound(id) => "Thread not found: ".to_owned().concat(
                u64_to_dec(*id as u64).as_str(),
            ),
            ThreadError::ThreadAlreadyExists(id) => "Thread already exists: ".to_owned().concat(
                u64_to_dec(*id as u64).as_str(),
            ),
            ThreadError::ThreadCreationFailed(s) => "Thread creation failed: ".to_owned().concat(
                s.as_str(),
            ),
            ThreadError::CommandSendFailed(s) => "Command send failed: ".to_owned().concat(
                s.as_str(),
            ),
            ThreadError::DeviceError(s) => "Device error: ".to_owned().concat(s.as_str()),
            ThreadError::IoError(s) => "IO error: ".to_owned().concat(s.as_str()),
            ThreadError::ThreadJoinError => "Thread join error".to_owned(),
            ThreadError::InvalidCommand(s) => "Invalid command: ".to_owned().concat(s.as_str()),
            ThreadError::Timeout => "Operation timeout".to_owned(),
            ThreadError::NotSupported => "Operation not supported".to_owned(),
            ThreadError::InvalidParameter(s) => "Invalid parameter: ".to_owned().concat(
                s.as_str(),
            ),
            ThreadError::OperationFailed(s) => "Operation failed: ".to_owned().concat(s.as_str()),
            ThreadError::LockPoisoned(s) => "Lock poisoned: ".to_owned().concat(s.as_str()),
            ThreadError::ChannelReceiveError(s) => "Channel receive error: ".to_owned().concat(
                s.as_str(),
            ),
            ThreadError::ChannelSendError(s) => "Channel send error: ".to_owned().concat(
                s.as_str(),
            ),
            ThreadError::StateError(s) => "State error: ".to_owned().concat(s.as_str()),
            ThreadError::ConnectionError(s) => "Connection error: ".to_owned().concat(s.as_str()),
            ThreadError::InitializationError(s) => "Initialization error: ".to_owned().concat(
                s.as_str(),
            ),
            ThreadError::ConfigurationError(s) => "Configuration error: ".to_owned().concat(
                s.as_str(),
            ),
            ThreadError::InvalidThreadId(id) => "Invalid thread ID: ".to_owned().concat(
                u64_to_dec(*id as u64).as_str(),
            ),
            ThreadError::UnsupportedDevice => "Unsupported device type".to_owned(),
            ThreadError::PinCapabilityError { message, .. } => "Pin capability error: "
                .to_owned().concat(message.as_str()),
            ThreadError::HardwareConstraint { message, .. } => "Hardware constraint violation: "
                .to_owned().concat(message.as_str()),
            ThreadError::ValidationError { message, .. } => "Validation failed: ".to_owned()
                .concat(message.as_str()),
            ThreadError::ResourceConflict { message, .. } => "Resource conflict: ".to_owned()
                .concat(message.as_str()),
            ThreadError::Other(s) => "Other error: ".to_owned().concat(s.as_str()),
        }
    }
}

} // verus!
