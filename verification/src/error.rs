//! Errors of the SDK and the way failures of the IDA library are reported.
use vstd::prelude::*;
use vstd::string::StringExecFns;

verus! {

/// Marker type exported for failures of the IDA library as a whole.
pub struct IDALibError;

/// Marker type exported for failures to open a database.
pub struct DatabaseOpenError;

/// Marker type exported for license failures.
pub struct LicenseError;

/// Marker type exported for decompiler failures.
pub struct DecompilerError;

/// Marker type exported for plugin failures.
pub struct PluginError;

/// The family an IDA library failure is reported under; its label starts the reason text.
#[derive(Debug, Clone, Copy, PartialEq, Eq, Structural)]
pub enum ErrorCategory {
    IdaLib,
    DatabaseOpen,
    License,
    Decompiler,
}

impl ErrorCategory {
    pub open spec fn label_spec(self) -> Seq<char> {
        match self {
            ErrorCategory::IdaLib => "IDALibError"@,
            ErrorCategory::DatabaseOpen => "DatabaseOpenError"@,
            ErrorCategory::License => "LicenseError"@,
            ErrorCategory::Decompiler => "DecompilerError"@,
        }
    }

    /// The label that starts the reason text of errors of this family.
    pub fn label(&self) -> (r: &'static str)
        ensures
            r@ == self.label_spec(),
    {
        match self {
            ErrorCategory::IdaLib => "IDALibError",
            ErrorCategory::DatabaseOpen => "DatabaseOpenError",
            ErrorCategory::License => "LicenseError",
            ErrorCategory::Decompiler => "DecompilerError",
        }
    }
}

/// The variants of the IDA library's error type, without their payloads.
#[derive(Debug, Clone, Copy, PartialEq, Eq, Structural)]
pub enum IdaErrorKind {
    Init,
    FileNotFound,
    OpenDb,
    CloseDb,
    InvalidLicense,
    Ffi,
    HexRays,
    MakeSigs,
    GetVersion,
}

/// An error of the SDK. Its reason text is what the JavaScript side sees.
#[derive(Debug)]
pub enum Error {
    /// An address argument was a negative number.
    NegativeAddress,
    /// A bound address argument was a negative number.
    NegativeBound,
    /// The database was used after it had been closed.
    DatabaseClosed,
    /// The lock around the database was poisoned; the payload is the lock's own message.
    Lock(String),
    /// The IDA library failed; the payload is the text reported after the category label.
    Ida(ErrorCategory, String),
    /// No function starts at the requested address.
    FunctionNotFound,
    /// The flow chart of a function could not be built; the payload is the cause.
    Cfg(String),
    /// The decompiler plugin is not available for this database.
    DecompilerUnavailable,
    /// The decompiler found no function at the requested address.
    NoFunctionAtAddress,
    /// The decompiler failed; the payload is its reason.
    Decompile(String),
}

impl Error {
    /// The reason text of the error.
    pub open spec fn reason_spec(&self) -> Seq<char> {
        match self {
            Error::NegativeAddress => "Address cannot be negative"@,
            Error::NegativeBound => "Bound address cannot be negative"@,
            Error::DatabaseClosed => "Database is closed"@,
            Error::Lock(msg) => "LockError: "@ + msg@,
            Error::Ida(category, msg) => category.label_spec() + ": "@ + msg@,
            Error::FunctionNotFound => "Function not found"@,
            Error::Cfg(msg) => "CFGError: "@ + msg@,
            Error::DecompilerUnavailable => "DecompilerError: Decompiler is not available"@,
            Error::NoFunctionAtAddress => "DecompilerError: No function at address"@,
            Error::Decompile(msg) => "DecompilerError: "@ + msg@,
        }
    }

    /// The reason text of the error.
    pub fn reason(&self) -> (r: String)
        ensures
            r@ == self.reason_spec(),
    {
        match self {
            Error::NegativeAddress => String::from_str("Address cannot be negative"),
            Error::NegativeBound => String::from_str("Bound address cannot be negative"),
            Error::DatabaseClosed => String::from_str("Database is closed"),
            Error::Lock(msg) => String::from_str("LockError: ").concat(msg.as_str()),
            Error::Ida(category, msg) => {
                let mut s = String::from_str(category.label());
                s.append(": ");
                s.append(msg.as_str());
                s
            },
            Error::FunctionNotFound => String::from_str("Function not found"),
            Error::Cfg(msg) => String::from_str("CFGError: ").concat(msg.as_str()),
            Error::DecompilerUnavailable => String::from_str(
                "DecompilerError: Decompiler is not available",
            ),
            Error::NoFunctionAtAddress => String::from_str(
                "DecompilerError: No function at address",
            ),
            Error::Decompile(msg) => String::from_str("DecompilerError: ").concat(msg.as_str()),
        }
    }
}

/// The category under which a failure of the IDA library is reported.
pub open spec fn ida_error_category(kind: IdaErrorKind) -> ErrorCategory {
    match kind {
        IdaErrorKind::OpenDb => ErrorCategory::DatabaseOpen,
        IdaErrorKind::InvalidLicense => ErrorCategory::License,
        IdaErrorKind::HexRays => ErrorCategory::Decompiler,
        _ => ErrorCategory::IdaLib,
    }
}

/// The text reported after the category label: the library's own message, except for a
/// missing license and a failed version query, which get fixed texts.
pub open spec fn ida_error_text(kind: IdaErrorKind, message: Seq<char>) -> Seq<char> {
    match kind {
        IdaErrorKind::InvalidLicense => "Invalid idalib license"@,
        IdaErrorKind::GetVersion => "Failed to get version"@,
        _ => message,
    }
}

/// Turns a failure of the IDA library into an SDK error. `message` is the text that the
/// library's error displays.
pub fn map_ida_error(kind: IdaErrorKind, message: String) -> (r: Error)
    ensures
        r matches Error::Ida(category, text) && category == ida_error_category(kind) && text@
            == ida_error_text(kind, message@),
        r.reason_spec() == ida_error_category(kind).label_spec() + ": "@ + ida_error_text(
            kind,
            message@,
        ),
{
    match kind {
        IdaErrorKind::OpenDb => Error::Ida(ErrorCategory::DatabaseOpen, message),
        IdaErrorKind::InvalidLicense => Error::Ida(
            ErrorCategory::License,
            String::from_str("Invalid idalib license"),
        ),
        IdaErrorKind::HexRays => Error::Ida(ErrorCategory::Decompiler, message),
        IdaErrorKind::GetVersion => Error::Ida(
            ErrorCategory::IdaLib,
            String::from_str("Failed to get version"),
        ),
        _ => Error::Ida(ErrorCategory::IdaLib, message),
    }
}

/// Each failure of the IDA library is reported under its family, followed by the library's
/// own message: a failure to open a database as `DatabaseOpenError`, a decompiler failure as
/// `DecompilerError`, every other one as `IDALibError`; a missing license and a failed
/// version query get fixed texts instead of the message.
pub proof fn lemma_ida_error_reports(message: Seq<char>)
    ensures
        ida_error_category(IdaErrorKind::Init).label_spec() + ": "@ + ida_error_text(IdaErrorKind::Init, message) == "IDALibError: "@ + message,
        ida_error_category(IdaErrorKind::FileNotFound).label_spec() + ": "@ + ida_error_text(IdaErrorKind::FileNotFound, message) == "IDALibError: "@ + message,
        ida_error_category(IdaErrorKind::OpenDb).label_spec() + ": "@ + ida_error_text(IdaErrorKind::OpenDb, message) == "DatabaseOpenError: "@ + message,
        ida_error_category(IdaErrorKind::CloseDb).label_spec() + ": "@ + ida_error_text(IdaErrorKind::CloseDb, message) == "IDALibError: "@ + message,
        ida_error_category(IdaErrorKind::InvalidLicense).label_spec() + ": "@ + ida_error_text(IdaErrorKind::InvalidLicense, message) == "LicenseError: Invalid idalib license"@,
        ida_error_category(IdaErrorKind::Ffi).label_spec() + ": "@ + ida_error_text(IdaErrorKind::Ffi, message) == "IDALibError: "@ + message,
        ida_error_category(IdaErrorKind::HexRays).label_spec() + ": "@ + ida_error_text(IdaErrorKind::HexRays, message) == "DecompilerError: "@ + message,
        ida_error_category(IdaErrorKind::MakeSigs).label_spec() + ": "@ + ida_error_text(IdaErrorKind::MakeSigs, message) == "IDALibError: "@ + message,
        ida_error_category(IdaErrorKind::GetVersion).label_spec() + ": "@ + ida_error_text(IdaErrorKind::GetVersion, message) == "IDALibError: Failed to get version"@,
{
    reveal_strlit("IDALibError");
    reveal_strlit("DatabaseOpenError");
    reveal_strlit("LicenseError");
    reveal_strlit("DecompilerError");
    reveal_strlit(": ");
    reveal_strlit("IDALibError: ");
    reveal_strlit("DatabaseOpenError: ");
    reveal_strlit("DecompilerError: ");
    reveal_strlit("Invalid idalib license");
    reveal_strlit("LicenseError: Invalid idalib license");
    reveal_strlit("Failed to get version");
    reveal_strlit("IDALibError: Failed to get version");
    assert("IDALibError"@ + ": "@ =~= "IDALibError: "@);
    assert("DatabaseOpenError"@ + ": "@ =~= "DatabaseOpenError: "@);
    assert("DecompilerError"@ + ": "@ =~= "DecompilerError: "@);
    assert("LicenseError"@ + ": "@ + "Invalid idalib license"@ =~= "LicenseError: Invalid idalib license"@);
    assert("IDALibError"@ + ": "@ + "Failed to get version"@ =~= "IDALibError: Failed to get version"@);
}

/// The reason texts of the errors without a payload, and the prefixes of those with one.
pub proof fn lemma_error_reasons(msg: String)
    ensures
        Error::NegativeAddress.reason_spec() == "Address cannot be negative"@,
        Error::NegativeBound.reason_spec() == "Bound address cannot be negative"@,
        Error::DatabaseClosed.reason_spec() == "Database is closed"@,
        Error::FunctionNotFound.reason_spec() == "Function not found"@,
        Error::DecompilerUnavailable.reason_spec() == "DecompilerError: Decompiler is not available"@,
        Error::NoFunctionAtAddress.reason_spec() == "DecompilerError: No function at address"@,
        Error::Lock(msg).reason_spec() == "LockError: "@ + msg@,
        Error::Cfg(msg).reason_spec() == "CFGError: "@ + msg@,
        Error::Decompile(msg).reason_spec() == "DecompilerError: "@ + msg@,
{
}

} // verus!
