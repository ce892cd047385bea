//! Errors of the Intel VPL interface and of this library.
use vstd::prelude::*;

use crate::sys;
use crate::text::push_signed_decimal;
use crate::text::signed_decimal;

verus! {

/// An error reported by the Intel VPL interface or by this library.
///
/// An error that stems from VPL keeps the `mfxStatus` code, its name and its description. An error
/// of this library only has a message.
#[derive(Debug, Clone)]
pub struct Error {
    /// The VPL function or the method that failed.
    function: &'static str,
    /// The `mfxStatus` code, if VPL reported the error.
    status_code: Option<i32>,
    /// The name of the `mfxStatus` code, such as `MFX_ERR_UNSUPPORTED`.
    status_name: Option<&'static str>,
    /// The description of the error.
    status_message: Option<String>,
}

/// What an [`Error`] says, as mathematical values.
#[verifier::ext_equal]
pub struct ErrorView {
    pub function: Seq<char>,
    pub status_code: Option<i32>,
    pub status_name: Option<Seq<char>>,
    pub status_message: Option<Seq<char>>,
}

impl ErrorView {
    /// An error of this library: no status, only a message.
    pub open spec fn custom(function: Seq<char>, message: Seq<char>) -> ErrorView {
        ErrorView {
            function,
            status_code: None,
            status_name: None,
            status_message: Some(message),
        }
    }

    /// An error that VPL reported: name and message come from the status table.
    pub open spec fn mfx(status: i32, function: Seq<char>) -> ErrorView {
        ErrorView {
            function,
            status_code: Some(status),
            status_name: match status_entry(status) {
                Some(entry) => Some(entry.0),
                None => None,
            },
            status_message: match status_entry(status) {
                Some(entry) => Some(entry.1),
                None => None,
            },
        }
    }

    /// The same error with another message.
    pub open spec fn with_message(self, message: Seq<char>) -> ErrorView {
        ErrorView { status_message: Some(message), ..self }
    }

    /// The text shown to people: `function() failed[status=code]: message (name)`, each part only
    /// where it is known.
    pub open spec fn display(self) -> Seq<char> {
        let head = self.function + "() failed"@;
        let code = match self.status_code {
            Some(code) => "[status="@ + signed_decimal(code as int) + "]"@,
            None => Seq::<char>::empty(),
        };
        let detail = match (self.status_message, self.status_name) {
            (Some(message), Some(name)) => ": "@ + message + " ("@ + name + ")"@,
            (Some(message), None) => ": "@ + message,
            (None, Some(name)) => ": "@ + name,
            (None, None) => Seq::<char>::empty(),
        };
        head + code + detail
    }
}

impl View for Error {
    type V = ErrorView;

    closed spec fn view(&self) -> ErrorView {
        ErrorView {
            function: self.function@,
            status_code: self.status_code,
            status_name: match self.status_name {
                Some(name) => Some(name@),
                None => None,
            },
            status_message: match self.status_message {
                Some(message) => Some(message@),
                None => None,
            },
        }
    }
}

/// What a fallible step answers, with the error taken by its view.
pub open spec fn answer<T>(result: Result<T, Error>) -> Result<T, ErrorView> {
    match result {
        Ok(value) => Ok(value),
        Err(error) => Err(error@),
    }
}

impl Error {
    /// The function that failed.
    pub fn function(&self) -> (r: &str)
        ensures
            r@ == self@.function,
    {
        self.function
    }

    /// The `mfxStatus` code, if VPL reported the error.
    pub fn status_code(&self) -> (r: Option<i32>)
        ensures
            r == self@.status_code,
    {
        self.status_code
    }

    /// The name of the `mfxStatus` code, such as `MFX_ERR_UNSUPPORTED`.
    pub fn status_name(&self) -> (r: Option<&str>)
        ensures
            match r {
                Some(name) => self@.status_name == Some(name@),
                None => self@.status_name is None,
            },
    {
        self.status_name
    }

    /// The description of the error.
    pub fn status_message(&self) -> (r: Option<&str>)
        ensures
            match r {
                Some(message) => self@.status_message == Some(message@),
                None => self@.status_message is None,
            },
    {
        match &self.status_message {
            Some(message) => Some(message.as_str()),
            None => None,
        }
    }

    /// An error of this library with a fixed message.
    pub fn new_custom(function: &'static str, message: &'static str) -> (r: Error)
        ensures
            r@ == ErrorView::custom(function@, message@),
    {
        Error {
            function,
            status_code: None,
            status_name: None,
            status_message: Some(message.to_owned()),
        }
    }

    /// An error of this library with a composed message.
    pub fn new_custom_owned(function: &'static str, message: String) -> (r: Error)
        ensures
            r@ == ErrorView::custom(function@, message@),
    {
        Error { function, status_code: None, status_name: None, status_message: Some(message) }
    }

    /// An error that VPL reported with `status`.
    pub fn from_mfx(status: i32, function: &'static str) -> (r: Error)
        ensures
            r@ == ErrorView::mfx(status, function@),
    {
        match find_status(status) {
            Some((name, message)) => Error {
                function,
                status_code: Some(status),
                status_name: Some(name),
                status_message: Some(message.to_owned()),
            },
            None => Error {
                function,
                status_code: Some(status),
                status_name: None,
                status_message: None,
            },
        }
    }

    /// The same error with its message replaced; function, code and name stay.
    pub fn with_message(self, message: String) -> (r: Error)
        ensures
            r@ == self@.with_message(message@),
    {
        Error {
            function: self.function,
            status_code: self.status_code,
            status_name: self.status_name,
            status_message: Some(message),
        }
    }

    /// Accepts `MFX_ERR_NONE` only; every other status is an error.
    pub fn check_mfx(status: i32, function: &'static str) -> (r: Result<(), Error>)
        ensures
            answer(r) == check(status, function@),
    {
        if status == sys::MFX_ERR_NONE {
            Ok(())
        } else {
            Err(Error::from_mfx(status, function))
        }
    }

    /// Accepts every non-negative status: a positive one is a warning of an operation that
    /// succeeded.
    pub fn check_mfx_allow_warn(status: i32, function: &'static str) -> (r: Result<(), Error>)
        ensures
            answer(r) == check_allow_warn(status, function@),
    {
        if status >= 0 {
            Ok(())
        } else {
            Err(Error::from_mfx(status, function))
        }
    }

    /// The error as text.
    pub fn to_string(&self) -> (r: String)
        ensures
            r@ == self@.display(),
    {
        let mut out = self.function.to_owned();
        out.append("() failed");
        if let Some(code) = self.status_code {
            out.append("[status=");
            push_signed_decimal(&mut out, code);
            out.append("]");
        }
        if self.status_name.is_some() || self.status_message.is_some() {
            out.append(": ");
        }
        if let Some(message) = &self.status_message {
            out.append(message.as_str());
        }
        if let Some(name) = self.status_name {
            if self.status_message.is_some() {
                out.append(" (");
                out.append(name);
                out.append(")");
            } else {
                out.append(name);
            }
        }
        assert(out@ =~= self@.display());
        out
    }
}

/// The answer to a status of which only `MFX_ERR_NONE` is a success.
pub open spec fn check(status: i32, function: Seq<char>) -> Result<(), ErrorView> {
    if status == sys::MFX_ERR_NONE {
        Ok(())
    } else {
        Err(ErrorView::mfx(status, function))
    }
}

/// The answer to a status of which warnings count as a success.
pub open spec fn check_allow_warn(status: i32, function: Seq<char>) -> Result<(), ErrorView> {
    if status >= 0 {
        Ok(())
    } else {
        Err(ErrorView::mfx(status, function))
    }
}

/// The status table: name and description of every status code of VPL.
/// Negative codes are errors, positive ones warnings, zero is success.
pub open spec fn status_entry(status: i32) -> Option<(Seq<char>, Seq<char>)> {
    if status == sys::MFX_ERR_NONE {
        Some(("MFX_ERR_NONE"@, "No error"@))
    } else if status == sys::MFX_ERR_UNKNOWN {
        Some(("MFX_ERR_UNKNOWN"@, "Unknown error"@))
    } else if status == sys::MFX_ERR_NULL_PTR {
        Some(("MFX_ERR_NULL_PTR"@, "Null pointer"@))
    } else if status == sys::MFX_ERR_UNSUPPORTED {
        Some(("MFX_ERR_UNSUPPORTED"@, "Unsupported feature or implementation"@))
    } else if status == sys::MFX_ERR_MEMORY_ALLOC {
        Some(("MFX_ERR_MEMORY_ALLOC"@, "Failed to allocate memory"@))
    } else if status == sys::MFX_ERR_NOT_ENOUGH_BUFFER {
        Some(("MFX_ERR_NOT_ENOUGH_BUFFER"@, "Insufficient buffer"@))
    } else if status == sys::MFX_ERR_INVALID_HANDLE {
        Some(("MFX_ERR_INVALID_HANDLE"@, "Invalid handle"@))
    } else if status == sys::MFX_ERR_LOCK_MEMORY {
        Some(("MFX_ERR_LOCK_MEMORY"@, "Failed to lock memory"@))
    } else if status == sys::MFX_ERR_NOT_INITIALIZED {
        Some(("MFX_ERR_NOT_INITIALIZED"@, "Not initialized"@))
    } else if status == sys::MFX_ERR_NOT_FOUND {
        Some(("MFX_ERR_NOT_FOUND"@, "Object not found"@))
    } else if status == sys::MFX_ERR_MORE_DATA {
        Some(("MFX_ERR_MORE_DATA"@, "More data is required to complete the operation"@))
    } else if status == sys::MFX_ERR_MORE_SURFACE {
        Some(("MFX_ERR_MORE_SURFACE"@, "More surface is required to complete the operation"@))
    } else if status == sys::MFX_ERR_ABORTED {
        Some(("MFX_ERR_ABORTED"@, "Operation aborted"@))
    } else if status == sys::MFX_ERR_DEVICE_LOST {
        Some(("MFX_ERR_DEVICE_LOST"@, "Device lost"@))
    } else if status == sys::MFX_ERR_INCOMPATIBLE_VIDEO_PARAM {
        Some(("MFX_ERR_INCOMPATIBLE_VIDEO_PARAM"@, "Incompatible video parameters"@))
    } else if status == sys::MFX_ERR_INVALID_VIDEO_PARAM {
        Some(("MFX_ERR_INVALID_VIDEO_PARAM"@, "Invalid video parameters"@))
    } else if status == sys::MFX_ERR_UNDEFINED_BEHAVIOR {
        Some(("MFX_ERR_UNDEFINED_BEHAVIOR"@, "Undefined behavior"@))
    } else if status == sys::MFX_ERR_DEVICE_FAILED {
        Some(("MFX_ERR_DEVICE_FAILED"@, "Device failed"@))
    } else if status == sys::MFX_ERR_MORE_BITSTREAM {
        Some(("MFX_ERR_MORE_BITSTREAM"@, "More bitstream data is required"@))
    } else if status == sys::MFX_ERR_GPU_HANG {
        Some(("MFX_ERR_GPU_HANG"@, "GPU hang"@))
    } else if status == sys::MFX_ERR_REALLOC_SURFACE {
        Some(("MFX_ERR_REALLOC_SURFACE"@, "Surface reallocation is required"@))
    } else if status == sys::MFX_ERR_RESOURCE_MAPPED {
        Some(("MFX_ERR_RESOURCE_MAPPED"@, "Resource already mapped"@))
    } else if status == sys::MFX_ERR_NOT_IMPLEMENTED {
        Some(("MFX_ERR_NOT_IMPLEMENTED"@, "Not implemented"@))
    } else if status == sys::MFX_ERR_MORE_EXTBUFFER {
        Some(("MFX_ERR_MORE_EXTBUFFER"@, "More extended buffers required"@))
    } else if status == sys::MFX_WRN_IN_EXECUTION {
        Some(("MFX_WRN_IN_EXECUTION"@, "Asynchronous operation is in execution"@))
    } else if status == sys::MFX_WRN_DEVICE_BUSY {
        Some(("MFX_WRN_DEVICE_BUSY"@, "The hardware acceleration device is busy"@))
    } else if status == sys::MFX_WRN_VIDEO_PARAM_CHANGED {
        Some(("MFX_WRN_VIDEO_PARAM_CHANGED"@, "Video parameters changed"@))
    } else if status == sys::MFX_WRN_PARTIAL_ACCELERATION {
        Some(("MFX_WRN_PARTIAL_ACCELERATION"@, "Partial acceleration"@))
    } else if status == sys::MFX_WRN_INCOMPATIBLE_VIDEO_PARAM {
        Some(("MFX_WRN_INCOMPATIBLE_VIDEO_PARAM"@, "Incompatible video parameters (warning)"@))
    } else if status == sys::MFX_WRN_VALUE_NOT_CHANGED {
        Some(("MFX_WRN_VALUE_NOT_CHANGED"@, "Value not changed"@))
    } else if status == sys::MFX_WRN_OUT_OF_RANGE {
        Some(("MFX_WRN_OUT_OF_RANGE"@, "Value out of range"@))
    } else if status == sys::MFX_WRN_FILTER_SKIPPED {
        Some(("MFX_WRN_FILTER_SKIPPED"@, "Filter skipped"@))
    } else if status == sys::MFX_WRN_ALLOC_TIMEOUT_EXPIRED {
        Some(("MFX_WRN_ALLOC_TIMEOUT_EXPIRED"@, "Allocation timeout expired"@))
    } else {
        None
    }
}

/// Looks a status code up in the status table.
pub fn find_status(status: i32) -> (r: Option<(&'static str, &'static str)>)
    ensures
        match r {
            Some((name, message)) => status_entry(status) == Some((name@, message@)),
            None => status_entry(status) is None,
        },
{
    if status == sys::MFX_ERR_NONE {
        Some(("MFX_ERR_NONE", "No error"))
    } else if status == sys::MFX_ERR_UNKNOWN {
        Some(("MFX_ERR_UNKNOWN", "Unknown error"))
    } else if status == sys::MFX_ERR_NULL_PTR {
        Some(("MFX_ERR_NULL_PTR", "Null pointer"))
    } else if status == sys::MFX_ERR_UNSUPPORTED {
        Some(("MFX_ERR_UNSUPPORTED", "Unsupported feature or implementation"))
    } else if status == sys::MFX_ERR_MEMORY_ALLOC {
        Some(("MFX_ERR_MEMORY_ALLOC", "Failed to allocate memory"))
    } else if status == sys::MFX_ERR_NOT_ENOUGH_BUFFER {
        Some(("MFX_ERR_NOT_ENOUGH_BUFFER", "Insufficient buffer"))
    } else if status == sys::MFX_ERR_INVALID_HANDLE {
        Some(("MFX_ERR_INVALID_HANDLE", "Invalid handle"))
    } else if status == sys::MFX_ERR_LOCK_MEMORY {
        Some(("MFX_ERR_LOCK_MEMORY", "Failed to lock memory"))
    } else if status == sys::MFX_ERR_NOT_INITIALIZED {
        Some(("MFX_ERR_NOT_INITIALIZED", "Not initialized"))
    } else if status == sys::MFX_ERR_NOT_FOUND {
        Some(("MFX_ERR_NOT_FOUND", "Object not found"))
    } else if status == sys::MFX_ERR_MORE_DATA {
        Some(("MFX_ERR_MORE_DATA", "More data is required to complete the operation"))
    } else if status == sys::MFX_ERR_MORE_SURFACE {
        Some(("MFX_ERR_MORE_SURFACE", "More surface is required to complete the operation"))
    } else if status == sys::MFX_ERR_ABORTED {
        Some(("MFX_ERR_ABORTED", "Operation aborted"))
    } else if status == sys::MFX_ERR_DEVICE_LOST {
        Some(("MFX_ERR_DEVICE_LOST", "Device lost"))
    } else if status == sys::MFX_ERR_INCOMPATIBLE_VIDEO_PARAM {
        Some(("MFX_ERR_INCOMPATIBLE_VIDEO_PARAM", "Incompatible video parameters"))
    } else if status == sys::MFX_ERR_INVALID_VIDEO_PARAM {
        Some(("MFX_ERR_INVALID_VIDEO_PARAM", "Invalid video parameters"))
    } else if status == sys::MFX_ERR_UNDEFINED_BEHAVIOR {
        Some(("MFX_ERR_UNDEFINED_BEHAVIOR", "Undefined behavior"))
    } else if status == sys::MFX_ERR_DEVICE_FAILED {
        Some(("MFX_ERR_DEVICE_FAILED", "Device failed"))
    } else if status == sys::MFX_ERR_MORE_BITSTREAM {
        Some(("MFX_ERR_MORE_BITSTREAM", "More bitstream data is required"))
    } else if status == sys::MFX_ERR_GPU_HANG {
        Some(("MFX_ERR_GPU_HANG", "GPU hang"))
    } else if status == sys::MFX_ERR_REALLOC_SURFACE {
        Some(("MFX_ERR_REALLOC_SURFACE", "Surface reallocation is required"))
    } else if status == sys::MFX_ERR_RESOURCE_MAPPED {
        Some(("MFX_ERR_RESOURCE_MAPPED", "Resource already mapped"))
    } else if status == sys::MFX_ERR_NOT_IMPLEMENTED {
        Some(("MFX_ERR_NOT_IMPLEMENTED", "Not implemented"))
    } else if status == sys::MFX_ERR_MORE_EXTBUFFER {
        Some(("MFX_ERR_MORE_EXTBUFFER", "More extended buffers required"))
    } else if status == sys::MFX_WRN_IN_EXECUTION {
        Some(("MFX_WRN_IN_EXECUTION", "Asynchronous operation is in execution"))
    } else if status == sys::MFX_WRN_DEVICE_BUSY {
        Some(("MFX_WRN_DEVICE_BUSY", "The hardware acceleration device is busy"))
    } else if status == sys::MFX_WRN_VIDEO_PARAM_CHANGED {
        Some(("MFX_WRN_VIDEO_PARAM_CHANGED", "Video parameters changed"))
    } else if status == sys::MFX_WRN_PARTIAL_ACCELERATION {
        Some(("MFX_WRN_PARTIAL_ACCELERATION", "Partial acceleration"))
    } else if status == sys::MFX_WRN_INCOMPATIBLE_VIDEO_PARAM {
        Some(("MFX_WRN_INCOMPATIBLE_VIDEO_PARAM", "Incompatible video parameters (warning)"))
    } else if status == sys::MFX_WRN_VALUE_NOT_CHANGED {
        Some(("MFX_WRN_VALUE_NOT_CHANGED", "Value not changed"))
    } else if status == sys::MFX_WRN_OUT_OF_RANGE {
        Some(("MFX_WRN_OUT_OF_RANGE", "Value out of range"))
    } else if status == sys::MFX_WRN_FILTER_SKIPPED {
        Some(("MFX_WRN_FILTER_SKIPPED", "Filter skipped"))
    } else if status == sys::MFX_WRN_ALLOC_TIMEOUT_EXPIRED {
        Some(("MFX_WRN_ALLOC_TIMEOUT_EXPIRED", "Allocation timeout expired"))
    } else {
        None
    }
}

/// A status that the strict check accepts is accepted by the lenient one, and the two answer alike
/// on every error code; they differ on warnings alone.
pub proof fn law_checks_differ_on_warnings_only(status: i32, function: Seq<char>)
    ensures
        check(status, function) is Ok ==> check_allow_warn(status, function) is Ok,
        check(status, function) != check_allow_warn(status, function) <==> status > 0,
{
}

/// The status table has the thirty-three codes of the interface, each under its own name, and no
/// other.
pub proof fn law_status_table(status: i32)
    ensures
        ({
            let entry = status_entry(status);
            &&& status == 0 ==> entry == Some(("MFX_ERR_NONE"@, "No error"@))
            &&& status == -1 ==> entry == Some(("MFX_ERR_UNKNOWN"@, "Unknown error"@))
            &&& status == -2 ==> entry == Some(("MFX_ERR_NULL_PTR"@, "Null pointer"@))
            &&& status == -3 ==> entry == Some(("MFX_ERR_UNSUPPORTED"@, "Unsupported feature or implementation"@))
            &&& status == -4 ==> entry == Some(("MFX_ERR_MEMORY_ALLOC"@, "Failed to allocate memory"@))
            &&& status == -5 ==> entry == Some(("MFX_ERR_NOT_ENOUGH_BUFFER"@, "Insufficient buffer"@))
            &&& status == -6 ==> entry == Some(("MFX_ERR_INVALID_HANDLE"@, "Invalid handle"@))
            &&& status == -7 ==> entry == Some(("MFX_ERR_LOCK_MEMORY"@, "Failed to lock memory"@))
            &&& status == -8 ==> entry == Some(("MFX_ERR_NOT_INITIALIZED"@, "Not initialized"@))
            &&& status == -9 ==> entry == Some(("MFX_ERR_NOT_FOUND"@, "Object not found"@))
            &&& status == -10 ==> entry == Some(("MFX_ERR_MORE_DATA"@, "More data is required to complete the operation"@))
            &&& status == -11 ==> entry == Some(("MFX_ERR_MORE_SURFACE"@, "More surface is required to complete the operation"@))
            &&& status == -12 ==> entry == Some(("MFX_ERR_ABORTED"@, "Operation aborted"@))
            &&& status == -13 ==> entry == Some(("MFX_ERR_DEVICE_LOST"@, "Device lost"@))
            &&& status == -14 ==> entry == Some(("MFX_ERR_INCOMPATIBLE_VIDEO_PARAM"@, "Incompatible video parameters"@))
            &&& status == -15 ==> entry == Some(("MFX_ERR_INVALID_VIDEO_PARAM"@, "Invalid video parameters"@))
            &&& status == -16 ==> entry == Some(("MFX_ERR_UNDEFINED_BEHAVIOR"@, "Undefined behavior"@))
            &&& status == -17 ==> entry == Some(("MFX_ERR_DEVICE_FAILED"@, "Device failed"@))
            &&& status == -18 ==> entry == Some(("MFX_ERR_MORE_BITSTREAM"@, "More bitstream data is required"@))
            &&& status == -21 ==> entry == Some(("MFX_ERR_GPU_HANG"@, "GPU hang"@))
            &&& status == -22 ==> entry == Some(("MFX_ERR_REALLOC_SURFACE"@, "Surface reallocation is required"@))
            &&& status == -23 ==> entry == Some(("MFX_ERR_RESOURCE_MAPPED"@, "Resource already mapped"@))
            &&& status == -24 ==> entry == Some(("MFX_ERR_NOT_IMPLEMENTED"@, "Not implemented"@))
            &&& status == -25 ==> entry == Some(("MFX_ERR_MORE_EXTBUFFER"@, "More extended buffers required"@))
            &&& status == 1 ==> entry == Some(("MFX_WRN_IN_EXECUTION"@, "Asynchronous operation is in execution"@))
            &&& status == 2 ==> entry == Some(("MFX_WRN_DEVICE_BUSY"@, "The hardware acceleration device is busy"@))
            &&& status == 3 ==> entry == Some(("MFX_WRN_VIDEO_PARAM_CHANGED"@, "Video parameters changed"@))
            &&& status == 4 ==> entry == Some(("MFX_WRN_PARTIAL_ACCELERATION"@, "Partial acceleration"@))
            &&& status == 5 ==> entry == Some(("MFX_WRN_INCOMPATIBLE_VIDEO_PARAM"@, "Incompatible video parameters (warning)"@))
            &&& status == 6 ==> entry == Some(("MFX_WRN_VALUE_NOT_CHANGED"@, "Value not changed"@))
            &&& status == 7 ==> entry == Some(("MFX_WRN_OUT_OF_RANGE"@, "Value out of range"@))
            &&& status == 10 ==> entry == Some(("MFX_WRN_FILTER_SKIPPED"@, "Filter skipped"@))
            &&& status == 13 ==> entry == Some(("MFX_WRN_ALLOC_TIMEOUT_EXPIRED"@, "Allocation timeout expired"@))
            &&& entry is Some <==> -18 <= status <= 7 || -25 <= status <= -21 || status == 10
                || status == 13
        }),
{
}

/// An error that VPL reported keeps the status and the function, and has a name and a description
/// exactly if the status is in the table.
pub proof fn law_reported_error_keeps_status_and_function(status: i32, function: Seq<char>)
    ensures
        ({
            let error = ErrorView::mfx(status, function);
            &&& error.status_code == Some(status)
            &&& error.function == function
            &&& match status_entry(status) {
                Some((name, description)) => error.status_name == Some(name)
                    && error.status_message == Some(description),
                None => error.status_name is None && error.status_message is None,
            }
        }),
{
}

/// An error of this library has its function and its message and no status; another message changes
/// nothing but the message.
pub proof fn law_own_error_has_function_and_message(
    error: ErrorView,
    function: Seq<char>,
    message: Seq<char>,
)
    ensures
        ErrorView::custom(function, message).function == function,
        ErrorView::custom(function, message).status_message == Some(message),
        ErrorView::custom(function, message).status_code is None,
        ErrorView::custom(function, message).status_name is None,
        error.with_message(message).status_message == Some(message),
        error.with_message(message).function == error.function,
        error.with_message(message).status_code == error.status_code,
        error.with_message(message).status_name == error.status_name,
{
}

/// The strict check accepts zero alone, the lenient one accepts what is not negative; what is refused
/// is reported with its status and the function.
pub proof fn law_checks_refuse_errors(status: i32, function: Seq<char>)
    ensures
        check(status, function) is Ok <==> status == 0,
        check_allow_warn(status, function) is Ok <==> status >= 0,
        check(status, function) is Err ==> check(status, function)->Err_0.status_code == Some(status)
            && check(status, function)->Err_0.function == function,
        check_allow_warn(status, function) is Err ==> check_allow_warn(
            status,
            function,
        )->Err_0.status_code == Some(status) && check_allow_warn(
            status,
            function,
        )->Err_0.function == function,
{
}

/// The text of an error is the function, then the code in brackets if there is one, then the message
/// and the name, whichever there are.
pub proof fn law_error_text(function: Seq<char>, code: i32, message: Seq<char>, name: Seq<char>)
    ensures
        ({
            let text = |code: Option<i32>, message: Option<Seq<char>>, name: Option<Seq<char>>|
                (ErrorView {
                    function,
                    status_code: code,
                    status_name: name,
                    status_message: message,
                }).display();
            let plain = function + "() failed"@;
            let coded = plain + "[status="@ + signed_decimal(code as int) + "]"@;
            &&& text(None, None, None) == plain
            &&& text(None, Some(message), None) == plain + ": "@ + message
            &&& text(None, None, Some(name)) == plain + ": "@ + name
            &&& text(None, Some(message), Some(name)) == plain + ": "@ + message + " ("@ + name + ")"@
            &&& text(Some(code), None, None) == coded
            &&& text(Some(code), Some(message), None) == coded + ": "@ + message
            &&& text(Some(code), None, Some(name)) == coded + ": "@ + name
            &&& text(Some(code), Some(message), Some(name)) == coded + ": "@ + message + " ("@ + name
                + ")"@
        }),
{
    let text = |code: Option<i32>, message: Option<Seq<char>>, name: Option<Seq<char>>|
        (ErrorView { function, status_code: code, status_name: name, status_message: message }).display();
    let plain = function + "() failed"@;
    let coded = plain + "[status="@ + signed_decimal(code as int) + "]"@;
    assert(text(None, None, None) =~= plain);
    assert(text(None, Some(message), None) =~= plain + ": "@ + message);
    assert(text(None, None, Some(name)) =~= plain + ": "@ + name);
    assert(text(None, Some(message), Some(name)) =~= plain + ": "@ + message + " ("@ + name + ")"@);
    assert(text(Some(code), None, None) =~= coded);
    assert(text(Some(code), Some(message), None) =~= coded + ": "@ + message);
    assert(text(Some(code), None, Some(name)) =~= coded + ": "@ + name);
    assert(text(Some(code), Some(message), Some(name)) =~= coded + ": "@ + message + " ("@ + name
        + ")"@);
}

/// What a step answers is its value or what its error says.
pub proof fn law_answer_is_the_result<T>(result: Result<T, Error>)
    ensures
        answer(result) is Ok <==> result is Ok,
        result matches Ok(value) ==> answer(result)->Ok_0 == value,
        result matches Err(error) ==> answer(result)->Err_0 == error@,
{
}

} // verus!
