//! Error kinds of the pipeline and their rendering as responses.

use vstd::prelude::*;
use vstd::string::StringExecFns;

use crate::text::{dec_digits, u64_to_string};

verus! {

/// Main error type for the pipeline.
#[derive(Debug)]
pub enum AppError {
    /// File or stream read/write failure.
    Io(String),
    /// Image decoding failure.
    Image(String),
    /// Video decoding toolchain failure during a run.
    Ffmpeg(String),
    /// The video decoding toolchain is not installed at all.
    ToolchainUnavailable(String),
    /// A persisted manifest could not be parsed.
    Json(String),
    /// Configuration error.
    Config(String),
    /// Invalid input parameters.
    InvalidInput(String),
    /// Resource not found.
    NotFound(String),
    /// Validation error.
    Validation(String),
    /// Authentication or authorization error.
    Auth(String),
    /// Rate limiting error.
    RateLimit {
        /// The error message.
        message: String,
        /// The number of seconds to wait before retrying.
        retry_after: Option<u64>,
    },
    /// Upload error.
    UploadError(String),
    /// Internal error.
    Internal(String),
}

/// The message an error renders to.
pub open spec fn error_message(e: AppError) -> Seq<char> {
    match e {
        AppError::Io(s) => "I/O error: "@ + s@,
        AppError::Image(s) => "Image error: "@ + s@,
        AppError::Ffmpeg(s) => "FFmpeg error: "@ + s@,
        AppError::ToolchainUnavailable(s) => "Decoder unavailable: "@ + s@,
        AppError::Json(s) => "JSON error: "@ + s@,
        AppError::Config(s) => "Configuration error: "@ + s@,
        AppError::InvalidInput(s) => "Invalid input: "@ + s@,
        AppError::NotFound(s) => "Not found: "@ + s@,
        AppError::Validation(s) => "Validation error: "@ + s@,
        AppError::Auth(s) => "Authentication error: "@ + s@,
        AppError::RateLimit { message, .. } => "Rate limit exceeded: "@ + message@,
        AppError::UploadError(s) => "Upload error: "@ + s@,
        AppError::Internal(s) => "Internal server error: "@ + s@,
    }
}

/// The HTTP status an error maps to.
pub open spec fn status_code_of(e: AppError) -> u16 {
    match e {
        AppError::InvalidInput(_) => 400,
        AppError::Validation(_) => 400,
        AppError::NotFound(_) => 404,
        AppError::Auth(_) => 401,
        AppError::RateLimit { .. } => 429,
        _ => 500,
    }
}

/// Standard error response format.
#[derive(Debug)]
pub struct ErrorResponse {
    /// Error code (HTTP status code).
    pub code: u16,
    /// Error message.
    pub message: String,
    /// Optional error details.
    pub details: Option<String>,
}

impl AppError {
    /// The human-readable message of this error, one fixed prefix per kind
    /// followed by the carried detail.
    pub fn message(&self) -> (r: String)
        ensures
            r@ == error_message(*self),
    {
        match self {
            AppError::Io(s) => String::from_str("I/O error: ").concat(s.as_str()),
            AppError::Image(s) => String::from_str("Image error: ").concat(s.as_str()),
            AppError::Ffmpeg(s) => String::from_str("FFmpeg error: ").concat(s.as_str()),
            AppError::ToolchainUnavailable(s) => String::from_str("Decoder unavailable: ").concat(
                s.as_str(),
            ),
            AppError::Json(s) => String::from_str("JSON error: ").concat(s.as_str()),
            AppError::Config(s) => String::from_str("Configuration error: ").concat(s.as_str()),
            AppError::InvalidInput(s) => String::from_str("Invalid input: ").concat(s.as_str()),
            AppError::NotFound(s) => String::from_str("Not found: ").concat(s.as_str()),
            AppError::Validation(s) => String::from_str("Validation error: ").concat(s.as_str()),
            AppError::Auth(s) => String::from_str("Authentication error: ").concat(s.as_str()),
            AppError::RateLimit { message, .. } => String::from_str(
                "Rate limit exceeded: ",
            ).concat(message.as_str()),
            AppError::UploadError(s) => String::from_str("Upload error: ").concat(s.as_str()),
            AppError::Internal(s) => String::from_str("Internal server error: ").concat(s.as_str()),
        }
    }

    /// The HTTP status code for this error: 400 for invalid input and
    /// validation, 404 for not found, 401 for authentication, 429 for rate
    /// limiting, 500 for everything else.
    pub fn status_code(&self) -> (r: u16)
        ensures
            r == status_code_of(*self),
    {
        match self {
            AppError::InvalidInput(_) => 400,
            AppError::Validation(_) => 400,
            AppError::NotFound(_) => 404,
            AppError::Auth(_) => 401,
            AppError::RateLimit { .. } => 429,
            _ => 500,
        }
    }

    /// Converts the error to a response value: the status code, the message
    /// (for rate limiting, the carried message alone), and, for rate limiting
    /// with a known retry time, a detail line naming the seconds to wait.
    pub fn to_json(&self) -> (r: ErrorResponse)
        ensures
            r.code == status_code_of(*self),
            match *self {
                AppError::RateLimit { message, retry_after } => {
                    &&& r.message@ == message@
                    &&& match retry_after {
                        Some(secs) => {
                            &&& r.details is Some
                            &&& r.details->Some_0@ == "Retry after "@ + dec_digits(secs as nat)
                                + " seconds"@
                        },
                        None => r.details is None,
                    }
                },
                _ => r.message@ == error_message(*self) && r.details is None,
            },
    {
        let code = self.status_code();
        match self {
            AppError::RateLimit { message, retry_after } => {
                let details = match retry_after {
                    Some(secs) => Some(
                        String::from_str("Retry after ").concat(
                            u64_to_string(*secs).as_str(),
                        ).concat(" seconds"),
                    ),
                    None => None,
                };
                ErrorResponse { code, message: message.clone(), details }
            },
            _ => ErrorResponse { code, message: self.message(), details: None },
        }
    }
}

/// Extension trait for converting failures into `AppError::Internal` with a
/// caller-supplied context prefix.
pub trait ResultExt<T>: Sized {
    /// The carried success value, if any.
    spec fn success(&self) -> Option<T>;

    /// The carried error, if any.
    spec fn failure(&self) -> Option<AppError>;

    /// Adds context to an error: the success value passes through unchanged;
    /// an error becomes `Internal` with message `context: original message`.
    fn context(self, context: &str) -> (r: Result<T, AppError>)
        ensures
            match self.success() {
                Some(v) => r == Ok::<T, AppError>(v),
                None => {
                    &&& self.failure() is Some
                    &&& r is Err
                    &&& r->Err_0 is Internal
                    &&& r->Err_0->Internal_0@ == context@ + ": "@ + error_message(
                        self.failure()->Some_0,
                    )
                },
            },
    ;

    /// Adds lazily computed context to an error: the success value passes
    /// through unchanged; an error becomes `Internal` with message
    /// `f(): original message`, where `f` runs only on the error path.
    fn with_context<F: FnOnce() -> String>(self, f: F) -> (r: Result<T, AppError>)
        requires
            self.success() is None ==> call_requires(f, ()),
        ensures
            match self.success() {
                Some(v) => r == Ok::<T, AppError>(v),
                None => {
                    &&& self.failure() is Some
                    &&& r is Err
                    &&& r->Err_0 is Internal
                    &&& exists|m: String|
                        call_ensures(f, (), m) && r->Err_0->Internal_0@ == m@ + ": "@
                            + error_message(self.failure()->Some_0)
                },
            },
    ;
}

impl<T> ResultExt<T> for Result<T, AppError> {
    open spec fn success(&self) -> Option<T> {
        match *self {
            Ok(v) => Some(v),
            Err(_) => None,
        }
    }

    open spec fn failure(&self) -> Option<AppError> {
        match *self {
            Ok(_) => None,
            Err(e) => Some(e),
        }
    }

    fn context(self, context: &str) -> (r: Result<T, AppError>) {
        match self {
            Ok(v) => Ok(v),
            Err(e) => {
                let msg = String::from_str(context).concat(": ").concat(e.message().as_str());
                Err(AppError::Internal(msg))
            },
        }
    }

    fn with_context<F: FnOnce() -> String>(self, f: F) -> (r: Result<T, AppError>) {
        match self {
            Ok(v) => Ok(v),
            Err(e) => {
                let context = f();
                let msg = context.concat(": ").concat(e.message().as_str());
                Err(AppError::Internal(msg))
            },
        }
    }
}

} // verus!
