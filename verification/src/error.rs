//! The error taxonomy: every failure of a run is either an I/O error or a
//! transport error, and carries a description a person can read.

use vstd::prelude::*;
use vstd::std_specs::convert::FromSpecImpl;

verus! {

/// The condition an I/O error reports.
#[derive(Clone, Copy, Debug, PartialEq, Eq, Structural)]
pub enum IoKind {
    /// Something that was looked for is not there.
    NotFound,
    /// Data was read but is not what it has to be.
    InvalidData,
    /// Something that was to be created is already there.
    AlreadyExists,
    /// Any other condition the operating system reported.
    Other,
}

/// Why a run was aborted.
#[derive(Clone, Debug, PartialEq, Eq)]
pub enum RuntimeError {
    /// A file system or process failure, or a condition found by the library itself.
    Io { kind: IoKind, message: String },
    /// A failure of the transport that fetches URLs.
    Curl { code: u32, message: String },
}

/// The mathematical value of a [`RuntimeError`].
#[verifier::ext_equal]
pub enum ErrorView {
    Io { kind: IoKind, message: Seq<char> },
    Curl { code: u32, message: Seq<char> },
}

/// What a step of a run comes to.
pub type AppResult<T> = Result<T, RuntimeError>;

impl View for RuntimeError {
    type V = ErrorView;

    open spec fn view(&self) -> ErrorView {
        match self {
            RuntimeError::Io { kind, message } => ErrorView::Io { kind: *kind, message: message@ },
            RuntimeError::Curl { code, message } => ErrorView::Curl {
                code: *code,
                message: message@,
            },
        }
    }
}

/// The view of an I/O error of condition `kind` described by `message`.
pub open spec fn io_error(kind: IoKind, message: Seq<char>) -> ErrorView {
    ErrorView::Io { kind, message }
}

impl RuntimeError {
    /// The description of the error, as it is shown to the user.
    pub fn message(&self) -> (text: String)
        ensures
            text@ == match self@ {
                ErrorView::Io { message, .. } => message,
                ErrorView::Curl { message, .. } => message,
            },
    {
        match self {
            RuntimeError::Io { message, .. } => message.clone(),
            RuntimeError::Curl { message, .. } => message.clone(),
        }
    }
}

/// Something that was looked for is not there.
pub struct NotFound {
    message: String,
}

impl View for NotFound {
    type V = Seq<char>;

    closed spec fn view(&self) -> Seq<char> {
        self.message@
    }
}

impl NotFound {
    /// The condition, described by `error`.
    pub fn new(error: &str) -> (made: Self)
        ensures
            made@ == error@,
    {
        NotFound { message: error.to_owned() }
    }
}

impl From<NotFound> for RuntimeError {
    fn from(err: NotFound) -> (made: Self)
        ensures
            made@ == io_error(IoKind::NotFound, err@),
    {
        RuntimeError::Io { kind: IoKind::NotFound, message: err.message }
    }
}

impl FromSpecImpl<NotFound> for RuntimeError {
    open spec fn obeys_from_spec() -> bool {
        true
    }

    closed spec fn from_spec(err: NotFound) -> Self {
        RuntimeError::Io { kind: IoKind::NotFound, message: err.message }
    }
}

/// Data was read but is not what it has to be.
pub struct InvalidData {
    message: String,
}

impl View for InvalidData {
    type V = Seq<char>;

    closed spec fn view(&self) -> Seq<char> {
        self.message@
    }
}

impl InvalidData {
    /// The condition, described by `error`.
    pub fn new(error: &str) -> (made: Self)
        ensures
            made@ == error@,
    {
        InvalidData { message: error.to_owned() }
    }
}

impl From<InvalidData> for RuntimeError {
    fn from(err: InvalidData) -> (made: Self)
        ensures
            made@ == io_error(IoKind::InvalidData, err@),
    {
        RuntimeError::Io { kind: IoKind::InvalidData, message: err.message }
    }
}

impl FromSpecImpl<InvalidData> for RuntimeError {
    open spec fn obeys_from_spec() -> bool {
        true
    }

    closed spec fn from_spec(err: InvalidData) -> Self {
        RuntimeError::Io { kind: IoKind::InvalidData, message: err.message }
    }
}

/// Something that was to be created is already there.
pub struct AlreadyExists {
    message: String,
}

impl View for AlreadyExists {
    type V = Seq<char>;

    closed spec fn view(&self) -> Seq<char> {
        self.message@
    }
}

impl AlreadyExists {
    /// The condition, described by `error`.
    pub fn new(error: &str) -> (made: Self)
        ensures
            made@ == error@,
    {
        AlreadyExists { message: error.to_owned() }
    }
}

impl From<AlreadyExists> for RuntimeError {
    fn from(err: AlreadyExists) -> (made: Self)
        ensures
            made@ == io_error(IoKind::AlreadyExists, err@),
    {
        RuntimeError::Io { kind: IoKind::AlreadyExists, message: err.message }
    }
}

impl FromSpecImpl<AlreadyExists> for RuntimeError {
    open spec fn obeys_from_spec() -> bool {
        true
    }

    closed spec fn from_spec(err: AlreadyExists) -> Self {
        RuntimeError::Io { kind: IoKind::AlreadyExists, message: err.message }
    }
}

/// Turns absence into a not-found error.
pub trait NotFoundExt<T>: Sized {
    /// The value that is there, if any.
    spec fn present(self) -> Option<T>;

    /// The value that is there, or else a not-found error described by `error`.
    fn ok_or_not_found(self, error: &str) -> (found: AppResult<T>)
        ensures
            match self.present() {
                Some(value) => found == Ok::<T, RuntimeError>(value),
                None => found is Err && found->Err_0@ == io_error(IoKind::NotFound, error@),
            },
    ;
}

impl<T> NotFoundExt<T> for Option<T> {
    open spec fn present(self) -> Option<T> {
        self
    }

    fn ok_or_not_found(self, error: &str) -> (found: AppResult<T>) {
        match self {
            Some(value) => Ok(value),
            None => Err(RuntimeError::from(NotFound::new(error))),
        }
    }
}

}
