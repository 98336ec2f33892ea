//! The errors a call can end in, shared by the serving and the calling side.
//!
//! On the wire an error is tagged with the name of its variant, so the
//! calling side rebuilds the very variant the serving side sent. The status
//! of the response follows from the variant alone: 400 where the request was
//! at fault (`Deserialization`, `AppError`), 500 for everything else.

use crate::text::{decimal, push_decimal, str_equal};
use vstd::prelude::*;
use vstd::string::StringExecFns;

verus! {

/// Status of a response that carries a result.
pub const STATUS_OK: u16 = 200;

/// Status of an error for which the request was at fault.
pub const STATUS_BAD_REQUEST: u16 = 400;

/// Status of every other error.
pub const STATUS_INTERNAL_ERROR: u16 = 500;

/// The variant of an error, without what it carries.
#[derive(Debug, Clone, Copy, PartialEq, Eq, Structural)]
pub enum ErrorKind {
    Serialization,
    Deserialization,
    Transport,
    ServerStatus,
    Custom,
    AppError,
}

/// An error of a call across the boundary. `E` is the application's own
/// error type, for errors that carry data of the domain.
#[derive(Debug, Clone, PartialEq, Eq)]
pub enum ServerFnError<E = ()> {
    /// A value could not be encoded; the detail says why.
    Serialization(String),
    /// Bytes could not be decoded; the detail says why.
    Deserialization(String),
    /// The connection could not be made or the request not sent.
    Transport(String),
    /// The server answered with this status, outside 200..=299, and with no
    /// error that could be decoded.
    ServerStatus(u16),
    /// An error described by a message alone.
    Custom(String),
    /// An error of the application.
    AppError(E),
}

/// What an error is, with its texts as character sequences.
pub enum ErrorModel<E> {
    Serialization(Seq<char>),
    Deserialization(Seq<char>),
    Transport(Seq<char>),
    ServerStatus(u16),
    Custom(Seq<char>),
    AppError(E),
}

impl<E> View for ServerFnError<E> {
    type V = ErrorModel<E>;

    open spec fn view(&self) -> ErrorModel<E> {
        match *self {
            ServerFnError::Serialization(detail) => ErrorModel::Serialization(detail@),
            ServerFnError::Deserialization(detail) => ErrorModel::Deserialization(detail@),
            ServerFnError::Transport(detail) => ErrorModel::Transport(detail@),
            ServerFnError::ServerStatus(code) => ErrorModel::ServerStatus(code),
            ServerFnError::Custom(message) => ErrorModel::Custom(message@),
            ServerFnError::AppError(error) => ErrorModel::AppError(error),
        }
    }
}

impl<E> ErrorModel<E> {
    /// The variant of this error.
    pub open spec fn kind(self) -> ErrorKind {
        match self {
            ErrorModel::Serialization(_) => ErrorKind::Serialization,
            ErrorModel::Deserialization(_) => ErrorKind::Deserialization,
            ErrorModel::Transport(_) => ErrorKind::Transport,
            ErrorModel::ServerStatus(_) => ErrorKind::ServerStatus,
            ErrorModel::Custom(_) => ErrorKind::Custom,
            ErrorModel::AppError(_) => ErrorKind::AppError,
        }
    }

    /// The text that describes this error to a reader.
    pub open spec fn message(self) -> Seq<char> {
        match self {
            ErrorModel::Serialization(detail) => "Serialization error: "@ + detail,
            ErrorModel::Deserialization(detail) => "Deserialization error: "@ + detail,
            ErrorModel::Transport(detail) => "Transport error: "@ + detail,
            ErrorModel::ServerStatus(code) => "Server error: status "@ + decimal(code as nat),
            ErrorModel::Custom(message) => "Custom error: "@ + message,
            ErrorModel::AppError(_) => "Application error"@,
        }
    }

    /// The error with the application's error type exchanged, for an error
    /// that carries no application data; such data, the unit value, becomes
    /// a `Custom` error.
    pub open spec fn into_any<F>(self) -> ErrorModel<F> {
        match self {
            ErrorModel::Serialization(detail) => ErrorModel::Serialization(detail),
            ErrorModel::Deserialization(detail) => ErrorModel::Deserialization(detail),
            ErrorModel::Transport(detail) => ErrorModel::Transport(detail),
            ErrorModel::ServerStatus(code) => ErrorModel::ServerStatus(code),
            ErrorModel::Custom(message) => ErrorModel::Custom(message),
            ErrorModel::AppError(_) => ErrorModel::Custom("unknown error"@),
        }
    }
}

impl ErrorKind {
    /// The status of a response that carries an error of this kind.
    pub open spec fn spec_status(self) -> u16 {
        match self {
            ErrorKind::Deserialization | ErrorKind::AppError => STATUS_BAD_REQUEST,
            _ => STATUS_INTERNAL_ERROR,
        }
    }

    /// The tag that stands for this kind on the wire.
    pub open spec fn spec_wire_tag(self) -> Seq<char> {
        match self {
            ErrorKind::Serialization => "Serialization"@,
            ErrorKind::Deserialization => "Deserialization"@,
            ErrorKind::Transport => "Transport"@,
            ErrorKind::ServerStatus => "ServerStatus"@,
            ErrorKind::Custom => "Custom"@,
            ErrorKind::AppError => "AppError"@,
        }
    }

    /// The status of a response that carries an error of this kind.
    pub fn status(self) -> (status: u16)
        ensures
            status == self.spec_status(),
            status == STATUS_BAD_REQUEST || status == STATUS_INTERNAL_ERROR,
    {
        match self {
            ErrorKind::Deserialization | ErrorKind::AppError => STATUS_BAD_REQUEST,
            _ => STATUS_INTERNAL_ERROR,
        }
    }

    /// The tag that stands for this kind on the wire.
    pub fn wire_tag(self) -> (tag: &'static str)
        ensures
            tag@ == self.spec_wire_tag(),
    {
        match self {
            ErrorKind::Serialization => "Serialization",
            ErrorKind::Deserialization => "Deserialization",
            ErrorKind::Transport => "Transport",
            ErrorKind::ServerStatus => "ServerStatus",
            ErrorKind::Custom => "Custom",
            ErrorKind::AppError => "AppError",
        }
    }
}

impl<E> ServerFnError<E> {
    /// An error of the application, which travels to the calling side with
    /// its data.
    pub fn app_error(error: E) -> (wrapped: Self)
        ensures
            wrapped == ServerFnError::AppError(error),
    {
        ServerFnError::AppError(error)
    }

    /// The variant of this error.
    pub fn kind(&self) -> (kind: ErrorKind)
        ensures
            kind == self@.kind(),
    {
        match self {
            ServerFnError::Serialization(_) => ErrorKind::Serialization,
            ServerFnError::Deserialization(_) => ErrorKind::Deserialization,
            ServerFnError::Transport(_) => ErrorKind::Transport,
            ServerFnError::ServerStatus(_) => ErrorKind::ServerStatus,
            ServerFnError::Custom(_) => ErrorKind::Custom,
            ServerFnError::AppError(_) => ErrorKind::AppError,
        }
    }

    /// The status of the response that carries this error.
    pub fn status_code(&self) -> (status: u16)
        ensures
            status == self@.kind().spec_status(),
    {
        self.kind().status()
    }

    /// The text that describes this error to a reader.
    pub fn message(&self) -> (text: String)
        ensures
            text@ == self@.message(),
    {
        match self {
            ServerFnError::Serialization(detail) => String::from_str("Serialization error: ").concat(
                detail.as_str(),
            ),
            ServerFnError::Deserialization(detail) => String::from_str(
                "Deserialization error: ",
            ).concat(detail.as_str()),
            ServerFnError::Transport(detail) => String::from_str("Transport error: ").concat(
                detail.as_str(),
            ),
            ServerFnError::ServerStatus(code) => {
                let mut text = String::from_str("Server error: status ");
                push_decimal(&mut text, *code as u64);
                text
            },
            ServerFnError::Custom(message) => String::from_str("Custom error: ").concat(
                message.as_str(),
            ),
            ServerFnError::AppError(_) => String::from_str("Application error"),
        }
    }
}

impl<E> ServerFnError<E> {
    /// This error with its application error converted by `convert`; any
    /// other error as it is.
    pub fn map_app_error<F, M: FnOnce(E) -> F>(self, convert: M) -> (mapped: ServerFnError<F>)
        requires
            self matches ServerFnError::AppError(error) ==> convert.requires((error,)),
        ensures
            match self {
                ServerFnError::Serialization(detail) => mapped == ServerFnError::<
                    F,
                >::Serialization(detail),
                ServerFnError::Deserialization(detail) => mapped == ServerFnError::<
                    F,
                >::Deserialization(detail),
                ServerFnError::Transport(detail) => mapped == ServerFnError::<F>::Transport(detail),
                ServerFnError::ServerStatus(code) => mapped == ServerFnError::<F>::ServerStatus(
                    code,
                ),
                ServerFnError::Custom(message) => mapped == ServerFnError::<F>::Custom(message),
                ServerFnError::AppError(error) => mapped matches ServerFnError::AppError(converted)
                    && convert.ensures((error,), converted),
            },
    {
        match self {
            ServerFnError::Serialization(detail) => ServerFnError::Serialization(detail),
            ServerFnError::Deserialization(detail) => ServerFnError::Deserialization(detail),
            ServerFnError::Transport(detail) => ServerFnError::Transport(detail),
            ServerFnError::ServerStatus(code) => ServerFnError::ServerStatus(code),
            ServerFnError::Custom(message) => ServerFnError::Custom(message),
            ServerFnError::AppError(error) => ServerFnError::AppError(convert(error)),
        }
    }
}

impl ServerFnError<()> {
    /// Turns an error without application data into an error of any
    /// application type, as error propagation needs it.
    pub fn into_any<E>(self) -> (any: ServerFnError<E>)
        ensures
            any@ == self@.into_any::<E>(),
    {
        match self {
            ServerFnError::Serialization(detail) => ServerFnError::Serialization(detail),
            ServerFnError::Deserialization(detail) => ServerFnError::Deserialization(detail),
            ServerFnError::Transport(detail) => ServerFnError::Transport(detail),
            ServerFnError::ServerStatus(code) => ServerFnError::ServerStatus(code),
            ServerFnError::Custom(message) => ServerFnError::Custom(message),
            ServerFnError::AppError(_) => ServerFnError::Custom(String::from_str("unknown error")),
        }
    }
}

impl<E> From<String> for ServerFnError<E> {
    fn from(message: String) -> (error: Self) {
        ServerFnError::Custom(message)
    }
}

impl<E> vstd::std_specs::convert::FromSpecImpl<String> for ServerFnError<E> {
    open spec fn obeys_from_spec() -> bool {
        true
    }

    open spec fn from_spec(message: String) -> Self {
        ServerFnError::Custom(message)
    }
}

/// An error described by `message` alone.
pub fn custom_error<E>(message: &str) -> (error: ServerFnError<E>)
    ensures
        error@ == ErrorModel::<E>::Custom(message@),
{
    ServerFnError::Custom(String::from_str(message))
}

/// The kind that a wire tag stands for, or `None` for a text that is no
/// tag.
pub fn kind_from_wire_tag(tag: &str) -> (kind: Option<ErrorKind>)
    ensures
        kind == kind_of_tag(tag@),
{
    if str_equal(tag, "Serialization") {
        Some(ErrorKind::Serialization)
    } else if str_equal(tag, "Deserialization") {
        Some(ErrorKind::Deserialization)
    } else if str_equal(tag, "Transport") {
        Some(ErrorKind::Transport)
    } else if str_equal(tag, "ServerStatus") {
        Some(ErrorKind::ServerStatus)
    } else if str_equal(tag, "Custom") {
        Some(ErrorKind::Custom)
    } else if str_equal(tag, "AppError") {
        Some(ErrorKind::AppError)
    } else {
        None
    }
}

/// The tag on the wire names the variant and nothing else: the kind read
/// back from the tag of a kind is that kind, so the calling side rebuilds
/// the variant the serving side sent.
pub proof fn lemma_wire_tags_round_trip(kind: ErrorKind)
    ensures
        kind_of_tag(kind.spec_wire_tag()) == Some(kind),
{
    reveal_strlit("Serialization");
    reveal_strlit("Deserialization");
    reveal_strlit("Transport");
    reveal_strlit("ServerStatus");
    reveal_strlit("Custom");
    reveal_strlit("AppError");
    assert("Serialization"@.len() == 13);
    assert("Deserialization"@.len() == 15);
    assert("Transport"@.len() == 9);
    assert("ServerStatus"@.len() == 12);
    assert("Custom"@.len() == 6);
    assert("AppError"@.len() == 8);
}

/// The kind that a wire tag stands for.
pub open spec fn kind_of_tag(tag: Seq<char>) -> Option<ErrorKind> {
    if tag == "Serialization"@ {
        Some(ErrorKind::Serialization)
    } else if tag == "Deserialization"@ {
        Some(ErrorKind::Deserialization)
    } else if tag == "Transport"@ {
        Some(ErrorKind::Transport)
    } else if tag == "ServerStatus"@ {
        Some(ErrorKind::ServerStatus)
    } else if tag == "Custom"@ {
        Some(ErrorKind::Custom)
    } else if tag == "AppError"@ {
        Some(ErrorKind::AppError)
    } else {
        None
    }
}

} // verus!
