//! The failures that end a run.

use vstd::prelude::*;
use vstd::std_specs::convert::FromSpecImpl;

verus! {

/// `std::io::Error`, the failure of a read from or a write to the terminal.
/// Nothing inside it is visible here.
#[verifier::external_type_specification]
#[verifier::external_body]
pub struct ExIoError(std::io::Error);

/// `std::sync::mpsc::SendError`, the failure of a send on a channel whose
/// receiver is gone. It holds the value that could not be sent.
#[verifier::external_type_specification]
#[verifier::external_body]
#[verifier::reject_recursive_types(T)]
pub struct ExSendError<T>(std::sync::mpsc::SendError<T>);

/// `std::sync::mpsc::RecvError`, the failure of a receive on a channel whose
/// senders are all gone.
#[verifier::external_type_specification]
#[verifier::external_body]
pub struct ExRecvError(std::sync::mpsc::RecvError);

/// A failure that ends a run.
#[derive(Debug)]
pub enum Error {
    /// Reading from or writing to the terminal failed.
    Io(std::io::Error),
    /// A bus was closed: its other end has gone away.
    SendRecv(String),
    /// A built-in message did not hold what its kind promised.
    Downcast(String),
}

impl Error {
    /// Whether `text` describes this failure: a fixed heading for its kind,
    /// followed by the detail that it carries, which for an I/O failure is
    /// the text that `std::io::Error` displays.
    pub open spec fn described_by(self, text: Seq<char>) -> bool {
        match self {
            Error::Io(err) => exists|detail: String| #[trigger]
                vstd::string::to_string_from_display_ensures::<std::io::Error>(&err, detail)
                    && text == "IO error: "@ + detail@,
            Error::SendRecv(detail) => text == "Send/Recv error: "@ + detail@,
            Error::Downcast(detail) => text == "Downcast error: "@ + detail@,
        }
    }

    /// The failure of a terminal read or write.
    pub fn io(err: std::io::Error) -> (e: Self)
        ensures
            e == Error::Io(err),
    {
        Error::Io(err)
    }

    /// The failure of a send on a closed bus.
    pub fn send(err: String) -> (e: Self)
        ensures
            e == Error::SendRecv(err),
    {
        Error::SendRecv(err)
    }

    /// The failure of a receive on a closed bus.
    pub fn recv(err: String) -> (e: Self)
        ensures
            e == Error::SendRecv(err),
    {
        Error::SendRecv(err)
    }

    /// The failure to take a built-in message apart.
    pub fn downcast(err: &str) -> (e: Self)
        ensures
            e matches Error::Downcast(detail) && detail@ == err@,
    {
        Error::Downcast(err.to_owned())
    }

    /// The text that describes this failure.
    pub fn to_string(&self) -> (text: String)
        ensures
            self.described_by(text@),
    {
        match self {
            Error::Io(err) => {
                let detail = err.to_string();
                headed("IO error: ", detail.as_str())
            },
            Error::SendRecv(detail) => headed("Send/Recv error: ", detail.as_str()),
            Error::Downcast(detail) => headed("Downcast error: ", detail.as_str()),
        }
    }
}

/// The text made of `heading` followed by `detail`.
pub fn headed(heading: &str, detail: &str) -> (text: String)
    ensures
        text@ == heading@ + detail@,
{
    let mut text = heading.to_owned();
    text.append(detail);
    text
}

impl From<std::io::Error> for Error {
    fn from(err: std::io::Error) -> (e: Self) {
        Error::Io(err)
    }
}

impl FromSpecImpl<std::io::Error> for Error {
    open spec fn obeys_from_spec() -> bool {
        true
    }

    open spec fn from_spec(err: std::io::Error) -> Self {
        Error::Io(err)
    }
}

/// The bus failure for a detail that is the text which `err` displays.
pub open spec fn bus_failure<E: std::fmt::Display>(err: E, e: Error) -> bool {
    e matches Error::SendRecv(detail) && vstd::string::to_string_from_display_ensures::<E>(
        &err,
        detail,
    )
}

impl<T> From<std::sync::mpsc::SendError<T>> for Error {
    /// A failed send becomes a bus failure whose detail is the text that the
    /// send error displays.
    fn from(err: std::sync::mpsc::SendError<T>) -> (e: Self)
        ensures
            bus_failure(err, e),
    {
        Error::SendRecv(err.to_string())
    }
}

impl<T> FromSpecImpl<std::sync::mpsc::SendError<T>> for Error {
    open spec fn obeys_from_spec() -> bool {
        false
    }

    open spec fn from_spec(err: std::sync::mpsc::SendError<T>) -> Self {
        Error::SendRecv(
            choose|detail: String| bus_failure(err, Error::SendRecv(detail)),
        )
    }
}

impl From<std::sync::mpsc::RecvError> for Error {
    /// A failed receive becomes a bus failure whose detail is the text that
    /// the receive error displays.
    fn from(err: std::sync::mpsc::RecvError) -> (e: Self)
        ensures
            bus_failure(err, e),
    {
        Error::SendRecv(err.to_string())
    }
}

impl FromSpecImpl<std::sync::mpsc::RecvError> for Error {
    open spec fn obeys_from_spec() -> bool {
        false
    }

    open spec fn from_spec(err: std::sync::mpsc::RecvError) -> Self {
        Error::SendRecv(
            choose|detail: String| bus_failure(err, Error::SendRecv(detail)),
        )
    }
}

} // verus!
