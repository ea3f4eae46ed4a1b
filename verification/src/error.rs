//! What can go wrong while listening and connecting.

use vstd::prelude::*;

verus! {

/// A failure that ends the listener or a connection attempt.
#[derive(Clone, Debug, PartialEq, Eq)]
pub enum Error {
    /// An event of the central service could not be decoded. Holds the
    /// transport's own words.
    EventDecoding(String),
    /// No channel pair could be made for the GATT client.
    EndpointCreation,
    /// The connect request could not be delivered or answered. Holds the
    /// transport's own words.
    ConnectRequest(String),
    /// The service answered the connect request with a failure, with or
    /// without a description.
    Peripheral(Option<String>),
    /// The GATT loop that ran on the connection ended in a failure. Holds
    /// its words.
    GattLoop(String),
}

/// A failure as plain mathematical values.
pub ghost enum ErrorView {
    EventDecoding(Seq<char>),
    EndpointCreation,
    ConnectRequest(Seq<char>),
    Peripheral(Option<Seq<char>>),
    GattLoop(Seq<char>),
}

impl View for Error {
    type V = ErrorView;

    open spec fn view(&self) -> ErrorView {
        match self {
            Error::EventDecoding(e) => ErrorView::EventDecoding(e@),
            Error::EndpointCreation => ErrorView::EndpointCreation,
            Error::ConnectRequest(e) => ErrorView::ConnectRequest(e@),
            Error::Peripheral(d) => ErrorView::Peripheral(
                match d {
                    Some(t) => Some(t@),
                    None => None,
                },
            ),
            Error::GattLoop(e) => ErrorView::GattLoop(e@),
        }
    }
}

/// The outcome of the listener or of a connection attempt, as plain values.
pub open spec fn outcome_view(r: Result<(), Error>) -> Result<(), ErrorView> {
    match r {
        Ok(_) => Ok(()),
        Err(e) => Err(e@),
    }
}

/// The description of a failed connection: the service's own where it gave
/// one.
pub open spec fn description_text(d: Option<Seq<char>>) -> Seq<char> {
    match d {
        Some(t) => t,
        None => "unknown error"@,
    }
}

/// The words of a failure.
pub open spec fn message_text(e: ErrorView) -> Seq<char> {
    match e {
        ErrorView::EventDecoding(t) => t,
        ErrorView::EndpointCreation => "Failed to create Client pair"@,
        ErrorView::ConnectRequest(t) => "failed to initiate connect request: "@ + t,
        ErrorView::Peripheral(d) => description_text(d),
        ErrorView::GattLoop(t) => t,
    }
}

/// The description of a failed connection as text.
pub fn describe(description: &Option<String>) -> (s: String)
    ensures
        s@ == description_text(
            match *description {
                Some(t) => Some(t@),
                None => None,
            },
        ),
{
    match description {
        Some(t) => t.clone(),
        None => String::from_str("unknown error"),
    }
}

impl Error {
    /// The words of this failure.
    pub fn message(&self) -> (s: String)
        ensures
            s@ == message_text(self@),
    {
        match self {
            Error::EventDecoding(t) => t.clone(),
            Error::EndpointCreation => String::from_str("Failed to create Client pair"),
            Error::ConnectRequest(t) => {
                let mut s = String::from_str("failed to initiate connect request: ");
                s.append(t.as_str());
                s
            },
            Error::Peripheral(d) => describe(d),
            Error::GattLoop(t) => t.clone(),
        }
    }
}

} // verus!
