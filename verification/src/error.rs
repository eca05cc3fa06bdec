//! Errors of the client.

use vstd::prelude::*;

verus! {

/// An error of the client itself; errors of the transport are carried as they are.
#[derive(Debug)]
pub enum Error {
    /// The device, or the connection to it, is not usable
    Device(String),
}

impl Error {
    /// A device error with the given message
    pub fn device(message: String) -> (error: Self)
        ensures
            error == Error::Device(message),
    {
        Error::Device(message)
    }

    /// A device error whose message is `lead` followed by `text`
    pub fn device_with(lead: &str, text: &str) -> (error: Self)
        ensures
            error matches Error::Device(message) && message@ == lead@ + text@,
    {
        let mut message = lead.to_owned();
        message.append(text);
        Error::device(message)
    }

    /// The message of the error
    pub fn message(&self) -> (message: &str)
        ensures
            self matches Error::Device(text) && message@ == text@,
    {
        match self {
            Error::Device(text) => text.as_str(),
        }
    }
}

} // verus!
