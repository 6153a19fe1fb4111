use vstd::prelude::*;

verus! {

/// The failures that a call surfaces to its caller.
pub enum ApiError {
    /// The typed request could not be turned into a wire request.
    Serialize(telegram_bot_raw::Error),
    /// The connector failed: network, TLS, I/O, or an HTTP status with no
    /// API envelope. The text says what happened.
    Transport(String),
    /// The reply was an error envelope of the API, or could not be read as
    /// the expected response type.
    Deserialize(telegram_bot_raw::Error),
}

impl ApiError {
    /// Whether the connector reported this failure.
    pub fn is_transport(&self) -> (r: bool)
        ensures
            r == (self is Transport),
    {
        match self {
            ApiError::Transport(_) => true,
            _ => false,
        }
    }
}

} // verus!
