//! Errors of the transport layer.
use vstd::prelude::*;

verus! {

/// An error of the transport layer.
pub enum TransportError {
    /// A network failure, such as a lost connection.
    NetworkError(String),
    /// A protocol failure, such as a malformed message.
    ProtocolError(String),
    /// A failure inside the server.
    InternalError(String),
    /// Missing or wrong configuration.
    ConfigurationError(String),
}

impl TransportError {
    pub fn network_error(msg: String) -> (r: Self)
        ensures
            r == TransportError::NetworkError(msg),
    {
        TransportError::NetworkError(msg)
    }

    pub fn protocol_error(msg: String) -> (r: Self)
        ensures
            r == TransportError::ProtocolError(msg),
    {
        TransportError::ProtocolError(msg)
    }

    pub fn internal_error(msg: String) -> (r: Self)
        ensures
            r == TransportError::InternalError(msg),
    {
        TransportError::InternalError(msg)
    }

    pub fn configuration_error(msg: String) -> (r: Self)
        ensures
            r == TransportError::ConfigurationError(msg),
    {
        TransportError::ConfigurationError(msg)
    }

    /// The text of the error: its kind, then its message.
    pub open spec fn describe_spec(&self) -> Seq<char> {
        match self {
            TransportError::NetworkError(m) => "Network error: "@ + m@,
            TransportError::ProtocolError(m) => "Protocol error: "@ + m@,
            TransportError::InternalError(m) => "Internal error: "@ + m@,
            TransportError::ConfigurationError(m) => "Configuration error: "@ + m@,
        }
    }

    /// The text of the error: its kind, then its message.
    pub fn describe(&self) -> (r: String)
        ensures
            r@ == self.describe_spec(),
    {
        let (prefix, m) = match self {
            TransportError::NetworkError(m) => ("Network error: ", m),
            TransportError::ProtocolError(m) => ("Protocol error: ", m),
            TransportError::InternalError(m) => ("Internal error: ", m),
            TransportError::ConfigurationError(m) => ("Configuration error: ", m),
        };
        let mut r = String::from_str(prefix);
        r.append(m.as_str());
        r
    }
}

} // verus!
