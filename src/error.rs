use vstd::prelude::*;

verus! {

/// The authentication method that was attempted for a session.
#[derive(Clone, Copy, Debug, PartialEq, Eq, Structural)]
pub enum AuthMethod {
    PublicKey,
    Password,
}

/// Structured failures of the remote operations.
#[derive(Clone, Copy, Debug, PartialEq, Eq, Structural)]
pub enum RemoteError {
    /// The TCP socket could not be established.
    Network,
    /// The transport handshake failed after the socket opened.
    Handshake,
    /// Authentication with the given method was refused.
    Auth(AuthMethod),
    /// The temporary credential file could not be written or removed.
    Credential,
    /// An exec, SFTP or SCP channel could not be opened on the session.
    Channel,
    /// A read or write failed in the middle of a listing or a transfer.
    Transfer,
    /// A directory entry that would be listed lacks part of its metadata.
    IncompleteMetadata,
    /// Command output is not valid UTF-8.
    Decode,
    /// The profile names FTP, which has no executor.
    NotImplemented,
    /// The profile's protocol tag is not a known protocol.
    UnknownProtocol,
}

/// The text shown for an error.
pub open spec fn message_of(e: RemoteError) -> Seq<char> {
    match e {
        RemoteError::Network => "Error connecting"@,
        RemoteError::Handshake => "Error handshaking"@,
        RemoteError::Auth(AuthMethod::PublicKey) => "Error authenticating with public key"@,
        RemoteError::Auth(AuthMethod::Password) => "Error authenticating with password"@,
        RemoteError::Credential => "Error handling the temporary key file"@,
        RemoteError::Channel => "Error opening channel"@,
        RemoteError::Transfer => "Error transferring data"@,
        RemoteError::IncompleteMetadata => "Incomplete file metadata"@,
        RemoteError::Decode => "Command output is not valid UTF-8"@,
        RemoteError::NotImplemented => "FTP not implemented"@,
        RemoteError::UnknownProtocol => "Unknown protocol"@,
    }
}

impl RemoteError {
    /// The text shown for this error.
    pub fn message(&self) -> (r: &'static str)
        ensures
            r@ == message_of(*self),
    {
        match self {
            RemoteError::Network => "Error connecting",
            RemoteError::Handshake => "Error handshaking",
            RemoteError::Auth(AuthMethod::PublicKey) => "Error authenticating with public key",
            RemoteError::Auth(AuthMethod::Password) => "Error authenticating with password",
            RemoteError::Credential => "Error handling the temporary key file",
            RemoteError::Channel => "Error opening channel",
            RemoteError::Transfer => "Error transferring data",
            RemoteError::IncompleteMetadata => "Incomplete file metadata",
            RemoteError::Decode => "Command output is not valid UTF-8",
            RemoteError::NotImplemented => "FTP not implemented",
            RemoteError::UnknownProtocol => "Unknown protocol",
        }
    }
}

} // verus!
