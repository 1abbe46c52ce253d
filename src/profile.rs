use vstd::prelude::*;

use crate::error::RemoteError;

verus! {

/// A stored connection profile. Only `host`, `port`, `username`, `password`,
/// `private_key` and `protocol` drive a session; the other fields belong to
/// the profile store.
#[derive(Clone, Debug)]
pub struct Connection {
    pub id: i32,
    pub name: String,
    pub host: String,
    pub port: i32,
    pub username: String,
    /// Empty means that no password is given.
    pub password: String,
    /// Key material as text; empty means that no key is given.
    pub private_key: String,
    pub remote_path: String,
    pub local_path: String,
    pub default: bool,
    /// Raw protocol tag: 0 is SFTP, 1 is FTP.
    pub protocol: i8,
    pub created_at: String,
    pub updated_at: String,
    pub last_connected_at: String,
}

/// The transfer protocols a profile can name.
#[derive(Clone, Copy, Debug, PartialEq, Eq, Structural)]
pub enum Protocol {
    Sftp,
    Ftp,
}

/// The tag under which a protocol is stored.
pub open spec fn protocol_tag(p: Protocol) -> i32 {
    match p {
        Protocol::Sftp => 0,
        Protocol::Ftp => 1,
    }
}

/// The protocol a stored tag stands for; any other tag is refused.
pub open spec fn protocol_of_tag(tag: i32) -> Result<Protocol, RemoteError> {
    if tag == 0 {
        Ok(Protocol::Sftp)
    } else if tag == 1 {
        Ok(Protocol::Ftp)
    } else {
        Err(RemoteError::UnknownProtocol)
    }
}

impl From<Protocol> for i32 {
    fn from(protocol: Protocol) -> (r: i32)
        ensures
            r == protocol_tag(protocol),
    {
        match protocol {
            Protocol::Sftp => 0,
            Protocol::Ftp => 1,
        }
    }
}

impl vstd::std_specs::convert::FromSpecImpl<Protocol> for i32 {
    open spec fn obeys_from_spec() -> bool {
        true
    }

    open spec fn from_spec(v: Protocol) -> i32 {
        protocol_tag(v)
    }
}

impl TryFrom<i32> for Protocol {
    type Error = RemoteError;

    fn try_from(tag: i32) -> (r: Result<Protocol, RemoteError>)
        ensures
            r == protocol_of_tag(tag),
    {
        if tag == 0 {
            Ok(Protocol::Sftp)
        } else if tag == 1 {
            Ok(Protocol::Ftp)
        } else {
            Err(RemoteError::UnknownProtocol)
        }
    }
}

impl vstd::std_specs::convert::TryFromSpecImpl<i32> for Protocol {
    open spec fn obeys_try_from_spec() -> bool {
        true
    }

    open spec fn try_from_spec(v: i32) -> Result<Protocol, RemoteError> {
        protocol_of_tag(v)
    }
}

} // verus!
