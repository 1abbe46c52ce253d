use vstd::prelude::*;

use crate::error::RemoteError;
use crate::profile::{protocol_of_tag, Connection, Protocol};

verus! {

/// The operations a profile can be used for.
#[derive(Clone, Copy, Debug, PartialEq, Eq, Structural)]
pub enum OperationKind {
    /// Check that a session can be opened and authenticated.
    Test,
    /// List a remote directory.
    List,
    /// Run a command on the remote host.
    Exec,
    /// Copy a remote file to the local disk.
    Download,
}

/// Where an operation on a profile with this protocol tag goes: `Ok` when
/// it runs over an SSH session, the error to report otherwise.
pub open spec fn route_of(protocol: i8) -> Result<(), RemoteError> {
    match protocol_of_tag(protocol as i32) {
        Ok(Protocol::Sftp) => Ok(()),
        Ok(Protocol::Ftp) => Err(RemoteError::NotImplemented),
        Err(e) => Err(e),
    }
}

/// Routes an operation by the profile's protocol: SFTP profiles go to the
/// SSH executors, FTP profiles get `NotImplemented` and any other tag
/// `UnknownProtocol`. Nothing is opened or sent.
pub fn dispatch(op: OperationKind, profile: &Connection) -> (r: Result<(), RemoteError>)
    ensures
        r == route_of(profile.protocol),
{
    match Protocol::try_from(profile.protocol as i32) {
        Ok(Protocol::Sftp) => Ok(()),
        Ok(Protocol::Ftp) => Err(RemoteError::NotImplemented),
        Err(e) => Err(e),
    }
}

/// An FTP profile is refused with `NotImplemented` for every kind of
/// operation, before any session is opened.
pub proof fn lemma_ftp_not_implemented(op: OperationKind, profile: Connection)
    requires
        profile.protocol == 1,
    ensures
        route_of(profile.protocol) == Err::<(), RemoteError>(RemoteError::NotImplemented),
{
}

} // verus!
