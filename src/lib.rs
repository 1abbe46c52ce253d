//! Core of a remote-filesystem client: connection profiles, protocol
//! dispatch, the connect/authenticate state machine, directory-listing
//! filtering, chunked download and command-output decoding.
//!
//! Every network or filesystem effect is described as an action value that a
//! driver performs; the driver feeds the outcome back in. The decisions are
//! verified here.

pub mod connect;
pub mod credential;
pub mod decimal;
pub mod dispatch;
pub mod error;
pub mod listing;
pub mod logging;
pub mod output;
pub mod profile;
pub mod transfer;

pub use connect::{ConnectAction, ConnectPhase, Connector};
pub use credential::{key_file_name, key_file_path};
pub use dispatch::{dispatch, OperationKind};
pub use error::{AuthMethod, RemoteError};
pub use listing::{list_entries, DirEntry, EntryStat, File};
pub use logging::LogMessage;
pub use output::command_output;
pub use profile::{Connection, Protocol};
pub use transfer::{Download, TransferAction, TransferEvent, TransferPhase, CHUNK_SIZE};
