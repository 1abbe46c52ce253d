use vstd::prelude::*;

use crate::error::RemoteError;

verus! {

/// The size of the buffer that each read of a download fills at most.
pub const CHUNK_SIZE: usize = 4096;

/// Where a download stands.
#[derive(Clone, Copy, Debug, PartialEq, Eq, Structural)]
pub enum TransferPhase {
    /// Nothing has been done yet.
    Start,
    /// Waiting for the remote file's receive channel.
    OpeningSource,
    /// Waiting for the local file to be created or truncated.
    CreatingTarget,
    /// Waiting for the next chunk of the remote file.
    Reading,
    /// Waiting for a chunk to be written to the local file.
    Writing,
    /// The remote stream ended and every chunk was written.
    Done,
    /// The download failed with the given error.
    Failed(RemoteError),
}

/// The outcome of the previous action of a download, reported by its driver.
pub enum TransferEvent {
    /// The action succeeded and produced no data.
    Succeeded,
    /// The action failed.
    Failed,
    /// A read succeeded with these bytes; none means the stream ended.
    Read(Vec<u8>),
}

/// The mathematical value of a [`TransferEvent`].
pub enum TransferEventView {
    Succeeded,
    Failed,
    Read(Seq<u8>),
}

impl View for TransferEvent {
    type V = TransferEventView;

    open spec fn view(&self) -> TransferEventView {
        match self {
            TransferEvent::Succeeded => TransferEventView::Succeeded,
            TransferEvent::Failed => TransferEventView::Failed,
            TransferEvent::Read(b) => TransferEventView::Read(b@),
        }
    }
}

/// An effect that the driver of a download performs next.
pub enum TransferAction {
    /// Open the receive channel of the remote file.
    OpenSource { remote_path: String },
    /// Create or truncate the local file.
    CreateTarget { local_path: String },
    /// Read at most `max_len` bytes of the remote file.
    Read { max_len: usize },
    /// Write all of `bytes` to the local file.
    Write { bytes: Vec<u8> },
    /// The download is over with this result.
    Finish(Result<(), RemoteError>),
}

/// The mathematical value of a [`TransferAction`].
pub enum TransferActionView {
    OpenSource { remote_path: Seq<char> },
    CreateTarget { local_path: Seq<char> },
    Read { max_len: usize },
    Write { bytes: Seq<u8> },
    Finish(Result<(), RemoteError>),
}

impl View for TransferAction {
    type V = TransferActionView;

    open spec fn view(&self) -> TransferActionView {
        match self {
            TransferAction::OpenSource { remote_path } => TransferActionView::OpenSource {
                remote_path: remote_path@,
            },
            TransferAction::CreateTarget { local_path } => TransferActionView::CreateTarget {
                local_path: local_path@,
            },
            TransferAction::Read { max_len } => TransferActionView::Read { max_len: *max_len },
            TransferAction::Write { bytes } => TransferActionView::Write { bytes: bytes@ },
            TransferAction::Finish(r) => TransferActionView::Finish(*r),
        }
    }
}

/// The paths a download copies between.
pub struct TransferConfig {
    pub remote_path: Seq<char>,
    pub local_path: Seq<char>,
}

/// The state of a download: its phase, the bytes read from the remote file,
/// the bytes the local file is known to hold, and the chunk being written.
pub struct TransferState {
    pub phase: TransferPhase,
    pub received: Seq<u8>,
    pub written: Seq<u8>,
    pub pending: Seq<u8>,
}

pub open spec fn transfer_initial() -> TransferState {
    TransferState { phase: TransferPhase::Start, received: seq![], written: seq![], pending: seq![] }
}

pub open spec fn transfer_failed(s: TransferState, e: RemoteError) -> (TransferState, TransferActionView) {
    (
        TransferState { phase: TransferPhase::Failed(e), ..s },
        TransferActionView::Finish(Err(e)),
    )
}

/// The bytes an event carries: those of a read, none otherwise.
pub open spec fn event_data(ev: TransferEventView) -> Seq<u8> {
    match ev {
        TransferEventView::Read(b) => b,
        _ => seq![],
    }
}

/// One step of a download: given the state and the outcome of the previous
/// action (ignored at the start), the next state and action.
pub open spec fn transfer_step(c: TransferConfig, s: TransferState, ev: TransferEventView) -> (
    TransferState,
    TransferActionView,
) {
    match s.phase {
        TransferPhase::Start => (
            TransferState { phase: TransferPhase::OpeningSource, ..s },
            TransferActionView::OpenSource { remote_path: c.remote_path },
        ),
        TransferPhase::OpeningSource => if ev is Failed {
            transfer_failed(s, RemoteError::Channel)
        } else {
            (
                TransferState { phase: TransferPhase::CreatingTarget, ..s },
                TransferActionView::CreateTarget { local_path: c.local_path },
            )
        },
        TransferPhase::CreatingTarget => if ev is Failed {
            transfer_failed(s, RemoteError::Transfer)
        } else {
            (
                TransferState { phase: TransferPhase::Reading, ..s },
                TransferActionView::Read { max_len: CHUNK_SIZE },
            )
        },
        TransferPhase::Reading => if ev is Failed {
            transfer_failed(s, RemoteError::Transfer)
        } else if event_data(ev).len() == 0 {
            (TransferState { phase: TransferPhase::Done, ..s }, TransferActionView::Finish(Ok(())))
        } else {
            (
                TransferState {
                    phase: TransferPhase::Writing,
                    received: s.received + event_data(ev),
                    pending: event_data(ev),
                    ..s
                },
                TransferActionView::Write { bytes: event_data(ev) },
            )
        },
        TransferPhase::Writing => if ev is Failed {
            transfer_failed(s, RemoteError::Transfer)
        } else {
            (
                TransferState {
                    phase: TransferPhase::Reading,
                    written: s.written + s.pending,
                    pending: seq![],
                    ..s
                },
                TransferActionView::Read { max_len: CHUNK_SIZE },
            )
        },
        TransferPhase::Done => (s, TransferActionView::Finish(Ok(()))),
        TransferPhase::Failed(e) => (s, TransferActionView::Finish(Err(e))),
    }
}

/// The state after the outcomes `events` have been fed in, one per step.
pub open spec fn transfer_run(c: TransferConfig, events: Seq<TransferEventView>) -> TransferState
    decreases events.len(),
{
    if events.len() == 0 {
        transfer_initial()
    } else {
        transfer_step(c, transfer_run(c, events.drop_last()), events.last()).0
    }
}

/// A download in progress. The driver calls [`Download::advance`] with the
/// outcome of the previous action and performs the action it gets back,
/// until that action is `Finish`.
pub struct Download {
    remote_path: String,
    local_path: String,
    phase: TransferPhase,
    received: Ghost<Seq<u8>>,
    written: Ghost<Seq<u8>>,
    pending: Ghost<Seq<u8>>,
}

impl View for Download {
    type V = (TransferConfig, TransferState);

    closed spec fn view(&self) -> (TransferConfig, TransferState) {
        (
            TransferConfig { remote_path: self.remote_path@, local_path: self.local_path@ },
            TransferState {
                phase: self.phase,
                received: self.received@,
                written: self.written@,
                pending: self.pending@,
            },
        )
    }
}

impl Download {
    /// Starts a download of `remote_path` into `local_path`.
    pub fn new(remote_path: String, local_path: String) -> (r: Download)
        ensures
            r@ == (TransferConfig { remote_path: remote_path@, local_path: local_path@ }, transfer_initial()),
            transfer_invariant(r@.1),
    {
        Download {
            remote_path,
            local_path,
            phase: TransferPhase::Start,
            received: Ghost(Seq::empty()),
            written: Ghost(Seq::empty()),
            pending: Ghost(Seq::empty()),
        }
    }

    /// The current phase.
    pub fn phase(&self) -> (r: TransferPhase)
        ensures
            r == self@.1.phase,
    {
        self.phase
    }

    fn fail(&mut self, e: RemoteError) -> (r: TransferAction)
        ensures
            final(self)@ == (old(self)@.0, transfer_failed(old(self)@.1, e).0),
            r@ == transfer_failed(old(self)@.1, e).1,
    {
        self.phase = TransferPhase::Failed(e);
        TransferAction::Finish(Err(e))
    }

    /// Takes the outcome of the previous action (ignored on the first call)
    /// and returns the next action.
    pub fn advance(&mut self, ev: TransferEvent) -> (r: TransferAction)
        ensures
            final(self)@.0 == old(self)@.0,
            (final(self)@.1, r@) == transfer_step(old(self)@.0, old(self)@.1, ev@),
            transfer_invariant(old(self)@.1) ==> transfer_invariant(final(self)@.1),
    {
        proof {
            if transfer_invariant(self@.1) {
                lemma_transfer_step_keeps_invariant(self@.0, self@.1, ev@);
            }
        }
        let failed = match ev {
            TransferEvent::Failed => true,
            _ => false,
        };
        match self.phase {
            TransferPhase::Start => {
                self.phase = TransferPhase::OpeningSource;
                TransferAction::OpenSource { remote_path: self.remote_path.clone() }
            },
            TransferPhase::OpeningSource => {
                if failed {
                    self.fail(RemoteError::Channel)
                } else {
                    self.phase = TransferPhase::CreatingTarget;
                    TransferAction::CreateTarget { local_path: self.local_path.clone() }
                }
            },
            TransferPhase::CreatingTarget => {
                if failed {
                    self.fail(RemoteError::Transfer)
                } else {
                    self.phase = TransferPhase::Reading;
                    TransferAction::Read { max_len: CHUNK_SIZE }
                }
            },
            TransferPhase::Reading => {
                if failed {
                    self.fail(RemoteError::Transfer)
                } else {
                    let bytes = match ev {
                        TransferEvent::Read(b) => b,
                        _ => Vec::new(),
                    };
                    if bytes.len() == 0 {
                        self.phase = TransferPhase::Done;
                        TransferAction::Finish(Ok(()))
                    } else {
                        self.phase = TransferPhase::Writing;
                        self.received = Ghost(self.received@ + bytes@);
                        self.pending = Ghost(bytes@);
                        TransferAction::Write { bytes }
                    }
                }
            },
            TransferPhase::Writing => {
                if failed {
                    self.fail(RemoteError::Transfer)
                } else {
                    self.phase = TransferPhase::Reading;
                    self.written = Ghost(self.written@ + self.pending@);
                    self.pending = Ghost(Seq::empty());
                    TransferAction::Read { max_len: CHUNK_SIZE }
                }
            },
            TransferPhase::Done => TransferAction::Finish(Ok(())),
            TransferPhase::Failed(e) => TransferAction::Finish(Err(e)),
        }
    }
}

/// What holds of every state that a download reaches: what was read and not
/// yet written is the chunk being written.
pub open spec fn transfer_invariant(s: TransferState) -> bool {
    match s.phase {
        TransferPhase::Writing => s.received == s.written + s.pending,
        TransferPhase::Failed(_) => true,
        _ => s.received == s.written,
    }
}

proof fn lemma_transfer_step_keeps_invariant(c: TransferConfig, s: TransferState, ev: TransferEventView)
    requires
        transfer_invariant(s),
    ensures
        transfer_invariant(transfer_step(c, s, ev).0),
{
    if s.phase is Writing {
        assert(s.written + s.pending + seq![] =~= s.written + s.pending);
    }
    if s.phase is Reading {
        assert(s.written + seq![] =~= s.written);
    }
}

/// Every state reached from the start satisfies the invariant.
pub proof fn lemma_transfer_invariant(c: TransferConfig, events: Seq<TransferEventView>)
    ensures
        transfer_invariant(transfer_run(c, events)),
    decreases events.len(),
{
    if events.len() > 0 {
        lemma_transfer_invariant(c, events.drop_last());
        lemma_transfer_step_keeps_invariant(c, transfer_run(c, events.drop_last()), events.last());
    }
}

/// Whatever the chunk sizes, a download that completes has written to the
/// local file exactly the bytes of the remote stream, in order.
pub proof fn lemma_completed_download_is_exact(c: TransferConfig, events: Seq<TransferEventView>)
    ensures
        transfer_run(c, events).phase is Done ==> transfer_run(c, events).written
            == transfer_run(c, events).received,
{
    lemma_transfer_invariant(c, events);
}

} // verus!
