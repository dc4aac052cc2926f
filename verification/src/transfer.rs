//! Chunked copy between a local file and a remote one: what to do after
//! each read and each write, and how many bytes to report.

use vstd::prelude::*;

verus! {

/// Bytes asked of the source at a time.
pub const CHUNK_SIZE: usize = 8192;

/// Which way the bytes go.
#[derive(Clone, Copy, Debug, PartialEq, Eq, Structural)]
pub enum TransferDirection {
    /// From the local file to the remote one.
    Upload,
    /// From the remote file to the local one.
    Download,
}

/// Where a transfer stands.
#[derive(Clone, Copy, Debug, PartialEq, Eq, Structural)]
pub enum TransferPhase {
    /// Not started.
    Idle,
    /// A chunk has been asked of the source.
    Reading,
    /// A chunk of this many bytes is being written to the destination.
    Writing(usize),
    /// The source reported the end of its data.
    Done,
    /// A read or a write failed; the destination stays as far as it got.
    Failed,
}

/// What happened outside since the last step.
#[derive(Clone, Copy, Debug, PartialEq, Eq, Structural)]
pub enum TransferEvent {
    /// Source and destination are open.
    Opened,
    /// The source gave this many bytes; none means the end of the data.
    Read(usize),
    /// The chunk is written in full.
    Written,
    /// A read or a write failed.
    Failed,
}

/// What to do next.
#[derive(Clone, Copy, Debug, PartialEq, Eq, Structural)]
pub enum TransferAction {
    /// Ask the source for up to `limit` bytes.
    Read { limit: usize },
    /// Write the `len` bytes just read to the destination, all of them.
    Write { len: usize },
    /// Tell the progress sink that `transferred` bytes have gone over in
    /// all, then ask the source for up to `limit` bytes.
    Progress { transferred: u64, limit: usize },
    /// Tell the progress sink that the transfer is complete.
    Complete { transferred: u64 },
    /// Give the transfer up.
    Abort,
    /// The event does not belong here; nothing is to be done.
    Ignore,
}

/// A transfer in progress.
#[derive(Clone, Copy, Debug, PartialEq, Eq, Structural)]
pub struct TransferPump {
    pub direction: TransferDirection,
    /// The size expected, for the progress ratio only; 0 where unknown.
    pub total: u64,
    /// Bytes written to the destination so far.
    pub transferred: u64,
    pub phase: TransferPhase,
}

/// A count held at the largest value of 64 bits.
pub open spec fn capped(count: int) -> u64 {
    if count > u64::MAX {
        u64::MAX
    } else {
        count as u64
    }
}

/// The transfer after an event, and what to do next.
pub open spec fn transfer_step(pump: TransferPump, event: TransferEvent) -> (
    TransferPump,
    TransferAction,
) {
    match (pump.phase, event) {
        (TransferPhase::Idle, TransferEvent::Opened) => (
            TransferPump { phase: TransferPhase::Reading, ..pump },
            TransferAction::Read { limit: CHUNK_SIZE },
        ),
        (TransferPhase::Reading, TransferEvent::Read(len)) => if len == 0 {
            (
                TransferPump { phase: TransferPhase::Done, ..pump },
                TransferAction::Complete { transferred: pump.transferred },
            )
        } else if len <= CHUNK_SIZE {
            (
                TransferPump { phase: TransferPhase::Writing(len), ..pump },
                TransferAction::Write { len },
            )
        } else {
            (TransferPump { phase: TransferPhase::Failed, ..pump }, TransferAction::Abort)
        },
        (TransferPhase::Writing(len), TransferEvent::Written) => (
            TransferPump {
                phase: TransferPhase::Reading,
                transferred: capped(pump.transferred + len),
                ..pump
            },
            TransferAction::Progress {
                transferred: capped(pump.transferred + len),
                limit: CHUNK_SIZE,
            },
        ),
        (TransferPhase::Done, _) => (pump, TransferAction::Ignore),
        (TransferPhase::Failed, _) => (pump, TransferAction::Ignore),
        (_, TransferEvent::Failed) => (
            TransferPump { phase: TransferPhase::Failed, ..pump },
            TransferAction::Abort,
        ),
        _ => (pump, TransferAction::Ignore),
    }
}

impl TransferPump {
    /// A transfer that has not started. `size` is the size of the source
    /// where it is known.
    pub fn new(direction: TransferDirection, size: Option<u64>) -> (pump: TransferPump)
        ensures
            pump == (TransferPump {
                direction,
                total: match size {
                    Some(n) => n,
                    None => 0,
                },
                transferred: 0,
                phase: TransferPhase::Idle,
            }),
    {
        let total = match size {
            Some(n) => n,
            None => 0,
        };
        TransferPump { direction, total, transferred: 0, phase: TransferPhase::Idle }
    }

    /// Takes an event and says what to do next.
    pub fn step(&mut self, event: TransferEvent) -> (action: TransferAction)
        ensures
            (*final(self), action) == transfer_step(*old(self), event),
    {
        match (self.phase, event) {
            (TransferPhase::Idle, TransferEvent::Opened) => {
                self.phase = TransferPhase::Reading;
                TransferAction::Read { limit: CHUNK_SIZE }
            },
            (TransferPhase::Reading, TransferEvent::Read(len)) => {
                if len == 0 {
                    self.phase = TransferPhase::Done;
                    TransferAction::Complete { transferred: self.transferred }
                } else if len <= CHUNK_SIZE {
                    self.phase = TransferPhase::Writing(len);
                    TransferAction::Write { len }
                } else {
                    self.phase = TransferPhase::Failed;
                    TransferAction::Abort
                }
            },
            (TransferPhase::Writing(len), TransferEvent::Written) => {
                let more: u64 = len as u64;
                let transferred = if more > u64::MAX - self.transferred {
                    u64::MAX
                } else {
                    self.transferred + more
                };
                self.transferred = transferred;
                self.phase = TransferPhase::Reading;
                TransferAction::Progress { transferred, limit: CHUNK_SIZE }
            },
            (TransferPhase::Done, _) => TransferAction::Ignore,
            (TransferPhase::Failed, _) => TransferAction::Ignore,
            (_, TransferEvent::Failed) => {
                self.phase = TransferPhase::Failed;
                TransferAction::Abort
            },
            _ => TransferAction::Ignore,
        }
    }

    /// Whether the transfer has ended, well or badly.
    pub fn is_finished(&self) -> (finished: bool)
        ensures
            finished == (self.phase == TransferPhase::Done || self.phase
                == TransferPhase::Failed),
    {
        match self.phase {
            TransferPhase::Done => true,
            TransferPhase::Failed => true,
            _ => false,
        }
    }
}

/// The words that close a transfer that went through.
pub open spec fn completion_text(direction: TransferDirection) -> Seq<char> {
    match direction {
        TransferDirection::Upload => "Upload complete"@,
        TransferDirection::Download => "Download complete"@,
    }
}

/// The words that close a transfer that went through.
pub fn completion_message(direction: TransferDirection) -> (message: String)
    ensures
        message@ == completion_text(direction),
{
    match direction {
        TransferDirection::Upload => String::from_str("Upload complete"),
        TransferDirection::Download => String::from_str("Download complete"),
    }
}

/// The transfer after a sequence of events.
pub open spec fn transfer_run(pump: TransferPump, events: Seq<TransferEvent>) -> TransferPump
    decreases events.len(),
{
    if events.len() == 0 {
        pump
    } else {
        transfer_run(transfer_step(pump, events[0]).0, events.drop_first())
    }
}

/// The events of chunks that are read and written one after another.
pub open spec fn chunk_events(sizes: Seq<usize>) -> Seq<TransferEvent>
    decreases sizes.len(),
{
    if sizes.len() == 0 {
        Seq::empty()
    } else {
        seq![TransferEvent::Read(sizes[0]), TransferEvent::Written] + chunk_events(
            sizes.drop_first(),
        )
    }
}

/// The sum of the sizes.
pub open spec fn total_size(sizes: Seq<usize>) -> nat
    decreases sizes.len(),
{
    if sizes.len() == 0 {
        0
    } else {
        sizes[0] as nat + total_size(sizes.drop_first())
    }
}

/// After any number of chunks the count is the sum of their sizes on top
/// of what it was, held at the largest value of 64 bits, and the transfer
/// is ready for the next read.
pub proof fn lemma_chunks_add_up(pump: TransferPump, sizes: Seq<usize>)
    requires
        pump.phase == TransferPhase::Reading,
        forall|i: int| 0 <= i < sizes.len() ==> 0 < #[trigger] sizes[i] <= CHUNK_SIZE,
    ensures
        transfer_run(pump, chunk_events(sizes)) == (TransferPump {
            transferred: capped(pump.transferred + total_size(sizes)),
            ..pump
        }),
    decreases sizes.len(),
{
    if sizes.len() > 0 {
        let events = chunk_events(sizes);
        let rest = chunk_events(sizes.drop_first());
        let read = transfer_step(pump, TransferEvent::Read(sizes[0])).0;
        let written = transfer_step(read, TransferEvent::Written).0;
        assert(events[0] == TransferEvent::Read(sizes[0]));
        assert(events.drop_first()[0] == TransferEvent::Written);
        assert(events.drop_first().drop_first() =~= rest);
        assert(transfer_run(pump, events) == transfer_run(read, events.drop_first()));
        assert(transfer_run(read, events.drop_first()) == transfer_run(written, rest));
        assert forall|i: int| 0 <= i < sizes.drop_first().len() implies 0
            < #[trigger] sizes.drop_first()[i] <= CHUNK_SIZE by {
            assert(sizes.drop_first()[i] == sizes[i + 1]);
        }
        lemma_chunks_add_up(written, sizes.drop_first());
    } else {
        assert(chunk_events(sizes) =~= Seq::<TransferEvent>::empty());
    }
}


} // verus!
