//! The download controller: the registry of worker records and the reducer
//! that applies status events to them.

use vstd::prelude::*;

use crate::download::channel::{clone_sender, unbounded_pair};
use crate::download::worker::{file_name_of, spec_file_name, RequestUrl, Worker};

verus! {

/// Why a transfer ended without its file: the taxonomy a worker reports
/// through [`Message::Failed`].
#[derive(Clone, Copy, Debug, PartialEq, Eq, Structural)]
pub enum FailureReason {
    /// The request could not be issued, or the body stream broke off.
    Network,
    /// The temporary file could not be created, written, or renamed.
    Filesystem,
}

/// A status event sent by a worker to the controller.  The first field is
/// always the identity of the download the event is about.
#[derive(Clone, Copy, Debug, PartialEq, Eq, Structural)]
pub enum Message {
    /// A progress tick: the total number of bytes downloaded so far.
    Downloaded(u64, u64),
    /// The server declared this content length.
    Total(u64, u64),
    /// The worker's pause state flipped to this value.
    Paused(u64, bool),
    /// The transfer finished and the file was renamed into place.
    Done(u64),
    /// The smoothed throughput, in bytes per second.
    Speed(u64, u64),
    /// The transfer ended without producing its file.
    Failed(u64, FailureReason),
}

impl Message {
    /// The identity of the download this event is about.
    pub open spec fn spec_id(self) -> u64 {
        match self {
            Message::Downloaded(id, _) => id,
            Message::Total(id, _) => id,
            Message::Paused(id, _) => id,
            Message::Done(id) => id,
            Message::Speed(id, _) => id,
            Message::Failed(id, _) => id,
        }
    }

    /// The identity of the download this event is about.
    pub fn id(&self) -> (r: u64)
        ensures
            r == self.spec_id(),
    {
        match self {
            Message::Downloaded(id, _) => *id,
            Message::Total(id, _) => *id,
            Message::Paused(id, _) => *id,
            Message::Done(id) => *id,
            Message::Speed(id, _) => *id,
            Message::Failed(id, _) => *id,
        }
    }
}

/// Why a download request was refused before any worker came to be.
#[derive(Clone, Copy, Debug, PartialEq, Eq, Structural)]
pub enum RequestError {
    /// The URL has no path segments, or its last segment is empty, so no
    /// destination file name can be derived from it.
    MissingFileName,
}

/// Everything the independent unit of work for one download needs: its
/// identity, the names it works with, a handle onto the shared status
/// channel, and the receiving end of its private control channel.
#[derive(Debug)]
pub struct TransferTask {
    /// The identity of the download being transferred.
    pub id: u64,
    /// The serialized source URL to fetch.
    pub url: String,
    /// The destination file name.
    pub file_name: String,
    /// Where the task reports its status events.
    pub tx: tokio::sync::mpsc::UnboundedSender<Message>,
    /// Where pause/resume toggle signals for this download arrive.
    pub pause_rx: tokio::sync::mpsc::UnboundedReceiver<()>,
}

/// The single field of a record that one status event mutates.
pub open spec fn spec_apply(w: Worker, m: Message) -> Worker {
    match m {
        Message::Downloaded(_, n) => Worker { downloaded: n, ..w },
        Message::Total(_, n) => Worker { total_size: n, ..w },
        Message::Paused(_, p) => Worker { paused: p, ..w },
        Message::Done(_) => Worker { done: true, ..w },
        Message::Speed(_, n) => Worker { speed: n, ..w },
        Message::Failed(_, _) => Worker { failed: true, ..w },
    }
}

/// The registry and routing hub.  It owns every worker record, the consuming
/// end of the shared status channel, and the sender that each new worker's
/// task gets a clone of; it contains no transfer logic itself.
#[derive(Debug)]
pub struct Controller {
    /// Every record ever created, in creation order; never removed.
    pub workers: Vec<Worker>,
    /// The consuming end of the shared status channel.
    pub rx: tokio::sync::mpsc::UnboundedReceiver<Message>,
    /// The producing end that worker tasks get clones of.
    pub tx: tokio::sync::mpsc::UnboundedSender<Message>,
    /// The identity the next requested download will get.
    pub next_worker_id: u64,
}

impl Controller {
    /// The registry invariant: identities are allocated in order, so the
    /// record with identity `i` sits at index `i`, and the next identity to
    /// hand out is the number of records.
    pub open spec fn well_formed(&self) -> bool {
        &&& self.next_worker_id == self.workers@.len()
        &&& forall|i: int|
            0 <= i < self.workers@.len() ==> (#[trigger] self.workers@[i]).id == i
    }

    /// An empty registry with a fresh status channel.
    pub fn new() -> (c: Controller)
        ensures
            c.well_formed(),
            c.workers@.len() == 0,
    {
        let (tx, rx) = unbounded_pair::<Message>();
        Controller { workers: Vec::new(), rx, tx, next_worker_id: 0 }
    }

    /// Request a download.  A URL that names no file is refused before any
    /// record or channel exists.  Otherwise the next identity is allocated, a
    /// zeroed record is inserted together with the sending end of a fresh
    /// control channel, and everything the transfer's independent unit of
    /// work needs comes back; nothing here waits on that work.
    pub fn download(&mut self, url: RequestUrl) -> (r: Result<TransferTask, RequestError>)
        requires
            old(self).well_formed(),
            old(self).workers@.len() < u64::MAX,
        ensures
            final(self).well_formed(),
            (match r {
                Err(e) => {
                    &&& e == RequestError::MissingFileName
                    &&& spec_file_name(url.spec_segments()) is None
                    &&& *final(self) == *old(self)
                },
                Ok(task) => {
                    &&& spec_file_name(url.spec_segments()) == Some(task.file_name@)
                    &&& task.id == old(self).workers@.len()
                    &&& task.url@ == url.text@
                    &&& final(self).workers@.len() == old(self).workers@.len() + 1
                    &&& forall|i: int|
                        0 <= i < old(self).workers@.len() ==> final(self).workers@[i] == old(
                            self,
                        ).workers@[i]
                    &&& final(self).workers@.last().id == task.id
                    &&& final(self).workers@.last().url@ == url.text@
                    &&& final(self).workers@.last().file_name@ == task.file_name@
                    &&& final(self).workers@.last().total_size == 0
                    &&& final(self).workers@.last().downloaded == 0
                    &&& final(self).workers@.last().speed == 0
                    &&& !final(self).workers@.last().paused
                    &&& !final(self).workers@.last().done
                    &&& !final(self).workers@.last().failed
                    &&& final(self).tx == old(self).tx
                    &&& final(self).rx == old(self).rx
                },
            }),
    {
        match file_name_of(&url) {
            None => Err(RequestError::MissingFileName),
            Some(file_name) => {
                let (pause_tx, pause_rx) = unbounded_pair::<()>();
                let status_tx = clone_sender(&self.tx);
                let id = self.next_worker_id;
                let task = TransferTask {
                    id,
                    url: url.text.clone(),
                    file_name: file_name.clone(),
                    tx: status_tx,
                    pause_rx,
                };
                let record = Worker::new(id, url.text, file_name, pause_tx);
                self.workers.push(record);
                self.next_worker_id = self.next_worker_id + 1;
                Ok(task)
            },
        }
    }

    /// Look a record up by its identity.  Identities are only ever handed out
    /// by this controller, so an unknown one is a caller error and is ruled
    /// out up front.
    pub fn get_worker(&self, id: u64) -> (w: &Worker)
        requires
            self.well_formed(),
            id < self.workers@.len(),
        ensures
            *w == self.workers@[id as int],
            w.id == id,
    {
        let mut i: usize = 0;
        while i < self.workers.len()
            invariant
                self.well_formed(),
                id < self.workers@.len(),
                i <= self.workers@.len(),
                forall|j: int| 0 <= j < i ==> (#[trigger] self.workers@[j]).id != id,
            decreases self.workers@.len() - i,
        {
            if self.workers[i].id == id {
                return &self.workers[i];
            }
            i = i + 1;
        }
        proof {
            assert(self.workers@[id as int].id == id);
            assert(false);
        }
        vstd::pervasive::unreached()
    }

    /// Apply one status event to the record it is scoped to: exactly one
    /// field of exactly that record changes, as [`spec_apply`] says; every
    /// other record is untouched.
    pub fn apply(&mut self, message: Message)
        requires
            old(self).well_formed(),
            message.spec_id() < old(self).workers@.len(),
        ensures
            final(self).well_formed(),
            final(self).workers@ == old(self).workers@.update(
                message.spec_id() as int,
                spec_apply(old(self).workers@[message.spec_id() as int], message),
            ),
            final(self).tx == old(self).tx,
            final(self).rx == old(self).rx,
            final(self).next_worker_id == old(self).next_worker_id,
    {
        let i = self.index_of(message.id());
        match message {
            Message::Downloaded(_, n) => self.workers[i].downloaded = n,
            Message::Total(_, n) => self.workers[i].total_size = n,
            Message::Paused(_, p) => self.workers[i].paused = p,
            Message::Done(_) => self.workers[i].done = true,
            Message::Speed(_, n) => self.workers[i].speed = n,
            Message::Failed(_, _) => self.workers[i].failed = true,
        }
        proof {
            assert(self.workers@ =~= old(self).workers@.update(
                message.spec_id() as int,
                spec_apply(old(self).workers@[message.spec_id() as int], message),
            ));
        }
    }

    /// The index of the record with this identity: its identity itself, by
    /// the registry invariant, found the way the record list is searched.
    fn index_of(&self, id: u64) -> (i: usize)
        requires
            self.well_formed(),
            id < self.workers@.len(),
        ensures
            i == id,
            i < self.workers@.len(),
    {
        let mut i: usize = 0;
        while i < self.workers.len()
            invariant
                self.well_formed(),
                id < self.workers@.len(),
                i <= self.workers@.len(),
                forall|j: int| 0 <= j < i ==> (#[trigger] self.workers@[j]).id != id,
            decreases self.workers@.len() - i,
        {
            if self.workers[i].id == id {
                return i;
            }
            i = i + 1;
        }
        proof {
            assert(self.workers@[id as int].id == id);
            assert(false);
        }
        vstd::pervasive::unreached()
    }
}

impl Default for Controller {
    fn default() -> (c: Self)
        ensures
            c.well_formed(),
            c.workers@.len() == 0,
    {
        Self::new()
    }
}

/// Identities distinguish downloads for the life of the process: a
/// well-formed registry never holds two records with the same identity, and
/// [`Controller::download`] only ever appends a record with a fresh one.
pub proof fn lemma_identities_unique(c: &Controller, i: int, j: int)
    requires
        c.well_formed(),
        0 <= i < c.workers@.len(),
        0 <= j < c.workers@.len(),
        i != j,
    ensures
        c.workers@[i].id != c.workers@[j].id,
{
}

} // verus!
