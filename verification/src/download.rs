//! The download orchestrator.
//!
//! A [`DownloadStatus`] owns the per-transfer states of one session.
//! Concurrent transfer tasks deliver immutable events — size-known,
//! progress chunks, done, or a terminal error — and the orchestrator is
//! the sole owner that folds them into [`Download`] states, keyed by
//! transfer index. The session is complete exactly when every transfer
//! is done and none holds a terminal error; a transfer's error is
//! surfaced immediately but does not cancel its siblings. Cancellation
//! is all-or-nothing and final: a cancelled orchestrator discards every
//! later event.

use vstd::prelude::*;
use crate::name::{file_display_name, spec_file_display_name};
use crate::selection::{ConfigurationError, ResolvedConfig};
use crate::text::{opt_string_clone, string_in};

verus! {

/// What one transfer needs: the source URL, optional request headers,
/// and the destination file path.
#[derive(Debug, Clone)]
pub struct TransferDescriptor {
    pub url: String,
    pub headers: Vec<(String, String)>,
    pub path: String,
}

/// Mathematical image of a [`TransferDescriptor`].
pub struct TransferDescriptorView {
    pub url: Seq<char>,
    pub headers: Seq<(Seq<char>, Seq<char>)>,
    pub path: Seq<char>,
}

impl DeepView for TransferDescriptor {
    type V = TransferDescriptorView;

    open spec fn deep_view(&self) -> TransferDescriptorView {
        (TransferDescriptorView {
            url: self.url.deep_view(),
            headers: self.headers.deep_view(),
            path: self.path.deep_view(),
        })
    }
}

/// The folded state of one transfer: bytes received so far, the total
/// size once known (`Some(0)` and `None` both render as unknown), the
/// completion flag, and the terminal error when one arrived.
#[derive(Debug)]
pub struct Download {
    pub name: String,
    pub current_size: u64,
    pub total_size: Option<u64>,
    pub done: bool,
    pub error: Option<String>,
}

/// Mathematical image of a [`Download`].
pub struct DownloadView {
    pub name: Seq<char>,
    pub current_size: u64,
    pub total_size: Option<u64>,
    pub done: bool,
    pub error: Option<Seq<char>>,
}

impl DeepView for Download {
    type V = DownloadView;

    open spec fn deep_view(&self) -> DownloadView {
        (DownloadView {
            name: self.name.deep_view(),
            current_size: self.current_size,
            total_size: self.total_size,
            done: self.done,
            error: self.error.deep_view(),
        })
    }
}

/// The state a transfer starts in: named after its destination file,
/// nothing received, size unknown, not done, no error.
pub open spec fn initial_download(path: Seq<char>) -> DownloadView {
    (DownloadView {
        name: spec_file_display_name(path),
        current_size: 0,
        total_size: None,
        done: false,
        error: None,
    })
}

/// One event of one transfer, in the order the task produced them: the
/// total size on first knowledge, one chunk's byte length per received
/// chunk (never cumulative), a final done, or a single terminal error.
#[derive(Clone, Debug)]
pub enum DownloadMessage {
    GotTotalSize(u64),
    AddedChunk(u64),
    Done,
    Error(String),
}

/// An event together with the index of the transfer it belongs to.
#[derive(Clone, Debug)]
pub struct SpecificDownloadMessage {
    pub id: usize,
    pub msg: DownloadMessage,
}

/// A download-stage message: a transfer event, the user cancelling, or
/// the owner asking for finalization.
#[derive(Clone, Debug)]
pub enum Message {
    CancelDownloads,
    Finalize,
    Specific(SpecificDownloadMessage),
}

/// What the caller must do after a download-stage update.
#[derive(Clone, Debug, PartialEq, Eq)]
pub enum Action {
    /// Nothing to do.
    Idle,
    /// Request every in-flight transfer task to stop.
    CancelTransfers,
    /// Show the surfaced transfer error; the remaining transfers keep
    /// running.
    SurfaceError(String),
    /// Every transfer is done and none errored: the session owner may
    /// finalize.
    Complete,
    /// Run the finalization step, off the scheduling context.
    Finalize,
}

/// How one event folds into a transfer's state. A chunk adds its length
/// to the received total (saturating at the integer's top); a size
/// event records the total; done and error set their fields and touch
/// nothing else.
pub open spec fn folded(d: DownloadView, msg: DownloadMessage) -> DownloadView {
    match msg {
        DownloadMessage::GotTotalSize(sz) => DownloadView { total_size: Some(sz), ..d },
        DownloadMessage::AddedChunk(sz) => DownloadView {
            current_size: if d.current_size + sz <= u64::MAX {
                (d.current_size + sz) as u64
            } else {
                u64::MAX
            },
            ..d
        },
        DownloadMessage::Done => DownloadView { done: true, ..d },
        DownloadMessage::Error(e) => DownloadView { error: Some(e@), ..d },
    }
}

/// A transfer state with the given event folded in; see [`folded`].
pub fn apply_download(d: &Download, msg: &DownloadMessage) -> (r: Download)
    ensures
        r.deep_view() == folded(d.deep_view(), *msg),
{
    match msg {
        DownloadMessage::GotTotalSize(sz) => Download {
            name: d.name.clone(),
            current_size: d.current_size,
            total_size: Some(*sz),
            done: d.done,
            error: opt_string_clone(&d.error),
        },
        DownloadMessage::AddedChunk(sz) => Download {
            name: d.name.clone(),
            current_size: if d.current_size <= u64::MAX - *sz {
                d.current_size + *sz
            } else {
                u64::MAX
            },
            total_size: d.total_size,
            done: d.done,
            error: opt_string_clone(&d.error),
        },
        DownloadMessage::Done => Download {
            name: d.name.clone(),
            current_size: d.current_size,
            total_size: d.total_size,
            done: true,
            error: opt_string_clone(&d.error),
        },
        DownloadMessage::Error(e) => Download {
            name: d.name.clone(),
            current_size: d.current_size,
            total_size: d.total_size,
            done: d.done,
            error: Some(e.clone()),
        },
    }
}

/// The completion predicate: every transfer reports done and none
/// holds a terminal error.
pub open spec fn spec_complete(downloads: Seq<DownloadView>) -> bool {
    forall|i: int| 0 <= i < downloads.len() ==> (downloads[i].done && downloads[i].error is None)
}

/// A transfer that holds a terminal error keeps the whole session
/// incomplete, whatever the other transfers report.
pub proof fn lemma_error_blocks_completion(downloads: Seq<DownloadView>, i: int)
    requires
        0 <= i < downloads.len(),
        downloads[i].error is Some,
    ensures
        !spec_complete(downloads),
{
}

/// One orchestrator step on the transfer states: a cancelled
/// orchestrator discards the event; otherwise the event folds into the
/// transfer it belongs to.
pub open spec fn spec_step(
    downloads: Seq<DownloadView>,
    cancelled: bool,
    id: int,
    msg: DownloadMessage,
) -> Seq<DownloadView> {
    if cancelled {
        downloads
    } else {
        downloads.update(id, folded(downloads[id], msg))
    }
}

/// A sequence of orchestrator steps, applied in order.
pub open spec fn spec_step_all(
    downloads: Seq<DownloadView>,
    cancelled: bool,
    events: Seq<(int, DownloadMessage)>,
) -> Seq<DownloadView>
    decreases events.len(),
{
    if events.len() == 0 {
        downloads
    } else {
        spec_step(
            spec_step_all(downloads, cancelled, events.drop_last()),
            cancelled,
            events.last().0,
            events.last().1,
        )
    }
}

/// Cancellation is final: once the orchestrator is cancelled, no
/// sequence of further transfer events changes any transfer state.
pub proof fn lemma_cancelled_is_quiescent(
    downloads: Seq<DownloadView>,
    events: Seq<(int, DownloadMessage)>,
)
    ensures
        spec_step_all(downloads, true, events) == downloads,
    decreases events.len(),
{
    if events.len() > 0 {
        lemma_cancelled_is_quiescent(downloads, events.drop_last());
    }
}

/// Sum of the chunk lengths among a sequence of events.
pub open spec fn chunk_total(msgs: Seq<DownloadMessage>) -> int
    decreases msgs.len(),
{
    if msgs.len() == 0 {
        0
    } else {
        chunk_total(msgs.drop_last()) + match msgs.last() {
            DownloadMessage::AddedChunk(sz) => sz as int,
            _ => 0,
        }
    }
}

/// Whether every event of the sequence is a progress chunk.
pub open spec fn all_progress(msgs: Seq<DownloadMessage>) -> bool {
    forall|i: int| 0 <= i < msgs.len() ==> msgs[i] is AddedChunk
}

/// Folding a sequence of events into one transfer state, in order.
pub open spec fn folded_all(d: DownloadView, msgs: Seq<DownloadMessage>) -> DownloadView
    decreases msgs.len(),
{
    if msgs.len() == 0 {
        d
    } else {
        folded(folded_all(d, msgs.drop_last()), msgs.last())
    }
}

/// Progress accumulates: folding chunk events adds exactly the sum of
/// the chunks' lengths, and the transfer stays not-done, unerrored and
/// of unchanged total size until a done, error or size event arrives.
pub proof fn lemma_progress_accumulates(d: DownloadView, msgs: Seq<DownloadMessage>)
    requires
        all_progress(msgs),
        d.current_size + chunk_total(msgs) <= u64::MAX,
    ensures
        folded_all(d, msgs).current_size == d.current_size + chunk_total(msgs),
        folded_all(d, msgs).done == d.done,
        folded_all(d, msgs).error == d.error,
        folded_all(d, msgs).total_size == d.total_size,
        folded_all(d, msgs).name == d.name,
    decreases msgs.len(),
{
    if msgs.len() > 0 {
        assert(all_progress(msgs.drop_last())) by {
            assert(forall|i: int|
                0 <= i < msgs.drop_last().len() ==> msgs.drop_last()[i] == msgs[i]);
        }
        assert(chunk_total(msgs.drop_last()) <= chunk_total(msgs)) by {
            assert(msgs[msgs.len() - 1] is AddedChunk);
        }
        lemma_progress_accumulates(d, msgs.drop_last());
    }
}

/// The per-transfer states of one session, the descriptors they were
/// spawned from, and the cancellation flag.
#[derive(Debug)]
pub struct DownloadStatus {
    pub config: ResolvedConfig,
    pub descriptors: Vec<TransferDescriptor>,
    pub downloads: Vec<Download>,
    pub cancelled: bool,
}

/// How one download-stage message transforms the session: cancellation
/// sets the flag, a finalization request changes nothing here, and a
/// transfer event steps the transfer states as [`spec_step`] says.
pub open spec fn download_update_post(
    pre: DownloadStatus,
    post: DownloadStatus,
    msg: Message,
) -> bool {
    match msg {
        Message::CancelDownloads => post == (DownloadStatus { cancelled: true, ..pre }),
        Message::Finalize => post == pre,
        Message::Specific(s) => {
            &&& post.downloads.deep_view() == spec_step(
                pre.downloads.deep_view(),
                pre.cancelled,
                s.id as int,
                s.msg,
            )
            &&& post.config == pre.config
            &&& post.descriptors == pre.descriptors
            &&& post.cancelled == pre.cancelled
        },
    }
}

/// What the owner must do after a download-stage message: stop the
/// tasks on cancellation, run finalization when asked, surface a
/// transfer's terminal error, and announce completion the moment the
/// folded states first satisfy the completion predicate.
pub open spec fn download_update_action(pre: DownloadStatus, msg: Message) -> Action {
    match msg {
        Message::CancelDownloads => Action::CancelTransfers,
        Message::Finalize => Action::Finalize,
        Message::Specific(s) => if pre.cancelled {
            Action::Idle
        } else {
            match s.msg {
                DownloadMessage::Error(e) => Action::SurfaceError(e),
                _ => if spec_complete(
                    spec_step(pre.downloads.deep_view(), false, s.id as int, s.msg),
                ) {
                    Action::Complete
                } else {
                    Action::Idle
                },
            }
        },
    }
}

impl DownloadStatus {
    /// Starts a session over the given transfers: one initial transfer
    /// state per descriptor, named after its destination file. Fails
    /// with a configuration error exactly when two descriptors target
    /// the same destination path — two concurrent writers to one file
    /// would be undefined.
    pub fn new(config: ResolvedConfig, descriptors: Vec<TransferDescriptor>) -> (r: Result<
        DownloadStatus,
        ConfigurationError,
    >)
        ensures
            (match r {
                Ok(ds) => {
                    &&& ds.config == config
                    &&& ds.descriptors == descriptors
                    &&& !ds.cancelled
                    &&& ds.downloads.deep_view().len() == descriptors.deep_view().len()
                    &&& forall|i: int|
                        0 <= i < descriptors.deep_view().len() ==> ds.downloads.deep_view()[i]
                            == initial_download(descriptors.deep_view()[i].path)
                    &&& forall|i: int, j: int|
                        0 <= i < j < descriptors.deep_view().len()
                            ==> descriptors.deep_view()[i].path != descriptors.deep_view()[j].path
                },
                Err(e) => {
                    &&& e == ConfigurationError::DuplicateDestination
                    &&& exists|i: int, j: int|
                        0 <= i < j < descriptors.deep_view().len()
                            && descriptors.deep_view()[i].path == descriptors.deep_view()[j].path
                },
            }),
    {
        let mut downloads: Vec<Download> = Vec::new();
        let mut seen: Vec<String> = Vec::new();
        let mut i: usize = 0;
        while i < descriptors.len()
            invariant
                i <= descriptors.len(),
                seen.deep_view().len() == i,
                forall|k: int| 0 <= k < i ==> seen.deep_view()[k] == descriptors.deep_view()[k].path,
                forall|k: int, l: int|
                    0 <= k < l < i ==> descriptors.deep_view()[k].path
                        != descriptors.deep_view()[l].path,
                downloads.deep_view().len() == i,
                forall|k: int|
                    0 <= k < i ==> downloads.deep_view()[k] == initial_download(
                        descriptors.deep_view()[k].path,
                    ),
            decreases descriptors.len() - i,
        {
            let d = &descriptors[i];
            if string_in(&seen, &d.path) {
                proof {
                    let k = choose|k: int| 0 <= k < i && seen.deep_view()[k] == d.path@;
                    assert(descriptors.deep_view()[k].path == descriptors.deep_view()[
                        i as int].path);
                }
                return Err(ConfigurationError::DuplicateDestination);
            }
            proof {
                let ghost dvs = descriptors.deep_view();
                assert forall|k: int| 0 <= k < i implies dvs[k].path != dvs[i as int].path by {
                    assert(seen.deep_view()[k] == descriptors.deep_view()[k].path);
                    assert(!seen.deep_view().contains(d.path@));
                }
            }
            let ghost prev_seen = seen.deep_view();
            let ghost prev_downloads = downloads.deep_view();
            seen.push(d.path.clone());
            downloads.push(
                Download {
                    name: file_display_name(d.path.as_str()),
                    current_size: 0,
                    total_size: None,
                    done: false,
                    error: None,
                },
            );
            proof {
                assert(seen.deep_view() =~= prev_seen.push(descriptors.deep_view()[i as int].path));
                assert(downloads.deep_view() =~= prev_downloads.push(
                    initial_download(descriptors.deep_view()[i as int].path),
                ));
            }
            i += 1;
        }
        Ok(DownloadStatus { config, descriptors, downloads, cancelled: false })
    }

    /// The completion predicate over this session's transfers; see
    /// [`spec_complete`].
    pub fn is_complete(&self) -> (r: bool)
        ensures
            r == spec_complete(self.downloads.deep_view()),
    {
        let mut i: usize = 0;
        while i < self.downloads.len()
            invariant
                i <= self.downloads.len(),
                forall|j: int|
                    0 <= j < i ==> (self.downloads.deep_view()[j].done
                        && self.downloads.deep_view()[j].error is None),
            decreases self.downloads.len() - i,
        {
            let d = &self.downloads[i];
            if !d.done || d.error.is_some() {
                proof {
                    assert(!(self.downloads.deep_view()[i as int].done
                        && self.downloads.deep_view()[i as int].error is None));
                }
                return false;
            }
            i += 1;
        }
        true
    }

    /// Requests every in-flight transfer to stop. Partially written
    /// destination files are left for the caller; no rollback happens.
    pub fn cancel_all(&mut self)
        ensures
            *final(self) == (DownloadStatus { cancelled: true, ..*old(self) }),
    {
        self.cancelled = true;
    }

    /// Which messages the owner may send: a transfer event must name an
    /// existing transfer, and finalization may only be asked for once
    /// the session is complete.
    pub open spec fn msg_allowed(self, msg: Message) -> bool {
        match msg {
            Message::Specific(s) => s.id < self.downloads.len(),
            Message::Finalize => spec_complete(self.downloads.deep_view()),
            Message::CancelDownloads => true,
        }
    }

    /// Folds one download-stage message into the session and says what
    /// the owner must do next: stop the tasks on cancellation, surface
    /// a transfer's terminal error at once, announce completion as soon
    /// as the last transfer is done, and hand finalization on. Events
    /// arriving after cancellation are discarded.
    pub fn update(&mut self, msg: Message) -> (act: Action)
        requires
            old(self).msg_allowed(msg),
        ensures
            download_update_post(*old(self), *final(self), msg),
            act == download_update_action(*old(self), msg),
    {
        match msg {
            Message::CancelDownloads => {
                self.cancelled = true;
                Action::CancelTransfers
            },
            Message::Finalize => Action::Finalize,
            Message::Specific(s) => {
                if self.cancelled {
                    proof {
                        assert(final(self).downloads.deep_view() =~= spec_step(
                            old(self).downloads.deep_view(),
                            true,
                            s.id as int,
                            s.msg,
                        ));
                    }
                    return Action::Idle;
                }
                let updated = apply_download(&self.downloads[s.id], &s.msg);
                self.downloads.set(s.id, updated);
                proof {
                    assert(self.downloads.deep_view() =~= spec_step(
                        old(self).downloads.deep_view(),
                        false,
                        s.id as int,
                        s.msg,
                    ));
                }
                match s.msg {
                    DownloadMessage::Error(e) => Action::SurfaceError(e),
                    _ => {
                        if self.is_complete() {
                            Action::Complete
                        } else {
                            Action::Idle
                        }
                    },
                }
            },
        }
    }
}

} // verus!
