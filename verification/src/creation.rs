//! The session state machine: from catalog load through selection and
//! download to finalization.
//!
//! A [`State`] is the single owner of the session. The caller performs
//! the outside work — fetching the catalog, choosing a directory,
//! running the transfers, writing the final configuration — and hands
//! the outcomes back as [`Message`]s; [`State::update`] folds each
//! message into the current [`Page`] and answers with the [`Action`]
//! the caller must perform next.

use vstd::prelude::*;
use vstd::pervasive::unreached;
use crate::catalog::OsEntry;
use crate::download;
use crate::download::{DownloadStatus, TransferDescriptor};
use crate::selection;
use crate::selection::{cfg_matches_all, ConfigurationError, OptionSelection, ResolvedConfig};

verus! {

/// Where the session stands.
#[derive(Debug)]
pub enum Page {
    /// The catalog is being fetched.
    Loading,
    /// The catalog arrived; the user picks an OS entry.
    SelectOS,
    /// The user narrows release, edition and architecture.
    Options(OptionSelection),
    /// The transfers run; their states are folded here.
    Download(DownloadStatus),
    /// The finalization step runs.
    Finalizing,
    /// The session succeeded; the written configuration's path.
    Complete(String),
    /// The session ended in an error, with its display string.
    Error(String),
}

/// What the outside reports to the session.
#[derive(Debug)]
pub enum Message {
    /// The catalog arrived.
    OSList(Vec<OsEntry>),
    /// The user picked an OS entry.
    SelectedOS(OsEntry),
    /// A selection-stage message.
    Options(selection::Message),
    /// The user committed the selection under this name; one transfer
    /// descriptor per file the resolved configuration requires.
    StartDownloads(String, Vec<TransferDescriptor>),
    /// A download-stage message.
    Download(download::Message),
    /// A terminal error with its display string.
    Error(String),
    /// Jump to the given page.
    ChangePage(Box<Page>),
    /// Finalization succeeded and wrote the configuration here.
    FinalizedConfigPath(String),
}

/// What the caller must do after an update.
#[derive(Debug)]
pub enum Action {
    /// Nothing to do.
    Idle,
    /// Fetch the catalog and report the outcome back: the OS list, or a
    /// terminal selection-stage error.
    FetchCatalog,
    /// Open the directory chooser and report the choice back.
    PickDirectory,
    /// Spawn one transfer task per descriptor of the new download page.
    StartTransfers,
    /// Request every in-flight transfer task to stop.
    CancelTransfers,
    /// Show the surfaced transfer error; the remaining transfers keep
    /// running.
    SurfaceError(String),
    /// Every transfer is done and none errored; the session owner may
    /// ask for finalization.
    Complete,
    /// Run the finalization step with the resolved configuration, off
    /// the scheduling context, and report the outcome back.
    Finalize(ResolvedConfig),
}

/// One session: the loaded catalog, the current page, and the values
/// that seed a fresh selection — the remembered destination directory
/// and the recommended resource choices.
#[derive(Debug)]
pub struct State {
    pub os_list: Vec<OsEntry>,
    pub page: Page,
    pub default_vm_dir: String,
    pub recommended_cpu_cores: usize,
    pub recommended_ram_bytes: u64,
}

/// The session fields no message ever changes.
pub open spec fn same_seeds(a: State, b: State) -> bool {
    &&& a.default_vm_dir == b.default_vm_dir
    &&& a.recommended_cpu_cores == b.recommended_cpu_cores
    &&& a.recommended_ram_bytes == b.recommended_ram_bytes
}

impl State {
    /// A session starts on the loading page, seeded with the remembered
    /// directory and the recommended resources, and asks the caller to
    /// fetch the catalog.
    pub fn new(default_vm_dir: String, recommended_cpu_cores: usize, recommended_ram_bytes: u64) -> (r: (
        State,
        Action,
    ))
        ensures
            r.0.os_list.deep_view().len() == 0,
            r.0.page is Loading,
            r.0.default_vm_dir == default_vm_dir,
            r.0.recommended_cpu_cores == recommended_cpu_cores,
            r.0.recommended_ram_bytes == recommended_ram_bytes,
            r.1 is FetchCatalog,
    {
        let state = State {
            os_list: Vec::new(),
            page: Page::Loading,
            default_vm_dir,
            recommended_cpu_cores,
            recommended_ram_bytes,
        };
        proof {
            assert(state.os_list.deep_view() =~= Seq::<crate::catalog::OsEntryView>::empty());
        }
        (state, Action::FetchCatalog)
    }

    /// Which messages the outside may send: stage messages only on
    /// their stage's page, selections only among candidates, transfer
    /// events only for existing transfers, commits only with release
    /// and architecture selected, finalization only once complete.
    pub open spec fn msg_allowed(self, msg: Message) -> bool {
        match msg {
            Message::Options(m) => self.page matches Page::Options(o) && o.msg_allowed(m),
            Message::StartDownloads(_name, _descriptors) => self.page matches Page::Options(o)
                && o.release_list.selected is Some && o.arch_list.selected is Some,
            Message::Download(m) => self.page matches Page::Download(ds) && ds.msg_allowed(m),
            _ => true,
        }
    }

    /// Folds one message into the session and says what the caller must
    /// do next.
    pub fn update(&mut self, msg: Message) -> (act: Action)
        requires
            old(self).msg_allowed(msg),
        ensures
            same_seeds(*final(self), *old(self)),
            (match msg {
                Message::OSList(l) => {
                    &&& *final(self) == (State {
                        os_list: l,
                        page: Page::SelectOS,
                        ..*old(self)
                    })
                    &&& act is Idle
                },
                Message::SelectedOS(os) => {
                    &&& final(self).os_list == old(self).os_list
                    &&& final(self).page matches Page::Options(o) && selection::fresh_selection(
                        o,
                        os,
                        old(self).default_vm_dir,
                        old(self).recommended_cpu_cores,
                        old(self).recommended_ram_bytes,
                    )
                    &&& act is Idle
                },
                Message::Options(m) => {
                    &&& final(self).os_list == old(self).os_list
                    &&& old(self).page matches Page::Options(pre)
                        && final(self).page matches Page::Options(post)
                        && selection::options_update_post(pre, post, m)
                    &&& act == (match selection::options_update_action(m) {
                        selection::Action::PickDirectory => Action::PickDirectory,
                        selection::Action::Idle => Action::Idle,
                    })
                },
                Message::StartDownloads(vm_name, descriptors) => {
                    &&& final(self).os_list == old(self).os_list
                    &&& old(self).page matches Page::Options(o) && start_downloads_post(
                        o,
                        vm_name,
                        descriptors,
                        final(self).page,
                        act,
                    )
                },
                Message::Download(m) => {
                    &&& final(self).os_list == old(self).os_list
                    &&& old(self).page matches Page::Download(pre) && (match m {
                        download::Message::CancelDownloads => {
                            &&& final(self).page is SelectOS
                            &&& act is CancelTransfers
                        },
                        download::Message::Finalize => {
                            &&& final(self).page is Finalizing
                            &&& act matches Action::Finalize(rc) && rc.deep_view()
                                == pre.config.deep_view()
                        },
                        download::Message::Specific(_) => {
                            &&& final(self).page matches Page::Download(post)
                                && download::download_update_post(pre, post, m)
                            &&& act == (match download::download_update_action(pre, m) {
                                download::Action::SurfaceError(e) => Action::SurfaceError(e),
                                download::Action::Complete => Action::Complete,
                                _ => Action::Idle,
                            })
                        },
                    })
                },
                Message::Error(e) => {
                    &&& final(self).os_list == old(self).os_list
                    &&& final(self).page matches Page::Error(msg_text) && msg_text == e
                    &&& act is Idle
                },
                Message::ChangePage(p) => {
                    &&& final(self).os_list == old(self).os_list
                    &&& final(self).page == *p
                    &&& act is Idle
                },
                Message::FinalizedConfigPath(path) => {
                    &&& final(self).os_list == old(self).os_list
                    &&& final(self).page matches Page::Complete(written) && written == path
                    &&& act is Idle
                },
            }),
    {
        match msg {
            Message::OSList(l) => {
                self.os_list = l;
                self.page = Page::SelectOS;
                Action::Idle
            },
            Message::SelectedOS(os) => {
                self.page = Page::Options(
                    OptionSelection::new(
                        os,
                        self.default_vm_dir.clone(),
                        self.recommended_cpu_cores,
                        self.recommended_ram_bytes,
                    ),
                );
                Action::Idle
            },
            Message::Options(m) => {
                let mut page = Page::Loading;
                core::mem::swap(&mut self.page, &mut page);
                match page {
                    Page::Options(mut options) => {
                        let act = options.update(m);
                        self.page = Page::Options(options);
                        match act {
                            selection::Action::PickDirectory => Action::PickDirectory,
                            selection::Action::Idle => Action::Idle,
                        }
                    },
                    _ => unreached(),
                }
            },
            Message::StartDownloads(vm_name, descriptors) => {
                let mut page = Page::Loading;
                core::mem::swap(&mut self.page, &mut page);
                match page {
                    Page::Options(options) => {
                        match options.resolve(vm_name.as_str()) {
                            Ok(rc) => match DownloadStatus::new(rc, descriptors) {
                                Ok(ds) => {
                                    self.page = Page::Download(ds);
                                    Action::StartTransfers
                                },
                                Err(e) => {
                                    self.page = Page::Error(e.message());
                                    Action::Idle
                                },
                            },
                            Err(e) => {
                                self.page = Page::Error(e.message());
                                Action::Idle
                            },
                        }
                    },
                    _ => unreached(),
                }
            },
            Message::Download(m) => {
                let mut page = Page::Loading;
                core::mem::swap(&mut self.page, &mut page);
                match page {
                    Page::Download(mut ds) => {
                        match m {
                            download::Message::CancelDownloads => {
                                self.page = Page::SelectOS;
                                Action::CancelTransfers
                            },
                            download::Message::Finalize => {
                                let rc = ds.config.duplicate();
                                self.page = Page::Finalizing;
                                Action::Finalize(rc)
                            },
                            download::Message::Specific(s) => {
                                let act = ds.update(download::Message::Specific(s));
                                self.page = Page::Download(ds);
                                match act {
                                    download::Action::SurfaceError(e) => Action::SurfaceError(e),
                                    download::Action::Complete => Action::Complete,
                                    _ => Action::Idle,
                                }
                            },
                        }
                    },
                    _ => unreached(),
                }
            },
            Message::Error(e) => {
                self.page = Page::Error(e);
                Action::Idle
            },
            Message::ChangePage(p) => {
                self.page = *p;
                Action::Idle
            },
            Message::FinalizedConfigPath(path) => {
                self.page = Page::Complete(path);
                Action::Idle
            },
        }
    }
}

/// What committing a selection leads to: when no configuration matches
/// the three selections the session shows the commit error; when two
/// descriptors share a destination it shows the configuration error;
/// otherwise the download page holds the resolved configuration — the
/// first matching one — and one initial transfer state per descriptor,
/// and the transfers are started.
pub open spec fn start_downloads_post(
    o: OptionSelection,
    vm_name: String,
    descriptors: Vec<TransferDescriptor>,
    page: Page,
    act: Action,
) -> bool {
    let cfgs = o.cfgs();
    let rel = o.rel_sel()->0;
    let ed = o.ed_sel();
    let ar = o.ar_sel()->0;
    let has_match = exists|i: int|
        0 <= i < cfgs.len() && #[trigger] cfg_matches_all(cfgs[i], rel, ed, ar);
    let dup = exists|i: int, j: int|
        0 <= i < j < descriptors.deep_view().len() && descriptors.deep_view()[i].path
            == descriptors.deep_view()[j].path;
    if !has_match {
        &&& page matches Page::Error(e) && e@
            == ConfigurationError::NoMatchingConfig.spec_message()
        &&& act is Idle
    } else if dup {
        &&& page matches Page::Error(e) && e@
            == ConfigurationError::DuplicateDestination.spec_message()
        &&& act is Idle
    } else {
        &&& page matches Page::Download(ds) && {
            &&& ds.config.os@ == o.selected_os.name@
            &&& ds.config.vm_name@ == vm_name@
            &&& ds.config.directory@ == o.directory@
            &&& ds.config.cpu_cores == o.cpu_cores
            &&& ds.config.ram_bytes == o.ram_bytes
            &&& exists|i: int|
                #![auto]
                0 <= i < cfgs.len() && cfg_matches_all(cfgs[i], rel, ed, ar)
                    && ds.config.config.deep_view() == cfgs[i] && (forall|j: int|
                    0 <= j < i ==> !cfg_matches_all(cfgs[j], rel, ed, ar))
            &&& ds.descriptors == descriptors
            &&& !ds.cancelled
            &&& ds.downloads.deep_view().len() == descriptors.deep_view().len()
            &&& forall|i: int|
                0 <= i < descriptors.deep_view().len() ==> ds.downloads.deep_view()[i]
                    == download::initial_download(descriptors.deep_view()[i].path)
        }
        &&& act is StartTransfers
    }
}

} // verus!
