//! Decision logic of the application updater.
//!
//! The caller owns the outside world: the updater endpoint, the download,
//! the hourly timer, the screen-lock probe and the event sink. This module
//! holds what the updater decides: which endpoint to ask, which candidate
//! versions to accept, what to do once a check comes back — install, ask
//! the user, or report that updating is not possible right now — and when
//! to emit download-progress events.

use vstd::prelude::*;

verus! {

/// How often the periodic update check runs: one hour, in milliseconds.
pub const UPDATE_CHECK_INTERVAL_MILLIS: u64 = 3600000;

/// Emit download progress at most this often, except for the last chunk:
/// a tenth of a second, in milliseconds.
pub const DOWNLOAD_PROGRESS_EMIT_INTERVAL_MILLIS: u64 = 100;

/// Progress of an update download, as pushed to the event sink.
#[derive(Clone, Debug)]
pub struct DownloadProgressPayload {
    pub event_type: String,
    pub downloaded: u64,
    pub total: u64,
}

impl DownloadProgressPayload {
    /// A progress payload for `downloaded` of `total` bytes.
    pub fn new(downloaded: u64, total: u64) -> (r: DownloadProgressPayload)
        ensures
            r.event_type@ == "download_progress"@,
            r.downloaded == downloaded,
            r.total == total,
    {
        DownloadProgressPayload { event_type: "download_progress".to_owned(), downloaded, total }
    }
}

/// Notice that an available update cannot be installed right now.
#[derive(Clone, Debug)]
pub struct CouldNotUpdatePayload {
    pub event_type: String,
    pub version: String,
}

impl CouldNotUpdatePayload {
    /// A could-not-update notice for `version`.
    pub fn new(version: String) -> (r: CouldNotUpdatePayload)
        ensures
            r.event_type@ == "could_not_update"@,
            r.version@ == version@,
    {
        CouldNotUpdatePayload { event_type: "could_not_update".to_owned(), version }
    }
}

/// Prompt asking the user whether to install an available update.
#[derive(Clone, Debug)]
pub struct AskForUpdatePayload {
    pub event_type: String,
    pub version: String,
}

impl AskForUpdatePayload {
    /// An ask-for-update prompt for `version`.
    pub fn new(version: String) -> (r: AskForUpdatePayload)
        ensures
            r.event_type@ == "ask_for_update"@,
            r.version@ == version@,
    {
        AskForUpdatePayload { event_type: "ask_for_update".to_owned(), version }
    }
}

/// Why an update cannot proceed.
#[derive(Clone, Copy, Debug, PartialEq, Eq, Structural)]
pub enum UpdateError {
    /// No update has been found and stored by a previous check.
    NoUpdateAvailable,
}

/// What to do after an update check, as decided by
/// [`UpdatesManager::handle_check_result`].
#[derive(Clone, Debug)]
pub enum UpdateDecision {
    /// No update is available; do nothing.
    NoUpdate,
    /// Install the stored update now.
    Proceed,
    /// The screen is locked while auto-update is on: push this notice
    /// instead of installing.
    NotifyCouldNotUpdate(CouldNotUpdatePayload),
    /// Auto-update is off: push this prompt and wait for the user.
    AskUser(AskForUpdatePayload),
}

/// Whether a candidate version offered by the update endpoint is accepted.
/// Normally only strictly newer versions are; with downgrades enabled —
/// needed for switching off the pre-release channel — any version other
/// than the current one is.
pub fn update_version_accepted(
    enable_downgrade: bool,
    candidate_is_current: bool,
    candidate_is_newer: bool,
) -> (r: bool)
    ensures
        r == if enable_downgrade {
            !candidate_is_current
        } else {
            candidate_is_newer
        },
{
    if enable_downgrade {
        !candidate_is_current
    } else {
        candidate_is_newer
    }
}

/// The exchange identity under which nothing exchange-specific is built.
pub open spec fn default_exchange_id() -> Seq<char> {
    "universal"@
}

/// Where the update manifests live.
pub open spec fn updates_url_base() -> Seq<char> {
    "https://raw.githubusercontent.com/tari-project/universe/main/.updater/"@
}

/// The manifest URL asked for a given exchange identity and channel: an
/// exchange-specific build reads its own manifest; otherwise the
/// pre-release channel reads the alpha manifest and everyone else the
/// stable one.
pub open spec fn updates_url(exchange_id: Seq<char>, is_pre_release: bool) -> Seq<char> {
    if exchange_id != default_exchange_id() {
        updates_url_base() + "latest-"@ + exchange_id + ".json"@
    } else if is_pre_release {
        updates_url_base() + "alpha-latest.json"@
    } else {
        updates_url_base() + "latest.json"@
    }
}

/// Keeps the one update a check may have found, by version, until it is
/// installed or dropped. The exchange identity is part of the explicit
/// context handed in once at construction.
pub struct UpdatesManager {
    pending_update_version: Option<String>,
    exchange_id: String,
}

impl UpdatesManager {
    /// The version of the stored update, if a check found one.
    pub closed spec fn pending_version(self) -> Option<Seq<char>> {
        match self.pending_update_version {
            Option::Some(v) => Option::Some(v@),
            Option::None => Option::None,
        }
    }

    /// The exchange identity this manager was built with.
    pub closed spec fn exchange(self) -> Seq<char> {
        self.exchange_id@
    }

    /// A manager with no update stored.
    pub fn new(exchange_id: String) -> (r: UpdatesManager)
        ensures
            r.pending_version() is None,
            r.exchange() == exchange_id@,
    {
        UpdatesManager { pending_update_version: Option::None, exchange_id }
    }

    /// Decide what to do with the result of an update check.
    ///
    /// When no update was found, nothing is stored and nothing happens.
    /// When one was found it is stored, and then: a locked screen under
    /// auto-update yields the could-not-update notice; a forced check, or
    /// auto-update, proceeds with the install; otherwise the user is asked.
    pub fn handle_check_result(
        &mut self,
        found_version: Option<String>,
        force: bool,
        auto_update: bool,
        screen_locked: bool,
    ) -> (r: UpdateDecision)
        ensures
            found_version is None ==> final(self).pending_version() == old(
                self,
            ).pending_version() && r is NoUpdate,
            found_version matches Some(v) ==> {
                &&& final(self).pending_version() == Option::Some(v@)
                &&& screen_locked && auto_update ==> (r matches UpdateDecision::NotifyCouldNotUpdate(
                    p,
                ) && p.version@ == v@ && p.event_type@ == "could_not_update"@)
                &&& !(screen_locked && auto_update) && (force || auto_update) ==> r is Proceed
                &&& !(screen_locked && auto_update) && !force && !auto_update ==> (r matches UpdateDecision::AskUser(
                    p,
                ) && p.version@ == v@ && p.event_type@ == "ask_for_update"@)
            },
            final(self).exchange() == old(self).exchange(),
    {
        match found_version {
            Option::None => UpdateDecision::NoUpdate,
            Option::Some(version) => {
                self.pending_update_version = Option::Some(version.clone());
                if screen_locked && auto_update {
                    UpdateDecision::NotifyCouldNotUpdate(CouldNotUpdatePayload::new(version))
                } else if force || auto_update {
                    UpdateDecision::Proceed
                } else {
                    UpdateDecision::AskUser(AskForUpdatePayload::new(version))
                }
            },
        }
    }

    /// The stored update's version, for an install about to proceed; an
    /// error when no check has stored one.
    pub fn pending_update(&self) -> (r: Result<String, UpdateError>)
        ensures
            r is Ok <==> self.pending_version() is Some,
            r matches Ok(v) ==> Option::Some(v@) == self.pending_version(),
            r is Err ==> r == Result::<String, UpdateError>::Err(UpdateError::NoUpdateAvailable),
    {
        match &self.pending_update_version {
            Option::Some(v) => Ok(v.clone()),
            Option::None => Err(UpdateError::NoUpdateAvailable),
        }
    }

    /// The manifest URL to check, for this manager's exchange identity and
    /// the configured channel.
    pub fn get_updates_url(&self, is_pre_release: bool) -> (r: String)
        ensures
            r@ == updates_url(self.exchange(), is_pre_release),
    {
        let base = "https://raw.githubusercontent.com/tari-project/universe/main/.updater/";
        let default_id: String = "universal".to_owned();
        if !(self.exchange_id == default_id) {
            let r = base.to_owned().concat("latest-").concat(self.exchange_id.as_str()).concat(
                ".json",
            );
            proof {
                assert(r@ =~= updates_url(self.exchange(), is_pre_release));
            }
            r
        } else if is_pre_release {
            let r = base.to_owned().concat("alpha-latest.json");
            proof {
                assert(r@ =~= updates_url(self.exchange(), is_pre_release));
            }
            r
        } else {
            let r = base.to_owned().concat("latest.json");
            proof {
                assert(r@ =~= updates_url(self.exchange(), is_pre_release));
            }
            r
        }
    }
}

/// Accumulates how much of an update has been downloaded and decides when
/// a progress event is due: on the last chunk, and otherwise at most once
/// per emission interval.
pub struct DownloadProgressTracker {
    pub downloaded: u64,
}

impl DownloadProgressTracker {
    /// A tracker with nothing downloaded.
    pub fn new() -> (r: DownloadProgressTracker)
        ensures
            r.downloaded == 0,
    {
        DownloadProgressTracker { downloaded: 0 }
    }

    /// Count one received chunk and decide whether to emit progress.
    ///
    /// The running total grows by the chunk's length, saturating rather
    /// than overflowing. A payload is due exactly when this was the last
    /// chunk — the total has reached a known content length — or the
    /// emission interval has passed since the last event; it reports the
    /// running total out of the content length, or out of the total itself
    /// when the length is unknown.
    pub fn record_chunk(
        &mut self,
        chunk_length: u64,
        content_length: Option<u64>,
        millis_since_last_emit: u64,
    ) -> (r: Option<DownloadProgressPayload>)
        ensures
            final(self).downloaded == if old(self).downloaded + chunk_length <= u64::MAX {
                old(self).downloaded + chunk_length
            } else {
                u64::MAX as int
            },
            ({
                let is_last_chunk = match content_length {
                    Option::Some(cl) => final(self).downloaded >= cl,
                    Option::None => false,
                };
                &&& (r is Some <==> (is_last_chunk || millis_since_last_emit
                    >= DOWNLOAD_PROGRESS_EMIT_INTERVAL_MILLIS))
                &&& r matches Some(p) ==> p.downloaded == final(self).downloaded && p.total == (
                match content_length {
                    Option::Some(cl) => cl,
                    Option::None => final(self).downloaded,
                }) && p.event_type@ == "download_progress"@
            }),
    {
        self.downloaded = if self.downloaded <= u64::MAX - chunk_length {
            self.downloaded + chunk_length
        } else {
            u64::MAX
        };
        let is_last_chunk = match content_length {
            Option::Some(cl) => self.downloaded >= cl,
            Option::None => false,
        };
        if is_last_chunk || millis_since_last_emit >= DOWNLOAD_PROGRESS_EMIT_INTERVAL_MILLIS {
            let total = match content_length {
                Option::Some(cl) => cl,
                Option::None => self.downloaded,
            };
            Some(DownloadProgressPayload::new(self.downloaded, total))
        } else {
            None
        }
    }
}

/// What the hourly update loop observes: the shutdown signal, or the
/// interval elapsing.
#[derive(Clone, Copy, Debug, PartialEq, Eq, Structural)]
pub enum PeriodicUpdateSignal {
    ShutdownReceived,
    IntervalElapsed,
}

/// What the hourly update loop does next.
#[derive(Clone, Copy, Debug, PartialEq, Eq, Structural)]
pub enum PeriodicUpdateStep {
    /// Stop checking: shutdown wins the race at every turn of the loop.
    StopChecking,
    /// Run one unforced, no-downgrade update check; its failure is logged
    /// and the loop keeps going.
    CheckForUpdates,
}

/// The periodic update loop's decision at each turn: stop on shutdown,
/// check on each elapsed interval.
pub fn periodic_update_step(signal: PeriodicUpdateSignal) -> (r: PeriodicUpdateStep)
    ensures
        signal is ShutdownReceived <==> r is StopChecking,
        signal is IntervalElapsed <==> r is CheckForUpdates,
{
    match signal {
        PeriodicUpdateSignal::ShutdownReceived => PeriodicUpdateStep::StopChecking,
        PeriodicUpdateSignal::IntervalElapsed => PeriodicUpdateStep::CheckForUpdates,
    }
}

} // verus!
