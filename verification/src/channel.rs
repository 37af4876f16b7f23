//! Release-channel selection and the update-flow data carried to the caller:
//! the decision logic of the surrounding application's update handling. The
//! network, filesystem, and shell sides of that flow are external
//! collaborators; only their decisions live here.

use vstd::prelude::*;

verus! {

/// What lowercasing yields, character for character. The result depends on
/// the characters alone.
pub uninterp spec fn lower_of(s: Seq<char>) -> Seq<char>;

/// Relies on str::to_lowercase: returns the input's lowercase equivalent,
/// a function of the characters alone.
#[verifier::external_body]
fn lowercase(s: &str) -> (r: String)
    ensures
        r@ == lower_of(s@),
{
    s.to_lowercase()
}

/// A release channel: stable builds, or beta pre-releases.
#[derive(Clone, Copy, Debug, PartialEq, Eq, Structural)]
pub enum ReleaseChannel {
    Stable,
    Beta,
}

/// The channel a caller-supplied name selects: the name lowercases to
/// "beta", or anything else, which falls back to stable.
pub open spec fn channel_of(s: Seq<char>) -> ReleaseChannel {
    if lower_of(s) == "beta"@ {
        ReleaseChannel::Beta
    } else {
        ReleaseChannel::Stable
    }
}

impl ReleaseChannel {
    /// Parse a channel name, case-insensitively; unknown names fall back to
    /// stable.
    pub fn from_str(s: &str) -> (r: Self)
        ensures
            r == channel_of(s@),
    {
        let lower = lowercase(s);
        if lower == String::from_str("beta") {
            ReleaseChannel::Beta
        } else {
            ReleaseChannel::Stable
        }
    }

    /// The channel's canonical name.
    pub fn to_str(&self) -> (r: &'static str)
        ensures
            *self is Stable ==> r@ == "stable"@,
            *self is Beta ==> r@ == "beta"@,
    {
        match self {
            ReleaseChannel::Stable => "stable",
            ReleaseChannel::Beta => "beta",
        }
    }

    /// The endpoint override for the channel: the beta channel checks the
    /// pre-release feed, while the stable channel keeps the built-in
    /// endpoint.
    pub fn endpoint_override(&self) -> (r: Option<&'static str>)
        ensures
            *self is Beta ==> (r matches Some(u) && u@
                == "https://github.com/yorphos/invariant/releases/download/latest-beta/latest.json"@),
            *self is Stable ==> r is None,
    {
        match self {
            ReleaseChannel::Beta => Some(
                "https://github.com/yorphos/invariant/releases/download/latest-beta/latest.json",
            ),
            ReleaseChannel::Stable => None,
        }
    }
}

/// An error of the update flow.
#[derive(Debug, PartialEq)]
pub enum Error {
    /// The update provider failed, with its message.
    Updater(String),
    /// An install was requested while no update was pending.
    NoPendingUpdate,
}

impl Error {
    /// The error's caller-facing text.
    pub fn message(&self) -> (r: String)
        ensures
            self matches Error::Updater(s) ==> r@ == "updater error: "@ + s@,
            *self is NoPendingUpdate ==> r@ == "there is no pending update"@,
    {
        match self {
            Error::Updater(s) => String::from_str("updater error: ").concat(s.as_str()),
            Error::NoPendingUpdate => String::from_str("there is no pending update"),
        }
    }
}

/// The decision of an install request: the pending update, stored by the
/// last check, is taken out and installed; with none pending the request
/// fails. Either way no update stays pending afterward.
pub fn take_pending_update<T>(pending: &mut Option<T>) -> (r: Result<T, Error>)
    ensures
        (*final(pending)) is None,
        match *old(pending) {
            Some(u) => (r matches Ok(v) && v == u),
            None => (r matches Err(e) && e is NoPendingUpdate),
        },
{
    match pending.take() {
        Some(u) => Ok(u),
        None => Err(Error::NoPendingUpdate),
    }
}

/// A progress report of an update download, sent to the caller as it runs.
#[derive(Clone, Copy, Debug, PartialEq, Eq, Structural)]
pub enum DownloadEvent {
    Started { content_length: Option<u64> },
    Progress { chunk_length: usize },
    Finished,
}

/// Metadata of an available update, handed to the caller.
#[derive(Clone, Debug)]
pub struct UpdateMetadata {
    pub version: String,
    pub current_version: String,
    pub date: Option<String>,
    pub body: Option<String>,
}

/// Decides which progress reports each received chunk produces: the start
/// marker exactly once, before the first chunk's report, then one progress
/// report per chunk.
pub struct DownloadTracker {
    pub started: bool,
}

impl DownloadTracker {
    /// A tracker for a download that has not started.
    pub fn new() -> (r: DownloadTracker)
        ensures
            !r.started,
    {
        DownloadTracker { started: false }
    }

    /// The reports to emit for one received chunk, in order.
    pub fn on_chunk(&mut self, chunk_length: usize, content_length: Option<u64>) -> (reports: Vec<
        DownloadEvent,
    >)
        ensures
            final(self).started,
            !old(self).started ==> reports@ =~= seq![
                (DownloadEvent::Started { content_length }),
                (DownloadEvent::Progress { chunk_length }),
            ],
            old(self).started ==> reports@ =~= seq![(DownloadEvent::Progress { chunk_length })],
    {
        let mut reports: Vec<DownloadEvent> = Vec::new();
        if !self.started {
            reports.push(DownloadEvent::Started { content_length });
            self.started = true;
        }
        reports.push(DownloadEvent::Progress { chunk_length });
        reports
    }

    /// The report to emit when the download completes.
    pub fn on_finished(&self) -> (report: DownloadEvent)
        ensures
            report == DownloadEvent::Finished,
    {
        DownloadEvent::Finished
    }
}

} // verus!
