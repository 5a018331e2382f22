//! The state that the presentation layer shows, and its transitions.
//!
//! The orchestrator owns one [`App`] per run. The presentation layer and the
//! download task report what happened as an [`Event`]; [`App::step`] moves
//! the state and answers with the [`Command`] to carry out.

use crate::platform::Platform;
use crate::release::{get_latest_version, Asset, AssetView, Release, ReleaseView};
use vstd::prelude::*;

verus! {

/// The state of the update as the user sees it.
#[derive(Clone, Copy, Debug, PartialEq, Eq, Structural)]
pub enum Status {
    NotInstalled,
    UpdateAvailable,
    Downloading,
    FailedToDownload,
}

/// What happened since the last step.
#[derive(Debug, PartialEq, Eq)]
pub enum Event {
    /// The user confirmed the install or the update.
    Confirm,
    /// The download task wrote the whole asset.
    DownloadSucceeded,
    /// The download task gave up; the text says why.
    DownloadFailed(String),
    /// The user asked to launch what is installed.
    RetryLaunch,
    /// The user asked to leave.
    Exit,
}

/// An event as mathematics.
pub enum EventView {
    Confirm,
    DownloadSucceeded,
    DownloadFailed(Seq<char>),
    RetryLaunch,
    Exit,
}

impl View for Event {
    type V = EventView;

    open spec fn view(&self) -> EventView {
        match self {
            Event::Confirm => EventView::Confirm,
            Event::DownloadSucceeded => EventView::DownloadSucceeded,
            Event::DownloadFailed(reason) => EventView::DownloadFailed(reason@),
            Event::RetryLaunch => EventView::RetryLaunch,
            Event::Exit => EventView::Exit,
        }
    }
}

/// What the embedding program is to do after a step.
#[derive(Debug, PartialEq, Eq)]
pub enum Command {
    /// Nothing; keep showing the state.
    Nothing,
    /// Start the download of this asset in the background.
    StartDownload(Asset),
    /// Record the release as installed, launch the binary and leave.
    PersistAndLaunch,
    /// Launch the binary that is installed and leave.
    Launch,
    /// Leave.
    Exit,
}

/// A command as mathematics.
pub enum CommandView {
    Nothing,
    StartDownload(AssetView),
    PersistAndLaunch,
    Launch,
    Exit,
}

impl View for Command {
    type V = CommandView;

    open spec fn view(&self) -> CommandView {
        match self {
            Command::Nothing => CommandView::Nothing,
            Command::StartDownload(asset) => CommandView::StartDownload(asset@),
            Command::PersistAndLaunch => CommandView::PersistAndLaunch,
            Command::Launch => CommandView::Launch,
            Command::Exit => CommandView::Exit,
        }
    }
}

/// The orchestrator's state: the release on offer, the state of the update
/// and the text of the last failure.
#[derive(Debug, PartialEq, Eq)]
pub struct App {
    pub status: Status,
    pub release: Release,
    pub error: String,
}

/// The orchestrator's state as mathematics.
pub struct AppView {
    pub status: Status,
    pub release: ReleaseView,
    pub error: Seq<char>,
}

impl View for App {
    type V = AppView;

    open spec fn view(&self) -> AppView {
        AppView { status: self.status, release: self.release@, error: self.error@ }
    }
}

impl AppView {
    /// The same state with another status.
    pub open spec fn with_status(self, status: Status) -> AppView {
        AppView { status, release: self.release, error: self.error }
    }

    /// The failure state with `reason` as its text.
    pub open spec fn failed(self, reason: Seq<char>) -> AppView {
        AppView { status: Status::FailedToDownload, release: self.release, error: reason }
    }

    /// The release is on offer and the user has not confirmed yet.
    pub open spec fn on_offer(self) -> bool {
        self.status == Status::NotInstalled || self.status == Status::UpdateAvailable
    }

    /// The state after the user confirmed on `platform`, and the command:
    /// with an asset for the platform the download starts, without one the
    /// update has failed.
    pub open spec fn confirm(self, platform: Platform) -> (AppView, CommandView) {
        if self.on_offer() {
            match self.release.asset_for(platform) {
                Some(asset) => (
                    self.with_status(Status::Downloading),
                    CommandView::StartDownload(asset),
                ),
                None => (self.failed("No asset found"@), CommandView::Nothing),
            }
        } else {
            (self, CommandView::Nothing)
        }
    }

    /// The command after the download task reported success.
    pub open spec fn download_succeeded(self) -> CommandView {
        if self.status == Status::Downloading {
            CommandView::PersistAndLaunch
        } else {
            CommandView::Nothing
        }
    }

    /// The state after the download task gave up for `reason`.
    pub open spec fn download_failed(self, reason: Seq<char>) -> AppView {
        if self.status == Status::Downloading {
            self.failed(reason)
        } else {
            self
        }
    }

    /// The command after the user asked to launch what is installed.
    pub open spec fn retry_launch(self) -> CommandView {
        if self.status == Status::FailedToDownload {
            CommandView::Launch
        } else {
            CommandView::Nothing
        }
    }

    /// The command after the user asked to leave.
    pub open spec fn exit(self) -> CommandView {
        if self.status == Status::FailedToDownload {
            CommandView::Exit
        } else {
            CommandView::Nothing
        }
    }

    /// The transition table: the state after `event`, and the command.
    /// An event that the state does not expect changes nothing.
    pub open spec fn step(self, event: EventView, platform: Platform) -> (AppView, CommandView) {
        match event {
            EventView::Confirm => self.confirm(platform),
            EventView::DownloadSucceeded => (self, self.download_succeeded()),
            EventView::DownloadFailed(reason) => (
                self.download_failed(reason),
                CommandView::Nothing,
            ),
            EventView::RetryLaunch => (self, self.retry_launch()),
            EventView::Exit => (self, self.exit()),
        }
    }
}

impl App {
    /// The state in which `release` is offered with `status`.
    pub fn create(release: Release, status: Status) -> (app: App)
        ensures
            app.status == status,
            app.release == release,
            app.error@ == Seq::<char>::empty(),
    {
        App { status, release, error: String::new() }
    }

    /// The user confirmed the install or the update. While the release is
    /// on offer this starts the download of the asset for `platform`, or
    /// fails where the release has none.
    pub fn confirm_install_or_update(&mut self, platform: Platform) -> (command: Command)
        ensures
            (final(self)@, command@) == old(self)@.confirm(platform),
    {
        match self.status {
            Status::NotInstalled | Status::UpdateAvailable => match get_latest_version(
                &self.release,
                platform,
            ) {
                Some(asset) => {
                    self.status = Status::Downloading;
                    Command::StartDownload(asset)
                },
                None => {
                    self.error = "No asset found".to_owned();
                    self.status = Status::FailedToDownload;
                    Command::Nothing
                },
            },
            _ => Command::Nothing,
        }
    }

    /// The download task wrote the whole asset: the release is to be
    /// recorded as installed and launched.
    pub fn download_succeeded(&self) -> (command: Command)
        ensures
            command@ == self@.download_succeeded(),
    {
        match self.status {
            Status::Downloading => Command::PersistAndLaunch,
            _ => Command::Nothing,
        }
    }

    /// The download task gave up: the update has failed, and `reason` is
    /// shown as it is.
    pub fn download_failed(&mut self, reason: String)
        ensures
            final(self)@ == old(self)@.download_failed(reason@),
    {
        match self.status {
            Status::Downloading => {
                self.error = reason;
                self.status = Status::FailedToDownload;
            },
            _ => {},
        }
    }

    /// The user asked, after a failure, to launch what is installed.
    pub fn retry_launch(&self) -> (command: Command)
        ensures
            command@ == self@.retry_launch(),
    {
        match self.status {
            Status::FailedToDownload => Command::Launch,
            _ => Command::Nothing,
        }
    }

    /// The user asked, after a failure, to leave.
    pub fn exit(&self) -> (command: Command)
        ensures
            command@ == self@.exit(),
    {
        match self.status {
            Status::FailedToDownload => Command::Exit,
            _ => Command::Nothing,
        }
    }

    /// Takes one step of the transition table.
    pub fn step(&mut self, event: Event, platform: Platform) -> (command: Command)
        ensures
            (final(self)@, command@) == old(self)@.step(event@, platform),
    {
        match event {
            Event::Confirm => self.confirm_install_or_update(platform),
            Event::DownloadSucceeded => self.download_succeeded(),
            Event::DownloadFailed(reason) => {
                self.download_failed(reason);
                Command::Nothing
            },
            Event::RetryLaunch => self.retry_launch(),
            Event::Exit => self.exit(),
        }
    }
}

/// No step changes the release on offer.
pub proof fn lemma_release_is_kept(app: AppView, event: EventView, platform: Platform)
    ensures
        app.step(event, platform).0.release == app.release,
{
}

/// At most one download runs: a download is started only by a confirmation
/// while none is under way, with the asset chosen for the platform, and the
/// state is then `Downloading`, in which no step starts another.
pub proof fn lemma_one_download_at_a_time(app: AppView, event: EventView, platform: Platform)
    ensures
        app.step(event, platform).1 matches CommandView::StartDownload(asset) ==> {
            &&& app.status == Status::NotInstalled || app.status == Status::UpdateAvailable
            &&& event == EventView::Confirm
            &&& app.release.asset_for(platform) == Some(asset)
            &&& app.step(event, platform).0.status == Status::Downloading
        },
        app.status == Status::Downloading ==> !(app.step(event, platform).1
            is StartDownload),
        app.step(event, platform).0.status == Status::Downloading ==> app.status
            == Status::Downloading || app.step(event, platform).1 is StartDownload,
{
}

/// The installed version is recorded only when a download that was under
/// way has succeeded.
pub proof fn lemma_persist_only_after_success(app: AppView, event: EventView, platform: Platform)
    ensures
        app.step(event, platform).1 == CommandView::PersistAndLaunch <==> (app.status
            == Status::Downloading && event == EventView::DownloadSucceeded),
{
}

/// A failed update is not retried: the failure state is never left.
pub proof fn lemma_failure_is_final(app: AppView, event: EventView, platform: Platform)
    requires
        app.status == Status::FailedToDownload,
    ensures
        app.step(event, platform).0 == app,
        !(app.step(event, platform).1 is StartDownload),
{
}

} // verus!
