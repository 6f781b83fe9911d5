//! The client's ROM download: one background download at a time and the state it shows.

use vstd::prelude::*;
use vstd::string::*;
use crate::client_auth::ChannelPoll;
use crate::backend_client::RomDownload;

verus! {

/// What the client shows of the download.
#[derive(Debug, Clone, PartialEq, Eq)]
pub enum RomDownloadState {
    Idle,
    Downloading,
    Completed(RomDownload),
    Error(String),
}

impl Default for RomDownloadState {
    fn default() -> (r: Self)
        ensures
            r is Idle,
    {
        RomDownloadState::Idle
    }
}

pub const DOWNLOAD_ALREADY_RUNNING: &'static str = "téléchargement ROM déjà en cours";

pub const DOWNLOAD_INTERRUPTED: &'static str = "téléchargement ROM interrompu";

/// The work of a download: fetch the ROM of `game_id` with the bearer token and publish it
/// under `destination_directory`.
#[derive(Debug, Clone, PartialEq, Eq)]
pub struct RomDownloadJob {
    pub backend_url: String,
    pub bearer_token: String,
    pub game_id: i64,
    pub destination_directory: String,
}

pub struct ClientRomDownload {
    pending: bool,
    state: RomDownloadState,
}

impl ClientRomDownload {
    pub closed spec fn pending(&self) -> bool {
        self.pending
    }

    pub closed spec fn spec_state(&self) -> RomDownloadState {
        self.state
    }

    /// A download runs exactly while the state shows one.
    pub open spec fn wf(&self) -> bool {
        self.pending() <==> self.spec_state() is Downloading
    }

    pub fn new() -> (r: ClientRomDownload)
        ensures
            r.wf(),
            !r.pending(),
            r.spec_state() is Idle,
    {
        ClientRomDownload { pending: false, state: RomDownloadState::Idle }
    }

    pub fn state(&self) -> (r: &RomDownloadState)
        ensures
            *r == self.spec_state(),
    {
        &self.state
    }

    /// Marks a download as started, unless one already runs, and hands back the work: fetch
    /// the game's ROM with the token and publish it in the destination directory.
    pub fn start(
        &mut self,
        backend_url: String,
        bearer_token: String,
        game_id: i64,
        destination_directory: String,
    ) -> (r: Result<RomDownloadJob, String>)
        requires
            old(self).wf(),
        ensures
            final(self).wf(),
            old(self).pending() ==> (r matches Err(e) && e@ == DOWNLOAD_ALREADY_RUNNING@)
                && *final(self) == *old(self),
            !old(self).pending() ==> (r matches Ok(job) && job == (RomDownloadJob {
                backend_url,
                bearer_token,
                game_id,
                destination_directory,
            })) && final(self).pending() && final(self).spec_state() is Downloading,
    {
        if self.pending {
            return Err(String::from_str(DOWNLOAD_ALREADY_RUNNING));
        }
        self.pending = true;
        self.state = RomDownloadState::Downloading;
        Ok(RomDownloadJob { backend_url, bearer_token, game_id, destination_directory })
    }

    /// Takes the outcome of the running download, if it has finished, and shows it.
    pub fn poll(&mut self, event: ChannelPoll<Result<RomDownload, String>>) -> (r: Option<
        &RomDownloadState,
    >)
        requires
            old(self).wf(),
        ensures
            final(self).wf(),
            (!old(self).pending() || event is Empty) ==> r is None && *final(self) == *old(self),
            old(self).pending() ==> match event {
                ChannelPoll::Empty => true,
                ChannelPoll::Received(Ok(download)) => r == Some(&final(self).spec_state())
                    && final(self).spec_state() == RomDownloadState::Completed(download),
                ChannelPoll::Received(Err(e)) => r == Some(&final(self).spec_state())
                    && final(self).spec_state() == RomDownloadState::Error(e),
                ChannelPoll::Disconnected => r == Some(&final(self).spec_state())
                    && (final(self).spec_state() matches RomDownloadState::Error(e)
                    && e@ == DOWNLOAD_INTERRUPTED@),
            },
    {
        if !self.pending {
            return None;
        }
        match event {
            ChannelPoll::Empty => None,
            ChannelPoll::Received(Ok(download)) => {
                self.pending = false;
                self.state = RomDownloadState::Completed(download);
                Some(&self.state)
            },
            ChannelPoll::Received(Err(error)) => {
                self.pending = false;
                self.state = RomDownloadState::Error(error);
                Some(&self.state)
            },
            ChannelPoll::Disconnected => {
                self.pending = false;
                self.state = RomDownloadState::Error(String::from_str(DOWNLOAD_INTERRUPTED));
                Some(&self.state)
            },
        }
    }
}

impl Default for ClientRomDownload {
    fn default() -> (r: Self)
        ensures
            r.wf(),
            !r.pending(),
            r.spec_state() is Idle,
    {
        ClientRomDownload::new()
    }
}

} // verus!
