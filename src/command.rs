//! Playback commands and the play-file procedure.
//!
//! A request names a speaker by address. The target is the first session
//! whose reported address is that one; a request that names none, or an
//! unknown command, is not found. The caller then makes the device calls
//! and reports how each went.

use vstd::prelude::*;
use vstd::utf8::encode_utf8;
use crate::net::{Ipv4, PeerAddr};
use crate::environment::{OperationEnv, first_match, resolve_session};
use crate::access::{ApiError, Route};
use crate::paths::{percent_encoded, same_text, percent_encode};

verus! {

/// The playback commands a speaker takes.
#[derive(Clone, Copy, Debug, PartialEq, Eq, Structural)]
pub enum PlaybackCommand {
    Play,
    Pause,
    Stop,
    Next,
    Previous,
    ClearQueue,
    VolumeUp,
    VolumeDown,
}

/// The command that an action word names, if any.
pub open spec fn command_of(action: Seq<char>) -> Option<PlaybackCommand> {
    if action == "play"@ {
        Some(PlaybackCommand::Play)
    } else if action == "pause"@ {
        Some(PlaybackCommand::Pause)
    } else if action == "stop"@ {
        Some(PlaybackCommand::Stop)
    } else if action == "next"@ {
        Some(PlaybackCommand::Next)
    } else if action == "previous"@ {
        Some(PlaybackCommand::Previous)
    } else if action == "queue-clear"@ {
        Some(PlaybackCommand::ClearQueue)
    } else if action == "v-inc"@ {
        Some(PlaybackCommand::VolumeUp)
    } else if action == "v-dec"@ {
        Some(PlaybackCommand::VolumeDown)
    } else {
        None
    }
}

impl PlaybackCommand {
    /// Reads an action word: `play`, `pause`, `stop`, `next`, `previous`,
    /// `queue-clear`, `v-inc` or `v-dec`.
    pub fn parse(action: &str) -> (r: Option<PlaybackCommand>)
        ensures
            r == command_of(action@),
    {
        if same_text(action, "play") {
            Some(PlaybackCommand::Play)
        } else if same_text(action, "pause") {
            Some(PlaybackCommand::Pause)
        } else if same_text(action, "stop") {
            Some(PlaybackCommand::Stop)
        } else if same_text(action, "next") {
            Some(PlaybackCommand::Next)
        } else if same_text(action, "previous") {
            Some(PlaybackCommand::Previous)
        } else if same_text(action, "queue-clear") {
            Some(PlaybackCommand::ClearQueue)
        } else if same_text(action, "v-inc") {
            Some(PlaybackCommand::VolumeUp)
        } else if same_text(action, "v-dec") {
            Some(PlaybackCommand::VolumeDown)
        } else {
            None
        }
    }

    /// The volume step of a relative volume command, zero for the others.
    pub open spec fn spec_volume_step(self) -> i8 {
        match self {
            PlaybackCommand::VolumeUp => 1i8,
            PlaybackCommand::VolumeDown => -1i8,
            _ => 0i8,
        }
    }

    pub fn volume_step(&self) -> (r: i8)
        ensures
            r == self.spec_volume_step(),
    {
        match self {
            PlaybackCommand::VolumeUp => 1,
            PlaybackCommand::VolumeDown => -1,
            _ => 0,
        }
    }
}

/// A playback command bound to the session that is to carry it out.
#[derive(Clone, Copy, Debug, PartialEq, Eq, Structural)]
pub struct PlaybackOrder {
    pub session: usize,
    pub command: PlaybackCommand,
}

/// How a playback request is answered before any device call: forbidden,
/// not found (no such session, or no such command), or an order.
pub open spec fn playback_outcome(
    env: OperationEnv,
    peer: PeerAddr,
    live: Seq<Ipv4>,
    target: Ipv4,
    action: Seq<char>,
) -> Result<PlaybackOrder, ApiError> {
    if !env.spec_admits(Route::Playback, peer) {
        Err(ApiError::Forbidden)
    } else {
        match first_match(live, target) {
            None => Err(ApiError::NotFound),
            Some(i) => match command_of(action) {
                None => Err(ApiError::NotFound),
                Some(c) => Ok(PlaybackOrder { session: i as usize, command: c }),
            },
        }
    }
}

/// Decides a playback request from `peer` for the speaker at `target`.
/// `live[i]` is the address that session `i` reports now.
pub fn dispatch_playback(
    env: &OperationEnv,
    peer: PeerAddr,
    live: &Vec<Ipv4>,
    target: Ipv4,
    action: &str,
) -> (r: Result<PlaybackOrder, ApiError>)
    ensures
        r == playback_outcome(*env, peer, live@, target, action@),
{
    if !env.admits(Route::Playback, peer) {
        return Err(ApiError::Forbidden);
    }
    match resolve_session(live, target) {
        None => Err(ApiError::NotFound),
        Some(i) => match PlaybackCommand::parse(action) {
            None => Err(ApiError::NotFound),
            Some(c) => Ok(PlaybackOrder { session: i, command: c }),
        },
    }
}

/// The answer to a playback request once the device call was made: a call
/// that failed is a device failure, and nothing is retried.
pub open spec fn call_outcome(succeeded: bool) -> Result<(), ApiError> {
    if succeeded {
        Ok(())
    } else {
        Err(ApiError::DeviceFailure)
    }
}

pub fn finish_call(succeeded: bool) -> (r: Result<(), ApiError>)
    ensures
        r == call_outcome(succeeded),
{
    if succeeded {
        Ok(())
    } else {
        Err(ApiError::DeviceFailure)
    }
}

/// An unknown action word for a speaker that exists, from an admitted
/// source, is not found: neither forbidden nor carried out.
pub proof fn lemma_unknown_action_not_found(
    env: OperationEnv,
    peer: PeerAddr,
    live: Seq<Ipv4>,
    target: Ipv4,
    action: Seq<char>,
)
    requires
        env.spec_admits(Route::Playback, peer),
        live.contains(target),
        command_of(action) is None,
    ensures
        playback_outcome(env, peer, live, target, action) == Err::<PlaybackOrder, ApiError>(
            ApiError::NotFound,
        ),
{
    assert(exists|i: int| 0 <= i < live.len() && live[i] == target);
}

/// A request from this machine for an address with no session is not found,
/// never forbidden, whatever the action.
pub proof fn lemma_missing_session_not_found(
    env: OperationEnv,
    peer: PeerAddr,
    live: Seq<Ipv4>,
    target: Ipv4,
    action: Seq<char>,
)
    requires
        peer.spec_is_loopback(),
        !live.contains(target),
    ensures
        playback_outcome(env, peer, live, target, action) == Err::<PlaybackOrder, ApiError>(
            ApiError::NotFound,
        ),
{
    assert(!exists|i: int| 0 <= i < live.len() && live[i] == target);
}

/// The port the media files are served on.
pub const SERVE_PORT: u16 = 46864;

/// The URL under which a speaker fetches the media file at `path` from this
/// machine at `host`: the path's UTF-8 bytes are percent-encoded.
pub open spec fn file_url(host: Ipv4, path: Seq<char>) -> Seq<char> {
    "http://"@ + host.dotted() + ":46864/files/"@ + percent_encoded(encode_utf8(path))
}

pub fn file_uri(host: Ipv4, path: &str) -> (r: String)
    ensures
        r@ == file_url(host, path@),
{
    let mut r = String::from_str("http://");
    r.append(host.to_dotted().as_str());
    r.append(":46864/files/");
    r.append(percent_encode(path).as_str());
    r
}

/// Whether a file replaces what the speaker plays or is queued after it.
#[derive(Clone, Copy, Debug, PartialEq, Eq, Structural)]
pub enum FileMode {
    /// Set the file as the current transport item.
    PlayNow,
    /// Queue the file as the next item.
    QueueNext,
}

impl FileMode {
    /// The route a request in this mode comes through.
    pub open spec fn spec_route(self) -> Route {
        match self {
            FileMode::PlayNow => Route::PlayFile,
            FileMode::QueueNext => Route::QueueNext,
        }
    }

    pub fn route(&self) -> (r: Route)
        ensures
            r == self.spec_route(),
    {
        match self {
            FileMode::PlayNow => Route::PlayFile,
            FileMode::QueueNext => Route::QueueNext,
        }
    }
}

/// A call to make on the target device while playing a file.
#[derive(Clone, Debug, PartialEq, Eq)]
pub enum FileCall {
    /// Set this URL as the current transport item.
    SetTransport(String),
    /// Queue this URL as the next item.
    QueueNext(String),
    /// Ask whether the device is playing.
    QueryPlaying,
    /// Start playback.
    Play,
}

/// Where a play-file procedure stands.
#[derive(Clone, Copy, Debug, PartialEq, Eq, Structural)]
pub enum FileStage {
    PushUrl,
    CheckPlaying,
    StartPlay,
    Done,
    Failed,
}

/// The procedure that hands a media file to a speaker: push its URL, then
/// start playback only if the speaker is not already playing, so that a
/// queued file does not cut into what is playing.
#[derive(Clone, Debug)]
pub struct PlayFile {
    pub session: usize,
    pub url: String,
    pub mode: FileMode,
    pub stage: FileStage,
}

impl PlayFile {
    /// The call the procedure makes at its current stage, if any.
    pub open spec fn spec_next_call(&self) -> Option<FileCall> {
        match self.stage {
            FileStage::PushUrl => Some(
                match self.mode {
                    FileMode::PlayNow => FileCall::SetTransport(self.url),
                    FileMode::QueueNext => FileCall::QueueNext(self.url),
                },
            ),
            FileStage::CheckPlaying => Some(FileCall::QueryPlaying),
            FileStage::StartPlay => Some(FileCall::Play),
            _ => None,
        }
    }

    /// The stage after the speaker answered whether it plays: `Some(true)`
    /// if it said it does, `Some(false)` if not, `None` if it could not say.
    pub open spec fn stage_after_report(report: Option<bool>) -> FileStage {
        if report == Some(true) {
            FileStage::Done
        } else {
            FileStage::StartPlay
        }
    }

    /// The answer to the request once the procedure is over.
    pub open spec fn spec_result(&self) -> Result<(), ApiError> {
        if self.stage == FileStage::Done {
            Ok(())
        } else {
            Err(ApiError::DeviceFailure)
        }
    }

    pub fn next_call(&self) -> (r: Option<FileCall>)
        ensures
            r == self.spec_next_call(),
    {
        match self.stage {
            FileStage::PushUrl => Some(
                match self.mode {
                    FileMode::PlayNow => FileCall::SetTransport(self.url.clone()),
                    FileMode::QueueNext => FileCall::QueueNext(self.url.clone()),
                },
            ),
            FileStage::CheckPlaying => Some(FileCall::QueryPlaying),
            FileStage::StartPlay => Some(FileCall::Play),
            _ => None,
        }
    }

    /// The URL was pushed, or the call failed.
    pub fn url_pushed(&mut self, succeeded: bool)
        requires
            old(self).stage == FileStage::PushUrl,
        ensures
            *final(self) == (PlayFile {
                stage: if succeeded {
                    FileStage::CheckPlaying
                } else {
                    FileStage::Failed
                },
                ..*old(self)
            }),
    {
        self.stage = if succeeded {
            FileStage::CheckPlaying
        } else {
            FileStage::Failed
        };
    }

    /// The speaker answered whether it is playing.
    pub fn playing_reported(&mut self, report: Option<bool>)
        requires
            old(self).stage == FileStage::CheckPlaying,
        ensures
            *final(self) == (PlayFile { stage: PlayFile::stage_after_report(report), ..*old(self) }),
    {
        self.stage = match report {
            Some(true) => FileStage::Done,
            _ => FileStage::StartPlay,
        };
    }

    /// The play call returned, or failed.
    pub fn play_done(&mut self, succeeded: bool)
        requires
            old(self).stage == FileStage::StartPlay,
        ensures
            *final(self) == (PlayFile {
                stage: if succeeded {
                    FileStage::Done
                } else {
                    FileStage::Failed
                },
                ..*old(self)
            }),
    {
        self.stage = if succeeded {
            FileStage::Done
        } else {
            FileStage::Failed
        };
    }

    pub fn is_over(&self) -> (r: bool)
        ensures
            r == (self.stage == FileStage::Done || self.stage == FileStage::Failed),
    {
        match self.stage {
            FileStage::Done | FileStage::Failed => true,
            _ => false,
        }
    }

    pub fn result(&self) -> (r: Result<(), ApiError>)
        ensures
            r == self.spec_result(),
    {
        match self.stage {
            FileStage::Done => Ok(()),
            _ => Err(ApiError::DeviceFailure),
        }
    }
}

/// Decides a play-file request from `peer`: the file at `path` is to go to
/// the first session reported at `target`, by a URL on this machine's first
/// address.
pub fn prepare_play_file(
    env: &OperationEnv,
    peer: PeerAddr,
    live: &Vec<Ipv4>,
    target: Ipv4,
    path: &str,
    mode: FileMode,
) -> (r: Result<PlayFile, ApiError>)
    requires
        env.wf(),
    ensures
        !env.spec_admits(mode.spec_route(), peer) ==> r == Err::<PlayFile, ApiError>(
            ApiError::Forbidden,
        ),
        env.spec_admits(mode.spec_route(), peer) && first_match(live@, target) is None ==> r
            == Err::<PlayFile, ApiError>(ApiError::NotFound),
        env.spec_admits(mode.spec_route(), peer) && first_match(live@, target) is Some ==> (
        r matches Ok(job) && {
            &&& first_match(live@, target) == Some(job.session as int)
            &&& job.url@ == file_url(env.host_addrs@[0], path@)
            &&& job.mode == mode
            &&& job.stage == FileStage::PushUrl
        }),
{
    if !env.admits(mode.route(), peer) {
        return Err(ApiError::Forbidden);
    }
    match resolve_session(live, target) {
        None => Err(ApiError::NotFound),
        Some(i) => {
            let url = file_uri(env.host_addrs[0], path);
            Ok(PlayFile { session: i, url, mode, stage: FileStage::PushUrl })
        },
    }
}

/// Playback is never interrupted: a speaker that says it is playing gets no
/// play call, and one that says it is not, or cannot say, gets one.
pub proof fn lemma_play_only_when_idle(job: PlayFile, report: Option<bool>)
    requires
        job.stage == FileStage::CheckPlaying,
    ensures
        report == Some(true) ==> (PlayFile {
            stage: PlayFile::stage_after_report(report),
            ..job
        }).spec_next_call() is None,
        report != Some(true) ==> (PlayFile {
            stage: PlayFile::stage_after_report(report),
            ..job
        }).spec_next_call() == Some(FileCall::Play),
{
}

} // verus!
