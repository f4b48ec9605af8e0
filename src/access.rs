//! The request guard: which source addresses each route admits.
//!
//! Two tiers. Most routes admit this machine itself, and anyone once the
//! server mode is on. The media file route admits this machine and the known
//! speakers, which fetch the files they were told to play, whatever the mode.

use vstd::prelude::*;
use crate::net::PeerAddr;
use crate::environment::OperationEnv;

verus! {

/// The routes of the HTTP surface.
#[derive(Clone, Copy, Debug, PartialEq, Eq, Structural)]
pub enum Route {
    /// A media file under the media root.
    Files,
    /// The entries of a directory under the media root.
    FileList,
    /// The speakers' current state.
    Speakers,
    /// A playback command.
    Playback,
    /// Play a media file now.
    PlayFile,
    /// Queue a media file next.
    QueueNext,
    /// The frontend's static files.
    Frontend,
}

/// How a request fails.
#[derive(Clone, Copy, Debug, PartialEq, Eq, Structural)]
pub enum ApiError {
    /// The source address is not trusted for the route.
    Forbidden,
    /// No such command, session or file.
    NotFound,
    /// The device call failed.
    DeviceFailure,
}

impl ApiError {
    /// The HTTP status that reports the failure.
    pub open spec fn spec_status(self) -> u16 {
        match self {
            ApiError::Forbidden => 403,
            ApiError::NotFound => 404,
            ApiError::DeviceFailure => 500,
        }
    }

    pub fn status(&self) -> (r: u16)
        ensures
            r == self.spec_status(),
    {
        match self {
            ApiError::Forbidden => 403,
            ApiError::NotFound => 404,
            ApiError::DeviceFailure => 500,
        }
    }
}

impl OperationEnv {
    /// Whether `route` admits a request from `peer`.
    pub open spec fn spec_admits(&self, route: Route, peer: PeerAddr) -> bool {
        peer.spec_is_loopback() || match route {
            Route::Files => match peer {
                PeerAddr::V4(ip) => self.session_addrs@.contains(ip),
                PeerAddr::V6(_) => false,
            },
            _ => self.server_mode,
        }
    }

    pub fn admits(&self, route: Route, peer: PeerAddr) -> (r: bool)
        ensures
            r == self.spec_admits(route, peer),
    {
        if peer.is_loopback() {
            return true;
        }
        match route {
            Route::Files => match peer {
                PeerAddr::V4(ip) => self.is_known_device(ip),
                PeerAddr::V6(_) => false,
            },
            _ => self.server_mode,
        }
    }

    /// Lets a request through to the route's handler, or stops it as forbidden.
    pub fn guard(&self, route: Route, peer: PeerAddr) -> (r: Result<(), ApiError>)
        ensures
            r is Ok <==> self.spec_admits(route, peer),
            r is Err ==> r == Err::<(), ApiError>(ApiError::Forbidden),
    {
        if self.admits(route, peer) {
            Ok(())
        } else {
            Err(ApiError::Forbidden)
        }
    }
}

/// Every route admits this machine itself, whatever the server mode.
pub proof fn lemma_loopback_always_admitted(env: OperationEnv, route: Route, peer: PeerAddr)
    requires
        peer.spec_is_loopback(),
    ensures
        env.spec_admits(route, peer),
        (OperationEnv { server_mode: !env.server_mode, ..env }).spec_admits(route, peer),
{
}

/// Without the server mode, a request from another machine is refused on
/// every route but the media files, where only the known speakers pass.
pub proof fn lemma_remote_refused_without_server_mode(
    env: OperationEnv,
    route: Route,
    peer: PeerAddr,
)
    requires
        !peer.spec_is_loopback(),
        !env.server_mode,
    ensures
        route != Route::Files ==> !env.spec_admits(route, peer),
        route == Route::Files ==> (env.spec_admits(route, peer) <==> (peer matches PeerAddr::V4(
            ip,
        ) && env.session_addrs@.contains(ip))),
{
}

} // verus!
