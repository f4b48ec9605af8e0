//! Turning configured descriptors into live device sessions.
//!
//! A build connects to the descriptor's address and then pushes the sound
//! profile, one setting at a time, in a fixed order. A failed connection
//! skips the descriptor; a failed setting is passed over and the session
//! stays live. The caller performs each [`SetupAction`] on the device and
//! reports back how it went.

use vstd::prelude::*;
use crate::net::Ipv4;

verus! {

/// The baseline audio settings pushed to a speaker when its session is built.
#[derive(Clone, Copy, Debug, PartialEq, Eq, Structural)]
pub struct SoundProfile {
    pub volume: u16,
    pub crossfade: bool,
    pub shuffle: bool,
    pub repeat: bool,
    pub loudness: bool,
    pub treble: i8,
    pub bass: i8,
}

impl SoundProfile {
    pub open spec fn spec_default() -> SoundProfile {
        SoundProfile {
            volume: 10,
            crossfade: false,
            shuffle: false,
            repeat: false,
            loudness: false,
            treble: 5,
            bass: 5,
        }
    }
}

impl Default for SoundProfile {
    fn default() -> (r: SoundProfile)
        ensures
            r == SoundProfile::spec_default(),
    {
        SoundProfile {
            volume: 10,
            crossfade: false,
            shuffle: false,
            repeat: false,
            loudness: false,
            treble: 5,
            bass: 5,
        }
    }
}

/// One configured speaker slot: where it is and how it should sound.
#[derive(Clone, Copy, Debug, PartialEq, Eq, Structural)]
pub struct DeviceDescriptor {
    pub ip: Ipv4,
    pub sound: SoundProfile,
}

impl DeviceDescriptor {
    pub open spec fn spec_default() -> DeviceDescriptor {
        DeviceDescriptor { ip: Ipv4::spec_loopback(), sound: SoundProfile::spec_default() }
    }
}

impl Default for DeviceDescriptor {
    /// A placeholder slot on this machine, with the default profile.
    fn default() -> (r: DeviceDescriptor)
        ensures
            r == DeviceDescriptor::spec_default(),
    {
        DeviceDescriptor { ip: Ipv4::loopback(), sound: SoundProfile::default() }
    }
}

/// The configuration: the media root and the speaker slots.
#[derive(Clone, Debug)]
pub struct Config {
    pub path: String,
    pub speaker: Vec<DeviceDescriptor>,
}

/// The number of placeholder slots in a fresh configuration.
pub const DEFAULT_SLOTS: usize = 3;

impl Default for Config {
    /// An empty media root and three placeholder slots.
    fn default() -> (r: Config)
        ensures
            r.path@.len() == 0,
            r.speaker@.len() == DEFAULT_SLOTS,
            forall|i: int| 0 <= i < r.speaker@.len() ==> r.speaker@[i] == DeviceDescriptor::spec_default(),
    {
        let d = DeviceDescriptor::default();
        let speaker = vec![d, d, d];
        Config { path: String::new(), speaker }
    }
}

/// The repeat mode a profile asks for.
#[derive(Clone, Copy, Debug, PartialEq, Eq, Structural)]
pub enum RepeatMode {
    Off,
    All,
}

/// A call to make on the device.
#[derive(Clone, Copy, Debug, PartialEq, Eq, Structural)]
pub enum SetupAction {
    Connect(Ipv4),
    Stop,
    SetVolume(u16),
    SetCrossfade(bool),
    SetShuffle(bool),
    SetRepeat(RepeatMode),
    SetLoudness(bool),
    SetTreble(i8),
    SetBass(i8),
    ClearQueue,
}

/// Where a build stands.
#[derive(Clone, Copy, Debug, PartialEq, Eq, Structural)]
pub enum BuildStage {
    Connect,
    Stop,
    Volume,
    Crossfade,
    Shuffle,
    Repeat,
    Loudness,
    Treble,
    Bass,
    ClearQueue,
    /// Connected and configured as far as the device allowed.
    Ready,
    /// The connection failed: no session.
    Skipped,
}

impl BuildStage {
    /// One of the profile settings (including the initial stop and the final
    /// queue clear), each attempted once whatever the one before it did.
    pub open spec fn is_setting(self) -> bool {
        !(self is Connect || self is Ready || self is Skipped)
    }

    pub open spec fn is_finished(self) -> bool {
        self is Ready || self is Skipped
    }

    /// The stage after a setting, whether or not the device accepted it.
    pub open spec fn after_setting(self) -> BuildStage {
        match self {
            BuildStage::Stop => BuildStage::Volume,
            BuildStage::Volume => BuildStage::Crossfade,
            BuildStage::Crossfade => BuildStage::Shuffle,
            BuildStage::Shuffle => BuildStage::Repeat,
            BuildStage::Repeat => BuildStage::Loudness,
            BuildStage::Loudness => BuildStage::Treble,
            BuildStage::Treble => BuildStage::Bass,
            BuildStage::Bass => BuildStage::ClearQueue,
            BuildStage::ClearQueue => BuildStage::Ready,
            other => other,
        }
    }

    /// How many settings remain from this stage on.
    pub open spec fn settings_left(self) -> nat {
        match self {
            BuildStage::Stop => 9,
            BuildStage::Volume => 8,
            BuildStage::Crossfade => 7,
            BuildStage::Shuffle => 6,
            BuildStage::Repeat => 5,
            BuildStage::Loudness => 4,
            BuildStage::Treble => 3,
            BuildStage::Bass => 2,
            BuildStage::ClearQueue => 1,
            _ => 0,
        }
    }
}

/// The call that a descriptor's build makes at a stage, if any.
pub open spec fn action_at(d: DeviceDescriptor, stage: BuildStage) -> Option<SetupAction> {
    match stage {
        BuildStage::Connect => Some(SetupAction::Connect(d.ip)),
        BuildStage::Stop => Some(SetupAction::Stop),
        BuildStage::Volume => Some(SetupAction::SetVolume(d.sound.volume)),
        BuildStage::Crossfade => Some(SetupAction::SetCrossfade(d.sound.crossfade)),
        BuildStage::Shuffle => Some(SetupAction::SetShuffle(d.sound.shuffle)),
        BuildStage::Repeat => Some(
            SetupAction::SetRepeat(if d.sound.repeat { RepeatMode::All } else { RepeatMode::Off }),
        ),
        BuildStage::Loudness => Some(SetupAction::SetLoudness(d.sound.loudness)),
        BuildStage::Treble => Some(SetupAction::SetTreble(d.sound.treble)),
        BuildStage::Bass => Some(SetupAction::SetBass(d.sound.bass)),
        BuildStage::ClearQueue => Some(SetupAction::ClearQueue),
        BuildStage::Ready => None,
        BuildStage::Skipped => None,
    }
}

/// The build of one session from one descriptor. `H` is the device handle.
pub struct SessionBuild<H> {
    pub descriptor: DeviceDescriptor,
    pub stage: BuildStage,
    pub handle: Option<H>,
}

impl<H> SessionBuild<H> {
    /// A handle is held exactly once the connection has succeeded.
    pub open spec fn wf(&self) -> bool {
        (self.handle is Some) <==> !(self.stage is Connect || self.stage is Skipped)
    }

    /// The session this build yields: its handle once it is ready, else none.
    pub open spec fn spec_outcome(&self) -> Option<H> {
        if self.stage is Ready {
            self.handle
        } else {
            None
        }
    }

    /// The state after a successful connection that gave `handle`.
    pub open spec fn after_connect(self, handle: H) -> SessionBuild<H> {
        SessionBuild { stage: BuildStage::Stop, handle: Some(handle), ..self }
    }

    /// The state after a failed connection.
    pub open spec fn after_connect_failure(self) -> SessionBuild<H> {
        SessionBuild { stage: BuildStage::Skipped, handle: None, ..self }
    }

    /// The state after the given outcomes of the settings, in order.
    pub open spec fn after_settings(self, outcomes: Seq<bool>) -> SessionBuild<H>
        decreases outcomes.len(),
    {
        if outcomes.len() == 0 || !self.stage.is_setting() {
            self
        } else {
            SessionBuild { stage: self.stage.after_setting(), ..self }.after_settings(
                outcomes.drop_first(),
            )
        }
    }

    pub fn new(descriptor: DeviceDescriptor) -> (r: SessionBuild<H>)
        ensures
            r.descriptor == descriptor,
            r.stage == BuildStage::Connect,
            r.handle is None,
            r.wf(),
    {
        SessionBuild { descriptor, stage: BuildStage::Connect, handle: None }
    }

    /// The call to make next, or none once the build is finished.
    pub fn next_action(&self) -> (r: Option<SetupAction>)
        ensures
            r == action_at(self.descriptor, self.stage),
    {
        let d = &self.descriptor;
        match self.stage {
            BuildStage::Connect => Some(SetupAction::Connect(d.ip)),
            BuildStage::Stop => Some(SetupAction::Stop),
            BuildStage::Volume => Some(SetupAction::SetVolume(d.sound.volume)),
            BuildStage::Crossfade => Some(SetupAction::SetCrossfade(d.sound.crossfade)),
            BuildStage::Shuffle => Some(SetupAction::SetShuffle(d.sound.shuffle)),
            BuildStage::Repeat => Some(
                SetupAction::SetRepeat(
                    if d.sound.repeat {
                        RepeatMode::All
                    } else {
                        RepeatMode::Off
                    },
                ),
            ),
            BuildStage::Loudness => Some(SetupAction::SetLoudness(d.sound.loudness)),
            BuildStage::Treble => Some(SetupAction::SetTreble(d.sound.treble)),
            BuildStage::Bass => Some(SetupAction::SetBass(d.sound.bass)),
            BuildStage::ClearQueue => Some(SetupAction::ClearQueue),
            BuildStage::Ready => None,
            BuildStage::Skipped => None,
        }
    }

    pub fn is_finished(&self) -> (r: bool)
        ensures
            r == self.stage.is_finished(),
    {
        match self.stage {
            BuildStage::Ready | BuildStage::Skipped => true,
            _ => false,
        }
    }

    /// The connection succeeded with this handle: the settings come next.
    pub fn connected(&mut self, handle: H)
        requires
            old(self).stage == BuildStage::Connect,
        ensures
            *final(self) == old(self).after_connect(handle),
            final(self).wf(),
    {
        self.stage = BuildStage::Stop;
        self.handle = Some(handle);
    }

    /// The connection failed: the descriptor is skipped and nothing more is
    /// attempted.
    pub fn connect_failed(&mut self)
        requires
            old(self).stage == BuildStage::Connect,
            old(self).wf(),
        ensures
            *final(self) == old(self).after_connect_failure(),
            final(self).wf(),
    {
        self.stage = BuildStage::Skipped;
    }

    /// The current setting was attempted. Whether the device accepted it
    /// (`accepted`) does not change the course: the build moves on.
    pub fn setting_done(&mut self, accepted: bool)
        requires
            old(self).stage.is_setting(),
            old(self).wf(),
        ensures
            *final(self) == (SessionBuild { stage: old(self).stage.after_setting(), ..*old(self) }),
            *final(self) == old(self).after_settings(seq![accepted]),
            final(self).wf(),
    {
        proof {
            let next = SessionBuild { stage: self.stage.after_setting(), ..*self };
            assert(seq![accepted].drop_first() =~= Seq::<bool>::empty());
            assert(next.after_settings(Seq::<bool>::empty()) == next);
        }
        self.stage = match self.stage {
            BuildStage::Stop => BuildStage::Volume,
            BuildStage::Volume => BuildStage::Crossfade,
            BuildStage::Crossfade => BuildStage::Shuffle,
            BuildStage::Shuffle => BuildStage::Repeat,
            BuildStage::Repeat => BuildStage::Loudness,
            BuildStage::Loudness => BuildStage::Treble,
            BuildStage::Treble => BuildStage::Bass,
            BuildStage::Bass => BuildStage::ClearQueue,
            _ => BuildStage::Ready,
        };
    }

    /// The session, if the build ended ready.
    pub fn into_session(self) -> (r: Option<H>)
        ensures
            r == self.spec_outcome(),
    {
        match self.stage {
            BuildStage::Ready => self.handle,
            _ => None,
        }
    }
}

/// From any setting stage, as many outcomes as settings are left bring the
/// build to `Ready`, with its handle, whatever the outcomes are.
pub proof fn lemma_settings_reach_ready<H>(b: SessionBuild<H>, outcomes: Seq<bool>)
    requires
        b.stage.is_setting(),
        outcomes.len() == b.stage.settings_left(),
    ensures
        b.after_settings(outcomes).stage == BuildStage::Ready,
        b.after_settings(outcomes).handle == b.handle,
        b.after_settings(outcomes).descriptor == b.descriptor,
    decreases outcomes.len(),
{
    let next = SessionBuild { stage: b.stage.after_setting(), ..b };
    assert(b.after_settings(outcomes) == next.after_settings(outcomes.drop_first()));
    if next.stage.is_setting() {
        lemma_settings_reach_ready(next, outcomes.drop_first());
    } else {
        assert(next.after_settings(outcomes.drop_first()) == next);
    }
}

/// A descriptor whose connection fails is skipped, and startup goes on: the
/// build is finished, asks for no further call, yields no session, and the
/// live list built with its outcome is the list built without it.
pub proof fn lemma_failed_connection_is_skipped<H>(b: SessionBuild<H>, others: Seq<Option<H>>)
    requires
        b.stage == BuildStage::Connect,
    ensures
        b.after_connect_failure().stage.is_finished(),
        action_at(b.descriptor, b.after_connect_failure().stage) is None,
        b.after_connect_failure().spec_outcome() is None,
        live(others.push(b.after_connect_failure().spec_outcome())) == live(others),
{
    assert(others.push(None::<H>).drop_last() =~= others);
}

/// Failed settings never cost the session: once connected, a build that runs
/// through all its settings, each accepted or not, ends ready with its handle,
/// and that handle joins the live list.
pub proof fn lemma_setting_failures_keep_session<H>(
    b: SessionBuild<H>,
    handle: H,
    outcomes: Seq<bool>,
    others: Seq<Option<H>>,
)
    requires
        b.stage == BuildStage::Connect,
        outcomes.len() == BuildStage::Stop.settings_left(),
    ensures
        b.after_connect(handle).after_settings(outcomes).stage == BuildStage::Ready,
        b.after_connect(handle).after_settings(outcomes).spec_outcome() == Some(handle),
        live(others.push(b.after_connect(handle).after_settings(outcomes).spec_outcome()))
            == live(others).push(handle),
{
    lemma_settings_reach_ready(b.after_connect(handle), outcomes);
    assert(others.push(Some(handle)).drop_last() =~= others);
}

/// The sessions present in a list of build outcomes, in order.
pub open spec fn live<H>(outcomes: Seq<Option<H>>) -> Seq<H>
    decreases outcomes.len(),
{
    if outcomes.len() == 0 {
        Seq::empty()
    } else {
        let rest = live(outcomes.drop_last());
        match outcomes.last() {
            Some(h) => rest.push(h),
            None => rest,
        }
    }
}

/// The live session list: the handles of the builds that ended ready, in the
/// order of their descriptors.
pub fn live_sessions<H>(outcomes: Vec<Option<H>>) -> (r: Vec<H>)
    ensures
        r@ == live(outcomes@),
{
    let ghost all = outcomes@;
    let mut r: Vec<H> = Vec::new();
    for o in it: outcomes.into_iter()
        invariant
            it.seq() == all,
            r@ == live(all.take(it.index() as int)),
    {
        let ghost k = it.index();
        assert(all.take(k + 1).drop_last() =~= all.take(k as int));
        match o {
            Some(h) => r.push(h),
            None => {},
        }
    }
    assert(all.take(all.len() as int) =~= all);
    r
}

} // verus!
