//! Playback: reading the current playback state and sequencing the two-step
//! playback-start protocol.
//!
//! The upstream endpoints answer through the embedding application, which
//! hands their outcomes in as plain values; every decision made on those
//! values lives here and is verified.

use vstd::prelude::*;

verus! {

/// Playback-stage failures, surfaced to the caller as structured errors.
#[derive(Clone, Copy, Debug, PartialEq, Eq, Structural)]
pub enum PlaybackError {
    /// The device lookup found no active device, so no command was issued.
    NoActiveDevice,
    /// The start command itself was rejected by the upstream.
    CommandRejected,
    /// The current-playback fetch failed.
    FetchFailed,
}

/// One playing answer of the upstream "currently playing" endpoint, reduced
/// to the fields the gateway reads. The context and the progress are
/// independently optional upstream.
pub struct UpstreamPlaying {
    pub context_uri: Option<String>,
    pub timestamp: u64,
    pub progress_ms: Option<u32>,
    pub is_playing: bool,
}

/// The mathematical value of an upstream playing answer.
pub struct UpstreamPlayingView {
    pub context_uri: Option<Seq<char>>,
    pub timestamp: u64,
    pub progress_ms: Option<u32>,
    pub is_playing: bool,
}

impl View for UpstreamPlaying {
    type V = UpstreamPlayingView;

    open spec fn view(&self) -> UpstreamPlayingView {
        UpstreamPlayingView {
            context_uri: match self.context_uri {
                Some(u) => Some(u@),
                None => None,
            },
            timestamp: self.timestamp,
            progress_ms: self.progress_ms,
            is_playing: self.is_playing,
        }
    }
}

/// The three independent layers of the upstream answer, flattened into one
/// tagged value: the transport failed, nothing is playing, or something is
/// playing.
pub enum UpstreamAnswer {
    Failed,
    NothingPlaying,
    Playing(UpstreamPlaying),
}

/// The mathematical value of an upstream answer.
pub enum UpstreamAnswerView {
    Failed,
    NothingPlaying,
    Playing(UpstreamPlayingView),
}

impl View for UpstreamAnswer {
    type V = UpstreamAnswerView;

    open spec fn view(&self) -> UpstreamAnswerView {
        match self {
            UpstreamAnswer::Failed => UpstreamAnswerView::Failed,
            UpstreamAnswer::NothingPlaying => UpstreamAnswerView::NothingPlaying,
            UpstreamAnswer::Playing(u) => UpstreamAnswerView::Playing(u@),
        }
    }
}

/// The normalized playback state the gateway reports.
pub struct PlaybackState {
    pub context_uri: String,
    pub timestamp: u64,
    pub progress_ms: u32,
    pub is_playing: bool,
}

/// The mathematical value of a normalized playback state.
pub struct PlaybackStateView {
    pub context_uri: Seq<char>,
    pub timestamp: u64,
    pub progress_ms: u32,
    pub is_playing: bool,
}

impl View for PlaybackState {
    type V = PlaybackStateView;

    open spec fn view(&self) -> PlaybackStateView {
        PlaybackStateView {
            context_uri: self.context_uri@,
            timestamp: self.timestamp,
            progress_ms: self.progress_ms,
            is_playing: self.is_playing,
        }
    }
}

/// A successful read: either the distinguished empty snapshot (nothing is
/// playing; not an error) or a normalized state.
pub enum PlaybackSnapshot {
    Nothing,
    Playing(PlaybackState),
}

/// The mathematical value of a snapshot.
pub enum PlaybackSnapshotView {
    Nothing,
    Playing(PlaybackStateView),
}

impl View for PlaybackSnapshot {
    type V = PlaybackSnapshotView;

    open spec fn view(&self) -> PlaybackSnapshotView {
        match self {
            PlaybackSnapshot::Nothing => PlaybackSnapshotView::Nothing,
            PlaybackSnapshot::Playing(p) => PlaybackSnapshotView::Playing(p@),
        }
    }
}

/// The normalized context URI: the context's URI when a context is present,
/// else the literal text `none`.
pub open spec fn spec_context_text(ctx: Option<Seq<char>>) -> Seq<char> {
    match ctx {
        Some(u) => u,
        None => "none"@,
    }
}

/// The normalized progress: zero when absent upstream.
pub open spec fn spec_progress(p: Option<u32>) -> u32 {
    match p {
        Some(v) => v,
        None => 0,
    }
}

/// Normalization of one playing answer.
pub open spec fn spec_normalize(u: UpstreamPlayingView) -> PlaybackStateView {
    PlaybackStateView {
        context_uri: spec_context_text(u.context_uri),
        timestamp: u.timestamp,
        progress_ms: spec_progress(u.progress_ms),
        is_playing: u.is_playing,
    }
}

/// The three-way collapse of the upstream answer into the two observable
/// outcomes: a fetch failure is reported as `FetchFailed`; no playback object
/// is the empty snapshot; a playback object is normalized.
pub open spec fn spec_current_playback(u: UpstreamAnswerView) -> Result<
    PlaybackSnapshotView,
    PlaybackError,
> {
    match u {
        UpstreamAnswerView::Failed => Err(PlaybackError::FetchFailed),
        UpstreamAnswerView::NothingPlaying => Ok(PlaybackSnapshotView::Nothing),
        UpstreamAnswerView::Playing(p) => Ok(PlaybackSnapshotView::Playing(spec_normalize(p))),
    }
}

/// Reads the current playback out of the upstream answer: exactly the
/// three-way collapse of `spec_current_playback`.
pub fn get_current_playback(upstream: UpstreamAnswer) -> (r: Result<
    PlaybackSnapshot,
    PlaybackError,
>)
    ensures
        match spec_current_playback(upstream@) {
            Ok(sv) => r matches Ok(s) && s@ == sv,
            Err(e) => r == Err::<PlaybackSnapshot, PlaybackError>(e),
        },
{
    match upstream {
        UpstreamAnswer::Failed => Err(PlaybackError::FetchFailed),
        UpstreamAnswer::NothingPlaying => Ok(PlaybackSnapshot::Nothing),
        UpstreamAnswer::Playing(u) => {
            let context_uri = match u.context_uri {
                Some(c) => c,
                None => String::from_str("none"),
            };
            let progress_ms = match u.progress_ms {
                Some(v) => v,
                None => 0,
            };
            Ok(
                PlaybackSnapshot::Playing(
                    PlaybackState {
                        context_uri,
                        timestamp: u.timestamp,
                        progress_ms,
                        is_playing: u.is_playing,
                    },
                ),
            )
        },
    }
}

/// An absent context normalizes to the literal `none`, and an absent
/// progress normalizes to zero.
pub proof fn lemma_normalization_defaults(u: UpstreamPlayingView)
    ensures
        u.context_uri is None ==> spec_normalize(u).context_uri == "none"@,
        u.progress_ms is None ==> spec_normalize(u).progress_ms == 0,
        u.context_uri matches Some(c) ==> spec_normalize(u).context_uri == c,
        u.progress_ms matches Some(p) ==> spec_normalize(u).progress_ms == p,
        spec_normalize(u).timestamp == u.timestamp,
        spec_normalize(u).is_playing == u.is_playing,
{
}

/// Reading the current playback twice over the same upstream state yields
/// identical normalized snapshots.
pub proof fn lemma_current_playback_deterministic(a: UpstreamAnswerView, b: UpstreamAnswerView)
    requires
        a == b,
    ensures
        spec_current_playback(a) == spec_current_playback(b),
{
}

/// The outcome of the device-lookup step, as the upstream answers it: the
/// call failed, nothing is being played, or a device is attached to the
/// current playback.
pub enum DeviceLookup {
    Failed,
    NoPlayback,
    Device(String),
}

/// The mathematical value of a device lookup.
pub enum DeviceLookupView {
    Failed,
    NoPlayback,
    Device(Seq<char>),
}

impl View for DeviceLookup {
    type V = DeviceLookupView;

    open spec fn view(&self) -> DeviceLookupView {
        match self {
            DeviceLookup::Failed => DeviceLookupView::Failed,
            DeviceLookup::NoPlayback => DeviceLookupView::NoPlayback,
            DeviceLookup::Device(id) => DeviceLookupView::Device(id@),
        }
    }
}

/// What a playback-start request asks for: the track URI and an optional
/// start offset in milliseconds.
pub struct PlaybackRequest {
    pub uri: String,
    pub position_ms: Option<u32>,
}

/// The mathematical value of a playback-start request.
pub struct PlaybackRequestView {
    pub uri: Seq<char>,
    pub position_ms: Option<u32>,
}

impl View for PlaybackRequest {
    type V = PlaybackRequestView;

    open spec fn view(&self) -> PlaybackRequestView {
        PlaybackRequestView { uri: self.uri@, position_ms: self.position_ms }
    }
}

/// The start command the gateway issues: the device found by the lookup, a
/// track list holding exactly the requested URI, and the requested offset
/// passed through verbatim (absent means the upstream default).
pub struct StartCommand {
    pub device_id: String,
    pub uris: Vec<String>,
    pub position_ms: Option<u32>,
}

/// The mathematical value of a start command.
pub struct StartCommandView {
    pub device_id: Seq<char>,
    pub uris: Seq<Seq<char>>,
    pub position_ms: Option<u32>,
}

impl View for StartCommand {
    type V = StartCommandView;

    open spec fn view(&self) -> StartCommandView {
        StartCommandView {
            device_id: self.device_id@,
            uris: self.uris.deep_view(),
            position_ms: self.position_ms,
        }
    }
}

/// The planning step of the start protocol: with a device in hand the
/// command is assembled; a failed lookup or an absent playback collapses to
/// `NoActiveDevice`, and no command exists.
pub open spec fn spec_plan_start(lookup: DeviceLookupView, req: PlaybackRequestView) -> Result<
    StartCommandView,
    PlaybackError,
> {
    match lookup {
        DeviceLookupView::Device(id) => Ok(
            StartCommandView { device_id: id, uris: seq![req.uri], position_ms: req.position_ms },
        ),
        _ => Err(PlaybackError::NoActiveDevice),
    }
}

/// First step of `start_playback`: turns the device lookup and the request
/// into the command to issue, or short-circuits with `NoActiveDevice`.
pub fn plan_start_playback(lookup: DeviceLookup, request: PlaybackRequest) -> (r: Result<
    StartCommand,
    PlaybackError,
>)
    ensures
        match spec_plan_start(lookup@, request@) {
            Ok(cv) => r matches Ok(c) && c@ == cv,
            Err(e) => r == Err::<StartCommand, PlaybackError>(e),
        },
{
    match lookup {
        DeviceLookup::Device(id) => {
            let ghost req_uri = request.uri@;
            let mut uris: Vec<String> = Vec::new();
            uris.push(request.uri);
            let cmd = StartCommand { device_id: id, uris, position_ms: request.position_ms };
            proof {
                assert(cmd@.uris =~= seq![req_uri]);
            }
            Ok(cmd)
        },
        DeviceLookup::Failed => Err(PlaybackError::NoActiveDevice),
        DeviceLookup::NoPlayback => Err(PlaybackError::NoActiveDevice),
    }
}

/// When the device lookup finds no active device, planning short-circuits to
/// `NoActiveDevice` and no command exists, so the start call is never
/// issued.
pub proof fn lemma_no_device_short_circuits(lookup: DeviceLookupView, req: PlaybackRequestView)
    requires
        !(lookup is Device),
    ensures
        spec_plan_start(lookup, req) == Err::<StartCommandView, PlaybackError>(
            PlaybackError::NoActiveDevice,
        ),
{
}

/// The planned command passes the request through verbatim: the track list
/// is exactly the requested URI, and the offset is unchanged, present or
/// absent.
pub proof fn lemma_request_passed_through(lookup: DeviceLookupView, req: PlaybackRequestView)
    requires
        lookup is Device,
    ensures
        spec_plan_start(lookup, req) matches Ok(c) && c.position_ms == req.position_ms && c.uris
            =~= seq![req.uri] && c.device_id == lookup->Device_0,
{
}

/// Second step of `start_playback`: the issued command either was accepted
/// or was rejected by the upstream even with a valid device; a rejection is
/// `CommandRejected`, distinct from `NoActiveDevice`.
pub fn finish_start_playback(command_accepted: bool) -> (r: Result<(), PlaybackError>)
    ensures
        command_accepted <==> r is Ok,
        !command_accepted ==> r == Err::<(), PlaybackError>(PlaybackError::CommandRejected),
{
    if command_accepted {
        Ok(())
    } else {
        Err(PlaybackError::CommandRejected)
    }
}

} // verus!
