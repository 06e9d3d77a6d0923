use spotify_gateway::playback::finish_start_playback;
use spotify_gateway::playback::get_current_playback;
use spotify_gateway::playback::plan_start_playback;
use spotify_gateway::playback::DeviceLookup;
use spotify_gateway::playback::PlaybackError;
use spotify_gateway::playback::PlaybackRequest;
use spotify_gateway::playback::PlaybackSnapshot;
use spotify_gateway::playback::PlaybackState;
use spotify_gateway::playback::UpstreamAnswer;
use spotify_gateway::playback::UpstreamPlaying;
use spotify_gateway::responses::current_playing_response;
use spotify_gateway::responses::start_playback_response;

fn playing(context_uri: Option<&str>, progress_ms: Option<u32>) -> UpstreamAnswer {
    UpstreamAnswer::Playing(UpstreamPlaying {
        context_uri: context_uri.map(String::from),
        timestamp: 1234567890,
        progress_ms,
        is_playing: true,
    })
}

fn snapshot_state(r: Result<PlaybackSnapshot, PlaybackError>) -> PlaybackState {
    match r {
        Ok(PlaybackSnapshot::Playing(p)) => p,
        _ => panic!("expected a playing snapshot"),
    }
}

#[test]
fn fetch_failure_collapses_to_fetch_failed() {
    let r = get_current_playback(UpstreamAnswer::Failed);
    assert!(matches!(r, Err(PlaybackError::FetchFailed)));
}

#[test]
fn nothing_playing_is_the_empty_snapshot() {
    let r = get_current_playback(UpstreamAnswer::NothingPlaying);
    assert!(matches!(r, Ok(PlaybackSnapshot::Nothing)));
}

#[test]
fn absent_context_normalizes_to_none() {
    let p = snapshot_state(get_current_playback(playing(None, Some(42))));
    assert_eq!(p.context_uri, "none");
    assert_eq!(p.progress_ms, 42);
}

#[test]
fn absent_progress_normalizes_to_zero() {
    let p = snapshot_state(get_current_playback(playing(Some("spotify:album:1"), None)));
    assert_eq!(p.context_uri, "spotify:album:1");
    assert_eq!(p.progress_ms, 0);
    assert_eq!(p.timestamp, 1234567890);
    assert!(p.is_playing);
}

#[test]
fn normalization_is_deterministic() {
    let a = snapshot_state(get_current_playback(playing(Some("spotify:album:1"), None)));
    let b = snapshot_state(get_current_playback(playing(Some("spotify:album:1"), None)));
    assert_eq!(a.context_uri, b.context_uri);
    assert_eq!(a.timestamp, b.timestamp);
    assert_eq!(a.progress_ms, b.progress_ms);
    assert_eq!(a.is_playing, b.is_playing);
    assert_eq!(
        current_playing_response(&Ok(PlaybackSnapshot::Playing(a))),
        current_playing_response(&Ok(PlaybackSnapshot::Playing(b)))
    );
}

#[test]
fn playing_body_exact() {
    let r = get_current_playback(playing(Some("spotify:album:1"), Some(42)));
    assert_eq!(
        current_playing_response(&r),
        "{\"uri\":\"spotify:album:1\",\"timestamp\":1234567890,\"progress_ms\":42,\"is_playing\":true}"
    );
}

#[test]
fn playing_body_with_defaults_exact() {
    let r = get_current_playback(UpstreamAnswer::Playing(UpstreamPlaying {
        context_uri: None,
        timestamp: 0,
        progress_ms: None,
        is_playing: false,
    }));
    assert_eq!(
        current_playing_response(&r),
        "{\"uri\":\"none\",\"timestamp\":0,\"progress_ms\":0,\"is_playing\":false}"
    );
}

#[test]
fn playing_body_largest_timestamp() {
    let r = get_current_playback(UpstreamAnswer::Playing(UpstreamPlaying {
        context_uri: Some(String::from("c")),
        timestamp: u64::MAX,
        progress_ms: Some(u32::MAX),
        is_playing: true,
    }));
    assert_eq!(
        current_playing_response(&r),
        "{\"uri\":\"c\",\"timestamp\":18446744073709551615,\"progress_ms\":4294967295,\"is_playing\":true}"
    );
}

#[test]
fn nothing_playing_body_is_literal() {
    let r = get_current_playback(UpstreamAnswer::NothingPlaying);
    assert_eq!(current_playing_response(&r), "Nothing playing");
}

#[test]
fn fetch_failure_body() {
    let r = get_current_playback(UpstreamAnswer::Failed);
    assert_eq!(
        current_playing_response(&r),
        "{\"status\":\"err\",\"error\":\"Failed to get current_playing\"}"
    );
}

fn request(position_ms: Option<u32>) -> PlaybackRequest {
    PlaybackRequest { uri: String::from("spotify:track:xyz"), position_ms }
}

#[test]
fn no_device_short_circuits_without_a_command() {
    let mut command_calls: u32 = 0;
    let plan = plan_start_playback(DeviceLookup::NoPlayback, request(Some(5000)));
    let outcome = match plan {
        Ok(_command) => {
            command_calls += 1;
            finish_start_playback(true)
        }
        Err(e) => Err(e),
    };
    assert_eq!(command_calls, 0);
    assert!(matches!(outcome, Err(PlaybackError::NoActiveDevice)));
    assert_eq!(
        start_playback_response(&outcome),
        "{\"status\":\"err\",\"error\":\"No device active\"}"
    );
}

#[test]
fn failed_lookup_collapses_to_no_active_device() {
    let plan = plan_start_playback(DeviceLookup::Failed, request(None));
    assert!(matches!(plan, Err(PlaybackError::NoActiveDevice)));
}

#[test]
fn position_ms_passes_through_when_present() {
    let cmd =
        plan_start_playback(DeviceLookup::Device(String::from("dev1")), request(Some(5000)))
            .unwrap();
    assert_eq!(cmd.device_id, "dev1");
    assert_eq!(cmd.uris, vec![String::from("spotify:track:xyz")]);
    assert_eq!(cmd.position_ms, Some(5000));
}

#[test]
fn position_ms_stays_absent_when_absent() {
    let cmd = plan_start_playback(DeviceLookup::Device(String::from("dev1")), request(None))
        .unwrap();
    assert_eq!(cmd.position_ms, None);
    assert_eq!(cmd.uris, vec![String::from("spotify:track:xyz")]);
}

#[test]
fn empty_uri_passes_through_as_is() {
    let cmd = plan_start_playback(
        DeviceLookup::Device(String::from("dev1")),
        PlaybackRequest { uri: String::from(""), position_ms: None },
    )
    .unwrap();
    assert_eq!(cmd.uris, vec![String::from("")]);
}

#[test]
fn start_playback_success_scenario() {
    let mut command_calls: u32 = 0;
    let mut seen_position: Option<u32> = None;
    let plan = plan_start_playback(DeviceLookup::Device(String::from("dev1")), request(Some(5000)));
    let outcome = match plan {
        Ok(command) => {
            command_calls += 1;
            seen_position = command.position_ms;
            finish_start_playback(true)
        }
        Err(e) => Err(e),
    };
    assert_eq!(command_calls, 1);
    assert_eq!(seen_position, Some(5000));
    assert!(outcome.is_ok());
    assert_eq!(start_playback_response(&outcome), "{\"status\":\"ok\"}");
}

#[test]
fn rejected_command_is_distinct_from_no_device() {
    let outcome = finish_start_playback(false);
    assert!(matches!(outcome, Err(PlaybackError::CommandRejected)));
    assert_eq!(
        start_playback_response(&outcome),
        "{\"status\":\"err\",\"error\":\"Failed to start_playback\"}"
    );
}
