//! The gateway's response bodies, rendered exactly: every failure is carried
//! as `{"status":"err","error":<message>}` with a stable message, and every
//! success as the documented shape. Raw upstream error details never reach a
//! body.

use crate::oauth::AuthError;
use crate::playback::PlaybackError;
use crate::playback::PlaybackSnapshot;
use crate::playback::PlaybackState;
use crate::playback::PlaybackStateView;
use crate::text::push_bool;
use crate::text::push_decimal;
use crate::text::push_json_escaped;
use crate::text::spec_bool_text;
use crate::text::spec_decimal;
use crate::text::spec_escape;
use vstd::prelude::*;

verus! {

/// The plain success body.
pub open spec fn spec_ok_body() -> Seq<char> {
    "{\"status\":\"ok\"}"@
}

/// A failure body carrying a stable message.
pub open spec fn spec_err_body(msg: Seq<char>) -> Seq<char> {
    "{\"status\":\"err\",\"error\":\""@ + spec_escape(msg) + "\"}"@
}

/// The success body of the authorize-URL endpoint.
pub open spec fn spec_ok_url_body(url: Seq<char>) -> Seq<char> {
    "{\"status\":\"ok\",\"url\":\""@ + spec_escape(url) + "\"}"@
}

/// The success body of the authentication endpoint.
pub open spec fn spec_ok_token_body(token: Seq<char>) -> Seq<char> {
    "{\"status\":\"ok\",\"token\":\""@ + spec_escape(token) + "\"}"@
}

/// The body reporting a normalized playback state.
pub open spec fn spec_playing_body(p: PlaybackStateView) -> Seq<char> {
    "{\"uri\":\""@ + spec_escape(p.context_uri) + "\",\"timestamp\":"@ + spec_decimal(
        p.timestamp as nat,
    ) + ",\"progress_ms\":"@ + spec_decimal(p.progress_ms as nat) + ",\"is_playing\":"@
        + spec_bool_text(p.is_playing) + "}"@
}

fn err_body(msg: &str) -> (r: String)
    ensures
        r@ == spec_err_body(msg@),
{
    let mut out = String::from_str("{\"status\":\"err\",\"error\":\"");
    push_json_escaped(&mut out, msg);
    out.append("\"}");
    out
}

/// Renders the authorize-URL answer.
pub fn get_url_response(url: &str) -> (r: String)
    ensures
        r@ == spec_ok_url_body(url@),
{
    let mut out = String::from_str("{\"status\":\"ok\",\"url\":\"");
    push_json_escaped(&mut out, url);
    out.append("\"}");
    out
}

/// Renders the authentication answer: the token on success, the stable
/// failure body otherwise.
pub fn auth_response(outcome: &Result<String, AuthError>) -> (r: String)
    ensures
        outcome matches Ok(t) ==> r@ == spec_ok_token_body(t@),
        outcome is Err ==> r@ == spec_err_body("Failed to authenticate"@),
{
    match outcome {
        Ok(token) => {
            let mut out = String::from_str("{\"status\":\"ok\",\"token\":\"");
            push_json_escaped(&mut out, token.as_str());
            out.append("\"}");
            out
        },
        Err(_) => err_body("Failed to authenticate"),
    }
}

fn playing_body(p: &PlaybackState) -> (r: String)
    ensures
        r@ == spec_playing_body(p@),
{
    let mut out = String::from_str("{\"uri\":\"");
    push_json_escaped(&mut out, p.context_uri.as_str());
    out.append("\",\"timestamp\":");
    push_decimal(&mut out, p.timestamp);
    out.append(",\"progress_ms\":");
    push_decimal(&mut out, p.progress_ms as u64);
    out.append(",\"is_playing\":");
    push_bool(&mut out, p.is_playing);
    out.append("}");
    out
}

/// Renders the current-playback answer: the normalized state, the literal
/// text `Nothing playing` for the empty snapshot, or the stable failure
/// body.
pub fn current_playing_response(outcome: &Result<PlaybackSnapshot, PlaybackError>) -> (r: String)
    ensures
        outcome matches Ok(PlaybackSnapshot::Playing(p)) ==> r@ == spec_playing_body(p@),
        outcome matches Ok(PlaybackSnapshot::Nothing) ==> r@ == "Nothing playing"@,
        outcome is Err ==> r@ == spec_err_body("Failed to get current_playing"@),
{
    match outcome {
        Ok(PlaybackSnapshot::Playing(p)) => playing_body(p),
        Ok(PlaybackSnapshot::Nothing) => String::from_str("Nothing playing"),
        Err(_) => err_body("Failed to get current_playing"),
    }
}

/// Renders the playback-start answer: plain success, `No device active` when
/// the lookup found none, and the command-rejection body otherwise.
pub fn start_playback_response(outcome: &Result<(), PlaybackError>) -> (r: String)
    ensures
        outcome is Ok ==> r@ == spec_ok_body(),
        outcome == Err::<(), PlaybackError>(PlaybackError::NoActiveDevice) ==> r@ == spec_err_body(
            "No device active"@,
        ),
        outcome matches Err(e) && e != PlaybackError::NoActiveDevice ==> r@ == spec_err_body(
            "Failed to start_playback"@,
        ),
{
    match outcome {
        Ok(_) => String::from_str("{\"status\":\"ok\"}"),
        Err(PlaybackError::NoActiveDevice) => err_body("No device active"),
        Err(_) => err_body("Failed to start_playback"),
    }
}

} // verus!
