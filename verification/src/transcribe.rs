//! What is decided before a recording is sent to the transcription service.

use crate::json::{json_top_level_text, top_level_text};
use crate::text::{
    blank, ends_with, has_suffix, is_blank, result_text, trim_end_matches, without_trailing,
};
use vstd::prelude::*;

verus! {

/// The path of the transcription endpoint below a provider's base address.
pub open spec fn transcription_path() -> Seq<char> {
    "/audio/transcriptions"@
}

/// The address a recording is sent to for the base address `base_url`:
/// trailing slashes are dropped, and the endpoint's path is added unless the
/// address ends with it already.
pub open spec fn transcription_url(base_url: Seq<char>) -> Seq<char> {
    let trimmed = without_trailing(base_url, '/');
    if has_suffix(trimmed, transcription_path()) {
        trimmed
    } else {
        trimmed + transcription_path()
    }
}

/// Builds the address a recording is sent to.
pub fn build_transcription_url(base_url: &str) -> (url: String)
    ensures
        url@ == transcription_url(base_url@),
{
    let trimmed = trim_end_matches(base_url, '/');
    if ends_with(trimmed, "/audio/transcriptions") {
        trimmed.to_owned()
    } else {
        String::from_str(trimmed).concat("/audio/transcriptions")
    }
}

/// The address built for any base address ends with the endpoint's path.
pub proof fn lemma_transcription_url_ends_with_path(base_url: Seq<char>)
    ensures
        has_suffix(transcription_url(base_url), transcription_path()),
{
    let trimmed = without_trailing(base_url, '/');
    if !has_suffix(trimmed, transcription_path()) {
        let url = trimmed + transcription_path();
        assert(url.subrange(url.len() - transcription_path().len(), url.len() as int)
            =~= transcription_path());
    }
}

/// What a request without a usable key answers.
pub open spec fn missing_key_message() -> Seq<char> {
    "Missing API key"@
}

/// Decides where a recording goes. Without a key (an empty or blank one)
/// nothing is sent and `Missing API key` is the answer; otherwise the
/// address for `base_url` is.
pub fn transcription_target(base_url: &str, api_key: &str) -> (target: Result<String, String>)
    ensures
        blank(api_key@) ==> (target matches Err(reason) && reason@ == missing_key_message()),
        !blank(api_key@) ==> (target matches Ok(url) && url@ == transcription_url(base_url@)),
{
    if is_blank(api_key) {
        return Err(String::from_str("Missing API key"));
    }
    Ok(build_transcription_url(base_url))
}

/// What a refused request answers: the status line and the body the service sent.
pub open spec fn api_error_message(status: Seq<char>, body: Seq<char>) -> Seq<char> {
    "API error "@ + status + ": "@ + body
}

/// What the service's answer amounts to. An answer that is not a success is
/// an error that quotes status and body. A success whose body is not JSON is
/// an error in the parser's words. Otherwise the transcript is the string
/// under `text`, or empty if there is none.
pub open spec fn transcript_in(success: bool, status: Seq<char>, body: Seq<char>) -> Result<
    Seq<char>,
    Seq<char>,
> {
    if !success {
        Err(api_error_message(status, body))
    } else {
        match json_top_level_text(body, "text"@) {
            Ok(Some(text)) => Ok(text),
            Ok(None) => Ok(Seq::empty()),
            Err(reason) => Err(reason),
        }
    }
}

/// Reads the transcript out of the service's answer.
pub fn transcript_from_response(success: bool, status: &str, body: &str) -> (answer: Result<
    String,
    String,
>)
    ensures
        result_text(answer) == transcript_in(success, status@, body@),
{
    if !success {
        let message = String::from_str("API error ").concat(status).concat(": ").concat(body);
        return Err(message);
    }
    match top_level_text(body, "text") {
        Ok(Some(text)) => Ok(text),
        Ok(None) => Ok(String::new()),
        Err(reason) => Err(reason),
    }
}

} // verus!
