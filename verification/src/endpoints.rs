//! The service endpoints the library spells out: the per-speaker
//! initialization pair and the batched synthesis call, each carrying a
//! style id in its query string, and the per-utterance query request,
//! whose text is form-encoded.

use vstd::prelude::*;
use crate::digits::{dec_chars, decimal_string};

verus! {

/// The form-encoded `text=...&speaker=...` query of one utterance's query
/// request; the encoding depends on the text and the id alone.
pub uninterp spec fn audio_query_params_of(text: Seq<char>, id: u32) -> Seq<char>;

/// Relies on url::form_urlencoded::Serializer, the encoder behind the url
/// crate's query-pair building: the encoded pairs depend on the two values
/// alone.
#[verifier::external_body]
fn encode_audio_query_params(text: &str, speaker_id: u32) -> (r: String)
    ensures
        r@ == audio_query_params_of(text@, speaker_id),
{
    let mut serializer = url::form_urlencoded::Serializer::new(String::new());
    serializer.append_pair("text", text);
    serializer.append_pair("speaker", &speaker_id.to_string());
    serializer.finish()
}

/// Builds the endpoint of one utterance's query request, the text and the
/// style id form-encoded into its query string.
pub fn audio_query_endpoint(text: &str, speaker_id: u32) -> (r: String)
    ensures
        r@ == "audio_query?"@ + audio_query_params_of(text@, speaker_id),
{
    let mut s = String::from_str("audio_query?");
    let params = encode_audio_query_params(text, speaker_id);
    s.append(params.as_str());
    proof {
        assert(s@ =~= "audio_query?"@ + audio_query_params_of(text@, speaker_id));
    }
    s
}

/// The path and query of the initialization check for one style.
pub open spec fn is_initialized_endpoint_chars(id: int) -> Seq<char> {
    "is_initialized_speaker?speaker="@ + dec_chars(id)
}

/// The path and query of the initialization request for one style; cached
/// weights are not re-initialized.
pub open spec fn initialize_endpoint_chars(id: int) -> Seq<char> {
    "initialize_speaker?speaker="@ + dec_chars(id) + "&skip_reinit=true"@
}

/// The path and query of the batched synthesis call for one style.
pub open spec fn multi_synthesis_endpoint_chars(id: int) -> Seq<char> {
    "multi_synthesis?speaker="@ + dec_chars(id)
}

/// Builds the endpoint that asks whether a style is initialized.
pub fn is_initialized_endpoint(speaker_id: u32) -> (r: String)
    ensures
        r@ == is_initialized_endpoint_chars(speaker_id as int),
{
    let mut s = String::from_str("is_initialized_speaker?speaker=");
    let n = decimal_string(speaker_id);
    s.append(n.as_str());
    proof {
        assert(s@ =~= is_initialized_endpoint_chars(speaker_id as int));
    }
    s
}

/// Builds the endpoint that initializes a style, skipping re-initialization
/// of cached weights.
pub fn initialize_endpoint(speaker_id: u32) -> (r: String)
    ensures
        r@ == initialize_endpoint_chars(speaker_id as int),
{
    let mut s = String::from_str("initialize_speaker?speaker=");
    let n = decimal_string(speaker_id);
    s.append(n.as_str());
    s.append("&skip_reinit=true");
    proof {
        assert(s@ =~= initialize_endpoint_chars(speaker_id as int));
    }
    s
}

/// Builds the endpoint of one batched synthesis call.
pub fn multi_synthesis_endpoint(speaker_id: u32) -> (r: String)
    ensures
        r@ == multi_synthesis_endpoint_chars(speaker_id as int),
{
    let mut s = String::from_str("multi_synthesis?speaker=");
    let n = decimal_string(speaker_id);
    s.append(n.as_str());
    proof {
        assert(s@ =~= multi_synthesis_endpoint_chars(speaker_id as int));
    }
    s
}

} // verus!
