//! Transcription over HTTP: which providers are tried and in what order,
//! the request each provider gets, and what its reply comes to.

use vstd::prelude::*;
use crate::config::Config;
use crate::text::{str_eq, trim_end_char, trim_end_matches_char};
use crate::ai_shortcuts::result_view;
use base64::Engine;

verus! {

/// A transcription provider reached over HTTP.
#[derive(Debug, Clone, Copy, PartialEq, Eq, Structural)]
pub enum CloudProvider {
    Google,
    OpenAi,
    OpenRouter,
    /// A local OpenAI-compatible server (LM Studio, Ollama, ...) at the
    /// configured local URL, asked with the configured local model.
    LocalServer,
}

/// The provider that the configured primary provider is served by:
/// "lmstudio" by the local server; any other provider that is not a cloud
/// provider by OpenAI.
pub open spec fn primary_spec(provider: Seq<char>) -> CloudProvider {
    if provider == "google"@ {
        CloudProvider::Google
    } else if provider == "openrouter"@ {
        CloudProvider::OpenRouter
    } else if provider == "lmstudio"@ {
        CloudProvider::LocalServer
    } else {
        CloudProvider::OpenAi
    }
}

/// The configuration name of a provider.
pub open spec fn provider_name(p: CloudProvider) -> Seq<char> {
    match p {
        CloudProvider::Google => "google"@,
        CloudProvider::OpenAi => "openai"@,
        CloudProvider::OpenRouter => "openrouter"@,
        CloudProvider::LocalServer => "lmstudio"@,
    }
}

/// The API key of a provider in the configuration (none for the local server).
pub open spec fn provider_key(c: Config, p: CloudProvider) -> Seq<char> {
    match p {
        CloudProvider::Google => c.transcription.google_api_key@,
        CloudProvider::OpenAi => c.transcription.openai_api_key@,
        CloudProvider::OpenRouter => c.transcription.openrouter_api_key@,
        CloudProvider::LocalServer => Seq::empty(),
    }
}

/// The fallback order.
pub open spec fn fallback_order() -> Seq<CloudProvider> {
    seq![CloudProvider::OpenAi, CloudProvider::OpenRouter, CloudProvider::Google]
}

/// A fallback is tried when it is not the configured provider and its key is set.
pub open spec fn fallback_tried(c: Config, p: CloudProvider) -> bool {
    provider_name(p) != c.transcription.provider@ && provider_key(c, p).len() != 0
}

/// Providers tried, in order: the primary, then each fallback that is tried.
pub open spec fn attempts_spec(c: Config) -> Seq<CloudProvider> {
    seq![primary_spec(c.transcription.provider@)] + fallback_order().filter(
        |p: CloudProvider| fallback_tried(c, p),
    )
}

/// The order in which providers are tried for a transcription: the
/// configured provider first (the local server for "lmstudio", OpenAI for a
/// provider it does not know), then
/// OpenAI, OpenRouter and Google, each only when it is not the configured
/// provider and has a key.
pub fn transcription_attempts(config: &Config) -> (r: Vec<CloudProvider>)
    ensures
        r@ == attempts_spec(*config),
{
    let p = config.transcription.provider.as_str();
    let primary = if str_eq(p, "google") {
        CloudProvider::Google
    } else if str_eq(p, "openrouter") {
        CloudProvider::OpenRouter
    } else if str_eq(p, "lmstudio") {
        CloudProvider::LocalServer
    } else {
        CloudProvider::OpenAi
    };
    let mut r: Vec<CloudProvider> = Vec::new();
    r.push(primary);
    let ghost c = *config;
    let ghost f = |q: CloudProvider| fallback_tried(c, q);
    let ghost order = fallback_order();
    reveal_with_fuel(Seq::filter, 4);
    assert(order.take(0).filter(f) =~= Seq::<CloudProvider>::empty());
    if !str_eq(p, "openai") && config.transcription.openai_api_key.as_str().unicode_len() != 0 {
        r.push(CloudProvider::OpenAi);
    }
    assert(order.take(1).drop_last() =~= order.take(0));
    assert(r@ =~= seq![primary] + order.take(1).filter(f));
    if !str_eq(p, "openrouter") && config.transcription.openrouter_api_key.as_str().unicode_len()
        != 0 {
        r.push(CloudProvider::OpenRouter);
    }
    assert(order.take(2).drop_last() =~= order.take(1));
    assert(r@ =~= seq![primary] + order.take(2).filter(f));
    if !str_eq(p, "google") && config.transcription.google_api_key.as_str().unicode_len() != 0 {
        r.push(CloudProvider::Google);
    }
    assert(order.take(3).drop_last() =~= order.take(2));
    assert(order.take(3) =~= order);
    assert(r@ =~= seq![primary] + order.filter(f));
    r
}

/// What the next step of a transcription run is.
#[derive(Debug)]
pub enum TranscriptionStep {
    /// Ask this provider.
    Call(CloudProvider),
    /// The run is over with this result.
    Finished(Result<String, String>),
}

/// A transcription run: the providers are asked in order until one succeeds.
#[derive(Debug, Clone)]
pub struct TranscriptionRun {
    pub plan: Vec<CloudProvider>,
    /// How many providers were asked.
    pub asked: usize,
}

/// Error when no provider could transcribe.
pub open spec fn all_failed() -> Seq<char> {
    "All transcription providers failed"@
}

impl TranscriptionRun {
    /// A run over the providers that `config` names, none asked yet.
    pub fn start(config: &Config) -> (r: TranscriptionRun)
        ensures
            r.plan@ == attempts_spec(*config),
            r.asked == 0,
    {
        TranscriptionRun { plan: transcription_attempts(config), asked: 0 }
    }

    /// Given the result of the provider asked last (`None` before the first
    /// call), the next step: a success ends the run with its text; a failure
    /// moves on to the next provider; after the last provider the run ends
    /// with "All transcription providers failed". The error of each provider
    /// is dropped.
    pub fn step(&mut self, last: Option<Result<String, String>>) -> (s: TranscriptionStep)
        requires
            old(self).asked <= old(self).plan@.len(),
        ensures
            final(self).plan == old(self).plan,
            final(self).asked <= final(self).plan@.len(),
            match last {
                Some(Ok(t)) => s matches TranscriptionStep::Finished(Ok(u)) && u@ == t@
                    && final(self).asked == old(self).asked,
                _ => if old(self).asked < old(self).plan@.len() {
                    s == TranscriptionStep::Call(old(self).plan@[old(self).asked as int])
                        && final(self).asked == old(self).asked + 1
                } else {
                    s matches TranscriptionStep::Finished(Err(e)) && e@ == all_failed()
                        && final(self).asked == old(self).asked
                },
            },
    {
        if let Some(Ok(t)) = last {
            return TranscriptionStep::Finished(Ok(t));
        }
        if self.asked < self.plan.len() {
            let p = self.plan[self.asked];
            self.asked = self.asked + 1;
            TranscriptionStep::Call(p)
        } else {
            TranscriptionStep::Finished(Err("All transcription providers failed".to_owned()))
        }
    }
}

/// The standard base64 encoding (with padding) of `data`, as the `base64`
/// crate computes it.
pub uninterp spec fn base64_standard(data: Seq<u8>) -> Seq<char>;

/// Calls `base64::engine::general_purpose::STANDARD.encode`; the contract
/// names its result. The crate panics when the encoded length overflows
/// `usize`, which `requires` leaves out.
#[verifier::external_body]
fn encode_base64(data: &[u8]) -> (r: String)
    requires
        (data@.len() + 2) / 3 * 4 <= usize::MAX,
    ensures
        r@ == base64_standard(data@),
{
    base64::engine::general_purpose::STANDARD.encode(data)
}

/// A transcription request, ready to be sent.
#[derive(Debug, Clone)]
pub enum TranscriptionRequest {
    /// Google Speech-to-Text: a JSON body posted to `url`.
    Google {
        url: String,
        encoding: String,
        sample_rate_hertz: u32,
        language_code: String,
        enable_automatic_punctuation: bool,
        audio_base64: String,
    },
    /// OpenAI transcriptions: a multipart form posted to `url`, whose file
    /// part carries the WAV bytes `file`.
    OpenAi {
        url: String,
        authorization: String,
        model: String,
        language: String,
        file_name: String,
        mime: String,
        file: Vec<u8>,
    },
    /// A local server's transcriptions endpoint: the same multipart form,
    /// without authorization.
    LocalServer {
        url: String,
        model: String,
        language: String,
        file_name: String,
        mime: String,
        file: Vec<u8>,
    },
    /// OpenRouter chat completion with an audio part.
    OpenRouter {
        url: String,
        headers: Vec<(String, String)>,
        model: String,
        role: String,
        prompt: String,
        audio_base64: String,
        audio_format: String,
    },
}

/// The error of a provider whose key is not set.
pub open spec fn missing_key_error(p: CloudProvider) -> Seq<char> {
    match p {
        CloudProvider::Google => "Google API key not configured"@,
        CloudProvider::OpenAi => "OpenAI API key not configured"@,
        CloudProvider::OpenRouter => "OpenRouter API key not configured"@,
        CloudProvider::LocalServer => local_url_missing(),
    }
}

/// The error when no local server URL is configured.
pub open spec fn local_url_missing() -> Seq<char> {
    "Local server URL not configured for transcription"@
}

/// Transcriptions endpoint under a local server's base URL.
pub open spec fn local_transcription_url(base: Seq<char>) -> Seq<char> {
    trim_end_char(base, '/') + "/audio/transcriptions"@
}

/// What keeps a request for `p` from being made: a cloud provider without
/// its API key, the local server without a URL.
pub open spec fn plan_blocked(c: Config, p: CloudProvider) -> bool {
    match p {
        CloudProvider::LocalServer => c.transcription.local_url@.len() == 0,
        _ => provider_key(c, p).len() == 0,
    }
}

/// The request for `p`, given the configuration and the WAV bytes.
pub open spec fn request_spec(c: Config, p: CloudProvider, wav: Seq<u8>, r: TranscriptionRequest) -> bool {
    let key = provider_key(c, p);
    match p {
        CloudProvider::Google => r matches TranscriptionRequest::Google {
            url,
            encoding,
            sample_rate_hertz,
            language_code,
            enable_automatic_punctuation,
            audio_base64,
        } && url@ == "https://speech.googleapis.com/v1/speech:recognize?key="@ + key && encoding@
            == "LINEAR16"@ && sample_rate_hertz == 48000 && language_code@ == c.transcription.language@
            && enable_automatic_punctuation && audio_base64@ == base64_standard(wav),
        CloudProvider::OpenAi => r matches TranscriptionRequest::OpenAi {
            url,
            authorization,
            model,
            language,
            file_name,
            mime,
            file,
        } && url@ == "https://api.openai.com/v1/audio/transcriptions"@ && authorization@ == "Bearer "@
            + key && model@ == "whisper-1"@ && language@ == "en"@ && file_name@ == "recording.wav"@
            && mime@ == "audio/wav"@ && file@ == wav,
        CloudProvider::LocalServer => r matches TranscriptionRequest::LocalServer {
            url,
            model,
            language,
            file_name,
            mime,
            file,
        } && url@ == local_transcription_url(c.transcription.local_url@) && model@
            == c.transcription.local_model@ && language@ == "en"@ && file_name@ == "recording.wav"@
            && mime@ == "audio/wav"@ && file@ == wav,
        CloudProvider::OpenRouter => r matches TranscriptionRequest::OpenRouter {
            url,
            headers,
            model,
            role,
            prompt,
            audio_base64,
            audio_format,
        } && url@ == "https://openrouter.ai/api/v1/chat/completions"@ && headers@.map_values(
            |h: (String, String)| (h.0@, h.1@),
        ) == seq![
            ("Authorization"@, "Bearer "@ + key),
            ("HTTP-Referer"@, "https://github.com/ottex"@),
            ("X-Title"@, "Ottex Voice-to-Text"@),
        ] && model@ == "openai/whisper-large-v3"@ && role@ == "user"@ && prompt@
            == "Please transcribe this audio accurately."@ && audio_base64@ == base64_standard(wav)
            && audio_format@ == "wav"@,
    }
}

/// `a` followed by `b`.
fn concat2(a: &str, b: &str) -> (r: String)
    ensures
        r@ == a@ + b@,
{
    let mut r = a.to_owned();
    r.append(b);
    r
}

/// Builds the request that asks `provider` to transcribe `wav`; a cloud
/// provider whose key is empty, or the local server without a URL, is not asked.
pub fn plan_transcription_request(config: &Config, provider: CloudProvider, wav: &[u8]) -> (r: Result<TranscriptionRequest, String>)
    requires
        (wav@.len() + 2) / 3 * 4 <= usize::MAX,
    ensures
        r is Err <==> plan_blocked(*config, provider),
        r matches Err(e) ==> e@ == missing_key_error(provider),
        r matches Ok(q) ==> request_spec(*config, provider, wav@, q),
{
    match provider {
        CloudProvider::Google => {
            let key = config.transcription.google_api_key.as_str();
            if key.unicode_len() == 0 {
                return Err("Google API key not configured".to_owned());
            }
            Ok(TranscriptionRequest::Google {
                url: concat2("https://speech.googleapis.com/v1/speech:recognize?key=", key),
                encoding: "LINEAR16".to_owned(),
                sample_rate_hertz: 48000,
                language_code: config.transcription.language.clone(),
                enable_automatic_punctuation: true,
                audio_base64: encode_base64(wav),
            })
        },
        CloudProvider::OpenAi => {
            let key = config.transcription.openai_api_key.as_str();
            if key.unicode_len() == 0 {
                return Err("OpenAI API key not configured".to_owned());
            }
            Ok(TranscriptionRequest::OpenAi {
                url: "https://api.openai.com/v1/audio/transcriptions".to_owned(),
                authorization: concat2("Bearer ", key),
                model: "whisper-1".to_owned(),
                language: "en".to_owned(),
                file_name: "recording.wav".to_owned(),
                mime: "audio/wav".to_owned(),
                file: vstd::slice::slice_to_vec(wav),
            })
        },
        CloudProvider::LocalServer => {
            let base = config.transcription.local_url.as_str();
            if base.unicode_len() == 0 {
                return Err("Local server URL not configured for transcription".to_owned());
            }
            let trimmed = trim_end_matches_char(base, '/');
            Ok(TranscriptionRequest::LocalServer {
                url: concat2(trimmed.as_str(), "/audio/transcriptions"),
                model: config.transcription.local_model.clone(),
                language: "en".to_owned(),
                file_name: "recording.wav".to_owned(),
                mime: "audio/wav".to_owned(),
                file: vstd::slice::slice_to_vec(wav),
            })
        },
        CloudProvider::OpenRouter => {
            let key = config.transcription.openrouter_api_key.as_str();
            if key.unicode_len() == 0 {
                return Err("OpenRouter API key not configured".to_owned());
            }
            let mut headers: Vec<(String, String)> = Vec::new();
            headers.push(("Authorization".to_owned(), concat2("Bearer ", key)));
            headers.push(("HTTP-Referer".to_owned(), "https://github.com/ottex".to_owned()));
            headers.push(("X-Title".to_owned(), "Ottex Voice-to-Text".to_owned()));
            assert(headers@.map_values(|h: (String, String)| (h.0@, h.1@)) =~= seq![
                ("Authorization"@, "Bearer "@ + key@),
                ("HTTP-Referer"@, "https://github.com/ottex"@),
                ("X-Title"@, "Ottex Voice-to-Text"@),
            ]);
            Ok(TranscriptionRequest::OpenRouter {
                url: "https://openrouter.ai/api/v1/chat/completions".to_owned(),
                headers,
                model: "openai/whisper-large-v3".to_owned(),
                role: "user".to_owned(),
                prompt: "Please transcribe this audio accurately.".to_owned(),
                audio_base64: encode_base64(wav),
                audio_format: "wav".to_owned(),
            })
        },
    }
}

/// What came back from a transcription request.
#[derive(Debug, Clone)]
pub enum TranscriptionReply {
    /// The request could not be sent.
    SendFailed,
    /// A status other than 2xx, with its status line and response text.
    ErrorStatus { status: String, body: String },
    /// A 2xx response whose body is not what the provider answers.
    Unparsable,
    /// Google: the transcript of each alternative, result by result.
    GoogleResults { results: Vec<Vec<String>> },
    /// OpenAI: the transcript.
    OpenAiText { text: String },
    /// OpenRouter: the message content of each choice.
    OpenRouterChoices { contents: Vec<String> },
}

/// `list` joined with `sep` between neighbours.
pub open spec fn seq_join(list: Seq<Seq<char>>, sep: Seq<char>) -> Seq<char>
    decreases list.len(),
{
    if list.len() == 0 {
        Seq::empty()
    } else if list.len() == 1 {
        list[0]
    } else {
        seq_join(list.drop_last(), sep) + sep + list.last()
    }
}

/// All alternatives of all results, in order.
pub open spec fn flatten_alternatives(results: Seq<Vec<String>>) -> Seq<Seq<char>>
    decreases results.len(),
{
    if results.len() == 0 {
        Seq::empty()
    } else {
        flatten_alternatives(results.drop_last()) + results.last()@.map_values(|s: String| s@)
    }
}

/// Joins the transcripts of every alternative of every result with a space.
pub fn join_google_transcripts(results: &Vec<Vec<String>>) -> (r: String)
    ensures
        r@ == seq_join(flatten_alternatives(results@), " "@),
{
    let mut r = String::new();
    let mut any: bool = false;
    let mut i: usize = 0;
    while i < results.len()
        invariant
            i <= results@.len(),
            any == (flatten_alternatives(results@.take(i as int)).len() > 0),
            r@ == seq_join(flatten_alternatives(results@.take(i as int)), " "@),
        decreases results@.len() - i,
    {
        let alts = &results[i];
        let ghost before = flatten_alternatives(results@.take(i as int));
        let mut j: usize = 0;
        while j < alts.len()
            invariant
                i < results@.len(),
                alts == results@[i as int],
                j <= alts@.len(),
                before == flatten_alternatives(results@.take(i as int)),
                any == (before.len() + j > 0),
                r@ == seq_join(before + alts@.take(j as int).map_values(|s: String| s@), " "@),
            decreases alts@.len() - j,
        {
            let ghost prev = before + alts@.take(j as int).map_values(|s: String| s@);
            let ghost next = before + alts@.take(j + 1).map_values(|s: String| s@);
            assert(next.drop_last() =~= prev);
            assert(next.last() == alts@[j as int]@);
            if any {
                r.append(" ");
            } else {
                assert(prev.len() == 0);
            }
            r.append(alts[j].as_str());
            any = true;
            j = j + 1;
        }
        assert(results@.take(i + 1).drop_last() =~= results@.take(i as int));
        assert(alts@.take(alts@.len() as int) =~= alts@);
        i = i + 1;
    }
    assert(results@.take(results@.len() as int) =~= results@);
    r
}

/// The error for a request that could not be sent.
pub open spec fn transcription_send_error(p: CloudProvider) -> Seq<char> {
    match p {
        CloudProvider::Google => "Failed to send request to Google Speech API"@,
        CloudProvider::OpenAi => "Failed to send request to OpenAI"@,
        CloudProvider::OpenRouter => "Failed to send request to OpenRouter"@,
        CloudProvider::LocalServer => "Failed to send request to local server"@,
    }
}

/// Prefix of the error for a status other than 2xx.
pub open spec fn transcription_status_prefix(p: CloudProvider) -> Seq<char> {
    match p {
        CloudProvider::Google => "Google API error "@,
        CloudProvider::OpenAi => "OpenAI API error "@,
        CloudProvider::OpenRouter => "OpenRouter API error "@,
        CloudProvider::LocalServer => "Local server error "@,
    }
}

/// The error for a reply that is not what the provider answers.
pub open spec fn transcription_parse_error(p: CloudProvider) -> Seq<char> {
    match p {
        CloudProvider::Google => "Failed to parse Google Speech response"@,
        CloudProvider::OpenAi => "Failed to parse OpenAI response"@,
        CloudProvider::OpenRouter => "Failed to parse OpenRouter response"@,
        CloudProvider::LocalServer => "Failed to parse local server response"@,
    }
}

/// The transcript in a reply from `p`, or the error. A reply of another
/// provider's shape counts as unparsable.
pub open spec fn transcription_reply_spec(p: CloudProvider, reply: TranscriptionReply) -> Result<Seq<char>, Seq<char>> {
    match reply {
        TranscriptionReply::SendFailed => Err(transcription_send_error(p)),
        TranscriptionReply::ErrorStatus { status, body } => Err(
            transcription_status_prefix(p) + status@ + ": "@ + body@,
        ),
        TranscriptionReply::GoogleResults { results } => if p == CloudProvider::Google {
            Ok(seq_join(flatten_alternatives(results@), " "@))
        } else {
            Err(transcription_parse_error(p))
        },
        TranscriptionReply::OpenAiText { text } => if p == CloudProvider::OpenAi || p
            == CloudProvider::LocalServer {
            Ok(text@)
        } else {
            Err(transcription_parse_error(p))
        },
        TranscriptionReply::OpenRouterChoices { contents } => if p == CloudProvider::OpenRouter {
            Ok(
                if contents@.len() == 0 {
                    Seq::empty()
                } else {
                    contents@[0]@
                },
            )
        } else {
            Err(transcription_parse_error(p))
        },
        TranscriptionReply::Unparsable => Err(transcription_parse_error(p)),
    }
}

/// The error for a reply that is not what `p` answers.
fn parse_error_of(p: CloudProvider) -> (r: String)
    ensures
        r@ == transcription_parse_error(p),
{
    match p {
        CloudProvider::Google => "Failed to parse Google Speech response".to_owned(),
        CloudProvider::OpenAi => "Failed to parse OpenAI response".to_owned(),
        CloudProvider::OpenRouter => "Failed to parse OpenRouter response".to_owned(),
        CloudProvider::LocalServer => "Failed to parse local server response".to_owned(),
    }
}

/// What a reply from `provider` comes to: the transcript, or the error.
pub fn transcription_reply_result(provider: CloudProvider, reply: TranscriptionReply) -> (r: Result<String, String>)
    ensures
        result_view(r) == transcription_reply_spec(provider, reply),
{
    match reply {
        TranscriptionReply::SendFailed => Err(
            match provider {
                CloudProvider::Google => "Failed to send request to Google Speech API".to_owned(),
                CloudProvider::OpenAi => "Failed to send request to OpenAI".to_owned(),
                CloudProvider::OpenRouter => "Failed to send request to OpenRouter".to_owned(),
                CloudProvider::LocalServer => "Failed to send request to local server".to_owned(),
            },
        ),
        TranscriptionReply::ErrorStatus { status, body } => {
            let mut e = match provider {
                CloudProvider::Google => "Google API error ".to_owned(),
                CloudProvider::OpenAi => "OpenAI API error ".to_owned(),
                CloudProvider::OpenRouter => "OpenRouter API error ".to_owned(),
                CloudProvider::LocalServer => "Local server error ".to_owned(),
            };
            e.append(status.as_str());
            e.append(": ");
            e.append(body.as_str());
            Err(e)
        },
        TranscriptionReply::GoogleResults { results } => {
            if provider == CloudProvider::Google {
                Ok(join_google_transcripts(&results))
            } else {
                Err(parse_error_of(provider))
            }
        },
        TranscriptionReply::OpenAiText { text } => {
            if provider == CloudProvider::OpenAi || provider == CloudProvider::LocalServer {
                Ok(text)
            } else {
                Err(parse_error_of(provider))
            }
        },
        TranscriptionReply::OpenRouterChoices { contents } => {
            if provider == CloudProvider::OpenRouter {
                if contents.len() == 0 {
                    Ok(String::new())
                } else {
                    Ok(contents[0].clone())
                }
            } else {
                Err(parse_error_of(provider))
            }
        },
        TranscriptionReply::Unparsable => Err(parse_error_of(provider)),
    }
}

/// The tried fallbacks, written out.
proof fn lemma_attempts_unfold(c: Config)
    ensures
        attempts_spec(c) == seq![primary_spec(c.transcription.provider@)]
            + (if fallback_tried(c, CloudProvider::OpenAi) {
            seq![CloudProvider::OpenAi]
        } else {
            Seq::empty()
        }) + (if fallback_tried(c, CloudProvider::OpenRouter) {
            seq![CloudProvider::OpenRouter]
        } else {
            Seq::empty()
        }) + (if fallback_tried(c, CloudProvider::Google) {
            seq![CloudProvider::Google]
        } else {
            Seq::empty()
        }),
{
    let f = |q: CloudProvider| fallback_tried(c, q);
    let order = fallback_order();
    reveal_with_fuel(Seq::filter, 4);
    assert(order.take(1).drop_last() =~= order.take(0));
    assert(order.take(2).drop_last() =~= order.take(1));
    assert(order.take(3).drop_last() =~= order.take(2));
    assert(order.take(3) =~= order);
    assert(order.take(0).filter(f) =~= Seq::<CloudProvider>::empty());
    let a = if fallback_tried(c, CloudProvider::OpenAi) {
        seq![CloudProvider::OpenAi]
    } else {
        Seq::empty()
    };
    let b = if fallback_tried(c, CloudProvider::OpenRouter) {
        seq![CloudProvider::OpenRouter]
    } else {
        Seq::empty()
    };
    let g = if fallback_tried(c, CloudProvider::Google) {
        seq![CloudProvider::Google]
    } else {
        Seq::empty()
    };
    assert(order.take(1).filter(f) =~= a);
    assert(order.take(2).filter(f) =~= a + b);
    assert(order.take(3).filter(f) =~= a + b + g);
    assert(attempts_spec(c) =~= seq![primary_spec(c.transcription.provider@)] + a + b + g);
}

/// At most four providers are asked for one transcription, the configured
/// one first, and every fallback has its API key set.
pub proof fn lemma_attempts_shape(c: Config)
    ensures
        1 <= attempts_spec(c).len() <= 4,
        attempts_spec(c)[0] == primary_spec(c.transcription.provider@),
        forall|i: int|
            1 <= i < attempts_spec(c).len() ==> provider_key(c, #[trigger] attempts_spec(c)[i]).len()
                != 0,
{
    lemma_attempts_unfold(c);
}

/// When the configured provider is a cloud provider or the local server,
/// no provider is asked twice.
pub proof fn lemma_cloud_primary_asked_once(c: Config)
    requires
        c.transcription.provider@ == "google"@ || c.transcription.provider@ == "openai"@
            || c.transcription.provider@ == "openrouter"@ || c.transcription.provider@ == "lmstudio"@,
    ensures
        forall|i: int, j: int|
            0 <= i < j < attempts_spec(c).len() ==> attempts_spec(c)[i] != attempts_spec(c)[j],
{
    lemma_attempts_unfold(c);
    let p = c.transcription.provider@;
    assert(provider_name(primary_spec(p)) == p);
}

} // verus!
