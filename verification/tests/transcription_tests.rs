use ottex::config::Config;
use ottex::transcription::{
    join_google_transcripts, plan_transcription_request, transcription_attempts,
    transcription_reply_result, CloudProvider, TranscriptionReply, TranscriptionRequest,
    TranscriptionRun, TranscriptionStep,
};

fn keyed() -> Config {
    let mut c = Config::default();
    c.transcription.google_api_key = "g".to_string();
    c.transcription.openai_api_key = "o".to_string();
    c.transcription.openrouter_api_key = "r".to_string();
    c
}

#[test]
fn attempt_order() {
    let mut c = keyed();
    c.transcription.provider = "google".to_string();
    assert_eq!(transcription_attempts(&c), vec![CloudProvider::Google, CloudProvider::OpenAi, CloudProvider::OpenRouter]);
    c.transcription.provider = "openrouter".to_string();
    assert_eq!(transcription_attempts(&c), vec![CloudProvider::OpenRouter, CloudProvider::OpenAi, CloudProvider::Google]);
    // the embedded provider is not a cloud provider: OpenAI is asked first, and again as a fallback
    c.transcription.provider = "embedded".to_string();
    assert_eq!(
        transcription_attempts(&c),
        vec![CloudProvider::OpenAi, CloudProvider::OpenAi, CloudProvider::OpenRouter, CloudProvider::Google]
    );
    // "lmstudio" is served by the local server, then the keyed fallbacks
    c.transcription.provider = "lmstudio".to_string();
    assert_eq!(
        transcription_attempts(&c),
        vec![CloudProvider::LocalServer, CloudProvider::OpenAi, CloudProvider::OpenRouter, CloudProvider::Google]
    );
    let mut d = Config::default();
    d.transcription.provider = "openai".to_string();
    assert_eq!(transcription_attempts(&d), vec![CloudProvider::OpenAi]);
}

#[test]
fn local_server_request() {
    let mut c = Config::default();
    c.transcription.local_url = "http://localhost:1234/v1/".to_string();
    match plan_transcription_request(&c, CloudProvider::LocalServer, &[7, 8]).unwrap() {
        TranscriptionRequest::LocalServer { url, model, language, file_name, mime, file } => {
            assert_eq!(url, "http://localhost:1234/v1/audio/transcriptions");
            assert_eq!(model, c.transcription.local_model);
            assert_eq!(language, "en");
            assert_eq!(file_name, "recording.wav");
            assert_eq!(mime, "audio/wav");
            assert_eq!(file, vec![7, 8]);
        }
        other => panic!("unexpected {:?}", other),
    }
    c.transcription.local_url = String::new();
    assert_eq!(
        plan_transcription_request(&c, CloudProvider::LocalServer, &[7, 8]).unwrap_err(),
        "Local server URL not configured for transcription"
    );
    let ok = transcription_reply_result(CloudProvider::LocalServer, TranscriptionReply::OpenAiText { text: "hello".to_string() });
    assert_eq!(ok, Ok("hello".to_string()));
    assert_eq!(
        transcription_reply_result(CloudProvider::LocalServer, TranscriptionReply::SendFailed),
        Err("Failed to send request to local server".to_string())
    );
    assert_eq!(
        transcription_reply_result(
            CloudProvider::LocalServer,
            TranscriptionReply::ErrorStatus { status: "500".to_string(), body: "x".to_string() }
        ),
        Err("Local server error 500: x".to_string())
    );
    assert_eq!(
        transcription_reply_result(CloudProvider::LocalServer, TranscriptionReply::Unparsable),
        Err("Failed to parse local server response".to_string())
    );
}

#[test]
fn run_stops_at_first_success() {
    let mut c = keyed();
    c.transcription.provider = "google".to_string();
    let mut run = TranscriptionRun::start(&c);
    let mut asked = Vec::new();
    let mut last = None;
    let result = loop {
        match run.step(last.take()) {
            TranscriptionStep::Call(p) => {
                asked.push(p);
                last = Some(if p == CloudProvider::OpenAi { Ok("hi".to_string()) } else { Err("down".to_string()) });
            }
            TranscriptionStep::Finished(r) => break r,
        }
    };
    assert_eq!(asked, vec![CloudProvider::Google, CloudProvider::OpenAi]);
    assert_eq!(result, Ok("hi".to_string()));
}

#[test]
fn run_all_fail() {
    let c = Config::default();
    let mut run = TranscriptionRun::start(&c);
    let mut last = None;
    let mut calls = 0;
    let result = loop {
        match run.step(last.take()) {
            TranscriptionStep::Call(_) => {
                calls += 1;
                last = Some(Err("OpenAI API key not configured".to_string()));
            }
            TranscriptionStep::Finished(r) => break r,
        }
    };
    assert_eq!(calls, 1);
    assert_eq!(result, Err("All transcription providers failed".to_string()));
}

#[test]
fn google_request() {
    let mut c = keyed();
    c.transcription.language = "de-DE".to_string();
    match plan_transcription_request(&c, CloudProvider::Google, b"hello").unwrap() {
        TranscriptionRequest::Google { url, encoding, sample_rate_hertz, language_code, enable_automatic_punctuation, audio_base64 } => {
            assert_eq!(url, "https://speech.googleapis.com/v1/speech:recognize?key=g");
            assert_eq!(encoding, "LINEAR16");
            assert_eq!(sample_rate_hertz, 48000);
            assert_eq!(language_code, "de-DE");
            assert!(enable_automatic_punctuation);
            assert_eq!(audio_base64, "aGVsbG8=");
        }
        other => panic!("unexpected {:?}", other),
    }
}

#[test]
fn openai_and_openrouter_requests() {
    let c = keyed();
    match plan_transcription_request(&c, CloudProvider::OpenAi, &[1, 2, 3]).unwrap() {
        TranscriptionRequest::OpenAi { url, authorization, model, language, file_name, mime, file } => {
            assert_eq!(file, vec![1, 2, 3]);
            assert_eq!(url, "https://api.openai.com/v1/audio/transcriptions");
            assert_eq!(authorization, "Bearer o");
            assert_eq!(model, "whisper-1");
            assert_eq!(language, "en");
            assert_eq!(file_name, "recording.wav");
            assert_eq!(mime, "audio/wav");
        }
        other => panic!("unexpected {:?}", other),
    }
    match plan_transcription_request(&c, CloudProvider::OpenRouter, &[0, 0, 0, 0]).unwrap() {
        TranscriptionRequest::OpenRouter { url, headers, model, role, prompt, audio_base64, audio_format } => {
            assert_eq!(url, "https://openrouter.ai/api/v1/chat/completions");
            assert_eq!(headers[0], ("Authorization".to_string(), "Bearer r".to_string()));
            assert_eq!(headers.len(), 3);
            assert_eq!(model, "openai/whisper-large-v3");
            assert_eq!(role, "user");
            assert_eq!(prompt, "Please transcribe this audio accurately.");
            assert_eq!(audio_base64, "AAAAAA==");
            assert_eq!(audio_format, "wav");
        }
        other => panic!("unexpected {:?}", other),
    }
}

#[test]
fn missing_keys() {
    let c = Config::default();
    assert_eq!(plan_transcription_request(&c, CloudProvider::Google, &[]).unwrap_err(), "Google API key not configured");
    assert_eq!(plan_transcription_request(&c, CloudProvider::OpenAi, &[]).unwrap_err(), "OpenAI API key not configured");
    assert_eq!(plan_transcription_request(&c, CloudProvider::OpenRouter, &[]).unwrap_err(), "OpenRouter API key not configured");
}

#[test]
fn transcription_replies() {
    let results = vec![
        vec!["hello".to_string(), "hallo".to_string()],
        vec![],
        vec!["world".to_string()],
    ];
    assert_eq!(join_google_transcripts(&results), "hello hallo world");
    assert_eq!(join_google_transcripts(&vec![]), "");
    assert_eq!(
        transcription_reply_result(CloudProvider::Google, TranscriptionReply::GoogleResults { results }).unwrap(),
        "hello hallo world"
    );
    assert_eq!(
        transcription_reply_result(CloudProvider::Google, TranscriptionReply::SendFailed).unwrap_err(),
        "Failed to send request to Google Speech API"
    );
    assert_eq!(
        transcription_reply_result(
            CloudProvider::OpenAi,
            TranscriptionReply::ErrorStatus { status: "401 Unauthorized".to_string(), body: "bad key".to_string() }
        )
        .unwrap_err(),
        "OpenAI API error 401 Unauthorized: bad key"
    );
    assert_eq!(
        transcription_reply_result(CloudProvider::OpenAi, TranscriptionReply::OpenAiText { text: "hi".to_string() }).unwrap(),
        "hi"
    );
    assert_eq!(
        transcription_reply_result(CloudProvider::OpenRouter, TranscriptionReply::OpenRouterChoices { contents: vec![] }).unwrap(),
        ""
    );
    assert_eq!(
        transcription_reply_result(CloudProvider::OpenRouter, TranscriptionReply::Unparsable).unwrap_err(),
        "Failed to parse OpenRouter response"
    );
    assert_eq!(
        transcription_reply_result(CloudProvider::OpenAi, TranscriptionReply::OpenRouterChoices { contents: vec![] }).unwrap_err(),
        "Failed to parse OpenAI response"
    );
}
