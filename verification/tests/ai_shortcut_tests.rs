use ottex::ai_shortcuts::{
    ai_retry_backoff, ai_route, chat_reply_result, is_success_status, plan_chat_request, AiRoute, ChatReply,
    SelectionPoll, ShortcutAction,
};
use ottex::config::Config;
use ottex::retry::RetryDecision;

#[test]
fn actions_names_and_prompts() {
    let all = ShortcutAction::all();
    assert_eq!(all.len(), 8);
    assert_eq!(all[0], ShortcutAction::FixGrammar);
    assert_eq!(all[7], ShortcutAction::ExpandText);
    let names: Vec<&str> = all.iter().map(|a| a.name()).collect();
    assert_eq!(
        names,
        vec!["Fix Grammar", "Make Concise", "Make Formal", "Make Casual", "Translate to Spanish", "Translate to French", "Summarize", "Expand"]
    );
    assert_eq!(
        ShortcutAction::FixGrammar.prompt(),
        "Fix any grammar, spelling, and punctuation errors in the following text. Return only the corrected text without any explanations."
    );
    assert_eq!(
        ShortcutAction::Summarize.prompt(),
        "Summarize the following text in 1-2 sentences. Return only the summary without any explanations."
    );
    for a in all {
        assert!(a.prompt().ends_with("without any explanations."));
    }
}

#[test]
fn routes() {
    assert_eq!(ai_route("openai"), AiRoute::OpenAi);
    assert_eq!(ai_route("openrouter"), AiRoute::OpenRouter);
    assert_eq!(ai_route("lmstudio"), AiRoute::Local);
    assert_eq!(ai_route("something"), AiRoute::Local);
}

#[test]
fn local_request() {
    let mut config = Config::default();
    config.ai_shortcuts.local_url = "http://localhost:1234/v1//".to_string();
    let plan = plan_chat_request(&config, "teh text", ShortcutAction::FixGrammar).unwrap();
    assert_eq!(plan.url, "http://localhost:1234/v1/chat/completions");
    assert!(plan.headers.is_empty());
    assert_eq!(plan.model, "qwen3-8b");
    assert_eq!(plan.messages.len(), 2);
    assert_eq!(plan.messages[0].role, "system");
    assert_eq!(plan.messages[0].content, ShortcutAction::FixGrammar.prompt());
    assert_eq!(plan.messages[1].role, "user");
    assert_eq!(plan.messages[1].content, "teh text");
}

#[test]
fn local_request_without_url() {
    let mut config = Config::default();
    config.ai_shortcuts.local_url = String::new();
    let err = plan_chat_request(&config, "x", ShortcutAction::Summarize).unwrap_err();
    assert_eq!(err, "Local server URL not configured for AI shortcuts");
}

#[test]
fn cloud_requests() {
    let mut config = Config::default();
    config.ai_shortcuts.provider = "openai".to_string();
    assert_eq!(
        plan_chat_request(&config, "x", ShortcutAction::MakeFormal).unwrap_err(),
        "No API key configured for AI shortcuts"
    );
    config.transcription.openai_api_key = "sk-1".to_string();
    let plan = plan_chat_request(&config, "x", ShortcutAction::MakeFormal).unwrap();
    assert_eq!(plan.url, "https://api.openai.com/v1/chat/completions");
    assert_eq!(plan.headers, vec![("Authorization".to_string(), "Bearer sk-1".to_string())]);

    config.ai_shortcuts.provider = "openrouter".to_string();
    config.ai_shortcuts.api_key = "or-2".to_string();
    let plan = plan_chat_request(&config, "x", ShortcutAction::MakeFormal).unwrap();
    assert_eq!(plan.url, "https://openrouter.ai/api/v1/chat/completions");
    assert_eq!(
        plan.headers,
        vec![
            ("Authorization".to_string(), "Bearer or-2".to_string()),
            ("HTTP-Referer".to_string(), "https://github.com/ottex".to_string()),
            ("X-Title".to_string(), "Ottex Voice-to-Text".to_string()),
        ]
    );
}

#[test]
fn chat_replies() {
    assert_eq!(
        chat_reply_result(AiRoute::OpenAi, ChatReply::SendFailed).unwrap_err(),
        "Failed to send request to OpenAI"
    );
    assert_eq!(
        chat_reply_result(
            AiRoute::OpenRouter,
            ChatReply::ErrorStatus { status: "429 Too Many Requests".to_string(), body: "slow down".to_string() }
        )
        .unwrap_err(),
        "OpenRouter API error 429 Too Many Requests: slow down"
    );
    assert_eq!(
        chat_reply_result(AiRoute::Local, ChatReply::Unparsable).unwrap_err(),
        "Failed to parse local AI server response"
    );
    assert_eq!(
        chat_reply_result(AiRoute::Local, ChatReply::Choices { contents: vec!["a".to_string(), "b".to_string()] }).unwrap(),
        "a"
    );
    assert_eq!(chat_reply_result(AiRoute::OpenAi, ChatReply::Choices { contents: vec![] }).unwrap(), "");
    assert!(is_success_status(200));
    assert!(is_success_status(299));
    assert!(!is_success_status(300));
    assert!(!is_success_status(199));
}

#[test]
fn selection_changes_on_third_read() {
    let mut poll = SelectionPoll::new(Some("old".to_string()));
    let reads = [Some("old".to_string()), None, Some("new text".to_string())];
    let mut k = 0;
    while poll.wants_read() {
        poll.observe(reads[k].clone());
        k += 1;
    }
    assert_eq!(poll.polls, 3);
    assert_eq!(poll.finish().unwrap(), "new text");
}

#[test]
fn selection_gives_up_after_ten_reads() {
    let mut poll = SelectionPoll::new(Some("same".to_string()));
    let mut reads = 0;
    while poll.wants_read() {
        poll.observe(Some("same".to_string()));
        reads += 1;
    }
    assert_eq!(reads, 10);
    // nothing changed: the copy picked up nothing, and the old clipboard
    // text is not taken for a selection
    assert_eq!(poll.finish().unwrap_err(), "No text selected");
}

#[test]
fn blank_selection_is_an_error() {
    let mut poll = SelectionPoll::new(None);
    while poll.wants_read() {
        poll.observe(Some("  \n".to_string()));
    }
    assert_eq!(poll.finish().unwrap_err(), "No text selected");
}

#[test]
fn prompts_share_their_shape() {
    let all = ShortcutAction::all();
    for (i, a) in all.iter().enumerate() {
        let p = a.prompt();
        assert!(p.ends_with(" without any explanations."));
        assert!(p.contains(". Return only the "));
        assert!(!p.contains('\n'));
        assert!(!p.contains("  "));
        for b in &all[i + 1..] {
            assert_ne!(p, b.prompt());
        }
    }
    assert!(ShortcutAction::TranslateToSpanish.prompt().contains("Spanish"));
    assert!(ShortcutAction::TranslateToFrench.prompt().contains("French"));
}

#[test]
fn ai_retry_schedule_values() {
    let mut b = ai_retry_backoff();
    assert_eq!(b.max_retries, 3);
    assert_eq!(b.initial_delay_nanos, 500_000_000);
    let mut waits = Vec::new();
    while let RetryDecision::Retry { wait_nanos } = b.on_failure(true) {
        waits.push(wait_nanos);
    }
    assert_eq!(waits, vec![500_000_000, 1_000_000_000, 2_000_000_000]);
}
