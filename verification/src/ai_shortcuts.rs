//! AI-powered text transformation shortcuts (like "Fix Grammar"): the
//! actions, the chat request each provider gets, what a reply comes to, and
//! how the selected text is picked up from the clipboard.

use vstd::prelude::*;
use crate::config::{Config, ai_shortcut_api_key_spec};
use crate::text::{str_eq, trim_end_matches_char, trim_end_char, is_blank, trim_seq, lemma_has_sub_within, has_sub};
use crate::retry::{retryable_text, RetryBackoff, RetryDecision, attempts_made, lemma_attempts_bounded};

verus! {

/// Available AI shortcut actions.
#[derive(Debug, Clone, Copy, PartialEq, Eq, Structural)]
pub enum ShortcutAction {
    FixGrammar,
    MakeConcise,
    MakeFormal,
    MakeCasual,
    TranslateToSpanish,
    TranslateToFrench,
    Summarize,
    ExpandText,
}

/// Every action, in menu order.
pub open spec fn all_actions() -> Seq<ShortcutAction> {
    seq![
        ShortcutAction::FixGrammar,
        ShortcutAction::MakeConcise,
        ShortcutAction::MakeFormal,
        ShortcutAction::MakeCasual,
        ShortcutAction::TranslateToSpanish,
        ShortcutAction::TranslateToFrench,
        ShortcutAction::Summarize,
        ShortcutAction::ExpandText,
    ]
}

/// The system prompt of each action.
pub open spec fn prompt_spec(a: ShortcutAction) -> Seq<char> {
    match a {
        ShortcutAction::FixGrammar =>
            "Fix any grammar, spelling, and punctuation errors in the following text. Return only the corrected text without any explanations."@,
        ShortcutAction::MakeConcise =>
            "Make the following text more concise while preserving its meaning. Return only the revised text without any explanations."@,
        ShortcutAction::MakeFormal =>
            "Rewrite the following text in a formal, professional tone. Return only the revised text without any explanations."@,
        ShortcutAction::MakeCasual =>
            "Rewrite the following text in a casual, friendly tone. Return only the revised text without any explanations."@,
        ShortcutAction::TranslateToSpanish =>
            "Translate the following text to Spanish. Return only the translation without any explanations."@,
        ShortcutAction::TranslateToFrench =>
            "Translate the following text to French. Return only the translation without any explanations."@,
        ShortcutAction::Summarize =>
            "Summarize the following text in 1-2 sentences. Return only the summary without any explanations."@,
        ShortcutAction::ExpandText =>
            "Expand and elaborate on the following text while maintaining its core message. Return only the expanded text without any explanations."@,
    }
}

/// The display name of each action.
pub open spec fn name_spec(a: ShortcutAction) -> Seq<char> {
    match a {
        ShortcutAction::FixGrammar => "Fix Grammar"@,
        ShortcutAction::MakeConcise => "Make Concise"@,
        ShortcutAction::MakeFormal => "Make Formal"@,
        ShortcutAction::MakeCasual => "Make Casual"@,
        ShortcutAction::TranslateToSpanish => "Translate to Spanish"@,
        ShortcutAction::TranslateToFrench => "Translate to French"@,
        ShortcutAction::Summarize => "Summarize"@,
        ShortcutAction::ExpandText => "Expand"@,
    }
}

impl ShortcutAction {
    /// Returns all available shortcut actions.
    pub fn all() -> (r: &'static [ShortcutAction])
        ensures
            r@ == all_actions(),
    {
        let r: &'static [ShortcutAction] = &[
            ShortcutAction::FixGrammar,
            ShortcutAction::MakeConcise,
            ShortcutAction::MakeFormal,
            ShortcutAction::MakeCasual,
            ShortcutAction::TranslateToSpanish,
            ShortcutAction::TranslateToFrench,
            ShortcutAction::Summarize,
            ShortcutAction::ExpandText,
        ];
        r
    }

    /// The instruction sent to the model as the system message.
    pub fn prompt(&self) -> (r: &'static str)
        ensures
            r@ == prompt_spec(*self),
    {
        match self {
            ShortcutAction::FixGrammar =>
                "Fix any grammar, spelling, and punctuation errors in the following text. Return only the corrected text without any explanations.",
            ShortcutAction::MakeConcise =>
                "Make the following text more concise while preserving its meaning. Return only the revised text without any explanations.",
            ShortcutAction::MakeFormal =>
                "Rewrite the following text in a formal, professional tone. Return only the revised text without any explanations.",
            ShortcutAction::MakeCasual =>
                "Rewrite the following text in a casual, friendly tone. Return only the revised text without any explanations.",
            ShortcutAction::TranslateToSpanish =>
                "Translate the following text to Spanish. Return only the translation without any explanations.",
            ShortcutAction::TranslateToFrench =>
                "Translate the following text to French. Return only the translation without any explanations.",
            ShortcutAction::Summarize =>
                "Summarize the following text in 1-2 sentences. Return only the summary without any explanations.",
            ShortcutAction::ExpandText =>
                "Expand and elaborate on the following text while maintaining its core message. Return only the expanded text without any explanations.",
        }
    }

    /// The name shown to the user.
    pub fn name(&self) -> (r: &'static str)
        ensures
            r@ == name_spec(*self),
    {
        match self {
            ShortcutAction::FixGrammar => "Fix Grammar",
            ShortcutAction::MakeConcise => "Make Concise",
            ShortcutAction::MakeFormal => "Make Formal",
            ShortcutAction::MakeCasual => "Make Casual",
            ShortcutAction::TranslateToSpanish => "Translate to Spanish",
            ShortcutAction::TranslateToFrench => "Translate to French",
            ShortcutAction::Summarize => "Summarize",
            ShortcutAction::ExpandText => "Expand",
        }
    }
}

/// Which kind of server an AI shortcut request goes to.
#[derive(Debug, Clone, Copy, PartialEq, Eq, Structural)]
pub enum AiRoute {
    /// A local OpenAI-compatible server (LM Studio, ...).
    Local,
    OpenAi,
    OpenRouter,
}

/// The route of a provider name; an unknown provider falls back to the local server.
pub open spec fn ai_route_spec(provider: Seq<char>) -> AiRoute {
    if provider == "openai"@ {
        AiRoute::OpenAi
    } else if provider == "openrouter"@ {
        AiRoute::OpenRouter
    } else {
        AiRoute::Local
    }
}

/// Chooses the server for the configured AI provider ("lmstudio", "openai",
/// "openrouter"; anything else goes to the local server).
pub fn ai_route(provider: &str) -> (r: AiRoute)
    ensures
        r == ai_route_spec(provider@),
{
    if str_eq(provider, "openai") {
        AiRoute::OpenAi
    } else if str_eq(provider, "openrouter") {
        AiRoute::OpenRouter
    } else {
        AiRoute::Local
    }
}

/// One chat message.
#[derive(Debug, Clone)]
pub struct ChatMessage {
    pub role: String,
    pub content: String,
}

/// Everything a chat completion request holds but its sampling temperature.
#[derive(Debug, Clone)]
pub struct ChatRequestPlan {
    /// Endpoint to POST to.
    pub url: String,
    /// Extra HTTP headers, as (name, value).
    pub headers: Vec<(String, String)>,
    pub model: String,
    pub messages: Vec<ChatMessage>,
}

/// Chat completions endpoint of OpenAI.
pub open spec fn openai_chat_url() -> Seq<char> {
    "https://api.openai.com/v1/chat/completions"@
}

/// Chat completions endpoint of OpenRouter.
pub open spec fn openrouter_chat_url() -> Seq<char> {
    "https://openrouter.ai/api/v1/chat/completions"@
}

/// Chat completions endpoint under a local server's base URL.
pub open spec fn local_chat_url(base: Seq<char>) -> Seq<char> {
    trim_end_char(base, '/') + "/chat/completions"@
}

/// The headers a request carries for a route and key.
pub open spec fn chat_headers_spec(route: AiRoute, key: Seq<char>) -> Seq<(Seq<char>, Seq<char>)> {
    match route {
        AiRoute::Local => Seq::empty(),
        AiRoute::OpenAi => seq![("Authorization"@, "Bearer "@ + key)],
        AiRoute::OpenRouter => seq![
            ("Authorization"@, "Bearer "@ + key),
            ("HTTP-Referer"@, "https://github.com/ottex"@),
            ("X-Title"@, "Ottex Voice-to-Text"@),
        ],
    }
}

/// The characters of each header.
pub open spec fn headers_view(h: Seq<(String, String)>) -> Seq<(Seq<char>, Seq<char>)> {
    h.map_values(|p: (String, String)| (p.0@, p.1@))
}

/// The characters of each message, as (role, content).
pub open spec fn messages_view(m: Seq<ChatMessage>) -> Seq<(Seq<char>, Seq<char>)> {
    m.map_values(|x: ChatMessage| (x.role@, x.content@))
}

/// The request for `text` and `action` under `config`, or the error that
/// stops it: a cloud route without an API key, a local route without a URL.
pub open spec fn chat_plan_ok(c: Config) -> bool {
    match ai_route_spec(c.ai_shortcuts.provider@) {
        AiRoute::Local => c.ai_shortcuts.local_url@.len() != 0,
        _ => ai_shortcut_api_key_spec(c) is Some,
    }
}

/// The error of a request that cannot be made.
pub open spec fn chat_plan_error(c: Config) -> Seq<char> {
    match ai_route_spec(c.ai_shortcuts.provider@) {
        AiRoute::Local => "Local server URL not configured for AI shortcuts"@,
        _ => "No API key configured for AI shortcuts"@,
    }
}

/// The endpoint of a request that can be made.
pub open spec fn chat_url_spec(c: Config) -> Seq<char> {
    match ai_route_spec(c.ai_shortcuts.provider@) {
        AiRoute::Local => local_chat_url(c.ai_shortcuts.local_url@),
        AiRoute::OpenAi => openai_chat_url(),
        AiRoute::OpenRouter => openrouter_chat_url(),
    }
}

/// `a` followed by `b`.
fn concat2(a: &str, b: &str) -> (r: String)
    ensures
        r@ == a@ + b@,
{
    let mut r = a.to_owned();
    r.append(b);
    r
}

/// A header pair.
fn header(name: &str, value: String) -> (h: (String, String))
    ensures
        h.0@ == name@,
        h.1@ == value@,
{
    (name.to_owned(), value)
}

/// Builds the chat request that applies `action` to `text` with the
/// configured AI provider: the system message is the action's prompt, the
/// user message the text, the model the configured one.
pub fn plan_chat_request(config: &Config, text: &str, action: ShortcutAction) -> (r: Result<ChatRequestPlan, String>)
    ensures
        r is Ok <==> chat_plan_ok(*config),
        r matches Err(e) ==> e@ == chat_plan_error(*config),
        r matches Ok(p) ==> {
            &&& p.url@ == chat_url_spec(*config)
            &&& p.model@ == config.ai_shortcuts.model@
            &&& messages_view(p.messages@) == seq![
                ("system"@, prompt_spec(action)),
                ("user"@, text@),
            ]
            &&& headers_view(p.headers@) == chat_headers_spec(
                ai_route_spec(config.ai_shortcuts.provider@),
                ai_shortcut_api_key_spec(*config)->0,
            )
        },
{
    let route = ai_route(config.ai_shortcuts.provider.as_str());
    let mut headers: Vec<(String, String)> = Vec::new();
    let url = match route {
        AiRoute::Local => {
            let base = config.ai_shortcuts.local_url.as_str();
            if base.unicode_len() == 0 {
                return Err("Local server URL not configured for AI shortcuts".to_owned());
            }
            let trimmed = trim_end_matches_char(base, '/');
            concat2(trimmed.as_str(), "/chat/completions")
        },
        _ => {
            let key = match config.get_ai_shortcut_api_key() {
                Some(k) => k,
                None => {
                    return Err("No API key configured for AI shortcuts".to_owned());
                },
            };
            headers.push(header("Authorization", concat2("Bearer ", key)));
            if route == AiRoute::OpenRouter {
                headers.push(header("HTTP-Referer", "https://github.com/ottex".to_owned()));
                headers.push(header("X-Title", "Ottex Voice-to-Text".to_owned()));
                "https://openrouter.ai/api/v1/chat/completions".to_owned()
            } else {
                "https://api.openai.com/v1/chat/completions".to_owned()
            }
        },
    };
    assert(headers_view(headers@) =~= chat_headers_spec(route, ai_shortcut_api_key_spec(*config)->0));
    let mut messages: Vec<ChatMessage> = Vec::new();
    messages.push(ChatMessage { role: "system".to_owned(), content: action.prompt().to_owned() });
    messages.push(ChatMessage { role: "user".to_owned(), content: text.to_owned() });
    assert(messages_view(messages@) =~= seq![("system"@, prompt_spec(action)), ("user"@, text@)]);
    Ok(ChatRequestPlan { url, headers, model: config.ai_shortcuts.model.clone(), messages })
}

/// Whether an HTTP status code means success (2xx).
pub open spec fn status_success(code: u16) -> bool {
    200 <= code <= 299
}

/// Whether an HTTP status code means success (2xx).
pub fn is_success_status(code: u16) -> (r: bool)
    ensures
        r == status_success(code),
{
    200 <= code && code <= 299
}

/// What came back from a chat completion request.
#[derive(Debug, Clone)]
pub enum ChatReply {
    /// The request could not be sent.
    SendFailed,
    /// A status other than 2xx; `status` is the status line (such as
    /// "429 Too Many Requests"), `body` the response text.
    ErrorStatus { status: String, body: String },
    /// A 2xx response whose body is not a chat completion.
    Unparsable,
    /// A 2xx chat completion: the message content of each choice, in order.
    Choices { contents: Vec<String> },
}

/// Prefix of the error for a status other than 2xx.
pub open spec fn api_error_prefix(route: AiRoute) -> Seq<char> {
    match route {
        AiRoute::Local => "Local AI server error "@,
        AiRoute::OpenAi => "OpenAI API error "@,
        AiRoute::OpenRouter => "OpenRouter API error "@,
    }
}

/// The error for a request that could not be sent.
pub open spec fn send_error(route: AiRoute) -> Seq<char> {
    match route {
        AiRoute::Local => "Failed to send request to local AI server"@,
        AiRoute::OpenAi => "Failed to send request to OpenAI"@,
        AiRoute::OpenRouter => "Failed to send request to OpenRouter"@,
    }
}

/// The error for a reply that is not a chat completion.
pub open spec fn parse_error(route: AiRoute) -> Seq<char> {
    match route {
        AiRoute::Local => "Failed to parse local AI server response"@,
        AiRoute::OpenAi => "Failed to parse OpenAI response"@,
        AiRoute::OpenRouter => "Failed to parse OpenRouter response"@,
    }
}

/// The text of a reply, or its error: the first choice's content (empty
/// when there is no choice).
pub open spec fn chat_reply_spec(route: AiRoute, reply: ChatReply) -> Result<Seq<char>, Seq<char>> {
    match reply {
        ChatReply::SendFailed => Err(send_error(route)),
        ChatReply::ErrorStatus { status, body } => Err(api_error_prefix(route) + status@ + ": "@ + body@),
        ChatReply::Unparsable => Err(parse_error(route)),
        ChatReply::Choices { contents } => Ok(
            if contents@.len() == 0 {
                Seq::empty()
            } else {
                contents@[0]@
            },
        ),
    }
}

/// The characters of a result of strings.
pub open spec fn result_view(r: Result<String, String>) -> Result<Seq<char>, Seq<char>> {
    match r {
        Ok(s) => Ok(s@),
        Err(e) => Err(e@),
    }
}

/// What a chat reply from `route` comes to: the transformed text, or the error.
pub fn chat_reply_result(route: AiRoute, reply: ChatReply) -> (r: Result<String, String>)
    ensures
        result_view(r) == chat_reply_spec(route, reply),
{
    match reply {
        ChatReply::SendFailed => Err(
            match route {
                AiRoute::Local => "Failed to send request to local AI server".to_owned(),
                AiRoute::OpenAi => "Failed to send request to OpenAI".to_owned(),
                AiRoute::OpenRouter => "Failed to send request to OpenRouter".to_owned(),
            },
        ),
        ChatReply::ErrorStatus { status, body } => {
            let mut e = match route {
                AiRoute::Local => "Local AI server error ".to_owned(),
                AiRoute::OpenAi => "OpenAI API error ".to_owned(),
                AiRoute::OpenRouter => "OpenRouter API error ".to_owned(),
            };
            e.append(status.as_str());
            e.append(": ");
            e.append(body.as_str());
            Err(e)
        },
        ChatReply::Unparsable => Err(
            match route {
                AiRoute::Local => "Failed to parse local AI server response".to_owned(),
                AiRoute::OpenAi => "Failed to parse OpenAI response".to_owned(),
                AiRoute::OpenRouter => "Failed to parse OpenRouter response".to_owned(),
            },
        ),
        ChatReply::Choices { contents } => {
            if contents.len() == 0 {
                Ok(String::new())
            } else {
                Ok(contents[0].clone())
            }
        },
    }
}

/// The retry schedule of an AI shortcut request before its first attempt:
/// up to 3 retries, the first after 500 ms.
pub open spec fn ai_retry_schedule() -> RetryBackoff {
    RetryBackoff { max_retries: 3, initial_delay_nanos: 500_000_000, attempt: 0, delay_nanos: 500_000_000 }
}

/// The retry schedule under which AI shortcut requests are made.
pub fn ai_retry_backoff() -> (b: RetryBackoff)
    ensures
        b == ai_retry_schedule(),
        b.wf(),
{
    RetryBackoff::new(3, 500_000_000)
}

/// An AI shortcut request is made at most 4 times in all, whatever the
/// attempts return; after retryable failures the waits are 500 ms, 1 s and
/// 2 s, and a fourth retryable failure ends the schedule.
pub proof fn lemma_ai_retry_schedule(outcomes: Seq<Option<bool>>)
    ensures
        attempts_made(ai_retry_schedule(), outcomes) <= 4,
        ai_retry_schedule().step(true).0 == (RetryDecision::Retry { wait_nanos: 500_000_000 }),
        ai_retry_schedule().step(true).1.step(true).0 == (RetryDecision::Retry { wait_nanos: 1_000_000_000 }),
        ai_retry_schedule().step(true).1.step(true).1.step(true).0 == (RetryDecision::Retry {
            wait_nanos: 2_000_000_000,
        }),
        ai_retry_schedule().step(true).1.step(true).1.step(true).1.step(true).0 == RetryDecision::GiveUp,
{
    lemma_attempts_bounded(ai_retry_schedule(), outcomes);
}

/// How many times the clipboard is read back after a copy.
pub const SELECTION_POLLS: u32 = 10;

/// Picks up the selected text after a simulated copy: the clipboard is read
/// back up to [`SELECTION_POLLS`] times until it differs from what it held before.
#[derive(Debug, Clone)]
pub struct SelectionPoll {
    /// The clipboard text before the copy (empty if it could not be read).
    pub before: String,
    /// Reads made so far.
    pub polls: u32,
    /// The first text read that differs from `before`.
    pub changed: Option<String>,
}

/// The selection once polling is over: the first changed read. When the
/// clipboard never changed, the copy picked up nothing, so nothing is
/// selected (what the clipboard held before is not the selection).
pub open spec fn selection_spec(p: SelectionPoll) -> Seq<char> {
    match p.changed {
        Some(t) => t@,
        None => Seq::empty(),
    }
}

impl SelectionPoll {
    /// Polling still goes on.
    pub open spec fn polling(self) -> bool {
        self.changed is None && self.polls < SELECTION_POLLS
    }

    /// Starts polling; `before` is the clipboard read before the copy, if it succeeded.
    pub fn new(before: Option<String>) -> (p: SelectionPoll)
        ensures
            p.before@ == (match before {
                Some(b) => b@,
                None => Seq::<char>::empty(),
            }),
            p.polls == 0,
            p.changed is None,
    {
        let before = match before {
            Some(b) => b,
            None => String::new(),
        };
        SelectionPoll { before, polls: 0, changed: None }
    }

    /// Whether to wait and read the clipboard again.
    pub fn wants_read(&self) -> (r: bool)
        ensures
            r == self.polling(),
    {
        self.changed.is_none() && self.polls < SELECTION_POLLS
    }

    /// Takes in one clipboard read (`None` when reading failed); a read that
    /// differs from the text before the copy ends polling.
    pub fn observe(&mut self, read: Option<String>)
        requires
            old(self).polling(),
        ensures
            final(self).before == old(self).before,
            final(self).polls == old(self).polls + 1,
            final(self).changed == (match read {
                Some(t) => if t@ != old(self).before@ {
                    Some(t)
                } else {
                    None
                },
                None => None,
            }),
    {
        self.polls = self.polls + 1;
        if let Some(t) = read {
            if !(t == self.before) {
                self.changed = Some(t);
            }
        }
    }

    /// The selected text; "No text selected" when the clipboard never
    /// changed or the new text is blank.
    pub fn finish(self) -> (r: Result<String, String>)
        ensures
            r matches Ok(t) ==> t@ == selection_spec(self) && trim_seq(t@).len() != 0,
            r is Err <==> trim_seq(selection_spec(self)).len() == 0,
            self.changed is None ==> r is Err,
            r matches Err(e) ==> e@ == "No text selected"@,
    {
        match self.changed {
            Some(t) => {
                if is_blank(t.as_str()) {
                    Err("No text selected".to_owned())
                } else {
                    Ok(t)
                }
            },
            None => {
                assert(trim_seq(Seq::<char>::empty()).len() == 0);
                Err("No text selected".to_owned())
            },
        }
    }
}

/// A chat server that answers with a retryable status (429, 500, 502,
/// 503, 504) gives an error that the retry schedule retries.
pub proof fn lemma_retryable_status_retried(route: AiRoute, status: String, body: String)
    requires
        retryable_text(status@),
    ensures
        chat_reply_spec(route, ChatReply::ErrorStatus { status, body }) matches Err(e)
            && retryable_text(e),
{
    let a = api_error_prefix(route);
    let c = ": "@ + body@;
    let e = a + status@ + ": "@ + body@;
    assert(e =~= a + status@ + c);
    if has_sub(status@, "429"@) {
        lemma_has_sub_within(a, status@, c, "429"@);
    }
    if has_sub(status@, "500"@) {
        lemma_has_sub_within(a, status@, c, "500"@);
    }
    if has_sub(status@, "502"@) {
        lemma_has_sub_within(a, status@, c, "502"@);
    }
    if has_sub(status@, "503"@) {
        lemma_has_sub_within(a, status@, c, "503"@);
    }
    if has_sub(status@, "504"@) {
        lemma_has_sub_within(a, status@, c, "504"@);
    }
    if has_sub(status@, "connection"@) {
        lemma_has_sub_within(a, status@, c, "connection"@);
    }
    if has_sub(status@, "timed out"@) {
        lemma_has_sub_within(a, status@, c, "timed out"@);
    }
    if has_sub(status@, "timeout"@) {
        lemma_has_sub_within(a, status@, c, "timeout"@);
    }
}

/// The sentence by which every prompt asks for the bare result.
pub open spec fn return_only() -> Seq<char> {
    ". Return only the "@
}

/// The ending that every prompt shares.
pub open spec fn prompt_ending() -> Seq<char> {
    " without any explanations."@
}

/// Whether `s` ends with `suffix`.
pub open spec fn ends_with(s: Seq<char>, suffix: Seq<char>) -> bool {
    suffix.len() <= s.len() && s.subrange(s.len() - suffix.len(), s.len() as int) == suffix
}

/// Whether no two spaces stand next to each other in `s`.
pub open spec fn no_double_space(s: Seq<char>) -> bool {
    forall|i: int| 0 <= i < s.len() - 1 ==> !(#[trigger] s[i] == ' ' && s[i + 1] == ' ')
}

/// Whether `s` holds no line break.
pub open spec fn single_line(s: Seq<char>) -> bool {
    forall|i: int| 0 <= i < s.len() ==> #[trigger] s[i] != '\n'
}

/// The shape of one prompt.
proof fn lemma_prompt_shape(a: ShortcutAction)
    ensures
        ends_with(prompt_spec(a), prompt_ending()),
        has_sub(prompt_spec(a), return_only()),
        single_line(prompt_spec(a)),
        no_double_space(prompt_spec(a)),
{
    let s = prompt_spec(a);
    let return_only = return_only();
    reveal_strlit(". Return only the ");
    reveal_strlit(" without any explanations.");
    match a {
        ShortcutAction::FixGrammar => {
            reveal_strlit("Fix any grammar, spelling, and punctuation errors in the following text. Return only the corrected text without any explanations.");
            assert(s.subrange(71, 71int + return_only.len()) =~= return_only);
        },
        ShortcutAction::MakeConcise => {
            reveal_strlit("Make the following text more concise while preserving its meaning. Return only the revised text without any explanations.");
            assert(s.subrange(65, 65int + return_only.len()) =~= return_only);
        },
        ShortcutAction::MakeFormal => {
            reveal_strlit("Rewrite the following text in a formal, professional tone. Return only the revised text without any explanations.");
            assert(s.subrange(57, 57int + return_only.len()) =~= return_only);
        },
        ShortcutAction::MakeCasual => {
            reveal_strlit("Rewrite the following text in a casual, friendly tone. Return only the revised text without any explanations.");
            assert(s.subrange(53, 53int + return_only.len()) =~= return_only);
        },
        ShortcutAction::TranslateToSpanish => {
            reveal_strlit("Translate the following text to Spanish. Return only the translation without any explanations.");
            assert(s.subrange(39, 39int + return_only.len()) =~= return_only);
        },
        ShortcutAction::TranslateToFrench => {
            reveal_strlit("Translate the following text to French. Return only the translation without any explanations.");
            assert(s.subrange(38, 38int + return_only.len()) =~= return_only);
        },
        ShortcutAction::Summarize => {
            reveal_strlit("Summarize the following text in 1-2 sentences. Return only the summary without any explanations.");
            assert(s.subrange(45, 45int + return_only.len()) =~= return_only);
        },
        ShortcutAction::ExpandText => {
            reveal_strlit("Expand and elaborate on the following text while maintaining its core message. Return only the expanded text without any explanations.");
            assert(s.subrange(77, 77int + return_only.len()) =~= return_only);
        },
    }
    assert(s.subrange(s.len() - prompt_ending().len(), s.len() as int) =~= prompt_ending());
}

/// Every prompt asks for the bare result in one line: it contains
/// ". Return only the ", ends with " without any explanations.", holds no
/// line break and no two spaces in a row. Different actions have different
/// prompts, and each translation names its language.
pub proof fn lemma_prompt_structure(a: ShortcutAction, b: ShortcutAction)
    ensures
        ends_with(prompt_spec(a), prompt_ending()),
        has_sub(prompt_spec(a), return_only()),
        single_line(prompt_spec(a)),
        no_double_space(prompt_spec(a)),
        a != b ==> prompt_spec(a) != prompt_spec(b),
        has_sub(prompt_spec(ShortcutAction::TranslateToSpanish), "Spanish"@),
        has_sub(prompt_spec(ShortcutAction::TranslateToFrench), "French"@),
{
    lemma_prompt_shape(a);
    reveal_strlit("Fix any grammar, spelling, and punctuation errors in the following text. Return only the corrected text without any explanations.");
    reveal_strlit("Make the following text more concise while preserving its meaning. Return only the revised text without any explanations.");
    reveal_strlit("Rewrite the following text in a formal, professional tone. Return only the revised text without any explanations.");
    reveal_strlit("Rewrite the following text in a casual, friendly tone. Return only the revised text without any explanations.");
    reveal_strlit("Translate the following text to Spanish. Return only the translation without any explanations.");
    reveal_strlit("Translate the following text to French. Return only the translation without any explanations.");
    reveal_strlit("Summarize the following text in 1-2 sentences. Return only the summary without any explanations.");
    reveal_strlit("Expand and elaborate on the following text while maintaining its core message. Return only the expanded text without any explanations.");
    reveal_strlit("Spanish");
    reveal_strlit("French");
    assert(prompt_spec(ShortcutAction::TranslateToSpanish).subrange(32, 32int + "Spanish"@.len()) =~= "Spanish"@);
    assert(prompt_spec(ShortcutAction::TranslateToFrench).subrange(32, 32int + "French"@.len()) =~= "French"@);
}

/// Each prompt names what its action does: grammar for Fix Grammar,
/// "concise", "formal" and "casual" for the rewrites, "Summarize" and
/// "Expand" for the last two; the formal rewrite never asks for a casual
/// tone, nor the casual one for a formal tone.
pub proof fn lemma_prompts_name_their_action()
    ensures
        has_sub(prompt_spec(ShortcutAction::FixGrammar), "grammar"@),
        has_sub(prompt_spec(ShortcutAction::MakeConcise), "concise"@),
        has_sub(prompt_spec(ShortcutAction::MakeFormal), "formal"@),
        has_sub(prompt_spec(ShortcutAction::MakeCasual), "casual"@),
        has_sub(prompt_spec(ShortcutAction::Summarize), "Summarize"@),
        has_sub(prompt_spec(ShortcutAction::ExpandText), "Expand"@),
        !has_sub(prompt_spec(ShortcutAction::MakeFormal), "casual"@),
        !has_sub(prompt_spec(ShortcutAction::MakeCasual), "formal"@),
{
    reveal_strlit("Fix any grammar, spelling, and punctuation errors in the following text. Return only the corrected text without any explanations.");
    reveal_strlit("grammar");
    assert(prompt_spec(ShortcutAction::FixGrammar).subrange(8, 8int + "grammar"@.len()) =~= "grammar"@);
    reveal_strlit("Make the following text more concise while preserving its meaning. Return only the revised text without any explanations.");
    reveal_strlit("concise");
    assert(prompt_spec(ShortcutAction::MakeConcise).subrange(29, 29int + "concise"@.len()) =~= "concise"@);
    reveal_strlit("Rewrite the following text in a formal, professional tone. Return only the revised text without any explanations.");
    reveal_strlit("formal");
    assert(prompt_spec(ShortcutAction::MakeFormal).subrange(32, 32int + "formal"@.len()) =~= "formal"@);
    reveal_strlit("Rewrite the following text in a casual, friendly tone. Return only the revised text without any explanations.");
    reveal_strlit("casual");
    assert(prompt_spec(ShortcutAction::MakeCasual).subrange(32, 32int + "casual"@.len()) =~= "casual"@);
    reveal_strlit("Summarize the following text in 1-2 sentences. Return only the summary without any explanations.");
    reveal_strlit("Summarize");
    assert(prompt_spec(ShortcutAction::Summarize).subrange(0, 0int + "Summarize"@.len()) =~= "Summarize"@);
    reveal_strlit("Expand and elaborate on the following text while maintaining its core message. Return only the expanded text without any explanations.");
    reveal_strlit("Expand");
    assert(prompt_spec(ShortcutAction::ExpandText).subrange(0, 0int + "Expand"@.len()) =~= "Expand"@);
    let formal = prompt_spec(ShortcutAction::MakeFormal);
    let casual = prompt_spec(ShortcutAction::MakeCasual);
    reveal_strlit("casual");
    reveal_strlit("formal");
    assert forall|i: int| 0 <= i <= formal.len() - "casual"@.len() implies #[trigger] formal.subrange(
        i,
        i + "casual"@.len(),
    ) != "casual"@ by {
        if formal.subrange(i, i + "casual"@.len()) == "casual"@ {
            assert(formal.subrange(i, i + 6)[0] == formal[i]);
            assert(formal.subrange(i, i + 6)[1] == formal[i + 1]);
            assert(formal.subrange(i, i + 6)[2] == formal[i + 2]);
            assert(formal[i] == 'c' && formal[i + 1] == 'a' && formal[i + 2] == 's');
        }
    }
    assert forall|i: int| 0 <= i <= casual.len() - "formal"@.len() implies #[trigger] casual.subrange(
        i,
        i + "formal"@.len(),
    ) != "formal"@ by {
        if casual.subrange(i, i + "formal"@.len()) == "formal"@ {
            assert(casual.subrange(i, i + 6)[0] == casual[i]);
            assert(casual.subrange(i, i + 6)[1] == casual[i + 1]);
            assert(casual.subrange(i, i + 6)[2] == casual[i + 2]);
            assert(casual[i] == 'f' && casual[i + 1] == 'o' && casual[i + 2] == 'r');
        }
    }
}

} // verus!
