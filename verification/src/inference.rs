//! Decisions of the embedded Whisper engine: the supervisor's state across
//! commands, greedy decoding of one chunk, which tokens are suppressed, and
//! how chunk transcripts come together.

use vstd::prelude::*;
use crate::text::{trim, trim_seq, push_char};

verus! {

/// Samples in a 30-second chunk at 16 kHz.
pub const CHUNK_SAMPLES: usize = 480000;

/// Tokens generated per chunk at most.
pub const MAX_SAMPLE_TOKENS: usize = 224;

/// Tokens that start every decoding: start of transcript, language,
/// task, no-timestamps.
pub const PROMPT_TOKENS: usize = 4;

/// Greedy decoding of one chunk: the token sequence grows one token per
/// step until the end-of-text token comes or [`MAX_SAMPLE_TOKENS`] steps were made.
#[derive(Debug, Clone)]
pub struct TokenDecoder {
    tokens: Vec<u32>,
    eot_token: u32,
    steps: usize,
    finished: bool,
}

impl TokenDecoder {
    /// The tokens so far.
    pub closed spec fn spec_tokens(self) -> Seq<u32> {
        self.tokens@
    }

    /// Decoding steps made so far.
    pub closed spec fn spec_steps(self) -> nat {
        self.steps as nat
    }

    /// The end-of-text token came.
    pub closed spec fn spec_finished(self) -> bool {
        self.finished
    }

    /// The end-of-text token.
    pub closed spec fn spec_eot(self) -> u32 {
        self.eot_token
    }

    /// Tokens are the prompt and then one token per step, none of them
    /// end-of-text.
    pub closed spec fn wf(self) -> bool {
        &&& self.tokens@.len() == PROMPT_TOKENS + self.steps
        &&& self.steps <= MAX_SAMPLE_TOKENS
        &&& forall|k: int| PROMPT_TOKENS <= k < self.tokens@.len() ==> self.tokens@[k] != self.eot_token
    }

    /// Starts decoding with start-of-transcript, the English language token
    /// (the one after start-of-transcript), transcribe and no-timestamps.
    pub fn new(sot_token: u32, eot_token: u32, transcribe_token: u32, no_timestamps_token: u32) -> (d: TokenDecoder)
        requires
            sot_token < u32::MAX,
        ensures
            d.wf(),
            d.spec_tokens() == seq![sot_token, (sot_token + 1) as u32, transcribe_token, no_timestamps_token],
            d.spec_steps() == 0,
            !d.spec_finished(),
            d.spec_eot() == eot_token,
    {
        let mut tokens: Vec<u32> = Vec::new();
        tokens.push(sot_token);
        tokens.push(sot_token + 1);
        tokens.push(transcribe_token);
        tokens.push(no_timestamps_token);
        assert(tokens@ =~= seq![sot_token, (sot_token + 1) as u32, transcribe_token, no_timestamps_token]);
        TokenDecoder { tokens, eot_token, steps: 0, finished: false }
    }

    /// Whether another token is to be generated.
    pub fn wants_token(&self) -> (r: bool)
        ensures
            r == (!self.spec_finished() && self.spec_steps() < MAX_SAMPLE_TOKENS),
    {
        !self.finished && self.steps < MAX_SAMPLE_TOKENS
    }

    /// Whether the next step is the first one (the decoder then starts
    /// from an empty cache).
    pub fn is_first_step(&self) -> (r: bool)
        ensures
            r == (self.spec_steps() == 0),
    {
        self.steps == 0
    }

    /// The tokens so far, to feed the decoder.
    pub fn tokens(&self) -> (r: &Vec<u32>)
        ensures
            r@ == self.spec_tokens(),
    {
        &self.tokens
    }

    /// Takes the token chosen at this step: end-of-text ends decoding,
    /// any other token is appended.
    pub fn push_token(&mut self, next: u32)
        requires
            old(self).wf(),
            !old(self).spec_finished(),
            old(self).spec_steps() < MAX_SAMPLE_TOKENS,
        ensures
            final(self).wf(),
            final(self).spec_eot() == old(self).spec_eot(),
            next == old(self).spec_eot() ==> final(self).spec_finished() && final(self).spec_tokens()
                == old(self).spec_tokens() && final(self).spec_steps() == old(self).spec_steps(),
            next != old(self).spec_eot() ==> !final(self).spec_finished() && final(self).spec_tokens()
                == old(self).spec_tokens().push(next) && final(self).spec_steps() == old(self).spec_steps() + 1,
    {
        if next == self.eot_token {
            self.finished = true;
        } else {
            self.tokens.push(next);
            self.steps = self.steps + 1;
        }
    }

    /// The generated tokens, without the prompt, for the tokenizer to decode.
    pub fn text_tokens(&self) -> (r: Vec<u32>)
        requires
            self.wf(),
        ensures
            r@ == self.spec_tokens().skip(PROMPT_TOKENS as int),
            r@.len() <= MAX_SAMPLE_TOKENS,
            forall|k: int| 0 <= k < r@.len() ==> r@[k] != self.spec_eot(),
    {
        let mut r: Vec<u32> = Vec::new();
        let mut i: usize = PROMPT_TOKENS;
        while i < self.tokens.len()
            invariant
                self.wf(),
                PROMPT_TOKENS <= i <= self.tokens@.len(),
                r@ == self.tokens@.subrange(PROMPT_TOKENS as int, i as int),
            decreases self.tokens@.len() - i,
        {
            r.push(self.tokens[i]);
            i = i + 1;
        }
        assert(r@ =~= self.spec_tokens().skip(PROMPT_TOKENS as int));
        r
    }
}

/// Whether token `i` is listed in `tokens`.
pub open spec fn listed(tokens: Seq<u32>, i: int) -> bool {
    exists|k: int| 0 <= k < tokens.len() && tokens[k] as int == i
}

/// Which of the `vocab_size` token ids are suppressed during decoding:
/// those listed (ids outside the vocabulary are ignored).
pub fn suppress_mask(vocab_size: usize, tokens: &[u32]) -> (m: Vec<bool>)
    ensures
        m@.len() == vocab_size,
        forall|i: int| 0 <= i < vocab_size ==> m@[i] == listed(tokens@, i),
{
    let mut m: Vec<bool> = Vec::new();
    let mut i: usize = 0;
    while i < vocab_size
        invariant
            i <= vocab_size,
            m@.len() == i,
            forall|j: int| 0 <= j < i ==> !m@[j],
        decreases vocab_size - i,
    {
        m.push(false);
        i = i + 1;
    }
    let mut k: usize = 0;
    while k < tokens.len()
        invariant
            k <= tokens@.len(),
            m@.len() == vocab_size,
            forall|i: int|
                0 <= i < vocab_size ==> m@[i] == (exists|j: int| 0 <= j < k && tokens@[j] as int == i),
        decreases tokens@.len() - k,
    {
        let t = tokens[k];
        if (t as usize) < vocab_size {
            m.set(t as usize, true);
        }
        proof {
            assert forall|i: int| 0 <= i < vocab_size implies m@[i] == (exists|j: int|
                0 <= j < k + 1 && tokens@[j] as int == i) by {
                if tokens@[k as int] as int == i {
                    assert(0 <= k < k + 1 && tokens@[k as int] as int == i);
                }
            }
        }
        k = k + 1;
    }
    m
}

/// The decimal digits of `n`.
pub open spec fn decimal(n: nat) -> Seq<char>
    decreases n,
{
    if n < 10 {
        seq![digit_char(n)]
    } else {
        decimal(n / 10).push(digit_char(n % 10))
    }
}

/// The character of a decimal digit.
pub open spec fn digit_char(d: nat) -> char {
    if d == 0 {
        '0'
    } else if d == 1 {
        '1'
    } else if d == 2 {
        '2'
    } else if d == 3 {
        '3'
    } else if d == 4 {
        '4'
    } else if d == 5 {
        '5'
    } else if d == 6 {
        '6'
    } else if d == 7 {
        '7'
    } else if d == 8 {
        '8'
    } else {
        '9'
    }
}

/// The character of the decimal digit `d`.
fn digit(d: usize) -> (c: char)
    requires
        d < 10,
    ensures
        c == digit_char(d as nat),
{
    if d == 0 {
        '0'
    } else if d == 1 {
        '1'
    } else if d == 2 {
        '2'
    } else if d == 3 {
        '3'
    } else if d == 4 {
        '4'
    } else if d == 5 {
        '5'
    } else if d == 6 {
        '6'
    } else if d == 7 {
        '7'
    } else if d == 8 {
        '8'
    } else {
        '9'
    }
}

/// Appends the decimal digits of `n` to `s`.
pub fn push_decimal(s: &mut String, n: usize)
    ensures
        final(s)@ == old(s)@ + decimal(n as nat),
    decreases n,
{
    if n >= 10 {
        push_decimal(s, n / 10);
    }
    push_char(s, digit(n % 10));
    assert(s@ =~= old(s)@ + decimal(n as nat));
}

/// The mel filter banks that come with the application.
#[derive(Debug, Clone, Copy, PartialEq, Eq, Structural)]
pub enum MelFilters {
    Bins80,
    Bins128,
}

/// Picks the mel filter bank for a model with `num_mel_bins` bins; only 80
/// and 128 bins are supported.
pub fn mel_filters_for(num_mel_bins: usize) -> (r: Result<MelFilters, String>)
    ensures
        num_mel_bins == 80 ==> r == Ok::<MelFilters, String>(MelFilters::Bins80),
        num_mel_bins == 128 ==> r == Ok::<MelFilters, String>(MelFilters::Bins128),
        num_mel_bins != 80 && num_mel_bins != 128 ==> (r matches Err(e) && e@
            == "Unsupported num_mel_bins: "@ + decimal(num_mel_bins as nat)),
{
    if num_mel_bins == 80 {
        Ok(MelFilters::Bins80)
    } else if num_mel_bins == 128 {
        Ok(MelFilters::Bins128)
    } else {
        let mut e = "Unsupported num_mel_bins: ".to_owned();
        push_decimal(&mut e, num_mel_bins);
        Err(e)
    }
}

/// The texts of `parts`, one after another.
pub open spec fn concat_all(parts: Seq<String>) -> Seq<char>
    decreases parts.len(),
{
    if parts.len() == 0 {
        Seq::empty()
    } else {
        concat_all(parts.drop_last()) + parts.last()@
    }
}

/// The transcript of a recording from the transcripts of its 30-second
/// chunks: their concatenation, trimmed.
pub fn assemble_transcript(parts: &Vec<String>) -> (r: String)
    ensures
        r@ == trim_seq(concat_all(parts@)),
{
    let mut all = String::new();
    let mut i: usize = 0;
    while i < parts.len()
        invariant
            i <= parts@.len(),
            all@ == concat_all(parts@.take(i as int)),
        decreases parts@.len() - i,
    {
        assert(parts@.take(i + 1).drop_last() =~= parts@.take(i as int));
        all.append(parts[i].as_str());
        i = i + 1;
    }
    assert(parts@.take(parts@.len() as int) =~= parts@);
    trim(all.as_str())
}

/// Whether the supervisor holds a loaded model and still takes commands.
#[derive(Debug, Clone, Copy, PartialEq, Eq)]
pub struct SupervisorState {
    pub model_loaded: bool,
    pub running: bool,
}

/// A command to the supervisor, or the end of its command channel.
#[derive(Debug, Clone, Copy, PartialEq, Eq, Structural)]
pub enum SupervisorEvent {
    /// A model load finished, successfully or not.
    LoadFinished { ok: bool },
    /// A transcription was requested.
    TranscribeRequested,
    /// Shutdown was requested.
    Shutdown,
    /// Every sender is gone.
    ChannelClosed,
}

/// What the supervisor does for an event.
#[derive(Debug)]
pub enum SupervisorAction {
    /// Answer the load request.
    ReplyLoad(Result<(), String>),
    /// Run the loaded model on the audio and answer with its result.
    Transcribe,
    /// Answer the transcription request with this error.
    ReplyError(String),
    /// Leave the command loop.
    Stop,
}

/// Error for a failed model load.
pub open spec fn load_failed() -> Seq<char> {
    "Failed to load model"@
}

/// Error for transcription without a model.
pub open spec fn model_not_loaded() -> Seq<char> {
    "Model not loaded — cannot transcribe"@
}

/// The supervisor's state after an event.
pub open spec fn supervisor_next(s: SupervisorState, e: SupervisorEvent) -> SupervisorState {
    match e {
        SupervisorEvent::LoadFinished { ok } => SupervisorState { model_loaded: s.model_loaded || ok, ..s },
        SupervisorEvent::TranscribeRequested => s,
        _ => SupervisorState { running: false, ..s },
    }
}

/// The supervisor's state after a series of events.
pub open spec fn supervisor_run(s: SupervisorState, events: Seq<SupervisorEvent>) -> SupervisorState
    decreases events.len(),
{
    if events.len() == 0 {
        s
    } else {
        supervisor_run(supervisor_next(s, events[0]), events.drop_first())
    }
}

/// After any series of events, a model is available exactly when one was
/// before or some load in the series succeeded: a failed load never takes
/// away a model, and nothing else loads one.
pub proof fn lemma_model_available_iff_loaded(s: SupervisorState, events: Seq<SupervisorEvent>)
    ensures
        supervisor_run(s, events).model_loaded == (s.model_loaded || exists|i: int|
            0 <= i < events.len() && events[i] == (SupervisorEvent::LoadFinished { ok: true })),
    decreases events.len(),
{
    if events.len() > 0 {
        let rest = events.drop_first();
        lemma_model_available_iff_loaded(supervisor_next(s, events[0]), rest);
        if exists|i: int| 0 <= i < rest.len() && rest[i] == (SupervisorEvent::LoadFinished { ok: true }) {
            let i = choose|i: int| 0 <= i < rest.len() && rest[i] == (SupervisorEvent::LoadFinished { ok: true });
            assert(events[i + 1] == rest[i]);
        }
        if exists|i: int| 0 <= i < events.len() && events[i] == (SupervisorEvent::LoadFinished { ok: true }) {
            let i = choose|i: int| 0 <= i < events.len() && events[i] == (SupervisorEvent::LoadFinished { ok: true });
            if i > 0 {
                assert(rest[i - 1] == events[i]);
            }
        }
    }
}

/// Running a series of events and then another is running them one after
/// the other.
proof fn lemma_run_append(s: SupervisorState, a: Seq<SupervisorEvent>, b: Seq<SupervisorEvent>)
    ensures
        supervisor_run(s, a + b) == supervisor_run(supervisor_run(s, a), b),
    decreases a.len(),
{
    if a.len() > 0 {
        assert((a + b).drop_first() =~= a.drop_first() + b);
        lemma_run_append(supervisor_next(s, a[0]), a.drop_first(), b);
    } else {
        assert(a + b =~= b);
    }
}

/// A supervisor that has stopped stays stopped.
proof fn lemma_stopped_stays(s: SupervisorState, events: Seq<SupervisorEvent>)
    requires
        !s.running,
    ensures
        !supervisor_run(s, events).running,
    decreases events.len(),
{
    if events.len() > 0 {
        lemma_stopped_stays(supervisor_next(s, events[0]), events.drop_first());
    }
}

/// Commands are handled one at a time in the order they were sent: the
/// command at position `k` meets the state that the commands before it left,
/// so a transcription there runs exactly when a model was loaded at the start
/// or a load before it succeeded; and once a shutdown or a closed channel is
/// handled, the supervisor is stopped for good and takes no later command.
pub proof fn lemma_commands_in_order(s: SupervisorState, events: Seq<SupervisorEvent>, k: int)
    requires
        0 <= k < events.len(),
    ensures
        supervisor_run(s, events.take(k + 1)) == supervisor_next(supervisor_run(s, events.take(k)), events[k]),
        supervisor_run(s, events.take(k)).model_loaded == (s.model_loaded || exists|i: int|
            0 <= i < k && events[i] == (SupervisorEvent::LoadFinished { ok: true })),
        (events[k] == SupervisorEvent::Shutdown || events[k] == SupervisorEvent::ChannelClosed) ==> forall|j: int|
            k < j <= events.len() ==> !(#[trigger] supervisor_run(s, events.take(j))).running,
{
    let before = events.take(k);
    let one = seq![events[k]];
    assert(events.take(k + 1) =~= before + one);
    lemma_run_append(s, before, one);
    assert(one.drop_first() =~= Seq::<SupervisorEvent>::empty());
    let mid = supervisor_run(s, before);
    assert(supervisor_run(mid, one) == supervisor_run(supervisor_next(mid, events[k]), one.drop_first()));
    lemma_model_available_iff_loaded(s, before);
    assert forall|i: int| 0 <= i < k implies before[i] == events[i] by {}
    if events[k] == SupervisorEvent::Shutdown || events[k] == SupervisorEvent::ChannelClosed {
        assert forall|j: int| k < j <= events.len() implies !(#[trigger] supervisor_run(s, events.take(j))).running by {
            let after = events.subrange(k + 1, j);
            assert(events.take(j) =~= events.take(k + 1) + after);
            lemma_run_append(s, events.take(k + 1), after);
            lemma_stopped_stays(supervisor_run(s, events.take(k + 1)), after);
        }
    }
}

impl SupervisorState {
    /// No model and ready for commands.
    pub fn new() -> (s: SupervisorState)
        ensures
            !s.model_loaded,
            s.running,
    {
        SupervisorState { model_loaded: false, running: true }
    }

    /// The supervisor's reaction to an event: a successful load makes the
    /// model available (a failed one keeps the model there was); a
    /// transcription runs only with a model; shutdown or a closed channel
    /// stops the loop.
    pub fn handle(&mut self, event: SupervisorEvent) -> (a: SupervisorAction)
        requires
            old(self).running,
        ensures
            *final(self) == supervisor_next(*old(self), event),
            match event {
                SupervisorEvent::LoadFinished { ok } => {
                    &&& final(self).running
                    &&& final(self).model_loaded == (old(self).model_loaded || ok)
                    &&& ok ==> a == SupervisorAction::ReplyLoad(Ok(()))
                    &&& !ok ==> (a matches SupervisorAction::ReplyLoad(Err(e)) && e@ == load_failed())
                },
                SupervisorEvent::TranscribeRequested => {
                    &&& *final(self) == *old(self)
                    &&& old(self).model_loaded ==> a == SupervisorAction::Transcribe
                    &&& !old(self).model_loaded ==> (a matches SupervisorAction::ReplyError(e) && e@
                        == model_not_loaded())
                },
                _ => a == SupervisorAction::Stop && !final(self).running && final(self).model_loaded
                    == old(self).model_loaded,
            },
    {
        match event {
            SupervisorEvent::LoadFinished { ok } => {
                if ok {
                    self.model_loaded = true;
                    SupervisorAction::ReplyLoad(Ok(()))
                } else {
                    SupervisorAction::ReplyLoad(Err("Failed to load model".to_owned()))
                }
            },
            SupervisorEvent::TranscribeRequested => {
                if self.model_loaded {
                    SupervisorAction::Transcribe
                } else {
                    SupervisorAction::ReplyError("Model not loaded — cannot transcribe".to_owned())
                }
            },
            _ => {
                self.running = false;
                SupervisorAction::Stop
            },
        }
    }
}

} // verus!
