use ottex::inference::{
    assemble_transcript, mel_filters_for, suppress_mask, MelFilters, SupervisorAction,
    SupervisorEvent, SupervisorState, TokenDecoder,
};

#[test]
fn decoder_prompt_and_eot() {
    let mut d = TokenDecoder::new(50258, 50257, 50360, 50364);
    assert_eq!(d.tokens(), &vec![50258, 50259, 50360, 50364]);
    assert!(d.is_first_step());
    assert!(d.wants_token());
    d.push_token(400);
    assert!(!d.is_first_step());
    d.push_token(401);
    d.push_token(50257);
    assert!(!d.wants_token());
    assert_eq!(d.text_tokens(), vec![400, 401]);
}

#[test]
fn decoder_stops_after_limit() {
    let mut d = TokenDecoder::new(1, 0, 2, 3);
    let mut n = 0;
    while d.wants_token() {
        d.push_token(7);
        n += 1;
    }
    assert_eq!(n, 224);
    assert_eq!(d.text_tokens().len(), 224);
    assert_eq!(d.tokens().len(), 228);
}

#[test]
fn mask() {
    let m = suppress_mask(6, &[1, 4, 9, 4]);
    assert_eq!(m, vec![false, true, false, false, true, false]);
    assert!(suppress_mask(0, &[0]).is_empty());
}

#[test]
fn mel_banks() {
    assert_eq!(mel_filters_for(80), Ok(MelFilters::Bins80));
    assert_eq!(mel_filters_for(128), Ok(MelFilters::Bins128));
    assert_eq!(mel_filters_for(64), Err("Unsupported num_mel_bins: 64".to_string()));
    assert_eq!(mel_filters_for(0), Err("Unsupported num_mel_bins: 0".to_string()));
    assert_eq!(mel_filters_for(1000), Err("Unsupported num_mel_bins: 1000".to_string()));
}

#[test]
fn transcript_assembly() {
    let parts = vec![" Hello".to_string(), " world. ".to_string()];
    assert_eq!(assemble_transcript(&parts), "Hello world.");
    assert_eq!(assemble_transcript(&vec![]), "");
}

#[test]
fn supervisor() {
    let mut s = SupervisorState::new();
    match s.handle(SupervisorEvent::TranscribeRequested) {
        SupervisorAction::ReplyError(e) => assert_eq!(e, "Model not loaded — cannot transcribe"),
        other => panic!("unexpected {:?}", other),
    }
    match s.handle(SupervisorEvent::LoadFinished { ok: false }) {
        SupervisorAction::ReplyLoad(Err(e)) => assert_eq!(e, "Failed to load model"),
        other => panic!("unexpected {:?}", other),
    }
    assert!(!s.model_loaded);
    assert!(matches!(s.handle(SupervisorEvent::LoadFinished { ok: true }), SupervisorAction::ReplyLoad(Ok(()))));
    // a later failed load keeps the model
    s.handle(SupervisorEvent::LoadFinished { ok: false });
    assert!(matches!(s.handle(SupervisorEvent::TranscribeRequested), SupervisorAction::Transcribe));
    assert!(matches!(s.handle(SupervisorEvent::Shutdown), SupervisorAction::Stop));
    assert!(!s.running);
}

#[test]
fn supervisor_commands_in_order() {
    // load fails, transcribe is refused, load succeeds, transcribe runs,
    // then the channel closes and the loop stops
    let mut s = SupervisorState::new();
    let events = [
        SupervisorEvent::LoadFinished { ok: false },
        SupervisorEvent::TranscribeRequested,
        SupervisorEvent::LoadFinished { ok: true },
        SupervisorEvent::TranscribeRequested,
        SupervisorEvent::ChannelClosed,
    ];
    let mut transcribed = Vec::new();
    for e in events {
        if !s.running {
            break;
        }
        transcribed.push(matches!(s.handle(e), SupervisorAction::Transcribe));
    }
    assert_eq!(transcribed, vec![false, false, false, true, false]);
    assert!(!s.running);
    assert!(s.model_loaded);
}
