use ottex::audio::{chunk_spans, recording_result, u16_sample_to_i16, u16_samples_to_i16, AudioRecorder, RecordedAudio};

fn audio(samples: Vec<i16>) -> RecordedAudio {
    RecordedAudio { samples, sample_rate: 48000, channels: 1 }
}

#[test]
fn has_audio_thresholds() {
    assert!(!audio(vec![30000; 999]).has_audio());
    assert!(audio(vec![101; 1000]).has_audio());
    // RMS exactly 100 is not enough
    assert!(!audio(vec![100; 1000]).has_audio());
    assert!(audio(vec![-101; 1000]).has_audio());
    assert!(!audio(vec![0; 48000]).has_audio());
    let mut mixed = vec![0i16; 1000];
    mixed[0] = 32767; // sum of squares 1073676289 > 10000 * 1000
    assert!(audio(mixed).has_audio());
}

#[test]
fn recorder_states() {
    let mut r = AudioRecorder::new();
    assert!(!r.is_recording());
    assert_eq!(r.stop(), Err("No active recording".to_string()));
    assert_eq!(r.start_recording(), Ok(()));
    assert!(r.is_recording());
    assert_eq!(r.stop(), Ok(()));
    assert!(!r.is_recording());
    assert_eq!(r.stop(), Err("No active recording".to_string()));
}

#[test]
fn capture_results() {
    assert_eq!(recording_result(None).unwrap_err(), "Recording thread crashed");
    assert_eq!(recording_result(Some(Err("No input device available".to_string()))).unwrap_err(), "No input device available");
    let a = recording_result(Some(Ok(audio(vec![1, 2, 3])))).unwrap();
    assert_eq!(a.samples, vec![1, 2, 3]);
}

#[test]
fn unsigned_samples() {
    assert_eq!(u16_sample_to_i16(0), -32768);
    assert_eq!(u16_sample_to_i16(32768), 0);
    assert_eq!(u16_sample_to_i16(65535), 32767);
    assert_eq!(u16_samples_to_i16(&[0, 32768, 40000]), vec![-32768, 0, 7232]);
}

#[test]
fn chunks() {
    let spans = chunk_spans(48000, 1024);
    assert_eq!(spans.len(), 47);
    assert_eq!(spans[0], (0, 1024));
    assert_eq!(spans[46], (47104, 48000));
    assert!(chunk_spans(0, 1024).is_empty());
    assert_eq!(chunk_spans(2048, 1024), vec![(0, 1024), (1024, 2048)]);
    assert_eq!(chunk_spans(10, 480000), vec![(0, 10)]);
}

#[test]
fn wav_encoding() {
    let rec = RecordedAudio { samples: vec![1, -2, 300], sample_rate: 16000, channels: 1 };
    let bytes = rec.to_wav().unwrap();
    assert_eq!(bytes.len(), 44 + 6);
    assert_eq!(&bytes[0..4], b"RIFF");
    assert_eq!(u32::from_le_bytes([bytes[4], bytes[5], bytes[6], bytes[7]]), 36 + 6);
    assert_eq!(&bytes[8..16], b"WAVEfmt ");
    // one channel, 16 kHz, 16 bits
    assert_eq!(u16::from_le_bytes([bytes[22], bytes[23]]), 1);
    assert_eq!(u32::from_le_bytes([bytes[24], bytes[25], bytes[26], bytes[27]]), 16000);
    assert_eq!(u16::from_le_bytes([bytes[34], bytes[35]]), 16);
    assert_eq!(&bytes[36..40], b"data");
    assert_eq!(u32::from_le_bytes([bytes[40], bytes[41], bytes[42], bytes[43]]), 6);
    assert_eq!(&bytes[44..], &[1, 0, 0xfe, 0xff, 0x2c, 0x01]);
}

#[test]
fn wav_stereo_and_unfinished_frame() {
    let stereo = RecordedAudio { samples: vec![5, 6, 7, 8], sample_rate: 44100, channels: 2 };
    let bytes = stereo.to_wav().unwrap();
    assert_eq!(bytes.len(), 44 + 8);
    assert_eq!(u16::from_le_bytes([bytes[22], bytes[23]]), 2);
    let odd = RecordedAudio { samples: vec![5, 6, 7], sample_rate: 44100, channels: 2 };
    assert_eq!(odd.to_wav(), Err("Failed to finalize WAV".to_string()));
    let empty = RecordedAudio { samples: vec![], sample_rate: 8000, channels: 1 };
    assert_eq!(empty.to_wav().unwrap().len(), 44);
}
