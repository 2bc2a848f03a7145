use tohoku_tts_voicevox::coordinator::prepare_query;
use tohoku_tts_voicevox::coordinator::SynthesisJob;
use tohoku_tts_voicevox::lifecycle::EngineLifecycle;
use tohoku_tts_voicevox::types::AccentPhrase;
use tohoku_tts_voicevox::types::AudioQuery;
use tohoku_tts_voicevox::types::Mora;
use tohoku_tts_voicevox::wav::decode_wav;
use tohoku_tts_voicevox::wav::encode_wav;
use tohoku_tts_voicevox::EngineErrorDescription;
use tohoku_tts_voicevox::ErrorDescription;
use tohoku_tts_voicevox::GenericError;
use tohoku_tts_voicevox::SynthesisOptions;
use tohoku_tts_voicevox::SynthesisParams;
use tohoku_tts_voicevox::SynthesisVariant;

fn options() -> SynthesisOptions {
    SynthesisOptions {
        variant: SynthesisVariant::Northern,
        params: SynthesisParams::new(0, 100, 100).unwrap(),
    }
}

#[test]
fn wav_round_trip_preserves_samples() {
    let samples: Vec<i16> = vec![0, 1, -1, 32767, -32768, 12345, -12345];
    let bytes = encode_wav(&samples);
    assert_eq!(bytes.len(), 44 + 2 * samples.len());
    assert_eq!(&bytes[0..4], b"RIFF");
    assert_eq!(&bytes[8..12], b"WAVE");
    assert_eq!(&bytes[36..40], b"data");
    let decoded = decode_wav(&bytes).unwrap();
    assert_eq!(decoded, samples);
}

#[test]
fn wav_header_fields_are_mono_16_bit_24khz() {
    let bytes = encode_wav(&vec![0i16; 4]);
    // channels, offset 22
    assert_eq!(&bytes[22..24], &[0x01, 0x00]);
    // sample rate 24000, offset 24
    assert_eq!(&bytes[24..28], &[0xC0, 0x5D, 0x00, 0x00]);
    // bits per sample 16, offset 34
    assert_eq!(&bytes[34..36], &[0x10, 0x00]);
    // data size 8, offset 40
    assert_eq!(&bytes[40..44], &[0x08, 0x00, 0x00, 0x00]);
}

#[test]
fn wav_decode_rejects_malformed_input() {
    let err = decode_wav(&vec![0u8; 10]).unwrap_err();
    assert!(matches!(err.into_inner(), EngineErrorDescription::MalformedBackendOutput));

    let mut tampered = encode_wav(&vec![1i16, 2, 3]);
    tampered[0] = 0x00;
    assert!(decode_wav(&tampered).is_err());

    let mut bad_size = encode_wav(&vec![1i16, 2, 3]);
    bad_size[40] = bad_size[40].wrapping_add(2);
    assert!(decode_wav(&bad_size).is_err());
}

#[test]
fn job_assembles_sections_in_order() {
    let job_sections: Vec<Vec<i16>> = vec![vec![1, 2, 3], vec![], vec![-7, 7]];
    let mut job = SynthesisJob::new("一。二。三", options());
    assert_eq!(job.segment_count(), 3);
    assert_eq!(job.next_segment().unwrap().as_str(), "一");

    for section in &job_sections {
        let bytes = encode_wav(section);
        job.accept_section(&bytes).unwrap();
    }
    assert!(job.is_complete());
    assert!(job.next_segment().is_none());

    let combined = job.finish();
    let samples = decode_wav(&combined).unwrap();
    assert_eq!(samples, vec![1, 2, 3, -7, 7]);
    // the assembled sample count is the sum of the sections' counts
    let total: usize = job_sections.iter().map(|s| s.len()).sum();
    assert_eq!(samples.len(), total);
    assert_eq!(combined.len(), 44 + 2 * total);
}

#[test]
fn job_failed_section_delivers_no_partial_audio() {
    let mut job = SynthesisJob::new("一。二。三", options());
    assert_eq!(job.segment_count(), 3);

    // first sentence synthesizes fine
    job.accept_section(&encode_wav(&vec![5i16, 6])).unwrap();
    assert_eq!(job.completed_count(), 1);

    // the backend hands back garbage for the second sentence: the request
    // aborts, nothing of sentences one or three is ever delivered
    let err = job.accept_section(&vec![0u8; 3]).unwrap_err();
    assert!(matches!(err.into_inner(), EngineErrorDescription::MalformedBackendOutput));
    assert_eq!(job.completed_count(), 1);
    assert!(!job.is_complete());
}

#[test]
fn job_on_empty_text_finishes_empty() {
    let job = SynthesisJob::new("   ", options());
    assert_eq!(job.segment_count(), 0);
    assert!(job.is_complete());
    let combined = job.finish();
    assert_eq!(decode_wav(&combined).unwrap(), Vec::<i16>::new());
}

#[test]
fn prepare_query_forces_output_format() {
    let q = AudioQuery {
        accent_phrases: vec![AccentPhrase {
            moras: vec![Mora {
                text: "ア".to_string(),
                vowel: "a".to_string(),
                vowel_length: 1000,
                pitch: 55000,
                consonant: None,
                consonant_length: None,
            }],
            accent: 1,
            pause_mora: None,
            is_interrogative: false,
        }],
        speed_scale: 10000,
        pitch_scale: 0,
        intonation_scale: 10000,
        volume_scale: 10000,
        pre_phoneme_length: 1000,
        post_phoneme_length: 9999,
        output_sampling_rate: 44100,
        output_stereo: true,
        kana: None,
    };
    let out = prepare_query(q, &options()).unwrap();
    assert_eq!(out.output_sampling_rate, 24000);
    assert!(!out.output_stereo);
    assert_eq!(out.post_phoneme_length, 2000);
}

#[test]
fn lifecycle_initializes_exactly_once() {
    let mut lifecycle = EngineLifecycle::new();
    let err = lifecycle.require_initialized().unwrap_err();
    assert!(matches!(err.into_inner(), EngineErrorDescription::NotInitialized));

    lifecycle.mark_initialized().unwrap();
    lifecycle.require_initialized().unwrap();

    let err = lifecycle.mark_initialized().unwrap_err();
    assert!(matches!(err.into_inner(), EngineErrorDescription::AlreadyInitialized));
    lifecycle.require_initialized().unwrap();
}

#[test]
fn error_wrapper_accessors() {
    let mut err = GenericError::new(EngineErrorDescription::InvalidParameter);
    assert!(matches!(*err.as_inner(), EngineErrorDescription::InvalidParameter));
    assert_eq!(err.code(), None);
    assert_eq!(err.error_name(), "EngineErrorDescription");
    assert_eq!(err.as_inner().description(), "Invalid synthesis parameter");

    *err.as_inner_mut() = EngineErrorDescription::NotInitialized;
    assert!(matches!(*err.as_inner(), EngineErrorDescription::NotInitialized));

    let mapped = err.map(|_| EngineErrorDescription::BackendQueryFailed);
    assert!(matches!(mapped.into_inner(), EngineErrorDescription::BackendQueryFailed));

    let from_kind: GenericError<EngineErrorDescription> =
        EngineErrorDescription::InitializationFailed.into();
    assert!(matches!(from_kind.into_inner(), EngineErrorDescription::InitializationFailed));
}

#[test]
fn sample_text_announces_the_software() {
    let text = tohoku_tts_voicevox::sample_text();
    assert!(text.contains("ジェネリック東北共通語読み上げソフト"));
    assert!(text.contains("バージョン0てん1てん0"));
}
