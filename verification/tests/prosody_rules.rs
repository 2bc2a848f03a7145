use tohoku_tts_voicevox::prosody::phrase_reference_pitch;
use tohoku_tts_voicevox::types::AccentPhrase;
use tohoku_tts_voicevox::types::AudioQuery;
use tohoku_tts_voicevox::types::Mora;
use tohoku_tts_voicevox::EngineErrorDescription;
use tohoku_tts_voicevox::SynthesisParams;
use tohoku_tts_voicevox::SynthesisVariant;

fn mora(vowel: &str, vowel_length: u64, pitch: u64, consonant: Option<&str>, consonant_length: Option<u64>) -> Mora {
    Mora {
        text: "テ".to_string(),
        vowel: vowel.to_string(),
        vowel_length,
        pitch,
        consonant: consonant.map(|c| c.to_string()),
        consonant_length,
    }
}

fn phrase(moras: Vec<Mora>, accent: i32) -> AccentPhrase {
    AccentPhrase { moras, accent, pause_mora: None, is_interrogative: false }
}

fn query(phrases: Vec<AccentPhrase>) -> AudioQuery {
    AudioQuery {
        accent_phrases: phrases,
        speed_scale: 10000,
        pitch_scale: 0,
        intonation_scale: 10000,
        volume_scale: 10000,
        pre_phoneme_length: 1000,
        post_phoneme_length: 1000,
        output_sampling_rate: 44100,
        output_stereo: true,
        kana: None,
    }
}

#[test]
fn reference_pitch_excludes_zero_sentinel() {
    let p = phrase(
        vec![
            mora("a", 100, 100, None, None),
            mora("a", 100, 0, None, None),
            mora("a", 100, 120, None, None),
            mora("a", 100, 110, None, None),
        ],
        1,
    );
    let r = phrase_reference_pitch(&p, false).unwrap();
    assert_eq!(r, 110);
}

#[test]
fn reference_pitch_dampened_when_structurally_last() {
    let p = phrase(vec![mora("a", 100, 200000, None, None)], 1);
    assert_eq!(phrase_reference_pitch(&p, false).unwrap(), 200000);
    assert_eq!(phrase_reference_pitch(&p, true).unwrap(), 194000);
}

#[test]
fn reference_pitch_fails_without_voiced_mora() {
    let empty = phrase(vec![], 1);
    let err = phrase_reference_pitch(&empty, false).unwrap_err();
    assert!(matches!(err.into_inner(), EngineErrorDescription::PreconditionViolated));

    let silent = phrase(vec![mora("a", 100, 0, None, None)], 1);
    let err = phrase_reference_pitch(&silent, false).unwrap_err();
    assert!(matches!(err.into_inner(), EngineErrorDescription::PreconditionViolated));
}

#[test]
fn transform_preserves_shape_both_variants() {
    let params = SynthesisParams::new(0, 100, 100).unwrap();
    for variant in [SynthesisVariant::Northern, SynthesisVariant::Southern] {
        let q = query(vec![
            phrase(vec![mora("a", 100, 50, None, None), mora("i", 100, 60, None, None)], 1),
            phrase(vec![mora("u", 100, 70, None, None)], 1),
        ]);
        let out = variant.preprocess_audio_query(q, params).unwrap();
        assert_eq!(out.accent_phrases.len(), 2);
        assert_eq!(out.accent_phrases[0].moras.len(), 2);
        assert_eq!(out.accent_phrases[1].moras.len(), 1);
    }
}

#[test]
fn transform_rejects_all_zero_phrase() {
    let params = SynthesisParams::new(0, 100, 100).unwrap();
    let q = query(vec![
        phrase(vec![mora("a", 100, 50, None, None)], 1),
        phrase(vec![mora("a", 100, 0, None, None)], 1),
    ]);
    let err = SynthesisVariant::Northern.preprocess_audio_query(q, params).unwrap_err();
    assert!(matches!(err.into_inner(), EngineErrorDescription::PreconditionViolated));
}

#[test]
fn transform_northern_exact_values() {
    let params = SynthesisParams::new(0, 100, 100).unwrap();
    let q = query(vec![AccentPhrase {
        moras: vec![
            mora("A", 10000, 0, Some("k"), Some(10000)),
            mora("a", 20000, 200000, Some("g"), None),
        ],
        accent: 1,
        pause_mora: None,
        is_interrogative: false,
    }]);
    let out = SynthesisVariant::Northern.preprocess_audio_query(q, params).unwrap();

    // global scalars: variant bases with the neutral knobs applied
    assert_eq!(out.speed_scale, 11000);
    assert_eq!(out.pitch_scale, 0);
    assert_eq!(out.intonation_scale, 8100);
    assert_eq!(out.volume_scale, 10000);

    // first mora: devoiced (A -> a, length *1.5, consonant length *0.6),
    // consonant voiced (k -> g before g), accent peak pitch (*1.07 of the
    // dampened reference 194000)
    let m1 = &out.accent_phrases[0].moras[0];
    assert_eq!(m1.vowel, "a");
    assert_eq!(m1.vowel_length, 15000);
    assert_eq!(m1.consonant.as_deref(), Some("g"));
    assert_eq!(m1.consonant_length, Some(6000));
    assert_eq!(m1.pitch, 207580);

    // second mora: last (*1.5), utterance-final (*1.25, pitch *0.96 of the
    // post-accent reference)
    let m2 = &out.accent_phrases[0].moras[1];
    assert_eq!(m2.vowel, "a");
    assert_eq!(m2.vowel_length, 37500);
    assert_eq!(m2.consonant.as_deref(), Some("g"));
    assert_eq!(m2.pitch, 186240);
}

#[test]
fn transform_southern_exact_values() {
    let params = SynthesisParams::new(0, 100, 100).unwrap();
    let q = query(vec![AccentPhrase {
        moras: vec![
            mora("A", 10000, 0, Some("k"), Some(10000)),
            mora("a", 20000, 200000, Some("g"), None),
        ],
        accent: 1,
        pause_mora: None,
        is_interrogative: false,
    }]);
    let out = SynthesisVariant::Southern.preprocess_audio_query(q, params).unwrap();

    // global scalars: southern bases
    assert_eq!(out.speed_scale, 11000);
    assert_eq!(out.pitch_scale, 100);
    assert_eq!(out.intonation_scale, 7100);

    // first mora: no devoicing in the southern table, consonant still voiced,
    // first-mora pitch (*0.96 of the dampened reference 194000)
    let m1 = &out.accent_phrases[0].moras[0];
    assert_eq!(m1.vowel, "A");
    assert_eq!(m1.vowel_length, 10000);
    assert_eq!(m1.consonant.as_deref(), Some("g"));
    assert_eq!(m1.consonant_length, Some(10000));
    assert_eq!(m1.pitch, 186240);

    // second mora: last (*1.25), utterance-final (*1.25 again, flat pitch at
    // the accent peak *1.04)
    let m2 = &out.accent_phrases[0].moras[1];
    assert_eq!(m2.vowel_length, 31250);
    assert_eq!(m2.pitch, 201760);
}

#[test]
fn transform_uppercases_vowel_before_voiced_vowel_symbol() {
    let params = SynthesisParams::new(0, 100, 100).unwrap();
    let q = query(vec![AccentPhrase {
        moras: vec![
            mora("a", 10000, 100, None, None),
            mora("n", 10000, 100, None, None),
        ],
        accent: 1,
        pause_mora: None,
        is_interrogative: false,
    }]);
    let out = SynthesisVariant::Northern.preprocess_audio_query(q, params).unwrap();
    assert_eq!(out.accent_phrases[0].moras[0].vowel, "A");
    assert_eq!(out.accent_phrases[0].moras[1].vowel, "n");
}

#[test]
fn transform_pause_mora_controls_phrase_final() {
    // a long pause marks even a non-last phrase as phrase-final: its
    // reference pitch is dampened
    let pause = mora("pau", 3000, 0, None, None);
    let p = AccentPhrase {
        moras: vec![mora("a", 100, 200000, None, None)],
        accent: 1,
        pause_mora: Some(pause),
        is_interrogative: false,
    };
    assert_eq!(phrase_reference_pitch(&p, false).unwrap(), 194000);

    // a short pause suppresses phrase-final treatment even on the last phrase
    let short_pause = mora("pau", 2999, 0, None, None);
    let p2 = AccentPhrase {
        moras: vec![mora("a", 100, 200000, None, None)],
        accent: 1,
        pause_mora: Some(short_pause),
        is_interrogative: false,
    };
    assert_eq!(phrase_reference_pitch(&p2, true).unwrap(), 200000);
}

#[test]
fn transform_interrogative_rise() {
    let params = SynthesisParams::new(0, 100, 100).unwrap();
    let q = query(vec![AccentPhrase {
        moras: vec![mora("a", 10000, 100000, None, None)],
        accent: 1,
        pause_mora: None,
        is_interrogative: true,
    }]);
    let out = SynthesisVariant::Northern.preprocess_audio_query(q, params).unwrap();
    // reference 97000, accent peak *1.07 = 103790, interrogative rise *1.02
    assert_eq!(out.accent_phrases[0].moras[0].pitch, 105865);

    let q = query(vec![AccentPhrase {
        moras: vec![mora("a", 10000, 100000, None, None)],
        accent: 1,
        pause_mora: None,
        is_interrogative: true,
    }]);
    let out = SynthesisVariant::Southern.preprocess_audio_query(q, params).unwrap();
    // reference 97000, first mora *0.96 = 93120, interrogative rise *1.02
    assert_eq!(out.accent_phrases[0].moras[0].pitch, 94982);
}

#[test]
fn params_knobs_shift_global_scalars() {
    let params = SynthesisParams::new(500, 200, 50).unwrap();
    let q = query(vec![phrase(vec![mora("a", 100, 100, None, None)], 1)]);
    let out = SynthesisVariant::Northern.preprocess_audio_query(q, params).unwrap();
    assert_eq!(out.speed_scale, 11000 * 50 / 100);
    assert_eq!(out.pitch_scale, 500);
    assert_eq!(out.intonation_scale, 8200);
}
