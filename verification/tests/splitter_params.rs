use tohoku_tts_voicevox::SynthesisParams;
use tohoku_tts_voicevox::TextSplitter;

#[test]
fn split_japanese_sentences() {
    let splitter = TextSplitter::new();
    let segments = splitter.split_text("こんにちは。元気？さようなら");
    assert_eq!(
        segments,
        vec![
            "こんにちは".to_string(),
            "元気".to_string(),
            "さようなら".to_string()
        ]
    );
}

#[test]
fn split_plain_text_is_one_segment() {
    let splitter = TextSplitter::new();
    assert_eq!(splitter.split_text("plain text"), vec!["plain text".to_string()]);
}

#[test]
fn split_whitespace_is_empty() {
    let splitter = TextSplitter::new();
    assert_eq!(splitter.split_text("   "), Vec::<String>::new());
    assert_eq!(splitter.split_text(""), Vec::<String>::new());
}

#[test]
fn split_mixed_delimiters() {
    let splitter = TextSplitter::new();
    let segments = splitter.split_text("a!b?c\nd。e？f！g");
    assert_eq!(
        segments,
        vec!["a", "b", "c", "d", "e", "f", "g"]
            .into_iter()
            .map(|s| s.to_string())
            .collect::<Vec<String>>()
    );
}

#[test]
fn split_trims_segments_and_drops_empties() {
    let splitter = TextSplitter::new();
    let segments = splitter.split_text("  foo。 。  bar  \n  ");
    assert_eq!(segments, vec!["foo".to_string(), "bar".to_string()]);
}

#[test]
fn split_default_matches_new() {
    let splitter = TextSplitter::default();
    assert_eq!(splitter.split_text("x。y"), vec!["x".to_string(), "y".to_string()]);
}

#[test]
fn params_neutral_succeeds() {
    let params = SynthesisParams::new(0, 100, 100).unwrap();
    assert_eq!(params.pitch_offset(), 0);
    assert_eq!(params.pitch_range(), 100);
    assert_eq!(params.speed_scale(), 100);
}

#[test]
fn params_boundaries_are_exclusive() {
    assert!(SynthesisParams::new(-10000, 100, 100).is_err());
    assert!(SynthesisParams::new(10000, 100, 100).is_err());
    assert!(SynthesisParams::new(0, 1, 100).is_err());
    assert!(SynthesisParams::new(0, 10000, 100).is_err());
    assert!(SynthesisParams::new(0, 100, 1).is_err());
    assert!(SynthesisParams::new(0, 100, 10000).is_err());
    assert!(SynthesisParams::new(-9999, 2, 2).is_ok());
    assert!(SynthesisParams::new(9999, 9999, 9999).is_ok());
}

#[test]
fn params_invalid_reports_invalid_parameter() {
    let err = SynthesisParams::new(-10000, 100, 100).unwrap_err();
    assert!(matches!(
        err.into_inner(),
        tohoku_tts_voicevox::EngineErrorDescription::InvalidParameter
    ));
}

#[test]
fn params_default_is_neutral() {
    let params = SynthesisParams::default();
    assert_eq!(params.pitch_offset(), 0);
    assert_eq!(params.pitch_range(), 100);
    assert_eq!(params.speed_scale(), 100);
}
