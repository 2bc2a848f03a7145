//! The structural prosody plan of one utterance.
//!
//! Acoustic scalars are fixed-point integers: a stored value `v` stands for
//! `v / 10000` of the underlying unit (seconds for lengths, the backend's
//! pitch scale for pitches, a plain ratio for the global scale factors).

use vstd::prelude::*;

verus! {

/// Fixed-point denominator: one unit is `SCALE_ONE` stored steps.
pub const SCALE_ONE: u64 = 10000;

/// Largest pitch or length value the engine works on; keeps every scaled
/// product inside `u64`.
pub const VALUE_LIMIT: u64 = 1_000_000_000_000;

/// Largest mora count of one accent phrase the engine works on; keeps the
/// pitch sum of a phrase inside `u64`.
pub const MORA_LIMIT: usize = 1_000_000;

/// One phonetic beat: display text, vowel symbol, vowel duration, pitch, and
/// an optional consonant with its duration.  A pitch of `0` is a sentinel for
/// "unvoiced / no pitch" and is excluded from phrase averages.
#[derive(Debug, Clone)]
pub struct Mora {
    pub text: String,
    pub vowel: String,
    pub vowel_length: u64,
    pub pitch: u64,
    pub consonant: Option<String>,
    pub consonant_length: Option<u64>,
}

/// Mathematical model of a [`Mora`].
#[verifier::ext_equal]
pub ghost struct MoraModel {
    pub text: Seq<char>,
    pub vowel: Seq<char>,
    pub vowel_length: int,
    pub pitch: int,
    pub consonant: Option<Seq<char>>,
    pub consonant_length: Option<int>,
}

impl View for Mora {
    type V = MoraModel;

    open spec fn view(&self) -> MoraModel {
        MoraModel {
            text: self.text@,
            vowel: self.vowel@,
            vowel_length: self.vowel_length as int,
            pitch: self.pitch as int,
            consonant: match self.consonant {
                Some(c) => Some(c@),
                None => None,
            },
            consonant_length: match self.consonant_length {
                Some(l) => Some(l as int),
                None => None,
            },
        }
    }
}

impl MoraModel {
    /// The mora's values fit the engine's arithmetic bounds.
    pub open spec fn bounded(self) -> bool {
        &&& 0 <= self.vowel_length <= VALUE_LIMIT
        &&& 0 <= self.pitch <= VALUE_LIMIT
        &&& match self.consonant_length {
            Some(l) => 0 <= l <= VALUE_LIMIT,
            None => true,
        }
    }
}

/// A prosodic unit: a non-empty run of moras, a 1-based accent position
/// marking the pitch peak, an optional trailing pause mora, and a flag for a
/// rising (interrogative) boundary.
#[derive(Debug, Clone)]
pub struct AccentPhrase {
    pub moras: Vec<Mora>,
    pub accent: i32,
    pub pause_mora: Option<Mora>,
    pub is_interrogative: bool,
}

/// Mathematical model of an [`AccentPhrase`].
#[verifier::ext_equal]
pub ghost struct AccentPhraseModel {
    pub moras: Seq<MoraModel>,
    pub accent: int,
    pub pause_mora: Option<MoraModel>,
    pub is_interrogative: bool,
}

impl View for AccentPhrase {
    type V = AccentPhraseModel;

    open spec fn view(&self) -> AccentPhraseModel {
        AccentPhraseModel {
            moras: self.moras.deep_view(),
            accent: self.accent as int,
            pause_mora: match self.pause_mora {
                Some(m) => Some(m@),
                None => None,
            },
            is_interrogative: self.is_interrogative,
        }
    }
}

impl DeepView for Mora {
    type V = MoraModel;

    open spec fn deep_view(&self) -> MoraModel {
        self.view()
    }
}

impl AccentPhraseModel {
    /// The phrase's values fit the engine's arithmetic bounds.
    pub open spec fn bounded(self) -> bool {
        &&& self.moras.len() <= MORA_LIMIT
        &&& forall|j: int| 0 <= j < self.moras.len() ==> (#[trigger] self.moras[j]).bounded()
        &&& match self.pause_mora {
            Some(m) => m.bounded(),
            None => true,
        }
    }
}

/// One utterance's prosody plan: an ordered, non-empty sequence of accent
/// phrases plus the global synthesis scalars.
#[derive(Debug, Clone)]
pub struct AudioQuery {
    pub accent_phrases: Vec<AccentPhrase>,
    pub speed_scale: u64,
    pub pitch_scale: i64,
    pub intonation_scale: i64,
    pub volume_scale: u64,
    pub pre_phoneme_length: u64,
    pub post_phoneme_length: u64,
    pub output_sampling_rate: i32,
    pub output_stereo: bool,
    pub kana: Option<String>,
}

/// Mathematical model of an [`AudioQuery`].
#[verifier::ext_equal]
pub ghost struct AudioQueryModel {
    pub accent_phrases: Seq<AccentPhraseModel>,
    pub speed_scale: int,
    pub pitch_scale: int,
    pub intonation_scale: int,
    pub volume_scale: int,
    pub pre_phoneme_length: int,
    pub post_phoneme_length: int,
    pub output_sampling_rate: int,
    pub output_stereo: bool,
    pub kana: Option<Seq<char>>,
}

impl View for AudioQuery {
    type V = AudioQueryModel;

    open spec fn view(&self) -> AudioQueryModel {
        AudioQueryModel {
            accent_phrases: self.accent_phrases.deep_view(),
            speed_scale: self.speed_scale as int,
            pitch_scale: self.pitch_scale as int,
            intonation_scale: self.intonation_scale as int,
            volume_scale: self.volume_scale as int,
            pre_phoneme_length: self.pre_phoneme_length as int,
            post_phoneme_length: self.post_phoneme_length as int,
            output_sampling_rate: self.output_sampling_rate as int,
            output_stereo: self.output_stereo,
            kana: match self.kana {
                Some(k) => Some(k@),
                None => None,
            },
        }
    }
}

impl DeepView for AccentPhrase {
    type V = AccentPhraseModel;

    open spec fn deep_view(&self) -> AccentPhraseModel {
        self.view()
    }
}

impl AudioQueryModel {
    /// The query's values fit the engine's arithmetic bounds.
    pub open spec fn bounded(self) -> bool {
        &&& forall|i: int|
            0 <= i < self.accent_phrases.len() ==> (#[trigger] self.accent_phrases[i]).bounded()
        &&& 0 <= self.speed_scale <= VALUE_LIMIT
        &&& -(VALUE_LIMIT as int) <= self.pitch_scale <= VALUE_LIMIT
        &&& -(VALUE_LIMIT as int) <= self.intonation_scale <= VALUE_LIMIT
    }
}

} // verus!
