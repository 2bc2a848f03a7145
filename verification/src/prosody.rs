//! The dialect rule engine: a pure, deterministic rewrite of a query's
//! per-mora pitch, duration, and voicing fields from phrase-level statistics.
//!
//! Each accent phrase is handled independently.  A reference pitch (the mean
//! of the phrase's non-zero mora pitches, dampened on a phrase-final phrase)
//! drives the per-mora pitch assignment; positional and phonological rules
//! adjust durations and voicing.  The transform never changes the phrase
//! count or a phrase's mora count.

use vstd::prelude::*;
use vstd::string::*;

use crate::chars::ascii_upper;
use crate::chars::to_ascii_upper;
use crate::error::GenericError;
use crate::fixed::scale_u64;
use crate::fixed::scaled;
use crate::params::SynthesisParams;
use crate::params::SynthesisParamsModel;
use crate::params::PARAM_SCALE_ONE;
use crate::types::AccentPhrase;
use crate::types::AccentPhraseModel;
use crate::types::AudioQuery;
use crate::types::AudioQueryModel;
use crate::types::Mora;
use crate::types::MoraModel;
use crate::types::VALUE_LIMIT;
use crate::EngineError;
use crate::EngineErrorDescription;

verus! {

/// Selects the rule table of the transform.
#[derive(Debug, Copy, Clone, PartialEq, Eq)]
pub enum SynthesisVariant {
    Northern,
    Southern,
}

/// The per-request synthesis options: a variant and a validated knob triple.
#[derive(Debug, Copy, Clone)]
pub struct SynthesisOptions {
    pub variant: SynthesisVariant,
    pub params: SynthesisParams,
}

/// Base speed scale written over whatever the backend supplied (1.1).
pub const SPEED_BASE: u64 = 11000;

/// Base volume scale (1.0).
pub const VOLUME_BASE: u64 = 10000;

/// Base pitch scale of the northern variant (0.0).
pub const NORTH_PITCH_BASE: i64 = 0;

/// Base pitch scale of the southern variant (0.01).
pub const SOUTH_PITCH_BASE: i64 = 100;

/// Base intonation scale of the northern variant (0.8).
pub const NORTH_INTONATION_BASE: i64 = 8000;

/// Base intonation scale of the southern variant (0.7).
pub const SOUTH_INTONATION_BASE: i64 = 7000;

/// A pause mora at least this long (0.3 s) marks its phrase as phrase-final.
pub const PAUSE_FINAL_MIN_LENGTH: u64 = 3000;

/// Dampening of the reference pitch on a phrase-final phrase (0.97).
pub const FINAL_PHRASE_DAMPEN: u64 = 9700;

/// Vowel stretch of a devoiced mora (1.5).
pub const DEVOICED_VOWEL_STRETCH: u64 = 15000;

/// Consonant shrink of a devoiced mora (0.6).
pub const DEVOICED_CONSONANT_SHRINK: u64 = 6000;

/// Northern stretch of the phrase's last mora (1.5).
pub const NORTH_LAST_MORA_STRETCH: u64 = 15000;

/// Southern stretch of the phrase's last mora (1.25).
pub const SOUTH_LAST_MORA_STRETCH: u64 = 12500;

/// Extra stretch of the utterance-final mora (1.25).
pub const FINAL_MORA_STRETCH: u64 = 12500;

/// Northern pitch factor before the accent peak (0.95).
pub const NORTH_PRE_ACCENT: u64 = 9500;

/// Northern pitch factor at the accent peak (1.07).
pub const NORTH_AT_ACCENT: u64 = 10700;

/// Northern pitch factor after the accent peak (1.0).
pub const NORTH_POST_ACCENT: u64 = 10000;

/// Southern pitch factor of the first mora (0.96).
pub const SOUTH_FIRST_MORA: u64 = 9600;

/// Southern pitch factor between the first mora and the accent peak (1.03).
pub const SOUTH_PRE_ACCENT: u64 = 10300;

/// Southern pitch factor at the accent peak (1.04).
pub const SOUTH_AT_ACCENT: u64 = 10400;

/// Southern pitch factor after the accent peak (0.95).
pub const SOUTH_POST_ACCENT: u64 = 9500;

/// Northern utterance-final pitch factor of an interrogative phrase (1.02).
pub const NORTH_INTERROGATIVE_RISE: u64 = 10200;

/// Northern utterance-final pitch factor of a plain phrase (0.96).
pub const NORTH_FINAL_FALL: u64 = 9600;

/// Southern utterance-final pitch factor of an interrogative phrase (1.02).
pub const SOUTH_INTERROGATIVE_RISE: u64 = 10200;

/// Southern utterance-final pitch factor of a plain phrase (1.0).
pub const SOUTH_FINAL_FLAT: u64 = 10000;

/// The five unvoiced-vowel symbols.
pub open spec fn is_unvoiced_vowel(v: Seq<char>) -> bool {
    v.len() == 1 && (v[0] == 'A' || v[0] == 'I' || v[0] == 'U' || v[0] == 'E' || v[0] == 'O')
}

/// The voiced-consonant symbol set `{g, z, d, b, n}`.
pub open spec fn is_voiced_consonant(v: Seq<char>) -> bool {
    v.len() == 1 && (v[0] == 'g' || v[0] == 'z' || v[0] == 'd' || v[0] == 'b' || v[0] == 'n')
}

/// The silence vowel symbol of a pause mora.
pub open spec fn is_pause_vowel(v: Seq<char>) -> bool {
    v.len() == 3 && v[0] == 'p' && v[1] == 'a' && v[2] == 'u'
}

/// Lowercase image of an unvoiced-vowel symbol.
pub open spec fn unvoiced_lower(c: char) -> char {
    if c == 'A' {
        'a'
    } else if c == 'I' {
        'i'
    } else if c == 'U' {
        'u'
    } else if c == 'E' {
        'e'
    } else {
        'o'
    }
}

/// Voicing assimilation map of a consonant symbol: `k -> g`, `s -> z`,
/// `t -> d`, anything else unchanged.
pub open spec fn voiced_consonant_of(c: Seq<char>) -> Seq<char> {
    if c.len() == 1 && c[0] == 'k' {
        seq!['g']
    } else if c.len() == 1 && c[0] == 's' {
        seq!['z']
    } else if c.len() == 1 && c[0] == 't' {
        seq!['d']
    } else {
        c
    }
}

/// Northern devoicing: an unvoiced-vowel mora gets a lowercased vowel, a
/// stretched vowel, and a shrunk consonant.
pub open spec fn devoiced(m: MoraModel) -> MoraModel {
    if is_unvoiced_vowel(m.vowel) {
        MoraModel {
            vowel: seq![unvoiced_lower(m.vowel[0])],
            vowel_length: scaled(m.vowel_length, DEVOICED_VOWEL_STRETCH as int),
            consonant_length: match m.consonant_length {
                Some(l) => Some(scaled(l, DEVOICED_CONSONANT_SHRINK as int)),
                None => None,
            },
            ..m
        }
    } else {
        m
    }
}

/// Voicing assimilation against the following mora: a voiced consonant ahead
/// voices the current consonant; a voiced-consonant vowel symbol ahead
/// uppercases the current vowel.
pub open spec fn assimilated(m: MoraModel, next: Option<MoraModel>) -> MoraModel {
    match next {
        None => m,
        Some(n) => {
            let consonant = match (n.consonant, m.consonant) {
                (Some(nc), Some(mc)) => if is_voiced_consonant(nc) {
                    Some(voiced_consonant_of(mc))
                } else {
                    m.consonant
                },
                _ => m.consonant,
            };
            let vowel = if is_voiced_consonant(n.vowel) {
                ascii_upper(m.vowel)
            } else {
                m.vowel
            };
            MoraModel { consonant, vowel, ..m }
        },
    }
}

/// Sum of the phrase's non-zero mora pitches.
pub open spec fn nonzero_pitch_sum(moras: Seq<MoraModel>) -> int
    decreases moras.len(),
{
    if moras.len() == 0 {
        0
    } else {
        nonzero_pitch_sum(moras.drop_last()) + if moras.last().pitch != 0 {
            moras.last().pitch
        } else {
            0
        }
    }
}

/// Count of the phrase's non-zero mora pitches.
pub open spec fn nonzero_pitch_count(moras: Seq<MoraModel>) -> int
    decreases moras.len(),
{
    if moras.len() == 0 {
        0
    } else {
        nonzero_pitch_count(moras.drop_last()) + if moras.last().pitch != 0 {
            1int
        } else {
            0int
        }
    }
}

/// A phrase the transform accepts: at least one mora and at least one
/// non-zero pitch.
pub open spec fn phrase_valid(p: AccentPhraseModel) -> bool {
    p.moras.len() > 0 && nonzero_pitch_count(p.moras) > 0
}

/// A query the transform accepts: every phrase is valid.
pub open spec fn query_valid(q: AudioQueryModel) -> bool {
    forall|i: int| 0 <= i < q.accent_phrases.len() ==> phrase_valid(#[trigger] q.accent_phrases[i])
}

/// A phrase counts as phrase-final if its pause mora is a long silence, or,
/// absent a pause mora, if it is the utterance's structurally last phrase.
pub open spec fn phrase_is_final(p: AccentPhraseModel, structurally_last: bool) -> bool {
    match p.pause_mora {
        Some(m) => is_pause_vowel(m.vowel) && m.vowel_length >= PAUSE_FINAL_MIN_LENGTH,
        None => structurally_last,
    }
}

/// The phrase's reference pitch: the mean of its non-zero mora pitches,
/// dampened when the phrase is phrase-final.
pub open spec fn reference_pitch(p: AccentPhraseModel, structurally_last: bool) -> int {
    let avg = nonzero_pitch_sum(p.moras) / nonzero_pitch_count(p.moras);
    if phrase_is_final(p, structurally_last) {
        scaled(avg, FINAL_PHRASE_DAMPEN as int)
    } else {
        avg
    }
}

/// Northern pitch factor by position relative to the accent index.
pub open spec fn north_pitch_factor(j: int, accent_index: int) -> int {
    if j < accent_index {
        NORTH_PRE_ACCENT as int
    } else if j == accent_index {
        NORTH_AT_ACCENT as int
    } else {
        NORTH_POST_ACCENT as int
    }
}

/// Southern pitch factor by position relative to the accent index.
pub open spec fn south_pitch_factor(j: int, accent_index: int) -> int {
    if j == 0 {
        SOUTH_FIRST_MORA as int
    } else if j < accent_index {
        SOUTH_PRE_ACCENT as int
    } else if j == accent_index {
        SOUTH_AT_ACCENT as int
    } else {
        SOUTH_POST_ACCENT as int
    }
}

/// The northern image of mora `j` of phrase `p`.
pub open spec fn north_mora(p: AccentPhraseModel, structurally_last: bool, j: int) -> MoraModel {
    let next = if j + 1 < p.moras.len() {
        Some(p.moras[j + 1])
    } else {
        None
    };
    let m = assimilated(devoiced(p.moras[j]), next);
    let last = j == p.moras.len() - 1;
    let vl_last = if last {
        scaled(m.vowel_length, NORTH_LAST_MORA_STRETCH as int)
    } else {
        m.vowel_length
    };
    let pitch = scaled(
        reference_pitch(p, structurally_last),
        north_pitch_factor(j, p.accent - 1),
    );
    let utterance_final = phrase_is_final(p, structurally_last) && last;
    let vl = if utterance_final {
        scaled(vl_last, FINAL_MORA_STRETCH as int)
    } else {
        vl_last
    };
    let pitch_final = if utterance_final {
        scaled(
            pitch,
            if p.is_interrogative {
                NORTH_INTERROGATIVE_RISE as int
            } else {
                NORTH_FINAL_FALL as int
            },
        )
    } else {
        pitch
    };
    MoraModel { vowel_length: vl, pitch: pitch_final, ..m }
}

/// The southern image of mora `j` of phrase `p`.
pub open spec fn south_mora(p: AccentPhraseModel, structurally_last: bool, j: int) -> MoraModel {
    let next = if j + 1 < p.moras.len() {
        Some(p.moras[j + 1])
    } else {
        None
    };
    let m = assimilated(p.moras[j], next);
    let next_unvoiced = match next {
        Some(n) => is_unvoiced_vowel(n.vowel),
        None => false,
    };
    let last = j == p.moras.len() - 1 || (next_unvoiced && j == p.moras.len() - 2);
    let vl_last = if last {
        scaled(m.vowel_length, SOUTH_LAST_MORA_STRETCH as int)
    } else {
        m.vowel_length
    };
    let pitch = scaled(
        reference_pitch(p, structurally_last),
        south_pitch_factor(j, p.moras.len() - 1),
    );
    let utterance_final = phrase_is_final(p, structurally_last) && last;
    let vl = if utterance_final {
        scaled(vl_last, FINAL_MORA_STRETCH as int)
    } else {
        vl_last
    };
    let pitch_final = if utterance_final {
        scaled(
            pitch,
            if p.is_interrogative {
                SOUTH_INTERROGATIVE_RISE as int
            } else {
                SOUTH_FINAL_FLAT as int
            },
        )
    } else {
        pitch
    };
    MoraModel { vowel_length: vl, pitch: pitch_final, ..m }
}

/// The image of mora `j` of phrase `p` under the given variant.
pub open spec fn transformed_mora(
    p: AccentPhraseModel,
    structurally_last: bool,
    variant: SynthesisVariant,
    j: int,
) -> MoraModel {
    match variant {
        SynthesisVariant::Northern => north_mora(p, structurally_last, j),
        SynthesisVariant::Southern => south_mora(p, structurally_last, j),
    }
}

/// The image of a whole phrase: every mora rewritten, everything else kept.
pub open spec fn transformed_phrase(
    p: AccentPhraseModel,
    structurally_last: bool,
    variant: SynthesisVariant,
) -> AccentPhraseModel {
    AccentPhraseModel {
        moras: Seq::new(p.moras.len(), |j: int| transformed_mora(p, structurally_last, variant, j)),
        ..p
    }
}

/// The image of a whole query: global scalars overwritten with the variant's
/// bases and shifted by the knobs, every phrase rewritten.
pub open spec fn transformed_query(
    q: AudioQueryModel,
    variant: SynthesisVariant,
    params: SynthesisParamsModel,
) -> AudioQueryModel {
    AudioQueryModel {
        accent_phrases: Seq::new(
            q.accent_phrases.len(),
            |i: int|
                transformed_phrase(
                    q.accent_phrases[i],
                    i == q.accent_phrases.len() - 1,
                    variant,
                ),
        ),
        speed_scale: (SPEED_BASE as int) * params.speed_scale / (PARAM_SCALE_ONE as int),
        pitch_scale: (match variant {
            SynthesisVariant::Northern => NORTH_PITCH_BASE as int,
            SynthesisVariant::Southern => SOUTH_PITCH_BASE as int,
        }) + params.pitch_offset,
        intonation_scale: (match variant {
            SynthesisVariant::Northern => NORTH_INTONATION_BASE as int,
            SynthesisVariant::Southern => SOUTH_INTONATION_BASE as int,
        }) + params.pitch_range,
        volume_scale: VOLUME_BASE as int,
        ..q
    }
}

/// The transform preserves structural shape: for any valid query, the output
/// has the same phrase count as the input and every phrase keeps its mora
/// count, under either variant and any knob triple.
pub proof fn lemma_transform_preserves_shape(
    q: AudioQueryModel,
    variant: SynthesisVariant,
    params: SynthesisParamsModel,
)
    requires
        query_valid(q),
    ensures
        transformed_query(q, variant, params).accent_phrases.len() == q.accent_phrases.len(),
        forall|i: int|
            0 <= i < q.accent_phrases.len() ==> (#[trigger] transformed_query(
                q,
                variant,
                params,
            ).accent_phrases[i]).moras.len() == q.accent_phrases[i].moras.len(),
{
}

/// Extending a mora prefix by one element extends its non-zero pitch sum and
/// count by that mora's contribution.
proof fn lemma_nonzero_prefix(s: Seq<MoraModel>, k: int)
    requires
        0 <= k < s.len(),
    ensures
        nonzero_pitch_sum(s.subrange(0, k + 1)) == nonzero_pitch_sum(s.subrange(0, k)) + if s[k].pitch
            != 0 {
            s[k].pitch
        } else {
            0
        },
        nonzero_pitch_count(s.subrange(0, k + 1)) == nonzero_pitch_count(s.subrange(0, k))
            + if s[k].pitch != 0 {
            1int
        } else {
            0int
        },
{
    let t = s.subrange(0, k + 1);
    assert(t.drop_last() =~= s.subrange(0, k));
    assert(t.last() == s[k]);
}

fn is_unvoiced_vowel_exec(v: &String) -> (r: bool)
    ensures
        r == is_unvoiced_vowel(v@),
{
    let s = v.as_str();
    if s.unicode_len() == 1 {
        let c = s.get_char(0);
        c == 'A' || c == 'I' || c == 'U' || c == 'E' || c == 'O'
    } else {
        false
    }
}

fn is_voiced_consonant_exec(v: &String) -> (r: bool)
    ensures
        r == is_voiced_consonant(v@),
{
    let s = v.as_str();
    if s.unicode_len() == 1 {
        let c = s.get_char(0);
        c == 'g' || c == 'z' || c == 'd' || c == 'b' || c == 'n'
    } else {
        false
    }
}

fn is_pause_vowel_exec(v: &String) -> (r: bool)
    ensures
        r == is_pause_vowel(v@),
{
    let s = v.as_str();
    if s.unicode_len() == 3 {
        s.get_char(0) == 'p' && s.get_char(1) == 'a' && s.get_char(2) == 'u'
    } else {
        false
    }
}

fn lower_unvoiced_exec(v: &String) -> (r: String)
    requires
        is_unvoiced_vowel(v@),
    ensures
        r@ == seq![unvoiced_lower(v@[0])],
{
    let c = v.as_str().get_char(0);
    if c == 'A' {
        let r = String::from_str("a");
        proof {
            reveal_strlit("a");
            assert(r@ =~= seq![unvoiced_lower(v@[0])]);
        }
        r
    } else if c == 'I' {
        let r = String::from_str("i");
        proof {
            reveal_strlit("i");
            assert(r@ =~= seq![unvoiced_lower(v@[0])]);
        }
        r
    } else if c == 'U' {
        let r = String::from_str("u");
        proof {
            reveal_strlit("u");
            assert(r@ =~= seq![unvoiced_lower(v@[0])]);
        }
        r
    } else if c == 'E' {
        let r = String::from_str("e");
        proof {
            reveal_strlit("e");
            assert(r@ =~= seq![unvoiced_lower(v@[0])]);
        }
        r
    } else {
        let r = String::from_str("o");
        proof {
            reveal_strlit("o");
            assert(r@ =~= seq![unvoiced_lower(v@[0])]);
        }
        r
    }
}

fn voiced_consonant_map(c: &String) -> (r: String)
    ensures
        r@ == voiced_consonant_of(c@),
{
    let s = c.as_str();
    if s.unicode_len() == 1 {
        let ch = s.get_char(0);
        if ch == 'k' {
            let r = String::from_str("g");
            proof {
                reveal_strlit("g");
                assert(r@ =~= voiced_consonant_of(c@));
            }
            r
        } else if ch == 's' {
            let r = String::from_str("z");
            proof {
                reveal_strlit("z");
                assert(r@ =~= voiced_consonant_of(c@));
            }
            r
        } else if ch == 't' {
            let r = String::from_str("d");
            proof {
                reveal_strlit("d");
                assert(r@ =~= voiced_consonant_of(c@));
            }
            r
        } else {
            c.clone()
        }
    } else {
        c.clone()
    }
}

fn clone_opt_string(o: &Option<String>) -> (r: Option<String>)
    ensures
        r == *o,
{
    match o {
        Some(s) => Some(s.clone()),
        None => None,
    }
}

fn clone_mora(m: &Mora) -> (r: Mora)
    ensures
        r@ == m@,
{
    Mora {
        text: m.text.clone(),
        vowel: m.vowel.clone(),
        vowel_length: m.vowel_length,
        pitch: m.pitch,
        consonant: clone_opt_string(&m.consonant),
        consonant_length: m.consonant_length,
    }
}

/// Builds the assimilated (vowel, consonant) pair of mora `j` against the
/// following mora, from the given devoiced vowel.
fn assimilate_exec(p: &AccentPhrase, j: usize, vowel0: String, Ghost(m0): Ghost<MoraModel>) -> (r:
    (String, Option<String>))
    requires
        j < p@.moras.len(),
        vowel0@ == m0.vowel,
        m0.consonant == p@.moras[j as int].consonant,
    ensures
        ({
            let next = if j + 1 < p@.moras.len() {
                Some(p@.moras[j + 1])
            } else {
                None
            };
            let a = assimilated(m0, next);
            r.0@ == a.vowel && (match (r.1, a.consonant) {
                (Some(rc), Some(ac)) => rc@ == ac,
                (None, None) => true,
                _ => false,
            })
        }),
{
    let n = p.moras.len();
    if j + 1 < n {
        let next = &p.moras[j + 1];
        let orig = &p.moras[j];
        let consonant = match &next.consonant {
            Some(nc) => {
                if is_voiced_consonant_exec(nc) {
                    match &orig.consonant {
                        Some(mc) => Some(voiced_consonant_map(mc)),
                        None => None,
                    }
                } else {
                    clone_opt_string(&orig.consonant)
                }
            },
            None => clone_opt_string(&orig.consonant),
        };
        let vowel = if is_voiced_consonant_exec(&next.vowel) {
            to_ascii_upper(&vowel0)
        } else {
            vowel0
        };
        (vowel, consonant)
    } else {
        let orig = &p.moras[j];
        (vowel0, clone_opt_string(&orig.consonant))
    }
}

/// The northern image of mora `j`, from a precomputed reference pitch and
/// phrase-final flag.
fn north_mora_exec(
    p: &AccentPhrase,
    j: usize,
    ref_pitch: u64,
    final_phrase: bool,
    Ghost(structurally_last): Ghost<bool>,
) -> (r: Mora)
    requires
        p@.bounded(),
        j < p@.moras.len(),
        ref_pitch as int == reference_pitch(p@, structurally_last),
        ref_pitch <= 2 * VALUE_LIMIT,
        final_phrase == phrase_is_final(p@, structurally_last),
    ensures
        r@ == north_mora(p@, structurally_last, j as int),
{
    let n = p.moras.len();
    let orig = &p.moras[j];
    proof {
        assert(p@.moras[j as int].bounded());
    }

    // devoicing
    let devoice = is_unvoiced_vowel_exec(&orig.vowel);
    let vowel0 = if devoice {
        lower_unvoiced_exec(&orig.vowel)
    } else {
        orig.vowel.clone()
    };
    let vl0 = if devoice {
        scale_u64(orig.vowel_length, DEVOICED_VOWEL_STRETCH)
    } else {
        orig.vowel_length
    };
    let cl0 = if devoice {
        match orig.consonant_length {
            Some(l) => Some(scale_u64(l, DEVOICED_CONSONANT_SHRINK)),
            None => None,
        }
    } else {
        orig.consonant_length
    };
    let ghost m0 = devoiced(p@.moras[j as int]);
    proof {
        assert(vowel0@ == m0.vowel);
        assert(vl0 as int == m0.vowel_length);
    }

    // voicing assimilation against the following mora
    let (vowel1, cons1) = assimilate_exec(p, j, vowel0, Ghost(m0));

    // last-mora lengthening
    let last = j == n - 1;
    let vl1 = if last {
        scale_u64(vl0, NORTH_LAST_MORA_STRETCH)
    } else {
        vl0
    };

    // pitch assignment from the reference pitch and the accent index
    let acc: i64 = (p.accent as i64) - 1;
    let ji: i64 = j as i64;
    let factor: u64 = if ji < acc {
        NORTH_PRE_ACCENT
    } else if ji == acc {
        NORTH_AT_ACCENT
    } else {
        NORTH_POST_ACCENT
    };
    let pitch0 = scale_u64(ref_pitch, factor);

    // utterance-final boundary
    let fin = final_phrase && last;
    let vl2 = if fin {
        scale_u64(vl1, FINAL_MORA_STRETCH)
    } else {
        vl1
    };
    let pitch1 = if fin {
        scale_u64(
            pitch0,
            if p.is_interrogative {
                NORTH_INTERROGATIVE_RISE
            } else {
                NORTH_FINAL_FALL
            },
        )
    } else {
        pitch0
    };

    let r = Mora {
        text: orig.text.clone(),
        vowel: vowel1,
        vowel_length: vl2,
        pitch: pitch1,
        consonant: cons1,
        consonant_length: cl0,
    };
    proof {
        assert(r@ =~= north_mora(p@, structurally_last, j as int));
    }
    r
}

/// The southern image of mora `j`, from a precomputed reference pitch and
/// phrase-final flag.
fn south_mora_exec(
    p: &AccentPhrase,
    j: usize,
    ref_pitch: u64,
    final_phrase: bool,
    Ghost(structurally_last): Ghost<bool>,
) -> (r: Mora)
    requires
        p@.bounded(),
        j < p@.moras.len(),
        ref_pitch as int == reference_pitch(p@, structurally_last),
        ref_pitch <= 2 * VALUE_LIMIT,
        final_phrase == phrase_is_final(p@, structurally_last),
    ensures
        r@ == south_mora(p@, structurally_last, j as int),
{
    let n = p.moras.len();
    let orig = &p.moras[j];
    proof {
        assert(p@.moras[j as int].bounded());
    }

    // voicing assimilation against the following mora
    let vowel0 = orig.vowel.clone();
    let (vowel1, cons1) = assimilate_exec(p, j, vowel0, Ghost(p@.moras[j as int]));

    // last-mora lengthening, with one-mora lookahead for a devoiced last mora
    let next_unvoiced = if j + 1 < n {
        is_unvoiced_vowel_exec(&p.moras[j + 1].vowel)
    } else {
        false
    };
    let last = j == n - 1 || (next_unvoiced && j == n - 2);
    let vl1 = if last {
        scale_u64(orig.vowel_length, SOUTH_LAST_MORA_STRETCH)
    } else {
        orig.vowel_length
    };

    // pitch assignment from the reference pitch and the accent index
    let acc: i64 = (n - 1) as i64;
    let ji: i64 = j as i64;
    let factor: u64 = if ji == 0 {
        SOUTH_FIRST_MORA
    } else if ji < acc {
        SOUTH_PRE_ACCENT
    } else if ji == acc {
        SOUTH_AT_ACCENT
    } else {
        SOUTH_POST_ACCENT
    };
    let pitch0 = scale_u64(ref_pitch, factor);

    // utterance-final boundary
    let fin = final_phrase && last;
    let vl2 = if fin {
        scale_u64(vl1, FINAL_MORA_STRETCH)
    } else {
        vl1
    };
    let pitch1 = if fin {
        scale_u64(
            pitch0,
            if p.is_interrogative {
                SOUTH_INTERROGATIVE_RISE
            } else {
                SOUTH_FINAL_FLAT
            },
        )
    } else {
        pitch0
    };

    let r = Mora {
        text: orig.text.clone(),
        vowel: vowel1,
        vowel_length: vl2,
        pitch: pitch1,
        consonant: cons1,
        consonant_length: orig.consonant_length,
    };
    proof {
        assert(r@ =~= south_mora(p@, structurally_last, j as int));
    }
    r
}

fn clone_opt_mora(o: &Option<Mora>) -> (r: Option<Mora>)
    ensures
        match *o {
            Some(m) => r matches Some(m2) && m2@ == m@,
            None => r matches None,
        },
{
    match o {
        Some(m) => Some(clone_mora(m)),
        None => None,
    }
}

/// The reference pitch of one phrase: the mean of its non-zero mora pitches,
/// dampened when the phrase is phrase-final.  Fails with
/// `PreconditionViolated` exactly when the phrase has no mora with a non-zero
/// pitch (in particular when it has no mora at all).
pub fn phrase_reference_pitch(p: &AccentPhrase, structurally_last: bool) -> (r: Result<
    u64,
    EngineError,
>)
    requires
        p@.bounded(),
    ensures
        phrase_valid(p@) ==> (r matches Ok(v) && v as int == reference_pitch(p@, structurally_last)
            && v <= 2 * VALUE_LIMIT),
        !phrase_valid(p@) ==> (r matches Err(e) && e.0
            == EngineErrorDescription::PreconditionViolated),
{
    let n = p.moras.len();
    let mut sum: u64 = 0;
    let mut count: u64 = 0;
    let mut k: usize = 0;
    proof {
        assert(p@.moras.subrange(0, 0) =~= Seq::<MoraModel>::empty());
    }
    while k < n
        invariant
            p@.bounded(),
            n == p@.moras.len(),
            k <= n,
            sum as int == nonzero_pitch_sum(p@.moras.subrange(0, k as int)),
            count as int == nonzero_pitch_count(p@.moras.subrange(0, k as int)),
            count <= k,
            sum as int <= count as int * (VALUE_LIMIT as int),
        decreases n - k,
    {
        let m = &p.moras[k];
        proof {
            lemma_nonzero_prefix(p@.moras, k as int);
            assert(p@.moras[k as int].bounded());
        }
        if m.pitch != 0 {
            sum = sum + m.pitch;
            count = count + 1;
        }
        k = k + 1;
    }
    proof {
        assert(p@.moras.subrange(0, n as int) =~= p@.moras);
    }
    if count == 0 {
        return Err(GenericError::new(EngineErrorDescription::PreconditionViolated));
    }
    let avg = sum / count;
    proof {
        let s = sum as int;
        let c = count as int;
        let v = VALUE_LIMIT as int;
        vstd::arithmetic::div_mod::lemma_div_is_ordered(s, c * v, c);
        vstd::arithmetic::div_mod::lemma_div_multiples_vanish(v, c);
        assert(c * v == v * c) by (nonlinear_arith);
        vstd::arithmetic::div_mod::lemma_div_pos_is_pos(s, c);
    }
    let fin = match &p.pause_mora {
        Some(m) => is_pause_vowel_exec(&m.vowel) && m.vowel_length >= PAUSE_FINAL_MIN_LENGTH,
        None => structurally_last,
    };
    let ref_pitch = if fin {
        scale_u64(avg, FINAL_PHRASE_DAMPEN)
    } else {
        avg
    };
    Ok(ref_pitch)
}

/// The image of one phrase under the given variant: every mora rewritten by
/// the variant's rule table, the accent, pause mora and interrogative flag
/// kept.  Fails with `PreconditionViolated` exactly when the phrase has no
/// mora with a non-zero pitch.
pub fn transform_phrase(p: &AccentPhrase, structurally_last: bool, variant: SynthesisVariant) -> (r:
    Result<AccentPhrase, EngineError>)
    requires
        p@.bounded(),
    ensures
        phrase_valid(p@) ==> (r matches Ok(ph) && ph@ == transformed_phrase(
            p@,
            structurally_last,
            variant,
        )),
        !phrase_valid(p@) ==> (r matches Err(e) && e.0
            == EngineErrorDescription::PreconditionViolated),
{
    let ref_pitch = match phrase_reference_pitch(p, structurally_last) {
        Ok(v) => v,
        Err(e) => {
            return Err(e);
        },
    };
    let fin = match &p.pause_mora {
        Some(m) => is_pause_vowel_exec(&m.vowel) && m.vowel_length >= PAUSE_FINAL_MIN_LENGTH,
        None => structurally_last,
    };
    let n = p.moras.len();
    let mut out: Vec<Mora> = Vec::new();
    let mut j: usize = 0;
    while j < n
        invariant
            p@.bounded(),
            phrase_valid(p@),
            n == p@.moras.len(),
            j <= n,
            ref_pitch as int == reference_pitch(p@, structurally_last),
            ref_pitch <= 2 * VALUE_LIMIT,
            fin == phrase_is_final(p@, structurally_last),
            out@.len() == j,
            forall|t: int|
                0 <= t < j ==> #[trigger] out.deep_view()[t] == transformed_mora(
                    p@,
                    structurally_last,
                    variant,
                    t,
                ),
        decreases n - j,
    {
        let m = match variant {
            SynthesisVariant::Northern => north_mora_exec(
                p,
                j,
                ref_pitch,
                fin,
                Ghost(structurally_last),
            ),
            SynthesisVariant::Southern => south_mora_exec(
                p,
                j,
                ref_pitch,
                fin,
                Ghost(structurally_last),
            ),
        };
        let ghost prev = out.deep_view();
        out.push(m);
        proof {
            assert(out.deep_view() =~= prev.push(m@));
        }
        j = j + 1;
    }
    let r = AccentPhrase {
        moras: out,
        accent: p.accent,
        pause_mora: clone_opt_mora(&p.pause_mora),
        is_interrogative: p.is_interrogative,
    };
    proof {
        assert(r@.moras =~= transformed_phrase(p@, structurally_last, variant).moras);
        assert(r@ =~= transformed_phrase(p@, structurally_last, variant));
    }
    Ok(r)
}

impl SynthesisVariant {
    /// The dialect transform: rewrites every phrase of the query by this
    /// variant's rule table, overwrites the global scalars with the variant's
    /// bases, and applies the knob triple.  Fails with `PreconditionViolated`
    /// exactly when some phrase has no mora with a non-zero pitch.
    pub fn preprocess_audio_query(&self, query: AudioQuery, params: SynthesisParams) -> (r: Result<
        AudioQuery,
        EngineError,
    >)
        requires
            query@.bounded(),
            params@.valid(),
        ensures
            query_valid(query@) ==> (r matches Ok(out) && out@ == transformed_query(
                query@,
                *self,
                params@,
            )),
            !query_valid(query@) ==> (r matches Err(e) && e.0
                == EngineErrorDescription::PreconditionViolated),
    {
        let n = query.accent_phrases.len();
        let mut new_phrases: Vec<AccentPhrase> = Vec::new();
        let mut i: usize = 0;
        while i < n
            invariant
                query@.bounded(),
                n == query@.accent_phrases.len(),
                i <= n,
                new_phrases@.len() == i,
                forall|t: int| 0 <= t < i ==> phrase_valid(#[trigger] query@.accent_phrases[t]),
                forall|t: int|
                    0 <= t < i ==> #[trigger] new_phrases.deep_view()[t] == transformed_phrase(
                        query@.accent_phrases[t],
                        t == n - 1,
                        *self,
                    ),
            decreases n - i,
        {
            proof {
                assert(query@.accent_phrases[i as int].bounded());
            }
            let structurally_last = i == n - 1;
            match transform_phrase(&query.accent_phrases[i], structurally_last, *self) {
                Ok(ph) => {
                    let ghost prev = new_phrases.deep_view();
                    new_phrases.push(ph);
                    proof {
                        assert(new_phrases.deep_view() =~= prev.push(ph@));
                    }
                },
                Err(e) => {
                    proof {
                        assert(!phrase_valid(query@.accent_phrases[i as int]));
                    }
                    return Err(e);
                },
            }
            i = i + 1;
        }
        let mut out = AudioQuery {
            accent_phrases: new_phrases,
            speed_scale: SPEED_BASE,
            pitch_scale: match self {
                SynthesisVariant::Northern => NORTH_PITCH_BASE,
                SynthesisVariant::Southern => SOUTH_PITCH_BASE,
            },
            intonation_scale: match self {
                SynthesisVariant::Northern => NORTH_INTONATION_BASE,
                SynthesisVariant::Southern => SOUTH_INTONATION_BASE,
            },
            volume_scale: VOLUME_BASE,
            pre_phoneme_length: query.pre_phoneme_length,
            post_phoneme_length: query.post_phoneme_length,
            output_sampling_rate: query.output_sampling_rate,
            output_stereo: query.output_stereo,
            kana: query.kana,
        };
        params.apply(&mut out);
        proof {
            assert(out@.accent_phrases =~= transformed_query(query@, *self, params@).accent_phrases);
            assert(out@ =~= transformed_query(query@, *self, params@));
        }
        Ok(out)
    }
}

} // verus!
