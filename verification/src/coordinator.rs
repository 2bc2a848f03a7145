//! The synthesis coordinator's decision logic, one request at a time.
//!
//! A request is text plus options.  The coordinator splits the text into
//! sentences, has the backend build a structural query per sentence, rewrites
//! the query with the dialect transform, has the backend synthesize it, and
//! collects the decoded samples.  Only when every sentence has succeeded is
//! the combined container produced; any failure aborts the whole request with
//! no partial audio.  The backend calls themselves happen outside this
//! library; a [`SynthesisJob`] tracks one request through them.

use vstd::prelude::*;

use crate::error::GenericError;
use crate::prosody::query_valid;
use crate::prosody::transformed_query;
use crate::prosody::SynthesisOptions;
use crate::splitter::split_text_spec;
use crate::splitter::TextSplitter;
use crate::types::AudioQuery;
use crate::types::AudioQueryModel;
use crate::wav::decode_wav;
use crate::wav::encode_wav;
use crate::wav::wav_bytes;
use crate::wav::wav_parse_ok;
use crate::wav::wav_samples;
use crate::wav::MAX_WAV_SAMPLES;
use crate::EngineError;
use crate::EngineErrorDescription;

verus! {

/// Sample rate forced onto every prepared query (24 kHz).
pub const FORCED_SAMPLE_RATE: i32 = 24000;

/// Post-utterance silence pad forced onto every prepared query (0.2 s).
pub const POST_UTTERANCE_PAD: u64 = 2000;

/// The concatenation of the sections' sample sequences, in order.
pub open spec fn concat_samples(sections: Seq<Seq<i16>>) -> Seq<i16>
    decreases sections.len(),
{
    if sections.len() == 0 {
        Seq::empty()
    } else {
        concat_samples(sections.drop_last()) + sections.last()
    }
}

/// The sum of the sections' sample counts.
pub open spec fn sum_section_lens(sections: Seq<Seq<i16>>) -> int
    decreases sections.len(),
{
    if sections.len() == 0 {
        0
    } else {
        sum_section_lens(sections.drop_last()) + sections.last().len()
    }
}

/// Concatenating sections yields exactly the sum of their lengths.
pub proof fn lemma_concat_len(sections: Seq<Seq<i16>>)
    ensures
        concat_samples(sections).len() == sum_section_lens(sections),
    decreases sections.len(),
{
    if sections.len() > 0 {
        lemma_concat_len(sections.drop_last());
    }
}

/// The container assembled from independently synthesized sections is well
/// formed, carries exactly the concatenation of the sections' samples, and
/// its sample count is the sum of the sections' sample counts.
pub proof fn lemma_assembly_sample_count(sections: Seq<Seq<i16>>)
    requires
        concat_samples(sections).len() <= MAX_WAV_SAMPLES,
    ensures
        wav_parse_ok(wav_bytes(concat_samples(sections))),
        wav_samples(wav_bytes(concat_samples(sections))) =~= concat_samples(sections),
        wav_samples(wav_bytes(concat_samples(sections))).len() == sum_section_lens(sections),
{
    crate::wav::lemma_wav_round_trip(concat_samples(sections));
    lemma_concat_len(sections);
}

/// Extending a section prefix by one section appends its samples.
proof fn lemma_concat_prefix(sections: Seq<Seq<i16>>, k: int)
    requires
        0 <= k < sections.len(),
    ensures
        concat_samples(sections.subrange(0, k + 1)) == concat_samples(sections.subrange(0, k))
            + sections[k],
{
    let t = sections.subrange(0, k + 1);
    assert(t.drop_last() =~= sections.subrange(0, k));
    assert(t.last() == sections[k]);
}

/// The query a sentence is synthesized from: the dialect transform applied,
/// then the output format forced to 24 kHz mono with the fixed pad.
pub open spec fn prepared_query(
    q: AudioQueryModel,
    options: SynthesisOptions,
) -> AudioQueryModel {
    AudioQueryModel {
        output_sampling_rate: FORCED_SAMPLE_RATE as int,
        output_stereo: false,
        post_phoneme_length: POST_UTTERANCE_PAD as int,
        ..transformed_query(q, options.variant, options.params@)
    }
}

/// Rewrites one sentence's backend query for synthesis: applies the dialect
/// transform and forces the output format.  Fails with
/// `PreconditionViolated` exactly when some phrase has no mora with a
/// non-zero pitch.
pub fn prepare_query(query: AudioQuery, options: &SynthesisOptions) -> (r: Result<
    AudioQuery,
    EngineError,
>)
    requires
        query@.bounded(),
        options.params@.valid(),
    ensures
        query_valid(query@) ==> (r matches Ok(out) && out@ == prepared_query(query@, *options)),
        !query_valid(query@) ==> (r matches Err(e) && e.0
            == EngineErrorDescription::PreconditionViolated),
{
    match options.variant.preprocess_audio_query(query, options.params) {
        Ok(mut out) => {
            out.output_sampling_rate = FORCED_SAMPLE_RATE;
            out.output_stereo = false;
            out.post_phoneme_length = POST_UTTERANCE_PAD;
            Ok(out)
        },
        Err(e) => Err(e),
    }
}

/// One request in flight: its sentences, its options, and the samples of the
/// sentences already synthesized.  Sections can only accumulate in order, and
/// the combined container can only be produced once every sentence has one.
pub struct SynthesisJob {
    segments: Vec<String>,
    options: SynthesisOptions,
    sections: Vec<Vec<i16>>,
}

impl SynthesisJob {
    /// The sentences of the request, as character sequences.
    pub closed spec fn segments_view(&self) -> Seq<Seq<char>> {
        self.segments.deep_view()
    }

    /// The samples collected so far, one sequence per finished sentence.
    pub closed spec fn sections_view(&self) -> Seq<Seq<i16>> {
        self.sections.deep_view()
    }

    /// The request's options.
    pub closed spec fn options_spec(&self) -> SynthesisOptions {
        self.options
    }

    /// Starts a request: splits the text into sentences; nothing is
    /// synthesized yet.
    pub fn new(text: &str, options: SynthesisOptions) -> (job: Self)
        ensures
            job.segments_view() == split_text_spec(text@),
            job.sections_view() == Seq::<Seq<i16>>::empty(),
            job.options_spec() == options,
    {
        let splitter = TextSplitter::new();
        let segments = splitter.split_text(text);
        let job = SynthesisJob { segments, options, sections: Vec::new() };
        proof {
            assert(job.sections_view() =~= Seq::<Seq<i16>>::empty());
        }
        job
    }

    /// The request's options, for the caller driving the backend.
    pub fn options(&self) -> (r: &SynthesisOptions)
        ensures
            *r == self.options_spec(),
    {
        &self.options
    }

    /// How many sentences the request has.
    pub fn segment_count(&self) -> (r: usize)
        ensures
            r == self.segments_view().len(),
    {
        self.segments.len()
    }

    /// How many sentences have been synthesized so far.
    pub fn completed_count(&self) -> (r: usize)
        ensures
            r == self.sections_view().len(),
    {
        self.sections.len()
    }

    /// The next sentence to synthesize, or `None` when every sentence is
    /// done.
    pub fn next_segment(&self) -> (r: Option<&String>)
        ensures
            self.sections_view().len() < self.segments_view().len() ==> (r matches Some(s) && s@
                == self.segments_view()[self.sections_view().len() as int]),
            self.sections_view().len() >= self.segments_view().len() ==> r matches None,
    {
        if self.sections.len() < self.segments.len() {
            Some(&self.segments[self.sections.len()])
        } else {
            None
        }
    }

    /// Every sentence has been synthesized.
    pub fn is_complete(&self) -> (r: bool)
        ensures
            r == (self.sections_view().len() == self.segments_view().len()),
    {
        self.sections.len() == self.segments.len()
    }

    /// Takes the backend's container for the current sentence: decodes it and
    /// appends its samples.  Fails with `MalformedBackendOutput`, leaving the
    /// job unchanged, exactly when the container is not well formed.
    pub fn accept_section(&mut self, bytes: &Vec<u8>) -> (r: Result<(), EngineError>)
        requires
            old(self).sections_view().len() < old(self).segments_view().len(),
        ensures
            final (self).segments_view() == old(self).segments_view(),
            final (self).options_spec() == old(self).options_spec(),
            wav_parse_ok(bytes@) ==> (r matches Ok(u) && final (self).sections_view() == old(
                self,
            ).sections_view().push(wav_samples(bytes@))),
            !wav_parse_ok(bytes@) ==> (r matches Err(e) && e.0
                == EngineErrorDescription::MalformedBackendOutput && final (self).sections_view()
                == old(self).sections_view()),
    {
        match decode_wav(bytes) {
            Ok(samples) => {
                let ghost prev = self.sections.deep_view();
                self.sections.push(samples);
                proof {
                    assert(self.sections.deep_view() =~~= prev.push(wav_samples(bytes@)));
                }
                Ok(())
            },
            Err(e) => Err(e),
        }
    }

    /// Assembles the finished request into one container.  Only callable when
    /// every sentence has a section; the result is the container of the
    /// concatenated samples, in submission order.
    pub fn finish(&self) -> (r: Vec<u8>)
        requires
            self.sections_view().len() == self.segments_view().len(),
            concat_samples(self.sections_view()).len() <= MAX_WAV_SAMPLES,
        ensures
            r@ == wav_bytes(concat_samples(self.sections_view())),
    {
        let m = self.sections.len();
        let mut combined: Vec<i16> = Vec::new();
        let mut k: usize = 0;
        proof {
            assert(self.sections_view().subrange(0, 0) =~= Seq::<Seq<i16>>::empty());
            assert(combined@ =~= concat_samples(self.sections_view().subrange(0, 0)));
        }
        while k < m
            invariant
                m == self.sections_view().len(),
                k <= m,
                concat_samples(self.sections_view()).len() <= MAX_WAV_SAMPLES,
                combined@ =~= concat_samples(self.sections_view().subrange(0, k as int)),
            decreases m - k,
        {
            proof {
                lemma_concat_prefix(self.sections_view(), k as int);
                lemma_concat_mono(self.sections_view(), k + 1);
                assert(self.sections_view()[k as int] =~~= self.sections[k as int]@);
            }
            combined.extend_from_slice(self.sections[k].as_slice());
            k = k + 1;
        }
        proof {
            assert(self.sections_view().subrange(0, m as int) =~= self.sections_view());
        }
        encode_wav(&combined)
    }
}

/// A prefix of the sections never holds more samples than the whole.
proof fn lemma_concat_mono(sections: Seq<Seq<i16>>, k: int)
    requires
        0 <= k <= sections.len(),
    ensures
        concat_samples(sections.subrange(0, k)).len() <= concat_samples(sections).len(),
    decreases sections.len() - k,
{
    if k == sections.len() {
        assert(sections.subrange(0, k) =~= sections);
    } else {
        lemma_concat_prefix(sections, k);
        lemma_concat_mono(sections, k + 1);
    }
}

} // verus!
