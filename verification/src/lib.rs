//! Pseudo-dialect speech-synthesis front end.
//!
//! The library validates user-tunable synthesis parameters, splits raw text
//! into sentences, rewrites the prosody plan of each sentence for one of two
//! dialect variants, and assembles the per-sentence waveforms into a single
//! container.  All acoustic scalars are fixed-point integers: a stored value
//! `v` stands for `v / 10000` of the underlying unit.

pub mod chars;
pub mod coordinator;
pub mod error;
pub mod fixed;
pub mod lifecycle;
pub mod params;
pub mod prosody;
pub mod splitter;
pub mod types;
pub mod wav;

use vstd::prelude::*;
use vstd::string::*;

pub use error::ErrorDescription;
pub use error::GenericError;
pub use params::SynthesisParams;
pub use prosody::SynthesisOptions;
pub use prosody::SynthesisVariant;
pub use splitter::TextSplitter;

verus! {

/// An error of this engine: a generic error tagged with one of the engine's
/// error kinds.
pub type EngineError = GenericError<EngineErrorDescription>;

/// The closed set of error kinds the engine can report.
#[derive(Debug, Clone, Copy, PartialEq, Eq)]
pub enum EngineErrorDescription {
    AlreadyInitialized,
    InitializationFailed,
    NotInitialized,
    InvalidParameter,
    BackendQueryFailed,
    BackendSynthesisFailed,
    MalformedBackendOutput,
    PreconditionViolated,
}

impl ErrorDescription for EngineErrorDescription {
    fn description(&self) -> String {
        match self {
            Self::AlreadyInitialized => String::from_str("Engine is already initialized"),
            Self::InitializationFailed => String::from_str("Engine initialization failed"),
            Self::NotInitialized => String::from_str("Engine is not initialized"),
            Self::InvalidParameter => String::from_str("Invalid synthesis parameter"),
            Self::BackendQueryFailed => String::from_str("Backend query construction failed"),
            Self::BackendSynthesisFailed => String::from_str("Backend synthesis failed"),
            Self::MalformedBackendOutput => String::from_str("Malformed backend output"),
            Self::PreconditionViolated => String::from_str("Precondition violated"),
        }
    }

    fn error_name(&self) -> &'static str {
        "EngineErrorDescription"
    }
}

/// Where a run's finished audio goes.
#[derive(Debug, Copy, Clone, PartialEq, Eq)]
pub enum OutputType {
    Stdout,
    AudioDevice,
}

/// The announcement text the sample-speech mode reads aloud.
pub open spec fn sample_text_spec() -> Seq<char> {
    "\nこれは、ジェネリック東北共通語読み上げソフト、バージョン0てん1てん0です。\nこれは、ジェネリックな東北共通語っぽい音声合成ができるソフトです。 \nこのように、一般的な現代日本語の任意の文章を方言風のアクセント・イントネーションで読みあげさせることができます。\nいわゆる標準語を訛らせて発話させることを想定したもので、伝統的な方言、例えば津軽弁、南部弁、ケセン語、会津弁などを再現することを目的としたものではありません。\n小規模な簡易ネイティブチェックを行い、合成音声の範囲内で自然さには配慮しておりますが、精密に特定の場所の方言に準じてつくっているわけではありません。\nまた、方言の参照用として使うことを想定したものではありません。\nご注意ください。\nこのソフトウェアは、アパッチライセンス・バージョン2.0のもとでライセンスされています。\nまた、このソフトウェアは、ボイスボックス・コアを使用しております。\n"@
}

/// The announcement text the sample-speech mode reads aloud.
pub fn sample_text() -> (r: String)
    ensures
        r@ == sample_text_spec(),
{
    String::from_str(
        "\nこれは、ジェネリック東北共通語読み上げソフト、バージョン0てん1てん0です。\nこれは、ジェネリックな東北共通語っぽい音声合成ができるソフトです。 \nこのように、一般的な現代日本語の任意の文章を方言風のアクセント・イントネーションで読みあげさせることができます。\nいわゆる標準語を訛らせて発話させることを想定したもので、伝統的な方言、例えば津軽弁、南部弁、ケセン語、会津弁などを再現することを目的としたものではありません。\n小規模な簡易ネイティブチェックを行い、合成音声の範囲内で自然さには配慮しておりますが、精密に特定の場所の方言に準じてつくっているわけではありません。\nまた、方言の参照用として使うことを想定したものではありません。\nご注意ください。\nこのソフトウェアは、アパッチライセンス・バージョン2.0のもとでライセンスされています。\nまた、このソフトウェアは、ボイスボックス・コアを使用しております。\n",
    )
}

} // verus!
