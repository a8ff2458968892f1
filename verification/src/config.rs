//! The deterministic mapping from a request's kind and quality to the
//! extraction tool's configuration.

use vstd::prelude::*;

use crate::types::{FormatType, Quality};

verus! {

/// The tool configuration for one extraction: whether audio is extracted
/// (which also carries the fixed mp3 post-processing flags), the format
/// selector handed to the tool, and the output template.
#[derive(Clone, Debug)]
pub struct ExtractionConfig {
    pub extract_audio: bool,
    pub format_selector: String,
    pub output_template: String,
}

/// Mathematical image of an `ExtractionConfig`.
pub ghost struct ConfigV {
    pub extract_audio: bool,
    pub format_selector: Seq<char>,
    pub output_template: Seq<char>,
}

impl View for ExtractionConfig {
    type V = ConfigV;

    open spec fn view(&self) -> ConfigV {
        ConfigV {
            extract_audio: self.extract_audio,
            format_selector: self.format_selector@,
            output_template: self.output_template@,
        }
    }
}

/// The one configuration each `(kind, quality)` pair maps to.  Audio
/// always asks for the best audio stream; video picks its selector by
/// quality tier.
pub open spec fn spec_configure(kind: FormatType, quality: Quality) -> ConfigV {
    match kind {
        FormatType::Audio => ConfigV {
            extract_audio: true,
            format_selector: "bestaudio"@,
            output_template: "audio"@,
        },
        FormatType::Video => ConfigV {
            extract_audio: false,
            format_selector: match quality {
                Quality::Lowest => "worstvideo[ext=mp4]+worstaudio[ext=m4a]/worst[ext=mp4]"@,
                Quality::Medium => "bestvideo[height<=720][ext=mp4]+bestaudio[ext=m4a]/best[height<=720][ext=mp4]"@,
                Quality::Highest => "bestvideo[ext=mp4]+bestaudio[ext=m4a]/best[ext=mp4]"@,
            },
            output_template: "video"@,
        },
    }
}

/// Translate a kind and quality into the tool configuration.  The mapping
/// is total: every pair has exactly one configuration.
pub fn configure(kind: FormatType, quality: Quality) -> (cfg: ExtractionConfig)
    ensures
        cfg@ == spec_configure(kind, quality),
{
    match kind {
        FormatType::Audio => ExtractionConfig {
            extract_audio: true,
            format_selector: String::from_str("bestaudio"),
            output_template: String::from_str("audio"),
        },
        FormatType::Video => ExtractionConfig {
            extract_audio: false,
            format_selector: match quality {
                Quality::Lowest => String::from_str(
                    "worstvideo[ext=mp4]+worstaudio[ext=m4a]/worst[ext=mp4]",
                ),
                Quality::Medium => String::from_str(
                    "bestvideo[height<=720][ext=mp4]+bestaudio[ext=m4a]/best[height<=720][ext=mp4]",
                ),
                Quality::Highest => String::from_str(
                    "bestvideo[ext=mp4]+bestaudio[ext=m4a]/best[ext=mp4]",
                ),
            },
            output_template: String::from_str("video"),
        },
    }
}

/// Configuration is a pure mapping: any two configurations produced for
/// the same kind and quality are equal.
pub proof fn lemma_configure_deterministic(c1: ConfigV, c2: ConfigV, kind: FormatType, quality: Quality)
    requires
        c1 == spec_configure(kind, quality),
        c2 == spec_configure(kind, quality),
    ensures
        c1 == c2,
{
}

/// Audio ignores quality variation: every quality tier maps an audio
/// request to the same configuration.
pub proof fn lemma_audio_ignores_quality(q1: Quality, q2: Quality)
    ensures
        spec_configure(FormatType::Audio, q1) == spec_configure(FormatType::Audio, q2),
{
}

} // verus!
