use vstd::prelude::*;

verus! {

/// How the speech engine decodes one clip.
pub struct DecodeSettings {
    /// Candidates kept per step; one means plain greedy decoding.
    pub best_of: u32,
    /// The spoken-language hint.
    pub language: String,
    pub print_special: bool,
    pub print_progress: bool,
    pub print_realtime: bool,
    pub print_timestamps: bool,
}

/// How the generation service samples a summary, in hundredths where the
/// service takes a fraction.
#[derive(Clone, Copy, Debug, PartialEq, Eq, Structural)]
pub struct SamplingSettings {
    pub temperature_percent: u32,
    pub top_k: u32,
    pub top_p_percent: u32,
}

/// Greedy decoding with a single candidate, the given language hint, and no
/// diagnostic, progress, real-time or timestamp output.
pub fn decode_settings(language: &str) -> (r: DecodeSettings)
    ensures
        r.best_of == 1,
        r.language@ == language@,
        !r.print_special,
        !r.print_progress,
        !r.print_realtime,
        !r.print_timestamps,
{
    DecodeSettings {
        best_of: 1,
        language: String::from_str(language),
        print_special: false,
        print_progress: false,
        print_realtime: false,
        print_timestamps: false,
    }
}

/// Low-variance sampling for summaries: temperature 0.20, top-k 25, top-p 0.25.
pub fn summary_sampling() -> (r: SamplingSettings)
    ensures
        r.temperature_percent == 20,
        r.top_k == 25,
        r.top_p_percent == 25,
{
    SamplingSettings { temperature_percent: 20, top_k: 25, top_p_percent: 25 }
}

} // verus!
