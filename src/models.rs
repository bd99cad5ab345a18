//! Choice of the transcription model and of its thread count.
use vstd::prelude::*;

verus! {

pub const TURBO_MODEL_URL: &'static str = "https://huggingface.co/ggerganov/whisper.cpp/resolve/4496f29dabb6f37d8e6c45c3ec89ccbe66a832ea/ggml-large-v3-turbo.bin?download=true";

pub const BASE_EN_MODEL_URL: &'static str = "https://huggingface.co/ggerganov/whisper.cpp/resolve/main/ggml-base.en.bin?download=true";

pub const DISTIL_SMALL_EN_MODEL_URL: &'static str = "https://huggingface.co/distil-whisper/distil-small.en/resolve/main/ggml-distil-small.en.bin?download=true";

pub const SMALL_Q5_1_MODEL_URL: &'static str = "https://huggingface.co/ggerganov/whisper.cpp/resolve/main/ggml-small-q5_1.bin?download=true";

/// Threads used for transcription when none are requested: at most this many.
pub const MAX_DEFAULT_TRANSCRIBE_THREADS: usize = 4;

/// The download URL of a named model; the turbo model when none is named; none for an
/// unknown name.
pub open spec fn model_url_spec(model: Option<Seq<char>>) -> Option<Seq<char>> {
    match model {
        None => Some(TURBO_MODEL_URL@),
        Some(m) => if m == "turbo"@ {
            Some(TURBO_MODEL_URL@)
        } else if m == "base_en"@ {
            Some(BASE_EN_MODEL_URL@)
        } else if m == "distil_small_en"@ {
            Some(DISTIL_SMALL_EN_MODEL_URL@)
        } else if m == "ggml-small-q5_1"@ {
            Some(SMALL_Q5_1_MODEL_URL@)
        } else {
            None
        },
    }
}

pub open spec fn opt_view(o: Option<String>) -> Option<Seq<char>> {
    match o {
        Some(s) => Some(s@),
        None => None,
    }
}

pub fn model_download_url(model: &Option<String>) -> (r: Option<String>)
    ensures
        opt_view(r) == model_url_spec(opt_view(*model)),
{
    match model {
        None => Some(TURBO_MODEL_URL.to_owned()),
        Some(m) => {
            if m.eq(&"turbo".to_owned()) {
                Some(TURBO_MODEL_URL.to_owned())
            } else if m.eq(&"base_en".to_owned()) {
                Some(BASE_EN_MODEL_URL.to_owned())
            } else if m.eq(&"distil_small_en".to_owned()) {
                Some(DISTIL_SMALL_EN_MODEL_URL.to_owned())
            } else if m.eq(&"ggml-small-q5_1".to_owned()) {
                Some(SMALL_Q5_1_MODEL_URL.to_owned())
            } else {
                None
            }
        },
    }
}

/// The requested thread count, or else the available parallelism capped at four.
pub fn transcribe_thread_count(requested: Option<usize>, available: usize) -> (n: usize)
    ensures
        n == (match requested {
            Some(r) => r,
            None => if available < MAX_DEFAULT_TRANSCRIBE_THREADS {
                available
            } else {
                MAX_DEFAULT_TRANSCRIBE_THREADS
            },
        }),
{
    match requested {
        Some(r) => r,
        None => {
            if available < MAX_DEFAULT_TRANSCRIBE_THREADS {
                available
            } else {
                MAX_DEFAULT_TRANSCRIBE_THREADS
            }
        },
    }
}

} // verus!
