//! What is stored of a transcribed fragment: its text, in Traditional Chinese for Chinese
//! and Cantonese, and its absolute start time.
use vstd::prelude::*;

verus! {

/// The Traditional Chinese form of a text, as zhconv converts it.
pub uninterp spec fn zh_hant_of(s: Seq<char>) -> Seq<char>;

/// Relies on zhconv::zhconv with Variant::ZhHant: the text converted to Traditional Chinese,
/// a function of the text alone.
#[verifier::external_body]
fn to_traditional_chinese(text: &str) -> (r: String)
    ensures
        r@ == zh_hant_of(text@),
{
    zhconv::zhconv(text, zhconv::Variant::ZhHant)
}

/// Chinese (`zh`) and Cantonese (`yue`) transcripts are stored in Traditional Chinese.
pub open spec fn stored_in_traditional(language: Seq<char>) -> bool {
    language == "zh"@ || language == "yue"@
}

pub fn is_traditional_language(language: &str) -> (b: bool)
    ensures
        b == stored_in_traditional(language@),
{
    let l = language.to_owned();
    l.eq(&"zh".to_owned()) || l.eq(&"yue".to_owned())
}

/// The text to store for a fragment transcribed in `language`.
pub fn text_for_storage(language: &str, text: &str) -> (r: String)
    ensures
        r@ == (if stored_in_traditional(language@) {
            zh_hant_of(text@)
        } else {
            text@
        }),
{
    if is_traditional_language(language) {
        to_traditional_chinese(text)
    } else {
        text.to_owned()
    }
}

/// The absolute start of a fragment: the segment's start timestamp plus the fragment's offset
/// into it; none when the segment has no start or the sum leaves the `i64` range.
pub fn fragment_start_millis(segment_start: Option<i64>, offset_millis: i64) -> (r: Option<i64>)
    ensures
        r == (match segment_start {
            Some(s) => if i64::MIN <= s + offset_millis <= i64::MAX {
                Some((s + offset_millis) as i64)
            } else {
                None
            },
            None => None,
        }),
{
    match segment_start {
        Some(s) => s.checked_add(offset_millis),
        None => None,
    }
}

} // verus!
