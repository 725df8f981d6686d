//! Assembling transcription text from the segments a backend returns.
use vstd::prelude::*;
use vstd::string::*;

verus! {

/// Characters with the Unicode White_Space property.
pub open spec fn is_white_space(c: char) -> bool {
    let u = c as u32;
    (0x9 <= u && u <= 0xd) || u == 0x20 || u == 0x85 || u == 0xa0 || u == 0x1680 || (0x2000 <= u
        && u <= 0x200a) || u == 0x2028 || u == 0x2029 || u == 0x202f || u == 0x205f || u == 0x3000
}

pub open spec fn trim_start_ws(s: Seq<char>) -> Seq<char>
    decreases s.len(),
{
    if s.len() > 0 && is_white_space(s[0]) {
        trim_start_ws(s.drop_first())
    } else {
        s
    }
}

pub open spec fn trim_end_ws(s: Seq<char>) -> Seq<char>
    decreases s.len(),
{
    if s.len() > 0 && is_white_space(s.last()) {
        trim_end_ws(s.drop_last())
    } else {
        s
    }
}

/// `s` without leading and trailing white space.
pub open spec fn trim_ws(s: Seq<char>) -> Seq<char> {
    trim_end_ws(trim_start_ws(s))
}

/// The texts that are present, concatenated in order.
pub open spec fn concat_present(texts: Seq<Option<String>>) -> Seq<char>
    decreases texts.len(),
{
    if texts.len() == 0 {
        Seq::empty()
    } else {
        let rest = concat_present(texts.drop_last());
        match texts.last() {
            Some(t) => rest + t@,
            None => rest,
        }
    }
}

/// The text of a transcription made of `texts`, one per segment (`None`
/// for a segment without readable text).
pub open spec fn segments_text_of(texts: Seq<Option<String>>) -> Seq<char> {
    trim_ws(concat_present(texts))
}

/// Relies on `str::trim`: it removes leading and trailing characters that
/// have the Unicode White_Space property, and nothing else.
#[verifier::external_body]
fn trim_white_space(s: &str) -> (r: String)
    ensures
        r@ == trim_ws(s@),
{
    s.trim().to_string()
}

/// Concatenates the readable segment texts in order and trims surrounding
/// white space; no segments give an empty string.
pub fn segments_text(texts: &Vec<Option<String>>) -> (r: String)
    ensures
        r@ == segments_text_of(texts@),
{
    let mut joined = String::new();
    let mut i: usize = 0;
    while i < texts.len()
        invariant
            i <= texts@.len(),
            joined@ == concat_present(texts@.subrange(0, i as int)),
        decreases texts@.len() - i,
    {
        proof {
            assert(texts@.subrange(0, i + 1).drop_last() =~= texts@.subrange(0, i as int));
        }
        match &texts[i] {
            Some(t) => {
                joined.append(t.as_str());
            },
            None => {},
        }
        i = i + 1;
    }
    proof {
        assert(texts@.subrange(0, texts@.len() as int) =~= texts@);
    }
    trim_white_space(joined.as_str())
}

} // verus!
