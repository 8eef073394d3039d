//! Text: bytes that should be UTF-8, and lines that are taken apart.

use vstd::prelude::*;
use vstd::utf8::decode_utf8;
use vstd::utf8::valid_utf8;

verus! {

/// `core::str::Utf8Error`, the reason why bytes are no UTF-8. Nothing is
/// read from it.
#[verifier::external_type_specification]
#[verifier::external_body]
pub struct ExUtf8Error(core::str::Utf8Error);

/// `core::str::from_utf8`: the bytes as a string slice if they are valid
/// UTF-8, an error if they are not. The slice holds the characters that the
/// bytes encode.
#[verifier::external_body]
pub(crate) fn from_utf8(bytes: &[u8]) -> (text: Result<&str, core::str::Utf8Error>)
    ensures
        text is Ok <==> valid_utf8(bytes@),
        text is Ok ==> text->Ok_0@ == decode_utf8(bytes@),
{
    core::str::from_utf8(bytes)
}

/// Where `sep` first stands in `text` at or behind `from`; the length of the
/// text if it stands nowhere.
pub open spec fn find(text: Seq<char>, sep: char, from: int) -> int
    decreases text.len() - from,
{
    if from >= text.len() {
        text.len() as int
    } else if text[from] == sep {
        from
    } else {
        find(text, sep, from + 1)
    }
}

/// The pieces of `text` that `sep` parts: at least one, and one more than
/// there are separators.
pub open spec fn split(text: Seq<char>, sep: char) -> Seq<Seq<char>>
    decreases text.len(),
{
    let at = find(text, sep, 0);
    if 0 <= at < text.len() {
        seq![text.subrange(0, at)] + split(text.subrange(at + 1, text.len() as int), sep)
    } else {
        seq![text]
    }
}

/// The first separator stands at or behind `from`, and none stands between.
pub proof fn lemma_find(text: Seq<char>, sep: char, from: int)
    requires
        0 <= from <= text.len(),
    ensures
        from <= find(text, sep, from) <= text.len(),
        find(text, sep, from) < text.len() ==> text[find(text, sep, from)] == sep,
        forall|i: int| from <= i < find(text, sep, from) ==> text[i] != sep,
    decreases text.len() - from,
{
    if from < text.len() && text[from] != sep {
        lemma_find(text, sep, from + 1);
    }
}

/// A text without the separator is one piece; a text with the separator at
/// `at` and none before is the piece before it and the pieces behind it.
pub proof fn lemma_split(text: Seq<char>, sep: char, at: int)
    requires
        0 <= at <= text.len(),
        forall|i: int| 0 <= i < at ==> text[i] != sep,
        at < text.len() ==> text[at] == sep,
    ensures
        at == text.len() ==> split(text, sep) == seq![text],
        at < text.len() ==> split(text, sep) == seq![text.subrange(0, at)] + split(
            text.subrange(at + 1, text.len() as int),
            sep,
        ),
{
    lemma_find(text, sep, 0);
}

/// The views of a run of string slices.
pub open spec fn views(pieces: Seq<&str>) -> Seq<Seq<char>> {
    Seq::new(pieces.len(), |i: int| pieces[i]@)
}

/// Parts `text` at every `sep`.
pub fn split_at<'a>(text: &'a str, sep: char) -> (pieces: Vec<&'a str>)
    ensures
        views(pieces@) == split(text@, sep),
{
    let n = text.unicode_len();
    let mut pieces: Vec<&'a str> = Vec::new();
    let mut start: usize = 0;
    let mut i: usize = 0;
    assert(text@.subrange(0, n as int) =~= text@);
    assert(views(pieces@) + split(text@, sep) =~= split(text@, sep));
    while i < n
        invariant
            n == text@.len(),
            start <= i <= n,
            forall|k: int| start <= k < i ==> text@[k] != sep,
            split(text@, sep) == views(pieces@) + split(text@.subrange(start as int, n as int), sep),
        decreases n - i,
    {
        if text.get_char(i) == sep {
            let piece = text.substring_char(start, i);
            proof {
                let rest = text@.subrange(start as int, n as int);
                lemma_split(rest, sep, i - start);
                assert(rest.subrange(0, i - start) =~= text@.subrange(start as int, i as int));
                assert(rest.subrange(i - start + 1, rest.len() as int) =~= text@.subrange(
                    i + 1,
                    n as int,
                ));
                assert(views(pieces@.push(piece)) =~= views(pieces@) + seq![piece@]);
            }
            pieces.push(piece);
            start = i + 1;
        }
        i += 1;
    }
    let piece = text.substring_char(start, n);
    proof {
        let rest = text@.subrange(start as int, n as int);
        lemma_split(rest, sep, n - start);
        assert(views(pieces@.push(piece)) =~= views(pieces@) + seq![piece@]);
    }
    pieces.push(piece);
    pieces
}

/// Whether two texts are the same.
pub fn same_text(a: &str, b: &str) -> (same: bool)
    ensures
        same == (a@ == b@),
{
    a.to_owned() == b.to_owned()
}

/// What `u32::from_str_radix` makes of a text in base 16: the number it
/// writes, if it writes one that fits.
pub uninterp spec fn hex_u32(text: Seq<char>) -> Option<u32>;

/// `u32::from_str_radix` in base 16: the number that the text writes in
/// hexadecimal digits, or nothing where the text writes none that fits.
#[verifier::external_body]
pub(crate) fn parse_hex(text: &str) -> (number: Option<u32>)
    ensures
        number == hex_u32(text@),
{
    u32::from_str_radix(text, 16).ok()
}

} // verus!
