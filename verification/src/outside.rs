//! Calls into other crates and into parts of the standard library that carry no contract of
//! their own. What is claimed of each of them is taken on trust.

use vstd::prelude::*;
use vstd::utf8::decode_utf8;
use vstd::utf8::valid_utf8;

use crate::text::occurs_in;
use crate::text::optional_text;
use crate::text::texts;

verus! {

/// What `Url::parse` and `Url::path_segments` make of a string: the parts of the path, where the
/// URL has a path of parts, or the text of the error with which parsing ends.
pub uninterp spec fn url_path_segments(url: Seq<char>) -> Result<Option<Seq<Seq<char>>>, Seq<char>>;

/// The characters in the result of [`parse_url`].
pub open spec fn segments_view(r: Result<Option<Vec<String>>, String>) -> Result<
    Option<Seq<Seq<char>>>,
    Seq<char>,
> {
    match r {
        Ok(Some(parts)) => Ok(Some(texts(parts@))),
        Ok(None) => Ok(None),
        Err(e) => Err(e@),
    }
}

/// `url::Url::parse`, followed by `Url::path_segments` on its success and by the error's `Display`
/// on its failure. The outcome depends on the string alone.
#[verifier::external_body]
pub(crate) fn parse_url(url: &str) -> (r: Result<Option<Vec<String>>, String>)
    ensures
        segments_view(r) == url_path_segments(url@),
{
    match url::Url::parse(url) {
        Ok(parsed) => Ok(parsed.path_segments().map(|parts| parts.map(String::from).collect())),
        Err(e) => Err(e.to_string()),
    }
}

/// What `Regex::new` and `Regex::captures` make of a pattern and a text: nothing where the pattern
/// is not accepted, no groups where the text does not match, or else the text of each group, in
/// the order of the opening brackets, from group zero on.
pub uninterp spec fn regex_captures(pattern: Seq<char>, text: Seq<char>) -> Option<
    Option<Seq<Option<Seq<char>>>>,
>;

/// The characters in the result of [`capture_groups`].
pub open spec fn captures_view(r: Option<Option<Vec<Option<String>>>>) -> Option<
    Option<Seq<Option<Seq<char>>>>,
> {
    match r {
        Some(Some(groups)) => Some(
            Some(groups@.map_values(|g: Option<String>| optional_text(g))),
        ),
        Some(None) => Some(None),
        None => None,
    }
}

/// `regex::Regex::new`, followed by `Regex::captures` and `Captures::iter`. The outcome depends on
/// the pattern and the text alone. What a group matched is a part of the text.
#[verifier::external_body]
pub(crate) fn capture_groups(pattern: &str, text: &str) -> (r: Option<Option<Vec<Option<String>>>>)
    ensures
        captures_view(r) == regex_captures(pattern@, text@),
        r matches Some(Some(groups)) ==> forall|i: int|
            0 <= i < groups@.len() ==> (#[trigger] groups@[i] matches Some(g) ==> occurs_in(
                g@,
                text@,
            )),
{
    let compiled = regex::Regex::new(pattern).ok()?;
    Some(
        compiled.captures(text).map(
            |groups| groups.iter().map(|g| g.map(|m| m.as_str().to_string())).collect(),
        ),
    )
}

/// The value of a hexadecimal digit.
pub open spec fn hex_value(b: u8) -> Option<int> {
    if 48 <= b <= 57 {
        Some(b - 48)
    } else if 65 <= b <= 70 {
        Some(b - 55)
    } else if 97 <= b <= 102 {
        Some(b - 87)
    } else {
        None
    }
}

/// Bytes with each percent sign that two hexadecimal digits follow replaced by the byte that the
/// digits stand for.
pub open spec fn percent_decoded(bytes: Seq<u8>) -> Seq<u8>
    decreases bytes.len(),
{
    if bytes.len() == 0 {
        bytes
    } else if bytes[0] == 37 && bytes.len() >= 3 && hex_value(bytes[1]) is Some && hex_value(
        bytes[2],
    ) is Some {
        seq![(16 * hex_value(bytes[1])->0 + hex_value(bytes[2])->0) as u8] + percent_decoded(
            bytes.skip(3),
        )
    } else {
        seq![bytes[0]] + percent_decoded(bytes.skip(1))
    }
}

/// `percent_encoding::percent_decode`, followed by `PercentDecode::decode_utf8`: the decoded bytes
/// as a string where they are well-formed UTF-8, and nothing otherwise.
#[verifier::external_body]
pub(crate) fn percent_decode_text(bytes: &[u8]) -> (r: Option<String>)
    ensures
        r is Some <==> valid_utf8(percent_decoded(bytes@)),
        r matches Some(s) ==> s@ == decode_utf8(percent_decoded(bytes@)),
{
    percent_encoding::percent_decode(bytes).decode_utf8().ok().map(|s| s.into_owned())
}

/// What `StatusCode::from_u16` and the `Display` of `StatusCode` make of a number: the number with
/// the phrase that stands for it, or nothing where the number is no status.
pub uninterp spec fn status_line(code: u16) -> Option<Seq<char>>;

/// `reqwest::StatusCode::from_u16`, followed by the `Display` of `StatusCode`. The outcome depends
/// on the number alone. A status has three digits and does not begin with zero.
#[verifier::external_body]
pub(crate) fn status_text(code: u16) -> (r: Option<String>)
    ensures
        optional_text(r) == status_line(code),
        r is Some <==> 100 <= code <= 999,
{
    reqwest::StatusCode::from_u16(code).ok().map(|status| status.to_string())
}

/// What `str::to_lowercase` makes of a string.
pub uninterp spec fn lowercased(s: Seq<char>) -> Seq<char>;

/// The lower-case letter for an upper-case letter of ASCII; any other character is unchanged.
pub open spec fn ascii_lower(c: char) -> char {
    if 'A' <= c <= 'Z' {
        (c as u32 + 32) as char
    } else {
        c
    }
}

/// A character in lower case, by itself. Of ASCII the letters `A` to `Z` change and nothing else.
pub open spec fn lower_char(c: char) -> Seq<char> {
    if (c as u32) < 128 {
        seq![ascii_lower(c)]
    } else {
        lowercased(seq![c])
    }
}

/// A text in lower case, character by character.
pub open spec fn in_lower_case(s: Seq<char>) -> Seq<char>
    decreases s.len(),
{
    if s.len() == 0 {
        s
    } else {
        in_lower_case(s.drop_last()) + lower_char(s.last())
    }
}

/// Whether two texts are the same, but that the first may have the final small sigma where the
/// second has the common one.
pub open spec fn same_but_for_sigma(a: Seq<char>, b: Seq<char>) -> bool {
    &&& a.len() == b.len()
    &&& forall|i: int|
        0 <= i < a.len() ==> (#[trigger] a[i] == b[i] || (a[i] == '\u{3c2}' && b[i] == '\u{3c3}'))
}

/// `str::to_lowercase`: the string with each character replaced by its lower-case equivalent, which
/// the rest of the string does not change. The one exception is the capital sigma: by itself it
/// becomes the common small sigma, at the end of a word the final one. Of where a word ends nothing
/// is said beyond the name of the result.
#[verifier::external_body]
pub(crate) fn to_lowercase(s: &str) -> (r: String)
    ensures
        r@ == lowercased(s@),
        same_but_for_sigma(r@, in_lower_case(s@)),
{
    s.to_lowercase()
}

/// The position of the last slash, or -1.
pub open spec fn last_slash(path: Seq<char>) -> int
    decreases path.len(),
{
    if path.len() == 0 {
        -1
    } else if path.last() == '/' {
        path.len() - 1
    } else {
        last_slash(path.drop_last())
    }
}

proof fn lemma_last_slash(path: Seq<char>)
    ensures
        -1 <= last_slash(path) < path.len(),
    decreases path.len(),
{
    if path.len() > 0 && path.last() != '/' {
        lemma_last_slash(path.drop_last());
    }
}

/// The final component of a path whose parts are divided by slashes: the last part that is neither
/// empty nor `.`, unless it is `..`.
pub open spec fn final_component(path: Seq<char>) -> Option<Seq<char>>
    decreases path.len(),
    via final_component_decreases
{
    let cut = last_slash(path);
    let part = path.skip(cut + 1);
    if part.len() == 0 || part == seq!['.'] {
        if cut < 0 {
            None
        } else {
            final_component(path.take(cut))
        }
    } else if part == seq!['.', '.'] {
        None
    } else {
        Some(part)
    }
}

#[via_fn]
proof fn final_component_decreases(path: Seq<char>) {
    lemma_last_slash(path);
}

/// Whether a path has the same components on every platform: it holds no backslash and begins
/// neither with a drive letter and a colon nor with two slashes.
pub open spec fn portable_path(path: Seq<char>) -> bool {
    !path.contains('\\') && !has_prefix(path)
}

/// Whether a character divides the parts of a path on some platform.
pub open spec fn is_divider(c: char) -> bool {
    c == '/' || c == '\\'
}

/// Whether a path may begin with a prefix on some platform: with a drive letter and a colon, or
/// with two dividers.
pub open spec fn has_prefix(path: Seq<char>) -> bool {
    path.len() >= 2 && (path[1] == ':' || (is_divider(path[0]) && is_divider(path[1])))
}

/// A path with its backslashes turned into slashes.
pub open spec fn slashed(path: Seq<char>) -> Seq<char> {
    path.map_values(
        |c: char|
            if c == '\\' {
                '/'
            } else {
                c
            },
    )
}

/// What may come back as the file name of a path. Without a prefix a path has two readings: slashes
/// divide its parts, or slashes and backslashes do.
pub open spec fn possible_file_name(path: Seq<char>, name: Option<Seq<char>>) -> bool {
    &&& !has_prefix(path) ==> name == final_component(path) || name == final_component(
        slashed(path),
    )
    &&& name matches Some(n) ==> n.len() > 0 && occurs_in(n, path)
}

/// `std::path::Path::file_name`: the final component of a path. The parts of a path are divided by
/// slashes or, on some platforms, by slashes and backslashes; the two readings agree on a path
/// without backslashes. Of a path that may begin with a platform's prefix the result is a part.
#[verifier::external_body]
pub(crate) fn path_file_name(path: &str) -> (r: Option<String>)
    ensures
        possible_file_name(path@, optional_text(r)),
{
    std::path::Path::new(path).file_name().map(|name| name.to_string_lossy().into_owned())
}

} // verus!
