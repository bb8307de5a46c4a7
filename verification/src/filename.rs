//! The name under which a downloaded file is stored.

use vstd::prelude::*;
use vstd::utf8::decode_utf8;
use vstd::utf8::valid_utf8;

use crate::outside::capture_groups;
use crate::outside::captures_view;
use crate::outside::final_component;
use crate::outside::has_prefix;
use crate::outside::last_slash;
use crate::outside::parse_url;
use crate::outside::path_file_name;
use crate::outside::percent_decode_text;
use crate::outside::percent_decoded;
use crate::outside::portable_path;
use crate::outside::possible_file_name;
use crate::outside::regex_captures;
use crate::outside::segments_view;
use crate::outside::slashed;
use crate::outside::url_path_segments;
use crate::text::characters;
use crate::text::occurs_in;
use crate::text::optional_text;
use crate::urls::http_url;

verus! {

/// The name of a file for which no other name is found.
pub const DEFAULT_NAME: &'static str = "default_filename";

/// The name of the transferred file where the URL has no path of segments.
pub const UNKNOWN_TEMP_NAME: &'static str = "unknown_temp_file";

/// The pattern of the `filename` parameter in a `Content-Disposition` header. Its first group is a
/// quoted name, its second group a bare one.
pub const DISPOSITION_PATTERN: &'static str =
    "filename(?:\\*)?=(?:\"([^\"]+)\"|([^;\\s]+))(?:;.*)?$";

/// Whether a character is one of the nine that are not left in a file name.
pub open spec fn forbidden(c: char) -> bool {
    c == '\\' || c == '/' || c == ':' || c == '*' || c == '?' || c == '"' || c == '<' || c == '>'
        || c == '|'
}

/// `s` without the semicolons at its end.
pub open spec fn without_semicolons(s: Seq<char>) -> Seq<char>
    decreases s.len(),
{
    if s.len() > 0 && s.last() == ';' {
        without_semicolons(s.drop_last())
    } else {
        s
    }
}

/// An underscore for a forbidden character; any other character is unchanged.
pub open spec fn underscored(c: char) -> char {
    if forbidden(c) {
        '_'
    } else {
        c
    }
}

/// The file name made of a name that somebody else chose: no semicolons at the end, no forbidden
/// characters, and not empty.
pub open spec fn sanitized(name: Seq<char>) -> Seq<char> {
    let kept = without_semicolons(name).map_values(|c: char| underscored(c));
    if kept.len() == 0 {
        DEFAULT_NAME@
    } else {
        kept
    }
}

/// Whether a name is not empty, holds none of the nine forbidden characters and does not end with a
/// semicolon.
pub open spec fn clean_name(name: Seq<char>) -> bool {
    &&& name.len() > 0
    &&& name.last() != ';'
    &&& forall|i: int| 0 <= i < name.len() ==> !forbidden(#[trigger] name[i])
}

fn is_forbidden(c: char) -> (r: bool)
    ensures
        r == forbidden(c),
{
    c == '\\' || c == '/' || c == ':' || c == '*' || c == '?' || c == '"' || c == '<' || c == '>'
        || c == '|'
}

/// Turns a name that somebody else chose into a clean one.
pub fn sanitize(name: &str) -> (r: String)
    ensures
        r@ == sanitized(name@),
{
    let chars = characters(name);
    let mut end: usize = chars.len();
    assert(chars@.take(end as int) =~= name@);
    while end > 0 && chars[end - 1] == ';'
        invariant
            end <= chars@.len(),
            without_semicolons(name@) == without_semicolons(chars@.take(end as int)),
        decreases end,
    {
        assert(chars@.take(end as int).drop_last() =~= chars@.take(end - 1));
        end -= 1;
    }
    let ghost kept = without_semicolons(name@);
    assert(kept == chars@.take(end as int));
    if end == 0 {
        return DEFAULT_NAME.to_owned();
    }
    let mut out = String::new();
    let mut i: usize = 0;
    while i < end
        invariant
            i <= end <= chars@.len(),
            out@ == chars@.take(i as int).map_values(|c: char| underscored(c)),
        decreases end - i,
    {
        if is_forbidden(chars[i]) {
            out.push('_');
        } else {
            out.push(chars[i]);
        }
        assert(out@ =~= chars@.take(i + 1).map_values(|c: char| underscored(c)));
        i += 1;
    }
    out
}

/// A name, or the default where there is none.
pub open spec fn or_default(name: Option<Seq<char>>) -> Seq<char> {
    match name {
        Some(n) => n,
        None => DEFAULT_NAME@,
    }
}

/// The last segment of a URL's path, where the URL could be parsed and has segments.
pub open spec fn last_segment_of(parsed: Result<Option<Seq<Seq<char>>>, Seq<char>>) -> Option<
    Seq<char>,
> {
    match parsed {
        Ok(Some(parts)) => if parts.len() > 0 {
            Some(parts.last())
        } else {
            None
        },
        _ => None,
    }
}

/// Takes the last segment out of a parsed URL.
pub fn last_segment(parsed: &Result<Option<Vec<String>>, String>) -> (r: Option<String>)
    ensures
        optional_text(r) == last_segment_of(segments_view(*parsed)),
{
    match parsed {
        Ok(Some(parts)) => {
            if parts.len() > 0 {
                Some(parts[parts.len() - 1].clone())
            } else {
                None
            }
        },
        _ => None,
    }
}

/// The name that a URL's path ends with.
pub open spec fn segment_name(url: Seq<char>) -> Seq<char> {
    or_default(last_segment_of(url_path_segments(url)))
}

/// Takes the file name from the path of a URL, without asking the server.
pub fn name_from_url(url: &str) -> (r: String)
    ensures
        r@ == segment_name(url@),
{
    let parsed = parse_url(url);
    match last_segment(&parsed) {
        Some(name) => name,
        None => DEFAULT_NAME.to_owned(),
    }
}

/// The name among the groups that [`DISPOSITION_PATTERN`] captured: the quoted one or, failing
/// that, the bare one.
pub open spec fn chosen_group(captured: Option<Option<Seq<Option<Seq<char>>>>>) -> Option<
    Seq<char>,
> {
    match captured {
        Some(Some(groups)) => if groups.len() > 1 && groups[1] is Some {
            groups[1]
        } else if groups.len() > 2 {
            groups[2]
        } else {
            None
        },
        _ => None,
    }
}

/// Takes the name out of the captured groups.
pub fn name_from_groups(captured: &Option<Option<Vec<Option<String>>>>) -> (r: Option<String>)
    ensures
        optional_text(r) == chosen_group(captures_view(*captured)),
{
    match captured {
        Some(Some(groups)) => {
            let ghost all = groups@.map_values(|g: Option<String>| optional_text(g));
            if groups.len() > 1 {
                assert(all[1] == optional_text(groups@[1]));
                if let Some(name) = &groups[1] {
                    return Some(name.clone());
                }
            }
            if groups.len() > 2 {
                assert(all[2] == optional_text(groups@[2]));
                if let Some(name) = &groups[2] {
                    return Some(name.clone());
                }
            }
            None
        },
        _ => None,
    }
}

/// A `Content-Disposition` header as text: percent-decoded, or empty where that gives no UTF-8.
pub open spec fn disposition_text(header: Seq<u8>) -> Seq<char> {
    if valid_utf8(percent_decoded(header)) {
        decode_utf8(percent_decoded(header))
    } else {
        Seq::empty()
    }
}

/// The file name that a `Content-Disposition` header gives.
pub open spec fn disposition_name(header: Seq<u8>) -> Option<Seq<char>> {
    chosen_group(regex_captures(DISPOSITION_PATTERN@, disposition_text(header)))
}

/// Takes the file name from a `Content-Disposition` header. The name is a part of the header's
/// text.
pub fn name_from_disposition(header: &[u8]) -> (r: Option<String>)
    ensures
        optional_text(r) == disposition_name(header@),
        r matches Some(name) ==> occurs_in(name@, disposition_text(header@)),
{
    let decoded = match percent_decode_text(header) {
        Some(text) => text,
        None => String::new(),
    };
    let captured = capture_groups(DISPOSITION_PATTERN, decoded.as_str());
    let name = name_from_groups(&captured);
    proof {
        if name is Some {
            let groups = captured->0->0;
            let all = groups@.map_values(|g: Option<String>| optional_text(g));
            let k: int = if groups@.len() > 1 && groups@[1] is Some {
                1
            } else {
                2
            };
            assert(all[k] == optional_text(groups@[k]));
            assert(groups@.len() > 1 ==> all[1] == optional_text(groups@[1]));
        }
    }
    name
}

/// The two readings of a path are one where it holds no backslash.
pub proof fn one_reading_without_backslashes(path: Seq<char>)
    requires
        !path.contains('\\'),
    ensures
        slashed(path) == path,
{
    assert(slashed(path) =~= path);
}

/// Takes the file name from a URL read as a path.
pub fn name_from_path(url: &str) -> (r: String)
    ensures
        exists|name: Option<Seq<char>>| #[trigger]
            possible_file_name(url@, name) && r@ == or_default(name),
        !has_prefix(url@) ==> r@ == or_default(final_component(url@)) || r@ == or_default(
            final_component(slashed(url@)),
        ),
        portable_path(url@) ==> r@ == or_default(final_component(url@)),
{
    let name = path_file_name(url);
    assert(possible_file_name(url@, optional_text(name)));
    proof {
        if portable_path(url@) {
            one_reading_without_backslashes(url@);
        }
    }
    match name {
        Some(n) => n,
        None => DEFAULT_NAME.to_owned(),
    }
}

/// The file name of an HTTP URL is the final component of its path in one of the two readings, and
/// in the only one where the URL holds no backslash.
pub proof fn url_is_read_in_one_of_two_ways(url: Seq<char>, name: Option<Seq<char>>)
    requires
        http_url(url),
        possible_file_name(url, name),
    ensures
        name == final_component(url) || name == final_component(slashed(url)),
        !url.contains('\\') ==> name == final_component(url),
{
    reveal_strlit("http://");
    reveal_strlit("https://");
    if "http://"@.is_prefix_of(url) {
        assert(url[0] == "http://"@[0]);
        assert(url[1] == "http://"@[1]);
    } else {
        assert(url[0] == "https://"@[0]);
        assert(url[1] == "https://"@[1]);
    }
    if !url.contains('\\') {
        one_reading_without_backslashes(url);
    }
}

/// Makes the file name of the one that the server gives or, failing that, of another.
pub fn file_name_for(given: Option<String>, fallback: String) -> (r: String)
    ensures
        r@ == sanitized(
            match given {
                Some(name) => name@,
                None => fallback@,
            },
        ),
{
    match given {
        Some(name) => sanitize(name.as_str()),
        None => sanitize(fallback.as_str()),
    }
}

/// Where a path ends with a slash and a plain name, that name is its final component.
pub proof fn last_part_is_final_component(folder: Seq<char>, name: Seq<char>)
    requires
        name.len() > 0,
        !name.contains('/'),
        name != seq!['.'],
        name != seq!['.', '.'],
    ensures
        final_component(folder.push('/') + name) == Some(name),
{
    let path = folder.push('/') + name;
    lemma_last_slash_before_name(folder, name);
    assert(path.skip(folder.len() as int + 1) =~= name);
}

proof fn lemma_last_slash_before_name(folder: Seq<char>, name: Seq<char>)
    requires
        !name.contains('/'),
    ensures
        last_slash(folder.push('/') + name) == folder.len(),
    decreases name.len(),
{
    let path = folder.push('/') + name;
    if name.len() == 0 {
        assert(path =~= folder.push('/'));
    } else {
        assert(path.last() == name.last());
        assert(name.contains(name.last()));
        let shorter = name.drop_last();
        assert(path.drop_last() =~= folder.push('/') + shorter);
        assert(!shorter.contains('/')) by {
            if shorter.contains('/') {
                let k = choose|k: int| 0 <= k < shorter.len() && shorter[k] == '/';
                assert(name[k] == '/');
            }
        }
        lemma_last_slash_before_name(folder, shorter);
    }
}

/// A sanitized name is clean, whatever it was made of.
pub proof fn sanitized_name_is_clean(name: Seq<char>)
    ensures
        clean_name(sanitized(name)),
{
    lemma_without_semicolons(name);
    reveal_strlit("default_filename");
}

proof fn lemma_without_semicolons(s: Seq<char>)
    ensures
        without_semicolons(s).len() > 0 ==> without_semicolons(s).last() != ';',
        without_semicolons(s).is_prefix_of(s),
    decreases s.len(),
{
    if s.len() > 0 && s.last() == ';' {
        lemma_without_semicolons(s.drop_last());
    }
}

/// A clean name stays as it is.
pub proof fn clean_name_is_kept(name: Seq<char>)
    requires
        clean_name(name),
    ensures
        sanitized(name) == name,
{
    assert(name.map_values(|c: char| underscored(c)) =~= name);
}

/// Sanitizing twice is sanitizing once.
pub proof fn sanitizing_twice_is_sanitizing_once(name: Seq<char>)
    ensures
        sanitized(sanitized(name)) == sanitized(name),
{
    sanitized_name_is_clean(name);
    clean_name_is_kept(sanitized(name));
}

proof fn lemma_semicolons_go(stem: Seq<char>, tail: Seq<char>)
    requires
        stem.len() == 0 || stem[stem.len() - 1] != ';',
        forall|i: int| 0 <= i < tail.len() ==> #[trigger] tail[i] == ';',
    ensures
        without_semicolons(stem + tail) == stem,
    decreases tail.len(),
{
    if tail.len() == 0 {
        assert(stem + tail =~= stem);
    } else {
        let rest = tail.drop_last();
        assert forall|i: int| 0 <= i < rest.len() implies #[trigger] rest[i] == ';' by {
            assert(rest[i] == tail[i]);
        }
        lemma_semicolons_go(stem, rest);
        assert(tail[tail.len() - 1] == ';');
        assert((stem + tail).last() == ';');
        assert((stem + tail).drop_last() =~= stem + rest);
    }
}

/// Sanitizing drops the semicolons at the end and then goes character by character: each of the
/// nine characters `\ / : * ? " < > |` becomes an underscore, every other one stays, and none is
/// added or lost.
pub proof fn sanitizing_goes_character_by_character(stem: Seq<char>, tail: Seq<char>)
    requires
        stem.len() > 0,
        stem[stem.len() - 1] != ';',
        forall|i: int| 0 <= i < tail.len() ==> #[trigger] tail[i] == ';',
    ensures
        sanitized(stem + tail).len() == stem.len(),
        forall|i: int|
            #![trigger sanitized(stem + tail)[i]]
            0 <= i < stem.len() ==> {
                &&& "\\/:*?\"<>|"@.contains(stem[i]) ==> sanitized(stem + tail)[i] == '_'
                &&& !"\\/:*?\"<>|"@.contains(stem[i]) ==> sanitized(stem + tail)[i] == stem[i]
            },
{
    lemma_semicolons_go(stem, tail);
    reveal_strlit("\\/:*?\"<>|");
    let nine = "\\/:*?\"<>|"@;
    assert(nine[0] == '\\' && nine[1] == '/' && nine[2] == ':' && nine[3] == '*' && nine[4] == '?'
        && nine[5] == '"' && nine[6] == '<' && nine[7] == '>' && nine[8] == '|');
    assert forall|c: char| forbidden(c) == #[trigger] nine.contains(c) by {
        if nine.contains(c) {
            let k = choose|k: int| 0 <= k < nine.len() && nine[k] == c;
            assert(nine[k] == c);
        }
    }
}

/// A name that is nothing but semicolons leaves the default.
pub proof fn nothing_leaves_the_default_name(semicolons: Seq<char>)
    requires
        forall|i: int| 0 <= i < semicolons.len() ==> #[trigger] semicolons[i] == ';',
    ensures
        sanitized(semicolons) == "default_filename"@,
{
    lemma_semicolons_go(Seq::empty(), semicolons);
    assert(Seq::<char>::empty() + semicolons =~= semicolons);
}

/// The name that a URL ends with is the last part of its path. Without parts, or where the URL
/// cannot be parsed, it is the default.
pub proof fn last_part_names_the_file(url: Seq<char>)
    ensures
        forall|parts: Seq<Seq<char>>, part: Seq<char>|
            url_path_segments(url) == Ok::<_, Seq<char>>(Some(#[trigger] parts.push(part)))
                ==> segment_name(url) == part,
        url_path_segments(url) is Err ==> segment_name(url) == "default_filename"@,
        url_path_segments(url) == Ok::<Option<Seq<Seq<char>>>, Seq<char>>(None) ==> segment_name(
            url,
        ) == "default_filename"@,
        url_path_segments(url) == Ok::<_, Seq<char>>(Some(Seq::<Seq<char>>::empty()))
            ==> segment_name(url) == "default_filename"@,
{
}

/// Of the captured groups the first names the file, and the second where the first caught nothing.
pub proof fn quoted_name_comes_before_bare_name(
    whole: Option<Seq<char>>,
    quoted: Option<Seq<char>>,
    bare: Option<Seq<char>>,
)
    ensures
        quoted is Some ==> chosen_group(Some(Some(seq![whole, quoted, bare]))) == quoted,
        quoted is None ==> chosen_group(Some(Some(seq![whole, quoted, bare]))) == bare,
        chosen_group(Some(None)) is None,
        chosen_group(None) is None,
{
}

/// A header names the file by what the pattern captures in its percent-decoded text: the quoted
/// name or, failing that, the bare one. What does not match gives no name.
pub proof fn header_names_what_the_pattern_captures(header: Seq<u8>, text: Seq<char>)
    requires
        valid_utf8(percent_decoded(header)) ==> text == decode_utf8(percent_decoded(header)),
        !valid_utf8(percent_decoded(header)) ==> text == Seq::<char>::empty(),
    ensures
        ({
            let captured = regex_captures(
                "filename(?:\\*)?=(?:\"([^\"]+)\"|([^;\\s]+))(?:;.*)?$"@,
                text,
            );
            &&& captured matches Some(Some(groups)) ==> (groups.len() > 2 ==> disposition_name(
                header,
            ) == if groups[1] is Some {
                groups[1]
            } else {
                groups[2]
            })
            &&& !(captured matches Some(Some(_))) ==> disposition_name(header) is None
        }),
{
}

} // verus!
