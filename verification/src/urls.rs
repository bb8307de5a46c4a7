//! URLs and lists of URLs.

use vstd::prelude::*;

use crate::text::is_blank;
use crate::text::is_white_space;
use crate::text::line_feed_divides_lines;
use crate::text::lines;
use crate::text::starts_with;
use crate::text::text_lines;
use crate::text::text_without_line_feed_is_a_line;
use crate::text::texts;
use crate::text::trim;
use crate::text::trimmed;
use crate::text::trimming_leaves_the_core;
use crate::text::white_space_at_the_end_is_trimmed;

verus! {

/// Whether a string is taken for a URL that can be downloaded.
pub open spec fn http_url(s: Seq<char>) -> bool {
    "http://"@.is_prefix_of(s) || "https://"@.is_prefix_of(s)
}

/// Whether a string is taken for a URL that can be downloaded.
pub fn is_http_url(s: &str) -> (r: bool)
    ensures
        r == http_url(s@),
{
    starts_with(s, "http://") || starts_with(s, "https://")
}

/// The URLs among some strings, in their order.
pub open spec fn http_urls(list: Seq<Seq<char>>) -> Seq<Seq<char>> {
    list.filter(|s: Seq<char>| http_url(s))
}

proof fn lemma_http_urls_push(list: Seq<Seq<char>>, s: Seq<char>)
    ensures
        http_urls(list.push(s)) == if http_url(s) {
            http_urls(list).push(s)
        } else {
            http_urls(list)
        },
{
    reveal(Seq::filter);
    assert(list.push(s).drop_last() =~= list);
}

/// Keeps the strings that are URLs.
pub fn keep_http_urls(list: Vec<String>) -> (r: Vec<String>)
    ensures
        texts(r@) == http_urls(texts(list@)),
{
    let mut out: Vec<String> = Vec::new();
    proof {
        reveal(Seq::filter);
        assert(texts(list@.take(0)) =~= Seq::<Seq<char>>::empty());
        assert(texts(out@) =~= Seq::<Seq<char>>::empty());
    }
    let mut i: usize = 0;
    while i < list.len()
        invariant
            i <= list@.len(),
            texts(out@) == http_urls(texts(list@.take(i as int))),
        decreases list@.len() - i,
    {
        let ghost before = out@;
        if is_http_url(list[i].as_str()) {
            out.push(list[i].clone());
            assert(texts(out@) =~= texts(before).push(list@[i as int]@));
        }
        proof {
            lemma_http_urls_push(texts(list@.take(i as int)), list@[i as int]@);
            assert(texts(list@.take(i + 1)) =~= texts(list@.take(i as int)).push(
                list@[i as int]@,
            ));
        }
        i += 1;
    }
    assert(list@.take(i as int) =~= list@);
    out
}

/// The URLs that a file names: its lines, without the white space around them, as far as they are
/// URLs.
pub open spec fn urls_in_file(content: Seq<char>) -> Seq<Seq<char>> {
    http_urls(text_lines(content).map_values(|line: Seq<char>| trimmed(line)))
}

/// Takes the URLs from the content of a file, one to a line.
pub fn urls_from_file(content: &str) -> (r: Vec<String>)
    ensures
        texts(r@) == urls_in_file(content@),
{
    let all = lines(content);
    let mut bare: Vec<String> = Vec::new();
    let mut i: usize = 0;
    while i < all.len()
        invariant
            i <= all@.len(),
            bare@.len() == i,
            forall|j: int| 0 <= j < i ==> (#[trigger] bare@[j])@ == trimmed(all@[j]@),
        decreases all@.len() - i,
    {
        bare.push(trim(all[i].as_str()));
        i += 1;
    }
    assert(texts(bare@) =~= texts(all@).map_values(|line: Seq<char>| trimmed(line)));
    keep_http_urls(bare)
}

/// Whatever is kept of a list is a URL and stood in the list.
pub proof fn kept_urls_are_urls(list: Seq<Seq<char>>)
    ensures
        forall|i: int|
            0 <= i < http_urls(list).len() ==> http_url(#[trigger] http_urls(list)[i])
                && list.contains(http_urls(list)[i]),
    decreases list.len(),
{
    reveal(Seq::filter);
    if list.len() > 0 {
        let rest = list.drop_last();
        kept_urls_are_urls(rest);
        assert(list =~= rest.push(list.last()));
        lemma_http_urls_push(rest, list.last());
        assert forall|i: int| 0 <= i < http_urls(list).len() implies http_url(
            #[trigger] http_urls(list)[i],
        ) && list.contains(http_urls(list)[i]) by {
            if i < http_urls(rest).len() {
                let u = http_urls(rest)[i];
                assert(http_urls(list)[i] == u);
                let k = choose|k: int| 0 <= k < rest.len() && rest[k] == u;
                assert(list[k] == u);
            } else {
                assert(list[list.len() - 1] == list.last());
            }
        }
    }
}

/// A list that holds nothing but URLs is kept whole.
pub proof fn list_of_urls_is_kept(list: Seq<Seq<char>>)
    requires
        forall|i: int| 0 <= i < list.len() ==> http_url(#[trigger] list[i]),
    ensures
        http_urls(list) == list,
    decreases list.len(),
{
    reveal(Seq::filter);
    if list.len() > 0 {
        let rest = list.drop_last();
        assert forall|i: int| 0 <= i < rest.len() implies http_url(#[trigger] rest[i]) by {
            assert(rest[i] == list[i]);
        }
        list_of_urls_is_kept(rest);
        assert(http_url(list[list.len() - 1]));
        assert(list =~= rest.push(list.last()));
        lemma_http_urls_push(rest, list.last());
    }
}

/// No URL of a list is lost.
pub proof fn every_url_is_kept(list: Seq<Seq<char>>, i: int)
    requires
        0 <= i < list.len(),
        http_url(list[i]),
    ensures
        http_urls(list).contains(list[i]),
{
    list.lemma_filter_contains(|s: Seq<char>| http_url(s), i);
}

proof fn lemma_http_urls_of_two(a: Seq<Seq<char>>, b: Seq<Seq<char>>)
    ensures
        http_urls(a + b) == http_urls(a) + http_urls(b),
    decreases b.len(),
{
    reveal(Seq::filter);
    if b.len() == 0 {
        assert(a + b =~= a);
        assert(http_urls(a) + http_urls(b) =~= http_urls(a));
    } else {
        let rest = b.drop_last();
        lemma_http_urls_of_two(a, rest);
        assert(b =~= rest.push(b.last()));
        assert(a + b =~= (a + rest).push(b.last()));
        lemma_http_urls_push(a + rest, b.last());
        lemma_http_urls_push(rest, b.last());
        assert(http_urls(a + b) =~= http_urls(a) + http_urls(b));
    }
}

proof fn lemma_http_urls_of_one(s: Seq<char>)
    ensures
        http_urls(seq![s]) == if http_url(s) {
            seq![s]
        } else {
            Seq::empty()
        },
{
    reveal(Seq::filter);
    assert(seq![s] =~= Seq::<Seq<char>>::empty().push(s));
    lemma_http_urls_push(Seq::empty(), s);
    assert(http_urls(Seq::<Seq<char>>::empty()) =~= Seq::<Seq<char>>::empty());
    assert(Seq::<Seq<char>>::empty().push(s) =~= seq![s]);
}

/// Each string of a list is kept or dropped by itself, as often and in the order in which it comes:
/// what begins with `http://` or `https://` is kept, and nothing else.
pub proof fn strings_are_kept_one_by_one(
    before: Seq<Seq<char>>,
    s: Seq<char>,
    after: Seq<Seq<char>>,
)
    ensures
        "http://"@.is_prefix_of(s) || "https://"@.is_prefix_of(s) ==> http_urls(
            before + seq![s] + after,
        ) == http_urls(before) + seq![s] + http_urls(after),
        !"http://"@.is_prefix_of(s) && !"https://"@.is_prefix_of(s) ==> http_urls(
            before + seq![s] + after,
        ) == http_urls(before) + http_urls(after),
        http_urls(Seq::<Seq<char>>::empty()) == Seq::<Seq<char>>::empty(),
{
    reveal(Seq::filter);
    lemma_http_urls_of_one(s);
    lemma_http_urls_of_two(before, seq![s]);
    lemma_http_urls_of_two(before + seq![s], after);
    assert(http_urls(before) + Seq::<Seq<char>>::empty() =~= http_urls(before));
    assert(http_urls(Seq::<Seq<char>>::empty()) =~= Seq::<Seq<char>>::empty());
}

/// Whatever stands behind `http://` or `https://`, the whole is a URL; anything else is none.
pub proof fn url_is_told_by_its_beginning(s: Seq<char>, rest: Seq<char>)
    ensures
        http_url("http://"@ + rest),
        http_url("https://"@ + rest),
        !"http://"@.is_prefix_of(s) && !"https://"@.is_prefix_of(s) ==> !http_url(s),
{
    assert(("http://"@ + rest).take("http://"@.len() as int) =~= "http://"@);
    assert(("https://"@ + rest).take("https://"@.len() as int) =~= "https://"@);
}

/// The URL on a line, if there is one.
spec fn urls_on_line(line: Seq<char>) -> Seq<Seq<char>> {
    if http_url(trimmed(line)) {
        seq![trimmed(line)]
    } else {
        Seq::empty()
    }
}

proof fn lemma_urls_of_lines(first: Seq<char>, others: Seq<Seq<char>>)
    ensures
        http_urls((seq![first] + others).map_values(|line: Seq<char>| trimmed(line)))
            == urls_on_line(first) + http_urls(
            others.map_values(|line: Seq<char>| trimmed(line)),
        ),
{
    let bare = others.map_values(|line: Seq<char>| trimmed(line));
    assert((seq![first] + others).map_values(|line: Seq<char>| trimmed(line)) =~= seq![
        trimmed(first),
    ] + bare);
    lemma_http_urls_of_two(seq![trimmed(first)], bare);
    lemma_http_urls_of_one(trimmed(first));
}

proof fn lemma_empty_is_no_url()
    ensures
        !http_url(Seq::<char>::empty()),
{
    reveal_strlit("http://");
    reveal_strlit("https://");
}

proof fn lemma_urls_on_last_line(line: Seq<char>)
    requires
        !line.contains('\n'),
    ensures
        urls_in_file(line) == urls_on_line(line),
{
    reveal(Seq::filter);
    text_without_line_feed_is_a_line(line);
    if line.len() > 0 {
        assert(seq![line] + Seq::<Seq<char>>::empty() =~= seq![line]);
        lemma_urls_of_lines(line, Seq::empty());
        assert(Seq::<Seq<char>>::empty().map_values(|line: Seq<char>| trimmed(line))
            =~= Seq::<Seq<char>>::empty());
        assert(urls_in_file(line) =~= urls_on_line(line));
    } else {
        lemma_empty_is_no_url();
        trimming_leaves_the_core(line, line, line);
        assert(line + line + line =~= line);
        assert(line =~= Seq::<char>::empty());
        assert(text_lines(line).map_values(|line: Seq<char>| trimmed(line)) =~= Seq::<
            Seq<char>,
        >::empty());
        assert(urls_in_file(line) =~= Seq::<Seq<char>>::empty());
    }
}

proof fn lemma_urls_on_first_line(line: Seq<char>, rest: Seq<char>)
    requires
        !line.contains('\n'),
    ensures
        urls_in_file(line + seq!['\n'] + rest) == urls_on_line(line) + urls_in_file(rest),
{
    let s = line + seq!['\n'] + rest;
    if line.len() > 0 && line[line.len() - 1] == '\r' {
        let bare = line.drop_last();
        assert(!bare.contains('\n')) by {
            if bare.contains('\n') {
                let k = choose|k: int| 0 <= k < bare.len() && bare[k] == '\n';
                assert(line[k] == '\n');
            }
        }
        line_feed_divides_lines(bare, rest);
        assert(s =~= bare + seq!['\r', '\n'] + rest);
        lemma_urls_of_lines(bare, text_lines(rest));
        lemma_return_is_trimmed(bare);
        assert(bare + seq!['\r'] =~= line);
    } else {
        line_feed_divides_lines(line, rest);
        lemma_urls_of_lines(line, text_lines(rest));
    }
}

/// A file is read line by line: the URLs of two texts with a line feed between them are those of
/// the first and then those of the second.
pub proof fn file_is_read_line_by_line(first: Seq<char>, second: Seq<char>)
    ensures
        urls_in_file(first + seq!['\n'] + second) == urls_in_file(first) + urls_in_file(second),
    decreases first.len(),
{
    if first.contains('\n') {
        let k = first.index_of_first('\n')->0;
        first.index_of_first_ensures('\n');
        let line = first.take(k);
        let rest = first.skip(k + 1);
        assert(!line.contains('\n')) by {
            if line.contains('\n') {
                let j = choose|j: int| 0 <= j < line.len() && line[j] == '\n';
                assert(first[j] == '\n');
            }
        }
        assert(first =~= line + seq!['\n'] + rest);
        file_is_read_line_by_line(rest, second);
        lemma_urls_on_first_line(line, rest);
        let tail = rest + seq!['\n'] + second;
        lemma_urls_on_first_line(line, tail);
        assert(first + seq!['\n'] + second =~= line + seq!['\n'] + tail);
        assert(urls_in_file(first + seq!['\n'] + second) =~= urls_in_file(first) + urls_in_file(
            second,
        ));
    } else {
        lemma_urls_on_first_line(first, second);
        lemma_urls_on_last_line(first);
    }
}

/// A line names a URL exactly if it is one but for the white space around it.
pub proof fn line_names_the_url_on_it(before: Seq<char>, core: Seq<char>, after: Seq<char>)
    requires
        is_blank(before),
        is_blank(after),
        core.len() > 0 ==> !is_white_space(core[0]) && !is_white_space(core[core.len() - 1]),
        !(before + core + after).contains('\n'),
    ensures
        "http://"@.is_prefix_of(core) || "https://"@.is_prefix_of(core) ==> urls_in_file(
            before + core + after,
        ) == seq![core],
        !"http://"@.is_prefix_of(core) && !"https://"@.is_prefix_of(core) ==> urls_in_file(
            before + core + after,
        ) == Seq::<Seq<char>>::empty(),
{
    lemma_urls_on_last_line(before + core + after);
    trimming_leaves_the_core(before, core, after);
}

/// No URL of a file is lost, doubled or moved: a line that is one but for the white space around it
/// stands in the result between the URLs of what comes before the line and of what comes behind it.
pub proof fn no_url_of_a_file_is_lost(
    head: Seq<char>,
    before: Seq<char>,
    url: Seq<char>,
    after: Seq<char>,
    tail: Seq<char>,
)
    requires
        head.len() > 0 ==> head[head.len() - 1] == '\n',
        tail.len() > 0 ==> tail[0] == '\n',
        is_blank(before),
        is_blank(after),
        "http://"@.is_prefix_of(url) || "https://"@.is_prefix_of(url),
        !is_white_space(url[url.len() - 1]),
        !(before + url + after).contains('\n'),
    ensures
        urls_in_file(head + before + url + after + tail) == urls_in_file(head) + seq![url]
            + urls_in_file(tail),
{
    let line = before + url + after;
    let none = Seq::<char>::empty();
    reveal_strlit("http://");
    reveal_strlit("https://");
    assert(url[0] == 'h') by {
        if "http://"@.is_prefix_of(url) {
            assert(url[0] == "http://"@[0]);
        } else {
            assert(url[0] == "https://"@[0]);
        }
    }
    line_names_the_url_on_it(before, url, after);
    lemma_empty_file();
    let lower = line + tail;
    if tail.len() > 0 {
        let rest = tail.skip(1);
        assert(tail =~= none + seq!['\n'] + rest);
        assert(lower =~= line + seq!['\n'] + rest);
        file_is_read_line_by_line(line, rest);
        file_is_read_line_by_line(none, rest);
        assert(urls_in_file(tail) =~= urls_in_file(rest));
    } else {
        assert(tail =~= none);
        assert(lower =~= line);
    }
    assert(urls_in_file(lower) =~= seq![url] + urls_in_file(tail));
    let whole = head + before + url + after + tail;
    assert(whole =~= head + lower);
    if head.len() > 0 {
        let upper = head.drop_last();
        assert(head =~= upper + seq!['\n'] + none);
        assert(whole =~= upper + seq!['\n'] + lower);
        file_is_read_line_by_line(upper, lower);
        file_is_read_line_by_line(upper, none);
        assert(urls_in_file(head) =~= urls_in_file(upper));
    } else {
        assert(head =~= none);
        assert(whole =~= lower);
    }
    assert(urls_in_file(whole) =~= urls_in_file(head) + seq![url] + urls_in_file(tail));
}

proof fn lemma_empty_file()
    ensures
        urls_in_file(Seq::empty()) == Seq::<Seq<char>>::empty(),
{
    let none = Seq::<char>::empty();
    lemma_urls_on_last_line(none);
    trimming_leaves_the_core(none, none, none);
    assert(none + none + none =~= none);
    lemma_empty_is_no_url();
}

proof fn lemma_return_is_trimmed(s: Seq<char>)
    ensures
        trimmed(s + seq!['\r']) == trimmed(s),
{
    white_space_at_the_end_is_trimmed(s, seq!['\r']);
}

} // verus!
