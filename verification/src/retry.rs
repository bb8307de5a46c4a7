//! Which failures are worth another attempt, and how many attempts there are.

use vstd::prelude::*;
use vstd::utf8::is_ascii_chars;

use crate::outside::ascii_lower;
use crate::outside::in_lower_case;
use crate::outside::lower_char;
use crate::outside::same_but_for_sigma;
use crate::outside::to_lowercase;
use crate::text::contains;
use crate::text::occurs_at;
use crate::text::occurs_in;

verus! {

/// How often an operation is tried again after its first attempt.
pub const MAX_RETRIES: u8 = 3;

/// The pause before another attempt, in seconds.
pub const RETRY_DELAY_SECS: u64 = 2;

/// What the HTTP client says of a request that failed.
#[derive(Clone, Copy, Debug, PartialEq, Eq, Structural)]
pub struct NetworkFault {
    /// No connection could be made.
    pub connect: bool,
    /// The time limit passed.
    pub timeout: bool,
    /// The request could not be sent.
    pub request: bool,
}

impl NetworkFault {
    /// Whether the same request may well succeed later.
    pub open spec fn passing(self) -> bool {
        self.connect || self.timeout || self.request
    }

    /// Whether the same request may well succeed later.
    pub fn is_passing(&self) -> (r: bool)
        ensures
            r == self.passing(),
    {
        self.connect || self.timeout || self.request
    }
}

/// A failed operation: its error text and, where the HTTP client raised the error, what the client
/// says of it.
#[derive(Debug)]
pub struct Failure {
    pub message: String,
    pub network: Option<NetworkFault>,
}

/// The content of a [`Failure`].
#[verifier::ext_equal]
pub struct FailureView {
    pub message: Seq<char>,
    pub network: Option<NetworkFault>,
}

impl View for Failure {
    type V = FailureView;

    open spec fn view(&self) -> FailureView {
        FailureView { message: self.message@, network: self.network }
    }
}

/// Whether an error text, in lower case, tells of a fault of the network.
pub open spec fn names_network_fault(lowered: Seq<char>) -> bool {
    ||| occurs_in("error sending request"@, lowered)
    ||| occurs_in("connection"@, lowered)
    ||| occurs_in("timeout"@, lowered)
    ||| occurs_in("dns"@, lowered)
}

/// Whether a failed operation is worth another attempt: its text tells of a fault of the network
/// in upper or lower case, or the HTTP client says so.
pub open spec fn retryable(e: FailureView) -> bool {
    ||| names_network_fault(in_lower_case(e.message))
    ||| e.network matches Some(fault) && fault.passing()
}

/// Whether another attempt follows attempt number `attempt`, the first one being number one.
pub open spec fn attempts_left(attempt: int) -> bool {
    attempt <= MAX_RETRIES
}

/// Decides on an error text that is in lower case already.
pub fn tells_of_network_fault(lowered: &str) -> (r: bool)
    ensures
        r == names_network_fault(lowered@),
{
    contains(lowered, "error sending request") || contains(lowered, "connection") || contains(
        lowered,
        "timeout",
    ) || contains(lowered, "dns")
}

/// Decides whether a failed operation is worth another attempt.
pub fn is_retryable_error(e: &Failure) -> (r: bool)
    ensures
        r == retryable(e@),
{
    let lowered = to_lowercase(e.message.as_str());
    proof {
        lemma_sigma_tells_nothing(lowered@, in_lower_case(e.message@));
    }
    if tells_of_network_fault(lowered.as_str()) {
        return true;
    }
    match &e.network {
        Some(fault) => fault.is_passing(),
        None => false,
    }
}

/// Words without a small sigma are found in a text whichever of the two forms it has.
proof fn lemma_same_words(word: Seq<char>, a: Seq<char>, b: Seq<char>)
    requires
        same_but_for_sigma(a, b),
        !word.contains('\u{3c2}'),
        !word.contains('\u{3c3}'),
    ensures
        occurs_in(word, a) == occurs_in(word, b),
{
    assert forall|i: int| #[trigger] occurs_at(word, a, i) implies occurs_at(word, b, i) by {
        assert forall|k: int| 0 <= k < word.len() implies b.subrange(i, i + word.len())[k]
            == word[k] by {
            assert(a.subrange(i, i + word.len())[k] == a[i + k]);
            assert(word.contains(word[k]));
        }
        assert(b.subrange(i, i + word.len()) =~= word);
    }
    assert forall|i: int| #[trigger] occurs_at(word, b, i) implies occurs_at(word, a, i) by {
        assert forall|k: int| 0 <= k < word.len() implies a.subrange(i, i + word.len())[k]
            == word[k] by {
            assert(b.subrange(i, i + word.len())[k] == b[i + k]);
            assert(a[i + k] == b[i + k] || b[i + k] == '\u{3c3}');
            assert(word.contains(word[k]));
        }
        assert(a.subrange(i, i + word.len()) =~= word);
    }
}

proof fn lemma_sigma_tells_nothing(a: Seq<char>, b: Seq<char>)
    requires
        same_but_for_sigma(a, b),
    ensures
        names_network_fault(a) == names_network_fault(b),
{
    reveal_strlit("error sending request");
    reveal_strlit("connection");
    reveal_strlit("timeout");
    reveal_strlit("dns");
    lemma_same_words("error sending request"@, a, b);
    lemma_same_words("connection"@, a, b);
    lemma_same_words("timeout"@, a, b);
    lemma_same_words("dns"@, a, b);
}

/// Of ASCII text in lower case the letters `A` to `Z` change and nothing else.
pub proof fn ascii_text_in_lower_case(s: Seq<char>)
    requires
        is_ascii_chars(s),
    ensures
        in_lower_case(s) == s.map_values(|c: char| ascii_lower(c)),
    decreases s.len(),
{
    if s.len() > 0 {
        let rest = s.drop_last();
        assert(is_ascii_chars(rest));
        ascii_text_in_lower_case(rest);
        assert(s.map_values(|c: char| ascii_lower(c)) =~= rest.map_values(
            |c: char| ascii_lower(c),
        ).push(ascii_lower(s.last())));
    }
    assert(in_lower_case(s) =~= s.map_values(|c: char| ascii_lower(c)));
}

proof fn lemma_case_is_lost(s: Seq<char>)
    ensures
        in_lower_case(s.map_values(|c: char| ascii_lower(c))) == in_lower_case(s),
    decreases s.len(),
{
    let low = s.map_values(|c: char| ascii_lower(c));
    if s.len() > 0 {
        lemma_case_is_lost(s.drop_last());
        assert(low.drop_last() =~= s.drop_last().map_values(|c: char| ascii_lower(c)));
        assert(lower_char(ascii_lower(s.last())) =~= lower_char(s.last()));
    } else {
        assert(low =~= s);
    }
}

/// Two failures whose texts differ in the case of ASCII letters alone are judged alike.
pub proof fn case_does_not_matter(failure: FailureView, shouted: FailureView)
    requires
        failure.network == shouted.network,
        failure.message.map_values(|c: char| ascii_lower(c)) == shouted.message.map_values(
            |c: char| ascii_lower(c),
        ),
    ensures
        retryable(failure) == retryable(shouted),
{
    lemma_case_is_lost(failure.message);
    lemma_case_is_lost(shouted.message);
}

proof fn lemma_lower_case_of_sum(a: Seq<char>, b: Seq<char>)
    ensures
        in_lower_case(a + b) == in_lower_case(a) + in_lower_case(b),
    decreases b.len(),
{
    if b.len() == 0 {
        assert(a + b =~= a);
        assert(in_lower_case(a) + in_lower_case(b) =~= in_lower_case(a));
    } else {
        lemma_lower_case_of_sum(a, b.drop_last());
        assert((a + b).drop_last() =~= a + b.drop_last());
        assert(in_lower_case(a + b) =~= in_lower_case(a) + in_lower_case(b));
    }
}

proof fn lemma_occurs_in_longer(word: Seq<char>, before: Seq<char>, s: Seq<char>, after: Seq<char>)
    requires
        occurs_in(word, s),
    ensures
        occurs_in(word, before + s + after),
{
    let i = choose|i: int| #[trigger] occurs_at(word, s, i);
    let whole = before + s + after;
    let at = before.len() + i;
    assert(whole.subrange(at, at + word.len()) =~= s.subrange(i, i + word.len()));
    assert(occurs_at(word, whole, at));
}

/// A failure that is worth another attempt stays so when its text is put inside a longer one.
pub proof fn longer_text_stays_retryable(
    failure: FailureView,
    before: Seq<char>,
    after: Seq<char>,
    wrapped: FailureView,
)
    requires
        retryable(failure),
        wrapped.message == before + failure.message + after,
        failure.network is None || wrapped.network == failure.network,
    ensures
        retryable(wrapped),
{
    let low = in_lower_case(failure.message);
    if names_network_fault(low) {
        let b = in_lower_case(before);
        let a = in_lower_case(after);
        lemma_lower_case_of_sum(before, failure.message);
        lemma_lower_case_of_sum(before + failure.message, after);
        assert(in_lower_case(wrapped.message) == b + low + a);
        if occurs_in("error sending request"@, low) {
            lemma_occurs_in_longer("error sending request"@, b, low, a);
        } else if occurs_in("connection"@, low) {
            lemma_occurs_in_longer("connection"@, b, low, a);
        } else if occurs_in("timeout"@, low) {
            lemma_occurs_in_longer("timeout"@, b, low, a);
        } else {
            lemma_occurs_in_longer("dns"@, b, low, a);
        }
    }
}

/// A failure that the HTTP client calls passing is worth another attempt, whatever its text.
pub proof fn passing_fault_is_retryable(failure: FailureView)
    requires
        failure.network matches Some(fault) && fault.passing(),
    ensures
        retryable(failure),
{
}

/// Whether a word in lower case stands in `s` from position `at` on, each letter of it in lower or
/// upper case.
pub open spec fn spelled_at(word: Seq<char>, s: Seq<char>, at: int) -> bool {
    &&& 0 <= at
    &&& at + word.len() <= s.len()
    &&& forall|k: int|
        0 <= k < word.len() ==> (#[trigger] word[k] == s[at + k] || ('A' <= s[at + k] <= 'Z'
            && s[at + k] as u32 + 32 == word[k] as u32))
}

/// Whether one of the four words that tell of a fault of the network stands in `s` from position
/// `at` on.
pub open spec fn fault_spelled_at(s: Seq<char>, at: int) -> bool {
    ||| spelled_at("error sending request"@, s, at)
    ||| spelled_at("connection"@, s, at)
    ||| spelled_at("timeout"@, s, at)
    ||| spelled_at("dns"@, s, at)
}

proof fn lemma_spelled(word: Seq<char>, s: Seq<char>, at: int)
    requires
        is_ascii_chars(s),
        forall|k: int|
            0 <= k < word.len() ==> ('a' <= #[trigger] word[k] <= 'z' || word[k] == ' '),
    ensures
        spelled_at(word, s, at) == occurs_at(word, in_lower_case(s), at),
{
    ascii_text_in_lower_case(s);
    let low = s.map_values(|c: char| ascii_lower(c));
    if spelled_at(word, s, at) {
        assert forall|k: int| 0 <= k < word.len() implies low.subrange(at, at + word.len())[k]
            == word[k] by {
            assert(word[k] == s[at + k] || s[at + k] as u32 + 32 == word[k] as u32);
        }
        assert(low.subrange(at, at + word.len()) =~= word);
    }
    if occurs_at(word, low, at) {
        assert forall|k: int| 0 <= k < word.len() implies (#[trigger] word[k] == s[at + k] || (
        'A' <= s[at + k] <= 'Z' && s[at + k] as u32 + 32 == word[k] as u32)) by {
            assert(low.subrange(at, at + word.len())[k] == low[at + k]);
        }
    }
}

/// A failure whose text is ASCII is worth another attempt exactly if one of the four words stands
/// in the text, in upper or lower case, or the HTTP client could not connect, ran out of time or
/// could not send the request.
pub proof fn ascii_failure_is_judged_by_words_and_faults(failure: FailureView)
    requires
        is_ascii_chars(failure.message),
    ensures
        retryable(failure) <==> {
            ||| exists|at: int| #[trigger] fault_spelled_at(failure.message, at)
            ||| failure.network matches Some(fault) && (fault.connect || fault.timeout
                || fault.request)
        },
{
    let s = failure.message;
    let low = in_lower_case(s);
    reveal_strlit("error sending request");
    reveal_strlit("connection");
    reveal_strlit("timeout");
    reveal_strlit("dns");
    assert forall|at: int|
        fault_spelled_at(s, at) == (occurs_at("error sending request"@, low, at) || occurs_at(
            "connection"@,
            low,
            at,
        ) || occurs_at("timeout"@, low, at) || occurs_at("dns"@, low, at)) by {
        lemma_spelled("error sending request"@, s, at);
        lemma_spelled("connection"@, s, at);
        lemma_spelled("timeout"@, s, at);
        lemma_spelled("dns"@, s, at);
    }
    if names_network_fault(low) {
        let at = if occurs_in("error sending request"@, low) {
            choose|at: int| #[trigger] occurs_at("error sending request"@, low, at)
        } else if occurs_in("connection"@, low) {
            choose|at: int| #[trigger] occurs_at("connection"@, low, at)
        } else if occurs_in("timeout"@, low) {
            choose|at: int| #[trigger] occurs_at("timeout"@, low, at)
        } else {
            choose|at: int| #[trigger] occurs_at("dns"@, low, at)
        };
        assert(fault_spelled_at(s, at));
    }
}

proof fn lemma_word_found(word: Seq<char>, failure: FailureView, at: int)
    requires
        spelled_at(word, failure.message, at),
        forall|k: int|
            0 <= k < word.len() ==> ('a' <= #[trigger] word[k] <= 'z' || word[k] == ' '),
        forall|s: Seq<char>| #[trigger] occurs_in(word, s) ==> names_network_fault(s),
    ensures
        retryable(failure),
{
    let s = failure.message;
    let end = at + word.len();
    let part = s.subrange(at, end);
    assert forall|k: int| 0 <= k < part.len() implies '\0' <= #[trigger] part[k] <= '\u{7f}' by {
        assert(part[k] == s[at + k]);
        assert(word[k] == s[at + k] || 'A' <= s[at + k] <= 'Z');
    }
    assert(is_ascii_chars(part));
    assert(spelled_at(word, part, 0));
    lemma_spelled(word, part, 0);
    let inner = FailureView { message: part, network: None };
    assert(occurs_in(word, in_lower_case(part)));
    assert(retryable(inner));
    assert(s =~= s.take(at) + part + s.skip(end));
    longer_text_stays_retryable(inner, s.take(at), s.skip(end), failure);
}

/// A word that tells of a fault of the network is found wherever it stands, in upper or lower case
/// and among whatever other characters.
pub proof fn word_is_found_anywhere(failure: FailureView, at: int)
    requires
        fault_spelled_at(failure.message, at),
    ensures
        retryable(failure),
{
    let s = failure.message;
    reveal_strlit("error sending request");
    reveal_strlit("connection");
    reveal_strlit("timeout");
    reveal_strlit("dns");
    if spelled_at("error sending request"@, s, at) {
        lemma_word_found("error sending request"@, failure, at);
    } else if spelled_at("connection"@, s, at) {
        lemma_word_found("connection"@, failure, at);
    } else if spelled_at("timeout"@, s, at) {
        lemma_word_found("timeout"@, failure, at);
    } else {
        lemma_word_found("dns"@, failure, at);
    }
}

/// A failure to connect, to stay in time or to send is worth another attempt, each by itself.
pub proof fn each_fault_is_reason_enough(failure: FailureView, fault: NetworkFault)
    requires
        failure.network == Some(fault),
        fault.connect || fault.timeout || fault.request,
    ensures
        retryable(failure),
{
}

/// Where the HTTP client tells of no such fault, the text alone decides.
pub proof fn other_faults_decide_nothing(failure: FailureView, fault: NetworkFault)
    requires
        failure.network == Some(fault),
        !fault.connect,
        !fault.timeout,
        !fault.request,
    ensures
        retryable(failure) == retryable(FailureView { message: failure.message, network: None }),
{
}

/// Without one of the four words in its text and without a fault that the HTTP client tells of, a
/// failure is lasting.
pub proof fn nothing_else_is_worth_another_attempt(failure: FailureView)
    requires
        !occurs_in("error sending request"@, in_lower_case(failure.message)),
        !occurs_in("connection"@, in_lower_case(failure.message)),
        !occurs_in("timeout"@, in_lower_case(failure.message)),
        !occurs_in("dns"@, in_lower_case(failure.message)),
        failure.network matches Some(fault) ==> !fault.connect && !fault.timeout && !fault.request,
    ensures
        !retryable(failure),
{
}

} // verus!
