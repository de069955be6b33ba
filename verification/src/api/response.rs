//! What an endpoint hands back: the content of the answer and the counters
//! that came in its headers.

use crate::api::error::{outcome, ErrorView, MtgApiErrorKind};
use reqwest::header::{HeaderMap, HeaderValue};
use vstd::prelude::*;

verus! {

#[verifier::external_type_specification]
#[verifier::external_body]
#[verifier::reject_recursive_types(T)]
pub struct ExHeaders<T>(HeaderMap<T>);

#[verifier::external_type_specification]
#[verifier::external_body]
pub struct ExHeaderText(HeaderValue);

/// The bytes of the first value that `headers` holds under `name`, if a
/// lookup by that name finds one.
pub uninterp spec fn header_value(headers: HeaderMap, name: Seq<char>) -> Option<Seq<u8>>;

/// `HeaderMap::get` with a string for the name, and `HeaderValue::as_bytes`
/// on what it finds: the bytes of the first value under that name, or `None`
/// where the map holds no such header.
#[verifier::external_body]
fn first_header(headers: &HeaderMap, name: &str) -> (res: Option<Vec<u8>>)
    ensures
        match res {
            Some(bytes) => header_value(*headers, name@) == Some(bytes@),
            None => header_value(*headers, name@) is None,
        },
{
    headers.get(name).map(|value| value.as_bytes().to_vec())
}

/// The byte is an ASCII digit.
pub open spec fn is_digit(b: u8) -> bool {
    48 <= b <= 57
}

/// Every byte is an ASCII digit.
pub open spec fn all_digits(s: Seq<u8>) -> bool {
    forall|i: int| 0 <= i < s.len() ==> is_digit(#[trigger] s[i])
}

/// The number that a sequence of digits writes in base ten.
pub open spec fn digits_value(s: Seq<u8>) -> nat
    decreases s.len(),
{
    if s.len() == 0 {
        0
    } else {
        digits_value(s.drop_last()) * 10 + (s.last() - 48) as nat
    }
}

/// The text without the `+` that may stand in front of it.
pub open spec fn unsigned(s: Seq<u8>) -> Seq<u8> {
    if s.len() > 0 && s[0] == 43 {
        s.skip(1)
    } else {
        s
    }
}

/// The unsigned number that a header value writes: digits and nothing else,
/// but for one `+` in front, and no more than 32 bits hold.
pub open spec fn number_reading(s: Seq<u8>) -> Option<u32> {
    let digits = unsigned(s);
    if digits.len() > 0 && all_digits(digits) && digits_value(digits) <= u32::MAX {
        Some(digits_value(digits) as u32)
    } else {
        None
    }
}

/// A number only grows as digits are added to it.
proof fn lemma_digits_grow(s: Seq<u8>, k: int)
    requires
        0 <= k <= s.len(),
        all_digits(s),
    ensures
        digits_value(s.take(k)) <= digits_value(s),
    decreases s.len() - k,
{
    if k == s.len() {
        assert(s.take(k) =~= s);
    } else {
        lemma_digits_grow(s, k + 1);
        assert(s.take(k + 1).drop_last() =~= s.take(k));
        assert(is_digit(s[k]));
    }
}

/// Reads the unsigned number that a header value writes.
pub fn parse_counter(bytes: &[u8]) -> (res: Option<u32>)
    ensures
        res == number_reading(bytes@),
{
    let n = bytes.len();
    let start: usize = if n > 0 && bytes[0] == 43 { 1 } else { 0 };
    let ghost digits = unsigned(bytes@);
    assert(digits =~= bytes@.skip(start as int));
    if start == n {
        return None;
    }
    let mut acc: u64 = 0;
    let mut i: usize = start;
    assert(digits.take(0) =~= Seq::<u8>::empty());
    while i < n
        invariant
            start <= i <= n,
            n == bytes@.len(),
            digits == bytes@.skip(start as int),
            digits == unsigned(bytes@),
            all_digits(digits.take(i - start)),
            acc == digits_value(digits.take(i - start)),
            acc <= u32::MAX,
        decreases n - i,
    {
        let b = bytes[i];
        let ghost before = digits.take(i - start);
        let ghost after = digits.take(i - start + 1);
        assert(after.drop_last() =~= before);
        assert(after.last() == b);
        if b < 48 || b > 57 {
            assert(!is_digit(digits[i - start]));
            return None;
        }
        let next: u64 = acc * 10 + (b - 48) as u64;
        assert(next == digits_value(after));
        assert(all_digits(after)) by {
            assert forall|j: int| 0 <= j < after.len() implies is_digit(#[trigger] after[j]) by {
                if j < before.len() {
                    assert(after[j] == before[j]);
                }
            }
        }
        if next > u32::MAX as u64 {
            proof {
                if all_digits(digits) {
                    lemma_digits_grow(digits, i - start + 1);
                }
            }
            return None;
        }
        acc = next;
        i += 1;
    }
    assert(digits.take(i - start) =~= digits);
    Some(acc as u32)
}

/// A header is there and holds no unsigned number.
pub open spec fn counter_is_bad(value: Option<Seq<u8>>) -> bool {
    value matches Some(bytes) && number_reading(bytes) is None
}

/// The counter that a header gives: none where the header is missing.
pub open spec fn counter_reading(value: Option<Seq<u8>>) -> Option<u32> {
    match value {
        Some(bytes) => number_reading(bytes),
        None => None,
    }
}

/// The bytes of a header value, where there is one.
pub open spec fn value_bytes(value: Option<Vec<u8>>) -> Option<Seq<u8>> {
    match value {
        Some(bytes) => Some(bytes@),
        None => None,
    }
}

/// The counter that the header `name` gives when it holds `value`: the
/// number, nothing where the header is missing, and an error that names the
/// header where it holds no unsigned number.
pub open spec fn counter_outcome(value: Option<Seq<u8>>, name: Seq<char>) -> Result<
    Option<u32>,
    ErrorView,
> {
    if counter_is_bad(value) {
        Err(ErrorView::MetadataParseError { header: name })
    } else {
        Ok(counter_reading(value))
    }
}

/// The counter of the header `name`, from the value found under that name.
pub fn read_counter(value: Option<Vec<u8>>, name: &str) -> (res: Result<
    Option<u32>,
    MtgApiErrorKind,
>)
    ensures
        outcome(res) == counter_outcome(value_bytes(value), name@),
{
    match value {
        None => Ok(None),
        Some(bytes) => match parse_counter(bytes.as_slice()) {
            Some(n) => Ok(Some(n)),
            None => Err(MtgApiErrorKind::MetadataParseError { header: name.to_owned() }),
        },
    }
}

/// The counter that `headers` hold under `name`.
pub fn header_counter(headers: &HeaderMap, name: &str) -> (res: Result<
    Option<u32>,
    MtgApiErrorKind,
>)
    ensures
        outcome(res) == counter_of(*headers, name@),
{
    read_counter(first_header(headers, name), name)
}

/// The content of an answer with the counters of its headers. Each counter
/// stands for one header and is read on its own: the number, `None` where
/// the header is missing, or the error that names the header where it is
/// there and holds no unsigned number.
#[derive(Debug, PartialEq, Eq)]
pub struct ApiResponse<T> {
    pub content: T,
    pub page_size: Result<Option<u32>, MtgApiErrorKind>,
    pub count: Result<Option<u32>, MtgApiErrorKind>,
    pub total_count: Result<Option<u32>, MtgApiErrorKind>,
    pub ratelimit_limit: Result<Option<u32>, MtgApiErrorKind>,
    pub ratelimit_remaining: Result<Option<u32>, MtgApiErrorKind>,
}

/// A response with the errors of its counters seen through their views.
pub struct ResponseView<T> {
    pub content: T,
    pub page_size: Result<Option<u32>, ErrorView>,
    pub count: Result<Option<u32>, ErrorView>,
    pub total_count: Result<Option<u32>, ErrorView>,
    pub ratelimit_limit: Result<Option<u32>, ErrorView>,
    pub ratelimit_remaining: Result<Option<u32>, ErrorView>,
}

impl<T> View for ApiResponse<T> {
    type V = ResponseView<T>;

    open spec fn view(&self) -> ResponseView<T> {
        ResponseView {
            content: self.content,
            page_size: outcome(self.page_size),
            count: outcome(self.count),
            total_count: outcome(self.total_count),
            ratelimit_limit: outcome(self.ratelimit_limit),
            ratelimit_remaining: outcome(self.ratelimit_remaining),
        }
    }
}

/// The counter that `headers` give under `name`.
pub open spec fn counter_of(headers: HeaderMap, name: Seq<char>) -> Result<Option<u32>, ErrorView> {
    counter_outcome(header_value(headers, name), name)
}

/// `content` together with the five counters that `headers` give.
pub open spec fn with_counters<T>(content: T, headers: HeaderMap) -> ResponseView<T> {
    ResponseView {
        content,
        page_size: counter_of(headers, "Page-Size"@),
        count: counter_of(headers, "Count"@),
        total_count: counter_of(headers, "Total-Count"@),
        ratelimit_limit: counter_of(headers, "Ratelimit-Limit"@),
        ratelimit_remaining: counter_of(headers, "Ratelimit-Remaining"@),
    }
}

impl<T> ApiResponse<T> {
    /// Puts `content` together with the counters that `headers` hold. A
    /// header that holds no unsigned number makes its own counter an error
    /// and touches nothing else: the content and the other counters are as
    /// they would be without it.
    pub fn new(content: T, headers: &HeaderMap) -> (res: ApiResponse<T>)
        ensures
            res@ == with_counters(content, *headers),
    {
        ApiResponse {
            content,
            page_size: header_counter(headers, "Page-Size"),
            count: header_counter(headers, "Count"),
            total_count: header_counter(headers, "Total-Count"),
            ratelimit_limit: header_counter(headers, "Ratelimit-Limit"),
            ratelimit_remaining: header_counter(headers, "Ratelimit-Remaining"),
        }
    }
}

/// A counter is never an error for a missing header, and never `None` for
/// a header that is there: a malformed header is told from a missing one.
pub proof fn lemma_malformed_is_not_missing(value: Option<Seq<u8>>, name: Seq<char>)
    ensures
        value is None ==> counter_outcome(value, name) == Ok::<Option<u32>, ErrorView>(None),
        value is Some ==> counter_outcome(value, name) != Ok::<Option<u32>, ErrorView>(None),
        counter_outcome(value, name) is Err <==> counter_is_bad(value),
        counter_outcome(value, name) is Err ==> counter_outcome(value, name)
            == Err::<Option<u32>, ErrorView>(ErrorView::MetadataParseError { header: name }),
{
}

/// A counter depends on its own header alone. Where two sets of headers
/// agree on one of the five, the responses agree on that counter, whatever
/// the other headers hold, and the content is never touched.
pub proof fn lemma_counters_are_read_apart<T>(content: T, a: HeaderMap, b: HeaderMap)
    ensures
        with_counters(content, a).content == content,
        header_value(a, "Page-Size"@) == header_value(b, "Page-Size"@) ==> with_counters(
            content,
            a,
        ).page_size == with_counters(content, b).page_size,
        header_value(a, "Count"@) == header_value(b, "Count"@) ==> with_counters(content, a).count
            == with_counters(content, b).count,
        header_value(a, "Total-Count"@) == header_value(b, "Total-Count"@) ==> with_counters(
            content,
            a,
        ).total_count == with_counters(content, b).total_count,
        header_value(a, "Ratelimit-Limit"@) == header_value(b, "Ratelimit-Limit"@)
            ==> with_counters(content, a).ratelimit_limit == with_counters(
            content,
            b,
        ).ratelimit_limit,
        header_value(a, "Ratelimit-Remaining"@) == header_value(b, "Ratelimit-Remaining"@)
            ==> with_counters(content, a).ratelimit_remaining == with_counters(
            content,
            b,
        ).ratelimit_remaining,
{
}

} // verus!
