//! Filter expressions: `key=value` terms held together by `&`.
//!
//! Nothing is escaped. A caller hands in keys and values that are already
//! safe for the service's query strings.

use crate::text::{
    decimal, decimal_text, join_texts, joined, lemma_joined_pair, lemma_joined_triple, str_views,
};
use vstd::prelude::*;

verus! {

/// The separator between alternatives: a card or set matches any of them.
pub open spec fn sep_or() -> Seq<char> {
    seq!['|']
}

/// The separator between requirements: a card matches all of them.
pub open spec fn sep_and() -> Seq<char> {
    seq![',']
}

/// One term: the key, `=`, the value.
pub open spec fn term(key: Seq<char>, value: Seq<char>) -> Seq<char> {
    key + seq!['='] + value
}

/// `filter` with one more term; `&` comes between unless `filter` is empty.
pub open spec fn with_term(filter: Seq<char>, key: Seq<char>, value: Seq<char>) -> Seq<char> {
    if filter.len() == 0 {
        term(key, value)
    } else {
        filter + seq!['&'] + term(key, value)
    }
}

/// The expression that adding `terms` one after another to an empty filter
/// gives. Each term is a key and a value.
pub open spec fn expression(terms: Seq<(Seq<char>, Seq<char>)>) -> Seq<char>
    decreases terms.len(),
{
    if terms.len() == 0 {
        Seq::empty()
    } else {
        with_term(expression(terms.drop_last()), terms.last().0, terms.last().1)
    }
}

/// `s` holds `&&` at position `i`.
pub open spec fn double_amp_at(s: Seq<char>, i: int) -> bool {
    0 <= i < s.len() - 1 && s[i] == '&' && s[i + 1] == '&'
}

/// `s` neither starts nor ends with `&` and holds no `&&`: cut at each `&`,
/// it falls into terms none of which is empty.
pub open spec fn well_delimited(s: Seq<char>) -> bool {
    &&& s.len() > 0 ==> s.first() != '&' && s.last() != '&'
    &&& forall|i: int| !double_amp_at(s, i)
}

/// A key and a value that keep an expression well delimited: the key does
/// not start with `&`, the value does not end with it, neither holds `&&`.
pub open spec fn term_fits(key: Seq<char>, value: Seq<char>) -> bool {
    &&& key.len() > 0 ==> key.first() != '&'
    &&& value.len() > 0 ==> value.last() != '&'
    &&& forall|i: int| !double_amp_at(key, i)
    &&& forall|i: int| !double_amp_at(value, i)
}

/// Adding a term to a well-delimited filter gives a well-delimited filter
/// exactly when the term fits: no leading `&`, no trailing `&`, no `&&`.
pub proof fn lemma_with_term_delimited(filter: Seq<char>, key: Seq<char>, value: Seq<char>)
    requires
        well_delimited(filter),
    ensures
        well_delimited(with_term(filter, key, value)) <==> term_fits(key, value),
{
    let t = term(key, value);
    let r = with_term(filter, key, value);
    let off: int = if filter.len() == 0 { 0 } else { filter.len() as int + 1 };
    let eq: int = off + key.len();
    assert(r.len() == eq + 1 + value.len());
    assert(r[eq] == '=');
    assert(forall|i: int| 0 <= i < key.len() ==> r[off + i] == key[i]);
    assert(forall|i: int| 0 <= i < value.len() ==> r[eq + 1 + i] == value[i]);
    if filter.len() > 0 {
        assert(forall|i: int| 0 <= i < filter.len() ==> r[i] == filter[i]);
        assert(r[off - 1] == '&');
    }
    if term_fits(key, value) {
        assert forall|i: int| !double_amp_at(r, i) by {
            if double_amp_at(r, i) {
                if i + 1 < off - 1 {
                    assert(double_amp_at(filter, i));
                } else if i >= off && i + 1 < eq {
                    assert(double_amp_at(key, i - off));
                } else if i > eq {
                    assert(double_amp_at(value, i - eq - 1));
                }
            }
        }
        assert(well_delimited(r));
    }
    if well_delimited(r) {
        assert forall|i: int| !double_amp_at(key, i) by {
            if double_amp_at(key, i) {
                assert(double_amp_at(r, off + i));
            }
        }
        assert forall|i: int| !double_amp_at(value, i) by {
            if double_amp_at(value, i) {
                assert(double_amp_at(r, eq + 1 + i));
            }
        }
        if key.len() > 0 && key.first() == '&' {
            if filter.len() > 0 {
                assert(double_amp_at(r, off - 1));
            }
        }
        assert(term_fits(key, value));
    }
}

/// However many terms are added, the expression never starts or ends with
/// `&` and never holds `&&`, as long as every term fits.
pub proof fn lemma_expression_delimited(terms: Seq<(Seq<char>, Seq<char>)>)
    requires
        forall|i: int| 0 <= i < terms.len() ==> term_fits(#[trigger] terms[i].0, terms[i].1),
    ensures
        well_delimited(expression(terms)),
    decreases terms.len(),
{
    if terms.len() > 0 {
        let front = terms.drop_last();
        assert forall|i: int| 0 <= i < front.len() implies term_fits(
            #[trigger] front[i].0,
            front[i].1,
        ) by {
            assert(front[i] == terms[i]);
        }
        lemma_expression_delimited(front);
        lemma_with_term_delimited(expression(front), terms.last().0, terms.last().1);
    }
}

/// A first term that allows any of three values reads `key=a|b|c`; one that
/// asks for all of them reads `key=a,b,c`.
pub proof fn lemma_three_values(key: Seq<char>, a: Seq<char>, b: Seq<char>, c: Seq<char>)
    ensures
        with_term(Seq::empty(), key, joined(seq![a, b, c], sep_or())) == key + seq!['='] + a
            + seq!['|'] + b + seq!['|'] + c,
        with_term(Seq::empty(), key, joined(seq![a, b, c], sep_and())) == key + seq!['='] + a
            + seq![','] + b + seq![','] + c,
{
    lemma_joined_triple(a, b, c, sep_or());
    lemma_joined_triple(a, b, c, sep_and());
    assert(key + seq!['='] + (a + seq!['|'] + b + seq!['|'] + c) =~= key + seq!['='] + a
        + seq!['|'] + b + seq!['|'] + c);
    assert(key + seq!['='] + (a + seq![','] + b + seq![','] + c) =~= key + seq!['='] + a
        + seq![','] + b + seq![','] + c);
}

/// A filter is empty exactly as long as no term was added to it.
pub proof fn lemma_expression_empty(terms: Seq<(Seq<char>, Seq<char>)>)
    ensures
        expression(terms).len() == 0 <==> terms.len() == 0,
{
}

/// A value of a closed vocabulary that a filter can name.
pub trait FilterValue: Copy {
    /// The text the service expects for this value.
    spec fn shown(self) -> Seq<char>;

    /// The text the service expects for this value.
    fn show(self) -> (res: &'static str)
        ensures
            res@ == self.shown(),
    ;
}

/// The text of each value of a list.
pub open spec fn shown_all<T: FilterValue>(values: Seq<T>) -> Seq<Seq<char>> {
    values.map_values(|v: T| v.shown())
}

/// Each number of a list in base ten.
pub open spec fn decimals(values: Seq<u8>) -> Seq<Seq<char>> {
    values.map_values(|n: u8| decimal(n as nat))
}

/// Adds the term `key=value` to `filter`.
pub fn append_term(filter: &mut String, key: &str, value: &str)
    ensures
        final(filter)@ == with_term(old(filter)@, key@, value@),
{
    proof {
        reveal_strlit("&");
        reveal_strlit("=");
    }
    if !filter.as_str().is_empty() {
        filter.append("&");
    }
    let mut pair: Vec<&str> = Vec::new();
    pair.push(key);
    pair.push(value);
    let added = join_texts(pair.as_slice(), "=");
    proof {
        assert(str_views(pair@) =~= seq![key@, value@]);
        lemma_joined_pair(key@, value@, "="@);
    }
    filter.append(added.as_str());
    assert(filter@ =~= with_term(old(filter)@, key@, value@));
}

/// The texts of `values` with `sep` between them.
pub fn join_values<T: FilterValue>(values: &[T], sep: &str) -> (res: String)
    ensures
        res@ == joined(shown_all(values@), sep@),
{
    let mut parts: Vec<&str> = Vec::new();
    let mut i: usize = 0;
    while i < values.len()
        invariant
            i <= values.len(),
            parts@.len() == i,
            forall|j: int| 0 <= j < i ==> (#[trigger] parts@[j])@ == values@[j].shown(),
        decreases values.len() - i,
    {
        parts.push(values[i].show());
        i += 1;
    }
    assert(str_views(parts@) =~= shown_all(values@));
    join_texts(parts.as_slice(), sep)
}

/// The numbers of `values` in base ten with `sep` between them.
pub fn join_numbers(values: &[u8], sep: &str) -> (res: String)
    ensures
        res@ == joined(decimals(values@), sep@),
{
    let mut rendered: Vec<String> = Vec::new();
    let mut i: usize = 0;
    while i < values.len()
        invariant
            i <= values.len(),
            rendered@.len() == i,
            forall|j: int| 0 <= j < i ==> (#[trigger] rendered@[j])@ == decimal(values@[j] as nat),
        decreases values.len() - i,
    {
        rendered.push(decimal_text(values[i] as u32));
        i += 1;
    }
    let mut parts: Vec<&str> = Vec::new();
    let mut k: usize = 0;
    while k < rendered.len()
        invariant
            k <= rendered.len(),
            parts@.len() == k,
            forall|j: int| 0 <= j < k ==> (#[trigger] parts@[j])@ == rendered@[j]@,
        decreases rendered.len() - k,
    {
        parts.push(rendered[k].as_str());
        k += 1;
    }
    assert(str_views(parts@) =~= decimals(values@));
    join_texts(parts.as_slice(), sep)
}

/// Adds the term for `key` whose value is `values` with `|` between them:
/// any of them may match. Without values the term is `key=`.
pub fn append_or(filter: &mut String, key: &str, values: &[&str])
    ensures
        final(filter)@ == with_term(old(filter)@, key@, joined(str_views(values@), sep_or())),
{
    proof {
        reveal_strlit("|");
    }
    assert("|"@ =~= sep_or());
    let value = join_texts(values, "|");
    append_term(filter, key, value.as_str());
}

/// Adds the term for `key` whose value is `values` with `,` between them:
/// all of them must match. Without values the term is `key=`.
pub fn append_and(filter: &mut String, key: &str, values: &[&str])
    ensures
        final(filter)@ == with_term(old(filter)@, key@, joined(str_views(values@), sep_and())),
{
    proof {
        reveal_strlit(",");
    }
    assert(","@ =~= sep_and());
    let value = join_texts(values, ",");
    append_term(filter, key, value.as_str());
}

/// `append_or` for values of a closed vocabulary.
pub fn append_or_values<T: FilterValue>(filter: &mut String, key: &str, values: &[T])
    ensures
        final(filter)@ == with_term(old(filter)@, key@, joined(shown_all(values@), sep_or())),
{
    proof {
        reveal_strlit("|");
    }
    assert("|"@ =~= sep_or());
    let value = join_values(values, "|");
    append_term(filter, key, value.as_str());
}

/// `append_and` for values of a closed vocabulary.
pub fn append_and_values<T: FilterValue>(filter: &mut String, key: &str, values: &[T])
    ensures
        final(filter)@ == with_term(old(filter)@, key@, joined(shown_all(values@), sep_and())),
{
    proof {
        reveal_strlit(",");
    }
    assert(","@ =~= sep_and());
    let value = join_values(values, ",");
    append_term(filter, key, value.as_str());
}

/// `append_or` for numbers, each written in base ten.
pub fn append_or_numbers(filter: &mut String, key: &str, values: &[u8])
    ensures
        final(filter)@ == with_term(old(filter)@, key@, joined(decimals(values@), sep_or())),
{
    proof {
        reveal_strlit("|");
    }
    assert("|"@ =~= sep_or());
    let value = join_numbers(values, "|");
    append_term(filter, key, value.as_str());
}

} // verus!
