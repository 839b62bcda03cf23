use vstd::prelude::*;
use crate::context::pairs_view;
use crate::text::same_text;
use crate::utils::Checkbox;

verus! {

/// Decoded form data: key/value pairs in the order they came.
pub type FormPairs = Vec<(String, String)>;

/// The key/value pairs, in order, that URL-encoded form data decodes to.
pub uninterp spec fn form_pairs_of(body: Seq<u8>) -> Option<Seq<(Seq<char>, Seq<char>)>>;

pub open spec fn opt_pairs_view(r: Option<FormPairs>) -> Option<Seq<(Seq<char>, Seq<char>)>> {
    match r {
        Some(v) => Some(pairs_view(v@)),
        None => None,
    }
}

/// Relies on serde_urlencoded::from_bytes into a list of string pairs: the
/// pairs of an `application/x-www-form-urlencoded` body, decoded (invalid
/// UTF-8 is replaced, so any body decodes); an empty body has none.
#[verifier::external_body]
fn decode_pairs(body: &[u8]) -> (r: Option<FormPairs>)
    ensures
        opt_pairs_view(r) == form_pairs_of(body@),
        r is Some,
        body@.len() == 0 ==> r is Some,
        body@.len() == 0 ==> opt_pairs_view(r) == Some(Seq::<(Seq<char>, Seq<char>)>::empty()),
{
    serde_urlencoded::from_bytes::<Vec<(String, String)>>(body).ok()
}

/// The value of the first pair from position `i` on whose key is `key`.
pub open spec fn field_from(ps: Seq<(Seq<char>, Seq<char>)>, key: Seq<char>, i: int) -> Option<Seq<char>>
    decreases ps.len() - i,
{
    if i < 0 || i >= ps.len() {
        None
    } else if ps[i].0 == key {
        Some(ps[i].1)
    } else {
        field_from(ps, key, i + 1)
    }
}

/// The text a field takes: the value of the first pair with its key, or
/// empty when the body has no such key.
pub open spec fn field_text(ps: Seq<(Seq<char>, Seq<char>)>, key: Seq<char>) -> Seq<char> {
    match field_from(ps, key, 0) {
        Some(v) => v,
        None => Seq::<char>::empty(),
    }
}

pub open spec fn is_digit(c: char) -> bool {
    '0' <= c && c <= '9'
}

/// The digits of a decimal numeral: those after an optional leading `+`.
pub open spec fn decimal_digits(s: Seq<char>) -> Seq<char> {
    if s.len() > 0 && s[0] == '+' {
        s.skip(1)
    } else {
        s
    }
}

/// A numeral: an optional `+` and one or more ASCII digits.
pub open spec fn is_decimal(s: Seq<char>) -> bool {
    let d = decimal_digits(s);
    d.len() > 0 && forall|i: int| 0 <= i < d.len() ==> is_digit(#[trigger] d[i])
}

/// The number that a string of ASCII digits writes.
pub open spec fn digits_value(d: Seq<char>) -> nat
    decreases d.len(),
{
    if d.len() == 0 {
        0
    } else {
        (digits_value(d.drop_last()) * 10 + (d.last() as nat - '0' as nat)) as nat
    }
}

/// The number a numeral writes, when it is one that fits in a `u64`.
pub open spec fn u64_of(s: Seq<char>) -> Option<u64> {
    if is_decimal(s) && digits_value(decimal_digits(s)) <= u64::MAX {
        Some(digits_value(decimal_digits(s)) as u64)
    } else {
        None
    }
}

proof fn lemma_digits_grow(d: Seq<char>, i: int, j: int)
    requires
        0 <= i <= j <= d.len(),
        forall|k: int| 0 <= k < j ==> is_digit(#[trigger] d[k]),
    ensures
        digits_value(d.take(i)) <= digits_value(d.take(j)),
    decreases j - i,
{
    if i < j {
        lemma_digits_grow(d, i, j - 1);
        assert(d.take(j).drop_last() =~= d.take(j - 1));
        assert(is_digit(d[j - 1]));
    }
}

/// Reads a decimal numeral as `u64`'s `FromStr` does: an optional `+`, then
/// one or more ASCII digits whose value fits.
fn parse_u64(s: &str) -> (r: Option<u64>)
    ensures
        r == u64_of(s@),
{
    let n = s.unicode_len();
    let mut start: usize = 0;
    if n > 0 && s.get_char(0) == '+' {
        start = 1;
    }
    let ghost d = decimal_digits(s@);
    assert(d =~= s@.skip(start as int));
    if start >= n {
        return None;
    }
    let mut acc: u64 = 0;
    let mut i: usize = start;
    assert(d.take(0) =~= Seq::<char>::empty());
    while i < n
        invariant
            start <= i <= n,
            start < n,
            n == s@.len(),
            d == s@.skip(start as int),
            d == decimal_digits(s@),
            forall|k: int| 0 <= k < i - start ==> is_digit(#[trigger] d[k]),
            acc as nat == digits_value(d.take(i - start)),
        decreases n - i,
    {
        let c = s.get_char(i);
        assert(d[i - start] == c);
        if c < '0' || c > '9' {
            assert(!is_digit(d[i - start]));
            assert(!is_decimal(s@));
            return None;
        }
        let v: u64 = (c as u32 - '0' as u32) as u64;
        assert(d.take(i - start + 1).drop_last() =~= d.take(i - start));
        assert(digits_value(d.take(i - start + 1)) == acc * 10 + v);
        if acc > (u64::MAX - v) / 10 {
            assert(acc * 10 + v > u64::MAX) by (nonlinear_arith)
                requires
                    acc > (u64::MAX - v) / 10,
                    v <= 9,
            ;
            proof {
                if is_decimal(s@) {
                    lemma_digits_grow(d, i - start + 1, d.len() as int);
                    assert(d.take(d.len() as int) =~= d);
                }
            }
            return None;
        }
        assert(acc * 10 + v <= u64::MAX) by (nonlinear_arith)
            requires
                acc <= (u64::MAX - v) / 10,
                v <= 9,
        ;
        acc = acc * 10 + v;
        i += 1;
    }
    assert(d.take(d.len() as int) =~= d);
    assert(is_decimal(s@));
    Some(acc)
}

/// A request body that is not URL-encoded form data.
pub struct DecodeError {
    pub description: String,
}

/// The arguments a handler is called with, decoded from its request body.
/// Keys that no field asks for are ignored; a field whose key is missing
/// takes its default.
pub struct FormArgs {
    pub pairs: Vec<(String, String)>,
}

impl FormArgs {
    pub open spec fn pairs_view(&self) -> Seq<(Seq<char>, Seq<char>)> {
        pairs_view(self.pairs@)
    }

    /// Decodes a URL-encoded body.
    pub fn decode(body: &[u8]) -> (r: Result<FormArgs, DecodeError>)
        ensures
            r matches Ok(a) ==> form_pairs_of(body@) == Some(a.pairs_view()),
            r is Err <==> form_pairs_of(body@) is None,
            body@.len() == 0 ==> (r matches Ok(a) && a.pairs_view().len() == 0),
    {
        match decode_pairs(body) {
            Some(pairs) => Ok(FormArgs { pairs }),
            None => Err(
                DecodeError {
                    description: "Could not deserialize body into function arguments".to_owned(),
                },
            ),
        }
    }

    /// A text field: the value sent under `key`, or empty.
    pub fn text(&self, key: &str) -> (r: String)
        ensures
            r@ == field_text(self.pairs_view(), key@),
    {
        let ghost ps = self.pairs_view();
        let mut i: usize = 0;
        while i < self.pairs.len()
            invariant
                i <= self.pairs@.len(),
                ps == self.pairs_view(),
                field_from(ps, key@, 0) == field_from(ps, key@, i as int),
            decreases self.pairs@.len() - i,
        {
            if same_text(self.pairs[i].0.as_str(), key) {
                return self.pairs[i].1.clone();
            }
            i += 1;
        }
        String::new()
    }

    /// A number field: the number sent under `key`, or 0 when the key is
    /// missing; an error when the text sent is not a number that fits.
    pub fn number(&self, key: &str) -> (r: Result<u64, DecodeError>)
        ensures
            field_from(self.pairs_view(), key@, 0) is None ==> r == Ok::<u64, DecodeError>(0),
            field_from(self.pairs_view(), key@, 0) matches Some(t) ==> match u64_of(t) {
                Some(n) => r == Ok::<u64, DecodeError>(n),
                None => r is Err,
            },
    {
        let ghost ps = self.pairs_view();
        let mut i: usize = 0;
        while i < self.pairs.len()
            invariant
                i <= self.pairs@.len(),
                ps == self.pairs_view(),
                field_from(ps, key@, 0) == field_from(ps, key@, i as int),
            decreases self.pairs@.len() - i,
        {
            if same_text(self.pairs[i].0.as_str(), key) {
                return match parse_u64(self.pairs[i].1.as_str()) {
                    Some(n) => Ok(n),
                    None => Err(
                        DecodeError {
                            description: "Could not deserialize body into function arguments".to_owned(),
                        },
                    ),
                };
            }
            i += 1;
        }
        Ok(0)
    }

    /// A checkbox field: the text sent under `key`, or empty.
    pub fn checkbox(&self, key: &str) -> (r: Checkbox)
        ensures
            r.0@ == field_text(self.pairs_view(), key@),
    {
        Checkbox::new(self.text(key))
    }
}

/// An empty body binds every field to its default.
pub proof fn lemma_empty_body_defaults(a: FormArgs, key: Seq<char>)
    requires
        a.pairs_view().len() == 0,
    ensures
        field_text(a.pairs_view(), key) == Seq::<char>::empty(),
{
}

} // verus!
