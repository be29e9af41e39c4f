use vstd::prelude::*;

use crate::error::{ErrorKind, RequestError};
use crate::text::{
    lemma_trimmed_idempotent,
    char_is_whitespace, chars_of, count_char, decimal, decimal_text, is_white_space, lowercase,
    no_white_space, to_lowercase, trim, trimmed,
};

verus! {

/// The kind and message of an error, as contracts compare them.
pub open spec fn err_view(e: RequestError) -> (ErrorKind, Seq<char>) {
    (e.kind(), e.message())
}

/// `r` is the text result described by `o`.
pub open spec fn text_result_is(
    r: Result<String, RequestError>,
    o: Result<Seq<char>, (ErrorKind, Seq<char>)>,
) -> bool {
    match o {
        Ok(t) => r matches Ok(s) && s@ == t,
        Err(ev) => r matches Err(e) && err_view(e) == ev,
    }
}

/// `r` is the optional text result described by `o`.
pub open spec fn optional_text_result_is(
    r: Result<Option<String>, RequestError>,
    o: Result<Option<Seq<char>>, (ErrorKind, Seq<char>)>,
) -> bool {
    match o {
        Ok(None) => r matches Ok(None),
        Ok(Some(t)) => r matches Ok(Some(s)) && s@ == t,
        Err(ev) => r matches Err(e) && err_view(e) == ev,
    }
}

/// "`field` must contain from `min` to `max` characters".
pub open spec fn length_message(field: Seq<char>, min: nat, max: nat) -> Seq<char> {
    field + " must contain from "@ + decimal(min) + " to "@ + decimal(max) + " characters"@
}

/// "`field` must contain at most `max` characters".
pub open spec fn max_length_message(field: Seq<char>, max: nat) -> Seq<char> {
    field + " must contain at most "@ + decimal(max) + " characters"@
}

/// What `trimmed_required` gives: the trimmed text when its length in
/// characters lies between `min` and `max`.
pub open spec fn required_outcome(value: Seq<char>, field: Seq<char>, min: nat, max: nat) -> Result<
    Seq<char>,
    (ErrorKind, Seq<char>),
> {
    let t = trimmed(value);
    if min <= t.len() <= max {
        Ok(t)
    } else {
        Err((ErrorKind::UnprocessableEntity, length_message(field, min, max)))
    }
}

/// What `trimmed_optional` gives: nothing for an absent or blank text, the
/// trimmed text when it has at most `max` characters.
pub open spec fn optional_outcome(value: Option<Seq<char>>, field: Seq<char>, max: nat) -> Result<
    Option<Seq<char>>,
    (ErrorKind, Seq<char>),
> {
    match value {
        None => Ok(None),
        Some(v) => {
            let t = trimmed(v);
            if t.len() == 0 {
                Ok(None)
            } else if t.len() <= max {
                Ok(Some(t))
            } else {
                Err((ErrorKind::UnprocessableEntity, max_length_message(field, max)))
            }
        },
    }
}

fn length_error(field: &str, min: usize, max: usize) -> (e: RequestError)
    ensures
        e.is(ErrorKind::UnprocessableEntity, length_message(field@, min as nat, max as nat)),
{
    let mut m = String::from_str(field);
    m.append(" must contain from ");
    let lo = decimal_text(min as u64);
    m.append(lo.as_str());
    m.append(" to ");
    let hi = decimal_text(max as u64);
    m.append(hi.as_str());
    m.append(" characters");
    RequestError::UnprocessableEntity(m)
}

/// Trims a required text and checks its length in characters.
pub fn trimmed_required(value: &str, field: &str, min: usize, max: usize) -> (r: Result<
    String,
    RequestError,
>)
    ensures
        text_result_is(r, required_outcome(value@, field@, min as nat, max as nat)),
{
    let t = trim(value);
    let n = t.unicode_len();
    if n < min || n > max {
        return Err(length_error(field, min, max));
    }
    Ok(String::from_str(t))
}

/// Trims an optional text; a blank text counts as absent.
pub fn trimmed_optional(value: Option<String>, field: &str, max: usize) -> (r: Result<
    Option<String>,
    RequestError,
>)
    ensures
        optional_text_result_is(
            r,
            optional_outcome(
                match value {
                    Some(v) => Some(v@),
                    None => None,
                },
                field@,
                max as nat,
            ),
        ),
{
    match value {
        None => Ok(None),
        Some(v) => {
            let t = trim(v.as_str());
            let n = t.unicode_len();
            if n == 0 {
                Ok(None)
            } else if n <= max {
                Ok(Some(String::from_str(t)))
            } else {
                let mut m = String::from_str(field);
                m.append(" must contain at most ");
                let hi = decimal_text(max as u64);
                m.append(hi.as_str());
                m.append(" characters");
                Err(RequestError::UnprocessableEntity(m))
            }
        },
    }
}

/// "`field` must be greater than zero".
pub open spec fn positive_message(field: Seq<char>) -> Seq<char> {
    field + " must be greater than zero"@
}

/// Accepts a strictly positive number.
pub fn positive_i32(value: i32, field: &str) -> (r: Result<i32, RequestError>)
    ensures
        value > 0 ==> r == Ok::<i32, RequestError>(value),
        value <= 0 ==> (r matches Err(e) && e.is(ErrorKind::UnprocessableEntity, positive_message(field@))),
{
    if value > 0 {
        Ok(value)
    } else {
        let mut m = String::from_str(field);
        m.append(" must be greater than zero");
        Err(RequestError::UnprocessableEntity(m))
    }
}

/// "`field` must be greater than or equal to zero".
pub open spec fn non_negative_message(field: Seq<char>) -> Seq<char> {
    field + " must be greater than or equal to zero"@
}

/// The answer to a negative amount. Amounts are floating-point numbers, so
/// the comparison itself is made by the caller.
pub fn non_negative_error(field: &str) -> (e: RequestError)
    ensures
        e.is(ErrorKind::UnprocessableEntity, non_negative_message(field@)),
{
    let mut m = String::from_str(field);
    m.append(" must be greater than or equal to zero");
    RequestError::UnprocessableEntity(m)
}

/// The kind and message of a failed check, nothing for a passed one.
pub open spec fn check_view(c: Result<(), RequestError>) -> Result<(), (ErrorKind, Seq<char>)> {
    match c {
        Ok(()) => Ok(()),
        Err(e) => Err(err_view(e)),
    }
}

/// The position of the first `c` in `s`, or the length of `s` if none.
pub open spec fn first_index(s: Seq<char>, c: char) -> nat
    decreases s.len(),
{
    if s.len() == 0 || s[0] == c {
        0
    } else {
        1 + first_index(s.drop_first(), c)
    }
}

/// A mail domain: a dot inside it, none at either end.
pub open spec fn domain_shape(d: Seq<char>) -> bool {
    &&& d.len() > 0
    &&& count_char(d, '.') > 0
    &&& d[0] != '.'
    &&& d.last() != '.'
}

/// An e-mail address: at most 254 characters, no white space, one `@` with a
/// non-empty name before it and a domain after it.
pub open spec fn email_shape(s: Seq<char>) -> bool {
    let at = first_index(s, '@') as int;
    &&& s.len() <= 254
    &&& no_white_space(s)
    &&& count_char(s, '@') == 1
    &&& 0 < at < s.len()
    &&& domain_shape(s.skip(at + 1))
}

/// "`field` must be a valid email address".
pub open spec fn email_message(field: Seq<char>) -> Seq<char> {
    field + " must be a valid email address"@
}

/// What `normalized_email` gives: the trimmed, lowercased address when it has
/// the shape of an e-mail address.
pub open spec fn email_outcome(value: Seq<char>, field: Seq<char>) -> Result<
    Seq<char>,
    (ErrorKind, Seq<char>),
> {
    let e = lowercase(trimmed(value));
    if email_shape(e) {
        Ok(e)
    } else {
        Err((ErrorKind::UnprocessableEntity, email_message(field)))
    }
}

proof fn lemma_count_char_step(s: Seq<char>, c: char, i: int)
    requires
        0 <= i < s.len(),
    ensures
        count_char(s.take(i + 1), c) == count_char(s.take(i), c) + (if s[i] == c { 1nat } else { 0nat }),
{
    assert(s.take(i + 1).drop_last() =~= s.take(i));
}

proof fn lemma_first_index_prefix(s: Seq<char>, c: char, i: int)
    requires
        0 <= i <= s.len(),
        forall|j: int| 0 <= j < i ==> s[j] != c,
    ensures
        first_index(s, c) >= i,
        i < s.len() && s[i] == c ==> first_index(s, c) == i,
    decreases i,
{
    if i > 0 {
        lemma_first_index_prefix(s.drop_first(), c, i - 1);
    }
}

proof fn lemma_first_index_bound(s: Seq<char>, c: char)
    ensures
        first_index(s, c) <= s.len(),
        first_index(s, c) < s.len() ==> s[first_index(s, c) as int] == c,
        forall|j: int| 0 <= j < first_index(s, c) ==> s[j] != c,
    decreases s.len(),
{
    if s.len() > 0 && s[0] != c {
        lemma_first_index_bound(s.drop_first(), c);
        assert forall|j: int| 0 <= j < first_index(s, c) implies s[j] != c by {
            if j > 0 {
                assert(s[j] == s.drop_first()[j - 1]);
            }
        }
    }
}

/// Counts the occurrences of `c` in `v`.
fn count_in(v: &Vec<char>, c: char) -> (n: usize)
    ensures
        n == count_char(v@, c),
{
    let mut n: usize = 0;
    let len = v.len();
    for i in 0..len
        invariant
            len == v@.len(),
            n == count_char(v@.take(i as int), c),
            n <= i,
    {
        proof {
            lemma_count_char_step(v@, c, i as int);
        }
        if v[i] == c {
            n = n + 1;
        }
    }
    proof {
        assert(v@.take(len as int) =~= v@);
    }
    n
}

/// Whether any character of `v` is white space.
fn has_white_space(v: &Vec<char>) -> (r: bool)
    ensures
        r == !no_white_space(v@),
{
    let len = v.len();
    for i in 0..len
        invariant
            len == v@.len(),
            forall|j: int| 0 <= j < i ==> !is_white_space(#[trigger] v@[j]),
    {
        if char_is_whitespace(v[i]) {
            return true;
        }
    }
    false
}

/// Whether `v` has the shape of an e-mail address.
pub fn is_email_shape(v: &Vec<char>) -> (r: bool)
    ensures
        r == email_shape(v@),
{
    let len = v.len();
    if len > 254 || has_white_space(v) || count_in(v, '@') != 1 {
        return false;
    }
    let mut at: usize = 0;
    while at < len && v[at] != '@'
        invariant
            at <= len,
            len == v@.len(),
            forall|j: int| 0 <= j < at ==> v@[j] != '@',
        decreases len - at,
    {
        at = at + 1;
    }
    proof {
        lemma_first_index_prefix(v@, '@', at as int);
        lemma_first_index_bound(v@, '@');
    }
    if at == 0 || at >= len {
        return false;
    }
    let mut domain: Vec<char> = Vec::new();
    let mut k = at + 1;
    while k < len
        invariant
            at < len,
            len == v@.len(),
            at + 1 <= k <= len,
            domain@ == v@.subrange(at + 1, k as int),
        decreases len - k,
    {
        domain.push(v[k]);
        proof {
            assert(domain@ =~= v@.subrange(at + 1, k + 1));
        }
        k = k + 1;
    }
    proof {
        assert(domain@ =~= v@.skip(at + 1));
    }
    let dn = domain.len();
    dn > 0 && count_in(&domain, '.') > 0 && domain[0] != '.' && domain[dn - 1] != '.'
}

/// Trims and lowercases an e-mail address and checks its shape.
pub fn normalized_email(value: &str, field: &str) -> (r: Result<String, RequestError>)
    ensures
        text_result_is(r, email_outcome(value@, field@)),
{
    let lowered = to_lowercase(trim(value));
    let v = chars_of(lowered.as_str());
    if is_email_shape(&v) {
        Ok(lowered)
    } else {
        let mut m = String::from_str(field);
        m.append(" must be a valid email address");
        Err(RequestError::UnprocessableEntity(m))
    }
}

/// An ASCII digit.
pub open spec fn is_digit(c: char) -> bool {
    '0' <= c <= '9'
}

/// A character allowed between the digits of a phone number.
pub open spec fn is_phone_separator(c: char) -> bool {
    c == ' ' || c == '-' || c == '(' || c == ')'
}

/// How many ASCII digits `s` holds.
pub open spec fn digit_count(s: Seq<char>) -> nat
    decreases s.len(),
{
    if s.len() == 0 {
        0
    } else {
        digit_count(s.drop_last()) + (if is_digit(s.last()) { 1nat } else { 0nat })
    }
}

/// A phone number: an optional leading `+`, then digits and separators only,
/// with 10 to 15 digits.
pub open spec fn phone_shape(s: Seq<char>) -> bool {
    &&& phone_chars_ok(phone_body(s))
    &&& 10 <= digit_count(phone_body(s)) <= 15
}

/// A phone number without its leading `+`, if any.
pub open spec fn phone_body(s: Seq<char>) -> Seq<char> {
    if s.len() > 0 && s[0] == '+' {
        s.drop_first()
    } else {
        s
    }
}

/// Every character is a digit or a separator.
pub open spec fn phone_chars_ok(b: Seq<char>) -> bool {
    forall|i: int| 0 <= i < b.len() ==> is_digit(#[trigger] b[i]) || is_phone_separator(b[i])
}

/// "`field` must be a valid phone number".
pub open spec fn phone_message(field: Seq<char>) -> Seq<char> {
    field + " must be a valid phone number"@
}

/// What `phone_number` gives: the trimmed number when it has the shape of a
/// phone number.
pub open spec fn phone_outcome(value: Seq<char>, field: Seq<char>) -> Result<
    Seq<char>,
    (ErrorKind, Seq<char>),
> {
    let t = trimmed(value);
    if phone_shape(t) {
        Ok(t)
    } else {
        Err((ErrorKind::UnprocessableEntity, phone_message(field)))
    }
}

proof fn lemma_digit_count_step(s: Seq<char>, i: int)
    requires
        0 <= i < s.len(),
    ensures
        digit_count(s.subrange(0, i + 1)) == digit_count(s.subrange(0, i)) + (if is_digit(s[i]) {
            1nat
        } else {
            0nat
        }),
{
    assert(s.subrange(0, i + 1).drop_last() =~= s.subrange(0, i));
}

/// Whether `v` has the shape of a phone number.
pub fn is_phone_shape(v: &Vec<char>) -> (r: bool)
    ensures
        r == phone_shape(v@),
{
    let len = v.len();
    let start: usize = if len > 0 && v[0] == '+' { 1 } else { 0 };
    let ghost body = phone_body(v@);
    proof {
        assert(body =~= v@.skip(start as int));
    }
    let mut digits: usize = 0;
    let mut i = start;
    while i < len
        invariant
            start <= i <= len,
            len == v@.len(),
            start <= 1,
            body == v@.skip(start as int),
            body == phone_body(v@),
            digits == digit_count(body.subrange(0, i - start)),
            digits <= i,
            forall|j: int| 0 <= j < i - start ==> is_digit(#[trigger] body[j]) || is_phone_separator(body[j]),
        decreases len - i,
    {
        let c = v[i];
        proof {
            assert(body[i - start] == c);
            lemma_digit_count_step(body, i - start);
        }
        if '0' <= c && c <= '9' {
            digits = digits + 1;
        } else if !(c == ' ' || c == '-' || c == '(' || c == ')') {
            proof {
                let k = i - start;
                assert(0 <= k < body.len());
                assert(!(is_digit(body[k]) || is_phone_separator(body[k])));
            }
            return false;
        }
        i = i + 1;
    }
    proof {
        assert(body.subrange(0, len - start) =~= body);
    }
    10 <= digits && digits <= 15
}

/// Trims a phone number and checks its shape.
pub fn phone_number(value: &str, field: &str) -> (r: Result<String, RequestError>)
    ensures
        text_result_is(r, phone_outcome(value@, field@)),
{
    let t = trim(value);
    let v = chars_of(t);
    if is_phone_shape(&v) {
        Ok(String::from_str(t))
    } else {
        let mut m = String::from_str(field);
        m.append(" must be a valid phone number");
        Err(RequestError::UnprocessableEntity(m))
    }
}

/// A text that passed `trimmed_required` passes again unchanged.
pub proof fn law_required_idempotent(value: Seq<char>, field: Seq<char>, min: nat, max: nat)
    requires
        required_outcome(value, field, min, max) is Ok,
    ensures
        required_outcome(required_outcome(value, field, min, max)->Ok_0, field, min, max)
            == required_outcome(value, field, min, max),
{
    lemma_trimmed_idempotent(value);
}

/// A text that passed `trimmed_optional` passes again unchanged.
pub proof fn law_optional_idempotent(value: Seq<char>, field: Seq<char>, max: nat)
    requires
        optional_outcome(Some(value), field, max) matches Ok(Some(_)),
    ensures
        optional_outcome(optional_outcome(Some(value), field, max)->Ok_0, field, max)
            == optional_outcome(Some(value), field, max),
{
    lemma_trimmed_idempotent(value);
}

/// A phone number that passed `phone_number` passes again unchanged.
pub proof fn law_phone_idempotent(value: Seq<char>, field: Seq<char>)
    requires
        phone_outcome(value, field) is Ok,
    ensures
        phone_outcome(phone_outcome(value, field)->Ok_0, field) == phone_outcome(value, field),
{
    lemma_trimmed_idempotent(value);
}

/// A required text is accepted exactly when its trimmed length lies between
/// the bounds, and then it is the trimmed text.
pub proof fn law_required_text_meaning(value: Seq<char>, field: Seq<char>, min: nat, max: nat)
    ensures
        required_outcome(value, field, min, max) is Ok <==> (min <= trimmed(value).len() <= max),
        required_outcome(value, field, min, max) matches Ok(t) ==> t == trimmed(value),
{
}

/// An optional text is accepted exactly when it is absent or its trimmed
/// length is at most the bound; a blank text becomes absent, any other the
/// trimmed text.
pub proof fn law_optional_text_meaning(value: Option<Seq<char>>, field: Seq<char>, max: nat)
    ensures
        optional_outcome(value, field, max) is Ok <==> (match value {
            None => true,
            Some(v) => trimmed(v).len() <= max,
        }),
        optional_outcome(value, field, max) matches Ok(t) ==> t == (match value {
            None => None,
            Some(v) => if trimmed(v).len() == 0 {
                None
            } else {
                Some(trimmed(v))
            },
        }),
{
}

/// An accepted phone number is the trimmed text; an accepted e-mail address
/// is the trimmed text lowercased.
pub proof fn law_contact_texts_meaning(value: Seq<char>, field: Seq<char>)
    ensures
        phone_outcome(value, field) is Ok <==> phone_shape(trimmed(value)),
        phone_outcome(value, field) matches Ok(t) ==> t == trimmed(value),
        email_outcome(value, field) is Ok <==> email_shape(lowercase(trimmed(value))),
        email_outcome(value, field) matches Ok(t) ==> t == lowercase(trimmed(value)),
{
}

proof fn lemma_count_char_concat(a: Seq<char>, b: Seq<char>, c: char)
    ensures
        count_char(a + b, c) == count_char(a, c) + count_char(b, c),
    decreases b.len(),
{
    if b.len() == 0 {
        assert(a + b =~= a);
    } else {
        lemma_count_char_concat(a, b.drop_last(), c);
        assert((a + b).drop_last() =~= a + b.drop_last());
        assert((a + b).last() == b.last());
    }
}

proof fn lemma_count_char_contains(s: Seq<char>, c: char)
    ensures
        count_char(s, c) > 0 <==> s.contains(c),
    decreases s.len(),
{
    if s.len() > 0 {
        lemma_count_char_contains(s.drop_last(), c);
        if s.drop_last().contains(c) {
            let i = choose|i: int| 0 <= i < s.drop_last().len() && s.drop_last()[i] == c;
            assert(s[i] == c);
        }
        if s.contains(c) {
            let i = choose|i: int| 0 <= i < s.len() && s[i] == c;
            if i < s.len() - 1 {
                assert(s.drop_last()[i] == c);
            }
        }
        if s.last() == c {
            assert(s[s.len() - 1] == c);
        }
    }
}

/// An address made of a non-empty name, one `@` and a domain is accepted
/// whenever the domain holds a dot, begins and ends with something else, and
/// nothing in the address is white space or a second `@`: domains with any
/// number of dots (`mail.co.uk`, `cs.univ.edu`) are accepted.
pub proof fn law_dotted_domains_accepted(name: Seq<char>, domain: Seq<char>)
    requires
        name.len() > 0,
        domain.len() > 0,
        !name.contains('@'),
        !domain.contains('@'),
        domain.contains('.'),
        domain[0] != '.',
        domain.last() != '.',
        no_white_space(name),
        no_white_space(domain),
        name.len() + 1 + domain.len() <= 254,
    ensures
        email_shape(name + seq!['@'] + domain),
{
    let s = name + seq!['@'] + domain;
    let at = name.len() as int;
    assert forall|j: int| 0 <= j < at implies s[j] != '@' by {
        assert(s[j] == name[j]);
        if s[j] == '@' {
            assert(name.contains('@'));
        }
    }
    assert(s[at] == '@');
    lemma_first_index_prefix(s, '@', at);
    assert(s.skip(at + 1) =~= domain);
    lemma_count_char_concat(name + seq!['@'], domain, '@');
    lemma_count_char_concat(name, seq!['@'], '@');
    lemma_count_char_contains(name, '@');
    lemma_count_char_contains(domain, '@');
    lemma_count_char_contains(domain, '.');
    let one = seq!['@'];
    assert(one.drop_last() =~= Seq::<char>::empty());
    assert(count_char(one.drop_last(), '@') == 0);
    assert(one.last() == '@');
    assert(count_char(one, '@') == 1);
    assert forall|i: int| 0 <= i < s.len() implies !is_white_space(#[trigger] s[i]) by {
        if i < at {
            assert(s[i] == name[i]);
        } else if i > at {
            assert(s[i] == domain[i - at - 1]);
        }
    }
}

/// In particular a domain of three non-empty labels joined by dots is
/// accepted.
pub proof fn law_three_label_domain_accepted(name: Seq<char>, d1: Seq<char>, d2: Seq<char>, d3: Seq<char>)
    requires
        name.len() > 0,
        d1.len() > 0,
        d2.len() > 0,
        d3.len() > 0,
        !name.contains('@'),
        !d1.contains('@') && !d2.contains('@') && !d3.contains('@'),
        !d1.contains('.') && !d3.contains('.'),
        no_white_space(name),
        no_white_space(d1) && no_white_space(d2) && no_white_space(d3),
        name.len() + d1.len() + d2.len() + d3.len() + 3 <= 254,
    ensures
        email_shape(name + seq!['@'] + (d1 + seq!['.'] + d2 + seq!['.'] + d3)),
{
    let d = d1 + seq!['.'] + d2 + seq!['.'] + d3;
    let k1 = d1.len() as int;
    let k2 = k1 + 1 + d2.len();
    assert forall|i: int| 0 <= i < d.len() implies d[i] != '@' && !is_white_space(#[trigger] d[i]) by {
        if i < k1 {
            assert(d[i] == d1[i]);
            if d[i] == '@' { assert(d1.contains('@')); }
        } else if i == k1 || i == k2 {
        } else if i < k2 {
            assert(d[i] == d2[i - k1 - 1]);
            if d[i] == '@' { assert(d2.contains('@')); }
        } else {
            assert(d[i] == d3[i - k2 - 1]);
            if d[i] == '@' { assert(d3.contains('@')); }
        }
    }
    assert(!d.contains('@'));
    assert(d[k1] == '.');
    assert(d.contains('.'));
    assert(d[0] == d1[0]);
    assert(d1.contains(d1[0]));
    assert(d.last() == d3.last());
    assert(d3.contains(d3.last()));
    law_dotted_domains_accepted(name, d);
}

proof fn lemma_digit_count_all(s: Seq<char>)
    requires
        forall|i: int| 0 <= i < s.len() ==> is_digit(#[trigger] s[i]),
    ensures
        digit_count(s) == s.len(),
    decreases s.len(),
{
    if s.len() > 0 {
        assert forall|i: int| 0 <= i < s.drop_last().len() implies is_digit(#[trigger] s.drop_last()[i]) by {
            assert(s.drop_last()[i] == s[i]);
        }
        lemma_digit_count_all(s.drop_last());
        assert(is_digit(s[s.len() - 1]));
    }
}

/// A number written with digits only, with or without a leading `+`, is a
/// phone number exactly when it has 10 to 15 digits.
pub proof fn law_digit_numbers_are_phones(digits: Seq<char>)
    requires
        forall|i: int| 0 <= i < digits.len() ==> is_digit(#[trigger] digits[i]),
    ensures
        phone_shape(digits) <==> 10 <= digits.len() <= 15,
        phone_shape(seq!['+'] + digits) <==> 10 <= digits.len() <= 15,
{
    lemma_digit_count_all(digits);
    let plus = seq!['+'] + digits;
    assert(plus.drop_first() =~= digits);
    if digits.len() > 0 {
        assert(is_digit(digits[0]));
        assert(digits[0] != '+');
    }
}

} // verus!
