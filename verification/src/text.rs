//! Byte-level text utilities shared by the listing and metadata parsers:
//! whitespace tokenization, separator splitting, decimal numbers, substring
//! search, and conversions to `String`.

use vstd::prelude::*;

verus! {

/// ASCII whitespace as the listing formats use it: space, tab, LF, CR.
pub open spec fn is_ws(b: u8) -> bool {
    b == 32 || b == 9 || b == 10 || b == 13
}

pub fn byte_is_ws(b: u8) -> (r: bool)
    ensures
        r == is_ws(b),
{
    b == 32 || b == 9 || b == 10 || b == 13
}

/// The first index at or after `i` holding whitespace, or the length.
pub open spec fn next_ws(s: Seq<u8>, i: int) -> int
    decreases s.len() - i,
{
    if i < 0 || i >= s.len() {
        s.len() as int
    } else if is_ws(s[i]) {
        i
    } else {
        next_ws(s, i + 1)
    }
}

pub proof fn lemma_next_ws(s: Seq<u8>, i: int)
    requires
        0 <= i <= s.len(),
    ensures
        i <= next_ws(s, i) <= s.len(),
        next_ws(s, i) < s.len() ==> is_ws(s[next_ws(s, i)]),
        forall|j: int| i <= j < next_ws(s, i) ==> !is_ws(s[j]),
    decreases s.len() - i,
{
    if i < s.len() && !is_ws(s[i]) {
        lemma_next_ws(s, i + 1);
    }
}

/// `next_ws` is the only index with its characteristics.
pub proof fn lemma_next_ws_is(s: Seq<u8>, i: int, e: int)
    requires
        0 <= i <= e <= s.len(),
        forall|j: int| i <= j < e ==> !is_ws(s[j]),
        e == s.len() || is_ws(s[e]),
    ensures
        next_ws(s, i) == e,
    decreases e - i,
{
    if i < e {
        assert(!is_ws(s[i]));
        lemma_next_ws_is(s, i + 1, e);
    }
}

/// The whitespace-separated tokens of `s` from index `i` on, defined one
/// byte at a time: a leading non-whitespace byte extends the first token of
/// the rest.
pub open spec fn tokens_from(s: Seq<u8>, i: int) -> Seq<Seq<u8>>
    decreases s.len() - i,
{
    if i < 0 || i >= s.len() {
        Seq::empty()
    } else if is_ws(s[i]) {
        tokens_from(s, i + 1)
    } else {
        let rest = tokens_from(s, i + 1);
        if i + 1 < s.len() && !is_ws(s[i + 1]) {
            seq![seq![s[i]] + rest[0]] + rest.skip(1)
        } else {
            seq![seq![s[i]]] + rest
        }
    }
}

/// The whitespace-separated tokens of `s`.
pub open spec fn spec_tokens(s: Seq<u8>) -> Seq<Seq<u8>> {
    tokens_from(s, 0)
}

/// Unfolding `tokens_from` a whole token at a time: at the start of a token
/// the result is that token followed by the tokens after it.
pub proof fn lemma_tokens_unfold(s: Seq<u8>, i: int)
    requires
        0 <= i < s.len(),
        !is_ws(s[i]),
    ensures
        tokens_from(s, i) == seq![s.subrange(i, next_ws(s, i))] + tokens_from(s, next_ws(s, i)),
    decreases s.len() - i,
{
    lemma_next_ws(s, i);
    let e = next_ws(s, i);
    if i + 1 < s.len() && !is_ws(s[i + 1]) {
        lemma_tokens_unfold(s, i + 1);
        assert(next_ws(s, i + 1) == e);
        let rest = tokens_from(s, i + 1);
        assert(rest[0] == s.subrange(i + 1, e));
        assert(seq![s[i]] + s.subrange(i + 1, e) =~= s.subrange(i, e));
        assert(rest.skip(1) =~= tokens_from(s, e));
        assert(tokens_from(s, i) =~= seq![s.subrange(i, e)] + tokens_from(s, e));
    } else {
        assert(e == i + 1) by {
            lemma_next_ws_is(s, i, i + 1);
        }
        assert(seq![s[i]] =~= s.subrange(i, i + 1));
        assert(tokens_from(s, i) =~= seq![s.subrange(i, e)] + tokens_from(s, e));
    }
}

/// Splits `s` into its whitespace-separated tokens.
pub fn tokens(s: &[u8]) -> (r: Vec<Vec<u8>>)
    ensures
        r.deep_view() == spec_tokens(s@),
{
    let mut r: Vec<Vec<u8>> = Vec::new();
    let mut i: usize = 0;
    while i < s.len()
        invariant
            i <= s.len(),
            r.deep_view() + tokens_from(s@, i as int) == spec_tokens(s@),
        decreases s.len() - i,
    {
        if byte_is_ws(s[i]) {
            proof {
                assert(r.deep_view() + tokens_from(s@, i + 1) =~= r.deep_view() + tokens_from(
                    s@,
                    i as int,
                ));
            }
            i = i + 1;
        } else {
            let start = i;
            let mut j = i + 1;
            while j < s.len() && !byte_is_ws(s[j])
                invariant
                    start < j <= s.len(),
                    forall|k: int| start <= k < j ==> !is_ws(s@[k]),
                decreases s.len() - j,
            {
                j = j + 1;
            }
            proof {
                lemma_next_ws_is(s@, start as int, j as int);
                lemma_tokens_unfold(s@, start as int);
            }
            let tok: Vec<u8> = vstd::slice::slice_to_vec(vstd::slice::slice_subrange(
                s,
                start,
                j,
            ));
            let ghost old_r = r.deep_view();
            r.push(tok);
            proof {
                assert(tok.deep_view() =~= tok@);
                assert(r.deep_view() =~= old_r.push(tok@));
                assert(r.deep_view() + tokens_from(s@, j as int) =~= (old_r + tokens_from(
                    s@,
                    start as int,
                )));
            }
            i = j;
        }
    }
    proof {
        assert(r.deep_view() + tokens_from(s@, i as int) =~= r.deep_view());
    }
    r
}

/// The first index at or after `i` holding `b`, or the length.
pub open spec fn next_byte(s: Seq<u8>, b: u8, i: int) -> int
    decreases s.len() - i,
{
    if i < 0 || i >= s.len() {
        s.len() as int
    } else if s[i] == b {
        i
    } else {
        next_byte(s, b, i + 1)
    }
}

pub proof fn lemma_next_byte(s: Seq<u8>, b: u8, i: int)
    requires
        0 <= i <= s.len(),
    ensures
        i <= next_byte(s, b, i) <= s.len(),
        next_byte(s, b, i) < s.len() ==> s[next_byte(s, b, i)] == b,
        forall|j: int| i <= j < next_byte(s, b, i) ==> s[j] != b,
    decreases s.len() - i,
{
    if i < s.len() && s[i] != b {
        lemma_next_byte(s, b, i + 1);
    }
}

pub proof fn lemma_next_byte_is(s: Seq<u8>, b: u8, i: int, e: int)
    requires
        0 <= i <= e <= s.len(),
        forall|j: int| i <= j < e ==> s[j] != b,
        e == s.len() || s[e] == b,
    ensures
        next_byte(s, b, i) == e,
    decreases e - i,
{
    if i < e {
        lemma_next_byte_is(s, b, i + 1, e);
    }
}

/// The fields of `s` from index `i` on, split at each occurrence of `sep`
/// and keeping empty fields, defined one byte at a time.  The result always
/// holds at least one field.
pub open spec fn fields_from(s: Seq<u8>, sep: u8, i: int) -> Seq<Seq<u8>>
    decreases s.len() - i,
{
    if i < 0 || i >= s.len() {
        seq![Seq::empty()]
    } else if s[i] == sep {
        seq![Seq::empty()] + fields_from(s, sep, i + 1)
    } else {
        let rest = fields_from(s, sep, i + 1);
        seq![seq![s[i]] + rest[0]] + rest.skip(1)
    }
}

/// The fields of `s`, split at each `sep` and keeping empty fields.
pub open spec fn spec_fields(s: Seq<u8>, sep: u8) -> Seq<Seq<u8>> {
    fields_from(s, sep, 0)
}

/// Unfolding `fields_from` a whole field at a time.
pub proof fn lemma_fields_unfold(s: Seq<u8>, sep: u8, i: int)
    requires
        0 <= i <= s.len(),
    ensures
        ({
            let e = next_byte(s, sep, i);
            fields_from(s, sep, i) == if e == s.len() {
                seq![s.subrange(i, e)]
            } else {
                seq![s.subrange(i, e)] + fields_from(s, sep, e + 1)
            }
        }),
    decreases s.len() - i,
{
    lemma_next_byte(s, sep, i);
    let e = next_byte(s, sep, i);
    if i == s.len() {
        assert(s.subrange(i, e) =~= Seq::<u8>::empty());
    } else if s[i] == sep {
        assert(e == i);
        assert(s.subrange(i, i) =~= Seq::<u8>::empty());
    } else {
        lemma_fields_unfold(s, sep, i + 1);
        assert(next_byte(s, sep, i + 1) == e);
        let rest = fields_from(s, sep, i + 1);
        if e == s.len() {
            assert(rest[0] == s.subrange(i + 1, e));
            assert(seq![s[i]] + s.subrange(i + 1, e) =~= s.subrange(i, e));
            assert(rest.skip(1) =~= Seq::<Seq<u8>>::empty());
            assert(fields_from(s, sep, i) =~= seq![s.subrange(i, e)]);
        } else {
            assert(rest[0] == s.subrange(i + 1, e));
            assert(seq![s[i]] + s.subrange(i + 1, e) =~= s.subrange(i, e));
            assert(rest.skip(1) =~= fields_from(s, sep, e + 1));
            assert(fields_from(s, sep, i) =~= seq![s.subrange(i, e)] + fields_from(s, sep, e + 1));
        }
    }
}

/// Splits `s` at each occurrence of `sep`, keeping empty fields.
pub fn fields(s: &[u8], sep: u8) -> (r: Vec<Vec<u8>>)
    ensures
        r.deep_view() == spec_fields(s@, sep),
{
    let mut r: Vec<Vec<u8>> = Vec::new();
    let mut i: usize = 0;
    loop
        invariant_except_break
            i <= s.len(),
            r.deep_view() + fields_from(s@, sep, i as int) == spec_fields(s@, sep),
        ensures
            r.deep_view() == spec_fields(s@, sep),
        decreases s.len() - i,
    {
        let start = i;
        let mut j = i;
        while j < s.len() && s[j] != sep
            invariant
                start <= j <= s.len(),
                forall|k: int| start <= k < j ==> s@[k] != sep,
            decreases s.len() - j,
        {
            j = j + 1;
        }
        proof {
            lemma_next_byte_is(s@, sep, start as int, j as int);
            lemma_fields_unfold(s@, sep, start as int);
        }
        let fld: Vec<u8> = vstd::slice::slice_to_vec(vstd::slice::slice_subrange(s, start, j));
        let ghost old_r = r.deep_view();
        r.push(fld);
        proof {
            assert(fld.deep_view() =~= fld@);
            assert(r.deep_view() =~= old_r.push(fld@));
        }
        if j == s.len() {
            proof {
                assert(r.deep_view() =~= old_r + fields_from(s@, sep, start as int));
            }
            break ;
        }
        proof {
            assert(r.deep_view() + fields_from(s@, sep, j + 1) =~= old_r + fields_from(
                s@,
                sep,
                start as int,
            ));
        }
        i = j + 1;
    }
    r
}

/// ASCII decimal digit.
pub open spec fn is_digit(b: u8) -> bool {
    48 <= b <= 57
}

pub open spec fn all_digits(t: Seq<u8>) -> bool {
    forall|k: int| 0 <= k < t.len() ==> is_digit(t[k])
}

/// The number a digit string denotes, most significant digit first.
pub open spec fn num_of(t: Seq<u8>) -> nat
    decreases t.len(),
{
    if t.len() == 0 {
        0
    } else {
        (num_of(t.drop_last()) * 10 + (t.last() - 48)) as nat
    }
}

/// A longer digit string never denotes a smaller number.
pub proof fn lemma_num_of_prefix(t: Seq<u8>, i: int)
    requires
        0 <= i <= t.len(),
        all_digits(t),
    ensures
        num_of(t.take(i)) <= num_of(t),
    decreases t.len() - i,
{
    if i < t.len() {
        assert(t.take(i + 1).drop_last() =~= t.take(i));
        assert(t.take(i + 1).last() == t[i]);
        assert(num_of(t.take(i)) <= num_of(t.take(i + 1)));
        lemma_num_of_prefix(t, i + 1);
    } else {
        assert(t.take(i) =~= t);
    }
}

/// What `parse_u32` accepts: a nonempty all-digit string whose value fits.
pub open spec fn spec_parse_u32(t: Seq<u8>) -> Option<u32> {
    if t.len() > 0 && all_digits(t) && num_of(t) <= u32::MAX {
        Some(num_of(t) as u32)
    } else {
        None
    }
}

/// Parses an unsigned decimal number; rejects anything but digits, the
/// empty string, and values that do not fit.
pub fn parse_u32(t: &[u8]) -> (r: Option<u32>)
    ensures
        r == spec_parse_u32(t@),
{
    if t.len() == 0 {
        return None;
    }
    let mut acc: u64 = 0;
    let mut i: usize = 0;
    while i < t.len()
        invariant
            i <= t.len(),
            t@.len() > 0,
            forall|k: int| 0 <= k < i ==> is_digit(t@[k]),
            acc == num_of(t@.take(i as int)),
            acc <= u32::MAX,
        decreases t.len() - i,
    {
        let b = t[i];
        if b < 48 || b > 57 {
            return None;
        }
        proof {
            assert(t@.take(i + 1).drop_last() =~= t@.take(i as int));
        }
        acc = acc * 10 + ((b - 48) as u64);
        i = i + 1;
        if acc > 0xffff_ffff {
            proof {
                if all_digits(t@) {
                    lemma_num_of_prefix(t@, i as int);
                }
            }
            return None;
        }
    }
    proof {
        assert(t@.take(i as int) =~= t@);
    }
    Some(acc as u32)
}

/// Whether `n` occurs as a contiguous run inside `h`.
pub open spec fn contains_seq(h: Seq<u8>, n: Seq<u8>) -> bool {
    exists|k: int| 0 <= k && k + n.len() <= h.len() && #[trigger] h.subrange(k, k + n.len()) == n
}

/// Substring search by direct comparison at every offset.
pub fn contains_bytes(h: &[u8], n: &[u8]) -> (r: bool)
    ensures
        r == contains_seq(h@, n@),
{
    if n.len() > h.len() {
        return false;
    }
    let mut k: usize = 0;
    while k <= h.len() - n.len()
        invariant
            h@.len() <= usize::MAX,
            n@.len() <= h@.len(),
            k <= h@.len() - n@.len() + 1,
            forall|m: int| 0 <= m < k ==> #[trigger] h@.subrange(m, m + n@.len()) != n@,
        decreases h.len() - n.len() + 1 - k,
    {
        let mut j: usize = 0;
        let mut matched = true;
        while j < n.len() && matched
            invariant
                h@.len() <= usize::MAX,
                n@.len() <= h@.len(),
                k + n@.len() <= h@.len(),
                j <= n@.len(),
                !matched ==> n@.len() >= 1,
                matched ==> forall|m: int| 0 <= m < j ==> h@[k + m] == #[trigger] n@[m],
                !matched ==> h@.subrange(k as int, k + n@.len()) != n@,
            decreases n.len() - j + (if matched { 1int } else { 0int }),
        {
            if h[k + j] == n[j] {
                j = j + 1;
            } else {
                proof {
                    assert(h@.subrange(k as int, k + n@.len())[j as int] != n@[j as int]);
                }
                matched = false;
            }
        }
        if matched {
            proof {
                assert(h@.subrange(k as int, k + n@.len()) =~= n@);
            }
            return true;
        }
        k = k + 1;
    }
    proof {
        assert forall|m: int| 0 <= m && m + n@.len() <= h@.len() implies #[trigger] h@.subrange(
            m,
            m + n@.len(),
        ) != n@ by {
            assert(m < k);
        }
    }
    false
}

/// Byte-for-byte equality of two slices.
pub fn bytes_eq(a: &[u8], b: &[u8]) -> (r: bool)
    ensures
        r == (a@ == b@),
{
    if a.len() != b.len() {
        proof {
            assert(a@ != b@);
        }
        return false;
    }
    let mut i: usize = 0;
    while i < a.len()
        invariant
            a@.len() == b@.len(),
            i <= a@.len(),
            forall|k: int| 0 <= k < i ==> a@[k] == b@[k],
        decreases a.len() - i,
    {
        if a[i] != b[i] {
            return false;
        }
        i = i + 1;
    }
    proof {
        assert(a@ =~= b@);
    }
    true
}

/// Indexing the deep view of a vector of byte vectors.
pub proof fn lemma_deep_index(v: &Vec<Vec<u8>>, i: int)
    requires
        0 <= i < v@.len(),
    ensures
        v.deep_view()[i] == v@[i]@,
{
    assert(v@[i].deep_view() =~= v@[i]@);
}

/// The last index holding `b`, or `-1` if none does.
pub open spec fn last_index_of(s: Seq<u8>, b: u8) -> int
    decreases s.len(),
{
    if s.len() == 0 {
        -1
    } else if s.last() == b {
        s.len() - 1
    } else {
        last_index_of(s.drop_last(), b)
    }
}

pub fn find_last(s: &[u8], b: u8) -> (r: Option<usize>)
    ensures
        match r {
            Some(i) => i < s@.len() && last_index_of(s@, b) == i as int,
            None => last_index_of(s@, b) == -1,
        },
{
    let mut i: usize = s.len();
    proof {
        assert(s@.take(s@.len() as int) =~= s@);
    }
    while i > 0
        invariant
            i <= s.len(),
            last_index_of(s@, b) == last_index_of(s@.take(i as int), b),
        decreases i,
    {
        proof {
            assert(s@.take(i as int).drop_last() =~= s@.take(i - 1));
            assert(s@.take(i as int).last() == s@[i - 1]);
        }
        if s[i - 1] == b {
            return Some(i - 1);
        }
        i = i - 1;
    }
    proof {
        assert(s@.take(0) =~= Seq::<u8>::empty());
    }
    None
}

/// Appends one character to a string.
///
/// Relies on `String::push`, which the standard library documents as
/// appending the given `char` to the end of the string.
#[verifier::external_body]
fn push_char(s: &mut String, c: char)
    ensures
        final(s)@ == old(s)@.push(c),
{
    s.push(c);
}

/// The decimal digits of `n`, most significant first.
pub open spec fn dec_digits(n: nat) -> Seq<char>
    decreases n,
{
    if n < 10 {
        seq![((48 + n) as u8) as char]
    } else {
        dec_digits(n / 10).push(((48 + n % 10) as u8) as char)
    }
}

/// Appends the decimal form of `n`.
pub fn push_decimal(s: &mut String, n: u32)
    ensures
        final(s)@ == old(s)@ + dec_digits(n as nat),
    decreases n,
{
    if n >= 10 {
        push_decimal(s, n / 10);
    }
    let d: u8 = 48 + (n % 10) as u8;
    push_char(s, d as char);
    proof {
        if n < 10 {
            assert(old(s)@ + dec_digits(n as nat) =~= old(s)@.push(d as char));
        } else {
            assert(old(s)@ + dec_digits(n as nat) =~= (old(s)@ + dec_digits(
                (n / 10) as nat,
            )).push(d as char));
        }
    }
}

/// The decimal form of `n` as a string.
pub fn u32_to_string(n: u32) -> (r: String)
    ensures
        r@ == dec_digits(n as nat),
{
    let mut s = String::new();
    push_decimal(&mut s, n);
    proof {
        assert(Seq::<char>::empty() + dec_digits(n as nat) =~= dec_digits(n as nat));
    }
    s
}

/// Each byte read as the character with the same code point.
pub open spec fn chars_of_bytes(s: Seq<u8>) -> Seq<char> {
    s.map(|i: int, b: u8| b as char)
}

/// Converts bytes to a string byte by byte; listings handled here are ASCII,
/// where this agrees with UTF-8 decoding.
pub fn bytes_to_string(v: &[u8]) -> (r: String)
    ensures
        r@ == chars_of_bytes(v@),
{
    let mut s = String::new();
    let mut i: usize = 0;
    while i < v.len()
        invariant
            i <= v.len(),
            s@ == chars_of_bytes(v@.take(i as int)),
        decreases v.len() - i,
    {
        push_char(&mut s, v[i] as char);
        proof {
            assert(chars_of_bytes(v@.take(i + 1)) =~= chars_of_bytes(v@.take(i as int)).push(
                v@[i as int] as char,
            ));
        }
        i = i + 1;
    }
    proof {
        assert(v@.take(i as int) =~= v@);
    }
    s
}


/// Whether a character counts as alphanumeric.
///
/// Relies on `char::is_alphanumeric` of the standard library: the verdict
/// is a function of the character alone (the Unicode `Alphabetic` and
/// `Number` categories).
pub uninterp spec fn char_alnum(c: char) -> bool;

pub assume_specification[ char::is_alphanumeric ](c: char) -> (r: bool)
    ensures
        r == char_alnum(c),
;

/// The characters an identifier keeps: alphanumerics and the multiplexer's
/// own marker characters.
pub open spec fn keep_id_char(c: char) -> bool {
    char_alnum(c) || c == '%' || c == '@' || c == '-' || c == '_'
}

/// The first `budget` kept characters of `s`, in order.
pub open spec fn spec_sanitize(s: Seq<char>, budget: nat) -> Seq<char>
    decreases s.len(),
{
    if s.len() == 0 || budget == 0 {
        Seq::empty()
    } else if keep_id_char(s[0]) {
        seq![s[0]] + spec_sanitize(s.skip(1), (budget - 1) as nat)
    } else {
        spec_sanitize(s.skip(1), budget)
    }
}

/// Drops problematic characters from a pane or window identifier and caps
/// its length at fifty characters.
pub fn sanitize_id(id: &str) -> (r: String)
    ensures
        r@ == spec_sanitize(id@, 50),
{
    let n = id.unicode_len();
    let mut out = String::new();
    let mut count: usize = 0;
    let mut i: usize = 0;
    proof {
        assert(id@.skip(0) =~= id@);
        assert(out@ + spec_sanitize(id@, 50) =~= spec_sanitize(id@, 50));
    }
    while i < n && count < 50
        invariant
            i <= n,
            n == id@.len(),
            count == out@.len(),
            count <= 50,
            out@ + spec_sanitize(id@.skip(i as int), (50 - count) as nat) == spec_sanitize(
                id@,
                50,
            ),
        decreases n - i,
    {
        let c = id.get_char(i);
        proof {
            assert(id@.skip(i as int)[0] == id@[i as int]);
            assert(id@.skip(i as int).skip(1) =~= id@.skip(i + 1));
        }
        if c.is_alphanumeric() || c == '%' || c == '@' || c == '-' || c == '_' {
            push_char(&mut out, c);
            count = count + 1;
            proof {
                assert(out@ + spec_sanitize(id@.skip(i + 1), (50 - count) as nat) =~= (out@.drop_last()
                    + (seq![id@[i as int]] + spec_sanitize(id@.skip(i + 1), (50 - count) as nat))));
            }
        }
        i = i + 1;
    }
    proof {
        if i == n {
            assert(id@.skip(i as int) =~= Seq::<char>::empty());
        }
        assert(out@ + spec_sanitize(id@.skip(i as int), (50 - count) as nat) =~= out@);
    }
    out
}

} // verus!
