//! Byte-level text helpers shared by the validators: searching, splitting,
//! whitespace tokenising and decimal parsing, each with the meaning that the
//! corresponding `str` operation of Rust's standard library has on ASCII
//! separators.

use vstd::prelude::*;
use vstd::string::StringSliceAdditionalSpecFns;

verus! {

/// Index of the first occurrence of `b` in `s`, or `-1` when there is none.
pub open spec fn index_of(s: Seq<u8>, b: u8) -> int
    decreases s.len(),
{
    if s.len() == 0 {
        -1
    } else if s[0] == b {
        0
    } else {
        let r = index_of(s.drop_first(), b);
        if r < 0 {
            -1
        } else {
            r + 1
        }
    }
}

pub proof fn lemma_index_of(s: Seq<u8>, b: u8)
    ensures
        -1 <= index_of(s, b) < s.len(),
        index_of(s, b) == -1 <==> (forall|j: int| 0 <= j < s.len() ==> s[j] != b),
        index_of(s, b) >= 0 ==> s[index_of(s, b)] == b,
        forall|j: int| 0 <= j < index_of(s, b) ==> s[j] != b,
    decreases s.len(),
{
    if s.len() > 0 && s[0] != b {
        lemma_index_of(s.drop_first(), b);
        let r = index_of(s.drop_first(), b);
        assert forall|j: int| 0 <= j < index_of(s, b) implies s[j] != b by {
            if j > 0 {
                assert(s[j] == s.drop_first()[j - 1]);
            }
        }
        if r == -1 {
            assert forall|j: int| 0 <= j < s.len() implies s[j] != b by {
                if j > 0 {
                    assert(s[j] == s.drop_first()[j - 1]);
                }
            }
        } else {
            assert(s[r + 1] == s.drop_first()[r]);
        }
    }
}

/// The first occurrence is characterised by what precedes it.
pub proof fn lemma_index_of_at(s: Seq<u8>, b: u8, i: int)
    requires
        0 <= i < s.len(),
        s[i] == b,
        forall|j: int| 0 <= j < i ==> s[j] != b,
    ensures
        index_of(s, b) == i,
{
    lemma_index_of(s, b);
}

/// `s.split(sep)` of Rust's standard library, for a single-byte separator.
pub open spec fn split(s: Seq<u8>, sep: u8) -> Seq<Seq<u8>>
    decreases s.len(),
{
    let i = index_of(s, sep);
    if i < 0 {
        seq![s]
    } else {
        proof {
            lemma_index_of(s, sep);
        }
        seq![s.take(i)] + split(s.skip(i + 1), sep)
    }
}

/// `s.split_once(sep)` of Rust's standard library, for a single-byte separator.
pub open spec fn split_once(s: Seq<u8>, sep: u8) -> Option<(Seq<u8>, Seq<u8>)> {
    let i = index_of(s, sep);
    if i < 0 {
        None
    } else {
        Some((s.take(i), s.skip(i + 1)))
    }
}

/// Searches `s` from position `from` for the byte `b`.
pub fn find_from(s: &[u8], from: usize, b: u8) -> (res: Option<usize>)
    requires
        from <= s@.len(),
    ensures
        match res {
            None => index_of(s@.skip(from as int), b) == -1,
            Some(i) => from <= i < s@.len() && i - from == index_of(s@.skip(from as int), b),
        },
{
    let mut i = from;
    while i < s.len()
        invariant
            from <= i <= s@.len(),
            forall|j: int| from <= j < i ==> s@[j] != b,
        decreases s@.len() - i,
    {
        if s[i] == b {
            proof {
                let t = s@.skip(from as int);
                assert forall|j: int| 0 <= j < i - from implies t[j] != b by {
                    assert(t[j] == s@[j + from]);
                }
                lemma_index_of_at(t, b, i - from);
            }
            return Some(i);
        }
        i += 1;
    }
    proof {
        let t = s@.skip(from as int);
        lemma_index_of(t, b);
        assert forall|j: int| 0 <= j < t.len() implies t[j] != b by {
            assert(t[j] == s@[j + from]);
        }
    }
    None
}

/// Whether `s` holds the byte `b`.
pub fn contains_byte(s: &[u8], b: u8) -> (res: bool)
    ensures
        res == s@.contains(b),
{
    let r = find_from(s, 0, b);
    proof {
        assert(s@.skip(0) =~= s@);
        lemma_index_of(s@, b);
        if r is None {
            assert forall|j: int| 0 <= j < s@.len() implies s@[j] != b by {}
        } else {
            assert(s@[r.unwrap() as int] == b);
        }
    }
    r.is_some()
}

/// Splits off the first piece of `s.split(sep)`: that piece, and what
/// remains after the separator when there is one.
pub proof fn lemma_split_step(s: Seq<u8>, sep: u8)
    ensures
        index_of(s, sep) < 0 ==> split(s, sep) == seq![s],
        index_of(s, sep) >= 0 ==> split(s, sep) == seq![s.take(index_of(s, sep))] + split(
            s.skip(index_of(s, sep) + 1),
            sep,
        ),
        split(s, sep).len() >= 1,
        split(s, sep)[0] == (if index_of(s, sep) < 0 {
            s
        } else {
            s.take(index_of(s, sep))
        }),
{
    lemma_index_of(s, sep);
}

pub open spec fn is_digit(b: u8) -> bool {
    48 <= b <= 57
}

pub open spec fn all_digits(s: Seq<u8>) -> bool {
    forall|i: int| 0 <= i < s.len() ==> is_digit(#[trigger] s[i])
}

/// The number that a string of decimal digits denotes.
pub open spec fn decimal_value(s: Seq<u8>) -> nat
    decreases s.len(),
{
    if s.len() == 0 {
        0
    } else {
        decimal_value(s.drop_last()) * 10 + (s.last() - 48) as nat
    }
}

/// The unsigned digits that `str::parse` reads: an optional `+` sign, then at
/// least one decimal digit.
pub open spec fn unsigned_digits(s: Seq<u8>) -> Seq<u8> {
    if s.len() > 0 && s[0] == 43u8 {
        s.skip(1)
    } else {
        s
    }
}

/// `s.parse::<uN>()` of Rust's standard library, where `max` is `uN::MAX`.
pub open spec fn parse_unsigned(s: Seq<u8>, max: nat) -> Option<nat> {
    let d = unsigned_digits(s);
    if d.len() > 0 && all_digits(d) && decimal_value(d) <= max {
        Some(decimal_value(d))
    } else {
        None
    }
}

pub open spec fn parse_u32_spec(s: Seq<u8>) -> Option<u32> {
    match parse_unsigned(s, u32::MAX as nat) {
        Some(v) => Some(v as u32),
        None => None,
    }
}

pub open spec fn parse_u64_spec(s: Seq<u8>) -> Option<u64> {
    match parse_unsigned(s, u64::MAX as nat) {
        Some(v) => Some(v as u64),
        None => None,
    }
}

proof fn lemma_decimal_prefix_grows(s: Seq<u8>, k: int)
    requires
        0 <= k <= s.len(),
        all_digits(s),
    ensures
        decimal_value(s.take(k)) <= decimal_value(s),
    decreases s.len() - k,
{
    if k < s.len() {
        lemma_decimal_prefix_grows(s, k + 1);
        assert(s.take(k + 1).drop_last() =~= s.take(k));
    } else {
        assert(s.take(k) =~= s);
    }
}

/// Parses the decimal digits `d` (with no sign) as a number of at most `max`.
fn parse_digits(d: &[u8], max: u64) -> (res: Option<u64>)
    requires
        max >= 9,
    ensures
        match res {
            Some(v) => d@.len() > 0 && all_digits(d@) && decimal_value(d@) <= max && v
                == decimal_value(d@),
            None => !(d@.len() > 0 && all_digits(d@) && decimal_value(d@) <= max),
        },
{
    if d.len() == 0 {
        return None;
    }
    let mut acc: u64 = 0;
    let mut i: usize = 0;
    while i < d.len()
        invariant
            0 <= i <= d@.len(),
            all_digits(d@.take(i as int)),
            acc == decimal_value(d@.take(i as int)),
            acc <= max,
            max >= 9,
        decreases d@.len() - i,
    {
        let c = d[i];
        if c < 48 || c > 57 {
            return None;
        }
        let digit = (c - 48) as u64;
        proof {
            assert(d@.take(i + 1).drop_last() =~= d@.take(i as int));
            assert(d@.take(i + 1).last() == c);
        }
        if acc > (max - digit) / 10 {
            proof {
                assert(acc * 10 + digit > max);
                assert(all_digits(d@.take(i + 1)));
                if all_digits(d@) {
                    lemma_decimal_prefix_grows(d@, i + 1);
                }
            }
            return None;
        }
        acc = acc * 10 + digit;
        i += 1;
        proof {
            assert forall|j: int| 0 <= j < i implies is_digit(#[trigger] d@.take(i as int)[j]) by {
                if j < i - 1 {
                    assert(d@.take(i as int)[j] == d@.take(i - 1)[j]);
                }
            }
        }
    }
    proof {
        assert(d@.take(i as int) =~= d@);
    }
    Some(acc)
}

/// `s.parse::<u32>()`, with `None` where the standard library reports an error.
pub fn parse_u32(s: &[u8]) -> (res: Option<u32>)
    ensures
        res == parse_u32_spec(s@),
{
    let d = if s.len() > 0 && s[0] == 43u8 {
        &s[1..s.len()]
    } else {
        s
    };
    proof {
        if s@.len() > 0 && s@[0] == 43u8 {
            assert(d@ =~= s@.skip(1));
        }
    }
    match parse_digits(d, 0xffff_ffffu64) {
        Some(v) => Some(v as u32),
        None => None,
    }
}

/// `s.parse::<u64>()`, with `None` where the standard library reports an error.
pub fn parse_u64(s: &[u8]) -> (res: Option<u64>)
    ensures
        res == parse_u64_spec(s@),
{
    let d = if s.len() > 0 && s[0] == 43u8 {
        &s[1..s.len()]
    } else {
        s
    };
    proof {
        if s@.len() > 0 && s@[0] == 43u8 {
            assert(d@ =~= s@.skip(1));
        }
    }
    parse_digits(d, u64::MAX)
}

/// The ASCII whitespace of `u8::is_ascii_whitespace`: space, tab, line feed,
/// form feed and carriage return.
pub open spec fn is_ascii_whitespace(b: u8) -> bool {
    b == 32u8 || b == 9u8 || b == 10u8 || b == 12u8 || b == 13u8
}

/// `u8::is_ascii_control`.
pub open spec fn is_ascii_control(b: u8) -> bool {
    b < 32u8 || b == 127u8
}

pub open spec fn is_ascii_uppercase(b: u8) -> bool {
    65u8 <= b <= 90u8
}

pub open spec fn is_ascii_lowercase(b: u8) -> bool {
    97u8 <= b <= 122u8
}

/// Number of leading whitespace bytes of `s`.
pub open spec fn leading_whitespace(s: Seq<u8>) -> nat
    decreases s.len(),
{
    if s.len() > 0 && is_ascii_whitespace(s[0]) {
        1 + leading_whitespace(s.drop_first())
    } else {
        0
    }
}

/// Number of leading non-whitespace bytes of `s`.
pub open spec fn leading_word(s: Seq<u8>) -> nat
    decreases s.len(),
{
    if s.len() > 0 && !is_ascii_whitespace(s[0]) {
        1 + leading_word(s.drop_first())
    } else {
        0
    }
}

pub proof fn lemma_leading_whitespace(s: Seq<u8>)
    ensures
        leading_whitespace(s) <= s.len(),
        forall|j: int| 0 <= j < leading_whitespace(s) ==> is_ascii_whitespace(s[j]),
        leading_whitespace(s) < s.len() ==> !is_ascii_whitespace(s[leading_whitespace(s) as int]),
    decreases s.len(),
{
    if s.len() > 0 && is_ascii_whitespace(s[0]) {
        lemma_leading_whitespace(s.drop_first());
        assert forall|j: int| 0 <= j < leading_whitespace(s) implies is_ascii_whitespace(s[j]) by {
            if j > 0 {
                assert(s[j] == s.drop_first()[j - 1]);
            }
        }
        if leading_whitespace(s) < s.len() {
            assert(s[leading_whitespace(s) as int] == s.drop_first()[leading_whitespace(
                s.drop_first(),
            ) as int]);
        }
    }
}

pub proof fn lemma_leading_word(s: Seq<u8>)
    ensures
        leading_word(s) <= s.len(),
        forall|j: int| 0 <= j < leading_word(s) ==> !is_ascii_whitespace(s[j]),
        leading_word(s) < s.len() ==> is_ascii_whitespace(s[leading_word(s) as int]),
    decreases s.len(),
{
    if s.len() > 0 && !is_ascii_whitespace(s[0]) {
        lemma_leading_word(s.drop_first());
        assert forall|j: int| 0 <= j < leading_word(s) implies !is_ascii_whitespace(s[j]) by {
            if j > 0 {
                assert(s[j] == s.drop_first()[j - 1]);
            }
        }
        if leading_word(s) < s.len() {
            assert(s[leading_word(s) as int] == s.drop_first()[leading_word(s.drop_first()) as int]);
        }
    }
}

/// `s.split_ascii_whitespace()` of Rust's standard library: the maximal runs
/// of non-whitespace bytes, in order.
pub open spec fn words(s: Seq<u8>) -> Seq<Seq<u8>>
    decreases s.len(),
{
    let t = s.skip(leading_whitespace(s) as int);
    proof {
        lemma_leading_whitespace(s);
        lemma_leading_word(t);
    }
    if t.len() == 0 {
        Seq::empty()
    } else {
        let w = leading_word(t);
        seq![t.take(w as int)] + words(t.skip(w as int))
    }
}

proof fn lemma_leading_whitespace_skip(s: Seq<u8>, k: int)
    requires
        0 <= k <= s.len(),
        forall|j: int| 0 <= j < k ==> is_ascii_whitespace(s[j]),
    ensures
        leading_whitespace(s) == k + leading_whitespace(s.skip(k)),
    decreases k,
{
    if k > 0 {
        assert(s.drop_first().skip(k - 1) =~= s.skip(k));
        assert forall|j: int| 0 <= j < k - 1 implies is_ascii_whitespace(s.drop_first()[j]) by {
            assert(s.drop_first()[j] == s[j + 1]);
        }
        lemma_leading_whitespace_skip(s.drop_first(), k - 1);
    } else {
        assert(s.skip(0) =~= s);
    }
}

proof fn lemma_leading_word_exact(s: Seq<u8>, k: int)
    requires
        0 <= k <= s.len(),
        forall|j: int| 0 <= j < k ==> !is_ascii_whitespace(s[j]),
        k == s.len() || is_ascii_whitespace(s[k]),
    ensures
        leading_word(s) == k,
    decreases k,
{
    if k > 0 {
        assert forall|j: int| 0 <= j < k - 1 implies !is_ascii_whitespace(s.drop_first()[j]) by {
            assert(s.drop_first()[j] == s[j + 1]);
        }
        if k < s.len() {
            assert(s.drop_first()[k - 1] == s[k]);
        }
        lemma_leading_word_exact(s.drop_first(), k - 1);
    }
}

/// `s.split_ascii_whitespace().collect::<Vec<_>>()`, each word as its bytes.
pub fn split_ascii_whitespace(s: &[u8]) -> (res: Vec<Vec<u8>>)
    ensures
        res@.len() == words(s@).len(),
        forall|i: int| 0 <= i < res@.len() ==> (#[trigger] res@[i])@ == words(s@)[i],
{
    let mut out: Vec<Vec<u8>> = Vec::new();
    let mut pos: usize = 0;
    proof {
        assert(s@.skip(0) =~= s@);
        assert(out@.map_values(|w: Vec<u8>| w@) =~= Seq::<Seq<u8>>::empty());
    }
    while pos < s.len()
        invariant
            0 <= pos <= s@.len(),
            words(s@) == out@.map_values(|w: Vec<u8>| w@) + words(s@.skip(pos as int)),
        decreases s@.len() - pos,
    {
        let ghost rest = s@.skip(pos as int);
        let mut start = pos;
        while start < s.len() && (s[start] == 32u8 || s[start] == 9u8 || s[start] == 10u8
            || s[start] == 12u8 || s[start] == 13u8)
            invariant
                pos <= start <= s@.len(),
                forall|j: int| pos <= j < start ==> is_ascii_whitespace(s@[j]),
            decreases s@.len() - start,
        {
            start += 1;
        }
        proof {
            assert forall|j: int| 0 <= j < start - pos implies is_ascii_whitespace(rest[j]) by {
                assert(rest[j] == s@[j + pos]);
            }
            lemma_leading_whitespace_skip(rest, start - pos);
            assert(rest.skip(start - pos) =~= s@.skip(start as int));
            if start < s@.len() {
                assert(s@.skip(start as int)[0] == s@[start as int]);
            }
            lemma_leading_whitespace(s@.skip(start as int));
            if start < s@.len() {
                assert(leading_whitespace(s@.skip(start as int)) == 0);
            } else {
                assert(s@.skip(start as int).len() == 0);
            }
            assert(leading_whitespace(rest) == start - pos);
        }
        if start == s.len() {
            proof {
                assert(words(rest) =~= Seq::<Seq<u8>>::empty());
                assert(s@.skip(start as int) =~= Seq::<u8>::empty());
                assert(words(s@.skip(start as int)) =~= Seq::<Seq<u8>>::empty());
            }
            pos = start;
        } else {
            let mut end = start;
            while end < s.len() && !(s[end] == 32u8 || s[end] == 9u8 || s[end] == 10u8 || s[end]
                == 12u8 || s[end] == 13u8)
                invariant
                    start <= end <= s@.len(),
                    forall|j: int| start <= j < end ==> !is_ascii_whitespace(s@[j]),
                decreases s@.len() - end,
            {
                end += 1;
            }
            let word = vstd::slice::slice_to_vec(&s[start..end]);
            proof {
                let t = s@.skip(start as int);
                assert(t =~= rest.skip(leading_whitespace(rest) as int));
                assert forall|j: int| 0 <= j < end - start implies !is_ascii_whitespace(t[j]) by {
                    assert(t[j] == s@[j + start]);
                }
                if end < s@.len() {
                    assert(t[end - start] == s@[end as int]);
                }
                lemma_leading_word_exact(t, end - start);
                assert(t.take(end - start) =~= word@);
                assert(t.skip(end - start) =~= s@.skip(end as int));
                assert(words(rest) == seq![word@] + words(s@.skip(end as int)));
            }
            let ghost before = out@;
            let ghost word_view = word@;
            out.push(word);
            proof {
                assert(out@.map_values(|w: Vec<u8>| w@) =~= before.map_values(|w: Vec<u8>| w@)
                    + seq![word_view]);
            }
            pos = end;
        }
    }
    proof {
        assert(s@.skip(pos as int) =~= Seq::<u8>::empty());
        assert(leading_whitespace(Seq::<u8>::empty()) == 0);
        assert(words(Seq::<u8>::empty()) =~= Seq::<Seq<u8>>::empty());
        assert(words(s@) =~= out@.map_values(|w: Vec<u8>| w@));
    }
    out
}

/// Byte-wise equality of two byte strings.
pub fn bytes_eq(a: &[u8], b: &[u8]) -> (res: bool)
    ensures
        res == (a@ == b@),
{
    if a.len() != b.len() {
        return false;
    }
    let mut i: usize = 0;
    while i < a.len()
        invariant
            0 <= i <= a@.len(),
            a@.len() == b@.len(),
            forall|j: int| 0 <= j < i ==> a@[j] == b@[j],
        decreases a@.len() - i,
    {
        if a[i] != b[i] {
            return false;
        }
        i += 1;
    }
    proof {
        assert(a@ =~= b@);
    }
    true
}

/// Whether the text `value` is exactly `literal`.
pub fn str_is(value: &str, literal: &str) -> (res: bool)
    ensures
        res == (value.spec_bytes() == literal.spec_bytes()),
{
    bytes_eq(value.as_bytes(), literal.as_bytes())
}

/// Appends `data` to `out`.
pub fn push_bytes(out: &mut Vec<u8>, data: &[u8])
    ensures
        final(out)@ == old(out)@ + data@,
{
    let ghost start = out@;
    let mut i: usize = 0;
    while i < data.len()
        invariant
            0 <= i <= data@.len(),
            out@ == start + data@.take(i as int),
        decreases data@.len() - i,
    {
        out.push(data[i]);
        i += 1;
        proof {
            assert(out@ =~= start + data@.take(i as int));
        }
    }
    proof {
        assert(data@.take(i as int) =~= data@);
    }
}

/// Byte-wise lexicographic order: `a` sorts strictly before `b`.
pub open spec fn bytes_lt(a: Seq<u8>, b: Seq<u8>) -> bool
    decreases a.len(),
{
    if a.len() == 0 {
        b.len() > 0
    } else if b.len() == 0 {
        false
    } else if a[0] != b[0] {
        a[0] < b[0]
    } else {
        bytes_lt(a.drop_first(), b.drop_first())
    }
}

/// No byte string sorts before itself, and two distinct ones are ordered one
/// way or the other, never both.
pub proof fn lemma_bytes_lt_total(a: Seq<u8>, b: Seq<u8>)
    ensures
        !bytes_lt(a, a),
        a != b ==> (bytes_lt(a, b) || bytes_lt(b, a)),
        !(bytes_lt(a, b) && bytes_lt(b, a)),
    decreases a.len(),
{
    if a.len() > 0 {
        lemma_bytes_lt_total(a.drop_first(), a.drop_first());
        if b.len() > 0 {
            lemma_bytes_lt_total(a.drop_first(), b.drop_first());
            if a != b && a[0] == b[0] {
                assert(a =~= seq![a[0]] + a.drop_first());
                assert(b =~= seq![b[0]] + b.drop_first());
            }
        }
    } else if b.len() == 0 {
        assert(a =~= b);
    }
}

/// The order is transitive.
pub proof fn lemma_bytes_lt_trans(a: Seq<u8>, b: Seq<u8>, c: Seq<u8>)
    requires
        bytes_lt(a, b),
        bytes_lt(b, c),
    ensures
        bytes_lt(a, c),
    decreases a.len(),
{
    if a.len() > 0 && b.len() > 0 && c.len() > 0 && a[0] == b[0] && b[0] == c[0] {
        lemma_bytes_lt_trans(a.drop_first(), b.drop_first(), c.drop_first());
    }
}

/// Whether `a` sorts strictly before `b`, byte by byte.
pub fn bytes_lt_exec(a: &[u8], b: &[u8]) -> (res: bool)
    ensures
        res == bytes_lt(a@, b@),
{
    let mut i: usize = 0;
    proof {
        assert(a@.skip(0) =~= a@);
        assert(b@.skip(0) =~= b@);
    }
    while i < a.len() && i < b.len()
        invariant
            0 <= i <= a@.len(),
            i <= b@.len(),
            bytes_lt(a@, b@) == bytes_lt(a@.skip(i as int), b@.skip(i as int)),
        decreases a@.len() - i,
    {
        proof {
            assert(a@.skip(i as int).drop_first() =~= a@.skip(i + 1));
            assert(b@.skip(i as int).drop_first() =~= b@.skip(i + 1));
        }
        if a[i] != b[i] {
            return a[i] < b[i];
        }
        i += 1;
    }
    b.len() > i
}

/// Whether `order` holds the index `i`.
pub open spec fn lists_index(order: Seq<usize>, i: int) -> bool {
    exists|q: int| 0 <= q < order.len() && order[q] == i
}

/// `order` lists every index below `keys.len()` once, in increasing order of
/// the keys they point to.
pub open spec fn sorted_order(keys: Seq<Seq<u8>>, order: Seq<usize>) -> bool {
    &&& order.len() == keys.len()
    &&& forall|q: int| 0 <= q < order.len() ==> (#[trigger] order[q]) < keys.len()
    &&& forall|i: int| 0 <= i < keys.len() ==> #[trigger] lists_index(order, i)
    &&& forall|a: int, b: int|
        0 <= a < b < order.len() ==> bytes_lt(keys[#[trigger] order[a] as int], keys[#[trigger] order[b] as int])
}

/// The indices of `keys` in increasing key order, by insertion. The keys are
/// pairwise distinct, so the order is strict.
pub fn sort_keys(keys: &Vec<Vec<u8>>) -> (order: Vec<usize>)
    requires
        forall|i: int, j: int| 0 <= i < j < keys@.len() ==> keys@[i]@ != keys@[j]@,
    ensures
        sorted_order(keys@.map_values(|k: Vec<u8>| k@), order@),
{
    let ghost ks = keys@.map_values(|k: Vec<u8>| k@);
    let mut order: Vec<usize> = Vec::new();
    let mut k: usize = 0;
    while k < keys.len()
        invariant
            0 <= k <= keys@.len(),
            ks == keys@.map_values(|k: Vec<u8>| k@),
            forall|i: int, j: int| 0 <= i < j < keys@.len() ==> keys@[i]@ != keys@[j]@,
            order@.len() == k,
            forall|q: int| 0 <= q < order@.len() ==> (#[trigger] order@[q]) < k,
            forall|i: int| 0 <= i < k ==> #[trigger] lists_index(order@, i),
            forall|a: int, b: int|
                0 <= a < b < order@.len() ==> bytes_lt(ks[#[trigger] order@[a] as int], ks[#[trigger] order@[b] as int]),
        decreases keys@.len() - k,
    {
        let x = keys[k].as_slice();
        let mut pos: usize = 0;
        while pos < order.len() && bytes_lt_exec(keys[order[pos]].as_slice(), x)
            invariant
                0 <= pos <= order@.len(),
                k < keys@.len(),
                x@ == ks[k as int],
                ks == keys@.map_values(|k: Vec<u8>| k@),
                forall|q: int| 0 <= q < order@.len() ==> (#[trigger] order@[q]) < k,
                forall|q: int| 0 <= q < pos ==> bytes_lt(ks[#[trigger] order@[q] as int], ks[k as int]),
            decreases order@.len() - pos,
        {
            pos += 1;
        }
        proof {
            if pos < order@.len() {
                let p = order@[pos as int] as int;
                assert(!bytes_lt(ks[p], ks[k as int]));
                assert(ks[p] != ks[k as int]);
                lemma_bytes_lt_total(ks[p], ks[k as int]);
                assert(bytes_lt(ks[k as int], ks[p]));
                assert forall|b: int| pos <= b < order@.len() implies bytes_lt(
                    ks[k as int],
                    ks[#[trigger] order@[b] as int],
                ) by {
                    if b > pos {
                        lemma_bytes_lt_trans(ks[k as int], ks[p], ks[order@[b] as int]);
                    }
                }
            }
        }
        let ghost old_order = order@;
        order.insert(pos, k);
        proof {
            old_order.insert_ensures(pos as int, k);
            assert forall|a: int, b: int| 0 <= a < b < order@.len() implies bytes_lt(
                ks[#[trigger] order@[a] as int],
                ks[#[trigger] order@[b] as int],
            ) by {
                if b < pos {
                    assert(order@[a] == old_order[a] && order@[b] == old_order[b]);
                } else if b == pos {
                    assert(order@[a] == old_order[a]);
                } else if a < pos {
                    assert(order@[a] == old_order[a] && order@[b] == old_order[b - 1]);
                    if a < pos {
                        lemma_bytes_lt_trans(ks[old_order[a] as int], ks[k as int], ks[old_order[b - 1] as int]);
                    }
                } else if a == pos {
                    assert(order@[b] == old_order[b - 1]);
                } else {
                    assert(order@[a] == old_order[a - 1] && order@[b] == old_order[b - 1]);
                }
            }
            assert forall|i: int| 0 <= i < k + 1 implies #[trigger] lists_index(order@, i) by {
                if i == k {
                    assert(order@[pos as int] == i);
                } else {
                    assert(lists_index(old_order, i));
                    let q = choose|q: int| 0 <= q < old_order.len() && old_order[q] == i;
                    if q < pos {
                        assert(order@[q] == i);
                    } else {
                        assert(order@[q + 1] == i);
                    }
                }
            }
            assert forall|q: int| 0 <= q < order@.len() implies (#[trigger] order@[q]) < k + 1 by {
                if q < pos {
                    assert(order@[q] == old_order[q]);
                } else if q > pos {
                    assert(order@[q] == old_order[q - 1]);
                }
            }
        }
        k += 1;
    }
    order
}

} // verus!
