//! Small verified helpers over strings, and the few string operations of
//! std that vstd leaves unspecified, each behind one trusted wrapper.

use vstd::prelude::*;

verus! {

/// Relies on String::push: appends exactly one character.
#[verifier::external_body]
pub(crate) fn push_char(s: &mut String, c: char)
    ensures
        final(s)@ == old(s)@.push(c),
{
    s.push(c);
}

/// Relies on str's PartialEq: character-for-character equality of two
/// string slices.
#[verifier::external_body]
pub(crate) fn str_eq(a: &str, b: &str) -> (r: bool)
    ensures
        r == (a@ == b@),
{
    a == b
}

/// `s` with every space removed.
pub open spec fn spec_strip_spaces(s: Seq<char>) -> Seq<char>
    decreases s.len(),
{
    if s.len() == 0 {
        Seq::empty()
    } else if s[0] == ' ' {
        spec_strip_spaces(s.skip(1))
    } else {
        seq![s[0]] + spec_strip_spaces(s.skip(1))
    }
}

/// `s` with every `::` pair collapsed to a single `-`.
pub open spec fn spec_dash_colons(s: Seq<char>) -> Seq<char>
    decreases s.len(),
{
    if s.len() == 0 {
        Seq::empty()
    } else if s.len() >= 2 && s[0] == ':' && s[1] == ':' {
        seq!['-'] + spec_dash_colons(s.skip(2))
    } else {
        seq![s[0]] + spec_dash_colons(s.skip(1))
    }
}

/// Removes every space of `s`.
pub fn strip_spaces(s: &str) -> (r: String)
    ensures
        r@ == spec_strip_spaces(s@),
{
    let len = s.unicode_len();
    let mut out = String::new();
    let mut i: usize = 0;
    proof {
        assert(s@.skip(0) =~= s@);
    }
    while i < len
        invariant
            i <= len,
            len == s@.len(),
            spec_strip_spaces(s@) == out@ + spec_strip_spaces(s@.skip(i as int)),
        decreases len - i,
    {
        let c = s.get_char(i);
        proof {
            assert(s@.skip(i as int)[0] == s@[i as int]);
            assert(s@.skip(i as int).skip(1) =~= s@.skip(i + 1));
        }
        if c != ' ' {
            let ghost prev = out@;
            push_char(&mut out, c);
            proof {
                assert(spec_strip_spaces(s@.skip(i as int)) == seq![c] + spec_strip_spaces(
                    s@.skip(i + 1),
                ));
                assert(prev + (seq![c] + spec_strip_spaces(s@.skip(i + 1))) =~= out@
                    + spec_strip_spaces(s@.skip(i + 1)));
            }
        }
        i = i + 1;
    }
    proof {
        assert(s@.skip(len as int) =~= Seq::<char>::empty());
        assert(out@ + Seq::<char>::empty() =~= out@);
    }
    out
}

/// Collapses every `::` pair of `s` to a single `-`.
pub fn dash_colons(s: &str) -> (r: String)
    ensures
        r@ == spec_dash_colons(s@),
{
    let len = s.unicode_len();
    let mut out = String::new();
    let mut i: usize = 0;
    proof {
        assert(s@.skip(0) =~= s@);
    }
    while i < len
        invariant
            i <= len,
            len == s@.len(),
            spec_dash_colons(s@) == out@ + spec_dash_colons(s@.skip(i as int)),
        decreases len - i,
    {
        let c = s.get_char(i);
        proof {
            assert(s@.skip(i as int)[0] == s@[i as int]);
            assert(s@.skip(i as int).skip(1) =~= s@.skip(i + 1));
        }
        if c == ':' && i + 1 < len && s.get_char(i + 1) == ':' {
            proof {
                assert(s@.skip(i as int)[1] == s@[i + 1]);
                assert(s@.skip(i as int).skip(2) =~= s@.skip(i + 2));
            }
            let ghost prev = out@;
            push_char(&mut out, '-');
            proof {
                assert(spec_dash_colons(s@.skip(i as int)) == seq!['-'] + spec_dash_colons(
                    s@.skip(i + 2),
                ));
                assert(prev + (seq!['-'] + spec_dash_colons(s@.skip(i + 2))) =~= out@
                    + spec_dash_colons(s@.skip(i + 2)));
            }
            i = i + 2;
        } else {
            let ghost prev = out@;
            push_char(&mut out, c);
            proof {
                assert(spec_dash_colons(s@.skip(i as int)) == seq![c] + spec_dash_colons(
                    s@.skip(i + 1),
                ));
                assert(prev + (seq![c] + spec_dash_colons(s@.skip(i + 1))) =~= out@
                    + spec_dash_colons(s@.skip(i + 1)));
            }
            i = i + 1;
        }
    }
    proof {
        assert(s@.skip(len as int) =~= Seq::<char>::empty());
        assert(out@ + Seq::<char>::empty() =~= out@);
    }
    out
}

/// Whether `s` opens with `prefix`.
pub open spec fn spec_starts_with(s: Seq<char>, prefix: Seq<char>) -> bool {
    s.len() >= prefix.len() && s.take(prefix.len() as int) == prefix
}

/// Whether `s` closes with `suffix`.
pub open spec fn spec_ends_with(s: Seq<char>, suffix: Seq<char>) -> bool {
    s.len() >= suffix.len() && s.skip(s.len() - suffix.len()) == suffix
}

/// Decides whether `s` opens with `prefix`.
pub fn starts_with(s: &str, prefix: &str) -> (r: bool)
    ensures
        r == spec_starts_with(s@, prefix@),
{
    let n = prefix.unicode_len();
    let len = s.unicode_len();
    if len < n {
        return false;
    }
    let mut i: usize = 0;
    while i < n
        invariant
            i <= n,
            n == prefix@.len(),
            n <= len,
            len == s@.len(),
            forall|k: int| 0 <= k < i ==> s@[k] == prefix@[k],
        decreases n - i,
    {
        if s.get_char(i) != prefix.get_char(i) {
            proof {
                assert(s@.take(n as int)[i as int] != prefix@[i as int]);
            }
            return false;
        }
        i = i + 1;
    }
    proof {
        assert(s@.take(n as int) =~= prefix@);
    }
    true
}

/// Decides whether `s` closes with `suffix`.
pub fn ends_with(s: &str, suffix: &str) -> (r: bool)
    ensures
        r == spec_ends_with(s@, suffix@),
{
    let n = suffix.unicode_len();
    let len = s.unicode_len();
    if len < n {
        return false;
    }
    let off = len - n;
    let mut i: usize = 0;
    while i < n
        invariant
            i <= n,
            n == suffix@.len(),
            off == len - n,
            n <= len,
            len == s@.len(),
            forall|k: int| 0 <= k < i ==> s@[off + k] == suffix@[k],
        decreases n - i,
    {
        if s.get_char(off + i) != suffix.get_char(i) {
            proof {
                assert(s@.skip(off as int)[i as int] != suffix@[i as int]);
            }
            return false;
        }
        i = i + 1;
    }
    proof {
        assert(s@.skip(off as int) =~= suffix@);
    }
    true
}

/// The characters of `s` after the first `n`, or nothing when `s` is
/// shorter.
pub fn skip_chars(s: &str, n: usize) -> (r: String)
    ensures
        n <= s@.len() ==> r@ == s@.skip(n as int),
        n > s@.len() ==> r@ == Seq::<char>::empty(),
{
    let len = s.unicode_len();
    let from = if n < len {
        n
    } else {
        len
    };
    let sub = s.substring_char(from, len);
    proof {
        if n > s@.len() {
            assert(s@.subrange(len as int, len as int) =~= Seq::<char>::empty());
        } else {
            assert(s@.subrange(n as int, len as int) =~= s@.skip(n as int));
        }
    }
    sub.to_owned()
}

/// The pieces of `s` split at every `sep`: always one piece more than there
/// are separators, an empty piece between adjacent separators.
pub open spec fn spec_split(s: Seq<char>, sep: char) -> Seq<Seq<char>>
    decreases s.len(),
{
    if s.len() == 0 {
        seq![Seq::<char>::empty()]
    } else {
        let rest = spec_split(s.skip(1), sep);
        if s[0] == sep {
            seq![Seq::<char>::empty()] + rest
        } else {
            seq![seq![s[0]] + rest[0]] + rest.skip(1)
        }
    }
}

/// The split of `s`, with `pre` glued onto the front of the first piece.
pub open spec fn spec_split_headed(pre: Seq<char>, sp: Seq<Seq<char>>) -> Seq<Seq<char>> {
    seq![pre + sp[0]] + sp.skip(1)
}

proof fn lemma_split_nonempty(s: Seq<char>, sep: char)
    ensures
        spec_split(s, sep).len() >= 1,
    decreases s.len(),
{
    if s.len() > 0 {
        lemma_split_nonempty(s.skip(1), sep);
    }
}

/// Splits `s` at every `sep`.
pub fn split_char(s: &str, sep: char) -> (r: Vec<String>)
    ensures
        r.deep_view() == spec_split(s@, sep),
{
    let len = s.unicode_len();
    let mut pieces: Vec<String> = Vec::new();
    let mut current = String::new();
    let mut i: usize = 0;
    proof {
        assert(s@.skip(0) =~= s@);
        lemma_split_nonempty(s@, sep);
        assert(pieces.deep_view() + spec_split_headed(current@, spec_split(s@.skip(0), sep))
            =~~= spec_split(s@, sep));
    }
    while i < len
        invariant
            i <= len,
            len == s@.len(),
            spec_split(s@, sep) == pieces.deep_view() + spec_split_headed(
                current@,
                spec_split(s@.skip(i as int), sep),
            ),
        decreases len - i,
    {
        let c = s.get_char(i);
        proof {
            assert(s@.skip(i as int)[0] == s@[i as int]);
            assert(s@.skip(i as int).skip(1) =~= s@.skip(i + 1));
            lemma_split_nonempty(s@.skip(i + 1), sep);
        }
        let ghost sp_next = spec_split(s@.skip(i + 1), sep);
        if c == sep {
            let ghost pieces_prev = pieces.deep_view();
            let ghost cur_prev = current@;
            let done = current;
            current = String::new();
            pieces.push(done);
            proof {
                assert(pieces.deep_view() =~~= pieces_prev.push(cur_prev));
                assert(spec_split(s@.skip(i as int), sep) =~~= seq![Seq::<char>::empty()]
                    + sp_next);
                assert(spec_split_headed(cur_prev, spec_split(s@.skip(i as int), sep)) =~~= seq![
                    cur_prev,
                ] + sp_next);
                assert(spec_split_headed(current@, sp_next) =~~= sp_next);
                assert(pieces_prev + (seq![cur_prev] + sp_next) =~~= pieces.deep_view()
                    + spec_split_headed(current@, sp_next));
            }
        } else {
            let ghost cur_prev = current@;
            push_char(&mut current, c);
            proof {
                let sp_i = spec_split(s@.skip(i as int), sep);
                assert(sp_i =~~= seq![seq![c] + sp_next[0]] + sp_next.skip(1));
                assert(spec_split_headed(cur_prev, sp_i) =~~= spec_split_headed(
                    current@,
                    sp_next,
                ));
            }
        }
        i = i + 1;
    }
    proof {
        assert(s@.skip(len as int) =~= Seq::<char>::empty());
        assert(spec_split(s@.skip(len as int), sep) =~= seq![Seq::<char>::empty()]);
    }
    let ghost pieces_prev = pieces.deep_view();
    let ghost cur_prev = current@;
    pieces.push(current);
    proof {
        assert(pieces.deep_view() =~~= pieces_prev.push(cur_prev));
        assert(spec_split_headed(cur_prev, seq![Seq::<char>::empty()]) =~~= seq![cur_prev]);
        assert(pieces_prev + seq![cur_prev] =~~= pieces_prev.push(cur_prev));
    }
    pieces
}

/// The decimal digit character of `d`.
pub open spec fn spec_digit_char(d: int) -> char {
    ((d + 48) as u8) as char
}

/// Whether `c` is a decimal digit.
pub open spec fn spec_is_digit(c: char) -> bool {
    48 <= c as int <= 57
}

/// The decimal text of `n`.
pub open spec fn spec_u32_text(n: int) -> Seq<char>
    decreases n,
{
    if n < 10 {
        seq![spec_digit_char(n)]
    } else {
        spec_u32_text(n / 10).push(spec_digit_char(n % 10))
    }
}

/// Writes `n` in decimal.
pub fn u32_text(n: u32) -> (r: String)
    ensures
        r@ == spec_u32_text(n as int),
{
    let mut digits_rev: Vec<char> = Vec::new();
    let mut cur: u32 = n;
    if cur == 0 {
        let mut out = String::new();
        push_char(&mut out, '0');
        proof {
            assert(spec_u32_text(0) =~= seq!['0']);
            assert(out@ =~= seq!['0']);
        }
        return out;
    }
    while cur > 0
        invariant
            cur > 0 ==> spec_u32_text(n as int) == spec_u32_text(cur as int)
                + digits_rev@.reverse(),
            cur == 0 ==> spec_u32_text(n as int) == digits_rev@.reverse(),
        decreases cur,
    {
        let d = (cur % 10) as u8;
        let c = (d + 48) as char;
        let ghost prev = digits_rev@;
        let ghost cur_prev = cur as int;
        digits_rev.push(c);
        cur = cur / 10;
        proof {
            assert(digits_rev@.reverse() =~= seq![c] + prev.reverse());
            if cur_prev >= 10 {
                assert(spec_u32_text(cur_prev) == spec_u32_text(cur_prev / 10).push(
                    spec_digit_char(cur_prev % 10),
                ));
                assert(spec_u32_text(cur_prev).push(spec_digit_char(cur_prev % 10)) + prev.reverse()
                    =~= spec_u32_text(cur_prev) + (seq![spec_digit_char(cur_prev % 10)]
                    + prev.reverse()));
                assert(spec_u32_text(cur_prev / 10).push(spec_digit_char(cur_prev % 10))
                    + prev.reverse() =~= spec_u32_text(cur_prev / 10) + (seq![spec_digit_char(
                    cur_prev % 10,
                )] + prev.reverse()));
            } else {
                assert(spec_u32_text(cur_prev) =~= seq![spec_digit_char(cur_prev)]);
                assert(seq![spec_digit_char(cur_prev)] + prev.reverse() =~= seq![c]
                    + prev.reverse());
            }
        }
    }
    let mut out = String::new();
    let mut i: usize = digits_rev.len();
    while i > 0
        invariant
            i <= digits_rev@.len(),
            out@ =~= digits_rev@.skip(i as int).reverse(),
        decreases i,
    {
        i = i - 1;
        let ghost prev_out = out@;
        push_char(&mut out, digits_rev[i]);
        proof {
            assert(out@ =~= digits_rev@.skip(i as int).reverse());
        }
    }
    proof {
        assert(digits_rev@.skip(0) =~= digits_rev@);
    }
    out
}

/// The value of the first `n` characters of `s` read as decimal digits.
pub open spec fn spec_digits_value(s: Seq<char>, n: int) -> int
    decreases n,
{
    if n <= 0 {
        0
    } else {
        spec_digits_value(s, n - 1) * 10 + (s[n - 1] as int - 48)
    }
}

/// The digits of an unsigned decimal numeral: the text with one optional
/// leading plus sign stripped.
pub open spec fn spec_numeral_digits(s: Seq<char>) -> Seq<char> {
    if s.len() >= 1 && s[0] == '+' {
        s.skip(1)
    } else {
        s
    }
}

/// A well-formed unsigned decimal numeral: an optional leading plus sign,
/// then at least one digit and nothing else.
pub open spec fn spec_u32_numeral(s: Seq<char>) -> Option<Seq<char>> {
    if spec_numeral_digits(s).len() >= 1 && (forall|k: int|
        0 <= k < spec_numeral_digits(s).len() ==> spec_is_digit(
            #[trigger] spec_numeral_digits(s)[k],
        )) {
        Some(spec_numeral_digits(s))
    } else {
        None
    }
}

proof fn lemma_digits_value_monotonic(s: Seq<char>, a: int, b: int)
    requires
        0 <= a <= b,
        forall|k: int| 0 <= k < b ==> spec_is_digit(#[trigger] s[k]),
    ensures
        0 <= spec_digits_value(s, a) <= spec_digits_value(s, b),
    decreases b,
{
    if b > 0 {
        if a == b {
            lemma_digits_value_monotonic(s, a - 1, b - 1);
        } else {
            lemma_digits_value_monotonic(s, a, b - 1);
        }
    }
}

/// Reads an unsigned decimal numeral: `Some` exactly when the text is an
/// optional plus sign followed by one or more digits whose value fits.
pub fn parse_u32(s: &str) -> (r: Option<u32>)
    ensures
        match spec_u32_numeral(s@) {
            Some(digits) => {
                if spec_digits_value(digits, digits.len() as int) <= u32::MAX {
                    r is Some && r->0 as int == spec_digits_value(digits, digits.len() as int)
                } else {
                    r is None
                }
            },
            None => r is None,
        },
{
    let len = s.unicode_len();
    let start: usize = if len >= 1 && s.get_char(0) == '+' {
        1
    } else {
        0
    };
    if len == start {
        return None;
    }
    let ghost digits = spec_numeral_digits(s@);
    let mut acc: u64 = 0;
    let mut i: usize = start;
    while i < len
        invariant
            start <= i <= len,
            len == s@.len(),
            start == 0 || start == 1,
            start == 1 ==> s@.len() >= 1 && s@[0] == '+',
            start == 0 ==> !(s@.len() >= 1 && s@[0] == '+'),
            digits == spec_numeral_digits(s@),
            digits.len() == len - start,
            forall|k: int| 0 <= k < i - start ==> spec_is_digit(#[trigger] digits[k]),
            acc == spec_digits_value(digits, i - start),
            acc <= u32::MAX,
        decreases len - i,
    {
        let c = s.get_char(i);
        let v = c as u32;
        proof {
            assert(digits[i - start] == s@[i as int]);
        }
        if v < 48 || v > 57 {
            proof {
                if spec_u32_numeral(s@) is Some {
                    assert(spec_is_digit(spec_numeral_digits(s@)[i - start]));
                    assert(false);
                }
            }
            return None;
        }
        let d = (v - 48) as u64;
        let next = acc * 10 + d;
        if next > 0xffff_ffff {
            proof {
                if spec_u32_numeral(s@) is Some {
                    lemma_digits_value_monotonic(
                        spec_numeral_digits(s@),
                        i + 1 - start,
                        digits.len() as int,
                    );
                }
            }
            return None;
        }
        acc = next;
        i = i + 1;
    }
    proof {
        assert(i - start == digits.len());
    }
    Some(acc as u32)
}

/// An ASCII whitespace character.
pub open spec fn spec_is_ws(c: char) -> bool {
    c == ' ' || c == '\t' || c == '\n' || c == '\r'
}

/// `s` with its trailing whitespace removed.
pub open spec fn spec_trim_end_ws(s: Seq<char>) -> Seq<char>
    decreases s.len(),
{
    if s.len() > 0 && spec_is_ws(s.last()) {
        spec_trim_end_ws(s.drop_last())
    } else {
        s
    }
}

proof fn lemma_trim_end_ws_take(s: Seq<char>, k: int)
    requires
        0 <= k <= s.len(),
        forall|j: int| k <= j < s.len() ==> spec_is_ws(#[trigger] s[j]),
    ensures
        spec_trim_end_ws(s) == spec_trim_end_ws(s.take(k)),
    decreases s.len() - k,
{
    if k < s.len() {
        assert(spec_is_ws(s.last()));
        assert(s.drop_last() =~= s.take(s.len() - 1));
        lemma_trim_end_ws_take(s.take(s.len() - 1), k);
        assert(s.take(s.len() - 1).take(k) =~= s.take(k));
    } else {
        assert(s.take(k) =~= s);
    }
}

/// Removes the trailing ASCII whitespace of `s`.
pub fn trim_end_ws(s: &str) -> (r: String)
    ensures
        r@ == spec_trim_end_ws(s@),
{
    let len = s.unicode_len();
    let mut k: usize = len;
    while k > 0
        invariant
            k <= len,
            len == s@.len(),
            forall|j: int| k <= j < s@.len() ==> spec_is_ws(#[trigger] s@[j]),
        decreases k,
    {
        let c = s.get_char(k - 1);
        if !(c == ' ' || c == '\t' || c == '\n' || c == '\r') {
            proof {
                lemma_trim_end_ws_take(s@, k as int);
                assert(s@.take(k as int).last() == s@[k - 1]);
                assert(s@.subrange(0, k as int) =~= s@.take(k as int));
            }
            return s.substring_char(0, k).to_owned();
        }
        k = k - 1;
    }
    proof {
        lemma_trim_end_ws_take(s@, 0);
        assert(s@.take(0) =~= Seq::<char>::empty());
    }
    String::new()
}

/// The segments of `v` in reverse order.
pub fn reverse_strings(v: Vec<String>) -> (r: Vec<String>)
    ensures
        r.deep_view() == v.deep_view().reverse(),
{
    let mut out: Vec<String> = Vec::new();
    let mut i: usize = v.len();
    while i > 0
        invariant
            i <= v.len(),
            out@.len() == v@.len() - i,
            forall|k: int|
                0 <= k < out@.len() ==> out.deep_view()[k] == v.deep_view()[v@.len() - 1 - k],
        decreases i,
    {
        i = i - 1;
        let ghost prev = out@;
        let ghost prev_dv = out.deep_view();
        out.push(v[i].clone());
        proof {
            let n = out@.len() as int;
            assert(out.deep_view()[n - 1] == out@[n - 1]@);
            assert(v.deep_view()[i as int] == v@[i as int]@);
            assert forall|k: int| 0 <= k < n - 1 implies out.deep_view()[k] == v.deep_view()[v@.len() - 1 - k] by {
                assert(out.deep_view()[k] == out@[k]@);
                assert(out@[k] == prev[k]);
                assert(prev_dv[k] == prev[k]@);
            }
        }
    }
    proof {
        assert(out.deep_view() =~= v.deep_view().reverse());
    }
    out
}

} // verus!
