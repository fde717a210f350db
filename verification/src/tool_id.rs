//! Compact integer encoding of short alphanumeric identifiers.
//!
//! An identifier made of ASCII letters and digits is packed six bits per
//! character, least significant character first. Ten characters fit below
//! 64 bits, so the encoding is truncated to ten characters.

use vstd::prelude::*;

verus! {

/// Characters kept by the encoding: six bits each, ten of them stay below
/// the 64 bits of the integer representation.
pub const ID_MAX_LEN: usize = 10;

/// The six-bit code of one identifier character: upper-case letters take
/// 1 to 26, lower-case letters 27 to 52, digits 53 to 62; anything else is 0.
pub open spec fn id_char_code(c: char) -> int {
    let v = c as int;
    if 65 <= v && v <= 90 {
        // 'A' to 'Z'
        v - 64
    } else if 97 <= v && v <= 122 {
        // 'a' to 'z'
        v - 70
    } else if 48 <= v && v <= 57 {
        // '0' to '9'
        v + 5
    } else {
        0
    }
}

/// The character of a six-bit code between 1 and 62: the inverse of
/// `id_char_code` on the identifier alphabet.
pub open spec fn id_code_char(v: int) -> char {
    if 1 <= v && v <= 26 {
        (v + 64) as char
    } else if 27 <= v && v <= 52 {
        (v + 70) as char
    } else {
        (v - 5) as char
    }
}

/// 64 raised to the power `n`: the place value of the character at index `n`.
pub open spec fn pow64(n: int) -> int
    decreases n,
{
    if n <= 0 {
        1
    } else {
        64 * pow64(n - 1)
    }
}

/// The packed value of the first `n` characters of `s`.
pub open spec fn id_value_prefix(s: Seq<char>, n: int) -> int
    decreases n,
{
    if n <= 0 {
        0
    } else {
        id_value_prefix(s, n - 1) + id_char_code(s[n - 1]) * pow64(n - 1)
    }
}

/// The packed value of an identifier: its first ten characters, six bits each.
pub open spec fn id_value(s: Seq<char>) -> int {
    if s.len() <= 10 {
        id_value_prefix(s, s.len() as int)
    } else {
        id_value_prefix(s, 10)
    }
}

/// The string read back from a packed value: six-bit chunks, least
/// significant first, until a chunk outside the alphabet or the tenth
/// character.
pub open spec fn id_string(s: int, fuel: int) -> Seq<char>
    decreases fuel,
{
    if fuel <= 0 {
        Seq::empty()
    } else {
        let v = s % 64;
        if 1 <= v && v <= 62 {
            seq![id_code_char(v)] + id_string(s / 64, fuel - 1)
        } else {
            Seq::empty()
        }
    }
}

proof fn lemma_pow64_positive(n: int)
    ensures
        pow64(n) >= 1,
    decreases n,
{
    if n > 0 {
        lemma_pow64_positive(n - 1);
    }
}

proof fn lemma_id_value_prefix_bound(s: Seq<char>, n: int)
    ensures
        0 <= id_value_prefix(s, n) < pow64(n),
    decreases n,
{
    if n <= 0 {
        lemma_pow64_positive(n);
    } else {
        lemma_id_value_prefix_bound(s, n - 1);
        lemma_pow64_positive(n - 1);
        let c = id_char_code(s[n - 1]);
        assert(0 <= c <= 62);
        vstd::arithmetic::mul::lemma_mul_inequality(c, 62, pow64(n - 1));
    }
}

fn id_code_exec(c: char) -> (r: u8)
    ensures
        r as int == id_char_code(c),
{
    let v = c as u32;
    if 65 <= v && v <= 90 {
        (v - 64) as u8
    } else if 97 <= v && v <= 122 {
        (v - 70) as u8
    } else if 48 <= v && v <= 57 {
        (v + 5) as u8
    } else {
        0
    }
}

fn id_code_char_exec(v: u8) -> (c: char)
    requires
        1 <= v <= 62,
    ensures
        c == id_code_char(v as int),
{
    if v <= 26 {
        (v + 64) as char
    } else if v <= 52 {
        (v + 70) as char
    } else {
        (v - 5) as char
    }
}

/// Packs an identifier of ASCII letters and digits into an integer, six bits
/// per character, least significant character first, truncated to ten
/// characters.
pub fn tool_id_to_usize(s: &str) -> (r: usize)
    requires
        usize::MAX == 0xffff_ffff_ffff_ffff,
    ensures
        r as int == id_value(s@),
{
    let len = s.unicode_len();
    let n: usize = if len < ID_MAX_LEN {
        len
    } else {
        ID_MAX_LEN
    };
    let mut result: usize = 0;
    let mut place: usize = 1;
    let mut i: usize = 0;
    while i < n
        invariant
            usize::MAX == 0xffff_ffff_ffff_ffff,
            i <= n,
            n <= 10,
            n as int <= s@.len(),
            id_value(s@) == id_value_prefix(s@, n as int),
            i < n ==> place == pow64(i as int),
            result == id_value_prefix(s@, i as int),
        decreases n - i,
    {
        let c = s.get_char(i);
        let code = id_code_exec(c);
        proof {
            lemma_id_value_prefix_bound(s@, i as int);
            lemma_pow64_monotonic(i as int, 9);
            lemma_pow64_values();
            vstd::arithmetic::mul::lemma_mul_inequality(code as int, 62, place as int);
        }
        result = result + (code as usize) * place;
        i = i + 1;
        if i < n {
            proof {
                lemma_pow64_monotonic(i as int, 9);
                lemma_pow64_values();
            }
            place = place * 64;
        }
    }
    result
}

proof fn lemma_pow64_monotonic(a: int, b: int)
    requires
        0 <= a <= b,
    ensures
        pow64(a) <= pow64(b),
    decreases b,
{
    if a < b {
        lemma_pow64_monotonic(a, b - 1);
        lemma_pow64_positive(b - 1);
    }
}

proof fn lemma_pow64_values()
    ensures
        pow64(9) == 0x40000000000000,
        pow64(10) == 0x1000000000000000,
{
    reveal_with_fuel(pow64, 11);
}

/// Reads an identifier back from its packed value: six-bit chunks from the
/// least significant end, stopping at the first chunk outside the alphabet
/// or after ten characters.
pub fn usize_to_tool_id(s: usize) -> (r: String)
    ensures
        r@ == id_string(s as int, 10),
{
    let mut result = String::new();
    let mut cur = s;
    let mut i: usize = 0;
    while i < 10
        invariant_except_break
            i <= 10,
            result@ + id_string(cur as int, 10 - i) == id_string(s as int, 10),
        ensures
            result@ == id_string(s as int, 10),
        decreases 10 - i,
    {
        let v = (cur % 64) as u8;
        if 1 <= v && v <= 62 {
            let c = id_code_char_exec(v);
            crate::text::push_char(&mut result, c);
            cur = cur / 64;
            i = i + 1;
        } else {
            assert(id_string(cur as int, 10 - i) =~= Seq::<char>::empty());
            assert(result@ + Seq::<char>::empty() =~= result@);
            break;
        }
    }
    result
}

} // verus!
