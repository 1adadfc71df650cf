//! Collision-avoidance naming: the internal namespace for the emitted
//! items is derived from the record's declared name alone, by a base-32
//! style encoding of the name's bytes beside a fixed installation-wide
//! random tag. The derivation is a pure function of the name, so
//! regenerating for an unchanged record yields the very same namespace.

use vstd::prelude::*;
use vstd::string::StrSliceExecFns;
use vstd::string::StringExecFns;
use crate::text::push_char;

verus! {

broadcast use vstd::seq::group_seq_axioms;

/// The character for one base-32 digit: `0`–`9` then `a`–`v`.
pub open spec fn b32_char(d: nat) -> char {
    if d == 0 {
        '0'
    } else if d == 1 {
        '1'
    } else if d == 2 {
        '2'
    } else if d == 3 {
        '3'
    } else if d == 4 {
        '4'
    } else if d == 5 {
        '5'
    } else if d == 6 {
        '6'
    } else if d == 7 {
        '7'
    } else if d == 8 {
        '8'
    } else if d == 9 {
        '9'
    } else if d == 10 {
        'a'
    } else if d == 11 {
        'b'
    } else if d == 12 {
        'c'
    } else if d == 13 {
        'd'
    } else if d == 14 {
        'e'
    } else if d == 15 {
        'f'
    } else if d == 16 {
        'g'
    } else if d == 17 {
        'h'
    } else if d == 18 {
        'i'
    } else if d == 19 {
        'j'
    } else if d == 20 {
        'k'
    } else if d == 21 {
        'l'
    } else if d == 22 {
        'm'
    } else if d == 23 {
        'n'
    } else if d == 24 {
        'o'
    } else if d == 25 {
        'p'
    } else if d == 26 {
        'q'
    } else if d == 27 {
        'r'
    } else if d == 28 {
        's'
    } else if d == 29 {
        't'
    } else if d == 30 {
        'u'
    } else {
        'v'
    }
}

fn b32_char_exec(d: u64) -> (c: char)
    requires
        d < 32,
    ensures
        c == b32_char(d as nat),
{
    if d == 0 {
        '0'
    } else if d == 1 {
        '1'
    } else if d == 2 {
        '2'
    } else if d == 3 {
        '3'
    } else if d == 4 {
        '4'
    } else if d == 5 {
        '5'
    } else if d == 6 {
        '6'
    } else if d == 7 {
        '7'
    } else if d == 8 {
        '8'
    } else if d == 9 {
        '9'
    } else if d == 10 {
        'a'
    } else if d == 11 {
        'b'
    } else if d == 12 {
        'c'
    } else if d == 13 {
        'd'
    } else if d == 14 {
        'e'
    } else if d == 15 {
        'f'
    } else if d == 16 {
        'g'
    } else if d == 17 {
        'h'
    } else if d == 18 {
        'i'
    } else if d == 19 {
        'j'
    } else if d == 20 {
        'k'
    } else if d == 21 {
        'l'
    } else if d == 22 {
        'm'
    } else if d == 23 {
        'n'
    } else if d == 24 {
        'o'
    } else if d == 25 {
        'p'
    } else if d == 26 {
        'q'
    } else if d == 27 {
        'r'
    } else if d == 28 {
        's'
    } else if d == 29 {
        't'
    } else if d == 30 {
        'u'
    } else {
        'v'
    }
}

/// The value of up to five bytes read as one little-endian number.
pub open spec fn chunk_val(bytes: Seq<u8>) -> nat
    decreases bytes.len(),
{
    if bytes.len() == 0 {
        0
    } else {
        bytes[0] as nat + 256 * chunk_val(bytes.skip(1))
    }
}

/// How many base-32 digits a chunk of `len` bytes yields: one digit per
/// five bits, rounding 8·len bits up to whole digits.
pub open spec fn digit_count(len: nat) -> nat {
    (8 * len + 4) / 5
}

/// The first `count` base-32 digits of a value, least significant first.
pub open spec fn chunk_digits(val: nat, count: nat) -> Seq<char>
    decreases count,
{
    if count == 0 {
        Seq::empty()
    } else {
        seq![b32_char(val % 32)] + chunk_digits(val / 32, (count - 1) as nat)
    }
}

/// The base-32 style encoding of a byte string: each five-byte chunk is
/// read as a little-endian number and written out digit by digit, least
/// significant first; a final short chunk yields just the digits its
/// bits fill.
pub open spec fn base32_spec(bytes: Seq<u8>) -> Seq<char>
    decreases bytes.len(),
{
    if bytes.len() == 0 {
        Seq::empty()
    } else if bytes.len() <= 5 {
        chunk_digits(chunk_val(bytes), digit_count(bytes.len()))
    } else {
        chunk_digits(chunk_val(bytes.take(5)), digit_count(5)) + base32_spec(bytes.skip(5))
    }
}

/// 256 to the given power; bounds the value of a byte chunk.
pub open spec fn pow256(n: nat) -> nat
    decreases n,
{
    if n == 0 {
        1
    } else {
        256 * pow256((n - 1) as nat)
    }
}

fn chunk_val_exec(bytes: &Vec<u8>, start: usize, end: usize) -> (r: u64)
    requires
        start <= end <= bytes@.len(),
        end - start <= 5,
    ensures
        r as nat == chunk_val(bytes@.subrange(start as int, end as int)),
        (r as nat) < pow256((end - start) as nat),
    decreases end - start,
{
    if start == end {
        proof {
            assert(bytes@.subrange(start as int, end as int) =~= Seq::<u8>::empty());
        }
        0
    } else {
        let rest = chunk_val_exec(bytes, start + 1, end);
        proof {
            assert(pow256(4) == 0x1_0000_0000) by {
                assert(pow256(0) == 1);
                assert(pow256(1) == 256);
                assert(pow256(2) == 0x1_0000);
                assert(pow256(3) == 0x100_0000);
            }
            assert(pow256((end - start - 1) as nat) <= pow256(4)) by {
                lemma_pow256_mono((end - start - 1) as nat, 4);
            }
            let s = bytes@.subrange(start as int, end as int);
            assert(s.skip(1) =~= bytes@.subrange(start + 1, end as int));
            assert(s[0] == bytes@[start as int]);
        }
        bytes[start] as u64 + 256 * rest
    }
}

proof fn lemma_pow256_mono(a: nat, b: nat)
    requires
        a <= b,
    ensures
        pow256(a) <= pow256(b),
    decreases b,
{
    if a < b {
        lemma_pow256_mono(a, (b - 1) as nat);
        assert(pow256(b) == 256 * pow256((b - 1) as nat));
        assert(pow256((b - 1) as nat) >= 1) by {
            lemma_pow256_pos((b - 1) as nat);
        }
    }
}

proof fn lemma_pow256_pos(n: nat)
    ensures
        pow256(n) >= 1,
    decreases n,
{
    if n > 0 {
        lemma_pow256_pos((n - 1) as nat);
    }
}

fn chunk_digits_exec(val: u64, count: usize) -> (r: Vec<char>)
    ensures
        r@ == chunk_digits(val as nat, count as nat),
    decreases count,
{
    if count == 0 {
        let r: Vec<char> = Vec::new();
        proof {
            assert(r@ =~= chunk_digits(val as nat, 0));
        }
        r
    } else {
        let c = b32_char_exec(val % 32);
        let mut r: Vec<char> = Vec::new();
        r.push(c);
        let mut rest = chunk_digits_exec(val / 32, count - 1);
        r.append(&mut rest);
        proof {
            assert(r@ =~= chunk_digits(val as nat, count as nat));
        }
        r
    }
}

fn base32_rec(bytes: &Vec<u8>, start: usize) -> (r: Vec<char>)
    requires
        start <= bytes@.len(),
    ensures
        r@ == base32_spec(bytes@.skip(start as int)),
    decreases bytes@.len() - start,
{
    let n = bytes.len();
    let ghost s = bytes@.skip(start as int);
    if start == n {
        let r: Vec<char> = Vec::new();
        proof {
            assert(s.len() == 0);
        }
        r
    } else if n - start <= 5 {
        let v = chunk_val_exec(bytes, start, n);
        let count = (8 * (n - start) + 4) / 5;
        let r = chunk_digits_exec(v, count);
        proof {
            assert(s =~= bytes@.subrange(start as int, n as int));
            assert(count as nat == digit_count(s.len()));
        }
        r
    } else {
        let v = chunk_val_exec(bytes, start, start + 5);
        let mut r = chunk_digits_exec(v, 8);
        let mut rest = base32_rec(bytes, start + 5);
        r.append(&mut rest);
        proof {
            assert(s.take(5) =~= bytes@.subrange(start as int, start + 5));
            assert(s.skip(5) =~= bytes@.skip(start + 5));
            assert(digit_count(5) == 8);
            assert(r@ == chunk_digits(chunk_val(s.take(5)), digit_count(5)) + base32_spec(
                s.skip(5),
            ));
        }
        r
    }
}

/// Encode a byte string in the base-32 style the namespace uses.
pub fn base32_encode(bytes: &Vec<u8>) -> (r: Vec<char>)
    ensures
        r@ == base32_spec(bytes@),
{
    let r = base32_rec(bytes, 0);
    proof {
        assert(bytes@.skip(0) =~= bytes@);
    }
    r
}

/// The fixed installation-wide random tag that keeps the namespace clear
/// of other crates' emitted items.
pub open spec fn ns_tag_spec() -> Seq<char> {
    "9c7ea5a7_03be_4f1c_a760_c570173fc90f"@
}

fn ns_tag() -> (r: &'static str)
    ensures
        r@ == ns_tag_spec(),
{
    "9c7ea5a7_03be_4f1c_a760_c570173fc90f"
}

/// The internal namespace identifier derived from a record name: a fixed
/// prefix and tag, then the base-32 encoding of the name's bytes. A pure
/// function of the declared name, and of nothing else.
pub open spec fn mod_name_spec(name: Seq<char>) -> Seq<char> {
    "mod_"@ + ns_tag_spec() + "_"@ + base32_spec(vstd::utf8::encode_utf8(name))
}

/// Derive the internal namespace identifier for a record name.
pub fn mod_name(derive_ident: &String) -> (r: String)
    ensures
        r@ == mod_name_spec(derive_ident@),
{
    let bytes = derive_ident.as_str().as_bytes_vec();
    let b32 = base32_encode(&bytes);
    let mut r = String::from_str("mod_");
    r.append(ns_tag());
    r.append("_");
    let mut i: usize = 0;
    let ghost prefix = "mod_"@ + ns_tag_spec() + "_"@;
    proof {
        assert(r@ =~= prefix);
    }
    while i < b32.len()
        invariant
            i <= b32@.len(),
            b32@ == base32_spec(vstd::utf8::encode_utf8(derive_ident@)),
            r@ =~= prefix + b32@.take(i as int),
        decreases b32@.len() - i,
    {
        push_char(&mut r, b32[i]);
        proof {
            assert(b32@.take(i + 1) =~= b32@.take(i as int) + seq![b32@[i as int]]);
        }
        i = i + 1;
    }
    proof {
        assert(b32@.take(b32@.len() as int) =~= b32@);
        assert(r@ =~= mod_name_spec(derive_ident@));
    }
    r
}

/// The namespace derivation is stable: two generation runs over the same
/// record name yield the same internal namespace identifier.
pub proof fn lemma_mod_name_stable(name1: Seq<char>, name2: Seq<char>)
    requires
        name1 == name2,
    ensures
        mod_name_spec(name1) == mod_name_spec(name2),
{
}

} // verus!
