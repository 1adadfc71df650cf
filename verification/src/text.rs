//! Small text helpers: decimal rendering of indices, appending single
//! characters to a `String`, and cancellation lemmas on character
//! sequences used to show that derived identifiers do not collide.

use vstd::prelude::*;

verus! {

broadcast use vstd::seq::group_seq_axioms;

/// The character for one decimal digit.
pub open spec fn digit_char(d: nat) -> char {
    if d == 0 {
        '0'
    } else if d == 1 {
        '1'
    } else if d == 2 {
        '2'
    } else if d == 3 {
        '3'
    } else if d == 4 {
        '4'
    } else if d == 5 {
        '5'
    } else if d == 6 {
        '6'
    } else if d == 7 {
        '7'
    } else if d == 8 {
        '8'
    } else {
        '9'
    }
}

/// The usual decimal rendering of a number, most significant digit first,
/// with no leading zero except for the number 0 itself.
pub open spec fn dec_spec(n: nat) -> Seq<char>
    decreases n,
{
    if n < 10 {
        seq![digit_char(n)]
    } else {
        dec_spec(n / 10) + seq![digit_char(n % 10)]
    }
}

fn digit_char_exec(d: u64) -> (c: char)
    requires
        d < 10,
    ensures
        c == digit_char(d as nat),
{
    if d == 0 {
        '0'
    } else if d == 1 {
        '1'
    } else if d == 2 {
        '2'
    } else if d == 3 {
        '3'
    } else if d == 4 {
        '4'
    } else if d == 5 {
        '5'
    } else if d == 6 {
        '6'
    } else if d == 7 {
        '7'
    } else if d == 8 {
        '8'
    } else {
        '9'
    }
}

/// Relies on `String::push`: appends the given character to the end of
/// the string.
#[verifier::external_body]
pub fn push_char(s: &mut String, c: char)
    ensures
        final(s)@ == old(s)@ + seq![c],
{
    s.push(c)
}

/// Render a number in decimal.
pub fn dec_str(n: usize) -> (r: String)
    ensures
        r@ == dec_spec(n as nat),
    decreases n,
{
    if n < 10 {
        let mut s = String::new();
        push_char(&mut s, digit_char_exec(n as u64));
        proof {
            assert(s@ =~= dec_spec(n as nat));
        }
        s
    } else {
        let mut s = dec_str(n / 10);
        push_char(&mut s, digit_char_exec((n % 10) as u64));
        proof {
            assert(s@ =~= dec_spec(n as nat));
        }
        s
    }
}

/// Equal decimal renderings come only from equal numbers.
pub proof fn lemma_dec_injective(a: nat, b: nat)
    requires
        dec_spec(a) == dec_spec(b),
    ensures
        a == b,
    decreases a,
{
    lemma_dec_len(a);
    lemma_dec_len(b);
    if a < 10 && b < 10 {
        assert(dec_spec(a)[0] == digit_char(a));
        assert(dec_spec(b)[0] == digit_char(b));
    } else if a < 10 {
        lemma_dec_len(b / 10);
        assert(dec_spec(b).len() >= 2);
        assert(dec_spec(a).len() == 1);
    } else if b < 10 {
        lemma_dec_len(a / 10);
        assert(dec_spec(a).len() >= 2);
        assert(dec_spec(b).len() == 1);
    } else {
        let la = dec_spec(a).len();
        assert(dec_spec(a).last() == digit_char(a % 10));
        assert(dec_spec(b).last() == digit_char(b % 10));
        assert(a % 10 == b % 10);
        assert(dec_spec(a / 10) =~= dec_spec(a).take(la - 1));
        assert(dec_spec(b / 10) =~= dec_spec(b).take(la - 1));
        lemma_dec_injective(a / 10, b / 10);
    }
}

/// A decimal rendering is never empty.
pub proof fn lemma_dec_len(n: nat)
    ensures
        dec_spec(n).len() >= 1,
    decreases n,
{
    if n >= 10 {
        lemma_dec_len(n / 10);
    }
}

/// Appending the same suffix to two different sequences keeps them
/// different.
pub proof fn lemma_append_right_cancel(a: Seq<char>, b: Seq<char>, t: Seq<char>)
    requires
        a + t == b + t,
    ensures
        a == b,
{
    assert(a.len() == b.len()) by {
        assert((a + t).len() == a.len() + t.len());
        assert((b + t).len() == b.len() + t.len());
        assert((a + t).len() == (b + t).len());
    }
    assert(a =~= b) by {
        assert forall|i: int| 0 <= i < a.len() implies a[i] == b[i] by {
            assert((a + t)[i] == a[i]);
            assert((b + t)[i] == b[i]);
            assert((a + t)[i] == (b + t)[i]);
        }
    }
}

/// Prepending the same prefix to two different sequences keeps them
/// different.
pub proof fn lemma_append_left_cancel(t: Seq<char>, a: Seq<char>, b: Seq<char>)
    requires
        t + a == t + b,
    ensures
        a == b,
{
    assert(a.len() == b.len()) by {
        assert((t + a).len() == t.len() + a.len());
        assert((t + b).len() == t.len() + b.len());
        assert((t + a).len() == (t + b).len());
    }
    assert(a =~= b) by {
        assert forall|i: int| 0 <= i < a.len() implies a[i] == b[i] by {
            assert((t + a)[t.len() + i] == a[i]);
            assert((t + b)[t.len() + i] == b[i]);
            assert((t + a)[t.len() + i] == (t + b)[t.len() + i]);
        }
    }
}

} // verus!
