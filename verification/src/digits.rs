//! Rendering of unsigned integers as decimal and lower-case hexadecimal
//! strings, as they appear in response headers, the callback URL and the
//! session nonce.

use vstd::prelude::*;
use vstd::string::*;

verus! {

/// The sixteen lower-case hexadecimal digit characters; decimal rendering
/// uses the first ten.
pub open spec fn digit_char(d: int) -> char {
    if d == 0 {
        '0'
    } else if d == 1 {
        '1'
    } else if d == 2 {
        '2'
    } else if d == 3 {
        '3'
    } else if d == 4 {
        '4'
    } else if d == 5 {
        '5'
    } else if d == 6 {
        '6'
    } else if d == 7 {
        '7'
    } else if d == 8 {
        '8'
    } else if d == 9 {
        '9'
    } else if d == 10 {
        'a'
    } else if d == 11 {
        'b'
    } else if d == 12 {
        'c'
    } else if d == 13 {
        'd'
    } else if d == 14 {
        'e'
    } else {
        'f'
    }
}

/// The decimal rendering of `n`, most significant digit first, with no
/// leading zeros (`0` renders as `"0"`).
pub open spec fn dec_str(n: nat) -> Seq<char>
    decreases n,
{
    if n < 10 {
        seq![digit_char(n as int)]
    } else {
        dec_str(n / 10).push(digit_char((n % 10) as int))
    }
}

/// The lower-case hexadecimal rendering of `n`, most significant digit
/// first, with no leading zeros (`0` renders as `"0"`).
pub open spec fn hex_str(n: nat) -> Seq<char>
    decreases n,
{
    if n < 16 {
        seq![digit_char(n as int)]
    } else {
        hex_str(n / 16).push(digit_char((n % 16) as int))
    }
}

/// Renders a sequence of digit values held least significant first, as the
/// extraction loops below produce them, into characters most significant
/// first.
pub open spec fn digits_render(ds: Seq<u8>) -> Seq<char>
    decreases ds.len(),
{
    if ds.len() == 0 {
        Seq::empty()
    } else {
        seq![digit_char(ds.last() as int)] + digits_render(ds.drop_last())
    }
}

proof fn lemma_digits_render_concat(a: Seq<u8>, b: Seq<u8>)
    ensures
        digits_render(a + b) == digits_render(b) + digits_render(a),
    decreases b.len(),
{
    if b.len() == 0 {
        assert(a + b =~= a);
        assert(digits_render(b) + digits_render(a) =~= digits_render(a));
    } else {
        assert((a + b).drop_last() =~= a + b.drop_last());
        lemma_digits_render_concat(a, b.drop_last());
        assert(digits_render(a + b) =~= digits_render(b) + digits_render(a));
    }
}

proof fn lemma_hex_len_pos(n: nat)
    ensures
        hex_str(n).len() >= 1,
        n >= 16 ==> hex_str(n).len() >= 2,
    decreases n,
{
    if n >= 16 {
        lemma_hex_len_pos(n / 16);
    }
}

/// Distinct numbers render to distinct hexadecimal strings: the rendering
/// has no leading zeros, so it is injective.
pub proof fn lemma_hex_str_injective(a: nat, b: nat)
    requires
        a != b,
    ensures
        hex_str(a) != hex_str(b),
    decreases a + b,
{
    lemma_hex_len_pos(a);
    lemma_hex_len_pos(b);
    if a < 16 && b < 16 {
        assert(hex_str(a)[0] != hex_str(b)[0]);
    } else if a < 16 || b < 16 {
        assert(hex_str(a).len() != hex_str(b).len());
    } else {
        if a % 16 != b % 16 {
            assert(hex_str(a).last() != hex_str(b).last());
        } else {
            lemma_hex_str_injective(a / 16, b / 16);
            if hex_str(a) == hex_str(b) {
                assert(hex_str(a).drop_last() =~= hex_str(a / 16));
                assert(hex_str(b).drop_last() =~= hex_str(b / 16));
                assert(false);
            }
        }
    }
}

/// The single-character string for one digit value.
pub fn digit_str(d: u8) -> (r: &'static str)
    requires
        d < 16,
    ensures
        r@ == seq![digit_char(d as int)],
{
    proof {
        reveal_strlit("0");
        reveal_strlit("1");
        reveal_strlit("2");
        reveal_strlit("3");
        reveal_strlit("4");
        reveal_strlit("5");
        reveal_strlit("6");
        reveal_strlit("7");
        reveal_strlit("8");
        reveal_strlit("9");
        reveal_strlit("a");
        reveal_strlit("b");
        reveal_strlit("c");
        reveal_strlit("d");
        reveal_strlit("e");
        reveal_strlit("f");
    }
    let r = match d {
        0 => "0",
        1 => "1",
        2 => "2",
        3 => "3",
        4 => "4",
        5 => "5",
        6 => "6",
        7 => "7",
        8 => "8",
        9 => "9",
        10 => "a",
        11 => "b",
        12 => "c",
        13 => "d",
        14 => "e",
        _ => "f",
    };
    proof {
        assert(r@ =~= seq![digit_char(d as int)]);
    }
    r
}

/// The decimal rendering of `n`, as a header like `Content-Length` and the
/// callback URL carry it.
pub fn u64_to_dec(n: u64) -> (r: String)
    ensures
        r@ == dec_str(n as nat),
{
    let mut ds: Vec<u8> = Vec::new();
    let mut m: u64 = n;
    proof {
        assert(dec_str(n as nat) + Seq::<char>::empty() =~= dec_str(n as nat));
    }
    loop
        invariant_except_break
            dec_str(n as nat) == dec_str(m as nat) + digits_render(ds@),
            forall|j: int| 0 <= j < ds@.len() ==> ds@[j] < 10,
        ensures
            dec_str(n as nat) == digits_render(ds@),
            forall|j: int| 0 <= j < ds@.len() ==> ds@[j] < 10,
        decreases m,
    {
        let d = (m % 10) as u8;
        let ghost ds0 = ds@;
        ds.push(d);
        proof {
            assert(ds@.drop_last() =~= ds0);
            assert(digits_render(ds@) == seq![digit_char(d as int)] + digits_render(ds0));
            if m >= 10 {
                assert(dec_str((m / 10) as nat).push(digit_char(d as int)) =~= dec_str(
                    (m / 10) as nat,
                ) + seq![digit_char(d as int)]);
                assert((dec_str((m / 10) as nat) + seq![digit_char(d as int)]) + digits_render(ds0)
                    =~= dec_str((m / 10) as nat) + (seq![digit_char(d as int)] + digits_render(
                    ds0,
                )));
            } else {
                assert(dec_str(m as nat) == seq![digit_char(d as int)]);
                assert(seq![digit_char(d as int)] + digits_render(ds0) == digits_render(ds@));
            }
        }
        m = m / 10;
        if m == 0 {
            break;
        }
    }
    let mut r = String::new();
    let mut i: usize = ds.len();
    proof {
        assert(ds@.skip(ds@.len() as int) =~= Seq::<u8>::empty());
    }
    while i > 0
        invariant
            i <= ds.len(),
            r@ == digits_render(ds@.skip(i as int)),
            forall|j: int| 0 <= j < ds@.len() ==> ds@[j] < 10,
        decreases i,
    {
        i = i - 1;
        r.append(digit_str(ds[i]));
        proof {
            assert(ds@.skip(i as int) =~= seq![ds@[i as int]] + ds@.skip(i as int + 1));
            lemma_digits_render_concat(seq![ds@[i as int]], ds@.skip(i as int + 1));
            assert(seq![ds@[i as int]].drop_last() =~= Seq::<u8>::empty());
            assert(digits_render(Seq::<u8>::empty()) =~= Seq::<char>::empty());
            assert(digits_render(seq![ds@[i as int]]) =~= seq![digit_char(ds@[i as int] as int)]);
        }
    }
    proof {
        assert(ds@.skip(0) =~= ds@);
    }
    r
}

/// The lower-case hexadecimal rendering of `n`, as the nonce carries the
/// session timestamp.
pub fn u128_to_hex(n: u128) -> (r: String)
    ensures
        r@ == hex_str(n as nat),
{
    let mut ds: Vec<u8> = Vec::new();
    let mut m: u128 = n;
    proof {
        assert(hex_str(n as nat) + Seq::<char>::empty() =~= hex_str(n as nat));
    }
    loop
        invariant_except_break
            hex_str(n as nat) == hex_str(m as nat) + digits_render(ds@),
            forall|j: int| 0 <= j < ds@.len() ==> ds@[j] < 16,
        ensures
            hex_str(n as nat) == digits_render(ds@),
            forall|j: int| 0 <= j < ds@.len() ==> ds@[j] < 16,
        decreases m,
    {
        let d = (m % 16) as u8;
        let ghost ds0 = ds@;
        ds.push(d);
        proof {
            assert(ds@.drop_last() =~= ds0);
            assert(digits_render(ds@) == seq![digit_char(d as int)] + digits_render(ds0));
            if m >= 16 {
                assert(hex_str((m / 16) as nat).push(digit_char(d as int)) =~= hex_str(
                    (m / 16) as nat,
                ) + seq![digit_char(d as int)]);
                assert((hex_str((m / 16) as nat) + seq![digit_char(d as int)]) + digits_render(ds0)
                    =~= hex_str((m / 16) as nat) + (seq![digit_char(d as int)] + digits_render(
                    ds0,
                )));
            } else {
                assert(hex_str(m as nat) == seq![digit_char(d as int)]);
                assert(seq![digit_char(d as int)] + digits_render(ds0) == digits_render(ds@));
            }
        }
        m = m / 16;
        if m == 0 {
            break;
        }
    }
    let mut r = String::new();
    let mut i: usize = ds.len();
    proof {
        assert(ds@.skip(ds@.len() as int) =~= Seq::<u8>::empty());
    }
    while i > 0
        invariant
            i <= ds.len(),
            r@ == digits_render(ds@.skip(i as int)),
            forall|j: int| 0 <= j < ds@.len() ==> ds@[j] < 16,
        decreases i,
    {
        i = i - 1;
        r.append(digit_str(ds[i]));
        proof {
            assert(ds@.skip(i as int) =~= seq![ds@[i as int]] + ds@.skip(i as int + 1));
            lemma_digits_render_concat(seq![ds@[i as int]], ds@.skip(i as int + 1));
            assert(seq![ds@[i as int]].drop_last() =~= Seq::<u8>::empty());
            assert(digits_render(Seq::<u8>::empty()) =~= Seq::<char>::empty());
            assert(digits_render(seq![ds@[i as int]]) =~= seq![digit_char(ds@[i as int] as int)]);
        }
    }
    proof {
        assert(ds@.skip(0) =~= ds@);
    }
    r
}

} // verus!
