//! Lowercase hexadecimal rendering of byte sequences, with a proof that
//! the rendering is injective on sequences of equal length.

use vstd::prelude::*;

verus! {

/// The lowercase hex character for a nibble value.
pub open spec fn hex_digit(n: int) -> char
    recommends
        0 <= n < 16,
{
    if n == 0 {
        '0'
    } else if n == 1 {
        '1'
    } else if n == 2 {
        '2'
    } else if n == 3 {
        '3'
    } else if n == 4 {
        '4'
    } else if n == 5 {
        '5'
    } else if n == 6 {
        '6'
    } else if n == 7 {
        '7'
    } else if n == 8 {
        '8'
    } else if n == 9 {
        '9'
    } else if n == 10 {
        'a'
    } else if n == 11 {
        'b'
    } else if n == 12 {
        'c'
    } else if n == 13 {
        'd'
    } else if n == 14 {
        'e'
    } else {
        'f'
    }
}

/// A lowercase hex character.
pub open spec fn is_hex_char(c: char) -> bool {
    ('0' <= c && c <= '9') || ('a' <= c && c <= 'f')
}

/// The lowercase hex rendering of a byte sequence: two characters per
/// byte, high nibble first, no separators.
pub open spec fn hex_of(bytes: Seq<u8>) -> Seq<char> {
    Seq::new(
        2 * bytes.len(),
        |i: int|
            if i % 2 == 0 {
                hex_digit((bytes[i / 2] as int) / 16)
            } else {
                hex_digit((bytes[i / 2] as int) % 16)
            },
    )
}

/// The nibble value a lowercase hex character stands for.
pub open spec fn hex_val(c: char) -> int {
    if c == '0' {
        0
    } else if c == '1' {
        1
    } else if c == '2' {
        2
    } else if c == '3' {
        3
    } else if c == '4' {
        4
    } else if c == '5' {
        5
    } else if c == '6' {
        6
    } else if c == '7' {
        7
    } else if c == '8' {
        8
    } else if c == '9' {
        9
    } else if c == 'a' {
        10
    } else if c == 'b' {
        11
    } else if c == 'c' {
        12
    } else if c == 'd' {
        13
    } else if c == 'e' {
        14
    } else if c == 'f' {
        15
    } else {
        -1
    }
}

/// `hex_val` inverts `hex_digit` on nibble values, so the rendering of a
/// nibble determines the nibble.
pub proof fn lemma_hex_val_inverse(n: int)
    requires
        0 <= n < 16,
    ensures
        hex_val(hex_digit(n)) == n,
{
}

/// Distinct byte sequences of equal length render to distinct hex
/// strings: the hex rendering loses no information.
pub proof fn lemma_hex_of_injective(d1: Seq<u8>, d2: Seq<u8>)
    requires
        d1.len() == d2.len(),
        d1 != d2,
    ensures
        hex_of(d1) != hex_of(d2),
{
    if forall|i: int| 0 <= i < d1.len() ==> d1[i] == #[trigger] d2[i] {
        assert(d1 =~= d2);
    }
    let i = choose|i: int| 0 <= i < d1.len() && d1[i] != d2[i];
    let a = d1[i] as int;
    let b = d2[i] as int;
    assert(a == 16 * (a / 16) + a % 16) by (nonlinear_arith);
    assert(b == 16 * (b / 16) + b % 16) by (nonlinear_arith);
    assert(0 <= a / 16 < 16 && 0 <= a % 16 < 16) by (nonlinear_arith)
        requires
            0 <= a < 256,
    ;
    assert(0 <= b / 16 < 16 && 0 <= b % 16 < 16) by (nonlinear_arith)
        requires
            0 <= b < 256,
    ;
    if a / 16 != b / 16 {
        lemma_hex_val_inverse(a / 16);
        lemma_hex_val_inverse(b / 16);
        assert(hex_of(d1)[2 * i] != hex_of(d2)[2 * i]);
    } else {
        lemma_hex_val_inverse(a % 16);
        lemma_hex_val_inverse(b % 16);
        assert(hex_of(d1)[2 * i + 1] != hex_of(d2)[2 * i + 1]);
    }
}

/// Appends the hex character for one nibble.
fn push_hex_digit(s: &mut String, n: u8)
    requires
        n < 16,
    ensures
        final(s)@ == old(s)@.push(hex_digit(n as int)),
{
    proof {
        reveal_strlit("0");
        reveal_strlit("1");
        reveal_strlit("2");
        reveal_strlit("3");
        reveal_strlit("4");
        reveal_strlit("5");
        reveal_strlit("6");
        reveal_strlit("7");
        reveal_strlit("8");
        reveal_strlit("9");
        reveal_strlit("a");
        reveal_strlit("b");
        reveal_strlit("c");
        reveal_strlit("d");
        reveal_strlit("e");
        reveal_strlit("f");
    }
    if n == 0 {
        s.append("0");
    } else if n == 1 {
        s.append("1");
    } else if n == 2 {
        s.append("2");
    } else if n == 3 {
        s.append("3");
    } else if n == 4 {
        s.append("4");
    } else if n == 5 {
        s.append("5");
    } else if n == 6 {
        s.append("6");
    } else if n == 7 {
        s.append("7");
    } else if n == 8 {
        s.append("8");
    } else if n == 9 {
        s.append("9");
    } else if n == 10 {
        s.append("a");
    } else if n == 11 {
        s.append("b");
    } else if n == 12 {
        s.append("c");
    } else if n == 13 {
        s.append("d");
    } else if n == 14 {
        s.append("e");
    } else {
        s.append("f");
    }
    proof {
        assert(final(s)@ =~= old(s)@.push(hex_digit(n as int)));
    }
}

/// Renders a byte slice as lowercase hex, two characters per byte.
pub fn hex_encode(bytes: &[u8]) -> (r: String)
    ensures
        r@ == hex_of(bytes@),
{
    let mut s = String::new();
    let mut i: usize = 0;
    while i < bytes.len()
        invariant
            i <= bytes@.len(),
            s@ =~= hex_of(bytes@.take(i as int)),
        decreases bytes@.len() - i,
    {
        let b = bytes[i];
        push_hex_digit(&mut s, b / 16);
        push_hex_digit(&mut s, b % 16);
        i = i + 1;
        proof {
            assert(s@ =~= hex_of(bytes@.take(i as int)));
        }
    }
    proof {
        assert(bytes@.take(bytes@.len() as int) =~= bytes@);
    }
    s
}

} // verus!
