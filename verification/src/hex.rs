//! Lowercase hexadecimal rendering of byte strings.

use vstd::prelude::*;
use vstd::string::StringExecFns;

verus! {

/// The lowercase hexadecimal digit of a value below sixteen.
pub open spec fn hex_digit(n: u8) -> char {
    if n == 0 {
        '0'
    } else if n == 1 {
        '1'
    } else if n == 2 {
        '2'
    } else if n == 3 {
        '3'
    } else if n == 4 {
        '4'
    } else if n == 5 {
        '5'
    } else if n == 6 {
        '6'
    } else if n == 7 {
        '7'
    } else if n == 8 {
        '8'
    } else if n == 9 {
        '9'
    } else if n == 10 {
        'a'
    } else if n == 11 {
        'b'
    } else if n == 12 {
        'c'
    } else if n == 13 {
        'd'
    } else if n == 14 {
        'e'
    } else {
        'f'
    }
}

/// The text of a byte string in lowercase hexadecimal: two digits per byte,
/// the high half first.
pub open spec fn hex_text(bytes: Seq<u8>) -> Seq<char> {
    Seq::new(
        2 * bytes.len(),
        |i: int| if i % 2 == 0 {
            hex_digit(bytes[i / 2] / 16u8)
        } else {
            hex_digit(bytes[i / 2] % 16u8)
        },
    )
}

/// Whether a character is one of the sixteen lowercase hexadecimal digits.
pub open spec fn is_hex_char(c: char) -> bool {
    exists|n: u8| n < 16 && c == hex_digit(n)
}

/// Two values below sixteen with the same digit are the same value.
pub proof fn hex_digit_injective(a: u8, b: u8)
    requires
        a < 16,
        b < 16,
        hex_digit(a) == hex_digit(b),
    ensures
        a == b,
{
}

/// Rendering loses nothing: two byte strings with the same hexadecimal text
/// are the same byte string.
pub proof fn hex_text_injective(a: Seq<u8>, b: Seq<u8>)
    requires
        hex_text(a) == hex_text(b),
    ensures
        a == b,
{
    assert(hex_text(a).len() == 2 * a.len());
    assert(hex_text(b).len() == 2 * b.len());
    assert(a.len() == b.len());
    assert forall|i: int| 0 <= i < a.len() implies a[i] == b[i] by {
        let x: u8 = a[i];
        let y: u8 = b[i];
        assert(hex_text(a)[2 * i] == hex_digit(x / 16u8));
        assert(hex_text(b)[2 * i] == hex_digit(y / 16u8));
        assert(hex_text(a)[2 * i + 1] == hex_digit(x % 16u8));
        assert(hex_text(b)[2 * i + 1] == hex_digit(y % 16u8));
        hex_digit_injective(x / 16u8, y / 16u8);
        hex_digit_injective(x % 16u8, y % 16u8);
    }
    assert(a =~= b);
}

/// Every character of a hexadecimal text is a lowercase hexadecimal digit,
/// and the text is twice as long as the byte string.
pub proof fn hex_text_shape(bytes: Seq<u8>)
    ensures
        hex_text(bytes).len() == 2 * bytes.len(),
        forall|i: int| 0 <= i < 2 * bytes.len() ==> is_hex_char(#[trigger] hex_text(bytes)[i]),
{
    assert forall|i: int| 0 <= i < 2 * bytes.len() implies is_hex_char(
        #[trigger] hex_text(bytes)[i],
    ) by {
        let b: u8 = bytes[i / 2];
        if i % 2 == 0 {
            assert(hex_text(bytes)[i] == hex_digit(b / 16u8));
            assert(b / 16u8 < 16);
        } else {
            assert(hex_text(bytes)[i] == hex_digit(b % 16u8));
            assert(b % 16u8 < 16);
        }
    }
}

/// The digit of `n` (of fifteen, for any larger value).
pub fn hex_char(n: u8) -> (c: char)
    ensures
        c == hex_digit(n),
{
    if n == 0 {
        '0'
    } else if n == 1 {
        '1'
    } else if n == 2 {
        '2'
    } else if n == 3 {
        '3'
    } else if n == 4 {
        '4'
    } else if n == 5 {
        '5'
    } else if n == 6 {
        '6'
    } else if n == 7 {
        '7'
    } else if n == 8 {
        '8'
    } else if n == 9 {
        '9'
    } else if n == 10 {
        'a'
    } else if n == 11 {
        'b'
    } else if n == 12 {
        'c'
    } else if n == 13 {
        'd'
    } else if n == 14 {
        'e'
    } else {
        'f'
    }
}

/// The digit of `n` as a text of one character.
fn hex_str(n: u8) -> (s: &'static str)
    ensures
        s@ == seq![hex_digit(n)],
{
    proof {
        reveal_strlit("0");
        assert("0"@ =~= seq!['0']);
        reveal_strlit("1");
        assert("1"@ =~= seq!['1']);
        reveal_strlit("2");
        assert("2"@ =~= seq!['2']);
        reveal_strlit("3");
        assert("3"@ =~= seq!['3']);
        reveal_strlit("4");
        assert("4"@ =~= seq!['4']);
        reveal_strlit("5");
        assert("5"@ =~= seq!['5']);
        reveal_strlit("6");
        assert("6"@ =~= seq!['6']);
        reveal_strlit("7");
        assert("7"@ =~= seq!['7']);
        reveal_strlit("8");
        assert("8"@ =~= seq!['8']);
        reveal_strlit("9");
        assert("9"@ =~= seq!['9']);
        reveal_strlit("a");
        assert("a"@ =~= seq!['a']);
        reveal_strlit("b");
        assert("b"@ =~= seq!['b']);
        reveal_strlit("c");
        assert("c"@ =~= seq!['c']);
        reveal_strlit("d");
        assert("d"@ =~= seq!['d']);
        reveal_strlit("e");
        assert("e"@ =~= seq!['e']);
        reveal_strlit("f");
        assert("f"@ =~= seq!['f']);
    }
    if n == 0 {
        "0"
    } else if n == 1 {
        "1"
    } else if n == 2 {
        "2"
    } else if n == 3 {
        "3"
    } else if n == 4 {
        "4"
    } else if n == 5 {
        "5"
    } else if n == 6 {
        "6"
    } else if n == 7 {
        "7"
    } else if n == 8 {
        "8"
    } else if n == 9 {
        "9"
    } else if n == 10 {
        "a"
    } else if n == 11 {
        "b"
    } else if n == 12 {
        "c"
    } else if n == 13 {
        "d"
    } else if n == 14 {
        "e"
    } else {
        "f"
    }
}

/// Renders `bytes` in lowercase hexadecimal.
pub fn to_hex(bytes: &[u8]) -> (out: String)
    ensures
        out@ == hex_text(bytes@),
{
    let mut out = String::new();
    let mut i: usize = 0;
    while i < bytes.len()
        invariant
            i <= bytes.len(),
            out@ == hex_text(bytes@.subrange(0, i as int)),
        decreases bytes.len() - i,
    {
        let b: u8 = bytes[i];
        out.append(hex_str(b / 16));
        out.append(hex_str(b % 16));
        proof {
            let before = bytes@.subrange(0, i as int);
            let after = bytes@.subrange(0, i + 1);
            assert(after.len() == before.len() + 1);
            assert(hex_text(after) =~= hex_text(before) + seq![hex_digit(b / 16u8)] + seq![
                hex_digit(b % 16u8),
            ]);
        }
        i += 1;
    }
    proof {
        assert(bytes@.subrange(0, i as int) =~= bytes@);
    }
    out
}

} // verus!
