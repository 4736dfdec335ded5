//! Percent-encoding of request-URL components. A package name or search
//! query typed by a user may hold spaces, separators or non-ASCII text; the
//! URL builders encode every byte of its UTF-8 form except the unreserved
//! characters, so the request path and query stay well-formed.

use vstd::prelude::*;
use vstd::string::StringExecFns;
use vstd::string::StrSliceExecFns;
use vstd::utf8::encode_utf8;
use crate::numtext::dec_digit;

verus! {

/// The unreserved bytes: ASCII letters, digits, `-`, `.`, `_` and `~`. They
/// pass through the encoding unchanged; every other byte becomes `%XX`.
pub open spec fn is_unreserved(b: u8) -> bool {
    ||| 0x41 <= b <= 0x5a
    ||| 0x61 <= b <= 0x7a
    ||| 0x30 <= b <= 0x39
    ||| b == 0x2d
    ||| b == 0x2e
    ||| b == 0x5f
    ||| b == 0x7e
}

/// The upper-case hexadecimal digit character for `d` (`0` through `15`).
pub open spec fn hex_digit(d: nat) -> char {
    if d < 10 {
        dec_digit(d)
    } else if d == 10 {
        'A'
    } else if d == 11 {
        'B'
    } else if d == 12 {
        'C'
    } else if d == 13 {
        'D'
    } else if d == 14 {
        'E'
    } else {
        'F'
    }
}

/// What one byte contributes to the encoding: itself when unreserved, else a
/// percent escape of its two hexadecimal digits.
pub open spec fn enc_byte(b: u8) -> Seq<char> {
    if is_unreserved(b) {
        seq![b as char]
    } else {
        seq!['%', hex_digit((b / 16) as nat), hex_digit((b % 16) as nat)]
    }
}

/// The percent-encoding of a byte sequence, byte by byte in order.
pub open spec fn pct_bytes(bytes: Seq<u8>) -> Seq<char>
    decreases bytes.len(),
{
    if bytes.len() == 0 {
        Seq::<char>::empty()
    } else {
        enc_byte(bytes[0]) + pct_bytes(bytes.drop_first())
    }
}

/// The percent-encoding of a string: its UTF-8 bytes, encoded in order.
pub open spec fn pct_encoded(s: Seq<char>) -> Seq<char> {
    pct_bytes(encode_utf8(s))
}

proof fn lemma_pct_bytes_push(bytes: Seq<u8>, b: u8)
    ensures
        pct_bytes(bytes.push(b)) == pct_bytes(bytes) + enc_byte(b),
    decreases bytes.len(),
{
    if bytes.len() == 0 {
        assert(bytes.push(b).drop_first() =~= bytes);
        assert(pct_bytes(bytes.push(b)) =~= pct_bytes(bytes) + enc_byte(b));
    } else {
        lemma_pct_bytes_push(bytes.drop_first(), b);
        assert(bytes.push(b).drop_first() =~= bytes.drop_first().push(b));
        assert(pct_bytes(bytes.push(b)) =~= pct_bytes(bytes) + enc_byte(b));
    }
}

/// One upper-case hexadecimal digit as text.
fn hex_str(d: u8) -> (r: &'static str)
    requires
        d < 16,
    ensures
        r@ == seq![hex_digit(d as nat)],
{
    proof {
        reveal_strlit("0");
        reveal_strlit("1");
        reveal_strlit("2");
        reveal_strlit("3");
        reveal_strlit("4");
        reveal_strlit("5");
        reveal_strlit("6");
        reveal_strlit("7");
        reveal_strlit("8");
        reveal_strlit("9");
        reveal_strlit("A");
        reveal_strlit("B");
        reveal_strlit("C");
        reveal_strlit("D");
        reveal_strlit("E");
        reveal_strlit("F");
    }
    if d == 0 {
        "0"
    } else if d == 1 {
        "1"
    } else if d == 2 {
        "2"
    } else if d == 3 {
        "3"
    } else if d == 4 {
        "4"
    } else if d == 5 {
        "5"
    } else if d == 6 {
        "6"
    } else if d == 7 {
        "7"
    } else if d == 8 {
        "8"
    } else if d == 9 {
        "9"
    } else if d == 10 {
        "A"
    } else if d == 11 {
        "B"
    } else if d == 12 {
        "C"
    } else if d == 13 {
        "D"
    } else if d == 14 {
        "E"
    } else if d == 15 {
        "F"
    } else {
        "F"
    }
}

/// One unreserved byte as the text of its own character.
fn unreserved_str(b: u8) -> (r: &'static str)
    requires
        is_unreserved(b),
    ensures
        r@ == seq![b as char],
{
    proof {
        reveal_strlit("A");
        reveal_strlit("B");
        reveal_strlit("C");
        reveal_strlit("D");
        reveal_strlit("E");
        reveal_strlit("F");
        reveal_strlit("G");
        reveal_strlit("H");
        reveal_strlit("I");
        reveal_strlit("J");
        reveal_strlit("K");
        reveal_strlit("L");
        reveal_strlit("M");
        reveal_strlit("N");
        reveal_strlit("O");
        reveal_strlit("P");
        reveal_strlit("Q");
        reveal_strlit("R");
        reveal_strlit("S");
        reveal_strlit("T");
        reveal_strlit("U");
        reveal_strlit("V");
        reveal_strlit("W");
        reveal_strlit("X");
        reveal_strlit("Y");
        reveal_strlit("Z");
        reveal_strlit("a");
        reveal_strlit("b");
        reveal_strlit("c");
        reveal_strlit("d");
        reveal_strlit("e");
        reveal_strlit("f");
        reveal_strlit("g");
        reveal_strlit("h");
        reveal_strlit("i");
        reveal_strlit("j");
        reveal_strlit("k");
        reveal_strlit("l");
        reveal_strlit("m");
        reveal_strlit("n");
        reveal_strlit("o");
        reveal_strlit("p");
        reveal_strlit("q");
        reveal_strlit("r");
        reveal_strlit("s");
        reveal_strlit("t");
        reveal_strlit("u");
        reveal_strlit("v");
        reveal_strlit("w");
        reveal_strlit("x");
        reveal_strlit("y");
        reveal_strlit("z");
        reveal_strlit("0");
        reveal_strlit("1");
        reveal_strlit("2");
        reveal_strlit("3");
        reveal_strlit("4");
        reveal_strlit("5");
        reveal_strlit("6");
        reveal_strlit("7");
        reveal_strlit("8");
        reveal_strlit("9");
        reveal_strlit("-");
        reveal_strlit(".");
        reveal_strlit("_");
        reveal_strlit("~");
    }
    if b == 0x41 {
        "A"
    } else if b == 0x42 {
        "B"
    } else if b == 0x43 {
        "C"
    } else if b == 0x44 {
        "D"
    } else if b == 0x45 {
        "E"
    } else if b == 0x46 {
        "F"
    } else if b == 0x47 {
        "G"
    } else if b == 0x48 {
        "H"
    } else if b == 0x49 {
        "I"
    } else if b == 0x4a {
        "J"
    } else if b == 0x4b {
        "K"
    } else if b == 0x4c {
        "L"
    } else if b == 0x4d {
        "M"
    } else if b == 0x4e {
        "N"
    } else if b == 0x4f {
        "O"
    } else if b == 0x50 {
        "P"
    } else if b == 0x51 {
        "Q"
    } else if b == 0x52 {
        "R"
    } else if b == 0x53 {
        "S"
    } else if b == 0x54 {
        "T"
    } else if b == 0x55 {
        "U"
    } else if b == 0x56 {
        "V"
    } else if b == 0x57 {
        "W"
    } else if b == 0x58 {
        "X"
    } else if b == 0x59 {
        "Y"
    } else if b == 0x5a {
        "Z"
    } else if b == 0x61 {
        "a"
    } else if b == 0x62 {
        "b"
    } else if b == 0x63 {
        "c"
    } else if b == 0x64 {
        "d"
    } else if b == 0x65 {
        "e"
    } else if b == 0x66 {
        "f"
    } else if b == 0x67 {
        "g"
    } else if b == 0x68 {
        "h"
    } else if b == 0x69 {
        "i"
    } else if b == 0x6a {
        "j"
    } else if b == 0x6b {
        "k"
    } else if b == 0x6c {
        "l"
    } else if b == 0x6d {
        "m"
    } else if b == 0x6e {
        "n"
    } else if b == 0x6f {
        "o"
    } else if b == 0x70 {
        "p"
    } else if b == 0x71 {
        "q"
    } else if b == 0x72 {
        "r"
    } else if b == 0x73 {
        "s"
    } else if b == 0x74 {
        "t"
    } else if b == 0x75 {
        "u"
    } else if b == 0x76 {
        "v"
    } else if b == 0x77 {
        "w"
    } else if b == 0x78 {
        "x"
    } else if b == 0x79 {
        "y"
    } else if b == 0x7a {
        "z"
    } else if b == 0x30 {
        "0"
    } else if b == 0x31 {
        "1"
    } else if b == 0x32 {
        "2"
    } else if b == 0x33 {
        "3"
    } else if b == 0x34 {
        "4"
    } else if b == 0x35 {
        "5"
    } else if b == 0x36 {
        "6"
    } else if b == 0x37 {
        "7"
    } else if b == 0x38 {
        "8"
    } else if b == 0x39 {
        "9"
    } else if b == 0x2d {
        "-"
    } else if b == 0x2e {
        "."
    } else if b == 0x5f {
        "_"
    } else if b == 0x7e {
        "~"
    } else {
        "~"
    }
}

/// Percent-encodes a URL component.
pub fn pct_encode(s: &str) -> (r: String)
    ensures
        r@ == pct_encoded(s@),
{
    let bytes = s.as_bytes();
    let n = bytes.len();
    let mut out = String::new();
    let mut i: usize = 0;
    while i < n
        invariant
            bytes@ == encode_utf8(s@),
            n == bytes@.len(),
            i <= n,
            out@ == pct_bytes(bytes@.take(i as int)),
        decreases n - i,
    {
        let b = bytes[i];
        if (0x41 <= b && b <= 0x5a) || (0x61 <= b && b <= 0x7a) || (0x30 <= b && b <= 0x39) || b
            == 0x2d || b == 0x2e || b == 0x5f || b == 0x7e {
            out.append(unreserved_str(b));
        } else {
            out.append("%");
            let hi: u8 = b / 16;
            let lo: u8 = b % 16;
            out.append(hex_str(hi));
            out.append(hex_str(lo));
            proof {
                reveal_strlit("%");
            }
        }
        proof {
            lemma_pct_bytes_push(bytes@.take(i as int), bytes@[i as int]);
            assert(bytes@.take(i as int).push(bytes@[i as int]) =~= bytes@.take(i as int + 1));
            assert(out@ =~= pct_bytes(bytes@.take(i as int + 1)));
        }
        i += 1;
    }
    proof {
        assert(bytes@.take(n as int) =~= bytes@);
        assert(out@ =~= pct_encoded(s@));
    }
    out
}

} // verus!
