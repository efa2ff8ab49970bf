//! Numbers written in base 16, as the mnemonics and the state line show
//! them.

use vstd::prelude::*;

verus! {

/// The character of one base-16 digit: `0` to `9`, then `a` to `f`, or `A`
/// to `F` where `upper` is set.
pub open spec fn hex_char(digit: int, upper: bool) -> char {
    if digit == 0 {
        '0'
    } else if digit == 1 {
        '1'
    } else if digit == 2 {
        '2'
    } else if digit == 3 {
        '3'
    } else if digit == 4 {
        '4'
    } else if digit == 5 {
        '5'
    } else if digit == 6 {
        '6'
    } else if digit == 7 {
        '7'
    } else if digit == 8 {
        '8'
    } else if digit == 9 {
        '9'
    } else if digit == 10 {
        if upper {
            'A'
        } else {
            'a'
        }
    } else if digit == 11 {
        if upper {
            'B'
        } else {
            'b'
        }
    } else if digit == 12 {
        if upper {
            'C'
        } else {
            'c'
        }
    } else if digit == 13 {
        if upper {
            'D'
        } else {
            'd'
        }
    } else if digit == 14 {
        if upper {
            'E'
        } else {
            'e'
        }
    } else {
        if upper {
            'F'
        } else {
            'f'
        }
    }
}

/// A number in base 16, the most significant digit first, without leading
/// zeros; the number 0 is the one digit `0`.
pub open spec fn hex(n: nat, upper: bool) -> Seq<char>
    decreases n,
{
    if n < 16 {
        seq![hex_char(n as int, upper)]
    } else {
        hex(n / 16, upper).push(hex_char((n % 16) as int, upper))
    }
}

/// A run of `count` characters `0`.
pub open spec fn zeros(count: nat) -> Seq<char> {
    Seq::new(count, |k: int| '0')
}

/// A number in base 16 after the prefix `0x`, in lower case, with zeros
/// between prefix and digits where the whole would else be shorter than
/// `width` characters.
pub open spec fn hex_prefixed(n: nat, width: nat) -> Seq<char> {
    let digits = hex(n, false);
    let fill = if 2 + digits.len() < width {
        (width - 2 - digits.len()) as nat
    } else {
        0
    };
    seq!['0', 'x'] + zeros(fill) + digits
}

/// The text of one base-16 digit.
fn digit_text(digit: u8, upper: bool) -> (text: &'static str)
    requires
        digit < 16,
    ensures
        text@ == seq![hex_char(digit as int, upper)],
{
    proof {
        reveal_strlit("0");
        reveal_strlit("1");
        reveal_strlit("2");
        reveal_strlit("3");
        reveal_strlit("4");
        reveal_strlit("5");
        reveal_strlit("6");
        reveal_strlit("7");
        reveal_strlit("8");
        reveal_strlit("9");
        reveal_strlit("a");
        reveal_strlit("b");
        reveal_strlit("c");
        reveal_strlit("d");
        reveal_strlit("e");
        reveal_strlit("f");
        reveal_strlit("A");
        reveal_strlit("B");
        reveal_strlit("C");
        reveal_strlit("D");
        reveal_strlit("E");
        reveal_strlit("F");
    }
    let text = match (digit, upper) {
        (0, _) => "0",
        (1, _) => "1",
        (2, _) => "2",
        (3, _) => "3",
        (4, _) => "4",
        (5, _) => "5",
        (6, _) => "6",
        (7, _) => "7",
        (8, _) => "8",
        (9, _) => "9",
        (10, false) => "a",
        (11, false) => "b",
        (12, false) => "c",
        (13, false) => "d",
        (14, false) => "e",
        (15, false) => "f",
        (10, true) => "A",
        (11, true) => "B",
        (12, true) => "C",
        (13, true) => "D",
        (14, true) => "E",
        _ => "F",
    };
    assert(text@ =~= seq![hex_char(digit as int, upper)]);
    text
}

/// The number of base-16 digits of `n`.
fn hex_len(n: u64) -> (len: usize)
    ensures
        len == hex(n as nat, false).len(),
        1 <= len <= 16,
    decreases n,
{
    if n < 16 {
        1
    } else {
        assert(n / 16 < 0x1000_0000_0000_0000);
        proof {
            lemma_hex_len_bound(n / 16);
        }
        1 + hex_len(n / 16)
    }
}

/// A number below 16^15 has at most fifteen base-16 digits.
proof fn lemma_hex_len_bound(n: u64)
    requires
        n < 0x1000_0000_0000_0000,
    ensures
        hex(n as nat, false).len() <= 15,
{
    reveal_with_fuel(hex, 16);
}

/// Appends `n` in base 16 to `out`.
pub fn append_hex(out: &mut String, n: u64, upper: bool)
    ensures
        final(out)@ == old(out)@ + hex(n as nat, upper),
    decreases n,
{
    if n >= 16 {
        append_hex(out, n / 16, upper);
    }
    out.append(digit_text((n % 16) as u8, upper));
    assert(old(out)@ + hex((n / 16) as nat, upper) + seq![hex_char((n % 16) as int, upper)]
        =~= old(out)@ + hex((n / 16) as nat, upper).push(hex_char((n % 16) as int, upper)));
}

/// Appends `n` in base 16 to `out`, after the prefix `0x` and as many zeros
/// as bring the whole to `width` characters.
pub fn append_hex_prefixed(out: &mut String, n: u64, width: usize)
    ensures
        final(out)@ == old(out)@ + hex_prefixed(n as nat, width as nat),
{
    proof {
        reveal_strlit("0x");
    }
    out.append("0x");
    assert(out@ =~= old(out)@ + seq!['0', 'x']);
    let len = hex_len(n);
    let mut written: usize = 2 + len;
    let ghost fill: nat = if 2 + len < width {
        (width - 2 - len) as nat
    } else {
        0
    };
    let ghost mut done: nat = 0;
    while written < width
        invariant
            written == 2 + len + done,
            done <= fill,
            fill > 0 ==> written + (fill - done) == width,
            fill == 0 ==> written >= width,
            out@ == old(out)@ + seq!['0', 'x'] + zeros(done),
        decreases width - written,
    {
        out.append("0");
        proof {
            reveal_strlit("0");
            assert("0"@ =~= seq!['0']);
            assert(zeros(done) + seq!['0'] =~= zeros(done + 1));
            assert(old(out)@ + seq!['0', 'x'] + zeros(done) + seq!['0'] =~= old(out)@ + seq![
                '0',
                'x',
            ] + zeros(done + 1));
            done = done + 1;
        }
        written += 1;
    }
    append_hex(out, n, false);
    assert(out@ =~= old(out)@ + hex_prefixed(n as nat, width as nat));
}

} // verus!
