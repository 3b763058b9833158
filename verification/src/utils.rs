use vstd::prelude::*;
use vstd::string::StringExecFns;

verus! {

/// The lowercase hexadecimal digit of `d` (0..16).
pub open spec fn hex_char(d: int) -> char {
    if d < 10 {
        (48 + d) as char
    } else {
        (87 + d) as char
    }
}

/// A byte as two lowercase hex digits.
pub open spec fn hex_byte(b: u8) -> Seq<char> {
    seq![hex_char(b as int / 16), hex_char(b as int % 16)]
}

/// One entry of a memory dump: the byte in hex and a space, and a line break after
/// every sixteenth byte.
pub open spec fn dump_entry(b: u8, i: int) -> Seq<char> {
    hex_byte(b) + seq![' '] + if i % 16 == 15 {
        seq!['\n']
    } else {
        Seq::empty()
    }
}

/// The dump of the first `n` bytes of `mem`.
pub open spec fn dump(mem: Seq<u8>, n: int) -> Seq<char>
    decreases n,
{
    if n <= 0 {
        Seq::empty()
    } else {
        dump(mem, n - 1) + dump_entry(mem[n - 1], n - 1)
    }
}

/// The one-character string of a hex digit.
pub fn hex_digit(d: u8) -> (r: &'static str)
    requires
        d < 16,
    ensures
        r@ == seq![hex_char(d as int)],
{
    match d {
        0 => {
            proof {
                reveal_strlit("0");
            }
            "0"
        },
        1 => {
            proof {
                reveal_strlit("1");
            }
            "1"
        },
        2 => {
            proof {
                reveal_strlit("2");
            }
            "2"
        },
        3 => {
            proof {
                reveal_strlit("3");
            }
            "3"
        },
        4 => {
            proof {
                reveal_strlit("4");
            }
            "4"
        },
        5 => {
            proof {
                reveal_strlit("5");
            }
            "5"
        },
        6 => {
            proof {
                reveal_strlit("6");
            }
            "6"
        },
        7 => {
            proof {
                reveal_strlit("7");
            }
            "7"
        },
        8 => {
            proof {
                reveal_strlit("8");
            }
            "8"
        },
        9 => {
            proof {
                reveal_strlit("9");
            }
            "9"
        },
        10 => {
            proof {
                reveal_strlit("a");
            }
            "a"
        },
        11 => {
            proof {
                reveal_strlit("b");
            }
            "b"
        },
        12 => {
            proof {
                reveal_strlit("c");
            }
            "c"
        },
        13 => {
            proof {
                reveal_strlit("d");
            }
            "d"
        },
        14 => {
            proof {
                reveal_strlit("e");
            }
            "e"
        },
        _ => {
            proof {
                reveal_strlit("f");
            }
            "f"
        },
    }
}

/// Appends a byte as two lowercase hex digits.
pub fn push_hex_byte(output: &mut String, b: u8)
    ensures
        final(output)@ == old(output)@ + hex_byte(b),
{
    output.append(hex_digit(b / 16));
    output.append(hex_digit(b % 16));
}

/// Appends a hex dump of `mem`: each byte as two lowercase hex digits and a space,
/// sixteen bytes per line.
pub fn print_mem(output: &mut String, mem: &[u8])
    ensures
        final(output)@ == old(output)@ + dump(mem@, mem@.len() as int),
{
    let n = mem.len();
    let mut i: usize = 0;
    while i < n
        invariant
            n == mem@.len(),
            i <= n,
            output@ == old(output)@ + dump(mem@, i as int),
        decreases n - i,
    {
        let ghost before = output@;
        push_hex_byte(output, mem[i]);
        proof {
            reveal_strlit(" ");
        }
        output.append(" ");
        if i % 16 == 15 {
            proof {
                reveal_strlit("\n");
            }
            output.append("\n");
        }
        assert(output@ =~= before + dump_entry(mem@[i as int], i as int));
        i = i + 1;
    }
}

/// Whether bit `n` of `b` is set.
pub open spec fn bit_of(b: u8, n: u8) -> bool {
    (b >> n) & 1 == 1
}

/// The byte with its bits in reverse order: bit `n` of `b` is bit `7 - n` of the result.
pub open spec fn reversed(b: u8) -> u8 {
    (b % 2 * 0x80 + b / 2 % 2 * 0x40 + b / 4 % 2 * 0x20 + b / 8 % 2 * 0x10 + b / 16 % 2 * 8 + b
        / 32 % 2 * 4 + b / 64 % 2 * 2 + b / 128) as u8
}

/// The byte with its bits in reverse order (bit 0 becomes bit 7).
pub fn reverse_byte(b: u8) -> (r: u8)
    ensures
        forall|n: u8| n < 8 ==> #[trigger] bit_of(r, n) == bit_of(b, (7 - n) as u8),
        r == reversed(b),
{
    let r = (b & 0x01) << 7 | (b & 0x02) << 5 | (b & 0x04) << 3 | (b & 0x08) << 1 | (b & 0x10) >> 1
        | (b & 0x20) >> 3 | (b & 0x40) >> 5 | (b & 0x80) >> 7;
    assert(forall|n: u8| n < 8 ==> #[trigger] ((r >> n) & 1) == (b >> ((7 - n) as u8)) & 1)
        by (bit_vector)
        requires
            r == (b & 0x01) << 7 | (b & 0x02) << 5 | (b & 0x04) << 3 | (b & 0x08) << 1 | (b
                & 0x10) >> 1 | (b & 0x20) >> 3 | (b & 0x40) >> 5 | (b & 0x80) >> 7,
    ;
    assert(r == reversed(b)) by (bit_vector)
        requires
            r == (b & 0x01) << 7 | (b & 0x02) << 5 | (b & 0x04) << 3 | (b & 0x08) << 1 | (b
                & 0x10) >> 1 | (b & 0x20) >> 3 | (b & 0x40) >> 5 | (b & 0x80) >> 7,
    ;
    r
}

/// Reversing a byte moves bit `n` to bit `7 - n`.
pub proof fn lemma_reversed_bits(b: u8)
    ensures
        forall|n: u8| n < 8 ==> #[trigger] bit_of(reversed(b), n) == bit_of(b, (7 - n) as u8),
{
    let r = reversed(b);
    assert(r == (b % 2 * 0x80 + b / 2 % 2 * 0x40 + b / 4 % 2 * 0x20 + b / 8 % 2 * 0x10 + b / 16 % 2
        * 8 + b / 32 % 2 * 4 + b / 64 % 2 * 2 + b / 128) as u8);
    assert(forall|n: u8| n < 8 ==> #[trigger] ((r >> n) & 1) == (b >> ((7 - n) as u8)) & 1)
        by (bit_vector)
        requires
            r == (b % 2 * 0x80 + b / 2 % 2 * 0x40 + b / 4 % 2 * 0x20 + b / 8 % 2 * 0x10 + b / 16 % 2
                * 8 + b / 32 % 2 * 4 + b / 64 % 2 * 2 + b / 128) as u8,
    ;
}

/// Reversing the bits of a byte twice gives the byte back.
pub proof fn lemma_reversed_involution(b: u8)
    ensures
        reversed(reversed(b)) == b,
{
    let r = reversed(b);
    assert(r == (b % 2 * 0x80 + b / 2 % 2 * 0x40 + b / 4 % 2 * 0x20 + b / 8 % 2 * 0x10 + b / 16 % 2
        * 8 + b / 32 % 2 * 4 + b / 64 % 2 * 2 + b / 128) as u8);
    assert((r % 2 * 0x80 + r / 2 % 2 * 0x40 + r / 4 % 2 * 0x20 + r / 8 % 2 * 0x10 + r / 16 % 2 * 8
        + r / 32 % 2 * 4 + r / 64 % 2 * 2 + r / 128) as u8 == b) by (bit_vector)
        requires
            r == (b % 2 * 0x80 + b / 2 % 2 * 0x40 + b / 4 % 2 * 0x20 + b / 8 % 2 * 0x10 + b / 16 % 2
                * 8 + b / 32 % 2 * 4 + b / 64 % 2 * 2 + b / 128) as u8,
    ;
}

/// The uppercase hexadecimal digit of `d` (0..16).
pub open spec fn hex_upper_char(d: int) -> char {
    if d < 10 {
        (48 + d) as char
    } else {
        (55 + d) as char
    }
}

/// `n` in uppercase hexadecimal, without leading zeros.
pub open spec fn hex_upper(n: nat) -> Seq<char>
    decreases n,
{
    if n < 16 {
        seq![hex_upper_char(n as int)]
    } else {
        hex_upper(n / 16) + seq![hex_upper_char((n % 16) as int)]
    }
}

/// `n` in uppercase hexadecimal, left-padded with zeros to at least `width` digits.
pub open spec fn hex_padded(n: nat, width: int) -> Seq<char> {
    let digits = hex_upper(n);
    Seq::new(if width > digits.len() { (width - digits.len()) as nat } else { 0 }, |i: int| '0')
        + digits
}

fn hex_upper_digit(d: u16) -> (r: &'static str)
    requires
        d < 16,
    ensures
        r@ == seq![hex_upper_char(d as int)],
{
    if d < 10 {
        let r = hex_digit(d as u8);
        r
    } else if d == 10 {
        proof {
            reveal_strlit("A");
        }
        "A"
    } else if d == 11 {
        proof {
            reveal_strlit("B");
        }
        "B"
    } else if d == 12 {
        proof {
            reveal_strlit("C");
        }
        "C"
    } else if d == 13 {
        proof {
            reveal_strlit("D");
        }
        "D"
    } else if d == 14 {
        proof {
            reveal_strlit("E");
        }
        "E"
    } else {
        proof {
            reveal_strlit("F");
        }
        "F"
    }
}

fn push_hex_digits(out: &mut String, n: u16)
    ensures
        final(out)@ == old(out)@ + hex_upper(n as nat),
    decreases n,
{
    if n >= 16 {
        push_hex_digits(out, n / 16);
    }
    out.append(hex_upper_digit(n % 16));
    assert(final(out)@ =~= old(out)@ + hex_upper(n as nat));
}

proof fn lemma_hex_len(n: nat)
    ensures
        1 <= hex_upper(n).len() <= 4 || n >= 0x10000,
        n < 16 ==> hex_upper(n).len() == 1,
        16 <= n < 0x100 ==> hex_upper(n).len() == 2,
        0x100 <= n < 0x1000 ==> hex_upper(n).len() == 3,
        0x1000 <= n < 0x10000 ==> hex_upper(n).len() == 4,
    decreases n,
{
    if n >= 16 {
        lemma_hex_len(n / 16);
    }
}

/// Appends `n` as uppercase hexadecimal of at least `width` digits.
pub fn push_hex_upper(out: &mut String, n: u16, width: usize)
    requires
        width <= 4,
    ensures
        final(out)@ == old(out)@ + hex_padded(n as nat, width as int),
{
    proof {
        lemma_hex_len(n as nat);
    }
    let digits: usize = if n < 0x10 {
        1
    } else if n < 0x100 {
        2
    } else if n < 0x1000 {
        3
    } else {
        4
    };
    let ghost start = out@;
    let mut k: usize = digits;
    while k < width
        invariant
            digits <= k,
            k == digits || k <= width,
            k <= 4,
            width <= 4,
            digits == hex_upper(n as nat).len(),
            out@ == start + Seq::new((k - digits) as nat, |i: int| '0'),
        decreases width - k,
    {
        proof {
            reveal_strlit("0");
        }
        out.append("0");
        k = k + 1;
        assert(out@ =~= start + Seq::new((k - digits) as nat, |i: int| '0'));
    }
    push_hex_digits(out, n);
    assert(k - digits == if width > digits { width - digits } else { 0 });
    assert(out@ =~= start + hex_padded(n as nat, width as int));
}

/// `n` in lowercase hexadecimal, without leading zeros.
pub open spec fn hex_lower(n: nat) -> Seq<char>
    decreases n,
{
    if n < 16 {
        seq![hex_char(n as int)]
    } else {
        hex_lower(n / 16) + seq![hex_char((n % 16) as int)]
    }
}

/// Appends `n` in lowercase hexadecimal, without leading zeros.
pub fn push_hex_lower(out: &mut String, n: u16)
    ensures
        final(out)@ == old(out)@ + hex_lower(n as nat),
    decreases n,
{
    if n >= 16 {
        push_hex_lower(out, n / 16);
    }
    out.append(hex_digit((n % 16) as u8));
    assert(final(out)@ =~= old(out)@ + hex_lower(n as nat));
}

/// Appends `n` in uppercase hexadecimal, without leading zeros.
pub fn push_hex(out: &mut String, n: u16)
    ensures
        final(out)@ == old(out)@ + hex_upper(n as nat),
{
    push_hex_digits(out, n);
}

} // verus!
