use vstd::prelude::*;
use vstd::string::*;

verus! {

/// The lower-case hexadecimal digit for `n` (taken modulo 16).
pub open spec fn hex_digit(n: u8) -> char {
    let d = n % 16;
    if d < 10 {
        ((d + 48) as u8) as char
    } else {
        ((d + 87) as u8) as char
    }
}

/// Two lower-case hexadecimal digits for a byte, most significant first.
pub open spec fn hex_pair(b: u8) -> Seq<char> {
    seq![hex_digit(b / 16), hex_digit(b % 16)]
}

/// `n` spaces.
pub open spec fn spaces(n: nat) -> Seq<char>
    decreases n,
{
    if n == 0 {
        Seq::empty()
    } else {
        spaces((n - 1) as nat).push(' ')
    }
}

/// What precedes the `i`-th byte in the output: the indentation at the
/// start of a line, `":\n"` plus indentation when a new line starts, and
/// `":"` between bytes of the same line.
pub open spec fn separator_before(i: int, bytes_per_line: nat, indent: nat) -> Seq<char> {
    if i == 0 {
        spaces(indent)
    } else if i % (bytes_per_line as int) == 0 {
        seq![':', '\n'] + spaces(indent)
    } else {
        seq![':']
    }
}

/// The text for the first `k` bytes of `bytes`: every byte as two hex
/// digits, each preceded by its separator.
pub open spec fn hex_lines(bytes: Seq<u8>, bytes_per_line: nat, indent: nat, k: nat) -> Seq<char>
    decreases k,
{
    if k == 0 {
        Seq::empty()
    } else {
        hex_lines(bytes, bytes_per_line, indent, (k - 1) as nat)
            + separator_before(k - 1, bytes_per_line, indent)
            + hex_pair(bytes[k - 1])
    }
}

fn hex_digit_str(n: u8) -> (s: &'static str)
    requires
        n < 16,
    ensures
        s@ == seq![hex_digit(n)],
{
    proof {
        reveal_strlit("0"); reveal_strlit("1"); reveal_strlit("2"); reveal_strlit("3");
        reveal_strlit("4"); reveal_strlit("5"); reveal_strlit("6"); reveal_strlit("7");
        reveal_strlit("8"); reveal_strlit("9"); reveal_strlit("a"); reveal_strlit("b");
        reveal_strlit("c"); reveal_strlit("d"); reveal_strlit("e"); reveal_strlit("f");
    }
    match n {
        0 => "0",
        1 => "1",
        2 => "2",
        3 => "3",
        4 => "4",
        5 => "5",
        6 => "6",
        7 => "7",
        8 => "8",
        9 => "9",
        10 => "a",
        11 => "b",
        12 => "c",
        13 => "d",
        14 => "e",
        _ => "f",
    }
}

fn push_spaces(out: &mut String, n: usize)
    ensures
        final(out)@ == old(out)@ + spaces(n as nat),
{
    let mut i: usize = 0;
    while i < n
        invariant
            i <= n,
            out@ == old(out)@ + spaces(i as nat),
        decreases n - i,
    {
        proof {
            reveal_strlit(" ");
        }
        out.append(" ");
        i = i + 1;
        assert(spaces(i as nat) == spaces((i - 1) as nat).push(' '));
        assert(out@ =~= old(out)@ + spaces(i as nat));
    }
}

/// Formats `bytes` as colon-separated two-digit lower-case hex values,
/// `bytes_per_line` values to a line, each line indented by `indent`
/// spaces; lines are joined by `":\n"`.
pub fn format_hex_bytes(bytes_per_line: usize, indent: usize, bytes: &[u8]) -> (s: String)
    requires
        bytes_per_line > 0,
    ensures
        s@ == hex_lines(bytes@, bytes_per_line as nat, indent as nat, bytes@.len()),
{
    let mut out = String::new();
    let mut i: usize = 0;
    proof {
        reveal_strlit(":");
        reveal_strlit(":\n");
    }
    while i < bytes.len()
        invariant
            i <= bytes@.len(),
            bytes_per_line > 0,
            out@ == hex_lines(bytes@, bytes_per_line as nat, indent as nat, i as nat),
        decreases bytes@.len() - i,
    {
        let ghost before = out@;
        proof {
            reveal_strlit(":");
            reveal_strlit(":\n");
        }
        if i == 0 {
            push_spaces(&mut out, indent);
        } else if i % bytes_per_line == 0 {
            out.append(":\n");
            push_spaces(&mut out, indent);
        } else {
            out.append(":");
        }
        assert(out@ =~= before + separator_before(i as int, bytes_per_line as nat, indent as nat));
        let b = bytes[i];
        let hi = hex_digit_str(b / 16);
        let lo = hex_digit_str(b % 16);
        out.append(hi);
        out.append(lo);
        assert(out@ =~= before + separator_before(i as int, bytes_per_line as nat, indent as nat)
            + hex_pair(b)) by {
            assert((b / 16) % 16 == b / 16);
            assert((b % 16) % 16 == b % 16);
        }
        i = i + 1;
    }
    out
}

} // verus!
