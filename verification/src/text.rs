//! Text building blocks: JSON string escaping, decimal numbers, and text out of
//! fixed-size C buffers.

use vstd::prelude::*;
use vstd::string::StringExecFns;
use vstd::utf8::{decode_utf8, valid_utf8};

verus! {

/// `String::push`: the given character is appended.
pub assume_specification[ String::push ](s: &mut String, c: char)
    ensures
        final(s)@ == old(s)@.push(c),
;

/// Lower-case hexadecimal digit of a value below sixteen.
pub open spec fn hex_digit(d: int) -> char {
    if d < 10 {
        ('0' as int + d) as char
    } else {
        ('a' as int + d - 10) as char
    }
}

/// How one character stands inside a JSON string.
pub open spec fn escape_char(c: char) -> Seq<char> {
    if c == '"' {
        seq!['\\', '"']
    } else if c == '\\' {
        seq!['\\', '\\']
    } else if c == '\n' {
        seq!['\\', 'n']
    } else if c == '\r' {
        seq!['\\', 'r']
    } else if c == '\t' {
        seq!['\\', 't']
    } else if (c as int) < 0x20 {
        seq!['\\', 'u', '0', '0', hex_digit(c as int / 16), hex_digit(c as int % 16)]
    } else {
        seq![c]
    }
}

/// How a text stands inside a JSON string.
pub open spec fn escaped(s: Seq<char>) -> Seq<char>
    decreases s.len(),
{
    if s.len() == 0 {
        seq![]
    } else {
        escape_char(s[0]) + escaped(s.drop_first())
    }
}

/// A text or nothing as a JSON value.
pub open spec fn opt_json(s: Option<Seq<char>>) -> Seq<char> {
    match s {
        Some(v) => quoted(v),
        None => "null"@,
    }
}

/// A text as a JSON string.
pub open spec fn quoted(s: Seq<char>) -> Seq<char> {
    seq!['"'] + escaped(s) + seq!['"']
}

/// Decimal digits of a number, without leading zeros.
pub open spec fn decimal(n: nat) -> Seq<char>
    decreases n,
{
    if n < 10 {
        seq![('0' as int + n) as char]
    } else {
        decimal(n / 10).push(('0' as int + n % 10) as char)
    }
}

/// A whole number as it is written, with a minus sign where it is negative.
pub open spec fn number_text(n: int) -> Seq<char> {
    if n < 0 {
        seq!['-'] + decimal((-n) as nat)
    } else {
        decimal(n as nat)
    }
}

fn hex_char(d: u8) -> (c: char)
    requires
        d < 16,
    ensures
        c == hex_digit(d as int),
{
    if d < 10 {
        ('0' as u8 + d) as char
    } else {
        ('a' as u8 + (d - 10)) as char
    }
}

/// Appends a character as it stands inside a JSON string.
fn escape_char_into(dst: &mut String, c: char)
    ensures
        final(dst)@ == old(dst)@ + escape_char(c),
{
    let ghost before = dst@;
    if c == '"' || c == '\\' {
        dst.push('\\');
        dst.push(c);
    } else if c == '\n' {
        dst.push('\\');
        dst.push('n');
    } else if c == '\r' {
        dst.push('\\');
        dst.push('r');
    } else if c == '\t' {
        dst.push('\\');
        dst.push('t');
    } else {
        let code: u32 = c as u32;
        if code < 0x20 {
            dst.push('\\');
            dst.push('u');
            dst.push('0');
            dst.push('0');
            dst.push(hex_char((code / 16) as u8));
            dst.push(hex_char((code % 16) as u8));
        } else {
            dst.push(c);
        }
    }
    assert(dst@ =~= before + escape_char(c));
}

/// Appends a text as it stands inside a JSON string.
pub fn escape_json_into(dst: &mut String, s: &str)
    ensures
        final(dst)@ == old(dst)@ + escaped(s@),
{
    let ghost before = dst@;
    assert(s@.skip(0) =~= s@);
    for c in it: s.chars()
        invariant
            it.seq() == s@,
            before + escaped(s@) == dst@ + escaped(s@.skip(it.index() as int)),
    {
        let ghost i = it.index() as int;
        let ghost head = dst@;
        escape_char_into(dst, c);
        proof {
            assert(s@.skip(i)[0] == c);
            assert(s@.skip(i).drop_first() =~= s@.skip(i + 1));
            assert(dst@ + escaped(s@.skip(i + 1)) =~= head + (escape_char(c) + escaped(
                s@.skip(i + 1),
            )));
        }
    }
    assert(s@.skip(s@.len() as int) =~= seq![]);
    assert(dst@ + escaped(seq![]) =~= dst@);
}

/// Appends a text as a JSON string, or `null`.
pub fn opt_str(dst: &mut String, s: Option<&str>)
    ensures
        final(dst)@ == old(dst)@ + opt_json(
            match s {
                Some(v) => Some(v@),
                None => None,
            },
        ),
{
    let ghost before = dst@;
    match s {
        Some(v) => {
            dst.push('"');
            escape_json_into(dst, v);
            dst.push('"');
            assert(dst@ =~= before + quoted(v@));
        },
        None => {
            dst.append("null");
        },
    }
}

/// Appends the decimal digits of a number.
pub fn push_decimal(dst: &mut String, n: u64)
    ensures
        final(dst)@ == old(dst)@ + decimal(n as nat),
    decreases n,
{
    let ghost before = dst@;
    if n >= 10 {
        push_decimal(dst, n / 10);
    }
    dst.push(('0' as u8 + (n % 10) as u8) as char);
    assert(dst@ =~= before + decimal(n as nat));
}

/// Appends a whole number.
pub fn push_number(dst: &mut String, n: i64)
    ensures
        final(dst)@ == old(dst)@ + number_text(n as int),
{
    let ghost before = dst@;
    if n < 0 {
        dst.push('-');
        push_decimal(dst, (-(n + 1)) as u64 + 1);
        assert(dst@ =~= before + number_text(n as int));
    } else {
        push_decimal(dst, n as u64);
    }
}

/// Value of a hexadecimal digit.
pub open spec fn hex_value(c: char) -> Option<int> {
    if '0' <= c <= '9' {
        Some(c as int - '0' as int)
    } else if 'a' <= c <= 'f' {
        Some(c as int - 'a' as int + 10)
    } else if 'A' <= c <= 'F' {
        Some(c as int - 'A' as int + 10)
    } else {
        None
    }
}

/// What a JSON reader makes of the characters between the quotes of a string:
/// the text they stand for, or nothing where they are no JSON string. Escapes of
/// surrogates are taken as errors.
pub open spec fn unescaped(s: Seq<char>) -> Option<Seq<char>>
    decreases s.len(),
{
    if s.len() == 0 {
        Some(seq![])
    } else if s[0] == '"' || (s[0] as int) < 0x20 {
        None
    } else if s[0] != '\\' {
        match unescaped(s.skip(1)) {
            Some(rest) => Some(seq![s[0]] + rest),
            None => None,
        }
    } else if s.len() >= 2 && short_escape(s[1]) is Some {
        match unescaped(s.skip(2)) {
            Some(rest) => Some(seq![short_escape(s[1])->0] + rest),
            None => None,
        }
    } else if s.len() >= 6 && s[1] == 'u' && long_escape(s[2], s[3], s[4], s[5]) is Some {
        match unescaped(s.skip(6)) {
            Some(rest) => Some(seq![long_escape(s[2], s[3], s[4], s[5])->0] + rest),
            None => None,
        }
    } else {
        None
    }
}

/// The character that a backslash and one character stand for.
pub open spec fn short_escape(c: char) -> Option<char> {
    if c == '"' || c == '\\' || c == '/' {
        Some(c)
    } else if c == 'n' {
        Some('\n')
    } else if c == 'r' {
        Some('\r')
    } else if c == 't' {
        Some('\t')
    } else if c == 'b' {
        Some(8u8 as char)
    } else if c == 'f' {
        Some(12u8 as char)
    } else {
        None
    }
}

/// The character that four hexadecimal digits stand for.
pub open spec fn long_escape(a: char, b: char, c: char, d: char) -> Option<char> {
    match (hex_value(a), hex_value(b), hex_value(c), hex_value(d)) {
        (Some(a), Some(b), Some(c), Some(d)) => {
            let code = ((a * 16 + b) * 16 + c) * 16 + d;
            if 0xD800 <= code < 0xE000 {
                None
            } else {
                Some(code as char)
            }
        },
        _ => None,
    }
}

proof fn lemma_long_escape(c: char)
    requires
        (c as int) < 0x20,
    ensures
        long_escape('0', '0', hex_digit(c as int / 16), hex_digit(c as int % 16)) == Some(c),
{
    let code = c as int;
    assert(hex_value(hex_digit(code / 16)) == Some(code / 16));
    assert(hex_value(hex_digit(code % 16)) == Some(code % 16));
    assert(hex_value('0') == Some(0int));
}

/// A JSON reader gets every text back from its escaped form.
pub proof fn law_escape_reads_back(s: Seq<char>)
    ensures
        unescaped(escaped(s)) == Some(s),
    decreases s.len(),
{
    if s.len() > 0 {
        let rest = s.drop_first();
        law_escape_reads_back(rest);
        let e = escaped(s);
        let k = escape_char(s[0]).len() as int;
        assert(e.skip(k) =~= escaped(rest));
        assert(forall|i: int| 0 <= i < k ==> e[i] == #[trigger] escape_char(s[0])[i]);
        assert(e[0] == escape_char(s[0])[0]);
        if k == 2 {
            assert(e[1] == escape_char(s[0])[1]);
        }
        if k == 6 {
            lemma_long_escape(s[0]);
            assert(e[1] == escape_char(s[0])[1]);
            assert(e[2] == escape_char(s[0])[2]);
            assert(e[3] == escape_char(s[0])[3]);
            assert(e[4] == escape_char(s[0])[4]);
            assert(e[5] == escape_char(s[0])[5]);
        }
        assert(seq![s[0]] + rest =~= s);
    }
}

/// Escaping works piece by piece: the escaped form of two texts in a row is the
/// escaped forms in a row.
pub proof fn law_escape_concat(a: Seq<char>, b: Seq<char>)
    ensures
        escaped(a + b) == escaped(a) + escaped(b),
    decreases a.len(),
{
    if a.len() == 0 {
        assert(a + b =~= b);
        assert(escaped(a) + escaped(b) =~= escaped(b));
    } else {
        law_escape_concat(a.drop_first(), b);
        assert((a + b).drop_first() =~= a.drop_first() + b);
        assert(escape_char(a[0]) + (escaped(a.drop_first()) + escaped(b)) =~= (escape_char(a[0])
            + escaped(a.drop_first())) + escaped(b));
    }
}

/// How characters stand in a JSON string. Quote and backslash get a backslash in
/// front; line feed, carriage return and tab become a backslash and a letter; every
/// other character below the space becomes a backslash, `u`, two zeros and its code
/// in two lower-case hexadecimal digits; everything else stands as it is.
pub proof fn law_escape_forms(c: char)
    ensures
        c == '"' || c == '\\' ==> escaped(seq![c]) == seq!['\\', c],
        c == '\n' ==> escaped(seq![c]) == seq!['\\', 'n'],
        c == '\r' ==> escaped(seq![c]) == seq!['\\', 'r'],
        c == '\t' ==> escaped(seq![c]) == seq!['\\', 't'],
        c != '"' && c != '\\' && c as int >= 0x20 ==> escaped(seq![c]) == seq![c],
        (c as int) < 0x20 && c != '\n' && c != '\r' && c != '\t' ==> {
            let e = escaped(seq![c]);
            &&& e.len() == 6
            &&& e.take(4) == seq!['\\', 'u', '0', '0']
            &&& e[4] == (if c as int >= 16 { '1' } else { '0' })
            &&& c as int % 16 < 10 ==> '0' <= e[5] <= '9' && e[5] as int - '0' as int == c as int
                % 16
            &&& c as int % 16 >= 10 ==> 'a' <= e[5] <= 'f' && e[5] as int - 'a' as int + 10
                == c as int % 16
        },
{
    assert(seq![c].drop_first() =~= seq![]);
    assert(escaped(Seq::<char>::empty()) =~= Seq::<char>::empty());
    assert(escaped(seq![c]) =~= escape_char(c));
    if (c as int) < 0x20 && c != '\n' && c != '\r' && c != '\t' {
        assert(escape_char(c).take(4) =~= seq!['\\', 'u', '0', '0']);
    }
}

/// A text as a JSON value is its escaped form between quotes; no text is `null`.
pub proof fn law_optional_text(s: Seq<char>)
    ensures
        opt_json(Some(s)).len() == escaped(s).len() + 2,
        opt_json(Some(s))[0] == '"',
        opt_json(Some(s)).last() == '"',
        opt_json(Some(s)).subrange(1, opt_json(Some(s)).len() - 1) == escaped(s),
        opt_json(None) == seq!['n', 'u', 'l', 'l'],
{
    reveal_strlit("null");
    assert(opt_json(None) =~= seq!['n', 'u', 'l', 'l']);
    assert(opt_json(Some(s)).subrange(1, opt_json(Some(s)).len() - 1) =~= escaped(s));
}

/// Value of a row of decimal digits.
pub open spec fn decimal_value(s: Seq<char>) -> int
    decreases s.len(),
{
    if s.len() == 0 {
        0
    } else {
        10 * decimal_value(s.drop_last()) + (s.last() as int - '0' as int)
    }
}

/// The digits written for a number are digits only, start with no needless zero,
/// and read back as the number.
pub proof fn law_decimal_reads_back(n: nat)
    ensures
        decimal(n).len() > 0,
        forall|i: int| 0 <= i < decimal(n).len() ==> '0' <= #[trigger] decimal(n)[i] <= '9',
        n > 0 ==> decimal(n)[0] != '0',
        decimal_value(decimal(n)) == n,
    decreases n,
{
    if n < 10 {
        assert(decimal(n).drop_last() =~= seq![]);
        assert(decimal_value(seq![]) == 0);
    } else {
        law_decimal_reads_back(n / 10);
        assert(decimal(n).drop_last() =~= decimal(n / 10));
    }
}

/// A whole number is written with its digits, and below zero with one minus sign
/// in front of the digits of its size. So the text reads back as the number.
pub proof fn law_number_reads_back(n: int)
    ensures
        n >= 0 ==> '0' <= number_text(n)[0] <= '9' && decimal_value(number_text(n)) == n,
        n < 0 ==> number_text(n)[0] == '-' && decimal_value(number_text(n).drop_first()) == -n,
        n < 0 ==> number_text(n).drop_first() == number_text(-n),
{
    let size: nat = if n < 0 {
        (-n) as nat
    } else {
        n as nat
    };
    law_decimal_reads_back(size);
    if n < 0 {
        assert(number_text(n).drop_first() =~= decimal(size));
    }
}

/// A number below ten is one digit, and the digits of ten times a number and one
/// digit more are those of the number with that digit behind.
pub proof fn law_decimal_grows(n: nat, d: int)
    requires
        0 <= d < 10,
    ensures
        n > 0 ==> decimal((10 * n + d) as nat) == decimal(n).push(('0' as int + d) as char),
        decimal(d as nat) == seq![('0' as int + d) as char],
{
}

/// The bytes before the first zero byte, or all of them where there is none.
pub open spec fn before_nul(buf: Seq<u8>) -> Seq<u8>
    decreases buf.len(),
{
    if buf.len() == 0 || buf[0] == 0 {
        seq![]
    } else {
        seq![buf[0]] + before_nul(buf.drop_first())
    }
}

/// Text that `String::from_utf8_lossy` reads out of bytes.
pub uninterp spec fn lossy_text(bytes: Seq<u8>) -> Seq<char>;

/// `String::from_utf8_lossy`: well-formed UTF-8 is decoded as it stands. What a
/// malformed sequence is replaced with is left to the name.
#[verifier::external_body]
fn utf8_lossy(bytes: &[u8]) -> (s: String)
    ensures
        s@ == lossy_text(bytes@),
        valid_utf8(bytes@) ==> s@ == decode_utf8(bytes@),
{
    String::from_utf8_lossy(bytes).into_owned()
}

/// Text of a C string in a fixed-size buffer.
pub fn cstr(buf: &[u8]) -> (s: String)
    ensures
        s@ == lossy_text(before_nul(buf@)),
        valid_utf8(before_nul(buf@)) ==> s@ == decode_utf8(before_nul(buf@)),
{
    let mut bytes: Vec<u8> = Vec::new();
    let mut i: usize = 0;
    assert(buf@.skip(0) =~= buf@);
    assert(seq![] + before_nul(buf@) =~= before_nul(buf@));
    while i < buf.len() && buf[i] != 0
        invariant
            i <= buf@.len(),
            bytes@ + before_nul(buf@.skip(i as int)) == before_nul(buf@),
        decreases buf@.len() - i,
    {
        let ghost head = bytes@;
        bytes.push(buf[i]);
        proof {
            let rest = buf@.skip(i as int);
            assert(rest.drop_first() =~= buf@.skip(i + 1));
            assert(bytes@ + before_nul(buf@.skip(i + 1)) =~= head + (seq![rest[0]] + before_nul(
                buf@.skip(i + 1),
            )));
        }
        i += 1;
    }
    assert(bytes@ + seq![] =~= bytes@);
    utf8_lossy(bytes.as_slice())
}

/// The text of a C buffer ends before its first zero byte: the bytes up to the
/// first zero, or all of them where there is none.
pub proof fn law_before_nul(buf: Seq<u8>, k: int)
    requires
        0 <= k <= buf.len(),
        k < buf.len() ==> buf[k] == 0,
        forall|i: int| 0 <= i < k ==> #[trigger] buf[i] != 0,
    ensures
        before_nul(buf) == buf.take(k),
    decreases buf.len(),
{
    if k > 0 {
        let rest = buf.drop_first();
        assert forall|i: int| 0 <= i < k - 1 implies #[trigger] rest[i] != 0 by {
            assert(buf[i + 1] != 0);
        }
        law_before_nul(rest, k - 1);
        assert(seq![buf[0]] + rest.take(k - 1) =~= buf.take(k));
    } else {
        assert(before_nul(buf) =~= buf.take(0));
    }
}

/// A C buffer whose first zero is at `k`, or that has none and ends at `k`, gives the
/// text of its first `k` bytes, letter for letter where these are UTF-8.
pub proof fn law_c_text(buf: &[u8], k: int, s: String)
    requires
        0 <= k <= buf@.len(),
        k < buf@.len() ==> buf@[k] == 0,
        forall|i: int| 0 <= i < k ==> #[trigger] buf@[i] != 0,
        call_ensures(cstr, (buf,), s),
    ensures
        s@ == lossy_text(buf@.take(k)),
        valid_utf8(buf@.take(k)) ==> s@ == decode_utf8(buf@.take(k)),
{
    law_before_nul(buf@, k);
}

/// Everything is written behind what stands there already: a text escaped, a text as a
/// JSON value or `null`, and numbers in decimal.
pub proof fn law_text_is_appended(s: &str, n: u64, z: i64)
    ensures
        forall|dst: &mut String| #[trigger]
            call_ensures(escape_json_into, (dst, s), ()) ==> final(dst)@ == dst@ + escaped(s@),
        forall|dst: &mut String| #[trigger]
            call_ensures(opt_str, (dst, Some(s)), ()) ==> final(dst)@ == dst@ + (seq!['"']
                + escaped(s@) + seq!['"']),
        forall|dst: &mut String| #[trigger]
            call_ensures(opt_str, (dst, None), ()) ==> final(dst)@ == dst@ + seq![
                'n',
                'u',
                'l',
                'l',
            ],
        forall|dst: &mut String| #[trigger]
            call_ensures(push_decimal, (dst, n), ()) ==> final(dst)@ == dst@ + decimal(n as nat),
        forall|dst: &mut String| #[trigger]
            call_ensures(push_number, (dst, z), ()) ==> final(dst)@ == dst@ + number_text(
                z as int,
            ),
{
    law_optional_text(s@);
}

} // verus!
