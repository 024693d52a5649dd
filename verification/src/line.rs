//! The text of a trace line: `<location>,<hash>,<timestamp>,<size>`.
//!
//! The hash is always sixteen lowercase hexadecimal digits, the size is a
//! plain decimal number, and the fields come in this order.

use vstd::prelude::*;
use vstd::string::*;

verus! {

/// The sixteen lowercase hexadecimal digits, in order of value.
pub open spec fn lower_hex_digits() -> Seq<char> {
    seq!['0', '1', '2', '3', '4', '5', '6', '7', '8', '9', 'a', 'b', 'c', 'd', 'e', 'f']
}

/// Whether `c` is one of `0-9a-f`.
pub open spec fn is_lower_hex(c: char) -> bool {
    ('0' <= c && c <= '9') || ('a' <= c && c <= 'f')
}

/// The `i`-th group of four bits of `h`, counted from the most significant.
pub open spec fn nibble(h: u64, i: int) -> u64 {
    (h >> ((60 - 4 * i) as u64)) & 0xf
}

/// `h` as sixteen lowercase hexadecimal digits, most significant first, with
/// leading zeros kept.
pub open spec fn hex16(h: u64) -> Seq<char> {
    Seq::new(16, |i: int| lower_hex_digits()[nibble(h, i) as int])
}

/// The hash field is sixteen characters long, each of them one of `0-9a-f`,
/// whatever the hash.
pub proof fn lemma_hex16_shape(h: u64)
    ensures
        hex16(h).len() == 16,
        forall|i: int| 0 <= i < 16 ==> is_lower_hex(#[trigger] hex16(h)[i]),
{
    assert forall|i: int| 0 <= i < 16 implies is_lower_hex(#[trigger] hex16(h)[i]) by {
        let shift = (60 - 4 * i) as u64;
        assert((h >> shift) & 0xf < 16) by (bit_vector);
    }
}

/// Two hashes read the same in the hash field only where they are the same
/// hash.
pub proof fn lemma_hex16_distinguishes(a: u64, b: u64)
    requires
        hex16(a) == hex16(b),
    ensures
        a == b,
{
    assert forall|i: int| 0 <= i < 16 implies nibble(a, i) == nibble(b, i) by {
        let shift = (60 - 4 * i) as u64;
        let x = (a >> shift) & 0xf;
        let y = (b >> shift) & 0xf;
        assert(x < 16) by (bit_vector)
            requires
                x == (a >> shift) & 0xf,
        ;
        assert(y < 16) by (bit_vector)
            requires
                y == (b >> shift) & 0xf,
        ;
        assert(hex16(a)[i] == lower_hex_digits()[x as int]);
        assert(hex16(b)[i] == lower_hex_digits()[y as int]);
    }
    assert(nibble(a, 0) == nibble(b, 0));
    assert(nibble(a, 1) == nibble(b, 1));
    assert(nibble(a, 2) == nibble(b, 2));
    assert(nibble(a, 3) == nibble(b, 3));
    assert(nibble(a, 4) == nibble(b, 4));
    assert(nibble(a, 5) == nibble(b, 5));
    assert(nibble(a, 6) == nibble(b, 6));
    assert(nibble(a, 7) == nibble(b, 7));
    assert(nibble(a, 8) == nibble(b, 8));
    assert(nibble(a, 9) == nibble(b, 9));
    assert(nibble(a, 10) == nibble(b, 10));
    assert(nibble(a, 11) == nibble(b, 11));
    assert(nibble(a, 12) == nibble(b, 12));
    assert(nibble(a, 13) == nibble(b, 13));
    assert(nibble(a, 14) == nibble(b, 14));
    assert(nibble(a, 15) == nibble(b, 15));
    assert(a == b) by (bit_vector)
        requires
            (a >> 60) & 0xf == (b >> 60) & 0xf,
            (a >> 56) & 0xf == (b >> 56) & 0xf,
            (a >> 52) & 0xf == (b >> 52) & 0xf,
            (a >> 48) & 0xf == (b >> 48) & 0xf,
            (a >> 44) & 0xf == (b >> 44) & 0xf,
            (a >> 40) & 0xf == (b >> 40) & 0xf,
            (a >> 36) & 0xf == (b >> 36) & 0xf,
            (a >> 32) & 0xf == (b >> 32) & 0xf,
            (a >> 28) & 0xf == (b >> 28) & 0xf,
            (a >> 24) & 0xf == (b >> 24) & 0xf,
            (a >> 20) & 0xf == (b >> 20) & 0xf,
            (a >> 16) & 0xf == (b >> 16) & 0xf,
            (a >> 12) & 0xf == (b >> 12) & 0xf,
            (a >> 8) & 0xf == (b >> 8) & 0xf,
            (a >> 4) & 0xf == (b >> 4) & 0xf,
            (a >> 0) & 0xf == (b >> 0) & 0xf,
    ;
}

/// The one-character text of the hexadecimal digit `d`.
fn hex_digit_text(d: u64) -> (text: &'static str)
    requires
        d < 16,
    ensures
        text@ == seq![lower_hex_digits()[d as int]],
{
    proof {
        reveal_strlit("0");
        reveal_strlit("1");
        reveal_strlit("2");
        reveal_strlit("3");
        reveal_strlit("4");
        reveal_strlit("5");
        reveal_strlit("6");
        reveal_strlit("7");
        reveal_strlit("8");
        reveal_strlit("9");
        reveal_strlit("a");
        reveal_strlit("b");
        reveal_strlit("c");
        reveal_strlit("d");
        reveal_strlit("e");
        reveal_strlit("f");
    }
    let text = match d {
        0 => "0",
        1 => "1",
        2 => "2",
        3 => "3",
        4 => "4",
        5 => "5",
        6 => "6",
        7 => "7",
        8 => "8",
        9 => "9",
        10 => "a",
        11 => "b",
        12 => "c",
        13 => "d",
        14 => "e",
        _ => "f",
    };
    assert(text@ =~= seq![lower_hex_digits()[d as int]]);
    text
}

/// Appends the sixteen hexadecimal digits of `h` to `out`.
fn push_hex16(out: &mut String, h: u64)
    ensures
        final(out)@ == old(out)@ + hex16(h),
{
    let mut i: u64 = 0;
    while i < 16
        invariant
            i <= 16,
            out@ == old(out)@ + hex16(h).take(i as int),
        decreases 16 - i,
    {
        let shift: u64 = 60 - 4 * i;
        let d: u64 = (h >> shift) & 0xf;
        assert(d < 16) by (bit_vector)
            requires
                d == (h >> shift) & 0xf,
        ;
        out.append(hex_digit_text(d));
        proof {
            assert(d == nibble(h, i as int));
            assert(hex16(h).take(i + 1) =~= hex16(h).take(i as int).push(hex16(h)[i as int]));
            assert(out@ =~= old(out)@ + hex16(h).take(i + 1));
        }
        i += 1;
    }
    assert(hex16(h).take(16) =~= hex16(h));
}

/// The ten decimal digits, in order of value.
pub open spec fn decimal_digits() -> Seq<char> {
    seq!['0', '1', '2', '3', '4', '5', '6', '7', '8', '9']
}

/// Whether `c` is one of `0-9`.
pub open spec fn is_digit(c: char) -> bool {
    '0' <= c && c <= '9'
}

/// `n` in decimal, without sign, padding or leading zeros.
pub open spec fn decimal(n: nat) -> Seq<char>
    decreases n,
{
    if n < 10 {
        seq![decimal_digits()[n as int]]
    } else {
        decimal(n / 10).push(decimal_digits()[(n % 10) as int])
    }
}

/// The size field is never empty, holds decimal digits only, and starts with
/// a zero only where the size is zero.
pub proof fn lemma_decimal_shape(n: nat)
    ensures
        decimal(n).len() >= 1,
        forall|i: int| 0 <= i < decimal(n).len() ==> is_digit(#[trigger] decimal(n)[i]),
        decimal(n)[0] == '0' <==> n == 0,
    decreases n,
{
    if n >= 10 {
        lemma_decimal_shape(n / 10);
    }
}

/// Two sizes read the same in the size field only where they are the same
/// size.
pub proof fn lemma_decimal_distinguishes(a: nat, b: nat)
    requires
        decimal(a) == decimal(b),
    ensures
        a == b,
    decreases a,
{
    if a < 10 && b < 10 {
        assert(decimal(a)[0] == decimal_digits()[a as int]);
        assert(decimal(b)[0] == decimal_digits()[b as int]);
    } else if a >= 10 && b >= 10 {
        assert(decimal(a).drop_last() =~= decimal(a / 10));
        assert(decimal(b).drop_last() =~= decimal(b / 10));
        lemma_decimal_distinguishes(a / 10, b / 10);
        assert(decimal(a).last() == decimal_digits()[(a % 10) as int]);
        assert(decimal(b).last() == decimal_digits()[(b % 10) as int]);
    } else if a >= 10 {
        lemma_decimal_shape(a / 10);
    } else {
        lemma_decimal_shape(b / 10);
    }
}

/// The one-character text of the decimal digit `d`.
fn decimal_digit_text(d: usize) -> (text: &'static str)
    requires
        d < 10,
    ensures
        text@ == seq![decimal_digits()[d as int]],
{
    let text = hex_digit_text(d as u64);
    assert(lower_hex_digits()[d as int] == decimal_digits()[d as int]);
    text
}

/// Appends `n` in decimal to `out`.
fn push_decimal(out: &mut String, n: usize)
    ensures
        final(out)@ == old(out)@ + decimal(n as nat),
    decreases n,
{
    if n >= 10 {
        push_decimal(out, n / 10);
    }
    out.append(decimal_digit_text(n % 10));
    assert(out@ =~= old(out)@ + decimal(n as nat));
}

/// The trace line for a call site: the location tag, the payload's hash, the
/// timestamp and the payload's size in bytes, separated by commas. The line
/// carries no terminator.
pub open spec fn trace_line(location: Seq<char>, hash: u64, stamp: Seq<char>, size: nat) -> Seq<
    char,
> {
    location + seq![','] + hex16(hash) + seq![','] + stamp + seq![','] + decimal(size)
}

/// The hash field of a line that starts with `location`: the sixteen
/// characters behind the first separator.
pub open spec fn hash_field(line: Seq<char>, location: Seq<char>) -> Seq<char> {
    line.subrange(location.len() as int + 1, location.len() as int + 17)
}

/// The timestamp field of a line that starts with `location` and ends with
/// the size `size`: what stands between the second separator and the last.
pub open spec fn stamp_field(line: Seq<char>, location: Seq<char>, size: nat) -> Seq<char> {
    line.subrange(location.len() as int + 18, line.len() - decimal(size).len() - 1)
}

/// The fields of a trace line stand in a fixed order, one comma between
/// neighbours, and each can be read back from its place.
pub proof fn lemma_line_layout(location: Seq<char>, hash: u64, stamp: Seq<char>, size: nat)
    ensures
        ({
            let line = trace_line(location, hash, stamp, size);
            let l = location.len() as int;
            let s = stamp.len() as int;
            &&& line.len() == l + 19 + s + decimal(size).len()
            &&& line.take(l) == location
            &&& line[l] == ','
            &&& hash_field(line, location) == hex16(hash)
            &&& line[l + 17] == ','
            &&& stamp_field(line, location, size) == stamp
            &&& line[l + 18 + s] == ','
            &&& line.skip(l + 19 + s) == decimal(size)
        }),
{
    let line = trace_line(location, hash, stamp, size);
    let l = location.len() as int;
    let s = stamp.len() as int;
    assert(line.take(l) =~= location);
    assert(hash_field(line, location) =~= hex16(hash));
    assert(stamp_field(line, location, size) =~= stamp);
    assert(line.skip(l + 19 + s) =~= decimal(size));
}

/// A line can be read back: two lines for one location are the same only
/// where hash, timestamp and size are the same, as long as no comma stands
/// in either timestamp.
pub proof fn lemma_line_distinguishes(
    location: Seq<char>,
    hash1: u64,
    stamp1: Seq<char>,
    size1: nat,
    hash2: u64,
    stamp2: Seq<char>,
    size2: nat,
)
    requires
        trace_line(location, hash1, stamp1, size1) == trace_line(location, hash2, stamp2, size2),
        forall|i: int| 0 <= i < stamp1.len() ==> stamp1[i] != ',',
        forall|i: int| 0 <= i < stamp2.len() ==> stamp2[i] != ',',
    ensures
        hash1 == hash2,
        stamp1 == stamp2,
        size1 == size2,
{
    let line = trace_line(location, hash1, stamp1, size1);
    let l = location.len() as int;
    lemma_line_layout(location, hash1, stamp1, size1);
    lemma_line_layout(location, hash2, stamp2, size2);
    lemma_hex16_distinguishes(hash1, hash2);
    // The first comma behind the hash ends the timestamp, in both readings.
    if stamp1.len() < stamp2.len() {
        assert(line[l + 18 + stamp1.len()] == stamp2[stamp1.len() as int]);
    }
    if stamp2.len() < stamp1.len() {
        assert(line[l + 18 + stamp2.len()] == stamp1[stamp2.len() as int]);
    }
    lemma_decimal_distinguishes(size1, size2);
}

/// Builds the trace line from its four fields.
pub fn format_line(location: &str, hash: u64, stamp: &str, size: usize) -> (line: String)
    ensures
        line@ == trace_line(location@, hash, stamp@, size as nat),
{
    proof {
        reveal_strlit(",");
    }
    let mut line = String::from_str(location);
    line.append(",");
    push_hex16(&mut line, hash);
    line.append(",");
    line.append(stamp);
    line.append(",");
    push_decimal(&mut line, size);
    assert(","@ =~= seq![',']);
    line
}

} // verus!
