//! Character-sequence models and the verified text builders used by the renderer.
use vstd::prelude::*;

verus! {

/// The lowercase hexadecimal digit or decimal digit for `d < 16`.
pub open spec fn digit_char(d: nat) -> char {
    if d == 0 { '0' }
    else if d == 1 { '1' }
    else if d == 2 { '2' }
    else if d == 3 { '3' }
    else if d == 4 { '4' }
    else if d == 5 { '5' }
    else if d == 6 { '6' }
    else if d == 7 { '7' }
    else if d == 8 { '8' }
    else if d == 9 { '9' }
    else if d == 10 { 'a' }
    else if d == 11 { 'b' }
    else if d == 12 { 'c' }
    else if d == 13 { 'd' }
    else if d == 14 { 'e' }
    else { 'f' }
}

/// The digits of `n` in base `b` (2 to 16), most significant first, without leading zeros.
pub open spec fn digits(n: nat, b: nat) -> Seq<char>
    decreases n via digits_decreases
{
    if b < 2 || n < b {
        seq![digit_char(n)]
    } else {
        digits(n / b, b).push(digit_char(n % b))
    }
}

#[via_fn]
proof fn digits_decreases(n: nat, b: nat) {
    if !(b < 2 || n < b) {
        assert(n / b < n) by (nonlinear_arith)
            requires
                b >= 2,
                n >= b,
        ;
    }
}

/// Decimal text of a natural number.
pub open spec fn dec_nat(n: nat) -> Seq<char> {
    digits(n, 10)
}

/// Decimal text of an integer, with a leading `-` when negative.
pub open spec fn dec_int(i: int) -> Seq<char> {
    if i < 0 {
        seq!['-'] + dec_nat((-i) as nat)
    } else {
        dec_nat(i as nat)
    }
}

/// Lowercase hexadecimal text of a natural number, without prefix or leading zeros.
pub open spec fn hex_nat(n: nat) -> Seq<char> {
    digits(n, 16)
}

fn digit_str(d: u64) -> (r: &'static str)
    requires
        d < 16,
    ensures
        r@ == seq![digit_char(d as nat)],
{
    proof {
        reveal_strlit("0");
        reveal_strlit("1");
        reveal_strlit("2");
        reveal_strlit("3");
        reveal_strlit("4");
        reveal_strlit("5");
        reveal_strlit("6");
        reveal_strlit("7");
        reveal_strlit("8");
        reveal_strlit("9");
        reveal_strlit("a");
        reveal_strlit("b");
        reveal_strlit("c");
        reveal_strlit("d");
        reveal_strlit("e");
        reveal_strlit("f");
    }
    let r = match d {
        0 => "0",
        1 => "1",
        2 => "2",
        3 => "3",
        4 => "4",
        5 => "5",
        6 => "6",
        7 => "7",
        8 => "8",
        9 => "9",
        10 => "a",
        11 => "b",
        12 => "c",
        13 => "d",
        14 => "e",
        _ => "f",
    };
    assert(r@ =~= seq![digit_char(d as nat)]);
    r
}

/// Appends the digits of `n` in base `b`.
pub fn append_digits(out: &mut String, n: u64, b: u64)
    requires
        2 <= b <= 16,
    ensures
        final(out)@ == old(out)@ + digits(n as nat, b as nat),
    decreases n,
{
    if n >= b {
        assert(n / b < n) by (nonlinear_arith)
            requires
                b >= 2,
                n >= b,
        ;
        append_digits(out, n / b, b);
    }
    let d = digit_str(n % b);
    out.append(d);
    proof {
        if n < b {
            assert(n % b == n) by (nonlinear_arith)
                requires
                    n < b,
            ;
        }
    }
    assert(out@ =~= old(out)@ + digits(n as nat, b as nat));
}

/// Appends the decimal text of `n`.
pub fn append_unsigned(out: &mut String, n: u64)
    ensures
        final(out)@ == old(out)@ + dec_nat(n as nat),
{
    append_digits(out, n, 10);
}

/// Appends the lowercase hexadecimal text of `n`.
pub fn append_hex(out: &mut String, n: u64)
    ensures
        final(out)@ == old(out)@ + hex_nat(n as nat),
{
    append_digits(out, n, 16);
}

/// Appends the decimal text of `i`, with a leading `-` when negative.
pub fn append_signed(out: &mut String, i: i64)
    ensures
        final(out)@ == old(out)@ + dec_int(i as int),
{
    if i < 0 {
        proof {
            reveal_strlit("-");
        }
        out.append("-");
        let m: u64 = (0 - (i as i128)) as u64;
        append_digits(out, m, 10);
        assert(out@ =~= old(out)@ + dec_int(i as int));
    } else {
        append_digits(out, i as u64, 10);
    }
}

/// `n` spaces.
pub open spec fn spaces(n: nat) -> Seq<char> {
    Seq::new(n, |i: int| ' ')
}

/// `s` followed by spaces up to width `w` (left-aligned in a column of width `w`).
pub open spec fn pad_right(s: Seq<char>, w: nat) -> Seq<char> {
    if s.len() < w {
        s + spaces((w - s.len()) as nat)
    } else {
        s
    }
}

/// Spaces up to width `w` followed by `s` (right-aligned in a column of width `w`).
pub open spec fn pad_left(s: Seq<char>, w: nat) -> Seq<char> {
    if s.len() < w {
        spaces((w - s.len()) as nat) + s
    } else {
        s
    }
}

/// Appends `n` spaces.
pub fn append_spaces(out: &mut String, n: usize)
    ensures
        final(out)@ == old(out)@ + spaces(n as nat),
{
    let mut k: usize = 0;
    while k < n
        invariant
            k <= n,
            out@ == old(out)@ + spaces(k as nat),
        decreases n - k,
    {
        proof {
            reveal_strlit(" ");
        }
        assert(" "@ =~= seq![' ']);
        assert(spaces((k + 1) as nat) =~= spaces(k as nat) + seq![' ']);
        out.append(" ");
        k = k + 1;
    }
}

/// Appends `s` left-aligned in a column of width `w`.
pub fn append_padded_right(out: &mut String, s: &str, w: usize)
    ensures
        final(out)@ == old(out)@ + pad_right(s@, w as nat),
{
    let n = s.unicode_len();
    out.append(s);
    if n < w {
        append_spaces(out, w - n);
    }
    assert(out@ =~= old(out)@ + pad_right(s@, w as nat));
}

/// Appends `s` right-aligned in a column of width `w`.
pub fn append_padded_left(out: &mut String, s: &str, w: usize)
    ensures
        final(out)@ == old(out)@ + pad_left(s@, w as nat),
{
    let n = s.unicode_len();
    if n < w {
        append_spaces(out, w - n);
    }
    out.append(s);
    assert(out@ =~= old(out)@ + pad_left(s@, w as nat));
}

/// `c` equals the lowercase ASCII letter or other character `k` up to ASCII case.
pub open spec fn char_folds_to(c: char, k: char) -> bool {
    c as u32 == k as u32 || (97 <= k as u32 <= 122 && c as u32 + 32 == k as u32)
}

/// `name` spells `key` (a lowercase ASCII word) up to ASCII case.
pub open spec fn folds_to(name: Seq<char>, key: Seq<char>) -> bool {
    &&& name.len() == key.len()
    &&& forall|i: int| 0 <= i < name.len() ==> char_folds_to(#[trigger] name[i], key[i])
}

/// Whether `name` spells `key` up to ASCII case.
pub fn folds_eq(name: &str, key: &str) -> (r: bool)
    ensures
        r == folds_to(name@, key@),
{
    let n = name.unicode_len();
    if n != key.unicode_len() {
        return false;
    }
    let mut i: usize = 0;
    while i < n
        invariant
            n == name@.len() == key@.len(),
            i <= n,
            forall|j: int| 0 <= j < i ==> char_folds_to(#[trigger] name@[j], key@[j]),
        decreases n - i,
    {
        let c = name.get_char(i) as u32;
        let k = key.get_char(i) as u32;
        if !(c == k || (97 <= k && k <= 122 && c + 32 == k)) {
            assert(!char_folds_to(name@[i as int], key@[i as int]));
            return false;
        }
        i = i + 1;
    }
    true
}

/// The parts joined with `sep` between each two of them.
pub open spec fn join(parts: Seq<Seq<char>>, sep: Seq<char>) -> Seq<char>
    decreases parts.len(),
{
    if parts.len() == 0 {
        Seq::empty()
    } else if parts.len() == 1 {
        parts[0]
    } else {
        join(parts.drop_last(), sep) + sep + parts.last()
    }
}

/// The parts one after another.
pub open spec fn concat(parts: Seq<Seq<char>>) -> Seq<char>
    decreases parts.len(),
{
    if parts.len() == 0 {
        Seq::empty()
    } else {
        concat(parts.drop_last()) + parts.last()
    }
}

/// One more part on a join.
pub proof fn lemma_join_step(parts: Seq<Seq<char>>, sep: Seq<char>, i: int)
    requires
        0 <= i < parts.len(),
    ensures
        join(parts.take(i + 1), sep) == if i == 0 {
            parts[0]
        } else {
            join(parts.take(i), sep) + sep + parts[i]
        },
{
    assert(parts.take(i + 1).drop_last() =~= parts.take(i));
}

/// One more part on a concatenation.
pub proof fn lemma_concat_step(parts: Seq<Seq<char>>, i: int)
    requires
        0 <= i < parts.len(),
    ensures
        concat(parts.take(i + 1)) == concat(parts.take(i)) + parts[i],
{
    assert(parts.take(i + 1).drop_last() =~= parts.take(i));
}

/// A CSV field must be quoted when it holds a comma, a double quote or a newline.
pub open spec fn needs_quoting(s: Seq<char>) -> bool {
    s.contains(',') || s.contains('"') || s.contains('\n')
}

/// `s` with every double quote doubled.
pub open spec fn doubled_quotes(s: Seq<char>) -> Seq<char>
    decreases s.len(),
{
    if s.len() == 0 {
        Seq::empty()
    } else {
        doubled_quotes(s.drop_last()) + if s.last() == '"' {
            seq!['"', '"']
        } else {
            seq![s.last()]
        }
    }
}

/// The CSV form of a text field: quoted, with inner quotes doubled, when it needs quoting;
/// otherwise unchanged.
pub open spec fn csv_field(s: Seq<char>) -> Seq<char> {
    if needs_quoting(s) {
        seq!['"'] + doubled_quotes(s) + seq!['"']
    } else {
        s
    }
}

/// Title shortened to at most `max` characters. A longer title keeps its first `max - 3`
/// characters followed by `...`; below a limit of 3 there is no room for the marker, and
/// the title keeps its first `max` characters.
pub open spec fn truncated(t: Seq<char>, max: Option<usize>) -> Seq<char> {
    match max {
        None => t,
        Some(m) => if t.len() <= m {
            t
        } else if m >= 3 {
            t.take(m - 3) + seq!['.', '.', '.']
        } else {
            t.take(m as int)
        },
    }
}

/// Whether `pat` occurs in `s` at character position `i`.
pub fn occurs_at(s: &str, pat: &str, i: usize, n: usize, p: usize) -> (r: bool)
    requires
        n == s@.len(),
        p == pat@.len(),
        i <= n,
    ensures
        r == (p <= n - i && s@.skip(i as int).take(p as int) == pat@),
{
    if p > n - i {
        return false;
    }
    let mut j: usize = 0;
    while j < p
        invariant
            n == s@.len(),
            p == pat@.len(),
            i + p <= n,
            j <= p,
            forall|k: int| 0 <= k < j ==> s@[i + k] == #[trigger] pat@[k],
        decreases p - j,
    {
        if s.get_char(i + j) != pat.get_char(j) {
            assert(s@.skip(i as int).take(p as int)[j as int] != pat@[j as int]);
            return false;
        }
        j = j + 1;
    }
    assert(s@.skip(i as int).take(p as int) =~= pat@);
    true
}

} // verus!
