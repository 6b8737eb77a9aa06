//! Properties of the renderer, proved from the contracts of its functions.
use vstd::prelude::*;

use crate::formatter::{
    csv_row, detail_block, detail_blocks, field_value, handle_bits, list_text, record_line,
    record_lines, simple_line, table_header, table_row, table_row_prefix, table_text, template_text, FormatConfig,
    OutputFormat,
};
use crate::models::WindowInfo;
use crate::text::{
    char_folds_to, concat, csv_field, dec_int, dec_nat, digit_char, digits, doubled_quotes,
    folds_to, hex_nat, join, pad_left, pad_right, truncated,
};

verus! {

/// The value of a digit character in bases up to 16.
pub open spec fn digit_value(c: char) -> nat {
    if c == '1' { 1 }
    else if c == '2' { 2 }
    else if c == '3' { 3 }
    else if c == '4' { 4 }
    else if c == '5' { 5 }
    else if c == '6' { 6 }
    else if c == '7' { 7 }
    else if c == '8' { 8 }
    else if c == '9' { 9 }
    else if c == 'a' { 10 }
    else if c == 'b' { 11 }
    else if c == 'c' { 12 }
    else if c == 'd' { 13 }
    else if c == 'e' { 14 }
    else if c == 'f' { 15 }
    else { 0 }
}

/// The number that a digit string denotes in base `b`, read most significant first.
pub open spec fn digits_value(s: Seq<char>, b: nat) -> nat
    decreases s.len(),
{
    if s.len() == 0 {
        0
    } else {
        digits_value(s.drop_last(), b) * b + digit_value(s.last())
    }
}

proof fn lemma_digit_round_trip(d: nat)
    requires
        d < 16,
    ensures
        digit_value(digit_char(d)) == d,
{
}

/// Reading back the digits of `n` in base `b` gives `n`, and they have no leading zero
/// unless `n` is zero.
pub proof fn lemma_digits_round_trip(n: nat, b: nat)
    requires
        2 <= b <= 16,
    ensures
        digits_value(digits(n, b), b) == n,
        digits(n, b).len() > 0,
        digits(n, b)[0] == '0' <==> n == 0,
    decreases n,
{
    if n < b {
        lemma_digit_round_trip(n);
        let s = digits(n, b);
        assert(s == seq![digit_char(n)]);
        assert(s.drop_last() =~= Seq::<char>::empty());
        assert(digits_value(s.drop_last(), b) == 0);
        assert(0 * b == 0);
        assert(digits_value(s, b) == digits_value(s.drop_last(), b) * b + digit_value(s.last()));
    } else {
        assert(n / b < n && n / b >= 1 && n % b < b && (n / b) * b + n % b == n)
            by (nonlinear_arith)
            requires
                b >= 2,
                n >= b,
        ;
        lemma_digits_round_trip(n / b, b);
        lemma_digit_round_trip(n % b);
        let s = digits(n, b);
        assert(s.drop_last() =~= digits(n / b, b));
        assert(s.last() == digit_char(n % b));
        assert(digits_value(s, b) == digits_value(s.drop_last(), b) * b + digit_value(s.last()));
        assert(digits_value(s, b) == (n / b) * b + n % b);
    }
}

/// The handle's bits are its value modulo the word size (on a 64-bit target, `hwnd as u64`).
pub proof fn lemma_handle_bits_modular(h: isize)
    ensures
        handle_bits(h) == (h as int) % (usize::MAX as int + 1),
{
    let m = usize::MAX as int + 1;
    assert(isize::MIN as int >= -(m / 2)) by {
        assert(usize::MAX == u32::MAX || usize::MAX == u64::MAX);
        assert(isize::MIN == i32::MIN || isize::MIN == i64::MIN);
    }
    if h >= 0 {
        assert((h as int) % m == h as int) by (nonlinear_arith)
            requires
                0 <= h as int,
                (h as int) < m,
        ;
    } else {
        assert((h as int) % m == h as int + m) by (nonlinear_arith)
            requires
                (h as int) < 0,
                h as int + m >= 0,
                h as int + m < m,
        ;
    }
}

/// The `pid` field reads back as the process id, in decimal without leading zeros; the
/// `hwnd` field is `0x` followed by lowercase hexadecimal digits that read back as the
/// handle's bits, without leading zeros except for the handle zero, which is `0x0`.
pub proof fn law_numeric_fields_round_trip(w: WindowInfo)
    ensures
        field_value(w, "pid"@) == dec_nat(w.pid as nat),
        digits_value(field_value(w, "pid"@), 10) == w.pid,
        field_value(w, "pid"@)[0] == '0' <==> w.pid == 0,
        field_value(w, "hwnd"@) == seq!['0', 'x'] + hex_nat(handle_bits(w.hwnd)),
        digits_value(hex_nat(handle_bits(w.hwnd)), 16) == handle_bits(w.hwnd),
        hex_nat(handle_bits(w.hwnd))[0] == '0' <==> w.hwnd == 0,
        w.hwnd == 0 ==> field_value(w, "hwnd"@) == seq!['0', 'x', '0'],
        handle_bits(w.hwnd) == (w.hwnd as int) % (usize::MAX as int + 1),
{
    lemma_handle_bits_modular(w.hwnd);
    reveal_strlit("pid");
    reveal_strlit("hwnd");
    reveal_strlit("index");
    assert(!folds_to("pid"@, "index"@));
    assert(!folds_to("pid"@, "hwnd"@));
    assert(folds_to("pid"@, "pid"@));
    assert(!folds_to("hwnd"@, "index"@));
    assert(folds_to("hwnd"@, "hwnd"@));
    lemma_digits_round_trip(w.pid as nat, 10);
    lemma_digits_round_trip(handle_bits(w.hwnd), 16);
    if w.hwnd == 0 {
        assert(seq!['0', 'x'] + seq![digit_char(0)] =~= seq!['0', 'x', '0']);
    }
}

/// The code of a character with ASCII upper case letters lowered.
pub open spec fn lower_code(c: char) -> u32 {
    if 65 <= c as u32 <= 90 {
        (c as u32 + 32) as u32
    } else {
        c as u32
    }
}

/// Two names spell the same word up to ASCII case.
pub open spec fn same_up_to_case(a: Seq<char>, b: Seq<char>) -> bool {
    &&& a.len() == b.len()
    &&& forall|i: int| 0 <= i < a.len() ==> lower_code(#[trigger] a[i]) == lower_code(b[i])
}

/// The name is one of the fixed field names, up to ASCII case.
pub open spec fn names_field(name: Seq<char>) -> bool {
    ||| folds_to(name, "index"@)
    ||| folds_to(name, "hwnd"@)
    ||| folds_to(name, "pid"@)
    ||| folds_to(name, "title"@)
    ||| folds_to(name, "class"@)
    ||| folds_to(name, "process"@)
    ||| folds_to(name, "file"@)
    ||| folds_to(name, "x"@)
    ||| folds_to(name, "y"@)
    ||| folds_to(name, "width"@)
    ||| folds_to(name, "height"@)
}

proof fn lemma_folds_same(a: Seq<char>, b: Seq<char>, k: Seq<char>)
    requires
        same_up_to_case(a, b),
        forall|i: int| 0 <= i < k.len() ==> !(65 <= #[trigger] k[i] as u32 <= 90),
    ensures
        folds_to(a, k) == folds_to(b, k),
{
    assert forall|i: int| 0 <= i < a.len() && i < k.len() implies (char_folds_to(a[i], k[i])
        <==> lower_code(a[i]) == k[i] as u32) by {
        assert(!(65 <= k[i] as u32 <= 90));
    }
    assert forall|i: int| 0 <= i < b.len() && i < k.len() implies (char_folds_to(b[i], k[i])
        <==> lower_code(b[i]) == k[i] as u32) by {
        assert(!(65 <= k[i] as u32 <= 90));
    }
    if folds_to(a, k) {
        assert forall|i: int| 0 <= i < b.len() implies char_folds_to(#[trigger] b[i], k[i]) by {
            assert(char_folds_to(a[i], k[i]));
            assert(lower_code(a[i]) == lower_code(b[i]));
        }
    }
    if folds_to(b, k) {
        assert forall|i: int| 0 <= i < a.len() implies char_folds_to(#[trigger] a[i], k[i]) by {
            assert(char_folds_to(b[i], k[i]));
            assert(lower_code(a[i]) == lower_code(b[i]));
        }
    }
}

proof fn lemma_lowercase_key(k: Seq<char>)
    requires
        forall|i: int| 0 <= i < k.len() ==> 97 <= #[trigger] k[i] as u32 <= 122,
    ensures
        forall|i: int| 0 <= i < k.len() ==> !(65 <= #[trigger] k[i] as u32 <= 90),
{
}

/// Field names are matched without regard to ASCII case: two spellings of a field name that
/// differ only in case resolve to the same text.
pub proof fn law_field_case_insensitive(w: WindowInfo, a: Seq<char>, b: Seq<char>)
    requires
        same_up_to_case(a, b),
        names_field(a),
    ensures
        field_value(w, a) == field_value(w, b),
{
    reveal_strlit("index");
    reveal_strlit("hwnd");
    reveal_strlit("pid");
    reveal_strlit("title");
    reveal_strlit("class");
    reveal_strlit("process");
    reveal_strlit("file");
    reveal_strlit("x");
    reveal_strlit("y");
    reveal_strlit("width");
    reveal_strlit("height");
    lemma_lowercase_key("index"@);
    lemma_lowercase_key("hwnd"@);
    lemma_lowercase_key("pid"@);
    lemma_lowercase_key("title"@);
    lemma_lowercase_key("class"@);
    lemma_lowercase_key("process"@);
    lemma_lowercase_key("file"@);
    lemma_lowercase_key("x"@);
    lemma_lowercase_key("y"@);
    lemma_lowercase_key("width"@);
    lemma_lowercase_key("height"@);
    lemma_folds_same(a, b, "index"@);
    lemma_folds_same(a, b, "hwnd"@);
    lemma_folds_same(a, b, "pid"@);
    lemma_folds_same(a, b, "title"@);
    lemma_folds_same(a, b, "class"@);
    lemma_folds_same(a, b, "process"@);
    lemma_folds_same(a, b, "file"@);
    lemma_folds_same(a, b, "x"@);
    lemma_folds_same(a, b, "y"@);
    lemma_folds_same(a, b, "width"@);
    lemma_folds_same(a, b, "height"@);
}

/// `PID`, `pid` and `Pid` resolve to the same text on every record.
pub proof fn law_pid_any_case(w: WindowInfo)
    ensures
        field_value(w, "PID"@) == field_value(w, "pid"@),
        field_value(w, "Pid"@) == field_value(w, "pid"@),
{
    reveal_strlit("PID");
    reveal_strlit("Pid");
    reveal_strlit("pid");
    assert(folds_to("pid"@, "pid"@));
    assert(names_field("pid"@));
    assert(same_up_to_case("pid"@, "PID"@));
    assert(same_up_to_case("pid"@, "Pid"@));
    law_field_case_insensitive(w, "pid"@, "PID"@);
    law_field_case_insensitive(w, "pid"@, "Pid"@);
}

/// The name `bogus` is no field: on every record it resolves to `[unknown field: bogus]`.
pub proof fn law_unknown_field(w: WindowInfo)
    ensures
        field_value(w, "bogus"@) == "[unknown field: bogus]"@,
{
    reveal_strlit("bogus");
    reveal_strlit("index");
    reveal_strlit("hwnd");
    reveal_strlit("pid");
    reveal_strlit("title");
    reveal_strlit("class");
    reveal_strlit("process");
    reveal_strlit("file");
    reveal_strlit("x");
    reveal_strlit("y");
    reveal_strlit("width");
    reveal_strlit("height");
    reveal_strlit("[unknown field: ");
    reveal_strlit("]");
    reveal_strlit("[unknown field: bogus]");
    let n = "bogus"@;
    assert(!char_folds_to(n[0], "index"@[0]));
    assert(!char_folds_to(n[0], "title"@[0]));
    assert(!char_folds_to(n[0], "class"@[0]));
    assert(!char_folds_to(n[0], "width"@[0]));
    assert(!folds_to(n, "index"@));
    assert(!folds_to(n, "title"@));
    assert(!folds_to(n, "class"@));
    assert(!folds_to(n, "width"@));
    assert("[unknown field: "@ + n + "]"@ =~= "[unknown field: bogus]"@);
}

/// Title truncation: with a limit `n` of at least 3, a title longer than `n` characters
/// becomes exactly `n` characters ending in `...`; a title of at most `n` characters, and
/// any title when there is no limit, is unchanged.
pub proof fn law_truncation(t: Seq<char>, n: usize)
    ensures
        n >= 3 && t.len() > n ==> truncated(t, Some(n)).len() == n && truncated(
            t,
            Some(n),
        ).skip(n - 3) == seq!['.', '.', '.'] && truncated(t, Some(n)).take(n - 3) == t.take(
            n - 3,
        ),
        t.len() <= n ==> truncated(t, Some(n)) == t,
        truncated(t, None) == t,
{
    if n >= 3 && t.len() > n {
        let r = truncated(t, Some(n));
        assert(r.skip(n - 3) =~= seq!['.', '.', '.']);
        assert(r.take(n - 3) =~= t.take(n - 3));
    }
}

/// CSV escaping: a field with a comma, or with a double quote, is wrapped in double quotes
/// with every inner quote doubled; a field with none of comma, double quote and newline is
/// emitted as it is. The title of a record stands in its CSV line in that form.
pub proof fn law_csv_escaping(w: WindowInfo, t: Seq<char>)
    ensures
        t.contains(',') ==> csv_field(t) == seq!['"'] + doubled_quotes(t) + seq!['"'],
        t.contains('"') ==> csv_field(t) == seq!['"'] + doubled_quotes(t) + seq!['"'],
        !t.contains(',') && !t.contains('"') && !t.contains('\n') ==> csv_field(t) == t,
        csv_row(w) == dec_nat(w.index as nat) + ","@ + dec_int(w.hwnd as int) + ","@ + dec_nat(
            w.pid as nat,
        ) + ","@ + csv_field(w.title@) + ","@ + csv_field(w.class_name@) + ","@ + csv_field(
            w.process_name@,
        ) + ","@ + csv_field(w.process_file@) + ","@ + dec_int(w.position.x as int) + ","@
            + dec_int(w.position.y as int) + ","@ + dec_int(w.position.width as int) + ","@
            + dec_int(w.position.height as int) + "\n"@,
{
}

/// Doubling quotes doubles each quote and keeps every other character.
pub proof fn law_doubled_quotes_length(t: Seq<char>)
    ensures
        doubled_quotes(t).len() == t.len() + t.filter(|c: char| c == '"').len(),
    decreases t.len(),
{
    reveal(Seq::filter);
    if t.len() > 0 {
        law_doubled_quotes_length(t.drop_last());
    }
}

/// Table columns do not move with the title: two records that differ only in their titles
/// have identical rows up to where the title starts, and the table of each is the optional
/// header, that shared prefix, the title as truncated, and a newline.
pub proof fn law_table_columns_stable(
    w1: WindowInfo,
    w2: WindowInfo,
    show_headers: bool,
    max: Option<usize>,
)
    requires
        w1.index == w2.index,
        w1.hwnd == w2.hwnd,
        w1.pid == w2.pid,
        w1.position == w2.position,
    ensures
        table_row_prefix(w1) == table_row_prefix(w2),
        table_row(w1, max).take(table_row_prefix(w1).len() as int) == table_row(w2, max).take(
            table_row_prefix(w2).len() as int,
        ),
        table_text(seq![w1], show_headers, max) == (if show_headers {
            table_header()
        } else {
            Seq::empty()
        }) + table_row_prefix(w1) + truncated(w1.title@, max) + "\n"@,
        table_text(seq![w2], show_headers, max) == (if show_headers {
            table_header()
        } else {
            Seq::empty()
        }) + table_row_prefix(w1) + truncated(w2.title@, max) + "\n"@,
{
    lemma_single_row_table(w1, show_headers, max);
    lemma_single_row_table(w2, show_headers, max);
    let p = table_row_prefix(w1);
    assert(table_row(w1, max).take(p.len() as int) =~= p);
    assert(table_row(w2, max).take(p.len() as int) =~= p);
}

proof fn lemma_single_row_table(w: WindowInfo, show_headers: bool, max: Option<usize>)
    ensures
        table_text(seq![w], show_headers, max) == (if show_headers {
            table_header()
        } else {
            Seq::empty()
        }) + table_row_prefix(w) + truncated(w.title@, max) + "\n"@,
{
    let rows = Seq::new(1, |i: int| table_row(seq![w][i], max));
    assert(rows.drop_last() =~= Seq::<Seq<char>>::empty());
    assert(concat(rows) == concat(rows.drop_last()) + rows.last());
    assert(concat(rows) =~= table_row(w, max));
    let h = if show_headers {
        table_header()
    } else {
        Seq::<char>::empty()
    };
    assert(h + table_row(w, max) =~= h + table_row_prefix(w) + truncated(w.title@, max) + "\n"@);
}

proof fn lemma_pad_len(s: Seq<char>, w: nat)
    ensures
        s.len() <= w ==> pad_right(s, w).len() == w && pad_left(s, w).len() == w,
{
}

/// Where each value fits its column, the title of a table row starts at character 42, after
/// the index (width 6), `0x` and the handle (width 12), the process id (width 8) and the
/// position (width 12), each column followed by one space.
pub proof fn law_table_title_offset(w: WindowInfo)
    requires
        dec_nat(w.index as nat).len() <= 6,
        hex_nat(handle_bits(w.hwnd)).len() <= 10,
        dec_nat(w.pid as nat).len() <= 8,
        dec_int(w.position.x as int).len() <= 4,
        dec_int(w.position.y as int).len() <= 7,
    ensures
        table_row_prefix(w).len() == 42,
{
    reveal_strlit(" 0x");
    reveal_strlit(" ");
    reveal_strlit(",");
    lemma_pad_len(dec_nat(w.index as nat), 6);
    lemma_pad_len(hex_nat(handle_bits(w.hwnd)), 10);
    lemma_pad_len(dec_nat(w.pid as nat), 8);
    lemma_pad_len(dec_int(w.position.x as int), 4);
    lemma_pad_len(dec_int(w.position.y as int), 7);
}

proof fn lemma_join_non_empty(parts: Seq<Seq<char>>, sep: Seq<char>)
    requires
        parts.len() >= 2 && sep.len() > 0 || parts.len() == 1 && parts[0].len() > 0,
    ensures
        join(parts, sep).len() > 0,
{
}

proof fn lemma_concat_non_empty(parts: Seq<Seq<char>>)
    requires
        parts.len() > 0,
        parts.last().len() > 0,
    ensures
        concat(parts).len() > 0,
{
}

/// Rendering a list never yields the empty text: no records give the fixed sentence, and
/// any records give a non-empty text. Left out are an encoder that produced an empty
/// document, and a single record whose template text is empty (a template of no fields, an
/// empty template string, or fields whose values are all empty).
pub proof fn law_render_non_empty(ws: Seq<WindowInfo>, c: FormatConfig, document: Option<String>)
    requires
        document is Some ==> document->0@.len() > 0,
        ws.len() == 1 && (c.format == OutputFormat::Simple || c.format == OutputFormat::Custom)
            && c.template is Some ==> template_text(ws[0], c.template->0).len() > 0,
    ensures
        ws.len() == 0 ==> list_text(ws, c, document) == "No windows found"@,
        ws.len() > 0 ==> list_text(ws, c, document).len() > 0,
{
    reveal_strlit("[]");
    reveal_strlit("---");
    reveal_strlit("\n");
    reveal_strlit("[");
    reveal_strlit("Index: ");
    if ws.len() > 0 {
        match c.format {
            OutputFormat::Simple | OutputFormat::Custom => {
                let parts = record_lines(ws, c);
                if ws.len() == 1 {
                    assert(parts[0] == record_line(ws[0], c));
                    if c.template is None {
                        assert(simple_line(ws[0], c.max_title_length).len() > 0);
                    }
                }
                lemma_join_non_empty(parts, "\n"@);
            },
            OutputFormat::Detail => {
                let parts = detail_blocks(ws);
                assert(parts[0] == detail_block(ws[0]));
                lemma_join_non_empty(parts, "\n"@);
            },
            OutputFormat::Table => {
                let rows = Seq::new(ws.len(), |i: int| table_row(ws[i], c.max_title_length));
                assert(rows.last() == table_row(ws[ws.len() - 1], c.max_title_length));
                lemma_concat_non_empty(rows);
            },
            OutputFormat::Csv => {
                let rows = Seq::new(ws.len(), |i: int| csv_row(ws[i]));
                assert(rows.last() == csv_row(ws[ws.len() - 1]));
                lemma_concat_non_empty(rows);
            },
            _ => {},
        }
    }
}

} // verus!
