//! Field resolution, templates, and the text formats of window records.
use vstd::prelude::*;

use crate::models::WindowInfo;
use crate::text::{
    append_hex, append_padded_left, append_padded_right, append_signed, append_unsigned,
    concat, csv_field, dec_int, dec_nat, doubled_quotes, folds_eq, folds_to, hex_nat, join,
    lemma_concat_step, lemma_join_step, occurs_at, pad_left, pad_right, truncated,
};

verus! {

/// Supported output formats.
#[derive(Debug, Clone, Copy, PartialEq, Eq, Structural)]
pub enum OutputFormat {
    /// Compact JSON format.
    Json,
    /// Pretty-printed JSON format.
    JsonPretty,
    /// CSV format.
    Csv,
    /// YAML format.
    Yaml,
    /// Simple one-line format.
    Simple,
    /// Detailed multi-line format.
    Detail,
    /// Formatted table.
    Table,
    /// Custom template format.
    Custom,
}

/// Template formats for custom output.
#[derive(Debug, Clone)]
pub enum TemplateFormat {
    /// Output only the values of the named fields, tab-separated.
    Fields(Vec<String>),
    /// Output `name: value` for each named field, separated by ` | `.
    KeyValue(Vec<String>),
    /// A template string whose `{field}` placeholders are substituted.
    Custom(String),
}

/// Configuration for formatting output.
#[derive(Debug, Clone)]
pub struct FormatConfig {
    /// The output format to use.
    pub format: OutputFormat,
    /// Template configuration for custom formats.
    pub template: Option<TemplateFormat>,
    /// Whether to show headers in CSV/Table formats.
    pub show_headers: bool,
    /// Maximum title length before truncation.
    pub max_title_length: Option<usize>,
}

impl Default for FormatConfig {
    fn default() -> (r: Self)
        ensures
            r.format == OutputFormat::Table,
            r.template is None,
            r.show_headers,
            r.max_title_length == Some(50usize),
    {
        FormatConfig {
            format: OutputFormat::Table,
            template: None,
            show_headers: true,
            max_title_length: Some(50),
        }
    }
}

/// The handle's bits read as an unsigned number (two's complement for a negative handle).
pub open spec fn handle_bits(h: isize) -> nat {
    if h >= 0 {
        h as nat
    } else {
        (h + usize::MAX + 1) as nat
    }
}

/// `0x` followed by the lowercase hexadecimal text of the handle's bits.
pub open spec fn handle_hex(h: isize) -> Seq<char> {
    seq!['0', 'x'] + hex_nat(handle_bits(h))
}

/// The text of the field that `name` names, matched up to ASCII case; a name outside the
/// fixed set gives a marker that quotes it as given.
pub open spec fn field_value(w: WindowInfo, name: Seq<char>) -> Seq<char> {
    if folds_to(name, "index"@) {
        dec_nat(w.index as nat)
    } else if folds_to(name, "hwnd"@) {
        handle_hex(w.hwnd)
    } else if folds_to(name, "pid"@) {
        dec_nat(w.pid as nat)
    } else if folds_to(name, "title"@) {
        w.title@
    } else if folds_to(name, "class"@) {
        w.class_name@
    } else if folds_to(name, "process"@) {
        w.process_name@
    } else if folds_to(name, "file"@) {
        w.process_file@
    } else if folds_to(name, "x"@) {
        dec_int(w.position.x as int)
    } else if folds_to(name, "y"@) {
        dec_int(w.position.y as int)
    } else if folds_to(name, "width"@) {
        dec_int(w.position.width as int)
    } else if folds_to(name, "height"@) {
        dec_int(w.position.height as int)
    } else {
        "[unknown field: "@ + name + "]"@
    }
}

/// The values of the named fields, in the order given.
pub open spec fn field_values(w: WindowInfo, names: Seq<String>) -> Seq<Seq<char>> {
    Seq::new(names.len(), |i: int| field_value(w, names[i]@))
}

/// `name: value` for each named field, in the order given.
pub open spec fn key_values(w: WindowInfo, names: Seq<String>) -> Seq<Seq<char>> {
    Seq::new(names.len(), |i: int| names[i]@ + ": "@ + field_value(w, names[i]@))
}

/// `t` begins with `p`.
pub open spec fn starts_with(t: Seq<char>, p: Seq<char>) -> bool {
    p.len() <= t.len() && t.take(p.len() as int) == p
}

/// The known placeholder that `t` begins with, and its value for the record.
pub open spec fn placeholder_at(w: WindowInfo, t: Seq<char>) -> Option<(Seq<char>, Seq<char>)> {
    if starts_with(t, "{index}"@) {
        Some(("{index}"@, dec_nat(w.index as nat)))
    } else if starts_with(t, "{hwnd}"@) {
        Some(("{hwnd}"@, handle_hex(w.hwnd)))
    } else if starts_with(t, "{pid}"@) {
        Some(("{pid}"@, dec_nat(w.pid as nat)))
    } else if starts_with(t, "{title}"@) {
        Some(("{title}"@, w.title@))
    } else if starts_with(t, "{class}"@) {
        Some(("{class}"@, w.class_name@))
    } else if starts_with(t, "{process}"@) {
        Some(("{process}"@, w.process_name@))
    } else if starts_with(t, "{file}"@) {
        Some(("{file}"@, w.process_file@))
    } else if starts_with(t, "{x}"@) {
        Some(("{x}"@, dec_int(w.position.x as int)))
    } else if starts_with(t, "{y}"@) {
        Some(("{y}"@, dec_int(w.position.y as int)))
    } else if starts_with(t, "{width}"@) {
        Some(("{width}"@, dec_int(w.position.width as int)))
    } else if starts_with(t, "{height}"@) {
        Some(("{height}"@, dec_int(w.position.height as int)))
    } else {
        None
    }
}

/// The template string read once from left to right: where a known placeholder starts, its
/// value is emitted and the scan resumes after the placeholder; any other character is
/// copied. Inserted values are never scanned, and unknown `{name}` or stray braces stay.
pub open spec fn free_form(w: WindowInfo, t: Seq<char>) -> Seq<char>
    decreases t.len(),
{
    if t.len() == 0 {
        Seq::empty()
    } else {
        match placeholder_at(w, t) {
            Some((p, v)) if 0 < p.len() => v + free_form(w, t.skip(p.len() as int)),
            _ => seq![t[0]] + free_form(w, t.skip(1)),
        }
    }
}

/// The text of a record under a template.
pub open spec fn template_text(w: WindowInfo, t: TemplateFormat) -> Seq<char> {
    match t {
        TemplateFormat::Fields(names) => join(field_values(w, names@), "\t"@),
        TemplateFormat::KeyValue(names) => join(key_values(w, names@), " | "@),
        TemplateFormat::Custom(s) => free_form(w, s@),
    }
}

/// The fixed one-line summary of a record.
pub open spec fn simple_line(w: WindowInfo, max: Option<usize>) -> Seq<char> {
    "["@ + dec_nat(w.index as nat) + "] "@ + truncated(w.title@, max) + " (PID: "@ + dec_nat(
        w.pid as nat,
    ) + ") @ ("@ + dec_int(w.position.x as int) + ","@ + dec_int(w.position.y as int) + ")"@
}

/// One record in the simple and custom formats: the configured template if there is one,
/// else the fixed one-line summary.
pub open spec fn record_line(w: WindowInfo, c: FormatConfig) -> Seq<char> {
    match c.template {
        Some(t) => template_text(w, t),
        None => simple_line(w, c.max_title_length),
    }
}

/// The multi-line block of a record, closed by a line of 40 dashes.
pub open spec fn detail_block(w: WindowInfo) -> Seq<char> {
    "Index: "@ + dec_nat(w.index as nat) + "\nHandle: "@ + handle_hex(w.hwnd) + "\nPID: "@
        + dec_nat(w.pid as nat) + "\nTitle: "@ + w.title@ + "\nClass: "@ + w.class_name@
        + "\nProcess: "@ + w.process_name@ + "\nFile: "@ + w.process_file@ + "\nPosition: ("@
        + dec_int(w.position.x as int) + ", "@ + dec_int(w.position.y as int) + ") Size: "@
        + dec_int(w.position.width as int) + "x"@ + dec_int(w.position.height as int) + "\n"@
        + "----------------------------------------"@
}

/// The header and separator lines of the table.
pub open spec fn table_header() -> Seq<char> {
    "Index  Handle       PID      Position     Title\n"@
        + "------ ------------ -------- ------------ ------------------------------\n"@
}

/// The fixed-width columns of a table row, up to where the title starts.
pub open spec fn table_row_prefix(w: WindowInfo) -> Seq<char> {
    pad_right(dec_nat(w.index as nat), 6) + " 0x"@ + pad_right(hex_nat(handle_bits(w.hwnd)), 10)
        + " "@ + pad_right(dec_nat(w.pid as nat), 8) + " "@ + pad_left(
        dec_int(w.position.x as int),
        4,
    ) + ","@ + pad_right(dec_int(w.position.y as int), 7) + " "@
}

/// One table row, newline-terminated.
pub open spec fn table_row(w: WindowInfo, max: Option<usize>) -> Seq<char> {
    table_row_prefix(w) + truncated(w.title@, max) + "\n"@
}

/// The table of the records: the header lines if asked for, then one row per record.
pub open spec fn table_text(ws: Seq<WindowInfo>, show_headers: bool, max: Option<usize>) -> Seq<
    char,
> {
    (if show_headers {
        table_header()
    } else {
        Seq::empty()
    }) + concat(Seq::new(ws.len(), |i: int| table_row(ws[i], max)))
}

/// The CSV header line.
pub open spec fn csv_header() -> Seq<char> {
    "Index,Handle,PID,Title,Class,Process,File,X,Y,Width,Height\n"@
}

/// One CSV line, newline-terminated; the handle is in decimal.
pub open spec fn csv_row(w: WindowInfo) -> Seq<char> {
    dec_nat(w.index as nat) + ","@ + dec_int(w.hwnd as int) + ","@ + dec_nat(w.pid as nat) + ","@
        + csv_field(w.title@) + ","@ + csv_field(w.class_name@) + ","@ + csv_field(
        w.process_name@,
    ) + ","@ + csv_field(w.process_file@) + ","@ + dec_int(w.position.x as int) + ","@ + dec_int(
        w.position.y as int,
    ) + ","@ + dec_int(w.position.width as int) + ","@ + dec_int(w.position.height as int)
        + "\n"@
}

/// The CSV text of the records: the header line if asked for, then one line per record.
pub open spec fn csv_text(ws: Seq<WindowInfo>, show_headers: bool) -> Seq<char> {
    (if show_headers {
        csv_header()
    } else {
        Seq::empty()
    }) + concat(Seq::new(ws.len(), |i: int| csv_row(ws[i])))
}

/// Each record on its own line in the simple and custom formats.
pub open spec fn record_lines(ws: Seq<WindowInfo>, c: FormatConfig) -> Seq<Seq<char>> {
    Seq::new(ws.len(), |i: int| record_line(ws[i], c))
}

/// Each record as its detail block.
pub open spec fn detail_blocks(ws: Seq<WindowInfo>) -> Seq<Seq<char>> {
    Seq::new(ws.len(), |i: int| detail_block(ws[i]))
}

/// The structured document as the encoder gave it, or `fallback` where it failed.
pub open spec fn document_or(document: Option<String>, fallback: Seq<char>) -> Seq<char> {
    match document {
        Some(d) => d@,
        None => fallback,
    }
}

/// The configuration that a bare format choice stands for: no template, headers shown,
/// titles cut at 50 characters.
pub open spec fn config_for(format: OutputFormat) -> FormatConfig {
    FormatConfig {
        format,
        template: None,
        show_headers: true,
        max_title_length: Some(50usize),
    }
}

/// The text of one record. The structured formats take the encoder's `document` (`{}` or
/// `---` where it failed); table and CSV follow the configured headers and title limit, as
/// for a list of this one record.
pub open spec fn window_text(w: WindowInfo, c: FormatConfig, document: Option<String>) -> Seq<
    char,
> {
    match c.format {
        OutputFormat::Json | OutputFormat::JsonPretty => document_or(document, "{}"@),
        OutputFormat::Yaml => document_or(document, "---"@),
        OutputFormat::Simple | OutputFormat::Custom => record_line(w, c),
        OutputFormat::Detail => detail_block(w),
        OutputFormat::Table => table_text(seq![w], c.show_headers, c.max_title_length),
        OutputFormat::Csv => csv_text(seq![w], c.show_headers),
    }
}

/// The text of a list of records: a fixed sentence for no records; else the structured
/// formats take the encoder's `document` (`[]` or `---` where it failed), simple, custom
/// and detail put one record per line or block, table and CSV share one header.
pub open spec fn list_text(ws: Seq<WindowInfo>, c: FormatConfig, document: Option<String>) -> Seq<
    char,
> {
    if ws.len() == 0 {
        "No windows found"@
    } else {
        match c.format {
            OutputFormat::Json | OutputFormat::JsonPretty => document_or(document, "[]"@),
            OutputFormat::Yaml => document_or(document, "---"@),
            OutputFormat::Simple | OutputFormat::Custom => join(record_lines(ws, c), "\n"@),
            OutputFormat::Detail => join(detail_blocks(ws), "\n"@),
            OutputFormat::Table => table_text(ws, c.show_headers, c.max_title_length),
            OutputFormat::Csv => csv_text(ws, c.show_headers),
        }
    }
}

/// Main formatter for window information.
pub struct WindowFormatter;

impl WindowFormatter {
    /// The handle's bits as an unsigned number.
    fn handle_bits_of(h: isize) -> (r: u64)
        ensures
            r as nat == handle_bits(h),
    {
        if h >= 0 {
            h as usize as u64
        } else {
            ((h as i128) + (usize::MAX as i128) + 1) as usize as u64
        }
    }

    fn append_handle_hex(out: &mut String, h: isize)
        ensures
            final(out)@ == old(out)@ + handle_hex(h),
    {
        out.append("0x");
        append_hex(out, Self::handle_bits_of(h));
        proof {
            reveal_strlit("0x");
        }
        assert(out@ =~= old(out)@ + handle_hex(h));
    }

    /// The text of the named field of `window`; the name is matched up to ASCII case.
    pub fn get_field_value(window: &WindowInfo, field: &str) -> (r: String)
        ensures
            r@ == field_value(*window, field@),
    {
        let mut out = String::new();
        if folds_eq(field, "index") {
            append_unsigned(&mut out, window.index as u64);
        } else if folds_eq(field, "hwnd") {
            Self::append_handle_hex(&mut out, window.hwnd);
        } else if folds_eq(field, "pid") {
            append_unsigned(&mut out, window.pid as u64);
        } else if folds_eq(field, "title") {
            out.append(window.title.as_str());
        } else if folds_eq(field, "class") {
            out.append(window.class_name.as_str());
        } else if folds_eq(field, "process") {
            out.append(window.process_name.as_str());
        } else if folds_eq(field, "file") {
            out.append(window.process_file.as_str());
        } else if folds_eq(field, "x") {
            append_signed(&mut out, window.position.x as i64);
        } else if folds_eq(field, "y") {
            append_signed(&mut out, window.position.y as i64);
        } else if folds_eq(field, "width") {
            append_signed(&mut out, window.position.width as i64);
        } else if folds_eq(field, "height") {
            append_signed(&mut out, window.position.height as i64);
        } else {
            out.append("[unknown field: ");
            out.append(field);
            out.append("]");
        }
        assert(out@ =~= field_value(*window, field@));
        out
    }

    /// The title shortened to at most `max_length` characters, if a limit is given.
    pub fn truncate_title(title: &str, max_length: Option<usize>) -> (r: String)
        ensures
            r@ == truncated(title@, max_length),
    {
        let n = title.unicode_len();
        match max_length {
            None => String::from_str(title),
            Some(m) => {
                if n <= m {
                    String::from_str(title)
                } else if m >= 3 {
                    let mut out = String::from_str(title.substring_char(0, m - 3));
                    out.append("...");
                    proof {
                        reveal_strlit("...");
                    }
                    assert(out@ =~= truncated(title@, max_length));
                    out
                } else {
                    String::from_str(title.substring_char(0, m))
                }
            },
        }
    }

    /// The CSV form of a text field: wrapped in double quotes, with inner quotes doubled,
    /// when it holds a comma, a double quote or a newline; otherwise unchanged.
    pub fn escape_csv_field(field: &str) -> (r: String)
        ensures
            r@ == csv_field(field@),
    {
        let n = field.unicode_len();
        let mut special = false;
        let mut i: usize = 0;
        while i < n
            invariant
                n == field@.len(),
                i <= n,
                special == exists|j: int|
                    0 <= j < i && (#[trigger] field@[j] == ',' || field@[j] == '"' || field@[j]
                        == '\n'),
            decreases n - i,
        {
            let c = field.get_char(i);
            if c == ',' || c == '"' || c == '\n' {
                special = true;
            }
            i = i + 1;
        }
        proof {
            let s = field@;
            if special {
                let j = choose|j: int|
                    0 <= j < n && (#[trigger] s[j] == ',' || s[j] == '"' || s[j] == '\n');
                assert(s.contains(s[j]));
            } else {
                assert(!s.contains(','));
                assert(!s.contains('"'));
                assert(!s.contains('\n'));
            }
        }
        if !special {
            return String::from_str(field);
        }
        let mut out = String::new();
        out.append("\"");
        proof {
            reveal_strlit("\"");
            assert(doubled_quotes(field@.take(0)) =~= Seq::<char>::empty());
            assert(out@ =~= seq!['"'] + doubled_quotes(field@.take(0)));
        }
        let mut i: usize = 0;
        while i < n
            invariant
                n == field@.len(),
                i <= n,
                out@ == seq!['"'] + doubled_quotes(field@.take(i as int)),
            decreases n - i,
        {
            proof {
                reveal_strlit("\"\"");
                assert(field@.take(i + 1).drop_last() =~= field@.take(i as int));
            }
            let c = field.get_char(i);
            if c == '"' {
                out.append("\"\"");
            } else {
                out.append(field.substring_char(i, i + 1));
            }
            i = i + 1;
            assert(out@ =~= seq!['"'] + doubled_quotes(field@.take(i as int)));
        }
        out.append("\"");
        proof {
            reveal_strlit("\"");
            assert(field@.take(n as int) =~= field@);
        }
        assert(out@ =~= csv_field(field@));
        out
    }

    /// The values of the named fields, joined by tabs.
    fn format_fields(window: &WindowInfo, fields: &Vec<String>) -> (r: String)
        ensures
            r@ == join(field_values(*window, fields@), "\t"@),
    {
        let ghost parts = field_values(*window, fields@);
        let mut out = String::new();
        let mut i: usize = 0;
        while i < fields.len()
            invariant
                parts == field_values(*window, fields@),
                i <= fields@.len(),
                out@ == join(parts.take(i as int), "\t"@),
            decreases fields@.len() - i,
        {
            if i > 0 {
                out.append("\t");
            }
            let v = Self::get_field_value(window, fields[i].as_str());
            out.append(v.as_str());
            proof {
                lemma_join_step(parts, "\t"@, i as int);
            }
            i = i + 1;
        }
        assert(parts.take(fields@.len() as int) =~= parts);
        out
    }

    /// `name: value` for each named field, joined by ` | `.
    fn format_key_value(window: &WindowInfo, fields: &Vec<String>) -> (r: String)
        ensures
            r@ == join(key_values(*window, fields@), " | "@),
    {
        let ghost parts = key_values(*window, fields@);
        let mut out = String::new();
        let mut i: usize = 0;
        while i < fields.len()
            invariant
                parts == key_values(*window, fields@),
                i <= fields@.len(),
                out@ == join(parts.take(i as int), " | "@),
            decreases fields@.len() - i,
        {
            if i > 0 {
                out.append(" | ");
            }
            let ghost before = out@;
            let name = fields[i].as_str();
            let v = Self::get_field_value(window, name);
            out.append(name);
            out.append(": ");
            out.append(v.as_str());
            proof {
                assert(out@ =~= before + parts[i as int]);
                lemma_join_step(parts, " | "@, i as int);
            }
            i = i + 1;
        }
        assert(parts.take(fields@.len() as int) =~= parts);
        out
    }

    /// The known placeholder that starts at character `i` of `s`: its length and its value.
    fn placeholder_in(window: &WindowInfo, s: &str, i: usize, n: usize) -> (r: Option<(usize, String)>)
        requires
            n == s@.len(),
            i < n,
        ensures
            ({
                let m = placeholder_at(*window, s@.skip(i as int));
                match r {
                    Some((k, v)) => match m {
                        Some((p, val)) => k == p.len() && 0 < k && v@ == val,
                        None => false,
                    },
                    None => m is None,
                }
            }),
    {
        proof {
            reveal_strlit("{index}");
            reveal_strlit("{hwnd}");
            reveal_strlit("{pid}");
            reveal_strlit("{title}");
            reveal_strlit("{class}");
            reveal_strlit("{process}");
            reveal_strlit("{file}");
            reveal_strlit("{x}");
            reveal_strlit("{y}");
            reveal_strlit("{width}");
            reveal_strlit("{height}");
        }
        if occurs_at(s, "{index}", i, n, 7) {
            let mut v = String::new();
            append_unsigned(&mut v, window.index as u64);
            return Some((7, v));
        }
        if occurs_at(s, "{hwnd}", i, n, 6) {
            let mut v = String::new();
            Self::append_handle_hex(&mut v, window.hwnd);
            return Some((6, v));
        }
        if occurs_at(s, "{pid}", i, n, 5) {
            let mut v = String::new();
            append_unsigned(&mut v, window.pid as u64);
            return Some((5, v));
        }
        if occurs_at(s, "{title}", i, n, 7) {
            let mut v = String::new();
            v.append(window.title.as_str());
            return Some((7, v));
        }
        if occurs_at(s, "{class}", i, n, 7) {
            let mut v = String::new();
            v.append(window.class_name.as_str());
            return Some((7, v));
        }
        if occurs_at(s, "{process}", i, n, 9) {
            let mut v = String::new();
            v.append(window.process_name.as_str());
            return Some((9, v));
        }
        if occurs_at(s, "{file}", i, n, 6) {
            let mut v = String::new();
            v.append(window.process_file.as_str());
            return Some((6, v));
        }
        if occurs_at(s, "{x}", i, n, 3) {
            let mut v = String::new();
            append_signed(&mut v, window.position.x as i64);
            return Some((3, v));
        }
        if occurs_at(s, "{y}", i, n, 3) {
            let mut v = String::new();
            append_signed(&mut v, window.position.y as i64);
            return Some((3, v));
        }
        if occurs_at(s, "{width}", i, n, 7) {
            let mut v = String::new();
            append_signed(&mut v, window.position.width as i64);
            return Some((7, v));
        }
        if occurs_at(s, "{height}", i, n, 8) {
            let mut v = String::new();
            append_signed(&mut v, window.position.height as i64);
            return Some((8, v));
        }
        None
    }

    /// The template string with its known placeholders substituted in one scan.
    fn format_custom_template(window: &WindowInfo, template: &str) -> (r: String)
        ensures
            r@ == free_form(*window, template@),
    {
        let n = template.unicode_len();
        let mut out = String::new();
        let mut i: usize = 0;
        assert(template@.skip(0) =~= template@);
        while i < n
            invariant
                n == template@.len(),
                i <= n,
                out@ + free_form(*window, template@.skip(i as int)) == free_form(
                    *window,
                    template@,
                ),
            decreases n - i,
        {
            let ghost rest = template@.skip(i as int);
            let ghost before = out@;
            match Self::placeholder_in(window, template, i, n) {
                Some((k, v)) => {
                    out.append(v.as_str());
                    proof {
                        assert(rest.skip(k as int) =~= template@.skip(i + k));
                        assert(before + (v@ + free_form(*window, rest.skip(k as int))) =~= out@
                            + free_form(*window, template@.skip(i + k)));
                    }
                    i = i + k;
                },
                None => {
                    out.append(template.substring_char(i, i + 1));
                    proof {
                        assert(rest.skip(1) =~= template@.skip(i + 1));
                        assert(template@.subrange(i as int, i + 1) =~= seq![rest[0]]);
                        assert(before + (seq![rest[0]] + free_form(*window, rest.skip(1))) =~= out@
                            + free_form(*window, template@.skip(i + 1)));
                    }
                    i = i + 1;
                },
            }
        }
        assert(out@ =~= out@ + free_form(*window, template@.skip(n as int)));
        out
    }

    /// The text of a record under a template.
    pub fn apply_template(window: &WindowInfo, template: &TemplateFormat) -> (r: String)
        ensures
            r@ == template_text(*window, *template),
    {
        match template {
            TemplateFormat::Fields(fields) => Self::format_fields(window, fields),
            TemplateFormat::KeyValue(fields) => Self::format_key_value(window, fields),
            TemplateFormat::Custom(template_str) => Self::format_custom_template(
                window,
                template_str.as_str(),
            ),
        }
    }

    /// One record in the simple format: the template if one is configured, else the fixed
    /// one-line summary.
    fn format_simple(window: &WindowInfo, config: &FormatConfig) -> (r: String)
        ensures
            r@ == record_line(*window, *config),
    {
        if let Some(template) = &config.template {
            return Self::apply_template(window, template);
        }
        let title = Self::truncate_title(window.title.as_str(), config.max_title_length);
        let mut out = String::new();
        out.append("[");
        append_unsigned(&mut out, window.index as u64);
        out.append("] ");
        out.append(title.as_str());
        out.append(" (PID: ");
        append_unsigned(&mut out, window.pid as u64);
        out.append(") @ (");
        append_signed(&mut out, window.position.x as i64);
        out.append(",");
        append_signed(&mut out, window.position.y as i64);
        out.append(")");
        assert(out@ =~= record_line(*window, *config));
        out
    }

    /// One record in the custom format: the template if one is configured, else the simple
    /// format.
    fn format_custom(window: &WindowInfo, config: &FormatConfig) -> (r: String)
        ensures
            r@ == record_line(*window, *config),
    {
        if let Some(template) = &config.template {
            Self::apply_template(window, template)
        } else {
            Self::format_simple(window, config)
        }
    }

    /// The detail block of a record.
    fn format_detail(window: &WindowInfo, _config: &FormatConfig) -> (r: String)
        ensures
            r@ == detail_block(*window),
    {
        let mut out = String::new();
        out.append("Index: ");
        append_unsigned(&mut out, window.index as u64);
        out.append("\nHandle: ");
        Self::append_handle_hex(&mut out, window.hwnd);
        out.append("\nPID: ");
        append_unsigned(&mut out, window.pid as u64);
        out.append("\nTitle: ");
        out.append(window.title.as_str());
        out.append("\nClass: ");
        out.append(window.class_name.as_str());
        out.append("\nProcess: ");
        out.append(window.process_name.as_str());
        out.append("\nFile: ");
        out.append(window.process_file.as_str());
        out.append("\nPosition: (");
        append_signed(&mut out, window.position.x as i64);
        out.append(", ");
        append_signed(&mut out, window.position.y as i64);
        out.append(") Size: ");
        append_signed(&mut out, window.position.width as i64);
        out.append("x");
        append_signed(&mut out, window.position.height as i64);
        out.append("\n");
        out.append("----------------------------------------");
        assert(out@ =~= detail_block(*window));
        out
    }

    fn append_table_header(out: &mut String)
        ensures
            final(out)@ == old(out)@ + table_header(),
    {
        out.append("Index  Handle       PID      Position     Title\n");
        out.append("------ ------------ -------- ------------ ------------------------------\n");
        assert(out@ =~= old(out)@ + table_header());
    }

    fn append_table_row(out: &mut String, window: &WindowInfo, max: Option<usize>)
        ensures
            final(out)@ == old(out)@ + table_row(*window, max),
    {
        let mut v = String::new();
        append_unsigned(&mut v, window.index as u64);
        append_padded_right(out, v.as_str(), 6);
        out.append(" 0x");
        let mut v = String::new();
        append_hex(&mut v, Self::handle_bits_of(window.hwnd));
        append_padded_right(out, v.as_str(), 10);
        out.append(" ");
        let mut v = String::new();
        append_unsigned(&mut v, window.pid as u64);
        append_padded_right(out, v.as_str(), 8);
        out.append(" ");
        let mut v = String::new();
        append_signed(&mut v, window.position.x as i64);
        append_padded_left(out, v.as_str(), 4);
        out.append(",");
        let mut v = String::new();
        append_signed(&mut v, window.position.y as i64);
        append_padded_right(out, v.as_str(), 7);
        out.append(" ");
        let title = Self::truncate_title(window.title.as_str(), max);
        out.append(title.as_str());
        out.append("\n");
        assert(out@ =~= old(out)@ + table_row(*window, max));
    }

    /// The table of the records: header lines if configured, then one row per record.
    pub fn format_table(windows: &[WindowInfo], config: &FormatConfig) -> (r: String)
        ensures
            r@ == table_text(windows@, config.show_headers, config.max_title_length),
    {
        let mut out = String::new();
        if config.show_headers {
            Self::append_table_header(&mut out);
        }
        let ghost head = out@;
        let ghost rows = Seq::new(
            windows@.len(),
            |i: int| table_row(windows@[i], config.max_title_length),
        );
        let mut i: usize = 0;
        while i < windows.len()
            invariant
                i <= windows@.len(),
                rows == Seq::new(
                    windows@.len(),
                    |i: int| table_row(windows@[i], config.max_title_length),
                ),
                out@ == head + concat(rows.take(i as int)),
            decreases windows@.len() - i,
        {
            Self::append_table_row(&mut out, &windows[i], config.max_title_length);
            proof {
                lemma_concat_step(rows, i as int);
            }
            i = i + 1;
        }
        assert(rows.take(windows@.len() as int) =~= rows);
        out
    }

    /// The table of one record: header lines if configured, then its row.
    fn format_table_single(window: &WindowInfo, config: &FormatConfig) -> (r: String)
        ensures
            r@ == table_text(seq![*window], config.show_headers, config.max_title_length),
    {
        let mut out = String::new();
        if config.show_headers {
            Self::append_table_header(&mut out);
        }
        Self::append_table_row(&mut out, window, config.max_title_length);
        proof {
            let rows = Seq::new(1, |i: int| table_row(seq![*window][i], config.max_title_length));
            lemma_concat_step(rows, 0);
            assert(rows.take(1) =~= rows);
        }
        out
    }

    fn append_csv_header(out: &mut String)
        ensures
            final(out)@ == old(out)@ + csv_header(),
    {
        out.append("Index,Handle,PID,Title,Class,Process,File,X,Y,Width,Height\n");
    }

    fn append_csv_row(out: &mut String, window: &WindowInfo)
        ensures
            final(out)@ == old(out)@ + csv_row(*window),
    {
        let title = Self::escape_csv_field(window.title.as_str());
        let class_name = Self::escape_csv_field(window.class_name.as_str());
        let process_name = Self::escape_csv_field(window.process_name.as_str());
        let file_path = Self::escape_csv_field(window.process_file.as_str());
        append_unsigned(out, window.index as u64);
        out.append(",");
        append_signed(out, window.hwnd as i64);
        out.append(",");
        append_unsigned(out, window.pid as u64);
        out.append(",");
        out.append(title.as_str());
        out.append(",");
        out.append(class_name.as_str());
        out.append(",");
        out.append(process_name.as_str());
        out.append(",");
        out.append(file_path.as_str());
        out.append(",");
        append_signed(out, window.position.x as i64);
        out.append(",");
        append_signed(out, window.position.y as i64);
        out.append(",");
        append_signed(out, window.position.width as i64);
        out.append(",");
        append_signed(out, window.position.height as i64);
        out.append("\n");
        assert(out@ =~= old(out)@ + csv_row(*window));
    }

    /// The CSV text of the records: the header line if configured, then one line per record.
    fn format_csv(windows: &[WindowInfo], config: &FormatConfig) -> (r: String)
        ensures
            r@ == csv_text(windows@, config.show_headers),
    {
        let mut out = String::new();
        if config.show_headers {
            Self::append_csv_header(&mut out);
        }
        let ghost head = out@;
        let ghost rows = Seq::new(windows@.len(), |i: int| csv_row(windows@[i]));
        let mut i: usize = 0;
        while i < windows.len()
            invariant
                i <= windows@.len(),
                rows == Seq::new(windows@.len(), |i: int| csv_row(windows@[i])),
                out@ == head + concat(rows.take(i as int)),
            decreases windows@.len() - i,
        {
            Self::append_csv_row(&mut out, &windows[i]);
            proof {
                lemma_concat_step(rows, i as int);
            }
            i = i + 1;
        }
        assert(rows.take(windows@.len() as int) =~= rows);
        out
    }

    /// The CSV text of one record: the header line if configured, then its line.
    fn format_csv_single(window: &WindowInfo, config: &FormatConfig) -> (r: String)
        ensures
            r@ == csv_text(seq![*window], config.show_headers),
    {
        let mut out = String::new();
        if config.show_headers {
            Self::append_csv_header(&mut out);
        }
        Self::append_csv_row(&mut out, window);
        proof {
            let rows = Seq::new(1, |i: int| csv_row(seq![*window][i]));
            lemma_concat_step(rows, 0);
            assert(rows.take(1) =~= rows);
        }
        out
    }

    /// Each record in the simple format, one per line.
    fn format_simple_list(windows: &[WindowInfo], config: &FormatConfig) -> (r: String)
        ensures
            r@ == join(record_lines(windows@, *config), "\n"@),
    {
        let ghost parts = record_lines(windows@, *config);
        let mut out = String::new();
        let mut i: usize = 0;
        while i < windows.len()
            invariant
                parts == record_lines(windows@, *config),
                i <= windows@.len(),
                out@ == join(parts.take(i as int), "\n"@),
            decreases windows@.len() - i,
        {
            if i > 0 {
                out.append("\n");
            }
            let line = Self::format_simple(&windows[i], config);
            out.append(line.as_str());
            proof {
                lemma_join_step(parts, "\n"@, i as int);
            }
            i = i + 1;
        }
        assert(parts.take(windows@.len() as int) =~= parts);
        out
    }

    /// Each record as its detail block, blocks separated by a newline.
    fn format_detail_list(windows: &[WindowInfo], config: &FormatConfig) -> (r: String)
        ensures
            r@ == join(detail_blocks(windows@), "\n"@),
    {
        let ghost parts = detail_blocks(windows@);
        let mut out = String::new();
        let mut i: usize = 0;
        while i < windows.len()
            invariant
                parts == detail_blocks(windows@),
                i <= windows@.len(),
                out@ == join(parts.take(i as int), "\n"@),
            decreases windows@.len() - i,
        {
            if i > 0 {
                out.append("\n");
            }
            let block = Self::format_detail(&windows[i], config);
            out.append(block.as_str());
            proof {
                lemma_join_step(parts, "\n"@, i as int);
            }
            i = i + 1;
        }
        assert(parts.take(windows@.len() as int) =~= parts);
        out
    }

    /// Each record in the custom format, one per line.
    fn format_custom_list(windows: &[WindowInfo], config: &FormatConfig) -> (r: String)
        ensures
            r@ == join(record_lines(windows@, *config), "\n"@),
    {
        let ghost parts = record_lines(windows@, *config);
        let mut out = String::new();
        let mut i: usize = 0;
        while i < windows.len()
            invariant
                parts == record_lines(windows@, *config),
                i <= windows@.len(),
                out@ == join(parts.take(i as int), "\n"@),
            decreases windows@.len() - i,
        {
            if i > 0 {
                out.append("\n");
            }
            let line = Self::format_custom(&windows[i], config);
            out.append(line.as_str());
            proof {
                lemma_join_step(parts, "\n"@, i as int);
            }
            i = i + 1;
        }
        assert(parts.take(windows@.len() as int) =~= parts);
        out
    }

    /// Format a single window according to the configuration. `document` is what the
    /// structured-document encoder made of the window (`None` where it failed); only the
    /// JSON and YAML formats read it.
    pub fn format_window(window: &WindowInfo, config: &FormatConfig, document: Option<String>) -> (r:
        String)
        ensures
            r@ == window_text(*window, *config, document),
    {
        match config.format {
            OutputFormat::Json | OutputFormat::JsonPretty => match document {
                Some(d) => d,
                None => String::from_str("{}"),
            },
            OutputFormat::Yaml => match document {
                Some(d) => d,
                None => String::from_str("---"),
            },
            OutputFormat::Simple => Self::format_simple(window, config),
            OutputFormat::Detail => Self::format_detail(window, config),
            OutputFormat::Table => Self::format_table_single(window, config),
            OutputFormat::Custom => Self::format_custom(window, config),
            OutputFormat::Csv => Self::format_csv_single(window, config),
        }
    }

    /// Format a list of windows according to the configuration. `document` is what the
    /// structured-document encoder made of the whole list (`None` where it failed); only
    /// the JSON and YAML formats read it.
    pub fn format_windows(windows: &[WindowInfo], config: &FormatConfig, document: Option<String>) -> (r:
        String)
        ensures
            r@ == list_text(windows@, *config, document),
    {
        if windows.len() == 0 {
            return String::from_str("No windows found");
        }
        match config.format {
            OutputFormat::Json | OutputFormat::JsonPretty => match document {
                Some(d) => d,
                None => String::from_str("[]"),
            },
            OutputFormat::Yaml => match document {
                Some(d) => d,
                None => String::from_str("---"),
            },
            OutputFormat::Simple => Self::format_simple_list(windows, config),
            OutputFormat::Detail => Self::format_detail_list(windows, config),
            OutputFormat::Table => Self::format_table(windows, config),
            OutputFormat::Custom => Self::format_custom_list(windows, config),
            OutputFormat::Csv => Self::format_csv(windows, config),
        }
    }
}

/// Formatting of a list of windows.
pub trait WindowListFormat {
    /// The records of the list, in order.
    spec fn records(&self) -> Seq<WindowInfo>;

    /// Format the windows according to the configuration; `document` is what the
    /// structured-document encoder made of the list.
    fn format_output(&self, config: &FormatConfig, document: Option<String>) -> (r: String)
        ensures
            r@ == list_text(self.records(), *config, document),
    ;

    /// Format the windows in `format` with the default settings.
    fn format_with(&self, format: OutputFormat, document: Option<String>) -> (r: String)
        ensures
            r@ == list_text(self.records(), config_for(format), document),
    ;
}

impl WindowListFormat for [WindowInfo] {
    open spec fn records(&self) -> Seq<WindowInfo> {
        self@
    }

    fn format_output(&self, config: &FormatConfig, document: Option<String>) -> (r: String) {
        WindowFormatter::format_windows(self, config, document)
    }

    fn format_with(&self, format: OutputFormat, document: Option<String>) -> (r: String) {
        let config = FormatConfig { format, ..FormatConfig::default() };
        self.format_output(&config, document)
    }
}

impl WindowListFormat for Vec<WindowInfo> {
    open spec fn records(&self) -> Seq<WindowInfo> {
        self@
    }

    fn format_output(&self, config: &FormatConfig, document: Option<String>) -> (r: String) {
        WindowFormatter::format_windows(self.as_slice(), config, document)
    }

    fn format_with(&self, format: OutputFormat, document: Option<String>) -> (r: String) {
        let config = FormatConfig { format, ..FormatConfig::default() };
        self.format_output(&config, document)
    }
}

} // verus!
