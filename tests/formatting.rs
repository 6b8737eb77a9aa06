use window_enumerator_formatter::prelude;
use window_enumerator_formatter::{
    FormatConfig, OutputFormat, TemplateFormat, WindowFormatter, WindowInfo, WindowListFormat,
    WindowPosition,
};

fn sample() -> WindowInfo {
    WindowInfo::builder()
        .hwnd(0x1001)
        .pid(1234)
        .title("Test".to_string())
        .class_name("TestClass".to_string())
        .process_name("t.exe".to_string())
        .process_file("C:\\t.exe".to_string())
        .index(1)
        .position(WindowPosition { x: 10, y: 20, width: 800, height: 600 })
        .build()
}

fn with_title(title: &str) -> WindowInfo {
    let mut w = sample();
    w.title = title.to_string();
    w
}

fn config(format: OutputFormat) -> FormatConfig {
    FormatConfig { format, template: None, show_headers: true, max_title_length: None }
}

fn names(list: &[&str]) -> Vec<String> {
    list.iter().map(|s| s.to_string()).collect()
}

#[test]
fn empty_list_gives_sentinel() {
    let none: Vec<WindowInfo> = Vec::new();
    for format in [
        OutputFormat::Json,
        OutputFormat::JsonPretty,
        OutputFormat::Csv,
        OutputFormat::Yaml,
        OutputFormat::Simple,
        OutputFormat::Detail,
        OutputFormat::Table,
        OutputFormat::Custom,
    ] {
        assert_eq!(WindowFormatter::format_windows(&none, &config(format), None), "No windows found");
    }
}

#[test]
fn every_format_non_empty() {
    let ws = vec![sample()];
    for format in [
        OutputFormat::Json,
        OutputFormat::JsonPretty,
        OutputFormat::Csv,
        OutputFormat::Yaml,
        OutputFormat::Simple,
        OutputFormat::Detail,
        OutputFormat::Table,
        OutputFormat::Custom,
    ] {
        assert!(!WindowFormatter::format_windows(&ws, &config(format), None).is_empty());
    }
}

#[test]
fn structured_fallbacks_and_document() {
    let w = sample();
    let ws = vec![sample()];
    assert_eq!(WindowFormatter::format_window(&w, &config(OutputFormat::Json), None), "{}");
    assert_eq!(WindowFormatter::format_window(&w, &config(OutputFormat::Yaml), None), "---");
    assert_eq!(WindowFormatter::format_windows(&ws, &config(OutputFormat::JsonPretty), None), "[]");
    assert_eq!(WindowFormatter::format_windows(&ws, &config(OutputFormat::Yaml), None), "---");
    let doc = "[{\"pid\":1234}]".to_string();
    assert_eq!(
        WindowFormatter::format_windows(&ws, &config(OutputFormat::Json), Some(doc.clone())),
        doc
    );
}

#[test]
fn pid_resolves_to_decimal() {
    let w = sample();
    assert_eq!(WindowFormatter::get_field_value(&w, "pid"), "1234");
    let mut z = sample();
    z.pid = 0;
    assert_eq!(WindowFormatter::get_field_value(&z, "pid"), "0");
    z.pid = u32::MAX;
    assert_eq!(WindowFormatter::get_field_value(&z, "pid"), "4294967295");
}

#[test]
fn hwnd_resolves_to_hex() {
    let mut w = sample();
    assert_eq!(WindowFormatter::get_field_value(&w, "hwnd"), "0x1001");
    w.hwnd = 0;
    assert_eq!(WindowFormatter::get_field_value(&w, "hwnd"), "0x0");
    w.hwnd = 0xABCDEF;
    assert_eq!(WindowFormatter::get_field_value(&w, "hwnd"), "0xabcdef");
    w.hwnd = -1;
    assert_eq!(WindowFormatter::get_field_value(&w, "hwnd"), format!("0x{:x}", -1isize));
}

#[test]
fn field_names_ignore_case() {
    let w = sample();
    let a = WindowFormatter::get_field_value(&w, "PID");
    let b = WindowFormatter::get_field_value(&w, "pid");
    let c = WindowFormatter::get_field_value(&w, "Pid");
    assert_eq!(a, b);
    assert_eq!(b, c);
    assert_eq!(WindowFormatter::get_field_value(&w, "TiTlE"), "Test");
}

#[test]
fn all_fields_resolve() {
    let mut w = sample();
    w.position = WindowPosition { x: -5, y: 7, width: 0, height: -3 };
    assert_eq!(WindowFormatter::get_field_value(&w, "index"), "1");
    assert_eq!(WindowFormatter::get_field_value(&w, "class"), "TestClass");
    assert_eq!(WindowFormatter::get_field_value(&w, "process"), "t.exe");
    assert_eq!(WindowFormatter::get_field_value(&w, "file"), "C:\\t.exe");
    assert_eq!(WindowFormatter::get_field_value(&w, "x"), "-5");
    assert_eq!(WindowFormatter::get_field_value(&w, "y"), "7");
    assert_eq!(WindowFormatter::get_field_value(&w, "width"), "0");
    assert_eq!(WindowFormatter::get_field_value(&w, "height"), "-3");
}

#[test]
fn unknown_field_marker() {
    let w = sample();
    assert_eq!(WindowFormatter::get_field_value(&w, "bogus"), "[unknown field: bogus]");
    let other = WindowInfo::builder().build();
    assert_eq!(WindowFormatter::get_field_value(&other, "bogus"), "[unknown field: bogus]");
    assert_eq!(WindowFormatter::get_field_value(&w, "BoGus"), "[unknown field: BoGus]");
}

#[test]
fn truncation_law() {
    let t = WindowFormatter::truncate_title("Hello World", Some(8));
    assert_eq!(t, "Hello...");
    assert_eq!(t.chars().count(), 8);
    assert_eq!(WindowFormatter::truncate_title("Hello", Some(5)), "Hello");
    assert_eq!(WindowFormatter::truncate_title("Hello", Some(50)), "Hello");
    assert_eq!(WindowFormatter::truncate_title("Hello World", None), "Hello World");
    assert_eq!(WindowFormatter::truncate_title("Hello", Some(3)), "...");
}

#[test]
fn truncation_counts_characters() {
    let t = WindowFormatter::truncate_title("héllo wörld", Some(6));
    assert_eq!(t, "hél...");
    assert_eq!(WindowFormatter::truncate_title("日本語のタイトル", Some(7)), "日本語の...");
}

#[test]
fn truncation_below_marker_length() {
    assert_eq!(WindowFormatter::truncate_title("Hello", Some(2)), "He");
    assert_eq!(WindowFormatter::truncate_title("Hello", Some(0)), "");
}

#[test]
fn csv_escaping() {
    assert_eq!(WindowFormatter::escape_csv_field("a,b"), "\"a,b\"");
    assert_eq!(WindowFormatter::escape_csv_field("say \"hi\""), "\"say \"\"hi\"\"\"");
    assert_eq!(WindowFormatter::escape_csv_field("line\nbreak"), "\"line\nbreak\"");
    assert_eq!(WindowFormatter::escape_csv_field("plain"), "plain");
    assert_eq!(WindowFormatter::escape_csv_field(""), "");
}

#[test]
fn csv_rows() {
    let ws = vec![with_title("a,b")];
    let out = WindowFormatter::format_windows(&ws, &config(OutputFormat::Csv), None);
    assert_eq!(
        out,
        "Index,Handle,PID,Title,Class,Process,File,X,Y,Width,Height\n\
         1,4097,1234,\"a,b\",TestClass,t.exe,C:\\t.exe,10,20,800,600\n"
    );
    let mut cfg = config(OutputFormat::Csv);
    cfg.show_headers = false;
    let out = WindowFormatter::format_windows(&vec![sample()], &cfg, None);
    assert_eq!(out, "1,4097,1234,Test,TestClass,t.exe,C:\\t.exe,10,20,800,600\n");
}

#[test]
fn table_rows() {
    let ws = vec![sample()];
    let out = WindowFormatter::format_windows(&ws, &config(OutputFormat::Table), None);
    assert_eq!(
        out,
        "Index  Handle       PID      Position     Title\n\
         ------ ------------ -------- ------------ ------------------------------\n\
         1      0x1001       1234       10,20      Test\n"
    );
}

#[test]
fn table_columns_stable() {
    let ws = vec![with_title("x"), with_title("a much longer window title")];
    let mut cfg = config(OutputFormat::Table);
    cfg.show_headers = false;
    let out = WindowFormatter::format_windows(&ws, &cfg, None);
    let rows: Vec<&str> = out.lines().collect();
    assert_eq!(rows.len(), 2);
    assert_eq!(rows[0][..42], rows[1][..42]);
    assert_eq!(&rows[0][42..], "x");
    assert_eq!(&rows[1][42..], "a much longer window title");
}

#[test]
fn table_truncates_title() {
    let ws = vec![with_title("Hello World")];
    let mut cfg = config(OutputFormat::Table);
    cfg.show_headers = false;
    cfg.max_title_length = Some(8);
    let out = WindowFormatter::format_windows(&ws, &cfg, None);
    assert_eq!(out, "1      0x1001       1234       10,20      Hello...\n");
}

#[test]
fn template_field_list() {
    let w = sample();
    let t = TemplateFormat::Fields(names(&["index", "pid", "title", "process"]));
    assert_eq!(WindowFormatter::apply_template(&w, &t), "1\t1234\tTest\tt.exe");
}

#[test]
fn template_key_value() {
    let w = sample();
    let t = TemplateFormat::KeyValue(names(&["pid", "title", "nope"]));
    assert_eq!(
        WindowFormatter::apply_template(&w, &t),
        "pid: 1234 | title: Test | nope: [unknown field: nope]"
    );
}

#[test]
fn template_free_form() {
    let w = sample();
    let t = TemplateFormat::Custom("Window[{index}] PID:{pid}".to_string());
    assert_eq!(WindowFormatter::apply_template(&w, &t), "Window[1] PID:1234");
    let t = TemplateFormat::Custom("Window[{index}] PID:{pid} {foo}".to_string());
    assert_eq!(WindowFormatter::apply_template(&w, &t), "Window[1] PID:1234 {foo}");
}

#[test]
fn template_free_form_not_rescanned() {
    let w = with_title("{pid}");
    let t = TemplateFormat::Custom("{title}|{hwnd}|{x},{y} {width}x{height} {class} {file}".to_string());
    assert_eq!(
        WindowFormatter::apply_template(&w, &t),
        "{pid}|0x1001|10,20 800x600 TestClass C:\\t.exe"
    );
}

#[test]
fn detail_block() {
    let w = sample();
    let out = WindowFormatter::format_window(&w, &config(OutputFormat::Detail), None);
    assert!(out.lines().any(|l| l == "Handle: 0x1001"));
    assert_eq!(
        out,
        format!(
            "Index: 1\nHandle: 0x1001\nPID: 1234\nTitle: Test\nClass: TestClass\n\
             Process: t.exe\nFile: C:\\t.exe\nPosition: (10, 20) Size: 800x600\n{}",
            "-".repeat(40)
        )
    );
}

#[test]
fn simple_lines() {
    let ws = vec![sample(), with_title("Other")];
    let out = WindowFormatter::format_windows(&ws, &config(OutputFormat::Simple), None);
    assert_eq!(out, "[1] Test (PID: 1234) @ (10,20)\n[1] Other (PID: 1234) @ (10,20)");
}

#[test]
fn simple_defers_to_template() {
    let w = sample();
    let mut cfg = config(OutputFormat::Simple);
    cfg.template = Some(TemplateFormat::Fields(names(&["pid"])));
    assert_eq!(WindowFormatter::format_window(&w, &cfg, None), "1234");
}

#[test]
fn custom_without_template_is_simple() {
    let w = sample();
    assert_eq!(
        WindowFormatter::format_window(&w, &config(OutputFormat::Custom), None),
        "[1] Test (PID: 1234) @ (10,20)"
    );
}

#[test]
fn single_record_defaults() {
    let w = with_title("A title that is clearly longer than fifty characters in total");
    let out = w.format_with(OutputFormat::Table, None);
    let row = out.lines().nth(2).unwrap();
    assert_eq!(row.chars().count() - 42, 50);
    assert!(row.ends_with("..."));
    let csv = w.format_with(OutputFormat::Csv, None);
    assert!(csv.starts_with("Index,Handle,PID,Title,Class,Process,File,X,Y,Width,Height\n"));
}

#[test]
fn list_trait_forms() {
    let ws = vec![sample()];
    assert_eq!(ws.format_with(OutputFormat::Simple, None), "[1] Test (PID: 1234) @ (10,20)");
    let slice: &[WindowInfo] = &ws;
    assert_eq!(slice.format_output(&config(OutputFormat::Simple), None), "[1] Test (PID: 1234) @ (10,20)");
}

#[test]
fn builder_defaults() {
    let w = WindowInfo::builder().build();
    assert_eq!(w.hwnd, 0);
    assert_eq!(w.pid, 0);
    assert_eq!(w.title, "");
    assert_eq!(w.process_file, "");
    assert_eq!(w.index, 0);
    assert_eq!(w.position, WindowPosition::default());
}

#[test]
fn default_config() {
    let c = FormatConfig::default();
    assert_eq!(c.format, OutputFormat::Table);
    assert!(c.template.is_none());
    assert!(c.show_headers);
    assert_eq!(c.max_title_length, Some(50));
}

#[test]
fn template_free_form_inserted_values_kept() {
    let w = WindowInfo::builder()
        .title("{class}".to_string())
        .class_name("C".to_string())
        .build();
    let t = TemplateFormat::Custom("{title}/{class}".to_string());
    assert_eq!(WindowFormatter::apply_template(&w, &t), "{class}/C");
    let t = TemplateFormat::Custom("{{pid}} {pid {nope} }{".to_string());
    assert_eq!(WindowFormatter::apply_template(&w, &t), "{0} {pid {nope} }{");
}

#[test]
fn single_record_table_follows_config() {
    let w = with_title("Hello World");
    let mut cfg = config(OutputFormat::Table);
    cfg.show_headers = false;
    cfg.max_title_length = Some(8);
    let one = WindowFormatter::format_window(&w, &cfg, None);
    assert_eq!(one, "1      0x1001       1234       10,20      Hello...\n");
    assert_eq!(one, WindowFormatter::format_windows(&[w.clone()], &cfg, None));
    assert_eq!(one, WindowFormatter::format_table(&[w], &cfg));
}

#[test]
fn single_record_csv_follows_config() {
    let w = sample();
    let mut cfg = config(OutputFormat::Csv);
    cfg.show_headers = false;
    let one = w.format(&cfg, None);
    assert_eq!(one, "1,4097,1234,Test,TestClass,t.exe,C:\\t.exe,10,20,800,600\n");
    assert_eq!(one, WindowFormatter::format_windows(&[w.clone()], &cfg, None));
    cfg.show_headers = true;
    assert!(w.format(&cfg, None).starts_with("Index,Handle,PID,Title,Class,Process,File,X,Y,Width,Height\n"));
}

#[test]
fn prelude_items() {
    let w = prelude::WindowInfo::builder().pid(7).build();
    assert_eq!(w.format_with(prelude::OutputFormat::Simple, None), "[0]  (PID: 7) @ (0,0)");
}
