use docx_core::documents::elements::RunFonts;
use docx_core::documents::BuildXML;
use std::str;

#[test]
fn test_run_fonts_east_asia_build() {
    let c = RunFonts::new().east_asia("Hiragino");
    let b = c.build();
    assert_eq!(
        str::from_utf8(&b).unwrap(),
        r#"<w:rFonts w:eastAsia="Hiragino" />"#
    );
}

#[test]
fn test_run_fonts_ascii_build() {
    let c = RunFonts::new().ascii("Arial");
    let b = c.build();
    assert_eq!(str::from_utf8(&b).unwrap(), r#"<w:rFonts w:ascii="Arial" />"#);
}

#[test]
fn test_run_fonts_hi_ansi_build() {
    let c = RunFonts::new().hi_ansi("Arial");
    let b = c.build();
    assert_eq!(str::from_utf8(&b).unwrap(), r#"<w:rFonts w:hAnsi="Arial" />"#);
}

#[test]
fn test_run_fonts_cs_build() {
    let c = RunFonts::new().cs("Arial");
    let b = c.build();
    assert_eq!(str::from_utf8(&b).unwrap(), r#"<w:rFonts w:cs="Arial" />"#);
}

#[test]
fn test_run_fonts_empty_build() {
    let c = RunFonts::new();
    let b = c.build();
    assert_eq!(str::from_utf8(&b).unwrap(), r#"<w:rFonts />"#);
}

#[test]
fn test_run_fonts_one_attribute_per_set_field() {
    let c = RunFonts::new().ascii("Arial").cs("Courier");
    let b = c.build();
    assert_eq!(
        str::from_utf8(&b).unwrap(),
        r#"<w:rFonts w:ascii="Arial" w:cs="Courier" />"#
    );
}

#[test]
fn test_run_fonts_all_slots_build() {
    let c = RunFonts::new()
        .ascii("Arial")
        .hi_ansi("Calibri")
        .east_asia("Hiragino")
        .cs("Courier");
    let b = c.build();
    assert_eq!(
        str::from_utf8(&b).unwrap(),
        r#"<w:rFonts w:ascii="Arial" w:hAnsi="Calibri" w:cs="Courier" w:eastAsia="Hiragino" />"#
    );
}

#[test]
fn test_run_fonts_setter_order_does_not_change_output() {
    let first = RunFonts::new().ascii("Arial").cs("Courier").build();
    let second = RunFonts::new().cs("Courier").ascii("Arial").build();
    assert_eq!(first, second);
}

#[test]
fn test_run_fonts_escapes_attribute_value() {
    let c = RunFonts::new().east_asia(r#"Fo<o> & "Bar""#);
    let b = c.build();
    assert_eq!(
        str::from_utf8(&b).unwrap(),
        r#"<w:rFonts w:eastAsia="Fo&lt;o&gt; &amp; &quot;Bar&quot;" />"#
    );
}

#[test]
fn test_run_fonts_build_twice_identical() {
    let c = RunFonts::new().ascii("Arial").east_asia("Hiragino");
    let b1 = c.build();
    let b2 = c.build();
    assert_eq!(b1, b2);
}
