use courier::report::{base_name, ReportContent};

#[test]
fn valid_text_is_given_back_exactly() {
    let text = "<h1>报告 ok</h1>\n";
    let content = ReportContent::from_bytes(text.as_bytes().to_vec());
    assert_eq!(content.html_text(), text);
    assert_eq!(content.raw_bytes().as_slice(), text.as_bytes());
}

#[test]
fn invalid_bytes_are_replaced_not_refused() {
    let bytes = vec![b'a', 0xff, b'b', 0xc3];
    let content = ReportContent::from_bytes(bytes.clone());
    assert_eq!(content.html_text(), "a\u{fffd}b\u{fffd}");
    assert_eq!(content.raw_bytes(), &bytes);
}

#[test]
fn empty_content_has_neither_bytes_nor_text() {
    let content = ReportContent::empty();
    assert!(content.raw_bytes().is_empty());
    assert_eq!(content.html_text(), "");
}

#[test]
fn unread_report_becomes_empty_content() {
    let content = ReportContent::from_read(None);
    assert!(content.raw_bytes().is_empty());
    assert_eq!(content.html_text(), "");
}

#[test]
fn read_report_keeps_its_bytes() {
    let content = ReportContent::from_read(Some(b"<h1>ok</h1>".to_vec()));
    assert_eq!(content.raw_bytes().as_slice(), b"<h1>ok</h1>");
    assert_eq!(content.html_text(), "<h1>ok</h1>");
}

#[test]
fn base_name_is_what_follows_the_last_slash() {
    assert_eq!(base_name("report.html"), "report.html");
    assert_eq!(base_name("out/report.html"), "report.html");
    assert_eq!(base_name("/var/tmp/out/report.html"), "report.html");
    assert_eq!(base_name("./报告.html"), "报告.html");
}

#[test]
fn base_name_at_the_edges() {
    assert_eq!(base_name(""), "");
    assert_eq!(base_name("out/"), "");
    assert_eq!(base_name("/"), "");
    assert_eq!(base_name("a//b"), "b");
}
