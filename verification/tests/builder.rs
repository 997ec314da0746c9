use prololo::message_builder::MessageBuilder;

#[test]
fn html_escape() {
    let mut msgbld = MessageBuilder::new();

    msgbld.color("#ff0000");
    msgbld.bold();
    msgbld.write_str("These should be escaped: < > & \" '");
    msgbld.close_styles();

    assert_eq!(msgbld.html, "<span style=\"color: #ff0000\"><b>These should be escaped: &lt; &gt; &amp; &quot; &#39;</b></span>");
    assert_eq!(msgbld.plain, "These should be escaped: < > & \" '");
}

#[test]
fn test_append_main_url() {
    let mut msgbld = MessageBuilder::new();

    let url = url::Url::parse("https://prologin.org").unwrap();
    msgbld.main_link("test", url.as_str());

    let content = msgbld.build();
    assert_eq!(content.plain, "test ⋅ https://prologin.org/");
    assert_eq!(content.html, r#"<a href="https://prologin.org/">test</a>"#);
}

#[test]
fn code_and_tag_spans() {
    let mut msgbld = MessageBuilder::new();
    msgbld.tag("alerts", Some("📦"));
    msgbld.write_str(" body");
    msgbld.code();
    msgbld.write_str("x < 1");
    msgbld.close_last();

    assert_eq!(msgbld.plain, "[📦 alerts] bodyx < 1");
    assert_eq!(msgbld.html, "<b>[📦 alerts]</b> body<code>x &lt; 1</code>");
    assert!(msgbld.url.is_none());
}

#[test]
fn last_main_link_wins() {
    let mut msgbld = MessageBuilder::new();
    msgbld.main_link("one", "https://one.example/");
    msgbld.main_link("two", "https://two.example/");

    assert_eq!(msgbld.url.as_deref(), Some("https://two.example/"));
    let content = msgbld.build();
    assert_eq!(content.plain, "onetwo ⋅ https://two.example/");
}

#[test]
fn build_without_primary_link_appends_nothing() {
    let mut msgbld = MessageBuilder::new();
    msgbld.write_str("hello");
    msgbld.link("inline", "https://example.org/");
    let content = msgbld.build();
    assert_eq!(content.plain, "helloinline");
    assert_eq!(content.html, r#"hello<a href="https://example.org/">inline</a>"#);
}
