use nomad_server::html::{html_escape, relay_list_html};

#[test]
fn escapes_the_five_characters() {
    assert_eq!(html_escape("a&b<c>d\"e'f"), "a&amp;b&lt;c&gt;d&quot;e&#x27;f");
}

#[test]
fn escapes_an_ampersand_once() {
    assert_eq!(html_escape("&amp;"), "&amp;amp;");
    assert_eq!(html_escape("<&>"), "&lt;&amp;&gt;");
}

#[test]
fn leaves_other_text_alone() {
    assert_eq!(html_escape("wss://relay.example/path?x=1"), "wss://relay.example/path?x=1");
    assert_eq!(html_escape(""), "");
    assert_eq!(html_escape("ünï✓"), "ünï✓");
}

#[test]
fn escape_of_a_concatenation_is_the_concatenation_of_escapes() {
    let a = "x<y";
    let b = "\"z\" & 'w'";
    let whole = format!("{}{}", a, b);
    assert_eq!(html_escape(&whole), format!("{}{}", html_escape(a), html_escape(b)));
}

#[test]
fn relay_list_items() {
    assert_eq!(relay_list_html(&vec![]), "");
    assert_eq!(relay_list_html(&vec!["wss://a".to_string()]), "<li>wss://a</li>");
    assert_eq!(
        relay_list_html(&vec!["wss://a".to_string(), "wss://b?x=1&y=<2>".to_string(), "c".to_string()]),
        "<li>wss://a</li>\n    <li>wss://b?x=1&amp;y=&lt;2&gt;</li>\n    <li>c</li>"
    );
}
