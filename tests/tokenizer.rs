use gosub_html5::error_logger::{ErrorLogger, ParseError};
use gosub_html5::location::Location;
use gosub_html5::state::State;
use gosub_html5::stream::{Character, InputStream};
use gosub_html5::token::Token;
use gosub_html5::tokenizer::{Options, ParserData, Tokenizer, HTML_NAMESPACE};

fn tokenizer_for(input: &str, state: State, last: &str) -> Tokenizer {
    let chars: Vec<Character> = input.chars().map(Character::Ch).collect();
    let stream = InputStream::new(&chars);
    let opts = Options { initial_state: state, last_start_tag: last.to_string() };
    Tokenizer::new(stream, Some(opts), ErrorLogger::new(), Location::new(1, 1, 0))
}

fn run(t: &mut Tokenizer, namespace: &str) -> Vec<Token> {
    let mut out = Vec::new();
    loop {
        let tok = t.next_token(ParserData { adjusted_node_namespace: namespace.to_string() });
        let end = matches!(tok, Token::Eof { .. });
        out.push(tok);
        if end || out.len() > 10_000 {
            break;
        }
    }
    out
}

fn tokenize_in(input: &str, state: State, last: &str) -> (Vec<Token>, Vec<ParseError>) {
    let mut t = tokenizer_for(input, state, last);
    let tokens = run(&mut t, HTML_NAMESPACE);
    let errors = t.get_error_logger().get_errors();
    (tokens, errors)
}

fn tokenize(input: &str) -> (Vec<Token>, Vec<ParseError>) {
    tokenize_in(input, State::Data, "")
}

/// A location-free rendering of a token.
fn shape(t: &Token) -> String {
    match t {
        Token::DocType { name, force_quirks, pub_identifier, sys_identifier, .. } => format!(
            "DocType({:?},{:?},{:?},{})",
            name, pub_identifier, sys_identifier, force_quirks
        ),
        Token::StartTag { name, is_self_closing, attributes, .. } => {
            let attrs: Vec<String> =
                attributes.iter().map(|(k, v)| format!("{}={}", k, v)).collect();
            format!("StartTag({},[{}],{})", name, attrs.join(" "), is_self_closing)
        }
        Token::EndTag { name, .. } => format!("EndTag({})", name),
        Token::Comment { comment, .. } => format!("Comment({})", comment),
        Token::Text { text, .. } => format!("Text({})", text),
        Token::Eof { .. } => "Eof".to_string(),
    }
}

fn shapes(tokens: &[Token]) -> Vec<String> {
    tokens.iter().map(shape).collect()
}

fn codes(errors: &[ParseError]) -> Vec<String> {
    errors.iter().map(|e| e.message.clone()).collect()
}

fn check(input: &str, expected: &[&str], expected_errors: &[&str]) {
    let (tokens, errors) = tokenize(input);
    assert_eq!(shapes(&tokens), expected, "tokens of {:?}", input);
    assert_eq!(codes(&errors), expected_errors, "errors of {:?}", input);
}

#[test]
fn test_tokenization() {
    check("<p>Hi</p>", &["StartTag(p,[],false)", "Text(Hi)", "EndTag(p)", "Eof"], &[]);
    check("<br/>", &["StartTag(br,[],true)", "Eof"], &[]);
    check("a &lt; b", &["Text(a < b)", "Eof"], &[]);
    check("<!---->", &["Comment()", "Eof"], &[]);
    check("<!-->", &["Comment()", "Eof"], &["abrupt-closing-of-empty-comment"]);
    check("</>", &["Eof"], &["missing-end-tag-name"]);
    check("<?x>", &["Comment(?x)", "Eof"], &["unexpected-question-mark-instead-of-tag-name"]);
    check("< a", &["Text(< a)", "Eof"], &["invalid-first-character-of-tag-name"]);
    check(
        "<!DOCTYPE html PUBLIC \"-//W3C//DTD HTML 4.01//EN\" \"http://www.w3.org/TR/html4/strict.dtd\">",
        &["DocType(Some(\"html\"),Some(\"-//W3C//DTD HTML 4.01//EN\"),Some(\"http://www.w3.org/TR/html4/strict.dtd\"),false)", "Eof"],
        &[],
    );
    check("</p a=b>", &["EndTag(p)", "Eof"], &["end-tag-with-attributes"]);
    check("</p/>", &["EndTag(p)", "Eof"], &["end-tag-with-trailing-solidus"]);
    check("<p a=\"1\"b>", &["StartTag(p,[a=1 b=],false)", "Eof"], &["missing-whitespace-between-attributes"]);
}

#[test]
fn simple_paragraph() {
    check("<p>Hi</p>", &["StartTag(p,[],false)", "Text(Hi)", "EndTag(p)", "Eof"], &[]);
}

#[test]
fn attributes_unquoted_and_empty() {
    check(
        "<p class=foo disabled>x</p>",
        &["StartTag(p,[class=foo disabled=],false)", "Text(x)", "EndTag(p)", "Eof"],
        &[],
    );
}

#[test]
fn comment_with_inner_dashes() {
    // `--` followed by other text goes back into the comment data and is reported where
    // the inner `--` starts
    let (tokens, errors) = tokenize("<!-- a -- b -->");
    assert_eq!(shapes(&tokens), ["Comment( a -- b )", "Eof"]);
    assert_eq!(codes(&errors), ["nested-comment"]);
    assert_eq!(errors[0].location, Location::new(1, 8, 7));
}

#[test]
fn nested_comment_is_reported() {
    let (tokens, errors) = tokenize("<!-- <!-- x -->");
    assert_eq!(shapes(&tokens), ["Comment( <!-- x )", "Eof"]);
    assert_eq!(codes(&errors), ["nested-comment"]);
}

#[test]
fn doctype_html() {
    check("<!DOCTYPE html>", &["DocType(Some(\"html\"),None,None,false)", "Eof"], &[]);
    check("<!doctype HTML>", &["DocType(Some(\"html\"),None,None,false)", "Eof"], &[]);
}

#[test]
fn character_reference_in_attribute() {
    check(
        "<a href=\"x?a=1&amp;b=2\">L</a>",
        &["StartTag(a,[href=x?a=1&b=2],false)", "Text(L)", "EndTag(a)", "Eof"],
        &[],
    );
}

#[test]
fn legacy_reference_in_attribute_is_kept() {
    check("<a href=\"?x=1&copy=2\">", &["StartTag(a,[href=?x=1&copy=2],false)", "Eof"], &[]);
    check("&copy=2", &["Text(©=2)", "Eof"], &["missing-semicolon-after-character-reference"]);
}

#[test]
fn unknown_named_reference() {
    check("&bogus;", &["Text(&bogus;)", "Eof"], &["unknown-named-character-reference"]);
    check("&bogus", &["Text(&bogus)", "Eof"], &[]);
    check("a & b", &["Text(a & b)", "Eof"], &[]);
}

#[test]
fn numeric_references() {
    check("&#x41;&#66;", &["Text(AB)", "Eof"], &[]);
    check("&#0;", &["Text(\u{FFFD})", "Eof"], &["null-character-reference"]);
    check("&#128;", &["Text(\u{20AC})", "Eof"], &["control-character-reference"]);
    check("&#x110000;", &["Text(\u{FFFD})", "Eof"], &["character-reference-outside-unicode-range"]);
    check("&#xD800;", &["Text(\u{FFFD})", "Eof"], &["surrogate-character-reference"]);
    check("&#65", &["Text(A)", "Eof"], &["missing-semicolon-after-character-reference"]);
    check("&#;", &["Text(&#;)", "Eof"], &["absence-of-digits-in-numeric-character-reference"]);
}

#[test]
fn script_data_end_tag() {
    let (tokens, errors) = tokenize_in("a<b</script>c", State::ScriptData, "script");
    assert_eq!(shapes(&tokens), ["Text(a<b)", "EndTag(script)", "Text(c)", "Eof"]);
    assert!(errors.is_empty());
}

#[test]
fn script_data_other_end_tag_is_text() {
    let (tokens, _) = tokenize_in("x</style>y", State::ScriptData, "script");
    assert_eq!(shapes(&tokens), ["Text(x</style>y)", "Eof"]);
}

#[test]
fn rcdata_end_tag_keeps_buffer_case() {
    let (tokens, _) = tokenize_in("a</TITLEx", State::RCDATA, "title");
    assert_eq!(shapes(&tokens), ["Text(a</TITLEx)", "Eof"]);
    let (tokens, _) = tokenize_in("a</TITLE>", State::RCDATA, "title");
    assert_eq!(shapes(&tokens), ["Text(a)", "EndTag(title)", "Eof"]);
}

#[test]
fn rawtext_and_plaintext() {
    let (tokens, _) = tokenize_in("<b>&amp;</xmp>", State::RAWTEXT, "xmp");
    assert_eq!(shapes(&tokens), ["Text(<b>&amp;)", "EndTag(xmp)", "Eof"]);
    let (tokens, _) = tokenize_in("<b></plaintext>", State::PLAINTEXT, "plaintext");
    assert_eq!(shapes(&tokens), ["Text(<b></plaintext>)", "Eof"]);
}

#[test]
fn double_escaped_script() {
    let (tokens, errors) =
        tokenize_in("<!--<script>x</script>-->y</script>", State::ScriptData, "script");
    assert_eq!(shapes(&tokens), ["Text(<!--<script>x</script>-->y)", "EndTag(script)", "Eof"]);
    assert!(errors.is_empty());
}

#[test]
fn start_tag_at_end_of_input() {
    check("<p>", &["StartTag(p,[],false)", "Eof"], &[]);
}

#[test]
fn lone_less_than_sign() {
    let (tokens, errors) = tokenize("<");
    assert_eq!(shapes(&tokens), ["Text(<)", "Eof"]);
    assert_eq!(codes(&errors), ["eof-before-tag-name"]);
    assert_eq!(errors[0].location, Location::new(1, 1, 0));
}

#[test]
fn text_tokens_are_non_empty_and_separated() {
    let (tokens, _) = tokenize("a<b>c<!--d-->e</b>f");
    for (i, t) in tokens.iter().enumerate() {
        if let Token::Text { text, .. } = t {
            assert!(!text.is_empty());
            assert!(!matches!(tokens[i + 1], Token::Text { .. }));
        }
    }
    assert_eq!(
        shapes(&tokens),
        ["Text(a)", "StartTag(b,[],false)", "Text(c)", "Comment(d)", "Text(e)", "EndTag(b)", "Text(f)", "Eof"]
    );
}

#[test]
fn duplicate_attributes_are_dropped() {
    let (tokens, errors) = tokenize("<p a=1 A=2 b a=3>");
    assert_eq!(shapes(&tokens), ["StartTag(p,[a=1 b=],false)", "Eof"]);
    assert_eq!(codes(&errors), ["duplicate-attribute", "duplicate-attribute"]);
    assert_eq!(errors[0].location.column, 9);
    assert_eq!(errors[1].location.column, 15);
}

#[test]
fn tag_and_attribute_names_are_lowercased() {
    let (tokens, _) = tokenize("<DiV CLASS=X></DIV>");
    assert_eq!(shapes(&tokens), ["StartTag(div,[class=X],false)", "EndTag(div)", "Eof"]);
}

#[test]
fn eof_is_repeated_at_same_location() {
    let mut t = tokenizer_for("ab\ncd", State::Data, "");
    let tokens = run(&mut t, HTML_NAMESPACE);
    let first = match tokens.last() {
        Some(Token::Eof { location }) => *location,
        _ => panic!("no eof"),
    };
    assert_eq!(first, Location::new(2, 3, 5));
    for _ in 0..3 {
        match t.next_token(ParserData::default()) {
            Token::Eof { location } => assert_eq!(location, first),
            other => panic!("unexpected {:?}", other),
        }
    }
}

#[test]
fn pushed_tokens_come_first() {
    let mut t = tokenizer_for("<p>x", State::Data, "");
    let loc = Location::new(9, 9, 9);
    let pushed = vec![
        Token::Comment { comment: "one".to_string(), location: loc },
        Token::EndTag { name: "Two".to_string(), is_self_closing: false, location: loc },
    ];
    t.insert_tokens_at_queue_start(pushed.clone());
    assert_eq!(t.next_token(ParserData::default()), pushed[0]);
    assert_eq!(t.next_token(ParserData::default()), pushed[1]);
    let rest = run(&mut t, HTML_NAMESPACE);
    assert_eq!(shapes(&rest), ["StartTag(p,[],false)", "Text(x)", "Eof"]);
}

#[test]
fn eof_inside_markup() {
    check("<p", &["Eof"], &["eof-in-tag"]);
    check("<p a", &["Eof"], &["eof-in-tag"]);
    check("<p a=", &["Eof"], &["eof-in-tag"]);
    check("<p a=\"x", &["Eof"], &["eof-in-tag"]);
    check("<p a='x", &["Eof"], &["eof-in-tag"]);
    check("<p a=x", &["Eof"], &["eof-in-tag"]);
    check("<p/", &["Eof"], &["eof-in-tag"]);
    check("</", &["Text(</)", "Eof"], &["eof-before-tag-name"]);
    check("<!--", &["Comment()", "Eof"], &["eof-in-comment"]);
    check("<!-- x", &["Comment( x)", "Eof"], &["eof-in-comment"]);
    check("<!-- x -", &["Comment( x )", "Eof"], &["eof-in-comment"]);
    check("<!-- x --", &["Comment( x )", "Eof"], &["eof-in-comment"]);
    check("<!-- x --!", &["Comment( x )", "Eof"], &["eof-in-comment"]);
    check("<!DOCTYPE", &["DocType(None,None,None,true)", "Eof"], &["eof-in-doctype"]);
    check("<!DOCTYPE ", &["DocType(None,None,None,true)", "Eof"], &["eof-in-doctype"]);
    check("<!DOCTYPE html", &["DocType(Some(\"html\"),None,None,true)", "Eof"], &["eof-in-doctype"]);
    check(
        "<!DOCTYPE html PUBLIC \"x",
        &["DocType(Some(\"html\"),Some(\"x\"),None,true)", "Eof"],
        &["eof-in-doctype"],
    );
    check(
        "<!DOCTYPE html SYSTEM 'y",
        &["DocType(Some(\"html\"),None,Some(\"y\"),true)", "Eof"],
        &["eof-in-doctype"],
    );
}

#[test]
fn eof_inside_cdata() {
    let mut t = tokenizer_for("<![CDATA[x]", State::Data, "");
    let tokens = run(&mut t, "http://www.w3.org/2000/svg");
    assert_eq!(shapes(&tokens), ["Text(x])", "Eof"]);
    assert_eq!(codes(&t.get_error_logger().get_errors()), ["eof-in-cdata"]);
}

#[test]
fn cdata_in_html_is_a_bogus_comment() {
    check("<![CDATA[x]]>", &["Comment([CDATA[x]])", "Eof"], &["cdata-in-html-content"]);
}

#[test]
fn null_characters_in_markup() {
    check("<a\u{0}>", &["StartTag(a\u{FFFD},[],false)", "Eof"], &["unexpected-null-character"]);
    check("<a b\u{0}=\"c\u{0}\">", &["StartTag(a,[b\u{FFFD}=c\u{FFFD}],false)", "Eof"], &["unexpected-null-character", "unexpected-null-character"]);
    check("<!--\u{0}-->", &["Comment(\u{FFFD})", "Eof"], &["unexpected-null-character"]);
    check("a\u{0}b", &["Text(a\u{0}b)", "Eof"], &["unexpected-null-character"]);
    let (tokens, _) = tokenize_in("a\u{0}b", State::RCDATA, "title");
    assert_eq!(shapes(&tokens), ["Text(a\u{FFFD}b)", "Eof"]);
}

#[test]
fn surrogates_become_replacement_characters() {
    let chars = vec![Character::Ch('a'), Character::Surrogate(0xD800), Character::Ch('b')];
    let mut t = Tokenizer::new(InputStream::new(&chars), None, ErrorLogger::new(), Location::new(1, 1, 0));
    let tokens = run(&mut t, HTML_NAMESPACE);
    assert_eq!(shapes(&tokens), ["Text(a\u{FFFD}b)", "Eof"]);
    assert_eq!(codes(&t.get_error_logger().get_errors()), ["surrogate-in-input-stream"]);
}

#[test]
fn newlines_are_normalized_and_tracked() {
    let (tokens, _) = tokenize("a\r\nb\rc<p>");
    assert_eq!(shapes(&tokens), ["Text(a\nb\nc)", "StartTag(p,[],false)", "Eof"]);
    match &tokens[1] {
        Token::StartTag { location, .. } => assert_eq!(*location, Location::new(3, 2, 5)),
        _ => panic!("no start tag"),
    }
}

#[test]
fn retokenizing_a_reconstruction_gives_the_same_tokens() {
    let (tokens, _) = tokenize("<p class=a>x<b>y</b></p>");
    let mut rebuilt = String::new();
    for t in &tokens {
        match t {
            Token::StartTag { name, attributes, .. } => {
                rebuilt.push('<');
                rebuilt.push_str(name);
                for (k, v) in attributes {
                    rebuilt.push_str(&format!(" {}=\"{}\"", k, v));
                }
                rebuilt.push('>');
            }
            Token::EndTag { name, .. } => rebuilt.push_str(&format!("</{}>", name)),
            Token::Text { text, .. } => rebuilt.push_str(text),
            _ => {}
        }
    }
    let (again, _) = tokenize(&rebuilt);
    assert_eq!(shapes(&tokens), shapes(&again));
}

#[test]
fn control_and_noncharacters_are_reported() {
    check("a\u{1}b\u{FDD0}", &["Text(a\u{1}b\u{FDD0})", "Eof"], &["control-character-in-input-stream", "noncharacter-in-input-stream"]);
}

#[test]
fn consumed_text_accessors() {
    let mut t = tokenizer_for("abc<p>", State::Data, "");
    assert!(!t.has_consumed_data());
    let _ = t.next_token(ParserData::default());
    assert_eq!(t.get_consumed_str(), "");
    t.set_state(State::PLAINTEXT);
    t.set_last_start_tag("p");
    assert_eq!(t.state, State::PLAINTEXT);
}

#[test]
fn single_steps() {
    let mut t = tokenizer_for("ab<", State::Data, "");
    t.step(true);
    assert_eq!(t.consumed, vec!['a']);
    assert!(t.token_queue.is_empty());
    t.step(true);
    t.step(true);
    assert_eq!(t.state, State::TagOpen);
    t.step(true);
    assert_eq!(t.state, State::Data);
    assert_eq!(t.consumed, vec!['a', 'b', '<']);
    t.step(true);
    assert_eq!(shapes(&t.token_queue), ["Text(ab<)", "Eof"]);
}

#[test]
fn parser_errors_share_the_log() {
    let mut t = tokenizer_for("<", State::Data, "");
    t.parse_error(gosub_html5::error_logger::ParserError::ExpectedDocTypeButGotChars, Location::new(1, 1, 0));
    t.parse_error(gosub_html5::error_logger::ParserError::ExpectedDocTypeButGotChars, Location::new(1, 1, 0));
    let _ = run(&mut t, HTML_NAMESPACE);
    assert_eq!(
        codes(&t.get_error_logger().get_errors()),
        ["expected-doctype-but-got-chars", "eof-before-tag-name"]
    );
}

#[test]
fn stream_stops_at_its_end_marker() {
    let chars = vec![Character::Ch('a'), Character::Ch('\r'), Character::StreamEnd, Character::Ch('b')];
    let stream = InputStream::new(&chars);
    assert_eq!(stream.chars, vec![Character::Ch('a'), Character::Ch('\n')]);
}

#[test]
fn attribute_values_in_all_quotings() {
    check(
        "<p a='x\u{0}&amp;' b=y&lt;z c=\"&#65;\">",
        &["StartTag(p,[a=x\u{FFFD}& b=y<z c=A],false)", "Eof"],
        &["unexpected-null-character"],
    );
}
