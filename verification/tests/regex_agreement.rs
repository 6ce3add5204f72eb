use ad4m_core::perspective_proxy::actions::{parse_action, Command, ParseError};
use ad4m_core::types::{is_space, ExpressionRef};
use regex::Regex;

/// A small deterministic generator of test inputs.
struct Generator {
    state: u64,
}

impl Generator {
    fn next(&mut self, bound: usize) -> usize {
        self.state = self.state.wrapping_mul(6364136223846793005).wrapping_add(1442695040888963407);
        ((self.state >> 33) as usize) % bound
    }

    fn text(&mut self, pieces: &[&str], max_pieces: usize) -> String {
        let n = self.next(max_pieces + 1);
        let mut out = String::new();
        for _ in 0..n {
            out.push_str(pieces[self.next(pieces.len())]);
        }
        out
    }
}

/// The commands of an action text as the two patterns of the action
/// language read them; `Err(None)` stands for a command list without command.
struct Patterns {
    action: Regex,
    command: Regex,
    uri: Regex,
    did: Regex,
}

fn patterns() -> Patterns {
    Patterns {
        action: Regex::new(r"\[(?P<command>\{.*})*\]").unwrap(),
        command: Regex::new(
            r#"\{(action:\s*"(?P<action>[\S--,]+)",?\s*)|(source:\s*"(?P<source>[\S--,]+)",?\s*)|(predicate:\s*"(?P<predicate>[\S--,]+)",?\s*)|(target:\s*"(?P<target>[\S--,]+)",?\s*)|(status:\s*"(?P<status>[\S--,]+)",?\s*)\}"#,
        )
        .unwrap(),
        uri: Regex::new(r"^([^:^\s]+):\/\/([\s\S]+)$").unwrap(),
        did: Regex::new(r"^did:([^\s]+)$").unwrap(),
    }
}

fn commands_by_pattern(
    patterns: &Patterns,
    action: &str,
) -> Result<Vec<Command>, Option<&'static str>> {
    let action_regex = &patterns.action;
    let command_regex = &patterns.command;

    let mut commands = Vec::new();
    for capture in action_regex.captures_iter(action) {
        let mut action = None;
        let mut source = None;
        let mut predicate = None;
        let mut target = None;
        let mut status = None;
        let text = match capture.name("command") {
            Some(text) => text.as_str(),
            None => return Err(None),
        };
        for capture in command_regex.captures_iter(text) {
            action = action.or(capture.name("action").map(|e| e.as_str()));
            source = source.or(capture.name("source").map(|e| e.as_str()));
            predicate = predicate.or(capture.name("predicate").map(|e| e.as_str()));
            target = target.or(capture.name("target").map(|e| e.as_str()));
            status = status.or(capture.name("status").map(|e| e.as_str()));
        }
        commands.push(Command {
            action: action.ok_or(Some("Comman without action"))?.into(),
            source: source.ok_or(Some("Comman without source"))?.into(),
            predicate: predicate.map(|e| e.into()),
            target: target.ok_or(Some("Comman without target"))?.into(),
            status: status.map(|e| e.into()),
        });
    }
    Ok(commands)
}

fn assert_same_commands(patterns: &Patterns, text: &str) {
    let expected = commands_by_pattern(patterns, text);
    let actual = parse_action(text);
    match (expected, actual) {
        (Ok(e), Ok(a)) => assert_eq!(e, a, "{:?}", text),
        (Err(None), Err(ParseError::EmptyCommandList)) => {}
        (Err(Some(message)), Err(error)) => assert_eq!(message, error.message(), "{:?}", text),
        (e, a) => panic!("{:?}: {:?} but {:?}", text, e, a),
    }
}

#[test]
fn action_parser_agrees_with_the_patterns_on_written_cases() {
    let cases = [
        "",
        "[]",
        "[{}]",
        "[{}",
        "{}]",
        "[[{}]]",
        r#"[{action: "addLink", source: "this", predicate: "todo://state", target: "todo://ready"}]"#,
        r#"[{action: "addLink", source: "a", target: "b"}, {action: "x", source: "c", target: "d"}]"#,
        r#"[{action: "addLink", source: "a", target: "b"}][{action: "x", source: "c", target: "d"}]"#,
        "[{action: \"addLink\", source: \"a\", target: \"b\"}]\n[{action: \"x\", source: \"c\", target: \"d\"}]",
        "[{action: \"addLink\", source: \"a\",\n target: \"b\"}]",
        r#"[{action: "addLink", source: "a", target: "b", status: "shared"}]"#,
        r#"[{action: "addLink", source: "a", target: "b", status: "shared" }]"#,
        r#"[{action: "addLink", source: "a", target: "b", status: "shared", }]"#,
        r#"[{action: "addLink", source: "a", target: "b", status: "shared"} ]"#,
        r#"[{action: "addLink", status: "shared"}x", source: "a", target: "b"}]"#,
        r#"[{action: "addLink", status: "a"}b"}, source: "a", target: "b"}]"#,
        r#"[{ action: "addLink", source: "a", target: "b"}]"#,
        r#"[{source: "a", {action: "late", target: "b"}]"#,
        r#"[{action:"a"source:"b"target:"c"}]"#,
        r#"[{action: "a"b"c", source: """, target: ""x"}]"#,
        r#"[{action: "", source: "b", target: "c"}]"#,
        r#"[{action: "a", source: "b", target: "c"}] trailing [{action: "d", source: "e", target: "f"}]"#,
        r#"xsource: "a" [{action: "q", mysource: "b", target: "c"}]"#,
        r#"[{action: "é", source: "ü", target: "日本"}]"#,
        "[{action:\u{a0}\"a\", source:\t\"b\", target: \"c\u{2003}d\"}]",
        r#"[{action: "a", source: "b", target: "c"}]]]"#,
        r#"[{action: "a", source: "b", predicate: "p", predicate: "q", target: "c"}]"#,
    ];
    let patterns = patterns();
    for text in cases {
        assert_same_commands(&patterns, text);
    }
}

#[test]
fn action_parser_agrees_with_the_patterns_on_generated_cases() {
    let pieces = [
        "[", "]", "{", "}", "\"", ",", " ", "\n", ":", "a", "b", "://", "{action:", "action:",
        "source:", "target:", "predicate:", "status:", " \"", "\",", "\"}", "}]", "[{", "\t",
        "\"a\"", "this",
    ];
    let patterns = patterns();
    let mut generator = Generator { state: 7 };
    for _ in 0..4000 {
        let text = generator.text(&pieces, 24);
        assert_same_commands(&patterns, &text);
    }
}

#[test]
fn action_parser_agrees_with_the_patterns_on_generated_commands() {
    let fields = [
        "action: \"addLink\"", "source: \"this\"", "target: \"x://y\"", "predicate: \"p\"",
        "status: \"shared\"", "action:\"a\"", "source: \"a b\"", "target: \"a,b\"",
        "status: \"s\" ", "junk", "source:  \"q\"q\"",
    ];
    let joins = [", ", ",", " ", "", ",  "];
    let patterns = patterns();
    let mut generator = Generator { state: 99 };
    for _ in 0..4000 {
        let mut text = String::from("[{");
        let n = generator.next(7);
        for i in 0..n {
            if i > 0 {
                text.push_str(joins[generator.next(joins.len())]);
            }
            text.push_str(fields[generator.next(fields.len())]);
        }
        text.push_str(["}]", "} ]", "}]\n", "}", "}]}]"][generator.next(5)]);
        if generator.next(4) == 0 {
            text.push_str("[{action: \"z\", source: \"s\", target: \"t\"}]");
        }
        assert_same_commands(&patterns, &text);
    }
}

/// The expression reference of a text as the patterns for expression URLs
/// and DIDs read it.
fn reference_by_pattern(patterns: &Patterns, value: &str) -> Option<(String, String, String)> {
    if value.starts_with("literal://") {
        return Some(("literal".to_string(), "literal".to_string(), value[10..].to_string()));
    }
    let uri_regexp = &patterns.uri;
    if let Some(captures) = uri_regexp.captures(value) {
        if captures.len() == 3 {
            return Some((
                captures.get(1).unwrap().as_str().to_string(),
                String::new(),
                captures.get(2).unwrap().as_str().to_string(),
            ));
        }
    }
    let did_regexp = &patterns.did;
    if let Some(captures) = did_regexp.captures(value) {
        if captures.len() == 2 {
            return Some(("did".to_string(), String::new(), value.to_string()));
        }
    }
    None
}

fn assert_same_reference(patterns: &Patterns, text: &str) {
    let expected = reference_by_pattern(patterns, text);
    let actual = ExpressionRef::try_from(text.to_string())
        .ok()
        .map(|r| (r.language.address, r.language.name, r.expression));
    assert_eq!(expected, actual, "{:?}", text);
}

#[test]
fn expression_ref_agrees_with_the_patterns() {
    let cases = [
        "", "a", "a://b", "a://", "://b", "a:/b", "a:b://c", "a^b://c", "a b://c", "did:", "did:x",
        "did:x y", "did:x\n", "did://x", "literal://", "literal://x y", "literal:/x", "Literal://x",
        "a://b\nc", "a\n://b", "é://ü", "did:é", "\u{a0}://x", "a://://", "did:key:z6Mk", " did:x",
        "a://b ", "^://x", "://", "a://\n",
    ];
    let patterns = patterns();
    for text in cases {
        assert_same_reference(&patterns, text);
    }
    let pieces = [
        "a", "b", ":", "/", "//", "://", "did", "did:", "literal", "literal://", " ", "\n", "^",
        "\u{2028}", "é", ".",
    ];
    let mut generator = Generator { state: 3 };
    for _ in 0..4000 {
        let text = generator.text(&pieces, 8);
        assert_same_reference(&patterns, &text);
    }
}

#[test]
fn white_space_is_what_the_pattern_class_matches() {
    let space = Regex::new(r"^\s$").unwrap();
    let mut buffer = [0u8; 4];
    for code in 0..=0x10FFFFu32 {
        if let Some(c) = char::from_u32(code) {
            let text: &str = c.encode_utf8(&mut buffer);
            assert_eq!(is_space(c), space.is_match(text), "U+{:04X}", code);
            assert_eq!(is_space(c), c.is_whitespace(), "U+{:04X}", code);
        }
    }
}
