use llm_prompt_gen::errors::ErrorKind;
use llm_prompt_gen::output_parser::{is_raw_output, parse_code};
use llm_prompt_gen::prompt_builder::DefaultTemplateBuilder;
use llm_prompt_gen::prompts::{OpenAIPrompt, TextPrompt};

#[test]
fn parse_marker_trim_tag_strip() {
    assert_eq!(parse_code("<code>foo()\n</code></solution>junk"), "foo()");
}

#[test]
fn parse_no_marker_returns_full_text() {
    assert_eq!(parse_code("no marker at all"), "no marker at all");
}

#[test]
fn parse_drops_blank_and_fence_lines() {
    let raw = "<code>\nfn a() {}\n\n```\nlet x = 1;\n</code></solution>tail";
    assert_eq!(parse_code(raw), "fn a() {}\nlet x = 1;");
}

#[test]
fn parse_drops_indented_fence_lines() {
    let raw = "first\n   ```rust\nsecond";
    assert_eq!(parse_code(raw), "first\nsecond");
}

#[test]
fn parse_takes_prefix_before_first_marker() {
    let raw = "a\n</solution>b\n</solution>c";
    assert_eq!(parse_code(raw), "a");
}

#[test]
fn parse_handles_crlf_lines() {
    let raw = "one\r\n\r\ntwo\r\n";
    assert_eq!(parse_code(raw), "one\ntwo");
}

#[test]
fn parse_empty_input_gives_empty_output() {
    assert_eq!(parse_code(""), "");
}

#[test]
fn is_raw_output_accepts_artifact_names() {
    assert!(is_raw_output("01.rawoutput"));
    assert!(is_raw_output(".rawoutput"));
    assert!(!is_raw_output("01.rawoutput.txt"));
    assert!(!is_raw_output("notes.txt"));
    assert!(!is_raw_output(""));
}

#[test]
fn text_prompt_renders_in_add_order() {
    let mut p = TextPrompt::new();
    p.add_priming("P");
    p.add_problem("Q");
    p.add_solution("A");
    assert_eq!(p.get(), "P\nQ\nA\n");
}

#[test]
fn openai_prompt_renders_in_add_order() {
    let mut p = OpenAIPrompt::new();
    p.add_priming("P");
    p.add_problem("Q");
    p.add_solution("A");
    assert_eq!(
        p.get(),
        "{ \"role\": \"system\", \"content\": \"P\" },\n{ \"role\": \"user\", \"content\": \"Q\" },\n{ \"role\": \"assistant\", \"content\": \"A\" }"
    );
}

#[test]
fn openai_prompt_empty_renders_empty() {
    let p = OpenAIPrompt::new();
    assert_eq!(p.get(), "");
}

fn builder() -> DefaultTemplateBuilder {
    DefaultTemplateBuilder::new(
        Some("PRIME".to_string()),
        Some("P:{PROBLEM_CONTENT}".to_string()),
        Some("S:{SOLUTION_CONTENT}".to_string()),
        Some("H={CONTEXT_HEADER} T={CONTEXT_TYPES}".to_string()),
    )
    .unwrap()
}

#[test]
fn builder_missing_template_fails() {
    let r = DefaultTemplateBuilder::new(
        Some("a".to_string()),
        None,
        Some("c".to_string()),
        Some("d".to_string()),
    );
    assert!(matches!(r, Err(ErrorKind::MissingTemplate)));
}

#[test]
fn builder_replaces_placeholders_verbatim() {
    let b = builder();
    assert_eq!(b.format_problem("x > y"), "P:x > y");
    assert_eq!(b.format_solution("done"), "S:done");
    assert_eq!(b.format_context("hdr", "ty"), "H=hdr T=ty");
}

#[test]
fn builder_leaves_unresolved_placeholders_literal() {
    let b = DefaultTemplateBuilder::new(
        Some("PRIME".to_string()),
        Some("no placeholder here".to_string()),
        Some("S:{SOLUTION_CONTENT} and {SOLUTION_CONTENT}".to_string()),
        Some("{UNKNOWN_TOKEN}".to_string()),
    )
    .unwrap();
    assert_eq!(b.format_problem("ignored"), "no placeholder here");
    assert_eq!(b.format_solution("s"), "S:s and s");
    assert_eq!(b.format_context("h", "t"), "{UNKNOWN_TOKEN}");
}

#[test]
fn builder_build_orders_sections() {
    let b = builder();
    let examples = Some(vec![("e1".to_string(), "s1".to_string())]);
    let built = b.build("sig", 0, &examples, &None);
    assert_eq!(built, "PRIME\nP:e1\nS:s1\nP:sig\n");
}

#[test]
fn builder_build_without_examples() {
    let b = builder();
    let built = b.build("sig", 1, &None, &None);
    assert_eq!(built, "PRIME\nP:sig\n");
}
