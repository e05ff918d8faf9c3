use workers_spec::client::{parse_spec_input, section_headings};
use workers_spec::service::count_steps;
use workers_spec::slug::slugify;
use workers_spec::spec_parser::{parse_spec, parse_yaml_array, strip_yaml_field};
use workers_spec::text::replace_all;

#[test]
fn test_parse_full_spec() {
    let input = r#"---
title: "Navigate to Website and Capture Screenshot"
description: "Automate browser navigation to a specified URL and capture a screenshot"
tags: ["browser-automation", "screenshot", "web-navigation"]
---

## Objective

Navigate to a website and capture a screenshot.

## Requirements

### Requirement: Browser Delegation

The agent MUST delegate browser tasks to the kernel-browser subagent."#;

    let result = parse_spec(input);
    assert_eq!(result.title, "Navigate to Website and Capture Screenshot");
    assert_eq!(
        result.description,
        "Automate browser navigation to a specified URL and capture a screenshot"
    );
    assert_eq!(
        result.tags,
        vec!["browser-automation", "screenshot", "web-navigation"]
    );
    assert!(result.body.starts_with("## Objective"));
    assert!(result.body.contains("### Requirement: Browser Delegation"));
    assert!(!result.body.contains("---"));
    assert!(result.raw.starts_with("---"));
}

#[test]
fn test_parse_no_frontmatter() {
    let input = "## Objective\n\nJust a plain spec.";
    let result = parse_spec(input);
    assert_eq!(result.title, "");
    assert_eq!(result.description, "");
    assert!(result.tags.is_empty());
    assert_eq!(result.body, input);
}

#[test]
fn test_parse_unquoted_values() {
    let input = "---\ntitle: My Spec\ndescription: A simple description\ntags: [a, b]\n---\n\nBody here.";
    let result = parse_spec(input);
    assert_eq!(result.title, "My Spec");
    assert_eq!(result.description, "A simple description");
    assert_eq!(result.tags, vec!["a", "b"]);
    assert_eq!(result.body, "Body here.");
}

#[test]
fn test_parse_empty_tags() {
    let input = "---\ntitle: Test\ndescription: Desc\ntags: []\n---\n\nBody.";
    let result = parse_spec(input);
    assert!(result.tags.is_empty());
}

#[test]
fn test_slugify() {
    assert_eq!(slugify("Hello World"), "hello-world");
    assert_eq!(
        slugify("Navigate to Website & Capture"),
        "navigate-to-website-capture"
    );
    assert_eq!(slugify("  Lots   of   spaces  "), "lots-of-spaces");
    assert_eq!(slugify("Already-Slugged"), "already-slugged");
    assert_eq!(slugify("Special!@#Chars"), "special-chars");
}

#[test]
fn test_count_steps() {
    assert_eq!(count_steps("1. First\n2. Second\n3. Third"), 3);
    assert_eq!(count_steps("No steps here"), 0);
    assert_eq!(count_steps("  1. Indented step\n  2. Another"), 2);
}

#[test]
fn test_parse_full_url_extracts_host_and_id() {
    let (base, id) = parse_spec_input("https://example.com/s/abc123", "http://localhost:3005");
    assert_eq!(base, "https://example.com");
    assert_eq!(id, "abc123");
}

#[test]
fn test_parse_url_with_port() {
    let (base, id) = parse_spec_input(
        "http://137.184.115.125:3005/s/xyz789",
        "http://localhost:3005",
    );
    assert_eq!(base, "http://137.184.115.125:3005");
    assert_eq!(id, "xyz789");
}

#[test]
fn test_parse_raw_id_uses_config() {
    let (base, id) = parse_spec_input("abc123", "http://localhost:3005");
    assert_eq!(base, "http://localhost:3005");
    assert_eq!(id, "abc123");
}

#[test]
fn test_parse_localhost_url() {
    let (base, id) = parse_spec_input("http://localhost:3000/s/test_id", "http://localhost:3005");
    assert_eq!(base, "http://localhost:3000");
    assert_eq!(id, "test_id");
}

#[test]
fn strip_yaml_field_quoted_and_plain() {
    assert_eq!(
        strip_yaml_field("title: \"Some Title\"", "title"),
        Some("Some Title".to_string())
    );
    assert_eq!(
        strip_yaml_field("title: Bare Title", "title"),
        Some("Bare Title".to_string())
    );
    assert_eq!(strip_yaml_field("description: x", "title"), None);
    assert_eq!(strip_yaml_field("title: \"", "title"), Some("\"".to_string()));
}

#[test]
fn parse_yaml_array_variants() {
    assert_eq!(parse_yaml_array("[\"a\", \"b\"]"), vec!["a", "b"]);
    assert_eq!(parse_yaml_array("['x', 'y']"), vec!["x", "y"]);
    assert_eq!(parse_yaml_array("plain, list"), vec!["plain", "list"]);
    assert!(parse_yaml_array("[]").is_empty());
    assert!(parse_yaml_array("  ").is_empty());
    assert_eq!(parse_yaml_array("[a, , b]"), vec!["a", "b"]);
}

#[test]
fn count_steps_numbered_line_needs_dot_space() {
    assert_eq!(count_steps("1.no space"), 0);
    assert_eq!(count_steps("step 1. like this"), 0);
    assert_eq!(count_steps("10. double digit works"), 1);
    assert_eq!(count_steps(""), 0);
}

#[test]
fn slugify_empty_and_symbols() {
    assert_eq!(slugify(""), "");
    assert_eq!(slugify("!!!"), "");
    assert_eq!(slugify("a"), "a");
}

#[test]
fn parse_frontmatter_last_field_wins() {
    let input = "---\ntitle: First\ntitle: Second\n---\nBody";
    let result = parse_spec(input);
    assert_eq!(result.title, "Second");
}

#[test]
fn parse_frontmatter_unterminated_is_body() {
    let input = "---\ntitle: Dangling\nno closing delimiter";
    let result = parse_spec(input);
    assert_eq!(result.title, "");
    assert_eq!(result.body, input);
    assert_eq!(result.raw, input);
}

#[test]
fn replace_all_substitutes_every_occurrence() {
    assert_eq!(replace_all("a {x} b {x}", "{x}", "Z"), "a Z b Z");
    assert_eq!(replace_all("nothing here", "{x}", "Z"), "nothing here");
    assert_eq!(replace_all("{x}", "{x}", ""), "");
    assert_eq!(replace_all("aaa", "aa", "b"), "ba");
}

#[test]
fn section_headings_of_preview() {
    let content = "## Objective\n\ntext\n## Methodology ##\n### sub\n#no\n ## indented not heading";
    assert_eq!(section_headings(content), vec!["Objective", "Methodology ##"]);
    assert!(section_headings("no headings").is_empty());
}
