use libaoc::example_parse::{ChildTag, ElemChild, Example, Node, Tag};

fn page(body: &str) -> String {
    format!(
        "<html><head></head><body><main><article class=\"day-desc\">{}</article></main></body></html>",
        body
    )
}

const PART1_BODY: &str = "<h2>--- Day 1: Something ---</h2>\
<p>For example, suppose you had the following list:</p>\
<pre><code>1000\n2000\n3000\n</code></pre>\
<p>In this example, the answer is <code><em>24000</em></code>.</p>";

#[test]
fn extracts_example_and_answer() {
    let result = Example::parse_example(page(PART1_BODY));
    let example = result.expect("example should be extracted");
    assert_eq!(example.data, "1000\n2000\n3000\n");
    assert_eq!(example.part1_answer.as_deref(), Some("24000"));
    assert!(example.part2_data.is_none());
    assert!(example.part2_answer.is_none());
}

#[test]
fn part_two_block_and_answer() {
    let body = format!(
        "{}<h2 id=\"part2\">--- Part Two ---</h2>\
<p>For example, now consider this list:</p>\
<pre><code>5000\n6000\n</code></pre>\
<p>Here the answer is <code><em>45000</em></code>.</p>",
        PART1_BODY
    );
    let result = Example::parse_example(page(&body));
    let example = result.expect("example should be extracted");
    assert_eq!(example.data, "1000\n2000\n3000\n");
    assert_eq!(example.part1_answer.as_deref(), Some("24000"));
    assert_eq!(example.part2_data.as_deref(), Some("5000\n6000\n"));
    assert_eq!(example.part2_answer.as_deref(), Some("45000"));
    assert_ne!(example.data, example.part2_data.unwrap());
    assert_ne!(example.part1_answer, example.part2_answer);
}

#[test]
fn missing_container_absent() {
    let html = "<html><body><p>For example:</p><pre><code>1</code></pre></body></html>";
    assert!(Example::parse_example(html.to_string()).is_none());
    assert!(Example::parse_example(String::new()).is_none());
}

#[test]
fn parse_is_idempotent() {
    let html = page(PART1_BODY);
    let first = Example::parse_example(html.clone());
    let second = Example::parse_example(html);
    assert_eq!(first, second);
    let absent = "<html><body></body></html>".to_string();
    assert_eq!(
        Example::parse_example(absent.clone()),
        Example::parse_example(absent)
    );
}

#[test]
fn decodes_entities_in_example_block() {
    let body = "<p>For example:</p><pre><code>1 &lt; 2 &amp;&amp; 3 &gt; 2</code></pre>";
    let example = Example::parse_example(page(body)).expect("example should be extracted");
    assert_eq!(example.data, "1 < 2 && 3 > 2");
}

#[test]
fn strips_emphasis_markup_from_example_block() {
    let body = "<p>For example:</p><pre><code>ab<em>cd</em>ef</code></pre>";
    let example = Example::parse_example(page(body)).expect("example should be extracted");
    assert_eq!(example.data, "abcdef");
}

#[test]
fn phrase_is_matched_case_insensitively() {
    let body = "<p>FOR EXAMPLE, this works too:</p><pre><code>x</code></pre>";
    let example = Example::parse_example(page(body)).expect("example should be extracted");
    assert_eq!(example.data, "x");
}

#[test]
fn block_without_phrase_not_captured() {
    let body = "<p>No interesting phrase here.</p><pre><code>1000\n</code></pre>";
    assert!(Example::parse_example(page(body)).is_none());
}

#[test]
fn block_with_extra_children_not_captured() {
    let body = "<p>For example:</p><pre>leading text<code>1000\n</code></pre>";
    assert!(Example::parse_example(page(body)).is_none());
}

#[test]
fn answer_without_example_block_is_not_enough() {
    let body = "<p>The answer is <code><em>42</em></code>.</p>";
    assert!(Example::parse_example(page(body)).is_none());
}

#[test]
fn last_answer_wins() {
    let body = "<p>For example:</p><pre><code>z</code></pre>\
<p>First guess <code><em>1</em></code>, final answer <code><em>2</em></code>.</p>";
    let example = Example::parse_example(page(body)).expect("example should be extracted");
    assert_eq!(example.part1_answer.as_deref(), Some("2"));
}

#[test]
fn only_first_qualifying_block_is_captured() {
    let body = "<p>For example:</p><pre><code>first</code></pre><pre><code>second</code></pre>";
    let example = Example::parse_example(page(body)).expect("example should be extracted");
    assert_eq!(example.data, "first");
}

fn plain_node(tag: Tag, inner: &str) -> Node {
    Node {
        tag,
        inner: inner.to_string(),
        child_count: 1,
        elem_child: None,
        part2_id: false,
    }
}

#[test]
fn scan_over_descriptors() {
    let nodes = vec![
        plain_node(Tag::Para, "For example, consider:"),
        Node {
            tag: Tag::PreBlock,
            inner: "<code>data</code>".to_string(),
            child_count: 1,
            elem_child: Some(ElemChild {
                tag: ChildTag::CodeChild,
                inner: "data".to_string(),
            }),
            part2_id: false,
        },
        Node {
            tag: Tag::CodeInline,
            inner: "<em>7</em>".to_string(),
            child_count: 1,
            elem_child: Some(ElemChild {
                tag: ChildTag::EmChild,
                inner: "7".to_string(),
            }),
            part2_id: false,
        },
    ];
    let example = Example::scan_article(&nodes).expect("scan should capture the block");
    assert_eq!(example.data, "data");
    assert_eq!(example.part1_answer.as_deref(), Some("7"));
}

#[test]
fn heading_without_part2_id_changes_nothing() {
    let body = "<h2>--- Part One ---</h2><p>For example:</p><pre><code>k</code></pre>";
    let example = Example::parse_example(page(body)).expect("example should be extracted");
    assert_eq!(example.data, "k");
    assert!(example.part2_data.is_none());
}
