use econtext::ContextStack;
use econtext::DataScope;
use econtext::EmptyDebug;
use econtext::TextPayload;
use econtext::UintPayload;
use econtext::dec_u64;
use econtext::report;

#[test]
fn render_empty_stack_is_empty() {
    let stack = ContextStack::new();
    assert_eq!(stack.render(), "");
    assert_eq!(stack.depth(), 0);
}

#[test]
fn scenario_four_frames_innermost_first() {
    let mut stack = ContextStack::new();
    let s1 = DataScope::new("example", "examples/example.rs", 5, "While running", EmptyDebug {});
    let s2 = DataScope::new("example", "examples/example.rs", 10, "run", EmptyDebug {});
    let s3 = DataScope::new(
        "example",
        "examples/example.rs",
        15,
        "process",
        TextPayload { text: String::from("filename.txt") },
    );
    let s4 = DataScope::new("example", "examples/example.rs", 17, "i", UintPayload { value: 4 });
    stack.enter(&s1);
    stack.enter(&s2);
    stack.enter(&s3);
    stack.enter(&s4);
    let expected = "  example examples/example.rs:17: i 4\n\
                    \x20 example examples/example.rs:15: process \"filename.txt\"\n\
                    \x20 example examples/example.rs:10: run \n\
                    \x20 example examples/example.rs:5: While running \n";
    assert_eq!(stack.render(), expected);
    assert_eq!(stack.depth(), 4);
}

#[test]
fn innermost_removed_after_exit() {
    let mut stack = ContextStack::new();
    let s1 = DataScope::new("example", "examples/example.rs", 5, "While running", EmptyDebug {});
    let s2 = DataScope::new("example", "examples/example.rs", 10, "run", EmptyDebug {});
    let s3 = DataScope::new(
        "example",
        "examples/example.rs",
        15,
        "process",
        TextPayload { text: String::from("filename.txt") },
    );
    let s4 = DataScope::new("example", "examples/example.rs", 17, "i", UintPayload { value: 4 });
    stack.enter(&s1);
    stack.enter(&s2);
    stack.enter(&s3);
    let saved = stack.enter(&s4);
    stack.exit(saved);
    let expected = "  example examples/example.rs:15: process \"filename.txt\"\n\
                    \x20 example examples/example.rs:10: run \n\
                    \x20 example examples/example.rs:5: While running \n";
    assert_eq!(stack.render(), expected);
    assert_eq!(stack.depth(), 3);
}

#[test]
fn nested_enters_and_exits_restore_empty_stack() {
    let mut stack = ContextStack::new();
    let outer = DataScope::new("m", "a.rs", 1, "outer", EmptyDebug {});
    let middle = DataScope::new("m", "a.rs", 2, "middle", EmptyDebug {});
    let inner = DataScope::new("m", "a.rs", 3, "inner", EmptyDebug {});
    let sibling = DataScope::new("m", "a.rs", 4, "sibling", EmptyDebug {});

    let save_outer = stack.enter(&outer);
    let save_middle = stack.enter(&middle);
    let save_inner = stack.enter(&inner);
    stack.exit(save_inner);
    stack.exit(save_middle);
    let save_sibling = stack.enter(&sibling);
    stack.exit(save_sibling);
    assert_eq!(stack.depth(), 1);
    stack.exit(save_outer);
    assert_eq!(stack.depth(), 0);
    assert_eq!(stack.render(), "");
}

#[test]
fn exit_restores_snapshot_not_one_level() {
    let mut stack = ContextStack::new();
    let outer = DataScope::new("m", "a.rs", 1, "outer", EmptyDebug {});
    let inner = DataScope::new("m", "a.rs", 2, "inner", EmptyDebug {});
    let save_outer = stack.enter(&outer);
    stack.enter(&inner);
    stack.enter(&inner);
    stack.enter(&inner);
    stack.exit(save_outer);
    assert_eq!(stack.depth(), 0);
}

#[test]
fn exit_beyond_depth_leaves_stack_unchanged() {
    let mut stack = ContextStack::new();
    let scope = DataScope::new("m", "a.rs", 1, "only", EmptyDebug {});
    stack.enter(&scope);
    stack.exit(7);
    assert_eq!(stack.depth(), 1);
    assert_eq!(stack.render(), "  m a.rs:1: only \n");
}

#[test]
fn stacks_are_independent() {
    let mut first = ContextStack::new();
    let mut second = ContextStack::new();
    let scope = DataScope::new("m", "a.rs", 1, "only on the first", EmptyDebug {});
    first.enter(&scope);
    assert_eq!(second.render(), "");
    assert_eq!(second.depth(), 0);
    assert_eq!(first.depth(), 1);
    second.enter(&scope);
    second.exit(0);
    assert_eq!(first.render(), "  m a.rs:1: only on the first \n");
}

#[test]
fn report_of_empty_chain_is_none() {
    assert!(report("").is_none());
}

#[test]
fn report_prefixes_header_and_keeps_chain() {
    let out = report("  m a.rs:1: only \n");
    assert_eq!(out, Some(String::from("ERROR CONTEXT:\n  m a.rs:1: only \n\n")));
}

#[test]
fn decimal_rendering_is_exact() {
    assert_eq!(dec_u64(0), "0");
    assert_eq!(dec_u64(7), "7");
    assert_eq!(dec_u64(10), "10");
    assert_eq!(dec_u64(40961234), "40961234");
    assert_eq!(dec_u64(u64::MAX), "18446744073709551615");
}

#[test]
fn line_numbers_render_in_decimal() {
    let mut stack = ContextStack::new();
    let low = DataScope::new("m", "a.rs", 0, "low", EmptyDebug {});
    let high = DataScope::new("m", "a.rs", u32::MAX, "high", UintPayload { value: 12 });
    stack.enter(&low);
    stack.enter(&high);
    assert_eq!(stack.render(), "  m a.rs:4294967295: high 12\n  m a.rs:0: low \n");
}

#[test]
fn deep_nesting_renders_and_unwinds() {
    let mut stack = ContextStack::new();
    let mut saves = Vec::new();
    for i in 0..100u32 {
        let scope = DataScope::new("m", "a.rs", i, "depth", UintPayload { value: i as u64 });
        saves.push(stack.enter(&scope));
    }
    let rendered = stack.render();
    assert_eq!(rendered.lines().count(), 100);
    assert_eq!(rendered.lines().next(), Some("  m a.rs:99: depth 99"));
    assert_eq!(rendered.lines().last(), Some("  m a.rs:0: depth 0"));
    while let Some(saved) = saves.pop() {
        stack.exit(saved);
    }
    assert_eq!(stack.depth(), 0);
    assert_eq!(stack.render(), "");
}

#[test]
fn text_payload_renders_quoted() {
    let mut stack = ContextStack::new();
    let scope =
        DataScope::new("m", "a.rs", 9, "file", TextPayload { text: String::from("data.bin") });
    stack.enter(&scope);
    assert_eq!(stack.render(), "  m a.rs:9: file \"data.bin\"\n");
}
