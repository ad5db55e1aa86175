use rook::ipc::guards::{
    build_chat_messages, build_chat_messages_with_context, looks_repetitive, sanitize_chat_message,
};

#[test]
fn rejects_empty_messages() {
    let result = sanitize_chat_message("   \n \n  ");
    assert!(result.is_err());
}

#[test]
fn compacts_repeated_lines() {
    let result = sanitize_chat_message("repeat\nrepeat\nrepeat\nuseful line").unwrap();
    assert!(result.content.contains("repeat"));
    assert!(result.content.contains("useful line"));
    assert!(result.warnings.iter().any(|w| w.contains("Repeated lines")));
}

#[test]
fn truncates_very_long_messages() {
    let long = "abc ".repeat(5000);
    let result = sanitize_chat_message(&long).unwrap();
    assert!(result.content.contains("truncated"));
}

#[test]
fn build_messages_adds_system_prompt() {
    let (messages, _) = build_chat_messages("hello backend").unwrap();
    assert_eq!(messages.len(), 2);
    assert_eq!(messages[0].role, "system");
    assert_eq!(messages[1].role, "user");
}

#[test]
fn build_messages_includes_curated_context() {
    let (messages, _) = build_chat_messages_with_context(
        "hello backend",
        Some("1. Important node [concept] score=0.91"),
    )
    .unwrap();

    assert_eq!(messages.len(), 3);
    assert!(messages[1].content.contains("Important node"));
}

#[test]
fn blank_context_is_left_out() {
    let (messages, _) = build_chat_messages_with_context("hello", Some("  \n ")).unwrap();
    assert_eq!(messages.len(), 2);
}

#[test]
fn refusal_names_the_reason() {
    let e = sanitize_chat_message("\r\n \t").unwrap_err();
    assert_eq!(e, "Message is empty after trimming");
}

#[test]
fn lines_and_spaces_are_evened_out() {
    let r = sanitize_chat_message("  a   b\r\n\r\n\r\n\rc\td  ").unwrap();
    assert_eq!(r.content, "a b\n\nc d");
    assert!(r.warnings.is_empty());
}

#[test]
fn two_equal_lines_stay_and_the_third_goes() {
    let r = sanitize_chat_message("x\nX\nx\ny").unwrap();
    assert_eq!(r.content, "x\nX\ny");
    assert_eq!(
        r.warnings,
        vec!["Repeated lines were compacted to avoid looped context.".to_string()]
    );
}

#[test]
fn long_message_keeps_its_ends() {
    let long: String = (0..3000).map(|i| format!("w{} ", i)).collect();
    let r = sanitize_chat_message(&long).unwrap();
    assert!(r.content.starts_with("w0 w1"));
    assert!(r.content.ends_with("w2999"));
    assert_eq!(r.content.chars().count(), 7000 + 2 + 44 + 2 + 2000);
    assert_eq!(
        r.warnings,
        vec!["Input exceeded 12000 characters and was truncated.".to_string()]
    );
}

#[test]
fn repetitive_message_is_thinned() {
    let r = sanitize_chat_message(&"spam eggs ".repeat(300)).unwrap();
    assert!(r
        .content
        .ends_with("spam eggs\n\n[... repetitive content compacted ...]"));
    assert_eq!(r.content.split_whitespace().count(), 400 + 5);
    assert_eq!(
        r.warnings,
        vec!["Highly repetitive content detected; context was compacted.".to_string()]
    );
}

#[test]
fn repetition_is_judged_from_twenty_words_on() {
    assert!(!looks_repetitive(&"a ".repeat(19)));
    assert!(looks_repetitive(&"a A ".repeat(10)));
    assert!(!looks_repetitive("1 2 3 4 5 6 7 8 9 10 11 12 13 14 15 16 17 18 19 20"));
}

#[test]
fn warnings_stand_above_the_content() {
    let (messages, warnings) = build_chat_messages("x\nx\nx").unwrap();
    assert_eq!(warnings.len(), 1);
    assert_eq!(
        messages[1].content,
        "Input notes: Repeated lines were compacted to avoid looped context.\n\nx\nx"
    );
}

#[test]
fn sanitizing_again_changes_nothing() {
    for m in ["a\r\na\n\nA  b \n\n\nc\n", "x\nx\n\nX", "  one \t two\r three  ", "\u{e9}\n\n\u{e9}"] {
        let first = sanitize_chat_message(m).unwrap();
        let again = sanitize_chat_message(&first.content).unwrap();
        assert_eq!(again.content, first.content);
        assert!(again.warnings.is_empty(), "{:?}", again.warnings);
    }
    assert_eq!(sanitize_chat_message("x\nx\n\nX").unwrap().content, "x\nx");
}
