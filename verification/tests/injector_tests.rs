use quicktrans::injector::{delete_selection_plan, paste_plan, type_chunk_plan, type_text_plan, InjectStep};

fn written(plan: &[InjectStep]) -> String {
    let mut out = String::new();
    for step in plan {
        if let InjectStep::WriteClipboard(s) = step {
            out.push_str(s);
        }
    }
    out
}

#[test]
fn paste_plan_writes_then_pastes() {
    let plan = paste_plan("Hello");
    assert_eq!(plan.len(), 3);
    match &plan[0] {
        InjectStep::WriteClipboard(s) => assert_eq!(s, "Hello"),
        s => panic!("expected the clipboard write, got {:?}", s),
    }
    assert!(matches!(plan[1], InjectStep::SleepMs(50)));
    assert!(matches!(plan[2], InjectStep::SimPaste));
}

#[test]
fn type_chunk_plan_skips_empty_fragments() {
    assert!(type_chunk_plan("").is_empty());
    let plan = type_chunk_plan("ab");
    assert_eq!(plan.len(), 3);
    match &plan[0] {
        InjectStep::WriteClipboard(s) => assert_eq!(s, "ab"),
        s => panic!("expected the clipboard write, got {:?}", s),
    }
    assert!(matches!(plan[1], InjectStep::SimPaste));
    assert!(matches!(plan[2], InjectStep::SleepMs(10)));
}

#[test]
fn delete_selection_plan_presses_delete() {
    let plan = delete_selection_plan();
    assert_eq!(plan.len(), 2);
    assert!(matches!(plan[0], InjectStep::SimDelete));
    assert!(matches!(plan[1], InjectStep::SleepMs(50)));
}

#[test]
fn type_text_plan_chunks_preserve_the_text() {
    let text: String = (0..123).map(|i| (b'a' + (i % 26) as u8) as char).collect();
    let plan = type_text_plan(&text);
    assert_eq!(written(&plan), text);
    for step in &plan {
        if let InjectStep::WriteClipboard(s) = step {
            assert!(s.chars().count() <= 50);
        }
    }
    // 123 characters come out as chunks of 50, 50 and 23, four steps each.
    assert_eq!(plan.len(), 12);
}

#[test]
fn type_text_plan_of_empty_text_is_empty() {
    assert!(type_text_plan("").is_empty());
}
