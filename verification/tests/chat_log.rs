use shellm::chat::{ChatRole, ChatWrapper};
use shellm::modes::ModelMode;

#[test]
fn turn_count_matches_appends() {
    let mut log = ChatWrapper::new();
    assert_eq!(log.len(), 0);
    log.add_dialogue(ChatRole::System, "sys");
    log.add_dialogue(ChatRole::User, "hello");
    log.add_dialogue(ChatRole::Assistant, "hi");
    assert_eq!(log.len(), 3);
    log.clear();
    assert_eq!(log.len(), 0);
    log.add_dialogue(ChatRole::User, "again");
    log.add_dialogue(ChatRole::Assistant, "sure");
    assert_eq!(log.len(), 2);
}

#[test]
fn clear_and_reappend_system_matches_fresh() {
    let prompt = ModelMode::MATH.get_system_prompt();

    let mut used = ChatWrapper::new();
    used.add_dialogue(ChatRole::System, prompt);
    used.add_dialogue(ChatRole::User, "what is 2+2?");
    used.add_dialogue(ChatRole::Assistant, "4");
    used.clear();
    used.add_dialogue(ChatRole::System, prompt);

    let mut fresh = ChatWrapper::new();
    fresh.add_dialogue(ChatRole::System, prompt);

    assert_eq!(used.len(), fresh.len());
    assert_eq!(used.get(0).role, fresh.get(0).role);
    assert_eq!(used.get(0).content, fresh.get(0).content);
}

#[test]
fn role_wire_names() {
    assert_eq!(ChatRole::System.value(), "system");
    assert_eq!(ChatRole::User.value(), "user");
    assert_eq!(ChatRole::Assistant.value(), "assistant");
}

#[test]
fn messages_keep_insertion_order() {
    let mut log = ChatWrapper::new();
    log.add_dialogue(ChatRole::System, "first");
    log.add_dialogue(ChatRole::User, "second");
    assert_eq!(log.get(0).content, "first");
    assert_eq!(log.get(0).role, ChatRole::System);
    assert_eq!(log.get(1).content, "second");
    assert_eq!(log.get(1).role, ChatRole::User);
}
