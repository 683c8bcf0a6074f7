use shellm::chat::ChatRole;
use shellm::controller::{
    clamp_max_gen, classify_input, indicator_should_continue, Dispatch, DirContext, ModelStatus,
    ReplAction, Shellm,
};
use shellm::modes::{mode_from_flags, ModelMode};
use shellm::session::{save_destination, GenPhase, SessionCore};

fn plain_shell(query: Option<String>, mode: ModelMode, save: Option<String>) -> Shellm {
    let dir = if matches!(mode, ModelMode::CMD) && query.is_some() {
        Some(DirContext { wd: String::from("/home/user"), files: String::from("a.txt, b.txt") })
    } else {
        None
    };
    Shellm::new(query, mode, 10000, true, save, None, SessionCore::new(30000), dir)
}

#[test]
fn exit_line_leaves_the_loop() {
    assert_eq!(classify_input("exit\n"), ReplAction::Exit);
    assert_eq!(classify_input("exit"), ReplAction::Submit);
    assert_eq!(classify_input("EXIT\n"), ReplAction::Submit);
    assert_eq!(classify_input("exit now\n"), ReplAction::Submit);
}

#[test]
fn blank_lines_reprompt() {
    assert_eq!(classify_input(""), ReplAction::Reprompt);
    assert_eq!(classify_input("\n"), ReplAction::Reprompt);
    assert_eq!(classify_input("   \t\n"), ReplAction::Reprompt);
    assert_eq!(classify_input("hello\n"), ReplAction::Submit);
}

#[test]
fn exit_saves_when_configured_without_generating() {
    let shell = plain_shell(None, ModelMode::GENERAL, Some(String::from("mysession.bin")));
    // no one-shot query is pending, so the loop reads input first
    assert!(!shell.has_pending_turn());
    // the first line is `exit`: the loop must save and leave
    assert_eq!(classify_input("exit\n"), ReplAction::Exit);
    assert!(shell.save_path.is_some());
    assert_eq!(save_destination(shell.save_path.clone()), "mysession.bin");
    // zero generations were performed
    assert_eq!(shell.session.phase(), GenPhase::Idle);
    assert!(shell.session.snapshot().is_empty());
}

#[test]
fn command_mode_query_is_augmented() {
    let shell = plain_shell(Some(String::from("list files")), ModelMode::CMD, None);
    assert_eq!(shell.query.len(), 2);
    assert!(shell.has_pending_turn());
    let user = shell.query.get(1);
    assert_eq!(user.role, ChatRole::User);
    assert_eq!(user.content, "list files WD: /home/user FILES: a.txt, b.txt");
}

#[test]
fn other_modes_pass_the_query_through() {
    let shell = plain_shell(Some(String::from("what is 2+2?")), ModelMode::MATH, None);
    assert_eq!(shell.query.len(), 2);
    assert_eq!(shell.query.get(1).content, "what is 2+2?");
}

#[test]
fn system_message_carries_augmented_mode_prompt() {
    let shell = plain_shell(None, ModelMode::CODE, None);
    assert_eq!(shell.query.len(), 1);
    let sys = shell.query.get(0);
    assert_eq!(sys.role, ChatRole::System);
    assert!(sys.content.starts_with(ModelMode::CODE.get_system_prompt()));
    assert!(sys.content.ends_with("respond with <EXIT>."));
}

#[test]
fn missing_query_suppresses_generation() {
    let shell = plain_shell(None, ModelMode::GENERAL, None);
    assert!(!shell.has_query());
    let with = plain_shell(Some(String::from("hi")), ModelMode::GENERAL, None);
    assert!(with.has_query());
}

#[test]
fn dispatch_follows_the_mode() {
    assert_eq!(plain_shell(None, ModelMode::CMD, None).run_mode_dispatch(), Dispatch::CommandGate);
    assert_eq!(plain_shell(None, ModelMode::CODE, None).run_mode_dispatch(), Dispatch::CodeOutput);
    assert_eq!(plain_shell(None, ModelMode::MATH, None).run_mode_dispatch(), Dispatch::Stream);
    assert_eq!(plain_shell(None, ModelMode::WRITING, None).run_mode_dispatch(), Dispatch::Stream);
    assert_eq!(plain_shell(None, ModelMode::GENERAL, None).run_mode_dispatch(), Dispatch::Stream);
}

#[test]
fn max_generation_is_clamped() {
    assert_eq!(clamp_max_gen(10000), 10000);
    assert_eq!(clamp_max_gen(30000), 30000);
    assert_eq!(clamp_max_gen(50000), 30000);
    assert_eq!(clamp_max_gen(-5), -5);
}

#[test]
fn mode_flags_pick_in_priority_order() {
    assert!(matches!(mode_from_flags(true, true, true, true, true), ModelMode::CMD));
    assert!(matches!(mode_from_flags(false, true, true, false, false), ModelMode::CODE));
    assert!(matches!(mode_from_flags(false, false, true, false, false), ModelMode::MATH));
    assert!(matches!(mode_from_flags(false, false, false, true, false), ModelMode::WRITING));
    assert!(matches!(mode_from_flags(false, false, false, false, true), ModelMode::GENERAL));
    assert!(matches!(mode_from_flags(false, false, false, false, false), ModelMode::GENERAL));
}

#[test]
fn code_fences_are_stripped() {
    let cleaned = Shellm::clean_code_output(String::from("```python\nprint(1)\n```"));
    assert_eq!(cleaned, "print(1)\n");
    let multi = Shellm::clean_code_output(String::from("fence\nline one\nline two\ntail"));
    assert_eq!(multi, "line one\nline two\n");
    let flat = Shellm::clean_code_output(String::from("no newline here"));
    assert_eq!(flat, "");
}

#[test]
fn indicator_runs_until_flagged_done() {
    assert!(indicator_should_continue(&ModelStatus(false)));
    assert!(!indicator_should_continue(&ModelStatus(true)));
}

#[test]
fn only_command_mode_needs_augmentation() {
    assert!(ModelMode::CMD.requires_augmentation());
    assert!(!ModelMode::CODE.requires_augmentation());
    assert!(!ModelMode::MATH.requires_augmentation());
    assert!(!ModelMode::WRITING.requires_augmentation());
    assert!(!ModelMode::GENERAL.requires_augmentation());
}

#[test]
fn system_prompts_fit_their_modes() {
    assert!(ModelMode::CMD.get_system_prompt().starts_with("You are a bash command generator"));
    assert!(ModelMode::CODE.get_system_prompt().contains("coding assistant"));
    assert!(ModelMode::MATH.get_system_prompt().contains("mathematical problem-solving"));
    assert!(ModelMode::WRITING.get_system_prompt().contains("writing assistant"));
    assert!(ModelMode::GENERAL.get_system_prompt().contains("general assistant"));
}
