use chat_shell::chat::BootEvent;
use chat_shell::chat::Chat;
use chat_shell::chat::ConversationEvent;
use chat_shell::chat::Effect;
use chat_shell::chat::KeyPress;
use chat_shell::chat::Message;
use chat_shell::chat::SearchEvent;
use chat_shell::chat::ThemeChoice;
use chat_shell::screen::AssistantHandle;
use chat_shell::screen::ModelSelection;
use chat_shell::screen::Screen;
use chat_shell::screen::ScreenTag;
use chat_shell::screen::SystemInfo;

fn info() -> SystemInfo {
    SystemInfo { memory_bytes: 16_000_000_000, logical_cores: 8 }
}

#[test]
fn new_starts_on_search_and_schedules_bootstrap() {
    let (chat, effect) = Chat::new();
    assert_eq!(chat.active_screen_tag(), ScreenTag::Search);
    assert_eq!(chat.system, None);
    assert_eq!(effect, Effect::Startup);
}

#[test]
fn model_chosen_boots_seeded_with_model_and_system_info() {
    let (mut chat, _) = Chat::new();
    let fetched = chat.update(Message::SystemFetched(info()));
    assert_eq!(fetched, Effect::Idle);

    let model = ModelSelection { id: 42 };
    let effect = chat.update(Message::Search(SearchEvent::ModelChosen(model)));
    assert_eq!(effect, Effect::Idle);
    match chat.screen {
        Screen::Boot { model: m, system, .. } => {
            assert_eq!(m, model);
            assert_eq!(system, Some(info()));
        }
        other => panic!("expected a boot screen, got {:?}", other),
    }
}

#[test]
fn model_chosen_before_fetch_boots_without_system_info() {
    let (mut chat, _) = Chat::new();
    chat.update(Message::Search(SearchEvent::ModelChosen(ModelSelection { id: 1 })));
    assert!(matches!(chat.screen, Screen::Boot { system: None, .. }));
}

#[test]
fn search_boot_conversation_back_round_trip() {
    let (mut chat, _) = Chat::new();
    let first_generation = match chat.screen {
        Screen::Search { generation } => generation,
        other => panic!("expected a search screen, got {:?}", other),
    };

    let model = ModelSelection { id: 3 };
    chat.update(Message::Search(SearchEvent::ModelChosen(model)));
    assert_eq!(chat.active_screen_tag(), ScreenTag::Boot);

    let assistant = AssistantHandle { id: 7 };
    let effect = chat.update(Message::Boot(BootEvent::Finished(assistant)));
    assert_eq!(effect, Effect::StartConversation);
    match chat.screen {
        Screen::Conversation { assistant: a, .. } => assert_eq!(a, assistant),
        other => panic!("expected a conversation screen, got {:?}", other),
    }

    let effect = chat.update(Message::Conversation(ConversationEvent::Back));
    assert_eq!(effect, Effect::StartSearch);
    match chat.screen {
        Screen::Search { generation } => assert_ne!(generation, first_generation),
        other => panic!("expected a search screen, got {:?}", other),
    }
}

#[test]
fn escape_on_search_changes_nothing_and_schedules_nothing() {
    let (mut chat, _) = Chat::new();
    let before = chat;
    let effect = chat.update(Message::Escape);
    assert_eq!(effect, Effect::Idle);
    assert_eq!(chat, before);
}

#[test]
fn escape_on_boot_builds_a_fresh_search_screen() {
    let (mut chat, _) = Chat::new();
    let first_generation = chat.screen.generation_number();
    chat.update(Message::Search(SearchEvent::ModelChosen(ModelSelection { id: 2 })));
    let boot_generation = chat.screen.generation_number();

    let effect = chat.update(Message::Escape);
    assert_eq!(effect, Effect::StartSearch);
    match chat.screen {
        Screen::Search { generation } => {
            assert_ne!(generation, first_generation);
            assert_ne!(generation, boot_generation);
        }
        other => panic!("expected a search screen, got {:?}", other),
    }
}

#[test]
fn escape_on_conversation_builds_a_fresh_search_screen() {
    let (mut chat, _) = Chat::new();
    chat.update(Message::Search(SearchEvent::ModelChosen(ModelSelection { id: 2 })));
    chat.update(Message::Boot(BootEvent::Finished(AssistantHandle { id: 4 })));
    let conversation_generation = chat.screen.generation_number();

    let effect = chat.update(Message::Escape);
    assert_eq!(effect, Effect::StartSearch);
    assert_eq!(chat.active_screen_tag(), ScreenTag::Search);
    assert_ne!(chat.screen.generation_number(), conversation_generation);
}

#[test]
fn late_completion_for_abandoned_boot_screen_is_dropped() {
    let (mut chat, _) = Chat::new();
    chat.update(Message::Search(SearchEvent::ModelChosen(ModelSelection { id: 2 })));
    chat.update(Message::Escape);
    let before = chat;

    let effect = chat.update(Message::Boot(BootEvent::Run(11)));
    assert_eq!(effect, Effect::Idle);
    assert_eq!(chat, before);

    let effect = chat.update(Message::Boot(BootEvent::Finished(AssistantHandle { id: 8 })));
    assert_eq!(effect, Effect::Idle);
    assert_eq!(chat, before);
}

#[test]
fn messages_for_inactive_screens_are_dropped() {
    let (mut chat, _) = Chat::new();
    let before = chat;
    assert_eq!(chat.update(Message::Boot(BootEvent::Aborted)), Effect::Idle);
    assert_eq!(chat.update(Message::Conversation(ConversationEvent::Back)), Effect::Idle);
    assert_eq!(chat, before);

    chat.update(Message::Search(SearchEvent::ModelChosen(ModelSelection { id: 6 })));
    let on_boot = chat;
    assert_eq!(chat.update(Message::Search(SearchEvent::Run(1))), Effect::Idle);
    assert_eq!(chat.update(Message::Conversation(ConversationEvent::Back)), Effect::Idle);
    assert_eq!(chat, on_boot);
}

#[test]
fn system_info_is_recorded_exactly_once() {
    let (mut chat, _) = Chat::new();
    assert_eq!(chat.system, None);

    chat.update(Message::SystemFetched(info()));
    assert_eq!(chat.system, Some(info()));

    let again = SystemInfo { memory_bytes: 1, logical_cores: 1 };
    let effect = chat.update(Message::SystemFetched(again));
    assert_eq!(effect, Effect::Idle);
    assert_eq!(chat.system, Some(info()));
}

#[test]
fn boot_abort_returns_to_a_fresh_search_screen() {
    let (mut chat, _) = Chat::new();
    let first_generation = chat.screen.generation_number();
    chat.update(Message::Search(SearchEvent::ModelChosen(ModelSelection { id: 5 })));

    let effect = chat.update(Message::Boot(BootEvent::Aborted));
    assert_eq!(effect, Effect::StartSearch);
    assert_eq!(chat.active_screen_tag(), ScreenTag::Search);
    assert_ne!(chat.screen.generation_number(), first_generation);
}

#[test]
fn requested_tasks_are_forwarded_for_the_active_screen() {
    let (mut chat, _) = Chat::new();
    assert_eq!(chat.update(Message::Search(SearchEvent::Run(3))), Effect::RunSearch(3));
    assert_eq!(chat.update(Message::Search(SearchEvent::Handled)), Effect::Idle);

    chat.update(Message::Search(SearchEvent::ModelChosen(ModelSelection { id: 1 })));
    assert_eq!(chat.update(Message::Boot(BootEvent::Run(4))), Effect::RunBoot(4));
    assert_eq!(chat.update(Message::Boot(BootEvent::Handled)), Effect::Idle);

    chat.update(Message::Boot(BootEvent::Finished(AssistantHandle { id: 2 })));
    assert_eq!(
        chat.update(Message::Conversation(ConversationEvent::Run(5))),
        Effect::RunConversation(5)
    );
    assert_eq!(chat.update(Message::Conversation(ConversationEvent::Handled)), Effect::Idle);
}

#[test]
fn subscriptions_merge_screen_stream_and_hotkeys() {
    let (mut chat, _) = Chat::new();
    let subs = chat.subscription();
    assert!(subs.escape_hotkey);
    assert_eq!(subs.screen_source, Some(ScreenTag::Search));

    chat.update(Message::Search(SearchEvent::ModelChosen(ModelSelection { id: 1 })));
    let subs = chat.subscription();
    assert!(subs.escape_hotkey);
    assert_eq!(subs.screen_source, Some(ScreenTag::Boot));

    chat.update(Message::Boot(BootEvent::Finished(AssistantHandle { id: 2 })));
    let subs = chat.subscription();
    assert!(subs.escape_hotkey);
    assert_eq!(subs.screen_source, None);
}

#[test]
fn only_escape_maps_to_a_coordinator_message() {
    assert_eq!(chat_shell::chat::hotkey_message(KeyPress::NamedEscape), Some(Message::Escape));
    assert_eq!(chat_shell::chat::hotkey_message(KeyPress::NamedEnter), None);
    assert_eq!(chat_shell::chat::hotkey_message(KeyPress::NamedTab), None);
    assert_eq!(chat_shell::chat::hotkey_message(KeyPress::Character('q')), None);
}

#[test]
fn theme_is_a_fixed_constant() {
    let (mut chat, _) = Chat::new();
    assert_eq!(chat.theme(), ThemeChoice::TokyoNight);
    chat.update(Message::Search(SearchEvent::ModelChosen(ModelSelection { id: 1 })));
    assert_eq!(chat.theme(), ThemeChoice::TokyoNight);
}
