//! The coordinator: one active screen, message routing, transitions.
//!
//! Each screen's own update is an external collaborator; what it tells
//! the coordinator is an event (continue locally, run an async task, or
//! transition with a payload). The coordinator reacts to the event by
//! replacing the active screen and/or asking its caller to schedule
//! follow-on asynchronous work, described by an [`Effect`].

use crate::screen::AssistantHandle;
use crate::screen::ModelSelection;
use crate::screen::Screen;
use crate::screen::ScreenTag;
use crate::screen::SystemInfo;
use vstd::prelude::*;

verus! {

/// What the search screen's update told the coordinator.
#[derive(Clone, Copy, Debug, PartialEq, Eq, Structural)]
pub enum SearchEvent {
    /// The screen handled the message internally; nothing to do.
    Handled,
    /// The screen asks for an async task to be run on its behalf.
    Run(u64),
    /// Selection complete: boot the chosen model.
    ModelChosen(ModelSelection),
}

/// What the boot screen's update told the coordinator.
#[derive(Clone, Copy, Debug, PartialEq, Eq, Structural)]
pub enum BootEvent {
    /// The screen handled the message internally; nothing to do.
    Handled,
    /// The screen asks for an async task to be run on its behalf.
    Run(u64),
    /// Boot finished: hand the ready assistant to a conversation.
    Finished(AssistantHandle),
    /// Boot gave up: return to a fresh search screen.
    Aborted,
}

/// What the conversation screen's update told the coordinator.
#[derive(Clone, Copy, Debug, PartialEq, Eq, Structural)]
pub enum ConversationEvent {
    /// The screen handled the message internally; nothing to do.
    Handled,
    /// The screen asks for an async task to be run on its behalf.
    Run(u64),
    /// The user went back: return to a fresh search screen.
    Back,
}

/// A message delivered to the coordinator by the host event loop.
///
/// The first three variants are tagged for one screen kind and are
/// dropped silently when that screen is not the active one (a task for
/// an abandoned screen may complete late; that is not an error).
#[derive(Clone, Copy, Debug, PartialEq, Eq, Structural)]
pub enum Message {
    Search(SearchEvent),
    Boot(BootEvent),
    Conversation(ConversationEvent),
    SystemFetched(SystemInfo),
    Escape,
}

/// The asynchronous work the caller must schedule after an update.
///
/// Task ids in `RunSearch`/`RunBoot`/`RunConversation` repeat the id the
/// active screen asked for; the `Start` variants stand for the startup
/// task of a screen the coordinator has just constructed, whose
/// completion arrives later as a message tagged for that screen kind.
#[derive(Clone, Copy, Debug, PartialEq, Eq, Structural)]
pub enum Effect {
    /// Nothing to schedule.
    Idle,
    /// Run the search screen's requested task.
    RunSearch(u64),
    /// Run the boot screen's requested task.
    RunBoot(u64),
    /// Run the conversation screen's requested task.
    RunConversation(u64),
    /// Run the startup task of the freshly constructed search screen.
    StartSearch,
    /// Run the startup task of the freshly constructed conversation screen.
    StartConversation,
    /// Bootstrap: fetch system information once, and run the first
    /// search screen's startup task, both without blocking display.
    Startup,
}

/// The window theme; a fixed choice, independent of state.
#[derive(Clone, Copy, Debug, PartialEq, Eq, Structural)]
pub enum ThemeChoice {
    Light,
    Dark,
    TokyoNight,
}

/// A key press as reported by the global keyboard listener.
#[derive(Clone, Copy, Debug, PartialEq, Eq, Structural)]
pub enum KeyPress {
    NamedEscape,
    NamedEnter,
    NamedTab,
    Character(char),
}

/// The standing event sources the coordinator listens to: the active
/// screen's own stream (absent for the conversation screen) merged with
/// the global escape-key listener.
#[derive(Clone, Copy, Debug, PartialEq, Eq, Structural)]
pub struct SubscriptionSet {
    /// Which screen's own event stream is merged in, if any.
    pub screen_source: Option<ScreenTag>,
    /// The global keyboard listener is always on.
    pub escape_hotkey: bool,
}

/// The root state machine: the single active screen plus ambient
/// process-wide information.
#[derive(Clone, Copy, Debug, PartialEq, Eq, Structural)]
pub struct Chat {
    /// Exactly one screen is alive at any time.
    pub screen: Screen,
    /// Set at most once, by the first fetch completion; read-only after.
    pub system: Option<SystemInfo>,
    /// How many screens have been constructed so far; the source of
    /// fresh generation numbers.
    pub spawned: u64,
}

/// The state after replacing the active screen with a brand-new search
/// screen.
pub open spec fn with_fresh_search(s: Chat) -> Chat {
    Chat {
        screen: Screen::Search { generation: s.spawned },
        spawned: (s.spawned + 1) as u64,
        ..s
    }
}

/// The state after one message, as the transition table prescribes: a
/// message tagged for the active screen is interpreted; one tagged for
/// an inactive screen is dropped; the first fetch completion records
/// system information; escape returns home.
pub open spec fn spec_step(s: Chat, m: Message) -> Chat {
    match m {
        Message::Search(e) => if s.screen is Search {
            match e {
                SearchEvent::Handled => s,
                SearchEvent::Run(_) => s,
                SearchEvent::ModelChosen(model) => Chat {
                    screen: Screen::Boot {
                        model,
                        system: s.system,
                        generation: s.spawned,
                    },
                    spawned: (s.spawned + 1) as u64,
                    ..s
                },
            }
        } else {
            s
        },
        Message::Boot(e) => if s.screen is Boot {
            match e {
                BootEvent::Handled => s,
                BootEvent::Run(_) => s,
                BootEvent::Finished(assistant) => Chat {
                    screen: Screen::Conversation { assistant, generation: s.spawned },
                    spawned: (s.spawned + 1) as u64,
                    ..s
                },
                BootEvent::Aborted => with_fresh_search(s),
            }
        } else {
            s
        },
        Message::Conversation(e) => if s.screen is Conversation {
            match e {
                ConversationEvent::Handled => s,
                ConversationEvent::Run(_) => s,
                ConversationEvent::Back => with_fresh_search(s),
            }
        } else {
            s
        },
        Message::SystemFetched(info) => if s.system is None {
            Chat { system: Some(info), ..s }
        } else {
            s
        },
        Message::Escape => if s.screen is Search {
            s
        } else {
            with_fresh_search(s)
        },
    }
}

/// The asynchronous work one message gives rise to: the task a screen
/// asked for, the startup task of a screen just constructed, or nothing.
pub open spec fn spec_effect(s: Chat, m: Message) -> Effect {
    match m {
        Message::Search(e) => if s.screen is Search {
            match e {
                SearchEvent::Handled => Effect::Idle,
                SearchEvent::Run(task) => Effect::RunSearch(task),
                SearchEvent::ModelChosen(_) => Effect::Idle,
            }
        } else {
            Effect::Idle
        },
        Message::Boot(e) => if s.screen is Boot {
            match e {
                BootEvent::Handled => Effect::Idle,
                BootEvent::Run(task) => Effect::RunBoot(task),
                BootEvent::Finished(_) => Effect::StartConversation,
                BootEvent::Aborted => Effect::StartSearch,
            }
        } else {
            Effect::Idle
        },
        Message::Conversation(e) => if s.screen is Conversation {
            match e {
                ConversationEvent::Handled => Effect::Idle,
                ConversationEvent::Run(task) => Effect::RunConversation(task),
                ConversationEvent::Back => Effect::StartSearch,
            }
        } else {
            Effect::Idle
        },
        Message::SystemFetched(_) => Effect::Idle,
        Message::Escape => if s.screen is Search {
            Effect::Idle
        } else {
            Effect::StartSearch
        },
    }
}

impl Chat {
    /// The active screen's generation was drawn from `spawned`, so it is
    /// below it; every generation ever handed out is.
    pub open spec fn wf(self) -> bool {
        self.screen.generation() < self.spawned
    }

    /// Process start: a fresh search screen is active, no system
    /// information yet, and the bootstrap work is to be scheduled.
    pub fn new() -> (r: (Self, Effect))
        ensures
            r.0.screen == (Screen::Search { generation: 0u64 }),
            r.0.system is None,
            r.0.spawned == 1,
            r.0.wf(),
            r.1 == Effect::Startup,
    {
        (
            Chat {
                screen: Screen::Search { generation: 0 },
                system: None,
                spawned: 1,
            },
            Effect::Startup,
        )
    }

    /// Replace the active screen with a brand-new search screen and ask
    /// for its startup task.
    fn search(&mut self) -> (r: Effect)
        requires
            old(self).spawned < u64::MAX,
        ensures
            *final(self) == with_fresh_search(*old(self)),
            r == Effect::StartSearch,
    {
        self.screen = Screen::Search { generation: self.spawned };
        self.spawned = self.spawned + 1;
        Effect::StartSearch
    }

    /// Route one message: deliver it to the active screen if it is
    /// tagged for it, realize the transition its event asks for, record
    /// system information on first fetch, and return the asynchronous
    /// work to schedule. Messages tagged for an inactive screen change
    /// nothing.
    pub fn update(&mut self, m: Message) -> (r: Effect)
        requires
            old(self).wf(),
            old(self).spawned < u64::MAX,
        ensures
            *final(self) == spec_step(*old(self), m),
            r == spec_effect(*old(self), m),
            final(self).wf(),
            old(self).spawned <= final(self).spawned,
    {
        match m {
            Message::Search(e) => match self.screen {
                Screen::Search { .. } => match e {
                    SearchEvent::Handled => Effect::Idle,
                    SearchEvent::Run(task) => Effect::RunSearch(task),
                    SearchEvent::ModelChosen(model) => {
                        self.screen = Screen::Boot {
                            model,
                            system: self.system,
                            generation: self.spawned,
                        };
                        self.spawned = self.spawned + 1;
                        Effect::Idle
                    },
                },
                _ => Effect::Idle,
            },
            Message::Boot(e) => match self.screen {
                Screen::Boot { .. } => match e {
                    BootEvent::Handled => Effect::Idle,
                    BootEvent::Run(task) => Effect::RunBoot(task),
                    BootEvent::Finished(assistant) => {
                        self.screen = Screen::Conversation {
                            assistant,
                            generation: self.spawned,
                        };
                        self.spawned = self.spawned + 1;
                        Effect::StartConversation
                    },
                    BootEvent::Aborted => self.search(),
                },
                _ => Effect::Idle,
            },
            Message::Conversation(e) => match self.screen {
                Screen::Conversation { .. } => match e {
                    ConversationEvent::Handled => Effect::Idle,
                    ConversationEvent::Run(task) => Effect::RunConversation(task),
                    ConversationEvent::Back => self.search(),
                },
                _ => Effect::Idle,
            },
            Message::SystemFetched(info) => {
                if self.system.is_none() {
                    self.system = Some(info);
                }
                Effect::Idle
            },
            Message::Escape => match self.screen {
                Screen::Search { .. } => Effect::Idle,
                _ => self.search(),
            },
        }
    }

    /// Which screen title and view to delegate to: a pure projection of
    /// the active screen.
    pub fn active_screen_tag(&self) -> (r: ScreenTag)
        ensures
            r == self.screen.tag(),
    {
        match self.screen {
            Screen::Search { .. } => ScreenTag::Search,
            Screen::Boot { .. } => ScreenTag::Boot,
            Screen::Conversation { .. } => ScreenTag::Conversation,
        }
    }

    /// The standing event sources to listen to, recomputed per render:
    /// the active screen's own stream (the conversation screen has
    /// none) plus the always-on global escape-key listener.
    pub fn subscription(&self) -> (r: SubscriptionSet)
        ensures
            r.escape_hotkey,
            r.screen_source == (match self.screen.tag() {
                ScreenTag::Search => Some(ScreenTag::Search),
                ScreenTag::Boot => Some(ScreenTag::Boot),
                ScreenTag::Conversation => None::<ScreenTag>,
            }),
    {
        let screen_source: Option<ScreenTag> = match self.screen {
            Screen::Search { .. } => Some(ScreenTag::Search),
            Screen::Boot { .. } => Some(ScreenTag::Boot),
            Screen::Conversation { .. } => None,
        };
        SubscriptionSet { screen_source, escape_hotkey: true }
    }

    /// The theme is a fixed constant, independent of state.
    pub fn theme(&self) -> (r: ThemeChoice)
        ensures
            r == ThemeChoice::TokyoNight,
    {
        ThemeChoice::TokyoNight
    }
}

/// What the global keyboard listener feeds the coordinator: only the
/// escape key maps to a message; every other key produces none and must
/// not be forwarded to the screens from this path.
pub fn hotkey_message(key: KeyPress) -> (r: Option<Message>)
    ensures
        key is NamedEscape ==> r == Some(Message::Escape),
        !(key is NamedEscape) ==> r is None,
{
    match key {
        KeyPress::NamedEscape => Some(Message::Escape),
        _ => None,
    }
}

} // verus!
