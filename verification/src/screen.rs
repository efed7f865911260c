//! The three mutually exclusive UI modes and the values that seed them.

use vstd::prelude::*;

verus! {

/// Which of the three screens a value of [`Screen`] is.
#[derive(Clone, Copy, Debug, PartialEq, Eq, Structural)]
pub enum ScreenTag {
    Search,
    Boot,
    Conversation,
}

/// The model chosen on the search screen, identified by a plain id.
#[derive(Clone, Copy, Debug, PartialEq, Eq, Structural)]
pub struct ModelSelection {
    pub id: u64,
}

/// Opaque reference to a loaded, ready assistant, produced by the boot
/// screen and consumed by the conversation screen.
#[derive(Clone, Copy, Debug, PartialEq, Eq, Structural)]
pub struct AssistantHandle {
    pub id: u64,
}

/// Host-environment record, fetched asynchronously exactly once at
/// startup and optionally consulted by the boot screen.
#[derive(Clone, Copy, Debug, PartialEq, Eq, Structural)]
pub struct SystemInfo {
    pub memory_bytes: u64,
    pub logical_cores: u64,
}

/// The single live screen. At most one variant is ever alive; a
/// transition replaces the whole value with a brand-new instance.
///
/// `generation` numbers screens in order of construction: the
/// coordinator hands each newly built screen a number no earlier screen
/// ever carried, which is what "freshly constructed" means here.
#[derive(Clone, Copy, Debug, PartialEq, Eq, Structural)]
pub enum Screen {
    Search { generation: u64 },
    Boot { model: ModelSelection, system: Option<SystemInfo>, generation: u64 },
    Conversation { assistant: AssistantHandle, generation: u64 },
}

impl Screen {
    /// The variant of this screen, without its seed values.
    pub open spec fn tag(self) -> ScreenTag {
        match self {
            Screen::Search { .. } => ScreenTag::Search,
            Screen::Boot { .. } => ScreenTag::Boot,
            Screen::Conversation { .. } => ScreenTag::Conversation,
        }
    }

    /// The construction number the coordinator gave this screen.
    pub open spec fn generation(self) -> u64 {
        match self {
            Screen::Search { generation } => generation,
            Screen::Boot { generation, .. } => generation,
            Screen::Conversation { generation, .. } => generation,
        }
    }

    /// The construction number, for callers outside the proofs.
    pub fn generation_number(&self) -> (r: u64)
        ensures
            r == self.generation(),
    {
        match self {
            Screen::Search { generation } => *generation,
            Screen::Boot { generation, .. } => *generation,
            Screen::Conversation { generation, .. } => *generation,
        }
    }
}

} // verus!
