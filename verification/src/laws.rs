//! Properties of the coordinator over whole message runs.

use crate::chat::Chat;
use crate::chat::Effect;
use crate::chat::Message;
use crate::chat::spec_effect;
use crate::chat::spec_step;
use crate::chat::with_fresh_search;
use crate::screen::ScreenTag;
use vstd::prelude::*;

verus! {

/// The state after a whole sequence of messages, processed strictly
/// one at a time in arrival order.
pub open spec fn run(s: Chat, msgs: Seq<Message>) -> Chat
    decreases msgs.len(),
{
    if msgs.len() == 0 {
        s
    } else {
        run(spec_step(s, msgs[0]), msgs.drop_first())
    }
}

/// The destination the transition table predicts for one message: a
/// chosen model boots, a finished boot converses, an abort or a back
/// returns home, escape always ends on the search screen, and anything
/// else leaves the tag alone.
pub open spec fn table_target(t: ScreenTag, m: Message) -> ScreenTag {
    match m {
        Message::Search(e) => if t == ScreenTag::Search && e is ModelChosen {
            ScreenTag::Boot
        } else {
            t
        },
        Message::Boot(e) => if t == ScreenTag::Boot {
            if e is Finished {
                ScreenTag::Conversation
            } else if e is Aborted {
                ScreenTag::Search
            } else {
                t
            }
        } else {
            t
        },
        Message::Conversation(e) => if t == ScreenTag::Conversation && e is Back {
            ScreenTag::Search
        } else {
            t
        },
        Message::SystemFetched(_) => t,
        Message::Escape => ScreenTag::Search,
    }
}

/// The tag the table predicts after a whole sequence of messages.
pub open spec fn table_run(t: ScreenTag, msgs: Seq<Message>) -> ScreenTag
    decreases msgs.len(),
{
    if msgs.len() == 0 {
        t
    } else {
        table_run(table_target(t, msgs[0]), msgs.drop_first())
    }
}

/// One step lands on the tag the transition table predicts.
pub proof fn lemma_step_follows_table(s: Chat, m: Message)
    ensures
        spec_step(s, m).screen.tag() == table_target(s.screen.tag(), m),
{
}

/// For every sequence of messages, the active screen's tag equals the
/// destination the transition table predicts.
pub proof fn lemma_run_follows_table(s: Chat, msgs: Seq<Message>)
    ensures
        run(s, msgs).screen.tag() == table_run(s.screen.tag(), msgs),
    decreases msgs.len(),
{
    if msgs.len() > 0 {
        lemma_step_follows_table(s, msgs[0]);
        lemma_run_follows_table(spec_step(s, msgs[0]), msgs.drop_first());
    }
}

/// Every step keeps the coordinator well formed, and the construction
/// counter never decreases, nor grows by more than one.
pub proof fn lemma_step_preserves_wf(s: Chat, m: Message)
    requires
        s.wf(),
        s.spawned < u64::MAX,
    ensures
        spec_step(s, m).wf(),
        s.spawned <= spec_step(s, m).spawned <= s.spawned + 1,
{
}

/// Every run from a well-formed coordinator stays well formed, as long
/// as the construction counter has room for one screen per message.
pub proof fn lemma_run_preserves_wf(s: Chat, msgs: Seq<Message>)
    requires
        s.wf(),
        s.spawned + msgs.len() <= u64::MAX,
    ensures
        run(s, msgs).wf(),
        s.spawned <= run(s, msgs).spawned <= s.spawned + msgs.len(),
    decreases msgs.len(),
{
    if msgs.len() > 0 {
        lemma_step_preserves_wf(s, msgs[0]);
        lemma_run_preserves_wf(spec_step(s, msgs[0]), msgs.drop_first());
    }
}

/// Escape while the search screen is active changes nothing and
/// schedules no task.
pub proof fn lemma_escape_on_search_is_noop(s: Chat)
    requires
        s.screen is Search,
    ensures
        spec_step(s, Message::Escape) == s,
        spec_effect(s, Message::Escape) == Effect::Idle,
{
}

/// Escape while the boot or conversation screen is active always lands
/// on a freshly constructed search screen: its generation was never
/// carried by the screen it replaces, nor by any screen constructed
/// earlier (whose generations all lie below the construction counter).
pub proof fn lemma_escape_builds_fresh_search(s: Chat, earlier: u64)
    requires
        s.wf(),
        !(s.screen is Search),
        s.spawned < u64::MAX,
        earlier < s.spawned,
    ensures
        spec_step(s, Message::Escape) == with_fresh_search(s),
        spec_step(s, Message::Escape).screen is Search,
        spec_step(s, Message::Escape).screen.generation() == s.spawned,
        spec_step(s, Message::Escape).screen.generation() != earlier,
        spec_step(s, Message::Escape).screen.generation() != s.screen.generation(),
        spec_effect(s, Message::Escape) == Effect::StartSearch,
{
}

/// Which screen kind a message is tagged for, if any; escape and the
/// fetch completion address the coordinator itself.
pub open spec fn addressed_to(m: Message) -> Option<ScreenTag> {
    match m {
        Message::Search(_) => Some(ScreenTag::Search),
        Message::Boot(_) => Some(ScreenTag::Boot),
        Message::Conversation(_) => Some(ScreenTag::Conversation),
        Message::SystemFetched(_) => None,
        Message::Escape => None,
    }
}

/// A message tagged for a screen kind other than the active one is
/// dropped silently: no state change and no scheduled task.
pub proof fn lemma_mismatched_message_dropped(s: Chat, m: Message)
    requires
        addressed_to(m) is Some,
        addressed_to(m) != Some(s.screen.tag()),
    ensures
        spec_step(s, m) == s,
        spec_effect(s, m) == Effect::Idle,
{
}

/// A step changes the system information only from unset to set, and
/// only on a fetch completion carrying exactly the fetched record.
pub proof fn lemma_system_info_set_at_most_once(s: Chat, m: Message)
    ensures
        spec_step(s, m).system != s.system ==> s.system is None
            && (m matches Message::SystemFetched(info) && spec_step(s, m).system == Some(info)),
{
}

/// Once system information is recorded, no run of messages ever changes
/// it again.
pub proof fn lemma_system_info_persists(s: Chat, msgs: Seq<Message>)
    requires
        s.system is Some,
    ensures
        run(s, msgs).system == s.system,
    decreases msgs.len(),
{
    if msgs.len() > 0 {
        lemma_system_info_persists(spec_step(s, msgs[0]), msgs.drop_first());
    }
}

} // verus!
