//! The single-threaded update loop's state and transition function.
//!
//! All events — sampler ticks, external configuration changes, user
//! input — are serialized through `UsageApp::update`, the one place
//! that mutates `ApplicationState`. Side effects (opening or closing
//! the popup, persisting the flags, notifying the sampler) are returned
//! as an `Action` for the unverified shell to perform.

use vstd::prelude::*;

use crate::config::Config;
use crate::config::UsageElement;
use crate::metrics::UsageInfo;

verus! {

/// Messages emitted by the application and its widgets.
#[derive(Debug, Clone, PartialEq)]
pub enum Message {
    /// The external configuration store reported a change: the flags
    /// are replaced wholesale, never merged.
    UpdateConfig(Config),
    /// A sampler tick. An absent field means "not recomputed this
    /// tick, do not overwrite".
    UsageUpdate { cpu: Option<u64>, mem: Option<u64>, swap: Option<u64> },
    /// The panel control was pressed.
    TogglePopup,
    /// A popup checkbox was toggled.
    ToggleElement(UsageElement),
}

/// The side effect the shell must perform after a transition.
#[derive(Debug, Clone, PartialEq)]
pub enum Action {
    /// Nothing to do.
    Idle,
    /// Destroy the popup window with this id.
    ClosePopup(u64),
    /// Create a popup window under this id, anchored to the panel.
    OpenPopup(u64),
    /// Write the full flag set to the configuration store (a write
    /// failure is swallowed) and hand the sampler the same set as a
    /// full replacement of its enabled set.
    Persist(Config),
}

/// The application model: the latest snapshot, the display flags, and
/// the id of the popup while one is open. At most one popup exists at
/// a time, which the `Option` enforces by construction.
#[derive(Debug, Clone, PartialEq)]
pub struct UsageApp {
    pub config: Config,
    pub usage_info: UsageInfo,
    pub popup: Option<u64>,
}

/// One usage-update applied to a snapshot: present fields overwrite,
/// absent fields leave the stored value untouched.
pub open spec fn apply_usage(
    u: UsageInfo,
    cpu: Option<u64>,
    mem: Option<u64>,
    swap: Option<u64>,
) -> UsageInfo {
    UsageInfo {
        cpu: if cpu is Some { cpu->0 } else { u.cpu },
        memory: if mem is Some { mem->0 } else { u.memory },
        swap: if swap is Some { swap->0 } else { u.swap },
    }
}

/// The full transition relation of the update loop. `fresh_id` is the
/// window id a newly opened popup would be tracked under; it is read
/// only by `TogglePopup` on a closed popup.
pub open spec fn spec_update(s: UsageApp, m: Message, fresh_id: u64) -> (UsageApp, Action) {
    match m {
        Message::UpdateConfig(c) => (UsageApp { config: c, ..s }, Action::Idle),
        Message::UsageUpdate { cpu, mem, swap } => (
            UsageApp { usage_info: apply_usage(s.usage_info, cpu, mem, swap), ..s },
            Action::Idle,
        ),
        Message::TogglePopup => match s.popup {
            Option::Some(id) => (UsageApp { popup: Option::None, ..s }, Action::ClosePopup(id)),
            Option::None => (
                UsageApp { popup: Option::Some(fresh_id), ..s },
                Action::OpenPopup(fresh_id),
            ),
        },
        Message::ToggleElement(e) => (
            UsageApp { config: s.config.spec_toggled(e), ..s },
            Action::Persist(s.config.spec_toggled(e)),
        ),
    }
}

impl UsageApp {
    /// Build the startup state from the configuration the shell loaded
    /// (or `Config::default()` where the store was absent or
    /// mismatched): no sample yet, no popup open.
    pub fn init(config: Config) -> (app: UsageApp)
        ensures
            app.config == config,
            app.usage_info == (UsageInfo { cpu: 0, memory: 0, swap: 0 }),
            app.popup is None,
    {
        UsageApp {
            config,
            usage_info: UsageInfo { cpu: 0, memory: 0, swap: 0 },
            popup: Option::None,
        }
    }

    /// Apply one message, exactly as `spec_update` states it, and
    /// return the side effect the shell must perform.
    pub fn update(&mut self, message: Message, fresh_id: u64) -> (action: Action)
        ensures
            *final(self) == spec_update(*old(self), message, fresh_id).0,
            action == spec_update(*old(self), message, fresh_id).1,
    {
        match message {
            Message::UpdateConfig(c) => {
                self.config = c;
                Action::Idle
            },
            Message::UsageUpdate { cpu, mem, swap } => {
                if let Option::Some(v) = cpu {
                    self.usage_info.cpu = v;
                }
                if let Option::Some(v) = mem {
                    self.usage_info.memory = v;
                }
                if let Option::Some(v) = swap {
                    self.usage_info.swap = v;
                }
                Action::Idle
            },
            Message::TogglePopup => {
                match self.popup {
                    Option::Some(id) => {
                        self.popup = Option::None;
                        Action::ClosePopup(id)
                    },
                    Option::None => {
                        self.popup = Option::Some(fresh_id);
                        Action::OpenPopup(fresh_id)
                    },
                }
            },
            Message::ToggleElement(e) => {
                self.config.toggle(e);
                Action::Persist(self.config)
            },
        }
    }
}

/// A whole history of usage-update events applied in order to a
/// starting snapshot.
pub open spec fn fold_usage(
    u: UsageInfo,
    es: Seq<(Option<u64>, Option<u64>, Option<u64>)>,
) -> UsageInfo
    decreases es.len(),
{
    if es.len() == 0 {
        u
    } else {
        apply_usage(fold_usage(u, es.drop_last()), es.last().0, es.last().1, es.last().2)
    }
}

/// The most recent present value in a history of one metric's
/// optional readings, or the starting value where none is present.
pub open spec fn last_present(vals: Seq<Option<u64>>, init: u64) -> u64
    decreases vals.len(),
{
    if vals.len() == 0 {
        init
    } else if vals.last() is Some {
        vals.last()->0
    } else {
        last_present(vals.drop_last(), init)
    }
}

/// The cpu fields of a history of usage-update events.
pub open spec fn cpu_fields(es: Seq<(Option<u64>, Option<u64>, Option<u64>)>) -> Seq<Option<u64>> {
    es.map_values(|e: (Option<u64>, Option<u64>, Option<u64>)| e.0)
}

/// The memory fields of a history of usage-update events.
pub open spec fn mem_fields(es: Seq<(Option<u64>, Option<u64>, Option<u64>)>) -> Seq<Option<u64>> {
    es.map_values(|e: (Option<u64>, Option<u64>, Option<u64>)| e.1)
}

/// The swap fields of a history of usage-update events.
pub open spec fn swap_fields(es: Seq<(Option<u64>, Option<u64>, Option<u64>)>) -> Seq<Option<u64>> {
    es.map_values(|e: (Option<u64>, Option<u64>, Option<u64>)| e.2)
}

/// Law: after any sequence of usage-update events, each stored metric
/// value equals the most recent present value for that field — absent
/// fields never reset a value, and the starting value survives until
/// a present one arrives.
pub proof fn lemma_usage_last_present_wins(
    u: UsageInfo,
    es: Seq<(Option<u64>, Option<u64>, Option<u64>)>,
)
    ensures
        fold_usage(u, es).cpu == last_present(cpu_fields(es), u.cpu),
        fold_usage(u, es).memory == last_present(mem_fields(es), u.memory),
        fold_usage(u, es).swap == last_present(swap_fields(es), u.swap),
    decreases es.len(),
{
    if es.len() == 0 {
    } else {
        lemma_usage_last_present_wins(u, es.drop_last());
        assert(cpu_fields(es).drop_last() =~= cpu_fields(es.drop_last()));
        assert(mem_fields(es).drop_last() =~= mem_fields(es.drop_last()));
        assert(swap_fields(es).drop_last() =~= swap_fields(es.drop_last()));
        assert(cpu_fields(es).last() == es.last().0);
        assert(mem_fields(es).last() == es.last().1);
        assert(swap_fields(es).last() == es.last().2);
    }
}

/// The cpu/mem/swap fields of a history of usage-update messages.
pub open spec fn usage_fields(ms: Seq<Message>) -> Seq<(Option<u64>, Option<u64>, Option<u64>)>
    decreases ms.len(),
{
    if ms.len() == 0 {
        Seq::empty()
    } else {
        usage_fields(ms.drop_last()).push((ms.last()->cpu, ms.last()->mem, ms.last()->swap))
    }
}

/// A whole history of events applied in order through the transition
/// relation, discarding the per-step actions. The id a popup would
/// open under is passed through to every step; only a `TogglePopup`
/// on a closed popup ever reads it.
pub open spec fn fold_update(s: UsageApp, ms: Seq<Message>, fresh_id: u64) -> UsageApp
    decreases ms.len(),
{
    if ms.len() == 0 {
        s
    } else {
        spec_update(fold_update(s, ms.drop_last(), fresh_id), ms.last(), fresh_id).0
    }
}

/// Law: a history made only of usage-update events, fed through the
/// transition relation itself, touches neither the flags nor the
/// popup, and leaves the snapshot at the fold of the events' fields —
/// so, with `lemma_usage_last_present_wins`, each stored metric value
/// ends at the most recent present value for its field.
pub proof fn lemma_usage_update_history(s: UsageApp, ms: Seq<Message>, fresh_id: u64)
    requires
        forall|i: int| 0 <= i < ms.len() ==> (#[trigger] ms[i]) is UsageUpdate,
    ensures
        fold_update(s, ms, fresh_id).config == s.config,
        fold_update(s, ms, fresh_id).popup == s.popup,
        fold_update(s, ms, fresh_id).usage_info == fold_usage(s.usage_info, usage_fields(ms)),
    decreases ms.len(),
{
    if ms.len() == 0 {
    } else {
        lemma_usage_update_history(s, ms.drop_last(), fresh_id);
        assert(usage_fields(ms).drop_last() =~= usage_fields(ms.drop_last()));
        assert(ms[ms.len() - 1] is UsageUpdate);
    }
}

/// Law: toggling a metric twice in succession returns the application
/// state — the flags in particular — to its original value, and each
/// of the two steps asks for exactly one persistence write: two
/// toggles are exactly two writes, not one and not zero.
pub proof fn lemma_toggle_twice(s: UsageApp, e: UsageElement, id1: u64, id2: u64)
    ensures
        spec_update(
            spec_update(s, Message::ToggleElement(e), id1).0,
            Message::ToggleElement(e),
            id2,
        ).0 == s,
        spec_update(s, Message::ToggleElement(e), id1).1 == Action::Persist(
            s.config.spec_toggled(e),
        ),
        spec_update(
            spec_update(s, Message::ToggleElement(e), id1).0,
            Message::ToggleElement(e),
            id2,
        ).1 == Action::Persist(s.config),
{
}

/// Law: toggle-popup strictly alternates the open/closed state — it
/// opens a popup exactly when none is open — and applying it twice
/// restores whether one is open. It touches neither the flags nor the
/// stored values, and at most one popup id is ever tracked, which the
/// `Option` in `UsageApp::popup` enforces by construction.
pub proof fn lemma_toggle_popup_alternates(s: UsageApp, id1: u64, id2: u64)
    ensures
        (spec_update(s, Message::TogglePopup, id1).0.popup is Some) <==> !(s.popup is Some),
        (spec_update(
            spec_update(s, Message::TogglePopup, id1).0,
            Message::TogglePopup,
            id2,
        ).0.popup is Some) <==> (s.popup is Some),
        spec_update(s, Message::TogglePopup, id1).0.config == s.config,
        spec_update(s, Message::TogglePopup, id1).0.usage_info == s.usage_info,
{
}

} // verus!
