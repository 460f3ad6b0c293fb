//! What the program variants differ in: how long the worker lets the
//! platform settle, whether repeated states are suppressed, how a report is
//! labelled, what a failed query does to the worker, and which key events
//! and which probe a variant uses.
//!
//! The variants are kept as they are. Only the macOS variant remembers what
//! it emitted last and drops repeats; the others report every successful
//! query. Only the open-status variant lets a failed query stop its worker.

use vstd::prelude::*;
use vstd::string::*;
use crate::driver::Variant;
use crate::history::{
    cycles, emitted, lemma_cycles_emit_reported, lemma_dedupe_collapses_runs,
    lemma_without_dedupe_all_reported, lines,
};
use crate::probe::QueryKind;
use crate::raw_input::KeyRule;
use crate::worker::{initial_model, ErrorPolicy, Rules, WorkerConfig};

verus! {

/// The rules of the worker of `variant`.
pub open spec fn rules_of(variant: Variant) -> Rules {
    match variant {
        Variant::Fcitx5 => Rules {
            settle_ms: 0,
            dedupe: false,
            label: Some("ime_status"@),
            on_error: ErrorPolicy::Report,
        },
        Variant::Ibus => Rules {
            settle_ms: 0,
            dedupe: false,
            label: None,
            on_error: ErrorPolicy::Report,
        },
        Variant::MacOs => Rules {
            settle_ms: 40,
            dedupe: true,
            label: None,
            on_error: ErrorPolicy::Report,
        },
        Variant::WindowsLayout => Rules {
            settle_ms: 50,
            dedupe: false,
            label: Some("keyboard_layout"@),
            on_error: ErrorPolicy::Report,
        },
        Variant::WindowsOpenStatus => Rules {
            settle_ms: 50,
            dedupe: false,
            label: Some("ime_open_status"@),
            on_error: ErrorPolicy::Halt,
        },
    }
}

/// The key events that `variant` takes as a hint of a change.
pub open spec fn key_rule_of(variant: Variant) -> Option<KeyRule> {
    match variant {
        Variant::WindowsLayout => Some(KeyRule::ModifierReleased),
        Variant::WindowsOpenStatus => Some(KeyRule::ImeKeyPressed),
        _ => None,
    }
}

/// The probe that `variant` queries the state with.
pub open spec fn query_kind_of(variant: Variant) -> Option<QueryKind> {
    match variant {
        Variant::WindowsLayout => Some(QueryKind::KeyboardLayout),
        Variant::WindowsOpenStatus => Some(QueryKind::OpenStatus),
        _ => None,
    }
}

/// The configuration of the worker of `variant`.
pub fn worker_config(variant: Variant) -> (config: WorkerConfig)
    ensures
        config@ == rules_of(variant),
{
    match variant {
        Variant::Fcitx5 => WorkerConfig {
            settle_ms: 0,
            dedupe: false,
            label: Some(String::from_str("ime_status")),
            on_error: ErrorPolicy::Report,
        },
        Variant::Ibus => WorkerConfig {
            settle_ms: 0,
            dedupe: false,
            label: None,
            on_error: ErrorPolicy::Report,
        },
        Variant::MacOs => WorkerConfig {
            settle_ms: 40,
            dedupe: true,
            label: None,
            on_error: ErrorPolicy::Report,
        },
        Variant::WindowsLayout => WorkerConfig {
            settle_ms: 50,
            dedupe: false,
            label: Some(String::from_str("keyboard_layout")),
            on_error: ErrorPolicy::Report,
        },
        Variant::WindowsOpenStatus => WorkerConfig {
            settle_ms: 50,
            dedupe: false,
            label: Some(String::from_str("ime_open_status")),
            on_error: ErrorPolicy::Halt,
        },
    }
}

/// The key events that `variant` takes as a hint of a change, if it listens
/// to the keyboard at all.
pub fn key_rule(variant: Variant) -> (rule: Option<KeyRule>)
    ensures
        rule == key_rule_of(variant),
{
    match variant {
        Variant::WindowsLayout => Some(KeyRule::ModifierReleased),
        Variant::WindowsOpenStatus => Some(KeyRule::ImeKeyPressed),
        _ => None,
    }
}

/// The probe that `variant` queries the state with, if it has to find the
/// focused window for it.
pub fn query_kind(variant: Variant) -> (kind: Option<QueryKind>)
    ensures
        kind == query_kind_of(variant),
{
    match variant {
        Variant::WindowsLayout => Some(QueryKind::KeyboardLayout),
        Variant::WindowsOpenStatus => Some(QueryKind::OpenStatus),
        _ => None,
    }
}

/// The macOS variant drops repeats: when its queries return `a a b b a` for
/// two different states, `a` not empty, a fresh worker emits `a b a`.
pub proof fn lemma_macos_drops_repeats(a: Seq<char>, b: Seq<char>)
    requires
        a != b,
        a.len() > 0,
    ensures
        emitted(rules_of(Variant::MacOs), initial_model(), cycles(seq![a, a, b, b, a])) == seq![
            a,
            b,
            a,
        ],
{
    let rules = rules_of(Variant::MacOs);
    let states = seq![a, a, b, b, a];
    assert(a != Seq::<char>::empty());
    lemma_cycles_emit_reported(rules, initial_model(), states);
    lemma_dedupe_collapses_runs(Seq::<char>::empty(), a, b);
    assert(lines(None, seq![a, b, a]) =~= seq![a, b, a]);
}

/// Every other variant repeats itself: a fresh worker emits one line for
/// each state its queries return, in order, whether the state changed or
/// not.
pub proof fn lemma_other_variants_repeat(variant: Variant, states: Seq<Seq<char>>)
    requires
        variant != Variant::MacOs,
    ensures
        emitted(rules_of(variant), initial_model(), cycles(states)) == lines(
            rules_of(variant).label,
            states,
        ),
{
    lemma_cycles_emit_reported(rules_of(variant), initial_model(), states);
    lemma_without_dedupe_all_reported(Seq::<char>::empty(), states);
}

} // verus!
