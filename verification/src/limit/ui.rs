// Editor logic of Oasis Limit: which parameter a preset entry addresses, and
// the parameter changes that loading a preset makes.
use vstd::prelude::*;

use crate::limit::presets::param_ids;
use crate::presets::{well_formed_bank, FactoryPreset};
use crate::text::str_is;

verus! {

/// A parameter of the limiter that a preset entry can set.
#[derive(Clone, Copy, Debug, PartialEq, Eq, Structural)]
pub enum LimitParam {
    Ceiling,
    InputGain,
    Release,
    Mode,
    Mix,
    OutputGain,
}

/// The parameter that a preset entry with this id addresses.
pub open spec fn limit_param_of(id: Seq<char>) -> Option<LimitParam> {
    if id == "ceiling"@ {
        Some(LimitParam::Ceiling)
    } else if id == "input_gain"@ {
        Some(LimitParam::InputGain)
    } else if id == "release"@ {
        Some(LimitParam::Release)
    } else if id == "mode"@ {
        Some(LimitParam::Mode)
    } else if id == "mix"@ {
        Some(LimitParam::Mix)
    } else if id == "output_gain"@ {
        Some(LimitParam::OutputGain)
    } else {
        None
    }
}

/// The parameter that the preset entry `param_id` addresses, if any.
pub fn limit_param_target(param_id: &str) -> (target: Option<LimitParam>)
    ensures
        target == limit_param_of(param_id@),
{
    if str_is(param_id, "ceiling") {
        Some(LimitParam::Ceiling)
    } else if str_is(param_id, "input_gain") {
        Some(LimitParam::InputGain)
    } else if str_is(param_id, "release") {
        Some(LimitParam::Release)
    } else if str_is(param_id, "mode") {
        Some(LimitParam::Mode)
    } else if str_is(param_id, "mix") {
        Some(LimitParam::Mix)
    } else if str_is(param_id, "output_gain") {
        Some(LimitParam::OutputGain)
    } else {
        None
    }
}

/// The parameter changes for `entries`, in order: one per entry whose id
/// addresses a parameter, the others skipped.
pub open spec fn limit_updates(entries: Seq<(Seq<char>, u16)>) -> Seq<(LimitParam, u16)>
    decreases entries.len(),
{
    if entries.len() == 0 {
        Seq::empty()
    } else {
        let before = limit_updates(entries.drop_last());
        match limit_param_of(entries.last().0) {
            Some(target) => before.push((target, entries.last().1)),
            None => before,
        }
    }
}

/// The parameter changes that loading `preset` makes, with each value still
/// normalized to `0 ..= NORMALIZED_ONE`.
pub fn preset_updates(preset: &FactoryPreset) -> (updates: Vec<(LimitParam, u16)>)
    ensures
        updates@ == limit_updates(preset.entries()),
{
    let mut updates: Vec<(LimitParam, u16)> = Vec::new();
    let mut j: usize = 0;
    while j < preset.values.len()
        invariant
            j <= preset.values@.len(),
            updates@ == limit_updates(preset.entries().take(j as int)),
        decreases preset.values.len() - j,
    {
        let (param_id, value) = preset.values[j];
        assert(preset.entries().take(j as int + 1).drop_last() =~= preset.entries().take(j as int));
        if let Some(target) = limit_param_target(param_id) {
            updates.push((target, value));
        }
        j = j + 1;
    }
    assert(preset.entries().take(j as int) =~= preset.entries());
    updates
}

/// Every parameter id that limiter presets may use addresses a parameter.
pub proof fn lemma_param_ids_address_parameters()
    ensures
        forall|i: int| 0 <= i < param_ids().len() ==> (#[trigger] limit_param_of(param_ids()[i])) is Some,
{
}

/// Each limiter parameter id addresses the parameter it names, so different
/// ids address different parameters.
pub proof fn law_ids_address_named_parameters()
    ensures
        limit_param_of("ceiling"@) == Some(LimitParam::Ceiling),
        limit_param_of("input_gain"@) == Some(LimitParam::InputGain),
        limit_param_of("release"@) == Some(LimitParam::Release),
        limit_param_of("mode"@) == Some(LimitParam::Mode),
        limit_param_of("mix"@) == Some(LimitParam::Mix),
        limit_param_of("output_gain"@) == Some(LimitParam::OutputGain),
        forall|i: int, j: int|
            0 <= i < j < param_ids().len() ==> limit_param_of(#[trigger] param_ids()[i])
                != limit_param_of(#[trigger] param_ids()[j]),
{
    reveal_strlit("ceiling");
    reveal_strlit("input_gain");
    reveal_strlit("release");
    reveal_strlit("mode");
    reveal_strlit("mix");
    reveal_strlit("output_gain");
    assert("ceiling"@[0] != "input_gain"@[0]);
    assert("ceiling"@[0] != "release"@[0]);
    assert("ceiling"@[0] != "mode"@[0]);
    assert("ceiling"@[0] != "mix"@[0]);
    assert("input_gain"@[0] != "release"@[0]);
    assert("input_gain"@[0] != "mode"@[0]);
    assert("input_gain"@[0] != "mix"@[0]);
    assert("release"@[0] != "mode"@[0]);
    assert("release"@[0] != "mix"@[0]);
    assert("mode"@[1] != "mix"@[1]);
    assert("output_gain"@[0] != "ceiling"@[0]);
    assert("output_gain"@[0] != "input_gain"@[0]);
    assert("output_gain"@[0] != "release"@[0]);
    assert("output_gain"@[0] != "mode"@[0]);
    assert("output_gain"@[0] != "mix"@[0]);
}

/// Each entry, turned into the change of the parameter it addresses.
pub open spec fn entry_changes(entries: Seq<(Seq<char>, u16)>) -> Seq<(LimitParam, u16)> {
    entries.map_values(|e: (Seq<char>, u16)| (limit_param_of(e.0)->Some_0, e.1))
}

/// When every entry addresses a parameter, the changes are the entries, one
/// for one and in order.
proof fn lemma_known_entries_all_apply(entries: Seq<(Seq<char>, u16)>)
    requires
        forall|j: int| 0 <= j < entries.len() ==> (limit_param_of(#[trigger] entries[j].0)) is Some,
    ensures
        limit_updates(entries) == entry_changes(entries),
    decreases entries.len(),
{
    if entries.len() > 0 {
        lemma_known_entries_all_apply(entries.drop_last());
        assert(limit_updates(entries) =~= entry_changes(entries));
    }
}

/// Loading a factory preset sets every value it lists, in order: no entry is
/// skipped.
pub proof fn law_factory_presets_apply_every_entry(presets: Seq<FactoryPreset>, i: int)
    requires
        well_formed_bank(presets, param_ids()),
        0 <= i < presets.len(),
    ensures
        limit_updates(presets[i].entries()) == entry_changes(presets[i].entries()),
{
        let entries = presets[i].entries();
    assert forall|j: int| 0 <= j < entries.len() implies (limit_param_of(#[trigger] entries[j].0)) is Some by {
        assert(presets[i].values@[j].1 <= 10000);
        let k = choose|k: int| 0 <= k < param_ids().len() && param_ids()[k] == presets[i].values@[j].0@;
        assert(limit_param_of(param_ids()[k]) is Some);
    }
    lemma_known_entries_all_apply(entries);
}

} // verus!
