// Editor logic of Oasis EQ: which parameter a preset entry addresses, and the
// parameter changes that loading a preset makes.
use vstd::prelude::*;

use crate::eq::presets::param_ids;
use crate::presets::{well_formed_bank, FactoryPreset};
use crate::text::{chars_eq, chars_of};

verus! {

/// A parameter of one EQ band.
#[derive(Clone, Copy, Debug, PartialEq, Eq, Structural)]
pub enum BandField {
    Freq,
    Gain,
    Q,
    FilterType,
    Enabled,
}

/// A parameter of the EQ that a preset entry can set.
#[derive(Clone, Copy, Debug, PartialEq, Eq, Structural)]
pub enum EqParam {
    OutputGain,
    /// A parameter of the band with this index, `0 ..= 7`.
    Band(usize, BandField),
}

/// The band field that an id suffix names.
pub open spec fn band_field_of(suffix: Seq<char>) -> Option<BandField> {
    if suffix == "freq"@ {
        Some(BandField::Freq)
    } else if suffix == "gain"@ {
        Some(BandField::Gain)
    } else if suffix == "q"@ {
        Some(BandField::Q)
    } else if suffix == "type"@ {
        Some(BandField::FilterType)
    } else if suffix == "on"@ {
        Some(BandField::Enabled)
    } else {
        None
    }
}

/// Whether `c` is a band digit, `'1' ..= '8'`.
pub open spec fn is_band_digit(c: char) -> bool {
    '1' <= c <= '8'
}

/// Ids of the form `b<band digit><c>...` whose third character `c` is not a
/// single byte in UTF-8: the editor cannot cut such an id after its third
/// byte.
pub open spec fn cut_inside_char(id: Seq<char>) -> bool {
    &&& id.len() >= 3
    &&& id[0] == 'b'
    &&& is_band_digit(id[1])
    &&& id[2] as u32 >= 128
}

/// The parameter that a preset entry with this id addresses: `output_gain`,
/// or `b<band>_<field>` with the band `1 ..= 8` and the field one of `freq`,
/// `gain`, `q`, `type`, `on`. The character between band and field is not
/// looked at.
pub open spec fn eq_param_of(id: Seq<char>) -> Option<EqParam> {
    if id == "output_gain"@ {
        Some(EqParam::OutputGain)
    } else if id.len() < 4 || id[0] != 'b' || !is_band_digit(id[1]) {
        None
    } else {
        match band_field_of(id.subrange(3, id.len() as int)) {
            Some(field) => Some(EqParam::Band((id[1] as u32 - '1' as u32) as usize, field)),
            None => None,
        }
    }
}

/// The parameter that the preset entry `param_id` addresses, if any.
pub fn band_param_target(param_id: &str) -> (target: Option<EqParam>)
    requires
        !cut_inside_char(param_id@),
    ensures
        target == eq_param_of(param_id@),
{
    let id = chars_of(param_id);
    if chars_eq(&id, &chars_of("output_gain")) {
        return Some(EqParam::OutputGain);
    }
    if id.len() < 4 || id[0] != 'b' {
        return None;
    }
    let band_char = id[1];
    if !('1' <= band_char && band_char <= '8') {
        return None;
    }
    let band_idx = (band_char as u32 - '1' as u32) as usize;
    let mut suffix: Vec<char> = Vec::new();
    let mut i: usize = 3;
    while i < id.len()
        invariant
            3 <= i <= id.len(),
            suffix@ == id@.subrange(3, i as int),
        decreases id.len() - i,
    {
        suffix.push(id[i]);
        i = i + 1;
    }
    let field = if chars_eq(&suffix, &chars_of("freq")) {
        BandField::Freq
    } else if chars_eq(&suffix, &chars_of("gain")) {
        BandField::Gain
    } else if chars_eq(&suffix, &chars_of("q")) {
        BandField::Q
    } else if chars_eq(&suffix, &chars_of("type")) {
        BandField::FilterType
    } else if chars_eq(&suffix, &chars_of("on")) {
        BandField::Enabled
    } else {
        return None;
    };
    Some(EqParam::Band(band_idx, field))
}

/// The id suffix that names a band field.
pub open spec fn field_suffix(field: BandField) -> Seq<char> {
    match field {
        BandField::Freq => "freq"@,
        BandField::Gain => "gain"@,
        BandField::Q => "q"@,
        BandField::FilterType => "type"@,
        BandField::Enabled => "on"@,
    }
}

/// An id `b<digit><separator><field>` addresses `field` of the band that
/// `digit` numbers from 1: band index `k` with `k + 1` the digit's value, so
/// `b1_...` is the first band (index 0) and `b8_...` the last (index 7).
pub proof fn law_band_ids_address_their_band(digit: char, separator: char, field: BandField)
    requires
        '1' <= digit <= '8',
        (separator as u32) < 128,
    ensures
        eq_param_of(seq!['b', digit, separator] + field_suffix(field)) matches Some(EqParam::Band(k, f))
            && f == field && k + ('1' as int) == digit as int && k < 8,
{
    reveal_strlit("output_gain");
    reveal_strlit("freq");
    reveal_strlit("gain");
    reveal_strlit("q");
    reveal_strlit("type");
    reveal_strlit("on");
    let suffix = field_suffix(field);
    let id = seq!['b', digit, separator] + suffix;
    assert(id[0] == 'b');
    assert(id[1] == digit);
    assert("output_gain"@[0] == 'o');
    assert(id != "output_gain"@);
    assert(id.subrange(3, id.len() as int) =~= suffix);
    assert("freq"@[0] != "gain"@[0]);
    assert("freq"@[0] != "type"@[0]);
    assert("gain"@[0] != "type"@[0]);
}

/// Ids that differ in their band digit address different bands.
pub proof fn law_band_digits_address_distinct_bands(
    digit: char,
    other: char,
    separator: char,
    field: BandField,
)
    requires
        '1' <= digit <= '8',
        '1' <= other <= '8',
        digit != other,
        (separator as u32) < 128,
    ensures
        eq_param_of(seq!['b', digit, separator] + field_suffix(field)) != eq_param_of(
            seq!['b', other, separator] + field_suffix(field),
        ),
{
    law_band_ids_address_their_band(digit, separator, field);
    law_band_ids_address_their_band(other, separator, field);
}

/// The parameter changes for `entries`, in order: one per entry whose id
/// addresses a parameter, the others skipped.
pub open spec fn eq_updates(entries: Seq<(Seq<char>, u16)>) -> Seq<(EqParam, u16)>
    decreases entries.len(),
{
    if entries.len() == 0 {
        Seq::empty()
    } else {
        let before = eq_updates(entries.drop_last());
        match eq_param_of(entries.last().0) {
            Some(target) => before.push((target, entries.last().1)),
            None => before,
        }
    }
}

/// The parameter changes that loading `preset` makes, with each value still
/// normalized to `0 ..= NORMALIZED_ONE`.
pub fn preset_updates(preset: &FactoryPreset) -> (updates: Vec<(EqParam, u16)>)
    requires
        forall|j: int| 0 <= j < preset.values@.len() ==> !cut_inside_char(#[trigger] preset.values@[j].0@),
    ensures
        updates@ == eq_updates(preset.entries()),
{
    let mut updates: Vec<(EqParam, u16)> = Vec::new();
    let mut j: usize = 0;
    while j < preset.values.len()
        invariant
            j <= preset.values@.len(),
            forall|k: int| 0 <= k < preset.values@.len() ==> !cut_inside_char(#[trigger] preset.values@[k].0@),
            updates@ == eq_updates(preset.entries().take(j as int)),
        decreases preset.values.len() - j,
    {
        let (param_id, value) = preset.values[j];
        assert(preset.entries().take(j as int + 1).drop_last() =~= preset.entries().take(j as int));
        if let Some(target) = band_param_target(param_id) {
            updates.push((target, value));
        }
        j = j + 1;
    }
    assert(preset.entries().take(j as int) =~= preset.entries());
    updates
}

/// Every parameter id that EQ presets may use addresses a parameter, and the
/// editor can cut it after its third byte.
pub proof fn lemma_param_ids_address_parameters()
    ensures
        forall|i: int|
            0 <= i < param_ids().len() ==> !cut_inside_char(#[trigger] param_ids()[i])
                && eq_param_of(param_ids()[i]) is Some,
{
    reveal_strlit("output_gain");
    reveal_strlit("freq");
    reveal_strlit("gain");
    reveal_strlit("q");
    reveal_strlit("type");
    reveal_strlit("on");
    reveal_strlit("b1_freq");
    reveal_strlit("b1_gain");
    reveal_strlit("b1_q");
    reveal_strlit("b1_type");
    reveal_strlit("b1_on");
    reveal_strlit("b2_freq");
    reveal_strlit("b2_gain");
    reveal_strlit("b2_q");
    reveal_strlit("b2_type");
    reveal_strlit("b2_on");
    reveal_strlit("b3_freq");
    reveal_strlit("b3_gain");
    reveal_strlit("b3_q");
    reveal_strlit("b3_type");
    reveal_strlit("b3_on");
    reveal_strlit("b4_freq");
    reveal_strlit("b4_gain");
    reveal_strlit("b4_q");
    reveal_strlit("b4_type");
    reveal_strlit("b4_on");
    reveal_strlit("b5_freq");
    reveal_strlit("b5_gain");
    reveal_strlit("b5_q");
    reveal_strlit("b5_type");
    reveal_strlit("b5_on");
    reveal_strlit("b6_freq");
    reveal_strlit("b6_gain");
    reveal_strlit("b6_q");
    reveal_strlit("b6_type");
    reveal_strlit("b6_on");
    reveal_strlit("b7_freq");
    reveal_strlit("b7_gain");
    reveal_strlit("b7_q");
    reveal_strlit("b7_type");
    reveal_strlit("b7_on");
    reveal_strlit("b8_freq");
    reveal_strlit("b8_gain");
    reveal_strlit("b8_q");
    reveal_strlit("b8_type");
    reveal_strlit("b8_on");
    assert forall|i: int| 0 <= i < param_ids().len() implies !cut_inside_char(#[trigger] param_ids()[i])
        && eq_param_of(param_ids()[i]) is Some by {
        let id = param_ids()[i];
        if i > 0 {
            assert(id.subrange(3, id.len() as int) =~= "freq"@ || id.subrange(3, id.len() as int) =~= "gain"@
                || id.subrange(3, id.len() as int) =~= "q"@ || id.subrange(3, id.len() as int) =~= "type"@
                || id.subrange(3, id.len() as int) =~= "on"@);
        }
    }
}

/// Each entry, turned into the change of the parameter it addresses.
pub open spec fn entry_changes(entries: Seq<(Seq<char>, u16)>) -> Seq<(EqParam, u16)> {
    entries.map_values(|e: (Seq<char>, u16)| (eq_param_of(e.0)->Some_0, e.1))
}

/// When every entry addresses a parameter, the changes are the entries, one
/// for one and in order.
proof fn lemma_known_entries_all_apply(entries: Seq<(Seq<char>, u16)>)
    requires
        forall|j: int| 0 <= j < entries.len() ==> (eq_param_of(#[trigger] entries[j].0)) is Some,
    ensures
        eq_updates(entries) == entry_changes(entries),
    decreases entries.len(),
{
    if entries.len() > 0 {
        lemma_known_entries_all_apply(entries.drop_last());
        assert(eq_updates(entries) =~= entry_changes(entries));
    }
}

/// Loading a factory preset sets every value it lists, in order: no entry is
/// skipped.
pub proof fn law_factory_presets_apply_every_entry(presets: Seq<FactoryPreset>, i: int)
    requires
        well_formed_bank(presets, param_ids()),
        0 <= i < presets.len(),
    ensures
        eq_updates(presets[i].entries()) == entry_changes(presets[i].entries()),
        forall|j: int|
            0 <= j < presets[i].values@.len() ==> !cut_inside_char(#[trigger] presets[i].values@[j].0@),
{
    lemma_param_ids_address_parameters();
    let entries = presets[i].entries();
    assert forall|j: int| 0 <= j < entries.len() implies (eq_param_of(#[trigger] entries[j].0)) is Some by {
        assert(presets[i].values@[j].1 <= 10000);
        let k = choose|k: int| 0 <= k < param_ids().len() && param_ids()[k] == presets[i].values@[j].0@;
        assert(eq_param_of(param_ids()[k]) is Some);
    }
    assert forall|j: int| 0 <= j < presets[i].values@.len() implies !cut_inside_char(
        #[trigger] presets[i].values@[j].0@,
    ) by {
        assert(presets[i].values@[j].1 <= 10000);
        let k = choose|k: int| 0 <= k < param_ids().len() && param_ids()[k] == presets[i].values@[j].0@;
        assert(!cut_inside_char(param_ids()[k]));
    }
    lemma_known_entries_all_apply(entries);
}

} // verus!
