// Band layout of Oasis EQ: the filter shapes a band can take and the shape
// each band starts with.
use vstd::prelude::*;

verus! {

/// Number of EQ bands.
pub const EQ_BAND_COUNT: usize = 8;

/// The shape of an EQ band's filter.
#[derive(Clone, Copy, Debug, PartialEq, Eq, Structural)]
pub enum FilterType {
    Bell,
    LowShelf,
    HighShelf,
    LowCut,
    HighCut,
    Notch,
    Bandpass,
}

/// The normalized value, in units of `1 / NORMALIZED_ONE`, that an EQ band's
/// type parameter takes for `filter_type`: the shape's position among the
/// seven, over six, to three decimals.
pub open spec fn filter_type_value(filter_type: FilterType) -> u16 {
    match filter_type {
        FilterType::Bell => 0,
        FilterType::LowShelf => 1670,
        FilterType::HighShelf => 3330,
        FilterType::LowCut => 5000,
        FilterType::HighCut => 6670,
        FilterType::Notch => 8330,
        FilterType::Bandpass => 10000,
    }
}

/// The shape band `index` starts with: a low cut for the first band, a high
/// cut for the last, a bell for the others.
pub open spec fn spec_default_filter_type(index: int) -> FilterType {
    if index == 0 {
        FilterType::LowCut
    } else if index == EQ_BAND_COUNT - 1 {
        FilterType::HighCut
    } else {
        FilterType::Bell
    }
}

/// The shape band `index` starts with.
pub fn default_filter_type(index: usize) -> (filter_type: FilterType)
    requires
        index < EQ_BAND_COUNT,
    ensures
        filter_type == spec_default_filter_type(index as int),
{
    if index == 0 {
        FilterType::LowCut
    } else if index == 7 {
        FilterType::HighCut
    } else {
        FilterType::Bell
    }
}

} // verus!
