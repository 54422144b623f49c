//! Candle-series input, output shapes, and the bar-field enumeration.

use vstd::prelude::*;

verus! {

/// Up to five optional equal-length series of double bit patterns, one per
/// bar field. Absence of a field is legal unless an indicator requires it.
pub struct InputData {
    pub open: Option<Vec<u64>>,
    pub high: Option<Vec<u64>>,
    pub low: Option<Vec<u64>>,
    pub close: Option<Vec<u64>>,
    pub volume: Option<Vec<u64>>,
}

/// The fixed bar-field enumeration.
#[derive(Clone, Copy, Debug, PartialEq, Eq, Structural)]
pub enum BarField {
    OPEN,
    HIGH,
    LOW,
    CLOSE,
    VOLUME,
}

/// The series stored for a field, as a sequence of bit patterns.
pub open spec fn spec_field(d: InputData, f: BarField) -> Option<Seq<u64>> {
    let o = match f {
        BarField::OPEN => d.open,
        BarField::HIGH => d.high,
        BarField::LOW => d.low,
        BarField::CLOSE => d.close,
        BarField::VOLUME => d.volume,
    };
    match o {
        Option::Some(v) => Option::Some(v@),
        Option::None => Option::None,
    }
}

impl InputData {
    pub fn get_by_bar_field(&self, bar_field: &BarField) -> (r: Option<&Vec<u64>>)
        ensures
            match r {
                Option::Some(v) => spec_field(*self, *bar_field) == Option::Some(v@),
                Option::None => spec_field(*self, *bar_field) is None,
            },
    {
        match bar_field {
            BarField::OPEN => self.open.as_ref(),
            BarField::HIGH => self.high.as_ref(),
            BarField::LOW => self.low.as_ref(),
            BarField::CLOSE => self.close.as_ref(),
            BarField::VOLUME => self.volume.as_ref(),
        }
    }
}

/// The uppercase name a field carries in error messages.
pub open spec fn spec_bar_field_name(f: BarField) -> Seq<char> {
    match f {
        BarField::OPEN => "OPEN"@,
        BarField::HIGH => "HIGH"@,
        BarField::LOW => "LOW"@,
        BarField::CLOSE => "CLOSE"@,
        BarField::VOLUME => "VOLUME"@,
    }
}

impl BarField {
    pub fn to_str(&self) -> (s: &str)
        ensures
            s@ == spec_bar_field_name(*self),
    {
        match self {
            BarField::OPEN => "OPEN",
            BarField::HIGH => "HIGH",
            BarField::LOW => "LOW",
            BarField::CLOSE => "CLOSE",
            BarField::VOLUME => "VOLUME",
        }
    }
}

/// One named output series or a fixed-key list of named series, every series
/// exactly as long as the input.
#[derive(Debug, Clone)]
pub enum OutputData {
    SingleSeries(Vec<u64>),
    MultiSeries(Vec<(String, Vec<u64>)>),
}

} // verus!
