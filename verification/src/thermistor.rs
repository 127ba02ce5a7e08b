//! Where the NTC thermistor sits in the voltage divider that the ADC
//! measures.

use vstd::prelude::*;

verus! {

/// The place of the NTC resistor in the voltage divider.
///
/// With the NTC on top, the voltage across it is the supply voltage less
/// the measured voltage; with the NTC at the bottom, it is the measured
/// voltage itself.
#[derive(Clone, Copy, Debug, PartialEq, Eq, Structural)]
pub enum DividerConfiguration {
    /// The NTC is in the upper leg, between the supply and the measuring point.
    NtcTop,
    /// The NTC is in the lower leg, between the measuring point and ground.
    NtcBottom,
}

impl DividerConfiguration {
    /// Whether the measured voltage is the one across the NTC itself, so
    /// that it need not be subtracted from the supply voltage.
    pub fn measures_ntc_directly(&self) -> (direct: bool)
        ensures
            direct <==> *self == DividerConfiguration::NtcBottom,
    {
        match self {
            DividerConfiguration::NtcTop => false,
            DividerConfiguration::NtcBottom => true,
        }
    }
}

} // verus!
