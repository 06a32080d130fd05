use vstd::prelude::*;

verus! {

/// Numeric representation of the samples a session accepts.
#[derive(Debug, Clone, Copy, PartialEq, Eq, Hash, Structural)]
pub enum SG_SampleType {
    SG_SAMPLE_PCM8,
    SG_SAMPLE_PCM16,
    SG_SAMPLE_PCM32,
    SG_SAMPLE_FLOAT32,
    SG_SAMPLE_FLOAT64,
}

/// Input sample rates the engine supports.
#[derive(Debug, Clone, Copy, PartialEq, Eq, Hash, Structural)]
pub enum SG_SampleRate {
    SG_RATE_8KHZ,
    SG_RATE_12KHZ,
    SG_RATE_16KHZ,
    SG_RATE_24KHZ,
    SG_RATE_32KHZ,
    SG_RATE_48KHZ,
}

/// Input format negotiated when a session is opened.
#[derive(Debug, Clone, Copy, PartialEq, Eq, Hash, Structural)]
pub struct SG_InputTraits {
    pub sample_type: SG_SampleType,
    pub sample_rate: SG_SampleRate,
}

/// Output format the engine reports for a session.
#[derive(Debug, Clone, Copy, PartialEq, Eq, Hash, Structural)]
pub struct SG_OutputTraits {
    pub anim_node_count: u32,
}

/// Samples per second of a rate.
pub open spec fn rate_hz(r: SG_SampleRate) -> int {
    match r {
        SG_SampleRate::SG_RATE_8KHZ => 8000,
        SG_SampleRate::SG_RATE_12KHZ => 12000,
        SG_SampleRate::SG_RATE_16KHZ => 16000,
        SG_SampleRate::SG_RATE_24KHZ => 24000,
        SG_SampleRate::SG_RATE_32KHZ => 32000,
        SG_SampleRate::SG_RATE_48KHZ => 48000,
    }
}

/// Number of samples in one 10 ms quantum at a rate.
pub open spec fn frame_capacity(r: SG_SampleRate) -> nat {
    (rate_hz(r) / 100) as nat
}

/// The supported rate of exactly `hz` samples per second, if there is one.
pub open spec fn rate_from_hz(hz: int) -> Option<SG_SampleRate> {
    if hz == 8000 {
        Some(SG_SampleRate::SG_RATE_8KHZ)
    } else if hz == 12000 {
        Some(SG_SampleRate::SG_RATE_12KHZ)
    } else if hz == 16000 {
        Some(SG_SampleRate::SG_RATE_16KHZ)
    } else if hz == 24000 {
        Some(SG_SampleRate::SG_RATE_24KHZ)
    } else if hz == 32000 {
        Some(SG_SampleRate::SG_RATE_32KHZ)
    } else if hz == 48000 {
        Some(SG_SampleRate::SG_RATE_48KHZ)
    } else {
        None
    }
}

impl SG_SampleRate {
    pub fn to_rate(self) -> (r: i32)
        ensures
            r as int == rate_hz(self),
    {
        match self {
            SG_SampleRate::SG_RATE_8KHZ => 8000,
            SG_SampleRate::SG_RATE_12KHZ => 12000,
            SG_SampleRate::SG_RATE_16KHZ => 16000,
            SG_SampleRate::SG_RATE_24KHZ => 24000,
            SG_SampleRate::SG_RATE_32KHZ => 32000,
            SG_SampleRate::SG_RATE_48KHZ => 48000,
        }
    }

    pub fn from_rate(rate: i32) -> (r: Option<SG_SampleRate>)
        ensures
            r == rate_from_hz(rate as int),
            r matches Some(s) ==> rate_hz(s) == rate as int,
    {
        match rate {
            8000 => Some(SG_SampleRate::SG_RATE_8KHZ),
            12000 => Some(SG_SampleRate::SG_RATE_12KHZ),
            16000 => Some(SG_SampleRate::SG_RATE_16KHZ),
            24000 => Some(SG_SampleRate::SG_RATE_24KHZ),
            32000 => Some(SG_SampleRate::SG_RATE_32KHZ),
            48000 => Some(SG_SampleRate::SG_RATE_48KHZ),
            _ => None,
        }
    }
}

} // verus!
