//! The operating mode enumeration and its (mode, filter) wire pair.

use vstd::prelude::*;

use crate::error::CivError;

verus! {

/// Operating mode of the radio.
///
/// The wire format encodes the mode as a (mode byte, filter byte) pair;
/// narrow/wide pairing exists only for FM and AM, and digital voice accepts
/// any filter byte on decode.
#[derive(Debug, Clone, Copy, PartialEq, Eq, Structural, Hash)]
pub enum OperatingMode {
    /// FM (wide)
    Fm,
    /// FM narrow
    FmN,
    /// AM (wide)
    Am,
    /// AM narrow
    AmN,
    /// Digital voice
    Dv,
}

/// Wire value of the FM mode byte.
pub const MODE_FM: u8 = 0x05;

/// Wire value of the AM mode byte.
pub const MODE_AM: u8 = 0x02;

/// Wire value of the digital-voice mode byte.
pub const MODE_DV: u8 = 0x17;

/// Wire value of the wide filter byte.
pub const FILTER_WIDE: u8 = 0x01;

/// Wire value of the narrow filter byte.
pub const FILTER_NARROW: u8 = 0x02;

/// Total decode of a (mode, filter) pair: the four FM/AM combinations, a
/// wildcard filter for digital voice, and an error for everything else.
pub open spec fn mode_from_bytes(mode: u8, filter: u8) -> Result<OperatingMode, CivError> {
    if mode == MODE_FM && filter == FILTER_WIDE {
        Ok(OperatingMode::Fm)
    } else if mode == MODE_FM && filter == FILTER_NARROW {
        Ok(OperatingMode::FmN)
    } else if mode == MODE_AM && filter == FILTER_WIDE {
        Ok(OperatingMode::Am)
    } else if mode == MODE_AM && filter == FILTER_NARROW {
        Ok(OperatingMode::AmN)
    } else if mode == MODE_DV {
        Ok(OperatingMode::Dv)
    } else {
        Err(CivError::UnknownMode(mode))
    }
}

/// The (mode byte, filter byte) pair a mode encodes to.
pub open spec fn mode_to_bytes(m: OperatingMode) -> (u8, u8) {
    match m {
        OperatingMode::Fm => (MODE_FM, FILTER_WIDE),
        OperatingMode::FmN => (MODE_FM, FILTER_NARROW),
        OperatingMode::Am => (MODE_AM, FILTER_WIDE),
        OperatingMode::AmN => (MODE_AM, FILTER_NARROW),
        OperatingMode::Dv => (MODE_DV, FILTER_WIDE),
    }
}

/// The wide/narrow counterpart of a mode; digital voice has none and maps
/// to itself.
pub open spec fn mode_toggled(m: OperatingMode) -> OperatingMode {
    match m {
        OperatingMode::Fm => OperatingMode::FmN,
        OperatingMode::FmN => OperatingMode::Fm,
        OperatingMode::Am => OperatingMode::AmN,
        OperatingMode::AmN => OperatingMode::Am,
        OperatingMode::Dv => OperatingMode::Dv,
    }
}

impl OperatingMode {
    /// Decode from the wire mode and filter bytes.
    pub fn from_civ_bytes(mode: u8, filter: u8) -> (r: Result<Self, CivError>)
        ensures
            r == mode_from_bytes(mode, filter),
    {
        if mode == MODE_FM && filter == FILTER_WIDE {
            Ok(Self::Fm)
        } else if mode == MODE_FM && filter == FILTER_NARROW {
            Ok(Self::FmN)
        } else if mode == MODE_AM && filter == FILTER_WIDE {
            Ok(Self::Am)
        } else if mode == MODE_AM && filter == FILTER_NARROW {
            Ok(Self::AmN)
        } else if mode == MODE_DV {
            Ok(Self::Dv)
        } else {
            Err(CivError::UnknownMode(mode))
        }
    }

    /// Encode to the wire (mode byte, filter byte) pair.
    pub fn to_civ_bytes(self) -> (r: (u8, u8))
        ensures
            r == mode_to_bytes(self),
    {
        match self {
            Self::Fm => (MODE_FM, FILTER_WIDE),
            Self::FmN => (MODE_FM, FILTER_NARROW),
            Self::Am => (MODE_AM, FILTER_WIDE),
            Self::AmN => (MODE_AM, FILTER_NARROW),
            Self::Dv => (MODE_DV, FILTER_WIDE),
        }
    }

    /// Toggle between the wide and narrow variant; digital voice stays
    /// unchanged.
    pub fn toggle_width(self) -> (r: Self)
        ensures
            r == mode_toggled(self),
    {
        match self {
            Self::Fm => Self::FmN,
            Self::FmN => Self::Fm,
            Self::Am => Self::AmN,
            Self::AmN => Self::Am,
            Self::Dv => Self::Dv,
        }
    }

    /// The display name of the mode.
    pub fn label(self) -> (r: &'static str)
        ensures
            self == OperatingMode::Fm ==> r@ == "FM"@,
            self == OperatingMode::FmN ==> r@ == "FM-N"@,
            self == OperatingMode::Am ==> r@ == "AM"@,
            self == OperatingMode::AmN ==> r@ == "AM-N"@,
            self == OperatingMode::Dv ==> r@ == "DV"@,
    {
        match self {
            Self::Fm => "FM",
            Self::FmN => "FM-N",
            Self::Am => "AM",
            Self::AmN => "AM-N",
            Self::Dv => "DV",
        }
    }

    /// True for the narrow (12.5 kHz) modes.
    pub fn is_narrow(self) -> (r: bool)
        ensures
            r == (self == OperatingMode::FmN || self == OperatingMode::AmN),
    {
        match self {
            Self::FmN | Self::AmN => true,
            _ => false,
        }
    }
}

/// Mode round trip: for a decodable (mode, filter) pair, re-encoding the
/// decoded mode and decoding again gives the same mode; every pair outside
/// the defined set fails with `UnknownMode`.
pub proof fn lemma_mode_round_trip(mode: u8, filter: u8)
    ensures
        mode_from_bytes(mode, filter) matches Ok(m) ==> mode_from_bytes(
            mode_to_bytes(m).0,
            mode_to_bytes(m).1,
        ) == Ok::<OperatingMode, CivError>(m),
        mode_from_bytes(mode, filter) is Err ==> mode_from_bytes(mode, filter) == Err::<
            OperatingMode,
            CivError,
        >(CivError::UnknownMode(mode)),
{
}

/// Toggling the channel width twice gives the original mode back.
pub proof fn lemma_toggle_width_involution(m: OperatingMode)
    ensures
        mode_toggled(mode_toggled(m)) == m,
{
}

} // verus!
