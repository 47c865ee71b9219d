//! Scalability mode: `L` or `S`, one or two spatial-layer digits, `T`,
//! one or two temporal-layer digits, and an optional `_KEY` suffix;
//! trailing text is ignored. Layer counts start at 1.

use vstd::prelude::*;
use vstd::string::StringSliceAdditionalSpecFns;

verus! {

/// Scalability mode.
#[derive(Debug, Copy, Clone, Eq, PartialEq, Ord, PartialOrd, Hash, Structural)]
pub struct ScalabilityMode {
    /// Number of spatial layers.
    pub spatial_layers: u8,
    /// Number of temporal layers.
    pub temporal_layers: u8,
    /// K-SVC mode.
    pub ksvc: bool,
}

/// Error that caused [`ScalabilityMode`] parsing to fail.
#[derive(Debug, Copy, Clone, Eq, PartialEq, Structural)]
pub enum ParseScalabilityModeError {
    /// Invalid input string
    InvalidInput,
}

pub open spec fn is_nz_digit(b: u8) -> bool {
    0x31 <= b <= 0x39
}

/// A layer count (one or two digits, no leading zero) that must be
/// followed by `T`: the value and the position after the `T`. Two digits
/// are taken only when the `T` follows both; else one digit with the `T`
/// right after it.
pub open spec fn sm_layers_before_t(s: Seq<u8>, i: int) -> Option<(u8, int)> {
    if 0 <= i < s.len() && is_nz_digit(s[i]) {
        if i + 2 < s.len() && crate::codec::is_digit(s[i + 1]) && s[i + 2] == 0x54 {
            Some((((s[i] - 0x30) * 10 + (s[i + 1] - 0x30)) as u8, i + 3))
        } else if i + 1 < s.len() && s[i + 1] == 0x54 {
            Some(((s[i] - 0x30) as u8, i + 2))
        } else {
            None
        }
    } else {
        None
    }
}

/// A trailing layer count: two digits when the second is there, else one.
pub open spec fn sm_layers_at_end(s: Seq<u8>, i: int) -> Option<(u8, int)> {
    if 0 <= i < s.len() && is_nz_digit(s[i]) {
        if i + 1 < s.len() && crate::codec::is_digit(s[i + 1]) {
            Some((((s[i] - 0x30) * 10 + (s[i + 1] - 0x30)) as u8, i + 2))
        } else {
            Some(((s[i] - 0x30) as u8, i + 1))
        }
    } else {
        None
    }
}

/// Whether `_KEY` stands at position `i`.
pub open spec fn sm_key_at(s: Seq<u8>, i: int) -> bool {
    i + 4 <= s.len() && s[i] == 0x5f && s[i + 1] == 0x4b && s[i + 2] == 0x45 && s[i + 3] == 0x59
}

/// The scalability-mode grammar over the input bytes: `L` or `S`, the
/// spatial layers, `T`, the temporal layers, and the optional `_KEY`.
pub open spec fn sm_parse(s: Seq<u8>) -> Option<(u8, u8, bool)> {
    if s.len() >= 1 && (s[0] == 0x4c || s[0] == 0x53) {
        match sm_layers_before_t(s, 1) {
            Some(sp) => match sm_layers_at_end(s, sp.1) {
                Some(tp) => Some((sp.0, tp.0, sm_key_at(s, tp.1))),
                None => None,
            },
            None => None,
        }
    } else {
        None
    }
}

impl ScalabilityMode {
    /// Parses a scalability-mode string, exactly as `sm_parse` reads its
    /// bytes; anything the grammar refuses is `InvalidInput`.
    pub fn parse(s: &str) -> (r: Result<ScalabilityMode, ParseScalabilityModeError>)
        ensures
            match sm_parse(s.spec_bytes()) {
                Some(v) => r == Ok::<ScalabilityMode, ParseScalabilityModeError>(
                    ScalabilityMode { spatial_layers: v.0, temporal_layers: v.1, ksvc: v.2 },
                ),
                None => r == Err::<ScalabilityMode, ParseScalabilityModeError>(
                    ParseScalabilityModeError::InvalidInput,
                ),
            },
    {
        let b = s.as_bytes();
        let n = b.len();
        if n < 1 || (b[0] != 0x4c && b[0] != 0x53) {
            return Err(ParseScalabilityModeError::InvalidInput);
        }
        // Spatial layers, which the `T` must follow.
        if !(1 < n && 0x31 <= b[1] && b[1] <= 0x39) {
            return Err(ParseScalabilityModeError::InvalidInput);
        }
        let spatial_layers: u8;
        let mut p: usize;
        if 3 < n && 0x30 <= b[2] && b[2] <= 0x39 && b[3] == 0x54 {
            spatial_layers = (b[1] - 0x30) * 10 + (b[2] - 0x30);
            p = 4;
        } else if 2 < n && b[2] == 0x54 {
            spatial_layers = b[1] - 0x30;
            p = 3;
        } else {
            return Err(ParseScalabilityModeError::InvalidInput);
        }
        // Temporal layers.
        if !(p < n && 0x31 <= b[p] && b[p] <= 0x39) {
            return Err(ParseScalabilityModeError::InvalidInput);
        }
        let temporal_layers: u8;
        if p + 1 < n && 0x30 <= b[p + 1] && b[p + 1] <= 0x39 {
            temporal_layers = (b[p] - 0x30) * 10 + (b[p + 1] - 0x30);
            p = p + 2;
        } else {
            temporal_layers = b[p] - 0x30;
            p = p + 1;
        }
        // Optional `_KEY`.
        let ksvc = p + 4 <= n && b[p] == 0x5f && b[p + 1] == 0x4b && b[p + 2] == 0x45 && b[p + 3]
            == 0x59;
        Ok(ScalabilityMode { spatial_layers, temporal_layers, ksvc })
    }
}

impl core::str::FromStr for ScalabilityMode {
    type Err = ParseScalabilityModeError;

    fn from_str(s: &str) -> Result<Self, Self::Err> {
        Self::parse(s)
    }
}

impl Default for ScalabilityMode {
    /// One spatial and one temporal layer, no K-SVC.
    fn default() -> (r: Self)
        ensures
            r == (ScalabilityMode { spatial_layers: 1, temporal_layers: 1, ksvc: false }),
    {
        ScalabilityMode { spatial_layers: 1, temporal_layers: 1, ksvc: false }
    }
}

} // verus!
