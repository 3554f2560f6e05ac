//! Decisions taken on the values of a `MOTION ` container's JSON header:
//! the Bayer arrangement, DNG calibration illuminants and the camera name.

use vstd::prelude::*;
use crate::file::BayerPattern;
use crate::metadata::{push_chars, trim_range, trim_ws};
use crate::text::{lowercase, str_eq, to_chars, to_lowercase};

verus! {

broadcast use vstd::string::group_string_axioms;

/// The pattern a `sensorArrangement` value names; unknown or missing
/// values read as RGGB.
pub open spec fn spec_arrangement(s: Option<Seq<char>>) -> BayerPattern {
    match s {
        Some(t) => if t == "grbg"@ {
            BayerPattern::GRBG
        } else if t == "gbrg"@ {
            BayerPattern::GBRG
        } else if t == "bggr"@ {
            BayerPattern::BGGR
        } else {
            BayerPattern::RGGB
        },
        None => BayerPattern::RGGB,
    }
}

pub fn bayer_from_arrangement(s: Option<&str>) -> (r: BayerPattern)
    ensures
        r == spec_arrangement(match s {
            Some(t) => Some(t@),
            None => None,
        }),
{
    match s {
        Some(t) => {
            if str_eq(t, "grbg") {
                BayerPattern::GRBG
            } else if str_eq(t, "gbrg") {
                BayerPattern::GBRG
            } else if str_eq(t, "bggr") {
                BayerPattern::BGGR
            } else {
                BayerPattern::RGGB
            }
        },
        None => BayerPattern::RGGB,
    }
}

/// The DNG `CalibrationIlluminant` code of a (trimmed, lower-cased)
/// illuminant name.
pub open spec fn spec_illuminant_code(n: Seq<char>) -> Option<i32> {
    if n == "d50"@ || n == "horizon"@ || n == "cool_white"@ {
        Some(23)
    } else if n == "d55"@ {
        Some(22)
    } else if n == "d65"@ || n == "daylight"@ || n == "fine_weather"@ || n == "cloudy"@ {
        Some(21)
    } else if n == "d75"@ || n == "shade"@ {
        Some(24)
    } else if n == "standardlighta"@ || n == "standard_a"@ || n == "tungsten"@ || n
        == "incandescent"@ || n == "warm_white"@ || n == "iso_studio_tungsten"@ {
        Some(17)
    } else if n == "fluorescent"@ || n == "tl84"@ {
        Some(12)
    } else if n == "flash"@ || n == "standardlightb"@ {
        Some(4)
    } else {
        None
    }
}

/// The illuminant code of a normalised name.
pub fn illuminant_code(n: &str) -> (r: Option<i32>)
    ensures
        r == spec_illuminant_code(n@),
{
    if str_eq(n, "d50") || str_eq(n, "horizon") || str_eq(n, "cool_white") {
        Some(23)
    } else if str_eq(n, "d55") {
        Some(22)
    } else if str_eq(n, "d65") || str_eq(n, "daylight") || str_eq(n, "fine_weather") || str_eq(
        n,
        "cloudy",
    ) {
        Some(21)
    } else if str_eq(n, "d75") || str_eq(n, "shade") {
        Some(24)
    } else if str_eq(n, "standardlighta") || str_eq(n, "standard_a") || str_eq(n, "tungsten")
        || str_eq(n, "incandescent") || str_eq(n, "warm_white") || str_eq(
        n,
        "iso_studio_tungsten",
    ) {
        Some(17)
    } else if str_eq(n, "fluorescent") || str_eq(n, "tl84") {
        Some(12)
    } else if str_eq(n, "flash") || str_eq(n, "standardlightb") {
        Some(4)
    } else {
        None
    }
}

/// The illuminant code of a name as written in the header: trimmed and
/// compared without case.
pub fn illuminant_from_name(s: &str) -> (r: Option<i32>)
    ensures
        r == spec_illuminant_code(lowercase(trim_ws(s@))),
{
    let cs = to_chars(s);
    let (a, b) = trim_range(cs.as_slice(), 0, cs.len());
    let mut t = String::new();
    push_chars(&mut t, cs.as_slice(), a, b);
    proof {
        assert(cs@.subrange(0, cs@.len() as int) =~= s@);
        assert(t@ =~= cs@.subrange(a as int, b as int));
    }
    let lower = to_lowercase(t.as_str());
    illuminant_code(lower.as_str())
}

pub open spec fn non_empty(s: Option<String>) -> Option<String> {
    match s {
        Some(t) => if t@.len() > 0 {
            Some(t)
        } else {
            None
        },
        None => None,
    }
}

/// The camera's name: the device profile's model, else the unique camera
/// model, else the build model, whichever is first given and not empty.
pub fn choose_camera_model(
    device_model: Option<String>,
    unique_camera_model: Option<String>,
    build_model: Option<String>,
) -> (r: Option<String>)
    ensures
        r == if non_empty(device_model) is Some {
            non_empty(device_model)
        } else if non_empty(unique_camera_model) is Some {
            non_empty(unique_camera_model)
        } else {
            non_empty(build_model)
        },
{
    match device_model {
        Some(d) if d.as_str().unicode_len() > 0 => return Some(d),
        _ => {},
    }
    match unique_camera_model {
        Some(u) if u.as_str().unicode_len() > 0 => return Some(u),
        _ => {},
    }
    match build_model {
        Some(b) if b.as_str().unicode_len() > 0 => Some(b),
        _ => None,
    }
}

} // verus!
