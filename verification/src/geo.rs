//! GeoFormatter: decimal-degree coordinates, held as integer micro-degrees,
//! rendered in the sexagesimal EXIF form `"<degrees>,<minutes>.<milli>N"`.

use vstd::prelude::*;

use crate::strutil::{digit_char, push_char, push_frac3, push_u64_dec};
use crate::strutil::{spec_dec_digits, spec_frac3};

verus! {

/// Hemisphere letter: N/S for latitude, E/W for longitude; a non-negative
/// coordinate is N or E.
pub open spec fn spec_hemisphere(negative: bool, is_latitude: bool) -> char {
    if is_latitude {
        if negative {
            'S'
        } else {
            'N'
        }
    } else {
        if negative {
            'W'
        } else {
            'E'
        }
    }
}

/// Numeric body for a coordinate magnitude in micro-degrees: whole degrees,
/// a comma, and decimal minutes with exactly three fractional digits. The
/// milli-minute count is the fractional part times sixty, rounded half up.
pub open spec fn spec_dms_body(magnitude_microdeg: int) -> Seq<char> {
    let d = magnitude_microdeg / 1000000;
    let f = magnitude_microdeg % 1000000;
    let milli = (f * 60 + 500) / 1000;
    spec_dec_digits(d) + seq![','] + spec_dec_digits(milli / 1000) + seq!['.'] + spec_frac3(
        milli % 1000,
    )
}

/// The full EXIF string for a coordinate in micro-degrees: the numeric body
/// of its magnitude followed by the hemisphere letter of its sign.
pub open spec fn spec_dms(microdeg: int, is_latitude: bool) -> Seq<char> {
    spec_dms_body(
        if microdeg >= 0 {
            microdeg
        } else {
            -microdeg
        },
    ) + seq![spec_hemisphere(microdeg < 0, is_latitude)]
}

/// Converts a coordinate in micro-degrees to its EXIF sexagesimal string,
/// e.g. 39351700 micro-degrees of latitude to `"39,21.102N"`.
pub fn decimal_to_exif_dms(micro_degrees: i64, is_latitude: bool) -> (r: String)
    ensures
        r@ == spec_dms(micro_degrees as int, is_latitude),
{
    let magnitude: u64 = if micro_degrees >= 0 {
        micro_degrees as u64
    } else {
        let wide = micro_degrees as i128;
        (-wide) as u64
    };
    let d = magnitude / 1000000;
    let f = magnitude % 1000000;
    let milli = (f * 60 + 500) / 1000;
    let mut r = String::new();
    push_u64_dec(&mut r, d);
    push_char(&mut r, ',');
    push_u64_dec(&mut r, milli / 1000);
    push_char(&mut r, '.');
    push_frac3(&mut r, milli % 1000);
    let suffix = if is_latitude {
        if micro_degrees >= 0 {
            'N'
        } else {
            'S'
        }
    } else {
        if micro_degrees >= 0 {
            'E'
        } else {
            'W'
        }
    };
    push_char(&mut r, suffix);
    proof {
        assert(r@ =~= spec_dms(micro_degrees as int, is_latitude));
    }
    r
}

/// GeoFormatter law: negating a coordinate flips only the hemisphere letter;
/// the numeric body depends on the magnitude alone, and the letter table is
/// N/S for latitude and E/W for longitude.
pub proof fn lemma_dms_sign_flips_hemisphere(microdeg: int, is_latitude: bool)
    requires
        microdeg > 0,
    ensures
        spec_dms(microdeg, is_latitude) == spec_dms_body(microdeg) + seq![
            spec_hemisphere(false, is_latitude),
        ],
        spec_dms(-microdeg, is_latitude) == spec_dms_body(microdeg) + seq![
            spec_hemisphere(true, is_latitude),
        ],
        spec_hemisphere(false, true) == 'N' && spec_hemisphere(true, true) == 'S',
        spec_hemisphere(false, false) == 'E' && spec_hemisphere(true, false) == 'W',
{
}

} // verus!
