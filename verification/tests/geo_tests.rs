use attestation_mobile::geo::decimal_to_exif_dms;

#[test]
fn latitude_example() {
    // 39.3517 degrees = 39351700 micro-degrees.
    assert_eq!(decimal_to_exif_dms(39_351_700, true), "39,21.102N");
}

#[test]
fn longitude_example() {
    // -73.9857 degrees = -73985700 micro-degrees.
    assert_eq!(decimal_to_exif_dms(-73_985_700, false), "73,59.142W");
}

#[test]
fn sign_flips_hemisphere_letter_only() {
    assert_eq!(decimal_to_exif_dms(39_351_700, true), "39,21.102N");
    assert_eq!(decimal_to_exif_dms(-39_351_700, true), "39,21.102S");
    assert_eq!(decimal_to_exif_dms(73_985_700, false), "73,59.142E");
    assert_eq!(decimal_to_exif_dms(-73_985_700, false), "73,59.142W");
}

#[test]
fn zero_is_north_and_east() {
    assert_eq!(decimal_to_exif_dms(0, true), "0,0.000N");
    assert_eq!(decimal_to_exif_dms(0, false), "0,0.000E");
}

#[test]
fn minutes_can_render_as_sixty() {
    // 0.999999 degrees: 59.99994 minutes rounds to the fixed-point "60.000".
    assert_eq!(decimal_to_exif_dms(999_999, true), "0,60.000N");
}

#[test]
fn whole_degrees_have_zero_minutes() {
    assert_eq!(decimal_to_exif_dms(12_000_000, false), "12,0.000E");
}
