use gssctx::status::{
    classify, gss_error, StatusClass, GSS_C_INDEFINITE, GSS_S_COMPLETE, GSS_S_CONTINUE_NEEDED,
};

#[test]
fn complete_has_no_error_bits() {
    assert_eq!(gss_error(GSS_S_COMPLETE), 0);
    assert_eq!(classify(GSS_S_COMPLETE), StatusClass::Success);
}

#[test]
fn continue_needed_is_not_an_error() {
    assert_eq!(gss_error(GSS_S_CONTINUE_NEEDED), 0);
    assert_eq!(classify(GSS_S_CONTINUE_NEEDED), StatusClass::ContinueNeeded);
}

#[test]
fn routine_error_is_fatal() {
    // GSS_S_FAILURE: routine error 13.
    let failure: u32 = 13 << 16;
    assert_eq!(gss_error(failure), 0x000d_0000);
    assert_eq!(classify(failure), StatusClass::Fatal);
}

#[test]
fn calling_error_is_fatal() {
    // GSS_S_CALL_BAD_STRUCTURE: calling error 3.
    let bad: u32 = 3 << 24;
    assert_eq!(gss_error(bad), 0x0300_0000);
    assert_eq!(classify(bad), StatusClass::Fatal);
}

#[test]
fn error_wins_over_continue_bit() {
    let major: u32 = (13 << 16) | GSS_S_CONTINUE_NEEDED;
    assert_eq!(gss_error(major), 13 << 16);
    assert_eq!(classify(major), StatusClass::Fatal);
}

#[test]
fn gss_error_clears_supplementary_bits() {
    assert_eq!(gss_error(0xffff_ffff), 0xffff_0000);
    assert_eq!(gss_error(0x0000_ffff), 0);
    assert_eq!(gss_error(0x0001_0000), 0x0001_0000);
}

#[test]
fn other_supplementary_bits_do_not_ask_to_continue() {
    // GSS_S_DUPLICATE_TOKEN is supplementary bit 1.
    assert_eq!(classify(2), StatusClass::Success);
    assert_eq!(classify(3), StatusClass::ContinueNeeded);
    assert_eq!(classify(0xfffe), StatusClass::Success);
    assert_eq!(classify(0xffff), StatusClass::ContinueNeeded);
}

#[test]
fn indefinite_is_the_largest_lifetime() {
    assert_eq!(GSS_C_INDEFINITE, u32::MAX);
    assert_ne!(GSS_C_INDEFINITE, 0);
}
