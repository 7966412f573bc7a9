//! The status words of the security service.
//!
//! Every call into the service answers with a primary (major) and a secondary
//! (minor) status word. The primary word is split into three fields: a calling
//! error in the top byte, a routine error in the byte below it, and sixteen
//! supplementary bits, the lowest of which asks for another round of a
//! negotiation. This module fixes that layout and classifies a primary word.
use vstd::prelude::*;

verus! {

/// The primary status of a call that succeeded without any qualification.
pub const GSS_S_COMPLETE: u32 = 0;

/// Position of the calling-error field in a primary status.
pub const GSS_C_CALLING_ERROR_OFFSET: u32 = 24;

/// Position of the routine-error field in a primary status.
pub const GSS_C_ROUTINE_ERROR_OFFSET: u32 = 16;

/// Position of the supplementary bits in a primary status.
pub const GSS_C_SUPPLEMENTARY_OFFSET: u32 = 0;

/// Width mask of the calling-error field, before it is shifted into place.
pub const GSS_C_CALLING_ERROR_MASK: u32 = 0xff;

/// Width mask of the routine-error field, before it is shifted into place.
pub const GSS_C_ROUTINE_ERROR_MASK: u32 = 0xff;

/// Width mask of the supplementary bits, before they are shifted into place.
pub const GSS_C_SUPPLEMENTARY_MASK: u32 = 0xffff;

/// Supplementary bit: the negotiation needs a further token from the peer.
pub const GSS_S_CONTINUE_NEEDED: u32 = 1;

/// Lifetime request that never expires.
pub const GSS_C_INDEFINITE: u32 = 0xffff_ffff;

/// Credential usage code: both initiate and accept.
pub const GSS_C_BOTH: u32 = 0;

/// Credential usage code: initiate only.
pub const GSS_C_INITIATE: u32 = 1;

/// Credential usage code: accept only.
pub const GSS_C_ACCEPT: u32 = 2;

/// Status type that asks the service to describe a primary status word.
pub const GSS_C_GSS_CODE: u32 = 1;

/// The bits of a primary status that belong to the two error fields.
pub open spec fn error_mask() -> u32 {
    (GSS_C_CALLING_ERROR_MASK << GSS_C_CALLING_ERROR_OFFSET) | (GSS_C_ROUTINE_ERROR_MASK
        << GSS_C_ROUTINE_ERROR_OFFSET)
}

/// The error fields of `x`, the supplementary bits cleared.
pub open spec fn spec_gss_error(x: u32) -> u32 {
    x & error_mask()
}

/// The two error fields together are the upper half of the word.
pub proof fn lemma_error_mask()
    ensures
        error_mask() == 0xffff_0000u32,
{
    assert((0xffu32 << 24u32) | (0xffu32 << 16u32) == 0xffff_0000u32) by (bit_vector);
}

/// The error fields of `x`, the supplementary bits cleared. The result is
/// non-zero exactly when the call that returned `x` failed.
#[verifier::when_used_as_spec(spec_gss_error)]
pub fn gss_error(x: u32) -> (r: u32)
    ensures
        r == spec_gss_error(x),
        r == x & 0xffff_0000u32,
{
    proof {
        lemma_error_mask();
    }
    x & ((GSS_C_CALLING_ERROR_MASK << GSS_C_CALLING_ERROR_OFFSET) | (GSS_C_ROUTINE_ERROR_MASK
        << GSS_C_ROUTINE_ERROR_OFFSET))
}

/// What a primary status means for a negotiation round.
#[derive(Clone, Copy, Debug, PartialEq, Eq, Structural)]
pub enum StatusClass {
    /// No error, and no further round is asked for.
    Success,
    /// No error, but the peer must answer before the context is established.
    ContinueNeeded,
    /// A calling error or a routine error is reported.
    Fatal,
}

/// The class of a primary status: an error field decides first, then the
/// continue bit.
pub open spec fn spec_classify(major: u32) -> StatusClass {
    if spec_gss_error(major) > 0 {
        StatusClass::Fatal
    } else if major & GSS_S_CONTINUE_NEEDED > 0 {
        StatusClass::ContinueNeeded
    } else {
        StatusClass::Success
    }
}

/// Classifies a primary status word.
#[verifier::when_used_as_spec(spec_classify)]
pub fn classify(major: u32) -> (r: StatusClass)
    ensures
        r == spec_classify(major),
{
    if gss_error(major) > 0 {
        StatusClass::Fatal
    } else if major & GSS_S_CONTINUE_NEEDED > 0 {
        StatusClass::ContinueNeeded
    } else {
        StatusClass::Success
    }
}

/// A status is fatal exactly when it reaches into the upper half of the word,
/// whatever its supplementary bits say.
pub proof fn lemma_fatal_iff_upper_half(major: u32)
    ensures
        spec_classify(major) == StatusClass::Fatal <==> major >= 0x1_0000,
{
    lemma_error_mask();
    assert((major & 0xffff_0000u32 > 0) <==> major >= 0x1_0000u32) by (bit_vector);
}

/// Without an error, the lowest bit alone separates a round that must go on
/// from one that is finished: the other supplementary bits do not count.
pub proof fn lemma_continue_iff_odd(major: u32)
    requires
        major < 0x1_0000,
    ensures
        spec_classify(major) == StatusClass::ContinueNeeded <==> major % 2 == 1,
        spec_classify(major) == StatusClass::Success <==> major % 2 == 0,
{
    lemma_fatal_iff_upper_half(major);
    assert((major & 1u32 > 0) <==> major % 2 == 1) by (bit_vector);
}

/// Unqualified success is classified as success.
pub proof fn lemma_complete_is_success()
    ensures
        spec_classify(GSS_S_COMPLETE) == StatusClass::Success,
        spec_classify(GSS_S_CONTINUE_NEEDED) == StatusClass::ContinueNeeded,
{
    lemma_continue_iff_odd(GSS_S_COMPLETE);
    lemma_continue_iff_odd(GSS_S_CONTINUE_NEEDED);
}

} // verus!
