//! Validation of an outgoing property batch against a device's declared
//! capabilities. Validation is pure and runs entirely before any wire I/O:
//! a batch either passes as a whole or is rejected as a whole, and the
//! transport only ever receives records that [`prepare_set_properties`]
//! produced from a batch that passed.

use vstd::prelude::*;
use crate::caps::{
    Capabilities, FE_CAN_GUARD_INTERVAL_AUTO, FE_CAN_HIERARCHY_AUTO, FE_CAN_INVERSION_AUTO,
    FE_CAN_MULTISTREAM, FE_CAN_TRANSMISSION_MODE_AUTO,
};
use crate::codec::{
    encode, spec_encode_payload, DtvProperty, DtvPropertyRequest, VoidPayload, WireRecord,
    DTV_IOCTL_MAX_MSGS,
};
use crate::enums::{
    fe_guard_interval, fe_hierarchy, fe_sec_tone_mode, fe_sec_voltage, fe_spectral_inversion,
    fe_transmit_mode,
};

verus! {

/// Why an outgoing batch was rejected; reported to the caller before any
/// I/O is attempted, and recoverable by fixing the batch.
#[derive(Debug, Clone, Copy, PartialEq, Eq, Structural)]
pub enum ValidationError {
    /// A batch carries at least one entry.
    BatchEmpty,
    /// A batch never exceeds the hard protocol ceiling of
    /// [`DTV_IOCTL_MAX_MSGS`] entries per call.
    BatchTooLarge,
    /// A frequency entry lies outside the declared frequency range.
    FrequencyOutOfRange,
    /// A symbol-rate entry lies outside the declared symbol-rate range.
    SymbolRateOutOfRange,
    /// Automatic inversion was requested but the device cannot detect it.
    NoAutoInversion,
    /// Automatic transmission mode was requested but the device cannot
    /// detect it.
    NoAutoTransmitMode,
    /// Automatic guard interval was requested but the device cannot
    /// detect it.
    NoAutoGuardInterval,
    /// Automatic hierarchy was requested but the device cannot detect it.
    NoAutoHierarchy,
    /// A stream id was requested but the device cannot filter multiple
    /// streams.
    NoMultistream,
}

/// The rule each validated kind is held to; every other kind passes
/// through unchecked, for forward compatibility with driver-specific
/// properties.
pub open spec fn spec_entry_error(caps: Capabilities, p: DtvProperty) -> Option<ValidationError> {
    match p {
        DtvProperty::DTV_FREQUENCY(d) => if !caps.spec_frequency_in_range(d.data) {
            Some(ValidationError::FrequencyOutOfRange)
        } else {
            None
        },
        DtvProperty::DTV_SYMBOL_RATE(d) => if !caps.spec_symbolrate_in_range(d.data) {
            Some(ValidationError::SymbolRateOutOfRange)
        } else {
            None
        },
        DtvProperty::DTV_INVERSION(d) => if d.data == fe_spectral_inversion::INVERSION_AUTO
            && !caps.caps.spec_contains(FE_CAN_INVERSION_AUTO) {
            Some(ValidationError::NoAutoInversion)
        } else {
            None
        },
        DtvProperty::DTV_TRANSMISSION_MODE(d) => if d.data
            == fe_transmit_mode::TRANSMISSION_MODE_AUTO && !caps.caps.spec_contains(
            FE_CAN_TRANSMISSION_MODE_AUTO,
        ) {
            Some(ValidationError::NoAutoTransmitMode)
        } else {
            None
        },
        DtvProperty::DTV_GUARD_INTERVAL(d) => if d.data == fe_guard_interval::GUARD_INTERVAL_AUTO
            && !caps.caps.spec_contains(FE_CAN_GUARD_INTERVAL_AUTO) {
            Some(ValidationError::NoAutoGuardInterval)
        } else {
            None
        },
        DtvProperty::DTV_HIERARCHY(d) => if d.data == fe_hierarchy::HIERARCHY_AUTO
            && !caps.caps.spec_contains(FE_CAN_HIERARCHY_AUTO) {
            Some(ValidationError::NoAutoHierarchy)
        } else {
            None
        },
        DtvProperty::DTV_STREAM_ID(_) => if !caps.caps.spec_contains(FE_CAN_MULTISTREAM) {
            Some(ValidationError::NoMultistream)
        } else {
            None
        },
        _ => None,
    }
}

/// The first per-entry rule violation at or after position `i`, in batch
/// order.
pub open spec fn spec_first_entry_error(
    caps: Capabilities,
    s: Seq<DtvProperty>,
    i: int,
) -> Option<ValidationError>
    decreases s.len() - i,
{
    if i < 0 || i >= s.len() {
        None
    } else {
        match spec_entry_error(caps, s[i]) {
            Some(e) => Some(e),
            None => spec_first_entry_error(caps, s, i + 1),
        }
    }
}

/// What validating a batch reports: the size rules first, then the first
/// per-entry rule violation in batch order, and nothing when the batch
/// passes.
pub open spec fn spec_validate(caps: Capabilities, s: Seq<DtvProperty>) -> Option<
    ValidationError,
> {
    if s.len() == 0 {
        Some(ValidationError::BatchEmpty)
    } else if s.len() > DTV_IOCTL_MAX_MSGS {
        Some(ValidationError::BatchTooLarge)
    } else {
        spec_first_entry_error(caps, s, 0)
    }
}

/// Checks an outgoing batch against the declared capabilities: the batch
/// size first, then each entry of the validated subset against its rule,
/// in order. Pure; issues no I/O and never partially applies a batch.
pub fn check_properties(caps: &Capabilities, cmdseq: &Vec<DtvProperty>) -> (r: Result<
    (),
    ValidationError,
>)
    ensures
        r is Ok <==> spec_validate(*caps, cmdseq@) is None,
        r is Err ==> Some(r->Err_0) == spec_validate(*caps, cmdseq@),
{
    if cmdseq.len() == 0 {
        return Err(ValidationError::BatchEmpty);
    }
    if cmdseq.len() > DTV_IOCTL_MAX_MSGS {
        return Err(ValidationError::BatchTooLarge);
    }
    let mut i: usize = 0;
    while i < cmdseq.len()
        invariant
            i <= cmdseq@.len(),
            1 <= cmdseq@.len() <= DTV_IOCTL_MAX_MSGS,
            spec_first_entry_error(*caps, cmdseq@, 0) == spec_first_entry_error(
                *caps,
                cmdseq@,
                i as int,
            ),
        decreases cmdseq@.len() - i,
    {
        let e = entry_error(caps, &cmdseq[i]);
        match e {
            Some(err) => {
                return Err(err);
            },
            None => {},
        }
        i += 1;
    }
    Ok(())
}

/// Checks one entry against the rule for its kind, if it has one.
fn entry_error(caps: &Capabilities, p: &DtvProperty) -> (r: Option<ValidationError>)
    ensures
        r == spec_entry_error(*caps, *p),
{
    match p {
        DtvProperty::DTV_FREQUENCY(d) => if !caps.frequency_in_range(d.data) {
            Some(ValidationError::FrequencyOutOfRange)
        } else {
            None
        },
        DtvProperty::DTV_SYMBOL_RATE(d) => if !caps.symbolrate_in_range(d.data) {
            Some(ValidationError::SymbolRateOutOfRange)
        } else {
            None
        },
        DtvProperty::DTV_INVERSION(d) => if d.data == fe_spectral_inversion::INVERSION_AUTO
            && !caps.caps.contains(FE_CAN_INVERSION_AUTO) {
            Some(ValidationError::NoAutoInversion)
        } else {
            None
        },
        DtvProperty::DTV_TRANSMISSION_MODE(d) => if d.data
            == fe_transmit_mode::TRANSMISSION_MODE_AUTO && !caps.caps.contains(
            FE_CAN_TRANSMISSION_MODE_AUTO,
        ) {
            Some(ValidationError::NoAutoTransmitMode)
        } else {
            None
        },
        DtvProperty::DTV_GUARD_INTERVAL(d) => if d.data == fe_guard_interval::GUARD_INTERVAL_AUTO
            && !caps.caps.contains(FE_CAN_GUARD_INTERVAL_AUTO) {
            Some(ValidationError::NoAutoGuardInterval)
        } else {
            None
        },
        DtvProperty::DTV_HIERARCHY(d) => if d.data == fe_hierarchy::HIERARCHY_AUTO
            && !caps.caps.contains(FE_CAN_HIERARCHY_AUTO) {
            Some(ValidationError::NoAutoHierarchy)
        } else {
            None
        },
        DtvProperty::DTV_STREAM_ID(_) => if !caps.caps.contains(FE_CAN_MULTISTREAM) {
            Some(ValidationError::NoMultistream)
        } else {
            None
        },
        _ => None,
    }
}

/// The batch that clears frontend settings: LNB power off, the 22kHz
/// tone off, and the clear trigger, in that order.
pub fn clear_batch() -> (r: Vec<DtvProperty>)
    ensures
        r@.len() == 3,
        r@[0] == DtvProperty::DTV_VOLTAGE(
            DtvPropertyRequest { data: fe_sec_voltage::SEC_VOLTAGE_OFF },
        ),
        r@[1] == DtvProperty::DTV_TONE(
            DtvPropertyRequest { data: fe_sec_tone_mode::SEC_TONE_OFF },
        ),
        r@[2] == DtvProperty::DTV_CLEAR(DtvPropertyRequest { data: VoidPayload {} }),
        forall|i: int| 0 <= i < 3 ==> (#[trigger] r@[i]).wf(),
{
    let mut r: Vec<DtvProperty> = Vec::new();
    r.push(DtvProperty::DTV_VOLTAGE(DtvPropertyRequest::new(fe_sec_voltage::SEC_VOLTAGE_OFF)));
    r.push(DtvProperty::DTV_TONE(DtvPropertyRequest::new(fe_sec_tone_mode::SEC_TONE_OFF)));
    r.push(DtvProperty::DTV_CLEAR(DtvPropertyRequest::new(VoidPayload {})));
    r
}

/// Validates an outgoing batch and, only when the whole batch passes,
/// encodes it into wire records. A rejected batch produces no record at
/// all, so the transport is never reached with partially validated data:
/// validation precedes I/O.
pub fn prepare_set_properties(caps: &Capabilities, cmdseq: &Vec<DtvProperty>) -> (r: Result<
    Vec<WireRecord>,
    ValidationError,
>)
    requires
        forall|i: int| 0 <= i < cmdseq@.len() ==> (#[trigger] cmdseq@[i]).wf(),
    ensures
        r is Ok <==> spec_validate(*caps, cmdseq@) is None,
        r is Err ==> Some(r->Err_0) == spec_validate(*caps, cmdseq@),
        r is Ok ==> {
            &&& r->Ok_0@.len() == cmdseq@.len()
            &&& forall|i: int|
                0 <= i < cmdseq@.len() ==> {
                    &&& (#[trigger] r->Ok_0@[i]).wf()
                    &&& r->Ok_0@[i].cmd == cmdseq@[i].code_spec()
                    &&& r->Ok_0@[i].data@ == spec_encode_payload(cmdseq@[i])
                }
        },
{
    check_properties(caps, cmdseq)?;
    let mut out: Vec<WireRecord> = Vec::new();
    let mut i: usize = 0;
    while i < cmdseq.len()
        invariant
            i <= cmdseq@.len(),
            out@.len() == i,
            forall|j: int| 0 <= j < cmdseq@.len() ==> (#[trigger] cmdseq@[j]).wf(),
            forall|j: int|
                0 <= j < i ==> {
                    &&& (#[trigger] out@[j]).wf()
                    &&& out@[j].cmd == cmdseq@[j].code_spec()
                    &&& out@[j].data@ == spec_encode_payload(cmdseq@[j])
                },
        decreases cmdseq@.len() - i,
    {
        let rec = encode(&cmdseq[i]);
        out.push(rec);
        i += 1;
    }
    Ok(out)
}

} // verus!
