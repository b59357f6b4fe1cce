//! One compute round trip: what is uploaded, how the dispatch is sized, and
//! how the bytes read back become the new field.
//!
//! The device work itself is done by the caller. `plan_dispatch` says what
//! to create and issue; `complete_round_trip` takes what the device gave
//! back.

use vstd::prelude::*;
use crate::field::FieldBuffer;
use crate::grid::{tiles_for, workgroup_count};
use crate::params::{Parameters, PARAMETER_BYTES};
use crate::wire::{bytes_to_words, is_image, words_to_bytes};

verus! {

/// Binding slot of the read/write storage region that holds the field.
pub const FIELD_BINDING: u32 = 0;

/// Binding slot of the read-only uniform region that holds the parameters.
pub const PARAMETER_BINDING: u32 = 1;

/// Everything the device is asked to do in one round trip.
#[derive(Debug, PartialEq, Eq)]
pub struct DispatchPlan {
    /// Initial contents of the read/write storage region.
    pub storage: Vec<u8>,
    /// Binding slot of the storage region.
    pub storage_binding: u32,
    /// Initial contents of the read-only uniform region.
    pub uniform: Vec<u8>,
    /// Binding slot of the uniform region.
    pub uniform_binding: u32,
    /// Size in bytes of the host-readable staging region.
    pub staging_size: u64,
    /// Number of bytes copied from the storage region to the staging region
    /// once the dispatch has run.
    pub copy_size: u64,
    /// Workgroup counts along x, y and z.
    pub workgroups: (u32, u32, u32),
}

/// What the device handed back after the submitted work completed.
#[derive(Debug, PartialEq, Eq)]
pub enum Readback {
    /// The staging region was mapped; these are its bytes.
    Mapped(Vec<u8>),
    /// The staging region could not be mapped.
    MapFailed,
}

/// How a completed round trip left the field.
#[derive(Clone, Copy, Debug, PartialEq, Eq)]
pub enum RoundTrip {
    /// The field holds what the device computed.
    Fresh,
    /// Mapping failed; the field holds what it held before.
    Stale,
}

/// Why a round trip could not be completed.
#[derive(Clone, Copy, Debug, PartialEq, Eq)]
pub enum RoundTripError {
    /// The mapped region does not hold four bytes for each cell.
    LengthMismatch { cells: usize, bytes: usize },
}

/// Lays out one round trip for `field` under `params`.
///
/// The storage region starts as the memory image of the field and the
/// uniform region as that of the parameters; the staging region and the
/// copy into it have exactly the byte size of the field; the dispatch
/// covers the grid with square tiles along x and y.
pub fn plan_dispatch(field: &FieldBuffer, params: &Parameters) -> (plan: DispatchPlan)
    requires
        field.wf(),
    ensures
        is_image(plan.storage@, field@),
        plan.storage_binding == FIELD_BINDING,
        is_image(plan.uniform@, params.words()),
        plan.uniform_binding == PARAMETER_BINDING,
        plan.uniform@.len() == PARAMETER_BYTES,
        plan.staging_size == 4 * field@.len(),
        plan.copy_size == plan.staging_size,
        plan.workgroups == (
            tiles_for(field.spec_dim() as int) as u32,
            tiles_for(field.spec_dim() as int) as u32,
            1u32,
        ),
{
    let storage = words_to_bytes(field.cells().as_slice());
    let uniform = params.to_bytes();
    let size = storage.len() as u64;
    let count = workgroup_count(field.dim());
    DispatchPlan {
        storage,
        storage_binding: FIELD_BINDING,
        uniform,
        uniform_binding: PARAMETER_BINDING,
        staging_size: size,
        copy_size: size,
        workgroups: (count, count, 1),
    }
}

/// Takes the outcome of the device work into `field`.
///
/// Mapped bytes of the right length overwrite the field in place. A failed
/// mapping is not an error: the field is left as it was and reported stale.
/// The field never changes its shape.
pub fn complete_round_trip(field: &mut FieldBuffer, readback: Readback) -> (outcome: Result<
    RoundTrip,
    RoundTripError,
>)
    requires
        old(field).wf(),
    ensures
        final(field).wf(),
        final(field).spec_dim() == old(field).spec_dim(),
        final(field)@.len() == old(field)@.len(),
        readback is MapFailed ==> outcome == Ok::<RoundTrip, RoundTripError>(RoundTrip::Stale)
            && final(field)@ == old(field)@,
        readback matches Readback::Mapped(bytes) ==> (bytes@.len() == 4 * old(field)@.len()
            ==> outcome == Ok::<RoundTrip, RoundTripError>(RoundTrip::Fresh) && is_image(
            bytes@,
            final(field)@,
        )),
        readback matches Readback::Mapped(bytes) ==> (bytes@.len() != 4 * old(field)@.len()
            ==> outcome == Err::<RoundTrip, RoundTripError>(
            (RoundTripError::LengthMismatch {
                cells: old(field)@.len() as usize,
                bytes: bytes@.len() as usize,
            }),
        ) && final(field)@ == old(field)@),
{
    match readback {
        Readback::MapFailed => Ok(RoundTrip::Stale),
        Readback::Mapped(bytes) => {
            let cells = field.len();
            if bytes.len() % 4 == 0 && bytes.len() / 4 == cells {
                let words = bytes_to_words(bytes.as_slice());
                let done = field.overwrite(words);
                assert(done);
                Ok(RoundTrip::Fresh)
            } else {
                Err(RoundTripError::LengthMismatch { cells, bytes: bytes.len() })
            }
        },
    }
}

} // verus!
