use vstd::prelude::*;
use vstd::slice::slice_index_get;

use crate::error::Error;

verus! {

/// Status value with which the native power query reports success.
pub const STATUS_SUCCESS: i32 = 0;

/// Size in bytes of one per-processor power record as the native call
/// lays it out: six 32-bit little-endian fields.
pub const POWER_RECORD_BYTES: usize = 24;

/// One per-processor power record, mirroring the fixed-size C structure
/// that the native bulk power query fills for each logical processor.
/// All clock rates are in MHz.
#[allow(non_camel_case_types, non_snake_case)]
#[derive(Debug, Clone, Copy, PartialEq, Eq, Structural)]
pub struct PROCESSOR_POWER_INFORMATION {
    pub Number: u32,
    pub MaxMhz: u32,
    pub CurrentMhz: u32,
    pub MhzLimit: u32,
    pub MaxIdleState: u32,
    pub CurrentIdleState: u32,
}

/// The 32-bit little-endian value held at offset `off` of `b`.
pub open spec fn le_u32_at(b: Seq<u8>, off: int) -> u32
    recommends
        0 <= off,
        off + 4 <= b.len(),
{
    (b[off] + b[off + 1] * 0x100 + b[off + 2] * 0x1_0000 + b[off + 3] * 0x100_0000) as u32
}

/// The power record that the bytes of `b` hold at record position `i`.
pub open spec fn spec_power_record(b: Seq<u8>, i: int) -> PROCESSOR_POWER_INFORMATION
    recommends
        0 <= i,
        (i + 1) * (POWER_RECORD_BYTES as int) <= b.len(),
{
    PROCESSOR_POWER_INFORMATION {
        Number: le_u32_at(b, i * 24),
        MaxMhz: le_u32_at(b, i * 24 + 4),
        CurrentMhz: le_u32_at(b, i * 24 + 8),
        MhzLimit: le_u32_at(b, i * 24 + 12),
        MaxIdleState: le_u32_at(b, i * 24 + 16),
        CurrentIdleState: le_u32_at(b, i * 24 + 20),
    }
}

/// Reads the 32-bit little-endian value at offset `off` of `buffer`.
pub fn read_le_u32(buffer: &[u8], off: usize) -> (r: u32)
    requires
        off + 4 <= buffer@.len(),
    ensures
        r == le_u32_at(buffer@, off as int),
{
    let n: usize = buffer.len();
    assert(off + 4 <= n);
    let b0 = *slice_index_get(buffer, off) as u32;
    let b1 = *slice_index_get(buffer, off + 1) as u32;
    let b2 = *slice_index_get(buffer, off + 2) as u32;
    let b3 = *slice_index_get(buffer, off + 3) as u32;
    b0 + b1 * 0x100 + b2 * 0x1_0000 + b3 * 0x100_0000
}

/// Decodes the power record at record position `index` of a buffer the
/// native call has filled.
pub fn decode_power_record(buffer: &[u8], index: usize) -> (r: PROCESSOR_POWER_INFORMATION)
    requires
        (index + 1) * (POWER_RECORD_BYTES as int) <= buffer@.len(),
    ensures
        r == spec_power_record(buffer@, index as int),
{
    let n: usize = buffer.len();
    assert((index + 1) * (POWER_RECORD_BYTES as int) <= n);
    let base = index * POWER_RECORD_BYTES;
    PROCESSOR_POWER_INFORMATION {
        Number: read_le_u32(buffer, base),
        MaxMhz: read_le_u32(buffer, base + 4),
        CurrentMhz: read_le_u32(buffer, base + 8),
        MhzLimit: read_le_u32(buffer, base + 12),
        MaxIdleState: read_le_u32(buffer, base + 16),
        CurrentIdleState: read_le_u32(buffer, base + 20),
    }
}

/// The decision taken before the native power query: either the call may
/// proceed, with the buffer sized for exactly `record_count` records, or
/// it is refused outright and the native call must not be attempted.
#[derive(Debug, Clone, PartialEq, Eq)]
pub enum PowerQuery {
    Call { record_count: u32, buffer_bytes: u64 },
    Refused(Error),
}

/// Validates the reported logical-processor count before any native call.
///
/// A count of zero is a data-integrity failure: the query is refused and
/// the native call is never issued. For a nonzero count the plan sizes the
/// output buffer for exactly that many fixed-size records.
pub fn prepare_power_query(processor_count: u32) -> (r: PowerQuery)
    ensures
        processor_count == 0 ==> (r matches PowerQuery::Refused(e)
            && e matches Error::InvalidData(m) && m@ == "No processors were found"@),
        processor_count > 0 ==> (r matches PowerQuery::Call { record_count, buffer_bytes }
            && record_count == processor_count
            && buffer_bytes == processor_count * POWER_RECORD_BYTES),
{
    if processor_count == 0 {
        PowerQuery::Refused(Error::InvalidData("No processors were found"))
    } else {
        PowerQuery::Call {
            record_count: processor_count,
            buffer_bytes: (processor_count as u64) * (POWER_RECORD_BYTES as u64),
        }
    }
}

/// Interprets the outcome of the native bulk power query.
///
/// `processor_count` is the logical-processor count the buffer was sized
/// for, `status` the value the native call returned, `last_error` the OS
/// error code read immediately after a failed call, and `buffer` the bytes
/// the call was given to fill. On success the result holds exactly one
/// decoded record per logical processor; a failed call is wrapped with the
/// name of the native routine; a zero count or a short buffer is a
/// data-integrity failure.
pub fn query_processor_information(
    processor_count: u32,
    status: i32,
    last_error: i32,
    buffer: &[u8],
) -> (r: Result<Vec<PROCESSOR_POWER_INFORMATION>, Error>)
    ensures
        processor_count == 0 ==> (r matches Err(e)
            && e matches Error::InvalidData(m) && m@ == "No processors were found"@),
        processor_count > 0 && status != STATUS_SUCCESS ==> (r matches Err(e)
            && e matches Error::SysCall { call, code }
            && call@ == "CallNtPowerInformation"@ && code == last_error),
        processor_count > 0 && status == STATUS_SUCCESS
            && buffer@.len() < processor_count * POWER_RECORD_BYTES ==> (r matches Err(e)
            && e matches Error::InvalidData(m)
            && m@ == "Processor power buffer was truncated"@),
        processor_count > 0 && status == STATUS_SUCCESS
            && buffer@.len() >= processor_count * POWER_RECORD_BYTES ==> (r matches Ok(v)
            && v@.len() == processor_count
            && (forall|i: int| 0 <= i < processor_count ==> v@[i] == spec_power_record(buffer@, i))),
{
    if processor_count == 0 {
        return Err(Error::InvalidData("No processors were found"));
    }
    if status != STATUS_SUCCESS {
        return Err(Error::SysCall { call: "CallNtPowerInformation", code: last_error });
    }
    if (buffer.len() as u64) < (processor_count as u64) * (POWER_RECORD_BYTES as u64) {
        return Err(Error::InvalidData("Processor power buffer was truncated"));
    }
    let count = processor_count as usize;
    let mut records: Vec<PROCESSOR_POWER_INFORMATION> = Vec::new();
    let mut i: usize = 0;
    while i < count
        invariant
            count == processor_count,
            i <= count,
            count * (POWER_RECORD_BYTES as int) <= buffer@.len(),
            records@.len() == i,
            forall|j: int| 0 <= j < i ==> records@[j] == spec_power_record(buffer@, j),
        decreases count - i,
    {
        let rec = decode_power_record(buffer, i);
        records.push(rec);
        i = i + 1;
    }
    Ok(records)
}

} // verus!
