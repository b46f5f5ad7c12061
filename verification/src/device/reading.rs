//! What a device answered when it was asked for its attributes or its status:
//! one reading for each thing asked, by the number that names it.

use crate::frame::copy_of;
use crate::util::{SdkError, STATUS_OK};
use vstd::prelude::*;

verus! {

/// The value of a reading.
pub enum ReadingValue {
    Flag(bool),
    Int(i64),
    Text(String),
    Bytes(Vec<u8>),
}

/// The driver's answer to one question: the status of the call, and the
/// value that came with it (of no account where the status is a failure).
pub struct Reading {
    pub id: u32,
    pub status: i32,
    pub value: ReadingValue,
}

/// The reading of a run of bytes, which the driver gives in two answers: first
/// the size with `size_status`, then, where that succeeded, the bytes with
/// `fill_status`. The reading has the status of the first answer that failed,
/// or of the second where none did.
pub fn bytes_reading(id: u32, size_status: i32, fill_status: i32, bytes: Vec<u8>) -> (r: Reading)
    ensures
        r.id == id,
        r.status == (if size_status != STATUS_OK {
            size_status
        } else {
            fill_status
        }),
        r.value == ReadingValue::Bytes(bytes),
{
    let status = if size_status != STATUS_OK {
        size_status
    } else {
        fill_status
    };
    Reading { id, status, value: ReadingValue::Bytes(bytes) }
}

/// The first reading for `id`, if there is one.
pub open spec fn find(readings: Seq<Reading>, id: u32) -> Option<Reading>
    decreases readings.len(),
{
    if readings.len() == 0 {
        None
    } else if readings[0].id == id {
        Some(readings[0])
    } else {
        find(readings.drop_first(), id)
    }
}

/// The flag read for `id`: the driver's failure where the call failed, and
/// `INVALIDARG` where nothing was read for `id` or what was read is no flag.
pub open spec fn spec_flag(readings: Seq<Reading>, id: u32) -> Result<bool, SdkError> {
    match find(readings, id) {
        None => Err(SdkError::INVALIDARG),
        Some(reading) => if reading.status != STATUS_OK {
            Err(SdkError::spec_from(reading.status))
        } else {
            match reading.value {
                ReadingValue::Flag(b) => Ok(b),
                _ => Err(SdkError::INVALIDARG),
            }
        },
    }
}

/// The integer read for `id`, under the same rule as `spec_flag`.
pub open spec fn spec_int(readings: Seq<Reading>, id: u32) -> Result<i64, SdkError> {
    match find(readings, id) {
        None => Err(SdkError::INVALIDARG),
        Some(reading) => if reading.status != STATUS_OK {
            Err(SdkError::spec_from(reading.status))
        } else {
            match reading.value {
                ReadingValue::Int(v) => Ok(v),
                _ => Err(SdkError::INVALIDARG),
            }
        },
    }
}

/// The text read for `id`, under the same rule as `spec_flag`.
pub open spec fn spec_text(readings: Seq<Reading>, id: u32) -> Result<String, SdkError> {
    match find(readings, id) {
        None => Err(SdkError::INVALIDARG),
        Some(reading) => if reading.status != STATUS_OK {
            Err(SdkError::spec_from(reading.status))
        } else {
            match reading.value {
                ReadingValue::Text(s) => Ok(s),
                _ => Err(SdkError::INVALIDARG),
            }
        },
    }
}

/// The bytes read for `id`, under the same rule as `spec_flag`.
pub open spec fn spec_bytes(readings: Seq<Reading>, id: u32) -> Result<Seq<u8>, SdkError> {
    match find(readings, id) {
        None => Err(SdkError::INVALIDARG),
        Some(reading) => if reading.status != STATUS_OK {
            Err(SdkError::spec_from(reading.status))
        } else {
            match reading.value {
                ReadingValue::Bytes(b) => Ok(b@),
                _ => Err(SdkError::INVALIDARG),
            }
        },
    }
}

/// The place of the first reading for `id`.
pub fn find_reading(readings: &Vec<Reading>, id: u32) -> (r: Option<usize>)
    ensures
        r matches Some(i) ==> i < readings@.len() && find(readings@, id) == Some(readings@[i as int]),
        r.is_none() ==> find(readings@, id).is_none(),
{
    let mut i: usize = 0;
    assert(readings@.skip(0) == readings@);
    while i < readings.len()
        invariant
            i <= readings@.len(),
            find(readings@, id) == find(readings@.skip(i as int), id),
        decreases readings@.len() - i,
    {
        assert(readings@.skip(i as int)[0] == readings@[i as int]);
        assert(readings@.skip(i as int).drop_first() == readings@.skip(i + 1));
        if readings[i].id == id {
            return Some(i);
        }
        i += 1;
    }
    None
}

pub fn get_flag(readings: &Vec<Reading>, id: u32) -> (r: Result<bool, SdkError>)
    ensures
        r == spec_flag(readings@, id),
{
    match find_reading(readings, id) {
        None => Err(SdkError::INVALIDARG),
        Some(i) => {
            let reading = &readings[i];
            if reading.status != STATUS_OK {
                Err(SdkError::from(reading.status))
            } else {
                match &reading.value {
                    ReadingValue::Flag(b) => Ok(*b),
                    _ => Err(SdkError::INVALIDARG),
                }
            }
        },
    }
}

pub fn get_int(readings: &Vec<Reading>, id: u32) -> (r: Result<i64, SdkError>)
    ensures
        r == spec_int(readings@, id),
{
    match find_reading(readings, id) {
        None => Err(SdkError::INVALIDARG),
        Some(i) => {
            let reading = &readings[i];
            if reading.status != STATUS_OK {
                Err(SdkError::from(reading.status))
            } else {
                match &reading.value {
                    ReadingValue::Int(v) => Ok(*v),
                    _ => Err(SdkError::INVALIDARG),
                }
            }
        },
    }
}

pub fn get_text(readings: &Vec<Reading>, id: u32) -> (r: Result<String, SdkError>)
    ensures
        r == spec_text(readings@, id),
{
    match find_reading(readings, id) {
        None => Err(SdkError::INVALIDARG),
        Some(i) => {
            let reading = &readings[i];
            if reading.status != STATUS_OK {
                Err(SdkError::from(reading.status))
            } else {
                match &reading.value {
                    ReadingValue::Text(s) => Ok(s.clone()),
                    _ => Err(SdkError::INVALIDARG),
                }
            }
        },
    }
}

pub fn get_bytes(readings: &Vec<Reading>, id: u32) -> (r: Result<Vec<u8>, SdkError>)
    ensures
        r matches Ok(v) ==> spec_bytes(readings@, id) == Ok::<Seq<u8>, SdkError>(v@),
        r matches Err(e) ==> spec_bytes(readings@, id) == Err::<Seq<u8>, SdkError>(e),
{
    match find_reading(readings, id) {
        None => Err(SdkError::INVALIDARG),
        Some(i) => {
            let reading = &readings[i];
            if reading.status != STATUS_OK {
                Err(SdkError::from(reading.status))
            } else {
                match &reading.value {
                    ReadingValue::Bytes(b) => Ok(copy_of(b.as_slice())),
                    _ => Err(SdkError::INVALIDARG),
                }
            }
        },
    }
}

/// The low 32 bits of an integer that the driver reported.
pub fn low_bits(value: i64) -> (bits: u32)
    ensures
        bits == value as u32,
{
    #[verifier::truncate]
    (value as u32)
}

} // verus!
