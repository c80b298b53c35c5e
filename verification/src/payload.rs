//! Advertising payloads and their wire format.
//!
//! A payload is an ordered list of advertising-data structures. On the air each
//! structure is a record of a length byte, a type byte and the value bytes,
//! where the length byte counts the type byte and the value. One advertising
//! packet carries at most [`MAX_PAYLOAD_LEN`] bytes of such records.

use crate::error::RadioError;
use vstd::prelude::*;
use vstd::string::StringSliceAdditionalSpecFns;
use vstd::utf8::encode_utf8;

verus! {

/// Most bytes of advertising data that one advertising packet carries.
pub const MAX_PAYLOAD_LEN: usize = 31;

/// Flag bit: the device is discoverable without a time limit.
pub const FLAG_LE_GENERAL_DISCOVERABLE: u8 = 0x02;

/// Flag bit: the device does not speak classic Bluetooth.
pub const FLAG_BR_EDR_NOT_SUPPORTED: u8 = 0x04;

/// Type byte of a flags record.
pub const AD_TYPE_FLAGS: u8 = 0x01;

/// Type byte of a list of 16-bit service UUIDs that names only some services.
pub const AD_TYPE_INCOMPLETE_SERVICE_UUIDS_16: u8 = 0x02;

/// Type byte of a list of 16-bit service UUIDs that names every service.
pub const AD_TYPE_COMPLETE_SERVICE_UUIDS_16: u8 = 0x03;

/// Type byte of a complete local name record.
pub const AD_TYPE_COMPLETE_LOCAL_NAME: u8 = 0x09;

/// Type byte of a service data record keyed by a 16-bit UUID.
pub const AD_TYPE_SERVICE_DATA_16: u8 = 0x16;

/// One advertising-data record: its type byte and its value. The length byte
/// of the record on the air follows from the value.
pub struct AdRecord {
    pub ad_type: u8,
    pub value: Seq<u8>,
}

impl AdRecord {
    /// Bytes the record takes on the air: length byte, type byte, value.
    pub open spec fn wire_len(self) -> nat {
        self.value.len() + 2
    }

    /// The record on the air. The length byte counts the type byte and the value.
    pub open spec fn wire(self) -> Seq<u8> {
        seq![(self.value.len() + 1) as u8, self.ad_type] + self.value
    }
}

/// A 16-bit UUID on the air: low byte first.
pub open spec fn uuid16_le(uuid: u16) -> Seq<u8> {
    seq![(uuid % 256) as u8, (uuid / 256) as u8]
}

/// A list of 16-bit UUIDs on the air: each low byte first, in list order.
pub open spec fn uuid16_list_le(uuids: Seq<u16>) -> Seq<u8>
    decreases uuids.len(),
{
    if uuids.len() == 0 {
        Seq::empty()
    } else {
        uuid16_list_le(uuids.drop_last()) + uuid16_le(uuids.last())
    }
}

/// Bytes that a list of records takes on the air.
pub open spec fn wire_len(records: Seq<AdRecord>) -> nat
    decreases records.len(),
{
    if records.len() == 0 {
        0
    } else {
        wire_len(records.drop_last()) + records.last().wire_len()
    }
}

/// A list of records on the air: the records one after another, in list order.
pub open spec fn wire(records: Seq<AdRecord>) -> Seq<u8>
    decreases records.len(),
{
    if records.len() == 0 {
        Seq::empty()
    } else {
        wire(records.drop_last()) + records.last().wire()
    }
}

/// The parameter of the command that sets the advertising data: the count of
/// significant bytes, then a data field of [`MAX_PAYLOAD_LEN`] bytes that begins
/// with the encoded payload and is filled up with zeros.
pub open spec fn data_field(encoded: Seq<u8>) -> Seq<u8> {
    seq![encoded.len() as u8] + encoded + Seq::new(
        (MAX_PAYLOAD_LEN - encoded.len()) as nat,
        |i: int| 0u8,
    )
}

/// A list of 16-bit UUIDs takes two bytes per UUID.
pub proof fn lemma_uuid16_list_len(uuids: Seq<u16>)
    ensures
        uuid16_list_le(uuids).len() == 2 * uuids.len(),
    decreases uuids.len(),
{
    if uuids.len() > 0 {
        lemma_uuid16_list_len(uuids.drop_last());
    }
}

/// The encoding of a list of records is as long as `wire_len` says.
pub proof fn lemma_wire_len(records: Seq<AdRecord>)
    ensures
        wire(records).len() == wire_len(records),
    decreases records.len(),
{
    if records.len() > 0 {
        lemma_wire_len(records.drop_last());
    }
}

/// A prefix of a list of records never takes more bytes than the whole list.
pub proof fn lemma_wire_len_prefix(records: Seq<AdRecord>, n: int)
    requires
        0 <= n <= records.len(),
    ensures
        wire_len(records.take(n)) <= wire_len(records),
    decreases records.len(),
{
    if n == records.len() {
        assert(records.take(n) =~= records);
    } else {
        assert(records.drop_last().take(n) =~= records.take(n));
        lemma_wire_len_prefix(records.drop_last(), n);
    }
}

/// One typed advertising-data structure.
#[derive(Clone, Debug, PartialEq, Eq)]
pub enum AdStructure {
    /// Discoverability and capability flags.
    Flags(u8),
    /// A list of 16-bit service UUIDs; `complete` says whether it names every service.
    ServiceUuids16 { uuids: Vec<u16>, complete: bool },
    /// The device's full name, sent as UTF-8.
    CompleteLocalName(String),
    /// Data of the service with the given 16-bit UUID.
    ServiceData16 { uuid: u16, data: Vec<u8> },
}

impl View for AdStructure {
    type V = AdRecord;

    /// The record that stands for the structure on the air.
    open spec fn view(&self) -> AdRecord {
        match self {
            AdStructure::Flags(flags) => AdRecord { ad_type: AD_TYPE_FLAGS, value: seq![*flags] },
            AdStructure::ServiceUuids16 { uuids, complete } => AdRecord {
                ad_type: if *complete {
                    AD_TYPE_COMPLETE_SERVICE_UUIDS_16
                } else {
                    AD_TYPE_INCOMPLETE_SERVICE_UUIDS_16
                },
                value: uuid16_list_le(uuids@),
            },
            AdStructure::CompleteLocalName(name) => AdRecord {
                ad_type: AD_TYPE_COMPLETE_LOCAL_NAME,
                value: encode_utf8(name@),
            },
            AdStructure::ServiceData16 { uuid, data } => AdRecord {
                ad_type: AD_TYPE_SERVICE_DATA_16,
                value: uuid16_le(*uuid) + data@,
            },
        }
    }
}

/// Appends `bytes` to `out`.
fn push_bytes(out: &mut Vec<u8>, bytes: &[u8])
    ensures
        final(out)@ == old(out)@ + bytes@,
{
    let ghost before = out@;
    let mut i: usize = 0;
    while i < bytes.len()
        invariant
            i <= bytes.len(),
            out@ == before + bytes@.take(i as int),
        decreases bytes.len() - i,
    {
        out.push(bytes[i]);
        assert(bytes@.take(i + 1) =~= bytes@.take(i as int).push(bytes@[i as int]));
        i += 1;
    }
    assert(bytes@.take(i as int) =~= bytes@);
}

/// Appends each UUID of `uuids` to `out`, low byte first.
fn push_uuid16_list(out: &mut Vec<u8>, uuids: &Vec<u16>)
    ensures
        final(out)@ == old(out)@ + uuid16_list_le(uuids@),
{
    let ghost before = out@;
    let mut i: usize = 0;
    while i < uuids.len()
        invariant
            i <= uuids.len(),
            out@ == before + uuid16_list_le(uuids@.take(i as int)),
        decreases uuids.len() - i,
    {
        let uuid: u16 = uuids[i];
        out.push((uuid % 256) as u8);
        out.push((uuid / 256) as u8);
        proof {
            let next = uuids@.take(i + 1);
            assert(next.drop_last() =~= uuids@.take(i as int));
            assert(next.last() == uuid);
        }
        i += 1;
    }
    assert(uuids@.take(i as int) =~= uuids@);
}

impl AdStructure {
    /// Whether the structure's value is at most `limit` bytes long.
    fn value_within(&self, limit: usize) -> (within: bool)
        ensures
            within == (self@.value.len() <= limit),
    {
        match self {
            AdStructure::Flags(_) => 1 <= limit,
            AdStructure::ServiceUuids16 { uuids, .. } => {
                proof {
                    lemma_uuid16_list_len(uuids@);
                }
                uuids.len() <= limit / 2
            },
            AdStructure::CompleteLocalName(name) => name.as_str().as_bytes().len() <= limit,
            AdStructure::ServiceData16 { data, .. } => 2 <= limit && data.len() <= limit - 2,
        }
    }

    /// Whether the structure's record takes at most `room` bytes on the air.
    fn fits(&self, room: usize) -> (fits: bool)
        ensures
            fits == (self@.wire_len() <= room),
    {
        2 <= room && self.value_within(room - 2)
    }

    /// Appends the structure's record to `out`.
    ///
    /// The length byte can count at most 255 bytes, so the record may take at
    /// most 256 bytes in all.
    fn append_to(&self, out: &mut Vec<u8>)
        requires
            self@.wire_len() <= 256,
        ensures
            final(out)@ == old(out)@ + self@.wire(),
    {
        let ghost before = out@;
        match self {
            AdStructure::Flags(flags) => {
                out.push(2);
                out.push(AD_TYPE_FLAGS);
                out.push(*flags);
            },
            AdStructure::ServiceUuids16 { uuids, complete } => {
                proof {
                    lemma_uuid16_list_len(uuids@);
                }
                out.push((2 * uuids.len() + 1) as u8);
                out.push(
                    if *complete {
                        AD_TYPE_COMPLETE_SERVICE_UUIDS_16
                    } else {
                        AD_TYPE_INCOMPLETE_SERVICE_UUIDS_16
                    },
                );
                push_uuid16_list(out, uuids);
            },
            AdStructure::CompleteLocalName(name) => {
                let bytes = name.as_str().as_bytes();
                out.push((bytes.len() + 1) as u8);
                out.push(AD_TYPE_COMPLETE_LOCAL_NAME);
                push_bytes(out, bytes);
            },
            AdStructure::ServiceData16 { uuid, data } => {
                out.push((data.len() + 3) as u8);
                out.push(AD_TYPE_SERVICE_DATA_16);
                out.push((*uuid % 256) as u8);
                out.push((*uuid / 256) as u8);
                push_bytes(out, data.as_slice());
            },
        }
        assert(out@ =~= before + self@.wire());
    }
}

/// An ordered list of advertising-data structures.
#[derive(Clone, Debug, PartialEq, Eq)]
pub struct AdvertisingPayload {
    pub structures: Vec<AdStructure>,
}

impl View for AdvertisingPayload {
    type V = Seq<AdRecord>;

    /// The records of the payload's structures, in order.
    open spec fn view(&self) -> Seq<AdRecord> {
        self.structures@.map_values(|s: AdStructure| s@)
    }
}

impl AdvertisingPayload {
    /// A payload of the given structures, in the given order.
    pub fn new(structures: Vec<AdStructure>) -> (payload: AdvertisingPayload)
        ensures
            payload.structures == structures,
    {
        AdvertisingPayload { structures }
    }

    /// Encodes the payload for the air.
    ///
    /// Succeeds exactly when the encoding is at most [`MAX_PAYLOAD_LEN`] bytes
    /// long, and then returns the records one after another.
    pub fn encode(&self) -> (result: Result<Vec<u8>, RadioError>)
        ensures
            match result {
                Ok(bytes) => wire_len(self@) <= MAX_PAYLOAD_LEN && bytes@ == wire(self@),
                Err(e) => wire_len(self@) > MAX_PAYLOAD_LEN && e == RadioError::PayloadTooLarge,
            },
    {
        let mut out: Vec<u8> = Vec::new();
        let mut i: usize = 0;
        assert(self@.take(0) =~= Seq::<AdRecord>::empty());
        while i < self.structures.len()
            invariant
                i <= self.structures.len(),
                self@.len() == self.structures.len(),
                out@ == wire(self@.take(i as int)),
                out.len() == wire_len(self@.take(i as int)),
                out.len() <= MAX_PAYLOAD_LEN,
            decreases self.structures.len() - i,
        {
            let structure = &self.structures[i];
            proof {
                let next = self@.take(i + 1);
                assert(next.drop_last() =~= self@.take(i as int));
                assert(next.last() == structure@);
                lemma_wire_len_prefix(self@, i + 1);
            }
            if !structure.fits(MAX_PAYLOAD_LEN - out.len()) {
                return Err(RadioError::PayloadTooLarge);
            }
            structure.append_to(&mut out);
            i += 1;
        }
        assert(self@.take(i as int) =~= self@);
        Ok(out)
    }
}

/// Frames an encoded payload as the parameter of the command that sets the
/// advertising data.
///
/// Succeeds exactly when `encoded` is at most [`MAX_PAYLOAD_LEN`] bytes long.
pub fn advertising_data_field(encoded: &Vec<u8>) -> (result: Result<Vec<u8>, RadioError>)
    ensures
        match result {
            Ok(field) => encoded@.len() <= MAX_PAYLOAD_LEN && field@ == data_field(encoded@),
            Err(e) => encoded@.len() > MAX_PAYLOAD_LEN && e == RadioError::PayloadTooLarge,
        },
{
    if encoded.len() > MAX_PAYLOAD_LEN {
        return Err(RadioError::PayloadTooLarge);
    }
    let mut field: Vec<u8> = Vec::new();
    field.push(encoded.len() as u8);
    push_bytes(&mut field, encoded.as_slice());
    let ghost framed = field@;
    while field.len() <= MAX_PAYLOAD_LEN
        invariant
            framed == seq![encoded@.len() as u8] + encoded@,
            framed.len() <= field.len() <= MAX_PAYLOAD_LEN + 1,
            field@ == framed + Seq::new((field.len() - framed.len()) as nat, |i: int| 0u8),
        decreases MAX_PAYLOAD_LEN + 1 - field.len(),
    {
        field.push(0);
    }
    Ok(field)
}

} // verus!
