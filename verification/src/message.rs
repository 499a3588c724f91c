//! CAN message objects: transmit and receive headers, data length codes and
//! the message kinds (classic CAN 2.0 and CAN FD).
//!
//! A transmit message carries a 64-bit header and an immutable payload
//! buffer. The message kind imposes the validity preconditions at
//! construction: at most eight payload bytes for CAN 2.0, at most
//! sixty-four for CAN FD, with the kind's capacity a multiple of four.

use crate::bus::{spec_u32_be, spec_u32_of_le, u32_be_bytes, u32_of_le_bytes};
use crate::id::Id;
use bytes::Bytes;
use vstd::prelude::*;

verus! {

/// Mask of the eleven standard-identifier bits.
pub const STANDARD_IDENTIFIER_MASK: u16 = 0x7FF;

/// Mask of the eighteen extended-identifier bits held in the header's
/// extended-identifier field.
pub const EXTENDED_IDENTIFIER_MASK: u32 = 0x3FFFF;

/// Greatest payload byte count of a classic CAN 2.0 frame.
pub const MAX_PAYLOAD_CAN_2_0: usize = 8;

/// Greatest payload byte count of a CAN FD frame.
pub const MAX_PAYLOAD_CAN_FD: usize = 64;

#[verifier::external_type_specification]
#[verifier::external_body]
pub struct ExBytes(Bytes);

/// The bytes a [`Bytes`] buffer holds, in order. The buffer is opaque to
/// the verifier; the trusted wrappers below relate it to this sequence.
pub uninterp spec fn bytes_content(b: Bytes) -> Seq<u8>;

/// Relies on `Bytes::as_ref` (through `AsRef<[u8]>`), which returns a slice
/// of the buffer's full contents.
#[verifier::external_body]
pub(crate) fn bytes_as_slice(b: &Bytes) -> (r: &[u8])
    ensures
        r@ == bytes_content(*b),
{
    b.as_ref()
}

/// Relies on `Bytes::clone`, which returns a buffer with the same contents
/// as the original.
#[verifier::external_body]
pub(crate) fn bytes_clone(b: &Bytes) -> (r: Bytes)
    ensures
        bytes_content(r) == bytes_content(*b),
{
    b.clone()
}

/// Data length code: the four-bit field encoding the payload byte count.
/// Not every count up to sixty-four has a code; see [`spec_dlc_len`].
#[derive(Copy, Clone, Debug, PartialEq, Eq, Structural)]
#[allow(clippy::upper_case_acronyms)]
pub enum DLC {
    Zero,
    One,
    Two,
    Three,
    Four,
    Five,
    Six,
    Seven,
    Eight,
    Twelve,
    Sixteen,
    Twenty,
    TwentyFour,
    ThirtyTwo,
    FortyEight,
    SixtyFour,
}

/// The payload byte count a data length code stands for.
pub open spec fn spec_dlc_len(d: DLC) -> int {
    match d {
        DLC::Zero => 0,
        DLC::One => 1,
        DLC::Two => 2,
        DLC::Three => 3,
        DLC::Four => 4,
        DLC::Five => 5,
        DLC::Six => 6,
        DLC::Seven => 7,
        DLC::Eight => 8,
        DLC::Twelve => 12,
        DLC::Sixteen => 16,
        DLC::Twenty => 20,
        DLC::TwentyFour => 24,
        DLC::ThirtyTwo => 32,
        DLC::FortyEight => 48,
        DLC::SixtyFour => 64,
    }
}

/// Whether some data length code stands for exactly this byte count.
pub open spec fn spec_supported_length(len: int) -> bool {
    (0 <= len && len <= 8) || len == 12 || len == 16 || len == 20 || len == 24 || len == 32 || len
        == 48 || len == 64
}

/// The smallest supported byte count that is at least `len`.
pub open spec fn spec_next_supported_length(len: int) -> int
    recommends
        0 <= len <= 64,
{
    if len <= 8 {
        len
    } else if len <= 12 {
        12
    } else if len <= 16 {
        16
    } else if len <= 20 {
        20
    } else if len <= 24 {
        24
    } else if len <= 32 {
        32
    } else if len <= 48 {
        48
    } else {
        64
    }
}

/// `spec_next_supported_length` is the least supported byte count at or
/// above the given one.
pub proof fn lemma_next_supported_length(len: int)
    requires
        0 <= len <= 64,
    ensures
        spec_supported_length(spec_next_supported_length(len)),
        len <= spec_next_supported_length(len) <= 64,
        forall|k: int| len <= k < spec_next_supported_length(len) ==> !spec_supported_length(k),
{
}

impl DLC {
    /// The four-bit on-wire encoding of the code.
    pub open spec fn spec_bits(self) -> u8 {
        match self {
            DLC::Zero => 0,
            DLC::One => 1,
            DLC::Two => 2,
            DLC::Three => 3,
            DLC::Four => 4,
            DLC::Five => 5,
            DLC::Six => 6,
            DLC::Seven => 7,
            DLC::Eight => 8,
            DLC::Twelve => 9,
            DLC::Sixteen => 10,
            DLC::Twenty => 11,
            DLC::TwentyFour => 12,
            DLC::ThirtyTwo => 13,
            DLC::FortyEight => 14,
            DLC::SixtyFour => 15,
        }
    }

    /// The four-bit on-wire encoding of the code.
    pub fn bits(self) -> (r: u8)
        ensures
            r == self.spec_bits(),
    {
        match self {
            DLC::Zero => 0,
            DLC::One => 1,
            DLC::Two => 2,
            DLC::Three => 3,
            DLC::Four => 4,
            DLC::Five => 5,
            DLC::Six => 6,
            DLC::Seven => 7,
            DLC::Eight => 8,
            DLC::Twelve => 9,
            DLC::Sixteen => 10,
            DLC::Twenty => 11,
            DLC::TwentyFour => 12,
            DLC::ThirtyTwo => 13,
            DLC::FortyEight => 14,
            DLC::SixtyFour => 15,
        }
    }

    /// The code with the given four-bit on-wire encoding.
    pub fn from_bits(bits: u8) -> (r: DLC)
        requires
            bits <= 15,
        ensures
            r.spec_bits() == bits,
    {
        if bits == 0 {
            DLC::Zero
        } else if bits == 1 {
            DLC::One
        } else if bits == 2 {
            DLC::Two
        } else if bits == 3 {
            DLC::Three
        } else if bits == 4 {
            DLC::Four
        } else if bits == 5 {
            DLC::Five
        } else if bits == 6 {
            DLC::Six
        } else if bits == 7 {
            DLC::Seven
        } else if bits == 8 {
            DLC::Eight
        } else if bits == 9 {
            DLC::Twelve
        } else if bits == 10 {
            DLC::Sixteen
        } else if bits == 11 {
            DLC::Twenty
        } else if bits == 12 {
            DLC::TwentyFour
        } else if bits == 13 {
            DLC::ThirtyTwo
        } else if bits == 14 {
            DLC::FortyEight
        } else {
            DLC::SixtyFour
        }
    }

    /// The code standing for exactly the given supported byte count.
    pub fn from_supported_length(len: usize) -> (r: DLC)
        requires
            spec_supported_length(len as int),
        ensures
            spec_dlc_len(r) == len,
    {
        if len == 0 {
            DLC::Zero
        } else if len == 1 {
            DLC::One
        } else if len == 2 {
            DLC::Two
        } else if len == 3 {
            DLC::Three
        } else if len == 4 {
            DLC::Four
        } else if len == 5 {
            DLC::Five
        } else if len == 6 {
            DLC::Six
        } else if len == 7 {
            DLC::Seven
        } else if len == 8 {
            DLC::Eight
        } else if len == 12 {
            DLC::Twelve
        } else if len == 16 {
            DLC::Sixteen
        } else if len == 20 {
            DLC::Twenty
        } else if len == 24 {
            DLC::TwentyFour
        } else if len == 32 {
            DLC::ThirtyTwo
        } else if len == 48 {
            DLC::FortyEight
        } else {
            DLC::SixtyFour
        }
    }
}

/// Whether some data length code stands for exactly this byte count.
pub fn supported_length(len: usize) -> (r: bool)
    ensures
        r == spec_supported_length(len as int),
{
    len <= 8 || len == 12 || len == 16 || len == 20 || len == 24 || len == 32 || len == 48 || len
        == 64
}

/// The data length code chosen for a payload covers the payload and is the
/// smallest supported code that does: every code whose byte count covers
/// the payload stands for at least as many bytes as the chosen one.
pub proof fn lemma_dlc_smallest_covering(len: int, d: DLC)
    requires
        0 <= len <= 64,
        spec_dlc_len(d) == spec_next_supported_length(len),
    ensures
        spec_dlc_len(d) >= len,
        forall|other: DLC| spec_dlc_len(other) >= len ==> spec_dlc_len(other) >= spec_dlc_len(d),
{
}

/// Possible errors when creating a [`TxMessage`] object.
#[derive(Copy, Clone, Debug, PartialEq, Eq, Structural)]
pub enum MessageError {
    /// Payload length invalid
    InvalidLength(usize),
    /// Message kind capacity not divisible by four
    InvalidTypeSize(usize),
}

/// Transmit message object header: two 32-bit words holding the identifier
/// and the frame control fields.
#[derive(Copy, Clone, Debug, PartialEq, Eq, Structural)]
pub struct TxHeader {
    /// In FD mode the standard ID can be extended to twelve bits
    pub sid11: bool,
    /// Eighteen least significant bits of an extended ID
    pub extended_identifier: u32,
    /// Standard ID, or the top eleven bits of an extended ID
    pub standard_identifier: u16,
    /// Sequence tracking transmitted messages in the transmit event FIFO
    pub sequence: u8,
    /// In normal ESI mode, set if the node is error passive
    pub error_status_indicator: bool,
    /// Distinguishes CAN FD from classic CAN formats
    pub fd_frame: bool,
    /// Enables bit rate switching in CAN FD frames
    pub bit_rate_switch: bool,
    /// Set if the frame is a remote transmission request
    pub remote_transmission_request: bool,
    /// Set if an extended ID is used
    pub identifier_extension_flag: bool,
    /// Four bits identifying the payload length
    pub data_length_code: DLC,
}

impl TxHeader {
    /// All fields are within their bit widths.
    pub open spec fn wf(self) -> bool {
        self.extended_identifier <= 0x3FFFF && self.standard_identifier <= 0x7FF && self.sequence
            <= 0x7F
    }

    /// First header word: reserved bits, SID11, the extended identifier and
    /// the standard identifier, MSB first.
    pub open spec fn spec_word0(self) -> u32 {
        ((if self.sid11 {
            1u32
        } else {
            0u32
        }) << 29) | (self.extended_identifier << 11) | (self.standard_identifier as u32)
    }

    /// Second header word: the sequence and the frame control flags above
    /// the data length code, MSB first.
    pub open spec fn spec_word1(self) -> u32 {
        ((self.sequence as u32) << 9) | ((if self.error_status_indicator {
            1u32
        } else {
            0u32
        }) << 8) | ((if self.fd_frame {
            1u32
        } else {
            0u32
        }) << 7) | ((if self.bit_rate_switch {
            1u32
        } else {
            0u32
        }) << 6) | ((if self.remote_transmission_request {
            1u32
        } else {
            0u32
        }) << 5) | ((if self.identifier_extension_flag {
            1u32
        } else {
            0u32
        }) << 4) | (self.data_length_code.spec_bits() as u32)
    }

    /// The eight header bytes, each word big-endian (the packing order;
    /// the driver stores each word little-endian in RAM).
    pub open spec fn spec_bytes(self) -> Seq<u8> {
        spec_u32_be(self.spec_word0()) + spec_u32_be(self.spec_word1())
    }

    /// A header with every field zero or clear.
    pub fn new() -> (r: Self)
        ensures
            r == TxHeader::spec_new(),
    {
        TxHeader {
            sid11: false,
            extended_identifier: 0,
            standard_identifier: 0,
            sequence: 0,
            error_status_indicator: false,
            fd_frame: false,
            bit_rate_switch: false,
            remote_transmission_request: false,
            identifier_extension_flag: false,
            data_length_code: DLC::Zero,
        }
    }

    /// The header with every field zero or clear.
    pub open spec fn spec_new() -> TxHeader {
        TxHeader {
            sid11: false,
            extended_identifier: 0,
            standard_identifier: 0,
            sequence: 0,
            error_status_indicator: false,
            fd_frame: false,
            bit_rate_switch: false,
            remote_transmission_request: false,
            identifier_extension_flag: false,
            data_length_code: DLC::Zero,
        }
    }

    /// First packed header word.
    pub fn word0(&self) -> (r: u32)
        requires
            self.wf(),
        ensures
            r == self.spec_word0(),
    {
        let sid11_bit: u32 = if self.sid11 {
            1
        } else {
            0
        };
        (sid11_bit << 29) | (self.extended_identifier << 11) | (self.standard_identifier as u32)
    }

    /// Second packed header word.
    pub fn word1(&self) -> (r: u32)
        requires
            self.wf(),
        ensures
            r == self.spec_word1(),
    {
        let esi_bit: u32 = if self.error_status_indicator {
            1
        } else {
            0
        };
        let fdf_bit: u32 = if self.fd_frame {
            1
        } else {
            0
        };
        let brs_bit: u32 = if self.bit_rate_switch {
            1
        } else {
            0
        };
        let rtr_bit: u32 = if self.remote_transmission_request {
            1
        } else {
            0
        };
        let ide_bit: u32 = if self.identifier_extension_flag {
            1
        } else {
            0
        };
        ((self.sequence as u32) << 9) | (esi_bit << 8) | (fdf_bit << 7) | (brs_bit << 6) | (rtr_bit
            << 5) | (ide_bit << 4) | (self.data_length_code.bits() as u32)
    }

    /// Packs the header into its eight bytes, each word big-endian.
    pub fn into_bytes(self) -> (r: [u8; 8])
        requires
            self.wf(),
        ensures
            r@ == self.spec_bytes(),
    {
        let w0 = u32_be_bytes(self.word0());
        let w1 = u32_be_bytes(self.word1());
        let r = [w0[0], w0[1], w0[2], w0[3], w1[0], w1[1], w1[2], w1[3]];
        proof {
            assert(r@ =~= self.spec_bytes());
        }
        r
    }
}

/// A message kind: classic CAN 2.0 or CAN FD, with its payload capacity.
/// The kind checks a payload length against its capacity and marks the
/// header accordingly.
pub trait MessageType: Copy {
    /// Payload capacity in bytes of this kind.
    spec fn spec_max_len(&self) -> usize;

    /// Hard cap of the frame format: eight bytes for classic CAN,
    /// sixty-four for CAN FD.
    spec fn spec_cap(&self) -> usize;

    /// Whether this kind is an FD frame.
    spec fn spec_fd(&self) -> bool;

    /// Whether FD frames of this kind switch bit rate in the data phase.
    spec fn spec_brs(&self) -> bool;

    /// The format's cap never exceeds the sixty-four bytes a message
    /// object can carry.
    proof fn lemma_cap_bound(&self)
        ensures
            self.spec_cap() <= 64,
    ;

    /// Payload capacity in bytes of this kind.
    fn max_len(&self) -> (r: usize)
        ensures
            r == self.spec_max_len(),
    ;

    /// Checks the payload length against the kind and sets the frame-format
    /// bits of the header. Fails with `InvalidLength` if the payload or the
    /// capacity exceeds the format's cap or the payload exceeds the
    /// capacity, and with `InvalidTypeSize` if the capacity is not a
    /// multiple of four.
    fn setup_header(&self, header: &mut TxHeader, payload_length: usize) -> (r: Result<
        (),
        MessageError,
    >)
        ensures
            ({
                let l = self.spec_max_len();
                let cap = self.spec_cap();
                if l > cap || payload_length > cap {
                    &&& r == Err::<(), MessageError>(
                        MessageError::InvalidLength(
                            if payload_length >= l {
                                payload_length
                            } else {
                                l
                            },
                        ),
                    )
                    &&& *final(header) == *old(header)
                } else if payload_length > l {
                    &&& r == Err::<(), MessageError>(MessageError::InvalidLength(payload_length))
                    &&& *final(header) == *old(header)
                } else if l % 4 != 0 {
                    &&& r == Err::<(), MessageError>(MessageError::InvalidTypeSize(l))
                    &&& *final(header) == *old(header)
                } else {
                    &&& r == Ok::<(), MessageError>(())
                    &&& (if self.spec_fd() {
                        *final(header) == (TxHeader {
                            fd_frame: true,
                            bit_rate_switch: self.spec_brs(),
                            ..*old(header)
                        })
                    } else {
                        *final(header) == *old(header)
                    })
                }
            }),
    ;
}

/// Classic CAN 2.0 message kind, where `L` is the payload capacity in
/// bytes: four or eight.
#[derive(Copy, Clone, Debug)]
pub struct Can20<const L: usize> {}

impl<const L: usize> MessageType for Can20<L> {
    open spec fn spec_max_len(&self) -> usize {
        L
    }

    open spec fn spec_cap(&self) -> usize {
        8
    }

    open spec fn spec_fd(&self) -> bool {
        false
    }

    open spec fn spec_brs(&self) -> bool {
        false
    }

    proof fn lemma_cap_bound(&self) {
    }

    fn max_len(&self) -> usize {
        L
    }

    fn setup_header(&self, header: &mut TxHeader, payload_length: usize) -> Result<
        (),
        MessageError,
    > {
        if L > MAX_PAYLOAD_CAN_2_0 || payload_length > MAX_PAYLOAD_CAN_2_0 {
            let max = if payload_length >= L {
                payload_length
            } else {
                L
            };
            return Err(MessageError::InvalidLength(max));
        }
        if payload_length > L {
            return Err(MessageError::InvalidLength(payload_length));
        }
        if L % 4 != 0 {
            return Err(MessageError::InvalidTypeSize(L));
        }
        Ok(())
    }
}

/// CAN FD message kind, where `L` is the payload capacity in bytes:
/// a multiple of four, at most sixty-four.
#[derive(Copy, Clone, Debug)]
pub struct CanFd<const L: usize> {
    /// Switch to the data bit rate in the data phase
    pub bitrate_switch: bool,
}

impl<const L: usize> MessageType for CanFd<L> {
    open spec fn spec_max_len(&self) -> usize {
        L
    }

    open spec fn spec_cap(&self) -> usize {
        64
    }

    open spec fn spec_fd(&self) -> bool {
        true
    }

    open spec fn spec_brs(&self) -> bool {
        self.bitrate_switch
    }

    proof fn lemma_cap_bound(&self) {
    }

    fn max_len(&self) -> usize {
        L
    }

    fn setup_header(&self, header: &mut TxHeader, payload_length: usize) -> Result<
        (),
        MessageError,
    > {
        if L > MAX_PAYLOAD_CAN_FD || payload_length > MAX_PAYLOAD_CAN_FD {
            let max = if payload_length >= L {
                payload_length
            } else {
                L
            };
            return Err(MessageError::InvalidLength(max));
        }
        if payload_length > L {
            return Err(MessageError::InvalidLength(payload_length));
        }
        if L % 4 != 0 {
            return Err(MessageError::InvalidTypeSize(L));
        }
        header.bit_rate_switch = self.bitrate_switch;
        header.fd_frame = true;
        Ok(())
    }
}

/// Transmit message object: header plus immutable payload buffer.
#[derive(Debug)]
pub struct TxMessage<T: MessageType> {
    /// First eight bytes of the transmit message object
    pub header: TxHeader,
    /// Payload bytes of the message object
    pub buff: Bytes,
    /// CAN message kind (CAN 2.0 or CAN FD)
    pub message_type: T,
}

impl<T: MessageType> TxMessage<T> {
    /// The header is in range, the payload fits the kind, and the kind's
    /// capacity is a supported FIFO write size.
    pub open spec fn wf(self) -> bool {
        &&& self.header.wf()
        &&& bytes_content(self.buff).len() <= self.message_type.spec_max_len()
        &&& self.message_type.spec_max_len() <= 64
        &&& self.message_type.spec_max_len() % 4 == 0
    }

    /// Creates a new CAN message from a kind, a payload buffer and an
    /// identifier. On success the header carries the smallest supported
    /// data length code covering the payload, the split identifier fields,
    /// and the frame-format bits of the kind.
    pub fn new(message_type: T, data: Bytes, identifier: Id) -> (r: Result<TxMessage<T>,
        MessageError>)
        requires
            identifier.wf(),
        ensures
            ({
                let pl = bytes_content(data).len();
                let l = message_type.spec_max_len();
                let cap = message_type.spec_cap();
                match r {
                    Ok(m) => {
                        &&& pl <= l <= cap
                        &&& l % 4 == 0
                        &&& m.wf()
                        &&& m.message_type == message_type
                        &&& bytes_content(m.buff) == bytes_content(data)
                        &&& spec_dlc_len(m.header.data_length_code) == spec_next_supported_length(
                            pl as int,
                        )
                        &&& m.header.fd_frame == message_type.spec_fd()
                        &&& m.header.bit_rate_switch == (message_type.spec_fd()
                            && message_type.spec_brs())
                        &&& m.header.sid11 == false
                        &&& m.header.sequence == 0
                        &&& m.header.error_status_indicator == false
                        &&& m.header.remote_transmission_request == false
                        &&& (match identifier {
                            Id::Standard(sid) => {
                                &&& m.header.standard_identifier == sid
                                &&& m.header.extended_identifier == 0
                                &&& !m.header.identifier_extension_flag
                            },
                            Id::Extended(eid) => {
                                &&& m.header.extended_identifier == eid & 0x3FFFF
                                &&& m.header.standard_identifier == ((eid >> 18) & 0x7FF) as u16
                                &&& m.header.identifier_extension_flag
                            },
                        })
                    },
                    Err(e) => {
                        if l > cap || pl > cap {
                            e == MessageError::InvalidLength(
                                if pl >= l {
                                    pl as usize
                                } else {
                                    l
                                },
                            )
                        } else if pl > l {
                            e == MessageError::InvalidLength(pl as usize)
                        } else {
                            l % 4 != 0 && e == MessageError::InvalidTypeSize(l)
                        }
                    },
                }
            }),
    {
        let mut header = TxHeader::new();
        let initial_length = bytes_as_slice(&data).len();
        match message_type.setup_header(&mut header, initial_length) {
            Ok(()) => {},
            Err(e) => {
                return Err(e);
            },
        }
        // Walk the byte count upward until a supported data length code is
        // found: the smallest supported count covering the payload.
        let mut payload_length = initial_length;
        proof {
            message_type.lemma_cap_bound();
            lemma_next_supported_length(initial_length as int);
        }
        while !supported_length(payload_length)
            invariant
                initial_length <= payload_length <= spec_next_supported_length(
                    initial_length as int,
                ),
                spec_next_supported_length(initial_length as int) <= 64,
                forall|k: int|
                    initial_length <= k < spec_next_supported_length(initial_length as int)
                        ==> !spec_supported_length(k),
            decreases 64 - payload_length,
        {
            payload_length = payload_length + 1;
        }
        proof {
            assert(payload_length == spec_next_supported_length(initial_length as int));
        }
        header.data_length_code = DLC::from_supported_length(payload_length);
        match identifier {
            Id::Standard(sid) => {
                header.standard_identifier = sid;
            },
            Id::Extended(eid) => {
                let split_standard = (eid >> 18) & 0x7FF;
                proof {
                    let e = eid;
                    assert((e & 0x3FFFF) <= 0x3FFFF && ((e >> 18) & 0x7FF) <= 0x7FF) by (
                    bit_vector);
                }
                header.extended_identifier = eid & EXTENDED_IDENTIFIER_MASK;
                header.standard_identifier = split_standard as u16;
                header.identifier_extension_flag = true;
            },
        }
        Ok(TxMessage { header, buff: data, message_type })
    }

    /// Returns the payload as a byte slice.
    pub fn get_payload(&self) -> (r: &[u8])
        ensures
            r@ == bytes_content(self.buff),
    {
        bytes_as_slice(&self.buff)
    }

    /// Returns the header of the transmit message object.
    pub fn get_header(&self) -> (r: &TxHeader)
        ensures
            *r == self.header,
    {
        &self.header
    }
}

impl<T: MessageType> Clone for TxMessage<T> {
    /// The clone carries the same header, kind and payload contents.
    fn clone(&self) -> (r: Self)
        ensures
            r.header == self.header,
            r.message_type == self.message_type,
            bytes_content(r.buff) == bytes_content(self.buff),
    {
        TxMessage {
            header: self.header,
            buff: bytes_clone(&self.buff),
            message_type: self.message_type,
        }
    }
}

/// For any extended identifier, the split into the header's
/// standard-identifier and extended-identifier fields loses nothing: the
/// reconstruction from the two fields yields the identifier back.
pub proof fn lemma_extended_id_round_trip(eid: u32)
    requires
        eid <= 0x1FFF_FFFF,
    ensures
        ((((eid >> 18) & 0x7FF) << 18) | (eid & 0x3FFFF)) == eid,
{
    assert(eid <= 0x1FFF_FFFF ==> ((((eid >> 18) & 0x7FF) << 18) | (eid & 0x3FFFF)) == eid) by (
    bit_vector);
}

/// The identifier and frame-format fields of a well-formed transmit header
/// survive the packing into the two header words: extracting them from the
/// words, as the receive-header decoder does, yields the fields back.
pub proof fn lemma_header_fields_survive_packing(h: TxHeader)
    requires
        h.wf(),
    ensures
        (h.spec_word0() >> 11) & 0x3FFFF == h.extended_identifier,
        (h.spec_word0() & 0x7FF) as u16 == h.standard_identifier,
        (h.spec_word1() & 0x10 != 0) == h.identifier_extension_flag,
        (h.spec_word1() & 0xF) as u8 == h.data_length_code.spec_bits(),
{
    let s11: u32 = if h.sid11 {
        1
    } else {
        0
    };
    let eid = h.extended_identifier;
    let sid = h.standard_identifier as u32;
    let w0 = h.spec_word0();
    assert(((s11 << 29) | (eid << 11) | sid) >> 11 & 0x3FFFF == eid && ((s11 << 29) | (eid << 11)
        | sid) & 0x7FF == sid) by (bit_vector)
        requires
            s11 <= 1,
            eid <= 0x3FFFF,
            sid <= 0x7FF,
    ;
    let sq = h.sequence as u32;
    let esi: u32 = if h.error_status_indicator {
        1
    } else {
        0
    };
    let fdf: u32 = if h.fd_frame {
        1
    } else {
        0
    };
    let brs: u32 = if h.bit_rate_switch {
        1
    } else {
        0
    };
    let rtr: u32 = if h.remote_transmission_request {
        1
    } else {
        0
    };
    let ide: u32 = if h.identifier_extension_flag {
        1
    } else {
        0
    };
    let dlc = h.data_length_code.spec_bits() as u32;
    assert(dlc <= 15) by {
        match h.data_length_code {
            DLC::Zero => {},
            DLC::One => {},
            DLC::Two => {},
            DLC::Three => {},
            DLC::Four => {},
            DLC::Five => {},
            DLC::Six => {},
            DLC::Seven => {},
            DLC::Eight => {},
            DLC::Twelve => {},
            DLC::Sixteen => {},
            DLC::Twenty => {},
            DLC::TwentyFour => {},
            DLC::ThirtyTwo => {},
            DLC::FortyEight => {},
            DLC::SixtyFour => {},
        }
    }
    let w1 = (sq << 9) | (esi << 8) | (fdf << 7) | (brs << 6) | (rtr << 5) | (ide << 4) | dlc;
    assert((w1 & 0x10 != 0) == (ide == 1) && w1 & 0xF == dlc) by (bit_vector)
        requires
            w1 == (sq << 9) | (esi << 8) | (fdf << 7) | (brs << 6) | (rtr << 5) | (ide << 4) | dlc,
            sq <= 0x7F,
            esi <= 1,
            fdf <= 1,
            brs <= 1,
            rtr <= 1,
            ide <= 1,
            dlc <= 15,
    ;
}

/// Receive message object header, decoded from the first eight bytes of a
/// received message object. Each 32-bit word is stored little-endian in
/// the controller's RAM.
#[derive(Copy, Clone, Debug, PartialEq, Eq, Structural)]
pub struct RxHeader {
    /// In FD mode the standard ID can be extended to twelve bits
    pub sid11: bool,
    /// Eighteen least significant bits of an extended ID
    pub extended_identifier: u32,
    /// Standard ID, or the top eleven bits of an extended ID
    pub standard_identifier: u16,
    /// Number of the filter that matched
    pub filter_hit: u8,
    /// Error status indicator
    pub error_status_indicator: bool,
    /// Distinguishes CAN FD from classic CAN formats
    pub fd_frame: bool,
    /// Whether the data bit rate was switched
    pub bit_rate_switch: bool,
    /// Remote transmission request; not used in CAN FD
    pub remote_transmission_request: bool,
    /// Distinguishes base from extended format
    pub identifier_extension_flag: bool,
    /// Data length code
    pub data_length_code: DLC,
}

impl RxHeader {
    /// All fields are within their bit widths.
    pub open spec fn wf(self) -> bool {
        self.extended_identifier <= 0x3FFFF && self.standard_identifier <= 0x7FF && self.filter_hit
            <= 0x1F
    }

    /// Decodes the header from the first eight bytes of a received message
    /// object, each word little-endian.
    pub fn from_le_bytes(b: [u8; 8]) -> (r: Self)
        ensures
            ({
                let w0 = spec_u32_of_le(b@[0], b@[1], b@[2], b@[3]);
                let w1 = spec_u32_of_le(b@[4], b@[5], b@[6], b@[7]);
                &&& r.wf()
                &&& r.sid11 == (w0 & 0x2000_0000u32 != 0)
                &&& r.extended_identifier == (w0 >> 11) & 0x3FFFF
                &&& r.standard_identifier == (w0 & 0x7FF) as u16
                &&& r.filter_hit == ((w1 >> 11) & 0x1F) as u8
                &&& r.error_status_indicator == (w1 & 0x100u32 != 0)
                &&& r.fd_frame == (w1 & 0x80u32 != 0)
                &&& r.bit_rate_switch == (w1 & 0x40u32 != 0)
                &&& r.remote_transmission_request == (w1 & 0x20u32 != 0)
                &&& r.identifier_extension_flag == (w1 & 0x10u32 != 0)
                &&& r.data_length_code.spec_bits() == (w1 & 0xF) as u8
            }),
    {
        let w0 = u32_of_le_bytes(b[0], b[1], b[2], b[3]);
        let w1 = u32_of_le_bytes(b[4], b[5], b[6], b[7]);
        proof {
            assert(((w0 >> 11) & 0x3FFFF) <= 0x3FFFF && (w0 & 0x7FF) <= 0x7FF && ((w1 >> 11)
                & 0x1F) <= 0x1F && (w1 & 0xF) <= 0xF) by (bit_vector);
        }
        RxHeader {
            sid11: w0 & 0x2000_0000 != 0,
            extended_identifier: (w0 >> 11) & 0x3FFFF,
            standard_identifier: (w0 & 0x7FF) as u16,
            filter_hit: ((w1 >> 11) & 0x1F) as u8,
            error_status_indicator: w1 & 0x100 != 0,
            fd_frame: w1 & 0x80 != 0,
            bit_rate_switch: w1 & 0x40 != 0,
            remote_transmission_request: w1 & 0x20 != 0,
            identifier_extension_flag: w1 & 0x10 != 0,
            data_length_code: DLC::from_bits((w1 & 0xF) as u8),
        }
    }

    /// Reconstructs the frame identifier: for an extended frame the
    /// standard-identifier field holds the top eleven bits and the
    /// extended-identifier field the low eighteen.
    pub fn get_id(&self) -> (r: Id)
        requires
            self.wf(),
        ensures
            r == if self.identifier_extension_flag {
                Id::Extended(
                    ((self.standard_identifier as u32) << 18) | self.extended_identifier,
                )
            } else {
                Id::Standard(self.standard_identifier)
            },
            r.wf(),
    {
        if self.identifier_extension_flag {
            let sid = self.standard_identifier as u32;
            let eid = self.extended_identifier;
            proof {
                let s = sid;
                let e = eid;
                assert((s <= 0x7FF && e <= 0x3FFFF) ==> ((s << 18) | e) <= 0x1FFF_FFFF) by (
                bit_vector);
            }
            Id::Extended((sid << 18) | eid)
        } else {
            Id::Standard(self.standard_identifier)
        }
    }
}

} // verus!
