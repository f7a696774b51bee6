//! Binary codec for the streaming protocol's fixed header.
//!
//! A datagram is 4 reserved bytes, a 24-byte header, and then the sample
//! body. Decoding never touches the buffer; the header fields are copied
//! out and the body is handed back as its own vector so that the gain
//! stage can work on it and write it back in place.

use vstd::prelude::*;

use crate::HEADER_SIZE;

verus! {

/// Raised when a datagram is too short to hold the fixed header.
#[derive(Debug, PartialEq, Eq, Structural)]
pub struct FormatError;

/// The fixed header fields, copied out of a datagram.
#[derive(Debug, Clone)]
pub struct VbanHeader {
    pub format_sr: u8,
    pub format_nbs: u8,
    pub format_nbc: u8,
    pub format_bit: u8,
    /// Stream name, always exactly 16 bytes, opaque to the relay.
    pub streamname: Vec<u8>,
    /// Frame counter, little-endian on the wire.
    pub nu_frame: u32,
}

/// Stream kind, from the top 3 bits of the rate byte.
#[derive(Debug, Clone, Copy, PartialEq, Eq, Structural)]
pub enum Protocol {
    Audio,
    Serial,
    Txt,
    Service,
    Undefined(u8),
}

/// Sample format, from the low 3 bits of the format byte. The field is
/// 3 bits wide, so every bit pattern maps to one of these variants.
#[derive(Debug, Clone, Copy, PartialEq, Eq, Structural)]
pub enum DataType {
    U8,
    I16,
    I24,
    I32,
    F32,
    F64,
    I12,
    I10,
}

/// Compression scheme, from the high bits of the format byte.
#[derive(Debug, Clone, Copy, PartialEq, Eq, Structural)]
pub enum Codec {
    PCM,
    VBCA,
    VBCV,
    Undefined(u8),
    User,
}

/// Value of a 32-bit little-endian field stored as four bytes.
pub open spec fn spec_u32_le(b0: u8, b1: u8, b2: u8, b3: u8) -> u32 {
    (b0 + b1 * 0x100 + b2 * 0x1_0000 + b3 * 0x100_0000) as u32
}

/// Stream kind encoded in the rate byte `sr`.
pub open spec fn spec_protocol(sr: u8) -> Protocol {
    let m = sr & 0xe0;
    if m == 0x00 {
        Protocol::Audio
    } else if m == 0x20 {
        Protocol::Serial
    } else if m == 0x40 {
        Protocol::Txt
    } else if m == 0x60 {
        Protocol::Service
    } else {
        Protocol::Undefined(m)
    }
}

/// Sample format encoded in the format byte `bit`.
pub open spec fn spec_data_type(bit: u8) -> DataType {
    let m = bit & 0x07;
    if m == 0 {
        DataType::U8
    } else if m == 1 {
        DataType::I16
    } else if m == 2 {
        DataType::I24
    } else if m == 3 {
        DataType::I32
    } else if m == 4 {
        DataType::F32
    } else if m == 5 {
        DataType::F64
    } else if m == 6 {
        DataType::I12
    } else {
        DataType::I10
    }
}

/// Compression scheme encoded in the format byte `bit`.
pub open spec fn spec_codec(bit: u8) -> Codec {
    let m = bit & 0xf0;
    if m == 0x00 {
        Codec::PCM
    } else if m == 0x10 {
        Codec::VBCA
    } else if m == 0x20 {
        Codec::VBCV
    } else if m == 0xf0 {
        Codec::User
    } else {
        Codec::Undefined(m)
    }
}

/// The header fields a well-formed decode must carry, relative to the
/// raw datagram bytes `b`.
pub open spec fn spec_header_of(b: Seq<u8>, h: VbanHeader) -> bool {
    &&& h.format_sr == b[4]
    &&& h.format_nbs == b[5]
    &&& h.format_nbc == b[6]
    &&& h.format_bit == b[7]
    &&& h.streamname@ == b.subrange(8, 24)
    &&& h.nu_frame == spec_u32_le(b[24], b[25], b[26], b[27])
}

impl VbanHeader {
    /// Reads the header fields out of a full datagram; the first 4 bytes
    /// are the reserved prefix and are skipped.
    fn from_slice(s: &Vec<u8>) -> (h: VbanHeader)
        requires
            s@.len() >= HEADER_SIZE,
        ensures
            spec_header_of(s@, h),
    {
        let mut sn: Vec<u8> = Vec::new();
        let mut i: usize = 0;
        while i < 16
            invariant
                i <= 16,
                sn@.len() == i,
                s@.len() >= HEADER_SIZE,
                forall|j: int| 0 <= j < i ==> sn@[j] == s@[8 + j],
            decreases 16 - i,
        {
            sn.push(s[8 + i]);
            i += 1;
        }
        proof {
            assert(sn@ =~= s@.subrange(8, 24));
        }
        let n0 = s[24] as u32;
        let n1 = s[25] as u32;
        let n2 = s[26] as u32;
        let n3 = s[27] as u32;
        let nu: u32 = n0 + n1 * 0x100 + n2 * 0x1_0000 + n3 * 0x100_0000;
        VbanHeader {
            format_sr: s[4],
            format_nbs: s[5],
            format_nbc: s[6],
            format_bit: s[7],
            streamname: sn,
            nu_frame: nu,
        }
    }

    /// Stream kind from the top 3 bits of the rate byte.
    pub fn protocol(&self) -> (r: Protocol)
        ensures
            r == spec_protocol(self.format_sr),
    {
        let m = self.format_sr & 0xe0;
        if m == 0x00 {
            Protocol::Audio
        } else if m == 0x20 {
            Protocol::Serial
        } else if m == 0x40 {
            Protocol::Txt
        } else if m == 0x60 {
            Protocol::Service
        } else {
            Protocol::Undefined(m)
        }
    }

    /// Sample format from the low 3 bits of the format byte. The 3-bit
    /// field is exhaustive, so this never fails.
    pub fn data_type(&self) -> (r: DataType)
        ensures
            r == spec_data_type(self.format_bit),
    {
        let b = self.format_bit;
        let m = b & 0x07;
        proof {
            assert(b & 0x07 < 8) by (bit_vector);
        }
        if m == 0 {
            DataType::U8
        } else if m == 1 {
            DataType::I16
        } else if m == 2 {
            DataType::I24
        } else if m == 3 {
            DataType::I32
        } else if m == 4 {
            DataType::F32
        } else if m == 5 {
            DataType::F64
        } else if m == 6 {
            DataType::I12
        } else {
            DataType::I10
        }
    }

    /// Compression scheme from the high bits of the format byte.
    pub fn codec(&self) -> (r: Codec)
        ensures
            r == spec_codec(self.format_bit),
    {
        let m = self.format_bit & 0xf0;
        if m == 0x00 {
            Codec::PCM
        } else if m == 0x10 {
            Codec::VBCA
        } else if m == 0x20 {
            Codec::VBCV
        } else if m == 0xf0 {
            Codec::User
        } else {
            Codec::Undefined(m)
        }
    }
}

/// A decoded datagram: the header fields and a copy of the sample body.
/// The caller keeps the received buffer; `gain::write_body` writes a
/// reworked body back into it without touching the header bytes.
#[derive(Debug)]
pub struct VbanPacket {
    pub vban_header: VbanHeader,
    pub vban_data: Vec<u8>,
}

/// What a successful decode of the bytes `b` must return.
pub open spec fn spec_packet_of(b: Seq<u8>, p: VbanPacket) -> bool {
    &&& spec_header_of(b, p.vban_header)
    &&& p.vban_data@ == b.skip(HEADER_SIZE as int)
}

impl VbanPacket {
    /// Splits a received datagram into header and sample body. A buffer
    /// shorter than the fixed header is refused with `FormatError` and
    /// left alone.
    pub fn from_mut_slice(s: &Vec<u8>) -> (r: Result<VbanPacket, FormatError>)
        ensures
            r is Ok <==> s@.len() >= HEADER_SIZE,
            r matches Ok(p) ==> spec_packet_of(s@, p),
    {
        if s.len() < HEADER_SIZE {
            return Err(FormatError);
        }
        let header = VbanHeader::from_slice(s);
        let mut body: Vec<u8> = Vec::new();
        let mut i: usize = HEADER_SIZE;
        while i < s.len()
            invariant
                HEADER_SIZE <= i <= s@.len(),
                body@.len() == i - HEADER_SIZE,
                forall|j: int| 0 <= j < body@.len() ==> body@[j] == s@[HEADER_SIZE + j],
            decreases s@.len() - i,
        {
            body.push(s[i]);
            i += 1;
        }
        proof {
            assert(body@ =~= s@.skip(HEADER_SIZE as int));
        }
        Ok(VbanPacket { vban_header: header, vban_data: body })
    }
}

} // verus!
