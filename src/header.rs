use vstd::prelude::*;

use crate::error::{Error, Result};

verus! {

/// Size of the fixed frame header, in bytes.
pub const HEADER_LEN: usize = 16;

/// Purpose of a frame.
#[derive(Debug, Copy, Clone, Eq, PartialEq, Structural)]
pub enum PacketType {
    Heartbeat,
    HeartbeatResp,
    Notification,
    ClientAuth,
    ServerAuth,
}

/// Encoding of a frame's body.
#[derive(Debug, Copy, Clone, Eq, PartialEq, Structural)]
pub enum PacketVer {
    Plain,
    Heartbeat,
    Compressed,
}

/// Wire code of a packet type.
pub open spec fn type_code(t: PacketType) -> u32 {
    match t {
        PacketType::Heartbeat => 2,
        PacketType::HeartbeatResp => 3,
        PacketType::Notification => 5,
        PacketType::ClientAuth => 7,
        PacketType::ServerAuth => 8,
    }
}

/// Packet type with the given wire code, if any.
pub open spec fn type_of_code(c: u32) -> Option<PacketType> {
    if c == 2 {
        Some(PacketType::Heartbeat)
    } else if c == 3 {
        Some(PacketType::HeartbeatResp)
    } else if c == 5 {
        Some(PacketType::Notification)
    } else if c == 7 {
        Some(PacketType::ClientAuth)
    } else if c == 8 {
        Some(PacketType::ServerAuth)
    } else {
        None
    }
}

/// Wire code of a packet version.
pub open spec fn ver_code(v: PacketVer) -> u16 {
    match v {
        PacketVer::Plain => 0,
        PacketVer::Heartbeat => 1,
        PacketVer::Compressed => 2,
    }
}

/// Packet version with the given wire code, if any.
pub open spec fn ver_of_code(c: u16) -> Option<PacketVer> {
    if c == 0 {
        Some(PacketVer::Plain)
    } else if c == 1 {
        Some(PacketVer::Heartbeat)
    } else if c == 2 {
        Some(PacketVer::Compressed)
    } else {
        None
    }
}

impl PacketType {
    /// The type whose wire code is `c`.
    pub fn from_u32(c: u32) -> (r: Option<PacketType>)
        ensures
            r == type_of_code(c),
    {
        match c {
            2 => Some(PacketType::Heartbeat),
            3 => Some(PacketType::HeartbeatResp),
            5 => Some(PacketType::Notification),
            7 => Some(PacketType::ClientAuth),
            8 => Some(PacketType::ServerAuth),
            _ => None,
        }
    }

    /// The wire code of this type.
    pub fn to_u32(&self) -> (r: u32)
        ensures
            r == type_code(*self),
    {
        match self {
            PacketType::Heartbeat => 2,
            PacketType::HeartbeatResp => 3,
            PacketType::Notification => 5,
            PacketType::ClientAuth => 7,
            PacketType::ServerAuth => 8,
        }
    }
}

impl PacketVer {
    /// The version whose wire code is `c`.
    pub fn from_u16(c: u16) -> (r: Option<PacketVer>)
        ensures
            r == ver_of_code(c),
    {
        match c {
            0 => Some(PacketVer::Plain),
            1 => Some(PacketVer::Heartbeat),
            2 => Some(PacketVer::Compressed),
            _ => None,
        }
    }

    /// The wire code of this version.
    pub fn to_u16(&self) -> (r: u16)
        ensures
            r == ver_code(*self),
    {
        match self {
            PacketVer::Plain => 0,
            PacketVer::Heartbeat => 1,
            PacketVer::Compressed => 2,
        }
    }
}

/// Big-endian value of the two bytes of `b` at `i`.
pub open spec fn be16_at(b: Seq<u8>, i: int) -> u16 {
    (b[i] as int * 256 + b[i + 1] as int) as u16
}

/// Big-endian value of the four bytes of `b` at `i`.
pub open spec fn be32_at(b: Seq<u8>, i: int) -> u32 {
    (b[i] as int * 16777216 + b[i + 1] as int * 65536 + b[i + 2] as int * 256
        + b[i + 3] as int) as u32
}

/// The two big-endian bytes of `n`.
pub open spec fn be16_bytes(n: u16) -> Seq<u8> {
    seq![(n / 256) as u8, (n % 256) as u8]
}

/// The four big-endian bytes of `n`.
pub open spec fn be32_bytes(n: u32) -> Seq<u8> {
    seq![(n / 16777216) as u8, ((n / 65536) % 256) as u8, ((n / 256) % 256) as u8, (n % 256) as u8]
}

/// Protocol header: the 12 meaningful bytes of the 16-byte frame header.
#[derive(Debug, Copy, Clone, PartialEq, Eq, Structural)]
pub struct Header {
    /// Total frame length, header included.
    pub len: usize,
    /// Header length; 16 in every valid header.
    pub header_len: usize,
    pub ver: PacketVer,
    pub typ: PacketType,
}

/// The header that the first 16 bytes of `b` encode, if they form a valid one:
/// header length 16, total length at least 16, known version and type codes.
pub open spec fn header_of(b: Seq<u8>) -> Option<Header> {
    if b.len() < 16 || be16_at(b, 4) != 16 || be32_at(b, 0) < 16 {
        None
    } else {
        match (ver_of_code(be16_at(b, 6)), type_of_code(be32_at(b, 8))) {
            (Some(ver), Some(typ)) => Some(
                Header { len: be32_at(b, 0) as usize, header_len: 16, ver, typ },
            ),
            _ => None,
        }
    }
}

/// The 16 wire bytes of a header whose fields fit their widths; the trailing
/// sequence field is always 1.
pub open spec fn header_bytes(h: Header) -> Seq<u8> {
    be32_bytes(h.len as u32) + be16_bytes(h.header_len as u16) + be16_bytes(ver_code(h.ver))
        + be32_bytes(type_code(h.typ)) + be32_bytes(1)
}

/// Whether every field of `h` fits its wire width.
pub open spec fn fits_wire(h: Header) -> bool {
    h.len <= u32::MAX && h.header_len <= u16::MAX
}

/// Reads the big-endian `u16` at `i`.
pub(crate) fn read_be16(b: &[u8], i: usize) -> (r: u16)
    requires
        i + 2 <= b@.len(),
    ensures
        r == be16_at(b@, i as int),
{
    let hi = b[i] as u16;
    let lo = b[i + 1] as u16;
    assert(hi * 256 + lo <= 65535) by (nonlinear_arith)
        requires hi <= 255, lo <= 255;
    hi * 256 + lo
}

/// Reads the big-endian `u32` at `i`.
pub(crate) fn read_be32(b: &[u8], i: usize) -> (r: u32)
    requires
        i + 4 <= b@.len(),
    ensures
        r == be32_at(b@, i as int),
{
    let b0 = b[i] as u32;
    let b1 = b[i + 1] as u32;
    let b2 = b[i + 2] as u32;
    let b3 = b[i + 3] as u32;
    assert(b0 * 16777216 + b1 * 65536 + b2 * 256 + b3 <= 4294967295) by (nonlinear_arith)
        requires b0 <= 255, b1 <= 255, b2 <= 255, b3 <= 255;
    b0 * 16777216 + b1 * 65536 + b2 * 256 + b3
}

/// Appends the big-endian bytes of `n`.
fn push_be16(out: &mut Vec<u8>, n: u16)
    ensures
        final(out)@ == old(out)@ + be16_bytes(n),
{
    out.push((n / 256) as u8);
    out.push((n % 256) as u8);
    assert(final(out)@ =~= old(out)@ + be16_bytes(n));
}

/// Appends the big-endian bytes of `n`.
fn push_be32(out: &mut Vec<u8>, n: u32)
    ensures
        final(out)@ == old(out)@ + be32_bytes(n),
{
    out.push((n / 16777216) as u8);
    out.push(((n / 65536) % 256) as u8);
    out.push(((n / 256) % 256) as u8);
    out.push((n % 256) as u8);
    assert(final(out)@ =~= old(out)@ + be32_bytes(n));
}

impl Header {
    /// Decodes the header at the start of `buf` and returns it with the bytes
    /// after the 16-byte header. Fails with `InvalidHeader` exactly when
    /// `header_of(buf@)` is `None`.
    pub fn parse(buf: &[u8]) -> (r: Result<(Header, &[u8])>)
        ensures
            match r {
                Ok((h, rest)) => header_of(buf@) == Some(h) && rest@ == buf@.subrange(
                    16,
                    buf@.len() as int,
                ),
                Err(e) => header_of(buf@) is None && e == Error::InvalidHeader,
            },
    {
        if buf.len() < HEADER_LEN {
            return Err(Error::InvalidHeader);
        }
        let len = read_be32(buf, 0);
        let header_len = read_be16(buf, 4);
        if header_len != 16 || len < 16 {
            return Err(Error::InvalidHeader);
        }
        let ver = match PacketVer::from_u16(read_be16(buf, 6)) {
            Some(v) => v,
            None => return Err(Error::InvalidHeader),
        };
        let typ = match PacketType::from_u32(read_be32(buf, 8)) {
            Some(t) => t,
            None => return Err(Error::InvalidHeader),
        };
        let rest = vstd::slice::slice_subrange(buf, HEADER_LEN, buf.len());
        Ok((Header { len: len as usize, header_len: 16, ver, typ }, rest))
    }

    /// Header of a frame whose body is `data_len` bytes long.
    pub fn new(data_len: usize, typ: PacketType, ver: PacketVer) -> (r: Header)
        requires
            data_len + 16 <= usize::MAX,
        ensures
            r == (Header { len: (data_len + 16) as usize, header_len: 16, ver, typ }),
    {
        Header { len: data_len + HEADER_LEN, header_len: HEADER_LEN, ver, typ }
    }

    /// Appends the 16 wire bytes of this header to `buf`.
    fn write_into(&self, buf: &mut Vec<u8>)
        requires
            fits_wire(*self),
        ensures
            final(buf)@ == old(buf)@ + header_bytes(*self),
    {
        push_be32(buf, self.len as u32);
        push_be16(buf, self.header_len as u16);
        push_be16(buf, self.ver.to_u16());
        push_be32(buf, self.typ.to_u32());
        push_be32(buf, 1);
        assert(final(buf)@ =~= old(buf)@ + header_bytes(*self));
    }

    /// The 16 wire bytes of this header; `InvalidHeader` when a field does
    /// not fit its wire width.
    pub fn to_vec(&self) -> (r: Result<Vec<u8>>)
        ensures
            match r {
                Ok(v) => fits_wire(*self) && v@ == header_bytes(*self),
                Err(e) => !fits_wire(*self) && e == Error::InvalidHeader,
            },
    {
        if self.len > 4294967295 || self.header_len > 65535 {
            return Err(Error::InvalidHeader);
        }
        let mut buf: Vec<u8> = Vec::new();
        self.write_into(&mut buf);
        assert(buf@ =~= header_bytes(*self));
        Ok(buf)
    }
}

proof fn lemma_be16(n: u16)
    ensures
        be16_at(be16_bytes(n), 0) == n,
{
    let b = be16_bytes(n);
    assert((n / 256) * 256 + n % 256 == n) by (nonlinear_arith);
    assert(b[0] == n / 256 && b[1] == n % 256);
}

proof fn lemma_be32(n: u32)
    ensures
        be32_at(be32_bytes(n), 0) == n,
{
    let b = be32_bytes(n);
    let q = n / 16777216;
    let r1 = (n / 65536) % 256;
    let r2 = (n / 256) % 256;
    let r3 = n % 256;
    assert(q * 16777216 + r1 * 65536 + r2 * 256 + r3 == n) by (nonlinear_arith)
        requires q == n / 16777216, r1 == (n / 65536) % 256, r2 == (n / 256) % 256, r3 == n % 256, n <= 4294967295;
    assert(q < 256) by (nonlinear_arith) requires q == n / 16777216, n <= 4294967295;
    assert(b[0] == q && b[1] == r1 && b[2] == r2 && b[3] == r3);
}

/// Decoding the encoding of a header built for a body of `body_len` bytes
/// gives that header back, with nothing after it: encoding and decoding are
/// inverse for every body length whose total length fits the 32-bit field
/// and for every version and type.
pub proof fn lemma_header_round_trip(body_len: nat, ver: PacketVer, typ: PacketType)
    requires
        body_len + 16 <= u32::MAX,
    ensures
        ({
            let h = Header { len: (body_len + 16) as usize, header_len: 16, ver, typ };
            &&& fits_wire(h)
            &&& header_bytes(h).len() == 16
            &&& header_of(header_bytes(h)) == Some(h)
            &&& header_bytes(h).subrange(16, 16) =~= Seq::<u8>::empty()
        }),
{
    let h = Header { len: (body_len + 16) as usize, header_len: 16, ver, typ };
    let b = header_bytes(h);
    let l = h.len as u32;
    lemma_be32(l);
    lemma_be16(16);
    lemma_be16(ver_code(ver));
    lemma_be32(type_code(typ));
    assert(b.subrange(0, 4) =~= be32_bytes(l));
    assert(b.subrange(4, 6) =~= be16_bytes(16));
    assert(b.subrange(6, 8) =~= be16_bytes(ver_code(ver)));
    assert(b.subrange(8, 12) =~= be32_bytes(type_code(typ)));
    assert(be32_at(b, 0) == be32_at(be32_bytes(l), 0));
    assert(be16_at(b, 4) == be16_at(be16_bytes(16), 0));
    assert(be16_at(b, 6) == be16_at(be16_bytes(ver_code(ver)), 0));
    assert(be32_at(b, 8) == be32_at(be32_bytes(type_code(typ)), 0));
    assert(ver_of_code(ver_code(ver)) == Some(ver));
    assert(type_of_code(type_code(typ)) == Some(typ));
}

/// Any buffer shorter than 16 bytes is rejected.
pub proof fn lemma_short_buffer_rejected(b: Seq<u8>)
    requires
        b.len() < 16,
    ensures
        header_of(b) is None,
{
}

/// A header whose header-length field is not 16 is rejected, whatever its
/// other fields hold.
pub proof fn lemma_wrong_header_len_rejected(b: Seq<u8>)
    requires
        b.len() >= 16,
        be16_at(b, 4) != 16,
    ensures
        header_of(b) is None,
{
}

} // verus!
