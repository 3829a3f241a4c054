//! The frame builder: the wire protocol's fixed binary layout.
//!
//! A frame is a 36-byte fixed prefix (magic number, header size, protocol
//! version, then the header fields) followed by the body bytes and, for
//! requests, the authentication bytes. All multi-byte fields are
//! little-endian. The layout is fully determined by the header fields and the
//! payload bytes, so framing is deterministic and bit-for-bit reproducible.

use vstd::prelude::*;

use crate::errors::FixtureError;

verus! {

/// Magic number opening every frame.
pub const MAGIC: u32 = 0x5EC0_A710;

/// Size in bytes of the header that follows the magic number and the header
/// size field itself (protocol version plus the fixed header fields).
pub const HEADER_SIZE: u16 = 30;

/// Wire protocol version emitted and accepted by this harness.
pub const VERSION_MAJOR: u8 = 1;

/// Wire protocol minor version emitted and accepted by this harness.
pub const VERSION_MINOR: u8 = 0;

/// Content and accept type tag of the protobuf body encoding, the only
/// encoding this harness declares.
pub const BODY_TYPE_PROTOBUF: u8 = 0;

/// Authentication type tag for unauthenticated requests.
pub const AUTH_NO_AUTH: u8 = 0;

/// Provider identifier of the core service, the target of every request frame
/// built here.
pub const PROVIDER_CORE: u8 = 0;

/// Provider identifier of the software provider that answers in every
/// response frame built here.
pub const PROVIDER_MBED_CRYPTO: u8 = 1;

/// Provider identifier of the TPM provider, used in fixture data.
pub const PROVIDER_TPM: u8 = 3;

/// Provider identifier of the CryptoAuthLib provider, used in fixture data.
pub const PROVIDER_CRYPTOAUTHLIB: u8 = 5;

/// The header fields of a request frame that are not derived from the
/// payload lengths.
#[derive(Clone, Copy, Debug, PartialEq, Eq, Structural)]
pub struct RequestHeaderData {
    /// Provider the request is addressed to.
    pub provider: u8,
    /// Session handle; zero when unauthenticated.
    pub session: u64,
    /// Encoding of the request body.
    pub content_type: u8,
    /// Encoding the client accepts for the response body.
    pub accept_type: u8,
    /// Authentication mechanism tag.
    pub auth_type: u8,
    /// Operation code.
    pub opcode: u32,
}

/// The header fields of a response frame that are not derived from the body
/// length.
#[derive(Clone, Copy, Debug, PartialEq, Eq, Structural)]
pub struct ResponseHeaderData {
    /// Provider that produced the response.
    pub provider: u8,
    /// Session handle echoed back.
    pub session: u64,
    /// Encoding of the response body.
    pub content_type: u8,
    /// Operation code the response answers.
    pub opcode: u32,
    /// Numeric outcome status.
    pub status: u16,
}

/// The two bytes of a 16-bit value in little-endian order.
pub open spec fn le16(x: u16) -> Seq<u8> {
    seq![(x % 0x100) as u8, ((x / 0x100) % 0x100) as u8]
}

/// The four bytes of a 32-bit value in little-endian order.
pub open spec fn le32(x: u32) -> Seq<u8> {
    seq![
        (x % 0x100) as u8,
        ((x / 0x100) % 0x100) as u8,
        ((x / 0x1_0000) % 0x100) as u8,
        ((x / 0x100_0000) % 0x100) as u8,
    ]
}

/// The eight bytes of a 64-bit value in little-endian order.
pub open spec fn le64(x: u64) -> Seq<u8> {
    seq![
        (x % 0x100) as u8,
        ((x / 0x100) % 0x100) as u8,
        ((x / 0x1_0000) % 0x100) as u8,
        ((x / 0x100_0000) % 0x100) as u8,
        ((x / 0x1_0000_0000) % 0x100) as u8,
        ((x / 0x100_0000_0000) % 0x100) as u8,
        ((x / 0x1_0000_0000_0000) % 0x100) as u8,
        ((x / 0x100_0000_0000_0000) % 0x100) as u8,
    ]
}

/// The 16-bit value read little-endian at `off`.
pub open spec fn read16(s: Seq<u8>, off: int) -> int {
    s[off] + 0x100 * s[off + 1]
}

/// The 32-bit value read little-endian at `off`.
pub open spec fn read32(s: Seq<u8>, off: int) -> int {
    s[off] + 0x100 * s[off + 1] + 0x1_0000 * s[off + 2] + 0x100_0000 * s[off + 3]
}

/// The 64-bit value read little-endian at `off`.
pub open spec fn read64(s: Seq<u8>, off: int) -> int {
    s[off] + 0x100 * s[off + 1] + 0x1_0000 * s[off + 2] + 0x100_0000 * s[off + 3]
        + 0x1_0000_0000 * s[off + 4] + 0x100_0000_0000 * s[off + 5]
        + 0x1_0000_0000_0000 * s[off + 6] + 0x100_0000_0000_0000 * s[off + 7]
}

/// Reading back the little-endian bytes of a 16-bit value yields the value.
pub proof fn lemma_le16_read(x: u16)
    ensures
        read16(le16(x), 0) == x,
{
    assert(x % 0x100 + 0x100 * ((x / 0x100) % 0x100) == x) by (bit_vector);
}

/// Reading back the little-endian bytes of a 32-bit value yields the value.
pub proof fn lemma_le32_read(x: u32)
    ensures
        read32(le32(x), 0) == x,
{
    assert(x % 0x100 + 0x100 * ((x / 0x100) % 0x100) + 0x1_0000 * ((x / 0x1_0000) % 0x100)
        + 0x100_0000 * ((x / 0x100_0000) % 0x100) == x) by (bit_vector);
}

/// Reading back the little-endian bytes of a 64-bit value yields the value.
pub proof fn lemma_le64_read(x: u64)
    ensures
        read64(le64(x), 0) == x,
{
    assert(x % 0x100 + 0x100 * ((x / 0x100) % 0x100) + 0x1_0000 * ((x / 0x1_0000) % 0x100)
        + 0x100_0000 * ((x / 0x100_0000) % 0x100) + 0x1_0000_0000 * ((x / 0x1_0000_0000) % 0x100)
        + 0x100_0000_0000 * ((x / 0x100_0000_0000) % 0x100)
        + 0x1_0000_0000_0000 * ((x / 0x1_0000_0000_0000) % 0x100)
        + 0x100_0000_0000_0000 * ((x / 0x100_0000_0000_0000) % 0x100) == x) by (bit_vector);
}

/// Bytes reading to a 16-bit value are that value's little-endian bytes.
pub proof fn lemma_read16_unique(b0: u8, b1: u8, x: u16)
    requires
        b0 + 0x100 * b1 == x,
    ensures
        seq![b0, b1] =~= le16(x),
{
    assert(((b0 as u16) + 0x100 * (b1 as u16) == x) ==> (b0 == x % 0x100 && b1 == (x / 0x100)
        % 0x100)) by (bit_vector);
}

/// Bytes reading to a 32-bit value are that value's little-endian bytes.
pub proof fn lemma_read32_unique(b0: u8, b1: u8, b2: u8, b3: u8, x: u32)
    requires
        b0 + 0x100 * b1 + 0x1_0000 * b2 + 0x100_0000 * b3 == x,
    ensures
        seq![b0, b1, b2, b3] =~= le32(x),
{
    assert(((b0 as u32) + 0x100 * (b1 as u32) + 0x1_0000 * (b2 as u32) + 0x100_0000 * (b3 as u32)
        == x) ==> (b0 == x % 0x100 && b1 == (x / 0x100) % 0x100 && b2 == (x / 0x1_0000) % 0x100
        && b3 == (x / 0x100_0000) % 0x100)) by (bit_vector);
}

/// Bytes reading to a 64-bit value are that value's little-endian bytes.
pub proof fn lemma_read64_unique(
    b0: u8,
    b1: u8,
    b2: u8,
    b3: u8,
    b4: u8,
    b5: u8,
    b6: u8,
    b7: u8,
    x: u64,
)
    requires
        b0 + 0x100 * b1 + 0x1_0000 * b2 + 0x100_0000 * b3 + 0x1_0000_0000 * b4
            + 0x100_0000_0000 * b5 + 0x1_0000_0000_0000 * b6 + 0x100_0000_0000_0000 * b7 == x,
    ensures
        seq![b0, b1, b2, b3, b4, b5, b6, b7] =~= le64(x),
{
    assert(((b0 as u64) + 0x100 * (b1 as u64) + 0x1_0000 * (b2 as u64) + 0x100_0000 * (b3 as u64)
        + 0x1_0000_0000 * (b4 as u64) + 0x100_0000_0000 * (b5 as u64) + 0x1_0000_0000_0000 * (
    b6 as u64) + 0x100_0000_0000_0000 * (b7 as u64) == x) ==> (b0 == x % 0x100 && b1 == (x
        / 0x100) % 0x100 && b2 == (x / 0x1_0000) % 0x100 && b3 == (x / 0x100_0000) % 0x100 && b4
        == (x / 0x1_0000_0000) % 0x100 && b5 == (x / 0x100_0000_0000) % 0x100 && b6 == (x
        / 0x1_0000_0000_0000) % 0x100 && b7 == (x / 0x100_0000_0000_0000) % 0x100)) by (bit_vector);
}

/// The 36 bytes of the fixed frame prefix, from the raw header field values.
pub open spec fn header_bytes(
    provider: u8,
    session: u64,
    content_type: u8,
    accept_type: u8,
    auth_type: u8,
    body_len: u32,
    auth_len: u16,
    opcode: u32,
    status: u16,
) -> Seq<u8> {
    le32(MAGIC) + le16(HEADER_SIZE) + seq![VERSION_MAJOR, VERSION_MINOR] + le16(0)
        + seq![provider] + le64(session) + seq![content_type, accept_type, auth_type]
        + le32(body_len) + le16(auth_len) + le32(opcode) + le16(status) + seq![0u8, 0u8]
}

/// The full byte sequence of a request frame: prefix, then body, then
/// authentication bytes. Meaningful when both payload lengths fit their
/// length fields.
pub open spec fn request_frame_bytes(h: RequestHeaderData, body: Seq<u8>, auth: Seq<u8>) -> Seq<
    u8,
> {
    header_bytes(
        h.provider,
        h.session,
        h.content_type,
        h.accept_type,
        h.auth_type,
        body.len() as u32,
        auth.len() as u16,
        h.opcode,
        0,
    ) + body + auth
}

/// The full byte sequence of a response frame: prefix, then body. A response
/// carries no authentication section; its accept and auth fields are zero.
pub open spec fn response_frame_bytes(h: ResponseHeaderData, body: Seq<u8>) -> Seq<u8> {
    header_bytes(
        h.provider,
        h.session,
        h.content_type,
        0,
        0,
        body.len() as u32,
        0,
        h.opcode,
        h.status,
    ) + body
}

/// Append one byte.
fn push_byte(v: &mut Vec<u8>, x: u8)
    ensures
        final(v)@ == old(v)@ + seq![x],
{
    v.push(x);
}

/// Append a 16-bit value in little-endian order.
fn push_le16(v: &mut Vec<u8>, x: u16)
    ensures
        final(v)@ == old(v)@ + le16(x),
{
    v.push((x % 0x100) as u8);
    v.push(((x / 0x100) % 0x100) as u8);
    assert(v@ =~= old(v)@ + le16(x));
}

/// Append a 32-bit value in little-endian order.
fn push_le32(v: &mut Vec<u8>, x: u32)
    ensures
        final(v)@ == old(v)@ + le32(x),
{
    v.push((x % 0x100) as u8);
    v.push(((x / 0x100) % 0x100) as u8);
    v.push(((x / 0x1_0000) % 0x100) as u8);
    v.push(((x / 0x100_0000) % 0x100) as u8);
    assert(v@ =~= old(v)@ + le32(x));
}

/// Append a 64-bit value in little-endian order.
fn push_le64(v: &mut Vec<u8>, x: u64)
    ensures
        final(v)@ == old(v)@ + le64(x),
{
    v.push((x % 0x100) as u8);
    v.push(((x / 0x100) % 0x100) as u8);
    v.push(((x / 0x1_0000) % 0x100) as u8);
    v.push(((x / 0x100_0000) % 0x100) as u8);
    v.push(((x / 0x1_0000_0000) % 0x100) as u8);
    v.push(((x / 0x100_0000_0000) % 0x100) as u8);
    v.push(((x / 0x1_0000_0000_0000) % 0x100) as u8);
    v.push(((x / 0x100_0000_0000_0000) % 0x100) as u8);
    assert(v@ =~= old(v)@ + le64(x));
}

/// Write the 36-byte fixed prefix for the given raw header fields.
fn write_header(
    provider: u8,
    session: u64,
    content_type: u8,
    accept_type: u8,
    auth_type: u8,
    body_len: u32,
    auth_len: u16,
    opcode: u32,
    status: u16,
) -> (r: Vec<u8>)
    ensures
        r@ == header_bytes(
            provider,
            session,
            content_type,
            accept_type,
            auth_type,
            body_len,
            auth_len,
            opcode,
            status,
        ),
{
    let mut v: Vec<u8> = Vec::new();
    push_le32(&mut v, MAGIC);
    push_le16(&mut v, HEADER_SIZE);
    push_byte(&mut v, VERSION_MAJOR);
    push_byte(&mut v, VERSION_MINOR);
    push_le16(&mut v, 0);
    push_byte(&mut v, provider);
    push_le64(&mut v, session);
    push_byte(&mut v, content_type);
    push_byte(&mut v, accept_type);
    push_byte(&mut v, auth_type);
    push_le32(&mut v, body_len);
    push_le16(&mut v, auth_len);
    push_le32(&mut v, opcode);
    push_le16(&mut v, status);
    push_byte(&mut v, 0);
    push_byte(&mut v, 0);
    assert(v@ =~= header_bytes(
        provider,
        session,
        content_type,
        accept_type,
        auth_type,
        body_len,
        auth_len,
        opcode,
        status,
    ));
    v
}

/// Serialize a request frame.
///
/// Succeeds exactly when the body fits the 32-bit body-length field and the
/// authentication payload fits the 16-bit auth-length field; the bytes
/// produced are then exactly the frame the protocol prescribes.
pub fn serialize_request(h: &RequestHeaderData, body: &Vec<u8>, auth: &Vec<u8>) -> (r: Result<
    Vec<u8>,
    FixtureError,
>)
    ensures
        body@.len() > u32::MAX ==> r == Result::<Vec<u8>, FixtureError>::Err(
            FixtureError::BodyTooLarge,
        ),
        body@.len() <= u32::MAX && auth@.len() > u16::MAX ==> r == Result::<
            Vec<u8>,
            FixtureError,
        >::Err(FixtureError::AuthTooLarge),
        body@.len() <= u32::MAX && auth@.len() <= u16::MAX ==> (r matches Ok(bytes) && bytes@
            == request_frame_bytes(*h, body@, auth@)),
{
    if body.len() > u32::MAX as usize {
        return Err(FixtureError::BodyTooLarge);
    }
    if auth.len() > u16::MAX as usize {
        return Err(FixtureError::AuthTooLarge);
    }
    let mut v = write_header(
        h.provider,
        h.session,
        h.content_type,
        h.accept_type,
        h.auth_type,
        body.len() as u32,
        auth.len() as u16,
        h.opcode,
        0,
    );
    v.extend_from_slice(body.as_slice());
    v.extend_from_slice(auth.as_slice());
    assert(v@ =~= request_frame_bytes(*h, body@, auth@));
    Ok(v)
}

/// Serialize a response frame.
///
/// Succeeds exactly when the body fits the 32-bit body-length field; the
/// bytes produced are then exactly the frame the protocol prescribes.
pub fn serialize_response(h: &ResponseHeaderData, body: &Vec<u8>) -> (r: Result<
    Vec<u8>,
    FixtureError,
>)
    ensures
        body@.len() > u32::MAX ==> r == Result::<Vec<u8>, FixtureError>::Err(
            FixtureError::BodyTooLarge,
        ),
        body@.len() <= u32::MAX ==> (r matches Ok(bytes) && bytes@ == response_frame_bytes(
            *h,
            body@,
        )),
{
    if body.len() > u32::MAX as usize {
        return Err(FixtureError::BodyTooLarge);
    }
    let mut v = write_header(
        h.provider,
        h.session,
        h.content_type,
        0,
        0,
        body.len() as u32,
        0,
        h.opcode,
        h.status,
    );
    v.extend_from_slice(body.as_slice());
    assert(v@ =~= response_frame_bytes(*h, body@));
    Ok(v)
}

/// The result of parsing a request frame: the header fields, the body bytes
/// and the authentication bytes.
pub struct ParsedRequest {
    /// The header fields carried by the frame.
    pub header: RequestHeaderData,
    /// The body bytes.
    pub body: Vec<u8>,
    /// The authentication bytes.
    pub auth: Vec<u8>,
}

/// Parse a request frame, in specification form.
///
/// Accepts exactly the canonical frames `request_frame_bytes` produces: the
/// magic number, header size, protocol version, zero flags, zero status, zero
/// reserved bytes, and payload lengths that match the total length must all
/// be in place.
pub open spec fn spec_parse_request(bytes: Seq<u8>) -> Option<
    (RequestHeaderData, Seq<u8>, Seq<u8>),
> {
    if bytes.len() < 36 {
        None
    } else {
        let body_len = read32(bytes, 22);
        let auth_len = read16(bytes, 26);
        if read32(bytes, 0) != MAGIC || read16(bytes, 4) != HEADER_SIZE || bytes[6]
            != VERSION_MAJOR || bytes[7] != VERSION_MINOR || read16(bytes, 8) != 0 || read16(
            bytes,
            32,
        ) != 0 || bytes[34] != 0 || bytes[35] != 0 || bytes.len() != 36 + body_len + auth_len {
            None
        } else {
            Some(
                (
                    RequestHeaderData {
                        provider: bytes[10],
                        session: read64(bytes, 11) as u64,
                        content_type: bytes[19],
                        accept_type: bytes[20],
                        auth_type: bytes[21],
                        opcode: read32(bytes, 28) as u32,
                    },
                    bytes.subrange(36, 36 + body_len),
                    bytes.subrange(36 + body_len, 36 + body_len + auth_len),
                ),
            )
        }
    }
}

/// Round-trip: parsing a built request frame reproduces exactly the header,
/// body and authentication bytes it was built from.
pub proof fn lemma_request_round_trip(h: RequestHeaderData, body: Seq<u8>, auth: Seq<u8>)
    requires
        body.len() <= u32::MAX,
        auth.len() <= u16::MAX,
    ensures
        spec_parse_request(request_frame_bytes(h, body, auth)) matches Some(t) && t.0 == h && t.1
            == body && t.2 == auth,
{
    let bl = body.len() as u32;
    let al = auth.len() as u16;
    let hb = header_bytes(
        h.provider,
        h.session,
        h.content_type,
        h.accept_type,
        h.auth_type,
        bl,
        al,
        h.opcode,
        0,
    );
    let frame = request_frame_bytes(h, body, auth);
    assert(hb =~= le32(MAGIC) + le16(HEADER_SIZE) + seq![VERSION_MAJOR, VERSION_MINOR] + le16(0)
        + seq![h.provider] + le64(h.session) + seq![h.content_type, h.accept_type, h.auth_type]
        + le32(bl) + le16(al) + le32(h.opcode) + le16(0u16) + seq![0u8, 0u8]);
    assert(hb.len() == 36);
    assert(frame =~= hb + body + auth);
    assert(forall|i: int| 0 <= i < 36 ==> frame[i] == hb[i]);
    assert(read32(frame, 0) == read32(le32(MAGIC), 0));
    lemma_le32_read(MAGIC);
    assert(read16(frame, 4) == read16(le16(HEADER_SIZE), 0));
    lemma_le16_read(HEADER_SIZE);
    assert(read16(frame, 8) == read16(le16(0u16), 0));
    lemma_le16_read(0u16);
    assert(read64(frame, 11) == read64(le64(h.session), 0));
    lemma_le64_read(h.session);
    assert(read32(frame, 22) == read32(le32(bl), 0));
    lemma_le32_read(bl);
    assert(read16(frame, 26) == read16(le16(al), 0));
    lemma_le16_read(al);
    assert(read32(frame, 28) == read32(le32(h.opcode), 0));
    lemma_le32_read(h.opcode);
    assert(read16(frame, 32) == read16(le16(0u16), 0));
    assert(frame.len() == 36 + bl + al);
    assert(frame.subrange(36, 36 + bl as int) =~= body);
    assert(frame.subrange(36 + bl as int, 36 + bl as int + al as int) =~= auth);
}

/// The parser accepts only canonical frames: whenever parsing succeeds, the
/// bytes are exactly the frame built back from the parsed parts, whose
/// payloads fit their length fields. Together with the round-trip lemma this
/// pins the parser down: it succeeds on the frames this builder produces and
/// on nothing else.
pub proof fn lemma_parse_request_canonical(bytes: Seq<u8>)
    requires
        spec_parse_request(bytes) is Some,
    ensures
        spec_parse_request(bytes) matches Some(t) && t.1.len() <= u32::MAX && t.2.len()
            <= u16::MAX && bytes == request_frame_bytes(t.0, t.1, t.2),
{
    let t = spec_parse_request(bytes)->Some_0;
    let h = t.0;
    let body = t.1;
    let auth = t.2;
    let body_len = read32(bytes, 22);
    let auth_len = read16(bytes, 26);
    assert(body.len() == body_len);
    assert(auth.len() == auth_len);
    assert(read64(bytes, 11) <= 0xFFFF_FFFF_FFFF_FFFF);
    assert(read32(bytes, 28) <= 0xFFFF_FFFF);
    lemma_read32_unique(bytes[0], bytes[1], bytes[2], bytes[3], MAGIC);
    lemma_read16_unique(bytes[4], bytes[5], HEADER_SIZE);
    lemma_read16_unique(bytes[8], bytes[9], 0);
    lemma_read64_unique(
        bytes[11],
        bytes[12],
        bytes[13],
        bytes[14],
        bytes[15],
        bytes[16],
        bytes[17],
        bytes[18],
        h.session,
    );
    lemma_read32_unique(bytes[22], bytes[23], bytes[24], bytes[25], body.len() as u32);
    lemma_read16_unique(bytes[26], bytes[27], auth.len() as u16);
    lemma_read32_unique(bytes[28], bytes[29], bytes[30], bytes[31], h.opcode);
    lemma_read16_unique(bytes[32], bytes[33], 0);
    let hb = header_bytes(
        h.provider,
        h.session,
        h.content_type,
        h.accept_type,
        h.auth_type,
        body.len() as u32,
        auth.len() as u16,
        h.opcode,
        0,
    );
    assert(hb =~= bytes.subrange(0, 36));
    assert(bytes =~= request_frame_bytes(h, body, auth));
}

/// Parse a response frame, in specification form.
///
/// Accepts exactly the canonical frames `response_frame_bytes` produces: a
/// response carries no authentication section and zero accept, auth and
/// reserved fields.
pub open spec fn spec_parse_response(bytes: Seq<u8>) -> Option<(ResponseHeaderData, Seq<u8>)> {
    if bytes.len() < 36 {
        None
    } else {
        let body_len = read32(bytes, 22);
        if read32(bytes, 0) != MAGIC || read16(bytes, 4) != HEADER_SIZE || bytes[6]
            != VERSION_MAJOR || bytes[7] != VERSION_MINOR || read16(bytes, 8) != 0 || bytes[20]
            != 0 || bytes[21] != 0 || read16(bytes, 26) != 0 || bytes[34] != 0 || bytes[35] != 0
            || bytes.len() != 36 + body_len {
            None
        } else {
            Some(
                (
                    ResponseHeaderData {
                        provider: bytes[10],
                        session: read64(bytes, 11) as u64,
                        content_type: bytes[19],
                        opcode: read32(bytes, 28) as u32,
                        status: read16(bytes, 32) as u16,
                    },
                    bytes.subrange(36, 36 + body_len),
                ),
            )
        }
    }
}

/// Round-trip: parsing a built response frame reproduces exactly the header
/// and body it was built from — in particular its opcode and status.
pub proof fn lemma_response_round_trip(h: ResponseHeaderData, body: Seq<u8>)
    requires
        body.len() <= u32::MAX,
    ensures
        spec_parse_response(response_frame_bytes(h, body)) matches Some(t) && t.0 == h && t.1
            == body,
{
    let bl = body.len() as u32;
    let hb = header_bytes(h.provider, h.session, h.content_type, 0, 0, bl, 0, h.opcode, h.status);
    let frame = response_frame_bytes(h, body);
    assert(hb =~= le32(MAGIC) + le16(HEADER_SIZE) + seq![VERSION_MAJOR, VERSION_MINOR] + le16(0)
        + seq![h.provider] + le64(h.session) + seq![h.content_type, 0u8, 0u8] + le32(bl) + le16(
        0u16,
    ) + le32(h.opcode) + le16(h.status) + seq![0u8, 0u8]);
    assert(hb.len() == 36);
    assert(frame =~= hb + body);
    assert(forall|i: int| 0 <= i < 36 ==> frame[i] == hb[i]);
    assert(read32(frame, 0) == read32(le32(MAGIC), 0));
    lemma_le32_read(MAGIC);
    assert(read16(frame, 4) == read16(le16(HEADER_SIZE), 0));
    lemma_le16_read(HEADER_SIZE);
    assert(read16(frame, 8) == read16(le16(0u16), 0));
    lemma_le16_read(0u16);
    assert(read64(frame, 11) == read64(le64(h.session), 0));
    lemma_le64_read(h.session);
    assert(read32(frame, 22) == read32(le32(bl), 0));
    lemma_le32_read(bl);
    assert(read16(frame, 26) == read16(le16(0u16), 0));
    assert(read32(frame, 28) == read32(le32(h.opcode), 0));
    lemma_le32_read(h.opcode);
    assert(read16(frame, 32) == read16(le16(h.status), 0));
    lemma_le16_read(h.status);
    assert(frame.len() == 36 + bl);
    assert(frame.subrange(36, 36 + bl as int) =~= body);
}

/// The response parser accepts only canonical frames: whenever parsing
/// succeeds, the bytes are exactly the frame built back from the parsed
/// parts, whose body fits its length field.
pub proof fn lemma_parse_response_canonical(bytes: Seq<u8>)
    requires
        spec_parse_response(bytes) is Some,
    ensures
        spec_parse_response(bytes) matches Some(t) && t.1.len() <= u32::MAX && bytes
            == response_frame_bytes(t.0, t.1),
{
    let t = spec_parse_response(bytes)->Some_0;
    let h = t.0;
    let body = t.1;
    let body_len = read32(bytes, 22);
    assert(body.len() == body_len);
    assert(read64(bytes, 11) <= 0xFFFF_FFFF_FFFF_FFFF);
    assert(read32(bytes, 28) <= 0xFFFF_FFFF);
    assert(read16(bytes, 32) <= 0xFFFF);
    lemma_read32_unique(bytes[0], bytes[1], bytes[2], bytes[3], MAGIC);
    lemma_read16_unique(bytes[4], bytes[5], HEADER_SIZE);
    lemma_read16_unique(bytes[8], bytes[9], 0);
    lemma_read64_unique(
        bytes[11],
        bytes[12],
        bytes[13],
        bytes[14],
        bytes[15],
        bytes[16],
        bytes[17],
        bytes[18],
        h.session,
    );
    lemma_read32_unique(bytes[22], bytes[23], bytes[24], bytes[25], body.len() as u32);
    lemma_read16_unique(bytes[26], bytes[27], 0);
    lemma_read32_unique(bytes[28], bytes[29], bytes[30], bytes[31], h.opcode);
    lemma_read16_unique(bytes[32], bytes[33], h.status);
    let hb = header_bytes(
        h.provider,
        h.session,
        h.content_type,
        0,
        0,
        body.len() as u32,
        0,
        h.opcode,
        h.status,
    );
    assert(hb =~= bytes.subrange(0, 36));
    assert(bytes =~= response_frame_bytes(h, body));
}

/// The result of parsing a response frame: the header fields and the body
/// bytes.
pub struct ParsedResponse {
    /// The header fields carried by the frame.
    pub header: ResponseHeaderData,
    /// The body bytes.
    pub body: Vec<u8>,
}

/// Parse a response frame.
///
/// Returns the parsed parts exactly when `spec_parse_response` accepts the
/// bytes, and `None` exactly when it rejects them.
pub fn parse_response(bytes: &Vec<u8>) -> (r: Option<ParsedResponse>)
    ensures
        match r {
            Some(p) => spec_parse_response(bytes@) matches Some(t) && p.header == t.0 && p.body@
                == t.1,
            None => spec_parse_response(bytes@) is None,
        },
{
    if bytes.len() < 36 {
        return None;
    }
    let magic: u32 = read_le32(bytes, 0);
    let hdr_size: u16 = read_le16(bytes, 4);
    let flags: u16 = read_le16(bytes, 8);
    let auth_len: u16 = read_le16(bytes, 26);
    let body_len: u64 = read_le32(bytes, 22) as u64;
    if magic != MAGIC || hdr_size != HEADER_SIZE || bytes[6] != VERSION_MAJOR || bytes[7]
        != VERSION_MINOR || flags != 0 || bytes[20] != 0 || bytes[21] != 0 || auth_len != 0
        || bytes[34] != 0 || bytes[35] != 0 || (bytes.len() as u64) != 36 + body_len {
        return None;
    }
    let header = ResponseHeaderData {
        provider: bytes[10],
        session: read_le64(bytes, 11),
        content_type: bytes[19],
        opcode: read_le32(bytes, 28),
        status: read_le16(bytes, 32),
    };
    let body = vstd::slice::slice_to_vec(
        vstd::slice::slice_subrange(bytes.as_slice(), 36, bytes.len()),
    );
    Some(ParsedResponse { header, body })
}

/// Parse a request frame.
///
/// Returns the parsed parts exactly when `spec_parse_request` accepts the
/// bytes, and `None` exactly when it rejects them.
pub fn parse_request(bytes: &Vec<u8>) -> (r: Option<ParsedRequest>)
    ensures
        match r {
            Some(p) => spec_parse_request(bytes@) matches Some(t) && p.header == t.0 && p.body@
                == t.1 && p.auth@ == t.2,
            None => spec_parse_request(bytes@) is None,
        },
{
    if bytes.len() < 36 {
        return None;
    }
    let magic: u32 = read_le32(bytes, 0);
    let hdr_size: u16 = read_le16(bytes, 4);
    let flags: u16 = read_le16(bytes, 8);
    let status: u16 = read_le16(bytes, 32);
    let body_len: u64 = read_le32(bytes, 22) as u64;
    let auth_len: u64 = read_le16(bytes, 26) as u64;
    if magic != MAGIC || hdr_size != HEADER_SIZE || bytes[6] != VERSION_MAJOR || bytes[7]
        != VERSION_MINOR || flags != 0 || status != 0 || bytes[34] != 0 || bytes[35] != 0 || (
    bytes.len() as u64) != 36 + body_len + auth_len {
        return None;
    }
    let header = RequestHeaderData {
        provider: bytes[10],
        session: read_le64(bytes, 11),
        content_type: bytes[19],
        accept_type: bytes[20],
        auth_type: bytes[21],
        opcode: read_le32(bytes, 28),
    };
    let body_end: usize = 36 + body_len as usize;
    let body = vstd::slice::slice_to_vec(
        vstd::slice::slice_subrange(bytes.as_slice(), 36, body_end),
    );
    let auth = vstd::slice::slice_to_vec(
        vstd::slice::slice_subrange(bytes.as_slice(), body_end, bytes.len()),
    );
    Some(ParsedRequest { header, body, auth })
}

/// Read a 16-bit little-endian value at `off`.
fn read_le16(bytes: &Vec<u8>, off: usize) -> (r: u16)
    requires
        off + 2 <= bytes@.len(),
    ensures
        r == read16(bytes@, off as int),
{
    let n: usize = bytes.len();
    assert(off + 2 <= n);
    (bytes[off] as u16) + 0x100 * (bytes[off + 1] as u16)
}

/// Read a 32-bit little-endian value at `off`.
fn read_le32(bytes: &Vec<u8>, off: usize) -> (r: u32)
    requires
        off + 4 <= bytes@.len(),
    ensures
        r == read32(bytes@, off as int),
{
    let n: usize = bytes.len();
    assert(off + 4 <= n);
    (bytes[off] as u32) + 0x100 * (bytes[off + 1] as u32) + 0x1_0000 * (bytes[off + 2] as u32)
        + 0x100_0000 * (bytes[off + 3] as u32)
}

/// Read a 64-bit little-endian value at `off`.
fn read_le64(bytes: &Vec<u8>, off: usize) -> (r: u64)
    requires
        off + 8 <= bytes@.len(),
    ensures
        r == read64(bytes@, off as int),
{
    let n: usize = bytes.len();
    assert(off + 8 <= n);
    (bytes[off] as u64) + 0x100 * (bytes[off + 1] as u64) + 0x1_0000 * (bytes[off + 2] as u64)
        + 0x100_0000 * (bytes[off + 3] as u64) + 0x1_0000_0000 * (bytes[off + 4] as u64)
        + 0x100_0000_0000 * (bytes[off + 5] as u64) + 0x1_0000_0000_0000 * (bytes[off + 6] as u64)
        + 0x100_0000_0000_0000 * (bytes[off + 7] as u64)
}

} // verus!
