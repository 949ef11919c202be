//! RTP packets: what they hold, and their way to and from the wire.

use crate::octets::{buffered, bytes_as_slice, octets};
use bytes::{Bytes, BytesMut};
use rtp::header::{Extension, Header};
use rtp::packet::Packet;
use vstd::prelude::*;
use webrtc_util::{Marshal, MarshalSize, Unmarshal};

verus! {

/// The errors of the `rtp` crate's packet parser and writer, carried as they
/// come.
#[verifier::external_type_specification]
#[verifier::external_body]
pub struct ExMarshalError(webrtc_util::Error);

/// One element of a header extension.
pub struct RtpExtension {
    pub id: u8,
    pub payload: Vec<u8>,
}

/// An RTP packet.
pub struct RtpPacket {
    pub version: u8,
    pub padding: bool,
    pub extension: bool,
    pub marker: bool,
    pub payload_type: u8,
    pub sequence_number: u16,
    pub timestamp: u32,
    pub ssrc: u32,
    pub csrc: Vec<u32>,
    pub extension_profile: u16,
    pub extensions: Vec<RtpExtension>,
    pub extensions_padding: usize,
    pub payload: Vec<u8>,
}

/// What an element of a header extension holds.
pub struct RtpExtensionView {
    pub id: u8,
    pub payload: Seq<u8>,
}

/// What an RTP packet holds.
pub struct RtpPacketView {
    pub version: u8,
    pub padding: bool,
    pub extension: bool,
    pub marker: bool,
    pub payload_type: u8,
    pub sequence_number: u16,
    pub timestamp: u32,
    pub ssrc: u32,
    pub csrc: Seq<u32>,
    pub extension_profile: u16,
    pub extensions: Seq<RtpExtensionView>,
    pub extensions_padding: nat,
    pub payload: Seq<u8>,
}

impl View for RtpExtension {
    type V = RtpExtensionView;

    open spec fn view(&self) -> RtpExtensionView {
        RtpExtensionView { id: self.id, payload: self.payload@ }
    }
}

impl View for RtpPacket {
    type V = RtpPacketView;

    open spec fn view(&self) -> RtpPacketView {
        RtpPacketView {
            version: self.version,
            padding: self.padding,
            extension: self.extension,
            marker: self.marker,
            payload_type: self.payload_type,
            sequence_number: self.sequence_number,
            timestamp: self.timestamp,
            ssrc: self.ssrc,
            csrc: self.csrc@,
            extension_profile: self.extension_profile,
            extensions: self.extensions@.map_values(|e: RtpExtension| e@),
            extensions_padding: self.extensions_padding as nat,
            payload: self.payload@,
        }
    }
}

/// The profile whose extension elements have a header of one byte.
pub const ONE_BYTE_PROFILE: u16 = 0xBEDE;

/// The profile whose extension elements have a header of two bytes.
pub const TWO_BYTE_PROFILE: u16 = 0x1000;

/// The length of the header of an extension element.
pub open spec fn element_header_len(profile: u16) -> nat {
    if profile == ONE_BYTE_PROFILE {
        1
    } else if profile == TWO_BYTE_PROFILE {
        2
    } else {
        0
    }
}

/// The length of extension elements with their headers.
pub open spec fn elements_len(profile: u16, extensions: Seq<RtpExtensionView>) -> nat
    decreases extensions.len(),
{
    if extensions.len() == 0 {
        0
    } else {
        elements_len(profile, extensions.drop_last()) + element_header_len(profile)
            + extensions.last().payload.len()
    }
}

/// The next multiple of four.
pub open spec fn round_up_to_words(len: nat) -> nat {
    (len + 3) / 4 * 4
}

/// The length that a packet is given on the wire.
pub open spec fn packet_len(p: RtpPacketView) -> nat {
    let extension: nat = if p.extension {
        4 + round_up_to_words(
            elements_len(p.extension_profile, p.extensions) + p.extensions_padding,
        )
    } else {
        0
    };
    let padding: nat = if p.padding {
        (4 - p.payload.len() % 4) as nat
    } else {
        0
    };
    12 + 4 * p.csrc.len() + extension + p.payload.len() + padding
}

/// The packet has a header extension of neither of the two element profiles
/// that is not one element of whole words. It cannot be written.
pub open spec fn unwritable(p: RtpPacketView) -> bool {
    &&& p.extension
    &&& element_header_len(p.extension_profile) == 0
    &&& p.extensions.len() != 1 || p.extensions[0].payload.len() % 4 != 0
}

/// The lengths in the packet are such that the writer's own arithmetic holds
/// them.
pub open spec fn writer_can_count(p: RtpPacketView) -> bool {
    &&& packet_len(p) <= isize::MAX / 2
    &&& p.extension && p.extension_profile == ONE_BYTE_PROFILE ==> forall|i: int|
        0 <= i < p.extensions.len() ==> (#[trigger] p.extensions[i]).payload.len() % 256 != 0
    &&& p.extension && element_header_len(p.extension_profile) != 0 ==> elements_len(
        p.extension_profile,
        p.extensions,
    ) % 65536 < 65533
}

/// The packet has no header extension, and its header fields fit their places
/// on the wire.
pub open spec fn plain(p: RtpPacketView) -> bool {
    &&& p.version <= 3
    &&& p.payload_type <= 127
    &&& p.csrc.len() <= 15
    &&& !p.extension
    &&& p.extension_profile == 0
    &&& p.extensions.len() == 0
    &&& p.extensions_padding == 0
}

/// What the `rtp` crate writes for a packet.
pub uninterp spec fn rtp_wire(p: RtpPacketView) -> Seq<u8>;

/// What the `rtp` crate reads from bytes: a packet, or nothing where they are
/// none.
pub uninterp spec fn rtp_parsed(raw: Seq<u8>) -> Option<RtpPacketView>;

/// The packet as it is handed to a media element: what the `rtp` crate writes,
/// filled up with zeros to the length that it announces.
pub open spec fn remarshalled(p: RtpPacketView) -> Seq<u8> {
    rtp_wire(p) + Seq::new((packet_len(p) - rtp_wire(p).len()) as nat, |i: int| 0u8)
}

/// The number of contributing sources that the first byte announces.
pub open spec fn announced_sources(first: u8) -> int {
    first as int % 16
}

/// The first byte announces a header extension.
pub open spec fn announces_extension(first: u8) -> bool {
    first / 16 % 2 == 1
}

/// The first byte announces padding.
pub open spec fn announces_padding(first: u8) -> bool {
    first / 32 % 2 == 1
}

/// The elements of a header extension with headers of one byte, from `at` on,
/// stay within the packet.
pub open spec fn one_byte_elements_fit(raw: Seq<u8>, at: int, end: int) -> bool
    decreases (if at < end { end - at } else { 0 }),
{
    if at >= end {
        true
    } else if raw[at] == 0 {
        one_byte_elements_fit(raw, at + 1, end)
    } else if raw[at] / 16 == 15 {
        true
    } else {
        &&& at + 2 + raw[at] % 16 <= raw.len()
        &&& one_byte_elements_fit(raw, at + 2 + raw[at] % 16, end)
    }
}

/// The elements of a header extension with headers of two bytes, from `at` on,
/// stay within the packet.
pub open spec fn two_byte_elements_fit(raw: Seq<u8>, at: int, end: int) -> bool
    decreases (if at < end { end - at } else { 0 }),
{
    if at >= end {
        true
    } else if raw[at] == 0 {
        two_byte_elements_fit(raw, at + 1, end)
    } else {
        &&& at + 2 <= raw.len()
        &&& at + 2 + raw[at + 1] <= raw.len()
        &&& two_byte_elements_fit(raw, at + 2 + raw[at + 1], end)
    }
}

/// Two bytes of a packet as a number.
pub open spec fn number_at(raw: Seq<u8>, at: int) -> int {
    raw[at] * 256 + raw[at + 1]
}

/// No element of the header extension reaches beyond the end of the packet. The
/// parser cannot be given a packet of which this is false.
pub open spec fn elements_fit(raw: Seq<u8>) -> bool {
    let start = 12 + 4 * announced_sources(raw[0]);
    let end = start + 4 + 4 * number_at(raw, start + 2);
    raw.len() > 0 && announces_extension(raw[0]) && start + 4 <= raw.len() && end <= raw.len() ==> {
        &&& number_at(raw, start) == ONE_BYTE_PROFILE ==> one_byte_elements_fit(raw, start + 4, end)
        &&& number_at(raw, start) == TWO_BYTE_PROFILE ==> two_byte_elements_fit(raw, start + 4, end)
    }
}

/// The bytes are a packet, as far as a packet without a header extension is
/// concerned: the header is complete, and the padding that it announces, if
/// any, counts itself and ends the packet.
pub open spec fn holds_packet(raw: Seq<u8>) -> bool {
    let header = 12 + 4 * announced_sources(raw[0]);
    &&& raw.len() >= 12
    &&& raw.len() >= header
    &&& announces_padding(raw[0]) ==> raw.len() > header && raw.last() <= raw.len() - header
}

/// The elements of a header extension with headers of one byte, from `at` on,
/// fill it up to `end` without gaps, but for less than a word of zeros.
pub open spec fn one_byte_elements_packed(raw: Seq<u8>, at: int, end: int) -> bool
    decreases (if at < end { end - at } else { 0 }),
{
    if at >= end {
        at == end
    } else if raw[at] == 0 {
        only_zeros(raw, at, end)
    } else {
        &&& raw[at] / 16 != 15
        &&& one_byte_elements_packed(raw, at + 2 + raw[at] % 16, end)
    }
}

/// The elements of a header extension with headers of two bytes, from `at` on,
/// fill it up to `end` without gaps, but for less than a word of zeros.
pub open spec fn two_byte_elements_packed(raw: Seq<u8>, at: int, end: int) -> bool
    decreases (if at < end { end - at } else { 0 }),
{
    if at >= end {
        at == end
    } else if raw[at] == 0 {
        only_zeros(raw, at, end)
    } else {
        two_byte_elements_packed(raw, at + 2 + raw[at + 1], end)
    }
}

/// Less than a word lies between `at` and `end`, all of it zeros.
pub open spec fn only_zeros(raw: Seq<u8>, at: int, end: int) -> bool {
    end - at < 4 && forall|i: int| at <= i < end ==> raw[i] == 0
}

/// Where the payload of a packet begins.
pub open spec fn payload_start(raw: Seq<u8>) -> int {
    let start = 12 + 4 * announced_sources(raw[0]);
    if announces_extension(raw[0]) {
        start + 4 + 4 * number_at(raw, start + 2)
    } else {
        start
    }
}

/// The bytes are a packet in the form that the `rtp` crate gives it: the header
/// is complete; a header extension is shorter than 65536 bytes, and its
/// elements, if its profile has any, are packed; padding fills the last word of
/// the packet with zeros and its own length.
pub open spec fn tidy(raw: Seq<u8>) -> bool {
    let start = 12 + 4 * announced_sources(raw[0]);
    let end = payload_start(raw);
    &&& raw.len() >= 12
    &&& announces_extension(raw[0]) ==> {
        &&& start + 4 <= raw.len()
        &&& number_at(raw, start + 2) <= 16383
        &&& number_at(raw, start) == ONE_BYTE_PROFILE ==> one_byte_elements_packed(
            raw,
            start + 4,
            end,
        )
        &&& number_at(raw, start) == TWO_BYTE_PROFILE ==> two_byte_elements_packed(
            raw,
            start + 4,
            end,
        )
    }
    &&& end <= raw.len()
    &&& announces_padding(raw[0]) ==> {
        &&& end < raw.len()
        &&& (raw.len() - end) % 4 == 0
        &&& 1 <= raw.last() <= 4
        &&& forall|i: int| raw.len() - raw.last() <= i < raw.len() - 1 ==> raw[i] == 0
    }
}

/// A tidy packet can be given to the parser.
pub proof fn law_tidy_packets_fit(raw: Seq<u8>)
    requires
        tidy(raw),
    ensures
        elements_fit(raw),
{
    let start = 12 + 4 * announced_sources(raw[0]);
    let end = start + 4 + 4 * number_at(raw, start + 2);
    if announces_extension(raw[0]) && start + 4 <= raw.len() && end <= raw.len() {
        if number_at(raw, start) == ONE_BYTE_PROFILE {
            lemma_one_byte_packed_fits(raw, start + 4, end);
        }
        if number_at(raw, start) == TWO_BYTE_PROFILE {
            lemma_two_byte_packed_fits(raw, start + 4, end);
        }
    }
}

proof fn lemma_one_byte_packed_fits(raw: Seq<u8>, at: int, end: int)
    requires
        0 <= at,
        end <= raw.len(),
        one_byte_elements_packed(raw, at, end),
    ensures
        one_byte_elements_fit(raw, at, end),
    decreases (if at < end { end - at } else { 0 }),
{
    if at < end {
        if raw[at] == 0 {
            if at + 1 < end {
                assert(raw[at + 1] == 0);
            }
            lemma_one_byte_packed_fits(raw, at + 1, end);
        } else {
            let next = at + 2 + raw[at] % 16;
            assert(one_byte_elements_packed(raw, next, end));
            assert(next <= end);
            lemma_one_byte_packed_fits(raw, next, end);
        }
    }
}

proof fn lemma_two_byte_packed_fits(raw: Seq<u8>, at: int, end: int)
    requires
        0 <= at,
        end <= raw.len(),
        two_byte_elements_packed(raw, at, end),
    ensures
        two_byte_elements_fit(raw, at, end),
    decreases (if at < end { end - at } else { 0 }),
{
    if at < end {
        if raw[at] == 0 {
            if at + 1 < end {
                assert(raw[at + 1] == 0);
            }
            lemma_two_byte_packed_fits(raw, at + 1, end);
        } else {
            let next = at + 2 + raw[at + 1];
            assert(two_byte_elements_packed(raw, next, end));
            assert(next <= end);
            lemma_two_byte_packed_fits(raw, next, end);
        }
    }
}

/// `rtp::packet::Packet::marshal_size`: the length that the packet is given.
#[verifier::external_body]
fn rtp_marshal_size(p: &RtpPacket) -> (len: usize)
    requires
        writer_can_count(p@),
    ensures
        len == packet_len(p@),
{
    let header = Header {
        version: p.version, padding: p.padding, extension: p.extension, marker: p.marker,
        payload_type: p.payload_type, sequence_number: p.sequence_number,
        timestamp: p.timestamp, ssrc: p.ssrc, csrc: p.csrc.clone(),
        extension_profile: p.extension_profile, extensions_padding: p.extensions_padding,
        extensions: p.extensions.iter().map(
            |e| Extension { id: e.id, payload: Bytes::copy_from_slice(&e.payload) },
        ).collect(),
    };
    Packet { header, payload: Bytes::copy_from_slice(&p.payload) }.marshal_size()
}

/// `rtp::packet::Packet::marshal_to`: refuses a buffer that is shorter than the
/// packet's length, and a header extension that it cannot write. Otherwise it
/// writes the packet at the start of the buffer and says how much it wrote,
/// which is the packet's length where there is no header extension. It leaves
/// the rest of the buffer as it was. What it writes for a plain packet announces
/// no header extension, and is read back as the packet. What the error says is
/// left open, and what a buffer holds after a refusal, but for its length.
#[verifier::external_body]
fn rtp_marshal_to(p: &RtpPacket, buf: &mut BytesMut) -> (written: Result<usize, webrtc_util::Error>)
    requires
        writer_can_count(p@),
    ensures
        written is Err <==> buffered(*old(buf)).len() < packet_len(p@) || unwritable(p@),
        buffered(*final(buf)).len() == buffered(*old(buf)).len(),
        written matches Ok(n) ==> n == rtp_wire(p@).len() && n <= packet_len(p@),
        written matches Ok(n) ==> buffered(*final(buf)) == rtp_wire(p@) + buffered(*old(buf)).skip(
            n as int,
        ),
        written matches Ok(n) ==> (!p@.extension ==> n == packet_len(p@)),
        written is Ok ==> (plain(p@) ==> !announces_extension(rtp_wire(p@)[0])),
        written is Ok ==> (plain(p@) ==> rtp_parsed(rtp_wire(p@)) == Some(p@)),
{
    let header = Header {
        version: p.version, padding: p.padding, extension: p.extension, marker: p.marker,
        payload_type: p.payload_type, sequence_number: p.sequence_number,
        timestamp: p.timestamp, ssrc: p.ssrc, csrc: p.csrc.clone(),
        extension_profile: p.extension_profile, extensions_padding: p.extensions_padding,
        extensions: p.extensions.iter().map(
            |e| Extension { id: e.id, payload: Bytes::copy_from_slice(&e.payload) },
        ).collect(),
    };
    Packet { header, payload: Bytes::copy_from_slice(&p.payload) }.marshal_to(&mut buf[..])
}

/// `rtp::packet::Packet::unmarshal`: the bytes alone decide whether a packet is
/// read and what it holds. Without a header extension it is read where the
/// header is complete and the padding, if any, lies within the packet. A tidy
/// packet is read, and written back as the same bytes. The header fields fit
/// their places on the wire, and without a header extension the fields of one
/// are empty. What the error says is left open.
#[verifier::external_body]
fn rtp_unmarshal(raw: Bytes) -> (parsed: Result<RtpPacket, webrtc_util::Error>)
    requires
        elements_fit(octets(raw)),
    ensures
        parsed matches Ok(p) ==> rtp_parsed(octets(raw)) == Some(p@),
        parsed is Err ==> rtp_parsed(octets(raw)) is None,
        octets(raw).len() < 12 ==> parsed is Err,
        octets(raw).len() >= 12 && !announces_extension(octets(raw)[0]) ==> (parsed is Ok
            <==> holds_packet(octets(raw))),
        parsed matches Ok(p) ==> p@.extension == announces_extension(octets(raw)[0]) && p@.padding
            == announces_padding(octets(raw)[0]),
        parsed matches Ok(p) ==> (!p@.extension ==> plain(p@)),
        tidy(octets(raw)) ==> parsed is Ok,
        parsed matches Ok(p) ==> (tidy(octets(raw)) ==> rtp_wire(p@) == octets(raw) && packet_len(
            p@,
        ) == octets(raw).len() && !unwritable(p@)),
        parsed matches Ok(p) ==> (tidy(octets(raw)) && octets(raw).len() <= isize::MAX / 2
            ==> writer_can_count(p@)),
{
    let mut raw = raw;
    Packet::unmarshal(&mut raw).map(|p| RtpPacket {
        version: p.header.version, padding: p.header.padding, extension: p.header.extension,
        marker: p.header.marker, payload_type: p.header.payload_type,
        sequence_number: p.header.sequence_number, timestamp: p.header.timestamp,
        ssrc: p.header.ssrc, csrc: p.header.csrc,
        extension_profile: p.header.extension_profile,
        extensions_padding: p.header.extensions_padding,
        extensions: p.header.extensions.into_iter().map(
            |e| RtpExtension { id: e.id, payload: e.payload.to_vec() },
        ).collect(),
        payload: p.payload.to_vec(),
    })
}

/// Whether no element of the header extension reaches beyond the end of the
/// packet.
pub fn can_parse(raw: &Bytes) -> (r: bool)
    ensures
        r == elements_fit(octets(*raw)),
{
    let raw = bytes_as_slice(raw);
    if raw.len() == 0 || raw[0] / 16 % 2 != 1 {
        return true;
    }
    let start: usize = 12 + 4 * (raw[0] % 16) as usize;
    if raw.len() < start + 4 {
        return true;
    }
    let profile: usize = raw[start] as usize * 256 + raw[start + 1] as usize;
    let words: usize = raw[start + 2] as usize * 256 + raw[start + 3] as usize;
    if raw.len() - start - 4 < 4 * words {
        return true;
    }
    let end: usize = start + 4 + 4 * words;
    if profile == 0xBEDE {
        one_byte_elements(raw, start + 4, end)
    } else if profile == 0x1000 {
        two_byte_elements(raw, start + 4, end)
    } else {
        true
    }
}

fn one_byte_elements(raw: &[u8], start: usize, end: usize) -> (r: bool)
    requires
        end <= raw@.len(),
    ensures
        r == one_byte_elements_fit(raw@, start as int, end as int),
{
    let mut at: usize = start;
    while at < end
        invariant
            end <= raw@.len(),
            one_byte_elements_fit(raw@, start as int, end as int) == one_byte_elements_fit(
                raw@,
                at as int,
                end as int,
            ),
        decreases (if at < end { end - at } else { 0 }),
    {
        let b: u8 = raw[at];
        if b == 0 {
            at += 1;
        } else if b / 16 == 15 {
            return true;
        } else {
            let rest: usize = raw.len() - at;
            let len: usize = 2 + (b % 16) as usize;
            if rest < len {
                return false;
            }
            at += len;
        }
    }
    true
}

fn two_byte_elements(raw: &[u8], start: usize, end: usize) -> (r: bool)
    requires
        end <= raw@.len(),
    ensures
        r == two_byte_elements_fit(raw@, start as int, end as int),
{
    let mut at: usize = start;
    while at < end
        invariant
            end <= raw@.len(),
            two_byte_elements_fit(raw@, start as int, end as int) == two_byte_elements_fit(
                raw@,
                at as int,
                end as int,
            ),
        decreases (if at < end { end - at } else { 0 }),
    {
        if raw[at] == 0 {
            at += 1;
        } else {
            let rest: usize = raw.len() - at;
            if rest < 2 {
                return false;
            }
            let len: usize = 2 + raw[at + 1] as usize;
            if rest < len {
                return false;
            }
            at += len;
        }
    }
    true
}

/// Elements that come behind make an extension no shorter.
proof fn lemma_elements_len_grows(profile: u16, extensions: Seq<RtpExtensionView>, n: int)
    requires
        0 <= n <= extensions.len(),
    ensures
        elements_len(profile, extensions.take(n)) <= elements_len(profile, extensions),
    decreases extensions.len(),
{
    if n < extensions.len() {
        lemma_elements_len_grows(profile, extensions.drop_last(), n);
        assert(extensions.drop_last().take(n) =~= extensions.take(n));
    } else {
        assert(extensions.take(n) =~= extensions);
    }
}

/// Whether the writer's own arithmetic holds the lengths in the packet.
pub fn can_write(p: &RtpPacket) -> (r: bool)
    ensures
        r == writer_can_count(p@),
{
    let limit: u128 = (isize::MAX / 2) as u128;
    let mut extension: u128 = 0;
    if p.extension {
        let header: u128 = if p.extension_profile == ONE_BYTE_PROFILE {
            1
        } else if p.extension_profile == TWO_BYTE_PROFILE {
            2
        } else {
            0
        };
        let ghost profile = p.extension_profile;
        let ghost elements = p@.extensions;
        let mut total: u128 = 0;
        let mut i: usize = 0;
        while i < p.extensions.len()
            invariant
                i <= p.extensions@.len(),
                profile == p.extension_profile,
                elements == p@.extensions,
                elements.len() == p.extensions@.len(),
                p.extension,
                header == element_header_len(profile),
                limit == isize::MAX / 2,
                total == elements_len(profile, elements.take(i as int)),
                total <= limit,
                profile == ONE_BYTE_PROFILE ==> forall|j: int|
                    0 <= j < i ==> (#[trigger] elements[j]).payload.len() % 256 != 0,
            decreases p.extensions@.len() - i,
        {
            let len: usize = p.extensions[i].payload.len();
            assert(elements[i as int].payload.len() == len);
            if p.extension_profile == ONE_BYTE_PROFILE && len % 256 == 0 {
                return false;
            }
            total = total + header + len as u128;
            proof {
                assert(elements.take(i + 1).drop_last() =~= elements.take(i as int));
                lemma_elements_len_grows(profile, elements, i + 1);
            }
            if total > limit {
                return false;
            }
            i += 1;
        }
        assert(elements.take(i as int) =~= elements);
        if header != 0 && total % 65536 >= 65533 {
            return false;
        }
        extension = 4 + (total + p.extensions_padding as u128 + 3) / 4 * 4;
    }
    let padding: u128 = if p.padding {
        4 - (p.payload.len() % 4) as u128
    } else {
        0
    };
    12 + 4 * p.csrc.len() as u128 + extension + p.payload.len() as u128 + padding <= limit
}

/// Writes a packet into a byte string of the packet's length. What it writes for
/// a plain packet `parse` can be given, and reads as that packet.
pub fn remarshal(p: &RtpPacket) -> (marshalled: Result<Bytes, webrtc_util::Error>)
    requires
        writer_can_count(p@),
    ensures
        marshalled is Err <==> unwritable(p@),
        marshalled matches Ok(bytes) ==> octets(bytes) == remarshalled(p@),
        marshalled matches Ok(bytes) ==> octets(bytes).len() == packet_len(p@),
        marshalled matches Ok(bytes) ==> (plain(p@) ==> elements_fit(octets(bytes)) && rtp_parsed(
            octets(bytes),
        ) == Some(p@)),
{
    let mut buf = BytesMut::new();
    let marshal_size = rtp_marshal_size(p);
    buf.resize(marshal_size, 0);
    let ghost zeros = buffered(buf);
    match rtp_marshal_to(p, &mut buf) {
        Ok(_n) => {
            proof {
                assert(zeros.skip(_n as int) =~= Seq::new(
                    (packet_len(p@) - rtp_wire(p@).len()) as nat,
                    |i: int| 0u8,
                ));
                if plain(p@) {
                    assert(remarshalled(p@) =~= rtp_wire(p@));
                }
            }
            Ok(buf.freeze())
        },
        Err(err) => Err(err),
    }
}

/// Reads a packet. A tidy packet is what `remarshal` gives back for it.
pub fn parse(raw: Bytes) -> (parsed: Result<RtpPacket, webrtc_util::Error>)
    requires
        elements_fit(octets(raw)),
    ensures
        parsed matches Ok(p) ==> rtp_parsed(octets(raw)) == Some(p@),
        parsed is Err ==> rtp_parsed(octets(raw)) is None,
        octets(raw).len() < 12 ==> parsed is Err,
        octets(raw).len() >= 12 && !announces_extension(octets(raw)[0]) ==> (parsed is Ok
            <==> holds_packet(octets(raw))),
        parsed matches Ok(p) ==> (!p@.extension ==> plain(p@)),
        tidy(octets(raw)) ==> parsed is Ok,
        parsed matches Ok(p) ==> (tidy(octets(raw)) ==> remarshalled(p@) == octets(raw)
            && !unwritable(p@)),
        parsed matches Ok(p) ==> (tidy(octets(raw)) && octets(raw).len() <= isize::MAX / 2
            ==> writer_can_count(p@)),
{
    let ghost bytes = octets(raw);
    let parsed = rtp_unmarshal(raw);
    proof {
        if parsed is Ok && tidy(bytes) {
            assert(remarshalled(parsed->Ok_0@) =~= rtp_wire(parsed->Ok_0@));
        }
    }
    parsed
}

/// What is handed to a media element begins with what the `rtp` crate writes, has
/// the length that the packet announces, and is filled up with zeros.
pub proof fn law_remarshalled_is_what_was_written(p: RtpPacketView)
    requires
        rtp_wire(p).len() <= packet_len(p),
    ensures
        remarshalled(p).len() == packet_len(p),
        remarshalled(p).take(rtp_wire(p).len() as int) == rtp_wire(p),
        forall|i: int|
            rtp_wire(p).len() <= i < packet_len(p) ==> #[trigger] remarshalled(p)[i] == 0,
{
    assert(remarshalled(p).take(rtp_wire(p).len() as int) =~= rtp_wire(p));
}

/// Bytes that announce no header extension can be given to the parser, as can bytes
/// that break off before the extension that they announce ends.
pub proof fn law_bytes_without_an_extension_fit(raw: Seq<u8>)
    ensures
        raw.len() < 16 ==> elements_fit(raw),
        raw.len() > 0 && raw[0] / 16 % 2 == 0 ==> elements_fit(raw),
        raw.len() >= 16 && raw[0] / 16 % 2 == 1 && raw[0] % 16 == 0 && 16 + 4 * (raw[14] * 256
            + raw[15]) > raw.len() ==> elements_fit(raw),
{
}

/// What stands at `at` in a header extension ends where `next` begins: a zero that
/// fills a gap, or an element.
pub open spec fn steps_on(raw: Seq<u8>, one_byte: bool, at: int, next: int) -> bool {
    ||| raw[at] == 0 && next == at + 1
    ||| raw[at] != 0 && one_byte && raw[at] / 16 != 15 && next == at + 2 + raw[at] % 16
    ||| raw[at] != 0 && !one_byte && next == at + 2 + raw[at + 1]
}

/// `steps` are the places of what stands in a header extension, one after the
/// other.
pub open spec fn walks(raw: Seq<u8>, one_byte: bool, steps: Seq<int>, end: int) -> bool {
    &&& steps.len() > 0
    &&& forall|k: int| 0 <= k < steps.len() ==> 0 <= (#[trigger] steps[k]) < end
    &&& forall|k: int, l: int|
        #![trigger steps[k], steps[l]]
        0 <= k && l == k + 1 && l < steps.len() ==> steps_on(raw, one_byte, steps[k], steps[l])
}

proof fn lemma_walk_finds_what_does_not_fit(
    raw: Seq<u8>,
    one_byte: bool,
    steps: Seq<int>,
    end: int,
)
    requires
        walks(raw, one_byte, steps, end),
        raw[steps.last()] != 0,
        one_byte ==> raw[steps.last()] / 16 != 15 && steps.last() + 2 + raw[steps.last()] % 16
            > raw.len(),
        !one_byte ==> steps.last() + 2 > raw.len() || steps.last() + 2 + raw[steps.last() + 1]
            > raw.len(),
    ensures
        one_byte ==> !one_byte_elements_fit(raw, steps[0], end),
        !one_byte ==> !two_byte_elements_fit(raw, steps[0], end),
    decreases steps.len(),
{
    if steps.len() > 1 {
        let rest = steps.drop_first();
        assert(rest.last() == steps.last());
        assert(rest[0] == steps[1]);
        assert(walks(raw, one_byte, rest, end)) by {
            assert(forall|k: int| 0 <= k < rest.len() ==> (#[trigger] rest[k]) == steps[k + 1]);
        }
        lemma_walk_finds_what_does_not_fit(raw, one_byte, rest, end);
        assert(steps_on(raw, one_byte, steps[0], steps[1]));
    }
}

/// Bytes in whose header extension an element reaches beyond their end cannot be
/// given to the parser, wherever in the extension the element stands.
pub proof fn law_element_beyond_the_end_does_not_fit(raw: Seq<u8>, one_byte: bool, steps: Seq<int>)
    requires
        raw.len() >= 16,
        raw[0] / 16 % 2 == 1,
        ({
            let start = 12 + 4 * (raw[0] % 16);
            let end = start + 4 + 4 * (raw[start + 2] * 256 + raw[start + 3]);
            &&& end <= raw.len()
            &&& raw[start] * 256 + raw[start + 1] == if one_byte {
                0xBEDEint
            } else {
                0x1000int
            }
            &&& walks(raw, one_byte, steps, end)
            &&& steps[0] == start + 4
        }),
        raw[steps.last()] != 0,
        one_byte ==> raw[steps.last()] / 16 != 15 && steps.last() + 2 + raw[steps.last()] % 16
            > raw.len(),
        !one_byte ==> steps.last() + 2 > raw.len() || steps.last() + 2 + raw[steps.last() + 1]
            > raw.len(),
    ensures
        !elements_fit(raw),
{
    let start = 12 + 4 * (raw[0] % 16);
    let end = start + 4 + 4 * (raw[start + 2] * 256 + raw[start + 3]);
    lemma_walk_finds_what_does_not_fit(raw, one_byte, steps, end);
}

/// The elements of a header extension add up: those of two lots together are as
/// long as the two lots.
pub proof fn law_element_lengths_add_up(
    profile: u16,
    first: Seq<RtpExtensionView>,
    second: Seq<RtpExtensionView>,
)
    ensures
        elements_len(profile, first + second) == elements_len(profile, first) + elements_len(
            profile,
            second,
        ),
        second.len() == 1 ==> elements_len(profile, second) == second[0].payload.len() + if profile
            == 0xBEDE {
            1nat
        } else if profile == 0x1000 {
            2nat
        } else {
            0nat
        },
    decreases second.len(),
{
    if second.len() == 0 {
        assert(first + second =~= first);
    } else {
        law_element_lengths_add_up(profile, first, second.drop_last());
        assert((first + second).drop_last() =~= first + second.drop_last());
    }
    if second.len() == 1 {
        assert(elements_len(profile, second.drop_last()) == 0);
    }
}

/// A packet is as long as its header, its sources, its extension and its payload,
/// and padding brings the payload up to whole words.
pub proof fn law_packet_length_is_that_of_its_parts(p: RtpPacketView)
    ensures
        !p.extension && !p.padding ==> packet_len(p) == 12 + 4 * p.csrc.len() + p.payload.len(),
        !p.extension && p.padding ==> packet_len(p) % 4 == 0 && 12 + 4 * p.csrc.len()
            + p.payload.len() < packet_len(p) <= 16 + 4 * p.csrc.len() + p.payload.len(),
        p.extension ==> ({
            let bare = packet_len(RtpPacketView { extension: false, ..p });
            let elements = elements_len(p.extension_profile, p.extensions) + p.extensions_padding;
            &&& (packet_len(p) - bare) % 4 == 0
            &&& bare + 4 + elements <= packet_len(p) < bare + 8 + elements
        }),
{
}

/// Every packet of ordinary lengths can be written: one without a header extension
/// whose parts fit the memory, and one whose extension is in addition shorter than
/// the writer can count and has no empty elements with headers of one byte.
pub proof fn law_ordinary_packets_can_be_counted(p: RtpPacketView)
    requires
        packet_len(p) <= isize::MAX / 2,
    ensures
        !p.extension ==> writer_can_count(p),
        elements_len(p.extension_profile, p.extensions) < 65533 && (forall|i: int|
            0 <= i < p.extensions.len() ==> 1 <= (#[trigger] p.extensions[i]).payload.len() <= 255)
            ==> writer_can_count(p),
        p.extension && p.extension_profile != 0xBEDE && p.extension_profile != 0x1000
            ==> writer_can_count(p),
{
}

/// A packet with an empty extension element under a header of one byte cannot be
/// written.
pub proof fn law_empty_element_cannot_be_counted(p: RtpPacketView, i: int)
    requires
        p.extension,
        p.extension_profile == 0xBEDE,
        0 <= i < p.extensions.len(),
        p.extensions[i].payload.len() == 0,
    ensures
        !writer_can_count(p),
{
    assert(p.extensions[i].payload.len() % 256 == 0);
}

} // verus!
