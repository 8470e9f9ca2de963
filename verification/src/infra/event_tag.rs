//! Marks on injected packets.
//!
//! A packet that is injected passes the capture filter again. To tell it from
//! ordinary traffic, its TCP payload starts with a tag of sixteen bytes; the
//! headers stay as they are.
use vstd::prelude::*;
use vstd::string::StringExecFns;

use crate::packet_invariants::ihl;
use crate::text::{hex_char, hex_digit};

verus! {

/// The length of a tag.
pub const UUID_SIZE: usize = 16;

/// The tag that marks the packets of one run.
#[derive(Debug, Clone, Copy)]
pub struct InjectionTag {
    bytes: [u8; 16],
}

/// `uuid::Uuid::new_v4`, as bytes: sixteen random bytes with the version
/// nibble set to 4 and the two variant bits to 10.
#[verifier::external_body]
fn random_uuid() -> (r: [u8; 16])
    ensures
        r@[6] / 16 == 4,
        r@[8] / 64 == 2,
{
    *uuid::Uuid::new_v4().as_bytes()
}

impl View for InjectionTag {
    type V = Seq<u8>;

    closed spec fn view(&self) -> Seq<u8> {
        self.bytes@
    }
}

impl InjectionTag {
    /// A tag has sixteen bytes.
    pub proof fn lemma_len(&self)
        ensures
            self@.len() == 16,
    {
    }

    /// The tag with the given bytes.
    pub fn from_bytes(bytes: [u8; 16]) -> (r: InjectionTag)
        ensures
            r@ == bytes@,
    {
        InjectionTag { bytes }
    }

    /// A random tag, never all zeros.
    pub fn generate() -> (r: InjectionTag)
        ensures
            r@.len() == 16,
            r@[6] / 16 == 4,
            r@[8] / 64 == 2,
    {
        InjectionTag { bytes: random_uuid() }
    }

    fn byte(&self, i: usize) -> (r: u8)
        requires
            i < 16,
        ensures
            r == self@[i as int],
    {
        self.bytes[i]
    }
}

/// Holds the tag of a run: chosen once, then kept.
pub struct TagRegistry {
    chosen: Option<InjectionTag>,
}

impl View for TagRegistry {
    type V = Option<Seq<u8>>;

    closed spec fn view(&self) -> Option<Seq<u8>> {
        match self.chosen {
            Some(tag) => Some(tag@),
            None => None,
        }
    }
}

impl TagRegistry {
    /// No tag chosen yet.
    pub fn new() -> (r: TagRegistry)
        ensures
            r@ is None,
    {
        TagRegistry { chosen: None }
    }

    /// The tag of the run; chosen at the first call.
    pub fn tag(&mut self) -> (r: InjectionTag)
        ensures
            final(self)@ == Some(r@),
            old(self)@ is Some ==> final(self)@ == old(self)@,
            r@.len() == 16,
    {
        let r: InjectionTag = match self.chosen {
            Some(tag) => tag,
            None => InjectionTag::generate(),
        };
        proof {
            r.lemma_len();
        }
        self.chosen = Some(r);
        r
    }

    /// Chooses a tag where none has been chosen; a tag that has been chosen
    /// stays.
    pub fn reset_injection_tag(&mut self)
        ensures
            final(self)@ is Some,
            final(self)@->0.len() == 16,
            old(self)@ is Some ==> final(self)@ == old(self)@,
    {
        self.tag();
    }
}

/// Where the TCP payload of an IPv4 packet starts; `None` where the packet is
/// no IPv4 TCP packet.
pub open spec fn payload_offset(p: Seq<u8>) -> Option<int> {
    if p.len() < 20 || p[0] / 16 != 4 || ihl(p) < 20 || p.len() < ihl(p) || p[9] != 6 || p.len()
        < ihl(p) + 12 {
        None
    } else {
        Some(ihl(p) + (p[ihl(p) + 12] / 16) as int * 4)
    }
}

/// The packets whose payload can be located: a TCP header, where there is
/// one, reaches past its length field and lies inside the packet.
pub open spec fn has_whole_headers(p: Seq<u8>) -> bool {
    payload_offset(p) is Some ==> p.len() > ihl(p) + 12 && payload_offset(p)->0 <= p.len()
}

/// Whether a packet has room for a tag.
pub open spec fn taggable(p: Seq<u8>) -> bool {
    payload_offset(p) is Some && p.len() - payload_offset(p)->0 >= 16
}

/// Whether a packet carries a tag.
pub open spec fn tagged_with(p: Seq<u8>, tag: Seq<u8>) -> bool {
    taggable(p) && p.subrange(payload_offset(p)->0, payload_offset(p)->0 + 16) == tag
}

/// A packet with the tag at the start of its TCP payload; a packet without
/// room for a tag stays as it is.
pub open spec fn with_tag(p: Seq<u8>, tag: Seq<u8>) -> Seq<u8> {
    if taggable(p) {
        crate::wire::written_at(p, payload_offset(p)->0, tag)
    } else {
        p
    }
}

/// Where the TCP payload of a packet starts.
pub fn tcp_payload_offset(packet: &[u8]) -> (r: Option<usize>)
    requires
        payload_offset(packet@) is Some ==> packet@.len() > ihl(packet@) + 12,
    ensures
        match r {
            Some(i) => payload_offset(packet@) == Some(i as int) && 20 <= i <= 120,
            None => payload_offset(packet@) is None,
        },
{
    if packet.len() < 20 {
        return None;
    }
    if packet[0] / 16 != 4 {
        return None;
    }
    let header_len: usize = (packet[0] % 16) as usize * 4;
    if header_len < 20 || packet.len() < header_len {
        return None;
    }
    if packet[9] != 6 {
        return None;
    }
    if packet.len() < header_len + 12 {
        return None;
    }
    let tcp_header_len: usize = (packet[header_len + 12] / 16) as usize * 4;
    Some(header_len + tcp_header_len)
}

/// Marks a packet with a tag.
pub fn tag_injected_packet(tag: &InjectionTag, packet: &mut Vec<u8>)
    requires
        has_whole_headers(old(packet)@),
    ensures
        final(packet)@ == with_tag(old(packet)@, tag@),
{
    let offset: usize = match tcp_payload_offset(packet.as_slice()) {
        Some(offset) => offset,
        None => {
            return ;
        },
    };
    if packet.len() - offset < UUID_SIZE {
        return ;
    }
    crate::wire::overwrite(packet, offset, tag.bytes.as_slice());
}

/// Whether a packet carries a tag.
pub fn is_injected_packet(tag: &InjectionTag, packet: &[u8]) -> (r: bool)
    requires
        has_whole_headers(packet@),
    ensures
        r == tagged_with(packet@, tag@),
{
    let offset: usize = match tcp_payload_offset(packet) {
        Some(offset) => offset,
        None => {
            return false;
        },
    };
    if packet.len() - offset < UUID_SIZE {
        return false;
    }
    let mut i: usize = 0;
    while i < UUID_SIZE
        invariant
            i <= 16,
            offset <= 120,
            payload_offset(packet@) == Some(offset as int),
            offset + 16 <= packet@.len(),
            forall|j: int| 0 <= j < i ==> packet@[offset + j] == tag@[j],
        decreases 16 - i,
    {
        if packet[offset + i] != tag.byte(i) {
            assert(packet@.subrange(offset as int, offset + 16)[i as int] != tag@[i as int]);
            return false;
        }
        i = i + 1;
    }
    proof {
        tag.lemma_len();
    }
    assert(packet@.subrange(offset as int, offset + 16) =~= tag@);
    true
}

/// The bytes of a tag as the filter language writes them: `0x` and two
/// digits each, separated by spaces.
pub open spec fn tag_text(tag: Seq<u8>) -> Seq<char>
    decreases tag.len(),
{
    if tag.len() == 0 {
        Seq::empty()
    } else {
        let head = tag_text(tag.drop_last());
        let sep = if tag.len() == 1 {
            Seq::empty()
        } else {
            " "@
        };
        head + sep + "0x"@ + seq![hex_digit(tag.last() / 16), hex_digit(tag.last() % 16)]
    }
}

/// The clause of the capture filter that leaves out the packets that carry a
/// tag.
pub fn injected_filter_clause(tag: &InjectionTag) -> (r: String)
    ensures
        r@ == "not (tcp.PayloadLength >= 16 and tcp.Payload[0:16] == "@ + tag_text(tag@) + ")"@,
{
    let mut r: String = crate::text::owned(
        "not (tcp.PayloadLength >= 16 and tcp.Payload[0:16] == ",
    );
    let ghost head: Seq<char> = r@;
    let mut i: usize = 0;
    proof {
        tag.lemma_len();
    }
    assert(head + tag_text(tag@.subrange(0, 0)) =~= head);
    while i < UUID_SIZE
        invariant
            i <= 16,
            tag@.len() == 16,
            r@ == head + tag_text(tag@.subrange(0, i as int)),
        decreases 16 - i,
    {
        let ghost before: Seq<char> = r@;
        let b: u8 = tag.byte(i);
        if i > 0 {
            r.append(" ");
        }
        r.append("0x");
        r.push(hex_char(b / 16));
        r.push(hex_char(b % 16));
        i = i + 1;
        let ghost t: Seq<u8> = tag@.subrange(0, i as int);
        assert(t.drop_last() =~= tag@.subrange(0, i - 1));
        assert(t.last() == b);
        assert(r@ =~= head + tag_text(t));
    }
    assert(tag@.subrange(0, 16) =~= tag@);
    r.append(")");
    r
}

/// Whether writing the tag keeps the length that the TCP header gives for
/// itself. It always does where that length is sixteen bytes or more; with a
/// shorter one the tag covers the length field and has to hold the same
/// length.
pub open spec fn keeps_header_length(p: Seq<u8>, tag: Seq<u8>) -> bool {
    let n = (p[ihl(p) + 12] / 16) as int;
    n >= 4 || tag[12 - 4 * n] / 16 == n
}

/// A packet with room for a tag is recognised once it has been marked.
pub proof fn tagged_packet_is_recognised(p: Seq<u8>, tag: Seq<u8>)
    requires
        has_whole_headers(p),
        taggable(p),
        tag.len() == 16,
        keeps_header_length(p, tag),
    ensures
        tagged_with(with_tag(p, tag), tag),
{
    let q = with_tag(p, tag);
    let n = (p[ihl(p) + 12] / 16) as int;
    assert(q[ihl(p) + 12] / 16 == n);
    assert(payload_offset(q) == payload_offset(p));
    assert(q.subrange(payload_offset(q)->0, payload_offset(q)->0 + 16) =~= tag);
}

/// Marking a packet leaves its headers, its length and the rest of its
/// payload as they are.
pub proof fn tagging_preserves_headers(p: Seq<u8>, tag: Seq<u8>, i: int)
    requires
        has_whole_headers(p),
        tag.len() == 16,
        0 <= i < p.len(),
        taggable(p) ==> i < payload_offset(p)->0 || i >= payload_offset(p)->0 + 16,
    ensures
        with_tag(p, tag).len() == p.len(),
        with_tag(p, tag)[i] == p[i],
{
}

/// A packet that is no IPv4 TCP packet is neither changed nor taken for an
/// injected one.
pub proof fn other_packets_are_left_alone(p: Seq<u8>, tag: Seq<u8>)
    requires
        payload_offset(p) is None,
    ensures
        with_tag(p, tag) == p,
        !tagged_with(p, tag),
{
}

/// The payload of a TCP packet over IPv4 starts behind both headers, each as long
/// as four times the half byte that says so.
pub proof fn payloads_start_behind_both_headers(p: Seq<u8>)
    ensures
        ({
            let at = (p[0] % 16) * 4;
            let r = payload_offset(p);
            &&& r is Some <==> p.len() >= 20 && 0x40 <= p[0] <= 0x4f && at >= 20 && p.len() >= at
                + 12 && p[9] == 6
            &&& r is Some ==> r->0 == at + (p[at + 12] / 16) * 4
        }),
{
}

/// Where a tag is put: over the first sixteen bytes of the payload, where there
/// are as many; every other byte stays as it is.
pub proof fn tags_change_sixteen_bytes(p: Seq<u8>, tag: Seq<u8>, i: int)
    requires
        tag.len() == 16,
        0 <= i < p.len(),
        payload_offset(p) is Some,
    ensures
        ({
            let at = payload_offset(p)->0;
            let q = with_tag(p, tag);
            &&& q.len() == p.len()
            &&& at + 16 <= p.len() && at <= i < at + 16 ==> q[i] == tag[i - at]
            &&& i < at || at + 16 <= i || at + 16 > p.len() ==> q[i] == p[i]
        }),
{
}

/// A packet carries a tag exactly where the first sixteen bytes of its payload
/// are the tag's.
pub proof fn tags_are_told_by_sixteen_bytes(p: Seq<u8>, tag: Seq<u8>)
    requires
        tag.len() == 16,
        payload_offset(p) is Some,
        payload_offset(p)->0 >= 0,
    ensures
        ({
            let at = payload_offset(p)->0;
            tagged_with(p, tag) <==> at + 16 <= p.len() && forall|i: int|
                0 <= i < 16 ==> p[at + i] == #[trigger] tag[i]
        }),
        payload_offset(Seq::<u8>::empty()) is None,
{
    let at = payload_offset(p)->0;
    if at + 16 <= p.len() {
        let s = p.subrange(at, at + 16);
        if forall|i: int| 0 <= i < 16 ==> p[at + i] == #[trigger] tag[i] {
            assert forall|i: int| 0 <= i < 16 implies s[i] == tag[i] by {
                assert(p[at + i] == tag[i]);
            }
            assert(s =~= tag);
        }
        if s == tag {
            assert forall|i: int| 0 <= i < 16 implies p[at + i] == #[trigger] tag[i] by {
                assert(s[i] == tag[i]);
            }
        }
    }
}

/// A tag is written byte by byte, each as `0x` and two digits, with a space
/// between.
pub proof fn tags_are_written_byte_by_byte(tag: Seq<u8>, b: u8)
    ensures
        tag_text(Seq::empty()) == Seq::<char>::empty(),
        tag.len() > 0 ==> tag_text(tag.push(b)) == tag_text(tag) + " 0x"@ + seq![
            hex_digit((b / 16) as u8),
            hex_digit((b % 16) as u8),
        ],
        tag_text(seq![b]) == "0x"@ + seq![hex_digit((b / 16) as u8), hex_digit((b % 16) as u8)],
{
    reveal_strlit(" ");
    reveal_strlit("0x");
    reveal_strlit(" 0x");
    reveal_with_fuel(tag_text, 2);
    assert(tag.push(b).drop_last() =~= tag);
    assert(seq![b].drop_last() =~= Seq::<u8>::empty());
    assert(" "@ + "0x"@ =~= " 0x"@);
    if tag.len() > 0 {
        assert(tag_text(tag.push(b)) =~= tag_text(tag) + (" "@ + "0x"@) + seq![
            hex_digit((b / 16) as u8),
            hex_digit((b % 16) as u8),
        ]);
    }
    assert(tag_text(seq![b]) =~= "0x"@ + seq![
        hex_digit((b / 16) as u8),
        hex_digit((b % 16) as u8),
    ]);
}

} // verus!
