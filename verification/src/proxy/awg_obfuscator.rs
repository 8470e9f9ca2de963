//! Disguising tunnel packets: other message headers, random bytes at the end,
//! and junk packets ahead of a handshake.
use vstd::prelude::*;

use rand::{Rng, RngCore};

use crate::wire::{overwrite, push_all, written_at};

verus! {

/// How tunnel packets are disguised.
#[derive(Debug, Clone, Copy, PartialEq, Eq, Structural)]
pub struct AwgObfuscationConfig {
    /// How many junk packets precede a handshake, and their sizes.
    pub jc: usize,
    pub jmin: usize,
    pub jmax: usize,
    /// How many bytes are added to each kind of message.
    pub s1: usize,
    pub s2: usize,
    pub s3: usize,
    pub s4: usize,
    /// The header of each kind of message.
    pub h1: u32,
    pub h2: u32,
    pub h3: u32,
    pub h4: u32,
}

/// The usual disguise.
pub open spec fn default_disguise() -> AwgObfuscationConfig {
    AwgObfuscationConfig {
        jc: 4,
        jmin: 40,
        jmax: 1000,
        s1: 120,
        s2: 60,
        s3: 0,
        s4: 0,
        h1: 0x0100_0000,
        h2: 0x0200_0000,
        h3: 0x0300_0000,
        h4: 0x0400_0000,
    }
}

impl Default for AwgObfuscationConfig {
    fn default() -> (r: AwgObfuscationConfig)
        ensures
            r == default_disguise(),
    {
        AwgObfuscationConfig {
            jc: 4,
            jmin: 40,
            jmax: 1000,
            s1: 120,
            s2: 60,
            s3: 0,
            s4: 0,
            h1: 0x0100_0000,
            h2: 0x0200_0000,
            h3: 0x0300_0000,
            h4: 0x0400_0000,
        }
    }
}

impl AwgObfuscationConfig {
    /// The header of a kind of message.
    pub open spec fn header(self, kind: int) -> u32 {
        if kind == 1 {
            self.h1
        } else if kind == 2 {
            self.h2
        } else if kind == 3 {
            self.h3
        } else {
            self.h4
        }
    }

    /// How many bytes are added to a kind of message.
    pub open spec fn padding(self, kind: int) -> usize {
        if kind == 1 {
            self.s1
        } else if kind == 2 {
            self.s2
        } else if kind == 3 {
            self.s3
        } else {
            self.s4
        }
    }

    /// The kind of message with a header; zero where it is none. Where headers
    /// coincide, the first kind counts.
    pub open spec fn kind_of(self, header: u32) -> int {
        if header == self.h1 {
            1
        } else if header == self.h2 {
            2
        } else if header == self.h3 {
            3
        } else if header == self.h4 {
            4
        } else {
            0
        }
    }
}

impl AwgObfuscationConfig {
    /// Whether the bytes that are added to a message fit into memory.
    pub open spec fn room_for(self, p: Seq<u8>) -> bool {
        plain_kind(p) != 0 ==> self.padding(plain_kind(p)) <= isize::MAX
    }

    /// Whether there are sizes for the junk packets, and they fit into memory.
    pub open spec fn junk_has_sizes(self) -> bool {
        self.jc == 0 || self.jmax == 0 || self.jmin <= self.jmax <= isize::MAX
    }
}

/// The number that four bytes stand for, the lowest first.
pub open spec fn le32(s: Seq<u8>) -> u32 {
    (s[0] + s[1] * 0x100 + s[2] * 0x1_0000 + s[3] * 0x100_0000) as u32
}

/// The four bytes of a number, the lowest first.
pub open spec fn le32_bytes(x: u32) -> Seq<u8> {
    seq![
        (x % 256) as u8,
        (x / 0x100 % 256) as u8,
        (x / 0x1_0000 % 256) as u8,
        (x / 0x100_0000) as u8,
    ]
}

proof fn lemma_le32(s: Seq<u8>, x: u32)
    requires
        s.len() >= 4,
    ensures
        le32(le32_bytes(x)) == x,
        s.take(4) =~= le32_bytes(le32(s)),
{
}

fn read_le32(data: &Vec<u8>) -> (r: u32)
    requires
        data@.len() >= 4,
    ensures
        r == le32(data@),
{
    data[0] as u32 + data[1] as u32 * 0x100 + data[2] as u32 * 0x1_0000 + data[3] as u32
        * 0x100_0000
}

fn write_le32(data: &mut Vec<u8>, x: u32)
    requires
        old(data)@.len() >= 4,
    ensures
        final(data)@ == written_at(old(data)@, 0, le32_bytes(x)),
{
    let bytes: [u8; 4] = [
        (x % 256) as u8,
        (x / 0x100 % 256) as u8,
        (x / 0x1_0000 % 256) as u8,
        (x / 0x100_0000) as u8,
    ];
    assert(bytes@ =~= le32_bytes(x));
    overwrite(data, 0, bytes.as_slice());
}

/// `rand::RngCore::fill_bytes` on the thread's generator: random bytes, as
/// many as asked for.
#[verifier::external_body]
fn random_bytes(len: usize) -> (r: Vec<u8>)
    requires
        len <= isize::MAX,
    ensures
        r@.len() == len,
{
    let mut bytes = vec![0u8; len];
    rand::thread_rng().fill_bytes(&mut bytes);
    bytes
}

/// `rand::Rng::gen_range` on the thread's generator: a random number between
/// two others. It panics where there is none.
#[verifier::external_body]
pub(crate) fn random_between(min: usize, max: usize) -> (r: usize)
    requires
        min <= max,
    ensures
        min <= r <= max,
{
    rand::thread_rng().gen_range(min..=max)
}

/// The kind of a message that is not disguised; zero where it is none.
pub open spec fn plain_kind(p: Seq<u8>) -> int {
    if p.len() >= 4 && 1 <= le32(p) <= 4 {
        le32(p) as int
    } else {
        0
    }
}

/// A message in disguise, with some bytes added.
pub open spec fn disguised(config: AwgObfuscationConfig, p: Seq<u8>, junk: Seq<u8>) -> Seq<u8> {
    if plain_kind(p) == 0 {
        p
    } else {
        written_at(p, 0, le32_bytes(config.header(plain_kind(p)))) + junk
    }
}

/// What taking off the disguise gives: the message, or none where the packet
/// is junk.
pub open spec fn undisguised(config: AwgObfuscationConfig, q: Seq<u8>) -> Option<Seq<u8>> {
    if q.len() < 4 {
        None
    } else {
        let kind = config.kind_of(le32(q));
        if kind == 0 || q.len() < 4 + config.padding(kind) {
            None
        } else {
            Some(
                written_at(q, 0, le32_bytes(kind as u32)).take(
                    q.len() - config.padding(kind),
                ),
            )
        }
    }
}

/// Puts tunnel packets into a disguise and takes it off.
#[derive(Debug, Clone, Copy)]
pub struct AwgObfuscator {
    config: AwgObfuscationConfig,
}

impl AwgObfuscator {
    /// The disguise.
    pub closed spec fn disguise(&self) -> AwgObfuscationConfig {
        self.config
    }

    /// An obfuscator for a disguise.
    pub fn new(config: AwgObfuscationConfig) -> (r: AwgObfuscator)
        ensures
            r.disguise() == config,
    {
        AwgObfuscator { config }
    }

    /// How many bytes are added to a message, and whether it is one.
    pub fn padding_for(&self, packet: &Vec<u8>) -> (r: usize)
        ensures
            r == (if plain_kind(packet@) == 0 {
                0
            } else {
                self.disguise().padding(plain_kind(packet@))
            }),
    {
        if packet.len() < 4 {
            return 0;
        }
        match read_le32(packet) {
            1 => self.config.s1,
            2 => self.config.s2,
            3 => self.config.s3,
            4 => self.config.s4,
            _ => 0,
        }
    }

    /// Puts a message into disguise, with the given bytes added. Says whether
    /// it begins a handshake.
    pub fn obfuscate_with(&self, packet: &mut Vec<u8>, junk: &Vec<u8>) -> (r: bool)
        ensures
            final(packet)@ == disguised(self.disguise(), old(packet)@, junk@),
            r == (plain_kind(old(packet)@) == 1),
    {
        if packet.len() < 4 {
            return false;
        }
        let kind: u32 = read_le32(packet);
        let header: u32 = match kind {
            1 => self.config.h1,
            2 => self.config.h2,
            3 => self.config.h3,
            4 => self.config.h4,
            _ => {
                return false;
            },
        };
        write_le32(packet, header);
        push_all(packet, junk.as_slice());
        kind == 1
    }

    /// Puts a message into disguise. Says whether it begins a handshake.
    pub fn obfuscate(&self, packet: &mut Vec<u8>) -> (r: bool)
        requires
            self.disguise().room_for(old(packet)@),
        ensures
            r == (plain_kind(old(packet)@) == 1),
            is_disguise_of(self.disguise(), old(packet)@, final(packet)@),
    {
        let junk: Vec<u8> = random_bytes(self.padding_for(packet));
        let r: bool = self.obfuscate_with(packet, &junk);
        assert(junk@.len() == (if plain_kind(old(packet)@) == 0 {
            0
        } else {
            self.disguise().padding(plain_kind(old(packet)@))
        }));
        r
    }

    /// Takes off the disguise of a packet. Says whether it is a message; junk
    /// is left as it is.
    pub fn deobfuscate(&self, packet: &mut Vec<u8>) -> (r: bool)
        ensures
            r == (undisguised(self.disguise(), old(packet)@) is Some),
            final(packet)@ == (match undisguised(self.disguise(), old(packet)@) {
                Some(p) => p,
                None => old(packet)@,
            }),
    {
        if packet.len() < 4 {
            return false;
        }
        let header: u32 = read_le32(packet);
        let (kind, padding): (u32, usize) = if header == self.config.h1 {
            (1, self.config.s1)
        } else if header == self.config.h2 {
            (2, self.config.s2)
        } else if header == self.config.h3 {
            (3, self.config.s3)
        } else if header == self.config.h4 {
            (4, self.config.s4)
        } else {
            return false;
        };
        if packet.len() - 4 < padding {
            return false;
        }
        write_le32(packet, kind);
        let len: usize = packet.len() - padding;
        packet.truncate(len);
        assert(packet@ =~= undisguised(self.disguise(), old(packet)@)->0);
        true
    }

    /// The junk packets that precede a handshake.
    pub fn junk_packets(&self) -> (r: Vec<Vec<u8>>)
        requires
            self.disguise().junk_has_sizes(),
        ensures
            r@.len() == (if self.disguise().jmax == 0 {
                0
            } else {
                self.disguise().jc
            }),
            forall|i: int|
                0 <= i < r@.len() ==> self.disguise().jmin <= (#[trigger] r@[i])@.len()
                    <= self.disguise().jmax,
    {
        let mut r: Vec<Vec<u8>> = Vec::new();
        if self.config.jc == 0 || self.config.jmax == 0 {
            return r;
        }
        let mut n: usize = 0;
        while n < self.config.jc
            invariant
                n <= self.config.jc,
                self.config.jmin <= self.config.jmax <= isize::MAX,
                r@.len() == n,
                forall|i: int|
                    0 <= i < r@.len() ==> self.config.jmin <= (#[trigger] r@[i])@.len()
                        <= self.config.jmax,
            decreases self.config.jc - n,
        {
            let size: usize = random_between(self.config.jmin, self.config.jmax);
            r.push(random_bytes(size));
            n = n + 1;
        }
        r
    }
}

/// Whether a packet is a message in disguise, whatever bytes were added.
pub open spec fn is_disguise_of(config: AwgObfuscationConfig, p: Seq<u8>, q: Seq<u8>) -> bool {
    exists|junk: Seq<u8>|
        q == #[trigger] disguised(config, p, junk) && junk.len() == (if plain_kind(p) == 0 {
            0
        } else {
            config.padding(plain_kind(p))
        })
}

/// A message in disguise has the header of its kind and is longer by the bytes
/// of its kind. Taking off the disguise gives the message back, whatever bytes
/// were added, as long as no earlier kind of message has the same header.
pub proof fn disguise_comes_off(config: AwgObfuscationConfig, p: Seq<u8>, q: Seq<u8>)
    requires
        plain_kind(p) != 0,
        config.kind_of(config.header(plain_kind(p))) == plain_kind(p),
        is_disguise_of(config, p, q),
    ensures
        q.len() == p.len() + config.padding(plain_kind(p)),
        q.take(4) == le32_bytes(config.header(plain_kind(p))),
        undisguised(config, q) == Some(p),
{
    let junk = choose|junk: Seq<u8>|
        q == #[trigger] disguised(config, p, junk) && junk.len() == config.padding(plain_kind(p));
    let kind = plain_kind(p);
    lemma_le32(p, config.header(kind));
    lemma_le32(p, kind as u32);
    assert(q.take(4) =~= le32_bytes(config.header(kind)));
    assert(le32(q) == le32(le32_bytes(config.header(kind)))) by {
        assert(q[0] == le32_bytes(config.header(kind))[0]);
        assert(q[1] == le32_bytes(config.header(kind))[1]);
        assert(q[2] == le32_bytes(config.header(kind))[2]);
        assert(q[3] == le32_bytes(config.header(kind))[3]);
    }
    let back = written_at(q, 0, le32_bytes(kind as u32)).take(q.len() - config.padding(kind));
    assert(back =~= p) by {
        assert forall|i: int| 0 <= i < p.len() implies back[i] == p[i] by {
            if i < 4 {
                assert(p.take(4)[i] == le32_bytes(le32(p))[i]);
            }
        }
    }
}

/// What is no tunnel message is left as it is.
pub proof fn other_packets_are_not_disguised(
    config: AwgObfuscationConfig,
    p: Seq<u8>,
    junk: Seq<u8>,
)
    requires
        plain_kind(p) == 0,
    ensures
        disguised(config, p, junk) == p,
{
}

/// Numbers stand with their lowest byte first.
pub proof fn the_lowest_byte_comes_first(s: Seq<u8>, x: u32)
    requires
        s.len() >= 4,
    ensures
        le32(s) == s[0] + 0x100 * s[1] + 0x1_0000 * s[2] + 0x100_0000 * s[3],
        le32_bytes(x).len() == 4,
        le32_bytes(x)[0] + 0x100 * le32_bytes(x)[1] + 0x1_0000 * le32_bytes(x)[2] + 0x100_0000
            * le32_bytes(x)[3] == x,
{
}

/// A message of the tunnel begins with its kind, from 1 to 4, and three zeros;
/// nothing else is one.
pub proof fn messages_begin_with_their_kind(p: Seq<u8>)
    ensures
        plain_kind(p) != 0 <==> p.len() >= 4 && 1 <= p[0] <= 4 && p[1] == 0 && p[2] == 0 && p[3]
            == 0,
        plain_kind(p) != 0 ==> plain_kind(p) == p[0],
{
}

/// Each kind of message has its own header and its own padding.
pub proof fn kinds_have_their_own_disguise(config: AwgObfuscationConfig)
    ensures
        config.header(1) == config.h1 && config.padding(1) == config.s1,
        config.header(2) == config.h2 && config.padding(2) == config.s2,
        config.header(3) == config.h3 && config.padding(3) == config.s3,
        config.header(4) == config.h4 && config.padding(4) == config.s4,
{
}

/// A header tells the first kind that has it, and none where no kind does.
pub proof fn headers_tell_the_kind(config: AwgObfuscationConfig, header: u32)
    ensures
        config.kind_of(config.h1) == 1,
        config.h2 != config.h1 ==> config.kind_of(config.h2) == 2,
        config.h3 != config.h1 && config.h3 != config.h2 ==> config.kind_of(config.h3) == 3,
        config.h4 != config.h1 && config.h4 != config.h2 && config.h4 != config.h3
            ==> config.kind_of(config.h4) == 4,
        config.kind_of(header) == 0 <==> header != config.h1 && header != config.h2 && header
            != config.h3 && header != config.h4,
{
}

/// A disguise changes the first four bytes and adds bytes at the end; what lies
/// between stays as it is.
pub proof fn disguises_keep_the_body(
    config: AwgObfuscationConfig,
    p: Seq<u8>,
    junk: Seq<u8>,
    i: int,
)
    requires
        plain_kind(p) != 0,
    ensures
        ({
            let q = disguised(config, p, junk);
            let h = config.header(p[0] as int);
            &&& q.len() == p.len() + junk.len()
            &&& q[0] + 0x100 * q[1] + 0x1_0000 * q[2] + 0x100_0000 * q[3] == h
            &&& 4 <= i < p.len() ==> q[i] == p[i]
            &&& q.skip(p.len() as int) == junk
        }),
{
    let q = disguised(config, p, junk);
    let b = le32_bytes(config.header(p[0] as int));
    assert(q[0] == b[0] && q[1] == b[1] && q[2] == b[2] && q[3] == b[3]);
    assert(q.skip(p.len() as int) =~= junk);
}

/// What comes out of a disguise is a message: its kind is that of its header,
/// what lies behind stays as it is, and the padding is gone. A packet is junk
/// exactly where its header is unknown or it is too short for its padding.
pub proof fn only_messages_come_out(config: AwgObfuscationConfig, q: Seq<u8>, i: int)
    requires
        q.len() >= 4,
    ensures
        ({
            let header = (q[0] + 0x100 * q[1] + 0x1_0000 * q[2] + 0x100_0000 * q[3]) as u32;
            let kind = config.kind_of(header);
            let r = undisguised(config, q);
            &&& r is None <==> (header != config.h1 && header != config.h2 && header != config.h3
                && header != config.h4) || q.len() < 4 + config.padding(kind)
            &&& r is Some ==> {
                let p = r->0;
                &&& p.len() == q.len() - config.padding(kind)
                &&& p[0] == kind && p[1] == 0 && p[2] == 0 && p[3] == 0
                &&& 1 <= kind <= 4
                &&& 4 <= i < p.len() ==> p[i] == q[i]
            }
        }),
{
}

/// The usual disguise tells all four kinds apart, and has sizes for its junk.
pub proof fn the_usual_disguise_is_sound()
    ensures
        ({
            let d = default_disguise();
            &&& d.h1 != d.h2 && d.h1 != d.h3 && d.h1 != d.h4
            &&& d.h2 != d.h3 && d.h2 != d.h4 && d.h3 != d.h4
            &&& d.jc == 4 && d.jmin == 40 && d.jmax == 1000
            &&& d.s1 == 120 && d.s2 == 60 && d.s3 == 0 && d.s4 == 0
            &&& d.h1 > 4 && d.h2 > 4 && d.h3 > 4 && d.h4 > 4
        }),
{
}

} // verus!
