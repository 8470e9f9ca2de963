//! Reading and writing big-endian fields of packets.
use vstd::prelude::*;

verus! {

/// The number that two bytes stand for in network order.
pub open spec fn be16(hi: u8, lo: u8) -> nat {
    (hi as nat) * 256 + lo as nat
}

/// The number that four bytes stand for in network order.
pub open spec fn be32(b0: u8, b1: u8, b2: u8, b3: u8) -> nat {
    be16(b0, b1) * 65536 + be16(b2, b3)
}

/// The two bytes of a number in network order.
pub open spec fn be16_bytes(x: u16) -> Seq<u8> {
    seq![(x / 256) as u8, (x % 256) as u8]
}

/// The four bytes of a number in network order.
pub open spec fn be32_bytes(x: u32) -> Seq<u8> {
    seq![
        (x / 0x100_0000) as u8,
        ((x / 0x1_0000) % 256) as u8,
        ((x / 0x100) % 256) as u8,
        (x % 256) as u8,
    ]
}

/// The number that a byte string stands for in network order.
pub open spec fn be_value(s: Seq<u8>) -> nat
    decreases s.len(),
{
    if s.len() == 0 {
        0
    } else {
        be_value(s.drop_last()) * 256 + s.last() as nat
    }
}

/// The `n` low bytes of a number in network order.
pub open spec fn be_digits(x: nat, n: nat) -> Seq<u8>
    decreases n,
{
    if n == 0 {
        Seq::empty()
    } else {
        be_digits(x / 256, (n - 1) as nat).push((x % 256) as u8)
    }
}

/// `be_digits` gives the asked number of bytes.
pub proof fn lemma_be_digits_len(x: nat, n: nat)
    ensures
        be_digits(x, n).len() == n,
    decreases n,
{
    if n > 0 {
        lemma_be_digits_len(x / 256, (n - 1) as nat);
    }
}

/// A byte string is made up of the digits of its number, and its number fits.
pub proof fn lemma_be_digits_of_value(s: Seq<u8>)
    requires
        s.len() <= 16,
    ensures
        be_digits(be_value(s), s.len()) == s,
        be_value(s) < vstd::arithmetic::power2::pow2(8 * s.len()),
    decreases s.len(),
{
    vstd::arithmetic::power2::lemma2_to64();
    if s.len() > 0 {
        let t = s.drop_last();
        lemma_be_digits_of_value(t);
        vstd::arithmetic::power2::lemma_pow2_adds(8 * t.len(), 8);
        let v = be_value(t);
        let b = s.last() as nat;
        assert((v * 256 + b) / 256 == v && (v * 256 + b) % 256 == b);
        assert(be_value(s) < vstd::arithmetic::power2::pow2(8 * s.len())) by (nonlinear_arith)
            requires
                be_value(s) == v * 256 + b,
                b < 256,
                v < vstd::arithmetic::power2::pow2(8 * t.len()),
                vstd::arithmetic::power2::pow2(8 * s.len()) == vstd::arithmetic::power2::pow2(
                    8 * t.len(),
                ) * 256,
        ;
        assert(be_digits(be_value(s), s.len()) =~= t.push(s.last()));
        assert(t.push(s.last()) =~= s);
    } else {
        assert(be_digits(0, 0) =~= s);
    }
}

/// Reading back the digits of a number that fits gives the number.
pub proof fn lemma_be_value_of_digits(x: nat, n: nat)
    requires
        n <= 16,
        x < vstd::arithmetic::power2::pow2(8 * n),
    ensures
        be_value(be_digits(x, n)) == x,
    decreases n,
{
    vstd::arithmetic::power2::lemma2_to64();
    if n > 0 {
        let m = (n - 1) as nat;
        vstd::arithmetic::power2::lemma_pow2_adds(8 * m, 8);
        assert(x / 256 < vstd::arithmetic::power2::pow2(8 * m)) by (nonlinear_arith)
            requires
                x < vstd::arithmetic::power2::pow2(8 * m) * 256,
        ;
        lemma_be_value_of_digits(x / 256, m);
        let s = be_digits(x, n);
        assert(s.drop_last() =~= be_digits(x / 256, m));
        assert(s.last() == (x % 256) as u8);
    }
}

/// Reads the two bytes at `at` as a number in network order.
pub fn read_be16(data: &[u8], at: usize) -> (r: u16)
    requires
        at + 1 < data@.len(),
    ensures
        r == be16(data@[at as int], data@[at + 1]),
{
    (data[at] as u16) * 256 + data[at + 1] as u16
}

/// Reads the four bytes at `at` as a number in network order.
pub fn read_be32(data: &[u8], at: usize) -> (r: u32)
    requires
        at + 3 < data@.len(),
    ensures
        r == be32(data@[at as int], data@[at + 1], data@[at + 2], data@[at + 3]),
{
    let len: usize = data.len();
    assert(at + 3 < len);
    (read_be16(data, at) as u32) * 65536 + read_be16(data, at + 2) as u32
}

/// Appends the two bytes of a number in network order.
pub fn push_be16(out: &mut Vec<u8>, x: u16)
    ensures
        final(out)@ == old(out)@ + be16_bytes(x),
{
    out.push((x / 256) as u8);
    out.push((x % 256) as u8);
    assert(out@ =~= old(out)@ + be16_bytes(x));
}

/// Appends the four bytes of a number in network order.
pub fn push_be32(out: &mut Vec<u8>, x: u32)
    ensures
        final(out)@ == old(out)@ + be32_bytes(x),
{
    out.push((x / 0x100_0000) as u8);
    out.push(((x / 0x1_0000) % 256) as u8);
    out.push(((x / 0x100) % 256) as u8);
    out.push((x % 256) as u8);
    assert(out@ =~= old(out)@ + be32_bytes(x));
}

/// Appends a byte string.
pub fn push_all(out: &mut Vec<u8>, bytes: &[u8])
    ensures
        final(out)@ == old(out)@ + bytes@,
{
    let ghost before: Seq<u8> = out@;
    let mut i: usize = 0;
    while i < bytes.len()
        invariant
            i <= bytes@.len(),
            out@ == before + bytes@.subrange(0, i as int),
        decreases bytes@.len() - i,
    {
        out.push(bytes[i]);
        i = i + 1;
        assert(bytes@.subrange(0, i as int) =~= bytes@.subrange(0, i - 1).push(bytes@[i - 1]));
        assert(out@ =~= before + bytes@.subrange(0, i as int));
    }
    assert(bytes@.subrange(0, i as int) =~= bytes@);
}

/// The bytes from `from` up to `to`, copied.
pub fn copy_range(data: &[u8], from: usize, to: usize) -> (r: Vec<u8>)
    requires
        from <= to <= data@.len(),
    ensures
        r@ == data@.subrange(from as int, to as int),
{
    let mut r: Vec<u8> = Vec::new();
    let mut i: usize = from;
    while i < to
        invariant
            from <= i <= to <= data@.len(),
            r@ == data@.subrange(from as int, i as int),
        decreases to - i,
    {
        r.push(data[i]);
        i = i + 1;
        assert(r@ =~= data@.subrange(from as int, i as int));
    }
    r
}

/// Writes `bytes` over the bytes of `data` that start at `at`.
pub fn overwrite(data: &mut Vec<u8>, at: usize, bytes: &[u8])
    requires
        at + bytes@.len() <= old(data)@.len(),
    ensures
        final(data)@ == written_at(old(data)@, at as int, bytes@),
{
    let ghost before: Seq<u8> = data@;
    let len: usize = data.len();
    let mut i: usize = 0;
    while i < bytes.len()
        invariant
            i <= bytes@.len(),
            at + bytes@.len() <= before.len(),
            before.len() == len,
            data@.len() == before.len(),
            forall|j: int|
                0 <= j < before.len() ==> #[trigger] data@[j] == (if at <= j < at + i {
                    bytes@[j - at]
                } else {
                    before[j]
                }),
        decreases bytes@.len() - i,
    {
        data.set(at + i, bytes[i]);
        i = i + 1;
    }
    assert(data@ =~= written_at(before, at as int, bytes@));
}

/// `data` with the bytes that start at `at` replaced by `bytes`.
pub open spec fn written_at(data: Seq<u8>, at: int, bytes: Seq<u8>) -> Seq<u8> {
    Seq::new(
        data.len(),
        |j: int| if at <= j < at + bytes.len() { bytes[j - at] } else { data[j] },
    )
}

/// Bytes stand in network order: the first counts most.
pub proof fn the_first_byte_counts_most(a: u8, b: u8, c: u8, d: u8)
    ensures
        be16(a, b) == 256 * a + b,
        be32(a, b, c, d) == 0x100_0000 * a + 0x1_0000 * b + 0x100 * c + d,
        be_value(seq![a, b]) == 256 * a + b,
        be_value(seq![a, b, c, d]) == 0x100_0000 * a + 0x1_0000 * b + 0x100 * c + d,
{
    reveal_with_fuel(be_value, 5);
    assert(seq![a, b, c, d].drop_last() =~= seq![a, b, c]);
    assert(seq![a, b, c].drop_last() =~= seq![a, b]);
    assert(seq![a, b].drop_last() =~= seq![a]);
    assert(seq![a].drop_last() =~= Seq::<u8>::empty());
}

/// A number is the sum of its bytes by their place.
pub proof fn numbers_are_the_sum_of_their_bytes(x: u16, y: u32)
    ensures
        be16_bytes(x).len() == 2,
        256 * be16_bytes(x)[0] + be16_bytes(x)[1] == x,
        be32_bytes(y).len() == 4,
        0x100_0000 * be32_bytes(y)[0] + 0x1_0000 * be32_bytes(y)[1] + 0x100 * be32_bytes(y)[2]
            + be32_bytes(y)[3] == y,
{
}

/// Writing into bytes changes those places and no others.
pub proof fn writing_changes_its_place_only(data: Seq<u8>, at: int, bytes: Seq<u8>, i: int)
    requires
        0 <= at,
        at + bytes.len() <= data.len(),
        0 <= i < data.len(),
    ensures
        written_at(data, at, bytes).len() == data.len(),
        written_at(data, at, bytes).subrange(at, at + bytes.len()) == bytes,
        i < at || at + bytes.len() <= i ==> written_at(data, at, bytes)[i] == data[i],
{
    assert(written_at(data, at, bytes).subrange(at, at + bytes.len()) =~= bytes);
}

} // verus!
