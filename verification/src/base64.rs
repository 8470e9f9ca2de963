//! Base64 in its standard and its URL alphabet.
use vstd::prelude::*;

use crate::text::chars_of;

verus! {

/// The two Base64 alphabets.
#[derive(Debug, Clone, Copy, PartialEq, Eq, Structural)]
pub enum Alphabet {
    /// Ends in `+` and `/`.
    Standard,
    /// Ends in `-` and `_`.
    Url,
}

/// The character for a number under 64.
pub open spec fn sextet_char(v: int, alphabet: Alphabet) -> char {
    if v < 26 {
        (65 + v) as u8 as char
    } else if v < 52 {
        (71 + v) as u8 as char
    } else if v < 62 {
        (v - 4) as u8 as char
    } else if v == 62 {
        if alphabet == Alphabet::Standard {
            '+'
        } else {
            '-'
        }
    } else {
        if alphabet == Alphabet::Standard {
            '/'
        } else {
            '_'
        }
    }
}

/// The number for a character of the standard alphabet.
pub open spec fn sextet_value(c: char) -> Option<int> {
    if 'A' <= c <= 'Z' {
        Some(c as int - 65)
    } else if 'a' <= c <= 'z' {
        Some(c as int - 71)
    } else if '0' <= c <= '9' {
        Some(c as int + 4)
    } else if c == '+' {
        Some(62)
    } else if c == '/' {
        Some(63)
    } else {
        None
    }
}

/// The numbers that the first three bytes, or fewer, are cut into.
pub open spec fn first_sextets(s: Seq<u8>) -> Seq<int> {
    let b0 = s[0] as int;
    let b1 = if s.len() > 1 {
        s[1] as int
    } else {
        0
    };
    let b2 = if s.len() > 2 {
        s[2] as int
    } else {
        0
    };
    let four = seq![b0 / 4, (b0 % 4) * 16 + b1 / 16, (b1 % 16) * 4 + b2 / 64, b2 % 64];
    if s.len() == 1 {
        four.take(2)
    } else if s.len() == 2 {
        four.take(3)
    } else {
        four
    }
}

/// What is left after the first three bytes.
pub open spec fn after_group(s: Seq<u8>) -> Seq<u8> {
    if s.len() <= 3 {
        Seq::empty()
    } else {
        s.subrange(3, s.len() as int)
    }
}

/// The numbers that a byte string is cut into.
pub open spec fn sextets(s: Seq<u8>) -> Seq<int>
    decreases s.len(),
{
    if s.len() == 0 {
        Seq::empty()
    } else {
        first_sextets(s) + sextets(after_group(s))
    }
}

/// The characters for some numbers.
pub open spec fn sextet_chars(v: Seq<int>, alphabet: Alphabet) -> Seq<char> {
    Seq::new(v.len(), |i: int| sextet_char(v[i], alphabet))
}

/// As many padding characters as fill the last group of four.
pub open spec fn padding(n: nat) -> Seq<char> {
    if n % 3 == 1 {
        seq!['=', '=']
    } else if n % 3 == 2 {
        seq!['=']
    } else {
        Seq::empty()
    }
}

/// A byte string in Base64 without padding.
pub open spec fn base64_text(s: Seq<u8>, alphabet: Alphabet) -> Seq<char> {
    sextet_chars(sextets(s), alphabet)
}

fn char_for(v: u8, alphabet: Alphabet) -> (r: char)
    requires
        v < 64,
    ensures
        r == sextet_char(v as int, alphabet),
{
    if v < 26 {
        (65 + v) as char
    } else if v < 52 {
        (71 + v) as char
    } else if v < 62 {
        (v - 4) as char
    } else if v == 62 {
        match alphabet {
            Alphabet::Standard => '+',
            Alphabet::Url => '-',
        }
    } else {
        match alphabet {
            Alphabet::Standard => '/',
            Alphabet::Url => '_',
        }
    }
}

/// Encodes without padding.
pub fn encode_bare(data: &[u8], alphabet: Alphabet) -> (r: String)
    ensures
        r@ == base64_text(data@, alphabet),
{
    let mut out: String = String::new();
    let mut i: usize = 0;
    let n: usize = data.len();
    assert(data@.subrange(0, n as int) =~= data@);
    assert(base64_text(data@, alphabet) =~= out@ + base64_text(data@, alphabet));
    while i < n
        invariant
            n == data@.len(),
            i <= n,
            base64_text(data@, alphabet) == out@ + base64_text(
                data@.subrange(i as int, n as int),
                alphabet,
            ),
        decreases n - i,
    {
        let ghost s: Seq<u8> = data@.subrange(i as int, n as int);
        let ghost before: Seq<char> = out@;
        let b0: u8 = data[i];
        let left: usize = n - i;
        let b1: u8 = if left > 1 {
            data[i + 1]
        } else {
            0
        };
        let b2: u8 = if left > 2 {
            data[i + 2]
        } else {
            0
        };
        out.push(char_for(b0 / 4, alphabet));
        out.push(char_for((b0 % 4) * 16 + b1 / 16, alphabet));
        if left > 1 {
            out.push(char_for((b1 % 16) * 4 + b2 / 64, alphabet));
        }
        if left > 2 {
            out.push(char_for(b2 % 64, alphabet));
        }
        let step: usize = if left > 3 {
            3
        } else {
            left
        };
        i = i + step;
        proof {
            assert(data@.subrange(i as int, n as int) =~= after_group(s));
            assert(out@ =~= before + sextet_chars(first_sextets(s), alphabet));
            assert(base64_text(s, alphabet) =~= sextet_chars(first_sextets(s), alphabet)
                + base64_text(after_group(s), alphabet));
            assert(base64_text(data@, alphabet) =~= out@ + base64_text(after_group(s), alphabet));
        }
    }
    assert(data@.subrange(i as int, n as int).len() == 0);
    assert(out@ =~= base64_text(data@, alphabet));
    out
}

/// Encodes with the standard alphabet and padding.
pub fn base64_encode(data: &[u8]) -> (r: String)
    ensures
        r@ == base64_text(data@, Alphabet::Standard) + padding(data@.len()),
{
    let mut out: String = encode_bare(data, Alphabet::Standard);
    let ghost bare: Seq<char> = out@;
    if data.len() % 3 == 1 {
        out.push('=');
        out.push('=');
    } else if data.len() % 3 == 2 {
        out.push('=');
    }
    assert(out@ =~= bare + padding(data@.len()));
    out
}

/// Encodes with the standard alphabet and no padding.
pub fn base64_encode_no_pad(data: &[u8]) -> (r: String)
    ensures
        r@ == base64_text(data@, Alphabet::Standard),
{
    encode_bare(data, Alphabet::Standard)
}

/// Encodes with the URL alphabet and no padding.
pub fn base64url_encode(data: &[u8]) -> (r: String)
    ensures
        r@ == base64_text(data@, Alphabet::Url),
{
    encode_bare(data, Alphabet::Url)
}

/// The numbers of the characters of a text, up to the first padding
/// character. Characters outside the standard alphabet count for nothing.
pub open spec fn read_sextets(s: Seq<char>) -> Seq<int>
    decreases s.len(),
{
    if s.len() == 0 || s[0] == '=' {
        Seq::empty()
    } else {
        match sextet_value(s[0]) {
            Some(v) => seq![v] + read_sextets(s.drop_first()),
            None => read_sextets(s.drop_first()),
        }
    }
}

/// The `k`th byte that some numbers stand for.
pub open spec fn byte_of_sextets(v: Seq<int>, k: int) -> u8 {
    let q = 4 * (k / 3);
    if k % 3 == 0 {
        (v[q] * 4 + v[q + 1] / 16) as u8
    } else if k % 3 == 1 {
        ((v[q + 1] % 16) * 16 + v[q + 2] / 4) as u8
    } else {
        ((v[q + 2] % 4) * 64 + v[q + 3]) as u8
    }
}

/// The whole bytes that some numbers stand for.
pub open spec fn bytes_of_sextets(v: Seq<int>) -> Seq<u8> {
    Seq::new((v.len() * 6 / 8) as nat, |k: int| byte_of_sextets(v, k))
}

/// The key of 32 bytes that a text stands for, if it stands for exactly 32.
pub open spec fn decoded_key(s: Seq<char>) -> Option<Seq<u8>> {
    let b = bytes_of_sextets(read_sextets(s));
    if b.len() == 32 {
        Some(b)
    } else {
        None
    }
}

proof fn lemma_read_push(s: Seq<char>, c: char)
    requires
        forall|i: int| 0 <= i < s.len() ==> s[i] != '=',
    ensures
        read_sextets(s.push(c)) == (match sextet_value(c) {
            Some(v) => read_sextets(s).push(v),
            None => read_sextets(s),
        }),
    decreases s.len(),
{
    let t = s.push(c);
    if s.len() == 0 {
        assert(t.drop_first() =~= Seq::<char>::empty());
        assert(read_sextets(t.drop_first()) =~= Seq::<int>::empty());
        if sextet_value(c) is Some {
            assert(read_sextets(t) =~= read_sextets(s).push(sextet_value(c)->0));
        } else {
            assert(read_sextets(t) =~= read_sextets(s));
        }
    } else {
        assert(t.drop_first() =~= s.drop_first().push(c));
        assert forall|i: int| 0 <= i < s.drop_first().len() implies s.drop_first()[i] != '=' by {
            assert(s.drop_first()[i] == s[i + 1]);
        }
        lemma_read_push(s.drop_first(), c);
        if sextet_value(s[0]) is Some && sextet_value(c) is Some {
            assert(read_sextets(t) =~= read_sextets(s).push(sextet_value(c)->0));
        }
    }
}

proof fn lemma_read_stops(s: Seq<char>, i: int)
    requires
        0 <= i < s.len(),
        s[i] == '=',
        forall|j: int| 0 <= j < i ==> s[j] != '=',
    ensures
        read_sextets(s) == read_sextets(s.take(i)),
    decreases s.len(),
{
    if i > 0 {
        let t = s.drop_first();
        assert forall|j: int| 0 <= j < i - 1 implies t[j] != '=' by {
            assert(t[j] == s[j + 1]);
        }
        lemma_read_stops(t, i - 1);
        assert(s.take(i).drop_first() =~= t.take(i - 1));
    }
}

/// Decodes a key of 32 bytes. Characters outside the alphabet are passed
/// over; reading stops at the first padding character.
pub fn base64_decode(input: &str) -> (r: Option<[u8; 32]>)
    ensures
        match r {
            Some(key) => decoded_key(input@) == Some(key@),
            None => decoded_key(input@) is None,
        },
{
    let chars: Vec<char> = chars_of(input);
    let mut values: Vec<u8> = Vec::new();
    let mut i: usize = 0;
    let ghost mut v: Seq<int> = Seq::empty();
    assert(read_sextets(chars@.take(0)) =~= v);
    while i < chars.len() && chars[i] != '='
        invariant
            i <= chars@.len(),
            chars@ == input@,
            values@.len() == v.len(),
            v.len() <= i,
            v == read_sextets(chars@.take(i as int)),
            forall|j: int| 0 <= j < v.len() ==> v[j] == values@[j] && 0 <= #[trigger] v[j] < 64,
            forall|j: int| 0 <= j < i ==> chars@[j] != '=',
        decreases chars@.len() - i,
    {
        let c: char = chars[i];
        proof {
            assert(chars@.take(i + 1) =~= chars@.take(i as int).push(c));
            lemma_read_push(chars@.take(i as int), c);
        }
        let code: u32 = c as u32;
        if 'A' <= c && c <= 'Z' {
            values.push((code - 65) as u8);
        } else if 'a' <= c && c <= 'z' {
            values.push((code - 71) as u8);
        } else if '0' <= c && c <= '9' {
            values.push((code + 4) as u8);
        } else if c == '+' {
            values.push(62);
        } else if c == '/' {
            values.push(63);
        }
        proof {
            v = read_sextets(chars@.take(i + 1));
        }
        i = i + 1;
    }
    proof {
        if i < chars@.len() {
            lemma_read_stops(chars@, i as int);
        } else {
            assert(chars@.take(i as int) =~= chars@);
        }
    }
    assert(v == read_sextets(input@));
    if values.len() != 43 {
        assert(v.len() * 6 / 8 != 32);
        return None;
    }
    let mut key: [u8; 32] = [0; 32];
    let mut k: usize = 0;
    while k < 32
        invariant
            k <= 32,
            key@.len() == 32,
            values@.len() == 43,
            v.len() == 43,
            forall|j: int| 0 <= j < v.len() ==> v[j] == values@[j] && 0 <= #[trigger] v[j] < 64,
            forall|j: int| 0 <= j < k ==> #[trigger] key@[j] == byte_of_sextets(v, j),
        decreases 32 - k,
    {
        let q: usize = 4 * (k / 3);
        assert(v[q as int] < 64 && v[q + 1] < 64 && v[q + 2] < 64);
        if k % 3 == 0 {
            key[k] = values[q] * 4 + values[q + 1] / 16;
        } else if k % 3 == 1 {
            key[k] = (values[q + 1] % 16) * 16 + values[q + 2] / 4;
        } else {
            assert(v[q + 3] < 64);
            key[k] = (values[q + 2] % 4) * 64 + values[q + 3];
        }
        k = k + 1;
    }
    assert(key@ =~= bytes_of_sextets(v));
    Some(key)
}

proof fn lemma_sextets_shape(s: Seq<u8>)
    ensures
        sextets(s).len() == (s.len() * 4 + 2) / 3,
        forall|i: int| 0 <= i < sextets(s).len() ==> 0 <= #[trigger] sextets(s)[i] < 64,
    decreases s.len(),
{
    if s.len() > 0 {
        lemma_sextets_shape(after_group(s));
        let f = first_sextets(s);
        let b0 = s[0] as int;
        let b1 = if s.len() > 1 {
            s[1] as int
        } else {
            0
        };
        assert(0 <= (b0 % 4) * 16 + b1 / 16 < 64);
        assert forall|i: int| 0 <= i < sextets(s).len() implies 0 <= #[trigger] sextets(s)[i]
            < 64 by {
            if i >= f.len() {
                assert(sextets(s)[i] == sextets(after_group(s))[i - f.len()]);
            } else {
                assert(sextets(s)[i] == f[i]);
            }
        }
    }
}

proof fn lemma_sextets_decode(s: Seq<u8>, k: int)
    requires
        0 <= k < s.len(),
    ensures
        byte_of_sextets(sextets(s), k) == s[k],
    decreases s.len(),
{
    lemma_sextets_shape(s);
    let f = first_sextets(s);
    let v = sextets(s);
    if k < 3 {
        let q = 4 * (k / 3);
        assert(q == 0);
        assert(v[0] == f[0]);
        assert(v[1] == f[1]);
        if k == 1 {
            assert(v[2] == f[2]);
        }
        if k == 2 {
            assert(v[2] == f[2]);
            assert(v[3] == f[3]);
        }
    } else {
        let rest = after_group(s);
        lemma_sextets_decode(rest, k - 3);
        lemma_sextets_shape(rest);
        let w = sextets(rest);
        assert(rest[k - 3] == s[k]);
        let q = 4 * (k / 3);
        let q2 = 4 * ((k - 3) / 3);
        assert(q == q2 + 4);
        assert((k - 3) % 3 == k % 3);
        assert(f.len() == 4);
        assert forall|j: int| 0 <= j < w.len() implies v[j + 4] == #[trigger] w[j] by {}
        assert(v[q] == w[q2]);
        assert(v[q + 1] == w[q2 + 1]);
        if k % 3 != 0 {
            assert(v[q + 2] == w[q2 + 2]);
        }
        if k % 3 == 2 {
            assert(v[q + 3] == w[q2 + 3]);
        }
    }
}

proof fn lemma_read_written(v: Seq<int>, tail: Seq<char>)
    requires
        forall|i: int| 0 <= i < v.len() ==> 0 <= #[trigger] v[i] < 64,
        tail.len() == 0 || tail[0] == '=',
    ensures
        read_sextets(sextet_chars(v, Alphabet::Standard) + tail) == v,
    decreases v.len(),
{
    let t = sextet_chars(v, Alphabet::Standard) + tail;
    if v.len() == 0 {
        assert(t =~= tail);
        assert(read_sextets(t) =~= v);
    } else {
        let rest = v.drop_first();
        assert forall|i: int| 0 <= i < rest.len() implies 0 <= #[trigger] rest[i] < 64 by {
            assert(rest[i] == v[i + 1]);
        }
        lemma_read_written(rest, tail);
        assert(t.drop_first() =~= sextet_chars(rest, Alphabet::Standard) + tail);
        assert(0 <= v[0] < 64);
        assert(t[0] == sextet_char(v[0], Alphabet::Standard));
        assert(sextet_value(t[0]) == Some(v[0]));
        assert(t[0] != '=');
        assert(read_sextets(t) =~= v);
    }
}

/// Bytes of any number are read back from their padded and from their bare
/// text.
pub proof fn bytes_round_trip(s: Seq<u8>)
    ensures
        bytes_of_sextets(read_sextets(base64_text(s, Alphabet::Standard) + padding(s.len()))) == s,
        bytes_of_sextets(read_sextets(base64_text(s, Alphabet::Standard))) == s,
{
    let v = sextets(s);
    lemma_sextets_shape(s);
    lemma_read_written(v, padding(s.len()));
    lemma_read_written(v, Seq::empty());
    assert(base64_text(s, Alphabet::Standard) + Seq::<char>::empty() =~= base64_text(
        s,
        Alphabet::Standard,
    ));
    assert forall|k: int| 0 <= k < s.len() implies byte_of_sextets(v, k) == s[k] by {
        lemma_sextets_decode(s, k);
    }
    assert(bytes_of_sextets(v) =~= s);
}

/// A key of 32 bytes is read back from its padded and from its bare text.
pub proof fn key_round_trips(key: Seq<u8>)
    requires
        key.len() == 32,
    ensures
        decoded_key(base64_text(key, Alphabet::Standard) + padding(32)) == Some(key),
        decoded_key(base64_text(key, Alphabet::Standard)) == Some(key),
{
    bytes_round_trip(key);
}

/// The bare text has four characters for every three bytes, rounded up; with
/// padding its length is a multiple of four.
pub proof fn base64_length(s: Seq<u8>)
    ensures
        base64_text(s, Alphabet::Standard).len() == (s.len() * 4 + 2) / 3,
        (base64_text(s, Alphabet::Standard) + padding(s.len())).len() == (s.len() + 2) / 3 * 4,
{
    lemma_sextets_shape(s);
}

/// The two alphabets differ in the last two characters only.
pub proof fn alphabets_agree_below_62(v: int)
    requires
        0 <= v < 62,
    ensures
        sextet_char(v, Alphabet::Standard) == sextet_char(v, Alphabet::Url),
{
}

/// The characters of Base64 in order: capital letters, small letters, digits, and
/// two that the alphabets differ in. The value of a character is its place.
pub proof fn characters_stand_in_order(v: int, alphabet: Alphabet)
    requires
        0 <= v < 64,
    ensures
        v < 26 ==> sextet_char(v, alphabet) as int == 'A' as int + v,
        26 <= v < 52 ==> sextet_char(v, alphabet) as int == 'a' as int + v - 26,
        52 <= v < 62 ==> sextet_char(v, alphabet) as int == '0' as int + v - 52,
        sextet_char(62, Alphabet::Standard) == '+' && sextet_char(63, Alphabet::Standard) == '/',
        sextet_char(62, Alphabet::Url) == '-' && sextet_char(63, Alphabet::Url) == '_',
        sextet_value(sextet_char(v, Alphabet::Standard)) == Some(v),
        sextet_value('=') is None && sextet_value('-') is None && sextet_value('_') is None,
{
}

/// Three bytes and the four characters that they become are the same number of
/// 24 bits.
pub proof fn three_bytes_become_four_characters(a: u8, b: u8, c: u8, rest: Seq<u8>)
    ensures
        ({
            let v = sextets(seq![a, b, c] + rest);
            &&& v.len() == 4 + sextets(rest).len()
            &&& 0 <= v[0] < 64 && 0 <= v[1] < 64 && 0 <= v[2] < 64 && 0 <= v[3] < 64
            &&& v[0] * 0x4_0000 + v[1] * 0x1000 + v[2] * 0x40 + v[3] == a * 0x1_0000 + b * 0x100 + c
            &&& v.skip(4) == sextets(rest)
        }),
        sextets(seq![a]).len() == 2,
        sextets(seq![a])[0] * 64 + sextets(seq![a])[1] == a * 16,
        sextets(seq![a, b]).len() == 3,
        sextets(seq![a, b])[0] * 0x1000 + sextets(seq![a, b])[1] * 64 + sextets(seq![a, b])[2] == (a
            * 0x100 + b) * 4,
{
    let s = seq![a, b, c] + rest;
    assert(after_group(s) =~= rest);
    assert(sextets(s).skip(4) =~= sextets(rest));
    assert(sextets(after_group(seq![a])) =~= Seq::<int>::empty());
    assert(sextets(after_group(seq![a, b])) =~= Seq::<int>::empty());
    let (x, y, z) = (a as int, b as int, c as int);
    assert(x / 4 * 4 + x % 4 == x && y / 16 * 16 + y % 16 == y && z / 64 * 64 + z % 64 == z);
}

/// Padding fills the last group of four characters, with equals signs alone.
pub proof fn padding_fills_the_last_group(n: nat)
    ensures
        n % 3 == 0 ==> padding(n).len() == 0,
        n % 3 == 1 ==> padding(n) == seq!['=', '='],
        n % 3 == 2 ==> padding(n) == seq!['='],
{
}

} // verus!
