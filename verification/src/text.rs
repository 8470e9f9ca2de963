//! Text as sequences of characters: building, searching and splitting.
use vstd::arithmetic::power2::{lemma2_to64, lemma_pow2_unfold, pow2};
use vstd::prelude::*;
use vstd::string::StringExecFns;
use vstd::std_specs::iter::IteratorSpec;

verus! {

/// `String::push` appends the given character.
pub assume_specification[ String::push ](s: &mut String, c: char)
    ensures
        final(s)@ == old(s)@.push(c),
;

/// What `str::to_lowercase` returns for a text.
pub uninterp spec fn lowercase_of(s: Seq<char>) -> Seq<char>;

/// `str::to_lowercase`: a function of the text alone. Of its result no more
/// is stated than that a text of ASCII characters keeps its length and has
/// its capital letters replaced.
#[verifier::external_body]
pub(crate) fn to_lowercase(s: &str) -> (r: String)
    ensures
        r@ == lowercase_of(s@),
        vstd::utf8::is_ascii_chars(s@) ==> r@ == Seq::new(s@.len(), |i: int| ascii_lower(s@[i])),
{
    s.to_lowercase()
}

/// The lower-case letter for a capital ASCII letter; any other character is
/// left alone.
pub open spec fn ascii_lower(c: char) -> char {
    if 'A' <= c <= 'Z' {
        (c as u8 + 32) as char
    } else {
        c
    }
}

/// Whether `needle` stands in `hay` at place `i`.
pub open spec fn stands_at(hay: Seq<char>, needle: Seq<char>, i: int) -> bool {
    0 <= i && i + needle.len() <= hay.len() && hay.subrange(i, i + needle.len()) == needle
}

/// Whether `needle` occurs in `hay`.
pub open spec fn occurs(hay: Seq<char>, needle: Seq<char>) -> bool {
    exists|i: int| stands_at(hay, needle, i)
}

/// Whether `i` is the first place at which `needle` stands in `hay`.
pub open spec fn first_at(hay: Seq<char>, needle: Seq<char>, i: int) -> bool {
    stands_at(hay, needle, i) && forall|j: int| 0 <= j < i ==> !stands_at(hay, needle, j)
}

/// The characters of a text.
pub fn chars_of(s: &str) -> (r: Vec<char>)
    ensures
        r@ == s@,
{
    let mut r: Vec<char> = Vec::new();
    for c in it: s.chars()
        invariant
            r@ == it.seq().take(it.index() as int),
            it.seq() == s@,
    {
        r.push(c);
        assert(it.seq().take(it.index() + 1) =~= it.seq().take(it.index() as int).push(c));
    }
    assert(s@.take(s@.len() as int) =~= s@);
    r
}

/// Appends the characters from `from` up to `to`.
pub fn push_chars(out: &mut String, chars: &Vec<char>, from: usize, to: usize)
    requires
        from <= to <= chars@.len(),
    ensures
        final(out)@ == old(out)@ + chars@.subrange(from as int, to as int),
{
    let ghost before: Seq<char> = out@;
    let mut i: usize = from;
    assert(before + chars@.subrange(from as int, from as int) =~= before);
    while i < to
        invariant
            from <= i <= to <= chars@.len(),
            out@ == before + chars@.subrange(from as int, i as int),
        decreases to - i,
    {
        out.push(chars[i]);
        i = i + 1;
        assert(out@ =~= before + chars@.subrange(from as int, i as int));
    }
}

/// The text of the characters from `from` up to `to`.
pub fn text_of(chars: &Vec<char>, from: usize, to: usize) -> (r: String)
    requires
        from <= to <= chars@.len(),
    ensures
        r@ == chars@.subrange(from as int, to as int),
{
    let mut r: String = String::new();
    push_chars(&mut r, chars, from, to);
    assert(r@ =~= chars@.subrange(from as int, to as int));
    r
}

/// A copy of a text.
pub fn owned(s: &str) -> (r: String)
    ensures
        r@ == s@,
{
    s.to_owned()
}

/// Whether two texts are equal.
pub fn same_text(a: &str, b: &str) -> (r: bool)
    ensures
        r == (a@ == b@),
{
    let x: Vec<char> = chars_of(a);
    let y: Vec<char> = chars_of(b);
    same_chars(&x, &y)
}

fn same_chars(x: &Vec<char>, y: &Vec<char>) -> (r: bool)
    ensures
        r == (x@ == y@),
{
    if x.len() != y.len() {
        return false;
    }
    stands(x, y, 0)
}

/// Whether `needle` stands in `hay` at place `at`.
pub fn stands(hay: &Vec<char>, needle: &Vec<char>, at: usize) -> (r: bool)
    requires
        at <= hay@.len(),
    ensures
        r == stands_at(hay@, needle@, at as int),
        at == 0 && hay@.len() == needle@.len() ==> r == (hay@ == needle@),
{
    let hay_len: usize = hay.len();
    if needle.len() > hay_len - at {
        return false;
    }
    let mut i: usize = 0;
    while i < needle.len()
        invariant
            hay_len == hay@.len(),
            at <= hay@.len(),
            needle@.len() <= hay@.len() - at,
            i <= needle@.len(),
            forall|j: int| 0 <= j < i ==> hay@[at + j] == needle@[j],
        decreases needle@.len() - i,
    {
        if hay[at + i] != needle[i] {
            assert(hay@.subrange(at as int, at + needle@.len())[i as int] != needle@[i as int]);
            return false;
        }
        i = i + 1;
    }
    assert(hay@.subrange(at as int, at + needle@.len()) =~= needle@);
    assert(hay@.len() == needle@.len() && at == 0 ==> hay@ =~= needle@);
    true
}

/// The first place at or after `from` at which `needle` stands.
pub fn find_from(hay: &Vec<char>, needle: &Vec<char>, from: usize) -> (r: Option<usize>)
    ensures
        match r {
            Some(i) => from <= i && stands_at(hay@, needle@, i as int) && forall|j: int|
                from <= j < i ==> !stands_at(hay@, needle@, j),
            None => forall|j: int| from <= j ==> !stands_at(hay@, needle@, j),
        },
{
    let mut i: usize = from;
    while i <= hay.len() && needle.len() <= hay.len() - i
        invariant
            from <= i,
            forall|j: int| from <= j < i ==> !stands_at(hay@, needle@, j),
        decreases hay@.len() + 1 - i,
    {
        if stands(hay, needle, i) {
            return Some(i);
        }
        if i == hay.len() {
            assert forall|j: int| from <= j implies !stands_at(hay@, needle@, j) by {}
            return None;
        }
        i = i + 1;
    }
    assert forall|j: int| from <= j implies !stands_at(hay@, needle@, j) by {}
    None
}

/// The first place at which `needle` stands.
pub fn find(hay: &Vec<char>, needle: &Vec<char>) -> (r: Option<usize>)
    ensures
        match r {
            Some(i) => first_at(hay@, needle@, i as int) && i <= hay@.len(),
            None => !occurs(hay@, needle@),
        },
{
    find_from(hay, needle, 0)
}

/// Where `needle` first stands in `hay`; the length of `hay` where it does
/// not.
pub open spec fn place_of(hay: Seq<char>, needle: Seq<char>) -> int
    decreases hay.len(),
{
    if hay.len() == 0 || stands_at(hay, needle, 0) {
        0
    } else {
        1 + place_of(hay.drop_first(), needle)
    }
}

proof fn lemma_stands_shift(hay: Seq<char>, needle: Seq<char>, i: int)
    requires
        i > 0,
        hay.len() > 0,
    ensures
        stands_at(hay, needle, i) == stands_at(hay.drop_first(), needle, i - 1),
{
    if i + needle.len() <= hay.len() {
        assert(hay.subrange(i, i + needle.len()) =~= hay.drop_first().subrange(
            i - 1,
            i - 1 + needle.len(),
        ));
    }
}

/// The first place at which a text stands is `place_of`.
pub proof fn lemma_place_of_first(hay: Seq<char>, needle: Seq<char>, i: int)
    requires
        first_at(hay, needle, i),
        needle.len() > 0,
    ensures
        place_of(hay, needle) == i,
    decreases hay.len(),
{
    if i > 0 {
        assert(!stands_at(hay, needle, 0));
        lemma_stands_shift(hay, needle, i);
        assert forall|j: int| 0 <= j < i - 1 implies !stands_at(hay.drop_first(), needle, j) by {
            lemma_stands_shift(hay, needle, j + 1);
        }
        lemma_place_of_first(hay.drop_first(), needle, i - 1);
    }
}

/// Where a text does not occur, `place_of` is the length.
pub proof fn lemma_place_of_none(hay: Seq<char>, needle: Seq<char>)
    requires
        !occurs(hay, needle),
        needle.len() > 0,
    ensures
        place_of(hay, needle) == hay.len(),
    decreases hay.len(),
{
    if hay.len() > 0 {
        assert(!stands_at(hay, needle, 0));
        assert forall|j: int| !stands_at(hay.drop_first(), needle, j) by {
            if j >= 0 {
                lemma_stands_shift(hay, needle, j + 1);
                assert(!stands_at(hay, needle, j + 1));
            }
        }
        lemma_place_of_none(hay.drop_first(), needle);
    }
}

/// Where `needle` first stands in `hay`; the length of `hay` where it does
/// not.
pub fn find_place(hay: &Vec<char>, needle: &Vec<char>) -> (r: usize)
    requires
        needle@.len() > 0,
    ensures
        r == place_of(hay@, needle@),
        r <= hay@.len(),
        r < hay@.len() ==> stands_at(hay@, needle@, r as int),
        r == hay@.len() ==> !occurs(hay@, needle@),
{
    match find(hay, needle) {
        Some(i) => {
            proof {
                lemma_place_of_first(hay@, needle@, i as int);
            }
            i
        },
        None => {
            proof {
                lemma_place_of_none(hay@, needle@);
            }
            hay.len()
        },
    }
}

/// Whether `needle` occurs in `hay`.
pub fn contains(hay: &str, needle: &str) -> (r: bool)
    ensures
        r == occurs(hay@, needle@),
{
    let h: Vec<char> = chars_of(hay);
    let n: Vec<char> = chars_of(needle);
    find(&h, &n).is_some()
}

/// Whether `hay` starts with `prefix`.
pub fn starts_with(hay: &str, prefix: &str) -> (r: bool)
    ensures
        r == stands_at(hay@, prefix@, 0),
{
    let h: Vec<char> = chars_of(hay);
    let n: Vec<char> = chars_of(prefix);
    stands(&h, &n, 0)
}

/// Whether `hay` ends with `suffix`.
pub fn ends_with(hay: &str, suffix: &str) -> (r: bool)
    ensures
        r == stands_at(hay@, suffix@, hay@.len() - suffix@.len()),
{
    let h: Vec<char> = chars_of(hay);
    let n: Vec<char> = chars_of(suffix);
    if n.len() > h.len() {
        return false;
    }
    stands(&h, &n, h.len() - n.len())
}

/// Where a character first stands in a text; the length of the text where it
/// does not occur.
pub open spec fn index_of(s: Seq<char>, c: char) -> int
    decreases s.len(),
{
    if s.len() == 0 || s[0] == c {
        0
    } else {
        1 + index_of(s.drop_first(), c)
    }
}

/// `index_of` is the first place of the character, or the length.
pub proof fn lemma_index_of(s: Seq<char>, c: char)
    ensures
        0 <= index_of(s, c) <= s.len(),
        index_of(s, c) < s.len() ==> s[index_of(s, c)] == c,
        forall|j: int| 0 <= j < index_of(s, c) ==> s[j] != c,
    decreases s.len(),
{
    if s.len() > 0 && s[0] != c {
        lemma_index_of(s.drop_first(), c);
        assert forall|j: int| 0 <= j < index_of(s, c) implies s[j] != c by {
            if j > 0 {
                assert(s.drop_first()[j - 1] == s[j]);
            }
        }
    }
}

/// A place with the two properties of `index_of` is `index_of`.
pub proof fn lemma_index_of_is(s: Seq<char>, c: char, i: int)
    requires
        0 <= i <= s.len(),
        i < s.len() ==> s[i] == c,
        forall|j: int| 0 <= j < i ==> s[j] != c,
    ensures
        index_of(s, c) == i,
{
    lemma_index_of(s, c);
    if index_of(s, c) < i {
        assert(s[index_of(s, c)] != c);
    }
}

/// Where a character first stands at or after `from`; the length of the text
/// where it does not.
pub fn find_char(s: &Vec<char>, c: char, from: usize) -> (r: usize)
    requires
        from <= s@.len(),
    ensures
        r == from + index_of(s@.subrange(from as int, s@.len() as int), c),
        from <= r <= s@.len(),
        r < s@.len() ==> s@[r as int] == c,
        forall|j: int| from <= j < r ==> s@[j] != c,
{
    let mut i: usize = from;
    while i < s.len() && s[i] != c
        invariant
            from <= i <= s@.len(),
            forall|j: int| from <= j < i ==> s@[j] != c,
        decreases s@.len() - i,
    {
        i = i + 1;
    }
    proof {
        lemma_index_of_is(s@.subrange(from as int, s@.len() as int), c, i - from);
    }
    i
}

/// A decimal digit.
pub open spec fn digit(d: nat) -> char {
    (('0' as nat + d) as u32) as char
}

/// A number in decimal.
pub open spec fn decimal(n: nat) -> Seq<char>
    decreases n,
{
    if n < 10 {
        seq![digit(n)]
    } else {
        decimal(n / 10).push(digit(n % 10))
    }
}

fn digit_char(d: u64) -> (r: char)
    requires
        d < 10,
    ensures
        r == digit(d as nat),
{
    (48 + d as u8) as char
}

/// Appends a number in decimal.
pub fn push_decimal(out: &mut String, n: u64)
    ensures
        final(out)@ == old(out)@ + decimal(n as nat),
    decreases n,
{
    let ghost before: Seq<char> = out@;
    if n >= 10 {
        push_decimal(out, n / 10);
    } else {
        assert(out@ + seq![digit(n as nat)] =~= out@.push(digit(n as nat)));
    }
    out.push(digit_char(n % 10));
    assert(out@ =~= before + decimal(n as nat));
}

/// The lower-case hexadecimal digit of a number under 16.
pub open spec fn hex_digit(d: u8) -> char {
    if d < 10 {
        (48 + d) as u8 as char
    } else {
        (87 + d) as u8 as char
    }
}

/// The upper-case hexadecimal digit of a number under 16.
pub open spec fn hex_digit_upper(d: u8) -> char {
    if d < 10 {
        (48 + d) as u8 as char
    } else {
        (55 + d) as u8 as char
    }
}

/// The lower-case hexadecimal digit of a number under 16.
pub fn hex_char(d: u8) -> (r: char)
    requires
        d < 16,
    ensures
        r == hex_digit(d),
{
    if d < 10 {
        (48 + d) as char
    } else {
        (87 + d) as char
    }
}

/// The upper-case hexadecimal digit of a number under 16.
pub fn hex_char_upper(d: u8) -> (r: char)
    requires
        d < 16,
    ensures
        r == hex_digit_upper(d),
{
    if d < 10 {
        (48 + d) as char
    } else {
        (55 + d) as char
    }
}

/// Bytes in lower-case hexadecimal, two digits each.
pub open spec fn hex_text(s: Seq<u8>) -> Seq<char> {
    Seq::new(
        2 * s.len(),
        |i: int| if i % 2 == 0 { hex_digit(s[i / 2] / 16) } else { hex_digit(s[i / 2] % 16) },
    )
}

/// Bytes in upper-case hexadecimal, two digits each.
pub open spec fn hex_text_upper(s: Seq<u8>) -> Seq<char> {
    Seq::new(
        2 * s.len(),
        |i: int|
            if i % 2 == 0 {
                hex_digit_upper(s[i / 2] / 16)
            } else {
                hex_digit_upper(s[i / 2] % 16)
            },
    )
}

/// Bytes in lower-case hexadecimal.
pub fn hex_lower(data: &[u8]) -> (r: String)
    ensures
        r@ == hex_text(data@),
{
    let mut r: String = String::new();
    let mut i: usize = 0;
    while i < data.len()
        invariant
            i <= data@.len(),
            r@ == hex_text(data@.subrange(0, i as int)),
        decreases data@.len() - i,
    {
        r.push(hex_char(data[i] / 16));
        r.push(hex_char(data[i] % 16));
        i = i + 1;
        assert(r@ =~= hex_text(data@.subrange(0, i as int)));
    }
    assert(data@.subrange(0, i as int) =~= data@);
    r
}

/// Bytes in upper-case hexadecimal.
pub fn hex_upper(data: &[u8]) -> (r: String)
    ensures
        r@ == hex_text_upper(data@),
{
    let mut r: String = String::new();
    let mut i: usize = 0;
    while i < data.len()
        invariant
            i <= data@.len(),
            r@ == hex_text_upper(data@.subrange(0, i as int)),
        decreases data@.len() - i,
    {
        r.push(hex_char_upper(data[i] / 16));
        r.push(hex_char_upper(data[i] % 16));
        i = i + 1;
        assert(r@ =~= hex_text_upper(data@.subrange(0, i as int)));
    }
    assert(data@.subrange(0, i as int) =~= data@);
    r
}

/// The length of a character in UTF-8.
pub open spec fn utf8_len(c: char) -> nat {
    if (c as u32) < 0x80 {
        1
    } else if (c as u32) < 0x800 {
        2
    } else if (c as u32) < 0x10000 {
        3
    } else {
        4
    }
}

/// The length of a text in UTF-8.
pub open spec fn byte_len(s: Seq<char>) -> nat
    decreases s.len(),
{
    if s.len() == 0 {
        0
    } else {
        byte_len(s.drop_last()) + utf8_len(s.last())
    }
}

/// A text has at least as many bytes as characters, and a longer prefix has
/// more bytes.
pub proof fn lemma_byte_len_grows(s: Seq<char>, i: int, j: int)
    requires
        0 <= i <= j <= s.len(),
    ensures
        byte_len(s.take(i)) + (j - i) <= byte_len(s.take(j)),
        byte_len(s.take(j)) <= byte_len(s.take(i)) + 4 * (j - i),
    decreases j - i,
{
    if i < j {
        lemma_byte_len_grows(s, i, j - 1);
        assert(s.take(j).drop_last() =~= s.take(j - 1));
    }
}

/// The number of characters that make up the first `bytes` bytes of a text,
/// where a character ends there.
pub fn chars_in_bytes(s: &Vec<char>, bytes: usize) -> (r: Option<usize>)
    requires
        bytes <= 64,
    ensures
        match r {
            Some(n) => n <= s@.len() && n <= bytes && byte_len(s@.take(n as int)) == bytes,
            None => forall|n: int| 0 <= n <= s@.len() ==> byte_len(#[trigger] s@.take(n)) != bytes,
        },
{
    let mut n: usize = 0;
    let mut sum: usize = 0;
    assert(byte_len(s@.take(0)) == 0);
    while sum < bytes && n < s.len()
        invariant
            n <= s@.len(),
            n <= sum,
            sum <= 68,
            bytes <= 64,
            sum == byte_len(s@.take(n as int)),
            forall|m: int| 0 <= m < n ==> byte_len(#[trigger] s@.take(m)) < bytes,
        decreases s@.len() - n,
    {
        let c: u32 = s[n] as u32;
        let len: usize = if c < 0x80 {
            1
        } else if c < 0x800 {
            2
        } else if c < 0x10000 {
            3
        } else {
            4
        };
        assert(s@.take(n + 1).drop_last() =~= s@.take(n as int));
        sum = sum + len;
        n = n + 1;
    }
    if sum == bytes {
        return Some(n);
    }
    assert forall|m: int| 0 <= m <= s@.len() implies byte_len(#[trigger] s@.take(m)) != bytes by {
        if m > n {
            lemma_byte_len_grows(s@, n as int, m);
        }
    }
    None
}

/// Two decimal digits, or more where the number needs them.
pub open spec fn padded2(n: nat) -> Seq<char> {
    if n < 10 {
        seq!['0', digit(n)]
    } else {
        decimal(n)
    }
}

/// Appends a number with at least two digits.
pub fn push_padded2(out: &mut String, n: u64)
    ensures
        final(out)@ == old(out)@ + padded2(n as nat),
{
    let ghost before: Seq<char> = out@;
    if n < 10 {
        out.push('0');
        out.push(digit_char(n));
        assert(out@ =~= before + padded2(n as nat));
    } else {
        push_decimal(out, n);
    }
}

/// Sixteen bits as `0x` and four lower-case hexadecimal digits.
pub open spec fn hex16(x: u16) -> Seq<char> {
    "0x"@ + hex_text(crate::wire::be16_bytes(x))
}

/// Sixteen bits as `0x` and four lower-case hexadecimal digits.
pub fn hex16_text(x: u16) -> (r: String)
    ensures
        r@ == hex16(x),
{
    let mut bytes: Vec<u8> = Vec::new();
    crate::wire::push_be16(&mut bytes, x);
    assert(bytes@ =~= crate::wire::be16_bytes(x));
    let mut r: String = owned("0x");
    let digits: String = hex_lower(bytes.as_slice());
    r.append(digits.as_str());
    r
}

/// A copy of an optional text.
pub fn copy_text(s: &Option<String>) -> (r: Option<String>)
    ensures
        opt_view(r) == opt_view(*s),
{
    match s {
        Some(t) => Some(owned(t.as_str())),
        None => None,
    }
}

/// The contents of an optional text.
pub open spec fn opt_view(s: Option<String>) -> Option<Seq<char>> {
    match s {
        Some(t) => Some(t@),
        None => None,
    }
}

/// The texts of a list of strings.
pub open spec fn views(v: Seq<String>) -> Seq<Seq<char>> {
    Seq::new(v.len(), |i: int| v[i]@)
}

/// The texts of a list of string slices.
pub open spec fn str_views(v: Seq<&str>) -> Seq<Seq<char>> {
    Seq::new(v.len(), |i: int| v[i]@)
}

/// Owned copies of a list of texts.
pub fn owned_all(v: &[&str]) -> (r: Vec<String>)
    ensures
        views(r@) == str_views(v@),
{
    let mut r: Vec<String> = Vec::new();
    let mut i: usize = 0;
    while i < v.len()
        invariant
            i <= v@.len(),
            r@.len() == i,
            forall|j: int| 0 <= j < i ==> r@[j]@ == v@[j]@,
        decreases v@.len() - i,
    {
        r.push(owned(v[i]));
        i = i + 1;
    }
    assert(views(r@) =~= str_views(v@));
    r
}

/// What `quoted` makes of a text.
pub uninterp spec fn quoted_text(s: Seq<char>) -> Seq<char>;

/// Whether a text is made of letters, digits, `_`, `=` and `.` of ASCII.
pub open spec fn plain(s: Seq<char>) -> bool {
    forall|i: int|
        0 <= i < s.len() ==> {
            let c = #[trigger] s[i];
            ('a' <= c <= 'z') || ('A' <= c <= 'Z') || ('0' <= c <= '9') || c == '_' || c == '='
                || c == '.'
        }
}

/// A text in double quotes, with what needs it escaped, as std's `Debug` for
/// `str` writes it. A text of plain characters is only put in quotes.
#[verifier::external_body]
pub(crate) fn quoted(s: &str) -> (r: String)
    ensures
        r@ == quoted_text(s@),
        plain(s@) ==> r@ == seq!['"'] + s@ + seq!['"'],
{
    format!("{:?}", s)
}

/// An optional text as std's `Debug` writes it.
pub open spec fn optional_text(s: Option<Seq<char>>) -> Seq<char> {
    match s {
        Some(t) => "Some("@ + quoted_text(t) + ")"@,
        None => "None"@,
    }
}

/// An optional text as std's `Debug` writes it.
pub fn optional(s: &Option<String>) -> (r: String)
    ensures
        r@ == optional_text(opt_view(*s)),
{
    match s {
        Some(t) => {
            let mut r: String = owned("Some(");
            let q: String = quoted(t.as_str());
            r.append(q.as_str());
            r.append(")");
            r
        },
        None => owned("None"),
    }
}

/// A quotient rounded to the nearest whole number, halves to the even one.
pub open spec fn half_even(a: nat, b: nat) -> nat {
    if 2 * (a % b) < b || (2 * (a % b) == b && (a / b) % 2 == 0) {
        a / b
    } else {
        a / b + 1
    }
}

/// How many binary places a double spends on a number of millionths: as many as
/// leave its 53 bits room for the whole number.
pub open spec fn binary_places(millionths: nat) -> nat
    decreases 0x20_0000_0000_0000 * 1_000_000 - millionths,
{
    if millionths == 0 || 2 * millionths >= 0x20_0000_0000_0000 * 1_000_000 {
        0
    } else {
        1 + binary_places(2 * millionths)
    }
}

/// The nearest double to a number of millionths, as a multiple of its last
/// binary place.
pub open spec fn nearest_double(millionths: nat) -> nat {
    half_even(millionths * pow2(binary_places(millionths)), 1_000_000)
}

/// A number of millionths, as a double, in hundredths.
pub open spec fn to_hundredths(millionths: nat) -> nat {
    half_even(100 * nearest_double(millionths), pow2(binary_places(millionths)))
}

/// A number of millionths as a decimal with two places, as std writes the
/// nearest double.
pub open spec fn hundredths(millionths: nat) -> Seq<char> {
    let h = to_hundredths(millionths);
    decimal(h / 100) + "."@ + padded2(h % 100)
}

fn round_half_even(a: u128, b: u128) -> (r: u128)
    requires
        0 < b <= u128::MAX / 2,
        a < u128::MAX,
    ensures
        r == half_even(a as nat, b as nat),
        r <= a + 1,
{
    let q: u128 = a / b;
    let rest: u128 = a % b;
    assert(q <= a && rest < b) by (nonlinear_arith)
        requires
            b > 0,
            q == a / b,
            rest == a % b,
    ;
    if 2 * rest < b || (2 * rest == b && q % 2 == 0) {
        q
    } else {
        q + 1
    }
}

/// A number of millionths, as a double, in hundredths.
fn count_hundredths(millionths: u64) -> (r: u64)
    ensures
        r == to_hundredths(millionths as nat),
{
    let limit: u128 = 0x20_0000_0000_0000 * 1_000_000;
    let mut num: u128 = millionths as u128;
    let mut unit: u128 = 1;
    let ghost mut places: nat = 0;
    proof {
        lemma2_to64();
    }
    while num != 0 && 2 * num < limit
        invariant
            limit == 0x20_0000_0000_0000 * 1_000_000,
            num < limit,
            num == millionths * unit,
            unit == pow2(places),
            unit >= 1,
            num == 0 ==> unit == 1,
            num != 0 ==> unit <= num,
            binary_places(millionths as nat) == places + binary_places(num as nat),
        decreases limit - num,
    {
        proof {
            lemma_pow2_unfold(places + 1);
            places = places + 1;
            assert(2 * num == millionths * (2 * unit)) by (nonlinear_arith)
                requires
                    num == millionths * unit,
            ;
        }
        num = 2 * num;
        unit = 2 * unit;
    }
    let nearest: u128 = round_half_even(num, 1_000_000);
    assert(nearest <= 0x20_0000_0000_0000) by {
        assert(num as nat / 1_000_000 < 0x20_0000_0000_0000);
    }
    let h: u128 = round_half_even(100 * nearest, unit);
    h as u64
}

/// Appends a number of millionths as a decimal with two places.
pub fn push_hundredths(out: &mut String, millionths: u64)
    ensures
        final(out)@ == old(out)@ + hundredths(millionths as nat),
{
    let ghost before: Seq<char> = out@;
    let h: u64 = count_hundredths(millionths);
    push_decimal(out, h / 100);
    out.append(".");
    push_padded2(out, h % 100);
    assert(out@ =~= before + hundredths(millionths as nat));
}

/// A number in decimal, with its sign where it is negative.
pub open spec fn signed_decimal(n: int) -> Seq<char> {
    if n < 0 {
        "-"@ + decimal((-n) as nat)
    } else {
        decimal(n as nat)
    }
}

/// Appends a number in decimal, with its sign where it is negative.
pub fn push_signed(out: &mut String, n: i64)
    ensures
        final(out)@ == old(out)@ + signed_decimal(n as int),
{
    let ghost before: Seq<char> = out@;
    if n < 0 {
        out.append("-");
        push_decimal(out, (-(n as i128)) as u64);
    } else {
        push_decimal(out, n as u64);
    }
    assert(out@ =~= before + signed_decimal(n as int));
}

/// Digits have their characters: decimal ones from `0` on, hexadecimal ones from
/// `a` or `A` on after nine.
pub proof fn digits_have_their_characters(d: u8)
    requires
        d < 16,
    ensures
        d < 10 ==> digit(d as nat) as int == '0' as int + d,
        d < 10 ==> hex_digit(d) as int == '0' as int + d && hex_digit_upper(d) == hex_digit(d),
        d >= 10 ==> hex_digit(d) as int == 'a' as int + d - 10,
        d >= 10 ==> hex_digit_upper(d) as int == 'A' as int + d - 10,
{
}

/// A byte is written as two digits, the high half first.
pub proof fn bytes_are_two_digits(s: Seq<u8>, b: u8)
    requires
        s.len() < 0x1000_0000,
    ensures
        hex_text(Seq::empty()) == Seq::<char>::empty(),
        hex_text_upper(Seq::empty()) == Seq::<char>::empty(),
        hex_text(s.push(b)) == hex_text(s).push(hex_digit((b / 16) as u8)).push(
            hex_digit((b % 16) as u8),
        ),
        hex_text_upper(s.push(b)) == hex_text_upper(s).push(hex_digit_upper((b / 16) as u8)).push(
            hex_digit_upper((b % 16) as u8),
        ),
{
    let t = s.push(b);
    assert(hex_text(Seq::empty()) =~= Seq::<char>::empty());
    assert(hex_text_upper(Seq::empty()) =~= Seq::<char>::empty());
    assert(hex_text(t) =~= hex_text(s).push(hex_digit((b / 16) as u8)).push(
        hex_digit((b % 16) as u8),
    ));
    assert(hex_text_upper(t) =~= hex_text_upper(s).push(hex_digit_upper((b / 16) as u8)).push(
        hex_digit_upper((b % 16) as u8),
    ));
}

/// The decimal form of a number ends in its last digit; what stands before it is
/// the decimal form of the rest. It has no leading zero.
pub proof fn numbers_end_in_their_last_digit(n: nat)
    ensures
        decimal(n).len() > 0,
        decimal(n).last() as int == '0' as int + n % 10,
        n >= 10 ==> decimal(n).drop_last() == decimal(n / 10),
        n < 10 ==> decimal(n).len() == 1,
        n > 0 ==> decimal(n)[0] != '0',
    decreases n,
{
    if n >= 10 {
        numbers_end_in_their_last_digit(n / 10);
        assert(decimal(n).drop_last() =~= decimal(n / 10));
    }
}

/// A quotient is rounded to a nearest whole number, and between two nearest ones
/// to the even one.
pub proof fn quotients_are_rounded_to_the_nearest(a: nat, b: nat)
    requires
        b > 0,
    ensures
        2 * (half_even(a, b) * b) <= 2 * a + b,
        2 * a <= 2 * (half_even(a, b) * b) + b,
        2 * a == 2 * (half_even(a, b) * b) + b || 2 * a + b == 2 * (half_even(a, b) * b)
            ==> half_even(a, b) % 2 == 0,
{
    let q = a / b;
    let r = a % b;
    vstd::arithmetic::div_mod::lemma_fundamental_div_mod(a as int, b as int);
    assert(a == q * b + r && 0 <= r < b) by (nonlinear_arith)
        requires
            a == b * q + r,
            r == a % b,
            b > 0,
    ;
    assert((q + 1) * b == q * b + b) by (nonlinear_arith);
}

/// The length of a character in bytes goes by its number.
pub proof fn characters_take_up_to_four_bytes(c: char)
    ensures
        utf8_len(c) == 1 <==> c as u32 <= 0x7f,
        utf8_len(c) <= 2 <==> c as u32 <= 0x7ff,
        utf8_len(c) <= 3 <==> c as u32 <= 0xffff,
        1 <= utf8_len(c) <= 4,
{
}

/// Numbers under ten get a leading zero, and no others.
pub proof fn small_numbers_get_a_zero(n: nat)
    ensures
        n < 10 ==> padded2(n) == seq!['0'] + decimal(n),
        n >= 10 ==> padded2(n) == decimal(n),
{
    if n < 10 {
        assert(padded2(n) =~= seq!['0'] + decimal(n));
    }
}

/// A text stands in another exactly where it lies between what is before and
/// what is after it.
pub proof fn parts_of_a_text_occur(before: Seq<char>, part: Seq<char>, after: Seq<char>)
    ensures
        stands_at(before + part + after, part, before.len() as int),
        occurs(before + part + after, part),
        occurs(before, part) ==> occurs(before + after, part),
        occurs(after, part) ==> occurs(before + after, part),
        part.len() > after.len() ==> !occurs(after, part),
{
    let whole = before + part + after;
    assert(whole.subrange(before.len() as int, before.len() as int + part.len()) =~= part);
    if occurs(before, part) {
        let i = choose|i: int| stands_at(before, part, i);
        assert((before + after).subrange(i, i + part.len()) =~= part);
        assert(stands_at(before + after, part, i));
    }
    if occurs(after, part) {
        let i = choose|i: int| stands_at(after, part, i);
        let j = before.len() as int + i;
        assert((before + after).subrange(j, j + part.len()) =~= part);
        assert(stands_at(before + after, part, j));
    }
}

/// A number of millionths in hundredths is as near as two roundings allow: the
/// first to the last binary place of a double, the second to a hundredth.
pub proof fn hundredths_are_near(millionths: nat)
    ensures
        ({
            let places = pow2(binary_places(millionths)) as int;
            let off = 20_000 * (to_hundredths(millionths) * places) - 2 * (millionths * places);
            -(10_000 * places + 1_000_000) <= off <= 10_000 * places + 1_000_000
        }),
{
    let places = pow2(binary_places(millionths));
    vstd::arithmetic::power2::lemma_pow2_pos(binary_places(millionths));
    quotients_are_rounded_to_the_nearest(millionths * places, 1_000_000);
    quotients_are_rounded_to_the_nearest(100 * nearest_double(millionths), places);
}

/// A capital ASCII letter becomes the small one, and nothing else changes.
pub proof fn capitals_become_small(c: char)
    ensures
        'A' <= c <= 'Z' ==> ascii_lower(c) as int == c as int - 'A' as int + 'a' as int,
        !('A' <= c <= 'Z') ==> ascii_lower(c) == c,
{
}

/// A negative number has a minus sign before the decimal form of its size; no
/// other has a sign.
pub proof fn only_negative_numbers_have_a_sign(n: nat)
    ensures
        signed_decimal(n as int) == decimal(n),
        n > 0 ==> signed_decimal(-(n as int)) == "-"@ + decimal(n),
{
}

} // verus!
