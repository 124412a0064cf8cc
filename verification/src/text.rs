//! Character-level text handling: the Latin-1 reading of git's output,
//! searching, trimming, splitting into lines and cutting a line at a byte offset.
use vstd::prelude::*;

verus! {

// ------------------------------------------------------------------ specs

/// Each byte read as the character with the same code point.
pub open spec fn latin1(bytes: Seq<u8>) -> Seq<char> {
    bytes.map_values(|b: u8| b as char)
}

/// `s` begins with `p`.
pub open spec fn starts_with(s: Seq<char>, p: Seq<char>) -> bool {
    p.len() <= s.len() && s.subrange(0, p.len() as int) == p
}

/// `needle` occurs in `hay` starting at position `i`.
pub open spec fn occurs_at(hay: Seq<char>, needle: Seq<char>, i: int) -> bool {
    0 <= i && i + needle.len() <= hay.len() && hay.subrange(i, i + needle.len()) == needle
}

/// `needle` occurs somewhere in `hay`.
pub open spec fn contains(hay: Seq<char>, needle: Seq<char>) -> bool {
    exists|i: int| occurs_at(hay, needle, i)
}

/// The characters with the Unicode property White_Space.
pub open spec fn is_white_space(c: char) -> bool {
    let v = c as u32;
    (0x09 <= v && v <= 0x0d) || v == 0x20 || v == 0x85 || v == 0xa0 || v == 0x1680 || (0x2000
        <= v && v <= 0x200a) || v == 0x2028 || v == 0x2029 || v == 0x202f || v == 0x205f || v
        == 0x3000
}

/// `s` without its trailing white space.
pub open spec fn trim_end(s: Seq<char>) -> Seq<char>
    decreases s.len(),
{
    if s.len() > 0 && is_white_space(s.last()) {
        trim_end(s.drop_last())
    } else {
        s
    }
}

/// The pieces of `s` between newline characters; there is always one more
/// piece than there are newlines.
pub open spec fn split_newlines(s: Seq<char>) -> Seq<Seq<char>>
    decreases s.len(),
{
    if s.len() == 0 {
        seq![Seq::<char>::empty()]
    } else {
        let rest = split_newlines(s.drop_last());
        if s.last() == '\n' {
            rest.push(Seq::<char>::empty())
        } else {
            rest.update(rest.len() - 1, rest.last().push(s.last()))
        }
    }
}

/// The lines of `s`: its pieces between newlines, where an empty last piece
/// (after a final newline, or of an empty text) is not a line.
pub open spec fn lines(s: Seq<char>) -> Seq<Seq<char>> {
    let pieces = split_newlines(s);
    if pieces.last().len() == 0 {
        pieces.drop_last()
    } else {
        pieces
    }
}

/// The number of bytes that UTF-8 uses for `c`.
pub open spec fn utf8_width(c: char) -> nat {
    let v = c as u32;
    if v < 0x80 {
        1
    } else if v < 0x800 {
        2
    } else if v < 0x10000 {
        3
    } else {
        4
    }
}

/// The number of characters of `l` that fill exactly its first `b` bytes in
/// UTF-8, if a character ends at byte `b`.
pub open spec fn chars_in_bytes(l: Seq<char>, b: int) -> Option<nat>
    decreases l.len(),
{
    if b == 0 {
        Some(0)
    } else if l.len() == 0 || b < 0 {
        None
    } else {
        match chars_in_bytes(l.drop_first(), b - utf8_width(l[0])) {
            Some(k) => Some(k + 1),
            None => None,
        }
    }
}

/// A character of `l` ends at its third byte in UTF-8.
pub open spec fn splits_at_byte3(l: Seq<char>) -> bool {
    chars_in_bytes(l, 3) is Some
}

/// What follows the third byte of `l` in UTF-8.
pub open spec fn after_byte3(l: Seq<char>) -> Seq<char>
    recommends
        splits_at_byte3(l),
{
    l.skip(chars_in_bytes(l, 3)->0 as int)
}

// ------------------------------------------------------------------ std glue

/// `String::push`: appends one character.
#[verifier::external_body]
fn string_push(s: &mut String, c: char)
    ensures
        final(s)@ == old(s)@.push(c),
{
    s.push(c);
}

// ------------------------------------------------------------------ exec

/// Reads each byte as the character with the same code point.
pub fn latin1_decode(bytes: &[u8]) -> (out: Vec<char>)
    ensures
        out@ == latin1(bytes@),
{
    let mut out: Vec<char> = Vec::new();
    for i in 0..bytes.len()
        invariant
            out@ == latin1(bytes@.take(i as int)),
    {
        let b: u8 = bytes[i];
        out.push(b as char);
        assert(bytes@.take(i as int + 1) == bytes@.take(i as int).push(b));
    }
    assert(bytes@.take(bytes.len() as int) == bytes@);
    out
}

/// Builds a `String` holding exactly the characters `cs`.
pub fn string_from_chars(cs: &[char]) -> (s: String)
    ensures
        s@ == cs@,
{
    let mut s = String::new();
    for i in 0..cs.len()
        invariant
            s@ == cs@.take(i as int),
    {
        string_push(&mut s, cs[i]);
        assert(cs@.take(i as int + 1) == cs@.take(i as int).push(cs@[i as int]));
    }
    assert(cs@.take(cs.len() as int) == cs@);
    s
}

/// The characters of `s`.
pub fn chars_of(s: &str) -> (out: Vec<char>)
    ensures
        out@ == s@,
{
    let mut out: Vec<char> = Vec::new();
    for c in it: s.chars()
        invariant
            out@ == it.seq().take(it.index() as int),
    {
        out.push(c);
    }
    out
}

/// Whether `s` begins with `p`.
pub fn starts_with_chars(s: &[char], p: &[char]) -> (res: bool)
    ensures
        res == starts_with(s@, p@),
{
    if p.len() > s.len() {
        return false;
    }
    for i in 0..p.len()
        invariant
            p.len() <= s.len(),
            forall|j: int| 0 <= j < i ==> s@[j] == p@[j],
    {
        if s[i] != p[i] {
            assert(s@.subrange(0, p.len() as int)[i as int] != p@[i as int]);
            return false;
        }
    }
    assert(s@.subrange(0, p.len() as int) =~= p@);
    true
}

/// Whether `needle` occurs at position `i` of `hay`.
fn occurs_at_exec(hay: &[char], needle: &[char], i: usize) -> (res: bool)
    requires
        i + needle.len() <= hay.len(),
    ensures
        res == occurs_at(hay@, needle@, i as int),
{
    for j in 0..needle.len()
        invariant
            i + needle.len() <= hay.len(),
            forall|k: int| 0 <= k < j ==> hay@[i + k] == needle@[k],
    {
        if hay[i + j] != needle[j] {
            assert(hay@.subrange(i as int, i + needle.len())[j as int] != needle@[j as int]);
            return false;
        }
    }
    assert(hay@.subrange(i as int, i + needle.len()) =~= needle@);
    true
}

/// Whether `needle` occurs somewhere in `hay`.
pub fn contains_chars(hay: &[char], needle: &[char]) -> (res: bool)
    ensures
        res == contains(hay@, needle@),
{
    if needle.len() > hay.len() {
        return false;
    }
    let last = hay.len() - needle.len();
    let mut i: usize = 0;
    loop
        invariant
            last + needle.len() == hay.len(),
            i <= last,
            forall|k: int| 0 <= k < i ==> !occurs_at(hay@, needle@, k),
        decreases last - i,
    {
        if occurs_at_exec(hay, needle, i) {
            return true;
        }
        if i == last {
            assert forall|k: int| !occurs_at(hay@, needle@, k) by {
                if 0 <= k && k + needle.len() <= hay.len() {
                    assert(k <= i);
                }
            }
            return false;
        }
        i = i + 1;
    }
}

/// Whether `needle` occurs somewhere in `hay`.
pub fn str_contains(hay: &[char], needle: &str) -> (res: bool)
    ensures
        res == contains(hay@, needle@),
{
    let n = chars_of(needle);
    contains_chars(hay, n.as_slice())
}

/// Whether `s` begins with `p`.
pub fn str_starts_with(s: &[char], p: &str) -> (res: bool)
    ensures
        res == starts_with(s@, p@),
{
    let pc = chars_of(p);
    starts_with_chars(s, pc.as_slice())
}

/// Whether `c` has the Unicode property White_Space.
pub fn char_is_white_space(c: char) -> (res: bool)
    ensures
        res == is_white_space(c),
{
    let v = c as u32;
    (0x09 <= v && v <= 0x0d) || v == 0x20 || v == 0x85 || v == 0xa0 || v == 0x1680 || (0x2000
        <= v && v <= 0x200a) || v == 0x2028 || v == 0x2029 || v == 0x202f || v == 0x205f || v
        == 0x3000
}

proof fn lemma_trim_end_prefix(s: Seq<char>, n: int)
    requires
        0 <= n <= s.len(),
        forall|j: int| n <= j < s.len() ==> is_white_space(#[trigger] s[j]),
    ensures
        trim_end(s) == trim_end(s.take(n)),
    decreases s.len() - n,
{
    if n < s.len() {
        assert(s.drop_last() == s.take(s.len() - 1));
        assert forall|j: int| n <= j < s.drop_last().len() implies is_white_space(
            #[trigger] s.drop_last()[j],
        ) by {
            assert(s.drop_last()[j] == s[j]);
        }
        lemma_trim_end_prefix(s.drop_last(), n);
        assert(s.drop_last().take(n) == s.take(n));
    } else {
        assert(s.take(n) == s);
    }
}

/// `s` without its trailing white space.
pub fn trim_end_chars(s: &[char]) -> (res: Vec<char>)
    ensures
        res@ == trim_end(s@),
{
    let mut n: usize = s.len();
    while n > 0 && char_is_white_space(s[n - 1])
        invariant
            n <= s.len(),
            forall|j: int| n <= j < s.len() ==> is_white_space(#[trigger] s@[j]),
        decreases n,
    {
        n = n - 1;
    }
    proof {
        lemma_trim_end_prefix(s@, n as int);
        if n > 0 {
            assert(s@.take(n as int).last() == s@[n - 1]);
        }
    }
    let mut res: Vec<char> = Vec::new();
    for i in 0..n
        invariant
            n <= s.len(),
            res@ == s@.take(i as int),
    {
        res.push(s[i]);
        assert(s@.take(i as int + 1) == s@.take(i as int).push(s@[i as int]));
    }
    res
}

/// Splits `s` at its newlines, dropping an empty last piece.
pub fn split_lines(s: &[char]) -> (res: Vec<Vec<char>>)
    ensures
        res@.map_values(|l: Vec<char>| l@) == lines(s@),
{
    let mut done: Vec<Vec<char>> = Vec::new();
    let mut cur: Vec<char> = Vec::new();
    for i in 0..s.len()
        invariant
            done@.map_values(|l: Vec<char>| l@).push(cur@) == split_newlines(s@.take(i as int)),
    {
        let ghost prev = s@.take(i as int);
        assert(s@.take(i as int + 1).drop_last() == prev);
        let c = s[i];
        if c == '\n' {
            let mut finished: Vec<char> = Vec::new();
            std::mem::swap(&mut finished, &mut cur);
            done.push(finished);
            assert(done@.map_values(|l: Vec<char>| l@) == split_newlines(prev).drop_last().push(
                finished@,
            ));
        } else {
            cur.push(c);
        }
        assert(done@.map_values(|l: Vec<char>| l@).push(cur@) =~= split_newlines(
            s@.take(i as int + 1),
        ));
    }
    assert(s@.take(s.len() as int) == s@);
    if cur.len() > 0 {
        done.push(cur);
    }
    assert(done@.map_values(|l: Vec<char>| l@) =~= lines(s@));
    done
}

/// The number of bytes that UTF-8 uses for `c`.
fn utf8_width_exec(c: char) -> (w: usize)
    ensures
        w == utf8_width(c),
{
    let v = c as u32;
    if v < 0x80 {
        1
    } else if v < 0x800 {
        2
    } else if v < 0x10000 {
        3
    } else {
        4
    }
}

proof fn lemma_chars_in_bytes_step(l: Seq<char>, k: int, b: int)
    requires
        0 <= k < l.len(),
        b > 0,
    ensures
        chars_in_bytes(l.skip(k), b) == (match chars_in_bytes(l.skip(k + 1), b - utf8_width(l[k])) {
            Some(j) => Some(j + 1),
            None => None,
        }),
{
    assert(l.skip(k).drop_first() == l.skip(k + 1));
    assert(l.skip(k)[0] == l[k]);
}

/// The number of characters of `l` that make up its first three UTF-8 bytes,
/// if a character ends there.
pub fn split_index_byte3(l: &[char]) -> (res: Option<usize>)
    ensures
        res matches Some(k) ==> chars_in_bytes(l@, 3) == Some(k as nat) && k <= l.len(),
        res is None ==> chars_in_bytes(l@, 3) is None,
{
    let mut k: usize = 0;
    let mut used: usize = 0;
    assert(l@.skip(0) == l@);
    while used < 3
        invariant
            k <= l.len(),
            used <= 6,
            chars_in_bytes(l@, 3) == (match chars_in_bytes(l@.skip(k as int), 3 - used) {
                Some(j) => Some((j + k) as nat),
                None => None,
            }),
        decreases l.len() - k,
    {
        if k == l.len() {
            assert(l@.skip(k as int).len() == 0);
            return None;
        }
        proof {
            lemma_chars_in_bytes_step(l@, k as int, 3 - used);
        }
        let w = utf8_width_exec(l[k]);
        used = used + w;
        k = k + 1;
    }
    if used == 3 {
        Some(k)
    } else {
        None
    }
}

/// The characters of `l` from position `k` on.
pub fn tail_from(l: &[char], k: usize) -> (res: Vec<char>)
    requires
        k <= l.len(),
    ensures
        res@ == l@.skip(k as int),
{
    let mut res: Vec<char> = Vec::new();
    let mut i: usize = k;
    while i < l.len()
        invariant
            k <= i <= l.len(),
            res@ == l@.subrange(k as int, i as int),
        decreases l.len() - i,
    {
        res.push(l[i]);
        assert(l@.subrange(k as int, i + 1) == l@.subrange(k as int, i as int).push(l@[i as int]));
        i = i + 1;
    }
    res
}

/// Whether a character of `l` ends at its third UTF-8 byte.
pub fn splits_at_byte3_exec(l: &[char]) -> (res: bool)
    ensures
        res == splits_at_byte3(l@),
{
    split_index_byte3(l).is_some()
}

/// What follows the third UTF-8 byte of `l`.
pub fn rest_after_byte3(l: &[char]) -> (res: Vec<char>)
    requires
        splits_at_byte3(l@),
    ensures
        res@ == after_byte3(l@),
{
    let k = split_index_byte3(l);
    match k {
        Some(k) => tail_from(l, k),
        None => {
            proof {
                assert(false);
            }
            Vec::new()
        },
    }
}

/// Each byte becomes one character with the byte's code point.
pub proof fn law_latin1_is_bytewise(bytes: Seq<u8>)
    ensures
        latin1(bytes).len() == bytes.len(),
        forall|i: int| 0 <= i < bytes.len() ==> (#[trigger] latin1(bytes)[i]) as u32 == bytes[i] as u32,
{
}

/// A line whose first three characters are ASCII is cut after its third
/// character.
pub proof fn law_after_byte3_of_ascii_start(l: Seq<char>)
    requires
        l.len() >= 3,
        (l[0] as u32) < 0x80,
        (l[1] as u32) < 0x80,
        (l[2] as u32) < 0x80,
    ensures
        splits_at_byte3(l),
        after_byte3(l) == l.skip(3),
{
    let l1 = l.drop_first();
    let l2 = l1.drop_first();
    let l3 = l2.drop_first();
    assert(l1[0] == l[1]);
    assert(l2[0] == l[2]);
    assert(utf8_width(l[0]) == 1 && utf8_width(l[1]) == 1 && utf8_width(l[2]) == 1);
    assert(chars_in_bytes(l3, 0) == Some(0nat));
    assert(chars_in_bytes(l2, 1) == Some(1nat));
    assert(chars_in_bytes(l1, 2) == Some(2nat));
    assert(chars_in_bytes(l, 3) == Some(3nat));
}

/// No line holds a newline, and there is one line per newline, plus one for
/// a last piece that does not end in a newline.
pub proof fn law_lines_hold_no_newline(s: Seq<char>)
    ensures
        split_newlines(s).len() >= 1,
        forall|i: int, j: int| 0 <= i < split_newlines(s).len() && 0 <= j < split_newlines(s)[i].len()
            ==> split_newlines(s)[i][j] != '\n',
        forall|i: int, j: int| 0 <= i < lines(s).len() && 0 <= j < lines(s)[i].len()
            ==> lines(s)[i][j] != '\n',
    decreases s.len(),
{
    if s.len() > 0 {
        law_lines_hold_no_newline(s.drop_last());
        let rest = split_newlines(s.drop_last());
        assert(rest.len() >= 1);
        if s.last() != '\n' {
            assert forall|i: int, j: int| 0 <= i < split_newlines(s).len() && 0 <= j < split_newlines(
                s,
            )[i].len() implies split_newlines(s)[i][j] != '\n' by {
                let upd = rest.update(rest.len() - 1, rest.last().push(s.last()));
                assert(split_newlines(s) == upd);
                if i == rest.len() - 1 {
                    assert(upd[i] == rest.last().push(s.last()));
                    if j < rest.last().len() {
                        assert(upd[i][j] == rest[i][j]);
                    }
                } else {
                    assert(upd[i] == rest[i]);
                }
            }
        } else {
            assert forall|i: int, j: int| 0 <= i < split_newlines(s).len() && 0 <= j < split_newlines(
                s,
            )[i].len() implies split_newlines(s)[i][j] != '\n' by {
                assert(split_newlines(s)[i] == rest.push(Seq::<char>::empty())[i]);
            }
        }
    }
    let pieces = split_newlines(s);
    assert(pieces.len() >= 1);
    assert forall|i: int, j: int| 0 <= i < lines(s).len() && 0 <= j < lines(s)[i].len()
        implies lines(s)[i][j] != '\n' by {
        assert(i < pieces.len());
        assert(lines(s)[i] == pieces[i]);
    }
}

} // verus!
