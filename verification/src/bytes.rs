//! Byte-level helpers shared by the codec, the parsers and the manifests:
//! slice equality, whitespace tokenization, line splitting, hexadecimal
//! encoding and little-endian 32-bit words.

use vstd::prelude::*;
use vstd::string::StringSliceAdditionalSpecFns;

verus! {

// ---------------------------------------------------------------------------
// Equality and concatenation
// ---------------------------------------------------------------------------

/// Compare two byte slices for equality.
pub fn bytes_eq(a: &[u8], b: &[u8]) -> (r: bool)
    ensures
        r == (a@ == b@),
{
    if a.len() != b.len() {
        return false;
    }
    let n = a.len();
    let mut i: usize = 0;
    while i < n
        invariant
            n == a@.len() == b@.len(),
            i <= n,
            forall|k: int| 0 <= k < i ==> a@[k] == b@[k],
        decreases n - i,
    {
        if a[i] != b[i] {
            return false;
        }
        i = i + 1;
    }
    assert(a@ =~= b@);
    true
}

/// Compare a byte slice against the UTF-8 bytes of a string slice.
pub fn bytes_eq_str(a: &[u8], s: &str) -> (r: bool)
    ensures
        r == (a@ == s.spec_bytes()),
{
    bytes_eq(a, s.as_bytes())
}

/// Append a byte slice to a vector.
pub fn push_bytes(v: &mut Vec<u8>, s: &[u8])
    ensures
        final(v)@ == old(v)@ + s@,
{
    v.extend_from_slice(s);
    assert(v@ =~= old(v)@ + s@);
}

/// Append the UTF-8 bytes of a string slice to a vector.
pub fn push_str_bytes(v: &mut Vec<u8>, s: &str)
    ensures
        final(v)@ == old(v)@ + s.spec_bytes(),
{
    push_bytes(v, s.as_bytes());
}

/// Copy a byte vector.
pub fn clone_bytes(v: &Vec<u8>) -> (r: Vec<u8>)
    ensures
        r@ == v@,
{
    vstd::slice::slice_to_vec(v.as_slice())
}

/// Does `s` begin with `p`?
pub open spec fn spec_starts_with(s: Seq<u8>, p: Seq<u8>) -> bool {
    p.len() <= s.len() && s.subrange(0, p.len() as int) == p
}

pub fn starts_with(s: &[u8], p: &[u8]) -> (r: bool)
    ensures
        r == spec_starts_with(s@, p@),
{
    if p.len() > s.len() {
        return false;
    }
    let n = p.len();
    let mut i: usize = 0;
    while i < n
        invariant
            n == p@.len() <= s@.len(),
            i <= n,
            forall|k: int| 0 <= k < i ==> s@[k] == p@[k],
        decreases n - i,
    {
        if s[i] != p[i] {
            assert(s@.subrange(0, n as int)[i as int] != p@[i as int]);
            return false;
        }
        i = i + 1;
    }
    assert(s@.subrange(0, n as int) =~= p@);
    true
}

// ---------------------------------------------------------------------------
// Whitespace tokenization
// ---------------------------------------------------------------------------

/// ASCII whitespace: space, tab, line feed, form feed, carriage return.
pub open spec fn spec_is_ws(b: u8) -> bool {
    b == 32 || b == 9 || b == 10 || b == 12 || b == 13
}

pub fn is_ws(b: u8) -> (r: bool)
    ensures
        r == spec_is_ws(b),
{
    b == 32 || b == 9 || b == 10 || b == 12 || b == 13
}

/// Index just past the token that starts at `i`: the first position at or
/// after `i` holding whitespace, or the end of the input.
pub open spec fn token_end(s: Seq<u8>, i: int) -> int
    recommends
        0 <= i <= s.len(),
    decreases s.len() - i when 0 <= i <= s.len()
{
    if i >= s.len() || spec_is_ws(s[i]) {
        i
    } else {
        token_end(s, i + 1)
    }
}

pub proof fn lemma_token_end_bounds(s: Seq<u8>, i: int)
    requires
        0 <= i <= s.len(),
    ensures
        i <= token_end(s, i) <= s.len(),
    decreases s.len() - i,
{
    if i < s.len() && !spec_is_ws(s[i]) {
        lemma_token_end_bounds(s, i + 1);
    }
}

/// The whitespace-separated tokens of `s`, from position `i` on.
pub open spec fn spec_tokens_from(s: Seq<u8>, i: int) -> Seq<Seq<u8>>
    recommends
        0 <= i <= s.len(),
    decreases s.len() - i when 0 <= i <= s.len() via spec_tokens_from_decreases
{
    if i >= s.len() {
        Seq::empty()
    } else if spec_is_ws(s[i]) {
        spec_tokens_from(s, i + 1)
    } else {
        seq![s.subrange(i, token_end(s, i))] + spec_tokens_from(s, token_end(s, i))
    }
}

#[via_fn]
proof fn spec_tokens_from_decreases(s: Seq<u8>, i: int) {
    if 0 <= i < s.len() && !spec_is_ws(s[i]) {
        lemma_token_end_bounds(s, i);
        assert(token_end(s, i) == token_end(s, i + 1));
        lemma_token_end_bounds(s, i + 1);
    }
}

/// The whitespace-separated tokens of `s`.
pub open spec fn spec_tokens(s: Seq<u8>) -> Seq<Seq<u8>> {
    spec_tokens_from(s, 0)
}

/// Split a byte string into its whitespace-separated tokens.
pub fn split_ws(s: &[u8]) -> (r: Vec<Vec<u8>>)
    ensures
        r.deep_view() == spec_tokens(s@),
{
    let n = s.len();
    let mut r: Vec<Vec<u8>> = Vec::new();
    let mut i: usize = 0;
    proof {
        assert(r.deep_view() + spec_tokens_from(s@, 0) =~= spec_tokens(s@));
    }
    while i < n
        invariant
            n == s@.len(),
            i <= n,
            spec_tokens(s@) == r.deep_view() + spec_tokens_from(s@, i as int),
        decreases n - i,
    {
        if is_ws(s[i]) {
            i = i + 1;
        } else {
            let mut j: usize = i + 1;
            while j < n && !is_ws(s[j])
                invariant
                    n == s@.len(),
                    i < j <= n,
                    token_end(s@, i as int) == token_end(s@, j as int),
                decreases n - j,
            {
                j = j + 1;
            }
            assert(token_end(s@, j as int) == j);
            let tok = vstd::slice::slice_to_vec(&s[i..j]);
            let ghost old_r = r.deep_view();
            proof {
                assert(tok.deep_view() =~= tok@);
            }
            r.push(tok);
            proof {
                assert(r.deep_view() =~= old_r + seq![s@.subrange(i as int, j as int)]);
                assert(spec_tokens_from(s@, i as int) == seq![s@.subrange(i as int, j as int)]
                    + spec_tokens_from(s@, j as int));
                assert(old_r + (seq![s@.subrange(i as int, j as int)]
                    + spec_tokens_from(s@, j as int))
                    =~= (old_r + seq![s@.subrange(i as int, j as int)])
                    + spec_tokens_from(s@, j as int));
            }
            i = j;
        }
    }
    assert(r.deep_view() =~= spec_tokens(s@));
    r
}

/// Index of the first non-whitespace byte at or after `i`, or the end of
/// the input.
pub open spec fn ws_end(s: Seq<u8>, i: int) -> int
    recommends
        0 <= i <= s.len(),
    decreases s.len() - i when 0 <= i <= s.len()
{
    if i >= s.len() || !spec_is_ws(s[i]) {
        i
    } else {
        ws_end(s, i + 1)
    }
}

/// If a byte string stripped of one leading prefix has at least two
/// whitespace-separated tokens, the rest after the first token: skip the
/// first run of non-whitespace, then the following run of whitespace.
pub open spec fn spec_rest_after_first_token(s: Seq<u8>) -> Seq<u8> {
    s.skip(ws_end(s, token_end(s, 0)))
}

/// The suffix of `s` that begins at the first non-whitespace byte after the
/// first whitespace byte.  Meaningful when `s` holds at least two
/// whitespace-separated tokens.
pub fn rest_after_first_token(s: &[u8]) -> (r: Vec<u8>)
    ensures
        r@ == spec_rest_after_first_token(s@),
{
    let n = s.len();
    let mut i: usize = 0;
    while i < n && !is_ws(s[i])
        invariant
            n == s@.len(),
            i <= n,
            token_end(s@, 0) == token_end(s@, i as int),
        decreases n - i,
    {
        i = i + 1;
    }
    assert(token_end(s@, 0) == i);
    let mut j: usize = i;
    while j < n && is_ws(s[j])
        invariant
            n == s@.len(),
            i <= j <= n,
            ws_end(s@, i as int) == ws_end(s@, j as int),
        decreases n - j,
    {
        j = j + 1;
    }
    assert(ws_end(s@, i as int) == j);
    let (_, rest) = s.split_at(j);
    let r = vstd::slice::slice_to_vec(rest);
    assert(r@ =~= s@.skip(j as int));
    r
}

// ---------------------------------------------------------------------------
// Prefix stripping and splitting
// ---------------------------------------------------------------------------

/// Strip `p` from the front of `s`, yielding the remainder when `s` begins
/// with `p`.
pub fn strip_prefix(s: &[u8], p: &[u8]) -> (r: Option<Vec<u8>>)
    ensures
        match r {
            Some(rest) => spec_starts_with(s@, p@) && rest@ == s@.skip(p@.len() as int),
            None => !spec_starts_with(s@, p@),
        },
{
    if starts_with(s, p) {
        let (_, rest) = s.split_at(p.len());
        let r = vstd::slice::slice_to_vec(rest);
        assert(r@ =~= s@.skip(p@.len() as int));
        Some(r)
    } else {
        None
    }
}

/// Strip the UTF-8 bytes of `p` from the front of `s`.
pub fn strip_prefix_str(s: &[u8], p: &str) -> (r: Option<Vec<u8>>)
    ensures
        match r {
            Some(rest) => spec_starts_with(s@, p.spec_bytes())
                && rest@ == s@.skip(p.spec_bytes().len() as int),
            None => !spec_starts_with(s@, p.spec_bytes()),
        },
{
    strip_prefix(s, p.as_bytes())
}

/// Index of the first occurrence of `b` at or after `i`, or the end of the
/// input.
pub open spec fn find_from(s: Seq<u8>, b: u8, i: int) -> int
    recommends
        0 <= i <= s.len(),
    decreases s.len() - i when 0 <= i <= s.len()
{
    if i >= s.len() || s[i] == b {
        i
    } else {
        find_from(s, b, i + 1)
    }
}

pub proof fn lemma_find_from_bounds(s: Seq<u8>, b: u8, i: int)
    requires
        0 <= i <= s.len(),
    ensures
        i <= find_from(s, b, i) <= s.len(),
    decreases s.len() - i,
{
    if i < s.len() && s[i] != b {
        lemma_find_from_bounds(s, b, i + 1);
    }
}

/// Split `s` at the first occurrence of `b`: the part before it and the
/// part after it, or nothing when `b` does not occur.
pub fn split_at_byte(s: &[u8], b: u8) -> (r: Option<(Vec<u8>, Vec<u8>)>)
    ensures
        ({
            let p = find_from(s@, b, 0);
            match r {
                Some((head, tail)) => p < s@.len() && head@ == s@.subrange(0, p)
                    && tail@ == s@.skip(p + 1),
                None => p >= s@.len(),
            }
        }),
{
    let n = s.len();
    let mut i: usize = 0;
    while i < n && s[i] != b
        invariant
            n == s@.len(),
            i <= n,
            find_from(s@, b, 0) == find_from(s@, b, i as int),
        decreases n - i,
    {
        i = i + 1;
    }
    assert(find_from(s@, b, i as int) == i);
    if i >= n {
        return None;
    }
    let (head_sl, rest_sl) = s.split_at(i);
    let head = vstd::slice::slice_to_vec(head_sl);
    let (_, tail_sl) = rest_sl.split_at(1);
    let tail = vstd::slice::slice_to_vec(tail_sl);
    assert(head@ =~= s@.subrange(0, i as int));
    assert(tail@ =~= s@.skip(i as int + 1));
    Some((head, tail))
}

// ---------------------------------------------------------------------------
// Line splitting
// ---------------------------------------------------------------------------

/// Index of the line feed that ends the line starting at `i`, or the end of
/// the input.
pub open spec fn line_end(s: Seq<u8>, i: int) -> int
    recommends
        0 <= i <= s.len(),
    decreases s.len() - i when 0 <= i <= s.len()
{
    if i >= s.len() || s[i] == 10 {
        i
    } else {
        line_end(s, i + 1)
    }
}

pub proof fn lemma_line_end_bounds(s: Seq<u8>, i: int)
    requires
        0 <= i <= s.len(),
    ensures
        i <= line_end(s, i) <= s.len(),
    decreases s.len() - i,
{
    if i < s.len() && s[i] != 10 {
        lemma_line_end_bounds(s, i + 1);
    }
}

/// One line's content: the bytes up to the line feed, with a trailing
/// carriage return stripped.
pub open spec fn spec_line_at(s: Seq<u8>, i: int, j: int) -> Seq<u8> {
    if j > i && s[j - 1] == 13 {
        s.subrange(i, j - 1)
    } else {
        s.subrange(i, j)
    }
}

/// The lines of `s` from position `i` on.  A final fragment without a
/// terminating line feed still counts as a line; a terminating line feed at
/// the very end does not open an empty final line.
pub open spec fn spec_lines_from(s: Seq<u8>, i: int) -> Seq<Seq<u8>>
    recommends
        0 <= i <= s.len(),
    decreases s.len() - i when 0 <= i <= s.len() via spec_lines_from_decreases
{
    if i >= s.len() {
        Seq::empty()
    } else {
        let j = line_end(s, i);
        if j >= s.len() {
            seq![spec_line_at(s, i, j)]
        } else {
            seq![spec_line_at(s, i, j)] + spec_lines_from(s, j + 1)
        }
    }
}

#[via_fn]
proof fn spec_lines_from_decreases(s: Seq<u8>, i: int) {
    if 0 <= i < s.len() {
        lemma_line_end_bounds(s, i);
    }
}

/// The lines of `s`.
pub open spec fn spec_lines(s: Seq<u8>) -> Seq<Seq<u8>> {
    spec_lines_from(s, 0)
}

/// Split a byte stream into lines, as a buffered line reader would: lines
/// end at a line feed, an immediately preceding carriage return is stripped,
/// and a final unterminated fragment is a line of its own.
pub fn split_lines(s: &[u8]) -> (r: Vec<Vec<u8>>)
    ensures
        r.deep_view() == spec_lines(s@),
{
    let n = s.len();
    let mut r: Vec<Vec<u8>> = Vec::new();
    let mut i: usize = 0;
    proof {
        assert(r.deep_view() + spec_lines_from(s@, 0) =~= spec_lines(s@));
    }
    while i < n
        invariant
            n == s@.len(),
            i <= n,
            spec_lines(s@) == r.deep_view() + spec_lines_from(s@, i as int),
        decreases n - i,
    {
        let mut j: usize = i;
        while j < n && s[j] != 10
            invariant
                n == s@.len(),
                i <= j <= n,
                line_end(s@, i as int) == line_end(s@, j as int),
            decreases n - j,
        {
            j = j + 1;
        }
        assert(line_end(s@, j as int) == j);
        let line_to = if j > i && s[j - 1] == 13 {
            j - 1
        } else {
            j
        };
        let line = vstd::slice::slice_to_vec(&s[i..line_to]);
        let ghost old_r = r.deep_view();
        proof {
            assert(line.deep_view() =~= line@);
            assert(line@ == spec_line_at(s@, i as int, j as int));
        }
        r.push(line);
        proof {
            assert(r.deep_view() =~= old_r + seq![spec_line_at(s@, i as int, j as int)]);
        }
        if j >= n {
            i = j;
            proof {
                assert(spec_lines_from(s@, i as int) =~= Seq::<Seq<u8>>::empty());
                assert(r.deep_view() + spec_lines_from(s@, i as int) =~= r.deep_view());
            }
        } else {
            i = j + 1;
        }
    }
    assert(r.deep_view() =~= spec_lines(s@));
    r
}

// ---------------------------------------------------------------------------
// Hexadecimal
// ---------------------------------------------------------------------------

/// The lower-case hexadecimal digit for a value below 16, as a character.
pub open spec fn spec_hex_digit(n: u8) -> char
    recommends
        n < 16,
{
    seq!['0', '1', '2', '3', '4', '5', '6', '7', '8', '9', 'a', 'b', 'c', 'd', 'e', 'f'][n as int]
}

/// Lower-case hexadecimal encoding of a byte string, two digits per byte.
pub open spec fn spec_hex(b: Seq<u8>) -> Seq<char>
    decreases b.len(),
{
    if b.len() == 0 {
        Seq::empty()
    } else {
        seq![spec_hex_digit(b.first() / 16), spec_hex_digit(b.first() % 16)]
            + spec_hex(b.drop_first())
    }
}

fn hex_digit_str(n: u8) -> (c: &'static str)
    requires
        n < 16,
    ensures
        c@ == seq![spec_hex_digit(n)],
{
    proof {
        reveal_strlit("0");
        reveal_strlit("1");
        reveal_strlit("2");
        reveal_strlit("3");
        reveal_strlit("4");
        reveal_strlit("5");
        reveal_strlit("6");
        reveal_strlit("7");
        reveal_strlit("8");
        reveal_strlit("9");
        reveal_strlit("a");
        reveal_strlit("b");
        reveal_strlit("c");
        reveal_strlit("d");
        reveal_strlit("e");
        reveal_strlit("f");
    }
    let c = match n {
        0 => "0",
        1 => "1",
        2 => "2",
        3 => "3",
        4 => "4",
        5 => "5",
        6 => "6",
        7 => "7",
        8 => "8",
        9 => "9",
        10 => "a",
        11 => "b",
        12 => "c",
        13 => "d",
        14 => "e",
        _ => "f",
    };
    assert(c@ =~= seq![spec_hex_digit(n)]);
    c
}

/// Encode a byte string in lower-case hexadecimal.
pub fn hex_string(b: &[u8]) -> (r: String)
    ensures
        r@ == spec_hex(b@),
{
    let n = b.len();
    let mut r = String::new();
    let mut i: usize = 0;
    proof {
        assert(b@.skip(0) =~= b@);
        assert(r@ + spec_hex(b@.skip(0)) =~= spec_hex(b@));
    }
    while i < n
        invariant
            n == b@.len(),
            i <= n,
            spec_hex(b@) == r@ + spec_hex(b@.skip(i as int)),
        decreases n - i,
    {
        let hi = hex_digit_str(b[i] / 16);
        let lo = hex_digit_str(b[i] % 16);
        r.append(hi);
        r.append(lo);
        assert(b@.skip(i as int).drop_first() =~= b@.skip(i as int + 1));
        i = i + 1;
    }
    assert(b@.skip(n as int) =~= Seq::<u8>::empty());
    assert(r@ =~= spec_hex(b@));
    r
}

/// The lower-case hexadecimal digit for a value below 16, as an ASCII
/// byte.
pub open spec fn spec_hex_digit_byte(n: u8) -> u8
    recommends
        n < 16,
{
    if n < 10 {
        (48 + n) as u8
    } else {
        (87 + n) as u8
    }
}

/// Lower-case hexadecimal encoding of a byte string, as ASCII bytes.
pub open spec fn spec_hex_bytes(b: Seq<u8>) -> Seq<u8>
    decreases b.len(),
{
    if b.len() == 0 {
        Seq::empty()
    } else {
        seq![spec_hex_digit_byte(b.first() / 16), spec_hex_digit_byte(b.first() % 16)]
            + spec_hex_bytes(b.drop_first())
    }
}

/// Encode a byte string in lower-case hexadecimal ASCII bytes.
pub fn hex_bytes(b: &[u8]) -> (r: Vec<u8>)
    ensures
        r@ == spec_hex_bytes(b@),
{
    let n = b.len();
    let mut r: Vec<u8> = Vec::new();
    proof {
        assert(b@.skip(0) =~= b@);
        assert(r@ + spec_hex_bytes(b@.skip(0)) =~= spec_hex_bytes(b@));
    }
    let mut i: usize = 0;
    while i < n
        invariant
            n == b@.len(),
            i <= n,
            spec_hex_bytes(b@) == r@ + spec_hex_bytes(b@.skip(i as int)),
        decreases n - i,
    {
        let hi = b[i] / 16;
        let lo = b[i] % 16;
        r.push(if hi < 10 { 48 + hi } else { 87 + hi });
        r.push(if lo < 10 { 48 + lo } else { 87 + lo });
        assert(b@.skip(i as int).drop_first() =~= b@.skip(i as int + 1));
        assert(r@ =~= (r@.subrange(0, r@.len() - 2) + seq![spec_hex_digit_byte(hi),
            spec_hex_digit_byte(lo)]));
        i = i + 1;
    }
    assert(b@.skip(n as int) =~= Seq::<u8>::empty());
    assert(r@ =~= spec_hex_bytes(b@));
    r
}

/// The value of one ASCII hexadecimal digit byte, if it is one.
pub open spec fn spec_hex_val(b: u8) -> Option<u8> {
    if 48 <= b <= 57 {
        Some((b - 48) as u8)
    } else if 97 <= b <= 102 {
        Some((b - 87) as u8)
    } else if 65 <= b <= 70 {
        Some((b - 55) as u8)
    } else {
        None
    }
}

fn hex_val(b: u8) -> (r: Option<u8>)
    ensures
        r == spec_hex_val(b),
{
    if 48 <= b && b <= 57 {
        Some(b - 48)
    } else if 97 <= b && b <= 102 {
        Some(b - 87)
    } else if 65 <= b && b <= 70 {
        Some(b - 55)
    } else {
        None
    }
}

/// Decode an even-length string of hexadecimal digit bytes; `None` if the
/// length is odd or a byte is no hexadecimal digit.
pub open spec fn spec_hex_decode(s: Seq<u8>) -> Option<Seq<u8>>
    decreases s.len(),
{
    if s.len() % 2 != 0 {
        None
    } else if s.len() == 0 {
        Some(Seq::empty())
    } else {
        match (spec_hex_val(s[0]), spec_hex_val(s[1])) {
            (Some(hi), Some(lo)) => match spec_hex_decode(s.skip(2)) {
                Some(rest) => Some(seq![(hi * 16 + lo) as u8] + rest),
                None => None,
            },
            _ => None,
        }
    }
}

pub fn hex_decode(s: &[u8]) -> (r: Option<Vec<u8>>)
    ensures
        match r {
            Some(v) => spec_hex_decode(s@) == Some(v@),
            None => spec_hex_decode(s@) is None,
        },
{
    let n = s.len();
    if n % 2 != 0 {
        return None;
    }
    let mut out: Vec<u8> = Vec::new();
    let mut i: usize = 0;
    proof {
        assert(s@.skip(0) =~= s@);
        assert(spec_hex_decode(s@) matches Some(w) ==> w =~= out@ + w);
    }
    while i < n
        invariant
            n == s@.len(),
            n % 2 == 0,
            i <= n,
            i % 2 == 0,
            spec_hex_decode(s@) matches Some(w) ==> {
                &&& spec_hex_decode(s@.skip(i as int)) matches Some(rest)
                &&& w == out@ + rest
            },
            (spec_hex_decode(s@) is None) ==> (spec_hex_decode(s@.skip(i as int)) is None),
        decreases n - i,
    {
        let ghost tail = s@.skip(i as int);
        assert(tail.len() == n - i);
        assert(tail[0] == s@[i as int] && tail.len() >= 2 ==> tail[1] == s@[i as int + 1]);
        let hi = match hex_val(s[i]) {
            Some(h) => h,
            None => {
                assert(spec_hex_decode(tail) is None);
                return None;
            }
        };
        let lo = match hex_val(s[i + 1]) {
            Some(l) => l,
            None => {
                assert(spec_hex_decode(tail) is None);
                return None;
            }
        };
        out.push(hi * 16 + lo);
        assert(tail.skip(2) =~= s@.skip(i as int + 2));
        i = i + 2;
    }
    assert(s@.skip(n as int) =~= Seq::<u8>::empty());
    assert(spec_hex_decode(s@) matches Some(w) ==> w =~= out@);
    Some(out)
}

// ---------------------------------------------------------------------------
// Little-endian 32-bit words
// ---------------------------------------------------------------------------

/// The four little-endian bytes of a 32-bit word.
pub open spec fn spec_u32_le(x: u32) -> Seq<u8> {
    seq![
        (x % 256) as u8,
        ((x / 256) % 256) as u8,
        ((x / 65536) % 256) as u8,
        ((x / 16777216) % 256) as u8,
    ]
}

/// The word held by four little-endian bytes.
pub open spec fn spec_le_word(b: Seq<u8>) -> int
    recommends
        b.len() == 4,
{
    b[0] + 256 * b[1] + 65536 * b[2] + 16777216 * b[3]
}

pub proof fn lemma_u32_le_word(x: u32)
    ensures
        spec_le_word(spec_u32_le(x)) == x,
{
}

pub fn u32_to_le(x: u32) -> (v: Vec<u8>)
    ensures
        v@ == spec_u32_le(x),
{
    let mut v: Vec<u8> = Vec::new();
    v.push((x % 256) as u8);
    v.push(((x / 256) % 256) as u8);
    v.push(((x / 65536) % 256) as u8);
    v.push(((x / 16777216) % 256) as u8);
    assert(v@ =~= spec_u32_le(x));
    v
}

pub fn u32_from_le(b0: u8, b1: u8, b2: u8, b3: u8) -> (x: u32)
    ensures
        x == spec_le_word(seq![b0, b1, b2, b3]),
{
    (b0 as u32) + 256 * (b1 as u32) + 65536 * (b2 as u32) + 16777216 * (b3 as u32)
}

} // verus!
