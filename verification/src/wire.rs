//! Byte-level wire primitives shared by the request codec and the
//! dispatcher: little-endian 32-bit integers, single-byte booleans,
//! length-prefixed UTF-8 strings and length-prefixed group-id lists.
//!
//! Each primitive has a specification-level encoder (a function from the
//! abstract value to its byte sequence), a specification-level parser (a
//! function from a byte sequence and a position to the parsed value and the
//! next position, or `None` on malformed input), executable counterparts
//! pinned to those functions, and a round-trip lemma.

use vstd::prelude::*;
use vstd::slice::slice_subrange;
use vstd::string::StringSliceAdditionalSpecFns;
use vstd::utf8::*;

verus! {

/// Upper bound on the number of supplementary group ids one request may
/// carry; a longer list is a decode failure (an oversized group list).
pub const MAX_GIDS: u32 = 65536;

// ----------------------------------------------------------------------
// Encoding: abstract value -> byte sequence
// ----------------------------------------------------------------------

/// Little-endian byte sequence of a `u32`.
pub open spec fn u32_le(x: u32) -> Seq<u8> {
    seq![
        (x & 0xff) as u8,
        ((x >> 8) & 0xff) as u8,
        ((x >> 16) & 0xff) as u8,
        ((x >> 24) & 0xff) as u8,
    ]
}

/// The `u32` read back from four little-endian bytes.
pub open spec fn u32_from_le(b0: u8, b1: u8, b2: u8, b3: u8) -> u32 {
    (b0 as u32) | ((b1 as u32) << 8) | ((b2 as u32) << 16) | ((b3 as u32) << 24)
}

/// Little-endian byte sequence of an `i32` (two's complement).
pub open spec fn i32_le(x: i32) -> Seq<u8> {
    u32_le(x as u32)
}

/// One-byte encoding of a boolean.
pub open spec fn bool_byte(b: bool) -> u8 {
    if b {
        1
    } else {
        0
    }
}

/// Wire form of a string: a 4-byte length prefix followed by the UTF-8
/// bytes of the string.
pub open spec fn str_wire(s: Seq<char>) -> Seq<u8> {
    u32_le(encode_utf8(s).len() as u32) + encode_utf8(s)
}

/// Whether a string's UTF-8 form fits behind a 4-byte length prefix.
pub open spec fn str_fits(s: Seq<char>) -> bool {
    encode_utf8(s).len() <= u32::MAX
}

/// Concatenated little-endian encodings of the group ids themselves.
pub open spec fn gid_items_wire(g: Seq<u32>) -> Seq<u8>
    decreases g.len(),
{
    if g.len() == 0 {
        Seq::empty()
    } else {
        u32_le(g[0]) + gid_items_wire(g.drop_first())
    }
}

/// Wire form of a group-id list: a 4-byte count followed by the ids.
pub open spec fn gids_wire(g: Seq<u32>) -> Seq<u8> {
    u32_le(g.len() as u32) + gid_items_wire(g)
}

// ----------------------------------------------------------------------
// Parsing: byte sequence + position -> value + next position
// ----------------------------------------------------------------------

/// Parse a little-endian `u32` at `pos`.
pub open spec fn parse_u32(b: Seq<u8>, pos: int) -> Option<(u32, int)> {
    if 0 <= pos && pos + 4 <= b.len() {
        Some((u32_from_le(b[pos], b[pos + 1], b[pos + 2], b[pos + 3]), pos + 4))
    } else {
        None
    }
}

/// Parse a little-endian `i32` at `pos`.
pub open spec fn parse_i32(b: Seq<u8>, pos: int) -> Option<(i32, int)> {
    match parse_u32(b, pos) {
        Some((x, p)) => Some((x as i32, p)),
        None => None,
    }
}

/// Parse a boolean byte at `pos`; any byte other than 0 or 1 is malformed.
pub open spec fn parse_bool(b: Seq<u8>, pos: int) -> Option<(bool, int)> {
    if 0 <= pos && pos + 1 <= b.len() {
        if b[pos] == 0 {
            Some((false, pos + 1))
        } else if b[pos] == 1 {
            Some((true, pos + 1))
        } else {
            None
        }
    } else {
        None
    }
}

/// Parse a length-prefixed UTF-8 string at `pos`; a truncated stream or
/// invalid UTF-8 is malformed.
pub open spec fn parse_str(b: Seq<u8>, pos: int) -> Option<(Seq<char>, int)> {
    match parse_u32(b, pos) {
        Some((n, p)) => if p + n <= b.len() && valid_utf8(b.subrange(p, p + n)) {
            Some((decode_utf8(b.subrange(p, p + n)), p + n))
        } else {
            None
        },
        None => None,
    }
}

/// Parse exactly `n` little-endian group ids starting at `pos`.
pub open spec fn parse_gid_items(b: Seq<u8>, pos: int, n: nat) -> Option<(Seq<u32>, int)>
    decreases n,
{
    if n == 0 {
        Some((Seq::empty(), pos))
    } else {
        match parse_u32(b, pos) {
            Some((g, p)) => match parse_gid_items(b, p, (n - 1) as nat) {
                Some((s, p2)) => Some((seq![g] + s, p2)),
                None => None,
            },
            None => None,
        }
    }
}

/// Parse a length-prefixed group-id list at `pos`; a count above
/// [`MAX_GIDS`] is malformed.
pub open spec fn parse_gids(b: Seq<u8>, pos: int) -> Option<(Seq<u32>, int)> {
    match parse_u32(b, pos) {
        Some((n, p)) => if n <= MAX_GIDS {
            parse_gid_items(b, p, n as nat)
        } else {
            None
        },
        None => None,
    }
}

// ----------------------------------------------------------------------
// Round-trip lemmas: parsing an encoding embedded in a larger stream
// yields the encoded value and stops right after it.
// ----------------------------------------------------------------------

/// Reassembling the four little-endian bytes of `x` gives back `x`.
pub proof fn lemma_u32_le_round(x: u32)
    ensures
        u32_from_le(u32_le(x)[0], u32_le(x)[1], u32_le(x)[2], u32_le(x)[3]) == x,
{
    assert(((x & 0xff) as u8 as u32) | ((((x >> 8) & 0xff) as u8 as u32) << 8) | ((((x >> 16)
        & 0xff) as u8 as u32) << 16) | ((((x >> 24) & 0xff) as u8 as u32) << 24) == x)
        by (bit_vector);
}

/// An `i32` survives the trip through its unsigned two's-complement image.
pub proof fn lemma_i32_cast_round(x: i32)
    ensures
        (x as u32) as i32 == x,
{
    assert((x as u32) as i32 == x) by (bit_vector);
}

pub proof fn lemma_parse_u32_exact(b: Seq<u8>, pos: int, x: u32)
    requires
        0 <= pos,
        pos + 4 <= b.len(),
        b.subrange(pos, pos + 4) == u32_le(x),
    ensures
        parse_u32(b, pos) == Some((x, pos + 4)),
{
    assert(b[pos] == u32_le(x)[0] && b[pos + 1] == u32_le(x)[1] && b[pos + 2] == u32_le(x)[2]
        && b[pos + 3] == u32_le(x)[3]) by {
        assert(b.subrange(pos, pos + 4)[0] == b[pos]);
        assert(b.subrange(pos, pos + 4)[1] == b[pos + 1]);
        assert(b.subrange(pos, pos + 4)[2] == b[pos + 2]);
        assert(b.subrange(pos, pos + 4)[3] == b[pos + 3]);
    }
    lemma_u32_le_round(x);
}

pub proof fn lemma_parse_i32_exact(b: Seq<u8>, pos: int, x: i32)
    requires
        0 <= pos,
        pos + 4 <= b.len(),
        b.subrange(pos, pos + 4) == i32_le(x),
    ensures
        parse_i32(b, pos) == Some((x, pos + 4)),
{
    lemma_parse_u32_exact(b, pos, x as u32);
    lemma_i32_cast_round(x);
}

pub proof fn lemma_parse_bool_exact(b: Seq<u8>, pos: int, v: bool)
    requires
        0 <= pos,
        pos + 1 <= b.len(),
        b[pos] == bool_byte(v),
    ensures
        parse_bool(b, pos) == Some((v, pos + 1)),
{
}

pub proof fn lemma_parse_str_exact(b: Seq<u8>, pos: int, s: Seq<char>)
    requires
        0 <= pos,
        str_fits(s),
        pos + str_wire(s).len() <= b.len(),
        b.subrange(pos, pos + str_wire(s).len()) == str_wire(s),
    ensures
        parse_str(b, pos) == Some((s, pos + str_wire(s).len())),
{
    let u = encode_utf8(s);
    let n = u.len() as u32;
    let w = str_wire(s);
    assert(w.len() == 4 + u.len());
    assert(b.subrange(pos, pos + 4) =~= w.subrange(0, 4));
    assert(w.subrange(0, 4) =~= u32_le(n));
    lemma_parse_u32_exact(b, pos, n);
    let p = pos + 4;
    assert(b.subrange(p, p + n) =~= w.subrange(4, w.len() as int));
    assert(w.subrange(4, w.len() as int) =~= u);
    broadcast use encode_utf8_valid_utf8;
    broadcast use encode_utf8_decode_utf8;

    assert(valid_utf8(u));
    assert(decode_utf8(u) == s);
}

/// The group-id items occupy exactly four bytes per id.
pub proof fn lemma_gid_items_wire_len(g: Seq<u32>)
    ensures
        gid_items_wire(g).len() == 4 * g.len(),
    decreases g.len(),
{
    if g.len() > 0 {
        lemma_gid_items_wire_len(g.drop_first());
    }
}

pub proof fn lemma_parse_gid_items_exact(b: Seq<u8>, pos: int, g: Seq<u32>)
    requires
        0 <= pos,
        pos + 4 * g.len() <= b.len(),
        b.subrange(pos, pos + 4 * g.len()) == gid_items_wire(g),
    ensures
        parse_gid_items(b, pos, g.len()) == Some((g, pos + 4 * g.len())),
    decreases g.len(),
{
    lemma_gid_items_wire_len(g);
    if g.len() == 0 {
        assert(parse_gid_items(b, pos, 0) == Some((Seq::<u32>::empty(), pos)));
        assert(g =~= Seq::<u32>::empty());
    } else {
        let rest = g.drop_first();
        lemma_gid_items_wire_len(rest);
        let w = gid_items_wire(g);
        assert(w == u32_le(g[0]) + gid_items_wire(rest));
        assert(b.subrange(pos, pos + 4) =~= w.subrange(0, 4));
        assert(w.subrange(0, 4) =~= u32_le(g[0]));
        lemma_parse_u32_exact(b, pos, g[0]);
        let p = pos + 4;
        assert(b.subrange(p, p + 4 * rest.len()) =~= w.subrange(4, w.len() as int));
        assert(w.subrange(4, w.len() as int) =~= gid_items_wire(rest));
        lemma_parse_gid_items_exact(b, p, rest);
        assert(seq![g[0]] + rest =~= g);
    }
}

pub proof fn lemma_parse_gids_exact(b: Seq<u8>, pos: int, g: Seq<u32>)
    requires
        0 <= pos,
        g.len() <= MAX_GIDS,
        pos + gids_wire(g).len() <= b.len(),
        b.subrange(pos, pos + gids_wire(g).len()) == gids_wire(g),
    ensures
        parse_gids(b, pos) == Some((g, pos + gids_wire(g).len())),
{
    lemma_gid_items_wire_len(g);
    let w = gids_wire(g);
    let n = g.len() as u32;
    assert(w.len() == 4 + 4 * g.len());
    assert(b.subrange(pos, pos + 4) =~= w.subrange(0, 4));
    assert(w.subrange(0, 4) =~= u32_le(n));
    lemma_parse_u32_exact(b, pos, n);
    let p = pos + 4;
    assert(b.subrange(p, p + 4 * g.len()) =~= w.subrange(4, w.len() as int));
    assert(w.subrange(4, w.len() as int) =~= gid_items_wire(g));
    lemma_parse_gid_items_exact(b, p, g);
}

// ----------------------------------------------------------------------
// Soundness lemmas: whatever a parser accepts re-encodes to exactly the
// bytes it consumed, so the wire format is canonical.
// ----------------------------------------------------------------------

/// Four bytes survive the trip through the `u32` they encode.
pub proof fn lemma_u32_bytes_round(b0: u8, b1: u8, b2: u8, b3: u8)
    ensures
        u32_le(u32_from_le(b0, b1, b2, b3)) == seq![b0, b1, b2, b3],
{
    assert((((b0 as u32) | ((b1 as u32) << 8) | ((b2 as u32) << 16) | ((b3 as u32) << 24))
        & 0xff) as u8 == b0) by (bit_vector);
    assert(((((b0 as u32) | ((b1 as u32) << 8) | ((b2 as u32) << 16) | ((b3 as u32) << 24)) >> 8)
        & 0xff) as u8 == b1) by (bit_vector);
    assert(((((b0 as u32) | ((b1 as u32) << 8) | ((b2 as u32) << 16) | ((b3 as u32) << 24)) >> 16)
        & 0xff) as u8 == b2) by (bit_vector);
    assert(((((b0 as u32) | ((b1 as u32) << 8) | ((b2 as u32) << 16) | ((b3 as u32) << 24)) >> 24)
        & 0xff) as u8 == b3) by (bit_vector);
    assert(u32_le(u32_from_le(b0, b1, b2, b3)) =~= seq![b0, b1, b2, b3]);
}

/// A `u32` survives the trip through its signed two's-complement image.
pub proof fn lemma_u32_cast_round(x: u32)
    ensures
        (x as i32) as u32 == x,
{
    assert((x as i32) as u32 == x) by (bit_vector);
}

pub proof fn lemma_parse_u32_sound(b: Seq<u8>, pos: int)
    requires
        parse_u32(b, pos) is Some,
    ensures
        ({
            let (x, p) = parse_u32(b, pos)->0;
            &&& 0 <= pos
            &&& p == pos + 4
            &&& p <= b.len()
            &&& b.subrange(pos, p) == u32_le(x)
        }),
{
    let (x, p) = parse_u32(b, pos)->0;
    lemma_u32_bytes_round(b[pos], b[pos + 1], b[pos + 2], b[pos + 3]);
    assert(b.subrange(pos, pos + 4) =~= seq![b[pos], b[pos + 1], b[pos + 2], b[pos + 3]]);
}

pub proof fn lemma_parse_i32_sound(b: Seq<u8>, pos: int)
    requires
        parse_i32(b, pos) is Some,
    ensures
        ({
            let (x, p) = parse_i32(b, pos)->0;
            &&& 0 <= pos
            &&& p == pos + 4
            &&& p <= b.len()
            &&& b.subrange(pos, p) == i32_le(x)
        }),
{
    let (u, p) = parse_u32(b, pos)->0;
    lemma_parse_u32_sound(b, pos);
    lemma_u32_cast_round(u);
}

pub proof fn lemma_parse_bool_sound(b: Seq<u8>, pos: int)
    requires
        parse_bool(b, pos) is Some,
    ensures
        ({
            let (v, p) = parse_bool(b, pos)->0;
            &&& 0 <= pos
            &&& p == pos + 1
            &&& p <= b.len()
            &&& b[pos] == bool_byte(v)
        }),
{
}

pub proof fn lemma_parse_str_sound(b: Seq<u8>, pos: int)
    requires
        parse_str(b, pos) is Some,
    ensures
        ({
            let (s, p) = parse_str(b, pos)->0;
            &&& str_fits(s)
            &&& 0 <= pos
            &&& p == pos + str_wire(s).len()
            &&& p <= b.len()
            &&& b.subrange(pos, p) == str_wire(s)
        }),
{
    broadcast use decode_utf8_encode_utf8;

    let (n, p4) = parse_u32(b, pos)->0;
    lemma_parse_u32_sound(b, pos);
    let raw = b.subrange(p4, p4 + n);
    let s = decode_utf8(raw);
    assert(valid_utf8(raw));
    assert(encode_utf8(s) == raw);
    assert((encode_utf8(s).len() as u32) == n);
    assert(str_wire(s) =~= u32_le(n) + raw);
    assert(b.subrange(pos, p4 + n) =~= b.subrange(pos, p4) + raw);
}

pub proof fn lemma_parse_gid_items_sound(b: Seq<u8>, pos: int, n: nat)
    requires
        parse_gid_items(b, pos, n) is Some,
        0 <= pos <= b.len(),
    ensures
        ({
            let (g, p) = parse_gid_items(b, pos, n)->0;
            &&& g.len() == n
            &&& p == pos + 4 * n
            &&& p <= b.len()
            &&& b.subrange(pos, p) == gid_items_wire(g)
        }),
    decreases n,
{
    if n == 0 {
        assert(b.subrange(pos, pos) =~= gid_items_wire(Seq::<u32>::empty()));
    } else {
        let (g0, p4) = parse_u32(b, pos)->0;
        lemma_parse_u32_sound(b, pos);
        lemma_parse_gid_items_sound(b, p4, (n - 1) as nat);
        let (rest, p) = parse_gid_items(b, p4, (n - 1) as nat)->0;
        let (g, p_) = parse_gid_items(b, pos, n)->0;
        assert(g == seq![g0] + rest);
        assert(g[0] == g0);
        assert(g.drop_first() =~= rest);
        assert(gid_items_wire(g) == u32_le(g0) + gid_items_wire(rest));
        assert(b.subrange(pos, p) =~= b.subrange(pos, p4) + b.subrange(p4, p));
    }
}

pub proof fn lemma_parse_gids_sound(b: Seq<u8>, pos: int)
    requires
        parse_gids(b, pos) is Some,
    ensures
        ({
            let (g, p) = parse_gids(b, pos)->0;
            &&& g.len() <= MAX_GIDS
            &&& 0 <= pos
            &&& p == pos + gids_wire(g).len()
            &&& p <= b.len()
            &&& b.subrange(pos, p) == gids_wire(g)
        }),
{
    let (n, p4) = parse_u32(b, pos)->0;
    lemma_parse_u32_sound(b, pos);
    lemma_parse_gid_items_sound(b, p4, n as nat);
    let (g, p) = parse_gid_items(b, p4, n as nat)->0;
    lemma_gid_items_wire_len(g);
    assert((g.len() as u32) == n);
    assert(gids_wire(g) =~= u32_le(n) + gid_items_wire(g));
    assert(b.subrange(pos, p) =~= b.subrange(pos, p4) + b.subrange(p4, p));
}

// ----------------------------------------------------------------------
// Executable encoders
// ----------------------------------------------------------------------

/// Append the little-endian bytes of `x`.
pub fn write_u32(out: &mut Vec<u8>, x: u32)
    ensures
        final(out)@ == old(out)@ + u32_le(x),
{
    out.push((x & 0xff) as u8);
    out.push(((x >> 8) & 0xff) as u8);
    out.push(((x >> 16) & 0xff) as u8);
    out.push(((x >> 24) & 0xff) as u8);
    assert(out@ =~= old(out)@ + u32_le(x));
}

/// Append the little-endian bytes of `x` (two's complement).
pub fn write_i32(out: &mut Vec<u8>, x: i32)
    ensures
        final(out)@ == old(out)@ + i32_le(x),
{
    write_u32(out, x as u32);
    assert(i32_le(x) == u32_le(x as u32));
}

/// Append the one-byte encoding of `v`.
pub fn write_bool(out: &mut Vec<u8>, v: bool)
    ensures
        final(out)@ == old(out)@ + seq![bool_byte(v)],
{
    if v {
        out.push(1);
    } else {
        out.push(0);
    }
    assert(out@ =~= old(out)@ + seq![bool_byte(v)]);
}

/// Append the length-prefixed UTF-8 form of `s`.
pub fn write_str(out: &mut Vec<u8>, s: &str)
    requires
        str_fits(s@),
    ensures
        final(out)@ == old(out)@ + str_wire(s@),
{
    let bytes = s.as_bytes();
    let n = bytes.len();
    write_u32(out, n as u32);
    out.extend_from_slice(bytes);
    assert(out@ =~= old(out)@ + str_wire(s@));
}

/// Append the length-prefixed group-id list.
pub fn write_gids(out: &mut Vec<u8>, gids: &Vec<u32>)
    requires
        gids@.len() <= MAX_GIDS,
    ensures
        final(out)@ == old(out)@ + gids_wire(gids@),
{
    let n = gids.len();
    write_u32(out, n as u32);
    let ghost base = out@;
    let mut i: usize = 0;
    while i < n
        invariant
            i <= n,
            n == gids@.len(),
            out@ == base + gid_items_wire(gids@.take(i as int)),
        decreases n - i,
    {
        let ghost prev = gids@.take(i as int);
        write_u32(out, gids[i]);
        proof {
            let cur = gids@.take(i + 1);
            lemma_gid_items_append(prev, gids@[i as int]);
            assert(cur =~= prev.push(gids@[i as int]));
        }
        i = i + 1;
    }
    proof {
        assert(gids@.take(n as int) =~= gids@);
        assert(out@ =~= base + gid_items_wire(gids@));
        assert(base =~= old(out)@ + u32_le(gids@.len() as u32));
        assert(out@ =~= old(out)@ + gids_wire(gids@));
    }
}

/// Appending one id to a list appends its four bytes to the items' wire form.
proof fn lemma_gid_items_append(g: Seq<u32>, x: u32)
    ensures
        gid_items_wire(g.push(x)) == gid_items_wire(g) + u32_le(x),
    decreases g.len(),
{
    let gp = g.push(x);
    if g.len() == 0 {
        assert(gp.drop_first() =~= Seq::<u32>::empty());
        assert(gp[0] == x);
        assert(gid_items_wire(gp) == u32_le(x) + gid_items_wire(Seq::<u32>::empty()));
        assert(gid_items_wire(g) == Seq::<u8>::empty());
        assert(gid_items_wire(gp) =~= gid_items_wire(g) + u32_le(x));
    } else {
        assert(gp.drop_first() =~= g.drop_first().push(x));
        lemma_gid_items_append(g.drop_first(), x);
        assert(gp[0] == g[0]);
        assert(gid_items_wire(gp) == u32_le(gp[0]) + gid_items_wire(gp.drop_first()));
        assert(gid_items_wire(gp.drop_first()) == gid_items_wire(g.drop_first()) + u32_le(x));
        assert(gid_items_wire(gp) =~= gid_items_wire(g) + u32_le(x));
    }
}

// ----------------------------------------------------------------------
// Executable parsers, each pinned to its specification-level parser
// ----------------------------------------------------------------------

/// Read a little-endian `u32` at `pos`.
pub fn read_u32(b: &[u8], pos: usize) -> (r: Option<(u32, usize)>)
    ensures
        match r {
            Some((x, p)) => parse_u32(b@, pos as int) == Some((x, p as int)),
            None => parse_u32(b@, pos as int) is None,
        },
{
    if b.len() >= 4 && pos <= b.len() - 4 {
        let b0 = b[pos];
        let b1 = b[pos + 1];
        let b2 = b[pos + 2];
        let b3 = b[pos + 3];
        Some(((b0 as u32) | ((b1 as u32) << 8u32) | ((b2 as u32) << 16u32) | ((b3 as u32) << 24u32), pos + 4))
    } else {
        None
    }
}

/// Read a little-endian `i32` at `pos`.
pub fn read_i32(b: &[u8], pos: usize) -> (r: Option<(i32, usize)>)
    ensures
        match r {
            Some((x, p)) => parse_i32(b@, pos as int) == Some((x, p as int)),
            None => parse_i32(b@, pos as int) is None,
        },
{
    match read_u32(b, pos) {
        Some((x, p)) => Some((x as i32, p)),
        None => None,
    }
}

/// Read a boolean byte at `pos`.
pub fn read_bool(b: &[u8], pos: usize) -> (r: Option<(bool, usize)>)
    ensures
        match r {
            Some((v, p)) => parse_bool(b@, pos as int) == Some((v, p as int)),
            None => parse_bool(b@, pos as int) is None,
        },
{
    if pos < b.len() {
        if b[pos] == 0 {
            Some((false, pos + 1))
        } else if b[pos] == 1 {
            Some((true, pos + 1))
        } else {
            None
        }
    } else {
        None
    }
}

/// Relies on str::from_utf8: it succeeds exactly on valid UTF-8 input,
/// and the returned string slice views those same bytes.
#[verifier::external_body]
fn utf8_to_str(v: &[u8]) -> (r: Option<&str>)
    ensures
        r is Some <==> valid_utf8(v@),
        r matches Some(s) ==> s.spec_bytes() == v@,
{
    core::str::from_utf8(v).ok()
}

/// Read a length-prefixed UTF-8 string at `pos`.
pub fn read_str(b: &[u8], pos: usize) -> (r: Option<(String, usize)>)
    ensures
        match r {
            Some((s, p)) => parse_str(b@, pos as int) == Some((s@, p as int)),
            None => parse_str(b@, pos as int) is None,
        },
{
    match read_u32(b, pos) {
        Some((n, p)) => {
            if n as usize <= b.len() && p <= b.len() - (n as usize) {
                let raw = slice_subrange(b, p, p + n as usize);
                match utf8_to_str(raw) {
                    Some(s) => {
                        proof {
                            broadcast use encode_utf8_decode_utf8;

                            assert(s.spec_bytes() == encode_utf8(s@));
                            assert(decode_utf8(raw@) == s@);
                        }
                        Some((s.to_owned(), p + n as usize))
                    },
                    None => None,
                }
            } else {
                None
            }
        },
        None => None,
    }
}

/// Read a length-prefixed group-id list at `pos`.
pub fn read_gids(b: &[u8], pos: usize) -> (r: Option<(Vec<u32>, usize)>)
    ensures
        match r {
            Some((g, p)) => parse_gids(b@, pos as int) == Some((g@, p as int)),
            None => parse_gids(b@, pos as int) is None,
        },
{
    match read_u32(b, pos) {
        Some((n, p)) => {
            if n > MAX_GIDS {
                return None;
            }
            let mut acc: Vec<u32> = Vec::new();
            let mut cur: usize = p;
            let mut i: u32 = 0;
            proof {
                let full = parse_gid_items(b@, p as int, n as nat);
                if full is Some {
                    let (s0, q0) = full->0;
                    assert(Seq::<u32>::empty() + s0 =~= s0);
                }
            }
            loop
                invariant
                    i <= n,
                    n <= MAX_GIDS,
                    acc@.len() == i as nat,
                    cur <= b@.len(),
                    parse_u32(b@, pos as int) == Some((n, p as int)),
                    parse_gid_items(b@, p as int, n as nat) == (match parse_gid_items(
                        b@,
                        cur as int,
                        (n - i) as nat,
                    ) {
                        Some((s, q)) => Some((acc@ + s, q)),
                        None => None::<(Seq<u32>, int)>,
                    }),
                decreases n - i,
            {
                if i == n {
                    proof {
                        assert(parse_gid_items(b@, cur as int, 0) == Some(
                            (Seq::<u32>::empty(), cur as int),
                        ));
                        assert(acc@ + Seq::<u32>::empty() =~= acc@);
                    }
                    return Some((acc, cur));
                }
                match read_u32(b, cur) {
                    Some((g, q)) => {
                        proof {
                            let k = (n - i) as nat;
                            let tail = parse_gid_items(b@, q as int, (k - 1) as nat);
                            assert(parse_gid_items(b@, cur as int, k) == (match tail {
                                Some((s, r2)) => Some((seq![g] + s, r2)),
                                None => None::<(Seq<u32>, int)>,
                            }));
                            if tail is Some {
                                let (s, r2) = tail->0;
                                assert(acc@ + (seq![g] + s) =~= (acc@ + seq![g]) + s);
                                assert(acc@.push(g) =~= acc@ + seq![g]);
                            }
                        }
                        acc.push(g);
                        cur = q;
                        i = i + 1;
                    },
                    None => {
                        return None;
                    },
                }
            }
        },
        None => None,
    }
}

} // verus!
