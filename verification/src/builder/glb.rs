//! The GLB binary container: a 12-byte header (magic, version, total
//! length), a JSON chunk padded with spaces and a BIN chunk padded with
//! zeros, each chunk 4-byte aligned.

use vstd::prelude::*;

verus! {

pub const GLB_MAGIC: u32 = 0x4654_6C67;
pub const GLB_VERSION: u32 = 2;
pub const CHUNK_TYPE_JSON: u32 = 0x4E4F_534A;
pub const CHUNK_TYPE_BIN: u32 = 0x004E_4942;

/// Little-endian bytes of `x`.
pub open spec fn le_bytes(x: u32) -> Seq<u8> {
    seq![
        (x % 256) as u8,
        ((x / 256) % 256) as u8,
        ((x / 65536) % 256) as u8,
        ((x / 16777216) % 256) as u8,
    ]
}

/// Number of fill bytes that bring `len` to a multiple of `alignment`.
pub open spec fn pad_len(len: nat, alignment: nat) -> nat {
    if len % alignment == 0 {
        0
    } else {
        (alignment - len % alignment) as nat
    }
}

/// `b` followed by enough `fill` bytes to make its length a multiple of
/// `alignment`.
pub open spec fn padded(b: Seq<u8>, fill: u8, alignment: nat) -> Seq<u8> {
    b + Seq::new(pad_len(b.len(), alignment), |_i: int| fill)
}

/// The 12-byte file header: magic, version and total length.
pub open spec fn glb_header(total: u32) -> Seq<u8> {
    le_bytes(GLB_MAGIC) + le_bytes(GLB_VERSION) + le_bytes(total)
}

/// A chunk: its length, its type, then its data.
pub open spec fn glb_chunk(chunk_type: u32, data: Seq<u8>) -> Seq<u8> {
    le_bytes(data.len() as u32) + le_bytes(chunk_type) + data
}

/// The GLB file holding `json` and `bin`: the JSON chunk padded with
/// spaces, the BIN chunk padded with zeros.
pub open spec fn glb_file(json: Seq<u8>, bin: Seq<u8>) -> Seq<u8> {
    let j = padded(json, 0x20, 4);
    let b = padded(bin, 0, 4);
    let total = (28 + j.len() + b.len()) as u32;
    glb_header(total) + (glb_chunk(CHUNK_TYPE_JSON, j) + glb_chunk(CHUNK_TYPE_BIN, b))
}

proof fn lemma_padding_aligns(len: int, a: int)
    requires
        a > 0,
        len >= 0,
    ensures
        (len + (a - len % a)) % a == 0,
        len % a < a,
{
    vstd::arithmetic::div_mod::lemma_fundamental_div_mod(len, a);
    let q = len / a;
    let r = len % a;
    assert(len + (a - r) == (q + 1) * a) by (nonlinear_arith)
        requires
            len == a * q + r,
    ;
    vstd::arithmetic::div_mod::lemma_mod_multiples_basic(q + 1, a);
}

/// A GLB file's header records its own length, and the file, like each of
/// its chunks, is a whole number of 4-byte words.
pub proof fn law_glb_length_in_header(json: Seq<u8>, bin: Seq<u8>)
    requires
        json.len() + bin.len() + 40 <= u32::MAX,
    ensures
        glb_file(json, bin).len() % 4 == 0,
        glb_file(json, bin).subrange(8, 12) == le_bytes(glb_file(json, bin).len() as u32),
        padded(json, 0x20, 4).len() % 4 == 0,
        padded(bin, 0, 4).len() % 4 == 0,
{
    lemma_padded_len(json, 0x20);
    lemma_padded_len(bin, 0);
    let jl = padded(json, 0x20, 4).len() as int;
    let bl = padded(bin, 0, 4).len() as int;
    lemma_glb_len(json, bin);
    lemma_sum_aligned(jl, bl);
    lemma_header_total(json, bin);
}

proof fn lemma_glb_len(json: Seq<u8>, bin: Seq<u8>)
    ensures
        glb_file(json, bin).len() == 28 + padded(json, 0x20, 4).len() + padded(bin, 0, 4).len(),
{
}

proof fn lemma_sum_aligned(a: int, b: int)
    requires
        a >= 0,
        b >= 0,
        a % 4 == 0,
        b % 4 == 0,
    ensures
        (28 + a + b) % 4 == 0,
{
}

proof fn lemma_header_total(json: Seq<u8>, bin: Seq<u8>)
    ensures
        glb_file(json, bin).subrange(8, 12) == le_bytes(
            (28 + padded(json, 0x20, 4).len() + padded(bin, 0, 4).len()) as u32,
        ),
{
    let j = padded(json, 0x20, 4);
    let b = padded(bin, 0, 4);
    let total = (28 + j.len() + b.len()) as u32;
    let h = glb_header(total);
    let rest = glb_chunk(CHUNK_TYPE_JSON, j) + glb_chunk(CHUNK_TYPE_BIN, b);
    assert(glb_file(json, bin) == h + rest);
    assert(h.subrange(8, 12) =~= le_bytes(total));
    assert((h + rest).subrange(8, 12) =~= h.subrange(8, 12));
}

proof fn lemma_padded_len(b: Seq<u8>, fill: u8)
    ensures
        padded(b, fill, 4).len() % 4 == 0,
        padded(b, fill, 4).len() <= b.len() + 3,
{
    lemma_padding_aligns(b.len() as int, 4);
}

fn push_le(out: &mut Vec<u8>, x: u32)
    ensures
        final(out)@ == old(out)@ + le_bytes(x),
{
    out.push((x % 256) as u8);
    out.push(((x / 256) % 256) as u8);
    out.push(((x / 65536) % 256) as u8);
    out.push(((x / 16777216) % 256) as u8);
    assert(final(out)@ =~= old(out)@ + le_bytes(x));
}

fn append_bytes(out: &mut Vec<u8>, bytes: &Vec<u8>)
    ensures
        final(out)@ == old(out)@ + bytes@,
{
    let mut i: usize = 0;
    while i < bytes.len()
        invariant
            i <= bytes.len(),
            out@ == old(out)@ + bytes@.subrange(0, i as int),
        decreases bytes.len() - i,
    {
        out.push(bytes[i]);
        i = i + 1;
        assert(out@ =~= old(out)@ + bytes@.subrange(0, i as int));
    }
    assert(bytes@.subrange(0, bytes@.len() as int) =~= bytes@);
}

/// Pad `buf` with `fill` to a multiple of `alignment`; returns the new
/// length.
pub fn align_to(buf: &mut Vec<u8>, alignment: usize, fill: u8) -> (len: usize)
    requires
        alignment > 0,
        old(buf)@.len() + alignment <= usize::MAX,
    ensures
        final(buf)@ == padded(old(buf)@, fill, alignment as nat),
        len == final(buf)@.len(),
        len % alignment == 0,
{
    let rem = buf.len() % alignment;
    let ghost start = buf@;
    if rem != 0 {
        let n = alignment - rem;
        let mut k: usize = 0;
        while k < n
            invariant
                k <= n,
                n == alignment - rem,
                start.len() + alignment <= usize::MAX,
                buf@ == start + Seq::new(k as nat, |_i: int| fill),
            decreases n - k,
        {
            buf.push(fill);
            k = k + 1;
            assert(buf@ =~= start + Seq::new(k as nat, |_i: int| fill));
        }
        proof {
            lemma_padding_aligns(start.len() as int, alignment as int);
        }
    } else {
        assert(buf@ =~= padded(start, fill, alignment as nat));
    }
    buf.len()
}

/// Pad `buf` with `fill` to a multiple of four bytes.
pub fn pad_to_4(buf: &mut Vec<u8>, fill: u8)
    requires
        old(buf)@.len() + 4 <= usize::MAX,
    ensures
        final(buf)@ == padded(old(buf)@, fill, 4),
{
    align_to(buf, 4, fill);
}

/// Encode `json` and `bin` as a GLB file. The sizes must fit the 32-bit
/// length fields.
pub fn encode_glb(json: Vec<u8>, bin: &Vec<u8>) -> (out: Vec<u8>)
    requires
        json@.len() + bin@.len() + 40 <= u32::MAX,
    ensures
        out@ == glb_file(json@, bin@),
{
    let mut json_bytes = json;
    pad_to_4(&mut json_bytes, 0x20);
    let mut bin_padded: Vec<u8> = Vec::new();
    append_bytes(&mut bin_padded, bin);
    pad_to_4(&mut bin_padded, 0);
    let json_chunk_len = json_bytes.len() as u32;
    let bin_chunk_len = bin_padded.len() as u32;
    let total: u32 = 12 + 8 + json_chunk_len + 8 + bin_chunk_len;
    let mut out: Vec<u8> = Vec::new();
    push_le(&mut out, GLB_MAGIC);
    push_le(&mut out, GLB_VERSION);
    push_le(&mut out, total);
    push_le(&mut out, json_chunk_len);
    push_le(&mut out, CHUNK_TYPE_JSON);
    append_bytes(&mut out, &json_bytes);
    push_le(&mut out, bin_chunk_len);
    push_le(&mut out, CHUNK_TYPE_BIN);
    append_bytes(&mut out, &bin_padded);
    assert(out@ =~= glb_file(json@, bin@));
    out
}

} // verus!
