//! Video frames and the binary message that carries one.
//!
//! The message is a header of five little-endian 32-bit numbers (the magic
//! number, the width, the height, the format code and the stride) and then the
//! raw pixels.

use vstd::arithmetic::div_mod::*;
use vstd::prelude::*;

verus! {

/// The first number of a frame message. Its bytes spell `RSDK`.
pub const FRAME_MAGIC: u32 = 0x4B44_5352;

/// The order of the channels of a pixel.
#[derive(Clone, Copy, Debug, PartialEq, Eq, Structural)]
pub enum ImageFormat {
    Raw,
    ABGR,
    ARGB,
}

/// A decoded image: the raw buffer and its dimensions.
pub struct ImageRgb {
    pub raw: Vec<u8>,
    pub w: usize,
    pub h: usize,
    pub fmt: ImageFormat,
}

/// The latest decoded video frame.
pub struct LatestFrame {
    pub data: Vec<u8>,
    pub w: usize,
    pub h: usize,
    pub fmt: ImageFormat,
    pub stride: usize,
}

/// The number that stands for a format in a frame message.
pub open spec fn format_number(fmt: ImageFormat) -> u32 {
    match fmt {
        ImageFormat::ABGR => 0,
        ImageFormat::ARGB => 1,
        ImageFormat::Raw => 2,
    }
}

/// The word that stands for a format in a reply.
pub open spec fn format_word(fmt: ImageFormat) -> Seq<char> {
    match fmt {
        ImageFormat::ABGR => "abgr"@,
        ImageFormat::ARGB => "argb"@,
        ImageFormat::Raw => "rgb"@,
    }
}

/// The low 32 bits of a size.
pub open spec fn low32(size: usize) -> u32 {
    (size as nat % 0x1_0000_0000) as u32
}

/// The four bytes of a number, the lowest first.
pub open spec fn le_bytes(number: u32) -> Seq<u8> {
    seq![
        (number as int % 256) as u8,
        (number as int / 256 % 256) as u8,
        (number as int / 65536 % 256) as u8,
        (number as int / 16777216) as u8,
    ]
}

/// The number whose four bytes, the lowest first, stand at `at`.
pub open spec fn le_number(bytes: Seq<u8>, at: int) -> int {
    bytes[at] + 256 * bytes[at + 1] + 65536 * bytes[at + 2] + 16777216 * bytes[at + 3]
}

/// The bytes that come before the pixels of a frame.
pub open spec fn frame_header(frame: LatestFrame) -> Seq<u8> {
    le_bytes(FRAME_MAGIC) + le_bytes(low32(frame.w)) + le_bytes(low32(frame.h)) + le_bytes(
        format_number(frame.fmt),
    ) + le_bytes(low32(frame.stride))
}

/// The message that carries a frame.
pub open spec fn frame_message(frame: LatestFrame) -> Seq<u8> {
    frame_header(frame) + frame.data@
}

/// The number of bytes per row: the buffer divided evenly among the rows, and
/// nothing where there are no rows.
pub open spec fn stride_of(len: nat, h: nat) -> nat {
    if h == 0 {
        0
    } else {
        len / h
    }
}

/// The word that stands for a format in a reply.
pub fn format_code(fmt: ImageFormat) -> (word: &'static str)
    ensures
        word@ == format_word(fmt),
{
    match fmt {
        ImageFormat::ABGR => "abgr",
        ImageFormat::ARGB => "argb",
        ImageFormat::Raw => "rgb",
    }
}

/// The number that stands for a format in a frame message.
pub fn format_index(fmt: ImageFormat) -> (number: u32)
    ensures
        number == format_number(fmt),
{
    match fmt {
        ImageFormat::ABGR => 0,
        ImageFormat::ARGB => 1,
        ImageFormat::Raw => 2,
    }
}

fn push_le(out: &mut Vec<u8>, number: u32)
    ensures
        final(out)@ == old(out)@ + le_bytes(number),
{
    out.push((number % 256) as u8);
    out.push((number / 256 % 256) as u8);
    out.push((number / 65536 % 256) as u8);
    out.push((number / 16777216) as u8);
    assert(out@ =~= old(out)@ + le_bytes(number));
}

fn truncate_size(size: usize) -> (number: u32)
    ensures
        number == low32(size),
{
    let wide: u64 = size as u64;
    (wide % 0x1_0000_0000) as u32
}

/// Builds the message that carries a frame.
pub fn encode_frame(frame: &LatestFrame) -> (message: Vec<u8>)
    ensures
        message@ == frame_message(*frame),
{
    let mut message: Vec<u8> = Vec::with_capacity(20);
    push_le(&mut message, FRAME_MAGIC);
    push_le(&mut message, truncate_size(frame.w));
    push_le(&mut message, truncate_size(frame.h));
    push_le(&mut message, format_index(frame.fmt));
    push_le(&mut message, truncate_size(frame.stride));
    assert(message@ =~= frame_header(*frame));
    message.extend_from_slice(frame.data.as_slice());
    assert(message@ =~= frame_message(*frame));
    message
}

/// The bytes are those of the number.
#[verifier::opaque]
spec fn spells(bytes: Seq<u8>, number: u32) -> bool {
    bytes == le_bytes(number)
}

/// A number is read back from its four bytes, wherever they stand.
proof fn lemma_le_number(number: u32, bytes: Seq<u8>, at: int)
    requires
        0 <= at,
        at + 4 <= bytes.len(),
        spells(bytes.subrange(at, at + 4), number),
    ensures
        le_number(bytes, at) == number,
{
    reveal(spells);
    let part = bytes.subrange(at, at + 4);
    assert(part[0] == bytes[at]);
    assert(part[1] == bytes[at + 1]);
    assert(part[2] == bytes[at + 2]);
    assert(part[3] == bytes[at + 3]);
}

/// The numbers of a header are read back, each from its place.
proof fn lemma_numbers(bytes: Seq<u8>, a: u32, b: u32, c: u32, d: u32, e: u32)
    requires
        bytes.len() >= 20,
        spells(bytes.subrange(0, 4), a),
        spells(bytes.subrange(4, 8), b),
        spells(bytes.subrange(8, 12), c),
        spells(bytes.subrange(12, 16), d),
        spells(bytes.subrange(16, 20), e),
    ensures
        le_number(bytes, 0) == a,
        le_number(bytes, 4) == b,
        le_number(bytes, 8) == c,
        le_number(bytes, 12) == d,
        le_number(bytes, 16) == e,
{
    lemma_le_number(a, bytes, 0);
    lemma_le_number(b, bytes, 4);
    lemma_le_number(c, bytes, 8);
    lemma_le_number(d, bytes, 12);
    lemma_le_number(e, bytes, 16);
}

/// Each piece of a message stands at its place.
proof fn lemma_pieces(
    first: Seq<u8>,
    second: Seq<u8>,
    third: Seq<u8>,
    fourth: Seq<u8>,
    fifth: Seq<u8>,
    rest: Seq<u8>,
)
    requires
        first.len() == 4,
        second.len() == 4,
        third.len() == 4,
        fourth.len() == 4,
        fifth.len() == 4,
    ensures
        ({
            let whole = first + second + third + fourth + fifth + rest;
            &&& whole.len() == 20 + rest.len()
            &&& whole.subrange(0, 4) == first
            &&& whole.subrange(4, 8) == second
            &&& whole.subrange(8, 12) == third
            &&& whole.subrange(12, 16) == fourth
            &&& whole.subrange(16, 20) == fifth
            &&& whole.skip(20) == rest
        }),
{
    let whole = first + second + third + fourth + fifth + rest;
    assert(whole.subrange(0, 4) =~= first);
    assert(whole.subrange(4, 8) =~= second);
    assert(whole.subrange(8, 12) =~= third);
    assert(whole.subrange(12, 16) =~= fourth);
    assert(whole.subrange(16, 20) =~= fifth);
    assert(whole.skip(20) =~= rest);
}

/// The numbers of the header, and the pixels, stand at their places.
proof fn lemma_frame_pieces(frame: LatestFrame)
    ensures
        frame_message(frame).len() == 20 + frame.data@.len(),
        spells(frame_message(frame).subrange(0, 4), FRAME_MAGIC),
        spells(frame_message(frame).subrange(4, 8), low32(frame.w)),
        spells(frame_message(frame).subrange(8, 12), low32(frame.h)),
        spells(frame_message(frame).subrange(12, 16), format_number(frame.fmt)),
        spells(frame_message(frame).subrange(16, 20), low32(frame.stride)),
        frame_message(frame).skip(20) == frame.data@,
{
    reveal(spells);
    lemma_pieces(
        le_bytes(FRAME_MAGIC),
        le_bytes(low32(frame.w)),
        le_bytes(low32(frame.h)),
        le_bytes(format_number(frame.fmt)),
        le_bytes(low32(frame.stride)),
        frame.data@,
    );
}

/// The header holds the low 32 bits of each dimension, and the pixels stand
/// behind it.
#[verifier::spinoff_prover]
pub proof fn lemma_header(frame: LatestFrame)
    ensures
        frame_message(frame).len() == 20 + frame.data@.len(),
        le_number(frame_message(frame), 0) == FRAME_MAGIC,
        le_number(frame_message(frame), 4) == low32(frame.w),
        le_number(frame_message(frame), 8) == low32(frame.h),
        le_number(frame_message(frame), 12) == format_number(frame.fmt),
        le_number(frame_message(frame), 16) == low32(frame.stride),
        frame_message(frame).skip(20) == frame.data@,
{
    lemma_frame_pieces(frame);
    lemma_numbers(
        frame_message(frame),
        FRAME_MAGIC,
        low32(frame.w),
        low32(frame.h),
        format_number(frame.fmt),
        low32(frame.stride),
    );
}

proof fn lemma_magic()
    ensures
        le_bytes(FRAME_MAGIC) == seq!['R' as u8, 'S' as u8, 'D' as u8, 'K' as u8],
{
    assert(FRAME_MAGIC as int % 256 == 0x52);
    assert(FRAME_MAGIC as int / 256 % 256 == 0x53);
    assert(FRAME_MAGIC as int / 65536 % 256 == 0x44);
    assert(FRAME_MAGIC as int / 16777216 == 0x4B);
}

/// A frame message opens with the letters `RSDK`.
pub proof fn frame_message_opens_with_rsdk(frame: LatestFrame)
    ensures
        frame_message(frame).len() == 20 + frame.data@.len(),
        frame_message(frame).take(4) == le_bytes(FRAME_MAGIC),
        le_bytes(FRAME_MAGIC) == seq!['R' as u8, 'S' as u8, 'D' as u8, 'K' as u8],
{
    lemma_frame_pieces(frame);
    lemma_magic();
    reveal(spells);
    let message = frame_message(frame);
    assert(message.take(4) =~= message.subrange(0, 4));
}

/// A size that needs no more than 32 bits is its own low 32 bits.
proof fn lemma_small_size(size: usize)
    requires
        size <= u32::MAX,
    ensures
        low32(size) == size,
{
}

/// A frame message gives back the frame: each number of the header at its
/// place, and the pixels behind the header. Dimensions that need more than 32
/// bits are left out: the header has no room for them.
#[verifier::spinoff_prover]
pub proof fn frame_message_gives_back_the_frame(frame: LatestFrame)
    requires
        frame.w <= u32::MAX,
        frame.h <= u32::MAX,
        frame.stride <= u32::MAX,
    ensures
        le_number(frame_message(frame), 0) == FRAME_MAGIC,
        le_number(frame_message(frame), 4) == frame.w,
        le_number(frame_message(frame), 8) == frame.h,
        le_number(frame_message(frame), 12) == format_number(frame.fmt),
        le_number(frame_message(frame), 16) == frame.stride,
        frame_message(frame).skip(20) == frame.data@,
{
    lemma_small_size(frame.w);
    lemma_small_size(frame.h);
    lemma_small_size(frame.stride);
    lemma_header(frame);
}

/// No two formats share a number, and no two share a word.
pub proof fn formats_are_told_apart(left: ImageFormat, right: ImageFormat)
    ensures
        format_number(left) == format_number(right) ==> left == right,
        format_word(left) == format_word(right) ==> left == right,
{
    reveal_strlit("abgr");
    reveal_strlit("argb");
    reveal_strlit("rgb");
    assert("abgr"@[1] == 'b');
    assert("argb"@[1] == 'r');
}

/// The rows never reach past the buffer, and they cover all of it where its
/// length is a whole number of rows.
pub proof fn rows_fit_the_buffer(len: nat, h: nat)
    requires
        h > 0,
    ensures
        stride_of(len, h) * h <= len,
        len < (stride_of(len, h) + 1) * h,
        len % h == 0 ==> stride_of(len, h) * h == len,
{
    lemma_fundamental_div_mod(len as int, h as int);
    lemma_mod_bound(len as int, h as int);
    let q = len / h;
    assert(h * q == q * h) by (nonlinear_arith);
    assert((q + 1) * h == q * h + h) by (nonlinear_arith);
}

} // verus!
