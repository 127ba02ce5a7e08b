//! Framing of a single-ended conversion request to an MCP3008 ADC over SPI,
//! and decoding of its reply.
//!
//! A conversion is one full-duplex transfer of four bytes. The request holds
//! the start bit, the single-ended bit and the three channel bits in the top
//! five bits of a big-endian 16-bit word; the ten-bit result comes back in
//! bits 24 to 15 of the big-endian 32-bit word read from the same buffer.

use vstd::prelude::*;
use byteorder::{BigEndian, ByteOrder};

verus! {

/// The 16-bit request word for `channel`: start bit 15, single-ended bit 14,
/// and the channel number in bits 13 to 11. Only the three low bits of
/// `channel` reach the word.
pub open spec fn command_word_of(channel: u8) -> int {
    0xC000 + (channel % 8) * 0x800
}

/// The four bytes sent for a conversion on `channel`: the request word,
/// most significant byte first, then two zero bytes.
pub open spec fn command_frame_of(channel: u8) -> Seq<u8> {
    seq![(command_word_of(channel) / 0x100) as u8, (command_word_of(channel) % 0x100) as u8, 0u8, 0u8]
}

/// The first four bytes of `bytes` read as a big-endian unsigned number.
pub open spec fn be_u32_of(bytes: Seq<u8>) -> int {
    bytes[0] * 0x100_0000 + bytes[1] * 0x1_0000 + bytes[2] * 0x100 + bytes[3]
}

/// The ten-bit conversion result held in a reply: bits 24 to 15 of the
/// big-endian word.
pub open spec fn reply_value_of(frame: Seq<u8>) -> int {
    (be_u32_of(frame) / 0x8000) % 0x400
}

/// `BigEndian::write_u16` of the byteorder crate: stores `n` in the first
/// two bytes of `buf`, most significant byte first, and leaves the other
/// bytes as they were. The crate panics when `buf` is shorter than two
/// bytes, which `requires` rules out.
#[verifier::external_body]
fn be_write_u16(buf: &mut [u8], n: u16)
    requires
        old(buf)@.len() >= 2,
    ensures
        final(buf)@ == old(buf)@.update(0, (n / 0x100) as u8).update(1, (n % 0x100) as u8),
{
    BigEndian::write_u16(buf, n)
}

/// `BigEndian::read_u32` of the byteorder crate: the first four bytes of
/// `buf` as a big-endian number. The crate panics when `buf` is shorter
/// than four bytes, which `requires` rules out.
#[verifier::external_body]
fn be_read_u32(buf: &[u8]) -> (n: u32)
    requires
        buf@.len() >= 4,
    ensures
        n == be_u32_of(buf@),
{
    BigEndian::read_u32(buf)
}

/// The request word for a single-ended conversion on `channel`.
pub fn command_word(channel: u8) -> (word: u16)
    ensures
        word == command_word_of(channel),
        word == 0xC000 + (channel % 8) * 0x800,
        word / 0x800 == 0x18 + channel % 8,
        word % 0x800 == 0,
{
    let word: u16 = ((0b11000u8 | channel) as u16) << 11u16;
    assert(((0b11000u8 | channel) as u16) << 11u16 == 0xC000u16 + (channel % 8) * 0x800u16)
        by (bit_vector);
    word
}

/// The four bytes to transfer for a single-ended conversion on `channel`.
pub fn encode_command(channel: u8) -> (frame: [u8; 4])
    ensures
        frame@ == command_frame_of(channel),
        frame@.len() == 4,
        frame@[0] == 0xC0 + (channel % 8) * 8,
        frame@[1] == 0,
        frame@[2] == 0,
        frame@[3] == 0,
        frame@[0] * 0x100 + frame@[1] == command_word_of(channel),
{
    let command = command_word(channel);
    let mut frame: [u8; 4] = [0, 0, 0, 0];
    be_write_u16(&mut frame, command);
    assert(frame@ =~= command_frame_of(channel));
    frame
}

/// The conversion result held in the four bytes that came back from the
/// transfer.
pub fn decode_reply(frame: &[u8; 4]) -> (raw: u32)
    ensures
        raw == reply_value_of(frame@),
        raw < 0x400,
        raw == (frame@[0] % 2) * 0x200 + frame@[1] * 2 + frame@[2] / 0x80,
{
    let word = be_read_u32(frame);
    let raw = (word >> 15u32) & 0x03ffu32;
    assert((word >> 15u32) & 0x03ffu32 == (word / 0x8000) % 0x400) by (bit_vector);
    proof {
        lemma_reply_value_bits(frame@);
    }
    raw
}

/// The request names the channel by its three low bits only: channels that
/// agree modulo 8 are sent the same request, and the first byte carries
/// start bit, single-ended bit and channel number in its top five bits.
pub proof fn lemma_command_frame_layout(channel: u8)
    ensures
        command_frame_of(channel) == command_frame_of(channel % 8),
        command_frame_of(channel)[0] == 0xC0 + (channel % 8) * 8,
        command_frame_of(channel)[1] == 0,
        command_frame_of(channel)[2] == 0,
        command_frame_of(channel)[3] == 0,
        command_frame_of(channel).len() == 4,
        command_frame_of(channel)[0] * 0x100 + command_frame_of(channel)[1] == command_word_of(
            channel,
        ),
        command_word_of(channel) == 0xC000 + (channel % 8) * 0x800,
        command_frame_of(channel)[0] / 0x40 == 3,
        (command_frame_of(channel)[0] / 8) % 8 == channel % 8,
        command_frame_of(channel)[0] % 8 == 0,
{
}

/// The result in a reply is made of the lowest bit of the first byte, the
/// whole second byte and the highest bit of the third byte, in that order
/// from most to least significant; the fourth byte plays no part.
pub proof fn lemma_reply_value_bits(frame: Seq<u8>)
    requires
        frame.len() == 4,
    ensures
        reply_value_of(frame) == (frame[0] % 2) * 0x200 + frame[1] * 2 + frame[2] / 0x80,
{
    let b0 = frame[0] as int;
    let b1 = frame[1] as int;
    let b2 = frame[2] as int;
    let b3 = frame[3] as int;
    let n = be_u32_of(frame);
    assert(n == (b0 * 0x200 + b1 * 2 + b2 / 0x80) * 0x8000 + (b2 % 0x80) * 0x100 + b3);
    assert(n / 0x8000 == b0 * 0x200 + b1 * 2 + b2 / 0x80);
    assert((b0 * 0x200 + b1 * 2 + b2 / 0x80) % 0x400 == (b0 % 2) * 0x200 + b1 * 2 + b2 / 0x80);
}

/// Any ten-bit result placed in a reply as the converter places it, with
/// whatever fill in the remaining bits, is decoded as that result.
pub proof fn lemma_reply_value_round_trip(value: int, fill_high: int, fill_low: int, last: u8)
    requires
        0 <= value < 0x400,
        0 <= fill_high < 0x80,
        0 <= fill_low < 0x80,
    ensures
        reply_value_of(
            seq![
                (fill_high * 2 + value / 0x200) as u8,
                ((value / 2) % 0x100) as u8,
                ((value % 2) * 0x80 + fill_low) as u8,
                last,
            ],
        ) == value,
{
    let frame = seq![
        (fill_high * 2 + value / 0x200) as u8,
        ((value / 2) % 0x100) as u8,
        ((value % 2) * 0x80 + fill_low) as u8,
        last,
    ];
    lemma_reply_value_bits(frame);
}

} // verus!
