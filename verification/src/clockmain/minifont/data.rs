//! The tables of the mini font.

use crate::word::word_of;
use vstd::prelude::*;

verus! {

/// Four bytes for each of 128 characters: where its commands start in the
/// command table and where they end, each as two bytes, high byte first.
const DESCRIPTORS: [u8; 512] = [
    0x00, 0x00, 0x00, 0x04, 0x00, 0x04, 0x00, 0x07, 0x00, 0x07, 0x00, 0x0a,
    0x00, 0x0a, 0x00, 0x0d, 0x00, 0x0d, 0x00, 0x0f, 0x00, 0x0f, 0x00, 0x13,
    0x00, 0x13, 0x00, 0x16, 0x00, 0x16, 0x00, 0x1a, 0x00, 0x1a, 0x00, 0x1d,
    0x00, 0x1d, 0x00, 0x22, 0x00, 0x22, 0x00, 0x27, 0x00, 0x27, 0x00, 0x29,
    0x00, 0x29, 0x00, 0x2f, 0x00, 0x2f, 0x00, 0x35, 0x00, 0x35, 0x00, 0x39,
    0x00, 0x39, 0x00, 0x3d, 0x00, 0x3d, 0x00, 0x42, 0x00, 0x42, 0x00, 0x47,
    0x00, 0x47, 0x00, 0x4a, 0x00, 0x4a, 0x00, 0x4e, 0x00, 0x4e, 0x00, 0x52,
    0x00, 0x52, 0x00, 0x58, 0x00, 0x58, 0x00, 0x5e, 0x00, 0x5e, 0x00, 0x64,
    0x00, 0x64, 0x00, 0x6a, 0x00, 0x6a, 0x00, 0x6c, 0x00, 0x6c, 0x00, 0x70,
    0x00, 0x70, 0x00, 0x73, 0x00, 0x73, 0x00, 0x75, 0x00, 0x75, 0x00, 0x78,
    0x00, 0x78, 0x00, 0x7c, 0x00, 0x7c, 0x00, 0x7f, 0x00, 0x7f, 0x00, 0x83,
    0x00, 0x83, 0x00, 0x88, 0x00, 0x88, 0x00, 0x8c, 0x00, 0x8c, 0x00, 0x90,
    0x00, 0x90, 0x00, 0x91, 0x00, 0x91, 0x00, 0x94, 0x00, 0x94, 0x00, 0x9b,
    0x00, 0x9b, 0x00, 0xa0, 0x00, 0xa0, 0x00, 0xa5, 0x00, 0xa5, 0x00, 0xaa,
    0x00, 0xaa, 0x00, 0xac, 0x00, 0xac, 0x00, 0xac, 0x00, 0xac, 0x00, 0xac,
    0x00, 0xac, 0x00, 0xac, 0x00, 0xac, 0x00, 0xac, 0x00, 0xac, 0x00, 0xac,
    0x00, 0xac, 0x00, 0xac, 0x00, 0xac, 0x00, 0xac, 0x00, 0xac, 0x00, 0xac,
    0x00, 0xac, 0x00, 0xac, 0x00, 0xac, 0x00, 0xac, 0x00, 0xac, 0x00, 0xac,
    0x00, 0xac, 0x00, 0xac, 0x00, 0xac, 0x00, 0xac, 0x00, 0xac, 0x00, 0xac,
    0x00, 0xac, 0x00, 0xac, 0x00, 0xac, 0x00, 0xac, 0x00, 0xac, 0x00, 0xac,
    0x00, 0xac, 0x00, 0xac, 0x00, 0xac, 0x00, 0xac, 0x00, 0xac, 0x00, 0xac,
    0x00, 0xac, 0x00, 0xac, 0x00, 0xac, 0x00, 0xac, 0x00, 0xac, 0x00, 0xac,
    0x00, 0xac, 0x00, 0xac, 0x00, 0xac, 0x00, 0xac, 0x00, 0xac, 0x00, 0xac,
    0x00, 0xac, 0x00, 0xac, 0x00, 0xac, 0x00, 0xac, 0x00, 0xac, 0x00, 0xac,
    0x00, 0xac, 0x00, 0xac, 0x00, 0xac, 0x00, 0xac, 0x00, 0xac, 0x00, 0xac,
    0x00, 0xac, 0x00, 0xac, 0x00, 0xac, 0x00, 0xac, 0x00, 0xac, 0x00, 0xac,
    0x00, 0xac, 0x00, 0xac, 0x00, 0xac, 0x00, 0xac, 0x00, 0xac, 0x00, 0xac,
    0x00, 0xac, 0x00, 0xac, 0x00, 0xac, 0x00, 0xac, 0x00, 0xac, 0x00, 0xac,
    0x00, 0xac, 0x00, 0xac, 0x00, 0xac, 0x00, 0xac, 0x00, 0xac, 0x00, 0xac,
    0x00, 0xac, 0x00, 0xac, 0x00, 0xac, 0x00, 0xac, 0x00, 0xac, 0x00, 0xac,
    0x00, 0xac, 0x00, 0xac, 0x00, 0xac, 0x00, 0xac, 0x00, 0xac, 0x00, 0xac,
    0x00, 0xac, 0x00, 0xac, 0x00, 0xac, 0x00, 0xac, 0x00, 0xac, 0x00, 0xac,
    0x00, 0xac, 0x00, 0xac, 0x00, 0xac, 0x00, 0xac, 0x00, 0xac, 0x00, 0xac,
    0x00, 0xac, 0x00, 0xac, 0x00, 0xac, 0x00, 0xac, 0x00, 0xac, 0x00, 0xac,
    0x00, 0xac, 0x00, 0xac, 0x00, 0xac, 0x00, 0xac, 0x00, 0xac, 0x00, 0xac,
    0x00, 0xac, 0x00, 0xac, 0x00, 0xac, 0x00, 0xac, 0x00, 0xac, 0x00, 0xac,
    0x00, 0xac, 0x00, 0xac, 0x00, 0xac, 0x00, 0xac, 0x00, 0xac, 0x00, 0xac,
    0x00, 0xac, 0x00, 0xac, 0x00, 0xac, 0x00, 0xac, 0x00, 0xac, 0x00, 0xac,
    0x00, 0xac, 0x00, 0xac, 0x00, 0xac, 0x00, 0xac, 0x00, 0xac, 0x00, 0xac,
    0x00, 0xac, 0x00, 0xac, 0x00, 0xac, 0x00, 0xac, 0x00, 0xac, 0x00, 0xac,
    0x00, 0xac, 0x00, 0xac, 0x00, 0xac, 0x00, 0xac, 0x00, 0xac, 0x00, 0xac,
    0x00, 0xac, 0x00, 0xac, 0x00, 0xac, 0x00, 0xac, 0x00, 0xac, 0x00, 0xac,
    0x00, 0xac, 0x00, 0xac, 0x00, 0xac, 0x00, 0xae,
];

/// The drawing commands of all characters, one byte each.
const COMMANDS: [u8; 174] = [
    0x51, 0x33, 0x51, 0x01, 0x54, 0x41, 0x01, 0x41, 0x54, 0x01, 0x54, 0x41,
    0x01, 0x55, 0x01, 0x51, 0x33, 0x11, 0x01, 0x41, 0x54, 0x01, 0x51, 0x33,
    0x51, 0x01, 0x01, 0x53, 0x01, 0x41, 0x52, 0x41, 0x11, 0x01, 0x51, 0x32,
    0x41, 0x51, 0x01, 0x55, 0x01, 0x51, 0x21, 0x31, 0x21, 0x51, 0x01, 0x51,
    0x21, 0x31, 0x41, 0x51, 0x01, 0x41, 0x53, 0x41, 0x01, 0x51, 0x33, 0x21,
    0x01, 0x41, 0x52, 0x41, 0x51, 0x01, 0x51, 0x32, 0x41, 0x51, 0x01, 0x54,
    0x41, 0x01, 0x12, 0x51, 0x12, 0x01, 0x41, 0x53, 0x41, 0x01, 0x31, 0x41,
    0x51, 0x41, 0x31, 0x01, 0x51, 0x41, 0x31, 0x41, 0x51, 0x01, 0x51, 0x41,
    0x31, 0x41, 0x51, 0x01, 0x11, 0x21, 0x51, 0x21, 0x11, 0x01, 0x55, 0x01,
    0x41, 0x53, 0x41, 0x01, 0x01, 0x53, 0x01, 0x55, 0x01, 0x54, 0x41, 0x01,
    0x33, 0x51, 0x31, 0x01, 0x54, 0x41, 0x01, 0x41, 0x53, 0x41, 0x01, 0x12,
    0x51, 0x31, 0x21, 0x01, 0x41, 0x53, 0x41, 0x01, 0x21, 0x53, 0x41, 0x01,
    0x03, 0x02, 0x51, 0x01, 0x11, 0x51, 0x11, 0x51, 0x31, 0x51, 0x01, 0x52,
    0x41, 0x51, 0x11, 0x01, 0x51, 0x31, 0x53, 0x41, 0x01, 0x51, 0x31, 0x52,
    0x41, 0x01, 0x55, 0x01, 0x53, 0x01,
];

/// How many characters have a descriptor.
pub const DESCRIPTOR_COUNT: usize = 128;

/// How many commands the command table holds.
pub const COMMAND_COUNT: usize = 174;

/// The most commands that a character has.
pub const MAX_COMMANDS: usize = 7;

/// The bytes of the descriptor table.
pub closed spec fn descriptors() -> Seq<u8> {
    DESCRIPTORS@
}

/// The bytes of the command table.
pub closed spec fn commands() -> Seq<u8> {
    COMMANDS@
}

/// Where the commands of the descriptor `idx` start in the command table.
pub open spec fn commands_start(idx: int) -> int {
    word_of(descriptors()[4 * idx + 1], descriptors()[4 * idx]) as int
}

/// Where the commands of the descriptor `idx` end in the command table.
pub open spec fn commands_end(idx: int) -> int {
    word_of(descriptors()[4 * idx + 3], descriptors()[4 * idx + 2]) as int
}

/// The tables have the sizes that their constants give.
pub proof fn lemma_table_sizes()
    ensures
        descriptors().len() == 4 * DESCRIPTOR_COUNT,
        commands().len() == COMMAND_COUNT,
{
}

/// Every descriptor names a stretch of the command table of at most
/// `MAX_COMMANDS` commands.
pub proof fn lemma_descriptors_in_table(idx: int)
    requires
        0 <= idx < DESCRIPTOR_COUNT,
    ensures
        0 <= commands_start(idx) <= commands_end(idx) <= COMMAND_COUNT,
        commands_end(idx) - commands_start(idx) <= MAX_COMMANDS,
{
    let a = DESCRIPTORS@[4 * idx];
    let b = DESCRIPTORS@[4 * idx + 1];
    let c = DESCRIPTORS@[4 * idx + 2];
    let d = DESCRIPTORS@[4 * idx + 3];
    assert(a == 0 && c == 0);
    assert(b <= d <= 174 && d - b <= 7);
}

/// The byte `i` of the descriptor table.
pub fn descriptor_byte(i: usize) -> (b: u8)
    requires
        i < 4 * DESCRIPTOR_COUNT,
    ensures
        b == descriptors()[i as int],
{
    DESCRIPTORS[i]
}

/// The command `i` of the command table.
pub fn command_byte(i: usize) -> (b: u8)
    requires
        i < COMMAND_COUNT,
    ensures
        b == commands()[i as int],
{
    COMMANDS[i]
}

} // verus!
