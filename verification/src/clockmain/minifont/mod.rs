//! The mini font: characters as short runs of drawing commands.

pub mod data;

use crate::word::lemma_nibbles;
use crate::word::word;
use data::command_byte;
use data::commands;
use data::commands_end;
use data::commands_start;
use data::descriptor_byte;
use data::lemma_descriptors_in_table;
use data::lemma_table_sizes;
use data::MAX_COMMANDS;
use vstd::prelude::*;

verus! {

/// The descriptor that stands in for every character that has none.
pub const PLACEHOLDER: u8 = 127;

/// The descriptor of a character: the capital letters come first, then the
/// digits, the space and the exclamation mark, then the five ligatures from
/// 0x7b on. Everything else has the descriptor of the placeholder.
pub open spec fn descriptor_index(ch: u8) -> u8 {
    if 0x41 <= ch <= 0x5a {
        (ch - 0x41) as u8
    } else if 0x30 <= ch <= 0x39 {
        (ch - 0x30 + 26) as u8
    } else if 0x20 <= ch <= 0x21 {
        (ch - 0x20 + 36) as u8
    } else if 0x7b <= ch < 128 {
        (ch - 0x7b + 38) as u8
    } else {
        PLACEHOLDER
    }
}

pub fn map_ascii_code(ch: u8) -> (idx: u8)
    ensures
        idx == descriptor_index(ch),
        idx < 128,
{
    if ch >= 0x41 && ch <= 0x5a {
        ch - 0x41
    } else if ch >= 0x30 && ch <= 0x39 {
        ch - 0x30 + 26
    } else if ch >= 0x20 && ch <= 0x21 {
        ch - 0x20 + 26 + 10
    } else if ch >= 0x7b && ch < 128 {
        ch - 0x7b + 26 + 10 + 2
    } else {
        127
    }
}

/// The commands that draw the character `ch`.
pub open spec fn commands_of(ch: u8) -> Seq<u8> {
    commands().subrange(
        commands_start(descriptor_index(ch) as int),
        commands_end(descriptor_index(ch) as int),
    )
}

/// No character has more than `MAX_COMMANDS` commands.
pub proof fn lemma_commands_of_len(ch: u8)
    ensures
        commands_of(ch).len() <= MAX_COMMANDS,
{
    lemma_descriptors_in_table(descriptor_index(ch) as int);
    lemma_table_sizes();
}

/// The commands that draw the character `ch`.
pub fn commands_for_character(ch: u8) -> (cmds: Vec<u8>)
    ensures
        cmds@ == commands_of(ch),
        cmds@.len() <= MAX_COMMANDS,
{
    let didx = map_ascii_code(ch) as usize;
    proof {
        lemma_descriptors_in_table(didx as int);
        lemma_table_sizes();
    }
    let start = word(descriptor_byte(4 * didx + 1), descriptor_byte(4 * didx)) as usize;
    let end = word(descriptor_byte(4 * didx + 3), descriptor_byte(4 * didx + 2)) as usize;
    let mut out: Vec<u8> = Vec::new();
    let mut i: usize = start;
    while i < end
        invariant
            start <= i <= end <= 174,
            commands().len() == 174,
            out@ == commands().subrange(start as int, i as int),
        decreases end - i,
    {
        out.push(command_byte(i));
        assert(out@ =~= commands().subrange(start as int, i as int + 1));
        i += 1;
    }
    out
}

/// One drawing command.
#[derive(Clone, Copy, Debug, PartialEq, Eq, Structural)]
pub enum Command {
    /// Fill a block `w` units wide and `h` units tall and move right by `w`.
    Rect { w: u8, h: u8 },
    /// Move down by this many units without drawing.
    Skip(u8),
}

/// What a command byte means: the height in the high four bits, the width
/// in the low four; a width of zero makes it a skip.
pub open spec fn decoded(cmd: u8) -> Command {
    if cmd % 16 == 0 {
        Command::Skip(cmd / 16)
    } else {
        Command::Rect { w: cmd % 16, h: cmd / 16 }
    }
}

pub fn decode_command(cmd: u8) -> (c: Command)
    ensures
        c == decoded(cmd),
        c matches Command::Rect { w, h } ==> 1 <= w <= 15 && h <= 15,
        c matches Command::Skip(h) ==> h <= 15,
{
    let width = cmd & 0xf;
    let height = cmd >> 4;
    proof {
        lemma_nibbles(cmd);
    }
    if width == 0 {
        Command::Skip(height)
    } else {
        Command::Rect { w: width, h: height }
    }
}

} // verus!
