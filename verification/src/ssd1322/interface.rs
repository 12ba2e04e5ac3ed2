//! The bus as the driver sees it: whole commands, each an opcode with its
//! data bytes.

use crate::record::failure_of;
use crate::record::Entry;
use vstd::prelude::*;

verus! {

/// One command as it goes to the controller.
pub struct Packet {
    pub opcode: u8,
    pub data: Seq<u8>,
}

/// A run of `count` bytes that are all `byte`, made up as it is sent rather
/// than held in memory.
#[derive(Clone, Copy, Debug)]
pub struct Repeat {
    pub byte: u8,
    pub count: usize,
}

impl View for Repeat {
    type V = Seq<u8>;

    open spec fn view(&self) -> Seq<u8> {
        Seq::new(self.count as nat, |i: int| self.byte)
    }
}

impl Repeat {
    pub fn new(byte: u8, count: usize) -> (run: Repeat)
        ensures
            run == (Repeat { byte, count }),
    {
        Repeat { byte: byte, count: count }
    }
}

/// A transport that carries commands to the controller.
pub trait Interface {
    type Error;

    /// Does this implementation keep the record that the contracts below
    /// speak of? One that is verified does. One that is not leaves this
    /// as it is, and nothing is claimed of it.
    open spec fn keeps_record() -> bool {
        false
    }

    /// Every command handed to the transport so far, oldest first, each with
    /// the answer the transport gave.
    open spec fn sent(&self) -> Seq<Entry<Packet, Self::Error>> {
        Seq::empty()
    }

    /// A command without data.
    fn cmd_0(&mut self, cmd: u8) -> (r: Result<(), Self::Error>)
        ensures
            Self::keeps_record() ==> final(self).sent() == old(self).sent().push(
                Entry {
                    request: Packet { opcode: cmd, data: Seq::empty() },
                    failure: failure_of(r),
                },
            ),
    ;

    /// A command with one data byte.
    fn cmd_1(&mut self, cmd: u8, a: u8) -> (r: Result<(), Self::Error>)
        ensures
            Self::keeps_record() ==> final(self).sent() == old(self).sent().push(
                Entry { request: Packet { opcode: cmd, data: seq![a] }, failure: failure_of(r) },
            ),
    ;

    /// A command with two data bytes.
    fn cmd_2(&mut self, cmd: u8, a: u8, b: u8) -> (r: Result<(), Self::Error>)
        ensures
            Self::keeps_record() ==> final(self).sent() == old(self).sent().push(
                Entry { request: Packet { opcode: cmd, data: seq![a, b] }, failure: failure_of(r) },
            ),
    ;

    /// A command with any number of data bytes.
    fn cmd_n(&mut self, cmd: u8, data: &[u8]) -> (r: Result<(), Self::Error>)
        ensures
            Self::keeps_record() ==> final(self).sent() == old(self).sent().push(
                Entry { request: Packet { opcode: cmd, data: data@ }, failure: failure_of(r) },
            ),
    ;

    /// A command whose data is a run of equal bytes. Gives the number of data
    /// bytes that went out.
    fn cmd_n_iter(&mut self, cmd: u8, data: Repeat) -> (r: Result<usize, Self::Error>)
        ensures
            Self::keeps_record() ==> final(self).sent() == old(self).sent().push(
                Entry { request: Packet { opcode: cmd, data: data@ }, failure: failure_of(r) },
            ),
            r matches Ok(n) ==> n == data.count,
    ;
}

} // verus!
