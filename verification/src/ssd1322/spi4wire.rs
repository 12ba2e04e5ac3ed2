//! Framing of commands on a four-wire serial bus: chip select, a line that
//! tells data from commands, and the serial data itself.
//!
//! A command is a fixed run of steps on the wires. `Transaction` hands them
//! out one at a time and is told after each whether it went through; whoever
//! holds the wires carries the steps out.

use crate::ssd1322::interface::Repeat;
use vstd::prelude::*;

verus! {

/// Why a command did not get through: one of the three wires gave an error.
#[derive(Debug)]
pub enum Error<SPIErr, CSErr, DCErr> {
    Request,
    SPI(SPIErr),
    CS(CSErr),
    DC(DCErr),
}

impl<SPIErr, CSErr, DCErr> Error<SPIErr, CSErr, DCErr> {
    pub fn spi(e: SPIErr) -> (err: Self)
        ensures
            err == Error::<SPIErr, CSErr, DCErr>::SPI(e),
    {
        Error::SPI(e)
    }

    pub fn cs(e: CSErr) -> (err: Self)
        ensures
            err == Error::<SPIErr, CSErr, DCErr>::CS(e),
    {
        Error::CS(e)
    }

    pub fn dc(e: DCErr) -> (err: Self)
        ensures
            err == Error::<SPIErr, CSErr, DCErr>::DC(e),
    {
        Error::DC(e)
    }
}

/// The most bytes that go out in one transfer of a run.
pub const CHUNK: usize = 64;

/// One thing to do on the wires.
#[derive(Clone, Copy, Debug, PartialEq, Eq, Structural)]
pub enum Step {
    /// Pull chip select low.
    Select,
    /// Let chip select go high.
    Deselect,
    /// Pull the data/command line low: what follows is a command.
    CommandMode,
    /// Let the data/command line go high: what follows is data.
    DataMode,
    /// Write one byte.
    Byte(u8),
    /// Write two bytes in one transfer.
    Pair(u8, u8),
    /// Write all the bytes that the caller of the command gave, in one
    /// transfer.
    Slice,
    /// Write `len` bytes that are all `byte`, in one transfer.
    Fill { byte: u8, len: usize },
}

/// What a command carries after its opcode.
#[derive(Clone, Copy, Debug)]
pub enum Payload {
    Nothing,
    One(u8),
    Two(u8, u8),
    /// The bytes of a slice that the caller holds.
    Slice,
    /// A run of equal bytes, sent in transfers of at most `CHUNK` bytes.
    Run(Repeat),
}

/// How many transfers a run of `count` bytes takes.
pub open spec fn chunk_count(count: int) -> int {
    (count + 63) / 64
}

/// The transfers that a run is sent in: all are full but the last, which
/// holds what is left.
pub open spec fn chunks(run: Repeat) -> Seq<Step> {
    Seq::new(
        chunk_count(run.count as int) as nat,
        |i: int|
            Step::Fill {
                byte: run.byte,
                len: if run.count - 64 * i >= 64 {
                    64usize
                } else {
                    (run.count - 64 * i) as usize
                },
            },
    )
}

/// The steps that carry a payload: none where there is no payload, else the
/// switch to data mode and the transfers.
pub open spec fn data_steps(payload: Payload) -> Seq<Step> {
    match payload {
        Payload::Nothing => Seq::empty(),
        Payload::One(a) => seq![Step::DataMode, Step::Byte(a)],
        Payload::Two(a, b) => seq![Step::DataMode, Step::Pair(a, b)],
        Payload::Slice => seq![Step::DataMode, Step::Slice],
        Payload::Run(run) => seq![Step::DataMode] + chunks(run),
    }
}

/// The steps of a command that meets no failure.
pub open spec fn script(opcode: u8, payload: Payload) -> Seq<Step> {
    seq![Step::Select, Step::CommandMode, Step::Byte(opcode)] + data_steps(payload)
        + seq![Step::Deselect]
}

/// The steps of a command whose step `fault` fails, or of one that meets no
/// failure where `fault` is `None`. After a failure nothing more of the
/// command is sent, but the chip is deselected, unless it was selecting or
/// deselecting it that failed.
pub open spec fn trace(opcode: u8, payload: Payload, fault: Option<int>) -> Seq<Step> {
    let all = script(opcode, payload);
    match fault {
        None => all,
        Some(k) => if k == 0 || k == all.len() - 1 {
            all.take(k + 1)
        } else {
            all.take(k + 1).push(Step::Deselect)
        },
    }
}

/// One command on its way over the wires.
#[derive(Clone, Copy, Debug)]
pub struct Transaction {
    opcode: u8,
    payload: Payload,
    issued: usize,
    fault: Option<usize>,
}

impl Transaction {
    pub closed spec fn opcode(self) -> u8 {
        self.opcode
    }

    pub closed spec fn payload(self) -> Payload {
        self.payload
    }

    /// How many steps were handed out.
    pub closed spec fn issued(self) -> int {
        self.issued as int
    }

    /// The step that failed, counted from zero.
    pub closed spec fn fault(self) -> Option<int> {
        match self.fault {
            Some(k) => Some(k as int),
            None => None,
        }
    }

    /// The steps of this command as far as they are known: with the failure
    /// it met, or without one.
    pub open spec fn steps(self) -> Seq<Step> {
        trace(self.opcode(), self.payload(), self.fault())
    }

    /// A step was handed out for every step that there is, and a failure, if
    /// there was one, lies among them.
    pub closed spec fn wf(self) -> bool {
        &&& self.issued <= trace(self.opcode, self.payload, self.fault()).len()
        &&& self.fault matches Some(k) ==> k < self.issued && k < script(
            self.opcode,
            self.payload,
        ).len()
    }

    /// The fault that is known once the answer `last_ok` to the last step is
    /// in: an answer counts only for a step that was handed out, and only
    /// the first failure counts.
    pub open spec fn fault_after(self, last_ok: bool) -> Option<int> {
        if self.fault() is None && self.issued() > 0 && !last_ok {
            Some(self.issued() - 1)
        } else {
            self.fault()
        }
    }

    fn begin(opcode: u8, payload: Payload) -> (t: Transaction)
        ensures
            t.wf(),
            t.opcode() == opcode,
            t.payload() == payload,
            t.issued() == 0,
            t.fault() is None,
    {
        Transaction { opcode: opcode, payload: payload, issued: 0, fault: None }
    }

    /// A command without data.
    pub fn cmd_0(cmd: u8) -> (t: Transaction)
        ensures
            t.wf(),
            t.opcode() == cmd,
            t.payload() == Payload::Nothing,
            t.issued() == 0,
            t.fault() is None,
    {
        Self::begin(cmd, Payload::Nothing)
    }

    /// A command with one data byte.
    pub fn cmd_1(cmd: u8, a: u8) -> (t: Transaction)
        ensures
            t.wf(),
            t.opcode() == cmd,
            t.payload() == Payload::One(a),
            t.issued() == 0,
            t.fault() is None,
    {
        Self::begin(cmd, Payload::One(a))
    }

    /// A command with two data bytes.
    pub fn cmd_2(cmd: u8, a: u8, b: u8) -> (t: Transaction)
        ensures
            t.wf(),
            t.opcode() == cmd,
            t.payload() == Payload::Two(a, b),
            t.issued() == 0,
            t.fault() is None,
    {
        Self::begin(cmd, Payload::Two(a, b))
    }

    /// A command with the bytes of a slice that the caller holds.
    pub fn cmd_n(cmd: u8) -> (t: Transaction)
        ensures
            t.wf(),
            t.opcode() == cmd,
            t.payload() == Payload::Slice,
            t.issued() == 0,
            t.fault() is None,
    {
        Self::begin(cmd, Payload::Slice)
    }

    /// A command with a run of equal bytes.
    pub fn cmd_n_iter(cmd: u8, data: Repeat) -> (t: Transaction)
        ensures
            t.wf(),
            t.opcode() == cmd,
            t.payload() == Payload::Run(data),
            t.issued() == 0,
            t.fault() is None,
    {
        Self::begin(cmd, Payload::Run(data))
    }

    /// How many steps the command has when nothing fails.
    fn script_len(&self) -> (n: usize)
        ensures
            n == script(self.opcode, self.payload).len(),
            n >= 4,
    {
        match self.payload {
            Payload::Nothing => 4,
            Payload::One(_) => 6,
            Payload::Two(_, _) => 6,
            Payload::Slice => 6,
            Payload::Run(run) => {
                let full = run.count / 64;
                let rest = run.count % 64;
                if rest == 0 {
                    5 + full
                } else {
                    6 + full
                }
            },
        }
    }

    /// The step `i` of the command when nothing fails.
    fn script_step(&self, i: usize) -> (s: Step)
        requires
            i < script(self.opcode, self.payload).len(),
        ensures
            s == script(self.opcode, self.payload)[i as int],
    {
        let n = self.script_len();
        if i == 0 {
            Step::Select
        } else if i == 1 {
            Step::CommandMode
        } else if i == 2 {
            Step::Byte(self.opcode)
        } else if i == n - 1 {
            Step::Deselect
        } else if i == 3 {
            Step::DataMode
        } else {
            match self.payload {
                Payload::Nothing => Step::Deselect,
                Payload::One(a) => Step::Byte(a),
                Payload::Two(a, b) => Step::Pair(a, b),
                Payload::Slice => Step::Slice,
                Payload::Run(run) => {
                    let done = 64 * (i - 4);
                    let left = run.count - done;
                    Step::Fill {
                        byte: run.byte,
                        len: if left >= 64 {
                            64
                        } else {
                            left
                        },
                    }
                },
            }
        }
    }

    /// Takes the answer to the step that was handed out last and hands out
    /// the next one, or `None` when the command is over. The answer given
    /// with the first call counts for nothing.
    pub fn next(&mut self, last_ok: bool) -> (step: Option<Step>)
        requires
            old(self).wf(),
        ensures
            final(self).wf(),
            final(self).opcode() == old(self).opcode(),
            final(self).payload() == old(self).payload(),
            final(self).fault() == old(self).fault_after(last_ok),
            step == if old(self).issued() < final(self).steps().len() {
                Some(final(self).steps()[old(self).issued()])
            } else {
                None
            },
            final(self).issued() == if step is Some {
                old(self).issued() + 1
            } else {
                old(self).issued()
            },
    {
        let n = self.script_len();
        if self.fault.is_none() && self.issued > 0 && !last_ok {
            self.fault = Some(self.issued - 1);
        }
        let step = match self.fault {
            None => {
                if self.issued < n {
                    Some(self.script_step(self.issued))
                } else {
                    None
                }
            },
            Some(k) => {
                if self.issued == k + 1 && k != 0 && k != n - 1 {
                    Some(Step::Deselect)
                } else {
                    None
                }
            },
        };
        if step.is_some() {
            self.issued = self.issued + 1;
        }
        step
    }

    /// Is the command over, so that `next` has no more steps?
    pub fn is_done(&self) -> (done: bool)
        requires
            self.wf(),
        ensures
            done == (self.issued() == self.steps().len()),
    {
        let n = self.script_len();
        match self.fault {
            None => self.issued == n,
            Some(k) => !(self.issued == k + 1 && k != 0 && k != n - 1),
        }
    }

    /// The step that failed, counted from zero, if one is known to have.
    pub fn failed_step(&self) -> (k: Option<usize>)
        ensures
            k matches Some(i) ==> self.fault() == Some(i as int),
            k is None ==> self.fault() is None,
    {
        self.fault
    }
}

/// The bytes that a step writes, where `data` are the bytes that the caller
/// of the command gave.
pub open spec fn bytes_of(step: Step, data: Seq<u8>) -> Seq<u8> {
    match step {
        Step::Byte(b) => seq![b],
        Step::Pair(a, b) => seq![a, b],
        Step::Slice => data,
        Step::Fill { byte, len } => Seq::new(len as nat, |i: int| byte),
        _ => Seq::empty(),
    }
}

/// All the bytes that `steps` write, in order.
pub open spec fn written(steps: Seq<Step>, data: Seq<u8>) -> Seq<u8>
    decreases steps.len(),
{
    if steps.len() == 0 {
        Seq::empty()
    } else {
        written(steps.drop_last(), data) + bytes_of(steps.last(), data)
    }
}

/// The data bytes of a payload.
pub open spec fn payload_bytes(payload: Payload, data: Seq<u8>) -> Seq<u8> {
    match payload {
        Payload::Nothing => Seq::empty(),
        Payload::One(a) => seq![a],
        Payload::Two(a, b) => seq![a, b],
        Payload::Slice => data,
        Payload::Run(run) => run@,
    }
}

proof fn lemma_written_concat(a: Seq<Step>, b: Seq<Step>, data: Seq<u8>)
    ensures
        written(a + b, data) == written(a, data) + written(b, data),
    decreases b.len(),
{
    if b.len() == 0 {
        assert(a + b =~= a);
        assert(written(a, data) + written(b, data) =~= written(a, data));
    } else {
        assert((a + b).drop_last() =~= a + b.drop_last());
        assert((a + b).last() == b.last());
        lemma_written_concat(a, b.drop_last(), data);
        assert(written(a + b, data) =~= written(a, data) + written(b, data));
    }
}

proof fn lemma_written_chunks(run: Repeat, k: int, data: Seq<u8>)
    requires
        0 <= k <= chunks(run).len(),
    ensures
        written(chunks(run).take(k), data) == Seq::new(
            (if 64 * k <= run.count {
                64 * k
            } else {
                run.count as int
            }) as nat,
            |i: int| run.byte,
        ),
    decreases k,
{
    let upto = chunks(run).take(k);
    if k == 0 {
        assert(written(upto, data) =~= Seq::new(0nat, |i: int| run.byte));
    } else {
        lemma_written_chunks(run, k - 1, data);
        assert(upto.drop_last() =~= chunks(run).take(k - 1));
        assert(upto.last() == chunks(run)[k - 1]);
        assert(written(upto, data) =~= Seq::new(
            (if 64 * k <= run.count {
                64 * k
            } else {
                run.count as int
            }) as nat,
            |i: int| run.byte,
        ));
    }
}

/// What a command writes when nothing fails is its opcode and then the bytes
/// of its payload, however many transfers they are split into.
pub proof fn lemma_script_writes_payload(opcode: u8, payload: Payload, data: Seq<u8>)
    ensures
        written(script(opcode, payload), data) == seq![opcode] + payload_bytes(payload, data),
{
    let head = seq![Step::Select, Step::CommandMode, Step::Byte(opcode)];
    let body = data_steps(payload);
    let tail = seq![Step::Deselect];
    lemma_written_concat(head, body, data);
    lemma_written_concat(head + body, tail, data);
    reveal_with_fuel(written, 4);
    assert(written(head, data) =~= seq![opcode]);
    assert(written(tail, data) =~= Seq::<u8>::empty());
    match payload {
        Payload::Run(run) => {
            let mode = seq![Step::DataMode];
            lemma_written_concat(mode, chunks(run), data);
            assert(written(mode, data) =~= Seq::<u8>::empty());
            lemma_written_chunks(run, chunks(run).len() as int, data);
            assert(chunks(run).take(chunks(run).len() as int) =~= chunks(run));
            assert(written(body, data) =~= run@);
        },
        _ => {
            assert(written(body, data) =~= payload_bytes(payload, data));
        },
    }
    assert(written(script(opcode, payload), data) =~= seq![opcode] + payload_bytes(payload, data));
}

/// Whatever fails, a command selects the chip first, and once it has, ends by
/// deselecting it; in between it neither selects nor deselects.
pub proof fn lemma_bracketed(opcode: u8, payload: Payload, fault: Option<int>)
    requires
        fault matches Some(k) ==> 0 <= k < script(opcode, payload).len(),
    ensures
        trace(opcode, payload, fault).len() >= 1,
        trace(opcode, payload, fault)[0] == Step::Select,
        fault != Some(0int) ==> trace(opcode, payload, fault).len() >= 2 && trace(
            opcode,
            payload,
            fault,
        ).last() == Step::Deselect,
        forall|i: int|
            0 < i < trace(opcode, payload, fault).len() - 1 ==> {
                let s = #[trigger] trace(opcode, payload, fault)[i];
                s != Step::Select && s != Step::Deselect
            },
{
}

/// The transfers of a run hold between 1 and `CHUNK` bytes each, all of them
/// the byte of the run, and together as many bytes as the run has.
pub proof fn lemma_chunks_cover(run: Repeat, i: int)
    requires
        0 <= i < chunks(run).len(),
    ensures
        chunks(run)[i] matches Step::Fill { byte, len } && byte == run.byte && 1 <= len <= 64 && (i
            < chunks(run).len() - 1 ==> len == 64) && (i == chunks(run).len() - 1 ==> 64 * i + len
            == run.count),
{
}

} // verus!
