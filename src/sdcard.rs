use vstd::prelude::*;
use crate::bus::{BusOp, Direction, command_ops, data_ops, push_sends};
use crate::codec::{
    IF_COND_PATTERN, block_addressed, if_cond_echoed, is_start_token, spec_block_addressed,
    spec_csd_block_count, spec_if_cond_echoed, spec_is_start_token, spec_write_status,
    trailing_word, write_status, csd_block_count, CSD_TRANSFER_LEN,
};
use crate::command::{Cmd, command_frame};
use crate::error::SdCardError;

verus! {

/// The size of a block, the unit that the card stores and transfers.
pub const BLOCK_LEN: usize = 512;

/// How many bytes a response is polled for before its last byte is taken.
pub const RESPONSE_TRIES: u8 = 8;

/// How many bytes are read while waiting for a data start token.
pub const TOKEN_POLLS: u32 = 100_000;

/// How many bytes are read while waiting for the card to leave busy.
pub const BUSY_POLLS: u32 = 1_000_000;

/// How many times APP_SEND_OP_COND is sent before initialization gives up.
pub const INIT_ATTEMPTS: u32 = 1000;

/// The SPI clock during identification: at most 400 kHz.
pub const IDENT_CLOCK_HZ: u32 = 200_000;

/// The SPI clock once the card is initialized.
pub const OPERATING_CLOCK_HZ: u32 = 10_000_000;

/// The settle time after the transport is first set up, in microseconds.
pub const SETTLE_US: u32 = 2000;

/// The slave-select line of the transport that the card sits on.
pub const CARD_SELECT_LINE: u8 = 3;

/// The argument of APP_SEND_OP_COND: the HCS bit, host supports high capacity.
pub const OP_COND_HCS: u32 = 0x4000_0000;

/// The token that opens the data of a single-block write.
pub const SINGLE_WRITE_TOKEN: u8 = 0xfe;

/// The token that opens each block of a multi-block write.
pub const MULTI_WRITE_TOKEN: u8 = 0xfc;

/// The token that ends a multi-block write.
pub const STOP_WRITE_TOKEN: u8 = 0xfd;

/// A block of data as the card stores it.
#[derive(Clone, Debug)]
pub struct Block {
    pub contents: Vec<u8>,
}

/// The bytes of each block, in order.
pub open spec fn block_data(bs: Seq<Block>) -> Seq<Seq<u8>> {
    bs.map_values(|b: Block| b.contents@)
}

/// Whether every block holds exactly `BLOCK_LEN` bytes.
pub open spec fn blocks_sized(bs: Seq<Block>) -> bool {
    forall|i: int| 0 <= i < bs.len() ==> #[trigger] bs[i].contents@.len() == BLOCK_LEN
}

/// Where the engine goes once a response byte is known.
#[derive(Clone, Copy, PartialEq, Eq, Structural, Debug)]
pub enum AfterByte {
    /// The R1 answer to GO_IDLE_STATE: must be 0x01.
    Cmd0,
    /// The R1 part of the answer to SEND_IF_COND: must be 0x01.
    Cmd8,
    /// The answer to APP_CMD, which is not looked at.
    Cmd55,
    /// The answer to APP_SEND_OP_COND: 0x00 once the card has left idle.
    Acmd41,
    /// The R1 part of the answer to READ_OCR, which is not looked at.
    Cmd58,
    /// The answer to SEND_CSD: must be 0x00.
    Cmd9,
    /// The answer to a read command, which is not looked at.
    ReadCmd,
    /// The first CRC byte after a data block, discarded.
    CrcFirst,
    /// The second CRC byte after a data block, discarded.
    CrcSecond,
    /// The first byte after STOP_TRANSMISSION, discarded.
    StopFirst,
    /// The second byte after STOP_TRANSMISSION, discarded.
    StopSecond,
    /// The answer to a write command, which is not looked at.
    WriteCmd,
    /// The data-response token of a written block.
    WriteStatus,
}

/// Where the engine goes once the four trailing bytes of a response are known.
#[derive(Clone, Copy, PartialEq, Eq, Structural, Debug)]
pub enum AfterWord {
    /// The R7 trailer of SEND_IF_COND: must echo the check pattern.
    IfCond,
    /// The OCR: its CCS bit must be set.
    Ocr,
}

/// Where the engine goes once a data block has been received.
#[derive(Clone, Copy, PartialEq, Eq, Structural, Debug)]
pub enum AfterData {
    /// The CSD register and its CRC.
    Csd,
    /// A block being read.
    Block,
}

/// Where the engine goes once the card has left busy.
#[derive(Clone, Copy, PartialEq, Eq, Structural, Debug)]
pub enum AfterReady {
    /// The card has programmed a written block.
    BlockWritten,
    /// The card has finished a multi-block write.
    StopWritten,
}

/// What the engine is waiting for.
#[derive(Clone, Copy, PartialEq, Eq, Structural, Debug)]
pub enum Stage {
    /// No operation is in progress.
    Idle,
    /// Polling a response: bytes are read one at a time until one other
    /// than 0xFF comes, or `RESPONSE_TRIES` have been read.
    Response { tries: u8, then: AfterByte },
    /// Reading the four bytes that trail an R7 or R3 response.
    Trailing { then: AfterWord },
    /// Waiting for a data start token.
    Token { polls: u32, then: AfterData },
    /// Receiving the bytes of a data block.
    Payload { then: AfterData },
    /// Waiting for the card to leave busy (it holds the bus at 0x00).
    Busy { polls: u32, then: AfterReady },
}

/// The operations of the engine.
#[derive(Clone, Copy, PartialEq, Eq, Structural, Debug)]
pub enum Operation {
    Init,
    Capacity,
    Read,
    Write,
}

/// What a finished operation hands back.
#[derive(Debug)]
pub enum Outcome {
    /// The card is identified and the clock raised to the operating rate.
    Initialized,
    /// The card's capacity in blocks.
    Capacity(u32),
    /// The blocks read, in order.
    Blocks(Vec<Block>),
    /// Every block was written.
    Written,
}

/// What the engine wants once its bus operations are done.
#[derive(Debug)]
pub enum Next {
    /// Read this many bytes, one at a time, and hand them back.
    Read(usize),
    /// Receive a data block of this many bytes and hand it back, or report a fault.
    Receive(usize),
    /// The operation is over.
    Done(Result<Outcome, SdCardError>),
}

/// The engine's answer: bus operations to perform, in order, then what it needs.
#[derive(Debug)]
pub struct Action {
    pub ops: Vec<BusOp>,
    pub next: Next,
}

/// What the transport reports back to the engine.
#[derive(Debug)]
pub enum Event {
    /// The bytes that were read or received.
    Bytes(Vec<u8>),
    /// The transport failed.
    Fault,
}

/// The byte of an event that answers a one-byte read.
pub open spec fn single_byte(ev: Event) -> Option<u8> {
    match ev {
        Event::Bytes(v) => if v@.len() == 1 {
            Some(v@[0])
        } else {
            None
        },
        Event::Fault => None,
    }
}

/// The bytes of an event that answers a read or receive of `n` bytes.
pub open spec fn bytes_of(ev: Event, n: nat) -> Option<Seq<u8>> {
    match ev {
        Event::Bytes(v) => if v@.len() == n {
            Some(v@)
        } else {
            None
        },
        Event::Fault => None,
    }
}

/// The bytes a data block of each kind carries.
pub open spec fn payload_len(then: AfterData) -> nat {
    match then {
        AfterData::Csd => CSD_TRANSFER_LEN as nat,
        AfterData::Block => BLOCK_LEN as nat,
    }
}

pub open spec fn byte_op(then: AfterByte) -> Operation {
    match then {
        AfterByte::Cmd0 | AfterByte::Cmd8 | AfterByte::Cmd55 | AfterByte::Acmd41
        | AfterByte::Cmd58 => Operation::Init,
        AfterByte::Cmd9 => Operation::Capacity,
        AfterByte::ReadCmd | AfterByte::CrcFirst | AfterByte::CrcSecond | AfterByte::StopFirst
        | AfterByte::StopSecond => Operation::Read,
        AfterByte::WriteCmd | AfterByte::WriteStatus => Operation::Write,
    }
}

/// The error that ends an operation when a byte read on its behalf fails.
pub open spec fn read_fault(op: Operation) -> SdCardError {
    match op {
        Operation::Init => SdCardError::InitFailed,
        Operation::Capacity => SdCardError::ReadCsdFailed,
        Operation::Read => SdCardError::ReadDataFailed,
        Operation::Write => SdCardError::WriteError,
    }
}

/// The operations that open identification: a slow clock, the settle time,
/// and at least 74 idle clocks (ten 0xFF bytes) with the card deselected.
pub open spec fn power_up_ops() -> Seq<BusOp> {
    seq![
        BusOp::SetClock(IDENT_CLOCK_HZ),
        BusOp::Configure(Direction::Transmit),
        BusOp::Delay(SETTLE_US),
        BusOp::CsHigh,
        BusOp::SelectSlave(CARD_SELECT_LINE),
    ] + Seq::new(10, |i: int| BusOp::Send(0xff))
}

/// The start token of each block of a write of `count` blocks.
pub open spec fn write_token(count: nat) -> u8 {
    if count == 1 {
        SINGLE_WRITE_TOKEN
    } else {
        MULTI_WRITE_TOKEN
    }
}

/// Sending one block of a write: its start token after an 0xFF byte, the
/// data, two filler CRC bytes, then the transport set up for the answer.
pub open spec fn block_ops(token: u8, data: Seq<u8>) -> Seq<BusOp> {
    data_ops(seq![0xff, token]) + data_ops(data) + data_ops(seq![0x00, 0x00]) + seq![
        BusOp::Configure(Direction::Receive),
    ]
}

/// Ending a multi-block write: the stop token, then the wait for ready.
pub open spec fn stop_write_ops() -> Seq<BusOp> {
    data_ops(seq![STOP_WRITE_TOKEN, 0x00]) + seq![BusOp::Configure(Direction::Receive)]
}

/// The read command for a read of `count` blocks.
pub open spec fn read_cmd(count: nat) -> Cmd {
    if count == 1 {
        Cmd::ReadSingleBlock
    } else {
        Cmd::ReadMultipleBlock
    }
}

/// The write command for a write of `count` blocks.
pub open spec fn write_cmd(count: nat) -> Cmd {
    if count == 1 {
        Cmd::WriteBlock
    } else {
        Cmd::WriteMultipleBlock
    }
}

/// The SD card driver: a protocol engine that owns no transport. Each
/// operation starts with a call that returns the first `Action`; the caller
/// performs its bus operations and hands what it asked for to `step`, until
/// an action says `Done`.
pub struct SdCard {
    stage: Stage,
    count: usize,
    current: usize,
    attempts: u32,
    blocks: Vec<Block>,
}

impl SdCard {
    pub closed spec fn stage(self) -> Stage {
        self.stage
    }

    /// The number of blocks of the read or write in progress.
    pub closed spec fn count(self) -> nat {
        self.count as nat
    }

    /// The number of blocks of the read or write in progress that are done.
    pub closed spec fn current(self) -> nat {
        self.current as nat
    }

    /// The number of APP_SEND_OP_COND commands sent by the initialization
    /// in progress.
    pub closed spec fn attempts(self) -> nat {
        self.attempts as nat
    }

    /// The blocks read so far, or the blocks being written.
    pub closed spec fn blocks(self) -> Seq<Block> {
        self.blocks@
    }

    pub open spec fn read_wf(self) -> bool {
        &&& self.current() <= self.count()
        &&& self.blocks().len() == self.current()
        &&& blocks_sized(self.blocks())
    }

    pub open spec fn write_wf(self) -> bool {
        &&& self.current() <= self.count()
        &&& self.blocks().len() == self.count()
        &&& blocks_sized(self.blocks())
    }

    pub open spec fn byte_wf(self, then: AfterByte) -> bool {
        match then {
            AfterByte::Cmd0 | AfterByte::Cmd8 => self.attempts() == 0,
            AfterByte::Cmd55 | AfterByte::Acmd41 | AfterByte::Cmd58 => 1 <= self.attempts()
                <= INIT_ATTEMPTS,
            AfterByte::Cmd9 => true,
            AfterByte::ReadCmd => self.read_wf() && self.current() == 0,
            AfterByte::CrcFirst | AfterByte::CrcSecond => self.read_wf() && self.current() >= 1,
            AfterByte::StopFirst | AfterByte::StopSecond => self.read_wf() && self.current()
                == self.count() && self.count() != 1,
            AfterByte::WriteCmd => self.write_wf() && self.current() == 0,
            AfterByte::WriteStatus => self.write_wf() && self.current() < self.count(),
        }
    }

    pub open spec fn word_wf(self, then: AfterWord) -> bool {
        match then {
            AfterWord::IfCond => self.attempts() == 0,
            AfterWord::Ocr => 1 <= self.attempts() <= INIT_ATTEMPTS,
        }
    }

    pub open spec fn data_wf(self, then: AfterData) -> bool {
        match then {
            AfterData::Csd => true,
            AfterData::Block => self.read_wf() && self.current() < self.count(),
        }
    }

    pub open spec fn ready_wf(self, then: AfterReady) -> bool {
        match then {
            AfterReady::BlockWritten => self.write_wf() && self.current() < self.count(),
            AfterReady::StopWritten => self.write_wf() && self.current() == self.count()
                && self.count() != 1,
        }
    }

    /// The engine's invariant: the counters of each wait are within their
    /// bounds, and the block counters agree with the blocks held.
    pub open spec fn wf(self) -> bool {
        match self.stage() {
            Stage::Idle => true,
            Stage::Response { tries, then } => 1 <= tries <= RESPONSE_TRIES && self.byte_wf(then),
            Stage::Trailing { then } => self.word_wf(then),
            Stage::Token { polls, then } => 1 <= polls <= TOKEN_POLLS && self.data_wf(then),
            Stage::Payload { then } => self.data_wf(then),
            Stage::Busy { polls, then } => 1 <= polls <= BUSY_POLLS && self.ready_wf(then),
        }
    }

    pub open spec fn is_idle(self) -> bool {
        self.stage() is Idle
    }
}

/// The engine waits in `stage` for `next`, after the bus operations `ops`,
/// with its counters and blocks as given.
pub open spec fn moves(
    post: SdCard,
    r: Action,
    ops: Seq<BusOp>,
    stage: Stage,
    next_read: nat,
    count: nat,
    current: nat,
    attempts: nat,
    data: Seq<Seq<u8>>,
) -> bool {
    &&& r.ops@ == ops
    &&& r.next is Read && r.next->Read_0 == next_read
    &&& post.stage() == stage
    &&& post.count() == count
    &&& post.current() == current
    &&& post.attempts() == attempts
    &&& block_data(post.blocks()) == data
}

/// The engine reads `n` more bytes in `stage`, with nothing else changed.
pub open spec fn reads(pre: SdCard, post: SdCard, r: Action, ops: Seq<BusOp>, stage: Stage, n: nat) -> bool {
    moves(post, r, ops, stage, n, pre.count(), pre.current(), pre.attempts(), block_data(pre.blocks()))
}

/// The engine goes back to idle, with `result` after the bus operations `ops`.
pub open spec fn finishes(post: SdCard, r: Action, ops: Seq<BusOp>, result: Result<Outcome, SdCardError>) -> bool {
    &&& r.ops@ == ops
    &&& r.next == Next::Done(result)
    &&& post.stage() is Idle
}

/// The engine goes back to idle, handing back blocks holding `data`.
pub open spec fn finishes_reading(post: SdCard, r: Action, data: Seq<Seq<u8>>) -> bool {
    &&& r.ops@ == Seq::<BusOp>::empty()
    &&& r.next matches Next::Done(Ok(Outcome::Blocks(v))) && block_data(v@) == data
    &&& post.stage() is Idle
}

/// What the engine does once the response byte `b` awaited in `then` is known.
pub open spec fn after_byte(pre: SdCard, then: AfterByte, b: u8, post: SdCard, r: Action) -> bool {
    let resp = |t: AfterByte| Stage::Response { tries: 1, then: t };
    match then {
        AfterByte::Cmd0 => if b == 0x01 {
            reads(pre, post, r, command_ops(Cmd::SendIfCond, IF_COND_PATTERN, 0x87), resp(AfterByte::Cmd8), 1)
        } else {
            finishes(post, r, seq![], Err(SdCardError::InitFailed))
        },
        AfterByte::Cmd8 => if b == 0x01 {
            reads(pre, post, r, seq![], Stage::Trailing { then: AfterWord::IfCond }, 4)
        } else {
            finishes(post, r, seq![], Err(SdCardError::InitFailed))
        },
        AfterByte::Cmd55 => reads(pre, post, r, command_ops(Cmd::AppSendOpCond, OP_COND_HCS, 0), resp(AfterByte::Acmd41), 1),
        AfterByte::Acmd41 => if b == 0x00 {
            reads(pre, post, r, command_ops(Cmd::ReadOcr, 0, 0), resp(AfterByte::Cmd58), 1)
        } else if pre.attempts() < INIT_ATTEMPTS {
            moves(post, r, command_ops(Cmd::AppCmd, 0, 0), resp(AfterByte::Cmd55), 1,
                pre.count(), pre.current(), pre.attempts() + 1, block_data(pre.blocks()))
        } else {
            finishes(post, r, seq![], Err(SdCardError::Timeout))
        },
        AfterByte::Cmd58 => reads(pre, post, r, seq![], Stage::Trailing { then: AfterWord::Ocr }, 4),
        AfterByte::Cmd9 => if b == 0x00 {
            reads(pre, post, r, seq![], Stage::Token { polls: 1, then: AfterData::Csd }, 1)
        } else {
            finishes(post, r, seq![], Err(SdCardError::ReadCsdFailed))
        },
        AfterByte::ReadCmd | AfterByte::CrcSecond => if pre.current() < pre.count() {
            reads(pre, post, r, seq![], Stage::Token { polls: 1, then: AfterData::Block }, 1)
        } else if pre.count() == 1 {
            finishes_reading(post, r, block_data(pre.blocks()))
        } else {
            reads(pre, post, r, command_ops(Cmd::StopTransmission, 0, 0), resp(AfterByte::StopFirst), 1)
        },
        AfterByte::CrcFirst => reads(pre, post, r, seq![], resp(AfterByte::CrcSecond), 1),
        AfterByte::StopFirst => reads(pre, post, r, seq![], resp(AfterByte::StopSecond), 1),
        AfterByte::StopSecond => finishes_reading(post, r, block_data(pre.blocks())),
        AfterByte::WriteCmd => if pre.current() < pre.count() {
            reads(pre, post, r, block_ops(write_token(pre.count()), pre.blocks()[0].contents@),
                resp(AfterByte::WriteStatus), 1)
        } else {
            reads(pre, post, r, stop_write_ops(), Stage::Busy { polls: 1, then: AfterReady::StopWritten }, 1)
        },
        AfterByte::WriteStatus => match spec_write_status(b) {
            Ok(()) => reads(pre, post, r, seq![], Stage::Busy { polls: 1, then: AfterReady::BlockWritten }, 1),
            Err(e) => finishes(post, r, seq![], Err(e)),
        },
    }
}

/// What the engine does once the trailing word `w` awaited in `then` is known.
pub open spec fn after_word(pre: SdCard, then: AfterWord, w: u32, post: SdCard, r: Action) -> bool {
    match then {
        AfterWord::IfCond => if spec_if_cond_echoed(w) {
            moves(post, r, command_ops(Cmd::AppCmd, 0, 0), Stage::Response { tries: 1, then: AfterByte::Cmd55 }, 1,
                pre.count(), pre.current(), 1, block_data(pre.blocks()))
        } else {
            finishes(post, r, seq![], Err(SdCardError::InitFailed))
        },
        AfterWord::Ocr => if spec_block_addressed(w) {
            finishes(post, r, seq![BusOp::SetClock(OPERATING_CLOCK_HZ)], Ok(Outcome::Initialized))
        } else {
            finishes(post, r, seq![], Err(SdCardError::InitFailed))
        },
    }
}

/// What the engine does once the data block `data` awaited in `then` has come.
pub open spec fn after_data(pre: SdCard, then: AfterData, data: Seq<u8>, post: SdCard, r: Action) -> bool {
    match then {
        AfterData::Csd => finishes(post, r, seq![], match spec_csd_block_count(data) {
            Ok(n) => Ok(Outcome::Capacity(n)),
            Err(e) => Err(e),
        }),
        AfterData::Block => moves(post, r, seq![], Stage::Response { tries: 1, then: AfterByte::CrcFirst }, 1,
            pre.count(), pre.current() + 1, pre.attempts(), block_data(pre.blocks()).push(data)),
    }
}

/// What the engine does once the card has left busy in `then`.
pub open spec fn after_ready(pre: SdCard, then: AfterReady, post: SdCard, r: Action) -> bool {
    match then {
        AfterReady::BlockWritten => if pre.current() + 1 < pre.count() {
            moves(post, r, block_ops(write_token(pre.count()), pre.blocks()[pre.current() + 1 as int].contents@),
                Stage::Response { tries: 1, then: AfterByte::WriteStatus }, 1,
                pre.count(), pre.current() + 1, pre.attempts(), block_data(pre.blocks()))
        } else if pre.count() == 1 {
            finishes(post, r, seq![], Ok(Outcome::Written))
        } else {
            moves(post, r, stop_write_ops(), Stage::Busy { polls: 1, then: AfterReady::StopWritten }, 1,
                pre.count(), pre.current() + 1, pre.attempts(), block_data(pre.blocks()))
        },
        AfterReady::StopWritten => finishes(post, r, seq![], Ok(Outcome::Written)),
    }
}

/// One step of the engine: what it does when `ev` answers what it waited for.
pub open spec fn stepped(pre: SdCard, ev: Event, post: SdCard, r: Action) -> bool {
    match pre.stage() {
        Stage::Idle => false,
        Stage::Response { tries, then } => match single_byte(ev) {
            Some(b) => if b == 0xff && tries < RESPONSE_TRIES {
                reads(pre, post, r, seq![], Stage::Response { tries: (tries + 1) as u8, then }, 1)
            } else {
                after_byte(pre, then, b, post, r)
            },
            None => finishes(post, r, seq![], Err(read_fault(byte_op(then)))),
        },
        Stage::Trailing { then } => match bytes_of(ev, 4) {
            Some(b) => after_word(pre, then, crate::codec::be_word(b), post, r),
            None => finishes(post, r, seq![], Err(SdCardError::InitFailed)),
        },
        Stage::Token { polls, then } => match single_byte(ev) {
            Some(b) => if spec_is_start_token(b) {
                &&& r.ops@ == Seq::<BusOp>::empty()
                &&& r.next is Receive && r.next->Receive_0 == payload_len(then)
                &&& post.stage() == Stage::Payload { then }
                &&& post.count() == pre.count() && post.current() == pre.current()
                &&& post.attempts() == pre.attempts()
                &&& block_data(post.blocks()) == block_data(pre.blocks())
            } else if polls < TOKEN_POLLS {
                reads(pre, post, r, seq![], Stage::Token { polls: (polls + 1) as u32, then }, 1)
            } else {
                finishes(post, r, seq![], Err(SdCardError::Timeout))
            },
            None => finishes(post, r, seq![], Err(SdCardError::ReadDataFailed)),
        },
        Stage::Payload { then } => match bytes_of(ev, payload_len(then)) {
            Some(data) => after_data(pre, then, data, post, r),
            None => finishes(post, r, seq![], Err(SdCardError::ReadDataFailed)),
        },
        Stage::Busy { polls, then } => match single_byte(ev) {
            Some(b) => if b != 0x00 {
                after_ready(pre, then, post, r)
            } else if polls < BUSY_POLLS {
                reads(pre, post, r, seq![], Stage::Busy { polls: (polls + 1) as u32, then }, 1)
            } else {
                finishes(post, r, seq![], Err(SdCardError::Timeout))
            },
            None => finishes(post, r, seq![], Err(SdCardError::WriteError)),
        },
    }
}

/// The byte that answers a one-byte read, if the event is one.
fn one_byte(ev: &Event) -> (r: Option<u8>)
    ensures
        r == single_byte(*ev),
{
    match ev {
        Event::Bytes(v) => if v.len() == 1 {
            Some(v[0])
        } else {
            None
        },
        Event::Fault => None,
    }
}

fn byte_fault(then: AfterByte) -> (r: SdCardError)
    ensures
        r == read_fault(byte_op(then)),
{
    match then {
        AfterByte::Cmd0 | AfterByte::Cmd8 | AfterByte::Cmd55 | AfterByte::Acmd41
        | AfterByte::Cmd58 => SdCardError::InitFailed,
        AfterByte::Cmd9 => SdCardError::ReadCsdFailed,
        AfterByte::ReadCmd | AfterByte::CrcFirst | AfterByte::CrcSecond | AfterByte::StopFirst
        | AfterByte::StopSecond => SdCardError::ReadDataFailed,
        AfterByte::WriteCmd | AfterByte::WriteStatus => SdCardError::WriteError,
    }
}

/// Appends the operations that send one block of a write.
fn push_block(ops: &mut Vec<BusOp>, token: u8, data: &Vec<u8>)
    ensures
        final(ops)@ == old(ops)@ + block_ops(token, data@),
{
    let ghost start = ops@;
    let opening: Vec<u8> = vec![0xff, token];
    let filler: Vec<u8> = vec![0x00, 0x00];
    assert(opening@ =~= seq![0xffu8, token]);
    assert(filler@ =~= seq![0x00u8, 0x00]);
    SdCard::send_data(ops, &opening);
    SdCard::send_data(ops, data);
    SdCard::send_data(ops, &filler);
    ops.push(BusOp::Configure(Direction::Receive));
    assert(ops@ =~= start + block_ops(token, data@));
}

fn command(cmd: Cmd, arg: u32, crc: u8) -> (r: Vec<BusOp>)
    ensures
        r@ == command_ops(cmd, arg, crc),
{
    let mut ops: Vec<BusOp> = Vec::new();
    SdCard::send_command(&mut ops, cmd, arg, crc);
    assert(ops@ =~= command_ops(cmd, arg, crc));
    ops
}

impl SdCard {
    /// Appends the operations that send `cmd` with argument `arg` and CRC byte `crc`.
    pub fn send_command(ops: &mut Vec<BusOp>, cmd: Cmd, arg: u32, crc: u8)
        ensures
            final(ops)@ == old(ops)@ + command_ops(cmd, arg, crc),
    {
        let ghost start = ops@;
        ops.push(BusOp::Configure(Direction::Transmit));
        ops.push(BusOp::CsHigh);
        ops.push(BusOp::Send(0xff));
        ops.push(BusOp::CsLow);
        let frame = command_frame(cmd, arg, crc);
        push_sends(ops, &frame);
        ops.push(BusOp::Configure(Direction::Receive));
        assert(ops@ =~= start + command_ops(cmd, arg, crc));
    }

    /// Appends the operations that send `data`.
    pub fn send_data(ops: &mut Vec<BusOp>, data: &Vec<u8>)
        ensures
            final(ops)@ == old(ops)@ + data_ops(data@),
    {
        let ghost start = ops@;
        ops.push(BusOp::Configure(Direction::Transmit));
        push_sends(ops, data);
        assert(ops@ =~= start + data_ops(data@));
    }

    /// A driver with no operation in progress.
    pub fn new() -> (r: SdCard)
        ensures
            r.wf(),
            r.is_idle(),
    {
        SdCard { stage: Stage::Idle, count: 0, current: 0, attempts: 0, blocks: Vec::new() }
    }

    /// Whether an operation is in progress, so that `step` is owed an event.
    pub fn is_busy(&self) -> (r: bool)
        ensures
            r == !self.is_idle(),
    {
        !matches!(self.stage, Stage::Idle)
    }

    /// Waits in `stage` for `n` bytes after the bus operations `ops`.
    fn await_read(&mut self, ops: Vec<BusOp>, stage: Stage, n: usize) -> (r: Action)
        ensures
            r.ops@ == ops@,
            r.next is Read && r.next->Read_0 == n,
            final(self).stage() == stage,
            final(self).count() == old(self).count(),
            final(self).current() == old(self).current(),
            final(self).attempts() == old(self).attempts(),
            final(self).blocks() == old(self).blocks(),
    {
        self.stage = stage;
        Action { ops, next: Next::Read(n) }
    }

    /// Ends the operation with `result` after the bus operations `ops`.
    fn finish(&mut self, ops: Vec<BusOp>, result: Result<Outcome, SdCardError>) -> (r: Action)
        ensures
            finishes(*final(self), r, ops@, result),
            final(self).wf(),
    {
        self.stage = Stage::Idle;
        Action { ops, next: Next::Done(result) }
    }

    /// Ends a read, handing back the blocks read.
    fn finish_reading(&mut self) -> (r: Action)
        ensures
            finishes_reading(*final(self), r, block_data(old(self).blocks())),
            final(self).wf(),
    {
        let mut out: Vec<Block> = Vec::new();
        std::mem::swap(&mut self.blocks, &mut out);
        self.finish(Vec::new(), Ok(Outcome::Blocks(out)))
    }

    /// Starts identification of the card, from whatever state the engine is in.
    pub fn init(&mut self) -> (r: Action)
        ensures
            final(self).wf(),
            r.ops@ == power_up_ops() + command_ops(Cmd::GoIdleState, 0, 0x95),
            r.next is Read && r.next->Read_0 == 1,
            final(self).stage() == (Stage::Response { tries: 1, then: AfterByte::Cmd0 }),
            final(self).attempts() == 0,
    {
        let mut ops: Vec<BusOp> = Vec::new();
        ops.push(BusOp::SetClock(IDENT_CLOCK_HZ));
        ops.push(BusOp::Configure(Direction::Transmit));
        ops.push(BusOp::Delay(SETTLE_US));
        ops.push(BusOp::CsHigh);
        ops.push(BusOp::SelectSlave(CARD_SELECT_LINE));
        assert(ops@ =~= power_up_ops().take(5));
        let mut i: usize = 0;
        while i < 10
            invariant
                i <= 10,
                ops@ == power_up_ops().take(5 + i),
            decreases 10 - i,
        {
            ops.push(BusOp::Send(0xff));
            i = i + 1;
            assert(ops@ =~= power_up_ops().take(5 + i));
        }
        assert(ops@ =~= power_up_ops());
        SdCard::send_command(&mut ops, Cmd::GoIdleState, 0, 0x95);
        self.count = 0;
        self.current = 0;
        self.attempts = 0;
        self.blocks = Vec::new();
        self.await_read(ops, Stage::Response { tries: 1, then: AfterByte::Cmd0 }, 1)
    }

    /// Starts reading the card's capacity from its CSD register.
    pub fn num_blocks(&mut self) -> (r: Action)
        ensures
            final(self).wf(),
            r.ops@ == command_ops(Cmd::SendCsd, 0, 0),
            r.next is Read && r.next->Read_0 == 1,
            final(self).stage() == (Stage::Response { tries: 1, then: AfterByte::Cmd9 }),
    {
        let ops = command(Cmd::SendCsd, 0, 0);
        self.await_read(ops, Stage::Response { tries: 1, then: AfterByte::Cmd9 }, 1)
    }

    /// Starts reading `count` blocks from block `start` on: one block with
    /// READ_SINGLE_BLOCK, any other count with READ_MULTIPLE_BLOCK and a
    /// closing STOP_TRANSMISSION.
    pub fn read(&mut self, count: usize, start: u32) -> (r: Action)
        ensures
            final(self).wf(),
            r.ops@ == command_ops(read_cmd(count as nat), start, 0),
            r.next is Read && r.next->Read_0 == 1,
            final(self).stage() == (Stage::Response { tries: 1, then: AfterByte::ReadCmd }),
            final(self).count() == count,
            final(self).current() == 0,
            final(self).blocks().len() == 0,
    {
        let cmd = if count == 1 {
            Cmd::ReadSingleBlock
        } else {
            Cmd::ReadMultipleBlock
        };
        let ops = command(cmd, start, 0);
        self.count = count;
        self.current = 0;
        self.blocks = Vec::new();
        self.await_read(ops, Stage::Response { tries: 1, then: AfterByte::ReadCmd }, 1)
    }

    /// Starts writing `blocks` from block `start` on. A block that the card
    /// does not accept ends the write with the error its status gives; a
    /// multi-block write that ends so is not closed with the stop token.
    pub fn write(&mut self, blocks: Vec<Block>, start: u32) -> (r: Action)
        requires
            blocks_sized(blocks@),
        ensures
            final(self).wf(),
            r.ops@ == command_ops(write_cmd(blocks@.len()), start, 0),
            r.next is Read && r.next->Read_0 == 1,
            final(self).stage() == (Stage::Response { tries: 1, then: AfterByte::WriteCmd }),
            final(self).count() == blocks@.len(),
            final(self).current() == 0,
            final(self).blocks() == blocks@,
    {
        let cmd = if blocks.len() == 1 {
            Cmd::WriteBlock
        } else {
            Cmd::WriteMultipleBlock
        };
        let ops = command(cmd, start, 0);
        self.count = blocks.len();
        self.current = 0;
        self.blocks = blocks;
        self.await_read(ops, Stage::Response { tries: 1, then: AfterByte::WriteCmd }, 1)
    }

    /// The start token of each block of the write in progress.
    fn block_token(&self) -> (r: u8)
        ensures
            r == write_token(self.count()),
    {
        if self.count == 1 {
            SINGLE_WRITE_TOKEN
        } else {
            MULTI_WRITE_TOKEN
        }
    }

    fn on_byte(&mut self, then: AfterByte, b: u8) -> (r: Action)
        requires
            old(self).byte_wf(then),
        ensures
            after_byte(*old(self), then, b, *final(self), r),
            final(self).wf(),
    {
        let resp = |t: AfterByte| -> (s: Stage)
            ensures
                s == (Stage::Response { tries: 1, then: t }),
            { Stage::Response { tries: 1, then: t } };
        match then {
            AfterByte::Cmd0 => if b == 0x01 {
                let ops = command(Cmd::SendIfCond, IF_COND_PATTERN, 0x87);
                self.await_read(ops, resp(AfterByte::Cmd8), 1)
            } else {
                self.finish(Vec::new(), Err(SdCardError::InitFailed))
            },
            AfterByte::Cmd8 => if b == 0x01 {
                self.await_read(Vec::new(), Stage::Trailing { then: AfterWord::IfCond }, 4)
            } else {
                self.finish(Vec::new(), Err(SdCardError::InitFailed))
            },
            AfterByte::Cmd55 => {
                let ops = command(Cmd::AppSendOpCond, OP_COND_HCS, 0);
                self.await_read(ops, resp(AfterByte::Acmd41), 1)
            },
            AfterByte::Acmd41 => if b == 0x00 {
                let ops = command(Cmd::ReadOcr, 0, 0);
                self.await_read(ops, resp(AfterByte::Cmd58), 1)
            } else if self.attempts < INIT_ATTEMPTS {
                self.attempts = self.attempts + 1;
                let ops = command(Cmd::AppCmd, 0, 0);
                self.await_read(ops, resp(AfterByte::Cmd55), 1)
            } else {
                self.finish(Vec::new(), Err(SdCardError::Timeout))
            },
            AfterByte::Cmd58 => self.await_read(
                Vec::new(),
                Stage::Trailing { then: AfterWord::Ocr },
                4,
            ),
            AfterByte::Cmd9 => if b == 0x00 {
                self.await_read(Vec::new(), Stage::Token { polls: 1, then: AfterData::Csd }, 1)
            } else {
                self.finish(Vec::new(), Err(SdCardError::ReadCsdFailed))
            },
            AfterByte::ReadCmd | AfterByte::CrcSecond => if self.current < self.count {
                self.await_read(Vec::new(), Stage::Token { polls: 1, then: AfterData::Block }, 1)
            } else if self.count == 1 {
                self.finish_reading()
            } else {
                let ops = command(Cmd::StopTransmission, 0, 0);
                self.await_read(ops, resp(AfterByte::StopFirst), 1)
            },
            AfterByte::CrcFirst => self.await_read(Vec::new(), resp(AfterByte::CrcSecond), 1),
            AfterByte::StopFirst => self.await_read(Vec::new(), resp(AfterByte::StopSecond), 1),
            AfterByte::StopSecond => self.finish_reading(),
            AfterByte::WriteCmd => if self.current < self.count {
                let mut ops: Vec<BusOp> = Vec::new();
                let token = self.block_token();
                push_block(&mut ops, token, &self.blocks[0].contents);
                assert(ops@ =~= block_ops(token, self.blocks()[0].contents@));
                self.await_read(ops, resp(AfterByte::WriteStatus), 1)
            } else {
                let mut ops: Vec<BusOp> = Vec::new();
                self.push_stop_write(&mut ops);
                self.await_read(ops, Stage::Busy { polls: 1, then: AfterReady::StopWritten }, 1)
            },
            AfterByte::WriteStatus => match write_status(b) {
                Ok(()) => self.await_read(
                    Vec::new(),
                    Stage::Busy { polls: 1, then: AfterReady::BlockWritten },
                    1,
                ),
                Err(e) => self.finish(Vec::new(), Err(e)),
            },
        }
    }

    fn push_stop_write(&self, ops: &mut Vec<BusOp>)
        requires
            old(ops)@.len() == 0,
        ensures
            final(ops)@ == stop_write_ops(),
    {
        let token: Vec<u8> = vec![STOP_WRITE_TOKEN, 0x00];
        assert(token@ =~= seq![STOP_WRITE_TOKEN, 0x00u8]);
        SdCard::send_data(ops, &token);
        ops.push(BusOp::Configure(Direction::Receive));
        assert(ops@ =~= stop_write_ops());
    }

    fn on_word(&mut self, then: AfterWord, w: u32) -> (r: Action)
        requires
            old(self).word_wf(then),
        ensures
            after_word(*old(self), then, w, *final(self), r),
            final(self).wf(),
    {
        match then {
            AfterWord::IfCond => if if_cond_echoed(w) {
                self.attempts = 1;
                let ops = command(Cmd::AppCmd, 0, 0);
                self.await_read(ops, Stage::Response { tries: 1, then: AfterByte::Cmd55 }, 1)
            } else {
                self.finish(Vec::new(), Err(SdCardError::InitFailed))
            },
            AfterWord::Ocr => if block_addressed(w) {
                let mut ops: Vec<BusOp> = Vec::new();
                ops.push(BusOp::SetClock(OPERATING_CLOCK_HZ));
                assert(ops@ =~= seq![BusOp::SetClock(OPERATING_CLOCK_HZ)]);
                self.finish(ops, Ok(Outcome::Initialized))
            } else {
                self.finish(Vec::new(), Err(SdCardError::InitFailed))
            },
        }
    }

    fn on_data(&mut self, then: AfterData, data: Vec<u8>) -> (r: Action)
        requires
            old(self).data_wf(then),
            data@.len() == payload_len(then),
        ensures
            after_data(*old(self), then, data@, *final(self), r),
            final(self).wf(),
    {
        match then {
            AfterData::Csd => {
                let result = match csd_block_count(&data) {
                    Ok(n) => Ok(Outcome::Capacity(n)),
                    Err(e) => Err(e),
                };
                self.finish(Vec::new(), result)
            },
            AfterData::Block => {
                let ghost before = block_data(self.blocks());
                self.blocks.push(Block { contents: data });
                self.current = self.current + 1;
                assert(block_data(self.blocks()) =~= before.push(data@));
                self.await_read(Vec::new(), Stage::Response { tries: 1, then: AfterByte::CrcFirst }, 1)
            },
        }
    }

    fn on_ready(&mut self, then: AfterReady) -> (r: Action)
        requires
            old(self).ready_wf(then),
        ensures
            after_ready(*old(self), then, *final(self), r),
            final(self).wf(),
    {
        match then {
            AfterReady::BlockWritten => if self.current + 1 < self.count {
                self.current = self.current + 1;
                let mut ops: Vec<BusOp> = Vec::new();
                let token = self.block_token();
                push_block(&mut ops, token, &self.blocks[self.current].contents);
                assert(ops@ =~= block_ops(token, self.blocks()[self.current as int].contents@));
                self.await_read(ops, Stage::Response { tries: 1, then: AfterByte::WriteStatus }, 1)
            } else if self.count == 1 {
                self.finish(Vec::new(), Ok(Outcome::Written))
            } else {
                self.current = self.current + 1;
                let mut ops: Vec<BusOp> = Vec::new();
                self.push_stop_write(&mut ops);
                self.await_read(ops, Stage::Busy { polls: 1, then: AfterReady::StopWritten }, 1)
            },
            AfterReady::StopWritten => self.finish(Vec::new(), Ok(Outcome::Written)),
        }
    }

    /// Polls a response: another byte is read while the bus reads 0xFF and
    /// fewer than `RESPONSE_TRIES` have been read; otherwise the byte read is
    /// the response.
    pub fn read_response(&mut self, tries: u8, then: AfterByte, event: Event) -> (r: Action)
        requires
            old(self).wf(),
            old(self).stage() == (Stage::Response { tries, then }),
        ensures
            stepped(*old(self), event, *final(self), r),
            final(self).wf(),
    {
        match one_byte(&event) {
            Some(b) => if b == 0xff && tries < RESPONSE_TRIES {
                self.await_read(Vec::new(), Stage::Response { tries: tries + 1, then }, 1)
            } else {
                self.on_byte(then, b)
            },
            None => self.finish(Vec::new(), Err(byte_fault(then))),
        }
    }

    /// Takes the four bytes that trail a response as one big-endian word.
    pub fn read_trailing_data(&mut self, then: AfterWord, event: Event) -> (r: Action)
        requires
            old(self).wf(),
            old(self).stage() == (Stage::Trailing { then }),
        ensures
            stepped(*old(self), event, *final(self), r),
            final(self).wf(),
    {
        match event {
            Event::Bytes(v) => if v.len() == 4 {
                let w = trailing_word(&v);
                self.on_word(then, w)
            } else {
                self.finish(Vec::new(), Err(SdCardError::InitFailed))
            },
            Event::Fault => self.finish(Vec::new(), Err(SdCardError::InitFailed)),
        }
    }

    /// Waits for the data start token: bytes whose two low bits are both set
    /// mean the card is not ready yet; after `TOKEN_POLLS` of them the wait
    /// times out. Once the token comes, the payload is received.
    pub fn read_data(&mut self, polls: u32, then: AfterData, event: Event) -> (r: Action)
        requires
            old(self).wf(),
            old(self).stage() == (Stage::Token { polls, then }),
        ensures
            stepped(*old(self), event, *final(self), r),
            final(self).wf(),
    {
        match one_byte(&event) {
            Some(b) => if is_start_token(b) {
                let n = match then {
                    AfterData::Csd => CSD_TRANSFER_LEN,
                    AfterData::Block => BLOCK_LEN,
                };
                self.stage = Stage::Payload { then };
                Action { ops: Vec::new(), next: Next::Receive(n) }
            } else if polls < TOKEN_POLLS {
                self.await_read(Vec::new(), Stage::Token { polls: polls + 1, then }, 1)
            } else {
                self.finish(Vec::new(), Err(SdCardError::Timeout))
            },
            None => self.finish(Vec::new(), Err(SdCardError::ReadDataFailed)),
        }
    }

    /// Takes a received data block; a transport fault, or a block of the
    /// wrong length, ends the operation with `ReadDataFailed`.
    pub fn receive_data(&mut self, then: AfterData, event: Event) -> (r: Action)
        requires
            old(self).wf(),
            old(self).stage() == (Stage::Payload { then }),
        ensures
            stepped(*old(self), event, *final(self), r),
            final(self).wf(),
    {
        let n = match then {
            AfterData::Csd => CSD_TRANSFER_LEN,
            AfterData::Block => BLOCK_LEN,
        };
        match event {
            Event::Bytes(v) => if v.len() == n {
                self.on_data(then, v)
            } else {
                self.finish(Vec::new(), Err(SdCardError::ReadDataFailed))
            },
            Event::Fault => self.finish(Vec::new(), Err(SdCardError::ReadDataFailed)),
        }
    }

    /// Waits for the card to leave busy: it holds the bus at 0x00 while busy;
    /// after `BUSY_POLLS` such bytes the wait times out.
    pub fn wait_ready(&mut self, polls: u32, then: AfterReady, event: Event) -> (r: Action)
        requires
            old(self).wf(),
            old(self).stage() == (Stage::Busy { polls, then }),
        ensures
            stepped(*old(self), event, *final(self), r),
            final(self).wf(),
    {
        match one_byte(&event) {
            Some(b) => if b != 0x00 {
                self.on_ready(then)
            } else if polls < BUSY_POLLS {
                self.await_read(Vec::new(), Stage::Busy { polls: polls + 1, then }, 1)
            } else {
                self.finish(Vec::new(), Err(SdCardError::Timeout))
            },
            None => self.finish(Vec::new(), Err(SdCardError::WriteError)),
        }
    }

    /// Hands the engine what the transport reported for its last action.
    pub fn step(&mut self, event: Event) -> (r: Action)
        requires
            old(self).wf(),
            !old(self).is_idle(),
        ensures
            stepped(*old(self), event, *final(self), r),
            final(self).wf(),
    {
        match self.stage {
            Stage::Idle => {
                proof {
                    assert(false);
                }
                self.finish(Vec::new(), Err(SdCardError::Unknown))
            },
            Stage::Response { tries, then } => self.read_response(tries, then, event),
            Stage::Trailing { then } => self.read_trailing_data(then, event),
            Stage::Token { polls, then } => self.read_data(polls, then, event),
            Stage::Payload { then } => self.receive_data(then, event),
            Stage::Busy { polls, then } => self.wait_ready(polls, then, event),
        }
    }
}

} // verus!
