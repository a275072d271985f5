use vstd::prelude::*;
use crate::command::{Cmd, frame_bytes};

verus! {

/// How the SPI transport is set up for the next phase of a transaction.
#[derive(Clone, Copy, PartialEq, Eq, Structural, Debug)]
pub enum Direction {
    /// 8-bit frames, transmit only: commands and outgoing data.
    Transmit,
    /// 8-bit frames, receive only: responses and incoming data.
    Receive,
}

/// One operation on the SPI transport or the card's chip-select line.
#[derive(Clone, Copy, PartialEq, Eq, Structural, Debug)]
pub enum BusOp {
    /// Set the SPI clock to the given rate in hertz.
    SetClock(u32),
    /// Set up the transport for a phase.
    Configure(Direction),
    /// Busy-wait the given number of microseconds.
    Delay(u32),
    /// Drive chip select high (card deselected).
    CsHigh,
    /// Drive chip select low (card selected).
    CsLow,
    /// Route the transport's slave select to the given line.
    SelectSlave(u8),
    /// Clock one byte out.
    Send(u8),
}

/// The bus operations that clock `bytes` out, in order.
pub open spec fn sends(bytes: Seq<u8>) -> Seq<BusOp> {
    bytes.map_values(|b: u8| BusOp::Send(b))
}

/// Sending a command: deselect the card for one idle byte, select it, send
/// the frame, then set up the transport for the response.
pub open spec fn command_ops(cmd: Cmd, arg: u32, crc: u8) -> Seq<BusOp> {
    seq![BusOp::Configure(Direction::Transmit), BusOp::CsHigh, BusOp::Send(0xff), BusOp::CsLow]
        + sends(frame_bytes(cmd, arg, crc)) + seq![BusOp::Configure(Direction::Receive)]
}

/// Sending data: set up the transport for transmission and clock the bytes out.
pub open spec fn data_ops(data: Seq<u8>) -> Seq<BusOp> {
    seq![BusOp::Configure(Direction::Transmit)] + sends(data)
}

/// Appends the operations that clock `bytes` out.
pub fn push_sends(ops: &mut Vec<BusOp>, bytes: &Vec<u8>)
    ensures
        final(ops)@ == old(ops)@ + sends(bytes@),
{
    let ghost start = ops@;
    let mut i: usize = 0;
    while i < bytes.len()
        invariant
            i <= bytes@.len(),
            ops@ == start + sends(bytes@.take(i as int)),
        decreases bytes@.len() - i,
    {
        ops.push(BusOp::Send(bytes[i]));
        i = i + 1;
        proof {
            assert(bytes@.take(i as int) =~= bytes@.take(i - 1) + seq![bytes@[i - 1]]);
            assert(sends(bytes@.take(i as int)) =~= sends(bytes@.take(i - 1)) + seq![
                BusOp::Send(bytes@[i - 1]),
            ]);
        }
    }
    assert(bytes@.take(i as int) =~= bytes@);
}

} // verus!
