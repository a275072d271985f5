use vstd::prelude::*;

verus! {

/// The SD commands that a card in SPI mode is sent, named by their index.
#[derive(Clone, Copy, PartialEq, Eq, Structural, Debug)]
pub enum Cmd {
    GoIdleState,
    SendOpCond,
    SendIfCond,
    SendCsd,
    SendCid,
    StopTransmission,
    SetBlockLength,
    ReadSingleBlock,
    ReadMultipleBlock,
    SetBlockCount,
    WriteBlock,
    WriteMultipleBlock,
    AppCmd,
    ReadOcr,
    AppSendOpCond,
}

impl Cmd {
    /// The command index of the SD physical layer (CMD0, CMD8, ...).
    pub open spec fn spec_index(self) -> u8 {
        match self {
            Cmd::GoIdleState => 0,
            Cmd::SendOpCond => 1,
            Cmd::SendIfCond => 8,
            Cmd::SendCsd => 9,
            Cmd::SendCid => 10,
            Cmd::StopTransmission => 12,
            Cmd::SetBlockLength => 16,
            Cmd::ReadSingleBlock => 17,
            Cmd::ReadMultipleBlock => 18,
            Cmd::SetBlockCount => 23,
            Cmd::WriteBlock => 24,
            Cmd::WriteMultipleBlock => 25,
            Cmd::AppCmd => 55,
            Cmd::ReadOcr => 58,
            Cmd::AppSendOpCond => 41,
        }
    }

    #[verifier::when_used_as_spec(spec_index)]
    pub fn index(self) -> (r: u8)
        ensures
            r == self.spec_index(),
            r < 64,
    {
        match self {
            Cmd::GoIdleState => 0,
            Cmd::SendOpCond => 1,
            Cmd::SendIfCond => 8,
            Cmd::SendCsd => 9,
            Cmd::SendCid => 10,
            Cmd::StopTransmission => 12,
            Cmd::SetBlockLength => 16,
            Cmd::ReadSingleBlock => 17,
            Cmd::ReadMultipleBlock => 18,
            Cmd::SetBlockCount => 23,
            Cmd::WriteBlock => 24,
            Cmd::WriteMultipleBlock => 25,
            Cmd::AppCmd => 55,
            Cmd::ReadOcr => 58,
            Cmd::AppSendOpCond => 41,
        }
    }
}

/// Byte `k` (0 for the most significant) of `arg` written big-endian.
pub open spec fn be_byte(arg: u32, k: int) -> u8 {
    ((arg as int / pow256(3 - k)) % 256) as u8
}

pub open spec fn pow256(e: int) -> int
    decreases e,
{
    if e <= 0 {
        1
    } else {
        256 * pow256(e - 1)
    }
}

/// The six bytes of a command frame: the index with the transmission bit
/// (0x40), the argument big-endian, and the CRC byte with its end bit (0x01).
pub open spec fn frame_bytes(cmd: Cmd, arg: u32, crc: u8) -> Seq<u8> {
    seq![
        (cmd.index() + 0x40) as u8,
        be_byte(arg, 0),
        be_byte(arg, 1),
        be_byte(arg, 2),
        be_byte(arg, 3),
        crc | 0x01,
    ]
}

/// Encodes the frame that sends `cmd` with argument `arg` and CRC byte `crc`.
pub fn command_frame(cmd: Cmd, arg: u32, crc: u8) -> (r: Vec<u8>)
    ensures
        r@ == frame_bytes(cmd, arg, crc),
{
    let b0: u8 = (arg >> 24) as u8;
    let b1: u8 = ((arg >> 16) & 0xff) as u8;
    let b2: u8 = ((arg >> 8) & 0xff) as u8;
    let b3: u8 = (arg & 0xff) as u8;
    assert(b0 == be_byte(arg, 0) && b1 == be_byte(arg, 1) && b2 == be_byte(arg, 2) && b3
        == be_byte(arg, 3)) by {
        reveal_with_fuel(pow256, 4);
        assert((arg >> 24) as u8 == arg / 0x1000000) by (bit_vector);
        assert(((arg >> 16) & 0xff) as u8 == (arg / 0x10000) % 256) by (bit_vector);
        assert(((arg >> 8) & 0xff) as u8 == (arg / 0x100) % 256) by (bit_vector);
        assert((arg & 0xff) as u8 == arg % 256) by (bit_vector);
    }
    let v: Vec<u8> = vec![cmd.index() | 0x40, b0, b1, b2, b3, crc | 0x01];
    proof {
        let i = cmd.index();
        assert(i < 64 ==> i | 0x40 == i + 0x40) by (bit_vector);
        assert(v@ =~= frame_bytes(cmd, arg, crc));
    }
    v
}

} // verus!
