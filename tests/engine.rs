use std::collections::{HashMap, VecDeque};

use sdcard::bus::BusOp;
use sdcard::error::SdCardError;
use sdcard::sdcard::{
    Action, Block, Event, Next, Outcome, SdCard, BLOCK_LEN, INIT_ATTEMPTS, OPERATING_CLOCK_HZ,
    IDENT_CLOCK_HZ,
};

/// Where the simulated card is in taking bytes from the host.
#[derive(Clone, Copy, PartialEq, Debug)]
enum Incoming {
    Command,
    WriteData { addr: u32, multi: bool, collecting: bool },
}

/// A card in SPI mode, far enough to answer the driver.
struct Sim {
    storage: HashMap<u32, Vec<u8>>,
    csd: Vec<u8>,
    queue: VecDeque<u8>,
    frame: Vec<u8>,
    incoming: Incoming,
    data: Vec<u8>,
    present: bool,
    busy_answers: usize,
    ccs: bool,
    echo: Option<u32>,
    status: u8,
    cmd9_response: u8,
    fault_on_receive: bool,
    token_never_comes: bool,
    stuck_busy: bool,
    commands: Vec<u8>,
    receives: usize,
    receives_at_stop: Vec<usize>,
    clock: u32,
}

impl Sim {
    fn new() -> Sim {
        let mut csd = vec![0u8; 16];
        csd[0] = 0x40;
        csd[7] = 0x00;
        csd[8] = 0x10;
        csd[9] = 0x00;
        Sim {
            storage: HashMap::new(),
            csd,
            queue: VecDeque::new(),
            frame: Vec::new(),
            incoming: Incoming::Command,
            data: Vec::new(),
            present: true,
            busy_answers: 2,
            ccs: true,
            echo: None,
            status: 0xe5,
            cmd9_response: 0x00,
            fault_on_receive: false,
            token_never_comes: false,
            stuck_busy: false,
            commands: Vec::new(),
            receives: 0,
            receives_at_stop: Vec::new(),
            clock: 0,
        }
    }

    fn block_at(&self, addr: u32) -> Vec<u8> {
        match self.storage.get(&addr) {
            Some(b) => b.clone(),
            None => vec![0u8; BLOCK_LEN],
        }
    }

    fn queue_word(&mut self, w: u32) {
        for b in w.to_be_bytes() {
            self.queue.push_back(b);
        }
    }

    fn queue_block(&mut self, addr: u32) {
        self.queue.push_back(0xff);
        self.queue.push_back(0xfe);
        for b in self.block_at(addr) {
            self.queue.push_back(b);
        }
        self.queue.push_back(0x12);
        self.queue.push_back(0x34);
    }

    fn command(&mut self, f: Vec<u8>) {
        let index = f[0] & 0x3f;
        let arg = u32::from_be_bytes([f[1], f[2], f[3], f[4]]);
        self.commands.push(index);
        if !self.present {
            return;
        }
        match index {
            0 => self.queue.push_back(0x01),
            8 => {
                self.queue.push_back(0x01);
                let echo = self.echo.unwrap_or(arg);
                self.queue_word(echo);
            }
            55 => self.queue.push_back(0x01),
            41 => {
                if self.busy_answers > 0 {
                    if self.busy_answers != usize::MAX {
                        self.busy_answers -= 1;
                    }
                    self.queue.push_back(0x01);
                } else {
                    self.queue.push_back(0x00);
                }
            }
            58 => {
                self.queue.push_back(0x00);
                self.queue_word(if self.ccs { 0xc0ff_8000 } else { 0x80ff_8000 });
            }
            9 => {
                self.queue.push_back(self.cmd9_response);
                if self.cmd9_response == 0 {
                    self.queue.push_back(0xff);
                    self.queue.push_back(0xfe);
                    let csd = self.csd.clone();
                    for b in csd {
                        self.queue.push_back(b);
                    }
                    self.queue.push_back(0x00);
                    self.queue.push_back(0x00);
                }
            }
            17 => {
                self.queue.push_back(0x00);
                if !self.token_never_comes {
                    self.queue_block(arg);
                }
            }
            18 => {
                self.queue.push_back(0x00);
                for k in 0..8 {
                    self.queue_block(arg + k);
                }
            }
            12 => {
                self.receives_at_stop.push(self.receives);
                self.queue.clear();
                self.queue.push_back(0xff);
                self.queue.push_back(0x00);
            }
            24 | 25 => {
                self.queue.push_back(0x00);
                self.incoming = Incoming::WriteData { addr: arg, multi: index == 25, collecting: false };
            }
            _ => self.queue.push_back(0x04),
        }
    }

    fn byte_in(&mut self, b: u8) {
        match self.incoming {
            Incoming::Command => {
                if self.frame.is_empty() {
                    if b & 0xc0 == 0x40 {
                        self.frame.push(b);
                    }
                } else {
                    self.frame.push(b);
                    if self.frame.len() == 6 {
                        let f = std::mem::take(&mut self.frame);
                        self.command(f);
                    }
                }
            }
            Incoming::WriteData { addr, multi, collecting: false } => {
                if b == 0xfe || b == 0xfc {
                    self.data.clear();
                    self.incoming = Incoming::WriteData { addr, multi, collecting: true };
                } else if b == 0xfd && multi {
                    self.queue.push_back(0x00);
                    self.queue.push_back(0xff);
                    self.incoming = Incoming::Command;
                }
            }
            Incoming::WriteData { addr, multi, collecting: true } => {
                self.data.push(b);
                if self.data.len() == BLOCK_LEN + 2 {
                    self.queue.push_back(self.status);
                    if self.status & 0x1f == 0b00101 {
                        self.storage.insert(addr, self.data[..BLOCK_LEN].to_vec());
                        self.queue.push_back(0x00);
                        self.queue.push_back(0x00);
                        if !self.stuck_busy {
                            self.queue.push_back(0xff);
                        }
                    }
                    self.incoming = if multi {
                        Incoming::WriteData { addr: addr + 1, multi, collecting: false }
                    } else {
                        Incoming::Command
                    };
                }
            }
        }
    }

    fn apply(&mut self, op: BusOp) {
        match op {
            BusOp::SetClock(hz) => self.clock = hz,
            BusOp::Send(b) => self.byte_in(b),
            _ => {}
        }
    }

    fn read(&mut self) -> u8 {
        match self.queue.pop_front() {
            Some(b) => b,
            None => {
                if self.stuck_busy {
                    0x00
                } else {
                    0xff
                }
            }
        }
    }

    fn receive(&mut self, n: usize) -> Event {
        if self.fault_on_receive {
            return Event::Fault;
        }
        self.receives += 1;
        Event::Bytes((0..n).map(|_| self.read()).collect())
    }
}

fn drive(card: &mut SdCard, sim: &mut Sim, first: Action) -> Result<Outcome, SdCardError> {
    let mut action = first;
    loop {
        for op in action.ops.iter() {
            sim.apply(*op);
        }
        let event = match action.next {
            Next::Read(n) => Event::Bytes((0..n).map(|_| sim.read()).collect()),
            Next::Receive(n) => sim.receive(n),
            Next::Done(r) => return r,
        };
        action = card.step(event);
    }
}

fn init(card: &mut SdCard, sim: &mut Sim) -> Result<Outcome, SdCardError> {
    let first = card.init();
    drive(card, sim, first)
}

fn read(card: &mut SdCard, sim: &mut Sim, count: usize, start: u32) -> Result<Vec<Vec<u8>>, SdCardError> {
    let first = card.read(count, start);
    match drive(card, sim, first)? {
        Outcome::Blocks(v) => Ok(v.into_iter().map(|b| b.contents).collect()),
        other => panic!("a read ended with {:?}", other),
    }
}

fn write(card: &mut SdCard, sim: &mut Sim, blocks: &[Vec<u8>], start: u32) -> Result<(), SdCardError> {
    let blocks: Vec<Block> = blocks.iter().map(|b| Block { contents: b.clone() }).collect();
    let first = card.write(blocks, start);
    match drive(card, sim, first)? {
        Outcome::Written => Ok(()),
        other => panic!("a write ended with {:?}", other),
    }
}

fn pattern(seed: u8) -> Vec<u8> {
    (0..BLOCK_LEN).map(|i| (i as u8).wrapping_mul(7).wrapping_add(seed)).collect()
}

#[test]
fn init_reaches_operating_clock() {
    let mut sim = Sim::new();
    let mut card = SdCard::new();
    assert!(matches!(init(&mut card, &mut sim), Ok(Outcome::Initialized)));
    assert_eq!(sim.commands, vec![0, 8, 55, 41, 55, 41, 55, 41, 58]);
    assert_eq!(sim.clock, OPERATING_CLOCK_HZ);
    assert!(!card.is_busy());
}

#[test]
fn init_starts_slow_with_idle_clocks() {
    let mut card = SdCard::new();
    let first = card.init();
    assert_eq!(first.ops[0], BusOp::SetClock(IDENT_CLOCK_HZ));
    let idle_bytes = first.ops.iter().take_while(|op| !matches!(op, BusOp::CsLow)).filter(|op| **op == BusOp::Send(0xff)).count();
    assert_eq!(idle_bytes, 11);
    assert!(matches!(first.next, Next::Read(1)));
}

#[test]
fn init_times_out_when_card_stays_busy() {
    let mut sim = Sim::new();
    sim.busy_answers = usize::MAX;
    let mut card = SdCard::new();
    assert!(matches!(init(&mut card, &mut sim), Err(SdCardError::Timeout)));
    let attempts = sim.commands.iter().filter(|c| **c == 41).count();
    assert_eq!(attempts, INIT_ATTEMPTS as usize);
    assert_ne!(sim.clock, OPERATING_CLOCK_HZ);
}

#[test]
fn init_fails_without_card() {
    let mut sim = Sim::new();
    sim.present = false;
    let mut card = SdCard::new();
    assert!(matches!(init(&mut card, &mut sim), Err(SdCardError::InitFailed)));
    assert_eq!(sim.commands, vec![0]);
}

#[test]
fn init_fails_on_echo_mismatch() {
    let mut sim = Sim::new();
    sim.echo = Some(0x2aa);
    let mut card = SdCard::new();
    assert!(matches!(init(&mut card, &mut sim), Err(SdCardError::InitFailed)));
    assert_eq!(sim.commands, vec![0, 8]);
}

#[test]
fn init_fails_on_byte_addressed_card() {
    let mut sim = Sim::new();
    sim.ccs = false;
    let mut card = SdCard::new();
    assert!(matches!(init(&mut card, &mut sim), Err(SdCardError::InitFailed)));
    assert_eq!(sim.clock, IDENT_CLOCK_HZ);
}

#[test]
fn init_can_run_again() {
    let mut sim = Sim::new();
    let mut card = SdCard::new();
    assert!(matches!(init(&mut card, &mut sim), Ok(Outcome::Initialized)));
    assert!(matches!(init(&mut card, &mut sim), Ok(Outcome::Initialized)));
    assert_eq!(sim.commands.iter().filter(|c| **c == 0).count(), 2);
}

#[test]
fn num_blocks_from_csd_c_size_0x1000() {
    let mut sim = Sim::new();
    let mut card = SdCard::new();
    let first = card.num_blocks();
    assert!(matches!(drive(&mut card, &mut sim, first), Ok(Outcome::Capacity(n)) if n == (0x1000 + 1) * 1000));
    assert_eq!(sim.commands, vec![9]);
}

#[test]
fn num_blocks_refused_by_card() {
    let mut sim = Sim::new();
    sim.cmd9_response = 0x05;
    let mut card = SdCard::new();
    let first = card.num_blocks();
    assert!(matches!(drive(&mut card, &mut sim, first), Err(SdCardError::ReadCsdFailed)));
}

#[test]
fn num_blocks_refuses_version_one_csd() {
    let mut sim = Sim::new();
    sim.csd[0] = 0x00;
    let mut card = SdCard::new();
    let first = card.num_blocks();
    assert!(matches!(drive(&mut card, &mut sim, first), Err(SdCardError::ReadCsdFailed)));
}

#[test]
fn write_then_read_gives_the_block_back() {
    let mut sim = Sim::new();
    let mut card = SdCard::new();
    assert!(init(&mut card, &mut sim).is_ok());
    let b = pattern(3);
    assert_eq!(write(&mut card, &mut sim, &[b.clone()], 7), Ok(()));
    assert_eq!(read(&mut card, &mut sim, 1, 7), Ok(vec![b]));
    assert_eq!(sim.commands[sim.commands.len() - 2..].to_vec(), vec![24, 17]);
}

#[test]
fn multi_block_write_then_read_round_trip() {
    let mut sim = Sim::new();
    let mut card = SdCard::new();
    let blocks = vec![pattern(1), pattern(2), pattern(3)];
    assert_eq!(write(&mut card, &mut sim, &blocks, 100), Ok(()));
    assert_eq!(read(&mut card, &mut sim, 3, 100), Ok(blocks.clone()));
    assert_eq!(read(&mut card, &mut sim, 1, 101), Ok(vec![blocks[1].clone()]));
    assert_eq!(sim.commands, vec![25, 18, 12, 17]);
}

#[test]
fn multi_read_stops_once_after_all_blocks() {
    let mut sim = Sim::new();
    let mut card = SdCard::new();
    let got = read(&mut card, &mut sim, 4, 0).unwrap();
    assert_eq!(got.len(), 4);
    assert_eq!(sim.commands.iter().filter(|c| **c == 12).count(), 1);
    assert_eq!(sim.receives_at_stop, vec![4]);
}

#[test]
fn single_read_sends_no_stop() {
    let mut sim = Sim::new();
    let mut card = SdCard::new();
    assert!(read(&mut card, &mut sim, 1, 5).is_ok());
    assert_eq!(sim.commands, vec![17]);
}

#[test]
fn empty_read_opens_and_stops() {
    let mut sim = Sim::new();
    let mut card = SdCard::new();
    assert_eq!(read(&mut card, &mut sim, 0, 5), Ok(vec![]));
    assert_eq!(sim.commands, vec![18, 12]);
    assert_eq!(sim.receives_at_stop, vec![0]);
}

#[test]
fn read_fault_is_read_data_failed() {
    let mut sim = Sim::new();
    sim.fault_on_receive = true;
    let mut card = SdCard::new();
    assert_eq!(read(&mut card, &mut sim, 1, 0), Err(SdCardError::ReadDataFailed));
    assert!(!card.is_busy());
}

#[test]
fn read_times_out_without_token() {
    let mut sim = Sim::new();
    sim.token_never_comes = true;
    let mut card = SdCard::new();
    assert_eq!(read(&mut card, &mut sim, 1, 0), Err(SdCardError::Timeout));
}

#[test]
fn write_crc_status_is_crc_error() {
    let mut sim = Sim::new();
    sim.status = 0b01011;
    let mut card = SdCard::new();
    assert_eq!(write(&mut card, &mut sim, &[pattern(9)], 1), Err(SdCardError::CrcError));
    assert!(sim.storage.is_empty());
}

#[test]
fn write_error_status_is_write_error() {
    let mut sim = Sim::new();
    sim.status = 0b01101;
    let mut card = SdCard::new();
    assert_eq!(write(&mut card, &mut sim, &[pattern(9)], 1), Err(SdCardError::WriteError));
}

#[test]
fn other_write_status_is_unknown() {
    for status in [0b00000u8, 0b00001, 0b00111, 0b01111, 0b11111] {
        let mut sim = Sim::new();
        sim.status = status;
        let mut card = SdCard::new();
        assert_eq!(write(&mut card, &mut sim, &[pattern(9)], 1), Err(SdCardError::Unknown));
    }
}

#[test]
fn multi_write_stops_at_first_rejected_block() {
    let mut sim = Sim::new();
    sim.status = 0xeb;
    let mut card = SdCard::new();
    let blocks = vec![pattern(1), pattern(2)];
    assert_eq!(write(&mut card, &mut sim, &blocks, 0), Err(SdCardError::CrcError));
    assert_eq!(sim.commands, vec![25]);
}

#[test]
fn write_times_out_when_card_stays_busy() {
    let mut sim = Sim::new();
    sim.stuck_busy = true;
    let mut card = SdCard::new();
    assert_eq!(write(&mut card, &mut sim, &[pattern(4)], 2), Err(SdCardError::Timeout));
}

#[test]
fn single_write_uses_single_block_token() {
    let mut card = SdCard::new();
    let first = card.write(vec![Block { contents: pattern(0) }], 3);
    let frame: Vec<u8> = first.ops.iter().filter_map(|op| match op {
        BusOp::Send(b) => Some(*b),
        _ => None,
    }).collect();
    assert_eq!(frame, vec![0xff, 0x58, 0, 0, 0, 3, 0x01]);
    let next = card.step(Event::Bytes(vec![0x00]));
    let sent: Vec<u8> = next.ops.iter().filter_map(|op| match op {
        BusOp::Send(b) => Some(*b),
        _ => None,
    }).collect();
    assert_eq!(sent.len(), 2 + BLOCK_LEN + 2);
    assert_eq!(&sent[..2], &[0xff, 0xfe]);
    assert_eq!(&sent[2..2 + BLOCK_LEN], &pattern(0)[..]);
    assert_eq!(&sent[2 + BLOCK_LEN..], &[0x00, 0x00]);
}

#[test]
fn response_poll_takes_eighth_byte() {
    let mut card = SdCard::new();
    let _ = card.init();
    for _ in 0..7 {
        let a = card.step(Event::Bytes(vec![0xff]));
        assert!(matches!(a.next, Next::Read(1)));
        assert!(a.ops.is_empty());
    }
    let a = card.step(Event::Bytes(vec![0xff]));
    assert!(matches!(a.next, Next::Done(Err(SdCardError::InitFailed))));
}

#[test]
fn empty_write_opens_and_closes_multi_block_write() {
    let mut sim = Sim::new();
    let mut card = SdCard::new();
    assert_eq!(write(&mut card, &mut sim, &[], 9), Ok(()));
    assert_eq!(sim.commands, vec![25]);
    assert_eq!(sim.incoming, Incoming::Command);
}
