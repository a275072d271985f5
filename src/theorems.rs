use vstd::prelude::*;
use crate::bus::command_ops;
use crate::command::Cmd;
use crate::error::SdCardError;
use crate::sdcard::{
    AfterByte, AfterData, AfterReady, AfterWord, Operation, SdCard, Stage, Event, Action, Next,
    stepped, byte_op, single_byte, bytes_of, Outcome, block_ops, write_token, Block, block_data, blocks_sized, BLOCK_LEN, INIT_ATTEMPTS, RESPONSE_TRIES, TOKEN_POLLS, BUSY_POLLS,
};

verus! {

/// The operation that a stage belongs to; `None` when idle.
pub open spec fn stage_op(s: Stage) -> Option<Operation> {
    match s {
        Stage::Idle => None,
        Stage::Response { then, .. } => Some(byte_op(then)),
        Stage::Trailing { .. } => Some(Operation::Init),
        Stage::Token { then, .. } | Stage::Payload { then } => Some(
            match then {
                AfterData::Csd => Operation::Capacity,
                AfterData::Block => Operation::Read,
            },
        ),
        Stage::Busy { .. } => Some(Operation::Write),
    }
}

/// The outer part of the work left: APP_SEND_OP_COND attempts left for an
/// initialization, blocks left for a read or a write.
pub open spec fn major(s: SdCard) -> int {
    match stage_op(s.stage()) {
        Some(Operation::Init) => INIT_ATTEMPTS - s.attempts(),
        Some(Operation::Read) | Some(Operation::Write) => s.count() - s.current(),
        _ => 0,
    }
}

/// Where in its operation a stage stands: each wait comes after those of
/// higher rank.
pub open spec fn rank(s: Stage) -> int {
    match s {
        Stage::Idle => 0,
        Stage::Response { then, .. } => match then {
            AfterByte::Cmd0 => 7,
            AfterByte::Cmd8 => 6,
            AfterByte::Cmd55 => 4,
            AfterByte::Acmd41 => 3,
            AfterByte::Cmd58 => 2,
            AfterByte::Cmd9 => 2,
            AfterByte::ReadCmd => 7,
            AfterByte::CrcFirst => 6,
            AfterByte::CrcSecond => 5,
            AfterByte::StopFirst => 2,
            AfterByte::StopSecond => 1,
            AfterByte::WriteCmd => 7,
            AfterByte::WriteStatus => 5,
        },
        Stage::Trailing { then } => match then {
            AfterWord::IfCond => 5,
            AfterWord::Ocr => 1,
        },
        Stage::Token { then, .. } | Stage::Payload { then } => match then {
            AfterData::Csd => 1,
            AfterData::Block => 4,
        },
        Stage::Busy { then, .. } => match then {
            AfterReady::BlockWritten => 4,
            AfterReady::StopWritten => 1,
        },
    }
}

/// The reads left in the current wait.
pub open spec fn minor(s: Stage) -> int {
    match s {
        Stage::Response { tries, .. } => RESPONSE_TRIES - tries,
        Stage::Token { polls, .. } => TOKEN_POLLS - polls + 1,
        Stage::Busy { polls, .. } => BUSY_POLLS - polls,
        _ => 0,
    }
}

/// `(a1, a2, a3)` comes strictly before `(b1, b2, b3)` in lexicographic order.
pub open spec fn lex_lt(a: (int, int, int), b: (int, int, int)) -> bool {
    a.0 < b.0 || (a.0 == b.0 && (a.1 < b.1 || (a.1 == b.1 && a.2 < b.2)))
}

pub open spec fn progress(s: SdCard) -> (int, int, int) {
    (major(s), rank(s.stage()), minor(s.stage()))
}

/// The measure of a driver in a well-formed state is bounded: no component
/// is negative, and none exceeds what the operation started with.
pub proof fn lemma_progress_bounded(s: SdCard)
    requires
        s.wf(),
    ensures
        0 <= major(s) <= if stage_op(s.stage()) == Some(Operation::Init) {
            INIT_ATTEMPTS as int
        } else {
            s.count() as int
        },
        0 <= rank(s.stage()) <= 7,
        0 <= minor(s.stage()) <= BUSY_POLLS,
{
}

/// The blocks' sizes are seen in their data.
proof fn lemma_sized_by_data(a: Seq<Block>)
    ensures
        block_data(a).len() == a.len(),
        blocks_sized(a) <==> forall|i: int|
            0 <= i < a.len() ==> #[trigger] block_data(a)[i].len() == BLOCK_LEN,
{
    assert forall|i: int| 0 <= i < a.len() implies #[trigger] block_data(a)[i] == a[i].contents@ by {
    }
    if blocks_sized(a) {
        assert forall|i: int| 0 <= i < a.len() implies #[trigger] block_data(a)[i].len()
            == BLOCK_LEN by {
            assert(block_data(a)[i] == a[i].contents@);
        }
    }
    if forall|i: int| 0 <= i < a.len() ==> #[trigger] block_data(a)[i].len() == BLOCK_LEN {
        assert forall|i: int| 0 <= i < a.len() implies #[trigger] a[i].contents@.len()
            == BLOCK_LEN by {
            assert(block_data(a)[i] == a[i].contents@);
        }
    }
}

/// Every operation is bounded: each step either ends the operation or
/// keeps to the same operation and strictly decreases the (bounded)
/// measure `progress`, so no wait of the driver runs forever, whatever the
/// card answers.
pub proof fn lemma_step_makes_progress(pre: SdCard, ev: Event, post: SdCard, r: Action)
    requires
        pre.wf(),
        stepped(pre, ev, post, r),
    ensures
        post.wf(),
        r.next is Done <==> post.is_idle(),
        !(r.next is Done) ==> stage_op(post.stage()) == stage_op(pre.stage())
            && post.count() == pre.count()
            && lex_lt(progress(post), progress(pre)),
{
    lemma_sized_by_data(pre.blocks());
    lemma_sized_by_data(post.blocks());
}

/// The answer to a written block decides the write: pattern 0b00101 (in the
/// low five bits) lets it go on to the wait for ready, 0b01011 ends it with
/// `CrcError`, 0b01101 with `WriteError`, and any other with `Unknown`.
pub proof fn lemma_write_status_decides(pre: SdCard, tries: u8, ev: Event, post: SdCard, r: Action)
    requires
        pre.wf(),
        pre.stage() == (Stage::Response { tries, then: AfterByte::WriteStatus }),
        single_byte(ev) is Some,
        single_byte(ev)->Some_0 != 0xff || tries == RESPONSE_TRIES,
        stepped(pre, ev, post, r),
    ensures
        ({
            let status = single_byte(ev)->Some_0 % 32;
            &&& status == 0b00101 ==> post.stage() == (Stage::Busy {
                polls: 1,
                then: AfterReady::BlockWritten,
            })
            &&& status == 0b01011 ==> r.next == Next::Done(Err(SdCardError::CrcError))
            &&& status == 0b01101 ==> r.next == Next::Done(Err(SdCardError::WriteError))
            &&& (status != 0b00101 && status != 0b01011 && status != 0b01101) ==> r.next
                == Next::Done(Err(SdCardError::Unknown))
        }),
{
}

/// A card that is still busy when the last allowed APP_SEND_OP_COND is
/// answered ends initialization with `Timeout`, and the attempts of an
/// initialization never exceed `INIT_ATTEMPTS`.
pub proof fn lemma_init_gives_up(pre: SdCard, tries: u8, ev: Event, post: SdCard, r: Action)
    requires
        pre.wf(),
        pre.stage() == (Stage::Response { tries, then: AfterByte::Acmd41 }),
        single_byte(ev) is Some,
        single_byte(ev)->Some_0 != 0x00,
        single_byte(ev)->Some_0 != 0xff || tries == RESPONSE_TRIES,
        stepped(pre, ev, post, r),
    ensures
        pre.attempts() <= INIT_ATTEMPTS,
        pre.attempts() == INIT_ATTEMPTS ==> r.next == Next::Done(Err(SdCardError::Timeout)),
        pre.attempts() < INIT_ATTEMPTS ==> post.attempts() == pre.attempts() + 1
            && post.stage() == (Stage::Response { tries: 1, then: AfterByte::Cmd55 }),
{
}

/// `states[i]` steps to `states[i + 1]` when handed `events[i]`, answering
/// `actions[i]`.
pub open spec fn is_run(states: Seq<SdCard>, events: Seq<Event>, actions: Seq<Action>) -> bool {
    &&& states.len() == events.len() + 1
    &&& actions.len() == events.len()
    &&& forall|i: int|
        0 <= i < events.len() ==> #[trigger] stepped(states[i], events[i], states[i + 1], actions[i])
}

/// The driver as `read` leaves it for a read of `n` blocks.
pub open spec fn read_started(s: SdCard, n: nat) -> bool {
    &&& s.wf()
    &&& s.stage() == (Stage::Response { tries: 1, then: AfterByte::ReadCmd })
    &&& s.count() == n
}

/// The action sends STOP_TRANSMISSION.
pub open spec fn sends_stop(a: Action) -> bool {
    a.ops@ == command_ops(Cmd::StopTransmission, 0, 0)
}

/// The stage waits for the answer to STOP_TRANSMISSION.
pub open spec fn stopping(s: Stage) -> bool {
    s matches Stage::Response { then: AfterByte::StopFirst, .. } || s matches Stage::Response {
        then: AfterByte::StopSecond,
        ..
    }
}

pub open spec fn stop_sent_before(actions: Seq<Action>, k: int) -> bool {
    exists|i: int| 0 <= i < k && #[trigger] sends_stop(actions[i])
}

/// One step of a read of more than one block, as far as STOP_TRANSMISSION goes.
proof fn lemma_read_step(pre: SdCard, ev: Event, post: SdCard, r: Action, n: nat)
    requires
        pre.wf(),
        !pre.is_idle(),
        stage_op(pre.stage()) == Some(Operation::Read),
        pre.count() == n,
        n > 1,
        stepped(pre, ev, post, r),
    ensures
        post.wf(),
        !post.is_idle() ==> stage_op(post.stage()) == Some(Operation::Read) && post.count() == n,
        sends_stop(r) ==> !stopping(pre.stage()) && stopping(post.stage()) && post.current() == n
            && block_data(post.blocks()).len() == n,
        stopping(pre.stage()) ==> !sends_stop(r) && (stopping(post.stage()) || post.is_idle()),
        stopping(post.stage()) ==> stopping(pre.stage()) || sends_stop(r),
        (r.next matches Next::Done(Ok(_))) ==> stopping(pre.stage()),
{
    lemma_step_makes_progress(pre, ev, post, r);
    lemma_sized_by_data(post.blocks());
    assert(command_ops(Cmd::StopTransmission, 0, 0).len() > 0);
    if sends_stop(r) {
        assert(r.ops@.len() > 0);
    }
}

proof fn lemma_read_run(states: Seq<SdCard>, events: Seq<Event>, actions: Seq<Action>, n: nat, k: int)
    requires
        is_run(states, events, actions),
        read_started(states[0], n),
        n > 1,
        0 <= k < states.len(),
    ensures
        states[k].wf(),
        !states[k].is_idle() ==> stage_op(states[k].stage()) == Some(Operation::Read)
            && states[k].count() == n,
        stopping(states[k].stage()) ==> stop_sent_before(actions, k),
        stop_sent_before(actions, k) ==> stopping(states[k].stage()) || states[k].is_idle(),
    decreases k,
{
    if k > 0 {
        lemma_read_run(states, events, actions, n, k - 1);
        let j = k - 1;
        assert(stepped(states[j], events[j], states[j + 1], actions[j]));
        assert(!states[j].is_idle());
        lemma_read_step(states[j], events[j], states[k], actions[j], n);
        if stopping(states[k].stage()) {
            if stopping(states[j].stage()) {
                let i = choose|i: int| 0 <= i < j && #[trigger] sends_stop(actions[i]);
                assert(0 <= i < k && sends_stop(actions[i]));
            } else {
                assert(sends_stop(actions[j]));
            }
        }
        if stop_sent_before(actions, k) {
            let i = choose|i: int| 0 <= i < k && #[trigger] sends_stop(actions[i]);
            if i < j {
                assert(stop_sent_before(actions, j));
            }
        }
    }
}

/// A read of more than one block sends STOP_TRANSMISSION only once every
/// block has come, and at most once; a read that ends in success has sent it.
pub proof fn lemma_multi_read_stops_once(
    states: Seq<SdCard>,
    events: Seq<Event>,
    actions: Seq<Action>,
    n: nat,
)
    requires
        is_run(states, events, actions),
        read_started(states[0], n),
        n > 1,
    ensures
        forall|i: int|
            0 <= i < actions.len() && #[trigger] sends_stop(actions[i]) ==> states[i + 1].current()
                == n && block_data(states[i + 1].blocks()).len() == n,
        forall|i: int, j: int|
            0 <= i < j < actions.len() && #[trigger] sends_stop(actions[i]) ==> !#[trigger] sends_stop(
                actions[j],
            ),
        (actions.len() > 0 && (actions.last().next matches Next::Done(Ok(_)))) ==> stop_sent_before(
            actions,
            actions.len() as int,
        ),
{
    assert forall|i: int| 0 <= i < actions.len() && #[trigger] sends_stop(actions[i]) implies states[i
        + 1].current() == n && block_data(states[i + 1].blocks()).len() == n by {
        lemma_read_run(states, events, actions, n, i);
        assert(stepped(states[i], events[i], states[i + 1], actions[i]));
        lemma_read_step(states[i], events[i], states[i + 1], actions[i], n);
    }
    assert forall|i: int, j: int|
        0 <= i < j < actions.len() && #[trigger] sends_stop(actions[i]) implies !#[trigger] sends_stop(
        actions[j],
    ) by {
        lemma_read_run(states, events, actions, n, j);
        assert(stop_sent_before(actions, j));
        assert(stepped(states[j], events[j], states[j + 1], actions[j]));
        assert(!states[j].is_idle());
        lemma_read_step(states[j], events[j], states[j + 1], actions[j], n);
    }
    if actions.len() > 0 && (actions.last().next matches Next::Done(Ok(_))) {
        let j = actions.len() - 1;
        lemma_read_run(states, events, actions, n, j);
        assert(stepped(states[j], events[j], states[j + 1], actions[j]));
        assert(!states[j].is_idle());
        lemma_read_step(states[j], events[j], states[j + 1], actions[j], n);
        let i = choose|i: int| 0 <= i < j && #[trigger] sends_stop(actions[i]);
        assert(0 <= i < actions.len() && sends_stop(actions[i]));
    }
}

/// The data blocks handed to a read along a run, up to step `k`.
pub open spec fn received(states: Seq<SdCard>, events: Seq<Event>, k: int) -> Seq<Seq<u8>>
    decreases k,
{
    if k <= 0 {
        Seq::empty()
    } else {
        let before = received(states, events, k - 1);
        if states[k - 1].stage() == (Stage::Payload { then: AfterData::Block }) && bytes_of(
            events[k - 1],
            BLOCK_LEN as nat,
        ) is Some {
            before.push(bytes_of(events[k - 1], BLOCK_LEN as nat)->Some_0)
        } else {
            before
        }
    }
}

proof fn lemma_read_run_data(states: Seq<SdCard>, events: Seq<Event>, actions: Seq<Action>, n: nat, k: int)
    requires
        is_run(states, events, actions),
        read_started(states[0], n),
        0 <= k < states.len(),
    ensures
        states[k].wf(),
        !states[k].is_idle() ==> stage_op(states[k].stage()) == Some(Operation::Read)
            && states[k].count() == n
            && block_data(states[k].blocks()) == received(states, events, k),
    decreases k,
{
    lemma_sized_by_data(states[0].blocks());
    if k > 0 {
        let j = k - 1;
        lemma_read_run_data(states, events, actions, n, j);
        assert(stepped(states[j], events[j], states[j + 1], actions[j]));
        lemma_step_makes_progress(states[j], events[j], states[j + 1], actions[j]);
    }
}

/// A read that succeeds hands back exactly the data blocks that the card
/// sent, in the order they came, one for each block asked for.
pub proof fn lemma_read_returns_received(
    states: Seq<SdCard>,
    events: Seq<Event>,
    actions: Seq<Action>,
    n: nat,
)
    requires
        is_run(states, events, actions),
        read_started(states[0], n),
        actions.len() > 0,
        actions.last().next matches Next::Done(Ok(Outcome::Blocks(_))),
    ensures
        ({
            let v = actions.last().next->Done_0->Ok_0->Blocks_0;
            &&& block_data(v@) == received(states, events, events.len() as int)
            &&& v@.len() == n
        }),
{
    let j = actions.len() - 1;
    lemma_read_run_data(states, events, actions, n, j);
    assert(stepped(states[j], events[j], states[j + 1], actions[j]));
    lemma_sized_by_data(states[j].blocks());
    let v = actions.last().next->Done_0->Ok_0->Blocks_0;
    lemma_sized_by_data(v@);
}

/// The driver as `write` leaves it for a write of blocks holding `data`.
pub open spec fn write_started(s: SdCard, data: Seq<Seq<u8>>) -> bool {
    &&& s.wf()
    &&& s.stage() == (Stage::Response { tries: 1, then: AfterByte::WriteCmd })
    &&& block_data(s.blocks()) == data
    &&& s.count() == data.len()
}

/// How many blocks of a write have been sent by the time the driver is in `s`.
pub open spec fn blocks_sent(s: SdCard) -> int {
    match s.stage() {
        Stage::Response { then: AfterByte::WriteStatus, .. } | Stage::Busy {
            then: AfterReady::BlockWritten,
            ..
        } => s.current() + 1int,
        _ => s.current() as int,
    }
}

/// Block `k` of `data` went out in one of the first `m` actions.
pub open spec fn block_went_out(actions: Seq<Action>, data: Seq<Seq<u8>>, k: int, m: int) -> bool {
    exists|i: int|
        0 <= i < m && #[trigger] actions[i].ops@ == block_ops(write_token(data.len()), data[k])
}

proof fn lemma_write_run(
    states: Seq<SdCard>,
    events: Seq<Event>,
    actions: Seq<Action>,
    data: Seq<Seq<u8>>,
    m: int,
)
    requires
        is_run(states, events, actions),
        write_started(states[0], data),
        0 <= m < states.len(),
    ensures
        states[m].wf(),
        !states[m].is_idle() ==> {
            &&& stage_op(states[m].stage()) == Some(Operation::Write)
            &&& states[m].count() == data.len()
            &&& block_data(states[m].blocks()) == data
            &&& forall|k: int| 0 <= k < blocks_sent(states[m]) ==> block_went_out(actions, data, k, m)
        },
    decreases m,
{
    if m > 0 {
        let j = m - 1;
        lemma_write_run(states, events, actions, data, j);
        assert(stepped(states[j], events[j], states[j + 1], actions[j]));
        lemma_step_makes_progress(states[j], events[j], states[j + 1], actions[j]);
        lemma_sized_by_data(states[j].blocks());
        if !states[m].is_idle() {
            assert forall|k: int| 0 <= k < blocks_sent(states[m]) implies block_went_out(
                actions,
                data,
                k,
                m,
            ) by {
                assert(!states[j].is_idle());
                if k < blocks_sent(states[j]) {
                    assert(block_went_out(actions, data, k, j));
                    let i = choose|i: int|
                        0 <= i < j && #[trigger] actions[i].ops@ == block_ops(
                            write_token(data.len()),
                            data[k],
                        );
                    assert(0 <= i < m && actions[i].ops@ == block_ops(write_token(data.len()), data[k]));
                } else {
                    assert(block_data(states[j].blocks())[k] == states[j].blocks()[k].contents@);
                    assert(actions[j].ops@ == block_ops(write_token(data.len()), data[k]));
                }
            }
        }
    }
}

/// A write that succeeds has sent every block, each as its start token,
/// its bytes and two filler CRC bytes.
pub proof fn lemma_write_sends_blocks(
    states: Seq<SdCard>,
    events: Seq<Event>,
    actions: Seq<Action>,
    data: Seq<Seq<u8>>,
)
    requires
        is_run(states, events, actions),
        write_started(states[0], data),
        actions.len() > 0,
        actions.last().next == Next::Done(Ok(Outcome::Written)),
    ensures
        forall|k: int| 0 <= k < data.len() ==> block_went_out(actions, data, k, actions.len() as int),
{
    let j = actions.len() - 1;
    lemma_write_run(states, events, actions, data, j);
    assert(stepped(states[j], events[j], states[j + 1], actions[j]));
    assert forall|k: int| 0 <= k < data.len() implies block_went_out(
        actions,
        data,
        k,
        actions.len() as int,
    ) by {
        assert(block_went_out(actions, data, k, j));
        let i = choose|i: int|
            0 <= i < j && #[trigger] actions[i].ops@ == block_ops(write_token(data.len()), data[k]);
        assert(0 <= i < actions.len());
    }
}

/// The card answered with `p` as the block that the write sent: every
/// action of the write that sent a block sent `p`.
pub open spec fn sent_as_block(write_actions: Seq<Action>, p: Seq<u8>) -> bool {
    forall|i: int, x: Seq<u8>|
        #![trigger write_actions[i], block_ops(write_token(1), x)]
        0 <= i < write_actions.len() && write_actions[i].ops@ == block_ops(write_token(1), x) ==> p
            == x
}

/// A block makes the round trip through a card that keeps what it is sent:
/// when a one-block write of `b` succeeds, and a one-block read then
/// succeeds with the card handing back the bytes that the write sent as the
/// block, the read returns `b`.
pub proof fn lemma_round_trip(
    write_states: Seq<SdCard>,
    write_events: Seq<Event>,
    write_actions: Seq<Action>,
    b: Seq<u8>,
    read_states: Seq<SdCard>,
    read_events: Seq<Event>,
    read_actions: Seq<Action>,
    p: Seq<u8>,
)
    requires
        is_run(write_states, write_events, write_actions),
        write_started(write_states[0], seq![b]),
        write_actions.len() > 0,
        write_actions.last().next == Next::Done(Ok(Outcome::Written)),
        is_run(read_states, read_events, read_actions),
        read_started(read_states[0], 1),
        read_actions.len() > 0,
        read_actions.last().next matches Next::Done(Ok(Outcome::Blocks(_))),
        received(read_states, read_events, read_events.len() as int) == seq![p],
        sent_as_block(write_actions, p),
    ensures
        block_data(read_actions.last().next->Done_0->Ok_0->Blocks_0@) == seq![b],
{
    lemma_write_sends_blocks(write_states, write_events, write_actions, seq![b]);
    assert(block_went_out(write_actions, seq![b], 0, write_actions.len() as int));
    let i = choose|i: int|
        0 <= i < write_actions.len() && #[trigger] write_actions[i].ops@ == block_ops(
            write_token(seq![b].len()),
            seq![b][0],
        );
    assert(write_actions[i].ops@ == block_ops(write_token(1), b));
    lemma_read_returns_received(read_states, read_events, read_actions, 1);
}

/// The stage is in the APP_CMD / APP_SEND_OP_COND loop of initialization.
pub open spec fn in_op_cond_loop(s: Stage) -> bool {
    s matches Stage::Response { then: AfterByte::Cmd55, .. } || s matches Stage::Response {
        then: AfterByte::Acmd41,
        ..
    }
}

/// How far into one round of the loop a stage stands, from 1 to 16.
pub open spec fn loop_position(s: Stage) -> int {
    match s {
        Stage::Response { tries, then: AfterByte::Cmd55 } => tries as int,
        Stage::Response { tries, then: AfterByte::Acmd41 } => 8 + tries,
        _ => 0,
    }
}

/// Along the run the card answers every read with one byte and never
/// answers APP_SEND_OP_COND with 0x00: it never leaves idle.
pub open spec fn card_stays_busy(states: Seq<SdCard>, events: Seq<Event>) -> bool {
    forall|i: int|
        0 <= i < events.len() ==> {
            &&& single_byte(#[trigger] events[i]) is Some
            &&& (states[i].stage() matches Stage::Response { then: AfterByte::Acmd41, .. })
                ==> single_byte(events[i])->Some_0 != 0x00
        }
}

proof fn lemma_busy_run(states: Seq<SdCard>, events: Seq<Event>, actions: Seq<Action>, k: int)
    requires
        is_run(states, events, actions),
        states[0].wf(),
        in_op_cond_loop(states[0].stage()),
        card_stays_busy(states, events),
        0 <= k < states.len(),
    ensures
        states[k].wf(),
        !states[k].is_idle() ==> in_op_cond_loop(states[k].stage()) && k <= RESPONSE_TRIES * 2 * (
        states[k].attempts() - states[0].attempts()) + loop_position(states[k].stage())
            - loop_position(states[0].stage()),
        states[k].is_idle() ==> k > 0 && actions[k - 1].next == Next::Done(
            Err(SdCardError::Timeout),
        ),
    decreases k,
{
    if k > 0 {
        let j = k - 1;
        lemma_busy_run(states, events, actions, j);
        assert(stepped(states[j], events[j], states[j + 1], actions[j]));
        assert(single_byte(events[j]) is Some);
        lemma_step_makes_progress(states[j], events[j], states[j + 1], actions[j]);
    }
}

/// A card that never leaves idle makes initialization give up: once in the
/// APP_CMD / APP_SEND_OP_COND loop, the run takes at most 16 steps for each
/// attempt left, and if it ends, it ends with `Timeout`.
pub proof fn lemma_busy_card_times_out(states: Seq<SdCard>, events: Seq<Event>, actions: Seq<Action>)
    requires
        is_run(states, events, actions),
        states[0].wf(),
        in_op_cond_loop(states[0].stage()),
        card_stays_busy(states, events),
    ensures
        actions.len() <= 16 * (INIT_ATTEMPTS - states[0].attempts() + 1),
        (actions.len() > 0 && (actions.last().next is Done)) ==> actions.last().next
            == Next::Done(Err(SdCardError::Timeout)),
{
    let n = actions.len() as int;
    lemma_busy_run(states, events, actions, n);
    if n > 0 {
        let j = n - 1;
        lemma_busy_run(states, events, actions, j);
        assert(stepped(states[j], events[j], states[j + 1], actions[j]));
        lemma_step_makes_progress(states[j], events[j], states[j + 1], actions[j]);
    }
}

} // verus!
