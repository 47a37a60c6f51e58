//! The refill protocol of the pulse transmitter: a frame that is larger
//! than the staging memory is streamed through it half by half.

use vstd::prelude::*;

verus! {

/// The fault that the transmitter reports.
#[derive(Clone, Copy, Debug, PartialEq, Eq, Structural)]
pub enum TransmitError {
    TransmissionError,
}

/// What the transmitter does next.
#[derive(Clone, Copy, Debug, PartialEq, Eq, Structural)]
pub enum TransmitStep {
    /// The hardware reported a fault: the frame is given up.
    Fail,
    /// All data has been handed over: wait for the end of the transmission.
    Finish,
    /// Wait until half of the staging memory has been sent, then copy the
    /// data from `start` up to `end` to the staging memory from `ram_index`
    /// on, and go on at `next`.
    Refill { ram_index: usize, start: usize, end: usize, next: usize },
}

/// The place in the staging memory of `ram_size` symbols that is free for
/// the data from `index` on: the two halves take turns, the lower one first.
pub open spec fn refill_offset(index: int, ram_size: int) -> int {
    (((index - ram_size) / (ram_size / 2)) % 2) * (ram_size / 2)
}

/// The next step of a transmission of `len` symbols of which `index` have
/// been handed over, with `error` saying whether the hardware reports a fault.
pub open spec fn transmit_step(index: usize, len: usize, ram_size: usize, error: bool)
    -> TransmitStep {
    if error {
        TransmitStep::Fail
    } else if index >= len {
        TransmitStep::Finish
    } else {
        TransmitStep::Refill {
            ram_index: refill_offset(index as int, ram_size as int) as usize,
            start: index,
            end: if index + ram_size / 2 < len {
                (index + ram_size / 2) as usize
            } else {
                len
            },
            next: (index + ram_size / 2) as usize,
        }
    }
}

/// Decides the next step of a transmission of `len` symbols through a
/// staging memory of `ram_size` symbols, of which the first `index` have
/// been handed over. The first chunk fills the whole staging memory, so
/// where data is left, `index` is not below `ram_size`.
pub fn transmit(index: usize, len: usize, ram_size: usize, error: bool) -> (step: TransmitStep)
    requires
        ram_size >= 2,
        index < len ==> index >= ram_size,
        index + ram_size / 2 <= usize::MAX,
    ensures
        step == transmit_step(index, len, ram_size, error),
        step matches TransmitStep::Refill { ram_index, start, end, next } ==> {
            &&& ram_index == 0 || ram_index == ram_size / 2
            &&& start < end <= len
            &&& end - start <= ram_size / 2
            &&& next > index
        },
{
    if error {
        return TransmitStep::Fail;
    }
    if index >= len {
        return TransmitStep::Finish;
    }
    let half: usize = ram_size / 2;
    let turn: usize = ((index - ram_size) / half) % 2;
    assert(turn * half == if turn == 0 { 0 } else { half as int }) by (nonlinear_arith)
        requires
            turn == 0 || turn == 1,
    ;
    let ram_index: usize = turn * half;
    let end: usize = if len - index > half {
        index + half
    } else {
        len
    };
    TransmitStep::Refill { ram_index, start: index, end, next: index + half }
}

/// The result of a transmission once the hardware has signalled its end.
pub fn finish(error: bool) -> (result: Result<(), TransmitError>)
    ensures
        result == if error {
            Err::<(), TransmitError>(TransmitError::TransmissionError)
        } else {
            Ok::<(), TransmitError>(())
        },
{
    if error {
        Err(TransmitError::TransmissionError)
    } else {
        Ok(())
    }
}

/// The refills hand the data over piece by piece, in order and without a
/// gap: a refill begins where the data that was handed over ends, and the
/// step that follows it either begins where it ended or finds all data
/// handed over.
pub proof fn lemma_refills_tile(index: usize, len: usize, ram_size: usize)
    requires
        ram_size >= 2,
        index < len,
        index + ram_size / 2 <= usize::MAX,
    ensures
        transmit_step(index, len, ram_size, false) matches TransmitStep::Refill {
            start,
            end,
            next,
            ..
        } && start == index && index < end <= len && (if end < len {
            next == end && transmit_step(next, len, ram_size, false) is Refill
        } else {
            transmit_step(next, len, ram_size, false) == TransmitStep::Finish
        }),
{
}

/// The refills walk through the staging memory in a circle: where the
/// memory has an even size and the refills began right behind the first
/// chunk, the symbol at place `index + i` of the data goes to the place
/// `(index + i) % ram_size` of the staging memory.
pub proof fn lemma_refill_wraps(index: int, ram_size: int, i: int)
    requires
        ram_size >= 2,
        ram_size % 2 == 0,
        index >= ram_size,
        (index - ram_size) % (ram_size / 2) == 0,
        0 <= i < ram_size / 2,
    ensures
        refill_offset(index, ram_size) + i == (index + i) % ram_size,
{
    let half = ram_size / 2;
    let k = (index - ram_size) / half;
    vstd::arithmetic::div_mod::lemma_fundamental_div_mod(index - ram_size, half);
    assert(index == ram_size + half * k);
    assert(k >= 0) by (nonlinear_arith)
        requires
            half * k >= 0,
            half > 0,
    ;
    let turn = k % 2;
    let pairs = k / 2;
    assert(k == 2 * pairs + turn);
    assert(half * k == ram_size * pairs + half * turn) by (nonlinear_arith)
        requires
            k == 2 * pairs + turn,
            ram_size == 2 * half,
    ;
    let low = half * turn + i;
    assert(half * turn == if turn == 0 { 0 } else { half }) by (nonlinear_arith)
        requires
            turn == 0 || turn == 1,
    ;
    assert(0 <= low < ram_size);
    assert(index + i == ram_size * (pairs + 1) + low) by (nonlinear_arith)
        requires
            index == ram_size + half * k,
            half * k == ram_size * pairs + half * turn,
            low == half * turn + i,
    ;
    vstd::arithmetic::div_mod::lemma_fundamental_div_mod_converse(
        index + i,
        ram_size,
        pairs + 1,
        low,
    );
    assert(turn * half == half * turn) by (nonlinear_arith);
}

} // verus!
