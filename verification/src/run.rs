//! Running a program: the loader, which makes the memory image from the
//! input, and the loop that executes instructions until the program ends.

use vstd::prelude::*;
use crate::laws::lemma_step_faults;
use crate::machine::{chunks, Fault, Machine, State, Status};
use crate::memory::{word_at, word_from};

verus! {

/// The most bytes that the zeroed region behind the program may have.
pub const BSS_LIMIT: u32 = 16 * 1024 * 1024;

/// The most instructions that a run can count.
pub const COUNTER_MAX: u128 = u128::MAX;

/// The size of the zeroed region: the little-endian number in the last four
/// bytes of the input, but no more than [`BSS_LIMIT`].
pub open spec fn bss_size(input: Seq<u8>) -> nat {
    let asked = word_at(input, input.len() - 4);
    if asked > BSS_LIMIT {
        BSS_LIMIT as nat
    } else {
        asked as nat
    }
}

/// The memory image for an input of at least four bytes: the input without
/// its last four bytes, then [`bss_size`] zero bytes.
pub open spec fn image_spec(input: Seq<u8>) -> Seq<u8> {
    input.subrange(0, input.len() - 4) + Seq::new(bss_size(input), |i: int| 0u8)
}

/// A run's result with its count as a number.
pub open spec fn counted(result: Result<u128, Fault>) -> Result<nat, Fault> {
    match result {
        Ok(count) => Ok(count as nat),
        Err(fault) => Err(fault),
    }
}

/// The outcome `outcome` of the rest of a run, seen from `steps` steps
/// earlier.
pub open spec fn later(outcome: (Machine, Result<nat, Fault>), steps: nat) -> (
    Machine,
    Result<nat, Fault>,
) {
    (
        outcome.0,
        match outcome.1 {
            Ok(count) => Ok(count + steps),
            Err(fault) => Err(fault),
        },
    )
}

impl Machine {
    /// Where a run of at most `fuel` steps ends, and how. The result is the
    /// number of instructions executed, the one that ended the program
    /// included; or the fault of the instruction that could not be
    /// executed; or [`Fault::CounterOverflow`] where the program has not
    /// ended after `fuel` steps.
    pub open spec fn run(self, fuel: nat) -> (Machine, Result<nat, Fault>)
        decreases fuel,
    {
        if fuel == 0 {
            (self, Err(Fault::CounterOverflow))
        } else {
            let (next, status) = self.step();
            match status {
                Status::Finished => (next, Ok(1nat)),
                Status::Error(fault) => (next, Err(fault)),
                Status::Continue => later(next.run((fuel - 1) as nat), 1),
            }
        }
    }
}

impl Machine {
    /// Where a stretch of a run ends, and how: the machine executes
    /// instructions until one has written to the output, has ended the
    /// program, or cannot be executed. `count` is the number of instructions
    /// executed before the stretch; the result holds the number after it and
    /// the status of its last step. An instruction that fails is not
    /// counted. Where `limit` instructions are counted and the program goes
    /// on, the stretch ends with [`Fault::CounterOverflow`].
    pub open spec fn run_to_write(self, count: nat, limit: nat) -> (Machine, nat, Status)
        decreases limit - count,
    {
        if count >= limit {
            (self, count, Status::Error(Fault::CounterOverflow))
        } else {
            let (next, status) = self.step();
            match status {
                Status::Error(fault) => (next, count, status),
                Status::Finished => (next, count + 1, status),
                Status::Continue => if next.output.len() == self.output.len() {
                    next.run_to_write(count + 1, limit)
                } else {
                    (next, count + 1, status)
                },
            }
        }
    }
}

/// What [`riscv`] returns for an input: the result of the run, and the
/// chunks of output written.
pub open spec fn riscv_spec(input: Seq<u8>) -> (Result<nat, Fault>, Seq<Seq<u8>>) {
    if input.len() < 4 {
        (Err(Fault::Truncated), Seq::empty())
    } else {
        let (end, result) = Machine::initial(image_spec(input)).run(COUNTER_MAX as nat);
        (result, end.output)
    }
}

/// How a run ended, and what it wrote.
pub struct Execution {
    /// The number of instructions executed, or why the run could not go
    /// on.
    pub result: Result<u128, Fault>,
    /// The chunks of bytes written to the output, oldest first.
    pub output: Vec<Vec<u8>>,
}

/// Makes the memory image from the input: takes the last four bytes off,
/// reads them as the size of the zeroed region, and appends that many zero
/// bytes, but no more than [`BSS_LIMIT`]. An input of less than four bytes
/// is refused.
pub fn load_image(input: &Vec<u8>) -> (r: Result<Vec<u8>, Fault>)
    requires
        input@.len() + BSS_LIMIT <= usize::MAX,
    ensures
        match r {
            Ok(image) => input@.len() >= 4 && image@ == image_spec(input@),
            Err(fault) => input@.len() < 4 && fault == Fault::Truncated,
        },
{
    let total: usize = input.len();
    if total < 4 {
        return Err(Fault::Truncated);
    }
    let kept: usize = total - 4;
    let asked: u32 = word_from(input, kept);
    let zeros: u32 = if asked > BSS_LIMIT {
        BSS_LIMIT
    } else {
        asked
    };
    let mut image: Vec<u8> = input.clone();
    image.truncate(kept);
    image.resize(kept + zeros as usize, 0u8);
    assert(image@ =~= image_spec(input@));
    Ok(image)
}

impl State {
    /// Executes instructions until one ends the program or cannot be
    /// executed. Returns the number of instructions executed, the one that
    /// ended the program included.
    pub fn run(&mut self) -> (result: Result<u128, Fault>)
        ensures
            (final(self)@, counted(result)) == old(self)@.run(COUNTER_MAX as nat),
            old(self)@.wf(),
            final(self)@.wf(),
            !(result matches Err(Fault::Truncated)),
    {
        let ghost start = self@;
        self.always_wf();
        let mut count: u128 = 0;
        loop
            invariant
                start == old(self)@,
                start.wf(),
                self@.wf(),
                start.run(COUNTER_MAX as nat) == later(
                    self@.run((COUNTER_MAX - count) as nat),
                    count as nat,
                ),
            decreases COUNTER_MAX - count,
        {
            if count == COUNTER_MAX {
                return Err(Fault::CounterOverflow);
            }
            count = count + 1;
            proof {
                lemma_step_faults(self@);
            }
            match self.step() {
                Status::Continue => {},
                Status::Error(fault) => {
                    return Err(fault);
                },
                Status::Finished => {
                    return Ok(count);
                },
            }
        }
    }
}

impl State {
    /// Executes instructions until one has written to the output, has ended
    /// the program, or cannot be executed: one stretch of a run, for a
    /// caller that hands on the output as it is written. `count` is the
    /// number of instructions executed before; returned are the number after
    /// the stretch and the status of its last step.
    pub fn run_to_write(&mut self, count: u128) -> (r: (u128, Status))
        ensures
            (final(self)@, r.0 as nat, r.1) == old(self)@.run_to_write(
                count as nat,
                COUNTER_MAX as nat,
            ),
            r.0 >= count,
            old(self)@.wf(),
            final(self)@.wf(),
    {
        let ghost start = self@;
        self.always_wf();
        let mut counted: u128 = count;
        loop
            invariant
                start == old(self)@,
                start.wf(),
                self@.wf(),
                counted >= count,
                start.run_to_write(count as nat, COUNTER_MAX as nat) == self@.run_to_write(
                    counted as nat,
                    COUNTER_MAX as nat,
                ),
            decreases COUNTER_MAX - counted,
        {
            if counted == COUNTER_MAX {
                return (counted, Status::Error(Fault::CounterOverflow));
            }
            let written: usize = self.output().len();
            let status: Status = self.step();
            match status {
                Status::Error(_) => {
                    return (counted, status);
                },
                Status::Finished => {
                    return (counted + 1, status);
                },
                Status::Continue => {
                    counted = counted + 1;
                    if self.output().len() != written {
                        return (counted, status);
                    }
                },
            }
        }
    }
}

/// Runs the program in `input_data`: code and initial data, then four bytes
/// that hold the size of the zeroed region behind them. Returns how the run
/// ended and what it wrote.
pub fn riscv(input_data: &Vec<u8>) -> (r: Execution)
    requires
        input_data@.len() + BSS_LIMIT <= usize::MAX,
    ensures
        (counted(r.result), chunks(r.output@)) == riscv_spec(input_data@),
        r.result == Err::<u128, Fault>(Fault::Truncated) <==> input_data@.len() < 4,
{
    match load_image(input_data) {
        Err(fault) => {
            let r = Execution { result: Err(fault), output: Vec::new() };
            assert(chunks(r.output@) =~= Seq::<Seq<u8>>::empty());
            r
        },
        Ok(image) => {
            let mut vm: State = State::new(image);
            let result: Result<u128, Fault> = vm.run();
            Execution { result, output: vm.into_output() }
        },
    }
}

} // verus!
