//! The dispatch loop: repeated decode/execute until the program halts, asks
//! for input that is not buffered, fails, or exhausts a step budget.

use vstd::prelude::*;

use crate::input::InputFeed;
use crate::isa::RuntimeError;
use crate::step::{spec_step, StepCtl};
use crate::vm::{VmView, VM};

verus! {

/// Why a run stopped without failing: the program halted (explicitly or by
/// returning on an empty stack or walking off the end of memory), it wants
/// input that the feed does not hold, or the step budget ran out.
#[derive(Clone, Copy, Debug, PartialEq, Eq, Structural)]
pub enum RunStop {
    Halted,
    NeedInput,
    StepLimit,
}

/// The full outcome of a budgeted run: the final machine state, the input
/// left unread, everything written to the output stream in order, and how
/// the run ended.
#[verifier::ext_equal]
pub ghost struct RunSpec {
    pub vm: VmView,
    pub input: Seq<u16>,
    pub output: Seq<u16>,
    pub end: Result<RunStop, RuntimeError>,
}

/// Running at most `fuel` instructions from state `v` with unread input
/// `input`: steps are taken one at a time under `spec_step` until one of
/// them halts, waits or fails, or the budget is spent first.
pub open spec fn spec_run(v: VmView, input: Seq<u16>, fuel: nat) -> RunSpec
    decreases fuel,
{
    if fuel == 0 {
        RunSpec { vm: v, input, output: Seq::empty(), end: Ok(RunStop::StepLimit) }
    } else {
        let s = spec_step(v, input);
        match s.ctl {
            StepCtl::Halted => RunSpec {
                vm: s.vm,
                input: s.input,
                output: Seq::empty(),
                end: Ok(RunStop::Halted),
            },
            StepCtl::NeedInput => RunSpec {
                vm: s.vm,
                input: s.input,
                output: Seq::empty(),
                end: Ok(RunStop::NeedInput),
            },
            StepCtl::Failed(e) => RunSpec {
                vm: s.vm,
                input: s.input,
                output: Seq::empty(),
                end: Err(e),
            },
            StepCtl::Running => spec_run(s.vm, s.input, (fuel - 1) as nat),
            StepCtl::Output(w) => {
                let rec = spec_run(s.vm, s.input, (fuel - 1) as nat);
                RunSpec { vm: rec.vm, input: rec.input, output: seq![w] + rec.output, end: rec.end }
            },
        }
    }
}

impl VM {
    /// Executes at most `max_steps` instructions, consuming characters from
    /// `input` and appending every character code the program writes to
    /// `output`.  The result, the final state, the unread input and the
    /// output are exactly the ones `spec_run` gives for the starting state;
    /// only after a failure is the program counter left unspecified, since a
    /// failed run never resumes.
    pub fn run(&mut self, input: &mut InputFeed, output: &mut Vec<u16>, max_steps: u64) -> (r:
        Result<RunStop, RuntimeError>)
        requires
            old(self).wf(),
            old(input).wf(),
        ensures
            final(self).wf(),
            final(input).wf(),
            ({
                let rs = spec_run(old(self)@, old(input)@, max_steps as nat);
                &&& r == rs.end
                &&& final(input)@ == rs.input
                &&& final(output)@ == old(output)@ + rs.output
                &&& final(self)@.memory == rs.vm.memory
                &&& final(self)@.registers == rs.vm.registers
                &&& final(self)@.stack == rs.vm.stack
                &&& (!(r matches Err(_)) ==> final(self)@.pc == rs.vm.pc)
            }),
    {
        let ghost rs0 = spec_run(old(self)@, old(input)@, max_steps as nat);
        let ghost mut emitted: Seq<u16> = Seq::empty();
        let mut steps: u64 = 0;
        loop
            invariant
                self.wf(),
                input.wf(),
                steps <= max_steps,
                output@ == old(output)@ + emitted,
                rs0 == spec_run(old(self)@, old(input)@, max_steps as nat),
                ({
                    let rc = spec_run(self@, input@, (max_steps - steps) as nat);
                    &&& rs0.end == rc.end
                    &&& rs0.vm == rc.vm
                    &&& rs0.input == rc.input
                    &&& rs0.output == emitted + rc.output
                }),
            decreases max_steps - steps,
        {
            if steps == max_steps {
                proof {
                    assert(emitted + Seq::<u16>::empty() =~= emitted);
                }
                return Ok(RunStop::StepLimit);
            }
            let ghost v_pre = self@;
            let ghost in_pre = input@;
            let ctl = self.step(input);
            steps = steps + 1;
            proof {
                let s = spec_step(v_pre, in_pre);
                if !(ctl matches StepCtl::Failed(_)) {
                    assert(self@ =~= s.vm);
                }
            }
            match ctl {
                StepCtl::Running => (),
                StepCtl::Output(w) => {
                    output.push(w);
                    proof {
                        let s = spec_step(v_pre, in_pre);
                        let rec = spec_run(s.vm, s.input, (max_steps - steps) as nat);
                        assert(emitted + (seq![w] + rec.output) =~= (emitted + seq![w])
                            + rec.output);
                        emitted = emitted + seq![w];
                    }
                },
                StepCtl::Halted => {
                    proof {
                        assert(emitted + Seq::<u16>::empty() =~= emitted);
                    }
                    return Ok(RunStop::Halted);
                },
                StepCtl::NeedInput => {
                    proof {
                        assert(emitted + Seq::<u16>::empty() =~= emitted);
                    }
                    return Ok(RunStop::NeedInput);
                },
                StepCtl::Failed(e) => {
                    proof {
                        assert(emitted + Seq::<u16>::empty() =~= emitted);
                    }
                    return Err(e);
                },
            }
        }
    }
}

} // verus!
