//! Theorems about the machine: what sequences of instructions come to, and
//! when a run ends.

use vstd::prelude::*;
use crate::error::VmError;
use crate::frame::FrameView;
use crate::token::TokenView;
use crate::token::instruction::Instruction;
use crate::token::operand::{
    arith_spec, FloatRequest, OperandView, OutcomeView, Scalar,
};
use crate::vm::{StatusView, VmView};

verus! {

/// Whether the machine is about to execute `op`: it has not halted, waits
/// for nothing, and `op` stands at the instruction pointer.
pub open spec fn at_opcode(m: VmView, op: Instruction) -> bool {
    !m.halted && m.pending is None && m.fetch(m.ip) == Ok::<TokenView, VmError>(
        TokenView::Instruction(op),
    )
}

/// `Dup` followed by `Pop` leaves the machine as it was before the `Dup`,
/// two tokens further on: the stack is unchanged. On an empty stack the
/// `Dup` fails, which changes nothing either.
pub proof fn lemma_dup_then_pop(m: VmView)
    requires
        at_opcode(m, Instruction::Dup),
        m.fetch(m.ip + 1) == Ok::<TokenView, VmError>(TokenView::Instruction(Instruction::Pop)),
    ensures
        m.stack.len() >= 1 ==> m.run(2) == (
            VmView { ip: m.ip + 2, ..m },
            Ok::<StatusView, VmError>(StatusView::Running),
        ),
        m.stack.len() == 0 ==> m.run(2) == (m, Err::<StatusView, VmError>(VmError::StackUnderflow)),
{
    reveal_with_fuel(VmView::run, 3);
    if m.stack.len() >= 1 {
        let m1 = m.advanced().moved(0, seq![m.stack[0]], m.advanced().ip);
        assert(m.step() == Ok::<(VmView, StatusView), VmError>((m1, StatusView::Running)));
        let m2 = m1.advanced().moved(1, seq![], m1.advanced().ip);
        assert(m1.step() == Ok::<(VmView, StatusView), VmError>((m2, StatusView::Running)));
        assert(m2.stack =~= m.stack);
    }
}

/// A variable reads as what was last stored in it, and storing in one
/// variable changes no other.
pub proof fn lemma_set_then_get(f: FrameView, var: Seq<char>, val: OperandView, other: Seq<char>)
    ensures
        f.set(var, val).get(var) == val,
        other != var ==> f.set(var, val).get(other) == f.get(other),
        f.set(var, val).return_address == f.return_address,
{
}

/// `Store` of a variable followed by `Load` of the same variable leaves
/// the stored value on top of the stack, as it was before the `Store`. The
/// value is in the current frame, and no other frame has changed.
pub proof fn lemma_store_then_load(m: VmView, var: Seq<char>, val: OperandView)
    requires
        at_opcode(m, Instruction::Store),
        m.fetch(m.ip + 1) == Ok::<TokenView, VmError>(TokenView::Data(OperandView::Str(var))),
        m.fetch(m.ip + 2) == Ok::<TokenView, VmError>(TokenView::Instruction(Instruction::Load)),
        m.fetch(m.ip + 3) == Ok::<TokenView, VmError>(TokenView::Data(OperandView::Str(var))),
        m.stack.len() >= 1,
        m.stack[0] == TokenView::Data(val),
    ensures
        m.run(2) == (
            VmView { ip: m.ip + 4, frame: m.frame.set(var, val), ..m },
            Ok::<StatusView, VmError>(StatusView::Running),
        ),
        m.run(2).0.frame.get(var) == val,
        m.run(2).0.stack == m.stack,
        m.run(2).0.callers == m.callers,
{
    reveal_with_fuel(VmView::run, 3);
    let a = m.advanced();
    let m1 = VmView { frame: a.frame.set(var, val), ..a.moved(1, seq![], a.past()) };
    assert(m.step() == Ok::<(VmView, StatusView), VmError>((m1, StatusView::Running)));
    let b = m1.advanced();
    let m2 = b.moved(0, seq![TokenView::Data(b.frame.get(var))], b.past());
    assert(m1.step() == Ok::<(VmView, StatusView), VmError>((m2, StatusView::Running)));
    assert(m2.stack =~= m.stack);
}

/// `Call` enters the subroutine: a new, empty frame that returns to the
/// token after the immediate, the caller's frame below it, and the operand
/// stack as it was.
pub proof fn lemma_call_enters(m: VmView, address: i64)
    requires
        at_opcode(m, Instruction::Call),
        m.fetch(m.ip + 1) == Ok::<TokenView, VmError>(TokenView::Data(OperandView::Int(address))),
        0 < address < m.program.len(),
    ensures
        m.step() == Ok::<(VmView, StatusView), VmError>(
            (
                VmView {
                    ip: address as int,
                    frame: FrameView::new(m.ip + 2),
                    callers: seq![m.frame] + m.callers,
                    ..m
                },
                StatusView::Running,
            ),
        ),
{
}

/// `Ret` goes on at the return address of the current frame, drops that
/// frame, and leaves the operand stack as the subroutine left it. With the
/// base frame alone it fails.
pub proof fn lemma_ret_returns(m: VmView)
    requires
        at_opcode(m, Instruction::Ret),
    ensures
        m.callers.len() >= 1 ==> m.step() == Ok::<(VmView, StatusView), VmError>(
            (
                VmView {
                    ip: m.frame.return_address,
                    frame: m.callers[0],
                    callers: m.callers.skip(1),
                    ..m
                },
                StatusView::Running,
            ),
        ),
        m.callers.len() == 0 ==> m.step() == Err::<(VmView, StatusView), VmError>(
            VmError::ReturnFromBaseFrame,
        ),
{
}

/// A `Call` of an address at which a `Ret` stands comes back to the token
/// after the call's immediate, with the stack and the frames as they were.
pub proof fn lemma_call_then_ret(m: VmView, address: i64)
    requires
        at_opcode(m, Instruction::Call),
        m.fetch(m.ip + 1) == Ok::<TokenView, VmError>(TokenView::Data(OperandView::Int(address))),
        0 < address < m.program.len(),
        m.program[address as int] == TokenView::Instruction(Instruction::Ret),
    ensures
        m.run(2) == (VmView { ip: m.ip + 2, ..m }, Ok::<StatusView, VmError>(StatusView::Running)),
{
    reveal_with_fuel(VmView::run, 3);
    lemma_call_enters(m, address);
    let m1 = m.step()->Ok_0.0;
    lemma_ret_returns(m1);
    let m2 = m1.step()->Ok_0.0;
    assert(m2.callers =~= m.callers);
}

/// A sum of an integer and a float, in either order, is left to the float
/// unit with the operands in their order, and what the unit answers is put
/// on the stack as a float: the integer is promoted, never the float cut.
pub proof fn lemma_mixed_sum_is_float(m: VmView, a: i64, b: u64, bits: u64)
    requires
        at_opcode(m, Instruction::Add),
        m.stack.len() >= 2,
        (m.stack[1] == TokenView::Data(OperandView::Int(a)) && m.stack[0] == TokenView::Data(
            OperandView::Float(b),
        )) || (m.stack[1] == TokenView::Data(OperandView::Float(b)) && m.stack[0]
            == TokenView::Data(OperandView::Int(a))),
    ensures
        m.step() is Ok,
        m.step()->Ok_0.1 == StatusView::Float(
            if m.stack[1] == TokenView::Data(OperandView::Int(a)) {
                FloatRequest { op: Instruction::Add, lhs: Scalar::Int(a), rhs: Scalar::Float(b) }
            } else {
                FloatRequest { op: Instruction::Add, lhs: Scalar::Float(b), rhs: Scalar::Int(a) }
            },
        ),
        m.step()->Ok_0.0.resume(bits) == m.advanced().moved(
            2,
            seq![TokenView::Data(OperandView::Float(bits))],
            m.ip + 1,
        ),
{
    let (m1, _) = m.step()->Ok_0;
    assert(m1.resume(bits).stack =~= seq![TokenView::Data(OperandView::Float(bits))]
        + m.stack.skip(2));
}

/// Adding two texts joins them in order: the sum is the left text followed
/// by the right one, whole and unchanged. Sums of three texts do not depend
/// on which two are joined first.
pub proof fn lemma_text_sum_keeps_order(a: Seq<char>, b: Seq<char>, c: Seq<char>)
    ensures
        arith_spec(Instruction::Add, OperandView::Str(a), OperandView::Str(b)) == Ok::<
            OutcomeView,
            VmError,
        >(OutcomeView::Ready(OperandView::Str(a + b))),
        (a + b).len() == a.len() + b.len(),
        (a + b).take(a.len() as int) == a,
        (a + b).skip(a.len() as int) == b,
        (a + b) + c == a + (b + c),
{
    assert((a + b).take(a.len() as int) =~= a);
    assert((a + b).skip(a.len() as int) =~= b);
    assert((a + b) + c =~= a + (b + c));
}

/// A step reports `Halted` exactly when it leaves the machine halted. It
/// never changes the program, and a machine that has halted or waits for a
/// float stays as it is.
pub proof fn lemma_step_status(m: VmView)
    ensures
        match m.step() {
            Ok((next, status)) => {
                &&& status is Halted <==> next.halted
                &&& next.program == m.program
                &&& (m.halted || m.pending is Some) ==> next == m
            },
            Err(_) => !m.halted && m.pending is None,
        },
{
}

/// The machine after one step more is the machine one step after the first.
proof fn lemma_after_unfold(m: VmView, next: VmView, status: StatusView, n: nat)
    requires
        m.step() == Ok::<(VmView, StatusView), VmError>((next, status)),
    ensures
        m.after(n + 1) == next.after(n),
{
    reveal_with_fuel(VmView::after, 2);
}

/// A machine that has halted stays where it is.
proof fn lemma_after_halted(m: VmView, n: nat)
    requires
        m.halted,
    ensures
        m.after(n) == m,
    decreases n,
{
    if n > 0 {
        lemma_after_halted(m, (n - 1) as nat);
    }
}

/// A run ends with `Halted` exactly when the machine halts within the
/// budget, every step up to there being quiet: none fails, and none leaves
/// the driver something to do. The run then ends in the halted machine.
/// Otherwise the run ends earlier, or uses up the budget and says
/// `Running`: the machine has then made exactly `budget` steps.
pub proof fn lemma_run_halts(m: VmView, budget: nat)
    ensures
        m.run(budget).1 == Ok::<StatusView, VmError>(StatusView::Halted) <==> exists|n: nat|
            n <= budget && #[trigger] m.halts_in(n),
        forall|n: nat|
            n <= budget && #[trigger] m.halts_in(n) ==> m.run(budget).0 == m.after(n),
        m.run(budget).1 == Ok::<StatusView, VmError>(StatusView::Running) <==> m.runs_for(budget)
            && !m.after(budget).halted,
        m.run(budget).1 == Ok::<StatusView, VmError>(StatusView::Running) ==> m.run(budget).0
            == m.after(budget),
    decreases budget,
{
    lemma_step_status(m);
    if m.halted {
        assert(m.halts_in(0));
        assert forall|n: nat| n <= budget && #[trigger] m.halts_in(n) implies m.run(budget).0
            == m.after(n) by {
            lemma_after_halted(m, n);
        }
        lemma_after_halted(m, budget);
    } else if budget == 0 {
        assert forall|n: nat| n <= budget implies !#[trigger] m.halts_in(n) by {}
    } else {
        let rest = (budget - 1) as nat;
        match m.step() {
            Err(_) => {
                assert(!m.after(0).quiet());
                assert forall|n: nat| n <= budget implies !#[trigger] m.halts_in(n) by {
                    if n > 0 {
                        assert(!m.after(0).quiet());
                    }
                }
                assert(!(m.after(0).step() matches Ok((next, StatusView::Running))));
            },
            Ok((next, status)) => {
                assert forall|n: nat| m.after(n + 1) == next.after(n) by {
                    lemma_after_unfold(m, next, status, n);
                }
                if status is Running {
                    lemma_run_halts(next, rest);
                    assert(m.after(0).quiet());
                    assert forall|n: nat| #[trigger] next.halts_in(n) implies m.halts_in(
                        (n + 1) as nat,
                    ) by {
                        assert(m.after((n + 1) as nat) == next.after(n));
                        assert forall|j: nat| j < n + 1 implies #[trigger] m.after(j).quiet() by {
                            if j > 0 {
                                assert(m.after(((j - 1) + 1) as nat) == next.after((j - 1) as nat));
                            }
                        }
                    }
                    assert forall|n: nat| #[trigger] m.halts_in(n) implies n > 0 && next.halts_in(
                        (n - 1) as nat,
                    ) by {
                        assert(n > 0);
                        assert(m.after(((n - 1) + 1) as nat) == next.after((n - 1) as nat));
                        assert forall|j: nat| j < n - 1 implies #[trigger] next.after(j).quiet() by {
                            assert(m.after((j + 1) as nat) == next.after(j));
                            assert(m.after((j + 1) as nat).quiet());
                        }
                    }
                    if m.run(budget).1 == Ok::<StatusView, VmError>(StatusView::Halted) {
                        let k = choose|k: nat| k <= rest && #[trigger] next.halts_in(k);
                        assert(m.halts_in((k + 1) as nat));
                    }
                    assert forall|n: nat| n <= budget && #[trigger] m.halts_in(n) implies m.run(
                        budget,
                    ).0 == m.after(n) by {
                        assert(next.halts_in((n - 1) as nat));
                        assert(m.after(((n - 1) + 1) as nat) == next.after((n - 1) as nat));
                    }
                    assert(m.after((rest + 1) as nat) == next.after(rest));
                    if next.runs_for(rest) {
                        assert forall|j: nat| j < budget implies (#[trigger] m.after(j).step() matches Ok(
                            (x, StatusView::Running),
                        )) by {
                            if j > 0 {
                                assert(m.after(((j - 1) + 1) as nat) == next.after((j - 1) as nat));
                                assert(next.after((j - 1) as nat).step() matches Ok(
                                    (x, StatusView::Running),
                                ));
                            }
                        }
                    }
                    if m.runs_for(budget) {
                        assert forall|j: nat| j < rest implies (#[trigger] next.after(j).step() matches Ok(
                            (x, StatusView::Running),
                        )) by {
                            assert(m.after((j + 1) as nat) == next.after(j));
                            assert(m.after((j + 1) as nat).step() matches Ok(
                                (x, StatusView::Running),
                            ));
                        }
                    }
                } else if status is Halted {
                    assert(m.after(0).quiet());
                    assert(m.after(1) == next.after(0));
                    assert(m.halts_in(1)) by {
                        assert forall|j: nat| j < 1 implies #[trigger] m.after(j).quiet() by {}
                    }
                    assert forall|n: nat| n <= budget && #[trigger] m.halts_in(n) implies m.run(
                        budget,
                    ).0 == m.after(n) by {
                        assert(n > 0);
                        assert(m.after(((n - 1) + 1) as nat) == next.after((n - 1) as nat));
                        lemma_after_halted(next, (n - 1) as nat);
                    }
                    assert(!(m.after(0).step() matches Ok((x, StatusView::Running))));
                } else {
                    assert(!m.after(0).quiet());
                    assert forall|n: nat| n <= budget implies !#[trigger] m.halts_in(n) by {
                        if n > 0 {
                            assert(!m.after(0).quiet());
                        }
                    }
                    assert(!(m.after(0).step() matches Ok((x, StatusView::Running))));
                }
            },
        }
    }
}

/// Only data gets on the stack: where every value on the stack is data,
/// it is so after a step, and after the float unit has answered.
pub proof fn lemma_stack_holds_data(m: VmView, bits: u64)
    requires
        m.holds_data(),
    ensures
        m.step() matches Ok((next, _)) ==> next.holds_data(),
        m.resume(bits).holds_data(),
        VmView::new(m.program).holds_data(),
{
    if let Ok((next, _)) = m.step() {
        assert forall|i: int| 0 <= i < next.stack.len() implies #[trigger] next.stack[i] is Data by {
            let shift = m.stack.len() - next.stack.len();
            if 0 <= i + shift < m.stack.len() {
                assert(m.stack[i + shift] is Data);
            }
            if m.stack.len() > 0 {
                assert(m.stack[0] is Data);
            }
        }
    }
    let r = m.resume(bits);
    assert forall|i: int| 0 <= i < r.stack.len() implies #[trigger] r.stack[i] is Data by {
        if i >= 1 {
            assert(m.stack[i - 1] is Data);
        }
    }
}

/// The base frame outlives every step: a frame is always alive, the
/// outermost one keeps its return address, and a new machine has that frame
/// alone, with return address 0.
pub proof fn lemma_base_frame_stays(m: VmView)
    ensures
        m.frames().len() >= 1,
        m.step() matches Ok((next, _)) ==> next.frames().last().return_address
            == m.frames().last().return_address,
        VmView::new(m.program).frames() == seq![FrameView::new(0)],
{
    if let Ok((next, _)) = m.step() {
        if m.callers.len() == 0 {
            assert(m.frames().last() == m.frame);
            if next.callers.len() > 0 {
                assert(next.callers =~= seq![m.frame]);
                assert(next.frames().last() == m.frame);
            }
        } else {
            assert(m.frames().last() == m.callers.last());
            if next.callers.len() > 0 {
                assert(next.callers.last() == m.callers.last());
            } else {
                assert(m.callers.len() == 1);
                assert(next.frame == m.callers[0]);
            }
        }
    }
    assert(VmView::new(m.program).frames() =~= seq![FrameView::new(0)]);
}

} // verus!
