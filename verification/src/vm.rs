//! The execution engine: an instruction pointer, an operand stack and a
//! stack of call frames, driven one instruction at a time.
//!
//! The engine does no input or output and no float arithmetic. Where an
//! instruction asks for either, the step says so in its [`Status`], and
//! whoever drives the engine does the work: it writes the value, or it
//! computes the float and hands it back through [`Vm::resume`].

use std::collections::VecDeque;
use vstd::prelude::*;
use crate::error::VmError;
use crate::frame::{Frame, FrameView};
use crate::token::{bool_spec, data_spec, Token, TokenView};
use crate::token::instruction::Instruction;
use crate::token::operand::{
    arith_spec, equal_spec, ge_spec, gt_spec, index_spec, logic_spec, FloatRequest, Operand,
    OperandView, Outcome, OutcomeView,
};

verus! {

/// What a step leaves for the driver of the engine to do.
#[derive(Debug)]
pub enum Status {
    /// Nothing: the next instruction can be executed.
    Running,
    /// Nothing: the machine has halted.
    Halted,
    /// The value is to be written to the output.
    Write(Token),
    /// The float operation is to be computed and its result handed to
    /// [`Vm::resume`]; until then the machine does not go on.
    Float(FloatRequest),
}

/// The mathematical value of a [`Status`].
pub enum StatusView {
    Running,
    Halted,
    Write(TokenView),
    Float(FloatRequest),
}

impl View for Status {
    type V = StatusView;

    open spec fn view(&self) -> StatusView {
        match *self {
            Status::Running => StatusView::Running,
            Status::Halted => StatusView::Halted,
            Status::Write(t) => StatusView::Write(t@),
            Status::Float(q) => StatusView::Float(q),
        }
    }
}

/// The values of a sequence of tokens.
pub open spec fn views(tokens: Seq<Token>) -> Seq<TokenView> {
    tokens.map_values(|t: Token| t@)
}

/// The values of a sequence of frames.
pub open spec fn frame_views(frames: Seq<Frame>) -> Seq<FrameView> {
    frames.map_values(|f: Frame| f@)
}

/// The rule of the nine opcodes that take two operands and leave one. The
/// operand that was pushed first is `l`.
pub open spec fn binary_spec(op: Instruction, l: OperandView, r: OperandView) -> Result<
    OutcomeView,
    VmError,
>
    recommends
        op.is_binary(),
{
    match op {
        Instruction::And | Instruction::Or => match logic_spec(op, l, r) {
            Ok(v) => Ok(OutcomeView::Ready(v)),
            Err(e) => Err(e),
        },
        Instruction::Iseq => Ok(OutcomeView::Ready(OperandView::Bool(equal_spec(l, r)))),
        Instruction::Isgt => match gt_spec(l, r) {
            Ok(b) => Ok(OutcomeView::Ready(OperandView::Bool(b))),
            Err(e) => Err(e),
        },
        Instruction::Isge => match ge_spec(l, r) {
            Ok(b) => Ok(OutcomeView::Ready(OperandView::Bool(b))),
            Err(e) => Err(e),
        },
        _ => arith_spec(op, l, r),
    }
}

/// The text that an operand holds, as the name of a variable.
pub open spec fn name_spec(d: OperandView) -> Result<Seq<char>, VmError> {
    match d {
        OperandView::Str(s) => Ok(s),
        _ => Err(VmError::TypeMismatch),
    }
}

/// The state of the machine.
pub struct VmView {
    /// Whether a `Halt` was executed.
    pub halted: bool,
    /// The index of the next token to fetch.
    pub ip: int,
    /// The operand stack, top first.
    pub stack: Seq<TokenView>,
    /// The program.
    pub program: Seq<TokenView>,
    /// The frame of the call that is being executed.
    pub frame: FrameView,
    /// The frames of the calls that wait for it, innermost first. The last
    /// of `frame` and `callers` is the base frame.
    pub callers: Seq<FrameView>,
    /// The float operation whose result the machine waits for.
    pub pending: Option<FloatRequest>,
}

impl VmView {
    /// The machine before the first step of `program`.
    pub open spec fn new(program: Seq<TokenView>) -> VmView {
        VmView {
            halted: false,
            ip: 0,
            stack: Seq::empty(),
            program,
            frame: FrameView::new(0),
            callers: Seq::empty(),
            pending: None,
        }
    }

    /// All live frames, innermost first.
    pub open spec fn frames(self) -> Seq<FrameView> {
        seq![self.frame] + self.callers
    }

    /// Whether every value on the stack is data.
    pub open spec fn holds_data(self) -> bool {
        forall|i: int| 0 <= i < self.stack.len() ==> #[trigger] self.stack[i] is Data
    }

    /// The token at `at`.
    pub open spec fn fetch(self, at: int) -> Result<TokenView, VmError> {
        if 0 <= at < self.program.len() {
            Ok(self.program[at])
        } else {
            Err(VmError::ProgramOutOfBounds)
        }
    }

    /// The operand at the instruction pointer.
    pub open spec fn immediate(self) -> Result<OperandView, VmError> {
        match self.fetch(self.ip) {
            Ok(t) => data_spec(t),
            Err(e) => Err(e),
        }
    }

    /// The instruction pointer one token further on.
    pub open spec fn past(self) -> int {
        self.ip + 1
    }

    /// The machine with the instruction pointer one token further on.
    pub open spec fn advanced(self) -> VmView {
        VmView { ip: self.past(), ..self }
    }

    /// The machine with `n` values taken from the stack, `top` put on it,
    /// and the instruction pointer at `ip`.
    pub open spec fn moved(self, n: int, top: Seq<TokenView>, ip: int) -> VmView {
        VmView { ip, stack: top + self.stack.skip(n), ..self }
    }

    /// One instruction: the machine after it, and what it leaves the driver
    /// to do. `Err` leaves the machine as it is. A machine that has halted,
    /// or that waits for a float, stays as it is.
    pub open spec fn step(self) -> Result<(VmView, StatusView), VmError> {
        if self.halted {
            Ok((self, StatusView::Halted))
        } else if let Some(q) = self.pending {
            Ok((self, StatusView::Float(q)))
        } else {
            match self.fetch(self.ip) {
                Err(e) => Err(e),
                Ok(TokenView::Data(_)) => Err(VmError::InvalidProgramShape),
                Ok(TokenView::Instruction(op)) => self.advanced().execute(op),
            }
        }
    }

    /// The effect of the opcode `op` on a machine that has just fetched it:
    /// the instruction pointer is at the token after the opcode, which is
    /// the immediate of an opcode that has one.
    pub open spec fn execute(self, op: Instruction) -> Result<(VmView, StatusView), VmError> {
        match op {
            Instruction::Halt => Ok((VmView { halted: true, ..self }, StatusView::Halted)),
            Instruction::Push => match self.immediate() {
                Err(e) => Err(e),
                Ok(d) => Ok(
                    (self.moved(0, seq![TokenView::Data(d)], self.past()), StatusView::Running),
                ),
            },
            Instruction::Pop => if self.stack.len() < 1 {
                Err(VmError::StackUnderflow)
            } else {
                Ok((self.moved(1, seq![], self.ip), StatusView::Running))
            },
            Instruction::Dup => if self.stack.len() < 1 {
                Err(VmError::StackUnderflow)
            } else {
                Ok((self.moved(0, seq![self.stack[0]], self.ip), StatusView::Running))
            },
            Instruction::Not => if self.stack.len() < 1 {
                Err(VmError::StackUnderflow)
            } else {
                match bool_spec(self.stack[0]) {
                    Err(e) => Err(e),
                    Ok(b) => Ok(
                        (
                            self.moved(1, seq![TokenView::Data(OperandView::Bool(!b))], self.ip),
                            StatusView::Running,
                        ),
                    ),
                }
            },
            Instruction::Jmp => match self.immediate() {
                Err(e) => Err(e),
                Ok(d) => match index_spec(d) {
                    Err(e) => Err(e),
                    Ok(target) => Ok((self.moved(0, seq![], target as int), StatusView::Running)),
                },
            },
            Instruction::Jif => if self.stack.len() < 1 {
                Err(VmError::StackUnderflow)
            } else {
                match self.immediate() {
                    Err(e) => Err(e),
                    Ok(d) => match bool_spec(self.stack[0]) {
                        Err(e) => Err(e),
                        Ok(false) => Ok((self.moved(1, seq![], self.past()), StatusView::Running)),
                        Ok(true) => match index_spec(d) {
                            Err(e) => Err(e),
                            Ok(target) => Ok((self.moved(1, seq![], target as int), StatusView::Running)),
                        },
                    },
                }
            },
            Instruction::Load => match self.immediate() {
                Err(e) => Err(e),
                Ok(d) => match name_spec(d) {
                    Err(e) => Err(e),
                    Ok(var) => Ok(
                        (
                            self.moved(0, seq![TokenView::Data(self.frame.get(var))], self.past()),
                            StatusView::Running,
                        ),
                    ),
                },
            },
            Instruction::Store => if self.stack.len() < 1 {
                Err(VmError::StackUnderflow)
            } else {
                match self.immediate() {
                    Err(e) => Err(e),
                    Ok(d) => match data_spec(self.stack[0]) {
                        Err(e) => Err(e),
                        Ok(val) => match name_spec(d) {
                            Err(e) => Err(e),
                            Ok(var) => Ok(
                                (
                                    VmView {
                                        frame: self.frame.set(var, val),
                                        ..self.moved(1, seq![], self.past())
                                    },
                                    StatusView::Running,
                                ),
                            ),
                        },
                    },
                }
            },
            Instruction::Call => match self.immediate() {
                Err(e) => Err(e),
                Ok(OperandView::Int(address)) => if 0 < address < self.program.len() {
                    Ok(
                        (
                            VmView {
                                ip: address as int,
                                frame: FrameView::new(self.past()),
                                callers: seq![self.frame] + self.callers,
                                ..self
                            },
                            StatusView::Running,
                        ),
                    )
                } else {
                    Err(VmError::InvalidCallTarget)
                },
                Ok(_) => Err(VmError::InvalidCallTarget),
            },
            Instruction::Ret => if self.callers.len() < 1 {
                Err(VmError::ReturnFromBaseFrame)
            } else {
                Ok(
                    (
                        VmView {
                            ip: self.frame.return_address,
                            frame: self.callers[0],
                            callers: self.callers.skip(1),
                            ..self
                        },
                        StatusView::Running,
                    ),
                )
            },
            Instruction::Write => if self.stack.len() < 1 {
                Err(VmError::StackUnderflow)
            } else {
                Ok((self, StatusView::Write(self.stack[0])))
            },
            _ => if self.stack.len() < 2 {
                Err(VmError::StackUnderflow)
            } else {
                match data_spec(self.stack[0]) {
                    Err(e) => Err(e),
                    Ok(r) => match data_spec(self.stack[1]) {
                        Err(e) => Err(e),
                        Ok(l) => match binary_spec(op, l, r) {
                            Err(e) => Err(e),
                            Ok(OutcomeView::Ready(v)) => Ok(
                                (
                                    self.moved(2, seq![TokenView::Data(v)], self.ip),
                                    StatusView::Running,
                                ),
                            ),
                            Ok(OutcomeView::Deferred(q)) => Ok(
                                (
                                    VmView { pending: Some(q), ..self.moved(2, seq![], self.ip) },
                                    StatusView::Float(q),
                                ),
                            ),
                        },
                    },
                }
            },
        }
    }

    /// The machine after the float unit has answered: the float is on the
    /// stack and nothing is pending. A machine that waits for nothing stays
    /// as it is.
    pub open spec fn resume(self, bits: u64) -> VmView {
        if self.pending is Some {
            VmView {
                pending: None,
                ..self.moved(0, seq![TokenView::Data(OperandView::Float(bits))], self.ip)
            }
        } else {
            self
        }
    }

    /// Whether the next step goes through and leaves the driver nothing to
    /// do.
    pub open spec fn quiet(self) -> bool {
        match self.step() {
            Ok((_, StatusView::Running)) => true,
            Ok((_, StatusView::Halted)) => true,
            _ => false,
        }
    }

    /// The machine after `n` steps. A step that fails leaves it where it is.
    pub open spec fn after(self, n: nat) -> VmView
        decreases n,
    {
        if n == 0 {
            self
        } else {
            match self.step() {
                Ok((next, _)) => next.after((n - 1) as nat),
                Err(_) => self,
            }
        }
    }

    /// Whether the machine has halted after `n` steps, each of them quiet.
    pub open spec fn halts_in(self, n: nat) -> bool {
        self.after(n).halted && forall|j: nat| j < n ==> #[trigger] self.after(j).quiet()
    }

    /// Whether the first `n` steps all go through, leave the driver nothing
    /// to do and do not halt the machine.
    pub open spec fn runs_for(self, n: nat) -> bool {
        forall|j: nat| j < n ==> (#[trigger] self.after(j).step() matches Ok((next, StatusView::Running)))
    }

    /// Up to `budget` instructions: the machine where it stops, and why. It
    /// stops when it has halted, when a step fails, when a step leaves the
    /// driver something to do, and when the budget is used up, which it
    /// reports as `Running`.
    pub open spec fn run(self, budget: nat) -> (VmView, Result<StatusView, VmError>)
        decreases budget,
    {
        if self.halted {
            (self, Ok(StatusView::Halted))
        } else if budget == 0 {
            (self, Ok(StatusView::Running))
        } else {
            match self.step() {
                Err(e) => (self, Err(e)),
                Ok((next, StatusView::Running)) => next.run((budget - 1) as nat),
                Ok((next, status)) => (next, Ok(status)),
            }
        }
    }
}

/// Whether `after` and `r` are what executing `op` on `before` comes to.
/// Where it fails, only the instruction pointer may have moved.
spec fn executed(before: VmView, op: Instruction, after: VmView, r: Result<Status, VmError>) -> bool {
    match r {
        Ok(s) => before.execute(op) == Ok::<(VmView, StatusView), VmError>((after, s@)),
        Err(e) => before.execute(op) == Err::<(VmView, StatusView), VmError>(e) && after == (
            VmView { ip: after.ip, ..before }
        ),
    }
}

/// The engine.
#[derive(Debug)]
pub struct Vm {
    halted: bool,
    ip: usize,
    stack: VecDeque<Token>,
    program: Vec<Token>,
    current: Frame,
    callers: VecDeque<Frame>,
    pending: Option<FloatRequest>,
}

impl View for Vm {
    type V = VmView;

    closed spec fn view(&self) -> VmView {
        VmView {
            halted: self.halted,
            ip: self.ip as int,
            stack: views(self.stack@),
            program: views(self.program@),
            frame: self.current@,
            callers: frame_views(self.callers@),
            pending: self.pending,
        }
    }
}

impl Vm {
    /// A machine that is about to execute the first token of `program`,
    /// with an empty stack and the base frame alone.
    pub fn new(program: Vec<Token>) -> (vm: Vm)
        ensures
            vm@ == VmView::new(views(program@)),
    {
        let vm = Vm {
            halted: false,
            ip: 0,
            stack: VecDeque::new(),
            program,
            current: Frame::default(),
            callers: VecDeque::new(),
            pending: None,
        };
        assert(vm@.stack =~= Seq::<TokenView>::empty());
        assert(vm@.callers =~= Seq::<FrameView>::empty());
        vm
    }

    /// Whether the machine has halted.
    pub fn halted(&self) -> (h: bool)
        ensures
            h == self@.halted,
    {
        self.halted
    }

    /// The index of the next token to fetch.
    pub fn ip(&self) -> (ip: usize)
        ensures
            ip == self@.ip,
    {
        self.ip
    }

    /// The operand stack, top first.
    pub fn stack(&self) -> (s: &VecDeque<Token>)
        ensures
            views(s@) == self@.stack,
    {
        &self.stack
    }

    /// The program.
    pub fn program(&self) -> (p: &Vec<Token>)
        ensures
            views(p@) == self@.program,
    {
        &self.program
    }

    /// The frame of the call that is being executed.
    pub fn current_frame(&self) -> (f: &Frame)
        ensures
            f@ == self@.frame,
    {
        &self.current
    }

    /// The number of calls that have not returned: the live frames without
    /// the base frame.
    pub fn depth(&self) -> (n: usize)
        ensures
            n == self@.frames().len() - 1,
    {
        self.callers.len()
    }

    /// The float operation whose result the machine waits for.
    pub fn pending(&self) -> (q: Option<FloatRequest>)
        ensures
            q == self@.pending,
    {
        self.pending
    }

    /// Fetches the token at the instruction pointer and moves the pointer
    /// past it. At or past the end of the program nothing moves.
    fn next(&mut self) -> (r: Result<Token, VmError>)
        ensures
            match r {
                Ok(t) => old(self)@.fetch(old(self)@.ip) == Ok::<TokenView, VmError>(t@)
                    && final(self)@ == old(self)@.advanced(),
                Err(e) => old(self)@.fetch(old(self)@.ip) == Err::<TokenView, VmError>(e)
                    && final(self)@ == old(self)@,
            },
    {
        if self.ip >= self.program.len() {
            return Err(VmError::ProgramOutOfBounds);
        }
        let v = self.program[self.ip].clone();
        self.ip = self.ip + 1;
        Ok(v)
    }

    /// Fetches the operand at the instruction pointer and moves the pointer
    /// past it. Where there is none, nothing moves.
    fn operand(&mut self) -> (r: Result<Operand, VmError>)
        ensures
            match r {
                Ok(d) => old(self)@.immediate() == Ok::<OperandView, VmError>(d@) && final(self)@
                    == old(self)@.advanced(),
                Err(e) => old(self)@.immediate() == Err::<OperandView, VmError>(e) && final(self)@
                    == old(self)@,
            },
    {
        if self.ip >= self.program.len() {
            return Err(VmError::ProgramOutOfBounds);
        }
        match self.program[self.ip].get_data() {
            Err(e) => Err(e),
            Ok(d) => {
                let d = d.clone();
                self.ip = self.ip + 1;
                Ok(d)
            },
        }
    }

    /// Applies a binary opcode to its operands, the left one first.
    fn execute_binary(i: Instruction, d1: &Operand, d2: &Operand) -> (r: Result<Outcome, VmError>)
        requires
            i.is_binary(),
        ensures
            match r {
                Ok(o) => binary_spec(i, d1@, d2@) == Ok::<OutcomeView, VmError>(o@),
                Err(e) => binary_spec(i, d1@, d2@) == Err::<OutcomeView, VmError>(e),
            },
    {
        match i {
            Instruction::Add => d1.add(d2),
            Instruction::Sub => d1.sub(d2),
            Instruction::Mul => d1.mul(d2),
            Instruction::Div => d1.div(d2),
            Instruction::And => match d1.bitand(d2) {
                Ok(v) => Ok(Outcome::Ready(v)),
                Err(e) => Err(e),
            },
            Instruction::Or => match d1.bitor(d2) {
                Ok(v) => Ok(Outcome::Ready(v)),
                Err(e) => Err(e),
            },
            Instruction::Isgt => match d1.gt(d2) {
                Ok(b) => Ok(Outcome::Ready(Operand::from(b))),
                Err(e) => Err(e),
            },
            Instruction::Isge => match d1.ge(d2) {
                Ok(b) => Ok(Outcome::Ready(Operand::from(b))),
                Err(e) => Err(e),
            },
            _ => Ok(Outcome::Ready(Operand::from(*d1 == *d2))),
        }
    }

    /// Takes the top of the stack off.
    fn pop(&mut self)
        requires
            old(self)@.stack.len() >= 1,
        ensures
            final(self)@ == old(self)@.moved(1, seq![], old(self)@.ip),
    {
        let _ = self.stack.pop_front();
        assert(self@.stack =~= seq![] + old(self)@.stack.skip(1));
    }

    /// Puts `d` on the stack.
    fn push(&mut self, d: Operand)
        ensures
            final(self)@ == old(self)@.moved(0, seq![TokenView::Data(d@)], old(self)@.ip),
    {
        self.stack.push_front(Token::data(d));
        assert(self@.stack =~= seq![TokenView::Data(d@)] + old(self)@.stack.skip(0));
    }

    /// Executes `Pop`: takes the top of the stack off.
    fn op_pop(&mut self) -> (r: Result<Status, VmError>)
        ensures
            executed(old(self)@, Instruction::Pop, final(self)@, r),
    {
        if self.stack.len() < 1 {
            return Err(VmError::StackUnderflow);
        }
        self.pop();
        Ok(Status::Running)
    }

    /// Executes `Push`: puts the immediate on the stack.
    fn op_push(&mut self) -> (r: Result<Status, VmError>)
        ensures
            executed(old(self)@, Instruction::Push, final(self)@, r),
    {
        match self.operand() {
            Err(e) => Err(e),
            Ok(d) => {
                self.push(d);
                Ok(Status::Running)
            },
        }
    }

    /// Executes `Dup`: puts a copy of the top of the stack on it.
    fn op_dup(&mut self) -> (r: Result<Status, VmError>)
        ensures
            executed(old(self)@, Instruction::Dup, final(self)@, r),
    {
        if self.stack.len() < 1 {
            return Err(VmError::StackUnderflow);
        }
        let v = self.stack[0].clone();
        self.stack.push_front(v);
        assert(self@.stack =~= seq![old(self)@.stack[0]] + old(self)@.stack.skip(0));
        Ok(Status::Running)
    }

    /// Executes `Not`: puts the negation of the boolean on top in its place.
    fn op_not(&mut self) -> (r: Result<Status, VmError>)
        ensures
            executed(old(self)@, Instruction::Not, final(self)@, r),
    {
        if self.stack.len() < 1 {
            return Err(VmError::StackUnderflow);
        }
        match self.stack[0].to_bool() {
            Err(e) => Err(e),
            Ok(b) => {
                self.pop();
                self.push(Operand::from(!b));
                assert(self@.stack =~= seq![TokenView::Data(OperandView::Bool(!b))] + old(
                    self,
                )@.stack.skip(1));
                Ok(Status::Running)
            },
        }
    }

    /// Executes `Jmp`: goes on at the index that the immediate names.
    fn op_jmp(&mut self) -> (r: Result<Status, VmError>)
        ensures
            executed(old(self)@, Instruction::Jmp, final(self)@, r),
    {
        match self.operand() {
            Err(e) => Err(e),
            Ok(d) => match d.to_index() {
                Err(e) => Err(e),
                Ok(target) => {
                    self.ip = target;
                    assert(self@.stack =~= seq![] + old(self)@.stack.skip(0));
                    Ok(Status::Running)
                },
            },
        }
    }

    /// Executes `Jif`: takes the condition off the stack, and goes on at the
    /// index that the immediate names where the condition is true.
    fn op_jif(&mut self) -> (r: Result<Status, VmError>)
        ensures
            executed(old(self)@, Instruction::Jif, final(self)@, r),
    {
        if self.stack.len() < 1 {
            return Err(VmError::StackUnderflow);
        }
        let d = match self.operand() {
            Err(e) => {
                return Err(e);
            },
            Ok(d) => d,
        };
        assert(self.stack@.len() == self@.stack.len());
        match self.stack[0].to_bool() {
            Err(e) => Err(e),
            Ok(false) => {
                self.pop();
                Ok(Status::Running)
            },
            Ok(true) => match d.to_index() {
                Err(e) => Err(e),
                Ok(target) => {
                    self.ip = target;
                    self.pop();
                    Ok(Status::Running)
                },
            },
        }
    }

    /// Executes `Load`: puts the value of the variable that the immediate
    /// names on the stack.
    fn op_load(&mut self) -> (r: Result<Status, VmError>)
        ensures
            executed(old(self)@, Instruction::Load, final(self)@, r),
    {
        match self.operand() {
            Err(e) => Err(e),
            Ok(d) => match d.into_text() {
                Err(e) => Err(e),
                Ok(var) => {
                    let v = self.current.get(var);
                    self.push(v);
                    Ok(Status::Running)
                },
            },
        }
    }

    /// Executes `Store`: takes the top of the stack off and stores it in the
    /// variable that the immediate names.
    fn op_store(&mut self) -> (r: Result<Status, VmError>)
        ensures
            executed(old(self)@, Instruction::Store, final(self)@, r),
    {
        if self.stack.len() < 1 {
            return Err(VmError::StackUnderflow);
        }
        let d = match self.operand() {
            Err(e) => {
                return Err(e);
            },
            Ok(d) => d,
        };
        assert(self.stack@.len() == self@.stack.len());
        let val = match self.stack[0].get_data() {
            Err(e) => {
                return Err(e);
            },
            Ok(v) => v.clone(),
        };
        match d.into_text() {
            Err(e) => Err(e),
            Ok(var) => {
                self.pop();
                self.current.set(var, val);
                Ok(Status::Running)
            },
        }
    }

    /// Executes `Call`: enters a new frame that returns to the token after
    /// the immediate, and goes on at the address that the immediate names.
    fn op_call(&mut self) -> (r: Result<Status, VmError>)
        ensures
            executed(old(self)@, Instruction::Call, final(self)@, r),
    {
        match self.operand() {
            Err(e) => Err(e),
            Ok(Operand::Int(address)) => {
                if address <= 0 || address as u64 >= self.program.len() as u64 {
                    return Err(VmError::InvalidCallTarget);
                }
                let mut frame = Frame::new(self.ip);
                core::mem::swap(&mut self.current, &mut frame);
                self.callers.push_front(frame);
                self.ip = address as usize;
                assert(self@.callers =~= seq![old(self)@.frame] + old(self)@.callers);
                Ok(Status::Running)
            },
            Ok(_) => Err(VmError::InvalidCallTarget),
        }
    }

    /// Executes `Ret`: drops the current frame and goes on at its return
    /// address.
    fn op_ret(&mut self) -> (r: Result<Status, VmError>)
        ensures
            executed(old(self)@, Instruction::Ret, final(self)@, r),
    {
        match self.callers.pop_front() {
            None => Err(VmError::ReturnFromBaseFrame),
            Some(frame) => {
                self.ip = self.current.return_address();
                self.current = frame;
                assert(self@.callers =~= old(self)@.callers.skip(1));
                Ok(Status::Running)
            },
        }
    }

    /// Executes `Write`: hands out the top of the stack, which stays there.
    fn op_write(&self) -> (r: Result<Status, VmError>)
        ensures
            executed(self@, Instruction::Write, self@, r),
    {
        if self.stack.len() < 1 {
            return Err(VmError::StackUnderflow);
        }
        Ok(Status::Write(self.stack[0].clone()))
    }

    /// Executes a binary opcode: takes the right operand and then the left
    /// one off the stack, and puts the result on it or leaves it to the
    /// float unit.
    fn op_binary(&mut self, op: Instruction) -> (r: Result<Status, VmError>)
        requires
            op.is_binary(),
        ensures
            executed(old(self)@, op, final(self)@, r),
    {
        if self.stack.len() < 2 {
            return Err(VmError::StackUnderflow);
        }
        let d2 = match self.stack[0].get_data() {
            Err(e) => {
                return Err(e);
            },
            Ok(d) => d,
        };
        let d1 = match self.stack[1].get_data() {
            Err(e) => {
                return Err(e);
            },
            Ok(d) => d,
        };
        match Vm::execute_binary(op, d1, d2) {
            Err(e) => Err(e),
            Ok(Outcome::Ready(v)) => {
                self.pop();
                self.pop();
                self.push(v);
                assert(self@.stack =~= seq![TokenView::Data(v@)] + old(self)@.stack.skip(2));
                Ok(Status::Running)
            },
            Ok(Outcome::Deferred(q)) => {
                self.pop();
                self.pop();
                self.pending = Some(q);
                assert(self@.stack =~= seq![] + old(self)@.stack.skip(2));
                Ok(Status::Float(q))
            },
        }
    }

    /// Fetches the opcode at the instruction pointer and executes it. Where
    /// that fails, only the instruction pointer may have moved.
    fn execute(&mut self) -> (r: Result<Status, VmError>)
        requires
            !old(self)@.halted,
            old(self)@.pending is None,
        ensures
            match r {
                Ok(s) => old(self)@.step() == Ok::<(VmView, StatusView), VmError>(
                    (final(self)@, s@),
                ),
                Err(e) => old(self)@.step() == Err::<(VmView, StatusView), VmError>(e)
                    && final(self)@ == (VmView { ip: final(self)@.ip, ..old(self)@ }),
            },
    {
        let op = match self.next() {
            Err(e) => {
                return Err(e);
            },
            Ok(Token::Data(_)) => {
                return Err(VmError::InvalidProgramShape);
            },
            Ok(Token::Instruction(i)) => i,
        };
        match op {
            Instruction::Halt => {
                self.halted = true;
                Ok(Status::Halted)
            },
            Instruction::Pop => self.op_pop(),
            Instruction::Push => self.op_push(),
            Instruction::Dup => self.op_dup(),
            Instruction::Jmp => self.op_jmp(),
            Instruction::Jif => self.op_jif(),
            Instruction::Not => self.op_not(),
            Instruction::Load => self.op_load(),
            Instruction::Store => self.op_store(),
            Instruction::Call => self.op_call(),
            Instruction::Ret => self.op_ret(),
            Instruction::Write => self.op_write(),
            Instruction::Add
            | Instruction::Div
            | Instruction::Mul
            | Instruction::Sub
            | Instruction::And
            | Instruction::Or
            | Instruction::Iseq
            | Instruction::Isge
            | Instruction::Isgt => self.op_binary(op),
        }
    }

    /// Executes one instruction, and says what is left for the driver to do.
    /// A machine that has halted, or that waits for a float, stays as it is
    /// and says so again. A step that fails changes nothing.
    pub fn step(&mut self) -> (r: Result<Status, VmError>)
        ensures
            match r {
                Ok(s) => old(self)@.step() == Ok::<(VmView, StatusView), VmError>(
                    (final(self)@, s@),
                ),
                Err(e) => old(self)@.step() == Err::<(VmView, StatusView), VmError>(e)
                    && final(self)@ == old(self)@,
            },
    {
        if self.halted {
            return Ok(Status::Halted);
        }
        if let Some(q) = self.pending {
            return Ok(Status::Float(q));
        }
        let start = self.ip;
        let r = self.execute();
        if r.is_err() {
            self.ip = start;
        }
        r
    }

    /// Hands the machine the result of the float operation that it waits
    /// for, as a bit pattern, and puts it on the stack. Returns whether the
    /// machine was waiting; one that was not stays as it is.
    pub fn resume(&mut self, bits: u64) -> (accepted: bool)
        ensures
            accepted == old(self)@.pending is Some,
            final(self)@ == old(self)@.resume(bits),
    {
        if self.pending.is_none() {
            return false;
        }
        self.pending = None;
        self.push(Operand::Float(bits));
        true
    }

    /// Executes instructions until the machine halts, a step fails or
    /// leaves the driver something to do, or `budget` instructions have been
    /// executed. `Ok(Status::Running)` says that the budget was used up.
    pub fn run(&mut self, budget: usize) -> (r: Result<Status, VmError>)
        ensures
            final(self)@ == old(self)@.run(budget as nat).0,
            match r {
                Ok(s) => old(self)@.run(budget as nat).1 == Ok::<StatusView, VmError>(s@),
                Err(e) => old(self)@.run(budget as nat).1 == Err::<StatusView, VmError>(e),
            },
    {
        let mut left = budget;
        while left > 0
            invariant
                self@.run(left as nat) == old(self)@.run(budget as nat),
            decreases left,
        {
            match self.step() {
                Err(e) => {
                    return Err(e);
                },
                Ok(Status::Running) => {
                    left = left - 1;
                },
                Ok(status) => {
                    return Ok(status);
                },
            }
        }
        if self.halted {
            Ok(Status::Halted)
        } else {
            Ok(Status::Running)
        }
    }
}

} // verus!
