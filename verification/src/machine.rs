//! The state that the control-flow instructions work on: operands, a stack of
//! frames with their local variables, and the address of the instruction that
//! executes.
//!
//! Every frame owns the operands that were pushed while it was the innermost
//! frame, so the operand stack as a whole is the operands outside of all
//! frames, then those of each frame from the outermost to the innermost.

use crate::fault::Fault;
use crate::opcode::Opcode;
use crate::operand::{f32_accepted, f64_accepted, load_f32, load_f64};
use vstd::pervasive::unreached;
use vstd::prelude::*;

verus! {

/// The length in bytes of the instructions `block` and `block_nez`.
pub const BLOCK_LENGTH: usize = 12;

/// The length in bytes of the instruction `block_alt`.
pub const BLOCK_ALT_LENGTH: usize = 16;

/// The length in bytes of the instruction `end`.
pub const END_LENGTH: i32 = 2;

/// What created a frame.
#[derive(Debug, PartialEq, Eq, Structural, Clone, Copy)]
pub enum FrameKind {
    /// The entry into a function.
    Function,
    /// One of the block instructions.
    Block,
}

/// A frame as contracts speak of it.
pub struct FrameState {
    pub kind: FrameKind,
    /// The number of operands that the frame takes in when it is entered, and
    /// again when it starts over.
    pub parameter_count: nat,
    /// The number of operands that the frame hands out when it is left.
    pub result_count: nat,
    /// The slots of the local variables: the arguments first, then the
    /// declared local variables.
    pub locals: Seq<u64>,
    /// The operands pushed while the frame was the innermost, the last one
    /// pushed last.
    pub operands: Seq<u64>,
}

/// A machine as contracts speak of it.
pub struct MachineState {
    /// The operands outside of all frames.
    pub outer: Seq<u64>,
    /// The frames, the innermost last.
    pub frames: Seq<FrameState>,
    /// The address of the instruction that executes.
    pub address: nat,
}

/// `count` operands that are zero.
pub open spec fn zeros(count: nat) -> Seq<u64> {
    Seq::new(count, |i: int| 0u64)
}

/// The address `offset` bytes after `address`, if it is one.
pub open spec fn address_after(address: nat, offset: i32) -> Option<nat> {
    if 0 <= offset && address + offset <= usize::MAX {
        Some((address + offset) as nat)
    } else {
        None
    }
}

/// The address `offset` bytes before `address`, if it is one.
pub open spec fn address_before(address: nat, offset: i32) -> Option<nat> {
    if 0 <= offset <= address {
        Some((address - offset) as nat)
    } else {
        None
    }
}

impl MachineState {
    /// The operands that instructions can reach: those of the innermost
    /// frame, or those outside of all frames where there is no frame.
    pub open spec fn operands(self) -> Seq<u64> {
        if self.frames.len() == 0 {
            self.outer
        } else {
            self.frames.last().operands
        }
    }

    /// The machine with `operands` in place of the operands that
    /// instructions can reach.
    pub open spec fn with_operands(self, operands: Seq<u64>) -> MachineState {
        if self.frames.len() == 0 {
            MachineState { outer: operands, ..self }
        } else {
            MachineState {
                frames: self.frames.drop_last().push(
                    FrameState { operands, ..self.frames.last() },
                ),
                ..self
            }
        }
    }

    /// The machine at another address.
    pub open spec fn at(self, address: nat) -> MachineState {
        MachineState { address, ..self }
    }

    /// The frame `layers` frames out from the innermost.
    pub open spec fn frame(self, layers: int) -> FrameState {
        self.frames[self.frames.len() - 1 - layers]
    }

    /// The last `count` of the operands that instructions can reach.
    pub open spec fn top(self, count: nat) -> Seq<u64> {
        self.operands().skip(self.operands().len() - count)
    }

    /// The machine without the last `count` of the operands that
    /// instructions can reach.
    pub open spec fn without_top(self, count: nat) -> MachineState {
        self.with_operands(self.operands().take(self.operands().len() - count))
    }

    /// The machine inside a new frame. The last `parameter_count` operands
    /// have moved into the first slots of the frame, in the order in which
    /// they were pushed. The other slots are zero, and the frame has no
    /// operands yet.
    pub open spec fn entered(
        self,
        kind: FrameKind,
        parameter_count: nat,
        result_count: nat,
        local_count: nat,
    ) -> MachineState {
        let outside = self.without_top(parameter_count);
        MachineState {
            frames: outside.frames.push(
                FrameState {
                    kind,
                    parameter_count,
                    result_count,
                    locals: self.top(parameter_count) + zeros(local_count),
                    operands: Seq::empty(),
                },
            ),
            ..outside
        }
    }

    /// The machine outside of the frame `layers` frames out. That frame and
    /// all frames inside it are gone with their operands, except for the last
    /// operands of the innermost frame, as many as the frame that is left
    /// hands out: they have moved behind the operands outside.
    pub open spec fn left(self, layers: nat) -> MachineState {
        let outside = MachineState {
            frames: self.frames.take(self.frames.len() - 1 - layers),
            ..self
        };
        outside.with_operands(outside.operands() + self.top(self.frame(layers as int).result_count))
    }

    /// The machine at the start of the frame `layers` frames out. The frames
    /// inside it are gone. The frame itself stays: the last operands of the
    /// innermost frame, as many as the frame takes in, stand in its first
    /// slots, its other slots are zero, and it has no operands.
    pub open spec fn restarted(self, layers: nat) -> MachineState {
        let target = self.frame(layers as int);
        let rest = if target.locals.len() >= target.parameter_count {
            (target.locals.len() - target.parameter_count) as nat
        } else {
            0
        };
        MachineState {
            frames: self.frames.take(self.frames.len() - 1 - layers).push(
                FrameState {
                    locals: self.top(target.parameter_count) + zeros(rest),
                    operands: Seq::empty(),
                    ..target
                },
            ),
            ..self
        }
    }

    /// What entering a frame does: a type violation where fewer operands can
    /// be reached than the frame takes in.
    pub open spec fn enter_step(
        self,
        kind: FrameKind,
        parameter_count: nat,
        result_count: nat,
        local_count: nat,
    ) -> Result<MachineState, Fault> {
        if parameter_count > self.operands().len() {
            Err(Fault::TypeViolation)
        } else {
            Ok(self.entered(kind, parameter_count, result_count, local_count))
        }
    }

    /// What `break` does: a control-flow violation where `layers` is
    /// negative or names no frame, or where `next_inst_offset` is negative or
    /// leads beyond all addresses; a type violation where fewer operands can
    /// be reached than the frame that is left hands out.
    pub open spec fn break_step(self, layers: i16, next_inst_offset: i32) -> Result<
        MachineState,
        Fault,
    > {
        if layers < 0 || layers >= self.frames.len() {
            Err(Fault::ControlFlowViolation)
        } else {
            match address_after(self.address, next_inst_offset) {
                None => Err(Fault::ControlFlowViolation),
                Some(address) => if self.frame(layers as int).result_count > self.operands().len() {
                    Err(Fault::TypeViolation)
                } else {
                    Ok(self.left(layers as nat).at(address))
                },
            }
        }
    }

    /// What `recur` does: a control-flow violation where `layers` is
    /// negative or names no frame, or where `start_inst_offset` is negative
    /// or leads before the first address; a type violation where fewer
    /// operands can be reached than the frame that starts over takes in.
    pub open spec fn recur_step(self, layers: i16, start_inst_offset: i32) -> Result<
        MachineState,
        Fault,
    > {
        if layers < 0 || layers >= self.frames.len() {
            Err(Fault::ControlFlowViolation)
        } else {
            match address_before(self.address, start_inst_offset) {
                None => Err(Fault::ControlFlowViolation),
                Some(address) => if self.frame(layers as int).parameter_count
                    > self.operands().len() {
                    Err(Fault::TypeViolation)
                } else {
                    Ok(self.restarted(layers as nat).at(address))
                },
            }
        }
    }

    /// What a block instruction does that enters its block: the frame is
    /// entered and the next instruction, `length` bytes on, executes.
    pub open spec fn block_step(
        self,
        parameter_count: nat,
        result_count: nat,
        local_count: nat,
        length: nat,
    ) -> Result<MachineState, Fault> {
        if self.address + length > usize::MAX {
            Err(Fault::ControlFlowViolation)
        } else {
            match self.enter_step(FrameKind::Block, parameter_count, result_count, local_count) {
                Err(fault) => Err(fault),
                Ok(inside) => Ok(inside.at(self.address + length)),
            }
        }
    }

    /// What a block instruction does that tests a condition: a type violation
    /// where no operand can be reached. Where the last operand is zero, it is
    /// gone, no frame is entered, and the instruction `next_inst_offset`
    /// bytes on executes. Otherwise it is gone and the block is entered.
    pub open spec fn branch_step(
        self,
        parameter_count: nat,
        result_count: nat,
        local_count: nat,
        next_inst_offset: i32,
        length: nat,
    ) -> Result<MachineState, Fault> {
        if self.operands().len() == 0 {
            Err(Fault::TypeViolation)
        } else if self.operands().last() == 0 {
            match address_after(self.address, next_inst_offset) {
                None => Err(Fault::ControlFlowViolation),
                Some(address) => Ok(self.without_top(1).at(address)),
            }
        } else {
            self.without_top(1).block_step(parameter_count, result_count, local_count, length)
        }
    }

    /// The local variable in slot `index` of the frame `layers` frames out:
    /// the frame depth is exceeded where `layers` is negative or names no
    /// frame, and the index is out of range where it is negative or the frame
    /// has no such slot.
    pub open spec fn local(self, layers: i16, index: i32) -> Result<u64, Fault> {
        if layers < 0 || layers >= self.frames.len() {
            Err(Fault::FrameDepthExceeded)
        } else if index < 0 || index >= self.frame(layers as int).locals.len() {
            Err(Fault::LocalIndexOutOfRange)
        } else {
            Ok(self.frame(layers as int).locals[index as int])
        }
    }

    /// What a load of a local variable does: the variable is pushed.
    pub open spec fn load_step(self, layers: i16, index: i32) -> Result<MachineState, Fault> {
        match self.local(layers, index) {
            Err(fault) => Err(fault),
            Ok(value) => Ok(self.with_operands(self.operands().push(value))),
        }
    }

    /// What a load of an `f64` local variable does: the variable is pushed
    /// if its bits are accepted.
    pub open spec fn load_f64_step(self, layers: i16, index: i32) -> Result<MachineState, Fault> {
        match self.local(layers, index) {
            Err(fault) => Err(fault),
            Ok(value) => if f64_accepted(value) {
                Ok(self.with_operands(self.operands().push(value)))
            } else {
                Err(Fault::FloatingPointInvalid)
            },
        }
    }

    /// What a load of an `f32` local variable does: the low half of the
    /// variable is pushed if its bits are accepted.
    pub open spec fn load_f32_step(self, layers: i16, index: i32) -> Result<MachineState, Fault> {
        match self.local(layers, index) {
            Err(fault) => Err(fault),
            Ok(value) => if f32_accepted((value % 0x1_0000_0000) as u32) {
                Ok(self.with_operands(self.operands().push(value % 0x1_0000_0000)))
            } else {
                Err(Fault::FloatingPointInvalid)
            },
        }
    }

    /// What a store to a local variable does: a type violation where no
    /// operand can be reached. Otherwise the last operand is gone and stands
    /// in the slot.
    pub open spec fn store_step(self, layers: i16, index: i32) -> Result<MachineState, Fault> {
        match self.local(layers, index) {
            Err(fault) => Err(fault),
            Ok(_) => if self.operands().len() == 0 {
                Err(Fault::TypeViolation)
            } else {
                Ok(
                    self.without_top(1).with_local(
                        layers as int,
                        index as int,
                        self.operands().last(),
                    ),
                )
            },
        }
    }

    /// The machine with `value` in slot `index` of the frame `layers` frames
    /// out.
    pub open spec fn with_local(self, layers: int, index: int, value: u64) -> MachineState {
        let at = self.frames.len() - 1 - layers;
        let frame = self.frames[at];
        MachineState {
            frames: self.frames.update(
                at,
                FrameState { locals: frame.locals.update(index, value), ..frame },
            ),
            ..self
        }
    }
}

/// Whether `result` and `after` are what a step from `before` leaves: the
/// next state and success, or the state untouched and the fault.
pub open spec fn stepped(
    before: MachineState,
    step: Result<MachineState, Fault>,
    after: MachineState,
    result: Result<(), Fault>,
) -> bool {
    match step {
        Ok(next) => result is Ok && after == next,
        Err(fault) => result == Err::<(), Fault>(fault) && after == before,
    }
}

/// A frame of a running machine.
pub struct Frame {
    kind: FrameKind,
    parameter_count: usize,
    result_count: usize,
    locals: Vec<u64>,
    operands: Vec<u64>,
}

/// A running machine.
pub struct Machine {
    outer: Vec<u64>,
    frames: Vec<Frame>,
    address: usize,
}

impl View for Frame {
    type V = FrameState;

    closed spec fn view(&self) -> FrameState {
        FrameState {
            kind: self.kind,
            parameter_count: self.parameter_count as nat,
            result_count: self.result_count as nat,
            locals: self.locals@,
            operands: self.operands@,
        }
    }
}

impl View for Machine {
    type V = MachineState;

    closed spec fn view(&self) -> MachineState {
        MachineState {
            outer: self.outer@,
            frames: Seq::new(self.frames@.len(), |i: int| self.frames@[i]@),
            address: self.address as nat,
        }
    }
}

impl Machine {
    /// A machine without operands and frames, at address 0.
    pub fn new() -> (machine: Machine)
        ensures
            machine@ == (MachineState { outer: Seq::empty(), frames: Seq::empty(), address: 0 }),
    {
        let machine = Machine { outer: Vec::new(), frames: Vec::new(), address: 0 };
        assert(machine@.frames =~= Seq::empty());
        machine
    }

    /// The address of the instruction that executes.
    pub fn address(&self) -> (address: usize)
        ensures
            address == self@.address,
    {
        self.address
    }

    /// The number of frames.
    pub fn depth(&self) -> (depth: usize)
        ensures
            depth == self@.frames.len(),
    {
        self.frames.len()
    }

    /// The number of operands that instructions can reach.
    pub fn operand_count(&self) -> (count: usize)
        ensures
            count == self@.operands().len(),
    {
        let depth = self.frames.len();
        if depth == 0 {
            self.outer.len()
        } else {
            self.frames[depth - 1].operands.len()
        }
    }

    /// Goes on at `address`.
    pub fn jump(&mut self, address: usize)
        ensures
            final(self)@ == old(self)@.at(address as nat),
    {
        self.address = address;
        assert(self@.frames =~= old(self)@.frames);
    }

    /// Pushes an operand.
    pub fn push_operand(&mut self, value: u64)
        ensures
            final(self)@ == old(self)@.with_operands(old(self)@.operands().push(value)),
    {
        match self.frames.pop() {
            None => {
                self.outer.push(value);
                assert(self@.frames =~= old(self)@.frames);
            },
            Some(mut frame) => {
                frame.operands.push(value);
                self.frames.push(frame);
                assert(self@.frames =~= old(self)@.frames.drop_last().push(
                    FrameState {
                        operands: old(self)@.operands().push(value),
                        ..old(self)@.frames.last()
                    },
                ));
            },
        }
    }

    /// Pops the operand that was pushed last, if one can be reached.
    pub fn pop_operand(&mut self) -> (popped: Result<u64, Fault>)
        ensures
            old(self)@.operands().len() == 0 ==> popped == Err::<u64, Fault>(Fault::TypeViolation)
                && final(self)@ == old(self)@,
            old(self)@.operands().len() > 0 ==> popped == Ok::<u64, Fault>(
                old(self)@.operands().last(),
            ) && final(self)@ == old(self)@.without_top(1),
    {
        if self.operand_count() == 0 {
            return Err(Fault::TypeViolation);
        }
        let mut top = self.take_top(1);
        match top.pop() {
            Some(value) => Ok(value),
            None => unreached(),
        }
    }

    /// Enters a function: a new function frame takes the last
    /// `parameter_count` operands as its arguments.
    pub fn enter_function(
        &mut self,
        parameter_count: usize,
        result_count: usize,
        local_count: usize,
    ) -> (result: Result<(), Fault>)
        requires
            parameter_count + local_count <= usize::MAX,
        ensures
            stepped(
                old(self)@,
                old(self)@.enter_step(
                    FrameKind::Function,
                    parameter_count as nat,
                    result_count as nat,
                    local_count as nat,
                ),
                final(self)@,
                result,
            ),
    {
        self.enter(FrameKind::Function, parameter_count, result_count, local_count)
    }

    /// Enters a block: a new block frame takes the last `parameter_count`
    /// operands as its arguments.
    pub fn enter_block(
        &mut self,
        parameter_count: usize,
        result_count: usize,
        local_count: usize,
    ) -> (result: Result<(), Fault>)
        requires
            parameter_count + local_count <= usize::MAX,
        ensures
            stepped(
                old(self)@,
                old(self)@.enter_step(
                    FrameKind::Block,
                    parameter_count as nat,
                    result_count as nat,
                    local_count as nat,
                ),
                final(self)@,
                result,
            ),
    {
        self.enter(FrameKind::Block, parameter_count, result_count, local_count)
    }

    fn enter(
        &mut self,
        kind: FrameKind,
        parameter_count: usize,
        result_count: usize,
        local_count: usize,
    ) -> (result: Result<(), Fault>)
        requires
            parameter_count + local_count <= usize::MAX,
        ensures
            stepped(
                old(self)@,
                old(self)@.enter_step(
                    kind,
                    parameter_count as nat,
                    result_count as nat,
                    local_count as nat,
                ),
                final(self)@,
                result,
            ),
    {
        if parameter_count > self.operand_count() {
            return Err(Fault::TypeViolation);
        }
        let mut locals = self.take_top(parameter_count);
        let ghost arguments = locals@;
        let mut added: usize = 0;
        while added < local_count
            invariant
                added <= local_count,
                locals@ == arguments + zeros(added as nat),
            decreases local_count - added,
        {
            locals.push(0);
            added += 1;
            assert(locals@ =~= arguments + zeros(added as nat));
        }
        let ghost outside = self@;
        self.frames.push(Frame { kind, parameter_count, result_count, locals, operands: Vec::new() });
        assert(self@.frames =~= outside.frames.push(
            FrameState {
                kind,
                parameter_count: parameter_count as nat,
                result_count: result_count as nat,
                locals: arguments + zeros(local_count as nat),
                operands: Seq::empty(),
            },
        ));
        Ok(())
    }

    /// Reads the local variable in slot `index` of the frame `layers` frames
    /// out.
    fn read_local(&self, layers: i16, index: i32) -> (value: Result<u64, Fault>)
        ensures
            value == self@.local(layers, index),
    {
        if layers < 0 || layers as usize >= self.frames.len() {
            return Err(Fault::FrameDepthExceeded);
        }
        let at = self.frames.len() - 1 - layers as usize;
        assert(self@.frame(layers as int) == self.frames@[at as int]@);
        if index < 0 || index as usize >= self.frames[at].locals.len() {
            return Err(Fault::LocalIndexOutOfRange);
        }
        Ok(self.frames[at].locals[index as usize])
    }

    /// Loads a local variable: pushes what slot `index` of the frame
    /// `layers` frames out holds.
    pub fn local_load(&mut self, layers: i16, index: i32) -> (result: Result<(), Fault>)
        ensures
            stepped(old(self)@, old(self)@.load_step(layers, index), final(self)@, result),
    {
        match self.read_local(layers, index) {
            Err(fault) => Err(fault),
            Ok(value) => {
                self.push_operand(value);
                Ok(())
            },
        }
    }

    /// Loads an `f64` local variable: pushes what the slot holds, unless that
    /// is NaN or infinite.
    pub fn local_load_f64(&mut self, layers: i16, index: i32) -> (result: Result<(), Fault>)
        ensures
            stepped(old(self)@, old(self)@.load_f64_step(layers, index), final(self)@, result),
    {
        match self.read_local(layers, index) {
            Err(fault) => Err(fault),
            Ok(value) => match load_f64(value) {
                Err(fault) => Err(fault),
                Ok(bits) => {
                    self.push_operand(bits);
                    Ok(())
                },
            },
        }
    }

    /// Loads an `f32` local variable: pushes what the low half of the slot
    /// holds, unless that is NaN or infinite.
    pub fn local_load_f32(&mut self, layers: i16, index: i32) -> (result: Result<(), Fault>)
        ensures
            stepped(old(self)@, old(self)@.load_f32_step(layers, index), final(self)@, result),
    {
        match self.read_local(layers, index) {
            Err(fault) => Err(fault),
            Ok(value) => match load_f32((value % 0x1_0000_0000) as u32) {
                Err(fault) => Err(fault),
                Ok(bits) => {
                    self.push_operand(bits as u64);
                    Ok(())
                },
            },
        }
    }

    /// Stores to a local variable: pops an operand into slot `index` of the
    /// frame `layers` frames out.
    pub fn local_store(&mut self, layers: i16, index: i32) -> (result: Result<(), Fault>)
        ensures
            stepped(old(self)@, old(self)@.store_step(layers, index), final(self)@, result),
    {
        match self.read_local(layers, index) {
            Err(fault) => {
                return Err(fault);
            },
            Ok(_) => {},
        }
        let value = match self.pop_operand() {
            Err(fault) => {
                return Err(fault);
            },
            Ok(value) => value,
        };
        let at = self.frames.len() - 1 - layers as usize;
        let ghost popped = self@;
        let frame = &mut self.frames[at];
        frame.locals.set(index as usize, value);
        assert(self@.frames =~= popped.with_local(layers as int, index as int, value).frames);
        Ok(())
    }

    /// The address `offset` bytes on.
    fn address_after(&self, offset: i32) -> (address: Option<usize>)
        ensures
            address.is_some() == address_after(self@.address, offset).is_some(),
            address matches Some(a) ==> address_after(self@.address, offset) == Some(a as nat),
    {
        if offset < 0 || offset as usize > usize::MAX - self.address {
            None
        } else {
            Some(self.address + offset as usize)
        }
    }

    /// `break`: leaves the frame `layers` frames out and all frames inside
    /// it, takes the results of that frame along, and goes on
    /// `next_inst_offset` bytes after this instruction.
    pub fn break_(&mut self, layers: i16, next_inst_offset: i32) -> (result: Result<(), Fault>)
        ensures
            stepped(
                old(self)@,
                old(self)@.break_step(layers, next_inst_offset),
                final(self)@,
                result,
            ),
    {
        if layers < 0 || layers as usize >= self.frames.len() {
            return Err(Fault::ControlFlowViolation);
        }
        let address = match self.address_after(next_inst_offset) {
            None => {
                return Err(Fault::ControlFlowViolation);
            },
            Some(address) => address,
        };
        let at = self.frames.len() - 1 - layers as usize;
        assert(self@.frame(layers as int) == self.frames@[at as int]@);
        let result_count = self.frames[at].result_count;
        if result_count > self.operand_count() {
            return Err(Fault::TypeViolation);
        }
        let results = self.take_top(result_count);
        let ghost inside = self@;
        assert(inside.frames.take(at as int) =~= old(self)@.frames.take(at as int));
        self.frames.truncate(at);
        assert(self@.frames =~= inside.frames.take(at as int));
        self.put_top(results);
        self.address = address;
        assert(self@.frames =~= old(self)@.left(layers as nat).frames);
        Ok(())
    }

    /// `end`: leaves the innermost frame, takes its results along, and goes
    /// on with the next instruction.
    pub fn end(&mut self) -> (result: Result<(), Fault>)
        ensures
            stepped(old(self)@, old(self)@.break_step(0, END_LENGTH), final(self)@, result),
    {
        self.break_(0, END_LENGTH)
    }

    /// `break_alt`: leaves the innermost frame, takes its results along, and
    /// goes on `next_inst_offset` bytes after this instruction.
    pub fn break_alt(&mut self, next_inst_offset: i32) -> (result: Result<(), Fault>)
        ensures
            stepped(
                old(self)@,
                old(self)@.break_step(0, next_inst_offset),
                final(self)@,
                result,
            ),
    {
        self.break_(0, next_inst_offset)
    }

    /// `recur`: leaves the frames inside the frame `layers` frames out,
    /// starts that frame over with new arguments, and goes on
    /// `start_inst_offset` bytes before this instruction.
    pub fn recur(&mut self, layers: i16, start_inst_offset: i32) -> (result: Result<(), Fault>)
        ensures
            stepped(
                old(self)@,
                old(self)@.recur_step(layers, start_inst_offset),
                final(self)@,
                result,
            ),
    {
        if layers < 0 || layers as usize >= self.frames.len() {
            return Err(Fault::ControlFlowViolation);
        }
        if start_inst_offset < 0 || start_inst_offset as usize > self.address {
            return Err(Fault::ControlFlowViolation);
        }
        let at = self.frames.len() - 1 - layers as usize;
        assert(self@.frame(layers as int) == self.frames@[at as int]@);
        let parameter_count = self.frames[at].parameter_count;
        if parameter_count > self.operand_count() {
            return Err(Fault::TypeViolation);
        }
        let mut locals = self.take_top(parameter_count);
        let ghost arguments = locals@;
        let ghost inside = self@;
        assert(inside.frames.len() == old(self)@.frames.len());
        assert(self.frames@.len() == inside.frames.len());
        assert(inside.frames.take(at as int) =~= old(self)@.frames.take(at as int));
        assert(inside.frames[at as int] == FrameState {
            operands: inside.frames[at as int].operands,
            ..old(self)@.frame(layers as int)
        });
        assert(inside.frames[at as int] == self.frames@[at as int]@);
        self.frames.truncate(at + 1);
        let target = match self.frames.pop() {
            Some(target) => target,
            None => unreached(),
        };
        assert(self@.frames =~= inside.frames.take(at as int));
        let slots = target.locals.len();
        let mut filled = parameter_count;
        while filled < slots
            invariant
                parameter_count <= filled,
                filled <= slots || filled == parameter_count,
                locals@ == arguments + zeros((filled - parameter_count) as nat),
            decreases slots - filled,
        {
            locals.push(0);
            filled += 1;
            assert(locals@ =~= arguments + zeros((filled - parameter_count) as nat));
        }
        self.frames.push(
            Frame {
                kind: target.kind,
                parameter_count: target.parameter_count,
                result_count: target.result_count,
                locals,
                operands: Vec::new(),
            },
        );
        self.address = self.address - start_inst_offset as usize;
        assert(target@ == inside.frames[at as int]);
        assert(slots == old(self)@.frame(layers as int).locals.len());
        assert(self@.frames[at as int] == old(self)@.restarted(layers as nat).frames[at as int]);
        assert(self@.frames =~= old(self)@.restarted(layers as nat).frames);
        Ok(())
    }

    /// `block`: enters a block and goes on with the next instruction.
    pub fn block(&mut self, parameter_count: usize, result_count: usize, local_count: usize) -> (result:
        Result<(), Fault>)
        requires
            parameter_count + local_count <= usize::MAX,
        ensures
            stepped(
                old(self)@,
                old(self)@.block_step(
                    parameter_count as nat,
                    result_count as nat,
                    local_count as nat,
                    BLOCK_LENGTH as nat,
                ),
                final(self)@,
                result,
            ),
    {
        self.enter_and_advance(parameter_count, result_count, local_count, BLOCK_LENGTH)
    }

    /// `block_alt`: pops a condition. Where it is zero, goes on
    /// `next_inst_offset` bytes after this instruction, where the other arm
    /// starts. Otherwise enters a block and goes on with the next
    /// instruction.
    pub fn block_alt(
        &mut self,
        parameter_count: usize,
        result_count: usize,
        local_count: usize,
        next_inst_offset: i32,
    ) -> (result: Result<(), Fault>)
        requires
            parameter_count + local_count <= usize::MAX,
        ensures
            stepped(
                old(self)@,
                old(self)@.branch_step(
                    parameter_count as nat,
                    result_count as nat,
                    local_count as nat,
                    next_inst_offset,
                    BLOCK_ALT_LENGTH as nat,
                ),
                final(self)@,
                result,
            ),
    {
        self.branch(parameter_count, result_count, local_count, next_inst_offset, BLOCK_ALT_LENGTH)
    }

    /// `block_nez`: pops a condition. Where it is zero, goes on
    /// `next_inst_offset` bytes after this instruction, behind the block.
    /// Otherwise enters a block without parameters and results and goes on
    /// with the next instruction.
    pub fn block_nez(&mut self, local_count: usize, next_inst_offset: i32) -> (result: Result<
        (),
        Fault,
    >)
        ensures
            stepped(
                old(self)@,
                old(self)@.branch_step(
                    0,
                    0,
                    local_count as nat,
                    next_inst_offset,
                    BLOCK_LENGTH as nat,
                ),
                final(self)@,
                result,
            ),
    {
        self.branch(0, 0, local_count, next_inst_offset, BLOCK_LENGTH)
    }

    fn enter_and_advance(
        &mut self,
        parameter_count: usize,
        result_count: usize,
        local_count: usize,
        length: usize,
    ) -> (result: Result<(), Fault>)
        requires
            parameter_count + local_count <= usize::MAX,
        ensures
            stepped(
                old(self)@,
                old(self)@.block_step(
                    parameter_count as nat,
                    result_count as nat,
                    local_count as nat,
                    length as nat,
                ),
                final(self)@,
                result,
            ),
    {
        if length > usize::MAX - self.address {
            return Err(Fault::ControlFlowViolation);
        }
        match self.enter(FrameKind::Block, parameter_count, result_count, local_count) {
            Err(fault) => Err(fault),
            Ok(()) => {
                let ghost inside = self@;
                self.address = self.address + length;
                assert(self@.frames =~= inside.frames);
                Ok(())
            },
        }
    }

    fn branch(
        &mut self,
        parameter_count: usize,
        result_count: usize,
        local_count: usize,
        next_inst_offset: i32,
        length: usize,
    ) -> (result: Result<(), Fault>)
        requires
            parameter_count + local_count <= usize::MAX,
        ensures
            stepped(
                old(self)@,
                old(self)@.branch_step(
                    parameter_count as nat,
                    result_count as nat,
                    local_count as nat,
                    next_inst_offset,
                    length as nat,
                ),
                final(self)@,
                result,
            ),
    {
        let count = self.operand_count();
        if count == 0 {
            return Err(Fault::TypeViolation);
        }
        let condition = self.peek_operand();
        if condition == 0 {
            let address = match self.address_after(next_inst_offset) {
                None => {
                    return Err(Fault::ControlFlowViolation);
                },
                Some(address) => address,
            };
            let _ = self.take_top(1);
            let ghost popped = self@;
            self.address = address;
            assert(self@.frames =~= popped.frames);
            Ok(())
        } else {
            if length > usize::MAX - self.address || parameter_count > count - 1 {
                return if length > usize::MAX - self.address {
                    Err(Fault::ControlFlowViolation)
                } else {
                    Err(Fault::TypeViolation)
                };
            }
            let _ = self.take_top(1);
            self.enter_and_advance(parameter_count, result_count, local_count, length)
        }
    }

    /// The operand that was pushed last.
    fn peek_operand(&self) -> (value: u64)
        requires
            self@.operands().len() > 0,
        ensures
            value == self@.operands().last(),
    {
        let depth = self.frames.len();
        if depth == 0 {
            self.outer[self.outer.len() - 1]
        } else {
            let operands = &self.frames[depth - 1].operands;
            operands[operands.len() - 1]
        }
    }

    /// Takes the last `count` operands off.
    fn take_top(&mut self, count: usize) -> (top: Vec<u64>)
        requires
            count <= old(self)@.operands().len(),
        ensures
            top@ == old(self)@.top(count as nat),
            final(self)@ == old(self)@.without_top(count as nat),
    {
        match self.frames.pop() {
            None => {
                let keep = self.outer.len() - count;
                let top = self.outer.split_off(keep);
                assert(self@.frames =~= old(self)@.frames);
                assert(self.outer@ =~= old(self)@.operands().take(keep as int));
                assert(top@ =~= old(self)@.top(count as nat));
                top
            },
            Some(mut frame) => {
                let keep = frame.operands.len() - count;
                let top = frame.operands.split_off(keep);
                assert(frame.operands@ =~= old(self)@.operands().take(keep as int));
                assert(top@ =~= old(self)@.top(count as nat));
                self.frames.push(frame);
                assert(self@.frames =~= old(self)@.without_top(count as nat).frames);
                top
            },
        }
    }

    /// Puts `values` behind the operands.
    fn put_top(&mut self, values: Vec<u64>)
        ensures
            final(self)@ == old(self)@.with_operands(old(self)@.operands() + values@),
    {
        let ghost added = values@;
        let mut values = values;
        match self.frames.pop() {
            None => {
                self.outer.append(&mut values);
                assert(self@.frames =~= old(self)@.frames);
            },
            Some(mut frame) => {
                frame.operands.append(&mut values);
                self.frames.push(frame);
                assert(self@.frames =~= old(self)@.with_operands(
                    old(self)@.operands() + added,
                ).frames);
            },
        }
    }
}

impl MachineState {
    /// Every frame has a slot for each of its arguments.
    pub open spec fn well_formed(self) -> bool {
        forall|i: int|
            0 <= i < self.frames.len() ==> (#[trigger] self.frames[i]).locals.len()
                >= self.frames[i].parameter_count
    }

    /// The machine after the innermost frame has started over once for each
    /// of `calls`, each time with the arguments that the call gives.
    pub open spec fn after_recurs(self, calls: Seq<Seq<u64>>) -> MachineState
        decreases calls.len(),
    {
        if calls.len() == 0 {
            self
        } else {
            let before = self.after_recurs(calls.drop_last());
            before.with_operands(before.operands() + calls.last()).restarted(0)
        }
    }
}

/// The lengths by which the control-flow instructions go on are those of
/// their layouts.
pub proof fn lemma_instruction_lengths()
    ensures
        BLOCK_LENGTH == Opcode::block.layout().length(),
        BLOCK_LENGTH == Opcode::block_nez.layout().length(),
        BLOCK_ALT_LENGTH == Opcode::block_alt.layout().length(),
        END_LENGTH == Opcode::end.layout().length(),
{
}

/// `break` moves the results of the frame that is left, and nothing else:
/// that frame and the frames inside it are gone, the frames outside are as
/// they were, and the operands that can be reached are those of the
/// surroundings and then the last operands of the innermost frame, as many as
/// the frame that is left hands out.
pub proof fn lemma_break_moves_results(state: MachineState, layers: i16, next_inst_offset: i32)
    requires
        state.break_step(layers, next_inst_offset) is Ok,
    ensures
        ({
            let next = state.break_step(layers, next_inst_offset)->Ok_0;
            let outside = state.frames.len() - 1 - layers;
            let results = state.top(state.frame(layers as int).result_count);
            &&& 0 <= layers < state.frames.len()
            &&& next.frames.len() == outside
            &&& next.address == state.address + next_inst_offset
            &&& results.len() == state.frame(layers as int).result_count
            &&& outside == 0 ==> next.outer == state.outer + results
            &&& outside > 0 ==> next.outer == state.outer && next.frames.last().operands
                == state.frames[outside - 1].operands + results
            &&& forall|i: int| 0 <= i < outside - 1 ==> next.frames[i] == state.frames[i]
            &&& outside > 0 ==> next.frames.last().locals == state.frames[outside - 1].locals
        }),
{
}

/// `recur` keeps the frame that starts over and allocates none: the frames
/// inside it are gone, the frames outside and the operands outside are as
/// they were, and the frame itself has its kind, its type and the number of
/// its slots as before, and no operands.
pub proof fn lemma_recur_reuses_frame(state: MachineState, layers: i16, start_inst_offset: i32)
    requires
        state.well_formed(),
        state.recur_step(layers, start_inst_offset) is Ok,
    ensures
        ({
            let next = state.recur_step(layers, start_inst_offset)->Ok_0;
            let target = state.frame(layers as int);
            &&& 0 <= layers < state.frames.len()
            &&& next.well_formed()
            &&& next.frames.len() == state.frames.len() - layers
            &&& next.address == state.address - start_inst_offset
            &&& next.outer == state.outer
            &&& forall|i: int| 0 <= i < next.frames.len() - 1 ==> next.frames[i] == state.frames[i]
            &&& next.frames.last().kind == target.kind
            &&& next.frames.last().parameter_count == target.parameter_count
            &&& next.frames.last().result_count == target.result_count
            &&& next.frames.last().locals.len() == target.locals.len()
            &&& next.frames.last().locals.take(target.parameter_count as int) == state.top(
                target.parameter_count,
            )
            &&& forall|i: int|
                target.parameter_count <= i < target.locals.len() ==> next.frames.last().locals[i]
                    == 0
            &&& next.operands().len() == 0
        }),
{
    let next = state.recur_step(layers, start_inst_offset)->Ok_0;
    let target = state.frame(layers as int);
    assert(next.frames.last().locals.take(target.parameter_count as int) =~= state.top(
        target.parameter_count,
    ));
}

/// However often the innermost frame starts over, the machine does not grow:
/// the number of frames and the number of slots of the frame stay as they
/// were, and after each start the frame has no operands.
pub proof fn lemma_recurs_keep_depth(state: MachineState, calls: Seq<Seq<u64>>)
    requires
        state.well_formed(),
        state.frames.len() > 0,
        forall|i: int|
            0 <= i < calls.len() ==> (#[trigger] calls[i]).len()
                == state.frames.last().parameter_count,
    ensures
        ({
            let next = state.after_recurs(calls);
            &&& next.well_formed()
            &&& next.frames.len() == state.frames.len()
            &&& next.outer == state.outer
            &&& next.frames.drop_last() == state.frames.drop_last()
            &&& next.frames.last().kind == state.frames.last().kind
            &&& next.frames.last().parameter_count == state.frames.last().parameter_count
            &&& next.frames.last().result_count == state.frames.last().result_count
            &&& next.frames.last().locals.len() == state.frames.last().locals.len()
            &&& calls.len() > 0 ==> next.operands().len() == 0
            &&& calls.len() > 0 ==> next.frames.last().locals.take(
                state.frames.last().parameter_count as int,
            ) == calls.last()
        }),
    decreases calls.len(),
{
    if calls.len() > 0 {
        let before = state.after_recurs(calls.drop_last());
        lemma_recurs_keep_depth(state, calls.drop_last());
        let piled = before.with_operands(before.operands() + calls.last());
        let next = piled.restarted(0);
        let count = state.frames.last().parameter_count;
        assert(piled.top(count) =~= calls.last());
        assert(next.frames.drop_last() =~= state.frames.drop_last());
        assert(next.frames.last().locals.take(count as int) =~= calls.last());
    }
}

/// A block instruction that tests a condition enters no frame and executes
/// nothing of its block where the condition is zero: it goes on exactly
/// `next_inst_offset` bytes after itself. Where the condition is not zero it
/// enters exactly one frame and goes on with the next instruction.
pub proof fn lemma_branch(
    state: MachineState,
    parameter_count: nat,
    result_count: nat,
    local_count: nat,
    next_inst_offset: i32,
    length: nat,
)
    requires
        state.branch_step(parameter_count, result_count, local_count, next_inst_offset, length)
            is Ok,
    ensures
        ({
            let next = state.branch_step(
                parameter_count,
                result_count,
                local_count,
                next_inst_offset,
                length,
            )->Ok_0;
            &&& state.operands().len() > 0
            &&& state.operands().last() == 0 ==> {
                &&& next.frames.len() == state.frames.len()
                &&& next.address == state.address + next_inst_offset
                &&& next.operands() == state.operands().drop_last()
            }
            &&& state.operands().last() != 0 ==> {
                &&& next.frames.len() == state.frames.len() + 1
                &&& next.address == state.address + length
                &&& next.frames.last().kind == FrameKind::Block
                &&& next.frames.last().parameter_count == parameter_count
                &&& next.frames.last().result_count == result_count
                &&& next.frames.last().locals.len() == parameter_count + local_count
                &&& next.frames.last().operands.len() == 0
            }
        }),
{
    if state.operands().last() == 0 {
        assert(state.without_top(1).operands() =~= state.operands().drop_last());
    }
}

/// Whether a step that succeeds leaves every frame with a slot for each of
/// its arguments.
pub open spec fn step_well_formed(step: Result<MachineState, Fault>) -> bool {
    step matches Ok(next) ==> next.well_formed()
}

/// Whatever a machine does, every frame keeps a slot for each of its
/// arguments.
pub proof fn lemma_well_formed_kept(state: MachineState)
    requires
        state.well_formed(),
    ensures
        forall|operands: Seq<u64>| (#[trigger] state.with_operands(operands)).well_formed(),
        forall|address: nat| (#[trigger] state.at(address)).well_formed(),
        forall|kind: FrameKind, parameter_count: nat, result_count: nat, local_count: nat|
            #[trigger] step_well_formed(state.enter_step(kind, parameter_count, result_count, local_count)),
        forall|layers: i16, offset: i32|
            #[trigger] step_well_formed(state.break_step(layers, offset)),
        forall|layers: i16, offset: i32|
            #[trigger] step_well_formed(state.recur_step(layers, offset)),
        forall|parameter_count: nat, result_count: nat, local_count: nat, length: nat|
            #[trigger] step_well_formed(state.block_step(parameter_count, result_count, local_count, length)),
        forall|
            parameter_count: nat,
            result_count: nat,
            local_count: nat,
            offset: i32,
            length: nat,
        |
            #[trigger] step_well_formed(state.branch_step(
                parameter_count,
                result_count,
                local_count,
                offset,
                length,
            )),
        forall|layers: i16, index: i32|
            #[trigger] step_well_formed(state.load_step(layers, index)),
        forall|layers: i16, index: i32|
            #[trigger] step_well_formed(state.load_f64_step(layers, index)),
        forall|layers: i16, index: i32|
            #[trigger] step_well_formed(state.load_f32_step(layers, index)),
        forall|layers: i16, index: i32|
            #[trigger] step_well_formed(state.store_step(layers, index)),
{
    assert forall|operands: Seq<u64>| (#[trigger] state.with_operands(operands)).well_formed() by {
        lemma_operands_replaced(state, operands);
    }
    let popped = state.without_top(1);
    assert forall|kind: FrameKind, parameter_count: nat, result_count: nat, local_count: nat|
        #[trigger] step_well_formed(
            state.enter_step(kind, parameter_count, result_count, local_count),
        ) by {
        if parameter_count <= state.operands().len() {
            lemma_enter_well_formed(state, kind, parameter_count, result_count, local_count);
        }
    }
    assert forall|parameter_count: nat, result_count: nat, local_count: nat, length: nat|
        #[trigger] step_well_formed(
            state.block_step(parameter_count, result_count, local_count, length),
        ) by {
        if parameter_count <= state.operands().len() {
            lemma_enter_well_formed(
                state,
                FrameKind::Block,
                parameter_count,
                result_count,
                local_count,
            );
        }
    }
    assert forall|
        parameter_count: nat,
        result_count: nat,
        local_count: nat,
        offset: i32,
        length: nat,
    |
        #[trigger] step_well_formed(
            state.branch_step(parameter_count, result_count, local_count, offset, length),
        ) by {
        if parameter_count <= popped.operands().len() {
            lemma_enter_well_formed(
                popped,
                FrameKind::Block,
                parameter_count,
                result_count,
                local_count,
            );
        }
    }
    assert forall|layers: i16, offset: i32| #[trigger]
        step_well_formed(state.break_step(layers, offset)) by {
        if state.break_step(layers, offset) is Ok {
            let outside = MachineState {
                frames: state.frames.take(state.frames.len() - 1 - layers),
                ..state
            };
            assert forall|i: int| 0 <= i < outside.frames.len() implies (
            #[trigger] outside.frames[i]).locals.len() >= outside.frames[i].parameter_count by {
                assert(state.frames[i].locals.len() >= state.frames[i].parameter_count);
            }
            lemma_operands_replaced(
                outside,
                outside.operands() + state.top(state.frame(layers as int).result_count),
            );
        }
    }
    assert forall|layers: i16, offset: i32| #[trigger]
        step_well_formed(state.recur_step(layers, offset)) by {
        if state.recur_step(layers, offset) is Ok {
            let next = state.restarted(layers as nat);
            assert forall|i: int| 0 <= i < next.frames.len() implies (
            #[trigger] next.frames[i]).locals.len() >= next.frames[i].parameter_count by {
                if i < next.frames.len() - 1 {
                    assert(state.frames[i].locals.len() >= state.frames[i].parameter_count);
                }
            }
        }
    }
    assert forall|layers: i16, index: i32| #[trigger]
        step_well_formed(state.store_step(layers, index)) by {
        if state.store_step(layers, index) is Ok {
            let next = popped.with_local(layers as int, index as int, state.operands().last());
            assert forall|i: int| 0 <= i < next.frames.len() implies (
            #[trigger] next.frames[i]).locals.len() >= next.frames[i].parameter_count by {
                assert(popped.frames[i].locals.len() >= popped.frames[i].parameter_count);
            }
        }
    }
}

/// Other operands leave every frame with a slot for each of its arguments.
proof fn lemma_operands_replaced(state: MachineState, operands: Seq<u64>)
    requires
        state.well_formed(),
    ensures
        state.with_operands(operands).well_formed(),
{
    let next = state.with_operands(operands);
    assert forall|i: int| 0 <= i < next.frames.len() implies (#[trigger] next.frames[i]).locals.len()
        >= next.frames[i].parameter_count by {
        assert(state.frames[i].locals.len() >= state.frames[i].parameter_count);
    }
}

/// A frame that is entered has a slot for each of its arguments.
proof fn lemma_enter_well_formed(
    state: MachineState,
    kind: FrameKind,
    parameter_count: nat,
    result_count: nat,
    local_count: nat,
)
    requires
        state.well_formed(),
        parameter_count <= state.operands().len(),
    ensures
        state.entered(kind, parameter_count, result_count, local_count).well_formed(),
{
    let outside = state.without_top(parameter_count);
    lemma_operands_replaced(state, state.operands().take(state.operands().len() - parameter_count));
    let next = state.entered(kind, parameter_count, result_count, local_count);
    assert forall|i: int| 0 <= i < next.frames.len() implies (#[trigger] next.frames[i]).locals.len()
        >= next.frames[i].parameter_count by {
        if i < outside.frames.len() {
            assert(outside.frames[i].locals.len() >= outside.frames[i].parameter_count);
        }
    }
}

} // verus!
