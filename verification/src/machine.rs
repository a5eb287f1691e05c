use crate::ir::{GlobalSlot, Instr, IrFunction, Operand, Placed};
use crate::numeric::{
    eval_int_binary, eval_int_cast, eval_int_compare, int_binary, int_cast, int_compare,
};
use vstd::prelude::*;

verus! {

/// The integer part of the state of a machine that runs the intermediate
/// representation: the values that instructions have yielded, and what the
/// cells of locals and of globals hold.  Values are bit patterns.
pub struct Machine {
    /// The incoming values of the parameters.
    pub params: Seq<u64>,
    /// The results of the instructions run so far, by their position.
    pub values: Map<int, u64>,
    /// The positions of the instructions that have reserved a cell.
    pub reserved: Set<int>,
    /// What the cell reserved by the instruction at a position holds, once
    /// a value has been stored to it.
    pub cells: Map<int, u64>,
    /// What the cell of the global of an index holds.
    pub globals: Map<int, u64>,
}

impl Machine {
    /// The value of an operand, where it is an integer that the machine
    /// knows.
    pub open spec fn operand_value(self, operand: Operand) -> Option<u64> {
        match operand {
            Operand::ConstInt { ty, bits } => Some(bits),
            Operand::ConstF32 { bits } => Some(bits as u64),
            Operand::ConstF64 { bits } => Some(bits),
            Operand::Param { index } => if index < self.params.len() {
                Some(self.params[index as int])
            } else {
                None
            },
            Operand::Value { id } => if self.values.dom().contains(id as int) {
                Some(self.values[id as int])
            } else {
                None
            },
            _ => None,
        }
    }

    /// Whether a value can be stored to the address `ptr`: it is that of a
    /// cell that has been reserved, or of a global.
    pub open spec fn can_store(self, ptr: Operand) -> bool {
        match ptr {
            Operand::Value { id } => self.reserved.contains(id as int),
            Operand::Global { index } => self.globals.dom().contains(index as int),
            _ => false,
        }
    }

    /// What the cell at the address `ptr` holds.
    pub open spec fn cell_value(self, ptr: Operand) -> Option<u64> {
        match ptr {
            Operand::Value { id } => if self.cells.dom().contains(id as int) {
                Some(self.cells[id as int])
            } else {
                None
            },
            Operand::Global { index } => if self.globals.dom().contains(index as int) {
                Some(self.globals[index as int])
            } else {
                None
            },
            _ => None,
        }
    }

    /// The machine after the instruction at position `at` has yielded `v`.
    pub open spec fn define(self, at: int, v: u64) -> Machine {
        Machine { values: self.values.insert(at, v), ..self }
    }

    /// The machine after `v` has been stored to the cell at the address
    /// `ptr`.
    pub open spec fn store(self, ptr: Operand, v: u64) -> Option<Machine> {
        match ptr {
            Operand::Value { id } => if self.reserved.contains(id as int) {
                Some(Machine { cells: self.cells.insert(id as int, v), ..self })
            } else {
                None
            },
            Operand::Global { index } => if self.globals.dom().contains(index as int) {
                Some(Machine { globals: self.globals.insert(index as int, v), ..self })
            } else {
                None
            },
            _ => None,
        }
    }

    /// The machine after the instruction `instr`, which stands at position
    /// `at`, has run.  There is none where the instruction is outside the
    /// integer part of the machine (floating point, linear memory, calls,
    /// control), where an operand has no value, and where the result is left
    /// to the backend.
    pub open spec fn execute(self, at: int, instr: Instr) -> Option<Machine> {
        match instr {
            Instr::IntBinary { op, ty, lhs, rhs } => match (
                self.operand_value(lhs),
                self.operand_value(rhs),
            ) {
                (Some(a), Some(b)) => match int_binary(op, ty, a, b) {
                    Some(r) => Some(self.define(at, r)),
                    None => None,
                },
                _ => None,
            },
            Instr::IntCompare { pred, ty, lhs, rhs } => match (
                self.operand_value(lhs),
                self.operand_value(rhs),
            ) {
                (Some(a), Some(b)) => match int_compare(pred, ty, a, b) {
                    Some(holds) => Some(
                        self.define(
                            at,
                            if holds {
                                1
                            } else {
                                0
                            },
                        ),
                    ),
                    None => None,
                },
                _ => None,
            },
            Instr::Cast { op, from, to, value } => match self.operand_value(value) {
                Some(v) => match int_cast(op, from, to, v) {
                    Some(r) => Some(self.define(at, r)),
                    None => None,
                },
                None => None,
            },
            Instr::Select { cond, if_true, if_false } => match (
                self.operand_value(cond),
                self.operand_value(if_true),
                self.operand_value(if_false),
            ) {
                (Some(c), Some(a), Some(b)) => if c == 1 {
                    Some(self.define(at, a))
                } else if c == 0 {
                    Some(self.define(at, b))
                } else {
                    None
                },
                _ => None,
            },
            Instr::Alloca { ty } => Some(
                Machine { reserved: self.reserved.insert(at), cells: self.cells.remove(at), ..self },
            ),
            Instr::Load { ty, ptr } => match self.cell_value(ptr) {
                Some(v) => Some(self.define(at, v)),
                None => None,
            },
            Instr::Store { ty, ptr, value } => match self.operand_value(value) {
                Some(v) => self.store(ptr, v),
                None => None,
            },
            _ => None,
        }
    }

    /// The machine after the instructions of `code` from position `from` up
    /// to, but not including, position `to` have run one after the other.
    pub open spec fn run(self, code: Seq<Placed>, from: int, to: int) -> Option<Machine>
        decreases to - from,
    {
        if from >= to {
            Some(self)
        } else {
            match self.execute(from, code[from].instr) {
                Some(next) => next.run(code, from + 1, to),
                None => None,
            }
        }
    }
}

/// How the run of a function ends.
#[derive(Clone, Copy, Debug, PartialEq, Eq, Structural)]
pub enum Outcome {
    /// The function has returned, with its result where it has one.
    Returned { value: Option<u64> },
    /// A bounds check has failed.
    Trapped,
    /// The machine cannot go on: the next instruction is outside its integer
    /// part, or left to the backend, or there is none.
    Stuck,
    /// The allowance of instructions is used up.
    OutOfFuel,
}

/// The position of the first instruction of the block `block` at or after
/// the position `from`.
pub open spec fn next_in_block(code: Seq<Placed>, block: usize, from: int) -> Option<int>
    decreases code.len() - from,
{
    if from < 0 || from >= code.len() {
        None
    } else if code[from].block == block {
        Some(from)
    } else {
        next_in_block(code, block, from + 1)
    }
}

impl Machine {
    /// The machine at the entry of a function: nothing has run, no cell is
    /// reserved.
    pub open spec fn start(params: Seq<u64>, globals: Seq<u64>) -> Machine {
        Machine {
            params,
            values: Map::empty(),
            reserved: Set::empty(),
            cells: Map::empty(),
            globals: Map::new(|i: int| 0 <= i < globals.len(), |i: int| globals[i]),
        }
    }

    /// The machine at the entry of a function of a module that has just
    /// started: every global holds its initial value.
    pub open spec fn entry(params: Seq<u64>, globals: Seq<GlobalSlot>) -> Machine {
        Machine::start(params, globals.map_values(|slot: GlobalSlot| slot.initial_bits()))
    }

    /// Runs the function with the code `code` from the first instruction of
    /// the block `block` at or after the position `from`, for at most `fuel`
    /// instructions.  The instructions of a block run in the order of
    /// emission; a jump or a branch goes on at the first instruction of its
    /// target.
    pub open spec fn run_from(self, code: Seq<Placed>, block: usize, from: int, fuel: nat) -> Outcome
        decreases fuel,
    {
        if fuel == 0 {
            Outcome::OutOfFuel
        } else {
            match next_in_block(code, block, from) {
                None => Outcome::Stuck,
                Some(at) => match code[at].instr {
                    Instr::Jump { target } => self.run_from(code, target, 0, (fuel - 1) as nat),
                    Instr::Branch { cond, if_true, if_false } => match self.operand_value(cond) {
                        Some(c) => if c == 1 {
                            self.run_from(code, if_true, 0, (fuel - 1) as nat)
                        } else if c == 0 {
                            self.run_from(code, if_false, 0, (fuel - 1) as nat)
                        } else {
                            Outcome::Stuck
                        },
                        None => Outcome::Stuck,
                    },
                    Instr::Return { value } => match value {
                        None => Outcome::Returned { value: None },
                        Some(operand) => match self.operand_value(operand) {
                            Some(v) => Outcome::Returned { value: Some(v) },
                            None => Outcome::Stuck,
                        },
                    },
                    Instr::Trap => Outcome::Trapped,
                    instr => match self.execute(at, instr) {
                        Some(next) => next.run_from(code, block, at + 1, (fuel - 1) as nat),
                        None => Outcome::Stuck,
                    },
                },
            }
        }
    }
}

/// A machine that runs the integer part of the intermediate representation.
#[derive(Debug)]
pub struct Interpreter {
    pub params: Vec<u64>,
    /// The result of the instruction at each position, once it has run.
    pub values: Vec<Option<u64>>,
    /// Whether the instruction at each position has reserved a cell.
    pub reserved: Vec<bool>,
    /// What the cell reserved at each position holds, once a value has been
    /// stored to it.
    pub cells: Vec<Option<u64>>,
    pub globals: Vec<u64>,
}

impl View for Interpreter {
    type V = Machine;

    open spec fn view(&self) -> Machine {
        Machine {
            params: self.params@,
            values: Map::new(
                |i: int| 0 <= i < self.values.len() && self.values[i] is Some,
                |i: int| self.values[i]->0,
            ),
            reserved: Set::new(|i: int| 0 <= i < self.reserved.len() && self.reserved[i]),
            cells: Map::new(
                |i: int| 0 <= i < self.cells.len() && self.cells[i] is Some,
                |i: int| self.cells[i]->0,
            ),
            globals: Map::new(|i: int| 0 <= i < self.globals.len(), |i: int| self.globals[i]),
        }
    }
}

fn nothing_yet(len: usize) -> (slots: Vec<Option<u64>>)
    ensures
        slots.len() == len,
        forall|i: int| 0 <= i < len ==> slots[i] is None,
{
    let mut slots: Vec<Option<u64>> = Vec::new();
    while slots.len() < len
        invariant
            slots.len() <= len,
            forall|i: int| 0 <= i < slots.len() ==> slots[i] is None,
        decreases len - slots.len(),
    {
        slots.push(None);
    }
    slots
}

fn none_reserved(len: usize) -> (slots: Vec<bool>)
    ensures
        slots.len() == len,
        forall|i: int| 0 <= i < len ==> !slots[i],
{
    let mut slots: Vec<bool> = Vec::new();
    while slots.len() < len
        invariant
            slots.len() <= len,
            forall|i: int| 0 <= i < slots.len() ==> !slots[i],
        decreases len - slots.len(),
    {
        slots.push(false);
    }
    slots
}

impl Interpreter {
    /// A machine at the entry of a function of `size` instructions.
    pub fn new(params: Vec<u64>, globals: Vec<u64>, size: usize) -> (machine: Interpreter)
        ensures
            machine@ == Machine::start(params@, globals@),
            machine.values.len() == size,
            machine.reserved.len() == size,
            machine.cells.len() == size,
    {
        let machine = Interpreter {
            params,
            values: nothing_yet(size),
            reserved: none_reserved(size),
            cells: nothing_yet(size),
            globals,
        };
        assert(machine@.values =~= Map::empty());
        assert(machine@.reserved =~= Set::empty());
        assert(machine@.cells =~= Map::empty());
        assert(machine@.globals =~= Machine::start(params@, globals@).globals);
        machine
    }

    /// The value of an operand, where it is an integer that the machine
    /// knows.
    pub fn operand_value(&self, operand: Operand) -> (v: Option<u64>)
        ensures
            v == self@.operand_value(operand),
    {
        match operand {
            Operand::ConstInt { ty, bits } => Some(bits),
            Operand::ConstF32 { bits } => Some(bits as u64),
            Operand::ConstF64 { bits } => Some(bits),
            Operand::Param { index } => if index < self.params.len() {
                Some(self.params[index])
            } else {
                None
            },
            Operand::Value { id } => if id < self.values.len() {
                self.values[id]
            } else {
                None
            },
            _ => None,
        }
    }

    /// What the cell at the address `ptr` holds.
    pub fn cell_value(&self, ptr: Operand) -> (v: Option<u64>)
        ensures
            v == self@.cell_value(ptr),
    {
        match ptr {
            Operand::Value { id } => if id < self.cells.len() {
                self.cells[id]
            } else {
                None
            },
            Operand::Global { index } => if index < self.globals.len() {
                Some(self.globals[index])
            } else {
                None
            },
            _ => None,
        }
    }

    fn define(&mut self, at: usize, v: u64)
        requires
            at < old(self).values.len(),
        ensures
            final(self)@ == old(self)@.define(at as int, v),
            final(self).values.len() == old(self).values.len(),
            final(self).reserved.len() == old(self).reserved.len(),
            final(self).cells.len() == old(self).cells.len(),
    {
        self.values.set(at, Some(v));
        assert(self@.values =~= old(self)@.values.insert(at as int, v));
    }

    fn store(&mut self, ptr: Operand, v: u64) -> (done: bool)
        requires
            old(self).reserved.len() == old(self).cells.len(),
        ensures
            done ==> old(self)@.store(ptr, v) == Some(final(self)@),
            !done ==> old(self)@.store(ptr, v) is None && *final(self) == *old(self),
            final(self).values.len() == old(self).values.len(),
            final(self).reserved.len() == old(self).reserved.len(),
            final(self).cells.len() == old(self).cells.len(),
    {
        match ptr {
            Operand::Value { id } => {
                if id < self.reserved.len() && self.reserved[id] {
                    self.cells.set(id, Some(v));
                    assert(self@.cells =~= old(self)@.cells.insert(id as int, v));
                    true
                } else {
                    false
                }
            },
            Operand::Global { index } => {
                if index < self.globals.len() {
                    self.globals.set(index, v);
                    assert(self@.globals =~= old(self)@.globals.insert(index as int, v));
                    true
                } else {
                    false
                }
            },
            _ => false,
        }
    }

    /// Runs the instruction `instr`, which stands at position `at`.  Where
    /// the machine cannot run it, the machine stays as it is.
    pub fn execute(&mut self, at: usize, instr: Instr) -> (done: bool)
        requires
            at < old(self).values.len(),
            old(self).reserved.len() == old(self).values.len(),
            old(self).cells.len() == old(self).values.len(),
        ensures
            done ==> old(self)@.execute(at as int, instr) == Some(final(self)@),
            !done ==> old(self)@.execute(at as int, instr) is None && *final(self) == *old(self),
            final(self).values.len() == old(self).values.len(),
            final(self).reserved.len() == old(self).reserved.len(),
            final(self).cells.len() == old(self).cells.len(),
    {
        match instr {
            Instr::IntBinary { op, ty, lhs, rhs } => {
                match (self.operand_value(lhs), self.operand_value(rhs)) {
                    (Some(a), Some(b)) => match eval_int_binary(op, ty, a, b) {
                        Some(r) => {
                            self.define(at, r);
                            true
                        },
                        None => false,
                    },
                    _ => false,
                }
            },
            Instr::IntCompare { pred, ty, lhs, rhs } => {
                match (self.operand_value(lhs), self.operand_value(rhs)) {
                    (Some(a), Some(b)) => match eval_int_compare(pred, ty, a, b) {
                        Some(holds) => {
                            self.define(
                                at,
                                if holds {
                                    1
                                } else {
                                    0
                                },
                            );
                            true
                        },
                        None => false,
                    },
                    _ => false,
                }
            },
            Instr::Cast { op, from, to, value } => {
                match self.operand_value(value) {
                    Some(v) => match eval_int_cast(op, from, to, v) {
                        Some(r) => {
                            self.define(at, r);
                            true
                        },
                        None => false,
                    },
                    None => false,
                }
            },
            Instr::Select { cond, if_true, if_false } => {
                match (
                    self.operand_value(cond),
                    self.operand_value(if_true),
                    self.operand_value(if_false),
                ) {
                    (Some(c), Some(a), Some(b)) => {
                        if c == 1 {
                            self.define(at, a);
                            true
                        } else if c == 0 {
                            self.define(at, b);
                            true
                        } else {
                            false
                        }
                    },
                    _ => false,
                }
            },
            Instr::Alloca { ty } => {
                self.reserved.set(at, true);
                self.cells.set(at, None);
                assert(self@.reserved =~= old(self)@.reserved.insert(at as int));
                assert(self@.cells =~= old(self)@.cells.remove(at as int));
                true
            },
            Instr::Load { ty, ptr } => {
                match self.cell_value(ptr) {
                    Some(v) => {
                        self.define(at, v);
                        true
                    },
                    None => false,
                }
            },
            Instr::Store { ty, ptr, value } => {
                match self.operand_value(value) {
                    Some(v) => self.store(ptr, v),
                    None => false,
                }
            },
            _ => false,
        }
    }
}

/// Finds the first instruction of the block `block` at or after `from`.
pub fn find_in_block(code: &Vec<Placed>, block: usize, from: usize) -> (found: Option<usize>)
    ensures
        match found {
            Some(at) => at < code.len() && next_in_block(code@, block, from as int) == Some(
                at as int,
            ),
            None => next_in_block(code@, block, from as int) is None,
        },
{
    let mut at = from;
    while at < code.len()
        invariant
            from <= at,
            next_in_block(code@, block, from as int) == next_in_block(code@, block, at as int),
        decreases code.len() - at,
    {
        if code[at].block == block {
            return Some(at);
        }
        at = at + 1;
    }
    None
}

/// Runs a lowered function on the given parameters and globals, from its
/// entry block, for at most `fuel` instructions.
pub fn run_function(function: &IrFunction, params: Vec<u64>, globals: Vec<u64>, fuel: u64) -> (outcome:
    Outcome)
    ensures
        outcome == Machine::start(params@, globals@).run_from(
            function.code@,
            0,
            0,
            fuel as nat,
        ),
{
    let ghost start = Machine::start(params@, globals@);
    let code = &function.code;
    let mut machine = Interpreter::new(params, globals, code.len());
    let mut block: usize = 0;
    let mut from: usize = 0;
    let mut left = fuel;
    while left > 0
        invariant
            start == Machine::start(params@, globals@),
            code == function.code,
            machine.values.len() == code.len(),
            machine.reserved.len() == code.len(),
            machine.cells.len() == code.len(),
            start.run_from(code@, 0, 0, fuel as nat) == machine@.run_from(
                code@,
                block,
                from as int,
                left as nat,
            ),
        decreases left,
    {
        let at = match find_in_block(code, block, from) {
            Some(at) => at,
            None => {
                return Outcome::Stuck;
            },
        };
        left = left - 1;
        match code[at].instr {
            Instr::Jump { target } => {
                block = target;
                from = 0;
            },
            Instr::Branch { cond, if_true, if_false } => {
                match machine.operand_value(cond) {
                    Some(c) => {
                        if c == 1 {
                            block = if_true;
                        } else if c == 0 {
                            block = if_false;
                        } else {
                            return Outcome::Stuck;
                        }
                        from = 0;
                    },
                    None => {
                        return Outcome::Stuck;
                    },
                }
            },
            Instr::Return { value } => {
                match value {
                    None => {
                        return Outcome::Returned { value: None };
                    },
                    Some(operand) => {
                        match machine.operand_value(operand) {
                            Some(v) => {
                                return Outcome::Returned { value: Some(v) };
                            },
                            None => {
                                return Outcome::Stuck;
                            },
                        }
                    },
                }
            },
            Instr::Trap => {
                return Outcome::Trapped;
            },
            instr => {
                if !machine.execute(at, instr) {
                    return Outcome::Stuck;
                }
                from = at + 1;
            },
        }
    }
    Outcome::OutOfFuel
}

/// The values that the globals of a module hold when it starts.
pub fn initial_globals(globals: &Vec<GlobalSlot>) -> (values: Vec<u64>)
    ensures
        values@ == globals@.map_values(|slot: GlobalSlot| slot.initial_bits()),
{
    let mut values: Vec<u64> = Vec::new();
    let mut at: usize = 0;
    while at < globals.len()
        invariant
            at <= globals.len(),
            values@ == globals@.take(at as int).map_values(|slot: GlobalSlot| slot.initial_bits()),
        decreases globals.len() - at,
    {
        let bits = match globals[at].initial_value() {
            Operand::ConstInt { bits, .. } => bits,
            Operand::ConstF32 { bits } => bits as u64,
            Operand::ConstF64 { bits } => bits,
            _ => 0,
        };
        values.push(bits);
        at = at + 1;
    }
    assert(globals@.take(at as int) == globals@);
    values
}

/// Runs a lowered function of a module that has just started, so that
/// every global holds its initial value, for at most `fuel` instructions.
pub fn run_at_entry(
    function: &IrFunction,
    params: Vec<u64>,
    globals: &Vec<GlobalSlot>,
    fuel: u64,
) -> (outcome: Outcome)
    ensures
        outcome == Machine::entry(params@, globals@).run_from(function.code@, 0, 0, fuel as nat),
{
    run_function(function, params, initial_globals(globals), fuel)
}

} // verus!
