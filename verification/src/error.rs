use crate::names::append_decimal;
use vstd::prelude::*;
use vstd::string::*;

verus! {

/// Why the shape of a module or a function makes lowering impossible.
#[allow(inconsistent_fields)]
#[derive(Clone, Copy, Debug, PartialEq, Eq, Structural)]
pub enum StructuralError {
    /// A function type declares more than one result.
    MultipleResults,
    /// The module declares more than one linear memory.
    MultipleMemories,
    /// The initial size of the memory does not fit the backing region.
    MemoryTooLarge,
    /// A memory operator is used in a module without a memory.
    NoMemory,
    /// A parameter, a result, a local or a global is of a type that is not
    /// numeric.
    UnsupportedType,
    /// A local index names neither a parameter nor a declared local.
    InvalidLocalIndex { index: u32 },
    /// A store targets a parameter, which has no cell.
    LocalNotAssignable { index: u32 },
    /// A global index names no global of the module.
    InvalidGlobalIndex { index: u32 },
    /// A branch names a relative depth with no enclosing frame.
    InvalidBranchDepth { depth: u32 },
}

/// The ways in which lowering fails.  Any failure aborts the whole module.
#[allow(inconsistent_fields)]
#[derive(Clone, Copy, Debug, PartialEq, Eq, Structural)]
pub enum CompileError {
    /// The module or function is malformed.
    StructuralError(StructuralError),
    /// An operator needs more operands than the operand stack holds.
    StackUnderflow,
    /// A call names the function at the position `index` among the functions
    /// of the module, which is beyond the last.
    UnknownFunction { index: u32 },
    /// The operator is outside the modeled set.
    UnsupportedOperator { opcode: u32 },
}

impl CompileError {
    /// The text that [`CompileError::message`] returns.
    pub open spec fn message_text(&self) -> Seq<char> {
        match self {
            CompileError::StructuralError(e) => match e {
                StructuralError::MultipleResults => "Multiple return values not supported"@,
                StructuralError::MultipleMemories => "Multiple memories not supported"@,
                StructuralError::MemoryTooLarge => "Memory too large"@,
                StructuralError::NoMemory => "No memory allocated"@,
                StructuralError::UnsupportedType => "Unsupported value type"@,
                StructuralError::InvalidLocalIndex { .. } => "Invalid local index: "@,
                StructuralError::LocalNotAssignable { .. } => "Cannot set non-pointer local: "@,
                StructuralError::InvalidGlobalIndex { .. } => "Invalid global index: "@,
                StructuralError::InvalidBranchDepth { .. } => "Invalid branch depth: "@,
            },
            CompileError::StackUnderflow => "Stack underflow"@,
            CompileError::UnknownFunction { .. } => "Unknown function: "@,
            CompileError::UnsupportedOperator { .. } => "Unsupported operator: "@,
        }
    }

    /// The number that the failure is about, if there is one.
    pub open spec fn subject(&self) -> Option<u32> {
        match self {
            CompileError::StructuralError(e) => match e {
                StructuralError::InvalidLocalIndex { index } => Some(*index),
                StructuralError::LocalNotAssignable { index } => Some(*index),
                StructuralError::InvalidGlobalIndex { index } => Some(*index),
                StructuralError::InvalidBranchDepth { depth } => Some(*depth),
                _ => None,
            },
            CompileError::StackUnderflow => None,
            CompileError::UnknownFunction { index } => Some(*index),
            CompileError::UnsupportedOperator { opcode } => Some(*opcode),
        }
    }

    /// The text that [`CompileError::describe`] returns: the message,
    /// followed by the number that the failure is about, if there is one.
    pub open spec fn description(&self) -> Seq<char> {
        match self.subject() {
            Some(n) => self.message_text() + crate::names::decimal(n as nat),
            None => self.message_text(),
        }
    }

    /// What has failed, without the number that the failure is about.
    pub fn message(&self) -> (text: &'static str)
        ensures
            text@ == self.message_text(),
    {
        match self {
            CompileError::StructuralError(e) => match e {
                StructuralError::MultipleResults => "Multiple return values not supported",
                StructuralError::MultipleMemories => "Multiple memories not supported",
                StructuralError::MemoryTooLarge => "Memory too large",
                StructuralError::NoMemory => "No memory allocated",
                StructuralError::UnsupportedType => "Unsupported value type",
                StructuralError::InvalidLocalIndex { .. } => "Invalid local index: ",
                StructuralError::LocalNotAssignable { .. } => "Cannot set non-pointer local: ",
                StructuralError::InvalidGlobalIndex { .. } => "Invalid global index: ",
                StructuralError::InvalidBranchDepth { .. } => "Invalid branch depth: ",
            },
            CompileError::StackUnderflow => "Stack underflow",
            CompileError::UnknownFunction { .. } => "Unknown function: ",
            CompileError::UnsupportedOperator { .. } => "Unsupported operator: ",
        }
    }

    /// A description of the failure.
    pub fn describe(&self) -> (text: String)
        ensures
            text@ == self.description(),
    {
        let mut text = String::from_str(self.message());
        let subject = match self {
            CompileError::StructuralError(e) => match e {
                StructuralError::InvalidLocalIndex { index } => Some(*index),
                StructuralError::LocalNotAssignable { index } => Some(*index),
                StructuralError::InvalidGlobalIndex { index } => Some(*index),
                StructuralError::InvalidBranchDepth { depth } => Some(*depth),
                _ => None,
            },
            CompileError::StackUnderflow => None,
            CompileError::UnknownFunction { index } => Some(*index),
            CompileError::UnsupportedOperator { opcode } => Some(*opcode),
        };
        match subject {
            Some(n) => {
                append_decimal(&mut text, n);
            },
            None => {},
        }
        text
    }
}

} // verus!
