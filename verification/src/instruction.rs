//! The request dispatcher's decoding step: an opaque request is one tag
//! byte that selects the operation, followed by an operation-specific
//! payload decoded by the serialization collaborator.  Anything
//! unrecognized rejects the whole request.

use crate::codec::{decode_string, decode_u64, decoded_text};
use crate::error::TodoError;
use vstd::bytes::spec_u64_from_le_bytes;
use vstd::prelude::*;
use vstd::slice::slice_subrange;

verus! {

/// One decoded operation.
#[derive(Debug)]
pub enum TodoInstruction {
    /// Create the owner's counter region (tag 0, no payload).
    InitTodoList,
    /// Append one item with this message (tag 1, text payload).
    AddTodo { message: String },
    /// Set the completed flag of the item at this index (tag 2,
    /// unsigned 64-bit payload).
    MarkCompleted { index: u64 },
}

/// Mathematical model of a decoded operation.
pub enum InstructionV {
    Init,
    Add(Seq<char>),
    Mark(u64),
}

impl View for TodoInstruction {
    type V = InstructionV;

    open spec fn view(&self) -> InstructionV {
        match self {
            TodoInstruction::InitTodoList => InstructionV::Init,
            TodoInstruction::AddTodo { message } => InstructionV::Add(message@),
            TodoInstruction::MarkCompleted { index } => InstructionV::Mark(*index),
        }
    }
}

/// What decoding a request yields: the first byte selects the operation,
/// the rest is its payload.  An empty request, an unknown tag, or a
/// payload the collaborator cannot decode is rejected whole.
pub open spec fn spec_unpack(input: Seq<u8>) -> Result<InstructionV, TodoError> {
    if input.len() == 0 {
        Err(TodoError::MalformedInstruction)
    } else if input[0] == 0 {
        Ok(InstructionV::Init)
    } else if input[0] == 1 {
        match decoded_text(input.skip(1)) {
            Some(message) => Ok(InstructionV::Add(message)),
            None => Err(TodoError::MalformedInstruction),
        }
    } else if input[0] == 2 {
        if input.len() == 9 {
            Ok(InstructionV::Mark(spec_u64_from_le_bytes(input.skip(1))))
        } else {
            Err(TodoError::MalformedInstruction)
        }
    } else {
        Err(TodoError::MalformedInstruction)
    }
}

impl TodoInstruction {
    /// Decodes a request into the operation it selects.
    pub fn unpack(input: &[u8]) -> (r: Result<TodoInstruction, TodoError>)
        ensures
            match r {
                Ok(instruction) => spec_unpack(input@) == Ok::<InstructionV, TodoError>(
                    instruction@,
                ),
                Err(e) => spec_unpack(input@) == Err::<InstructionV, TodoError>(e),
            },
    {
        if input.len() == 0 {
            return Err(TodoError::MalformedInstruction);
        }
        let tag = input[0];
        let rest = slice_subrange(input, 1, input.len());
        if tag == 0 {
            Ok(TodoInstruction::InitTodoList)
        } else if tag == 1 {
            match decode_string(rest) {
                Some(message) => Ok(TodoInstruction::AddTodo { message }),
                None => Err(TodoError::MalformedInstruction),
            }
        } else if tag == 2 {
            match decode_u64(rest) {
                Some(index) => Ok(TodoInstruction::MarkCompleted { index }),
                None => Err(TodoError::MalformedInstruction),
            }
        } else {
            Err(TodoError::MalformedInstruction)
        }
    }
}

} // verus!
