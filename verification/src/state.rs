//! The two record shapes that live in runtime-managed storage regions, and
//! the byte-length rules used to size a new region.
//!
//! A region's content is a tagged record: a length-prefixed discriminator
//! string, an initialized flag, and the record's own fields.  The region's
//! byte size is fixed at creation from the payload present then, so the size
//! of a todo region is computed per request from the actual message length.

use vstd::prelude::*;

use crate::codec::utf8_len;

verus! {

/// The per-owner counter record: how many items were ever appended.
#[derive(Debug)]
pub struct TodoCounter {
    /// Type tag; always the counter tag on a valid record.
    pub discriminator: String,
    pub is_initialized: bool,
    pub count: u64,
}

/// One todo item, stored at the region derived from (owner, index).
#[derive(Debug)]
pub struct TodoState {
    /// Type tag; always the todo tag on a valid record.
    pub discriminator: String,
    pub is_initialized: bool,
    /// Assigned at creation from the counter's value at that moment.
    pub index: u64,
    pub message: String,
    pub is_completed: bool,
}

/// Mathematical model of a counter record.
pub struct CounterV {
    pub discriminator: Seq<char>,
    pub is_initialized: bool,
    pub count: u64,
}

/// Mathematical model of a todo record.
pub struct TodoV {
    pub discriminator: Seq<char>,
    pub is_initialized: bool,
    pub index: u64,
    pub message: Seq<char>,
    pub is_completed: bool,
}

impl View for TodoCounter {
    type V = CounterV;

    open spec fn view(&self) -> CounterV {
        CounterV {
            discriminator: self.discriminator@,
            is_initialized: self.is_initialized,
            count: self.count,
        }
    }
}

impl View for TodoState {
    type V = TodoV;

    open spec fn view(&self) -> TodoV {
        TodoV {
            discriminator: self.discriminator@,
            is_initialized: self.is_initialized,
            index: self.index,
            message: self.message@,
            is_completed: self.is_completed,
        }
    }
}

/// The counter record's type tag.
pub open spec fn spec_counter_tag() -> Seq<char> {
    "counter"@
}

/// The todo record's type tag.
pub open spec fn spec_todo_tag() -> Seq<char> {
    "todo"@
}

/// The counter record's type tag, as a value a record can hold.
pub fn counter_tag() -> (s: String)
    ensures
        s@ == spec_counter_tag(),
{
    "counter".to_owned()
}

/// The todo record's type tag, as a value a record can hold.
pub fn todo_tag() -> (s: String)
    ensures
        s@ == spec_todo_tag(),
{
    "todo".to_owned()
}

/// Byte size of a counter region: a 4-byte length prefix and the 7 tag
/// bytes, 1 flag byte, and 8 count bytes.
pub open spec fn spec_counter_account_len() -> int {
    (4 + 7 + 1 + 8) as int
}

/// Byte size of a todo region holding a message of `message_bytes` bytes:
/// a 4-byte length prefix and the 4 tag bytes, 1 flag byte, 8 index bytes,
/// a 4-byte length prefix and the message bytes, and 1 completed byte.
pub open spec fn spec_todo_account_len(message: Seq<char>) -> int {
    4 + 4 + 1 + 8 + 4 + utf8_len(message) as int + 1
}

/// Computes the byte size needed for one counter record.
pub fn counter_account_len() -> (n: usize)
    ensures
        n == spec_counter_account_len(),
{
    4 + 7 + 1 + 8
}

} // verus!
