//! The laws of the lifecycle, stated over the handler models and proved
//! once for all owners, messages and indices.

use crate::address::{spec_counter_pda, spec_system_program_id, spec_todo_pda};
use crate::error::TodoError;
use crate::processor::{
    add_spec, init_spec, mark_spec, AccountV, AddEffectV, InitEffectV, MarkEffectV, RegionDataV,
};
use crate::state::{
    spec_counter_account_len, spec_counter_tag, spec_todo_account_len, spec_todo_tag, CounterV,
    TodoV,
};
use vstd::prelude::*;

verus! {

/// The counter record of an owner whose list holds `n` items.
pub open spec fn counter_after(n: u64) -> CounterV {
    CounterV { discriminator: spec_counter_tag(), is_initialized: true, count: n }
}

/// The todo record a successful append creates at `index` with `message`.
pub open spec fn todo_item(index: u64, message: Seq<char>) -> TodoV {
    TodoV {
        discriminator: spec_todo_tag(),
        is_initialized: true,
        index,
        message,
        is_completed: false,
    }
}

/// A todo record with its completed flag set and no other field changed.
pub open spec fn completed(record: TodoV) -> TodoV {
    TodoV {
        discriminator: record.discriminator,
        is_initialized: record.is_initialized,
        index: record.index,
        message: record.message,
        is_completed: true,
    }
}

/// The supplied key is the derived address of the owner's counter region.
pub open spec fn counter_key_matches(owner: Seq<u8>, key: Seq<u8>, program_id: Seq<u8>) -> bool {
    match spec_counter_pda(owner, program_id) {
        Some(derived) => key == derived.0,
        None => false,
    }
}

/// The supplied key is the derived address of the owner's todo region at
/// `index`.
pub open spec fn todo_key_matches(
    owner: Seq<u8>,
    index: u64,
    key: Seq<u8>,
    program_id: Seq<u8>,
) -> bool {
    match spec_todo_pda(owner, index, program_id) {
        Some(derived) => key == derived.0,
        None => false,
    }
}

/// Law: for every owner, the first `InitializeList` succeeds and yields
/// the counter record with count zero and the initialized flag set; a
/// second one for the same owner finds the region in use and fails with
/// `AccountAlreadyInUse`.
pub proof fn lemma_initialize_list_once(
    program_id: Seq<u8>,
    initializer: AccountV,
    counter: AccountV,
    again: AccountV,
    allocator_key: Seq<u8>,
)
    requires
        initializer.is_signer,
        allocator_key == spec_system_program_id(),
        counter_key_matches(initializer.key, counter.key, program_id),
        counter.data is Absent,
        again.key == counter.key,
        !(again.data is Absent),
    ensures
        init_spec(program_id, initializer, counter, allocator_key) matches Ok(e)
            && e.counter == counter_after(0) && e.counter_size == spec_counter_account_len()
            && e.bump == spec_counter_pda(initializer.key, program_id).unwrap().1,
        init_spec(program_id, initializer, again, allocator_key) == Err::<
            InitEffectV,
            TodoError,
        >(TodoError::AccountAlreadyInUse),
{
}

/// Law: for every owner with an initialized counter, appending messages in
/// order places the record of the `i`-th message at index `i`, not yet
/// completed, and leaves the count at `i + 1`; so `n` appends from a fresh
/// list yield the records at indices `0..n` and a count of `n`.
pub proof fn lemma_append_item_sequence(
    program_id: Seq<u8>,
    initializer: AccountV,
    counter: AccountV,
    todo: AccountV,
    allocator_key: Seq<u8>,
    messages: Seq<Seq<char>>,
    i: int,
)
    requires
        0 <= i < messages.len(),
        messages.len() <= u64::MAX,
        initializer.is_signer,
        counter.owner == program_id,
        allocator_key == spec_system_program_id(),
        counter_key_matches(initializer.key, counter.key, program_id),
        counter.data == RegionDataV::Counter(counter_after(i as u64)),
        todo_key_matches(initializer.key, i as u64, todo.key, program_id),
        todo.data is Absent,
        spec_todo_account_len(messages[i]) <= usize::MAX,
    ensures
        add_spec(program_id, initializer, counter, todo, allocator_key, messages[i]) matches Ok(e)
            && e.todo == todo_item(i as u64, messages[i]) && e.counter == counter_after(
            (i + 1) as u64,
        ) && e.todo_size == spec_todo_account_len(messages[i]) && e.todo_bump == spec_todo_pda(
            initializer.key,
            i as u64,
            program_id,
        ).unwrap().1,
{
}

/// Law: an append for an owner whose counter region does not exist, or
/// exists but was never initialized, is rejected: a missing region is not
/// owned by this program (`IllegalOwner`), and a region whose record has
/// the initialized flag unset is `UninitializedAccount`.
pub proof fn lemma_append_before_initialize(
    program_id: Seq<u8>,
    initializer: AccountV,
    counter: AccountV,
    todo: AccountV,
    allocator_key: Seq<u8>,
    message: Seq<char>,
)
    requires
        initializer.is_signer,
    ensures
        counter.owner != program_id ==> add_spec(
            program_id,
            initializer,
            counter,
            todo,
            allocator_key,
            message,
        ) == Err::<AddEffectV, TodoError>(TodoError::IllegalOwner),
        (counter.owner == program_id && allocator_key == spec_system_program_id()
            && counter_key_matches(initializer.key, counter.key, program_id) && (
        counter.data matches RegionDataV::Counter(record) && record.discriminator
            == spec_counter_tag() && !record.is_initialized)) ==> add_spec(
            program_id,
            initializer,
            counter,
            todo,
            allocator_key,
            message,
        ) == Err::<AddEffectV, TodoError>(TodoError::UninitializedAccount),
{
}

/// Law: marking an item below the count succeeds, sets the completed flag
/// and changes nothing else; marking it a second time succeeds too and
/// leaves the very same record, so the operation is idempotent.
pub proof fn lemma_mark_completed_idempotent(
    program_id: Seq<u8>,
    initializer: AccountV,
    counter: AccountV,
    todo: AccountV,
    index: u64,
)
    requires
        initializer.is_signer,
        todo.owner == program_id,
        todo_key_matches(initializer.key, index, todo.key, program_id),
        todo.data matches RegionDataV::Todo(record) && record.discriminator == spec_todo_tag()
            && record.is_initialized,
        counter_key_matches(initializer.key, counter.key, program_id),
        counter.data matches RegionDataV::Counter(counter_record) && counter_record.discriminator
            == spec_counter_tag() && counter_record.is_initialized && index < counter_record.count,
    ensures
        mark_spec(program_id, initializer, counter, todo, index) matches Ok(e) && e.todo
            == completed(todo.data->Todo_0),
        mark_spec(
            program_id,
            initializer,
            counter,
            AccountV {
                key: todo.key,
                owner: todo.owner,
                is_signer: todo.is_signer,
                data: RegionDataV::Todo(completed(todo.data->Todo_0)),
            },
            index,
        ) == Ok::<MarkEffectV, TodoError>(
            MarkEffectV { todo: completed(todo.data->Todo_0) },
        ),
{
}

/// Law: marking an item at or above the owner's count fails with
/// `IndexOutOfRange`.
pub proof fn lemma_mark_completed_out_of_range(
    program_id: Seq<u8>,
    initializer: AccountV,
    counter: AccountV,
    todo: AccountV,
    index: u64,
)
    requires
        initializer.is_signer,
        todo.owner == program_id,
        todo_key_matches(initializer.key, index, todo.key, program_id),
        todo.data matches RegionDataV::Todo(record) && record.discriminator == spec_todo_tag()
            && record.is_initialized,
        counter_key_matches(initializer.key, counter.key, program_id),
        counter.data matches RegionDataV::Counter(counter_record) && counter_record.discriminator
            == spec_counter_tag() && counter_record.is_initialized && index
            >= counter_record.count,
    ensures
        mark_spec(program_id, initializer, counter, todo, index) == Err::<
            MarkEffectV,
            TodoError,
        >(TodoError::IndexOutOfRange),
{
}

/// Law: a handle whose address is not the derived address for the owner
/// (and, for a todo region, the index) is rejected with `AddressMismatch`,
/// whatever the region holds.
pub proof fn lemma_address_mismatch(
    program_id: Seq<u8>,
    initializer: AccountV,
    counter: AccountV,
    todo: AccountV,
    allocator_key: Seq<u8>,
    message: Seq<char>,
    index: u64,
)
    requires
        initializer.is_signer,
    ensures
        (allocator_key == spec_system_program_id() && !counter_key_matches(
            initializer.key,
            counter.key,
            program_id,
        )) ==> init_spec(program_id, initializer, counter, allocator_key) == Err::<
            InitEffectV,
            TodoError,
        >(TodoError::AddressMismatch),
        (counter.owner == program_id && allocator_key == spec_system_program_id()
            && !counter_key_matches(initializer.key, counter.key, program_id)) ==> add_spec(
            program_id,
            initializer,
            counter,
            todo,
            allocator_key,
            message,
        ) == Err::<AddEffectV, TodoError>(TodoError::AddressMismatch),
        (counter.owner == program_id && allocator_key == spec_system_program_id()
            && counter_key_matches(initializer.key, counter.key, program_id) && (
        counter.data matches RegionDataV::Counter(record) && record.discriminator
            == spec_counter_tag() && record.is_initialized && !todo_key_matches(
            initializer.key,
            record.count,
            todo.key,
            program_id,
        ))) ==> add_spec(program_id, initializer, counter, todo, allocator_key, message) == Err::<
            AddEffectV,
            TodoError,
        >(TodoError::AddressMismatch),
        (todo.owner == program_id && !todo_key_matches(
            initializer.key,
            index,
            todo.key,
            program_id,
        )) ==> mark_spec(program_id, initializer, counter, todo, index) == Err::<
            MarkEffectV,
            TodoError,
        >(TodoError::AddressMismatch),
{
}

} // verus!
