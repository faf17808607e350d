//! The lifecycle handlers: one per operation, each validating the supplied
//! account handles, then computing the records to persist and the sizing
//! of any region to create.
//!
//! A handler is a pure function of its inputs.  It never writes storage
//! itself: it returns the effect — the record values, the byte size of a
//! region to create, and the bump that authorizes the creation — and the
//! host performs the writes, atomically for the whole request.  Every
//! precondition is checked in order and the first failure aborts the
//! request, so a failed request has no effect at all.
//!
//! The allocator's own refusal to create a region that already exists is
//! part of the model: a handle carries whether its region exists, and a
//! creation on an existing region is rejected with `AccountAlreadyInUse`,
//! exactly as the runtime allocator reports it.

use crate::address::{
    derive_counter_address, derive_todo_address, spec_counter_pda, spec_system_program_id,
    spec_todo_pda, system_program_id,
};
use crate::codec::{bytes_eq, string_utf8_len, utf8_len};
use crate::error::TodoError;
use crate::instruction::{spec_unpack, InstructionV, TodoInstruction};
use crate::state::{
    counter_account_len, counter_tag, spec_counter_account_len, spec_counter_tag,
    spec_todo_account_len, spec_todo_tag, todo_tag, CounterV, TodoCounter, TodoState, TodoV,
};
use vstd::prelude::*;

verus! {

/// What a handler can read of a storage region's content.
#[derive(Debug)]
pub enum RegionData {
    /// No region exists at the address yet.
    Absent,
    /// The region holds a counter-shaped record.
    Counter(TodoCounter),
    /// The region holds a todo-shaped record.
    Todo(TodoState),
    /// The region exists but its content is not a record of this program.
    Unrecognized,
}

/// An account handle as a handler receives it: the address, the owning
/// program, whether the holder signed the request, and the region content.
#[derive(Debug)]
pub struct Account {
    pub key: Vec<u8>,
    pub owner: Vec<u8>,
    pub is_signer: bool,
    pub data: RegionData,
}

/// Mathematical model of a region's content.
pub enum RegionDataV {
    Absent,
    Counter(CounterV),
    Todo(TodoV),
    Unrecognized,
}

/// Mathematical model of an account handle.
pub struct AccountV {
    pub key: Seq<u8>,
    pub owner: Seq<u8>,
    pub is_signer: bool,
    pub data: RegionDataV,
}

impl View for RegionData {
    type V = RegionDataV;

    open spec fn view(&self) -> RegionDataV {
        match self {
            RegionData::Absent => RegionDataV::Absent,
            RegionData::Counter(record) => RegionDataV::Counter(record@),
            RegionData::Todo(record) => RegionDataV::Todo(record@),
            RegionData::Unrecognized => RegionDataV::Unrecognized,
        }
    }
}

impl View for Account {
    type V = AccountV;

    open spec fn view(&self) -> AccountV {
        AccountV {
            key: self.key@,
            owner: self.owner@,
            is_signer: self.is_signer,
            data: self.data@,
        }
    }
}

/// The effect of a successful `InitializeList`: create a counter region of
/// this size, authorized by this bump, and persist this record in it.
#[derive(Debug)]
pub struct InitEffect {
    pub counter_size: usize,
    pub bump: u8,
    pub counter: TodoCounter,
}

/// The effect of a successful `AppendItem`: create a todo region of this
/// size, authorized by this bump, persist the new todo record in it, and
/// persist the incremented counter record back in its region.
#[derive(Debug)]
pub struct AddEffect {
    pub todo_size: usize,
    pub todo_bump: u8,
    pub todo: TodoState,
    pub counter: TodoCounter,
}

/// The effect of a successful `MarkItemCompleted`: persist this record
/// back in the todo region.
#[derive(Debug)]
pub struct MarkEffect {
    pub todo: TodoState,
}

/// The effect of a successful request.
#[derive(Debug)]
pub enum Effect {
    Init(InitEffect),
    Add(AddEffect),
    Mark(MarkEffect),
}

/// Mathematical model of an `InitializeList` effect.
pub struct InitEffectV {
    pub counter_size: int,
    pub bump: u8,
    pub counter: CounterV,
}

/// Mathematical model of an `AppendItem` effect.
pub struct AddEffectV {
    pub todo_size: int,
    pub todo_bump: u8,
    pub todo: TodoV,
    pub counter: CounterV,
}

/// Mathematical model of a `MarkItemCompleted` effect.
pub struct MarkEffectV {
    pub todo: TodoV,
}

/// Mathematical model of a request's effect.
pub enum EffectV {
    Init(InitEffectV),
    Add(AddEffectV),
    Mark(MarkEffectV),
}

impl View for InitEffect {
    type V = InitEffectV;

    open spec fn view(&self) -> InitEffectV {
        InitEffectV {
            counter_size: self.counter_size as int,
            bump: self.bump,
            counter: self.counter@,
        }
    }
}

impl View for AddEffect {
    type V = AddEffectV;

    open spec fn view(&self) -> AddEffectV {
        AddEffectV {
            todo_size: self.todo_size as int,
            todo_bump: self.todo_bump,
            todo: self.todo@,
            counter: self.counter@,
        }
    }
}

impl View for MarkEffect {
    type V = MarkEffectV;

    open spec fn view(&self) -> MarkEffectV {
        MarkEffectV { todo: self.todo@ }
    }
}

impl View for Effect {
    type V = EffectV;

    open spec fn view(&self) -> EffectV {
        match self {
            Effect::Init(e) => EffectV::Init(e@),
            Effect::Add(e) => EffectV::Add(e@),
            Effect::Mark(e) => EffectV::Mark(e@),
        }
    }
}

/// The model of an `InitializeList` request: what it returns, for every
/// combination of inputs.
pub open spec fn init_spec(
    program_id: Seq<u8>,
    initializer: AccountV,
    counter: AccountV,
    allocator_key: Seq<u8>,
) -> Result<InitEffectV, TodoError> {
    if !initializer.is_signer {
        Err(TodoError::MissingSignature)
    } else if allocator_key != spec_system_program_id() {
        Err(TodoError::WrongAllocator)
    } else {
        match spec_counter_pda(initializer.key, program_id) {
            None => Err(TodoError::AddressMismatch),
            Some(derived) => if counter.key != derived.0 {
                Err(TodoError::AddressMismatch)
            } else if !(counter.data is Absent) {
                // the allocator refuses to create an existing region
                Err(TodoError::AccountAlreadyInUse)
            } else {
                Ok(
                    InitEffectV {
                        counter_size: spec_counter_account_len(),
                        bump: derived.1,
                        counter: CounterV {
                            discriminator: spec_counter_tag(),
                            is_initialized: true,
                            count: 0,
                        },
                    },
                )
            },
        }
    }
}

/// The model of an `AppendItem` request: what it returns, for every
/// combination of inputs with a representable new count.
pub open spec fn add_spec(
    program_id: Seq<u8>,
    initializer: AccountV,
    counter: AccountV,
    todo: AccountV,
    allocator_key: Seq<u8>,
    message: Seq<char>,
) -> Result<AddEffectV, TodoError> {
    if !initializer.is_signer {
        Err(TodoError::MissingSignature)
    } else if counter.owner != program_id {
        Err(TodoError::IllegalOwner)
    } else if allocator_key != spec_system_program_id() {
        Err(TodoError::WrongAllocator)
    } else {
        match spec_counter_pda(initializer.key, program_id) {
            None => Err(TodoError::AddressMismatch),
            Some(derived) => if counter.key != derived.0 {
                Err(TodoError::AddressMismatch)
            } else {
                match counter.data {
                    RegionDataV::Counter(record) => if record.discriminator
                        != spec_counter_tag() {
                        Err(TodoError::TypeMismatch)
                    } else if !record.is_initialized {
                        Err(TodoError::UninitializedAccount)
                    } else {
                        add_tail_spec(program_id, initializer, todo, message, record)
                    },
                    _ => Err(TodoError::TypeMismatch),
                }
            },
        }
    }
}

/// The tail of the `AppendItem` model, after the counter record has been
/// validated: derive the todo address from the current count, size the new
/// region from the message, and build both records to persist.
pub open spec fn add_tail_spec(
    program_id: Seq<u8>,
    initializer: AccountV,
    todo: AccountV,
    message: Seq<char>,
    record: CounterV,
) -> Result<AddEffectV, TodoError> {
    match spec_todo_pda(initializer.key, record.count, program_id) {
        None => Err(TodoError::AddressMismatch),
        Some(derived) => if todo.key != derived.0 {
            Err(TodoError::AddressMismatch)
        } else if spec_todo_account_len(message) > usize::MAX {
            Err(TodoError::MalformedInstruction)
        } else if !(todo.data is Absent) {
            // the allocator refuses to create an existing region
            Err(TodoError::AccountAlreadyInUse)
        } else {
            Ok(
                AddEffectV {
                    todo_size: spec_todo_account_len(message),
                    todo_bump: derived.1,
                    todo: TodoV {
                        discriminator: spec_todo_tag(),
                        is_initialized: true,
                        index: record.count,
                        message: message,
                        is_completed: false,
                    },
                    counter: CounterV {
                        discriminator: record.discriminator,
                        is_initialized: record.is_initialized,
                        count: (record.count + 1) as u64,
                    },
                },
            )
        },
    }
}

/// The model of a `MarkItemCompleted` request: what it returns, for every
/// combination of inputs.
pub open spec fn mark_spec(
    program_id: Seq<u8>,
    initializer: AccountV,
    counter: AccountV,
    todo: AccountV,
    index: u64,
) -> Result<MarkEffectV, TodoError> {
    if !initializer.is_signer {
        Err(TodoError::MissingSignature)
    } else if todo.owner != program_id {
        Err(TodoError::IllegalOwner)
    } else {
        match spec_todo_pda(initializer.key, index, program_id) {
            None => Err(TodoError::AddressMismatch),
            Some(derived) => if todo.key != derived.0 {
                Err(TodoError::AddressMismatch)
            } else {
                match todo.data {
                    RegionDataV::Todo(record) => if record.discriminator != spec_todo_tag() {
                        Err(TodoError::TypeMismatch)
                    } else if !record.is_initialized {
                        Err(TodoError::UninitializedAccount)
                    } else {
                        mark_tail_spec(program_id, initializer, counter, index, record)
                    },
                    _ => Err(TodoError::TypeMismatch),
                }
            },
        }
    }
}

/// The tail of the `MarkItemCompleted` model, after the todo record has
/// been validated: read the owner's count for the range check, then set
/// the completed flag and nothing else.
pub open spec fn mark_tail_spec(
    program_id: Seq<u8>,
    initializer: AccountV,
    counter: AccountV,
    index: u64,
    record: TodoV,
) -> Result<MarkEffectV, TodoError> {
    match spec_counter_pda(initializer.key, program_id) {
        None => Err(TodoError::AddressMismatch),
        Some(derived) => if counter.key != derived.0 {
            Err(TodoError::AddressMismatch)
        } else {
            match counter.data {
                RegionDataV::Counter(counter_record) => if counter_record.discriminator
                    != spec_counter_tag() {
                    Err(TodoError::TypeMismatch)
                } else if !counter_record.is_initialized {
                    Err(TodoError::UninitializedAccount)
                } else if index >= counter_record.count {
                    Err(TodoError::IndexOutOfRange)
                } else {
                    Ok(
                        MarkEffectV {
                            todo: TodoV {
                                discriminator: record.discriminator,
                                is_initialized: record.is_initialized,
                                index: record.index,
                                message: record.message,
                                is_completed: true,
                            },
                        },
                    )
                },
                _ => Err(TodoError::TypeMismatch),
            }
        },
    }
}

/// The model of a whole request: decode it, check that its account handles
/// were all supplied, and route to the operation's model.
pub open spec fn process_spec(
    program_id: Seq<u8>,
    accounts: Seq<AccountV>,
    input: Seq<u8>,
) -> Result<EffectV, TodoError> {
    match spec_unpack(input) {
        Err(e) => Err(e),
        Ok(InstructionV::Init) => if accounts.len() < 3 {
            Err(TodoError::MalformedInstruction)
        } else {
            match init_spec(program_id, accounts[0], accounts[1], accounts[2].key) {
                Ok(e) => Ok(EffectV::Init(e)),
                Err(x) => Err(x),
            }
        },
        Ok(InstructionV::Add(message)) => if accounts.len() < 4 {
            Err(TodoError::MalformedInstruction)
        } else {
            match add_spec(
                program_id,
                accounts[0],
                accounts[1],
                accounts[2],
                accounts[3].key,
                message,
            ) {
                Ok(e) => Ok(EffectV::Add(e)),
                Err(x) => Err(x),
            }
        },
        Ok(InstructionV::Mark(index)) => if accounts.len() < 3 {
            Err(TodoError::MalformedInstruction)
        } else {
            match mark_spec(program_id, accounts[0], accounts[1], accounts[2], index) {
                Ok(e) => Ok(EffectV::Mark(e)),
                Err(x) => Err(x),
            }
        },
    }
}

/// The model of a `Result` an `InitializeList` handler returns.
pub open spec fn res_init_view(r: Result<InitEffect, TodoError>) -> Result<
    InitEffectV,
    TodoError,
> {
    match r {
        Ok(e) => Ok(e@),
        Err(x) => Err(x),
    }
}

/// The model of a `Result` an `AppendItem` handler returns.
pub open spec fn res_add_view(r: Result<AddEffect, TodoError>) -> Result<AddEffectV, TodoError> {
    match r {
        Ok(e) => Ok(e@),
        Err(x) => Err(x),
    }
}

/// The model of a `Result` a `MarkItemCompleted` handler returns.
pub open spec fn res_mark_view(r: Result<MarkEffect, TodoError>) -> Result<
    MarkEffectV,
    TodoError,
> {
    match r {
        Ok(e) => Ok(e@),
        Err(x) => Err(x),
    }
}

/// The model of a `Result` the dispatcher returns.
pub open spec fn res_effect_view(r: Result<Effect, TodoError>) -> Result<EffectV, TodoError> {
    match r {
        Ok(e) => Ok(e@),
        Err(x) => Err(x),
    }
}

/// The models of the supplied account handles.
pub open spec fn spec_accounts_view(accounts: Seq<Account>) -> Seq<AccountV> {
    accounts.map_values(|a: Account| a@)
}

/// Every supplied counter record still has a representable next count.
pub open spec fn counts_in_range(accounts: Seq<AccountV>) -> bool {
    forall|i: int|
        0 <= i < accounts.len() ==> match #[trigger] accounts[i].data {
            RegionDataV::Counter(record) => record.count < u64::MAX,
            _ => true,
        }
}

/// Handles `InitializeList`: checks the signature, the allocator and the
/// counter region's address, and yields the sized, zero-count counter
/// record to persist in the newly created region.
pub fn init_todo_list(
    program_id: &Vec<u8>,
    initializer: &Account,
    counter: &Account,
    allocator_key: &Vec<u8>,
) -> (r: Result<InitEffect, TodoError>)
    requires
        program_id@.len() == 32,
    ensures
        res_init_view(r) == init_spec(program_id@, initializer@, counter@, allocator_key@),
{
    if !initializer.is_signer {
        return Err(TodoError::MissingSignature);
    }
    let genuine = system_program_id();
    if !bytes_eq(allocator_key, &genuine) {
        return Err(TodoError::WrongAllocator);
    }
    match derive_counter_address(&initializer.key, program_id) {
        None => Err(TodoError::AddressMismatch),
        Some((derived, bump)) => {
            if !bytes_eq(&counter.key, &derived) {
                return Err(TodoError::AddressMismatch);
            }
            match &counter.data {
                RegionData::Absent => Ok(
                    InitEffect {
                        counter_size: counter_account_len(),
                        bump,
                        counter: TodoCounter {
                            discriminator: counter_tag(),
                            is_initialized: true,
                            count: 0,
                        },
                    },
                ),
                _ => Err(TodoError::AccountAlreadyInUse),
            }
        },
    }
}

/// Handles `AppendItem`: checks the signature, ownership, the allocator
/// and both region addresses, validates the counter record, and yields the
/// sized new todo record together with the incremented counter record.
pub fn add_todo(
    program_id: &Vec<u8>,
    initializer: &Account,
    counter: &Account,
    todo: &Account,
    allocator_key: &Vec<u8>,
    message: String,
) -> (r: Result<AddEffect, TodoError>)
    requires
        program_id@.len() == 32,
        counter@.data matches RegionDataV::Counter(record) ==> record.count < u64::MAX,
    ensures
        res_add_view(r) == add_spec(
            program_id@,
            initializer@,
            counter@,
            todo@,
            allocator_key@,
            message@,
        ),
{
    if !initializer.is_signer {
        return Err(TodoError::MissingSignature);
    }
    if !bytes_eq(&counter.owner, program_id) {
        return Err(TodoError::IllegalOwner);
    }
    let genuine = system_program_id();
    if !bytes_eq(allocator_key, &genuine) {
        return Err(TodoError::WrongAllocator);
    }
    match derive_counter_address(&initializer.key, program_id) {
        None => Err(TodoError::AddressMismatch),
        Some((derived, _)) => {
            if !bytes_eq(&counter.key, &derived) {
                return Err(TodoError::AddressMismatch);
            }
            match &counter.data {
                RegionData::Counter(record) => {
                    let tag = counter_tag();
                    if !(record.discriminator == tag) {
                        return Err(TodoError::TypeMismatch);
                    }
                    if !record.is_initialized {
                        return Err(TodoError::UninitializedAccount);
                    }
                    match derive_todo_address(&initializer.key, record.count, program_id) {
                        None => Err(TodoError::AddressMismatch),
                        Some((todo_derived, todo_bump)) => {
                            if !bytes_eq(&todo.key, &todo_derived) {
                                return Err(TodoError::AddressMismatch);
                            }
                            let message_len = string_utf8_len(&message);
                            if message_len > usize::MAX - 22 {
                                return Err(TodoError::MalformedInstruction);
                            }
                            match &todo.data {
                                RegionData::Absent => Ok(
                                    AddEffect {
                                        todo_size: 22 + message_len,
                                        todo_bump,
                                        todo: TodoState {
                                            discriminator: todo_tag(),
                                            is_initialized: true,
                                            index: record.count,
                                            message,
                                            is_completed: false,
                                        },
                                        counter: TodoCounter {
                                            discriminator: record.discriminator.clone(),
                                            is_initialized: record.is_initialized,
                                            count: record.count + 1,
                                        },
                                    },
                                ),
                                _ => Err(TodoError::AccountAlreadyInUse),
                            }
                        },
                    }
                },
                _ => Err(TodoError::TypeMismatch),
            }
        },
    }
}

/// Handles `MarkItemCompleted`: checks the signature, ownership and both
/// region addresses, validates both records and the index range, and
/// yields the todo record with its completed flag set and no other field
/// changed.
pub fn mark_completed(
    program_id: &Vec<u8>,
    initializer: &Account,
    counter: &Account,
    todo: &Account,
    index: u64,
) -> (r: Result<MarkEffect, TodoError>)
    requires
        program_id@.len() == 32,
    ensures
        res_mark_view(r) == mark_spec(program_id@, initializer@, counter@, todo@, index),
{
    if !initializer.is_signer {
        return Err(TodoError::MissingSignature);
    }
    if !bytes_eq(&todo.owner, program_id) {
        return Err(TodoError::IllegalOwner);
    }
    match derive_todo_address(&initializer.key, index, program_id) {
        None => Err(TodoError::AddressMismatch),
        Some((todo_derived, _)) => {
            if !bytes_eq(&todo.key, &todo_derived) {
                return Err(TodoError::AddressMismatch);
            }
            match &todo.data {
                RegionData::Todo(record) => {
                    let tag = todo_tag();
                    if !(record.discriminator == tag) {
                        return Err(TodoError::TypeMismatch);
                    }
                    if !record.is_initialized {
                        return Err(TodoError::UninitializedAccount);
                    }
                    match derive_counter_address(&initializer.key, program_id) {
                        None => Err(TodoError::AddressMismatch),
                        Some((derived, _)) => {
                            if !bytes_eq(&counter.key, &derived) {
                                return Err(TodoError::AddressMismatch);
                            }
                            match &counter.data {
                                RegionData::Counter(counter_record) => {
                                    let counter_tag_value = counter_tag();
                                    if !(counter_record.discriminator == counter_tag_value) {
                                        return Err(TodoError::TypeMismatch);
                                    }
                                    if !counter_record.is_initialized {
                                        return Err(TodoError::UninitializedAccount);
                                    }
                                    if index >= counter_record.count {
                                        return Err(TodoError::IndexOutOfRange);
                                    }
                                    Ok(
                                        MarkEffect {
                                            todo: TodoState {
                                                discriminator: record.discriminator.clone(),
                                                is_initialized: record.is_initialized,
                                                index: record.index,
                                                message: record.message.clone(),
                                                is_completed: true,
                                            },
                                        },
                                    )
                                },
                                _ => Err(TodoError::TypeMismatch),
                            }
                        },
                    }
                },
                _ => Err(TodoError::TypeMismatch),
            }
        },
    }
}

/// Decodes a request and routes it to its handler with the account handles
/// each operation expects, in order.
pub fn process_instruction(
    program_id: &Vec<u8>,
    accounts: &Vec<Account>,
    instruction_data: &[u8],
) -> (r: Result<Effect, TodoError>)
    requires
        program_id@.len() == 32,
        counts_in_range(spec_accounts_view(accounts@)),
    ensures
        res_effect_view(r) == process_spec(
            program_id@,
            spec_accounts_view(accounts@),
            instruction_data@,
        ),
{
    match TodoInstruction::unpack(instruction_data) {
        Err(e) => Err(e),
        Ok(TodoInstruction::InitTodoList) => {
            if accounts.len() < 3 {
                return Err(TodoError::MalformedInstruction);
            }
            match init_todo_list(program_id, &accounts[0], &accounts[1], &accounts[2].key) {
                Ok(e) => Ok(Effect::Init(e)),
                Err(x) => Err(x),
            }
        },
        Ok(TodoInstruction::AddTodo { message }) => {
            if accounts.len() < 4 {
                return Err(TodoError::MalformedInstruction);
            }
            match add_todo(
                program_id,
                &accounts[0],
                &accounts[1],
                &accounts[2],
                &accounts[3].key,
                message,
            ) {
                Ok(e) => Ok(Effect::Add(e)),
                Err(x) => Err(x),
            }
        },
        Ok(TodoInstruction::MarkCompleted { index }) => {
            if accounts.len() < 3 {
                return Err(TodoError::MalformedInstruction);
            }
            match mark_completed(program_id, &accounts[0], &accounts[1], &accounts[2], index) {
                Ok(e) => Ok(Effect::Mark(e)),
                Err(x) => Err(x),
            }
        },
    }
}

} // verus!
