use todo_list_program::error::TodoError;
use todo_list_program::processor::{
    add_todo, init_todo_list, mark_completed, Account, RegionData,
};
use todo_list_program::state::TodoCounter;

fn program_id() -> Vec<u8> {
    vec![9u8; 32]
}

fn owner_key() -> Vec<u8> {
    vec![7u8; 32]
}

fn allocator_key() -> Vec<u8> {
    vec![0u8; 32]
}

fn signer(key: Vec<u8>) -> Account {
    Account { key, owner: vec![0u8; 32], is_signer: true, data: RegionData::Absent }
}

fn non_signer(key: Vec<u8>) -> Account {
    Account { key, owner: vec![0u8; 32], is_signer: false, data: RegionData::Absent }
}

fn counter_key() -> Vec<u8> {
    todo_list_program::address::derive_counter_address(&owner_key(), &program_id()).unwrap().0
}

fn todo_key(index: u64) -> Vec<u8> {
    todo_list_program::address::derive_todo_address(&owner_key(), index, &program_id())
        .unwrap()
        .0
}

fn counter_account(data: RegionData) -> Account {
    Account { key: counter_key(), owner: program_id(), is_signer: false, data }
}

fn todo_account(index: u64, data: RegionData) -> Account {
    Account { key: todo_key(index), owner: program_id(), is_signer: false, data }
}

fn counter_record(count: u64) -> TodoCounter {
    TodoCounter { discriminator: "counter".to_owned(), is_initialized: true, count }
}

fn todo_record(index: u64) -> todo_list_program::state::TodoState {
    todo_list_program::state::TodoState {
        discriminator: "todo".to_owned(),
        is_initialized: true,
        index,
        message: "x".to_owned(),
        is_completed: false,
    }
}

#[test]
fn initialize_without_signature_fails() {
    let r = init_todo_list(
        &program_id(),
        &non_signer(owner_key()),
        &counter_account(RegionData::Absent),
        &allocator_key(),
    );
    assert_eq!(r.unwrap_err(), TodoError::MissingSignature);
}

#[test]
fn initialize_with_wrong_allocator_fails() {
    let r = init_todo_list(
        &program_id(),
        &signer(owner_key()),
        &counter_account(RegionData::Absent),
        &vec![1u8; 32],
    );
    assert_eq!(r.unwrap_err(), TodoError::WrongAllocator);
}

#[test]
fn initialize_with_wrong_address_fails() {
    let mut wrong = counter_key();
    wrong[0] = wrong[0].wrapping_add(1);
    let account = Account {
        key: wrong,
        owner: program_id(),
        is_signer: false,
        data: RegionData::Absent,
    };
    let r = init_todo_list(&program_id(), &signer(owner_key()), &account, &allocator_key());
    assert_eq!(r.unwrap_err(), TodoError::AddressMismatch);
}

#[test]
fn append_with_foreign_counter_owner_fails() {
    let account = Account {
        key: counter_key(),
        owner: vec![8u8; 32],
        is_signer: false,
        data: RegionData::Counter(counter_record(0)),
    };
    let r = add_todo(
        &program_id(),
        &signer(owner_key()),
        &account,
        &todo_account(0, RegionData::Absent),
        &allocator_key(),
        "a".to_owned(),
    );
    assert_eq!(r.unwrap_err(), TodoError::IllegalOwner);
}

#[test]
fn append_to_uninitialized_counter_fails() {
    let record = TodoCounter {
        discriminator: "counter".to_owned(),
        is_initialized: false,
        count: 0,
    };
    let r = add_todo(
        &program_id(),
        &signer(owner_key()),
        &counter_account(RegionData::Counter(record)),
        &todo_account(0, RegionData::Absent),
        &allocator_key(),
        "a".to_owned(),
    );
    assert_eq!(r.unwrap_err(), TodoError::UninitializedAccount);
}

#[test]
fn append_with_foreign_record_fails() {
    let r = add_todo(
        &program_id(),
        &signer(owner_key()),
        &counter_account(RegionData::Unrecognized),
        &todo_account(0, RegionData::Absent),
        &allocator_key(),
        "a".to_owned(),
    );
    assert_eq!(r.unwrap_err(), TodoError::TypeMismatch);
}

#[test]
fn append_with_wrong_tag_fails() {
    let record = TodoCounter {
        discriminator: "todo".to_owned(),
        is_initialized: true,
        count: 0,
    };
    let r = add_todo(
        &program_id(),
        &signer(owner_key()),
        &counter_account(RegionData::Counter(record)),
        &todo_account(0, RegionData::Absent),
        &allocator_key(),
        "a".to_owned(),
    );
    assert_eq!(r.unwrap_err(), TodoError::TypeMismatch);
}

#[test]
fn append_with_wrong_todo_address_fails() {
    // the todo handle is derived for index 5, the count says index 0
    let r = add_todo(
        &program_id(),
        &signer(owner_key()),
        &counter_account(RegionData::Counter(counter_record(0))),
        &todo_account(5, RegionData::Absent),
        &allocator_key(),
        "a".to_owned(),
    );
    assert_eq!(r.unwrap_err(), TodoError::AddressMismatch);
}

#[test]
fn append_before_initialize_fails() {
    // no region was created yet, so the handle is still owned by the
    // allocator, not by this program
    let account = Account {
        key: counter_key(),
        owner: allocator_key(),
        is_signer: false,
        data: RegionData::Absent,
    };
    let r = add_todo(
        &program_id(),
        &signer(owner_key()),
        &account,
        &todo_account(0, RegionData::Absent),
        &allocator_key(),
        "a".to_owned(),
    );
    assert_eq!(r.unwrap_err(), TodoError::IllegalOwner);
}

#[test]
fn dispatch_with_missing_handles_fails() {
    let accounts = vec![signer(owner_key())];
    let r = todo_list_program::processor::process_instruction(&program_id(), &accounts, &[0u8]);
    assert_eq!(r.unwrap_err(), TodoError::MalformedInstruction);
}

#[test]
fn mark_out_of_range_fails() {
    let r = mark_completed(
        &program_id(),
        &signer(owner_key()),
        &counter_account(RegionData::Counter(counter_record(2))),
        &todo_account(2, RegionData::Todo(todo_record(2))),
        2,
    );
    assert_eq!(r.unwrap_err(), TodoError::IndexOutOfRange);
}

#[test]
fn mark_with_foreign_todo_owner_fails() {
    let account = Account {
        key: todo_key(0),
        owner: vec![8u8; 32],
        is_signer: false,
        data: RegionData::Todo(todo_record(0)),
    };
    let r = mark_completed(
        &program_id(),
        &signer(owner_key()),
        &counter_account(RegionData::Counter(counter_record(1))),
        &account,
        0,
    );
    assert_eq!(r.unwrap_err(), TodoError::IllegalOwner);
}

#[test]
fn mark_with_wrong_todo_address_fails() {
    let mut wrong = todo_key(0);
    wrong[5] = wrong[5].wrapping_add(1);
    let account = Account {
        key: wrong,
        owner: program_id(),
        is_signer: false,
        data: RegionData::Todo(todo_record(0)),
    };
    let r = mark_completed(
        &program_id(),
        &signer(owner_key()),
        &counter_account(RegionData::Counter(counter_record(1))),
        &account,
        0,
    );
    assert_eq!(r.unwrap_err(), TodoError::AddressMismatch);
}
