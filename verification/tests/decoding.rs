use todo_list_program::address::{derive_counter_address, derive_todo_address, u64_be_bytes};
use todo_list_program::error::TodoError;
use todo_list_program::instruction::TodoInstruction;

#[test]
fn unpack_initialize() {
    match TodoInstruction::unpack(&[0u8]).unwrap() {
        TodoInstruction::InitTodoList => {}
        _ => panic!("expected the initialize operation"),
    }
}

#[test]
fn unpack_append() {
    let mut data = vec![1u8];
    data.append(&mut borsh::to_vec("buy milk").unwrap());
    match TodoInstruction::unpack(&data).unwrap() {
        TodoInstruction::AddTodo { message } => assert_eq!(message, "buy milk"),
        _ => panic!("expected the append operation"),
    }
}

#[test]
fn unpack_mark() {
    let mut data = vec![2u8];
    data.append(&mut borsh::to_vec(&5u64).unwrap());
    match TodoInstruction::unpack(&data).unwrap() {
        TodoInstruction::MarkCompleted { index } => assert_eq!(index, 5),
        _ => panic!("expected the mark operation"),
    }
}

#[test]
fn unpack_rejects_garbage() {
    assert_eq!(TodoInstruction::unpack(&[]).unwrap_err(), TodoError::MalformedInstruction);
    assert_eq!(TodoInstruction::unpack(&[3u8]).unwrap_err(), TodoError::MalformedInstruction);
    // an append payload that is not a well-formed text
    assert_eq!(
        TodoInstruction::unpack(&[1u8, 200, 0, 0, 0]).unwrap_err(),
        TodoError::MalformedInstruction
    );
    // a mark payload of the wrong width
    assert_eq!(
        TodoInstruction::unpack(&[2u8, 1, 2, 3]).unwrap_err(),
        TodoError::MalformedInstruction
    );
}

#[test]
fn big_endian_bytes_exact() {
    assert_eq!(u64_be_bytes(0), vec![0u8; 8]);
    assert_eq!(
        u64_be_bytes(0x0102030405060708),
        vec![1u8, 2, 3, 4, 5, 6, 7, 8]
    );
    assert_eq!(u64_be_bytes(1), vec![0u8, 0, 0, 0, 0, 0, 0, 1]);
}

#[test]
fn derivation_matches_runtime() {
    let program_id = vec![9u8; 32];
    let owner = vec![7u8; 32];
    let pid = solana_program::pubkey::Pubkey::new_from_array([9u8; 32]);

    let (key, bump) = derive_counter_address(&owner, &program_id).unwrap();
    let (expected, expected_bump) =
        solana_program::pubkey::Pubkey::find_program_address(&[&owner], &pid);
    assert_eq!(key, expected.to_bytes().to_vec());
    assert_eq!(bump, expected_bump);

    let (key, bump) = derive_todo_address(&owner, 3, &program_id).unwrap();
    let (expected, expected_bump) = solana_program::pubkey::Pubkey::find_program_address(
        &[&owner, &3u64.to_be_bytes()],
        &pid,
    );
    assert_eq!(key, expected.to_bytes().to_vec());
    assert_eq!(bump, expected_bump);

    // different seed material gives different addresses
    let (counter_key, _) = derive_counter_address(&owner, &program_id).unwrap();
    let (todo_key, _) = derive_todo_address(&owner, 0, &program_id).unwrap();
    assert_ne!(counter_key, todo_key);
    assert_ne!(counter_key, owner);
}

#[test]
fn allocator_check_accepts_runtime_id() {
    // the runtime's own allocator address passes the genuine-allocator check
    let program_id = vec![9u8; 32];
    let owner = vec![7u8; 32];
    let (counter_key, _) = derive_counter_address(&owner, &program_id).unwrap();
    let runtime_allocator = solana_program::system_program::id().to_bytes().to_vec();
    let effect = todo_list_program::processor::init_todo_list(
        &program_id,
        &todo_list_program::processor::Account {
            key: owner.clone(),
            owner: vec![0u8; 32],
            is_signer: true,
            data: todo_list_program::processor::RegionData::Absent,
        },
        &todo_list_program::processor::Account {
            key: counter_key,
            owner: program_id.clone(),
            is_signer: false,
            data: todo_list_program::processor::RegionData::Absent,
        },
        &runtime_allocator,
    );
    assert_eq!(effect.unwrap().counter.count, 0);
}
