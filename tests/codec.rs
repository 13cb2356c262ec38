use echo_program::codec::{push_u32, push_u64, read_u32, read_u64};
use echo_program::error::EchoError;
use echo_program::instruction::EchoInstruction;
use echo_program::state::{write_into, AuthorizedBufferHeader, VendingMachineBufferHeader};

#[test]
fn integers_are_little_endian() {
    let mut out = Vec::new();
    push_u64(&mut out, 0x0102030405060708);
    push_u32(&mut out, 0x0a0b0c0d);
    assert_eq!(out, vec![8, 7, 6, 5, 4, 3, 2, 1, 0x0d, 0x0c, 0x0b, 0x0a]);
    assert_eq!(read_u64(&out, 0), 0x0102030405060708);
    assert_eq!(read_u32(&out, 8), 0x0a0b0c0d);
}

#[test]
fn authorized_header_round_trip() {
    let h = AuthorizedBufferHeader::new(254, 7, vec![1, 2, 3]);
    let bytes = h.try_to_vec().unwrap();
    assert_eq!(bytes, borsh::to_vec(&(254u8, 7u64, vec![1u8, 2, 3])).unwrap());
    let back = AuthorizedBufferHeader::try_from_slice(&bytes).unwrap();
    assert_eq!((back.bump_seed, back.buffer_seed, back.buffer), (254, 7, vec![1, 2, 3]));
}

#[test]
fn vending_header_round_trip() {
    let h = VendingMachineBufferHeader::new(3, 1_000_000, 4);
    assert_eq!(h.buffer, vec![0u8; 4]);
    let bytes = h.try_to_vec().unwrap();
    assert_eq!(bytes.len(), 13 + 4);
    assert_eq!(bytes, borsh::to_vec(&(3u8, 1_000_000u64, vec![0u8; 4])).unwrap());
    let back = VendingMachineBufferHeader::try_from_slice(&bytes).unwrap();
    assert_eq!((back.bump_seed, back.price, back.buffer), (3, 1_000_000, vec![0u8; 4]));
}

#[test]
fn header_with_trailing_bytes_is_rejected() {
    let mut bytes = AuthorizedBufferHeader::new(1, 2, vec![5]).try_to_vec().unwrap();
    bytes.push(0);
    assert_eq!(AuthorizedBufferHeader::try_from_slice(&bytes).err(), Some(EchoError::BorshIoError));
    assert_eq!(VendingMachineBufferHeader::try_from_slice(&[1, 2, 3]).err(), Some(EchoError::BorshIoError));
}

#[test]
fn write_into_keeps_tail() {
    let mut account = vec![9u8; 5];
    assert!(write_into(&mut account, &[1, 2]).is_ok());
    assert_eq!(account, vec![1, 2, 9, 9, 9]);
    assert_eq!(write_into(&mut account, &[0u8; 6]).err(), Some(EchoError::BorshIoError));
    assert_eq!(account, vec![1, 2, 9, 9, 9]);
}

#[test]
fn instructions_decode() {
    let ix = EchoInstruction::try_from_slice(&borsh::to_vec(&(3u8, 50u64, 16u64)).unwrap()).unwrap();
    match ix {
        EchoInstruction::InitializeVendingMachineEcho { price, buffer_size } => {
            assert_eq!((price, buffer_size), (50, 16));
        }
        _ => panic!("wrong variant"),
    }
    let ix = EchoInstruction::try_from_slice(&borsh::to_vec(&(4u8, vec![7u8, 8])).unwrap()).unwrap();
    match ix {
        EchoInstruction::VendingMachineEcho { data } => assert_eq!(data, vec![7, 8]),
        _ => panic!("wrong variant"),
    }
}
