use smart_account::errors::SmartAccountError;
use smart_account::keys::Pubkey;
use smart_account::transaction_buffer::{
    create_transaction_buffer, extend_transaction_buffer, TransactionBuffer,
};

fn key(n: u8) -> Pubkey {
    Pubkey::new_from_array([n; 32])
}

/// SHA-256 of the three bytes "abc".
const ABC_DIGEST: [u8; 32] = [
    0xba, 0x78, 0x16, 0xbf, 0x8f, 0x01, 0xcf, 0xea, 0x41, 0x41, 0x40, 0xde, 0x5d, 0xae, 0x22,
    0x23, 0xb0, 0x03, 0x61, 0xa3, 0x96, 0x17, 0x7a, 0x9c, 0xb4, 0x10, 0xff, 0x61, 0xf2, 0x00,
    0x15, 0xad,
];

#[test]
fn finalize_accepts_the_announced_digest() {
    let creator = key(1);
    let mut buffer = TransactionBuffer::create(key(9), creator, 0, 0, ABC_DIGEST, vec![b'a']);
    assert_eq!(buffer.extend(&creator, &vec![b'b']), Ok(()));
    assert_eq!(buffer.extend(&creator, &vec![b'c']), Ok(()));
    assert_eq!(buffer.finalize().unwrap(), vec![b'a', b'b', b'c']);
}

#[test]
fn finalize_rejects_one_changed_byte() {
    let creator = key(1);
    let mut buffer = TransactionBuffer::create(key(9), creator, 0, 0, ABC_DIGEST, vec![b'a']);
    assert_eq!(buffer.extend(&creator, &vec![b'b', b'd']), Ok(()));
    let refused = buffer.finalize().unwrap_err();
    assert_eq!(refused.error, SmartAccountError::BufferHashMismatch);
    assert_eq!(refused.buffer.buffer, vec![b'a', b'b', b'd']);
    assert_eq!(refused.buffer.final_buffer_hash, ABC_DIGEST);
    assert_eq!(refused.buffer.creator, creator);
}

#[test]
fn chunks_are_staged_in_the_order_of_their_upload() {
    let creator = key(1);
    let mut buffer = create_transaction_buffer(key(9), creator, 4, 2, ABC_DIGEST, vec![1, 2]);
    assert_eq!(buffer.buffer_index, 4);
    assert_eq!(buffer.account_index, 2);
    assert_eq!(buffer.settings, key(9));
    assert_eq!(buffer.final_buffer_hash, ABC_DIGEST);
    assert_eq!(extend_transaction_buffer(&mut buffer, &creator, &vec![3]), Ok(()));
    assert_eq!(extend_transaction_buffer(&mut buffer, &creator, &vec![4, 5]), Ok(()));
    assert_eq!(
        extend_transaction_buffer(&mut buffer, &key(2), &vec![6]),
        Err(SmartAccountError::Unauthorized)
    );
    assert_eq!(buffer.buffer, vec![1, 2, 3, 4, 5]);
}
