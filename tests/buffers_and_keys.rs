use wallet_ffi::byte_vector::{
    byte_vector_create, byte_vector_destroy, byte_vector_get_at, byte_vector_get_length,
};
use wallet_ffi::keys::{
    private_key_create, private_key_destroy, private_key_from_hex, private_key_generate,
    private_key_get_bytes, public_key_create, public_key_destroy, public_key_from_hex,
    public_key_from_private_key, public_key_get_bytes,
};

#[test]
fn test_bytevector() {
    let bytes: [u8; 4] = [2, 114, 34, 255];
    let bytes_ptr = byte_vector_create(Some(&bytes[..]), bytes.len() as u32);
    let length = byte_vector_get_length(bytes_ptr.as_ref());
    assert_eq!(length, bytes.len() as u32);
    let byte = byte_vector_get_at(bytes_ptr.as_ref(), 2);
    assert_eq!(byte, bytes[2]);
    byte_vector_destroy(bytes_ptr);
}

#[test]
fn test_keys() {
    let private_key = private_key_generate().unwrap();
    let public_key = public_key_from_private_key(Some(&private_key));
    let private_bytes = private_key_get_bytes(Some(&private_key));
    let public_bytes = public_key_get_bytes(public_key.as_ref());
    let private_key_length = byte_vector_get_length(private_bytes.as_ref());
    let public_key_length = byte_vector_get_length(public_bytes.as_ref());
    assert_eq!(private_key_length, 32);
    assert_eq!(public_key_length, 32);
    assert_ne!(private_bytes.unwrap().to_vec(), public_bytes.unwrap().to_vec());
}

#[test]
fn byte_vector_every_position_reads_back() {
    let bytes: Vec<u8> = (0..=255u8).collect();
    let v = byte_vector_create(Some(&bytes[..]), 256).unwrap();
    assert_eq!(byte_vector_get_length(Some(&v)), 256);
    for i in 0..256u32 {
        assert_eq!(byte_vector_get_at(Some(&v), i), bytes[i as usize]);
    }
}

#[test]
fn byte_vector_out_of_range_and_null_read_zero() {
    let bytes = [7u8, 8, 9];
    let v = byte_vector_create(Some(&bytes[..]), 3).unwrap();
    assert_eq!(byte_vector_get_at(Some(&v), 3), 0);
    assert_eq!(byte_vector_get_at(Some(&v), u32::MAX), 0);
    assert_eq!(byte_vector_get_at(None, 0), 0);
    assert_eq!(byte_vector_get_length(None), 0);
}

#[test]
fn byte_vector_empty_and_rejected_inputs() {
    let empty = byte_vector_create(Some(&[][..]), 0).unwrap();
    assert_eq!(byte_vector_get_length(Some(&empty)), 0);
    assert_eq!(byte_vector_get_at(Some(&empty), 0), 0);
    assert!(byte_vector_create(None, 0).is_none());
    let short = [1u8, 2];
    assert!(byte_vector_create(Some(&short[..]), 3).is_none());
    let prefix = byte_vector_create(Some(&short[..]), 1).unwrap();
    assert_eq!(prefix.to_vec(), vec![1u8]);
}

#[test]
fn destroying_null_handles_is_harmless() {
    byte_vector_destroy(None);
    public_key_destroy(None);
    private_key_destroy(None);
    wallet_ffi::contacts::contact_destroy(None);
    wallet_ffi::contacts::contacts_destroy(None);
    wallet_ffi::transactions::completed_transaction_destroy(None);
    wallet_ffi::transactions::pending_inbound_transaction_destroy(None);
    wallet_ffi::transactions::pending_outbound_transaction_destroy(None);
    wallet_ffi::transactions::completed_transactions_destroy(None);
    wallet_ffi::transactions::pending_inbound_transactions_destroy(None);
    wallet_ffi::transactions::pending_outbound_transactions_destroy(None);
    wallet_ffi::wallet::comms_config_destroy(None);
}

#[test]
fn key_bytes_round_trip() {
    let sk = private_key_generate().unwrap();
    let sk_bytes = private_key_get_bytes(Some(&sk)).unwrap();
    let sk2 = private_key_create(Some(&sk_bytes)).unwrap();
    assert_eq!(private_key_get_bytes(Some(&sk2)).unwrap().to_vec(), sk_bytes.to_vec());

    let pk = public_key_from_private_key(Some(&sk)).unwrap();
    let pk_bytes = public_key_get_bytes(Some(&pk)).unwrap();
    let pk2 = public_key_create(Some(&pk_bytes)).unwrap();
    assert!(pk2.same_key(&pk));
    let pk3 = public_key_from_private_key(Some(&sk2)).unwrap();
    assert!(pk3.same_key(&pk));
}

#[test]
fn keys_reject_bad_input() {
    let short = byte_vector_create(Some(&[1u8, 2, 3][..]), 3).unwrap();
    assert!(public_key_create(Some(&short)).is_none());
    assert!(private_key_create(Some(&short)).is_none());
    assert!(public_key_create(None).is_none());
    assert!(private_key_create(None).is_none());
    assert!(public_key_get_bytes(None).is_none());
    assert!(private_key_get_bytes(None).is_none());
    assert!(public_key_from_private_key(None).is_none());
    // All bits set is neither a reduced scalar nor a point encoding.
    let high = byte_vector_create(Some(&[0xffu8; 32][..]), 32).unwrap();
    assert!(private_key_create(Some(&high)).is_none());
    assert!(public_key_create(Some(&high)).is_none());
}

#[test]
fn keys_from_hex() {
    // The ristretto255 base point.
    let base = "e2f2ae0a6abc4e71a884a961c500515f58e30b6aa582dd8db6a65945e08d2d76";
    let pk = public_key_from_hex(Some(base)).unwrap();
    let bytes = public_key_get_bytes(Some(&pk)).unwrap().to_vec();
    assert_eq!(bytes[0], 0xe2);
    assert_eq!(bytes[31], 0x76);
    assert!(public_key_from_hex(Some("zz")).is_none());
    assert!(public_key_from_hex(Some("e2f")).is_none());
    assert!(public_key_from_hex(None).is_none());

    let one = "0100000000000000000000000000000000000000000000000000000000000000";
    let sk = private_key_from_hex(Some(one)).unwrap();
    let sk_bytes = private_key_get_bytes(Some(&sk)).unwrap().to_vec();
    assert_eq!(sk_bytes[0], 1);
    assert!(sk_bytes[1..].iter().all(|b| *b == 0));
    // The secret key one has the base point as its public key.
    let derived = public_key_from_private_key(Some(&sk)).unwrap();
    assert!(derived.same_key(&pk));
    assert!(private_key_from_hex(Some("not hex")).is_none());
    assert!(private_key_from_hex(None).is_none());
}
