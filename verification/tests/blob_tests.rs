use std::sync::Arc;

use harfbuzz_rs::{Blob, Engine, Shared};

#[test]
fn test_vec_to_blob_conversion() {
    let mut e = Engine::new();
    let a_vec: Vec<u8> = vec![1, 2, 3, 4, 5, 6, 7, 8, 9, 10, 11];
    let blob: Shared<Blob> = Blob::with_bytes_owned(&mut e, a_vec).to_shared();

    assert_eq!(blob.get().len(&e), 11);

    let mut counter: u8 = 1;
    for num in blob.get().get_data(&e).iter() {
        assert_eq!(*num, counter);
        counter += 1;
    }
}

#[test]
fn test_arc_to_blob_conversion() {
    let mut e = Engine::new();
    let rc_slice: Arc<[u8]> = Arc::new([1, 2, 3, 4, 5, 6, 7, 8, 9, 10, 11]);
    let blob: Shared<Blob> = Blob::with_bytes(&mut e, &rc_slice).to_shared();

    assert_eq!(blob.get().len(&e), 11);

    let mut counter: u8 = 1;
    for num in blob.get().get_data(&e).iter() {
        assert_eq!(*num, counter);
        counter += 1;
    }
}

#[test]
fn test_sub_blob_freezes_parent() {
    let mut e = Engine::new();
    let blob = Blob::with_bytes_mut(&mut e, b"hello world");
    assert!(!blob.get().is_immutable(&e));

    let sub = blob.get().create_sub_blob(&mut e, 6, 5);
    assert_eq!(sub.get().get_data(&e).as_slice(), b"world");
    assert!(sub.get().is_immutable(&e));
    // taking a sub-blob freezes the parent
    assert!(blob.get().is_immutable(&e));
}

#[test]
fn test_sub_blob_clamps_range() {
    let mut e = Engine::new();
    let blob = Blob::with_bytes(&mut e, b"abcd");
    let sub = blob.get().create_sub_blob(&mut e, 2, 100);
    assert_eq!(sub.get().get_data(&e).as_slice(), b"cd");
    let empty = blob.get().create_sub_blob(&mut e, 100, 5);
    assert_eq!(empty.get().len(&e), 0);
}

#[test]
fn test_try_get_mut_data() {
    let mut e = Engine::new();
    let blob = Blob::with_bytes_mut(&mut e, b"abc");
    {
        let data = blob.get().try_get_mut_data(&mut e).unwrap();
        data[0] = b'x';
    }
    assert_eq!(blob.get().get_data(&e).as_slice(), b"xbc");

    blob.get().make_immutable(&mut e);
    assert!(blob.get().try_get_mut_data(&mut e).is_none());
}
