use lcp::router::{dispatch, finish, CommandKind, Route};
use lcp::store::TxStore;
use lcp::Error;

#[test]
fn failed_command_leaves_the_store_unchanged() {
    let pk = [1u8; 33];
    let mut store = TxStore::new();
    assert_eq!(dispatch(Some(&pk), &mut store, CommandKind::LightClient), Ok(Route::LightClient));
    store.set(b"a".to_vec(), b"1".to_vec());
    assert_eq!(finish(&mut store, Ok(())), Ok(((), 1)));

    assert_eq!(dispatch(Some(&pk), &mut store, CommandKind::LightClient), Ok(Route::LightClient));
    store.set(b"a".to_vec(), b"2".to_vec());
    store.set(b"b".to_vec(), b"3".to_vec());
    assert_eq!(store.get(b"a"), Some(b"2".to_vec()));
    assert_eq!(finish::<()>(&mut store, Err(Error::InvalidAbi)), Err(Error::CommandFailed));

    assert_eq!(dispatch(Some(&pk), &mut store, CommandKind::LightClient), Ok(Route::LightClient));
    assert_eq!(store.get(b"a"), Some(b"1".to_vec()));
    assert_eq!(store.get(b"b"), None);
}

#[test]
fn commits_are_numbered_in_order() {
    let pk = [2u8; 33];
    let mut store = TxStore::new();
    let mut last = 0;
    for i in 0..5u8 {
        dispatch(Some(&pk), &mut store, CommandKind::LightClient).unwrap();
        store.set(vec![i], vec![i]);
        let (_, seq) = finish(&mut store, Ok(i)).unwrap();
        assert!(seq > last);
        last = seq;
    }
    assert_eq!(last, 5);
}

#[test]
fn another_enclave_key_is_refused() {
    let mut store = TxStore::new();
    dispatch(Some(&[1u8; 33]), &mut store, CommandKind::LightClient).unwrap();
    assert_eq!(dispatch(Some(&[2u8; 33]), &mut store, CommandKind::LightClient), Err(Error::StoreError));
}

#[test]
fn light_client_command_needs_a_key() {
    let mut store = TxStore::new();
    assert_eq!(dispatch(None, &mut store, CommandKind::LightClient), Err(Error::MissingEnclaveKey));
    assert_eq!(dispatch(None, &mut store, CommandKind::EnclaveManage), Ok(Route::Manage));
}

#[test]
fn rollback_drops_staged_writes() {
    let mut store = TxStore::new();
    store.set(b"k".to_vec(), b"v".to_vec());
    assert_eq!(store.get(b"k"), Some(b"v".to_vec()));
    store.rollback();
    assert_eq!(store.get(b"k"), None);
    assert_eq!(store.load_state(None), Ok(()));
}
