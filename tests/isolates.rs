use helios_host::error::HostError;
use helios_host::isolates::{IsolateTable, SliceStart};

#[test]
fn first_slice_without_code_fails() {
    let mut t: IsolateTable<u32> = IsolateTable::new();
    match t.begin_slice(3, None) {
        Err(e) => {
            assert_eq!(e, HostError::NoCode);
            assert_eq!(e.message(), "no code");
        }
        Ok(_) => panic!("expected no code"),
    }
}

#[test]
fn first_slice_with_code_builds_fresh() {
    let mut t: IsolateTable<u32> = IsolateTable::new();
    match t.begin_slice(3, Some("x = 1".to_string())) {
        Ok(SliceStart::Fresh(c)) => assert_eq!(c, "x = 1"),
        _ => panic!("expected a fresh isolate"),
    }
    assert!(!t.is_registered(3));
}

#[test]
fn isolate_state_persists_between_slices() {
    let mut t: IsolateTable<Vec<u32>> = IsolateTable::new();
    // first slice: build, mutate guest state, pause
    let mut rt = match t.begin_slice(5, Some("src".to_string())) {
        Ok(SliceStart::Fresh(_)) => Vec::new(),
        _ => panic!("expected a fresh isolate"),
    };
    rt.push(1);
    t.end_slice(5, rt);
    assert!(t.is_registered(5));
    // second slice of the same pid sees the mutation, whatever code is offered
    match t.begin_slice(5, Some("other".to_string())) {
        Ok(SliceStart::Resume(rt)) => {
            assert_eq!(rt, vec![1]);
            t.end_slice(5, rt);
        }
        _ => panic!("expected the paused isolate"),
    }
    // another pid does not see it
    match t.begin_slice(6, None) {
        Err(e) => assert_eq!(e, HostError::NoCode),
        Ok(_) => panic!("pid 6 has no isolate"),
    }
    assert!(t.is_registered(5));
}

#[test]
fn isolate_is_absent_during_a_slice() {
    let mut t: IsolateTable<u8> = IsolateTable::new();
    t.end_slice(2, 9);
    match t.begin_slice(2, None) {
        Ok(SliceStart::Resume(r)) => assert_eq!(r, 9),
        _ => panic!("expected resume"),
    }
    assert!(!t.is_registered(2));
}

#[test]
fn drop_isolate_removes_and_tolerates_absent() {
    let mut t: IsolateTable<u8> = IsolateTable::new();
    t.end_slice(1, 1);
    t.end_slice(2, 2);
    t.drop_isolate(1);
    t.drop_isolate(7);
    assert!(!t.is_registered(1));
    assert!(t.is_registered(2));
}
