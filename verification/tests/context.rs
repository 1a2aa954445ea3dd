use lib::context::{connect_result, Error};

#[test]
fn connect_null_core_fails() {
    assert!(connect_result(0) == Err(Error::CreationFailed));
}

#[test]
fn connect_core_is_kept() {
    let core = connect_result(0x7f00_1000).unwrap();
    assert_eq!(core.as_raw_addr(), 0x7f00_1000);
}
