use checkout::disabled::{DisabledBlob, PutBehaviour};

#[test]
fn test_disabled() {
    let disabled = DisabledBlob::new("test");

    match disabled.get("foobar") {
        Ok(_) => panic!("Unexpected success"),
        Err(err) => println!("Got error: {:?}", err),
    }

    match disabled.put("foobar".to_string(), vec![]) {
        Ok(_) => panic!("Unexpected success"),
        Err(err) => println!("Got error: {:?}", err),
    }
}

#[test]
fn every_operation_fails_with_the_reason() {
    let disabled = DisabledBlob::new("maintenance");
    let expected = "Blobstore disabled: maintenance";
    assert_eq!(disabled.get("k").unwrap_err().message(), expected);
    assert_eq!(disabled.put("k".to_string(), vec![1]).unwrap_err().message(), expected);
    assert_eq!(
        disabled
            .put_explicit("k".to_string(), vec![1], PutBehaviour::IfAbsent)
            .unwrap_err()
            .message(),
        expected
    );
    assert_eq!(
        disabled.put_with_status("k".to_string(), vec![1]).unwrap_err().message(),
        expected
    );
    assert_eq!(disabled.link("k", "l".to_string()).unwrap_err().message(), expected);
    assert_eq!(disabled.unlink("k").unwrap_err().message(), expected);
}

#[test]
fn disabled_blob_is_named_with_its_reason() {
    assert_eq!(DisabledBlob::new("test").to_string(), "DisabledBlob (test)");
    assert_eq!(DisabledBlob::new("").to_string(), "DisabledBlob ()");
}
