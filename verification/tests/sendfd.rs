use checkout::sendfd::{
    deserialize, received_singleton, serialize, stdio_fds, stdio_replacements, NodeIpc,
    SendFdError, SendFdPayload,
};

#[test]
fn descriptors_cannot_be_passed_with_libuv_compatibility() {
    assert_eq!(NodeIpc::new().check_sendfd_compatibility(), Ok(()));
    let ipc = NodeIpc::new().with_libuv_compat();
    assert!(ipc.libuv_compat);
    assert_eq!(ipc.check_sendfd_compatibility(), Err(SendFdError::IncompatibleWithLibuv));
    assert_eq!(
        SendFdError::IncompatibleWithLibuv.message(),
        "send_fd_vec() and recv_fd_vec() are incompatible with libuv compatibility."
    );
}

#[test]
fn descriptors_are_written_as_u64() {
    assert_eq!(serialize(&vec![]), Vec::<u64>::new());
    assert_eq!(serialize(&vec![0, 1, 2, 7]), vec![0, 1, 2, 7]);
    assert_eq!(serialize(&vec![-1]), vec![u64::MAX]);
    assert_eq!(serialize(&vec![i32::MAX, i32::MIN]), vec![0x7fff_ffff, 0xffff_ffff_8000_0000]);
}

#[test]
fn descriptors_are_read_from_the_low_bits() {
    assert_eq!(deserialize(vec![]), Vec::<i32>::new());
    assert_eq!(deserialize(vec![0, 1, 2, 7]), vec![0, 1, 2, 7]);
    assert_eq!(deserialize(vec![u64::MAX]), vec![-1]);
    assert_eq!(deserialize(vec![0x1_0000_0005, 0x8000_0000]), vec![5, i32::MIN]);
}

#[test]
fn descriptors_survive_the_round_trip() {
    let payload = SendFdPayload { raw_fds: vec![0, -1, 3, i32::MAX, i32::MIN, 42] };
    assert_eq!(deserialize(serialize(&payload.raw_fds)), payload.raw_fds);
}

#[test]
fn stdio_is_sent_with_the_channel_after_it() {
    assert_eq!(stdio_fds(None), vec![0, 1, 2]);
    assert_eq!(stdio_fds(Some(9)), vec![0, 1, 2, 9]);
}

#[test]
fn received_descriptors_replace_stdio_where_they_differ() {
    assert_eq!(stdio_replacements(&vec![]), vec![]);
    assert_eq!(stdio_replacements(&vec![0, 1, 2]), vec![]);
    assert_eq!(stdio_replacements(&vec![5, 6, 7]), vec![(5, 0), (6, 1), (7, 2)]);
    assert_eq!(stdio_replacements(&vec![5, 1, 7, 9, 10]), vec![(5, 0), (7, 2)]);
    assert_eq!(stdio_replacements(&vec![0, -1, 1]), vec![(1, 2)]);
    assert_eq!(stdio_replacements(&vec![2, 2]), vec![(2, 0), (2, 1)]);
    assert_eq!(stdio_replacements(&vec![-3]), vec![]);
}

#[test]
fn the_fourth_descriptor_is_the_channel() {
    assert_eq!(received_singleton(&vec![]), None);
    assert_eq!(received_singleton(&vec![0, 1, 2]), None);
    assert_eq!(received_singleton(&vec![0, 1, 2, 8]), Some(8));
    assert_eq!(received_singleton(&vec![0, 1, 2, 8, 9]), Some(8));
}
