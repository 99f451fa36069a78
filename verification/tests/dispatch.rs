use fskit_rs::handler::{
    complete, dispatch, keep_known, Dispatch, Error, Operation, Payload, ReplyKind, Request,
    RequestContent, ResponseContent,
};

const EINVAL: i32 = 22;

fn call(content: RequestContent) -> (u64, Operation) {
    match dispatch(Request { id: 42, content: Some(content) }) {
        Dispatch::Call { request_id, op } => (request_id, op),
        Dispatch::Respond(r) => panic!("unexpected immediate response {r:?}"),
    }
}

fn refused(content: Option<RequestContent>) -> (u64, Option<ResponseContent>) {
    match dispatch(Request { id: 7, content }) {
        Dispatch::Respond(r) => (r.request_id, r.content),
        Dispatch::Call { op, .. } => panic!("unexpected call {op:?}"),
    }
}

#[test]
fn request_without_content_is_einval() {
    let (id, content) = refused(None);
    assert_eq!(id, 7);
    assert!(matches!(content, Some(ResponseContent::PosixError(EINVAL))));
}

#[test]
fn missing_messages_are_einval() {
    for content in [
        RequestContent::Mount { options: None },
        RequestContent::Activate { options: None },
        RequestContent::SetAttributes { item_id: 3, attributes: None },
        RequestContent::CreateSymbolicLink { name: b"l".to_vec(), directory_id: 1, new_attributes: None, contents: b"t".to_vec() },
        RequestContent::CreateItem { name: b"f".to_vec(), item_type: Some(1), directory_id: 1, attributes: None },
        RequestContent::CreateItem { name: b"f".to_vec(), item_type: None, directory_id: 1, attributes: Some(vec![1]) },
    ] {
        let (id, reply) = refused(Some(content));
        assert_eq!(id, 7);
        assert!(matches!(reply, Some(ResponseContent::PosixError(EINVAL))));
    }
}

#[test]
fn plain_requests_become_calls() {
    let (id, op) = call(RequestContent::GetAttributes { item_id: 9 });
    assert_eq!(id, 42);
    assert!(matches!(op, Operation::GetAttributes { item_id: 9 }));
    assert_eq!(op.reply_kind(), ReplyKind::ItemAttributes);

    let (_, op) = call(RequestContent::Mount { options: Some(vec![1, 2]) });
    match op {
        Operation::Mount { options } => assert_eq!(options, vec![1, 2]),
        other => panic!("{other:?}"),
    }

    let (_, op) = call(RequestContent::CreateItem { name: b"f".to_vec(), item_type: Some(2), directory_id: 5, attributes: Some(vec![8]) });
    match op {
        Operation::CreateItem { name, item_type, directory_id, attributes } => {
            assert_eq!((name, item_type, directory_id, attributes), (b"f".to_vec(), 2, 5, vec![8]));
        }
        other => panic!("{other:?}"),
    }

    let (_, op) = call(RequestContent::RenameItem {
        item_id: 1,
        source_directory_id: 2,
        source_name: b"a".to_vec(),
        destination_name: b"b".to_vec(),
        destination_directory_id: 3,
        over_item_id: Some(4),
    });
    assert_eq!(op.reply_kind(), ReplyKind::Data);
    assert!(matches!(op, Operation::RenameItem { item_id: 1, source_directory_id: 2, destination_directory_id: 3, over_item_id: Some(4), .. }));
}

#[test]
fn unknown_enum_values_default_or_drop() {
    let (_, op) = call(RequestContent::Synchronize { flags: None });
    assert!(matches!(op, Operation::Synchronize { flags: 0 }));
    let (_, op) = call(RequestContent::Synchronize { flags: Some(2) });
    assert!(matches!(op, Operation::Synchronize { flags: 2 }));

    let (_, op) = call(RequestContent::SetXattr { name: b"n".to_vec(), value: None, item_id: 4, policy: None });
    assert!(matches!(op, Operation::SetXattr { policy: 0, item_id: 4, value: None, .. }));

    let (_, op) = call(RequestContent::OpenItem { item_id: 1, modes: vec![Some(1), None, Some(2)] });
    match op {
        Operation::OpenItem { item_id, modes } => {
            assert_eq!(item_id, 1);
            assert_eq!(modes, vec![1, 2]);
        }
        other => panic!("{other:?}"),
    }

    let (_, op) = call(RequestContent::CheckAccess { item_id: 1, access: vec![None, None] });
    assert!(matches!(op, Operation::CheckAccess { access, .. } if access.is_empty()));

    let (_, op) = call(RequestContent::PreallocateSpace { item_id: 1, offset: 10, length: 20, flags: vec![Some(3)] });
    assert!(matches!(op, Operation::PreallocateSpace { offset: 10, length: 20, flags, .. } if flags == vec![3]));
}

#[test]
fn keep_known_filters_in_order() {
    assert_eq!(keep_known(&vec![None, Some(5), Some(-1), None, Some(0)]), vec![5, -1, 0]);
    assert!(keep_known(&vec![]).is_empty());
}

#[test]
fn completion_maps_results() {
    let r = complete(11, ReplyKind::Success, Err(Error::Posix(2)));
    assert_eq!(r.request_id, 11);
    assert!(matches!(r.content, Some(ResponseContent::PosixError(2))));

    let r = complete(11, ReplyKind::Success, Ok(Payload::Unit));
    assert!(matches!(r.content, Some(ResponseContent::Success)));

    let r = complete(12, ReplyKind::SupportedCapabilities, Ok(Payload::Message(vec![1])));
    assert_eq!(r.request_id, 12);
    assert!(matches!(r.content, Some(ResponseContent::SupportedCapabilities(m)) if m == vec![1]));

    let r = complete(13, ReplyKind::Data, Ok(Payload::Bytes(vec![4, 5])));
    assert!(matches!(r.content, Some(ResponseContent::Data(d)) if d == vec![4, 5]));

    let r = complete(14, ReplyKind::ByteCount, Ok(Payload::Count(-3)));
    assert!(matches!(r.content, Some(ResponseContent::ByteCount(-3))));

    let r = complete(15, ReplyKind::Allow, Ok(Payload::Flag(true)));
    assert!(matches!(r.content, Some(ResponseContent::Allow(true))));
}

#[test]
fn reply_kinds_follow_operations() {
    assert_eq!(Operation::Unmount.reply_kind(), ReplyKind::Success);
    assert_eq!(Operation::GetVolumeCapabilities.reply_kind(), ReplyKind::SupportedCapabilities);
    assert_eq!(Operation::Write { contents: vec![], item_id: 1, offset: 0 }.reply_kind(), ReplyKind::ByteCount);
    assert_eq!(Operation::CheckAccess { item_id: 1, access: vec![] }.reply_kind(), ReplyKind::Allow);
    assert_eq!(Operation::EnumerateDirectory { directory_id: 1, cookie: 0, verifier: 0 }.reply_kind(), ReplyKind::DirectoryEntries);
    assert_eq!(Operation::GetXattrs { item_id: 1 }.reply_kind(), ReplyKind::Xattrs);
    assert_eq!(Operation::Activate { options: vec![] }.reply_kind(), ReplyKind::Item);
}
