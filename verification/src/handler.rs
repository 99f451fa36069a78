use vstd::prelude::*;
use crate::platform::{einval, invalid_argument};

verus! {

// Messages embedded in requests and responses (task options, item
// attributes, items, directory entries, ...) travel as their encoded bytes;
// the dispatch below only moves them.  Enumerated fields carry the value the
// protocol's enum gives the wire number, or `None` when it names no value.

/// What a request asks of the file system.
#[derive(Debug)]
pub enum RequestContent {
    GetResourceIdentifier,
    GetVolumeIdentifier,
    GetVolumeBehavior,
    GetPathConfOperations,
    GetVolumeCapabilities,
    GetVolumeStatistics,
    Mount { options: Option<Vec<u8>> },
    Unmount,
    Synchronize { flags: Option<i32> },
    GetAttributes { item_id: u64 },
    SetAttributes { item_id: u64, attributes: Option<Vec<u8>> },
    LookupItem { name: Vec<u8>, directory_id: u64 },
    ReclaimItem { item_id: u64 },
    ReadSymbolicLink { item_id: u64 },
    CreateItem { name: Vec<u8>, item_type: Option<i32>, directory_id: u64, attributes: Option<Vec<u8>> },
    CreateSymbolicLink { name: Vec<u8>, directory_id: u64, new_attributes: Option<Vec<u8>>, contents: Vec<u8> },
    CreateLink { item_id: u64, name: Vec<u8>, directory_id: u64 },
    RemoveItem { item_id: u64, name: Vec<u8>, directory_id: u64 },
    RenameItem {
        item_id: u64,
        source_directory_id: u64,
        source_name: Vec<u8>,
        destination_name: Vec<u8>,
        destination_directory_id: u64,
        over_item_id: Option<u64>,
    },
    EnumerateDirectory { directory_id: u64, cookie: u64, verifier: u64 },
    Activate { options: Option<Vec<u8>> },
    Deactivate,
    GetSupportedXattrNames { item_id: u64 },
    GetXattr { name: Vec<u8>, item_id: u64 },
    SetXattr { name: Vec<u8>, value: Option<Vec<u8>>, item_id: u64, policy: Option<i32> },
    GetXattrs { item_id: u64 },
    OpenItem { item_id: u64, modes: Vec<Option<i32>> },
    CloseItem { item_id: u64, modes: Vec<Option<i32>> },
    Read { item_id: u64, offset: i64, length: i64 },
    Write { contents: Vec<u8>, item_id: u64, offset: i64 },
    CheckAccess { item_id: u64, access: Vec<Option<i32>> },
    SetVolumeName { name: Vec<u8> },
    PreallocateSpace { item_id: u64, offset: i64, length: i64, flags: Vec<Option<i32>> },
    DeactivateItem { item_id: u64 },
}

/// A call of the file system, with its arguments checked and converted.
#[derive(Debug)]
pub enum Operation {
    GetResourceIdentifier,
    GetVolumeIdentifier,
    GetVolumeBehavior,
    GetPathConfOperations,
    GetVolumeCapabilities,
    GetVolumeStatistics,
    Mount { options: Vec<u8> },
    Unmount,
    Synchronize { flags: i32 },
    GetAttributes { item_id: u64 },
    SetAttributes { item_id: u64, attributes: Vec<u8> },
    LookupItem { name: Vec<u8>, directory_id: u64 },
    ReclaimItem { item_id: u64 },
    ReadSymbolicLink { item_id: u64 },
    CreateItem { name: Vec<u8>, item_type: i32, directory_id: u64, attributes: Vec<u8> },
    CreateSymbolicLink { name: Vec<u8>, directory_id: u64, new_attributes: Vec<u8>, contents: Vec<u8> },
    CreateLink { item_id: u64, name: Vec<u8>, directory_id: u64 },
    RemoveItem { item_id: u64, name: Vec<u8>, directory_id: u64 },
    RenameItem {
        item_id: u64,
        source_directory_id: u64,
        source_name: Vec<u8>,
        destination_name: Vec<u8>,
        destination_directory_id: u64,
        over_item_id: Option<u64>,
    },
    EnumerateDirectory { directory_id: u64, cookie: u64, verifier: u64 },
    Activate { options: Vec<u8> },
    Deactivate,
    GetSupportedXattrNames { item_id: u64 },
    GetXattr { name: Vec<u8>, item_id: u64 },
    SetXattr { name: Vec<u8>, value: Option<Vec<u8>>, item_id: u64, policy: i32 },
    GetXattrs { item_id: u64 },
    OpenItem { item_id: u64, modes: Vec<i32> },
    CloseItem { item_id: u64, modes: Vec<i32> },
    Read { item_id: u64, offset: i64, length: i64 },
    Write { contents: Vec<u8>, item_id: u64, offset: i64 },
    CheckAccess { item_id: u64, access: Vec<i32> },
    SetVolumeName { name: Vec<u8> },
    PreallocateSpace { item_id: u64, offset: i64, length: i64, flags: Vec<i32> },
    DeactivateItem { item_id: u64 },
}

/// What a response carries back.
#[derive(Debug)]
pub enum ResponseContent {
    ResourceIdentifier(Vec<u8>),
    VolumeIdentifier(Vec<u8>),
    VolumeBehavior(Vec<u8>),
    PathConfOperations(Vec<u8>),
    SupportedCapabilities(Vec<u8>),
    StatFsResult(Vec<u8>),
    Success,
    ItemAttributes(Vec<u8>),
    Item(Vec<u8>),
    Data(Vec<u8>),
    DirectoryEntries(Vec<u8>),
    Xattrs(Vec<u8>),
    ByteCount(i64),
    Allow(bool),
    PosixError(i32),
}

/// A request as it arrives: its identifier and what it asks, if anything.
#[derive(Debug)]
pub struct Request {
    pub id: u64,
    pub content: Option<RequestContent>,
}

/// A response: the identifier of the request it answers and what it carries.
#[derive(Debug)]
pub struct Response {
    pub request_id: u64,
    pub content: Option<ResponseContent>,
}

/// Which response a successful call of an operation gives.
#[derive(Debug, Clone, Copy, PartialEq, Eq, Structural)]
pub enum ReplyKind {
    ResourceIdentifier,
    VolumeIdentifier,
    VolumeBehavior,
    PathConfOperations,
    SupportedCapabilities,
    StatFsResult,
    Success,
    ItemAttributes,
    Item,
    Data,
    DirectoryEntries,
    Xattrs,
    ByteCount,
    Allow,
}

/// The failure a file system operation reports: a POSIX error number.
#[derive(Debug, Clone, Copy, PartialEq, Eq, Structural)]
pub enum Error {
    Posix(i32),
}

/// What a successful file system call returned.
#[derive(Debug)]
pub enum Payload {
    /// Nothing (the call only reports success).
    Unit,
    /// An encoded message.
    Message(Vec<u8>),
    /// Raw bytes.
    Bytes(Vec<u8>),
    /// A byte count.
    Count(i64),
    /// A yes or no.
    Flag(bool),
}

/// What to do with a request.
#[derive(Debug)]
pub enum Dispatch {
    /// Answer at once with this response.
    Respond(Response),
    /// Call the file system, then answer through `complete`.
    Call { request_id: u64, op: Operation },
}

/// The values of the entries that name a value of their enum, in order.
pub open spec fn known_values(s: Seq<Option<i32>>) -> Seq<i32>
    decreases s.len(),
{
    if s.len() == 0 {
        Seq::empty()
    } else {
        let rest = known_values(s.drop_last());
        match s.last() {
            Some(v) => rest.push(v),
            None => rest,
        }
    }
}

/// An enumerated field's value, or the enum's default (zero, its first
/// value) when the wire number names none.
pub open spec fn or_default(v: Option<i32>) -> i32 {
    match v {
        Some(x) => x,
        None => 0,
    }
}

/// The request lacks a message it needs, or names an item type that does
/// not exist: it is answered with `EINVAL` without calling the file system.
pub open spec fn is_rejected(c: RequestContent) -> bool {
    match c {
        RequestContent::Mount { options } => options is None,
        RequestContent::SetAttributes { attributes, .. } => attributes is None,
        RequestContent::CreateItem { item_type, attributes, .. } => item_type is None
            || attributes is None,
        RequestContent::CreateSymbolicLink { new_attributes, .. } => new_attributes is None,
        RequestContent::Activate { options } => options is None,
        _ => false,
    }
}

/// `op` is the file system call that request content `c` asks for: the same
/// operation, with the same arguments, enumerated arguments converted as the
/// protocol says.
pub open spec fn calls_for(c: RequestContent, op: Operation) -> bool {
    match (c, op) {
        (RequestContent::GetResourceIdentifier, Operation::GetResourceIdentifier) => true,
        (RequestContent::GetVolumeIdentifier, Operation::GetVolumeIdentifier) => true,
        (RequestContent::GetVolumeBehavior, Operation::GetVolumeBehavior) => true,
        (RequestContent::GetPathConfOperations, Operation::GetPathConfOperations) => true,
        (RequestContent::GetVolumeCapabilities, Operation::GetVolumeCapabilities) => true,
        (RequestContent::GetVolumeStatistics, Operation::GetVolumeStatistics) => true,
        (RequestContent::Mount { options: o1 }, Operation::Mount { options: o2 }) => o1 == Some(o2),
        (RequestContent::Unmount, Operation::Unmount) => true,
        (RequestContent::Synchronize { flags: f1 }, Operation::Synchronize { flags: f2 }) => f2
            == or_default(f1),
        (RequestContent::GetAttributes { item_id: i1 }, Operation::GetAttributes { item_id: i2 }) => i1
            == i2,
        (
            RequestContent::SetAttributes { item_id: i1, attributes: a1 },
            Operation::SetAttributes { item_id: i2, attributes: a2 },
        ) => i1 == i2 && a1 == Some(a2),
        (
            RequestContent::LookupItem { name: n1, directory_id: d1 },
            Operation::LookupItem { name: n2, directory_id: d2 },
        ) => n1 == n2 && d1 == d2,
        (RequestContent::ReclaimItem { item_id: i1 }, Operation::ReclaimItem { item_id: i2 }) => i1
            == i2,
        (
            RequestContent::ReadSymbolicLink { item_id: i1 },
            Operation::ReadSymbolicLink { item_id: i2 },
        ) => i1 == i2,
        (
            RequestContent::CreateItem {
                name: n1,
                item_type: t1,
                directory_id: d1,
                attributes: a1,
            },
            Operation::CreateItem { name: n2, item_type: t2, directory_id: d2, attributes: a2 },
        ) => n1 == n2 && t1 == Some(t2) && d1 == d2 && a1 == Some(a2),
        (
            RequestContent::CreateSymbolicLink {
                name: n1,
                directory_id: d1,
                new_attributes: a1,
                contents: c1,
            },
            Operation::CreateSymbolicLink {
                name: n2,
                directory_id: d2,
                new_attributes: a2,
                contents: c2,
            },
        ) => n1 == n2 && d1 == d2 && a1 == Some(a2) && c1 == c2,
        (
            RequestContent::CreateLink { item_id: i1, name: n1, directory_id: d1 },
            Operation::CreateLink { item_id: i2, name: n2, directory_id: d2 },
        ) => i1 == i2 && n1 == n2 && d1 == d2,
        (
            RequestContent::RemoveItem { item_id: i1, name: n1, directory_id: d1 },
            Operation::RemoveItem { item_id: i2, name: n2, directory_id: d2 },
        ) => i1 == i2 && n1 == n2 && d1 == d2,
        (
            RequestContent::RenameItem {
                item_id: i1,
                source_directory_id: s1,
                source_name: sn1,
                destination_name: dn1,
                destination_directory_id: d1,
                over_item_id: o1,
            },
            Operation::RenameItem {
                item_id: i2,
                source_directory_id: s2,
                source_name: sn2,
                destination_name: dn2,
                destination_directory_id: d2,
                over_item_id: o2,
            },
        ) => i1 == i2 && s1 == s2 && sn1 == sn2 && dn1 == dn2 && d1 == d2 && o1 == o2,
        (
            RequestContent::EnumerateDirectory { directory_id: d1, cookie: c1, verifier: v1 },
            Operation::EnumerateDirectory { directory_id: d2, cookie: c2, verifier: v2 },
        ) => d1 == d2 && c1 == c2 && v1 == v2,
        (RequestContent::Activate { options: o1 }, Operation::Activate { options: o2 }) => o1
            == Some(o2),
        (RequestContent::Deactivate, Operation::Deactivate) => true,
        (
            RequestContent::GetSupportedXattrNames { item_id: i1 },
            Operation::GetSupportedXattrNames { item_id: i2 },
        ) => i1 == i2,
        (
            RequestContent::GetXattr { name: n1, item_id: i1 },
            Operation::GetXattr { name: n2, item_id: i2 },
        ) => n1 == n2 && i1 == i2,
        (
            RequestContent::SetXattr { name: n1, value: v1, item_id: i1, policy: p1 },
            Operation::SetXattr { name: n2, value: v2, item_id: i2, policy: p2 },
        ) => n1 == n2 && v1 == v2 && i1 == i2 && p2 == or_default(p1),
        (RequestContent::GetXattrs { item_id: i1 }, Operation::GetXattrs { item_id: i2 }) => i1
            == i2,
        (
            RequestContent::OpenItem { item_id: i1, modes: m1 },
            Operation::OpenItem { item_id: i2, modes: m2 },
        ) => i1 == i2 && m2@ == known_values(m1@),
        (
            RequestContent::CloseItem { item_id: i1, modes: m1 },
            Operation::CloseItem { item_id: i2, modes: m2 },
        ) => i1 == i2 && m2@ == known_values(m1@),
        (
            RequestContent::Read { item_id: i1, offset: o1, length: l1 },
            Operation::Read { item_id: i2, offset: o2, length: l2 },
        ) => i1 == i2 && o1 == o2 && l1 == l2,
        (
            RequestContent::Write { contents: c1, item_id: i1, offset: o1 },
            Operation::Write { contents: c2, item_id: i2, offset: o2 },
        ) => c1 == c2 && i1 == i2 && o1 == o2,
        (
            RequestContent::CheckAccess { item_id: i1, access: a1 },
            Operation::CheckAccess { item_id: i2, access: a2 },
        ) => i1 == i2 && a2@ == known_values(a1@),
        (RequestContent::SetVolumeName { name: n1 }, Operation::SetVolumeName { name: n2 }) => n1
            == n2,
        (
            RequestContent::PreallocateSpace { item_id: i1, offset: o1, length: l1, flags: f1 },
            Operation::PreallocateSpace { item_id: i2, offset: o2, length: l2, flags: f2 },
        ) => i1 == i2 && o1 == o2 && l1 == l2 && f2@ == known_values(f1@),
        (
            RequestContent::DeactivateItem { item_id: i1 },
            Operation::DeactivateItem { item_id: i2 },
        ) => i1 == i2,
        _ => false,
    }
}

/// The response that answers `request_id` with `content`.
pub open spec fn answer(request_id: u64, content: ResponseContent) -> Response {
    Response { request_id, content: Some(content) }
}

/// Keeps the entries that name a value of their enum.
pub fn keep_known(values: &Vec<Option<i32>>) -> (r: Vec<i32>)
    ensures
        r@ == known_values(values@),
{
    let mut out: Vec<i32> = Vec::new();
    for i in 0..values.len()
        invariant
            out@ == known_values(values@.take(i as int)),
    {
        proof {
            assert(values@.take(i + 1).drop_last() =~= values@.take(i as int));
        }
        match values[i] {
            Some(v) => out.push(v),
            None => {},
        }
    }
    assert(values@.take(values@.len() as int) =~= values@);
    out
}

/// Decides what to do with a request: a request without content, or one
/// that lacks a needed message or names an unknown item type, is answered
/// at once with `EINVAL`; any other becomes the file system call it asks for.
pub fn dispatch(request: Request) -> (d: Dispatch)
    ensures
        match request.content {
            None => d == Dispatch::Respond(answer(request.id, ResponseContent::PosixError(einval()))),
            Some(c) => if is_rejected(c) {
                d == Dispatch::Respond(answer(request.id, ResponseContent::PosixError(einval())))
            } else {
                d matches Dispatch::Call { request_id, op } && request_id == request.id && calls_for(c, op)
            },
        },
{
    let id = request.id;
    let content = match request.content {
        Some(c) => c,
        None => return Dispatch::Respond(Response {
            request_id: id,
            content: Some(ResponseContent::PosixError(invalid_argument())),
        }),
    };
    let op = match content {
        RequestContent::GetResourceIdentifier => Operation::GetResourceIdentifier,
        RequestContent::GetVolumeIdentifier => Operation::GetVolumeIdentifier,
        RequestContent::GetVolumeBehavior => Operation::GetVolumeBehavior,
        RequestContent::GetPathConfOperations => Operation::GetPathConfOperations,
        RequestContent::GetVolumeCapabilities => Operation::GetVolumeCapabilities,
        RequestContent::GetVolumeStatistics => Operation::GetVolumeStatistics,
        RequestContent::Mount { options } => match options {
            Some(options) => Operation::Mount { options },
            None => return reject(id),
        },
        RequestContent::Unmount => Operation::Unmount,
        RequestContent::Synchronize { flags } => Operation::Synchronize {
            flags: match flags {
                Some(f) => f,
                None => 0,
            },
        },
        RequestContent::GetAttributes { item_id } => Operation::GetAttributes { item_id },
        RequestContent::SetAttributes { item_id, attributes } => match attributes {
            Some(attributes) => Operation::SetAttributes { item_id, attributes },
            None => return reject(id),
        },
        RequestContent::LookupItem { name, directory_id } => Operation::LookupItem {
            name,
            directory_id,
        },
        RequestContent::ReclaimItem { item_id } => Operation::ReclaimItem { item_id },
        RequestContent::ReadSymbolicLink { item_id } => Operation::ReadSymbolicLink { item_id },
        RequestContent::CreateItem { name, item_type, directory_id, attributes } => {
            let item_type = match item_type {
                Some(t) => t,
                None => return reject(id),
            };
            match attributes {
                Some(attributes) => Operation::CreateItem {
                    name,
                    item_type,
                    directory_id,
                    attributes,
                },
                None => return reject(id),
            }
        },
        RequestContent::CreateSymbolicLink { name, directory_id, new_attributes, contents } => {
            match new_attributes {
                Some(new_attributes) => Operation::CreateSymbolicLink {
                    name,
                    directory_id,
                    new_attributes,
                    contents,
                },
                None => return reject(id),
            }
        },
        RequestContent::CreateLink { item_id, name, directory_id } => Operation::CreateLink {
            item_id,
            name,
            directory_id,
        },
        RequestContent::RemoveItem { item_id, name, directory_id } => Operation::RemoveItem {
            item_id,
            name,
            directory_id,
        },
        RequestContent::RenameItem {
            item_id,
            source_directory_id,
            source_name,
            destination_name,
            destination_directory_id,
            over_item_id,
        } => Operation::RenameItem {
            item_id,
            source_directory_id,
            source_name,
            destination_name,
            destination_directory_id,
            over_item_id,
        },
        RequestContent::EnumerateDirectory { directory_id, cookie, verifier } => {
            Operation::EnumerateDirectory { directory_id, cookie, verifier }
        },
        RequestContent::Activate { options } => match options {
            Some(options) => Operation::Activate { options },
            None => return reject(id),
        },
        RequestContent::Deactivate => Operation::Deactivate,
        RequestContent::GetSupportedXattrNames { item_id } => Operation::GetSupportedXattrNames {
            item_id,
        },
        RequestContent::GetXattr { name, item_id } => Operation::GetXattr { name, item_id },
        RequestContent::SetXattr { name, value, item_id, policy } => Operation::SetXattr {
            name,
            value,
            item_id,
            policy: match policy {
                Some(p) => p,
                None => 0,
            },
        },
        RequestContent::GetXattrs { item_id } => Operation::GetXattrs { item_id },
        RequestContent::OpenItem { item_id, modes } => Operation::OpenItem {
            item_id,
            modes: keep_known(&modes),
        },
        RequestContent::CloseItem { item_id, modes } => Operation::CloseItem {
            item_id,
            modes: keep_known(&modes),
        },
        RequestContent::Read { item_id, offset, length } => Operation::Read {
            item_id,
            offset,
            length,
        },
        RequestContent::Write { contents, item_id, offset } => Operation::Write {
            contents,
            item_id,
            offset,
        },
        RequestContent::CheckAccess { item_id, access } => Operation::CheckAccess {
            item_id,
            access: keep_known(&access),
        },
        RequestContent::SetVolumeName { name } => Operation::SetVolumeName { name },
        RequestContent::PreallocateSpace { item_id, offset, length, flags } => {
            Operation::PreallocateSpace { item_id, offset, length, flags: keep_known(&flags) }
        },
        RequestContent::DeactivateItem { item_id } => Operation::DeactivateItem { item_id },
    };
    Dispatch::Call { request_id: id, op }
}

fn reject(id: u64) -> (d: Dispatch)
    ensures
        d == Dispatch::Respond(answer(id, ResponseContent::PosixError(einval()))),
{
    Dispatch::Respond(Response {
        request_id: id,
        content: Some(ResponseContent::PosixError(invalid_argument())),
    })
}

impl Operation {
    /// The response a successful call of this operation gives.
    pub open spec fn reply_kind_of(self) -> ReplyKind {
        match self {
            Operation::GetResourceIdentifier => ReplyKind::ResourceIdentifier,
            Operation::GetVolumeIdentifier => ReplyKind::VolumeIdentifier,
            Operation::GetVolumeBehavior => ReplyKind::VolumeBehavior,
            Operation::GetPathConfOperations => ReplyKind::PathConfOperations,
            Operation::GetVolumeCapabilities => ReplyKind::SupportedCapabilities,
            Operation::GetVolumeStatistics => ReplyKind::StatFsResult,
            Operation::GetAttributes { .. } => ReplyKind::ItemAttributes,
            Operation::SetAttributes { .. } => ReplyKind::ItemAttributes,
            Operation::LookupItem { .. } => ReplyKind::Item,
            Operation::CreateItem { .. } => ReplyKind::Item,
            Operation::CreateSymbolicLink { .. } => ReplyKind::Item,
            Operation::Activate { .. } => ReplyKind::Item,
            Operation::ReadSymbolicLink { .. } => ReplyKind::Data,
            Operation::CreateLink { .. } => ReplyKind::Data,
            Operation::RenameItem { .. } => ReplyKind::Data,
            Operation::GetXattr { .. } => ReplyKind::Data,
            Operation::Read { .. } => ReplyKind::Data,
            Operation::SetVolumeName { .. } => ReplyKind::Data,
            Operation::EnumerateDirectory { .. } => ReplyKind::DirectoryEntries,
            Operation::GetSupportedXattrNames { .. } => ReplyKind::Xattrs,
            Operation::GetXattrs { .. } => ReplyKind::Xattrs,
            Operation::Write { .. } => ReplyKind::ByteCount,
            Operation::PreallocateSpace { .. } => ReplyKind::ByteCount,
            Operation::CheckAccess { .. } => ReplyKind::Allow,
            Operation::Mount { .. } => ReplyKind::Success,
            Operation::Unmount => ReplyKind::Success,
            Operation::Synchronize { .. } => ReplyKind::Success,
            Operation::ReclaimItem { .. } => ReplyKind::Success,
            Operation::RemoveItem { .. } => ReplyKind::Success,
            Operation::Deactivate => ReplyKind::Success,
            Operation::SetXattr { .. } => ReplyKind::Success,
            Operation::OpenItem { .. } => ReplyKind::Success,
            Operation::CloseItem { .. } => ReplyKind::Success,
            Operation::DeactivateItem { .. } => ReplyKind::Success,
        }
    }

    /// The response a successful call of this operation gives.
    pub fn reply_kind(&self) -> (k: ReplyKind)
        ensures
            k == self.reply_kind_of(),
    {
        match self {
            Operation::GetResourceIdentifier => ReplyKind::ResourceIdentifier,
            Operation::GetVolumeIdentifier => ReplyKind::VolumeIdentifier,
            Operation::GetVolumeBehavior => ReplyKind::VolumeBehavior,
            Operation::GetPathConfOperations => ReplyKind::PathConfOperations,
            Operation::GetVolumeCapabilities => ReplyKind::SupportedCapabilities,
            Operation::GetVolumeStatistics => ReplyKind::StatFsResult,
            Operation::GetAttributes { .. } => ReplyKind::ItemAttributes,
            Operation::SetAttributes { .. } => ReplyKind::ItemAttributes,
            Operation::LookupItem { .. } => ReplyKind::Item,
            Operation::CreateItem { .. } => ReplyKind::Item,
            Operation::CreateSymbolicLink { .. } => ReplyKind::Item,
            Operation::Activate { .. } => ReplyKind::Item,
            Operation::ReadSymbolicLink { .. } => ReplyKind::Data,
            Operation::CreateLink { .. } => ReplyKind::Data,
            Operation::RenameItem { .. } => ReplyKind::Data,
            Operation::GetXattr { .. } => ReplyKind::Data,
            Operation::Read { .. } => ReplyKind::Data,
            Operation::SetVolumeName { .. } => ReplyKind::Data,
            Operation::EnumerateDirectory { .. } => ReplyKind::DirectoryEntries,
            Operation::GetSupportedXattrNames { .. } => ReplyKind::Xattrs,
            Operation::GetXattrs { .. } => ReplyKind::Xattrs,
            Operation::Write { .. } => ReplyKind::ByteCount,
            Operation::PreallocateSpace { .. } => ReplyKind::ByteCount,
            Operation::CheckAccess { .. } => ReplyKind::Allow,
            Operation::Mount { .. } => ReplyKind::Success,
            Operation::Unmount => ReplyKind::Success,
            Operation::Synchronize { .. } => ReplyKind::Success,
            Operation::ReclaimItem { .. } => ReplyKind::Success,
            Operation::RemoveItem { .. } => ReplyKind::Success,
            Operation::Deactivate => ReplyKind::Success,
            Operation::SetXattr { .. } => ReplyKind::Success,
            Operation::OpenItem { .. } => ReplyKind::Success,
            Operation::CloseItem { .. } => ReplyKind::Success,
            Operation::DeactivateItem { .. } => ReplyKind::Success,
        }
    }
}

/// `p` is what a successful call with reply kind `kind` returns: nothing
/// for a plain success, raw bytes for data, a count, a yes or no, and an
/// encoded message for every other kind.
pub open spec fn payload_fits(kind: ReplyKind, p: Payload) -> bool {
    match kind {
        ReplyKind::Success => p is Unit,
        ReplyKind::Data => p is Bytes,
        ReplyKind::ByteCount => p is Count,
        ReplyKind::Allow => p is Flag,
        _ => p is Message,
    }
}

/// The response content that carries payload `p` of a call with reply kind
/// `kind`.
pub open spec fn reply_of(kind: ReplyKind, p: Payload) -> ResponseContent {
    match (kind, p) {
        (ReplyKind::ResourceIdentifier, Payload::Message(m)) => ResponseContent::ResourceIdentifier(m),
        (ReplyKind::VolumeIdentifier, Payload::Message(m)) => ResponseContent::VolumeIdentifier(m),
        (ReplyKind::VolumeBehavior, Payload::Message(m)) => ResponseContent::VolumeBehavior(m),
        (ReplyKind::PathConfOperations, Payload::Message(m)) => ResponseContent::PathConfOperations(m),
        (ReplyKind::SupportedCapabilities, Payload::Message(m)) => ResponseContent::SupportedCapabilities(m),
        (ReplyKind::StatFsResult, Payload::Message(m)) => ResponseContent::StatFsResult(m),
        (ReplyKind::ItemAttributes, Payload::Message(m)) => ResponseContent::ItemAttributes(m),
        (ReplyKind::Item, Payload::Message(m)) => ResponseContent::Item(m),
        (ReplyKind::DirectoryEntries, Payload::Message(m)) => ResponseContent::DirectoryEntries(m),
        (ReplyKind::Xattrs, Payload::Message(m)) => ResponseContent::Xattrs(m),
        (ReplyKind::Data, Payload::Bytes(b)) => ResponseContent::Data(b),
        (ReplyKind::ByteCount, Payload::Count(c)) => ResponseContent::ByteCount(c),
        (ReplyKind::Allow, Payload::Flag(f)) => ResponseContent::Allow(f),
        _ => ResponseContent::Success,
    }
}

/// Answers request `request_id` after its file system call: a POSIX error
/// becomes a `PosixError` response with its number, a success the response
/// of the call's reply kind carrying what the call returned.
pub fn complete(request_id: u64, kind: ReplyKind, result: Result<Payload, Error>) -> (r: Response)
    requires
        result matches Ok(p) ==> payload_fits(kind, p),
    ensures
        r == answer(
            request_id,
            match result {
                Ok(p) => reply_of(kind, p),
                Err(Error::Posix(code)) => ResponseContent::PosixError(code),
            },
        ),
{
    let content = match result {
        Err(Error::Posix(code)) => ResponseContent::PosixError(code),
        Ok(p) => match (kind, p) {
            (ReplyKind::ResourceIdentifier, Payload::Message(m)) => ResponseContent::ResourceIdentifier(m),
            (ReplyKind::VolumeIdentifier, Payload::Message(m)) => ResponseContent::VolumeIdentifier(m),
            (ReplyKind::VolumeBehavior, Payload::Message(m)) => ResponseContent::VolumeBehavior(m),
            (ReplyKind::PathConfOperations, Payload::Message(m)) => ResponseContent::PathConfOperations(m),
            (ReplyKind::SupportedCapabilities, Payload::Message(m)) => ResponseContent::SupportedCapabilities(m),
            (ReplyKind::StatFsResult, Payload::Message(m)) => ResponseContent::StatFsResult(m),
            (ReplyKind::ItemAttributes, Payload::Message(m)) => ResponseContent::ItemAttributes(m),
            (ReplyKind::Item, Payload::Message(m)) => ResponseContent::Item(m),
            (ReplyKind::DirectoryEntries, Payload::Message(m)) => ResponseContent::DirectoryEntries(m),
            (ReplyKind::Xattrs, Payload::Message(m)) => ResponseContent::Xattrs(m),
            (ReplyKind::Data, Payload::Bytes(b)) => ResponseContent::Data(b),
            (ReplyKind::ByteCount, Payload::Count(c)) => ResponseContent::ByteCount(c),
            (ReplyKind::Allow, Payload::Flag(f)) => ResponseContent::Allow(f),
            _ => ResponseContent::Success,
        },
    };
    Response { request_id, content: Some(content) }
}

/// Law: a dispatched call carries the request's arguments unchanged, each in
/// the argument of the same name: identifiers, names, positions, contents
/// and embedded messages.  Enumerated arguments are the value the request
/// names, or the enum's default, and lists of them keep the values the
/// request names, in order.
pub proof fn lemma_dispatch_keeps_arguments(c: RequestContent, op: Operation)
    requires
        calls_for(c, op),
    ensures
        c is RenameItem ==> {
            &&& op is RenameItem
            &&& op->RenameItem_item_id == c->RenameItem_item_id
            &&& op->source_directory_id == c->source_directory_id
            &&& op->source_name == c->source_name
            &&& op->destination_name == c->destination_name
            &&& op->destination_directory_id == c->destination_directory_id
            &&& op->over_item_id == c->over_item_id
        },
        c is Read ==> {
            &&& op is Read
            &&& op->Read_item_id == c->Read_item_id
            &&& op->Read_offset == c->Read_offset
            &&& op->Read_length == c->Read_length
        },
        c is Write ==> {
            &&& op is Write
            &&& op->Write_item_id == c->Write_item_id
            &&& op->Write_offset == c->Write_offset
            &&& op->Write_contents == c->Write_contents
        },
        c is PreallocateSpace ==> {
            &&& op is PreallocateSpace
            &&& op->PreallocateSpace_item_id == c->PreallocateSpace_item_id
            &&& op->PreallocateSpace_offset == c->PreallocateSpace_offset
            &&& op->PreallocateSpace_length == c->PreallocateSpace_length
            &&& op->PreallocateSpace_flags@ == known_values(c->PreallocateSpace_flags@)
        },
        c is LookupItem ==> {
            &&& op is LookupItem
            &&& op->LookupItem_name == c->LookupItem_name
            &&& op->LookupItem_directory_id == c->LookupItem_directory_id
        },
        c is CreateItem && !is_rejected(c) ==> {
            &&& op is CreateItem
            &&& op->CreateItem_name == c->CreateItem_name
            &&& Some(op->item_type) == c->item_type
            &&& op->CreateItem_directory_id == c->CreateItem_directory_id
            &&& Some(op->CreateItem_attributes) == c->CreateItem_attributes
        },
        c is CreateSymbolicLink && !is_rejected(c) ==> {
            &&& op is CreateSymbolicLink
            &&& op->CreateSymbolicLink_name == c->CreateSymbolicLink_name
            &&& op->CreateSymbolicLink_directory_id == c->CreateSymbolicLink_directory_id
            &&& Some(op->CreateSymbolicLink_new_attributes) == c->CreateSymbolicLink_new_attributes
            &&& op->CreateSymbolicLink_contents == c->CreateSymbolicLink_contents
        },
        c is CreateLink ==> {
            &&& op is CreateLink
            &&& op->CreateLink_item_id == c->CreateLink_item_id
            &&& op->CreateLink_name == c->CreateLink_name
            &&& op->CreateLink_directory_id == c->CreateLink_directory_id
        },
        c is RemoveItem ==> {
            &&& op is RemoveItem
            &&& op->RemoveItem_item_id == c->RemoveItem_item_id
            &&& op->RemoveItem_name == c->RemoveItem_name
            &&& op->RemoveItem_directory_id == c->RemoveItem_directory_id
        },
        c is EnumerateDirectory ==> {
            &&& op is EnumerateDirectory
            &&& op->EnumerateDirectory_directory_id == c->EnumerateDirectory_directory_id
            &&& op->cookie == c->cookie
            &&& op->verifier == c->verifier
        },
        c is GetXattr ==> {
            &&& op is GetXattr
            &&& op->GetXattr_name == c->GetXattr_name
            &&& op->GetXattr_item_id == c->GetXattr_item_id
        },
        c is SetXattr ==> {
            &&& op is SetXattr
            &&& op->SetXattr_name == c->SetXattr_name
            &&& op->SetXattr_value == c->SetXattr_value
            &&& op->SetXattr_item_id == c->SetXattr_item_id
            &&& (c->policy matches Some(p) ==> op->policy == p)
            &&& (c->policy is None ==> op->policy == 0)
        },
        c is Synchronize ==> {
            &&& op is Synchronize
            &&& (c->Synchronize_flags matches Some(f) ==> op->Synchronize_flags == f)
            &&& (c->Synchronize_flags is None ==> op->Synchronize_flags == 0)
        },
        c is OpenItem ==> {
            &&& op is OpenItem
            &&& op->OpenItem_item_id == c->OpenItem_item_id
            &&& op->OpenItem_modes@ == known_values(c->OpenItem_modes@)
        },
        c is CloseItem ==> {
            &&& op is CloseItem
            &&& op->CloseItem_item_id == c->CloseItem_item_id
            &&& op->CloseItem_modes@ == known_values(c->CloseItem_modes@)
        },
        c is CheckAccess ==> {
            &&& op is CheckAccess
            &&& op->CheckAccess_item_id == c->CheckAccess_item_id
            &&& op->access@ == known_values(c->access@)
        },
        c is SetAttributes && !is_rejected(c) ==> {
            &&& op is SetAttributes
            &&& op->SetAttributes_item_id == c->SetAttributes_item_id
            &&& Some(op->SetAttributes_attributes) == c->SetAttributes_attributes
        },
        c is Mount && !is_rejected(c) ==> op is Mount && Some(op->Mount_options) == c->Mount_options,
        c is Activate && !is_rejected(c) ==> op is Activate && Some(op->Activate_options) == c->Activate_options,
        c is GetAttributes ==> op is GetAttributes && op->GetAttributes_item_id == c->GetAttributes_item_id,
        c is ReclaimItem ==> op is ReclaimItem && op->ReclaimItem_item_id == c->ReclaimItem_item_id,
        c is ReadSymbolicLink ==> op is ReadSymbolicLink && op->ReadSymbolicLink_item_id
            == c->ReadSymbolicLink_item_id,
        c is GetSupportedXattrNames ==> op is GetSupportedXattrNames && op->GetSupportedXattrNames_item_id
            == c->GetSupportedXattrNames_item_id,
        c is GetXattrs ==> op is GetXattrs && op->GetXattrs_item_id == c->GetXattrs_item_id,
        c is SetVolumeName ==> op is SetVolumeName && op->SetVolumeName_name == c->SetVolumeName_name,
        c is DeactivateItem ==> op is DeactivateItem && op->DeactivateItem_item_id == c->DeactivateItem_item_id,
        c is GetResourceIdentifier ==> op is GetResourceIdentifier,
        c is GetVolumeIdentifier ==> op is GetVolumeIdentifier,
        c is GetVolumeBehavior ==> op is GetVolumeBehavior,
        c is GetPathConfOperations ==> op is GetPathConfOperations,
        c is GetVolumeCapabilities ==> op is GetVolumeCapabilities,
        c is GetVolumeStatistics ==> op is GetVolumeStatistics,
        c is Unmount ==> op is Unmount,
        c is Deactivate ==> op is Deactivate,
{
}

/// Law: a request is refused at once exactly when it lacks the options of a
/// mount or an activation, the attributes of an attribute change or of a new
/// item or symbolic link, or names an item type that does not exist; every
/// other request goes to the file system.
pub proof fn lemma_rejection_rule(c: RequestContent)
    ensures
        c is Mount ==> (is_rejected(c) <==> c->Mount_options is None),
        c is Activate ==> (is_rejected(c) <==> c->Activate_options is None),
        c is SetAttributes ==> (is_rejected(c) <==> c->SetAttributes_attributes is None),
        c is CreateSymbolicLink ==> (is_rejected(c) <==> c->CreateSymbolicLink_new_attributes is None),
        c is CreateItem ==> (is_rejected(c) <==> c->item_type is None || c->CreateItem_attributes is None),
        !(c is Mount || c is Activate || c is SetAttributes || c is CreateSymbolicLink || c is CreateItem)
            ==> !is_rejected(c),
{
}

/// Law: the known values of a list are found piece by piece: a value the
/// enum names is kept, one it does not is dropped, and the values of two
/// lists one after the other are those of the first, then those of the
/// second.
pub proof fn lemma_known_values(a: Seq<Option<i32>>, b: Seq<Option<i32>>, v: i32)
    ensures
        known_values(Seq::empty()) == Seq::<i32>::empty(),
        known_values(seq![Some(v)]) == seq![v],
        known_values(seq![None]) == Seq::<i32>::empty(),
        known_values(a + b) == known_values(a) + known_values(b),
    decreases b.len(),
{
    let one: Seq<Option<i32>> = seq![Some(v)];
    assert(one.drop_last() =~= Seq::<Option<i32>>::empty());
    let none: Seq<Option<i32>> = seq![None];
    assert(none.drop_last() =~= Seq::<Option<i32>>::empty());
    assert(Seq::<i32>::empty().push(v) =~= seq![v]);
    if b.len() == 0 {
        assert(a + b =~= a);
        assert(known_values(a) + Seq::<i32>::empty() =~= known_values(a));
    } else {
        lemma_known_values(a, b.drop_last(), v);
        assert((a + b).drop_last() =~= a + b.drop_last());
        assert((a + b).last() == b.last());
        match b.last() {
            Some(x) => {
                assert(known_values(a) + known_values(b.drop_last()).push(x)
                    =~= (known_values(a) + known_values(b.drop_last())).push(x));
            },
            None => {},
        }
    }
}

/// Law: the response kind of each operation, by what its call returns:
/// volume queries answer with their own kind, attribute calls with item
/// attributes, calls that find or make an item with the item, calls that
/// return bytes with data, directory listing with directory entries,
/// extended attribute listings with the attribute names, writes and
/// preallocation with a byte count, access checks with a yes or no, and
/// every other call with plain success.
pub proof fn lemma_reply_kinds(op: Operation)
    ensures
        op is GetResourceIdentifier ==> op.reply_kind_of() == ReplyKind::ResourceIdentifier,
        op is GetVolumeIdentifier ==> op.reply_kind_of() == ReplyKind::VolumeIdentifier,
        op is GetVolumeBehavior ==> op.reply_kind_of() == ReplyKind::VolumeBehavior,
        op is GetPathConfOperations ==> op.reply_kind_of() == ReplyKind::PathConfOperations,
        op is GetVolumeCapabilities ==> op.reply_kind_of() == ReplyKind::SupportedCapabilities,
        op is GetVolumeStatistics ==> op.reply_kind_of() == ReplyKind::StatFsResult,
        op is GetAttributes || op is SetAttributes ==> op.reply_kind_of() == ReplyKind::ItemAttributes,
        op is LookupItem || op is CreateItem || op is CreateSymbolicLink || op is Activate
            ==> op.reply_kind_of() == ReplyKind::Item,
        op is ReadSymbolicLink || op is CreateLink || op is RenameItem || op is GetXattr || op is Read
            || op is SetVolumeName ==> op.reply_kind_of() == ReplyKind::Data,
        op is EnumerateDirectory ==> op.reply_kind_of() == ReplyKind::DirectoryEntries,
        op is GetSupportedXattrNames || op is GetXattrs ==> op.reply_kind_of() == ReplyKind::Xattrs,
        op is Write || op is PreallocateSpace ==> op.reply_kind_of() == ReplyKind::ByteCount,
        op is CheckAccess ==> op.reply_kind_of() == ReplyKind::Allow,
        op is Mount || op is Unmount || op is Synchronize || op is ReclaimItem || op is RemoveItem
            || op is Deactivate || op is SetXattr || op is OpenItem || op is CloseItem
            || op is DeactivateItem ==> op.reply_kind_of() == ReplyKind::Success,
{
}

/// Law: a successful call is answered with the response named after its
/// reply kind, carrying exactly what the call returned; a failed call is
/// answered with its POSIX error number.
pub proof fn lemma_replies_carry_results(m: Vec<u8>, n: i64, f: bool, code: i32)
    ensures
        reply_of(ReplyKind::ResourceIdentifier, Payload::Message(m)) == ResponseContent::ResourceIdentifier(m),
        reply_of(ReplyKind::VolumeIdentifier, Payload::Message(m)) == ResponseContent::VolumeIdentifier(m),
        reply_of(ReplyKind::VolumeBehavior, Payload::Message(m)) == ResponseContent::VolumeBehavior(m),
        reply_of(ReplyKind::PathConfOperations, Payload::Message(m)) == ResponseContent::PathConfOperations(m),
        reply_of(ReplyKind::SupportedCapabilities, Payload::Message(m))
            == ResponseContent::SupportedCapabilities(m),
        reply_of(ReplyKind::StatFsResult, Payload::Message(m)) == ResponseContent::StatFsResult(m),
        reply_of(ReplyKind::ItemAttributes, Payload::Message(m)) == ResponseContent::ItemAttributes(m),
        reply_of(ReplyKind::Item, Payload::Message(m)) == ResponseContent::Item(m),
        reply_of(ReplyKind::DirectoryEntries, Payload::Message(m)) == ResponseContent::DirectoryEntries(m),
        reply_of(ReplyKind::Xattrs, Payload::Message(m)) == ResponseContent::Xattrs(m),
        reply_of(ReplyKind::Data, Payload::Bytes(m)) == ResponseContent::Data(m),
        reply_of(ReplyKind::ByteCount, Payload::Count(n)) == ResponseContent::ByteCount(n),
        reply_of(ReplyKind::Allow, Payload::Flag(f)) == ResponseContent::Allow(f),
        reply_of(ReplyKind::Success, Payload::Unit) == ResponseContent::Success,
        forall|kind: ReplyKind, p: Payload| #[trigger] payload_fits(kind, p) ==> !(reply_of(kind, p) is PosixError),
{
}

} // verus!
