//! A mirror of the observation mechanism's event vocabulary: the nested,
//! closed classification a raw notification arrives with, before it is
//! normalized into the domain taxonomy.

use vstd::prelude::*;

verus! {

/// Raw access mode reported with an open or close notification.
#[derive(Clone, Copy, Debug, PartialEq, Eq, Structural)]
pub enum RawAccessMode {
    Any,
    Execute,
    Read,
    Write,
    Other,
}

/// Raw classification of an access notification.
#[derive(Clone, Copy, Debug, PartialEq, Eq, Structural)]
pub enum RawAccessKind {
    Any,
    Read,
    Open(RawAccessMode),
    Close(RawAccessMode),
    Other,
}

/// Raw classification of a creation notification.
#[derive(Clone, Copy, Debug, PartialEq, Eq, Structural)]
pub enum RawCreateKind {
    Any,
    File,
    Folder,
    Other,
}

/// Raw classification of a data-change notification.
#[derive(Clone, Copy, Debug, PartialEq, Eq, Structural)]
pub enum RawDataChange {
    Any,
    Size,
    Content,
    Other,
}

/// Raw classification of a metadata-change notification.
#[derive(Clone, Copy, Debug, PartialEq, Eq, Structural)]
pub enum RawMetadataKind {
    Any,
    AccessTime,
    WriteTime,
    Permissions,
    Ownership,
    Extended,
    Other,
}

/// Raw classification of a rename notification.
#[derive(Clone, Copy, Debug, PartialEq, Eq, Structural)]
pub enum RawRenameMode {
    Any,
    To,
    From,
    Both,
    Other,
}

/// Raw classification of a modification notification.
#[derive(Clone, Copy, Debug, PartialEq, Eq, Structural)]
pub enum RawModifyKind {
    Any,
    Data(RawDataChange),
    Metadata(RawMetadataKind),
    Name(RawRenameMode),
    Other,
}

/// Raw classification of a removal notification.
#[derive(Clone, Copy, Debug, PartialEq, Eq, Structural)]
pub enum RawRemoveKind {
    Any,
    File,
    Folder,
    Other,
}

/// The top-level raw classification of a notification.
#[derive(Clone, Copy, Debug, PartialEq, Eq, Structural)]
pub enum RawEventKind {
    Any,
    Access(RawAccessKind),
    Create(RawCreateKind),
    Modify(RawModifyKind),
    Remove(RawRemoveKind),
    Other,
}

/// What this layer reads of a raw notification: its classification and the
/// first path it reported, if it reported a usable one. `first_path` is
/// `None` both when the notification carried no path at all and when the path
/// was not representable as text; either way the notification is dropped.
#[derive(Clone, Debug, PartialEq, Eq)]
pub struct Notification {
    pub kind: RawEventKind,
    pub first_path: Option<String>,
}

} // verus!
