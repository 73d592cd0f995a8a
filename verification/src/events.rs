//! The domain event taxonomy: the closed set of event variants handed to the
//! consumer, together with the constructors that build them.

use vstd::prelude::*;

use crate::notification::{RawAccessMode, RawDataChange, RawMetadataKind};

verus! {

/// Classification of the filesystem object an event concerns.
#[derive(Clone, Copy, Debug, PartialEq, Eq, Structural)]
pub enum ObjectType {
    File,
    Dir,
    Other,
}

/// The way a watched object was accessed.
#[derive(Clone, Copy, Debug, PartialEq, Eq, Structural)]
pub enum AccessType {
    Open,
    Read,
    Close,
    Other,
}

/// The mode an object was opened or closed with.
#[derive(Clone, Copy, Debug, PartialEq, Eq, Structural)]
pub enum AccessMode {
    Read,
    Write,
    Execute,
    Other,
}

/// Which piece of metadata a metadata modification touched.
#[derive(Clone, Copy, Debug, PartialEq, Eq, Structural)]
pub enum MetadataType {
    AccessTime,
    WriteTime,
    Permissions,
    Ownership,
    Extended,
    Other,
}

/// What aspect of an object's data a data modification changed.
#[derive(Clone, Copy, Debug, PartialEq, Eq, Structural)]
pub enum DataChangeType {
    Size,
    Content,
    Other,
}

/// Which side of a rename a rename event reports.
#[derive(Clone, Copy, Debug, PartialEq, Eq, Structural)]
pub enum RenameType {
    From,
    To,
    Both,
    Other,
}

/// Sub-classification of a modification that is neither data, metadata nor a
/// rename.
#[derive(Clone, Copy, Debug, PartialEq, Eq, Structural)]
pub enum ModifyType {
    Other,
}

/// How a raw access mode lands in the taxonomy: the unclassified mode becomes
/// `None`, every other mode maps one to one.
pub open spec fn spec_access_mode_from_raw(raw: RawAccessMode) -> Option<AccessMode> {
    match raw {
        RawAccessMode::Any => None,
        RawAccessMode::Execute => Some(AccessMode::Execute),
        RawAccessMode::Read => Some(AccessMode::Read),
        RawAccessMode::Write => Some(AccessMode::Write),
        RawAccessMode::Other => Some(AccessMode::Other),
    }
}

/// How a raw metadata sub-kind lands in the taxonomy: the unclassified kind
/// becomes `None`, every other kind maps one to one.
pub open spec fn spec_metadata_type_from_raw(raw: RawMetadataKind) -> Option<MetadataType> {
    match raw {
        RawMetadataKind::Any => None,
        RawMetadataKind::AccessTime => Some(MetadataType::AccessTime),
        RawMetadataKind::WriteTime => Some(MetadataType::WriteTime),
        RawMetadataKind::Permissions => Some(MetadataType::Permissions),
        RawMetadataKind::Ownership => Some(MetadataType::Ownership),
        RawMetadataKind::Extended => Some(MetadataType::Extended),
        RawMetadataKind::Other => Some(MetadataType::Other),
    }
}

/// How a raw data-change sub-kind lands in the taxonomy: the unclassified kind
/// becomes `None`, every other kind maps one to one.
pub open spec fn spec_data_change_type_from_raw(raw: RawDataChange) -> Option<DataChangeType> {
    match raw {
        RawDataChange::Any => None,
        RawDataChange::Size => Some(DataChangeType::Size),
        RawDataChange::Content => Some(DataChangeType::Content),
        RawDataChange::Other => Some(DataChangeType::Other),
    }
}

impl AccessMode {
    pub fn from_raw(raw: RawAccessMode) -> (r: Option<AccessMode>)
        ensures
            r == spec_access_mode_from_raw(raw),
    {
        match raw {
            RawAccessMode::Any => None,
            RawAccessMode::Execute => Some(AccessMode::Execute),
            RawAccessMode::Read => Some(AccessMode::Read),
            RawAccessMode::Write => Some(AccessMode::Write),
            RawAccessMode::Other => Some(AccessMode::Other),
        }
    }
}

impl MetadataType {
    pub fn from_raw(raw: RawMetadataKind) -> (r: Option<MetadataType>)
        ensures
            r == spec_metadata_type_from_raw(raw),
    {
        match raw {
            RawMetadataKind::Any => None,
            RawMetadataKind::AccessTime => Some(MetadataType::AccessTime),
            RawMetadataKind::WriteTime => Some(MetadataType::WriteTime),
            RawMetadataKind::Permissions => Some(MetadataType::Permissions),
            RawMetadataKind::Ownership => Some(MetadataType::Ownership),
            RawMetadataKind::Extended => Some(MetadataType::Extended),
            RawMetadataKind::Other => Some(MetadataType::Other),
        }
    }
}

impl DataChangeType {
    pub fn from_raw(raw: RawDataChange) -> (r: Option<DataChangeType>)
        ensures
            r == spec_data_change_type_from_raw(raw),
    {
        match raw {
            RawDataChange::Any => None,
            RawDataChange::Size => Some(DataChangeType::Size),
            RawDataChange::Content => Some(DataChangeType::Content),
            RawDataChange::Other => Some(DataChangeType::Other),
        }
    }
}

/// Extra attributes attached to every event. The tracker id is reserved for
/// correlating related events and is always absent in this version.
#[derive(Clone, Debug, PartialEq, Eq)]
pub struct EventAttributes {
    pub tracker: Option<u64>,
}

/// The tagged union of domain event variants. Every sub-field is optional
/// because the observation mechanism may classify a change more coarsely than
/// the sub-enum: an unclassified sub-kind becomes `None`.
#[derive(Clone, Debug, PartialEq, Eq)]
pub enum EventType {
    Create { object_type: Option<ObjectType> },
    Remove { object_type: Option<ObjectType> },
    Access { access_type: Option<AccessType>, access_mode: Option<AccessMode> },
    ModifyMetadata { metadata_type: Option<MetadataType> },
    ModifyData { change_type: Option<DataChangeType> },
    ModifyRename { rename_type: Option<RenameType> },
    ModifyOther { modify_type: Option<ModifyType> },
    Other,
    Unknown,
}

/// The normalized domain event emitted to the consumer: a variant, the moment
/// of normalization in nanoseconds since the epoch, the first path the
/// observation mechanism reported, and the reserved attributes.
#[derive(Clone, Debug, PartialEq, Eq)]
pub struct RawEvent {
    pub event_type: EventType,
    pub detected_at_ns: u128,
    pub path: String,
    pub attributes: EventAttributes,
}

pub fn new_create_event(
    object_type: Option<ObjectType>,
    detected_at_ns: u128,
    path: String,
    attributes: EventAttributes,
) -> (r: RawEvent)
    ensures
        r == (RawEvent {
            event_type: EventType::Create { object_type },
            detected_at_ns,
            path,
            attributes,
        }),
{
    RawEvent { event_type: EventType::Create { object_type }, detected_at_ns, path, attributes }
}

pub fn new_remove_event(
    object_type: Option<ObjectType>,
    detected_at_ns: u128,
    path: String,
    attributes: EventAttributes,
) -> (r: RawEvent)
    ensures
        r == (RawEvent {
            event_type: EventType::Remove { object_type },
            detected_at_ns,
            path,
            attributes,
        }),
{
    RawEvent { event_type: EventType::Remove { object_type }, detected_at_ns, path, attributes }
}

pub fn new_access_event(
    access_type: Option<AccessType>,
    access_mode: Option<AccessMode>,
    detected_at_ns: u128,
    path: String,
    attributes: EventAttributes,
) -> (r: RawEvent)
    ensures
        r == (RawEvent {
            event_type: EventType::Access { access_type, access_mode },
            detected_at_ns,
            path,
            attributes,
        }),
{
    RawEvent {
        event_type: EventType::Access { access_type, access_mode },
        detected_at_ns,
        path,
        attributes,
    }
}

pub fn new_modify_metadata_event(
    metadata_type: Option<MetadataType>,
    detected_at_ns: u128,
    path: String,
    attributes: EventAttributes,
) -> (r: RawEvent)
    ensures
        r == (RawEvent {
            event_type: EventType::ModifyMetadata { metadata_type },
            detected_at_ns,
            path,
            attributes,
        }),
{
    RawEvent {
        event_type: EventType::ModifyMetadata { metadata_type },
        detected_at_ns,
        path,
        attributes,
    }
}

pub fn new_modify_data_event(
    change_type: Option<DataChangeType>,
    detected_at_ns: u128,
    path: String,
    attributes: EventAttributes,
) -> (r: RawEvent)
    ensures
        r == (RawEvent {
            event_type: EventType::ModifyData { change_type },
            detected_at_ns,
            path,
            attributes,
        }),
{
    RawEvent { event_type: EventType::ModifyData { change_type }, detected_at_ns, path, attributes }
}

pub fn new_rename_event(
    rename_type: Option<RenameType>,
    detected_at_ns: u128,
    path: String,
    attributes: EventAttributes,
) -> (r: RawEvent)
    ensures
        r == (RawEvent {
            event_type: EventType::ModifyRename { rename_type },
            detected_at_ns,
            path,
            attributes,
        }),
{
    RawEvent {
        event_type: EventType::ModifyRename { rename_type },
        detected_at_ns,
        path,
        attributes,
    }
}

pub fn new_modify_event(
    modify_type: Option<ModifyType>,
    detected_at_ns: u128,
    path: String,
    attributes: EventAttributes,
) -> (r: RawEvent)
    ensures
        r == (RawEvent {
            event_type: EventType::ModifyOther { modify_type },
            detected_at_ns,
            path,
            attributes,
        }),
{
    RawEvent {
        event_type: EventType::ModifyOther { modify_type },
        detected_at_ns,
        path,
        attributes,
    }
}

pub fn new_other_event(detected_at_ns: u128, path: String, attributes: EventAttributes) -> (r:
    RawEvent)
    ensures
        r == (RawEvent { event_type: EventType::Other, detected_at_ns, path, attributes }),
{
    RawEvent { event_type: EventType::Other, detected_at_ns, path, attributes }
}

pub fn new_unknown_event(detected_at_ns: u128, path: String, attributes: EventAttributes) -> (r:
    RawEvent)
    ensures
        r == (RawEvent { event_type: EventType::Unknown, detected_at_ns, path, attributes }),
{
    RawEvent { event_type: EventType::Unknown, detected_at_ns, path, attributes }
}

} // verus!
