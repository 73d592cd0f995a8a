//! The engine's verified core: the normalization of raw notifications into
//! domain events, the per-path decisions of watch and unwatch, backend
//! selection with its polling fallback, the dispatch-step logic of the
//! background worker, and the lifecycle state machine that keeps at most one
//! dispatch thread alive.

use vstd::prelude::*;

use crate::errors::{spec_map_notify_error, map_notify_error, BackendError, BackendErrorKind,
    WatcherError};
use crate::events::{spec_access_mode_from_raw, spec_data_change_type_from_raw,
    spec_metadata_type_from_raw, new_access_event, new_create_event, new_modify_data_event,
    new_modify_event, new_modify_metadata_event, new_other_event, new_remove_event,
    new_rename_event, new_unknown_event, AccessMode, AccessType, DataChangeType, EventAttributes,
    EventType, MetadataType, ModifyType, ObjectType, RawEvent, RenameType};
use crate::notification::{Notification, RawAccessKind, RawAccessMode, RawCreateKind, RawDataChange,
    RawEventKind, RawMetadataKind, RawModifyKind, RawRemoveKind, RawRenameMode};

verus! {

/// How a raw creation sub-kind classifies the created object.
pub open spec fn spec_created_object_type(raw: RawCreateKind) -> Option<ObjectType> {
    match raw {
        RawCreateKind::Any => None,
        RawCreateKind::File => Some(ObjectType::File),
        RawCreateKind::Folder => Some(ObjectType::Dir),
        RawCreateKind::Other => Some(ObjectType::Other),
    }
}

/// How a raw removal sub-kind classifies the removed object.
pub open spec fn spec_removed_object_type(raw: RawRemoveKind) -> Option<ObjectType> {
    match raw {
        RawRemoveKind::Any => None,
        RawRemoveKind::File => Some(ObjectType::File),
        RawRemoveKind::Folder => Some(ObjectType::Dir),
        RawRemoveKind::Other => Some(ObjectType::Other),
    }
}

/// How a raw rename sub-kind lands in the taxonomy: the unclassified mode
/// becomes `None`, every other mode maps one to one. A `Both` rename does not
/// carry the second path; only the first reported path is kept.
pub open spec fn spec_rename_type(raw: RawRenameMode) -> Option<RenameType> {
    match raw {
        RawRenameMode::Any => None,
        RawRenameMode::To => Some(RenameType::To),
        RawRenameMode::From => Some(RenameType::From),
        RawRenameMode::Both => Some(RenameType::Both),
        RawRenameMode::Other => Some(RenameType::Other),
    }
}

/// The normalization table: which domain event variant each raw notification
/// kind maps to. Total and deterministic over the whole raw vocabulary;
/// unclassified sub-kinds always yield `None` sub-fields.
pub open spec fn spec_event_type(kind: RawEventKind) -> EventType {
    match kind {
        RawEventKind::Create(ck) => EventType::Create { object_type: spec_created_object_type(ck) },
        RawEventKind::Remove(rk) => EventType::Remove { object_type: spec_removed_object_type(rk) },
        RawEventKind::Access(ak) => match ak {
            RawAccessKind::Open(m) => EventType::Access {
                access_type: Some(AccessType::Open),
                access_mode: spec_access_mode_from_raw(m),
            },
            RawAccessKind::Read => EventType::Access {
                access_type: Some(AccessType::Read),
                access_mode: None,
            },
            RawAccessKind::Close(m) => EventType::Access {
                access_type: Some(AccessType::Close),
                access_mode: spec_access_mode_from_raw(m),
            },
            RawAccessKind::Other => EventType::Access {
                access_type: Some(AccessType::Other),
                access_mode: None,
            },
            RawAccessKind::Any => EventType::Access { access_type: None, access_mode: None },
        },
        RawEventKind::Modify(mk) => match mk {
            RawModifyKind::Metadata(meta) => EventType::ModifyMetadata {
                metadata_type: spec_metadata_type_from_raw(meta),
            },
            RawModifyKind::Data(dc) => EventType::ModifyData {
                change_type: spec_data_change_type_from_raw(dc),
            },
            RawModifyKind::Name(rm) => EventType::ModifyRename {
                rename_type: spec_rename_type(rm),
            },
            RawModifyKind::Other => EventType::ModifyOther {
                modify_type: Some(ModifyType::Other),
            },
            RawModifyKind::Any => EventType::ModifyOther { modify_type: None },
        },
        RawEventKind::Other => EventType::Other,
        RawEventKind::Any => EventType::Unknown,
    }
}

/// The whole normalized event for a raw kind, a normalization instant and the
/// first reported path. The tracker attribute is always absent in this
/// version.
pub open spec fn spec_normalize(kind: RawEventKind, detected_at_ns: u128, path: String) -> RawEvent {
    RawEvent {
        event_type: spec_event_type(kind),
        detected_at_ns,
        path,
        attributes: EventAttributes { tracker: None },
    }
}

/// Normalization maps each raw kind to exactly one domain variant, and the
/// variant corresponds to the raw classification: creations to `Create`,
/// removals to `Remove`, accesses to `Access`, modifications to one of the
/// four modify variants, other kinds to `Other`, and the fully unclassified
/// kind to `Unknown`. Together with `spec_event_type` being a total function
/// of the kind, this is the determinism and totality of normalization.
pub proof fn lemma_normalization_variant_correspondence(kind: RawEventKind)
    ensures
        (spec_event_type(kind) is Create) == (kind is Create),
        (spec_event_type(kind) is Remove) == (kind is Remove),
        (spec_event_type(kind) is Access) == (kind is Access),
        ((spec_event_type(kind) is ModifyMetadata) || (spec_event_type(kind) is ModifyData) || (
        spec_event_type(kind) is ModifyRename) || (spec_event_type(kind) is ModifyOther)) == (kind
            is Modify),
        (spec_event_type(kind) is Other) == (kind is Other),
        (spec_event_type(kind) is Unknown) == (kind is Any),
{
}

/// Every unclassified raw kind or sub-kind normalizes to `None` fields rather
/// than failing: coarser OS reporting never loses the event.
pub proof fn lemma_unclassified_maps_to_none()
    ensures
        spec_event_type(RawEventKind::Create(RawCreateKind::Any)) == (EventType::Create {
            object_type: None::<ObjectType>,
        }),
        spec_event_type(RawEventKind::Remove(RawRemoveKind::Any)) == (EventType::Remove {
            object_type: None::<ObjectType>,
        }),
        spec_event_type(RawEventKind::Access(RawAccessKind::Any)) == (EventType::Access {
            access_type: None::<AccessType>,
            access_mode: None::<AccessMode>,
        }),
        spec_event_type(RawEventKind::Access(RawAccessKind::Open(RawAccessMode::Any))) == (
        EventType::Access {
            access_type: Some(AccessType::Open),
            access_mode: None::<AccessMode>,
        }),
        spec_event_type(RawEventKind::Access(RawAccessKind::Close(RawAccessMode::Any))) == (
        EventType::Access {
            access_type: Some(AccessType::Close),
            access_mode: None::<AccessMode>,
        }),
        spec_event_type(RawEventKind::Modify(RawModifyKind::Any)) == (EventType::ModifyOther {
            modify_type: None::<ModifyType>,
        }),
        spec_event_type(RawEventKind::Modify(RawModifyKind::Metadata(RawMetadataKind::Any))) == (
        EventType::ModifyMetadata { metadata_type: None::<MetadataType> }),
        spec_event_type(RawEventKind::Modify(RawModifyKind::Data(RawDataChange::Any))) == (
        EventType::ModifyData { change_type: None::<DataChangeType> }),
        spec_event_type(RawEventKind::Modify(RawModifyKind::Name(RawRenameMode::Any))) == (
        EventType::ModifyRename { rename_type: None::<RenameType> }),
{
}

/// Relies on std::time::SystemTime::now and SystemTime::duration_since:
/// wall-clock nanoseconds since the Unix epoch at the moment of the call; a
/// clock standing before the epoch yields 0. The result depends on the clock,
/// so nothing is stated of it.
#[verifier::external_body]
fn get_current_time_ns() -> u128 {
    match std::time::SystemTime::now().duration_since(std::time::SystemTime::UNIX_EPOCH) {
        Ok(duration) => duration.as_nanos(),
        Err(_) => 0,
    }
}

/// Normalize one raw notification kind at a given instant: a pure function of
/// its arguments, following the table of `spec_event_type`.
pub fn normalize(path: String, kind: RawEventKind, detected_at_ns: u128) -> (r: RawEvent)
    ensures
        r == spec_normalize(kind, detected_at_ns, path),
{
    let attrs = EventAttributes { tracker: None };
    match kind {
        RawEventKind::Create(create_kind) => match create_kind {
            RawCreateKind::File => new_create_event(
                Some(ObjectType::File),
                detected_at_ns,
                path,
                attrs,
            ),
            RawCreateKind::Folder => new_create_event(
                Some(ObjectType::Dir),
                detected_at_ns,
                path,
                attrs,
            ),
            RawCreateKind::Other => new_create_event(
                Some(ObjectType::Other),
                detected_at_ns,
                path,
                attrs,
            ),
            RawCreateKind::Any => new_create_event(None, detected_at_ns, path, attrs),
        },
        RawEventKind::Remove(remove_kind) => match remove_kind {
            RawRemoveKind::File => new_remove_event(
                Some(ObjectType::File),
                detected_at_ns,
                path,
                attrs,
            ),
            RawRemoveKind::Folder => new_remove_event(
                Some(ObjectType::Dir),
                detected_at_ns,
                path,
                attrs,
            ),
            RawRemoveKind::Other => new_remove_event(
                Some(ObjectType::Other),
                detected_at_ns,
                path,
                attrs,
            ),
            RawRemoveKind::Any => new_remove_event(None, detected_at_ns, path, attrs),
        },
        RawEventKind::Access(access_kind) => match access_kind {
            RawAccessKind::Open(access_mode) => new_access_event(
                Some(AccessType::Open),
                AccessMode::from_raw(access_mode),
                detected_at_ns,
                path,
                attrs,
            ),
            RawAccessKind::Read => new_access_event(
                Some(AccessType::Read),
                None,
                detected_at_ns,
                path,
                attrs,
            ),
            RawAccessKind::Close(access_mode) => new_access_event(
                Some(AccessType::Close),
                AccessMode::from_raw(access_mode),
                detected_at_ns,
                path,
                attrs,
            ),
            RawAccessKind::Other => new_access_event(
                Some(AccessType::Other),
                None,
                detected_at_ns,
                path,
                attrs,
            ),
            RawAccessKind::Any => new_access_event(None, None, detected_at_ns, path, attrs),
        },
        RawEventKind::Modify(modify_kind) => match modify_kind {
            RawModifyKind::Metadata(metadata_kind) => new_modify_metadata_event(
                MetadataType::from_raw(metadata_kind),
                detected_at_ns,
                path,
                attrs,
            ),
            RawModifyKind::Data(data_changed) => new_modify_data_event(
                DataChangeType::from_raw(data_changed),
                detected_at_ns,
                path,
                attrs,
            ),
            RawModifyKind::Name(rename_mode) => match rename_mode {
                RawRenameMode::From => new_rename_event(
                    Some(RenameType::From),
                    detected_at_ns,
                    path,
                    attrs,
                ),
                RawRenameMode::To => new_rename_event(
                    Some(RenameType::To),
                    detected_at_ns,
                    path,
                    attrs,
                ),
                RawRenameMode::Both => new_rename_event(
                    Some(RenameType::Both),
                    detected_at_ns,
                    path,
                    attrs,
                ),
                RawRenameMode::Other => new_rename_event(
                    Some(RenameType::Other),
                    detected_at_ns,
                    path,
                    attrs,
                ),
                RawRenameMode::Any => new_rename_event(None, detected_at_ns, path, attrs),
            },
            RawModifyKind::Other => new_modify_event(
                Some(ModifyType::Other),
                detected_at_ns,
                path,
                attrs,
            ),
            RawModifyKind::Any => new_modify_event(None, detected_at_ns, path, attrs),
        },
        RawEventKind::Other => new_other_event(detected_at_ns, path, attrs),
        RawEventKind::Any => new_unknown_event(detected_at_ns, path, attrs),
    }
}

/// Normalize one raw notification kind, stamping the event with the wall
/// clock at normalization time. Everything but the instant is pinned down.
pub fn create_event(path: String, kind: RawEventKind) -> (r: RawEvent)
    ensures
        r == spec_normalize(kind, r.detected_at_ns, path),
{
    let detected_at_ns = get_current_time_ns();
    normalize(path, kind, detected_at_ns)
}

/// One outcome of waiting on the notification channel with the bounded
/// timeout: a notification arrived, the channel carried a backend error, the
/// wait timed out, or the sending side is gone.
#[derive(Clone, Debug, PartialEq, Eq)]
pub enum ChannelPoll {
    Notification(Notification),
    NotificationError { message: String },
    Timeout,
    Disconnected,
}

/// What the dispatch worker does with one poll outcome: forward a normalized
/// event to the output queue, or forward nothing and poll again.
#[derive(Clone, Debug, PartialEq, Eq)]
pub enum DispatchAction {
    Emit(RawEvent),
    Skip,
}

/// Whether a poll outcome forwards an event: only a notification with a
/// usable first path does. A notification without one is dropped silently; a
/// channel error, a timeout and a disconnection are all non-fatal and forward
/// nothing.
pub open spec fn spec_emits(poll: ChannelPoll) -> bool {
    match poll {
        ChannelPoll::Notification(n) => n.first_path is Some,
        _ => false,
    }
}

/// The dispatch decision for one poll outcome at a given instant.
pub open spec fn spec_dispatch_action(poll: ChannelPoll, detected_at_ns: u128) -> DispatchAction {
    match poll {
        ChannelPoll::Notification(n) => match n.first_path {
            Some(path) => DispatchAction::Emit(spec_normalize(n.kind, detected_at_ns, path)),
            None => DispatchAction::Skip,
        },
        _ => DispatchAction::Skip,
    }
}

/// Decide one dispatch step at a given instant: a pure function of its
/// arguments.
pub fn dispatch_step_at(poll: ChannelPoll, detected_at_ns: u128) -> (a: DispatchAction)
    ensures
        a == spec_dispatch_action(poll, detected_at_ns),
{
    match poll {
        ChannelPoll::Notification(n) => match n.first_path {
            Some(path) => DispatchAction::Emit(normalize(path, n.kind, detected_at_ns)),
            None => DispatchAction::Skip,
        },
        _ => DispatchAction::Skip,
    }
}

/// Decide one dispatch step, stamping any forwarded event with the wall clock
/// at normalization time. Everything but the instant is pinned down.
pub fn dispatch_step(poll: ChannelPoll) -> (a: DispatchAction)
    ensures
        spec_emits(poll) ==> (a matches DispatchAction::Emit(ev)
            && a == spec_dispatch_action(poll, ev.detected_at_ns)),
        !spec_emits(poll) ==> a == DispatchAction::Skip,
{
    let detected_at_ns = get_current_time_ns();
    dispatch_step_at(poll, detected_at_ns)
}

/// Every notification with a usable path is forwarded, and the forwarded
/// event's path is exactly the first path the notification reported: what the
/// consumer receives for a mutation under a watched path names that path.
pub proof fn lemma_emitted_event_keeps_reported_path(n: Notification, detected_at_ns: u128)
    requires
        n.first_path is Some,
    ensures
        spec_dispatch_action(ChannelPoll::Notification(n), detected_at_ns)
            matches DispatchAction::Emit(ev) && Some(ev.path) == n.first_path && ev.event_type
            == spec_event_type(n.kind),
{
}

/// The event variants and paths a sequence of poll outcomes forwards to the
/// output queue, in arrival order. Instants are left out: they are stamped at
/// normalization time.
pub open spec fn spec_dispatch_emissions(polls: Seq<ChannelPoll>) -> Seq<(EventType, String)>
    decreases polls.len(),
{
    if polls.len() == 0 {
        Seq::empty()
    } else {
        let rest = spec_dispatch_emissions(polls.drop_first());
        match polls[0] {
            ChannelPoll::Notification(n) => match n.first_path {
                Some(path) => seq![(spec_event_type(n.kind), path)] + rest,
                None => rest,
            },
            _ => rest,
        }
    }
}

/// The dispatch worker neither reorders, batches nor deduplicates: what two
/// stretches of poll outcomes forward one after the other is exactly what the
/// first forwards followed by what the second forwards.
pub proof fn lemma_emissions_append(a: Seq<ChannelPoll>, b: Seq<ChannelPoll>)
    ensures
        spec_dispatch_emissions(a + b) == spec_dispatch_emissions(a) + spec_dispatch_emissions(b),
    decreases a.len(),
{
    if a.len() == 0 {
        assert(a + b =~= b);
        assert(spec_dispatch_emissions(a) + spec_dispatch_emissions(b) =~= spec_dispatch_emissions(
            b,
        ));
    } else {
        lemma_emissions_append(a.drop_first(), b);
        assert((a + b).drop_first() =~= a.drop_first() + b);
        assert((a + b)[0] == a[0]);
        match a[0] {
            ChannelPoll::Notification(n) => match n.first_path {
                Some(path) => {
                    assert(spec_dispatch_emissions(a + b) =~= spec_dispatch_emissions(a)
                        + spec_dispatch_emissions(b));
                },
                None => {},
            },
            _ => {},
        }
    }
}

/// Each emitting poll outcome forwards exactly the event the dispatch
/// decision builds for it, and a non-emitting one forwards nothing.
pub proof fn lemma_step_agrees_with_emissions(poll: ChannelPoll, detected_at_ns: u128)
    ensures
        spec_emits(poll) ==> (spec_dispatch_action(poll, detected_at_ns)
            matches DispatchAction::Emit(ev) && spec_dispatch_emissions(seq![poll]) == seq![
            (ev.event_type, ev.path),
        ]),
        !spec_emits(poll) ==> spec_dispatch_action(poll, detected_at_ns) == DispatchAction::Skip
            && spec_dispatch_emissions(seq![poll]) == Seq::<(EventType, String)>::empty(),
{
    reveal_with_fuel(spec_dispatch_emissions, 2);
    let s = seq![poll];
    assert(s.drop_first() =~= Seq::<ChannelPoll>::empty());
    assert(s.drop_first().len() == 0);
    if spec_emits(poll) {
        match poll {
            ChannelPoll::Notification(n) => match n.first_path {
                Some(path) => {
                    assert(spec_dispatch_emissions(s) =~= seq![(spec_event_type(n.kind), path)]);
                },
                None => {},
            },
            _ => {},
        }
    } else {
        assert(spec_dispatch_emissions(s) =~= Seq::<(EventType, String)>::empty());
    }
}

/// The registration mode a watch target is registered with.
#[derive(Clone, Copy, Debug, PartialEq, Eq, Structural)]
pub enum WatchMode {
    Recursive,
    NonRecursive,
}

/// The registration mode for a requested recursion flag.
pub fn watch_mode(recursive: bool) -> (m: WatchMode)
    ensures
        m == (if recursive {
            WatchMode::Recursive
        } else {
            WatchMode::NonRecursive
        }),
{
    if recursive {
        WatchMode::Recursive
    } else {
        WatchMode::NonRecursive
    }
}

/// What probing one watch target yielded: the path does not exist on the
/// filesystem, the backend registered it, or the backend refused it.
#[derive(Clone, Debug, PartialEq, Eq)]
pub enum PathProbe {
    Missing,
    Registered,
    RegistrationFailed(BackendError),
}

/// The decision for one watch target. A missing path fails with `NotFound`
/// naming that path, whatever the flags; any registration failure (not only a
/// permission one) is swallowed exactly when `ignore_permission_errors` is
/// set, and is otherwise mapped
/// into the categorized taxonomy. An `Err` aborts the paths after it; an `Ok`
/// lets the call move to the next path.
pub open spec fn spec_watch_step(
    path: String,
    probe: PathProbe,
    ignore_permission_errors: bool,
) -> Result<(), WatcherError> {
    match probe {
        PathProbe::Missing => Err(WatcherError::NotFound { message: path }),
        PathProbe::Registered => Ok(()),
        PathProbe::RegistrationFailed(e) => if ignore_permission_errors {
            Ok(())
        } else {
            Err(spec_map_notify_error(e))
        },
    }
}

/// Decide one watch target. The `NotFound` message names the missing path.
pub fn watch_step(path: String, probe: PathProbe, ignore_permission_errors: bool) -> (r: Result<
    (),
    WatcherError,
>)
    ensures
        r == spec_watch_step(path, probe, ignore_permission_errors),
{
    match probe {
        PathProbe::Missing => Err(WatcherError::NotFound { message: path }),
        PathProbe::Registered => Ok(()),
        PathProbe::RegistrationFailed(e) => if ignore_permission_errors {
            Ok(())
        } else {
            Err(map_notify_error(e))
        },
    }
}

/// The decision for one unwatch target: a deregistration failure is mapped
/// and propagated immediately, aborting the paths after it.
pub open spec fn spec_unwatch_step(failure: Option<BackendError>) -> Result<(), WatcherError> {
    match failure {
        None => Ok(()),
        Some(e) => Err(spec_map_notify_error(e)),
    }
}

/// Decide one unwatch target.
pub fn unwatch_step(failure: Option<BackendError>) -> (r: Result<(), WatcherError>)
    ensures
        r == spec_unwatch_step(failure),
{
    match failure {
        None => Ok(()),
        Some(e) => Err(map_notify_error(e)),
    }
}

/// The outcome of a watch call over its targets in order, stopping at the
/// first failing step. `paths` and `probes` pair each target with what
/// probing it yielded.
pub open spec fn spec_watch_batch_result(
    paths: Seq<String>,
    probes: Seq<PathProbe>,
    ignore_permission_errors: bool,
) -> Result<(), WatcherError>
    decreases paths.len(),
{
    if paths.len() == 0 || probes.len() == 0 {
        Ok(())
    } else {
        match spec_watch_step(paths[0], probes[0], ignore_permission_errors) {
            Ok(_) => spec_watch_batch_result(
                paths.drop_first(),
                probes.drop_first(),
                ignore_permission_errors,
            ),
            Err(e) => Err(e),
        }
    }
}

/// How many targets a watch call processes: every target up to and including
/// the first failing one, and none after it. Registration is never attempted
/// for a target the call does not reach, so a failure is not transactional:
/// targets registered before it stay registered.
pub open spec fn spec_watch_batch_processed(
    paths: Seq<String>,
    probes: Seq<PathProbe>,
    ignore_permission_errors: bool,
) -> int
    decreases paths.len(),
{
    if paths.len() == 0 || probes.len() == 0 {
        0
    } else {
        match spec_watch_step(paths[0], probes[0], ignore_permission_errors) {
            Ok(_) => 1 + spec_watch_batch_processed(
                paths.drop_first(),
                probes.drop_first(),
                ignore_permission_errors,
            ),
            Err(_) => 1,
        }
    }
}

/// A watch call over targets of which the one at position `i` is the first to
/// be missing (every earlier step succeeds) fails with `NotFound` naming that
/// target, and processes no target after it.
pub proof fn lemma_watch_missing_path_aborts(
    paths: Seq<String>,
    probes: Seq<PathProbe>,
    ignore_permission_errors: bool,
    i: int,
)
    requires
        paths.len() == probes.len(),
        0 <= i < probes.len(),
        probes[i] == PathProbe::Missing,
        forall|j: int|
            0 <= j < i ==> spec_watch_step(
                paths[j],
                #[trigger] probes[j],
                ignore_permission_errors,
            ) is Ok,
    ensures
        spec_watch_batch_result(paths, probes, ignore_permission_errors) == Err::<
            (),
            WatcherError,
        >(WatcherError::NotFound { message: paths[i] }),
        spec_watch_batch_processed(paths, probes, ignore_permission_errors) == i + 1,
    decreases i,
{
    if i == 0 {
    } else {
        assert(spec_watch_step(paths[0], probes[0], ignore_permission_errors) is Ok);
        lemma_watch_missing_path_aborts(
            paths.drop_first(),
            probes.drop_first(),
            ignore_permission_errors,
            i - 1,
        );
    }
}

/// A stretch of poll outcomes none of which emits — timeouts, channel errors,
/// disconnections, notifications without a usable path — forwards nothing to
/// the output queue.
pub proof fn lemma_quiet_polls_emit_nothing(polls: Seq<ChannelPoll>)
    requires
        forall|i: int| 0 <= i < polls.len() ==> !spec_emits(#[trigger] polls[i]),
    ensures
        spec_dispatch_emissions(polls) == Seq::<(EventType, String)>::empty(),
    decreases polls.len(),
{
    if polls.len() == 0 {
    } else {
        assert(!spec_emits(polls[0]));
        assert(forall|i: int|
            0 <= i < polls.drop_first().len() ==> !spec_emits(#[trigger] polls.drop_first()[i]));
        lemma_quiet_polls_emit_nothing(polls.drop_first());
        assert(spec_dispatch_emissions(polls) =~= Seq::<(EventType, String)>::empty());
    }
}

/// The two observation backends: the OS-native event-driven mechanism and the
/// timer-based polling mechanism. Chosen once at construction, never swapped.
#[derive(Clone, Copy, Debug, PartialEq, Eq, Structural)]
pub enum BackendKind {
    Native,
    Poll,
}

/// The raw OS error code on which a failed native backend construction falls
/// back to the polling backend instead of failing.
pub const POLL_FALLBACK_RAW_OS_CODE: i32 = 38;

/// What construction does after the native backend fails to build: fall back
/// to the polling backend, or surface a categorized error.
#[derive(Clone, Debug, PartialEq, Eq)]
pub enum ConstructionAction {
    FallBackToPolling,
    Fail(WatcherError),
}

/// Which backend construction tries first: the polling backend when it is
/// forced, the native backend otherwise.
pub fn choose_backend(force_polling: bool) -> (k: BackendKind)
    ensures
        k == (if force_polling {
            BackendKind::Poll
        } else {
            BackendKind::Native
        }),
{
    if force_polling {
        BackendKind::Poll
    } else {
        BackendKind::Native
    }
}

/// The decision after a failed native backend construction: an I/O failure
/// whose raw OS code marks the native mechanism as unavailable falls back to
/// polling; any other failure surfaces as a construction error retaining the
/// backend's message.
pub open spec fn spec_native_failure_action(e: BackendError) -> ConstructionAction {
    match e.kind {
        BackendErrorKind::Io { class: _, raw_os_code } => if raw_os_code == Some(
            POLL_FALLBACK_RAW_OS_CODE,
        ) {
            ConstructionAction::FallBackToPolling
        } else {
            ConstructionAction::Fail(WatcherError::ConstructionFailure { message: e.message })
        },
        _ => ConstructionAction::Fail(WatcherError::ConstructionFailure { message: e.message }),
    }
}

/// Decide what a failed native backend construction becomes.
pub fn native_failure_action(e: BackendError) -> (a: ConstructionAction)
    ensures
        a == spec_native_failure_action(e),
{
    match e.kind {
        BackendErrorKind::Io { class: _, raw_os_code } => match raw_os_code {
            Some(code) => if code == POLL_FALLBACK_RAW_OS_CODE {
                ConstructionAction::FallBackToPolling
            } else {
                ConstructionAction::Fail(
                    WatcherError::ConstructionFailure { message: e.message },
                )
            },
            None => ConstructionAction::Fail(
                WatcherError::ConstructionFailure { message: e.message },
            ),
        },
        _ => ConstructionAction::Fail(WatcherError::ConstructionFailure { message: e.message }),
    }
}

/// A failed polling backend construction always surfaces as a construction
/// error retaining the backend's message: there is nothing left to fall back
/// to.
pub fn poll_failure_error(e: BackendError) -> (r: WatcherError)
    ensures
        r == (WatcherError::ConstructionFailure { message: e.message }),
{
    WatcherError::ConstructionFailure { message: e.message }
}

/// A native backend construction that fails with the fallback OS code never
/// surfaces an error: construction proceeds with the polling backend.
pub proof fn lemma_native_unavailable_falls_back(e: BackendError)
    requires
        e.kind matches BackendErrorKind::Io { class: _, raw_os_code } && raw_os_code == Some(
            POLL_FALLBACK_RAW_OS_CODE,
        ),
    ensures
        spec_native_failure_action(e) == ConstructionAction::FallBackToPolling,
{
}

/// The lifecycle state shared between the facade and its background dispatch
/// worker: whether a worker is considered alive, and whether it has been
/// asked to stop. The facade spawns a worker only when `on_start` says so and
/// joins one only when `on_stop` says so, which keeps at most one worker
/// alive at any time.
#[derive(Clone, Copy, Debug, PartialEq, Eq, Structural)]
pub struct Lifecycle {
    pub running: bool,
    pub cancel_requested: bool,
}

/// The state a fresh facade starts in: no worker, no cancellation pending.
pub open spec fn spec_lifecycle_new() -> Lifecycle {
    Lifecycle { running: false, cancel_requested: false }
}

impl Lifecycle {
    /// What a start request leaves behind: a running worker with a fresh
    /// cancellation flag, or the state unchanged when a worker already runs.
    pub open spec fn spec_start(self) -> Lifecycle {
        if self.running {
            self
        } else {
            Lifecycle { running: true, cancel_requested: false }
        }
    }

    /// Whether a start request spawns a worker: only when none runs.
    pub open spec fn spec_start_spawns(self) -> bool {
        !self.running
    }

    /// What a stop request leaves behind: no worker, with the cancellation
    /// flag set exactly when there was a worker to cancel.
    pub open spec fn spec_stop(self) -> Lifecycle {
        if self.running {
            Lifecycle { running: false, cancel_requested: true }
        } else {
            self
        }
    }

    /// Whether a stop request joins a worker: only when one runs.
    pub open spec fn spec_stop_joins(self) -> bool {
        self.running
    }

    /// A fresh lifecycle: no worker running, no cancellation pending.
    pub fn new() -> (s: Self)
        ensures
            s == spec_lifecycle_new(),
    {
        Lifecycle { running: false, cancel_requested: false }
    }

    /// Record a start request. Returns whether the facade must spawn a
    /// dispatch worker (and then clear the shared cancellation flag first);
    /// a start while a worker runs changes nothing.
    pub fn on_start(&mut self) -> (spawn: bool)
        ensures
            *final(self) == old(self).spec_start(),
            spawn == old(self).spec_start_spawns(),
    {
        if self.running {
            false
        } else {
            self.running = true;
            self.cancel_requested = false;
            true
        }
    }

    /// Record a stop request. Returns whether the facade must set the shared
    /// cancellation flag and join the worker; a stop with no worker running
    /// changes nothing.
    pub fn on_stop(&mut self) -> (join: bool)
        ensures
            *final(self) == old(self).spec_stop(),
            join == old(self).spec_stop_joins(),
    {
        if self.running {
            self.running = false;
            self.cancel_requested = true;
            true
        } else {
            false
        }
    }
}

/// Stopping is idempotent: a second stop in a row changes nothing and joins
/// nothing, and after any stop no worker runs.
pub proof fn lemma_stop_idempotent(s: Lifecycle)
    ensures
        s.spec_stop().spec_stop() == s.spec_stop(),
        !s.spec_stop().spec_stop_joins(),
        !s.spec_stop().running,
{
}

/// A stop before any start is a no-op: it changes nothing, joins nothing, and
/// leaves no worker running.
pub proof fn lemma_stop_before_start_is_noop()
    ensures
        spec_lifecycle_new().spec_stop() == spec_lifecycle_new(),
        !spec_lifecycle_new().spec_stop_joins(),
        !spec_lifecycle_new().running,
{
}

/// Starting is idempotent and a second start in a row spawns nothing: at most
/// one dispatch worker is alive per facade at any time.
pub proof fn lemma_start_spawns_at_most_once(s: Lifecycle)
    ensures
        s.spec_start().spec_start() == s.spec_start(),
        !s.spec_start().spec_start_spawns(),
        s.spec_start().running,
{
}

} // verus!
