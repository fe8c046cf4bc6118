//! Building synchronization requests from classified events.
//!
//! A request carries the intent's wire name, the workspace-relative paths of
//! the event, optional attributes (unused by this core, forwarded empty),
//! and — for content-bearing intents only — the archived payload. `Rename`
//! and `Other` events never become requests.

use vstd::prelude::*;

use crate::archive::{archive, entries_view, tar_bytes, tar_name_ok, ArchiveEntry};
use crate::errors::Errors;
use crate::intent::{classify, label, unsupported, EventKinds, RawEventKind};
use crate::matcher::{is_ignored, matcher_globs, matcher_root, path_ignored};
use crate::paths::{is_under, rel_of, strip_all, PathPair};

verus! {

/// One synchronization request, ready for the wire.
///
/// Invariant of every request this module builds: `payload` is present if
/// and only if the intent carries content (`Override`, `Create`, `Modify`);
/// for `Remove`, `paths` is populated and `payload` is absent.
pub struct SynchronizationRequest {
    pub kind: String,
    pub paths: Vec<String>,
    pub attributes: Option<Vec<(String, String)>>,
    pub payload: Option<Vec<u8>>,
}

/// The relative names of a batch of path pairs, in order.
pub open spec fn relatives_of(pairs: Seq<PathPair>) -> Seq<Seq<char>> {
    pairs.map_values(|p: PathPair| p.relative@)
}

/// Every entry of the batch is stored under one of the given relative
/// names: the archived payload can only carry the event's own files.
pub open spec fn entries_named_from(entries: Seq<ArchiveEntry>, names: Seq<Seq<char>>) -> bool {
    forall|j: int| #![trigger entries[j]] 0 <= j < entries.len() ==> names.contains(entries[j].name@)
}

/// What the request built for intent `kind` over `pairs` and `entries`
/// looks like: the intent's wire name, the relative paths in order, empty
/// attributes, and the archived entries exactly when the intent carries
/// content.
pub open spec fn built_request(
    req: SynchronizationRequest,
    kind: EventKinds,
    pairs: Seq<PathPair>,
    entries: Seq<ArchiveEntry>,
) -> bool {
    &&& req.kind@ == label(kind)
    &&& req.paths.deep_view() == relatives_of(pairs)
    &&& req.attributes is None
    &&& if kind is Remove {
        req.payload is None
    } else {
        req.payload matches Some(bytes) && bytes@ == tar_bytes(entries_view(entries))
    }
}

/// Builds the request for one live event batch.
///
/// `pairs` are the event's normalized paths; `entries` the contents of the
/// regular files among them, read by the caller under their relative names
/// (directories contribute no entry). `Remove` takes no payload and cannot
/// fail; the content-bearing intents archive `entries`, succeed exactly
/// when every entry name is acceptable to the archiver, and fail
/// atomically otherwise.
pub fn build_sync_request(kind: EventKinds, pairs: &Vec<PathPair>, entries: &Vec<ArchiveEntry>) -> (r:
    Result<SynchronizationRequest, Errors>)
    requires
        kind is Create || kind is Modify || kind is Remove,
        entries_named_from(entries@, relatives_of(pairs@)),
    ensures
        r matches Ok(req) ==> built_request(req, kind, pairs@, entries@),
        kind is Remove ==> r is Ok,
        !(kind is Remove) ==> (r is Ok <==> (forall|j: int|
            0 <= j < entries@.len() ==> tar_name_ok(entries@[j].name@))),
        r matches Err(e) ==> e is FailedAppendPath && !(kind is Remove),
{
    let mut names: Vec<String> = Vec::new();
    let mut i: usize = 0;
    while i < pairs.len()
        invariant
            0 <= i <= pairs@.len(),
            names.deep_view() =~= relatives_of(pairs@).take(i as int),
        decreases pairs@.len() - i,
    {
        names.push(pairs[i].relative.clone());
        proof {
            assert(relatives_of(pairs@).take(i + 1) =~= relatives_of(pairs@).take(i as int).push(
                pairs@[i as int].relative@,
            ));
        }
        i += 1;
    }
    proof {
        assert(relatives_of(pairs@).take(pairs@.len() as int) =~= relatives_of(pairs@));
    }
    let payload: Option<Vec<u8>> = match kind {
        EventKinds::Remove => None,
        _ => {
            match archive(entries) {
                Ok(bytes) => Some(bytes),
                Err(e) => {
                    return Err(e);
                },
            }
        },
    };
    Ok(
        SynchronizationRequest {
            kind: kind.to_string(),
            paths: names,
            attributes: None,
            payload,
        },
    )
}

/// Builds the one full-synchronization request of the initial sync.
///
/// `entries` hold every regular file of the workspace under its relative
/// name. `Override` means "replace everything", so no path list is sent;
/// the payload is the archive of all entries.
pub fn build_override_request(entries: &Vec<ArchiveEntry>) -> (r: Result<
    SynchronizationRequest,
    Errors,
>)
    ensures
        r is Ok <==> (forall|j: int| 0 <= j < entries@.len() ==> tar_name_ok(entries@[j].name@)),
        r matches Ok(req) ==> built_request(req, EventKinds::Override, Seq::empty(), entries@),
        r matches Err(e) ==> e is FailedAppendPath,
{
    let bytes = match archive(entries) {
        Ok(bytes) => bytes,
        Err(e) => {
            return Err(e);
        },
    };
    let names: Vec<String> = Vec::new();
    proof {
        assert(relatives_of(Seq::<PathPair>::empty()) =~= Seq::<Seq<char>>::empty());
        assert(names.deep_view() =~= Seq::<Seq<char>>::empty());
    }
    Ok(
        SynchronizationRequest {
            kind: EventKinds::Override.to_string(),
            paths: names,
            attributes: None,
            payload: Some(bytes),
        },
    )
}

/// Law: the initial full sync is deterministic. Two walks of an unchanged
/// workspace collect the same entries, and the archived payload is a
/// function of the entries alone, so two `Override` requests built from
/// them carry byte-identical payloads.
pub proof fn lemma_initial_sync_idempotent(
    first: SynchronizationRequest,
    second: SynchronizationRequest,
    first_entries: Seq<ArchiveEntry>,
    second_entries: Seq<ArchiveEntry>,
)
    requires
        entries_view(first_entries) == entries_view(second_entries),
        built_request(first, EventKinds::Override, Seq::empty(), first_entries),
        built_request(second, EventKinds::Override, Seq::empty(), second_entries),
    ensures
        first.payload is Some,
        first.payload matches Some(b1) ==> (second.payload matches Some(b2) && b1@ == b2@),
        first.kind@ == second.kind@,
{
}

/// Law: a built request carries a payload exactly for the content-bearing
/// intents — `Override`, `Create`, `Modify` — and never for `Remove`.
pub proof fn lemma_payload_iff_content_intent(
    req: SynchronizationRequest,
    kind: EventKinds,
    pairs: Seq<PathPair>,
    entries: Seq<ArchiveEntry>,
)
    requires
        kind is Override || kind is Create || kind is Modify || kind is Remove,
        built_request(req, kind, pairs, entries),
    ensures
        req.payload is Some <==> (kind is Override || kind is Create || kind is Modify),
{
}

/// Handles one live event: classifies it, drops what the protocol cannot
/// express, normalizes the event's paths, and builds the request.
///
/// `entries` hold the contents of the event's regular files, read by the
/// caller under the event's own relative names; they are consulted only for
/// `Create` and `Modify`. An unsupported event (`Rename`, `Other`) yields
/// `None` and is the only way no request comes back; on a batch whose paths
/// all lie under the root, success is owed unless the archiver refuses an
/// entry name.
pub fn handle(kind: RawEventKind, base: &str, paths: &Vec<String>, entries: &Vec<ArchiveEntry>) -> (r:
    Result<Option<SynchronizationRequest>, Errors>)
    requires
        entries_named_from(
            entries@,
            paths.deep_view().map_values(|p: Seq<char>| rel_of(base@, p)),
        ),
    ensures
        unsupported(classify(kind)) <==> r == Result::<
            Option<SynchronizationRequest>,
            Errors,
        >::Ok(None),
        !unsupported(classify(kind)) ==> (r == Result::<
            Option<SynchronizationRequest>,
            Errors,
        >::Err(Errors::FailedStripPrefix) <==> (exists|i: int|
            0 <= i < paths@.len() && !is_under(base@, paths@[i]@))),
        !unsupported(classify(kind)) && (forall|i: int|
            0 <= i < paths@.len() ==> is_under(base@, paths@[i]@)) ==> {
            &&& r is Ok <==> (classify(kind) is Remove || (forall|j: int|
                0 <= j < entries@.len() ==> tar_name_ok(entries@[j].name@)))
            &&& r matches Ok(o) ==> o matches Some(req) && built_event_request(
                req,
                kind,
                base@,
                paths.deep_view(),
                entries@,
            )
            &&& r matches Err(e) ==> e is FailedAppendPath
        },
{
    let intent = EventKinds::from(kind);
    if intent.is_unsupported() {
        return Ok(None);
    }
    let pairs = match strip_all(base, paths) {
        Ok(pairs) => pairs,
        Err(e) => {
            return Err(e);
        },
    };
    proof {
        assert(relatives_of(pairs@) =~= paths.deep_view().map_values(
            |p: Seq<char>| rel_of(base@, p),
        ));
    }
    match build_sync_request(intent, &pairs, entries) {
        Ok(req) => Ok(Some(req)),
        Err(e) => Err(e),
    }
}

/// What the request built for a live event over raw paths looks like: as
/// [`built_request`], with the paths normalized against `base`.
pub open spec fn built_event_request(
    req: SynchronizationRequest,
    kind: RawEventKind,
    base: Seq<char>,
    paths: Seq<Seq<char>>,
    entries: Seq<ArchiveEntry>,
) -> bool {
    &&& req.kind@ == label(classify(kind))
    &&& req.paths.deep_view() == paths.map_values(|p: Seq<char>| rel_of(base, p))
    &&& req.attributes is None
    &&& if classify(kind) is Remove {
        req.payload is None
    } else {
        req.payload matches Some(bytes) && bytes@ == tar_bytes(entries_view(entries))
    }
}

/// One step of the watch loop: all of the event's paths are normalized,
/// then the ignore filter decides, then the classifier, then the request
/// builder.
///
/// A path outside the root fails the batch before anything else; an event
/// with an ignored path is suppressed before classification; an unsupported
/// intent is dropped after it. Only the remaining events yield a request,
/// and for those success is owed unless the archiver refuses an entry name.
pub fn dev_step(
    matcher: &ignore::gitignore::Gitignore,
    base: &str,
    kind: RawEventKind,
    paths: &Vec<String>,
    entries: &Vec<ArchiveEntry>,
) -> (r: Result<Option<SynchronizationRequest>, Errors>)
    requires
        entries_named_from(
            entries@,
            paths.deep_view().map_values(|p: Seq<char>| rel_of(base@, p)),
        ),
    ensures
        r == Result::<Option<SynchronizationRequest>, Errors>::Err(Errors::FailedStripPrefix)
            <==> (exists|i: int| 0 <= i < paths@.len() && !is_under(base@, paths@[i]@)),
        r == Result::<Option<SynchronizationRequest>, Errors>::Ok(None) <==> ((forall|i: int|
            0 <= i < paths@.len() ==> is_under(base@, paths@[i]@)) && ((exists|i: int|
            0 <= i < paths@.len() && path_ignored(
                matcher_root(*matcher),
                matcher_globs(*matcher),
                rel_of(base@, paths@[i]@),
            )) || unsupported(classify(kind)))),
        (forall|i: int|
            0 <= i < paths@.len() ==> is_under(base@, paths@[i]@) && !path_ignored(
                matcher_root(*matcher),
                matcher_globs(*matcher),
                rel_of(base@, paths@[i]@),
            )) && !unsupported(classify(kind)) ==> {
            &&& r is Ok <==> (classify(kind) is Remove || (forall|j: int|
                0 <= j < entries@.len() ==> tar_name_ok(entries@[j].name@)))
            &&& r matches Ok(o) ==> o matches Some(req) && built_event_request(
                req,
                kind,
                base@,
                paths.deep_view(),
                entries@,
            )
            &&& r matches Err(e) ==> e is FailedAppendPath
        },
{
    match is_ignored(matcher, base, paths) {
        Err(e) => Err(e),
        Ok(true) => Ok(None),
        Ok(false) => handle(kind, base, paths, entries),
    }
}

} // verus!
