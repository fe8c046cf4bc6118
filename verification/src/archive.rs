//! The archiver: file contents bundled into one tar stream.
//!
//! An entry is a workspace-relative name and the bytes of the file it names;
//! directories never become entries. The tar serialization itself stays with
//! the `tar` crate. Every header field is fixed here, so the stream is a
//! pure function of the entries, in order — which is what makes the initial
//! full sync deterministic.

use vstd::prelude::*;

use crate::errors::Errors;

verus! {

/// A tar stream under construction over an in-memory buffer.
///
/// The `tar` crate's builder is generic over its writer, which cannot be
/// declared to the verifier, so it is held opaquely here; [`tar_contents`]
/// models what has been appended.
#[verifier::external_body]
pub struct TarBuilder {
    inner: tar::Builder<Vec<u8>>,
}

/// The entries appended to a builder so far: each a name and content.
pub uninterp spec fn tar_contents(b: TarBuilder) -> Seq<(Seq<char>, Seq<u8>)>;

/// The tar stream that serializes the given entries, in order.
pub uninterp spec fn tar_bytes(entries: Seq<(Seq<char>, Seq<u8>)>) -> Seq<u8>;

/// Whether tar's header encoding accepts an entry name: the name must be
/// relative, hold no parent-directory segment, and have at least one
/// component. Acceptance depends on the name alone.
pub uninterp spec fn tar_name_ok(name: Seq<char>) -> bool;

/// One file of an event batch: its workspace-relative name and its content.
pub struct ArchiveEntry {
    pub name: String,
    pub content: Vec<u8>,
}

impl View for ArchiveEntry {
    type V = (Seq<char>, Seq<u8>);

    open spec fn view(&self) -> (Seq<char>, Seq<u8>) {
        (self.name@, self.content@)
    }
}

/// The entries of a batch as the model sees them: name and content views,
/// in order.
pub open spec fn entries_view(entries: Seq<ArchiveEntry>) -> Seq<(Seq<char>, Seq<u8>)> {
    entries.map_values(|e: ArchiveEntry| e@)
}

/// Relies on tar::Builder::new: a fresh builder over an empty in-memory
/// buffer holds no entries.
#[verifier::external_body]
fn new_builder() -> (r: TarBuilder)
    ensures
        tar_contents(r) == Seq::<(Seq<char>, Seq<u8>)>::empty(),
{
    TarBuilder { inner: tar::Builder::new(Vec::new()) }
}

/// Relies on tar::Builder::append_data: appends one entry under the given
/// name. Every header field is set here (mode, mtime, size; the checksum is
/// derived), so what reaches the stream depends on the entries alone.
/// Writes go to the in-memory buffer and cannot fail, so the call succeeds
/// exactly when the header encoding accepts the name.
#[verifier::external_body]
fn append_entry(b: &mut TarBuilder, name: &str, content: &Vec<u8>) -> (r: Result<
    (),
    Errors,
>)
    ensures
        r is Ok <==> tar_name_ok(name@),
        r is Ok ==> tar_contents(*final(b)) == tar_contents(*old(b)).push((name@, content@)),
        r matches Err(e) ==> e is FailedAppendPath,
{
    let mut header = tar::Header::new_gnu();
    header.set_mode(0o644);
    header.set_mtime(0);
    header.set_size(content.len() as u64);
    match b.inner.append_data(&mut header, name, content.as_slice()) {
        Ok(()) => Ok(()),
        Err(e) => Err(Errors::FailedAppendPath(format!("{}", e))),
    }
}

/// Relies on tar::Builder::into_inner: finishes the archive (writes the
/// trailer blocks) and hands back the underlying buffer, whose bytes depend
/// on the appended entries alone. The trailer is written to the in-memory
/// buffer, which cannot fail, so the call always succeeds.
#[verifier::external_body]
fn finish_builder(b: TarBuilder) -> (r: Result<Vec<u8>, Errors>)
    ensures
        r is Ok,
        r matches Ok(bytes) ==> bytes@ == tar_bytes(tar_contents(b)),
{
    match b.inner.into_inner() {
        Ok(bytes) => Ok(bytes),
        Err(e) => Err(Errors::FailedFinishTar(format!("{}", e))),
    }
}

/// Bundles the given entries, in order, into one tar stream.
///
/// Succeeds exactly when every entry name is acceptable to the header
/// encoding. A batch fails atomically: if any entry cannot be appended, no
/// partial archive is handed out.
pub fn archive(entries: &Vec<ArchiveEntry>) -> (r: Result<Vec<u8>, Errors>)
    ensures
        r is Ok <==> (forall|k: int| 0 <= k < entries@.len() ==> tar_name_ok(entries@[k].name@)),
        r matches Ok(bytes) ==> bytes@ == tar_bytes(entries_view(entries@)),
        r matches Err(e) ==> e is FailedAppendPath,
{
    let mut b = new_builder();
    let mut i: usize = 0;
    while i < entries.len()
        invariant
            0 <= i <= entries@.len(),
            tar_contents(b) == entries_view(entries@).take(i as int),
            forall|k: int| 0 <= k < i ==> tar_name_ok(entries@[k].name@),
        decreases entries@.len() - i,
    {
        match append_entry(&mut b, entries[i].name.as_str(), &entries[i].content) {
            Ok(()) => {},
            Err(e) => {
                return Err(e);
            },
        }
        proof {
            assert(entries_view(entries@).take(i + 1) =~= entries_view(entries@).take(
                i as int,
            ).push(entries@[i as int]@));
        }
        i += 1;
    }
    proof {
        assert(entries_view(entries@).take(entries@.len() as int) =~= entries_view(entries@));
    }
    finish_builder(b)
}

} // verus!
