//! The File Loader.
//!
//! Given a firmware-relative path, the loader produces the full byte
//! contents of a regular file, searching every mounted filesystem volume in
//! firmware enumeration order — no defined sort, first match wins. The
//! firmware's side of the exchange is handed in as plain data: what the
//! enumeration of volumes yielded, and what opening the path on each volume
//! reported. The search policy is permissive across volumes — a path that
//! does not open on one volume only moves the search on — while every other
//! failure aborts the whole operation; in particular a path that resolves to
//! a directory stops the search at once, even when a later volume holds a
//! regular file of the same name.

use crate::errors::{Error, ErrorView, FirmwareCall};
use vstd::pervasive::unreached;
use vstd::prelude::*;

verus! {

/// What opening the requested path on one volume yielded, as the firmware
/// reported it.
#[derive(Clone, Debug, PartialEq, Eq)]
pub enum VolumeContent {
    /// Resolving the filesystem protocol instance for the handle was
    /// rejected.
    ProtocolFailed,
    /// The firmware returned a null protocol instance.
    ProtocolNull,
    /// Opening the volume's root directory was rejected.
    VolumeOpenFailed,
    /// The path did not open on this volume — it is missing here, or the
    /// open was rejected for any other reason; the search continues.
    Absent,
    /// Resolving the opened handle's concrete type was rejected.
    TypeResolveFailed,
    /// The path names a directory.
    Directory,
    /// The path names a regular file with these contents.
    Regular(Vec<u8>),
    /// The path names a regular file whose read fails mid-stream.
    ReadFailed,
}

/// Mathematical value of a [`VolumeContent`].
pub ghost enum VolumeView {
    ProtocolFailed,
    ProtocolNull,
    VolumeOpenFailed,
    Absent,
    TypeResolveFailed,
    Directory,
    Regular(Seq<u8>),
    ReadFailed,
}

impl View for VolumeContent {
    type V = VolumeView;

    open spec fn view(&self) -> VolumeView {
        match self {
            VolumeContent::ProtocolFailed => VolumeView::ProtocolFailed,
            VolumeContent::ProtocolNull => VolumeView::ProtocolNull,
            VolumeContent::VolumeOpenFailed => VolumeView::VolumeOpenFailed,
            VolumeContent::Absent => VolumeView::Absent,
            VolumeContent::TypeResolveFailed => VolumeView::TypeResolveFailed,
            VolumeContent::Directory => VolumeView::Directory,
            VolumeContent::Regular(d) => VolumeView::Regular(d@),
            VolumeContent::ReadFailed => VolumeView::ReadFailed,
        }
    }
}

/// What enumerating the filesystem volumes yielded: one of the two
/// enumeration failures, or the volumes in firmware enumeration order.
#[derive(Clone, Debug, PartialEq, Eq)]
pub enum Enumeration {
    /// The number of filesystem handles could not be obtained.
    CountFailed,
    /// The sized handle list could not be retrieved.
    ListFailed,
    /// The enumerated volumes, each already probed for the requested path.
    Volumes(Vec<VolumeContent>),
}

/// Mathematical value of an [`Enumeration`].
pub ghost enum EnumerationView {
    CountFailed,
    ListFailed,
    Volumes(Seq<VolumeView>),
}

impl View for Enumeration {
    type V = EnumerationView;

    open spec fn view(&self) -> EnumerationView {
        match self {
            Enumeration::CountFailed => EnumerationView::CountFailed,
            Enumeration::ListFailed => EnumerationView::ListFailed,
            Enumeration::Volumes(v) => EnumerationView::Volumes(
                v@.map_values(|c: VolumeContent| c@),
            ),
        }
    }
}

/// The result of the volume search, over volume views: the contents of the
/// first regular file found, or the error the first decisive volume forces,
/// or — after exhausting all volumes — the missing-file error naming the
/// requested path.
pub open spec fn search_spec(vols: Seq<VolumeView>, path: Seq<char>) -> Result<
    Seq<u8>,
    ErrorView,
>
    decreases vols.len(),
{
    if vols.len() == 0 {
        Err(ErrorView::ResourceNotFound(path))
    } else {
        match vols[0] {
            VolumeView::ProtocolFailed => Err(
                ErrorView::FirmwareCallFailed(FirmwareCall::ResolveProtocol),
            ),
            VolumeView::ProtocolNull => Err(ErrorView::NullFirmwareResource),
            VolumeView::VolumeOpenFailed => Err(
                ErrorView::FirmwareCallFailed(FirmwareCall::OpenVolume),
            ),
            VolumeView::Absent => search_spec(vols.drop_first(), path),
            VolumeView::TypeResolveFailed => Err(
                ErrorView::FirmwareCallFailed(FirmwareCall::ResolveFileType),
            ),
            VolumeView::Directory => Err(ErrorView::UnexpectedFileType(path)),
            VolumeView::Regular(d) => Ok(d),
            VolumeView::ReadFailed => Err(ErrorView::FirmwareCallFailed(FirmwareCall::ReadFile)),
        }
    }
}

/// The result of the whole load: an enumeration failure is reported as the
/// corresponding failed firmware call; otherwise the volume search decides.
pub open spec fn read_file_spec(e: EnumerationView, path: Seq<char>) -> Result<
    Seq<u8>,
    ErrorView,
> {
    match e {
        EnumerationView::CountFailed => Err(
            ErrorView::FirmwareCallFailed(FirmwareCall::CountVolumes),
        ),
        EnumerationView::ListFailed => Err(
            ErrorView::FirmwareCallFailed(FirmwareCall::ListVolumes),
        ),
        EnumerationView::Volumes(vols) => search_spec(vols, path),
    }
}

/// Mathematical value of a loader result.
pub open spec fn result_view(r: Result<Vec<u8>, Error>) -> Result<Seq<u8>, ErrorView> {
    match r {
        Ok(d) => Ok(d@),
        Err(e) => Err(e@),
    }
}

/// What the driver learned from probing the path on one volume, before any
/// contents were read.
#[derive(Clone, Copy, Debug, PartialEq, Eq, Structural)]
pub enum ProbeOutcome {
    /// Resolving the filesystem protocol instance was rejected.
    ProtocolFailed,
    /// The protocol instance was null.
    ProtocolNull,
    /// Opening the volume's root directory was rejected.
    VolumeOpenFailed,
    /// The path did not open on this volume.
    OpenRejected,
    /// Resolving the opened handle's concrete type was rejected.
    TypeResolveFailed,
    /// The path names a directory.
    Directory,
    /// The path names a regular file.
    Regular,
}

/// The next move of the volume search after one volume's probe.
#[derive(Clone, Debug, PartialEq, Eq)]
pub enum SearchDecision {
    /// Move on to the next volume.
    NextVolume,
    /// A regular file: read it here; its result decides the whole load.
    ReadHere,
    /// Stop the whole search with this error.
    Abort(Error),
}

/// Mathematical value of a [`SearchDecision`].
pub ghost enum DecisionView {
    NextVolume,
    ReadHere,
    Abort(ErrorView),
}

impl View for SearchDecision {
    type V = DecisionView;

    open spec fn view(&self) -> DecisionView {
        match self {
            SearchDecision::NextVolume => DecisionView::NextVolume,
            SearchDecision::ReadHere => DecisionView::ReadHere,
            SearchDecision::Abort(e) => DecisionView::Abort(e@),
        }
    }
}

/// The search policy, per probe outcome: only a rejected open moves the
/// search on; a regular file is read here; everything else aborts with its
/// error.
pub open spec fn decision_spec(o: ProbeOutcome, path: Seq<char>) -> DecisionView {
    match o {
        ProbeOutcome::ProtocolFailed => DecisionView::Abort(
            ErrorView::FirmwareCallFailed(FirmwareCall::ResolveProtocol),
        ),
        ProbeOutcome::ProtocolNull => DecisionView::Abort(ErrorView::NullFirmwareResource),
        ProbeOutcome::VolumeOpenFailed => DecisionView::Abort(
            ErrorView::FirmwareCallFailed(FirmwareCall::OpenVolume),
        ),
        ProbeOutcome::OpenRejected => DecisionView::NextVolume,
        ProbeOutcome::TypeResolveFailed => DecisionView::Abort(
            ErrorView::FirmwareCallFailed(FirmwareCall::ResolveFileType),
        ),
        ProbeOutcome::Directory => DecisionView::Abort(ErrorView::UnexpectedFileType(path)),
        ProbeOutcome::Regular => DecisionView::ReadHere,
    }
}

/// The probe outcome a volume's content induces.
pub open spec fn probe_of(v: VolumeView) -> ProbeOutcome {
    match v {
        VolumeView::ProtocolFailed => ProbeOutcome::ProtocolFailed,
        VolumeView::ProtocolNull => ProbeOutcome::ProtocolNull,
        VolumeView::VolumeOpenFailed => ProbeOutcome::VolumeOpenFailed,
        VolumeView::Absent => ProbeOutcome::OpenRejected,
        VolumeView::TypeResolveFailed => ProbeOutcome::TypeResolveFailed,
        VolumeView::Directory => ProbeOutcome::Directory,
        VolumeView::Regular(d) => ProbeOutcome::Regular,
        VolumeView::ReadFailed => ProbeOutcome::Regular,
    }
}

impl VolumeContent {
    /// The probe outcome this volume reports for the path.
    pub fn probe(&self) -> (o: ProbeOutcome)
        ensures
            o == probe_of(self@),
    {
        match self {
            VolumeContent::ProtocolFailed => ProbeOutcome::ProtocolFailed,
            VolumeContent::ProtocolNull => ProbeOutcome::ProtocolNull,
            VolumeContent::VolumeOpenFailed => ProbeOutcome::VolumeOpenFailed,
            VolumeContent::Absent => ProbeOutcome::OpenRejected,
            VolumeContent::TypeResolveFailed => ProbeOutcome::TypeResolveFailed,
            VolumeContent::Directory => ProbeOutcome::Directory,
            VolumeContent::Regular(_) => ProbeOutcome::Regular,
            VolumeContent::ReadFailed => ProbeOutcome::Regular,
        }
    }
}

/// The search policy as the driver calls it, one volume at a time.
pub fn probe_decision(o: ProbeOutcome, path: &str) -> (d: SearchDecision)
    ensures
        d@ == decision_spec(o, path@),
{
    match o {
        ProbeOutcome::ProtocolFailed => SearchDecision::Abort(
            Error::FirmwareCallFailed(FirmwareCall::ResolveProtocol),
        ),
        ProbeOutcome::ProtocolNull => SearchDecision::Abort(Error::NullFirmwareResource),
        ProbeOutcome::VolumeOpenFailed => SearchDecision::Abort(
            Error::FirmwareCallFailed(FirmwareCall::OpenVolume),
        ),
        ProbeOutcome::OpenRejected => SearchDecision::NextVolume,
        ProbeOutcome::TypeResolveFailed => SearchDecision::Abort(
            Error::FirmwareCallFailed(FirmwareCall::ResolveFileType),
        ),
        ProbeOutcome::Directory => SearchDecision::Abort(
            Error::UnexpectedFileType(path.to_owned()),
        ),
        ProbeOutcome::Regular => SearchDecision::ReadHere,
    }
}

/// A byte-for-byte copy of a file's contents.
fn copy_bytes(src: &Vec<u8>) -> (r: Vec<u8>)
    ensures
        r@ == src@,
{
    let n = src.len();
    let mut r: Vec<u8> = Vec::new();
    let mut i: usize = 0;
    while i < n
        invariant
            i <= n,
            n == src@.len(),
            r@ == src@.take(i as int),
        decreases n - i,
    {
        r.push(src[i]);
        proof {
            assert(r@ =~= src@.take(i + 1));
        }
        i = i + 1;
    }
    proof {
        assert(src@.take(n as int) =~= src@);
    }
    r
}

/// Loads the requested path from the enumerated volumes: the full contents
/// of the first regular file the search reaches, or the error the
/// [`read_file_spec`] policy assigns — in particular `ResourceNotFound`
/// naming the path when every volume reported it absent, and
/// `UnexpectedFileType` naming the path as soon as one volume resolves it
/// to a directory.
pub fn read_file(enumeration: &Enumeration, path: &str) -> (r: Result<Vec<u8>, Error>)
    ensures
        result_view(r) == read_file_spec(enumeration@, path@),
{
    let vols: &Vec<VolumeContent> = match enumeration {
        Enumeration::CountFailed => {
            return Err(Error::FirmwareCallFailed(FirmwareCall::CountVolumes));
        },
        Enumeration::ListFailed => {
            return Err(Error::FirmwareCallFailed(FirmwareCall::ListVolumes));
        },
        Enumeration::Volumes(v) => v,
    };
    let ghost vs: Seq<VolumeView> = vols@.map_values(|c: VolumeContent| c@);
    proof {
        assert(vs.skip(0) =~= vs);
    }
    let n = vols.len();
    let mut idx: usize = 0;
    while idx < n
        invariant
            idx <= n,
            n == vols@.len(),
            vs == vols@.map_values(|c: VolumeContent| c@),
            enumeration@ == EnumerationView::Volumes(vs),
            search_spec(vs, path@) == search_spec(vs.skip(idx as int), path@),
        decreases n - idx,
    {
        let outcome = vols[idx].probe();
        proof {
            assert(vs[idx as int] == vols@[idx as int]@);
            assert(vs.skip(idx as int)[0] == vs[idx as int]);
            assert(vs.skip(idx as int).drop_first() =~= vs.skip(idx as int + 1));
        }
        match probe_decision(outcome, path) {
            SearchDecision::NextVolume => {
                idx = idx + 1;
            },
            SearchDecision::Abort(e) => {
                return Err(e);
            },
            SearchDecision::ReadHere => {
                match &vols[idx] {
                    VolumeContent::Regular(d) => {
                        return Ok(copy_bytes(d));
                    },
                    VolumeContent::ReadFailed => {
                        return Err(Error::FirmwareCallFailed(FirmwareCall::ReadFile));
                    },
                    _ => {
                        return unreached();
                    },
                }
            },
        }
    }
    proof {
        assert(vs.skip(n as int) =~= Seq::<VolumeView>::empty());
    }
    Err(Error::ResourceNotFound(path.to_owned()))
}

/// Accumulates the chunks of a regular file as the driver reads them, in a
/// growable buffer the caller owns once the read completes. Only the bytes
/// a read actually returned are kept: a final short read adds no trailing
/// padding to the contents.
pub struct FileAccumulator {
    data: Vec<u8>,
}

impl FileAccumulator {
    /// The bytes accumulated so far.
    pub closed spec fn contents(self) -> Seq<u8> {
        self.data@
    }

    /// An empty accumulator, ready for the first read.
    pub fn new() -> (a: FileAccumulator)
        ensures
            a.contents() == Seq::<u8>::empty(),
    {
        FileAccumulator { data: Vec::new() }
    }

    /// Appends the first `n` bytes of `chunk` — exactly what one firmware
    /// read reported it filled in.
    pub fn push_chunk(&mut self, chunk: &[u8], n: usize)
        requires
            n <= chunk@.len(),
        ensures
            final(self).contents() == old(self).contents() + chunk@.take(n as int),
    {
        let mut i: usize = 0;
        while i < n
            invariant
                i <= n,
                n <= chunk@.len(),
                self.data@ == old(self).data@ + chunk@.take(i as int),
            decreases n - i,
        {
            self.data.push(chunk[i]);
            proof {
                assert(self.data@ =~= old(self).data@ + chunk@.take(i + 1));
            }
            i = i + 1;
        }
    }

    /// The accumulated contents; the accumulator is consumed.
    pub fn into_contents(self) -> (v: Vec<u8>)
        ensures
            v@ == self.contents(),
    {
        self.data
    }
}

/// Law: a regular file on the first volume that reports anything at all is
/// returned exactly, whatever its index — as long as every earlier volume
/// reported the path absent, the search returns precisely that file's
/// contents.
pub proof fn lemma_found_at_any_index(
    vols: Seq<VolumeView>,
    path: Seq<char>,
    n: int,
    data: Seq<u8>,
)
    requires
        0 <= n < vols.len(),
        vols[n] == VolumeView::Regular(data),
        forall|k: int| 0 <= k < n ==> vols[k] == VolumeView::Absent,
    ensures
        search_spec(vols, path) == Ok::<Seq<u8>, ErrorView>(data),
    decreases n,
{
    if n == 0 {
    } else {
        let rest = vols.drop_first();
        assert(forall|k: int| 0 <= k < n - 1 ==> rest[k] == #[trigger] vols[k + 1]);
        lemma_found_at_any_index(rest, path, n - 1, data);
    }
}

/// Law: a directory at the requested path stops the search at once — even
/// when a later volume holds a regular file of the same name, the result is
/// the `UnexpectedFileType` error naming the path.
pub proof fn lemma_directory_stops_search(vols: Seq<VolumeView>, path: Seq<char>, n: int)
    requires
        0 <= n < vols.len(),
        vols[n] == VolumeView::Directory,
        forall|k: int| 0 <= k < n ==> vols[k] == VolumeView::Absent,
    ensures
        search_spec(vols, path) == Err::<Seq<u8>, ErrorView>(
            ErrorView::UnexpectedFileType(path),
        ),
    decreases n,
{
    if n == 0 {
    } else {
        let rest = vols.drop_first();
        assert(forall|k: int| 0 <= k < n - 1 ==> rest[k] == #[trigger] vols[k + 1]);
        lemma_directory_stops_search(rest, path, n - 1);
    }
}

/// Law: a path absent from every enumerated volume is reported as
/// `ResourceNotFound`, naming the requested path.
pub proof fn lemma_absent_everywhere(vols: Seq<VolumeView>, path: Seq<char>)
    requires
        forall|k: int| 0 <= k < vols.len() ==> vols[k] == VolumeView::Absent,
    ensures
        search_spec(vols, path) == Err::<Seq<u8>, ErrorView>(ErrorView::ResourceNotFound(path)),
    decreases vols.len(),
{
    if vols.len() == 0 {
    } else {
        let rest = vols.drop_first();
        assert(forall|k: int| 0 <= k < rest.len() ==> rest[k] == #[trigger] vols[k + 1]);
        lemma_absent_everywhere(rest, path);
    }
}

} // verus!
