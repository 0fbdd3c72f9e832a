//! Files that travel over the clipboard, in both directions.

use std::collections::HashMap;
use vstd::prelude::*;
use vstd::string::{StrSliceExecFns, StringExecFns};
use vstd::utf8::*;
use crate::clipboard::core_calls::{
    escape_byte, linux_filename, percent_encoded, FileDescriptor,
};
use crate::text::{
    chars_of, decimal, decimal_text, join, join_texts, joined, split_on, views,
};

verus! {

broadcast use vstd::std_specs::hash::group_hash_axioms;

/// The largest part of a file that one request asks for: 64 MiB.
pub const MAX_CHUNK: u64 = 0x400_0000;

/// The number under which the remote clipboard is locked during a transfer.
pub const CLIP_DATA_ID: u32 = 1;

/// A file on the way from the remote client.
pub struct IncomingFile {
    pub stream_id: u32,
    pub filename: String,
    pub total_size: u64,
    pub received_size: u64,
    pub temp_path: String,
    /// Position in the list of files that the remote client offered.
    pub file_index: u32,
    /// Number of the clipboard lock.
    pub clip_data_id: u32,
}

/// What is known of an incoming file.
#[verifier::ext_equal]
pub struct IncomingView {
    pub stream_id: u32,
    pub filename: Seq<char>,
    pub total_size: u64,
    pub received_size: u64,
    pub temp_path: Seq<char>,
    pub file_index: u32,
    pub clip_data_id: u32,
}

impl View for IncomingFile {
    type V = IncomingView;

    open spec fn view(&self) -> IncomingView {
        IncomingView {
            stream_id: self.stream_id,
            filename: self.filename@,
            total_size: self.total_size,
            received_size: self.received_size,
            temp_path: self.temp_path@,
            file_index: self.file_index,
            clip_data_id: self.clip_data_id,
        }
    }
}

/// A local file that is offered to the remote client.
pub struct OutgoingFile {
    pub list_index: u32,
    pub path: String,
    pub size: u64,
    pub filename: String,
}

/// What is known of an outgoing file.
#[verifier::ext_equal]
pub struct OutgoingView {
    pub list_index: u32,
    pub path: Seq<char>,
    pub size: u64,
    pub filename: Seq<char>,
}

impl View for OutgoingFile {
    type V = OutgoingView;

    open spec fn view(&self) -> OutgoingView {
        OutgoingView {
            list_index: self.list_index,
            path: self.path@,
            size: self.size,
            filename: self.filename@,
        }
    }
}

/// What is known of a file that the remote client offers.
#[verifier::ext_equal]
pub struct DescriptorView {
    pub name: Seq<char>,
    pub size: Option<u64>,
}

impl View for FileDescriptor {
    type V = DescriptorView;

    open spec fn view(&self) -> DescriptorView {
        DescriptorView { name: self.name@, size: self.size }
    }
}

/// A local file that was found on the clipboard: its path, the last part of the
/// path where that is text, and its size where the file could be examined.
pub struct LocalFile {
    pub path: String,
    pub file_name: Option<String>,
    pub size: Option<u64>,
}

/// State of the file transfers between the remote client and this machine.
pub struct FileTransferState {
    /// Files on the way in, by stream number.
    pub incoming_files: HashMap<u32, IncomingFile>,
    /// Files that the remote client may read.
    pub outgoing_files: Vec<OutgoingFile>,
    /// The files that the remote client offered last.
    pub pending_descriptors: Vec<FileDescriptor>,
    /// Directory for received files.
    pub download_dir: String,
    /// The paste that waits for the incoming files.
    pub portal_serial: Option<u32>,
    /// The stream number that is given out next.
    pub next_stream_id: u32,
    /// Paths of the received files.
    pub completed_files: Vec<String>,
}

/// What the transfer state holds.
#[verifier::ext_equal]
pub struct TransferView {
    pub incoming: Map<u32, IncomingView>,
    pub outgoing: Seq<OutgoingView>,
    pub descriptors: Seq<DescriptorView>,
    pub download_dir: Seq<char>,
    pub portal_serial: Option<u32>,
    pub next_stream_id: u32,
    pub completed: Seq<Seq<char>>,
}

/// What a list of outgoing files holds.
pub open spec fn outgoing_views(v: Seq<OutgoingFile>) -> Seq<OutgoingView> {
    v.map_values(|f: OutgoingFile| f@)
}

/// What a list of descriptors holds.
pub open spec fn descriptor_views(v: Seq<FileDescriptor>) -> Seq<DescriptorView> {
    v.map_values(|f: FileDescriptor| f@)
}

/// What the incoming files hold, by stream number.
pub open spec fn incoming_views(m: Map<u32, IncomingFile>) -> Map<u32, IncomingView> {
    m.map_values(|f: IncomingFile| f@)
}

impl View for FileTransferState {
    type V = TransferView;

    open spec fn view(&self) -> TransferView {
        TransferView {
            incoming: incoming_views(self.incoming_files@),
            outgoing: outgoing_views(self.outgoing_files@),
            descriptors: descriptor_views(self.pending_descriptors@),
            download_dir: self.download_dir@,
            portal_serial: self.portal_serial,
            next_stream_id: self.next_stream_id,
            completed: views(self.completed_files@),
        }
    }
}

/// `name` in the directory `dir`. An absolute name stands for itself.
pub open spec fn path_in(dir: Seq<char>, name: Seq<char>) -> Seq<char> {
    if name.len() > 0 && name[0] == '/' {
        name
    } else if dir.len() == 0 || dir.last() == '/' {
        dir + name
    } else {
        dir.push('/') + name
    }
}

/// `name` in the directory `dir`.
pub fn join_path(dir: &str, name: &str) -> (r: String)
    ensures
        r@ == path_in(dir@, name@),
{
    let n = chars_of(name);
    if n.len() > 0 && n[0] == '/' {
        return name.to_owned();
    }
    let d = chars_of(dir);
    let mut r = dir.to_owned();
    if d.len() > 0 && d[d.len() - 1] != '/' {
        r.push('/');
    }
    r.append(name);
    r
}

/// The hidden file that a file is received into.
pub open spec fn temp_name(filename: Seq<char>, stream_id: u32) -> Seq<char> {
    "."@ + filename + "."@ + decimal(stream_id as nat) + ".tmp"@
}

fn temp_file_name(filename: &str, stream_id: u32) -> (r: String)
    ensures
        r@ == temp_name(filename@, stream_id),
{
    let mut r = joined(".", filename);
    r.append(".");
    r.append(decimal_text(stream_id as u64).as_str());
    r.append(".tmp");
    r
}

/// A part of a file that is asked of the remote client.
#[derive(Clone, Copy, PartialEq, Eq, Structural)]
pub struct FileContentsRequest {
    pub stream_id: u32,
    /// Position of the file in the list.
    pub index: u32,
    /// First byte that is asked for.
    pub position: u64,
    /// How many bytes are asked for.
    pub requested_size: u32,
    /// Number of the clipboard lock.
    pub data_id: Option<u32>,
}

/// How much of a file of `total` bytes the first request asks for. The size of
/// a file may not be known, which is written 0.
pub open spec fn first_request_size(total: u64) -> int {
    if 0 < total < MAX_CHUNK {
        total as int
    } else {
        MAX_CHUNK as int
    }
}

/// A file that is about to be received.
pub struct PlannedFile {
    pub stream_id: u32,
    pub filename: String,
    pub total_size: u64,
    pub temp_path: String,
    pub file_index: u32,
}

/// What is known of a planned file.
#[verifier::ext_equal]
pub struct PlannedView {
    pub stream_id: u32,
    pub filename: Seq<char>,
    pub total_size: u64,
    pub temp_path: Seq<char>,
    pub file_index: u32,
}

impl View for PlannedFile {
    type V = PlannedView;

    open spec fn view(&self) -> PlannedView {
        PlannedView {
            stream_id: self.stream_id,
            filename: self.filename@,
            total_size: self.total_size,
            temp_path: self.temp_path@,
            file_index: self.file_index,
        }
    }
}

/// What a list of planned files holds.
pub open spec fn planned_views(v: Seq<PlannedFile>) -> Seq<PlannedView> {
    v.map_values(|f: PlannedFile| f@)
}

/// The stream number `n` places after `first`; the numbers wrap around.
pub open spec fn stream_after(first: u32, n: int) -> u32 {
    ((first + n) % 0x1_0000_0000) as u32
}

/// A size that may be unknown, with 0 for unknown.
pub open spec fn size_or_zero(size: Option<u64>) -> u64 {
    match size {
        Some(n) => n,
        None => 0,
    }
}

/// The plan for file `i` of a list of offered files.
pub open spec fn planned_file(
    dir: Seq<char>,
    first: u32,
    descriptors: Seq<DescriptorView>,
    i: int,
) -> PlannedView {
    let filename = linux_filename(descriptors[i].name);
    let stream_id = stream_after(first, i);
    PlannedView {
        stream_id,
        filename,
        total_size: size_or_zero(descriptors[i].size),
        temp_path: path_in(dir, temp_name(filename, stream_id)),
        file_index: (i % 0x1_0000_0000) as u32,
    }
}

/// The plan for a list of offered files, in order.
pub open spec fn plan_of(dir: Seq<char>, first: u32, descriptors: Seq<DescriptorView>) -> Seq<
    PlannedView,
> {
    Seq::new(descriptors.len(), |i: int| planned_file(dir, first, descriptors, i))
}

/// The incoming file that a plan starts.
pub open spec fn started_file(p: PlannedView) -> IncomingView {
    IncomingView {
        stream_id: p.stream_id,
        filename: p.filename,
        total_size: p.total_size,
        received_size: 0,
        temp_path: p.temp_path,
        file_index: p.file_index,
        clip_data_id: CLIP_DATA_ID,
    }
}

/// An incoming file after `len` more bytes.
pub open spec fn grown(f: IncomingView, len: u64) -> IncomingView {
    IncomingView { received_size: (f.received_size + len) as u64, ..f }
}

/// All bytes of a file of known size have arrived.
pub open spec fn is_complete(f: IncomingView) -> bool {
    f.total_size > 0 && f.received_size >= f.total_size
}

/// The request for the part of a file that follows what has arrived.
pub open spec fn next_request(stream_id: u32, f: IncomingView) -> FileContentsRequest {
    let remaining = f.total_size - f.received_size;
    FileContentsRequest {
        stream_id,
        index: f.file_index,
        position: f.received_size,
        requested_size: (if remaining < MAX_CHUNK {
            remaining
        } else {
            MAX_CHUNK as int
        }) as u32,
        data_id: Some(f.clip_data_id),
    }
}

/// What to do after a part of a file was stored.
#[derive(Clone, Copy, PartialEq, Eq, Structural)]
pub enum ChunkStep {
    /// No file has this stream number.
    Unknown,
    /// The file has arrived: flush it and finish it.
    Finish,
    /// Ask for the next part.
    Request(FileContentsRequest),
    /// The size is not known: wait.
    Wait,
}

/// What follows after `len` bytes of stream `stream_id` were stored.
pub open spec fn chunk_step(v: TransferView, stream_id: u32, len: u64) -> ChunkStep {
    if !v.incoming.contains_key(stream_id) {
        ChunkStep::Unknown
    } else {
        let f = grown(v.incoming[stream_id], len);
        if is_complete(f) {
            ChunkStep::Finish
        } else if f.total_size > 0 {
            ChunkStep::Request(next_request(stream_id, f))
        } else {
            ChunkStep::Wait
        }
    }
}

/// A file that has arrived.
pub struct FinishedFile {
    /// Where the data is now.
    pub temp_path: String,
    /// Where it belongs.
    pub final_path: String,
    /// No other file is on the way.
    pub all_complete: bool,
    /// The paste that waits for the files.
    pub portal_serial: Option<u32>,
    /// Paths of all files that have arrived.
    pub completed_files: Vec<String>,
}

/// The state after the file of stream `stream_id` has arrived.
pub open spec fn finished(v: TransferView, stream_id: u32) -> TransferView {
    TransferView {
        incoming: v.incoming.remove(stream_id),
        completed: v.completed.push(path_in(v.download_dir, v.incoming[stream_id].filename)),
        ..v
    }
}

/// The outgoing files that a list of local files gives: those that could be
/// examined, each with its place in the whole list.
pub open spec fn outgoing_of(files: Seq<LocalFile>) -> Seq<OutgoingView>
    decreases files.len(),
{
    if files.len() == 0 {
        Seq::empty()
    } else {
        let f = files.last();
        let before = outgoing_of(files.drop_last());
        match f.size {
            Some(size) => before.push(
                OutgoingView {
                    list_index: ((files.len() - 1) % 0x1_0000_0000) as u32,
                    path: f.path@,
                    size,
                    filename: match f.file_name {
                        Some(n) => n@,
                        None => "unknown"@,
                    },
                },
            ),
            None => before,
        }
    }
}

impl FileTransferState {
    /// An empty state that receives into `download_dir`.
    pub fn new(download_dir: String) -> (r: Self)
        ensures
            r@ == (TransferView {
                incoming: Map::empty(),
                outgoing: Seq::empty(),
                descriptors: Seq::empty(),
                download_dir: download_dir@,
                portal_serial: None,
                next_stream_id: 1,
                completed: Seq::empty(),
            }),
    {
        let r = FileTransferState {
            incoming_files: HashMap::new(),
            outgoing_files: Vec::new(),
            pending_descriptors: Vec::new(),
            download_dir,
            portal_serial: None,
            next_stream_id: 1,
            completed_files: Vec::new(),
        };
        assert(r@.incoming =~= Map::empty());
        assert(r@.outgoing =~= Seq::empty());
        assert(r@.descriptors =~= Seq::empty());
        assert(r@.completed =~= Seq::empty());
        r
    }

    /// Forgets the incoming transfer.
    pub fn clear_incoming(&mut self)
        ensures
            final(self)@ == (TransferView {
                incoming: Map::empty(),
                portal_serial: None,
                completed: Seq::empty(),
                ..old(self)@
            }),
    {
        self.incoming_files.clear();
        self.portal_serial = None;
        self.completed_files.clear();
        assert(self@.incoming =~= Map::empty());
        assert(self@.completed =~= Seq::empty());
    }

    /// Forgets the outgoing files.
    pub fn clear_outgoing(&mut self)
        ensures
            final(self)@ == (TransferView { outgoing: Seq::empty(), ..old(self)@ }),
    {
        self.outgoing_files.clear();
        assert(self@.outgoing =~= Seq::empty());
    }

    /// Notes the files that the remote client offers.
    pub fn set_pending_descriptors(&mut self, descriptors: Vec<FileDescriptor>)
        ensures
            final(self)@ == (TransferView {
                descriptors: descriptor_views(descriptors@),
                ..old(self)@
            }),
    {
        self.pending_descriptors = descriptors;
    }

    /// Forgets the files that the remote client offered.
    pub fn clear_pending_descriptors(&mut self)
        ensures
            final(self)@ == (TransferView { descriptors: Seq::empty(), ..old(self)@ }),
    {
        self.pending_descriptors.clear();
        assert(self@.descriptors =~= Seq::empty());
    }

    /// Gives out the next stream number; after the largest comes 0.
    pub fn allocate_stream_id(&mut self) -> (r: u32)
        ensures
            r == old(self)@.next_stream_id,
            final(self)@ == (TransferView {
                next_stream_id: stream_after(old(self)@.next_stream_id, 1),
                ..old(self)@
            }),
    {
        let id: u32 = self.next_stream_id;
        self.next_stream_id = self.next_stream_id.wrapping_add(1);
        id
    }

    /// Whether files are on the way and all of them have arrived in full.
    pub fn all_files_complete(&self) -> (r: bool)
        ensures
            r == (self@.incoming.dom().len() > 0 && forall|id: u32|
                self@.incoming.contains_key(id) ==> is_complete(#[trigger] self@.incoming[id])),
    {
        let ghost m = self.incoming_files@;
        assert(self@.incoming.dom() =~= m.dom());
        if self.incoming_files.is_empty() {
            return false;
        }
        for f in it: self.incoming_files.values()
            invariant
                m == self.incoming_files@,
                it.seq().unref().to_set() == m.values(),
                forall|k: int| 0 <= k < it.index() ==> is_complete((*#[trigger] it.seq()[k])@),
                self@.incoming == incoming_views(m),
                self@.incoming.dom() == m.dom(),
        {
            if !(f.received_size >= f.total_size && f.total_size > 0) {
                proof {
                    let all = it.seq().unref();
                    assert(all[it.index() as int] == *f);
                    assert(all.to_set().contains(*f));
                    assert(m.values().contains(*f));
                    let id = choose|id: u32| m.contains_key(id) && m[id] == *f;
                    assert(self@.incoming.contains_key(id));
                    assert(!is_complete(self@.incoming[id]));
                }
                return false;
            }
        }
        proof {
            assert forall|id: u32| self@.incoming.contains_key(id) implies is_complete(
                #[trigger] self@.incoming[id],
            ) by {
                assert(m.contains_key(id));
                assert(m.values().contains(m[id]));
            }
        }
        true
    }

    /// Replaces the outgoing files by `files`, of which those that could not be
    /// examined are left out.
    pub fn store_outgoing(&mut self, files: &[LocalFile])
        ensures
            final(self)@ == (TransferView { outgoing: outgoing_of(files@), ..old(self)@ }),
    {
        self.clear_outgoing();
        let mut i: usize = 0;
        assert(files@.take(0) =~= Seq::empty());
        while i < files.len()
            invariant
                i <= files.len(),
                self@ == (TransferView { outgoing: outgoing_of(files@.take(i as int)), ..old(self)@ }),
            decreases files.len() - i,
        {
            let ghost before = self@.outgoing;
            proof {
                assert(files@.take(i + 1).drop_last() =~= files@.take(i as int));
                assert(files@.take(i + 1).last() == files@[i as int]);
            }
            if let Some(size) = files[i].size {
                let filename = match &files[i].file_name {
                    Some(n) => n.clone(),
                    None => "unknown".to_owned(),
                };
                let list_index: u32 = (i as u64 % 0x1_0000_0000) as u32;
                let f = OutgoingFile { list_index, path: files[i].path.clone(), size, filename };
                self.outgoing_files.push(f);
                assert(self@.outgoing =~= before.push(f@));
            }
            i += 1;
        }
        assert(files@.take(i as int) =~= files@);
    }

    /// Begins to receive the files that the remote client offers: what was on the
    /// way is forgotten, and each file gets a stream number, a safe name and a
    /// place to be received into.
    pub fn begin_incoming(&mut self, serial: u32, descriptors: Vec<FileDescriptor>) -> (r: Vec<
        PlannedFile,
    >)
        ensures
            planned_views(r@) == plan_of(
                old(self)@.download_dir,
                old(self)@.next_stream_id,
                descriptor_views(descriptors@),
            ),
            forall|i: int|
                0 <= i < r@.len() ==> (#[trigger] r@[i]).filename@.len() > 0
                    && !r@[i].filename@.contains('/'),
            final(self)@ == (TransferView {
                incoming: Map::empty(),
                descriptors: descriptor_views(descriptors@),
                portal_serial: Some(serial),
                next_stream_id: stream_after(
                    old(self)@.next_stream_id,
                    descriptors@.len() as int,
                ),
                completed: Seq::empty(),
                ..old(self)@
            }),
    {
        self.clear_incoming();
        self.portal_serial = Some(serial);
        let ghost first = self@.next_stream_id;
        let ghost dir = self@.download_dir;
        let ghost dv = descriptor_views(descriptors@);
        let ghost start = self@;
        let mut plan: Vec<PlannedFile> = Vec::new();
        let mut i: usize = 0;
        while i < descriptors.len()
            invariant
                i <= descriptors.len(),
                dv == descriptor_views(descriptors@),
                dir == start.download_dir,
                self@ == (TransferView {
                    next_stream_id: stream_after(first, i as int),
                    ..start
                }),
                planned_views(plan@) == plan_of(dir, first, dv).take(i as int),
                forall|k: int|
                    0 <= k < plan@.len() ==> (#[trigger] plan@[k]).filename@.len() > 0
                        && !plan@[k].filename@.contains('/'),
            decreases descriptors.len() - i,
        {
            let ghost before = planned_views(plan@);
            let stream_id = self.allocate_stream_id();
            let filename = lamco_clipboard_core::sanitize::sanitize_filename_for_linux(
                descriptors[i].name.as_str(),
            );
            let total_size: u64 = match descriptors[i].size {
                Some(n) => n,
                None => 0,
            };
            let temp = temp_file_name(filename.as_str(), stream_id);
            let temp_path = join_path(self.download_dir.as_str(), temp.as_str());
            let file_index: u32 = (i as u64 % 0x1_0000_0000) as u32;
            let p = PlannedFile { stream_id, filename, total_size, temp_path, file_index };
            proof {
                assert(dv[i as int] == descriptors@[i as int]@);
                assert(p@ == planned_file(dir, first, dv, i as int));
            }
            plan.push(p);
            i += 1;
            proof {
                assert(planned_views(plan@) =~= before.push(p@));
                assert(planned_views(plan@) =~= plan_of(dir, first, dv).take(i as int));
            }
        }
        assert(planned_views(plan@) =~= plan_of(dir, first, dv));
        self.set_pending_descriptors(descriptors);
        plan
    }

    /// Notes that the place for a planned file was made, and asks for its first
    /// part.
    pub fn start_incoming(&mut self, plan: &PlannedFile) -> (r: FileContentsRequest)
        ensures
            final(self)@ == (TransferView {
                incoming: old(self)@.incoming.insert(plan.stream_id, started_file(plan@)),
                ..old(self)@
            }),
            r == (FileContentsRequest {
                stream_id: plan.stream_id,
                index: plan.file_index,
                position: 0,
                requested_size: first_request_size(plan.total_size) as u32,
                data_id: Some(CLIP_DATA_ID),
            }),
    {
        let f = IncomingFile {
            stream_id: plan.stream_id,
            filename: plan.filename.clone(),
            total_size: plan.total_size,
            received_size: 0,
            temp_path: plan.temp_path.clone(),
            file_index: plan.file_index,
            clip_data_id: CLIP_DATA_ID,
        };
        self.incoming_files.insert(plan.stream_id, f);
        assert(self@.incoming =~= old(self)@.incoming.insert(plan.stream_id, started_file(plan@)));
        let requested_size: u32 = if plan.total_size > 0 && plan.total_size < MAX_CHUNK {
            plan.total_size as u32
        } else {
            MAX_CHUNK as u32
        };
        FileContentsRequest {
            stream_id: plan.stream_id,
            index: plan.file_index,
            position: 0,
            requested_size,
            data_id: Some(CLIP_DATA_ID),
        }
    }

    /// Where the data of stream `stream_id` is received, if a file has that
    /// number.
    pub fn temp_path_of(&self, stream_id: u32) -> (r: Option<String>)
        ensures
            match r {
                Some(p) => self@.incoming.contains_key(stream_id) && p@
                    == self@.incoming[stream_id].temp_path,
                None => !self@.incoming.contains_key(stream_id),
            },
    {
        match self.incoming_files.get(&stream_id) {
            Some(f) => Some(f.temp_path.clone()),
            None => None,
        }
    }

    /// Notes that `len` bytes of stream `stream_id` were stored.
    pub fn record_chunk(&mut self, stream_id: u32, len: u64) -> (r: ChunkStep)
        requires
            old(self)@.incoming.contains_key(stream_id) ==> old(
                self,
            )@.incoming[stream_id].received_size + len <= u64::MAX,
        ensures
            r == chunk_step(old(self)@, stream_id, len),
            final(self)@ == (if old(self)@.incoming.contains_key(stream_id) {
                TransferView {
                    incoming: old(self)@.incoming.insert(
                        stream_id,
                        grown(old(self)@.incoming[stream_id], len),
                    ),
                    ..old(self)@
                }
            } else {
                old(self)@
            }),
    {
        match self.incoming_files.remove(&stream_id) {
            None => {
                assert(self@.incoming =~= old(self)@.incoming);
                ChunkStep::Unknown
            },
            Some(f) => {
                let ghost before = f@;
                assert(before == old(self)@.incoming[stream_id]);
                let mut f = f;
                f.received_size = f.received_size + len;
                let complete = f.total_size > 0 && f.received_size >= f.total_size;
                let step = if complete {
                    ChunkStep::Finish
                } else if f.total_size > 0 {
                    let remaining: u64 = f.total_size - f.received_size;
                    let requested_size: u32 = if remaining < MAX_CHUNK {
                        remaining as u32
                    } else {
                        MAX_CHUNK as u32
                    };
                    ChunkStep::Request(
                        FileContentsRequest {
                            stream_id,
                            index: f.file_index,
                            position: f.received_size,
                            requested_size,
                            data_id: Some(f.clip_data_id),
                        },
                    )
                } else {
                    ChunkStep::Wait
                };
                assert(f@ == grown(before, len));
                self.incoming_files.insert(stream_id, f);
                assert(self@.incoming =~= old(self)@.incoming.insert(stream_id, grown(before, len)));
                step
            },
        }
    }

    /// Notes that the file of stream `stream_id` has arrived and is flushed.
    pub fn finish_file(&mut self, stream_id: u32) -> (r: Option<FinishedFile>)
        ensures
            match r {
                None => !old(self)@.incoming.contains_key(stream_id) && final(self)@ == old(self)@,
                Some(f) => {
                    &&& old(self)@.incoming.contains_key(stream_id)
                    &&& final(self)@ == finished(old(self)@, stream_id)
                    &&& f.temp_path@ == old(self)@.incoming[stream_id].temp_path
                    &&& f.final_path@ == path_in(
                        old(self)@.download_dir,
                        old(self)@.incoming[stream_id].filename,
                    )
                    &&& f.all_complete == (final(self)@.incoming.dom().len() == 0)
                    &&& f.portal_serial == old(self)@.portal_serial
                    &&& views(f.completed_files@) == final(self)@.completed
                },
            },
    {
        match self.incoming_files.remove(&stream_id) {
            None => {
                assert(self@.incoming =~= old(self)@.incoming);
                None
            },
            Some(f) => {
                assert(f@ == old(self)@.incoming[stream_id]);
                assert(self@.incoming =~= old(self)@.incoming.remove(stream_id));
                assert(self@.incoming.dom() =~= self.incoming_files@.dom());
                let final_path = join_path(self.download_dir.as_str(), f.filename.as_str());
                self.completed_files.push(final_path.clone());
                assert(self@.completed =~= old(self)@.completed.push(final_path@));
                let completed_files = crate::text::copy_texts(&self.completed_files);
                Some(
                    FinishedFile {
                        temp_path: f.temp_path,
                        final_path,
                        all_complete: self.incoming_files.is_empty(),
                        portal_serial: self.portal_serial,
                        completed_files,
                    },
                )
            },
        }
    }

    /// Forgets the received files once they have been handed over.
    pub fn close_transfer(&mut self)
        ensures
            final(self)@ == (TransferView {
                portal_serial: None,
                completed: Seq::empty(),
                ..old(self)@
            }),
    {
        self.completed_files.clear();
        self.portal_serial = None;
        assert(self@.completed =~= Seq::empty());
    }

    /// Gives up the file of stream `stream_id`: returns where its data was
    /// received, if there is such a file, and the paste to cancel, if one waits.
    pub fn abandon(&mut self, stream_id: u32) -> (r: (Option<String>, Option<u32>))
        ensures
            final(self)@ == (TransferView {
                incoming: old(self)@.incoming.remove(stream_id),
                portal_serial: None,
                ..old(self)@
            }),
            match r.0 {
                Some(p) => old(self)@.incoming.contains_key(stream_id) && p@ == old(
                    self,
                )@.incoming[stream_id].temp_path,
                None => !old(self)@.incoming.contains_key(stream_id),
            },
            r.1 == old(self)@.portal_serial,
    {
        let removed = match self.incoming_files.remove(&stream_id) {
            Some(f) => {
                assert(f@ == old(self)@.incoming[stream_id]);
                Some(f.temp_path)
            },
            None => None,
        };
        assert(self@.incoming =~= old(self)@.incoming.remove(stream_id));
        let serial = self.portal_serial;
        self.portal_serial = None;
        (removed, serial)
    }
}

/// The file URI of a path: what has a meaning in a URI is percent-encoded, the
/// slashes stay.
pub open spec fn file_uri(path: Seq<char>) -> Seq<char> {
    "file://"@ + percent_encoded(encode_utf8(path))
}

/// The list of copied files that a file manager pastes.
pub open spec fn copied_files(paths: Seq<Seq<char>>) -> Seq<char> {
    "copy\n"@ + join(paths.map_values(|p: Seq<char>| file_uri(p)), "\n"@) + "\0"@
}

fn is_escaped(b: u8) -> (r: bool)
    ensures
        r == crate::clipboard::core_calls::is_escaped(b),
{
    b < 0x20 || b >= 0x7f || b == 0x20 || b == 0x22 || b == 0x23 || b == 0x25 || b == 0x3c || b
        == 0x3e || b == 0x3f || b == 0x60 || b == 0x7b || b == 0x7d
}

/// The file URI of `path`.
pub fn to_file_uri(path: &str) -> (r: String)
    ensures
        r@ == file_uri(path@),
{
    let bytes = path.as_bytes_vec();
    let mut r = "file://".to_owned();
    let mut i: usize = 0;
    assert(bytes@.take(0) =~= Seq::empty());
    assert("file://"@ + percent_encoded(bytes@.take(0)) =~= "file://"@);
    while i < bytes.len()
        invariant
            i <= bytes.len(),
            r@ == "file://"@ + percent_encoded(bytes@.take(i as int)),
        decreases bytes.len() - i,
    {
        let ghost before = r@;
        let b: u8 = bytes[i];
        if is_escaped(b) {
            r.append(percent_encoding::percent_encode_byte(b));
        } else {
            r.push(b as char);
        }
        i += 1;
        proof {
            let t = bytes@.take(i as int);
            assert(t.drop_last() =~= bytes@.take(i - 1));
            assert(t.last() == b);
            assert(r@ =~= before + escape_byte(b));
            assert(r@ =~= "file://"@ + percent_encoded(t));
        }
    }
    assert(bytes@.take(i as int) =~= bytes@);
    r
}

/// The list of copied files that a file manager pastes, as UTF-8.
pub fn copied_files_list(paths: &[String]) -> (r: Vec<u8>)
    ensures
        r@ == encode_utf8(copied_files(views(paths@))),
{
    let mut uris: Vec<String> = Vec::new();
    let mut i: usize = 0;
    let ghost want = views(paths@).map_values(|p: Seq<char>| file_uri(p));
    while i < paths.len()
        invariant
            i <= paths.len(),
            want == views(paths@).map_values(|p: Seq<char>| file_uri(p)),
            views(uris@) == want.take(i as int),
        decreases paths.len() - i,
    {
        let ghost before = views(uris@);
        let uri = to_file_uri(paths[i].as_str());
        uris.push(uri);
        i += 1;
        assert(views(uris@) =~= before.push(uri@));
        assert(views(uris@) =~= want.take(i as int));
    }
    assert(views(uris@) =~= want);
    let mut text = joined("copy\n", join_texts(&uris, "\n").as_str());
    text.append("\0");
    text.as_str().as_bytes_vec()
}

/// Where received files go: `Downloads` in the home directory, or `/tmp`.
pub fn download_dir(home: Option<String>) -> (r: String)
    ensures
        r@ == match home {
            Some(h) => path_in(h@, "Downloads"@),
            None => "/tmp"@,
        },
{
    match home {
        Some(h) => join_path(h.as_str(), "Downloads"),
        None => "/tmp".to_owned(),
    }
}

/// The stream numbers of one transfer differ from each other.
pub proof fn stream_ids_differ(dir: Seq<char>, first: u32, descriptors: Seq<DescriptorView>)
    requires
        descriptors.len() <= 0x1_0000_0000,
    ensures
        forall|i: int, j: int|
            0 <= i < j < descriptors.len() ==> (#[trigger] plan_of(
                dir,
                first,
                descriptors,
            )[i]).stream_id != (#[trigger] plan_of(dir, first, descriptors)[j]).stream_id,
{
    let p = plan_of(dir, first, descriptors);
    assert forall|i: int, j: int| 0 <= i < j < descriptors.len() implies (#[trigger] p[i]).stream_id
        != (#[trigger] p[j]).stream_id by {
        assert(p[i].stream_id == stream_after(first, i));
        assert(p[j].stream_id == stream_after(first, j));
    }
}

/// A request for more of a file begins where the data that has arrived ends,
/// asks for at least one byte and at most 64 MiB, and does not reach beyond the
/// end of the file.
pub proof fn requests_follow_the_data(v: TransferView, stream_id: u32, len: u64)
    requires
        v.incoming.contains_key(stream_id),
        v.incoming[stream_id].received_size + len <= u64::MAX,
    ensures
        chunk_step(v, stream_id, len) matches ChunkStep::Request(q) ==> {
            let f = grown(v.incoming[stream_id], len);
            &&& q.stream_id == stream_id
            &&& q.position == v.incoming[stream_id].received_size + len
            &&& 1 <= q.requested_size <= MAX_CHUNK
            &&& q.position + q.requested_size <= f.total_size
        },
{
}

/// A received file is placed directly in the download directory: its name holds
/// no slash.
pub proof fn files_stay_in_the_directory(dir: Seq<char>, filename: Seq<char>)
    requires
        filename.len() > 0,
        !filename.contains('/'),
    ensures
        path_in(dir, filename) == dir + filename || path_in(dir, filename) == dir.push('/')
            + filename,
        path_in(dir, filename).skip(path_in(dir, filename).len() - filename.len()) == filename,
{
    let p = path_in(dir, filename);
    assert(filename[0] != '/') by {
        if filename[0] == '/' {
            assert(filename.contains('/'));
        }
    }
    assert(p.skip(p.len() - filename.len()) =~= filename);
}

/// Copied files that could all be examined are offered as they were copied: each at
/// its place in the list, with its own path and size.
pub proof fn copied_files_keep_their_places(files: Seq<LocalFile>, i: int)
    requires
        forall|k: int| 0 <= k < files.len() ==> (#[trigger] files[k]).size is Some,
        0 <= i < files.len() <= 0x1_0000_0000,
    ensures
        outgoing_of(files).len() == files.len(),
        outgoing_of(files)[i].path == files[i].path@,
        files[i].size == Some(outgoing_of(files)[i].size),
        outgoing_of(files)[i].list_index == i,
        outgoing_of(files)[i].filename == (match files[i].file_name {
            Some(n) => n@,
            None => "unknown"@,
        }),
    decreases files.len(),
{
    let rest = files.drop_last();
    assert(files[files.len() - 1].size is Some);
    if rest.len() > 0 {
        assert forall|k: int| 0 <= k < rest.len() implies (#[trigger] rest[k]).size is Some by {
            assert(rest[k] == files[k]);
        }
        copied_files_keep_their_places(rest, 0);
        if i < rest.len() {
            copied_files_keep_their_places(rest, i);
        }
    } else {
        assert(outgoing_of(rest).len() == 0);
    }
}

/// What is offered is what was copied, in the order in which it was copied, and with
/// its place in the copied list. Only files that could not be examined are left out.
pub proof fn offers_follow_the_copied_list(files: Seq<LocalFile>)
    requires
        files.len() <= 0x1_0000_0000,
    ensures
        forall|j: int, k: int|
            0 <= j < k < outgoing_of(files).len() ==> (#[trigger] outgoing_of(files)[j]).list_index
                < (#[trigger] outgoing_of(files)[k]).list_index,
        forall|k: int|
            0 <= k < outgoing_of(files).len() ==> {
                let f = #[trigger] outgoing_of(files)[k];
                &&& f.list_index < files.len()
                &&& f.path == files[f.list_index as int].path@
                &&& files[f.list_index as int].size == Some(f.size)
            },
        forall|i: int|
            0 <= i < files.len() && (#[trigger] files[i]).size is Some ==> exists|k: int|
                0 <= k < outgoing_of(files).len() && (#[trigger] outgoing_of(files)[k]).list_index
                    == i,
        outgoing_of(files).len() <= files.len(),
    decreases files.len(),
{
    if files.len() > 0 {
        let rest = files.drop_last();
        let o = outgoing_of(files);
        let p = outgoing_of(rest);
        offers_follow_the_copied_list(rest);
        assert forall|k: int| 0 <= k < o.len() implies {
            let f = #[trigger] o[k];
            &&& f.list_index < files.len()
            &&& f.path == files[f.list_index as int].path@
            &&& files[f.list_index as int].size == Some(f.size)
        } by {
            if k < p.len() {
                assert(o[k] == p[k]);
            }
        }
        assert forall|j: int, k: int| 0 <= j < k < o.len() implies (#[trigger] o[j]).list_index < (
        #[trigger] o[k]).list_index by {
            assert(o[j] == p[j]);
            if k < p.len() {
                assert(o[k] == p[k]);
            }
        }
        assert forall|i: int| 0 <= i < files.len() && (#[trigger] files[i]).size is Some implies exists|
            k: int,
        |
            0 <= k < o.len() && (#[trigger] o[k]).list_index == i by {
            if i < rest.len() {
                assert(rest[i] == files[i]);
                let k = choose|k: int| 0 <= k < p.len() && (#[trigger] p[k]).list_index == i;
                assert(o[k] == p[k]);
            } else {
                assert(o[o.len() - 1].list_index == i);
            }
        }
    }
}

/// A name goes below a directory with one slash between them; an absolute one stands
/// for itself.
pub proof fn names_go_below_directories(dir: Seq<char>, name: Seq<char>)
    requires
        name.len() > 0,
    ensures
        name[0] == '/' ==> path_in(dir, name) == name,
        name[0] != '/' && dir.len() > 0 && dir.last() != '/' ==> path_in(dir, name) == dir + seq!['/']
            + name,
        name[0] != '/' && dir.len() > 0 && dir.last() == '/' ==> path_in(dir, name) == dir + name,
        name[0] != '/' && dir.len() == 0 ==> path_in(dir, name) == name,
{
    assert(dir.push('/') + name =~= dir + seq!['/'] + name);
    if dir.len() == 0 {
        assert(dir + name =~= name);
    }
}

/// A file is received into a hidden file beside its place: the name begins with a dot,
/// goes on with the file's own name and ends in the stream number and `.tmp`.
pub proof fn files_are_received_beside_their_place(filename: Seq<char>, stream_id: u32)
    ensures
        ({
            let t = temp_name(filename, stream_id);
            let tail = seq!['.'] + decimal(stream_id as nat) + seq!['.', 't', 'm', 'p'];
            &&& t[0] == '.'
            &&& t.len() == 1 + filename.len() + tail.len()
            &&& t.subrange(1, filename.len() + 1int) == filename
            &&& t.skip(filename.len() + 1int) == tail
        }),
{
    reveal_strlit(".");
    reveal_strlit(".tmp");
    let t = temp_name(filename, stream_id);
    let tail = seq!['.'] + decimal(stream_id as nat) + seq!['.', 't', 'm', 'p'];
    assert("."@ =~= seq!['.']);
    assert(".tmp"@ =~= seq!['.', 't', 'm', 'p']);
    assert(t =~= seq!['.'] + filename + tail);
    assert(t.subrange(1, filename.len() + 1int) =~= filename);
    assert(t.skip(filename.len() + 1int) =~= tail);
}

/// Stream numbers follow each other and begin anew at 0 after the largest.
pub proof fn stream_numbers_follow_each_other(first: u32, n: int)
    requires
        0 <= n,
    ensures
        stream_after(first, n) == (first + n) % 0x1_0000_0000,
        stream_after(first, 0) == first,
        first < u32::MAX ==> stream_after(first, 1) == first + 1,
        stream_after(u32::MAX, 1) == 0,
{
}

/// A character that stands for itself in a URI.
pub open spec fn stands_for_itself(c: char) -> bool {
    '!' <= c <= '~' && c != '"' && c != '#' && c != '%' && c != '<' && c != '>' && c != '?' && c
        != '`' && c != '{' && c != '}'
}

/// The bytes that a percent-encoded text stands for.
pub open spec fn percent_decoded(s: Seq<char>) -> Seq<u8>
    decreases s.len(),
{
    if s.len() == 0 {
        Seq::empty()
    } else if s[0] == '%' && s.len() >= 3 {
        seq![(16 * hex_value(s[1]) + hex_value(s[2])) as u8] + percent_decoded(s.skip(3))
    } else {
        seq![s[0] as u8] + percent_decoded(s.skip(1))
    }
}

/// The number that an upper-case hexadecimal digit stands for.
pub open spec fn hex_value(c: char) -> int {
    if c <= '9' {
        c as int - '0' as int
    } else {
        c as int - 'A' as int + 10
    }
}

proof fn lemma_encoded_first(d: Seq<u8>)
    requires
        d.len() > 0,
    ensures
        percent_encoded(d) == escape_byte(d[0]) + percent_encoded(d.drop_first()),
    decreases d.len(),
{
    if d.len() == 1 {
        assert(d.drop_last() =~= Seq::empty());
        assert(d.drop_first() =~= Seq::empty());
        assert(percent_encoded(d.drop_last()) + escape_byte(d.last()) =~= escape_byte(d[0])
            + percent_encoded(d.drop_first()));
    } else {
        lemma_encoded_first(d.drop_last());
        assert(d.drop_last().drop_first() =~= d.drop_first().drop_last());
        assert(percent_encoded(d) =~= escape_byte(d[0]) + percent_encoded(d.drop_first()));
    }
}

/// A byte is written as its character exactly where that stands for itself in a URI.
pub proof fn special_bytes_are_escaped(b: u8)
    ensures
        stands_for_itself(b as char) ==> escape_byte(b) == seq![b as char],
        !stands_for_itself(b as char) ==> escape_byte(b).len() == 3 && escape_byte(b)[0] == '%' && 16
            * hex_value(escape_byte(b)[1]) + hex_value(escape_byte(b)[2]) == b,
{
}

/// The URI of a file leads back to its path, and holds nothing but characters that have
/// no other meaning in it, and percent signs.
pub proof fn uris_lead_back_to_their_files(path: Seq<char>)
    ensures
        percent_decoded(file_uri(path).skip(7)) == encode_utf8(path),
        file_uri(path).take(7) == "file://"@,
        forall|i: int|
            7 <= i < file_uri(path).len() ==> stands_for_itself(#[trigger] file_uri(path)[i])
                || file_uri(path)[i] == '%',
{
    reveal_strlit("file://");
    let e = percent_encoded(encode_utf8(path));
    lemma_decoded(encode_utf8(path));
    lemma_encoded_chars(encode_utf8(path));
    assert(file_uri(path).skip(7) =~= e);
    assert(file_uri(path).take(7) =~= "file://"@);
    assert forall|i: int| 7 <= i < file_uri(path).len() implies stands_for_itself(
        #[trigger] file_uri(path)[i],
    ) || file_uri(path)[i] == '%' by {
        assert(file_uri(path)[i] == e[i - 7]);
    }
}

proof fn lemma_decoded(d: Seq<u8>)
    ensures
        percent_decoded(percent_encoded(d)) == d,
    decreases d.len(),
{
    if d.len() > 0 {
        let rest = d.drop_first();
        let e = percent_encoded(d);
        lemma_encoded_first(d);
        lemma_decoded(rest);
        special_bytes_are_escaped(d[0]);
        let n = escape_byte(d[0]).len() as int;
        assert(e.skip(n) =~= percent_encoded(rest));
        assert(e[0] == escape_byte(d[0])[0]);
        assert(seq![d[0]] + rest =~= d);
    } else {
        assert(d =~= Seq::empty());
    }
}

proof fn lemma_encoded_chars(d: Seq<u8>)
    ensures
        forall|i: int|
            0 <= i < percent_encoded(d).len() ==> stands_for_itself(#[trigger] percent_encoded(d)[i])
                || percent_encoded(d)[i] == '%',
    decreases d.len(),
{
    if d.len() > 0 {
        let before = percent_encoded(d.drop_last());
        let last = escape_byte(d.last());
        lemma_encoded_chars(d.drop_last());
        assert forall|i: int| 0 <= i < percent_encoded(d).len() implies stands_for_itself(
            #[trigger] percent_encoded(d)[i],
        ) || percent_encoded(d)[i] == '%' by {
            if i < before.len() {
                assert(percent_encoded(d)[i] == before[i]);
            } else {
                assert(percent_encoded(d)[i] == last[i - before.len()]);
            }
        }
    }
}

/// A path of characters that stand for themselves is its URI behind `file://`.
pub proof fn plain_paths_stay_readable(path: Seq<char>)
    requires
        forall|i: int| 0 <= i < path.len() ==> stands_for_itself(#[trigger] path[i]),
    ensures
        file_uri(path) == "file://"@ + path,
{
    assert(is_ascii_chars(path)) by {
        assert forall|i: int| 0 <= i < path.len() implies '\0' <= #[trigger] path[i] <= '\u{7f}' by {
            assert(stands_for_itself(path[i]));
        }
    }
    is_ascii_chars_encode_utf8(path);
    let d = encode_utf8(path);
    assert forall|i: int| 0 <= i < d.len() implies #[trigger] d[i] as char == path[i] by {
    }
    lemma_plain_bytes(d, path);
}

proof fn lemma_plain_bytes(d: Seq<u8>, path: Seq<char>)
    requires
        d.len() == path.len(),
        forall|i: int| 0 <= i < d.len() ==> #[trigger] d[i] as char == path[i],
        forall|i: int| 0 <= i < path.len() ==> stands_for_itself(#[trigger] path[i]),
    ensures
        percent_encoded(d) == path,
    decreases d.len(),
{
    if d.len() > 0 {
        let e = d.drop_last();
        let p = path.drop_last();
        assert forall|i: int| 0 <= i < e.len() implies #[trigger] e[i] as char == p[i] by {
            assert(d[i] as char == path[i]);
        }
        assert forall|i: int| 0 <= i < p.len() implies stands_for_itself(#[trigger] p[i]) by {
            assert(p[i] == path[i]);
        }
        lemma_plain_bytes(e, p);
        assert(d[d.len() - 1] as char == path[path.len() - 1]);
        assert(stands_for_itself(path[path.len() - 1]));
        special_bytes_are_escaped(d.last());
        assert(percent_encoded(d) =~= path);
    } else {
        assert(path =~= Seq::empty());
    }
}

/// The list of copied files is read line by line: the word `copy`, then the URI of each
/// file in order, with a null character behind the last.
pub proof fn copied_files_are_read_line_by_line(paths: Seq<Seq<char>>)
    requires
        paths.len() > 0,
    ensures
        ({
            let list = copied_files(paths);
            let read = split_on(list.drop_last(), "\n"@);
            &&& list.last() == '\0'
            &&& read.len() == paths.len() + 1
            &&& read[0] == "copy"@
            &&& forall|i: int|
                0 <= i < paths.len() ==> percent_decoded((#[trigger] read[i + 1]).skip(7))
                    == encode_utf8(paths[i]) && read[i + 1].take(7) == "file://"@
        }),
{
    reveal_strlit("copy\n");
    reveal_strlit("copy");
    reveal_strlit("\n");
    reveal_strlit("\0");
    reveal_strlit("file://");
    let uris = paths.map_values(|p: Seq<char>| file_uri(p));
    let list = copied_files(paths);
    let all = seq!["copy"@] + uris;
    assert("\n"@ =~= seq!['\n']);
    lemma_join_with_first("copy"@, uris, '\n');
    assert("copy\n"@ =~= "copy"@ + seq!['\n']);
    assert(list.drop_last() =~= "copy"@ + seq!['\n'] + join(uris, seq!['\n']));
    assert forall|i: int| 0 <= i < all.len() implies !(#[trigger] all[i]).contains('\n') by {
        if i > 0 {
            let u = file_uri(paths[i - 1]);
            assert(all[i] == u);
            uris_lead_back_to_their_files(paths[i - 1]);
            if u.contains('\n') {
                let k = choose|k: int| 0 <= k < u.len() && u[k] == '\n';
                if k < 7 {
                    assert(u.take(7)[k] == "file://"@[k]);
                }
            }
        }
    }
    crate::text::lemma_split_join(all, '\n');
    let read = split_on(list.drop_last(), "\n"@);
    assert(read == all);
    assert forall|i: int| 0 <= i < paths.len() implies percent_decoded((#[trigger] read[i + 1]).skip(
        7,
    )) == encode_utf8(paths[i]) && read[i + 1].take(7) == "file://"@ by {
        assert(all[i + 1] == file_uri(paths[i]));
        uris_lead_back_to_their_files(paths[i]);
    }
}

proof fn lemma_join_with_first(first: Seq<char>, parts: Seq<Seq<char>>, c: char)
    requires
        parts.len() > 0,
    ensures
        join(seq![first] + parts, seq![c]) == first + seq![c] + join(parts, seq![c]),
    decreases parts.len(),
{
    let all = seq![first] + parts;
    if parts.len() == 1 {
        assert(all.drop_last() =~= seq![first]);
        assert(join(all.drop_last(), seq![c]) == first);
    } else {
        lemma_join_with_first(first, parts.drop_last(), c);
        assert(all.drop_last() =~= seq![first] + parts.drop_last());
        assert(join(all, seq![c]) =~= first + seq![c] + join(parts, seq![c]));
    }
}

} // verus!
