//! What holds of the clipboard exchange as a whole.

use vstd::prelude::*;
use vstd::relations::total_ordering;
use vstd::utf8::encode_utf8;
use crate::clipboard::convert::{
    cached_bytes, cached_text_is_served, cached_text_reads_back, other_data_passes_unchanged,
    portal_data, text_is_read_as_utf16, unicode_requests_get_the_text,
};
use crate::clipboard::core_calls::{
    group_count, group_name, group_size, group_well_formed, linux_filename, utf8_lossy,
};
use crate::clipboard::error::ExchangeError;
use crate::clipboard::formats::{
    first_announcement_is_asked_for, format_mime, format_views, nothing_is_made_up,
    plain_text_is_wanted_as_unicode, FormatView,
};
use crate::clipboard::line_endings::{unix_text, windows_text};
use crate::clipboard::manager::{
    advertised_name, announced_format, announced_mimes, announcement_followed,
    announcement_treated, delivers, event_answered, fetches_eagerly, fuse_views, group_views,
    health_reported, pending_views, paste_requested, request_replied, response_handled, wants_file_list,
    without_serial, ClipboardAction, ClipboardEvent, ClipboardHealth, ConvertedFormat,
    DataResponseAction, OrchestratorView, PortalFormatsStep, PortalSyncDecision, RdpMessage,
    EAGER_FETCH_SERIAL,
};
use crate::clipboard::reannounce::{
    count_for, counted, id_order, ids_of, sorted_ids, MAX_REANNOUNCEMENTS,
};
use crate::clipboard::transfer::{
    chunk_step, copied_files_keep_their_places, descriptor_views, finished, first_request_size,
    grown, is_complete, outgoing_of, planned_views, plan_of, size_or_zero, started_file,
    stream_after, ChunkStep, DescriptorView, LocalFile, PlannedView, TransferView, MAX_CHUNK,
};
use crate::text::{decimal, occurs_in};
use crate::utf16::{decode_lossy, units_of, until_zero};

verus! {

/// Data of the remote client answers the paste that has waited longest, and no
/// other: exactly that one stops waiting.
pub proof fn oldest_paste_is_answered(
    v: OrchestratorView,
    n: OrchestratorView,
    d: Seq<u8>,
    fuse_available: bool,
    has_sender: bool,
    r: DataResponseAction,
)
    requires
        v.pending.len() > 0,
        response_handled(v, n, d, true, true, fuse_available, has_sender, r),
    ensures
        n.pending == v.pending.drop_first(),
        r matches DataResponseAction::Deliver { request, data } ==> request@ == v.pending[0],
        r matches DataResponseAction::Cancel(request) ==> request@ == v.pending[0],
{
}

/// Data that is held back, or that no provider can take, changes nothing.
pub proof fn held_back_data_changes_nothing(
    v: OrchestratorView,
    n: OrchestratorView,
    d: Seq<u8>,
    should_transfer: bool,
    has_provider: bool,
    fuse_available: bool,
    has_sender: bool,
    r: DataResponseAction,
)
    requires
        !should_transfer || !has_provider,
        response_handled(
            v,
            n,
            d,
            should_transfer,
            has_provider,
            fuse_available,
            has_sender,
            r,
        ),
    ensures
        n == v,
        r is Ignore,
{
}

/// The formats and the cached text never change when data arrives.
pub proof fn data_leaves_the_formats(
    v: OrchestratorView,
    n: OrchestratorView,
    d: Seq<u8>,
    should_transfer: bool,
    has_provider: bool,
    fuse_available: bool,
    has_sender: bool,
    r: DataResponseAction,
)
    requires
        response_handled(
            v,
            n,
            d,
            should_transfer,
            has_provider,
            fuse_available,
            has_sender,
            r,
        ),
    ensures
        n.rdp_formats == v.rdp_formats,
        n.advertised == v.advertised,
        n.cache == v.cache,
        n.counts == v.counts,
        n.last_reannounce == v.last_reannounce,
        n.transfer.outgoing == v.transfer.outgoing,
{
}

/// A second paste of files is turned away while files are on the way: the
/// transfer that runs is not disturbed.
pub proof fn running_transfer_is_not_disturbed(
    v: OrchestratorView,
    n: OrchestratorView,
    d: Seq<u8>,
    fuse_available: bool,
    has_sender: bool,
    r: DataResponseAction,
)
    requires
        v.transfer.incoming.dom().len() > 0,
        response_handled(v, n, d, true, true, fuse_available, has_sender, r),
    ensures
        n.transfer == v.transfer,
{
}

/// Dropping a serial keeps every paste with another serial, in order, and no
/// paste with that one.
pub proof fn dropping_a_serial(pending: Seq<(u32, Seq<char>)>, serial: u32)
    ensures
        forall|i: int|
            0 <= i < without_serial(pending, serial).len() ==> (#[trigger] without_serial(
                pending,
                serial,
            )[i]).0 != serial && pending.contains(without_serial(pending, serial)[i]),
        forall|i: int|
            0 <= i < pending.len() && (#[trigger] pending[i]).0 != serial ==> without_serial(
                pending,
                serial,
            ).contains(pending[i]),
    decreases pending.len(),
{
    if pending.len() > 0 {
        let rest = pending.drop_last();
        dropping_a_serial(rest, serial);
        let w = without_serial(pending, serial);
        let k = without_serial(rest, serial);
        assert forall|i: int| 0 <= i < w.len() implies (#[trigger] w[i]).0 != serial
            && pending.contains(w[i]) by {
            if i < k.len() {
                assert(w[i] == k[i]);
                assert(rest.contains(k[i]));
                let j = choose|j: int| 0 <= j < rest.len() && rest[j] == k[i];
                assert(pending[j] == k[i]);
            } else {
                assert(w[i] == pending.last());
                assert(pending[pending.len() - 1] == w[i]);
            }
        }
        assert forall|i: int|
            0 <= i < pending.len() && (#[trigger] pending[i]).0 != serial implies w.contains(
            pending[i],
        ) by {
            if i < rest.len() {
                assert(rest[i] == pending[i]);
                assert(k.contains(rest[i]));
                let j = choose|j: int| 0 <= j < k.len() && k[j] == rest[i];
                assert(w[j] == pending[i]);
            } else {
                assert(w[w.len() - 1] == pending[i]);
            }
        }
    }
}

/// A request that fetches text ahead of time and could not be sent leaves no
/// trace: the pastes that wait are those that waited before, if none of them was
/// such a request.
pub proof fn failed_fetch_leaves_no_trace(pending: Seq<(u32, Seq<char>)>)
    requires
        forall|i: int| 0 <= i < pending.len() ==> (#[trigger] pending[i]).0 != EAGER_FETCH_SERIAL,
    ensures
        without_serial(pending.push((EAGER_FETCH_SERIAL, "text/plain"@)), EAGER_FETCH_SERIAL)
            == pending,
{
    let all = pending.push((EAGER_FETCH_SERIAL, "text/plain"@));
    assert(all.drop_last() =~= pending);
    lemma_nothing_to_drop(pending, EAGER_FETCH_SERIAL);
}

proof fn lemma_nothing_to_drop(pending: Seq<(u32, Seq<char>)>, serial: u32)
    requires
        forall|i: int| 0 <= i < pending.len() ==> (#[trigger] pending[i]).0 != serial,
    ensures
        without_serial(pending, serial) == pending,
    decreases pending.len(),
{
    if pending.len() > 0 {
        lemma_nothing_to_drop(pending.drop_last(), serial);
        assert(pending.drop_last().push(pending.last()) =~= pending);
    } else {
        assert(pending =~= Seq::empty());
    }
}

/// Lists that offer the same format numbers share one count of repeated
/// announcements, in whatever order the numbers came.
pub proof fn order_of_formats_does_not_matter(a: Seq<FormatView>, b: Seq<FormatView>)
    requires
        ids_of(a).to_multiset() == ids_of(b).to_multiset(),
    ensures
        sorted_ids(a) == sorted_ids(b),
{
    assert(total_ordering(id_order()));
    ids_of(a).lemma_sort_by_ensures(id_order());
    ids_of(b).lemma_sort_by_ensures(id_order());
    vstd::seq_lib::lemma_sorted_unique(sorted_ids(a), sorted_ids(b), id_order());
}

/// No count goes beyond two: counting one more announcement where fewer than two
/// were counted keeps all counts at two or less.
pub proof fn at_most_two_reannouncements(counts: Map<Seq<u32>, u32>, key: Seq<u32>)
    requires
        forall|k: Seq<u32>| count_for(counts, k) <= MAX_REANNOUNCEMENTS,
        count_for(counts, key) < MAX_REANNOUNCEMENTS,
    ensures
        forall|k: Seq<u32>| #[trigger]
            count_for(counted(counts, key), k) <= MAX_REANNOUNCEMENTS,
        count_for(counted(counts, key), key) == count_for(counts, key) + 1,
{
    let after = counted(counts, key);
    assert forall|k: Seq<u32>| #[trigger] count_for(after, k) <= MAX_REANNOUNCEMENTS by {
        if k != key {
            assert(count_for(after, k) == count_for(counts, k));
        }
    }
}

/// The first request for a file asks from its beginning for at least one byte,
/// for at most 64 MiB, and for no more than the file has where its size is known.
pub proof fn first_request_fits(total: u64)
    ensures
        1 <= first_request_size(total) <= MAX_CHUNK,
        total > 0 ==> first_request_size(total) <= total,
{
}

/// When the bytes that were asked for arrive, the file is complete or the next
/// request begins where this one ended.
pub proof fn chunks_join_without_gaps(v: TransferView, stream_id: u32, len: u64, next: TransferView)
    requires
        v.incoming.contains_key(stream_id),
        v.incoming[stream_id].received_size + len <= u64::MAX,
        chunk_step(v, stream_id, len) is Request,
        next.incoming == v.incoming.insert(stream_id, grown(v.incoming[stream_id], len)),
    ensures
        ({
            let q = chunk_step(v, stream_id, len)->Request_0;
            match chunk_step(next, stream_id, q.requested_size as u64) {
                ChunkStep::Finish => q.position + q.requested_size
                    == v.incoming[stream_id].total_size,
                ChunkStep::Request(p) => p.position == q.position + q.requested_size,
                _ => false,
            }
        }),
{
}

/// A file of known size that is not longer than one request is complete as soon
/// as the bytes of its first request have arrived.
pub proof fn short_file_takes_one_request(p: PlannedView)
    requires
        0 < p.total_size <= MAX_CHUNK,
    ensures
        first_request_size(p.total_size) == p.total_size,
        is_complete(grown(started_file(p), first_request_size(p.total_size) as u64)),
{
}

/// The files of a paste are received in the order in which they were offered, each
/// under the next number and with the name and size that were offered.
pub proof fn plan_follows_the_offer(dir: Seq<char>, first: u32, descriptors: Seq<DescriptorView>)
    requires
        descriptors.len() <= u32::MAX,
    ensures
        plan_of(dir, first, descriptors).len() == descriptors.len(),
        forall|i: int|
            0 <= i < descriptors.len() ==> {
                let p = #[trigger] plan_of(dir, first, descriptors)[i];
                &&& p.file_index == i
                &&& p.stream_id == stream_after(first, i)
                &&& p.filename == linux_filename(descriptors[i].name)
                &&& p.total_size == size_or_zero(descriptors[i].size)
            },
{
}

/// The remote client reads of each copied file what it asks for: index `i` is file `i`
/// of the copied list, for its size as for its bytes.
pub proof fn copied_files_are_read_by_index(
    v: OrchestratorView,
    n: OrchestratorView,
    files: Seq<LocalFile>,
    i: u32,
    stream_id: u32,
    position: u64,
    size: u32,
    is_size_request: bool,
    r: ClipboardAction,
)
    requires
        v.transfer.outgoing == outgoing_of(files),
        forall|k: int| 0 <= k < files.len() ==> (#[trigger] files[k]).size is Some,
        i < files.len() <= 0x1_0000_0000,
        event_answered(
            v,
            n,
            ClipboardEvent::RdpFileContentsRequest {
                stream_id,
                list_index: i,
                position,
                size,
                is_size_request,
            },
            true,
            r,
        ),
    ensures
        n == v,
        is_size_request ==> (r matches ClipboardAction::Send(
            RdpMessage::FileSize { stream_id: id, size: s },
        ) && id == stream_id && Some(s) == files[i as int].size),
        !is_size_request ==> (r matches ClipboardAction::ReadChunk {
            stream_id: id,
            path,
            position: p,
            size: s,
        } && id == stream_id && path@ == files[i as int].path@ && p == position && s == size),
{
    copied_files_keep_their_places(files, i as int);
}

/// A file beyond the end of the list is refused, and so is every file while the remote
/// client cannot be reached. Nothing changes either way.
pub proof fn unknown_files_are_refused(
    v: OrchestratorView,
    n: OrchestratorView,
    i: u32,
    stream_id: u32,
    position: u64,
    size: u32,
    is_size_request: bool,
    has_sender: bool,
    r: ClipboardAction,
)
    requires
        !has_sender || i >= v.transfer.outgoing.len(),
        event_answered(
            v,
            n,
            ClipboardEvent::RdpFileContentsRequest {
                stream_id,
                list_index: i,
                position,
                size,
                is_size_request,
            },
            has_sender,
            r,
        ),
    ensures
        n == v,
        r matches ClipboardAction::Fail(e) && (e is NotInitialized <==> !has_sender),
        has_sender ==> (r matches ClipboardAction::Fail(ExchangeError::InvalidState(m)) && m@
            == "File index "@ + decimal(i as nat) + " not found"@),
{
}

/// Bytes of a file are stored with the file they belong to, and bytes that belong to
/// none are dropped. A failure gives up the file and the paste that waits for it, and
/// leaves the other files alone.
pub proof fn received_bytes_find_their_file(
    v: OrchestratorView,
    n: OrchestratorView,
    stream_id: u32,
    data: Vec<u8>,
    is_error: bool,
    has_sender: bool,
    r: ClipboardAction,
)
    requires
        event_answered(
            v,
            n,
            ClipboardEvent::RdpFileContentsResponse { stream_id, data, is_error },
            has_sender,
            r,
        ),
    ensures
        !is_error ==> n == v,
        !is_error && v.transfer.incoming.contains_key(stream_id) ==> (
        r matches ClipboardAction::StoreChunk { stream_id: id, temp_path, data: d } && id == stream_id
            && temp_path@ == v.transfer.incoming[stream_id].temp_path && d@ == data@),
        !is_error && !v.transfer.incoming.contains_key(stream_id) ==> r is Done,
        is_error ==> !n.transfer.incoming.contains_key(stream_id) && n.transfer.portal_serial is None,
        is_error ==> (r matches ClipboardAction::Abandon { partial_file, serial } && serial
            == v.transfer.portal_serial && (partial_file is Some
            <==> v.transfer.incoming.contains_key(stream_id)) && (partial_file matches Some(p) ==> p@
            == v.transfer.incoming[stream_id].temp_path)),
        forall|other: u32|
            other != stream_id ==> n.transfer.incoming.contains_key(other)
                == v.transfer.incoming.contains_key(other) && n.transfer.incoming[other]
                == v.transfer.incoming[other],
        n.pending == v.pending,
        n.transfer.outgoing == v.transfer.outgoing,
        n.transfer.completed == v.transfer.completed,
{
}

/// Where the remote client has no data, every paste that waits is given up, the oldest
/// first.
pub proof fn missing_data_fails_all_pastes(
    v: OrchestratorView,
    n: OrchestratorView,
    has_sender: bool,
    r: ClipboardAction,
)
    requires
        event_answered(v, n, ClipboardEvent::RdpDataError, has_sender, r),
    ensures
        n.pending.len() == 0,
        r matches ClipboardAction::Cancel(all) && all@.len() == v.pending.len() && forall|i: int|
            0 <= i < all@.len() ==> (#[trigger] all@[i]).serial == v.pending[i].0
                && all@[i].mime_type@ == v.pending[i].1,
        n.transfer == v.transfer,
        n.rdp_formats == v.rdp_formats,
        n.advertised == v.advertised,
{
    if let ClipboardAction::Cancel(all) = r {
        assert forall|i: int| 0 <= i < all@.len() implies (#[trigger] all@[i]).serial
            == v.pending[i].0 && all@[i].mime_type@ == v.pending[i].1 by {
            assert(pending_views(all@)[i] == all@[i]@);
        }
    }
}

/// A client whose channel becomes ready hears of what was copied before, and of nothing
/// where nothing was.
pub proof fn ready_client_hears_of_the_copy(
    v: OrchestratorView,
    n: OrchestratorView,
    has_sender: bool,
    r: ClipboardAction,
)
    requires
        event_answered(v, n, ClipboardEvent::RdpReady, has_sender, r),
    ensures
        n == v,
        v.advertised.len() == 0 ==> r is Done,
        v.advertised.len() > 0 ==> (r matches ClipboardAction::Send(RdpMessage::InitiateCopy(f))
            && f@.len() == v.advertised.len() && forall|i: int|
            0 <= i < f@.len() ==> (#[trigger] f@[i])@ == v.advertised[i]),
{
    if v.advertised.len() > 0 {
        if let ClipboardAction::Send(RdpMessage::InitiateCopy(f)) = r {
            assert forall|i: int| 0 <= i < f@.len() implies (#[trigger] f@[i])@ == v.advertised[i] by {
                assert(format_views(f@)[i] == f@[i]@);
            }
        }
    }
}

/// The formats that the remote client announces are those that pastes look through.
pub proof fn announced_formats_are_kept(
    v: OrchestratorView,
    n: OrchestratorView,
    formats: Vec<crate::clipboard::formats::ClipboardFormat>,
    has_sender: bool,
    r: ClipboardAction,
)
    requires
        event_answered(v, n, ClipboardEvent::RdpFormatList(formats), has_sender, r),
    ensures
        n.rdp_formats.len() == formats@.len(),
        forall|i: int| 0 <= i < formats@.len() ==> #[trigger] n.rdp_formats[i] == formats@[i]@,
        n.advertised == v.advertised,
        n.pending == v.pending,
        n.transfer == v.transfer,
        n.cache == v.cache,
        r is SyncRdpFormats,
{
}

/// Data of the remote client, announcements and requests of the compositor are handed
/// on as they came.
pub proof fn events_are_handed_on(
    v: OrchestratorView,
    n: OrchestratorView,
    event: ClipboardEvent,
    has_sender: bool,
    r: ClipboardAction,
)
    requires
        event_answered(v, n, event, has_sender, r),
    ensures
        match event {
            ClipboardEvent::RdpDataResponse(data) => n == v && (
            r matches ClipboardAction::CheckContent(d) && d@ == data@),
            ClipboardEvent::PortalFormatsAvailable(mimes, force) => n == v && (
            r matches ClipboardAction::SyncPortalFormats { mime_types, force: f } && mime_types@
                == mimes@ && f == force),
            ClipboardEvent::PortalDataRequest(mime) => n == v && (
            r matches ClipboardAction::RequestFormat { mime_type } && mime_type@ == mime@),
            ClipboardEvent::PortalDataResponse(_) => n == v && r is Done,
            _ => true,
        },
{
}

/// The first announced format with the number that is asked for decides whether the
/// list of copied files is meant; the number 0 stands for the first with a name.
pub proof fn file_list_requests_are_recognised(v: OrchestratorView, format_id: u32, i: int)
    requires
        0 <= i < v.advertised.len(),
        v.advertised[i].id == format_id || format_id == 0 && v.advertised[i].name is Some,
        forall|k: int|
            0 <= k < i ==> (#[trigger] v.advertised[k]).id != format_id && (format_id == 0
                ==> v.advertised[k].name is None),
    ensures
        wants_file_list(v, format_id) <==> v.advertised[i].name == Some("FileGroupDescriptorW"@),
{
    lemma_advertised_name(v.advertised, format_id, i);
}

proof fn lemma_advertised_name(advertised: Seq<FormatView>, format_id: u32, i: int)
    requires
        0 <= i < advertised.len(),
        advertised[i].id == format_id || format_id == 0 && advertised[i].name is Some,
        forall|k: int|
            0 <= k < i ==> (#[trigger] advertised[k]).id != format_id && (format_id == 0
                ==> advertised[k].name is None),
    ensures
        advertised_name(advertised, format_id) == advertised[i].name,
    decreases i,
{
    if i > 0 {
        let rest = advertised.drop_first();
        assert(advertised[0].id != format_id);
        assert forall|k: int| 0 <= k < i - 1 implies (#[trigger] rest[k]).id != format_id && (
        format_id == 0 ==> rest[k].name is None) by {
            assert(rest[k] == advertised[k + 1]);
        }
        lemma_advertised_name(rest, format_id, i - 1);
    }
}

/// A request for a format that was not announced is never one for copied files.
pub proof fn unknown_numbers_mean_no_files(v: OrchestratorView, format_id: u32)
    requires
        forall|k: int|
            0 <= k < v.advertised.len() ==> (#[trigger] v.advertised[k]).id != format_id && (
            format_id == 0 ==> v.advertised[k].name is None),
    ensures
        !wants_file_list(v, format_id),
{
    lemma_no_advertised_name(v.advertised, format_id);
}

proof fn lemma_no_advertised_name(advertised: Seq<FormatView>, format_id: u32)
    requires
        forall|k: int|
            0 <= k < advertised.len() ==> (#[trigger] advertised[k]).id != format_id && (format_id
                == 0 ==> advertised[k].name is None),
    ensures
        advertised_name(advertised, format_id) is None,
    decreases advertised.len(),
{
    if advertised.len() > 0 {
        let rest = advertised.drop_first();
        assert(advertised[0].id != format_id);
        assert forall|k: int| 0 <= k < rest.len() implies (#[trigger] rest[k]).id != format_id && (
        format_id == 0 ==> rest[k].name is None) by {
            assert(rest[k] == advertised[k + 1]);
        }
        lemma_no_advertised_name(rest, format_id);
    }
}

/// Text of a clipboard manager answers requests for text, as UTF-16 and in one byte per
/// character; every other request, and every request without such text, goes to the
/// compositor.
pub proof fn managers_text_is_served_first(
    v: OrchestratorView,
    n: OrchestratorView,
    s: Seq<char>,
    format_id: u32,
    has_sender: bool,
    r: ClipboardAction,
)
    requires
        v.cache == Some(cached_bytes(s)) || v.cache is None,
        event_answered(v, n, ClipboardEvent::RdpDataRequest(format_id), has_sender, r),
    ensures
        n == v,
        v.cache is Some && format_id == 13 ==> (r matches ClipboardAction::ServeCached {
            format_id: id,
            data,
        } && id == 13 && decode_lossy(units_of(data@)) == s.push('\0')),
        v.cache is Some && format_id == 1 && (s.len() > 0 ==> s.last() != '\0') ==> (
        r matches ClipboardAction::ServeCached { format_id: id, data } && id == 1 && data@
            == encode_utf8(s).push(0)),
        v.cache is None || format_id != 13 && format_id != 1 ==> (if wants_file_list(v, format_id) {
            r is ListFiles
        } else {
            r matches ClipboardAction::ReadFormat { format_id: id } && id == format_id
        }),
{
    cached_text_reads_back(s);
    cached_text_is_served(s);
}

/// A client that pastes text gets the text that the compositor holds, and other data
/// as it is held. Where there is no data it is refused.
pub proof fn requests_are_answered_with_the_data(
    format_id: u32,
    mime: Option<Seq<char>>,
    data: Option<Seq<u8>>,
    r: Result<RdpMessage, ExchangeError>,
)
    requires
        request_replied(format_id, mime, data, r),
    ensures
        mime is None || data is None ==> (r matches Ok(m) && m is FormatDataError),
        format_id == 13 && mime is Some && data is Some ==> (r matches Ok(RdpMessage::FormatData(b))
            && decode_lossy(until_zero(units_of(b@))) == windows_text(utf8_lossy(data->0))),
        format_id != 13 && format_id != 8 && format_id != 17 && mime is Some && data is Some ==> (
        r matches Ok(RdpMessage::FormatData(b)) && b@ == data->0),
        r matches Ok(m) ==> m is FormatData || m is FormatDataError,
{
    if mime is Some && data is Some {
        unicode_requests_get_the_text(mime->0, data->0);
        other_data_passes_unchanged(format_id, mime->0, data->0);
    }
}

/// A program that pastes gets what the remote client announced for it: it is asked for
/// the first format that stands for the MIME type, under the number it was announced
/// with.
pub proof fn pastes_ask_for_what_was_announced(
    formats: Seq<FormatView>,
    name_mimes: Seq<Option<Seq<char>>>,
    mime: Seq<char>,
    fallback: Result<u32, ExchangeError>,
    r: Result<RdpMessage, ExchangeError>,
    i: int,
)
    requires
        mime != "text/plain"@,
        mime != "text/plain;charset=utf-8"@,
        0 <= i < formats.len(),
        formats[i].name is Some && name_mimes[i] == Some(mime) || format_mime(formats[i].id) == Some(
            mime,
        ),
        mime != "x-special/gnome-copied-files"@,
        forall|k: int|
            0 <= k < i ==> format_mime((#[trigger] formats[k]).id) != Some(mime) && (
            formats[k].name is Some ==> name_mimes[k] != Some(mime)),
        paste_requested(formats, name_mimes, mime, fallback, r),
    ensures
        r matches Ok(RdpMessage::InitiatePaste(id)) && id == formats[i].id,
{
    assert forall|k: int| 0 <= k < i implies format_mime((#[trigger] formats[k]).id) != Some(mime)
        && (formats[k].name is Some ==> name_mimes[k] != Some(mime) && !(name_mimes[k] == Some(
        "text/uri-list"@,
    ) && mime == "x-special/gnome-copied-files"@)) by {
    }
    first_announcement_is_asked_for(formats, name_mimes, mime, i);
}

/// Plain text is asked for as UTF-16 where that is announced; where nothing fits, the
/// usual number of the MIME type is asked for, or the paste fails as that lookup did.
pub proof fn pastes_fall_back(
    formats: Seq<FormatView>,
    name_mimes: Seq<Option<Seq<char>>>,
    mime: Seq<char>,
    fallback: Result<u32, ExchangeError>,
    r: Result<RdpMessage, ExchangeError>,
    i: int,
)
    requires
        paste_requested(formats, name_mimes, mime, fallback, r),
    ensures
        (mime == "text/plain"@ || mime == "text/plain;charset=utf-8"@) && 0 <= i < formats.len()
            && formats[i].id == 13 ==> (r matches Ok(RdpMessage::InitiatePaste(id)) && id == 13),
        formats.len() == 0 ==> (match fallback {
            Ok(usual) => r matches Ok(RdpMessage::InitiatePaste(id)) && id == usual,
            Err(e) => r == Err::<RdpMessage, ExchangeError>(e),
        }),
{
    if 0 <= i < formats.len() && (mime == "text/plain"@ || mime == "text/plain;charset=utf-8"@) {
        plain_text_is_wanted_as_unicode(formats, name_mimes, mime, i);
    }
    if formats.len() == 0 {
        nothing_is_made_up(formats, name_mimes, mime);
    }
}

proof fn lemma_no_file_mime(m: Seq<char>)
    ensures
        "text/plain"@.is_prefix_of(m) || "text/html"@.is_prefix_of(m) ==> m != "text/uri-list"@ && m
            != "x-special/gnome-copied-files"@,
{
    reveal_strlit("text/plain");
    reveal_strlit("text/html");
    reveal_strlit("text/uri-list");
    reveal_strlit("x-special/gnome-copied-files");
    if "text/plain"@.is_prefix_of(m) {
        assert(m.subrange(0, 10)[5] == 'p');
        assert(m[0] == m.subrange(0, 10)[0]);
    }
    if "text/html"@.is_prefix_of(m) {
        assert(m.subrange(0, 9)[5] == 'h');
        assert(m[0] == m.subrange(0, 9)[0]);
    }
    assert("text/uri-list"@[5] == 'u');
    assert("x-special/gnome-copied-files"@[0] == 'x');
    assert("text/plain"@[0] == 't' && "text/html"@[0] == 't');
}

/// Text that the remote client sends for a paste reaches the program that has waited
/// longest, as UTF-8 with Linux line endings.
pub proof fn pasted_text_arrives(
    v: OrchestratorView,
    n: OrchestratorView,
    d: Seq<u8>,
    fuse_available: bool,
    has_sender: bool,
    r: DataResponseAction,
)
    requires
        v.pending.len() > 0,
        v.pending[0].0 != u32::MAX,
        "text/plain"@.is_prefix_of(v.pending[0].1) || "text/html"@.is_prefix_of(v.pending[0].1),
        d.len() >= 2,
        response_handled(v, n, d, true, true, fuse_available, has_sender, r),
    ensures
        r matches DataResponseAction::Deliver { request, data } && request.serial == v.pending[0].0
            && request.mime_type@ == v.pending[0].1 && data@ == encode_utf8(
            unix_text(decode_lossy(until_zero(units_of(d)))),
        ),
        n.pending == v.pending.drop_first(),
        n.transfer == v.transfer,
{
    lemma_no_file_mime(v.pending[0].1);
    text_is_read_as_utf16(v.pending[0].1, d);
}

/// Data of a type that needs no conversion reaches the program that has waited longest
/// as it was sent.
pub proof fn pasted_data_arrives(
    v: OrchestratorView,
    n: OrchestratorView,
    d: Seq<u8>,
    fuse_available: bool,
    has_sender: bool,
    r: DataResponseAction,
)
    requires
        v.pending.len() > 0,
        v.pending[0].0 != u32::MAX,
        !"image/"@.is_prefix_of(v.pending[0].1),
        !"text/"@.is_prefix_of(v.pending[0].1),
        v.pending[0].1 != "application/rtf"@,
        v.pending[0].1 != "x-special/gnome-copied-files"@,
        response_handled(v, n, d, true, true, fuse_available, has_sender, r),
    ensures
        r matches DataResponseAction::Deliver { request, data } && request.serial == v.pending[0].0
            && request.mime_type@ == v.pending[0].1 && data@ == d,
        n.pending == v.pending.drop_first(),
{
    reveal_strlit("text/uri-list");
    reveal_strlit("text/");
    assert("text/uri-list"@.subrange(0, 5) =~= "text/"@);
    other_data_passes_unchanged(0, v.pending[0].1, d);
}

/// Text that was fetched ahead of time is handed over as text, and no waiting paste is
/// answered with it.
pub proof fn text_fetched_ahead_is_provided(
    v: OrchestratorView,
    n: OrchestratorView,
    d: Seq<u8>,
    fuse_available: bool,
    has_sender: bool,
    r: DataResponseAction,
)
    requires
        v.pending.len() > 0,
        v.pending[0].0 == u32::MAX,
        response_handled(v, n, d, true, true, fuse_available, has_sender, r),
    ensures
        d.len() >= 2 ==> (r matches DataResponseAction::ProvideText(b) && b@ == encode_utf8(
            unix_text(decode_lossy(until_zero(units_of(d)))),
        )),
        d.len() < 2 ==> r is Ignore,
        n.pending == v.pending.drop_first(),
        n.transfer == v.transfer,
{
}

/// Files that the remote client offers for a paste are received one by one, each under
/// its offered place, name and size and a stream number of its own, for the paste that
/// has waited longest.
pub proof fn pasted_files_are_received(
    v: OrchestratorView,
    n: OrchestratorView,
    d: Seq<u8>,
    r: DataResponseAction,
    i: int,
)
    requires
        v.pending.len() > 0,
        v.pending[0].0 != u32::MAX,
        v.pending[0].1 == "text/uri-list"@ || v.pending[0].1 == "x-special/gnome-copied-files"@,
        group_well_formed(d),
        v.transfer.incoming.dom().len() == 0,
        response_handled(v, n, d, true, true, false, true, r),
        0 <= i < group_count(d),
    ensures
        r matches DataResponseAction::Stage { plan, clip_data_id } && {
            &&& clip_data_id == 1
            &&& plan@.len() == group_count(d)
            &&& plan@[i].file_index == i
            &&& plan@[i].filename@ == linux_filename(decode_lossy(group_name(d, i)))
            &&& plan@[i].total_size == (match group_size(d, i) {
                Some(s) => s,
                None => 0,
            })
            &&& plan@[i].stream_id == (v.transfer.next_stream_id + i) % 0x1_0000_0000
        },
        n.transfer.portal_serial == Some(v.pending[0].0),
        n.transfer.next_stream_id == (v.transfer.next_stream_id + group_count(d)) % 0x1_0000_0000,
        n.transfer.incoming == Map::<u32, crate::clipboard::transfer::IncomingView>::empty(),
        n.transfer.completed.len() == 0,
        n.transfer.outgoing == v.transfer.outgoing,
        n.pending == v.pending.drop_first(),
{
    if let DataResponseAction::Stage { plan, clip_data_id } = r {
        assert(group_views(d).len() == group_count(d));
        assert(planned_views(plan@).len() == group_views(d).len());
        assert(planned_views(plan@)[i] == plan@[i]@);
        assert(group_views(d)[i].name == decode_lossy(group_name(d, i)));
    }
}

/// Where a file system can make files as they are read, offered files appear there with
/// their names and sizes, in order, and nothing is received yet.
pub proof fn pasted_files_appear(
    v: OrchestratorView,
    n: OrchestratorView,
    d: Seq<u8>,
    has_sender: bool,
    r: DataResponseAction,
    i: int,
)
    requires
        v.pending.len() > 0,
        v.pending[0].0 != u32::MAX,
        v.pending[0].1 == "text/uri-list"@ || v.pending[0].1 == "x-special/gnome-copied-files"@,
        group_well_formed(d),
        v.transfer.incoming.dom().len() == 0,
        response_handled(v, n, d, true, true, true, has_sender, r),
        0 <= i < group_count(d),
    ensures
        r matches DataResponseAction::OfferFuse { request, files, descriptors, clip_data_id } && {
            &&& clip_data_id == 1
            &&& request.serial == v.pending[0].0
            &&& files@.len() == group_count(d) == descriptors@.len()
            &&& files@[i].filename@ == linux_filename(decode_lossy(group_name(d, i)))
            &&& files@[i].size == (match group_size(d, i) {
                Some(s) => s,
                None => 0,
            })
            &&& descriptors@[i].name@ == decode_lossy(group_name(d, i))
            &&& descriptors@[i].size == group_size(d, i)
        },
        n.transfer == v.transfer,
        n.pending == v.pending.drop_first(),
{
    if let DataResponseAction::OfferFuse { request, files, descriptors, clip_data_id } = r {
        assert(group_views(d).len() == group_count(d));
        assert(fuse_views(files@).len() == group_views(d).len());
        assert(descriptor_views(descriptors@).len() == group_views(d).len());
        assert(fuse_views(files@)[i] == (files@[i].filename@, files@[i].size));
        assert(group_views(d)[i].name == decode_lossy(group_name(d, i)));
        assert(descriptor_views(descriptors@)[i] == descriptors@[i]@);
    }
}

/// A paste of files fails where others are on the way, or where they would have to be
/// received and the remote client cannot be reached.
pub proof fn pasted_files_are_refused(
    v: OrchestratorView,
    n: OrchestratorView,
    d: Seq<u8>,
    fuse_available: bool,
    has_sender: bool,
    r: DataResponseAction,
)
    requires
        v.pending.len() > 0,
        v.pending[0].0 != u32::MAX,
        v.pending[0].1 == "text/uri-list"@ || v.pending[0].1 == "x-special/gnome-copied-files"@,
        group_well_formed(d),
        v.transfer.incoming.dom().len() > 0 || !fuse_available && !has_sender,
        response_handled(v, n, d, true, true, fuse_available, has_sender, r),
    ensures
        r matches DataResponseAction::Cancel(request) && request.serial == v.pending[0].0,
        n.transfer == v.transfer,
        n.pending == v.pending.drop_first(),
{
}

/// Text is fetched ahead of time exactly where the provider needs it, plain text was
/// announced and the remote client has Unicode text. The fetch waits behind the pastes
/// that wait already.
pub proof fn text_is_fetched_where_needed(
    v: OrchestratorView,
    n: OrchestratorView,
    mimes: Seq<Seq<char>>,
    announced: Result<(), String>,
    requires_upfront_data: bool,
    r: Result<Option<RdpMessage>, ExchangeError>,
    i: int,
    k: int,
)
    requires
        announcement_followed(v, n, mimes, announced, requires_upfront_data, r),
    ensures
        announced is Ok && requires_upfront_data && 0 <= i < mimes.len()
            && "text/plain"@.is_prefix_of(mimes[i]) && 0 <= k < v.rdp_formats.len()
            && v.rdp_formats[k].id == 13 ==> (r matches Ok(Some(RdpMessage::InitiatePaste(id))) && id
            == 13) && n.pending == v.pending.push((u32::MAX, "text/plain"@)),
        announced is Ok && (!requires_upfront_data || (forall|j: int|
            0 <= j < mimes.len() ==> !"text/plain"@.is_prefix_of(#[trigger] mimes[j])) || (forall|
            j: int,
        |
            0 <= j < v.rdp_formats.len() ==> (#[trigger] v.rdp_formats[j]).id != 13)) ==> n == v && (
        r matches Ok(m) && m is None),
        announced is Err ==> n == v && r is Err,
        n.pending.len() >= v.pending.len() && n.pending.take(v.pending.len() as int) == v.pending,
        n.transfer == v.transfer,
        n.rdp_formats == v.rdp_formats,
{
    assert(v.pending.take(v.pending.len() as int) =~= v.pending);
    let e: (u32, Seq<char>) = (u32::MAX, "text/plain"@);
    assert(v.pending.push(e).take(v.pending.len() as int) =~= v.pending);
    if 0 <= i < mimes.len() && "text/plain"@.is_prefix_of(mimes[i]) && 0 <= k < v.rdp_formats.len()
        && v.rdp_formats[k].id == 13 && requires_upfront_data {
        assert(fetches_eagerly(v, mimes, requires_upfront_data));
    }
}

/// The provider hears of all MIME types of the remote client, in their order, and of
/// nothing more but the hint for KDE's clipboard manager, where that is wanted.
pub proof fn all_types_are_announced(mimes: Seq<Seq<char>>, hint: bool)
    ensures
        announced_mimes(mimes, hint).len() >= mimes.len(),
        announced_mimes(mimes, hint).take(mimes.len() as int) == mimes,
        !hint ==> announced_mimes(mimes, hint) == mimes,
        hint ==> announced_mimes(mimes, hint).contains("application/x-kde-syncselection"@),
        forall|i: int|
            mimes.len() <= i < announced_mimes(mimes, hint).len() ==> #[trigger] announced_mimes(
                mimes,
                hint,
            )[i] == "application/x-kde-syncselection"@,
        announced_mimes(mimes, hint).len() <= mimes.len() + 1,
{
    let a = announced_mimes(mimes, hint);
    assert(a.take(mimes.len() as int) =~= mimes);
    if hint && !mimes.contains("application/x-kde-syncselection"@) {
        assert(a[mimes.len() as int] == "application/x-kde-syncselection"@);
    }
}

/// What the compositor announces is announced to the remote client with its number, and
/// with its name where it has one.
pub proof fn converted_formats_are_announced(f: ConvertedFormat)
    ensures
        announced_format(f).id == f.format_id,
        f.format_name@.len() == 0 <==> announced_format(f).name is None,
        f.format_name@.len() > 0 ==> announced_format(f).name == Some(f.format_name@),
{
}

/// An announcement that a clipboard manager only repeats is answered by announcing the
/// formats of the remote client again, all of them and in their order: not within half
/// a second of the last time, and at most twice for the same formats. Any other
/// announcement is taken or ignored as was decided.
pub proof fn takeovers_are_answered(
    v: OrchestratorView,
    n: OrchestratorView,
    decision: PortalSyncDecision,
    now: u128,
    r: PortalFormatsStep,
)
    requires
        announcement_treated(v, n, decision, now, r),
    ensures
        decision == PortalSyncDecision::Allow ==> n == v && r is Convert,
        decision == PortalSyncDecision::Block ==> n == v && r is Skip,
        decision == PortalSyncDecision::KlipperReannounce ==> {
            let count = count_for(v.counts, sorted_ids(v.rdp_formats));
            let recent = v.last_reannounce matches Some(t) && t <= now < t + 500_000_000;
            &&& recent || count >= 2 ==> n == v && r is Skip
            &&& !recent && count < 2 ==> count_for(n.counts, sorted_ids(v.rdp_formats)) == count + 1
            &&& !recent && count < 2 && v.rdp_formats.len() == 0 ==> r is Skip
            &&& !recent && count < 2 && v.rdp_formats.len() > 0 ==> (
            r matches PortalFormatsStep::Reannounce(f) && f@.len() == v.rdp_formats.len() && forall|
                i: int,
            |
                0 <= i < f@.len() ==> (#[trigger] f@[i])@ == v.rdp_formats[i])
        },
        n.rdp_formats == v.rdp_formats,
        n.pending == v.pending,
        n.transfer == v.transfer,
        n.last_reannounce == v.last_reannounce,
{
    if let PortalFormatsStep::Reannounce(f) = r {
        if decision == PortalSyncDecision::KlipperReannounce {
            assert forall|i: int| 0 <= i < f@.len() implies (#[trigger] f@[i])@ == v.rdp_formats[i] by {
                assert(format_views(f@)[i] == f@[i]@);
            }
        }
    }
}

/// Failures in a row are counted. A lost session is reported at once, other failures
/// from the third on, and the first success after that; a success begins the count
/// anew.
pub proof fn health_is_reported(
    v: OrchestratorView,
    n: OrchestratorView,
    error: Option<Seq<char>>,
    r: Option<ClipboardHealth>,
)
    requires
        health_reported(v, n, error, true, r),
        v.consecutive_errors < u32::MAX,
    ensures
        error is None ==> n.consecutive_errors == 0,
        error is Some ==> n.consecutive_errors == v.consecutive_errors + 1,
        error is None ==> (r is Some <==> v.consecutive_errors >= 3) && (r matches Some(h) ==> h
            is Recovered),
        error matches Some(e) ==> {
            let lost = occurs_in(e, "session invalid"@) || occurs_in(e, "Session invalid"@);
            &&& r is Some <==> lost || v.consecutive_errors >= 2
            &&& r matches Some(ClipboardHealth::Failed { reason }) ==> reason@ == decimal(
                (v.consecutive_errors + 1) as nat,
            ) + " consecutive errors: "@ + e
            &&& r matches Some(h) ==> h is Failed
        },
        n.pending == v.pending,
        n.transfer == v.transfer,
{
}

/// After bytes of a file were stored, the file is complete when all of it has come, the
/// rest is asked for from where these bytes end, 64 MiB at most, and a file of unknown
/// size is waited for.
pub proof fn the_rest_of_a_file_is_asked_for(v: TransferView, stream_id: u32, len: u64)
    requires
        v.incoming.contains_key(stream_id) ==> v.incoming[stream_id].received_size + len <= u64::MAX,
    ensures
        !v.incoming.contains_key(stream_id) ==> chunk_step(v, stream_id, len) is Unknown,
        v.incoming.contains_key(stream_id) ==> {
            let f = v.incoming[stream_id];
            let have = f.received_size + len;
            &&& f.total_size == 0 ==> chunk_step(v, stream_id, len) is Wait
            &&& f.total_size > 0 && have >= f.total_size ==> chunk_step(v, stream_id, len) is Finish
            &&& f.total_size > 0 && have < f.total_size ==> (chunk_step(
                v,
                stream_id,
                len,
            ) matches ChunkStep::Request(q) && q.stream_id == stream_id && q.index == f.file_index
                && q.position == have && q.requested_size == (if f.total_size - have < 67_108_864 {
                f.total_size - have
            } else {
                67_108_864
            }) && q.data_id == Some(f.clip_data_id))
            &&& grown(f, len).received_size == have
            &&& grown(f, len).total_size == f.total_size
            &&& grown(f, len).temp_path == f.temp_path
            &&& grown(f, len).filename == f.filename
        },
{
}

/// A file that begins to arrive is the planned one, with nothing received yet; its first
/// request asks for all of it, 64 MiB at most, and for that much of a file of unknown
/// size.
pub proof fn files_start_from_nothing(p: PlannedView)
    ensures
        ({
            let f = started_file(p);
            &&& f.received_size == 0
            &&& f.stream_id == p.stream_id
            &&& f.filename == p.filename
            &&& f.total_size == p.total_size
            &&& f.temp_path == p.temp_path
            &&& f.file_index == p.file_index
            &&& f.clip_data_id == 1
        }),
        first_request_size(p.total_size) == (if p.total_size == 0 || p.total_size > 67_108_864 {
            67_108_864
        } else {
            p.total_size as int
        }),
{
}

/// A file that has arrived is off the list of those on the way and last among those
/// that have arrived, under its own name in the download directory; the others stay.
pub proof fn arrived_files_are_listed(v: TransferView, stream_id: u32, other: u32)
    requires
        v.incoming.contains_key(stream_id),
        v.incoming[stream_id].filename.len() > 0,
        v.incoming[stream_id].filename[0] != '/',
        v.download_dir.len() > 0,
        v.download_dir.last() != '/',
    ensures
        ({
            let n = finished(v, stream_id);
            &&& !n.incoming.contains_key(stream_id)
            &&& other != stream_id ==> n.incoming.contains_key(other) == v.incoming.contains_key(
                other,
            ) && n.incoming[other] == v.incoming[other]
            &&& n.completed == v.completed.push(
                v.download_dir + seq!['/'] + v.incoming[stream_id].filename,
            )
            &&& n.portal_serial == v.portal_serial
            &&& n.outgoing == v.outgoing
        }),
{
    assert(v.download_dir.push('/') + v.incoming[stream_id].filename =~= v.download_dir + seq!['/']
        + v.incoming[stream_id].filename);
}

/// Data that can be converted is handed to the paste that asked for it. A picture whose
/// data is too short for a header fails with these words, any other picture that cannot
/// be read with the reason of the conversion.
pub proof fn failed_pictures_say_why(request: (u32, Seq<char>), d: Seq<u8>, r: DataResponseAction)
    requires
        delivers(request, d, r),
    ensures
        portal_data(request.1, d) matches Some(b) ==> (r matches DataResponseAction::Deliver {
            request: q,
            data,
        } && q@ == request && data@ == b),
        ("image/png"@.is_prefix_of(request.1) || "image/jpeg"@.is_prefix_of(request.1)) && d.len() < 4
            ==> (r matches DataResponseAction::Fail(e) && (e matches ExchangeError::ImageDecode(m)
            && m@ == "Data too small for bitmap"@)),
        portal_data(request.1, d) is None && d.len() >= 4 ==> (r matches DataResponseAction::Fail(e)
            && e is Core),
{
}

/// An announcement that the provider refuses changes nothing and is reported with the
/// provider's words.
pub proof fn refused_announcements_are_reported(
    v: OrchestratorView,
    n: OrchestratorView,
    mimes: Seq<Seq<char>>,
    e: String,
    requires_upfront_data: bool,
    r: Result<Option<RdpMessage>, ExchangeError>,
)
    requires
        announcement_followed(v, n, mimes, Err(e), requires_upfront_data, r),
    ensures
        n == v,
        r matches Err(ExchangeError::PortalError(m)) && m@ == "Provider announce_formats failed: "@
            + e@,
{
}

} // verus!
