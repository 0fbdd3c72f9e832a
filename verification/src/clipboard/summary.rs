//! Clipboard events in the log: what they are and how much they carry, but not the
//! data itself.

use vstd::prelude::*;
use vstd::string::StringExecFns;
use crate::clipboard::manager::ClipboardEvent;
use crate::text::{decimal, decimal_text, joined, views};

verus! {

/// A list of texts as it is written for programmers, in quotes and brackets.
pub uninterp spec fn quoted_list(texts: Seq<Seq<char>>) -> Seq<char>;

/// `Debug` for a vector of strings: a function of the strings alone.
#[verifier::external_body]
fn write_list(texts: &Vec<String>) -> (r: String)
    ensures
        r@ == quoted_list(views(texts@)),
{
    format!("{:?}", texts)
}

/// The word for a truth value.
pub open spec fn truth(b: bool) -> Seq<char> {
    if b {
        "true"@
    } else {
        "false"@
    }
}

fn truth_text(b: bool) -> (r: String)
    ensures
        r@ == truth(b),
{
    if b {
        "true".to_owned()
    } else {
        "false".to_owned()
    }
}

fn counted(before: &str, n: usize, after: &str) -> (r: String)
    ensures
        r@ == before@ + decimal(n as nat) + after@,
{
    let mut s = joined(before, decimal_text(n as u64).as_str());
    s.append(after);
    s
}

/// An event in words.
pub open spec fn event_text(e: ClipboardEvent) -> Seq<char> {
    match e {
        ClipboardEvent::RdpReady => "RdpReady"@,
        ClipboardEvent::RdpFormatList(formats) => "RdpFormatList("@ + decimal(formats@.len())
            + " formats)"@,
        ClipboardEvent::RdpDataRequest(id) => "RdpDataRequest("@ + decimal(id as nat) + ")"@,
        ClipboardEvent::RdpDataResponse(data) => "RdpDataResponse("@ + decimal(data@.len())
            + " bytes)"@,
        ClipboardEvent::RdpDataError => "RdpDataError"@,
        ClipboardEvent::RdpFileContentsRequest {
            stream_id,
            list_index,
            position,
            size,
            is_size_request,
        } => "RdpFileContentsRequest(stream="@ + decimal(stream_id as nat) + ", index="@ + decimal(
            list_index as nat,
        ) + ", size="@ + decimal(size as nat) + ", size_req="@ + truth(is_size_request) + ")"@,
        ClipboardEvent::RdpFileContentsResponse { stream_id, data, is_error } =>
            "RdpFileContentsResponse(stream="@ + decimal(stream_id as nat) + ", "@ + decimal(
            data@.len(),
        ) + " bytes, error="@ + truth(is_error) + ")"@,
        ClipboardEvent::PortalFormatsAvailable(mimes, force) => "PortalFormatsAvailable("@
            + quoted_list(views(mimes@)) + ", force="@ + truth(force) + ")"@,
        ClipboardEvent::PortalDataRequest(mime) => "PortalDataRequest("@ + mime@ + ")"@,
        ClipboardEvent::PortalDataResponse(data) => "PortalDataResponse("@ + decimal(data@.len())
            + " bytes)"@,
    }
}

impl ClipboardEvent {
    /// The event in words.
    pub fn summary(&self) -> (r: String)
        ensures
            r@ == event_text(*self),
    {
        match self {
            ClipboardEvent::RdpReady => "RdpReady".to_owned(),
            ClipboardEvent::RdpFormatList(formats) => counted(
                "RdpFormatList(",
                formats.len(),
                " formats)",
            ),
            ClipboardEvent::RdpDataRequest(id) => {
                let mut s = joined("RdpDataRequest(", decimal_text(*id as u64).as_str());
                s.append(")");
                s
            },
            ClipboardEvent::RdpDataResponse(data) => counted(
                "RdpDataResponse(",
                data.len(),
                " bytes)",
            ),
            ClipboardEvent::RdpDataError => "RdpDataError".to_owned(),
            ClipboardEvent::RdpFileContentsRequest {
                stream_id,
                list_index,
                position: _,
                size,
                is_size_request,
            } => {
                let mut s = joined(
                    "RdpFileContentsRequest(stream=",
                    decimal_text(*stream_id as u64).as_str(),
                );
                s.append(", index=");
                s.append(decimal_text(*list_index as u64).as_str());
                s.append(", size=");
                s.append(decimal_text(*size as u64).as_str());
                s.append(", size_req=");
                s.append(truth_text(*is_size_request).as_str());
                s.append(")");
                s
            },
            ClipboardEvent::RdpFileContentsResponse { stream_id, data, is_error } => {
                let mut s = joined(
                    "RdpFileContentsResponse(stream=",
                    decimal_text(*stream_id as u64).as_str(),
                );
                s.append(", ");
                s.append(decimal_text(data.len() as u64).as_str());
                s.append(" bytes, error=");
                s.append(truth_text(*is_error).as_str());
                s.append(")");
                s
            },
            ClipboardEvent::PortalFormatsAvailable(mimes, force) => {
                let mut s = joined("PortalFormatsAvailable(", write_list(mimes).as_str());
                s.append(", force=");
                s.append(truth_text(*force).as_str());
                s.append(")");
                s
            },
            ClipboardEvent::PortalDataRequest(mime) => {
                let mut s = joined("PortalDataRequest(", mime.as_str());
                s.append(")");
                s
            },
            ClipboardEvent::PortalDataResponse(data) => counted(
                "PortalDataResponse(",
                data.len(),
                " bytes)",
            ),
        }
    }
}

/// What is logged of received data tells its size and nothing else of it.
pub proof fn data_stays_out_of_the_log(a: Vec<u8>, b: Vec<u8>, stream_id: u32, is_error: bool)
    requires
        a@.len() == b@.len(),
    ensures
        event_text(ClipboardEvent::RdpDataResponse(a)) == event_text(
            ClipboardEvent::RdpDataResponse(b),
        ),
        event_text(ClipboardEvent::PortalDataResponse(a)) == event_text(
            ClipboardEvent::PortalDataResponse(b),
        ),
        event_text(ClipboardEvent::RdpFileContentsResponse { stream_id, data: a, is_error })
            == event_text(ClipboardEvent::RdpFileContentsResponse { stream_id, data: b, is_error }),
{
}

} // verus!
