//! Clipboard formats of the remote client and the MIME types they stand for.

use vstd::prelude::*;
use crate::text::same_text;

verus! {

/// A clipboard format: its number and, for registered formats, its name.
pub struct ClipboardFormat {
    /// Windows clipboard format number.
    pub id: u32,
    /// Name of a registered format.
    pub name: Option<String>,
}

/// What a clipboard format holds.
#[verifier::ext_equal]
pub struct FormatView {
    pub id: u32,
    pub name: Option<Seq<char>>,
}

/// The text in an optional string.
pub open spec fn opt_view(s: Option<String>) -> Option<Seq<char>> {
    match s {
        Some(t) => Some(t@),
        None => None,
    }
}

impl View for ClipboardFormat {
    type V = FormatView;

    open spec fn view(&self) -> FormatView {
        FormatView { id: self.id, name: opt_view(self.name) }
    }
}

/// What a list of formats holds.
pub open spec fn format_views(v: Seq<ClipboardFormat>) -> Seq<FormatView> {
    v.map_values(|f: ClipboardFormat| f@)
}

impl ClipboardFormat {
    /// A format without a name.
    pub fn new(id: u32) -> (r: Self)
        ensures
            r@ == (FormatView { id, name: None }),
    {
        ClipboardFormat { id, name: None }
    }

    /// A format with a name.
    pub fn with_name(id: u32, name: String) -> (r: Self)
        ensures
            r@ == (FormatView { id, name: Some(name@) }),
    {
        ClipboardFormat { id, name: Some(name) }
    }

    /// A copy of this format.
    pub fn duplicate(&self) -> (r: Self)
        ensures
            r@ == self@,
    {
        let name = match &self.name {
            Some(n) => Some(n.clone()),
            None => None,
        };
        ClipboardFormat { id: self.id, name }
    }
}

/// A copy of a list of formats.
pub fn copy_formats(v: &[ClipboardFormat]) -> (r: Vec<ClipboardFormat>)
    ensures
        format_views(r@) == format_views(v@),
{
    let mut r: Vec<ClipboardFormat> = Vec::new();
    let mut i: usize = 0;
    while i < v.len()
        invariant
            i <= v.len(),
            format_views(r@) == format_views(v@).take(i as int),
        decreases v.len() - i,
    {
        let ghost before = format_views(r@);
        r.push(v[i].duplicate());
        i += 1;
        assert(format_views(r@) =~= before.push(v@[i - 1]@));
        assert(format_views(r@) =~= format_views(v@).take(i as int));
    }
    assert(format_views(r@) =~= format_views(v@));
    r
}

/// The MIME type that a standard format number stands for.
pub open spec fn format_mime(id: u32) -> Option<Seq<char>> {
    if id == 13 || id == 1 || id == 7 {
        Some("text/plain;charset=utf-8"@)
    } else if id == 0xd010 {
        Some("text/html"@)
    } else if id == 0xd014 {
        Some("text/rtf"@)
    } else if id == 8 || id == 17 || id == 0xd011 {
        Some("image/png"@)
    } else if id == 0xd012 {
        Some("image/jpeg"@)
    } else if id == 0xd013 {
        Some("image/gif"@)
    } else if id == 15 || id == 49430 {
        Some("text/uri-list"@)
    } else if id == 12 || id == 11 {
        Some("audio/wav"@)
    } else {
        None
    }
}

/// `rdp_format_to_mime`: the MIME type of the standard format numbers, nothing
/// for any other number.
pub assume_specification[ lamco_clipboard_core::formats::rdp_format_to_mime ](
    format_id: u32,
) -> (r: Option<&'static str>)
    ensures
        match r {
            Some(m) => format_mime(format_id) == Some(m@),
            None => format_mime(format_id) is None,
        },
;

/// Some format of the list has the number `id`.
pub open spec fn offers(formats: Seq<FormatView>, id: u32) -> bool {
    exists|i: int| 0 <= i < formats.len() && formats[i].id == id
}

/// Whether some format of the list has the number `id`.
pub fn has_format(formats: &[ClipboardFormat], id: u32) -> (r: bool)
    ensures
        r == offers(format_views(formats@), id),
{
    let mut i: usize = 0;
    while i < formats.len()
        invariant
            i <= formats.len(),
            forall|k: int| 0 <= k < i ==> format_views(formats@)[k].id != id,
        decreases formats.len() - i,
    {
        assert(format_views(formats@)[i as int].id == formats@[i as int].id);
        if formats[i].id == id {
            return true;
        }
        i += 1;
    }
    false
}

/// A format gives data of the type `mime`: by its number, or by its name, which
/// stands for `name_mime`. A file list serves both of its MIME types.
pub open spec fn serves(f: FormatView, name_mime: Option<Seq<char>>, mime: Seq<char>) -> bool {
    ||| format_mime(f.id) == Some(mime)
    ||| f.name is Some && name_mime == Some(mime)
    ||| f.name is Some && name_mime == Some("text/uri-list"@) && mime
        == "x-special/gnome-copied-files"@
}

/// The number of the first format from `from` on that serves `mime`.
pub open spec fn first_serving(
    formats: Seq<FormatView>,
    name_mimes: Seq<Option<Seq<char>>>,
    mime: Seq<char>,
    from: int,
) -> Option<u32>
    decreases formats.len() - from,
{
    if from < 0 || from >= formats.len() {
        None
    } else if serves(formats[from], name_mimes[from], mime) {
        Some(formats[from].id)
    } else {
        first_serving(formats, name_mimes, mime, from + 1)
    }
}

/// The number of the format to ask the remote client for when `mime` is wanted.
/// Plain text is asked for as UTF-16 where that is offered, else as `CF_TEXT`.
pub open spec fn format_for(
    formats: Seq<FormatView>,
    name_mimes: Seq<Option<Seq<char>>>,
    mime: Seq<char>,
) -> Option<u32> {
    let plain = mime == "text/plain;charset=utf-8"@ || mime == "text/plain"@;
    if plain && offers(formats, 13) {
        Some(13)
    } else if plain && offers(formats, 1) {
        Some(1)
    } else {
        first_serving(formats, name_mimes, mime, 0)
    }
}

/// What a list of optional strings holds.
pub open spec fn opt_views(v: Seq<Option<String>>) -> Seq<Option<Seq<char>>> {
    v.map_values(|s: Option<String>| opt_view(s))
}

fn does_serve(f: &ClipboardFormat, name_mime: &Option<String>, mime: &str) -> (r: bool)
    ensures
        r == serves(f@, opt_view(*name_mime), mime@),
{
    if let Some(m) = lamco_clipboard_core::formats::rdp_format_to_mime(f.id) {
        if same_text(m, mime) {
            return true;
        }
    }
    if f.name.is_some() {
        if let Some(m) = name_mime {
            if same_text(m.as_str(), mime) {
                return true;
            }
            return same_text(m.as_str(), "text/uri-list") && same_text(
                mime,
                "x-special/gnome-copied-files",
            );
        }
    }
    false
}

/// Looks up the number of the format that gives data of the type `mime_type`.
///
/// Numbers of registered formats vary from session to session, so they are taken
/// from the list that the remote client sent. `name_mimes` holds the MIME type
/// that the name of each format stands for.
pub fn lookup_format_id_for_mime(
    formats: &[ClipboardFormat],
    name_mimes: &[Option<String>],
    mime_type: &str,
) -> (r: Option<u32>)
    requires
        name_mimes@.len() == formats@.len(),
    ensures
        r == format_for(format_views(formats@), opt_views(name_mimes@), mime_type@),
{
    if same_text(mime_type, "text/plain;charset=utf-8") || same_text(mime_type, "text/plain") {
        if has_format(formats, 13) {
            return Some(13);
        }
        if has_format(formats, 1) {
            return Some(1);
        }
    }
    let ghost fv = format_views(formats@);
    let ghost nv = opt_views(name_mimes@);
    let mut i: usize = 0;
    while i < formats.len()
        invariant
            i <= formats.len(),
            name_mimes@.len() == formats@.len(),
            fv == format_views(formats@),
            nv == opt_views(name_mimes@),
            format_for(fv, nv, mime_type@) == first_serving(fv, nv, mime_type@, 0),
            first_serving(fv, nv, mime_type@, 0) == first_serving(fv, nv, mime_type@, i as int),
        decreases formats.len() - i,
    {
        assert(fv[i as int] == formats@[i as int]@);
        assert(nv[i as int] == opt_view(name_mimes@[i as int]));
        if does_serve(&formats[i], &name_mimes[i], mime_type) {
            return Some(formats[i].id);
        }
        i += 1;
    }
    None
}

/// A format that is asked for is one that the remote client offers.
pub proof fn requested_format_is_offered(
    formats: Seq<FormatView>,
    name_mimes: Seq<Option<Seq<char>>>,
    mime: Seq<char>,
)
    ensures
        format_for(formats, name_mimes, mime) matches Some(id) ==> offers(formats, id),
{
    lemma_first_serving_offered(formats, name_mimes, mime, 0);
}

proof fn lemma_first_serving_offered(
    formats: Seq<FormatView>,
    name_mimes: Seq<Option<Seq<char>>>,
    mime: Seq<char>,
    from: int,
)
    ensures
        first_serving(formats, name_mimes, mime, from) matches Some(id) ==> offers(formats, id),
    decreases formats.len() - from,
{
    if 0 <= from < formats.len() {
        lemma_first_serving_offered(formats, name_mimes, mime, from + 1);
    }
}

proof fn lemma_first_serving(
    formats: Seq<FormatView>,
    name_mimes: Seq<Option<Seq<char>>>,
    mime: Seq<char>,
    from: int,
    i: int,
)
    requires
        0 <= from <= i < formats.len(),
        serves(formats[i], name_mimes[i], mime),
        forall|k: int|
            from <= k < i ==> !#[trigger] serves(formats[k], name_mimes[k], mime),
    ensures
        first_serving(formats, name_mimes, mime, from) == Some(formats[i].id),
    decreases i - from,
{
    if from < i {
        assert(!serves(formats[from], name_mimes[from], mime));
        lemma_first_serving(formats, name_mimes, mime, from + 1, i);
    }
}

proof fn lemma_first_of(
    formats: Seq<FormatView>,
    name_mimes: Seq<Option<Seq<char>>>,
    mime: Seq<char>,
    i: int,
) -> (first: int)
    requires
        0 <= i < formats.len(),
        serves(formats[i], name_mimes[i], mime),
    ensures
        0 <= first <= i,
        serves(formats[first], name_mimes[first], mime),
        forall|k: int|
            0 <= k < first ==> !#[trigger] serves(formats[k], name_mimes[k], mime),
    decreases i,
{
    if exists|k: int| 0 <= k < i && #[trigger] serves(formats[k], name_mimes[k], mime) {
        let k = choose|k: int| 0 <= k < i && #[trigger] serves(formats[k], name_mimes[k], mime);
        lemma_first_of(formats, name_mimes, mime, k)
    } else {
        i
    }
}

/// What the remote client announces is found: a format whose name stands for the
/// wanted MIME type, one whose number does, and for a list of copied files also one
/// whose name stands for a list of URIs.
pub proof fn announced_data_is_found(
    formats: Seq<FormatView>,
    name_mimes: Seq<Option<Seq<char>>>,
    mime: Seq<char>,
    i: int,
)
    requires
        0 <= i < formats.len(),
        ({
            ||| formats[i].name is Some && name_mimes[i] == Some(mime)
            ||| format_mime(formats[i].id) == Some(mime)
            ||| formats[i].name is Some && name_mimes[i] == Some("text/uri-list"@) && mime
                == "x-special/gnome-copied-files"@
        }),
    ensures
        format_for(formats, name_mimes, mime) is Some,
{
    let first = lemma_first_of(formats, name_mimes, mime, i);
    lemma_first_serving(formats, name_mimes, mime, 0, first);
}

/// Of the formats that give what is wanted, the one that was announced first is asked
/// for, under the number of this announcement. Plain text alone has an order of its
/// own.
pub proof fn first_announcement_is_asked_for(
    formats: Seq<FormatView>,
    name_mimes: Seq<Option<Seq<char>>>,
    mime: Seq<char>,
    i: int,
)
    requires
        mime != "text/plain"@,
        mime != "text/plain;charset=utf-8"@,
        0 <= i < formats.len(),
        ({
            ||| formats[i].name is Some && name_mimes[i] == Some(mime)
            ||| format_mime(formats[i].id) == Some(mime)
            ||| formats[i].name is Some && name_mimes[i] == Some("text/uri-list"@) && mime
                == "x-special/gnome-copied-files"@
        }),
        forall|k: int|
            0 <= k < i ==> format_mime((#[trigger] formats[k]).id) != Some(mime) && (
            formats[k].name is Some ==> name_mimes[k] != Some(mime) && !(name_mimes[k] == Some(
                "text/uri-list"@,
            ) && mime == "x-special/gnome-copied-files"@)),
    ensures
        format_for(formats, name_mimes, mime) == Some(formats[i].id),
{
    assert forall|k: int| 0 <= k < i implies !#[trigger] serves(formats[k], name_mimes[k], mime) by {
        assert(format_mime(formats[k].id) != Some(mime));
    }
    lemma_first_serving(formats, name_mimes, mime, 0, i);
}

/// Nothing is asked for by its number where no format gives what is wanted.
pub proof fn nothing_is_made_up(
    formats: Seq<FormatView>,
    name_mimes: Seq<Option<Seq<char>>>,
    mime: Seq<char>,
)
    requires
        forall|k: int|
            0 <= k < formats.len() ==> format_mime((#[trigger] formats[k]).id) != Some(mime) && (
            formats[k].name is Some ==> name_mimes[k] != Some(mime) && !(name_mimes[k] == Some(
                "text/uri-list"@,
            ) && mime == "x-special/gnome-copied-files"@)),
        forall|k: int|
            0 <= k < formats.len() && (mime == "text/plain"@ || mime
                == "text/plain;charset=utf-8"@) ==> (#[trigger] formats[k]).id != 13
                && formats[k].id != 1,
    ensures
        format_for(formats, name_mimes, mime) is None,
{
    lemma_none_serves(formats, name_mimes, mime, 0);
}

proof fn lemma_none_serves(
    formats: Seq<FormatView>,
    name_mimes: Seq<Option<Seq<char>>>,
    mime: Seq<char>,
    from: int,
)
    requires
        0 <= from,
        forall|k: int|
            0 <= k < formats.len() ==> format_mime((#[trigger] formats[k]).id) != Some(mime) && (
            formats[k].name is Some ==> name_mimes[k] != Some(mime) && !(name_mimes[k] == Some(
                "text/uri-list"@,
            ) && mime == "x-special/gnome-copied-files"@)),
    ensures
        first_serving(formats, name_mimes, mime, from) is None,
    decreases formats.len() - from,
{
    if from < formats.len() {
        assert(format_mime(formats[from].id) != Some(mime));
        lemma_none_serves(formats, name_mimes, mime, from + 1);
    }
}

/// Plain text is asked for as UTF-16 wherever that is announced, whatever comes before
/// it, and else as text in one byte per character where that is.
pub proof fn plain_text_is_wanted_as_unicode(
    formats: Seq<FormatView>,
    name_mimes: Seq<Option<Seq<char>>>,
    mime: Seq<char>,
    i: int,
)
    requires
        mime == "text/plain"@ || mime == "text/plain;charset=utf-8"@,
        0 <= i < formats.len(),
    ensures
        formats[i].id == 13 ==> format_for(formats, name_mimes, mime) == Some(13u32),
        formats[i].id == 1 && (forall|k: int|
            0 <= k < formats.len() ==> (#[trigger] formats[k]).id != 13) ==> format_for(
            formats,
            name_mimes,
            mime,
        ) == Some(1u32),
{
}

} // verus!
