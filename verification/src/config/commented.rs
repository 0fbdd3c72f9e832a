//! Comments in a configuration file: what each section and setting is for, in the
//! lines above it.

use vstd::prelude::*;
use crate::text::{
    chars_of, first_occurrence, join, join_texts, joined, lemma_first_occurrence, lemma_split_join,
    lemma_split_pieces, occurs_at, occurs_in, position_in, same_text, split_on, split_text, text_of,
    views,
};

verus! {

/// What a section, or a setting in it, is for.
pub struct Note {
    pub section: String,
    /// The setting; empty for the section itself.
    pub key: String,
    pub text: String,
}

/// The texts of a note.
pub struct NoteView {
    pub section: Seq<char>,
    pub key: Seq<char>,
    pub text: Seq<char>,
}

impl View for Note {
    type V = NoteView;

    open spec fn view(&self) -> NoteView {
        NoteView { section: self.section@, key: self.key@, text: self.text@ }
    }
}

/// The texts of notes.
pub open spec fn note_views(notes: Seq<Note>) -> Seq<NoteView> {
    notes.map_values(|n: Note| n@)
}

/// The section that a line begins, if it begins one.
pub open spec fn header_of(line: Seq<char>) -> Option<Seq<char>> {
    if line.len() >= 2 && line[0] == '[' && line.last() == ']' {
        Some(line.subrange(1, line.len() - 1))
    } else {
        None
    }
}

/// The setting that a line gives a value, if it gives one.
pub open spec fn key_of(line: Seq<char>) -> Option<Seq<char>> {
    if occurs_in(line, " = "@) {
        Some(line.take(first_occurrence(line, " = "@)))
    } else {
        None
    }
}

/// The section that the first `n` lines end in; empty before the first section.
pub open spec fn section_after(lines: Seq<Seq<char>>, n: int) -> Seq<char>
    decreases n,
{
    if n <= 0 {
        Seq::empty()
    } else {
        match header_of(lines[n - 1]) {
            Some(section) => section,
            None => section_after(lines, n - 1),
        }
    }
}

/// What the first of `notes` on a section's setting says.
pub open spec fn noted(notes: Seq<NoteView>, section: Seq<char>, key: Seq<char>) -> Option<
    Seq<char>,
>
    decreases notes.len(),
{
    if notes.len() == 0 {
        None
    } else if notes[0].section == section && notes[0].key == key {
        Some(notes[0].text)
    } else {
        noted(notes.drop_first(), section, key)
    }
}

/// A text as comment lines.
pub open spec fn as_comment(text: Seq<char>) -> Seq<Seq<char>> {
    split_on(text, "\n"@).map_values(|line: Seq<char>| "# "@ + line)
}

/// The comment above line `i`.
pub open spec fn comment_above(lines: Seq<Seq<char>>, i: int, notes: Seq<NoteView>) -> Seq<
    Seq<char>,
> {
    let key = match header_of(lines[i]) {
        Some(_) => Some(Seq::empty()),
        None => key_of(lines[i]),
    };
    match key {
        Some(key) => match noted(notes, section_after(lines, i + 1), key) {
            Some(text) => as_comment(text),
            None => Seq::empty(),
        },
        None => Seq::empty(),
    }
}

/// The first `n` lines, each below its comment.
pub open spec fn commented(lines: Seq<Seq<char>>, n: int, notes: Seq<NoteView>) -> Seq<Seq<char>>
    decreases n,
{
    if n <= 0 {
        Seq::empty()
    } else {
        commented(lines, n - 1, notes) + comment_above(lines, n - 1, notes) + seq![lines[n - 1]]
    }
}

fn header(line: &str) -> (r: Option<String>)
    ensures
        match r {
            Some(section) => header_of(line@) == Some(section@),
            None => header_of(line@) is None,
        },
{
    let c = chars_of(line);
    if c.len() >= 2 && c[0] == '[' && c[c.len() - 1] == ']' {
        let section = text_of(&c[1..c.len() - 1]);
        assert(section@ =~= line@.subrange(1, line@.len() - 1));
        Some(section)
    } else {
        None
    }
}

fn key(line: &str) -> (r: Option<String>)
    ensures
        match r {
            Some(key) => key_of(line@) == Some(key@),
            None => key_of(line@) is None,
        },
{
    let c = chars_of(line);
    match position_in(line, " = ") {
        Some(at) => {
            assert(occurs_at(line@, " = "@, at as int));
            let key = text_of(&c[0..at]);
            assert(key@ =~= line@.take(at as int));
            Some(key)
        },
        None => None,
    }
}

fn note_on(notes: &[Note], section: &str, key: &str) -> (r: Option<Vec<String>>)
    ensures
        match r {
            Some(lines) => noted(note_views(notes@), section@, key@) matches Some(text)
                && views(lines@) == as_comment(text),
            None => noted(note_views(notes@), section@, key@) is None,
        },
{
    let ghost all = note_views(notes@);
    let mut i: usize = 0;
    assert(all.skip(0) =~= all);
    while i < notes.len()
        invariant
            i <= notes.len(),
            all == note_views(notes@),
            noted(all, section@, key@) == noted(all.skip(i as int), section@, key@),
        decreases notes.len() - i,
    {
        assert(all.skip(i as int)[0] == notes@[i as int]@);
        assert(all.skip(i as int).drop_first() =~= all.skip(i + 1));
        if same_text(notes[i].section.as_str(), section) && same_text(notes[i].key.as_str(), key) {
            return Some(comment_lines(notes[i].text.as_str()));
        }
        i += 1;
    }
    None
}

fn comment_lines(text: &str) -> (r: Vec<String>)
    ensures
        views(r@) == as_comment(text@),
{
    proof {
        reveal_strlit("\n");
    }
    let pieces = split_text(text, "\n");
    let mut r: Vec<String> = Vec::new();
    let mut i: usize = 0;
    while i < pieces.len()
        invariant
            i <= pieces.len(),
            views(pieces@) == split_on(text@, "\n"@),
            r.len() == i,
            forall|k: int| 0 <= k < i ==> #[trigger] r@[k]@ == "# "@ + pieces@[k]@,
        decreases pieces.len() - i,
    {
        r.push(joined("# ", pieces[i].as_str()));
        i += 1;
    }
    assert forall|k: int| 0 <= k < r.len() implies views(r@)[k] == as_comment(text@)[k] by {
        assert(r@[k]@ == "# "@ + views(pieces@)[k]);
    }
    assert(views(r@) =~= as_comment(text@));
    r
}

/// A configuration file with comments: above each section and setting that a note is
/// on, what the note says.
pub fn with_comments(text: &str, notes: &[Note]) -> (r: String)
    ensures
        r@ == join(
            commented(
                split_on(text@, "\n"@),
                split_on(text@, "\n"@).len() as int,
                note_views(notes@),
            ),
            "\n"@,
        ),
{
    proof {
        reveal_strlit("\n");
    }
    let lines = split_text(text, "\n");
    let ghost all = split_on(text@, "\n"@);
    let ghost n = note_views(notes@);
    let mut section = String::new();
    let mut out: Vec<String> = Vec::new();
    let mut i: usize = 0;
    assert(views(out@) =~= Seq::<Seq<char>>::empty());
    assert(section@ =~= Seq::<char>::empty());
    while i < lines.len()
        invariant
            i <= lines.len(),
            all == views(lines@),
            n == note_views(notes@),
            section@ == section_after(all, i as int),
            views(out@) == commented(all, i as int, n),
        decreases lines.len() - i,
    {
        let line = lines[i].as_str();
        assert(line@ == all[i as int]);
        let ghost before = views(out@);
        let found = match header(line) {
            Some(name) => {
                section = name;
                let empty = String::new();
                assert(empty@ =~= Seq::<char>::empty());
                note_on(notes, section.as_str(), empty.as_str())
            },
            None => match key(line) {
                Some(key) => note_on(notes, section.as_str(), key.as_str()),
                None => None,
            },
        };
        match found {
            Some(mut comment) => {
                let ghost c = views(comment@);
                assert(c == comment_above(all, i as int, n));
                let ghost o = out@;
                let ghost m = comment@;
                out.append(&mut comment);
                assert(out@ == o + m);
                assert(views(out@) =~= before + c);
            },
            None => {
                assert(comment_above(all, i as int, n) =~= Seq::<Seq<char>>::empty());
                assert(views(out@) =~= before + comment_above(all, i as int, n));
            },
        }
        out.push(lines[i].clone());
        assert(views(out@) =~= before + comment_above(all, i as int, n) + seq![all[i as int]]);
        i += 1;
    }
    join_texts(&out, "\n")
}

/// Whether a line is a comment.
pub open spec fn is_comment(line: Seq<char>) -> bool {
    line.len() > 0 && line[0] == '#'
}

/// Comments change nothing else: without the comment lines, the file has the lines
/// that it had before. That is where it had no comments.
pub proof fn comments_keep_the_settings(text: Seq<char>, notes: Seq<NoteView>)
    requires
        forall|i: int|
            0 <= i < split_on(text, "\n"@).len() ==> !is_comment(
                #[trigger] split_on(text, "\n"@)[i],
            ),
    ensures
        ({
            let lines = split_on(text, "\n"@);
            let file = join(commented(lines, lines.len() as int, notes), "\n"@);
            split_on(file, "\n"@).filter(|line: Seq<char>| !is_comment(line)) == lines
        }),
{
    let lines = split_on(text, "\n"@);
    let n = lines.len() as int;
    reveal_strlit("\n");
    lemma_split_pieces(text, '\n');
    assert("\n"@ =~= seq!['\n']);
    lemma_commented(lines, n, notes);
    lemma_split_join(commented(lines, n, notes), '\n');
    assert(lines.take(n) =~= lines);
}

proof fn lemma_commented(lines: Seq<Seq<char>>, n: int, notes: Seq<NoteView>)
    requires
        0 <= n <= lines.len(),
        forall|i: int| 0 <= i < lines.len() ==> !(#[trigger] lines[i]).contains('\n'),
        forall|i: int| 0 <= i < lines.len() ==> !is_comment(#[trigger] lines[i]),
    ensures
        commented(lines, n, notes).len() >= n,
        forall|i: int|
            0 <= i < commented(lines, n, notes).len() ==> !(#[trigger] commented(
                lines,
                n,
                notes,
            )[i]).contains('\n'),
        commented(lines, n, notes).filter(|line: Seq<char>| !is_comment(line)) == lines.take(n),
    decreases n,
{
    let settings = |line: Seq<char>| !is_comment(line);
    if n == 0 {
        assert(lines.take(0) =~= Seq::<Seq<char>>::empty());
        reveal(Seq::filter);
    } else {
        lemma_commented(lines, n - 1, notes);
        let before = commented(lines, n - 1, notes);
        let above = comment_above(lines, n - 1, notes);
        let line = seq![lines[n - 1]];
        lemma_above(lines, n - 1, notes);
        lemma_none_kept(above, settings);
        Seq::filter_distributes_over_add(before, above, settings);
        Seq::filter_distributes_over_add(before + above, line, settings);
        assert(line.filter(settings) =~= line) by {
            reveal(Seq::filter);
            assert(line.drop_last() =~= Seq::<Seq<char>>::empty());
        }
        assert(lines.take(n) =~= lines.take(n - 1) + line);
        assert(before.filter(settings) + Seq::<Seq<char>>::empty() =~= before.filter(settings));
    }
}

proof fn lemma_above(lines: Seq<Seq<char>>, i: int, notes: Seq<NoteView>)
    ensures
        forall|k: int|
            0 <= k < comment_above(lines, i, notes).len() ==> is_comment(
                #[trigger] comment_above(lines, i, notes)[k],
            ) && !comment_above(lines, i, notes)[k].contains('\n'),
{
    reveal_strlit("# ");
    reveal_strlit("\n");
    assert("\n"@ =~= seq!['\n']);
    let above = comment_above(lines, i, notes);
    assert forall|k: int| 0 <= k < above.len() implies is_comment(#[trigger] above[k])
        && !above[k].contains('\n') by {
        let key = match header_of(lines[i]) {
            Some(_) => Some(Seq::empty()),
            None => key_of(lines[i]),
        };
        let text = noted(notes, section_after(lines, i + 1), key->0)->0;
        lemma_split_pieces(text, '\n');
        let piece = split_on(text, "\n"@)[k];
        assert(above[k] == "# "@ + piece);
        if above[k].contains('\n') {
            let j = choose|j: int| 0 <= j < above[k].len() && above[k][j] == '\n';
            assert(piece[j - 2] == '\n');
        }
    }
}

proof fn lemma_none_kept(s: Seq<Seq<char>>, keep: spec_fn(Seq<char>) -> bool)
    requires
        forall|k: int| 0 <= k < s.len() ==> !keep(#[trigger] s[k]),
    ensures
        s.filter(keep) == Seq::<Seq<char>>::empty(),
    decreases s.len(),
{
    reveal(Seq::filter);
    if s.len() > 0 {
        lemma_none_kept(s.drop_last(), keep);
    }
}

/// A line in square brackets begins the section between them, and a line with an equals
/// sign between blanks gives the setting before the first of these a value.
pub proof fn lines_name_their_settings(s: Seq<char>, key: Seq<char>, value: Seq<char>)
    requires
        !occurs_in(key + " ="@, " = "@),
    ensures
        header_of(seq!['['] + s + seq![']']) == Some(s),
        s.len() == 0 || s[0] != '[' || s.last() != ']' ==> header_of(s) is None,
        key_of(key + " = "@ + value) == Some(key),
        !occurs_in(s, " = "@) ==> key_of(s) is None,
{
    let h = seq!['['] + s + seq![']'];
    assert(h.subrange(1, h.len() - 1) =~= s);
    reveal_strlit(" = ");
    reveal_strlit(" =");
    let line = key + " = "@ + value;
    let at = key.len() as int;
    assert(line.subrange(at, at + 3) =~= " = "@);
    assert(occurs_at(line, " = "@, at));
    lemma_first_occurrence(line, " = "@);
    let f = first_occurrence(line, " = "@);
    assert(f >= 0 && f <= at);
    if f < at {
        assert(line.subrange(f, f + 3) =~= " = "@);
        assert((key + " ="@).subrange(f, f + 3) =~= line.subrange(f, f + 3));
        assert(occurs_at(key + " ="@, " = "@, f));
    }
    assert(line.take(at) =~= key);
}

/// A line belongs to the section that began last, at or above it.
pub proof fn lines_belong_to_the_section_above(lines: Seq<Seq<char>>, begin: int, n: int)
    requires
        0 <= begin < n <= lines.len(),
        header_of(lines[begin]) is Some,
        forall|k: int| begin < k < n ==> header_of(#[trigger] lines[k]) is None,
    ensures
        section_after(lines, n) == header_of(lines[begin])->0,
    decreases n,
{
    if begin < n - 1 {
        lines_belong_to_the_section_above(lines, begin, n - 1);
    }
}

/// The first of the notes on a setting stands above it, line by line behind a number sign
/// and a blank. A setting without a note has no comment.
pub proof fn notes_stand_above_their_settings(
    lines: Seq<Seq<char>>,
    i: int,
    notes: Seq<NoteView>,
    k: int,
)
    requires
        0 <= i < lines.len(),
    ensures
        header_of(lines[i]) is Some || key_of(lines[i]) is Some ==> ({
            let section = section_after(lines, i + 1);
            let key = match header_of(lines[i]) {
                Some(_) => Seq::empty(),
                None => key_of(lines[i])->0,
            };
            &&& 0 <= k < notes.len() && notes[k].section == section && notes[k].key == key && (
            forall|j: int|
                0 <= j < k ==> (#[trigger] notes[j]).section != section || notes[j].key != key)
                ==> comment_above(lines, i, notes) == as_comment(notes[k].text)
            &&& (forall|j: int|
                0 <= j < notes.len() ==> (#[trigger] notes[j]).section != section || notes[j].key
                    != key) ==> comment_above(lines, i, notes).len() == 0
        }),
        header_of(lines[i]) is None && key_of(lines[i]) is None ==> comment_above(
            lines,
            i,
            notes,
        ).len() == 0,
{
    let section = section_after(lines, i + 1);
    let key = match header_of(lines[i]) {
        Some(_) => Seq::empty(),
        None => key_of(lines[i])->0,
    };
    lemma_noted(notes, section, key, k);
}

proof fn lemma_noted(notes: Seq<NoteView>, section: Seq<char>, key: Seq<char>, k: int)
    ensures
        0 <= k < notes.len() && notes[k].section == section && notes[k].key == key && (forall|
            j: int,
        |
            0 <= j < k ==> (#[trigger] notes[j]).section != section || notes[j].key != key)
            ==> noted(notes, section, key) == Some(notes[k].text),
        (forall|j: int|
            0 <= j < notes.len() ==> (#[trigger] notes[j]).section != section || notes[j].key
                != key) ==> noted(notes, section, key) is None,
    decreases notes.len(),
{
    if notes.len() > 0 && !(notes[0].section == section && notes[0].key == key) {
        let rest = notes.drop_first();
        lemma_noted(rest, section, key, k - 1);
        assert forall|j: int| 0 <= j < rest.len() implies #[trigger] rest[j] == notes[j + 1] by {}
    }
}

/// A comment has the lines of its text, each behind a number sign and a blank.
pub proof fn comments_have_the_lines_of_their_text(parts: Seq<Seq<char>>)
    requires
        parts.len() > 0,
        forall|i: int| 0 <= i < parts.len() ==> !(#[trigger] parts[i]).contains('\n'),
    ensures
        as_comment(join(parts, seq!['\n'])).len() == parts.len(),
        forall|i: int|
            0 <= i < parts.len() ==> #[trigger] as_comment(join(parts, seq!['\n']))[i] == seq![
                '#',
                ' ',
            ] + parts[i],
{
    reveal_strlit("\n");
    reveal_strlit("# ");
    assert("\n"@ =~= seq!['\n']);
    assert("# "@ =~= seq!['#', ' ']);
    lemma_split_join(parts, '\n');
}

/// Above each line stands its own comment and nothing else: what comes before are the
/// lines before it with theirs.
pub proof fn comments_stand_above_their_lines(
    lines: Seq<Seq<char>>,
    i: int,
    n: int,
    notes: Seq<NoteView>,
)
    requires
        0 <= i < n <= lines.len(),
    ensures
        ({
            let before = commented(lines, i, notes);
            let all = commented(lines, n, notes);
            let at = before.len() + comment_above(lines, i, notes).len();
            &&& at < all.len()
            &&& all.take(before.len() as int) == before
            &&& all.subrange(before.len() as int, at as int) == comment_above(lines, i, notes)
            &&& all[at as int] == lines[i]
        }),
        commented(lines, 0, notes).len() == 0,
    decreases n,
{
    let before = commented(lines, i, notes);
    let above = comment_above(lines, i, notes);
    let all = commented(lines, n, notes);
    let at = (before.len() + above.len()) as int;
    if n == i + 1 {
        assert(all.take(before.len() as int) =~= before);
        assert(all.subrange(before.len() as int, at) =~= above);
    } else {
        comments_stand_above_their_lines(lines, i, n - 1, notes);
        let shorter = commented(lines, n - 1, notes);
        assert(all.take(before.len() as int) =~= shorter.take(before.len() as int));
        assert(all.subrange(before.len() as int, at) =~= shorter.subrange(before.len() as int, at));
        assert(all[at] == shorter[at]);
    }
}

} // verus!
