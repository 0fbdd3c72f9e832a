//! Text as a sequence of characters: comparison, searching, splitting and
//! number formatting.

use vstd::prelude::*;
use vstd::string::StringExecFns;

verus! {

/// `String::push`: the character is appended, the text before it is unchanged.
pub assume_specification[ String::push ](s: &mut String, c: char)
    ensures
        final(s)@ == old(s)@.push(c),
;

/// The characters of `s`, one per element.
pub fn chars_of(s: &str) -> (r: Vec<char>)
    ensures
        r@ == s@,
{
    let mut r: Vec<char> = Vec::new();
    for c in it: s.chars()
        invariant
            r@ == it.seq().take(it.index() as int),
            it.seq() == s@,
    {
        r.push(c);
        assert(r@ =~= it.seq().take(it.index() + 1));
    }
    assert(r@ =~= s@);
    r
}

/// The text made of `chars`.
pub fn text_of(chars: &[char]) -> (r: String)
    ensures
        r@ == chars@,
{
    let mut r = String::new();
    let mut i: usize = 0;
    while i < chars.len()
        invariant
            i <= chars.len(),
            r@ == chars@.take(i as int),
        decreases chars.len() - i,
    {
        r.push(chars[i]);
        i += 1;
        assert(r@ =~= chars@.take(i as int));
    }
    assert(r@ =~= chars@);
    r
}

/// Whether two texts hold the same characters.
pub fn same_text(a: &str, b: &str) -> (r: bool)
    ensures
        r == (a@ == b@),
{
    a.to_owned() == b.to_owned()
}

/// `a` followed by `b`.
pub fn joined(a: &str, b: &str) -> (r: String)
    ensures
        r@ == a@ + b@,
{
    let mut r = a.to_owned();
    r.append(b);
    r
}

/// Whether `s` begins with `prefix`.
pub fn starts_with(s: &str, prefix: &str) -> (r: bool)
    ensures
        r == prefix@.is_prefix_of(s@),
{
    let a = chars_of(s);
    let p = chars_of(prefix);
    matches_at(&a, &p, 0)
}

/// `part` occurs in `s` at position `at`.
pub open spec fn occurs_at(s: Seq<char>, part: Seq<char>, at: int) -> bool {
    0 <= at && at + part.len() <= s.len() && s.subrange(at, at + part.len()) == part
}

/// `part` occurs somewhere in `s`.
pub open spec fn occurs_in(s: Seq<char>, part: Seq<char>) -> bool {
    exists|at: int| occurs_at(s, part, at)
}

/// Whether `part` stands in `s` at position `at`.
pub fn matches_at(s: &[char], part: &[char], at: usize) -> (r: bool)
    ensures
        r == occurs_at(s@, part@, at as int),
        at == 0 ==> r == part@.is_prefix_of(s@),
{
    if at > s.len() || part.len() > s.len() - at {
        return false;
    }
    let mut i: usize = 0;
    while i < part.len()
        invariant
            i <= part.len(),
            at + part.len() <= s.len(),
            forall|k: int| 0 <= k < i ==> s@[at + k] == part@[k],
        decreases part.len() - i,
    {
        if s[at + i] != part[i] {
            assert(s@.subrange(at as int, at + part.len())[i as int] != part@[i as int]);
            return false;
        }
        i += 1;
    }
    assert(s@.subrange(at as int, at + part.len()) =~= part@);
    true
}

/// Whether `part` occurs in `s`.
pub fn contains(s: &str, part: &str) -> (r: bool)
    ensures
        r == occurs_in(s@, part@),
{
    let a = chars_of(s);
    let p = chars_of(part);
    let mut at: usize = 0;
    while at <= a.len()
        invariant
            at <= a.len() + 1,
            a@ == s@,
            p@ == part@,
            forall|k: int| 0 <= k < at ==> !occurs_at(s@, part@, k),
        decreases a.len() + 1 - at,
    {
        if matches_at(&a, &p, at) {
            return true;
        }
        if at == a.len() {
            return false;
        }
        at += 1;
    }
    false
}

/// The texts that a list of strings holds.
pub open spec fn views(v: Seq<String>) -> Seq<Seq<char>> {
    v.map_values(|s: String| s@)
}

/// The decimal digit `d`.
pub open spec fn digit(d: int) -> char {
    (48 + d) as char
}

/// `n` written in decimal, without leading zeros.
pub open spec fn decimal(n: nat) -> Seq<char>
    decreases n,
{
    if n < 10 {
        seq![digit(n as int)]
    } else {
        decimal(n / 10).push(digit((n % 10) as int))
    }
}

/// `n` written in decimal.
pub fn decimal_text(n: u64) -> (r: String)
    ensures
        r@ == decimal(n as nat),
    decreases n,
{
    let d: u8 = (n % 10) as u8;
    let c: char = (48 + d) as char;
    let mut s = if n < 10 {
        String::new()
    } else {
        decimal_text(n / 10)
    };
    s.push(c);
    proof {
        if n < 10 {
            assert(s@ =~= seq![digit(n as int)]);
        }
    }
    s
}

/// Position of the first occurrence of `part` in `s`, or -1.
pub open spec fn first_occurrence(s: Seq<char>, part: Seq<char>) -> int
    decreases s.len(),
{
    if occurs_at(s, part, 0) {
        0
    } else if s.len() == 0 {
        -1
    } else {
        let r = first_occurrence(s.drop_first(), part);
        if r < 0 {
            -1
        } else {
            r + 1
        }
    }
}

/// The pieces of `s` between the occurrences of `sep`, taken from the left.
pub open spec fn split_on(s: Seq<char>, sep: Seq<char>) -> Seq<Seq<char>>
    decreases s.len(),
{
    let i = first_occurrence(s, sep);
    if i < 0 || sep.len() == 0 || i + sep.len() > s.len() {
        seq![s]
    } else {
        seq![s.take(i)] + split_on(s.skip(i + sep.len()), sep)
    }
}

proof fn lemma_occurs_shift(s: Seq<char>, part: Seq<char>, at: int)
    requires
        s.len() > 0,
    ensures
        at >= 0 ==> occurs_at(s.drop_first(), part, at) == occurs_at(s, part, at + 1),
{
    if at >= 0 && at + 1 + part.len() <= s.len() {
        assert(s.drop_first().subrange(at, at + part.len()) =~= s.subrange(
            at + 1,
            at + 1 + part.len(),
        ));
    }
}

/// The first occurrence is where the text stands, and it stands nowhere before.
pub proof fn lemma_first_occurrence(s: Seq<char>, part: Seq<char>)
    ensures
        first_occurrence(s, part) < 0 ==> !occurs_in(s, part),
        first_occurrence(s, part) >= 0 ==> occurs_at(s, part, first_occurrence(s, part)),
        forall|k: int|
            0 <= k < first_occurrence(s, part) ==> !#[trigger] occurs_at(s, part, k),
    decreases s.len(),
{
    if !occurs_at(s, part, 0) && s.len() > 0 {
        let t = s.drop_first();
        lemma_first_occurrence(t, part);
        let r = first_occurrence(t, part);
        if r >= 0 {
            lemma_occurs_shift(s, part, r);
        }
        assert forall|k: int| occurs_at(s, part, k) implies k > 0 && occurs_at(t, part, k - 1) by {
            lemma_occurs_shift(s, part, k - 1);
        }
        if r < 0 {
            assert forall|k: int| !occurs_at(s, part, k) by {
                if occurs_at(s, part, k) {
                    assert(occurs_at(t, part, k - 1));
                }
            }
        }
        assert forall|k: int| 0 <= k < first_occurrence(s, part) implies !#[trigger] occurs_at(
            s,
            part,
            k,
        ) by {
            if occurs_at(s, part, k) {
                assert(occurs_at(t, part, k - 1));
            }
        }
    } else if !occurs_at(s, part, 0) {
        assert forall|k: int| !occurs_at(s, part, k) by {
            if occurs_at(s, part, k) {
                assert(k == 0);
            }
        }
    }
}

proof fn lemma_first_occurrence_is(s: Seq<char>, part: Seq<char>, at: int)
    requires
        occurs_at(s, part, at),
        forall|k: int| 0 <= k < at ==> !#[trigger] occurs_at(s, part, k),
    ensures
        first_occurrence(s, part) == at,
{
    lemma_first_occurrence(s, part);
}

/// Where `part` first occurs in `s`.
pub fn position_in(s: &str, part: &str) -> (r: Option<usize>)
    ensures
        match r {
            Some(at) => at == first_occurrence(s@, part@) && occurs_at(s@, part@, at as int),
            None => !occurs_in(s@, part@),
        },
{
    let a = chars_of(s);
    let p = chars_of(part);
    let mut at: usize = 0;
    while at < a.len()
        invariant
            at <= a.len(),
            a@ == s@,
            p@ == part@,
            forall|k: int| 0 <= k < at ==> !#[trigger] occurs_at(s@, part@, k),
        decreases a.len() - at,
    {
        if matches_at(&a, &p, at) {
            proof {
                lemma_first_occurrence_is(s@, part@, at as int);
            }
            return Some(at);
        }
        at += 1;
    }
    if matches_at(&a, &p, at) {
        proof {
            lemma_first_occurrence_is(s@, part@, at as int);
        }
        return Some(at);
    }
    None
}

/// The pieces of `s` between the occurrences of `sep`.
pub fn split_text(s: &str, sep: &str) -> (r: Vec<String>)
    requires
        sep@.len() > 0,
    ensures
        views(r@) == split_on(s@, sep@),
        r@.len() > 0,
{
    let a = chars_of(s);
    let p = chars_of(sep);
    let mut out: Vec<String> = Vec::new();
    let mut start: usize = 0;
    let mut at: usize = 0;
    assert(a@.skip(0) =~= a@);
    assert(views(out@) + split_on(s@, sep@) =~= split_on(s@, sep@));
    while at < a.len()
        invariant
            start <= at <= a.len(),
            a@ == s@,
            p@ == sep@,
            p@.len() > 0,
            views(out@) + split_on(a@.skip(start as int), p@) == split_on(s@, sep@),
            forall|k: int| start <= k < at ==> !#[trigger] occurs_at(a@, p@, k),
        decreases a.len() - at,
    {
        if matches_at(&a, &p, at) {
            let ghost rest = a@.skip(start as int);
            let ghost i = at - start;
            let ghost before = views(out@);
            let piece = text_of(&a[start..at]);
            proof {
                assert(piece@ =~= rest.take(i));
                lemma_occurs_skip(a@, p@, start as int, i);
                assert forall|k: int| 0 <= k < i implies !#[trigger] occurs_at(rest, p@, k) by {
                    lemma_occurs_skip(a@, p@, start as int, k);
                }
                lemma_first_occurrence_is(rest, p@, i);
            }
            out.push(piece);
            at = at + p.len();
            start = at;
            proof {
                assert(rest.skip(i + p@.len()) =~= a@.skip(start as int));
                assert(views(out@) =~= before + seq![rest.take(i)]);
                assert(split_on(rest, p@) == seq![rest.take(i)] + split_on(
                    a@.skip(start as int),
                    p@,
                ));
                assert(views(out@) + split_on(a@.skip(start as int), p@) =~= before + split_on(
                    rest,
                    p@,
                ));
            }
        } else {
            at += 1;
        }
    }
    let ghost rest = a@.skip(start as int);
    let ghost before = views(out@);
    let piece = text_of(&a[start..a.len()]);
    proof {
        assert(piece@ =~= rest);
        lemma_first_occurrence(rest, p@);
        let f = first_occurrence(rest, p@);
        if f >= 0 {
            lemma_occurs_skip(a@, p@, start as int, f);
            assert(occurs_at(a@, p@, start + f));
            assert(false);
        }
        assert(split_on(rest, p@) == seq![rest]);
    }
    out.push(piece);
    assert(views(out@) =~= before + seq![rest]);
    out
}

proof fn lemma_occurs_skip(s: Seq<char>, part: Seq<char>, from: int, at: int)
    requires
        0 <= from <= s.len(),
        at >= 0,
    ensures
        occurs_at(s.skip(from), part, at) == occurs_at(s, part, from + at),
{
    if from + at + part.len() <= s.len() {
        assert(s.skip(from).subrange(at, at + part.len()) =~= s.subrange(
            from + at,
            from + at + part.len(),
        ));
    }
}

/// The texts of `parts` with `sep` between each two neighbours.
pub open spec fn join(parts: Seq<Seq<char>>, sep: Seq<char>) -> Seq<char>
    decreases parts.len(),
{
    if parts.len() == 0 {
        Seq::empty()
    } else if parts.len() == 1 {
        parts[0]
    } else {
        join(parts.drop_last(), sep) + sep + parts.last()
    }
}

/// Texts without the character `c`, joined by it, are the pieces that the whole is
/// split into.
pub proof fn lemma_split_join(parts: Seq<Seq<char>>, c: char)
    requires
        parts.len() > 0,
        forall|i: int| 0 <= i < parts.len() ==> !(#[trigger] parts[i]).contains(c),
    ensures
        split_on(join(parts, seq![c]), seq![c]) == parts,
    decreases parts.len(),
{
    let sep = seq![c];
    let s = join(parts, sep);
    lemma_first_occurrence(s, sep);
    if parts.len() == 1 {
        let f = first_occurrence(s, sep);
        if f >= 0 {
            assert(s.subrange(f, f + 1)[0] == c);
            assert(s[f] == c);
        }
        assert(parts =~= seq![s]);
    } else {
        let rest = parts.drop_first();
        let at = parts[0].len() as int;
        lemma_join_first(parts, sep);
        assert(s.subrange(at, at + 1) =~= sep);
        assert forall|k: int| 0 <= k < at implies !#[trigger] occurs_at(s, sep, k) by {
            if occurs_at(s, sep, k) {
                assert(s.subrange(k, k + 1)[0] == c);
                assert(parts[0][k] == c);
            }
        }
        lemma_first_occurrence_is(s, sep, at);
        assert(s.take(at) =~= parts[0]);
        assert(s.skip(at + 1) =~= join(rest, sep));
        assert forall|i: int| 0 <= i < rest.len() implies !(#[trigger] rest[i]).contains(c) by {
            assert(rest[i] == parts[i + 1]);
        }
        lemma_split_join(rest, c);
        assert(parts =~= seq![parts[0]] + rest);
    }
}

pub proof fn lemma_join_first(parts: Seq<Seq<char>>, sep: Seq<char>)
    requires
        parts.len() > 1,
    ensures
        join(parts, sep) == parts[0] + sep + join(parts.drop_first(), sep),
    decreases parts.len(),
{
    let rest = parts.drop_first();
    if parts.len() == 2 {
        assert(join(parts.drop_last(), sep) == parts[0]);
        assert(join(rest, sep) == parts[1]);
    } else {
        lemma_join_first(parts.drop_last(), sep);
        assert(parts.drop_last().drop_first() =~= rest.drop_last());
        assert(join(parts, sep) =~= parts[0] + sep + join(rest, sep));
    }
}

/// No piece between the occurrences of the character `c` has it.
pub proof fn lemma_split_pieces(s: Seq<char>, c: char)
    ensures
        split_on(s, seq![c]).len() > 0,
        forall|i: int|
            0 <= i < split_on(s, seq![c]).len() ==> !(#[trigger] split_on(
                s,
                seq![c],
            )[i]).contains(c),
    decreases s.len(),
{
    let sep = seq![c];
    let f = first_occurrence(s, sep);
    lemma_first_occurrence(s, sep);
    assert forall|k: int| 0 <= k < s.len() && s[k] == c implies occurs_at(s, sep, k) by {
        assert(s.subrange(k, k + 1) =~= sep);
    }
    if f < 0 {
        assert(!s.contains(c)) by {
            if s.contains(c) {
                let k = choose|k: int| 0 <= k < s.len() && s[k] == c;
                assert(occurs_at(s, sep, k));
            }
        }
    } else {
        lemma_split_pieces(s.skip(f + 1), c);
        assert(!s.take(f).contains(c)) by {
            if s.take(f).contains(c) {
                let k = choose|k: int| 0 <= k < f && s.take(f)[k] == c;
                assert(occurs_at(s, sep, k));
            }
        }
    }
}

/// The texts of `parts` with `sep` between each two neighbours.
pub fn join_texts(parts: &[String], sep: &str) -> (r: String)
    ensures
        r@ == join(views(parts@), sep@),
{
    let mut r = String::new();
    let mut i: usize = 0;
    while i < parts.len()
        invariant
            i <= parts.len(),
            r@ == join(views(parts@.take(i as int)), sep@),
        decreases parts.len() - i,
    {
        if i > 0 {
            r.append(sep);
        }
        r.append(parts[i].as_str());
        proof {
            let t = views(parts@.take(i + 1));
            assert(t.drop_last() =~= views(parts@.take(i as int)));
            if i == 0 {
                assert(r@ =~= t[0]);
            }
        }
        i += 1;
    }
    assert(parts@.take(i as int) =~= parts@);
    r
}

/// The upper-case hexadecimal digit `d`.
pub open spec fn hex_digit(d: int) -> char {
    if d < 10 {
        (48 + d) as char
    } else {
        (55 + d) as char
    }
}

/// The first position in `s` that holds `c`, or the length of `s`.
pub open spec fn position_of(s: Seq<char>, c: char) -> int
    decreases s.len(),
{
    if s.len() == 0 || s[0] == c {
        0
    } else {
        1 + position_of(s.drop_first(), c)
    }
}

/// A line without the carriage return that may end it.
pub open spec fn strip_cr(s: Seq<char>) -> Seq<char> {
    if s.len() > 0 && s.last() == '\r' {
        s.drop_last()
    } else {
        s
    }
}

/// The lines of a text. A line ends at a line feed, which a carriage return may
/// precede; the last line need not end in one.
pub open spec fn lines_of(s: Seq<char>) -> Seq<Seq<char>>
    decreases s.len(),
{
    if s.len() == 0 {
        Seq::empty()
    } else {
        let e = position_of(s, '\n');
        if e < 0 || e >= s.len() {
            seq![s]
        } else {
            seq![strip_cr(s.take(e))] + lines_of(s.skip(e + 1))
        }
    }
}

proof fn lemma_position_of(s: Seq<char>, c: char, at: int)
    requires
        0 <= at <= s.len(),
        forall|k: int| 0 <= k < at ==> s[k] != c,
        at == s.len() || s[at] == c,
    ensures
        position_of(s, c) == at,
    decreases s.len(),
{
    if at > 0 {
        lemma_position_of(s.drop_first(), c, at - 1);
    }
}

/// The lines of `s`.
pub fn lines(s: &str) -> (r: Vec<String>)
    ensures
        views(r@) == lines_of(s@),
{
    let a = chars_of(s);
    let mut out: Vec<String> = Vec::new();
    let mut start: usize = 0;
    let mut at: usize = 0;
    assert(a@.skip(0) =~= a@);
    assert(views(out@) + lines_of(s@) =~= lines_of(s@));
    while at < a.len()
        invariant
            start <= at <= a.len(),
            a@ == s@,
            views(out@) + lines_of(a@.skip(start as int)) == lines_of(s@),
            forall|k: int| start <= k < at ==> a@[k] != '\n',
        decreases a.len() - at,
    {
        if a[at] == '\n' {
            let ghost rest = a@.skip(start as int);
            let ghost e = at - start;
            let ghost before = views(out@);
            let end: usize = if at > start && a[at - 1] == '\r' {
                at - 1
            } else {
                at
            };
            let piece = text_of(&a[start..end]);
            proof {
                lemma_position_of(rest, '\n', e);
                assert(piece@ =~= strip_cr(rest.take(e)));
            }
            out.push(piece);
            at += 1;
            start = at;
            proof {
                assert(rest.skip(e + 1) =~= a@.skip(start as int));
                assert(views(out@) =~= before + seq![piece@]);
                assert(views(out@) + lines_of(a@.skip(start as int)) =~= before + lines_of(rest));
            }
        } else {
            at += 1;
        }
    }
    if start < a.len() {
        let ghost rest = a@.skip(start as int);
        let ghost before = views(out@);
        let piece = text_of(&a[start..a.len()]);
        proof {
            assert(piece@ =~= rest);
            lemma_position_of(rest, '\n', rest.len() as int);
        }
        out.push(piece);
        assert(views(out@) =~= before + seq![rest]);
    } else {
        assert(a@.skip(start as int) =~= Seq::empty());
        assert(views(out@) + Seq::<Seq<char>>::empty() =~= views(out@));
    }
    out
}

/// The characters with the Unicode property `White_Space`.
pub open spec fn is_space(c: char) -> bool {
    let u = c as u32;
    ||| 0x09 <= u <= 0x0d
    ||| u == 0x20
    ||| u == 0x85
    ||| u == 0xa0
    ||| u == 0x1680
    ||| 0x2000 <= u <= 0x200a
    ||| u == 0x2028
    ||| u == 0x2029
    ||| u == 0x202f
    ||| u == 0x205f
    ||| u == 0x3000
}

/// Whether `c` has the Unicode property `White_Space`.
pub fn space(c: char) -> (r: bool)
    ensures
        r == is_space(c),
{
    let u: u32 = c as u32;
    (0x09 <= u && u <= 0x0d) || u == 0x20 || u == 0x85 || u == 0xa0 || u == 0x1680 || (0x2000 <= u
        && u <= 0x200a) || u == 0x2028 || u == 0x2029 || u == 0x202f || u == 0x205f || u == 0x3000
}

/// The runs of characters that are not white space, in order. `word` is the run
/// that has been read so far.
pub open spec fn words_from(word: Seq<char>, s: Seq<char>) -> Seq<Seq<char>>
    decreases s.len(),
{
    if s.len() == 0 {
        if word.len() == 0 {
            Seq::empty()
        } else {
            seq![word]
        }
    } else if is_space(s[0]) {
        if word.len() == 0 {
            words_from(word, s.drop_first())
        } else {
            seq![word] + words_from(Seq::empty(), s.drop_first())
        }
    } else {
        words_from(word.push(s[0]), s.drop_first())
    }
}

/// The white-space separated words of a text.
pub open spec fn words_of(s: Seq<char>) -> Seq<Seq<char>> {
    words_from(Seq::empty(), s)
}

/// The white-space separated words of `s`.
pub fn words(s: &str) -> (r: Vec<String>)
    ensures
        views(r@) == words_of(s@),
{
    let a = chars_of(s);
    let mut out: Vec<String> = Vec::new();
    let mut word: Vec<char> = Vec::new();
    let mut at: usize = 0;
    assert(a@.skip(0) =~= a@);
    while at < a.len()
        invariant
            at <= a.len(),
            a@ == s@,
            views(out@) + words_from(word@, a@.skip(at as int)) == words_of(s@),
        decreases a.len() - at,
    {
        let ghost rest = a@.skip(at as int);
        let ghost before = views(out@);
        assert(rest.drop_first() =~= a@.skip(at + 1));
        if space(a[at]) {
            if word.len() > 0 {
                let piece = text_of(&word);
                out.push(piece);
                assert(views(out@) =~= before + seq![piece@]);
                assert(views(out@) + words_from(Seq::empty(), a@.skip(at + 1)) =~= before
                    + words_from(word@, rest));
                word = Vec::new();
            }
        } else {
            word.push(a[at]);
        }
        at += 1;
    }
    assert(a@.skip(at as int) =~= Seq::empty());
    let ghost before = views(out@);
    if word.len() > 0 {
        let piece = text_of(&word);
        out.push(piece);
        assert(views(out@) =~= before + seq![piece@]);
    } else {
        assert(views(out@) + Seq::<Seq<char>>::empty() =~= views(out@));
    }
    out
}

/// A text without the white space before it.
pub open spec fn trim_front(s: Seq<char>) -> Seq<char>
    decreases s.len(),
{
    if s.len() > 0 && is_space(s[0]) {
        trim_front(s.drop_first())
    } else {
        s
    }
}

/// A text without the white space behind it.
pub open spec fn trim_back(s: Seq<char>) -> Seq<char>
    decreases s.len(),
{
    if s.len() > 0 && is_space(s.last()) {
        trim_back(s.drop_last())
    } else {
        s
    }
}

/// `s` without the white space around it.
pub fn trim_text(s: &str) -> (r: String)
    ensures
        r@ == trim_back(trim_front(s@)),
{
    let a = chars_of(s);
    let mut start: usize = 0;
    assert(a@.skip(0) =~= a@);
    while start < a.len() && space(a[start])
        invariant
            start <= a.len(),
            a@ == s@,
            trim_front(a@.skip(start as int)) == trim_front(s@),
        decreases a.len() - start,
    {
        assert(a@.skip(start as int).drop_first() =~= a@.skip(start + 1));
        start += 1;
    }
    let ghost front = trim_front(s@);
    assert(front == a@.skip(start as int));
    let mut end: usize = a.len();
    assert(a@.subrange(start as int, end as int) =~= front);
    while end > start && space(a[end - 1])
        invariant
            start <= end <= a.len(),
            trim_back(a@.subrange(start as int, end as int)) == trim_back(front),
        decreases end,
    {
        assert(a@.subrange(start as int, end as int).drop_last() =~= a@.subrange(
            start as int,
            end - 1,
        ));
        end -= 1;
    }
    assert(trim_back(front) == a@.subrange(start as int, end as int));
    text_of(&a[start..end])
}

/// Whether one of `parts` holds the text `wanted`.
pub fn has_text(parts: &[String], wanted: &str) -> (r: bool)
    ensures
        r == views(parts@).contains(wanted@),
{
    let mut i: usize = 0;
    while i < parts.len()
        invariant
            i <= parts.len(),
            forall|k: int| 0 <= k < i ==> parts@[k]@ != wanted@,
        decreases parts.len() - i,
    {
        if same_text(parts[i].as_str(), wanted) {
            assert(views(parts@)[i as int] == wanted@);
            return true;
        }
        i += 1;
    }
    assert forall|k: int| 0 <= k < parts@.len() implies views(parts@)[k] != wanted@ by {
        assert(parts@[k]@ != wanted@);
    }
    false
}

/// A copy of `parts`.
pub fn copy_texts(parts: &[String]) -> (r: Vec<String>)
    ensures
        r@ == parts@,
{
    let mut r: Vec<String> = Vec::new();
    let mut i: usize = 0;
    while i < parts.len()
        invariant
            i <= parts.len(),
            r@ == parts@.take(i as int),
        decreases parts.len() - i,
    {
        r.push(parts[i].clone());
        i += 1;
        assert(r@ =~= parts@.take(i as int));
    }
    assert(r@ =~= parts@);
    r
}

/// The pieces of a text make it up again with the separator between them, and none of
/// them holds the separator.
pub proof fn pieces_make_the_whole(s: Seq<char>, sep: Seq<char>)
    requires
        sep.len() > 0,
    ensures
        split_on(s, sep).len() > 0,
        join(split_on(s, sep), sep) == s,
        forall|i: int|
            0 <= i < split_on(s, sep).len() ==> !occurs_in(#[trigger] split_on(s, sep)[i], sep),
    decreases s.len(),
{
    let f = first_occurrence(s, sep);
    lemma_first_occurrence(s, sep);
    if f >= 0 {
        let rest = s.skip(f + sep.len());
        pieces_make_the_whole(rest, sep);
        let parts = split_on(s, sep);
        assert(parts.drop_first() =~= split_on(rest, sep));
        lemma_join_first(parts, sep);
        assert(s.subrange(f, f + sep.len()) =~= sep);
        assert(s =~= s.take(f) + sep + rest);
        assert(!occurs_in(s.take(f), sep)) by {
            if occurs_in(s.take(f), sep) {
                let k = choose|k: int| occurs_at(s.take(f), sep, k);
                assert(s.subrange(k, k + sep.len()) =~= s.take(f).subrange(k, k + sep.len()));
                assert(occurs_at(s, sep, k));
            }
        }
        assert forall|i: int| 0 <= i < parts.len() implies !occurs_in(#[trigger] parts[i], sep) by {
            if i > 0 {
                assert(parts[i] == split_on(rest, sep)[i - 1]);
            }
        }
    }
}

/// White space parts words, however much of it there is; a text without white space is
/// one word.
pub proof fn white_space_parts_words(a: Seq<char>, c: char, b: Seq<char>)
    ensures
        is_space(c) ==> words_of(a + seq![c] + b) == words_of(a) + words_of(b),
        words_of(Seq::empty()).len() == 0,
        a.len() > 0 && (forall|i: int| 0 <= i < a.len() ==> !is_space(#[trigger] a[i])) ==> words_of(
            a,
        ) == seq![a],
{
    if is_space(c) {
        lemma_words_part(Seq::empty(), a, c, b);
    }
    if forall|i: int| 0 <= i < a.len() ==> !is_space(#[trigger] a[i]) {
        lemma_one_word(Seq::empty(), a);
        assert(Seq::<char>::empty() + a =~= a);
    }
}

proof fn lemma_words_part(word: Seq<char>, a: Seq<char>, c: char, b: Seq<char>)
    requires
        is_space(c),
    ensures
        words_from(word, a + seq![c] + b) == words_from(word, a) + words_from(Seq::empty(), b),
    decreases a.len(),
{
    let all = a + seq![c] + b;
    if a.len() == 0 {
        assert(all.drop_first() =~= b);
        assert(all[0] == c);
        if word.len() == 0 {
            assert(word =~= Seq::empty());
            assert(Seq::<Seq<char>>::empty() + words_from(word, b) =~= words_from(word, b));
        }
    } else {
        let rest = a.drop_first();
        assert(all.drop_first() =~= rest + seq![c] + b);
        if is_space(a[0]) {
            if word.len() == 0 {
                lemma_words_part(word, rest, c, b);
            } else {
                lemma_words_part(Seq::empty(), rest, c, b);
                assert(seq![word] + (words_from(Seq::empty(), rest) + words_from(Seq::empty(), b))
                    =~= (seq![word] + words_from(Seq::empty(), rest)) + words_from(Seq::empty(), b));
            }
        } else {
            lemma_words_part(word.push(a[0]), rest, c, b);
        }
    }
}

proof fn lemma_one_word(word: Seq<char>, a: Seq<char>)
    requires
        forall|i: int| 0 <= i < a.len() ==> !is_space(#[trigger] a[i]),
    ensures
        word.len() + a.len() > 0 ==> words_from(word, a) == seq![word + a],
    decreases a.len(),
{
    if a.len() > 0 {
        let rest = a.drop_first();
        assert(!is_space(a[0]));
        assert forall|i: int| 0 <= i < rest.len() implies !is_space(#[trigger] rest[i]) by {
            assert(rest[i] == a[i + 1]);
        }
        lemma_one_word(word.push(a[0]), rest);
        assert(word.push(a[0]) + rest =~= word + a);
    } else {
        assert(word + a =~= word);
    }
}

/// A line feed ends a line, a carriage return before it belongs to the ending, and what
/// stands behind the last line feed is a line of its own.
pub proof fn line_feeds_end_lines(line: Seq<char>, rest: Seq<char>)
    requires
        !line.contains('\n'),
    ensures
        line.len() == 0 || line.last() != '\r' ==> lines_of(line + seq!['\n'] + rest) == seq![line]
            + lines_of(rest),
        lines_of(line + seq!['\r', '\n'] + rest) == seq![line] + lines_of(rest),
        line.len() > 0 ==> lines_of(line) == seq![line],
        lines_of(Seq::empty()).len() == 0,
{
    lemma_position(line, seq!['\n'] + rest);
    let a = line + seq!['\n'] + rest;
    assert(a =~= line + (seq!['\n'] + rest));
    assert(a.take(line.len() as int) =~= line);
    assert(a.skip(line.len() + 1int) =~= rest);
    let l = line.push('\r');
    assert(!l.contains('\n')) by {
        if l.contains('\n') {
            let k = choose|k: int| 0 <= k < l.len() && l[k] == '\n';
            assert(line[k] == '\n');
        }
    }
    lemma_position(l, seq!['\n'] + rest);
    let b = line + seq!['\r', '\n'] + rest;
    assert(b =~= l + (seq!['\n'] + rest));
    assert(b.take(l.len() as int) =~= l);
    assert(b.skip(l.len() + 1int) =~= rest);
    assert(l.drop_last() =~= line);
    lemma_position(line, Seq::empty());
    assert(line + Seq::<char>::empty() =~= line);
}

proof fn lemma_position(line: Seq<char>, rest: Seq<char>)
    requires
        !line.contains('\n'),
        rest.len() > 0 ==> rest[0] == '\n',
    ensures
        position_of(line + rest, '\n') == line.len(),
    decreases line.len(),
{
    let all = line + rest;
    if line.len() > 0 {
        let t = line.drop_first();
        assert(line.contains(line[0]));
        assert(!t.contains('\n')) by {
            if t.contains('\n') {
                let k = choose|k: int| 0 <= k < t.len() && t[k] == '\n';
                assert(line[k + 1] == '\n');
            }
        }
        lemma_position(t, rest);
        assert(all.drop_first() =~= t + rest);
    }
}

/// Trimming takes the white space around a text off and nothing else.
pub proof fn trimming_keeps_the_middle(s: Seq<char>) -> (from: int)
    ensures
        ({
            let t = trim_back(trim_front(s));
            &&& 0 <= from && from + t.len() <= s.len()
            &&& s.subrange(from, from + t.len()) == t
            &&& forall|i: int| 0 <= i < from ==> is_space(#[trigger] s[i])
            &&& forall|i: int| from + t.len() <= i < s.len() ==> is_space(#[trigger] s[i])
            &&& t.len() > 0 ==> !is_space(t[0]) && !is_space(t.last())
        }),
    decreases s.len(),
{
    if s.len() > 0 && is_space(s[0]) {
        let r = s.drop_first();
        let from = trimming_keeps_the_middle(r);
        let t = trim_back(trim_front(s));
        assert(s.subrange(from + 1, from + 1 + t.len()) =~= r.subrange(from, from + t.len()));
        assert forall|i: int| 0 <= i < from + 1 implies is_space(#[trigger] s[i]) by {
            if i > 0 {
                assert(r[i - 1] == s[i]);
            }
        }
        assert forall|i: int| from + 1 + t.len() <= i < s.len() implies is_space(#[trigger] s[i]) by {
            assert(r[i - 1] == s[i]);
        }
        from + 1
    } else {
        lemma_trim_back(s);
        0
    }
}

proof fn lemma_trim_back(s: Seq<char>)
    ensures
        trim_back(s).len() <= s.len(),
        s.subrange(0, trim_back(s).len() as int) == trim_back(s),
        forall|i: int| trim_back(s).len() <= i < s.len() ==> is_space(#[trigger] s[i]),
        trim_back(s).len() > 0 ==> !is_space(trim_back(s).last()),
    decreases s.len(),
{
    if s.len() > 0 && is_space(s.last()) {
        let r = s.drop_last();
        lemma_trim_back(r);
        let t = trim_back(s);
        assert(s.subrange(0, t.len() as int) =~= r.subrange(0, t.len() as int));
        assert forall|i: int| t.len() <= i < s.len() implies is_space(#[trigger] s[i]) by {
            if i < r.len() {
                assert(r[i] == s[i]);
            }
        }
    } else {
        assert(s.subrange(0, s.len() as int) =~= s);
    }
}

/// A hexadecimal digit stands for its number: `0` to `9`, then `A` to `F`.
pub proof fn hexadecimal_digits_count_up(d: int)
    requires
        0 <= d < 16,
    ensures
        d < 10 ==> hex_digit(d) as int - '0' as int == d,
        d >= 10 ==> hex_digit(d) as int - 'A' as int == d - 10,
{
}

/// White space is the blank and the controls that move on, and beyond ASCII the other
/// blanks and line ends of Unicode. No printable ASCII character is.
pub proof fn white_space_characters(c: char)
    ensures
        c as u32 <= 0x7f ==> (is_space(c) <==> c == ' ' || c == '\t' || c == '\n' || c == '\u{b}'
            || c == '\u{c}' || c == '\r'),
        c as u32 > 0x7f ==> (is_space(c) <==> c == '\u{85}' || c == '\u{a0}' || c == '\u{1680}'
            || '\u{2000}' <= c <= '\u{200a}' || c == '\u{2028}' || c == '\u{2029}' || c
            == '\u{202f}' || c == '\u{205f}' || c == '\u{3000}'),
{
}

} // verus!
