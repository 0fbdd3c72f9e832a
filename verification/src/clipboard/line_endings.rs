//! Line endings and null characters in text that crosses the clipboard.

use vstd::prelude::*;

verus! {

/// `s` with each carriage return and line feed pair made a line feed, from the
/// left and without overlap.
pub open spec fn crlf_to_lf(s: Seq<char>) -> Seq<char>
    decreases s.len(),
{
    if s.len() == 0 {
        Seq::empty()
    } else if s.len() >= 2 && s[0] == '\r' && s[1] == '\n' {
        seq!['\n'] + crlf_to_lf(s.skip(2))
    } else {
        seq![s[0]] + crlf_to_lf(s.skip(1))
    }
}

/// `s` with a carriage return put before each line feed.
pub open spec fn lf_to_crlf(s: Seq<char>) -> Seq<char>
    decreases s.len(),
{
    if s.len() == 0 {
        Seq::empty()
    } else if s[0] == '\n' {
        seq!['\r', '\n'] + lf_to_crlf(s.skip(1))
    } else {
        seq![s[0]] + lf_to_crlf(s.skip(1))
    }
}

/// `s` without its null characters.
pub open spec fn without_nul(s: Seq<char>) -> Seq<char>
    decreases s.len(),
{
    if s.len() == 0 {
        Seq::empty()
    } else if s[0] == '\0' {
        without_nul(s.skip(1))
    } else {
        seq![s[0]] + without_nul(s.skip(1))
    }
}

/// Text as Linux programs expect it.
pub open spec fn unix_text(s: Seq<char>) -> Seq<char> {
    without_nul(crlf_to_lf(s))
}

/// Text as Windows programs expect it.
pub open spec fn windows_text(s: Seq<char>) -> Seq<char> {
    without_nul(lf_to_crlf(crlf_to_lf(s)))
}

/// Text without carriage returns and null characters.
pub open spec fn is_plain_unix(s: Seq<char>) -> bool {
    forall|i: int| 0 <= i < s.len() ==> s[i] != '\r' && s[i] != '\0'
}

proof fn lemma_crlf_to_lf_plain(s: Seq<char>)
    requires
        is_plain_unix(s),
    ensures
        crlf_to_lf(s) == s,
    decreases s.len(),
{
    if s.len() > 0 {
        lemma_crlf_to_lf_plain(s.skip(1));
        assert(seq![s[0]] + s.skip(1) =~= s);
    } else {
        assert(s =~= Seq::empty());
    }
}

proof fn lemma_without_nul_none(s: Seq<char>)
    requires
        forall|i: int| 0 <= i < s.len() ==> s[i] != '\0',
    ensures
        without_nul(s) == s,
    decreases s.len(),
{
    if s.len() > 0 {
        lemma_without_nul_none(s.skip(1));
        assert(seq![s[0]] + s.skip(1) =~= s);
    } else {
        assert(s =~= Seq::empty());
    }
}

proof fn lemma_lf_to_crlf_plain(s: Seq<char>)
    requires
        is_plain_unix(s),
    ensures
        crlf_to_lf(lf_to_crlf(s)) == s,
        forall|i: int| 0 <= i < lf_to_crlf(s).len() ==> lf_to_crlf(s)[i] != '\0',
    decreases s.len(),
{
    if s.len() > 0 {
        let t = s.skip(1);
        lemma_lf_to_crlf_plain(t);
        let w = lf_to_crlf(s);
        if s[0] == '\n' {
            assert(w.skip(2) =~= lf_to_crlf(t));
        } else {
            assert(w.skip(1) =~= lf_to_crlf(t));
        }
        assert(seq![s[0]] + t =~= s);
    } else {
        assert(s =~= Seq::empty());
    }
}

/// Text without carriage returns and null characters that is made ready for
/// Windows comes back unchanged when it is made ready for Linux.
pub proof fn line_endings_come_back(s: Seq<char>)
    requires
        is_plain_unix(s),
    ensures
        unix_text(windows_text(s)) == s,
{
    lemma_crlf_to_lf_plain(s);
    lemma_lf_to_crlf_plain(s);
    lemma_without_nul_none(lf_to_crlf(s));
    lemma_without_nul_none(s);
}

/// Text made ready for either side holds no null character.
pub proof fn no_nul_remains(s: Seq<char>)
    ensures
        forall|i: int| 0 <= i < without_nul(s).len() ==> without_nul(s)[i] != '\0',
        without_nul(s).len() <= s.len(),
    decreases s.len(),
{
    if s.len() > 0 {
        no_nul_remains(s.skip(1));
    }
}

proof fn lemma_nul_commutes(s: Seq<char>)
    ensures
        without_nul(lf_to_crlf(s)) == lf_to_crlf(without_nul(s)),
    decreases s.len(),
{
    if s.len() > 0 {
        let t = s.skip(1);
        let w = lf_to_crlf(s);
        lemma_nul_commutes(t);
        if s[0] == '\n' {
            assert(w.skip(1) =~= seq!['\n'] + lf_to_crlf(t));
            assert(w.skip(1).skip(1) =~= lf_to_crlf(t));
            let n = without_nul(s);
            assert(n.skip(1) =~= without_nul(t));
            assert(w.skip(1)[0] == '\n');
            assert(without_nul(w.skip(1)) == seq!['\n'] + without_nul(lf_to_crlf(t)));
            assert(without_nul(w) == seq!['\r'] + without_nul(w.skip(1)));
            assert(without_nul(w) =~= seq!['\r', '\n'] + without_nul(lf_to_crlf(t)));
        } else {
            assert(w.skip(1) =~= lf_to_crlf(t));
            if s[0] != '\0' {
                assert(without_nul(s).skip(1) =~= without_nul(t));
            }
        }
    }
}

proof fn lemma_lf_to_crlf_undone(s: Seq<char>)
    ensures
        crlf_to_lf(lf_to_crlf(s)) == s,
        lf_to_crlf(s).len() > 0 ==> lf_to_crlf(s)[0] != '\n',
        forall|i: int|
            0 <= i < lf_to_crlf(s).len() && #[trigger] lf_to_crlf(s)[i] == '\n' ==> i > 0
                && lf_to_crlf(s)[i - 1] == '\r',
    decreases s.len(),
{
    if s.len() > 0 {
        let t = s.skip(1);
        let w = lf_to_crlf(s);
        let x = lf_to_crlf(t);
        lemma_lf_to_crlf_undone(t);
        let n: int = if s[0] == '\n' {
            2
        } else {
            1
        };
        assert(w.skip(n) =~= x);
        assert(seq![s[0]] + t =~= s);
        assert forall|i: int| 0 <= i < w.len() && #[trigger] w[i] == '\n' implies i > 0 && w[i - 1] == '\r' by {
            if i >= n {
                assert(w[i] == x[i - n]);
                assert(w[i - 1] == x[i - n - 1]);
            }
        }
    } else {
        assert(s =~= Seq::empty());
    }
}

/// In text for Windows every line feed has a carriage return before it and there is
/// no null character; made ready for Linux it is what the text itself would be.
pub proof fn windows_lines_end_in_two(s: Seq<char>)
    ensures
        forall|i: int| 0 <= i < windows_text(s).len() ==> windows_text(s)[i] != '\0',
        forall|i: int|
            0 <= i < windows_text(s).len() && #[trigger] windows_text(s)[i] == '\n' ==> i > 0
                && windows_text(s)[i - 1] == '\r',
        unix_text(windows_text(s)) == unix_text(s),
{
    let t = crlf_to_lf(s);
    no_nul_remains(lf_to_crlf(t));
    no_nul_remains(t);
    lemma_nul_commutes(t);
    lemma_lf_to_crlf_undone(without_nul(t));
    lemma_without_nul_none(without_nul(t));
}

/// Text on one line without null characters is the same for Windows and for Linux.
pub proof fn single_lines_stay(s: Seq<char>)
    requires
        is_plain_unix(s),
        !s.contains('\n'),
    ensures
        windows_text(s) == s,
        unix_text(s) == s,
{
    lemma_crlf_to_lf_plain(s);
    lemma_no_line_feed(s);
    lemma_without_nul_none(s);
}

proof fn lemma_no_line_feed(s: Seq<char>)
    requires
        !s.contains('\n'),
    ensures
        lf_to_crlf(s) == s,
    decreases s.len(),
{
    if s.len() > 0 {
        let t = s.skip(1);
        assert(s.contains(s[0]));
        assert(!t.contains('\n')) by {
            if t.contains('\n') {
                let k = choose|k: int| 0 <= k < t.len() && t[k] == '\n';
                assert(s[k + 1] == '\n');
            }
        }
        lemma_no_line_feed(t);
        assert(seq![s[0]] + t =~= s);
    } else {
        assert(s =~= Seq::empty());
    }
}

/// Text without carriage returns and null characters is as Linux programs expect it.
pub proof fn plain_text_stays(s: Seq<char>)
    requires
        is_plain_unix(s),
    ensures
        unix_text(s) == s,
{
    lemma_crlf_to_lf_plain(s);
    lemma_without_nul_none(s);
}

} // verus!
