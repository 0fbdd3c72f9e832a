//! Who holds the port that the server wants.

use vstd::prelude::*;
use vstd::string::StringExecFns;
use crate::config::overlay::{
    integer_text, lemma_decimal_digits, lemma_digits_grow, numbers_read_back, parse_integer,
    unsigned_part,
};
use crate::text::{
    decimal, decimal_text, has_text, hex_digit, is_space, join, joined, lemma_split_join,
    line_feeds_end_lines, lines, lines_of, same_text, split_on, split_text, starts_with, trim_back,
    trim_front, trim_text, views, white_space_parts_words, words, words_of,
};

verus! {

/// What an attempt to connect to the port gave.
#[derive(Clone, Copy, Debug, PartialEq, Eq, Structural)]
pub enum Probe {
    /// Somebody accepts connections there.
    Connected,
    /// Nobody listens there.
    Refused,
    /// Neither, as after a time-out.
    Unclear,
}

/// Whether to look further for who holds the port: not where nobody listens there.
pub fn look_further(probe: Probe) -> (r: bool)
    ensures
        r == (probe != Probe::Refused),
{
    match probe {
        Probe::Refused => false,
        _ => true,
    }
}

fn hex_char(d: u16) -> (r: char)
    requires
        d < 16,
    ensures
        r == hex_digit(d as int),
{
    let code: u8 = if d < 10 {
        48 + d as u8
    } else {
        55 + d as u8
    };
    code as char
}

/// A port as four hexadecimal digits.
pub open spec fn hex4(port: u16) -> Seq<char> {
    seq![
        hex_digit(port as int / 4096),
        hex_digit(port as int / 256 % 16),
        hex_digit(port as int / 16 % 16),
        hex_digit(port as int % 16),
    ]
}

fn port_hex(port: u16) -> (r: String)
    ensures
        r@ == hex4(port),
{
    let mut s = String::new();
    s.push(hex_char(port / 4096));
    s.push(hex_char(port / 256 % 16));
    s.push(hex_char(port / 16 % 16));
    s.push(hex_char(port % 16));
    assert(s@ =~= hex4(port));
    s
}

/// The name of a socket's state; one without a name stands for itself.
pub open spec fn state_name_of(code: Seq<char>) -> Seq<char> {
    if code == "0A"@ {
        "LISTEN"@
    } else if code == "01"@ {
        "ESTABLISHED"@
    } else if code == "06"@ {
        "TIME_WAIT"@
    } else if code == "08"@ {
        "CLOSE_WAIT"@
    } else {
        code
    }
}

fn state_name(code: &str) -> (r: String)
    ensures
        r@ == state_name_of(code@),
{
    if same_text(code, "0A") {
        "LISTEN".to_owned()
    } else if same_text(code, "01") {
        "ESTABLISHED".to_owned()
    } else if same_text(code, "06") {
        "TIME_WAIT".to_owned()
    } else if same_text(code, "08") {
        "CLOSE_WAIT".to_owned()
    } else {
        code.to_owned()
    }
}

/// A socket that is bound to a port.
#[derive(Clone, Debug)]
pub struct PortUse {
    /// Name of its state.
    pub state: String,
    /// Number by which its process is found.
    pub inode: String,
}

/// What a socket that is bound to a port is: state and number.
pub struct PortUseView {
    pub state: Seq<char>,
    pub inode: Seq<char>,
}

impl View for PortUse {
    type V = PortUseView;

    open spec fn view(&self) -> PortUseView {
        PortUseView { state: self.state@, inode: self.inode@ }
    }
}

/// What sockets are.
pub open spec fn use_views(v: Seq<PortUse>) -> Seq<PortUseView> {
    v.map_values(|u: PortUse| u@)
}

/// The socket of one line of the kernel's table, if it is bound to `port`. The
/// second of ten fields or more ends in the port, behind a colon; the fourth is the
/// state and the tenth the number.
pub open spec fn use_in_line(line: Seq<char>, port: u16) -> Option<PortUseView> {
    let fields = words_of(line);
    if fields.len() < 10 {
        None
    } else {
        let address = split_on(fields[1], ":"@);
        if address.len() >= 2 && address[1] == hex4(port) {
            Some(PortUseView { state: state_name_of(fields[3]), inode: fields[9] })
        } else {
            None
        }
    }
}

/// The sockets of some lines that are bound to `port`.
pub open spec fn uses_in(lines: Seq<Seq<char>>, port: u16) -> Seq<PortUseView>
    decreases lines.len(),
{
    if lines.len() == 0 {
        Seq::empty()
    } else {
        let before = uses_in(lines.drop_last(), port);
        match use_in_line(lines.last(), port) {
            Some(u) => before.push(u),
            None => before,
        }
    }
}

/// The sockets of the kernel's table that are bound to `port`. The first line is a
/// heading.
pub open spec fn uses_of_port(table: Seq<char>, port: u16) -> Seq<PortUseView> {
    let all = lines_of(table);
    if all.len() == 0 {
        Seq::empty()
    } else {
        uses_in(all.drop_first(), port)
    }
}

fn line_use(line: &str, port: u16) -> (r: Option<PortUse>)
    ensures
        match r {
            Some(u) => use_in_line(line@, port) == Some(u@),
            None => use_in_line(line@, port) is None,
        },
{
    let fields = words(line);
    let ghost f = words_of(line@);
    assert(f.len() == fields@.len());
    if fields.len() < 10 {
        return None;
    }
    assert(f[1] == fields@[1]@ && f[3] == fields@[3]@ && f[9] == fields@[9]@);
    proof {
        reveal_strlit(":");
    }
    let address = split_text(fields[1].as_str(), ":");
    let ghost a = split_on(f[1], ":"@);
    assert(a.len() == address@.len());
    if address.len() < 2 {
        return None;
    }
    assert(a[1] == address@[1]@);
    let wanted = port_hex(port);
    if same_text(address[1].as_str(), wanted.as_str()) {
        Some(PortUse { state: state_name(fields[3].as_str()), inode: fields[9].clone() })
    } else {
        None
    }
}

/// The sockets of the kernel's table that are bound to `port`.
pub fn port_uses(table: &str, port: u16) -> (r: Vec<PortUse>)
    ensures
        use_views(r@) == uses_of_port(table@, port),
{
    let all = lines(table);
    let ghost texts = lines_of(table@);
    assert(texts.len() == all@.len());
    let mut r: Vec<PortUse> = Vec::new();
    assert(use_views(r@) =~= Seq::empty());
    if all.len() == 0 {
        return r;
    }
    let ghost rest = texts.drop_first();
    let mut i: usize = 1;
    assert(rest.take(0) =~= Seq::empty());
    while i < all.len()
        invariant
            1 <= i <= all@.len(),
            texts == views(all@),
            rest == texts.drop_first(),
            use_views(r@) == uses_in(rest.take(i - 1), port),
        decreases all@.len() - i,
    {
        let ghost before = use_views(r@);
        let ghost done = rest.take(i as int);
        assert(done.drop_last() =~= rest.take(i - 1));
        assert(done.last() == texts[i as int]);
        assert(texts[i as int] == all@[i as int]@);
        if let Some(u) = line_use(all[i].as_str(), port) {
            r.push(u);
            assert(use_views(r@) =~= before.push(u@));
        }
        i += 1;
    }
    assert(rest.take(i - 1) =~= rest);
    r
}

/// The words that say which process holds a port.
pub fn held_message(port: u16, name: &str, pid: u32, state: &str) -> (r: String)
    ensures
        r@ == "Port "@ + decimal(port as nat) + " is held by process '"@ + name@ + "' (PID "@
            + decimal(pid as nat) + ") in state "@ + state@,
{
    let mut m = joined("Port ", decimal_text(port as u64).as_str());
    m.append(" is held by process '");
    m.append(name);
    m.append("' (PID ");
    m.append(decimal_text(pid as u64).as_str());
    m.append(") in state ");
    m.append(state);
    m
}

/// The words that say that a port is in use, where no process was found.
pub fn in_use_message(port: u16, state: &str, inode: &str) -> (r: String)
    ensures
        r@ == "Port "@ + decimal(port as nat) + " is in use (state: "@ + state@ + ", inode: "@
            + inode@ + ")"@,
{
    let mut m = joined("Port ", decimal_text(port as u64).as_str());
    m.append(" is in use (state: ");
    m.append(state);
    m.append(", inode: ");
    m.append(inode);
    m.append(")");
    m
}

/// The number of the process that a directory is named after.
pub open spec fn pid_of(name: Seq<char>) -> Option<u32> {
    if name.len() > 0 && name[0] == '-' {
        None
    } else {
        match integer_text(name) {
            Some(n) => if n <= u32::MAX {
                Some(n as u32)
            } else {
                None
            },
            None => None,
        }
    }
}

fn parse_pid(name: &str) -> (r: Option<u32>)
    ensures
        r == pid_of(name@),
{
    match parse_integer(name) {
        Some(n) => {
            if starts_with(name, "-") {
                proof {
                    reveal_strlit("-");
                    assert(name@.subrange(0, 1)[0] == '-');
                }
                None
            } else {
                proof {
                    reveal_strlit("-");
                    if name@.len() > 0 && name@[0] == '-' {
                        assert(name@.subrange(0, 1) =~= "-"@);
                    }
                    lemma_not_negative(name@);
                }
                if n <= 0xffff_ffff {
                    Some(n as u32)
                } else {
                    None
                }
            }
        },
        None => None,
    }
}

proof fn lemma_not_negative(s: Seq<char>)
    requires
        integer_text(s) is Some,
        !(s.len() > 0 && s[0] == '-'),
    ensures
        integer_text(s)->0 >= 0,
{
    lemma_digits_grow(unsigned_part(s), 0);
}

/// A process and what its open files lead to.
#[derive(Clone, Debug)]
pub struct ProcEntry {
    /// Name of its directory.
    pub name: String,
    /// Where the links of its open files lead.
    pub links: Vec<String>,
}

/// Whether a directory is that of a process with the socket `inode` among its open
/// files.
pub open spec fn holds_socket(e: ProcEntry, inode: Seq<char>) -> bool {
    pid_of(e.name@) is Some && views(e.links@).contains("socket:["@ + inode + "]"@)
}

/// The first process that has the socket `inode` among its open files.
pub fn find_process_by_inode(entries: &[ProcEntry], inode: &str) -> (r: Option<u32>)
    ensures
        match r {
            Some(pid) => exists|i: int|
                0 <= i < entries@.len() && holds_socket(#[trigger] entries@[i], inode@) && pid_of(
                    entries@[i].name@,
                ) == Some(pid) && forall|k: int|
                    0 <= k < i ==> !holds_socket(#[trigger] entries@[k], inode@),
            None => forall|k: int|
                0 <= k < entries@.len() ==> !holds_socket(#[trigger] entries@[k], inode@),
        },
{
    let mut target = joined("socket:[", inode);
    target.append("]");
    let mut i: usize = 0;
    while i < entries.len()
        invariant
            i <= entries@.len(),
            target@ == "socket:["@ + inode@ + "]"@,
            forall|k: int| 0 <= k < i ==> !holds_socket(#[trigger] entries@[k], inode@),
        decreases entries@.len() - i,
    {
        if let Some(pid) = parse_pid(entries[i].name.as_str()) {
            if has_text(entries[i].links.as_slice(), target.as_str()) {
                assert(holds_socket(entries@[i as int], inode@));
                return Some(pid);
            }
        }
        i += 1;
    }
    None
}

/// The name of a process, without the white space around it.
pub fn process_name(comm: &str) -> (r: String)
    ensures
        r@ == trim_back(trim_front(comm@)),
{
    trim_text(comm)
}

/// Lines of which none is bound to a port give no socket of it.
pub proof fn no_line_no_use(lines: Seq<Seq<char>>, port: u16)
    requires
        forall|i: int| 0 <= i < lines.len() ==> use_in_line(#[trigger] lines[i], port) is None,
    ensures
        uses_in(lines, port).len() == 0,
    decreases lines.len(),
{
    if lines.len() > 0 {
        no_line_no_use(lines.drop_last(), port);
    }
}

/// The value of a hexadecimal digit with capital letters.
pub open spec fn hex_digit_value(c: char) -> int {
    if '0' <= c <= '9' {
        c as int - '0' as int
    } else {
        c as int - 'A' as int + 10
    }
}

/// The four digits of a port have its value, the first one counting most.
pub proof fn ports_are_written_in_hexadecimal(port: u16)
    ensures
        hex4(port).len() == 4,
        forall|i: int|
            0 <= i < 4 ==> ('0' <= #[trigger] hex4(port)[i] <= '9' || 'A' <= hex4(port)[i] <= 'F'),
        4096 * hex_digit_value(hex4(port)[0]) + 256 * hex_digit_value(hex4(port)[1]) + 16
            * hex_digit_value(hex4(port)[2]) + hex_digit_value(hex4(port)[3]) == port,
{
    let p = port as int;
    assert(p == 16 * (p / 16) + p % 16);
    assert(p / 16 == 16 * (p / 256) + p / 16 % 16);
    assert(p / 256 == 16 * (p / 4096) + p / 256 % 16);
    lemma_hex_digit_value(p / 4096);
    lemma_hex_digit_value(p / 256 % 16);
    lemma_hex_digit_value(p / 16 % 16);
    lemma_hex_digit_value(p % 16);
}

proof fn lemma_hex_digit_value(d: int)
    requires
        0 <= d < 16,
    ensures
        hex_digit_value(hex_digit(d)) == d,
        '0' <= hex_digit(d) <= '9' || 'A' <= hex_digit(d) <= 'F',
{
}

/// A line of the kernel's table tells of a socket exactly where the address in its second
/// field ends in the port. The state is named after the fourth field, and the number is
/// the tenth.
pub proof fn lines_are_read_by_their_fields(
    fields: Seq<Seq<char>>,
    host: Seq<char>,
    number: Seq<char>,
    port: u16,
)
    requires
        fields.len() >= 10,
        forall|i: int|
            0 <= i < fields.len() ==> (#[trigger] fields[i]).len() > 0 && forall|k: int|
                0 <= k < fields[i].len() ==> !is_space(#[trigger] fields[i][k]),
        fields[1] == host + seq![':'] + number,
        !host.contains(':'),
        !number.contains(':'),
    ensures
        ({
            let u = use_in_line(join(fields, seq![' ']), port);
            &&& u is Some <==> number == hex4(port)
            &&& u matches Some(found) ==> found.inode == fields[9] && found.state == state_name_of(
                fields[3],
            )
        }),
{
    lemma_words_joined(fields);
    reveal_strlit(":");
    assert(":"@ =~= seq![':']);
    let parts = seq![host, number];
    lemma_split_join(parts, ':');
    assert(parts.drop_last() =~= seq![host]);
    assert(join(parts.drop_last(), seq![':']) == host);
    assert(join(parts, seq![':']) == fields[1]);
}

proof fn lemma_words_joined(fields: Seq<Seq<char>>)
    requires
        fields.len() > 0,
        forall|i: int|
            0 <= i < fields.len() ==> (#[trigger] fields[i]).len() > 0 && forall|k: int|
                0 <= k < fields[i].len() ==> !is_space(#[trigger] fields[i][k]),
    ensures
        words_of(join(fields, seq![' '])) == fields,
    decreases fields.len(),
{
    let last = fields.last();
    assert(last == fields[fields.len() - 1]);
    white_space_parts_words(last, ' ', last);
    if fields.len() == 1 {
        assert(fields =~= seq![last]);
    } else {
        let rest = fields.drop_last();
        assert forall|i: int| 0 <= i < rest.len() implies (#[trigger] rest[i]).len() > 0 && forall|
            k: int,
        |
            0 <= k < rest[i].len() ==> !is_space(#[trigger] rest[i][k]) by {
            assert(rest[i] == fields[i]);
        }
        lemma_words_joined(rest);
        white_space_parts_words(join(rest, seq![' ']), ' ', last);
        assert(fields =~= rest + seq![last]);
    }
}

/// The heading of the table is skipped, and the sockets of the lines below it are found
/// in their order.
pub proof fn sockets_are_found_in_order(
    heading: Seq<char>,
    rest: Seq<char>,
    a: Seq<Seq<char>>,
    b: Seq<Seq<char>>,
    port: u16,
)
    requires
        !heading.contains('\n'),
        heading.len() == 0 || heading.last() != '\r',
    ensures
        uses_of_port(heading + seq!['\n'] + rest, port) == uses_in(lines_of(rest), port),
        uses_of_port(heading, port).len() == 0,
        uses_in(a + b, port) == uses_in(a, port) + uses_in(b, port),
        a.len() == 1 ==> uses_in(a, port) == (match use_in_line(a[0], port) {
            Some(u) => seq![u],
            None => Seq::empty(),
        }),
    decreases b.len(),
{
    line_feeds_end_lines(heading, rest);
    assert((seq![heading] + lines_of(rest)).drop_first() =~= lines_of(rest));
    if heading.len() == 0 {
        assert(heading =~= Seq::empty());
    } else {
        assert(seq![heading].drop_first() =~= Seq::empty());
    }
    if b.len() == 0 {
        assert(a + b =~= a);
        assert(uses_in(a, port) + uses_in(b, port) =~= uses_in(a, port));
    } else {
        sockets_are_found_in_order(heading, rest, a, b.drop_last(), port);
        assert((a + b).drop_last() =~= a + b.drop_last());
        assert(uses_in(a + b, port) =~= uses_in(a, port) + uses_in(b, port));
    }
    if a.len() == 1 {
        assert(a.drop_last() =~= Seq::empty());
        assert(uses_in(a.drop_last(), port).len() == 0);
        assert(uses_in(a, port) =~= (match use_in_line(a[0], port) {
            Some(u) => seq![u],
            None => Seq::empty(),
        }));
    }
}

/// The kernel's numbers for the states have the names that system tools give them.
pub proof fn states_are_named(code: Seq<char>)
    ensures
        state_name_of("0A"@) == "LISTEN"@,
        state_name_of("01"@) == "ESTABLISHED"@,
        state_name_of("06"@) == "TIME_WAIT"@,
        state_name_of("08"@) == "CLOSE_WAIT"@,
        code != "0A"@ && code != "01"@ && code != "06"@ && code != "08"@ ==> state_name_of(code)
            == code,
{
    reveal_strlit("0A");
    reveal_strlit("01");
    reveal_strlit("06");
    reveal_strlit("08");
    assert("0A"@[1] == 'A' && "01"@[1] == '1' && "06"@[1] == '6' && "08"@[1] == '8');
}

/// The directory of a process is named after its number; no other directory is one of a
/// process.
pub proof fn processes_are_known_by_their_numbers(n: nat, name: Seq<char>)
    ensures
        n <= u32::MAX ==> pid_of(decimal(n)) == Some(n as u32),
        n > u32::MAX ==> pid_of(decimal(n)) is None,
        pid_of(name) is Some ==> name.len() > 0 && name[0] != '-' && forall|i: int|
            0 < i < name.len() ==> '0' <= #[trigger] name[i] <= '9',
{
    numbers_read_back(n);
    if pid_of(name) is Some {
        let d = unsigned_part(name);
        assert forall|i: int| 0 < i < name.len() implies '0' <= #[trigger] name[i] <= '9' by {
            if d == name {
                assert('0' <= d[i] <= '9');
            } else {
                assert('0' <= d[i - 1] <= '9');
            }
        }
    }
    if n <= i64::MAX {
        assert(decimal(n)[0] != '-') by {
            lemma_decimal_digits(n);
            assert('0' <= decimal(n)[0] <= '9');
        }
    }
}

/// A process holds a socket where one of its open files leads to it by number.
pub proof fn sockets_are_known_by_their_numbers(e: ProcEntry, inode: Seq<char>)
    ensures
        holds_socket(e, inode) <==> pid_of(e.name@) is Some && exists|i: int|
            0 <= i < e.links@.len() && (#[trigger] e.links@[i])@ == "socket:["@ + inode + "]"@,
{
    let all = views(e.links@);
    let t = "socket:["@ + inode + "]"@;
    if all.contains(t) {
        let i = choose|i: int| 0 <= i < all.len() && all[i] == t;
        assert(e.links@[i]@ == t);
    }
    if exists|i: int| 0 <= i < e.links@.len() && (#[trigger] e.links@[i])@ == t {
        let i = choose|i: int| 0 <= i < e.links@.len() && (#[trigger] e.links@[i])@ == t;
        assert(all[i] == t);
    }
}

} // verus!
