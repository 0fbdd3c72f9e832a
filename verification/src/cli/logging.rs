//! What is logged, how and where.

use vstd::prelude::*;
use vstd::string::StringExecFns;
use crate::cli::args::Args;
use crate::clipboard::transfer::{join_path, path_in};
use crate::config::types::LoggingConfig;
use crate::config::{log_dir, resolve_log_dir, HostEnvironment};
use crate::text::{decimal, digit, join, joined, same_text};

verus! {

/// The least important messages that are logged.
pub open spec fn level_of(verbose: u8, configured: Seq<char>, quiet: bool) -> Seq<char> {
    if quiet {
        "error"@
    } else if verbose == 1 {
        "debug"@
    } else if verbose > 1 {
        "trace"@
    } else if configured == "trace"@ || configured == "debug"@ || configured == "info"@
        || configured == "warn"@ || configured == "error"@ {
        configured
    } else {
        "info"@
    }
}

/// Which messages of which part of the program are logged at `level`: those of the
/// server and its channels down to `level`, those of the protocol and the bus that
/// inform, and of the rest the warnings.
pub open spec fn filter_of(level: Seq<char>) -> Seq<char> {
    "lamco="@ + level + ",lamco_portal="@ + level + ",lamco_rdp="@ + level + ",lamco_video="@
        + level + ",ironrdp_cliprdr="@ + level + ",ironrdp_egfx="@ + level + ",ironrdp_dvc="@
        + level + ",ironrdp_server="@ + level + ",ironrdp=info,ashpd="@ + level
        + ",zbus=info,warn"@
}

/// Where the log also goes.
#[derive(Clone, Debug)]
pub enum LogTarget {
    /// Nowhere but the console.
    ConsoleOnly,
    /// This file.
    File(String),
    /// A new file in this directory, which is made first.
    Directory(String),
}

/// Form of a log.
#[derive(Clone, Copy, Debug, PartialEq, Eq, Structural)]
pub enum LogFormat {
    Json,
    Compact,
    Pretty,
    /// One line for each message, as the usual form of a file.
    Full,
}

/// Form of the log on the console.
pub open spec fn console_format_of(name: Seq<char>) -> LogFormat {
    if name == "json"@ {
        LogFormat::Json
    } else if name == "compact"@ {
        LogFormat::Compact
    } else {
        LogFormat::Pretty
    }
}

/// Form of the log in a file, by that on the console.
pub open spec fn file_format_of(console: LogFormat) -> LogFormat {
    if console == LogFormat::Pretty {
        LogFormat::Full
    } else {
        console
    }
}

/// What is logged, how and where.
#[derive(Clone, Debug)]
pub struct LogPlan {
    pub level: String,
    /// Which messages are logged, where the environment does not say it.
    pub filter: String,
    pub console: LogFormat,
    pub file: LogFormat,
    pub target: LogTarget,
}

fn log_level(verbose: u8, configured: &str, quiet: bool) -> (r: String)
    ensures
        r@ == level_of(verbose, configured@, quiet),
{
    if quiet {
        "error".to_owned()
    } else if verbose == 1 {
        "debug".to_owned()
    } else if verbose > 1 {
        "trace".to_owned()
    } else if same_text(configured, "trace") || same_text(configured, "debug") || same_text(
        configured,
        "info",
    ) || same_text(configured, "warn") || same_text(configured, "error") {
        configured.to_owned()
    } else {
        "info".to_owned()
    }
}

fn filter_text(level: &str) -> (r: String)
    ensures
        r@ == filter_of(level@),
{
    let mut f = joined("lamco=", level);
    f.append(",lamco_portal=");
    f.append(level);
    f.append(",lamco_rdp=");
    f.append(level);
    f.append(",lamco_video=");
    f.append(level);
    f.append(",ironrdp_cliprdr=");
    f.append(level);
    f.append(",ironrdp_egfx=");
    f.append(level);
    f.append(",ironrdp_dvc=");
    f.append(level);
    f.append(",ironrdp_server=");
    f.append(level);
    f.append(",ironrdp=info,ashpd=");
    f.append(level);
    f.append(",zbus=info,warn");
    f
}

/// Where the log also goes: the file of the command line, else a new file where a
/// directory is configured or a sandbox has one.
pub open spec fn is_target(
    t: LogTarget,
    log_file: Option<String>,
    config: &LoggingConfig,
    env: &HostEnvironment,
) -> bool {
    match log_file {
        Some(path) => t matches LogTarget::File(p) && p@ == path@,
        None => if config.log_dir is Some || env.flatpak {
            t matches LogTarget::Directory(d) && d@ == log_dir(env, &config.log_dir)
        } else {
            t is ConsoleOnly
        },
    }
}

/// Decides what is logged, how and where.
pub fn init_logging(args: &Args, config: &LoggingConfig, env: &HostEnvironment, quiet: bool) -> (r:
    LogPlan)
    ensures
        r.level@ == level_of(args.verbose, config.level@, quiet),
        r.filter@ == filter_of(r.level@),
        r.console == console_format_of(args.log_format@),
        r.file == file_format_of(r.console),
        is_target(r.target, args.log_file, config, env),
{
    let level = log_level(args.verbose, config.level.as_str(), quiet);
    let filter = filter_text(level.as_str());
    let target = match &args.log_file {
        Some(path) => LogTarget::File(path.clone()),
        None => if config.log_dir.is_some() || env.flatpak {
            LogTarget::Directory(resolve_log_dir(env, &config.log_dir))
        } else {
            LogTarget::ConsoleOnly
        },
    };
    let (console, file) = if same_text(args.log_format.as_str(), "json") {
        (LogFormat::Json, LogFormat::Json)
    } else if same_text(args.log_format.as_str(), "compact") {
        (LogFormat::Compact, LogFormat::Compact)
    } else {
        (LogFormat::Pretty, LogFormat::Full)
    };
    LogPlan { level, filter, console, file, target }
}

/// A date and time of day.
pub struct Moment {
    pub year: int,
    pub month: int,
    pub day: int,
    pub hour: int,
    pub minute: int,
    /// 60 in a leap second.
    pub second: int,
}

impl Moment {
    /// Each part is in its range.
    pub open spec fn in_range(&self) -> bool {
        &&& -262144 <= self.year <= 262143
        &&& 1 <= self.month <= 12
        &&& 1 <= self.day <= 31
        &&& 0 <= self.hour <= 23
        &&& 0 <= self.minute <= 59
        &&& 0 <= self.second <= 60
    }
}

/// A number below 100 in two digits.
pub open spec fn two_digits(n: int) -> Seq<char> {
    seq![digit(n / 10), digit(n % 10)]
}

/// A number in four digits, or in more where it needs more.
pub open spec fn four_digits(n: int) -> Seq<char> {
    if n < 10000 {
        two_digits(n / 100) + two_digits(n % 100)
    } else {
        decimal(n as nat)
    }
}

/// A year in four digits, or with a sign and in at least four.
pub open spec fn year_text(year: int) -> Seq<char> {
    if year < 0 {
        seq!['-'] + four_digits(-year)
    } else if year < 10000 {
        four_digits(year)
    } else {
        seq!['+'] + four_digits(year)
    }
}

/// The letters that stand for a part of a date and time, behind a percent sign.
pub open spec fn is_specifier(c: char) -> bool {
    c == 'Y' || c == 'm' || c == 'd' || c == 'H' || c == 'M' || c == 'S'
}

/// The part of a date and time that a specifier stands for.
pub open spec fn part_text(m: Moment, c: char) -> Seq<char> {
    if c == 'Y' {
        year_text(m.year)
    } else if c == 'm' {
        two_digits(m.month)
    } else if c == 'd' {
        two_digits(m.day)
    } else if c == 'H' {
        two_digits(m.hour)
    } else if c == 'M' {
        two_digits(m.minute)
    } else {
        two_digits(m.second)
    }
}

/// Every percent sign has a specifier behind it.
pub open spec fn is_pattern(p: Seq<char>) -> bool
    decreases p.len(),
{
    if p.len() == 0 {
        true
    } else if p[0] == '%' {
        p.len() >= 2 && is_specifier(p[1]) && is_pattern(p.skip(2))
    } else {
        is_pattern(p.skip(1))
    }
}

/// A pattern with the parts of a date and time in place of its specifiers.
pub open spec fn written(m: Moment, p: Seq<char>) -> Seq<char>
    decreases p.len(),
{
    if p.len() == 0 {
        Seq::empty()
    } else if p[0] == '%' && p.len() >= 2 {
        part_text(m, p[1]) + written(m, p.skip(2))
    } else {
        seq![p[0]] + written(m, p.skip(1))
    }
}

/// `s` is the pattern `p` with the parts of some date and time in it.
pub open spec fn is_written(s: Seq<char>, p: Seq<char>) -> bool {
    exists|m: Moment| m.in_range() && s == #[trigger] written(m, p)
}

/// `chrono::Local::now` and the `format` of what it gives, as text: the pattern with
/// the date and time of day where the program runs in place of its specifiers. Which
/// date and time is left open. The call panics where the system's clock stands before
/// 1970.
#[verifier::external_body]
pub(crate) fn local_timestamp(pattern: &str) -> (r: String)
    requires
        is_pattern(pattern@),
    ensures
        is_written(r@, pattern@),
{
    chrono::Local::now().format(pattern).to_string()
}

/// How a date and time stands in the name of a log file.
pub open spec fn stamp_of(m: Moment) -> Seq<char> {
    written(m, "%Y%m%d-%H%M%S"@)
}

/// The path of a log file in `dir` that is named after a date and time.
pub open spec fn stamped_path(dir: Seq<char>, stamp: Seq<char>) -> Seq<char> {
    path_in(dir, "lamco-rdp-server-"@ + stamp + ".log"@)
}

/// The path of a log file in `dir` that is named after a date and time.
pub fn stamped_log_file(dir: &str, stamp: &str) -> (r: String)
    ensures
        r@ == stamped_path(dir@, stamp@),
{
    let mut name = joined("lamco-rdp-server-", stamp);
    name.append(".log");
    join_path(dir, name.as_str())
}

/// The path of the log file once its directory was made; none where that failed or
/// where there is to be no file.
pub fn log_file_path(target: &LogTarget, directory_made: bool) -> (r: Option<String>)
    ensures
        match target {
            LogTarget::ConsoleOnly => r is None,
            LogTarget::File(path) => r matches Some(p) && p@ == path@,
            LogTarget::Directory(dir) => if directory_made {
                r matches Some(p) && exists|m: Moment|
                    m.in_range() && p@ == stamped_path(dir@, #[trigger] stamp_of(m))
            } else {
                r is None
            },
        },
{
    match target {
        LogTarget::ConsoleOnly => None,
        LogTarget::File(path) => Some(path.clone()),
        LogTarget::Directory(dir) => if directory_made {
            proof {
                lemma_stamp_pattern();
            }
            let stamp = local_timestamp("%Y%m%d-%H%M%S");
            let path = stamped_log_file(dir.as_str(), stamp.as_str());
            proof {
                let m = choose|m: Moment|
                    m.in_range() && stamp@ == #[trigger] written(m, "%Y%m%d-%H%M%S"@);
                assert(stamp@ == stamp_of(m));
            }
            Some(path)
        } else {
            None
        },
    }
}

proof fn lemma_stamp_pattern()
    ensures
        is_pattern("%Y%m%d-%H%M%S"@),
        forall|m: Moment| #[trigger]
            stamp_of(m) == year_text(m.year) + two_digits(m.month) + two_digits(m.day) + seq!['-']
                + two_digits(m.hour) + two_digits(m.minute) + two_digits(m.second),
{
    let p = "%Y%m%d-%H%M%S"@;
    reveal_strlit("%Y%m%d-%H%M%S");
    assert(p.skip(2) =~= seq!['%', 'm', '%', 'd', '-', '%', 'H', '%', 'M', '%', 'S']);
    assert(p.skip(2).skip(2) =~= seq!['%', 'd', '-', '%', 'H', '%', 'M', '%', 'S']);
    assert(p.skip(2).skip(2).skip(2) =~= seq!['-', '%', 'H', '%', 'M', '%', 'S']);
    let q = p.skip(2).skip(2).skip(2).skip(1);
    assert(q =~= seq!['%', 'H', '%', 'M', '%', 'S']);
    assert(q.skip(2) =~= seq!['%', 'M', '%', 'S']);
    assert(q.skip(2).skip(2) =~= seq!['%', 'S']);
    assert(q.skip(2).skip(2).skip(2) =~= Seq::<char>::empty());
    reveal_with_fuel(is_pattern, 9);
    assert forall|m: Moment| #[trigger]
        stamp_of(m) == year_text(m.year) + two_digits(m.month) + two_digits(m.day) + seq!['-']
            + two_digits(m.hour) + two_digits(m.minute) + two_digits(m.second) by {
        reveal_with_fuel(written, 9);
        assert(written(m, q) =~= two_digits(m.hour) + two_digits(m.minute) + two_digits(m.second));
        assert(stamp_of(m) =~= year_text(m.year) + two_digits(m.month) + two_digits(m.day)
            + seq!['-'] + written(m, q));
        assert(stamp_of(m) =~= year_text(m.year) + two_digits(m.month) + two_digits(m.day)
            + seq!['-'] + two_digits(m.hour) + two_digits(m.minute) + two_digits(m.second));
    }
}

/// Whether a character is a decimal digit.
pub open spec fn is_digit(c: char) -> bool {
    '0' <= c <= '9'
}

proof fn lemma_decimal(n: nat)
    ensures
        decimal(n).len() >= 1,
        n >= 10 ==> decimal(n).len() >= 2,
        n >= 100 ==> decimal(n).len() >= 3,
        n >= 1000 ==> decimal(n).len() >= 4,
        n >= 10000 ==> decimal(n).len() >= 5,
        forall|i: int| 0 <= i < decimal(n).len() ==> is_digit(#[trigger] decimal(n)[i]),
    decreases n,
{
    if n >= 10 {
        lemma_decimal(n / 10);
    }
}

proof fn lemma_decimal_tells(a: nat, b: nat)
    requires
        decimal(a) == decimal(b),
    ensures
        a == b,
    decreases a,
{
    lemma_decimal(a);
    lemma_decimal(b);
    assert(a >= 10 <==> b >= 10);
    assert(decimal(a).last() == digit((a % 10) as int));
    assert(decimal(b).last() == digit((b % 10) as int));
    if a >= 10 {
        assert(decimal(a).drop_last() =~= decimal(a / 10));
        assert(decimal(b).drop_last() =~= decimal(b / 10));
        lemma_decimal_tells(a / 10, b / 10);
    }
}

/// A stamp is told by its form: it ends in eight digits or more, a hyphen and six
/// digits. In the years of four digits that is all of it.
pub proof fn stamps_have_one_form(m: Moment)
    requires
        m.in_range(),
    ensures
        ({
            let s = stamp_of(m);
            let n = s.len() as int;
            &&& n >= 15
            &&& 0 <= m.year <= 9999 ==> n == 15
            &&& s[n - 7] == '-'
            &&& forall|i: int| n - 15 <= i < n && i != n - 7 ==> is_digit(#[trigger] s[i])
        }),
{
    lemma_stamp_pattern();
    lemma_year(m.year);
}

proof fn lemma_year(y: int)
    requires
        -262144 <= y <= 262143,
    ensures
        ({
            let s = year_text(y);
            let n = s.len() as int;
            &&& n >= 4
            &&& 0 <= y <= 9999 ==> n == 4
            &&& forall|i: int| n - 4 <= i < n ==> is_digit(#[trigger] s[i])
        }),
{
    lemma_decimal(y as nat);
    lemma_decimal((-y) as nat);
}

/// Log files of different seconds have different names.
pub proof fn each_second_has_its_name(dir: Seq<char>, a: Moment, b: Moment)
    requires
        a.in_range(),
        b.in_range(),
        stamped_path(dir, stamp_of(a)) == stamped_path(dir, stamp_of(b)),
    ensures
        a == b,
{
    let s = stamp_of(a);
    let t = stamp_of(b);
    reveal_strlit("lamco-rdp-server-");
    reveal_strlit(".log");
    let before = "lamco-rdp-server-"@;
    let after = ".log"@;
    assert(before[0] == 'l');
    let base = path_in(dir, Seq::empty());
    assert(stamped_path(dir, s) =~= base + before + s + after);
    assert(stamped_path(dir, t) =~= base + before + t + after);
    let from: int = (base.len() + before.len()) as int;
    assert(s =~= stamped_path(dir, s).subrange(from, from + s.len()));
    assert(t =~= stamped_path(dir, t).subrange(from, from + t.len()));
    lemma_stamp_tells(a, b);
}

proof fn lemma_stamp_tells(a: Moment, b: Moment)
    requires
        a.in_range(),
        b.in_range(),
        stamp_of(a) == stamp_of(b),
    ensures
        a == b,
{
    lemma_stamp_parts(a);
    lemma_stamp_parts(b);
    lemma_year_tells(a.year, b.year);
    lemma_two_tells(a.month, b.month);
    lemma_two_tells(a.day, b.day);
    lemma_two_tells(a.hour, b.hour);
    lemma_two_tells(a.minute, b.minute);
    lemma_two_tells(a.second, b.second);
}

proof fn lemma_stamp_parts(m: Moment)
    ensures
        ({
            let s = stamp_of(m);
            let n = s.len() as int;
            &&& s.take(n - 11) == year_text(m.year)
            &&& s.subrange(n - 11, n - 9) == two_digits(m.month)
            &&& s.subrange(n - 9, n - 7) == two_digits(m.day)
            &&& s.subrange(n - 6, n - 4) == two_digits(m.hour)
            &&& s.subrange(n - 4, n - 2) == two_digits(m.minute)
            &&& s.subrange(n - 2, n) == two_digits(m.second)
        }),
{
    lemma_stamp_pattern();
    lemma_pieces(
        year_text(m.year),
        two_digits(m.month),
        two_digits(m.day),
        two_digits(m.hour),
        two_digits(m.minute),
        two_digits(m.second),
    );
}

proof fn lemma_pieces(
    y: Seq<char>,
    a: Seq<char>,
    b: Seq<char>,
    c: Seq<char>,
    d: Seq<char>,
    e: Seq<char>,
)
    requires
        a.len() == 2,
        b.len() == 2,
        c.len() == 2,
        d.len() == 2,
        e.len() == 2,
    ensures
        ({
            let s = y + a + b + seq!['-'] + c + d + e;
            let n = s.len() as int;
            &&& n == y.len() + 11
            &&& s.take(n - 11) == y
            &&& s.subrange(n - 11, n - 9) == a
            &&& s.subrange(n - 9, n - 7) == b
            &&& s.subrange(n - 6, n - 4) == c
            &&& s.subrange(n - 4, n - 2) == d
            &&& s.subrange(n - 2, n) == e
        }),
{
    let s = y + a + b + seq!['-'] + c + d + e;
    let n = s.len() as int;
    assert(s.take(n - 11) =~= y);
    assert(s.subrange(n - 11, n - 9) =~= a);
    assert(s.subrange(n - 9, n - 7) =~= b);
    assert(s.subrange(n - 6, n - 4) =~= c);
    assert(s.subrange(n - 4, n - 2) =~= d);
    assert(s.subrange(n - 2, n) =~= e);
}

proof fn lemma_two_tells(a: int, b: int)
    requires
        0 <= a < 100,
        0 <= b < 100,
        two_digits(a) == two_digits(b),
    ensures
        a == b,
{
    assert(two_digits(a)[0] == digit(a / 10) && two_digits(a)[1] == digit(a % 10));
    assert(two_digits(b)[0] == digit(b / 10) && two_digits(b)[1] == digit(b % 10));
}

proof fn lemma_year_tells(a: int, b: int)
    requires
        -262144 <= a <= 262143,
        -262144 <= b <= 262143,
        year_text(a) == year_text(b),
    ensures
        a == b,
{
    lemma_sign(a);
    lemma_sign(b);
    let m = if a < 0 { -a } else { a };
    let n = if b < 0 { -b } else { b };
    lemma_four_tells(m, n);
}

proof fn lemma_sign(y: int)
    requires
        -262144 <= y <= 262143,
    ensures
        ({
            let s = year_text(y);
            let n = if y < 0 { -y } else { y };
            &&& s.len() > 0
            &&& y < 0 <==> s[0] == '-'
            &&& y >= 10000 <==> s[0] == '+'
            &&& four_digits(n) == if 0 <= y < 10000 { s } else { s.skip(1) }
        }),
{
    let n = if y < 0 { -y } else { y };
    if 0 <= y < 10000 {
        assert(year_text(y)[0] == digit(y / 100 / 10));
    } else {
        assert(year_text(y).skip(1) =~= four_digits(n));
    }
}

proof fn lemma_four_tells(a: int, b: int)
    requires
        a >= 0,
        b >= 0,
        four_digits(a) == four_digits(b),
    ensures
        a == b,
{
    lemma_decimal(a as nat);
    lemma_decimal(b as nat);
    let s = four_digits(a);
    assert(a < 10000 <==> b < 10000);
    if a < 10000 {
        assert(s[0] == digit(a / 100 / 10) && s[1] == digit(a / 100 % 10));
        assert(s[2] == digit(a % 100 / 10) && s[3] == digit(a % 100 % 10));
        assert(s[0] == digit(b / 100 / 10) && s[1] == digit(b / 100 % 10));
        assert(s[2] == digit(b % 100 / 10) && s[3] == digit(b % 100 % 10));
    } else {
        lemma_decimal_tells(a as nat, b as nat);
    }
}

/// Quiet output is disturbed by errors alone, whatever else is asked for.
pub proof fn quiet_is_quiet(verbose: u8, configured: Seq<char>)
    ensures
        level_of(verbose, configured, true) == "error"@,
{
}

/// The command line decides over the configured level.
pub proof fn command_line_wins(verbose: u8, a: Seq<char>, b: Seq<char>, quiet: bool)
    requires
        verbose > 0,
    ensures
        level_of(verbose, a, quiet) == level_of(verbose, b, quiet),
{
}

/// Without a word on the command line the configured level holds if it is one of the
/// five, and `info` otherwise. One `-v` asks for `debug`, more of them for `trace`.
pub proof fn levels_are_chosen(verbose: u8, configured: Seq<char>)
    ensures
        verbose == 1 ==> level_of(verbose, configured, false) == "debug"@,
        verbose >= 2 ==> level_of(verbose, configured, false) == "trace"@,
        level_of(verbose, configured, true) == "error"@,
        verbose == 0 && (configured == "trace"@ || configured == "debug"@ || configured == "info"@
            || configured == "warn"@ || configured == "error"@) ==> level_of(
            verbose,
            configured,
            false,
        ) == configured,
        verbose == 0 && configured != "trace"@ && configured != "debug"@ && configured != "warn"@
            && configured != "error"@ ==> level_of(verbose, configured, false) == "info"@,
{
}

/// The filter names ten parts of the program and the level of all the rest, with commas
/// between them: the server's own parts, its channels and the portal have the level that
/// was asked for.
pub proof fn filters_name_the_parts(level: Seq<char>)
    ensures
        filter_of(level) == join(
            seq![
                "lamco="@ + level,
                "lamco_portal="@ + level,
                "lamco_rdp="@ + level,
                "lamco_video="@ + level,
                "ironrdp_cliprdr="@ + level,
                "ironrdp_egfx="@ + level,
                "ironrdp_dvc="@ + level,
                "ironrdp_server="@ + level,
                "ironrdp=info"@,
                "ashpd="@ + level,
                "zbus=info"@,
                "warn"@,
            ],
            ","@,
        ),
{
    reveal_strlit(",");
    reveal_strlit(",lamco_portal=");
    reveal_strlit("lamco_portal=");
    reveal_strlit(",lamco_rdp=");
    reveal_strlit("lamco_rdp=");
    reveal_strlit(",lamco_video=");
    reveal_strlit("lamco_video=");
    reveal_strlit(",ironrdp_cliprdr=");
    reveal_strlit("ironrdp_cliprdr=");
    reveal_strlit(",ironrdp_egfx=");
    reveal_strlit("ironrdp_egfx=");
    reveal_strlit(",ironrdp_dvc=");
    reveal_strlit("ironrdp_dvc=");
    reveal_strlit(",ironrdp_server=");
    reveal_strlit("ironrdp_server=");
    reveal_strlit(",ironrdp=info,ashpd=");
    reveal_strlit("ironrdp=info");
    reveal_strlit("ashpd=");
    reveal_strlit(",zbus=info,warn");
    reveal_strlit("zbus=info");
    reveal_strlit("warn");
    assert(",lamco_portal="@ =~= ","@ + "lamco_portal="@);
    assert(",lamco_rdp="@ =~= ","@ + "lamco_rdp="@);
    assert(",lamco_video="@ =~= ","@ + "lamco_video="@);
    assert(",ironrdp_cliprdr="@ =~= ","@ + "ironrdp_cliprdr="@);
    assert(",ironrdp_egfx="@ =~= ","@ + "ironrdp_egfx="@);
    assert(",ironrdp_dvc="@ =~= ","@ + "ironrdp_dvc="@);
    assert(",ironrdp_server="@ =~= ","@ + "ironrdp_server="@);
    assert(",ironrdp=info,ashpd="@ =~= ","@ + "ironrdp=info"@ + ","@ + "ashpd="@);
    assert(",zbus=info,warn"@ =~= ","@ + "zbus=info"@ + ","@ + "warn"@);
    let sep = ","@;
    let p1 = seq!["lamco="@ + level];
    let p2 = p1.push("lamco_portal="@ + level);
    lemma_join_push(p1, "lamco_portal="@ + level, sep);
    let p3 = p2.push("lamco_rdp="@ + level);
    lemma_join_push(p2, "lamco_rdp="@ + level, sep);
    let p4 = p3.push("lamco_video="@ + level);
    lemma_join_push(p3, "lamco_video="@ + level, sep);
    let p5 = p4.push("ironrdp_cliprdr="@ + level);
    lemma_join_push(p4, "ironrdp_cliprdr="@ + level, sep);
    let p6 = p5.push("ironrdp_egfx="@ + level);
    lemma_join_push(p5, "ironrdp_egfx="@ + level, sep);
    let p7 = p6.push("ironrdp_dvc="@ + level);
    lemma_join_push(p6, "ironrdp_dvc="@ + level, sep);
    let p8 = p7.push("ironrdp_server="@ + level);
    lemma_join_push(p7, "ironrdp_server="@ + level, sep);
    let p9 = p8.push("ironrdp=info"@);
    lemma_join_push(p8, "ironrdp=info"@, sep);
    let p10 = p9.push("ashpd="@ + level);
    lemma_join_push(p9, "ashpd="@ + level, sep);
    let p11 = p10.push("zbus=info"@);
    lemma_join_push(p10, "zbus=info"@, sep);
    let p12 = p11.push("warn"@);
    lemma_join_push(p11, "warn"@, sep);
    let f8 = "lamco="@ + level + ",lamco_portal="@ + level + ",lamco_rdp="@ + level
        + ",lamco_video="@ + level + ",ironrdp_cliprdr="@ + level + ",ironrdp_egfx="@ + level
        + ",ironrdp_dvc="@ + level + ",ironrdp_server="@ + level;
    assert(join(p2, sep) =~= "lamco="@ + level + ",lamco_portal="@ + level);
    assert(join(p3, sep) =~= join(p2, sep) + ",lamco_rdp="@ + level);
    assert(join(p4, sep) =~= join(p3, sep) + ",lamco_video="@ + level);
    assert(join(p5, sep) =~= join(p4, sep) + ",ironrdp_cliprdr="@ + level);
    assert(join(p6, sep) =~= join(p5, sep) + ",ironrdp_egfx="@ + level);
    assert(join(p7, sep) =~= join(p6, sep) + ",ironrdp_dvc="@ + level);
    assert(join(p8, sep) =~= join(p7, sep) + ",ironrdp_server="@ + level);
    assert(join(p8, sep) == f8);
    assert(join(p10, sep) =~= f8 + ",ironrdp=info,ashpd="@ + level);
    assert(join(p12, sep) =~= join(p10, sep) + ",zbus=info,warn"@);
    assert(p12 =~= seq![
        "lamco="@ + level,
        "lamco_portal="@ + level,
        "lamco_rdp="@ + level,
        "lamco_video="@ + level,
        "ironrdp_cliprdr="@ + level,
        "ironrdp_egfx="@ + level,
        "ironrdp_dvc="@ + level,
        "ironrdp_server="@ + level,
        "ironrdp=info"@,
        "ashpd="@ + level,
        "zbus=info"@,
        "warn"@,
    ]);
}

proof fn lemma_join_push(parts: Seq<Seq<char>>, part: Seq<char>, sep: Seq<char>)
    requires
        parts.len() > 0,
    ensures
        join(parts.push(part), sep) == join(parts, sep) + sep + part,
{
    assert(parts.push(part).drop_last() =~= parts);
}

/// The console's form is the one that is named, and the readable one by default; a file
/// has the same form, but one line for each message in place of the readable one.
pub proof fn forms_of_the_log(name: Seq<char>)
    ensures
        name == "json"@ ==> console_format_of(name) == LogFormat::Json,
        name == "compact"@ ==> console_format_of(name) == LogFormat::Compact,
        name != "json"@ && name != "compact"@ ==> console_format_of(name) == LogFormat::Pretty,
        file_format_of(LogFormat::Json) == LogFormat::Json,
        file_format_of(LogFormat::Compact) == LogFormat::Compact,
        file_format_of(LogFormat::Pretty) == LogFormat::Full,
{
    reveal_strlit("json");
    reveal_strlit("compact");
    assert("json"@.len() != "compact"@.len());
}

/// The log goes to the file of the command line if there is one. Else it goes to a new
/// file in the configured directory, or in that of the sandbox, and where there is
/// neither to the console alone.
pub proof fn logs_go_where_asked(
    t: LogTarget,
    log_file: Option<String>,
    config: &LoggingConfig,
    env: &HostEnvironment,
)
    requires
        is_target(t, log_file, config, env),
    ensures
        log_file matches Some(path) ==> (t matches LogTarget::File(p) && p@ == path@),
        log_file is None && !env.flatpak && config.log_dir is None ==> t == LogTarget::ConsoleOnly,
        log_file is None && !env.flatpak ==> (config.log_dir matches Some(dir) ==> (
        t matches LogTarget::Directory(d) && d@ == dir@)),
        log_file is None && env.flatpak ==> t is Directory,
{
}

/// A stamp is read from left to right: the year, the month and the day, a hyphen, then
/// the hour, the minute and the second, each in its own digits.
pub proof fn stamps_are_read_from_left_to_right(m: Moment)
    requires
        m.in_range(),
        0 <= m.year <= 9999,
    ensures
        ({
            let s = stamp_of(m);
            let d = |i: int| s[i] as int - '0' as int;
            &&& s.len() == 15
            &&& 1000 * d(0) + 100 * d(1) + 10 * d(2) + d(3) == m.year
            &&& 10 * d(4) + d(5) == m.month
            &&& 10 * d(6) + d(7) == m.day
            &&& s[8] == '-'
            &&& 10 * d(9) + d(10) == m.hour
            &&& 10 * d(11) + d(12) == m.minute
            &&& 10 * d(13) + d(14) == m.second
        }),
{
    stamps_have_one_form(m);
    lemma_stamp_parts(m);
    let s = stamp_of(m);
    let y = year_text(m.year);
    assert(s.take(4)[0] == s[0] && s.take(4)[1] == s[1] && s.take(4)[2] == s[2] && s.take(4)[3]
        == s[3]);
    assert(y[0] == digit(m.year / 100 / 10) && y[1] == digit(m.year / 100 % 10) && y[2] == digit(
        m.year % 100 / 10,
    ) && y[3] == digit(m.year % 100 % 10));
    assert(two_digits(m.month)[0] == s[4] && two_digits(m.month)[1] == s[5]);
    assert(two_digits(m.day)[0] == s[6] && two_digits(m.day)[1] == s[7]);
    assert(two_digits(m.hour)[0] == s[9] && two_digits(m.hour)[1] == s[10]);
    assert(two_digits(m.minute)[0] == s[11] && two_digits(m.minute)[1] == s[12]);
    assert(two_digits(m.second)[0] == s[13] && two_digits(m.second)[1] == s[14]);
}

/// A log file's name has the stamp between the program's name and the ending.
pub proof fn log_files_are_named_after_the_program(dir: Seq<char>, stamp: Seq<char>)
    requires
        dir.len() > 0,
        dir.last() != '/',
    ensures
        stamped_path(dir, stamp) == dir + "/lamco-rdp-server-"@ + stamp + ".log"@,
{
    reveal_strlit("lamco-rdp-server-");
    reveal_strlit("/lamco-rdp-server-");
    reveal_strlit(".log");
    assert("lamco-rdp-server-"@[0] == 'l');
    assert("/lamco-rdp-server-"@ =~= seq!['/'] + "lamco-rdp-server-"@);
    assert(stamped_path(dir, stamp) =~= dir + "/lamco-rdp-server-"@ + stamp + ".log"@);
}

} // verus!
