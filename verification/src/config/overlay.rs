//! Environment variables that override settings of a configuration file.

use vstd::prelude::*;
use crate::text::{
    chars_of, decimal, first_occurrence, join, lemma_first_occurrence, lemma_join_first, occurs_at,
    occurs_in, same_text, split_on, split_text, starts_with, text_of, views,
};
use crate::unicode::{ascii_lower, lowercase, to_lower};

verus! {

/// A value of a configuration file.
#[verifier::external_type_specification]
#[verifier::external_body]
pub struct ExTomlValue(toml::Value);

/// A table of a configuration file.
#[verifier::external_type_specification]
#[verifier::external_body]
#[verifier::reject_recursive_types(K)]
#[verifier::reject_recursive_types(V)]
pub struct ExTomlMap<K, V>(toml::map::Map<K, V>);

/// Why a configuration file could not be read.
#[verifier::external_type_specification]
#[verifier::external_body]
pub struct ExTomlError(toml::de::Error);

/// What a value of a configuration file holds.
pub enum TomlModel {
    Text(Seq<char>),
    Integer(i64),
    /// The bits of a double-precision number; all that are not a number count as one.
    Float(u64),
    Boolean(bool),
    Table(Map<Seq<char>, TomlModel>),
    /// A date or a list.
    Other(toml::Value),
}

/// A table without entries.
pub open spec fn empty_table() -> Map<Seq<char>, TomlModel> {
    Map::empty()
}

/// What a table holds, by key.
pub uninterp spec fn table_model(t: toml::Table) -> Map<Seq<char>, TomlModel>;

/// What a value holds.
pub uninterp spec fn value_model(v: toml::Value) -> TomlModel;

/// `Table::new`: a table without entries.
#[verifier::external_body]
pub(crate) fn new_table() -> (r: toml::Table)
    ensures
        table_model(r) == empty_table(),
{
    toml::Table::new()
}

/// `Table::remove`: takes the entry for `key` out and returns its value.
#[verifier::external_body]
pub(crate) fn take_entry(t: &mut toml::Table, key: &str) -> (r: Option<toml::Value>)
    ensures
        table_model(*final(t)) == table_model(*old(t)).remove(key@),
        match r {
            Some(v) => table_model(*old(t)).contains_key(key@) && value_model(v) == table_model(
                *old(t),
            )[key@],
            None => !table_model(*old(t)).contains_key(key@),
        },
{
    t.remove(key)
}

/// `Table::insert`: sets the entry for `key`; the value that it had is dropped.
#[verifier::external_body]
pub(crate) fn put_entry(t: &mut toml::Table, key: String, value: toml::Value)
    ensures
        table_model(*final(t)) == table_model(*old(t)).insert(key@, value_model(value)),
{
    t.insert(key, value);
}

/// `Table::clone`: a table with the same entries.
#[verifier::external_body]
pub(crate) fn copy_table(t: &toml::Table) -> (r: toml::Table)
    ensures
        table_model(r) == table_model(*t),
{
    t.clone()
}

/// `Value::Table`: a table as a value.
#[verifier::external_body]
pub(crate) fn table_value(t: toml::Table) -> (r: toml::Value)
    ensures
        value_model(r) == TomlModel::Table(table_model(t)),
{
    toml::Value::Table(t)
}

/// The table in a value, or the value where it is no table.
#[verifier::external_body]
pub(crate) fn into_table(v: toml::Value) -> (r: Result<toml::Table, toml::Value>)
    ensures
        match r {
            Ok(t) => value_model(v) == TomlModel::Table(table_model(t)),
            Err(w) => w == v && !(value_model(v) is Table),
        },
{
    match v {
        toml::Value::Table(t) => Ok(t),
        other => Err(other),
    }
}

/// `Value::Boolean`.
#[verifier::external_body]
pub(crate) fn boolean_value(b: bool) -> (r: toml::Value)
    ensures
        value_model(r) == TomlModel::Boolean(b),
{
    toml::Value::Boolean(b)
}

/// `Value::Integer`.
#[verifier::external_body]
pub(crate) fn integer_value(i: i64) -> (r: toml::Value)
    ensures
        value_model(r) == TomlModel::Integer(i),
{
    toml::Value::Integer(i)
}

/// `Value::String`.
#[verifier::external_body]
pub(crate) fn text_value(s: String) -> (r: toml::Value)
    ensures
        value_model(r) == TomlModel::Text(s@),
{
    toml::Value::String(s)
}

/// A word in ASCII letters of either case.
pub open spec fn spells(s: Seq<char>, word: Seq<char>) -> bool {
    s.map_values(|c: char| ascii_lower(c)) == word
}

/// Digits with at most one point among them, and at least one digit.
pub open spec fn is_mantissa(s: Seq<char>) -> bool {
    ||| s.len() > 0 && all_digits(s)
    ||| s.len() > 1 && exists|i: int|
        0 <= i < s.len() && #[trigger] s[i] == '.' && all_digits(s.take(i)) && all_digits(
            s.skip(i + 1),
        )
}

/// The letter `e`, an optional sign and digits.
pub open spec fn is_exponent(s: Seq<char>) -> bool {
    &&& s.len() > 1
    &&& s[0] == 'e' || s[0] == 'E'
    &&& unsigned_part(s.drop_first()).len() > 0
    &&& all_digits(unsigned_part(s.drop_first()))
}

/// A text that writes a floating-point number.
pub open spec fn is_float(s: Seq<char>) -> bool {
    let u = unsigned_part(s);
    ||| spells(u, "inf"@)
    ||| spells(u, "infinity"@)
    ||| spells(u, "nan"@)
    ||| exists|i: int|
        0 <= i <= u.len() && is_mantissa(#[trigger] u.take(i)) && (i == u.len() || is_exponent(
            u.skip(i),
        ))
}

/// The bits of the double-precision number that a text writes; all that are not a
/// number count as one.
pub uninterp spec fn float_text(s: Seq<char>) -> Option<u64>;

/// `str::parse` for a double-precision number, as a value: a function of the
/// text alone, which gives a number exactly for the texts that write one.
#[verifier::external_body]
pub(crate) fn float_value(s: &str) -> (r: Option<toml::Value>)
    ensures
        match r {
            Some(v) => float_text(s@) is Some && value_model(v) == TomlModel::Float(
                float_text(s@)->0,
            ),
            None => float_text(s@) is None,
        },
        r is Some <==> is_float(s@),
{
    s.parse().map(toml::Value::Float).ok()
}

/// What the text of a configuration file holds, if it is one.
pub uninterp spec fn toml_document(text: Seq<char>) -> Option<Map<Seq<char>, TomlModel>>;

/// `str::parse` for a table: a function of the text alone.
#[verifier::external_body]
pub(crate) fn parse_table(text: &str) -> (r: Result<toml::Table, toml::de::Error>)
    ensures
        match r {
            Ok(t) => toml_document(text@) == Some(table_model(t)),
            Err(_) => toml_document(text@) is None,
        },
{
    text.parse()
}

/// The number that decimal digits write.
pub open spec fn digits_value(s: Seq<char>) -> int
    decreases s.len(),
{
    if s.len() == 0 {
        0
    } else {
        10 * digits_value(s.drop_last()) + (s.last() as u32 - 48)
    }
}

/// A text of decimal digits.
pub open spec fn all_digits(s: Seq<char>) -> bool {
    forall|i: int| 0 <= i < s.len() ==> '0' <= #[trigger] s[i] <= '9'
}

/// The digits of a number, without the sign that may stand before them.
pub open spec fn unsigned_part(s: Seq<char>) -> Seq<char> {
    if s.len() > 0 && (s[0] == '+' || s[0] == '-') {
        s.drop_first()
    } else {
        s
    }
}

/// The 64-bit number that a text writes: an optional sign and decimal digits.
pub open spec fn integer_text(s: Seq<char>) -> Option<i64> {
    let digits = unsigned_part(s);
    let n = if s.len() > 0 && s[0] == '-' {
        -digits_value(digits)
    } else {
        digits_value(digits)
    };
    if digits.len() > 0 && all_digits(digits) && i64::MIN <= n <= i64::MAX {
        Some(n as i64)
    } else {
        None
    }
}

/// The value that the text of a variable stands for: a truth value, else a whole
/// number, else a floating-point number, else the text.
pub open spec fn inferred(s: Seq<char>) -> TomlModel {
    if s == "true"@ {
        TomlModel::Boolean(true)
    } else if s == "false"@ {
        TomlModel::Boolean(false)
    } else if integer_text(s) is Some {
        TomlModel::Integer(integer_text(s)->0)
    } else if float_text(s) is Some {
        TomlModel::Float(float_text(s)->0)
    } else {
        TomlModel::Text(s)
    }
}

pub proof fn lemma_digits_grow(s: Seq<char>, n: int)
    requires
        all_digits(s),
        0 <= n <= s.len(),
    ensures
        0 <= digits_value(s.take(n)) <= digits_value(s),
    decreases s.len(),
{
    if s.len() == 0 {
        assert(s.take(n) =~= s);
    } else if n == s.len() {
        assert(s.take(n) =~= s);
        lemma_digits_grow(s.drop_last(), 0);
        assert(s.drop_last().take(0) =~= Seq::empty());
        assert('0' <= s[s.len() - 1] <= '9');
    } else {
        lemma_digits_grow(s.drop_last(), n);
        assert(s.drop_last().take(n) =~= s.take(n));
        assert('0' <= s[s.len() - 1] <= '9');
    }
}

/// The 64-bit number that `s` writes.
pub fn parse_integer(s: &str) -> (r: Option<i64>)
    ensures
        r == integer_text(s@),
{
    let a = chars_of(s);
    let negative: bool = a.len() > 0 && a[0] == '-';
    let start: usize = if a.len() > 0 && (a[0] == '+' || a[0] == '-') {
        1
    } else {
        0
    };
    let ghost digits = unsigned_part(s@);
    assert(digits =~= a@.skip(start as int));
    if start == a.len() {
        return None;
    }
    let mut n: u64 = 0;
    let mut i: usize = start;
    while i < a.len()
        invariant
            start <= i <= a.len(),
            start < a.len(),
            a@ == s@,
            digits == unsigned_part(s@),
            digits == a@.skip(start as int),
            negative == (s@.len() > 0 && s@[0] == '-'),
            n <= 0x8000_0000_0000_0000,
            n == digits_value(digits.take(i - start)),
            forall|k: int| 0 <= k < i - start ==> '0' <= #[trigger] digits[k] <= '9',
        decreases a.len() - i,
    {
        let c: char = a[i];
        let ghost at = i - start;
        assert(digits[at] == c);
        if c < '0' || c > '9' {
            assert(!all_digits(digits));
            return None;
        }
        let d: u64 = c as u64 - 48;
        proof {
            assert(digits.take(at + 1).drop_last() =~= digits.take(at));
            assert(digits_value(digits.take(at + 1)) == 10 * n + d);
        }
        if n > (0x8000_0000_0000_0000 - d) / 10 {
            proof {
                assert(10 * n + d > 0x8000_0000_0000_0000);
                if all_digits(digits) {
                    lemma_digits_grow(digits, at + 1);
                }
            }
            return None;
        }
        n = 10 * n + d;
        i += 1;
    }
    assert(digits.take(i - start) =~= digits);
    if negative {
        if n == 0x8000_0000_0000_0000 {
            Some(i64::MIN)
        } else {
            Some(-(n as i64))
        }
    } else if n <= 0x7fff_ffff_ffff_ffff {
        Some(n as i64)
    } else {
        None
    }
}

/// The value that the text of an environment variable stands for.
pub fn infer_toml_value(s: &str) -> (r: toml::Value)
    ensures
        value_model(r) == inferred(s@),
{
    if same_text(s, "true") {
        return boolean_value(true);
    }
    if same_text(s, "false") {
        assert("true"@ != "false"@) by {
            reveal_strlit("true");
            reveal_strlit("false");
        }
        return boolean_value(false);
    }
    if let Some(i) = parse_integer(s) {
        return integer_value(i);
    }
    if let Some(v) = float_value(s) {
        return v;
    }
    text_value(s.to_owned())
}

/// The table below `key`: an empty one where there is none yet, nothing where
/// another value is in the way.
pub open spec fn subtable(m: Map<Seq<char>, TomlModel>, key: Seq<char>) -> Option<
    Map<Seq<char>, TomlModel>,
> {
    if !m.contains_key(key) {
        Some(Map::empty())
    } else {
        match m[key] {
            TomlModel::Table(t) => Some(t),
            _ => None,
        }
    }
}

/// `m` with the value at `path` set to `v`, or nothing where a value that is no
/// table is in the way.
pub open spec fn set_path(
    m: Map<Seq<char>, TomlModel>,
    path: Seq<Seq<char>>,
    v: TomlModel,
) -> Option<Map<Seq<char>, TomlModel>>
    decreases path.len(),
{
    if path.len() == 0 {
        None
    } else if path.len() == 1 {
        Some(m.insert(path[0], v))
    } else {
        match subtable(m, path[0]) {
            None => None,
            Some(t) => match set_path(t, path.drop_first(), v) {
                None => None,
                Some(u) => Some(m.insert(path[0], TomlModel::Table(u))),
            },
        }
    }
}

/// The value at `path`, if there is one.
pub open spec fn get_path(m: Map<Seq<char>, TomlModel>, path: Seq<Seq<char>>) -> Option<TomlModel>
    decreases path.len(),
{
    if path.len() == 0 || !m.contains_key(path[0]) {
        None
    } else if path.len() == 1 {
        Some(m[path[0]])
    } else {
        match m[path[0]] {
            TomlModel::Table(t) => get_path(t, path.drop_first()),
            _ => None,
        }
    }
}

fn set_in_table(t: &mut toml::Table, path: &[String], value: toml::Value) -> (r: bool)
    requires
        path@.len() > 0,
    ensures
        r == (set_path(table_model(*old(t)), views(path@), value_model(value)) is Some),
        r ==> Some(table_model(*final(t))) == set_path(
            table_model(*old(t)),
            views(path@),
            value_model(value),
        ),
    decreases path@.len(),
{
    let ghost m = table_model(*t);
    let ghost p = views(path@);
    let key = path[0].clone();
    assert(p[0] == key@);
    if path.len() == 1 {
        put_entry(t, key, value);
        return true;
    }
    let rest = &path[1..path.len()];
    assert(views(rest@) =~= p.drop_first());
    let mut sub = match take_entry(t, key.as_str()) {
        None => new_table(),
        Some(v) => match into_table(v) {
            Ok(s) => s,
            Err(_) => {
                return false;
            },
        },
    };
    assert(subtable(m, p[0]) == Some(table_model(sub)));
    if !set_in_table(&mut sub, rest, value) {
        return false;
    }
    put_entry(t, key, table_value(sub));
    assert(m.remove(p[0]).insert(p[0], TomlModel::Table(table_model(sub))) =~= m.insert(
        p[0],
        TomlModel::Table(table_model(sub)),
    ));
    true
}

/// An environment variable.
pub struct EnvVar {
    pub key: String,
    pub value: String,
}

/// A variable that overrides a setting.
pub open spec fn is_override(key: Seq<char>) -> bool {
    "LAMCO_"@.is_prefix_of(key)
}

/// The path of the setting that a variable overrides: what follows the prefix,
/// split at double underscores, in lower case.
pub open spec fn override_path(key: Seq<char>) -> Seq<Seq<char>> {
    split_on(key.skip(6), "__"@).map_values(|part: Seq<char>| lowercase(part))
}

/// The keys of the variables that override a setting, in order.
pub open spec fn override_keys(vars: Seq<EnvVar>) -> Seq<Seq<char>>
    decreases vars.len(),
{
    if vars.len() == 0 {
        Seq::empty()
    } else if is_override(vars.last().key@) {
        override_keys(vars.drop_last()).push(vars.last().key@)
    } else {
        override_keys(vars.drop_last())
    }
}

/// `m` with the variables applied in order, or nothing where one of them meets a
/// value that is no table.
pub open spec fn overlaid(m: Map<Seq<char>, TomlModel>, vars: Seq<EnvVar>) -> Option<
    Map<Seq<char>, TomlModel>,
>
    decreases vars.len(),
{
    if vars.len() == 0 {
        Some(m)
    } else {
        match overlaid(m, vars.drop_last()) {
            None => None,
            Some(before) => if is_override(vars.last().key@) {
                set_path(before, override_path(vars.last().key@), inferred(vars.last().value@))
            } else {
                Some(before)
            },
        }
    }
}

fn path_of(key: &str) -> (r: Vec<String>)
    requires
        is_override(key@),
    ensures
        views(r@) == override_path(key@),
        r@.len() > 0,
{
    let a = chars_of(key);
    proof {
        reveal_strlit("LAMCO_");
        reveal_strlit("__");
    }
    let suffix = text_of(&a[6..a.len()]);
    assert(suffix@ =~= key@.skip(6));
    let parts = split_text(suffix.as_str(), "__");
    let mut r: Vec<String> = Vec::new();
    let mut i: usize = 0;
    let ghost want = override_path(key@);
    assert(want.len() == parts@.len());
    while i < parts.len()
        invariant
            i <= parts.len(),
            want == views(parts@).map_values(|part: Seq<char>| lowercase(part)),
            views(r@) == want.take(i as int),
        decreases parts.len() - i,
    {
        let ghost before = views(r@);
        let p = to_lower(parts[i].as_str());
        r.push(p);
        i += 1;
        assert(views(r@) =~= before.push(p@));
        assert(views(r@) =~= want.take(i as int));
    }
    assert(views(r@) =~= want);
    assert(r@.len() == views(r@).len());
    r
}

proof fn lemma_overlaid_none(m: Map<Seq<char>, TomlModel>, vars: Seq<EnvVar>, n: int)
    requires
        0 <= n <= vars.len(),
        overlaid(m, vars.take(n)) is None,
    ensures
        overlaid(m, vars) is None,
    decreases vars.len() - n,
{
    if n < vars.len() {
        assert(vars.take(n + 1).drop_last() =~= vars.take(n));
        lemma_overlaid_none(m, vars, n + 1);
    } else {
        assert(vars.take(n) =~= vars);
    }
}

/// Applies the variables that override settings to the table of a configuration
/// file. Returns their keys, or the key of the first that meets a value which is
/// no table.
pub fn apply_env_overrides(table: &mut toml::Table, vars: &[EnvVar]) -> (r: Result<
    Vec<String>,
    String,
>)
    ensures
        match r {
            Ok(keys) => {
                &&& overlaid(table_model(*old(table)), vars@) == Some(table_model(*final(table)))
                &&& views(keys@) == override_keys(vars@)
            },
            Err(key) => overlaid(table_model(*old(table)), vars@) is None && exists|i: int|
                0 <= i < vars@.len() && (#[trigger] vars@[i]).key@ == key@ && overlaid(
                    table_model(*old(table)),
                    vars@.take(i),
                ) is Some && overlaid(table_model(*old(table)), vars@.take(i + 1)) is None,
        },
{
    let ghost m = table_model(*table);
    let mut keys: Vec<String> = Vec::new();
    let mut i: usize = 0;
    assert(vars@.take(0) =~= Seq::empty());
    assert(views(keys@) =~= Seq::empty());
    while i < vars.len()
        invariant
            i <= vars.len(),
            m == table_model(*old(table)),
            overlaid(m, vars@.take(i as int)) == Some(table_model(*table)),
            views(keys@) == override_keys(vars@.take(i as int)),
        decreases vars.len() - i,
    {
        let ghost t = vars@.take(i + 1);
        let ghost before = views(keys@);
        proof {
            assert(t.drop_last() =~= vars@.take(i as int));
            assert(t.last() == vars@[i as int]);
        }
        if starts_with(vars[i].key.as_str(), "LAMCO_") {
            let path = path_of(vars[i].key.as_str());
            let value = infer_toml_value(vars[i].value.as_str());
            if !set_in_table(table, &path, value) {
                proof {
                    assert(overlaid(m, t) is None);
                    lemma_overlaid_none(m, vars@, i + 1);
                }
                return Err(vars[i].key.clone());
            }
            keys.push(vars[i].key.clone());
            assert(views(keys@) =~= before.push(vars@[i as int].key@));
        }
        i += 1;
    }
    assert(vars@.take(i as int) =~= vars@);
    Ok(keys)
}

/// What a variable sets is what is read at its path afterwards.
pub proof fn override_wins(m: Map<Seq<char>, TomlModel>, path: Seq<Seq<char>>, v: TomlModel)
    ensures
        set_path(m, path, v) matches Some(n) ==> get_path(n, path) == Some(v),
    decreases path.len(),
{
    if path.len() > 1 {
        if let Some(t) = subtable(m, path[0]) {
            override_wins(t, path.drop_first(), v);
        }
    }
}

/// Two paths part before either ends: neither leads through the other.
pub open spec fn paths_part(p: Seq<Seq<char>>, q: Seq<Seq<char>>) -> bool {
    exists|i: int| 0 <= i < p.len() && i < q.len() && #[trigger] p[i] != q[i]
}

/// What a variable sets leaves every setting alone whose path parts from its
/// own.
pub proof fn override_leaves_the_rest(
    m: Map<Seq<char>, TomlModel>,
    path: Seq<Seq<char>>,
    v: TomlModel,
    other: Seq<Seq<char>>,
)
    requires
        paths_part(path, other),
    ensures
        set_path(m, path, v) matches Some(n) ==> get_path(n, other) == get_path(m, other),
    decreases path.len(),
{
    if set_path(m, path, v) is Some {
        let i = choose|i: int| 0 <= i < path.len() && i < other.len() && #[trigger] path[i]
            != other[i];
        if path[0] == other[0] {
            assert(i > 0);
            assert(path.len() > 1 && other.len() > 1);
            let p = path.drop_first();
            let q = other.drop_first();
            assert(p[i - 1] != q[i - 1]);
            let t = subtable(m, path[0])->0;
            override_leaves_the_rest(t, p, v, q);
            if !m.contains_key(path[0]) {
                lemma_get_empty(q);
            }
        }
    }
}

/// The environment wins over the configuration file: what the last variable says is
/// what is read at its path.
pub proof fn last_variable_wins(m: Map<Seq<char>, TomlModel>, vars: Seq<EnvVar>)
    requires
        vars.len() > 0,
        is_override(vars.last().key@),
    ensures
        overlaid(m, vars) matches Some(n) ==> get_path(n, override_path(vars.last().key@)) == Some(
            inferred(vars.last().value@),
        ),
{
    if let Some(before) = overlaid(m, vars.drop_last()) {
        override_wins(before, override_path(vars.last().key@), inferred(vars.last().value@));
    }
}

/// A setting that no variable leads to or through is read as the configuration file
/// has it.
pub proof fn file_holds_elsewhere(
    m: Map<Seq<char>, TomlModel>,
    vars: Seq<EnvVar>,
    other: Seq<Seq<char>>,
)
    requires
        forall|i: int|
            0 <= i < vars.len() && is_override((#[trigger] vars[i]).key@) ==> paths_part(
                override_path(vars[i].key@),
                other,
            ),
    ensures
        overlaid(m, vars) matches Some(n) ==> get_path(n, other) == get_path(m, other),
    decreases vars.len(),
{
    if vars.len() > 0 {
        let rest = vars.drop_last();
        assert forall|i: int| 0 <= i < rest.len() && is_override((#[trigger] rest[i]).key@) implies
            paths_part(override_path(rest[i].key@), other) by {
            assert(rest[i] == vars[i]);
        }
        file_holds_elsewhere(m, rest, other);
        let last = vars.last();
        assert(last == vars[vars.len() - 1]);
        if let Some(before) = overlaid(m, rest) {
            if is_override(last.key@) {
                override_leaves_the_rest(
                    before,
                    override_path(last.key@),
                    inferred(last.value@),
                    other,
                );
            }
        }
    }
}

proof fn lemma_get_empty(path: Seq<Seq<char>>)
    ensures
        get_path(Map::empty(), path) is None,
{
}

pub proof fn lemma_decimal_digits(n: nat)
    ensures
        all_digits(decimal(n)),
        decimal(n).len() > 0,
        digits_value(decimal(n)) == n,
        n > 0 ==> decimal(n)[0] != '0',
    decreases n,
{
    if n >= 10 {
        lemma_decimal_digits(n / 10);
        let d = decimal(n);
        assert(d.drop_last() =~= decimal(n / 10));
        assert(d[0] == decimal(n / 10)[0]);
        assert forall|i: int| 0 <= i < d.len() implies '0' <= #[trigger] d[i] <= '9' by {
            if i < d.len() - 1 {
                assert(d[i] == decimal(n / 10)[i]);
            }
        }
    } else {
        let d = decimal(n);
        assert(d.drop_last() =~= Seq::empty());
        assert(digits_value(d) == 10 * digits_value(d.drop_last()) + (d.last() as u32 - 48));
    }
}

/// A whole number is written in decimal digits without a leading zero, and is read back
/// from them, with a minus sign before them as the negative number.
pub proof fn numbers_read_back(n: nat)
    ensures
        n <= i64::MAX ==> integer_text(decimal(n)) == Some(n as i64),
        n <= i64::MAX ==> integer_text(seq!['+'] + decimal(n)) == Some(n as i64),
        n <= -(i64::MIN as int) ==> integer_text(seq!['-'] + decimal(n)) == Some((-n) as i64),
        n > i64::MAX ==> integer_text(decimal(n)) is None,
        n > 0 ==> decimal(n)[0] != '0',
{
    lemma_decimal_digits(n);
    let d = decimal(n);
    assert('0' <= d[0] <= '9');
    assert((seq!['-'] + d).drop_first() =~= d);
    assert((seq!['+'] + d).drop_first() =~= d);
}

/// Different numbers are written differently.
pub proof fn numbers_are_told_apart(a: nat, b: nat)
    requires
        decimal(a) == decimal(b),
    ensures
        a == b,
{
    lemma_decimal_digits(a);
    lemma_decimal_digits(b);
}

/// A variable stands for a truth value exactly where it spells one, for a whole number
/// where it writes one, and for itself where it writes no number at all.
pub proof fn variables_mean_what_they_write(s: Seq<char>, n: nat)
    ensures
        inferred(s) == TomlModel::Boolean(true) <==> s == "true"@,
        inferred(s) == TomlModel::Boolean(false) <==> s == "false"@,
        n <= i64::MAX ==> inferred(decimal(n)) == TomlModel::Integer(n as i64),
        n <= -(i64::MIN as int) ==> inferred(seq!['-'] + decimal(n)) == TomlModel::Integer(
            (-n) as i64,
        ),
        s != "true"@ && s != "false"@ && integer_text(s) is None && float_text(s) is None
            ==> inferred(s) == TomlModel::Text(s),
        inferred(s) matches TomlModel::Text(t) ==> t == s,
        inferred(s) matches TomlModel::Float(f) ==> float_text(s) == Some(f),
        integer_text(s) matches Some(i) ==> inferred(s) == TomlModel::Integer(i),
{
    reveal_strlit("true");
    reveal_strlit("false");
    assert("true"@[0] == 't' && "false"@[0] == 'f');
    numbers_read_back(n);
    lemma_decimal_digits(n);
    assert('0' <= decimal(n)[0] <= '9');
    assert((seq!['-'] + decimal(n))[0] == '-');
    if s == "true"@ || s == "false"@ {
        assert(unsigned_part(s) == s);
        assert(!all_digits(s)) by {
            assert(!('0' <= s[0] <= '9'));
        }
    }
}

/// A variable overrides a setting exactly where its name begins with `LAMCO_`; what
/// follows are the parts of the path, with two underscores between each two, in
/// whatever case.
pub proof fn names_of_variables_are_paths(key: Seq<char>, parts: Seq<Seq<char>>)
    requires
        parts.len() > 0,
        forall|i: int|
            0 <= i < parts.len() ==> !occurs_in(#[trigger] parts[i], "__"@) && (parts[i].len() > 0
                ==> parts[i].last() != '_'),
        key == "LAMCO_"@ + join(parts, "__"@),
    ensures
        is_override(key),
        override_path(key).len() == parts.len(),
        forall|i: int|
            0 <= i < parts.len() ==> #[trigger] override_path(key)[i] == lowercase(parts[i]),
{
    reveal_strlit("LAMCO_");
    reveal_strlit("__");
    assert(key.skip(6) =~= join(parts, "__"@));
    assert(key.subrange(0, 6) =~= "LAMCO_"@);
    lemma_split_underscores(parts);
}

/// A variable of any other name overrides nothing.
pub proof fn other_variables_override_nothing(key: Seq<char>)
    ensures
        is_override(key) <==> key.len() >= 6 && key[0] == 'L' && key[1] == 'A' && key[2] == 'M'
            && key[3] == 'C' && key[4] == 'O' && key[5] == '_',
{
    reveal_strlit("LAMCO_");
    let p = "LAMCO_"@;
    if key.len() >= 6 {
        let k = key.subrange(0, 6);
        assert(k[0] == key[0] && k[1] == key[1] && k[2] == key[2] && k[3] == key[3] && k[4] == key[4]
            && k[5] == key[5]);
        if key[0] == 'L' && key[1] == 'A' && key[2] == 'M' && key[3] == 'C' && key[4] == 'O' && key[5]
            == '_' {
            assert(k =~= p);
        }
    }
}

proof fn lemma_split_underscores(parts: Seq<Seq<char>>)
    requires
        parts.len() > 0,
        forall|i: int|
            0 <= i < parts.len() ==> !occurs_in(#[trigger] parts[i], "__"@) && (parts[i].len() > 0
                ==> parts[i].last() != '_'),
    ensures
        split_on(join(parts, "__"@), "__"@) == parts,
    decreases parts.len(),
{
    reveal_strlit("__");
    let sep = "__"@;
    let s = join(parts, sep);
    assert(!occurs_in(parts[0], sep));
    if parts.len() == 1 {
        lemma_first_occurrence(s, sep);
        assert(first_occurrence(s, sep) < 0) by {
            if first_occurrence(s, sep) >= 0 {
                assert(occurs_in(s, sep));
            }
        }
        assert(parts =~= seq![s]);
    } else {
        let rest = parts.drop_first();
        let first = parts[0];
        let at = first.len() as int;
        lemma_join_first(parts, sep);
        assert(s.subrange(at, at + 2) =~= sep);
        assert forall|k: int| 0 <= k < at implies !#[trigger] occurs_at(s, sep, k) by {
            if occurs_at(s, sep, k) {
                assert(s.subrange(k, k + 2)[0] == '_');
                assert(s.subrange(k, k + 2)[1] == '_');
                assert(first[k] == '_');
                if k + 1 < at {
                    assert(first.subrange(k, k + 2) =~= sep);
                    assert(occurs_at(first, sep, k));
                }
            }
        }
        lemma_first_occurrence(s, sep);
        assert(occurs_at(s, sep, at));
        assert(first_occurrence(s, sep) == at);
        assert(s.take(at) =~= first);
        assert(s.skip(at + 2) =~= join(rest, sep));
        assert forall|i: int| 0 <= i < rest.len() implies !occurs_in(#[trigger] rest[i], sep) && (
        rest[i].len() > 0 ==> rest[i].last() != '_') by {
            assert(rest[i] == parts[i + 1]);
        }
        lemma_split_underscores(rest);
        assert(parts =~= seq![first] + rest);
    }
}

/// A setting can be made exactly where no value that is no table stands on the way to
/// it.
pub proof fn only_values_on_the_way_conflict(
    m: Map<Seq<char>, TomlModel>,
    path: Seq<Seq<char>>,
    v: TomlModel,
)
    requires
        path.len() > 0,
    ensures
        set_path(m, path, v) is None <==> exists|j: int|
            0 < j < path.len() && (#[trigger] get_path(m, path.take(j)) matches Some(x) && !(x
                is Table)),
    decreases path.len(),
{
    if path.len() > 1 {
        let first = path[0];
        let rest = path.drop_first();
        assert(path.take(1)[0] == first);
        if m.contains_key(first) && !(m[first] is Table) {
            assert(get_path(m, path.take(1)) == Some(m[first]));
        } else {
            let t = subtable(m, first)->0;
            only_values_on_the_way_conflict(t, rest, v);
            assert forall|j: int| 1 < j < path.len() implies #[trigger] get_path(m, path.take(j))
                == get_path(t, rest.take(j - 1)) by {
                assert(path.take(j)[0] == first);
                assert(path.take(j).drop_first() =~= rest.take(j - 1));
                if !m.contains_key(first) {
                    lemma_get_empty(rest.take(j - 1));
                }
            }
            if set_path(t, rest, v) is None {
                let j = choose|j: int|
                    0 < j < rest.len() && (#[trigger] get_path(t, rest.take(j)) matches Some(x) && !(
                    x is Table));
                assert(get_path(m, path.take(j + 1)) == get_path(t, rest.take(j)));
            }
            if exists|j: int|
                0 < j < path.len() && (#[trigger] get_path(m, path.take(j)) matches Some(x) && !(x
                    is Table)) {
                let j = choose|j: int|
                    0 < j < path.len() && (#[trigger] get_path(m, path.take(j)) matches Some(x) && !(
                    x is Table));
                if j == 1 {
                    assert(get_path(m, path.take(1)) == (if m.contains_key(first) {
                        Some(m[first])
                    } else {
                        None
                    }));
                } else {
                    assert(get_path(t, rest.take(j - 1)) == get_path(m, path.take(j)));
                }
            }
        }
    }
}

/// Variables are applied one after the other, those of other names change nothing, and
/// the keys of the others are kept in order.
pub proof fn variables_are_applied_in_order(
    m: Map<Seq<char>, TomlModel>,
    vars: Seq<EnvVar>,
    more: EnvVar,
)
    ensures
        overlaid(m, Seq::empty()) == Some(m),
        override_keys(Seq::empty()).len() == 0,
        !("LAMCO_"@.is_prefix_of(more.key@)) ==> overlaid(m, vars.push(more)) == overlaid(m, vars)
            && override_keys(vars.push(more)) == override_keys(vars),
        "LAMCO_"@.is_prefix_of(more.key@) ==> override_keys(vars.push(more)) == override_keys(
            vars,
        ).push(more.key@),
        "LAMCO_"@.is_prefix_of(more.key@) ==> overlaid(m, vars.push(more)) == (match overlaid(
            m,
            vars,
        ) {
            Some(n) => set_path(n, override_path(more.key@), inferred(more.value@)),
            None => None,
        }),
{
    assert(vars.push(more).drop_last() =~= vars);
}

} // verus!
