//! Configuration documents (TOML values) as plain values, with the equality that
//! configuration layers are compared by.

use vstd::prelude::*;

verus! {

/// A configuration value. A float is held by its IEEE-754 bits; a date-time by its text.
pub enum ConfigValue {
    String(String),
    Integer(i64),
    Float(u64),
    Boolean(bool),
    Datetime(String),
    Array(Vec<ConfigValue>),
    /// A table: its entries, no key twice.
    Table(Vec<(String, ConfigValue)>),
}

/// The bits of a NaN: all exponent bits set and a non-zero fraction.
pub open spec fn float_bits_nan(b: u64) -> bool {
    (b >> 52u64) & 0x7ffu64 == 0x7ffu64 && b & 0xf_ffff_ffff_ffffu64 != 0
}

/// `f64` equality on bits: no NaN equals anything, the two zeros are equal, and
/// otherwise the bits must agree.
pub open spec fn float_bits_eq(a: u64, b: u64) -> bool {
    !float_bits_nan(a) && !float_bits_nan(b) && (a == b || (a & 0x7fff_ffff_ffff_ffffu64 == 0 && b & 0x7fff_ffff_ffff_ffffu64 == 0))
}

/// Equality of configuration values: scalars by value, arrays element by element,
/// tables as maps (the same number of entries, each key of one holding an equal value
/// in the other).
pub open spec fn config_eq(a: ConfigValue, b: ConfigValue) -> bool
    decreases a, 1nat,
{
    match (a, b) {
        (ConfigValue::String(x), ConfigValue::String(y)) => x@ == y@,
        (ConfigValue::Integer(x), ConfigValue::Integer(y)) => x == y,
        (ConfigValue::Float(x), ConfigValue::Float(y)) => float_bits_eq(x, y),
        (ConfigValue::Boolean(x), ConfigValue::Boolean(y)) => x == y,
        (ConfigValue::Datetime(x), ConfigValue::Datetime(y)) => x@ == y@,
        (ConfigValue::Array(x), ConfigValue::Array(y)) => x@.len() == y@.len() && arrays_eq(x@, y@),
        (ConfigValue::Table(x), ConfigValue::Table(y)) => x@.len() == y@.len() && table_within(x@, y@),
        _ => false,
    }
}

/// Element-wise equality of two sequences of the same length.
pub open spec fn arrays_eq(x: Seq<ConfigValue>, y: Seq<ConfigValue>) -> bool
    decreases x, 0nat,
{
    if x.len() == 0 || x.len() != y.len() {
        x.len() == y.len()
    } else {
        arrays_eq(x.subrange(0, x.len() - 1), y.subrange(0, y.len() - 1)) && config_eq(x[x.len() - 1], y[y.len() - 1])
    }
}

/// The value of the first entry with key `key`.
pub open spec fn table_get(entries: Seq<(String, ConfigValue)>, key: Seq<char>) -> Option<ConfigValue>
    decreases entries.len(),
{
    if entries.len() == 0 {
        None
    } else if entries[0].0@ == key {
        Some(entries[0].1)
    } else {
        table_get(entries.drop_first(), key)
    }
}

/// Every key of `x` holds, in `y`, a value equal to its own.
pub open spec fn table_within(x: Seq<(String, ConfigValue)>, y: Seq<(String, ConfigValue)>) -> bool
    decreases x, 0nat,
{
    if x.len() == 0 {
        true
    } else {
        table_within(x.subrange(0, x.len() - 1), y) && match table_get(y, x[x.len() - 1].0@) {
            Some(v) => config_eq(x[x.len() - 1].1, v),
            None => false,
        }
    }
}

/// `value.get(key)`: the member `key` of a table, `None` for any other value.
pub open spec fn config_get(v: ConfigValue, key: Seq<char>) -> Option<ConfigValue> {
    match v {
        ConfigValue::Table(entries) => table_get(entries@, key),
        _ => None,
    }
}

fn float_eq(a: u64, b: u64) -> (r: bool)
    ensures
        r == float_bits_eq(a, b),
{
    let a_nan = (a >> 52u64) & 0x7ffu64 == 0x7ffu64 && a & 0xf_ffff_ffff_ffffu64 != 0;
    let b_nan = (b >> 52u64) & 0x7ffu64 == 0x7ffu64 && b & 0xf_ffff_ffff_ffffu64 != 0;
    !a_nan && !b_nan && (a == b || (a & 0x7fff_ffff_ffff_ffffu64 == 0 && b & 0x7fff_ffff_ffff_ffffu64 == 0))
}

/// The value of the first entry with key `key`.
pub fn table_lookup<'a>(entries: &'a Vec<(String, ConfigValue)>, key: &str) -> (r: Option<&'a ConfigValue>)
    ensures
        match r {
            Some(v) => table_get(entries@, key@) == Some(*v),
            None => table_get(entries@, key@) is None,
        },
{
    let n = entries.len();
    let mut i: usize = 0;
    assert(entries@.subrange(0, n as int) =~= entries@);
    while i < n
        invariant
            n == entries@.len(),
            i <= n,
            table_get(entries@, key@) == table_get(entries@.subrange(i as int, n as int), key@),
        decreases n - i,
    {
        let ghost rest = entries@.subrange(i as int, n as int);
        assert(rest[0] == entries@[i as int]);
        if crate::text::str_eq(entries[i].0.as_str(), key) {
            return Some(&entries[i].1);
        }
        assert(rest.drop_first() =~= entries@.subrange(i + 1, n as int));
        i = i + 1;
    }
    assert(entries@.subrange(n as int, n as int).len() == 0);
    None
}

/// `value.get(key)`, as [`config_get`] describes.
pub fn config_member<'a>(v: &'a ConfigValue, key: &str) -> (r: Option<&'a ConfigValue>)
    ensures
        match r {
            Some(m) => config_get(*v, key@) == Some(*m),
            None => config_get(*v, key@) is None,
        },
{
    match v {
        ConfigValue::Table(entries) => table_lookup(entries, key),
        _ => None,
    }
}

/// Decides [`config_eq`].
pub fn config_values_equal(a: &ConfigValue, b: &ConfigValue) -> (r: bool)
    ensures
        r == config_eq(*a, *b),
    decreases *a, 1nat,
{
    match (a, b) {
        (ConfigValue::String(x), ConfigValue::String(y)) => crate::text::str_eq(x.as_str(), y.as_str()),
        (ConfigValue::Integer(x), ConfigValue::Integer(y)) => *x == *y,
        (ConfigValue::Float(x), ConfigValue::Float(y)) => float_eq(*x, *y),
        (ConfigValue::Boolean(x), ConfigValue::Boolean(y)) => *x == *y,
        (ConfigValue::Datetime(x), ConfigValue::Datetime(y)) => crate::text::str_eq(x.as_str(), y.as_str()),
        (ConfigValue::Array(x), ConfigValue::Array(y)) => {
            if x.len() != y.len() {
                return false;
            }
            assert(x@.subrange(0, x@.len() as int) =~= x@);
            assert(y@.subrange(0, y@.len() as int) =~= y@);
            arrays_equal(x, y, x.len())
        },
        (ConfigValue::Table(x), ConfigValue::Table(y)) => {
            if x.len() != y.len() {
                return false;
            }
            assert(x@.subrange(0, x@.len() as int) =~= x@);
            table_within_check(x, y, x.len())
        },
        _ => false,
    }
}

/// Decides [`arrays_eq`] on the first `n` elements of each.
fn arrays_equal(x: &Vec<ConfigValue>, y: &Vec<ConfigValue>, n: usize) -> (r: bool)
    requires
        n <= x@.len(),
        n <= y@.len(),
    ensures
        r == arrays_eq(x@.subrange(0, n as int), y@.subrange(0, n as int)),
    decreases x@, 0nat, n,
{
    let ghost xs = x@.subrange(0, n as int);
    let ghost ys = y@.subrange(0, n as int);
    if n == 0 {
        return true;
    }
    assert(xs.subrange(0, n - 1) =~= x@.subrange(0, n - 1));
    assert(ys.subrange(0, n - 1) =~= y@.subrange(0, n - 1));
    if !arrays_equal(x, y, n - 1) {
        return false;
    }
    proof {
        assert(decreases_to!(x@ => x@[n - 1]));
    }
    config_values_equal(&x[n - 1], &y[n - 1])
}

/// Decides [`table_within`] for the first `n` entries of `x`.
fn table_within_check(x: &Vec<(String, ConfigValue)>, y: &Vec<(String, ConfigValue)>, n: usize) -> (r: bool)
    requires
        n <= x@.len(),
    ensures
        r == table_within(x@.subrange(0, n as int), y@),
    decreases x@, 0nat, n,
{
    let ghost xs = x@.subrange(0, n as int);
    if n == 0 {
        return true;
    }
    assert(xs.subrange(0, n - 1) =~= x@.subrange(0, n - 1));
    if !table_within_check(x, y, n - 1) {
        return false;
    }
    match table_lookup(y, x[n - 1].0.as_str()) {
        Some(v) => {
            proof {
                assert(decreases_to!(x@ => x@[n - 1]));
                assert(decreases_to!(x@[n - 1] => x@[n - 1].1));
            }
            config_values_equal(&x[n - 1].1, v)
        },
        None => false,
    }
}

} // verus!
