//! A snapshot of environment variables, looked up by name.
//!
//! The library never reads the process environment. Whoever configures a
//! processor takes the snapshot and passes it in as pairs of name and value.

use crate::decimal::{decimal, parse_u64, parse_usize, u64_of, usize_of};
use vstd::prelude::*;
use vstd::string::*;
use vstd::utf8::encode_utf8;

verus! {

/// The value of the first variable in `vars` that is called `name`.
pub open spec fn lookup(vars: Seq<(String, String)>, name: Seq<char>) -> Option<String>
    decreases vars.len(),
{
    if vars.len() == 0 {
        None
    } else if vars[0].0@ == name {
        Some(vars[0].1)
    } else {
        lookup(vars.skip(1), name)
    }
}

/// The `usize` that the variable `name` holds: it is set and its value is an
/// unsigned decimal integer in range. `None` otherwise.
pub open spec fn usize_var(vars: Seq<(String, String)>, name: Seq<char>) -> Option<usize> {
    match lookup(vars, name) {
        Some(value) => usize_of(encode_utf8(value@)),
        None => None,
    }
}

/// The `u64` that the variable `name` holds: it is set and its value is an
/// unsigned decimal integer in range. `None` otherwise.
pub open spec fn u64_var(vars: Seq<(String, String)>, name: Seq<char>) -> Option<u64> {
    match lookup(vars, name) {
        Some(value) => u64_of(encode_utf8(value@)),
        None => None,
    }
}

/// The variable `name` is set, but not to an integer: its value is not an
/// optional plus sign followed by decimal digits.
pub open spec fn not_an_integer(vars: Seq<(String, String)>, name: Seq<char>) -> bool {
    lookup(vars, name) matches Some(value) && decimal(encode_utf8(value@)) is None
}

/// A value that is not an integer is no setting: a variable that is set to
/// such a value holds neither a `usize` nor a `u64`.
pub proof fn lemma_non_integer_holds_nothing(vars: Seq<(String, String)>, name: Seq<char>)
    requires
        not_an_integer(vars, name),
    ensures
        usize_var(vars, name) is None,
        u64_var(vars, name) is None,
{
}

/// Looks up the variable `name`: the value of the first pair in `vars` whose
/// name is `name`, or `None` if there is no such pair.
pub fn var<'a>(vars: &'a Vec<(String, String)>, name: &str) -> (value: Option<&'a String>)
    ensures
        match value {
            Some(found) => lookup(vars@, name@) == Some(*found),
            None => lookup(vars@, name@) is None,
        },
{
    let key = name.to_owned();
    let mut i: usize = 0;
    assert(vars@.skip(0) == vars@);
    while i < vars.len()
        invariant
            i <= vars.len(),
            key@ == name@,
            lookup(vars@, name@) == lookup(vars@.skip(i as int), name@),
        decreases vars.len() - i,
    {
        let ghost rest = vars@.skip(i as int);
        assert(rest[0] == vars@[i as int]);
        assert(rest.skip(1) == vars@.skip(i + 1));
        if vars[i].0 == key {
            return Some(&vars[i].1);
        }
        i = i + 1;
    }
    None
}

/// Reads the variable `name` as a `usize`. An unset variable and a value
/// that is not an unsigned decimal integer in range both give `None`.
pub fn var_usize(vars: &Vec<(String, String)>, name: &str) -> (value: Option<usize>)
    ensures
        value == usize_var(vars@, name@),
{
    match var(vars, name) {
        Some(text) => parse_usize(text.as_str()),
        None => None,
    }
}

/// Reads the variable `name` as a `u64`. An unset variable and a value that
/// is not an unsigned decimal integer in range both give `None`.
pub fn var_u64(vars: &Vec<(String, String)>, name: &str) -> (value: Option<u64>)
    ensures
        value == u64_var(vars@, name@),
{
    match var(vars, name) {
        Some(text) => parse_u64(text.as_str()),
        None => None,
    }
}

} // verus!
