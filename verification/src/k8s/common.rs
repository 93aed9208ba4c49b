//! Small pieces shared by the listing and the detail logic.
use vstd::prelude::*;
use crate::k8s::age::{age_or, age_or_else, Instant};
use crate::k8s::objects::ObjectMeta;
use crate::text::{decimal_int, decimal_nat, usize_to_string, i32_to_string, i64_to_string, push_char, push_str, to_owned_string};

verus! {

/// An optional string, or `fallback` when it is absent.
pub open spec fn or_text(o: Option<String>, fallback: Seq<char>) -> Seq<char> {
    match o {
        Some(s) => s@,
        None => fallback,
    }
}

pub fn text_or(o: &Option<String>, fallback: &str) -> (r: String)
    ensures
        r@ == or_text(*o, fallback@),
{
    match o {
        Some(s) => s.clone(),
        None => to_owned_string(fallback),
    }
}

/// An optional string, or the empty string.
pub fn text_or_empty(o: &Option<String>) -> (r: String)
    ensures
        r@ == or_text(*o, Seq::empty()),
{
    match o {
        Some(s) => s.clone(),
        None => String::new(),
    }
}

/// The name of an object as `kube::ResourceExt::name_any` gives it: the
/// name, else the generate-name prefix, else empty.
pub open spec fn name_any(meta: ObjectMeta) -> Seq<char> {
    match meta.name {
        Some(n) => n@,
        None => or_text(meta.generate_name, Seq::empty()),
    }
}

pub fn object_name(meta: &ObjectMeta) -> (r: String)
    ensures
        r@ == name_any(*meta),
{
    match &meta.name {
        Some(n) => n.clone(),
        None => {
            proof {
                reveal_strlit("");
            }
            text_or(&meta.generate_name, "")
        },
    }
}

/// The age cell of an object: its age, or "Unknown" without a creation time.
pub open spec fn age_cell(now: Instant, meta: ObjectMeta) -> Seq<char> {
    age_or(now, meta.creation_timestamp, "Unknown"@)
}

pub fn object_age(now: Instant, meta: &ObjectMeta) -> (r: String)
    ensures
        r@ == age_cell(now, *meta),
{
    age_or_else(now, meta.creation_timestamp, "Unknown")
}

/// `a/b` with both numbers in decimal.
pub open spec fn ratio(a: int, b: int) -> Seq<char> {
    decimal_int(a) + seq!['/'] + decimal_int(b)
}

pub fn ratio_text(a: i64, b: i64) -> (r: String)
    ensures
        r@ == ratio(a as int, b as int),
{
    let mut r = i64_to_string(a);
    push_char(&mut r, '/');
    let tail = i64_to_string(b);
    push_str(&mut r, tail.as_str());
    r
}

/// `a/b` for two counts.
pub open spec fn count_ratio(a: nat, b: nat) -> Seq<char> {
    decimal_nat(a) + seq!['/'] + decimal_nat(b)
}

pub fn count_ratio_text(a: usize, b: usize) -> (r: String)
    ensures
        r@ == count_ratio(a as nat, b as nat),
{
    let mut r = usize_to_string(a);
    push_char(&mut r, '/');
    let tail = usize_to_string(b);
    push_str(&mut r, tail.as_str());
    r
}

pub fn int_text(i: i32) -> (r: String)
    ensures
        r@ == decimal_int(i as int),
{
    i32_to_string(i)
}

/// The value of the first pair with the given key.
pub open spec fn lookup(kvs: Seq<(String, String)>, key: Seq<char>) -> Option<Seq<char>>
    decreases kvs.len(),
{
    if kvs.len() == 0 {
        None
    } else if kvs[0].0@ == key {
        Some(kvs[0].1@)
    } else {
        lookup(kvs.drop_first(), key)
    }
}

pub fn lookup_value(kvs: &Vec<(String, String)>, key: &str) -> (r: Option<String>)
    ensures
        match r {
            Some(v) => lookup(kvs@, key@) == Some(v@),
            None => lookup(kvs@, key@) is None,
        },
{
    let mut i: usize = 0;
    assert(kvs@.skip(0) == kvs@);
    while i < kvs.len()
        invariant
            i <= kvs@.len(),
            lookup(kvs@, key@) == lookup(kvs@.skip(i as int), key@),
        decreases kvs.len() - i,
    {
        assert(kvs@.skip(i as int).drop_first() == kvs@.skip(i + 1));
        if crate::text::str_eq(kvs[i].0.as_str(), key) {
            return Some(kvs[i].1.clone());
        }
        i = i + 1;
    }
    None
}

} // verus!
