//! The generic configuration tree that the scheduler is built from.
//!
//! The document arrives already parsed (file reading and JSON parsing are the
//! caller's job); this module holds its shape — a tree of keys, arrays and
//! scalars — and the field lookups that the decoders below it share.

use vstd::prelude::*;

verus! {

/// A configuration document parsed into a generic tree.
///
/// Numbers in a configuration are non-negative integers (millisecond counts);
/// a number that does not fit that shape is handed in as `Null`, so that the
/// key still counts as present while its value defaults.
#[derive(Debug, PartialEq)]
pub enum ConfigValue {
    Null,
    Bool(bool),
    UInt(u64),
    Str(String),
    Arr(Vec<ConfigValue>),
    Obj(Vec<(String, ConfigValue)>),
}

/// The error a decoder reports for a malformed document.
#[derive(Debug, Clone, Copy, PartialEq, Eq)]
pub enum ConfigError {
    /// A job carries a `kind` that names no known job variant.
    UnknownJobKind,
}

/// The value under `key` in a field list: the first pair with that key wins.
pub open spec fn spec_lookup(fields: Seq<(String, ConfigValue)>, key: Seq<char>) -> Option<
    ConfigValue,
>
    decreases fields.len(),
{
    if fields.len() == 0 {
        None
    } else if fields[0].0@ == key {
        Some(fields[0].1)
    } else {
        spec_lookup(fields.drop_first(), key)
    }
}

impl ConfigValue {
    /// The value under `key`, if this is an object that carries that key.
    pub open spec fn spec_field(self, key: Seq<char>) -> Option<ConfigValue> {
        match self {
            ConfigValue::Obj(fields) => spec_lookup(fields@, key),
            _ => None,
        }
    }

    /// Whether this is an object that carries `key` (whatever its value).
    pub open spec fn has_field(self, key: Seq<char>) -> bool {
        self.spec_field(key) is Some
    }

    /// The integer under `key`, or `default` where the key is absent or its
    /// value is not an integer.
    pub open spec fn spec_u64_or(self, key: Seq<char>, default: u64) -> u64 {
        match self.spec_field(key) {
            Some(ConfigValue::UInt(n)) => n,
            _ => default,
        }
    }

    /// The array under `key`, or the empty list where the key is absent or
    /// its value is not an array.
    pub open spec fn spec_items(self, key: Seq<char>) -> Seq<ConfigValue> {
        match self.spec_field(key) {
            Some(ConfigValue::Arr(items)) => items@,
            _ => Seq::empty(),
        }
    }

    /// Looks `key` up in this value.
    pub fn get<'a>(&'a self, key: &str) -> (r: Option<&'a ConfigValue>)
        ensures
            match r {
                Some(c) => self.spec_field(key@) == Some(*c),
                None => self.spec_field(key@) is None,
            },
    {
        match self {
            ConfigValue::Obj(fields) => lookup(fields, key),
            _ => None,
        }
    }

    /// Whether this value is an object carrying `key`.
    pub fn has(&self, key: &str) -> (r: bool)
        ensures
            r == self.has_field(key@),
    {
        self.get(key).is_some()
    }

    /// Reads the integer under `key`, defaulting where absent or mistyped.
    pub fn get_u64_or(&self, key: &str, default: u64) -> (r: u64)
        ensures
            r == self.spec_u64_or(key@, default),
    {
        match self.get(key) {
            Some(c) => match c {
                ConfigValue::UInt(n) => *n,
                _ => default,
            },
            None => default,
        }
    }
}

fn lookup<'a>(fields: &'a Vec<(String, ConfigValue)>, key: &str) -> (r: Option<&'a ConfigValue>)
    ensures
        match r {
            Some(c) => spec_lookup(fields@, key@) == Some(*c),
            None => spec_lookup(fields@, key@) is None,
        },
{
    let owned: String = key.to_owned();
    let mut i: usize = 0;
    proof {
        assert(fields@.skip(0) =~= fields@);
    }
    while i < fields.len()
        invariant
            i <= fields.len(),
            owned@ == key@,
            spec_lookup(fields@, key@) == spec_lookup(fields@.skip(i as int), key@),
        decreases fields.len() - i,
    {
        proof {
            assert(fields@.skip(i as int)[0] == fields@[i as int]);
        }
        if fields[i].0 == owned {
            return Some(&fields[i].1);
        }
        proof {
            assert(fields@.skip(i as int).drop_first() =~= fields@.skip(i as int + 1));
        }
        i += 1;
    }
    proof {
        assert(fields@.skip(i as int) =~= Seq::<(String, ConfigValue)>::empty());
    }
    None
}

} // verus!
