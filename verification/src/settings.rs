//! A snapshot of the process environment and the settings read from it.

use vstd::prelude::*;
use crate::numbers::{parse_unsigned, parsed_unsigned};
use crate::text::{chars_of, chars_eq, equals, trim, trimmed};

verus! {

/// The environment variables of the process, as name and value pairs.
pub struct EnvSnapshot {
    pub vars: Vec<(String, String)>,
}

/// The value of the first variable named `name` among `vars[from..]`.
pub open spec fn lookup_from(vars: Seq<(String, String)>, name: Seq<char>, from: int) -> Option<
    Seq<char>,
>
    decreases vars.len() - from,
{
    if from < 0 || from >= vars.len() {
        None
    } else if vars[from].0@ == name {
        Some(vars[from].1@)
    } else {
        lookup_from(vars, name, from + 1)
    }
}

/// The value of the variable named `name`, if it is set.
pub open spec fn env_value(env: &EnvSnapshot, name: Seq<char>) -> Option<Seq<char>> {
    lookup_from(env.vars@, name, 0)
}

/// The value of a setting, or `default` when it is not set.
pub open spec fn value_or(v: Option<Seq<char>>, default: Seq<char>) -> Seq<char> {
    match v {
        Some(s) => s,
        None => default,
    }
}

/// A numeric setting: its value when set and a valid number not above `max`,
/// else `default`.
pub open spec fn number_or(v: Option<Seq<char>>, max: nat, default: nat) -> nat {
    match v {
        Some(s) => match parsed_unsigned(s, max) {
            Some(n) => n,
            None => default,
        },
        None => default,
    }
}

/// A setting that counts only when its value is not blank after trimming.
pub open spec fn non_blank(v: Option<Seq<char>>) -> Option<Seq<char>> {
    match v {
        Some(s) => if trimmed(s).len() > 0 {
            Some(s)
        } else {
            None
        },
        None => None,
    }
}

impl EnvSnapshot {
    /// The value of the variable named `name` (what `env::var(name).ok()` gives).
    pub fn get(&self, name: &str) -> (r: Option<&str>)
        ensures
            match r {
                Some(v) => env_value(self, name@) == Some(v@),
                None => env_value(self, name@) is None,
            },
    {
        let nc = chars_of(name);
        let mut i: usize = 0;
        while i < self.vars.len()
            invariant
                0 <= i <= self.vars@.len(),
                nc@ == name@,
                lookup_from(self.vars@, name@, 0) == lookup_from(self.vars@, name@, i as int),
            decreases self.vars.len() - i,
        {
            let kc = chars_of(self.vars[i].0.as_str());
            if chars_eq(kc.as_slice(), nc.as_slice()) {
                return Some(self.vars[i].1.as_str());
            }
            i = i + 1;
        }
        None
    }

    /// The value of `name` when it is set to something other than blank.
    pub fn get_non_blank(&self, name: &str) -> (r: Option<String>)
        ensures
            match r {
                Some(v) => non_blank(env_value(self, name@)) == Some(v@),
                None => non_blank(env_value(self, name@)) is None,
            },
    {
        match self.get(name) {
            Some(v) => {
                let vc = chars_of(v);
                let t = trim(vc.as_slice());
                if t.len() > 0 {
                    Some(crate::text::to_owned_string(v))
                } else {
                    None
                }
            },
            None => None,
        }
    }

    /// Whether `name`, or `default` when it is not set, is exactly `expected`.
    pub fn value_is(&self, name: &str, default: &str, expected: &str) -> (r: bool)
        ensures
            r == (value_or(env_value(self, name@), default@) == expected@),
    {
        let v = match self.get(name) {
            Some(v) => v,
            None => default,
        };
        let vc = chars_of(v);
        equals(vc.as_slice(), expected)
    }

    /// A numeric setting no larger than `max`, or `default`.
    pub fn number_or(&self, name: &str, max: u64, default: u64) -> (r: u64)
        ensures
            r as nat == number_or(env_value(self, name@), max as nat, default as nat),
    {
        match self.get(name) {
            Some(v) => match parse_unsigned(v, max) {
                Some(n) => n,
                None => default,
            },
            None => default,
        }
    }
}

} // verus!
