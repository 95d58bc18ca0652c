//! A snapshot of the process environment and the typed settings that the
//! services read from it, each with its fallback when a variable is absent or
//! does not parse.
use vstd::prelude::*;
use crate::text::{split_on, trimmed, parse_unsigned, parse_bool_spec, str_eq, own, parse_u16, parse_unsigned_max, parse_u32, parse_u64, parse_usize, parse_bool, chars_of, split_char, trim};

verus! {

/// The environment variables, as `(name, value)` pairs in the order taken.
pub struct EnvVars {
    pub vars: Vec<(String, String)>,
}

/// The value of the first variable named `name`.
pub open spec fn env_lookup(vars: Seq<(String, String)>, name: Seq<char>) -> Option<Seq<char>>
    decreases vars.len(),
{
    if vars.len() == 0 {
        None
    } else if vars[0].0@ == name {
        Some(vars[0].1@)
    } else {
        env_lookup(vars.drop_first(), name)
    }
}

/// The variable's text, or `default` when it is absent.
pub open spec fn setting_text(vars: Seq<(String, String)>, name: Seq<char>, default: Seq<char>) -> Seq<char> {
    match env_lookup(vars, name) {
        Some(t) => t,
        None => default,
    }
}

/// The variable parsed as an unsigned integer no larger than `max`, or
/// `default` when it is absent or does not parse.
pub open spec fn setting_num(vars: Seq<(String, String)>, name: Seq<char>, max: nat, default: nat) -> nat {
    match env_lookup(vars, name) {
        Some(t) => match parse_unsigned(t, max) {
            Some(v) => v,
            None => default,
        },
        None => default,
    }
}

/// The variable parsed as a `bool`, or `default`.
pub open spec fn setting_bool(vars: Seq<(String, String)>, name: Seq<char>, default: bool) -> bool {
    match env_lookup(vars, name) {
        Some(t) => match parse_bool_spec(t) {
            Some(v) => v,
            None => default,
        },
        None => default,
    }
}

/// The variable when present and not empty.
pub open spec fn setting_nonempty(vars: Seq<(String, String)>, name: Seq<char>) -> Option<Seq<char>> {
    match env_lookup(vars, name) {
        Some(t) => if t.len() > 0 { Some(t) } else { None },
        None => None,
    }
}

/// The comma-separated pieces of the variable's text (or of `default`),
/// each trimmed.
pub open spec fn setting_list(vars: Seq<(String, String)>, name: Seq<char>, default: Seq<char>) -> Seq<Seq<char>> {
    split_on(setting_text(vars, name, default), ',').map_values(|p: Seq<char>| trimmed(p))
}

/// The texts of `v`, in order, are those of `l`.
pub open spec fn strings_are(v: Seq<String>, l: Seq<Seq<char>>) -> bool {
    &&& v.len() == l.len()
    &&& forall|i: int| 0 <= i < v.len() ==> #[trigger] v[i]@ == l[i]
}

/// `o` holds the text `e` holds, if any.
pub open spec fn opt_text_is(o: Option<String>, e: Option<Seq<char>>) -> bool {
    match e {
        Some(t) => o is Some && o->0@ == t,
        None => o is None,
    }
}

/// The pieces that parse as `u32` numbers, in order; the others are dropped.
pub open spec fn parsed_u32s(pieces: Seq<Seq<char>>) -> Seq<u32>
    decreases pieces.len(),
{
    if pieces.len() == 0 {
        Seq::empty()
    } else {
        let rest = parsed_u32s(pieces.drop_last());
        match parse_unsigned(pieces.last(), u32::MAX as nat) {
            Some(v) => rest.push(v as u32),
            None => rest,
        }
    }
}

impl EnvVars {
    pub open spec fn view(&self) -> Seq<(String, String)> {
        self.vars@
    }

    /// The value of the first variable named `name` (`std::env::var(..).ok()`).
    pub fn get(&self, name: &str) -> (r: Option<String>)
        ensures
            match env_lookup(self.vars@, name@) {
                Some(t) => r is Some && r->0@ == t,
                None => r is None,
            },
    {
        let mut i: usize = 0;
        assert(self.vars@.subrange(0, self.vars@.len() as int) =~= self.vars@);
        while i < self.vars.len()
            invariant
                i <= self.vars@.len(),
                env_lookup(self.vars@, name@) == env_lookup(self.vars@.subrange(i as int, self.vars@.len() as int), name@),
            decreases self.vars.len() - i,
        {
            let ghost rest = self.vars@.subrange(i as int, self.vars@.len() as int);
            assert(rest.drop_first() =~= self.vars@.subrange(i + 1, self.vars@.len() as int));
            assert(rest[0] == self.vars@[i as int]);
            if str_eq(self.vars[i].0.as_str(), name) {
                return Some(own(self.vars[i].1.as_str()));
            }
            i = i + 1;
        }
        None
    }

    /// `std::env::var(name).unwrap_or_else(|_| default.to_string())`.
    pub fn text_or(&self, name: &str, default: &str) -> (r: String)
        ensures
            r@ == setting_text(self.vars@, name@, default@),
    {
        match self.get(name) {
            Some(t) => t,
            None => own(default),
        }
    }

    /// The variable parsed as a `u16`, or `default`.
    pub fn u16_or(&self, name: &str, default: u16) -> (r: u16)
        ensures
            r as nat == setting_num(self.vars@, name@, u16::MAX as nat, default as nat),
    {
        match self.get(name) {
            Some(t) => match parse_u16(t.as_str()) {
                Some(v) => v,
                None => default,
            },
            None => default,
        }
    }

    /// The variable parsed as a `u8`, or `default`.
    pub fn u8_or(&self, name: &str, default: u8) -> (r: u8)
        ensures
            r as nat == setting_num(self.vars@, name@, u8::MAX as nat, default as nat),
    {
        match self.get(name) {
            Some(t) => match parse_unsigned_max(t.as_str(), 0xFF) {
                Some(v) => v as u8,
                None => default,
            },
            None => default,
        }
    }

    /// The variable parsed as a `u32`, or `default`.
    pub fn u32_or(&self, name: &str, default: u32) -> (r: u32)
        ensures
            r as nat == setting_num(self.vars@, name@, u32::MAX as nat, default as nat),
    {
        match self.get(name) {
            Some(t) => match parse_u32(t.as_str()) {
                Some(v) => v,
                None => default,
            },
            None => default,
        }
    }

    /// The variable parsed as a `u64`, or `default`.
    pub fn u64_or(&self, name: &str, default: u64) -> (r: u64)
        ensures
            r as nat == setting_num(self.vars@, name@, u64::MAX as nat, default as nat),
    {
        match self.get(name) {
            Some(t) => match parse_u64(t.as_str()) {
                Some(v) => v,
                None => default,
            },
            None => default,
        }
    }

    /// The variable parsed as a `usize`, or `default`.
    pub fn usize_or(&self, name: &str, default: usize) -> (r: usize)
        ensures
            r as nat == setting_num(self.vars@, name@, usize::MAX as nat, default as nat),
    {
        match self.get(name) {
            Some(t) => match parse_usize(t.as_str()) {
                Some(v) => v,
                None => default,
            },
            None => default,
        }
    }

    /// The variable parsed as a `bool`, or `default`.
    pub fn bool_or(&self, name: &str, default: bool) -> (r: bool)
        ensures
            r == setting_bool(self.vars@, name@, default),
    {
        match self.get(name) {
            Some(t) => match parse_bool(t.as_str()) {
                Some(v) => v,
                None => default,
            },
            None => default,
        }
    }

    /// `std::env::var(name).ok().filter(|p| !p.is_empty())`.
    pub fn nonempty(&self, name: &str) -> (r: Option<String>)
        ensures
            match setting_nonempty(self.vars@, name@) {
                Some(t) => r is Some && r->0@ == t,
                None => r is None,
            },
    {
        match self.get(name) {
            Some(t) => {
                let cs = chars_of(t.as_str());
                if cs.len() > 0 {
                    Some(t)
                } else {
                    None
                }
            },
            None => None,
        }
    }

    /// The comma-separated, trimmed pieces of the variable (or of `default`).
    pub fn list_or(&self, name: &str, default: &str) -> (r: Vec<String>)
        ensures
            r@.len() == setting_list(self.vars@, name@, default@).len(),
            forall|i: int| 0 <= i < r@.len() ==> #[trigger] r@[i]@ == setting_list(self.vars@, name@, default@)[i],
    {
        let t = self.text_or(name, default);
        let pieces = split_char(t.as_str(), ',');
        let mut out: Vec<String> = Vec::new();
        let mut i: usize = 0;
        while i < pieces.len()
            invariant
                i <= pieces@.len(),
                pieces@.len() == split_on(t@, ',').len(),
                forall|k: int| 0 <= k < pieces@.len() ==> #[trigger] pieces@[k]@ == split_on(t@, ',')[k],
                out@.len() == i,
                forall|k: int| 0 <= k < i ==> #[trigger] out@[k]@ == trimmed(split_on(t@, ',')[k]),
            decreases pieces.len() - i,
        {
            out.push(trim(pieces[i].as_str()));
            i = i + 1;
        }
        out
    }

    /// The comma-separated pieces of the variable (or of `default`) that,
    /// trimmed, parse as `u32` numbers.
    pub fn u32_list_or(&self, name: &str, default: &str) -> (r: Vec<u32>)
        ensures
            r@ == parsed_u32s(setting_list(self.vars@, name@, default@)),
    {
        let pieces = self.list_or(name, default);
        let ghost l = setting_list(self.vars@, name@, default@);
        let mut out: Vec<u32> = Vec::new();
        let mut i: usize = 0;
        assert(l.subrange(0, 0) =~= Seq::<Seq<char>>::empty());
        while i < pieces.len()
            invariant
                i <= pieces@.len(),
                strings_are(pieces@, l),
                out@ == parsed_u32s(l.subrange(0, i as int)),
            decreases pieces.len() - i,
        {
            assert(l.subrange(0, i + 1).drop_last() =~= l.subrange(0, i as int));
            assert(pieces@[i as int]@ == l[i as int]);
            match parse_u32(pieces[i].as_str()) {
                Some(v) => out.push(v),
                None => {},
            }
            i = i + 1;
        }
        assert(l.subrange(0, l.len() as int) =~= l);
        out
    }
}

} // verus!
