//! A read-only configuration source over environment variables.
use vstd::prelude::*;
use crate::value::ConfigValue;

verus! {

/// The variable name read for `key`: `prefix_key`, or `key` with no prefix.
pub open spec fn key_for(prefix: Option<Seq<char>>, key: Seq<char>) -> Seq<char> {
    match prefix {
        Some(p) => p + seq!['_'] + key,
        None => key,
    }
}

/// The value of the first variable named `name`, looking from index `i` on.
pub open spec fn var_from(vars: Seq<(String, String)>, name: Seq<char>, i: int) -> Option<
    Seq<char>,
>
    decreases vars.len() - i,
{
    if i < 0 || i >= vars.len() {
        None
    } else if vars[i].0@ == name {
        Some(vars[i].1@)
    } else {
        var_from(vars, name, i + 1)
    }
}

/// Environment variables, as names and values, read under an optional prefix.
pub struct ConfigEnv {
    use_config: bool,
    prefix: Option<String>,
    vars: Vec<(String, String)>,
}

impl ConfigEnv {
    /// Whether the variables are consulted at all.
    pub closed spec fn enabled(&self) -> bool {
        self.use_config
    }

    /// The prefix put before every key.
    pub closed spec fn prefix_view(&self) -> Option<Seq<char>> {
        match self.prefix {
            Some(p) => Some(p@),
            None => None,
        }
    }

    /// The variables, names and values.
    pub closed spec fn variables(&self) -> Seq<(String, String)> {
        self.vars@
    }

    /// The text read for `key`, if any.
    pub open spec fn text(&self, key: Seq<char>) -> Option<Seq<char>> {
        if self.enabled() {
            var_from(self.variables(), key_for(self.prefix_view(), key), 0)
        } else {
            None
        }
    }

    /// A source with no variables.
    pub fn new(use_config: bool, prefix: Option<String>) -> (r: ConfigEnv)
        ensures
            r.enabled() == use_config,
            r.prefix_view() == (match prefix {
                Some(p) => Some(p@),
                None => None::<Seq<char>>,
            }),
            r.variables().len() == 0,
    {
        ConfigEnv { use_config, prefix, vars: Vec::new() }
    }

    /// A source over the variables `vars`, given as names and values.
    pub fn from_vars(use_config: bool, prefix: Option<String>, vars: Vec<(String, String)>) -> (r:
        ConfigEnv)
        ensures
            r.enabled() == use_config,
            r.prefix_view() == (match prefix {
                Some(p) => Some(p@),
                None => None::<Seq<char>>,
            }),
            r.variables() == vars@,
    {
        ConfigEnv { use_config, prefix, vars }
    }

    pub fn get_prefix(&self) -> (r: Option<String>)
        ensures
            match r {
                Some(p) => self.prefix_view() == Some(p@),
                None => self.prefix_view() is None,
            },
    {
        match &self.prefix {
            Some(p) => Some(p.clone()),
            None => None,
        }
    }

    /// The variable name read for `key`.
    pub fn get_key(&self, key: &str) -> (r: String)
        ensures
            r@ == key_for(self.prefix_view(), key@),
    {
        match &self.prefix {
            Some(prefix) => {
                let mut name = prefix.clone();
                name.append("_");
                name.append(key);
                proof {
                    reveal_strlit("_");
                }
                name
            },
            None => key.to_string(),
        }
    }

    /// The text of the variable read for `key`.
    pub fn get_value(&self, key: &str) -> (r: Option<String>)
        ensures
            match r {
                Some(v) => self.text(key@) == Some(v@),
                None => self.text(key@) is None,
            },
    {
        let actual_key = self.get_key(key);
        if !self.use_config {
            return None;
        }
        let mut i: usize = 0;
        while i < self.vars.len()
            invariant
                0 <= i <= self.vars@.len(),
                actual_key@ == key_for(self.prefix_view(), key@),
                self.use_config,
                var_from(self.vars@, actual_key@, 0) == var_from(self.vars@, actual_key@, i as int),
            decreases self.vars@.len() - i,
        {
            if self.vars[i].0 == actual_key {
                return Some(self.vars[i].1.clone());
            }
            i = i + 1;
        }
        None
    }

    /// The variable read for `key`, parsed as a `T`; `None` if it is unset or
    /// does not parse.
    pub fn get<T: ConfigValue>(&self, key: &str) -> (r: Option<T>)
        ensures
            match self.text(key@) {
                Some(s) => T::reads_text(s, r),
                None => r is None,
            },
    {
        match self.get_value(key) {
            Some(value) => T::from_text(value.as_str()),
            None => None,
        }
    }
}

} // verus!
