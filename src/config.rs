//! One configuration source: a JSON document, an environment snapshot, or a
//! scope that could not be located.
use vstd::prelude::*;
use crate::config_env::ConfigEnv;
use crate::config_json::{members_after_set, ConfigJson};
use crate::error::ConfigError;
use crate::json::{json_from_string, json_is_null, json_string, parsed_object};
use crate::value::ConfigValue;

verus! {

/// A configuration source; `Absent` stands for a scope that could not be located.
pub enum Config {
    Json(ConfigJson),
    Env(ConfigEnv),
    Absent,
}

/// `after` is `before` once `value` was stored under `key`: a document gains
/// the member and is no longer synced; other sources take no writes.
pub open spec fn written(before: Config, after: Config, key: Seq<char>, value: serde_json::Value) -> bool {
    match before {
        Config::Json(d) => after matches Config::Json(d2) && d2.entries() == Some(
            members_after_set(d.entries(), key, value),
        ) && d2.writable() == d.writable() && !d2.synced(),
        _ => after == before,
    }
}

/// Whether a sync saves this source: a writable document not known to be synced.
pub open spec fn needs_save(c: Config) -> bool {
    c matches Config::Json(d) && !d.synced() && d.writable()
}

/// One source passing through a sync: `out` is the outcome of its save, if it
/// was saved, and `after` the source left behind.
pub open spec fn sync_step(before: Config, after: Config, out: Option<Result<(), ConfigError>>) -> bool {
    if needs_save(before) {
        let d = before->Json_0;
        &&& out is Some
        &&& after matches Config::Json(d2)
        &&& d2.writable() == d.writable()
        &&& d2.entries() == d.entries()
        &&& d.entries() is None ==> out == Some(Ok::<(), ConfigError>(())) && d2.synced()
            && d2.stored() == d.stored()
        &&& d.entries() is Some ==> match out->Some_0 {
            Ok(()) => d2.synced() && d2.stored() == d.text(),
            Err(e) => !d2.synced() && !(e is WriteForbidden),
        }
    } else {
        out is None && after == before
    }
}

impl Config {
    /// What a raw read of `key` gives.
    pub open spec fn raw(&self, key: Seq<char>) -> Option<serde_json::Value> {
        match self {
            Config::Json(d) => d.value(key),
            Config::Env(e) => match e.text(key) {
                Some(s) => Some(json_from_string(s)),
                None => None,
            },
            Config::Absent => None,
        }
    }

    /// Whether a read of `key` as a `T` gives `r`.
    pub open spec fn reads<T: ConfigValue>(&self, key: Seq<char>, r: Option<T>) -> bool {
        match self {
            Config::Json(d) => match d.value(key) {
                Some(v) => T::reads_json(v, r),
                None => r is None,
            },
            Config::Env(e) => match e.text(key) {
                Some(s) => T::reads_text(s, r),
                None => r is None,
            },
            Config::Absent => r is None,
        }
    }

    /// Whether this source takes writes.
    pub fn is_json(&self) -> (r: bool)
        ensures
            r == self is Json,
    {
        match self {
            Config::Json(_) => true,
            _ => false,
        }
    }

    /// The value of `key` read as a `T`.
    pub fn get<T: ConfigValue>(&self, key: &str) -> (r: Option<T>)
        ensures
            self.reads(key@, r),
    {
        match self {
            Config::Json(src) => src.get(key),
            Config::Env(src) => src.get(key),
            Config::Absent => None,
        }
    }

    /// The raw value of `key`; an environment variable reads as a JSON string.
    pub fn get_value(&self, key: &str) -> (r: Option<serde_json::Value>)
        ensures
            r == self.raw(key@),
    {
        match self {
            Config::Json(src) => match src.get_value(key) {
                Some(v) => Some(v.clone()),
                None => None,
            },
            Config::Env(src) => match src.get_value(key) {
                Some(v) => Some(json_string(v)),
                None => None,
            },
            Config::Absent => None,
        }
    }

    /// Stores `value` under `key`; tells whether this source took the write.
    pub fn set<T: ConfigValue>(&mut self, key: &str, value: T) -> (r: bool)
        ensures
            r == (*old(self) is Json),
            written(*old(self), *final(self), key@, T::json_of(value)),
            r ==> T::reads_json(T::json_of(value), Some(value)) && !json_is_null(
                T::json_of(value),
            ),
    {
        match self {
            Config::Json(json) => {
                json.set(key, value);
                true
            },
            _ => false,
        }
    }

    /// Stores the raw `value` under `key`; tells whether this source took the write.
    pub fn set_value(&mut self, key: &str, value: serde_json::Value) -> (r: bool)
        ensures
            r == (*old(self) is Json),
            written(*old(self), *final(self), key@, value),
    {
        match self {
            Config::Json(json) => {
                json.set_value(key, value);
                true
            },
            _ => false,
        }
    }

    /// Saves a document; other sources have nothing to save.
    pub fn save(&mut self) -> (r: Result<(), ConfigError>)
        ensures
            match *old(self) {
                Config::Json(d) => *final(self) matches Config::Json(d2) && {
                    &&& d2.entries() == d.entries()
                    &&& d2.writable() == d.writable()
                    &&& !d.writable() ==> r == Err::<(), ConfigError>(ConfigError::WriteForbidden)
                        && d2 == d
                    &&& d.writable() && d.entries() is None ==> r == Ok::<(), ConfigError>(())
                        && d2.synced() && d2.stored() == d.stored()
                    &&& d.writable() && d.entries() is Some ==> match r {
                        Ok(()) => d2.synced() && d2.stored() == d.text(),
                        Err(e) => d2.synced() == d.synced() && !(e is WriteForbidden),
                    }
                },
                _ => r is Ok && *final(self) == *old(self),
            },
    {
        match self {
            Config::Json(json) => json.save(),
            _ => Ok(()),
        }
    }

    /// Reloads a document; other sources have nothing to load.
    pub fn load(&mut self) -> (r: Result<(), ConfigError>)
        ensures
            match *old(self) {
                Config::Json(d) => *final(self) matches Config::Json(d2) && {
                    &&& d2.writable() == d.writable()
                    &&& d2.stored() == d.stored()
                    &&& match r {
                        Ok(()) => d2.entries() is Some && d2.entries() == parsed_object(d.stored())
                            && d2.synced(),
                        Err(_) => d2.entries() == d.entries() && d2.synced() == d.synced(),
                    }
                },
                _ => r is Ok && *final(self) == *old(self),
            },
    {
        match self {
            Config::Json(json) => json.load(),
            _ => Ok(()),
        }
    }
}

} // verus!
