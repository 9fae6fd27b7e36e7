//! A configuration source backed by a JSON object document.
use vstd::prelude::*;
use crate::error::ConfigError;
use crate::io::{ConfigData, ConfigIO};
use crate::json::{
    json_is_null, object_entries, object_get, parse_object, parsed_object, pretty_print,
    pretty_text,
};
use crate::value::ConfigValue;

verus! {

/// The member stored under `key`, unless it is absent or `null`.
pub open spec fn member_value(
    entries: Option<Map<Seq<char>, serde_json::Value>>,
    key: Seq<char>,
) -> Option<serde_json::Value> {
    match entries {
        Some(m) => if m.contains_key(key) && !json_is_null(m[key]) {
            Some(m[key])
        } else {
            None
        },
        None => None,
    }
}

/// The members once `value` is stored under `key`; a document with nothing
/// loaded starts from an empty object.
pub open spec fn members_after_set(
    entries: Option<Map<Seq<char>, serde_json::Value>>,
    key: Seq<char>,
    value: serde_json::Value,
) -> Map<Seq<char>, serde_json::Value> {
    match entries {
        Some(m) => m.insert(key, value),
        None => Map::empty().insert(key, value),
    }
}

/// A JSON object document read from and saved to a backing store.
pub struct ConfigJson {
    io: Box<dyn ConfigIO>,
    data: Option<serde_json::Map<String, serde_json::Value>>,
    can_write: bool,
    is_synced: bool,
}

impl ConfigJson {
    /// The members of the document; `None` while nothing was loaded or set.
    pub closed spec fn entries(&self) -> Option<Map<Seq<char>, serde_json::Value>> {
        match self.data {
            Some(m) => Some(object_entries(m)),
            None => None,
        }
    }

    /// Whether the document may be saved.
    pub closed spec fn writable(&self) -> bool {
        self.can_write
    }

    /// Whether the document is known to equal its backing store.
    pub closed spec fn synced(&self) -> bool {
        self.is_synced
    }

    /// The backing store.
    pub closed spec fn store(&self) -> Box<dyn ConfigIO> {
        self.io
    }

    /// The text the backing store holds.
    pub closed spec fn stored(&self) -> Seq<char> {
        self.io.content()
    }

    /// The text a save writes: the object, indented by two spaces, members
    /// in insertion order; empty while nothing was loaded or set.
    pub closed spec fn text(&self) -> Seq<char> {
        match self.data {
            Some(m) => pretty_text(m),
            None => seq![],
        }
    }

    /// What a read of `key` gives: the member, unless absent or `null`.
    pub open spec fn value(&self, key: Seq<char>) -> Option<serde_json::Value> {
        member_value(self.entries(), key)
    }

    pub fn new(io: Box<dyn ConfigIO>, can_write: bool) -> (r: ConfigJson)
        ensures
            r.entries() is None,
            r.writable() == can_write,
            !r.synced(),
    {
        ConfigJson { io, data: None, can_write, is_synced: false }
    }

    /// A document loaded from `io`.
    pub fn open(io: Box<dyn ConfigIO>, can_write: bool) -> (r: Result<ConfigJson, ConfigError>)
        ensures
            r matches Ok(doc) ==> {
                &&& doc.entries() is Some
                &&& doc.entries() == parsed_object(doc.stored())
                &&& doc.synced()
                &&& doc.writable() == can_write
            },
    {
        let mut cfg = ConfigJson::new(io, can_write);
        cfg.load()?;
        Ok(cfg)
    }

    /// A read-only document over the text `data`, held in memory.
    pub fn from_data(data: String) -> (r: Result<ConfigJson, ConfigError>)
        ensures
            match r {
                Ok(doc) => {
                    &&& doc.entries() == parsed_object(data@)
                    &&& doc.entries() is Some
                    &&& !doc.writable()
                    &&& doc.synced()
                },
                Err(e) => parsed_object(data@) is None && e is Parse,
            },
    {
        let io = Box::new(ConfigData::new(data.clone()));
        let mut cfg = ConfigJson::new(io, false);
        cfg.load_text(data.as_str())?;
        cfg.is_synced = true;
        Ok(cfg)
    }

    pub fn is_loaded(&self) -> (r: bool)
        ensures
            r == self.entries() is Some,
    {
        self.data.is_some()
    }

    pub fn is_synced(&self) -> (r: bool)
        ensures
            r == self.synced(),
    {
        self.is_synced
    }

    pub fn can_write(&self) -> (r: bool)
        ensures
            r == self.writable(),
    {
        self.can_write
    }

    /// Allows or forbids saving the document.
    pub fn set_can_write(&mut self, can_write: bool)
        ensures
            final(self).writable() == can_write,
            final(self).entries() == old(self).entries(),
            final(self).synced() == old(self).synced(),
            final(self).store() == old(self).store(),
    {
        self.can_write = can_write;
    }

    /// Reads the backing store and parses it.
    pub fn load(&mut self) -> (r: Result<(), ConfigError>)
        ensures
            final(self).writable() == old(self).writable(),
            final(self).store() == old(self).store(),
            final(self).stored() == old(self).stored(),
            match r {
                Ok(()) => {
                    &&& final(self).entries() is Some
                    &&& final(self).entries() == parsed_object(old(self).stored())
                    &&& final(self).synced()
                },
                Err(_) => final(self).entries() == old(self).entries() && final(self).synced()
                    == old(self).synced(),
            },
    {
        let text = self.io.read()?;
        self.load_text(text.as_str())
    }

    /// Takes `text`, as read from the backing store, as the document's content.
    pub fn load_text(&mut self, text: &str) -> (r: Result<(), ConfigError>)
        ensures
            final(self).writable() == old(self).writable(),
            final(self).store() == old(self).store(),
            final(self).stored() == old(self).stored(),
            match r {
                Ok(()) => {
                    &&& parsed_object(text@) is Some
                    &&& final(self).entries() == parsed_object(text@)
                    &&& final(self).synced()
                },
                Err(e) => {
                    &&& parsed_object(text@) is None
                    &&& e is Parse
                    &&& final(self).entries() == old(self).entries()
                    &&& final(self).synced() == old(self).synced()
                },
            },
    {
        match parse_object(text) {
            Ok(m) => {
                self.data = Some(m);
                self.is_synced = true;
                Ok(())
            },
            Err(e) => Err(ConfigError::Parse(e.to_string())),
        }
    }

    /// The member stored under `key`, unless it is absent or `null`.
    pub fn get_value(&self, key: &str) -> (r: Option<&serde_json::Value>)
        ensures
            match r {
                Some(v) => self.value(key@) == Some(*v),
                None => self.value(key@) is None,
            },
    {
        match &self.data {
            Some(data) => match object_get(data, key) {
                Some(v) => if v.is_null() {
                    None
                } else {
                    Some(v)
                },
                None => None,
            },
            None => None,
        }
    }

    /// Stores `value` under `key`, creating the object if nothing was loaded.
    pub fn set_value(&mut self, key: &str, value: serde_json::Value)
        ensures
            final(self).entries() == Some(members_after_set(old(self).entries(), key@, value)),
            final(self).writable() == old(self).writable(),
            !final(self).synced(),
            final(self).store() == old(self).store(),
    {
        match &mut self.data {
            Some(data) => {
                data.insert(key.to_string(), value);
            },
            None => {
                let mut data = serde_json::Map::new();
                data.insert(key.to_string(), value);
                proof {
                    assert(object_entries(data) =~= Map::empty().insert(key@, value));
                }
                self.data = Some(data);
            },
        }
        self.is_synced = false;
    }

    /// Writes the document to its backing store, as the text `text()`. With
    /// nothing loaded or set there is nothing to write: the save succeeds and
    /// leaves the store as it is.
    pub fn save(&mut self) -> (r: Result<(), ConfigError>)
        ensures
            final(self).writable() == old(self).writable(),
            final(self).entries() == old(self).entries(),
            final(self).text() == old(self).text(),
            !old(self).writable() ==> r == Err::<(), ConfigError>(ConfigError::WriteForbidden)
                && *final(self) == *old(self),
            old(self).writable() && old(self).entries() is None ==> r == Ok::<(), ConfigError>(())
                && final(self).synced() && final(self).stored() == old(self).stored(),
            old(self).writable() && old(self).entries() is Some ==> match r {
                Ok(()) => final(self).synced() && final(self).stored() == old(self).text(),
                Err(e) => final(self).synced() == old(self).synced() && !(e is WriteForbidden),
            },
    {
        if !self.can_write {
            return Err(ConfigError::WriteForbidden);
        }
        match &self.data {
            None => {
                self.is_synced = true;
                Ok(())
            },
            Some(data) => {
                let content = match pretty_print(data) {
                    Ok(c) => c,
                    Err(e) => {
                        return Err(ConfigError::Serialize(e.to_string()));
                    },
                };
                match self.io.write(content.as_str()) {
                    Ok(()) => {},
                    Err(e) => {
                        return match e {
                            ConfigError::WriteForbidden => Err(
                                ConfigError::Io(String::from_str("write refused")),
                            ),
                            other => Err(other),
                        };
                    },
                }
                self.is_synced = true;
                Ok(())
            },
        }
    }

    /// The member under `key` read as a `T`; `None` if it is absent, `null`
    /// or not a `T`.
    pub fn get<T: ConfigValue>(&self, key: &str) -> (r: Option<T>)
        ensures
            match self.value(key@) {
                Some(v) => T::reads_json(v, r),
                None => r is None,
            },
    {
        match self.get_value(key) {
            Some(value) => T::from_json(value),
            None => None,
        }
    }

    /// Stores `value` under `key`.
    pub fn set<T: ConfigValue>(&mut self, key: &str, value: T)
        ensures
            final(self).entries() == Some(
                members_after_set(old(self).entries(), key@, T::json_of(value)),
            ),
            T::reads_json(T::json_of(value), Some(value)),
            !json_is_null(T::json_of(value)),
            final(self).writable() == old(self).writable(),
            !final(self).synced(),
            final(self).store() == old(self).store(),
    {
        let value = value.into_json();
        self.set_value(key, value);
    }
}

} // verus!
