//! Backing stores that a JSON document is read from and written to.
use vstd::prelude::*;
use crate::error::ConfigError;

verus! {

/// A store of raw text: a document reads its content from it and saves to it.
pub trait ConfigIO {
    /// The text the store holds. A store of this library states it; for any
    /// other store it stays abstract (the body below is closed, never unfolded
    /// for a store behind `dyn`, and only lets stores written outside the
    /// verified library leave it out).
    closed spec fn content(&self) -> Seq<char> {
        Seq::empty()
    }

    /// Reads the text the store holds.
    fn read(&self) -> (r: Result<String, ConfigError>)
        ensures
            r matches Ok(s) ==> s@ == self.content(),
    ;

    /// Replaces the text the store holds by `data`.
    fn write(&mut self, data: &str) -> (r: Result<(), ConfigError>)
        ensures
            r is Ok ==> final(self).content() == data@,
    ;
}

/// A store held in memory.
pub struct ConfigData {
    pub data: String,
}

impl ConfigData {
    pub fn new(data: String) -> (r: ConfigData)
        ensures
            r.data@ == data@,
    {
        ConfigData { data }
    }
}

impl ConfigIO for ConfigData {
    open spec fn content(&self) -> Seq<char> {
        self.data@
    }

    fn read(&self) -> (r: Result<String, ConfigError>)
        ensures
            r is Ok,
    {
        Ok(self.data.clone())
    }

    fn write(&mut self, data: &str) -> (r: Result<(), ConfigError>)
        ensures
            r is Ok,
    {
        self.data = data.to_string();
        Ok(())
    }
}

} // verus!
