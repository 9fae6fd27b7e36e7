//! The resolver: reads from the first source that has a value, writes to the
//! first document, and saves every modified writable document on sync.
use vstd::prelude::*;
use crate::config::{sync_step, written, Config};
use crate::error::ConfigError;
use crate::json::json_is_null;
use crate::priority_provider::{present_values, sorted_keys, PriorityProvider, PriorityProviderIterator};
use crate::value::ConfigValue;

verus! {

/// What a read of `key` finds among `srcs`, looking from index `i` on.
pub open spec fn value_from(srcs: Seq<Config>, key: Seq<char>, i: int) -> Option<serde_json::Value>
    decreases srcs.len() - i,
{
    if i < 0 || i >= srcs.len() {
        None
    } else {
        match srcs[i].raw(key) {
            Some(v) => Some(v),
            None => value_from(srcs, key, i + 1),
        }
    }
}

/// What a read of `key` finds: the value of the first source that has one.
pub open spec fn first_value(srcs: Seq<Config>, key: Seq<char>) -> Option<serde_json::Value> {
    value_from(srcs, key, 0)
}

/// Whether a read of `key` as a `T` through `srcs` gives `r`: the value of the
/// first source whose read gives one.
pub open spec fn reads_first<T: ConfigValue>(srcs: Seq<Config>, key: Seq<char>, r: Option<T>) -> bool {
    match r {
        Some(x) => exists|i: int|
            0 <= i < srcs.len() && srcs[i].reads(key, Some(x)) && forall|j: int|
                0 <= j < i ==> srcs[j].reads(key, None::<T>),
        None => forall|i: int| 0 <= i < srcs.len() ==> srcs[i].reads(key, None::<T>),
    }
}

/// Index of the first document among `srcs`, looking from index `i` on.
pub open spec fn json_from(srcs: Seq<Config>, i: int) -> Option<int>
    decreases srcs.len() - i,
{
    if i < 0 || i >= srcs.len() {
        None
    } else if srcs[i] is Json {
        Some(i)
    } else {
        json_from(srcs, i + 1)
    }
}

/// Index of the first document, the source that takes writes.
pub open spec fn first_json(srcs: Seq<Config>) -> Option<int> {
    json_from(srcs, 0)
}

/// `after` is `before` once `value` was written under `key`: the first
/// document took the write, and nothing else changed.
pub open spec fn routed_write(
    before: Seq<Config>,
    after: Seq<Config>,
    key: Seq<char>,
    value: serde_json::Value,
) -> bool {
    &&& after.len() == before.len()
    &&& match first_json(before) {
        Some(i) => written(before[i], after[i], key, value) && forall|j: int|
            0 <= j < before.len() && j != i ==> after[j] == before[j],
        None => after == before,
    }
}

pub(crate) proof fn lemma_value_skip(srcs: Seq<Config>, key: Seq<char>, i: int)
    requires
        0 <= i <= srcs.len(),
        forall|j: int| 0 <= j < i ==> srcs[j].raw(key) is None,
    ensures
        value_from(srcs, key, 0) == value_from(srcs, key, i),
    decreases i,
{
    if i > 0 {
        lemma_value_skip(srcs, key, i - 1);
    }
}

proof fn lemma_json_skip(srcs: Seq<Config>, i: int)
    requires
        0 <= i <= srcs.len(),
        forall|j: int| 0 <= j < i ==> !(srcs[j] is Json),
    ensures
        json_from(srcs, 0) == json_from(srcs, i),
    decreases i,
{
    if i > 0 {
        lemma_json_skip(srcs, i - 1);
    }
}

/// Configuration sources in precedence order, read and written as one.
pub struct ConfigProvider {
    providers: PriorityProvider<Config>,
}

impl ConfigProvider {
    /// The slots stay sorted, and the extreme slots move by one per
    /// registration, so they never overflow before the count does.
    pub closed spec fn wf(&self) -> bool {
        &&& self.providers.wf()
        &&& -(self.providers.entries().len() as int) <= self.providers.lowest()
        &&& self.providers.upper() <= self.providers.entries().len()
    }

    /// The sources, highest precedence first.
    pub closed spec fn sources(&self) -> Seq<Config> {
        self.providers.items()
    }

    pub fn new() -> (r: ConfigProvider)
        ensures
            r.wf(),
            r.sources().len() == 0,
    {
        ConfigProvider { providers: PriorityProvider::new() }
    }

    /// Registers `config` above every source registered so far.
    pub fn register_top(&mut self, config: Config)
        requires
            old(self).wf(),
            old(self).sources().len() < i64::MAX,
        ensures
            final(self).wf(),
            final(self).sources() == seq![config] + old(self).sources(),
    {
        let ghost before = self.providers.entries();
        self.providers.add_top(config);
        proof {
            assert(self.providers.items() =~= seq![config] + before.map_values(
                |e: (i64, Config)| e.1,
            ));
        }
    }

    /// Registers `config` below every source registered so far.
    pub fn register_default(&mut self, config: Config)
        requires
            old(self).wf(),
            old(self).sources().len() < i64::MAX,
        ensures
            final(self).wf(),
            final(self).sources() == old(self).sources().push(config),
    {
        let ghost before = self.providers.entries();
        self.providers.add(config);
        proof {
            assert(self.providers.items() =~= before.map_values(|e: (i64, Config)| e.1).push(
                config,
            ));
        }
    }

    /// Walks the sources, highest precedence first.
    pub fn iter(&self) -> (r: PriorityProviderIterator<'_, Config>)
        ensures
            r.source().map_values(|e: (i64, Config)| e.1) == self.sources(),
            r.position() == 0,
    {
        self.providers.iter()
    }

    /// The value of `key` read as a `T` from the first source that has one.
    pub fn get<T: ConfigValue>(&self, key: &str) -> (r: Option<T>)
        ensures
            reads_first(self.sources(), key@, r),
    {
        let f = |p: &Config| -> (r: Option<T>)
            ensures
                p.reads(key@, r),
            { p.get(key) };
        let r = self.providers.map_first(&f);
        proof {
            let srcs = self.sources();
            if r is Some {
                let x = r->Some_0;
                let i = choose|i: int|
                    0 <= i < srcs.len() && call_ensures(f, (&srcs[i],), Some(x)) && forall|j: int|
                        0 <= j < i ==> call_ensures(f, (&srcs[j],), None::<T>);
                assert(srcs[i].reads(key@, Some(x)));
                assert(forall|j: int| 0 <= j < i ==> srcs[j].reads(key@, None::<T>));
            }
        }
        r
    }

    /// Stores the raw `value` under `key` in the first document; with no
    /// document among the sources the write is dropped.
    pub fn set_value(&mut self, key: &str, value: serde_json::Value)
        requires
            old(self).wf(),
        ensures
            final(self).wf(),
            routed_write(old(self).sources(), final(self).sources(), key@, value),
    {
        let ghost before = self.providers.entries();
        let ghost srcs = self.sources();
        let f = |p: &Config| -> (r: bool)
            ensures
                r == (*p is Json),
            { p.is_json() };
        match self.providers.first_mut(&f) {
            Some(p) => {
                let ghost i = choose|i: int|
                    0 <= i < srcs.len() && srcs[i] == *p && call_ensures(f, (&srcs[i],), true) && (
                    forall|j: int| 0 <= j < i ==> call_ensures(f, (&srcs[j],), false))
                        && after_borrow(self).providers.entries() == before.update(
                        i,
                        (before[i].0, *final(p)),
                    );
                p.set_value(key, value);
                proof {
                    lemma_json_skip(srcs, i);
                }
            },
            None => {
                proof {
                    lemma_json_skip(srcs, srcs.len() as int);
                }
            },
        }
        proof {
            assert(sorted_keys(self.providers.entries()));
        }
    }

    /// Stores `value` under `key` in the first document; with no document
    /// among the sources the write is dropped.
    pub fn set<T: ConfigValue>(&mut self, key: &str, value: T)
        requires
            old(self).wf(),
        ensures
            final(self).wf(),
            routed_write(old(self).sources(), final(self).sources(), key@, T::json_of(value)),
            first_json(old(self).sources()) is Some ==> T::reads_json(T::json_of(value), Some(value))
                && !json_is_null(T::json_of(value)),
    {
        let ghost before = self.providers.entries();
        let ghost srcs = self.sources();
        let f = |p: &Config| -> (r: bool)
            ensures
                r == (*p is Json),
            { p.is_json() };
        match self.providers.first_mut(&f) {
            Some(p) => {
                let ghost i = choose|i: int|
                    0 <= i < srcs.len() && srcs[i] == *p && call_ensures(f, (&srcs[i],), true) && (
                    forall|j: int| 0 <= j < i ==> call_ensures(f, (&srcs[j],), false))
                        && after_borrow(self).providers.entries() == before.update(
                        i,
                        (before[i].0, *final(p)),
                    );
                p.set(key, value);
                proof {
                    lemma_json_skip(srcs, i);
                }
            },
            None => {
                proof {
                    lemma_json_skip(srcs, srcs.len() as int);
                }
            },
        }
        proof {
            assert(sorted_keys(self.providers.entries()));
        }
    }

    /// Saves every writable document that is not known to be synced, in
    /// precedence order, and returns each save's outcome in that order. A
    /// failed save does not stop the others.
    pub fn sync(&mut self) -> (r: Vec<Result<(), ConfigError>>)
        requires
            old(self).wf(),
        ensures
            final(self).wf(),
            final(self).sources().len() == old(self).sources().len(),
            exists|outs: Seq<Option<Result<(), ConfigError>>>|
                {
                    &&& outs.len() == old(self).sources().len()
                    &&& forall|i: int|
                        0 <= i < outs.len() ==> sync_step(
                            old(self).sources()[i],
                            final(self).sources()[i],
                            #[trigger] outs[i],
                        )
                    &&& r@ == present_values(outs)
                },
    {
        let ghost before = self.providers.entries();
        let f = |c: Config| -> (r: (Config, Option<Result<(), ConfigError>>))
            ensures
                sync_step(c, r.0, r.1),
            {
                match c {
                    Config::Json(mut src) => {
                        if !src.is_synced() && src.can_write() {
                            let res = src.save();
                            (Config::Json(src), Some(res))
                        } else {
                            (Config::Json(src), None)
                        }
                    },
                    other => (other, None),
                }
            };
        let r = self.providers.map_mut(&f);
        proof {
            let srcs = before.map_values(|e: (i64, Config)| e.1);
            let outs = choose|outs: Seq<Option<Result<(), ConfigError>>>|
                {
                    &&& outs.len() == srcs.len()
                    &&& forall|i: int|
                        0 <= i < outs.len() ==> call_ensures(
                            f,
                            (srcs[i],),
                            (self.sources()[i], #[trigger] outs[i]),
                        )
                    &&& r@ == present_values(outs)
                };
            assert(forall|i: int|
                0 <= i < outs.len() ==> sync_step(srcs[i], self.sources()[i], #[trigger] outs[i]));
            assert(sorted_keys(self.providers.entries()));
        }
        r
    }

    /// The raw value of `key` from the first source that has one.
    pub fn get_value(&self, key: &str) -> (r: Option<serde_json::Value>)
        ensures
            r == first_value(self.sources(), key@),
    {
        let f = |p: &Config| -> (r: Option<serde_json::Value>)
            ensures
                r == p.raw(key@),
            { p.get_value(key) };
        let r = self.providers.map_first(&f);
        proof {
            let srcs = self.sources();
            if r is Some {
                let u = r->Some_0;
                let i = choose|i: int|
                    0 <= i < srcs.len() && call_ensures(f, (&srcs[i],), Some(u)) && forall|j: int|
                        0 <= j < i ==> call_ensures(f, (&srcs[j],), None::<serde_json::Value>);
                lemma_value_skip(srcs, key@, i);
            } else {
                lemma_value_skip(srcs, key@, srcs.len() as int);
            }
        }
        r
    }
}

} // verus!
