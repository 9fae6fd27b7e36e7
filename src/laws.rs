//! Laws of the resolver, proved over the contracts of its operations.
use vstd::prelude::*;
use crate::config::{sync_step, Config};
use crate::config_json::{member_value, ConfigJson};
use crate::error::ConfigError;
use crate::json::json_is_null;
use crate::priority_provider::present_values;
use crate::provider::{
    first_json, first_value, json_from, lemma_value_skip, reads_first, routed_write,
};
use crate::value::ConfigValue;

verus! {

proof fn lemma_json_from_found(srcs: Seq<Config>, k: int)
    requires
        0 <= k,
        json_from(srcs, k) is Some,
    ensures
        k <= json_from(srcs, k)->Some_0 < srcs.len(),
        srcs[json_from(srcs, k)->Some_0] is Json,
        forall|j: int| k <= j < json_from(srcs, k)->Some_0 ==> !(srcs[j] is Json),
    decreases srcs.len() - k,
{
    if !(srcs[k] is Json) {
        lemma_json_from_found(srcs, k + 1);
    }
}

/// Round trip: once a value other than `null` is written under `key`, a read
/// of `key` gives it back, provided some source takes writes and no source
/// above the one written to holds `key`.
pub proof fn lemma_write_then_read(
    before: Seq<Config>,
    after: Seq<Config>,
    key: Seq<char>,
    value: serde_json::Value,
)
    requires
        routed_write(before, after, key, value),
        first_json(before) is Some,
        forall|j: int| 0 <= j < first_json(before)->Some_0 ==> before[j].raw(key) is None,
        !json_is_null(value),
    ensures
        first_value(after, key) == Some(value),
{
    lemma_json_from_found(before, 0);
    let i = first_json(before)->Some_0;
    assert forall|j: int| 0 <= j < i implies after[j].raw(key) is None by {
        assert(after[j] == before[j]);
    }
    lemma_value_skip(after, key, i);
    let d2 = after[i]->Json_0;
    assert(d2.value(key) == Some(value));
}

/// Typed round trip: once `x` is written under `key` as a `T`, a read of
/// `key` as a `T` finds `x`, and whatever it gives reads the stored value as
/// a `T` (for `i32`, exactly `x`; for `String`, a string with the text of
/// `x`), provided some source takes writes and no source above the one
/// written to holds `key`. The two facts on the stored value
/// are what a write through the resolver ensures of it.
pub proof fn lemma_typed_write_then_read<T: ConfigValue>(
    before: Seq<Config>,
    after: Seq<Config>,
    key: Seq<char>,
    x: T,
)
    requires
        routed_write(before, after, key, T::json_of(x)),
        first_json(before) is Some,
        forall|j: int| 0 <= j < first_json(before)->Some_0 ==> before[j].raw(key) is None,
        T::reads_json(T::json_of(x), Some(x)),
        !json_is_null(T::json_of(x)),
    ensures
        reads_first(after, key, Some(x)),
        forall|r: Option<T>|
            reads_first(after, key, r) ==> r is Some && T::reads_json(T::json_of(x), r),
{
    lemma_json_from_found(before, 0);
    let i = first_json(before)->Some_0;
    assert forall|j: int| 0 <= j < i implies after[j].reads(key, None::<T>) by {
        assert(after[j] == before[j]);
    }
    let d2 = after[i]->Json_0;
    assert(d2.value(key) == Some(T::json_of(x)));
    assert(after[i].reads(key, Some(x)));
    assert forall|r: Option<T>| reads_first(after, key, r) implies r is Some && T::reads_json(
        T::json_of(x),
        r,
    ) by {
        lemma_first_match_typed(after, key, i, x, r);
    }
}

/// First match: when two sources hold different values for `key`, a read
/// gives the value of the one with higher precedence, provided none above it
/// holds `key`, and never the other's.
pub proof fn lemma_first_match(srcs: Seq<Config>, key: Seq<char>, i: int, j: int)
    requires
        0 <= i < j < srcs.len(),
        srcs[i].raw(key) is Some,
        srcs[j].raw(key) is Some,
        srcs[i].raw(key) != srcs[j].raw(key),
        forall|l: int| 0 <= l < i ==> srcs[l].raw(key) is None,
    ensures
        first_value(srcs, key) == srcs[i].raw(key),
        first_value(srcs, key) != srcs[j].raw(key),
{
    lemma_value_skip(srcs, key, i);
}

/// A source registered on top outranks every source registered before it,
/// whatever their order: where it holds `key`, a read gives its value.
pub proof fn lemma_top_outranks(top: Config, rest: Seq<Config>, key: Seq<char>)
    requires
        top.raw(key) is Some,
    ensures
        first_value(seq![top] + rest, key) == top.raw(key),
{
    assert((seq![top] + rest)[0] == top);
}

proof fn lemma_reads_found<T: ConfigValue>(c: Config, key: Seq<char>, a: Option<T>, b: Option<T>)
    requires
        c.reads(key, a),
        c.reads(key, b),
    ensures
        a is Some <==> b is Some,
{
    match c {
        Config::Json(d) => {
            if let Some(v) = d.value(key) {
                T::lemma_reads_json_found(v, a, b);
            }
        },
        Config::Env(e) => {
            if let Some(s) = e.text(key) {
                T::lemma_reads_text_found(s, a, b);
            }
        },
        Config::Absent => {},
    }
}

/// First match for reads as a type: when the source at index `i` reads `key`
/// as a `T` and none above it does, whatever a read of `key` as a `T` through
/// all sources gives is a value, and it is one that source gives. A source
/// further down that gives another value is never what the read returns.
pub proof fn lemma_first_match_typed<T: ConfigValue>(
    srcs: Seq<Config>,
    key: Seq<char>,
    i: int,
    x: T,
    r: Option<T>,
)
    requires
        0 <= i < srcs.len(),
        srcs[i].reads(key, Some(x)),
        forall|l: int| 0 <= l < i ==> srcs[l].reads(key, None::<T>),
        reads_first(srcs, key, r),
    ensures
        r is Some,
        srcs[i].reads(key, r),
{
    if r is None {
        lemma_reads_found(srcs[i], key, Some(x), None::<T>);
    } else {
        let y = r->Some_0;
        let m = choose|m: int|
            0 <= m < srcs.len() && srcs[m].reads(key, Some(y)) && forall|j: int|
                0 <= j < m ==> srcs[j].reads(key, None::<T>);
        if m < i {
            lemma_reads_found(srcs[m], key, Some(y), None::<T>);
        } else if m > i {
            lemma_reads_found(srcs[i], key, Some(x), None::<T>);
        }
    }
}

/// A source registered on top outranks every source registered before it
/// for reads as a type too: where it reads `key` as `x`, so does the resolver.
pub proof fn lemma_top_outranks_typed<T: ConfigValue>(
    top: Config,
    rest: Seq<Config>,
    key: Seq<char>,
    x: T,
)
    requires
        top.reads(key, Some(x)),
    ensures
        reads_first(seq![top] + rest, key, Some(x)),
{
    assert((seq![top] + rest)[0] == top);
}

/// A member holding `null` reads exactly as a member that is absent, both raw
/// and as any type.
pub proof fn lemma_null_reads_as_absent<T: ConfigValue>(
    with_null: ConfigJson,
    without: ConfigJson,
    members: Map<Seq<char>, serde_json::Value>,
    key: Seq<char>,
    null: serde_json::Value,
    r: Option<T>,
)
    requires
        json_is_null(null),
        with_null.entries() == Some(members.insert(key, null)),
        without.entries() == Some(members.remove(key)),
    ensures
        Config::Json(with_null).raw(key) == Config::Json(without).raw(key),
        Config::Json(with_null).reads(key, r) == Config::Json(without).reads(key, r),
{
    assert(member_value(with_null.entries(), key) is None);
    assert(member_value(without.entries(), key) is None);
}

proof fn lemma_no_present_values<U>(outs: Seq<Option<U>>)
    requires
        forall|i: int| 0 <= i < outs.len() ==> outs[i] is None,
    ensures
        present_values(outs).len() == 0,
    decreases outs.len(),
{
    if outs.len() > 0 {
        lemma_no_present_values(outs.drop_last());
    }
}

/// Idempotence of sync: right after a sync in which every save succeeded, a
/// second sync saves nothing.
pub proof fn lemma_sync_idempotent(
    s0: Seq<Config>,
    s1: Seq<Config>,
    outs1: Seq<Option<Result<(), ConfigError>>>,
    s2: Seq<Config>,
    outs2: Seq<Option<Result<(), ConfigError>>>,
)
    requires
        s1.len() == s0.len(),
        outs1.len() == s0.len(),
        forall|i: int| 0 <= i < s0.len() ==> sync_step(s0[i], s1[i], #[trigger] outs1[i]),
        s2.len() == s1.len(),
        outs2.len() == s1.len(),
        forall|i: int| 0 <= i < s1.len() ==> sync_step(s1[i], s2[i], #[trigger] outs2[i]),
        forall|i: int|
            0 <= i < outs1.len() ==> (#[trigger] outs1[i] matches Some(res) ==> res is Ok),
    ensures
        present_values(outs2).len() == 0,
{
    assert forall|i: int| 0 <= i < outs2.len() implies outs2[i] is None by {
        assert(sync_step(s0[i], s1[i], outs1[i]));
        assert(sync_step(s1[i], s2[i], outs2[i]));
    }
    lemma_no_present_values(outs2);
}

} // verus!
