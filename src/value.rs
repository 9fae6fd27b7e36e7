//! Typed access to configuration values: how a Rust value is read from a
//! JSON value or from the text of an environment variable, and written back.
use vstd::prelude::*;
use crate::json::{
    i32_from_json, json_from_i32, json_from_string, json_i32, json_i32_of, json_is_null,
    json_string, json_string_of, string_from_json,
};

verus! {

/// A type that configuration values can be read as and written from.
pub trait ConfigValue: Sized {
    /// Whether reading the JSON value `v` as this type gives `r`.
    spec fn reads_json(v: serde_json::Value, r: Option<Self>) -> bool;

    /// Whether reading the text `s` as this type gives `r`.
    spec fn reads_text(s: Seq<char>, r: Option<Self>) -> bool;

    /// The JSON value that `x` is stored as.
    spec fn json_of(x: Self) -> serde_json::Value;

    /// Whether a value is found does not depend on which reading is taken.
    proof fn lemma_reads_json_found(v: serde_json::Value, a: Option<Self>, b: Option<Self>)
        requires
            Self::reads_json(v, a),
            Self::reads_json(v, b),
        ensures
            a is Some <==> b is Some,
    ;

    /// Whether a text reads as a value does not depend on which reading is taken.
    proof fn lemma_reads_text_found(s: Seq<char>, a: Option<Self>, b: Option<Self>)
        requires
            Self::reads_text(s, a),
            Self::reads_text(s, b),
        ensures
            a is Some <==> b is Some,
    ;

    fn from_json(v: &serde_json::Value) -> (r: Option<Self>)
        ensures
            Self::reads_json(*v, r),
    ;

    fn from_text(s: &str) -> (r: Option<Self>)
        ensures
            Self::reads_text(s@, r),
    ;

    fn into_json(self) -> (r: serde_json::Value)
        ensures
            r == Self::json_of(self),
            !json_is_null(r),
            Self::reads_json(r, Some(self)),
    ;
}

impl ConfigValue for String {
    open spec fn reads_json(v: serde_json::Value, r: Option<String>) -> bool {
        match json_string_of(v) {
            Some(t) => r matches Some(x) && x@ == t,
            None => r is None,
        }
    }

    open spec fn reads_text(s: Seq<char>, r: Option<String>) -> bool {
        r matches Some(x) && x@ == s
    }

    open spec fn json_of(x: String) -> serde_json::Value {
        json_from_string(x@)
    }

    proof fn lemma_reads_json_found(v: serde_json::Value, a: Option<String>, b: Option<String>) {
    }

    proof fn lemma_reads_text_found(s: Seq<char>, a: Option<String>, b: Option<String>) {
    }

    fn from_json(v: &serde_json::Value) -> (r: Option<String>) {
        string_from_json(v.clone())
    }

    fn from_text(s: &str) -> (r: Option<String>) {
        Some(s.to_string())
    }

    fn into_json(self) -> (r: serde_json::Value) {
        json_string(self)
    }
}

/// The value of a non-empty run of decimal digits.
pub open spec fn digits_value(s: Seq<char>) -> int
    decreases s.len(),
{
    if s.len() == 0 {
        0
    } else {
        digits_value(s.drop_last()) * 10 + (s.last() as int - '0' as int)
    }
}

/// Whether `s` is a non-empty run of ASCII decimal digits.
pub open spec fn is_digits(s: Seq<char>) -> bool {
    s.len() > 0 && forall|i: int| 0 <= i < s.len() ==> '0' <= #[trigger] s[i] <= '9'
}

/// A decimal integer with an optional leading `+` or `-`, within the range of
/// `i32`; nothing else (no blanks) is accepted.
pub open spec fn decimal_i32(s: Seq<char>) -> Option<i32> {
    let signed = s.len() > 0 && (s[0] == '-' || s[0] == '+');
    let body = if signed {
        s.drop_first()
    } else {
        s
    };
    let v = if s.len() > 0 && s[0] == '-' {
        -digits_value(body)
    } else {
        digits_value(body)
    };
    if is_digits(body) && i32::MIN <= v <= i32::MAX {
        Some(v as i32)
    } else {
        None
    }
}

/// Relies on `str::parse::<i32>`, whose documentation gives the accepted form
/// stated by `decimal_i32`.
#[verifier::external_body]
fn parse_i32(s: &str) -> (r: Option<i32>)
    ensures
        r == decimal_i32(s@),
{
    s.parse::<i32>().ok()
}

impl ConfigValue for i32 {
    open spec fn reads_json(v: serde_json::Value, r: Option<i32>) -> bool {
        r == json_i32_of(v)
    }

    open spec fn reads_text(s: Seq<char>, r: Option<i32>) -> bool {
        r == decimal_i32(s)
    }

    open spec fn json_of(x: i32) -> serde_json::Value {
        json_from_i32(x)
    }

    proof fn lemma_reads_json_found(v: serde_json::Value, a: Option<i32>, b: Option<i32>) {
    }

    proof fn lemma_reads_text_found(s: Seq<char>, a: Option<i32>, b: Option<i32>) {
    }

    fn from_json(v: &serde_json::Value) -> (r: Option<i32>) {
        i32_from_json(v.clone())
    }

    fn from_text(s: &str) -> (r: Option<i32>) {
        parse_i32(s)
    }

    fn into_json(self) -> (r: serde_json::Value) {
        json_i32(self)
    }
}

} // verus!
