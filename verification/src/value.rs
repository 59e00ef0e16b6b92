//! The library's own model of a parsed JSON document.
//!
//! Message payloads arrive as JSON text; parsing the text is an outside
//! concern, but every rule that reads the parsed document is stated and
//! verified over this type. A number is kept as the parser's decimal parts
//! (sign, mantissa, exponent), so integer extraction has an exact meaning.

use vstd::prelude::*;

verus! {

/// A JSON number as decimal parts: `mantissa * 10^exponent`, negated when
/// `positive` is false.
#[derive(Clone, Copy, Debug, PartialEq, Eq, Structural)]
pub struct JsonNum {
    pub positive: bool,
    pub mantissa: u64,
    pub exponent: i16,
}

/// A parsed JSON value.
#[derive(Debug, PartialEq)]
pub enum Json {
    Null,
    Bool(bool),
    Num(JsonNum),
    Str(String),
    Arr(Vec<Json>),
    Obj(Vec<(String, Json)>),
}

/// The value behind an optional reference, a missing one reading as `Null`.
pub open spec fn denote(v: Option<&Json>) -> Json {
    match v {
        Some(j) => *j,
        None => Json::Null,
    }
}

impl Json {
    /// The value of the first entry of `entries` whose key reads `key`, or
    /// `Null` when no entry does.
    pub open spec fn spec_obj_get(entries: Seq<(String, Json)>, key: Seq<char>) -> Json
        decreases entries.len(),
    {
        if entries.len() == 0 {
            Json::Null
        } else if entries[0].0@ == key {
            entries[0].1
        } else {
            Self::spec_obj_get(entries.skip(1), key)
        }
    }

    /// Member lookup: `Null` on a missing key or a non-object.
    pub open spec fn spec_get(self, key: Seq<char>) -> Json {
        match self {
            Json::Obj(es) => Self::spec_obj_get(es@, key),
            _ => Json::Null,
        }
    }

    /// Element lookup: `Null` out of bounds or on a non-array.
    pub open spec fn spec_at(self, i: int) -> Json {
        match self {
            Json::Arr(a) => if 0 <= i < a@.len() {
                a@[i]
            } else {
                Json::Null
            },
            _ => Json::Null,
        }
    }

    pub open spec fn spec_str(self) -> Option<String> {
        match self {
            Json::Str(s) => Some(s),
            _ => None,
        }
    }

    pub open spec fn spec_bool(self) -> Option<bool> {
        match self {
            Json::Bool(b) => Some(b),
            _ => None,
        }
    }

    /// The value as a `u32`: a non-negative integer (exponent zero) in range.
    pub open spec fn spec_u32(self) -> Option<u32> {
        match self {
            Json::Num(n) => if n.positive && n.exponent == 0 && n.mantissa <= u32::MAX {
                Some(n.mantissa as u32)
            } else {
                None
            },
            _ => None,
        }
    }

    /// The value as an `i32`: an integer (exponent zero) in range, negated
    /// when the sign is negative.
    pub open spec fn spec_i32(self) -> Option<i32> {
        match self {
            Json::Num(n) => if n.exponent == 0 && n.positive && n.mantissa <= i32::MAX as u64 {
                Some(n.mantissa as i32)
            } else if n.exponent == 0 && !n.positive && n.mantissa <= 0x8000_0000 {
                Some((-(n.mantissa as i64)) as i32)
            } else {
                None
            },
            _ => None,
        }
    }

    /// Whether the value is the number zero, at any sign or scale.
    pub open spec fn spec_is_zero(self) -> bool {
        self matches Json::Num(n) && n.mantissa == 0
    }

    /// Whether the value is the integer one.
    pub open spec fn spec_is_one(self) -> bool {
        self matches Json::Num(n) && n.positive && n.mantissa == 1 && n.exponent == 0
    }

    #[verifier::loop_isolation(false)]
    pub fn get<'a>(&'a self, key: &str) -> (r: Option<&'a Json>)
        ensures
            denote(r) == self.spec_get(key@),
    {
        match self {
            Json::Obj(entries) => {
                let mut i: usize = 0;
                proof {
                    assert(entries@.skip(0) =~= entries@);
                }
                while i < entries.len()
                    invariant
                        i <= entries.len(),
                        Self::spec_obj_get(entries@.skip(i as int), key@) == Self::spec_obj_get(
                            entries@,
                            key@,
                        ),
                    decreases entries.len() - i,
                {
                    if str_eq(entries[i].0.as_str(), key) {
                        proof {
                            assert(entries@.skip(i as int)[0] == entries@[i as int]);
                            assert(Self::spec_obj_get(entries@.skip(i as int), key@)
                                == entries@[i as int].1);
                            assert(self is Obj && (self->Obj_0)@ == entries@);
                            assert(self.spec_get(key@) == Self::spec_obj_get(entries@, key@));
                        }
                        return Some(&entries[i].1);
                    }
                    proof {
                        assert(entries@.skip(i as int)[0] == entries@[i as int]);
                        assert(entries@.skip(i as int).skip(1) =~= entries@.skip(i as int + 1));
                    }
                    i = i + 1;
                }
                None
            },
            _ => None,
        }
    }

    pub fn at<'a>(&'a self, i: usize) -> (r: Option<&'a Json>)
        ensures
            denote(r) == self.spec_at(i as int),
    {
        match self {
            Json::Arr(a) => if i < a.len() {
                Some(&a[i])
            } else {
                None
            },
            _ => None,
        }
    }
}

/// Whether two strings read the same.
pub fn str_eq(a: &str, b: &str) -> (r: bool)
    ensures
        r == (a@ == b@),
{
    let sa: String = a.to_owned();
    let sb: String = b.to_owned();
    sa == sb
}

pub fn opt_get<'a>(v: Option<&'a Json>, key: &str) -> (r: Option<&'a Json>)
    ensures
        denote(r) == denote(v).spec_get(key@),
{
    match v {
        Some(j) => j.get(key),
        None => None,
    }
}

pub fn opt_at<'a>(v: Option<&'a Json>, i: usize) -> (r: Option<&'a Json>)
    ensures
        denote(r) == denote(v).spec_at(i as int),
{
    match v {
        Some(j) => j.at(i),
        None => None,
    }
}

pub fn opt_str(v: Option<&Json>) -> (r: Option<String>)
    ensures
        r == denote(v).spec_str(),
{
    match v {
        Some(Json::Str(s)) => Some(s.clone()),
        _ => None,
    }
}

pub fn opt_bool(v: Option<&Json>) -> (r: Option<bool>)
    ensures
        r == denote(v).spec_bool(),
{
    match v {
        Some(Json::Bool(b)) => Some(*b),
        _ => None,
    }
}

pub fn opt_u32(v: Option<&Json>) -> (r: Option<u32>)
    ensures
        r == denote(v).spec_u32(),
{
    match v {
        Some(Json::Num(n)) => if n.positive && n.exponent == 0 && n.mantissa <= u32::MAX as u64 {
            Some(n.mantissa as u32)
        } else {
            None
        },
        _ => None,
    }
}

pub fn opt_i32(v: Option<&Json>) -> (r: Option<i32>)
    ensures
        r == denote(v).spec_i32(),
{
    match v {
        Some(Json::Num(n)) => if n.exponent == 0 && n.positive && n.mantissa <= i32::MAX as u64 {
            Some(n.mantissa as i32)
        } else if n.exponent == 0 && !n.positive && n.mantissa <= 0x8000_0000 {
            Some((-(n.mantissa as i64)) as i32)
        } else {
            None
        },
        _ => None,
    }
}

/// Whether the value is the number zero, at any sign or scale.
pub fn opt_is_zero(v: Option<&Json>) -> (r: bool)
    ensures
        r == denote(v).spec_is_zero(),
{
    match v {
        Some(Json::Num(n)) => n.mantissa == 0,
        _ => false,
    }
}

/// Whether the value is the integer one.
pub fn opt_is_one(v: Option<&Json>) -> (r: bool)
    ensures
        r == denote(v).spec_is_one(),
{
    match v {
        Some(Json::Num(n)) => n.positive && n.mantissa == 1 && n.exponent == 0,
        _ => false,
    }
}

} // verus!
