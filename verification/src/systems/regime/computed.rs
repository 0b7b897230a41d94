//! The computed fields of a regime output row: named values, read the way a
//! JSON object is read, a later entry for a name replacing an earlier one.
use vstd::prelude::*;
use crate::sdk_core::error::SdkError;
use crate::sdk_core::pagination::str_eq;

verus! {

/// A computed value as the service sent it. A number keeps its `f64`
/// reading as bits and its `i64` reading where it has one; a list or an
/// object keeps its JSON text.
#[derive(Debug, Clone, PartialEq)]
pub enum ComputedValue {
    Null,
    Bool(bool),
    Number { f64_bits: u64, as_i64: Option<i64> },
    Str(String),
    Array(String),
    Object(String),
}

/// The computed fields of a row, in the order they were read.
#[derive(Debug, Clone, PartialEq)]
pub struct ComputedFields(pub Vec<(String, ComputedValue)>);

/// Whether entry `i` is the last one named `key`.
pub open spec fn is_last_entry(s: Seq<(String, ComputedValue)>, i: int, key: Seq<char>) -> bool {
    &&& 0 <= i < s.len()
    &&& s[i].0@ == key
    &&& forall|j: int| i < j < s.len() ==> (#[trigger] s[j].0)@ != key
}

/// The value named `key`: that of its last entry, or `None` when no entry
/// has the name.
pub open spec fn field_value(s: Seq<(String, ComputedValue)>, key: Seq<char>) -> Option<ComputedValue> {
    if exists|i: int| is_last_entry(s, i, key) {
        Some(s[choose|i: int| is_last_entry(s, i, key)].1)
    } else {
        None
    }
}

/// Whether a value may stand in a row: null or a number.
pub open spec fn value_allowed(v: ComputedValue) -> bool {
    v is Null || v is Number
}

/// Whether every computed value may stand in a row.
pub open spec fn values_allowed(s: Seq<(String, ComputedValue)>) -> bool {
    forall|i: int| 0 <= i < s.len() ==> value_allowed(#[trigger] s[i].1)
}

/// The fields of numbers read from a protobuf message, in order.
pub open spec fn numeric_entries(s: Seq<(String, u64)>) -> Seq<(String, ComputedValue)> {
    Seq::new(s.len(), |i: int| (s[i].0, ComputedValue::Number { f64_bits: s[i].1, as_i64: None }))
}

/// The last entry named `key` is the only one there is.
proof fn lemma_last_entry_unique(s: Seq<(String, ComputedValue)>, i: int, j: int, key: Seq<char>)
    requires
        is_last_entry(s, i, key),
        is_last_entry(s, j, key),
    ensures
        i == j,
{
    if i < j {
        assert(s[j].0@ == key);
    } else if j < i {
        assert(s[i].0@ == key);
    }
}

impl ComputedFields {
    /// No fields.
    pub fn new() -> (r: Self)
        ensures
            r.0@.len() == 0,
    {
        ComputedFields(Vec::new())
    }

    /// Numbers read from a protobuf message, as fields with no `i64` reading.
    pub fn from_numeric(fields: Vec<(String, u64)>) -> (r: Self)
        ensures
            r.0@ == numeric_entries(fields@),
            values_allowed(r.0@),
    {
        let mut out: Vec<(String, ComputedValue)> = Vec::new();
        let mut i: usize = 0;
        while i < fields.len()
            invariant
                i <= fields.len(),
                out@ == numeric_entries(fields@.take(i as int)),
            decreases fields.len() - i,
        {
            let (name, bits) = (fields[i].0.clone(), fields[i].1);
            out.push((name, ComputedValue::Number { f64_bits: bits, as_i64: None }));
            proof {
                assert(numeric_entries(fields@.take(i + 1)) =~= numeric_entries(fields@.take(i as int)).push(
                    (fields@[i as int].0, ComputedValue::Number { f64_bits: bits, as_i64: None }),
                ));
            }
            i = i + 1;
        }
        proof {
            assert(fields@.take(fields@.len() as int) =~= fields@);
        }
        ComputedFields(out)
    }

    /// The value named `key`, if any.
    pub fn get(&self, key: &str) -> (r: Option<&ComputedValue>)
        ensures
            match r {
                Some(v) => field_value(self.0@, key@) == Some(*v),
                None => field_value(self.0@, key@) is None,
            },
    {
        let s = &self.0;
        let mut i: usize = s.len();
        while i > 0
            invariant
                s@ == self.0@,
                i <= s@.len(),
                forall|j: int| i <= j < s@.len() ==> (#[trigger] s@[j].0)@ != key@,
            decreases i,
        {
            i = i - 1;
            if str_eq(s[i].0.as_str(), key) {
                proof {
                    assert(is_last_entry(self.0@, i as int, key@));
                    let c = choose|c: int| is_last_entry(self.0@, c, key@);
                    lemma_last_entry_unique(self.0@, c, i as int, key@);
                    assert(field_value(self.0@, key@) == Some(self.0@[i as int].1));
                }
                return Some(&self.0[i].1);
            }
        }
        proof {
            if exists|c: int| is_last_entry(s@, c, key@) {
                let c = choose|c: int| is_last_entry(s@, c, key@);
                assert(s@[c].0@ == key@);
            }
        }
        None
    }

    /// The `f64` reading, as bits, of the number named `key`.
    pub fn f64_bits(&self, key: &str) -> (r: Option<u64>)
        ensures
            r == (match field_value(self.0@, key@) {
                Some(ComputedValue::Number { f64_bits, .. }) => Some(f64_bits),
                _ => None::<u64>,
            }),
    {
        match self.get(key) {
            Some(ComputedValue::Number { f64_bits, .. }) => Some(*f64_bits),
            _ => None,
        }
    }

    /// The `i64` reading of the number named `key`, where it has one.
    pub fn i64(&self, key: &str) -> (r: Option<i64>)
        ensures
            r == (match field_value(self.0@, key@) {
                Some(ComputedValue::Number { as_i64, .. }) => as_i64,
                _ => None::<i64>,
            }),
    {
        match self.get(key) {
            Some(ComputedValue::Number { as_i64, .. }) => *as_i64,
            _ => None,
        }
    }

    /// The boolean named `key`.
    pub fn bool(&self, key: &str) -> (r: Option<bool>)
        ensures
            r == (match field_value(self.0@, key@) {
                Some(ComputedValue::Bool(b)) => Some(b),
                _ => None::<bool>,
            }),
    {
        match self.get(key) {
            Some(ComputedValue::Bool(b)) => Some(*b),
            _ => None,
        }
    }

    /// The string named `key`.
    pub fn str_value(&self, key: &str) -> (r: Option<&str>)
        ensures
            match r {
                Some(t) => field_value(self.0@, key@) matches Some(ComputedValue::Str(s)) && t@ == s@,
                None => !(field_value(self.0@, key@) matches Some(ComputedValue::Str(_))),
            },
    {
        match self.get(key) {
            Some(ComputedValue::Str(s)) => Some(s.as_str()),
            _ => None,
        }
    }

    /// The entries, in the order they were read.
    pub fn iter(&self) -> (r: &Vec<(String, ComputedValue)>)
        ensures
            r@ == self.0@,
    {
        &self.0
    }

    pub fn is_empty(&self) -> (r: bool)
        ensures
            r == (self.0@.len() == 0),
    {
        self.0.len() == 0
    }

    pub fn len(&self) -> (r: usize)
        ensures
            r == self.0@.len(),
    {
        self.0.len()
    }

    /// The entries, in the order they were read.
    pub fn into_inner(self) -> (r: Vec<(String, ComputedValue)>)
        ensures
            r@ == self.0@,
    {
        self.0
    }

    /// Ok when every value is null or a number; else the first other value
    /// is contract drift.
    pub fn validate(&self, context: &str) -> (r: Result<(), SdkError>)
        ensures
            r is Ok <==> values_allowed(self.0@),
            r matches Err(e) ==> exists|i: int|
                0 <= i < self.0@.len() && !value_allowed(#[trigger] self.0@[i].1) && (forall|j: int|
                    0 <= j < i ==> value_allowed(#[trigger] self.0@[j].1)) && (e matches SdkError::ContractDrift {
                    message,
                } && message@ == context@ + " computed field `"@ + self.0@[i].0@
                    + "` must be null or numeric"@),
    {
        let s = &self.0;
        let mut i: usize = 0;
        while i < s.len()
            invariant
                s@ == self.0@,
                i <= s@.len(),
                forall|j: int| 0 <= j < i ==> value_allowed(#[trigger] s@[j].1),
            decreases s.len() - i,
        {
            match &s[i].1 {
                ComputedValue::Null => {},
                ComputedValue::Number { .. } => {},
                _ => {
                    proof {
                        assert(!value_allowed(self.0@[i as int].1));
                        assert(forall|j: int| 0 <= j < i ==> value_allowed(#[trigger] self.0@[j].1));
                    }
                    return Err(
                        SdkError::contract_drift(
                            String::from_str(context).concat(" computed field `").concat(
                                s[i].0.as_str(),
                            ).concat("` must be null or numeric"),
                        ),
                    );
                },
            }
            i = i + 1;
        }
        Ok(())
    }
}

} // verus!
