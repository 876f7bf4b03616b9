//! Structured protocol values: the data that travels inside envelopes.
//!
//! A `Value` mirrors what the wire codec can carry — nil, booleans,
//! integers, text, binary blobs, arrays, maps and extension values — as
//! plain data that the rest of the library can inspect and reason about.

use vstd::prelude::*;

verus! {

/// A structured protocol value.
///
/// Floating-point payloads are outside this library's value model; the
/// conversion at the process edge maps them to `Nil`.
#[derive(Debug)]
pub enum Value {
    Nil,
    Boolean(bool),
    Int(i64),
    Uint(u64),
    Text(String),
    Binary(Vec<u8>),
    Array(Vec<Value>),
    Dict(Vec<Pair<Value, Value>>),
    Extended(i8, Vec<u8>),
}

/// One key/value pair of a map value.
#[derive(Debug)]
pub struct Pair<K, V> {
    pub key: K,
    pub val: V,
}

/// The model of one map entry.
#[verifier::ext_equal]
pub ghost struct EntryModel {
    pub key: ValueModel,
    pub val: ValueModel,
}

/// The mathematical model of a `Value`.
#[verifier::ext_equal]
pub enum ValueModel {
    Nil,
    Boolean(bool),
    Int(int),
    Uint(int),
    Text(Seq<char>),
    Binary(Seq<u8>),
    Array(Seq<ValueModel>),
    Dict(Seq<EntryModel>),
    Extended(int, Seq<u8>),
}

impl DeepView for Value {
    type V = ValueModel;

    open spec fn deep_view(&self) -> ValueModel
        decreases self,
    {
        match self {
            Value::Nil => ValueModel::Nil,
            Value::Boolean(b) => ValueModel::Boolean(*b),
            Value::Int(i) => ValueModel::Int(*i as int),
            Value::Uint(u) => ValueModel::Uint(*u as int),
            Value::Text(s) => ValueModel::Text(s@),
            Value::Binary(b) => ValueModel::Binary(b@),
            Value::Array(xs) => ValueModel::Array(
                Seq::new(
                    xs@.len(),
                    |i: int|
                        if 0 <= i < xs@.len() {
                            xs@[i].deep_view()
                        } else {
                            ValueModel::Nil
                        },
                ),
            ),
            Value::Dict(es) => ValueModel::Dict(
                Seq::new(
                    es@.len(),
                    |i: int|
                        if 0 <= i < es@.len() {
                            EntryModel { key: es@[i].key.deep_view(), val: es@[i].val.deep_view() }
                        } else {
                            EntryModel { key: ValueModel::Nil, val: ValueModel::Nil }
                        },
                ),
            ),
            Value::Extended(t, d) => ValueModel::Extended(*t as int, d@),
        }
    }
}

/// The model of a sequence of values.
pub open spec fn values_model(xs: Seq<Value>) -> Seq<ValueModel> {
    Seq::new(xs.len(), |i: int| xs[i].deep_view())
}

/// The model of a sequence of map entries.
pub open spec fn entries_model(es: Seq<Pair<Value, Value>>) -> Seq<EntryModel> {
    Seq::new(
        es.len(),
        |i: int| EntryModel { key: es[i].key.deep_view(), val: es[i].val.deep_view() },
    )
}

/// The model of an array value is the pointwise model of its elements.
pub proof fn lemma_array_model(v: Value)
    requires
        v matches Value::Array(_),
    ensures
        v.deep_view() == ValueModel::Array(values_model(v->Array_0@)),
{
    let xs = v->Array_0;
    match v.deep_view() {
        ValueModel::Array(s) => {
            assert(s.len() == values_model(xs@).len());
            assert forall|i: int| 0 <= i < s.len() implies s[i] == values_model(xs@)[i] by {
                assert(s[i] == xs@[i].deep_view());
                assert(values_model(xs@)[i] == xs@[i].deep_view());
            }
            assert(s =~= values_model(xs@));
        },
        _ => {
            assert(false);
        },
    }
}

/// The model of a map value is the pointwise model of its entries.
pub proof fn lemma_dict_model(v: Value)
    requires
        v matches Value::Dict(_),
    ensures
        v.deep_view() == ValueModel::Dict(entries_model(v->Dict_0@)),
{
    let es = v->Dict_0;
    match v.deep_view() {
        ValueModel::Dict(s) => {
            assert(s.len() == entries_model(es@).len());
            assert forall|i: int| 0 <= i < s.len() implies s[i] == entries_model(es@)[i] by {
                assert(s[i] == EntryModel {
                    key: es@[i].key.deep_view(),
                    val: es@[i].val.deep_view(),
                });
                assert(entries_model(es@)[i] == EntryModel {
                    key: es@[i].key.deep_view(),
                    val: es@[i].val.deep_view(),
                });
            }
            assert(s =~= entries_model(es@));
        },
        _ => {
            assert(false);
        },
    }
}

/// The first entry of `es` whose key is the text `key`, if any.
///
/// A map carries its entries in wire order and a lookup takes the first
/// match, as the codec's own map accessor does.
pub open spec fn dict_lookup(es: Seq<EntryModel>, key: Seq<char>) -> Option<ValueModel>
    decreases es.len(),
{
    if es.len() == 0 {
        None
    } else if es[0].key == ValueModel::Text(key) {
        Some(es[0].val)
    } else {
        dict_lookup(es.drop_first(), key)
    }
}

/// A lookup finds the first matching entry.
proof fn lemma_dict_lookup_first_match(es: Seq<EntryModel>, key: Seq<char>, i: int)
    requires
        0 <= i < es.len(),
        forall|j: int| 0 <= j < i ==> es[j].key != ValueModel::Text(key),
        es[i].key == ValueModel::Text(key),
    ensures
        dict_lookup(es, key) == Some(es[i].val),
    decreases i,
{
    if i > 0 {
        assert(forall|j: int|
            0 <= j < i - 1 ==> es.drop_first()[j] == es[j + 1] && es[j
                + 1].key != ValueModel::Text(key));
        lemma_dict_lookup_first_match(es.drop_first(), key, i - 1);
    }
}

/// A lookup over entries none of which carries the key finds nothing.
proof fn lemma_dict_lookup_none(es: Seq<EntryModel>, key: Seq<char>)
    requires
        forall|j: int| 0 <= j < es.len() ==> es[j].key != ValueModel::Text(key),
    ensures
        dict_lookup(es, key) is None,
    decreases es.len(),
{
    if es.len() > 0 {
        assert(forall|j: int|
            0 <= j < es.len() - 1 ==> es.drop_first()[j] == es[j + 1] && es[j
                + 1].key != ValueModel::Text(key));
        lemma_dict_lookup_none(es.drop_first(), key);
    }
}

impl Value {
    /// Look a text key up in a map value; `None` when this value is not a
    /// map or no entry has that key.
    pub fn lookup<'a>(&'a self, key: &String) -> (r: Option<&'a Value>)
        ensures
            match r {
                Some(v) => self.deep_view() matches ValueModel::Dict(es) && dict_lookup(
                    es,
                    key@,
                ) == Some(v.deep_view()),
                None => self.deep_view() matches ValueModel::Dict(es) ==> dict_lookup(
                    es,
                    key@,
                ) is None,
            },
    {
        match self {
            Value::Dict(es) => {
                proof {
                    lemma_dict_model(*self);
                    assert(*es == (*self)->Dict_0);
                    assert(self.deep_view() == ValueModel::Dict(entries_model(es@)));
                }
                let ghost m = entries_model(es@);
                let n = es.len();
                for i in 0..n
                    invariant
                        n == es.len(),
                        m == entries_model(es@),
                        m.len() == n,
                        self.deep_view() == ValueModel::Dict(m),
                        forall|j: int| 0 <= j < i ==> m[j].key != ValueModel::Text(key@),
                {
                    let e = &es[i];
                    proof {
                        assert(*e == es@[i as int]);
                        assert(m[i as int] == EntryModel {
                            key: e.key.deep_view(),
                            val: e.val.deep_view(),
                        });
                    }
                    match &e.key {
                        Value::Text(s) => {
                            if *s == *key {
                                proof {
                                    assert(e.key.deep_view() == ValueModel::Text(s@));
                                    assert(m[i as int].key == ValueModel::Text(key@));
                                    lemma_dict_lookup_first_match(m, key@, i as int);
                                    assert(self.deep_view() == ValueModel::Dict(m));
                                    assert(dict_lookup(m, key@) == Some(e.val.deep_view()));
                                }
                                return Some(&e.val);
                            }
                        },
                        _ => {},
                    }
                }
                proof {
                    lemma_dict_lookup_none(m, key@);
                }
                None
            },
            _ => None,
        }
    }

    /// The unsigned integer carried by this value, when it holds one that
    /// fits an unsigned 64-bit range.
    pub fn as_uint(&self) -> (r: Option<u64>)
        ensures
            r == uint_of(self.deep_view()),
    {
        match self {
            Value::Int(i) => {
                if *i >= 0 {
                    Some(*i as u64)
                } else {
                    None
                }
            },
            Value::Uint(u) => Some(*u),
            _ => None,
        }
    }

    /// The integer carried by this value, when it holds one that fits a
    /// signed 64-bit range.
    pub fn as_int(&self) -> (r: Option<i64>)
        ensures
            r == int_of(self.deep_view()),
    {
        match self {
            Value::Int(i) => Some(*i),
            Value::Uint(u) => {
                if *u <= i64::MAX as u64 {
                    Some(*u as i64)
                } else {
                    None
                }
            },
            _ => None,
        }
    }
}

/// The unsigned integer a value carries, when it fits an unsigned 64-bit
/// range.
pub open spec fn uint_of(m: ValueModel) -> Option<u64> {
    match m {
        ValueModel::Int(i) => if 0 <= i {
            Some(i as u64)
        } else {
            None
        },
        ValueModel::Uint(u) => if 0 <= u <= u64::MAX {
            Some(u as u64)
        } else {
            None
        },
        _ => None,
    }
}

/// The integer a value carries: a signed value as it stands, an unsigned
/// value when it fits the signed 64-bit range.
pub open spec fn int_of(m: ValueModel) -> Option<i64> {
    match m {
        ValueModel::Int(i) => Some(i as i64),
        ValueModel::Uint(u) => if u <= i64::MAX {
            Some(u as i64)
        } else {
            None
        },
        _ => None,
    }
}

} // verus!

