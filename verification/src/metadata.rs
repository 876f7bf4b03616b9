//! Resolving the capability handshake: the peer's reply carries a map of
//! dynamically assigned type identifiers, and this module validates it and
//! extracts the three identifiers the client needs.

use vstd::prelude::*;

use crate::value::{dict_lookup, int_of, EntryModel, Value, ValueModel};

verus! {

/// The three peer-assigned type identifiers resolved from the handshake.
#[derive(Debug, Clone, Copy, PartialEq, Eq, Structural)]
pub struct Metadata {
    pub buffer_id: i64,
    pub window_id: i64,
    pub tabpage_id: i64,
}

/// The model of a `Metadata` record.
#[verifier::ext_equal]
pub ghost struct MetadataModel {
    pub buffer_id: i64,
    pub window_id: i64,
    pub tabpage_id: i64,
}

impl DeepView for Metadata {
    type V = MetadataModel;

    open spec fn deep_view(&self) -> MetadataModel {
        MetadataModel {
            buffer_id: self.buffer_id,
            window_id: self.window_id,
            tabpage_id: self.tabpage_id,
        }
    }
}

/// A failure of the wire codec while a reply was being read, as the rest
/// of the library sees it.
#[derive(Debug, Clone, Copy, PartialEq, Eq, Structural)]
pub enum ReadFailure {
    /// The stream ended before a complete value arrived.
    NoData,
    /// A leading byte that the codec does not recognize.
    Unrecognized(u8),
    /// An input/output error underneath the codec.
    Io,
}

/// Why handshake metadata could not be resolved.
#[derive(Debug)]
pub enum GetMetadataError {
    /// The capability value is not a map.
    NotAMap,
    /// The map has no usable `types` entry.
    NoTypeInformation,
    /// The named type entry exists but its `id` cannot be read as an integer.
    Invalid(String),
    /// The named type entry is absent or is not a map.
    Missing(String),
    /// The reply itself could not be read.
    ReadError(ReadFailure),
}

/// The model of a `GetMetadataError`.
#[verifier::ext_equal]
pub ghost enum MetadataErrorModel {
    NotAMap,
    NoTypeInformation,
    Invalid(Seq<char>),
    Missing(Seq<char>),
    ReadError(ReadFailure),
}

impl DeepView for GetMetadataError {
    type V = MetadataErrorModel;

    open spec fn deep_view(&self) -> MetadataErrorModel {
        match self {
            GetMetadataError::NotAMap => MetadataErrorModel::NotAMap,
            GetMetadataError::NoTypeInformation => MetadataErrorModel::NoTypeInformation,
            GetMetadataError::Invalid(s) => MetadataErrorModel::Invalid(s@),
            GetMetadataError::Missing(s) => MetadataErrorModel::Missing(s@),
            GetMetadataError::ReadError(f) => MetadataErrorModel::ReadError(*f),
        }
    }
}

impl GetMetadataError {
    /// A short, fixed description of the failure kind.
    pub fn description(&self) -> (r: &'static str)
        ensures
            self matches GetMetadataError::NotAMap ==> r@ == "not a map"@,
            self matches GetMetadataError::NoTypeInformation ==> r@ == "no type information"@,
            self matches GetMetadataError::Invalid(_) ==> r@ == "invalid id"@,
            self matches GetMetadataError::Missing(_) ==> r@ == "missing id"@,
            self matches GetMetadataError::ReadError(_) ==> r@ == "read error"@,
    {
        match self {
            GetMetadataError::NotAMap => "not a map",
            GetMetadataError::NoTypeInformation => "no type information",
            GetMetadataError::Invalid(_) => "invalid id",
            GetMetadataError::Missing(_) => "missing id",
            GetMetadataError::ReadError(_) => "read error",
        }
    }
}

impl From<ReadFailure> for GetMetadataError {
    fn from(err: ReadFailure) -> (r: GetMetadataError) {
        GetMetadataError::ReadError(err)
    }
}

impl vstd::std_specs::convert::FromSpecImpl<ReadFailure> for GetMetadataError {
    open spec fn obeys_from_spec() -> bool {
        true
    }

    open spec fn from_spec(err: ReadFailure) -> GetMetadataError {
        GetMetadataError::ReadError(err)
    }
}

/// The identifier the `types` map assigns to `name`: the entry must be a
/// map (else the name is missing) holding an `id` entry that carries an
/// integer (else the name is invalid).
pub open spec fn type_id_of(types: Seq<EntryModel>, name: Seq<char>) -> Result<
    i64,
    MetadataErrorModel,
> {
    match dict_lookup(types, name) {
        Option::None => Err(MetadataErrorModel::Missing(name)),
        Option::Some(entry) => match entry {
            ValueModel::Dict(inner) => match dict_lookup(inner, "id"@) {
                Option::None => Err(MetadataErrorModel::Invalid(name)),
                Option::Some(idv) => match int_of(idv) {
                    Option::Some(i) => Ok(i),
                    Option::None => Err(MetadataErrorModel::Invalid(name)),
                },
            },
            _ => Err(MetadataErrorModel::Missing(name)),
        },
    }
}

/// What resolving a capability value yields: the value must be a map with
/// a `types` map entry, and the identifiers of `Buffer`, `Window` and
/// `Tabpage` are checked in that order, the first failure winning.
pub open spec fn resolve_spec(m: ValueModel) -> Result<MetadataModel, MetadataErrorModel> {
    match m {
        ValueModel::Dict(es) => match dict_lookup(es, "types"@) {
            Option::None => Err(MetadataErrorModel::NoTypeInformation),
            Option::Some(t) => match t {
                ValueModel::Dict(types) => match type_id_of(types, "Buffer"@) {
                    Err(e) => Err(e),
                    Ok(b) => match type_id_of(types, "Window"@) {
                        Err(e) => Err(e),
                        Ok(w) => match type_id_of(types, "Tabpage"@) {
                            Err(e) => Err(e),
                            Ok(tp) => Ok(
                                MetadataModel {
                                    buffer_id: b,
                                    window_id: w,
                                    tabpage_id: tp,
                                },
                            ),
                        },
                    },
                },
                _ => Err(MetadataErrorModel::NoTypeInformation),
            },
        },
        _ => Err(MetadataErrorModel::NotAMap),
    }
}

/// The identifier the `types` map value assigns to `name`.
fn get_id(types: &Value, name: &str) -> (r: Result<i64, GetMetadataError>)
    requires
        types.deep_view() matches ValueModel::Dict(_),
    ensures
        types.deep_view() matches ValueModel::Dict(ts) ==> match r {
            Ok(i) => type_id_of(ts, name@) == Ok::<i64, MetadataErrorModel>(i),
            Err(e) => type_id_of(ts, name@) == Err::<i64, MetadataErrorModel>(e.deep_view()),
        },
{
    let key: String = name.to_owned();
    let entry = match types.lookup(&key) {
        Option::Some(v) => v,
        Option::None => {
            return Err(GetMetadataError::Missing(name.to_owned()));
        },
    };
    let inner = match entry {
        Value::Dict(_) => entry,
        _ => {
            return Err(GetMetadataError::Missing(name.to_owned()));
        },
    };
    let id_key: String = "id".to_owned();
    let id_entry = match inner.lookup(&id_key) {
        Option::Some(v) => v,
        Option::None => {
            return Err(GetMetadataError::Invalid(name.to_owned()));
        },
    };
    match id_entry.as_int() {
        Option::Some(i) => Ok(i),
        Option::None => Err(GetMetadataError::Invalid(name.to_owned())),
    }
}

impl Metadata {
    /// Read the three type identifiers out of a capability value shaped
    /// like `{ "types": { "Buffer": { "id": _ }, "Window": { "id": _ },
    /// "Tabpage": { "id": _ } } }`.
    ///
    /// Failures, in validation order: `NotAMap` when the value is not a
    /// map; `NoTypeInformation` when it has no `types` map entry;
    /// `Missing(name)` when a required type name is absent or its entry is
    /// not a map; `Invalid(name)` when the entry's `id` is absent or not
    /// an integer. Names are checked in `Buffer`, `Window`, `Tabpage`
    /// order and the first failure is reported.
    pub fn new(info: &Value) -> (r: Result<Metadata, GetMetadataError>)
        ensures
            match r {
                Ok(md) => resolve_spec(info.deep_view()) == Ok::<
                    MetadataModel,
                    MetadataErrorModel,
                >(md.deep_view()),
                Err(e) => resolve_spec(info.deep_view()) == Err::<
                    MetadataModel,
                    MetadataErrorModel,
                >(e.deep_view()),
            },
    {
        match info {
            Value::Dict(_) => {},
            _ => {
                return Err(GetMetadataError::NotAMap);
            },
        }
        let types_key: String = "types".to_owned();
        let types = match info.lookup(&types_key) {
            Option::Some(t) => match t {
                Value::Dict(_) => t,
                _ => {
                    return Err(GetMetadataError::NoTypeInformation);
                },
            },
            Option::None => {
                return Err(GetMetadataError::NoTypeInformation);
            },
        };
        let buffer_id = match get_id(types, "Buffer") {
            Ok(i) => i,
            Err(e) => {
                return Err(e);
            },
        };
        let window_id = match get_id(types, "Window") {
            Ok(i) => i,
            Err(e) => {
                return Err(e);
            },
        };
        let tabpage_id = match get_id(types, "Tabpage") {
            Ok(i) => i,
            Err(e) => {
                return Err(e);
            },
        };
        Ok(Metadata { buffer_id, window_id, tabpage_id })
    }
}

} // verus!
