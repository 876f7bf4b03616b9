//! The peer's API listing: the value the editor prints for
//! `--api-info` describes every function it exports, and this module
//! extracts that description.
//!
//! The listing travels as a map with a `functions` array; each element is
//! a map carrying `name`, `parameters` (an array of two-element arrays:
//! parameter type, then parameter name), `return_type`, `async`, and an
//! optional `can_fail` that defaults to false.

use vstd::prelude::*;

use vstd::string::StringExecFns;

use crate::value::{dict_lookup, EntryModel, Value, ValueModel};

verus! {

/// One function the peer exports.
#[derive(Debug)]
pub struct Function {
    pub name: String,
    /// Parameter type and parameter name, in declaration order.
    pub parameters: Vec<(String, String)>,
    pub return_type: String,
    pub is_async: bool,
    pub can_fail: bool,
}

/// The model of a `Function`.
#[verifier::ext_equal]
pub ghost struct FunctionModel {
    pub name: Seq<char>,
    pub parameters: Seq<(Seq<char>, Seq<char>)>,
    pub return_type: Seq<char>,
    pub is_async: bool,
    pub can_fail: bool,
}

impl DeepView for Function {
    type V = FunctionModel;

    open spec fn deep_view(&self) -> FunctionModel {
        FunctionModel {
            name: self.name@,
            parameters: self.parameters.deep_view(),
            return_type: self.return_type@,
            is_async: self.is_async,
            can_fail: self.can_fail,
        }
    }
}

/// One parameter as text: its type, a space, its name.
pub open spec fn param_text(p: (Seq<char>, Seq<char>)) -> Seq<char> {
    p.0 + " "@ + p.1
}

/// A parameter list as text, joined by `, `.
pub open spec fn params_text(ps: Seq<(Seq<char>, Seq<char>)>) -> Seq<char>
    decreases ps.len(),
{
    if ps.len() == 0 {
        Seq::empty()
    } else if ps.len() == 1 {
        param_text(ps[0])
    } else {
        param_text(ps[0]) + ", "@ + params_text(ps.drop_first())
    }
}

/// A function description as one line of text, the way a listing prints
/// one.
pub open spec fn function_text(f: FunctionModel) -> Seq<char> {
    f.name + "("@ + params_text(f.parameters) + ") -> "@ + f.return_type + " "@ + (
    if f.can_fail {
        "[can fail]"@
    } else {
        Seq::<char>::empty()
    }) + (
    if f.is_async {
        "async"@
    } else {
        Seq::<char>::empty()
    })
}

/// Appending one parameter to a list appends its text, behind a
/// separator when the list was not empty.
proof fn lemma_params_text_push(ps: Seq<(Seq<char>, Seq<char>)>, p: (Seq<char>, Seq<char>))
    ensures
        params_text(ps.push(p)) == if ps.len() == 0 {
            param_text(p)
        } else {
            params_text(ps) + ", "@ + param_text(p)
        },
    decreases ps.len(),
{
    let w = ps.push(p);
    if ps.len() == 0 {
        assert(w.len() == 1 && w[0] == p);
    } else {
        assert(w[0] == ps[0]);
        assert(w.drop_first() =~= ps.drop_first().push(p));
        lemma_params_text_push(ps.drop_first(), p);
        assert(params_text(w) =~= params_text(ps) + ", "@ + param_text(p));
    }
}

impl Function {
    /// This description as one line of text, as the listing prints one:
    /// `name(type name, ...) -> return_type [can fail]async`.
    pub fn describe(&self) -> (r: String)
        ensures
            r@ == function_text(self.deep_view()),
    {
        let mut out: String = self.name.clone();
        out.append("(");
        let ghost pm = self.parameters.deep_view();
        let n = self.parameters.len();
        proof {
            assert(pm.take(0) =~= Seq::<(Seq<char>, Seq<char>)>::empty());
            assert(out@ =~= self.name@ + "("@ + params_text(pm.take(0)));
        }
        for i in 0..n
            invariant
                n == self.parameters.len(),
                pm == self.parameters.deep_view(),
                pm.len() == n,
                out@ == self.name@ + "("@ + params_text(pm.take(i as int)),
        {
            if i > 0 {
                out.append(", ");
            }
            let p = &self.parameters[i];
            out.append(p.0.as_str());
            out.append(" ");
            out.append(p.1.as_str());
            proof {
                assert(pm[i as int] == (p.0@, p.1@));
                assert(pm.take(i as int).push(pm[i as int]) =~= pm.take(i + 1));
                lemma_params_text_push(pm.take(i as int), pm[i as int]);
                assert(out@ =~= self.name@ + "("@ + params_text(pm.take(i + 1)));
            }
        }
        proof {
            assert(pm.take(n as int) =~= pm);
        }
        out.append(") -> ");
        out.append(self.return_type.as_str());
        out.append(" ");
        if self.can_fail {
            out.append("[can fail]");
        }
        if self.is_async {
            out.append("async");
        }
        proof {
            assert(out@ =~= function_text(self.deep_view()));
        }
        out
    }
}

/// The peer's whole API listing.
#[derive(Debug)]
pub struct ApiInfo {
    pub functions: Vec<Function>,
}

impl DeepView for ApiInfo {
    type V = Seq<FunctionModel>;

    open spec fn deep_view(&self) -> Seq<FunctionModel> {
        self.functions.deep_view()
    }
}

/// An API listing that does not have the promised shape.
#[derive(Debug, PartialEq, Eq, Structural)]
pub enum ApiInfoError {
    Malformed,
}

/// The text under `key`, when the entry holds text.
pub open spec fn text_field(es: Seq<EntryModel>, key: Seq<char>) -> Option<Seq<char>> {
    match dict_lookup(es, key) {
        Some(ValueModel::Text(s)) => Some(s),
        _ => None,
    }
}

/// The boolean under `key`, when the entry holds one.
pub open spec fn bool_field(es: Seq<EntryModel>, key: Seq<char>) -> Option<bool> {
    match dict_lookup(es, key) {
        Some(ValueModel::Boolean(b)) => Some(b),
        _ => None,
    }
}

/// One parameter: a two-element array of texts — the parameter's type,
/// then its name. Extra elements are ignored.
pub open spec fn param_spec(m: ValueModel) -> Option<(Seq<char>, Seq<char>)> {
    match m {
        ValueModel::Array(pair) => if pair.len() >= 2 {
            match (pair[0], pair[1]) {
                (ValueModel::Text(a), ValueModel::Text(b)) => Some((a, b)),
                _ => None,
            }
        } else {
            None
        },
        _ => None,
    }
}

/// Every parameter of a parameter list, in order; nothing when any one
/// of them is malformed.
pub open spec fn params_spec(ps: Seq<ValueModel>) -> Option<Seq<(Seq<char>, Seq<char>)>>
    decreases ps.len(),
{
    if ps.len() == 0 {
        Some(Seq::empty())
    } else {
        match (param_spec(ps[0]), params_spec(ps.drop_first())) {
            (Some(p), Some(rest)) => Some(seq![p] + rest),
            _ => None,
        }
    }
}

/// One exported function: a map with text `name` and `return_type`, an
/// array of parameters, a boolean `async`, and an optional boolean
/// `can_fail` read as false when absent.
pub open spec fn function_spec(m: ValueModel) -> Option<FunctionModel> {
    match m {
        ValueModel::Dict(es) => {
            let params = match dict_lookup(es, "parameters"@) {
                Some(ValueModel::Array(ps)) => params_spec(ps),
                _ => None,
            };
            let can_fail = match dict_lookup(es, "can_fail"@) {
                Option::None => Some(false),
                Some(ValueModel::Boolean(b)) => Some(b),
                Some(_) => None,
            };
            match (text_field(es, "name"@), params, text_field(es, "return_type"@), bool_field(
                es,
                "async"@,
            ), can_fail) {
                (Some(name), Some(parameters), Some(return_type), Some(is_async), Some(cf)) => Some(
                    FunctionModel {
                        name,
                        parameters,
                        return_type,
                        is_async,
                        can_fail: cf,
                    },
                ),
                _ => None,
            }
        },
        _ => None,
    }
}

/// Every function of a listing, in order; nothing when any one is
/// malformed.
pub open spec fn functions_spec(xs: Seq<ValueModel>) -> Option<Seq<FunctionModel>>
    decreases xs.len(),
{
    if xs.len() == 0 {
        Some(Seq::empty())
    } else {
        match (function_spec(xs[0]), functions_spec(xs.drop_first())) {
            (Some(f), Some(rest)) => Some(seq![f] + rest),
            _ => None,
        }
    }
}

/// The whole listing: a map whose `functions` entry is an array of
/// well-shaped function descriptions.
pub open spec fn api_info_spec(m: ValueModel) -> Option<Seq<FunctionModel>> {
    match m {
        ValueModel::Dict(es) => match dict_lookup(es, "functions"@) {
            Some(ValueModel::Array(xs)) => functions_spec(xs),
            _ => None,
        },
        _ => None,
    }
}

/// A parameter list whose every element is well shaped reads back
/// pointwise.
proof fn lemma_params_spec_pointwise(ps: Seq<ValueModel>, out: Seq<(Seq<char>, Seq<char>)>)
    requires
        out.len() == ps.len(),
        forall|k: int| 0 <= k < ps.len() ==> param_spec(ps[k]) == Some(out[k]),
    ensures
        params_spec(ps) == Some(out),
    decreases ps.len(),
{
    if ps.len() > 0 {
        assert(forall|k: int|
            0 <= k < ps.len() - 1 ==> ps.drop_first()[k] == ps[k + 1] && out.drop_first()[k]
                == out[k + 1]);
        lemma_params_spec_pointwise(ps.drop_first(), out.drop_first());
        assert(seq![out[0]] + out.drop_first() =~= out);
    }
}

/// One malformed parameter spoils the list.
proof fn lemma_params_spec_none(ps: Seq<ValueModel>, k: int)
    requires
        0 <= k < ps.len(),
        param_spec(ps[k]) is None,
    ensures
        params_spec(ps) is None,
    decreases k,
{
    if k > 0 {
        assert(ps.drop_first()[k - 1] == ps[k]);
        lemma_params_spec_none(ps.drop_first(), k - 1);
    }
}

/// A listing whose every function is well shaped reads back pointwise.
proof fn lemma_functions_spec_pointwise(xs: Seq<ValueModel>, out: Seq<FunctionModel>)
    requires
        out.len() == xs.len(),
        forall|k: int| 0 <= k < xs.len() ==> function_spec(xs[k]) == Some(out[k]),
    ensures
        functions_spec(xs) == Some(out),
    decreases xs.len(),
{
    if xs.len() > 0 {
        assert(forall|k: int|
            0 <= k < xs.len() - 1 ==> xs.drop_first()[k] == xs[k + 1] && out.drop_first()[k]
                == out[k + 1]);
        lemma_functions_spec_pointwise(xs.drop_first(), out.drop_first());
        assert(seq![out[0]] + out.drop_first() =~= out);
    }
}

/// One malformed function spoils the listing.
proof fn lemma_functions_spec_none(xs: Seq<ValueModel>, k: int)
    requires
        0 <= k < xs.len(),
        function_spec(xs[k]) is None,
    ensures
        functions_spec(xs) is None,
    decreases k,
{
    if k > 0 {
        assert(xs.drop_first()[k - 1] == xs[k]);
        lemma_functions_spec_none(xs.drop_first(), k - 1);
    }
}

/// Read one parameter description.
fn parse_param(p: &Value) -> (r: Result<(String, String), ApiInfoError>)
    ensures
        match r {
            Ok(pair) => param_spec(p.deep_view()) == Some((pair.0@, pair.1@)),
            Err(_) => param_spec(p.deep_view()) is None,
        },
{
    proof {
        if p matches Value::Array(_) {
            crate::value::lemma_array_model(*p);
        }
    }
    let pair = match p {
        Value::Array(pair) => pair,
        _ => {
            return Err(ApiInfoError::Malformed);
        },
    };
    if pair.len() < 2 {
        return Err(ApiInfoError::Malformed);
    }
    let a = match &pair[0] {
        Value::Text(a) => a,
        _ => {
            return Err(ApiInfoError::Malformed);
        },
    };
    let b = match &pair[1] {
        Value::Text(b) => b,
        _ => {
            return Err(ApiInfoError::Malformed);
        },
    };
    proof {
        assert(crate::value::values_model(pair@)[0] == pair@[0].deep_view());
        assert(crate::value::values_model(pair@)[1] == pair@[1].deep_view());
    }
    Ok((a.clone(), b.clone()))
}

/// Read one function description.
fn parse_function(f: &Value) -> (r: Result<Function, ApiInfoError>)
    ensures
        match r {
            Ok(func) => function_spec(f.deep_view()) == Some(func.deep_view()),
            Err(_) => function_spec(f.deep_view()) is None,
        },
{
    match f {
        Value::Dict(_) => {},
        _ => {
            return Err(ApiInfoError::Malformed);
        },
    }
    let name_key: String = "name".to_owned();
    let name = match f.lookup(&name_key) {
        Some(Value::Text(s)) => s.clone(),
        _ => {
            return Err(ApiInfoError::Malformed);
        },
    };
    let rt_key: String = "return_type".to_owned();
    let return_type = match f.lookup(&rt_key) {
        Some(Value::Text(s)) => s.clone(),
        _ => {
            return Err(ApiInfoError::Malformed);
        },
    };
    let async_key: String = "async".to_owned();
    let is_async = match f.lookup(&async_key) {
        Some(Value::Boolean(b)) => *b,
        _ => {
            return Err(ApiInfoError::Malformed);
        },
    };
    let cf_key: String = "can_fail".to_owned();
    let can_fail = match f.lookup(&cf_key) {
        Option::None => false,
        Some(Value::Boolean(b)) => *b,
        Some(_) => {
            return Err(ApiInfoError::Malformed);
        },
    };
    let params_key: String = "parameters".to_owned();
    let ps = match f.lookup(&params_key) {
        Some(p) => match p {
            Value::Array(ps) => {
                proof {
                    crate::value::lemma_array_model(*p);
                }
                ps
            },
            _ => {
                return Err(ApiInfoError::Malformed);
            },
        },
        _ => {
            return Err(ApiInfoError::Malformed);
        },
    };
    let ghost ps_model = crate::value::values_model(ps@);
    let ghost fm = f.deep_view();
    proof {
        assert(function_spec(fm) == (match params_spec(ps_model) {
            Some(prm) => Some(
                FunctionModel {
                    name: name@,
                    parameters: prm,
                    return_type: return_type@,
                    is_async: is_async,
                    can_fail: can_fail,
                },
            ),
            Option::None => None,
        }));
    }
    let n = ps.len();
    let mut parameters: Vec<(String, String)> = Vec::new();
    for i in 0..n
        invariant
            n == ps.len(),
            ps_model == crate::value::values_model(ps@),
            ps_model.len() == n,
            parameters.len() == i,
            fm == f.deep_view(),
            function_spec(fm) == (match params_spec(ps_model) {
                Some(prm) => Some(
                    FunctionModel {
                        name: name@,
                        parameters: prm,
                        return_type: return_type@,
                        is_async: is_async,
                        can_fail: can_fail,
                    },
                ),
                Option::None => None,
            }),
            forall|k: int|
                0 <= k < i ==> param_spec(ps_model[k]) == Some(
                    #[trigger] parameters.deep_view()[k],
                ),
    {
        let pair = match parse_param(&ps[i]) {
            Ok(pair) => pair,
            Err(e) => {
                proof {
                    lemma_params_spec_none(ps_model, i as int);
                }
                return Err(ApiInfoError::Malformed);
            },
        };
        let ghost before = parameters.deep_view();
        parameters.push(pair);
        proof {
            assert(parameters.deep_view() =~= before.push((pair.0@, pair.1@)));
        }
    }
    proof {
        lemma_params_spec_pointwise(ps_model, parameters.deep_view());
    }
    Ok(Function { name, parameters, return_type, is_async, can_fail })
}

impl ApiInfo {
    /// Read the whole API listing out of the value the peer printed.
    pub fn from_value(v: &Value) -> (r: Result<ApiInfo, ApiInfoError>)
        ensures
            match r {
                Ok(info) => api_info_spec(v.deep_view()) == Some(info.deep_view()),
                Err(_) => api_info_spec(v.deep_view()) is None,
            },
    {
        match v {
            Value::Dict(_) => {},
            _ => {
                return Err(ApiInfoError::Malformed);
            },
        }
        let fs_key: String = "functions".to_owned();
        let xs = match v.lookup(&fs_key) {
            Some(fv) => match fv {
                Value::Array(xs) => {
                    proof {
                        crate::value::lemma_array_model(*fv);
                    }
                    xs
                },
                _ => {
                    return Err(ApiInfoError::Malformed);
                },
            },
            _ => {
                return Err(ApiInfoError::Malformed);
            },
        };
        let ghost xs_model = crate::value::values_model(xs@);
        let ghost vm = v.deep_view();
        proof {
            assert(api_info_spec(vm) == functions_spec(xs_model));
        }
        let n = xs.len();
        let mut functions: Vec<Function> = Vec::new();
        for i in 0..n
            invariant
                n == xs.len(),
                xs_model == crate::value::values_model(xs@),
                xs_model.len() == n,
                functions.len() == i,
                vm == v.deep_view(),
                api_info_spec(vm) == functions_spec(xs_model),
                forall|k: int|
                    0 <= k < i ==> function_spec(xs_model[k]) == Some(
                        #[trigger] functions.deep_view()[k],
                    ),
        {
            let func = match parse_function(&xs[i]) {
                Ok(func) => func,
                Err(e) => {
                    proof {
                        lemma_functions_spec_none(xs_model, i as int);
                    }
                    return Err(ApiInfoError::Malformed);
                },
            };
            let ghost before = functions.deep_view();
            let ghost fm = func.deep_view();
            functions.push(func);
            proof {
                assert(functions.deep_view() =~= before.push(fm));
            }
        }
        proof {
            lemma_functions_spec_pointwise(xs_model, functions.deep_view());
        }
        Ok(ApiInfo { functions })
    }
}

} // verus!
