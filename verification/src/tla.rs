//! Threading of named arguments into callable values.
//!
//! Callers hold more bindings than a callable asks for. A callable gets the
//! ones whose names it declares, and no others.

use vstd::prelude::*;
use jrsonnet_evaluator::{State, IStr};
use jrsonnet_evaluator::function::{FuncVal, TlaArg};
use jrsonnet_evaluator::gc::GcHashMap;
use crate::text::str_eq;
use crate::value::{Value, declared_params, function_params, call_function};

verus! {

/// Why a value could not be called with named arguments.
#[derive(Debug)]
pub enum TlaError {
    /// The callable declares a parameter without a name.
    AnonymousParameter,
    /// The evaluator failed inside the call.
    Call(jrsonnet_evaluator::Error),
}

/// A set of named arguments: the evaluator's map from names to arguments.
pub type Arguments = GcHashMap<IStr, TlaArg>;

/// The bindings that `args` holds, by name.
pub uninterp spec fn arguments_of(args: Arguments) -> Map<Seq<char>, TlaArg>;

/// Whether one of `params` has no name.
pub open spec fn has_anonymous(params: Seq<Option<Seq<char>>>) -> bool {
    exists|i: int| 0 <= i < params.len() && params[i] is None
}

/// The names that `params` declares.
pub open spec fn declared_names(params: Seq<Option<Seq<char>>>) -> Set<Seq<char>> {
    Set::new(|name: Seq<char>| params.contains(Some(name)))
}

/// `GcHashMap::new`: no binding.
#[verifier::external_body]
pub(crate) fn args_new() -> (args: Arguments)
    ensures
        (arguments_of(args) == Map::<Seq<char>, TlaArg>::empty()),
{
    GcHashMap::new()
}

/// `HashMap::insert` on the evaluator's map: binds `name` to `value`, in place
/// of what it was bound to.
#[verifier::external_body]
pub(crate) fn args_insert(args: &mut Arguments, name: &str, value: TlaArg)
    ensures
        arguments_of(*final(args)) == arguments_of(*old(args)).insert(name@, value),
{
    args.insert(name.into(), value);
}

/// `HashMap::contains_key` on the evaluator's map, with the name interned as
/// the map's keys are.
#[verifier::external_body]
pub(crate) fn args_contains(args: &Arguments, name: &str) -> (bound: bool)
    ensures
        bound == arguments_of(*args).contains_key(name@),
{
    args.contains_key(&IStr::from(name))
}

/// `HashMap::iter` on the evaluator's map, each binding copied out once. The
/// order is the map's own and is not stated.
#[verifier::external_body]
pub(crate) fn args_entries(args: &Arguments) -> (entries: Vec<(String, TlaArg)>)
    ensures
        forall|i: int| 0 <= i < entries.len() ==> arguments_of(*args).contains_pair(
            (#[trigger] entries[i]).0@,
            entries[i].1,
        ),
        forall|name: Seq<char>| arguments_of(*args).contains_key(name) ==> exists|i: int|
            0 <= i < entries.len() && (#[trigger] entries[i]).0@ == name,
{
    args.iter().map(|(name, value)| (name.to_string(), value.clone())).collect()
}

/// Whether one of `params` has no name.
pub fn any_anonymous(params: &Vec<Option<String>>) -> (found: bool)
    ensures
        found == has_anonymous(params.deep_view()),
{
    let mut i: usize = 0;
    while i < params.len()
        invariant
            i <= params.len(),
            forall|k: int| 0 <= k < i ==> params.deep_view()[k] is Some,
        decreases params.len() - i,
    {
        assert(params.deep_view()[i as int] == params[i as int].deep_view());
        if params[i].is_none() {
            return true;
        }
        i += 1;
    }
    false
}

/// Whether `params` declares the name `name`.
pub fn declares(params: &Vec<Option<String>>, name: &str) -> (found: bool)
    ensures
        found == declared_names(params.deep_view()).contains(name@),
{
    let mut i: usize = 0;
    while i < params.len()
        invariant
            i <= params.len(),
            forall|k: int| 0 <= k < i ==> params.deep_view()[k] != Some(name@),
        decreases params.len() - i,
    {
        assert(params.deep_view()[i as int] == params[i as int].deep_view());
        match &params[i] {
            Some(param) => {
                if str_eq(param.as_str(), name) {
                    assert(params.deep_view()[i as int] == Some(name@));
                    return true;
                }
            },
            None => {},
        }
        i += 1;
    }
    false
}

/// The bindings of `args` whose names `params` declares.
pub fn select_arguments(args: &Arguments, params: &Vec<Option<String>>) -> (selected:
    Arguments)
    ensures
        arguments_of(selected) == arguments_of(*args).restrict(
            declared_names(params.deep_view()),
        ),
{
    let mut rest = args_entries(args);
    let ghost all = rest@;
    let ghost wanted = declared_names(params.deep_view());
    let ghost source = arguments_of(*args);
    let mut selected = args_new();
    while rest.len() > 0
        invariant
            rest.len() <= all.len(),
            rest@ == all.take(rest.len() as int),
            wanted == declared_names(params.deep_view()),
            source == arguments_of(*args),
            forall|i: int| 0 <= i < all.len() ==> source.contains_pair((#[trigger] all[i]).0@, all[i].1),
            arguments_of(selected) =~= source.restrict(
                Set::new(
                    |name: Seq<char>|
                        wanted.contains(name) && exists|j: int|
                            rest.len() <= j < all.len() && (#[trigger] all[j]).0@ == name,
                ),
            ),
        decreases rest.len(),
    {
        let ghost before = arguments_of(selected);
        let ghost n = rest.len() as int;
        let (name, value) = rest.pop().unwrap();
        assert(all[n - 1] == (name, value));
        if declares(params, name.as_str()) {
            args_insert(&mut selected, name.as_str(), value);
        }
        assert(rest@ =~= all.take(rest.len() as int));
    }
    assert(arguments_of(selected) =~= source.restrict(wanted));
    selected
}

/// What a call's outcome is to the caller of [`apply_tla_opt`].
pub fn call_outcome(outcome: Result<Value, jrsonnet_evaluator::Error>) -> (result: Result<Value, TlaError>)
    ensures
        (outcome matches Ok(value) ==> result == Ok::<Value, TlaError>(value)),
        (outcome matches Err(error) ==> result == Err::<Value, TlaError>(TlaError::Call(error))),
{
    match outcome {
        Ok(value) => Ok(value),
        Err(error) => Err(TlaError::Call(error)),
    }
}

/// Applies the named arguments `args` to `val`.
///
/// A value that is no function passes through unchanged. A function is called
/// with the bindings of `args` that it declares, see [`select_arguments`], and
/// with no others; one that declares a parameter without a name is not
/// called. What the call returns is the evaluator's to decide:
/// [`call_outcome`] says what becomes of it.
pub fn apply_tla_opt(state: &State, args: &Arguments, val: Value) -> (result: Result<
    Value,
    TlaError,
>)
    ensures
        (!(val is Func) ==> result == Ok::<Value, TlaError>(val)),
        (val matches Value::Func(func) && has_anonymous(declared_params(func)) ==> result == Err::<
            Value,
            TlaError,
        >(TlaError::AnonymousParameter)),
        val matches Value::Func(func) && !has_anonymous(declared_params(func)) ==> !(result
            matches Err(TlaError::AnonymousParameter)),
{
    match val {
        Value::Func(func) => {
            let params = function_params(&func);
            if any_anonymous(&params) {
                return Err(TlaError::AnonymousParameter);
            }
            let selected = select_arguments(args, &params);
            call_outcome(call_function(state, &func, &selected, "<top-level-arg>", "during TLA call"))
        },
        other => Ok(other),
    }
}

} // verus!
