//! The evaluator's values as this library sees them.
//!
//! The template evaluator is an outside crate. Its values are carried through
//! this library unread, except for their shape: [`Value`] tells the variants
//! apart, and the few operations the composition needs on objects, arrays and
//! functions are the trusted functions at the end of this file.

use vstd::prelude::*;
use jrsonnet_evaluator::{Val, ObjValue, ObjValueBuilder, State, IStr};
use jrsonnet_evaluator::val::ArrValue;
use jrsonnet_evaluator::function::{FuncVal, TlaArg, CallLocation};
use jrsonnet_evaluator::gc::GcHashMap;
use jrsonnet_evaluator::parser::{Source, SourcePath, SourceVirtual, Visibility};

verus! {

/// A value of the evaluator.
#[verifier::external_type_specification]
#[verifier::external_body]
pub struct ExVal(Val);

/// An object of the evaluator: field names with lazily evaluated values.
#[verifier::external_type_specification]
#[verifier::external_body]
pub struct ExObjValue(ObjValue);

/// An array of the evaluator, with lazily evaluated items.
#[verifier::external_type_specification]
#[verifier::external_body]
pub struct ExArrValue(ArrValue);

/// A function of the evaluator.
#[verifier::external_type_specification]
#[verifier::external_body]
pub struct ExFuncVal(FuncVal);

/// The evaluator's state: import resolution and the initial context.
#[verifier::external_type_specification]
#[verifier::external_body]
pub struct ExState(State);

/// One named argument as the evaluator takes it.
#[verifier::external_type_specification]
#[verifier::external_body]
pub struct ExTlaArg(TlaArg);

/// The evaluator's interned string.
#[verifier::external_type_specification]
#[verifier::external_body]
pub struct ExIStr(IStr);

/// The evaluator's hash map.
#[verifier::external_type_specification]
#[verifier::external_body]
#[verifier::reject_recursive_types(K)]
#[verifier::reject_recursive_types(V)]
pub struct ExGcHashMap<K, V>(GcHashMap<K, V>);

/// An error of the evaluator, with its trace.
#[verifier::external_type_specification]
#[verifier::external_body]
pub struct ExEvalError(jrsonnet_evaluator::Error);

/// A number of the evaluator. It is carried, never read.
#[derive(Debug)]
pub struct Number {
    raw: Val,
}

impl Number {
    /// The evaluator's value that this number was taken from.
    pub closed spec fn raw(self) -> Val {
        self.raw
    }
}

/// A value, by its shape.
#[derive(Debug)]
pub enum Value {
    Null,
    Bool(bool),
    Str(String),
    Num(Number),
    Arr(ArrValue),
    Obj(ObjValue),
    Func(FuncVal),
}

/// The shape of the evaluator's value `v`.
pub uninterp spec fn value_of(v: Val) -> Value;

impl Value {
    /// Reads the shape of an evaluator value.
    pub fn from_val(v: Val) -> (value: Value)
        ensures
            value == value_of(v),
            value matches Value::Num(n) ==> n.raw() == v,
    {
        classify(v)
    }

    /// A second handle on the same value.
    pub fn duplicate(&self) -> (copy: Value)
        ensures
            copy == *self,
    {
        copy_value(self)
    }

    /// Hands the value back to the evaluator.
    pub fn into_val(self) -> (v: Val)
        ensures
            self matches Value::Num(n) ==> v == n.raw(),
            !(self is Num) ==> value_of(v) == self,
    {
        unclassify(self)
    }
}

/// `jrsonnet_evaluator::Val`, matched variant by variant: the result is the
/// same value in this library's type. A number keeps the whole outside value.
#[verifier::external_body]
fn classify(v: Val) -> (value: Value)
    ensures
        value == value_of(v),
        value matches Value::Num(n) ==> n.raw() == v,
{
    match v {
        Val::Null => Value::Null,
        Val::Bool(b) => Value::Bool(b),
        Val::Str(s) => Value::Str(s.to_string()),
        Val::Arr(a) => Value::Arr(a),
        Val::Obj(o) => Value::Obj(o),
        Val::Func(f) => Value::Func(f),
        number => Value::Num(Number { raw: number }),
    }
}

/// The constructors of `jrsonnet_evaluator::Val`, applied to the matching
/// variant: reading the result's shape gives the argument back.
#[verifier::external_body]
fn unclassify(value: Value) -> (v: Val)
    ensures
        value matches Value::Num(n) ==> v == n.raw(),
        !(value is Num) ==> value_of(v) == value,
{
    match value {
        Value::Null => Val::Null,
        Value::Bool(b) => Val::Bool(b),
        Value::Str(s) => Val::string(s),
        Value::Num(n) => n.raw,
        Value::Arr(a) => Val::Arr(a),
        Value::Obj(o) => Val::Obj(o),
        Value::Func(f) => Val::Func(f),
    }
}

/// `Clone::clone` on each part: the evaluator's values are shared handles, and
/// a copy refers to the same value.
#[verifier::external_body]
fn copy_value(value: &Value) -> (copy: Value)
    ensures
        copy == *value,
{
    match value {
        Value::Null => Value::Null,
        Value::Bool(b) => Value::Bool(*b),
        Value::Str(s) => Value::Str(s.clone()),
        Value::Num(n) => Value::Num(Number { raw: n.raw.clone() }),
        Value::Arr(a) => Value::Arr(a.clone()),
        Value::Obj(o) => Value::Obj(o.clone()),
        Value::Func(f) => Value::Func(f.clone()),
    }
}

/// The object that extending `base` by `mixin` makes: the fields of `base`,
/// overlaid and extended by those of `mixin`.
pub uninterp spec fn object_extension(mixin: ObjValue, base: ObjValue) -> ObjValue;

/// The names of the fields of `obj`, hidden ones included.
pub uninterp spec fn object_fields(obj: ObjValue) -> Set<Seq<char>>;

/// The object with the one field `name`, added to what it extends, holding
/// `value`; hidden from enumeration where `hidden` is set.
pub uninterp spec fn single_field_object(name: Seq<char>, hidden: bool, value: Value) -> ObjValue;

/// The object with the two visible fields `first` and `second`, each holding
/// a string.
pub uninterp spec fn text_record(
    first: Seq<char>,
    first_text: Seq<char>,
    second: Seq<char>,
    second_text: Seq<char>,
) -> ObjValue;

/// The number of items of `arr`.
pub uninterp spec fn array_length(arr: ArrValue) -> nat;

/// What evaluating the item at `index` of `arr` gives, where it gives a
/// value. The evaluator keeps what an item evaluated to, so that every
/// evaluation that succeeds gives this value.
pub uninterp spec fn array_item(arr: ArrValue, index: int) -> Value;

/// What evaluating the field `key` of `obj` gives, where it gives a value.
/// The evaluator keeps what a field evaluated to, so that every evaluation
/// that succeeds gives this value.
pub uninterp spec fn object_field(obj: ObjValue, key: Seq<char>) -> Value;

/// The parameters that `func` declares, in order; `None` for one without a
/// name.
pub uninterp spec fn declared_params(func: FuncVal) -> Seq<Option<Seq<char>>>;

/// The argument that hands `value` over already evaluated.
pub uninterp spec fn strict_argument(value: Value) -> TlaArg;

/// `ObjValue::extend_from`: a new object whose parent is `base` and whose own
/// fields are those of `mixin`. It has a field exactly where one of the two
/// has it.
#[verifier::external_body]
pub(crate) fn extend_object(mixin: &ObjValue, base: ObjValue) -> (extended: ObjValue)
    ensures
        extended == object_extension(*mixin, base),
        object_fields(extended) == object_fields(base).union(object_fields(*mixin)),
{
    mixin.extend_from(base)
}

/// `ObjValueBuilder::field(..).with_visibility(..).add().value(..)`, then
/// `build`: an object with one field that adds to the field it overrides,
/// hidden from enumeration where `hidden` is set and visible where not.
#[verifier::external_body]
pub(crate) fn object_with_field(name: &str, hidden: bool, value: Value) -> (obj: ObjValue)
    ensures
        obj == single_field_object(name@, hidden, value),
        object_fields(obj) == set![name@],
{
    let visibility = if hidden { Visibility::Hidden } else { Visibility::Normal };
    let mut builder = ObjValueBuilder::new();
    builder.field(name).with_visibility(visibility).add().value(unclassify(value));
    builder.build()
}

/// `ObjValueBuilder::field(..).value(..)` twice, then `build`: an object with
/// two visible fields that hold strings.
#[verifier::external_body]
pub(crate) fn object_with_texts(first: &str, first_text: &str, second: &str, second_text: &str) -> (obj:
    ObjValue)
    ensures
        obj == text_record(first@, first_text@, second@, second_text@),
        object_fields(obj) == set![first@, second@],
{
    let mut builder = ObjValueBuilder::new();
    builder.field(first).value(Val::string(first_text));
    builder.field(second).value(Val::string(second_text));
    builder.build()
}

/// `ObjValue::get`: evaluates the field `key`. Evaluation may fail; where it
/// does not, a value comes back exactly if the object has the field, and it
/// is the one value that the object keeps for the field.
#[verifier::external_body]
pub(crate) fn object_get(obj: &ObjValue, key: &str) -> (found: Result<Option<Value>, jrsonnet_evaluator::Error>)
    ensures
        found matches Ok(field) ==> (field is Some <==> object_fields(*obj).contains(key@)),
        found matches Ok(Some(value)) ==> value == object_field(*obj, key@),
{
    Ok(obj.get(key.into())?.map(classify))
}

/// `ArrValue::len`.
#[verifier::external_body]
pub(crate) fn array_len(arr: &ArrValue) -> (len: usize)
    ensures
        len == array_length(*arr),
{
    arr.len()
}

/// `ArrValue::get` inside the array's bounds: evaluates the item at `index`.
/// Evaluation may fail; where it does not, the value is the one that the
/// array keeps for the item.
#[verifier::external_body]
pub(crate) fn array_get(arr: &ArrValue, index: usize) -> (item: Result<Value, jrsonnet_evaluator::Error>)
    requires
        index < array_length(*arr),
    ensures
        item matches Ok(value) ==> value == array_item(*arr, index as int),
{
    Ok(classify(arr.get(index)?.expect("index is inside the array")))
}

/// `FuncVal::params`, each parameter by its name.
#[verifier::external_body]
pub(crate) fn function_params(func: &FuncVal) -> (params: Vec<Option<String>>)
    ensures
        params.deep_view() == declared_params(*func),
{
    func.params().iter().map(|p| p.name().as_str().map(str::to_owned)).collect()
}

/// `FuncVal::evaluate` with the named arguments `args` and no others, inside
/// `State::push_description` under `label`. What comes back is the
/// evaluator's to decide.
#[verifier::external_body]
pub(crate) fn call_function(
    state: &State,
    func: &FuncVal,
    args: &crate::tla::Arguments,
    source_name: &str,
    label: &str,
) -> (result: Result<Value, jrsonnet_evaluator::Error>)
{
    let source = Source::new_virtual(source_name.into(), IStr::empty());
    State::push_description(
        || label.to_owned(),
        || func.evaluate(state.create_default_context(source), CallLocation::native(), args, false),
    ).map(classify)
}

/// `TlaArg::Val`.
#[verifier::external_body]
pub(crate) fn strict_arg(value: Value) -> (arg: TlaArg)
    ensures
        arg == strict_argument(value),
{
    TlaArg::Val(unclassify(value))
}

/// `State::import`: the module at `path`, evaluated.
#[verifier::external_body]
pub(crate) fn import_path(state: &State, path: &str) -> (module: Result<Value, jrsonnet_evaluator::Error>)
{
    state.import(path).map(classify)
}

/// `State::import_from`: the module `path` as imported by a file named
/// `origin` that exists nowhere.
#[verifier::external_body]
pub(crate) fn import_from(state: &State, origin: &str, path: &str) -> (module: Result<Value, jrsonnet_evaluator::Error>)
{
    let from = SourcePath::new(SourceVirtual(origin.into()));
    state.import_from(&from, path).map(classify)
}

/// `State::evaluate_snippet`: the value of the source text `code`.
#[verifier::external_body]
pub(crate) fn evaluate_snippet(state: &State, name: &str, code: &str) -> (value: Result<Value, jrsonnet_evaluator::Error>)
{
    state.evaluate_snippet(name, code).map(classify)
}

} // verus!
