//! Resolution of mixins: patches applied to a base document.
//!
//! A mixin is nothing, an object, a function from the previous document and
//! the final one to a patch, or a list of mixins applied from left to right.
//! Resolving a mixin against an object yields an object.

use vstd::prelude::*;
use jrsonnet_evaluator::{ObjValue, State};
use jrsonnet_evaluator::function::FuncVal;
use jrsonnet_evaluator::val::ArrValue;
use crate::cell::DeferredCell;
use crate::tla::{Arguments, TlaError, apply_tla_opt, args_entries, args_insert, args_new, arguments_of};
use crate::value::{
    Value, array_get, array_item, array_len, array_length, extend_object, object_extension,
    object_fields, strict_arg,
};

verus! {

/// How deeply lists, and functions that return lists, may nest in one mixin.
pub const MAX_MIXIN_DEPTH: usize = 200;

/// A mixin whose lists have been read out.
#[derive(Debug)]
pub enum MixinSpec {
    /// Changes nothing.
    Null,
    /// Its fields override and extend those of the base.
    Object(ObjValue),
    /// Called with the previous document and the final one; returns a patch.
    Function(FuncVal),
    /// Applied one after the other, each to what the one before left.
    List(Vec<MixinSpec>),
}

/// A mixin, with its lists as sequences.
pub enum MixinModel {
    Null,
    Object(ObjValue),
    Function(FuncVal),
    List(Seq<MixinModel>),
}

impl View for MixinSpec {
    type V = MixinModel;

    open spec fn view(&self) -> MixinModel
        decreases self,
    {
        match self {
            MixinSpec::Null => MixinModel::Null,
            MixinSpec::Object(obj) => MixinModel::Object(*obj),
            MixinSpec::Function(func) => MixinModel::Function(*func),
            MixinSpec::List(items) => MixinModel::List(
                Seq::new(
                    items.len() as nat,
                    |i: int|
                        if 0 <= i < items.len() {
                            items[i].view()
                        } else {
                            MixinModel::Null
                        },
                ),
            ),
        }
    }
}

/// Why a mixin could not be resolved.
#[derive(Debug)]
pub enum MixError {
    /// The value to patch is no object.
    TargetNotObject,
    /// The mixin is neither null, an object, a function nor a list.
    BadMixin,
    /// A mixin function returned neither an object nor a list.
    BadFunctionResult,
    /// Lists nest more than [`MAX_MIXIN_DEPTH`] deep.
    TooDeep,
    /// The evaluator failed on the list item at `index`.
    Item { index: usize, error: jrsonnet_evaluator::Error },
    /// A mixin function could not be called, or failed.
    Call(TlaError),
}

/// Whether `mixin` holds no function, so that resolving it asks the evaluator
/// nothing.
pub open spec fn is_static(mixin: MixinModel) -> bool
    decreases mixin,
{
    match mixin {
        MixinModel::Null => true,
        MixinModel::Object(_) => true,
        MixinModel::Function(_) => false,
        MixinModel::List(items) => forall|i: int| 0 <= i < items.len() ==> is_static(#[trigger] items[i]),
    }
}

/// The object that resolving the function-free `mixin` against `base` makes.
/// Of a mixin that holds a function it says nothing that resolving does: it
/// passes the function over.
pub open spec fn resolved(base: ObjValue, mixin: MixinModel) -> ObjValue
    decreases mixin, 0nat,
{
    match mixin {
        MixinModel::Null => base,
        MixinModel::Object(obj) => object_extension(obj, base),
        MixinModel::Function(_) => base,
        MixinModel::List(items) => resolved_prefix(base, items, items.len()),
    }
}

/// The object after the first `count` of `items` were resolved in turn, each
/// against what the one before left.
pub open spec fn resolved_prefix(base: ObjValue, items: Seq<MixinModel>, count: nat) -> ObjValue
    decreases items, count,
{
    if count == 0 || count > items.len() {
        base
    } else {
        resolved(resolved_prefix(base, items, (count - 1) as nat), items[count - 1])
    }
}

/// A null mixin leaves every base as it is.
pub proof fn law_null_mixin(base: ObjValue)
    ensures
        resolved(base, MixinModel::Null) == base,
{
}

/// An object mixin yields the base extended by that object.
pub proof fn law_object_mixin(base: ObjValue, patch: ObjValue)
    ensures
        resolved(base, MixinModel::Object(patch)) == object_extension(patch, base),
{
}

/// One more mixin at the end of a list is resolved against what the list
/// before it yields. The law is stated of mixins without functions: what a
/// function returns is the evaluator's to decide, and [`resolved`] does not
/// say it.
pub proof fn law_list_push(base: ObjValue, items: Seq<MixinModel>, last: MixinModel)
    requires
        is_static(MixinModel::List(items)),
        is_static(last),
    ensures
        resolved(base, MixinModel::List(items.push(last))) == resolved(
            resolved(base, MixinModel::List(items)),
            last,
        ),
{
    let longer = items.push(last);
    lemma_prefix_of_longer(base, items, longer, items.len());
    assert(longer[items.len() as int] == last);
}

/// A list of two mixins is the second resolved against the first resolved
/// against the base. The law is stated of mixins without functions.
pub proof fn law_list_of_two(base: ObjValue, first: MixinModel, second: MixinModel)
    requires
        is_static(first),
        is_static(second),
    ensures
        resolved(base, MixinModel::List(seq![first, second])) == resolved(
            resolved(base, first),
            second,
        ),
{
    let one = seq![first];
    assert(seq![first, second] =~= one.push(second));
    assert(is_static(MixinModel::List(one)));
    law_list_push(base, one, second);
    assert(Seq::<MixinModel>::empty().push(first) =~= one);
    assert(is_static(MixinModel::List(Seq::<MixinModel>::empty())));
    law_list_push(base, Seq::<MixinModel>::empty(), first);
    assert(resolved_prefix(base, Seq::<MixinModel>::empty(), 0) == base);
}

/// Whether the value `mixin` is a mixin without functions, with lists that
/// nest at most `depth` deep: null, an object, or a list of such values one
/// level less deep. Resolving it asks the evaluator for the items of its
/// lists and for nothing else.
pub open spec fn is_plain(mixin: Value, depth: nat) -> bool
    decreases depth,
{
    match mixin {
        Value::Null => true,
        Value::Obj(_) => true,
        Value::Arr(arr) => depth > 0 && forall|i: int|
            0 <= i < array_length(arr) ==> is_plain(#[trigger] array_item(arr, i), (depth - 1) as nat),
        _ => false,
    }
}

/// Whether every item of `arr` is a mixin without functions, with lists
/// that nest at most `depth` deep.
pub open spec fn plain_list(arr: ArrValue, depth: nat) -> bool {
    forall|i: int| 0 <= i < array_length(arr) ==> is_plain(#[trigger] array_item(arr, i), depth)
}

/// The object that resolving the mixin without functions `mixin` against
/// `base` makes: the base for null, the base extended for an object, and
/// for a list the left fold over its items.
pub open spec fn plain_resolved(base: ObjValue, mixin: Value, depth: nat) -> ObjValue
    decreases depth, 0nat,
{
    match mixin {
        Value::Null => base,
        Value::Obj(patch) => object_extension(patch, base),
        Value::Arr(arr) => if depth > 0 {
            plain_items(base, arr, array_length(arr), (depth - 1) as nat)
        } else {
            base
        },
        _ => base,
    }
}

/// The object after the first `count` items of `arr` were resolved in turn,
/// each against what the one before left.
pub open spec fn plain_items(base: ObjValue, arr: ArrValue, count: nat, depth: nat) -> ObjValue
    decreases depth, 1nat, count,
{
    if count == 0 {
        base
    } else {
        plain_resolved(
            plain_items(base, arr, (count - 1) as nat, depth),
            array_item(arr, count - 1),
            depth,
        )
    }
}

/// A list without items leaves every base as it is.
pub proof fn law_empty_list(base: ObjValue, arr: ArrValue, depth: nat)
    requires
        array_length(arr) == 0,
        depth > 0,
    ensures
        is_plain(Value::Arr(arr), depth),
        plain_resolved(base, Value::Arr(arr), depth) == base,
{
}

/// A list of two mixins without functions is the second resolved against
/// the first resolved against the base.
pub proof fn law_list_of_two_items(base: ObjValue, arr: ArrValue, depth: nat)
    requires
        array_length(arr) == 2,
        is_plain(Value::Arr(arr), depth),
    ensures
        plain_resolved(base, Value::Arr(arr), depth) == plain_resolved(
            plain_resolved(base, array_item(arr, 0), (depth - 1) as nat),
            array_item(arr, 1),
            (depth - 1) as nat,
        ),
{
    let inner = (depth - 1) as nat;
    assert(plain_items(base, arr, 0, inner) == base);
    assert(plain_items(base, arr, 1, inner) == plain_resolved(base, array_item(arr, 0), inner));
    assert(plain_items(base, arr, 2, inner) == plain_resolved(
        plain_items(base, arr, 1, inner),
        array_item(arr, 1),
        inner,
    ));
}

/// One more item at the end of a list of mixins without functions is
/// resolved against what the items before it yield.
pub proof fn law_list_next_item(base: ObjValue, arr: ArrValue, count: nat, depth: nat)
    requires
        count < array_length(arr),
    ensures
        plain_items(base, arr, count + 1, depth) == plain_resolved(
            plain_items(base, arr, count, depth),
            array_item(arr, count as int),
            depth,
        ),
{
}

/// `Clone::clone` on the evaluator's object: a second handle on the same
/// object.
pub assume_specification[ <ObjValue as Clone>::clone ](obj: &ObjValue) -> (copy: ObjValue)
    ensures
        copy == *obj,
;

/// `Clone::clone` on the evaluator's function: a second handle on the same
/// function.
pub assume_specification[ <FuncVal as Clone>::clone ](func: &FuncVal) -> (copy: FuncVal)
    ensures
        copy == *func,
;

impl MixinSpec {
    /// Reads a mixin out of a value, lists down to `depth` levels. The items
    /// of a list are evaluated in order.
    pub fn parse(value: Value, depth: usize) -> (result: Result<MixinSpec, MixError>)
        ensures
            value is Null ==> result == Ok::<MixinSpec, MixError>(MixinSpec::Null),
            value matches Value::Obj(obj) ==> result == Ok::<MixinSpec, MixError>(
                MixinSpec::Object(obj),
            ),
            value matches Value::Func(func) ==> result == Ok::<MixinSpec, MixError>(
                MixinSpec::Function(func),
            ),
            value is Bool || value is Str || value is Num ==> (result matches Err(MixError::BadMixin)),
            value is Arr && depth == 0 ==> (result matches Err(MixError::TooDeep)),
            value matches Value::Arr(arr) ==> (result matches Ok(mixin) ==> mixin matches MixinSpec::List(
                items,
            ) && items.len() == array_length(arr)),
            value matches Value::Arr(arr) && depth > 0 && array_length(arr) == 0 ==> result is Ok,
            result matches Err(error) ==> error is BadMixin || error is TooDeep || error is Item,
        decreases depth,
    {
        match value {
            Value::Null => Ok(MixinSpec::Null),
            Value::Obj(obj) => Ok(MixinSpec::Object(obj)),
            Value::Func(func) => Ok(MixinSpec::Function(func)),
            Value::Arr(arr) => {
                if depth == 0 {
                    return Err(MixError::TooDeep);
                }
                let len = array_len(&arr);
                let mut items: Vec<MixinSpec> = Vec::new();
                let mut index: usize = 0;
                while index < len
                    invariant
                        value == Value::Arr(arr),
                        len == array_length(arr),
                        index <= len,
                        items.len() == index,
                        depth > 0,
                    decreases len - index,
                {
                    let item = match array_get(&arr, index) {
                        Ok(item) => item,
                        Err(error) => {
                            return Err(MixError::Item { index, error });
                        },
                    };
                    let mixin = MixinSpec::parse(item, depth - 1)?;
                    items.push(mixin);
                    index += 1;
                }
                Ok(MixinSpec::List(items))
            },
            _ => Err(MixError::BadMixin),
        }
    }
}

/// The bindings a mixin function is called with: those of `ambient`, `prev`
/// bound to the document so far and `final` to the reference into `cell`.
pub fn mixin_arguments(ambient: &Arguments, base: &ObjValue, cell: &DeferredCell) -> (args: Arguments)
    ensures
        arguments_of(args) == arguments_of(*ambient).insert(
            "prev"@,
            crate::value::strict_argument(Value::Obj(*base)),
        ).insert("final"@, cell.reference()),
{
    let mut rest = args_entries(ambient);
    let ghost all = rest@;
    let ghost source = arguments_of(*ambient);
    let mut args = args_new();
    while rest.len() > 0
        invariant
            rest.len() <= all.len(),
            rest@ == all.take(rest.len() as int),
            forall|i: int| 0 <= i < all.len() ==> source.contains_pair((#[trigger] all[i]).0@, all[i].1),
            arguments_of(args) =~= source.restrict(
                Set::new(
                    |name: Seq<char>|
                        exists|j: int| rest.len() <= j < all.len() && (#[trigger] all[j]).0@ == name,
                ),
            ),
        decreases rest.len(),
    {
        let ghost n = rest.len() as int;
        let (name, value) = rest.pop().unwrap();
        assert(all[n - 1] == (name, value));
        args_insert(&mut args, name.as_str(), value);
        assert(rest@ =~= all.take(rest.len() as int));
    }
    assert(arguments_of(args) =~= source);
    args_insert(&mut args, "prev", strict_arg(Value::Obj(base.clone())));
    args_insert(&mut args, "final", cell.as_lazy_reference());
    args
}

/// What a mixin function's result is worth against `base`: an object stands
/// as the new document, a list is resolved against `base` as a list mixin,
/// anything else is refused.
pub fn resolve_function_result(
    state: &State,
    base: ObjValue,
    returned: Value,
    ambient: &Arguments,
    cell: &DeferredCell,
    depth: usize,
) -> (result: Result<ObjValue, MixError>)
    ensures
        returned matches Value::Obj(obj) ==> result == Ok::<ObjValue, MixError>(obj),
        !(returned is Obj) && !(returned is Arr) ==> (result matches Err(MixError::BadFunctionResult)),
        returned is Arr && depth == 0 ==> (result matches Err(MixError::TooDeep)),
        returned matches Value::Arr(arr) && depth > 0 && array_length(arr) == 0 ==> result == Ok::<
            ObjValue,
            MixError,
        >(base),
        (result matches Err(MixError::BadFunctionResult)) ==> !(returned is Obj),
        !(result matches Err(MixError::TargetNotObject)),
    decreases depth, 0nat,
{
    match returned {
        Value::Obj(obj) => Ok(obj),
        Value::Arr(arr) => {
            if depth == 0 {
                return Err(MixError::TooDeep);
            }
            resolve_items(state, base, &arr, ambient, cell, depth - 1)
        },
        _ => Err(MixError::BadFunctionResult),
    }
}

/// Resolves `mixin` against `base`.
///
/// A mixin without functions is resolved without the evaluator, and the
/// result is [`resolved`]. A function is called through [`apply_tla_opt`]
/// with [`mixin_arguments`]; [`resolve_function_result`] says what becomes of
/// what it returns.
pub fn resolve(
    state: &State,
    base: ObjValue,
    mixin: &MixinSpec,
    ambient: &Arguments,
    cell: &DeferredCell,
    depth: usize,
) -> (result: Result<ObjValue, MixError>)
    ensures
        is_static(mixin@) ==> result == Ok::<ObjValue, MixError>(resolved(base, mixin@)),
        mixin@ matches MixinModel::Object(patch) ==> object_fields(result->Ok_0) == object_fields(
            base,
        ).union(object_fields(patch)),
        !(result matches Err(MixError::TargetNotObject)),
        result is Err ==> !(mixin is Null) && !(mixin is Object),
    decreases depth, 1nat, mixin,
{
    match mixin {
        MixinSpec::Null => Ok(base),
        MixinSpec::Object(patch) => Ok(extend_object(patch, base)),
        MixinSpec::Function(func) => {
            let args = mixin_arguments(ambient, &base, cell);
            let returned = match apply_tla_opt(state, &args, Value::Func(func.clone())) {
                Ok(returned) => returned,
                Err(error) => {
                    return Err(MixError::Call(error));
                },
            };
            resolve_function_result(state, base, returned, ambient, cell, depth)
        },
        MixinSpec::List(items) => {
            let ghost start = base;
            let mut current = base;
            let mut index: usize = 0;
            while index < items.len()
                invariant
                    index <= items.len(),
                    mixin == MixinSpec::List(*items),
                    (forall|i: int| 0 <= i < index ==> is_static(#[trigger] mixin@->List_0[i]))
                        ==> current == resolved_prefix(start, mixin@->List_0, index as nat),
                decreases items.len() - index,
            {
                assert(mixin@->List_0[index as int] == items[index as int]@);
                current = resolve(state, current, &items[index], ambient, cell, depth)?;
                index += 1;
            }
            Ok(current)
        },
    }
}

/// Resolves the items of the list `arr` in turn, each against what the one
/// before left. An item is evaluated when its turn comes, and not before:
/// where an item fails, the items behind it are not looked at. For a list
/// of mixins without functions the result is the left fold
/// [`plain_items`], unless an item fails to evaluate.
#[verifier::loop_isolation(false)]
pub fn resolve_items(
    state: &State,
    base: ObjValue,
    arr: &ArrValue,
    ambient: &Arguments,
    cell: &DeferredCell,
    depth: usize,
) -> (result: Result<ObjValue, MixError>)
    ensures
        array_length(*arr) == 0 ==> result == Ok::<ObjValue, MixError>(base),
        plain_list(*arr, depth as nat) ==> (result matches Ok(document) ==> document
            == plain_items(base, *arr, array_length(*arr), depth as nat)) && (result matches Err(
            error,
        ) ==> error is Item),
        !(result matches Err(MixError::TargetNotObject)),
        (result matches Err(MixError::Item { index, .. })) ==> array_length(*arr) > 0,
    decreases depth, 3nat,
{
    let len = array_len(arr);
    let ghost start = base;
    let mut current = base;
    let mut index: usize = 0;
    while index < len
        invariant
            index <= len,
            len == array_length(*arr),
            index == 0 ==> current == start,
            plain_list(*arr, depth as nat) ==> current == plain_items(
                start,
                *arr,
                index as nat,
                depth as nat,
            ),
        decreases len - index,
    {
        let item = match array_get(arr, index) {
            Ok(item) => item,
            Err(error) => {
                return Err(MixError::Item { index, error });
            },
        };
        assert(item == array_item(*arr, index as int));
        current = resolve_value(state, current, item, ambient, cell, depth)?;
        index += 1;
    }
    Ok(current)
}

/// Resolves the mixin that the value `mixin` is against `base`.
///
/// Null leaves the base as it is and an object extends it. A function is
/// called and its result taken as [`resolve_function_result`] says. A list
/// is resolved item by item, see [`resolve_items`]. Any other value is no
/// mixin.
pub fn resolve_value(
    state: &State,
    base: ObjValue,
    mixin: Value,
    ambient: &Arguments,
    cell: &DeferredCell,
    depth: usize,
) -> (result: Result<ObjValue, MixError>)
    ensures
        mixin is Null ==> result == Ok::<ObjValue, MixError>(base),
        mixin matches Value::Obj(patch) ==> result == Ok::<ObjValue, MixError>(
            object_extension(patch, base),
        ) && object_fields(object_extension(patch, base)) == object_fields(base).union(
            object_fields(patch),
        ),
        mixin is Bool || mixin is Str || mixin is Num ==> (result matches Err(MixError::BadMixin)),
        mixin is Arr && depth == 0 ==> (result matches Err(MixError::TooDeep)),
        mixin matches Value::Arr(arr) && depth > 0 && array_length(arr) == 0 ==> result == Ok::<
            ObjValue,
            MixError,
        >(base),
        is_plain(mixin, depth as nat) ==> (result matches Ok(document) ==> document
            == plain_resolved(base, mixin, depth as nat)) && (result matches Err(error) ==> error
            is Item),
        !(result matches Err(MixError::TargetNotObject)),
    decreases depth, 2nat,
{
    match mixin {
        Value::Arr(arr) => {
            if depth == 0 {
                return Err(MixError::TooDeep);
            }
            resolve_items(state, base, &arr, ambient, cell, depth - 1)
        },
        single => {
            let spec = MixinSpec::parse(single, depth)?;
            resolve(state, base, &spec, ambient, cell, depth)
        },
    }
}

/// Whether `mixin` is the null mixin.
fn is_null(mixin: &Value) -> (null: bool)
    ensures
        null == (*mixin is Null),
{
    match mixin {
        Value::Null => true,
        _ => false,
    }
}

/// Whether applying `mixin` to `val` gives `result`, as far as the library
/// decides it and not the evaluator.
///
/// A null mixin returns the value unchanged, whatever it is. Any other mixin
/// needs an object. An object mixin returns the object extended by it, with
/// the fields of both; an empty list returns the object unchanged; a boolean,
/// a number or a string is no mixin. A mixin without functions gives the
/// left fold [`plain_resolved`], unless an item of a list fails to evaluate.
/// A result other than for the null mixin is an object, and a failure other
/// than these comes from a list or a function.
pub open spec fn mixed(val: Value, mixin: Value, result: Result<Value, MixError>) -> bool {
    &&& mixin is Null ==> result == Ok::<Value, MixError>(val)
    &&& !(val is Obj) && !(mixin is Null) ==> (result matches Err(MixError::TargetNotObject))
    &&& (result matches Err(MixError::TargetNotObject)) ==> !(val is Obj) && !(mixin is Null)
    &&& val matches Value::Obj(base) ==> (mixin matches Value::Obj(patch) ==> result == Ok::<
        Value,
        MixError,
    >(Value::Obj(object_extension(patch, base))) && object_fields(object_extension(patch, base))
        == object_fields(base).union(object_fields(patch)))
    &&& val is Obj && (mixin is Bool || mixin is Str || mixin is Num) ==> (result matches Err(
        MixError::BadMixin,
    ))
    &&& val is Obj ==> (mixin matches Value::Arr(arr) && array_length(arr) == 0 ==> result == Ok::<
        Value,
        MixError,
    >(val))
    &&& val is Obj && is_plain(mixin, MAX_MIXIN_DEPTH as nat) ==> (result matches Ok(document)
        ==> document == Value::Obj(plain_resolved(val->Obj_0, mixin, MAX_MIXIN_DEPTH as nat))) && (
    result matches Err(error) ==> error is Item)
    &&& result matches Ok(document) ==> document is Obj || mixin is Null
    &&& val is Obj && result is Err ==> !(mixin is Null) && !(mixin is Obj)
    &&& val is Obj && !(result matches Err(MixError::BadMixin)) && result is Err ==> mixin is Arr
        || mixin is Func
}

/// Applies the mixin `mixin` to the value `val`, as [`mixed`] says.
pub fn mix_inner(
    state: &State,
    val: Value,
    mixin: Value,
    glob_args: &Arguments,
    final_val: &DeferredCell,
) -> (result: Result<Value, MixError>)
    ensures
        mixed(val, mixin, result),
{
    if is_null(&mixin) {
        return Ok(val);
    }
    let base = match val {
        Value::Obj(base) => base,
        _ => {
            return Err(MixError::TargetNotObject);
        },
    };
    let document = resolve_value(state, base, mixin, glob_args, final_val, MAX_MIXIN_DEPTH)?;
    Ok(Value::Obj(document))
}

/// Applies `mixin` to `prev` with no ambient arguments, as [`mixed`] says,
/// and lets the mixin's functions refer to the result as `final`.
pub fn mix(state: &State, mixin: Value, prev: Value) -> (result: Result<Value, MixError>)
    ensures
        mixed(prev, mixin, result),
{
    let mut final_val = DeferredCell::new();
    let ambient = args_new();
    let document = mix_inner(state, prev, mixin, &ambient, &final_val)?;
    let filled = final_val.fill(document.duplicate());
    assert(filled is Ok);
    Ok(document)
}

/// A prefix resolves alike in every list that begins with it.
proof fn lemma_prefix_of_longer(base: ObjValue, items: Seq<MixinModel>, longer: Seq<MixinModel>, count: nat)
    requires
        count <= items.len(),
        items.is_prefix_of(longer),
    ensures
        resolved_prefix(base, longer, count) == resolved_prefix(base, items, count),
    decreases count,
{
    if count > 0 {
        lemma_prefix_of_longer(base, items, longer, (count - 1) as nat);
        assert(longer[count - 1] == items[count - 1]);
    }
}

} // verus!
