//! The composition pipeline.
//!
//! Three stages run one after the other. The base stage folds the declared
//! modules into a document. The extension stage folds the input modules and
//! the generators' own modules over it and injects each generator's
//! configuration. The extraction stage pulls each generator's output out of
//! the document. A failure in any stage ends the run.

use vstd::prelude::*;
use vstd::string::*;
use jrsonnet_evaluator::{ObjValue, State};
use jrsonnet_evaluator::function::TlaArg;
use jrsonnet_evaluator::val::ArrValue;
use crate::cell::DeferredCell;
use crate::generator::{Generator, GeneratorConfig};
use crate::text::strip_prefix;
use crate::tla::{Arguments, TlaError, apply_tla_opt, args_contains, args_insert, arguments_of};
use crate::value::{
    Value, array_get, array_item, array_len, array_length, evaluate_snippet, extend_object,
    import_from, import_path, object_extension, object_field, object_fields, object_get,
    object_with_field,
    object_with_texts, single_field_object, strict_arg, strict_argument, text_record,
};

verus! {

/// The module that every composition ends its base stage with.
pub const BASE_MODULE: &'static str = "lib:baedeker-library/inputs/base.libsonnet";

/// A reference to a module, by its form.
#[derive(Debug)]
pub enum ModuleRef {
    /// A module of the library, behind the prefix `lib:`.
    Library(String),
    /// Source text given in place, behind the prefix `snippet:`.
    Snippet(String),
    /// A path on disk.
    Path(String),
}

/// Why a composition failed.
#[derive(Debug)]
pub enum PipelineError {
    /// The caller's arguments bind `prev` or `final`.
    ReservedArgument,
    /// No module is given.
    NoModules,
    /// The first module is an empty array.
    EmptyConfigArray,
    /// The module `module` could not be imported.
    Import { module: String, error: jrsonnet_evaluator::Error },
    /// The item at `index` of the first module's array could not be evaluated.
    ConfigArrayItem { index: usize, error: jrsonnet_evaluator::Error },
    /// Applying the arguments to the first module failed.
    ApplyFirst { cause: TlaError },
    /// Applying the arguments to the item at `index` of the first module's
    /// array failed.
    ApplyArrayItem { index: usize, cause: TlaError },
    /// Applying the arguments to the module `module` failed.
    ApplyModule { module: String, cause: TlaError },
    /// The document is no object.
    ConfigNotObject,
    /// The document has no output object.
    MissingOutputKey,
    /// The document's output is no object.
    OutputNotObject,
    /// The output object has nothing under `attribute`.
    MissingGeneratorOutput { attribute: String },
    /// The evaluator failed on the field `field`.
    Lookup { field: String, error: jrsonnet_evaluator::Error },
}

/// Reads a module reference of the base stage.
pub fn module_ref(module: &str) -> (reference: ModuleRef)
    ensures
        "lib:"@.is_prefix_of(module@) ==> (reference matches ModuleRef::Library(name) && name@
            == module@.skip("lib:"@.len() as int)),
        !"lib:"@.is_prefix_of(module@) && "snippet:"@.is_prefix_of(module@) ==> (
        reference matches ModuleRef::Snippet(code) && code@ == module@.skip(
            "snippet:"@.len() as int,
        )),
        !"lib:"@.is_prefix_of(module@) && !"snippet:"@.is_prefix_of(module@) ==> (
        reference matches ModuleRef::Path(path) && path@ == module@),
{
    if let Some(name) = strip_prefix(module, "lib:") {
        ModuleRef::Library(String::from_str(name))
    } else if let Some(code) = strip_prefix(module, "snippet:") {
        ModuleRef::Snippet(String::from_str(code))
    } else {
        ModuleRef::Path(String::from_str(module))
    }
}

/// Reads a module reference of the extension stage, which takes no source
/// text in place.
pub fn input_module_ref(module: &str) -> (reference: ModuleRef)
    ensures
        "lib:"@.is_prefix_of(module@) ==> (reference matches ModuleRef::Library(name) && name@
            == module@.skip("lib:"@.len() as int)),
        !"lib:"@.is_prefix_of(module@) ==> (reference matches ModuleRef::Path(path) && path@
            == module@),
{
    if let Some(name) = strip_prefix(module, "lib:") {
        ModuleRef::Library(String::from_str(name))
    } else {
        ModuleRef::Path(String::from_str(module))
    }
}

/// The value of the module that `reference` names. `module` is the reference
/// as it was written, for the error.
///
/// A library module is imported as from a file that exists nowhere, source
/// text is evaluated in place, and a path is imported from disk. What the
/// evaluator makes of it is the evaluator's to decide: [`module_outcome`]
/// says what becomes of its answer. A failure is an import failure that
/// names `module`.
fn load_module(state: &State, reference: &ModuleRef, module: &str) -> (loaded: Result<
    Value,
    PipelineError,
>)
    ensures
        loaded matches Err(error) ==> (error matches PipelineError::Import { module: named, .. }
            && named@ == module@),
{
    let outcome = match reference {
        ModuleRef::Library(name) => import_from(state, "module import", name.as_str()),
        ModuleRef::Snippet(code) => evaluate_snippet(state, "<snippet>", code.as_str()),
        ModuleRef::Path(path) => import_path(state, path.as_str()),
    };
    module_outcome(outcome, module)
}

/// What the evaluator's answer for the module `module` is to the pipeline:
/// the module's value, or an import failure that names the module and holds
/// the evaluator's error.
pub fn module_outcome(outcome: Result<Value, jrsonnet_evaluator::Error>, module: &str) -> (loaded:
    Result<Value, PipelineError>)
    ensures
        outcome matches Ok(value) ==> loaded == Ok::<Value, PipelineError>(value),
        outcome matches Err(cause) ==> (loaded matches Err(PipelineError::Import { module: named, error })
            && named@ == module@ && error == cause),
{
    match outcome {
        Ok(value) => Ok(value),
        Err(error) => Err(PipelineError::Import { module: String::from_str(module), error }),
    }
}

/// Whether `tla` binds a name that the pipeline keeps for itself.
pub fn binds_reserved(tla: &Arguments) -> (bound: bool)
    ensures
        bound == (arguments_of(*tla).contains_key("prev"@) || arguments_of(*tla).contains_key(
            "final"@,
        )),
{
    args_contains(tla, "prev") || args_contains(tla, "final")
}

/// The modules of the base stage: the declared ones, then the base module.
pub fn base_modules(modules: &Vec<String>) -> (all: Vec<String>)
    ensures
        all.len() == modules.len() + 1,
        forall|i: int| 0 <= i < modules.len() ==> all[i]@ == modules[i]@,
        all[modules.len() as int]@ == BASE_MODULE@,
{
    let mut all: Vec<String> = Vec::new();
    let mut i: usize = 0;
    while i < modules.len()
        invariant
            i <= modules.len(),
            all.len() == i,
            forall|k: int| 0 <= k < i ==> all[k]@ == modules[k]@,
        decreases modules.len() - i,
    {
        all.push(modules[i].clone());
        i += 1;
    }
    all.push(String::from_str(BASE_MODULE));
    all
}

/// The modules of the extension stage: the input modules, then the modules
/// of each generator, in the generators' order.
pub fn extension_modules(input_modules: &Vec<String>, generators: &Vec<Generator>) -> (all: Vec<
    String,
>)
    ensures
        all.len() == input_modules.len() + generators.len(),
        forall|i: int| 0 <= i < input_modules.len() ==> all[i]@ == input_modules[i]@,
        forall|i: int|
            0 <= i < generators.len() ==> all[input_modules.len() + i]@
                == generators[i].library_module(),
{
    let mut all: Vec<String> = Vec::new();
    let mut i: usize = 0;
    while i < input_modules.len()
        invariant
            i <= input_modules.len(),
            all.len() == i,
            forall|k: int| 0 <= k < i ==> all[k]@ == input_modules[k]@,
        decreases input_modules.len() - i,
    {
        all.push(input_modules[i].clone());
        i += 1;
    }
    let mut j: usize = 0;
    while j < generators.len()
        invariant
            j <= generators.len(),
            all.len() == input_modules.len() + j,
            forall|k: int| 0 <= k < input_modules.len() ==> all[k]@ == input_modules[k]@,
            forall|k: int|
                0 <= k < j ==> all[input_modules.len() + k]@ == generators[k].library_module(),
        decreases generators.len() - j,
    {
        let mut modules = generators[j].library_modules();
        let module = modules.pop().unwrap();
        all.push(module);
        j += 1;
    }
    all
}

/// The items of the array `arr`, evaluated in order. The first item that
/// fails ends the reading.
#[verifier::loop_isolation(false)]
pub fn read_items(arr: &ArrValue) -> (result: Result<Vec<Value>, PipelineError>)
    ensures
        result matches Ok(items) ==> items.len() == array_length(*arr) && forall|i: int|
            0 <= i < items.len() ==> #[trigger] items[i] == array_item(*arr, i),
        result matches Err(error) ==> (error matches PipelineError::ConfigArrayItem { index, .. }
            && index < array_length(*arr)),
        array_length(*arr) == 0 ==> result is Ok,
{
    let len = array_len(arr);
    let mut items: Vec<Value> = Vec::new();
    let mut index: usize = 0;
    while index < len
        invariant
            len == array_length(*arr),
            index <= len,
            items.len() == index,
            forall|i: int| 0 <= i < index ==> #[trigger] items[i] == array_item(*arr, i),
        decreases len - index,
    {
        match array_get(arr, index) {
            Ok(item) => items.push(item),
            Err(error) => {
                return Err(PipelineError::ConfigArrayItem { index, error });
            },
        }
        index += 1;
    }
    Ok(items)
}

/// The head of a first module that is an array with the items `items`, and
/// the patches behind it: the first item and the others. Without an item
/// there is no head.
pub fn head_and_patches(items: Vec<Value>) -> (result: Result<(Value, Vec<Value>), PipelineError>)
    ensures
        items.len() == 0 ==> (result matches Err(PipelineError::EmptyConfigArray)),
        items.len() > 0 ==> (result matches Ok(parts) && parts.0 == items[0] && parts.1@
            == items@.skip(1)),
{
    let mut items = items;
    if items.len() == 0 {
        return Err(PipelineError::EmptyConfigArray);
    }
    let ghost all = items@;
    let head = items.remove(0);
    assert(items@ =~= all.skip(1));
    Ok((head, items))
}

/// The head of the first module and the patches behind it. A first module
/// that is an array gives its items, read by [`read_items`], to
/// [`head_and_patches`]: the head is the array's first item and the patches
/// are the others in their order. Any other value is the head itself.
pub fn split_first(first: Value) -> (result: Result<(Value, Vec<Value>), PipelineError>)
    ensures
        !(first is Arr) ==> (result matches Ok(parts) && parts.0 == first && parts.1.len() == 0),
        first matches Value::Arr(arr) ==> {
            &&& array_length(arr) == 0 ==> (result matches Err(PipelineError::EmptyConfigArray))
            &&& result matches Ok(parts) ==> parts.1.len() + 1 == array_length(arr)
                && parts.1.len() < usize::MAX
            &&& result matches Ok(parts) ==> parts.0 == array_item(arr, 0) && forall|k: int|
                0 <= k < parts.1.len() ==> #[trigger] parts.1[k] == array_item(arr, k + 1)
            &&& result matches Err(PipelineError::ConfigArrayItem { index, .. }) ==> index
                < array_length(arr)
        },
        (result matches Err(PipelineError::EmptyConfigArray)) ==> (first matches Value::Arr(arr)
            && array_length(arr) == 0),
        result matches Err(error) ==> first is Arr && (error is EmptyConfigArray || error
            is ConfigArrayItem),
{
    match first {
        Value::Arr(arr) => {
            let items = read_items(&arr)?;
            let ghost read = items@;
            let result = head_and_patches(items);
            proof {
                if result is Ok {
                    let patches = result->Ok_0.1;
                    assert forall|k: int| 0 <= k < patches.len() implies #[trigger] patches[k]
                        == array_item(arr, k + 1) by {
                        assert(patches@[k] == read.skip(1)[k]);
                        assert(read[k + 1] == array_item(arr, k + 1));
                    }
                }
            }
            result
        },
        other => Ok((other, Vec::new())),
    }
}

/// Binds `prev` to the document so far.
pub fn bind_previous(tla: &mut Arguments, config: &Value)
    ensures
        arguments_of(*final(tla)) == arguments_of(*old(tla)).insert("prev"@, strict_argument(*config)),
{
    args_insert(tla, "prev", strict_arg(config.duplicate()));
}

/// Binds `final` to the reference into `cell`.
pub fn bind_final(tla: &mut Arguments, cell: &DeferredCell)
    ensures
        arguments_of(*final(tla)) == arguments_of(*old(tla)).insert("final"@, cell.reference()),
{
    args_insert(tla, "final", cell.as_lazy_reference());
}

/// Whether `tla` binds `prev` or `final`.
pub open spec fn reserved(tla: Map<Seq<char>, TlaArg>) -> bool {
    tla.contains_key("prev"@) || tla.contains_key("final"@)
}

/// Whether `after` holds every binding of `before` as it was, and beyond
/// them at most `final` and `prev`.
pub open spec fn kept(before: Map<Seq<char>, TlaArg>, after: Map<Seq<char>, TlaArg>) -> bool {
    &&& forall|name: Seq<char>| before.contains_key(name) ==> after.contains_pair(name, before[name])
    &&& after.dom().subset_of(before.dom().insert("final"@).insert("prev"@))
}

/// Whether `error` is a failure that the base stage can end in.
pub open spec fn base_failure(error: PipelineError) -> bool {
    error is ReservedArgument || error is NoModules || error is Import || error is EmptyConfigArray
        || error is ConfigArrayItem || error is ApplyFirst || error is ApplyArrayItem || error
        is ApplyModule
}

/// The base stage: folds `modules` and the base module into a document.
///
/// Arguments that bind `prev` or `final` are refused, and so is an empty
/// list of modules, both before anything is imported and with the arguments
/// left as they are. Otherwise `final` is bound to the document this stage
/// ends in. The first module is imported from disk. Where it is an array,
/// its first item is the document to start from and the others are patches.
/// Every later module is applied with `prev` bound to the document so far.
/// The caller's own arguments stay as they are. What the modules make of
/// the document is the evaluator's to decide.
#[verifier::loop_isolation(false)]
pub fn base_stage(state: &State, modules: &Vec<String>, tla: &mut Arguments) -> (result: Result<
    Value,
    PipelineError,
>)
    ensures
        reserved(arguments_of(*old(tla))) <==> (result matches Err(PipelineError::ReservedArgument)),
        !reserved(arguments_of(*old(tla))) && modules.len() == 0 <==> (result matches Err(
            PipelineError::NoModules,
        )),
        reserved(arguments_of(*old(tla))) || modules.len() == 0 ==> arguments_of(*final(tla))
            == arguments_of(*old(tla)),
        !reserved(arguments_of(*old(tla))) && modules.len() > 0 ==> kept(
            arguments_of(*old(tla)),
            arguments_of(*final(tla)),
        ) && arguments_of(*final(tla)).contains_key("final"@),
        result matches Err(error) ==> base_failure(error),
{
    if binds_reserved(tla) {
        return Err(PipelineError::ReservedArgument);
    }
    if modules.len() == 0 {
        return Err(PipelineError::NoModules);
    }
    let ghost before = arguments_of(*tla);
    let mut final_config = DeferredCell::new();
    bind_final(tla, &final_config);
    assert(kept(before, arguments_of(*tla)));

    let all = base_modules(modules);
    let first = match import_path(state, all[0].as_str()) {
        Ok(first) => first,
        Err(error) => {
            return Err(PipelineError::Import { module: all[0].clone(), error });
        },
    };
    let (head, patches) = split_first(first)?;
    let mut config = match apply_tla_opt(state, tla, head) {
        Ok(config) => config,
        Err(cause) => {
            return Err(PipelineError::ApplyFirst { cause });
        },
    };

    let mut p: usize = 0;
    while p < patches.len()
        invariant
            p <= patches.len(),
            patches.len() < usize::MAX,
            kept(before, arguments_of(*tla)),
            arguments_of(*tla).contains_key("final"@),
        decreases patches.len() - p,
    {
        bind_previous(tla, &config);
        assert(kept(before, arguments_of(*tla)));
        config = match apply_tla_opt(state, tla, patches[p].duplicate()) {
            Ok(config) => config,
            Err(cause) => {
                return Err(PipelineError::ApplyArrayItem { index: p + 1, cause });
            },
        };
        p += 1;
    }

    let mut i: usize = 1;
    while i < all.len()
        invariant
            1 <= i,
            kept(before, arguments_of(*tla)),
            arguments_of(*tla).contains_key("final"@),
        decreases all.len() - i,
    {
        let reference = module_ref(all[i].as_str());
        let module = load_module(state, &reference, all[i].as_str())?;
        bind_previous(tla, &config);
        assert(kept(before, arguments_of(*tla)));
        config = match apply_tla_opt(state, tla, module) {
            Ok(config) => config,
            Err(cause) => {
                return Err(PipelineError::ApplyModule { module: all[i].clone(), cause });
            },
        };
        i += 1;
    }

    let filled = final_config.fill(config.duplicate());
    assert(filled is Ok);
    Ok(config)
}

/// The patch that carries a generator's configuration: `config` under the
/// hidden field `_config`, inside the field `attribute` of the output object
/// `_output`. Each field adds to what it overrides.
pub open spec fn config_patch(attribute: Seq<char>, config: Value) -> ObjValue {
    single_field_object(
        "_output"@,
        false,
        Value::Obj(
            single_field_object(
                attribute,
                false,
                Value::Obj(single_field_object("_config"@, true, config)),
            ),
        ),
    )
}

/// The configuration of a generator as a value: the fields `emptyImage` and
/// `outputRoot`.
pub fn config_value(config: &GeneratorConfig) -> (value: Value)
    ensures
        value == Value::Obj(
            text_record(
                "emptyImage"@,
                config.empty_image@,
                "outputRoot"@,
                config.output_root@,
            ),
        ),
{
    Value::Obj(
        object_with_texts(
            "emptyImage",
            config.empty_image.as_str(),
            "outputRoot",
            config.output_root.as_str(),
        ),
    )
}

/// Injects a generator's configuration into the document, under the
/// generator's own attribute of the output object.
pub fn inject_config(document: Value, attribute: &str, config: Value) -> (result: Result<
    Value,
    PipelineError,
>)
    ensures
        !(document is Obj) ==> (result matches Err(PipelineError::ConfigNotObject)),
        document matches Value::Obj(base) ==> (result matches Ok(Value::Obj(injected)) && injected
            == object_extension(config_patch(attribute@, config), base) && object_fields(injected)
            == object_fields(base).insert("_output"@)),
{
    let base = match document {
        Value::Obj(base) => base,
        _ => {
            return Err(PipelineError::ConfigNotObject);
        },
    };
    let inner = object_with_field("_config", true, config);
    let output = object_with_field(attribute, false, Value::Obj(inner));
    let patch = object_with_field("_output", false, Value::Obj(output));
    let ghost fields = object_fields(base);
    let injected = extend_object(&patch, base);
    assert(object_fields(injected) =~= fields.insert("_output"@));
    Ok(Value::Obj(injected))
}

/// Whether `after` is `before` with `final` and `prev` bound anew and every
/// other binding as it was.
pub open spec fn rebound(before: Map<Seq<char>, TlaArg>, after: Map<Seq<char>, TlaArg>) -> bool {
    &&& after.dom() =~= before.dom().insert("final"@).insert("prev"@)
    &&& forall|name: Seq<char>|
        before.contains_key(name) && name != "final"@ && name != "prev"@ ==> after[name]
            == before[name]
}

/// Whether `document` is an object with the output object `_output`.
pub open spec fn has_output(document: Value) -> bool {
    document matches Value::Obj(object) && object_fields(object).contains("_output"@)
}

/// Whether one of the first `upto` of `generators` hands a configuration to
/// the document.
pub open spec fn any_configured(generators: Seq<Generator>, upto: int) -> bool {
    exists|k: int| 0 <= k < upto && k < generators.len() && (#[trigger] generators[k]) is DockerCompose
}

/// What the generator `generator` hands to the document, as a value.
pub open spec fn handed_over(generator: Generator, empty_image: Seq<char>) -> Option<Value> {
    match generator {
        Generator::DockerCompose(dir) => Some(
            Value::Obj(text_record("emptyImage"@, empty_image, "outputRoot"@, dir@)),
        ),
        _ => None,
    }
}

/// The document with the configuration of `generator` injected, where it
/// has one: nothing where the document is no object.
pub open spec fn injected_one(document: Value, generator: Generator, empty_image: Seq<char>) -> Option<
    Value,
> {
    match handed_over(generator, empty_image) {
        None => Some(document),
        Some(config) => match document {
            Value::Obj(base) => Some(
                Value::Obj(object_extension(config_patch(generator.attribute(), config), base)),
            ),
            _ => None,
        },
    }
}

/// The document with the configurations of the first `upto` generators
/// injected, one after the other in the generators' order.
pub open spec fn injected(
    document: Value,
    generators: Seq<Generator>,
    empty_image: Seq<char>,
    upto: int,
) -> Option<Value>
    decreases upto,
{
    if upto <= 0 || upto > generators.len() {
        Some(document)
    } else {
        match injected(document, generators, empty_image, upto - 1) {
            Some(before) => injected_one(before, generators[upto - 1], empty_image),
            None => None,
        }
    }
}

/// Injects what `generator` hands over into the document, under the
/// generator's own attribute. A generator that hands nothing over leaves the
/// document as it is.
pub fn inject_for(document: Value, generator: &Generator, empty_image: &str) -> (result: Result<
    Value,
    PipelineError,
>)
    ensures
        injected_one(document, *generator, empty_image@) matches Some(after) ==> result == Ok::<
            Value,
            PipelineError,
        >(after),
        injected_one(document, *generator, empty_image@) is None ==> (result matches Err(
            PipelineError::ConfigNotObject,
        )),
        result matches Ok(after) ==> (*generator is DockerCompose ==> has_output(after)) && (!(
        *generator is DockerCompose) ==> after == document),
{
    match generator.config(empty_image) {
        Some(generator_config) => {
            let attribute = generator.output_attribute();
            inject_config(document, attribute.as_str(), config_value(&generator_config))
        },
        None => Ok(document),
    }
}

/// Once a document is no object where a configuration is to be injected,
/// the generators behind change nothing of that.
proof fn lemma_injection_stays_refused(
    document: Value,
    generators: Seq<Generator>,
    empty_image: Seq<char>,
    at: int,
    upto: int,
)
    requires
        0 <= at <= upto <= generators.len(),
        injected(document, generators, empty_image, at) is None,
    ensures
        injected(document, generators, empty_image, upto) is None,
    decreases upto - at,
{
    if at < upto {
        lemma_injection_stays_refused(document, generators, empty_image, at, upto - 1);
    }
}

/// Injects the configuration of each generator that has one into the
/// document, in the generators' order and each under its own attribute. A
/// document that is no object where a configuration is to be injected ends
/// the injection.
pub fn inject_all(document: Value, generators: &Vec<Generator>, empty_image: &str) -> (result: Result<
    Value,
    PipelineError,
>)
    ensures
        injected(document, generators@, empty_image@, generators.len() as int) matches Some(after)
            ==> result == Ok::<Value, PipelineError>(after),
        injected(document, generators@, empty_image@, generators.len() as int) is None ==> (
        result matches Err(PipelineError::ConfigNotObject)),
        result matches Ok(after) ==> (any_configured(generators@, generators.len() as int)
            ==> has_output(after)),
        result is Err ==> any_configured(generators@, generators.len() as int),
{
    let mut current = document;
    let mut j: usize = 0;
    while j < generators.len()
        invariant
            j <= generators.len(),
            injected(document, generators@, empty_image@, j as int) == Some(current),
            any_configured(generators@, j as int) ==> has_output(current),
        decreases generators.len() - j,
    {
        let ghost before = current;
        current = match inject_for(current, &generators[j], empty_image) {
            Ok(after) => after,
            Err(error) => {
                proof {
                    assert(injected(document, generators@, empty_image@, j + 1) is None);
                    lemma_injection_stays_refused(
                        document,
                        generators@,
                        empty_image@,
                        j + 1,
                        generators.len() as int,
                    );
                    assert(generators@[j as int] is DockerCompose);
                }
                return Err(error);
            },
        };
        proof {
            if any_configured(generators@, j + 1) && !(generators@[j as int] is DockerCompose) {
                let k = choose|k: int|
                    0 <= k < j + 1 && k < generators@.len() && (#[trigger] generators@[k])
                        is DockerCompose;
                assert(k < j);
                assert(any_configured(generators@, j as int));
            }
        }
        j += 1;
    }
    Ok(current)
}

/// Whether `error` is a failure that the extension stage can end in.
pub open spec fn extension_failure(error: PipelineError) -> bool {
    error is Import || error is ApplyModule || error is ConfigNotObject
}

/// The extension stage: folds the input modules and the generators' modules
/// over `config`, then injects the configuration of each generator that has
/// one, in the generators' order.
///
/// `final` is bound to the document this stage ends in and `prev` to the
/// document so far; the caller's other arguments stay as they are. Each
/// module is loaded and applied in turn, which is the evaluator's work, so
/// that with modules to fold the document is the evaluator's to decide.
/// With no input module and no generator there is nothing to fold, and the
/// document is `config` itself. The document that comes out is what
/// [`inject_all`] makes of the folded document.
#[verifier::loop_isolation(false)]
pub fn extension_stage(
    state: &State,
    config: Value,
    input_modules: &Vec<String>,
    generators: &Vec<Generator>,
    empty_image: &str,
    tla: &mut Arguments,
) -> (result: Result<Value, PipelineError>)
    ensures
        rebound(arguments_of(*old(tla)), arguments_of(*final(tla))),
        input_modules.len() == 0 && generators.len() == 0 ==> result == Ok::<Value, PipelineError>(
            config,
        ) && arguments_of(*final(tla))["prev"@] == strict_argument(config),
        result matches Ok(document) ==> exists|folded: Value|
            #[trigger] injected(folded, generators@, empty_image@, generators.len() as int) == Some(
                document,
            ),
        result matches Ok(document) ==> (any_configured(generators@, generators.len() as int)
            ==> has_output(document)),
        (result matches Err(PipelineError::ConfigNotObject)) ==> any_configured(
            generators@,
            generators.len() as int,
        ),
        result matches Err(error) ==> extension_failure(error),
{
    let ghost start = config;
    let ghost before = arguments_of(*tla);
    let libraries = extension_modules(input_modules, generators);
    let mut final_config = DeferredCell::new();
    let mut config = config;
    bind_final(tla, &final_config);
    bind_previous(tla, &config);
    assert(rebound(before, arguments_of(*tla)));

    let mut i: usize = 0;
    while i < libraries.len()
        invariant
            i <= libraries.len(),
            rebound(before, arguments_of(*tla)),
            i == 0 ==> config == start && arguments_of(*tla)["prev"@] == strict_argument(start),
        decreases libraries.len() - i,
    {
        let reference = input_module_ref(libraries[i].as_str());
        let module = load_module(state, &reference, libraries[i].as_str())?;
        bind_previous(tla, &config);
        assert(rebound(before, arguments_of(*tla)));
        config = match apply_tla_opt(state, tla, module) {
            Ok(config) => config,
            Err(cause) => {
                return Err(PipelineError::ApplyModule { module: libraries[i].clone(), cause });
            },
        };
        i += 1;
    }

    let ghost folded = config;
    let document = inject_all(config, generators, empty_image)?;
    assert(injected(folded, generators@, empty_image@, generators.len() as int) == Some(document));
    let filled = final_config.fill(document.duplicate());
    assert(filled is Ok);
    Ok(document)
}

/// The output object of a document, given what looking `_output` up in it
/// came to: the object that was found. Nothing found is a missing output
/// key, a value that is no object is refused, and a failed lookup is handed
/// on.
pub fn output_object(found: Result<Option<Value>, jrsonnet_evaluator::Error>) -> (result: Result<
    ObjValue,
    PipelineError,
>)
    ensures
        found matches Ok(Some(Value::Obj(output))) ==> result == Ok::<ObjValue, PipelineError>(
            output,
        ),
        found matches Ok(Some(other)) && !(other is Obj) ==> (result matches Err(
            PipelineError::OutputNotObject,
        )),
        found matches Ok(None) ==> (result matches Err(PipelineError::MissingOutputKey)),
        found matches Err(cause) ==> (result matches Err(PipelineError::Lookup { field, error })
            && field@ == "_output"@ && error == cause),
{
    match found {
        Ok(Some(Value::Obj(output))) => Ok(output),
        Ok(Some(_)) => Err(PipelineError::OutputNotObject),
        Ok(None) => Err(PipelineError::MissingOutputKey),
        Err(error) => Err(PipelineError::Lookup { field: String::from_str("_output"), error }),
    }
}

/// What a generator is to process, given what looking its attribute
/// `attribute` up in the output object came to: the value that was found.
/// Nothing found is a missing generator output that names the attribute,
/// and a failed lookup is handed on.
pub fn generator_output(found: Result<Option<Value>, jrsonnet_evaluator::Error>, attribute: String) -> (result:
    Result<Value, PipelineError>)
    ensures
        found matches Ok(Some(data)) ==> result == Ok::<Value, PipelineError>(data),
        found matches Ok(None) ==> (result matches Err(
            PipelineError::MissingGeneratorOutput { attribute: named },
        ) && named == attribute),
        found matches Err(cause) ==> (result matches Err(PipelineError::Lookup { field, error })
            && field == attribute && error == cause),
{
    match found {
        Ok(Some(data)) => Ok(data),
        Ok(None) => Err(PipelineError::MissingGeneratorOutput { attribute }),
        Err(error) => Err(PipelineError::Lookup { field: attribute, error }),
    }
}

/// Whether `outputs` holds, for each of `generators` and in their order,
/// what the output object `_output` of `document` holds under the
/// generator's attribute.
pub open spec fn extracted(document: ObjValue, generators: Seq<Generator>, outputs: Seq<Value>) -> bool {
    &&& object_field(document, "_output"@) is Obj
    &&& outputs.len() == generators.len()
    &&& forall|i: int|
        0 <= i < generators.len() ==> #[trigger] outputs[i] == object_field(
            object_field(document, "_output"@)->Obj_0,
            generators[i].attribute(),
        )
}

/// Whether `attribute` is the attribute of one of `generators`.
pub open spec fn is_attribute(generators: Seq<Generator>, attribute: Seq<char>) -> bool {
    exists|i: int| 0 <= i < generators.len() && (#[trigger] generators[i]).attribute() == attribute
}

/// Whether `error` is a failure that the extraction stage can end in for
/// `generators`. A missing output and a failed lookup name the attribute of
/// one of the generators, or the output object itself.
pub open spec fn extraction_failure(error: PipelineError, generators: Seq<Generator>) -> bool {
    match error {
        PipelineError::ConfigNotObject => true,
        PipelineError::MissingOutputKey => true,
        PipelineError::OutputNotObject => true,
        PipelineError::MissingGeneratorOutput { attribute } => is_attribute(generators, attribute@),
        PipelineError::Lookup { field, .. } => field@ == "_output"@ || is_attribute(
            generators,
            field@,
        ),
        _ => false,
    }
}

/// The extraction stage: what the document holds for each generator, in the
/// generators' order.
///
/// The document must be an object. Its field `_output` is looked up, and
/// [`output_object`] says what the lookup's outcome comes to. Each
/// generator's attribute is then looked up in the output object, in the
/// generators' order, and [`generator_output`] says what each outcome comes
/// to. The first failure ends the stage. What is handed out for a generator
/// is what the output object holds under its attribute, as [`extracted`]
/// says.
#[verifier::loop_isolation(false)]
pub fn extraction_stage(config: Value, generators: &Vec<Generator>) -> (result: Result<
    Vec<Value>,
    PipelineError,
>)
    ensures
        !(config is Obj) <==> (result matches Err(PipelineError::ConfigNotObject)),
        config matches Value::Obj(document) ==> {
            &&& !object_fields(document).contains("_output"@) ==> (result matches Err(
                error,
            ) && (error is MissingOutputKey || error is Lookup))
            &&& (result matches Err(PipelineError::MissingOutputKey)) ==> !object_fields(
                document,
            ).contains("_output"@)
            &&& (result matches Err(PipelineError::OutputNotObject)) ==> object_fields(
                document,
            ).contains("_output"@)
            &&& (result matches Err(PipelineError::MissingGeneratorOutput { .. }))
                ==> object_fields(document).contains("_output"@)
            &&& result is Ok ==> object_fields(document).contains("_output"@)
        },
        result matches Ok(outputs) ==> outputs.len() == generators.len(),
        result matches Ok(outputs) ==> (config matches Value::Obj(document) && extracted(
            document,
            generators@,
            outputs@,
        )),
        result matches Err(error) ==> extraction_failure(error, generators@),
{
    let document = match config {
        Value::Obj(document) => document,
        _ => {
            return Err(PipelineError::ConfigNotObject);
        },
    };
    let output = output_object(object_get(&document, "_output"))?;
    let mut outputs: Vec<Value> = Vec::new();
    let mut i: usize = 0;
    while i < generators.len()
        invariant
            i <= generators.len(),
            outputs.len() == i,
            object_field(document, "_output"@) == Value::Obj(output),
            forall|k: int|
                0 <= k < i ==> #[trigger] outputs[k] == object_field(
                    output,
                    generators[k].attribute(),
                ),
        decreases generators.len() - i,
    {
        let attribute = generators[i].output_attribute();
        let found = object_get(&output, attribute.as_str());
        let data = match generator_output(found, attribute) {
            Ok(data) => data,
            Err(error) => {
                assert(generators@[i as int].attribute() == attribute@);
                return Err(error);
            },
        };
        outputs.push(data);
        i += 1;
    }
    Ok(outputs)
}

/// Runs the three stages and returns what each generator is to process, in
/// the generators' order.
///
/// Arguments that bind `prev` or `final` and an empty list of modules are
/// refused before anything is imported. The stages then run one after the
/// other, as [`base_stage`], [`extension_stage`] and [`extraction_stage`]
/// say, and the first failure ends the run.
pub fn main_jrsonnet(
    state: &State,
    modules: &Vec<String>,
    input_modules: &Vec<String>,
    generators: &Vec<Generator>,
    empty_image: &str,
    tla: Arguments,
) -> (result: Result<Vec<Value>, PipelineError>)
    ensures
        reserved(arguments_of(tla)) <==> (result matches Err(PipelineError::ReservedArgument)),
        !reserved(arguments_of(tla)) && modules.len() == 0 <==> (result matches Err(
            PipelineError::NoModules,
        )),
        result matches Ok(outputs) ==> outputs.len() == generators.len(),
        result matches Ok(outputs) ==> exists|document: ObjValue| #[trigger]
            extracted(document, generators@, outputs@),
        result matches Err(error) ==> base_failure(error) || extension_failure(error)
            || extraction_failure(error, generators@),
{
    let mut tla = tla;
    let config = base_stage(state, modules, &mut tla)?;
    let config = extension_stage(state, config, input_modules, generators, empty_image, &mut tla)?;
    let ghost composed = config;
    let result = extraction_stage(config, generators);
    proof {
        if result is Ok {
            assert(extracted(composed->Obj_0, generators@, result->Ok_0@));
        }
    }
    result
}

} // verus!
