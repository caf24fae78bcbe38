use std::any::Any;
use std::collections::HashMap;
use std::path::Path;

use baedeker::generator::{Generator, GeneratorConfig};
use baedeker::pipeline::{
    base_modules, base_stage, binds_reserved, config_value, extension_modules, extension_stage,
    extraction_stage, generator_output, head_and_patches, inject_all, inject_config, inject_for,
    input_module_ref, main_jrsonnet, module_outcome, module_ref, output_object, read_items, split_first,
    ModuleRef, PipelineError, BASE_MODULE,
};
use baedeker::value::Value;
use jrsonnet_evaluator::function::TlaArg;
use jrsonnet_evaluator::gc::GcHashMap;
use jrsonnet_parser::{SourcePath, SourceVirtual};
use jrsonnet_evaluator::{ImportResolver, State};
use jrsonnet_interner::IStr;
use jrsonnet_gcmodule::Trace;

struct Modules {
    files: HashMap<String, String>,
}

impl Trace for Modules {}

impl ImportResolver for Modules {
    fn resolve_from(&self, _from: &SourcePath, path: &str) -> jrsonnet_evaluator::Result<SourcePath> {
        Ok(SourcePath::new(SourceVirtual(path.into())))
    }

    fn resolve(&self, path: &Path) -> jrsonnet_evaluator::Result<SourcePath> {
        Ok(SourcePath::new(SourceVirtual(path.to_str().expect("text").into())))
    }

    fn load_file_contents(&self, resolved: &SourcePath) -> jrsonnet_evaluator::Result<Vec<u8>> {
        let name = resolved.downcast_ref::<SourceVirtual>().expect("virtual").0.to_string();
        match self.files.get(&name) {
            Some(code) => Ok(code.as_bytes().to_vec()),
            None => Err(jrsonnet_evaluator::error::ErrorKind::RuntimeError(
                format!("no module {name}").into(),
            )
            .into()),
        }
    }

    fn as_any(&self) -> &dyn Any {
        self
    }
}

fn state_with(files: &[(&str, &str)]) -> State {
    let state = State::default();
    let mut map = HashMap::new();
    for (name, code) in files {
        map.insert(name.to_string(), code.to_string());
    }
    state.set_import_resolver(Modules { files: map });
    state
}

fn eval(state: &State, code: &str) -> Value {
    Value::from_val(state.evaluate_snippet("test", code).expect("snippet evaluates"))
}

fn text(value: Value) -> String {
    value.into_val().to_string().expect("value manifests").to_string()
}

fn no_args() -> GcHashMap<IStr, TlaArg> {
    GcHashMap::new()
}

const BASE_LIB: &str = "baedeker-library/inputs/base.libsonnet";
const DEBUG_LIB: &str = "baedeker-library/outputs/debug.libsonnet";
const COMPOSE_LIB: &str = "baedeker-library/outputs/compose.libsonnet";

#[test]
fn module_ref_reads_the_three_forms() {
    assert!(matches!(module_ref("lib:a/b.libsonnet"), ModuleRef::Library(n) if n == "a/b.libsonnet"));
    assert!(matches!(module_ref("snippet:{a: 1}"), ModuleRef::Snippet(c) if c == "{a: 1}"));
    assert!(matches!(module_ref("dir/spec.jsonnet"), ModuleRef::Path(p) if p == "dir/spec.jsonnet"));
    assert!(matches!(module_ref("lib:"), ModuleRef::Library(n) if n.is_empty()));
}

#[test]
fn input_module_ref_takes_no_snippet() {
    assert!(matches!(input_module_ref("lib:x"), ModuleRef::Library(n) if n == "x"));
    assert!(matches!(input_module_ref("snippet:{}"), ModuleRef::Path(p) if p == "snippet:{}"));
}

#[test]
fn base_modules_end_with_the_base_module() {
    let all = base_modules(&vec!["a.jsonnet".to_string(), "lib:b".to_string()]);
    assert_eq!(all, vec!["a.jsonnet".to_string(), "lib:b".to_string(), BASE_MODULE.to_string()]);
    assert_eq!(base_modules(&Vec::new()), vec![BASE_MODULE.to_string()]);
}

#[test]
fn extension_modules_follow_input_modules() {
    let generators = vec![Generator::Debug, Generator::AddressBook];
    let all = extension_modules(&vec!["in.jsonnet".to_string()], &generators);
    assert_eq!(
        all,
        vec![
            "in.jsonnet".to_string(),
            "lib:baedeker-library/outputs/debug.libsonnet".to_string(),
            "lib:baedeker-library/outputs/addressbook.libsonnet".to_string(),
        ]
    );
}

#[test]
fn reserved_names_are_detected() {
    let mut tla = no_args();
    assert!(!binds_reserved(&tla));
    tla.insert("zone".into(), TlaArg::String("n".into()));
    assert!(!binds_reserved(&tla));
    tla.insert("final".into(), TlaArg::String("f".into()));
    assert!(binds_reserved(&tla));
    let mut tla = no_args();
    tla.insert("prev".into(), TlaArg::String("p".into()));
    assert!(binds_reserved(&tla));
}

#[test]
fn base_stage_refuses_reserved_arguments() {
    let state = state_with(&[]);
    let mut tla = no_args();
    tla.insert("prev".into(), TlaArg::String("p".into()));
    let result = base_stage(&state, &vec!["base.jsonnet".to_string()], &mut tla);
    assert!(matches!(result, Err(PipelineError::ReservedArgument)));
}

#[test]
fn split_first_takes_head_and_patches() {
    let state = State::default();
    let (head, patches) = split_first(eval(&state, "[{ a: 1 }, 2, 3]")).unwrap();
    assert_eq!(text(head), r#"{"a": 1}"#);
    assert_eq!(patches.len(), 2);
    let (head, patches) = split_first(eval(&state, "{ b: 2 }")).unwrap();
    assert_eq!(text(head), r#"{"b": 2}"#);
    assert!(patches.is_empty());
    assert!(matches!(split_first(eval(&state, "[]")), Err(PipelineError::EmptyConfigArray)));
    assert!(matches!(
        split_first(eval(&state, "[1, error 'bad']")),
        Err(PipelineError::ConfigArrayItem { index: 1, .. })
    ));
}

#[test]
fn base_stage_folds_modules_with_prev() {
    let state = state_with(&[
        ("first.jsonnet", "[{ n: 1 }, function(prev) prev + { n: prev.n + 1 }]"),
        ("second.jsonnet", "function(prev, scale) prev + { n: prev.n * 10, scale: scale }"),
        (BASE_LIB, "function(prev, final) prev + { total: final.n }"),
    ]);
    let mut tla = no_args();
    tla.insert("scale".into(), TlaArg::String("x".into()));
    let modules = vec![
        "first.jsonnet".to_string(),
        "second.jsonnet".to_string(),
        "snippet:function(prev) prev + { snip: true }".to_string(),
    ];
    let config = base_stage(&state, &modules, &mut tla).unwrap();
    assert_eq!(text(config), r#"{"n": 20, "scale": "x", "snip": true, "total": 20}"#);
    assert!(binds_reserved(&tla));
}

#[test]
fn base_stage_reports_the_module_that_fails_to_import() {
    let state = state_with(&[("first.jsonnet", "{}")]);
    let mut tla = no_args();
    let result = base_stage(&state, &vec!["first.jsonnet".to_string()], &mut tla);
    match result {
        Err(PipelineError::Import { module, .. }) => assert_eq!(module, BASE_MODULE),
        other => panic!("unexpected {:?}", other.map(text)),
    }
    let result = base_stage(&state, &vec!["missing.jsonnet".to_string()], &mut no_args());
    assert!(matches!(result, Err(PipelineError::Import { module, .. }) if module == "missing.jsonnet"));
}

#[test]
fn base_stage_reports_the_array_item_that_fails() {
    let state = state_with(&[
        ("first.jsonnet", "[{}, function(prev) prev, function(missing) {}]"),
        (BASE_LIB, "function(prev) prev"),
    ]);
    let result = base_stage(&state, &vec!["first.jsonnet".to_string()], &mut no_args());
    assert!(matches!(result, Err(PipelineError::ApplyArrayItem { index: 2, .. })));
}

#[test]
fn inject_config_nests_hidden_config_under_attribute() {
    let state = State::default();
    let config = config_value(&GeneratorConfig {
        empty_image: "img".to_string(),
        output_root: "/out".to_string(),
    });
    let document = eval(&state, "{ keep: 1, _output:: { dockerCompose: { x: 1 } } }");
    let injected = inject_config(document, "dockerCompose", config).unwrap();
    let probe = match injected {
        Value::Obj(obj) => obj,
        other => panic!("unexpected {:?}", other),
    };
    assert!(probe.has_field_include_hidden("_output".into()));
    assert!(!probe.has_field("_output".into()));
    assert!(probe.has_field("keep".into()));
    let output = probe.get("_output".into()).unwrap().unwrap();
    let compose = output.as_obj().unwrap().get("dockerCompose".into()).unwrap().unwrap();
    let compose = compose.as_obj().unwrap();
    assert!(compose.has_field("x".into()));
    assert!(compose.has_field_include_hidden("_config".into()));
    assert!(!compose.has_field("_config".into()));
    let inner = compose.get("_config".into()).unwrap().unwrap();
    assert_eq!(inner.to_string().unwrap().to_string(), r#"{"emptyImage": "img", "outputRoot": "/out"}"#);
}

#[test]
fn inject_config_needs_an_object() {
    let result = inject_config(Value::Null, "debug", Value::Null);
    assert!(matches!(result, Err(PipelineError::ConfigNotObject)));
}

#[test]
fn extraction_requires_object_with_output() {
    let state = State::default();
    let generators = vec![Generator::Debug];
    assert!(matches!(
        extraction_stage(eval(&state, "3"), &generators),
        Err(PipelineError::ConfigNotObject)
    ));
    assert!(matches!(
        extraction_stage(eval(&state, "{ a: 1 }"), &generators),
        Err(PipelineError::MissingOutputKey)
    ));
    assert!(matches!(
        extraction_stage(eval(&state, "{ _output: 1 }"), &generators),
        Err(PipelineError::OutputNotObject)
    ));
    assert!(matches!(
        extraction_stage(eval(&state, "{ _output:: { other: 1 } }"), &generators),
        Err(PipelineError::MissingGeneratorOutput { attribute }) if attribute == "debug"
    ));
    assert!(matches!(
        extraction_stage(eval(&state, "{ _output:: { debug: error 'late' } }"), &generators),
        Err(PipelineError::Lookup { field, .. }) if field == "debug"
    ));
}

#[test]
fn extraction_hands_out_one_payload_per_generator() {
    let state = State::default();
    let generators = vec![Generator::AddressBook, Generator::Debug];
    let outputs = extraction_stage(
        eval(&state, "{ _output:: { debug: { d: 1 }, addressbook: 'book' } }"),
        &generators,
    )
    .unwrap();
    assert_eq!(outputs.len(), 2);
    let mut outputs = outputs.into_iter();
    assert!(matches!(outputs.next(), Some(Value::Str(s)) if s == "book"));
    assert_eq!(text(outputs.next().unwrap()), r#"{"d": 1}"#);
    assert!(extraction_stage(eval(&state, "{ _output:: {} }"), &Vec::new()).unwrap().is_empty());
}

#[test]
fn extension_stage_injects_compose_config() {
    let state = state_with(&[(
        COMPOSE_LIB,
        "function(prev) prev + { _output+:: { dockerCompose+: { root: self._config.outputRoot } } }",
    )]);
    let generators = vec![Generator::DockerCompose("/work/out".to_string())];
    let mut tla = no_args();
    let config = extension_stage(&state, eval(&state, "{ a: 1 }"), &Vec::new(), &generators, "img", &mut tla)
        .unwrap();
    let outputs = extraction_stage(config, &generators).unwrap();
    assert_eq!(text(outputs.into_iter().next().unwrap()), r#"{"root": "/work/out"}"#);
}

#[test]
fn single_module_and_debug_generator_end_to_end() {
    let state = state_with(&[
        ("net.jsonnet", "{}"),
        (BASE_LIB, "function(prev) prev + { name: 'net' }"),
        (DEBUG_LIB, "function(prev, final) prev + { _output+:: { debug: final } }"),
    ]);
    let generators = vec![Generator::Debug];
    let outputs = main_jrsonnet(
        &state,
        &vec!["net.jsonnet".to_string()],
        &Vec::new(),
        &generators,
        "img",
        no_args(),
    )
    .unwrap();
    assert_eq!(outputs.len(), 1);
    assert_eq!(text(outputs.into_iter().next().unwrap()), r#"{"name": "net"}"#);
}

#[test]
fn missing_generator_library_output_ends_the_run() {
    let state = state_with(&[
        ("net.jsonnet", "{}"),
        (BASE_LIB, "function(prev) prev"),
        (DEBUG_LIB, "function(prev) prev"),
    ]);
    let result = main_jrsonnet(
        &state,
        &vec!["net.jsonnet".to_string()],
        &Vec::new(),
        &vec![Generator::Debug],
        "img",
        no_args(),
    );
    assert!(matches!(result, Err(PipelineError::MissingOutputKey)));
}

#[test]
fn extension_stage_without_modules_returns_the_document() {
    let state = State::default();
    let mut tla = no_args();
    tla.insert("zone".into(), TlaArg::String("north".into()));
    let config =
        extension_stage(&state, eval(&state, "{ a: 1 }"), &Vec::new(), &Vec::new(), "img", &mut tla).unwrap();
    assert_eq!(text(config), r#"{"a": 1}"#);
    assert_eq!(tla.len(), 3);
    assert!(matches!(tla.get(&IStr::from("zone")), Some(TlaArg::String(s)) if s.as_str() == "north"));
    assert!(matches!(tla.get(&IStr::from("final")), Some(TlaArg::Lazy(_))));
    match tla.get(&IStr::from("prev")) {
        Some(TlaArg::Val(prev)) => assert_eq!(prev.to_string().unwrap().to_string(), r#"{"a": 1}"#),
        _ => panic!("prev is bound to the document"),
    }
}

#[test]
fn extension_stage_binds_its_names_even_where_it_fails() {
    let state = state_with(&[]);
    let mut tla = no_args();
    let result = extension_stage(
        &state,
        eval(&state, "{}"),
        &vec!["missing.jsonnet".to_string()],
        &Vec::new(),
        "img",
        &mut tla,
    );
    assert!(matches!(result, Err(PipelineError::Import { module, .. }) if module == "missing.jsonnet"));
    assert!(binds_reserved(&tla));
    assert_eq!(tla.len(), 2);
}

#[test]
fn extension_stage_needs_an_object_to_inject_into() {
    let state = state_with(&[(COMPOSE_LIB, "function(prev) 7")]);
    let generators = vec![Generator::DockerCompose("/out".to_string())];
    let result = extension_stage(&state, eval(&state, "{}"), &Vec::new(), &generators, "img", &mut no_args());
    assert!(matches!(result, Err(PipelineError::ConfigNotObject)));
}

#[test]
fn extension_stage_reports_the_module_whose_application_fails() {
    let state = state_with(&[("in.jsonnet", "function(missing) {}")]);
    let result = extension_stage(
        &state,
        eval(&state, "{}"),
        &vec!["in.jsonnet".to_string()],
        &Vec::new(),
        "img",
        &mut no_args(),
    );
    assert!(matches!(result, Err(PipelineError::ApplyModule { module, .. }) if module == "in.jsonnet"));
}

#[test]
fn module_outcome_names_the_module_that_failed() {
    let state = State::default();
    assert!(matches!(module_outcome(Ok(Value::Bool(true)), "lib:a"), Ok(Value::Bool(true))));
    let error = state.evaluate_snippet("test", "error 'boom'").unwrap_err();
    match module_outcome(Err(error), "lib:a") {
        Err(PipelineError::Import { module, error }) => {
            assert_eq!(module, "lib:a");
            assert!(format!("{error}").contains("boom"));
        }
        other => panic!("unexpected {:?}", other.map(text)),
    }
}

#[test]
fn empty_module_list_is_refused_before_any_import() {
    let state = state_with(&[(BASE_LIB, "function(prev) prev")]);
    let mut tla = no_args();
    tla.insert("zone".into(), TlaArg::String("n".into()));
    assert!(matches!(base_stage(&state, &Vec::new(), &mut tla), Err(PipelineError::NoModules)));
    assert_eq!(tla.len(), 1);
    let result = main_jrsonnet(&state, &Vec::new(), &Vec::new(), &vec![Generator::Debug], "img", no_args());
    assert!(matches!(result, Err(PipelineError::NoModules)));
    let mut reserved = no_args();
    reserved.insert("final".into(), TlaArg::String("f".into()));
    let result = main_jrsonnet(&state, &Vec::new(), &Vec::new(), &Vec::new(), "img", reserved);
    assert!(matches!(result, Err(PipelineError::ReservedArgument)));
}

#[test]
fn base_stage_keeps_the_callers_arguments() {
    let state = state_with(&[("first.jsonnet", "{ a: 1 }"), (BASE_LIB, "function(prev) prev")]);
    let mut tla = no_args();
    tla.insert("zone".into(), TlaArg::String("north".into()));
    base_stage(&state, &vec!["first.jsonnet".to_string()], &mut tla).unwrap();
    assert_eq!(tla.len(), 3);
    assert!(matches!(tla.get(&IStr::from("zone")), Some(TlaArg::String(s)) if s.as_str() == "north"));
    assert!(matches!(tla.get(&IStr::from("final")), Some(TlaArg::Lazy(_))));
    assert!(matches!(tla.get(&IStr::from("prev")), Some(TlaArg::Val(_))));
}

#[test]
fn items_are_read_in_order_and_split_into_head_and_patches() {
    let state = State::default();
    let arr = match eval(&state, "[10, 20, 30]") {
        Value::Arr(arr) => arr,
        other => panic!("unexpected {:?}", other),
    };
    let items = read_items(&arr).unwrap();
    assert_eq!(items.len(), 3);
    let (head, patches) = head_and_patches(items).unwrap();
    assert_eq!(text(head), "10");
    let patches: Vec<String> = patches.into_iter().map(text).collect();
    assert_eq!(patches, vec!["20".to_string(), "30".to_string()]);
    assert!(matches!(head_and_patches(Vec::new()), Err(PipelineError::EmptyConfigArray)));
    let failing = match eval(&state, "[1, 2, error 'bad']") {
        Value::Arr(arr) => arr,
        other => panic!("unexpected {:?}", other),
    };
    assert!(matches!(read_items(&failing), Err(PipelineError::ConfigArrayItem { index: 2, .. })));
}

#[test]
fn output_object_says_what_the_lookup_came_to() {
    let state = State::default();
    assert!(matches!(output_object(Ok(None)), Err(PipelineError::MissingOutputKey)));
    assert!(matches!(output_object(Ok(Some(Value::Bool(true)))), Err(PipelineError::OutputNotObject)));
    let found = output_object(Ok(Some(eval(&state, "{ debug: 1 }")))).unwrap();
    assert_eq!(text(Value::Obj(found)), r#"{"debug": 1}"#);
    let error = state.evaluate_snippet("test", "error 'boom'").unwrap_err();
    assert!(matches!(
        output_object(Err(error)),
        Err(PipelineError::Lookup { field, error }) if field == "_output" && format!("{error}").contains("boom")
    ));
}

#[test]
fn generator_output_says_what_the_lookup_came_to() {
    let state = State::default();
    assert!(matches!(
        generator_output(Ok(Some(Value::Str("book".to_string()))), "addressbook".to_string()),
        Ok(Value::Str(s)) if s == "book"
    ));
    assert!(matches!(
        generator_output(Ok(None), "debug".to_string()),
        Err(PipelineError::MissingGeneratorOutput { attribute }) if attribute == "debug"
    ));
    let error = state.evaluate_snippet("test", "error 'boom'").unwrap_err();
    assert!(matches!(
        generator_output(Err(error), "debug".to_string()),
        Err(PipelineError::Lookup { field, .. }) if field == "debug"
    ));
}

#[test]
fn missing_entry_of_second_generator_names_its_attribute() {
    let state = State::default();
    let generators = vec![Generator::Debug, Generator::AddressBook];
    let result = extraction_stage(eval(&state, "{ _output:: { debug: 1 } }"), &generators);
    assert!(matches!(
        result,
        Err(PipelineError::MissingGeneratorOutput { attribute }) if attribute == "addressbook"
    ));
}

#[test]
fn inject_for_injects_only_what_a_generator_hands_over() {
    let state = State::default();
    let same = inject_for(Value::Bool(true), &Generator::Debug, "img").unwrap();
    assert!(matches!(same, Value::Bool(true)));
    let result = inject_for(Value::Bool(true), &Generator::DockerCompose("/out".to_string()), "img");
    assert!(matches!(result, Err(PipelineError::ConfigNotObject)));
    let injected =
        inject_for(eval(&state, "{ a: 1 }"), &Generator::DockerCompose("/out".to_string()), "img").unwrap();
    let probe = injected.into_val();
    let probe = probe.as_obj().unwrap();
    let output = probe.get("_output".into()).unwrap().unwrap();
    let compose = output.as_obj().unwrap().get("dockerCompose".into()).unwrap().unwrap();
    let config = compose.as_obj().unwrap().get("_config".into()).unwrap().unwrap();
    assert_eq!(config.to_string().unwrap().to_string(), r#"{"emptyImage": "img", "outputRoot": "/out"}"#);
}

#[test]
fn inject_all_injects_each_configured_generator_in_order() {
    let state = State::default();
    let generators = vec![
        Generator::Debug,
        Generator::DockerCompose("/first".to_string()),
        Generator::AddressBook,
        Generator::DockerCompose("/second".to_string()),
    ];
    let document = eval(&state, "{ keep: 1, _output:: { debug: 'd', dockerCompose: { roots: [] } } }");
    let injected = inject_all(document, &generators, "img").unwrap().into_val();
    let probe = injected.as_obj().unwrap();
    assert_eq!(injected.to_string().unwrap().to_string(), r#"{"keep": 1}"#);
    let output = probe.get("_output".into()).unwrap().unwrap();
    let output = output.as_obj().unwrap();
    assert_eq!(output.get("debug".into()).unwrap().unwrap().to_string().unwrap().to_string(), "d");
    let compose = output.get("dockerCompose".into()).unwrap().unwrap();
    let config = compose.as_obj().unwrap().get("_config".into()).unwrap().unwrap();
    assert_eq!(config.to_string().unwrap().to_string(), r#"{"emptyImage": "img", "outputRoot": "/second"}"#);
    assert!(compose.as_obj().unwrap().has_field("roots".into()));
    let same = inject_all(Value::Bool(false), &vec![Generator::Debug, Generator::AddressBook], "img").unwrap();
    assert!(matches!(same, Value::Bool(false)));
    assert!(matches!(inject_all(Value::Null, &generators, "img"), Err(PipelineError::ConfigNotObject)));
}

#[test]
fn first_module_array_gives_head_and_patches_in_order() {
    let state = state_with(&[
        ("first.jsonnet", "[{ trail: ['head'] }, function(prev) prev + { trail+: ['one'] }, function(prev) prev + { trail+: ['two'] }]"),
        (BASE_LIB, "function(prev) prev + { trail+: ['base'] }"),
    ]);
    let config = base_stage(&state, &vec!["first.jsonnet".to_string()], &mut no_args()).unwrap();
    assert_eq!(text(config), r#"{"trail": ["head", "one", "two", "base"]}"#);
}

#[test]
fn each_generator_is_handed_what_stands_under_its_attribute() {
    let state = State::default();
    let generators = vec![Generator::Debug, Generator::AddressBook, Generator::Debug];
    let outputs = extraction_stage(
        eval(&state, "{ _output:: { addressbook: 'book', debug: { d: 1 }, other: 0 } }"),
        &generators,
    )
    .unwrap();
    let outputs: Vec<String> = outputs.into_iter().map(text).collect();
    assert_eq!(outputs, vec![r#"{"d": 1}"#.to_string(), "book".to_string(), r#"{"d": 1}"#.to_string()]);
}
