//! The commands that build chain specifications.
//!
//! A chain specification is built by the node binary itself, run in a
//! container. This module says with which arguments; running the command is
//! the caller's work.

use vstd::prelude::*;
use vstd::string::*;
use jrsonnet_evaluator::function::FuncVal;
use crate::text::{join_text, contains_char, str_eq};
use crate::value::Value;

verus! {

/// Where a node binary is found: on the host, in an image, or both.
#[derive(Debug, Clone)]
pub struct FileLocation {
    local: Option<String>,
    docker_image: Option<String>,
    docker: Option<String>,
}

/// Builds specifications with the container runtime.
#[derive(Debug, Clone, Copy)]
pub struct DockerSpecBuilder;

/// How specifications are built.
#[derive(Debug, Clone)]
pub enum SpecBackend {
    /// With the container runtime.
    Docker(DockerSpecBuilder),
    /// Not at all: every use fails.
    Unset,
}

/// Why no command could be given, or no source read.
#[derive(Debug)]
pub enum SpecError {
    /// Neither an image nor a binary of the host is named.
    BinaryNotSet,
    /// A parameter is missing or wrong.
    InvalidParameter(&'static str),
    /// A specification source is no object with exactly one field.
    NotAnEnum,
    /// A specification source names no kind of source.
    UnknownEnumValue(String),
}

/// The kinds of specification sources.
#[derive(Debug, Clone, Copy, PartialEq, Eq)]
pub enum SpecKind {
    Genesis,
    Raw,
    FromScratchGenesis,
}

/// A specification that the binary builds from one of its chains.
#[derive(Debug)]
pub struct GenesisSpecSource {
    /// The chain, or the binary's default.
    pub chain: Option<String>,
    /// Applied to the genesis specification.
    pub modify: Option<FuncVal>,
    /// The beginning of the name of the specification's file.
    pub spec_file_prefix: Option<String>,
    /// Applied to the raw specification.
    pub modify_raw: Option<FuncVal>,
}

/// A raw specification that is there already.
#[derive(Debug)]
pub struct RawSpecSource {
    pub raw_spec: Value,
    /// Applied to the raw specification.
    pub modify_raw: Option<FuncVal>,
}

/// A genesis specification that is there already.
#[derive(Debug)]
pub struct FromScratchGenesisSpecSource {
    pub spec: Value,
    /// Applied to the genesis specification.
    pub modify: Option<FuncVal>,
    /// The beginning of the name of the specification's file.
    pub spec_file_prefix: Option<String>,
    /// Applied to the raw specification.
    pub modify_raw: Option<FuncVal>,
}

/// Where a raw specification comes from.
#[derive(Debug)]
pub enum SpecSource {
    Genesis(GenesisSpecSource),
    Raw(RawSpecSource),
    FromScratchGenesis(FromScratchGenesisSpecSource),
}

/// One step on the way to a raw specification. Each step takes the
/// specification that the step before left and leaves the next one.
#[derive(Debug)]
pub enum SpecStep {
    /// Let the binary build the genesis specification of `chain`.
    BuildGenesis { chain: Option<String> },
    /// Call the function on the genesis specification.
    Modify(FuncVal),
    /// Let the binary build the raw specification.
    BuildRaw { spec_file_prefix: Option<String> },
    /// Call the function on the raw specification.
    ModifyRaw(FuncVal),
}

/// The steps that lead to a raw specification, and the specification to
/// start from where the source brings one.
#[derive(Debug)]
pub struct SpecPlan {
    pub start: Option<Value>,
    pub steps: Vec<SpecStep>,
}

/// The step that applies `modify`, if there is one.
pub open spec fn modify_step(modify: Option<FuncVal>) -> Seq<SpecStep> {
    match modify {
        Some(func) => seq![SpecStep::Modify(func)],
        None => Seq::empty(),
    }
}

/// The step that applies `modify_raw`, if there is one.
pub open spec fn modify_raw_step(modify_raw: Option<FuncVal>) -> Seq<SpecStep> {
    match modify_raw {
        Some(func) => seq![SpecStep::ModifyRaw(func)],
        None => Seq::empty(),
    }
}

/// The steps for `source`.
pub open spec fn steps_of(source: SpecSource) -> Seq<SpecStep> {
    match source {
        SpecSource::Genesis(g) => seq![SpecStep::BuildGenesis { chain: g.chain }] + modify_step(
            g.modify,
        ) + seq![SpecStep::BuildRaw { spec_file_prefix: g.spec_file_prefix }] + modify_raw_step(
            g.modify_raw,
        ),
        SpecSource::Raw(r) => modify_raw_step(r.modify_raw),
        SpecSource::FromScratchGenesis(f) => modify_step(f.modify) + seq![
            SpecStep::BuildRaw { spec_file_prefix: f.spec_file_prefix },
        ] + modify_raw_step(f.modify_raw),
    }
}

/// The specification that `source` starts from.
pub open spec fn start_of(source: SpecSource) -> Option<Value> {
    match source {
        SpecSource::Genesis(_) => None,
        SpecSource::Raw(r) => Some(r.raw_spec),
        SpecSource::FromScratchGenesis(f) => Some(f.spec),
    }
}

/// The kind of source that an object with the fields `fields` is. It must
/// have exactly one field, named after the kind.
pub fn spec_kind(fields: &Vec<String>) -> (result: Result<SpecKind, SpecError>)
    ensures
        fields.len() != 1 ==> (result matches Err(SpecError::NotAnEnum)),
        fields.len() == 1 ==> {
            &&& fields[0]@ == "Genesis"@ ==> (result matches Ok(SpecKind::Genesis))
            &&& fields[0]@ == "Raw"@ ==> (result matches Ok(SpecKind::Raw))
            &&& fields[0]@ == "FromScratchGenesis"@ ==> (result matches Ok(
                SpecKind::FromScratchGenesis,
            ))
            &&& fields[0]@ != "Genesis"@ && fields[0]@ != "Raw"@ && fields[0]@
                != "FromScratchGenesis"@ ==> (result matches Err(SpecError::UnknownEnumValue(name))
                && name@ == fields[0]@)
        },
{
    if fields.len() != 1 {
        return Err(SpecError::NotAnEnum);
    }
    proof {
        reveal_strlit("Genesis");
        reveal_strlit("Raw");
        reveal_strlit("FromScratchGenesis");
        assert("Genesis"@.len() == 7);
        assert("Raw"@.len() == 3);
        assert("FromScratchGenesis"@.len() == 18);
    }
    let name = fields[0].as_str();
    if str_eq(name, "Genesis") {
        Ok(SpecKind::Genesis)
    } else if str_eq(name, "Raw") {
        Ok(SpecKind::Raw)
    } else if str_eq(name, "FromScratchGenesis") {
        Ok(SpecKind::FromScratchGenesis)
    } else {
        Err(SpecError::UnknownEnumValue(String::from_str(name)))
    }
}

/// Says how to get from `source` to a raw specification: which steps to
/// take, in order, and what to start from.
pub fn process_plan(source: SpecSource) -> (plan: SpecPlan)
    ensures
        plan.start == start_of(source),
        plan.steps@ == steps_of(source),
{
    let mut steps: Vec<SpecStep> = Vec::new();
    match source {
        SpecSource::Genesis(g) => {
            steps.push(SpecStep::BuildGenesis { chain: g.chain });
            if let Some(func) = g.modify {
                steps.push(SpecStep::Modify(func));
            }
            steps.push(SpecStep::BuildRaw { spec_file_prefix: g.spec_file_prefix });
            if let Some(func) = g.modify_raw {
                steps.push(SpecStep::ModifyRaw(func));
            }
            assert(steps@ =~= steps_of(source));
            SpecPlan { start: None, steps }
        },
        SpecSource::Raw(r) => {
            if let Some(func) = r.modify_raw {
                steps.push(SpecStep::ModifyRaw(func));
            }
            assert(steps@ =~= steps_of(source));
            SpecPlan { start: Some(r.raw_spec), steps }
        },
        SpecSource::FromScratchGenesis(f) => {
            if let Some(func) = f.modify {
                steps.push(SpecStep::Modify(func));
            }
            steps.push(SpecStep::BuildRaw { spec_file_prefix: f.spec_file_prefix });
            if let Some(func) = f.modify_raw {
                steps.push(SpecStep::ModifyRaw(func));
            }
            assert(steps@ =~= steps_of(source));
            SpecPlan { start: Some(f.spec), steps }
        },
    }
}

impl FileLocation {
    /// The binary on the host, if one is named.
    pub closed spec fn local_path(&self) -> Option<Seq<char>> {
        match self.local {
            Some(path) => Some(path@),
            None => None,
        }
    }

    /// The image, if one is named.
    pub closed spec fn image(&self) -> Option<Seq<char>> {
        match self.docker_image {
            Some(image) => Some(image@),
            None => None,
        }
    }

    /// The binary inside the image, if one is named.
    pub closed spec fn entrypoint(&self) -> Option<Seq<char>> {
        match self.docker {
            Some(path) => Some(path@),
            None => None,
        }
    }

    /// A binary of the host.
    pub fn from_local(path: String) -> (location: FileLocation)
        ensures
            location.local_path() == Some(path@),
            location.image() is None,
            location.entrypoint() is None,
    {
        FileLocation { local: Some(path), docker_image: None, docker: None }
    }

    /// A binary in the image `docker_image`: the image's own entry point, or
    /// the one at `docker`. `local` names the same binary on the host.
    pub fn from_image(local: Option<String>, docker: Option<String>, docker_image: String) -> (location:
        FileLocation)
        ensures
            location.local_path() == local.deep_view(),
            location.image() == Some(docker_image@),
            location.entrypoint() == docker.deep_view(),
    {
        FileLocation { local, docker_image: Some(docker_image), docker }
    }

    /// The binary on the host, if one is named.
    pub fn local(&self) -> (path: &Option<String>)
        ensures
            path.deep_view() == self.local_path(),
    {
        &self.local
    }

    /// The image, if one is named.
    pub fn docker_image(&self) -> (image: &Option<String>)
        ensures
            image.deep_view() == self.image(),
    {
        &self.docker_image
    }

    /// The binary inside the image, if one is named.
    pub fn docker(&self) -> (path: &Option<String>)
        ensures
            path.deep_view() == self.entrypoint(),
    {
        &self.docker
    }

    /// Whether the command mounts the directories of the host: it does where
    /// no image is named.
    pub fn needs_host_mounts(&self) -> (needed: bool)
        ensures
            needed == (self.image() is None),
    {
        self.docker_image.is_none()
    }
}

/// Whether the directory `name` of the host's root is left out of the
/// mounts.
pub open spec fn not_mounted(name: Seq<char>) -> bool {
    name == "proc"@ || name == "sys"@ || name == "dev"@ || name == "tmp"@ || name == "run"@ || name
        == "var"@
}

/// The directories to mount among the first `upto` of `names`.
pub open spec fn mounts_among(names: Seq<Seq<char>>, upto: int) -> Seq<Seq<char>>
    decreases upto,
{
    if upto <= 0 || upto > names.len() {
        Seq::empty()
    } else if not_mounted(names[upto - 1]) {
        mounts_among(names, upto - 1)
    } else {
        mounts_among(names, upto - 1).push(names[upto - 1])
    }
}

/// Adds `text` at the end of `list`.
fn push_text(list: &mut Vec<String>, text: &str)
    ensures
        final(list).deep_view() == old(list).deep_view().push(text@),
{
    let ghost before = list.deep_view();
    list.push(String::from_str(text));
    assert(list.deep_view() =~= before.push(text@));
}

/// The directories of the host's root to mount into the container, among
/// the directories `names` found there: all but those that belong to the
/// running system.
pub fn docker_mounts(names: &Vec<String>) -> (mounts: Vec<String>)
    ensures
        mounts.deep_view() == mounts_among(names.deep_view(), names.len() as int),
{
    let mut mounts: Vec<String> = Vec::new();
    let mut i: usize = 0;
    while i < names.len()
        invariant
            i <= names.len(),
            mounts.deep_view() == mounts_among(names.deep_view(), i as int),
        decreases names.len() - i,
    {
        assert(names.deep_view()[i as int] == names[i as int]@);
        let name = names[i].as_str();
        let left_out = str_eq(name, "proc") || str_eq(name, "sys") || str_eq(name, "dev") || str_eq(
            name,
            "tmp",
        ) || str_eq(name, "run") || str_eq(name, "var");
        if !left_out {
            push_text(&mut mounts, name);
        }
        i += 1;
    }
    mounts
}

/// The beginning of every command: the time limit, the runtime, and the
/// variables that the binary runs with.
pub open spec fn command_head() -> Seq<Seq<char>> {
    seq![
        "timeout"@,
        "-s"@,
        "INT"@,
        "25"@,
        "docker"@,
        "run"@,
        "--rm"@,
        "-e"@,
        "RUST_LOG=debug,wasmtime_cranelift=info"@,
        "-e"@,
        "RUST_BACKTRACE=full"@,
        "-e"@,
        "COLORBT_SHOW_HIDDEN=1"@,
    ]
}

/// The argument that binds the directory `name` of the host's root into the
/// container, read-only.
pub open spec fn host_mount(name: Seq<char>) -> Seq<char> {
    "type=bind,source=/"@ + name + ",target=/"@ + name + ",readonly"@
}

/// The arguments that mount the first `upto` of `mounts`.
pub open spec fn mount_args(mounts: Seq<Seq<char>>, upto: int) -> Seq<Seq<char>>
    decreases upto,
{
    if upto <= 0 || upto > mounts.len() {
        Seq::empty()
    } else {
        mount_args(mounts, upto - 1).push("--mount"@).push(host_mount(mounts[upto - 1]))
    }
}

/// The command that runs the binary at `bin`, up to the binary's own
/// arguments, where one can be given.
pub open spec fn base_command_of(
    bin: FileLocation,
    extra: Seq<Seq<char>>,
    mounts: Seq<Seq<char>>,
    empty_image: Seq<char>,
) -> Option<Seq<Seq<char>>> {
    match bin.image() {
        Some(image) => {
            let pull = if image.contains('@') {
                seq!["--pull"@, "missing"@]
            } else {
                seq!["--pull"@, "never"@]
            };
            let entry = match bin.entrypoint() {
                Some(path) => seq!["--entrypoint"@, path],
                None => Seq::empty(),
            };
            Some(command_head() + pull + extra + entry + seq![image])
        },
        None => match bin.local_path() {
            Some(path) => Some(
                command_head() + seq!["--pull"@, "missing"@] + mount_args(mounts, mounts.len() as int)
                    + extra + seq![empty_image, path],
            ),
            None => None,
        },
    }
}

/// Adds the texts of `more` at the end of `list`.
fn push_all(list: &mut Vec<String>, more: &Vec<String>)
    ensures
        final(list).deep_view() == old(list).deep_view() + more.deep_view(),
{
    let mut i: usize = 0;
    while i < more.len()
        invariant
            i <= more.len(),
            list.deep_view() == old(list).deep_view() + more.deep_view().take(i as int),
        decreases more.len() - i,
    {
        assert(more.deep_view()[i as int] == more[i as int]@);
        let ghost before = list.deep_view();
        list.push(more[i].clone());
        assert(list.deep_view() =~= before.push(more[i as int]@));
        assert(more.deep_view().take(i + 1) =~= more.deep_view().take(i as int).push(more[i as int]@));
        i += 1;
    }
    assert(more.deep_view().take(more.len() as int) =~= more.deep_view());
}

impl DockerSpecBuilder {
    /// The command that runs the binary at `bin`, up to the binary's own
    /// arguments.
    ///
    /// With an image, the container runs the image; an image named by digest
    /// may be pulled, any other must be there. Without one, the container
    /// runs the image `empty_image` with the host's directories `mounts`
    /// bound into it, and in it the binary of the host. `extra` stands
    /// before the image. Where neither an image nor a binary of the host is
    /// named there is no command.
    pub fn base_command(
        bin: &FileLocation,
        extra: &Vec<String>,
        mounts: &Vec<String>,
        empty_image: &str,
    ) -> (result: Result<Vec<String>, SpecError>)
        ensures
            base_command_of(*bin, extra.deep_view(), mounts.deep_view(), empty_image@) matches Some(
                command,
            ) ==> (result matches Ok(args) && args.deep_view() == command),
            base_command_of(*bin, extra.deep_view(), mounts.deep_view(), empty_image@) is None ==> (
            result matches Err(SpecError::BinaryNotSet)),
    {
        let mut command: Vec<String> = Vec::new();
        push_text(&mut command, "timeout");
        push_text(&mut command, "-s");
        push_text(&mut command, "INT");
        push_text(&mut command, "25");
        push_text(&mut command, "docker");
        push_text(&mut command, "run");
        push_text(&mut command, "--rm");
        push_text(&mut command, "-e");
        push_text(&mut command, "RUST_LOG=debug,wasmtime_cranelift=info");
        push_text(&mut command, "-e");
        push_text(&mut command, "RUST_BACKTRACE=full");
        push_text(&mut command, "-e");
        push_text(&mut command, "COLORBT_SHOW_HIDDEN=1");
        assert(command.deep_view() =~= command_head());
        match &bin.docker_image {
            Some(image) => {
                push_text(&mut command, "--pull");
                if contains_char(image.as_str(), '@') {
                    push_text(&mut command, "missing");
                } else {
                    push_text(&mut command, "never");
                }
                push_all(&mut command, extra);
                match &bin.docker {
                    Some(path) => {
                        push_text(&mut command, "--entrypoint");
                        push_text(&mut command, path.as_str());
                    },
                    None => {},
                }
                push_text(&mut command, image.as_str());
                assert(command.deep_view() =~= base_command_of(
                    *bin,
                    extra.deep_view(),
                    mounts.deep_view(),
                    empty_image@,
                )->Some_0);
                Ok(command)
            },
            None => {
                push_text(&mut command, "--pull");
                push_text(&mut command, "missing");
                let ghost head = command.deep_view();
                let mut i: usize = 0;
                while i < mounts.len()
                    invariant
                        i <= mounts.len(),
                        command.deep_view() == head + mount_args(mounts.deep_view(), i as int),
                    decreases mounts.len() - i,
                {
                    assert(mounts.deep_view()[i as int] == mounts[i as int]@);
                    push_text(&mut command, "--mount");
                    let mut mount = join_text("type=bind,source=/", mounts[i].as_str());
                    mount.append(",target=/");
                    mount.append(mounts[i].as_str());
                    mount.append(",readonly");
                    let ghost before = command.deep_view();
                    command.push(mount);
                    assert(command.deep_view() =~= before.push(host_mount(mounts[i as int]@)));
                    assert(command.deep_view() =~= head + mount_args(mounts.deep_view(), i + 1));
                    i += 1;
                }
                push_all(&mut command, extra);
                push_text(&mut command, empty_image);
                match &bin.local {
                    Some(path) => {
                        push_text(&mut command, path.as_str());
                        assert(command.deep_view() =~= base_command_of(
                            *bin,
                            extra.deep_view(),
                            mounts.deep_view(),
                            empty_image@,
                        )->Some_0);
                        Ok(command)
                    },
                    None => Err(SpecError::BinaryNotSet),
                }
            },
        }
    }

    /// The command that builds the genesis specification of `chain`, or of
    /// the binary's default chain.
    pub fn build_genesis(
        &self,
        bin: &FileLocation,
        chain: &Option<String>,
        mounts: &Vec<String>,
        empty_image: &str,
    ) -> (result: Result<Vec<String>, SpecError>)
        ensures
            base_command_of(*bin, Seq::empty(), mounts.deep_view(), empty_image@) matches Some(base)
                ==> (result matches Ok(args) && args.deep_view() == base + seq![
                "build-spec"@,
                "--base-path"@,
                "/tmp/node"@,
            ] + match chain {
                Some(name) => seq!["--chain"@, name@],
                None => Seq::empty(),
            }),
            base_command_of(*bin, Seq::empty(), mounts.deep_view(), empty_image@) is None ==> (
            result matches Err(SpecError::BinaryNotSet)),
    {
        let extra: Vec<String> = Vec::new();
        assert(extra.deep_view() =~= Seq::<Seq<char>>::empty());
        let mut command = Self::base_command(bin, &extra, mounts, empty_image)?;
        let ghost base = command.deep_view();
        push_text(&mut command, "build-spec");
        push_text(&mut command, "--base-path");
        push_text(&mut command, "/tmp/node");
        match chain {
            Some(name) => {
                push_text(&mut command, "--chain");
                push_text(&mut command, name.as_str());
                assert(command.deep_view() =~= base + seq!["build-spec"@, "--base-path"@, "/tmp/node"@]
                    + seq!["--chain"@, name@]);
            },
            None => {
                assert(command.deep_view() =~= base + seq!["build-spec"@, "--base-path"@, "/tmp/node"@]
                    + Seq::<Seq<char>>::empty());
            },
        }
        Ok(command)
    }

    /// The argument that binds the specification file at `spec_path` into the
    /// container, read-only.
    pub open spec fn spec_mount(spec_path: Seq<char>) -> Seq<char> {
        "type=bind,source="@ + spec_path + ",target=/tmp/spec.json,readonly"@
    }

    /// The command that builds the raw specification from the specification
    /// in the file at `spec_path`.
    pub fn build_raw(
        &self,
        bin: &FileLocation,
        spec_path: &str,
        mounts: &Vec<String>,
        empty_image: &str,
    ) -> (result: Result<Vec<String>, SpecError>)
        ensures
            base_command_of(
                *bin,
                seq!["--mount"@, Self::spec_mount(spec_path@)],
                mounts.deep_view(),
                empty_image@,
            ) matches Some(base) ==> (result matches Ok(args) && args.deep_view() == base + seq![
                "build-spec"@,
                "--raw"@,
                "--base-path"@,
                "/tmp/node"@,
                "--chain"@,
                "/tmp/spec.json"@,
            ]),
            base_command_of(
                *bin,
                seq!["--mount"@, Self::spec_mount(spec_path@)],
                mounts.deep_view(),
                empty_image@,
            ) is None ==> (result matches Err(SpecError::BinaryNotSet)),
    {
        let mut extra: Vec<String> = Vec::new();
        push_text(&mut extra, "--mount");
        let mut mount = join_text("type=bind,source=", spec_path);
        mount.append(",target=/tmp/spec.json,readonly");
        let ghost before = extra.deep_view();
        let ghost mount_text = mount@;
        assert(mount_text =~= Self::spec_mount(spec_path@));
        extra.push(mount);
        assert(extra.deep_view() =~= before.push(mount_text));
        assert(extra.deep_view() =~= seq!["--mount"@, Self::spec_mount(spec_path@)]);
        let mut command = Self::base_command(bin, &extra, mounts, empty_image)?;
        let ghost base = command.deep_view();
        push_text(&mut command, "build-spec");
        push_text(&mut command, "--raw");
        push_text(&mut command, "--base-path");
        push_text(&mut command, "/tmp/node");
        push_text(&mut command, "--chain");
        push_text(&mut command, "/tmp/spec.json");
        assert(command.deep_view() =~= base + seq![
            "build-spec"@,
            "--raw"@,
            "--base-path"@,
            "/tmp/node"@,
            "--chain"@,
            "/tmp/spec.json"@,
        ]);
        Ok(command)
    }
}

impl SpecBackend {
    /// Reads a backend from its command-line form: `docker`, or anything else
    /// for none.
    pub fn from_str(s: &str) -> (backend: SpecBackend)
        ensures
            s@ == "docker"@ ==> backend is Docker,
            s@ != "docker"@ ==> backend is Unset,
    {
        if str_eq(s, "docker") {
            SpecBackend::Docker(DockerSpecBuilder)
        } else {
            SpecBackend::Unset
        }
    }

    /// The builder behind the backend. An unset backend has none.
    pub fn builder(&self) -> (result: Result<DockerSpecBuilder, SpecError>)
        ensures
            self is Docker ==> result is Ok,
            self is Unset ==> (result matches Err(SpecError::InvalidParameter(text)) && text@
                == "spec backend is not set"@),
    {
        match self {
            SpecBackend::Docker(builder) => Ok(*builder),
            SpecBackend::Unset => Err(SpecError::InvalidParameter("spec backend is not set")),
        }
    }
}

impl Default for SpecBackend {
    fn default() -> (backend: SpecBackend)
        ensures
            backend is Unset,
    {
        SpecBackend::Unset
    }
}

} // verus!
