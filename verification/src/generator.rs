//! The consumers of a composed document.
//!
//! Each generator names the library modules it needs, the attribute of the
//! output object that is its own, and what it hands to the document as its
//! configuration. Writing what a generator extracts is the caller's work.

use vstd::prelude::*;
use vstd::string::*;
use crate::paths::{has_parent_dir, join, path_components, path_join, path_starts_with, starts_with, uses_parent_dir};
use crate::text::{join_text, str_eq, strip_prefix};

verus! {

/// A kind of output, with where it goes.
#[derive(Debug, Clone)]
pub enum Generator {
    /// Compose files, one per field, under the directory it holds.
    DockerCompose(String),
    /// A single discovery file at the path it holds.
    DockerComposeDiscover(String),
    /// The document itself, for inspection.
    Debug,
    /// The address book.
    AddressBook,
}

/// What a generator hands to the document under its own attribute.
#[derive(Debug, Clone)]
pub struct GeneratorConfig {
    /// The image for containers that run a binary of the host.
    pub empty_image: String,
    /// The directory that the output is written under.
    pub output_root: String,
}

/// Why a generator was refused, or one of its outputs.
#[derive(Debug)]
pub enum GeneratorError {
    /// The text names no generator.
    UnknownGenerator,
    /// An output's path holds the parent directory.
    ParentDir,
    /// An output's path lies outside the output directory.
    Escapes,
}

impl Generator {
    /// Reads a generator from its command-line form. A path is taken
    /// relative to the working directory `cwd`.
    pub fn from_str(s: &str, cwd: &str) -> (result: Result<Generator, GeneratorError>)
        ensures
            "docker_compose="@.is_prefix_of(s@) ==> (result matches Ok(Generator::DockerCompose(dir))
                && dir@ == path_join(cwd@, s@.skip("docker_compose="@.len() as int))),
            !"docker_compose="@.is_prefix_of(s@) && "docker_compose_discover="@.is_prefix_of(s@) ==> (
            result matches Ok(Generator::DockerComposeDiscover(file)) && file@ == path_join(
                cwd@,
                s@.skip("docker_compose_discover="@.len() as int),
            )),
            !"docker_compose="@.is_prefix_of(s@) && !"docker_compose_discover="@.is_prefix_of(s@)
                ==> {
                &&& s@ == "addressbook"@ ==> (result matches Ok(Generator::AddressBook))
                &&& s@ == "debug"@ ==> (result matches Ok(Generator::Debug))
                &&& s@ != "addressbook"@ && s@ != "debug"@ ==> (result matches Err(
                    GeneratorError::UnknownGenerator,
                ))
            },
    {
        if let Some(file) = strip_prefix(s, "docker_compose=") {
            return Ok(Generator::DockerCompose(join(cwd, file)));
        }
        if let Some(file) = strip_prefix(s, "docker_compose_discover=") {
            return Ok(Generator::DockerComposeDiscover(join(cwd, file)));
        }
        proof {
            reveal_strlit("addressbook");
            reveal_strlit("debug");
        }
        if str_eq(s, "addressbook") {
            return Ok(Generator::AddressBook);
        }
        if str_eq(s, "debug") {
            return Ok(Generator::Debug);
        }
        Err(GeneratorError::UnknownGenerator)
    }

    /// The attribute of the output object that is this generator's.
    pub open spec fn attribute(self) -> Seq<char> {
        match self {
            Generator::DockerCompose(_) => "dockerCompose"@,
            Generator::DockerComposeDiscover(_) => "dockerComposeDiscover"@,
            Generator::Debug => "debug"@,
            Generator::AddressBook => "addressbook"@,
        }
    }

    /// The library module that this generator needs.
    pub open spec fn library_module(self) -> Seq<char> {
        match self {
            Generator::DockerCompose(_) => "lib:baedeker-library/outputs/compose.libsonnet"@,
            Generator::DockerComposeDiscover(_) =>
                "lib:baedeker-library/outputs/composediscover.libsonnet"@,
            Generator::Debug => "lib:baedeker-library/outputs/debug.libsonnet"@,
            Generator::AddressBook => "lib:baedeker-library/outputs/addressbook.libsonnet"@,
        }
    }

    /// The modules to include when this generator is in use.
    pub fn library_modules(&self) -> (modules: Vec<String>)
        ensures
            modules.len() == 1,
            modules[0]@ == self.library_module(),
    {
        let module = match self {
            Generator::DockerCompose(_) => "lib:baedeker-library/outputs/compose.libsonnet",
            Generator::DockerComposeDiscover(_) =>
                "lib:baedeker-library/outputs/composediscover.libsonnet",
            Generator::Debug => "lib:baedeker-library/outputs/debug.libsonnet",
            Generator::AddressBook => "lib:baedeker-library/outputs/addressbook.libsonnet",
        };
        let mut modules: Vec<String> = Vec::new();
        modules.push(String::from_str(module));
        modules
    }

    /// Under which attribute this generator finds its output and leaves its
    /// configuration.
    pub fn output_attribute(&self) -> (attribute: String)
        ensures
            attribute@ == self.attribute(),
    {
        let attribute = match self {
            Generator::DockerCompose(_) => "dockerCompose",
            Generator::DockerComposeDiscover(_) => "dockerComposeDiscover",
            Generator::Debug => "debug",
            Generator::AddressBook => "addressbook",
        };
        String::from_str(attribute)
    }

    /// What this generator hands to the document. Only compose output has
    /// something to hand over: the image `empty_image` and its directory.
    pub fn config(&self, empty_image: &str) -> (config: Option<GeneratorConfig>)
        ensures
            self matches Generator::DockerCompose(dir) ==> (config matches Some(c) && c.empty_image@
                == empty_image@ && c.output_root@ == dir@),
            !(self is DockerCompose) ==> config is None,
    {
        match self {
            Generator::DockerCompose(dir) => Some(
                GeneratorConfig {
                    empty_image: String::from_str(empty_image),
                    output_root: dir.clone(),
                },
            ),
            _ => None,
        }
    }
}

/// Where the output named `name` of a compose generator goes under `dir`.
///
/// The path is `dir` with `name` pushed onto it. It may not hold the parent
/// directory, and it must stay under `dir`.
pub fn output_path(dir: &str, name: &str) -> (result: Result<String, GeneratorError>)
    ensures
        has_parent_dir(path_components(path_join(dir@, name@))) ==> (result matches Err(
            GeneratorError::ParentDir,
        )),
        !has_parent_dir(path_components(path_join(dir@, name@))) && !path_starts_with(
            path_join(dir@, name@),
            dir@,
        ) ==> (result matches Err(GeneratorError::Escapes)),
        !has_parent_dir(path_components(path_join(dir@, name@))) && path_starts_with(
            path_join(dir@, name@),
            dir@,
        ) ==> (result matches Ok(path) && path@ == path_join(dir@, name@)),
{
    let path = join(dir, name);
    if uses_parent_dir(path.as_str()) {
        return Err(GeneratorError::ParentDir);
    }
    if !starts_with(path.as_str(), dir) {
        return Err(GeneratorError::Escapes);
    }
    Ok(path)
}

/// The field that holds the function reconciling the output `name` with a
/// file that exists already.
pub fn reconciler_field(name: &str) -> (field: String)
    ensures
        field@ == "reconcile_"@ + name@,
{
    join_text("reconcile_", name)
}

} // verus!
