//! Planning of a package scaffold: resolving the target directory,
//! deciding the outcome, and assembling the files to be written.
//!
//! The planner does no filesystem work itself: the caller reports
//! whether the resolved target directory already exists and is
//! non-empty, and receives back either an error or a complete plan of
//! the entries to create.

use crate::manifest::{
    addr_views, dep_views, manifest_text, render_manifest, AddressBinding, DependencyEntry,
};
use crate::names::{ascii_lowercase, is_valid_package_name, lower_seq, valid_package_name};
use vstd::prelude::*;
use vstd::string::StringExecFns;

verus! {

/// Why a scaffold request was rejected.
#[derive(Debug, PartialEq, Eq)]
pub enum GenerationError {
    /// The package name is empty or not a usable identifier.
    InvalidName,
    /// The resolved target directory already exists and is non-empty.
    AlreadyExists,
    /// An underlying filesystem operation failed; carries a
    /// description of the failed operation.
    IoError(String),
}

/// Everything the generator needs for one invocation.
pub struct ScaffoldRequest {
    /// The directory to create; when absent, a directory named after
    /// the lowered package name in the current working directory.
    pub target_path: Option<String>,
    /// The package name; it is lower-cased before use.
    pub package_name: String,
    /// The version string recorded in the manifest.
    pub version: String,
    /// The dependency entries, rendered in order.
    pub dependencies: Vec<DependencyEntry>,
    /// The address bindings, rendered in order.
    pub address_bindings: Vec<AddressBinding>,
    /// When non-empty, the contents of a seed source file named after
    /// the package.
    pub seed_content: String,
}

/// A source file to seed the package with.
#[derive(Debug)]
pub struct SourceFile {
    /// File name inside the source subdirectory.
    pub name: String,
    /// File contents.
    pub contents: String,
}

/// The filesystem entries a successful request resolves to: a root
/// directory holding the manifest file and a source subdirectory.
#[derive(Debug)]
pub struct ScaffoldPlan {
    /// The resolved root directory.
    pub root_dir: String,
    /// The manifest file name inside the root directory.
    pub manifest_file_name: String,
    /// The rendered manifest contents.
    pub manifest_contents: String,
    /// The source subdirectory name inside the root directory.
    pub sources_dir_name: String,
    /// The seed source file, present exactly when the request carries
    /// seed content.
    pub source_file: Option<SourceFile>,
}

/// The directory a request resolves to: the explicit target path when
/// one is given, else the lowered package name.
pub open spec fn effective_dir(req: ScaffoldRequest) -> Seq<char> {
    match req.target_path {
        Some(p) => p@,
        None => lower_seq(req.package_name@),
    }
}

/// The manifest a request resolves to: the lowered package name, the
/// requested version, and the request's dependency entries and
/// address bindings.
pub open spec fn manifest_for(req: ScaffoldRequest) -> Seq<char> {
    manifest_text(
        lower_seq(req.package_name@),
        req.version@,
        dep_views(req.dependencies@),
        addr_views(req.address_bindings@),
    )
}

/// The outcome a request is owed: `InvalidName` for an unusable
/// package name, `AlreadyExists` for a non-empty existing target, and
/// success otherwise.
pub open spec fn generation_error(req: ScaffoldRequest, target_exists_nonempty: bool) -> Option<
    GenerationError,
> {
    if !valid_package_name(req.package_name@) {
        Some(GenerationError::InvalidName)
    } else if target_exists_nonempty {
        Some(GenerationError::AlreadyExists)
    } else {
        None
    }
}

/// What a plan owes its request: the resolved directory, the fixed
/// manifest file name and source subdirectory name, the rendered
/// manifest, and a seed file exactly when seed content was given.
pub open spec fn plan_matches(req: ScaffoldRequest, p: ScaffoldPlan) -> bool {
    &&& p.root_dir@ == effective_dir(req)
    &&& p.manifest_file_name@ == "Move.toml"@
    &&& p.sources_dir_name@ == "sources"@
    &&& p.manifest_contents@ == manifest_for(req)
    &&& match p.source_file {
        Some(f) => req.seed_content@.len() > 0 && f.name@ == lower_seq(req.package_name@)
            + ".move"@ && f.contents@ == req.seed_content@,
        None => req.seed_content@.len() == 0,
    }
}

/// Consumes a request and the caller's report on the target directory,
/// and returns either the owed error or a plan of the entries to
/// create.
pub fn plan_scaffold(req: &ScaffoldRequest, target_exists_nonempty: bool) -> (r: Result<
    ScaffoldPlan,
    GenerationError,
>)
    ensures
        match generation_error(*req, target_exists_nonempty) {
            Some(e) => r == Err::<ScaffoldPlan, GenerationError>(e),
            None => r matches Ok(p) && plan_matches(*req, p),
        },
{
    if !is_valid_package_name(req.package_name.as_str()) {
        return Err(GenerationError::InvalidName);
    }
    if target_exists_nonempty {
        return Err(GenerationError::AlreadyExists);
    }
    let lowered = ascii_lowercase(req.package_name.as_str());
    let root_dir = match &req.target_path {
        Some(p) => p.clone(),
        None => lowered.clone(),
    };
    let manifest_contents = render_manifest(
        lowered.as_str(),
        req.version.as_str(),
        &req.dependencies,
        &req.address_bindings,
    );
    let source_file = if !req.seed_content.as_str().is_empty() {
        let mut file_name = lowered.clone();
        file_name.append(".move");
        Some(SourceFile { name: file_name, contents: req.seed_content.clone() })
    } else {
        None
    };
    Ok(
        ScaffoldPlan {
            root_dir,
            manifest_file_name: String::from_str("Move.toml"),
            manifest_contents,
            sources_dir_name: String::from_str("sources"),
            source_file,
        },
    )
}

/// A request with a usable package name and an absent or empty target
/// directory is owed success.
pub proof fn lemma_valid_name_generates(req: ScaffoldRequest)
    requires
        valid_package_name(req.package_name@),
    ensures
        generation_error(req, false) is None,
{
}

/// A request whose target directory already exists and is non-empty is
/// rejected with `AlreadyExists` and nothing is planned, whatever else
/// the request holds, as long as its name is usable.
pub proof fn lemma_existing_target_rejected(req: ScaffoldRequest)
    requires
        valid_package_name(req.package_name@),
    ensures
        generation_error(req, true) == Some(GenerationError::AlreadyExists),
{
}

/// Generation is not idempotent: a request owed success against an
/// absent target is owed `AlreadyExists`, never an overwrite, once the
/// directory it created exists.
pub proof fn lemma_second_generation_rejected(req: ScaffoldRequest)
    requires
        generation_error(req, false) is None,
    ensures
        generation_error(req, true) == Some(GenerationError::AlreadyExists),
{
}

} // verus!
