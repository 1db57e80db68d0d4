//! The fixed request used when scaffolding a package for the Sui
//! framework: one dependency entry pointing at the framework sources,
//! and one address binding from the lowered package name to the zero
//! address, with version `0.0.1` and no seed content.

use crate::manifest::{
    addr_line, addr_lines, addr_views, addresses_header, dep_line, dep_lines, dep_views,
    dependencies_header, manifest_text, package_section, AddressBinding, DependencyEntry,
};
use crate::names::{ascii_lowercase, lemma_lower_preserves_valid, lower_seq, valid_package_name};
use crate::scaffold::{
    manifest_for, plan_scaffold, GenerationError, ScaffoldPlan, ScaffoldRequest,
};
use vstd::prelude::*;
use vstd::string::StringExecFns;

verus! {

/// The name of the pre-registered framework dependency.
pub open spec fn sui_dep_name() -> Seq<char> {
    "Sui"@
}

/// The source descriptor of the framework dependency, passed through
/// verbatim.
pub open spec fn sui_dep_source() -> Seq<char> {
    "{ git = \"https://github.com/MystenLabs/sui.git\", subdir = \"crates/sui-framework\", rev = \"main\" }"@
}

/// The version every freshly scaffolded package starts at.
pub open spec fn initial_version() -> Seq<char> {
    "0.0.1"@
}

/// The zero-address sentinel the new package's own address is bound
/// to.
pub open spec fn zero_address() -> Seq<char> {
    "0x0"@
}

/// The manifest a framework request for `name` resolves to: the
/// lowered name, the initial version, exactly one dependency entry and
/// exactly one address binding.
pub open spec fn sui_manifest(name: Seq<char>) -> Seq<char> {
    manifest_text(
        lower_seq(name),
        initial_version(),
        seq![(sui_dep_name(), sui_dep_source())],
        seq![(lower_seq(name), zero_address())],
    )
}

/// Builds the scaffold request for a fresh framework package: the
/// given name and target path, the initial version, the framework
/// dependency, the zero-address binding of the lowered name, and no
/// seed content.
pub fn sui_scaffold_request(name: &str, target_path: Option<String>) -> (r: ScaffoldRequest)
    ensures
        r.package_name@ == name@,
        r.target_path == target_path,
        r.version@ == initial_version(),
        dep_views(r.dependencies@) == seq![(sui_dep_name(), sui_dep_source())],
        addr_views(r.address_bindings@) == seq![(lower_seq(name@), zero_address())],
        r.seed_content@.len() == 0,
        manifest_for(r) == sui_manifest(name@),
{
    let package_name = String::from_str(name);
    let version = String::from_str("0.0.1");
    let mut dependencies: Vec<DependencyEntry> = Vec::new();
    dependencies.push(
        DependencyEntry {
            name: String::from_str("Sui"),
            source: String::from_str(
                "{ git = \"https://github.com/MystenLabs/sui.git\", subdir = \"crates/sui-framework\", rev = \"main\" }",
            ),
        },
    );
    let mut address_bindings: Vec<AddressBinding> = Vec::new();
    address_bindings.push(
        AddressBinding { name: ascii_lowercase(name), value: String::from_str("0x0") },
    );
    let r = ScaffoldRequest {
        target_path,
        package_name,
        version,
        dependencies,
        address_bindings,
        seed_content: String::new(),
    };
    proof {
        assert(dep_views(r.dependencies@) =~= seq![(sui_dep_name(), sui_dep_source())]);
        assert(addr_views(r.address_bindings@) =~= seq![(lower_seq(name@), zero_address())]);
    }
    r
}

/// Scaffolds a fresh framework package: builds the fixed request for
/// `name` and `target_path` and plans it against the caller's report
/// on the target directory.
pub fn plan_sui_scaffold(
    name: &str,
    target_path: Option<String>,
    target_exists_nonempty: bool,
) -> (r: Result<ScaffoldPlan, GenerationError>)
    ensures
        !valid_package_name(name@) ==> r == Err::<ScaffoldPlan, GenerationError>(
            GenerationError::InvalidName,
        ),
        valid_package_name(name@) && target_exists_nonempty ==> r == Err::<
            ScaffoldPlan,
            GenerationError,
        >(GenerationError::AlreadyExists),
        valid_package_name(name@) && !target_exists_nonempty ==> (r matches Ok(p) && {
            &&& p.root_dir@ == (match target_path {
                Some(t) => t@,
                None => lower_seq(name@),
            })
            &&& p.manifest_file_name@ == "Move.toml"@
            &&& p.sources_dir_name@ == "sources"@
            &&& p.manifest_contents@ == sui_manifest(name@)
            &&& p.source_file is None
        }),
{
    let req = sui_scaffold_request(name, target_path);
    plan_scaffold(&req, target_exists_nonempty)
}

/// For every usable package name, the lowered name — which names the
/// created directory and the package's own address — is itself a
/// usable name, and the framework manifest lists exactly the lowered
/// name, the initial version, one dependency line for the framework
/// and one address line binding the lowered name to the zero address.
pub proof fn lemma_default_scaffold_manifest(name: Seq<char>)
    requires
        valid_package_name(name),
    ensures
        valid_package_name(lower_seq(name)),
        sui_manifest(name) == package_section(lower_seq(name), initial_version())
            + dependencies_header() + dep_line(sui_dep_name(), sui_dep_source())
            + addresses_header() + addr_line(lower_seq(name), zero_address()),
{
    lemma_lower_preserves_valid(name);
    let deps = seq![(sui_dep_name(), sui_dep_source())];
    let addrs = seq![(lower_seq(name), zero_address())];
    assert(deps.drop_last() =~= Seq::<(Seq<char>, Seq<char>)>::empty());
    assert(addrs.drop_last() =~= Seq::<(Seq<char>, Seq<char>)>::empty());
    assert(dep_lines(Seq::<(Seq<char>, Seq<char>)>::empty()) == Seq::<char>::empty());
    assert(addr_lines(Seq::<(Seq<char>, Seq<char>)>::empty()) == Seq::<char>::empty());
    assert(deps.last() == (sui_dep_name(), sui_dep_source()));
    assert(addrs.last() == (lower_seq(name), zero_address()));
    assert(dep_lines(deps) =~= dep_line(sui_dep_name(), sui_dep_source()));
    assert(addr_lines(addrs) =~= addr_line(lower_seq(name), zero_address()));
}

/// The fixed text that precedes the first occurrence of the lowered
/// name in a framework manifest.
spec fn sui_pre() -> Seq<char> {
    "[package]\nname = \""@
}

/// The fixed text between the two occurrences of the lowered name in a
/// framework manifest.
spec fn sui_mid() -> Seq<char> {
    "\"\nversion = \""@ + initial_version() + "\"\n"@ + dependencies_header() + dep_line(
        sui_dep_name(),
        sui_dep_source(),
    ) + addresses_header()
}

/// The fixed text that follows the second occurrence of the lowered
/// name in a framework manifest.
spec fn sui_post() -> Seq<char> {
    " = \""@ + zero_address() + "\"\n"@
}

/// A framework manifest flattens to fixed text around the two
/// occurrences of the lowered package name.
proof fn lemma_sui_manifest_flat(name: Seq<char>)
    ensures
        sui_manifest(name) == sui_pre() + lower_seq(name) + sui_mid() + lower_seq(name)
            + sui_post(),
{
    let deps = seq![(sui_dep_name(), sui_dep_source())];
    let addrs = seq![(lower_seq(name), zero_address())];
    assert(deps.drop_last() =~= Seq::<(Seq<char>, Seq<char>)>::empty());
    assert(addrs.drop_last() =~= Seq::<(Seq<char>, Seq<char>)>::empty());
    assert(dep_lines(Seq::<(Seq<char>, Seq<char>)>::empty()) == Seq::<char>::empty());
    assert(addr_lines(Seq::<(Seq<char>, Seq<char>)>::empty()) == Seq::<char>::empty());
    assert(sui_manifest(name) =~= sui_pre() + lower_seq(name) + sui_mid() + lower_seq(name)
        + sui_post());
}

/// The manifest pins the package identity down: two framework requests
/// whose manifests coincide agree on the lowered package name.
pub proof fn lemma_sui_manifest_determines_name(n1: Seq<char>, n2: Seq<char>)
    requires
        sui_manifest(n1) == sui_manifest(n2),
    ensures
        lower_seq(n1) == lower_seq(n2),
{
    let l1 = lower_seq(n1);
    let l2 = lower_seq(n2);
    lemma_sui_manifest_flat(n1);
    lemma_sui_manifest_flat(n2);
    assert(sui_manifest(n1).len() == sui_pre().len() + l1.len() + sui_mid().len() + l1.len()
        + sui_post().len());
    assert(sui_manifest(n2).len() == sui_pre().len() + l2.len() + sui_mid().len() + l2.len()
        + sui_post().len());
    assert(l1.len() == l2.len());
    assert forall|i: int| 0 <= i < l1.len() implies l1[i] == l2[i] by {
        assert(sui_manifest(n1)[sui_pre().len() + i] == l1[i]);
        assert(sui_manifest(n2)[sui_pre().len() + i] == l2[i]);
    }
    assert(l1 =~= l2);
}

} // verus!
