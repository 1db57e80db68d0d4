//! Rendering of the package manifest: a structured text document with
//! the package name, the version, a section of dependency entries and
//! a section of address bindings.

use vstd::prelude::*;
use vstd::string::StringExecFns;

verus! {

/// A reference to an external package: a name and an opaque source
/// descriptor, passed through verbatim into the manifest.
pub struct DependencyEntry {
    pub name: String,
    pub source: String,
}

/// A named placeholder bound to a literal address value.
pub struct AddressBinding {
    pub name: String,
    pub value: String,
}

/// The (name, source) views of a sequence of dependency entries.
pub open spec fn dep_views(deps: Seq<DependencyEntry>) -> Seq<(Seq<char>, Seq<char>)> {
    deps.map_values(|d: DependencyEntry| (d.name@, d.source@))
}

/// The (name, value) views of a sequence of address bindings.
pub open spec fn addr_views(addrs: Seq<AddressBinding>) -> Seq<(Seq<char>, Seq<char>)> {
    addrs.map_values(|a: AddressBinding| (a.name@, a.value@))
}

/// The opening section of the manifest: the package name and version.
pub open spec fn package_section(name: Seq<char>, version: Seq<char>) -> Seq<char> {
    "[package]\nname = \""@ + name + "\"\nversion = \""@ + version + "\"\n"@
}

/// One dependency line: `name = source`, where the source descriptor
/// appears verbatim.
pub open spec fn dep_line(name: Seq<char>, source: Seq<char>) -> Seq<char> {
    name + " = "@ + source + "\n"@
}

/// One address line: `name = "value"`.
pub open spec fn addr_line(name: Seq<char>, value: Seq<char>) -> Seq<char> {
    name + " = \""@ + value + "\"\n"@
}

/// The dependency lines, one per entry, in order.
pub open spec fn dep_lines(deps: Seq<(Seq<char>, Seq<char>)>) -> Seq<char>
    decreases deps.len(),
{
    if deps.len() == 0 {
        Seq::<char>::empty()
    } else {
        dep_lines(deps.drop_last()) + dep_line(deps.last().0, deps.last().1)
    }
}

/// The address lines, one per binding, in order.
pub open spec fn addr_lines(addrs: Seq<(Seq<char>, Seq<char>)>) -> Seq<char>
    decreases addrs.len(),
{
    if addrs.len() == 0 {
        Seq::<char>::empty()
    } else {
        addr_lines(addrs.drop_last()) + addr_line(addrs.last().0, addrs.last().1)
    }
}

/// The header that opens the dependency section.
pub open spec fn dependencies_header() -> Seq<char> {
    "\n[dependencies]\n"@
}

/// The header that opens the address section.
pub open spec fn addresses_header() -> Seq<char> {
    "\n[addresses]\n"@
}

/// The whole manifest: package section, then every dependency entry as
/// `name = source`, then every address binding as `name = "value"`.
pub open spec fn manifest_text(
    name: Seq<char>,
    version: Seq<char>,
    deps: Seq<(Seq<char>, Seq<char>)>,
    addrs: Seq<(Seq<char>, Seq<char>)>,
) -> Seq<char> {
    package_section(name, version) + dependencies_header() + dep_lines(deps)
        + addresses_header() + addr_lines(addrs)
}

/// Renders the manifest for the given name, version, dependency
/// entries and address bindings.
pub fn render_manifest(
    name: &str,
    version: &str,
    deps: &Vec<DependencyEntry>,
    addrs: &Vec<AddressBinding>,
) -> (r: String)
    ensures
        r@ == manifest_text(name@, version@, dep_views(deps@), addr_views(addrs@)),
{
    let mut s = String::new();
    s.append("[package]\nname = \"");
    s.append(name);
    s.append("\"\nversion = \"");
    s.append(version);
    s.append("\"\n");
    assert(s@ =~= package_section(name@, version@));
    s.append("\n[dependencies]\n");
    let ghost dv = dep_views(deps@);
    let mut i: usize = 0;
    assert(dep_lines(dv.take(0)) =~= Seq::<char>::empty());
    while i < deps.len()
        invariant
            i <= deps.len(),
            dv == dep_views(deps@),
            dv.len() == deps@.len(),
            s@ == package_section(name@, version@) + dependencies_header() + dep_lines(
                dv.take(i as int),
            ),
        decreases deps.len() - i,
    {
        s.append(deps[i].name.as_str());
        s.append(" = ");
        s.append(deps[i].source.as_str());
        s.append("\n");
        proof {
            assert(dv.take(i + 1).drop_last() =~= dv.take(i as int));
            assert(dv.take(i + 1).last() == (deps@[i as int].name@, deps@[i as int].source@));
            assert(s@ =~= package_section(name@, version@) + dependencies_header() + dep_lines(
                dv.take(i + 1),
            ));
        }
        i += 1;
    }
    assert(dv.take(deps@.len() as int) =~= dv);
    s.append("\n[addresses]\n");
    let ghost av = addr_views(addrs@);
    let mut k: usize = 0;
    assert(addr_lines(av.take(0)) =~= Seq::<char>::empty());
    while k < addrs.len()
        invariant
            k <= addrs.len(),
            dv == dep_views(deps@),
            av == addr_views(addrs@),
            av.len() == addrs@.len(),
            s@ == package_section(name@, version@) + dependencies_header() + dep_lines(dv)
                + addresses_header() + addr_lines(av.take(k as int)),
        decreases addrs.len() - k,
    {
        s.append(addrs[k].name.as_str());
        s.append(" = \"");
        s.append(addrs[k].value.as_str());
        s.append("\"\n");
        proof {
            assert(av.take(k + 1).drop_last() =~= av.take(k as int));
            assert(av.take(k + 1).last() == (addrs@[k as int].name@, addrs@[k as int].value@));
            assert(s@ =~= package_section(name@, version@) + dependencies_header() + dep_lines(dv)
                + addresses_header() + addr_lines(av.take(k + 1)));
        }
        k += 1;
    }
    assert(av.take(addrs@.len() as int) =~= av);
    assert(s@ =~= manifest_text(name@, version@, dv, av));
    s
}

} // verus!
