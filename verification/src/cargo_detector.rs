//! What the cargo metadata of a workspace says of its Bevy apps and
//! examples.

use vstd::prelude::*;
use crate::json::{JsonData, JsonValue};
use crate::response::{ResponseBuilder, with_field};
use crate::text::{contains_text, has_substring, same_text, texts_of};

verus! {

/// A build target of a package, as cargo metadata describes it.
pub struct TargetInfo {
    /// Name of the target.
    pub name: String,
    /// Whether the target is a binary.
    pub is_bin: bool,
    /// Whether the target is an example.
    pub is_example: bool,
}

/// A package, as cargo metadata describes it.
pub struct PackageInfo {
    /// The package id.
    pub id: String,
    /// The package name.
    pub name: String,
    /// Path to the package's Cargo.toml.
    pub manifest_path: String,
    /// The names of the package's direct dependencies.
    pub dependencies: Vec<String>,
    /// The package's build targets.
    pub targets: Vec<TargetInfo>,
}

/// The cargo metadata of a project or workspace.
pub struct CargoMetadata {
    pub packages: Vec<PackageInfo>,
    /// The ids of the workspace's own packages.
    pub workspace_members: Vec<String>,
    pub workspace_root: String,
    /// The directory binaries are built in.
    pub target_directory: String,
}

/// Information about a binary target.
pub struct BinaryInfo {
    /// Name of the binary.
    pub name: String,
    /// Workspace root.
    pub workspace_root: String,
    /// Path to the package's Cargo.toml.
    pub manifest_path: String,
}

/// Information about an example.
pub struct ExampleInfo {
    /// Name of the example.
    pub name: String,
    /// Package name.
    pub package_name: String,
}

/// Whether a package is one of the workspace's own.
pub open spec fn is_member(md: CargoMetadata, p: PackageInfo) -> bool {
    texts_of(md.workspace_members@).contains(p.id@)
}

/// Whether a package depends directly on `bevy`.
pub open spec fn depends_on_bevy(p: PackageInfo) -> bool {
    texts_of(p.dependencies@).contains("bevy"@)
}

/// The binaries (`bins`) or examples (otherwise) among some targets: their
/// names, in order.
pub open spec fn target_names(ts: Seq<TargetInfo>, bins: bool) -> Seq<Seq<char>>
    decreases ts.len(),
{
    if ts.len() == 0 {
        Seq::empty()
    } else {
        let rest = target_names(ts.drop_last(), bins);
        if (bins && ts.last().is_bin) || (!bins && ts.last().is_example) {
            rest.push(ts.last().name@)
        } else {
            rest
        }
    }
}

/// The Bevy apps among some packages: for each binary of a workspace
/// package that depends on `bevy`, its name and its package's manifest.
pub open spec fn apps_in(md: CargoMetadata, ps: Seq<PackageInfo>) -> Seq<(Seq<char>, Seq<char>)>
    decreases ps.len(),
{
    if ps.len() == 0 {
        Seq::empty()
    } else {
        let p = ps.last();
        let rest = apps_in(md, ps.drop_last());
        if is_member(md, p) && depends_on_bevy(p) {
            rest + target_names(p.targets@, true).map_values(|n: Seq<char>| (n, p.manifest_path@))
        } else {
            rest
        }
    }
}

/// The Bevy examples among some packages: for each example of a workspace
/// package that depends on `bevy`, its name and its package's name.
pub open spec fn examples_in(md: CargoMetadata, ps: Seq<PackageInfo>) -> Seq<(Seq<char>, Seq<char>)>
    decreases ps.len(),
{
    if ps.len() == 0 {
        Seq::empty()
    } else {
        let p = ps.last();
        let rest = examples_in(md, ps.drop_last());
        if is_member(md, p) && depends_on_bevy(p) {
            rest + target_names(p.targets@, false).map_values(|n: Seq<char>| (n, p.name@))
        } else {
            rest
        }
    }
}

/// Whether `name` is a binary target (`bins`) or an example target of a
/// workspace package of `md` that depends directly on `bevy`, and `owner`
/// is that package's manifest path (for binaries) or name (for examples).
pub open spec fn target_of_bevy_package(md: CargoMetadata, bins: bool, name: Seq<char>, owner: Seq<char>) -> bool {
    exists|j: int| 0 <= j < md.packages@.len()
        && texts_of(md.workspace_members@).contains(#[trigger] md.packages@[j].id@)
        && texts_of(md.packages@[j].dependencies@).contains("bevy"@)
        && owner == (if bins { md.packages@[j].manifest_path@ } else { md.packages@[j].name@ })
        && exists|t: int| 0 <= t < md.packages@[j].targets@.len()
            && (if bins { md.packages@[j].targets@[t].is_bin } else { md.packages@[j].targets@[t].is_example })
            && #[trigger] md.packages@[j].targets@[t].name@ == name
}

/// Each name among the binaries (or examples) of some targets is the name
/// of a target of that kind.
proof fn lemma_target_names_from(ts: Seq<TargetInfo>, bins: bool, i: int)
    requires
        0 <= i < target_names(ts, bins).len(),
    ensures
        exists|t: int| 0 <= t < ts.len() && #[trigger] ts[t].name@ == target_names(ts, bins)[i]
            && (if bins { ts[t].is_bin } else { ts[t].is_example }),
    decreases ts.len(),
{
    let rest = target_names(ts.drop_last(), bins);
    if i < rest.len() {
        lemma_target_names_from(ts.drop_last(), bins, i);
        let t = choose|t: int| 0 <= t < ts.drop_last().len() && #[trigger] ts.drop_last()[t].name@ == rest[i]
            && (if bins { ts.drop_last()[t].is_bin } else { ts.drop_last()[t].is_example });
        assert(ts[t] == ts.drop_last()[t]);
    } else {
        assert(ts[ts.len() - 1] == ts.last());
    }
}

/// Every app found is a binary target of a workspace package that depends
/// directly on `bevy`, listed with that package's manifest: the binaries of
/// packages without `bevy`, and of packages outside the workspace, are
/// never listed.
pub proof fn lemma_apps_depend_on_bevy(md: CargoMetadata, ps: Seq<PackageInfo>, i: int)
    requires
        0 <= i < apps_in(md, ps).len(),
    ensures
        exists|j: int| 0 <= j < ps.len()
            && texts_of(md.workspace_members@).contains(#[trigger] ps[j].id@)
            && texts_of(ps[j].dependencies@).contains("bevy"@)
            && ps[j].manifest_path@ == apps_in(md, ps)[i].1
            && exists|t: int| 0 <= t < ps[j].targets@.len() && ps[j].targets@[t].is_bin
                && #[trigger] ps[j].targets@[t].name@ == apps_in(md, ps)[i].0,
    decreases ps.len(),
{
    let p = ps.last();
    let rest = apps_in(md, ps.drop_last());
    if i < rest.len() {
        lemma_apps_depend_on_bevy(md, ps.drop_last(), i);
        let j = choose|j: int| 0 <= j < ps.drop_last().len()
            && texts_of(md.workspace_members@).contains(#[trigger] ps.drop_last()[j].id@)
            && texts_of(ps.drop_last()[j].dependencies@).contains("bevy"@)
            && ps.drop_last()[j].manifest_path@ == rest[i].1
            && exists|t: int| 0 <= t < ps.drop_last()[j].targets@.len() && ps.drop_last()[j].targets@[t].is_bin
                && #[trigger] ps.drop_last()[j].targets@[t].name@ == rest[i].0;
        assert(ps[j] == ps.drop_last()[j]);
        assert(apps_in(md, ps)[i] == rest[i]);
    } else {
        let k = i - rest.len();
        lemma_target_names_from(p.targets@, true, k);
        assert(ps[ps.len() - 1] == p);
    }
}

/// Every example found is an example target of a workspace package that
/// depends directly on `bevy`, listed with that package's name.
pub proof fn lemma_examples_depend_on_bevy(md: CargoMetadata, ps: Seq<PackageInfo>, i: int)
    requires
        0 <= i < examples_in(md, ps).len(),
    ensures
        exists|j: int| 0 <= j < ps.len()
            && texts_of(md.workspace_members@).contains(#[trigger] ps[j].id@)
            && texts_of(ps[j].dependencies@).contains("bevy"@)
            && ps[j].name@ == examples_in(md, ps)[i].1
            && exists|t: int| 0 <= t < ps[j].targets@.len() && ps[j].targets@[t].is_example
                && #[trigger] ps[j].targets@[t].name@ == examples_in(md, ps)[i].0,
    decreases ps.len(),
{
    let p = ps.last();
    let rest = examples_in(md, ps.drop_last());
    if i < rest.len() {
        lemma_examples_depend_on_bevy(md, ps.drop_last(), i);
        let j = choose|j: int| 0 <= j < ps.drop_last().len()
            && texts_of(md.workspace_members@).contains(#[trigger] ps.drop_last()[j].id@)
            && texts_of(ps.drop_last()[j].dependencies@).contains("bevy"@)
            && ps.drop_last()[j].name@ == rest[i].1
            && exists|t: int| 0 <= t < ps.drop_last()[j].targets@.len() && ps.drop_last()[j].targets@[t].is_example
                && #[trigger] ps.drop_last()[j].targets@[t].name@ == rest[i].0;
        assert(ps[j] == ps.drop_last()[j]);
        assert(examples_in(md, ps)[i] == rest[i]);
    } else {
        let k = i - rest.len();
        lemma_target_names_from(p.targets@, false, k);
        assert(ps[ps.len() - 1] == p);
    }
}

/// Whether `items` holds `t`.
pub fn contains_text_item(items: &Vec<String>, t: &str) -> (r: bool)
    ensures
        r == texts_of(items@).contains(t@),
{
    let mut i: usize = 0;
    while i < items.len()
        invariant
            i <= items.len(),
            forall|j: int| 0 <= j < i ==> items@[j]@ != t@,
        decreases items.len() - i,
    {
        if same_text(items[i].as_str(), t) {
            assert(texts_of(items@)[i as int] == t@);
            return true;
        }
        i += 1;
    }
    assert forall|j: int| 0 <= j < texts_of(items@).len() implies texts_of(items@)[j] != t@ by {
        assert(texts_of(items@)[j] == items@[j]@);
    }
    false
}

/// The names of the binaries (`bins`) or examples of some targets.
fn target_names_of(ts: &Vec<TargetInfo>, bins: bool) -> (r: Vec<String>)
    ensures
        texts_of(r@) == target_names(ts@, bins),
{
    let mut out: Vec<String> = Vec::new();
    let mut i: usize = 0;
    while i < ts.len()
        invariant
            i <= ts.len(),
            texts_of(out@) == target_names(ts@.subrange(0, i as int), bins),
        decreases ts.len() - i,
    {
        assert(ts@.subrange(0, i + 1).drop_last() =~= ts@.subrange(0, i as int));
        let t = &ts[i];
        if (bins && t.is_bin) || (!bins && t.is_example) {
            let ghost before = out@;
            out.push(t.name.clone());
            assert(texts_of(out@) =~= texts_of(before).push(t.name@));
        }
        i += 1;
    }
    assert(ts@.subrange(0, ts.len() as int) =~= ts@);
    out
}

/// Detects binary targets in a project or workspace.
pub struct CargoDetector {
    pub metadata: CargoMetadata,
}

impl CargoDetector {
    /// A detector over the metadata of a project.
    pub fn new(metadata: CargoMetadata) -> (r: CargoDetector)
        ensures
            r.metadata == metadata,
    {
        CargoDetector { metadata }
    }

    /// Whether a package depends directly on `bevy`.
    pub fn package_depends_on_bevy(&self, package: &PackageInfo) -> (r: bool)
        ensures
            r == depends_on_bevy(*package),
    {
        contains_text_item(&package.dependencies, "bevy")
    }

    /// All Bevy apps of the workspace: the binaries of its own packages that
    /// depend on `bevy`, in package order.
    pub fn find_bevy_apps(&self) -> (r: Vec<BinaryInfo>)
        ensures
            r@.len() == apps_in(self.metadata, self.metadata.packages@).len(),
            forall|i: int| 0 <= i < r@.len() ==> (#[trigger] r@[i]).name@ == apps_in(self.metadata, self.metadata.packages@)[i].0
                && r@[i].manifest_path@ == apps_in(self.metadata, self.metadata.packages@)[i].1
                && r@[i].workspace_root@ == self.metadata.workspace_root@,
            forall|i: int| 0 <= i < r@.len()
                ==> target_of_bevy_package(self.metadata, true, (#[trigger] r@[i]).name@, r@[i].manifest_path@),
    {
        let md = &self.metadata;
        let mut apps: Vec<BinaryInfo> = Vec::new();
        let mut i: usize = 0;
        while i < md.packages.len()
            invariant
                i <= md.packages.len(),
                apps@.len() == apps_in(*md, md.packages@.subrange(0, i as int)).len(),
                forall|k: int| 0 <= k < apps@.len() ==> (#[trigger] apps@[k]).name@ == apps_in(*md, md.packages@.subrange(0, i as int))[k].0
                    && apps@[k].manifest_path@ == apps_in(*md, md.packages@.subrange(0, i as int))[k].1
                    && apps@[k].workspace_root@ == md.workspace_root@,
            decreases md.packages.len() - i,
        {
            let ghost prev = apps_in(*md, md.packages@.subrange(0, i as int));
            assert(md.packages@.subrange(0, i + 1).drop_last() =~= md.packages@.subrange(0, i as int));
            let package = &md.packages[i];
            if contains_text_item(&md.workspace_members, package.id.as_str()) && self.package_depends_on_bevy(package) {
                let names = target_names_of(&package.targets, true);
                let ghost added = texts_of(names@).map_values(|n: Seq<char>| (n, package.manifest_path@));
                let ghost base = apps@.len();
                let mut j: usize = 0;
                while j < names.len()
                    invariant
                        j <= names.len(),
                        apps@.len() == base + j,
                        base == prev.len(),
                        added.len() == names@.len(),
                        added == texts_of(names@).map_values(|n: Seq<char>| (n, package.manifest_path@)),
                        forall|k: int| 0 <= k < base ==> (#[trigger] apps@[k]).name@ == prev[k].0
                            && apps@[k].manifest_path@ == prev[k].1 && apps@[k].workspace_root@ == md.workspace_root@,
                        forall|k: int| base <= k < apps@.len() ==> (#[trigger] apps@[k]).name@ == added[k - base].0
                            && apps@[k].manifest_path@ == added[k - base].1 && apps@[k].workspace_root@ == md.workspace_root@,
                    decreases names.len() - j,
                {
                    assert(texts_of(names@)[j as int] == names@[j as int]@);
                    assert(added[j as int] == (names@[j as int]@, package.manifest_path@));
                    apps.push(BinaryInfo {
                        name: names[j].clone(),
                        workspace_root: md.workspace_root.clone(),
                        manifest_path: package.manifest_path.clone(),
                    });
                    j += 1;
                }
            }
            i += 1;
        }
        assert(md.packages@.subrange(0, md.packages.len() as int) =~= md.packages@);
        proof {
            assert forall|i: int| 0 <= i < apps@.len()
                implies target_of_bevy_package(*md, true, (#[trigger] apps@[i]).name@, apps@[i].manifest_path@) by {
                lemma_apps_depend_on_bevy(*md, md.packages@, i);
            }
        }
        apps
    }

    /// All Bevy examples of the workspace: the examples of its own packages
    /// that depend on `bevy`, in package order.
    pub fn find_bevy_examples(&self) -> (r: Vec<ExampleInfo>)
        ensures
            r@.len() == examples_in(self.metadata, self.metadata.packages@).len(),
            forall|i: int| 0 <= i < r@.len() ==> (#[trigger] r@[i]).name@ == examples_in(self.metadata, self.metadata.packages@)[i].0
                && r@[i].package_name@ == examples_in(self.metadata, self.metadata.packages@)[i].1,
            forall|i: int| 0 <= i < r@.len()
                ==> target_of_bevy_package(self.metadata, false, (#[trigger] r@[i]).name@, r@[i].package_name@),
    {
        let md = &self.metadata;
        let mut examples: Vec<ExampleInfo> = Vec::new();
        let mut i: usize = 0;
        while i < md.packages.len()
            invariant
                i <= md.packages.len(),
                examples@.len() == examples_in(*md, md.packages@.subrange(0, i as int)).len(),
                forall|k: int| 0 <= k < examples@.len() ==> (#[trigger] examples@[k]).name@ == examples_in(*md, md.packages@.subrange(0, i as int))[k].0
                    && examples@[k].package_name@ == examples_in(*md, md.packages@.subrange(0, i as int))[k].1,
            decreases md.packages.len() - i,
        {
            let ghost prev = examples_in(*md, md.packages@.subrange(0, i as int));
            assert(md.packages@.subrange(0, i + 1).drop_last() =~= md.packages@.subrange(0, i as int));
            let package = &md.packages[i];
            if contains_text_item(&md.workspace_members, package.id.as_str()) && self.package_depends_on_bevy(package) {
                let names = target_names_of(&package.targets, false);
                let ghost added = texts_of(names@).map_values(|n: Seq<char>| (n, package.name@));
                let ghost base = examples@.len();
                let mut j: usize = 0;
                while j < names.len()
                    invariant
                        j <= names.len(),
                        examples@.len() == base + j,
                        base == prev.len(),
                        added.len() == names@.len(),
                        added == texts_of(names@).map_values(|n: Seq<char>| (n, package.name@)),
                        forall|k: int| 0 <= k < base ==> (#[trigger] examples@[k]).name@ == prev[k].0
                            && examples@[k].package_name@ == prev[k].1,
                        forall|k: int| base <= k < examples@.len() ==> (#[trigger] examples@[k]).name@ == added[k - base].0
                            && examples@[k].package_name@ == added[k - base].1,
                    decreases names.len() - j,
                {
                    assert(texts_of(names@)[j as int] == names@[j as int]@);
                    assert(added[j as int] == (names@[j as int]@, package.name@));
                    examples.push(ExampleInfo { name: names[j].clone(), package_name: package.name.clone() });
                    j += 1;
                }
            }
            i += 1;
        }
        assert(md.packages@.subrange(0, md.packages.len() as int) =~= md.packages@);
        proof {
            assert forall|i: int| 0 <= i < examples@.len()
                implies target_of_bevy_package(*md, false, (#[trigger] examples@[i]).name@, examples@[i].package_name@) by {
                lemma_examples_depend_on_bevy(*md, md.packages@, i);
            }
        }
        examples
    }
}

/// Whether a directory under a search root is searched for a project: it
/// is neither hidden nor a build directory.
pub open spec fn searched_dir(name: Seq<char>) -> bool {
    !(name.len() > 0 && name[0] == '.') && name != "target"@
}

/// Whether a directory under a search root is searched for a project.
pub fn is_searched_dir(name: &str) -> (r: bool)
    ensures
        r == searched_dir(name@),
{
    let hidden = name.unicode_len() > 0 && name.get_char(0) == '.';
    !hidden && !same_text(name, "target")
}

/// Whether a package manifest turns on the remote protocol: it names
/// `bevy_remote` or `bevy_brp_extras`.
pub open spec fn enables_brp(manifest: Seq<char>) -> bool {
    has_substring(manifest, "bevy_remote"@) || has_substring(manifest, "bevy_brp_extras"@)
}

/// Whether a package manifest turns on the remote protocol.
pub fn manifest_enables_brp(manifest: &str) -> (r: bool)
    ensures
        r == enables_brp(manifest@),
{
    contains_text(manifest, "bevy_remote") || contains_text(manifest, "bevy_brp_extras")
}

impl BinaryInfo {
    /// The JSON description of an app.
    pub fn to_json(&self) -> (r: JsonValue)
        ensures
            Some(r.data()) == with_field(with_field(with_field(None, "name"@, JsonData::Str(self.name@)),
                "workspace_root"@, JsonData::Str(self.workspace_root@)), "manifest_path"@, JsonData::Str(self.manifest_path@)),
    {
        let b = ResponseBuilder::success()
            .add_field("name", JsonValue::String(self.name.clone()))
            .add_field("workspace_root", JsonValue::String(self.workspace_root.clone()))
            .add_field("manifest_path", JsonValue::String(self.manifest_path.clone()));
        match b.data {
            Some(d) => d,
            None => JsonValue::Null,
        }
    }
}

impl ExampleInfo {
    /// The JSON description of an example.
    pub fn to_json(&self) -> (r: JsonValue)
        ensures
            Some(r.data()) == with_field(with_field(None, "name"@, JsonData::Str(self.name@)),
                "package_name"@, JsonData::Str(self.package_name@)),
    {
        let b = ResponseBuilder::success()
            .add_field("name", JsonValue::String(self.name.clone()))
            .add_field("package_name", JsonValue::String(self.package_name.clone()));
        match b.data {
            Some(d) => d,
            None => JsonValue::Null,
        }
    }
}

} // verus!
