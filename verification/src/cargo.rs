//! Checks on the cargo build profiles that apps are launched with.

use vstd::prelude::*;
use crate::text::{concat2, concat3, push_char, same_text};
use crate::cargo_detector::{CargoMetadata, PackageInfo, TargetInfo, contains_text_item, depends_on_bevy, is_member};

verus! {

/// Whether `c` is alphabetic or numeric in Unicode's sense.
pub uninterp spec fn is_alphanumeric_char(c: char) -> bool;

/// Trusted: wraps `char::is_alphanumeric`, which std documents as true for
/// chars with the Unicode `Alphabetic` or `Numeric` property. The contract
/// only names that result.
#[verifier::external_body]
fn alphanumeric(c: char) -> (r: bool)
    ensures
        r == is_alphanumeric_char(c),
{
    c.is_alphanumeric()
}

/// The characters a profile name may hold.
pub open spec fn profile_char_ok(c: char) -> bool {
    is_alphanumeric_char(c) || c == '-' || c == '_'
}

/// First position at or after `i` of a character a profile name may not hold.
pub open spec fn first_bad_char_from(s: Seq<char>, i: int) -> Option<int>
    decreases s.len() - i,
{
    if i < 0 || i >= s.len() {
        None
    } else if !profile_char_ok(s[i]) {
        Some(i)
    } else {
        first_bad_char_from(s, i + 1)
    }
}

/// The verdict on a profile name of byte length `byte_len`: empty, then a
/// bad character, then more than 64 bytes is refused.
pub open spec fn profile_verdict(s: Seq<char>, byte_len: nat) -> Result<(), Seq<char>> {
    if s.len() == 0 {
        Err("Profile name cannot be empty"@)
    } else {
        match first_bad_char_from(s, 0) {
            Some(i) => Err("Profile name '"@ + s + "' contains invalid character '"@ + seq![s[i]]
                + "'. Only alphanumeric characters, hyphens, and underscores are allowed."@),
            None => if byte_len > 64 {
                Err("Profile name '"@ + s + "' is too long. Maximum length is 64 characters."@)
            } else {
                Ok(())
            },
        }
    }
}

/// Validates that a profile name is safe to use in cargo commands: only
/// alphanumeric characters, hyphens and underscores, at most 64 bytes.
pub fn validate_profile_name(profile: &str) -> (r: Result<(), String>)
    ensures
        match r {
            Ok(()) => profile_verdict(profile@, profile.len() as nat) == Ok::<(), Seq<char>>(()),
            Err(e) => profile_verdict(profile@, profile.len() as nat) == Err::<(), Seq<char>>(e@),
        },
{
    let n = profile.unicode_len();
    if n == 0 {
        return Err(String::from_str("Profile name cannot be empty"));
    }
    let mut i: usize = 0;
    while i < n
        invariant
            n == profile@.len(),
            i <= n,
            first_bad_char_from(profile@, 0) == first_bad_char_from(profile@, i as int),
        decreases n - i,
    {
        let ch = profile.get_char(i);
        if !alphanumeric(ch) && ch != '-' && ch != '_' {
            assert(!profile_char_ok(profile@[i as int]));
            assert(first_bad_char_from(profile@, i as int) == Some(i as int));
            let mut m = String::from_str("Profile name '");
            m.append(profile);
            m.append("' contains invalid character '");
            push_char(&mut m, ch);
            m.append("'. Only alphanumeric characters, hyphens, and underscores are allowed.");
            assert(m@ =~= "Profile name '"@ + profile@ + "' contains invalid character '"@ + seq![profile@[i as int]]
                + "'. Only alphanumeric characters, hyphens, and underscores are allowed."@);
            return Err(m);
        }
        i += 1;
    }
    if profile.len() > 64 {
        let mut m = String::from_str("Profile name '");
        m.append(profile);
        m.append("' is too long. Maximum length is 64 characters.");
        return Err(m);
    }
    Ok(())
}

/// Information about a binary target.
pub struct BinaryInfo {
    /// Name of the binary.
    pub name: String,
    /// Whether this binary depends on Bevy.
    pub is_bevy_app: bool,
}

/// The build profile used where none is given.
pub const DEFAULT_PROFILE: &'static str = "debug";

/// Whether some workspace package depends directly on `bevy`.
pub open spec fn workspace_has_bevy_in(md: CargoMetadata) -> bool {
    exists|i: int| 0 <= i < md.packages@.len() && is_member(md, #[trigger] md.packages@[i]) && depends_on_bevy(md.packages@[i])
}

/// Whether a package counts as a Bevy app: it depends on `bevy`, or it is a
/// workspace package of a workspace where some package does.
pub open spec fn counts_as_bevy(md: CargoMetadata, p: PackageInfo) -> bool {
    depends_on_bevy(p) || (is_member(md, p) && workspace_has_bevy_in(md))
}

/// Whether a package has a binary target called `name`.
pub open spec fn has_bin_named(p: PackageInfo, name: Seq<char>) -> bool {
    exists|j: int| 0 <= j < p.targets@.len() && (#[trigger] p.targets@[j]).is_bin && p.targets@[j].name@ == name
}

/// Whether a workspace package has a binary called `name`.
pub open spec fn binary_found(md: CargoMetadata, name: Seq<char>) -> bool {
    exists|i: int| 0 <= i < md.packages@.len() && is_member(md, #[trigger] md.packages@[i]) && has_bin_named(md.packages@[i], name)
}

/// Whether a workspace package that counts as a Bevy app has a binary
/// called `name`.
pub open spec fn bevy_binary_found(md: CargoMetadata, name: Seq<char>) -> bool {
    exists|i: int| 0 <= i < md.packages@.len() && is_member(md, #[trigger] md.packages@[i])
        && has_bin_named(md.packages@[i], name) && counts_as_bevy(md, md.packages@[i])
}

fn has_bin(targets: &Vec<TargetInfo>, name: &str) -> (r: bool)
    ensures
        r == (exists|j: int| 0 <= j < targets@.len() && (#[trigger] targets@[j]).is_bin && targets@[j].name@ == name@),
{
    let mut j: usize = 0;
    while j < targets.len()
        invariant
            j <= targets.len(),
            forall|k: int| 0 <= k < j ==> !((#[trigger] targets@[k]).is_bin && targets@[k].name@ == name@),
        decreases targets.len() - j,
    {
        if targets[j].is_bin && same_text(targets[j].name.as_str(), name) {
            return true;
        }
        j += 1;
    }
    false
}

/// Detects binary targets in the current project or workspace.
pub struct CargoDetector {
    pub metadata: CargoMetadata,
}

impl CargoDetector {
    /// A detector over the metadata of a project.
    pub fn new(metadata: CargoMetadata) -> (r: CargoDetector)
        ensures
            r.metadata == metadata,
    {
        CargoDetector { metadata }
    }

    /// Whether some workspace package depends directly on `bevy`.
    pub fn workspace_has_bevy(&self) -> (r: bool)
        ensures
            r == workspace_has_bevy_in(self.metadata),
    {
        let md = &self.metadata;
        let mut i: usize = 0;
        while i < md.packages.len()
            invariant
                i <= md.packages.len(),
                *md == self.metadata,
                forall|k: int| 0 <= k < i ==> !(is_member(*md, #[trigger] md.packages@[k]) && depends_on_bevy(md.packages@[k])),
            decreases md.packages.len() - i,
        {
            let p = &md.packages[i];
            assert(*p == md.packages@[i as int]);
            if contains_text_item(&md.workspace_members, p.id.as_str()) && contains_text_item(&p.dependencies, "bevy") {
                assert(is_member(*md, md.packages@[i as int]) && depends_on_bevy(md.packages@[i as int]));
                return true;
            }
            i += 1;
        }
        false
    }

    /// Whether a package counts as a Bevy app: it depends on `bevy`, or it
    /// is a workspace package of a workspace where some package does.
    pub fn package_depends_on_bevy(&self, package: &PackageInfo) -> (r: bool)
        ensures
            r == counts_as_bevy(self.metadata, *package),
    {
        if contains_text_item(&package.dependencies, "bevy") {
            return true;
        }
        contains_text_item(&self.metadata.workspace_members, package.id.as_str()) && self.workspace_has_bevy()
    }

    /// Finds a binary of the workspace by name; one that counts as a Bevy
    /// app is preferred.
    pub fn find_binary_by_name(&self, name: &str) -> (r: Option<BinaryInfo>)
        ensures
            match r {
                Some(b) => binary_found(self.metadata, name@) && b.name@ == name@
                    && b.is_bevy_app == bevy_binary_found(self.metadata, name@),
                None => !binary_found(self.metadata, name@),
            },
    {
        let md = &self.metadata;
        let mut found: Option<BinaryInfo> = None;
        let mut i: usize = 0;
        while i < md.packages.len()
            invariant
                i <= md.packages.len(),
                *md == self.metadata,
                forall|k: int| 0 <= k < i ==> !(is_member(*md, #[trigger] md.packages@[k]) && has_bin_named(md.packages@[k], name@)
                    && counts_as_bevy(*md, md.packages@[k])),
                match found {
                    Some(b) => b.name@ == name@ && !b.is_bevy_app && exists|k: int| 0 <= k < i && is_member(*md, #[trigger] md.packages@[k])
                        && has_bin_named(md.packages@[k], name@),
                    None => forall|k: int| 0 <= k < i ==> !(is_member(*md, #[trigger] md.packages@[k]) && has_bin_named(md.packages@[k], name@)),
                },
            decreases md.packages.len() - i,
        {
            let p = &md.packages[i];
            assert(*p == md.packages@[i as int]);
            let member = contains_text_item(&md.workspace_members, p.id.as_str());
            let bin = has_bin(&p.targets, name);
            assert(bin == has_bin_named(md.packages@[i as int], name@));
            if member && bin {
                let bevy = self.package_depends_on_bevy(p);
                assert(is_member(*md, md.packages@[i as int]) && has_bin_named(md.packages@[i as int], name@));
                if bevy {
                    return Some(BinaryInfo { name: String::from_str(name), is_bevy_app: true });
                }
                found = Some(BinaryInfo { name: String::from_str(name), is_bevy_app: false });
            }
            i += 1;
        }
        found
    }

    /// The directory binaries are built in.
    pub fn target_directory(&self) -> (r: &str)
        ensures
            r@ == self.metadata.target_directory@,
    {
        self.metadata.target_directory.as_str()
    }
}

/// The profile directory a binary is looked for in: the profile given, else
/// the default one.
pub fn profile_dir_of(profile: Option<&str>) -> (r: &str)
    ensures
        r@ == match profile { Some(p) => p@, None => DEFAULT_PROFILE@ },
{
    match profile {
        Some(p) => p,
        None => DEFAULT_PROFILE,
    }
}

/// The refusal of a binary that does not count as a Bevy app.
pub open spec fn not_bevy_message(app: Seq<char>) -> Seq<char> {
    "Binary '"@ + app + "' found but does not depend on Bevy"@
}

/// The refusal of a Bevy binary found in a project but not built.
pub open spec fn not_built_message(app: Seq<char>, project: Seq<char>, profile: Seq<char>, in_that_directory: bool) -> Seq<char> {
    "Binary '"@ + app + "' found in project at "@ + project + " but not built. Run 'cargo build --profile "@ + profile
        + (if in_that_directory { "' in that directory to build it."@ } else { "' to build it."@ })
}

/// What a root project that holds the binary decides: it is used where it
/// is built and counts as a Bevy app; it is refused otherwise.
pub open spec fn root_binary_verdict(app: Seq<char>, is_bevy: bool, exists: bool, root: Seq<char>, profile: Seq<char>) -> Result<(), Seq<char>> {
    if !is_bevy {
        Err(not_bevy_message(app))
    } else if exists {
        Ok(())
    } else {
        Err(not_built_message(app, root, profile, false))
    }
}

/// Decides on a binary found in a root project: `Ok` where it is to be used.
pub fn root_binary_outcome(app_name: &str, is_bevy_app: bool, exists: bool, root: &str, profile_dir: &str) -> (r: Result<(), String>)
    ensures
        match r {
            Ok(()) => root_binary_verdict(app_name@, is_bevy_app, exists, root@, profile_dir@) is Ok,
            Err(m) => root_binary_verdict(app_name@, is_bevy_app, exists, root@, profile_dir@) == Err::<(), Seq<char>>(m@),
        },
{
    if !is_bevy_app {
        return Err(concat3("Binary '", app_name, "' found but does not depend on Bevy"));
    }
    if exists {
        return Ok(());
    }
    Err(not_built(app_name, root, profile_dir, false))
}

/// The refusal of a Bevy binary found in a project but not built.
pub fn not_built(app_name: &str, project: &str, profile_dir: &str, in_that_directory: bool) -> (r: String)
    ensures
        r@ == not_built_message(app_name@, project@, profile_dir@, in_that_directory),
{
    let mut m = concat3("Binary '", app_name, "' found in project at ");
    m.append(project);
    m.append(" but not built. Run 'cargo build --profile ");
    m.append(profile_dir);
    m.append(if in_that_directory { "' in that directory to build it." } else { "' to build it." });
    m
}

/// What the current directory decides where no search roots are given:
/// the binary is used where the project there has it, it counts as a Bevy
/// app, and it is built; each other case has its refusal.
pub open spec fn current_dir_binary_verdict(app: Seq<char>, found: Option<bool>, exists: bool, profile: Seq<char>) -> Result<(), Seq<char>> {
    match found {
        None => Err("Binary '"@ + app + "' not found"@),
        Some(is_bevy) => if !is_bevy {
            Err("Binary '"@ + app + "' does not depend on Bevy"@)
        } else if exists {
            Ok(())
        } else {
            Err("Binary '"@ + app + "' found but not built. Run 'cargo build --profile "@ + profile + "' to build it."@)
        },
    }
}

/// Decides on the binary of the project in the current directory, searched
/// where no roots are given: `found` tells whether the project has the
/// binary and then whether it counts as a Bevy app; `exists` whether it is
/// built.
pub fn current_dir_binary_outcome(app_name: &str, found: Option<bool>, exists: bool, profile_dir: &str) -> (r: Result<(), String>)
    ensures
        match r {
            Ok(()) => current_dir_binary_verdict(app_name@, found, exists, profile_dir@) is Ok,
            Err(m) => current_dir_binary_verdict(app_name@, found, exists, profile_dir@) == Err::<(), Seq<char>>(m@),
        },
{
    match found {
        None => Err(concat3("Binary '", app_name, "' not found")),
        Some(is_bevy) => {
            if !is_bevy {
                Err(concat3("Binary '", app_name, "' does not depend on Bevy"))
            } else if exists {
                Ok(())
            } else {
                let mut m = concat3("Binary '", app_name, "' found but not built. Run 'cargo build --profile ");
                m.append(profile_dir);
                m.append("' to build it.");
                Err(m)
            }
        },
    }
}

/// The refusal where no search root holds the binary.
pub fn not_in_roots(app_name: &str) -> (r: String)
    ensures
        r@ == "Binary '"@ + app_name@ + "' not found in any of the provided roots or their subdirectories"@,
{
    concat3("Binary '", app_name, "' not found in any of the provided roots or their subdirectories")
}

/// What a project met while searching subdirectories decides.
pub enum SearchStep {
    /// Use the binary found here.
    Use,
    /// Stop with this refusal.
    Refuse(String),
    /// Search on; `true` where a Bevy binary was found here but not built.
    Continue(bool),
}

/// Decides on a binary found in a project met while searching
/// subdirectories: a built Bevy binary is used, a built binary of another
/// kind is refused, and the search goes on past one not built.
pub fn subdirectory_binary_step(app_name: &str, is_bevy_app: bool, exists: bool) -> (r: SearchStep)
    ensures
        exists && is_bevy_app ==> r is Use,
        exists && !is_bevy_app ==> (r matches SearchStep::Refuse(m) && m@ == not_bevy_message(app_name@)),
        !exists ==> r == SearchStep::Continue(is_bevy_app),
{
    if exists {
        if is_bevy_app {
            SearchStep::Use
        } else {
            SearchStep::Refuse(concat3("Binary '", app_name, "' found but does not depend on Bevy"))
        }
    } else {
        SearchStep::Continue(is_bevy_app)
    }
}

/// What a search of subdirectories remembers: the first project met that
/// holds the Bevy binary but has not built it.
pub struct SubdirectorySearch {
    pub first_unbuilt: Option<String>,
}

impl SubdirectorySearch {
    /// A search that has met nothing yet.
    pub fn new() -> (r: SubdirectorySearch)
        ensures
            r.first_unbuilt is None,
    {
        SubdirectorySearch { first_unbuilt: None }
    }

    /// Takes in a project where the search goes on past the binary
    /// (`bevy` where it is a Bevy binary not built): the first such Bevy
    /// project is remembered, later ones are not.
    pub fn note(&mut self, project: &str, bevy: bool)
        ensures
            match old(self).first_unbuilt {
                Some(p) => final(self).first_unbuilt == Some(p),
                None => if bevy {
                    final(self).first_unbuilt matches Some(q) && q@ == project@
                } else {
                    final(self).first_unbuilt is None
                },
            },
    {
        if self.first_unbuilt.is_none() && bevy {
            self.first_unbuilt = Some(String::from_str(project));
        }
    }

    /// The refusal where the search of `dir` found no built binary: that
    /// the first Bevy project met has not built it, or that none holds it.
    pub fn refusal(&self, app_name: &str, dir: &str, profile_dir: &str) -> (r: String)
        ensures
            r@ == match self.first_unbuilt {
                Some(p) => not_built_message(app_name@, p@, profile_dir@, true),
                None => "Binary '"@ + app_name@ + "' not found in "@ + dir@,
            },
    {
        match &self.first_unbuilt {
            Some(p) => not_built(app_name, p.as_str(), profile_dir, true),
            None => {
                let mut m = concat3("Binary '", app_name, "' not found in ");
                m.append(dir);
                m
            },
        }
    }
}

} // verus!
