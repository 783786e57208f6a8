//! The runtime that is shipped with the shell: where the resources, the JVM and the
//! MariaDB programs are found.
//!
//! A search is split in two. The functions that name candidates say where to look;
//! the functions that choose take what was found there.

use vstd::prelude::*;

use crate::path::{path_option, text_path, DesktopPath, PathView, Platform};

verus! {

/// The file name of a program.
pub open spec fn program_file(platform: Platform, base: Seq<char>) -> Seq<char> {
    if platform == Platform::Windows {
        base + ".exe"@
    } else {
        base
    }
}

/// The file name of a program: `mariadbd` is `mariadbd.exe` on Windows.
pub fn exe_name(platform: Platform, base: &str) -> (name: String)
    ensures
        name@ == program_file(platform, base@),
{
    let mut name: String = base.to_owned();
    if platform == Platform::Windows {
        name.append(".exe");
    }
    name
}

// ---------------------------------------------------------------------------
// The resources
// ---------------------------------------------------------------------------

/// The paths in a list.
pub open spec fn paths(list: Seq<DesktopPath>) -> Seq<PathView> {
    Seq::new(list.len(), |i: int| list[i]@)
}

/// Where the resources may be: beside the program's directory, in it, or where the
/// shell was built.
pub open spec fn resources_places(exe_dir: Option<PathView>, build_dir: PathView) -> Seq<PathView> {
    let built = build_dir.join("Resources"@);
    match exe_dir {
        Some(d) => seq![
            d.join("../Resources"@),
            d.join("../resources"@),
            d.join("resources"@),
            built,
        ],
        None => seq![built],
    }
}

/// Where the resources may be, the best place first. `exe_dir` is the directory of the
/// program, where it is known.
pub fn resources_candidates(exe_dir: Option<DesktopPath>, build_dir: &DesktopPath) -> (list: Vec<
    DesktopPath,
>)
    ensures
        paths(list@) == resources_places(path_option(exe_dir), build_dir@),
{
    let mut list: Vec<DesktopPath> = Vec::new();
    if let Some(d) = &exe_dir {
        list.push(d.join("../Resources"));
        list.push(d.join("../resources"));
        list.push(d.join("resources"));
    }
    list.push(build_dir.join("Resources"));
    assert(paths(list@) =~= resources_places(path_option(exe_dir), build_dir@));
    list
}

/// The directory of the application archive among the resources.
pub fn jar_dir(resources: &DesktopPath) -> (p: DesktopPath)
    ensures
        p@ == resources@.join("jar"@),
{
    resources.join("jar")
}

/// The JRE among the resources.
pub fn jre_root(resources: &DesktopPath) -> (p: DesktopPath)
    ensures
        p@ == resources@.join("jre"@),
{
    resources.join("jre")
}

/// MariaDB among the resources.
pub fn mariadb_root(resources: &DesktopPath) -> (p: DesktopPath)
    ensures
        p@ == resources@.join("mariadb"@),
{
    resources.join("mariadb")
}

/// A place where the resources may be, and what was found there.
pub struct ResourcesCandidate {
    pub path: DesktopPath,
    pub exists: bool,
    pub has_jar: bool,
    pub has_jre: bool,
    pub has_mariadb: bool,
    /// The path in canonical form, where that could be had.
    pub canonical: Option<DesktopPath>,
}

impl ResourcesCandidate {
    /// Whether the place holds resources.
    pub open spec fn usable(&self) -> bool {
        self.exists && (self.has_jar || self.has_jre || self.has_mariadb)
    }

    /// The place, in canonical form where that could be had.
    pub open spec fn place(&self) -> PathView {
        match self.canonical {
            Some(c) => c@,
            None => self.path@,
        }
    }
}

/// The first place of a list that holds resources.
pub open spec fn first_usable(list: Seq<ResourcesCandidate>) -> Option<PathView>
    decreases list.len(),
{
    if list.len() == 0 {
        None
    } else if list[0].usable() {
        Some(list[0].place())
    } else {
        first_usable(list.drop_first())
    }
}

/// A directory that the user asked for, and what was found of it.
pub struct ForcedDir {
    pub exists: bool,
    pub canonical: Option<DesktopPath>,
}

/// The resources in use: the directory that the user asked for, where it exists, else
/// the first candidate that holds any.
pub open spec fn resources(
    forced: Option<ForcedDir>,
    candidates: Seq<ResourcesCandidate>,
) -> Option<PathView> {
    match forced {
        Some(f) => if f.exists {
            path_option(f.canonical)
        } else {
            first_usable(candidates)
        },
        None => first_usable(candidates),
    }
}

/// The directory of the resources in use.
pub fn bundle_resources_dir(
    forced: Option<ForcedDir>,
    candidates: &Vec<ResourcesCandidate>,
) -> (dir: Option<DesktopPath>)
    ensures
        path_option(dir) == resources(forced, candidates@),
{
    if let Some(f) = forced {
        if f.exists {
            return f.canonical;
        }
    }
    let mut i: usize = 0;
    assert(candidates@.skip(0) == candidates@);
    while i < candidates.len()
        invariant
            i <= candidates@.len(),
            resources(forced, candidates@) == first_usable(candidates@),
            first_usable(candidates@.skip(i as int)) == first_usable(candidates@),
        decreases candidates@.len() - i,
    {
        let c = &candidates[i];
        assert(candidates@.skip(i as int)[0] == candidates@[i as int]);
        assert(candidates@.skip(i as int).drop_first() == candidates@.skip(i + 1));
        if c.exists && (c.has_jar || c.has_jre || c.has_mariadb) {
            return Some(
                match &c.canonical {
                    Some(p) => p.clone(),
                    None => c.path.clone(),
                },
            );
        }
        i += 1;
    }
    None
}

// ---------------------------------------------------------------------------
// The JVM
// ---------------------------------------------------------------------------

/// The JVM program below a JRE.
pub open spec fn java_in(platform: Platform, jre_root: PathView, java_exe_there: bool) -> PathView {
    if platform == Platform::Windows && java_exe_there {
        jre_root.join("bin/java.exe"@)
    } else {
        jre_root.join("bin/java"@)
    }
}

/// The JVM program below a JRE; `java_exe_there` tells whether `bin/java.exe` exists.
pub fn java_executable_in(
    platform: Platform,
    jre_root: &DesktopPath,
    java_exe_there: bool,
) -> (java: DesktopPath)
    ensures
        java@ == java_in(platform, jre_root@, java_exe_there),
{
    if platform == Platform::Windows && java_exe_there {
        return jre_root.join("bin/java.exe");
    }
    jre_root.join("bin/java")
}

/// A path, and whether something exists there.
pub struct Probed {
    pub path: DesktopPath,
    pub exists: bool,
}

/// Whether the JVM shipped with the shell is the one to run.
pub fn uses_bundled_java(asked: &Option<String>, bundled: &Option<Probed>) -> (used: bool)
    ensures
        used == (asked is None && bundled is Some && bundled->0.exists),
{
    match (asked, bundled) {
        (None, Some(b)) => b.exists,
        _ => false,
    }
}

/// The JVM to run.
pub open spec fn java_of(asked: Option<String>, bundled: Option<Probed>) -> PathView {
    if asked is Some {
        text_path(asked->0@)
    } else if bundled is Some && bundled->0.exists {
        bundled->0.path@
    } else {
        text_path("java"@)
    }
}

/// The JVM to run: the one that the user asked for, else the one shipped with the
/// shell, where it exists, else the `java` of the search path.
pub fn resolve_java_bin(asked: Option<String>, bundled: Option<Probed>) -> (java: DesktopPath)
    ensures
        java@ == java_of(asked, bundled),
        java@ == match asked {
            Some(p) => text_path(p@),
            None => match bundled {
                Some(b) => if b.exists {
                    b.path@
                } else {
                    text_path("java"@)
                },
                None => text_path("java"@),
            },
        },
{
    if let Some(p) = asked {
        return DesktopPath::text(p.as_str());
    }
    if let Some(b) = bundled {
        if b.exists {
            return b.path;
        }
    }
    DesktopPath::text("java")
}

// ---------------------------------------------------------------------------
// MariaDB
// ---------------------------------------------------------------------------

/// The MariaDB server below a directory.
pub fn mariadb_daemon(platform: Platform, dir: &DesktopPath) -> (daemon: DesktopPath)
    ensures
        daemon@ == dir@.join(program_file(platform, "mariadbd"@)),
{
    let name = exe_name(platform, "mariadbd");
    dir.join(name.as_str())
}

/// What was found below a directory that may hold MariaDB.
pub struct MariadbRoot {
    pub root: DesktopPath,
    /// Whether the server is in its `bin`.
    pub in_bin: bool,
    /// Whether the server is in the directory itself.
    pub in_root: bool,
    /// `bin` in canonical form, where that could be had.
    pub canonical_bin: Option<DesktopPath>,
    /// The directory in canonical form, where that could be had.
    pub canonical_root: Option<DesktopPath>,
}

/// The directory of the MariaDB programs below a directory, which may be its `bin` or
/// the directory itself.
pub open spec fn bin_dir_under(found: MariadbRoot) -> Option<PathView> {
    if found.in_bin {
        Some(
            match found.canonical_bin {
                Some(c) => c@,
                None => found.root@.join("bin"@),
            },
        )
    } else if found.in_root {
        Some(
            match found.canonical_root {
                Some(c) => c@,
                None => found.root@,
            },
        )
    } else {
        None
    }
}

/// The directory of the MariaDB programs below a directory.
pub fn mariadb_bin_dir_under(found: MariadbRoot) -> (dir: Option<DesktopPath>)
    ensures
        path_option(dir) == bin_dir_under(found),
{
    if found.in_bin {
        return Some(
            match found.canonical_bin {
                Some(c) => c,
                None => found.root.join("bin"),
            },
        );
    }
    if found.in_root {
        return Some(
            match found.canonical_root {
                Some(c) => c,
                None => found.root,
            },
        );
    }
    None
}

/// Where the platform keeps MariaDB.
pub open spec fn system_bin_dir(platform: Platform, in_opt_homebrew: bool) -> PathView {
    match platform {
        Platform::MacOs => if in_opt_homebrew {
            text_path("/opt/homebrew/opt/mariadb@10.11/bin"@)
        } else {
            text_path("/usr/local/opt/mariadb@10.11/bin"@)
        },
        Platform::Unix => text_path("/usr/bin"@),
        Platform::Windows => text_path("mariadb/bin"@),
    }
}

/// Where Homebrew keeps MariaDB on Apple silicon.
pub fn opt_homebrew_bin_dir() -> (dir: DesktopPath)
    ensures
        dir@ == text_path("/opt/homebrew/opt/mariadb@10.11/bin"@),
{
    DesktopPath::text("/opt/homebrew/opt/mariadb@10.11/bin")
}

/// Where the platform keeps MariaDB. `in_opt_homebrew` tells whether `mariadbd` exists
/// in the Homebrew directory of Apple silicon.
pub fn default_system_mariadb_bin_dir(platform: Platform, in_opt_homebrew: bool) -> (dir:
    DesktopPath)
    ensures
        dir@ == system_bin_dir(platform, in_opt_homebrew),
{
    match platform {
        Platform::MacOs => if in_opt_homebrew {
            opt_homebrew_bin_dir()
        } else {
            DesktopPath::text("/usr/local/opt/mariadb@10.11/bin")
        },
        Platform::Unix => DesktopPath::text("/usr/bin"),
        Platform::Windows => DesktopPath::text("mariadb/bin"),
    }
}

/// Whether the MariaDB shipped with the shell is the one in use.
pub fn uses_bundled_mariadb(asked: &Option<String>, bundled: &Option<MariadbRoot>) -> (used: bool)
    ensures
        used == (asked is None && bundled is Some && bin_dir_under(bundled->0) is Some),
{
    match (asked, bundled) {
        (None, Some(found)) => found.in_bin || found.in_root,
        _ => false,
    }
}

/// The directory of the MariaDB programs in use.
pub open spec fn mariadb_dir_of(
    asked: Option<String>,
    bundled: Option<MariadbRoot>,
    platform: Platform,
    in_opt_homebrew: bool,
) -> PathView {
    if asked is Some {
        text_path(asked->0@)
    } else if bundled is Some && bin_dir_under(bundled->0) is Some {
        bin_dir_under(bundled->0)->0
    } else {
        system_bin_dir(platform, in_opt_homebrew)
    }
}

/// The directory of the MariaDB programs in use: the one that the user asked for, else
/// the one shipped with the shell, where there is one, else the one of the platform.
pub fn resolve_mariadb_bin_dir(
    asked: Option<String>,
    bundled: Option<MariadbRoot>,
    platform: Platform,
    in_opt_homebrew: bool,
) -> (dir: DesktopPath)
    ensures
        dir@ == mariadb_dir_of(asked, bundled, platform, in_opt_homebrew),
        dir@ == match asked {
            Some(p) => text_path(p@),
            None => match bundled {
                Some(found) => match bin_dir_under(found) {
                    Some(p) => p,
                    None => system_bin_dir(platform, in_opt_homebrew),
                },
                None => system_bin_dir(platform, in_opt_homebrew),
            },
        },
{
    if let Some(p) = asked {
        return DesktopPath::text(p.as_str());
    }
    if let Some(found) = bundled {
        if let Some(dir) = mariadb_bin_dir_under(found) {
            return dir;
        }
    }
    default_system_mariadb_bin_dir(platform, in_opt_homebrew)
}

/// The `lib` of a directory.
pub fn lib_in(dir: &DesktopPath) -> (p: DesktopPath)
    ensures
        p@ == dir@.join("lib"@),
{
    dir.join("lib")
}

/// The `lib` beside a directory of MariaDB programs.
pub fn sibling_lib(bin_dir: &DesktopPath) -> (p: DesktopPath)
    ensures
        p@ == bin_dir@.join("../lib"@),
{
    bin_dir.join("../lib")
}

/// What was found around a directory of MariaDB programs.
pub struct LibProbe {
    /// Whether the directory is named `bin`.
    pub named_bin: bool,
    /// The directory that holds it.
    pub parent: Option<DesktopPath>,
    /// Whether that directory holds a directory `lib`.
    pub parent_has_lib: bool,
    /// Whether `../lib`, seen from the directory, is a directory.
    pub sibling_is_dir: bool,
    /// `../lib` in canonical form, where that could be had.
    pub sibling_canonical: Option<DesktopPath>,
}

/// The shared libraries of MariaDB: the `lib` beside a `bin`, else the `../lib` of the
/// directory.
pub open spec fn lib_dir_of(probe: LibProbe) -> Option<PathView> {
    let sibling = if probe.sibling_is_dir {
        path_option(probe.sibling_canonical)
    } else {
        None
    };
    if probe.named_bin {
        match probe.parent {
            None => None,
            Some(p) => if probe.parent_has_lib {
                Some(p@.join("lib"@))
            } else {
                sibling
            },
        }
    } else {
        sibling
    }
}

/// The shared libraries of the MariaDB programs, for the dynamic loader.
pub fn mariadb_lib_dir(probe: LibProbe) -> (dir: Option<DesktopPath>)
    ensures
        path_option(dir) == lib_dir_of(probe),
{
    if probe.named_bin {
        match probe.parent {
            None => {
                return None;
            },
            Some(p) => {
                if probe.parent_has_lib {
                    return Some(lib_in(&p));
                }
            },
        }
    }
    if probe.sibling_is_dir {
        return probe.sibling_canonical;
    }
    None
}

} // verus!
