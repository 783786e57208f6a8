//! The application archive that the JVM runs.

use vstd::prelude::*;

use crate::bundle::{paths, Probed};
use crate::error::{ErrorKind, ErrorView, ShellError};
use crate::path::{path_option, text_path, DesktopPath, PathView};
use crate::text::{
    chars_of, ends_with, in_order, is_in_order, join, join_from, lemma_order_antisymmetric,
    lemma_order_total, lemma_order_transitive, starts_with, texts,
};

verus! {

/// Whether a file is an archive of the wanted family.
pub open spec fn is_jar(name: Seq<char>, prefix: Seq<char>) -> bool {
    prefix.is_prefix_of(name) && ".jar"@.is_suffix_of(name)
}

/// The last of the archives among the files of a directory, in the order of names.
pub open spec fn last_jar(names: Seq<Seq<char>>, prefix: Seq<char>) -> Option<Seq<char>>
    decreases names.len(),
{
    if names.len() == 0 {
        None
    } else {
        let before = last_jar(names.drop_last(), prefix);
        let name = names.last();
        if is_jar(name, prefix) && (before is None || in_order(before->0, name)) {
            Some(name)
        } else {
            before
        }
    }
}

/// The archive that is chosen is one of the files, and no other archive comes after it;
/// none is chosen only where there is none. Nothing else has these properties.
pub proof fn law_last_jar_is_last(names: Seq<Seq<char>>, prefix: Seq<char>)
    ensures
        match last_jar(names, prefix) {
            Some(jar) => {
                &&& names.contains(jar)
                &&& is_jar(jar, prefix)
                &&& forall|i: int|
                    0 <= i < names.len() && is_jar(names[i], prefix) ==> in_order(
                        #[trigger] names[i],
                        jar,
                    )
                &&& forall|other: Seq<char>|
                    names.contains(other) && is_jar(other, prefix) && (forall|i: int|
                        0 <= i < names.len() && is_jar(names[i], prefix) ==> in_order(
                            #[trigger] names[i],
                            other,
                        )) ==> other == jar
            },
            None => forall|i: int| 0 <= i < names.len() ==> !is_jar(#[trigger] names[i], prefix),
        },
    decreases names.len(),
{
    if names.len() > 0 {
        let rest = names.drop_last();
        let name = names.last();
        law_last_jar_is_last(rest, prefix);
        assert forall|i: int| 0 <= i < names.len() && i != names.len() - 1 implies names[i]
            == rest[i] by {}
        match last_jar(names, prefix) {
            Some(jar) => {
                match last_jar(rest, prefix) {
                    Some(before) => {
                        lemma_order_total(before, name);
                        let k = choose|k: int| 0 <= k < rest.len() && rest[k] == before;
                        assert(names[k] == before);
                        assert forall|i: int|
                            0 <= i < names.len() && is_jar(names[i], prefix) implies in_order(
                            #[trigger] names[i],
                            jar,
                        ) by {
                            if i < rest.len() {
                                assert(in_order(rest[i], before));
                                if jar == name && in_order(before, name) {
                                    lemma_order_transitive(rest[i], before, name);
                                }
                            } else {
                                lemma_order_total(name, name);
                            }
                        }
                    },
                    None => {
                        lemma_order_total(name, name);
                    },
                }
                assert(names.contains(jar)) by {
                    if jar == name {
                        assert(names[names.len() - 1] == jar);
                    }
                }
                assert forall|other: Seq<char>|
                    names.contains(other) && is_jar(other, prefix) && (forall|i: int|
                        0 <= i < names.len() && is_jar(names[i], prefix) ==> in_order(
                            #[trigger] names[i],
                            other,
                        )) implies other == jar by {
                    let k = choose|k: int| 0 <= k < names.len() && names[k] == jar;
                    assert(in_order(names[k], other));
                    let j = choose|j: int| 0 <= j < names.len() && names[j] == other;
                    assert(in_order(names[j], jar));
                    lemma_order_antisymmetric(jar, other);
                }
            },
            None => {
                assert forall|i: int| 0 <= i < names.len() implies !is_jar(
                    #[trigger] names[i],
                    prefix,
                ) by {
                    if i < rest.len() {
                        assert(!is_jar(rest[i], prefix));
                    }
                }
            },
        }
    }
}

/// The last of the archives among the files of a directory, in the order of names.
pub fn first_jar_in(names: &Vec<String>, prefix: &str) -> (jar: Option<String>)
    ensures
        last_jar(texts(names@), prefix@) == (match jar {
            Some(j) => Some(j@),
            None => None,
        }),
{
    let wanted = chars_of(prefix);
    let ending = chars_of(".jar");
    let mut best: Option<Vec<char>> = None;
    let mut jar: Option<String> = None;
    let mut i: usize = 0;
    let ghost all = texts(names@);
    assert(all.take(0) == Seq::<Seq<char>>::empty());
    while i < names.len()
        invariant
            i <= names@.len(),
            all == texts(names@),
            wanted@ == prefix@,
            ending@ == ".jar"@,
            match jar {
                Some(j) => best is Some && best->0@ == j@ && last_jar(
                    all.take(i as int),
                    prefix@,
                ) == Some(j@),
                None => best is None && last_jar(all.take(i as int), prefix@) is None,
            },
        decreases names@.len() - i,
    {
        let name = chars_of(names[i].as_str());
        proof {
            assert(all.take(i + 1).drop_last() == all.take(i as int));
            assert(all.take(i + 1).last() == names@[i as int]@);
        }
        let later = match &best {
            Some(b) => is_in_order(b.as_slice(), name.as_slice()),
            None => true,
        };
        if starts_with(name.as_slice(), wanted.as_slice()) && ends_with(
            name.as_slice(),
            ending.as_slice(),
        ) && later {
            jar = Some(names[i].clone());
            best = Some(name);
        }
        i += 1;
    }
    assert(all.take(i as int) == all);
    jar
}

/// Where archives may be: among the resources beside the program, in a directory beside
/// it, next to the program itself, or where the backend is built.
pub open spec fn jar_places(exe_dir: Option<PathView>, build_dir: PathView) -> Seq<PathView> {
    let built = build_dir.join("../../backend/build/libs"@);
    match exe_dir {
        Some(d) => seq![
            d.join("../Resources/jar"@),
            d.join("jar"@),
            d,
            d.join("../../../backend/build/libs"@),
            built,
        ],
        None => seq![built],
    }
}

/// Where archives may be, the best place first.
pub fn jar_candidates(exe_dir: Option<DesktopPath>, build_dir: &DesktopPath) -> (list: Vec<
    DesktopPath,
>)
    ensures
        paths(list@) == jar_places(path_option(exe_dir), build_dir@),
{
    let mut list: Vec<DesktopPath> = Vec::new();
    if let Some(d) = &exe_dir {
        list.push(d.join("../Resources/jar"));
        list.push(d.join("jar"));
        list.push(d.clone());
        list.push(d.join("../../../backend/build/libs"));
    }
    list.push(build_dir.join("../../backend/build/libs"));
    assert(paths(list@) =~= jar_places(path_option(exe_dir), build_dir@));
    list
}

/// The archive among the resources.
pub fn bundled_jar(resources: &DesktopPath) -> (p: DesktopPath)
    ensures
        p@ == resources@.join("jar/kiosk.jar"@),
{
    resources.join("jar/kiosk.jar")
}

/// The files of a directory.
pub struct Listing {
    /// The directory in canonical form.
    pub dir: DesktopPath,
    pub names: Vec<String>,
}

/// A directory where archives may be.
pub struct JarDir {
    /// The path, as it is shown to the user.
    pub shown: String,
    /// Its files, where they could be listed.
    pub listing: Option<Listing>,
}

impl JarDir {
    /// The archive that the directory offers.
    pub open spec fn jar(&self) -> Option<PathView> {
        match self.listing {
            Some(l) => match last_jar(texts(l.names@), "kiosk-desktop"@) {
                Some(name) => Some(l.dir@.join(name)),
                None => None,
            },
            None => None,
        }
    }
}

/// The archive of the first directory that offers one.
pub open spec fn first_jar(dirs: Seq<JarDir>) -> Option<PathView>
    decreases dirs.len(),
{
    if dirs.len() == 0 {
        None
    } else if dirs[0].jar() is Some {
        dirs[0].jar()
    } else {
        first_jar(dirs.drop_first())
    }
}

/// The paths of directories, as they are shown to the user.
pub open spec fn shown_dirs(dirs: Seq<JarDir>) -> Seq<Seq<char>> {
    Seq::new(dirs.len(), |i: int| dirs[i].shown@)
}

/// An archive that the user asked for.
pub struct AskedJar {
    pub path: String,
    pub exists: bool,
}

/// The archive to run: the one that the user asked for, which must exist; else the one
/// among the resources, where it exists; else that of the first directory that offers
/// one.
pub open spec fn jar_path(
    asked: Option<AskedJar>,
    bundled: Option<Probed>,
    dirs: Seq<JarDir>,
) -> Result<PathView, ErrorView> {
    match asked {
        Some(a) => if a.exists {
            Ok(text_path(a.path@))
        } else {
            Err(
                ErrorView {
                    kind: ErrorKind::NotFound,
                    message: "APP_DESKTOP_JAR="@ + a.path@ + " does not exist"@,
                },
            )
        },
        None => if bundled is Some && bundled->0.exists {
            Ok(bundled->0.path@)
        } else {
            match first_jar(dirs) {
                Some(p) => Ok(p),
                None => Err(
                    ErrorView {
                        kind: ErrorKind::NotFound,
                        message: "kiosk-desktop-*.jar not found. Build it with `cd backend && ./gradlew bootJar -Pdesktop=true`, or set APP_DESKTOP_JAR. Searched: "@
                            + join(shown_dirs(dirs), ", "@),
                    },
                ),
            }
        },
    }
}

/// The directory of the program is one of the places where archives are looked for.
pub proof fn law_program_dir_is_searched(exe_dir: PathView, build_dir: PathView)
    ensures
        jar_places(Some(exe_dir), build_dir).contains(exe_dir),
{
    assert(jar_places(Some(exe_dir), build_dir)[2] == exe_dir);
}

/// An archive that a directory offers is run, unless a better place has one: the user has
/// asked for none, there is none among the resources, and no directory before it offers
/// any.
pub proof fn law_offered_jar_is_found(bundled: Option<Probed>, dirs: Seq<JarDir>, i: int)
    requires
        bundled is None || !bundled->0.exists,
        0 <= i < dirs.len(),
        dirs[i].jar() is Some,
        forall|k: int| 0 <= k < i ==> (#[trigger] dirs[k]).jar() is None,
    ensures
        jar_path(None, bundled, dirs) == Ok::<PathView, ErrorView>(dirs[i].jar()->0),
{
    lemma_first_jar(dirs, i);
}

proof fn lemma_first_jar(dirs: Seq<JarDir>, i: int)
    requires
        0 <= i < dirs.len(),
        dirs[i].jar() is Some,
        forall|k: int| 0 <= k < i ==> (#[trigger] dirs[k]).jar() is None,
    ensures
        first_jar(dirs) == dirs[i].jar(),
    decreases i,
{
    if i > 0 {
        let rest = dirs.drop_first();
        assert(dirs[0].jar() is None);
        assert(rest[i - 1] == dirs[i]);
        assert forall|k: int| 0 <= k < i - 1 implies (#[trigger] rest[k]).jar() is None by {
            assert(rest[k] == dirs[k + 1]);
        }
        lemma_first_jar(rest, i - 1);
    }
}

fn jar_in(dir: &JarDir) -> (p: Option<DesktopPath>)
    ensures
        path_option(p) == dir.jar(),
{
    match &dir.listing {
        Some(l) => match first_jar_in(&l.names, "kiosk-desktop") {
            Some(name) => Some(l.dir.join(name.as_str())),
            None => None,
        },
        None => None,
    }
}

fn not_found(dirs: &Vec<JarDir>) -> (e: ShellError)
    ensures
        e@ == (ErrorView {
            kind: ErrorKind::NotFound,
            message: "kiosk-desktop-*.jar not found. Build it with `cd backend && ./gradlew bootJar -Pdesktop=true`, or set APP_DESKTOP_JAR. Searched: "@
                + join(shown_dirs(dirs@), ", "@),
        }),
{
    let mut shown: Vec<String> = Vec::new();
    let mut i: usize = 0;
    while i < dirs.len()
        invariant
            i <= dirs@.len(),
            shown@.len() == i,
            forall|j: int| 0 <= j < i ==> shown@[j]@ == dirs@[j].shown@,
        decreases dirs@.len() - i,
    {
        shown.push(dirs[i].shown.clone());
        i += 1;
    }
    assert(texts(shown@).skip(0) == shown_dirs(dirs@));
    let list = join_from(&shown, 0, ", ");
    let mut message: String =
        "kiosk-desktop-*.jar not found. Build it with `cd backend && ./gradlew bootJar -Pdesktop=true`, or set APP_DESKTOP_JAR. Searched: ".to_owned();
    message.append(list.as_str());
    ShellError { kind: ErrorKind::NotFound, message }
}

/// The archive to run.
pub fn resolve_jar_path(
    asked: Option<AskedJar>,
    bundled: Option<Probed>,
    dirs: &Vec<JarDir>,
) -> (r: Result<DesktopPath, ShellError>)
    ensures
        match r {
            Ok(p) => jar_path(asked, bundled, dirs@) == Ok::<PathView, ErrorView>(p@),
            Err(e) => jar_path(asked, bundled, dirs@) == Err::<PathView, ErrorView>(e@),
        },
{
    if let Some(a) = asked {
        if a.exists {
            return Ok(DesktopPath::text(a.path.as_str()));
        }
        let mut message: String = "APP_DESKTOP_JAR=".to_owned();
        message.append(a.path.as_str());
        message.append(" does not exist");
        return Err(ShellError { kind: ErrorKind::NotFound, message });
    }
    if let Some(b) = bundled {
        if b.exists {
            return Ok(b.path);
        }
    }
    let mut i: usize = 0;
    assert(dirs@.skip(0) == dirs@);
    while i < dirs.len()
        invariant
            i <= dirs@.len(),
            asked is None,
            !(bundled is Some && bundled->0.exists),
            first_jar(dirs@) == first_jar(dirs@.skip(i as int)),
        decreases dirs@.len() - i,
    {
        assert(dirs@.skip(i as int)[0] == dirs@[i as int]);
        assert(dirs@.skip(i as int).drop_first() == dirs@.skip(i + 1));
        if let Some(p) = jar_in(&dirs[i]) {
            return Ok(p);
        }
        i += 1;
    }
    Err(not_found(dirs))
}

} // verus!
