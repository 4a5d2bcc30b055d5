//! Where the command line keeps its database.
use crate::text;
use vstd::prelude::*;
use vstd::string::*;

verus! {

// ---------------------------------------------------------------------------------------------
// The home directory
// ---------------------------------------------------------------------------------------------

/// Why a path cannot be found.
#[derive(Clone, Copy, Debug, PartialEq, Eq, Structural)]
pub enum PathError {
    NoHomeDirectory,
}

impl PathError {
    /// The message for the user.
    pub fn message(self) -> (r: String)
        ensures
            r@ == "无法获取用户主目录"@,
    {
        "无法获取用户主目录".to_owned()
    }
}

/// The home directory that the environment names.
pub open spec fn home_of(home: Option<Seq<char>>, user_profile: Option<Seq<char>>) -> Option<
    Seq<char>,
> {
    match home {
        Some(_) => home,
        None => user_profile,
    }
}

/// The home directory: what `HOME` says, else what `USERPROFILE` says.
pub fn home_dir(home: Option<String>, user_profile: Option<String>) -> (r: Result<
    String,
    PathError,
>)
    ensures
        match home_of(text::text_of(home), text::text_of(user_profile)) {
            Some(dir) => r matches Ok(d) && d@ == dir,
            None => r matches Err(e) && e == PathError::NoHomeDirectory,
        },
{
    match home {
        Some(dir) => Ok(dir),
        None => match user_profile {
            Some(dir) => Ok(dir),
            None => Err(PathError::NoHomeDirectory),
        },
    }
}

/// The path begins with `~`.
pub open spec fn is_home_path(path: Seq<char>) -> bool {
    path.len() > 0 && path[0] == '~'
}

/// The path with the home directory in place of a leading `~`.
///
/// `home` and `user_profile` are what the environment says under `HOME` and `USERPROFILE`; a
/// path without a leading `~` needs neither.
pub fn expand_home_dir(path: &str, home: Option<String>, user_profile: Option<String>) -> (r:
    Result<String, PathError>)
    ensures
        if is_home_path(path@) {
            match home_of(text::text_of(home), text::text_of(user_profile)) {
                Some(dir) => r matches Ok(p) && p@ == dir + path@.skip(1),
                None => r matches Err(e) && e == PathError::NoHomeDirectory,
            }
        } else {
            r matches Ok(p) && p@ == path@
        },
{
    proof {
        reveal_strlit("~");
        assert("~"@ == seq!['~']);
        if path@.len() > 0 {
            assert(path@.subrange(0, 1)[0] == path@[0]);
            assert(is_home_path(path@) ==> path@.subrange(0, 1) =~= "~"@);
        }
    }
    if text::starts_with(path, "~") {
        match home_dir(home, user_profile) {
            Ok(dir) => {
                let rest = path.substring_char(1, path.unicode_len());
                proof {
                    assert(rest@ == path@.skip(1));
                }
                Ok(text::joined(dir.as_str(), rest))
            },
            Err(e) => Err(e),
        }
    } else {
        Ok(path.to_owned())
    }
}

// ---------------------------------------------------------------------------------------------
// The default database
// ---------------------------------------------------------------------------------------------

/// The kind of system that the command line is installed on.
#[derive(Clone, Copy, Debug, PartialEq, Eq, Structural)]
pub enum HostSystem {
    MacOs,
    Windows,
    Other,
}

/// The texts of a list.
pub open spec fn texts(list: Seq<String>) -> Seq<Seq<char>> {
    list.map_values(|s: String| s@)
}

/// The components of a list of paths.
pub open spec fn paths(list: Seq<Vec<String>>) -> Seq<Seq<Seq<char>>> {
    list.map_values(|p: Vec<String>| texts(p@))
}

/// Where the database may lie, each place as the components of its path, the first choice
/// first.
pub open spec fn default_places(
    system: HostSystem,
    home: Seq<char>,
    local_app_data: Option<Seq<char>>,
    xdg_data_home: Option<Seq<char>>,
) -> Seq<Seq<Seq<char>>> {
    match system {
        HostSystem::MacOs => seq![
            seq![home, "Library"@, "Application Support"@, "kiro-cli"@, "data.sqlite3"@],
        ],
        HostSystem::Windows => match local_app_data {
            Some(dir) => seq![seq![dir, "Kiro-Cli"@, "data.sqlite3"@]],
            None => seq![],
        },
        HostSystem::Other => {
            let at_home = seq![home, ".local"@, "share"@, "kiro-cli"@, "data.sqlite3"@];
            match xdg_data_home {
                Some(dir) => seq![seq![dir, "kiro-cli"@, "data.sqlite3"@], at_home],
                None => seq![at_home],
            }
        },
    }
}

/// Where the database may lie, each place as the components of its path, the first choice
/// first. The last two arguments are what the environment says under `LOCALAPPDATA` and
/// `XDG_DATA_HOME`.
pub fn default_path_candidates(
    system: HostSystem,
    home: &str,
    local_app_data: Option<&str>,
    xdg_data_home: Option<&str>,
) -> (r: Vec<Vec<String>>)
    ensures
        paths(r@) == default_places(
            system,
            home@,
            text::str_of(local_app_data),
            text::str_of(xdg_data_home),
        ),
{
    let mut r: Vec<Vec<String>> = Vec::new();
    match system {
        HostSystem::MacOs => {
            let mut p: Vec<String> = Vec::new();
            p.push(home.to_owned());
            p.push("Library".to_owned());
            p.push("Application Support".to_owned());
            p.push("kiro-cli".to_owned());
            p.push("data.sqlite3".to_owned());
            proof {
                assert(texts(p@) =~= seq![
                    home@,
                    "Library"@,
                    "Application Support"@,
                    "kiro-cli"@,
                    "data.sqlite3"@,
                ]);
            }
            r.push(p);
        },
        HostSystem::Windows => match local_app_data {
            Some(dir) => {
                let mut p: Vec<String> = Vec::new();
                p.push(dir.to_owned());
                p.push("Kiro-Cli".to_owned());
                p.push("data.sqlite3".to_owned());
                proof {
                    assert(texts(p@) =~= seq![dir@, "Kiro-Cli"@, "data.sqlite3"@]);
                }
                r.push(p);
            },
            None => {},
        },
        HostSystem::Other => {
            match xdg_data_home {
                Some(dir) => {
                    let mut p: Vec<String> = Vec::new();
                    p.push(dir.to_owned());
                    p.push("kiro-cli".to_owned());
                    p.push("data.sqlite3".to_owned());
                    proof {
                        assert(texts(p@) =~= seq![dir@, "kiro-cli"@, "data.sqlite3"@]);
                    }
                    r.push(p);
                },
                None => {},
            }
            let mut p: Vec<String> = Vec::new();
            p.push(home.to_owned());
            p.push(".local".to_owned());
            p.push("share".to_owned());
            p.push("kiro-cli".to_owned());
            p.push("data.sqlite3".to_owned());
            proof {
                assert(texts(p@) =~= seq![
                    home@,
                    ".local"@,
                    "share"@,
                    "kiro-cli"@,
                    "data.sqlite3"@,
                ]);
            }
            r.push(p);
        },
    }
    proof {
        assert(paths(r@) =~= default_places(
            system,
            home@,
            text::str_of(local_app_data),
            text::str_of(xdg_data_home),
        ));
    }
    r
}

/// A path, and whether there is a file.
#[derive(Debug, PartialEq, Eq)]
pub struct CheckedPath {
    pub path: String,
    pub exists: bool,
}

/// There is a file at the path at position `i`, and at none before it.
pub open spec fn is_first_file(candidates: Seq<CheckedPath>, i: int) -> bool {
    &&& 0 <= i < candidates.len()
    &&& candidates[i].exists
    &&& forall|j: int| 0 <= j < i ==> !(#[trigger] candidates[j]).exists
}

/// The first path with a file; empty when there is none.
pub fn get_kiro_cli_default_path(candidates: &Vec<CheckedPath>) -> (r: String)
    ensures
        (exists|i: int| 0 <= i < candidates.len() && (#[trigger] candidates[i]).exists) ==> exists|
            i: int,
        |
            {
                &&& 0 <= i < candidates.len()
                &&& (#[trigger] candidates[i]).exists
                &&& r@ == candidates[i].path@
                &&& forall|j: int| 0 <= j < i ==> !(#[trigger] candidates[j]).exists
            },
        (forall|i: int| 0 <= i < candidates.len() ==> !(#[trigger] candidates[i]).exists) ==> r@
            == Seq::<char>::empty(),
        forall|i: int| #[trigger] is_first_file(candidates@, i) ==> r@ == candidates@[i].path@,
{
    let mut i: usize = 0;
    while i < candidates.len()
        invariant
            i <= candidates.len(),
            forall|j: int| 0 <= j < i ==> !(#[trigger] candidates[j]).exists,
        decreases candidates.len() - i,
    {
        if candidates[i].exists {
            return candidates[i].path.clone();
        }
        i = i + 1;
    }
    String::new()
}

// ---------------------------------------------------------------------------------------------
// Logging out
// ---------------------------------------------------------------------------------------------

/// A logout took a database from the token keys `before` to the token keys `after` and reported
/// `cleared`: without a database there is nothing to clear, and with one every key is cleared and
/// counted.
pub open spec fn is_logout(
    before: Option<Set<Seq<char>>>,
    after: Option<Set<Seq<char>>>,
    cleared: nat,
) -> bool {
    match before {
        Some(keys) => after == Some(Set::<Seq<char>>::empty()) && cleared == keys.len(),
        None => after is None && cleared == 0,
    }
}

/// What logging out reports when there is nothing to do: without a database nobody is logged
/// in, and no key is cleared. Nothing is returned when the keys have to be cleared, which is up
/// to the database.
pub fn logout_without_database(database_exists: bool) -> (r: Option<usize>)
    ensures
        r matches Some(cleared) ==> is_logout(None, None, cleared as nat),
        r == if database_exists {
            None::<usize>
        } else {
            Some(0usize)
        },
{
    if database_exists {
        None
    } else {
        Some(0)
    }
}

// ---------------------------------------------------------------------------------------------
// Laws
// ---------------------------------------------------------------------------------------------

/// Every place that is tried ends in the name of the database file, and every system but Windows
/// has one below the home directory to fall back on.
pub proof fn law_places_name_the_database(
    system: HostSystem,
    home: Seq<char>,
    local_app_data: Option<Seq<char>>,
    xdg_data_home: Option<Seq<char>>,
)
    ensures
        forall|i: int|
            0 <= i < default_places(system, home, local_app_data, xdg_data_home).len() ==> (
            #[trigger] default_places(system, home, local_app_data, xdg_data_home)[i]).last()
                == "data.sqlite3"@,
        system != HostSystem::Windows ==> {
            &&& default_places(system, home, local_app_data, xdg_data_home).len() > 0
            &&& default_places(system, home, local_app_data, xdg_data_home).last()[0] == home
        },
{
}

/// A second logout clears nothing and leaves the database as the first one did.
pub proof fn law_second_logout_clears_nothing(
    before: Option<Set<Seq<char>>>,
    after: Option<Set<Seq<char>>>,
    again: Option<Set<Seq<char>>>,
    cleared: nat,
    cleared_again: nat,
)
    requires
        is_logout(before, after, cleared),
        is_logout(after, again, cleared_again),
    ensures
        cleared_again == 0,
        again == after,
{
}

/// `HOME` names the home directory wherever it is set, and `USERPROFILE` only where it is not.
pub proof fn law_home_comes_first(home: Option<Seq<char>>, user_profile: Option<Seq<char>>)
    ensures
        home is Some ==> home_of(home, user_profile) == home,
        home is None ==> home_of(home, user_profile) == user_profile,
{
}

/// A path is below the home directory exactly when it is `~` and something after it.
pub proof fn law_home_path_begins_with_a_tilde(path: Seq<char>)
    ensures
        is_home_path(path) <==> exists|rest: Seq<char>| path == #[trigger] ("~"@ + rest),
{
    reveal_strlit("~");
    assert("~"@ == seq!['~']);
    if is_home_path(path) {
        assert(path == "~"@ + path.skip(1));
    }
}

/// The places: below the home directory on macOS; below `LOCALAPPDATA`, or nowhere, on Windows;
/// below `XDG_DATA_HOME`, where it is set, and then below the home directory on other systems.
pub proof fn law_places_are_those_of_the_system(
    home: Seq<char>,
    local_app_data: Option<Seq<char>>,
    xdg_data_home: Option<Seq<char>>,
)
    ensures
        ({
            let mac = default_places(HostSystem::MacOs, home, local_app_data, xdg_data_home);
            &&& mac.len() == 1
            &&& mac[0] == seq![
                home,
                "Library"@,
                "Application Support"@,
                "kiro-cli"@,
                "data.sqlite3"@,
            ]
        }),
        ({
            let windows = default_places(HostSystem::Windows, home, local_app_data, xdg_data_home);
            &&& local_app_data is None ==> windows.len() == 0
            &&& local_app_data matches Some(dir) ==> windows.len() == 1 && windows[0] == seq![
                dir,
                "Kiro-Cli"@,
                "data.sqlite3"@,
            ]
        }),
        ({
            let other = default_places(HostSystem::Other, home, local_app_data, xdg_data_home);
            &&& other.last() == seq![
                home,
                ".local"@,
                "share"@,
                "kiro-cli"@,
                "data.sqlite3"@,
            ]
            &&& xdg_data_home is None ==> other.len() == 1
            &&& xdg_data_home matches Some(dir) ==> other.len() == 2 && other[0] == seq![
                dir,
                "kiro-cli"@,
                "data.sqlite3"@,
            ]
        }),
{
}

/// A path with a leading `~` becomes what follows it below the home directory, and without a home
/// directory it cannot be found; any other path stays as it is.
pub proof fn law_tilde_stands_for_the_home_directory(
    path: &str,
    home: Option<String>,
    user_profile: Option<String>,
    r: Result<String, PathError>,
)
    requires
        call_ensures(expand_home_dir, (path, home, user_profile), r),
    ensures
        forall|rest: Seq<char>|
            path@ == #[trigger] ("~"@ + rest) ==> {
                &&& home matches Some(dir) ==> r is Ok && r->Ok_0@ == dir@ + rest
                &&& home is None ==> (user_profile matches Some(dir) ==> r is Ok && r->Ok_0@
                    == dir@ + rest)
                &&& home is None && user_profile is None ==> r is Err
            },
        (forall|rest: Seq<char>| path@ != #[trigger] ("~"@ + rest)) ==> r is Ok && r->Ok_0@
            == path@,
{
    law_home_path_begins_with_a_tilde(path@);
    reveal_strlit("~");
    assert("~"@ == seq!['~']);
    assert forall|rest: Seq<char>| path@ == #[trigger] ("~"@ + rest) implies path@.skip(1)
        == rest by {
        assert(("~"@ + rest).skip(1) =~= rest);
    }
}

/// The home directory is what `HOME` says, else what `USERPROFILE` says, and without both it is an
/// error.
pub proof fn law_home_directory_is_named(
    home: Option<String>,
    user_profile: Option<String>,
    r: Result<String, PathError>,
)
    requires
        call_ensures(home_dir, (home, user_profile), r),
    ensures
        home matches Some(dir) ==> r is Ok && r->Ok_0@ == dir@,
        home is None ==> (user_profile matches Some(dir) ==> r is Ok && r->Ok_0@ == dir@),
        home is None && user_profile is None ==> r is Err,
{
}

/// The default database is the first of the places with a file, and no text at all where none has
/// one.
pub proof fn law_first_file_is_the_default(candidates: Vec<CheckedPath>, r: String)
    requires
        call_ensures(get_kiro_cli_default_path, (&candidates,), r),
    ensures
        forall|i: int|
            0 <= i < candidates@.len() && (#[trigger] candidates@[i]).exists && (forall|j: int|
                0 <= j < i ==> !(#[trigger] candidates@[j]).exists) ==> r@
                == candidates@[i].path@,
        (forall|i: int| 0 <= i < candidates@.len() ==> !(#[trigger] candidates@[i]).exists)
            ==> r@.len() == 0,
{
    assert forall|i: int|
        0 <= i < candidates@.len() && (#[trigger] candidates@[i]).exists && (forall|j: int|
            0 <= j < i ==> !(#[trigger] candidates@[j]).exists) implies r@
        == candidates@[i].path@ by {
        assert(is_first_file(candidates@, i));
    }
}

/// Without a database a logout has cleared nothing; with one, clearing is still to be done.
pub proof fn law_nothing_is_cleared_without_a_database(r: Option<usize>, s: Option<usize>)
    requires
        call_ensures(logout_without_database, (false,), r),
        call_ensures(logout_without_database, (true,), s),
    ensures
        r == Some(0usize),
        s is None,
{
}

} // verus!
