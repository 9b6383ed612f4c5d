//! Paths as text: joining, the user's home and the backend's data directory.

use vstd::prelude::*;
use vstd::string::*;

verus! {

/// `rel` below `base`: the two are put together with one `/` between them,
/// which is left out where `base` is empty or already ends in one.
pub open spec fn joined(base: Seq<char>, rel: Seq<char>) -> Seq<char> {
    if base.len() == 0 || base.last() == '/' {
        base + rel
    } else {
        base + seq!['/'] + rel
    }
}

/// The directory that stands for the user's home: the one that was found,
/// or the current directory where none was.
pub open spec fn home_or_current_text(found: Option<Seq<char>>) -> Seq<char> {
    match found {
        Some(home) => home,
        None => "."@,
    }
}

/// The backend's data directory below the home directory `home`.
pub open spec fn data_dir_text(home: Seq<char>) -> Seq<char> {
    joined(home, ".n8n"@)
}

/// Joins the relative path `rel` onto `base`.
pub fn join_path(base: &str, rel: &str) -> (path: String)
    ensures
        path@ == joined(base@, rel@),
{
    let n = base.unicode_len();
    let mut path = String::from_str(base);
    if n > 0 && base.get_char(n - 1) != '/' {
        proof {
            reveal_strlit("/");
        }
        path.append("/");
    }
    path.append(rel);
    path
}

/// Calls `dirs::home_dir` and hands back the directory as text (names that
/// are not Unicode are rendered lossily). What it finds depends on the
/// user's environment, so nothing is claimed of the result.
#[verifier::external_body]
fn find_home_dir() -> (found: Option<String>) {
    dirs::home_dir().map(|p| p.to_string_lossy().into_owned())
}

/// Picks the home directory out of a lookup's result.
pub fn home_or_current(found: Option<String>) -> (home: String)
    ensures
        home@ == home_or_current_text(
            match found {
                Some(h) => Some(h@),
                None => None,
            },
        ),
{
    match found {
        Some(home) => home,
        None => String::from_str("."),
    }
}

/// The user's home directory, or the current directory where the user has
/// none.
pub fn user_home() -> (home: String) {
    home_or_current(find_home_dir())
}

/// The backend's data directory below `home`.
pub fn data_dir_in(home: &str) -> (dir: String)
    ensures
        dir@ == data_dir_text(home@),
{
    join_path(home, ".n8n")
}

/// The backend's data directory: `.n8n` below the user's home.
pub fn n8n_data_dir() -> (dir: String)
    ensures
        exists|home: Seq<char>| dir@ == #[trigger] data_dir_text(home),
{
    let home = user_home();
    data_dir_in(home.as_str())
}

} // verus!
