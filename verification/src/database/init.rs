use vstd::prelude::*;

verus! {

/// The name of the database file.
pub open spec fn database_file() -> Seq<char> {
    "furtherance.db"@
}

/// The name of the settings file.
pub open spec fn settings_file() -> Seq<char> {
    "settings.toml"@
}

/// The path of a file in a directory: the directory, a slash unless the
/// directory is empty or ends in one, and the file's name.
pub open spec fn joined_path(directory: Seq<char>, name: Seq<char>) -> Seq<char> {
    if directory.len() == 0 || directory.last() == '/' {
        directory + name
    } else {
        directory + "/"@ + name
    }
}

/// Joins a file's name to a directory.
pub fn join_path(directory: &str, name: &str) -> (path: String)
    ensures
        path@ == joined_path(directory@, name@),
{
    let n = directory.unicode_len();
    let mut path = String::from_str(directory);
    if n > 0 && directory.get_char(n - 1) != '/' {
        path.append("/");
    }
    path.append(name);
    path
}

/// The path of the database: the file `furtherance.db` in the data
/// directory.
pub fn get_directory(data_path: &str) -> (path: String)
    ensures
        path@ == joined_path(data_path@, database_file()),
{
    join_path(data_path, "furtherance.db")
}

/// The path of the settings: the file `settings.toml` in the data
/// directory.
pub fn get_settings_path(data_path: &str) -> (path: String)
    ensures
        path@ == joined_path(data_path@, settings_file()),
{
    join_path(data_path, "settings.toml")
}

} // verus!
