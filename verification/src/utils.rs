use vstd::prelude::*;

verus! {

/// Joins a home directory and a directory name the way the configuration
/// and cache paths are formed: the name is appended to the home directory
/// as it stands, with no separator added.
pub fn generate_abs_path(home: &str, dir_name: &str) -> (abs_path: String)
    ensures
        abs_path@ == home@ + dir_name@,
{
    let mut abs_path = String::from_str(home);
    abs_path.append(dir_name);
    abs_path
}

} // verus!
