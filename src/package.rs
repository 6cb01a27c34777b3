use vstd::prelude::*;
use vstd::string::*;

verus! {

/// The registry name of a package published under an organisation.
pub fn full_name(org: &str, name: &str) -> (r: String)
    ensures
        r@ == org@ + "/"@ + name@,
{
    let mut s = String::from_str(org);
    s.append("/");
    s.append(name);
    s
}

/// The message returned when no package has the given name and version.
pub fn not_found_message(name: &str, version: &str) -> (r: String)
    ensures
        r@ == "No package found where name = `"@ + name@ + "` & version = `"@ + version@ + "`"@,
{
    let mut s = String::from_str("No package found where name = `");
    s.append(name);
    s.append("` & version = `");
    s.append(version);
    s.append("`");
    s
}

} // verus!
