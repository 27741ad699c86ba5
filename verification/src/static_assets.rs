//! The routes under which embedded files are served.

use crate::text::texts;
use vstd::prelude::*;
use vstd::string::*;

verus! {

/// The base address of the embedded files.
pub open spec fn assets_base_url() -> Seq<char> {
    "/"@
}

/// The routes of a list of embedded files: the base address, then the name
/// of the file, one route for each file and in the order of the files.
pub open spec fn routes_of(files: Seq<String>) -> Seq<Seq<char>> {
    files.map_values(|file: String| assets_base_url() + file@)
}

/// The route under which an embedded file is served.
pub fn asset_route(base_url: &str, file: &str) -> (route: String)
    ensures
        route@ == base_url@ + file@,
{
    base_url.to_owned().concat(file)
}

/// The routes under which the embedded files are served, in the order of
/// the files.
pub fn embedded_routes(files: &Vec<String>) -> (routes: Vec<String>)
    ensures
        texts(routes@) == routes_of(files@),
{
    let base_url = "/";
    let mut routes: Vec<String> = Vec::new();
    let mut i: usize = 0;
    while i < files.len()
        invariant
            i <= files.len(),
            routes@.len() == i,
            base_url@ == assets_base_url(),
            forall|k: int| 0 <= k < i ==> (#[trigger] routes@[k])@ == assets_base_url() + files@[k]@,
        decreases files.len() - i,
    {
        routes.push(asset_route(base_url, files[i].as_str()));
        i += 1;
    }
    assert(texts(routes@) =~= routes_of(files@));
    routes
}

} // verus!
