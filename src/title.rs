//! The window title shown for a name that may be a path.
use vstd::prelude::*;

verus! {

/// The final component that `std::path::Path::file_name` finds in a path,
/// or `None` where the path has none (it is empty, a root, or ends in `..`).
pub uninterp spec fn final_component_of(s: Seq<char>) -> Option<Seq<char>>;

/// The text holds no character that a path reads as a separator or, on some
/// platform, as the end of a drive prefix: it is a bare name.
pub open spec fn is_bare_name(s: Seq<char>) -> bool {
    forall|i: int| 0 <= i < s.len() ==> s[i] != '/' && s[i] != '\\' && s[i] != ':'
}

/// The title shown for `s` once its final component is known: that component
/// where there is one, and `s` itself where there is none.
pub open spec fn title_of(s: Seq<char>, file_name: Option<Seq<char>>) -> Seq<char> {
    match file_name {
        Some(n) => n,
        None => s,
    }
}

/// The view of an optional string.
pub open spec fn opt_view(o: Option<String>) -> Option<Seq<char>> {
    match o {
        Some(n) => Some(n@),
        None => None,
    }
}

/// Relies on `std::path::Path::file_name`: the final component of the path,
/// which for a bare name is the name itself (or nothing, for "", "." and "..").
#[verifier::external_body]
fn path_file_name(s: &str) -> (r: Option<String>)
    ensures
        opt_view(r) == final_component_of(s@),
        is_bare_name(s@) ==> (r is None || r->0@ == s@),
{
    std::path::Path::new(s).file_name().map(|n| n.to_string_lossy().into_owned())
}

/// The title for `title` given the final component found in it.
pub fn title_from_file_name(title: &str, file_name: Option<String>) -> (r: String)
    ensures
        r@ == title_of(title@, opt_view(file_name)),
{
    match file_name {
        Some(n) => n,
        None => title.to_owned(),
    }
}

/// The title shown for `title`: its final path component, or `title`
/// unchanged where it has none; a bare name is always kept as it is.
pub fn window_title(title: &str) -> (r: String)
    ensures
        r@ == title_of(title@, final_component_of(title@)),
        is_bare_name(title@) ==> r@ == title@,
{
    let file_name = path_file_name(title);
    title_from_file_name(title, file_name)
}

} // verus!
