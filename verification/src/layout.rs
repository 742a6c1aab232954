//! Where the manager keeps its files: everything lies under `.pvm` in the
//! user's home.
//!
//! A path is given by its pieces, first to last. Putting the pieces together
//! is left to the platform's own path type.

use vstd::prelude::*;

verus! {

/// The pieces of the path that `segments` lead to from the manager's root in
/// `home`: the home, the root, then the segments in their order.
pub open spec fn path_under_root(home: Seq<char>, segments: Seq<Seq<char>>) -> Seq<Seq<char>> {
    seq![home, ".pvm"@] + segments
}

/// The pieces of the path to what `segments` name under the manager's root.
pub fn pvm_path(home: String, segments: Vec<String>) -> (pieces: Vec<String>)
    ensures
        pieces.deep_view() == path_under_root(home@, segments.deep_view()),
{
    let mut pieces: Vec<String> = Vec::new();
    pieces.push(home);
    pieces.push(".pvm".to_owned());
    let mut rest = segments;
    pieces.append(&mut rest);
    assert(pieces.deep_view() =~= path_under_root(home@, segments.deep_view()));
    pieces
}

/// The pieces of the path to the folder that sources are built in.
pub fn pvm_build_path(home: String) -> (pieces: Vec<String>)
    ensures
        pieces.deep_view() == seq![home@, ".pvm"@, "builds"@],
{
    let mut segments: Vec<String> = Vec::new();
    segments.push("builds".to_owned());
    let pieces = pvm_path(home, segments);
    assert(pieces.deep_view() =~= seq![home@, ".pvm"@, "builds"@]);
    pieces
}

/// The pieces of the path to the folder that installed versions are kept in.
pub fn pvm_versions_path(home: String) -> (pieces: Vec<String>)
    ensures
        pieces.deep_view() == seq![home@, ".pvm"@, "versions"@],
{
    let mut segments: Vec<String> = Vec::new();
    segments.push("versions".to_owned());
    let pieces = pvm_path(home, segments);
    assert(pieces.deep_view() =~= seq![home@, ".pvm"@, "versions"@]);
    pieces
}

} // verus!
