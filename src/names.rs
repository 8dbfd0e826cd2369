use vstd::prelude::*;

verus! {

/// The first byte of a hidden entry's name.
pub const HIDDEN_MARKER: u8 = 0x2e;

/// The byte between a directory's path and a child's name.
pub const SEPARATOR: u8 = 0x2f;

/// A name is hidden when its first byte is the hidden marker.
pub open spec fn is_hidden_name(name: Seq<u8>) -> bool {
    name.len() > 0 && name[0] == HIDDEN_MARKER
}

/// Whether `name` starts with the hidden marker.
pub fn is_hidden(name: &[u8]) -> (r: bool)
    ensures
        r == is_hidden_name(name@),
{
    name.len() > 0 && name[0] == HIDDEN_MARKER
}

/// Whether a recursive walk enters an entry and watches it: the entry must be
/// a directory, and its name must not be hidden unless it is the root of the
/// walk, which is watched whenever it is a directory.
pub open spec fn walk_enters(name: Seq<u8>, is_dir: bool, is_root: bool) -> bool {
    is_dir && (is_root || !is_hidden_name(name))
}

/// Whether a recursive walk enters the entry `name`; the walk does not
/// descend below an entry that it does not enter.
pub fn enters_entry(name: &[u8], is_dir: bool, is_root: bool) -> (r: bool)
    ensures
        r == walk_enters(name@, is_dir, is_root),
{
    is_dir && (is_root || !is_hidden(name))
}

/// The path of the entry `name` inside the directory at `parent`.
pub open spec fn child_path_of(parent: Seq<u8>, name: Seq<u8>) -> Seq<u8> {
    parent + seq![SEPARATOR] + name
}

/// Joins a directory's path and a child's name with one separator.
pub fn child_path(parent: &[u8], name: &[u8]) -> (r: Vec<u8>)
    ensures
        r@ == child_path_of(parent@, name@),
{
    let mut out: Vec<u8> = Vec::new();
    out.extend_from_slice(parent);
    out.push(SEPARATOR);
    out.extend_from_slice(name);
    assert(out@ =~= child_path_of(parent@, name@));
    out
}

} // verus!
