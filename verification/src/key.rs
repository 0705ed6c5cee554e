//! Key addressing: the storage key of an object and the prefix of a listing.

use vstd::prelude::*;
use vstd::string::StringExecFns;

verus! {

/// The separator between a logical path and a file name.
pub open spec fn separator() -> Seq<char> {
    seq!['/']
}

/// The storage key of the object `name` under the optional logical `path`.
pub open spec fn derived_key(path: Option<Seq<char>>, name: Seq<char>) -> Seq<char> {
    match path {
        Some(p) => p + separator() + name,
        None => name,
    }
}

/// The model of an optional string slice.
pub open spec fn path_view(path: Option<&str>) -> Option<Seq<char>> {
    match path {
        Some(p) => Some(p@),
        None => None,
    }
}

/// The prefix shared by the keys of every object under the optional logical
/// `path`: the path and a separator, or nothing where no path is given.
pub open spec fn listing_prefix(path: Option<Seq<char>>) -> Seq<char> {
    match path {
        Some(p) => p + separator(),
        None => Seq::empty(),
    }
}

/// Whether a listing by `prefix` holds `key`.
pub open spec fn in_scope(key: Seq<char>, prefix: Seq<char>) -> bool {
    prefix.is_prefix_of(key)
}

/// Builds the storage key of `name` under `path`.
pub fn derive_key(path: Option<&str>, name: &str) -> (key: String)
    ensures
        key@ == derived_key(path_view(path), name@),
{
    match path {
        Some(p) => {
            let mut key = String::from_str(p);
            proof {
                reveal_strlit("/");
            }
            key.append("/");
            key.append(name);
            key
        },
        None => String::from_str(name),
    }
}

/// Builds the prefix by which the objects under `path` are listed. The caller
/// gives the path without a trailing separator.
pub fn list_prefix(path: Option<&str>) -> (prefix: String)
    ensures
        prefix@ == listing_prefix(path_view(path)),
{
    match path {
        Some(p) => {
            let mut prefix = String::from_str(p);
            proof {
                reveal_strlit("/");
            }
            prefix.append("/");
            prefix
        },
        None => String::new(),
    }
}

/// Keys collide: a name that holds a separator gives the key that its tail
/// gives under the path extended by its head. The store cannot tell the two
/// objects apart.
pub proof fn lemma_keys_collide(path: Seq<char>, head: Seq<char>, tail: Seq<char>)
    ensures
        derived_key(Some(path), head + separator() + tail) == derived_key(
            Some(path + separator() + head),
            tail,
        ),
{
}

/// An object is listed under the path it was stored under: its key starts
/// with the prefix of that path, whether a path was given or not.
pub proof fn lemma_key_in_own_scope(path: Option<Seq<char>>, name: Seq<char>)
    ensures
        in_scope(derived_key(path, name), listing_prefix(path)),
{
}

/// A listing without a path holds every key.
pub proof fn lemma_every_key_in_root_scope(key: Seq<char>)
    ensures
        in_scope(key, listing_prefix(None)),
{
}

/// Whether the object `name` stored under the path `x` lies under the path
/// `y` as well: the paths are equal, or `x` lies below `y`, or `y` lies below
/// `x` and the name leads from `x` into `y`.
pub open spec fn lies_under(x: Seq<char>, name: Seq<char>, y: Seq<char>) -> bool {
    ||| x == y
    ||| (y + separator()).is_prefix_of(x)
    ||| ((x + separator()).is_prefix_of(y) && (y.skip(x.len() + 1 as int)
        + separator()).is_prefix_of(name))
}

/// An object stored under the path `x` shows in the listing of the path `y`
/// exactly when it lies under `y`.
pub proof fn lemma_scope_of_other_path(x: Seq<char>, y: Seq<char>, name: Seq<char>)
    ensures
        in_scope(derived_key(Some(x), name), listing_prefix(Some(y))) <==> lies_under(x, name, y),
{
    let sep = separator();
    let key = x + sep + name;
    let prefix = y + sep;
    let head = x + sep;
    let rest = y.skip(x.len() + 1 as int) + sep;
    if prefix.is_prefix_of(key) {
        // the prefix ends in `x`, at the end of `x`, or in the name
        if y.len() == x.len() {
            assert forall|i: int| 0 <= i < x.len() implies x[i] == y[i] by {
                assert(prefix[i] == key[i]);
            }
            assert(x =~= y);
        } else if y.len() < x.len() {
            assert forall|i: int| 0 <= i < prefix.len() implies prefix[i] == x[i] by {
                assert(prefix[i] == key[i]);
            }
            assert(prefix =~= x.subrange(0, prefix.len() as int));
        } else {
            assert forall|i: int| 0 <= i < head.len() implies head[i] == y[i] by {
                assert(prefix[i] == key[i]);
            }
            assert(head =~= y.subrange(0, head.len() as int));
            assert forall|i: int| 0 <= i < rest.len() implies rest[i] == name[i] by {
                assert(prefix[i + x.len() + 1] == key[i + x.len() + 1]);
            }
            assert(rest =~= name.subrange(0, rest.len() as int));
        }
    }
    if head.is_prefix_of(y) && rest.is_prefix_of(name) {
        assert forall|i: int| 0 <= i < prefix.len() implies prefix[i] == key[i] by {
            if i >= head.len() {
                assert(rest[i - head.len()] == name[i - head.len()]);
            }
        }
        assert(prefix =~= key.subrange(0, prefix.len() as int));
    }
}

/// Two different paths that hold no separator keep their objects apart:
/// nothing stored under the one lies under the other.
pub proof fn lemma_flat_paths_are_disjoint(x: Seq<char>, y: Seq<char>, name: Seq<char>)
    requires
        x != y,
        !x.contains('/'),
        !y.contains('/'),
    ensures
        !lies_under(x, name, y),
        !in_scope(derived_key(Some(x), name), listing_prefix(Some(y))),
{
    lemma_scope_of_other_path(x, y, name);
    let sep = separator();
    if (y + sep).is_prefix_of(x) {
        assert(x[y.len() as int] == (y + sep)[y.len() as int]);
    }
    if (x + sep).is_prefix_of(y) {
        assert(y[x.len() as int] == (x + sep)[x.len() as int]);
    }
}

} // verus!
