//! Naming new things so that they do not clash with existing ones.

use vstd::prelude::*;
use vstd::set_lib::{lemma_int_range, lemma_len_subset, lemma_map_size, set_int_range};
use crate::project::ItemType;
use crate::text::{decimal, lemma_decimal_injective, push_decimal, str_eq};

verus! {

/// The names, as character sequences.
pub open spec fn name_views(existing: Seq<String>) -> Seq<Seq<char>> {
    existing.map_values(|s: String| s@)
}

/// The numbered variant `"<base> <index>"` of `base`.
pub open spec fn numbered(base: Seq<char>, index: nat) -> Seq<char> {
    base + " "@ + decimal(index)
}

/// The name `unique_numbered_name` gives: `base` itself when it is free,
/// otherwise the numbered variant with the smallest number from 2 up that
/// is free.
pub open spec fn is_first_free_name(base: Seq<char>, existing: Seq<Seq<char>>, name: Seq<char>) -> bool {
    if !existing.contains(base) {
        name == base
    } else {
        exists|k: nat| #![trigger numbered(base, k)] k >= 2 && name == numbered(base, k)
            && forall|j: nat| 2 <= j < k ==> existing.contains(#[trigger] numbered(base, j))
    }
}

/// Whether one of `existing` is `name`.
fn contains_name(existing: &[String], name: &str) -> (res: bool)
    ensures
        res == name_views(existing@).contains(name@),
{
    let mut i: usize = 0;
    while i < existing.len()
        invariant
            i <= existing@.len(),
            forall|k: int| 0 <= k < i ==> existing@[k]@ != name@,
        decreases existing.len() - i,
    {
        if str_eq(existing[i].as_str(), name) {
            assert(name_views(existing@)[i as int] == name@);
            return true;
        }
        i = i + 1;
    }
    proof {
        if name_views(existing@).contains(name@) {
            let k = choose|k: int| 0 <= k < name_views(existing@).len() && name_views(existing@)[k] == name@;
            assert(existing@[k]@ == name@);
        }
    }
    false
}

/// Numbered variants with different numbers differ.
proof fn lemma_numbered_injective(base: Seq<char>, a: nat, b: nat)
    ensures
        numbered(base, a) == numbered(base, b) ==> a == b,
{
    if numbered(base, a) == numbered(base, b) {
        let p = base + " "@;
        assert(numbered(base, a).subrange(p.len() as int, numbered(base, a).len() as int) =~= decimal(a));
        assert(numbered(base, b).subrange(p.len() as int, numbered(base, b).len() as int) =~= decimal(b));
        lemma_decimal_injective(a, b);
    }
}

/// When the numbered variants from 2 up to (not including) `index` are
/// all taken, there are at least that many names.
proof fn lemma_taken_bound(base: Seq<char>, existing: Seq<Seq<char>>, index: nat)
    requires
        index >= 2,
        forall|j: nat| 2 <= j < index ==> existing.contains(#[trigger] numbered(base, j)),
    ensures
        index - 2 <= existing.len(),
{
    let r = set_int_range(2, index as int);
    let f = |k: int| numbered(base, k as nat);
    lemma_int_range(2, index as int);
    assert forall|x: int, y: int| r.contains(x) && r.contains(y) && #[trigger] f(x) == #[trigger] f(y) implies x == y by {
        lemma_numbered_injective(base, x as nat, y as nat);
    }
    lemma_map_size(r, r.map(f), f);
    let e = existing.to_set();
    assert forall|s: Seq<char>| r.map(f).contains(s) implies e.contains(s) by {
        let k = choose|k: int| r.contains(k) && f(k) == s;
        assert(existing.contains(numbered(base, k as nat)));
    }
    existing.lemma_cardinality_of_set();
    lemma_len_subset(r.map(f), e);
}

/// `base`, or the first numbered variant `"<base> <n>"` (n = 2, 3, ...) that
/// none of `existing` is.
pub fn unique_numbered_name(base: &str, existing: &[String]) -> (res: String)
    ensures
        !name_views(existing@).contains(res@),
        is_first_free_name(base@, name_views(existing@), res@),
{
    if !contains_name(existing, base) {
        return String::from_str(base);
    }
    let ghost names = name_views(existing@);
    let mut index: u128 = 2;
    let n = existing.len();
    loop
        invariant
            2 <= index <= existing@.len() + 2,
            n == existing@.len(),
            names == name_views(existing@),
            names.contains(base@),
            forall|j: nat| 2 <= j < index ==> names.contains(#[trigger] numbered(base@, j)),
        decreases existing@.len() + 2 - index,
    {
        let mut candidate = String::from_str(base);
        candidate.append(" ");
        push_decimal(&mut candidate, index);
        assert(candidate@ == numbered(base@, index as nat));
        if !contains_name(existing, candidate.as_str()) {
            return candidate;
        }
        proof { lemma_taken_bound(base@, names, (index + 1) as nat); }
        index = index + 1;
    }
}

/// One more than the largest clip id on any track; `0` when there are no
/// clips. Each inner vector holds the clip ids of one track.
pub fn next_clip_id(tracks: &Vec<Vec<usize>>) -> (res: usize)
    requires
        forall|t: int, c: int| 0 <= t < tracks@.len() && 0 <= c < tracks@[t]@.len() ==> #[trigger] tracks@[t]@[c] < usize::MAX,
    ensures
        forall|t: int, c: int| 0 <= t < tracks@.len() && 0 <= c < tracks@[t]@.len() ==> #[trigger] tracks@[t]@[c] < res,
        res == 0 || exists|t: int, c: int| 0 <= t < tracks@.len() && 0 <= c < tracks@[t]@.len() && #[trigger] tracks@[t]@[c] == res - 1,
{
    let mut best: usize = 0;
    let mut t: usize = 0;
    while t < tracks.len()
        invariant
            t <= tracks@.len(),
            forall|t: int, c: int| 0 <= t < tracks@.len() && 0 <= c < tracks@[t]@.len() ==> #[trigger] tracks@[t]@[c] < usize::MAX,
            forall|u: int, c: int| 0 <= u < t && 0 <= c < tracks@[u]@.len() ==> #[trigger] tracks@[u]@[c] < best,
            best == 0 || exists|u: int, c: int| 0 <= u < tracks@.len() && 0 <= c < tracks@[u]@.len() && #[trigger] tracks@[u]@[c] == best - 1,
        decreases tracks.len() - t,
    {
        let track = &tracks[t];
        let mut c: usize = 0;
        while c < track.len()
            invariant
                t < tracks@.len(),
                track == tracks@[t as int],
                c <= track@.len(),
                forall|t: int, c: int| 0 <= t < tracks@.len() && 0 <= c < tracks@[t]@.len() ==> #[trigger] tracks@[t]@[c] < usize::MAX,
                forall|u: int, k: int| 0 <= u < t && 0 <= k < tracks@[u]@.len() ==> #[trigger] tracks@[u]@[k] < best,
                forall|k: int| 0 <= k < c ==> #[trigger] tracks@[t as int]@[k] < best,
                best == 0 || exists|u: int, k: int| 0 <= u < tracks@.len() && 0 <= k < tracks@[u]@.len() && #[trigger] tracks@[u]@[k] == best - 1,
            decreases track.len() - c,
        {
            let id = track[c];
            assert(tracks@[t as int]@[c as int] == id);
            if id + 1 > best {
                best = id + 1;
            }
            c = c + 1;
        }
        t = t + 1;
    }
    best
}

/// A name for a new composition that no composition has yet:
/// "Composition", or "Composition 2", "Composition 3", ...
pub fn unique_composition_name(composition_names: &[String]) -> (res: String)
    ensures
        !name_views(composition_names@).contains(res@),
        is_first_free_name("Composition"@, name_views(composition_names@), res@),
{
    unique_numbered_name("Composition", composition_names)
}

/// A name for a new object that no object of the composition has yet:
/// "Object", or "Object 2", "Object 3", ...
pub fn unique_object_name(object_names: &[String]) -> (res: String)
    ensures
        !name_views(object_names@).contains(res@),
        is_first_free_name("Object"@, name_views(object_names@), res@),
{
    unique_numbered_name("Object", object_names)
}

/// An asset of the project: its id (as a 128-bit value), name, kind and
/// the folder it sits in, if any.
#[derive(Debug)]
pub struct AssetEntry {
    pub id: u128,
    pub name: String,
    pub kind: ItemType,
    pub parent: Option<u128>,
}

/// The names of the folders directly in `parent`, in order.
pub open spec fn sibling_folder_names(assets: Seq<AssetEntry>, parent: Option<u128>) -> Seq<Seq<char>>
    decreases assets.len(),
{
    if assets.len() == 0 {
        Seq::empty()
    } else {
        let rest = sibling_folder_names(assets.drop_last(), parent);
        let a = assets.last();
        if a.parent == parent && a.kind == ItemType::Folder { rest.push(a.name@) } else { rest }
    }
}

/// A name for a new folder in `parent` that no folder there has yet:
/// "New Folder", or "New Folder 2", "New Folder 3", ...
pub fn unique_asset_folder_name(assets: &[AssetEntry], parent: Option<u128>) -> (res: String)
    ensures
        !sibling_folder_names(assets@, parent).contains(res@),
        is_first_free_name("New Folder"@, sibling_folder_names(assets@, parent), res@),
{
    let mut existing: Vec<String> = Vec::new();
    let mut i: usize = 0;
    while i < assets.len()
        invariant
            i <= assets@.len(),
            name_views(existing@) == sibling_folder_names(assets@.take(i as int), parent),
        decreases assets.len() - i,
    {
        proof { assert(assets@.take(i + 1).drop_last() =~= assets@.take(i as int)); }
        let a = &assets[i];
        if a.parent == parent && a.kind == ItemType::Folder {
            existing.push(a.name.clone());
            proof { assert(name_views(existing@) =~= sibling_folder_names(assets@.take(i as int), parent).push(a.name@)); }
        }
        i = i + 1;
    }
    proof { assert(assets@.take(i as int) =~= assets@); }
    unique_numbered_name("New Folder", existing.as_slice())
}

} // verus!
