//! Reading the field mask of an update request.

use vstd::prelude::*;
use crate::proto::protobuf::{texts, FieldMask};
use crate::status::{Code, Status, StatusView};
use crate::text::{place_of, precedes, precedes_is_irreflexive, precedes_is_transitive, Place};

verus! {

/// Whether each path sorts before all that follow it; then none occurs twice.
pub open spec fn strictly_ascending(paths: Seq<Seq<char>>) -> bool {
    forall|i: int, j: int| 0 <= i < j < paths.len() ==> precedes(#[trigger] paths[i], #[trigger] paths[j])
}

/// In a list of paths that ascends strictly no path occurs twice.
pub proof fn ascending_paths_occur_once(paths: Seq<Seq<char>>)
    requires
        strictly_ascending(paths),
    ensures
        paths.no_duplicates(),
{
    assert forall|i: int, j: int| 0 <= i < paths.len() && 0 <= j < paths.len() && i != j implies paths[i]
        != paths[j] by {
        precedes_is_irreflexive(paths[i]);
        if i < j {
            assert(precedes(paths[i], paths[j]));
        } else {
            assert(precedes(paths[j], paths[i]));
        }
    }
}

/// Whether two lists hold the same paths, however often and in whatever
/// order.
pub open spec fn same_paths(a: Seq<Seq<char>>, b: Seq<Seq<char>>) -> bool {
    forall|path: Seq<char>| a.contains(path) <==> b.contains(path)
}

/// The status with which a missing or empty mask is refused.
pub open spec fn empty_mask_status() -> StatusView {
    StatusView { code: Code::InvalidArgument, message: "'update_mask' cannot be empty"@ }
}

/// Puts a path at its place in a sorted list, unless the list holds it.
fn insert_path(paths: &mut Vec<String>, path: String)
    requires
        strictly_ascending(texts(old(paths)@)),
    ensures
        strictly_ascending(texts(final(paths)@)),
        forall|other: Seq<char>|
            texts(final(paths)@).contains(other) <==> texts(old(paths)@).contains(other) || other
                == path@,
{
    let ghost before = texts(paths@);
    let mut i: usize = 0;
    let mut placed = false;
    while !placed && i < paths.len()
        invariant
            i <= paths.len(),
            paths@ == old(paths)@,
            before == texts(paths@),
            strictly_ascending(before),
            forall|k: int| 0 <= k < i ==> precedes(#[trigger] before[k], path@),
            placed ==> i < paths.len() && precedes(path@, before[i as int]),
        decreases paths.len() - i + (if placed { 0int } else { 1int }),
    {
        match place_of(paths[i].as_str(), path.as_str()) {
            Place::Before => {
                i = i + 1;
            },
            Place::Same => {
                assert(before[i as int] == path@);
                return ;
            },
            Place::After => {
                placed = true;
            },
        }
    }
    proof {
        assert(i < paths.len() ==> precedes(path@, before[i as int]));
        assert forall|j: int| i <= j < before.len() implies precedes(path@, #[trigger] before[j]) by {
            if j > i {
                precedes_is_transitive(path@, before[i as int], before[j]);
            }
        }
    }
    paths.insert(i, path);
    proof {
        let after = texts(paths@);
        old(paths)@.insert_ensures(i as int, path);
        before.insert_ensures(i as int, path@);
        assert(after =~= before.insert(i as int, path@));
        assert forall|other: Seq<char>| after.contains(other) <==> before.contains(other) || other
            == path@ by {
            if after.contains(other) {
                let k = choose|k: int| 0 <= k < after.len() && after[k] == other;
                if k < i {
                    assert(before[k] == other);
                } else if k > i {
                    assert(before[k - 1] == other);
                }
            }
            if before.contains(other) {
                let k = choose|k: int| 0 <= k < before.len() && before[k] == other;
                if k < i {
                    assert(after[k] == other);
                } else {
                    assert(after[k + 1] == other);
                }
            }
            if other == path@ {
                assert(after[i as int] == other);
            }
        }
        assert forall|a: int, b: int| 0 <= a < b < after.len() implies precedes(
            #[trigger] after[a],
            #[trigger] after[b],
        ) by {
            if b < i {
                assert(after[a] == before[a] && after[b] == before[b]);
            } else if b == i {
                assert(after[a] == before[a]);
            } else if a < i {
                assert(after[a] == before[a] && after[b] == before[b - 1]);
            } else if a == i {
                assert(after[b] == before[b - 1]);
            } else {
                assert(after[a] == before[a - 1] && after[b] == before[b - 1]);
            }
        }
    }
}

/// The paths of an update mask as a set: sorted as strings sort, each path
/// once. A request without a mask, or with a mask of no paths, is refused.
pub fn parse_update_paths(update_mask: Option<FieldMask>) -> (parsed: Result<Vec<String>, Status>)
    ensures
        match parsed {
            Ok(paths) => {
                &&& update_mask matches Some(mask)
                &&& mask@.len() > 0
                &&& strictly_ascending(texts(paths@))
                &&& same_paths(texts(paths@), mask@)
            },
            Err(status) => {
                &&& update_mask is None || update_mask->0@.len() == 0
                &&& status@ == empty_mask_status()
            },
        },
{
    let mut update_paths: Vec<String> = Vec::new();
    match update_mask {
        Some(mask) => {
            let mut i: usize = 0;
            while i < mask.paths.len()
                invariant
                    i <= mask.paths.len(),
                    strictly_ascending(texts(update_paths@)),
                    forall|path: Seq<char>|
                        texts(update_paths@).contains(path) <==> mask@.take(i as int).contains(
                            path,
                        ),
                    i > 0 <==> update_paths@.len() > 0,
                decreases mask.paths.len() - i,
            {
                let path = mask.paths[i].clone();
                let ghost before = texts(update_paths@);
                insert_path(&mut update_paths, path);
                proof {
                    let after = texts(update_paths@);
                    let seen = mask@.take(i as int);
                    let next = mask@.take(i as int + 1);
                    assert(next =~= seen.push(path@));
                    assert forall|other: Seq<char>| after.contains(other) <==> next.contains(
                        other,
                    ) by {
                        if next.contains(other) {
                            let k = choose|k: int| 0 <= k < next.len() && next[k] == other;
                            if k < i {
                                assert(seen[k] == other);
                            }
                        }
                        if seen.contains(other) {
                            let k = choose|k: int| 0 <= k < seen.len() && seen[k] == other;
                            assert(next[k] == other);
                        }
                        if other == path@ {
                            assert(next[i as int] == other);
                        }
                    }
                    assert(after.contains(path@));
                }
                i = i + 1;
            }
            proof {
                assert(mask@.take(i as int) =~= mask@);
                assert(same_paths(texts(update_paths@), mask@));
            }
        },
        None => {},
    }
    if update_paths.is_empty() {
        Err(Status::invalid_argument("'update_mask' cannot be empty"))
    } else {
        Ok(update_paths)
    }
}

} // verus!
