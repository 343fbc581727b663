//! Looking zones up by id, and telling whether two zone lists differ in a way
//! the menu would show.
use crate::types::{zones_model, Zone, ZoneModel};
use vstd::prelude::*;

verus! {

/// Some zone of the list carries this id.
pub open spec fn has_zone(zones: Seq<ZoneModel>, id: Seq<char>) -> bool {
    exists|i: int| 0 <= i < zones.len() && (#[trigger] zones[i]).zone_id == id
}

/// `i` is the position of the first zone that carries this id.
pub open spec fn is_first_match(zones: Seq<ZoneModel>, id: Seq<char>, i: int) -> bool {
    &&& 0 <= i < zones.len()
    &&& zones[i].zone_id == id
    &&& forall|k: int| 0 <= k < i ==> (#[trigger] zones[k]).zone_id != id
}

/// The position of the first zone that carries this id, where there is one.
pub open spec fn first_match(zones: Seq<ZoneModel>, id: Seq<char>) -> int {
    choose|i: int| is_first_match(zones, id, i)
}

/// No two zones of the list share an id.
pub open spec fn ids_unique(zones: Seq<ZoneModel>) -> bool {
    forall|i: int, j: int|
        0 <= i < zones.len() && 0 <= j < zones.len() && i != j ==> (#[trigger] zones[i]).zone_id
            != (#[trigger] zones[j]).zone_id
}

/// A zone of a new list that the old list does not know under the same name
/// and playback state.
pub open spec fn differs_from_known(old_zones: Seq<ZoneModel>, zone: ZoneModel) -> bool {
    ||| !has_zone(old_zones, zone.zone_id)
    ||| old_zones[first_match(old_zones, zone.zone_id)].display_name != zone.display_name
    ||| old_zones[first_match(old_zones, zone.zone_id)].state != zone.state
}

/// The two lists differ in length, in the ids they hold, or in the name or
/// playback state recorded for some id.
pub open spec fn zones_differ(old_zones: Seq<ZoneModel>, new_zones: Seq<ZoneModel>) -> bool {
    ||| old_zones.len() != new_zones.len()
    ||| exists|i: int|
        0 <= i < new_zones.len() && differs_from_known(old_zones, #[trigger] new_zones[i])
    ||| exists|j: int|
        0 <= j < old_zones.len() && !has_zone(new_zones, (#[trigger] old_zones[j]).zone_id)
}

/// A first match is the only first match, and it is what `first_match` names.
pub proof fn lemma_first_match(zones: Seq<ZoneModel>, id: Seq<char>, i: int)
    requires
        is_first_match(zones, id, i),
    ensures
        has_zone(zones, id),
        first_match(zones, id) == i,
{
    let j = first_match(zones, id);
    assert(is_first_match(zones, id, j));
    if j < i {
        assert(zones[j].zone_id != id);
    }
    if i < j {
        assert(zones[i].zone_id != id);
    }
}

/// A list that holds an id has a first zone that carries it.
pub proof fn lemma_has_first_match(zones: Seq<ZoneModel>, id: Seq<char>)
    requires
        has_zone(zones, id),
    ensures
        is_first_match(zones, id, first_match(zones, id)),
{
    let w = choose|i: int| 0 <= i < zones.len() && (#[trigger] zones[i]).zone_id == id;
    lemma_first_below(zones, id, w);
}

proof fn lemma_first_below(zones: Seq<ZoneModel>, id: Seq<char>, w: int)
    requires
        0 <= w < zones.len(),
        zones[w].zone_id == id,
    ensures
        exists|i: int| is_first_match(zones, id, i),
    decreases w,
{
    if exists|k: int| 0 <= k < w && (#[trigger] zones[k]).zone_id == id {
        let k = choose|k: int| 0 <= k < w && (#[trigger] zones[k]).zone_id == id;
        lemma_first_below(zones, id, k);
    } else {
        assert(is_first_match(zones, id, w));
    }
}

/// With unique ids in the old list, two lists differ exactly when their
/// lengths differ, or some id of the new list is recorded in the old one under
/// another name or playback state, or some id of the old list is absent from
/// the new one, or some id of the new list is absent from the old one.
pub proof fn lemma_zones_differ_by_id(old_zones: Seq<ZoneModel>, new_zones: Seq<ZoneModel>)
    requires
        ids_unique(old_zones),
    ensures
        zones_differ(old_zones, new_zones) <==> {
            ||| old_zones.len() != new_zones.len()
            ||| exists|i: int, j: int|
                0 <= i < new_zones.len() && 0 <= j < old_zones.len() && (
                #[trigger] new_zones[i]).zone_id == (#[trigger] old_zones[j]).zone_id && (
                new_zones[i].display_name != old_zones[j].display_name || new_zones[i].state
                    != old_zones[j].state)
            ||| exists|j: int|
                0 <= j < old_zones.len() && !has_zone(new_zones, (#[trigger] old_zones[j]).zone_id)
            ||| exists|i: int|
                0 <= i < new_zones.len() && !has_zone(old_zones, (#[trigger] new_zones[i]).zone_id)
        },
{
    let by_id = exists|i: int, j: int|
        0 <= i < new_zones.len() && 0 <= j < old_zones.len() && (#[trigger] new_zones[i]).zone_id
            == (#[trigger] old_zones[j]).zone_id && (new_zones[i].display_name
            != old_zones[j].display_name || new_zones[i].state != old_zones[j].state);
    let gone = exists|j: int|
        0 <= j < old_zones.len() && !has_zone(new_zones, (#[trigger] old_zones[j]).zone_id);
    let fresh = exists|i: int|
        0 <= i < new_zones.len() && !has_zone(old_zones, (#[trigger] new_zones[i]).zone_id);
    let unknown = exists|i: int|
        0 <= i < new_zones.len() && differs_from_known(old_zones, #[trigger] new_zones[i]);
    if unknown {
        let i = choose|i: int|
            0 <= i < new_zones.len() && differs_from_known(old_zones, #[trigger] new_zones[i]);
        if has_zone(old_zones, new_zones[i].zone_id) {
            lemma_has_first_match(old_zones, new_zones[i].zone_id);
            let j = first_match(old_zones, new_zones[i].zone_id);
            assert(new_zones[i].zone_id == old_zones[j].zone_id);
            assert(by_id);
        } else {
            assert(fresh);
        }
    }
    if by_id {
        let (i, j) = choose|i: int, j: int|
            0 <= i < new_zones.len() && 0 <= j < old_zones.len() && (
            #[trigger] new_zones[i]).zone_id == (#[trigger] old_zones[j]).zone_id && (
            new_zones[i].display_name != old_zones[j].display_name || new_zones[i].state
                != old_zones[j].state);
        assert(has_zone(old_zones, new_zones[i].zone_id));
        lemma_has_first_match(old_zones, new_zones[i].zone_id);
        let f = first_match(old_zones, new_zones[i].zone_id);
        assert(f == j) by {
            if f != j {
                assert(old_zones[f].zone_id != old_zones[j].zone_id);
            }
        }
        assert(differs_from_known(old_zones, new_zones[i]));
        assert(unknown);
    }
    if fresh {
        let i = choose|i: int|
            0 <= i < new_zones.len() && !has_zone(old_zones, (#[trigger] new_zones[i]).zone_id);
        assert(differs_from_known(old_zones, new_zones[i]));
        assert(unknown);
    }
}

/// Two lists hold, position by position, zones of the same id, name and
/// playback state.
pub open spec fn same_identities(a: Seq<ZoneModel>, b: Seq<ZoneModel>) -> bool {
    &&& a.len() == b.len()
    &&& forall|i: int|
        #![trigger a[i]]
        #![trigger b[i]]
        0 <= i < a.len() ==> a[i].zone_id == b[i].zone_id && a[i].display_name
            == b[i].display_name && a[i].state == b[i].state
}

/// Lists of the same identities answer every lookup alike.
pub proof fn lemma_same_lookup(a: Seq<ZoneModel>, b: Seq<ZoneModel>, id: Seq<char>)
    requires
        same_identities(a, b),
    ensures
        has_zone(a, id) == has_zone(b, id),
        has_zone(a, id) ==> first_match(a, id) == first_match(b, id),
{
    if has_zone(a, id) {
        lemma_has_first_match(a, id);
        let i = first_match(a, id);
        assert(b[i].zone_id == id);
        assert forall|k: int| 0 <= k < i implies (#[trigger] b[k]).zone_id != id by {
            assert(a[k].zone_id != id);
        }
        lemma_first_match(b, id, i);
    }
    if has_zone(b, id) {
        let w = choose|i: int| 0 <= i < b.len() && (#[trigger] b[i]).zone_id == id;
        assert(a[w].zone_id == id);
    }
}

/// Whether two lists differ depends on nothing but the ids, names and
/// playback states that they hold: a list may be replaced, on either side, by
/// one of the same identities.
pub proof fn lemma_zones_differ_by_identities(
    a: Seq<ZoneModel>,
    b: Seq<ZoneModel>,
    other: Seq<ZoneModel>,
)
    requires
        same_identities(a, b),
    ensures
        zones_differ(a, other) == zones_differ(b, other),
        zones_differ(other, a) == zones_differ(other, b),
{
    assert(same_identities(b, a));
    if zones_differ(a, other) {
        lemma_differ_as_old(a, b, other);
    }
    if zones_differ(b, other) {
        lemma_differ_as_old(b, a, other);
    }
    if zones_differ(other, a) {
        lemma_differ_as_new(a, b, other);
    }
    if zones_differ(other, b) {
        lemma_differ_as_new(b, a, other);
    }
}

proof fn lemma_differ_as_old(a: Seq<ZoneModel>, b: Seq<ZoneModel>, other: Seq<ZoneModel>)
    requires
        same_identities(a, b),
        zones_differ(a, other),
    ensures
        zones_differ(b, other),
{
    if a.len() != other.len() {
    } else if exists|i: int| 0 <= i < other.len() && differs_from_known(a, #[trigger] other[i]) {
        let i = choose|i: int| 0 <= i < other.len() && differs_from_known(a, #[trigger] other[i]);
        lemma_same_lookup(a, b, other[i].zone_id);
        if has_zone(a, other[i].zone_id) {
            lemma_has_first_match(a, other[i].zone_id);
        }
        assert(differs_from_known(b, other[i]));
    } else {
        let j = choose|j: int| 0 <= j < a.len() && !has_zone(other, (#[trigger] a[j]).zone_id);
        assert(!has_zone(other, b[j].zone_id));
    }
}

proof fn lemma_differ_as_new(a: Seq<ZoneModel>, b: Seq<ZoneModel>, other: Seq<ZoneModel>)
    requires
        same_identities(a, b),
        zones_differ(other, a),
    ensures
        zones_differ(other, b),
{
    if other.len() != a.len() {
    } else if exists|i: int| 0 <= i < a.len() && differs_from_known(other, #[trigger] a[i]) {
        let i = choose|i: int| 0 <= i < a.len() && differs_from_known(other, #[trigger] a[i]);
        assert(differs_from_known(other, b[i]));
    } else {
        let j = choose|j: int|
            0 <= j < other.len() && !has_zone(a, (#[trigger] other[j]).zone_id);
        lemma_same_lookup(a, b, other[j].zone_id);
    }
}

/// Finds the first zone that carries the id.
pub fn find_zone(zones: &[Zone], id: &String) -> (found: Option<usize>)
    ensures
        match found {
            Some(i) => is_first_match(zones_model(zones@), id@, i as int),
            None => !has_zone(zones_model(zones@), id@),
        },
{
    let mut i: usize = 0;
    while i < zones.len()
        invariant
            0 <= i <= zones.len(),
            forall|k: int| 0 <= k < i ==> (#[trigger] zones_model(zones@)[k]).zone_id != id@,
        decreases zones.len() - i,
    {
        if zones[i].zone_id == *id {
            return Some(i);
        }
        i += 1;
    }
    None
}

/// Tells whether the zone list changed in a way the menu shows: in the number
/// of zones, in their ids, or in the name or playback state of one of them.
pub fn zones_changed(old_zones: &[Zone], new_zones: &[Zone]) -> (changed: bool)
    ensures
        changed == zones_differ(zones_model(old_zones@), zones_model(new_zones@)),
{
    let ghost old_m = zones_model(old_zones@);
    let ghost new_m = zones_model(new_zones@);
    if old_zones.len() != new_zones.len() {
        return true;
    }
    let mut i: usize = 0;
    while i < new_zones.len()
        invariant
            0 <= i <= new_zones.len(),
            old_m == zones_model(old_zones@),
            new_m == zones_model(new_zones@),
            forall|k: int| 0 <= k < i ==> !differs_from_known(old_m, #[trigger] new_m[k]),
        decreases new_zones.len() - i,
    {
        match find_zone(old_zones, &new_zones[i].zone_id) {
            None => {
                assert(differs_from_known(old_m, new_m[i as int]));
                return true;
            },
            Some(j) => {
                proof {
                    lemma_first_match(old_m, new_m[i as int].zone_id, j as int);
                }
                if old_zones[j].display_name != new_zones[i].display_name || old_zones[j].state
                    != new_zones[i].state {
                    assert(differs_from_known(old_m, new_m[i as int]));
                    return true;
                }
            },
        }
        i += 1;
    }
    let mut j: usize = 0;
    while j < old_zones.len()
        invariant
            0 <= j <= old_zones.len(),
            old_m == zones_model(old_zones@),
            new_m == zones_model(new_zones@),
            forall|k: int| 0 <= k < j ==> has_zone(new_m, (#[trigger] old_m[k]).zone_id),
        decreases old_zones.len() - j,
    {
        match find_zone(new_zones, &old_zones[j].zone_id) {
            None => {
                assert(!has_zone(new_m, old_m[j as int].zone_id));
                return true;
            },
            Some(k) => {
                proof {
                    lemma_first_match(new_m, old_m[j as int].zone_id, k as int);
                }
            },
        }
        j += 1;
    }
    false
}

} // verus!
