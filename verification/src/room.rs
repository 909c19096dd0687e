//! Room grouping for batch operations.
//!
//! Rooms group lights for batch operations, independently of the vendor
//! app's room configuration. Each light is held under a fresh 128-bit
//! identifier; a room refuses two lights with one address.

use vstd::prelude::*;
use crate::errors::Error;
use crate::light::Light;
use crate::light::spec_apply_reply;
use crate::net::Ipv4;
use crate::response::LightingResponse;
use crate::text::str_eq;

verus! {

/// The map a list of identifier/light pairs denotes; a well-formed room has
/// distinct identifiers.
pub open spec fn spec_lights_map(items: Seq<(u128, Light)>) -> Map<u128, Light>
    decreases items.len(),
{
    if items.len() == 0 {
        Map::empty()
    } else {
        spec_lights_map(items.drop_last()).insert(items.last().0, items.last().1)
    }
}

proof fn lemma_lights_map_contains(items: Seq<(u128, Light)>, k: u128)
    ensures
        spec_lights_map(items).contains_key(k) <==> exists|i: int|
            0 <= i < items.len() && (#[trigger] items[i]).0 == k,
    decreases items.len(),
{
    if items.len() > 0 {
        lemma_lights_map_contains(items.drop_last(), k);
        if items.last().0 == k {
            assert(items[items.len() - 1].0 == k);
        } else if spec_lights_map(items).contains_key(k) {
            let i = choose|i: int|
                0 <= i < items.drop_last().len() && (#[trigger] items.drop_last()[i]).0 == k;
            assert(items[i].0 == k);
        } else {
            assert forall|i: int| 0 <= i < items.len() implies (#[trigger] items[i]).0 != k by {
                if i < items.len() - 1 {
                    assert(items.drop_last()[i] == items[i]);
                }
            }
        }
    }
}

proof fn lemma_lights_map_at(items: Seq<(u128, Light)>, j: int)
    requires
        0 <= j < items.len(),
        forall|i1: int, i2: int|
            0 <= i1 < i2 < items.len() ==> (#[trigger] items[i1]).0 != (#[trigger] items[i2]).0,
    ensures
        spec_lights_map(items).contains_key(items[j].0),
        spec_lights_map(items)[items[j].0] == items[j].1,
    decreases items.len(),
{
    if j == items.len() - 1 {
        assert(items.last() == items[j]);
    } else {
        assert forall|i1: int, i2: int|
            0 <= i1 < i2 < items.drop_last().len() implies (#[trigger] items.drop_last()[i1]).0 != (
        #[trigger] items.drop_last()[i2]).0 by {
            assert(items.drop_last()[i1] == items[i1]);
            assert(items.drop_last()[i2] == items[i2]);
        }
        lemma_lights_map_at(items.drop_last(), j);
        assert(items.drop_last()[j] == items[j]);
        assert(items[j].0 != items.last().0);
    }
}

proof fn lemma_lights_map_update(items: Seq<(u128, Light)>, j: int, p: (u128, Light))
    requires
        0 <= j < items.len(),
        items[j].0 == p.0,
        forall|i1: int, i2: int|
            0 <= i1 < i2 < items.len() ==> (#[trigger] items[i1]).0 != (#[trigger] items[i2]).0,
    ensures
        spec_lights_map(items.update(j, p)) == spec_lights_map(items).insert(p.0, p.1),
    decreases items.len(),
{
    let updated = items.update(j, p);
    if j == items.len() - 1 {
        assert(updated.drop_last() =~= items.drop_last());
        assert(updated.last() == p);
        assert(spec_lights_map(items.drop_last()).insert(items.last().0, items.last().1).insert(
            p.0,
            p.1,
        ) =~= spec_lights_map(items.drop_last()).insert(p.0, p.1));
    } else {
        assert forall|i1: int, i2: int|
            0 <= i1 < i2 < items.drop_last().len() implies (#[trigger] items.drop_last()[i1]).0 != (
        #[trigger] items.drop_last()[i2]).0 by {
            assert(items.drop_last()[i1] == items[i1]);
            assert(items.drop_last()[i2] == items[i2]);
        }
        lemma_lights_map_update(items.drop_last(), j, p);
        assert(updated.drop_last() =~= items.drop_last().update(j, p));
        assert(updated.last() == items.last());
        assert(items[j].0 != items.last().0);
        assert(spec_lights_map(items.drop_last()).insert(p.0, p.1).insert(
            items.last().0,
            items.last().1,
        ) =~= spec_lights_map(items.drop_last()).insert(items.last().0, items.last().1).insert(
            p.0,
            p.1,
        ));
    }
}

proof fn lemma_lights_map_remove(items: Seq<(u128, Light)>, j: int)
    requires
        0 <= j < items.len(),
        forall|i1: int, i2: int|
            0 <= i1 < i2 < items.len() ==> (#[trigger] items[i1]).0 != (#[trigger] items[i2]).0,
    ensures
        spec_lights_map(items.remove(j)) == spec_lights_map(items).remove(items[j].0),
    decreases items.len(),
{
    let removed = items.remove(j);
    if j == items.len() - 1 {
        assert(removed =~= items.drop_last());
        lemma_lights_map_contains(items.drop_last(), items[j].0);
        assert forall|i: int|
            0 <= i < items.drop_last().len() implies (#[trigger] items.drop_last()[i]).0
            != items[j].0 by {
            assert(items.drop_last()[i] == items[i]);
        }
        assert(spec_lights_map(items.drop_last()).insert(items.last().0, items.last().1).remove(
            items[j].0,
        ) =~= spec_lights_map(items.drop_last()));
    } else {
        assert forall|i1: int, i2: int|
            0 <= i1 < i2 < items.drop_last().len() implies (#[trigger] items.drop_last()[i1]).0 != (
        #[trigger] items.drop_last()[i2]).0 by {
            assert(items.drop_last()[i1] == items[i1]);
            assert(items.drop_last()[i2] == items[i2]);
        }
        lemma_lights_map_remove(items.drop_last(), j);
        assert(removed.drop_last() =~= items.drop_last().remove(j));
        assert(removed.last() == items.last());
        assert(items[j].0 != items.last().0);
        assert(spec_lights_map(items.drop_last()).remove(items[j].0).insert(
            items.last().0,
            items.last().1,
        ) =~= spec_lights_map(items.drop_last()).insert(items.last().0, items.last().1).remove(
            items[j].0,
        ));
    }
}

/// Relies on `uuid::Uuid::new_v4` and `uuid::Uuid::as_u128`: a fresh random
/// version-4 identifier as a 128-bit value. Nothing is assumed of the value.
#[verifier::external_body]
fn fresh_uuid() -> u128 {
    uuid::Uuid::new_v4().as_u128()
}

/// Every light in the list is well-formed and identifiers are distinct.
pub open spec fn spec_items_wf(items: Seq<(u128, Light)>) -> bool {
    &&& forall|i1: int, i2: int|
        0 <= i1 < i2 < items.len() ==> (#[trigger] items[i1]).0 != (#[trigger] items[i2]).0
    &&& forall|i: int| 0 <= i < items.len() ==> (#[trigger] items[i]).1.wf()
}

/// The index of some pair whose light has this address.
fn find_ip_in(items: &Vec<(u128, Light)>, ip: Ipv4) -> (r: Option<usize>)
    requires
        spec_items_wf(items@),
    ensures
        match r {
            Some(i) => {
                &&& i < items@.len()
                &&& items@[i as int].1.ip == ip
                &&& spec_lights_map(items@).contains_key(items@[i as int].0)
                &&& spec_lights_map(items@)[items@[i as int].0] == items@[i as int].1
            },
            None => forall|k: u128|
                spec_lights_map(items@).contains_key(k) ==> (#[trigger] spec_lights_map(
                    items@,
                ).index(k)).ip != ip,
        },
{
    let n = items.len();
    let mut i: usize = 0;
    while i < n
        invariant
            spec_items_wf(items@),
            n == items@.len(),
            i <= n,
            forall|j: int| 0 <= j < i ==> (#[trigger] items@[j]).1.ip != ip,
        decreases n - i,
    {
        if items[i].1.ip == ip {
            proof {
                lemma_lights_map_at(items@, i as int);
            }
            return Some(i);
        }
        i = i + 1;
    }
    proof {
        assert forall|k: u128| spec_lights_map(items@).contains_key(k) implies (
        #[trigger] spec_lights_map(items@)[k]).ip != ip by {
            lemma_lights_map_contains(items@, k);
            let j = choose|j: int| 0 <= j < items@.len() && (#[trigger] items@[j]).0 == k;
            lemma_lights_map_at(items@, j);
        }
    }
    None
}

/// The index of the pair with this identifier.
fn find_id_in(items: &Vec<(u128, Light)>, light_id: u128) -> (r: Option<usize>)
    requires
        spec_items_wf(items@),
    ensures
        match r {
            Some(i) => {
                &&& i < items@.len()
                &&& items@[i as int].0 == light_id
                &&& spec_lights_map(items@).contains_key(light_id)
                &&& spec_lights_map(items@)[light_id] == items@[i as int].1
            },
            None => !spec_lights_map(items@).contains_key(light_id),
        },
{
    let n = items.len();
    let mut i: usize = 0;
    while i < n
        invariant
            spec_items_wf(items@),
            n == items@.len(),
            i <= n,
            forall|j: int| 0 <= j < i ==> (#[trigger] items@[j]).0 != light_id,
        decreases n - i,
    {
        if items[i].0 == light_id {
            proof {
                lemma_lights_map_at(items@, i as int);
            }
            return Some(i);
        }
        i = i + 1;
    }
    proof {
        lemma_lights_map_contains(items@, light_id);
    }
    None
}

/// Store a light under an identifier, replacing any light under it.
fn put_in(items: &mut Vec<(u128, Light)>, id: u128, light: Light)
    requires
        spec_items_wf(old(items)@),
        light.wf(),
    ensures
        spec_items_wf(final (items)@),
        spec_lights_map(final (items)@) == spec_lights_map(old(items)@).insert(id, light),
{
    let ghost items0 = items@;
    match find_id_in(items, id) {
        Some(i) => {
            proof {
                lemma_lights_map_update(items0, i as int, (id, light));
            }
            items.set(i, (id, light));
            proof {
                assert forall|i1: int, i2: int|
                    0 <= i1 < i2 < items@.len() implies (#[trigger] items@[i1]).0 != (
                #[trigger] items@[i2]).0 by {
                    assert(items0[i1].0 != items0[i2].0);
                }
                assert forall|k: int| 0 <= k < items@.len() implies (
                #[trigger] items@[k]).1.wf() by {
                    if k != i as int {
                        assert(items@[k] == items0[k]);
                    } else {
                        assert(items@[k].1 == light);
                    }
                }
            }
        },
        None => {
            items.push((id, light));
            proof {
                assert(items@.drop_last() =~= items0);
                lemma_lights_map_contains(items0, id);
                assert forall|i1: int, i2: int|
                    0 <= i1 < i2 < items@.len() implies (#[trigger] items@[i1]).0 != (
                #[trigger] items@[i2]).0 by {
                    if i2 < items0.len() {
                        assert(items0[i1].0 != items0[i2].0);
                    } else {
                        assert(items@[i1] == items0[i1]);
                    }
                }
                assert forall|k: int| 0 <= k < items@.len() implies (
                #[trigger] items@[k]).1.wf() by {
                    if k < items0.len() {
                        assert(items@[k] == items0[k]);
                    } else {
                        assert(items@[k].1 == light);
                    }
                }
            }
        },
    }
}

/// Remove the pair at an index.
fn remove_at(items: &mut Vec<(u128, Light)>, i: usize)
    requires
        spec_items_wf(old(items)@),
        i < old(items)@.len(),
    ensures
        spec_items_wf(final (items)@),
        spec_lights_map(final (items)@) == spec_lights_map(old(items)@).remove(
            old(items)@[i as int].0,
        ),
{
    let ghost items0 = items@;
    proof {
        lemma_lights_map_remove(items0, i as int);
    }
    items.remove(i);
    proof {
        assert forall|i1: int, i2: int|
            0 <= i1 < i2 < items@.len() implies (#[trigger] items@[i1]).0 != (
        #[trigger] items@[i2]).0 by {
            let j1 = if i1 < i { i1 } else { i1 + 1 };
            let j2 = if i2 < i { i2 } else { i2 + 1 };
            assert(items@[i1] == items0[j1]);
            assert(items@[i2] == items0[j2]);
            assert(items0[j1].0 != items0[j2].0);
        }
        assert forall|k: int| 0 <= k < items@.len() implies (#[trigger] items@[k]).1.wf() by {
            let j = if k < i { k } else { k + 1 };
            assert(items@[k] == items0[j]);
        }
    }
}

/// Fold a light update into the pair at an index, keeping the identifier.
/// Returns whether the light changed.
fn update_light_at(items: &mut Vec<(u128, Light)>, i: usize, light: &Light) -> (r: bool)
    requires
        spec_items_wf(old(items)@),
        i < old(items)@.len(),
    ensures
        spec_items_wf(final (items)@),
        final (items)@ == old(items)@.update(i as int, final (items)@[i as int]),
        final (items)@[i as int].0 == old(items)@[i as int].0,
        spec_lights_map(final (items)@) == spec_lights_map(old(items)@).insert(
            old(items)@[i as int].0,
            final (items)@[i as int].1,
        ),
        ({
            let before = old(items)@[i as int].1;
            let after = final (items)@[i as int].1;
            &&& after.ip == light.ip
            &&& crate::light::spec_name_eq(after.name, light.name)
            &&& after.status == before.status
            &&& r == (!crate::light::spec_name_eq(before.name, light.name) || before.ip
                != light.ip)
        }),
{
    let ghost items0 = items@;
    let mut pair = items.remove(i);
    let changed = pair.1.update(light);
    items.insert(i, pair);
    proof {
        assert(items@ =~= items0.update(i as int, items@[i as int]));
        lemma_lights_map_update(items0, i as int, items@[i as int]);
        assert forall|i1: int, i2: int|
            0 <= i1 < i2 < items@.len() implies (#[trigger] items@[i1]).0 != (
        #[trigger] items@[i2]).0 by {
            assert(items0[i1].0 != items0[i2].0);
        }
        assert forall|k: int| 0 <= k < items@.len() implies (#[trigger] items@[k]).1.wf() by {
            if k != i {
                assert(items@[k] == items0[k]);
            }
        }
    }
    changed
}

/// Fold a lighting response into the pair at an index.
fn apply_reply_at(items: &mut Vec<(u128, Light)>, i: usize, resp: &LightingResponse) -> (r: bool)
    requires
        spec_items_wf(old(items)@),
        i < old(items)@.len(),
    ensures
        spec_items_wf(final (items)@),
        final (items)@ == old(items)@.update(i as int, final (items)@[i as int]),
        final (items)@[i as int].0 == old(items)@[i as int].0,
        spec_lights_map(final (items)@) == spec_lights_map(old(items)@).insert(
            old(items)@[i as int].0,
            final (items)@[i as int].1,
        ),
        ({
            let before = old(items)@[i as int].1;
            let after = final (items)@[i as int].1;
            &&& r == (resp.ip == before.ip)
            &&& after.ip == before.ip
            &&& after.name == before.name
            &&& after.status == if resp.ip == before.ip {
                spec_apply_reply(before.status, resp.response)
            } else {
                before.status
            }
        }),
{
    let ghost items0 = items@;
    let mut pair = items.remove(i);
    let handled = pair.1.process_reply(resp);
    items.insert(i, pair);
    proof {
        assert(items@ =~= items0.update(i as int, items@[i as int]));
        lemma_lights_map_update(items0, i as int, items@[i as int]);
        assert forall|i1: int, i2: int|
            0 <= i1 < i2 < items@.len() implies (#[trigger] items@[i1]).0 != (
        #[trigger] items@[i2]).0 by {
            assert(items0[i1].0 != items0[i2].0);
        }
        assert forall|k: int| 0 <= k < items@.len() implies (#[trigger] items@[k]).1.wf() by {
            if k != i {
                assert(items@[k] == items0[k]);
            }
        }
    }
    handled
}

/// A logical grouping of lights for batch operations.
pub struct Room {
    /// The room's display name.
    pub name: String,
    /// The lights of the room, keyed by identifier; `None` until the first
    /// light arrives.
    pub lights: Option<Vec<(u128, Light)>>,
    /// The room's own identifier.
    pub id: u128,
    /// Whether an external identifier has been linked.
    pub linked: bool,
}

impl Room {
    /// Identifiers are pairwise distinct and the lights are well-formed.
    pub open spec fn wf(self) -> bool {
        match self.lights {
            None => true,
            Some(items) => spec_items_wf(items@),
        }
    }

    /// The lights of the room as a map; empty while no light was ever added.
    pub open spec fn lights_map(self) -> Map<u128, Light> {
        match self.lights {
            None => Map::empty(),
            Some(items) => spec_lights_map(items@),
        }
    }

    /// Create a new room with the given name and a fresh identifier.
    pub fn new(name: &str) -> (r: Self)
        ensures
            r.wf(),
            r.name@ == name@,
            r.lights is None,
            !r.linked,
    {
        Room { name: name.to_owned(), lights: None, id: fresh_uuid(), linked: false }
    }

    /// Link an external identifier to this room. Can only be done once.
    pub fn link(&mut self, id: u128)
        requires
            !old(self).linked,
        ensures
            *final (self) == (Room { id, linked: true, ..*old(self) }),
    {
        self.id = id;
        self.linked = true;
    }

    /// Get the name of this room.
    pub fn name(&self) -> (r: &String)
        ensures
            r == &self.name,
    {
        &self.name
    }

    /// Add a new light to this room, unless a light with its address is
    /// already present. Returns the identifier assigned to the light.
    pub fn new_light(&mut self, light: Light) -> (r: Result<u128, Error>)
        requires
            old(self).wf(),
            light.wf(),
        ensures
            final (self).wf(),
            final (self).name == old(self).name,
            final (self).id == old(self).id,
            final (self).linked == old(self).linked,
            (exists|k: u128|
                old(self).lights_map().contains_key(k) && (#[trigger] old(self).lights_map()[k]).ip
                    == light.ip) ==> {
                &&& r matches Err(e)
                &&& e matches Error::InvalidIP { ip, reason: _ }
                &&& ip == light.ip
                &&& *final (self) == *old(self)
            },
            !(exists|k: u128|
                old(self).lights_map().contains_key(k) && (#[trigger] old(self).lights_map()[k]).ip
                    == light.ip) ==> (r matches Ok(id) && final (self).lights_map() == old(
                self,
            ).lights_map().insert(id, light)),
    {
        let conflict = match &self.lights {
            None => None,
            Some(items) => find_ip_in(items, light.ip),
        };
        if conflict.is_some() {
            return Err(Error::invalid_ip(&light.ip, "already known"));
        }
        let id = fresh_uuid();
        if self.lights.is_none() {
            let items: Vec<(u128, Light)> = Vec::new();
            proof {
                assert(spec_lights_map(items@) =~= Map::<u128, Light>::empty());
            }
            self.lights = Some(items);
        }
        match &mut self.lights {
            Some(items) => put_in(items, id, light),
            None => {
                proof {
                    assert(false);
                }
            },
        }
        Ok(id)
    }

    /// Remove a light from this room: an error names the room when it never
    /// held lights, and the light when the identifier is unknown.
    pub fn delete_light(&mut self, light_id: u128) -> (r: Result<(), Error>)
        requires
            old(self).wf(),
        ensures
            final (self).wf(),
            final (self).name == old(self).name,
            final (self).id == old(self).id,
            final (self).linked == old(self).linked,
            old(self).lights is None ==> (r == Err::<(), Error>(
                Error::RoomNotFound { room_id: old(self).id },
            ) && *final (self) == *old(self)),
            (old(self).lights is Some && !old(self).lights_map().contains_key(light_id)) ==> (r
                == Err::<(), Error>(
                Error::LightNotFound { room_id: old(self).id, light_id },
            ) && *final (self) == *old(self)),
            (old(self).lights is Some && old(self).lights_map().contains_key(light_id)) ==> (r
                is Ok && final (self).lights_map() == old(self).lights_map().remove(light_id)),
    {
        let found = match &self.lights {
            None => {
                return Err(Error::RoomNotFound { room_id: self.id });
            },
            Some(items) => find_id_in(items, light_id),
        };
        match found {
            None => Err(Error::light_not_found(self.id, light_id)),
            Some(i) => {
                match &mut self.lights {
                    Some(items) => remove_at(items, i),
                    None => {
                        proof {
                            assert(false);
                        }
                    },
                }
                Ok(())
            },
        }
    }

    /// Update a light's configuration (address, name): an error reports a
    /// room without lights, an unknown identifier, or an update that would
    /// change nothing.
    pub fn update_light(&mut self, light_id: u128, light: &Light) -> (r: Result<(), Error>)
        requires
            old(self).wf(),
        ensures
            final (self).wf(),
            final (self).name == old(self).name,
            final (self).id == old(self).id,
            final (self).linked == old(self).linked,
            old(self).lights is None ==> (r == Err::<(), Error>(
                Error::NoLights { room_id: old(self).id },
            ) && *final (self) == *old(self)),
            (old(self).lights is Some && !old(self).lights_map().contains_key(light_id)) ==> (r
                == Err::<(), Error>(
                Error::LightNotFound { room_id: old(self).id, light_id },
            ) && *final (self) == *old(self)),
            (old(self).lights is Some && old(self).lights_map().contains_key(light_id)) ==> {
                let existing = old(self).lights_map()[light_id];
                let changed = !crate::light::spec_name_eq(existing.name, light.name)
                    || existing.ip != light.ip;
                &&& (r is Ok <==> changed)
                &&& (!changed ==> r == Err::<(), Error>(
                    Error::NoChangeLight { room_id: old(self).id, light_id },
                ))
                &&& final (self).lights_map() == old(self).lights_map().insert(
                    light_id,
                    final (self).lights_map().index(light_id),
                )
                &&& final (self).lights_map().contains_key(light_id)
                &&& final (self).lights_map().index(light_id).ip == light.ip
                &&& crate::light::spec_name_eq(
                    final (self).lights_map().index(light_id).name,
                    light.name,
                )
                &&& final (self).lights_map().index(light_id).status == existing.status
            },
    {
        let found = match &self.lights {
            None => {
                return Err(Error::NoLights { room_id: self.id });
            },
            Some(items) => find_id_in(items, light_id),
        };
        match found {
            None => Err(Error::light_not_found(self.id, light_id)),
            Some(i) => {
                let changed = match &mut self.lights {
                    Some(items) => update_light_at(items, i, light),
                    None => {
                        proof {
                            assert(false);
                        }
                        false
                    },
                };
                if changed {
                    Ok(())
                } else {
                    Err(Error::no_change_light(self.id, light_id))
                }
            },
        }
    }

    /// List all light identifiers in this room, `None` while no light was
    /// ever added.
    pub fn list(&self) -> (r: Option<Vec<u128>>)
        requires
            self.wf(),
        ensures
            match r {
                Some(ids) => {
                    &&& self.lights matches Some(items)
                    &&& ids@.len() == items@.len()
                    &&& forall|i: int| 0 <= i < ids@.len() ==> #[trigger] ids@[i] == items@[i].0
                },
                None => self.lights is None,
            },
    {
        let items = match &self.lights {
            None => {
                return None;
            },
            Some(items) => items,
        };
        let n = items.len();
        let mut ids: Vec<u128> = Vec::new();
        let mut i: usize = 0;
        while i < n
            invariant
                n == items@.len(),
                i <= n,
                ids@.len() == i,
                forall|j: int| 0 <= j < i ==> #[trigger] ids@[j] == items@[j].0,
            decreases n - i,
        {
            ids.push(items[i].0);
            i = i + 1;
        }
        Some(ids)
    }

    /// Get a reference to a light by identifier.
    pub fn read(&self, light_id: u128) -> (r: Option<&Light>)
        requires
            self.wf(),
        ensures
            match r {
                Some(l) => self.lights_map().contains_key(light_id) && *l
                    == self.lights_map().index(light_id),
                None => !self.lights_map().contains_key(light_id),
            },
    {
        let items = match &self.lights {
            None => {
                return None;
            },
            Some(items) => items,
        };
        match find_id_in(items, light_id) {
            Some(i) => Some(&items[i].1),
            None => None,
        }
    }

    /// Update lights in this room from a lighting response: the first light
    /// addressed by the response folds it into its cached status; the rest
    /// stay untouched.
    ///
    /// Returns `true` if some light was updated.
    pub fn process_reply(&mut self, resp: &LightingResponse) -> (r: bool)
        requires
            old(self).wf(),
        ensures
            final (self).wf(),
            final (self).name == old(self).name,
            final (self).id == old(self).id,
            final (self).linked == old(self).linked,
            !r ==> *final (self) == *old(self),
            !r ==> forall|k: u128|
                old(self).lights_map().contains_key(k) ==> (#[trigger] old(
                    self,
                ).lights_map().index(k)).ip != resp.ip,
            r ==> exists|k: u128|
                {
                    &&& #[trigger] old(self).lights_map().contains_key(k)
                    &&& old(self).lights_map().index(k).ip == resp.ip
                    &&& final (self).lights_map() == old(self).lights_map().insert(
                        k,
                        final (self).lights_map().index(k),
                    )
                    &&& final (self).lights_map().contains_key(k)
                    &&& final (self).lights_map().index(k).status == spec_apply_reply(
                        old(self).lights_map().index(k).status,
                        resp.response,
                    )
                    &&& final (self).lights_map().index(k).ip == old(self).lights_map().index(k).ip
                    &&& final (self).lights_map().index(k).name == old(self).lights_map().index(
                        k,
                    ).name
                },
    {
        let found = match &self.lights {
            None => None,
            Some(items) => find_ip_in(items, resp.ip),
        };
        let i = match found {
            None => {
                return false;
            },
            Some(i) => i,
        };
        let ghost k = self.lights->Some_0@[i as int].0;
        match &mut self.lights {
            Some(items) => {
                apply_reply_at(items, i, resp);
            },
            None => {
                proof {
                    assert(false);
                }
            },
        }
        proof {
            assert(final (self).lights_map().contains_key(k)) by {
                lemma_lights_map_at(self.lights->Some_0@, i as int);
            }
        }
        true
    }

    /// Update this room's attributes (the name) from another room.
    ///
    /// Returns `true` if anything changed.
    pub fn update(&mut self, other: &Self) -> (r: bool)
        ensures
            r == (old(self).name@ != other.name@),
            final (self).name@ == other.name@,
            final (self).lights == old(self).lights,
            final (self).id == old(self).id,
            final (self).linked == old(self).linked,
            !r ==> *final (self) == *old(self),
    {
        if str_eq(self.name.as_str(), other.name.as_str()) {
            return false;
        }
        self.name = other.name.clone();
        true
    }
}

} // verus!
