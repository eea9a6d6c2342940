use crate::types::{ActorId, LightColor};
use sails_rs::collections::HashMap;
use vstd::prelude::*;

verus! {

/// The colour that each caller last switched the light to, held in the
/// hash map that the `sails_rs` collections provide.
#[verifier::external_body]
pub struct UserTable {
    map: HashMap<ActorId, LightColor>,
}

/// What a [`UserTable`] holds: each caller's last colour.
pub uninterp spec fn users_of(t: UserTable) -> Map<ActorId, LightColor>;

/// `v` lists each entry of `m` exactly once, in any order.
pub open spec fn lists_entries(v: Seq<(ActorId, LightColor)>, m: Map<ActorId, LightColor>) -> bool {
    &&& forall|i: int| 0 <= i < v.len() ==> #[trigger] m.contains_key(v[i].0) && m[v[i].0] == v[i].1
    &&& forall|i: int, j: int| 0 <= i < j < v.len() ==> #[trigger] v[i].0 != #[trigger] v[j].0
    &&& forall|a: ActorId| #[trigger]
        m.contains_key(a) ==> exists|i: int| 0 <= i < v.len() && #[trigger] v[i].0 == a
}

impl UserTable {
    /// Relies on `HashMap::new`: the new map holds no entry.
    #[verifier::external_body]
    pub(crate) fn new() -> (r: UserTable)
        ensures
            users_of(r) =~= Map::empty(),
    {
        UserTable { map: HashMap::new() }
    }

    /// Relies on `HashMap::insert`: the key is bound to the value, replacing
    /// any earlier binding, and every other entry is kept.
    #[verifier::external_body]
    pub(crate) fn insert(&mut self, actor: ActorId, color: LightColor)
        ensures
            users_of(*final(self)) == users_of(*old(self)).insert(actor, color),
    {
        self.map.insert(actor, color);
    }

    /// Relies on `HashMap::get`: the value bound to the key, if any.
    #[verifier::external_body]
    pub(crate) fn get(&self, actor: &ActorId) -> (r: Option<LightColor>)
        ensures
            r == (if users_of(*self).contains_key(*actor) {
                Some(users_of(*self)[*actor])
            } else {
                None
            }),
    {
        self.map.get(actor).copied()
    }

    /// Relies on `HashMap::iter`: each entry is visited exactly once, in an
    /// order that the map does not fix.
    #[verifier::external_body]
    pub(crate) fn entries(&self) -> (r: Vec<(ActorId, LightColor)>)
        ensures
            lists_entries(r@, users_of(*self)),
    {
        self.map.iter().map(|(k, v)| (*k, *v)).collect()
    }
}

} // verus!
