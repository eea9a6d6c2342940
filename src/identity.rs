use crate::types::{ActorId, IdentityError};
use vstd::prelude::*;

verus! {

/// The outcome of checking that `actor` may act under `alias`.
pub open spec fn check_outcome(
    registry: Map<Seq<char>, ActorId>,
    actor: ActorId,
    alias: Seq<char>,
) -> Result<(), IdentityError> {
    if !registry.contains_key(alias) {
        Err(IdentityError::UnknownAlias)
    } else if registry[alias] != actor {
        Err(IdentityError::AddressMismatch)
    } else {
        Ok(())
    }
}

/// Binds human-chosen aliases to caller addresses, one address per alias.
pub struct IdentityGate {
    bindings: Vec<(String, ActorId)>,
}

impl View for IdentityGate {
    type V = Map<Seq<char>, ActorId>;

    closed spec fn view(&self) -> Map<Seq<char>, ActorId> {
        Map::new(
            |a: Seq<char>| self.has_alias_at(a),
            |a: Seq<char>| self.bindings@[self.index_of(a)].1,
        )
    }
}

impl IdentityGate {
    spec fn alias_at(&self, i: int) -> Seq<char> {
        self.bindings@[i].0@
    }

    spec fn has_alias_at(&self, a: Seq<char>) -> bool {
        exists|i: int| 0 <= i < self.bindings@.len() && #[trigger] self.alias_at(i) == a
    }

    spec fn index_of(&self, a: Seq<char>) -> int {
        choose|i: int| 0 <= i < self.bindings@.len() && #[trigger] self.alias_at(i) == a
    }

    /// No alias is bound twice.
    pub closed spec fn wf(&self) -> bool {
        forall|i: int, j: int|
            0 <= i < j < self.bindings@.len()
                ==> #[trigger] self.alias_at(i) != #[trigger] self.alias_at(j)
    }

    proof fn lemma_lookup_at(&self, i: int)
        requires
            self.wf(),
            0 <= i < self.bindings@.len(),
        ensures
            self@.contains_key(self.alias_at(i)),
            self@[self.alias_at(i)] == self.bindings@[i].1,
    {
        let a = self.alias_at(i);
        assert(self.has_alias_at(a));
        let k = self.index_of(a);
        assert(self.alias_at(k) == a);
        if k != i {
            if k < i {
                assert(self.alias_at(k) != self.alias_at(i));
            } else {
                assert(self.alias_at(i) != self.alias_at(k));
            }
        }
    }

    /// An empty registry.
    pub fn new() -> (r: IdentityGate)
        ensures
            r.wf(),
            r@ =~= Map::empty(),
    {
        IdentityGate { bindings: Vec::new() }
    }

    /// The position at which `alias` is bound, if it is.
    fn position(&self, alias: &String) -> (r: Option<usize>)
        requires
            self.wf(),
        ensures
            r.is_none() == !self@.contains_key(alias@),
            r.is_some() ==> r.unwrap() < self.bindings@.len() && self.alias_at(r.unwrap() as int)
                == alias@,
    {
        let mut i: usize = 0;
        while i < self.bindings.len()
            invariant
                0 <= i <= self.bindings@.len(),
                forall|j: int| 0 <= j < i ==> #[trigger] self.alias_at(j) != alias@,
            decreases self.bindings@.len() - i,
        {
            if self.bindings[i].0 == *alias {
                proof {
                    assert(self.alias_at(i as int) == alias@);
                }
                return Some(i);
            }
            i = i + 1;
        }
        None
    }

    /// Binds `alias` to `actor`; a later registration of the same alias
    /// replaces the earlier one.
    pub fn register(&mut self, alias: String, actor: ActorId)
        requires
            old(self).wf(),
        ensures
            final(self).wf(),
            final(self)@ == old(self)@.insert(alias@, actor),
    {
        let ghost key = alias@;
        match self.position(&alias) {
            Some(i) => {
                self.bindings.set(i, (alias, actor));
                proof {
                    assert forall|j: int| 0 <= j < self.bindings@.len() implies
                        #[trigger] self.alias_at(j) == old(self).alias_at(j) by {}
                    assert(self.wf());
                    assert forall|a: Seq<char>| #[trigger]
                        self@.contains_key(a) == old(self)@.insert(key, actor).contains_key(a) by {
                        if old(self).has_alias_at(a) {
                            let k = old(self).index_of(a);
                            assert(self.alias_at(k) == a);
                        }
                        if self.has_alias_at(a) {
                            let k = self.index_of(a);
                            assert(old(self).alias_at(k) == a || k == i);
                        }
                    }
                    assert forall|a: Seq<char>| #[trigger] self@.contains_key(a) implies self@[a]
                        == old(self)@.insert(key, actor)[a] by {
                        let k = self.index_of(a);
                        self.lemma_lookup_at(k);
                        if k != i {
                            old(self).lemma_lookup_at(k);
                        }
                    }
                    assert(self@ =~= old(self)@.insert(key, actor));
                }
            },
            None => {
                self.bindings.push((alias, actor));
                proof {
                    let n = old(self).bindings@.len() as int;
                    assert(self.alias_at(n) == key);
                    assert forall|j: int| 0 <= j < n implies #[trigger] self.alias_at(j) == old(
                        self,
                    ).alias_at(j) && self.alias_at(j) != key by {}
                    assert(self.wf());
                    assert forall|a: Seq<char>| #[trigger]
                        self@.contains_key(a) == old(self)@.insert(key, actor).contains_key(a) by {
                        if old(self).has_alias_at(a) {
                            let k = old(self).index_of(a);
                            assert(self.alias_at(k) == a);
                        }
                        if self.has_alias_at(a) && a != key {
                            let k = self.index_of(a);
                            assert(old(self).alias_at(k) == a);
                        }
                    }
                    assert forall|a: Seq<char>| #[trigger] self@.contains_key(a) implies self@[a]
                        == old(self)@.insert(key, actor)[a] by {
                        let k = self.index_of(a);
                        self.lemma_lookup_at(k);
                        if k != n {
                            old(self).lemma_lookup_at(k);
                        }
                    }
                    assert(self@ =~= old(self)@.insert(key, actor));
                }
            },
        }
    }

    /// The address bound to `alias`, if any.
    pub fn lookup(&self, alias: &String) -> (r: Option<ActorId>)
        requires
            self.wf(),
        ensures
            r == (if self@.contains_key(alias@) {
                Some(self@[alias@])
            } else {
                None
            }),
    {
        match self.position(alias) {
            Some(i) => {
                proof {
                    self.lemma_lookup_at(i as int);
                }
                Some(self.bindings[i].1)
            },
            None => None,
        }
    }

    /// Confirms that `actor` is the address registered under `alias`. Reads
    /// the registry only.
    pub fn check(&self, actor: &ActorId, alias: &String) -> (r: Result<(), IdentityError>)
        requires
            self.wf(),
        ensures
            r == check_outcome(self@, *actor, alias@),
    {
        match self.lookup(alias) {
            None => Err(IdentityError::UnknownAlias),
            Some(bound) => {
                if bound.same_as(actor) {
                    Ok(())
                } else {
                    Err(IdentityError::AddressMismatch)
                }
            },
        }
    }
}

} // verus!
