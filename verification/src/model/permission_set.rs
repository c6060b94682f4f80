//! A finite set of permission kinds.

use crate::model::auth::PermissionType;
use vstd::prelude::*;

verus! {

/// The permission kinds an identity holds. Each kind is stored at most once;
/// the order of insertion carries no meaning.
#[derive(Debug)]
pub struct PermissionSet {
    items: Vec<PermissionType>,
}

impl View for PermissionSet {
    type V = Set<PermissionType>;

    closed spec fn view(&self) -> Set<PermissionType> {
        self.items@.to_set()
    }
}

impl PermissionSet {
    #[verifier::type_invariant]
    spec fn stored_once(self) -> bool {
        self.items@.no_duplicates()
    }

    /// The kinds that a list of stored permission names stands for.
    pub open spec fn of_names(names: Seq<Seq<char>>) -> Set<PermissionType> {
        names.map_values(|name: Seq<char>| PermissionType::parse(name)).to_set()
    }

    /// The set of the four assignable kinds.
    pub open spec fn all_assignable() -> Set<PermissionType> {
        PermissionType::catalog().to_set()
    }

    /// Whether a holder of `held` may do what `kind` stands for. `Unknown`
    /// grants nothing, whether it is held or not.
    pub open spec fn allows(held: Set<PermissionType>, kind: PermissionType) -> bool {
        kind.assignable() && held.contains(kind)
    }

    fn stored(&self) -> (items: Vec<PermissionType>)
        ensures
            items@ == self.items@,
    {
        let mut items: Vec<PermissionType> = Vec::new();
        let mut i: usize = 0;
        while i < self.items.len()
            invariant
                i <= self.items@.len(),
                items@ == self.items@.take(i as int),
            decreases self.items@.len() - i,
        {
            items.push(self.items[i]);
            assert(self.items@.take(i as int).push(self.items@[i as int]) =~= self.items@.take(
                i + 1,
            ));
            i += 1;
        }
        items
    }

    pub fn new() -> (set: PermissionSet)
        ensures
            set@ == Set::<PermissionType>::empty(),
    {
        let set = PermissionSet { items: Vec::new() };
        set
    }

    pub fn contains(&self, kind: PermissionType) -> (found: bool)
        ensures
            found == self@.contains(kind),
    {
        let mut i: usize = 0;
        while i < self.items.len()
            invariant
                i <= self.items@.len(),
                forall|j: int| 0 <= j < i ==> self.items@[j] != kind,
            decreases self.items@.len() - i,
        {
            if self.items[i] == kind {
                return true;
            }
            i += 1;
        }
        false
    }

    /// Adds a kind. Returns whether the set did not hold it before.
    pub fn insert(&mut self, kind: PermissionType) -> (added: bool)
        ensures
            final(self)@ == old(self)@.insert(kind),
            added == !old(self)@.contains(kind),
    {
        proof {
            use_type_invariant(&*self);
        }
        if self.contains(kind) {
            false
        } else {
            let mut items = self.stored();
            proof {
                items@.lemma_push_to_set_commute(kind);
            }
            items.push(kind);
            *self = PermissionSet { items };
            true
        }
    }

    /// How many kinds the set holds.
    pub fn len(&self) -> (count: usize)
        ensures
            count == self@.len(),
            self@.finite(),
    {
        proof {
            use_type_invariant(self);
            self.items@.unique_seq_to_set();
            vstd::seq_lib::seq_to_set_is_finite(self.items@);
        }
        self.items.len()
    }

    /// Whether the holder may do what `kind` stands for.
    pub fn grants(&self, kind: PermissionType) -> (allowed: bool)
        ensures
            allowed == PermissionSet::allows(self@, kind),
    {
        kind.is_assignable() && self.contains(kind)
    }

    /// The full set of assignable kinds.
    pub fn full() -> (set: PermissionSet)
        ensures
            set@ == PermissionSet::all_assignable(),
    {
        let all = PermissionType::variants();
        let mut set = PermissionSet::new();
        let mut i: usize = 0;
        while i < all.len()
            invariant
                i <= all@.len(),
                set@ == all@.take(i as int).to_set(),
            decreases all@.len() - i,
        {
            proof {
                all@.take(i as int).lemma_push_to_set_commute(all@[i as int]);
                assert(all@.take(i as int).push(all@[i as int]) =~= all@.take(i + 1));
            }
            set.insert(all[i]);
            i += 1;
        }
        assert(all@.take(all@.len() as int) =~= all@);
        set
    }

    /// The kinds that stored permission names stand for. Names repeat
    /// without effect, and a name outside the catalog adds `Unknown`.
    pub fn from_names(names: &Vec<String>) -> (set: PermissionSet)
        ensures
            set@ == PermissionSet::of_names(names.deep_view()),
    {
        let ghost kinds = names.deep_view().map_values(
            |name: Seq<char>| PermissionType::parse(name),
        );
        let mut set = PermissionSet::new();
        let mut i: usize = 0;
        while i < names.len()
            invariant
                i <= names@.len(),
                kinds == names.deep_view().map_values(
                    |name: Seq<char>| PermissionType::parse(name),
                ),
                set@ == kinds.take(i as int).to_set(),
            decreases names@.len() - i,
        {
            let kind = PermissionType::from(names[i].clone());
            proof {
                kinds.take(i as int).lemma_push_to_set_commute(kind);
                assert(kinds.take(i as int).push(kind) =~= kinds.take(i + 1));
            }
            set.insert(kind);
            i += 1;
        }
        assert(kinds.take(kinds.len() as int) =~= kinds);
        set
    }
}

impl Clone for PermissionSet {
    fn clone(&self) -> (copy: PermissionSet)
        ensures
            copy@ == self@,
    {
        proof {
            use_type_invariant(self);
        }
        PermissionSet { items: self.stored() }
    }
}

} // verus!
