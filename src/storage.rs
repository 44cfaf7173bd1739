use vstd::prelude::*;

use crate::backend::Backend;
use crate::id::Id;

verus! {

/// One slot of a registry: free, holding a valid resource, or holding a
/// resource that failed validation together with its label and cause.
pub enum Element<T, E> {
    Vacant,
    Occupied(T, u32),
    Error(u32, String, E),
}

/// The element that `id` names in `s`: the slot at its index if that slot is
/// taken at the identifier's epoch, and `Vacant` otherwise.
pub open spec fn slot<T, E>(s: Seq<Element<T, E>>, id: Id) -> Element<T, E> {
    if id.index < s.len() {
        match s[id.index as int] {
            Element::Occupied(v, e) => if e == id.epoch {
                Element::Occupied(v, e)
            } else {
                Element::Vacant
            },
            Element::Error(e, l, c) => if e == id.epoch {
                Element::Error(e, l, c)
            } else {
                Element::Vacant
            },
            Element::Vacant => Element::Vacant,
        }
    } else {
        Element::Vacant
    }
}

/// Whether `id` may be bound in `s`: its slot is free or not there yet.
pub open spec fn can_insert<T, E>(s: Seq<Element<T, E>>, id: Id) -> bool {
    id.index >= s.len() || s[id.index as int] is Vacant
}

/// The registry grown with free slots to at least `n` slots.
pub open spec fn grown<T, E>(s: Seq<Element<T, E>>, n: int) -> Seq<Element<T, E>> {
    if n <= s.len() {
        s
    } else {
        s + Seq::new((n - s.len()) as nat, |i: int| Element::<T, E>::Vacant)
    }
}

/// The registry after binding `id` to `e`, grown with free slots up to the
/// identifier's slot where needed.
pub open spec fn inserted<T, E>(s: Seq<Element<T, E>>, id: Id, e: Element<T, E>) -> Seq<
    Element<T, E>,
> {
    grown(s, id.index + 1).update(id.index as int, e)
}

/// The registry after freeing the slot that `id` names, if it names one.
pub open spec fn removed<T, E>(s: Seq<Element<T, E>>, id: Id) -> Seq<Element<T, E>> {
    if slot(s, id) is Vacant {
        s
    } else {
        s.update(id.index as int, Element::Vacant)
    }
}

/// The number of slots of `s` that satisfy `p`.
pub open spec fn count_where<T, E>(s: Seq<Element<T, E>>, p: spec_fn(Element<T, E>) -> bool) -> nat
    decreases s.len(),
{
    if s.len() == 0 {
        0
    } else {
        count_where(s.drop_last(), p) + if p(s.last()) {
            1nat
        } else {
            0nat
        }
    }
}

/// Slots holding a valid resource.
pub open spec fn is_occupied<T, E>() -> spec_fn(Element<T, E>) -> bool {
    |e: Element<T, E>| e is Occupied
}

/// Slots holding a resource that failed validation.
pub open spec fn is_error<T, E>() -> spec_fn(Element<T, E>) -> bool {
    |e: Element<T, E>| e is Error
}

/// Free slots.
pub open spec fn is_vacant<T, E>() -> spec_fn(Element<T, E>) -> bool {
    |e: Element<T, E>| e is Vacant
}

/// After binding `id` to `e`, `id` names `e`, provided `e` is taken at the
/// identifier's epoch.
pub proof fn lemma_slot_after_insert<T, E>(s: Seq<Element<T, E>>, id: Id, e: Element<T, E>)
    requires
        match e {
            Element::Occupied(_, ep) => ep == id.epoch,
            Element::Error(ep, _, _) => ep == id.epoch,
            Element::Vacant => true,
        },
    ensures
        slot(inserted(s, id, e), id) == e,
{
}

/// A census of one registry.
#[derive(Clone, Copy, Debug, PartialEq, Eq, Structural)]
pub struct RegistryReport {
    /// Slots holding a valid resource.
    pub num_allocated: usize,
    /// Slots whose identifier the user still holds: valid or errored.
    pub num_kept_from_user: usize,
    /// Free slots.
    pub num_released_from_user: usize,
    /// Slots holding a resource that failed validation.
    pub num_error: usize,
}

/// The census of the slots `s`.
pub open spec fn report_of<T, E>(s: Seq<Element<T, E>>) -> RegistryReport {
    RegistryReport {
        num_allocated: count_where(s, is_occupied()) as usize,
        num_kept_from_user: (count_where(s, is_occupied()) + count_where(s, is_error())) as usize,
        num_released_from_user: count_where(s, is_vacant()) as usize,
        num_error: count_where(s, is_error()) as usize,
    }
}

/// Each kind of slot is counted at most once per slot.
pub proof fn lemma_counts_bounded<T, E>(s: Seq<Element<T, E>>)
    ensures
        count_where(s, is_occupied()) + count_where(s, is_error()) + count_where(s, is_vacant())
            == s.len(),
    decreases s.len(),
{
    if s.len() > 0 {
        lemma_counts_bounded(s.drop_last());
    }
}

/// A registry of resources of one kind, indexed by identifier.
pub struct Storage<T, E> {
    map: Vec<Element<T, E>>,
}

impl<T, E> View for Storage<T, E> {
    type V = Seq<Element<T, E>>;

    closed spec fn view(&self) -> Seq<Element<T, E>> {
        self.map@
    }
}

impl<T, E> Storage<T, E> {
    /// An empty registry.
    pub fn new() -> (r: Self)
        ensures
            r@.len() == 0,
    {
        Storage { map: Vec::new() }
    }

    /// The number of slots.
    pub fn len(&self) -> (r: usize)
        ensures
            r == self@.len(),
    {
        self.map.len()
    }

    /// A fresh identifier on `backend`: the next slot, at epoch one.
    pub fn next_id(&self, backend: Backend) -> (r: Id)
        ensures
            r == (Id { index: self@.len() as usize, epoch: 1, backend }),
            can_insert(self@, r),
    {
        Id { index: self.map.len(), epoch: 1, backend }
    }

    /// Whether `id` may be bound here.
    pub fn can_insert(&self, id: Id) -> (r: bool)
        ensures
            r == can_insert(self@, id),
    {
        if id.index < self.map.len() {
            match &self.map[id.index] {
                Element::Vacant => true,
                _ => false,
            }
        } else {
            true
        }
    }

    /// The element that `id` names, or `None` where it names none.
    pub fn get(&self, id: Id) -> (r: Option<&Element<T, E>>)
        ensures
            match r {
                Some(e) => *e == slot(self@, id) && !(slot(self@, id) is Vacant),
                None => slot(self@, id) is Vacant,
            },
    {
        if id.index >= self.map.len() {
            return None;
        }
        let e = &self.map[id.index];
        match e {
            Element::Occupied(_, epoch) => if *epoch == id.epoch {
                Some(e)
            } else {
                None
            },
            Element::Error(epoch, _, _) => if *epoch == id.epoch {
                Some(e)
            } else {
                None
            },
            Element::Vacant => None,
        }
    }

    /// Bind `id` to `e`, adding free slots up to the identifier's slot where
    /// needed.
    pub fn insert(&mut self, id: Id, e: Element<T, E>)
        requires
            can_insert(old(self)@, id),
        ensures
            final(self)@ == inserted(old(self)@, id, e),
    {
        if id.index < self.map.len() {
            let _ = self.map.remove(id.index);
            self.map.insert(id.index, e);
            proof {
                assert(self@ =~= inserted(old(self)@, id, e));
            }
        } else {
            let ghost n = old(self)@.len();
            while self.map.len() < id.index
                invariant
                    n <= self.map@.len() <= id.index,
                    self.map@ =~= grown(old(self)@, self.map@.len() as int),
                decreases id.index - self.map@.len(),
            {
                self.map.push(Element::Vacant);
                proof {
                    assert(self.map@ =~= grown(old(self)@, self.map@.len() as int));
                }
            }
            self.map.push(e);
            proof {
                assert(self@ =~= inserted(old(self)@, id, e));
            }
        }
    }

    /// Take the element at `index` out, leaving the slot free.
    pub fn take(&mut self, index: usize) -> (r: Element<T, E>)
        requires
            index < old(self)@.len(),
        ensures
            r == old(self)@[index as int],
            final(self)@ == old(self)@.update(index as int, Element::Vacant),
    {
        let r = self.map.remove(index);
        self.map.insert(index, Element::Vacant);
        proof {
            assert(self@ =~= old(self)@.update(index as int, Element::Vacant));
        }
        r
    }

    /// Put `e` into the slot at `index`.
    pub fn put(&mut self, index: usize, e: Element<T, E>)
        requires
            index < old(self)@.len(),
        ensures
            final(self)@ == old(self)@.update(index as int, e),
    {
        let _ = self.map.remove(index);
        self.map.insert(index, e);
        proof {
            assert(self@ =~= old(self)@.update(index as int, e));
        }
    }

    /// Free the slot that `id` names, if it names one.
    pub fn remove(&mut self, id: Id)
        ensures
            final(self)@ == removed(old(self)@, id),
    {
        let found = match self.get(id) {
            Some(_) => true,
            None => false,
        };
        if found {
            let _ = self.take(id.index);
        }
    }

    /// Free every slot.
    pub fn clear(&mut self)
        ensures
            final(self)@.len() == 0,
    {
        self.map.clear();
    }

    /// A census of the slots.
    pub fn generate_report(&self) -> (r: RegistryReport)
        ensures
            r == report_of(self@),
    {
        let mut occupied: usize = 0;
        let mut error: usize = 0;
        let mut vacant: usize = 0;
        let mut i: usize = 0;
        while i < self.map.len()
            invariant
                i <= self.map@.len(),
                occupied == count_where(self.map@.subrange(0, i as int), is_occupied()),
                error == count_where(self.map@.subrange(0, i as int), is_error()),
                vacant == count_where(self.map@.subrange(0, i as int), is_vacant()),
            decreases self.map@.len() - i,
        {
            let ghost pre = self.map@.subrange(0, i as int);
            let ghost post = self.map@.subrange(0, i + 1);
            proof {
                assert(post.drop_last() =~= pre);
                lemma_counts_bounded(pre);
            }
            match &self.map[i] {
                Element::Occupied(_, _) => {
                    occupied = occupied + 1;
                },
                Element::Error(_, _, _) => {
                    error = error + 1;
                },
                Element::Vacant => {
                    vacant = vacant + 1;
                },
            }
            i = i + 1;
        }
        proof {
            assert(self.map@.subrange(0, i as int) =~= self@);
            lemma_counts_bounded(self@);
        }
        RegistryReport {
            num_allocated: occupied,
            num_kept_from_user: occupied + error,
            num_released_from_user: vacant,
            num_error: error,
        }
    }
}

} // verus!
