//! Slot containers with stable integer handles.
//!
//! A [`FreeList`] stores values in a dense array of slots and hands out the
//! slot index as a handle. A released slot joins a chain of vacancies threaded
//! through the vacant slots themselves, so both allocation and release take
//! constant time, and the slot released last is the one reused first.
use vstd::prelude::*;

verus! {

/// One cell of a [`FreeList`]: either a live value, or a vacancy that
/// remembers the vacancy released before it.
enum Slot<T> {
    Occupied(T),
    Vacant(Option<usize>),
}

/// What a [`FreeList`] holds, as mathematics: the content of every slot and
/// the order in which vacant slots will be reused.
pub struct FreeListView<T> {
    /// `Some(v)` for a slot that holds the live value `v`, `None` for a vacancy.
    pub slots: Seq<Option<T>>,
    /// The vacant slot indices, the one to be reused next at the front.
    pub free: Seq<int>,
}

impl<T> FreeListView<T> {
    /// The list with no slots at all.
    pub open spec fn empty() -> Self {
        FreeListView { slots: Seq::empty(), free: Seq::empty() }
    }

    /// The reuse chain lists every vacant slot exactly once and nothing else.
    pub open spec fn wf(self) -> bool {
        &&& self.free.no_duplicates()
        &&& forall|k: int|
            0 <= k < self.free.len() ==> 0 <= #[trigger] self.free[k] < self.slots.len()
                && self.slots[self.free[k]] is None
        &&& forall|i: int|
            0 <= i < self.slots.len() && (#[trigger] self.slots[i]) is None
                ==> self.free.contains(i)
    }

    /// Whether `index` names a slot that currently holds a value.
    pub open spec fn is_live(self, index: int) -> bool {
        0 <= index < self.slots.len() && self.slots[index] is Some
    }

    /// The set of handles that currently name a value.
    pub open spec fn live(self) -> Set<int> {
        Set::new(|index: int| self.is_live(index))
    }

    /// How many slots hold a value.
    pub open spec fn live_count(self) -> int {
        self.slots.len() - self.free.len()
    }

    /// The handle that the next allocation returns: the slot released last if
    /// any slot is vacant, otherwise a fresh slot past the end.
    pub open spec fn next_index(self) -> int {
        if self.free.len() > 0 {
            self.free[0]
        } else {
            self.slots.len() as int
        }
    }

    /// The list after storing `value` at [`Self::next_index`].
    pub open spec fn allocate(self, value: T) -> Self {
        if self.free.len() > 0 {
            FreeListView {
                slots: self.slots.update(self.free[0], Some(value)),
                free: self.free.drop_first(),
            }
        } else {
            FreeListView { slots: self.slots.push(Some(value)), free: self.free }
        }
    }

    /// The list after releasing `index`. Releasing a handle that names no
    /// value changes nothing.
    pub open spec fn release(self, index: int) -> Self {
        if self.is_live(index) {
            FreeListView {
                slots: self.slots.update(index, None),
                free: seq![index] + self.free,
            }
        } else {
            self
        }
    }

    /// Allocation keeps the list well formed, never lands on a live slot, makes
    /// exactly the returned handle live, and leaves every other slot alone.
    pub proof fn lemma_allocate(self, value: T)
        requires
            self.wf(),
        ensures
            self.allocate(value).wf(),
            !self.is_live(self.next_index()),
            0 <= self.next_index() <= self.slots.len(),
            self.allocate(value).slots[self.next_index()] == Some(value),
            self.allocate(value).live_count() == self.live_count() + 1,
            self.allocate(value).live() == self.live().insert(self.next_index()),
            forall|i: int|
                0 <= i < self.slots.len() && i != self.next_index() ==> (
                #[trigger] self.allocate(value).slots[i]) == self.slots[i],
    {
        let after = self.allocate(value);
        let index = self.next_index();
        if self.free.len() > 0 {
            assert(self.free[0] == index);
            assert forall|k: int| 0 <= k < after.free.len() implies 0 <= #[trigger] after.free[k]
                < after.slots.len() && after.slots[after.free[k]] is None by {
                assert(after.free[k] == self.free[k + 1]);
                assert(self.free[k + 1] != self.free[0]);
            }
            assert forall|i: int|
                0 <= i < after.slots.len() && (#[trigger] after.slots[i]) is None implies after.free.contains(
                i) by {
                assert(self.slots[i] is None);
                let k = choose|k: int| 0 <= k < self.free.len() && self.free[k] == i;
                assert(k != 0);
                assert(after.free[k - 1] == i);
            }
        } else {
            assert forall|i: int|
                0 <= i < after.slots.len() && (#[trigger] after.slots[i]) is None implies after.free.contains(
                i) by {
                assert(self.slots[i] is None);
            }
        }
        assert(after.live() =~= self.live().insert(index));
    }

    /// Release keeps the list well formed, and after releasing a live handle
    /// that handle is vacant and is the one the next allocation returns.
    pub proof fn lemma_release(self, index: int)
        requires
            self.wf(),
        ensures
            self.release(index).wf(),
            !self.release(index).is_live(index),
            self.is_live(index) ==> self.release(index).next_index() == index,
            self.is_live(index) ==> self.release(index).live_count() == self.live_count() - 1,
            self.release(index).live() == self.live().remove(index),
            forall|i: int|
                0 <= i < self.slots.len() && i != index ==> (#[trigger] self.release(index).slots[i])
                    == self.slots[i],
    {
        let after = self.release(index);
        if self.is_live(index) {
            assert(after.free[0] == index);
            assert forall|j: int, k: int|
                0 <= j < after.free.len() && 0 <= k < after.free.len() && j != k implies after.free[j]
                != after.free[k] by {
                if j > 0 && k > 0 {
                    assert(after.free[j] == self.free[j - 1]);
                    assert(after.free[k] == self.free[k - 1]);
                } else if j > 0 {
                    assert(after.free[j] == self.free[j - 1]);
                } else {
                    assert(after.free[k] == self.free[k - 1]);
                }
            }
            assert forall|k: int| 0 <= k < after.free.len() implies 0 <= #[trigger] after.free[k]
                < after.slots.len() && after.slots[after.free[k]] is None by {
                if k > 0 {
                    assert(after.free[k] == self.free[k - 1]);
                }
            }
            assert forall|i: int|
                0 <= i < after.slots.len() && (#[trigger] after.slots[i]) is None implies after.free.contains(
                i) by {
                if i == index {
                    assert(after.free[0] == i);
                } else {
                    assert(self.slots[i] is None);
                    let k = choose|k: int| 0 <= k < self.free.len() && self.free[k] == i;
                    assert(after.free[k + 1] == i);
                }
            }
        }
        assert(after.live() =~= self.live().remove(index));
    }

    /// A slot released and then allocated again gets its old handle back, and
    /// the new value is the one stored under it.
    pub proof fn lemma_release_then_allocate(self, index: int, value: T)
        requires
            self.wf(),
            self.is_live(index),
        ensures
            self.release(index).next_index() == index,
            self.release(index).allocate(value).slots == self.slots.update(index, Some(value)),
            self.release(index).allocate(value).free == self.free,
    {
        let released = self.release(index);
        assert(released.free[0] == index);
        assert(released.free.drop_first() =~= self.free);
        assert(released.slots.update(index, Some(value)) =~= self.slots.update(
            index,
            Some(value),
        ));
    }

    /// The live handles are finitely many, and [`Self::live_count`] counts them.
    pub proof fn lemma_live_count(self)
        requires
            self.wf(),
        ensures
            self.live().finite(),
            self.live().len() == self.live_count(),
            0 <= self.live_count() <= self.slots.len(),
        decreases self.slots.len(),
    {
        if self.slots.len() == 0 {
            assert(self.live() =~= Set::empty());
            assert(self.free.len() == 0) by {
                if self.free.len() > 0 {
                    assert(0 <= self.free[0] < self.slots.len());
                }
            }
        } else {
            let last = self.slots.len() - 1;
            if self.slots[last] is Some {
                let rest = FreeListView { slots: self.slots.drop_last(), free: self.free };
                assert(rest.wf()) by {
                    assert forall|k: int| 0 <= k < rest.free.len() implies 0 <= #[trigger] rest.free[k]
                        < rest.slots.len() && rest.slots[rest.free[k]] is None by {
                        assert(self.slots[self.free[k]] is None);
                    }
                    assert forall|i: int|
                        0 <= i < rest.slots.len() && (#[trigger] rest.slots[i]) is None implies rest.free.contains(
                        i) by {
                        assert(self.slots[i] is None);
                    }
                }
                rest.lemma_live_count();
                assert(self.live() =~= rest.live().insert(last));
            } else {
                let k = choose|k: int| 0 <= k < self.free.len() && self.free[k] == last;
                let rest = FreeListView { slots: self.slots.drop_last(), free: self.free.remove(k) };
                assert(rest.wf()) by {
                    assert forall|j: int| 0 <= j < rest.free.len() implies 0 <= #[trigger] rest.free[j]
                        < rest.slots.len() && rest.slots[rest.free[j]] is None by {
                        if j < k {
                            assert(rest.free[j] == self.free[j]);
                        } else {
                            assert(rest.free[j] == self.free[j + 1]);
                        }
                    }
                    assert forall|i: int, j: int|
                        0 <= i < rest.free.len() && 0 <= j < rest.free.len() && i != j implies rest.free[i]
                        != rest.free[j] by {
                        let si = if i < k { i } else { i + 1 };
                        let sj = if j < k { j } else { j + 1 };
                        assert(rest.free[i] == self.free[si]);
                        assert(rest.free[j] == self.free[sj]);
                    }
                    assert forall|i: int|
                        0 <= i < rest.slots.len() && (#[trigger] rest.slots[i]) is None implies rest.free.contains(
                        i) by {
                        assert(self.slots[i] is None);
                        let j = choose|j: int| 0 <= j < self.free.len() && self.free[j] == i;
                        if j < k {
                            assert(rest.free[j] == i);
                        } else {
                            assert(rest.free[j - 1] == i);
                        }
                    }
                }
                rest.lemma_live_count();
                assert(self.live() =~= rest.live());
            }
        }
    }
}

/// A pool of values addressed by stable integer handles.
///
/// A handle stays valid until it is released; the slot released last is the
/// first to be reused.
pub struct FreeList<T> {
    slots: Vec<Slot<T>>,
    first_free: Option<usize>,
    live: usize,
    free: Ghost<Seq<int>>,
}

impl<T> View for FreeList<T> {
    type V = FreeListView<T>;

    closed spec fn view(&self) -> FreeListView<T> {
        FreeListView {
            slots: Seq::new(
                self.slots@.len(),
                |i: int|
                    match self.slots@[i] {
                        Slot::Occupied(value) => Some(value),
                        Slot::Vacant(_) => None,
                    },
            ),
            free: self.free@,
        }
    }
}

/// Whether the link stored in a vacant slot points at position `k` of the
/// reuse chain, or at nothing when the chain ends before `k`.
spec fn links_to(next: Option<usize>, chain: Seq<int>, k: int) -> bool {
    match next {
        Some(index) => k < chain.len() && chain[k] == index as int,
        None => k >= chain.len(),
    }
}

/// Every slot on the reuse chain is vacant and links to its successor.
spec fn chain_linked<T>(cells: Seq<Slot<T>>, chain: Seq<int>) -> bool {
    forall|k: int|
        0 <= k < chain.len() ==> 0 <= #[trigger] chain[k] < cells.len() && match cells[chain[k]] {
            Slot::Vacant(next) => links_to(next, chain, k + 1),
            Slot::Occupied(_) => false,
        }
}

proof fn lemma_chain_after_release<T>(
    cells: Seq<Slot<T>>,
    chain: Seq<int>,
    head: Option<usize>,
    index: int,
)
    requires
        chain_linked(cells, chain),
        links_to(head, chain, 0),
        0 <= index < cells.len(),
        cells[index] is Occupied,
    ensures
        chain_linked(cells.update(index, Slot::Vacant(head)), seq![index] + chain),
{
    let cells2 = cells.update(index, Slot::Vacant(head));
    let chain2 = seq![index] + chain;
    assert forall|k: int| 0 <= k < chain2.len() implies 0 <= #[trigger] chain2[k] < cells2.len()
        && match cells2[chain2[k]] {
        Slot::Vacant(next) => links_to(next, chain2, k + 1),
        Slot::Occupied(_) => false,
    } by {
        if k > 0 {
            assert(chain2[k] == chain[k - 1]);
            assert(cells[chain[k - 1]] is Vacant);
            assert(cells2[chain2[k]] == cells[chain[k - 1]]);
            if k < chain.len() {
                assert(chain2[k + 1] == chain[k]);
            }
        } else {
            assert(chain2[0] == index);
            if chain.len() > 0 {
                assert(chain2[1] == chain[0]);
            }
        }
    }
}

proof fn lemma_chain_after_allocate<T>(cells: Seq<Slot<T>>, chain: Seq<int>, value: T)
    requires
        chain_linked(cells, chain),
        chain.no_duplicates(),
        chain.len() > 0,
    ensures
        chain_linked(cells.update(chain[0], Slot::Occupied(value)), chain.drop_first()),
        match cells[chain[0]] {
            Slot::Vacant(next) => links_to(next, chain.drop_first(), 0),
            Slot::Occupied(_) => false,
        },
{
    let cells2 = cells.update(chain[0], Slot::Occupied(value));
    let chain2 = chain.drop_first();
    assert(0 <= chain[0] < cells.len());
    if chain.len() > 1 {
        assert(chain2[0] == chain[1]);
    }
    assert forall|k: int| 0 <= k < chain2.len() implies 0 <= #[trigger] chain2[k] < cells2.len()
        && match cells2[chain2[k]] {
        Slot::Vacant(next) => links_to(next, chain2, k + 1),
        Slot::Occupied(_) => false,
    } by {
        assert(chain2[k] == chain[k + 1]);
        assert(chain[k + 1] != chain[0]);
        assert(cells2[chain2[k]] == cells[chain[k + 1]]);
        if k + 2 < chain.len() {
            assert(chain2[k + 1] == chain[k + 2]);
        }
    }
}

impl<T> FreeList<T> {
    /// The vacancy chain threaded through the slots agrees with the reuse
    /// order of the view, and the live counter is exact.
    pub closed spec fn linked(&self) -> bool {
        &&& links_to(self.first_free, self.free@, 0)
        &&& chain_linked(self.slots@, self.free@)
        &&& self.live == self.slots@.len() - self.free@.len()
    }

    /// Well-formedness: every method needs it and every method keeps it.
    pub open spec fn wf(&self) -> bool {
        self@.wf() && self.linked()
    }

    /// An empty list.
    pub fn new() -> (list: Self)
        ensures
            list.wf(),
            list@ == FreeListView::<T>::empty(),
    {
        let list = FreeList { slots: Vec::new(), first_free: None, live: 0, free: Ghost(Seq::empty()) };
        assert(list@.slots =~= Seq::empty());
        list
    }

    /// An empty list with room reserved for `capacity` slots.
    pub fn with_capacity(capacity: usize) -> (list: Self)
        ensures
            list.wf(),
            list@ == FreeListView::<T>::empty(),
    {
        let list = FreeList {
            slots: Vec::with_capacity(capacity),
            first_free: None,
            live: 0,
            free: Ghost(Seq::empty()),
        };
        assert(list@.slots =~= Seq::empty());
        list
    }

    /// How many values the list holds.
    pub fn len(&self) -> (count: usize)
        requires
            self.wf(),
        ensures
            count == self@.live_count(),
    {
        self.live
    }

    /// Whether the list holds no value.
    pub fn is_empty(&self) -> (empty: bool)
        requires
            self.wf(),
        ensures
            empty == (self@.live_count() == 0),
    {
        self.live == 0
    }

    /// How many slots exist, live or vacant. Every handle ever returned is
    /// below this number.
    pub fn slot_count(&self) -> (count: usize)
        requires
            self.wf(),
        ensures
            count == self@.slots.len(),
    {
        self.slots.len()
    }

    /// The handle that the next [`Self::allocate`] will return.
    pub fn next_index(&self) -> (index: usize)
        requires
            self.wf(),
        ensures
            index == self@.next_index(),
    {
        match self.first_free {
            Some(index) => index,
            None => self.slots.len(),
        }
    }

    /// Whether `index` currently names a value.
    pub fn contains(&self, index: usize) -> (live: bool)
        requires
            self.wf(),
        ensures
            live == self@.is_live(index as int),
    {
        if index < self.slots.len() {
            match &self.slots[index] {
                Slot::Occupied(_) => true,
                Slot::Vacant(_) => false,
            }
        } else {
            false
        }
    }

    /// The value that `index` names, if it names one.
    pub fn get(&self, index: usize) -> (value: Option<&T>)
        requires
            self.wf(),
        ensures
            self@.is_live(index as int) ==> value == Some(&self@.slots[index as int]->0),
            !self@.is_live(index as int) ==> value is None,
    {
        if index < self.slots.len() {
            match &self.slots[index] {
                Slot::Occupied(value) => Some(value),
                Slot::Vacant(_) => None,
            }
        } else {
            None
        }
    }

    /// Stores `value` and returns its handle: the slot released last if any
    /// slot is vacant, otherwise a new slot at the end. The handle named no
    /// value before the call.
    pub fn allocate(&mut self, value: T) -> (index: usize)
        requires
            old(self).wf(),
        ensures
            final(self).wf(),
            index == old(self)@.next_index(),
            !old(self)@.is_live(index as int),
            final(self)@ == old(self)@.allocate(value),
    {
        proof {
            self@.lemma_allocate(value);
        }
        let ghost before = self@;
        let ghost chain = self.free@;
        let ghost cells = self.slots@;
        match self.first_free {
            Some(index) => {
                proof {
                    lemma_chain_after_allocate(cells, chain, value);
                }
                let mut cell = Slot::Occupied(value);
                self.slots.set_and_swap(index, &mut cell);
                let next = match cell {
                    Slot::Vacant(next) => next,
                    Slot::Occupied(_) => None,
                };
                self.first_free = next;
                self.live = self.live + 1;
                proof {
                    self.free = Ghost(chain.drop_first());
                }
                assert(self@.slots =~= before.allocate(value).slots);
                index
            },
            None => {
                let index = self.slots.len();
                self.slots.push(Slot::Occupied(value));
                let count = self.slots.len();
                assert(count == index + 1);
                self.live = self.live + 1;
                assert(self@.slots =~= before.allocate(value).slots);
                index
            },
        }
    }

    /// Releases `index`. Returns the value it named and makes the slot the
    /// next to be reused; returns `None` and changes nothing if `index` names
    /// no value.
    pub fn release(&mut self, index: usize) -> (value: Option<T>)
        requires
            old(self).wf(),
        ensures
            final(self).wf(),
            final(self)@ == old(self)@.release(index as int),
            old(self)@.is_live(index as int) ==> value == Some(old(self)@.slots[index as int]->0),
            !old(self)@.is_live(index as int) ==> value is None,
    {
        proof {
            self@.lemma_release(index as int);
            self@.lemma_live_count();
        }
        if !self.contains(index) {
            return None;
        }
        let ghost before = self@;
        let ghost chain = self.free@;
        let ghost cells = self.slots@;
        proof {
            lemma_chain_after_release(cells, chain, self.first_free, index as int);
        }
        let mut cell = Slot::Vacant(self.first_free);
        self.slots.set_and_swap(index, &mut cell);
        self.first_free = Some(index);
        self.live = self.live - 1;
        proof {
            self.free = Ghost(seq![index as int] + chain);
        }
        assert(self.free@[0] == index as int);
        assert(self@.slots =~= before.release(index as int).slots);
        match cell {
            Slot::Occupied(value) => Some(value),
            Slot::Vacant(_) => None,
        }
    }
}

} // verus!
