use vstd::prelude::*;
use vstd::arithmetic::div_mod::{
    lemma_fundamental_div_mod,
    lemma_fundamental_div_mod_converse,
};
use crate::error::BridgeError;

verus! {

/// A handle packs a slot index (low 32 bits) and the slot's generation (above).
pub const HANDLE_SPAN: u64 = 0x1_0000_0000;

/// Most slots a registry will ever create: every index must fit in the low 32 bits.
pub const SLOT_LIMIT: usize = 0xffff_ffff;

/// A slot whose generation reaches this value is retired and never reused, so no
/// handle is ever issued twice.
pub const GENERATION_LIMIT: u32 = 0x7fff_ffff;

pub open spec fn index_of(h: i64) -> int {
    h as int % HANDLE_SPAN as int
}

pub open spec fn generation_of(h: i64) -> int {
    h as int / HANDLE_SPAN as int
}

pub open spec fn handle_for(index: int, generation: int) -> int {
    generation * HANDLE_SPAN as int + index
}

/// Splitting a handle built from an index and a generation gives them back.
proof fn lemma_handle_parts(index: int, generation: int)
    requires
        0 <= index < HANDLE_SPAN as int,
        0 <= generation,
    ensures
        handle_for(index, generation) % HANDLE_SPAN as int == index,
        handle_for(index, generation) / HANDLE_SPAN as int == generation,
{
    lemma_fundamental_div_mod_converse(
        handle_for(index, generation),
        HANDLE_SPAN as int,
        generation,
        index,
    );
}

/// A non-negative handle is determined by its index and generation.
proof fn lemma_handle_rebuilt(h: i64)
    requires
        0 <= h,
    ensures
        h as int == handle_for(index_of(h), generation_of(h)),
        0 <= index_of(h) < HANDLE_SPAN as int,
        0 <= generation_of(h),
{
    lemma_fundamental_div_mod(h as int, HANDLE_SPAN as int);
    assert(0 <= generation_of(h)) by (nonlinear_arith)
        requires
            0 <= h,
            generation_of(h) == h as int / HANDLE_SPAN as int,
    ;
}

struct Slot<T> {
    generation: u32,
    value: Option<T>,
    /// The value is out for an edit (see `take`); the slot is not free meanwhile.
    lent: bool,
}

/// Owns every value reachable by a handle. A handle names a slot and the generation
/// the slot had when the value was stored; releasing bumps the generation, so a
/// stale handle is detected instead of reaching another value.
pub struct HandleRegistry<T> {
    slots: Vec<Slot<T>>,
}

impl<T> HandleRegistry<T> {
    pub closed spec fn wf(&self) -> bool {
        &&& self.slots@.len() <= SLOT_LIMIT
        &&& forall|i: int|
            0 <= i < self.slots@.len() ==> {
                let s = #[trigger] self.slots@[i];
                &&& 1 <= s.generation <= GENERATION_LIMIT
                &&& (s.value is Some || s.lent) ==> s.generation < GENERATION_LIMIT
                &&& s.lent ==> s.value is None
            }
    }

    pub closed spec fn spec_len(&self) -> nat {
        self.slots@.len()
    }

    /// The slot a handle refers to carries the handle's generation.
    closed spec fn current(&self, h: i64) -> bool {
        &&& 0 <= h
        &&& index_of(h) < self.slots@.len()
        &&& self.slots@[index_of(h)].generation == generation_of(h)
    }

    /// The handle refers to a value that is stored.
    pub closed spec fn is_live(&self, h: i64) -> bool {
        &&& self.current(h)
        &&& self.slots@[index_of(h)].value is Some
    }

    /// The handle's value has been taken out for an edit and not yet put back.
    pub closed spec fn is_lent(&self, h: i64) -> bool {
        &&& self.current(h)
        &&& self.slots@[index_of(h)].lent
    }

    /// The handle was issued and has since been released.
    pub closed spec fn is_released(&self, h: i64) -> bool {
        &&& 0 <= h
        &&& index_of(h) < self.slots@.len()
        &&& 1 <= generation_of(h) < self.slots@[index_of(h)].generation
    }

    /// The live handles and the value each one refers to.
    pub closed spec fn view(&self) -> Map<i64, T> {
        Map::new(|h: i64| self.is_live(h), |h: i64| self.slots@[index_of(h)].value->0)
    }

    pub fn new() -> (r: Self)
        ensures
            r.wf(),
            r@ == Map::<i64, T>::empty(),
            r.spec_len() == 0,
            forall|h: i64| !r.is_released(h),
    {
        let r = HandleRegistry { slots: Vec::new() };
        assert(r@ =~= Map::<i64, T>::empty());
        r
    }

    /// How many slots exist, live or free.
    pub fn slot_count(&self) -> (r: usize)
        ensures
            r == self.spec_len(),
    {
        self.slots.len()
    }

    /// Stores `value` and returns a handle that was never issued before.
    pub fn allocate(&mut self, value: T) -> (h: i64)
        requires
            old(self).wf(),
            old(self).spec_len() < SLOT_LIMIT,
        ensures
            final(self).wf(),
            h > 0,
            !old(self)@.contains_key(h),
            !old(self).is_released(h),
            !old(self).is_lent(h),
            final(self)@ == old(self)@.insert(h, value),
            forall|g: i64| final(self).is_released(g) == old(self).is_released(g),
            forall|g: i64| g != h ==> (final(self).is_lent(g) == old(self).is_lent(g)),
            final(self).spec_len() <= old(self).spec_len() + 1,
    {
        let n = self.slots.len();
        let mut i: usize = 0;
        while i < n
            invariant
                self.wf(),
                n == self.slots@.len(),
                i <= n,
                forall|j: int|
                    0 <= j < i ==> !(#[trigger] self.slots@[j].value is None
                        && !self.slots@[j].lent && self.slots@[j].generation < GENERATION_LIMIT),
            ensures
                i <= n,
                i < n ==> self.slots@[i as int].value is None && !self.slots@[i as int].lent
                    && self.slots@[i as int].generation < GENERATION_LIMIT,
            decreases n - i,
        {
            if self.slots[i].value.is_none() && !self.slots[i].lent
                && self.slots[i].generation < GENERATION_LIMIT {
                break;
            }
            i = i + 1;
        }
        let generation: u32 = if i < n {
            self.slots[i].generation
        } else {
            1
        };
        proof {
            lemma_handle_parts(i as int, generation as int);
        }
        let h: i64 = (generation as u64 * HANDLE_SPAN + i as u64) as i64;
        assert(h as int == handle_for(i as int, generation as int));
        let ghost prev = *self;
        proof {
            if i < n {
                assert(!prev.is_live(h) && !prev.is_lent(h) && !prev.is_released(h));
            }
        }
        if i < n {
            let mut slot = Slot { generation, value: Some(value), lent: false };
            self.slots.set_and_swap(i, &mut slot);
        } else {
            self.slots.push(Slot { generation, value: Some(value), lent: false });
        }
        proof {
            assert forall|j: int| 0 <= j < self.slots@.len() implies {
                let s = #[trigger] self.slots@[j];
                &&& 1 <= s.generation <= GENERATION_LIMIT
                &&& (s.value is Some || s.lent) ==> s.generation < GENERATION_LIMIT
                &&& s.lent ==> s.value is None
            } by {
                if j != i as int {
                    assert(self.slots@[j] == prev.slots@[j]);
                }
            }
            assert forall|g: i64| #[trigger] self.is_released(g) == prev.is_released(g) by {}
            assert forall|g: i64| g != h implies #[trigger] self.is_lent(g) == prev.is_lent(g) by {}
            assert forall|g: i64| #[trigger] self.is_live(g) == (prev.is_live(g) || g == h) by {
                if 0 <= g && index_of(g) == i as int && generation_of(g) == generation as int {
                    lemma_handle_rebuilt(g);
                }
            }
            assert(self@ =~= prev@.insert(h, value));
        }
        h
    }

    /// Whether `h` refers to a stored value.
    pub fn contains(&self, h: i64) -> (r: bool)
        requires
            self.wf(),
        ensures
            r == self@.contains_key(h),
    {
        if h < 0 {
            return false;
        }
        let index: u64 = h as u64 % HANDLE_SPAN;
        let generation: u64 = h as u64 / HANDLE_SPAN;
        if index >= self.slots.len() as u64 {
            return false;
        }
        let slot = &self.slots[index as usize];
        slot.generation as u64 == generation && slot.value.is_some()
    }

    /// The slot index of a live or lent handle.
    fn locate(&self, h: i64) -> (r: Option<usize>)
        requires
            self.wf(),
        ensures
            r matches Some(i) ==> self.current(h) && i == index_of(h),
            r is None ==> !self.current(h),
    {
        if h < 0 {
            return None;
        }
        let index: u64 = h as u64 % HANDLE_SPAN;
        let generation: u64 = h as u64 / HANDLE_SPAN;
        if index >= self.slots.len() as u64 {
            return None;
        }
        if self.slots[index as usize].generation as u64 == generation {
            Some(index as usize)
        } else {
            None
        }
    }

    /// A shared reference to the value behind `h`.
    pub fn get(&self, h: i64) -> (r: Result<&T, BridgeError>)
        requires
            self.wf(),
        ensures
            self@.contains_key(h) ==> r == Ok::<&T, BridgeError>(&self@[h]),
            !self@.contains_key(h) ==> r == Err::<&T, BridgeError>(BridgeError::InvalidHandle),
    {
        match self.locate(h) {
            Some(i) => match &self.slots[i].value {
                Some(v) => Ok(v),
                None => Err(BridgeError::InvalidHandle),
            },
            None => Err(BridgeError::InvalidHandle),
        }
    }

    /// Moves the value behind `h` out for an edit; `restore` puts it back under the
    /// same handle.
    pub fn take(&mut self, h: i64) -> (r: Result<T, BridgeError>)
        requires
            old(self).wf(),
        ensures
            final(self).wf(),
            final(self).spec_len() == old(self).spec_len(),
            forall|g: i64| final(self).is_released(g) == old(self).is_released(g),
            old(self)@.contains_key(h) ==> {
                &&& r == Ok::<T, BridgeError>(old(self)@[h])
                &&& final(self)@ == old(self)@.remove(h)
                &&& final(self).is_lent(h)
            },
            !old(self)@.contains_key(h) ==> {
                &&& r == Err::<T, BridgeError>(BridgeError::InvalidHandle)
                &&& *final(self) == *old(self)
            },
    {
        match self.locate(h) {
            Some(i) => {
                if self.slots[i].value.is_none() {
                    return Err(BridgeError::InvalidHandle);
                }
                let ghost prev = *self;
                let mut slot = Slot { generation: self.slots[i].generation, value: None, lent: true };
                self.slots.set_and_swap(i, &mut slot);
                proof {
                    assert forall|g: i64| #[trigger] self.is_live(g) == (prev.is_live(g) && g != h) by {
                        if prev.is_live(g) && index_of(g) == i as int {
                            lemma_handle_rebuilt(g);
                            lemma_handle_rebuilt(h);
                        }
                    }
                    assert(self@ =~= prev@.remove(h));
                }
                match slot.value {
                    Some(v) => Ok(v),
                    None => Err(BridgeError::InvalidHandle),
                }
            },
            None => Err(BridgeError::InvalidHandle),
        }
    }

    /// Puts a value back under a handle that `take` emptied.
    pub fn restore(&mut self, h: i64, value: T)
        requires
            old(self).wf(),
            old(self).is_lent(h),
        ensures
            final(self).wf(),
            final(self).spec_len() == old(self).spec_len(),
            forall|g: i64| final(self).is_released(g) == old(self).is_released(g),
            final(self)@ == old(self)@.insert(h, value),
    {
        let index: u64 = h as u64 % HANDLE_SPAN;
        let ghost prev = *self;
        let mut slot = Slot {
            generation: self.slots[index as usize].generation,
            value: Some(value),
            lent: false,
        };
        assert(slot.generation < GENERATION_LIMIT) by {
            lemma_handle_rebuilt(h);
        }
        self.slots.set_and_swap(index as usize, &mut slot);
        proof {
            assert forall|g: i64| #[trigger] self.is_live(g) == (prev.is_live(g) || g == h) by {
                if 0 <= g && index_of(g) == index_of(h) && generation_of(g) == generation_of(h) {
                    lemma_handle_rebuilt(g);
                    lemma_handle_rebuilt(h);
                }
            }
            assert(self@ =~= prev@.insert(h, value));
        }
    }

    /// Moves the value behind `h` out and invalidates `h` for good.
    pub fn release(&mut self, h: i64) -> (r: Result<T, BridgeError>)
        requires
            old(self).wf(),
        ensures
            final(self).wf(),
            final(self).spec_len() == old(self).spec_len(),
            old(self)@.contains_key(h) ==> {
                &&& r == Ok::<T, BridgeError>(old(self)@[h])
                &&& final(self)@ == old(self)@.remove(h)
                &&& final(self).is_released(h)
                &&& forall|g: i64| final(self).is_released(g) == (old(self).is_released(g) || g == h)
                &&& forall|g: i64| #[trigger] final(self).is_lent(g) == old(self).is_lent(g)
            },
            !old(self)@.contains_key(h) ==> {
                &&& r == Err::<T, BridgeError>(BridgeError::InvalidHandle)
                &&& *final(self) == *old(self)
            },
    {
        match self.locate(h) {
            Some(i) => {
                if self.slots[i].value.is_none() {
                    return Err(BridgeError::InvalidHandle);
                }
                let ghost prev = *self;
                let mut slot = Slot { generation: self.slots[i].generation + 1, value: None, lent: false };
                self.slots.set_and_swap(i, &mut slot);
                proof {
                    lemma_handle_rebuilt(h);
                    assert forall|g: i64| #[trigger] self.is_live(g) == (prev.is_live(g) && g != h) by {
                        if 0 <= g && index_of(g) == i as int {
                            lemma_handle_rebuilt(g);
                        }
                    }
                    assert forall|g: i64| #[trigger] self.is_released(g) == (prev.is_released(g) || g == h) by {
                        if 0 <= g && index_of(g) == i as int && generation_of(g) == generation_of(h) {
                            lemma_handle_rebuilt(g);
                        }
                    }
                    assert forall|g: i64| #[trigger] self.is_lent(g) == prev.is_lent(g) by {
                        if 0 <= g && index_of(g) == i as int && generation_of(g) == generation_of(h) + 1 {
                            lemma_handle_rebuilt(g);
                        }
                    }
                    assert(self@ =~= prev@.remove(h));
                }
                match slot.value {
                    Some(v) => Ok(v),
                    None => Err(BridgeError::InvalidHandle),
                }
            },
            None => Err(BridgeError::InvalidHandle),
        }
    }
}

/// A released handle never validates again: it is neither live nor lent.
pub proof fn lemma_released_handle_is_invalid<T>(r: &HandleRegistry<T>, h: i64)
    requires
        r.wf(),
        r.is_released(h),
    ensures
        !r@.contains_key(h),
        !r.is_lent(h),
{
}

} // verus!
