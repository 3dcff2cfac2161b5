//! The guest-side allocation registry.
//!
//! A module that takes part in the host protocol keeps, inside its own
//! linear memory, a registry of the buffers it has handed out: a mapping
//! from pointer to the owned byte buffer.  `allocate` registers a fresh
//! buffer and returns its pointer, `deallocate` removes and releases it,
//! and `validate_pointer` reports the recorded size (zero when the
//! pointer is unknown).  The pointer `0` is never valid.
//!
//! The registry is modelled abstractly as a map from pointer to buffer
//! contents (the view of a [`MemoryRegistry`]).

use vstd::prelude::*;

verus! {

/// The contents recorded for `p`, or the empty sequence when `p` is not
/// registered.  The recorded size of an unregistered pointer is `0`.
pub open spec fn lookup_size(m: Map<u32, Seq<u8>>, p: u32) -> nat {
    if m.dom().contains(p) {
        m[p].len()
    } else {
        0
    }
}

/// A zero-filled buffer of `size` bytes, the contents of a fresh
/// allocation.
pub open spec fn zeros(size: nat) -> Seq<u8> {
    Seq::new(size, |i: int| 0u8)
}

/// Registry of the live allocations of one module instance.
pub struct MemoryRegistry {
    entries: Vec<(u32, Vec<u8>)>,
    next_ptr: u32,
}

/// The map described by an association list of (pointer, buffer) pairs.
spec fn entries_map(s: Seq<(u32, Vec<u8>)>) -> Map<u32, Seq<u8>>
    decreases s.len(),
{
    if s.len() == 0 {
        Map::empty()
    } else {
        entries_map(s.drop_last()).insert(s.last().0, s.last().1@)
    }
}

proof fn lemma_entries_map_contains(s: Seq<(u32, Vec<u8>)>, p: u32)
    ensures
        entries_map(s).dom().contains(p) <==> exists|i: int| 0 <= i < s.len() && s[i].0 == p,
    decreases s.len(),
{
    if s.len() > 0 {
        lemma_entries_map_contains(s.drop_last(), p);
        if s.last().0 == p {
            assert(s[s.len() - 1].0 == p);
        } else if entries_map(s).dom().contains(p) {
            let i = choose|i: int| 0 <= i < s.drop_last().len() && s.drop_last()[i].0 == p;
            assert(s[i].0 == p);
        } else {
            assert forall|i: int| 0 <= i < s.len() implies s[i].0 != p by {
                if i < s.len() - 1 {
                    assert(s.drop_last()[i].0 == s[i].0);
                }
            }
        }
    }
}

proof fn lemma_entries_map_value(s: Seq<(u32, Vec<u8>)>, i: int)
    requires
        0 <= i < s.len(),
        forall|j: int, k: int| 0 <= j < k < s.len() ==> s[j].0 != s[k].0,
    ensures
        entries_map(s).dom().contains(s[i].0),
        entries_map(s)[s[i].0] == s[i].1@,
    decreases s.len(),
{
    lemma_entries_map_contains(s, s[i].0);
    if i < s.len() - 1 {
        assert(s.drop_last()[i] == s[i]);
        lemma_entries_map_value(s.drop_last(), i);
        assert(s.last().0 != s[i].0);
    }
}

proof fn lemma_entries_map_remove(s: Seq<(u32, Vec<u8>)>, i: int)
    requires
        0 <= i < s.len(),
        forall|j: int, k: int| 0 <= j < k < s.len() ==> s[j].0 != s[k].0,
    ensures
        entries_map(s.remove(i)) == entries_map(s).remove(s[i].0),
    decreases s.len(),
{
    lemma_entries_map_contains(s.drop_last(), s[i].0);
    if i == s.len() - 1 {
        assert(s.remove(i) =~= s.drop_last());
        assert(!entries_map(s.drop_last()).dom().contains(s[i].0));
        assert(entries_map(s.remove(i)) =~= entries_map(s).remove(s[i].0));
    } else {
        assert(s.remove(i).drop_last() =~= s.drop_last().remove(i));
        assert(s.remove(i).last() == s.last());
        assert forall|j: int, k: int|
            0 <= j < k < s.drop_last().len() implies s.drop_last()[j].0 != s.drop_last()[k].0 by {
            assert(s.drop_last()[j] == s[j] && s.drop_last()[k] == s[k]);
        }
        lemma_entries_map_remove(s.drop_last(), i);
        assert(s.drop_last()[i] == s[i]);
        assert(s.last().0 != s[i].0);
        assert(entries_map(s.remove(i)) =~= entries_map(s).remove(s[i].0));
    }
}

impl View for MemoryRegistry {
    type V = Map<u32, Seq<u8>>;

    closed spec fn view(&self) -> Map<u32, Seq<u8>> {
        entries_map(self.entries@)
    }
}

impl MemoryRegistry {
    /// The registry is consistent: pointers are pairwise distinct, never
    /// zero, and all lie below the next pointer to be handed out.
    pub closed spec fn wf(&self) -> bool {
        &&& forall|j: int, k: int|
            0 <= j < k < self.entries@.len() ==> self.entries@[j].0 != self.entries@[k].0
        &&& forall|j: int|
            0 <= j < self.entries@.len() ==> 0 < #[trigger] self.entries@[j].0 < self.next_ptr
        &&& self.next_ptr >= 1
    }

    /// The next address the allocator would hand out.  It starts at `1`
    /// (so `0` is never a valid pointer) and advances by the allocated
    /// size plus one with every successful allocation.
    pub closed spec fn spec_cursor(&self) -> int {
        self.next_ptr as int
    }

    /// Whether a fresh allocation of `size` bytes can still be
    /// addressed: the cursor must stay within the 32-bit address space
    /// after advancing past the new buffer.
    pub open spec fn can_allocate(&self, size: u32) -> bool {
        self.spec_cursor() + size + 1 <= u32::MAX
    }

    /// An empty registry.
    pub fn new() -> (r: MemoryRegistry)
        ensures
            r.wf(),
            r@ == Map::<u32, Seq<u8>>::empty(),
            r.spec_cursor() == 1,
    {
        MemoryRegistry { entries: Vec::new(), next_ptr: 1 }
    }

    /// Allocate `size` bytes: register a fresh zero-filled buffer and
    /// return its pointer.  A return of `0` reports failure (the address
    /// space is exhausted) and leaves the registry unchanged.
    pub fn allocate(&mut self, size: u32) -> (ptr: u32)
        requires
            old(self).wf(),
        ensures
            final(self).wf(),
            ptr == 0 <==> !old(self).can_allocate(size),
            ptr == 0 ==> *final(self) == *old(self),
            ptr != 0 ==> !old(self)@.dom().contains(ptr),
            ptr != 0 ==> final(self)@ == old(self)@.insert(ptr, zeros(size as nat)),
            ptr != 0 ==> final(self).spec_cursor() == old(self).spec_cursor() + size + 1,
    {
        if !(self.next_ptr as u64 + size as u64 + 1 <= u32::MAX as u64) {
            return 0;
        }
        let ptr: u32 = self.next_ptr;
        let mut buf: Vec<u8> = Vec::new();
        let mut i: u32 = 0;
        while i < size
            invariant
                i <= size,
                buf@ =~= zeros(i as nat),
            decreases size - i,
        {
            buf.push(0u8);
            i = i + 1;
        }
        proof {
            lemma_entries_map_contains(self.entries@, ptr);
        }
        self.entries.push((ptr, buf));
        self.next_ptr = ptr + size + 1;
        proof {
            assert(self.entries@.drop_last() =~= old(self).entries@);
            assert(self@ =~= old(self)@.insert(ptr, zeros(size as nat)));
        }
        ptr
    }

    /// Remove and release the buffer registered for `ptr`.  Returns `0`
    /// on success and `-1` when `ptr` is not registered, in which case
    /// the registry is untouched.
    pub fn deallocate(&mut self, ptr: u32) -> (code: i32)
        requires
            old(self).wf(),
        ensures
            final(self).wf(),
            final(self).spec_cursor() == old(self).spec_cursor(),
            code == 0 || code == -1,
            code == 0 <==> old(self)@.dom().contains(ptr),
            code == 0 ==> final(self)@ == old(self)@.remove(ptr),
            code == -1 ==> *final(self) == *old(self),
    {
        let n: usize = self.entries.len();
        let mut i: usize = 0;
        while i < n
            invariant
                n == self.entries@.len(),
                i <= n,
                *self == *old(self),
                old(self).wf(),
                forall|j: int| 0 <= j < i ==> self.entries@[j].0 != ptr,
            decreases n - i,
        {
            if self.entries[i].0 == ptr {
                proof {
                    lemma_entries_map_value(self.entries@, i as int);
                    lemma_entries_map_remove(self.entries@, i as int);
                }
                self.entries.remove(i);
                proof {
                    let s = old(self).entries@;
                    assert(self.entries@ == s.remove(i as int));
                    assert forall|j: int, k: int|
                        0 <= j < k < self.entries@.len() implies self.entries@[j].0
                        != self.entries@[k].0 by {
                        if j < i as int {
                            assert(self.entries@[j] == s[j]);
                        } else {
                            assert(self.entries@[j] == s[j + 1]);
                        }
                        if k < i as int {
                            assert(self.entries@[k] == s[k]);
                        } else {
                            assert(self.entries@[k] == s[k + 1]);
                        }
                    }
                    assert forall|j: int|
                        0 <= j < self.entries@.len() implies 0 < #[trigger] self.entries@[j].0
                        < self.next_ptr by {
                        if j < i as int {
                            assert(self.entries@[j] == s[j]);
                        } else {
                            assert(self.entries@[j] == s[j + 1]);
                        }
                    }
                }
                return 0;
            }
            i = i + 1;
        }
        proof {
            lemma_entries_map_contains(self.entries@, ptr);
        }
        -1
    }

    /// The recorded size of `ptr`: the length of its registered buffer,
    /// or `0` when `ptr` is not registered.
    pub fn validate_pointer(&self, ptr: u32) -> (size: usize)
        requires
            self.wf(),
        ensures
            size == lookup_size(self@, ptr),
    {
        let n: usize = self.entries.len();
        let mut i: usize = 0;
        while i < n
            invariant
                n == self.entries@.len(),
                i <= n,
                self.wf(),
                forall|j: int| 0 <= j < i ==> self.entries@[j].0 != ptr,
            decreases n - i,
        {
            if self.entries[i].0 == ptr {
                proof {
                    lemma_entries_map_value(self.entries@, i as int);
                }
                return self.entries[i].1.len();
            }
            i = i + 1;
        }
        proof {
            lemma_entries_map_contains(self.entries@, ptr);
        }
        0
    }

    /// Replace the contents of the buffer registered for `ptr`.  The
    /// write succeeds exactly when `ptr` is registered with a buffer of
    /// the same length as `data`.
    pub fn write_buffer(&mut self, ptr: u32, data: &Vec<u8>) -> (ok: bool)
        requires
            old(self).wf(),
        ensures
            final(self).wf(),
            final(self).spec_cursor() == old(self).spec_cursor(),
            ok <==> old(self)@.dom().contains(ptr) && data@.len() == old(self)@[ptr].len(),
            ok ==> final(self)@ == old(self)@.insert(ptr, data@),
            !ok ==> *final(self) == *old(self),
    {
        let n: usize = self.entries.len();
        let mut i: usize = 0;
        while i < n
            invariant
                n == self.entries@.len(),
                i <= n,
                *self == *old(self),
                old(self).wf(),
                forall|j: int| 0 <= j < i ==> self.entries@[j].0 != ptr,
            decreases n - i,
        {
            if self.entries[i].0 == ptr {
                proof {
                    lemma_entries_map_value(self.entries@, i as int);
                }
                if self.entries[i].1.len() != data.len() {
                    return false;
                }
                let mut copy: Vec<u8> = Vec::new();
                let mut k: usize = 0;
                while k < data.len()
                    invariant
                        k <= data@.len(),
                        copy@ =~= data@.subrange(0, k as int),
                    decreases data@.len() - k,
                {
                    copy.push(data[k]);
                    k = k + 1;
                }
                assert(copy@ =~= data@);
                proof {
                    lemma_entries_map_remove(self.entries@, i as int);
                }
                self.entries.remove(i);
                proof {
                    let s = old(self).entries@;
                    assert(self.entries@ == s.remove(i as int));
                    assert forall|j: int|
                        0 <= j < self.entries@.len() implies #[trigger] self.entries@[j].0 != ptr
                        && 0 < self.entries@[j].0 < self.next_ptr by {
                        if j < i as int {
                            assert(self.entries@[j] == s[j]);
                        } else {
                            assert(self.entries@[j] == s[j + 1]);
                        }
                    }
                    lemma_entries_map_contains(self.entries@, ptr);
                }
                self.entries.push((ptr, copy));
                proof {
                    let s = old(self).entries@;
                    let t = s.remove(i as int);
                    assert(self.entries@.drop_last() =~= t);
                    assert(self.entries@.last() == (ptr, copy));
                    assert forall|j: int, k2: int|
                        0 <= j < k2 < self.entries@.len() implies self.entries@[j].0
                        != self.entries@[k2].0 by {
                        if k2 < self.entries@.len() - 1 {
                            assert(self.entries@[j] == t[j] && self.entries@[k2] == t[k2]);
                        } else {
                            assert(self.entries@[j] == t[j]);
                        }
                    }
                    assert forall|j: int|
                        0 <= j < self.entries@.len() implies 0 < #[trigger] self.entries@[j].0
                        < self.next_ptr by {
                        if j < self.entries@.len() - 1 {
                            assert(self.entries@[j] == t[j]);
                        }
                    }
                    assert(self@ =~= old(self)@.insert(ptr, data@));
                }
                return true;
            }
            i = i + 1;
        }
        proof {
            lemma_entries_map_contains(self.entries@, ptr);
        }
        false
    }

    /// Read back the full contents of the buffer registered for `ptr`,
    /// or `None` when `ptr` is not registered.
    pub fn read_buffer(&self, ptr: u32) -> (r: Option<Vec<u8>>)
        requires
            self.wf(),
        ensures
            r is Some <==> self@.dom().contains(ptr),
            r is Some ==> r->Some_0@ == self@[ptr],
    {
        let n: usize = self.entries.len();
        let mut i: usize = 0;
        while i < n
            invariant
                n == self.entries@.len(),
                i <= n,
                self.wf(),
                forall|j: int| 0 <= j < i ==> self.entries@[j].0 != ptr,
            decreases n - i,
        {
            if self.entries[i].0 == ptr {
                proof {
                    lemma_entries_map_value(self.entries@, i as int);
                }
                let src: &Vec<u8> = &self.entries[i].1;
                let mut copy: Vec<u8> = Vec::new();
                let mut k: usize = 0;
                while k < src.len()
                    invariant
                        k <= src@.len(),
                        copy@ =~= src@.subrange(0, k as int),
                    decreases src@.len() - k,
                {
                    copy.push(src[k]);
                    k = k + 1;
                }
                assert(copy@ =~= src@);
                return Some(copy);
            }
            i = i + 1;
        }
        proof {
            lemma_entries_map_contains(self.entries@, ptr);
        }
        None
    }
}

/// The null pointer is never registered: in a well-formed registry the
/// map never contains `0`, so `validate_pointer(0)` always reports `0`.
pub proof fn lemma_zero_never_registered(reg: &MemoryRegistry)
    requires
        reg.wf(),
    ensures
        !reg@.dom().contains(0),
        lookup_size(reg@, 0) == 0,
{
    lemma_entries_map_contains(reg.entries@, 0);
}

/// The registry map after registering pointers `ps` with buffers of the
/// sizes `ss`, in order.
pub open spec fn register_all(m: Map<u32, Seq<u8>>, ps: Seq<u32>, ss: Seq<u32>) -> Map<u32, Seq<u8>>
    decreases ps.len(),
{
    if ps.len() == 0 || ss.len() == 0 {
        m
    } else {
        register_all(m, ps.drop_last(), ss.drop_last()).insert(
            ps.last(),
            zeros(ss.last() as nat),
        )
    }
}

/// Allocator bijection: register any sequence of distinct fresh pointers
/// `ps` with sizes `ss`; then the recorded size of each `ps[i]` is
/// exactly `ss[i]`, and after removing `ps[i]` its recorded size is `0`.
/// Together with the contracts of `allocate`, `validate_pointer` and
/// `deallocate` (whose transitions are `insert`, `lookup_size` and
/// `remove`), this is the law that a run of allocations answers
/// `validate_pointer(p_i) == s_i`, and `0` once `p_i` is deallocated.
pub proof fn lemma_allocator_bijection(m: Map<u32, Seq<u8>>, ps: Seq<u32>, ss: Seq<u32>)
    requires
        ps.no_duplicates(),
        ss.len() == ps.len(),
        forall|i: int| 0 <= i < ps.len() ==> !m.dom().contains(ps[i]),
    ensures
        forall|i: int|
            0 <= i < ps.len() ==> lookup_size(#[trigger] register_all(m, ps, ss), ps[i]) == ss[i],
        forall|i: int|
            0 <= i < ps.len() ==> lookup_size(register_all(m, ps, ss).remove(ps[i]), ps[i]) == 0,
    decreases ps.len(),
{
    if ps.len() > 0 {
        let p = ps.last();
        let sz = ss.last();
        let m2 = register_all(m, ps.drop_last(), ss.drop_last());
        assert(register_all(m, ps, ss) == m2.insert(p, zeros(sz as nat)));
        assert(ps.drop_last().no_duplicates());
        assert forall|i: int|
            0 <= i < ps.drop_last().len() implies !m.dom().contains(
            #[trigger] ps.drop_last()[i],
        ) by {
            assert(ps.drop_last()[i] == ps[i]);
        }
        lemma_allocator_bijection(m, ps.drop_last(), ss.drop_last());
        assert forall|i: int|
            0 <= i < ps.len() implies lookup_size(
            #[trigger] register_all(m, ps, ss),
            ps[i],
        ) == ss[i] by {
            if i == ps.len() - 1 {
                assert(lookup_size(m2.insert(p, zeros(sz as nat)), p) == sz);
            } else {
                assert(ps.drop_last()[i] == ps[i]);
                assert(ps[i] != ps[ps.len() - 1]);
                assert(ss.drop_last()[i] == ss[i]);
                assert(lookup_size(register_all(m, ps.drop_last(), ss.drop_last()), ps.drop_last()[i])
                    == ss.drop_last()[i]);
            }
        }
        assert forall|i: int|
            0 <= i < ps.len() implies lookup_size(
            register_all(m, ps, ss).remove(#[trigger] ps[i]),
            ps[i],
        ) == 0 by {
            assert(!register_all(m, ps, ss).remove(ps[i]).dom().contains(ps[i]));
        }
    }
}

} // verus!
