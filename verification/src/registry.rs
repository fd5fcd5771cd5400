//! The embed registry: saved original states keyed by window handle,
//! viewed as a map.

use vstd::prelude::*;

use crate::geom::Rect;

verus! {

/// What a foreign window looked like before it was embedded: its style and
/// extended style bit fields and its screen-space rectangle. Captured at
/// embed, consulted at release, destroyed when release completes.
#[derive(Clone, Copy, PartialEq, Eq, Structural, Debug)]
pub struct OriginalState {
    pub hwnd: isize,
    pub style: u32,
    pub exstyle: u32,
    pub rect: Rect,
}

impl OriginalState {
    /// The saved rectangle can be handed back to a move/resize call.
    pub open spec fn wf(self) -> bool {
        self.rect.wf()
    }
}

/// The mathematical contents of a registry: handle to saved state.
pub open spec fn reg_map(s: Seq<OriginalState>) -> Map<isize, OriginalState>
    decreases s.len(),
{
    if s.len() == 0 {
        Map::empty()
    } else {
        reg_map(s.drop_last()).insert(s.last().hwnd, s.last())
    }
}

pub open spec fn unique_handles(s: Seq<OriginalState>) -> bool {
    forall|i: int, j: int| 0 <= i < j < s.len() ==> s[i].hwnd != s[j].hwnd
}

proof fn lemma_reg_map_contains(s: Seq<OriginalState>, h: isize)
    ensures
        reg_map(s).contains_key(h) <==> exists|i: int| 0 <= i < s.len() && s[i].hwnd == h,
    decreases s.len(),
{
    if s.len() > 0 {
        lemma_reg_map_contains(s.drop_last(), h);
        if exists|i: int| 0 <= i < s.len() && s[i].hwnd == h {
            let i = choose|i: int| 0 <= i < s.len() && s[i].hwnd == h;
            if i < s.len() - 1 {
                assert(s.drop_last()[i].hwnd == h);
            }
        }
        if reg_map(s.drop_last()).contains_key(h) {
            let i = choose|i: int| 0 <= i < s.drop_last().len() && s.drop_last()[i].hwnd == h;
            assert(s[i].hwnd == h);
        }
    }
}

proof fn lemma_reg_map_index(s: Seq<OriginalState>, i: int)
    requires
        unique_handles(s),
        0 <= i < s.len(),
    ensures
        reg_map(s).contains_key(s[i].hwnd),
        reg_map(s)[s[i].hwnd] == s[i],
    decreases s.len(),
{
    if i == s.len() - 1 {
    } else {
        assert(s.drop_last()[i] == s[i]);
        lemma_reg_map_index(s.drop_last(), i);
        assert(s[i].hwnd != s.last().hwnd);
    }
}

proof fn lemma_reg_map_remove(s: Seq<OriginalState>, i: int)
    requires
        unique_handles(s),
        0 <= i < s.len(),
    ensures
        reg_map(s.remove(i)) == reg_map(s).remove(s[i].hwnd),
    decreases s.len(),
{
    let h = s[i].hwnd;
    if i == s.len() - 1 {
        assert(s.remove(i) =~= s.drop_last());
        lemma_reg_map_contains(s.drop_last(), h);
        assert(!reg_map(s.drop_last()).contains_key(h));
        assert(reg_map(s.drop_last()).insert(h, s.last()).remove(h) =~= reg_map(s.drop_last()));
    } else {
        let t = s.drop_last();
        assert(t[i] == s[i]);
        lemma_reg_map_remove(t, i);
        assert(s.remove(i).drop_last() =~= t.remove(i));
        assert(s.remove(i).last() == s.last());
        assert(s.remove(i).len() > 0);
        // unfold the definition on s.remove(i)
        assert(reg_map(s.remove(i)) == reg_map(t.remove(i)).insert(s.last().hwnd, s.last()));
        assert(s[i].hwnd != s.last().hwnd);
        assert(reg_map(t).remove(h).insert(s.last().hwnd, s.last()) =~= reg_map(t).insert(
            s.last().hwnd,
            s.last(),
        ).remove(h));
    }
}

proof fn lemma_reg_map_len(s: Seq<OriginalState>)
    requires
        unique_handles(s),
    ensures
        reg_map(s).dom().finite(),
        reg_map(s).len() == s.len(),
    decreases s.len(),
{
    if s.len() > 0 {
        lemma_reg_map_len(s.drop_last());
        lemma_reg_map_contains(s.drop_last(), s.last().hwnd);
    }
}

/// The embed registry: the set of saved original states, keyed by window
/// handle, with at most one entry per handle. A handle is in the registry
/// exactly while the core considers the window embedded.
pub struct EmbedRegistry {
    entries: Vec<OriginalState>,
}

impl View for EmbedRegistry {
    type V = Map<isize, OriginalState>;

    closed spec fn view(&self) -> Map<isize, OriginalState> {
        reg_map(self.entries@)
    }
}

impl EmbedRegistry {
    #[verifier::type_invariant]
    closed spec fn wf(self) -> bool {
        &&& unique_handles(self.entries@)
        &&& forall|i: int| 0 <= i < self.entries@.len() ==> (#[trigger] self.entries@[i]).wf()
    }

    /// A fresh, empty registry.
    pub fn new() -> (r: Self)
        ensures
            r@ == Map::<isize, OriginalState>::empty(),
    {
        EmbedRegistry { entries: Vec::new() }
    }

    /// The number of embedded windows.
    pub fn len(&self) -> (r: usize)
        ensures
            r == self@.len(),
    {
        proof {
            use_type_invariant(self);
            lemma_reg_map_len(self.entries@);
        }
        self.entries.len()
    }

    fn position_of(&self, hwnd: isize) -> (r: Option<usize>)
        ensures
            match r {
                Some(i) => i < self.entries@.len() && self.entries@[i as int].hwnd == hwnd
                    && self@.contains_key(hwnd),
                None => !self@.contains_key(hwnd),
            },
    {
        proof {
            lemma_reg_map_contains(self.entries@, hwnd);
        }
        let n = self.entries.len();
        let mut i: usize = 0;
        while i < n
            invariant
                n == self.entries@.len(),
                0 <= i <= n,
                forall|k: int| 0 <= k < i ==> self.entries@[k].hwnd != hwnd,
                reg_map(self.entries@).contains_key(hwnd) <==> exists|k: int|
                    0 <= k < n && self.entries@[k].hwnd == hwnd,
            decreases n - i,
        {
            if self.entries[i].hwnd == hwnd {
                return Some(i);
            }
            i += 1;
        }
        None
    }

    /// Whether the window is currently embedded.
    pub fn contains(&self, hwnd: isize) -> (r: bool)
        ensures
            r == self@.contains_key(hwnd),
    {
        self.position_of(hwnd).is_some()
    }

    /// The saved state of an embedded window, if any.
    pub fn get(&self, hwnd: isize) -> (r: Option<OriginalState>)
        ensures
            match r {
                Some(st) => self@.contains_key(hwnd) && st == self@[hwnd] && st.hwnd == hwnd
                    && st.wf(),
                None => !self@.contains_key(hwnd),
            },
    {
        proof {
            use_type_invariant(self);
        }
        match self.position_of(hwnd) {
            Some(i) => {
                proof {
                    lemma_reg_map_index(self.entries@, i as int);
                }
                Some(self.entries[i])
            },
            None => None,
        }
    }

    /// Record a saved state unless the handle already has one; rejecting a
    /// second record guards against double embedding.
    pub fn try_insert(&mut self, st: OriginalState) -> (r: bool)
        requires
            st.wf(),
        ensures
            r == !old(self)@.contains_key(st.hwnd),
            r ==> final(self)@ == old(self)@.insert(st.hwnd, st),
            !r ==> final(self)@ == old(self)@,
    {
        proof {
            use_type_invariant(&*self);
        }
        if self.position_of(st.hwnd).is_some() {
            return false;
        }
        proof {
            lemma_reg_map_contains(self.entries@, st.hwnd);
        }
        let ghost old_entries = self.entries@;
        let mut entries: Vec<OriginalState> = Vec::new();
        core::mem::swap(&mut entries, &mut self.entries);
        entries.push(st);
        proof {
            assert(entries@.drop_last() =~= old_entries);
        }
        core::mem::swap(&mut entries, &mut self.entries);
        true
    }

    /// Consume the saved state of a handle; a handle that is not embedded is
    /// left as it is.
    pub fn remove(&mut self, hwnd: isize) -> (r: Option<OriginalState>)
        ensures
            final(self)@ == old(self)@.remove(hwnd),
            match r {
                Some(st) => old(self)@.contains_key(hwnd) && st == old(self)@[hwnd] && st.hwnd
                    == hwnd && st.wf(),
                None => !old(self)@.contains_key(hwnd),
            },
    {
        proof {
            use_type_invariant(&*self);
        }
        match self.position_of(hwnd) {
            Some(i) => {
                proof {
                    lemma_reg_map_index(self.entries@, i as int);
                    lemma_reg_map_remove(self.entries@, i as int);
                }
                let mut entries: Vec<OriginalState> = Vec::new();
                core::mem::swap(&mut entries, &mut self.entries);
                let st = entries.remove(i);
                core::mem::swap(&mut entries, &mut self.entries);
                Some(st)
            },
            None => {
                proof {
                    assert(reg_map(self.entries@).remove(hwnd) =~= reg_map(self.entries@));
                }
                None
            },
        }
    }
}

} // verus!
