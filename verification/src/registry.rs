//! Singleton window registry.
//!
//! The registry tracks at most one live window handle per window name.  A
//! handle is an opaque token minted by the registry; the host shell keeps
//! the association between tokens and its native window objects.  Handles
//! are minted in strictly increasing order, so a handle minted after a
//! release is distinct from every handle the registry issued earlier.
use vstd::prelude::*;

verus! {

/// Mathematical image of a [`WindowRegistry`]: the live handle per window
/// name, and the next handle to be minted.
#[verifier::ext_equal]
pub struct RegistryView {
    pub windows: Map<Seq<char>, u64>,
    pub next: u64,
}

impl RegistryView {
    /// Every live handle was minted earlier than `next`.  Together with the
    /// strictly increasing mint order this keeps fresh handles distinct
    /// from all earlier ones.
    pub open spec fn inv(self) -> bool {
        forall|name: Seq<char>| #[trigger]
            self.windows.dom().contains(name) ==> self.windows[name] < self.next
    }
}

/// The map described by a sequence of (name, handle) entries; a later
/// entry for the same name would win, though the registry keeps names
/// unique.
pub open spec fn entries_map(s: Seq<(Seq<char>, u64)>) -> Map<Seq<char>, u64>
    decreases s.len(),
{
    if s.len() == 0 {
        Map::empty()
    } else {
        entries_map(s.drop_last()).insert(s.last().0, s.last().1)
    }
}

/// No two entries share a name.
pub open spec fn entries_unique(s: Seq<(Seq<char>, u64)>) -> bool {
    forall|i: int, j: int| 0 <= i < j < s.len() ==> s[i].0 != s[j].0
}

proof fn lemma_entries_map_contains(s: Seq<(Seq<char>, u64)>, i: int)
    requires
        entries_unique(s),
        0 <= i < s.len(),
    ensures
        entries_map(s).contains_pair(s[i].0, s[i].1),
    decreases s.len(),
{
    if i == s.len() - 1 {
    } else {
        assert(entries_unique(s.drop_last()));
        lemma_entries_map_contains(s.drop_last(), i);
        assert(s.drop_last()[i] == s[i]);
        assert(s[i].0 != s.last().0);
    }
}

proof fn lemma_entries_map_absent(s: Seq<(Seq<char>, u64)>, name: Seq<char>)
    requires
        forall|i: int| 0 <= i < s.len() ==> s[i].0 != name,
    ensures
        !entries_map(s).dom().contains(name),
    decreases s.len(),
{
    if s.len() > 0 {
        lemma_entries_map_absent(s.drop_last(), name);
    }
}

proof fn lemma_entries_map_remove(s: Seq<(Seq<char>, u64)>, k: int)
    requires
        entries_unique(s),
        0 <= k < s.len(),
    ensures
        entries_map(s.remove(k)) =~= entries_map(s).remove(s[k].0),
    decreases s.len(),
{
    s.remove_ensures(k);
    if k == s.len() - 1 {
        assert(s.remove(k) =~= s.drop_last());
        assert(forall|i: int| 0 <= i < s.drop_last().len() ==> s.drop_last()[i].0 != s[k].0);
        lemma_entries_map_absent(s.drop_last(), s[k].0);
    } else {
        let t = s.remove(k);
        assert(t.last() == s.last());
        assert(t.drop_last() =~= s.drop_last().remove(k));
        assert(entries_unique(s.drop_last()));
        lemma_entries_map_remove(s.drop_last(), k);
        assert(s.drop_last()[k] == s[k]);
        assert(s[k].0 != s.last().0);
    }
}

proof fn lemma_entries_map_gives_entry(s: Seq<(Seq<char>, u64)>, name: Seq<char>)
    requires
        entries_map(s).dom().contains(name),
    ensures
        exists|i: int|
            0 <= i < s.len() && (#[trigger] s[i]).0 == name && s[i].1 == entries_map(s)[name],
    decreases s.len(),
{
    if s.last().0 == name {
        assert(s[s.len() - 1].0 == name);
    } else {
        lemma_entries_map_gives_entry(s.drop_last(), name);
        let i = choose|i: int|
            0 <= i < s.drop_last().len() && (#[trigger] s.drop_last()[i]).0 == name
                && s.drop_last()[i].1 == entries_map(s.drop_last())[name];
        assert(s[i] == s.drop_last()[i]);
    }
}

proof fn lemma_wf_implies_inv(r: WindowRegistry)
    requires
        r.wf(),
    ensures
        r@.inv(),
{
    let s = r.entries@.map_values(|e: (String, u64)| (e.0@, e.1));
    assert forall|name: Seq<char>| #[trigger]
        r@.windows.dom().contains(name) implies r@.windows[name] < r@.next by {
        lemma_entries_map_gives_entry(s, name);
    }
}

proof fn lemma_entries_map_dom_len(s: Seq<(Seq<char>, u64)>)
    requires
        entries_unique(s),
    ensures
        entries_map(s).dom().finite(),
        entries_map(s).dom().len() == s.len(),
    decreases s.len(),
{
    if s.len() > 0 {
        assert(entries_unique(s.drop_last()));
        lemma_entries_map_dom_len(s.drop_last());
        assert(forall|i: int| 0 <= i < s.drop_last().len() ==> s.drop_last()[i].0 != s.last().0);
        lemma_entries_map_absent(s.drop_last(), s.last().0);
    }
}

/// What a get-or-create does to the registry: the resulting registry, the
/// handle returned, and whether the host must construct a new window.
pub open spec fn spec_get_or_create(v: RegistryView, name: Seq<char>) -> (
    RegistryView,
    u64,
    bool,
) {
    if v.windows.dom().contains(name) {
        (v, v.windows[name], false)
    } else {
        (
            RegistryView { windows: v.windows.insert(name, v.next), next: (v.next + 1) as u64 },
            v.next,
            true,
        )
    }
}

/// What a release does to the registry: the named slot is cleared; a name
/// without a live window is left as it is.
pub open spec fn spec_release(v: RegistryView, name: Seq<char>) -> RegistryView {
    RegistryView { windows: v.windows.remove(name), next: v.next }
}

/// Tracks at most one live window handle per window name and provides
/// get-or-create semantics.  Mutated only from the single event-loop
/// thread, by the router's activations and the host shell's window-close
/// notifications.
pub struct WindowRegistry {
    entries: Vec<(String, u64)>,
    next: u64,
}

impl View for WindowRegistry {
    type V = RegistryView;

    closed spec fn view(&self) -> RegistryView {
        RegistryView {
            windows: entries_map(self.entries@.map_values(|e: (String, u64)| (e.0@, e.1))),
            next: self.next,
        }
    }
}

impl WindowRegistry {
    /// The entry names are unique and every live handle is below `next`.
    pub closed spec fn wf(&self) -> bool {
        let s = self.entries@.map_values(|e: (String, u64)| (e.0@, e.1));
        entries_unique(s) && forall|i: int| 0 <= i < s.len() ==> (#[trigger] s[i]).1 < self.next
    }

    /// An empty registry: no live windows.
    pub fn new() -> (r: Self)
        ensures
            r.wf(),
            r@.inv(),
            r@.windows == Map::<Seq<char>, u64>::empty(),
            r@.next == 0,
    {
        WindowRegistry { entries: Vec::new(), next: 0 }
    }

    /// Returns the live handle for `name`, minting a fresh one when none is
    /// live.  The boolean says whether a fresh handle was minted, i.e.
    /// whether the host shell must construct the window; otherwise the
    /// caller focuses the existing window.  Viewed from the router this
    /// check-then-create is one atomic step.
    pub fn get_or_create(&mut self, name: &str) -> (r: (u64, bool))
        requires
            old(self).wf(),
            old(self)@.next < u64::MAX,
        ensures
            final(self).wf(),
            final(self)@.inv(),
            final(self)@ == spec_get_or_create(old(self)@, name@).0,
            r.0 == spec_get_or_create(old(self)@, name@).1,
            r.1 == spec_get_or_create(old(self)@, name@).2,
    {
        let ghost s = self.entries@.map_values(|e: (String, u64)| (e.0@, e.1));
        let name_owned: String = name.to_owned();
        let n: usize = self.entries.len();
        let mut i: usize = 0;
        while i < n
            invariant
                *self == *old(self),
                old(self).wf(),
                old(self)@.next < u64::MAX,
                n == self.entries.len(),
                0 <= i <= n,
                name_owned@ == name@,
                s == self.entries@.map_values(|e: (String, u64)| (e.0@, e.1)),
                forall|j: int| 0 <= j < i ==> (#[trigger] s[j]).0 != name@,
            decreases n - i,
        {
            if self.entries[i].0 == name_owned {
                proof {
                    assert(s[i as int] == (self.entries@[i as int].0@, self.entries@[i as int].1));
                    lemma_entries_map_contains(s, i as int);
                    lemma_wf_implies_inv(*self);
                }
                return (self.entries[i].1, false);
            }
            proof {
                assert(s[i as int] == (self.entries@[i as int].0@, self.entries@[i as int].1));
            }
            i += 1;
        }
        proof {
            lemma_entries_map_absent(s, name@);
        }
        let handle: u64 = self.next;
        self.entries.push((name_owned, handle));
        self.next = self.next + 1;
        proof {
            let s2 = self.entries@.map_values(|e: (String, u64)| (e.0@, e.1));
            assert(s2.drop_last() =~= s);
            assert(s2.last() == (name@, handle));
            assert forall|a: int, b: int| 0 <= a < b < s2.len() implies s2[a].0 != s2[b].0 by {
                assert(s2[a] == s[a]);
                if b < s2.len() - 1 {
                    assert(s2[b] == s[b]);
                }
            }
            assert forall|a: int| 0 <= a < s2.len() implies (#[trigger] s2[a]).1 < self.next by {
                if a < s2.len() - 1 {
                    assert(s2[a] == s[a]);
                }
            }
            assert(self.wf());
            lemma_wf_implies_inv(*self);
            assert(self@ =~= spec_get_or_create(old(self)@, name@).0);
        }
        (handle, true)
    }

    /// Clears the slot for `name`; the host shell calls this from its
    /// window-close notification, and equally when constructing the
    /// window failed at the platform layer, so that the slot is empty
    /// again and the next activation retries naturally.  A name without a
    /// live window is left unchanged, so a stale notification is
    /// harmless.
    pub fn release(&mut self, name: &str)
        requires
            old(self).wf(),
        ensures
            final(self).wf(),
            final(self)@.inv(),
            final(self)@ == spec_release(old(self)@, name@),
    {
        let ghost s = self.entries@.map_values(|e: (String, u64)| (e.0@, e.1));
        let name_owned: String = name.to_owned();
        let n: usize = self.entries.len();
        let mut i: usize = 0;
        while i < n
            invariant
                *self == *old(self),
                old(self).wf(),
                n == self.entries.len(),
                0 <= i <= n,
                name_owned@ == name@,
                s == self.entries@.map_values(|e: (String, u64)| (e.0@, e.1)),
                forall|j: int| 0 <= j < i ==> (#[trigger] s[j]).0 != name@,
            decreases n - i,
        {
            if self.entries[i].0 == name_owned {
                proof {
                    assert(s[i as int] == (self.entries@[i as int].0@, self.entries@[i as int].1));
                    lemma_entries_map_remove(s, i as int);
                }
                let ghost k: int = i as int;
                self.entries.remove(i);
                proof {
                    s.remove_ensures(k);
                    let s2 = self.entries@.map_values(|e: (String, u64)| (e.0@, e.1));
                    assert(s2 =~= s.remove(k));
                    assert forall|a: int, b: int| 0 <= a < b < s2.len() implies s2[a].0
                        != s2[b].0 by {
                        assert(s2[a] == if a < k {
                            s[a]
                        } else {
                            s[a + 1]
                        });
                        assert(s2[b] == if b < k {
                            s[b]
                        } else {
                            s[b + 1]
                        });
                    }
                    assert forall|a: int| 0 <= a < s2.len() implies (#[trigger] s2[a]).1
                        < self.next by {
                        assert(s2[a] == if a < k {
                            s[a]
                        } else {
                            s[a + 1]
                        });
                    }
                    assert(self.wf());
                    lemma_wf_implies_inv(*self);
                    assert(self@ =~= spec_release(old(self)@, name@));
                }
                return ;
            }
            proof {
                assert(s[i as int] == (self.entries@[i as int].0@, self.entries@[i as int].1));
            }
            i += 1;
        }
        proof {
            lemma_entries_map_absent(s, name@);
            assert(old(self)@.windows.remove(name@) =~= old(self)@.windows);
            assert(self@ =~= spec_release(old(self)@, name@));
            lemma_wf_implies_inv(*self);
        }
    }

    /// Whether a fresh handle can still be minted.  False only after
    /// exhausting the entire handle space, which no real session reaches.
    pub fn can_mint(&self) -> (r: bool)
        ensures
            r == (self@.next < u64::MAX),
    {
        self.next < u64::MAX
    }

    /// The number of live windows.
    pub fn live_count(&self) -> (r: usize)
        requires
            self.wf(),
        ensures
            self@.windows.dom().finite(),
            r == self@.windows.dom().len(),
    {
        proof {
            lemma_entries_map_dom_len(self.entries@.map_values(|e: (String, u64)| (e.0@, e.1)));
        }
        self.entries.len()
    }

    /// The live handle for `name`, if that window is live.
    pub fn live_handle(&self, name: &str) -> (r: Option<u64>)
        requires
            self.wf(),
        ensures
            match r {
                Some(h) => self@.windows.dom().contains(name@) && self@.windows[name@] == h,
                None => !self@.windows.dom().contains(name@),
            },
    {
        let ghost s = self.entries@.map_values(|e: (String, u64)| (e.0@, e.1));
        let name_owned: String = name.to_owned();
        let n: usize = self.entries.len();
        let mut i: usize = 0;
        while i < n
            invariant
                n == self.entries.len(),
                0 <= i <= n,
                name_owned@ == name@,
                self.wf(),
                s == self.entries@.map_values(|e: (String, u64)| (e.0@, e.1)),
                forall|j: int| 0 <= j < i ==> (#[trigger] s[j]).0 != name@,
            decreases n - i,
        {
            if self.entries[i].0 == name_owned {
                proof {
                    assert(s[i as int] == (self.entries@[i as int].0@, self.entries@[i as int].1));
                    lemma_entries_map_contains(s, i as int);
                }
                return Some(self.entries[i].1);
            }
            proof {
                assert(s[i as int] == (self.entries@[i as int].0@, self.entries@[i as int].1));
            }
            i += 1;
        }
        proof {
            lemma_entries_map_absent(s, name@);
        }
        None
    }
}

/// Law: two get-or-create calls for the same name with no intervening
/// release yield the same handle, and only the first one constructs a
/// window.
pub proof fn lemma_get_or_create_idempotent(v: RegistryView, name: Seq<char>)
    ensures
        ({
            let (v1, h1, c1) = spec_get_or_create(v, name);
            let (v2, h2, c2) = spec_get_or_create(v1, name);
            h2 == h1 && c2 == false && v2 == v1
        }),
{
}

/// Law: handles are minted in increasing order; neither a get-or-create
/// nor a release ever lowers the mint counter, so a handle below `next`
/// stays below `next` forever.
pub proof fn lemma_next_monotonic(v: RegistryView, name: Seq<char>)
    requires
        v.next < u64::MAX,
    ensures
        v.next <= spec_get_or_create(v, name).0.next,
        v.next <= spec_release(v, name).next,
{
}

/// Law: a get-or-create that follows a release of the same name constructs
/// a new window, and its handle differs from every handle the registry
/// minted earlier — in particular from the one just released.  `earlier`
/// stands for any such handle: by [`RegistryView::inv`] and
/// [`lemma_next_monotonic`], every handle ever minted is below `next`.
pub proof fn lemma_release_then_create_fresh(v: RegistryView, name: Seq<char>, earlier: u64)
    requires
        v.inv(),
        v.next < u64::MAX,
        earlier < v.next,
    ensures
        ({
            let v1 = spec_release(v, name);
            let (v2, h2, c2) = spec_get_or_create(v1, name);
            c2 == true && h2 != earlier && (v.windows.dom().contains(name) ==> h2
                != v.windows[name])
        }),
{
}

} // verus!
