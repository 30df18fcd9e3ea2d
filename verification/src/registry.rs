//! The client registry: the live map from assigned IP address to the
//! outbound delivery handle of the currently connected session.
//!
//! A handle is an opaque identifier under which the surrounding transport
//! keeps the session's private outbound channel; the registry itself only
//! promises that at most one handle is registered per address at any
//! instant.  A new session for an already-connected address replaces the
//! prior entry (last writer wins); a session removes itself at teardown
//! only if the entry still carries its own handle, so a teardown that
//! lost a reconnect race cannot erase the newer session's entry.

use vstd::prelude::*;

use crate::net::IpAddress;

verus! {

/// One live entry: an assigned address and the session's outbound handle.
#[derive(PartialEq, Eq, Structural, Clone, Copy, Debug)]
pub struct RegistryEntry {
    pub ip: IpAddress,
    pub handle: u64,
}

/// The live entries, at most one per address.
pub struct Registry {
    entries: Vec<RegistryEntry>,
}

impl View for Registry {
    type V = Seq<RegistryEntry>;

    closed spec fn view(&self) -> Seq<RegistryEntry> {
        self.entries@
    }
}

impl Registry {
    /// At most one entry per address.
    pub open spec fn wf(self) -> bool {
        forall|i: int, j: int|
            #![trigger self@[i], self@[j]]
            0 <= i < j < self@.len() ==> self@[i].ip != self@[j].ip
    }

    /// Some entry binds `ip` to `handle`.
    pub open spec fn maps(self, ip: IpAddress, handle: u64) -> bool {
        exists|i: int|
            #![trigger self@[i]]
            0 <= i < self@.len() && self@[i].ip == ip && self@[i].handle == handle
    }

    /// Some entry carries `ip`: a session for it is currently connected.
    pub open spec fn connected(self, ip: IpAddress) -> bool {
        exists|i: int| #![trigger self@[i]] 0 <= i < self@.len() && self@[i].ip == ip
    }

    /// The handle registered under `ip`; meaningful when `connected(ip)`
    /// and the registry is well-formed, which make it unique.
    pub open spec fn handle_of(self, ip: IpAddress) -> u64 {
        choose|h: u64| self.maps(ip, h)
    }

    /// An empty registry.
    pub fn new() -> (r: Registry)
        ensures
            r.wf(),
            r@.len() == 0,
            forall|ip: IpAddress| !(#[trigger] r.connected(ip)),
    {
        Registry { entries: Vec::new() }
    }

    /// The index of the entry for `ip`, if one exists.
    fn find_ip(&self, ip: IpAddress) -> (r: Option<usize>)
        ensures
            r matches Some(i) ==> i < self@.len() && self@[i as int].ip == ip,
            r is Some <==> self.connected(ip),
    {
        let n = self.entries.len();
        let mut i: usize = 0;
        while i < n
            invariant
                n == self@.len(),
                i <= n,
                forall|j: int| #![trigger self@[j]] 0 <= j < i ==> self@[j].ip != ip,
            decreases n - i,
        {
            if self.entries[i].ip == ip {
                return Some(i);
            }
            i += 1;
        }
        None
    }

    /// Removes whatever entry carries `ip`; every other binding stays.
    fn remove_ip(&mut self, ip: IpAddress)
        requires
            old(self).wf(),
        ensures
            final(self).wf(),
            !final(self).connected(ip),
            forall|q: IpAddress, h: u64|
                q != ip ==> (#[trigger] final(self).maps(q, h) <==> old(self).maps(q, h)),
            forall|q: IpAddress|
                q != ip ==> (#[trigger] final(self).connected(q) <==> old(self).connected(q)),
            old(self).connected(ip) ==> final(self)@.len() == old(self)@.len() - 1,
            !old(self).connected(ip) ==> final(self)@ == old(self)@,
    {
        match self.find_ip(ip) {
            Some(i) => {
                let ghost pre = self@;
                let ghost k = i as int;
                self.entries.remove(i);
                proof {
                    assert forall|a: int, b: int|
                        #![trigger self@[a], self@[b]]
                        0 <= a < b < self@.len() implies self@[a].ip != self@[b].ip by {
                        let a0 = if a < k {
                            a
                        } else {
                            a + 1
                        };
                        let b0 = if b < k {
                            b
                        } else {
                            b + 1
                        };
                        assert(self@[a] == pre[a0]);
                        assert(self@[b] == pre[b0]);
                    }
                    assert(self.wf());
                    assert forall|j: int| 0 <= j < self@.len() implies (#[trigger] self@[j]).ip
                        != ip by {
                        let j0 = if j < k {
                            j
                        } else {
                            j + 1
                        };
                        assert(self@[j] == pre[j0]);
                        if j0 < k {
                            assert(pre[j0].ip != pre[k].ip);
                        } else if j0 > k {
                            assert(pre[k].ip != pre[j0].ip);
                        }
                    }
                    assert forall|q: IpAddress, h: u64| q != ip implies (#[trigger] self.maps(q, h)
                        <==> old(self).maps(q, h)) by {
                        if self.maps(q, h) {
                            let w = choose|w: int|
                                0 <= w < self@.len() && self@[w].ip == q && self@[w].handle == h;
                            let w0 = if w < k {
                                w
                            } else {
                                w + 1
                            };
                            assert(self@[w] == pre[w0]);
                        }
                        if old(self).maps(q, h) {
                            let w0 = choose|w0: int|
                                0 <= w0 < pre.len() && pre[w0].ip == q && pre[w0].handle == h;
                            if w0 < k {
                                assert(self@[w0] == pre[w0]);
                            } else if w0 > k {
                                assert(self@[w0 - 1] == pre[w0]);
                            }
                        }
                    }
                    assert forall|q: IpAddress| q != ip implies (#[trigger] self.connected(q)
                        <==> old(self).connected(q)) by {
                        if self.connected(q) {
                            let w = choose|w: int| 0 <= w < self@.len() && self@[w].ip == q;
                            assert(self.maps(q, self@[w].handle));
                            assert(old(self).maps(q, self@[w].handle));
                        }
                        if old(self).connected(q) {
                            let w0 = choose|w0: int| 0 <= w0 < pre.len() && pre[w0].ip == q;
                            assert(old(self).maps(q, pre[w0].handle));
                            assert(self.maps(q, pre[w0].handle));
                        }
                    }
                }
            },
            None => {
            },
        }
    }

    /// Inserts or overwrites the entry for `ip`: after the call exactly
    /// `handle` is bound to `ip`, and every other address keeps its
    /// binding (last writer wins).
    pub fn register(&mut self, ip: IpAddress, handle: u64)
        requires
            old(self).wf(),
        ensures
            final(self).wf(),
            final(self).maps(ip, handle),
            final(self).connected(ip),
            forall|h: u64| #[trigger] final(self).maps(ip, h) ==> h == handle,
            forall|q: IpAddress, h: u64|
                q != ip ==> (#[trigger] final(self).maps(q, h) <==> old(self).maps(q, h)),
            forall|q: IpAddress|
                q != ip ==> (#[trigger] final(self).connected(q) <==> old(self).connected(q)),
    {
        self.remove_ip(ip);
        let ghost midreg = *self;
        let ghost mid = self@;
        self.entries.push(RegistryEntry { ip, handle });
        proof {
            let last: int = self@.len() - 1;
            assert(self@[last].ip == ip && self@[last].handle == handle);
            assert forall|a: int, b: int|
                #![trigger self@[a], self@[b]]
                0 <= a < b < self@.len() implies self@[a].ip != self@[b].ip by {
                assert(self@[a] == mid[a]);
                if b < mid.len() {
                    assert(self@[b] == mid[b]);
                } else {
                    assert(mid[a].ip != ip);
                }
            }
            assert(self.wf());
            assert forall|h: u64| #[trigger] self.maps(ip, h) implies h == handle by {
                let w = choose|w: int|
                    0 <= w < self@.len() && self@[w].ip == ip && self@[w].handle == h;
                if w < last {
                    assert(self@[w] == mid[w]);
                    assert(mid[w].ip != ip);
                }
            }
            assert forall|q: IpAddress, h: u64| q != ip implies (#[trigger] self.maps(q, h)
                <==> old(self).maps(q, h)) by {
                assert(midreg.maps(q, h) <==> old(self).maps(q, h));
                if self.maps(q, h) {
                    let w = choose|w: int|
                        0 <= w < self@.len() && self@[w].ip == q && self@[w].handle == h;
                    assert(w < mid.len());
                    assert(mid[w] == self@[w]);
                    assert(midreg.maps(q, h));
                }
                if midreg.maps(q, h) {
                    let w = choose|w: int|
                        0 <= w < mid.len() && mid[w].ip == q && mid[w].handle == h;
                    assert(self@[w] == mid[w]);
                    assert(self.maps(q, h));
                }
            }
            assert forall|q: IpAddress| q != ip implies (#[trigger] self.connected(q)
                <==> old(self).connected(q)) by {
                assert(midreg.connected(q) <==> old(self).connected(q));
                if self.connected(q) {
                    let w = choose|w: int| 0 <= w < self@.len() && self@[w].ip == q;
                    assert(w < mid.len());
                    assert(mid[w] == self@[w]);
                    assert(midreg.connected(q));
                }
                if midreg.connected(q) {
                    let w = choose|w: int| 0 <= w < mid.len() && mid[w].ip == q;
                    assert(self@[w] == mid[w]);
                    assert(self.connected(q));
                }
            }
        }
    }

    /// The handle registered under `ip`, without blocking on delivery.
    pub fn lookup(&self, ip: IpAddress) -> (r: Option<u64>)
        requires
            self.wf(),
        ensures
            r matches Some(h) ==> self.maps(ip, h) && h == self.handle_of(ip),
            r is Some <==> self.connected(ip),
    {
        match self.find_ip(ip) {
            Some(i) => {
                let h = self.entries[i].handle;
                proof {
                    lemma_handle_unique(*self, ip, h);
                }
                Some(h)
            },
            None => None,
        }
    }

    /// Removes the entry for `ip` only if it still carries `handle`: a
    /// session tearing itself down cannot erase a newer session's entry
    /// for the same address after a reconnect race.
    pub fn unregister(&mut self, ip: IpAddress, handle: u64)
        requires
            old(self).wf(),
        ensures
            final(self).wf(),
            old(self).maps(ip, handle) ==> !final(self).connected(ip),
            !old(self).maps(ip, handle) ==> final(self)@ == old(self)@,
            forall|q: IpAddress, h: u64|
                q != ip ==> (#[trigger] final(self).maps(q, h) <==> old(self).maps(q, h)),
            forall|q: IpAddress|
                q != ip ==> (#[trigger] final(self).connected(q) <==> old(self).connected(q)),
    {
        match self.find_ip(ip) {
            Some(i) => {
                if self.entries[i].handle == handle {
                    proof {
                        lemma_handle_unique(*self, ip, handle);
                    }
                    self.remove_ip(ip);
                } else {
                    proof {
                        if old(self).maps(ip, handle) {
                            let w = choose|w: int|
                                0 <= w < self@.len() && self@[w].ip == ip && self@[w].handle
                                    == handle;
                            if w < i as int {
                                assert(self@[w].ip != self@[i as int].ip);
                            } else if w > i as int {
                                assert(self@[i as int].ip != self@[w].ip);
                            }
                        }
                    }
                }
            },
            None => {
                proof {
                    if old(self).maps(ip, handle) {
                        assert(old(self).connected(ip));
                    }
                }
            },
        }
    }

    /// The number of live entries.
    pub fn len(&self) -> (n: usize)
        ensures
            n == self@.len(),
    {
        self.entries.len()
    }
}

/// The registry answers a lookup with exactly the handle that was
/// registered: while an entry binds `ip` to `h`, the handle a reader
/// resolves for `ip` is `h` and no other.
pub proof fn lemma_handle_unique(reg: Registry, ip: IpAddress, h: u64)
    requires
        reg.wf(),
        reg.maps(ip, h),
    ensures
        reg.connected(ip),
        reg.handle_of(ip) == h,
{
    let w = choose|w: int| 0 <= w < reg@.len() && reg@[w].ip == ip && reg@[w].handle == h;
    assert(reg@[w].ip == ip);
    let h2 = reg.handle_of(ip);
    assert(reg.maps(ip, h2)) by {
        assert(reg.maps(ip, h));
    }
    let w2 = choose|w2: int| 0 <= w2 < reg@.len() && reg@[w2].ip == ip && reg@[w2].handle == h2;
    if w < w2 {
        assert(reg@[w].ip != reg@[w2].ip);
    } else if w2 < w {
        assert(reg@[w2].ip != reg@[w].ip);
    }
}

} // verus!
