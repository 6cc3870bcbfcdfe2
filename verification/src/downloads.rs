//! The downloads in progress: every running download holds a claim on a slot, and at most
//! the configured number of slots can be claimed at once. Of the downloads of one video, the
//! first to claim a slot while no other download caches that video is the one that caches
//! it.
//!
//! Taking a slot is one step: whether a slot is free and the claim itself are decided
//! together, so no two requests can both take the last slot.

use vstd::multiset::Multiset;
use vstd::prelude::*;

use crate::text::{str_equals, strings_view};

verus! {

broadcast use vstd::seq_lib::group_to_multiset_ensures;

/// The downloads in progress.
#[derive(Debug)]
pub struct Downloads {
    /// The video ID of each running download, once per download.
    running: Vec<String>,
    /// The IDs of the videos being cached, each once.
    caching: Vec<String>,
    /// The most downloads that may run at once.
    limit: usize,
}

impl Downloads {
    /// The claims held: the video ID of each running download, once per download.
    pub closed spec fn claims(&self) -> Multiset<Seq<char>> {
        strings_view(self.running@).to_multiset()
    }

    /// The videos being cached by one of the running downloads.
    pub closed spec fn cached_ids(&self) -> Set<Seq<char>> {
        strings_view(self.caching@).to_set()
    }

    /// The most downloads that may run at once.
    pub closed spec fn limit(&self) -> nat {
        self.limit as nat
    }

    /// No more claims are held than there are slots, and each video is cached once.
    pub closed spec fn wf(&self) -> bool {
        &&& self.running@.len() <= self.limit
        &&& strings_view(self.caching@).no_duplicates()
    }

    /// No download in progress, with `limit` slots.
    pub fn new(limit: usize) -> (r: Downloads)
        ensures
            r.claims() =~= Multiset::<Seq<char>>::empty(),
            r.cached_ids() =~= Set::<Seq<char>>::empty(),
            r.limit() == limit,
            r.wf(),
    {
        let r = Downloads { running: Vec::new(), caching: Vec::new(), limit };
        assert(strings_view(r.running@) =~= Seq::<Seq<char>>::empty());
        assert(strings_view(r.caching@) =~= Seq::<Seq<char>>::empty());
        r
    }

    /// How many downloads are running; never more than the limit.
    pub fn count(&self) -> (r: usize)
        requires
            self.wf(),
        ensures
            r == self.claims().len(),
            r <= self.limit(),
    {
        self.running.len()
    }

    /// Whether a slot is free: fewer downloads run than the limit allows.
    pub fn available_slot(&self) -> (r: bool)
        ensures
            r == (self.claims().len() < self.limit()),
    {
        self.running.len() < self.limit
    }

    /// Claims a slot for a download of video `id`, if one is free. Gives whether this download
    /// is the one to cache the video (no running download is caching it), or nothing when
    /// every slot is taken.
    pub fn try_claim(&mut self, id: &str) -> (r: Option<bool>)
        requires
            old(self).wf(),
        ensures
            final(self).wf(),
            final(self).limit() == old(self).limit(),
            r is Some <==> old(self).claims().len() < old(self).limit(),
            match r {
                Some(cacher) => {
                    &&& final(self).claims() == old(self).claims().insert(id@)
                    &&& cacher == !old(self).cached_ids().contains(id@)
                    &&& final(self).cached_ids() == old(self).cached_ids().insert(id@)
                },
                None => {
                    &&& final(self).claims() == old(self).claims()
                    &&& final(self).cached_ids() == old(self).cached_ids()
                },
            },
            final(self).claims().len() <= final(self).limit(),
    {
        if self.running.len() >= self.limit {
            return None;
        }
        let cacher = position_of(&self.caching, id).is_none();
        let ghost old_running = strings_view(self.running@);
        let ghost old_caching = strings_view(self.caching@);
        self.running.push(id.to_owned());
        assert(strings_view(self.running@) =~= old_running.push(id@));
        if cacher {
            self.caching.push(id.to_owned());
            assert(strings_view(self.caching@) =~= old_caching.push(id@));
            assert(strings_view(self.caching@).to_set() =~= old_caching.to_set().insert(id@)) by {
                broadcast use vstd::seq_lib::lemma_seq_contains_after_push;

            }
            assert(strings_view(self.caching@).no_duplicates()) by {
                assert forall|i: int, j: int|
                    0 <= i < j < strings_view(self.caching@).len() implies strings_view(
                    self.caching@,
                )[i] != strings_view(self.caching@)[j] by {
                    if j == old_caching.len() {
                        assert(old_caching.contains(old_caching[i]));
                    }
                }
            }
        } else {
            assert(old_caching.to_set().contains(id@));
            assert(old_caching.to_set().insert(id@) =~= old_caching.to_set());
        }
        Some(cacher)
    }

    /// Gives back the slot of a download of video `id`; `cacher` says whether that download
    /// was the one caching the video, which then no longer is being cached.
    pub fn release(&mut self, id: &str, cacher: bool)
        requires
            old(self).wf(),
        ensures
            final(self).wf(),
            final(self).limit() == old(self).limit(),
            final(self).claims() == if old(self).claims().count(id@) > 0 {
                old(self).claims().remove(id@)
            } else {
                old(self).claims()
            },
            final(self).cached_ids() == if cacher {
                old(self).cached_ids().remove(id@)
            } else {
                old(self).cached_ids()
            },
            final(self).claims().len() <= final(self).limit(),
    {
        let ghost old_running = strings_view(self.running@);
        match position_of(&self.running, id) {
            Some(i) => {
                self.running.remove(i);
                assert(strings_view(self.running@) =~= old_running.remove(i as int));
            },
            None => {
                assert(!old_running.contains(id@));
            },
        }
        if cacher {
            let ghost old_caching = strings_view(self.caching@);
            match position_of(&self.caching, id) {
                Some(i) => {
                    self.caching.remove(i);
                    let ghost now = strings_view(self.caching@);
                    assert(now =~= old_caching.remove(i as int));
                    assert(now.to_set() =~= old_caching.to_set().remove(id@)) by {
                        assert forall|x: Seq<char>| now.contains(x) implies x != id@
                            && old_caching.contains(x) by {
                            let k = choose|k: int| 0 <= k < now.len() && now[k] == x;
                            if k < i {
                                assert(old_caching[k] == x);
                            } else {
                                assert(old_caching[k + 1] == x);
                            }
                        }
                        assert forall|x: Seq<char>|
                            old_caching.contains(x) && x != id@ implies now.contains(x) by {
                            let k = choose|k: int| 0 <= k < old_caching.len() && old_caching[k] == x;
                            if k < i {
                                assert(now[k] == x);
                            } else {
                                assert(now[k - 1] == x);
                            }
                        }
                    }
                    assert(now.no_duplicates()) by {
                        assert forall|a: int, b: int| 0 <= a < b < now.len() implies now[a]
                            != now[b] by {
                            let oa = if a < i { a } else { a + 1 };
                            let ob = if b < i { b } else { b + 1 };
                            assert(now[a] == old_caching[oa]);
                            assert(now[b] == old_caching[ob]);
                        }
                    }
                },
                None => {
                    assert(!old_caching.contains(id@));
                    assert(old_caching.to_set().remove(id@) =~= old_caching.to_set());
                },
            }
        }
    }
}

/// Where `id` first occurs in `v`, if it does.
fn position_of(v: &Vec<String>, id: &str) -> (r: Option<usize>)
    ensures
        match r {
            Some(i) => i < v@.len() && v@[i as int]@ == id@ && strings_view(v@)[i as int] == id@,
            None => !strings_view(v@).contains(id@),
        },
{
    let mut i: usize = 0;
    while i < v.len()
        invariant
            i <= v@.len(),
            forall|k: int| 0 <= k < i ==> strings_view(v@)[k] != id@,
        decreases v@.len() - i,
    {
        if str_equals(v[i].as_str(), id) {
            return Some(i);
        }
        i = i + 1;
    }
    None
}

/// However the downloads came to be, no more of them run than the limit allows.
pub proof fn lemma_claims_within_limit(d: Downloads)
    requires
        d.wf(),
    ensures
        d.claims().len() <= d.limit(),
{
}

/// Releasing a slot undoes claiming it: claiming a slot for a video and then giving it back
/// leaves the claims and the videos being cached as they were.
pub proof fn lemma_release_undoes_claim(
    claims: Multiset<Seq<char>>,
    cached: Set<Seq<char>>,
    id: Seq<char>,
    cacher: bool,
)
    requires
        cacher == !cached.contains(id),
    ensures
        claims.insert(id).count(id) > 0,
        claims.insert(id).remove(id) =~= claims,
        (if cacher {
            cached.insert(id).remove(id)
        } else {
            cached.insert(id)
        }) =~= cached,
{
}

} // verus!
