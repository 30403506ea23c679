//! The registry of connected controllers and their hysteresis latches: one
//! all-clear latch vector is created when a controller connects and destroyed
//! when it disconnects.

use vstd::prelude::*;

use crate::hysteresis::AnalogLatches;

verus! {

/// The latch state of one connected controller.
#[derive(Clone, Copy, PartialEq, Eq, Structural, Debug)]
pub struct LatchEntry {
    pub controller: u32,
    pub latches: AnalogLatches,
}

/// The latch state stored for a controller id, read from the newest entry
/// backwards. Under `distinct_ids` every id occurs at most once.
pub open spec fn seq_get(s: Seq<LatchEntry>, controller: u32) -> Option<AnalogLatches>
    decreases s.len(),
{
    if s.len() == 0 {
        None
    } else if s.last().controller == controller {
        Some(s.last().latches)
    } else {
        seq_get(s.drop_last(), controller)
    }
}

/// No controller id occurs twice.
pub open spec fn distinct_ids(s: Seq<LatchEntry>) -> bool {
    forall|i: int, j: int| 0 <= i < j < s.len() ==> s[i].controller != s[j].controller
}

proof fn lemma_seq_get_absent(s: Seq<LatchEntry>, c: u32)
    requires
        forall|i: int| 0 <= i < s.len() ==> s[i].controller != c,
    ensures
        seq_get(s, c) is None,
    decreases s.len(),
{
    if s.len() > 0 {
        lemma_seq_get_absent(s.drop_last(), c);
    }
}

proof fn lemma_distinct_ids_prefix(s: Seq<LatchEntry>)
    requires
        distinct_ids(s),
        s.len() > 0,
    ensures
        distinct_ids(s.drop_last()),
{
    assert forall|i: int, j: int| 0 <= i < j < s.drop_last().len() implies s.drop_last()[i].controller
        != s.drop_last()[j].controller by {
        assert(s.drop_last()[i] == s[i]);
        assert(s.drop_last()[j] == s[j]);
    }
}

proof fn lemma_seq_get_push(s: Seq<LatchEntry>, e: LatchEntry, c: u32)
    ensures
        seq_get(s.push(e), c) == (if e.controller == c {
            Some(e.latches)
        } else {
            seq_get(s, c)
        }),
{
    assert(s.push(e).drop_last() =~= s);
}

proof fn lemma_seq_get_update(s: Seq<LatchEntry>, idx: int, e: LatchEntry, c: u32)
    requires
        distinct_ids(s),
        0 <= idx < s.len(),
        s[idx].controller == e.controller,
    ensures
        seq_get(s.update(idx, e), c) == (if e.controller == c {
            Some(e.latches)
        } else {
            seq_get(s, c)
        }),
    decreases s.len(),
{
    let t = s.update(idx, e);
    if idx == s.len() - 1 {
        assert(t.last() == e);
        assert(t.drop_last() =~= s.drop_last());
    } else {
        assert(t.last() == s.last());
        assert(t.drop_last() =~= s.drop_last().update(idx, e));
        lemma_distinct_ids_prefix(s);
        lemma_seq_get_update(s.drop_last(), idx, e, c);
    }
}

proof fn lemma_seq_get_remove(s: Seq<LatchEntry>, idx: int, c: u32)
    requires
        distinct_ids(s),
        0 <= idx < s.len(),
    ensures
        seq_get(s.remove(idx), c) == (if s[idx].controller == c {
            None
        } else {
            seq_get(s, c)
        }),
    decreases s.len(),
{
    let t = s.remove(idx);
    if idx == s.len() - 1 {
        assert(t =~= s.drop_last());
        if s[idx].controller == c {
            assert forall|i: int| 0 <= i < s.drop_last().len() implies s.drop_last()[i].controller
                != c by {
                assert(s.drop_last()[i] == s[i]);
            }
            lemma_seq_get_absent(s.drop_last(), c);
        }
    } else {
        assert(t.last() == s.last());
        assert(t.drop_last() =~= s.drop_last().remove(idx));
        lemma_distinct_ids_prefix(s);
        lemma_seq_get_remove(s.drop_last(), idx, c);
    }
}

/// Per connected controller, the four hysteresis latches; absent ids are
/// unregistered controllers.
pub struct LatchRegistry {
    pub entries: Vec<LatchEntry>,
}

fn upsert(v: &mut Vec<LatchEntry>, controller: u32, latches: AnalogLatches)
    requires
        distinct_ids(old(v)@),
    ensures
        distinct_ids(final(v)@),
        forall|c: u32|
            seq_get(final(v)@, c) == (if c == controller {
                Some(latches)
            } else {
                seq_get(old(v)@, c)
            }),
{
    let n = v.len();
    let mut i: usize = 0;
    while i < n
        invariant
            i <= n,
            n == v@.len(),
            v@ == old(v)@,
            distinct_ids(v@),
            forall|j: int| 0 <= j < i ==> v@[j].controller != controller,
        decreases n - i,
    {
        if v[i].controller == controller {
            let fresh = LatchEntry { controller, latches };
            v.set(i, fresh);
            proof {
                assert forall|i2: int, j2: int| 0 <= i2 < j2 < v@.len() implies v@[i2].controller
                    != v@[j2].controller by {
                    assert(v@[i2].controller == old(v)@[i2].controller);
                    assert(v@[j2].controller == old(v)@[j2].controller);
                }
                assert forall|c: u32|
                    seq_get(v@, c) == (if c == controller {
                        Some(latches)
                    } else {
                        seq_get(old(v)@, c)
                    }) by {
                    lemma_seq_get_update(old(v)@, i as int, fresh, c);
                }
            }
            return;
        }
        i += 1;
    }
    let fresh = LatchEntry { controller, latches };
    v.push(fresh);
    proof {
        assert forall|i2: int, j2: int| 0 <= i2 < j2 < v@.len() implies v@[i2].controller
            != v@[j2].controller by {
            assert(i2 < old(v)@.len() ==> v@[i2] == old(v)@[i2]);
            assert(j2 < old(v)@.len() ==> v@[j2] == old(v)@[j2]);
            assert(j2 == old(v)@.len() ==> v@[j2] == fresh);
        }
        assert forall|c: u32|
            seq_get(v@, c) == (if c == controller {
                Some(latches)
            } else {
                seq_get(old(v)@, c)
            }) by {
            lemma_seq_get_push(old(v)@, fresh, c);
        }
    }
}

impl LatchRegistry {
    /// Every controller id is stored at most once.
    pub open spec fn wf(self) -> bool {
        distinct_ids(self.entries@)
    }

    /// The latch state stored for a controller id, if it is registered.
    pub open spec fn spec_get(self, controller: u32) -> Option<AnalogLatches> {
        seq_get(self.entries@, controller)
    }

    /// Whether a controller id is registered.
    pub open spec fn registered(self, controller: u32) -> bool {
        self.spec_get(controller) is Some
    }

    /// The registry as a mathematical map from controller ids to latches.
    pub open spec fn map_view(self) -> Map<u32, AnalogLatches> {
        Map::new(
            |c: u32| seq_get(self.entries@, c) is Some,
            |c: u32| seq_get(self.entries@, c).unwrap(),
        )
    }

    /// Creates the registry with no controller connected.
    pub fn new() -> (r: LatchRegistry)
        ensures
            r.wf(),
            forall|c: u32| r.spec_get(c) is None,
            r.map_view() =~= Map::<u32, AnalogLatches>::empty(),
    {
        let r = LatchRegistry { entries: Vec::new() };
        proof {
            assert(r.map_view() =~= Map::<u32, AnalogLatches>::empty());
        }
        r
    }

    /// Reads the latch state of a controller id.
    pub fn get(&self, controller: u32) -> (r: Option<AnalogLatches>)
        ensures
            r == self.spec_get(controller),
    {
        proof {
            assert(self.entries@.take(self.entries@.len() as int) =~= self.entries@);
        }
        let mut i: usize = self.entries.len();
        while i > 0
            invariant
                i <= self.entries@.len(),
                seq_get(self.entries@, controller) == seq_get(
                    self.entries@.take(i as int),
                    controller,
                ),
            decreases i,
        {
            i = i - 1;
            proof {
                assert(self.entries@.take(i + 1 as int).last() == self.entries@[i as int]);
                assert(self.entries@.take(i + 1 as int).drop_last() =~= self.entries@.take(
                    i as int,
                ));
            }
            let candidate = self.entries[i];
            if candidate.controller == controller {
                return Some(candidate.latches);
            }
        }
        None
    }

    /// Whether a controller id is registered.
    pub fn is_registered(&self, controller: u32) -> (r: bool)
        ensures
            r == self.registered(controller),
    {
        self.get(controller).is_some()
    }

    /// Registers a connected controller with all latches clear; a repeated
    /// registration of the same id resets its latches.
    pub fn register(&mut self, controller: u32)
        requires
            old(self).wf(),
        ensures
            final(self).wf(),
            forall|c: u32|
                final(self).spec_get(c) == (if c == controller {
                    Some(AnalogLatches::cleared())
                } else {
                    old(self).spec_get(c)
                }),
            final(self).map_view() == old(self).map_view().insert(
                controller,
                AnalogLatches::cleared(),
            ),
    {
        upsert(&mut self.entries, controller, AnalogLatches::new());
        proof {
            assert(self.map_view() =~= old(self).map_view().insert(
                controller,
                AnalogLatches::cleared(),
            ));
        }
    }

    /// Replaces the latch state of a registered controller.
    pub fn set_latches(&mut self, controller: u32, latches: AnalogLatches)
        requires
            old(self).wf(),
        ensures
            final(self).wf(),
            forall|c: u32|
                final(self).spec_get(c) == (if c == controller {
                    Some(latches)
                } else {
                    old(self).spec_get(c)
                }),
            final(self).map_view() == old(self).map_view().insert(controller, latches),
    {
        upsert(&mut self.entries, controller, latches);
        proof {
            assert(self.map_view() =~= old(self).map_view().insert(controller, latches));
        }
    }

    /// Removes a controller id and its latches; removing an unregistered id
    /// changes nothing.
    pub fn remove(&mut self, controller: u32)
        requires
            old(self).wf(),
        ensures
            final(self).wf(),
            forall|c: u32|
                final(self).spec_get(c) == (if c == controller {
                    None
                } else {
                    old(self).spec_get(c)
                }),
            final(self).map_view() == old(self).map_view().remove(controller),
    {
        let n = self.entries.len();
        let mut i: usize = 0;
        while i < n
            invariant
                i <= n,
                n == self.entries@.len(),
                self.entries@ == old(self).entries@,
                distinct_ids(self.entries@),
                forall|j: int| 0 <= j < i ==> self.entries@[j].controller != controller,
            decreases n - i,
        {
            if self.entries[i].controller == controller {
                self.entries.remove(i);
                proof {
                    assert forall|i2: int, j2: int| 0 <= i2 < j2 < self.entries@.len() implies self.entries@[i2].controller
                        != self.entries@[j2].controller by {
                        assert(self.entries@[i2] == if i2 < i {
                            old(self).entries@[i2]
                        } else {
                            old(self).entries@[i2 + 1]
                        });
                        assert(self.entries@[j2] == if j2 < i {
                            old(self).entries@[j2]
                        } else {
                            old(self).entries@[j2 + 1]
                        });
                    }
                    assert forall|c: u32|
                        seq_get(self.entries@, c) == (if c == controller {
                            None
                        } else {
                            seq_get(old(self).entries@, c)
                        }) by {
                        lemma_seq_get_remove(old(self).entries@, i as int, c);
                    }
                    assert(self.map_view() =~= old(self).map_view().remove(controller));
                }
                return;
            }
            i += 1;
        }
        proof {
            lemma_seq_get_absent(self.entries@, controller);
            assert(self.map_view() =~= old(self).map_view().remove(controller));
        }
    }
}

} // verus!
