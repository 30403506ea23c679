//! The per-player binding table: a mapping from controller identity and
//! logical input to an output key, with lookup, overwriting insert, and
//! per-player clear. The two players' tables never contaminate each other.

use vstd::prelude::*;

use crate::input::{LogicalInput, OutputKey, PlayerIndex};

verus! {

/// One committed binding: a (controller, input) pair mapped to an output key.
#[derive(Clone, Copy, PartialEq, Eq, Structural, Debug)]
pub struct Binding {
    pub controller: u32,
    pub input: LogicalInput,
    pub key: OutputKey,
}

/// The key a (controller, input) pair maps to, read from the newest entry
/// backwards. Under `distinct_triples` every pair occurs at most once, so
/// this is the table's one association for the pair.
pub open spec fn seq_lookup(s: Seq<Binding>, controller: u32, input: LogicalInput) -> Option<
    OutputKey,
>
    decreases s.len(),
{
    if s.len() == 0 {
        None
    } else if s.last().controller == controller && s.last().input == input {
        Some(s.last().key)
    } else {
        seq_lookup(s.drop_last(), controller, input)
    }
}

/// No (controller, input) pair occurs twice: a pair maps to at most one key.
pub open spec fn distinct_triples(s: Seq<Binding>) -> bool {
    forall|i: int, j: int|
        0 <= i < j < s.len() ==> !(s[i].controller == s[j].controller && s[i].input
            == s[j].input)
}

proof fn lemma_seq_lookup_push(s: Seq<Binding>, b: Binding, c: u32, input: LogicalInput)
    ensures
        seq_lookup(s.push(b), c, input) == (if b.controller == c && b.input == input {
            Some(b.key)
        } else {
            seq_lookup(s, c, input)
        }),
{
    assert(s.push(b).drop_last() =~= s);
}

proof fn lemma_distinct_prefix(s: Seq<Binding>)
    requires
        distinct_triples(s),
        s.len() > 0,
    ensures
        distinct_triples(s.drop_last()),
{
    assert forall|i: int, j: int| 0 <= i < j < s.drop_last().len() implies !(s.drop_last()[i].controller
        == s.drop_last()[j].controller && s.drop_last()[i].input == s.drop_last()[j].input) by {
        assert(s.drop_last()[i] == s[i]);
        assert(s.drop_last()[j] == s[j]);
    }
}

proof fn lemma_distinct_update(s: Seq<Binding>, idx: int, b: Binding)
    requires
        distinct_triples(s),
        0 <= idx < s.len(),
        s[idx].controller == b.controller,
        s[idx].input == b.input,
    ensures
        distinct_triples(s.update(idx, b)),
{
    let t = s.update(idx, b);
    assert forall|i: int, j: int| 0 <= i < j < t.len() implies !(t[i].controller
        == t[j].controller && t[i].input == t[j].input) by {
        assert(t[i].controller == s[i].controller && t[i].input == s[i].input);
        assert(t[j].controller == s[j].controller && t[j].input == s[j].input);
    }
}

proof fn lemma_distinct_push(s: Seq<Binding>, b: Binding)
    requires
        distinct_triples(s),
        forall|i: int| 0 <= i < s.len() ==> !(s[i].controller == b.controller && s[i].input
            == b.input),
    ensures
        distinct_triples(s.push(b)),
{
    let t = s.push(b);
    assert forall|i: int, j: int| 0 <= i < j < t.len() implies !(t[i].controller
        == t[j].controller && t[i].input == t[j].input) by {
        assert(i < s.len() ==> t[i] == s[i]);
        assert(j < s.len() ==> t[j] == s[j]);
        assert(j == s.len() ==> t[j] == b);
    }
}

proof fn lemma_seq_lookup_update(
    s: Seq<Binding>,
    idx: int,
    b: Binding,
    c: u32,
    input: LogicalInput,
)
    requires
        distinct_triples(s),
        0 <= idx < s.len(),
        s[idx].controller == b.controller,
        s[idx].input == b.input,
    ensures
        seq_lookup(s.update(idx, b), c, input) == (if b.controller == c && b.input == input {
            Some(b.key)
        } else {
            seq_lookup(s, c, input)
        }),
    decreases s.len(),
{
    let t = s.update(idx, b);
    if idx == s.len() - 1 {
        assert(t.last() == b);
        assert(t.drop_last() =~= s.drop_last());
    } else {
        assert(t.last() == s.last());
        assert(t.drop_last() =~= s.drop_last().update(idx, b));
        lemma_distinct_prefix(s);
        lemma_seq_lookup_update(s.drop_last(), idx, b, c, input);
    }
}

/// For each of the two players, a mapping from controller id and logical
/// input to an output key. A (player, controller, input) triple maps to at
/// most one key; inserting overwrites silently; clearing one player leaves
/// the other player's bindings untouched.
pub struct BindingTable {
    pub first: Vec<Binding>,
    pub second: Vec<Binding>,
}

fn upsert(v: &mut Vec<Binding>, controller: u32, input: LogicalInput, key: OutputKey)
    requires
        distinct_triples(old(v)@),
    ensures
        distinct_triples(final(v)@),
        forall|c2: u32, i2: LogicalInput|
            seq_lookup(final(v)@, c2, i2) == (if c2 == controller && i2 == input {
                Some(key)
            } else {
                seq_lookup(old(v)@, c2, i2)
            }),
{
    let n = v.len();
    let mut i: usize = 0;
    while i < n
        invariant
            i <= n,
            n == v@.len(),
            v@ == old(v)@,
            distinct_triples(v@),
            forall|j: int| 0 <= j < i ==> !(v@[j].controller == controller && v@[j].input == input),
        decreases n - i,
    {
        let candidate = v[i];
        if candidate.controller == controller && candidate.input == input {
            let fresh = Binding { controller, input, key };
            v.set(i, fresh);
            proof {
                lemma_distinct_update(old(v)@, i as int, fresh);
                assert forall|c2: u32, i2: LogicalInput|
                    seq_lookup(v@, c2, i2) == (if c2 == controller && i2 == input {
                        Some(key)
                    } else {
                        seq_lookup(old(v)@, c2, i2)
                    }) by {
                    lemma_seq_lookup_update(old(v)@, i as int, fresh, c2, i2);
                }
            }
            return;
        }
        i += 1;
    }
    let fresh = Binding { controller, input, key };
    v.push(fresh);
    proof {
        lemma_distinct_push(old(v)@, fresh);
        assert forall|c2: u32, i2: LogicalInput|
            seq_lookup(v@, c2, i2) == (if c2 == controller && i2 == input {
                Some(key)
            } else {
                seq_lookup(old(v)@, c2, i2)
            }) by {
            lemma_seq_lookup_push(old(v)@, fresh, c2, i2);
        }
    }
}

impl BindingTable {
    /// The entry sequence backing one player's table.
    pub open spec fn entries(self, p: PlayerIndex) -> Seq<Binding> {
        match p {
            PlayerIndex::First => self.first@,
            PlayerIndex::Second => self.second@,
        }
    }

    /// Both players' tables hold each (controller, input) pair at most once.
    pub open spec fn wf(self) -> bool {
        distinct_triples(self.first@) && distinct_triples(self.second@)
    }

    /// The key a (player, controller, input) triple maps to, if any.
    pub open spec fn spec_lookup(
        self,
        p: PlayerIndex,
        controller: u32,
        input: LogicalInput,
    ) -> Option<OutputKey> {
        seq_lookup(self.entries(p), controller, input)
    }

    /// One player's table as a mathematical map from (controller, input)
    /// pairs to output keys.
    pub open spec fn player_map(self, p: PlayerIndex) -> Map<(u32, LogicalInput), OutputKey> {
        Map::new(
            |k: (u32, LogicalInput)| seq_lookup(self.entries(p), k.0, k.1) is Some,
            |k: (u32, LogicalInput)| seq_lookup(self.entries(p), k.0, k.1).unwrap(),
        )
    }

    /// Creates the table empty for both players.
    pub fn new() -> (r: BindingTable)
        ensures
            r.wf(),
            forall|p: PlayerIndex| r.entries(p) =~= Seq::<Binding>::empty(),
            forall|p: PlayerIndex, c: u32, i: LogicalInput| r.spec_lookup(p, c, i) is None,
            forall|p: PlayerIndex| r.player_map(p) =~= Map::<(u32, LogicalInput), OutputKey>::empty(),
    {
        let r = BindingTable { first: Vec::new(), second: Vec::new() };
        proof {
            assert forall|p: PlayerIndex| r.entries(p) =~= Seq::<Binding>::empty() by {
                match p {
                    PlayerIndex::First => assert(r.entries(p) =~= Seq::<Binding>::empty()),
                    PlayerIndex::Second => assert(r.entries(p) =~= Seq::<Binding>::empty()),
                }
            }
            assert forall|p: PlayerIndex| r.player_map(p) =~= Map::<
                (u32, LogicalInput),
                OutputKey,
            >::empty() by {
                assert(r.entries(p).len() == 0);
            }
        }
        r
    }

    /// Reads the binding of a (player, controller, input) triple; absence is
    /// a normal outcome meaning "no action".
    pub fn lookup(&self, p: PlayerIndex, controller: u32, input: LogicalInput) -> (r: Option<
        OutputKey,
    >)
        ensures
            r == self.spec_lookup(p, controller, input),
    {
        let v: &Vec<Binding> = match p {
            PlayerIndex::First => &self.first,
            PlayerIndex::Second => &self.second,
        };
        proof {
            assert(v@.take(v@.len() as int) =~= v@);
        }
        let mut i: usize = v.len();
        while i > 0
        invariant
            i <= v@.len(),
            v@ == self.entries(p),
            seq_lookup(self.entries(p), controller, input) == seq_lookup(
                v@.take(i as int),
                controller,
                input,
            ),
        decreases i,
        {
            i = i - 1;
            let candidate = v[i];
            proof {
                assert(v@.take(i + 1 as int).last() == v@[i as int]);
                assert(v@.take(i + 1 as int).drop_last() =~= v@.take(i as int));
            }
            if candidate.controller == controller && candidate.input == input {
                return Some(candidate.key);
            }
        }
        None
    }

    /// Inserts or overwrites the binding of a (player, controller, input)
    /// triple; always succeeds; the other player's table is untouched.
    pub fn bind(
        &mut self,
        player: PlayerIndex,
        controller: u32,
        input: LogicalInput,
        key: OutputKey,
    )
        requires
            old(self).wf(),
        ensures
            final(self).wf(),
            forall|c2: u32, i2: LogicalInput|
                final(self).spec_lookup(player, c2, i2) == (if c2 == controller && i2 == input {
                    Some(key)
                } else {
                    old(self).spec_lookup(player, c2, i2)
                }),
            final(self).player_map(player) == old(self).player_map(player).insert(
                (controller, input),
                key,
            ),
            forall|q: PlayerIndex| q != player ==> final(self).entries(q) == old(self).entries(q),
            forall|q: PlayerIndex|
                q != player ==> final(self).player_map(q) == old(self).player_map(q),
    {
        match player {
            PlayerIndex::First => upsert(&mut self.first, controller, input, key),
            PlayerIndex::Second => upsert(&mut self.second, controller, input, key),
        }
        proof {
            assert(self.player_map(player) =~= old(self).player_map(player).insert(
                (controller, input),
                key,
            ));
            assert forall|q: PlayerIndex| q != player implies self.player_map(q) == old(
                self,
            ).player_map(q) by {
                assert(self.player_map(q) =~= old(self).player_map(q));
            }
        }
    }

    /// Removes every binding of one player; the other player's table is
    /// untouched.
    pub fn clear(&mut self, player: PlayerIndex)
        requires
            old(self).wf(),
        ensures
            final(self).wf(),
            final(self).entries(player) =~= Seq::<Binding>::empty(),
            forall|c2: u32, i2: LogicalInput| final(self).spec_lookup(player, c2, i2) is None,
            final(self).player_map(player) == Map::<(u32, LogicalInput), OutputKey>::empty(),
            forall|q: PlayerIndex| q != player ==> final(self).entries(q) == old(self).entries(q),
            forall|q: PlayerIndex|
                q != player ==> final(self).player_map(q) == old(self).player_map(q),
    {
        match player {
            PlayerIndex::First => self.first = Vec::new(),
            PlayerIndex::Second => self.second = Vec::new(),
        }
        proof {
            assert(self.entries(player) =~= Seq::<Binding>::empty());
            assert(self.player_map(player) =~= Map::<(u32, LogicalInput), OutputKey>::empty());
            assert forall|q: PlayerIndex| q != player implies self.player_map(q) == old(
                self,
            ).player_map(q) by {
                assert(self.player_map(q) =~= old(self).player_map(q));
            }
        }
    }
}

} // verus!
