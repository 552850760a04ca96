//! Where the manager keeps its state and its checkpoints on disk, and how
//! checkpoints are listed: those of one agent, newest first.

use vstd::prelude::*;
use crate::models::CheckpointMeta;
use crate::paths::{join_path, path_join};
use crate::text::str_eq;

verus! {

/// The files of the state kept below one data directory: `state.json`, and
/// one directory per checkpoint below `checkpoints`.
pub struct StateManager {
    data_dir: String,
}

/// Whether `a` comes before `b` in the order of their characters, which is
/// the order of `String`s.
pub open spec fn chars_lt(a: Seq<char>, b: Seq<char>) -> bool
    decreases a.len(),
{
    if a.len() == 0 {
        b.len() > 0
    } else if b.len() == 0 {
        false
    } else if a[0] != b[0] {
        a[0] < b[0]
    } else {
        chars_lt(a.skip(1), b.skip(1))
    }
}

/// Whether `a` comes before `b` in the order of strings.
pub fn str_lt(a: &str, b: &str) -> (r: bool)
    ensures
        r == chars_lt(a@, b@),
{
    let av = crate::text::chars_of(a);
    let bv = crate::text::chars_of(b);
    let mut i: usize = 0;
    assert(a@.skip(0) =~= a@);
    assert(b@.skip(0) =~= b@);
    while i < av.len() && i < bv.len()
        invariant
            i <= av@.len(),
            i <= bv@.len(),
            av@ == a@,
            bv@ == b@,
            chars_lt(a@, b@) == chars_lt(a@.skip(i as int), b@.skip(i as int)),
        decreases av@.len() - i,
    {
        if av[i] != bv[i] {
            return av[i] < bv[i];
        }
        assert(a@.skip(i as int).skip(1) =~= a@.skip(i + 1));
        assert(b@.skip(i as int).skip(1) =~= b@.skip(i + 1));
        i = i + 1;
    }
    i < bv.len()
}

/// Checkpoint `m` goes into `s`, which is newest first, after every one not
/// older than it.
pub open spec fn insert_newest_first(s: Seq<CheckpointMeta>, m: CheckpointMeta) -> Seq<CheckpointMeta>
    decreases s.len(),
{
    if s.len() == 0 {
        seq![m]
    } else if chars_lt(s[0].created_at@, m.created_at@) {
        seq![m] + s
    } else {
        seq![s[0]] + insert_newest_first(s.skip(1), m)
    }
}

/// `s` ordered newest first by creation time; checkpoints created at the same
/// time keep their order.
pub open spec fn newest_first(s: Seq<CheckpointMeta>) -> Seq<CheckpointMeta>
    decreases s.len(),
{
    if s.len() == 0 {
        s
    } else {
        insert_newest_first(newest_first(s.drop_last()), s.last())
    }
}

/// The checkpoints of `s` that belong to agent `agent`, or all where `agent`
/// is `None`, in their order.
pub open spec fn of_agent(s: Seq<CheckpointMeta>, agent: Option<Seq<char>>) -> Seq<CheckpointMeta> {
    match agent {
        Some(a) => agent_checkpoints(s, a),
        None => s,
    }
}

/// The checkpoints of `s` that belong to agent `a`, in their order.
pub open spec fn agent_checkpoints(s: Seq<CheckpointMeta>, a: Seq<char>) -> Seq<CheckpointMeta> {
    s.filter(|m: CheckpointMeta| m.agent_name@ == a)
}

/// Whether `s` is ordered newest first.
pub open spec fn is_newest_first(s: Seq<CheckpointMeta>) -> bool {
    forall|i: int, j: int| 0 <= i < j < s.len() ==> !chars_lt(#[trigger] s[i].created_at@, #[trigger] s[j].created_at@)
}

proof fn lemma_chars_lt_total(a: Seq<char>, b: Seq<char>)
    ensures
        !chars_lt(a, b) && !chars_lt(b, a) ==> a == b,
    decreases a.len(),
{
    if a.len() > 0 && b.len() > 0 && a[0] == b[0] {
        lemma_chars_lt_total(a.skip(1), b.skip(1));
        if !chars_lt(a, b) && !chars_lt(b, a) {
            assert(a =~= seq![a[0]] + a.skip(1));
            assert(b =~= seq![b[0]] + b.skip(1));
        }
    }
}

proof fn lemma_chars_lt_trans(a: Seq<char>, b: Seq<char>, c: Seq<char>)
    ensures
        !chars_lt(a, b) && !chars_lt(b, c) ==> !chars_lt(a, c),
    decreases a.len(),
{
    if a.len() > 0 && b.len() > 0 && c.len() > 0 && a[0] == b[0] && b[0] == c[0] {
        lemma_chars_lt_trans(a.skip(1), b.skip(1), c.skip(1));
    }
}

proof fn lemma_chars_lt_asym(a: Seq<char>, b: Seq<char>)
    ensures
        chars_lt(a, b) ==> !chars_lt(b, a),
    decreases a.len(),
{
    if a.len() > 0 && b.len() > 0 && a[0] == b[0] {
        lemma_chars_lt_asym(a.skip(1), b.skip(1));
    }
}

proof fn lemma_insert_newest_first(s: Seq<CheckpointMeta>, m: CheckpointMeta)
    requires
        is_newest_first(s),
    ensures
        is_newest_first(insert_newest_first(s, m)),
        insert_newest_first(s, m).to_multiset() == s.to_multiset().insert(m),
        insert_newest_first(s, m).len() == s.len() + 1,
    decreases s.len(),
{
    broadcast use vstd::seq_lib::group_to_multiset_ensures;
    if s.len() == 0 {
        assert(seq![m] =~= Seq::<CheckpointMeta>::empty().push(m));
    } else if chars_lt(s[0].created_at@, m.created_at@) {
        let r = seq![m] + s;
        assert forall|i: int, j: int| 0 <= i < j < r.len() implies !chars_lt(
            #[trigger] r[i].created_at@,
            #[trigger] r[j].created_at@,
        ) by {
            if i == 0 {
                lemma_chars_lt_asym(s[0].created_at@, m.created_at@);
                if j > 1 {
                    assert(r[j] == s[j - 1]);
                    assert(!chars_lt(s[0].created_at@, s[j - 1].created_at@));
                    lemma_chars_lt_trans(m.created_at@, s[0].created_at@, s[j - 1].created_at@);
                    lemma_chars_lt_total(s[0].created_at@, m.created_at@);
                }
            } else {
                assert(r[i] == s[i - 1] && r[j] == s[j - 1]);
            }
        }
        vstd::seq_lib::lemma_multiset_commutative(seq![m], s);
        assert(seq![m] =~= Seq::<CheckpointMeta>::empty().push(m));
    } else {
        let t = s.skip(1);
        assert(is_newest_first(t)) by {
            assert forall|i: int, j: int| 0 <= i < j < t.len() implies !chars_lt(
                #[trigger] t[i].created_at@,
                #[trigger] t[j].created_at@,
            ) by {
                assert(t[i] == s[i + 1] && t[j] == s[j + 1]);
            }
        }
        lemma_insert_newest_first(t, m);
        let rest = insert_newest_first(t, m);
        let r = seq![s[0]] + rest;
        assert forall|i: int, j: int| 0 <= i < j < r.len() implies !chars_lt(
            #[trigger] r[i].created_at@,
            #[trigger] r[j].created_at@,
        ) by {
            if i == 0 {
                assert(r[j] == rest[j - 1]);
                assert(rest.to_multiset().count(rest[j - 1]) > 0);
                assert(t.to_multiset().insert(m).count(rest[j - 1]) > 0);
                if rest[j - 1] != m {
                    assert(t.to_multiset().count(rest[j - 1]) > 0);
                    let k = choose|k: int| 0 <= k < t.len() && t[k] == rest[j - 1];
                    assert(t.contains(rest[j - 1]));
                    assert(s[k + 1] == t[k]);
                }
            } else {
                assert(r[i] == rest[i - 1] && r[j] == rest[j - 1]);
            }
        }
        assert(s =~= seq![s[0]] + t);
        vstd::seq_lib::lemma_multiset_commutative(seq![s[0]], t);
        vstd::seq_lib::lemma_multiset_commutative(seq![s[0]], rest);
    }
}

/// Checkpoints listed newest first are ordered by creation time, newest
/// first, and each checkpoint is listed as often as it was found.
pub proof fn law_checkpoints_newest_first(s: Seq<CheckpointMeta>)
    ensures
        is_newest_first(newest_first(s)),
        newest_first(s).to_multiset() == s.to_multiset(),
        newest_first(s).len() == s.len(),
    decreases s.len(),
{
    broadcast use vstd::seq_lib::group_to_multiset_ensures;
    if s.len() > 0 {
        law_checkpoints_newest_first(s.drop_last());
        lemma_insert_newest_first(newest_first(s.drop_last()), s.last());
        assert(s =~= s.drop_last().push(s.last()));
    }
}

#[verifier::loop_isolation(false)]
fn insert_newest_first_exec(v: Vec<CheckpointMeta>, m: CheckpointMeta) -> (r: Vec<CheckpointMeta>)
    ensures
        r@ == insert_newest_first(v@, m),
{
    let ghost orig = v@;
    let n = v.len();
    let mut v = v;
    let mut front: Vec<CheckpointMeta> = Vec::new();
    let mut k: usize = 0;
    assert(orig.take(0) =~= Seq::<CheckpointMeta>::empty());
    assert(orig.skip(0) =~= orig);
    loop
        invariant
            k <= orig.len(),
            orig.len() == n,
            front@ == orig.take(k as int),
            v@ == orig.skip(k as int),
            insert_newest_first(orig, m) == front@ + insert_newest_first(orig.skip(k as int), m),
        decreases orig.len() - k,
    {
        if v.len() == 0 {
            let ghost f0 = front@;
            front.push(m);
            proof {
                assert(insert_newest_first(orig.skip(k as int), m) == seq![m]);
                assert(front@ =~= f0 + seq![m]);
            }
            return front;
        }
        if str_lt(v[0].created_at.as_str(), m.created_at.as_str()) {
            let ghost f0 = front@;
            let ghost t = v@;
            let mut r = front;
            r.push(m);
            r.append(&mut v);
            proof {
                assert(insert_newest_first(t, m) == seq![m] + t);
                assert(r@ =~= f0 + (seq![m] + t));
            }
            return r;
        }
        let ghost f0 = front@;
        let x = v.remove(0);
        proof {
            let t = orig.skip(k as int);
            assert(t[0] == x);
            assert(t.skip(1) =~= orig.skip(k + 1));
            assert(orig.take(k as int).push(x) =~= orig.take(k + 1));
            assert(insert_newest_first(t, m) == seq![x] + insert_newest_first(t.skip(1), m));
            assert(f0.push(x) + insert_newest_first(t.skip(1), m) =~= f0 + (seq![x] + insert_newest_first(t.skip(1), m)));
        }
        front.push(x);
        k = k + 1;
    }
}

/// Orders checkpoints newest first by creation time; checkpoints created at
/// the same time keep their order.
pub fn sort_newest_first(v: Vec<CheckpointMeta>) -> (r: Vec<CheckpointMeta>)
    ensures
        r@ == newest_first(v@),
{
    let ghost orig = v@;
    let mut v = v;
    let mut sorted: Vec<CheckpointMeta> = Vec::new();
    let ghost mut k: int = 0;
    assert(orig.take(0) =~= Seq::<CheckpointMeta>::empty());
    assert(orig.skip(0) =~= orig);
    while v.len() > 0
        invariant
            0 <= k <= orig.len(),
            v@ == orig.skip(k),
            sorted@ == newest_first(orig.take(k)),
        decreases v@.len(),
    {
        let m = v.remove(0);
        proof {
            assert(orig.skip(k)[0] == m);
            assert(orig.take(k + 1).drop_last() =~= orig.take(k));
            assert(orig.take(k + 1).last() == m);
            assert(orig.skip(k).skip(1) =~= orig.skip(k + 1));
            k = k + 1;
        }
        sorted = insert_newest_first_exec(sorted, m);
    }
    assert(orig.take(orig.len() as int) =~= orig);
    sorted
}

impl StateManager {
    /// The state below `data_dir`.
    pub fn new(data_dir: &str) -> (m: StateManager)
        ensures
            m.data_dir() == data_dir@,
    {
        StateManager { data_dir: data_dir.to_owned() }
    }

    /// The data directory.
    pub closed spec fn data_dir(&self) -> Seq<char> {
        self.data_dir@
    }

    /// The file the state is kept in: `state.json` in the data directory.
    pub fn path(&self) -> (p: String)
        ensures
            p@ == path_join(self.data_dir(), "state.json"@),
    {
        join_path(self.data_dir.as_str(), "state.json")
    }

    /// The directory of all checkpoints: `checkpoints` in the data directory.
    pub fn checkpoints_dir(&self) -> (p: String)
        ensures
            p@ == path_join(self.data_dir(), "checkpoints"@),
    {
        join_path(self.data_dir.as_str(), "checkpoints")
    }

    /// The directory of checkpoint `checkpoint_id`.
    pub fn checkpoint_dir(&self, checkpoint_id: &str) -> (p: String)
        ensures
            p@ == path_join(path_join(self.data_dir(), "checkpoints"@), checkpoint_id@),
    {
        let d = self.checkpoints_dir();
        join_path(d.as_str(), checkpoint_id)
    }

    /// The checkpoints of agent `agent_name`, or all where it is `None`, newest
    /// first, out of those found on disk in the order found.
    pub fn select_checkpoints(found: Vec<CheckpointMeta>, agent_name: Option<&str>) -> (r: Vec<CheckpointMeta>)
        ensures
            r@ == newest_first(of_agent(found@, match agent_name {
                Some(a) => Some(a@),
                None => None,
            })),
    {
        let kept = match agent_name {
            None => found,
            Some(a) => keep_agent(found, a),
        };
        sort_newest_first(kept)
    }
}

/// The checkpoints of `v` that belong to agent `a`, in their order.
fn keep_agent(v: Vec<CheckpointMeta>, a: &str) -> (r: Vec<CheckpointMeta>)
    ensures
        r@ == agent_checkpoints(v@, a@),
{
    let ghost orig = v@;
    let ghost f = |m: CheckpointMeta| m.agent_name@ == a@;
    let mut v = v;
    let mut r: Vec<CheckpointMeta> = Vec::new();
    let ghost mut k: int = 0;
    assert(orig.take(0).filter(f) =~= Seq::<CheckpointMeta>::empty()) by {
        reveal(Seq::filter);
    }
    assert(orig.skip(0) =~= orig);
    while v.len() > 0
        invariant
            0 <= k <= orig.len(),
            v@ == orig.skip(k),
            r@ == orig.take(k).filter(f),
            f == (|m: CheckpointMeta| m.agent_name@ == a@),
        decreases v@.len(),
    {
        let m = v.remove(0);
        proof {
            assert(orig.skip(k)[0] == m);
            assert(orig.take(k + 1).drop_last() =~= orig.take(k));
            assert(orig.take(k + 1).last() == m);
            assert(orig.skip(k).skip(1) =~= orig.skip(k + 1));
            reveal(Seq::filter);
            k = k + 1;
        }
        if str_eq(m.agent_name.as_str(), a) {
            r.push(m);
        }
    }
    assert(orig.take(orig.len() as int) =~= orig);
    assert(agent_checkpoints(orig, a@) == orig.filter(f));
    r
}

} // verus!
