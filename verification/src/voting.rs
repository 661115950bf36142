use vstd::prelude::*;

use crate::structures::{DBPost, RecordKey, RecordRef, distinct_records, record_keys, record_set};

verus! {

broadcast use vstd::seq_lib::group_seq_properties, vstd::set::group_set_axioms;

/// The voter sets after `v` votes a post up: an up-voter takes the vote
/// back, a down-voter turns into an up-voter, anyone else becomes an up-voter.
pub open spec fn up_vote_sets(up: Set<RecordKey>, dw: Set<RecordKey>, v: RecordKey) -> (Set<RecordKey>, Set<RecordKey>) {
    if up.contains(v) {
        (up.remove(v), dw)
    } else if dw.contains(v) {
        (up.insert(v), dw.remove(v))
    } else {
        (up.insert(v), dw)
    }
}

/// The voter sets after `v` votes a post down: an up-voter turns into a
/// down-voter, a down-voter takes the vote back, anyone else becomes a down-voter.
pub open spec fn dw_vote_sets(up: Set<RecordKey>, dw: Set<RecordKey>, v: RecordKey) -> (Set<RecordKey>, Set<RecordKey>) {
    if up.contains(v) {
        (up.remove(v), dw.insert(v))
    } else if dw.contains(v) {
        (up, dw.remove(v))
    } else {
        (up, dw.insert(v))
    }
}

/// The score of a post whose voter sets are `up` and `dw`.
pub open spec fn score(up: Set<RecordKey>, dw: Set<RecordKey>) -> int {
    up.len() - dw.len()
}

/// Voting a post up twice in a row, by a record that had not voted it down,
/// leaves both voter sets as they were.
pub proof fn lemma_up_vote_twice_restores(up: Set<RecordKey>, dw: Set<RecordKey>, v: RecordKey)
    requires
        !dw.contains(v),
    ensures
        up_vote_sets(up_vote_sets(up, dw, v).0, up_vote_sets(up, dw, v).1, v) == (up, dw),
{
    let once = up_vote_sets(up, dw, v);
    let twice = up_vote_sets(once.0, once.1, v);
    assert(twice.0 =~= up);
    assert(twice.1 =~= dw);
}

/// Voting a post down twice in a row, by a record that had not voted it up,
/// leaves both voter sets as they were.
pub proof fn lemma_dw_vote_twice_restores(up: Set<RecordKey>, dw: Set<RecordKey>, v: RecordKey)
    requires
        !up.contains(v),
    ensures
        dw_vote_sets(dw_vote_sets(up, dw, v).0, dw_vote_sets(up, dw, v).1, v) == (up, dw),
{
    let once = dw_vote_sets(up, dw, v);
    let twice = dw_vote_sets(once.0, once.1, v);
    assert(twice.0 =~= up);
    assert(twice.1 =~= dw);
}

/// When no record votes both ways, a down-vote is an up-vote with the roles
/// of the two sets exchanged.
pub proof fn lemma_dw_vote_mirrors_up_vote(up: Set<RecordKey>, dw: Set<RecordKey>, v: RecordKey)
    requires
        up.disjoint(dw),
    ensures
        dw_vote_sets(up, dw, v) == (up_vote_sets(dw, up, v).1, up_vote_sets(dw, up, v).0),
{
}

/// When no record votes both ways: after an up-vote the voter is no down-voter, and it is an up-voter exactly
/// when it was not one before; every other record keeps its vote.
pub proof fn lemma_up_vote_outcome(up: Set<RecordKey>, dw: Set<RecordKey>, v: RecordKey, w: RecordKey)
    requires
        up.disjoint(dw),
    ensures
        !up_vote_sets(up, dw, v).1.contains(v),
        up_vote_sets(up, dw, v).0.contains(v) == !up.contains(v),
        w != v ==> up_vote_sets(up, dw, v).0.contains(w) == up.contains(w),
        w != v ==> up_vote_sets(up, dw, v).1.contains(w) == dw.contains(w),
{
}

/// When no record votes both ways: after a down-vote the voter is no up-voter, and it is a down-voter exactly
/// when it was not one before; every other record keeps its vote.
pub proof fn lemma_dw_vote_outcome(up: Set<RecordKey>, dw: Set<RecordKey>, v: RecordKey, w: RecordKey)
    requires
        up.disjoint(dw),
    ensures
        !dw_vote_sets(up, dw, v).0.contains(v),
        dw_vote_sets(up, dw, v).1.contains(v) == !dw.contains(v),
        w != v ==> dw_vote_sets(up, dw, v).0.contains(w) == up.contains(w),
        w != v ==> dw_vote_sets(up, dw, v).1.contains(w) == dw.contains(w),
{
}

/// Votes never let a record vote both ways.
pub proof fn lemma_votes_keep_disjoint(up: Set<RecordKey>, dw: Set<RecordKey>, v: RecordKey)
    requires
        up.disjoint(dw),
    ensures
        up_vote_sets(up, dw, v).0.disjoint(up_vote_sets(up, dw, v).1),
        dw_vote_sets(up, dw, v).0.disjoint(dw_vote_sets(up, dw, v).1),
{
}

/// An up-vote moves the score by one down when it is taken back, by two up
/// when it replaces a down-vote, and by one up otherwise.
pub proof fn lemma_up_vote_score(up: Set<RecordKey>, dw: Set<RecordKey>, v: RecordKey)
    requires
        up.finite(),
        dw.finite(),
        up.disjoint(dw),
    ensures
        score(up_vote_sets(up, dw, v).0, up_vote_sets(up, dw, v).1) == score(up, dw) + if up.contains(v) {
            -1int
        } else if dw.contains(v) {
            2int
        } else {
            1int
        },
{
}

/// A down-vote moves the score by one up when it is taken back, by two down
/// when it replaces an up-vote, and by one down otherwise.
pub proof fn lemma_dw_vote_score(up: Set<RecordKey>, dw: Set<RecordKey>, v: RecordKey)
    requires
        up.finite(),
        dw.finite(),
        up.disjoint(dw),
    ensures
        score(dw_vote_sets(up, dw, v).0, dw_vote_sets(up, dw, v).1) == score(up, dw) + if up.contains(v) {
            -2int
        } else if dw.contains(v) {
            1int
        } else {
            -1int
        },
{
}

/// A sequence of distinct references names as many records as it holds.
pub proof fn lemma_distinct_records_len(s: Seq<RecordRef>)
    requires
        distinct_records(s),
    ensures
        record_set(s).len() == s.len(),
        record_set(s).finite(),
{
    record_keys(s).unique_seq_to_set();
}

/// A record is in the set exactly when some reference of the sequence names it.
proof fn lemma_record_set_contains(s: Seq<RecordRef>, k: RecordKey)
    ensures
        record_set(s).contains(k) <==> exists|i: int| 0 <= i < s.len() && (#[trigger] s[i])@ == k,
{
    if record_set(s).contains(k) {
        let i = choose|i: int| 0 <= i < record_keys(s).len() && record_keys(s)[i] == k;
        assert(s[i]@ == k);
    }
    if exists|i: int| 0 <= i < s.len() && (#[trigger] s[i])@ == k {
        let i = choose|i: int| 0 <= i < s.len() && (#[trigger] s[i])@ == k;
        assert(record_keys(s)[i] == k);
    }
}

/// Taking one reference out of a sequence of distinct references takes its record out of the set.
proof fn lemma_remove_record(s: Seq<RecordRef>, i: int)
    requires
        distinct_records(s),
        0 <= i < s.len(),
    ensures
        record_set(s.remove(i)) == record_set(s).remove(s[i]@),
        distinct_records(s.remove(i)),
{
    let ks = record_keys(s);
    let rs = ks.remove(i);
    ks.remove_ensures(i);
    assert(record_keys(s.remove(i)) =~= rs);
    assert(ks[i] == s[i]@);
    assert forall|k: RecordKey| rs.contains(k) implies ks.contains(k) && k != ks[i] by {
        let j = choose|j: int| 0 <= j < rs.len() && rs[j] == k;
        if j < i {
            assert(ks[j] == k);
        } else {
            assert(ks[j + 1] == k);
        }
    }
    assert forall|k: RecordKey| ks.contains(k) && k != ks[i] implies rs.contains(k) by {
        let j = choose|j: int| 0 <= j < ks.len() && ks[j] == k;
        assert(j != i);
        if j < i {
            assert(rs[j] == k);
        } else {
            assert(rs[j - 1] == k);
        }
    }
    assert(record_set(s.remove(i)) =~= record_set(s).remove(s[i]@));
}

/// Adding a reference to a record not yet named adds that record to the set.
proof fn lemma_push_record(s: Seq<RecordRef>, r: RecordRef)
    requires
        distinct_records(s),
        !record_set(s).contains(r@),
    ensures
        record_set(s.push(r)) == record_set(s).insert(r@),
        distinct_records(s.push(r)),
{
    let ks = record_keys(s);
    assert(record_keys(s.push(r)) =~= ks.push(r@));
    ks.lemma_push_to_set_commute(r@);
    assert forall|i: int, j: int|
        0 <= i < ks.push(r@).len() && 0 <= j < ks.push(r@).len() && i != j
        implies ks.push(r@)[i] != ks.push(r@)[j] by {
        if i == ks.len() {
            assert(ks.contains(ks[j]));
        } else if j == ks.len() {
            assert(ks.contains(ks[i]));
        }
    }
}

/// The position of a reference to `voter`'s record in `voters`, if there is one.
fn find_record(voters: &Vec<RecordRef>, voter: &RecordRef) -> (r: Option<usize>)
    ensures
        match r {
            Some(i) => i < voters@.len() && voters@[i as int]@ == voter@ && record_set(voters@).contains(voter@),
            None => !record_set(voters@).contains(voter@),
        },
{
    let mut i: usize = 0;
    while i < voters.len()
        invariant
            i <= voters@.len(),
            forall|j: int| 0 <= j < i ==> (#[trigger] voters@[j])@ != voter@,
        decreases voters@.len() - i,
    {
        if voters[i].same_record(voter) {
            proof {
                lemma_record_set_contains(voters@, voter@);
            }
            return Some(i);
        }
        i = i + 1;
    }
    proof {
        lemma_record_set_contains(voters@, voter@);
    }
    None
}

/// Takes the reference at `i` out of a list of distinct references.
fn remove_record(voters: &mut Vec<RecordRef>, i: usize)
    requires
        distinct_records(old(voters)@),
        i < old(voters)@.len(),
    ensures
        record_set(final(voters)@) == record_set(old(voters)@).remove(old(voters)@[i as int]@),
        distinct_records(final(voters)@),
        final(voters)@.len() == old(voters)@.len() - 1,
{
    proof {
        lemma_remove_record(voters@, i as int);
    }
    voters.remove(i);
}

/// Adds a reference to `r`'s record to a list of distinct references,
/// unless the list names that record already.
fn add_record(voters: &mut Vec<RecordRef>, r: RecordRef)
    requires
        distinct_records(old(voters)@),
        old(voters)@.len() < usize::MAX,
    ensures
        record_set(final(voters)@) == record_set(old(voters)@).insert(r@),
        distinct_records(final(voters)@),
        final(voters)@.len() == old(voters)@.len() + if record_set(old(voters)@).contains(r@) { 0int } else { 1int },
{
    match find_record(voters, &r) {
        Some(i) => {
            assert(record_set(voters@).insert(r@) =~= record_set(voters@));
        },
        None => {
            proof {
                lemma_push_record(voters@, r);
            }
            voters.push(r);
        },
    }
}

/// The records that `refs` names, each named once.
pub fn collect_voters(refs: &Vec<RecordRef>) -> (voters: Vec<RecordRef>)
    ensures
        record_set(voters@) == record_set(refs@),
        distinct_records(voters@),
        voters@.len() <= refs@.len(),
{
    let mut voters: Vec<RecordRef> = Vec::new();
    let mut i: usize = 0;
    proof {
        assert(record_keys(voters@) =~= Seq::<RecordKey>::empty());
        assert(record_set(voters@) =~= record_set(refs@.take(0)));
    }
    while i < refs.len()
        invariant
            i <= refs@.len(),
            voters@.len() <= i,
            distinct_records(voters@),
            record_set(voters@) == record_set(refs@.take(i as int)),
        decreases refs@.len() - i,
    {
        proof {
            assert(record_keys(refs@.take(i + 1)) =~= record_keys(refs@.take(i as int)).push(refs@[i as int]@));
            record_keys(refs@.take(i as int)).lemma_push_to_set_commute(refs@[i as int]@);
        }
        add_record(&mut voters, refs[i].clone());
        i = i + 1;
    }
    proof {
        assert(refs@.take(refs@.len() as int) =~= refs@);
    }
    voters
}

impl DBPost {
    /// `voter` votes the post up (see `up_vote_sets`); the score is then
    /// recounted from the voter lists.
    pub fn up_vote(&mut self, voter: RecordRef)
        requires
            distinct_records(old(self).up_voters@),
            distinct_records(old(self).dw_voters@),
            old(self).up_voters@.len() < isize::MAX,
            old(self).dw_voters@.len() < isize::MAX,
        ensures
            final(self).up_set() == up_vote_sets(old(self).up_set(), old(self).dw_set(), voter@).0,
            final(self).dw_set() == up_vote_sets(old(self).up_set(), old(self).dw_set(), voter@).1,
            distinct_records(final(self).up_voters@),
            distinct_records(final(self).dw_voters@),
            final(self).votes == final(self).up_voters@.len() - final(self).dw_voters@.len(),
            final(self).post_id == old(self).post_id,
            final(self).post == old(self).post,
            old(self).well_formed() ==> final(self).well_formed(),
    {
        match find_record(&self.up_voters, &voter) {
            Some(i) => {
                remove_record(&mut self.up_voters, i);
            },
            None => {
                match find_record(&self.dw_voters, &voter) {
                    Some(j) => {
                        add_record(&mut self.up_voters, voter);
                        remove_record(&mut self.dw_voters, j);
                    },
                    None => {
                        add_record(&mut self.up_voters, voter);
                    },
                }
            },
        }
        self.votes = self.up_voters.len() as isize - self.dw_voters.len() as isize;
        proof {
            lemma_distinct_records_len(self.up_voters@);
            lemma_distinct_records_len(self.dw_voters@);
        }
    }

    /// `voter` votes the post down (see `dw_vote_sets`); the score is then
    /// recounted from the voter lists.
    pub fn dw_vote(&mut self, voter: RecordRef)
        requires
            distinct_records(old(self).up_voters@),
            distinct_records(old(self).dw_voters@),
            old(self).up_voters@.len() < isize::MAX,
            old(self).dw_voters@.len() < isize::MAX,
        ensures
            final(self).up_set() == dw_vote_sets(old(self).up_set(), old(self).dw_set(), voter@).0,
            final(self).dw_set() == dw_vote_sets(old(self).up_set(), old(self).dw_set(), voter@).1,
            distinct_records(final(self).up_voters@),
            distinct_records(final(self).dw_voters@),
            final(self).votes == final(self).up_voters@.len() - final(self).dw_voters@.len(),
            final(self).post_id == old(self).post_id,
            final(self).post == old(self).post,
            old(self).well_formed() ==> final(self).well_formed(),
    {
        match find_record(&self.up_voters, &voter) {
            Some(i) => {
                add_record(&mut self.dw_voters, voter);
                remove_record(&mut self.up_voters, i);
            },
            None => {
                match find_record(&self.dw_voters, &voter) {
                    Some(j) => {
                        remove_record(&mut self.dw_voters, j);
                    },
                    None => {
                        add_record(&mut self.dw_voters, voter);
                    },
                }
            },
        }
        self.votes = self.up_voters.len() as isize - self.dw_voters.len() as isize;
        proof {
            lemma_distinct_records_len(self.up_voters@);
            lemma_distinct_records_len(self.dw_voters@);
        }
    }
}

} // verus!
