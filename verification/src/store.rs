//! Connection-store sequence semantics.
//!
//! The store file holds an ordered JSON array of records.  The shell
//! reads the file into a `Vec<StoredConnection>` (a missing or
//! unparsable file counts as an empty array), lets these functions
//! rewrite the sequence, and writes the whole result back.

use vstd::prelude::*;

use crate::model::StoredConnection;

verus! {

/// Lexicographic code-point order on text: the order in which the
/// records are listed, by their labels.  Total and transitive.
pub open spec fn lex_le(a: Seq<char>, b: Seq<char>) -> bool
    decreases a.len(),
{
    if a.len() == 0 {
        true
    } else if b.len() == 0 {
        false
    } else if a[0] != b[0] {
        a[0] < b[0]
    } else {
        lex_le(a.drop_first(), b.drop_first())
    }
}

/// Any two texts are ordered one way or the other.
pub proof fn lemma_lex_le_total(a: Seq<char>, b: Seq<char>)
    ensures
        lex_le(a, b) || lex_le(b, a),
    decreases a.len(),
{
    if a.len() == 0 {
    } else if b.len() == 0 {
    } else if a[0] != b[0] {
    } else {
        lemma_lex_le_total(a.drop_first(), b.drop_first());
    }
}

/// The order chains: a text at most `b` is also at most anything that
/// `b` is at most.
pub proof fn lemma_lex_le_trans(a: Seq<char>, b: Seq<char>, c: Seq<char>)
    requires
        lex_le(a, b),
        lex_le(b, c),
    ensures
        lex_le(a, c),
    decreases a.len(),
{
    if a.len() == 0 {
    } else if b.len() == 0 {
    } else if c.len() == 0 {
    } else if a[0] == b[0] && b[0] == c[0] {
        lemma_lex_le_trans(a.drop_first(), b.drop_first(), c.drop_first());
    }
}

/// Whether the labels' order holds pairwise among the first `len`
/// records.
pub open spec fn labels_ordered_to(s: Seq<StoredConnection>, len: int) -> bool {
    forall|p: int, q: int| 0 <= p < q < len ==> lex_le(s[p].label@, s[q].label@)
}

/// Whether the records are listed in label order throughout.
pub open spec fn labels_ordered(s: Seq<StoredConnection>) -> bool {
    labels_ordered_to(s, s.len() as int)
}

/// Compares two texts in lexicographic code-point order.
fn text_le(a: &String, b: &String) -> (r: bool)
    ensures
        r == lex_le(a@, b@),
{
    let an: usize = a.as_str().unicode_len();
    let bn: usize = b.as_str().unicode_len();
    let mut i: usize = 0;
    proof {
        assert(a@.skip(0) =~= a@);
        assert(b@.skip(0) =~= b@);
    }
    loop
        invariant
            an == a@.len(),
            bn == b@.len(),
            i <= an,
            i <= bn,
            lex_le(a@, b@) == lex_le(a@.skip(i as int), b@.skip(i as int)),
        decreases an - i,
    {
        if i == an {
            proof {
                assert(a@.skip(i as int) =~= Seq::<char>::empty());
            }
            return true;
        }
        if i == bn {
            proof {
                assert(b@.skip(i as int) =~= Seq::<char>::empty());
                assert(a@.skip(i as int).len() > 0);
            }
            return false;
        }
        let ca = a.as_str().get_char(i);
        let cb = b.as_str().get_char(i);
        proof {
            assert(a@.skip(i as int)[0] == a@[i as int]);
            assert(b@.skip(i as int)[0] == b@[i as int]);
        }
        if ca != cb {
            return ca < cb;
        }
        proof {
            assert(a@.skip(i as int).drop_first() =~= a@.skip(i + 1));
            assert(b@.skip(i as int).drop_first() =~= b@.skip(i + 1));
        }
        i = i + 1;
    }
}

/// Sorts the records by their labels, in lexicographic code-point
/// order, keeping exactly the same records.
pub fn sort_by_label(records: &mut Vec<StoredConnection>)
    ensures
        labels_ordered(final(records)@),
        final(records)@.to_multiset() == old(records)@.to_multiset(),
{
    if records.len() <= 1 {
        return ;
    }
    let n: usize = records.len();
    let mut i: usize = 1;
    while i < n
        invariant
            n == records@.len(),
            1 <= i <= n,
            labels_ordered_to(records@, i as int),
            records@.to_multiset() == old(records)@.to_multiset(),
        decreases n - i,
    {
        let ghost snap = records@;
        let ghost xl = snap[i as int].label@;
        let mut k: usize = i;
        loop
            invariant
                n == records@.len(),
                records@ == snap,
                i < n,
                k <= i,
                forall|m: int| k <= m < i ==> !lex_le(snap[m].label@, xl),
                xl == snap[i as int].label@,
            ensures
                records@ == snap,
                k <= i,
                k == 0 || lex_le(snap[k - 1].label@, xl),
                forall|m: int| k <= m < i ==> !lex_le(snap[m].label@, xl),
            decreases k,
        {
            if k == 0 {
                break ;
            }
            if text_le(&records[k - 1].label, &records[i].label) {
                break ;
            }
            k = k - 1;
        }
        let x = records.remove(i);
        records.insert(k, x);
        proof {
            broadcast use vstd::seq_lib::group_to_multiset_ensures;
            broadcast use vstd::multiset::group_multiset_axioms;

            let now = records@;
            assert(now == snap.remove(i as int).insert(k as int, x));
            assert forall|m: int| 0 <= m < k implies now[m] == snap[m] by {}
            assert(now[k as int] == x);
            assert forall|m: int| k < m <= i implies now[m] == snap[m - 1] by {}
            assert(x == snap[i as int]);

            assert(now.to_multiset() =~= snap.to_multiset()) by {
                assert(snap.remove(i as int).to_multiset() == snap.to_multiset().remove(
                    snap[i as int],
                ));
                assert(now.to_multiset() == snap.remove(i as int).to_multiset().insert(x));
                assert(snap.contains(snap[i as int]));
                assert(snap.to_multiset().count(snap[i as int]) > 0);
            }

            assert forall|p: int, q: int| 0 <= p < q < i + 1 implies lex_le(
                now[p].label@,
                now[q].label@,
            ) by {
                if q < k as int {
                    // both kept their places in the sorted prefix
                } else if p < k as int && q == k as int {
                    // everything before the slot is at most the moved record
                    assert(lex_le(snap[k - 1].label@, xl));
                    if p < k - 1 {
                        lemma_lex_le_trans(snap[p].label@, snap[k - 1].label@, xl);
                    }
                } else if p == k as int && q > k as int {
                    // the moved record is at most everything it passed
                    assert(!lex_le(snap[q - 1].label@, xl));
                    lemma_lex_le_total(snap[q - 1].label@, xl);
                } else if p < k as int && q > k as int {
                    // an already ordered pair of the old prefix
                } else {
                    // p > k: both moved up by one, an old ordered pair
                }
            }
            assert(labels_ordered_to(now, i + 1));
        }
        i = i + 1;
    }
}

/// Whether some record in the sequence has the given host.
pub open spec fn has_host(records: Seq<StoredConnection>, key: Seq<char>) -> bool {
    exists|j: int| 0 <= j < records.len() && records[j].host@ == key
}

/// Pushes the record onto the end of the sequence.
pub fn append_connection(records: &mut Vec<StoredConnection>, record: StoredConnection)
    ensures
        final(records)@ == old(records)@.push(record),
{
    records.push(record);
}

/// Replaces the first record whose host equals `key` with `record`,
/// keeping its position; appends `record` when no host matches.
pub fn update_or_append(records: &mut Vec<StoredConnection>, record: StoredConnection, key: &String)
    ensures
        has_host(old(records)@, key@) ==> exists|j: int|
            0 <= j < old(records)@.len() && old(records)@[j].host@ == key@
                && (forall|k: int| 0 <= k < j ==> old(records)@[k].host@ != key@)
                && final(records)@ == old(records)@.update(j, record),
        !has_host(old(records)@, key@) ==> final(records)@ == old(records)@.push(record),
{
    let n: usize = records.len();
    let mut i: usize = 0;
    while i < n
        invariant
            n == records.len(),
            i <= n,
            *records == *old(records),
            forall|k: int| 0 <= k < i ==> records@[k].host@ != key@,
        decreases n - i,
    {
        if records[i].host == *key {
            records.set(i, record);
            return ;
        }
        i = i + 1;
    }
    records.push(record);
}

/// Removes the record at `index`; the records before it keep their
/// places and the ones after it move down by one.
pub fn delete_connection_at(records: &mut Vec<StoredConnection>, index: usize)
    requires
        index < old(records).len(),
    ensures
        final(records)@ == old(records)@.remove(index as int),
        final(records)@ == old(records)@.subrange(0, index as int) + old(records)@.subrange(
            index + 1,
            old(records)@.len() as int,
        ),
{
    records.remove(index);
    proof {
        assert(old(records)@.remove(index as int) =~= old(records)@.subrange(0, index as int)
            + old(records)@.subrange(index + 1, old(records)@.len() as int));
    }
}

} // verus!
