//! Fan-out aggregator and thread collapser. Concurrent per-message fetches
//! finish in no particular order; the host collects them in upstream list
//! order, failed fetches are dropped item by item, and the survivors either
//! keep that order or are collapsed to one representative per conversation
//! — the member with the lexicographically greatest date string, annotated
//! with the group size — and sorted by date descending.
use vstd::prelude::*;

verus! {

use vstd::multiset::Multiset;
use vstd::seq_lib::{to_multiset_remove, to_multiset_insert};
use crate::model::{CleanMessage, CleanMessageView, MessageSummary, MessageSummaryView};
use crate::strutil::{lex_le, lemma_lex_le_total, lemma_lex_le_trans, str_le, str_eq};

/// The surviving results of a fan-out, in fetch order.
pub open spec fn successes_of(rs: Seq<Option<MessageSummaryView>>) -> Seq<MessageSummaryView>
    decreases rs.len(),
{
    if rs.len() == 0 {
        Seq::empty()
    } else {
        let prev = successes_of(rs.drop_last());
        match rs.last() {
            Some(m) => prev.push(m),
            None => prev,
        }
    }
}

/// Keeps the fetches that succeeded, in the order they were issued: a
/// failed individual fetch is dropped from the result set rather than
/// failing the whole list call.
pub fn keep_successes(rs: &Vec<Option<MessageSummary>>) -> (r: Vec<MessageSummary>)
    ensures
        r.deep_view() == successes_of(rs.deep_view()),
{
    let ghost rv = rs.deep_view();
    let mut out: Vec<MessageSummary> = Vec::new();
    let mut i: usize = 0;
    proof {
        assert(out.deep_view() =~= successes_of(rv.take(0)));
    }
    while i < rs.len()
        invariant
            i <= rs.len(),
            rv == rs.deep_view(),
            rv.len() == rs.len(),
            out.deep_view() == successes_of(rv.take(i as int)),
        decreases rs.len() - i,
    {
        proof {
            assert(rv.take(i + 1).drop_last() =~= rv.take(i as int));
            assert(rv.take(i + 1).last() == rv[i as int]);
        }
        match &rs[i] {
            Some(m) => {
                let ghost prev = out.deep_view();
                out.push(m.duplicate());
                proof {
                    assert(out.deep_view() =~= prev.push(m@));
                }
            },
            None => (),
        }
        i += 1;
    }
    proof {
        assert(rv.take(rs.len() as int) =~= rv);
    }
    out
}

/// The order on optional date strings: an absent date sorts below every
/// date, and dates compare as opaque strings, character by character.
pub open spec fn date_le(a: Option<Seq<char>>, b: Option<Seq<char>>) -> bool {
    match (a, b) {
        (Option::None, _) => true,
        (Option::Some(_), Option::None) => false,
        (Option::Some(x), Option::Some(y)) => lex_le(x, y),
    }
}

/// The date order is total.
pub proof fn lemma_date_le_total(a: Option<Seq<char>>, b: Option<Seq<char>>)
    ensures
        date_le(a, b) || date_le(b, a),
{
    match (a, b) {
        (Option::Some(x), Option::Some(y)) => lemma_lex_le_total(x, y),
        _ => (),
    }
}

/// The date order is transitive.
pub proof fn lemma_date_le_trans(a: Option<Seq<char>>, b: Option<Seq<char>>, c: Option<Seq<char>>)
    requires
        date_le(a, b),
        date_le(b, c),
    ensures
        date_le(a, c),
{
    match (a, b, c) {
        (Option::Some(x), Option::Some(y), Option::Some(z)) => lemma_lex_le_trans(x, y, z),
        _ => (),
    }
}

/// Decides the date order.
pub fn date_le_exec(a: &Option<String>, b: &Option<String>) -> (r: bool)
    ensures
        r == date_le(a.deep_view(), b.deep_view()),
{
    match (a, b) {
        (Option::None, _) => true,
        (Option::Some(_), Option::None) => false,
        (Option::Some(x), Option::Some(y)) => str_le(x.as_str(), y.as_str()),
    }
}

/// Summaries in date-descending order.
pub open spec fn sorted_by_date_desc(s: Seq<MessageSummaryView>) -> bool {
    forall|i: int, j: int|
        0 <= i < j < s.len() ==> date_le(#[trigger] s[j].date, #[trigger] s[i].date)
}

/// Sorts summaries by date, newest first; the result holds exactly the
/// given summaries.
pub fn sort_summaries_by_date_desc(input: Vec<MessageSummary>) -> (r: Vec<MessageSummary>)
    ensures
        sorted_by_date_desc(r.deep_view()),
        r.deep_view().to_multiset() == input.deep_view().to_multiset(),
{
    broadcast use vstd::multiset::group_multiset_axioms;
    broadcast use vstd::multiset::lemma_multiset_empty_len;
    broadcast use vstd::seq_lib::group_to_multiset_ensures;

    let ghost orig = input.deep_view();
    let mut rest = input;
    let mut out: Vec<MessageSummary> = Vec::new();
    proof {
        assert(out.deep_view() =~= Seq::<MessageSummaryView>::empty());
        assert(out.deep_view().to_multiset().len() == 0);
        assert(out.deep_view().to_multiset() =~= Multiset::<MessageSummaryView>::empty());
        assert(out.deep_view().to_multiset().add(rest.deep_view().to_multiset())
            =~= orig.to_multiset());
    }
    while rest.len() > 0
        invariant
            sorted_by_date_desc(out.deep_view()),
            out.deep_view().to_multiset().add(rest.deep_view().to_multiset())
                == orig.to_multiset(),
        decreases rest.len(),
    {
        let ghost rest0 = rest.deep_view();
        let m = rest.remove(0);
        proof {
            broadcast use vstd::multiset::group_multiset_axioms;
            broadcast use vstd::seq_lib::group_to_multiset_ensures;

            to_multiset_remove::<MessageSummaryView>(rest0, 0);
            assert(rest0.contains(rest0[0]));
            assert(rest0.to_multiset().count(rest0[0]) > 0);
            assert(m@ == rest0[0]);
            assert(rest.deep_view() =~= rest0.remove(0));
        }
        let mut j: usize = 0;
        while j < out.len() && date_le_exec(&m.date, &out[j].date)
            invariant
                j <= out.len(),
                forall|k: int| 0 <= k < j ==> date_le(m@.date, out.deep_view()[k].date),
            decreases out.len() - j,
        {
            j += 1;
        }
        let ghost out0 = out.deep_view();
        out.insert(j, m);
        proof {
            broadcast use vstd::multiset::group_multiset_axioms;

            to_multiset_insert::<MessageSummaryView>(out0, j as int, m@);
            assert(out.deep_view() == out0.insert(j as int, m@));
            assert forall|a: int, b: int|
                0 <= a < b < out.deep_view().len() implies date_le(
                #[trigger] out.deep_view()[b].date,
                #[trigger] out.deep_view()[a].date,
            ) by {
                let nv = out.deep_view();
                if b < j {
                    assert(nv[a] == out0[a] && nv[b] == out0[b]);
                } else if b == j {
                    assert(nv[b] == m@);
                    assert(nv[a] == out0[a]);
                } else {
                    assert(nv[b] == out0[b - 1]);
                    if a < j {
                        assert(nv[a] == out0[a]);
                    } else if a == j {
                        assert(nv[a] == m@);
                        lemma_date_le_total(m@.date, out0[j as int].date);
                        if j < b - 1 {
                            lemma_date_le_trans(
                                out0[b - 1].date,
                                out0[j as int].date,
                                m@.date,
                            );
                        }
                    } else {
                        assert(nv[a] == out0[a - 1]);
                    }
                }
            }
            assert(out.deep_view().to_multiset().add(rest.deep_view().to_multiset())
                =~= orig.to_multiset());
        }
    }
    out
}

/// Details in date-ascending (chronological) order, an absent date counting
/// as the least.
pub open spec fn sorted_by_date_asc(s: Seq<CleanMessageView>) -> bool {
    forall|i: int, j: int|
        0 <= i < j < s.len() ==> date_le(#[trigger] s[i].date, #[trigger] s[j].date)
}

/// Sorts fetched messages chronologically, oldest first, for a thread view;
/// the result holds exactly the given messages.
pub fn sort_details_by_date_asc(input: Vec<CleanMessage>) -> (r: Vec<CleanMessage>)
    ensures
        sorted_by_date_asc(r.deep_view()),
        r.deep_view().to_multiset() == input.deep_view().to_multiset(),
{
    broadcast use vstd::multiset::group_multiset_axioms;
    broadcast use vstd::multiset::lemma_multiset_empty_len;
    broadcast use vstd::seq_lib::group_to_multiset_ensures;

    let ghost orig = input.deep_view();
    let mut rest = input;
    let mut out: Vec<CleanMessage> = Vec::new();
    proof {
        assert(out.deep_view() =~= Seq::<CleanMessageView>::empty());
        assert(out.deep_view().to_multiset().len() == 0);
        assert(out.deep_view().to_multiset() =~= Multiset::<CleanMessageView>::empty());
        assert(out.deep_view().to_multiset().add(rest.deep_view().to_multiset())
            =~= orig.to_multiset());
    }
    while rest.len() > 0
        invariant
            sorted_by_date_asc(out.deep_view()),
            out.deep_view().to_multiset().add(rest.deep_view().to_multiset())
                == orig.to_multiset(),
        decreases rest.len(),
    {
        let ghost rest0 = rest.deep_view();
        let m = rest.remove(0);
        proof {
            broadcast use vstd::multiset::group_multiset_axioms;
            broadcast use vstd::seq_lib::group_to_multiset_ensures;

            to_multiset_remove::<CleanMessageView>(rest0, 0);
            assert(rest0.contains(rest0[0]));
            assert(rest0.to_multiset().count(rest0[0]) > 0);
            assert(m@ == rest0[0]);
            assert(rest.deep_view() =~= rest0.remove(0));
        }
        let mut j: usize = 0;
        while j < out.len() && date_le_exec(&out[j].date, &m.date)
            invariant
                j <= out.len(),
                forall|k: int| 0 <= k < j ==> date_le(out.deep_view()[k].date, m@.date),
            decreases out.len() - j,
        {
            j += 1;
        }
        let ghost out0 = out.deep_view();
        out.insert(j, m);
        proof {
            broadcast use vstd::multiset::group_multiset_axioms;

            to_multiset_insert::<CleanMessageView>(out0, j as int, m@);
            assert(out.deep_view() == out0.insert(j as int, m@));
            assert forall|a: int, b: int|
                0 <= a < b < out.deep_view().len() implies date_le(
                #[trigger] out.deep_view()[a].date,
                #[trigger] out.deep_view()[b].date,
            ) by {
                let nv = out.deep_view();
                if b < j {
                    assert(nv[a] == out0[a] && nv[b] == out0[b]);
                } else if b == j {
                    assert(nv[b] == m@);
                    assert(nv[a] == out0[a]);
                } else {
                    assert(nv[b] == out0[b - 1]);
                    if a < j {
                        assert(nv[a] == out0[a]);
                        if j <= b - 1 && j < out0.len() {
                        }
                    } else if a == j {
                        assert(nv[a] == m@);
                        lemma_date_le_total(out0[j as int].date, m@.date);
                        if j < b - 1 {
                            lemma_date_le_trans(
                                m@.date,
                                out0[j as int].date,
                                out0[b - 1].date,
                            );
                        }
                    } else {
                        assert(nv[a] == out0[a - 1]);
                    }
                }
            }
            assert(out.deep_view().to_multiset().add(rest.deep_view().to_multiset())
                =~= orig.to_multiset());
        }
    }
    out
}

/// A summary with its conversation count attached.
pub open spec fn attach_count(m: MessageSummaryView, count: u32) -> MessageSummaryView {
    MessageSummaryView {
        id: m.id,
        thread_id: m.thread_id,
        snippet: m.snippet,
        subject: m.subject,
        from: m.from,
        date: m.date,
        unread: m.unread,
        has_attachments: m.has_attachments,
        messages_in_thread: Some(count),
    }
}

/// The first index holding the given conversation id, if any.
pub open spec fn index_of_thread(reps: Seq<MessageSummaryView>, tid: Seq<char>) -> Option<int>
    decreases reps.len(),
{
    if reps.len() == 0 {
        None
    } else if reps[0].thread_id == tid {
        Some(0int)
    } else {
        match index_of_thread(reps.drop_first(), tid) {
            Some(i) => Some(i + 1),
            None => None,
        }
    }
}

/// The count a representative carries so far.
pub open spec fn rep_count(m: MessageSummaryView) -> u32 {
    match m.messages_in_thread {
        Some(c) => c,
        None => 1,
    }
}

/// One more member, saturating at the count type's limit.
pub open spec fn count_up(c: u32) -> u32 {
    if c == u32::MAX {
        c
    } else {
        (c + 1) as u32
    }
}

/// A group's representative after one more member arrives: a member with a
/// strictly later date replaces the representative (so of equal dates the
/// earliest member stands), and the group count grows by one either way.
pub open spec fn merge_rep(rep: MessageSummaryView, m: MessageSummaryView)
    -> MessageSummaryView {
    if !date_le(m.date, rep.date) {
        attach_count(m, count_up(rep_count(rep)))
    } else {
        attach_count(rep, count_up(rep_count(rep)))
    }
}

/// The representatives of the summaries seen so far, one per conversation
/// id in order of first appearance, each carrying its group's member count
/// and the lexicographically greatest date of its group.
pub open spec fn collapse_fold(s: Seq<MessageSummaryView>) -> Seq<MessageSummaryView>
    decreases s.len(),
{
    if s.len() == 0 {
        Seq::empty()
    } else {
        let prev = collapse_fold(s.drop_last());
        let m = s.last();
        match index_of_thread(prev, m.thread_id) {
            Some(j) => prev.update(j, merge_rep(prev[j], m)),
            None => prev.push(attach_count(m, 1)),
        }
    }
}

/// `output` is a correct collapse of `input`: exactly the representatives,
/// in date-descending order.
pub open spec fn collapsed_of(
    input: Seq<MessageSummaryView>,
    output: Seq<MessageSummaryView>,
) -> bool {
    sorted_by_date_desc(output) && output.to_multiset() == collapse_fold(input).to_multiset()
}

fn find_thread_index(reps: &Vec<MessageSummary>, tid: &str) -> (r: Option<usize>)
    ensures
        match r {
            Some(k) => k < reps.deep_view().len() && index_of_thread(reps.deep_view(), tid@)
                == Some(k as int),
            None => index_of_thread(reps.deep_view(), tid@) is None,
        },
{
    let ghost rv = reps.deep_view();
    let mut k: usize = 0;
    proof {
        assert(rv.skip(0) =~= rv);
    }
    while k < reps.len()
        invariant
            k <= reps.len(),
            rv == reps.deep_view(),
            rv.len() == reps.len(),
            match index_of_thread(rv.skip(k as int), tid@) {
                Some(i) => index_of_thread(rv, tid@) == Some(i + k),
                None => index_of_thread(rv, tid@) is None,
            },
        decreases reps.len() - k,
    {
        proof {
            assert(rv.skip(k as int)[0] == rv[k as int]);
            assert(rv.skip(k as int).drop_first() =~= rv.skip(k + 1));
        }
        if str_eq(reps[k].thread_id.as_str(), tid) {
            return Some(k);
        }
        k += 1;
    }
    proof {
        assert(rv.skip(reps.len() as int) =~= Seq::<MessageSummaryView>::empty());
    }
    None
}

/// Collapses summaries by conversation: groups the survivors by
/// conversation id, keeps per group the member with the lexicographically
/// greatest date string (the earliest such member on ties) annotated with
/// the group's member count, and yields the representatives sorted by date
/// descending.
pub fn collapse_threads(input: Vec<MessageSummary>) -> (r: Vec<MessageSummary>)
    ensures
        collapsed_of(input.deep_view(), r.deep_view()),
{
    let ghost iv = input.deep_view();
    let mut reps: Vec<MessageSummary> = Vec::new();
    let mut i: usize = 0;
    proof {
        assert(reps.deep_view() =~= collapse_fold(iv.take(0)));
    }
    while i < input.len()
        invariant
            i <= input.len(),
            iv == input.deep_view(),
            iv.len() == input.len(),
            reps.deep_view() == collapse_fold(iv.take(i as int)),
        decreases input.len() - i,
    {
        proof {
            assert(iv.take(i + 1).drop_last() =~= iv.take(i as int));
            assert(iv.take(i + 1).last() == iv[i as int]);
        }
        let m = &input[i];
        match find_thread_index(&reps, m.thread_id.as_str()) {
            Some(j) => {
                let old_count = match reps[j].messages_in_thread {
                    Some(c) => c,
                    None => 1,
                };
                let new_count = if old_count == u32::MAX {
                    old_count
                } else {
                    old_count + 1
                };
                let replace = !date_le_exec(&m.date, &reps[j].date);
                let mut base = if replace {
                    m.duplicate()
                } else {
                    reps[j].duplicate()
                };
                base.messages_in_thread = Some(new_count);
                proof {
                    assert(base@ == merge_rep(reps.deep_view()[j as int], iv[i as int]));
                }
                let ghost rv0 = reps.deep_view();
                reps.remove(j);
                let ghost rv1 = reps.deep_view();
                reps.insert(j, base);
                proof {
                    assert(rv1 =~= rv0.remove(j as int));
                    assert(reps.deep_view() =~= rv1.insert(j as int, base@));
                    assert(reps.deep_view() =~= rv0.update(j as int, base@));
                    assert(reps.deep_view() =~= collapse_fold(iv.take(i + 1)));
                }
            },
            None => {
                let mut base = m.duplicate();
                base.messages_in_thread = Some(1);
                let ghost rv0 = reps.deep_view();
                reps.push(base);
                proof {
                    assert(base@ == attach_count(iv[i as int], 1));
                    assert(reps.deep_view() =~= rv0.push(base@));
                    assert(reps.deep_view() =~= collapse_fold(iv.take(i + 1)));
                }
            },
        }
        i += 1;
    }
    proof {
        assert(iv.take(input.len() as int) =~= iv);
    }
    sort_summaries_by_date_desc(reps)
}

} // verus!
