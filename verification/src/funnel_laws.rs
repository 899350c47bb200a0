//! What the funnel editor's operations keep and undo: removing by id, switching
//! a sequence on or off, and creating a sequence.

use vstd::prelude::*;
use crate::crud_funnels::{
    cond_ids, cond_pos, is_fresh_sequence, seq_ids, seq_pos, sequence_rows, without_cond,
    without_seq, ActiveElement, CRUDFunnel, ConditionalSequence, SequenceListRowModel,
};
use crate::model::Sequence;
use crate::seqs::{is_first_index, lemma_first_index_is, lemma_first_index_none};

verus! {

/// Removing sequences by id leaves none with that id, keeps every sequence
/// with another id, and never lengthens the list.
pub proof fn lemma_without_seq(s: Seq<Sequence>, id: u128)
    ensures
        forall|k: int|
            0 <= k < without_seq(s, id).len() ==> (#[trigger] without_seq(s, id)[k]).id != id,
        forall|k: int| 0 <= k < s.len() && s[k].id != id ==> without_seq(s, id).contains(#[trigger] s[k]),
        without_seq(s, id).len() <= s.len(),
        seq_pos(without_seq(s, id), id) is None,
    decreases s.len(),
{
    if s.len() > 0 {
        let p = s.drop_last();
        lemma_without_seq(p, id);
        let r = without_seq(p, id);
        assert forall|k: int| 0 <= k < s.len() && s[k].id != id implies without_seq(s, id).contains(
            #[trigger] s[k],
        ) by {
            if k < s.len() - 1 {
                assert(p[k] == s[k]);
                let m = choose|m: int| 0 <= m < r.len() && r[m] == p[k];
                if s.last().id != id {
                    assert(r.push(s.last())[m] == s[k]);
                }
            } else {
                assert(r.push(s.last())[r.len() as int] == s[k]);
            }
        }
    }
    let r = without_seq(s, id);
    assert forall|j: int| 0 <= j < seq_ids(r).len() implies seq_ids(r)[j] != id by {
        assert(seq_ids(r)[j] == r[j].id);
    }
    lemma_first_index_none(seq_ids(r), id);
}

/// Removing conditional sequences by id leaves none with that id, keeps
/// every one with another id, and never lengthens the list.
pub proof fn lemma_without_cond(s: Seq<ConditionalSequence>, id: u128)
    ensures
        forall|k: int|
            0 <= k < without_cond(s, id).len() ==> (#[trigger] without_cond(s, id)[k]).id != id,
        forall|k: int|
            0 <= k < s.len() && s[k].id != id ==> without_cond(s, id).contains(#[trigger] s[k]),
        without_cond(s, id).len() <= s.len(),
        cond_pos(without_cond(s, id), id) is None,
    decreases s.len(),
{
    if s.len() > 0 {
        let p = s.drop_last();
        lemma_without_cond(p, id);
        let r = without_cond(p, id);
        assert forall|k: int| 0 <= k < s.len() && s[k].id != id implies without_cond(s, id).contains(
            #[trigger] s[k],
        ) by {
            if k < s.len() - 1 {
                assert(p[k] == s[k]);
                let m = choose|m: int| 0 <= m < r.len() && r[m] == p[k];
                if s.last().id != id {
                    assert(r.push(s.last())[m] == s[k]);
                }
            } else {
                assert(r.push(s.last())[r.len() as int] == s[k]);
            }
        }
    }
    let r = without_cond(s, id);
    assert forall|j: int| 0 <= j < cond_ids(r).len() implies cond_ids(r)[j] != id by {
        assert(cond_ids(r)[j] == r[j].id);
    }
    lemma_first_index_none(cond_ids(r), id);
}

/// Replacing a sequence by one with the same id finds every id where it was.
proof fn lemma_seq_pos_update(s: Seq<Sequence>, j: int, x: Sequence, id: u128)
    requires
        0 <= j < s.len(),
        x.id == s[j].id,
    ensures
        seq_pos(s.update(j, x), id) == seq_pos(s, id),
{
    assert(seq_ids(s.update(j, x)) =~= seq_ids(s));
}

/// Conditional sequences that keep their ids are found where they were.
proof fn lemma_cond_pos_same_ids(a: Seq<ConditionalSequence>, b: Seq<ConditionalSequence>, id: u128)
    requires
        a.len() == b.len(),
        forall|k: int| 0 <= k < a.len() ==> (#[trigger] a[k]).id == b[k].id,
    ensures
        cond_pos(b, id) == cond_pos(a, id),
{
    assert(cond_ids(a) =~= cond_ids(b));
}

/// `a` and `b` are the same conditional sequence, their sequences taken by
/// their contents.
pub open spec fn same_conditional(a: ConditionalSequence, b: ConditionalSequence) -> bool {
    &&& a.id == b.id
    &&& a.name == b.name
    &&& a.condition_set == b.condition_set
    &&& a.conditional_sequence_is_active == b.conditional_sequence_is_active
    &&& a.sequences@ == b.sequences@
}

/// `a` and `b` hold the same funnel and selection, their lists taken by their
/// contents.
pub open spec fn same_funnel(a: CRUDFunnel, b: CRUDFunnel) -> bool {
    &&& a.same_but_sequences_and_selection(b)
    &&& a.active_element == b.active_element
    &&& a.default_sequences@ == b.default_sequences@
    &&& a.conditional_sequences@.len() == b.conditional_sequences@.len()
    &&& forall|k: int|
        0 <= k < a.conditional_sequences@.len() ==> same_conditional(
            #[trigger] a.conditional_sequences@[k],
            b.conditional_sequences@[k],
        )
}

/// Switching the same target on or off twice gives back the funnel as it was.
pub proof fn lemma_toggle_twice_restores(
    f0: CRUDFunnel,
    f1: CRUDFunnel,
    f2: CRUDFunnel,
    target: ActiveElement,
)
    requires
        f0.toggled_under(f1, target),
        f1.toggled_under(f2, target),
    ensures
        same_funnel(f0, f2),
{
    match target {
        ActiveElement::ConditionalSequence(c, None) => {
            match cond_pos(f0.conditional_sequences@, c) {
                Some(i) => {
                    let x0 = f0.conditional_sequences@[i];
                    assert(is_first_index(cond_ids(f0.conditional_sequences@), c, i));
                    lemma_cond_pos_same_ids(f0.conditional_sequences@, f1.conditional_sequences@, c);
                    assert(f2.conditional_sequences@ =~= f0.conditional_sequences@);
                },
                None => {},
            }
        },
        _ => match f0.selected_seq(target) {
            Some((None, j)) => {
                let s = f0.default_sequences@[j];
                let s1 = Sequence { sequence_is_active: !s.sequence_is_active, ..s };
                let sid = target->DefaultSequence_0;
                lemma_seq_pos_update(f0.default_sequences@, j, s1, sid);
                assert(f1.selected_seq(target) == Some((None::<int>, j)));
                assert(f2.default_sequences@ =~= f0.default_sequences@);
            },
            Some((Some(i), j)) => {
                let c = target->ConditionalSequence_0;
                let sid = target->ConditionalSequence_1->Some_0;
                let s = f0.conditional_sequences@[i].sequences@[j];
                let s1 = Sequence { sequence_is_active: !s.sequence_is_active, ..s };
                assert(is_first_index(cond_ids(f0.conditional_sequences@), c, i));
                assert(forall|k: int|
                    0 <= k < f0.conditional_sequences@.len() ==> (
                    #[trigger] f0.conditional_sequences@[k]).id == f1.conditional_sequences@[k].id);
                lemma_cond_pos_same_ids(f0.conditional_sequences@, f1.conditional_sequences@, c);
                lemma_seq_pos_update(f0.conditional_sequences@[i].sequences@, j, s1, sid);
                assert(f1.selected_seq(target) == Some((Some(i), j)));
                assert(f2.conditional_sequences@[i].sequences@
                    =~= f0.conditional_sequences@[i].sequences@);
                assert forall|k: int| 0 <= k < f0.conditional_sequences@.len() implies same_conditional(
                    #[trigger] f0.conditional_sequences@[k],
                    f2.conditional_sequences@[k],
                ) by {
                    if k != i {
                        assert(f1.conditional_sequences@[k] == f0.conditional_sequences@[k]);
                    }
                }
            },
            None => {},
        },
    }
}

/// A sequence just created is the one selected, where its id was not in use
/// among its neighbours; a conditional sequence just created is found under
/// its id, where that id was not in use.
pub proof fn lemma_created_is_selected(
    f0: CRUDFunnel,
    f1: CRUDFunnel,
    target: ActiveElement,
    new_id: u128,
)
    requires
        f0.created_under(f1, target, new_id),
        target is DefaultSequence ==> !seq_ids(f0.default_sequences@).contains(new_id),
        target is Funnel ==> !cond_ids(f0.conditional_sequences@).contains(new_id),
        target matches ActiveElement::ConditionalSequence(c, None) ==> (cond_pos(
            f0.conditional_sequences@,
            c,
        ) matches Some(i) ==> !seq_ids(f0.conditional_sequences@[i].sequences@).contains(new_id)),
    ensures
        target is DefaultSequence ==> {
            &&& f1.selected_sequence(f1.active_element) == Some(f1.default_sequences@.last())
            &&& is_fresh_sequence(f1.default_sequences@.last(), new_id, "New Default Sequence"@)
        },
        target is Funnel ==> cond_pos(f1.conditional_sequences@, new_id) == Some(
            (f1.conditional_sequences@.len() - 1) as int,
        ),
        target matches ActiveElement::ConditionalSequence(c, None) ==> (cond_pos(
            f0.conditional_sequences@,
            c,
        ) matches Some(i) ==> {
            &&& f1.selected_sequence(f1.active_element) == Some(
                f1.conditional_sequences@[i].sequences@.last(),
            )
            &&& is_fresh_sequence(f1.conditional_sequences@[i].sequences@.last(), new_id, "New Sequence"@)
        }),
{
    match target {
        ActiveElement::DefaultSequence(_) => {
            let s0 = f0.default_sequences@;
            let s1 = f1.default_sequences@;
            let n = s0.len() as int;
            assert(s1 =~= s0.push(s1.last()));
            assert forall|k: int| 0 <= k < n implies seq_ids(s1)[k] != new_id by {
                assert(seq_ids(s1)[k] == s0[k].id);
                assert(seq_ids(s0)[k] == s0[k].id);
                if s0[k].id == new_id {
                    assert(seq_ids(s0).contains(new_id));
                }
            }
            assert(is_first_index(seq_ids(s1), new_id, n));
            lemma_first_index_is(seq_ids(s1), new_id, n);
        },
        ActiveElement::Funnel => {
            let s0 = f0.conditional_sequences@;
            let s1 = f1.conditional_sequences@;
            let n = s0.len() as int;
            assert(s1 =~= s0.push(s1.last()));
            assert forall|k: int| 0 <= k < n implies cond_ids(s1)[k] != new_id by {
                assert(cond_ids(s1)[k] == s0[k].id);
                assert(cond_ids(s0)[k] == s0[k].id);
                if s0[k].id == new_id {
                    assert(cond_ids(s0).contains(new_id));
                }
            }
            assert(is_first_index(cond_ids(s1), new_id, n));
            lemma_first_index_is(cond_ids(s1), new_id, n);
        },
        ActiveElement::ConditionalSequence(c, None) => {
            match cond_pos(f0.conditional_sequences@, c) {
                Some(i) => {
                    assert(is_first_index(cond_ids(f0.conditional_sequences@), c, i));
                    assert(forall|k: int|
                        0 <= k < f0.conditional_sequences@.len() ==> (
                        #[trigger] f0.conditional_sequences@[k]).id
                            == f1.conditional_sequences@[k].id);
                    lemma_cond_pos_same_ids(
                        f0.conditional_sequences@,
                        f1.conditional_sequences@,
                        c,
                    );
                    let s0 = f0.conditional_sequences@[i].sequences@;
                    let s1 = f1.conditional_sequences@[i].sequences@;
                    let n = s0.len() as int;
                    assert(s1 =~= s0.push(s1.last()));
                    assert forall|k: int| 0 <= k < n implies seq_ids(s1)[k] != new_id by {
                        assert(seq_ids(s1)[k] == s0[k].id);
                        assert(seq_ids(s0)[k] == s0[k].id);
                        if s0[k].id == new_id {
                            assert(seq_ids(s0).contains(new_id));
                        }
                    }
                    assert(is_first_index(seq_ids(s1), new_id, n));
                    lemma_first_index_is(seq_ids(s1), new_id, n);
                },
                None => {},
            }
        },
        _ => {},
    }
}

/// Reading the selected sequence back after an edit replaced it gives the
/// edited sequence, where the edit kept its id: what every edit of the
/// selected sequence writes is what the editor then shows.
pub proof fn lemma_edit_then_read(f0: CRUDFunnel, f1: CRUDFunnel, target: ActiveElement, s: Sequence)
    requires
        f0.with_selected(f1, target, s),
        f0.selected_sequence(target) matches Some(old) && old.id == s.id,
    ensures
        f1.selected_sequence(target) == Some(s),
{
    match f0.selected_seq(target) {
        Some((None, j)) => {
            let sid = target->DefaultSequence_0;
            lemma_seq_pos_update(f0.default_sequences@, j, s, sid);
        },
        Some((Some(i), j)) => {
            let c = target->ConditionalSequence_0;
            let sid = target->ConditionalSequence_1->Some_0;
            assert(forall|k: int|
                0 <= k < f0.conditional_sequences@.len() ==> (
                #[trigger] f0.conditional_sequences@[k]).id == f1.conditional_sequences@[k].id);
            lemma_cond_pos_same_ids(f0.conditional_sequences@, f1.conditional_sequences@, c);
            lemma_seq_pos_update(f0.conditional_sequences@[i].sequences@, j, s, sid);
        },
        None => {},
    }
}


/// The list shows one row per sequence of a conditional sequence, in order:
/// row `i` shows sequence `i`'s id, name, weight and switch, under its
/// parent, and is highlighted exactly when that sequence is the one selected.
pub proof fn lemma_one_row_per_sequence(parent: u128, s: Seq<Sequence>, active: ActiveElement)
    ensures
        sequence_rows(parent, s, active).len() == s.len(),
        forall|i: int|
            0 <= i < s.len() ==> #[trigger] sequence_rows(parent, s, active)[i] == (
            SequenceListRowModel::Row {
                parent,
                id: s[i].id,
                name: s[i].name@,
                weight: s[i].weight,
                is_active: s[i].sequence_is_active,
                highlighted: active == ActiveElement::ConditionalSequence(parent, Some(s[i].id)),
            }),
    decreases s.len(),
{
    if s.len() > 0 {
        lemma_one_row_per_sequence(parent, s.drop_last(), active);
        assert forall|i: int| 0 <= i < s.len() - 1 implies s.drop_last()[i] == s[i] by {}
    }
}

} // verus!
