//! The repository's cross-operation guarantees, each stated over the store
//! model and proved from the operations' contracts.

use vstd::prelude::*;

use crate::model::{
    has_name, ids_with_name, insert_post, link_targets, lemma_link_targets_contains,
    lemma_link_targets_fst, lemma_new_names_covers, lemma_new_names_empty,
    lemma_resolved_id_is, lemma_table_extends_same_len_equal, lemma_unique_reference_row,
    links_of, new_names, replace_post, resolved_ref_id, StoreModel,
};
use crate::models::RefEntityLabel;

verus! {

/// Inserting a goat with two vaccinations whose names the store does not
/// yet hold creates exactly two new vaccine reference rows and exactly two
/// link rows for the new goat.
pub proof fn law_insert_creates_each_missing_reference_once(
    pre: StoreModel,
    post: StoreModel,
    g: crate::models::GoatLabel,
    gid: i64,
    r1: RefEntityLabel,
    r2: RefEntityLabel,
)
    requires
        pre.wf(),
        post.wf(),
        insert_post(pre, post, g, gid),
        g.vaccinations == seq![r1, r2],
        r1.id is None,
        r2.id is None,
        r1.name != r2.name,
        !has_name(pre.vaccines, r1.name),
        !has_name(pre.vaccines, r2.name),
    ensures
        post.vaccines.dom().len() == pre.vaccines.dom().len() + 2,
        links_of(post.goat_vaccines, gid).len() == 2,
{
    let refs = g.vaccinations;
    assert(refs.drop_last() =~= seq![r1]);
    assert(refs.last() == r2);
    assert(seq![r1].drop_last() =~= Seq::<RefEntityLabel>::empty());
    assert(seq![r1].last() == r1);
    let nn = new_names(pre.vaccines, refs);
    assert(new_names(pre.vaccines, Seq::<RefEntityLabel>::empty()) == Set::<Seq<char>>::empty());
    assert(new_names(pre.vaccines, seq![r1]) == Set::<Seq<char>>::empty().insert(r1.name));
    assert(nn == Set::<Seq<char>>::empty().insert(r1.name).insert(r2.name));
    assert(Set::<Seq<char>>::empty().insert(r1.name).len() == 1);
    assert(nn.len() == 2);
    // the two rows the references resolve to are distinct
    assert(nn.contains(r1.name) && nn.contains(r2.name));
    assert(has_name(post.vaccines, r1.name));
    assert(has_name(post.vaccines, r2.name));
    let w1 = choose|w: i64| post.vaccines.dom().contains(w) && post.vaccines[w] == r1.name;
    let w2 = choose|w: i64| post.vaccines.dom().contains(w) && post.vaccines[w] == r2.name;
    assert(post.vaccines.dom().contains(w1) && post.vaccines[w1] == r1.name);
    assert(post.vaccines.dom().contains(w2) && post.vaccines[w2] == r2.name);
    lemma_resolved_id_is(post.vaccines, r1, w1);
    lemma_resolved_id_is(post.vaccines, r2, w2);
    // the goat's links are exactly the run's pairs
    lemma_link_targets_fst(post.vaccines, gid, refs);
    assert forall|p: (i64, i64)| #[trigger]
        links_of(post.goat_vaccines, gid).contains(p) implies link_targets(
        post.vaccines,
        gid,
        refs,
    ).contains(p) by {
        if pre.goat_vaccines.contains(p) {
            assert(pre.goats.dom().contains(p.0));
        }
    }
    assert(links_of(post.goat_vaccines, gid) =~= link_targets(post.vaccines, gid, refs));
    assert(link_targets(post.vaccines, gid, Seq::<RefEntityLabel>::empty()) == Set::<(
        i64,
        i64,
    )>::empty());
    assert(link_targets(post.vaccines, gid, seq![r1]) == Set::<(i64, i64)>::empty().insert(
        (gid, w1),
    ));
    assert(link_targets(post.vaccines, gid, refs) == Set::<(i64, i64)>::empty().insert(
        (gid, w1),
    ).insert((gid, w2)));
    assert(Set::<(i64, i64)>::empty().insert((gid, w1)).len() == 1);
    assert(link_targets(post.vaccines, gid, refs).len() == 2);
}

/// Inserting a goat whose vaccination names all exist already creates no
/// new vaccine reference row, and links the goat to the existing rows.
pub proof fn law_insert_reuses_existing_references(
    pre: StoreModel,
    post: StoreModel,
    g: crate::models::GoatLabel,
    gid: i64,
)
    requires
        pre.wf(),
        post.wf(),
        insert_post(pre, post, g, gid),
        forall|i: int|
            0 <= i < g.vaccinations.len() ==> ((#[trigger] g.vaccinations[i]).id is None
                && has_name(pre.vaccines, g.vaccinations[i].name)),
    ensures
        post.vaccines == pre.vaccines,
        forall|i: int|
            0 <= i < g.vaccinations.len() ==> post.goat_vaccines.contains(
                (gid, resolved_ref_id(pre.vaccines, #[trigger] g.vaccinations[i])),
            ),
{
    lemma_new_names_empty(pre.vaccines, g.vaccinations);
    assert(new_names(pre.vaccines, g.vaccinations).len() == 0);
    lemma_table_extends_same_len_equal(pre.vaccines, post.vaccines);
    assert forall|i: int| 0 <= i < g.vaccinations.len() implies post.goat_vaccines.contains(
        (gid, resolved_ref_id(pre.vaccines, #[trigger] g.vaccinations[i])),
    ) by {
        lemma_link_targets_contains(post.vaccines, gid, g.vaccinations, i);
    }
}

/// Replacing a goat substitutes its link set completely: with a single
/// vaccination supplied, exactly one vaccine link row remains for the
/// goat, however many it had before.
pub proof fn law_replace_leaves_exact_links(
    pre: StoreModel,
    post: StoreModel,
    gid: i64,
    g: crate::models::GoatLabel,
    r: RefEntityLabel,
)
    requires
        pre.wf(),
        post.wf(),
        replace_post(pre, post, gid, g),
        g.vaccinations == seq![r],
        r.id is None,
    ensures
        links_of(post.goat_vaccines, gid).len() == 1,
{
    let refs = g.vaccinations;
    assert(refs.drop_last() =~= Seq::<RefEntityLabel>::empty());
    assert(refs.last() == r);
    if !has_name(pre.vaccines, r.name) {
        lemma_new_names_covers(pre.vaccines, refs, 0);
        assert(has_name(post.vaccines, r.name));
    } else {
        let w0 = choose|w: i64| pre.vaccines.dom().contains(w) && pre.vaccines[w] == r.name;
        assert(pre.vaccines.dom().contains(w0) && pre.vaccines[w0] == r.name);
        assert(post.vaccines.dom().contains(w0) && post.vaccines[w0] == r.name);
        assert(has_name(post.vaccines, r.name));
    }
    let w = choose|w: i64| post.vaccines.dom().contains(w) && post.vaccines[w] == r.name;
    assert(post.vaccines.dom().contains(w) && post.vaccines[w] == r.name);
    lemma_resolved_id_is(post.vaccines, r, w);
    lemma_link_targets_fst(post.vaccines, gid, refs);
    assert(links_of(post.goat_vaccines, gid) =~= link_targets(post.vaccines, gid, refs));
    assert(link_targets(post.vaccines, gid, Seq::<RefEntityLabel>::empty()) == Set::<(
        i64,
        i64,
    )>::empty());
    assert(link_targets(post.vaccines, gid, refs) == Set::<(i64, i64)>::empty().insert((gid, w)));
    assert(Set::<(i64, i64)>::empty().insert((gid, w)).len() == 1);
}

/// Deleting a goat removes only that goat's rows: every other goat keeps
/// its base row and all its links, and the shared vaccine and disease
/// rows survive untouched.
pub proof fn law_delete_spares_other_goats(
    pre: StoreModel,
    post: StoreModel,
    gid: i64,
    other: i64,
)
    requires
        crate::model::delete_post(pre, post, gid),
        other != gid,
    ensures
        pre.goats.dom().contains(other) ==> post.goats.dom().contains(other) && post.goats[other]
            == pre.goats[other],
        forall|vid: i64| #[trigger]
            pre.goat_vaccines.contains((other, vid)) <==> post.goat_vaccines.contains(
                (other, vid),
            ),
        forall|did: i64| #[trigger]
            pre.goat_diseases.contains((other, did)) <==> post.goat_diseases.contains(
                (other, did),
            ),
        post.vaccines == pre.vaccines,
        post.diseases == pre.diseases,
{
}

/// Two inserts that each reference the same brand-new vaccine name leave
/// exactly one reference row carrying that name, in whichever order the
/// store's write serialization runs them.
pub proof fn law_same_new_name_single_row(
    m0: StoreModel,
    m1: StoreModel,
    m2: StoreModel,
    g1: crate::models::GoatLabel,
    g2: crate::models::GoatLabel,
    gid1: i64,
    gid2: i64,
    i1: int,
    i2: int,
)
    requires
        m0.wf(),
        m1.wf(),
        m2.wf(),
        insert_post(m0, m1, g1, gid1),
        insert_post(m1, m2, g2, gid2),
        0 <= i1 < g1.vaccinations.len(),
        0 <= i2 < g2.vaccinations.len(),
        g1.vaccinations[i1].id is None,
        g2.vaccinations[i2].id is None,
        g2.vaccinations[i2].name == g1.vaccinations[i1].name,
        !has_name(m0.vaccines, g1.vaccinations[i1].name),
    ensures
        ids_with_name(m2.vaccines, g1.vaccinations[i1].name).len() == 1,
{
    let n = g1.vaccinations[i1].name;
    lemma_new_names_covers(m0.vaccines, g1.vaccinations, i1);
    assert(has_name(m1.vaccines, n));
    assert(has_name(m2.vaccines, n));
    lemma_unique_reference_row(m2.vaccines, n);
}

} // verus!
