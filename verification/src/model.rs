//! The mathematical model of the relational state: a goats table, two
//! reference tables (vaccines, diseases) keyed by identifier with unique
//! names, and two link tables of (goat identifier, reference identifier)
//! pairs.  The repository's contracts are stated against this model.

use vstd::prelude::*;

use crate::models::{GoatLabel, GoatRowLabel, RefEntityLabel};

verus! {

/// The full relational state of the store.
#[verifier::ext_equal]
pub struct StoreModel {
    /// Base rows, keyed by goat identifier.
    pub goats: Map<i64, GoatRowLabel>,
    /// Vaccine reference rows: identifier to unique name.
    pub vaccines: Map<i64, Seq<char>>,
    /// Disease reference rows: identifier to unique name.
    pub diseases: Map<i64, Seq<char>>,
    /// Which vaccines each goat is linked to.
    pub goat_vaccines: Set<(i64, i64)>,
    /// Which diseases each goat is linked to.
    pub goat_diseases: Set<(i64, i64)>,
}

impl StoreModel {
    /// The state of a store holding nothing.
    pub open spec fn empty() -> StoreModel {
        StoreModel {
            goats: Map::empty(),
            vaccines: Map::empty(),
            diseases: Map::empty(),
            goat_vaccines: Set::empty(),
            goat_diseases: Set::empty(),
        }
    }

    /// Well-formedness: everything finite, reference names unique within
    /// their table, and every link pair referencing existing rows on both
    /// ends.
    pub open spec fn wf(self) -> bool {
        &&& self.goats.dom().finite()
        &&& self.vaccines.dom().finite()
        &&& self.diseases.dom().finite()
        &&& self.goat_vaccines.finite()
        &&& self.goat_diseases.finite()
        &&& injective_names(self.vaccines)
        &&& injective_names(self.diseases)
        &&& forall|p: (i64, i64)| #[trigger] self.goat_vaccines.contains(p)
            ==> self.goats.dom().contains(p.0) && self.vaccines.dom().contains(p.1)
        &&& forall|p: (i64, i64)| #[trigger] self.goat_diseases.contains(p)
            ==> self.goats.dom().contains(p.0) && self.diseases.dom().contains(p.1)
    }
}

/// The second table holds every row of the first, unchanged.
pub open spec fn table_extends(pre: Map<i64, Seq<char>>, post: Map<i64, Seq<char>>) -> bool {
    forall|k: i64| #[trigger]
        pre.dom().contains(k) ==> post.dom().contains(k) && pre[k] == post[k]
}

/// Whether some row of the reference table carries this name.
pub open spec fn has_name(tbl: Map<i64, Seq<char>>, name: Seq<char>) -> bool {
    exists|vid: i64| tbl.dom().contains(vid) && tbl[vid] == name
}

/// No two rows of the reference table carry the same name.
pub open spec fn injective_names(tbl: Map<i64, Seq<char>>) -> bool {
    forall|i: i64, j: i64|
        tbl.dom().contains(i) && tbl.dom().contains(j) && #[trigger] tbl[i] == #[trigger] tbl[j]
            ==> i == j
}

/// The identifiers of the rows carrying this name.
pub open spec fn ids_with_name(tbl: Map<i64, Seq<char>>, name: Seq<char>) -> Set<i64> {
    tbl.dom().filter(|vid: i64| tbl[vid] == name)
}

/// The names a run of reference resolutions adds to a table: names of
/// references that carry no identifier and are not yet in the table.
pub open spec fn new_names(tbl: Map<i64, Seq<char>>, refs: Seq<RefEntityLabel>) -> Set<Seq<char>>
    decreases refs.len(),
{
    if refs.len() == 0 {
        Set::empty()
    } else {
        let rest = new_names(tbl, refs.drop_last());
        let r = refs.last();
        if r.id is None && !has_name(tbl, r.name) {
            rest.insert(r.name)
        } else {
            rest
        }
    }
}

/// The identifier a reference resolves to against this table: a carried
/// identifier is trusted as it stands; otherwise the row with the matching
/// name (unique under `injective_names`).
pub open spec fn resolved_ref_id(tbl: Map<i64, Seq<char>>, r: RefEntityLabel) -> i64 {
    match r.id {
        Some(i) => i,
        None => choose|vid: i64| tbl.dom().contains(vid) && tbl[vid] == r.name,
    }
}

/// The link pairs a goat ends up with after resolving these references.
pub open spec fn link_targets(tbl: Map<i64, Seq<char>>, gid: i64, refs: Seq<RefEntityLabel>) -> Set<
    (i64, i64),
>
    decreases refs.len(),
{
    if refs.len() == 0 {
        Set::empty()
    } else {
        link_targets(tbl, gid, refs.drop_last()).insert((gid, resolved_ref_id(tbl, refs.last())))
    }
}

/// The link table with every pair of this goat removed.
pub open spec fn links_without(links: Set<(i64, i64)>, gid: i64) -> Set<(i64, i64)> {
    links.filter(|p: (i64, i64)| p.0 != gid)
}

/// The link pairs of this goat.
pub open spec fn links_of(links: Set<(i64, i64)>, gid: i64) -> Set<(i64, i64)> {
    links.filter(|p: (i64, i64)| p.0 == gid)
}

/// How a run of reference resolutions changes a reference table: existing
/// rows are untouched, exactly the missing names among the resolved
/// references are added, each as one fresh row.
pub open spec fn ref_table_updated(
    pre: Map<i64, Seq<char>>,
    post: Map<i64, Seq<char>>,
    refs: Seq<RefEntityLabel>,
) -> bool {
    &&& table_extends(pre, post)
    &&& forall|n: Seq<char>|
        #[trigger] has_name(post, n) <==> has_name(pre, n) || new_names(pre, refs).contains(n)
    &&& forall|vid: i64|
        #[trigger] post.dom().contains(vid) && !pre.dom().contains(vid)
            ==> new_names(pre, refs).contains(post[vid])
    &&& post.dom().len() == pre.dom().len() + new_names(pre, refs).len()
}

/// What a successful insert does to the store: one fresh base row, the
/// missing reference names created without duplicates, and exactly the
/// resolved link pairs added for the new goat.
pub open spec fn insert_post(pre: StoreModel, post: StoreModel, g: GoatLabel, gid: i64) -> bool {
    &&& !pre.goats.dom().contains(gid)
    &&& post.goats == pre.goats.insert(gid, crate::models::row_of_goat(g))
    &&& ref_table_updated(pre.vaccines, post.vaccines, g.vaccinations)
    &&& ref_table_updated(pre.diseases, post.diseases, g.diseases)
    &&& post.goat_vaccines == pre.goat_vaccines + link_targets(post.vaccines, gid, g.vaccinations)
    &&& post.goat_diseases == pre.goat_diseases + link_targets(post.diseases, gid, g.diseases)
}

/// What a successful replace does to the store: the base row substituted in
/// place, missing reference names created, and the goat's link set fully
/// replaced by the resolved one; other goats' links untouched.
pub open spec fn replace_post(pre: StoreModel, post: StoreModel, gid: i64, g: GoatLabel) -> bool {
    &&& pre.goats.dom().contains(gid)
    &&& post.goats == pre.goats.insert(gid, crate::models::row_of_goat(g))
    &&& ref_table_updated(pre.vaccines, post.vaccines, g.vaccinations)
    &&& ref_table_updated(pre.diseases, post.diseases, g.diseases)
    &&& post.goat_vaccines == links_without(pre.goat_vaccines, gid) + link_targets(
        post.vaccines,
        gid,
        g.vaccinations,
    )
    &&& post.goat_diseases == links_without(pre.goat_diseases, gid) + link_targets(
        post.diseases,
        gid,
        g.diseases,
    )
}

/// What a successful delete does to the store: the base row and the goat's
/// own link pairs removed; both reference tables, and every other goat's
/// links, untouched.
pub open spec fn delete_post(pre: StoreModel, post: StoreModel, gid: i64) -> bool {
    &&& pre.goats.dom().contains(gid)
    &&& post.goats == pre.goats.remove(gid)
    &&& post.vaccines == pre.vaccines
    &&& post.diseases == pre.diseases
    &&& post.goat_vaccines == links_without(pre.goat_vaccines, gid)
    &&& post.goat_diseases == links_without(pre.goat_diseases, gid)
}

/// What a successful resolution does to a reference table: a carried
/// identifier is handed back with the table untouched; a known name yields
/// its row's identifier; a missing name is inserted as one fresh row.
pub open spec fn resolve_ok(
    pre: Map<i64, Seq<char>>,
    post: Map<i64, Seq<char>>,
    r: RefEntityLabel,
    vid: i64,
) -> bool {
    match r.id {
        Some(i) => vid == i && post == pre,
        None => if has_name(pre, r.name) {
            post == pre && pre.dom().contains(vid) && pre[vid] == r.name
        } else {
            !pre.dom().contains(vid) && post == pre.insert(vid, r.name)
        },
    }
}

/// The set of names a resolution run adds is finite.
pub proof fn lemma_new_names_finite(tbl: Map<i64, Seq<char>>, refs: Seq<RefEntityLabel>)
    ensures
        new_names(tbl, refs).finite(),
    decreases refs.len(),
{
    if refs.len() > 0 {
        lemma_new_names_finite(tbl, refs.drop_last());
    }
}

/// One step of a resolution run: the names added by the first `i + 1`
/// references are those of the first `i`, plus the last one's name if it
/// is nameless and not yet in the table.
pub proof fn lemma_new_names_step(tbl: Map<i64, Seq<char>>, refs: Seq<RefEntityLabel>, i: int)
    requires
        0 <= i < refs.len(),
    ensures
        new_names(tbl, refs.take(i + 1)) == if refs[i].id is None && !has_name(tbl, refs[i].name) {
            new_names(tbl, refs.take(i)).insert(refs[i].name)
        } else {
            new_names(tbl, refs.take(i))
        },
{
    assert(refs.take(i + 1).drop_last() =~= refs.take(i));
    assert(refs.take(i + 1).last() == refs[i]);
}

/// One step of a link run: the pairs produced by the first `i + 1`
/// references are those of the first `i`, plus the last one's resolved
/// pair.
pub proof fn lemma_link_targets_step(
    tbl: Map<i64, Seq<char>>,
    gid: i64,
    refs: Seq<RefEntityLabel>,
    i: int,
)
    requires
        0 <= i < refs.len(),
    ensures
        link_targets(tbl, gid, refs.take(i + 1)) == link_targets(tbl, gid, refs.take(i)).insert(
            (gid, resolved_ref_id(tbl, refs[i])),
        ),
{
    assert(refs.take(i + 1).drop_last() =~= refs.take(i));
    assert(refs.take(i + 1).last() == refs[i]);
}

/// Under unique names, a nameless reference resolves to the row that
/// carries its name.
pub proof fn lemma_resolved_id_is(tbl: Map<i64, Seq<char>>, r: RefEntityLabel, vid: i64)
    requires
        injective_names(tbl),
        r.id is None,
        tbl.dom().contains(vid),
        tbl[vid] == r.name,
    ensures
        resolved_ref_id(tbl, r) == vid,
{
    assert(exists|w: i64| tbl.dom().contains(w) && tbl[w] == r.name);
    let w = choose|w: i64| tbl.dom().contains(w) && tbl[w] == r.name;
    assert(tbl.dom().contains(w) && tbl[w] == r.name);
    assert(w == vid);
}

/// Growing a reference table while keeping names unique moves no resolved
/// identifier of references whose names the smaller table already holds.
pub proof fn lemma_link_targets_stable(
    tbl: Map<i64, Seq<char>>,
    tbl2: Map<i64, Seq<char>>,
    gid: i64,
    refs: Seq<RefEntityLabel>,
)
    requires
        table_extends(tbl, tbl2),
        injective_names(tbl2),
        forall|i: int|
            0 <= i < refs.len() ==> ((#[trigger] refs[i]).id is None ==> has_name(
                tbl,
                refs[i].name,
            )),
    ensures
        link_targets(tbl, gid, refs) == link_targets(tbl2, gid, refs),
    decreases refs.len(),
{
    if refs.len() > 0 {
        assert(forall|i: int|
            0 <= i < refs.drop_last().len() ==> ((#[trigger] refs.drop_last()[i]).id is None
                ==> has_name(tbl, refs.drop_last()[i].name))) by {
            assert(forall|i: int|
                0 <= i < refs.drop_last().len() ==> refs.drop_last()[i] == refs[i]);
        }
        lemma_link_targets_stable(tbl, tbl2, gid, refs.drop_last());
        let r = refs.last();
        if r.id is None {
            let w = choose|w: i64| tbl.dom().contains(w) && tbl[w] == r.name;
            assert(tbl.dom().contains(w) && tbl[w] == r.name);
            assert(tbl2.dom().contains(w) && tbl2[w] == r.name);
            lemma_resolved_id_is(tbl2, r, w);
            assert(resolved_ref_id(tbl, r) == w);
        }
    }
}

/// A nameless reference whose name the table lacks is counted among the
/// added names of any run it belongs to.
pub proof fn lemma_new_names_covers(tbl: Map<i64, Seq<char>>, refs: Seq<RefEntityLabel>, i: int)
    requires
        0 <= i < refs.len(),
        refs[i].id is None,
        !has_name(tbl, refs[i].name),
    ensures
        new_names(tbl, refs).contains(refs[i].name),
    decreases refs.len(),
{
    if i == refs.len() - 1 {
        assert(refs.last() == refs[i]);
    } else {
        assert(refs.drop_last()[i] == refs[i]);
        lemma_new_names_covers(tbl, refs.drop_last(), i);
    }
}

/// A run whose nameless references all carry names the table already
/// holds adds no names at all.
pub proof fn lemma_new_names_empty(tbl: Map<i64, Seq<char>>, refs: Seq<RefEntityLabel>)
    requires
        forall|i: int|
            0 <= i < refs.len() ==> ((#[trigger] refs[i]).id is None ==> has_name(
                tbl,
                refs[i].name,
            )),
    ensures
        new_names(tbl, refs) == Set::<Seq<char>>::empty(),
    decreases refs.len(),
{
    if refs.len() > 0 {
        assert(forall|i: int| 0 <= i < refs.drop_last().len() ==> refs.drop_last()[i] == refs[i]);
        lemma_new_names_empty(tbl, refs.drop_last());
        assert(refs.last() == refs[refs.len() - 1]);
        assert(new_names(tbl, refs) =~= Set::<Seq<char>>::empty());
    }
}

/// Every reference of a run contributes its resolved pair to the run's
/// link set.
pub proof fn lemma_link_targets_contains(
    tbl: Map<i64, Seq<char>>,
    gid: i64,
    refs: Seq<RefEntityLabel>,
    i: int,
)
    requires
        0 <= i < refs.len(),
    ensures
        link_targets(tbl, gid, refs).contains((gid, resolved_ref_id(tbl, refs[i]))),
    decreases refs.len(),
{
    if i == refs.len() - 1 {
        assert(refs.last() == refs[i]);
    } else {
        assert(refs.drop_last()[i] == refs[i]);
        lemma_link_targets_contains(tbl, gid, refs.drop_last(), i);
    }
}

/// Every pair of a run's link set belongs to the goat the run was for.
pub proof fn lemma_link_targets_fst(
    tbl: Map<i64, Seq<char>>,
    gid: i64,
    refs: Seq<RefEntityLabel>,
)
    ensures
        forall|p: (i64, i64)| #[trigger] link_targets(tbl, gid, refs).contains(p) ==> p.0 == gid,
    decreases refs.len(),
{
    if refs.len() > 0 {
        lemma_link_targets_fst(tbl, gid, refs.drop_last());
        assert forall|p: (i64, i64)| #[trigger]
            link_targets(tbl, gid, refs).contains(p) implies p.0 == gid by {
            if !link_targets(tbl, gid, refs.drop_last()).contains(p) {
                assert(p == (gid, resolved_ref_id(tbl, refs.last())));
            }
        }
    }
}

/// Under unique names, a name the table holds is carried by exactly one
/// row.
pub proof fn lemma_unique_reference_row(tbl: Map<i64, Seq<char>>, name: Seq<char>)
    requires
        tbl.dom().finite(),
        injective_names(tbl),
        has_name(tbl, name),
    ensures
        ids_with_name(tbl, name).len() == 1,
{
    let w = choose|w: i64| tbl.dom().contains(w) && tbl[w] == name;
    assert(tbl.dom().contains(w) && tbl[w] == name);
    assert(ids_with_name(tbl, name) =~= Set::empty().insert(w));
    assert(Set::<i64>::empty().insert(w).len() == 1);
}

/// A table extension that adds no rows is no change at all.
pub proof fn lemma_table_extends_same_len_equal(
    pre: Map<i64, Seq<char>>,
    post: Map<i64, Seq<char>>,
)
    requires
        pre.dom().finite(),
        post.dom().finite(),
        table_extends(pre, post),
        post.dom().len() == pre.dom().len(),
    ensures
        post == pre,
{
    assert(pre.dom().subset_of(post.dom()));
    assert forall|k: i64| #[trigger] post.dom().contains(k) implies pre.dom().contains(k) by {
        if !pre.dom().contains(k) {
            assert(pre.dom().subset_of(post.dom().remove(k)));
            vstd::set_lib::lemma_len_subset(pre.dom(), post.dom().remove(k));
            assert(post.dom().remove(k).len() == post.dom().len() - 1);
        }
    }
    assert(post.dom() =~= pre.dom());
    assert(post =~= pre);
}

/// A loaded relation list is exact: each entry is a linked reference with
/// its stored identifier and name, every linked reference appears, and no
/// entry is duplicated.
pub open spec fn relation_listed(
    tbl: Map<i64, Seq<char>>,
    links: Set<(i64, i64)>,
    gid: i64,
    refs: Seq<RefEntityLabel>,
) -> bool {
    &&& forall|i: int|
        0 <= i < refs.len() ==> (#[trigger] refs[i].id matches Some(vid) && links.contains(
            (gid, vid),
        ) && tbl.dom().contains(vid) && refs[i].name == tbl[vid])
    &&& forall|vid: i64|
        #[trigger] links.contains((gid, vid)) ==> exists|i: int|
            0 <= i < refs.len() && refs[i].id == Some(vid)
    &&& forall|i: int, j: int| 0 <= i < j < refs.len() ==> refs[i].id != refs[j].id
}

/// A fully loaded goat: the base row decoded, and both relation lists
/// exactly reflecting the link tables.
pub open spec fn loaded_goat(m: StoreModel, gid: i64, g: GoatLabel) -> bool {
    &&& m.goats.dom().contains(gid)
    &&& goat_matches_row(g, gid, m.goats[gid])
    &&& relation_listed(m.vaccines, m.goat_vaccines, gid, g.vaccinations)
    &&& relation_listed(m.diseases, m.goat_diseases, gid, g.diseases)
}

/// A goat value decodes this base row: identifier attached, enumerations
/// decoded from their stored text, scalars carried through.
pub open spec fn goat_matches_row(g: GoatLabel, gid: i64, row: GoatRowLabel) -> bool {
    &&& g.id == Some(gid)
    &&& g.breed == crate::codec::breed_of_text(row.breed)
    &&& crate::codec::gender_of_text(row.gender) == Some(g.gender)
    &&& g.name == row.name
    &&& g.offspring == row.offspring
    &&& g.cost == row.cost
    &&& g.weight == row.weight
    &&& g.current_price == row.current_price
    &&& g.diet == row.diet
    &&& g.last_bred == row.last_bred
    &&& g.health_status == row.health_status
}

} // verus!
