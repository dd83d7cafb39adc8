//! The entity repository: reference resolution and the five operations
//! (list, load, insert, replace, delete), verified against the store model.

use vstd::prelude::*;

use crate::codec::{breed_to_str, gender_of_text, gender_to_str, str_to_breed, str_to_gender};
use crate::errors::{AppError, StoreError};
use crate::model::{
    has_name, injective_names, link_targets, loaded_goat, new_names, ref_table_updated,
    relation_listed, resolve_ok, resolved_ref_id, table_extends, StoreModel,
};
use crate::models::{
    row_of_goat, valid_goat, DiseaseRef, Goat, GoatRow, RefEntityLabel, VaccineRef,
};
use crate::store::{
    begin_tx, commit_tx, delete_disease_links, delete_goat_row, delete_vaccine_links,
    engine_failure_outcome,
    find_disease_id, find_vaccine_id, insert_disease_link, insert_disease_row, insert_goat_row,
    insert_vaccine_link, insert_vaccine_row, query_diseases_of, query_goat_ids, query_goat_row,
    query_vaccines_of, rollback_tx, update_goat_row, Store,
};

verus! {

/// Resolves a vaccine reference inside the active transaction: a carried
/// identifier is trusted and returned at once; otherwise the name is looked
/// up, and inserted as a fresh row if absent.  Should the insert hit the
/// name's uniqueness constraint regardless, the lookup is retried once and
/// the existing row's identifier is returned instead of the failure.
pub(crate) fn get_or_insert_vaccine(s: &mut Store, vaccine: &VaccineRef) -> (r: Result<
    i64,
    AppError,
>)
    requires
        old(s).tx_open(),
        old(s)@.wf(),
    ensures
        final(s).committed() == old(s).committed(),
        match r {
            Ok(vid) => final(s).tx_open() && final(s)@.wf() && final(s)@.goats == old(s)@.goats
                && final(s)@.diseases == old(s)@.diseases && final(s)@.goat_vaccines == old(s)@.goat_vaccines && final(s)@.goat_diseases == old(s)@.goat_diseases && resolve_ok(
                old(s)@.vaccines,
                final(s)@.vaccines,
                vaccine@,
                vid,
            ),
            Err(e) => e is DbError && engine_failure_outcome(*old(s), *final(s)),
        },
        vaccine@.id matches Some(i) ==> (r matches Ok(vid) && vid == i && final(s)@ == old(s)@
            && final(s).tx_open()),
{
    match vaccine.id {
        Some(i) => Ok(i),
        None => {
            match find_vaccine_id(s, &vaccine.name) {
                Err(e) => Err(AppError::DbError(e)),
                Ok(Some(vid)) => Ok(vid),
                Ok(None) => {
                    let ghost pre = s@;
                    match insert_vaccine_row(s, &vaccine.name) {
                        Ok(vid) => {
                            proof {
                                lemma_fresh_name_keeps_wf(pre, s@.vaccines, vaccine.name@, vid);
                            }
                            Ok(vid)
                        },
                        Err(StoreError::Conflict) => {
                            // The engine reports the name as taken after all:
                            // retry the lookup once and hand back that row,
                            // rather than surfacing the constraint failure.
                            match find_vaccine_id(s, &vaccine.name) {
                                Ok(Some(vid)) => Ok(vid),
                                Ok(None) => Err(AppError::DbError(StoreError::Conflict)),
                                Err(e) => Err(AppError::DbError(e)),
                            }
                        },
                        Err(e) => Err(AppError::DbError(e)),
                    }
                },
            }
        },
    }
}

/// Like `get_or_insert_vaccine`, but for diseases.
pub(crate) fn get_or_insert_disease(s: &mut Store, disease: &DiseaseRef) -> (r: Result<
    i64,
    AppError,
>)
    requires
        old(s).tx_open(),
        old(s)@.wf(),
    ensures
        final(s).committed() == old(s).committed(),
        match r {
            Ok(did) => final(s).tx_open() && final(s)@.wf() && final(s)@.goats == old(s)@.goats
                && final(s)@.vaccines == old(s)@.vaccines && final(s)@.goat_vaccines == old(s)@.goat_vaccines && final(s)@.goat_diseases == old(s)@.goat_diseases && resolve_ok(
                old(s)@.diseases,
                final(s)@.diseases,
                disease@,
                did,
            ),
            Err(e) => e is DbError && engine_failure_outcome(*old(s), *final(s)),
        },
        disease@.id matches Some(i) ==> (r matches Ok(did) && did == i && final(s)@ == old(s)@
            && final(s).tx_open()),
{
    match disease.id {
        Some(i) => Ok(i),
        None => {
            match find_disease_id(s, &disease.name) {
                Err(e) => Err(AppError::DbError(e)),
                Ok(Some(did)) => Ok(did),
                Ok(None) => {
                    let ghost pre = s@;
                    match insert_disease_row(s, &disease.name) {
                        Ok(did) => {
                            proof {
                                lemma_fresh_name_keeps_wf_diseases(
                                    pre,
                                    s@.diseases,
                                    disease.name@,
                                    did,
                                );
                            }
                            Ok(did)
                        },
                        Err(StoreError::Conflict) => {
                            // The engine reports the name as taken after all:
                            // retry the lookup once and hand back that row,
                            // rather than surfacing the constraint failure.
                            match find_disease_id(s, &disease.name) {
                                Ok(Some(did)) => Ok(did),
                                Ok(None) => Err(AppError::DbError(StoreError::Conflict)),
                                Err(e) => Err(AppError::DbError(e)),
                            }
                        },
                        Err(e) => Err(AppError::DbError(e)),
                    }
                },
            }
        },
    }
}

/// Inserting a fresh name as a fresh row keeps a well-formed vaccine table
/// well formed in the surrounding store.
proof fn lemma_fresh_name_keeps_wf(
    pre: StoreModel,
    post_vaccines: Map<i64, Seq<char>>,
    name: Seq<char>,
    vid: i64,
)
    requires
        pre.wf(),
        !has_name(pre.vaccines, name),
        !pre.vaccines.dom().contains(vid),
        post_vaccines == pre.vaccines.insert(vid, name),
    ensures
        (StoreModel { vaccines: post_vaccines, ..pre }).wf(),
{
    let post = StoreModel { vaccines: post_vaccines, ..pre };
    assert(injective_names(post.vaccines)) by {
        assert forall|i: i64, j: i64|
            post_vaccines.dom().contains(i) && post_vaccines.dom().contains(j)
                && #[trigger] post_vaccines[i] == #[trigger] post_vaccines[j] implies i == j by {
            if i != vid && j != vid {
                assert(pre.vaccines[i] == pre.vaccines[j]);
            } else if i == vid && j != vid {
                assert(pre.vaccines.dom().contains(j) && pre.vaccines[j] == name);
            } else if i != vid && j == vid {
                assert(pre.vaccines.dom().contains(i) && pre.vaccines[i] == name);
            }
        }
    }
    assert(post.vaccines.dom() =~= pre.vaccines.dom().insert(vid));
}

/// Inserting a fresh name as a fresh row keeps a well-formed disease table
/// well formed in the surrounding store.
proof fn lemma_fresh_name_keeps_wf_diseases(
    pre: StoreModel,
    post_diseases: Map<i64, Seq<char>>,
    name: Seq<char>,
    did: i64,
)
    requires
        pre.wf(),
        !has_name(pre.diseases, name),
        !pre.diseases.dom().contains(did),
        post_diseases == pre.diseases.insert(did, name),
    ensures
        (StoreModel { diseases: post_diseases, ..pre }).wf(),
{
    let post = StoreModel { diseases: post_diseases, ..pre };
    assert(injective_names(post.diseases)) by {
        assert forall|i: i64, j: i64|
            post_diseases.dom().contains(i) && post_diseases.dom().contains(j)
                && #[trigger] post_diseases[i] == #[trigger] post_diseases[j] implies i == j by {
            if i != did && j != did {
                assert(pre.diseases[i] == pre.diseases[j]);
            } else if i == did && j != did {
                assert(pre.diseases.dom().contains(j) && pre.diseases[j] == name);
            } else if i != did && j == did {
                assert(pre.diseases.dom().contains(i) && pre.diseases[i] == name);
            }
        }
    }
    assert(post.diseases.dom() =~= pre.diseases.dom().insert(did));
}

/// Maps a flat base row to a `Goat` with decoded enumerations and empty
/// relation lists; fails with a parse error exactly when the stored gender
/// text is not canonical.
pub fn row_to_goat(goat_id: i64, row: &GoatRow) -> (r: Result<Goat, AppError>)
    ensures
        match r {
            Ok(g) => gender_of_text(row.gender@) is Some && crate::model::goat_matches_row(
                g@,
                goat_id,
                row@,
            ) && g@.vaccinations.len() == 0 && g@.diseases.len() == 0,
            Err(e) => gender_of_text(row.gender@) is None && (e matches AppError::ParseError(p)
                && p.input@ == row.gender@ && p.target_enum@ == "Gender"@),
        },
{
    let breed = match str_to_breed(row.breed.as_str()) {
        Ok(b) => b,
        Err(e) => return Err(e),
    };
    let gender = match str_to_gender(row.gender.as_str()) {
        Ok(g) => g,
        Err(e) => return Err(e),
    };
    let last_bred = match &row.last_bred {
        Some(d) => Some(d.clone()),
        None => None,
    };
    Ok(Goat {
        id: Some(goat_id),
        breed,
        name: row.name.clone(),
        gender,
        offspring: row.offspring,
        cost: row.cost,
        weight: row.weight,
        current_price: row.current_price,
        diet: row.diet.clone(),
        last_bred,
        health_status: row.health_status.clone(),
        vaccinations: Vec::new(),
        diseases: Vec::new(),
    })
}

impl Store {
    /// Returns every persisted goat identifier exactly once, in no
    /// guaranteed order.
    pub fn list_ids(&self) -> (r: Result<Vec<i64>, AppError>)
        requires
            self.inv(),
        ensures
            match r {
                Ok(ids) => ids@.no_duplicates() && ids@.len() == self@.goats.dom().len() && (
                forall|i: int|
                    0 <= i < ids@.len() ==> self@.goats.dom().contains(ids@[i])) && (forall|
                    gid: i64,
                |
                    self@.goats.dom().contains(gid) ==> ids@.contains(gid)),
                Err(e) => e is DbError,
            },
    {
        match query_goat_ids(self) {
            Ok(ids) => {
                proof {
                    ids@.unique_seq_to_set();
                    assert(ids@.to_set() =~= self@.goats.dom());
                }
                Ok(ids)
            },
            Err(e) => Err(AppError::DbError(e)),
        }
    }

    /// Fetches the vaccine references linked to a goat, exactly one entry
    /// per link row, each carrying its stored identifier and name.
    pub fn fetch_vaccines(&self, goat_id: i64) -> (r: Result<Vec<VaccineRef>, AppError>)
        requires
            self.inv(),
        ensures
            match r {
                Ok(v) => relation_listed(
                    self@.vaccines,
                    self@.goat_vaccines,
                    goat_id,
                    v.deep_view(),
                ),
                Err(e) => e is DbError,
            },
    {
        let rows = match query_vaccines_of(self, goat_id) {
            Ok(r) => r,
            Err(e) => return Err(AppError::DbError(e)),
        };
        let mut out: Vec<VaccineRef> = Vec::new();
        let mut i: usize = 0;
        while i < rows.len()
            invariant
                0 <= i <= rows@.len(),
                out@.len() == i,
                forall|j: int|
                    0 <= j < i ==> (#[trigger] out@[j])@.id == Some(rows@[j].id) && out@[j]@.name
                        == rows@[j].name@,
            decreases rows@.len() - i,
        {
            let row = &rows[i];
            out.push(VaccineRef { id: Some(row.id), name: row.name.clone() });
            i += 1;
        }
        proof {
            let dv = out.deep_view();
            assert(forall|j: int| 0 <= j < dv.len() ==> dv[j] == (#[trigger] out@[j])@);
            assert forall|vid: i64| #[trigger]
                self@.goat_vaccines.contains((goat_id, vid)) implies exists|k: int|
                0 <= k < dv.len() && dv[k].id == Some(vid) by {
                let k = choose|k: int| 0 <= k < rows@.len() && rows@[k].id == vid;
                assert(dv[k].id == Some(vid));
            }
        }
        Ok(out)
    }

    /// Fetches the disease references linked to a goat, exactly one entry
    /// per link row, each carrying its stored identifier and name.
    pub fn fetch_diseases(&self, goat_id: i64) -> (r: Result<Vec<DiseaseRef>, AppError>)
        requires
            self.inv(),
        ensures
            match r {
                Ok(v) => relation_listed(
                    self@.diseases,
                    self@.goat_diseases,
                    goat_id,
                    v.deep_view(),
                ),
                Err(e) => e is DbError,
            },
    {
        let rows = match query_diseases_of(self, goat_id) {
            Ok(r) => r,
            Err(e) => return Err(AppError::DbError(e)),
        };
        let mut out: Vec<DiseaseRef> = Vec::new();
        let mut i: usize = 0;
        while i < rows.len()
            invariant
                0 <= i <= rows@.len(),
                out@.len() == i,
                forall|j: int|
                    0 <= j < i ==> (#[trigger] out@[j])@.id == Some(rows@[j].id) && out@[j]@.name
                        == rows@[j].name@,
            decreases rows@.len() - i,
        {
            let row = &rows[i];
            out.push(DiseaseRef { id: Some(row.id), name: row.name.clone() });
            i += 1;
        }
        proof {
            let dv = out.deep_view();
            assert(forall|j: int| 0 <= j < dv.len() ==> dv[j] == (#[trigger] out@[j])@);
            assert forall|did: i64| #[trigger]
                self@.goat_diseases.contains((goat_id, did)) implies exists|k: int|
                0 <= k < dv.len() && dv[k].id == Some(did) by {
                let k = choose|k: int| 0 <= k < rows@.len() && rows@[k].id == did;
                assert(dv[k].id == Some(did));
            }
        }
        Ok(out)
    }

    /// Loads the full details of a goat: the base row with decoded
    /// enumerations, and both relation lists exactly reflecting the link
    /// tables, all read on this one handle.
    pub fn load_goat_details(&self, goat_id: i64) -> (r: Result<Goat, AppError>)
        requires
            self.inv(),
        ensures
            match r {
                Ok(g) => loaded_goat(self@, goat_id, g@),
                Err(e) => match e {
                    AppError::NotFound(missing) => missing == goat_id
                        && !self@.goats.dom().contains(goat_id),
                    AppError::ParseError(p) => self@.goats.dom().contains(goat_id)
                        && gender_of_text(self@.goats[goat_id].gender) is None && p.input@
                        == self@.goats[goat_id].gender,
                    AppError::DbError(_) => true,
                    AppError::InvalidInput(_) => false,
                },
            },
    {
        let row = match query_goat_row(self, goat_id) {
            Ok(Some(row)) => row,
            Ok(None) => return Err(AppError::NotFound(goat_id)),
            Err(e) => return Err(AppError::DbError(e)),
        };
        let mut goat = match row_to_goat(goat_id, &row) {
            Ok(g) => g,
            Err(e) => return Err(e),
        };
        goat.vaccinations = match self.fetch_vaccines(goat_id) {
            Ok(v) => v,
            Err(e) => return Err(e),
        };
        goat.diseases = match self.fetch_diseases(goat_id) {
            Ok(v) => v,
            Err(e) => return Err(e),
        };
        Ok(goat)
    }
}

/// Builds the flat base row a goat is stored as.
fn goat_to_row(goat: &Goat) -> (r: GoatRow)
    ensures
        r@ == row_of_goat(goat@),
{
    let last_bred = match &goat.last_bred {
        Some(d) => Some(d.clone()),
        None => None,
    };
    GoatRow {
        breed: breed_to_str(&goat.breed).to_owned(),
        name: goat.name.clone(),
        gender: gender_to_str(&goat.gender).to_owned(),
        offspring: goat.offspring,
        cost: goat.cost,
        weight: goat.weight,
        current_price: goat.current_price,
        diet: goat.diet.clone(),
        last_bred,
        health_status: goat.health_status.clone(),
    }
}

/// Resolves every vaccine reference of a goat and links each resolved row
/// to it exactly once, inside the active transaction.  The goat must hold
/// no vaccine links yet; duplicate references resolve to the same row and
/// produce a single link.
fn link_vaccines(s: &mut Store, gid: i64, refs: &Vec<VaccineRef>) -> (r: Result<(), AppError>)
    requires
        old(s).tx_open(),
        old(s)@.wf(),
        old(s)@.goats.dom().contains(gid),
        forall|vid: i64| !old(s)@.goat_vaccines.contains((gid, vid)),
    ensures
        final(s).committed() == old(s).committed(),
        match r {
            Ok(()) => final(s).tx_open() && final(s)@.wf() && final(s)@.goats == old(s)@.goats
                && final(s)@.diseases == old(s)@.diseases && final(s)@.goat_diseases == old(s)@.goat_diseases
                && ref_table_updated(old(s)@.vaccines, final(s)@.vaccines, refs.deep_view())
                && final(s)@.goat_vaccines == old(s)@.goat_vaccines + link_targets(
                final(s)@.vaccines,
                gid,
                refs.deep_view(),
            ),
            Err(e) => e is DbError,
        },
{
    let ghost pre = old(s)@;
    let ghost dv = refs.deep_view();
    let mut linked: Vec<i64> = Vec::new();
    let mut i: usize = 0;
    proof {
        assert(dv.take(0) =~= Seq::<RefEntityLabel>::empty());
        assert(s@.goat_vaccines =~= pre.goat_vaccines + link_targets(s@.vaccines, gid, dv.take(0)));
    }
    while i < refs.len()
        invariant
            0 <= i <= refs@.len(),
            dv == refs.deep_view(),
            dv.len() == refs@.len(),
            s.tx_open(),
            s.committed() == old(s).committed(),
            s@.wf(),
            s@.goats == pre.goats,
            s@.diseases == pre.diseases,
            s@.goat_diseases == pre.goat_diseases,
            pre.wf(),
            pre.goats.dom().contains(gid),
            forall|vid: i64| !pre.goat_vaccines.contains((gid, vid)),
            ref_table_updated(pre.vaccines, s@.vaccines, dv.take(i as int)),
            s@.goat_vaccines == pre.goat_vaccines + link_targets(
                s@.vaccines,
                gid,
                dv.take(i as int),
            ),
            forall|j: int|
                0 <= j < i ==> ((#[trigger] dv[j]).id is None ==> has_name(
                    s@.vaccines,
                    dv[j].name,
                )),
            forall|vid: i64| #[trigger]
                linked@.contains(vid) <==> s@.goat_vaccines.contains((gid, vid)),
        decreases refs@.len() - i,
    {
        proof {
            assert(dv[i as int] == refs@[i as int]@);
        }
        let ghost tbl0 = s@.vaccines;
        let ghost gv0 = s@.goat_vaccines;
        let ghost nn_i = new_names(pre.vaccines, dv.take(i as int));
        let vid = match get_or_insert_vaccine(s, &refs[i]) {
            Ok(v) => v,
            Err(e) => return Err(e),
        };
        let ghost tbl1 = s@.vaccines;
        let ghost rv = dv[i as int];
        proof {
            crate::model::lemma_new_names_step(pre.vaccines, dv, i as int);
            let nn_i1 = new_names(pre.vaccines, dv.take(i as int + 1));
            crate::model::lemma_new_names_finite(pre.vaccines, dv.take(i as int));
            if rv.id is Some {
                assert(tbl1 == tbl0);
                assert(nn_i1 == nn_i);
            } else if has_name(tbl0, rv.name) {
                assert(tbl1 == tbl0);
                if has_name(pre.vaccines, rv.name) {
                    assert(nn_i1 == nn_i);
                } else {
                    assert(nn_i.contains(rv.name));
                    assert(nn_i.insert(rv.name) =~= nn_i);
                    assert(nn_i1 == nn_i);
                }
            } else {
                // a fresh row was created for a fresh name
                assert(!has_name(pre.vaccines, rv.name)) by {
                    if has_name(pre.vaccines, rv.name) {
                        let w = choose|w: i64|
                            pre.vaccines.dom().contains(w) && pre.vaccines[w] == rv.name;
                        assert(tbl0.dom().contains(w) && tbl0[w] == rv.name);
                    }
                }
                assert(!nn_i.contains(rv.name));
                assert(nn_i1 == nn_i.insert(rv.name));
                assert(tbl1 == tbl0.insert(vid, rv.name));
                assert(!tbl0.dom().contains(vid));
                assert(tbl1.dom() =~= tbl0.dom().insert(vid));
                assert(!pre.vaccines.dom().contains(vid));
                assert(table_extends(pre.vaccines, tbl1)) by {
                    assert forall|k: i64| #[trigger] pre.vaccines.dom().contains(k) implies
                        tbl1.dom().contains(k) && pre.vaccines[k] == tbl1[k] by {
                        assert(tbl0.dom().contains(k) && pre.vaccines[k] == tbl0[k]);
                    }
                }
                assert(forall|n: Seq<char>| #[trigger]
                    has_name(tbl1, n) <==> has_name(pre.vaccines, n) || nn_i1.contains(n)) by {
                    assert forall|n: Seq<char>| #[trigger] has_name(tbl1, n) implies has_name(
                        pre.vaccines,
                        n,
                    ) || nn_i1.contains(n) by {
                        let w = choose|w: i64| tbl1.dom().contains(w) && tbl1[w] == n;
                        assert(tbl1.dom().contains(w) && tbl1[w] == n);
                        if w != vid {
                            assert(tbl0.dom().contains(w) && tbl0[w] == n);
                            assert(has_name(tbl0, n));
                        }
                    }
                    assert forall|n: Seq<char>|
                        has_name(pre.vaccines, n) || nn_i1.contains(n) implies #[trigger] has_name(
                        tbl1,
                        n,
                    ) by {
                        if has_name(pre.vaccines, n) || nn_i.contains(n) {
                            assert(has_name(tbl0, n));
                            let w = choose|w: i64| tbl0.dom().contains(w) && tbl0[w] == n;
                            assert(tbl1.dom().contains(w) && tbl1[w] == n);
                        } else {
                            assert(n == rv.name);
                            assert(tbl1.dom().contains(vid) && tbl1[vid] == n);
                        }
                    }
                }
                assert(tbl1.dom().len() == tbl0.dom().len() + 1);
                assert(nn_i1.len() == nn_i.len() + 1);
                assert(forall|w: i64| #[trigger]
                    tbl1.dom().contains(w) && !pre.vaccines.dom().contains(w)
                        ==> nn_i1.contains(tbl1[w])) by {
                    assert forall|w: i64| #[trigger]
                        tbl1.dom().contains(w) && !pre.vaccines.dom().contains(w) implies
                        nn_i1.contains(tbl1[w]) by {
                        if w != vid {
                            assert(tbl0.dom().contains(w) && tbl1[w] == tbl0[w]);
                            assert(nn_i.contains(tbl0[w]));
                        }
                    }
                }
            }
            assert(ref_table_updated(pre.vaccines, tbl1, dv.take(i as int + 1)));
            // names of already-processed references stay present
            assert(table_extends(tbl0, tbl1));
            assert forall|j: int|
                0 <= j < i + 1 implies ((#[trigger] dv[j]).id is None ==> has_name(
                tbl1,
                dv[j].name,
            )) by {
                if dv[j].id is None {
                    if j < i {
                        let w = choose|w: i64| tbl0.dom().contains(w) && tbl0[w] == dv[j].name;
                        assert(tbl0.dom().contains(w) && tbl0[w] == dv[j].name);
                        assert(tbl1.dom().contains(w) && tbl1[w] == dv[j].name);
                    } else {
                        if has_name(tbl0, rv.name) {
                            let w = choose|w: i64| tbl0.dom().contains(w) && tbl0[w] == rv.name;
                            assert(tbl0.dom().contains(w) && tbl0[w] == rv.name);
                            assert(tbl1.dom().contains(w) && tbl1[w] == rv.name);
                        } else {
                            assert(tbl1.dom().contains(vid) && tbl1[vid] == rv.name);
                        }
                    }
                }
            }
            // earlier link pairs are unmoved by the growth of the table
            assert(forall|j: int|
                0 <= j < dv.take(i as int).len() ==> dv.take(i as int)[j] == dv[j]);
            crate::model::lemma_link_targets_stable(tbl0, tbl1, gid, dv.take(i as int));
            assert(s@.goat_vaccines == pre.goat_vaccines + link_targets(
                tbl1,
                gid,
                dv.take(i as int),
            ));
            crate::model::lemma_link_targets_step(tbl1, gid, dv, i as int);
            // the reference resolves to the row we linked
            if rv.id is None {
                if has_name(tbl0, rv.name) {
                    crate::model::lemma_resolved_id_is(tbl1, rv, vid);
                } else {
                    assert(tbl1.dom().contains(vid) && tbl1[vid] == rv.name);
                    crate::model::lemma_resolved_id_is(tbl1, rv, vid);
                }
            }
            assert(resolved_ref_id(tbl1, rv) == vid);
        }
        let ghost gv1 = s@.goat_vaccines;
        let ghost lt_i = link_targets(tbl1, gid, dv.take(i as int));
        let ghost oldl = linked@;
        if !contains_id(&linked, vid) {
            match insert_vaccine_link(s, gid, vid) {
                Ok(()) => {},
                Err(e) => return Err(AppError::DbError(e)),
            }
            linked.push(vid);
            proof {
                assert(s@.goat_vaccines == gv1.insert((gid, vid)));
                assert(s@.goat_vaccines =~= pre.goat_vaccines + lt_i.insert((gid, vid)));
                // the dedup list matches the linked pairs
                assert forall|v: i64| #[trigger] linked@.contains(v) implies
                    s@.goat_vaccines.contains((gid, v)) by {
                    let k = choose|k: int| 0 <= k < linked@.len() && linked@[k] == v;
                    if k < oldl.len() {
                        assert(oldl[k] == v);
                        assert(oldl.contains(v));
                    } else {
                        assert(v == vid);
                    }
                }
                assert forall|v: i64| #[trigger] s@.goat_vaccines.contains((gid, v)) implies
                    linked@.contains(v) by {
                    if v == vid {
                        assert(linked@[linked@.len() - 1] == vid);
                    } else {
                        assert(gv1.contains((gid, v)));
                        assert(oldl.contains(v));
                        let k = choose|k: int| 0 <= k < oldl.len() && oldl[k] == v;
                        assert(linked@[k] == v);
                    }
                }
            }
        } else {
            proof {
                assert(gv1.contains((gid, vid)));
                assert(gv1 =~= pre.goat_vaccines + lt_i.insert((gid, vid)));
            }
        }
        proof {
            assert(s@.goat_vaccines == pre.goat_vaccines + link_targets(
                s@.vaccines,
                gid,
                dv.take(i as int + 1),
            ));
            assert(forall|v: i64| #[trigger]
                linked@.contains(v) <==> s@.goat_vaccines.contains((gid, v)));
            // the new pair's endpoints exist, so well-formedness holds
            assert(s@.wf()) by {
                assert forall|p: (i64, i64)| #[trigger] s@.goat_vaccines.contains(p) implies
                    s@.goats.dom().contains(p.0) && s@.vaccines.dom().contains(p.1) by {
                    if !gv1.contains(p) {
                        assert(p == (gid, vid));
                    }
                }
            }
        }
        i += 1;
    }
    proof {
        assert(dv.take(dv.len() as int) =~= dv);
    }
    Ok(())
}

/// Resolves every disease reference of a goat and links each resolved row
/// to it exactly once, inside the active transaction.  The goat must hold
/// no disease links yet; duplicate references resolve to the same row and
/// produce a single link.
fn link_diseases(s: &mut Store, gid: i64, refs: &Vec<DiseaseRef>) -> (r: Result<(), AppError>)
    requires
        old(s).tx_open(),
        old(s)@.wf(),
        old(s)@.goats.dom().contains(gid),
        forall|vid: i64| !old(s)@.goat_diseases.contains((gid, vid)),
    ensures
        final(s).committed() == old(s).committed(),
        match r {
            Ok(()) => final(s).tx_open() && final(s)@.wf() && final(s)@.goats == old(s)@.goats
                && final(s)@.vaccines == old(s)@.vaccines && final(s)@.goat_vaccines == old(s)@.goat_vaccines
                && ref_table_updated(old(s)@.diseases, final(s)@.diseases, refs.deep_view())
                && final(s)@.goat_diseases == old(s)@.goat_diseases + link_targets(
                final(s)@.diseases,
                gid,
                refs.deep_view(),
            ),
            Err(e) => e is DbError,
        },
{
    let ghost pre = old(s)@;
    let ghost dv = refs.deep_view();
    let mut linked: Vec<i64> = Vec::new();
    let mut i: usize = 0;
    proof {
        assert(dv.take(0) =~= Seq::<RefEntityLabel>::empty());
        assert(s@.goat_diseases =~= pre.goat_diseases + link_targets(s@.diseases, gid, dv.take(0)));
    }
    while i < refs.len()
        invariant
            0 <= i <= refs@.len(),
            dv == refs.deep_view(),
            dv.len() == refs@.len(),
            s.tx_open(),
            s.committed() == old(s).committed(),
            s@.wf(),
            s@.goats == pre.goats,
            s@.vaccines == pre.vaccines,
            s@.goat_vaccines == pre.goat_vaccines,
            pre.wf(),
            pre.goats.dom().contains(gid),
            forall|vid: i64| !pre.goat_diseases.contains((gid, vid)),
            ref_table_updated(pre.diseases, s@.diseases, dv.take(i as int)),
            s@.goat_diseases == pre.goat_diseases + link_targets(
                s@.diseases,
                gid,
                dv.take(i as int),
            ),
            forall|j: int|
                0 <= j < i ==> ((#[trigger] dv[j]).id is None ==> has_name(
                    s@.diseases,
                    dv[j].name,
                )),
            forall|vid: i64| #[trigger]
                linked@.contains(vid) <==> s@.goat_diseases.contains((gid, vid)),
        decreases refs@.len() - i,
    {
        proof {
            assert(dv[i as int] == refs@[i as int]@);
        }
        let ghost tbl0 = s@.diseases;
        let ghost gv0 = s@.goat_diseases;
        let ghost nn_i = new_names(pre.diseases, dv.take(i as int));
        let vid = match get_or_insert_disease(s, &refs[i]) {
            Ok(v) => v,
            Err(e) => return Err(e),
        };
        let ghost tbl1 = s@.diseases;
        let ghost rv = dv[i as int];
        proof {
            crate::model::lemma_new_names_step(pre.diseases, dv, i as int);
            let nn_i1 = new_names(pre.diseases, dv.take(i as int + 1));
            crate::model::lemma_new_names_finite(pre.diseases, dv.take(i as int));
            if rv.id is Some {
                assert(tbl1 == tbl0);
                assert(nn_i1 == nn_i);
            } else if has_name(tbl0, rv.name) {
                assert(tbl1 == tbl0);
                if has_name(pre.diseases, rv.name) {
                    assert(nn_i1 == nn_i);
                } else {
                    assert(nn_i.contains(rv.name));
                    assert(nn_i.insert(rv.name) =~= nn_i);
                    assert(nn_i1 == nn_i);
                }
            } else {
                // a fresh row was created for a fresh name
                assert(!has_name(pre.diseases, rv.name)) by {
                    if has_name(pre.diseases, rv.name) {
                        let w = choose|w: i64|
                            pre.diseases.dom().contains(w) && pre.diseases[w] == rv.name;
                        assert(tbl0.dom().contains(w) && tbl0[w] == rv.name);
                    }
                }
                assert(!nn_i.contains(rv.name));
                assert(nn_i1 == nn_i.insert(rv.name));
                assert(tbl1 == tbl0.insert(vid, rv.name));
                assert(!tbl0.dom().contains(vid));
                assert(tbl1.dom() =~= tbl0.dom().insert(vid));
                assert(!pre.diseases.dom().contains(vid));
                assert(table_extends(pre.diseases, tbl1)) by {
                    assert forall|k: i64| #[trigger] pre.diseases.dom().contains(k) implies
                        tbl1.dom().contains(k) && pre.diseases[k] == tbl1[k] by {
                        assert(tbl0.dom().contains(k) && pre.diseases[k] == tbl0[k]);
                    }
                }
                assert(forall|n: Seq<char>| #[trigger]
                    has_name(tbl1, n) <==> has_name(pre.diseases, n) || nn_i1.contains(n)) by {
                    assert forall|n: Seq<char>| #[trigger] has_name(tbl1, n) implies has_name(
                        pre.diseases,
                        n,
                    ) || nn_i1.contains(n) by {
                        let w = choose|w: i64| tbl1.dom().contains(w) && tbl1[w] == n;
                        assert(tbl1.dom().contains(w) && tbl1[w] == n);
                        if w != vid {
                            assert(tbl0.dom().contains(w) && tbl0[w] == n);
                            assert(has_name(tbl0, n));
                        }
                    }
                    assert forall|n: Seq<char>|
                        has_name(pre.diseases, n) || nn_i1.contains(n) implies #[trigger] has_name(
                        tbl1,
                        n,
                    ) by {
                        if has_name(pre.diseases, n) || nn_i.contains(n) {
                            assert(has_name(tbl0, n));
                            let w = choose|w: i64| tbl0.dom().contains(w) && tbl0[w] == n;
                            assert(tbl1.dom().contains(w) && tbl1[w] == n);
                        } else {
                            assert(n == rv.name);
                            assert(tbl1.dom().contains(vid) && tbl1[vid] == n);
                        }
                    }
                }
                assert(tbl1.dom().len() == tbl0.dom().len() + 1);
                assert(nn_i1.len() == nn_i.len() + 1);
                assert(forall|w: i64| #[trigger]
                    tbl1.dom().contains(w) && !pre.diseases.dom().contains(w)
                        ==> nn_i1.contains(tbl1[w])) by {
                    assert forall|w: i64| #[trigger]
                        tbl1.dom().contains(w) && !pre.diseases.dom().contains(w) implies
                        nn_i1.contains(tbl1[w]) by {
                        if w != vid {
                            assert(tbl0.dom().contains(w) && tbl1[w] == tbl0[w]);
                            assert(nn_i.contains(tbl0[w]));
                        }
                    }
                }
            }
            assert(ref_table_updated(pre.diseases, tbl1, dv.take(i as int + 1)));
            // names of already-processed references stay present
            assert(table_extends(tbl0, tbl1));
            assert forall|j: int|
                0 <= j < i + 1 implies ((#[trigger] dv[j]).id is None ==> has_name(
                tbl1,
                dv[j].name,
            )) by {
                if dv[j].id is None {
                    if j < i {
                        let w = choose|w: i64| tbl0.dom().contains(w) && tbl0[w] == dv[j].name;
                        assert(tbl0.dom().contains(w) && tbl0[w] == dv[j].name);
                        assert(tbl1.dom().contains(w) && tbl1[w] == dv[j].name);
                    } else {
                        if has_name(tbl0, rv.name) {
                            let w = choose|w: i64| tbl0.dom().contains(w) && tbl0[w] == rv.name;
                            assert(tbl0.dom().contains(w) && tbl0[w] == rv.name);
                            assert(tbl1.dom().contains(w) && tbl1[w] == rv.name);
                        } else {
                            assert(tbl1.dom().contains(vid) && tbl1[vid] == rv.name);
                        }
                    }
                }
            }
            // earlier link pairs are unmoved by the growth of the table
            assert(forall|j: int|
                0 <= j < dv.take(i as int).len() ==> dv.take(i as int)[j] == dv[j]);
            crate::model::lemma_link_targets_stable(tbl0, tbl1, gid, dv.take(i as int));
            assert(s@.goat_diseases == pre.goat_diseases + link_targets(
                tbl1,
                gid,
                dv.take(i as int),
            ));
            crate::model::lemma_link_targets_step(tbl1, gid, dv, i as int);
            // the reference resolves to the row we linked
            if rv.id is None {
                if has_name(tbl0, rv.name) {
                    crate::model::lemma_resolved_id_is(tbl1, rv, vid);
                } else {
                    assert(tbl1.dom().contains(vid) && tbl1[vid] == rv.name);
                    crate::model::lemma_resolved_id_is(tbl1, rv, vid);
                }
            }
            assert(resolved_ref_id(tbl1, rv) == vid);
        }
        let ghost gv1 = s@.goat_diseases;
        let ghost lt_i = link_targets(tbl1, gid, dv.take(i as int));
        let ghost oldl = linked@;
        if !contains_id(&linked, vid) {
            match insert_disease_link(s, gid, vid) {
                Ok(()) => {},
                Err(e) => return Err(AppError::DbError(e)),
            }
            linked.push(vid);
            proof {
                assert(s@.goat_diseases == gv1.insert((gid, vid)));
                assert(s@.goat_diseases =~= pre.goat_diseases + lt_i.insert((gid, vid)));
                // the dedup list matches the linked pairs
                assert forall|v: i64| #[trigger] linked@.contains(v) implies
                    s@.goat_diseases.contains((gid, v)) by {
                    let k = choose|k: int| 0 <= k < linked@.len() && linked@[k] == v;
                    if k < oldl.len() {
                        assert(oldl[k] == v);
                        assert(oldl.contains(v));
                    } else {
                        assert(v == vid);
                    }
                }
                assert forall|v: i64| #[trigger] s@.goat_diseases.contains((gid, v)) implies
                    linked@.contains(v) by {
                    if v == vid {
                        assert(linked@[linked@.len() - 1] == vid);
                    } else {
                        assert(gv1.contains((gid, v)));
                        assert(oldl.contains(v));
                        let k = choose|k: int| 0 <= k < oldl.len() && oldl[k] == v;
                        assert(linked@[k] == v);
                    }
                }
            }
        } else {
            proof {
                assert(gv1.contains((gid, vid)));
                assert(gv1 =~= pre.goat_diseases + lt_i.insert((gid, vid)));
            }
        }
        proof {
            assert(s@.goat_diseases == pre.goat_diseases + link_targets(
                s@.diseases,
                gid,
                dv.take(i as int + 1),
            ));
            assert(forall|v: i64| #[trigger]
                linked@.contains(v) <==> s@.goat_diseases.contains((gid, v)));
            // the new pair's endpoints exist, so well-formedness holds
            assert(s@.wf()) by {
                assert forall|p: (i64, i64)| #[trigger] s@.goat_diseases.contains(p) implies
                    s@.goats.dom().contains(p.0) && s@.diseases.dom().contains(p.1) by {
                    if !gv1.contains(p) {
                        assert(p == (gid, vid));
                    }
                }
            }
        }
        i += 1;
    }
    proof {
        assert(dv.take(dv.len() as int) =~= dv);
    }
    Ok(())
}

impl Store {
    /// Inserts a goat with its relations as one transaction: the base row,
    /// then every vaccination and disease reference resolved and linked.
    /// Hands back the new goat's identifier.  On any failure the whole
    /// transaction is rolled back and the store is unchanged.
    pub fn insert(&mut self, goat: &Goat) -> (r: Result<i64, AppError>)
        requires
            old(self).inv(),
        ensures
            final(self).inv(),
            match r {
                Ok(gid) => valid_goat(goat@) && crate::model::insert_post(
                    old(self)@,
                    final(self)@,
                    goat@,
                    gid,
                ),
                Err(e) => final(self)@ == old(self)@ && match e {
                    AppError::InvalidInput(_) => !valid_goat(goat@),
                    AppError::DbError(_) => valid_goat(goat@),
                    _ => false,
                },
            },
            (r matches Err(AppError::InvalidInput(_))) <==> !valid_goat(goat@),
    {
        if goat.offspring < 0 {
            return Err(
                AppError::InvalidInput("the offspring count must be non-negative".to_owned()),
            );
        }
        if let Err(e) = begin_tx(self) {
            return Err(AppError::DbError(e));
        }
        let ghost m0 = old(self)@;
        let row = goat_to_row(goat);
        let gid = match insert_goat_row(self, &row) {
            Ok(gid) => gid,
            Err(e) => {
                rollback_tx(self);
                return Err(AppError::DbError(e));
            },
        };
        proof {
            assert(self@.goats.dom() =~= m0.goats.dom().insert(gid));
            assert(self@.wf());
            assert forall|vid: i64| !self@.goat_vaccines.contains((gid, vid)) by {
                if self@.goat_vaccines.contains((gid, vid)) {
                    assert(m0.goats.dom().contains(gid));
                }
            }
            assert forall|did: i64| !self@.goat_diseases.contains((gid, did)) by {
                if self@.goat_diseases.contains((gid, did)) {
                    assert(m0.goats.dom().contains(gid));
                }
            }
        }
        if let Err(e) = link_vaccines(self, gid, &goat.vaccinations) {
            rollback_tx(self);
            return Err(e);
        }
        if let Err(e) = link_diseases(self, gid, &goat.diseases) {
            rollback_tx(self);
            return Err(e);
        }
        match commit_tx(self) {
            Ok(()) => {
                proof {
                    assert(crate::model::insert_post(m0, self@, goat@, gid));
                }
                Ok(gid)
            },
            Err(e) => {
                rollback_tx(self);
                Err(AppError::DbError(e))
            },
        }
    }

    /// Replaces an existing goat as one transaction: the base row is
    /// updated in place, every old link row of the goat is deleted, and
    /// the full link set is resolved and re-inserted from the supplied
    /// goat.  Fails with `NotFound` (store unchanged) when the identifier
    /// does not exist; on any failure the transaction is rolled back.
    pub fn replace(&mut self, goat_id: i64, goat: &Goat) -> (r: Result<(), AppError>)
        requires
            old(self).inv(),
        ensures
            final(self).inv(),
            match r {
                Ok(()) => valid_goat(goat@) && crate::model::replace_post(
                    old(self)@,
                    final(self)@,
                    goat_id,
                    goat@,
                ),
                Err(e) => final(self)@ == old(self)@ && match e {
                    AppError::NotFound(missing) => missing == goat_id && !old(
                        self,
                    )@.goats.dom().contains(goat_id),
                    AppError::InvalidInput(_) => !valid_goat(goat@),
                    AppError::DbError(_) => valid_goat(goat@),
                    AppError::ParseError(_) => false,
                },
            },
            (r matches Err(AppError::InvalidInput(_))) <==> !valid_goat(goat@),
    {
        if goat.offspring < 0 {
            return Err(
                AppError::InvalidInput("the offspring count must be non-negative".to_owned()),
            );
        }
        if let Err(e) = begin_tx(self) {
            return Err(AppError::DbError(e));
        }
        let ghost m0 = old(self)@;
        let row = goat_to_row(goat);
        let n = match update_goat_row(self, goat_id, &row) {
            Ok(n) => n,
            Err(e) => {
                rollback_tx(self);
                return Err(AppError::DbError(e));
            },
        };
        if n == 0 {
            rollback_tx(self);
            return Err(AppError::NotFound(goat_id));
        }
        proof {
            assert(m0.goats.dom().contains(goat_id));
            assert(self@.goats.dom() =~= m0.goats.dom());
            assert(self@.wf());
        }
        if let Err(e) = delete_vaccine_links(self, goat_id) {
            rollback_tx(self);
            return Err(AppError::DbError(e));
        }
        if let Err(e) = delete_disease_links(self, goat_id) {
            rollback_tx(self);
            return Err(AppError::DbError(e));
        }
        proof {
            m0.goat_vaccines.lemma_len_filter(|p: (i64, i64)| p.0 != goat_id);
            m0.goat_diseases.lemma_len_filter(|p: (i64, i64)| p.0 != goat_id);
            assert(self@.wf());
            assert(forall|vid: i64| !self@.goat_vaccines.contains((goat_id, vid)));
            assert(forall|did: i64| !self@.goat_diseases.contains((goat_id, did)));
        }
        if let Err(e) = link_vaccines(self, goat_id, &goat.vaccinations) {
            rollback_tx(self);
            return Err(e);
        }
        if let Err(e) = link_diseases(self, goat_id, &goat.diseases) {
            rollback_tx(self);
            return Err(e);
        }
        match commit_tx(self) {
            Ok(()) => {
                proof {
                    assert(crate::model::replace_post(m0, self@, goat_id, goat@));
                }
                Ok(())
            },
            Err(e) => {
                rollback_tx(self);
                Err(AppError::DbError(e))
            },
        }
    }

    /// Deletes a goat as one transaction: its link rows in both link
    /// tables, then its base row.  The shared vaccine and disease rows it
    /// referenced stay.  Fails with `NotFound` (store unchanged) when the
    /// identifier does not exist.
    pub fn delete(&mut self, goat_id: i64) -> (r: Result<(), AppError>)
        requires
            old(self).inv(),
        ensures
            final(self).inv(),
            match r {
                Ok(()) => crate::model::delete_post(old(self)@, final(self)@, goat_id),
                Err(e) => final(self)@ == old(self)@ && match e {
                    AppError::NotFound(missing) => missing == goat_id && !old(
                        self,
                    )@.goats.dom().contains(goat_id),
                    AppError::DbError(_) => true,
                    _ => false,
                },
            },
    {
        if let Err(e) = begin_tx(self) {
            return Err(AppError::DbError(e));
        }
        let ghost m0 = old(self)@;
        if let Err(e) = delete_vaccine_links(self, goat_id) {
            rollback_tx(self);
            return Err(AppError::DbError(e));
        }
        if let Err(e) = delete_disease_links(self, goat_id) {
            rollback_tx(self);
            return Err(AppError::DbError(e));
        }
        let n = match delete_goat_row(self, goat_id) {
            Ok(n) => n,
            Err(e) => {
                rollback_tx(self);
                return Err(AppError::DbError(e));
            },
        };
        if n == 0 {
            rollback_tx(self);
            return Err(AppError::NotFound(goat_id));
        }
        match commit_tx(self) {
            Ok(()) => {
                proof {
                    m0.goat_vaccines.lemma_len_filter(|p: (i64, i64)| p.0 != goat_id);
                    m0.goat_diseases.lemma_len_filter(|p: (i64, i64)| p.0 != goat_id);
                    assert(self@.goats.dom() =~= m0.goats.dom().remove(goat_id));
                    assert(self@.wf());
                    assert(crate::model::delete_post(m0, self@, goat_id));
                }
                Ok(())
            },
            Err(e) => {
                rollback_tx(self);
                Err(AppError::DbError(e))
            },
        }
    }
}

/// Whether this identifier already occurs in the list.
fn contains_id(ids: &Vec<i64>, x: i64) -> (r: bool)
    ensures
        r == ids@.contains(x),
{
    let mut k: usize = 0;
    while k < ids.len()
        invariant
            0 <= k <= ids@.len(),
            forall|j: int| 0 <= j < k ==> ids@[j] != x,
        decreases ids@.len() - k,
    {
        if ids[k] == x {
            assert(ids@[k as int] == x);
            return true;
        }
        k += 1;
    }
    false
}

} // verus!
