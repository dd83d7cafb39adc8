use goatstore::codec::{Breed, Gender};
use goatstore::errors::AppError;
use goatstore::models::{DiseaseRef, Goat, VaccineRef};
use goatstore::store::Store;

fn goat(name: &str, vaccinations: Vec<&str>, diseases: Vec<&str>) -> Goat {
    Goat {
        id: None,
        breed: Breed::Beetal,
        name: name.to_string(),
        gender: Gender::Male,
        offspring: 2,
        cost: 15000,
        weight: 5500,
        current_price: 18000,
        diet: "hay".to_string(),
        last_bred: Some("2023-04-01".to_string()),
        health_status: "healthy".to_string(),
        vaccinations: vaccinations
            .into_iter()
            .map(|n| VaccineRef { id: None, name: n.to_string() })
            .collect(),
        diseases: diseases
            .into_iter()
            .map(|n| DiseaseRef { id: None, name: n.to_string() })
            .collect(),
    }
}

#[test]
fn open_accepts_files_it_wrote() {
    let path = "/tmp/goatstore_reopen_test.db";
    let id = {
        let mut store = Store::open(path).expect("first open must succeed");
        store
            .insert(&goat("Durable", vec!["Rabies"], vec![]))
            .expect("insert must succeed")
    };
    let store = Store::open(path).expect("reopening a file this library wrote must succeed");
    let loaded = store.load_goat_details(id).expect("the stored goat must load");
    assert_eq!(loaded.name, "Durable");
    assert_eq!(loaded.vaccinations.len(), 1);
}

#[test]
fn open_refuses_a_foreign_schema() {
    let path = "/tmp/goatstore_foreign_schema_test.db";
    {
        let conn = rusqlite::Connection::open(path).expect("raw open must succeed");
        conn.execute_batch(
            "CREATE TABLE IF NOT EXISTS vaccines (id INTEGER PRIMARY KEY, name TEXT)",
        )
        .expect("raw create must succeed");
    }
    // the same-named table lacks the library's UNIQUE constraint
    assert!(Store::open(path).is_err());
}

#[test]
fn open_in_memory_store_is_empty() {
    let store = Store::open_in_memory().expect("open must succeed");
    let ids = store.list_ids().expect("list must succeed");
    assert!(ids.is_empty());
}

#[test]
fn insert_then_load_round_trips_every_field() {
    let mut store = Store::open_in_memory().unwrap();
    let mut g = goat("Heidi", vec!["Rabies"], vec!["FootRot"]);
    g.breed = Breed::Other("Saanen".to_string());
    g.gender = Gender::Female;
    g.last_bred = None;
    let id = store.insert(&g).expect("insert must succeed");
    let loaded = store.load_goat_details(id).expect("load must succeed");
    assert_eq!(loaded.id, Some(id));
    assert_eq!(loaded.breed, Breed::Other("Saanen".to_string()));
    assert_eq!(loaded.name, "Heidi");
    assert_eq!(loaded.gender, Gender::Female);
    assert_eq!(loaded.offspring, 2);
    assert_eq!(loaded.cost, 15000);
    assert_eq!(loaded.weight, 5500);
    assert_eq!(loaded.current_price, 18000);
    assert_eq!(loaded.diet, "hay");
    assert_eq!(loaded.last_bred, None);
    assert_eq!(loaded.health_status, "healthy");
    assert_eq!(loaded.vaccinations.len(), 1);
    assert_eq!(loaded.vaccinations[0].name, "Rabies");
    assert!(loaded.vaccinations[0].id.is_some());
    assert_eq!(loaded.diseases.len(), 1);
    assert_eq!(loaded.diseases[0].name, "FootRot");
}

#[test]
fn insert_creates_two_reference_rows_and_reuses_them() {
    let mut store = Store::open_in_memory().unwrap();
    let id1 = store
        .insert(&goat("First", vec!["Rabies", "CDT"], vec![]))
        .unwrap();
    let first = store.load_goat_details(id1).unwrap();
    assert_eq!(first.vaccinations.len(), 2);
    let rabies_id = first
        .vaccinations
        .iter()
        .find(|v| v.name == "Rabies")
        .unwrap()
        .id
        .unwrap();
    let cdt_id = first
        .vaccinations
        .iter()
        .find(|v| v.name == "CDT")
        .unwrap()
        .id
        .unwrap();
    assert_ne!(rabies_id, cdt_id);

    // a second goat referencing one of the same names reuses the row
    let id2 = store.insert(&goat("Second", vec!["Rabies"], vec![])).unwrap();
    let second = store.load_goat_details(id2).unwrap();
    assert_eq!(second.vaccinations.len(), 1);
    assert_eq!(second.vaccinations[0].id.unwrap(), rabies_id);
}

#[test]
fn duplicate_vaccination_names_yield_a_single_link() {
    let mut store = Store::open_in_memory().unwrap();
    let id = store
        .insert(&goat("Twice", vec!["Rabies", "Rabies"], vec![]))
        .unwrap();
    let loaded = store.load_goat_details(id).unwrap();
    assert_eq!(loaded.vaccinations.len(), 1);
    assert_eq!(loaded.vaccinations[0].name, "Rabies");
}

#[test]
fn same_new_name_in_two_inserts_keeps_one_reference_row() {
    let mut store = Store::open_in_memory().unwrap();
    let id1 = store.insert(&goat("A", vec!["Fresh"], vec![])).unwrap();
    let id2 = store.insert(&goat("B", vec!["Fresh"], vec![])).unwrap();
    let a = store.load_goat_details(id1).unwrap();
    let b = store.load_goat_details(id2).unwrap();
    assert_eq!(a.vaccinations[0].id.unwrap(), b.vaccinations[0].id.unwrap());
}

#[test]
fn reference_with_trusted_identifier_is_linked_as_given() {
    let mut store = Store::open_in_memory().unwrap();
    let id1 = store.insert(&goat("Owner", vec!["Rabies"], vec![])).unwrap();
    let rabies_id = store.load_goat_details(id1).unwrap().vaccinations[0]
        .id
        .unwrap();
    let mut g = goat("Borrower", vec![], vec![]);
    g.vaccinations = vec![VaccineRef { id: Some(rabies_id), name: "ignored".to_string() }];
    let id2 = store.insert(&g).unwrap();
    let loaded = store.load_goat_details(id2).unwrap();
    assert_eq!(loaded.vaccinations.len(), 1);
    assert_eq!(loaded.vaccinations[0].id.unwrap(), rabies_id);
    assert_eq!(loaded.vaccinations[0].name, "Rabies");
}

#[test]
fn reference_with_dangling_identifier_rolls_back_the_insert() {
    let mut store = Store::open_in_memory().unwrap();
    let mut g = goat("Dangling", vec![], vec![]);
    g.vaccinations = vec![VaccineRef { id: Some(4242), name: "nowhere".to_string() }];
    match store.insert(&g) {
        Err(AppError::DbError(_)) => {}
        other => panic!("a dangling reference identifier must fail, got {:?}", other.is_ok()),
    }
    assert!(store.list_ids().unwrap().is_empty());
}

#[test]
fn negative_offspring_is_invalid_input() {
    let mut store = Store::open_in_memory().unwrap();
    let mut g = goat("Broken", vec![], vec![]);
    g.offspring = -1;
    assert!(matches!(store.insert(&g), Err(AppError::InvalidInput(_))));
    assert!(store.list_ids().unwrap().is_empty());
}

#[test]
fn replace_on_missing_identifier_fails_and_changes_nothing() {
    let mut store = Store::open_in_memory().unwrap();
    let id = store.insert(&goat("Kept", vec!["Rabies"], vec![])).unwrap();
    let before = store.list_ids().unwrap();
    match store.replace(id + 100, &goat("Ghost", vec!["CDT"], vec![])) {
        Err(AppError::NotFound(missing)) => assert_eq!(missing, id + 100),
        other => panic!("replace of a missing goat must fail, got {:?}", other.is_ok()),
    }
    let after = store.list_ids().unwrap();
    assert_eq!(before.len(), after.len());
    // the untouched goat still loads with its single vaccination
    let kept = store.load_goat_details(id).unwrap();
    assert_eq!(kept.vaccinations.len(), 1);
}

#[test]
fn replace_substitutes_the_whole_link_set() {
    let mut store = Store::open_in_memory().unwrap();
    let id = store
        .insert(&goat("Edited", vec!["Rabies", "CDT"], vec!["FootRot"]))
        .unwrap();
    assert_eq!(store.load_goat_details(id).unwrap().vaccinations.len(), 2);

    let mut replacement = goat("Edited", vec!["Rabies"], vec![]);
    replacement.offspring = 3;
    store.replace(id, &replacement).expect("replace must succeed");

    let loaded = store.load_goat_details(id).unwrap();
    assert_eq!(loaded.offspring, 3);
    assert_eq!(loaded.vaccinations.len(), 1);
    assert_eq!(loaded.vaccinations[0].name, "Rabies");
    assert_eq!(loaded.diseases.len(), 0);
}

#[test]
fn delete_keeps_shared_reference_rows_for_other_goats() {
    let mut store = Store::open_in_memory().unwrap();
    let id1 = store
        .insert(&goat("Gone", vec!["Rabies"], vec!["FootRot"]))
        .unwrap();
    let id2 = store.insert(&goat("Stays", vec!["Rabies"], vec![])).unwrap();
    let shared = store.load_goat_details(id2).unwrap().vaccinations[0]
        .id
        .unwrap();

    store.delete(id1).expect("delete must succeed");
    assert!(matches!(
        store.load_goat_details(id1),
        Err(AppError::NotFound(_))
    ));

    // the shared vaccine row survives and the other goat still loads it
    let stays = store.load_goat_details(id2).unwrap();
    assert_eq!(stays.vaccinations.len(), 1);
    assert_eq!(stays.vaccinations[0].id.unwrap(), shared);
    assert_eq!(stays.vaccinations[0].name, "Rabies");
}

#[test]
fn delete_on_missing_identifier_fails_and_changes_nothing() {
    let mut store = Store::open_in_memory().unwrap();
    let id = store.insert(&goat("Solo", vec![], vec![])).unwrap();
    match store.delete(id + 7) {
        Err(AppError::NotFound(missing)) => assert_eq!(missing, id + 7),
        other => panic!("delete of a missing goat must fail, got {:?}", other.is_ok()),
    }
    assert_eq!(store.list_ids().unwrap(), vec![id]);
}

#[test]
fn list_ids_names_every_goat_once() {
    let mut store = Store::open_in_memory().unwrap();
    let id1 = store.insert(&goat("One", vec![], vec![])).unwrap();
    let id2 = store.insert(&goat("Two", vec![], vec![])).unwrap();
    let id3 = store.insert(&goat("Three", vec![], vec![])).unwrap();
    let mut ids = store.list_ids().unwrap();
    ids.sort();
    let mut expected = vec![id1, id2, id3];
    expected.sort();
    assert_eq!(ids, expected);
}

#[test]
fn stored_goats_survive_many_operations() {
    let mut store = Store::open_in_memory().unwrap();
    let mut kept = Vec::new();
    for k in 0..5 {
        let name = format!("Goat{}", k);
        let mut g = goat(&name, vec!["CDT"], vec![]);
        g.offspring = k;
        kept.push((store.insert(&g).unwrap(), name));
    }
    store.delete(kept[1].0).unwrap();
    store
        .replace(kept[2].0, &goat("Renamed", vec!["Rabies"], vec!["Mastitis"]))
        .unwrap();
    assert_eq!(store.list_ids().unwrap().len(), 4);
    let renamed = store.load_goat_details(kept[2].0).unwrap();
    assert_eq!(renamed.name, "Renamed");
    assert_eq!(renamed.vaccinations[0].name, "Rabies");
    assert_eq!(renamed.diseases[0].name, "Mastitis");
}
