use movie_store::handlers::{
    create, create_message, create_status_code, fetch, fetch_status_code, not_found_message,
    CreateOutcome, FetchOutcome,
};
use movie_store::record::Movie;
use movie_store::store::{InsertOutcome, RecordStore};

fn movie(id: &str, name: &str, year: u16, was_good: bool) -> Movie {
    Movie { id: id.to_owned(), name: name.to_owned(), year, was_good }
}

fn expect_found(outcome: FetchOutcome) -> Movie {
    match outcome {
        FetchOutcome::Found(m) => m,
        FetchOutcome::NotFound => panic!("expected the record to be found"),
    }
}

#[test]
fn example_round_trip() {
    let mut store = RecordStore::new();
    let outcome = create(&mut store, movie("1", "Arrival", 2016, true));
    assert_eq!(outcome, CreateOutcome::Created);

    let got = expect_found(fetch(&store, 1));
    assert_eq!(got.id, "1");
    assert_eq!(got.name, "Arrival");
    assert_eq!(got.year, 2016);
    assert_eq!(got.was_good, true);

    let again = create(&mut store, movie("1", "Arrival", 2016, true));
    assert_eq!(again, CreateOutcome::Conflict);

    assert!(matches!(fetch(&store, 2), FetchOutcome::NotFound));
}

#[test]
fn fetch_on_empty_store_is_not_found() {
    let store = RecordStore::new();
    assert!(matches!(fetch(&store, 0), FetchOutcome::NotFound));
    assert!(matches!(fetch(&store, u64::MAX), FetchOutcome::NotFound));
}

#[test]
fn repeated_conflicts_leave_record_unchanged() {
    let mut store = RecordStore::new();
    assert_eq!(create(&mut store, movie("7", "Alien", 1979, true)), CreateOutcome::Created);
    for _ in 0..3 {
        let outcome = create(&mut store, movie("7", "Prometheus", 2012, false));
        assert_eq!(outcome, CreateOutcome::Conflict);
        let stored = expect_found(fetch(&store, 7));
        assert_eq!(stored.name, "Alien");
        assert_eq!(stored.year, 1979);
        assert_eq!(stored.was_good, true);
    }
}

#[test]
fn malformed_id_is_rejected_without_mutation() {
    let mut store = RecordStore::new();
    for bad in ["abc", "", "12x", "-1", "1.5"] {
        let outcome = create(&mut store, movie(bad, "Nothing", 2000, false));
        assert_eq!(outcome, CreateOutcome::MalformedId);
    }
    assert!(matches!(fetch(&store, 0), FetchOutcome::NotFound));
    assert!(matches!(fetch(&store, 1), FetchOutcome::NotFound));
    assert!(matches!(fetch(&store, 12), FetchOutcome::NotFound));
}

#[test]
fn distinct_keys_all_succeed_and_are_fetchable() {
    let mut store = RecordStore::new();
    let records = [
        ("1", "Arrival", 2016, true),
        ("2", "Solaris", 1972, true),
        ("3", "Stalker", 1979, true),
        ("10", "Primer", 2004, false),
    ];
    for (id, name, year, was_good) in records {
        assert_eq!(create(&mut store, movie(id, name, year, was_good)), CreateOutcome::Created);
    }
    for (id, name, year, was_good) in records {
        let key: u64 = id.parse().unwrap();
        let got = expect_found(fetch(&store, key));
        assert_eq!(got.id, id);
        assert_eq!(got.name, name);
        assert_eq!(got.year, year);
        assert_eq!(got.was_good, was_good);
    }
}

#[test]
fn same_key_exactly_one_success() {
    let mut store = RecordStore::new();
    let attempts = [
        ("5", "First", 1990, true),
        ("5", "Second", 1991, false),
        ("5", "Third", 1992, true),
    ];
    let mut successes = 0;
    let mut conflicts = 0;
    for (id, name, year, was_good) in attempts {
        match create(&mut store, movie(id, name, year, was_good)) {
            CreateOutcome::Created => successes += 1,
            CreateOutcome::Conflict => conflicts += 1,
            CreateOutcome::MalformedId => panic!("id was numeric"),
        }
    }
    assert_eq!(successes, 1);
    assert_eq!(conflicts, 2);
    let stored = expect_found(fetch(&store, 5));
    assert_eq!(stored.name, "First");
}

#[test]
fn store_insert_reports_conflict_only_on_occupied_key() {
    let mut store = RecordStore::new();
    assert!(!store.contains(9));
    assert_eq!(store.insert(9, movie("9", "Moon", 2009, true)), InsertOutcome::Inserted);
    assert!(store.contains(9));
    assert_eq!(store.insert(9, movie("9", "Moon", 2009, true)), InsertOutcome::Conflict);
    assert!(store.get(9).is_some());
    assert!(store.get(8).is_none());
}

#[test]
fn status_codes_match_outcomes() {
    let found = FetchOutcome::Found(movie("1", "Arrival", 2016, true));
    assert_eq!(fetch_status_code(&found), 200);
    assert_eq!(fetch_status_code(&FetchOutcome::NotFound), 421);
    assert_eq!(create_status_code(&CreateOutcome::Created), 200);
    assert_eq!(create_status_code(&CreateOutcome::Conflict), 420);
    assert_eq!(create_status_code(&CreateOutcome::MalformedId), 400);
}

#[test]
fn messages_match_outcomes() {
    assert_eq!(not_found_message(), "Could not find movie!");
    assert_eq!(create_message(&CreateOutcome::Created), "Added movie to db!");
    assert_eq!(create_message(&CreateOutcome::Conflict), "Already have this movie stored");
    assert_eq!(
        create_message(&CreateOutcome::MalformedId),
        "Movie id must be a decimal integer"
    );
}
