use erabu::project::{Project, StoreError};
use erabu::store::{add_project, delete_project, filter_projects, pick_random};

fn shed_and_book() -> Vec<Project> {
    let mut store = Vec::new();
    assert!(add_project(&mut store, "Build shed", "diy outdoor").is_ok());
    assert!(add_project(&mut store, "Read book", "leisure").is_ok());
    store
}

fn titles(found: &[&Project]) -> Vec<String> {
    found.iter().map(|p| p.title().to_owned()).collect()
}

#[test]
fn project_new_trims_title_and_splits_tags() {
    let p = Project::new("  Learn Rust  ", "code  diy").unwrap();
    assert_eq!(p.title(), "Learn Rust");
    assert_eq!(p.tags(), &vec!["code".to_owned(), "diy".to_owned()]);
}

#[test]
fn project_new_without_tags() {
    let p = Project::new("Solo", "   ").unwrap();
    assert_eq!(p.title(), "Solo");
    assert!(p.tags().is_empty());
}

#[test]
fn project_new_turns_blank_title_down() {
    assert_eq!(Project::new("", "a b"), Err(StoreError::EmptyTitle));
    assert_eq!(Project::new("   ", "a b"), Err(StoreError::EmptyTitle));
    assert_eq!(Project::new("\t\n\u{a0}", ""), Err(StoreError::EmptyTitle));
}

#[test]
fn project_from_parts_keeps_title_and_tags() {
    let p = Project::from_parts(" Plan trip ".to_owned(), vec!["an tag".to_owned()]).unwrap();
    assert_eq!(p.title(), " Plan trip ");
    assert_eq!(p.tags(), &vec!["an tag".to_owned()]);
    assert_eq!(
        Project::from_parts("  ".to_owned(), vec!["x".to_owned()]),
        Err(StoreError::EmptyTitle)
    );
    assert_eq!(Project::from_parts(String::new(), Vec::new()), Err(StoreError::EmptyTitle));
}

#[test]
fn project_clone_is_equal() {
    let p = Project::new("Build shed", "diy outdoor").unwrap();
    let q = p.clone();
    assert_eq!(p, q);
    assert_eq!(q.title(), "Build shed");
    assert_eq!(q.tags(), &vec!["diy".to_owned(), "outdoor".to_owned()]);
}

#[test]
fn project_matches_title_or_tag() {
    let p = Project::new("Build shed", "diy outdoor").unwrap();
    assert!(p.matches(""));
    assert!(p.matches("Build"));
    assert!(p.matches("ld sh"));
    assert!(p.matches("diy"));
    assert!(p.matches("door"));
    assert!(!p.matches("build"));
    assert!(!p.matches("DIY"));
    assert!(!p.matches("diy outdoor"));
    assert!(!p.matches("sheddiy"));
}

#[test]
fn empty_filter_gives_all_in_order() {
    let store = shed_and_book();
    let found = filter_projects("", &store);
    assert_eq!(titles(&found), vec!["Build shed", "Read book"]);
    let none: Vec<Project> = Vec::new();
    assert!(filter_projects("", &none).is_empty());
}

#[test]
fn filter_gives_exactly_the_matching_projects() {
    let mut store = shed_and_book();
    add_project(&mut store, "Shed paint", "outdoor").unwrap();
    add_project(&mut store, "Book club", "leisure social").unwrap();
    for query in ["", "shed", "Shed", "o", "outdoor", "leisure", "B", "zzz", "ok"] {
        let found = filter_projects(query, &store);
        for p in &found {
            assert!(
                p.title().contains(query) || p.tags().iter().any(|t| t.contains(query)),
                "{:?}",
                query
            );
        }
        let expected: Vec<&Project> = store
            .iter()
            .filter(|p| p.title().contains(query) || p.tags().iter().any(|t| t.contains(query)))
            .collect();
        assert_eq!(found, expected, "{:?}", query);
    }
}

#[test]
fn filter_is_case_sensitive() {
    let store = shed_and_book();
    assert!(filter_projects("build", &store).is_empty());
    assert_eq!(titles(&filter_projects("Build", &store)), vec!["Build shed"]);
}

#[test]
fn filter_can_be_repeated() {
    let store = shed_and_book();
    let first = filter_projects("e", &store);
    let second = filter_projects("e", &store);
    assert_eq!(first, second);
    assert_eq!(store.len(), 2);
}

#[test]
fn added_project_comes_last() {
    let mut store = shed_and_book();
    let added = add_project(&mut store, "  Learn Rust  ", "code  diy").unwrap();
    assert_eq!(added.title(), "Learn Rust");
    assert_eq!(added.tags(), &vec!["code".to_owned(), "diy".to_owned()]);
    let found = filter_projects("", &store);
    assert_eq!(found.len(), 3);
    assert_eq!(titles(&found), vec!["Build shed", "Read book", "Learn Rust"]);
    let last = found[2];
    assert_eq!(last.title(), "Learn Rust");
    assert_eq!(last.tags(), &vec!["code".to_owned(), "diy".to_owned()]);
    assert_eq!(*last, added);
}

#[test]
fn add_allows_titles_twice() {
    let mut store = shed_and_book();
    assert!(add_project(&mut store, "Read book", "again").is_ok());
    assert_eq!(titles(&filter_projects("", &store)), vec!["Build shed", "Read book", "Read book"]);
}

#[test]
fn add_with_blank_title_is_turned_down() {
    let mut store = shed_and_book();
    let before = store.clone();
    assert_eq!(add_project(&mut store, "   ", "code"), Err(StoreError::EmptyTitle));
    assert_eq!(store, before);
    assert_eq!(add_project(&mut store, "", ""), Err(StoreError::EmptyTitle));
    assert_eq!(store, before);
}

#[test]
fn delete_removes_every_project_with_the_title() {
    let mut store = shed_and_book();
    add_project(&mut store, "Build shed", "again").unwrap();
    add_project(&mut store, "Build shed 2", "diy").unwrap();
    delete_project(&mut store, "Build shed");
    assert_eq!(titles(&filter_projects("", &store)), vec!["Read book", "Build shed 2"]);
}

#[test]
fn delete_of_absent_title_changes_nothing() {
    let mut store = shed_and_book();
    let before = store.clone();
    delete_project(&mut store, "Read");
    assert_eq!(store, before);
    delete_project(&mut store, "read book");
    assert_eq!(store, before);
    delete_project(&mut store, "");
    assert_eq!(store, before);
    let mut none: Vec<Project> = Vec::new();
    delete_project(&mut none, "Read book");
    assert!(none.is_empty());
}

#[test]
fn delete_matches_title_exactly_not_by_filter() {
    let mut store = shed_and_book();
    delete_project(&mut store, "diy");
    assert_eq!(store.len(), 2);
    delete_project(&mut store, " Build shed");
    assert_eq!(store.len(), 2);
}

#[test]
fn pick_random_takes_the_number_modulo_the_count() {
    let mut store = shed_and_book();
    add_project(&mut store, "Learn Rust", "code diy").unwrap();
    assert_eq!(pick_random("", &store, 0).unwrap().title(), "Build shed");
    assert_eq!(pick_random("", &store, 1).unwrap().title(), "Read book");
    assert_eq!(pick_random("", &store, 2).unwrap().title(), "Learn Rust");
    assert_eq!(pick_random("", &store, 3).unwrap().title(), "Build shed");
    assert_eq!(pick_random("", &store, 100).unwrap().title(), "Read book");
    assert_eq!(pick_random("diy", &store, 0).unwrap().title(), "Build shed");
    assert_eq!(pick_random("diy", &store, 1).unwrap().title(), "Learn Rust");
    assert_eq!(pick_random("diy", &store, 7).unwrap().title(), "Learn Rust");
    assert_eq!(
        pick_random("diy", &store, usize::MAX).unwrap().title(),
        if usize::MAX % 2 == 0 { "Build shed" } else { "Learn Rust" }
    );
}

#[test]
fn pick_random_with_nothing_to_pick() {
    let store = shed_and_book();
    assert_eq!(pick_random("zzz", &store, 0), Err(StoreError::NothingToPick));
    assert_eq!(pick_random("zzz", &store, 12345), Err(StoreError::NothingToPick));
    let none: Vec<Project> = Vec::new();
    assert_eq!(pick_random("", &none, 5), Err(StoreError::NothingToPick));
}

#[test]
fn scenario_shed_book_rust() {
    let mut store = shed_and_book();
    assert_eq!(store[0].title(), "Build shed");
    assert_eq!(store[0].tags(), &vec!["diy".to_owned(), "outdoor".to_owned()]);
    assert_eq!(store[1].title(), "Read book");
    assert_eq!(store[1].tags(), &vec!["leisure".to_owned()]);

    assert_eq!(titles(&filter_projects("diy", &store)), vec!["Build shed"]);

    let added = add_project(&mut store, "  Learn Rust  ", "code  diy").unwrap();
    assert_eq!(added.title(), "Learn Rust");
    assert_eq!(added.tags(), &vec!["code".to_owned(), "diy".to_owned()]);
    assert_eq!(store.len(), 3);
    assert_eq!(store[2].title(), "Learn Rust");
    assert_eq!(store[2].tags(), &vec!["code".to_owned(), "diy".to_owned()]);

    assert_eq!(titles(&filter_projects("diy", &store)), vec!["Build shed", "Learn Rust"]);

    delete_project(&mut store, "Read book");
    assert_eq!(titles(&filter_projects("", &store)), vec!["Build shed", "Learn Rust"]);
    assert_eq!(titles(&filter_projects("diy", &store)), vec!["Build shed", "Learn Rust"]);
}
