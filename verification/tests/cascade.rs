use generator::cascade::Cascade;
use std::sync::Arc;

fn names(records: Vec<Arc<String>>) -> Vec<String> {
    records.into_iter().map(|record| record.as_ref().clone()).collect()
}

fn patriarchs() -> Cascade<String> {
    let mut cascade = Cascade::new();
    cascade.push("Avrohom".to_string());
    cascade.push("Yitzhok".to_string());
    cascade
}

#[test]
fn cascade_with_branches() {
    let mut cascade = Cascade::new();

    vec!["Avrohom".to_string(), "Yitzhok".to_string()]
        .into_iter()
        .for_each(|value| cascade.push(value));

    let mut result = vec!["Eisov".to_string(), "Yakov".to_string()]
        .into_iter()
        .map(|value| {
            let mut branch = cascade.branch();
            branch.push(value);
            branch
        })
        .map(|branch| {
            branch.into_iter().fold(String::new(), |acc, value| {
                if acc.is_empty() {
                    value.as_ref().clone()
                } else {
                    format!("{}, {}", acc, value)
                }
            })
        })
        .collect::<Vec<String>>();

    assert_eq!("Avrohom, Yitzhok, Yakov".to_string(), result.pop().unwrap());
    assert_eq!("Avrohom, Yitzhok, Eisov".to_string(), result.pop().unwrap());
}

#[test]
fn iteration_runs_from_root_to_leaf() {
    let mut cascade = patriarchs();
    cascade.push("Yaakov".to_string());

    let result = cascade
        .into_iter()
        .map(|value| value.as_ref().clone())
        .collect::<Vec<String>>();

    assert_eq!(vec!["Avrohom", "Yitzhok", "Yaakov"], result);
}

#[test]
fn into_vec_runs_from_root_to_leaf() {
    let mut cascade = patriarchs();
    cascade.push("Yaakov".to_string());
    assert_eq!(vec!["Avrohom", "Yitzhok", "Yaakov"], names(cascade.into_vec()));
}

#[test]
fn path_runs_from_leaf_to_root() {
    let mut cascade = patriarchs();
    cascade.push("Yaakov".to_string());
    assert_eq!(vec!["Yaakov", "Yitzhok", "Avrohom"], names(cascade.path()));
}

#[test]
fn path_can_be_walked_again() {
    let cascade = patriarchs();
    let first = names(cascade.path());
    let second = names(cascade.path());
    assert_eq!(first, second);
    assert_eq!(vec!["Yitzhok", "Avrohom"], second);
}

#[test]
fn new_cascade_has_no_records() {
    let cascade: Cascade<String> = Cascade::new();
    assert!(cascade.path().is_empty());
    assert!(cascade.branch().into_vec().is_empty());
    assert_eq!(0, cascade.into_iter().count());
}

#[test]
fn first_push_makes_the_root() {
    let mut cascade = Cascade::new();
    cascade.push(7u32);
    assert_eq!(vec![7u32], cascade.path().iter().map(|r| **r).collect::<Vec<u32>>());
}

#[test]
fn branch_leaves_its_source_as_it_was() {
    let cascade = patriarchs();
    let mut branch = cascade.branch();
    branch.push("Eisov".to_string());
    branch.push("Elifaz".to_string());

    assert_eq!(vec!["Avrohom", "Yitzhok"], names(cascade.into_vec()));
    assert_eq!(vec!["Avrohom", "Yitzhok", "Eisov", "Elifaz"], names(branch.into_vec()));
}

#[test]
fn siblings_do_not_see_each_other() {
    let cascade = patriarchs();
    let mut first = cascade.branch();
    let mut second = cascade.branch();
    first.push("Eisov".to_string());
    second.push("Yakov".to_string());

    assert_eq!(vec!["Avrohom", "Yitzhok", "Eisov"], names(first.into_vec()));
    assert_eq!(vec!["Avrohom", "Yitzhok", "Yakov"], names(second.into_vec()));
}

#[test]
fn branches_share_their_ancestry() {
    let cascade = patriarchs();
    let mut first = cascade.branch();
    let mut second = cascade.branch();
    first.push("Eisov".to_string());
    second.push("Yakov".to_string());

    let first_path = first.path();
    let second_path = second.path();
    assert!(Arc::ptr_eq(&first_path[1], &second_path[1]));
    assert!(Arc::ptr_eq(&first_path[2], &second_path[2]));
    assert!(!Arc::ptr_eq(&first_path[0], &second_path[0]));
}

fn shareable<T: Send + Sync>(_value: &T) {}

#[test]
fn cascades_can_be_handed_to_other_threads() {
    let cascade = patriarchs();
    shareable(&cascade);
    shareable(&cascade.branch());
    shareable(&cascade.path());
}
