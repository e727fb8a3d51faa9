use policyengine_uk::linking::{link_records, member_ranges};

#[test]
fn links_households_benunits_and_people() {
    let households = vec![100, 200, 300];
    let benunits = vec![(100, 1), (100, 2), (999, 1), (300, 1)];
    let people = vec![(100, 1), (100, 2), (300, 1), (999, 1), (100, 3), (100, 1)];
    let r = link_records(&households, &benunits, &people);
    assert_eq!(r.benunit_records, vec![0, 1, 3]);
    assert_eq!(r.benunit_households, vec![0, 0, 2]);
    assert_eq!(r.person_records, vec![0, 1, 2, 5]);
    assert_eq!(r.person_benunits, vec![0, 1, 2, 0]);
    assert_eq!(r.person_households, vec![0, 0, 2, 0]);
    assert_eq!(r.household_benunits, vec![vec![0, 1], vec![], vec![2]]);
    assert_eq!(r.household_persons, vec![vec![0, 1, 3], vec![], vec![2]]);
    assert_eq!(r.benunit_persons, vec![vec![0, 3], vec![1], vec![2]]);
}

#[test]
fn later_records_with_the_same_key_win() {
    let households = vec![7, 7];
    let benunits = vec![(7, 1), (7, 1)];
    let people = vec![(7, 1)];
    let r = link_records(&households, &benunits, &people);
    assert_eq!(r.benunit_households, vec![1, 1]);
    assert_eq!(r.household_benunits, vec![vec![], vec![0, 1]]);
    assert_eq!(r.person_benunits, vec![1]);
    assert_eq!(r.person_households, vec![1]);
    assert_eq!(r.benunit_persons, vec![vec![], vec![0]]);
}

#[test]
fn links_are_consistent() {
    let households = vec![5, 6, 7, 8];
    let benunits = vec![(5, 1), (6, 1), (6, 2), (9, 1), (8, 1)];
    let people = vec![(5, 1), (6, 2), (6, 1), (6, 2), (8, 1), (7, 1), (9, 1)];
    let r = link_records(&households, &benunits, &people);
    for i in 0..r.person_records.len() {
        let b = r.person_benunits[i];
        let h = r.person_households[i];
        assert_eq!(r.benunit_households[b], h);
        assert!(r.household_persons[h].contains(&i));
        assert!(r.benunit_persons[b].contains(&i));
    }
    for q in 0..r.benunit_records.len() {
        assert!(r.household_benunits[r.benunit_households[q]].contains(&q));
    }
}

#[test]
fn nothing_links_without_households() {
    let r = link_records(&Vec::new(), &vec![(1, 1)], &vec![(1, 1)]);
    assert!(r.benunit_records.is_empty());
    assert!(r.person_records.is_empty());
    assert!(r.household_benunits.is_empty());
}

#[test]
fn members_are_numbered_consecutively() {
    let r = member_ranges(&vec![2, 0, 3, 1]);
    assert_eq!(r, vec![(0, 2), (2, 2), (2, 5), (5, 6)]);
    assert!(member_ranges(&Vec::new()).is_empty());
    let sizes = vec![4, 1, 7, 2, 5];
    let r = member_ranges(&sizes);
    let total: usize = sizes.iter().sum();
    for p in 0..total {
        let owners = r.iter().filter(|&&(s, e)| s <= p && p < e).count();
        assert_eq!(owners, 1);
    }
    for h in 0..sizes.len() {
        assert_eq!(r[h].1 - r[h].0, sizes[h]);
    }
}
