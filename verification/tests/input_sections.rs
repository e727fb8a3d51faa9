use policyengine_uk::sections::{separator, split_sections, Section, SectionError};

fn lines(text: &str) -> Vec<String> {
    text.lines().map(|l| l.to_string()).collect()
}

#[test]
fn separators_are_recognised_after_trimming() {
    assert_eq!(separator("===PERSONS==="), Some(Section::Persons));
    assert_eq!(separator("  ===BENUNITS===\t"), Some(Section::BenUnits));
    assert_eq!(separator("===HOUSEHOLDS==="), Some(Section::Households));
    assert_eq!(separator("===persons==="), None);
    assert_eq!(separator("person_id,benunit_id"), None);
}

#[test]
fn splits_the_three_tables() {
    let input = lines(
        "ignored preamble\n===PERSONS===\nperson_id,benunit_id\n0,0\n===BENUNITS===\nbenunit_id\n0\n===HOUSEHOLDS===\nhousehold_id\n0\n",
    );
    let s = match split_sections(&input) {
        Ok(s) => s,
        Err(_) => panic!("the input holds all three tables"),
    };
    assert_eq!(s.persons, "person_id,benunit_id\n0,0\n");
    assert_eq!(s.benunits, "benunit_id\n0\n");
    assert_eq!(s.households, "household_id\n0\n");
}

#[test]
fn a_section_may_be_continued_later() {
    let input = lines("===PERSONS===\na\n===BENUNITS===\nb\n===PERSONS===\nc\n===HOUSEHOLDS===\nd");
    let s = match split_sections(&input) {
        Ok(s) => s,
        Err(_) => panic!("the input holds all three tables"),
    };
    assert_eq!(s.persons, "a\nc\n");
    assert_eq!(s.benunits, "b\n");
    assert_eq!(s.households, "d\n");
}

#[test]
fn missing_tables_are_reported_in_order() {
    let no_persons = lines("===BENUNITS===\nb\n===HOUSEHOLDS===\nd");
    assert!(matches!(split_sections(&no_persons), Err(SectionError::MissingPersons)));
    let no_benunits = lines("===PERSONS===\na\n===BENUNITS===\n===HOUSEHOLDS===\nd");
    assert!(matches!(split_sections(&no_benunits), Err(SectionError::MissingBenUnits)));
    let no_households = lines("===PERSONS===\na\n===BENUNITS===\nb");
    assert!(matches!(split_sections(&no_households), Err(SectionError::MissingHouseholds)));
    assert!(matches!(split_sections(&Vec::new()), Err(SectionError::MissingPersons)));
}
