use policyengine_uk::calibration::{
    household_variable_of, person_variable_of, target_aggregation, target_entity, Aggregation,
    HouseholdVariable, PersonVariable, TargetEntity,
};
use policyengine_uk::deciles::decile_bounds;

#[test]
fn deciles_of_hundred() {
    let b = decile_bounds(100);
    assert_eq!(b.len(), 10);
    assert_eq!(b[0], (0, 10));
    assert_eq!(b[4], (40, 50));
    assert_eq!(b[9], (90, 100));
}

#[test]
fn last_decile_takes_remainder() {
    let b = decile_bounds(25);
    assert_eq!(b[0], (0, 2));
    assert_eq!(b[8], (16, 18));
    assert_eq!(b[9], (18, 25));
    let small = decile_bounds(7);
    for d in 0..9 {
        assert_eq!(small[d], (0, 0));
    }
    assert_eq!(small[9], (0, 7));
}

#[test]
fn deciles_partition_the_ranking() {
    for n in [0usize, 1, 9, 10, 11, 99, 1001, 20000] {
        let b = decile_bounds(n);
        assert_eq!(b[0].0, 0);
        assert_eq!(b[9].1, n);
        for d in 0..9 {
            assert_eq!(b[d].1, b[d + 1].0);
            assert_eq!(b[d].1 - b[d].0, n / 10);
        }
        for d in 0..10 {
            assert!(b[d].0 <= b[d].1);
        }
    }
}

#[test]
fn person_variable_names() {
    assert_eq!(person_variable_of("age"), Some(PersonVariable::Age));
    assert_eq!(person_variable_of("private_pension_income"), Some(PersonVariable::PensionIncome));
    assert_eq!(person_variable_of("pension_income"), Some(PersonVariable::PensionIncome));
    assert_eq!(person_variable_of("savings_interest"), Some(PersonVariable::SavingsInterestIncome));
    assert_eq!(person_variable_of("total_income"), Some(PersonVariable::TotalIncome));
    assert_eq!(person_variable_of("hours_worked"), Some(PersonVariable::HoursWorked));
    assert_eq!(person_variable_of("council_tax"), None);
    assert_eq!(person_variable_of("Age"), None);
}

#[test]
fn household_variable_names() {
    assert_eq!(household_variable_of("council_tax_annual"), Some(HouseholdVariable::CouncilTax));
    assert_eq!(household_variable_of("council_tax"), Some(HouseholdVariable::CouncilTax));
    assert_eq!(household_variable_of("rent"), Some(HouseholdVariable::Rent));
    assert_eq!(household_variable_of("household_id"), Some(HouseholdVariable::Count));
    assert_eq!(household_variable_of("savings"), Some(HouseholdVariable::Savings));
    assert_eq!(household_variable_of("age"), None);
}

#[test]
fn target_kinds() {
    assert_eq!(target_entity("person"), Some(TargetEntity::Person));
    assert_eq!(target_entity("household"), Some(TargetEntity::Household));
    assert_eq!(target_entity("benunit"), None);
    assert_eq!(target_aggregation("sum"), Some(Aggregation::Sum));
    assert_eq!(target_aggregation("count_nonzero"), Some(Aggregation::CountNonzero));
    assert_eq!(target_aggregation("count"), Some(Aggregation::Count));
    assert_eq!(target_aggregation("mean"), None);
}
