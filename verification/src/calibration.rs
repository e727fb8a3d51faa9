//! What the calibration targets name: the person or household variable a target
//! sums or counts, the entity it is taken over and how it is aggregated.
use vstd::prelude::*;
use crate::text::text_eq;

verus! {

/// A person-level variable a calibration target can refer to.
#[derive(Clone, Copy, Debug, PartialEq, Eq, Structural)]
pub enum PersonVariable {
    Age,
    EmploymentIncome,
    SelfEmploymentIncome,
    PensionIncome,
    StatePension,
    SavingsInterestIncome,
    DividendIncome,
    CapitalGains,
    PropertyIncome,
    MaintenanceIncome,
    MiscellaneousIncome,
    OtherIncome,
    ChildBenefit,
    HousingBenefit,
    IncomeSupport,
    PensionCredit,
    ChildTaxCredit,
    WorkingTaxCredit,
    UniversalCredit,
    DlaCare,
    DlaMobility,
    PipDailyLiving,
    PipMobility,
    CarersAllowance,
    AttendanceAllowance,
    EsaIncome,
    EsaContributory,
    JsaIncome,
    JsaContributory,
    OtherBenefits,
    TotalIncome,
    HoursWorked,
}

/// A household-level variable a calibration target can refer to. `Count` is 1 for
/// every household, for counting them.
#[derive(Clone, Copy, Debug, PartialEq, Eq, Structural)]
pub enum HouseholdVariable {
    CouncilTax,
    Rent,
    Weight,
    Count,
    PropertyWealth,
    NetFinancialWealth,
    GrossFinancialWealth,
    Savings,
}

/// The person variable a target names, aliases included; `None` for a name that is
/// not one (such a variable counts as zero).
pub open spec fn person_variable_named(name: Seq<char>) -> Option<PersonVariable> {
    if name == "age"@ {
        Some(PersonVariable::Age)
    } else if name == "employment_income"@ {
        Some(PersonVariable::EmploymentIncome)
    } else if name == "self_employment_income"@ {
        Some(PersonVariable::SelfEmploymentIncome)
    } else if name == "pension_income"@ || name == "private_pension_income"@ {
        Some(PersonVariable::PensionIncome)
    } else if name == "state_pension"@ {
        Some(PersonVariable::StatePension)
    } else if name == "savings_interest_income"@ || name == "savings_interest"@ {
        Some(PersonVariable::SavingsInterestIncome)
    } else if name == "dividend_income"@ {
        Some(PersonVariable::DividendIncome)
    } else if name == "capital_gains"@ {
        Some(PersonVariable::CapitalGains)
    } else if name == "property_income"@ {
        Some(PersonVariable::PropertyIncome)
    } else if name == "maintenance_income"@ {
        Some(PersonVariable::MaintenanceIncome)
    } else if name == "miscellaneous_income"@ {
        Some(PersonVariable::MiscellaneousIncome)
    } else if name == "other_income"@ {
        Some(PersonVariable::OtherIncome)
    } else if name == "child_benefit"@ {
        Some(PersonVariable::ChildBenefit)
    } else if name == "housing_benefit"@ {
        Some(PersonVariable::HousingBenefit)
    } else if name == "income_support"@ {
        Some(PersonVariable::IncomeSupport)
    } else if name == "pension_credit"@ {
        Some(PersonVariable::PensionCredit)
    } else if name == "child_tax_credit"@ {
        Some(PersonVariable::ChildTaxCredit)
    } else if name == "working_tax_credit"@ {
        Some(PersonVariable::WorkingTaxCredit)
    } else if name == "universal_credit"@ {
        Some(PersonVariable::UniversalCredit)
    } else if name == "dla_care"@ {
        Some(PersonVariable::DlaCare)
    } else if name == "dla_mobility"@ {
        Some(PersonVariable::DlaMobility)
    } else if name == "pip_daily_living"@ {
        Some(PersonVariable::PipDailyLiving)
    } else if name == "pip_mobility"@ {
        Some(PersonVariable::PipMobility)
    } else if name == "carers_allowance"@ {
        Some(PersonVariable::CarersAllowance)
    } else if name == "attendance_allowance"@ {
        Some(PersonVariable::AttendanceAllowance)
    } else if name == "esa_income"@ {
        Some(PersonVariable::EsaIncome)
    } else if name == "esa_contributory"@ {
        Some(PersonVariable::EsaContributory)
    } else if name == "jsa_income"@ {
        Some(PersonVariable::JsaIncome)
    } else if name == "jsa_contributory"@ {
        Some(PersonVariable::JsaContributory)
    } else if name == "other_benefits"@ {
        Some(PersonVariable::OtherBenefits)
    } else if name == "total_income"@ {
        Some(PersonVariable::TotalIncome)
    } else if name == "hours_worked"@ {
        Some(PersonVariable::HoursWorked)
    } else {
        None
    }
}

/// The household variable a target names, aliases included; `None` for a name that
/// is not one (such a variable counts as zero).
pub open spec fn household_variable_named(name: Seq<char>) -> Option<HouseholdVariable> {
    if name == "council_tax_annual"@ || name == "council_tax"@ {
        Some(HouseholdVariable::CouncilTax)
    } else if name == "rent_annual"@ || name == "rent"@ {
        Some(HouseholdVariable::Rent)
    } else if name == "weight"@ {
        Some(HouseholdVariable::Weight)
    } else if name == "household_id"@ {
        Some(HouseholdVariable::Count)
    } else if name == "property_wealth"@ {
        Some(HouseholdVariable::PropertyWealth)
    } else if name == "net_financial_wealth"@ {
        Some(HouseholdVariable::NetFinancialWealth)
    } else if name == "gross_financial_wealth"@ {
        Some(HouseholdVariable::GrossFinancialWealth)
    } else if name == "savings"@ {
        Some(HouseholdVariable::Savings)
    } else {
        None
    }
}

/// A number that tells apart the target variable names: the length, the first and
/// the last character.
pub open spec fn name_key(s: Seq<char>) -> int {
    s.len() * 1000000 + (s[0] as int) * 1000 + (s[s.len() - 1] as int)
}

/// The name of the person field a variable reads, as targets write it.
pub open spec fn person_field_name(v: PersonVariable) -> Seq<char> {
    match v {
        PersonVariable::Age => "age"@,
        PersonVariable::AttendanceAllowance => "attendance_allowance"@,
        PersonVariable::CapitalGains => "capital_gains"@,
        PersonVariable::CarersAllowance => "carers_allowance"@,
        PersonVariable::ChildBenefit => "child_benefit"@,
        PersonVariable::ChildTaxCredit => "child_tax_credit"@,
        PersonVariable::DividendIncome => "dividend_income"@,
        PersonVariable::DlaCare => "dla_care"@,
        PersonVariable::DlaMobility => "dla_mobility"@,
        PersonVariable::EmploymentIncome => "employment_income"@,
        PersonVariable::EsaContributory => "esa_contributory"@,
        PersonVariable::EsaIncome => "esa_income"@,
        PersonVariable::HoursWorked => "hours_worked"@,
        PersonVariable::HousingBenefit => "housing_benefit"@,
        PersonVariable::IncomeSupport => "income_support"@,
        PersonVariable::JsaContributory => "jsa_contributory"@,
        PersonVariable::JsaIncome => "jsa_income"@,
        PersonVariable::MaintenanceIncome => "maintenance_income"@,
        PersonVariable::MiscellaneousIncome => "miscellaneous_income"@,
        PersonVariable::OtherBenefits => "other_benefits"@,
        PersonVariable::OtherIncome => "other_income"@,
        PersonVariable::PensionCredit => "pension_credit"@,
        PersonVariable::PensionIncome => "pension_income"@,
        PersonVariable::PipDailyLiving => "pip_daily_living"@,
        PersonVariable::PipMobility => "pip_mobility"@,
        PersonVariable::PropertyIncome => "property_income"@,
        PersonVariable::SavingsInterestIncome => "savings_interest_income"@,
        PersonVariable::SelfEmploymentIncome => "self_employment_income"@,
        PersonVariable::StatePension => "state_pension"@,
        PersonVariable::TotalIncome => "total_income"@,
        PersonVariable::UniversalCredit => "universal_credit"@,
        PersonVariable::WorkingTaxCredit => "working_tax_credit"@,
    }
}

/// Each person variable is what its own field name resolves to: a target naming a
/// person field sums or counts that field, and no other.
pub proof fn lemma_person_variable_names(v: PersonVariable)
    ensures
        person_variable_named(person_field_name(v)) == Some(v),
{
    reveal_strlit("age");
    assert(name_key("age"@) == 3097101);
    reveal_strlit("attendance_allowance");
    assert(name_key("attendance_allowance"@) == 20097101);
    reveal_strlit("capital_gains");
    assert(name_key("capital_gains"@) == 13099115);
    reveal_strlit("carers_allowance");
    assert(name_key("carers_allowance"@) == 16099101);
    reveal_strlit("child_benefit");
    assert(name_key("child_benefit"@) == 13099116);
    reveal_strlit("child_tax_credit");
    assert(name_key("child_tax_credit"@) == 16099116);
    reveal_strlit("dividend_income");
    assert(name_key("dividend_income"@) == 15100101);
    reveal_strlit("dla_care");
    assert(name_key("dla_care"@) == 8100101);
    reveal_strlit("dla_mobility");
    assert(name_key("dla_mobility"@) == 12100121);
    reveal_strlit("employment_income");
    assert(name_key("employment_income"@) == 17101101);
    reveal_strlit("esa_contributory");
    assert(name_key("esa_contributory"@) == 16101121);
    reveal_strlit("esa_income");
    assert(name_key("esa_income"@) == 10101101);
    reveal_strlit("hours_worked");
    assert(name_key("hours_worked"@) == 12104100);
    reveal_strlit("housing_benefit");
    assert(name_key("housing_benefit"@) == 15104116);
    reveal_strlit("income_support");
    assert(name_key("income_support"@) == 14105116);
    reveal_strlit("jsa_contributory");
    assert(name_key("jsa_contributory"@) == 16106121);
    reveal_strlit("jsa_income");
    assert(name_key("jsa_income"@) == 10106101);
    reveal_strlit("maintenance_income");
    assert(name_key("maintenance_income"@) == 18109101);
    reveal_strlit("miscellaneous_income");
    assert(name_key("miscellaneous_income"@) == 20109101);
    reveal_strlit("other_benefits");
    assert(name_key("other_benefits"@) == 14111115);
    reveal_strlit("other_income");
    assert(name_key("other_income"@) == 12111101);
    reveal_strlit("pension_credit");
    assert(name_key("pension_credit"@) == 14112116);
    reveal_strlit("pension_income");
    assert(name_key("pension_income"@) == 14112101);
    reveal_strlit("pip_daily_living");
    assert(name_key("pip_daily_living"@) == 16112103);
    reveal_strlit("pip_mobility");
    assert(name_key("pip_mobility"@) == 12112121);
    reveal_strlit("private_pension_income");
    assert(name_key("private_pension_income"@) == 22112101);
    reveal_strlit("property_income");
    assert(name_key("property_income"@) == 15112101);
    reveal_strlit("savings_interest");
    assert(name_key("savings_interest"@) == 16115116);
    reveal_strlit("savings_interest_income");
    assert(name_key("savings_interest_income"@) == 23115101);
    reveal_strlit("self_employment_income");
    assert(name_key("self_employment_income"@) == 22115101);
    reveal_strlit("state_pension");
    assert(name_key("state_pension"@) == 13115110);
    reveal_strlit("total_income");
    assert(name_key("total_income"@) == 12116101);
    reveal_strlit("universal_credit");
    assert(name_key("universal_credit"@) == 16117116);
    reveal_strlit("working_tax_credit");
    assert(name_key("working_tax_credit"@) == 18119116);
}

/// The name of the household field a variable reads, as targets write it
/// (`household_id` for the count of households).
pub open spec fn household_field_name(v: HouseholdVariable) -> Seq<char> {
    match v {
        HouseholdVariable::CouncilTax => "council_tax"@,
        HouseholdVariable::Count => "household_id"@,
        HouseholdVariable::GrossFinancialWealth => "gross_financial_wealth"@,
        HouseholdVariable::NetFinancialWealth => "net_financial_wealth"@,
        HouseholdVariable::PropertyWealth => "property_wealth"@,
        HouseholdVariable::Rent => "rent"@,
        HouseholdVariable::Savings => "savings"@,
        HouseholdVariable::Weight => "weight"@,
    }
}

/// Each household variable is what its own field name resolves to.
pub proof fn lemma_household_variable_names(v: HouseholdVariable)
    ensures
        household_variable_named(household_field_name(v)) == Some(v),
{
    reveal_strlit("council_tax");
    assert(name_key("council_tax"@) == 11099120);
    reveal_strlit("council_tax_annual");
    assert(name_key("council_tax_annual"@) == 18099108);
    reveal_strlit("gross_financial_wealth");
    assert(name_key("gross_financial_wealth"@) == 22103104);
    reveal_strlit("household_id");
    assert(name_key("household_id"@) == 12104100);
    reveal_strlit("net_financial_wealth");
    assert(name_key("net_financial_wealth"@) == 20110104);
    reveal_strlit("property_wealth");
    assert(name_key("property_wealth"@) == 15112104);
    reveal_strlit("rent");
    assert(name_key("rent"@) == 4114116);
    reveal_strlit("rent_annual");
    assert(name_key("rent_annual"@) == 11114108);
    reveal_strlit("savings");
    assert(name_key("savings"@) == 7115115);
    reveal_strlit("weight");
    assert(name_key("weight"@) == 6119116);
}

/// Resolves the name of a person-level target variable.
pub fn person_variable_of(name: &str) -> (r: Option<PersonVariable>)
    ensures
        r == person_variable_named(name@),
{
    if text_eq(name, "age") {
        Some(PersonVariable::Age)
    } else if text_eq(name, "employment_income") {
        Some(PersonVariable::EmploymentIncome)
    } else if text_eq(name, "self_employment_income") {
        Some(PersonVariable::SelfEmploymentIncome)
    } else if text_eq(name, "pension_income") || text_eq(name, "private_pension_income") {
        Some(PersonVariable::PensionIncome)
    } else if text_eq(name, "state_pension") {
        Some(PersonVariable::StatePension)
    } else if text_eq(name, "savings_interest_income") || text_eq(name, "savings_interest") {
        Some(PersonVariable::SavingsInterestIncome)
    } else if text_eq(name, "dividend_income") {
        Some(PersonVariable::DividendIncome)
    } else if text_eq(name, "capital_gains") {
        Some(PersonVariable::CapitalGains)
    } else if text_eq(name, "property_income") {
        Some(PersonVariable::PropertyIncome)
    } else if text_eq(name, "maintenance_income") {
        Some(PersonVariable::MaintenanceIncome)
    } else if text_eq(name, "miscellaneous_income") {
        Some(PersonVariable::MiscellaneousIncome)
    } else if text_eq(name, "other_income") {
        Some(PersonVariable::OtherIncome)
    } else if text_eq(name, "child_benefit") {
        Some(PersonVariable::ChildBenefit)
    } else if text_eq(name, "housing_benefit") {
        Some(PersonVariable::HousingBenefit)
    } else if text_eq(name, "income_support") {
        Some(PersonVariable::IncomeSupport)
    } else if text_eq(name, "pension_credit") {
        Some(PersonVariable::PensionCredit)
    } else if text_eq(name, "child_tax_credit") {
        Some(PersonVariable::ChildTaxCredit)
    } else if text_eq(name, "working_tax_credit") {
        Some(PersonVariable::WorkingTaxCredit)
    } else if text_eq(name, "universal_credit") {
        Some(PersonVariable::UniversalCredit)
    } else if text_eq(name, "dla_care") {
        Some(PersonVariable::DlaCare)
    } else if text_eq(name, "dla_mobility") {
        Some(PersonVariable::DlaMobility)
    } else if text_eq(name, "pip_daily_living") {
        Some(PersonVariable::PipDailyLiving)
    } else if text_eq(name, "pip_mobility") {
        Some(PersonVariable::PipMobility)
    } else if text_eq(name, "carers_allowance") {
        Some(PersonVariable::CarersAllowance)
    } else if text_eq(name, "attendance_allowance") {
        Some(PersonVariable::AttendanceAllowance)
    } else if text_eq(name, "esa_income") {
        Some(PersonVariable::EsaIncome)
    } else if text_eq(name, "esa_contributory") {
        Some(PersonVariable::EsaContributory)
    } else if text_eq(name, "jsa_income") {
        Some(PersonVariable::JsaIncome)
    } else if text_eq(name, "jsa_contributory") {
        Some(PersonVariable::JsaContributory)
    } else if text_eq(name, "other_benefits") {
        Some(PersonVariable::OtherBenefits)
    } else if text_eq(name, "total_income") {
        Some(PersonVariable::TotalIncome)
    } else if text_eq(name, "hours_worked") {
        Some(PersonVariable::HoursWorked)
    } else {
        None
    }
}

/// Resolves the name of a household-level target variable.
pub fn household_variable_of(name: &str) -> (r: Option<HouseholdVariable>)
    ensures
        r == household_variable_named(name@),
{
    if text_eq(name, "council_tax_annual") || text_eq(name, "council_tax") {
        Some(HouseholdVariable::CouncilTax)
    } else if text_eq(name, "rent_annual") || text_eq(name, "rent") {
        Some(HouseholdVariable::Rent)
    } else if text_eq(name, "weight") {
        Some(HouseholdVariable::Weight)
    } else if text_eq(name, "household_id") {
        Some(HouseholdVariable::Count)
    } else if text_eq(name, "property_wealth") {
        Some(HouseholdVariable::PropertyWealth)
    } else if text_eq(name, "net_financial_wealth") {
        Some(HouseholdVariable::NetFinancialWealth)
    } else if text_eq(name, "gross_financial_wealth") {
        Some(HouseholdVariable::GrossFinancialWealth)
    } else if text_eq(name, "savings") {
        Some(HouseholdVariable::Savings)
    } else {
        None
    }
}

/// The entity a calibration target is taken over.
#[derive(Clone, Copy, Debug, PartialEq, Eq, Structural)]
pub enum TargetEntity {
    Person,
    Household,
}

/// How a calibration target aggregates its variable over the entities.
#[derive(Clone, Copy, Debug, PartialEq, Eq, Structural)]
pub enum Aggregation {
    /// The sum of the variable.
    Sum,
    /// The number of entities where the variable is positive.
    CountNonzero,
    /// The number of entities (for households: where the variable is positive).
    Count,
}

/// The entity a target's `entity` field names: `person` or `household`.
pub open spec fn entity_named(s: Seq<char>) -> Option<TargetEntity> {
    if s == "person"@ {
        Some(TargetEntity::Person)
    } else if s == "household"@ {
        Some(TargetEntity::Household)
    } else {
        None
    }
}

/// The aggregation a target's `aggregation` field names: `sum`, `count_nonzero` or
/// `count`.
pub open spec fn aggregation_named(s: Seq<char>) -> Option<Aggregation> {
    if s == "sum"@ {
        Some(Aggregation::Sum)
    } else if s == "count_nonzero"@ {
        Some(Aggregation::CountNonzero)
    } else if s == "count"@ {
        Some(Aggregation::Count)
    } else {
        None
    }
}

/// Reads a target's entity; a target over any other entity contributes nothing.
pub fn target_entity(s: &str) -> (r: Option<TargetEntity>)
    ensures
        r == entity_named(s@),
{
    if text_eq(s, "person") {
        Some(TargetEntity::Person)
    } else if text_eq(s, "household") {
        Some(TargetEntity::Household)
    } else {
        None
    }
}

/// Reads a target's aggregation; a target with any other aggregation contributes
/// nothing.
pub fn target_aggregation(s: &str) -> (r: Option<Aggregation>)
    ensures
        r == aggregation_named(s@),
{
    if text_eq(s, "sum") {
        Some(Aggregation::Sum)
    } else if text_eq(s, "count_nonzero") {
        Some(Aggregation::CountNonzero)
    } else if text_eq(s, "count") {
        Some(Aggregation::Count)
    } else {
        None
    }
}

} // verus!
