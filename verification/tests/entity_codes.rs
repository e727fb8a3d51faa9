use policyengine_uk::entities::{
    gender_name, gss_to_region, lcfs_accommodation, lcfs_region, lcfs_tenure, parse_gender,
    parse_region, region_from_gvtregno, was_region, was_training_region, AccommodationType, Gender,
    Region, TenureType,
};

const ALL_REGIONS: [Region; 12] = [
    Region::NorthEast,
    Region::NorthWest,
    Region::Yorkshire,
    Region::EastMidlands,
    Region::WestMidlands,
    Region::EastOfEngland,
    Region::London,
    Region::SouthEast,
    Region::SouthWest,
    Region::Wales,
    Region::Scotland,
    Region::NorthernIreland,
];

#[test]
fn region_names() {
    assert_eq!(Region::NorthEast.name(), "North East");
    assert_eq!(Region::EastOfEngland.name(), "East of England");
    assert_eq!(Region::NorthernIreland.name(), "Northern Ireland");
    assert_eq!(Region::Yorkshire.name(), "Yorkshire");
}

#[test]
fn region_name_round_trip() {
    for r in ALL_REGIONS {
        assert_eq!(parse_region(r.name()), r);
    }
    assert_eq!(parse_region("Atlantis"), Region::London);
    assert_eq!(parse_region("london"), Region::London);
    assert_eq!(parse_region(" Wales"), Region::London);
}

#[test]
fn only_scotland_is_scotland() {
    for r in ALL_REGIONS {
        assert_eq!(r.is_scotland(), r == Region::Scotland);
        assert_eq!(r.is_wales(), r == Region::Wales);
    }
}

#[test]
fn frs_region_codes() {
    assert_eq!(Region::from_frs_code(1), Region::NorthEast);
    assert_eq!(Region::from_frs_code(4), Region::Yorkshire);
    assert_eq!(Region::from_frs_code(8), Region::London);
    assert_eq!(Region::from_frs_code(12), Region::Scotland);
    assert_eq!(Region::from_frs_code(13), Region::NorthernIreland);
    assert_eq!(Region::from_frs_code(3), Region::London);
    assert_eq!(Region::from_frs_code(-1), Region::London);
}

#[test]
fn gss_region_codes() {
    assert_eq!(gss_to_region("112000001"), Region::NorthEast);
    assert_eq!(gss_to_region(" 112000009 "), Region::SouthWest);
    assert_eq!(gss_to_region("299999999"), Region::Wales);
    assert_eq!(gss_to_region("399999999\n"), Region::Scotland);
    assert_eq!(gss_to_region("499999999"), Region::NorthernIreland);
    assert_eq!(gss_to_region(""), Region::London);
    assert_eq!(gss_to_region("112000010"), Region::London);
}

#[test]
fn was_region_codes() {
    assert_eq!(was_region(1), Region::NorthEast);
    assert_eq!(was_region(4), Region::Yorkshire);
    assert_eq!(was_region(11), Region::Wales);
    assert_eq!(was_region(12), Region::Scotland);
    assert_eq!(was_region(13), Region::Wales);
    assert_eq!(was_region(3), Region::London);
    assert_eq!(was_region(99), Region::London);
    assert_eq!(was_training_region(12), Region::Scotland);
    assert_eq!(was_training_region(1), Region::NorthEast);
    assert_eq!(was_training_region(13), Region::Wales);
    assert_eq!(was_training_region(3), Region::Wales);
}

#[test]
fn lcfs_codes() {
    assert_eq!(lcfs_region(1), Region::NorthEast);
    assert_eq!(lcfs_region(7), Region::London);
    assert_eq!(lcfs_region(12), Region::NorthernIreland);
    assert_eq!(lcfs_region(0), Region::London);
    assert_eq!(lcfs_tenure(1), TenureType::RentFromCouncil);
    assert_eq!(lcfs_tenure(2), TenureType::RentFromHA);
    assert_eq!(lcfs_tenure(4), TenureType::RentPrivately);
    assert_eq!(lcfs_tenure(6), TenureType::OwnedWithMortgage);
    assert_eq!(lcfs_tenure(7), TenureType::OwnedOutright);
    assert_eq!(lcfs_tenure(8), TenureType::Other);
    assert_eq!(lcfs_accommodation(1), AccommodationType::HouseDetached);
    assert_eq!(lcfs_accommodation(3), AccommodationType::HouseTerraced);
    assert_eq!(lcfs_accommodation(5), AccommodationType::Flat);
    assert_eq!(lcfs_accommodation(6), AccommodationType::Mobile);
    assert_eq!(lcfs_accommodation(-2), AccommodationType::Other);
}

#[test]
fn gender_round_trip() {
    assert_eq!(gender_name(Gender::Male), "male");
    assert_eq!(gender_name(Gender::Female), "female");
    assert_eq!(parse_gender(gender_name(Gender::Male)), Gender::Male);
    assert_eq!(parse_gender(gender_name(Gender::Female)), Gender::Female);
    assert_eq!(parse_gender("Male"), Gender::Female);
    assert_eq!(parse_gender(""), Gender::Female);
}

#[test]
fn model_category_codes() {
    for (i, r) in ALL_REGIONS.iter().enumerate() {
        assert_eq!(r.to_rf_code() as usize, i);
    }
    assert_eq!(TenureType::RentFromCouncil.to_rf_code(), 0);
    assert_eq!(TenureType::Other.to_rf_code(), 5);
    assert_eq!(AccommodationType::HouseDetached.to_rf_code(), 0);
    assert_eq!(AccommodationType::Flat.to_rf_code(), 3);
    assert_eq!(AccommodationType::Other.to_rf_code(), 5);
}

#[test]
fn tenure_groups() {
    assert!(TenureType::RentFromCouncil.is_renting());
    assert!(TenureType::RentFromHA.is_renting());
    assert!(TenureType::RentPrivately.is_renting());
    assert!(!TenureType::OwnedWithMortgage.is_renting());
    assert!(!TenureType::OwnedOutright.is_renting());
    assert!(!TenureType::Other.is_renting());
    assert_eq!(TenureType::OwnedOutright.need_category(), 0);
    assert_eq!(TenureType::OwnedWithMortgage.need_category(), 0);
    assert_eq!(TenureType::RentPrivately.need_category(), 1);
    assert_eq!(TenureType::RentFromHA.need_category(), 2);
    assert_eq!(TenureType::RentFromCouncil.need_category(), 2);
}

#[test]
fn wide_region_codes() {
    assert_eq!(region_from_gvtregno(1), Region::NorthEast);
    assert_eq!(region_from_gvtregno(12), Region::Scotland);
    assert_eq!(region_from_gvtregno(3), Region::London);
    assert_eq!(region_from_gvtregno(4294967297), Region::London);
    assert_eq!(region_from_gvtregno(-5), Region::London);
}
