use policyengine_uk::surveys::{
    age_from_agerange, detect_round, file_stem, is_lcfs_household_file, is_lcfs_person_file,
    is_spi_stem, is_was_household_file, product_name, spi_file_stems,
};

#[test]
fn product_names_from_table() {
    assert_eq!(product_name("c11111"), "rice");
    assert_eq!(product_name("c11121"), "bread");
    assert_eq!(product_name("c95411"), "stationery_diaries_art_materials");
    assert_eq!(product_name("c94319"), "national_lottery_stakes");
}

#[test]
fn unknown_product_code_names_itself() {
    assert_eq!(product_name("c99999"), "c99999");
    assert_eq!(product_name(""), "");
    assert_eq!(product_name("C11111"), "C11111");
}

#[test]
fn detect_round_from_marker() {
    assert_eq!(detect_round("was_round_7_hhold_eul"), 7);
    assert_eq!(detect_round("WAS_ROUND_8_HHOLD"), 8);
    assert_eq!(detect_round("round_5"), 5);
}

#[test]
fn detect_round_from_short_form() {
    assert_eq!(detect_round("was_r6_hhold"), 6);
    assert_eq!(detect_round("hhold_R9"), 9);
    assert_eq!(detect_round("r5_and_r8"), 8);
    assert_eq!(detect_round("round_x_r6"), 6);
}

#[test]
fn detect_round_defaults_to_seven() {
    assert_eq!(detect_round("hhold"), 7);
    assert_eq!(detect_round(""), 7);
    assert_eq!(detect_round("r4_r3"), 7);
    assert_eq!(detect_round("round_"), 7);
}

#[test]
fn was_household_files() {
    assert!(is_was_household_file("was_round_7_hhold_eul_march_2022.tab"));
    assert!(is_was_household_file("hhold.csv"));
    assert!(!is_was_household_file("was_round_7_person.tab"));
    assert!(!is_was_household_file("hhold.txt"));
    assert!(!is_was_household_file("HHOLD.TAB"));
}

#[test]
fn lcfs_files() {
    assert!(is_lcfs_household_file("lcfs_2021_dvhh_ukanon.tab"));
    assert!(is_lcfs_household_file("lcfs_dv_hh.csv"));
    assert!(!is_lcfs_household_file("lcfs_2021_dvper_ukanon202122.tab"));
    assert!(is_lcfs_person_file("lcfs_2021_dvper_ukanon202122.tab"));
    assert!(is_lcfs_person_file("dv_per.csv"));
    assert!(!is_lcfs_person_file("dvper.xlsx"));
    assert!(!is_lcfs_household_file("dvhh"));
}

#[test]
fn file_stems() {
    assert_eq!(file_stem("lcfs_2021_dvhh_ukanon.tab"), "lcfs_2021_dvhh_ukanon");
    assert_eq!(file_stem("a.b.c"), "a.b");
    assert_eq!(file_stem("noext"), "noext");
    assert_eq!(file_stem(".hidden"), "");
    assert_eq!(file_stem(""), "");
}

#[test]
fn spi_stems() {
    let (short, full) = spi_file_stems(2022);
    assert_eq!(short, "put2223uk");
    assert_eq!(full, "put2023uk");
    let (short, full) = spi_file_stems(1999);
    assert_eq!(short, "put9900uk");
    assert_eq!(full, "put2000uk");
    assert!(is_spi_stem("put2223uk", 2022));
    assert!(is_spi_stem("put2023uk", 2022));
    assert!(!is_spi_stem("put2122uk", 2022));
}

#[test]
fn spi_age_bands() {
    assert_eq!(age_from_agerange(1), 20);
    assert_eq!(age_from_agerange(4), 50);
    assert_eq!(age_from_agerange(7), 82);
    assert_eq!(age_from_agerange(0), 43);
    assert_eq!(age_from_agerange(8), 43);
}
