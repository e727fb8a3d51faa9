//! The categorical parts of the entity model: sex, region, tenure and accommodation
//! type, and how each survey codes them.
use vstd::prelude::*;
use crate::text::{chars_of, string_of, text_eq, trim_bounds, trimmed, trim_start, trim_end, is_white_space};

verus! {

/// Sex of a person as recorded in the survey microdata.
#[derive(Debug, Clone, Copy, PartialEq, Eq, Structural)]
pub enum Gender {
    Male,
    Female,
}

/// The twelve UK regions (nine English regions and the three other nations).
#[derive(Debug, Clone, Copy, PartialEq, Eq, Hash, Structural)]
pub enum Region {
    NorthEast,
    NorthWest,
    Yorkshire,
    EastMidlands,
    WestMidlands,
    EastOfEngland,
    London,
    SouthEast,
    SouthWest,
    Wales,
    Scotland,
    NorthernIreland,
}

/// The display name of a region, as the clean CSVs store it.
pub open spec fn region_name(r: Region) -> Seq<char> {
    match r {
        Region::NorthEast => "North East"@,
        Region::NorthWest => "North West"@,
        Region::Yorkshire => "Yorkshire"@,
        Region::EastMidlands => "East Midlands"@,
        Region::WestMidlands => "West Midlands"@,
        Region::EastOfEngland => "East of England"@,
        Region::London => "London"@,
        Region::SouthEast => "South East"@,
        Region::SouthWest => "South West"@,
        Region::Wales => "Wales"@,
        Region::Scotland => "Scotland"@,
        Region::NorthernIreland => "Northern Ireland"@,
    }
}

/// The region a display name stands for; London for any other text.
pub open spec fn region_from_name(s: Seq<char>) -> Region {
    if s == "North East"@ {
        Region::NorthEast
    } else if s == "North West"@ {
        Region::NorthWest
    } else if s == "Yorkshire"@ {
        Region::Yorkshire
    } else if s == "East Midlands"@ {
        Region::EastMidlands
    } else if s == "West Midlands"@ {
        Region::WestMidlands
    } else if s == "East of England"@ {
        Region::EastOfEngland
    } else if s == "London"@ {
        Region::London
    } else if s == "South East"@ {
        Region::SouthEast
    } else if s == "South West"@ {
        Region::SouthWest
    } else if s == "Wales"@ {
        Region::Wales
    } else if s == "Scotland"@ {
        Region::Scotland
    } else if s == "Northern Ireland"@ {
        Region::NorthernIreland
    } else {
        Region::London
    }
}

/// The position of a region in the list of regions, North East 0 to Northern Ireland 11.
pub open spec fn region_code(r: Region) -> u32 {
    match r {
        Region::NorthEast => 0,
        Region::NorthWest => 1,
        Region::Yorkshire => 2,
        Region::EastMidlands => 3,
        Region::WestMidlands => 4,
        Region::EastOfEngland => 5,
        Region::London => 6,
        Region::SouthEast => 7,
        Region::SouthWest => 8,
        Region::Wales => 9,
        Region::Scotland => 10,
        Region::NorthernIreland => 11,
    }
}

/// The region of an FRS `GVTREGNO` code (1-13, with no 3); London for any other code.
pub open spec fn region_of_frs_code(code: int) -> Region {
    if code == 1 {
        Region::NorthEast
    } else if code == 2 {
        Region::NorthWest
    } else if code == 4 {
        Region::Yorkshire
    } else if code == 5 {
        Region::EastMidlands
    } else if code == 6 {
        Region::WestMidlands
    } else if code == 7 {
        Region::EastOfEngland
    } else if code == 8 {
        Region::London
    } else if code == 9 {
        Region::SouthEast
    } else if code == 10 {
        Region::SouthWest
    } else if code == 11 {
        Region::Wales
    } else if code == 12 {
        Region::Scotland
    } else if code == 13 {
        Region::NorthernIreland
    } else {
        Region::London
    }
}

/// The FRS `GVTREGNO` code of a region: its position in the list of regions plus one,
/// with code 3 unused, so Yorkshire onwards sit one higher.
pub open spec fn frs_code_of(r: Region) -> int {
    if region_code(r) < 2 {
        region_code(r) + 1
    } else {
        region_code(r) + 2
    }
}

/// The FRS region codes follow the list of regions: every region is read back from
/// its own code, every FRS code names the region at its place in the list, and any
/// other code is taken as London.
pub proof fn lemma_frs_codes_follow_region_list(r: Region, code: int)
    ensures
        region_of_frs_code(frs_code_of(r)) == r,
        1 <= code <= 13 && code != 3 ==> frs_code_of(region_of_frs_code(code)) == code,
        !(1 <= code <= 13 && code != 3) ==> region_of_frs_code(code) == Region::London,
{
}

/// The LCFS region codes are the positions in the list of regions plus one, with
/// any other code taken as London.
pub proof fn lemma_lcfs_codes_follow_region_list(r: Region, code: int)
    ensures
        region_of_lcfs_code(region_code(r) + 1) == r,
        1 <= code <= 12 ==> region_code(region_of_lcfs_code(code)) + 1 == code,
        !(1 <= code <= 12) ==> region_of_lcfs_code(code) == Region::London,
{
}

/// The WAS region codes are the FRS codes, except that Northern Ireland (not
/// sampled) has none: code 13 is read as Wales, by the WAS loader and by the
/// training data alike, and the training data reads every unknown code as Wales.
pub proof fn lemma_was_codes_follow_region_list(r: Region, code: int)
    ensures
        r != Region::NorthernIreland ==> region_of_was_code(frs_code_of(r)) == r,
        r != Region::NorthernIreland ==> region_of_was_training_code(frs_code_of(r)) == r,
        region_of_was_code(13) == Region::Wales,
        !(1 <= code <= 12 && code != 3) ==> region_of_was_training_code(code) == Region::Wales,
{
}

impl Region {
    /// Whether the region is Scotland (Scottish income tax and benefits apply).
    pub fn is_scotland(&self) -> (r: bool)
        ensures
            r == (*self == Region::Scotland),
    {
        match self {
            Region::Scotland => true,
            _ => false,
        }
    }

    /// Whether the region is Wales (Welsh council tax and land transaction tax apply).
    pub fn is_wales(&self) -> (r: bool)
        ensures
            r == (*self == Region::Wales),
    {
        match self {
            Region::Wales => true,
            _ => false,
        }
    }

    /// The region of an FRS government office region code; London where the code is
    /// not one of the FRS codes.
    pub fn from_frs_code(code: i32) -> (r: Region)
        ensures
            r == region_of_frs_code(code as int),
    {
        match code {
            1 => Region::NorthEast,
            2 => Region::NorthWest,
            4 => Region::Yorkshire,
            5 => Region::EastMidlands,
            6 => Region::WestMidlands,
            7 => Region::EastOfEngland,
            8 => Region::London,
            9 => Region::SouthEast,
            10 => Region::SouthWest,
            11 => Region::Wales,
            12 => Region::Scotland,
            13 => Region::NorthernIreland,
            _ => Region::London,
        }
    }

    /// The region's category code as the imputation models take it: its position in
    /// the list of regions, North East 0 to Northern Ireland 11.
    pub fn to_rf_code(&self) -> (r: u32)
        ensures
            r == region_code(*self),
    {
        match self {
            Region::NorthEast => 0,
            Region::NorthWest => 1,
            Region::Yorkshire => 2,
            Region::EastMidlands => 3,
            Region::WestMidlands => 4,
            Region::EastOfEngland => 5,
            Region::London => 6,
            Region::SouthEast => 7,
            Region::SouthWest => 8,
            Region::Wales => 9,
            Region::Scotland => 10,
            Region::NorthernIreland => 11,
        }
    }

    /// The display name of the region.
    pub fn name(&self) -> (r: &'static str)
        ensures
            r@ == region_name(*self),
    {
        match self {
            Region::NorthEast => "North East",
            Region::NorthWest => "North West",
            Region::Yorkshire => "Yorkshire",
            Region::EastMidlands => "East Midlands",
            Region::WestMidlands => "West Midlands",
            Region::EastOfEngland => "East of England",
            Region::London => "London",
            Region::SouthEast => "South East",
            Region::SouthWest => "South West",
            Region::Wales => "Wales",
            Region::Scotland => "Scotland",
            Region::NorthernIreland => "Northern Ireland",
        }
    }
}

/// The region of a government office region code as the survey tables hold it (a
/// 64-bit field); London for any code that is not an FRS region code.
pub fn region_from_gvtregno(code: i64) -> (r: Region)
    ensures
        r == region_of_frs_code(code as int),
{
    if code < 1 || code > 13 {
        Region::London
    } else {
        Region::from_frs_code(code as i32)
    }
}

/// Reads a region from its display name, as the clean household CSV stores it;
/// London for a name it does not know.
pub fn parse_region(s: &str) -> (r: Region)
    ensures
        r == region_from_name(s@),
{
    if text_eq(s, "North East") {
        Region::NorthEast
    } else if text_eq(s, "North West") {
        Region::NorthWest
    } else if text_eq(s, "Yorkshire") {
        Region::Yorkshire
    } else if text_eq(s, "East Midlands") {
        Region::EastMidlands
    } else if text_eq(s, "West Midlands") {
        Region::WestMidlands
    } else if text_eq(s, "East of England") {
        Region::EastOfEngland
    } else if text_eq(s, "London") {
        Region::London
    } else if text_eq(s, "South East") {
        Region::SouthEast
    } else if text_eq(s, "South West") {
        Region::SouthWest
    } else if text_eq(s, "Wales") {
        Region::Wales
    } else if text_eq(s, "Scotland") {
        Region::Scotland
    } else if text_eq(s, "Northern Ireland") {
        Region::NorthernIreland
    } else {
        Region::London
    }
}

/// Reading back a region's display name gives the region: the region column of the
/// clean household CSV survives a write and a load.
pub proof fn lemma_region_name_round_trip(r: Region)
    ensures
        region_from_name(region_name(r)) == r,
{
    reveal_strlit("North East");
    reveal_strlit("North West");
    reveal_strlit("Yorkshire");
    reveal_strlit("East Midlands");
    reveal_strlit("West Midlands");
    reveal_strlit("East of England");
    reveal_strlit("London");
    reveal_strlit("South East");
    reveal_strlit("South West");
    reveal_strlit("Wales");
    reveal_strlit("Scotland");
    reveal_strlit("Northern Ireland");
    assert("North East"@.len() == 10);
    assert("North West"@.len() == 10);
    assert("Yorkshire"@.len() == 9);
    assert("East Midlands"@.len() == 13);
    assert("West Midlands"@.len() == 13);
    assert("East of England"@.len() == 15);
    assert("London"@.len() == 6);
    assert("South East"@.len() == 10);
    assert("South West"@.len() == 10);
    assert("Wales"@.len() == 5);
    assert("Scotland"@.len() == 8);
    assert("Northern Ireland"@.len() == 16);
    assert("North East"@[6] != "North West"@[6]);
    assert("North East"@[0] != "South East"@[0]);
    assert("North East"@[0] != "South West"@[0]);
    assert("North West"@[0] != "South East"@[0]);
    assert("North West"@[0] != "South West"@[0]);
    assert("South East"@[6] != "South West"@[6]);
    assert("East Midlands"@[0] != "West Midlands"@[0]);
}

/// The region of a GSS-style region code in the FRS household file (trimmed first);
/// London for any other code.
pub open spec fn region_of_gss_code(code: Seq<char>) -> Region {
    let c = trimmed(code);
    if c == "112000001"@ {
        Region::NorthEast
    } else if c == "112000002"@ {
        Region::NorthWest
    } else if c == "112000003"@ {
        Region::Yorkshire
    } else if c == "112000004"@ {
        Region::EastMidlands
    } else if c == "112000005"@ {
        Region::WestMidlands
    } else if c == "112000006"@ {
        Region::EastOfEngland
    } else if c == "112000007"@ {
        Region::London
    } else if c == "112000008"@ {
        Region::SouthEast
    } else if c == "112000009"@ {
        Region::SouthWest
    } else if c == "299999999"@ {
        Region::Wales
    } else if c == "399999999"@ {
        Region::Scotland
    } else if c == "499999999"@ {
        Region::NorthernIreland
    } else {
        Region::London
    }
}

/// The GSS-style code the FRS household file gives an English region: `11200000`
/// followed by the region's position in the list of regions plus one.
pub open spec fn english_gss_code(r: Region) -> Seq<char> {
    seq!['1', '1', '2', '0', '0', '0', '0', '0'] + seq![
        seq!['1', '2', '3', '4', '5', '6', '7', '8', '9'][region_code(r) as int],
    ]
}

/// The English GSS region codes follow the list of regions: each English region is
/// read back from the code numbered by its place in the list.
pub proof fn lemma_gss_codes_follow_region_list(r: Region)
    requires
        region_code(r) < 9,
    ensures
        region_of_gss_code(english_gss_code(r)) == r,
{
    let c = english_gss_code(r);
    assert(!is_white_space(c[0]) && !is_white_space(c[8]));
    assert(trim_start(c) == c);
    assert(trim_end(c) == c);
    reveal_strlit("112000001");
    reveal_strlit("112000002");
    reveal_strlit("112000003");
    reveal_strlit("112000004");
    reveal_strlit("112000005");
    reveal_strlit("112000006");
    reveal_strlit("112000007");
    reveal_strlit("112000008");
    reveal_strlit("112000009");
    match r {
        Region::NorthEast => {
            assert(c =~= "112000001"@);
        }
        Region::NorthWest => {
            assert(c =~= "112000002"@);
            assert(c[8] != "112000001"@[8]);
        }
        Region::Yorkshire => {
            assert(c =~= "112000003"@);
            assert(c[8] != "112000001"@[8]);
            assert(c[8] != "112000002"@[8]);
        }
        Region::EastMidlands => {
            assert(c =~= "112000004"@);
            assert(c[8] != "112000001"@[8]);
            assert(c[8] != "112000002"@[8]);
            assert(c[8] != "112000003"@[8]);
        }
        Region::WestMidlands => {
            assert(c =~= "112000005"@);
            assert(c[8] != "112000001"@[8]);
            assert(c[8] != "112000002"@[8]);
            assert(c[8] != "112000003"@[8]);
            assert(c[8] != "112000004"@[8]);
        }
        Region::EastOfEngland => {
            assert(c =~= "112000006"@);
            assert(c[8] != "112000001"@[8]);
            assert(c[8] != "112000002"@[8]);
            assert(c[8] != "112000003"@[8]);
            assert(c[8] != "112000004"@[8]);
            assert(c[8] != "112000005"@[8]);
        }
        Region::London => {
            assert(c =~= "112000007"@);
            assert(c[8] != "112000001"@[8]);
            assert(c[8] != "112000002"@[8]);
            assert(c[8] != "112000003"@[8]);
            assert(c[8] != "112000004"@[8]);
            assert(c[8] != "112000005"@[8]);
            assert(c[8] != "112000006"@[8]);
        }
        Region::SouthEast => {
            assert(c =~= "112000008"@);
            assert(c[8] != "112000001"@[8]);
            assert(c[8] != "112000002"@[8]);
            assert(c[8] != "112000003"@[8]);
            assert(c[8] != "112000004"@[8]);
            assert(c[8] != "112000005"@[8]);
            assert(c[8] != "112000006"@[8]);
            assert(c[8] != "112000007"@[8]);
        }
        Region::SouthWest => {
            assert(c =~= "112000009"@);
            assert(c[8] != "112000001"@[8]);
            assert(c[8] != "112000002"@[8]);
            assert(c[8] != "112000003"@[8]);
            assert(c[8] != "112000004"@[8]);
            assert(c[8] != "112000005"@[8]);
            assert(c[8] != "112000006"@[8]);
            assert(c[8] != "112000007"@[8]);
            assert(c[8] != "112000008"@[8]);
        }
        _ => {}
    }
}

/// Maps the FRS household file's region code to a region, ignoring surrounding white
/// space.
pub fn gss_to_region(code: &str) -> (r: Region)
    ensures
        r == region_of_gss_code(code@),
{
    let cs = chars_of(code);
    let (i, k) = trim_bounds(&cs);
    let mut t: Vec<char> = Vec::new();
    let mut j: usize = i;
    while j < k
        invariant
            i <= j <= k <= cs@.len(),
            t@ == cs@.subrange(i as int, j as int),
        decreases k - j,
    {
        t.push(cs[j]);
        j = j + 1;
        assert(t@ =~= cs@.subrange(i as int, j as int));
    }
    let ts = string_of(&t);
    let c = ts.as_str();
    if text_eq(c, "112000001") {
        Region::NorthEast
    } else if text_eq(c, "112000002") {
        Region::NorthWest
    } else if text_eq(c, "112000003") {
        Region::Yorkshire
    } else if text_eq(c, "112000004") {
        Region::EastMidlands
    } else if text_eq(c, "112000005") {
        Region::WestMidlands
    } else if text_eq(c, "112000006") {
        Region::EastOfEngland
    } else if text_eq(c, "112000007") {
        Region::London
    } else if text_eq(c, "112000008") {
        Region::SouthEast
    } else if text_eq(c, "112000009") {
        Region::SouthWest
    } else if text_eq(c, "299999999") {
        Region::Wales
    } else if text_eq(c, "399999999") {
        Region::Scotland
    } else if text_eq(c, "499999999") {
        Region::NorthernIreland
    } else {
        Region::London
    }
}

/// The region of a Wealth and Assets Survey region code, as the WAS loader reads it:
/// the WAS does not sample Northern Ireland, so code 13 is taken as Wales; London for
/// any other code.
pub open spec fn region_of_was_code(code: int) -> Region {
    if code == 13 {
        Region::Wales
    } else {
        region_of_frs_code(code)
    }
}

/// Maps a WAS region code for the standalone WAS loader.
pub fn was_region(code: i64) -> (r: Region)
    ensures
        r == region_of_was_code(code as int),
{
    match code {
        1 => Region::NorthEast,
        2 => Region::NorthWest,
        4 => Region::Yorkshire,
        5 => Region::EastMidlands,
        6 => Region::WestMidlands,
        7 => Region::EastOfEngland,
        8 => Region::London,
        9 => Region::SouthEast,
        10 => Region::SouthWest,
        11 => Region::Wales,
        12 => Region::Scotland,
        13 => Region::Wales,
        _ => Region::London,
    }
}

/// The region of a WAS region code in the wealth-imputation training data: any code
/// outside 1-12 (no 3) falls back to Wales.
pub open spec fn region_of_was_training_code(code: int) -> Region {
    if 1 <= code <= 12 && code != 3 {
        region_of_frs_code(code)
    } else {
        Region::Wales
    }
}

/// Maps a WAS region code for the wealth-imputation training data.
pub fn was_training_region(code: i64) -> (r: Region)
    ensures
        r == region_of_was_training_code(code as int),
{
    match code {
        1 => Region::NorthEast,
        2 => Region::NorthWest,
        4 => Region::Yorkshire,
        5 => Region::EastMidlands,
        6 => Region::WestMidlands,
        7 => Region::EastOfEngland,
        8 => Region::London,
        9 => Region::SouthEast,
        10 => Region::SouthWest,
        11 => Region::Wales,
        12 => Region::Scotland,
        _ => Region::Wales,
    }
}

/// The region of an LCFS `Gorx` code (1-12 in order, Yorkshire at 3); London for any
/// other code.
pub open spec fn region_of_lcfs_code(code: int) -> Region {
    if code == 1 {
        Region::NorthEast
    } else if code == 2 {
        Region::NorthWest
    } else if code == 3 {
        Region::Yorkshire
    } else if code == 4 {
        Region::EastMidlands
    } else if code == 5 {
        Region::WestMidlands
    } else if code == 6 {
        Region::EastOfEngland
    } else if code == 7 {
        Region::London
    } else if code == 8 {
        Region::SouthEast
    } else if code == 9 {
        Region::SouthWest
    } else if code == 10 {
        Region::Wales
    } else if code == 11 {
        Region::Scotland
    } else if code == 12 {
        Region::NorthernIreland
    } else {
        Region::London
    }
}

/// Maps an LCFS region code to a region.
pub fn lcfs_region(code: i64) -> (r: Region)
    ensures
        r == region_of_lcfs_code(code as int),
{
    match code {
        1 => Region::NorthEast,
        2 => Region::NorthWest,
        3 => Region::Yorkshire,
        4 => Region::EastMidlands,
        5 => Region::WestMidlands,
        6 => Region::EastOfEngland,
        7 => Region::London,
        8 => Region::SouthEast,
        9 => Region::SouthWest,
        10 => Region::Wales,
        11 => Region::Scotland,
        12 => Region::NorthernIreland,
        _ => Region::London,
    }
}

/// Housing tenure of a household.
#[derive(Debug, Clone, Copy, PartialEq, Eq, Structural)]
pub enum TenureType {
    RentFromCouncil,
    RentFromHA,
    RentPrivately,
    OwnedWithMortgage,
    OwnedOutright,
    Other,
}

/// The tenure of an LCFS `A122` code: 1 council, 2 housing association, 3-4 private or
/// rent-free, 5-6 mortgage or shared ownership, 7 owned outright, anything else other.
pub open spec fn tenure_of_lcfs_code(code: int) -> TenureType {
    if code == 1 {
        TenureType::RentFromCouncil
    } else if code == 2 {
        TenureType::RentFromHA
    } else if code == 3 || code == 4 {
        TenureType::RentPrivately
    } else if code == 5 || code == 6 {
        TenureType::OwnedWithMortgage
    } else if code == 7 {
        TenureType::OwnedOutright
    } else {
        TenureType::Other
    }
}

/// How the LCFS `A122` codes group households: 1-4 rent (from a council, a housing
/// association, privately or rent-free), 5-7 own their home, and of the owners only
/// code 7 owns outright, codes 5 (mortgage) and 6 (shared ownership) still paying
/// for it. Each group gets the tenure of its kind, and any other code is other.
pub proof fn lemma_lcfs_tenure_groups(code: int)
    ensures
        is_rented(tenure_of_lcfs_code(code)) <==> 1 <= code <= 4,
        (tenure_of_lcfs_code(code) == TenureType::RentFromCouncil) <==> code == 1,
        (tenure_of_lcfs_code(code) == TenureType::RentFromHA) <==> code == 2,
        (tenure_of_lcfs_code(code) == TenureType::OwnedWithMortgage) <==> (code == 5 || code == 6),
        (tenure_of_lcfs_code(code) == TenureType::OwnedOutright) <==> code == 7,
        (tenure_of_lcfs_code(code) == TenureType::Other) <==> !(1 <= code <= 7),
{
}

/// Whether a tenure is renting (from a council, a housing association or privately).
pub open spec fn is_rented(t: TenureType) -> bool {
    t == TenureType::RentFromCouncil || t == TenureType::RentFromHA || t == TenureType::RentPrivately
}

/// The tenure group the energy-need calibration uses: 0 owner-occupied (and other),
/// 1 private renting, 2 social renting.
pub open spec fn need_group(t: TenureType) -> usize {
    match t {
        TenureType::RentPrivately => 1,
        TenureType::RentFromCouncil | TenureType::RentFromHA => 2,
        _ => 0,
    }
}

/// The position of a tenure in the list of tenures, council renting 0 to other 5.
pub open spec fn tenure_code(t: TenureType) -> u32 {
    match t {
        TenureType::RentFromCouncil => 0,
        TenureType::RentFromHA => 1,
        TenureType::RentPrivately => 2,
        TenureType::OwnedWithMortgage => 3,
        TenureType::OwnedOutright => 4,
        TenureType::Other => 5,
    }
}

impl TenureType {
    /// Whether the household rents its home.
    pub fn is_renting(&self) -> (r: bool)
        ensures
            r == is_rented(*self),
    {
        match self {
            TenureType::RentFromCouncil | TenureType::RentFromHA | TenureType::RentPrivately => true,
            _ => false,
        }
    }

    /// The tenure group of the energy-need calibration.
    pub fn need_category(&self) -> (r: usize)
        ensures
            r == need_group(*self),
    {
        match self {
            TenureType::RentPrivately => 1,
            TenureType::RentFromCouncil | TenureType::RentFromHA => 2,
            _ => 0,
        }
    }

    /// The tenure's category code as the imputation models take it.
    pub fn to_rf_code(&self) -> (r: u32)
        ensures
            r == tenure_code(*self),
    {
        match self {
            TenureType::RentFromCouncil => 0,
            TenureType::RentFromHA => 1,
            TenureType::RentPrivately => 2,
            TenureType::OwnedWithMortgage => 3,
            TenureType::OwnedOutright => 4,
            TenureType::Other => 5,
        }
    }
}

/// Maps an LCFS tenure code to a tenure type.
pub fn lcfs_tenure(code: i64) -> (r: TenureType)
    ensures
        r == tenure_of_lcfs_code(code as int),
{
    match code {
        1 => TenureType::RentFromCouncil,
        2 => TenureType::RentFromHA,
        3 => TenureType::RentPrivately,
        4 => TenureType::RentPrivately,
        5 => TenureType::OwnedWithMortgage,
        6 => TenureType::OwnedWithMortgage,
        7 => TenureType::OwnedOutright,
        _ => TenureType::Other,
    }
}

/// Type of dwelling.
#[derive(Debug, Clone, Copy, PartialEq, Eq, Structural)]
pub enum AccommodationType {
    HouseDetached,
    HouseSemiDetached,
    HouseTerraced,
    Flat,
    Mobile,
    Other,
}

/// The dwelling type of an LCFS `A121` code: 1 detached, 2 semi-detached, 3 terraced,
/// 4-5 flat, 6 mobile, anything else other.
pub open spec fn accommodation_of_lcfs_code(code: int) -> AccommodationType {
    if code == 1 {
        AccommodationType::HouseDetached
    } else if code == 2 {
        AccommodationType::HouseSemiDetached
    } else if code == 3 {
        AccommodationType::HouseTerraced
    } else if code == 4 || code == 5 {
        AccommodationType::Flat
    } else if code == 6 {
        AccommodationType::Mobile
    } else {
        AccommodationType::Other
    }
}

/// How the LCFS `A121` codes group dwellings: 1-3 are houses (detached,
/// semi-detached, terraced, in that order of the list of dwelling types), 4 and 5
/// flats, 6 mobile homes, and any other code other.
pub proof fn lemma_lcfs_accommodation_groups(code: int)
    ensures
        1 <= code <= 3 ==> accommodation_code(accommodation_of_lcfs_code(code)) == code - 1,
        (accommodation_of_lcfs_code(code) == AccommodationType::Flat) <==> (code == 4 || code == 5),
        (accommodation_of_lcfs_code(code) == AccommodationType::Mobile) <==> code == 6,
        (accommodation_of_lcfs_code(code) == AccommodationType::Other) <==> !(1 <= code <= 6),
{
}

/// The position of a dwelling type in the list of dwelling types, detached 0 to other 5.
pub open spec fn accommodation_code(a: AccommodationType) -> u32 {
    match a {
        AccommodationType::HouseDetached => 0,
        AccommodationType::HouseSemiDetached => 1,
        AccommodationType::HouseTerraced => 2,
        AccommodationType::Flat => 3,
        AccommodationType::Mobile => 4,
        AccommodationType::Other => 5,
    }
}

impl AccommodationType {
    /// The dwelling type's category code as the imputation models take it.
    pub fn to_rf_code(&self) -> (r: u32)
        ensures
            r == accommodation_code(*self),
    {
        match self {
            AccommodationType::HouseDetached => 0,
            AccommodationType::HouseSemiDetached => 1,
            AccommodationType::HouseTerraced => 2,
            AccommodationType::Flat => 3,
            AccommodationType::Mobile => 4,
            AccommodationType::Other => 5,
        }
    }
}

/// Maps an LCFS accommodation code to a dwelling type.
pub fn lcfs_accommodation(code: i64) -> (r: AccommodationType)
    ensures
        r == accommodation_of_lcfs_code(code as int),
{
    match code {
        1 => AccommodationType::HouseDetached,
        2 => AccommodationType::HouseSemiDetached,
        3 => AccommodationType::HouseTerraced,
        4 | 5 => AccommodationType::Flat,
        6 => AccommodationType::Mobile,
        _ => AccommodationType::Other,
    }
}

/// The text the clean person CSV stores for a sex: `male` or `female`.
pub open spec fn gender_text(g: Gender) -> Seq<char> {
    match g {
        Gender::Male => "male"@,
        Gender::Female => "female"@,
    }
}

/// The sex a clean person CSV field stands for: `male` is male, anything else female.
pub open spec fn gender_from_text(s: Seq<char>) -> Gender {
    if s == "male"@ {
        Gender::Male
    } else {
        Gender::Female
    }
}

/// Writes a sex as the clean person CSV stores it.
pub fn gender_name(g: Gender) -> (r: &'static str)
    ensures
        r@ == gender_text(g),
{
    match g {
        Gender::Male => "male",
        Gender::Female => "female",
    }
}

/// Reads a sex from a clean person CSV field.
pub fn parse_gender(s: &str) -> (r: Gender)
    ensures
        r == gender_from_text(s@),
{
    if text_eq(s, "male") {
        Gender::Male
    } else {
        Gender::Female
    }
}

/// Reading back the text written for a sex gives the sex.
pub proof fn lemma_gender_round_trip(g: Gender)
    ensures
        gender_from_text(gender_text(g)) == g,
{
    reveal_strlit("male");
    reveal_strlit("female");
    assert("male"@.len() != "female"@.len());
}

} // verus!
