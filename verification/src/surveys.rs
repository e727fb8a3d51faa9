//! Survey-specific lookups: the Wealth and Assets Survey round a file belongs to and
//! the descriptive names of the Living Costs and Food Survey product codes.
use vstd::prelude::*;
use crate::text::{
    chars_of, text_eq, is_digit, digit_value, digit_char, decimal, decimal_string, two_digits,
    string_of, char_of_digit,
};

verus! {

/// The LCFS COICOP product codes and their descriptive names, in table order.
#[verifier::opaque]
pub open spec fn product_table() -> Seq<(&'static str, &'static str)> {
    seq![
        ("c11111", "rice"),
        ("c11121", "bread"),
        ("c11122", "buns_crispbread_and_biscuits"),
        ("c11131", "pasta_products"),
        ("c11141", "cakes_and_puddings"),
        ("c11142", "pastry_savoury"),
        ("c11151", "other_breads_and_cereals"),
        ("c11211", "beef_fresh_chilled_or_frozen"),
        ("c11221", "pork_fresh_chilled_or_frozen"),
        ("c11231", "lamb_fresh_chilled_or_frozen"),
        ("c11241", "poultry_fresh_chilled_or_frozen"),
        ("c11251", "sausages"),
        ("c11252", "bacon_and_ham"),
        ("c11253", "offal_pate_etc"),
        ("c11261", "other_preserved_or_processed_meat"),
        ("c11271", "other_fresh_chilled_or_frozen_edible_meat"),
        ("c11311", "fish_fresh_chilled_or_frozen"),
        ("c11321", "seafood_fresh_chilled_or_frozen"),
        ("c11331", "dried_smoked_or_salted_fish_and_seafood"),
        ("c11341", "other_preserved_or_processed_fish"),
        ("c11411", "whole_milk"),
        ("c11421", "low_fat_milk"),
        ("c11431", "preserved_milk"),
        ("c11441", "yoghurt"),
        ("c11451", "cheese_and_curd"),
        ("c11461", "other_milk_products"),
        ("c11471", "eggs"),
        ("c11511", "butter"),
        ("c11521", "margarine_and_other_vegetable_fats"),
        ("c11522", "peanut_butter"),
        ("c11531", "olive_oil"),
        ("c11541", "edible_oils"),
        ("c11551", "other_edible_animal_fats"),
        ("c11611", "citrus_fruits_fresh"),
        ("c11621", "bananas_fresh"),
        ("c11631", "apples_fresh"),
        ("c11641", "pears_fresh"),
        ("c11651", "stone_fruits_fresh"),
        ("c11661", "berries_fresh"),
        ("c11671", "other_fresh_chilled_or_frozen_fruits"),
        ("c11681", "dried_fruit_and_nuts"),
        ("c11691", "preserved_fruit_and_fruit_based_products"),
        ("c11711", "leaf_and_stem_vegetables"),
        ("c11721", "cabbages"),
        ("c11731", "vegetables_grown_for_fruit"),
        ("c11741", "root_crops_and_mushrooms"),
        ("c11751", "dried_vegetables"),
        ("c11761", "other_preserved_or_processed_vegetables"),
        ("c11771", "potatoes"),
        ("c11781", "other_tubers"),
        ("c11811", "sugar"),
        ("c11821", "jams_marmalades"),
        ("c11831", "chocolate"),
        ("c11841", "confectionery_products"),
        ("c11851", "edible_ices_and_ice_cream"),
        ("c11861", "other_sugar_products"),
        ("c11911", "sauces_condiments"),
        ("c11921", "salt_spices_and_culinary_herbs"),
        ("c11931", "yeast_dessert_preparations_soups"),
        ("c11941", "other_food_products"),
        ("c12111", "coffee"),
        ("c12121", "tea"),
        ("c12131", "cocoa_and_powdered_chocolate"),
        ("c12211", "mineral_or_spring_waters"),
        ("c12221", "soft_drinks"),
        ("c12231", "fruit_juices_and_squash"),
        ("c12241", "vegetable_juices"),
        ("c21111", "spirits_and_liqueurs"),
        ("c21211", "wine"),
        ("c21212", "fortified_wine"),
        ("c21213", "ciders_and_perry"),
        ("c21214", "alcopops"),
        ("c21221", "champagne_and_sparkling_wines"),
        ("c21311", "beer_and_lager"),
        ("c22111", "cigarettes"),
        ("c22121", "cigars"),
        ("c22131", "other_tobacco"),
        ("c31111", "clothing_materials"),
        ("c31211", "mens_outer_garments"),
        ("c31212", "mens_under_garments"),
        ("c31221", "womens_outer_garments"),
        ("c31222", "womens_under_garments"),
        ("c31231", "boys_outer_garments"),
        ("c31232", "girls_outer_garments"),
        ("c31233", "infants_outer_garments"),
        ("c31234", "childrens_under_garments"),
        ("c31311", "mens_accessories"),
        ("c31312", "womens_accessories"),
        ("c31313", "childrens_accessories"),
        ("c31314", "haberdashery"),
        ("c31315", "protective_headgear"),
        ("c31411", "clothing_hire"),
        ("c31412", "dry_cleaners_and_dyeing"),
        ("c31413", "laundry_laundrettes"),
        ("c32111", "footwear_for_men"),
        ("c32121", "footwear_for_women"),
        ("c32131", "footwear_for_children_and_infants"),
        ("c32211", "repair_and_hire_of_footwear"),
        ("c41211", "second_dwelling_rent"),
        ("c43111", "paint_wallpaper_timber"),
        ("c43112", "equipment_hire_small_materials"),
        ("c44211", "refuse_collection"),
        ("c45112", "second_dwelling_electricity"),
        ("c45114", "electricity_slot_meter"),
        ("c45212", "second_dwelling_gas"),
        ("c45214", "gas_slot_meter"),
        ("c45222", "bottled_gas"),
        ("c45312", "paraffin"),
        ("c45411", "coal_and_coke"),
        ("c45412", "wood_and_peat"),
        ("c45511", "hot_water_steam_and_ice"),
        ("c51113", "fancy_decorative_goods"),
        ("c51114", "garden_furniture"),
        ("c51212", "hard_floor_coverings"),
        ("c51311", "repair_of_furniture_furnishings"),
        ("c52111", "bedroom_textiles"),
        ("c52112", "other_household_textiles"),
        ("c53111", "refrigerators_freezers"),
        ("c53121", "washing_machines_dryers"),
        ("c53122", "dish_washing_machines"),
        ("c53131", "gas_cookers"),
        ("c53132", "electric_cookers"),
        ("c53133", "microwave_ovens"),
        ("c53141", "heaters_air_conditioners"),
        ("c53151", "vacuum_cleaners"),
        ("c53161", "sewing_and_knitting_machines"),
        ("c53171", "fire_extinguisher_safes_etc"),
        ("c53211", "small_electric_household_appliances"),
        ("c53311", "spare_parts_gas_and_electric_appliances"),
        ("c53312", "electrical_appliance_repairs"),
        ("c53313", "gas_appliance_repairs"),
        ("c53314", "rental_hire_of_major_household_appliance"),
        ("c54111", "glassware_china_pottery"),
        ("c54121", "cutlery_and_silverware"),
        ("c54131", "kitchen_utensils"),
        ("c54132", "storage_and_other_durable_household_articles"),
        ("c54141", "repair_of_glassware_tableware"),
        ("c55111", "electrical_tools"),
        ("c55112", "lawn_mowers"),
        ("c55211", "small_tools"),
        ("c55212", "door_electrical_and_other_fittings"),
        ("c55213", "garden_tools_and_equipment"),
        ("c55214", "electrical_consumables"),
        ("c56111", "detergents_washing_up_liquid"),
        ("c56112", "disinfectants_polishes_cleaning_materials"),
        ("c56121", "kitchen_disposables"),
        ("c56122", "household_hardware_and_appliances"),
        ("c56123", "kitchen_gloves_cloths_etc"),
        ("c56124", "pins_needles_and_tape_measures"),
        ("c56125", "nails_nuts_bolts_tape_and_glue"),
        ("c56211", "domestic_services"),
        ("c56221", "cleaning_of_carpets_curtains"),
        ("c56222", "other_household_services"),
        ("c56223", "hire_of_furniture_and_furnishings"),
        ("c61111", "nhs_prescription_charges"),
        ("c61112", "medicines_and_medical_goods"),
        ("c61211", "other_medical_products"),
        ("c61311", "spectacles_lenses"),
        ("c61312", "accessories_repairs_to_spectacles"),
        ("c61313", "non_optical_appliances_and_equipment"),
        ("c62111", "nhs_medical_services"),
        ("c62112", "private_medical_services"),
        ("c62113", "nhs_optical_services"),
        ("c62114", "private_optical_services"),
        ("c62211", "nhs_dental_services"),
        ("c62212", "private_dental_services"),
        ("c62311", "medical_analysis_laboratories"),
        ("c62321", "nhs_medical_auxiliaries"),
        ("c62322", "private_medical_auxiliaries"),
        ("c62331", "non_hospital_ambulance_services"),
        ("c63111", "hospital_services"),
        ("c71112", "loan_hp_new_car_van"),
        ("c71122", "loan_hp_secondhand_car_van"),
        ("c71212", "loan_hp_motorcycle"),
        ("c71311", "purchase_of_bicycle"),
        ("c71411", "animal_drawn_vehicles"),
        ("c72111", "car_van_accessories_and_fittings"),
        ("c72112", "car_van_spare_parts"),
        ("c72113", "motorcycle_accessories_and_spare_parts"),
        ("c72114", "antifreeze_cleaning_materials"),
        ("c72115", "bicycle_accessories_repairs"),
        ("c72211", "petrol"),
        ("c72212", "diesel_oil"),
        ("c72213", "other_motor_oils"),
        ("c72313", "motoring_organisation_subscription"),
        ("c72314", "car_washing_and_breakdown_services"),
        ("c72411", "parking_fees_tolls_and_permits"),
        ("c72412", "garage_rent_mot_etc"),
        ("c72413", "driving_lessons"),
        ("c72414", "hire_of_self_drive_cars_vans_bicycles"),
        ("c73112", "railway_and_tube_fares"),
        ("c73212", "bus_and_coach_fares"),
        ("c73213", "taxis_and_hired_cars"),
        ("c73214", "other_personal_travel"),
        ("c73311", "air_fares_within_uk"),
        ("c73312", "air_fares_international"),
        ("c73411", "water_travel"),
        ("c73512", "combined_fares"),
        ("c73513", "school_travel"),
        ("c73611", "delivery_charges"),
        ("c81111", "postage"),
        ("c82111", "telephone_purchase"),
        ("c82112", "mobile_phone_purchase"),
        ("c82113", "fax_machine_purchase"),
        ("c83112", "telephone_coin_and_other_payments"),
        ("c83114", "mobile_phone_other_payments"),
        ("c83115", "second_dwelling_telephone"),
        ("c91111", "audio_equipment"),
        ("c91112", "audio_equipment_in_car"),
        ("c91113", "audio_accessories"),
        ("c91121", "television_set"),
        ("c91122", "satellite_dish"),
        ("c91123", "satellite_dish_installation"),
        ("c91124", "video_recorder"),
        ("c91125", "digital_tv_decoder"),
        ("c91126", "spare_parts_for_tv_video_audio"),
        ("c91127", "cable_tv_connection"),
        ("c91128", "dvd_purchase"),
        ("c91211", "photographic_equipment"),
        ("c91221", "optical_instruments"),
        ("c91311", "personal_computers_printers"),
        ("c91411", "records_cds_audio_cassettes"),
        ("c91412", "video_cassettes"),
        ("c91413", "camera_films"),
        ("c91414", "dvds"),
        ("c91511", "repair_of_av_photo_equipment"),
        ("c92111", "boats_trailers_and_horses"),
        ("c92112", "caravans_mobile_homes"),
        ("c92114", "motor_caravan_new"),
        ("c92116", "motor_caravan_secondhand"),
        ("c92117", "accessories_for_boats_caravans"),
        ("c92211", "musical_instruments"),
        ("c92221", "major_durables_for_indoor_recreation"),
        ("c92311", "maintenance_repair_of_recreation_durables"),
        ("c93111", "games_toys_and_hobbies"),
        ("c93112", "computer_software_and_games"),
        ("c93113", "console_computer_games"),
        ("c93114", "games_toys_misc_decorative"),
        ("c93211", "equipment_for_sport_camping"),
        ("c93212", "bbq_and_swings"),
        ("c93311", "plants_flowers_seeds"),
        ("c93312", "garden_decorative"),
        ("c93313", "artificial_flowers"),
        ("c93411", "pet_food"),
        ("c93412", "pet_purchase_and_accessories"),
        ("c93511", "veterinary_services"),
        ("c94111", "spectator_sports"),
        ("c94112", "participant_sports"),
        ("c94113", "sports_and_social_club_subscriptions"),
        ("c94115", "hire_of_sport_equipment"),
        ("c94211", "cinemas"),
        ("c94212", "live_entertainment"),
        ("c94221", "museums_zoos_theme_parks"),
        ("c94232", "tv_licence_second_dwelling"),
        ("c94236", "tv_slot_meter_payments"),
        ("c94238", "video_cassette_rental"),
        ("c94239", "cassette_cd_hire"),
        ("c94241", "admissions_to_clubs_dances_bingo"),
        ("c94242", "social_events_and_gatherings"),
        ("c94243", "leisure_subscriptions"),
        ("c94244", "other_subscriptions"),
        ("c94245", "internet_subscription_fees"),
        ("c94246", "film_development_and_photos"),
        ("c94311", "football_pools_stakes"),
        ("c94312", "bingo_stakes"),
        ("c94313", "lottery_stakes"),
        ("c94314", "bookmaker_tote_betting_stakes"),
        ("c94315", "irish_lottery_stakes"),
        ("c94316", "national_lottery_instants"),
        ("c94319", "national_lottery_stakes"),
        ("c95111", "books"),
        ("c95211", "newspapers"),
        ("c95212", "magazines_and_periodicals"),
        ("c95311", "cards_calendars_posters"),
        ("c95411", "stationery_diaries_art_materials"),
    ]
}

/// The LCFS COICOP items and the names the LCFS Volume F derived-variable
/// documentation gives them, in COICOP order.
#[verifier::opaque]
pub open spec fn lcfs_item_names() -> Seq<(&'static str, &'static str)> {
    seq![
        ("c11111", "rice"),
        ("c11121", "bread"),
        ("c11122", "buns_crispbread_and_biscuits"),
        ("c11131", "pasta_products"),
        ("c11141", "cakes_and_puddings"),
        ("c11142", "pastry_savoury"),
        ("c11151", "other_breads_and_cereals"),
        ("c11211", "beef_fresh_chilled_or_frozen"),
        ("c11221", "pork_fresh_chilled_or_frozen"),
        ("c11231", "lamb_fresh_chilled_or_frozen"),
        ("c11241", "poultry_fresh_chilled_or_frozen"),
        ("c11251", "sausages"),
        ("c11252", "bacon_and_ham"),
        ("c11253", "offal_pate_etc"),
        ("c11261", "other_preserved_or_processed_meat"),
        ("c11271", "other_fresh_chilled_or_frozen_edible_meat"),
        ("c11311", "fish_fresh_chilled_or_frozen"),
        ("c11321", "seafood_fresh_chilled_or_frozen"),
        ("c11331", "dried_smoked_or_salted_fish_and_seafood"),
        ("c11341", "other_preserved_or_processed_fish"),
        ("c11411", "whole_milk"),
        ("c11421", "low_fat_milk"),
        ("c11431", "preserved_milk"),
        ("c11441", "yoghurt"),
        ("c11451", "cheese_and_curd"),
        ("c11461", "other_milk_products"),
        ("c11471", "eggs"),
        ("c11511", "butter"),
        ("c11521", "margarine_and_other_vegetable_fats"),
        ("c11522", "peanut_butter"),
        ("c11531", "olive_oil"),
        ("c11541", "edible_oils"),
        ("c11551", "other_edible_animal_fats"),
        ("c11611", "citrus_fruits_fresh"),
        ("c11621", "bananas_fresh"),
        ("c11631", "apples_fresh"),
        ("c11641", "pears_fresh"),
        ("c11651", "stone_fruits_fresh"),
        ("c11661", "berries_fresh"),
        ("c11671", "other_fresh_chilled_or_frozen_fruits"),
        ("c11681", "dried_fruit_and_nuts"),
        ("c11691", "preserved_fruit_and_fruit_based_products"),
        ("c11711", "leaf_and_stem_vegetables"),
        ("c11721", "cabbages"),
        ("c11731", "vegetables_grown_for_fruit"),
        ("c11741", "root_crops_and_mushrooms"),
        ("c11751", "dried_vegetables"),
        ("c11761", "other_preserved_or_processed_vegetables"),
        ("c11771", "potatoes"),
        ("c11781", "other_tubers"),
        ("c11811", "sugar"),
        ("c11821", "jams_marmalades"),
        ("c11831", "chocolate"),
        ("c11841", "confectionery_products"),
        ("c11851", "edible_ices_and_ice_cream"),
        ("c11861", "other_sugar_products"),
        ("c11911", "sauces_condiments"),
        ("c11921", "salt_spices_and_culinary_herbs"),
        ("c11931", "yeast_dessert_preparations_soups"),
        ("c11941", "other_food_products"),
        ("c12111", "coffee"),
        ("c12121", "tea"),
        ("c12131", "cocoa_and_powdered_chocolate"),
        ("c12211", "mineral_or_spring_waters"),
        ("c12221", "soft_drinks"),
        ("c12231", "fruit_juices_and_squash"),
        ("c12241", "vegetable_juices"),
        ("c21111", "spirits_and_liqueurs"),
        ("c21211", "wine"),
        ("c21212", "fortified_wine"),
        ("c21213", "ciders_and_perry"),
        ("c21214", "alcopops"),
        ("c21221", "champagne_and_sparkling_wines"),
        ("c21311", "beer_and_lager"),
        ("c22111", "cigarettes"),
        ("c22121", "cigars"),
        ("c22131", "other_tobacco"),
        ("c31111", "clothing_materials"),
        ("c31211", "mens_outer_garments"),
        ("c31212", "mens_under_garments"),
        ("c31221", "womens_outer_garments"),
        ("c31222", "womens_under_garments"),
        ("c31231", "boys_outer_garments"),
        ("c31232", "girls_outer_garments"),
        ("c31233", "infants_outer_garments"),
        ("c31234", "childrens_under_garments"),
        ("c31311", "mens_accessories"),
        ("c31312", "womens_accessories"),
        ("c31313", "childrens_accessories"),
        ("c31314", "haberdashery"),
        ("c31315", "protective_headgear"),
        ("c31411", "clothing_hire"),
        ("c31412", "dry_cleaners_and_dyeing"),
        ("c31413", "laundry_laundrettes"),
        ("c32111", "footwear_for_men"),
        ("c32121", "footwear_for_women"),
        ("c32131", "footwear_for_children_and_infants"),
        ("c32211", "repair_and_hire_of_footwear"),
        ("c41211", "second_dwelling_rent"),
        ("c43111", "paint_wallpaper_timber"),
        ("c43112", "equipment_hire_small_materials"),
        ("c44211", "refuse_collection"),
        ("c45112", "second_dwelling_electricity"),
        ("c45114", "electricity_slot_meter"),
        ("c45212", "second_dwelling_gas"),
        ("c45214", "gas_slot_meter"),
        ("c45222", "bottled_gas"),
        ("c45312", "paraffin"),
        ("c45411", "coal_and_coke"),
        ("c45412", "wood_and_peat"),
        ("c45511", "hot_water_steam_and_ice"),
        ("c51113", "fancy_decorative_goods"),
        ("c51114", "garden_furniture"),
        ("c51212", "hard_floor_coverings"),
        ("c51311", "repair_of_furniture_furnishings"),
        ("c52111", "bedroom_textiles"),
        ("c52112", "other_household_textiles"),
        ("c53111", "refrigerators_freezers"),
        ("c53121", "washing_machines_dryers"),
        ("c53122", "dish_washing_machines"),
        ("c53131", "gas_cookers"),
        ("c53132", "electric_cookers"),
        ("c53133", "microwave_ovens"),
        ("c53141", "heaters_air_conditioners"),
        ("c53151", "vacuum_cleaners"),
        ("c53161", "sewing_and_knitting_machines"),
        ("c53171", "fire_extinguisher_safes_etc"),
        ("c53211", "small_electric_household_appliances"),
        ("c53311", "spare_parts_gas_and_electric_appliances"),
        ("c53312", "electrical_appliance_repairs"),
        ("c53313", "gas_appliance_repairs"),
        ("c53314", "rental_hire_of_major_household_appliance"),
        ("c54111", "glassware_china_pottery"),
        ("c54121", "cutlery_and_silverware"),
        ("c54131", "kitchen_utensils"),
        ("c54132", "storage_and_other_durable_household_articles"),
        ("c54141", "repair_of_glassware_tableware"),
        ("c55111", "electrical_tools"),
        ("c55112", "lawn_mowers"),
        ("c55211", "small_tools"),
        ("c55212", "door_electrical_and_other_fittings"),
        ("c55213", "garden_tools_and_equipment"),
        ("c55214", "electrical_consumables"),
        ("c56111", "detergents_washing_up_liquid"),
        ("c56112", "disinfectants_polishes_cleaning_materials"),
        ("c56121", "kitchen_disposables"),
        ("c56122", "household_hardware_and_appliances"),
        ("c56123", "kitchen_gloves_cloths_etc"),
        ("c56124", "pins_needles_and_tape_measures"),
        ("c56125", "nails_nuts_bolts_tape_and_glue"),
        ("c56211", "domestic_services"),
        ("c56221", "cleaning_of_carpets_curtains"),
        ("c56222", "other_household_services"),
        ("c56223", "hire_of_furniture_and_furnishings"),
        ("c61111", "nhs_prescription_charges"),
        ("c61112", "medicines_and_medical_goods"),
        ("c61211", "other_medical_products"),
        ("c61311", "spectacles_lenses"),
        ("c61312", "accessories_repairs_to_spectacles"),
        ("c61313", "non_optical_appliances_and_equipment"),
        ("c62111", "nhs_medical_services"),
        ("c62112", "private_medical_services"),
        ("c62113", "nhs_optical_services"),
        ("c62114", "private_optical_services"),
        ("c62211", "nhs_dental_services"),
        ("c62212", "private_dental_services"),
        ("c62311", "medical_analysis_laboratories"),
        ("c62321", "nhs_medical_auxiliaries"),
        ("c62322", "private_medical_auxiliaries"),
        ("c62331", "non_hospital_ambulance_services"),
        ("c63111", "hospital_services"),
        ("c71112", "loan_hp_new_car_van"),
        ("c71122", "loan_hp_secondhand_car_van"),
        ("c71212", "loan_hp_motorcycle"),
        ("c71311", "purchase_of_bicycle"),
        ("c71411", "animal_drawn_vehicles"),
        ("c72111", "car_van_accessories_and_fittings"),
        ("c72112", "car_van_spare_parts"),
        ("c72113", "motorcycle_accessories_and_spare_parts"),
        ("c72114", "antifreeze_cleaning_materials"),
        ("c72115", "bicycle_accessories_repairs"),
        ("c72211", "petrol"),
        ("c72212", "diesel_oil"),
        ("c72213", "other_motor_oils"),
        ("c72313", "motoring_organisation_subscription"),
        ("c72314", "car_washing_and_breakdown_services"),
        ("c72411", "parking_fees_tolls_and_permits"),
        ("c72412", "garage_rent_mot_etc"),
        ("c72413", "driving_lessons"),
        ("c72414", "hire_of_self_drive_cars_vans_bicycles"),
        ("c73112", "railway_and_tube_fares"),
        ("c73212", "bus_and_coach_fares"),
        ("c73213", "taxis_and_hired_cars"),
        ("c73214", "other_personal_travel"),
        ("c73311", "air_fares_within_uk"),
        ("c73312", "air_fares_international"),
        ("c73411", "water_travel"),
        ("c73512", "combined_fares"),
        ("c73513", "school_travel"),
        ("c73611", "delivery_charges"),
        ("c81111", "postage"),
        ("c82111", "telephone_purchase"),
        ("c82112", "mobile_phone_purchase"),
        ("c82113", "fax_machine_purchase"),
        ("c83112", "telephone_coin_and_other_payments"),
        ("c83114", "mobile_phone_other_payments"),
        ("c83115", "second_dwelling_telephone"),
        ("c91111", "audio_equipment"),
        ("c91112", "audio_equipment_in_car"),
        ("c91113", "audio_accessories"),
        ("c91121", "television_set"),
        ("c91122", "satellite_dish"),
        ("c91123", "satellite_dish_installation"),
        ("c91124", "video_recorder"),
        ("c91125", "digital_tv_decoder"),
        ("c91126", "spare_parts_for_tv_video_audio"),
        ("c91127", "cable_tv_connection"),
        ("c91128", "dvd_purchase"),
        ("c91211", "photographic_equipment"),
        ("c91221", "optical_instruments"),
        ("c91311", "personal_computers_printers"),
        ("c91411", "records_cds_audio_cassettes"),
        ("c91412", "video_cassettes"),
        ("c91413", "camera_films"),
        ("c91414", "dvds"),
        ("c91511", "repair_of_av_photo_equipment"),
        ("c92111", "boats_trailers_and_horses"),
        ("c92112", "caravans_mobile_homes"),
        ("c92114", "motor_caravan_new"),
        ("c92116", "motor_caravan_secondhand"),
        ("c92117", "accessories_for_boats_caravans"),
        ("c92211", "musical_instruments"),
        ("c92221", "major_durables_for_indoor_recreation"),
        ("c92311", "maintenance_repair_of_recreation_durables"),
        ("c93111", "games_toys_and_hobbies"),
        ("c93112", "computer_software_and_games"),
        ("c93113", "console_computer_games"),
        ("c93114", "games_toys_misc_decorative"),
        ("c93211", "equipment_for_sport_camping"),
        ("c93212", "bbq_and_swings"),
        ("c93311", "plants_flowers_seeds"),
        ("c93312", "garden_decorative"),
        ("c93313", "artificial_flowers"),
        ("c93411", "pet_food"),
        ("c93412", "pet_purchase_and_accessories"),
        ("c93511", "veterinary_services"),
        ("c94111", "spectator_sports"),
        ("c94112", "participant_sports"),
        ("c94113", "sports_and_social_club_subscriptions"),
        ("c94115", "hire_of_sport_equipment"),
        ("c94211", "cinemas"),
        ("c94212", "live_entertainment"),
        ("c94221", "museums_zoos_theme_parks"),
        ("c94232", "tv_licence_second_dwelling"),
        ("c94236", "tv_slot_meter_payments"),
        ("c94238", "video_cassette_rental"),
        ("c94239", "cassette_cd_hire"),
        ("c94241", "admissions_to_clubs_dances_bingo"),
        ("c94242", "social_events_and_gatherings"),
        ("c94243", "leisure_subscriptions"),
        ("c94244", "other_subscriptions"),
        ("c94245", "internet_subscription_fees"),
        ("c94246", "film_development_and_photos"),
        ("c94311", "football_pools_stakes"),
        ("c94312", "bingo_stakes"),
        ("c94313", "lottery_stakes"),
        ("c94314", "bookmaker_tote_betting_stakes"),
        ("c94315", "irish_lottery_stakes"),
        ("c94316", "national_lottery_instants"),
        ("c94319", "national_lottery_stakes"),
        ("c95111", "books"),
        ("c95211", "newspapers"),
        ("c95212", "magazines_and_periodicals"),
        ("c95311", "cards_calendars_posters"),
        ("c95411", "stationery_diaries_art_materials"),
    ]
}

/// The number a COICOP item code carries after its leading `c` (`c11131` is 11131).
pub open spec fn item_number(code: Seq<char>) -> int {
    10000 * (code[1] as int - '0' as int) + 1000 * (code[2] as int - '0' as int) + 100 * (
    code[3] as int - '0' as int) + 10 * (code[4] as int - '0' as int) + (code[5] as int
        - '0' as int)
}

/// Whether the item numbers of the entries from `i` on rise strictly.
pub open spec fn numbers_rise(t: Seq<(&'static str, &'static str)>, i: int) -> bool
    decreases t.len() - i,
{
    if i < 0 || i + 1 >= t.len() {
        true
    } else {
        item_number(t[i].0@) < item_number(t[i + 1].0@) && numbers_rise(t, i + 1)
    }
}

proof fn lemma_numbers_rise(t: Seq<(&'static str, &'static str)>, i: int, j: int, k: int)
    requires
        0 <= i <= j < k < t.len(),
        numbers_rise(t, i),
    ensures
        item_number(t[j].0@) < item_number(t[k].0@),
    decreases t.len() - i,
{
    if i < j {
        lemma_numbers_rise(t, i + 1, j, k);
    } else if k > j + 1 {
        lemma_numbers_rise(t, i + 1, j + 1, k);
    }
}

proof fn lemma_name_from_skips(t: Seq<(&'static str, &'static str)>, code: Seq<char>, i: int, k: int)
    requires
        0 <= i <= k <= t.len(),
        forall|j: int| i <= j < k ==> t[j].0@ != code,
    ensures
        name_from(t, code, i) == name_from(t, code, k),
    decreases k - i,
{
    if i < k {
        lemma_name_from_skips(t, code, i + 1, k);
    }
}

proof fn lemma_item_numbers_rise_0()
    requires
        numbers_rise(lcfs_item_names(), 25),
    ensures
        numbers_rise(lcfs_item_names(), 0),
{
    reveal(lcfs_item_names);
    let t = lcfs_item_names();
    assert(t.len() == 275);
    reveal_strlit("c11111");
    assert(t[0].0@ == "c11111"@);
    assert(item_number("c11111"@) == 11111);
    reveal_strlit("c11121");
    assert(t[1].0@ == "c11121"@);
    assert(item_number("c11121"@) == 11121);
    reveal_strlit("c11122");
    assert(t[2].0@ == "c11122"@);
    assert(item_number("c11122"@) == 11122);
    reveal_strlit("c11131");
    assert(t[3].0@ == "c11131"@);
    assert(item_number("c11131"@) == 11131);
    reveal_strlit("c11141");
    assert(t[4].0@ == "c11141"@);
    assert(item_number("c11141"@) == 11141);
    reveal_strlit("c11142");
    assert(t[5].0@ == "c11142"@);
    assert(item_number("c11142"@) == 11142);
    reveal_strlit("c11151");
    assert(t[6].0@ == "c11151"@);
    assert(item_number("c11151"@) == 11151);
    reveal_strlit("c11211");
    assert(t[7].0@ == "c11211"@);
    assert(item_number("c11211"@) == 11211);
    reveal_strlit("c11221");
    assert(t[8].0@ == "c11221"@);
    assert(item_number("c11221"@) == 11221);
    reveal_strlit("c11231");
    assert(t[9].0@ == "c11231"@);
    assert(item_number("c11231"@) == 11231);
    reveal_strlit("c11241");
    assert(t[10].0@ == "c11241"@);
    assert(item_number("c11241"@) == 11241);
    reveal_strlit("c11251");
    assert(t[11].0@ == "c11251"@);
    assert(item_number("c11251"@) == 11251);
    reveal_strlit("c11252");
    assert(t[12].0@ == "c11252"@);
    assert(item_number("c11252"@) == 11252);
    reveal_strlit("c11253");
    assert(t[13].0@ == "c11253"@);
    assert(item_number("c11253"@) == 11253);
    reveal_strlit("c11261");
    assert(t[14].0@ == "c11261"@);
    assert(item_number("c11261"@) == 11261);
    reveal_strlit("c11271");
    assert(t[15].0@ == "c11271"@);
    assert(item_number("c11271"@) == 11271);
    reveal_strlit("c11311");
    assert(t[16].0@ == "c11311"@);
    assert(item_number("c11311"@) == 11311);
    reveal_strlit("c11321");
    assert(t[17].0@ == "c11321"@);
    assert(item_number("c11321"@) == 11321);
    reveal_strlit("c11331");
    assert(t[18].0@ == "c11331"@);
    assert(item_number("c11331"@) == 11331);
    reveal_strlit("c11341");
    assert(t[19].0@ == "c11341"@);
    assert(item_number("c11341"@) == 11341);
    reveal_strlit("c11411");
    assert(t[20].0@ == "c11411"@);
    assert(item_number("c11411"@) == 11411);
    reveal_strlit("c11421");
    assert(t[21].0@ == "c11421"@);
    assert(item_number("c11421"@) == 11421);
    reveal_strlit("c11431");
    assert(t[22].0@ == "c11431"@);
    assert(item_number("c11431"@) == 11431);
    reveal_strlit("c11441");
    assert(t[23].0@ == "c11441"@);
    assert(item_number("c11441"@) == 11441);
    reveal_strlit("c11451");
    assert(t[24].0@ == "c11451"@);
    assert(item_number("c11451"@) == 11451);
    reveal_strlit("c11461");
    assert(t[25].0@ == "c11461"@);
    assert(item_number("c11461"@) == 11461);
    assert(numbers_rise(t, 24));
    assert(numbers_rise(t, 23));
    assert(numbers_rise(t, 22));
    assert(numbers_rise(t, 21));
    assert(numbers_rise(t, 20));
    assert(numbers_rise(t, 19));
    assert(numbers_rise(t, 18));
    assert(numbers_rise(t, 17));
    assert(numbers_rise(t, 16));
    assert(numbers_rise(t, 15));
    assert(numbers_rise(t, 14));
    assert(numbers_rise(t, 13));
    assert(numbers_rise(t, 12));
    assert(numbers_rise(t, 11));
    assert(numbers_rise(t, 10));
    assert(numbers_rise(t, 9));
    assert(numbers_rise(t, 8));
    assert(numbers_rise(t, 7));
    assert(numbers_rise(t, 6));
    assert(numbers_rise(t, 5));
    assert(numbers_rise(t, 4));
    assert(numbers_rise(t, 3));
    assert(numbers_rise(t, 2));
    assert(numbers_rise(t, 1));
    assert(numbers_rise(t, 0));
}

proof fn lemma_item_numbers_rise_25()
    requires
        numbers_rise(lcfs_item_names(), 50),
    ensures
        numbers_rise(lcfs_item_names(), 25),
{
    reveal(lcfs_item_names);
    let t = lcfs_item_names();
    assert(t.len() == 275);
    reveal_strlit("c11461");
    assert(t[25].0@ == "c11461"@);
    assert(item_number("c11461"@) == 11461);
    reveal_strlit("c11471");
    assert(t[26].0@ == "c11471"@);
    assert(item_number("c11471"@) == 11471);
    reveal_strlit("c11511");
    assert(t[27].0@ == "c11511"@);
    assert(item_number("c11511"@) == 11511);
    reveal_strlit("c11521");
    assert(t[28].0@ == "c11521"@);
    assert(item_number("c11521"@) == 11521);
    reveal_strlit("c11522");
    assert(t[29].0@ == "c11522"@);
    assert(item_number("c11522"@) == 11522);
    reveal_strlit("c11531");
    assert(t[30].0@ == "c11531"@);
    assert(item_number("c11531"@) == 11531);
    reveal_strlit("c11541");
    assert(t[31].0@ == "c11541"@);
    assert(item_number("c11541"@) == 11541);
    reveal_strlit("c11551");
    assert(t[32].0@ == "c11551"@);
    assert(item_number("c11551"@) == 11551);
    reveal_strlit("c11611");
    assert(t[33].0@ == "c11611"@);
    assert(item_number("c11611"@) == 11611);
    reveal_strlit("c11621");
    assert(t[34].0@ == "c11621"@);
    assert(item_number("c11621"@) == 11621);
    reveal_strlit("c11631");
    assert(t[35].0@ == "c11631"@);
    assert(item_number("c11631"@) == 11631);
    reveal_strlit("c11641");
    assert(t[36].0@ == "c11641"@);
    assert(item_number("c11641"@) == 11641);
    reveal_strlit("c11651");
    assert(t[37].0@ == "c11651"@);
    assert(item_number("c11651"@) == 11651);
    reveal_strlit("c11661");
    assert(t[38].0@ == "c11661"@);
    assert(item_number("c11661"@) == 11661);
    reveal_strlit("c11671");
    assert(t[39].0@ == "c11671"@);
    assert(item_number("c11671"@) == 11671);
    reveal_strlit("c11681");
    assert(t[40].0@ == "c11681"@);
    assert(item_number("c11681"@) == 11681);
    reveal_strlit("c11691");
    assert(t[41].0@ == "c11691"@);
    assert(item_number("c11691"@) == 11691);
    reveal_strlit("c11711");
    assert(t[42].0@ == "c11711"@);
    assert(item_number("c11711"@) == 11711);
    reveal_strlit("c11721");
    assert(t[43].0@ == "c11721"@);
    assert(item_number("c11721"@) == 11721);
    reveal_strlit("c11731");
    assert(t[44].0@ == "c11731"@);
    assert(item_number("c11731"@) == 11731);
    reveal_strlit("c11741");
    assert(t[45].0@ == "c11741"@);
    assert(item_number("c11741"@) == 11741);
    reveal_strlit("c11751");
    assert(t[46].0@ == "c11751"@);
    assert(item_number("c11751"@) == 11751);
    reveal_strlit("c11761");
    assert(t[47].0@ == "c11761"@);
    assert(item_number("c11761"@) == 11761);
    reveal_strlit("c11771");
    assert(t[48].0@ == "c11771"@);
    assert(item_number("c11771"@) == 11771);
    reveal_strlit("c11781");
    assert(t[49].0@ == "c11781"@);
    assert(item_number("c11781"@) == 11781);
    reveal_strlit("c11811");
    assert(t[50].0@ == "c11811"@);
    assert(item_number("c11811"@) == 11811);
    assert(numbers_rise(t, 49));
    assert(numbers_rise(t, 48));
    assert(numbers_rise(t, 47));
    assert(numbers_rise(t, 46));
    assert(numbers_rise(t, 45));
    assert(numbers_rise(t, 44));
    assert(numbers_rise(t, 43));
    assert(numbers_rise(t, 42));
    assert(numbers_rise(t, 41));
    assert(numbers_rise(t, 40));
    assert(numbers_rise(t, 39));
    assert(numbers_rise(t, 38));
    assert(numbers_rise(t, 37));
    assert(numbers_rise(t, 36));
    assert(numbers_rise(t, 35));
    assert(numbers_rise(t, 34));
    assert(numbers_rise(t, 33));
    assert(numbers_rise(t, 32));
    assert(numbers_rise(t, 31));
    assert(numbers_rise(t, 30));
    assert(numbers_rise(t, 29));
    assert(numbers_rise(t, 28));
    assert(numbers_rise(t, 27));
    assert(numbers_rise(t, 26));
    assert(numbers_rise(t, 25));
}

proof fn lemma_item_numbers_rise_50()
    requires
        numbers_rise(lcfs_item_names(), 75),
    ensures
        numbers_rise(lcfs_item_names(), 50),
{
    reveal(lcfs_item_names);
    let t = lcfs_item_names();
    assert(t.len() == 275);
    reveal_strlit("c11811");
    assert(t[50].0@ == "c11811"@);
    assert(item_number("c11811"@) == 11811);
    reveal_strlit("c11821");
    assert(t[51].0@ == "c11821"@);
    assert(item_number("c11821"@) == 11821);
    reveal_strlit("c11831");
    assert(t[52].0@ == "c11831"@);
    assert(item_number("c11831"@) == 11831);
    reveal_strlit("c11841");
    assert(t[53].0@ == "c11841"@);
    assert(item_number("c11841"@) == 11841);
    reveal_strlit("c11851");
    assert(t[54].0@ == "c11851"@);
    assert(item_number("c11851"@) == 11851);
    reveal_strlit("c11861");
    assert(t[55].0@ == "c11861"@);
    assert(item_number("c11861"@) == 11861);
    reveal_strlit("c11911");
    assert(t[56].0@ == "c11911"@);
    assert(item_number("c11911"@) == 11911);
    reveal_strlit("c11921");
    assert(t[57].0@ == "c11921"@);
    assert(item_number("c11921"@) == 11921);
    reveal_strlit("c11931");
    assert(t[58].0@ == "c11931"@);
    assert(item_number("c11931"@) == 11931);
    reveal_strlit("c11941");
    assert(t[59].0@ == "c11941"@);
    assert(item_number("c11941"@) == 11941);
    reveal_strlit("c12111");
    assert(t[60].0@ == "c12111"@);
    assert(item_number("c12111"@) == 12111);
    reveal_strlit("c12121");
    assert(t[61].0@ == "c12121"@);
    assert(item_number("c12121"@) == 12121);
    reveal_strlit("c12131");
    assert(t[62].0@ == "c12131"@);
    assert(item_number("c12131"@) == 12131);
    reveal_strlit("c12211");
    assert(t[63].0@ == "c12211"@);
    assert(item_number("c12211"@) == 12211);
    reveal_strlit("c12221");
    assert(t[64].0@ == "c12221"@);
    assert(item_number("c12221"@) == 12221);
    reveal_strlit("c12231");
    assert(t[65].0@ == "c12231"@);
    assert(item_number("c12231"@) == 12231);
    reveal_strlit("c12241");
    assert(t[66].0@ == "c12241"@);
    assert(item_number("c12241"@) == 12241);
    reveal_strlit("c21111");
    assert(t[67].0@ == "c21111"@);
    assert(item_number("c21111"@) == 21111);
    reveal_strlit("c21211");
    assert(t[68].0@ == "c21211"@);
    assert(item_number("c21211"@) == 21211);
    reveal_strlit("c21212");
    assert(t[69].0@ == "c21212"@);
    assert(item_number("c21212"@) == 21212);
    reveal_strlit("c21213");
    assert(t[70].0@ == "c21213"@);
    assert(item_number("c21213"@) == 21213);
    reveal_strlit("c21214");
    assert(t[71].0@ == "c21214"@);
    assert(item_number("c21214"@) == 21214);
    reveal_strlit("c21221");
    assert(t[72].0@ == "c21221"@);
    assert(item_number("c21221"@) == 21221);
    reveal_strlit("c21311");
    assert(t[73].0@ == "c21311"@);
    assert(item_number("c21311"@) == 21311);
    reveal_strlit("c22111");
    assert(t[74].0@ == "c22111"@);
    assert(item_number("c22111"@) == 22111);
    reveal_strlit("c22121");
    assert(t[75].0@ == "c22121"@);
    assert(item_number("c22121"@) == 22121);
    assert(numbers_rise(t, 74));
    assert(numbers_rise(t, 73));
    assert(numbers_rise(t, 72));
    assert(numbers_rise(t, 71));
    assert(numbers_rise(t, 70));
    assert(numbers_rise(t, 69));
    assert(numbers_rise(t, 68));
    assert(numbers_rise(t, 67));
    assert(numbers_rise(t, 66));
    assert(numbers_rise(t, 65));
    assert(numbers_rise(t, 64));
    assert(numbers_rise(t, 63));
    assert(numbers_rise(t, 62));
    assert(numbers_rise(t, 61));
    assert(numbers_rise(t, 60));
    assert(numbers_rise(t, 59));
    assert(numbers_rise(t, 58));
    assert(numbers_rise(t, 57));
    assert(numbers_rise(t, 56));
    assert(numbers_rise(t, 55));
    assert(numbers_rise(t, 54));
    assert(numbers_rise(t, 53));
    assert(numbers_rise(t, 52));
    assert(numbers_rise(t, 51));
    assert(numbers_rise(t, 50));
}

proof fn lemma_item_numbers_rise_75()
    requires
        numbers_rise(lcfs_item_names(), 100),
    ensures
        numbers_rise(lcfs_item_names(), 75),
{
    reveal(lcfs_item_names);
    let t = lcfs_item_names();
    assert(t.len() == 275);
    reveal_strlit("c22121");
    assert(t[75].0@ == "c22121"@);
    assert(item_number("c22121"@) == 22121);
    reveal_strlit("c22131");
    assert(t[76].0@ == "c22131"@);
    assert(item_number("c22131"@) == 22131);
    reveal_strlit("c31111");
    assert(t[77].0@ == "c31111"@);
    assert(item_number("c31111"@) == 31111);
    reveal_strlit("c31211");
    assert(t[78].0@ == "c31211"@);
    assert(item_number("c31211"@) == 31211);
    reveal_strlit("c31212");
    assert(t[79].0@ == "c31212"@);
    assert(item_number("c31212"@) == 31212);
    reveal_strlit("c31221");
    assert(t[80].0@ == "c31221"@);
    assert(item_number("c31221"@) == 31221);
    reveal_strlit("c31222");
    assert(t[81].0@ == "c31222"@);
    assert(item_number("c31222"@) == 31222);
    reveal_strlit("c31231");
    assert(t[82].0@ == "c31231"@);
    assert(item_number("c31231"@) == 31231);
    reveal_strlit("c31232");
    assert(t[83].0@ == "c31232"@);
    assert(item_number("c31232"@) == 31232);
    reveal_strlit("c31233");
    assert(t[84].0@ == "c31233"@);
    assert(item_number("c31233"@) == 31233);
    reveal_strlit("c31234");
    assert(t[85].0@ == "c31234"@);
    assert(item_number("c31234"@) == 31234);
    reveal_strlit("c31311");
    assert(t[86].0@ == "c31311"@);
    assert(item_number("c31311"@) == 31311);
    reveal_strlit("c31312");
    assert(t[87].0@ == "c31312"@);
    assert(item_number("c31312"@) == 31312);
    reveal_strlit("c31313");
    assert(t[88].0@ == "c31313"@);
    assert(item_number("c31313"@) == 31313);
    reveal_strlit("c31314");
    assert(t[89].0@ == "c31314"@);
    assert(item_number("c31314"@) == 31314);
    reveal_strlit("c31315");
    assert(t[90].0@ == "c31315"@);
    assert(item_number("c31315"@) == 31315);
    reveal_strlit("c31411");
    assert(t[91].0@ == "c31411"@);
    assert(item_number("c31411"@) == 31411);
    reveal_strlit("c31412");
    assert(t[92].0@ == "c31412"@);
    assert(item_number("c31412"@) == 31412);
    reveal_strlit("c31413");
    assert(t[93].0@ == "c31413"@);
    assert(item_number("c31413"@) == 31413);
    reveal_strlit("c32111");
    assert(t[94].0@ == "c32111"@);
    assert(item_number("c32111"@) == 32111);
    reveal_strlit("c32121");
    assert(t[95].0@ == "c32121"@);
    assert(item_number("c32121"@) == 32121);
    reveal_strlit("c32131");
    assert(t[96].0@ == "c32131"@);
    assert(item_number("c32131"@) == 32131);
    reveal_strlit("c32211");
    assert(t[97].0@ == "c32211"@);
    assert(item_number("c32211"@) == 32211);
    reveal_strlit("c41211");
    assert(t[98].0@ == "c41211"@);
    assert(item_number("c41211"@) == 41211);
    reveal_strlit("c43111");
    assert(t[99].0@ == "c43111"@);
    assert(item_number("c43111"@) == 43111);
    reveal_strlit("c43112");
    assert(t[100].0@ == "c43112"@);
    assert(item_number("c43112"@) == 43112);
    assert(numbers_rise(t, 99));
    assert(numbers_rise(t, 98));
    assert(numbers_rise(t, 97));
    assert(numbers_rise(t, 96));
    assert(numbers_rise(t, 95));
    assert(numbers_rise(t, 94));
    assert(numbers_rise(t, 93));
    assert(numbers_rise(t, 92));
    assert(numbers_rise(t, 91));
    assert(numbers_rise(t, 90));
    assert(numbers_rise(t, 89));
    assert(numbers_rise(t, 88));
    assert(numbers_rise(t, 87));
    assert(numbers_rise(t, 86));
    assert(numbers_rise(t, 85));
    assert(numbers_rise(t, 84));
    assert(numbers_rise(t, 83));
    assert(numbers_rise(t, 82));
    assert(numbers_rise(t, 81));
    assert(numbers_rise(t, 80));
    assert(numbers_rise(t, 79));
    assert(numbers_rise(t, 78));
    assert(numbers_rise(t, 77));
    assert(numbers_rise(t, 76));
    assert(numbers_rise(t, 75));
}

proof fn lemma_item_numbers_rise_100()
    requires
        numbers_rise(lcfs_item_names(), 125),
    ensures
        numbers_rise(lcfs_item_names(), 100),
{
    reveal(lcfs_item_names);
    let t = lcfs_item_names();
    assert(t.len() == 275);
    reveal_strlit("c43112");
    assert(t[100].0@ == "c43112"@);
    assert(item_number("c43112"@) == 43112);
    reveal_strlit("c44211");
    assert(t[101].0@ == "c44211"@);
    assert(item_number("c44211"@) == 44211);
    reveal_strlit("c45112");
    assert(t[102].0@ == "c45112"@);
    assert(item_number("c45112"@) == 45112);
    reveal_strlit("c45114");
    assert(t[103].0@ == "c45114"@);
    assert(item_number("c45114"@) == 45114);
    reveal_strlit("c45212");
    assert(t[104].0@ == "c45212"@);
    assert(item_number("c45212"@) == 45212);
    reveal_strlit("c45214");
    assert(t[105].0@ == "c45214"@);
    assert(item_number("c45214"@) == 45214);
    reveal_strlit("c45222");
    assert(t[106].0@ == "c45222"@);
    assert(item_number("c45222"@) == 45222);
    reveal_strlit("c45312");
    assert(t[107].0@ == "c45312"@);
    assert(item_number("c45312"@) == 45312);
    reveal_strlit("c45411");
    assert(t[108].0@ == "c45411"@);
    assert(item_number("c45411"@) == 45411);
    reveal_strlit("c45412");
    assert(t[109].0@ == "c45412"@);
    assert(item_number("c45412"@) == 45412);
    reveal_strlit("c45511");
    assert(t[110].0@ == "c45511"@);
    assert(item_number("c45511"@) == 45511);
    reveal_strlit("c51113");
    assert(t[111].0@ == "c51113"@);
    assert(item_number("c51113"@) == 51113);
    reveal_strlit("c51114");
    assert(t[112].0@ == "c51114"@);
    assert(item_number("c51114"@) == 51114);
    reveal_strlit("c51212");
    assert(t[113].0@ == "c51212"@);
    assert(item_number("c51212"@) == 51212);
    reveal_strlit("c51311");
    assert(t[114].0@ == "c51311"@);
    assert(item_number("c51311"@) == 51311);
    reveal_strlit("c52111");
    assert(t[115].0@ == "c52111"@);
    assert(item_number("c52111"@) == 52111);
    reveal_strlit("c52112");
    assert(t[116].0@ == "c52112"@);
    assert(item_number("c52112"@) == 52112);
    reveal_strlit("c53111");
    assert(t[117].0@ == "c53111"@);
    assert(item_number("c53111"@) == 53111);
    reveal_strlit("c53121");
    assert(t[118].0@ == "c53121"@);
    assert(item_number("c53121"@) == 53121);
    reveal_strlit("c53122");
    assert(t[119].0@ == "c53122"@);
    assert(item_number("c53122"@) == 53122);
    reveal_strlit("c53131");
    assert(t[120].0@ == "c53131"@);
    assert(item_number("c53131"@) == 53131);
    reveal_strlit("c53132");
    assert(t[121].0@ == "c53132"@);
    assert(item_number("c53132"@) == 53132);
    reveal_strlit("c53133");
    assert(t[122].0@ == "c53133"@);
    assert(item_number("c53133"@) == 53133);
    reveal_strlit("c53141");
    assert(t[123].0@ == "c53141"@);
    assert(item_number("c53141"@) == 53141);
    reveal_strlit("c53151");
    assert(t[124].0@ == "c53151"@);
    assert(item_number("c53151"@) == 53151);
    reveal_strlit("c53161");
    assert(t[125].0@ == "c53161"@);
    assert(item_number("c53161"@) == 53161);
    assert(numbers_rise(t, 124));
    assert(numbers_rise(t, 123));
    assert(numbers_rise(t, 122));
    assert(numbers_rise(t, 121));
    assert(numbers_rise(t, 120));
    assert(numbers_rise(t, 119));
    assert(numbers_rise(t, 118));
    assert(numbers_rise(t, 117));
    assert(numbers_rise(t, 116));
    assert(numbers_rise(t, 115));
    assert(numbers_rise(t, 114));
    assert(numbers_rise(t, 113));
    assert(numbers_rise(t, 112));
    assert(numbers_rise(t, 111));
    assert(numbers_rise(t, 110));
    assert(numbers_rise(t, 109));
    assert(numbers_rise(t, 108));
    assert(numbers_rise(t, 107));
    assert(numbers_rise(t, 106));
    assert(numbers_rise(t, 105));
    assert(numbers_rise(t, 104));
    assert(numbers_rise(t, 103));
    assert(numbers_rise(t, 102));
    assert(numbers_rise(t, 101));
    assert(numbers_rise(t, 100));
}

proof fn lemma_item_numbers_rise_125()
    requires
        numbers_rise(lcfs_item_names(), 150),
    ensures
        numbers_rise(lcfs_item_names(), 125),
{
    reveal(lcfs_item_names);
    let t = lcfs_item_names();
    assert(t.len() == 275);
    reveal_strlit("c53161");
    assert(t[125].0@ == "c53161"@);
    assert(item_number("c53161"@) == 53161);
    reveal_strlit("c53171");
    assert(t[126].0@ == "c53171"@);
    assert(item_number("c53171"@) == 53171);
    reveal_strlit("c53211");
    assert(t[127].0@ == "c53211"@);
    assert(item_number("c53211"@) == 53211);
    reveal_strlit("c53311");
    assert(t[128].0@ == "c53311"@);
    assert(item_number("c53311"@) == 53311);
    reveal_strlit("c53312");
    assert(t[129].0@ == "c53312"@);
    assert(item_number("c53312"@) == 53312);
    reveal_strlit("c53313");
    assert(t[130].0@ == "c53313"@);
    assert(item_number("c53313"@) == 53313);
    reveal_strlit("c53314");
    assert(t[131].0@ == "c53314"@);
    assert(item_number("c53314"@) == 53314);
    reveal_strlit("c54111");
    assert(t[132].0@ == "c54111"@);
    assert(item_number("c54111"@) == 54111);
    reveal_strlit("c54121");
    assert(t[133].0@ == "c54121"@);
    assert(item_number("c54121"@) == 54121);
    reveal_strlit("c54131");
    assert(t[134].0@ == "c54131"@);
    assert(item_number("c54131"@) == 54131);
    reveal_strlit("c54132");
    assert(t[135].0@ == "c54132"@);
    assert(item_number("c54132"@) == 54132);
    reveal_strlit("c54141");
    assert(t[136].0@ == "c54141"@);
    assert(item_number("c54141"@) == 54141);
    reveal_strlit("c55111");
    assert(t[137].0@ == "c55111"@);
    assert(item_number("c55111"@) == 55111);
    reveal_strlit("c55112");
    assert(t[138].0@ == "c55112"@);
    assert(item_number("c55112"@) == 55112);
    reveal_strlit("c55211");
    assert(t[139].0@ == "c55211"@);
    assert(item_number("c55211"@) == 55211);
    reveal_strlit("c55212");
    assert(t[140].0@ == "c55212"@);
    assert(item_number("c55212"@) == 55212);
    reveal_strlit("c55213");
    assert(t[141].0@ == "c55213"@);
    assert(item_number("c55213"@) == 55213);
    reveal_strlit("c55214");
    assert(t[142].0@ == "c55214"@);
    assert(item_number("c55214"@) == 55214);
    reveal_strlit("c56111");
    assert(t[143].0@ == "c56111"@);
    assert(item_number("c56111"@) == 56111);
    reveal_strlit("c56112");
    assert(t[144].0@ == "c56112"@);
    assert(item_number("c56112"@) == 56112);
    reveal_strlit("c56121");
    assert(t[145].0@ == "c56121"@);
    assert(item_number("c56121"@) == 56121);
    reveal_strlit("c56122");
    assert(t[146].0@ == "c56122"@);
    assert(item_number("c56122"@) == 56122);
    reveal_strlit("c56123");
    assert(t[147].0@ == "c56123"@);
    assert(item_number("c56123"@) == 56123);
    reveal_strlit("c56124");
    assert(t[148].0@ == "c56124"@);
    assert(item_number("c56124"@) == 56124);
    reveal_strlit("c56125");
    assert(t[149].0@ == "c56125"@);
    assert(item_number("c56125"@) == 56125);
    reveal_strlit("c56211");
    assert(t[150].0@ == "c56211"@);
    assert(item_number("c56211"@) == 56211);
    assert(numbers_rise(t, 149));
    assert(numbers_rise(t, 148));
    assert(numbers_rise(t, 147));
    assert(numbers_rise(t, 146));
    assert(numbers_rise(t, 145));
    assert(numbers_rise(t, 144));
    assert(numbers_rise(t, 143));
    assert(numbers_rise(t, 142));
    assert(numbers_rise(t, 141));
    assert(numbers_rise(t, 140));
    assert(numbers_rise(t, 139));
    assert(numbers_rise(t, 138));
    assert(numbers_rise(t, 137));
    assert(numbers_rise(t, 136));
    assert(numbers_rise(t, 135));
    assert(numbers_rise(t, 134));
    assert(numbers_rise(t, 133));
    assert(numbers_rise(t, 132));
    assert(numbers_rise(t, 131));
    assert(numbers_rise(t, 130));
    assert(numbers_rise(t, 129));
    assert(numbers_rise(t, 128));
    assert(numbers_rise(t, 127));
    assert(numbers_rise(t, 126));
    assert(numbers_rise(t, 125));
}

proof fn lemma_item_numbers_rise_150()
    requires
        numbers_rise(lcfs_item_names(), 175),
    ensures
        numbers_rise(lcfs_item_names(), 150),
{
    reveal(lcfs_item_names);
    let t = lcfs_item_names();
    assert(t.len() == 275);
    reveal_strlit("c56211");
    assert(t[150].0@ == "c56211"@);
    assert(item_number("c56211"@) == 56211);
    reveal_strlit("c56221");
    assert(t[151].0@ == "c56221"@);
    assert(item_number("c56221"@) == 56221);
    reveal_strlit("c56222");
    assert(t[152].0@ == "c56222"@);
    assert(item_number("c56222"@) == 56222);
    reveal_strlit("c56223");
    assert(t[153].0@ == "c56223"@);
    assert(item_number("c56223"@) == 56223);
    reveal_strlit("c61111");
    assert(t[154].0@ == "c61111"@);
    assert(item_number("c61111"@) == 61111);
    reveal_strlit("c61112");
    assert(t[155].0@ == "c61112"@);
    assert(item_number("c61112"@) == 61112);
    reveal_strlit("c61211");
    assert(t[156].0@ == "c61211"@);
    assert(item_number("c61211"@) == 61211);
    reveal_strlit("c61311");
    assert(t[157].0@ == "c61311"@);
    assert(item_number("c61311"@) == 61311);
    reveal_strlit("c61312");
    assert(t[158].0@ == "c61312"@);
    assert(item_number("c61312"@) == 61312);
    reveal_strlit("c61313");
    assert(t[159].0@ == "c61313"@);
    assert(item_number("c61313"@) == 61313);
    reveal_strlit("c62111");
    assert(t[160].0@ == "c62111"@);
    assert(item_number("c62111"@) == 62111);
    reveal_strlit("c62112");
    assert(t[161].0@ == "c62112"@);
    assert(item_number("c62112"@) == 62112);
    reveal_strlit("c62113");
    assert(t[162].0@ == "c62113"@);
    assert(item_number("c62113"@) == 62113);
    reveal_strlit("c62114");
    assert(t[163].0@ == "c62114"@);
    assert(item_number("c62114"@) == 62114);
    reveal_strlit("c62211");
    assert(t[164].0@ == "c62211"@);
    assert(item_number("c62211"@) == 62211);
    reveal_strlit("c62212");
    assert(t[165].0@ == "c62212"@);
    assert(item_number("c62212"@) == 62212);
    reveal_strlit("c62311");
    assert(t[166].0@ == "c62311"@);
    assert(item_number("c62311"@) == 62311);
    reveal_strlit("c62321");
    assert(t[167].0@ == "c62321"@);
    assert(item_number("c62321"@) == 62321);
    reveal_strlit("c62322");
    assert(t[168].0@ == "c62322"@);
    assert(item_number("c62322"@) == 62322);
    reveal_strlit("c62331");
    assert(t[169].0@ == "c62331"@);
    assert(item_number("c62331"@) == 62331);
    reveal_strlit("c63111");
    assert(t[170].0@ == "c63111"@);
    assert(item_number("c63111"@) == 63111);
    reveal_strlit("c71112");
    assert(t[171].0@ == "c71112"@);
    assert(item_number("c71112"@) == 71112);
    reveal_strlit("c71122");
    assert(t[172].0@ == "c71122"@);
    assert(item_number("c71122"@) == 71122);
    reveal_strlit("c71212");
    assert(t[173].0@ == "c71212"@);
    assert(item_number("c71212"@) == 71212);
    reveal_strlit("c71311");
    assert(t[174].0@ == "c71311"@);
    assert(item_number("c71311"@) == 71311);
    reveal_strlit("c71411");
    assert(t[175].0@ == "c71411"@);
    assert(item_number("c71411"@) == 71411);
    assert(numbers_rise(t, 174));
    assert(numbers_rise(t, 173));
    assert(numbers_rise(t, 172));
    assert(numbers_rise(t, 171));
    assert(numbers_rise(t, 170));
    assert(numbers_rise(t, 169));
    assert(numbers_rise(t, 168));
    assert(numbers_rise(t, 167));
    assert(numbers_rise(t, 166));
    assert(numbers_rise(t, 165));
    assert(numbers_rise(t, 164));
    assert(numbers_rise(t, 163));
    assert(numbers_rise(t, 162));
    assert(numbers_rise(t, 161));
    assert(numbers_rise(t, 160));
    assert(numbers_rise(t, 159));
    assert(numbers_rise(t, 158));
    assert(numbers_rise(t, 157));
    assert(numbers_rise(t, 156));
    assert(numbers_rise(t, 155));
    assert(numbers_rise(t, 154));
    assert(numbers_rise(t, 153));
    assert(numbers_rise(t, 152));
    assert(numbers_rise(t, 151));
    assert(numbers_rise(t, 150));
}

proof fn lemma_item_numbers_rise_175()
    requires
        numbers_rise(lcfs_item_names(), 200),
    ensures
        numbers_rise(lcfs_item_names(), 175),
{
    reveal(lcfs_item_names);
    let t = lcfs_item_names();
    assert(t.len() == 275);
    reveal_strlit("c71411");
    assert(t[175].0@ == "c71411"@);
    assert(item_number("c71411"@) == 71411);
    reveal_strlit("c72111");
    assert(t[176].0@ == "c72111"@);
    assert(item_number("c72111"@) == 72111);
    reveal_strlit("c72112");
    assert(t[177].0@ == "c72112"@);
    assert(item_number("c72112"@) == 72112);
    reveal_strlit("c72113");
    assert(t[178].0@ == "c72113"@);
    assert(item_number("c72113"@) == 72113);
    reveal_strlit("c72114");
    assert(t[179].0@ == "c72114"@);
    assert(item_number("c72114"@) == 72114);
    reveal_strlit("c72115");
    assert(t[180].0@ == "c72115"@);
    assert(item_number("c72115"@) == 72115);
    reveal_strlit("c72211");
    assert(t[181].0@ == "c72211"@);
    assert(item_number("c72211"@) == 72211);
    reveal_strlit("c72212");
    assert(t[182].0@ == "c72212"@);
    assert(item_number("c72212"@) == 72212);
    reveal_strlit("c72213");
    assert(t[183].0@ == "c72213"@);
    assert(item_number("c72213"@) == 72213);
    reveal_strlit("c72313");
    assert(t[184].0@ == "c72313"@);
    assert(item_number("c72313"@) == 72313);
    reveal_strlit("c72314");
    assert(t[185].0@ == "c72314"@);
    assert(item_number("c72314"@) == 72314);
    reveal_strlit("c72411");
    assert(t[186].0@ == "c72411"@);
    assert(item_number("c72411"@) == 72411);
    reveal_strlit("c72412");
    assert(t[187].0@ == "c72412"@);
    assert(item_number("c72412"@) == 72412);
    reveal_strlit("c72413");
    assert(t[188].0@ == "c72413"@);
    assert(item_number("c72413"@) == 72413);
    reveal_strlit("c72414");
    assert(t[189].0@ == "c72414"@);
    assert(item_number("c72414"@) == 72414);
    reveal_strlit("c73112");
    assert(t[190].0@ == "c73112"@);
    assert(item_number("c73112"@) == 73112);
    reveal_strlit("c73212");
    assert(t[191].0@ == "c73212"@);
    assert(item_number("c73212"@) == 73212);
    reveal_strlit("c73213");
    assert(t[192].0@ == "c73213"@);
    assert(item_number("c73213"@) == 73213);
    reveal_strlit("c73214");
    assert(t[193].0@ == "c73214"@);
    assert(item_number("c73214"@) == 73214);
    reveal_strlit("c73311");
    assert(t[194].0@ == "c73311"@);
    assert(item_number("c73311"@) == 73311);
    reveal_strlit("c73312");
    assert(t[195].0@ == "c73312"@);
    assert(item_number("c73312"@) == 73312);
    reveal_strlit("c73411");
    assert(t[196].0@ == "c73411"@);
    assert(item_number("c73411"@) == 73411);
    reveal_strlit("c73512");
    assert(t[197].0@ == "c73512"@);
    assert(item_number("c73512"@) == 73512);
    reveal_strlit("c73513");
    assert(t[198].0@ == "c73513"@);
    assert(item_number("c73513"@) == 73513);
    reveal_strlit("c73611");
    assert(t[199].0@ == "c73611"@);
    assert(item_number("c73611"@) == 73611);
    reveal_strlit("c81111");
    assert(t[200].0@ == "c81111"@);
    assert(item_number("c81111"@) == 81111);
    assert(numbers_rise(t, 199));
    assert(numbers_rise(t, 198));
    assert(numbers_rise(t, 197));
    assert(numbers_rise(t, 196));
    assert(numbers_rise(t, 195));
    assert(numbers_rise(t, 194));
    assert(numbers_rise(t, 193));
    assert(numbers_rise(t, 192));
    assert(numbers_rise(t, 191));
    assert(numbers_rise(t, 190));
    assert(numbers_rise(t, 189));
    assert(numbers_rise(t, 188));
    assert(numbers_rise(t, 187));
    assert(numbers_rise(t, 186));
    assert(numbers_rise(t, 185));
    assert(numbers_rise(t, 184));
    assert(numbers_rise(t, 183));
    assert(numbers_rise(t, 182));
    assert(numbers_rise(t, 181));
    assert(numbers_rise(t, 180));
    assert(numbers_rise(t, 179));
    assert(numbers_rise(t, 178));
    assert(numbers_rise(t, 177));
    assert(numbers_rise(t, 176));
    assert(numbers_rise(t, 175));
}

proof fn lemma_item_numbers_rise_200()
    requires
        numbers_rise(lcfs_item_names(), 225),
    ensures
        numbers_rise(lcfs_item_names(), 200),
{
    reveal(lcfs_item_names);
    let t = lcfs_item_names();
    assert(t.len() == 275);
    reveal_strlit("c81111");
    assert(t[200].0@ == "c81111"@);
    assert(item_number("c81111"@) == 81111);
    reveal_strlit("c82111");
    assert(t[201].0@ == "c82111"@);
    assert(item_number("c82111"@) == 82111);
    reveal_strlit("c82112");
    assert(t[202].0@ == "c82112"@);
    assert(item_number("c82112"@) == 82112);
    reveal_strlit("c82113");
    assert(t[203].0@ == "c82113"@);
    assert(item_number("c82113"@) == 82113);
    reveal_strlit("c83112");
    assert(t[204].0@ == "c83112"@);
    assert(item_number("c83112"@) == 83112);
    reveal_strlit("c83114");
    assert(t[205].0@ == "c83114"@);
    assert(item_number("c83114"@) == 83114);
    reveal_strlit("c83115");
    assert(t[206].0@ == "c83115"@);
    assert(item_number("c83115"@) == 83115);
    reveal_strlit("c91111");
    assert(t[207].0@ == "c91111"@);
    assert(item_number("c91111"@) == 91111);
    reveal_strlit("c91112");
    assert(t[208].0@ == "c91112"@);
    assert(item_number("c91112"@) == 91112);
    reveal_strlit("c91113");
    assert(t[209].0@ == "c91113"@);
    assert(item_number("c91113"@) == 91113);
    reveal_strlit("c91121");
    assert(t[210].0@ == "c91121"@);
    assert(item_number("c91121"@) == 91121);
    reveal_strlit("c91122");
    assert(t[211].0@ == "c91122"@);
    assert(item_number("c91122"@) == 91122);
    reveal_strlit("c91123");
    assert(t[212].0@ == "c91123"@);
    assert(item_number("c91123"@) == 91123);
    reveal_strlit("c91124");
    assert(t[213].0@ == "c91124"@);
    assert(item_number("c91124"@) == 91124);
    reveal_strlit("c91125");
    assert(t[214].0@ == "c91125"@);
    assert(item_number("c91125"@) == 91125);
    reveal_strlit("c91126");
    assert(t[215].0@ == "c91126"@);
    assert(item_number("c91126"@) == 91126);
    reveal_strlit("c91127");
    assert(t[216].0@ == "c91127"@);
    assert(item_number("c91127"@) == 91127);
    reveal_strlit("c91128");
    assert(t[217].0@ == "c91128"@);
    assert(item_number("c91128"@) == 91128);
    reveal_strlit("c91211");
    assert(t[218].0@ == "c91211"@);
    assert(item_number("c91211"@) == 91211);
    reveal_strlit("c91221");
    assert(t[219].0@ == "c91221"@);
    assert(item_number("c91221"@) == 91221);
    reveal_strlit("c91311");
    assert(t[220].0@ == "c91311"@);
    assert(item_number("c91311"@) == 91311);
    reveal_strlit("c91411");
    assert(t[221].0@ == "c91411"@);
    assert(item_number("c91411"@) == 91411);
    reveal_strlit("c91412");
    assert(t[222].0@ == "c91412"@);
    assert(item_number("c91412"@) == 91412);
    reveal_strlit("c91413");
    assert(t[223].0@ == "c91413"@);
    assert(item_number("c91413"@) == 91413);
    reveal_strlit("c91414");
    assert(t[224].0@ == "c91414"@);
    assert(item_number("c91414"@) == 91414);
    reveal_strlit("c91511");
    assert(t[225].0@ == "c91511"@);
    assert(item_number("c91511"@) == 91511);
    assert(numbers_rise(t, 224));
    assert(numbers_rise(t, 223));
    assert(numbers_rise(t, 222));
    assert(numbers_rise(t, 221));
    assert(numbers_rise(t, 220));
    assert(numbers_rise(t, 219));
    assert(numbers_rise(t, 218));
    assert(numbers_rise(t, 217));
    assert(numbers_rise(t, 216));
    assert(numbers_rise(t, 215));
    assert(numbers_rise(t, 214));
    assert(numbers_rise(t, 213));
    assert(numbers_rise(t, 212));
    assert(numbers_rise(t, 211));
    assert(numbers_rise(t, 210));
    assert(numbers_rise(t, 209));
    assert(numbers_rise(t, 208));
    assert(numbers_rise(t, 207));
    assert(numbers_rise(t, 206));
    assert(numbers_rise(t, 205));
    assert(numbers_rise(t, 204));
    assert(numbers_rise(t, 203));
    assert(numbers_rise(t, 202));
    assert(numbers_rise(t, 201));
    assert(numbers_rise(t, 200));
}

proof fn lemma_item_numbers_rise_225()
    requires
        numbers_rise(lcfs_item_names(), 250),
    ensures
        numbers_rise(lcfs_item_names(), 225),
{
    reveal(lcfs_item_names);
    let t = lcfs_item_names();
    assert(t.len() == 275);
    reveal_strlit("c91511");
    assert(t[225].0@ == "c91511"@);
    assert(item_number("c91511"@) == 91511);
    reveal_strlit("c92111");
    assert(t[226].0@ == "c92111"@);
    assert(item_number("c92111"@) == 92111);
    reveal_strlit("c92112");
    assert(t[227].0@ == "c92112"@);
    assert(item_number("c92112"@) == 92112);
    reveal_strlit("c92114");
    assert(t[228].0@ == "c92114"@);
    assert(item_number("c92114"@) == 92114);
    reveal_strlit("c92116");
    assert(t[229].0@ == "c92116"@);
    assert(item_number("c92116"@) == 92116);
    reveal_strlit("c92117");
    assert(t[230].0@ == "c92117"@);
    assert(item_number("c92117"@) == 92117);
    reveal_strlit("c92211");
    assert(t[231].0@ == "c92211"@);
    assert(item_number("c92211"@) == 92211);
    reveal_strlit("c92221");
    assert(t[232].0@ == "c92221"@);
    assert(item_number("c92221"@) == 92221);
    reveal_strlit("c92311");
    assert(t[233].0@ == "c92311"@);
    assert(item_number("c92311"@) == 92311);
    reveal_strlit("c93111");
    assert(t[234].0@ == "c93111"@);
    assert(item_number("c93111"@) == 93111);
    reveal_strlit("c93112");
    assert(t[235].0@ == "c93112"@);
    assert(item_number("c93112"@) == 93112);
    reveal_strlit("c93113");
    assert(t[236].0@ == "c93113"@);
    assert(item_number("c93113"@) == 93113);
    reveal_strlit("c93114");
    assert(t[237].0@ == "c93114"@);
    assert(item_number("c93114"@) == 93114);
    reveal_strlit("c93211");
    assert(t[238].0@ == "c93211"@);
    assert(item_number("c93211"@) == 93211);
    reveal_strlit("c93212");
    assert(t[239].0@ == "c93212"@);
    assert(item_number("c93212"@) == 93212);
    reveal_strlit("c93311");
    assert(t[240].0@ == "c93311"@);
    assert(item_number("c93311"@) == 93311);
    reveal_strlit("c93312");
    assert(t[241].0@ == "c93312"@);
    assert(item_number("c93312"@) == 93312);
    reveal_strlit("c93313");
    assert(t[242].0@ == "c93313"@);
    assert(item_number("c93313"@) == 93313);
    reveal_strlit("c93411");
    assert(t[243].0@ == "c93411"@);
    assert(item_number("c93411"@) == 93411);
    reveal_strlit("c93412");
    assert(t[244].0@ == "c93412"@);
    assert(item_number("c93412"@) == 93412);
    reveal_strlit("c93511");
    assert(t[245].0@ == "c93511"@);
    assert(item_number("c93511"@) == 93511);
    reveal_strlit("c94111");
    assert(t[246].0@ == "c94111"@);
    assert(item_number("c94111"@) == 94111);
    reveal_strlit("c94112");
    assert(t[247].0@ == "c94112"@);
    assert(item_number("c94112"@) == 94112);
    reveal_strlit("c94113");
    assert(t[248].0@ == "c94113"@);
    assert(item_number("c94113"@) == 94113);
    reveal_strlit("c94115");
    assert(t[249].0@ == "c94115"@);
    assert(item_number("c94115"@) == 94115);
    reveal_strlit("c94211");
    assert(t[250].0@ == "c94211"@);
    assert(item_number("c94211"@) == 94211);
    assert(numbers_rise(t, 249));
    assert(numbers_rise(t, 248));
    assert(numbers_rise(t, 247));
    assert(numbers_rise(t, 246));
    assert(numbers_rise(t, 245));
    assert(numbers_rise(t, 244));
    assert(numbers_rise(t, 243));
    assert(numbers_rise(t, 242));
    assert(numbers_rise(t, 241));
    assert(numbers_rise(t, 240));
    assert(numbers_rise(t, 239));
    assert(numbers_rise(t, 238));
    assert(numbers_rise(t, 237));
    assert(numbers_rise(t, 236));
    assert(numbers_rise(t, 235));
    assert(numbers_rise(t, 234));
    assert(numbers_rise(t, 233));
    assert(numbers_rise(t, 232));
    assert(numbers_rise(t, 231));
    assert(numbers_rise(t, 230));
    assert(numbers_rise(t, 229));
    assert(numbers_rise(t, 228));
    assert(numbers_rise(t, 227));
    assert(numbers_rise(t, 226));
    assert(numbers_rise(t, 225));
}

proof fn lemma_item_numbers_rise_250()
    requires
        numbers_rise(lcfs_item_names(), 274),
    ensures
        numbers_rise(lcfs_item_names(), 250),
{
    reveal(lcfs_item_names);
    let t = lcfs_item_names();
    assert(t.len() == 275);
    reveal_strlit("c94211");
    assert(t[250].0@ == "c94211"@);
    assert(item_number("c94211"@) == 94211);
    reveal_strlit("c94212");
    assert(t[251].0@ == "c94212"@);
    assert(item_number("c94212"@) == 94212);
    reveal_strlit("c94221");
    assert(t[252].0@ == "c94221"@);
    assert(item_number("c94221"@) == 94221);
    reveal_strlit("c94232");
    assert(t[253].0@ == "c94232"@);
    assert(item_number("c94232"@) == 94232);
    reveal_strlit("c94236");
    assert(t[254].0@ == "c94236"@);
    assert(item_number("c94236"@) == 94236);
    reveal_strlit("c94238");
    assert(t[255].0@ == "c94238"@);
    assert(item_number("c94238"@) == 94238);
    reveal_strlit("c94239");
    assert(t[256].0@ == "c94239"@);
    assert(item_number("c94239"@) == 94239);
    reveal_strlit("c94241");
    assert(t[257].0@ == "c94241"@);
    assert(item_number("c94241"@) == 94241);
    reveal_strlit("c94242");
    assert(t[258].0@ == "c94242"@);
    assert(item_number("c94242"@) == 94242);
    reveal_strlit("c94243");
    assert(t[259].0@ == "c94243"@);
    assert(item_number("c94243"@) == 94243);
    reveal_strlit("c94244");
    assert(t[260].0@ == "c94244"@);
    assert(item_number("c94244"@) == 94244);
    reveal_strlit("c94245");
    assert(t[261].0@ == "c94245"@);
    assert(item_number("c94245"@) == 94245);
    reveal_strlit("c94246");
    assert(t[262].0@ == "c94246"@);
    assert(item_number("c94246"@) == 94246);
    reveal_strlit("c94311");
    assert(t[263].0@ == "c94311"@);
    assert(item_number("c94311"@) == 94311);
    reveal_strlit("c94312");
    assert(t[264].0@ == "c94312"@);
    assert(item_number("c94312"@) == 94312);
    reveal_strlit("c94313");
    assert(t[265].0@ == "c94313"@);
    assert(item_number("c94313"@) == 94313);
    reveal_strlit("c94314");
    assert(t[266].0@ == "c94314"@);
    assert(item_number("c94314"@) == 94314);
    reveal_strlit("c94315");
    assert(t[267].0@ == "c94315"@);
    assert(item_number("c94315"@) == 94315);
    reveal_strlit("c94316");
    assert(t[268].0@ == "c94316"@);
    assert(item_number("c94316"@) == 94316);
    reveal_strlit("c94319");
    assert(t[269].0@ == "c94319"@);
    assert(item_number("c94319"@) == 94319);
    reveal_strlit("c95111");
    assert(t[270].0@ == "c95111"@);
    assert(item_number("c95111"@) == 95111);
    reveal_strlit("c95211");
    assert(t[271].0@ == "c95211"@);
    assert(item_number("c95211"@) == 95211);
    reveal_strlit("c95212");
    assert(t[272].0@ == "c95212"@);
    assert(item_number("c95212"@) == 95212);
    reveal_strlit("c95311");
    assert(t[273].0@ == "c95311"@);
    assert(item_number("c95311"@) == 95311);
    reveal_strlit("c95411");
    assert(t[274].0@ == "c95411"@);
    assert(item_number("c95411"@) == 95411);
    assert(numbers_rise(t, 273));
    assert(numbers_rise(t, 272));
    assert(numbers_rise(t, 271));
    assert(numbers_rise(t, 270));
    assert(numbers_rise(t, 269));
    assert(numbers_rise(t, 268));
    assert(numbers_rise(t, 267));
    assert(numbers_rise(t, 266));
    assert(numbers_rise(t, 265));
    assert(numbers_rise(t, 264));
    assert(numbers_rise(t, 263));
    assert(numbers_rise(t, 262));
    assert(numbers_rise(t, 261));
    assert(numbers_rise(t, 260));
    assert(numbers_rise(t, 259));
    assert(numbers_rise(t, 258));
    assert(numbers_rise(t, 257));
    assert(numbers_rise(t, 256));
    assert(numbers_rise(t, 255));
    assert(numbers_rise(t, 254));
    assert(numbers_rise(t, 253));
    assert(numbers_rise(t, 252));
    assert(numbers_rise(t, 251));
    assert(numbers_rise(t, 250));
}

/// The item numbers of the documented LCFS items rise strictly, so no code is listed
/// twice.
proof fn lemma_item_numbers_rise()
    ensures
        numbers_rise(lcfs_item_names(), 0),
{
    reveal(lcfs_item_names);
    assert(lcfs_item_names().len() == 275);
    assert(numbers_rise(lcfs_item_names(), 274));
    lemma_item_numbers_rise_250();
    lemma_item_numbers_rise_225();
    lemma_item_numbers_rise_200();
    lemma_item_numbers_rise_175();
    lemma_item_numbers_rise_150();
    lemma_item_numbers_rise_125();
    lemma_item_numbers_rise_100();
    lemma_item_numbers_rise_75();
    lemma_item_numbers_rise_50();
    lemma_item_numbers_rise_25();
    lemma_item_numbers_rise_0();
}

/// Each documented LCFS item is given the name the documentation gives it, and a code
/// that is no documented item is named by the code itself.
pub proof fn lemma_product_names_documented(i: int, code: Seq<char>)
    ensures
        0 <= i < lcfs_item_names().len() ==> product_name_of(lcfs_item_names()[i].0@)
            == lcfs_item_names()[i].1@,
        (forall|j: int| 0 <= j < lcfs_item_names().len() ==> lcfs_item_names()[j].0@ != code)
            ==> product_name_of(code) == code,
{
    reveal(lcfs_item_names);
    reveal(product_table);
    let t = product_table();
    assert(t == lcfs_item_names());
    lemma_item_numbers_rise();
    if 0 <= i < t.len() {
        let c = t[i].0@;
        assert forall|j: int| 0 <= j < i implies t[j].0@ != c by {
            lemma_numbers_rise(t, 0, j, i);
        }
        lemma_name_from_skips(t, c, 0, i);
    }
    if forall|j: int| 0 <= j < t.len() ==> t[j].0@ != code {
        lemma_name_from_skips(t, code, 0, t.len() as int);
    }
}

/// The product table, built for lookups.
fn product_names() -> (v: Vec<(&'static str, &'static str)>)
    ensures
        v@ == product_table(),
{
    let v: Vec<(&'static str, &'static str)> = vec![
        ("c11111", "rice"),
        ("c11121", "bread"),
        ("c11122", "buns_crispbread_and_biscuits"),
        ("c11131", "pasta_products"),
        ("c11141", "cakes_and_puddings"),
        ("c11142", "pastry_savoury"),
        ("c11151", "other_breads_and_cereals"),
        ("c11211", "beef_fresh_chilled_or_frozen"),
        ("c11221", "pork_fresh_chilled_or_frozen"),
        ("c11231", "lamb_fresh_chilled_or_frozen"),
        ("c11241", "poultry_fresh_chilled_or_frozen"),
        ("c11251", "sausages"),
        ("c11252", "bacon_and_ham"),
        ("c11253", "offal_pate_etc"),
        ("c11261", "other_preserved_or_processed_meat"),
        ("c11271", "other_fresh_chilled_or_frozen_edible_meat"),
        ("c11311", "fish_fresh_chilled_or_frozen"),
        ("c11321", "seafood_fresh_chilled_or_frozen"),
        ("c11331", "dried_smoked_or_salted_fish_and_seafood"),
        ("c11341", "other_preserved_or_processed_fish"),
        ("c11411", "whole_milk"),
        ("c11421", "low_fat_milk"),
        ("c11431", "preserved_milk"),
        ("c11441", "yoghurt"),
        ("c11451", "cheese_and_curd"),
        ("c11461", "other_milk_products"),
        ("c11471", "eggs"),
        ("c11511", "butter"),
        ("c11521", "margarine_and_other_vegetable_fats"),
        ("c11522", "peanut_butter"),
        ("c11531", "olive_oil"),
        ("c11541", "edible_oils"),
        ("c11551", "other_edible_animal_fats"),
        ("c11611", "citrus_fruits_fresh"),
        ("c11621", "bananas_fresh"),
        ("c11631", "apples_fresh"),
        ("c11641", "pears_fresh"),
        ("c11651", "stone_fruits_fresh"),
        ("c11661", "berries_fresh"),
        ("c11671", "other_fresh_chilled_or_frozen_fruits"),
        ("c11681", "dried_fruit_and_nuts"),
        ("c11691", "preserved_fruit_and_fruit_based_products"),
        ("c11711", "leaf_and_stem_vegetables"),
        ("c11721", "cabbages"),
        ("c11731", "vegetables_grown_for_fruit"),
        ("c11741", "root_crops_and_mushrooms"),
        ("c11751", "dried_vegetables"),
        ("c11761", "other_preserved_or_processed_vegetables"),
        ("c11771", "potatoes"),
        ("c11781", "other_tubers"),
        ("c11811", "sugar"),
        ("c11821", "jams_marmalades"),
        ("c11831", "chocolate"),
        ("c11841", "confectionery_products"),
        ("c11851", "edible_ices_and_ice_cream"),
        ("c11861", "other_sugar_products"),
        ("c11911", "sauces_condiments"),
        ("c11921", "salt_spices_and_culinary_herbs"),
        ("c11931", "yeast_dessert_preparations_soups"),
        ("c11941", "other_food_products"),
        ("c12111", "coffee"),
        ("c12121", "tea"),
        ("c12131", "cocoa_and_powdered_chocolate"),
        ("c12211", "mineral_or_spring_waters"),
        ("c12221", "soft_drinks"),
        ("c12231", "fruit_juices_and_squash"),
        ("c12241", "vegetable_juices"),
        ("c21111", "spirits_and_liqueurs"),
        ("c21211", "wine"),
        ("c21212", "fortified_wine"),
        ("c21213", "ciders_and_perry"),
        ("c21214", "alcopops"),
        ("c21221", "champagne_and_sparkling_wines"),
        ("c21311", "beer_and_lager"),
        ("c22111", "cigarettes"),
        ("c22121", "cigars"),
        ("c22131", "other_tobacco"),
        ("c31111", "clothing_materials"),
        ("c31211", "mens_outer_garments"),
        ("c31212", "mens_under_garments"),
        ("c31221", "womens_outer_garments"),
        ("c31222", "womens_under_garments"),
        ("c31231", "boys_outer_garments"),
        ("c31232", "girls_outer_garments"),
        ("c31233", "infants_outer_garments"),
        ("c31234", "childrens_under_garments"),
        ("c31311", "mens_accessories"),
        ("c31312", "womens_accessories"),
        ("c31313", "childrens_accessories"),
        ("c31314", "haberdashery"),
        ("c31315", "protective_headgear"),
        ("c31411", "clothing_hire"),
        ("c31412", "dry_cleaners_and_dyeing"),
        ("c31413", "laundry_laundrettes"),
        ("c32111", "footwear_for_men"),
        ("c32121", "footwear_for_women"),
        ("c32131", "footwear_for_children_and_infants"),
        ("c32211", "repair_and_hire_of_footwear"),
        ("c41211", "second_dwelling_rent"),
        ("c43111", "paint_wallpaper_timber"),
        ("c43112", "equipment_hire_small_materials"),
        ("c44211", "refuse_collection"),
        ("c45112", "second_dwelling_electricity"),
        ("c45114", "electricity_slot_meter"),
        ("c45212", "second_dwelling_gas"),
        ("c45214", "gas_slot_meter"),
        ("c45222", "bottled_gas"),
        ("c45312", "paraffin"),
        ("c45411", "coal_and_coke"),
        ("c45412", "wood_and_peat"),
        ("c45511", "hot_water_steam_and_ice"),
        ("c51113", "fancy_decorative_goods"),
        ("c51114", "garden_furniture"),
        ("c51212", "hard_floor_coverings"),
        ("c51311", "repair_of_furniture_furnishings"),
        ("c52111", "bedroom_textiles"),
        ("c52112", "other_household_textiles"),
        ("c53111", "refrigerators_freezers"),
        ("c53121", "washing_machines_dryers"),
        ("c53122", "dish_washing_machines"),
        ("c53131", "gas_cookers"),
        ("c53132", "electric_cookers"),
        ("c53133", "microwave_ovens"),
        ("c53141", "heaters_air_conditioners"),
        ("c53151", "vacuum_cleaners"),
        ("c53161", "sewing_and_knitting_machines"),
        ("c53171", "fire_extinguisher_safes_etc"),
        ("c53211", "small_electric_household_appliances"),
        ("c53311", "spare_parts_gas_and_electric_appliances"),
        ("c53312", "electrical_appliance_repairs"),
        ("c53313", "gas_appliance_repairs"),
        ("c53314", "rental_hire_of_major_household_appliance"),
        ("c54111", "glassware_china_pottery"),
        ("c54121", "cutlery_and_silverware"),
        ("c54131", "kitchen_utensils"),
        ("c54132", "storage_and_other_durable_household_articles"),
        ("c54141", "repair_of_glassware_tableware"),
        ("c55111", "electrical_tools"),
        ("c55112", "lawn_mowers"),
        ("c55211", "small_tools"),
        ("c55212", "door_electrical_and_other_fittings"),
        ("c55213", "garden_tools_and_equipment"),
        ("c55214", "electrical_consumables"),
        ("c56111", "detergents_washing_up_liquid"),
        ("c56112", "disinfectants_polishes_cleaning_materials"),
        ("c56121", "kitchen_disposables"),
        ("c56122", "household_hardware_and_appliances"),
        ("c56123", "kitchen_gloves_cloths_etc"),
        ("c56124", "pins_needles_and_tape_measures"),
        ("c56125", "nails_nuts_bolts_tape_and_glue"),
        ("c56211", "domestic_services"),
        ("c56221", "cleaning_of_carpets_curtains"),
        ("c56222", "other_household_services"),
        ("c56223", "hire_of_furniture_and_furnishings"),
        ("c61111", "nhs_prescription_charges"),
        ("c61112", "medicines_and_medical_goods"),
        ("c61211", "other_medical_products"),
        ("c61311", "spectacles_lenses"),
        ("c61312", "accessories_repairs_to_spectacles"),
        ("c61313", "non_optical_appliances_and_equipment"),
        ("c62111", "nhs_medical_services"),
        ("c62112", "private_medical_services"),
        ("c62113", "nhs_optical_services"),
        ("c62114", "private_optical_services"),
        ("c62211", "nhs_dental_services"),
        ("c62212", "private_dental_services"),
        ("c62311", "medical_analysis_laboratories"),
        ("c62321", "nhs_medical_auxiliaries"),
        ("c62322", "private_medical_auxiliaries"),
        ("c62331", "non_hospital_ambulance_services"),
        ("c63111", "hospital_services"),
        ("c71112", "loan_hp_new_car_van"),
        ("c71122", "loan_hp_secondhand_car_van"),
        ("c71212", "loan_hp_motorcycle"),
        ("c71311", "purchase_of_bicycle"),
        ("c71411", "animal_drawn_vehicles"),
        ("c72111", "car_van_accessories_and_fittings"),
        ("c72112", "car_van_spare_parts"),
        ("c72113", "motorcycle_accessories_and_spare_parts"),
        ("c72114", "antifreeze_cleaning_materials"),
        ("c72115", "bicycle_accessories_repairs"),
        ("c72211", "petrol"),
        ("c72212", "diesel_oil"),
        ("c72213", "other_motor_oils"),
        ("c72313", "motoring_organisation_subscription"),
        ("c72314", "car_washing_and_breakdown_services"),
        ("c72411", "parking_fees_tolls_and_permits"),
        ("c72412", "garage_rent_mot_etc"),
        ("c72413", "driving_lessons"),
        ("c72414", "hire_of_self_drive_cars_vans_bicycles"),
        ("c73112", "railway_and_tube_fares"),
        ("c73212", "bus_and_coach_fares"),
        ("c73213", "taxis_and_hired_cars"),
        ("c73214", "other_personal_travel"),
        ("c73311", "air_fares_within_uk"),
        ("c73312", "air_fares_international"),
        ("c73411", "water_travel"),
        ("c73512", "combined_fares"),
        ("c73513", "school_travel"),
        ("c73611", "delivery_charges"),
        ("c81111", "postage"),
        ("c82111", "telephone_purchase"),
        ("c82112", "mobile_phone_purchase"),
        ("c82113", "fax_machine_purchase"),
        ("c83112", "telephone_coin_and_other_payments"),
        ("c83114", "mobile_phone_other_payments"),
        ("c83115", "second_dwelling_telephone"),
        ("c91111", "audio_equipment"),
        ("c91112", "audio_equipment_in_car"),
        ("c91113", "audio_accessories"),
        ("c91121", "television_set"),
        ("c91122", "satellite_dish"),
        ("c91123", "satellite_dish_installation"),
        ("c91124", "video_recorder"),
        ("c91125", "digital_tv_decoder"),
        ("c91126", "spare_parts_for_tv_video_audio"),
        ("c91127", "cable_tv_connection"),
        ("c91128", "dvd_purchase"),
        ("c91211", "photographic_equipment"),
        ("c91221", "optical_instruments"),
        ("c91311", "personal_computers_printers"),
        ("c91411", "records_cds_audio_cassettes"),
        ("c91412", "video_cassettes"),
        ("c91413", "camera_films"),
        ("c91414", "dvds"),
        ("c91511", "repair_of_av_photo_equipment"),
        ("c92111", "boats_trailers_and_horses"),
        ("c92112", "caravans_mobile_homes"),
        ("c92114", "motor_caravan_new"),
        ("c92116", "motor_caravan_secondhand"),
        ("c92117", "accessories_for_boats_caravans"),
        ("c92211", "musical_instruments"),
        ("c92221", "major_durables_for_indoor_recreation"),
        ("c92311", "maintenance_repair_of_recreation_durables"),
        ("c93111", "games_toys_and_hobbies"),
        ("c93112", "computer_software_and_games"),
        ("c93113", "console_computer_games"),
        ("c93114", "games_toys_misc_decorative"),
        ("c93211", "equipment_for_sport_camping"),
        ("c93212", "bbq_and_swings"),
        ("c93311", "plants_flowers_seeds"),
        ("c93312", "garden_decorative"),
        ("c93313", "artificial_flowers"),
        ("c93411", "pet_food"),
        ("c93412", "pet_purchase_and_accessories"),
        ("c93511", "veterinary_services"),
        ("c94111", "spectator_sports"),
        ("c94112", "participant_sports"),
        ("c94113", "sports_and_social_club_subscriptions"),
        ("c94115", "hire_of_sport_equipment"),
        ("c94211", "cinemas"),
        ("c94212", "live_entertainment"),
        ("c94221", "museums_zoos_theme_parks"),
        ("c94232", "tv_licence_second_dwelling"),
        ("c94236", "tv_slot_meter_payments"),
        ("c94238", "video_cassette_rental"),
        ("c94239", "cassette_cd_hire"),
        ("c94241", "admissions_to_clubs_dances_bingo"),
        ("c94242", "social_events_and_gatherings"),
        ("c94243", "leisure_subscriptions"),
        ("c94244", "other_subscriptions"),
        ("c94245", "internet_subscription_fees"),
        ("c94246", "film_development_and_photos"),
        ("c94311", "football_pools_stakes"),
        ("c94312", "bingo_stakes"),
        ("c94313", "lottery_stakes"),
        ("c94314", "bookmaker_tote_betting_stakes"),
        ("c94315", "irish_lottery_stakes"),
        ("c94316", "national_lottery_instants"),
        ("c94319", "national_lottery_stakes"),
        ("c95111", "books"),
        ("c95211", "newspapers"),
        ("c95212", "magazines_and_periodicals"),
        ("c95311", "cards_calendars_posters"),
        ("c95411", "stationery_diaries_art_materials"),
    ];
    proof {
        reveal(product_table);
    }
    v
}

/// The name of the first entry at or after `i` whose code is `code`, or `code` itself
/// where none is.
pub open spec fn name_from(table: Seq<(&'static str, &'static str)>, code: Seq<char>, i: int) -> Seq<
    char,
>
    decreases table.len() - i,
{
    if i < 0 || i >= table.len() {
        code
    } else if table[i].0@ == code {
        table[i].1@
    } else {
        name_from(table, code, i + 1)
    }
}

/// The descriptive name of an LCFS product code: the name its first table entry gives,
/// or the code itself where the table does not hold it.
pub open spec fn product_name_of(code: Seq<char>) -> Seq<char> {
    name_from(product_table(), code, 0)
}

/// Looks up the descriptive name of an LCFS product code, falling back to the code itself.
pub fn product_name(code: &str) -> (r: &str)
    ensures
        r@ == product_name_of(code@),
{
    let table = product_names();
    let mut i: usize = 0;
    while i < table.len()
        invariant
            table@ == product_table(),
            i <= table@.len(),
            name_from(table@, code@, 0) == name_from(table@, code@, i as int),
        decreases table@.len() - i,
    {
        let (c, name) = table[i];
        if text_eq(c, code) {
            return name;
        }
        i = i + 1;
    }
    code
}

/// A character with ASCII capitals lowered.
pub open spec fn ascii_lower(c: char) -> char {
    if 'A' <= c <= 'Z' {
        ((c as u32) + 32) as char
    } else {
        c
    }
}

/// A text with its ASCII capitals lowered. For the patterns `detect_round` looks for
/// this is the same as full Unicode lowering: no other character lowers to a letter
/// of `round_`, to a digit or to `r`.
pub open spec fn lowered(s: Seq<char>) -> Seq<char> {
    s.map_values(|c: char| ascii_lower(c))
}

/// Whether `pat` occurs in `s` at position `i`.
pub open spec fn occurs_at(s: Seq<char>, pat: Seq<char>, i: int) -> bool {
    0 <= i && i + pat.len() <= s.len() && s.subrange(i, i + pat.len()) == pat
}

/// Whether `pat` occurs anywhere in `s`.
pub open spec fn occurs_in(s: Seq<char>, pat: Seq<char>) -> bool {
    exists|i: int| occurs_at(s, pat, i)
}

/// The first position at or after `i` where `pat` occurs in `s`.
pub open spec fn first_occurrence(s: Seq<char>, pat: Seq<char>, i: int) -> Option<int>
    decreases s.len() + 1 - i,
{
    if i < 0 || i + pat.len() > s.len() {
        None
    } else if occurs_at(s, pat, i) {
        Some(i)
    } else {
        first_occurrence(s, pat, i + 1)
    }
}

/// The marker before a round number in a WAS file name.
pub open spec fn round_marker() -> Seq<char> {
    seq!['r', 'o', 'u', 'n', 'd', '_']
}

/// The digit right after the first `round_` of a lowered file name, if there is one.
pub open spec fn round_digit(l: Seq<char>) -> Option<u32> {
    match first_occurrence(l, round_marker(), 0) {
        Some(p) => if p + 6 < l.len() && is_digit(l[p + 6]) {
            Some(digit_value(l[p + 6]) as u32)
        } else {
            None
        },
        None => None,
    }
}

/// The WAS round a file name names: the digit after its first `round_`; else the
/// largest `n` from 9 down to 5 such that `r` and `n` stand together in it; else 7.
/// Letter case does not matter.
pub open spec fn was_round_of(name: Seq<char>) -> u32 {
    let l = lowered(name);
    match round_digit(l) {
        Some(d) => d,
        None => if occurs_in(l, seq!['r', '9']) {
            9
        } else if occurs_in(l, seq!['r', '8']) {
            8
        } else if occurs_in(l, seq!['r', '7']) {
            7
        } else if occurs_in(l, seq!['r', '6']) {
            6
        } else if occurs_in(l, seq!['r', '5']) {
            5
        } else {
            7
        },
    }
}

proof fn lemma_first_occurrence(s: Seq<char>, pat: Seq<char>, i: int)
    requires
        0 <= i,
    ensures
        first_occurrence(s, pat, i) matches Some(p) ==> i <= p && occurs_at(s, pat, p),
        first_occurrence(s, pat, i) is None ==> forall|j: int| i <= j ==> !occurs_at(s, pat, j),
    decreases s.len() + 1 - i,
{
    if i + pat.len() <= s.len() && !occurs_at(s, pat, i) {
        lemma_first_occurrence(s, pat, i + 1);
    }
}

/// The characters of a text with ASCII capitals lowered.
fn lowered_chars(s: &str) -> (v: Vec<char>)
    ensures
        v@ == lowered(s@),
{
    let cs = chars_of(s);
    let mut v: Vec<char> = Vec::new();
    let mut i: usize = 0;
    while i < cs.len()
        invariant
            cs@ == s@,
            i <= cs@.len(),
            v@ == lowered(cs@.take(i as int)),
        decreases cs@.len() - i,
    {
        let c = cs[i];
        let d = if 'A' <= c && c <= 'Z' {
            ((c as u8) + 32) as char
        } else {
            c
        };
        v.push(d);
        i = i + 1;
        assert(v@ =~= lowered(cs@.take(i as int)));
    }
    assert(cs@.take(cs@.len() as int) =~= cs@);
    v
}

/// Whether `pat` occurs in `cs` at position `i`.
fn occurs_at_pos(cs: &Vec<char>, pat: &Vec<char>, i: usize) -> (r: bool)
    ensures
        r == occurs_at(cs@, pat@, i as int),
{
    if i > cs.len() || pat.len() > cs.len() - i {
        return false;
    }
    let mut j: usize = 0;
    while j < pat.len()
        invariant
            i + pat.len() <= cs.len(),
            j <= pat@.len(),
            forall|k: int| 0 <= k < j ==> cs@[i + k] == pat@[k],
        decreases pat@.len() - j,
    {
        if cs[i + j] != pat[j] {
            assert(cs@.subrange(i as int, i + pat@.len())[j as int] != pat@[j as int]);
            return false;
        }
        j = j + 1;
    }
    assert(cs@.subrange(i as int, i + pat@.len()) =~= pat@);
    true
}

/// The first position where `pat` occurs in `cs`.
fn find_first(cs: &Vec<char>, pat: &Vec<char>) -> (r: Option<usize>)
    ensures
        r matches Some(p) ==> first_occurrence(cs@, pat@, 0) == Some(p as int),
        r is None ==> first_occurrence(cs@, pat@, 0) is None,
{
    if pat.len() > cs.len() {
        return None;
    }
    let last: usize = cs.len() - pat.len();
    let mut i: usize = 0;
    loop
        invariant
            i <= last,
            last + pat@.len() == cs@.len(),
            first_occurrence(cs@, pat@, 0) == first_occurrence(cs@, pat@, i as int),
        decreases last - i,
    {
        if occurs_at_pos(cs, pat, i) {
            return Some(i);
        }
        if i == last {
            assert(first_occurrence(cs@, pat@, i + 1) is None);
            return None;
        }
        i = i + 1;
    }
}

/// Whether `pat` occurs anywhere in `cs`.
fn occurs_anywhere(cs: &Vec<char>, pat: &Vec<char>) -> (r: bool)
    ensures
        r == occurs_in(cs@, pat@),
{
    let found = find_first(cs, pat);
    proof {
        lemma_first_occurrence(cs@, pat@, 0);
    }
    match found {
        Some(p) => true,
        None => false,
    }
}

proof fn lemma_round_digits()
    ensures
        digit_char(9) == '9',
        digit_char(8) == '8',
        digit_char(7) == '7',
        digit_char(6) == '6',
        digit_char(5) == '5',
{
}

/// Detects the WAS round from a file name (`round_7` gives 7, `r8` gives 8), and
/// falls back to round 7.
pub fn detect_round(file_name: &str) -> (r: u32)
    ensures
        r == was_round_of(file_name@),
{
    let lower = lowered_chars(file_name);
    let marker: Vec<char> = vec!['r', 'o', 'u', 'n', 'd', '_'];
    assert(marker@ =~= round_marker());
    match find_first(&lower, &marker) {
        Some(pos) => {
            let len = lower.len();
            proof {
                lemma_first_occurrence(lower@, marker@, 0);
                assert(marker@.len() == 6);
                assert(pos + 6 <= len);
            }
            if pos + 6 < len {
                let c = lower[pos + 6];
                if '0' <= c && c <= '9' {
                    return (c as u32) - ('0' as u32);
                }
            }
        },
        None => {},
    }
    assert(round_digit(lower@) is None);
    let mut n: u32 = 9;
    while n >= 5
        invariant
            4 <= n <= 9,
            lower@ == lowered(file_name@),
            round_digit(lower@) is None,
            forall|m: int| n < m <= 9 ==> !occurs_in(lower@, seq!['r', digit_char(m)]),
        decreases n,
    {
        let d = ((n as u8) + 48) as char;
        let pat: Vec<char> = vec!['r', d];
        assert(pat@ =~= seq!['r', digit_char(n as int)]);
        if occurs_anywhere(&lower, &pat) {
            proof {
                lemma_round_digits();
            }
            return n;
        }
        n = n - 1;
    }
    proof {
        lemma_round_digits();
    }
    7
}

/// Whether `s` ends with `suffix`.
pub open spec fn ends_with(s: Seq<char>, suffix: Seq<char>) -> bool {
    suffix.len() <= s.len() && s.subrange(s.len() - suffix.len(), s.len() as int) == suffix
}

/// Whether a file name ends in `.tab` or `.csv`, the table formats the surveys ship in.
pub open spec fn is_table_name(name: Seq<char>) -> bool {
    ends_with(name, seq!['.', 't', 'a', 'b']) || ends_with(name, seq!['.', 'c', 's', 'v'])
}

/// Whether a (lowered) file name is a WAS household table: it holds `hhold`.
pub open spec fn is_was_household_name(name: Seq<char>) -> bool {
    occurs_in(name, seq!['h', 'h', 'o', 'l', 'd']) && is_table_name(name)
}

/// Whether a (lowered) file name is an LCFS household table: it holds `dvhh` or `dv_hh`.
pub open spec fn is_lcfs_household_name(name: Seq<char>) -> bool {
    (occurs_in(name, seq!['d', 'v', 'h', 'h']) || occurs_in(name, seq!['d', 'v', '_', 'h', 'h']))
        && is_table_name(name)
}

/// Whether a (lowered) file name is an LCFS person table: it holds `dvper` or `dv_per`.
pub open spec fn is_lcfs_person_name(name: Seq<char>) -> bool {
    (occurs_in(name, seq!['d', 'v', 'p', 'e', 'r']) || occurs_in(
        name,
        seq!['d', 'v', '_', 'p', 'e', 'r'],
    )) && is_table_name(name)
}

/// The last position below `n` that holds a `.`, or -1.
pub open spec fn last_dot(s: Seq<char>, n: nat) -> int
    decreases n,
{
    if n == 0 || n > s.len() {
        -1
    } else if s[n - 1] == '.' {
        n - 1
    } else {
        last_dot(s, (n - 1) as nat)
    }
}

/// A file name without its extension: what comes before its last `.`, or the whole
/// name where it has none.
pub open spec fn stem_of(name: Seq<char>) -> Seq<char> {
    let d = last_dot(name, name.len());
    if d >= 0 {
        name.take(d)
    } else {
        name
    }
}

/// Whether `cs` ends with `suffix`.
fn ends_with_chars(cs: &Vec<char>, suffix: &Vec<char>) -> (r: bool)
    ensures
        r == ends_with(cs@, suffix@),
{
    if suffix.len() > cs.len() {
        return false;
    }
    let start: usize = cs.len() - suffix.len();
    let r = occurs_at_pos(cs, suffix, start);
    proof {
        assert(start + suffix@.len() == cs@.len());
    }
    r
}

/// Whether the characters of a file name end in `.tab` or `.csv`.
fn table_name(cs: &Vec<char>) -> (r: bool)
    ensures
        r == is_table_name(cs@),
{
    let tab: Vec<char> = vec!['.', 't', 'a', 'b'];
    let csv: Vec<char> = vec!['.', 'c', 's', 'v'];
    assert(tab@ =~= seq!['.', 't', 'a', 'b']);
    assert(csv@ =~= seq!['.', 'c', 's', 'v']);
    ends_with_chars(cs, &tab) || ends_with_chars(cs, &csv)
}

/// Whether a lowered file name is a WAS household table (`*hhold*.tab` or `.csv`).
pub fn is_was_household_file(name: &str) -> (r: bool)
    ensures
        r == is_was_household_name(name@),
{
    let cs = chars_of(name);
    let pat: Vec<char> = vec!['h', 'h', 'o', 'l', 'd'];
    assert(pat@ =~= seq!['h', 'h', 'o', 'l', 'd']);
    occurs_anywhere(&cs, &pat) && table_name(&cs)
}

/// Whether a lowered file name is an LCFS household table (`*dvhh*` or `*dv_hh*`,
/// `.tab` or `.csv`).
pub fn is_lcfs_household_file(name: &str) -> (r: bool)
    ensures
        r == is_lcfs_household_name(name@),
{
    let cs = chars_of(name);
    let a: Vec<char> = vec!['d', 'v', 'h', 'h'];
    let b: Vec<char> = vec!['d', 'v', '_', 'h', 'h'];
    assert(a@ =~= seq!['d', 'v', 'h', 'h']);
    assert(b@ =~= seq!['d', 'v', '_', 'h', 'h']);
    (occurs_anywhere(&cs, &a) || occurs_anywhere(&cs, &b)) && table_name(&cs)
}

/// Whether a lowered file name is an LCFS person table (`*dvper*` or `*dv_per*`,
/// `.tab` or `.csv`).
pub fn is_lcfs_person_file(name: &str) -> (r: bool)
    ensures
        r == is_lcfs_person_name(name@),
{
    let cs = chars_of(name);
    let a: Vec<char> = vec!['d', 'v', 'p', 'e', 'r'];
    let b: Vec<char> = vec!['d', 'v', '_', 'p', 'e', 'r'];
    assert(a@ =~= seq!['d', 'v', 'p', 'e', 'r']);
    assert(b@ =~= seq!['d', 'v', '_', 'p', 'e', 'r']);
    (occurs_anywhere(&cs, &a) || occurs_anywhere(&cs, &b)) && table_name(&cs)
}

/// A file name without its extension (everything before the last `.`), as the table
/// loaders take it.
pub fn file_stem(name: &str) -> (r: String)
    ensures
        r@ == stem_of(name@),
{
    let cs = chars_of(name);
    let mut n: usize = cs.len();
    while n > 0
        invariant
            n <= cs@.len(),
            cs@ == name@,
            last_dot(cs@, cs@.len()) == last_dot(cs@, n as nat),
        decreases n,
    {
        if cs[n - 1] == '.' {
            let mut v: Vec<char> = Vec::new();
            let mut i: usize = 0;
            while i < n - 1
                invariant
                    n <= cs@.len(),
                    i <= n - 1,
                    v@ == cs@.take(i as int),
                decreases n - 1 - i,
            {
                v.push(cs[i]);
                i = i + 1;
                assert(v@ =~= cs@.take(i as int));
            }
            return string_of(&v);
        }
        n = n - 1;
    }
    string_of(&cs)
}

/// The two stems an SPI table of the fiscal year starting in `year` may have:
/// `put{yy}{yy}uk` with both years in two digits, and `put{yyyy}uk` with the year
/// it ends in.
pub open spec fn spi_stems(year: nat) -> (Seq<char>, Seq<char>) {
    (
        seq!['p', 'u', 't'] + two_digits(year % 100) + two_digits((year + 1) % 100) + seq![
            'u',
            'k',
        ],
        seq!['p', 'u', 't'] + decimal(year + 1) + seq!['u', 'k'],
    )
}

/// Writes the two stems an SPI table of the fiscal year starting in `year` may have.
pub fn spi_file_stems(year: u32) -> (r: (String, String))
    requires
        year < u32::MAX,
    ensures
        r.0@ == spi_stems(year as nat).0,
        r.1@ == spi_stems(year as nat).1,
{
    let start = year % 100;
    let end = (year + 1) % 100;
    let mut short = String::new();
    short.push('p');
    short.push('u');
    short.push('t');
    short.push(char_of_digit((start / 10) as usize));
    short.push(char_of_digit((start % 10) as usize));
    short.push(char_of_digit((end / 10) as usize));
    short.push(char_of_digit((end % 10) as usize));
    short.push('u');
    short.push('k');
    let digits = decimal_string((year + 1) as usize);
    let mut full = String::new();
    full.push('p');
    full.push('u');
    full.push('t');
    let dcs = chars_of(digits.as_str());
    let mut i: usize = 0;
    while i < dcs.len()
        invariant
            dcs@ == decimal((year + 1) as nat),
            i <= dcs@.len(),
            full@ == seq!['p', 'u', 't'] + dcs@.take(i as int),
        decreases dcs@.len() - i,
    {
        full.push(dcs[i]);
        i = i + 1;
        assert(full@ =~= seq!['p', 'u', 't'] + dcs@.take(i as int));
    }
    full.push('u');
    full.push('k');
    assert(dcs@.take(dcs@.len() as int) =~= dcs@);
    assert(short@ =~= spi_stems(year as nat).0);
    assert(full@ =~= spi_stems(year as nat).1);
    (short, full)
}

/// Whether a file stem names the SPI table of the fiscal year starting in `year`.
pub fn is_spi_stem(stem: &str, year: u32) -> (r: bool)
    requires
        year < u32::MAX,
    ensures
        r == (stem@ == spi_stems(year as nat).0 || stem@ == spi_stems(year as nat).1),
{
    let (short, full) = spi_file_stems(year);
    text_eq(stem, short.as_str()) || text_eq(stem, full.as_str())
}

/// The age an SPI `AGERANGE` band stands for: the middle of the band, 82 for 75 and
/// over, and the UK median age 43 where the band is unknown.
pub open spec fn agerange_age(code: int) -> u32 {
    if code == 1 {
        20
    } else if code == 2 {
        30
    } else if code == 3 {
        40
    } else if code == 4 {
        50
    } else if code == 5 {
        60
    } else if code == 6 {
        70
    } else if code == 7 {
        82
    } else {
        43
    }
}

/// The lowest age of an SPI `AGERANGE` band: band 1 is under 25, bands 2 to 6 are the
/// ten-year bands 25-34 to 65-74, band 7 is 75 and over.
pub open spec fn agerange_low(code: int) -> int {
    if code <= 1 {
        0
    } else {
        10 * code + 5
    }
}

/// The highest age of an SPI `AGERANGE` band (bands 1 to 6; band 7, 75 and over, has
/// no upper end).
pub open spec fn agerange_high(code: int) -> int {
    10 * code + 14
}

/// Each known SPI band is given an age inside the band, the ages rise with the band,
/// and an unknown band is given the UK median age of 43.
pub proof fn lemma_agerange_age_in_band(code: int, other: int)
    ensures
        1 <= code <= 7 ==> agerange_low(code) <= agerange_age(code),
        1 <= code <= 6 ==> agerange_age(code) <= agerange_high(code),
        1 <= code < other <= 7 ==> agerange_age(code) < agerange_age(other),
        !(1 <= code <= 7) ==> agerange_age(code) == 43,
{
}

/// Maps an SPI `AGERANGE` code to the age in years the records are given.
pub fn age_from_agerange(code: i64) -> (r: u32)
    ensures
        r == agerange_age(code as int),
{
    match code {
        1 => 20,
        2 => 30,
        3 => 40,
        4 => 50,
        5 => 60,
        6 => 70,
        7 => 82,
        _ => 43,
    }
}

} // verus!
