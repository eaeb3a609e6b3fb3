//! Facility records: one row per regulated slaughter establishment, with
//! per-species boolean-like flag fields, and the two derived summary
//! strings computed from them.
//!
//! The slaughter flags map many-to-one onto coarse species buckets; the
//! processing flags map one-to-one onto species labels. That asymmetry
//! mirrors the source dataset's reporting structure and is deliberate.

use vstd::prelude::*;

use crate::pick::{picked, pick_labels, lemma_picked_empty_iff, lemma_picked_contains,
    lemma_picked_no_duplicates, lemma_picked_from_table};
use crate::strutil::{join_with, join_comma, str_eq, lemma_join_nonempty,
    lemma_join_two_or_more_len};
use crate::rows::{lookup, get_field};

verus! {

/// A flag field is set exactly when it holds the literal text "Yes";
/// any other content means "not set".
pub open spec fn is_yes(s: Seq<char>) -> bool {
    s == "Yes"@
}

/// Tests a flag field for the literal text "Yes".
pub fn flag_set(s: &String) -> (r: bool)
    ensures
        r == is_yes(s@),
{
    str_eq(s.as_str(), "Yes")
}

/// The number of slaughter buckets.
pub const NUM_SLAUGHTER_BUCKETS: usize = 22;

/// The number of processing species labels.
pub const NUM_PROCESSING_SPECIES: usize = 21;

/// One row of the establishment dataset. Flag fields hold "Yes" or are
/// empty; the geocode fields keep the source text unparsed.
#[derive(Default, Debug)]
pub struct Location {
    pub establishment_id: String,
    pub establishment_number: String,
    pub establishment_name: String,
    pub duns_number: String,
    pub street: String,
    pub city: String,
    pub state: String,
    pub zip: String,
    pub phone: String,
    pub grant_date: String,
    pub activities: String,
    pub dbas: String,
    pub district: String,
    pub circuit: String,
    pub size: String,
    pub latitude: String,
    pub longitude: String,
    pub county: String,
    pub fips_code: String,
    pub meat_exemption_custom_slaughter: String,
    pub poultry_exemption_custom_slaughter: String,
    pub slaughter: String,
    pub meat_slaughter: String,
    pub beef_cow_slaughter: String,
    pub steer_slaughter: String,
    pub heifer_slaughter: String,
    pub bull_stag_slaughter: String,
    pub dairy_cow_slaughter: String,
    pub heavy_calf_slaughter: String,
    pub bob_veal_slaughter: String,
    pub formula_fed_veal_slaughter: String,
    pub non_formula_fed_veal_slaughter: String,
    pub market_swine_slaughter: String,
    pub sow_slaughter: String,
    pub roaster_swine_slaughter: String,
    pub boar_stag_swine_slaughter: String,
    pub stag_swine_slaughter: String,
    pub feral_swine_slaughter: String,
    pub goat_slaughter: String,
    pub young_goat_slaughter: String,
    pub adult_goat_slaughter: String,
    pub sheep_slaughter: String,
    pub lamb_slaughter: String,
    pub deer_reindeer_slaughter: String,
    pub antelope_slaughter: String,
    pub elk_slaughter: String,
    pub bison_slaughter: String,
    pub buffalo_slaughter: String,
    pub water_buffalo_slaughter: String,
    pub cattalo_slaughter: String,
    pub yak_slaughter: String,
    pub other_voluntary_livestock_slaughter: String,
    pub rabbit_slaughter: String,
    pub poultry_slaughter: String,
    pub young_chicken_slaughter: String,
    pub light_fowl_slaughter: String,
    pub heavy_fowl_slaughter: String,
    pub capon_slaughter: String,
    pub young_turkey_slaughter: String,
    pub young_breeder_turkey_slaughter: String,
    pub old_breeder_turkey_slaughter: String,
    pub fryer_roaster_turkey_slaughter: String,
    pub duck_slaughter: String,
    pub goose_slaughter: String,
    pub pheasant_slaughter: String,
    pub quail_slaughter: String,
    pub guinea_slaughter: String,
    pub ostrich_slaughter: String,
    pub emu_slaughter: String,
    pub rhea_slaughter: String,
    pub squab_slaughter: String,
    pub other_voluntary_poultry_slaughter: String,
    pub slaughter_or_processing_only: String,
    pub slaughter_only_class: String,
    pub slaughter_only_species: String,
    pub meat_slaughter_only_species: String,
    pub poultry_slaughter_only_species: String,
    pub slaughter_volume_category: String,
    pub processing_volume_category: String,
    pub beef_processing: String,
    pub pork_processing: String,
    pub antelope_processing: String,
    pub bison_processing: String,
    pub buffalo_processing: String,
    pub deer_processing: String,
    pub elk_processing: String,
    pub goat_processing: String,
    pub other_voluntary_livestock_processing: String,
    pub rabbit_processing: String,
    pub reindeer_processing: String,
    pub sheep_processing: String,
    pub yak_processing: String,
    pub chicken_processing: String,
    pub duck_processing: String,
    pub goose_processing: String,
    pub pigeon_processing: String,
    pub ratite_processing: String,
    pub turkey_processing: String,
    pub exotic_poultry_processing: String,
    pub other_voluntary_poultry_processing: String,
}

/// Whether slaughter bucket `i` fires: an OR over its fixed set of
/// contributing flag fields.
pub open spec fn bucket_fires(l: Location, i: int) -> bool {
    if i == 0 {
        is_yes(l.beef_cow_slaughter@)
            || is_yes(l.steer_slaughter@)
            || is_yes(l.heifer_slaughter@)
            || is_yes(l.bull_stag_slaughter@)
            || is_yes(l.dairy_cow_slaughter@)
    } else if i == 1 {
        is_yes(l.heavy_calf_slaughter@)
            || is_yes(l.bob_veal_slaughter@)
            || is_yes(l.formula_fed_veal_slaughter@)
            || is_yes(l.non_formula_fed_veal_slaughter@)
    } else if i == 2 {
        is_yes(l.market_swine_slaughter@)
            || is_yes(l.sow_slaughter@)
            || is_yes(l.roaster_swine_slaughter@)
            || is_yes(l.boar_stag_swine_slaughter@)
            || is_yes(l.stag_swine_slaughter@)
            || is_yes(l.feral_swine_slaughter@)
    } else if i == 3 {
        is_yes(l.goat_slaughter@)
            || is_yes(l.young_goat_slaughter@)
            || is_yes(l.adult_goat_slaughter@)
    } else if i == 4 {
        is_yes(l.sheep_slaughter@) || is_yes(l.lamb_slaughter@)
    } else if i == 5 {
        is_yes(l.deer_reindeer_slaughter@)
    } else if i == 6 {
        is_yes(l.antelope_slaughter@)
    } else if i == 7 {
        is_yes(l.elk_slaughter@)
    } else if i == 8 {
        is_yes(l.bison_slaughter@)
            || is_yes(l.buffalo_slaughter@)
            || is_yes(l.water_buffalo_slaughter@)
            || is_yes(l.cattalo_slaughter@)
    } else if i == 9 {
        is_yes(l.yak_slaughter@)
    } else if i == 10 {
        is_yes(l.other_voluntary_livestock_slaughter@)
    } else if i == 11 {
        is_yes(l.rabbit_slaughter@)
    } else if i == 12 {
        is_yes(l.young_chicken_slaughter@)
            || is_yes(l.light_fowl_slaughter@)
            || is_yes(l.heavy_fowl_slaughter@)
            || is_yes(l.capon_slaughter@)
    } else if i == 13 {
        is_yes(l.young_turkey_slaughter@)
            || is_yes(l.young_breeder_turkey_slaughter@)
            || is_yes(l.old_breeder_turkey_slaughter@)
            || is_yes(l.fryer_roaster_turkey_slaughter@)
    } else if i == 14 {
        is_yes(l.duck_slaughter@)
    } else if i == 15 {
        is_yes(l.goose_slaughter@)
    } else if i == 16 {
        is_yes(l.pheasant_slaughter@)
    } else if i == 17 {
        is_yes(l.quail_slaughter@)
    } else if i == 18 {
        is_yes(l.guinea_slaughter@)
    } else if i == 19 {
        is_yes(l.ostrich_slaughter@) || is_yes(l.emu_slaughter@) || is_yes(l.rhea_slaughter@)
    } else if i == 20 {
        is_yes(l.squab_slaughter@)
    } else if i == 21 {
        is_yes(l.other_voluntary_poultry_slaughter@)
    } else {
        false
    }
}

/// The output label of slaughter bucket `i`.
pub open spec fn bucket_label(i: int) -> Seq<char> {
    if i == 0 {
        "Cattle (Cows, Bulls)"@
    } else if i == 1 {
        "Calves (Veal)"@
    } else if i == 2 {
        "Pigs"@
    } else if i == 3 {
        "Goats"@
    } else if i == 4 {
        "Sheep & Lambs"@
    } else if i == 5 {
        "Deer & Reindeer"@
    } else if i == 6 {
        "Antelope"@
    } else if i == 7 {
        "Elk"@
    } else if i == 8 {
        "Bison & Buffalo"@
    } else if i == 9 {
        "Yak"@
    } else if i == 10 {
        "Other Livestock"@
    } else if i == 11 {
        "Rabbits"@
    } else if i == 12 {
        "Chickens"@
    } else if i == 13 {
        "Turkeys"@
    } else if i == 14 {
        "Ducks"@
    } else if i == 15 {
        "Geese"@
    } else if i == 16 {
        "Pheasants"@
    } else if i == 17 {
        "Quail"@
    } else if i == 18 {
        "Guinea Fowl"@
    } else if i == 19 {
        "Ratites (Ostrich, Emu, etc.)"@
    } else if i == 20 {
        "Pigeons (Squab)"@
    } else if i == 21 {
        "Other Poultry"@
    } else {
        Seq::empty()
    }
}

pub open spec fn slaughter_fires(l: Location) -> Seq<bool> {
    Seq::new(NUM_SLAUGHTER_BUCKETS as nat, |i: int| bucket_fires(l, i))
}

pub open spec fn slaughter_bucket_labels() -> Seq<Seq<char>> {
    Seq::new(NUM_SLAUGHTER_BUCKETS as nat, |i: int| bucket_label(i))
}

/// The bucket labels of `animals_slaughtered`, in bucket order.
pub open spec fn slaughtered_labels(l: Location) -> Seq<Seq<char>> {
    picked(slaughter_fires(l), slaughter_bucket_labels())
}

/// The derived `animals_slaughtered` summary: the fired buckets' labels,
/// comma-and-space joined; empty when no flag is set.
pub open spec fn slaughtered_summary(l: Location) -> Seq<char> {
    join_with(slaughtered_labels(l), ", "@)
}

/// Whether slaughter bucket `i` fires on this record.
pub fn bucket_set(location: &Location, i: usize) -> (r: bool)
    requires
        i < NUM_SLAUGHTER_BUCKETS,
    ensures
        r == bucket_fires(*location, i as int),
{
    if i == 0 {
        flag_set(&location.beef_cow_slaughter)
            || flag_set(&location.steer_slaughter)
            || flag_set(&location.heifer_slaughter)
            || flag_set(&location.bull_stag_slaughter)
            || flag_set(&location.dairy_cow_slaughter)
    } else if i == 1 {
        flag_set(&location.heavy_calf_slaughter)
            || flag_set(&location.bob_veal_slaughter)
            || flag_set(&location.formula_fed_veal_slaughter)
            || flag_set(&location.non_formula_fed_veal_slaughter)
    } else if i == 2 {
        flag_set(&location.market_swine_slaughter)
            || flag_set(&location.sow_slaughter)
            || flag_set(&location.roaster_swine_slaughter)
            || flag_set(&location.boar_stag_swine_slaughter)
            || flag_set(&location.stag_swine_slaughter)
            || flag_set(&location.feral_swine_slaughter)
    } else if i == 3 {
        flag_set(&location.goat_slaughter)
            || flag_set(&location.young_goat_slaughter)
            || flag_set(&location.adult_goat_slaughter)
    } else if i == 4 {
        flag_set(&location.sheep_slaughter) || flag_set(&location.lamb_slaughter)
    } else if i == 5 {
        flag_set(&location.deer_reindeer_slaughter)
    } else if i == 6 {
        flag_set(&location.antelope_slaughter)
    } else if i == 7 {
        flag_set(&location.elk_slaughter)
    } else if i == 8 {
        flag_set(&location.bison_slaughter)
            || flag_set(&location.buffalo_slaughter)
            || flag_set(&location.water_buffalo_slaughter)
            || flag_set(&location.cattalo_slaughter)
    } else if i == 9 {
        flag_set(&location.yak_slaughter)
    } else if i == 10 {
        flag_set(&location.other_voluntary_livestock_slaughter)
    } else if i == 11 {
        flag_set(&location.rabbit_slaughter)
    } else if i == 12 {
        flag_set(&location.young_chicken_slaughter)
            || flag_set(&location.light_fowl_slaughter)
            || flag_set(&location.heavy_fowl_slaughter)
            || flag_set(&location.capon_slaughter)
    } else if i == 13 {
        flag_set(&location.young_turkey_slaughter)
            || flag_set(&location.young_breeder_turkey_slaughter)
            || flag_set(&location.old_breeder_turkey_slaughter)
            || flag_set(&location.fryer_roaster_turkey_slaughter)
    } else if i == 14 {
        flag_set(&location.duck_slaughter)
    } else if i == 15 {
        flag_set(&location.goose_slaughter)
    } else if i == 16 {
        flag_set(&location.pheasant_slaughter)
    } else if i == 17 {
        flag_set(&location.quail_slaughter)
    } else if i == 18 {
        flag_set(&location.guinea_slaughter)
    } else if i == 19 {
        flag_set(&location.ostrich_slaughter)
            || flag_set(&location.emu_slaughter)
            || flag_set(&location.rhea_slaughter)
    } else if i == 20 {
        flag_set(&location.squab_slaughter)
    } else if i == 21 {
        flag_set(&location.other_voluntary_poultry_slaughter)
    } else {
        false
    }
}

/// The label of slaughter bucket `i`.
pub fn bucket_label_at(i: usize) -> (r: String)
    requires
        i < NUM_SLAUGHTER_BUCKETS,
    ensures
        r@ == bucket_label(i as int),
{
    if i == 0 {
        String::from_str("Cattle (Cows, Bulls)")
    } else if i == 1 {
        String::from_str("Calves (Veal)")
    } else if i == 2 {
        String::from_str("Pigs")
    } else if i == 3 {
        String::from_str("Goats")
    } else if i == 4 {
        String::from_str("Sheep & Lambs")
    } else if i == 5 {
        String::from_str("Deer & Reindeer")
    } else if i == 6 {
        String::from_str("Antelope")
    } else if i == 7 {
        String::from_str("Elk")
    } else if i == 8 {
        String::from_str("Bison & Buffalo")
    } else if i == 9 {
        String::from_str("Yak")
    } else if i == 10 {
        String::from_str("Other Livestock")
    } else if i == 11 {
        String::from_str("Rabbits")
    } else if i == 12 {
        String::from_str("Chickens")
    } else if i == 13 {
        String::from_str("Turkeys")
    } else if i == 14 {
        String::from_str("Ducks")
    } else if i == 15 {
        String::from_str("Geese")
    } else if i == 16 {
        String::from_str("Pheasants")
    } else if i == 17 {
        String::from_str("Quail")
    } else if i == 18 {
        String::from_str("Guinea Fowl")
    } else if i == 19 {
        String::from_str("Ratites (Ostrich, Emu, etc.)")
    } else if i == 20 {
        String::from_str("Pigeons (Squab)")
    } else if i == 21 {
        String::from_str("Other Poultry")
    } else {
        String::new()
    }
}

fn slaughter_fires_vec(location: &Location) -> (r: Vec<bool>)
    ensures
        r@ == slaughter_fires(*location),
{
    let mut v: Vec<bool> = Vec::new();
    let mut i: usize = 0;
    while i < NUM_SLAUGHTER_BUCKETS
        invariant
            i <= NUM_SLAUGHTER_BUCKETS,
            v@ =~= Seq::new(i as nat, |j: int| bucket_fires(*location, j)),
        decreases NUM_SLAUGHTER_BUCKETS - i,
    {
        v.push(bucket_set(location, i));
        i = i + 1;
    }
    proof {
        assert(v@ =~= slaughter_fires(*location));
    }
    v
}

fn slaughter_labels_vec() -> (r: Vec<String>)
    ensures
        r.deep_view() == slaughter_bucket_labels(),
        r@.len() == NUM_SLAUGHTER_BUCKETS,
{
    let mut v: Vec<String> = Vec::new();
    let mut i: usize = 0;
    while i < NUM_SLAUGHTER_BUCKETS
        invariant
            i <= NUM_SLAUGHTER_BUCKETS,
            v@.len() == i,
            v.deep_view() =~= Seq::new(i as nat, |j: int| bucket_label(j)),
        decreases NUM_SLAUGHTER_BUCKETS - i,
    {
        let ghost prev = v.deep_view();
        let s = bucket_label_at(i);
        v.push(s);
        proof {
            assert(v.deep_view() =~= prev.push(bucket_label(i as int)));
        }
        i = i + 1;
    }
    proof {
        assert(v.deep_view() =~= slaughter_bucket_labels());
    }
    v
}

/// Derives the `animals_slaughtered` summary string of a facility record.
pub fn get_slaughtered_animals(location: &Location) -> (r: String)
    ensures
        r@ == slaughtered_summary(*location),
{
    let fires = slaughter_fires_vec(location);
    let table = slaughter_labels_vec();
    let chosen = pick_labels(&fires, &table);
    join_comma(&chosen)
}

/// No per-species slaughter flag of the record holds "Yes".
pub open spec fn no_slaughter_flag_set(l: Location) -> bool {
    &&& !is_yes(l.beef_cow_slaughter@)
    &&& !is_yes(l.steer_slaughter@)
    &&& !is_yes(l.heifer_slaughter@)
    &&& !is_yes(l.bull_stag_slaughter@)
    &&& !is_yes(l.dairy_cow_slaughter@)
    &&& !is_yes(l.heavy_calf_slaughter@)
    &&& !is_yes(l.bob_veal_slaughter@)
    &&& !is_yes(l.formula_fed_veal_slaughter@)
    &&& !is_yes(l.non_formula_fed_veal_slaughter@)
    &&& !is_yes(l.market_swine_slaughter@)
    &&& !is_yes(l.sow_slaughter@)
    &&& !is_yes(l.roaster_swine_slaughter@)
    &&& !is_yes(l.boar_stag_swine_slaughter@)
    &&& !is_yes(l.stag_swine_slaughter@)
    &&& !is_yes(l.feral_swine_slaughter@)
    &&& !is_yes(l.goat_slaughter@)
    &&& !is_yes(l.young_goat_slaughter@)
    &&& !is_yes(l.adult_goat_slaughter@)
    &&& !is_yes(l.sheep_slaughter@)
    &&& !is_yes(l.lamb_slaughter@)
    &&& !is_yes(l.deer_reindeer_slaughter@)
    &&& !is_yes(l.antelope_slaughter@)
    &&& !is_yes(l.elk_slaughter@)
    &&& !is_yes(l.bison_slaughter@)
    &&& !is_yes(l.buffalo_slaughter@)
    &&& !is_yes(l.water_buffalo_slaughter@)
    &&& !is_yes(l.cattalo_slaughter@)
    &&& !is_yes(l.yak_slaughter@)
    &&& !is_yes(l.other_voluntary_livestock_slaughter@)
    &&& !is_yes(l.rabbit_slaughter@)
    &&& !is_yes(l.young_chicken_slaughter@)
    &&& !is_yes(l.light_fowl_slaughter@)
    &&& !is_yes(l.heavy_fowl_slaughter@)
    &&& !is_yes(l.capon_slaughter@)
    &&& !is_yes(l.young_turkey_slaughter@)
    &&& !is_yes(l.young_breeder_turkey_slaughter@)
    &&& !is_yes(l.old_breeder_turkey_slaughter@)
    &&& !is_yes(l.fryer_roaster_turkey_slaughter@)
    &&& !is_yes(l.duck_slaughter@)
    &&& !is_yes(l.goose_slaughter@)
    &&& !is_yes(l.pheasant_slaughter@)
    &&& !is_yes(l.quail_slaughter@)
    &&& !is_yes(l.guinea_slaughter@)
    &&& !is_yes(l.ostrich_slaughter@)
    &&& !is_yes(l.emu_slaughter@)
    &&& !is_yes(l.rhea_slaughter@)
    &&& !is_yes(l.squab_slaughter@)
    &&& !is_yes(l.other_voluntary_poultry_slaughter@)
}

/// The `animals_slaughtered` summary is empty exactly when every
/// slaughter flag is not "Yes".
pub proof fn lemma_slaughtered_empty_iff(l: Location)
    ensures
        (slaughtered_summary(l).len() == 0) <==> no_slaughter_flag_set(l),
{
    let fires = slaughter_fires(l);
    let table = slaughter_bucket_labels();
    lemma_picked_empty_iff(fires, table);
    assert((forall|i: int| 0 <= i < 22 ==> !(#[trigger] fires[i])) <==> no_slaughter_flag_set(l)) by {
        assert(fires[0] == bucket_fires(l, 0));
        assert(fires[1] == bucket_fires(l, 1));
        assert(fires[2] == bucket_fires(l, 2));
        assert(fires[3] == bucket_fires(l, 3));
        assert(fires[4] == bucket_fires(l, 4));
        assert(fires[5] == bucket_fires(l, 5));
        assert(fires[6] == bucket_fires(l, 6));
        assert(fires[7] == bucket_fires(l, 7));
        assert(fires[8] == bucket_fires(l, 8));
        assert(fires[9] == bucket_fires(l, 9));
        assert(fires[10] == bucket_fires(l, 10));
        assert(fires[11] == bucket_fires(l, 11));
        assert(fires[12] == bucket_fires(l, 12));
        assert(fires[13] == bucket_fires(l, 13));
        assert(fires[14] == bucket_fires(l, 14));
        assert(fires[15] == bucket_fires(l, 15));
        assert(fires[16] == bucket_fires(l, 16));
        assert(fires[17] == bucket_fires(l, 17));
        assert(fires[18] == bucket_fires(l, 18));
        assert(fires[19] == bucket_fires(l, 19));
        assert(fires[20] == bucket_fires(l, 20));
        assert(fires[21] == bucket_fires(l, 21));
    }
    if slaughtered_labels(l).len() > 0 {
        lemma_picked_from_table(fires, table);
        lemma_bucket_labels_nonempty();
        assert forall|j: int| 0 <= j < slaughtered_labels(l).len()
            implies #[trigger] slaughtered_labels(l)[j].len() > 0 by {
            assert(table.contains(slaughtered_labels(l)[j]));
            let i = choose|i: int| 0 <= i < table.len() && table[i] == slaughtered_labels(l)[j];
            assert(table[i] == bucket_label(i));
        }
        lemma_join_nonempty(slaughtered_labels(l), ", "@);
    }
}

/// Every slaughter bucket label is a nonempty string.
pub proof fn lemma_bucket_labels_nonempty()
    ensures
        forall|i: int| 0 <= i < 22 ==> #[trigger] bucket_label(i).len() > 0,
{
    reveal_strlit("Cattle (Cows, Bulls)");
    reveal_strlit("Calves (Veal)");
    reveal_strlit("Pigs");
    reveal_strlit("Goats");
    reveal_strlit("Sheep & Lambs");
    reveal_strlit("Deer & Reindeer");
    reveal_strlit("Antelope");
    reveal_strlit("Elk");
    reveal_strlit("Bison & Buffalo");
    reveal_strlit("Yak");
    reveal_strlit("Other Livestock");
    reveal_strlit("Rabbits");
    reveal_strlit("Chickens");
    reveal_strlit("Turkeys");
    reveal_strlit("Ducks");
    reveal_strlit("Geese");
    reveal_strlit("Pheasants");
    reveal_strlit("Quail");
    reveal_strlit("Guinea Fowl");
    reveal_strlit("Ratites (Ostrich, Emu, etc.)");
    reveal_strlit("Pigeons (Squab)");
    reveal_strlit("Other Poultry");
    assert forall|i: int| 0 <= i < 22 implies #[trigger] bucket_label(i).len() > 0 by {
        assert(bucket_label(0).len() > 0);
        assert(bucket_label(1).len() > 0);
        assert(bucket_label(2).len() > 0);
        assert(bucket_label(3).len() > 0);
        assert(bucket_label(4).len() > 0);
        assert(bucket_label(5).len() > 0);
        assert(bucket_label(6).len() > 0);
        assert(bucket_label(7).len() > 0);
        assert(bucket_label(8).len() > 0);
        assert(bucket_label(9).len() > 0);
        assert(bucket_label(10).len() > 0);
        assert(bucket_label(11).len() > 0);
        assert(bucket_label(12).len() > 0);
        assert(bucket_label(13).len() > 0);
        assert(bucket_label(14).len() > 0);
        assert(bucket_label(15).len() > 0);
        assert(bucket_label(16).len() > 0);
        assert(bucket_label(17).len() > 0);
        assert(bucket_label(18).len() > 0);
        assert(bucket_label(19).len() > 0);
        assert(bucket_label(20).len() > 0);
        assert(bucket_label(21).len() > 0);
    }
}

/// The slaughter bucket labels are pairwise distinct.
pub proof fn lemma_bucket_labels_distinct()
    ensures
        forall|i: int, j: int| 0 <= i < j < 22 ==> bucket_label(i) != bucket_label(j),
{
    reveal_strlit("Cattle (Cows, Bulls)");
    reveal_strlit("Calves (Veal)");
    reveal_strlit("Pigs");
    reveal_strlit("Goats");
    reveal_strlit("Sheep & Lambs");
    reveal_strlit("Deer & Reindeer");
    reveal_strlit("Antelope");
    reveal_strlit("Elk");
    reveal_strlit("Bison & Buffalo");
    reveal_strlit("Yak");
    reveal_strlit("Other Livestock");
    reveal_strlit("Rabbits");
    reveal_strlit("Chickens");
    reveal_strlit("Turkeys");
    reveal_strlit("Ducks");
    reveal_strlit("Geese");
    reveal_strlit("Pheasants");
    reveal_strlit("Quail");
    reveal_strlit("Guinea Fowl");
    reveal_strlit("Ratites (Ostrich, Emu, etc.)");
    reveal_strlit("Pigeons (Squab)");
    reveal_strlit("Other Poultry");
    assert forall|i: int, j: int| 0 <= i < j < 22 implies bucket_label(i) != bucket_label(j) by {
        lemma_bucket_label_pair(i, j);
    }
}

proof fn lemma_bucket_label_pair(i: int, j: int)
    requires
        0 <= i < j < 22,
    ensures
        bucket_label(i) != bucket_label(j),
{
    reveal_strlit("Cattle (Cows, Bulls)");
    reveal_strlit("Calves (Veal)");
    reveal_strlit("Pigs");
    reveal_strlit("Goats");
    reveal_strlit("Sheep & Lambs");
    reveal_strlit("Deer & Reindeer");
    reveal_strlit("Antelope");
    reveal_strlit("Elk");
    reveal_strlit("Bison & Buffalo");
    reveal_strlit("Yak");
    reveal_strlit("Other Livestock");
    reveal_strlit("Rabbits");
    reveal_strlit("Chickens");
    reveal_strlit("Turkeys");
    reveal_strlit("Ducks");
    reveal_strlit("Geese");
    reveal_strlit("Pheasants");
    reveal_strlit("Quail");
    reveal_strlit("Guinea Fowl");
    reveal_strlit("Ratites (Ostrich, Emu, etc.)");
    reveal_strlit("Pigeons (Squab)");
    reveal_strlit("Other Poultry");
    assert(bucket_label(0).len() != bucket_label(1).len());
    assert(bucket_label(0).len() != bucket_label(2).len());
    assert(bucket_label(0).len() != bucket_label(3).len());
    assert(bucket_label(0).len() != bucket_label(4).len());
    assert(bucket_label(0).len() != bucket_label(5).len());
    assert(bucket_label(0).len() != bucket_label(6).len());
    assert(bucket_label(0).len() != bucket_label(7).len());
    assert(bucket_label(0).len() != bucket_label(8).len());
    assert(bucket_label(0).len() != bucket_label(9).len());
    assert(bucket_label(0).len() != bucket_label(10).len());
    assert(bucket_label(0).len() != bucket_label(11).len());
    assert(bucket_label(0).len() != bucket_label(12).len());
    assert(bucket_label(0).len() != bucket_label(13).len());
    assert(bucket_label(0).len() != bucket_label(14).len());
    assert(bucket_label(0).len() != bucket_label(15).len());
    assert(bucket_label(0).len() != bucket_label(16).len());
    assert(bucket_label(0).len() != bucket_label(17).len());
    assert(bucket_label(0).len() != bucket_label(18).len());
    assert(bucket_label(0).len() != bucket_label(19).len());
    assert(bucket_label(0).len() != bucket_label(20).len());
    assert(bucket_label(0).len() != bucket_label(21).len());
    assert(bucket_label(1).len() != bucket_label(2).len());
    assert(bucket_label(1).len() != bucket_label(3).len());
    assert(bucket_label(1)[0] != bucket_label(4)[0]);
    assert(bucket_label(1).len() != bucket_label(5).len());
    assert(bucket_label(1).len() != bucket_label(6).len());
    assert(bucket_label(1).len() != bucket_label(7).len());
    assert(bucket_label(1).len() != bucket_label(8).len());
    assert(bucket_label(1).len() != bucket_label(9).len());
    assert(bucket_label(1).len() != bucket_label(10).len());
    assert(bucket_label(1).len() != bucket_label(11).len());
    assert(bucket_label(1).len() != bucket_label(12).len());
    assert(bucket_label(1).len() != bucket_label(13).len());
    assert(bucket_label(1).len() != bucket_label(14).len());
    assert(bucket_label(1).len() != bucket_label(15).len());
    assert(bucket_label(1).len() != bucket_label(16).len());
    assert(bucket_label(1).len() != bucket_label(17).len());
    assert(bucket_label(1).len() != bucket_label(18).len());
    assert(bucket_label(1).len() != bucket_label(19).len());
    assert(bucket_label(1).len() != bucket_label(20).len());
    assert(bucket_label(1)[0] != bucket_label(21)[0]);
    assert(bucket_label(2).len() != bucket_label(3).len());
    assert(bucket_label(2).len() != bucket_label(4).len());
    assert(bucket_label(2).len() != bucket_label(5).len());
    assert(bucket_label(2).len() != bucket_label(6).len());
    assert(bucket_label(2).len() != bucket_label(7).len());
    assert(bucket_label(2).len() != bucket_label(8).len());
    assert(bucket_label(2).len() != bucket_label(9).len());
    assert(bucket_label(2).len() != bucket_label(10).len());
    assert(bucket_label(2).len() != bucket_label(11).len());
    assert(bucket_label(2).len() != bucket_label(12).len());
    assert(bucket_label(2).len() != bucket_label(13).len());
    assert(bucket_label(2).len() != bucket_label(14).len());
    assert(bucket_label(2).len() != bucket_label(15).len());
    assert(bucket_label(2).len() != bucket_label(16).len());
    assert(bucket_label(2).len() != bucket_label(17).len());
    assert(bucket_label(2).len() != bucket_label(18).len());
    assert(bucket_label(2).len() != bucket_label(19).len());
    assert(bucket_label(2).len() != bucket_label(20).len());
    assert(bucket_label(2).len() != bucket_label(21).len());
    assert(bucket_label(3).len() != bucket_label(4).len());
    assert(bucket_label(3).len() != bucket_label(5).len());
    assert(bucket_label(3).len() != bucket_label(6).len());
    assert(bucket_label(3).len() != bucket_label(7).len());
    assert(bucket_label(3).len() != bucket_label(8).len());
    assert(bucket_label(3).len() != bucket_label(9).len());
    assert(bucket_label(3).len() != bucket_label(10).len());
    assert(bucket_label(3).len() != bucket_label(11).len());
    assert(bucket_label(3).len() != bucket_label(12).len());
    assert(bucket_label(3).len() != bucket_label(13).len());
    assert(bucket_label(3)[0] != bucket_label(14)[0]);
    assert(bucket_label(3)[1] != bucket_label(15)[1]);
    assert(bucket_label(3).len() != bucket_label(16).len());
    assert(bucket_label(3)[0] != bucket_label(17)[0]);
    assert(bucket_label(3).len() != bucket_label(18).len());
    assert(bucket_label(3).len() != bucket_label(19).len());
    assert(bucket_label(3).len() != bucket_label(20).len());
    assert(bucket_label(3).len() != bucket_label(21).len());
    assert(bucket_label(4).len() != bucket_label(5).len());
    assert(bucket_label(4).len() != bucket_label(6).len());
    assert(bucket_label(4).len() != bucket_label(7).len());
    assert(bucket_label(4).len() != bucket_label(8).len());
    assert(bucket_label(4).len() != bucket_label(9).len());
    assert(bucket_label(4).len() != bucket_label(10).len());
    assert(bucket_label(4).len() != bucket_label(11).len());
    assert(bucket_label(4).len() != bucket_label(12).len());
    assert(bucket_label(4).len() != bucket_label(13).len());
    assert(bucket_label(4).len() != bucket_label(14).len());
    assert(bucket_label(4).len() != bucket_label(15).len());
    assert(bucket_label(4).len() != bucket_label(16).len());
    assert(bucket_label(4).len() != bucket_label(17).len());
    assert(bucket_label(4).len() != bucket_label(18).len());
    assert(bucket_label(4).len() != bucket_label(19).len());
    assert(bucket_label(4).len() != bucket_label(20).len());
    assert(bucket_label(4)[0] != bucket_label(21)[0]);
    assert(bucket_label(5).len() != bucket_label(6).len());
    assert(bucket_label(5).len() != bucket_label(7).len());
    assert(bucket_label(5)[0] != bucket_label(8)[0]);
    assert(bucket_label(5).len() != bucket_label(9).len());
    assert(bucket_label(5)[0] != bucket_label(10)[0]);
    assert(bucket_label(5).len() != bucket_label(11).len());
    assert(bucket_label(5).len() != bucket_label(12).len());
    assert(bucket_label(5).len() != bucket_label(13).len());
    assert(bucket_label(5).len() != bucket_label(14).len());
    assert(bucket_label(5).len() != bucket_label(15).len());
    assert(bucket_label(5).len() != bucket_label(16).len());
    assert(bucket_label(5).len() != bucket_label(17).len());
    assert(bucket_label(5).len() != bucket_label(18).len());
    assert(bucket_label(5).len() != bucket_label(19).len());
    assert(bucket_label(5)[0] != bucket_label(20)[0]);
    assert(bucket_label(5).len() != bucket_label(21).len());
    assert(bucket_label(6).len() != bucket_label(7).len());
    assert(bucket_label(6).len() != bucket_label(8).len());
    assert(bucket_label(6).len() != bucket_label(9).len());
    assert(bucket_label(6).len() != bucket_label(10).len());
    assert(bucket_label(6).len() != bucket_label(11).len());
    assert(bucket_label(6)[0] != bucket_label(12)[0]);
    assert(bucket_label(6).len() != bucket_label(13).len());
    assert(bucket_label(6).len() != bucket_label(14).len());
    assert(bucket_label(6).len() != bucket_label(15).len());
    assert(bucket_label(6).len() != bucket_label(16).len());
    assert(bucket_label(6).len() != bucket_label(17).len());
    assert(bucket_label(6).len() != bucket_label(18).len());
    assert(bucket_label(6).len() != bucket_label(19).len());
    assert(bucket_label(6).len() != bucket_label(20).len());
    assert(bucket_label(6).len() != bucket_label(21).len());
    assert(bucket_label(7).len() != bucket_label(8).len());
    assert(bucket_label(7)[0] != bucket_label(9)[0]);
    assert(bucket_label(7).len() != bucket_label(10).len());
    assert(bucket_label(7).len() != bucket_label(11).len());
    assert(bucket_label(7).len() != bucket_label(12).len());
    assert(bucket_label(7).len() != bucket_label(13).len());
    assert(bucket_label(7).len() != bucket_label(14).len());
    assert(bucket_label(7).len() != bucket_label(15).len());
    assert(bucket_label(7).len() != bucket_label(16).len());
    assert(bucket_label(7).len() != bucket_label(17).len());
    assert(bucket_label(7).len() != bucket_label(18).len());
    assert(bucket_label(7).len() != bucket_label(19).len());
    assert(bucket_label(7).len() != bucket_label(20).len());
    assert(bucket_label(7).len() != bucket_label(21).len());
    assert(bucket_label(8).len() != bucket_label(9).len());
    assert(bucket_label(8)[0] != bucket_label(10)[0]);
    assert(bucket_label(8).len() != bucket_label(11).len());
    assert(bucket_label(8).len() != bucket_label(12).len());
    assert(bucket_label(8).len() != bucket_label(13).len());
    assert(bucket_label(8).len() != bucket_label(14).len());
    assert(bucket_label(8).len() != bucket_label(15).len());
    assert(bucket_label(8).len() != bucket_label(16).len());
    assert(bucket_label(8).len() != bucket_label(17).len());
    assert(bucket_label(8).len() != bucket_label(18).len());
    assert(bucket_label(8).len() != bucket_label(19).len());
    assert(bucket_label(8)[0] != bucket_label(20)[0]);
    assert(bucket_label(8).len() != bucket_label(21).len());
    assert(bucket_label(9).len() != bucket_label(10).len());
    assert(bucket_label(9).len() != bucket_label(11).len());
    assert(bucket_label(9).len() != bucket_label(12).len());
    assert(bucket_label(9).len() != bucket_label(13).len());
    assert(bucket_label(9).len() != bucket_label(14).len());
    assert(bucket_label(9).len() != bucket_label(15).len());
    assert(bucket_label(9).len() != bucket_label(16).len());
    assert(bucket_label(9).len() != bucket_label(17).len());
    assert(bucket_label(9).len() != bucket_label(18).len());
    assert(bucket_label(9).len() != bucket_label(19).len());
    assert(bucket_label(9).len() != bucket_label(20).len());
    assert(bucket_label(9).len() != bucket_label(21).len());
    assert(bucket_label(10).len() != bucket_label(11).len());
    assert(bucket_label(10).len() != bucket_label(12).len());
    assert(bucket_label(10).len() != bucket_label(13).len());
    assert(bucket_label(10).len() != bucket_label(14).len());
    assert(bucket_label(10).len() != bucket_label(15).len());
    assert(bucket_label(10).len() != bucket_label(16).len());
    assert(bucket_label(10).len() != bucket_label(17).len());
    assert(bucket_label(10).len() != bucket_label(18).len());
    assert(bucket_label(10).len() != bucket_label(19).len());
    assert(bucket_label(10)[0] != bucket_label(20)[0]);
    assert(bucket_label(10).len() != bucket_label(21).len());
    assert(bucket_label(11).len() != bucket_label(12).len());
    assert(bucket_label(11)[0] != bucket_label(13)[0]);
    assert(bucket_label(11).len() != bucket_label(14).len());
    assert(bucket_label(11).len() != bucket_label(15).len());
    assert(bucket_label(11).len() != bucket_label(16).len());
    assert(bucket_label(11).len() != bucket_label(17).len());
    assert(bucket_label(11).len() != bucket_label(18).len());
    assert(bucket_label(11).len() != bucket_label(19).len());
    assert(bucket_label(11).len() != bucket_label(20).len());
    assert(bucket_label(11).len() != bucket_label(21).len());
    assert(bucket_label(12).len() != bucket_label(13).len());
    assert(bucket_label(12).len() != bucket_label(14).len());
    assert(bucket_label(12).len() != bucket_label(15).len());
    assert(bucket_label(12).len() != bucket_label(16).len());
    assert(bucket_label(12).len() != bucket_label(17).len());
    assert(bucket_label(12).len() != bucket_label(18).len());
    assert(bucket_label(12).len() != bucket_label(19).len());
    assert(bucket_label(12).len() != bucket_label(20).len());
    assert(bucket_label(12).len() != bucket_label(21).len());
    assert(bucket_label(13).len() != bucket_label(14).len());
    assert(bucket_label(13).len() != bucket_label(15).len());
    assert(bucket_label(13).len() != bucket_label(16).len());
    assert(bucket_label(13).len() != bucket_label(17).len());
    assert(bucket_label(13).len() != bucket_label(18).len());
    assert(bucket_label(13).len() != bucket_label(19).len());
    assert(bucket_label(13).len() != bucket_label(20).len());
    assert(bucket_label(13).len() != bucket_label(21).len());
    assert(bucket_label(14)[0] != bucket_label(15)[0]);
    assert(bucket_label(14).len() != bucket_label(16).len());
    assert(bucket_label(14)[0] != bucket_label(17)[0]);
    assert(bucket_label(14).len() != bucket_label(18).len());
    assert(bucket_label(14).len() != bucket_label(19).len());
    assert(bucket_label(14).len() != bucket_label(20).len());
    assert(bucket_label(14).len() != bucket_label(21).len());
    assert(bucket_label(15).len() != bucket_label(16).len());
    assert(bucket_label(15)[0] != bucket_label(17)[0]);
    assert(bucket_label(15).len() != bucket_label(18).len());
    assert(bucket_label(15).len() != bucket_label(19).len());
    assert(bucket_label(15).len() != bucket_label(20).len());
    assert(bucket_label(15).len() != bucket_label(21).len());
    assert(bucket_label(16).len() != bucket_label(17).len());
    assert(bucket_label(16).len() != bucket_label(18).len());
    assert(bucket_label(16).len() != bucket_label(19).len());
    assert(bucket_label(16).len() != bucket_label(20).len());
    assert(bucket_label(16).len() != bucket_label(21).len());
    assert(bucket_label(17).len() != bucket_label(18).len());
    assert(bucket_label(17).len() != bucket_label(19).len());
    assert(bucket_label(17).len() != bucket_label(20).len());
    assert(bucket_label(17).len() != bucket_label(21).len());
    assert(bucket_label(18).len() != bucket_label(19).len());
    assert(bucket_label(18).len() != bucket_label(20).len());
    assert(bucket_label(18).len() != bucket_label(21).len());
    assert(bucket_label(19).len() != bucket_label(20).len());
    assert(bucket_label(19).len() != bucket_label(21).len());
    assert(bucket_label(20).len() != bucket_label(21).len());
}

/// Bucket independence: each fired bucket contributes its label exactly
/// once, and a bucket's label appears exactly when one of its contributing
/// flags is set, however many of them are.
pub proof fn lemma_slaughtered_bucket_once(l: Location)
    ensures
        slaughtered_labels(l).no_duplicates(),
        forall|i: int| 0 <= i < 22 ==> (slaughtered_labels(l).contains(
            #[trigger] bucket_label(i)) <==> bucket_fires(l, i)),
{
    let fires = slaughter_fires(l);
    let table = slaughter_bucket_labels();
    lemma_bucket_labels_distinct();
    assert(forall|i: int, j: int| 0 <= i < j < 22 ==> #[trigger] table[i] != #[trigger] table[j]);
    lemma_picked_no_duplicates(fires, table);
    assert forall|i: int| 0 <= i < 22 implies (slaughtered_labels(l).contains(
        #[trigger] bucket_label(i)) <==> bucket_fires(l, i)) by {
        lemma_picked_contains(fires, table, bucket_label(i));
        if slaughtered_labels(l).contains(bucket_label(i)) {
            let k = choose|k: int| 0 <= k < fires.len() && #[trigger] fires[k]
                && table[k] == bucket_label(i);
            if k != i {
                lemma_bucket_label_pair(if k < i { k } else { i }, if k < i { i } else { k });
            }
        }
        if bucket_fires(l, i) {
            assert(fires[i] && table[i] == bucket_label(i));
        }
    }
}

/// Whether processing species `i` is flagged.
pub open spec fn processing_fires(l: Location, i: int) -> bool {
    if i == 0 {
        is_yes(l.beef_processing@)
    } else if i == 1 {
        is_yes(l.pork_processing@)
    } else if i == 2 {
        is_yes(l.antelope_processing@)
    } else if i == 3 {
        is_yes(l.bison_processing@)
    } else if i == 4 {
        is_yes(l.buffalo_processing@)
    } else if i == 5 {
        is_yes(l.deer_processing@)
    } else if i == 6 {
        is_yes(l.elk_processing@)
    } else if i == 7 {
        is_yes(l.goat_processing@)
    } else if i == 8 {
        is_yes(l.other_voluntary_livestock_processing@)
    } else if i == 9 {
        is_yes(l.rabbit_processing@)
    } else if i == 10 {
        is_yes(l.reindeer_processing@)
    } else if i == 11 {
        is_yes(l.sheep_processing@)
    } else if i == 12 {
        is_yes(l.yak_processing@)
    } else if i == 13 {
        is_yes(l.chicken_processing@)
    } else if i == 14 {
        is_yes(l.duck_processing@)
    } else if i == 15 {
        is_yes(l.goose_processing@)
    } else if i == 16 {
        is_yes(l.pigeon_processing@)
    } else if i == 17 {
        is_yes(l.ratite_processing@)
    } else if i == 18 {
        is_yes(l.turkey_processing@)
    } else if i == 19 {
        is_yes(l.exotic_poultry_processing@)
    } else if i == 20 {
        is_yes(l.other_voluntary_poultry_processing@)
    } else {
        false
    }
}

/// The output label of processing species `i`.
pub open spec fn processing_label(i: int) -> Seq<char> {
    if i == 0 {
        "Beef"@
    } else if i == 1 {
        "Pork"@
    } else if i == 2 {
        "Antelope"@
    } else if i == 3 {
        "Bison"@
    } else if i == 4 {
        "Buffalo"@
    } else if i == 5 {
        "Deer"@
    } else if i == 6 {
        "Elk"@
    } else if i == 7 {
        "Goat"@
    } else if i == 8 {
        "Other Voluntary Livestock"@
    } else if i == 9 {
        "Rabbit"@
    } else if i == 10 {
        "Reindeer"@
    } else if i == 11 {
        "Sheep"@
    } else if i == 12 {
        "Yak"@
    } else if i == 13 {
        "Chicken"@
    } else if i == 14 {
        "Duck"@
    } else if i == 15 {
        "Goose"@
    } else if i == 16 {
        "Pigeon"@
    } else if i == 17 {
        "Ratite (Ostrich/Emu)"@
    } else if i == 18 {
        "Turkey"@
    } else if i == 19 {
        "Exotic Poultry"@
    } else if i == 20 {
        "Other Voluntary Poultry"@
    } else {
        Seq::empty()
    }
}

pub open spec fn processing_fires_seq(l: Location) -> Seq<bool> {
    Seq::new(NUM_PROCESSING_SPECIES as nat, |i: int| processing_fires(l, i))
}

pub open spec fn processing_labels_seq() -> Seq<Seq<char>> {
    Seq::new(NUM_PROCESSING_SPECIES as nat, |i: int| processing_label(i))
}

/// The species labels of `animals_processed`, one per set processing flag,
/// in declaration order.
pub open spec fn processed_labels(l: Location) -> Seq<Seq<char>> {
    picked(processing_fires_seq(l), processing_labels_seq())
}

/// The derived `animals_processed` summary: the flagged species' labels,
/// comma-and-space joined, or the sentinel "N/A" when no flag is set.
pub open spec fn processed_summary(l: Location) -> Seq<char> {
    if processed_labels(l).len() == 0 {
        "N/A"@
    } else {
        join_with(processed_labels(l), ", "@)
    }
}

/// Whether processing species `i` is flagged on this record.
pub fn processing_set(location: &Location, i: usize) -> (r: bool)
    requires
        i < NUM_PROCESSING_SPECIES,
    ensures
        r == processing_fires(*location, i as int),
{
    if i == 0 {
        flag_set(&location.beef_processing)
    } else if i == 1 {
        flag_set(&location.pork_processing)
    } else if i == 2 {
        flag_set(&location.antelope_processing)
    } else if i == 3 {
        flag_set(&location.bison_processing)
    } else if i == 4 {
        flag_set(&location.buffalo_processing)
    } else if i == 5 {
        flag_set(&location.deer_processing)
    } else if i == 6 {
        flag_set(&location.elk_processing)
    } else if i == 7 {
        flag_set(&location.goat_processing)
    } else if i == 8 {
        flag_set(&location.other_voluntary_livestock_processing)
    } else if i == 9 {
        flag_set(&location.rabbit_processing)
    } else if i == 10 {
        flag_set(&location.reindeer_processing)
    } else if i == 11 {
        flag_set(&location.sheep_processing)
    } else if i == 12 {
        flag_set(&location.yak_processing)
    } else if i == 13 {
        flag_set(&location.chicken_processing)
    } else if i == 14 {
        flag_set(&location.duck_processing)
    } else if i == 15 {
        flag_set(&location.goose_processing)
    } else if i == 16 {
        flag_set(&location.pigeon_processing)
    } else if i == 17 {
        flag_set(&location.ratite_processing)
    } else if i == 18 {
        flag_set(&location.turkey_processing)
    } else if i == 19 {
        flag_set(&location.exotic_poultry_processing)
    } else if i == 20 {
        flag_set(&location.other_voluntary_poultry_processing)
    } else {
        false
    }
}

/// The label of processing species `i`.
pub fn processing_label_at(i: usize) -> (r: String)
    requires
        i < NUM_PROCESSING_SPECIES,
    ensures
        r@ == processing_label(i as int),
{
    if i == 0 {
        String::from_str("Beef")
    } else if i == 1 {
        String::from_str("Pork")
    } else if i == 2 {
        String::from_str("Antelope")
    } else if i == 3 {
        String::from_str("Bison")
    } else if i == 4 {
        String::from_str("Buffalo")
    } else if i == 5 {
        String::from_str("Deer")
    } else if i == 6 {
        String::from_str("Elk")
    } else if i == 7 {
        String::from_str("Goat")
    } else if i == 8 {
        String::from_str("Other Voluntary Livestock")
    } else if i == 9 {
        String::from_str("Rabbit")
    } else if i == 10 {
        String::from_str("Reindeer")
    } else if i == 11 {
        String::from_str("Sheep")
    } else if i == 12 {
        String::from_str("Yak")
    } else if i == 13 {
        String::from_str("Chicken")
    } else if i == 14 {
        String::from_str("Duck")
    } else if i == 15 {
        String::from_str("Goose")
    } else if i == 16 {
        String::from_str("Pigeon")
    } else if i == 17 {
        String::from_str("Ratite (Ostrich/Emu)")
    } else if i == 18 {
        String::from_str("Turkey")
    } else if i == 19 {
        String::from_str("Exotic Poultry")
    } else if i == 20 {
        String::from_str("Other Voluntary Poultry")
    } else {
        String::new()
    }
}

fn processing_fires_vec(location: &Location) -> (r: Vec<bool>)
    ensures
        r@ == processing_fires_seq(*location),
{
    let mut v: Vec<bool> = Vec::new();
    let mut i: usize = 0;
    while i < NUM_PROCESSING_SPECIES
        invariant
            i <= NUM_PROCESSING_SPECIES,
            v@ =~= Seq::new(i as nat, |j: int| processing_fires(*location, j)),
        decreases NUM_PROCESSING_SPECIES - i,
    {
        v.push(processing_set(location, i));
        i = i + 1;
    }
    proof {
        assert(v@ =~= processing_fires_seq(*location));
    }
    v
}

fn processing_labels_vec() -> (r: Vec<String>)
    ensures
        r.deep_view() == processing_labels_seq(),
        r@.len() == NUM_PROCESSING_SPECIES,
{
    let mut v: Vec<String> = Vec::new();
    let mut i: usize = 0;
    while i < NUM_PROCESSING_SPECIES
        invariant
            i <= NUM_PROCESSING_SPECIES,
            v@.len() == i,
            v.deep_view() =~= Seq::new(i as nat, |j: int| processing_label(j)),
        decreases NUM_PROCESSING_SPECIES - i,
    {
        let ghost prev = v.deep_view();
        let s = processing_label_at(i);
        v.push(s);
        proof {
            assert(v.deep_view() =~= prev.push(processing_label(i as int)));
        }
        i = i + 1;
    }
    proof {
        assert(v.deep_view() =~= processing_labels_seq());
    }
    v
}

/// Derives the `animals_processed` summary string of a facility record.
pub fn get_processed_animals(location: &Location) -> (r: String)
    ensures
        r@ == processed_summary(*location),
{
    let fires = processing_fires_vec(location);
    let table = processing_labels_vec();
    let chosen = pick_labels(&fires, &table);
    if chosen.is_empty() {
        proof {
            assert(chosen.deep_view().len() == 0);
        }
        String::from_str("N/A")
    } else {
        join_comma(&chosen)
    }
}

/// No processing flag of the record holds "Yes".
pub open spec fn no_processing_flag_set(l: Location) -> bool {
    &&& !is_yes(l.beef_processing@)
    &&& !is_yes(l.pork_processing@)
    &&& !is_yes(l.antelope_processing@)
    &&& !is_yes(l.bison_processing@)
    &&& !is_yes(l.buffalo_processing@)
    &&& !is_yes(l.deer_processing@)
    &&& !is_yes(l.elk_processing@)
    &&& !is_yes(l.goat_processing@)
    &&& !is_yes(l.other_voluntary_livestock_processing@)
    &&& !is_yes(l.rabbit_processing@)
    &&& !is_yes(l.reindeer_processing@)
    &&& !is_yes(l.sheep_processing@)
    &&& !is_yes(l.yak_processing@)
    &&& !is_yes(l.chicken_processing@)
    &&& !is_yes(l.duck_processing@)
    &&& !is_yes(l.goose_processing@)
    &&& !is_yes(l.pigeon_processing@)
    &&& !is_yes(l.ratite_processing@)
    &&& !is_yes(l.turkey_processing@)
    &&& !is_yes(l.exotic_poultry_processing@)
    &&& !is_yes(l.other_voluntary_poultry_processing@)
}

/// Every processing label is a nonempty string.
pub proof fn lemma_processing_labels_nonempty()
    ensures
        forall|i: int| 0 <= i < 21 ==> #[trigger] processing_label(i).len() > 0,
{
    reveal_strlit("Beef");
    reveal_strlit("Pork");
    reveal_strlit("Antelope");
    reveal_strlit("Bison");
    reveal_strlit("Buffalo");
    reveal_strlit("Deer");
    reveal_strlit("Elk");
    reveal_strlit("Goat");
    reveal_strlit("Other Voluntary Livestock");
    reveal_strlit("Rabbit");
    reveal_strlit("Reindeer");
    reveal_strlit("Sheep");
    reveal_strlit("Yak");
    reveal_strlit("Chicken");
    reveal_strlit("Duck");
    reveal_strlit("Goose");
    reveal_strlit("Pigeon");
    reveal_strlit("Ratite (Ostrich/Emu)");
    reveal_strlit("Turkey");
    reveal_strlit("Exotic Poultry");
    reveal_strlit("Other Voluntary Poultry");
    assert forall|i: int| 0 <= i < 21 implies #[trigger] processing_label(i).len() > 0 by {
        assert(processing_label(0).len() > 0);
        assert(processing_label(1).len() > 0);
        assert(processing_label(2).len() > 0);
        assert(processing_label(3).len() > 0);
        assert(processing_label(4).len() > 0);
        assert(processing_label(5).len() > 0);
        assert(processing_label(6).len() > 0);
        assert(processing_label(7).len() > 0);
        assert(processing_label(8).len() > 0);
        assert(processing_label(9).len() > 0);
        assert(processing_label(10).len() > 0);
        assert(processing_label(11).len() > 0);
        assert(processing_label(12).len() > 0);
        assert(processing_label(13).len() > 0);
        assert(processing_label(14).len() > 0);
        assert(processing_label(15).len() > 0);
        assert(processing_label(16).len() > 0);
        assert(processing_label(17).len() > 0);
        assert(processing_label(18).len() > 0);
        assert(processing_label(19).len() > 0);
        assert(processing_label(20).len() > 0);
    }
}

proof fn lemma_processing_label_pair(i: int, j: int)
    requires
        0 <= i < j < 21,
    ensures
        processing_label(i) != processing_label(j),
{
    reveal_strlit("Beef");
    reveal_strlit("Pork");
    reveal_strlit("Antelope");
    reveal_strlit("Bison");
    reveal_strlit("Buffalo");
    reveal_strlit("Deer");
    reveal_strlit("Elk");
    reveal_strlit("Goat");
    reveal_strlit("Other Voluntary Livestock");
    reveal_strlit("Rabbit");
    reveal_strlit("Reindeer");
    reveal_strlit("Sheep");
    reveal_strlit("Yak");
    reveal_strlit("Chicken");
    reveal_strlit("Duck");
    reveal_strlit("Goose");
    reveal_strlit("Pigeon");
    reveal_strlit("Ratite (Ostrich/Emu)");
    reveal_strlit("Turkey");
    reveal_strlit("Exotic Poultry");
    reveal_strlit("Other Voluntary Poultry");
    assert(processing_label(0)[0] != processing_label(1)[0]);
    assert(processing_label(0).len() != processing_label(2).len());
    assert(processing_label(0).len() != processing_label(3).len());
    assert(processing_label(0).len() != processing_label(4).len());
    assert(processing_label(0)[0] != processing_label(5)[0]);
    assert(processing_label(0).len() != processing_label(6).len());
    assert(processing_label(0)[0] != processing_label(7)[0]);
    assert(processing_label(0).len() != processing_label(8).len());
    assert(processing_label(0).len() != processing_label(9).len());
    assert(processing_label(0).len() != processing_label(10).len());
    assert(processing_label(0).len() != processing_label(11).len());
    assert(processing_label(0).len() != processing_label(12).len());
    assert(processing_label(0).len() != processing_label(13).len());
    assert(processing_label(0)[0] != processing_label(14)[0]);
    assert(processing_label(0).len() != processing_label(15).len());
    assert(processing_label(0).len() != processing_label(16).len());
    assert(processing_label(0).len() != processing_label(17).len());
    assert(processing_label(0).len() != processing_label(18).len());
    assert(processing_label(0).len() != processing_label(19).len());
    assert(processing_label(0).len() != processing_label(20).len());
    assert(processing_label(1).len() != processing_label(2).len());
    assert(processing_label(1).len() != processing_label(3).len());
    assert(processing_label(1).len() != processing_label(4).len());
    assert(processing_label(1)[0] != processing_label(5)[0]);
    assert(processing_label(1).len() != processing_label(6).len());
    assert(processing_label(1)[0] != processing_label(7)[0]);
    assert(processing_label(1).len() != processing_label(8).len());
    assert(processing_label(1).len() != processing_label(9).len());
    assert(processing_label(1).len() != processing_label(10).len());
    assert(processing_label(1).len() != processing_label(11).len());
    assert(processing_label(1).len() != processing_label(12).len());
    assert(processing_label(1).len() != processing_label(13).len());
    assert(processing_label(1)[0] != processing_label(14)[0]);
    assert(processing_label(1).len() != processing_label(15).len());
    assert(processing_label(1).len() != processing_label(16).len());
    assert(processing_label(1).len() != processing_label(17).len());
    assert(processing_label(1).len() != processing_label(18).len());
    assert(processing_label(1).len() != processing_label(19).len());
    assert(processing_label(1).len() != processing_label(20).len());
    assert(processing_label(2).len() != processing_label(3).len());
    assert(processing_label(2).len() != processing_label(4).len());
    assert(processing_label(2).len() != processing_label(5).len());
    assert(processing_label(2).len() != processing_label(6).len());
    assert(processing_label(2).len() != processing_label(7).len());
    assert(processing_label(2).len() != processing_label(8).len());
    assert(processing_label(2).len() != processing_label(9).len());
    assert(processing_label(2)[0] != processing_label(10)[0]);
    assert(processing_label(2).len() != processing_label(11).len());
    assert(processing_label(2).len() != processing_label(12).len());
    assert(processing_label(2).len() != processing_label(13).len());
    assert(processing_label(2).len() != processing_label(14).len());
    assert(processing_label(2).len() != processing_label(15).len());
    assert(processing_label(2).len() != processing_label(16).len());
    assert(processing_label(2).len() != processing_label(17).len());
    assert(processing_label(2).len() != processing_label(18).len());
    assert(processing_label(2).len() != processing_label(19).len());
    assert(processing_label(2).len() != processing_label(20).len());
    assert(processing_label(3).len() != processing_label(4).len());
    assert(processing_label(3).len() != processing_label(5).len());
    assert(processing_label(3).len() != processing_label(6).len());
    assert(processing_label(3).len() != processing_label(7).len());
    assert(processing_label(3).len() != processing_label(8).len());
    assert(processing_label(3).len() != processing_label(9).len());
    assert(processing_label(3).len() != processing_label(10).len());
    assert(processing_label(3)[0] != processing_label(11)[0]);
    assert(processing_label(3).len() != processing_label(12).len());
    assert(processing_label(3).len() != processing_label(13).len());
    assert(processing_label(3).len() != processing_label(14).len());
    assert(processing_label(3)[0] != processing_label(15)[0]);
    assert(processing_label(3).len() != processing_label(16).len());
    assert(processing_label(3).len() != processing_label(17).len());
    assert(processing_label(3).len() != processing_label(18).len());
    assert(processing_label(3).len() != processing_label(19).len());
    assert(processing_label(3).len() != processing_label(20).len());
    assert(processing_label(4).len() != processing_label(5).len());
    assert(processing_label(4).len() != processing_label(6).len());
    assert(processing_label(4).len() != processing_label(7).len());
    assert(processing_label(4).len() != processing_label(8).len());
    assert(processing_label(4).len() != processing_label(9).len());
    assert(processing_label(4).len() != processing_label(10).len());
    assert(processing_label(4).len() != processing_label(11).len());
    assert(processing_label(4).len() != processing_label(12).len());
    assert(processing_label(4)[0] != processing_label(13)[0]);
    assert(processing_label(4).len() != processing_label(14).len());
    assert(processing_label(4).len() != processing_label(15).len());
    assert(processing_label(4).len() != processing_label(16).len());
    assert(processing_label(4).len() != processing_label(17).len());
    assert(processing_label(4).len() != processing_label(18).len());
    assert(processing_label(4).len() != processing_label(19).len());
    assert(processing_label(4).len() != processing_label(20).len());
    assert(processing_label(5).len() != processing_label(6).len());
    assert(processing_label(5)[0] != processing_label(7)[0]);
    assert(processing_label(5).len() != processing_label(8).len());
    assert(processing_label(5).len() != processing_label(9).len());
    assert(processing_label(5).len() != processing_label(10).len());
    assert(processing_label(5).len() != processing_label(11).len());
    assert(processing_label(5).len() != processing_label(12).len());
    assert(processing_label(5).len() != processing_label(13).len());
    assert(processing_label(5)[1] != processing_label(14)[1]);
    assert(processing_label(5).len() != processing_label(15).len());
    assert(processing_label(5).len() != processing_label(16).len());
    assert(processing_label(5).len() != processing_label(17).len());
    assert(processing_label(5).len() != processing_label(18).len());
    assert(processing_label(5).len() != processing_label(19).len());
    assert(processing_label(5).len() != processing_label(20).len());
    assert(processing_label(6).len() != processing_label(7).len());
    assert(processing_label(6).len() != processing_label(8).len());
    assert(processing_label(6).len() != processing_label(9).len());
    assert(processing_label(6).len() != processing_label(10).len());
    assert(processing_label(6).len() != processing_label(11).len());
    assert(processing_label(6)[0] != processing_label(12)[0]);
    assert(processing_label(6).len() != processing_label(13).len());
    assert(processing_label(6).len() != processing_label(14).len());
    assert(processing_label(6).len() != processing_label(15).len());
    assert(processing_label(6).len() != processing_label(16).len());
    assert(processing_label(6).len() != processing_label(17).len());
    assert(processing_label(6).len() != processing_label(18).len());
    assert(processing_label(6).len() != processing_label(19).len());
    assert(processing_label(6).len() != processing_label(20).len());
    assert(processing_label(7).len() != processing_label(8).len());
    assert(processing_label(7).len() != processing_label(9).len());
    assert(processing_label(7).len() != processing_label(10).len());
    assert(processing_label(7).len() != processing_label(11).len());
    assert(processing_label(7).len() != processing_label(12).len());
    assert(processing_label(7).len() != processing_label(13).len());
    assert(processing_label(7)[0] != processing_label(14)[0]);
    assert(processing_label(7).len() != processing_label(15).len());
    assert(processing_label(7).len() != processing_label(16).len());
    assert(processing_label(7).len() != processing_label(17).len());
    assert(processing_label(7).len() != processing_label(18).len());
    assert(processing_label(7).len() != processing_label(19).len());
    assert(processing_label(7).len() != processing_label(20).len());
    assert(processing_label(8).len() != processing_label(9).len());
    assert(processing_label(8).len() != processing_label(10).len());
    assert(processing_label(8).len() != processing_label(11).len());
    assert(processing_label(8).len() != processing_label(12).len());
    assert(processing_label(8).len() != processing_label(13).len());
    assert(processing_label(8).len() != processing_label(14).len());
    assert(processing_label(8).len() != processing_label(15).len());
    assert(processing_label(8).len() != processing_label(16).len());
    assert(processing_label(8).len() != processing_label(17).len());
    assert(processing_label(8).len() != processing_label(18).len());
    assert(processing_label(8).len() != processing_label(19).len());
    assert(processing_label(8).len() != processing_label(20).len());
    assert(processing_label(9).len() != processing_label(10).len());
    assert(processing_label(9).len() != processing_label(11).len());
    assert(processing_label(9).len() != processing_label(12).len());
    assert(processing_label(9).len() != processing_label(13).len());
    assert(processing_label(9).len() != processing_label(14).len());
    assert(processing_label(9).len() != processing_label(15).len());
    assert(processing_label(9)[0] != processing_label(16)[0]);
    assert(processing_label(9).len() != processing_label(17).len());
    assert(processing_label(9)[0] != processing_label(18)[0]);
    assert(processing_label(9).len() != processing_label(19).len());
    assert(processing_label(9).len() != processing_label(20).len());
    assert(processing_label(10).len() != processing_label(11).len());
    assert(processing_label(10).len() != processing_label(12).len());
    assert(processing_label(10).len() != processing_label(13).len());
    assert(processing_label(10).len() != processing_label(14).len());
    assert(processing_label(10).len() != processing_label(15).len());
    assert(processing_label(10).len() != processing_label(16).len());
    assert(processing_label(10).len() != processing_label(17).len());
    assert(processing_label(10).len() != processing_label(18).len());
    assert(processing_label(10).len() != processing_label(19).len());
    assert(processing_label(10).len() != processing_label(20).len());
    assert(processing_label(11).len() != processing_label(12).len());
    assert(processing_label(11).len() != processing_label(13).len());
    assert(processing_label(11).len() != processing_label(14).len());
    assert(processing_label(11)[0] != processing_label(15)[0]);
    assert(processing_label(11).len() != processing_label(16).len());
    assert(processing_label(11).len() != processing_label(17).len());
    assert(processing_label(11).len() != processing_label(18).len());
    assert(processing_label(11).len() != processing_label(19).len());
    assert(processing_label(11).len() != processing_label(20).len());
    assert(processing_label(12).len() != processing_label(13).len());
    assert(processing_label(12).len() != processing_label(14).len());
    assert(processing_label(12).len() != processing_label(15).len());
    assert(processing_label(12).len() != processing_label(16).len());
    assert(processing_label(12).len() != processing_label(17).len());
    assert(processing_label(12).len() != processing_label(18).len());
    assert(processing_label(12).len() != processing_label(19).len());
    assert(processing_label(12).len() != processing_label(20).len());
    assert(processing_label(13).len() != processing_label(14).len());
    assert(processing_label(13).len() != processing_label(15).len());
    assert(processing_label(13).len() != processing_label(16).len());
    assert(processing_label(13).len() != processing_label(17).len());
    assert(processing_label(13).len() != processing_label(18).len());
    assert(processing_label(13).len() != processing_label(19).len());
    assert(processing_label(13).len() != processing_label(20).len());
    assert(processing_label(14).len() != processing_label(15).len());
    assert(processing_label(14).len() != processing_label(16).len());
    assert(processing_label(14).len() != processing_label(17).len());
    assert(processing_label(14).len() != processing_label(18).len());
    assert(processing_label(14).len() != processing_label(19).len());
    assert(processing_label(14).len() != processing_label(20).len());
    assert(processing_label(15).len() != processing_label(16).len());
    assert(processing_label(15).len() != processing_label(17).len());
    assert(processing_label(15).len() != processing_label(18).len());
    assert(processing_label(15).len() != processing_label(19).len());
    assert(processing_label(15).len() != processing_label(20).len());
    assert(processing_label(16).len() != processing_label(17).len());
    assert(processing_label(16)[0] != processing_label(18)[0]);
    assert(processing_label(16).len() != processing_label(19).len());
    assert(processing_label(16).len() != processing_label(20).len());
    assert(processing_label(17).len() != processing_label(18).len());
    assert(processing_label(17).len() != processing_label(19).len());
    assert(processing_label(17).len() != processing_label(20).len());
    assert(processing_label(18).len() != processing_label(19).len());
    assert(processing_label(18).len() != processing_label(20).len());
    assert(processing_label(19).len() != processing_label(20).len());
}

/// The processing labels are pairwise distinct.
pub proof fn lemma_processing_labels_distinct()
    ensures
        forall|i: int, j: int| 0 <= i < j < 21 ==> processing_label(i) != processing_label(j),
{
    assert forall|i: int, j: int| 0 <= i < j < 21 implies processing_label(i) != processing_label(j) by {
        lemma_processing_label_pair(i, j);
    }
}

/// No processing label equals the sentinel "N/A".
proof fn lemma_processing_label_not_na(i: int)
    requires
        0 <= i < 21,
    ensures
        processing_label(i) != "N/A"@,
{
    reveal_strlit("N/A");
    reveal_strlit("Beef");
    reveal_strlit("Pork");
    reveal_strlit("Antelope");
    reveal_strlit("Bison");
    reveal_strlit("Buffalo");
    reveal_strlit("Deer");
    reveal_strlit("Elk");
    reveal_strlit("Goat");
    reveal_strlit("Other Voluntary Livestock");
    reveal_strlit("Rabbit");
    reveal_strlit("Reindeer");
    reveal_strlit("Sheep");
    reveal_strlit("Yak");
    reveal_strlit("Chicken");
    reveal_strlit("Duck");
    reveal_strlit("Goose");
    reveal_strlit("Pigeon");
    reveal_strlit("Ratite (Ostrich/Emu)");
    reveal_strlit("Turkey");
    reveal_strlit("Exotic Poultry");
    reveal_strlit("Other Voluntary Poultry");
    assert(processing_label(0).len() != "N/A"@.len());
    assert(processing_label(1).len() != "N/A"@.len());
    assert(processing_label(2).len() != "N/A"@.len());
    assert(processing_label(3).len() != "N/A"@.len());
    assert(processing_label(4).len() != "N/A"@.len());
    assert(processing_label(5).len() != "N/A"@.len());
    assert(processing_label(6)[0] != "N/A"@[0]);
    assert(processing_label(7).len() != "N/A"@.len());
    assert(processing_label(8).len() != "N/A"@.len());
    assert(processing_label(9).len() != "N/A"@.len());
    assert(processing_label(10).len() != "N/A"@.len());
    assert(processing_label(11).len() != "N/A"@.len());
    assert(processing_label(12)[0] != "N/A"@[0]);
    assert(processing_label(13).len() != "N/A"@.len());
    assert(processing_label(14).len() != "N/A"@.len());
    assert(processing_label(15).len() != "N/A"@.len());
    assert(processing_label(16).len() != "N/A"@.len());
    assert(processing_label(17).len() != "N/A"@.len());
    assert(processing_label(18).len() != "N/A"@.len());
    assert(processing_label(19).len() != "N/A"@.len());
    assert(processing_label(20).len() != "N/A"@.len());
}

/// The `animals_processed` summary is the sentinel "N/A" exactly when
/// every processing flag is not "Yes"; otherwise it lists one label per
/// set flag, in declaration order, and never collides with the sentinel.
pub proof fn lemma_processed_na_iff(l: Location)
    ensures
        (processed_summary(l) == "N/A"@) <==> no_processing_flag_set(l),
{
    let fires = processing_fires_seq(l);
    let table = processing_labels_seq();
    lemma_picked_empty_iff(fires, table);
    assert((forall|i: int| 0 <= i < 21 ==> !(#[trigger] fires[i])) <==> no_processing_flag_set(l)) by {
        assert(fires[0] == processing_fires(l, 0));
        assert(fires[1] == processing_fires(l, 1));
        assert(fires[2] == processing_fires(l, 2));
        assert(fires[3] == processing_fires(l, 3));
        assert(fires[4] == processing_fires(l, 4));
        assert(fires[5] == processing_fires(l, 5));
        assert(fires[6] == processing_fires(l, 6));
        assert(fires[7] == processing_fires(l, 7));
        assert(fires[8] == processing_fires(l, 8));
        assert(fires[9] == processing_fires(l, 9));
        assert(fires[10] == processing_fires(l, 10));
        assert(fires[11] == processing_fires(l, 11));
        assert(fires[12] == processing_fires(l, 12));
        assert(fires[13] == processing_fires(l, 13));
        assert(fires[14] == processing_fires(l, 14));
        assert(fires[15] == processing_fires(l, 15));
        assert(fires[16] == processing_fires(l, 16));
        assert(fires[17] == processing_fires(l, 17));
        assert(fires[18] == processing_fires(l, 18));
        assert(fires[19] == processing_fires(l, 19));
        assert(fires[20] == processing_fires(l, 20));
    }
    let labels = processed_labels(l);
    if labels.len() > 0 {
        lemma_picked_from_table(fires, table);
        lemma_processing_labels_nonempty();
        assert forall|j: int| 0 <= j < labels.len()
            implies #[trigger] labels[j].len() > 0 by {
            assert(table.contains(labels[j]));
            let i = choose|i: int| 0 <= i < table.len() && table[i] == labels[j];
            assert(table[i] == processing_label(i));
        }
        if labels.len() == 1 {
            assert(table.contains(labels[0]));
            let i = choose|i: int| 0 <= i < table.len() && table[i] == labels[0];
            lemma_processing_label_not_na(i);
            assert(join_with(labels, ", "@) == labels[0]);
        } else {
            reveal_strlit(", ");
            reveal_strlit("N/A");
            lemma_join_two_or_more_len(labels, ", "@);
            assert(join_with(labels, ", "@).len() >= 4);
            assert("N/A"@.len() == 3);
        }
    }
}

/// Each set processing flag contributes its species label exactly once.
pub proof fn lemma_processed_label_once(l: Location)
    ensures
        processed_labels(l).no_duplicates(),
        forall|i: int| 0 <= i < 21 ==> (processed_labels(l).contains(
            #[trigger] processing_label(i)) <==> processing_fires(l, i)),
{
    let fires = processing_fires_seq(l);
    let table = processing_labels_seq();
    lemma_processing_labels_distinct();
    assert(forall|i: int, j: int| 0 <= i < j < 21 ==> #[trigger] table[i] != #[trigger] table[j]);
    lemma_picked_no_duplicates(fires, table);
    assert forall|i: int| 0 <= i < 21 implies (processed_labels(l).contains(
        #[trigger] processing_label(i)) <==> processing_fires(l, i)) by {
        lemma_picked_contains(fires, table, processing_label(i));
        if processed_labels(l).contains(processing_label(i)) {
            let k = choose|k: int| 0 <= k < fires.len() && #[trigger] fires[k]
                && table[k] == processing_label(i);
            if k != i {
                lemma_processing_label_pair(if k < i { k } else { i }, if k < i { i } else { k });
            }
        }
        if processing_fires(l, i) {
            assert(fires[i] && table[i] == processing_label(i));
        }
    }
}


/// Every declared facility column is present in the header and the row
/// reaches it.
pub open spec fn location_cols_present(h: Seq<Seq<char>>, r: Seq<Seq<char>>) -> bool {
    &&& lookup(h, r, "establishment_id"@) is Some
    &&& lookup(h, r, "establishment_number"@) is Some
    &&& lookup(h, r, "establishment_name"@) is Some
    &&& lookup(h, r, "duns_number"@) is Some
    &&& lookup(h, r, "street"@) is Some
    &&& lookup(h, r, "city"@) is Some
    &&& lookup(h, r, "state"@) is Some
    &&& lookup(h, r, "zip"@) is Some
    &&& lookup(h, r, "phone"@) is Some
    &&& lookup(h, r, "grant_date"@) is Some
    &&& lookup(h, r, "type"@) is Some
    &&& lookup(h, r, "dbas"@) is Some
    &&& lookup(h, r, "district"@) is Some
    &&& lookup(h, r, "circuit"@) is Some
    &&& lookup(h, r, "size"@) is Some
    &&& lookup(h, r, "latitude"@) is Some
    &&& lookup(h, r, "longitude"@) is Some
    &&& lookup(h, r, "county"@) is Some
    &&& lookup(h, r, "fips_code"@) is Some
    &&& lookup(h, r, "meat_exemption_custom_slaughter"@) is Some
    &&& lookup(h, r, "poultry_exemption_custom_slaughter"@) is Some
    &&& lookup(h, r, "slaughter"@) is Some
    &&& lookup(h, r, "meat_slaughter"@) is Some
    &&& lookup(h, r, "beef_cow_slaughter"@) is Some
    &&& lookup(h, r, "steer_slaughter"@) is Some
    &&& lookup(h, r, "heifer_slaughter"@) is Some
    &&& lookup(h, r, "bull_stag_slaughter"@) is Some
    &&& lookup(h, r, "dairy_cow_slaughter"@) is Some
    &&& lookup(h, r, "heavy_calf_slaughter"@) is Some
    &&& lookup(h, r, "bob_veal_slaughter"@) is Some
    &&& lookup(h, r, "formula_fed_veal_slaughter"@) is Some
    &&& lookup(h, r, "non_formula_fed_veal_slaughter"@) is Some
    &&& lookup(h, r, "market_swine_slaughter"@) is Some
    &&& lookup(h, r, "sow_slaughter"@) is Some
    &&& lookup(h, r, "roaster_swine_slaughter"@) is Some
    &&& lookup(h, r, "boar_stag_swine_slaughter"@) is Some
    &&& lookup(h, r, "stag_swine_slaughter"@) is Some
    &&& lookup(h, r, "feral_swine_slaughter"@) is Some
    &&& lookup(h, r, "goat_slaughter"@) is Some
    &&& lookup(h, r, "young_goat_slaughter"@) is Some
    &&& lookup(h, r, "adult_goat_slaughter"@) is Some
    &&& lookup(h, r, "sheep_slaughter"@) is Some
    &&& lookup(h, r, "lamb_slaughter"@) is Some
    &&& lookup(h, r, "deer_reindeer_slaughter"@) is Some
    &&& lookup(h, r, "antelope_slaughter"@) is Some
    &&& lookup(h, r, "elk_slaughter"@) is Some
    &&& lookup(h, r, "bison_slaughter"@) is Some
    &&& lookup(h, r, "buffalo_slaughter"@) is Some
    &&& lookup(h, r, "water_buffalo_slaughter"@) is Some
    &&& lookup(h, r, "cattalo_slaughter"@) is Some
    &&& lookup(h, r, "yak_slaughter"@) is Some
    &&& lookup(h, r, "other_voluntary_livestock_slaughter"@) is Some
    &&& lookup(h, r, "rabbit_slaughter"@) is Some
    &&& lookup(h, r, "poultry_slaughter"@) is Some
    &&& lookup(h, r, "young_chicken_slaughter"@) is Some
    &&& lookup(h, r, "light_fowl_slaughter"@) is Some
    &&& lookup(h, r, "heavy_fowl_slaughter"@) is Some
    &&& lookup(h, r, "capon_slaughter"@) is Some
    &&& lookup(h, r, "young_turkey_slaughter"@) is Some
    &&& lookup(h, r, "young_breeder_turkey_slaughter"@) is Some
    &&& lookup(h, r, "old_breeder_turkey_slaughter"@) is Some
    &&& lookup(h, r, "fryer_roaster_turkey_slaughter"@) is Some
    &&& lookup(h, r, "duck_slaughter"@) is Some
    &&& lookup(h, r, "goose_slaughter"@) is Some
    &&& lookup(h, r, "pheasant_slaughter"@) is Some
    &&& lookup(h, r, "quail_slaughter"@) is Some
    &&& lookup(h, r, "guinea_slaughter"@) is Some
    &&& lookup(h, r, "ostrich_slaughter"@) is Some
    &&& lookup(h, r, "emu_slaughter"@) is Some
    &&& lookup(h, r, "rhea_slaughter"@) is Some
    &&& lookup(h, r, "squab_slaughter"@) is Some
    &&& lookup(h, r, "other_voluntary_poultry_slaughter"@) is Some
    &&& lookup(h, r, "slaughter_or_processing_only"@) is Some
    &&& lookup(h, r, "slaughter_only_class"@) is Some
    &&& lookup(h, r, "slaughter_only_species"@) is Some
    &&& lookup(h, r, "meat_slaughter_only_species"@) is Some
    &&& lookup(h, r, "poultry_slaughter_only_species"@) is Some
    &&& lookup(h, r, "slaughter_volume_category"@) is Some
    &&& lookup(h, r, "processing_volume_category"@) is Some
    &&& lookup(h, r, "beef_processing"@) is Some
    &&& lookup(h, r, "pork_processing"@) is Some
    &&& lookup(h, r, "antelope_processing"@) is Some
    &&& lookup(h, r, "bison_processing"@) is Some
    &&& lookup(h, r, "buffalo_processing"@) is Some
    &&& lookup(h, r, "deer_processing"@) is Some
    &&& lookup(h, r, "elk_processing"@) is Some
    &&& lookup(h, r, "goat_processing"@) is Some
    &&& lookup(h, r, "other_voluntary_livestock_processing"@) is Some
    &&& lookup(h, r, "rabbit_processing"@) is Some
    &&& lookup(h, r, "reindeer_processing"@) is Some
    &&& lookup(h, r, "sheep_processing"@) is Some
    &&& lookup(h, r, "yak_processing"@) is Some
    &&& lookup(h, r, "chicken_processing"@) is Some
    &&& lookup(h, r, "duck_processing"@) is Some
    &&& lookup(h, r, "goose_processing"@) is Some
    &&& lookup(h, r, "pigeon_processing"@) is Some
    &&& lookup(h, r, "ratite_processing"@) is Some
    &&& lookup(h, r, "turkey_processing"@) is Some
    &&& lookup(h, r, "exotic_poultry_processing"@) is Some
    &&& lookup(h, r, "other_voluntary_poultry_processing"@) is Some
}

/// Every field of the record equals its row value under the matching
/// header column.
pub open spec fn location_matches(l: Location, h: Seq<Seq<char>>, r: Seq<Seq<char>>) -> bool {
    &&& lookup(h, r, "establishment_id"@) == Some(l.establishment_id@)
    &&& lookup(h, r, "establishment_number"@) == Some(l.establishment_number@)
    &&& lookup(h, r, "establishment_name"@) == Some(l.establishment_name@)
    &&& lookup(h, r, "duns_number"@) == Some(l.duns_number@)
    &&& lookup(h, r, "street"@) == Some(l.street@)
    &&& lookup(h, r, "city"@) == Some(l.city@)
    &&& lookup(h, r, "state"@) == Some(l.state@)
    &&& lookup(h, r, "zip"@) == Some(l.zip@)
    &&& lookup(h, r, "phone"@) == Some(l.phone@)
    &&& lookup(h, r, "grant_date"@) == Some(l.grant_date@)
    &&& lookup(h, r, "type"@) == Some(l.activities@)
    &&& lookup(h, r, "dbas"@) == Some(l.dbas@)
    &&& lookup(h, r, "district"@) == Some(l.district@)
    &&& lookup(h, r, "circuit"@) == Some(l.circuit@)
    &&& lookup(h, r, "size"@) == Some(l.size@)
    &&& lookup(h, r, "latitude"@) == Some(l.latitude@)
    &&& lookup(h, r, "longitude"@) == Some(l.longitude@)
    &&& lookup(h, r, "county"@) == Some(l.county@)
    &&& lookup(h, r, "fips_code"@) == Some(l.fips_code@)
    &&& lookup(h, r, "meat_exemption_custom_slaughter"@) == Some(l.meat_exemption_custom_slaughter@)
    &&& lookup(h, r, "poultry_exemption_custom_slaughter"@) == Some(l.poultry_exemption_custom_slaughter@)
    &&& lookup(h, r, "slaughter"@) == Some(l.slaughter@)
    &&& lookup(h, r, "meat_slaughter"@) == Some(l.meat_slaughter@)
    &&& lookup(h, r, "beef_cow_slaughter"@) == Some(l.beef_cow_slaughter@)
    &&& lookup(h, r, "steer_slaughter"@) == Some(l.steer_slaughter@)
    &&& lookup(h, r, "heifer_slaughter"@) == Some(l.heifer_slaughter@)
    &&& lookup(h, r, "bull_stag_slaughter"@) == Some(l.bull_stag_slaughter@)
    &&& lookup(h, r, "dairy_cow_slaughter"@) == Some(l.dairy_cow_slaughter@)
    &&& lookup(h, r, "heavy_calf_slaughter"@) == Some(l.heavy_calf_slaughter@)
    &&& lookup(h, r, "bob_veal_slaughter"@) == Some(l.bob_veal_slaughter@)
    &&& lookup(h, r, "formula_fed_veal_slaughter"@) == Some(l.formula_fed_veal_slaughter@)
    &&& lookup(h, r, "non_formula_fed_veal_slaughter"@) == Some(l.non_formula_fed_veal_slaughter@)
    &&& lookup(h, r, "market_swine_slaughter"@) == Some(l.market_swine_slaughter@)
    &&& lookup(h, r, "sow_slaughter"@) == Some(l.sow_slaughter@)
    &&& lookup(h, r, "roaster_swine_slaughter"@) == Some(l.roaster_swine_slaughter@)
    &&& lookup(h, r, "boar_stag_swine_slaughter"@) == Some(l.boar_stag_swine_slaughter@)
    &&& lookup(h, r, "stag_swine_slaughter"@) == Some(l.stag_swine_slaughter@)
    &&& lookup(h, r, "feral_swine_slaughter"@) == Some(l.feral_swine_slaughter@)
    &&& lookup(h, r, "goat_slaughter"@) == Some(l.goat_slaughter@)
    &&& lookup(h, r, "young_goat_slaughter"@) == Some(l.young_goat_slaughter@)
    &&& lookup(h, r, "adult_goat_slaughter"@) == Some(l.adult_goat_slaughter@)
    &&& lookup(h, r, "sheep_slaughter"@) == Some(l.sheep_slaughter@)
    &&& lookup(h, r, "lamb_slaughter"@) == Some(l.lamb_slaughter@)
    &&& lookup(h, r, "deer_reindeer_slaughter"@) == Some(l.deer_reindeer_slaughter@)
    &&& lookup(h, r, "antelope_slaughter"@) == Some(l.antelope_slaughter@)
    &&& lookup(h, r, "elk_slaughter"@) == Some(l.elk_slaughter@)
    &&& lookup(h, r, "bison_slaughter"@) == Some(l.bison_slaughter@)
    &&& lookup(h, r, "buffalo_slaughter"@) == Some(l.buffalo_slaughter@)
    &&& lookup(h, r, "water_buffalo_slaughter"@) == Some(l.water_buffalo_slaughter@)
    &&& lookup(h, r, "cattalo_slaughter"@) == Some(l.cattalo_slaughter@)
    &&& lookup(h, r, "yak_slaughter"@) == Some(l.yak_slaughter@)
    &&& lookup(h, r, "other_voluntary_livestock_slaughter"@) == Some(l.other_voluntary_livestock_slaughter@)
    &&& lookup(h, r, "rabbit_slaughter"@) == Some(l.rabbit_slaughter@)
    &&& lookup(h, r, "poultry_slaughter"@) == Some(l.poultry_slaughter@)
    &&& lookup(h, r, "young_chicken_slaughter"@) == Some(l.young_chicken_slaughter@)
    &&& lookup(h, r, "light_fowl_slaughter"@) == Some(l.light_fowl_slaughter@)
    &&& lookup(h, r, "heavy_fowl_slaughter"@) == Some(l.heavy_fowl_slaughter@)
    &&& lookup(h, r, "capon_slaughter"@) == Some(l.capon_slaughter@)
    &&& lookup(h, r, "young_turkey_slaughter"@) == Some(l.young_turkey_slaughter@)
    &&& lookup(h, r, "young_breeder_turkey_slaughter"@) == Some(l.young_breeder_turkey_slaughter@)
    &&& lookup(h, r, "old_breeder_turkey_slaughter"@) == Some(l.old_breeder_turkey_slaughter@)
    &&& lookup(h, r, "fryer_roaster_turkey_slaughter"@) == Some(l.fryer_roaster_turkey_slaughter@)
    &&& lookup(h, r, "duck_slaughter"@) == Some(l.duck_slaughter@)
    &&& lookup(h, r, "goose_slaughter"@) == Some(l.goose_slaughter@)
    &&& lookup(h, r, "pheasant_slaughter"@) == Some(l.pheasant_slaughter@)
    &&& lookup(h, r, "quail_slaughter"@) == Some(l.quail_slaughter@)
    &&& lookup(h, r, "guinea_slaughter"@) == Some(l.guinea_slaughter@)
    &&& lookup(h, r, "ostrich_slaughter"@) == Some(l.ostrich_slaughter@)
    &&& lookup(h, r, "emu_slaughter"@) == Some(l.emu_slaughter@)
    &&& lookup(h, r, "rhea_slaughter"@) == Some(l.rhea_slaughter@)
    &&& lookup(h, r, "squab_slaughter"@) == Some(l.squab_slaughter@)
    &&& lookup(h, r, "other_voluntary_poultry_slaughter"@) == Some(l.other_voluntary_poultry_slaughter@)
    &&& lookup(h, r, "slaughter_or_processing_only"@) == Some(l.slaughter_or_processing_only@)
    &&& lookup(h, r, "slaughter_only_class"@) == Some(l.slaughter_only_class@)
    &&& lookup(h, r, "slaughter_only_species"@) == Some(l.slaughter_only_species@)
    &&& lookup(h, r, "meat_slaughter_only_species"@) == Some(l.meat_slaughter_only_species@)
    &&& lookup(h, r, "poultry_slaughter_only_species"@) == Some(l.poultry_slaughter_only_species@)
    &&& lookup(h, r, "slaughter_volume_category"@) == Some(l.slaughter_volume_category@)
    &&& lookup(h, r, "processing_volume_category"@) == Some(l.processing_volume_category@)
    &&& lookup(h, r, "beef_processing"@) == Some(l.beef_processing@)
    &&& lookup(h, r, "pork_processing"@) == Some(l.pork_processing@)
    &&& lookup(h, r, "antelope_processing"@) == Some(l.antelope_processing@)
    &&& lookup(h, r, "bison_processing"@) == Some(l.bison_processing@)
    &&& lookup(h, r, "buffalo_processing"@) == Some(l.buffalo_processing@)
    &&& lookup(h, r, "deer_processing"@) == Some(l.deer_processing@)
    &&& lookup(h, r, "elk_processing"@) == Some(l.elk_processing@)
    &&& lookup(h, r, "goat_processing"@) == Some(l.goat_processing@)
    &&& lookup(h, r, "other_voluntary_livestock_processing"@) == Some(l.other_voluntary_livestock_processing@)
    &&& lookup(h, r, "rabbit_processing"@) == Some(l.rabbit_processing@)
    &&& lookup(h, r, "reindeer_processing"@) == Some(l.reindeer_processing@)
    &&& lookup(h, r, "sheep_processing"@) == Some(l.sheep_processing@)
    &&& lookup(h, r, "yak_processing"@) == Some(l.yak_processing@)
    &&& lookup(h, r, "chicken_processing"@) == Some(l.chicken_processing@)
    &&& lookup(h, r, "duck_processing"@) == Some(l.duck_processing@)
    &&& lookup(h, r, "goose_processing"@) == Some(l.goose_processing@)
    &&& lookup(h, r, "pigeon_processing"@) == Some(l.pigeon_processing@)
    &&& lookup(h, r, "ratite_processing"@) == Some(l.ratite_processing@)
    &&& lookup(h, r, "turkey_processing"@) == Some(l.turkey_processing@)
    &&& lookup(h, r, "exotic_poultry_processing"@) == Some(l.exotic_poultry_processing@)
    &&& lookup(h, r, "other_voluntary_poultry_processing"@) == Some(l.other_voluntary_poultry_processing@)
}

/// Builds a facility record from a decoded row under its header; fails
/// exactly when a declared column is missing from the header or the row.
#[verifier::rlimit(100)]
pub fn location_from_row(header: &Vec<String>, row: &Vec<String>) -> (res: Option<Location>)
    ensures
        (res is Some) <==> location_cols_present(header.deep_view(), row.deep_view()),
        res matches Some(l) ==> location_matches(l, header.deep_view(), row.deep_view()),
{
    let establishment_id = match get_field(header, row, "establishment_id") {
        Some(v) => v,
        None => { return None; },
    };
    let establishment_number = match get_field(header, row, "establishment_number") {
        Some(v) => v,
        None => { return None; },
    };
    let establishment_name = match get_field(header, row, "establishment_name") {
        Some(v) => v,
        None => { return None; },
    };
    let duns_number = match get_field(header, row, "duns_number") {
        Some(v) => v,
        None => { return None; },
    };
    let street = match get_field(header, row, "street") {
        Some(v) => v,
        None => { return None; },
    };
    let city = match get_field(header, row, "city") {
        Some(v) => v,
        None => { return None; },
    };
    let state = match get_field(header, row, "state") {
        Some(v) => v,
        None => { return None; },
    };
    let zip = match get_field(header, row, "zip") {
        Some(v) => v,
        None => { return None; },
    };
    let phone = match get_field(header, row, "phone") {
        Some(v) => v,
        None => { return None; },
    };
    let grant_date = match get_field(header, row, "grant_date") {
        Some(v) => v,
        None => { return None; },
    };
    let activities = match get_field(header, row, "type") {
        Some(v) => v,
        None => { return None; },
    };
    let dbas = match get_field(header, row, "dbas") {
        Some(v) => v,
        None => { return None; },
    };
    let district = match get_field(header, row, "district") {
        Some(v) => v,
        None => { return None; },
    };
    let circuit = match get_field(header, row, "circuit") {
        Some(v) => v,
        None => { return None; },
    };
    let size = match get_field(header, row, "size") {
        Some(v) => v,
        None => { return None; },
    };
    let latitude = match get_field(header, row, "latitude") {
        Some(v) => v,
        None => { return None; },
    };
    let longitude = match get_field(header, row, "longitude") {
        Some(v) => v,
        None => { return None; },
    };
    let county = match get_field(header, row, "county") {
        Some(v) => v,
        None => { return None; },
    };
    let fips_code = match get_field(header, row, "fips_code") {
        Some(v) => v,
        None => { return None; },
    };
    let meat_exemption_custom_slaughter = match get_field(header, row, "meat_exemption_custom_slaughter") {
        Some(v) => v,
        None => { return None; },
    };
    let poultry_exemption_custom_slaughter = match get_field(header, row, "poultry_exemption_custom_slaughter") {
        Some(v) => v,
        None => { return None; },
    };
    let slaughter = match get_field(header, row, "slaughter") {
        Some(v) => v,
        None => { return None; },
    };
    let meat_slaughter = match get_field(header, row, "meat_slaughter") {
        Some(v) => v,
        None => { return None; },
    };
    let beef_cow_slaughter = match get_field(header, row, "beef_cow_slaughter") {
        Some(v) => v,
        None => { return None; },
    };
    let steer_slaughter = match get_field(header, row, "steer_slaughter") {
        Some(v) => v,
        None => { return None; },
    };
    let heifer_slaughter = match get_field(header, row, "heifer_slaughter") {
        Some(v) => v,
        None => { return None; },
    };
    let bull_stag_slaughter = match get_field(header, row, "bull_stag_slaughter") {
        Some(v) => v,
        None => { return None; },
    };
    let dairy_cow_slaughter = match get_field(header, row, "dairy_cow_slaughter") {
        Some(v) => v,
        None => { return None; },
    };
    let heavy_calf_slaughter = match get_field(header, row, "heavy_calf_slaughter") {
        Some(v) => v,
        None => { return None; },
    };
    let bob_veal_slaughter = match get_field(header, row, "bob_veal_slaughter") {
        Some(v) => v,
        None => { return None; },
    };
    let formula_fed_veal_slaughter = match get_field(header, row, "formula_fed_veal_slaughter") {
        Some(v) => v,
        None => { return None; },
    };
    let non_formula_fed_veal_slaughter = match get_field(header, row, "non_formula_fed_veal_slaughter") {
        Some(v) => v,
        None => { return None; },
    };
    let market_swine_slaughter = match get_field(header, row, "market_swine_slaughter") {
        Some(v) => v,
        None => { return None; },
    };
    let sow_slaughter = match get_field(header, row, "sow_slaughter") {
        Some(v) => v,
        None => { return None; },
    };
    let roaster_swine_slaughter = match get_field(header, row, "roaster_swine_slaughter") {
        Some(v) => v,
        None => { return None; },
    };
    let boar_stag_swine_slaughter = match get_field(header, row, "boar_stag_swine_slaughter") {
        Some(v) => v,
        None => { return None; },
    };
    let stag_swine_slaughter = match get_field(header, row, "stag_swine_slaughter") {
        Some(v) => v,
        None => { return None; },
    };
    let feral_swine_slaughter = match get_field(header, row, "feral_swine_slaughter") {
        Some(v) => v,
        None => { return None; },
    };
    let goat_slaughter = match get_field(header, row, "goat_slaughter") {
        Some(v) => v,
        None => { return None; },
    };
    let young_goat_slaughter = match get_field(header, row, "young_goat_slaughter") {
        Some(v) => v,
        None => { return None; },
    };
    let adult_goat_slaughter = match get_field(header, row, "adult_goat_slaughter") {
        Some(v) => v,
        None => { return None; },
    };
    let sheep_slaughter = match get_field(header, row, "sheep_slaughter") {
        Some(v) => v,
        None => { return None; },
    };
    let lamb_slaughter = match get_field(header, row, "lamb_slaughter") {
        Some(v) => v,
        None => { return None; },
    };
    let deer_reindeer_slaughter = match get_field(header, row, "deer_reindeer_slaughter") {
        Some(v) => v,
        None => { return None; },
    };
    let antelope_slaughter = match get_field(header, row, "antelope_slaughter") {
        Some(v) => v,
        None => { return None; },
    };
    let elk_slaughter = match get_field(header, row, "elk_slaughter") {
        Some(v) => v,
        None => { return None; },
    };
    let bison_slaughter = match get_field(header, row, "bison_slaughter") {
        Some(v) => v,
        None => { return None; },
    };
    let buffalo_slaughter = match get_field(header, row, "buffalo_slaughter") {
        Some(v) => v,
        None => { return None; },
    };
    let water_buffalo_slaughter = match get_field(header, row, "water_buffalo_slaughter") {
        Some(v) => v,
        None => { return None; },
    };
    let cattalo_slaughter = match get_field(header, row, "cattalo_slaughter") {
        Some(v) => v,
        None => { return None; },
    };
    let yak_slaughter = match get_field(header, row, "yak_slaughter") {
        Some(v) => v,
        None => { return None; },
    };
    let other_voluntary_livestock_slaughter = match get_field(header, row, "other_voluntary_livestock_slaughter") {
        Some(v) => v,
        None => { return None; },
    };
    let rabbit_slaughter = match get_field(header, row, "rabbit_slaughter") {
        Some(v) => v,
        None => { return None; },
    };
    let poultry_slaughter = match get_field(header, row, "poultry_slaughter") {
        Some(v) => v,
        None => { return None; },
    };
    let young_chicken_slaughter = match get_field(header, row, "young_chicken_slaughter") {
        Some(v) => v,
        None => { return None; },
    };
    let light_fowl_slaughter = match get_field(header, row, "light_fowl_slaughter") {
        Some(v) => v,
        None => { return None; },
    };
    let heavy_fowl_slaughter = match get_field(header, row, "heavy_fowl_slaughter") {
        Some(v) => v,
        None => { return None; },
    };
    let capon_slaughter = match get_field(header, row, "capon_slaughter") {
        Some(v) => v,
        None => { return None; },
    };
    let young_turkey_slaughter = match get_field(header, row, "young_turkey_slaughter") {
        Some(v) => v,
        None => { return None; },
    };
    let young_breeder_turkey_slaughter = match get_field(header, row, "young_breeder_turkey_slaughter") {
        Some(v) => v,
        None => { return None; },
    };
    let old_breeder_turkey_slaughter = match get_field(header, row, "old_breeder_turkey_slaughter") {
        Some(v) => v,
        None => { return None; },
    };
    let fryer_roaster_turkey_slaughter = match get_field(header, row, "fryer_roaster_turkey_slaughter") {
        Some(v) => v,
        None => { return None; },
    };
    let duck_slaughter = match get_field(header, row, "duck_slaughter") {
        Some(v) => v,
        None => { return None; },
    };
    let goose_slaughter = match get_field(header, row, "goose_slaughter") {
        Some(v) => v,
        None => { return None; },
    };
    let pheasant_slaughter = match get_field(header, row, "pheasant_slaughter") {
        Some(v) => v,
        None => { return None; },
    };
    let quail_slaughter = match get_field(header, row, "quail_slaughter") {
        Some(v) => v,
        None => { return None; },
    };
    let guinea_slaughter = match get_field(header, row, "guinea_slaughter") {
        Some(v) => v,
        None => { return None; },
    };
    let ostrich_slaughter = match get_field(header, row, "ostrich_slaughter") {
        Some(v) => v,
        None => { return None; },
    };
    let emu_slaughter = match get_field(header, row, "emu_slaughter") {
        Some(v) => v,
        None => { return None; },
    };
    let rhea_slaughter = match get_field(header, row, "rhea_slaughter") {
        Some(v) => v,
        None => { return None; },
    };
    let squab_slaughter = match get_field(header, row, "squab_slaughter") {
        Some(v) => v,
        None => { return None; },
    };
    let other_voluntary_poultry_slaughter = match get_field(header, row, "other_voluntary_poultry_slaughter") {
        Some(v) => v,
        None => { return None; },
    };
    let slaughter_or_processing_only = match get_field(header, row, "slaughter_or_processing_only") {
        Some(v) => v,
        None => { return None; },
    };
    let slaughter_only_class = match get_field(header, row, "slaughter_only_class") {
        Some(v) => v,
        None => { return None; },
    };
    let slaughter_only_species = match get_field(header, row, "slaughter_only_species") {
        Some(v) => v,
        None => { return None; },
    };
    let meat_slaughter_only_species = match get_field(header, row, "meat_slaughter_only_species") {
        Some(v) => v,
        None => { return None; },
    };
    let poultry_slaughter_only_species = match get_field(header, row, "poultry_slaughter_only_species") {
        Some(v) => v,
        None => { return None; },
    };
    let slaughter_volume_category = match get_field(header, row, "slaughter_volume_category") {
        Some(v) => v,
        None => { return None; },
    };
    let processing_volume_category = match get_field(header, row, "processing_volume_category") {
        Some(v) => v,
        None => { return None; },
    };
    let beef_processing = match get_field(header, row, "beef_processing") {
        Some(v) => v,
        None => { return None; },
    };
    let pork_processing = match get_field(header, row, "pork_processing") {
        Some(v) => v,
        None => { return None; },
    };
    let antelope_processing = match get_field(header, row, "antelope_processing") {
        Some(v) => v,
        None => { return None; },
    };
    let bison_processing = match get_field(header, row, "bison_processing") {
        Some(v) => v,
        None => { return None; },
    };
    let buffalo_processing = match get_field(header, row, "buffalo_processing") {
        Some(v) => v,
        None => { return None; },
    };
    let deer_processing = match get_field(header, row, "deer_processing") {
        Some(v) => v,
        None => { return None; },
    };
    let elk_processing = match get_field(header, row, "elk_processing") {
        Some(v) => v,
        None => { return None; },
    };
    let goat_processing = match get_field(header, row, "goat_processing") {
        Some(v) => v,
        None => { return None; },
    };
    let other_voluntary_livestock_processing = match get_field(header, row, "other_voluntary_livestock_processing") {
        Some(v) => v,
        None => { return None; },
    };
    let rabbit_processing = match get_field(header, row, "rabbit_processing") {
        Some(v) => v,
        None => { return None; },
    };
    let reindeer_processing = match get_field(header, row, "reindeer_processing") {
        Some(v) => v,
        None => { return None; },
    };
    let sheep_processing = match get_field(header, row, "sheep_processing") {
        Some(v) => v,
        None => { return None; },
    };
    let yak_processing = match get_field(header, row, "yak_processing") {
        Some(v) => v,
        None => { return None; },
    };
    let chicken_processing = match get_field(header, row, "chicken_processing") {
        Some(v) => v,
        None => { return None; },
    };
    let duck_processing = match get_field(header, row, "duck_processing") {
        Some(v) => v,
        None => { return None; },
    };
    let goose_processing = match get_field(header, row, "goose_processing") {
        Some(v) => v,
        None => { return None; },
    };
    let pigeon_processing = match get_field(header, row, "pigeon_processing") {
        Some(v) => v,
        None => { return None; },
    };
    let ratite_processing = match get_field(header, row, "ratite_processing") {
        Some(v) => v,
        None => { return None; },
    };
    let turkey_processing = match get_field(header, row, "turkey_processing") {
        Some(v) => v,
        None => { return None; },
    };
    let exotic_poultry_processing = match get_field(header, row, "exotic_poultry_processing") {
        Some(v) => v,
        None => { return None; },
    };
    let other_voluntary_poultry_processing = match get_field(header, row, "other_voluntary_poultry_processing") {
        Some(v) => v,
        None => { return None; },
    };
    Some(Location {
        establishment_id,
        establishment_number,
        establishment_name,
        duns_number,
        street,
        city,
        state,
        zip,
        phone,
        grant_date,
        activities,
        dbas,
        district,
        circuit,
        size,
        latitude,
        longitude,
        county,
        fips_code,
        meat_exemption_custom_slaughter,
        poultry_exemption_custom_slaughter,
        slaughter,
        meat_slaughter,
        beef_cow_slaughter,
        steer_slaughter,
        heifer_slaughter,
        bull_stag_slaughter,
        dairy_cow_slaughter,
        heavy_calf_slaughter,
        bob_veal_slaughter,
        formula_fed_veal_slaughter,
        non_formula_fed_veal_slaughter,
        market_swine_slaughter,
        sow_slaughter,
        roaster_swine_slaughter,
        boar_stag_swine_slaughter,
        stag_swine_slaughter,
        feral_swine_slaughter,
        goat_slaughter,
        young_goat_slaughter,
        adult_goat_slaughter,
        sheep_slaughter,
        lamb_slaughter,
        deer_reindeer_slaughter,
        antelope_slaughter,
        elk_slaughter,
        bison_slaughter,
        buffalo_slaughter,
        water_buffalo_slaughter,
        cattalo_slaughter,
        yak_slaughter,
        other_voluntary_livestock_slaughter,
        rabbit_slaughter,
        poultry_slaughter,
        young_chicken_slaughter,
        light_fowl_slaughter,
        heavy_fowl_slaughter,
        capon_slaughter,
        young_turkey_slaughter,
        young_breeder_turkey_slaughter,
        old_breeder_turkey_slaughter,
        fryer_roaster_turkey_slaughter,
        duck_slaughter,
        goose_slaughter,
        pheasant_slaughter,
        quail_slaughter,
        guinea_slaughter,
        ostrich_slaughter,
        emu_slaughter,
        rhea_slaughter,
        squab_slaughter,
        other_voluntary_poultry_slaughter,
        slaughter_or_processing_only,
        slaughter_only_class,
        slaughter_only_species,
        meat_slaughter_only_species,
        poultry_slaughter_only_species,
        slaughter_volume_category,
        processing_volume_category,
        beef_processing,
        pork_processing,
        antelope_processing,
        bison_processing,
        buffalo_processing,
        deer_processing,
        elk_processing,
        goat_processing,
        other_voluntary_livestock_processing,
        rabbit_processing,
        reindeer_processing,
        sheep_processing,
        yak_processing,
        chicken_processing,
        duck_processing,
        goose_processing,
        pigeon_processing,
        ratite_processing,
        turkey_processing,
        exotic_poultry_processing,
        other_voluntary_poultry_processing,
    })
}

/// The published shape of a facility record: the identifying and
/// descriptive fields together with the two derived summaries.
#[derive(Debug)]
pub struct LocationResponse {
    pub establishment_id: String,
    pub establishment_name: String,
    pub latitude: String,
    pub longitude: String,
    pub activities: String,
    pub state: String,
    pub city: String,
    pub street: String,
    pub zip: String,
    pub slaughter: String,
    pub animals_slaughtered: String,
    pub animals_processed: String,
    pub slaughter_volume_category: String,
    pub processing_volume_category: String,
    pub dbas: String,
    pub phone: String,
    pub grant_date: String,
}

/// The response carries the record's own fields and its two derived
/// summaries.
pub open spec fn response_matches(resp: LocationResponse, l: Location) -> bool {
    &&& resp.establishment_id@ == l.establishment_id@
    &&& resp.establishment_name@ == l.establishment_name@
    &&& resp.latitude@ == l.latitude@
    &&& resp.longitude@ == l.longitude@
    &&& resp.activities@ == l.activities@
    &&& resp.state@ == l.state@
    &&& resp.city@ == l.city@
    &&& resp.street@ == l.street@
    &&& resp.zip@ == l.zip@
    &&& resp.slaughter@ == l.slaughter@
    &&& resp.animals_slaughtered@ == slaughtered_summary(l)
    &&& resp.animals_processed@ == processed_summary(l)
    &&& resp.slaughter_volume_category@ == l.slaughter_volume_category@
    &&& resp.processing_volume_category@ == l.processing_volume_category@
    &&& resp.dbas@ == l.dbas@
    &&& resp.phone@ == l.phone@
    &&& resp.grant_date@ == l.grant_date@
}

/// Decorates a facility record: derives the two summary strings and
/// repackages the published fields.
pub fn location_response(record: Location) -> (resp: LocationResponse)
    ensures
        response_matches(resp, record),
{
    let animals_slaughtered = get_slaughtered_animals(&record);
    let animals_processed = get_processed_animals(&record);
    LocationResponse {
        establishment_id: record.establishment_id,
        establishment_name: record.establishment_name,
        latitude: record.latitude,
        longitude: record.longitude,
        activities: record.activities,
        state: record.state,
        city: record.city,
        street: record.street,
        zip: record.zip,
        slaughter: record.slaughter,
        animals_slaughtered,
        animals_processed,
        slaughter_volume_category: record.slaughter_volume_category,
        processing_volume_category: record.processing_volume_category,
        dbas: record.dbas,
        phone: record.phone,
        grant_date: record.grant_date,
    }
}

} // verus!
