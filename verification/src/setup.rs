use vstd::prelude::*;

use crate::crop_parser::spec_csv_decodes;
use crate::crop_parser::spec_csv_rows;
use crate::dto::Address;
use crate::dto::Crop;
use crate::dto::Farm;
use crate::dto::FarmSize;
use crate::dto::GrowthStage;
use crate::dto::Location;
use crate::dto::UserInfo;
use crate::errors::FarmError;
use crate::seeds::SeedBag;
use crate::seeds::spec_bags_match_rows;
use crate::seeds::spec_botanica_name;
use crate::seeds::spec_loader_status;
use crate::seeds::spec_verbose_name;

verus! {

/// The fixed demonstration location the farm is set up with.
pub open spec fn spec_default_location(l: Location) -> bool {
    &&& l.address.house_number == 1
    &&& l.address.post_code@ == "E1 8RU"@
    &&& l.address.street@ == "Some street"@
    &&& l.address.city@ == "London"@
    &&& l.address.country@ == "England"@
    &&& !l.is_virtual
    &&& l.longitude is None
    &&& l.latitude is None
}

/// The fixed demonstration owner the farm is set up with.
pub open spec fn spec_default_owner(u: UserInfo) -> bool {
    &&& u.first_name@ == "John"@
    &&& u.last_name@ == "Doe"@
    &&& u.email@ == "Xq9u7@example.com"@
    &&& u.phone is None
    &&& u.address is None
    &&& u.website_url is None
}

/// How many units the first `n` bags plant: the sum of their quantities.
pub open spec fn spec_units_total(bags: Seq<SeedBag>, n: int) -> int
    decreases n,
{
    if n <= 0 {
        0
    } else {
        spec_units_total(bags, n - 1) + bags[n - 1].quantity
    }
}

/// A unit freshly cloned from the template of one bag.
pub open spec fn spec_crop_matches_bag(crop: Crop, bag: SeedBag) -> bool {
    &&& crop.botanica_name@ == spec_botanica_name(bag.seed_type)
    &&& crop.verbose_name@ == spec_verbose_name(bag.seed_type)
    &&& crop.species == bag.species
    &&& crop.description == bag.description
    &&& bag.is_gmo == Some(crop.is_gmo)
    &&& crop.is_harvestable
    &&& !crop.is_sown
    &&& crop.harvest_date is None
    &&& crop.date_rot_detected is None
    &&& crop.split_size == 100
    &&& crop.days_in_stage == 0
    &&& crop.current_stage == GrowthStage::Seed
}

/// One unit per seed of every bag, bag by bag and in order.
pub open spec fn spec_crops_match_bags(crops: Seq<Crop>, bags: Seq<SeedBag>) -> bool {
    &&& crops.len() == spec_units_total(bags, bags.len() as int)
    &&& forall|j: int, k: int|
        0 <= j < bags.len() && 0 <= k < bags[j].quantity ==> spec_crop_matches_bag(
            #[trigger] crops[spec_units_total(bags, j) + k],
            bags[j],
        )
}


/// Unit totals grow with the bag prefix.
pub proof fn lemma_units_total_mono(bags: Seq<SeedBag>, a: int, b: int)
    requires
        a <= b,
    ensures
        spec_units_total(bags, a) <= spec_units_total(bags, b),
    decreases b - a,
{
    if a < b {
        lemma_units_total_mono(bags, a, b - 1);
    }
}

fn get_location() -> (r: Location)
    ensures
        spec_default_location(r),
{
    let address = Address {
        house_number: 1,
        post_code: String::from_str("E1 8RU"),
        street: String::from_str("Some street"),
        city: String::from_str("London"),
        country: String::from_str("England"),
    };
    Location { address: address, is_virtual: false, longitude: None, latitude: None }
}

fn get_user_info() -> (r: UserInfo)
    ensures
        spec_default_owner(r),
{
    UserInfo {
        first_name: String::from_str("John"),
        last_name: String::from_str("Doe"),
        email: String::from_str("Xq9u7@example.com"),
        phone: None,
        address: None,
        website_url: None,
    }
}

/// Tears every bag into its units: each bag plants one unit per seed, all
/// cloned from a template built from the bag's record.
pub fn load_crops_from_bags(bags: &Vec<SeedBag>) -> (crops: Vec<Crop>)
    requires
        forall|j: int| 0 <= j < bags@.len() ==> (#[trigger] bags@[j].is_gmo) is Some,
    ensures
        spec_crops_match_bags(crops@, bags@),
{
    let mut crops: Vec<Crop> = Vec::new();
    let n = bags.len();
    let mut j: usize = 0;
    while j < n
        invariant
            j <= n,
            n == bags@.len(),
            forall|i: int| 0 <= i < bags@.len() ==> (#[trigger] bags@[i].is_gmo) is Some,
            crops@.len() == spec_units_total(bags@, j as int),
            forall|j2: int, k: int|
                0 <= j2 < j && 0 <= k < bags@[j2].quantity ==> spec_crop_matches_bag(
                    #[trigger] crops@[spec_units_total(bags@, j2) + k],
                    bags@[j2],
                ),
        decreases n - j,
    {
        let bag = &bags[j];
        let mut template = Crop::new(
            bag.seed_type.get_botanica_name(),
            bag.seed_type.get_verbose_name(),
            bag.species.clone(),
            match &bag.description {
                Some(d) => Some(d.clone()),
                None => None,
            },
        );
        template.is_gmo = match &bag.is_gmo {
            Some(g) => *g,
            None => unreached(),
        };
        let quantity = bag.quantity;
        let mut k: u32 = 0;
        while k < quantity
            invariant
                k <= quantity,
                quantity == bags@[j as int].quantity,
                j < n,
                n == bags@.len(),
                spec_crop_matches_bag(template, bags@[j as int]),
                crops@.len() == spec_units_total(bags@, j as int) + k,
                forall|j2: int, k2: int|
                    0 <= j2 < j && 0 <= k2 < bags@[j2].quantity ==> spec_crop_matches_bag(
                        #[trigger] crops@[spec_units_total(bags@, j2) + k2],
                        bags@[j2],
                    ),
                forall|k2: int|
                    0 <= k2 < k ==> spec_crop_matches_bag(
                        #[trigger] crops@[spec_units_total(bags@, j as int) + k2],
                        bags@[j as int],
                    ),
            decreases quantity - k,
        {
            let ghost before = crops@;
            crops.push(template.clone());
            proof {
                let jt = spec_units_total(bags@, j as int);
                assert forall|j2: int, k2: int|
                    0 <= j2 < j && 0 <= k2 < bags@[j2].quantity implies spec_crop_matches_bag(
                    #[trigger] crops@[spec_units_total(bags@, j2) + k2],
                    bags@[j2],
                ) by {
                    lemma_units_total_mono(bags@, 0, j2);
                    lemma_units_total_mono(bags@, j2 + 1, j as int);
                    assert(spec_units_total(bags@, j2 + 1) == spec_units_total(bags@, j2)
                        + bags@[j2].quantity);
                    let idx = spec_units_total(bags@, j2) + k2;
                    assert(0 <= idx < before.len());
                    assert(crops@[idx] == before[idx]);
                };
                lemma_units_total_mono(bags@, 0, j as int);
                assert forall|k2: int| 0 <= k2 < k + 1 implies spec_crop_matches_bag(
                    #[trigger] crops@[jt + k2],
                    bags@[j as int],
                ) by {
                    if k2 < k {
                        assert(crops@[jt + k2] == before[jt + k2]);
                    } else {
                        assert(crops@[jt + k2] == template);
                    }
                };
            }
            k = k + 1;
        }
        j = j + 1;
    }
    crops
}

/// Builds the farm: loads the catalogue bags, plants one unit per seed, and
/// wraps them in the fixed demonstration configuration.
pub fn setup_farm(data: &[u8]) -> (r: Result<Farm, FarmError>)
    ensures
        match r {
            Ok(farm) => {
                &&& spec_csv_decodes(data@)
                &&& spec_loader_status(spec_csv_rows(data@)) == Ok::<(), FarmError>(())
                &&& (exists|bags: Seq<SeedBag>|
                    #[trigger] spec_bags_match_rows(bags, spec_csv_rows(data@))
                        && spec_crops_match_bags(farm.crops@, bags))
                &&& spec_default_location(farm.location)
                &&& spec_default_owner(farm.owner)
                &&& farm.size.width == 10
                &&& farm.size.length == 10
                &&& farm.security_code@ == "Zsx12-00-RSA"@
                &&& farm.is_active
                &&& farm.is_trackable is None
                &&& farm.is_plant_ready is None
                &&& farm.is_ready_for_harvest == Some(false)
            },
            Err(e) => (!spec_csv_decodes(data@) && e == FarmError::CatalogLoad)
                || spec_loader_status(spec_csv_rows(data@)) == Err::<(), FarmError>(e),
        },
        (spec_csv_decodes(data@) && spec_loader_status(spec_csv_rows(data@)) == Ok::<
            (),
            FarmError,
        >(())) ==> r is Ok,
{
    let bags = match SeedBag::tear_bags(data) {
        Ok(bags) => bags,
        Err(e) => {
            return Err(e);
        },
    };
    let crops = load_crops_from_bags(&bags);
    let location = get_location();
    let size = FarmSize { width: 10, length: 10 };
    let owner = get_user_info();
    Ok(
        Farm {
            crops,
            location: location,
            size: size,
            owner: owner,
            security_code: String::from_str("Zsx12-00-RSA"),
            is_active: true,
            is_trackable: None,
            is_plant_ready: None,
            is_ready_for_harvest: Some(false),
        },
    )
}

} // verus!
