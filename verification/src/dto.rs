use vstd::prelude::*;

use crate::errors::FarmError;
use crate::rng::sample_range;
use crate::seeds::SeedType;
use crate::seeds::spec_kind_index;
use crate::seeds::spec_seed_kind;

verus! {

/// Growth stages in their fixed order, from `Seed` up to `Harvest`, plus the
/// absorbing terminal `Failed`. Once a unit reaches `Harvest` or `Failed` it
/// never transitions again.
#[derive(Clone, Copy, Debug, PartialEq, Eq, Structural)]
pub enum GrowthStage {
    Seed,
    Germination,
    Seedling,
    Vegetative,
    Flowering,
    Fruiting,
    Maturity,
    Harvest,
    Failed,
}

/// Outcome of a stage-transition evaluation: `Sync` advances to the next
/// stage in order, `Fail` moves the unit to `Failed`.
#[derive(Clone, Copy, Debug, PartialEq, Eq, Structural)]
pub enum GrowthEvent {
    Sync,
    Fail,
}

/// A stage from which no transition is defined.
pub open spec fn is_terminal_stage(stage: GrowthStage) -> bool {
    stage == GrowthStage::Harvest || stage == GrowthStage::Failed
}

/// The stage that follows `stage` in the fixed order when the transition
/// event is `Sync`; a `Fail` event always leads to `Failed`. Only defined
/// for non-terminal stages.
pub open spec fn spec_next_stage(stage: GrowthStage, event: GrowthEvent) -> GrowthStage {
    match event {
        GrowthEvent::Fail => GrowthStage::Failed,
        GrowthEvent::Sync => match stage {
            GrowthStage::Seed => GrowthStage::Germination,
            GrowthStage::Germination => GrowthStage::Seedling,
            GrowthStage::Seedling => GrowthStage::Vegetative,
            GrowthStage::Vegetative => GrowthStage::Flowering,
            GrowthStage::Flowering => GrowthStage::Fruiting,
            GrowthStage::Fruiting => GrowthStage::Maturity,
            GrowthStage::Maturity => GrowthStage::Harvest,
            GrowthStage::Harvest => GrowthStage::Harvest,
            GrowthStage::Failed => GrowthStage::Failed,
        },
    }
}

/// Required whole days a unit of the species at index `k` must spend in
/// `stage` before a transition may fire, the species order being sunflower,
/// pea, carrot, tomato, broccoli. Positive for every non-terminal stage;
/// `Failed` has no duration and yields the sentinel 0.
pub open spec fn spec_required_days_kind(k: int, stage: GrowthStage) -> u32 {
    match stage {
        GrowthStage::Seed => 3,
        GrowthStage::Germination => if k == 0 {
            7
        } else if k == 1 {
            7
        } else if k == 2 {
            10
        } else if k == 3 {
            7
        } else {
            5
        },
        GrowthStage::Seedling => if k == 0 {
            10
        } else if k == 1 {
            14
        } else if k == 2 {
            17
        } else if k == 3 {
            10
        } else {
            12
        },
        GrowthStage::Vegetative => if k == 0 {
            12
        } else if k == 1 {
            13
        } else if k == 2 {
            14
        } else if k == 3 {
            11
        } else {
            21
        },
        GrowthStage::Flowering => if k == 0 {
            8
        } else if k == 1 {
            11
        } else if k == 2 {
            20
        } else if k == 3 {
            7
        } else {
            16
        },
        GrowthStage::Fruiting => if k == 0 {
            10
        } else if k == 1 {
            7
        } else if k == 2 {
            9
        } else if k == 3 {
            5
        } else {
            7
        },
        GrowthStage::Maturity => 5,
        GrowthStage::Harvest => if k == 0 {
            3
        } else if k == 1 {
            3
        } else if k == 2 {
            5
        } else if k == 3 {
            1
        } else {
            3
        },
        GrowthStage::Failed => 0,
    }
}

/// The duration table keyed by a resolved seed type.
pub open spec fn spec_required_days(seed: SeedType, stage: GrowthStage) -> u32 {
    spec_required_days_kind(spec_kind_index(seed), stage)
}

/// The duration table as a total lookup: defined for every stage but
/// `Failed`, whose absence is a configuration error.
pub open spec fn spec_required_duration(seed: SeedType, stage: GrowthStage) -> Result<
    u32,
    FarmError,
> {
    if stage == GrowthStage::Failed {
        Err(FarmError::Configuration)
    } else {
        Ok(spec_required_days(seed, stage))
    }
}

/// Checked duration-table lookup: every combination except `Failed` has an
/// entry, and asking for `Failed` is a configuration error.
pub fn required_duration(seed: &SeedType, stage: &GrowthStage) -> (r: Result<u32, FarmError>)
    ensures
        r == spec_required_duration(*seed, *stage),
{
    if matches!(stage, GrowthStage::Failed) {
        Err(FarmError::Configuration)
    } else {
        Ok(stage.get_days(seed.clone()))
    }
}

/// The event encoded by a uniform draw from [0, 50]: a value divisible by 21
/// (0, 21 or 42) is a `Fail`, every other value a `Sync`.
pub open spec fn spec_event_of_draw(v: u32) -> GrowthEvent {
    if v % 21 == 0 {
        GrowthEvent::Fail
    } else {
        GrowthEvent::Sync
    }
}

impl GrowthEvent {
    /// Decodes a stochastic draw into a transition event.
    pub fn from_draw(v: u32) -> (r: GrowthEvent)
        ensures
            r == spec_event_of_draw(v),
    {
        if v % 21 == 0 {
            GrowthEvent::Fail
        } else {
            GrowthEvent::Sync
        }
    }
}

impl Default for GrowthStage {
    /// A freshly created unit starts at `Seed`.
    fn default() -> (r: Self)
        ensures
            r == GrowthStage::Seed,
    {
        GrowthStage::Seed
    }
}

impl GrowthStage {
    /// True on the two stages from which no transition is defined.
    pub fn is_terminal(&self) -> (r: bool)
        ensures
            r == is_terminal_stage(*self),
    {
        matches!(self, GrowthStage::Harvest | GrowthStage::Failed)
    }

    /// The lowercase display name of this stage.
    pub fn get_stage(&self) -> (r: String)
        ensures
            *self == GrowthStage::Seed ==> r@ == "seed"@,
            *self == GrowthStage::Germination ==> r@ == "germination"@,
            *self == GrowthStage::Seedling ==> r@ == "seedling"@,
            *self == GrowthStage::Vegetative ==> r@ == "vegetative"@,
            *self == GrowthStage::Flowering ==> r@ == "flowering"@,
            *self == GrowthStage::Fruiting ==> r@ == "fruiting"@,
            *self == GrowthStage::Maturity ==> r@ == "maturity"@,
            *self == GrowthStage::Harvest ==> r@ == "harvest"@,
            *self == GrowthStage::Failed ==> r@ == "failed"@,
    {
        match self {
            GrowthStage::Seed => String::from_str("seed"),
            GrowthStage::Germination => String::from_str("germination"),
            GrowthStage::Seedling => String::from_str("seedling"),
            GrowthStage::Vegetative => String::from_str("vegetative"),
            GrowthStage::Flowering => String::from_str("flowering"),
            GrowthStage::Fruiting => String::from_str("fruiting"),
            GrowthStage::Maturity => String::from_str("maturity"),
            GrowthStage::Harvest => String::from_str("harvest"),
            GrowthStage::Failed => String::from_str("failed"),
        }
    }

    /// Required days in `self` for a unit of species `seed_type`, per the
    /// fixed duration table; 0 for the undefined `Failed` entry.
    pub fn get_days(&self, seed_type: SeedType) -> (r: u32)
        ensures
            r == spec_required_days(seed_type, *self),
    {
        match self {
            GrowthStage::Seed => 3,
            GrowthStage::Germination => match seed_type {
                SeedType::Sunflower(..) => 7,
                SeedType::Pea(..) => 7,
                SeedType::Carrot(..) => 10,
                SeedType::Tomato(..) => 7,
                SeedType::Broccoli(..) => 5,
            },
            GrowthStage::Seedling => match seed_type {
                SeedType::Sunflower(..) => 10,
                SeedType::Pea(..) => 14,
                SeedType::Carrot(..) => 17,
                SeedType::Tomato(..) => 10,
                SeedType::Broccoli(..) => 12,
            },
            GrowthStage::Vegetative => match seed_type {
                SeedType::Sunflower(..) => 12,
                SeedType::Pea(..) => 13,
                SeedType::Carrot(..) => 14,
                SeedType::Tomato(..) => 11,
                SeedType::Broccoli(..) => 21,
            },
            GrowthStage::Flowering => match seed_type {
                SeedType::Sunflower(..) => 8,
                SeedType::Pea(..) => 11,
                SeedType::Carrot(..) => 20,
                SeedType::Tomato(..) => 7,
                SeedType::Broccoli(..) => 16,
            },
            GrowthStage::Fruiting => match seed_type {
                SeedType::Sunflower(..) => 10,
                SeedType::Pea(..) => 7,
                SeedType::Carrot(..) => 9,
                SeedType::Tomato(..) => 5,
                SeedType::Broccoli(..) => 7,
            },
            GrowthStage::Maturity => 5,
            GrowthStage::Harvest => match seed_type {
                SeedType::Sunflower(..) => 3,
                SeedType::Pea(..) => 3,
                SeedType::Carrot(..) => 5,
                SeedType::Tomato(..) => 1,
                SeedType::Broccoli(..) => 3,
            },
            GrowthStage::Failed => 0,
        }
    }

    /// The stage reached from a non-terminal `instance` on `event`.
    pub fn next(instance: &GrowthStage, event: &GrowthEvent) -> (r: GrowthStage)
        requires
            !is_terminal_stage(*instance),
        ensures
            r == spec_next_stage(*instance, *event),
    {
        match event {
            GrowthEvent::Fail => GrowthStage::Failed,
            GrowthEvent::Sync => match instance {
                GrowthStage::Seed => GrowthStage::Germination,
                GrowthStage::Germination => GrowthStage::Seedling,
                GrowthStage::Seedling => GrowthStage::Vegetative,
                GrowthStage::Vegetative => GrowthStage::Flowering,
                GrowthStage::Flowering => GrowthStage::Fruiting,
                GrowthStage::Fruiting => GrowthStage::Maturity,
                GrowthStage::Maturity => GrowthStage::Harvest,
                GrowthStage::Harvest => GrowthStage::Harvest,
                GrowthStage::Failed => GrowthStage::Failed,
            },
        }
    }
}

/// Every species has a positive required duration at every non-terminal
/// stage: the duration table is total over (species, non-terminal stage),
/// and the checked lookup succeeds there.
pub proof fn lemma_required_days_positive(seed: SeedType, stage: GrowthStage)
    requires
        !is_terminal_stage(stage),
    ensures
        spec_required_duration(seed, stage) == Ok::<u32, FarmError>(spec_required_days(seed, stage)),
        spec_required_days(seed, stage) > 0,
{
}

/// One plantable unit tracked by the simulation.
#[derive(Debug)]
pub struct Crop {
    pub botanica_name: String,
    pub verbose_name: String,
    pub species: String,
    pub is_harvestable: bool,
    pub is_sown: bool,
    pub is_gmo: bool,
    pub description: Option<String>,
    pub harvest_date: Option<String>,
    pub date_rot_detected: Option<String>,
    /// Fraction of an original unit, in hundredths: 100 is one whole unit.
    pub split_size: u32,
    pub days_in_stage: u32,
    pub current_stage: GrowthStage,
}

/// The species index the unit's verbose name resolves to.
pub open spec fn spec_crop_kind(c: Crop) -> Option<int> {
    spec_seed_kind(c.verbose_name@)
}

/// A well-formed unit names a species the simulation knows; this is
/// established when units are constructed from catalogue records, so stage
/// evaluation never meets an unresolved species.
pub open spec fn spec_crop_wf(c: Crop) -> bool {
    spec_crop_kind(c) is Some
}

/// A unit in a terminal stage: it never transitions again.
pub open spec fn spec_is_inactive(c: Crop) -> bool {
    is_terminal_stage(c.current_stage)
}

/// A harvestable unit whose harvest has been recorded.
pub open spec fn spec_is_harvested(c: Crop) -> bool {
    c.is_harvestable && c.harvest_date is Some
}

/// A unit that failed and whose failure has been recorded.
pub open spec fn spec_has_issues(c: Crop) -> bool {
    c.date_rot_detected is Some && c.current_stage == GrowthStage::Failed
}

/// The required days in the unit's current stage, for a well-formed unit.
pub open spec fn spec_crop_required_days(c: Crop) -> u32 {
    spec_required_days_kind(spec_crop_kind(c)->Some_0, c.current_stage)
}

/// A transition fires exactly when the unit is active and has spent exactly
/// the required number of days in its current stage.
pub open spec fn spec_transition_ready(c: Crop) -> bool {
    !spec_is_inactive(c) && c.days_in_stage == spec_crop_required_days(c)
}

/// One transition evaluation: when ready, the stage advances according to
/// the event and the day counter resets; otherwise the unit is unchanged.
pub open spec fn spec_evaluate_transition(c: Crop, event: GrowthEvent) -> Crop {
    if spec_transition_ready(c) {
        Crop {
            current_stage: spec_next_stage(c.current_stage, event),
            days_in_stage: 0,
            ..c
        }
    } else {
        c
    }
}

/// `round(h / n)` to the nearest integer with halves rounded up; applied to
/// split factors kept in hundredths, this is rounding the fraction `h/100/n`
/// to two decimal places.
pub open spec fn spec_split_share(h: int, n: int) -> int {
    (2 * h + n) / (2 * n)
}

impl Clone for Crop {
    /// Cloning keeps every field.
    fn clone(&self) -> (r: Self)
        ensures
            r == *self,
    {
        Crop {
            botanica_name: self.botanica_name.clone(),
            verbose_name: self.verbose_name.clone(),
            species: self.species.clone(),
            is_harvestable: self.is_harvestable,
            is_sown: self.is_sown,
            is_gmo: self.is_gmo,
            description: match &self.description {
                Some(d) => Some(d.clone()),
                None => None,
            },
            harvest_date: match &self.harvest_date {
                Some(d) => Some(d.clone()),
                None => None,
            },
            date_rot_detected: match &self.date_rot_detected {
                Some(d) => Some(d.clone()),
                None => None,
            },
            split_size: self.split_size,
            days_in_stage: self.days_in_stage,
            current_stage: self.current_stage,
        }
    }
}

impl Crop {
    /// A fresh unit: harvestable, not yet sown, no outcome recorded, a whole
    /// split share, zero days into the `Seed` stage.
    pub fn new(bot_name: String, verbose_name: String, species: String, description: Option<
        String,
    >) -> (r: Self)
        ensures
            r.botanica_name == bot_name,
            r.verbose_name == verbose_name,
            r.species == species,
            r.description == description,
            r.is_harvestable,
            !r.is_sown,
            !r.is_gmo,
            r.harvest_date is None,
            r.date_rot_detected is None,
            r.split_size == 100,
            r.days_in_stage == 0,
            r.current_stage == GrowthStage::Seed,
    {
        Self {
            botanica_name: bot_name,
            verbose_name: verbose_name,
            species: species,
            description: description,
            is_harvestable: true,
            is_sown: false,
            is_gmo: false,
            harvest_date: None,
            date_rot_detected: None,
            split_size: 100,
            days_in_stage: 0,
            current_stage: GrowthStage::Seed,
        }
    }

    /// Monotonic accumulation of days in the current stage; nothing else
    /// changes, and the counter resets only on an executed transition.
    pub fn grow(&mut self, days: u32)
        requires
            old(self).days_in_stage + days <= u32::MAX,
        ensures
            *final(self) == (Crop {
                days_in_stage: (old(self).days_in_stage + days) as u32,
                ..*old(self)
            }),
    {
        self.days_in_stage = self.days_in_stage + days;
    }

    /// Grows the unit by a randomly drawn number of days between 1 and 4.
    pub fn simulate_growth(&mut self)
        requires
            old(self).days_in_stage + 4 <= u32::MAX,
        ensures
            *final(self) == (Crop {
                days_in_stage: final(self).days_in_stage,
                ..*old(self)
            }),
            old(self).days_in_stage + 1 <= final(self).days_in_stage <= old(self).days_in_stage
                + 4,
    {
        let rand_days = sample_range(1, 5);
        self.grow(rand_days);
    }

    /// One transition evaluation, with the stochastic draw made explicit as
    /// `event`: fires only when the unit is active and its day counter
    /// equals the required duration exactly; an overshoot never transitions.
    pub fn advance_to_next_stage(&mut self, event: &GrowthEvent)
        requires
            spec_crop_wf(*old(self)),
        ensures
            *final(self) == spec_evaluate_transition(*old(self), *event),
    {
        let seed_type = match SeedType::from_str(self.verbose_name.as_str()) {
            Ok(seed) => seed,
            Err(_) => unreached(),
        };
        let max_growth_days = self.current_stage.get_days(seed_type);
        if self.days_in_stage == max_growth_days && !self.is_inactive() {
            let next_stage = GrowthStage::next(&self.current_stage, event);
            self.current_stage = next_stage;
            self.days_in_stage = 0;
        }
    }

    /// The species index of a well-formed unit's name.
    pub fn kind_index(&self) -> (r: usize)
        requires
            spec_crop_wf(*self),
        ensures
            r as int == spec_crop_kind(*self)->Some_0,
            r < 5,
    {
        let seed_type = match SeedType::from_str(self.verbose_name.as_str()) {
            Ok(seed) => seed,
            Err(_) => unreached(),
        };
        seed_type.kind_index()
    }

    /// True on the two terminal stages.
    pub fn is_inactive(&self) -> (r: bool)
        ensures
            r == spec_is_inactive(*self),
    {
        self.current_stage.is_terminal()
    }

    /// True once the unit is harvestable and its harvest has been recorded.
    pub fn is_harvested(&self) -> (r: bool)
        ensures
            r == spec_is_harvested(*self),
    {
        self.is_harvestable && self.harvest_date.is_some()
    }

    /// Splits the unit into `size` clones, each carrying the split share
    /// `round(split_size / size)`; the original's own share is set to the
    /// same rounded value.
    pub fn split(instance: &mut Crop, size: u32) -> (splits: Vec<Crop>)
        requires
            size >= 1,
        ensures
            splits@.len() == size as int,
            forall|i: int|
                0 <= i < size as int ==> splits@[i] == (Crop {
                    split_size: spec_split_share(
                        old(instance).split_size as int,
                        size as int,
                    ) as u32,
                    ..*old(instance)
                }),
            *final(instance) == (Crop {
                split_size: spec_split_share(old(instance).split_size as int, size as int) as u32,
                ..*old(instance)
            }),
    {
        let ghost h = instance.split_size as int;
        let ghost n = size as int;
        let numerator: u64 = 2 * (instance.split_size as u64) + (size as u64);
        let denominator: u64 = 2 * (size as u64);
        let share64: u64 = numerator / denominator;
        assert((2 * h + n) / (2 * n) <= h) by (nonlinear_arith)
            requires
                h >= 0,
                n >= 1,
        ;
        let new_size: u32 = share64 as u32;
        let mut splits: Vec<Crop> = Vec::new();
        let mut produced: u32 = 0;
        while produced < size
            invariant
                produced <= size,
                splits@.len() == produced as int,
                *instance == *old(instance),
                new_size as int == spec_split_share(old(instance).split_size as int, size as int),
                forall|i: int|
                    0 <= i < produced as int ==> splits@[i] == (Crop {
                        split_size: new_size,
                        ..*old(instance)
                    }),
            decreases size - produced,
        {
            let mut cloned_crop = instance.clone();
            cloned_crop.split_size = new_size;
            splits.push(cloned_crop);
            produced = produced + 1;
        }
        instance.split_size = new_size;
        splits
    }

    /// Marks planting as initiated; the stage is unaffected.
    pub fn sow(&mut self)
        ensures
            *final(self) == (Crop { is_sown: true, ..*old(self) }),
    {
        self.is_sown = true;
    }

    /// True once the unit sits at `Failed` with its failure recorded.
    pub fn has_issues(&self) -> (r: bool)
        ensures
            r == spec_has_issues(*self),
    {
        self.date_rot_detected.is_some()
            && matches!(self.current_stage, GrowthStage::Failed)
    }
}


/// Transition evaluation is idempotent on a terminal unit: a unit at
/// `Harvest` or `Failed` is left exactly as it is by any evaluation, and by
/// any further one, whatever events are drawn.
pub proof fn lemma_evaluate_terminal_idempotent(c: Crop, e1: GrowthEvent, e2: GrowthEvent)
    requires
        spec_is_inactive(c),
    ensures
        spec_evaluate_transition(c, e1) == c,
        spec_evaluate_transition(spec_evaluate_transition(c, e1), e2) == c,
{
}

/// How many units of a sequence satisfy `f`.
pub open spec fn count_matching(s: Seq<Crop>, f: spec_fn(Crop) -> bool) -> int
    decreases s.len(),
{
    if s.len() == 0 {
        0
    } else {
        count_matching(s.drop_last(), f) + if f(s.last()) {
            1int
        } else {
            0int
        }
    }
}

/// A count never exceeds the sequence's length.
pub proof fn lemma_count_bounds(s: Seq<Crop>, f: spec_fn(Crop) -> bool)
    ensures
        0 <= count_matching(s, f) <= s.len(),
    decreases s.len(),
{
    if s.len() > 0 {
        lemma_count_bounds(s.drop_last(), f);
    }
}

/// When one unit does not satisfy `f`, the count stays below the length.
pub proof fn lemma_count_unmatched(s: Seq<Crop>, i: int, f: spec_fn(Crop) -> bool)
    requires
        0 <= i < s.len(),
        !f(s[i]),
    ensures
        count_matching(s, f) <= s.len() - 1,
    decreases s.len(),
{
    lemma_count_bounds(s.drop_last(), f);
    if i < s.len() - 1 {
        lemma_count_unmatched(s.drop_last(), i, f);
    }
}

/// How the count changes when one unit is replaced.
pub proof fn lemma_count_update(s: Seq<Crop>, i: int, c: Crop, f: spec_fn(Crop) -> bool)
    requires
        0 <= i < s.len(),
    ensures
        count_matching(s.update(i, c), f) == count_matching(s, f) - (if f(s[i]) {
            1int
        } else {
            0int
        }) + (if f(c) {
            1int
        } else {
            0int
        }),
    decreases s.len(),
{
    let t = s.update(i, c);
    if i == s.len() - 1 {
        assert(t.drop_last() =~= s.drop_last());
        assert(t.last() == c);
    } else {
        assert(t.drop_last() =~= s.drop_last().update(i, c));
        assert(t.last() == s.last());
        lemma_count_update(s.drop_last(), i, c, f);
    }
}

/// Nothing is counted in a sequence where nothing matches.
pub proof fn lemma_count_zero(s: Seq<Crop>, f: spec_fn(Crop) -> bool)
    requires
        forall|i: int| 0 <= i < s.len() ==> !f(#[trigger] s[i]),
    ensures
        count_matching(s, f) == 0,
    decreases s.len(),
{
    if s.len() > 0 {
        lemma_count_zero(s.drop_last(), f);
    }
}

/// A postal address.
#[derive(Debug)]
pub struct Address {
    pub house_number: u32,
    pub post_code: String,
    pub street: String,
    pub city: String,
    pub country: String,
}

/// Where the farm stands; coordinates, when known, are kept in microdegrees
/// so that positions stay plain integers.
#[derive(Debug)]
pub struct Location {
    pub address: Address,
    pub is_virtual: bool,
    pub longitude: Option<i64>,
    pub latitude: Option<i64>,
}

/// The farm's rectangular dimensions.
#[derive(Debug)]
pub struct FarmSize {
    pub width: u32,
    pub length: u32,
}

/// The farm owner's contact record.
#[derive(Debug)]
pub struct UserInfo {
    pub first_name: String,
    pub last_name: String,
    pub email: String,
    pub phone: Option<String>,
    pub address: Option<Address>,
    pub website_url: Option<String>,
}

/// The static farm configuration together with its unit collection.
#[derive(Debug)]
pub struct Farm {
    pub crops: Vec<Crop>,
    pub location: Location,
    pub size: FarmSize,
    pub owner: UserInfo,
    pub security_code: String,
    pub is_active: bool,
    pub is_trackable: Option<bool>,
    pub is_plant_ready: Option<bool>,
    pub is_ready_for_harvest: Option<bool>,
}

impl FarmSize {
    /// A size with the given dimensions.
    pub fn new(width: u32, length: u32) -> (r: FarmSize)
        ensures
            r.width == width,
            r.length == length,
    {
        FarmSize { width, length }
    }
}

} // verus!
