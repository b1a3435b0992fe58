use vstd::prelude::*;

use crate::clock::utc_now_string;
use crate::dto::Crop;
use crate::dto::Farm;
use crate::dto::GrowthEvent;
use crate::dto::GrowthStage;
use crate::dto::count_matching;
use crate::dto::is_terminal_stage;
use crate::dto::lemma_count_bounds;
use crate::dto::lemma_count_unmatched;
use crate::dto::lemma_count_update;
use crate::dto::lemma_count_zero;
use crate::dto::spec_crop_kind;
use crate::dto::spec_crop_wf;
use crate::dto::spec_evaluate_transition;
use crate::dto::spec_next_stage;
use crate::dto::spec_required_days_kind;
use crate::dto::spec_transition_ready;
use crate::dto::spec_crop_required_days;
use crate::dto::spec_has_issues;
use crate::dto::spec_is_inactive;
use crate::dto::spec_is_harvested;
use crate::rng::sample_range;
use crate::seeds::SeedType;
use crate::seeds::species_count;
use crate::weather_service::WeatherCondition;
use crate::weather_service::spec_should_irrigate;

verus! {

/// Days between weeding passes.
pub const WEEDING_FARM_FREQUENCY: u32 = 7;

/// Days between irrigation passes once the farm runs.
pub const IRRIGATION_FREQUENCY: u32 = 3;

/// Days between fertilizer applications.
pub const FERTILIZING_FREQUENCY: u32 = 14;

/// The day planting happens.
pub const DAYS_TO_WAIT_BEFORE_PLANTING: u32 = 7;

/// The one day the seedlings are fumigated.
pub const FUMIGATION_TIME: u32 = 14;

/// Days from planting to the first harvest pass.
pub const PLANTING_WINDOW: u32 = 70;

/// The longest stage plan any species has, plus the tick that records the
/// outcome: an upper bound on the ticks one unit takes to resolve.
pub const WORST_STAGE_PLAN: u32 = 79;

/// A source of the simulation's stochastic draws: the transition event of
/// one unit evaluation, and the day's weather. The scheduler is verified for
/// every outcome an implementation may return.
pub trait GrowthOracle {
    /// The next transition event.
    fn next_event(&mut self) -> GrowthEvent;

    /// The next sampled weather condition.
    fn next_weather(&mut self) -> WeatherCondition;
}

/// The default stochastic model: uniform draws from the process rng, with a
/// transition draw from [0, 50] and a weather draw from [0, 4].
pub struct RandomOracle {}

impl GrowthOracle for RandomOracle {
    fn next_event(&mut self) -> GrowthEvent {
        let draw = sample_range(0, 51);
        GrowthEvent::from_draw(draw)
    }

    fn next_weather(&mut self) -> WeatherCondition {
        WeatherCondition::generate_random_weather_condition()
    }
}

/// A deterministic oracle replaying fixed scripts; it falls back to `Sync`
/// and `Sunny` once a script runs out.
pub struct ScriptedOracle {
    pub events: Vec<GrowthEvent>,
    pub weather: Vec<WeatherCondition>,
    pub next_event_at: usize,
    pub next_weather_at: usize,
}

impl ScriptedOracle {
    /// An oracle that replays the two scripts from their start.
    pub fn new(events: Vec<GrowthEvent>, weather: Vec<WeatherCondition>) -> (r: Self)
        ensures
            r.events == events,
            r.weather == weather,
            r.next_event_at == 0,
            r.next_weather_at == 0,
    {
        ScriptedOracle { events, weather, next_event_at: 0, next_weather_at: 0 }
    }
}

impl GrowthOracle for ScriptedOracle {
    fn next_event(&mut self) -> GrowthEvent {
        if self.next_event_at < self.events.len() {
            let e = self.events[self.next_event_at];
            self.next_event_at = self.next_event_at + 1;
            e
        } else {
            GrowthEvent::Sync
        }
    }

    fn next_weather(&mut self) -> WeatherCondition {
        if self.next_weather_at < self.weather.len() {
            let w = self.weather[self.next_weather_at];
            self.next_weather_at = self.next_weather_at + 1;
            w
        } else {
            WeatherCondition::Sunny
        }
    }
}

/// The maintenance actions one simulated day calls for, before the units
/// themselves are processed.
#[derive(Clone, Copy, Debug, PartialEq, Eq, Structural)]
pub struct MaintenancePlan {
    pub plant: bool,
    pub weed: bool,
    pub fertilize: bool,
    pub irrigate: bool,
    pub fumigate: bool,
}

/// The fixed maintenance timetable: planting on its waiting day, weeding
/// weekly, fertilizing fortnightly before day 40, irrigation on the first
/// day and then every third day, fumigation once.
pub open spec fn spec_maintenance_plan(day: u32) -> MaintenancePlan {
    MaintenancePlan {
        plant: day == DAYS_TO_WAIT_BEFORE_PLANTING,
        weed: day % WEEDING_FARM_FREQUENCY == 0,
        fertilize: day < 40 && day % FERTILIZING_FREQUENCY == 0,
        irrigate: day == 1 || day % IRRIGATION_FREQUENCY == 0,
        fumigate: day == FUMIGATION_TIME,
    }
}

/// What maintenance the given day calls for.
pub fn maintenance_plan(day: u32) -> (r: MaintenancePlan)
    ensures
        r == spec_maintenance_plan(day),
{
    MaintenancePlan {
        plant: day == DAYS_TO_WAIT_BEFORE_PLANTING,
        weed: day % WEEDING_FARM_FREQUENCY == 0,
        fertilize: day < 40 && day % FERTILIZING_FREQUENCY == 0,
        irrigate: day == 1 || day % IRRIGATION_FREQUENCY == 0,
        fumigate: day == FUMIGATION_TIME,
    }
}

/// Aggregate outcome counters for one species.
#[derive(Clone, Copy, Debug, PartialEq, Eq, Structural)]
pub struct SpeciesStats {
    pub harvested: u32,
    pub rotten: u32,
}

/// The aggregate outcome counters: totals and a per-species breakdown,
/// indexed by the fixed species list. Owned by the scheduler alone, so no
/// locking discipline is needed.
#[derive(Debug)]
pub struct HarvestStats {
    pub num_harvested: u32,
    pub num_rotten: u32,
    pub per_species: Vec<SpeciesStats>,
}


impl HarvestStats {
    /// Counts one newly recorded harvest of species `k`.
    fn record_harvest(&mut self, k: usize)
        requires
            k < old(self).per_species@.len(),
            old(self).num_harvested < u32::MAX,
            old(self).per_species@[k as int].harvested < u32::MAX,
        ensures
            final(self).num_harvested == old(self).num_harvested + 1,
            final(self).num_rotten == old(self).num_rotten,
            final(self).per_species@ == old(self).per_species@.update(
                k as int,
                (SpeciesStats {
                    harvested: (old(self).per_species@[k as int].harvested + 1) as u32,
                    rotten: old(self).per_species@[k as int].rotten,
                }),
            ),
    {
        self.num_harvested = self.num_harvested + 1;
        let entry = self.per_species[k];
        self.per_species[k] = SpeciesStats { harvested: entry.harvested + 1, rotten: entry.rotten };
    }

    /// Counts one newly recorded failure of species `k`.
    fn record_rot(&mut self, k: usize)
        requires
            k < old(self).per_species@.len(),
            old(self).num_rotten < u32::MAX,
            old(self).per_species@[k as int].rotten < u32::MAX,
        ensures
            final(self).num_rotten == old(self).num_rotten + 1,
            final(self).num_harvested == old(self).num_harvested,
            final(self).per_species@ == old(self).per_species@.update(
                k as int,
                (SpeciesStats {
                    harvested: old(self).per_species@[k as int].harvested,
                    rotten: (old(self).per_species@[k as int].rotten + 1) as u32,
                }),
            ),
    {
        self.num_rotten = self.num_rotten + 1;
        let entry = self.per_species[k];
        self.per_species[k] = SpeciesStats { harvested: entry.harvested, rotten: entry.rotten + 1 };
    }
}

/// The recorded-harvest predicate on units.
pub open spec fn pred_harvested() -> spec_fn(Crop) -> bool {
    |c: Crop| spec_is_harvested(c)
}

/// The recorded-failure predicate on units.
pub open spec fn pred_rotten() -> spec_fn(Crop) -> bool {
    |c: Crop| spec_has_issues(c)
}

/// The recorded-harvest predicate restricted to species `k`.
pub open spec fn pred_harvested_kind(k: int) -> spec_fn(Crop) -> bool {
    |c: Crop| spec_is_harvested(c) && spec_crop_kind(c) == Some(k)
}

/// The recorded-failure predicate restricted to species `k`.
pub open spec fn pred_rotten_kind(k: int) -> spec_fn(Crop) -> bool {
    |c: Crop| spec_has_issues(c) && spec_crop_kind(c) == Some(k)
}

/// A recorded outcome sits at its terminal stage: a harvest date only at
/// `Harvest`, a failure date only at `Failed`.
pub open spec fn crop_outcome_ok(c: Crop) -> bool {
    &&& (c.harvest_date is Some ==> c.current_stage == GrowthStage::Harvest)
    &&& (c.date_rot_detected is Some ==> c.current_stage == GrowthStage::Failed)
}

/// The two outcome dates of a consistent unit are mutually exclusive: it
/// cannot carry both a harvest date and a failure date.
pub proof fn lemma_outcomes_exclusive(c: Crop)
    requires
        crop_outcome_ok(c),
    ensures
        !(c.harvest_date is Some && c.date_rot_detected is Some),
{
}

/// The stats agree with the unit collection: the totals and every
/// per-species entry count exactly the recorded outcomes.
pub open spec fn stats_ok(stats: HarvestStats, crops: Seq<Crop>) -> bool {
    &&& stats.per_species@.len() == species_count()
    &&& stats.num_harvested == count_matching(crops, pred_harvested())
    &&& stats.num_rotten == count_matching(crops, pred_rotten())
    &&& forall|k: int|
        0 <= k < species_count() ==> (#[trigger] stats.per_species@[k]).harvested == count_matching(
            crops,
            pred_harvested_kind(k),
        )
    &&& forall|k: int|
        0 <= k < species_count() ==> (#[trigger] stats.per_species@[k]).rotten == count_matching(
            crops,
            pred_rotten_kind(k),
        )
}

/// What any number of ticks may do to one unit: its identity fields never
/// change, a recorded outcome is never overwritten, a terminal stage is
/// absorbing, and a unit withheld from harvesting is untouched.
pub open spec fn crop_evolution_ok(before: Crop, after: Crop) -> bool {
    &&& after.botanica_name == before.botanica_name
    &&& after.verbose_name == before.verbose_name
    &&& after.species == before.species
    &&& after.description == before.description
    &&& after.is_gmo == before.is_gmo
    &&& after.is_harvestable == before.is_harvestable
    &&& after.split_size == before.split_size
    &&& (before.harvest_date is Some ==> after.harvest_date == before.harvest_date)
    &&& (before.date_rot_detected is Some ==> after.date_rot_detected == before.date_rot_detected)
    &&& (is_terminal_stage(before.current_stage) ==> after.current_stage == before.current_stage)
    &&& (!before.is_harvestable ==> after == before)
}

/// Exactly how one tick, with the drawn event `e`, changes one unit: a unit
/// withheld from harvesting is untouched; any other grows one day, is sown
/// when still at `Seed`, and is evaluated for a transition; one seen at a
/// terminal stage gets its outcome recorded once, with a fresh nonempty
/// timestamp.
pub open spec fn crop_step_matches(before: Crop, after: Crop, e: GrowthEvent) -> bool {
    if !before.is_harvestable {
        after == before
    } else {
        let grown = Crop { days_in_stage: (before.days_in_stage + 1) as u32, ..before };
        if grown.current_stage == GrowthStage::Seed {
            after == spec_evaluate_transition(Crop { is_sown: true, ..grown }, e)
        } else if !is_terminal_stage(grown.current_stage) {
            after == spec_evaluate_transition(grown, e)
        } else if grown.current_stage == GrowthStage::Harvest {
            if spec_is_harvested(grown) {
                after == grown
            } else {
                exists|ts: String|
                    ts@.len() > 0 && after == (Crop { harvest_date: Some(ts), ..grown })
            }
        } else {
            if spec_has_issues(grown) {
                after == grown
            } else {
                exists|ts: String|
                    ts@.len() > 0 && after == (Crop { date_rot_detected: Some(ts), ..grown })
            }
        }
    }
}


/// Position of a stage in the growth order; the two terminal stages sit at
/// the end.
pub open spec fn spec_stage_rank(stage: GrowthStage) -> int {
    match stage {
        GrowthStage::Seed => 0,
        GrowthStage::Germination => 1,
        GrowthStage::Seedling => 2,
        GrowthStage::Vegetative => 3,
        GrowthStage::Flowering => 4,
        GrowthStage::Fruiting => 5,
        GrowthStage::Maturity => 6,
        GrowthStage::Harvest => 7,
        GrowthStage::Failed => 7,
    }
}

/// The active stage at the given rank; every rank past `Maturity` is the
/// terminal `Harvest`.
pub open spec fn spec_stage_of_rank(r: int) -> GrowthStage {
    if r <= 0 {
        GrowthStage::Seed
    } else if r == 1 {
        GrowthStage::Germination
    } else if r == 2 {
        GrowthStage::Seedling
    } else if r == 3 {
        GrowthStage::Vegetative
    } else if r == 4 {
        GrowthStage::Flowering
    } else if r == 5 {
        GrowthStage::Fruiting
    } else if r == 6 {
        GrowthStage::Maturity
    } else {
        GrowthStage::Harvest
    }
}

/// Days a unit of species `k` spends, at worst, in the stages after rank
/// `r` before it can enter a terminal stage.
pub open spec fn spec_days_after_rank(k: int, r: int) -> int
    decreases 6 - r,
{
    if r >= 6 {
        0
    } else {
        spec_required_days_kind(k, spec_stage_of_rank(r + 1)) + spec_days_after_rank(k, r + 1)
    }
}

/// An active unit on schedule has not overshot the exact-match threshold:
/// its day counter still sits strictly below its required duration.
pub open spec fn crop_on_schedule(c: Crop) -> bool {
    !spec_is_inactive(c) ==> c.days_in_stage < spec_crop_required_days(c)
}

/// The most ticks a unit can still take until its outcome is recorded:
/// the rest of its current stage, the later stages in full, and one tick to
/// record the outcome at the terminal stage.
pub open spec fn spec_unit_potential(c: Crop) -> int {
    if spec_is_harvested(c) || spec_has_issues(c) {
        0
    } else if spec_is_inactive(c) {
        1
    } else {
        (spec_crop_required_days(c) - c.days_in_stage) + spec_days_after_rank(
            spec_crop_kind(c)->Some_0,
            spec_stage_rank(c.current_stage),
        ) + 1
    }
}

/// The worst-case day budget of later stages is never negative.
pub proof fn lemma_days_after_rank_nonneg(k: int, r: int)
    ensures
        spec_days_after_rank(k, r) >= 0,
    decreases 6 - r,
{
    if r < 6 {
        lemma_days_after_rank_nonneg(k, r + 1);
    }
}

/// Every unit set fresh at `Seed` resolves within the worst stage plan,
/// whatever events are drawn: at most the slowest species' full stage plan
/// plus the tick that records the outcome.
pub proof fn lemma_fresh_unit_potential_bound(c: Crop)
    requires
        spec_crop_wf(c),
        c.current_stage == GrowthStage::Seed,
        c.days_in_stage == 0,
        c.harvest_date is None,
        c.date_rot_detected is None,
    ensures
        0 < spec_unit_potential(c) <= WORST_STAGE_PLAN,
{
    let k = spec_crop_kind(c)->Some_0;
    reveal_with_fuel(spec_days_after_rank, 8);
    assert(0 <= k <= 4);
    lemma_days_after_rank_nonneg(k, 0);
}

/// One processed tick brings a harvestable, well-formed, on-schedule,
/// consistent unit strictly closer to a recorded outcome, and keeps it on
/// schedule and consistent: the per-unit reason every unit resolves within
/// its plan bound, whatever events are drawn.
pub proof fn lemma_step_decreases_potential(before: Crop, after: Crop, e: GrowthEvent)
    requires
        crop_step_matches(before, after, e),
        before.is_harvestable,
        spec_crop_wf(before),
        crop_outcome_ok(before),
        crop_on_schedule(before),
        before.days_in_stage < u32::MAX,
    ensures
        after.is_harvestable,
        spec_crop_wf(after),
        crop_outcome_ok(after),
        crop_on_schedule(after),
        spec_unit_potential(before) > 0 ==> spec_unit_potential(after) < spec_unit_potential(
            before,
        ),
        spec_unit_potential(before) == 0 ==> spec_unit_potential(after) == 0,
{
    let k = spec_crop_kind(before)->Some_0;
    let grown = Crop { days_in_stage: (before.days_in_stage + 1) as u32, ..before };
    lemma_days_after_rank_nonneg(k, spec_stage_rank(before.current_stage));
    if !is_terminal_stage(before.current_stage) {
        assert(before.harvest_date is None);
        assert(before.date_rot_detected is None);
        let sown = if before.current_stage == GrowthStage::Seed {
            Crop { is_sown: true, ..grown }
        } else {
            grown
        };
        assert(after == spec_evaluate_transition(sown, e));
        if spec_transition_ready(sown) {
            let next = spec_next_stage(before.current_stage, e);
            assert(after == (Crop { current_stage: next, days_in_stage: 0, ..sown }));
            match e {
                GrowthEvent::Fail => {
                    assert(spec_unit_potential(after) == 1);
                },
                GrowthEvent::Sync => {
                    let r = spec_stage_rank(before.current_stage);
                    assert(next == spec_stage_of_rank(r + 1));
                    if r < 6 {
                        lemma_days_after_rank_nonneg(k, r + 1);
                        assert(spec_days_after_rank(k, r) == spec_required_days_kind(k, next)
                            + spec_days_after_rank(k, r + 1));
                    } else {
                        assert(next == GrowthStage::Harvest);
                        assert(spec_unit_potential(after) == 1);
                    }
                },
            }
        }
    } else if before.current_stage == GrowthStage::Harvest {
        assert(before.date_rot_detected is None);
        if spec_is_harvested(grown) {
            assert(after == grown);
        }
    } else {
        assert(before.current_stage == GrowthStage::Failed);
        if spec_has_issues(grown) {
            assert(after == grown);
        }
    }
}

/// The largest potential any unit of a freshly planted farm can still have
/// at the start of the given day: the full worst-case plan before planting
/// has begun, and one less for every processed day after it.
pub open spec fn spec_live_bound(day: int) -> int {
    if day <= DAYS_TO_WAIT_BEFORE_PLANTING {
        WORST_STAGE_PLAN as int
    } else {
        WORST_STAGE_PLAN - (day - DAYS_TO_WAIT_BEFORE_PLANTING)
    }
}

/// An on-schedule unit's potential is never negative.
pub proof fn lemma_potential_nonneg(c: Crop)
    requires
        crop_on_schedule(c),
    ensures
        spec_unit_potential(c) >= 0,
{
    if !(spec_is_harvested(c) || spec_has_issues(c)) && !spec_is_inactive(c) {
        lemma_days_after_rank_nonneg(spec_crop_kind(c)->Some_0, spec_stage_rank(c.current_stage));
    }
}

/// When every unit matches exactly one of two predicates, their counts
/// partition the collection.
pub proof fn lemma_count_partition(s: Seq<Crop>, f: spec_fn(Crop) -> bool, g: spec_fn(Crop) -> bool)
    requires
        forall|i: int| 0 <= i < s.len() ==> f(#[trigger] s[i]) || g(s[i]),
        forall|i: int| 0 <= i < s.len() ==> !(f(#[trigger] s[i]) && g(s[i])),
    ensures
        count_matching(s, f) + count_matching(s, g) == s.len(),
    decreases s.len(),
{
    if s.len() > 0 {
        assert(forall|i: int| 0 <= i < s.drop_last().len() ==> s.drop_last()[i] == s[i]);
        lemma_count_partition(s.drop_last(), f, g);
    }
}

/// The day-tick scheduler: it owns the farm, its maintenance timetable and
/// the aggregate counters, and drives every unit through its stages.
pub struct PlantService {
    pub farm: Farm,
    pub is_all_harvested: bool,
    pub planting_is_initiated: bool,
    pub harvest_stats: HarvestStats,
}

/// The configuration fields the scheduler never touches.
pub open spec fn same_farm_config(a: Farm, b: Farm) -> bool {
    &&& a.location == b.location
    &&& a.size == b.size
    &&& a.owner == b.owner
    &&& a.security_code == b.security_code
    &&& a.is_active == b.is_active
    &&& a.is_trackable == b.is_trackable
    &&& a.is_plant_ready == b.is_plant_ready
}

/// Every tracked outcome is recorded: the two totals cover the whole unit
/// collection.
pub open spec fn spec_all_resolved(s: PlantService) -> bool {
    s.harvest_stats.num_harvested + s.harvest_stats.num_rotten == s.farm.crops@.len()
}

/// A scheduler just built over a freshly planted farm: nothing processed or
/// recorded yet, and every unit harvestable at `Seed` with a zero counter.
pub open spec fn spec_planting_ready(s: PlantService) -> bool {
    &&& !s.is_all_harvested
    &&& !s.planting_is_initiated
    &&& forall|i: int|
        0 <= i < s.farm.crops@.len() ==> {
            let c = #[trigger] s.farm.crops@[i];
            c.is_harvestable && c.current_stage == GrowthStage::Seed && c.days_in_stage == 0
                && c.harvest_date is None && c.date_rot_detected is None
        }
}

/// A farm as planting leaves it: every unit names a known species and no
/// outcome is recorded yet, and the collection fits the counters.
pub open spec fn spec_fresh_farm(farm: Farm) -> bool {
    &&& farm.crops@.len() <= u32::MAX
    &&& forall|i: int| 0 <= i < farm.crops@.len() ==> spec_crop_wf(#[trigger] farm.crops@[i])
    &&& forall|i: int|
        0 <= i < farm.crops@.len() ==> (#[trigger] farm.crops@[i]).harvest_date is None
            && farm.crops@[i].date_rot_detected is None
}

impl PlantService {
    /// The scheduler's invariant: the collection fits the counters, the
    /// stats agree with the recorded outcomes, and every unit names a known
    /// species and keeps its outcome dates at their terminal stages.
    pub open spec fn wf(self) -> bool {
        &&& self.farm.crops@.len() <= u32::MAX
        &&& stats_ok(self.harvest_stats, self.farm.crops@)
        &&& forall|i: int|
            0 <= i < self.farm.crops@.len() ==> spec_crop_wf(#[trigger] self.farm.crops@[i])
        &&& forall|i: int|
            0 <= i < self.farm.crops@.len() ==> crop_outcome_ok(#[trigger] self.farm.crops@[i])
    }

    /// A scheduler over the given farm, with nothing planted yet and all
    /// counters at zero; for a freshly planted farm the invariant holds.
    pub fn new(farm: Farm) -> (r: Self)
        ensures
            r.farm == farm,
            !r.is_all_harvested,
            !r.planting_is_initiated,
            r.harvest_stats.num_harvested == 0,
            r.harvest_stats.num_rotten == 0,
            r.harvest_stats.per_species@.len() == species_count(),
            forall|k: int|
                0 <= k < species_count() ==> #[trigger] r.harvest_stats.per_species@[k]
                    == (SpeciesStats { harvested: 0, rotten: 0 }),
            spec_fresh_farm(farm) ==> r.wf(),
    {
        let mut per_species: Vec<SpeciesStats> = Vec::new();
        let mut k: usize = 0;
        while k < 5
            invariant
                k <= 5,
                per_species@.len() == k,
                forall|j: int|
                    0 <= j < k ==> #[trigger] per_species@[j] == (SpeciesStats {
                        harvested: 0,
                        rotten: 0,
                    }),
            decreases 5 - k,
        {
            per_species.push(SpeciesStats { harvested: 0, rotten: 0 });
            k = k + 1;
        }
        let r = Self {
            farm,
            planting_is_initiated: false,
            is_all_harvested: false,
            harvest_stats: HarvestStats { num_harvested: 0, num_rotten: 0, per_species },
        };
        proof {
            if spec_fresh_farm(r.farm) {
                lemma_count_zero(r.farm.crops@, pred_harvested());
                lemma_count_zero(r.farm.crops@, pred_rotten());
                assert forall|kk: int| 0 <= kk < species_count() implies count_matching(
                    r.farm.crops@,
                    pred_harvested_kind(kk),
                ) == 0 && count_matching(r.farm.crops@, pred_rotten_kind(kk)) == 0 by {
                    lemma_count_zero(r.farm.crops@, pred_harvested_kind(kk));
                    lemma_count_zero(r.farm.crops@, pred_rotten_kind(kk));
                };
            }
        }
        r
    }

    /// Farm preparation is pure pacing: it changes nothing the simulation
    /// reads, so the scheduler comes back as it went in.
    pub fn prepare_farm(self) -> (r: Self)
        ensures
            r == self,
    {
        self
    }

    /// Planting day: marks planting as initiated, which unlocks the per-unit
    /// processing of every later tick.
    fn planting(&mut self)
        ensures
            *final(self) == (PlantService { planting_is_initiated: true, ..*old(self) }),
    {
        self.planting_is_initiated = true;
    }

    /// The irrigation rule: irrigation proceeds unless the day's sampled
    /// weather is rainy or stormy.
    pub fn irrigate(&self, weather_condition: &WeatherCondition) -> (r: bool)
        ensures
            r == spec_should_irrigate(*weather_condition),
    {
        !(matches!(weather_condition, WeatherCondition::Rainy | WeatherCondition::Stormy))
    }

    /// The harvest pass: once both totals cover the whole collection, the
    /// farm is marked ready for harvest and the simulation may stop.
    fn end_farming_simulation(&mut self)
        requires
            old(self).wf(),
        ensures
            final(self).wf(),
            spec_all_resolved(*old(self)) ==> *final(self) == (PlantService {
                is_all_harvested: true,
                farm: (Farm { is_ready_for_harvest: Some(true), ..old(self).farm }),
                ..*old(self)
            }),
            !spec_all_resolved(*old(self)) ==> *final(self) == *old(self),
    {
        let num_harvested = self.harvest_stats.num_harvested;
        let num_rotten = self.harvest_stats.num_rotten;
        let resolved: u64 = (num_harvested as u64) + (num_rotten as u64);
        if resolved == (self.farm.crops.len() as u64) {
            self.farm.is_ready_for_harvest = Some(true);
            self.is_all_harvested = true;
        }
    }

    /// One transition check for one unit: when its day counter equals the
    /// required duration exactly and the unit is still active, an event is
    /// drawn and the transition evaluated; otherwise nothing is drawn and
    /// the unit is unchanged.
    fn check_for_update<O: GrowthOracle>(crop: &mut Crop, oracle: &mut O)
        requires
            spec_crop_wf(*old(crop)),
        ensures
            exists|e: GrowthEvent| *final(crop) == spec_evaluate_transition(*old(crop), e),
    {
        let seed_type = match SeedType::from_str(crop.verbose_name.as_str()) {
            Ok(seed) => seed,
            Err(_) => unreached(),
        };
        let stage = crop.current_stage;
        let stage_time = stage.get_days(seed_type);
        if crop.days_in_stage == stage_time && !crop.is_inactive() {
            let event = oracle.next_event();
            crop.advance_to_next_stage(&event);
            proof {
                assert(*crop == spec_evaluate_transition(*old(crop), event));
            }
        } else {
            proof {
                assert(*crop == spec_evaluate_transition(*old(crop), GrowthEvent::Sync));
            }
        }
    }

    /// One tick's unit pass: every harvestable unit grows a day, is sown
    /// when still at `Seed`, and has its transition evaluated; a unit first
    /// seen at `Harvest` or `Failed` gets its outcome date set and the
    /// aggregate counters, total and per species, stepped once.
    fn process_crops<O: GrowthOracle>(&mut self, oracle: &mut O) -> (events:
        Ghost<Seq<GrowthEvent>>)
        requires
            old(self).wf(),
            forall|i: int|
                0 <= i < old(self).farm.crops@.len() ==> (#[trigger] old(self).farm.crops@[i]).days_in_stage
                    < u32::MAX,
        ensures
            final(self).wf(),
            final(self).farm.crops@.len() == old(self).farm.crops@.len(),
            same_farm_config(final(self).farm, old(self).farm),
            final(self).farm.is_ready_for_harvest == old(self).farm.is_ready_for_harvest,
            final(self).is_all_harvested == old(self).is_all_harvested,
            final(self).planting_is_initiated == old(self).planting_is_initiated,
            final(self).harvest_stats.num_harvested >= old(self).harvest_stats.num_harvested,
            final(self).harvest_stats.num_rotten >= old(self).harvest_stats.num_rotten,
            forall|i: int|
                0 <= i < old(self).farm.crops@.len() ==> crop_evolution_ok(
                    old(self).farm.crops@[i],
                    #[trigger] final(self).farm.crops@[i],
                ),
            forall|i: int|
                0 <= i < old(self).farm.crops@.len() ==> (#[trigger] final(self).farm.crops@[i]).days_in_stage
                    <= old(self).farm.crops@[i].days_in_stage + 1,
            events@.len() == old(self).farm.crops@.len(),
            forall|i: int|
                0 <= i < old(self).farm.crops@.len() ==> crop_step_matches(
                    old(self).farm.crops@[i],
                    #[trigger] final(self).farm.crops@[i],
                    events@[i],
                ),
    {
        let ghost crops0 = old(self).farm.crops@;
        let ghost mut events: Seq<GrowthEvent> = Seq::empty();
        let n = self.farm.crops.len();
        let mut i: usize = 0;
        while i < n
            invariant
                i <= n,
                n == self.farm.crops@.len(),
                n == crops0.len(),
                n <= u32::MAX,
                crops0 == old(self).farm.crops@,
                forall|j: int| 0 <= j < n ==> (#[trigger] crops0[j]).days_in_stage < u32::MAX,
                stats_ok(self.harvest_stats, self.farm.crops@),
                forall|j: int| 0 <= j < n ==> spec_crop_wf(#[trigger] self.farm.crops@[j]),
                forall|j: int| 0 <= j < n ==> crop_outcome_ok(#[trigger] self.farm.crops@[j]),
                forall|j: int| i <= j < n ==> #[trigger] self.farm.crops@[j] == crops0[j],
                forall|j: int|
                    0 <= j < i ==> crop_evolution_ok(crops0[j], #[trigger] self.farm.crops@[j]),
                forall|j: int|
                    0 <= j < i ==> (#[trigger] self.farm.crops@[j]).days_in_stage <= crops0[j].days_in_stage
                        + 1,
                events.len() == i,
                forall|j: int|
                    0 <= j < i ==> crop_step_matches(
                        crops0[j],
                        #[trigger] self.farm.crops@[j],
                        events[j],
                    ),
                self.harvest_stats.num_harvested >= old(self).harvest_stats.num_harvested,
                self.harvest_stats.num_rotten >= old(self).harvest_stats.num_rotten,
                same_farm_config(self.farm, old(self).farm),
                self.farm.is_ready_for_harvest == old(self).farm.is_ready_for_harvest,
                self.is_all_harvested == old(self).is_all_harvested,
                self.planting_is_initiated == old(self).planting_is_initiated,
            decreases n - i,
        {
            let ghost mut step_event: GrowthEvent = GrowthEvent::Sync;
            if self.farm.crops[i].is_harvestable {
                let ghost before = crops0[i as int];
                let mut crop = self.farm.crops[i].clone();
                crop.grow(1);
                let ghost grown = crop;
                match crop.current_stage {
                    GrowthStage::Seed => {
                        crop.sow();
                        Self::check_for_update(&mut crop, oracle);
                        proof {
                            step_event = choose|e: GrowthEvent|
                                crop == spec_evaluate_transition((Crop { is_sown: true, ..grown }), e);
                            assert(crop_step_matches(before, crop, step_event));
                        }
                    },
                    GrowthStage::Germination
                    | GrowthStage::Seedling
                    | GrowthStage::Vegetative
                    | GrowthStage::Flowering
                    | GrowthStage::Fruiting
                    | GrowthStage::Maturity => {
                        Self::check_for_update(&mut crop, oracle);
                        proof {
                            step_event = choose|e: GrowthEvent|
                                crop == spec_evaluate_transition(grown, e);
                            assert(crop_step_matches(before, crop, step_event));
                        }
                    },
                    GrowthStage::Harvest => {
                        if !crop.is_harvested() {
                            let now = utc_now_string();
                            crop.harvest_date = Some(now);
                            let k = crop.kind_index();
                            proof {
                                lemma_count_unmatched(self.farm.crops@, i as int, pred_harvested());
                                lemma_count_unmatched(
                                    self.farm.crops@,
                                    i as int,
                                    pred_harvested_kind(k as int),
                                );
                                lemma_count_bounds(self.farm.crops@, pred_harvested());
                                lemma_count_bounds(self.farm.crops@, pred_harvested_kind(k as int));
                                assert(self.harvest_stats.per_species@[k as int].harvested
                                    == count_matching(self.farm.crops@, pred_harvested_kind(k as int)));
                            }
                            self.harvest_stats.record_harvest(k);
                            proof {
                                let ts = crop.harvest_date->Some_0;
                                assert(ts@.len() > 0 && crop == (Crop { harvest_date: Some(ts), ..grown }));
                                assert(crop_step_matches(before, crop, step_event));
                            }
                        } else {
                            proof {
                                assert(crop_step_matches(before, crop, step_event));
                            }
                        }
                    },
                    GrowthStage::Failed => {
                        if !crop.has_issues() {
                            let now = utc_now_string();
                            crop.date_rot_detected = Some(now);
                            let k = crop.kind_index();
                            proof {
                                lemma_count_unmatched(self.farm.crops@, i as int, pred_rotten());
                                lemma_count_unmatched(
                                    self.farm.crops@,
                                    i as int,
                                    pred_rotten_kind(k as int),
                                );
                                lemma_count_bounds(self.farm.crops@, pred_rotten());
                                lemma_count_bounds(self.farm.crops@, pred_rotten_kind(k as int));
                                assert(self.harvest_stats.per_species@[k as int].rotten
                                    == count_matching(self.farm.crops@, pred_rotten_kind(k as int)));
                            }
                            self.harvest_stats.record_rot(k);
                            proof {
                                let ts = crop.date_rot_detected->Some_0;
                                assert(ts@.len() > 0 && crop == (Crop {
                                    date_rot_detected: Some(ts),
                                    ..grown
                                }));
                                assert(crop_step_matches(before, crop, step_event));
                            }
                        } else {
                            proof {
                                assert(crop_step_matches(before, crop, step_event));
                            }
                        }
                    },
                }
                let ghost cur = self.farm.crops@;
                self.farm.crops[i] = crop;
                proof {
                    assert(self.farm.crops@ == cur.update(i as int, crop));
                    lemma_count_update(cur, i as int, crop, pred_harvested());
                    lemma_count_update(cur, i as int, crop, pred_rotten());
                    assert forall|kk: int| 0 <= kk < species_count() implies (#[trigger] self
                        .harvest_stats
                        .per_species@[kk]).harvested == count_matching(
                        self.farm.crops@,
                        pred_harvested_kind(kk),
                    ) && self.harvest_stats.per_species@[kk].rotten == count_matching(
                        self.farm.crops@,
                        pred_rotten_kind(kk),
                    ) by {
                        lemma_count_update(cur, i as int, crop, pred_harvested_kind(kk));
                        lemma_count_update(cur, i as int, crop, pred_rotten_kind(kk));
                    };
                    events = events.push(step_event);
                    assert(crop_step_matches(crops0[i as int], self.farm.crops@[i as int], step_event));
                }
            } else {
                proof {
                    events = events.push(step_event);
                    assert(crop_step_matches(
                        crops0[i as int],
                        self.farm.crops@[i as int],
                        step_event,
                    ));
                }
            }
            i = i + 1;
        }
        Ghost(events)
    }


    /// Runs the day-tick loop: each day applies the maintenance timetable,
    /// samples the weather for the irrigation decision, and processes every
    /// unit once planting has happened; from the end of the planting window
    /// on, a harvest pass checks whether every outcome is recorded, and the
    /// loop stops there or after `max_days` days, whichever comes first.
    pub fn run<O: GrowthOracle>(self, oracle: &mut O, max_days: u32) -> (r: PlantService)
        requires
            self.wf(),
            max_days < u32::MAX,
            forall|i: int|
                0 <= i < self.farm.crops@.len() ==> (#[trigger] self.farm.crops@[i]).days_in_stage
                    + max_days <= u32::MAX,
        ensures
            r.wf(),
            r.farm.crops@.len() == self.farm.crops@.len(),
            same_farm_config(r.farm, self.farm),
            forall|i: int|
                0 <= i < self.farm.crops@.len() ==> crop_evolution_ok(
                    self.farm.crops@[i],
                    #[trigger] r.farm.crops@[i],
                ),
            r.harvest_stats.num_harvested >= self.harvest_stats.num_harvested,
            r.harvest_stats.num_rotten >= self.harvest_stats.num_rotten,
            self.is_all_harvested ==> r.is_all_harvested,
            (r.is_all_harvested && !self.is_all_harvested) ==> spec_all_resolved(r)
                && r.farm.is_ready_for_harvest == Some(true),
            r.farm.is_ready_for_harvest == self.farm.is_ready_for_harvest
                || r.farm.is_ready_for_harvest == Some(true),
            !self.is_all_harvested ==> r.planting_is_initiated == (self.planting_is_initiated
                || max_days >= DAYS_TO_WAIT_BEFORE_PLANTING),
            (spec_planting_ready(self) && max_days >= DAYS_TO_WAIT_BEFORE_PLANTING
                + WORST_STAGE_PLAN) ==> r.is_all_harvested,
    {
        let ghost entry = self;
        let ghost live = spec_planting_ready(self);
        proof {
            if live {
                assert forall|i: int| 0 <= i < self.farm.crops@.len() implies crop_on_schedule(
                    #[trigger] self.farm.crops@[i],
                ) && 0 < spec_unit_potential(self.farm.crops@[i]) <= WORST_STAGE_PLAN by {
                    lemma_fresh_unit_potential_bound(self.farm.crops@[i]);
                };
            }
        }
        let mut service = self;
        let mut days_count: u32 = 1;
        while days_count <= max_days && !service.is_all_harvested
            invariant
                1 <= days_count <= max_days + 1,
                max_days < u32::MAX,
                service.wf(),
                service.farm.crops@.len() == entry.farm.crops@.len(),
                same_farm_config(service.farm, entry.farm),
                forall|i: int|
                    0 <= i < entry.farm.crops@.len() ==> crop_evolution_ok(
                        entry.farm.crops@[i],
                        #[trigger] service.farm.crops@[i],
                    ),
                forall|i: int|
                    0 <= i < entry.farm.crops@.len() ==> (#[trigger] service
                        .farm
                        .crops@[i]).days_in_stage + (max_days + 1 - days_count) <= u32::MAX,
                service.harvest_stats.num_harvested >= entry.harvest_stats.num_harvested,
                service.harvest_stats.num_rotten >= entry.harvest_stats.num_rotten,
                entry.is_all_harvested ==> service.is_all_harvested,
                (service.is_all_harvested && !entry.is_all_harvested) ==> spec_all_resolved(
                    service,
                ) && service.farm.is_ready_for_harvest == Some(true) && days_count
                    > PLANTING_WINDOW,
                service.farm.is_ready_for_harvest == entry.farm.is_ready_for_harvest
                    || service.farm.is_ready_for_harvest == Some(true),
                !entry.is_all_harvested ==> service.planting_is_initiated == (
                entry.planting_is_initiated || days_count > DAYS_TO_WAIT_BEFORE_PLANTING),
                live == spec_planting_ready(entry),
                live ==> forall|i: int|
                    0 <= i < entry.farm.crops@.len() ==> (#[trigger] service
                        .farm
                        .crops@[i]).is_harvestable && crop_on_schedule(service.farm.crops@[i]),
                live ==> forall|i: int|
                    0 <= i < entry.farm.crops@.len() ==> spec_unit_potential(
                        #[trigger] service.farm.crops@[i],
                    ) <= spec_live_bound(days_count as int) || spec_unit_potential(
                        service.farm.crops@[i],
                    ) == 0,
                (live && days_count > DAYS_TO_WAIT_BEFORE_PLANTING + WORST_STAGE_PLAN)
                    ==> service.is_all_harvested,
            decreases max_days + 1 - days_count,
        {
            let plan = maintenance_plan(days_count);
            if plan.plant {
                service.planting();
            }
            if plan.irrigate {
                // irrigation is advisory: the verified rule decides whether
                // it proceeds, but it leaves the tracked state untouched
                let todays_weather = oracle.next_weather();
                let _irrigating = service.irrigate(&todays_weather);
            }
            if service.planting_is_initiated {
                proof {
                    assert forall|i2: int|
                        0 <= i2 < service.farm.crops@.len() implies (#[trigger] service
                        .farm
                        .crops@[i2]).days_in_stage < u32::MAX by {
                        assert(service.farm.crops@[i2].days_in_stage + (max_days + 1
                            - days_count) <= u32::MAX);
                    };
                }
                let ghost prev_service = service;
                let events_g = service.process_crops(oracle);
                proof {
                    if live {
                        assert forall|i2: int|
                            0 <= i2 < entry.farm.crops@.len() implies (#[trigger] service
                            .farm
                            .crops@[i2]).is_harvestable && crop_on_schedule(
                            service.farm.crops@[i2],
                        ) && (spec_unit_potential(service.farm.crops@[i2]) <= spec_live_bound(
                            days_count + 1,
                        ) || spec_unit_potential(service.farm.crops@[i2]) == 0) by {
                            lemma_step_decreases_potential(
                                prev_service.farm.crops@[i2],
                                service.farm.crops@[i2],
                                events_g@[i2],
                            );
                            lemma_potential_nonneg(prev_service.farm.crops@[i2]);
                            lemma_potential_nonneg(service.farm.crops@[i2]);
                        };
                    }
                    assert forall|i2: int|
                        0 <= i2 < entry.farm.crops@.len() implies crop_evolution_ok(
                        entry.farm.crops@[i2],
                        #[trigger] service.farm.crops@[i2],
                    ) by {
                        assert(crop_evolution_ok(
                            entry.farm.crops@[i2],
                            prev_service.farm.crops@[i2],
                        ));
                        assert(crop_evolution_ok(
                            prev_service.farm.crops@[i2],
                            service.farm.crops@[i2],
                        ));
                    };
                    assert forall|i2: int|
                        0 <= i2 < entry.farm.crops@.len() implies (#[trigger] service
                        .farm
                        .crops@[i2]).days_in_stage + (max_days + 1 - (days_count + 1))
                        <= u32::MAX by {
                        assert(service.farm.crops@[i2].days_in_stage
                            <= prev_service.farm.crops@[i2].days_in_stage + 1);
                        assert(prev_service.farm.crops@[i2].days_in_stage + (max_days + 1
                            - days_count) <= u32::MAX);
                    };
                }
            }
            days_count = days_count + 1;
            proof {
                if live && days_count > DAYS_TO_WAIT_BEFORE_PLANTING + WORST_STAGE_PLAN {
                    assert forall|i2: int|
                        0 <= i2 < service.farm.crops@.len() implies spec_is_harvested(
                        #[trigger] service.farm.crops@[i2],
                    ) || spec_has_issues(service.farm.crops@[i2]) by {
                        lemma_potential_nonneg(service.farm.crops@[i2]);
                        if !(spec_is_harvested(service.farm.crops@[i2]) || spec_has_issues(
                            service.farm.crops@[i2],
                        )) {
                            lemma_days_after_rank_nonneg(
                                spec_crop_kind(service.farm.crops@[i2])->Some_0,
                                spec_stage_rank(service.farm.crops@[i2].current_stage),
                            );
                        }
                    };
                    assert forall|i2: int|
                        0 <= i2 < service.farm.crops@.len() implies !(spec_is_harvested(
                        #[trigger] service.farm.crops@[i2],
                    ) && spec_has_issues(service.farm.crops@[i2])) by {
                        assert(crop_outcome_ok(service.farm.crops@[i2]));
                    };
                    lemma_count_partition(service.farm.crops@, pred_harvested(), pred_rotten());
                    assert(spec_all_resolved(service));
                }
            }
            if days_count > PLANTING_WINDOW {
                service.end_farming_simulation();
            }
        }
        service
    }
}

} // verus!
