use vstd::prelude::*;

use crate::rng::sample_range;
use crate::seeds::spec_fold;
use crate::seeds::str_eq_ci;

verus! {

/// The daily weather, resampled independently on every query. It is advisory
/// only: irrigation is skipped exactly on `Rainy` and `Stormy`.
#[derive(Clone, Copy, Debug, PartialEq, Eq, Structural)]
pub enum WeatherCondition {
    Sunny,
    Cloudy,
    Rainy,
    Snowy,
    Stormy,
}

/// The condition encoded by a uniform draw from [0, 4].
pub open spec fn spec_weather_of_index(i: u32) -> WeatherCondition {
    if i == 0 {
        WeatherCondition::Sunny
    } else if i == 1 {
        WeatherCondition::Cloudy
    } else if i == 2 {
        WeatherCondition::Rainy
    } else if i == 3 {
        WeatherCondition::Snowy
    } else if i == 4 {
        WeatherCondition::Stormy
    } else {
        WeatherCondition::Sunny
    }
}

/// The condition a free-text name resolves to, ignoring ASCII case; an
/// unknown name falls back to `Sunny`.
pub open spec fn spec_weather_of_name(name: Seq<char>) -> WeatherCondition {
    if spec_fold(name) == spec_fold("sunny"@) {
        WeatherCondition::Sunny
    } else if spec_fold(name) == spec_fold("cloudy"@) {
        WeatherCondition::Cloudy
    } else if spec_fold(name) == spec_fold("rainy"@) {
        WeatherCondition::Rainy
    } else if spec_fold(name) == spec_fold("snowy"@) {
        WeatherCondition::Snowy
    } else if spec_fold(name) == spec_fold("stormy"@) {
        WeatherCondition::Stormy
    } else {
        WeatherCondition::Sunny
    }
}

/// Irrigation proceeds exactly when the sampled condition is neither rainy
/// nor stormy.
pub open spec fn spec_should_irrigate(w: WeatherCondition) -> bool {
    !(w == WeatherCondition::Rainy || w == WeatherCondition::Stormy)
}

impl Default for WeatherCondition {
    /// The fallback condition is `Sunny`.
    fn default() -> (r: Self)
        ensures
            r == WeatherCondition::Sunny,
    {
        Self::Sunny
    }
}

impl WeatherCondition {
    /// The lowercase display name of this condition.
    pub fn get_weather_condition(&self) -> (r: String)
        ensures
            *self == WeatherCondition::Sunny ==> r@ == "sunny"@,
            *self == WeatherCondition::Cloudy ==> r@ == "cloudy"@,
            *self == WeatherCondition::Rainy ==> r@ == "rainy"@,
            *self == WeatherCondition::Snowy ==> r@ == "snowy"@,
            *self == WeatherCondition::Stormy ==> r@ == "stormy"@,
    {
        match self {
            WeatherCondition::Sunny => String::from_str("sunny"),
            WeatherCondition::Cloudy => String::from_str("cloudy"),
            WeatherCondition::Rainy => String::from_str("rainy"),
            WeatherCondition::Snowy => String::from_str("snowy"),
            WeatherCondition::Stormy => String::from_str("stormy"),
        }
    }

    /// Resolves a free-text condition name, ignoring ASCII case; an unknown
    /// name yields the `Sunny` fallback, so the lookup always succeeds.
    pub fn from_str(weather_condition: &str) -> (r: Option<Self>)
        ensures
            r == Some(spec_weather_of_name(weather_condition@)),
    {
        if str_eq_ci(weather_condition, "sunny") {
            Some(WeatherCondition::Sunny)
        } else if str_eq_ci(weather_condition, "cloudy") {
            Some(WeatherCondition::Cloudy)
        } else if str_eq_ci(weather_condition, "rainy") {
            Some(WeatherCondition::Rainy)
        } else if str_eq_ci(weather_condition, "snowy") {
            Some(WeatherCondition::Snowy)
        } else if str_eq_ci(weather_condition, "stormy") {
            Some(WeatherCondition::Stormy)
        } else {
            Some(WeatherCondition::Sunny)
        }
    }

    /// The condition encoded by a draw from [0, 4].
    pub fn from_index(i: u32) -> (r: Self)
        ensures
            r == spec_weather_of_index(i),
    {
        if i == 0 {
            WeatherCondition::Sunny
        } else if i == 1 {
            WeatherCondition::Cloudy
        } else if i == 2 {
            WeatherCondition::Rainy
        } else if i == 3 {
            WeatherCondition::Snowy
        } else if i == 4 {
            WeatherCondition::Stormy
        } else {
            WeatherCondition::Sunny
        }
    }

    /// A uniform choice among the five conditions, independent on each call.
    pub fn generate_random_weather_condition() -> (r: WeatherCondition)
        ensures
            exists|i: u32| 0 <= i <= 4 && r == spec_weather_of_index(i),
    {
        let random = sample_range(0, 5);
        let condition = WeatherCondition::from_index(random);
        proof {
            assert(0 <= random <= 4 && condition == spec_weather_of_index(random));
        }
        condition
    }
}

} // verus!
