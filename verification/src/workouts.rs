//! A memoizing cache around an expensive calculation, and a workout plan
//! built on top of it.

use vstd::prelude::*;

verus! {

/// Caches the result of a calculation: the calculation runs at most once,
/// and every later call hands back the remembered result.
pub struct Cacher<T> where T: Fn(u32) -> u32 {
    calculation: T,
    value: Option<u32>,
}

impl<T> Cacher<T> where T: Fn(u32) -> u32 {
    /// The calculation the cache wraps, as seen by specifications.
    pub closed spec fn calculation_spec(&self) -> T {
        self.calculation
    }

    /// The remembered result, if the calculation has run.
    pub closed spec fn cached_spec(&self) -> Option<u32> {
        self.value
    }

    /// A cache that has not run its calculation yet.
    pub fn new(calculation: T) -> (r: Cacher<T>)
        ensures
            r.calculation_spec() == calculation,
            r.cached_spec() is None,
    {
        Cacher { calculation, value: None }
    }

    /// The cached result if there is one; otherwise the calculation runs on
    /// `arg` and its result is remembered.
    pub fn value(&mut self, arg: u32) -> (v: u32)
        requires
            old(self).cached_spec() is None ==> call_requires(old(self).calculation_spec(), (arg,)),
        ensures
            final(self).calculation_spec() == old(self).calculation_spec(),
            final(self).cached_spec() == Some(v),
            match old(self).cached_spec() {
                Some(x) => v == x,
                None => call_ensures(old(self).calculation_spec(), (arg,), v),
            },
    {
        match self.value {
            Some(v) => v,
            None => {
                let v = (self.calculation)(arg);
                self.value = Some(v);
                v
            },
        }
    }
}

/// A day's workout: repetitions of two exercises, a rest day, or a run.
#[derive(Debug, Clone, Copy, PartialEq, Eq, Structural)]
pub enum WorkoutPlan {
    Exercises { pushups: u32, situps: u32 },
    Rest,
    Run { minutes: u32 },
}

/// Plans a workout. At low intensity the expensive calculation decides both
/// exercise counts, and thanks to the cache they are the same number though
/// it is asked for twice. At high intensity a lucky random number gives a
/// rest day; otherwise the calculation decides the minutes to run.
pub fn generate_workout<T: Fn(u32) -> u32>(intensity: u32, random_number: u32, expensive: T) -> (r:
    WorkoutPlan)
    requires
        call_requires(expensive, (intensity,)),
    ensures
        intensity < 25 ==> (r matches WorkoutPlan::Exercises { pushups, situps } && pushups
            == situps && call_ensures(expensive, (intensity,), pushups)),
        intensity >= 25 && random_number == 3 ==> r == WorkoutPlan::Rest,
        intensity >= 25 && random_number != 3 ==> (r matches WorkoutPlan::Run { minutes }
            && call_ensures(expensive, (intensity,), minutes)),
{
    let mut expensive_result = Cacher::new(expensive);

    if intensity < 25 {
        let pushups = expensive_result.value(intensity);
        let situps = expensive_result.value(intensity);
        WorkoutPlan::Exercises { pushups, situps }
    } else {
        if random_number == 3 {
            WorkoutPlan::Rest
        } else {
            WorkoutPlan::Run { minutes: expensive_result.value(intensity) }
        }
    }
}

} // verus!
