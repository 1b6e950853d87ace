//! A cache for one expensive calculation, and the choice of a day's workout.
use vstd::prelude::*;
use std::marker::PhantomData;

verus! {

/// Runs a calculation at most once and keeps its result.
#[verifier::reject_recursive_types(U)]
#[verifier::reject_recursive_types(V)]
pub struct Cacher<T, U, V> where T: Fn(V) -> U {
    calculation: T,
    value: Option<U>,
    phantom: PhantomData<V>,
}

impl<T, U: Copy, V> Cacher<T, U, V> where T: Fn(V) -> U {
    /// The calculation.
    pub closed spec fn calculation(&self) -> T {
        self.calculation
    }

    /// The result kept so far, if any.
    pub closed spec fn cached(&self) -> Option<U> {
        self.value
    }

    /// A cache for `calculation` that holds nothing yet.
    pub fn new(calculation: T) -> (r: Cacher<T, U, V>)
        ensures
            r.calculation() == calculation,
            r.cached() is None,
    {
        Cacher { calculation, value: None, phantom: PhantomData }
    }

    /// The kept result if there is one; otherwise runs the calculation on
    /// `arg` and keeps what it gives.
    pub fn value(&mut self, arg: V) -> (r: U)
        requires
            old(self).cached() is None ==> old(self).calculation().requires((arg,)),
        ensures
            final(self).calculation() == old(self).calculation(),
            final(self).cached() == Some(r),
            old(self).cached() matches Some(v) ==> r == v,
            old(self).cached() is None ==> old(self).calculation().ensures((arg,), r),
    {
        match self.value {
            Some(v) => v,
            None => {
                let v = (self.calculation)(arg);
                self.value = Some(v);
                v
            },
        }
    }
}

/// The intensity from which a workout turns to running.
pub const RUN_INTENSITY: u32 = 25;

/// The random draw that gives a day off.
pub const REST_DRAW: u32 = 3;

/// A day's workout.
#[derive(Clone, Copy, Debug, PartialEq, Eq, Structural)]
pub enum Workout {
    /// Push-ups, then sit-ups, as many of each as the calculation gives.
    PushupsAndSitups,
    /// A rest day.
    Rest,
    /// A run, for as many minutes as the calculation gives.
    Run,
}

/// The workout for `intensity` and a random draw: strength work below the
/// running intensity, otherwise a run, unless the draw gives a day off.
pub open spec fn workout_for(intensity: u32, random_number: u32) -> Workout {
    if intensity < RUN_INTENSITY {
        Workout::PushupsAndSitups
    } else if random_number == REST_DRAW {
        Workout::Rest
    } else {
        Workout::Run
    }
}

/// The workout for `intensity` and a random draw.
pub fn plan_workout(intensity: u32, random_number: u32) -> (r: Workout)
    ensures
        r == workout_for(intensity, random_number),
{
    if intensity < RUN_INTENSITY {
        Workout::PushupsAndSitups
    } else if random_number == REST_DRAW {
        Workout::Rest
    } else {
        Workout::Run
    }
}

} // verus!
