//! The vehicle selector: the fixed roster and the uniformly random choice of
//! one vehicle from it.

use vstd::prelude::*;

use crate::errors::RideError;
use crate::request::PickupLocation;

verus! {

/// One vehicle of the roster: an immutable value, never mutated after
/// construction.
#[derive(PartialEq, Debug)]
pub struct Car {
    pub name: String,
    pub color: String,
    pub gender: String,
}

/// The mathematical content of a vehicle.
pub ghost struct CarView {
    pub name: Seq<char>,
    pub color: Seq<char>,
    pub gender: Seq<char>,
}

impl View for Car {
    type V = CarView;

    open spec fn view(&self) -> CarView {
        CarView { name: self.name@, color: self.color@, gender: self.gender@ }
    }
}

impl Car {
    /// A vehicle with the given attributes.
    pub fn new(name: &str, color: &str, gender: &str) -> (c: Self)
        ensures
            c@.name == name@,
            c@.color == color@,
            c@.gender == gender@,
    {
        Car { name: name.to_owned(), color: color.to_owned(), gender: gender.to_owned() }
    }

    /// An owned copy with the same attributes.
    pub fn duplicate(&self) -> (c: Self)
        ensures
            c@ == self@,
    {
        Car {
            name: self.name.clone(),
            color: self.color.clone(),
            gender: self.gender.clone(),
        }
    }
}

/// The fixed, non-empty vehicle roster; initialized once at startup and
/// never modified thereafter (every method takes `&self`).
pub struct Roster {
    cars: Vec<Car>,
}

impl View for Roster {
    type V = Seq<Car>;

    closed spec fn view(&self) -> Seq<Car> {
        self.cars@
    }
}

impl Roster {
    /// A roster is well-formed when it holds at least one vehicle.
    pub open spec fn wf(&self) -> bool {
        self@.len() > 0
    }

    /// Wrap a vehicle list as a roster; an empty list is a startup
    /// configuration error, never a per-request one.
    pub fn new(cars: Vec<Car>) -> (r: Result<Roster, RideError>)
        ensures
            r is Ok <==> cars@.len() > 0,
            r matches Ok(roster) ==> roster@ == cars@ && roster.wf(),
            r matches Err(e) ==> e == RideError::Configuration,
    {
        if cars.len() == 0 {
            Result::Err(RideError::Configuration)
        } else {
            Result::Ok(Roster { cars })
        }
    }

    /// How many vehicles the roster holds.
    pub fn len(&self) -> (n: usize)
        ensures
            n == self@.len(),
    {
        self.cars.len()
    }

    /// The vehicle at `i`.
    pub fn car_at(&self, i: usize) -> (c: &Car)
        requires
            i < self@.len(),
        ensures
            c == self@[i as int],
    {
        &self.cars[i]
    }

    /// The vehicle a draw of `draw` lands on: the entry at `draw` modulo the
    /// roster's length.
    pub fn vehicle_at(&self, draw: usize) -> (c: Car)
        requires
            self.wf(),
        ensures
            c@ == self@[(draw as int) % (self@.len() as int)]@,
    {
        let i = draw % self.cars.len();
        self.cars[i].duplicate()
    }

    /// Choose one vehicle uniformly at random; never fails, since a roster
    /// is non-empty by construction. The pickup point is accepted but does
    /// not bias the choice.
    pub fn select_vehicle(&self, _pickup: &PickupLocation) -> (c: Car)
        requires
            self.wf(),
        ensures
            exists|i: int| 0 <= i < self@.len() && c@ == self@[i]@,
    {
        let draw = random_below(self.cars.len());
        let c = self.vehicle_at(draw);
        proof {
            let i = (draw as int) % (self@.len() as int);
            assert(0 <= i < self@.len() && c@ == self@[i]@);
        }
        c
    }
}

/// The roster this service ships with.
pub fn default_roster() -> (r: Roster)
    ensures
        r.wf(),
        r@.len() == 3,
{
    let mut cars: Vec<Car> = Vec::new();
    cars.push(Car::new("Bucephalus", "Golden", "Male"));
    cars.push(Car::new("Shadowfax", "White", "Male"));
    cars.push(Car::new("Rocinante", "Yellow", "Female"));
    match Roster::new(cars) {
        Result::Ok(r) => r,
        Result::Err(_) => unreached(),
    }
}

/// Relies on `rand::random_range` over `0..n`: the draw lies in the range,
/// whatever the thread-local generator returned.
#[verifier::external_body]
pub(crate) fn random_below(n: usize) -> (r: usize)
    requires
        n > 0,
    ensures
        r < n,
{
    rand::random_range(0..n)
}

} // verus!
