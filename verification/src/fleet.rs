//! Ships, expeditions and the fleet that tracks them.
use vstd::prelude::*;

verus! {

/// An individual ship.
pub struct Ship {
    name: String,
}

impl Ship {
    /// The ship's name, as characters.
    pub closed spec fn name_view(&self) -> Seq<char> {
        self.name@
    }

    pub fn new(name: String) -> (ship: Self)
        ensures
            ship.name_view() == name@,
    {
        Ship { name: name }
    }

    pub fn name(&self) -> (res: &str)
        ensures
            res@ == self.name_view(),
    {
        self.name.as_str()
    }
}

/// The IEEE 754 single precision bit pattern of 22.3, the first
/// expedition's journey distance.
pub const FIRST_JOURNEY_DISTANCE_BITS: u32 = 0x41b2_6666;

/// The IEEE 754 single precision bit pattern of 12.1, the first
/// expedition's journey completion.
pub const FIRST_JOURNEY_COMPLETION_BITS: u32 = 0x4141_999a;

/// A collection of ships heading to a star (a journey). The journey's
/// distance and completion are single precision numbers kept as their bit
/// patterns (`f32::to_bits`), so that this crate carries them unchanged.
pub struct Expedition {
    ships: Vec<Ship>,
    origin: String,
    destination: String,
    journey_distance_bits: u32,
    journey_completion_bits: u32,
}

impl Expedition {
    pub closed spec fn ship_names(&self) -> Seq<Seq<char>> {
        self.ships@.map_values(|ship: Ship| ship.name_view())
    }

    pub closed spec fn origin_view(&self) -> Seq<char> {
        self.origin@
    }

    pub closed spec fn destination_view(&self) -> Seq<char> {
        self.destination@
    }

    pub closed spec fn distance_bits(&self) -> u32 {
        self.journey_distance_bits
    }

    pub closed spec fn completion_bits(&self) -> u32 {
        self.journey_completion_bits
    }

    /// The first expedition: the Leonara Christine alone, from Sol to Beta
    /// Three, 22.3 long and 12.1 done.
    pub open spec fn is_first_expedition(&self) -> bool {
        &&& self.ship_names() == seq!["Leonara Christine"@]
        &&& self.origin_view() == "Sol"@
        &&& self.destination_view() == "Beta Three"@
        &&& self.distance_bits() == FIRST_JOURNEY_DISTANCE_BITS
        &&& self.completion_bits() == FIRST_JOURNEY_COMPLETION_BITS
    }

    pub fn new() -> (expedition: Self)
        ensures
            expedition.is_first_expedition(),
    {
        let ship = Ship::new("Leonara Christine".to_owned());
        let mut ships = Vec::new();
        ships.push(ship);
        let expedition = Expedition {
            ships,
            origin: "Sol".to_owned(),
            destination: "Beta Three".to_owned(),
            journey_distance_bits: FIRST_JOURNEY_DISTANCE_BITS,
            journey_completion_bits: FIRST_JOURNEY_COMPLETION_BITS,
        };
        assert(expedition.ship_names() =~= seq!["Leonara Christine"@]);
        expedition
    }

    pub fn ships(&self) -> (res: &Vec<Ship>)
        ensures
            res@.map_values(|ship: Ship| ship.name_view()) == self.ship_names(),
    {
        &self.ships
    }

    pub fn origin(&self) -> (res: &str)
        ensures
            res@ == self.origin_view(),
    {
        self.origin.as_str()
    }

    pub fn destination(&self) -> (res: &str)
        ensures
            res@ == self.destination_view(),
    {
        self.destination.as_str()
    }

    /// The bit pattern of the journey distance (`f32::from_bits` reads it).
    pub fn journey_distance_bits(&self) -> (res: u32)
        ensures
            res == self.distance_bits(),
    {
        self.journey_distance_bits
    }

    /// The bit pattern of the journey completion (`f32::from_bits` reads it).
    pub fn journey_completion_bits(&self) -> (res: u32)
        ensures
            res == self.completion_bits(),
    {
        self.journey_completion_bits
    }
}

/// Handles and updates the state of all ships in flight.
pub struct FleetHandler {
    fleet: Vec<Expedition>,
}

impl FleetHandler {
    pub closed spec fn expeditions_view(&self) -> Seq<Expedition> {
        self.fleet@
    }

    /// A fleet of one expedition, the first.
    pub fn new() -> (handler: Self)
        ensures
            handler.expeditions_view().len() == 1,
            handler.expeditions_view()[0].is_first_expedition(),
    {
        let mut fleet = Vec::new();
        fleet.push(Expedition::new());
        FleetHandler { fleet: fleet }
    }

    pub fn expeditions(&self) -> (res: &Vec<Expedition>)
        ensures
            res@ == self.expeditions_view(),
    {
        &self.fleet
    }
}

} // verus!
