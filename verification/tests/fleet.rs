use starviewer::fleet::{Expedition, FleetHandler, Ship};

#[test]
fn ship_keeps_its_name() {
    let ship = Ship::new(String::from("Rocinante"));
    assert_eq!(ship.name(), "Rocinante");
}

#[test]
fn first_expedition_route_and_crew() {
    let expedition = Expedition::new();
    assert_eq!(expedition.ships().len(), 1);
    assert_eq!(expedition.ships()[0].name(), "Leonara Christine");
    assert_eq!(expedition.origin(), "Sol");
    assert_eq!(expedition.destination(), "Beta Three");
}

#[test]
fn first_expedition_journey_figures() {
    let expedition = Expedition::new();
    assert_eq!(f32::from_bits(expedition.journey_distance_bits()), 22.3f32);
    assert_eq!(f32::from_bits(expedition.journey_completion_bits()), 12.1f32);
}

#[test]
fn fleet_starts_with_first_expedition() {
    let fleet = FleetHandler::new();
    assert_eq!(fleet.expeditions().len(), 1);
    let expedition = &fleet.expeditions()[0];
    assert_eq!(expedition.ships()[0].name(), "Leonara Christine");
    assert_eq!(expedition.origin(), "Sol");
    assert_eq!(expedition.destination(), "Beta Three");
}
