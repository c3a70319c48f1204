use serde_json::Value;

use tosca::economy::{Cost, CostTimespan, Roi};
use tosca::energy::{CarbonFootprint, EnergyClass, EnergyEfficiency};
use tosca_stack::device::DeviceInfo;
use tosca_stack::economy::{Costs, Economy, Rois};
use tosca_stack::encoding::{encode_device_info, encode_economy, encode_elements, encode_energy, keys_of_object, Tree};
use tosca_stack::energy::{CarbonFootprints, Energy, EnergyEfficiencies};
use tosca_stack::response::InfoResponse;

fn names(tree: &Tree) -> Vec<&'static str> {
    keys_of_object(tree)
}

#[test]
fn economy_sets_deduplicate() {
    let costs = Costs::<4>::new()
        .insert(Cost::new(10, CostTimespan::Week))
        .insert(Cost::new(-5, CostTimespan::Year))
        .insert(Cost::new(10, CostTimespan::Week));
    assert_eq!(costs.len(), 2);
    let rois = Rois::<2>::new()
        .insert(Roi::new(3, EnergyClass::A))
        .insert(Roi::new(3, EnergyClass::B))
        .insert(Roi::new(3, EnergyClass::A));
    assert_eq!(rois.len(), 2);

    match encode_elements(&costs) {
        Tree::Array(values) => assert_eq!(values.len(), 2),
        _ => panic!("costs are encoded as an array"),
    }

    let economy = Economy::<2, 2>::empty();
    assert!(economy.is_empty());
    assert!(names(&encode_economy(&economy)).is_empty());
    let economy = Economy::<4, 2>::init_with_costs(costs).rois(rois);
    assert!(!economy.is_empty());
    assert_eq!(names(&encode_economy(&economy)), vec!["costs", "roi"]);
    let economy = Economy::<2, 2>::init_with_roi(Rois::<2>::init(Roi::new(1, EnergyClass::C)));
    assert_eq!(names(&encode_economy(&economy)), vec!["roi"]);
}

#[test]
fn energy_groups_are_listed_when_present() {
    let efficiencies = EnergyEfficiencies::<2>::new()
        .insert(EnergyEfficiency::new(-20, EnergyClass::A))
        .insert(EnergyEfficiency::new(-20, EnergyClass::A));
    assert_eq!(efficiencies.len(), 1);
    let footprints = CarbonFootprints::<2>::init(CarbonFootprint::new(5, EnergyClass::B));

    let energy = Energy::<2, 2>::init_with_energy_efficiencies(efficiencies);
    assert_eq!(names(&encode_energy(&energy)), vec!["energy-efficiencies"]);
    let footprints_again = footprints.clone();
    let energy = energy.carbon_footprints(footprints);
    assert_eq!(
        names(&encode_energy(&energy)),
        vec!["energy-efficiencies", "carbon-footprints"]
    );
    let energy = Energy::<2, 2>::init_with_carbon_footprints(footprints_again);
    assert_eq!(names(&encode_energy(&energy)), vec!["carbon-footprints"]);

    let info = DeviceInfo::empty()
        .add_energy(energy)
        .add_economy(Economy::<2, 2>::init_with_roi(Rois::<2>::init(Roi::new(2, EnergyClass::A))));
    assert_eq!(names(&encode_device_info(&info)), vec!["economy", "energy"]);
    let response = InfoResponse::new(info);
    assert_eq!(names(&encode_device_info(response.data())), vec!["economy", "energy"]);
    assert!(!matches!(encode_device_info(response.data()), Tree::Null));
    let _ = Value::Null;
}
