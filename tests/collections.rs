use tosca_stack::collections::{OutputMap, OutputSet, SerialMap, SerialSet, StorageMap, StorageSet};
use tosca_stack::error::ErrorKind;
use tosca_stack::hazards::{Hazard, Hazards};
use tosca_stack::parameters::{ParameterKind, Parameters};
use tosca_stack::string::String as FixedString;

#[test]
fn distinct_keys_keep_insertion_order() {
    let map = StorageMap::<&'static str, u8, 4>::new()
        .insert("c", 3)
        .insert("a", 1)
        .insert("b", 2);
    assert_eq!(map.len(), 3);
    assert_eq!(map.iter(), &[("c", 3), ("a", 1), ("b", 2)]);
    assert!(map.contains_key(&"a"));
    assert!(!map.contains_key(&"d"));
}

#[test]
fn reinsert_updates_value_in_place() {
    let mut map = StorageMap::<&'static str, u8, 4>::new()
        .insert("x", 1)
        .insert("y", 2)
        .insert("z", 3);
    map.add("y", 20);
    assert_eq!(map.len(), 3);
    assert_eq!(map.iter(), &[("x", 1), ("y", 20), ("z", 3)]);
}

#[test]
fn insert_beyond_capacity_is_dropped() {
    let map = StorageMap::<u16, u16, 2>::new()
        .insert(1, 10)
        .insert(2, 20)
        .insert(3, 30);
    assert_eq!(map.len(), 2);
    assert_eq!(map.iter(), &[(1, 10), (2, 20)]);
    // A key that is held is still updated when the map is full.
    let map = map.insert(2, 21);
    assert_eq!(map.iter(), &[(1, 10), (2, 21)]);

    let set = StorageSet::<u8, 2>::init_with_elements(&[5, 6, 7]);
    assert_eq!(set.len(), 2);
    assert_eq!(set.iter(), &[5, 6]);
}

#[test]
fn variants_round_trip() {
    let set = StorageSet::<u32, 4>::init_with_elements(&[9, 3, 9, 1]);
    assert_eq!(set.iter(), &[9, 3, 1]);
    let serial = SerialSet::from_storage(set);
    assert_eq!(serial.iter(), &[9, 3, 1]);
    let back = StorageSet::from_serial(serial);
    assert_eq!(back.iter(), &[9, 3, 1]);
    let output = OutputSet::from_storage(back);
    let back = StorageSet::from_output(output);
    assert_eq!(back.iter(), &[9, 3, 1]);

    let map = StorageMap::<&'static str, u64, 4>::init_with_elements(&[("b", 2), ("a", 1), ("b", 3)]);
    assert_eq!(map.iter(), &[("b", 3), ("a", 1)]);
    let serial = SerialMap::from_storage(map);
    let map = StorageMap::from_serial(serial);
    let output = OutputMap::from_storage(map);
    let map = StorageMap::from_output(output);
    assert_eq!(map.iter(), &[("b", 3), ("a", 1)]);
}

#[test]
fn hazards_deduplicate() {
    let hazards = Hazards::<4>::new()
        .insert(Hazard::AirPoisoning)
        .insert(Hazard::Explosion)
        .insert(Hazard::AirPoisoning);
    assert_eq!(hazards.len(), 2);
    assert_eq!(hazards.iter(), &[Hazard::AirPoisoning, Hazard::Explosion]);
    assert!(hazards.contains(&Hazard::Explosion));
    assert!(!hazards.contains(&Hazard::FireHazard));
}

#[test]
fn merge_appends_new_elements() {
    let mut set = StorageSet::<u8, 4>::init_with_elements(&[1, 2]);
    let other = StorageSet::<u8, 4>::init_with_elements(&[3, 2, 4, 5]);
    set.merge(&other);
    assert_eq!(set.iter(), &[1, 2, 3, 4]);
    assert!(!set.is_empty());
    assert!(StorageSet::<u8, 4>::new().is_empty());
    assert_eq!(StorageSet::<u8, 4>::init(7).iter(), &[7]);
    assert_eq!(StorageMap::<u8, u8, 4>::init(7, 8).iter(), &[(7, 8)]);
}

#[test]
fn last_parameter_write_wins() {
    let data = Parameters::<4>::new().u8("x", 5).u8("x", 9).serialize_data();
    assert_eq!(data.len(), 1);
    assert_eq!(data.iter(), &[("x", ParameterKind::U8 { default: 9 })]);
}

#[test]
fn fixed_text_bounds() {
    let text = FixedString::<4>::new("abcd").unwrap();
    assert_eq!(text.as_str(), "abcd");
    let error = FixedString::<4>::new("abcde").unwrap_err();
    assert!(matches!(error.kind(), ErrorKind::FixedText));
    // Two bytes for one character.
    assert!(FixedString::<1>::new("é").is_err());
    assert!(FixedString::<2>::new("é").is_ok());

    let mut text = FixedString::<5>::new("ab").unwrap();
    assert!(text.push("cd").is_ok());
    assert_eq!(text.as_str(), "abcd");
    assert!(text.push("ef").is_err());
    assert_eq!(text.as_str(), "abcd");
    assert!(text.push_char('é').is_err());
    assert_eq!(text.as_str(), "abcd");
    assert!(text.push_char('e').is_ok());
    assert_eq!(text.as_str(), "abcde");

    let mut text = FixedString::<8>::empty();
    assert!(text.is_empty());
    assert!(text.push_char('é').is_ok());
    assert_eq!(text.as_str(), "é");

    assert_eq!(FixedString::<3>::infallible("abcd").as_str(), "");
    assert_eq!(FixedString::<4>::infallible("abcd").as_str(), "abcd");
}

#[test]
fn error_message() {
    let error = FixedString::<1>::new("ab").unwrap_err();
    assert_eq!(error.kind().description(), "Fixed-size text");
    assert!(error.message().starts_with("Fixed-size text: "));
    assert!(error.message().ends_with(" "));
    let error = tosca_stack::error::Error::new(ErrorKind::FixedText, "cause");
    assert_eq!(error.message(), "Fixed-size text: cause ");
    assert_eq!(error.info(), "cause");
}
