use std::collections::hash_map::DefaultHasher;
use std::hash::{Hash, Hasher};

use serde_json::{Map as JsonMap, Value};

use tosca::device::{DeviceEnvironment, DeviceKind};
use tosca::energy::WaterUseEfficiency;
use tosca_stack::collections::{SerialMap, SerialSet};
use tosca_stack::device::{DeviceData, DeviceInfo};
use tosca_stack::encoding::{
    encode_device_data, encode_device_info, encode_error_response, encode_parameter,
    encode_parameters, encode_route, Tree,
};
use tosca_stack::energy::Energy;
use tosca_stack::hazards::{Hazard, Hazards};
use tosca_stack::parameters::{ParameterKind, Parameters};
use tosca_stack::response::{ErrorKind, ErrorResponse};
use tosca_stack::route::{RestKind, Route, RouteConfig, Routes};
use tosca_stack::string::String as FixedString;

fn to_value(tree: &Tree) -> Value {
    match tree {
        Tree::Null => Value::Null,
        Tree::Bool(b) => Value::Bool(*b),
        Tree::Unsigned(n) => Value::from(*n),
        Tree::Bits32(bits) => serde_json::to_value(f32::from_bits(*bits)).unwrap(),
        Tree::Bits64(bits) => serde_json::to_value(f64::from_bits(*bits)).unwrap(),
        Tree::Text(s) => Value::String(s.clone()),
        Tree::Hazard(v) => serde_json::to_value(v).unwrap(),
        Tree::Rest(v) => serde_json::to_value(v).unwrap(),
        Tree::Response(v) => serde_json::to_value(v).unwrap(),
        Tree::Cost(v) => serde_json::to_value(v).unwrap(),
        Tree::Roi(v) => serde_json::to_value(v).unwrap(),
        Tree::EnergyEfficiency(v) => serde_json::to_value(v).unwrap(),
        Tree::CarbonFootprint(v) => serde_json::to_value(v).unwrap(),
        Tree::WaterUse(v) => serde_json::to_value(v).unwrap(),
        Tree::DeviceKind(v) => serde_json::to_value(v).unwrap(),
        Tree::DeviceEnvironment(v) => serde_json::to_value(v).unwrap(),
        Tree::Array(values) => Value::Array(values.iter().map(to_value).collect()),
        Tree::Object(fields) => {
            let mut map = JsonMap::new();
            for (name, value) in fields {
                map.insert(name.to_string(), to_value(value));
            }
            Value::Object(map)
        }
    }
}

fn object(fields: Vec<(&str, Value)>) -> Value {
    let mut map = JsonMap::new();
    for (name, value) in fields {
        map.insert(name.to_string(), value);
    }
    Value::Object(map)
}

fn text(s: &str) -> Value {
    Value::String(s.to_string())
}

fn float(f: f64) -> Value {
    serde_json::to_value(f).unwrap()
}

fn serialize_route<const H: usize, const P: usize>(config: RouteConfig<H, P>) -> Value {
    to_value(&encode_route(&config))
}

fn route_value(description: &str, kind: &str) -> Vec<(&'static str, Value)> {
    vec![
        ("name", text("/route")),
        ("description", text(description)),
        ("REST kind", text(kind)),
        ("response kind", text("Ok")),
    ]
}

fn range_parameters() -> Value {
    object(vec![
        (
            "rangeu64",
            object(vec![(
                "RangeU64",
                object(vec![
                    ("min", Value::from(0u64)),
                    ("max", Value::from(20u64)),
                    ("step", Value::from(1u64)),
                    ("default", Value::from(5u64)),
                ]),
            )]),
        ),
        (
            "rangef64",
            object(vec![(
                "RangeF64",
                object(vec![
                    ("min", float(0.0)),
                    ("max", float(20.0)),
                    ("step", float(0.1)),
                    ("default", float(0.0)),
                ]),
            )]),
        ),
    ])
}

fn three_hazards() -> Hazards<4> {
    Hazards::<4>::new()
        .insert(Hazard::FireHazard)
        .insert(Hazard::AirPoisoning)
        .insert(Hazard::Explosion)
}

fn range_parameter_builder() -> Parameters<4> {
    Parameters::<4>::new()
        .rangeu64_with_default("rangeu64", (0, 20, 1), 5)
        .rangef64("rangef64", (0f64.to_bits(), 20f64.to_bits(), 0.1f64.to_bits()))
}

#[test]
fn test_parameters() {
    let parameters = Parameters::<16>::new()
        .bool("bool", true)
        .u8("u8", 0)
        .u16("u16", 0)
        .u32("u32", 0)
        .u64("u64", 0)
        .f32_bits("f32", 0f32.to_bits())
        .f64_bits("f64", 0f64.to_bits())
        .rangeu64_with_default("rangeu64", (0, 20, 1), 5)
        .rangef64_with_default("rangef64", (0f64.to_bits(), 20f64.to_bits(), 0.1f64.to_bits()), 5f64.to_bits())
        // Adds a duplicate to see whether that value is maintained or
        // removed.
        .u16("u16", 0);

    let parameters_data = SerialMap::<&'static str, ParameterKind, 16>::new()
        .insert("bool", ParameterKind::Bool { default: true })
        .insert("u8", ParameterKind::U8 { default: 0 })
        .insert("u16", ParameterKind::U16 { default: 0 })
        .insert("u32", ParameterKind::U32 { default: 0 })
        .insert("u64", ParameterKind::U64 { default: 0 })
        .insert("f32", ParameterKind::F32 { default: 0f32.to_bits() })
        .insert("f64", ParameterKind::F64 { default: 0f64.to_bits() })
        .insert(
            "rangeu64",
            ParameterKind::RangeU64 {
                min: 0,
                max: 20,
                step: 1,
                default: 5,
            },
        )
        .insert(
            "rangef64",
            ParameterKind::RangeF64 {
                min: 0f64.to_bits(),
                max: 20f64.to_bits(),
                step: 0.1f64.to_bits(),
                default: 5f64.to_bits(),
            },
        );

    let data = parameters.serialize_data();
    assert_eq!(data.iter(), parameters_data.iter());
    assert_eq!(
        to_value(&encode_parameters(&data)),
        to_value(&encode_parameters(&parameters_data)),
    );
}

#[test]
fn test_error_response() {
    let error = ErrorResponse::<32>::with_description(
        ErrorKind::InvalidData,
        "Invalid data error description",
    );

    assert_eq!(
        error,
        ErrorResponse {
            error: ErrorKind::InvalidData,
            description: FixedString::infallible("Invalid data error description"),
            info: None,
        }
    );
    assert_eq!(
        to_value(&encode_error_response(&error)),
        object(vec![
            ("error", text("InvalidData")),
            ("description", text("Invalid data error description")),
            ("info", Value::Null),
        ])
    );
}

#[test]
fn test_all_routes() {
    assert_eq!(
        serialize_route(Route::get("/route").description("A GET route").serialize_data()),
        object(route_value("A GET route", "Get"))
    );
    assert_eq!(
        serialize_route(Route::put("/route").description("A PUT route").serialize_data()),
        object(route_value("A PUT route", "Put"))
    );
    assert_eq!(
        serialize_route(Route::post("/route").description("A POST route").serialize_data()),
        object(route_value("A POST route", "Post"))
    );
    assert_eq!(
        serialize_route(Route::delete("/route").description("A DELETE route").serialize_data()),
        object(route_value("A DELETE route", "Delete"))
    );
}

#[test]
fn test_all_hazards() {
    let mut expected = route_value("A GET route", "Get");
    expected.push((
        "hazards",
        Value::Array(vec![text("FireHazard"), text("AirPoisoning"), text("Explosion")]),
    ));
    assert_eq!(
        serialize_route(
            Route::get("/route")
                .description("A GET route")
                .with_hazards(three_hazards())
                .serialize_data()
        ),
        object(expected)
    );
}

#[test]
fn test_all_parameters() {
    let mut expected = route_value("A GET route", "Get");
    expected.push(("parameters", range_parameters()));
    assert_eq!(
        serialize_route(
            Route::get("/route")
                .description("A GET route")
                .with_parameters(range_parameter_builder())
                .serialize_data()
        ),
        object(expected)
    );
}

#[test]
fn test_complete_route() {
    let mut expected = route_value("A GET route", "Get");
    expected.push((
        "hazards",
        Value::Array(vec![text("FireHazard"), text("AirPoisoning"), text("Explosion")]),
    ));
    expected.push(("parameters", range_parameters()));
    assert_eq!(
        serialize_route(
            Route::get("/route")
                .description("A GET route")
                .with_hazards(three_hazards())
                .with_parameters(range_parameter_builder())
                .serialize_data()
        ),
        object(expected)
    );
}

#[test]
fn range_parameter_encoding() {
    let kind = Parameters::<2>::new()
        .rangeu64_with_default("r", (0, 20, 1), 5)
        .serialize_data()
        .iter()[0]
        .1;
    assert_eq!(
        to_value(&encode_parameter(kind)),
        object(vec![(
            "RangeU64",
            object(vec![
                ("min", Value::from(0u64)),
                ("max", Value::from(20u64)),
                ("step", Value::from(1u64)),
                ("default", Value::from(5u64)),
            ]),
        )])
    );
    let kind = Parameters::<2>::new().rangeu64("r", (1, 9, 2)).serialize_data().iter()[0].1;
    assert_eq!(kind, ParameterKind::RangeU64 { min: 1, max: 9, step: 2, default: 0 });
}

fn hash_of<T: Hash>(value: &T) -> u64 {
    let mut hasher = DefaultHasher::new();
    value.hash(&mut hasher);
    hasher.finish()
}

#[test]
fn route_identity_ignores_hazards_and_parameters() {
    let plain = Route::get("/light")
        .with_hazards(Hazards::<4>::new())
        .with_parameters(Parameters::<4>::new())
        .serialize_data();
    let loaded = Route::get("/light")
        .description("A light")
        .with_hazards(three_hazards())
        .with_parameters(range_parameter_builder())
        .serialize_data();
    assert!(plain == loaded);
    assert_eq!(hash_of(&plain), hash_of(&loaded));

    let other_kind = Route::put("/light").serialize_data();
    assert!(Route::get("/light").serialize_data() != other_kind);
    let other_name = Route::get("/lamp").serialize_data();
    assert!(Route::get("/light").serialize_data() != other_name);

    assert!(Route::get("/light") == Route::get("/light").description("x"));
    assert!(Route::get("/light") != Route::post("/light"));

    let routes = Routes::<2, 2, 4>::new()
        .insert(Route::get("/light"))
        .insert(Route::get("/light").description("again"))
        .insert(Route::delete("/light"));
    assert_eq!(routes.len(), 2);
    assert_eq!(routes.iter()[0].route(), "/light");
    assert_eq!(routes.iter()[1].kind(), RestKind::Delete);

    let configs = SerialSet::<RouteConfig<4, 4>, 4>::new()
        .insert(Route::get("/light").with_hazards(three_hazards()).with_parameters(range_parameter_builder()).serialize_data())
        .insert(Route::get("/light").with_hazards(Hazards::<4>::new()).with_parameters(Parameters::<4>::new()).serialize_data())
        .insert(Route::put("/light").with_hazards(Hazards::<4>::new()).with_parameters(Parameters::<4>::new()).serialize_data());
    assert_eq!(configs.len(), 2);
    assert_eq!(configs.iter()[0].route_data().hazards().len(), 3);
    assert_eq!(configs.iter()[1].rest_kind(), RestKind::Put);
}

#[test]
fn route_builder_accessors() {
    let route = Route::post("/a").change_route("/b").with_hazards(three_hazards());
    assert_eq!(route.route(), "/b");
    assert_eq!(route.kind(), RestKind::Post);
    assert_eq!(route.hazards().len(), 3);
    let config = route.serialize_data();
    assert_eq!(config.route_data().name(), "/b");
    assert_eq!(config.route_data().description(), None);
    assert_eq!(
        serialize_route(config),
        object(vec![
            ("name", text("/b")),
            ("description", Value::Null),
            (
                "hazards",
                Value::Array(vec![text("FireHazard"), text("AirPoisoning"), text("Explosion")]),
            ),
            ("REST kind", text("Post")),
            ("response kind", text("Ok")),
        ])
    );
}

#[test]
fn empty_energy_is_omitted() {
    let info = DeviceInfo::empty();
    assert_eq!(to_value(&encode_device_info(&info)), object(vec![]));

    let info = DeviceInfo::empty().add_energy(Energy::<2, 2>::empty());
    assert_eq!(to_value(&encode_device_info(&info)), object(vec![]));

    let water = WaterUseEfficiency::init_with_gpp(2.5);
    let info = DeviceInfo::empty().add_energy(Energy::<2, 2>::init_with_water_use_efficiency(water));
    assert_eq!(
        to_value(&encode_device_info(&info)),
        object(vec![(
            "energy",
            object(vec![("water-use-efficiency", serde_json::to_value(water).unwrap())]),
        )])
    );
}

#[test]
fn device_data_encoding() {
    let routes = Routes::<2, 2, 4>::new()
        .insert(Route::get("/light"))
        .insert(Route::get("/light").description("again"))
        .insert(Route::delete("/light"));
    assert_eq!(routes.len(), 2);
    assert_eq!(routes.iter()[0].route(), "/light");
    assert_eq!(routes.iter()[1].kind(), RestKind::Delete);

    let configs = SerialSet::<RouteConfig<2, 2>, 2>::new().insert(Route::get("/on").serialize_data());
    let device = DeviceData::new(DeviceKind::Light, DeviceEnvironment::Os, "/light", configs);
    let value = to_value(&encode_device_data(&device));
    assert_eq!(value["main route"], text("/light"));
    assert_eq!(value["kind"], serde_json::to_value(DeviceKind::Light).unwrap());
    assert_eq!(value["route_configs"][0]["name"], text("/on"));
    assert_eq!(value["route_configs"][0]["description"], Value::Null);
}
