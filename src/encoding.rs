use vstd::prelude::*;

use tosca::device::{DeviceEnvironment, DeviceKind};
use tosca::economy::{Cost, Roi};
use tosca::energy::{CarbonFootprint, EnergyEfficiency, WaterUseEfficiency};
use tosca::hazards::Hazard;
use tosca::response::ResponseKind;
use tosca::route::RestKind;

use crate::collections::OutputSet;
use crate::device::{DeviceData, DeviceInfo};
use crate::economy::Economy;
use crate::energy::Energy;
use crate::identity::Identified;
use crate::parameters::{ParameterKind, ParametersData};
use crate::response::{ErrorKind, ErrorResponse, InfoResponse};
use crate::route::RouteConfig;

verus! {

/// A descriptor in the shape an encoder walks: ordered objects, arrays and
/// leaves. Leaves drawn from the domain model are kept as they are, for the
/// encoder to render.
#[derive(Debug)]
pub enum Tree {
    /// No value.
    Null,
    /// A boolean.
    Bool(bool),
    /// An unsigned integer.
    Unsigned(u64),
    /// An `f32` number, as its bit pattern.
    Bits32(u32),
    /// An `f64` number, as its bit pattern.
    Bits64(u64),
    /// A text.
    Text(std::string::String),
    /// A hazard.
    Hazard(Hazard),
    /// A `REST` kind.
    Rest(RestKind),
    /// A response kind.
    Response(ResponseKind),
    /// A cost.
    Cost(Cost),
    /// A return on investment.
    Roi(Roi),
    /// An energy efficiency.
    EnergyEfficiency(EnergyEfficiency),
    /// A carbon footprint.
    CarbonFootprint(CarbonFootprint),
    /// A water-use efficiency.
    WaterUse(WaterUseEfficiency),
    /// A device kind.
    DeviceKind(DeviceKind),
    /// A device environment.
    DeviceEnvironment(DeviceEnvironment),
    /// An ordered sequence of values.
    Array(Vec<Tree>),
    /// An ordered sequence of named fields.
    Object(Vec<(&'static str, Tree)>),
}

/// The fields of an object, each name as its characters.
pub open spec fn entries(t: Tree) -> Seq<(Seq<char>, Tree)> {
    match t {
        Tree::Object(fields) => fields@.map_values(|f: (&'static str, Tree)| (f.0@, f.1)),
        _ => Seq::empty(),
    }
}

/// The field names of an object, in order.
pub open spec fn keys(t: Tree) -> Seq<Seq<char>> {
    entries(t).map_values(|f: (Seq<char>, Tree)| f.0)
}

/// The values of an array, in order.
pub open spec fn items(t: Tree) -> Seq<Tree> {
    match t {
        Tree::Array(values) => values@,
        _ => Seq::empty(),
    }
}

/// Whether `t` is the text `s`.
pub open spec fn is_text(t: Tree, s: Seq<char>) -> bool {
    t matches Tree::Text(x) && x@ == s
}

/// The field names of an object, in order; none for any other tree.
pub fn keys_of_object(t: &Tree) -> (r: Vec<&'static str>)
    ensures
        r@.map_values(|k: &'static str| k@) == keys(*t),
{
    let mut out: Vec<&'static str> = Vec::new();
    match t {
        Tree::Object(fields) => {
            let mut i: usize = 0;
            while i < fields.len()
                invariant
                    i <= fields@.len(),
                    out@.len() == i,
                    forall|j: int| 0 <= j < i ==> out@[j] == fields@[j].0,
                decreases fields@.len() - i,
            {
                out.push(fields[i].0);
                i = i + 1;
            }
            proof {
                assert(out@.map_values(|k: &'static str| k@) =~= keys(*t));
            }
        },
        _ => {
            proof {
                assert(out@.map_values(|k: &'static str| k@) =~= keys(*t));
            }
        },
    }
    out
}

/// Adds the field `(name, value)` at the end of `fields`.
fn push_field(fields: &mut Vec<(&'static str, Tree)>, name: &'static str, value: Tree)
    ensures
        final(fields)@ == old(fields)@.push((name, value)),
{
    fields.push((name, value));
}

/// A value of the domain model that is encoded as a leaf.
pub trait Leaf: Sized {
    spec fn leaf(&self) -> Tree;

    fn to_tree(&self) -> (r: Tree)
        ensures
            r == self.leaf(),
    ;
}

impl Leaf for Hazard {
    open spec fn leaf(&self) -> Tree {
        Tree::Hazard(*self)
    }

    fn to_tree(&self) -> (r: Tree) {
        Tree::Hazard(*self)
    }
}

impl Leaf for Cost {
    open spec fn leaf(&self) -> Tree {
        Tree::Cost(*self)
    }

    fn to_tree(&self) -> (r: Tree) {
        Tree::Cost(*self)
    }
}

impl Leaf for Roi {
    open spec fn leaf(&self) -> Tree {
        Tree::Roi(*self)
    }

    fn to_tree(&self) -> (r: Tree) {
        Tree::Roi(*self)
    }
}

impl Leaf for EnergyEfficiency {
    open spec fn leaf(&self) -> Tree {
        Tree::EnergyEfficiency(*self)
    }

    fn to_tree(&self) -> (r: Tree) {
        Tree::EnergyEfficiency(*self)
    }
}

impl Leaf for CarbonFootprint {
    open spec fn leaf(&self) -> Tree {
        Tree::CarbonFootprint(*self)
    }

    fn to_tree(&self) -> (r: Tree) {
        Tree::CarbonFootprint(*self)
    }
}

/// Encodes a set as the array of its elements, in insertion order.
pub fn encode_elements<T: Leaf + Identified, const N: usize>(set: &OutputSet<T, N>) -> (r: Tree)
    ensures
        r is Array,
        items(r) == set@.map_values(|e: T| e.leaf()),
{
    let elements = set.iter();
    let mut out: Vec<Tree> = Vec::new();
    let mut i: usize = 0;
    while i < elements.len()
        invariant
            i <= elements@.len(),
            out@ == elements@.take(i as int).map_values(|e: T| e.leaf()),
        decreases elements@.len() - i,
    {
        out.push(elements[i].to_tree());
        proof {
            assert(elements@.take(i + 1).map_values(|e: T| e.leaf()) =~= out@);
        }
        i = i + 1;
    }
    proof {
        assert(elements@.take(elements@.len() as int) == elements@);
    }
    Tree::Array(out)
}

/// The name under which each parameter kind is encoded.
pub open spec fn kind_name(k: ParameterKind) -> Seq<char> {
    match k {
        ParameterKind::Bool { .. } => "Bool"@,
        ParameterKind::U8 { .. } => "U8"@,
        ParameterKind::U16 { .. } => "U16"@,
        ParameterKind::U32 { .. } => "U32"@,
        ParameterKind::U64 { .. } => "U64"@,
        ParameterKind::F32 { .. } => "F32"@,
        ParameterKind::F64 { .. } => "F64"@,
        ParameterKind::RangeU64 { .. } => "RangeU64"@,
        ParameterKind::RangeF64 { .. } => "RangeF64"@,
    }
}

/// The fields of each parameter kind, in order.
pub open spec fn kind_fields(k: ParameterKind) -> Seq<(Seq<char>, Tree)> {
    match k {
        ParameterKind::Bool { default } => seq![("default"@, Tree::Bool(default))],
        ParameterKind::U8 { default } => seq![("default"@, Tree::Unsigned(default as u64))],
        ParameterKind::U16 { default } => seq![("default"@, Tree::Unsigned(default as u64))],
        ParameterKind::U32 { default } => seq![("default"@, Tree::Unsigned(default as u64))],
        ParameterKind::U64 { default } => seq![("default"@, Tree::Unsigned(default))],
        ParameterKind::F32 { default } => seq![("default"@, Tree::Bits32(default))],
        ParameterKind::F64 { default } => seq![("default"@, Tree::Bits64(default))],
        ParameterKind::RangeU64 { min, max, step, default } => seq![
            ("min"@, Tree::Unsigned(min)),
            ("max"@, Tree::Unsigned(max)),
            ("step"@, Tree::Unsigned(step)),
            ("default"@, Tree::Unsigned(default)),
        ],
        ParameterKind::RangeF64 { min, max, step, default } => seq![
            ("min"@, Tree::Bits64(min)),
            ("max"@, Tree::Bits64(max)),
            ("step"@, Tree::Bits64(step)),
            ("default"@, Tree::Bits64(default)),
        ],
    }
}

/// `t` is the encoding of `k`: an object with one field, named after the
/// kind, that holds the kind's fields.
pub open spec fn encodes_parameter(t: Tree, k: ParameterKind) -> bool {
    &&& keys(t) == seq![kind_name(k)]
    &&& entries(entries(t)[0].1) == kind_fields(k)
}

/// Encodes a parameter kind as `{"<Kind>": {<fields>}}`.
pub fn encode_parameter(k: ParameterKind) -> (r: Tree)
    ensures
        encodes_parameter(r, k),
{
    let mut fields: Vec<(&'static str, Tree)> = Vec::new();
    let name: &'static str;
    match k {
        ParameterKind::Bool { default } => {
            name = "Bool";
            push_field(&mut fields, "default", Tree::Bool(default));
        },
        ParameterKind::U8 { default } => {
            name = "U8";
            push_field(&mut fields, "default", Tree::Unsigned(default as u64));
        },
        ParameterKind::U16 { default } => {
            name = "U16";
            push_field(&mut fields, "default", Tree::Unsigned(default as u64));
        },
        ParameterKind::U32 { default } => {
            name = "U32";
            push_field(&mut fields, "default", Tree::Unsigned(default as u64));
        },
        ParameterKind::U64 { default } => {
            name = "U64";
            push_field(&mut fields, "default", Tree::Unsigned(default));
        },
        ParameterKind::F32 { default } => {
            name = "F32";
            push_field(&mut fields, "default", Tree::Bits32(default));
        },
        ParameterKind::F64 { default } => {
            name = "F64";
            push_field(&mut fields, "default", Tree::Bits64(default));
        },
        ParameterKind::RangeU64 { min, max, step, default } => {
            name = "RangeU64";
            push_field(&mut fields, "min", Tree::Unsigned(min));
            push_field(&mut fields, "max", Tree::Unsigned(max));
            push_field(&mut fields, "step", Tree::Unsigned(step));
            push_field(&mut fields, "default", Tree::Unsigned(default));
        },
        ParameterKind::RangeF64 { min, max, step, default } => {
            name = "RangeF64";
            push_field(&mut fields, "min", Tree::Bits64(min));
            push_field(&mut fields, "max", Tree::Bits64(max));
            push_field(&mut fields, "step", Tree::Bits64(step));
            push_field(&mut fields, "default", Tree::Bits64(default));
        },
    }
    let inner = Tree::Object(fields);
    proof {
        assert(entries(inner) =~= kind_fields(k));
    }
    let mut outer: Vec<(&'static str, Tree)> = Vec::new();
    push_field(&mut outer, name, inner);
    let r = Tree::Object(outer);
    proof {
        assert(keys(r) =~= seq![kind_name(k)]);
    }
    r
}

/// Encodes parameters as an object from each name to its kind's encoding,
/// in insertion order.
pub fn encode_parameters<const P: usize>(parameters: &ParametersData<P>) -> (r: Tree)
    ensures
        r is Object,
        keys(r) == parameters@.map_values(|e: (&'static str, ParameterKind)| e.0@),
        forall|i: int|
            0 <= i < parameters@.len() ==> encodes_parameter(#[trigger] entries(r)[i].1, parameters@[i].1),
{
    let all = parameters.iter();
    let mut out: Vec<(&'static str, Tree)> = Vec::new();
    let mut i: usize = 0;
    while i < all.len()
        invariant
            i <= all@.len(),
            out@.len() == i,
            forall|j: int| 0 <= j < i ==> (#[trigger] out@[j]).0 == all@[j].0,
            forall|j: int| 0 <= j < i ==> encodes_parameter((#[trigger] out@[j]).1, all@[j].1),
        decreases all@.len() - i,
    {
        let (name, kind) = all[i];
        push_field(&mut out, name, encode_parameter(kind));
        i = i + 1;
    }
    let r = Tree::Object(out);
    proof {
        assert(keys(r) =~= parameters@.map_values(|e: (&'static str, ParameterKind)| e.0@));
    }
    r
}

/// Makes a text leaf out of a string slice.
fn text(s: &str) -> (r: Tree)
    ensures
        is_text(r, s@),
{
    Tree::Text(s.to_owned())
}

/// The fields of an encoded route, in order: hazards and parameters only
/// when there are some.
pub open spec fn route_keys(has_hazards: bool, has_parameters: bool) -> Seq<Seq<char>> {
    seq!["name"@, "description"@] + (if has_hazards {
        seq!["hazards"@]
    } else {
        Seq::empty()
    }) + (if has_parameters {
        seq!["parameters"@]
    } else {
        Seq::empty()
    }) + seq!["REST kind"@, "response kind"@]
}

/// `t` is the encoding of the finalized route `c`.
pub open spec fn encodes_route<const H: usize, const P: usize>(t: Tree, c: RouteConfig<H, P>) -> bool {
    let hazards = c.data().spec_hazards();
    let parameters = c.data().spec_parameters();
    let at = if hazards.len() > 0 { 3int } else { 2int };
    &&& keys(t) == route_keys(hazards.len() > 0, parameters.len() > 0)
    &&& is_text(entries(t)[0].1, c.data().spec_name()@)
    &&& match c.data().spec_description() {
        Some(d) => is_text(entries(t)[1].1, d@),
        None => entries(t)[1].1 == Tree::Null,
    }
    &&& hazards.len() > 0 ==> items(entries(t)[2].1) == hazards.map_values(|h: Hazard| h.leaf())
    &&& parameters.len() > 0 ==> keys(entries(t)[at].1) == parameters.map_values(
        |e: (&'static str, ParameterKind)| e.0@,
    )
    &&& parameters.len() > 0 ==> forall|i: int|
        0 <= i < parameters.len() ==> encodes_parameter(
            #[trigger] entries(entries(t)[at].1)[i].1,
            parameters[i].1,
        )
    &&& entries(t)[entries(t).len() - 2].1 == Tree::Rest(c.spec_kind())
    &&& entries(t)[entries(t).len() - 1].1 == Tree::Response(c.spec_response_kind())
}

/// Encodes a finalized route. The description is `Null` when absent;
/// hazards and parameters are left out when empty.
pub fn encode_route<const H: usize, const P: usize>(c: &RouteConfig<H, P>) -> (r: Tree)
    ensures
        encodes_route(r, *c),
{
    let data = c.route_data();
    let mut fields: Vec<(&'static str, Tree)> = Vec::new();
    push_field(&mut fields, "name", text(data.name()));
    match data.description() {
        Some(d) => push_field(&mut fields, "description", text(d)),
        None => push_field(&mut fields, "description", Tree::Null),
    }
    if !data.hazards().is_empty() {
        push_field(&mut fields, "hazards", encode_elements(data.hazards()));
    }
    if !data.parameters().is_empty() {
        push_field(&mut fields, "parameters", encode_parameters(data.parameters()));
    }
    push_field(&mut fields, "REST kind", Tree::Rest(c.rest_kind()));
    push_field(&mut fields, "response kind", Tree::Response(c.response_kind()));
    let r = Tree::Object(fields);
    proof {
        assert(keys(r) =~= route_keys(
            c.data().spec_hazards().len() > 0,
            c.data().spec_parameters().len() > 0,
        ));
    }
    r
}

/// The fields of an encoded energy record: one per group present.
pub open spec fn energy_keys<const E: usize, const CF: usize>(e: Energy<E, CF>) -> Seq<Seq<char>> {
    (if e.energy_efficiencies is Some {
        seq!["energy-efficiencies"@]
    } else {
        Seq::empty()
    }) + (if e.carbon_footprints is Some {
        seq!["carbon-footprints"@]
    } else {
        Seq::empty()
    }) + (if e.water_use_efficiency is Some {
        seq!["water-use-efficiency"@]
    } else {
        Seq::empty()
    })
}

/// Encodes an energy record, leaving out each absent group.
pub fn encode_energy<const E: usize, const CF: usize>(e: &Energy<E, CF>) -> (r: Tree)
    ensures
        r is Object,
        keys(r) == energy_keys(*e),
        e.energy_efficiencies matches Some(v) ==> items(entries(r)[0].1) == v@.map_values(
            |x: EnergyEfficiency| x.leaf(),
        ),
        e.carbon_footprints matches Some(v) ==> items(
            entries(r)[if e.energy_efficiencies is Some {
                1int
            } else {
                0int
            }].1,
        ) == v@.map_values(|x: CarbonFootprint| x.leaf()),
        e.water_use_efficiency matches Some(w) ==> entries(r).last().1 == Tree::WaterUse(w),
{
    let mut fields: Vec<(&'static str, Tree)> = Vec::new();
    match &e.energy_efficiencies {
        Some(v) => push_field(&mut fields, "energy-efficiencies", encode_elements(v)),
        None => {},
    }
    match &e.carbon_footprints {
        Some(v) => push_field(&mut fields, "carbon-footprints", encode_elements(v)),
        None => {},
    }
    match e.water_use_efficiency {
        Some(w) => push_field(&mut fields, "water-use-efficiency", Tree::WaterUse(w)),
        None => {},
    }
    let r = Tree::Object(fields);
    proof {
        assert(keys(r) =~= energy_keys(*e));
    }
    r
}

/// The fields of an encoded economy record: one per group present.
pub open spec fn economy_keys<const C: usize, const R: usize>(e: Economy<C, R>) -> Seq<Seq<char>> {
    (if e.costs is Some {
        seq!["costs"@]
    } else {
        Seq::empty()
    }) + (if e.roi is Some {
        seq!["roi"@]
    } else {
        Seq::empty()
    })
}

/// Encodes an economy record, leaving out each absent group.
pub fn encode_economy<const C: usize, const R: usize>(e: &Economy<C, R>) -> (r: Tree)
    ensures
        r is Object,
        keys(r) == economy_keys(*e),
        e.costs matches Some(v) ==> items(entries(r)[0].1) == v@.map_values(|x: Cost| x.leaf()),
        e.roi matches Some(v) ==> items(entries(r).last().1) == v@.map_values(|x: Roi| x.leaf()),
{
    let mut fields: Vec<(&'static str, Tree)> = Vec::new();
    match &e.costs {
        Some(v) => push_field(&mut fields, "costs", encode_elements(v)),
        None => {},
    }
    match &e.roi {
        Some(v) => push_field(&mut fields, "roi", encode_elements(v)),
        None => {},
    }
    let r = Tree::Object(fields);
    proof {
        assert(keys(r) =~= economy_keys(*e));
    }
    r
}

/// The fields of encoded device information: a record appears only when
/// some group of it is present.
pub open spec fn device_info_keys<const C: usize, const R: usize, const E: usize, const CF: usize>(
    info: DeviceInfo<C, R, E, CF>,
) -> Seq<Seq<char>> {
    (if economy_keys(info.economy).len() > 0 {
        seq!["economy"@]
    } else {
        Seq::empty()
    }) + (if energy_keys(info.energy).len() > 0 {
        seq!["energy"@]
    } else {
        Seq::empty()
    })
}

/// Encodes device information, leaving out each record that is wholly empty.
pub fn encode_device_info<const C: usize, const R: usize, const E: usize, const CF: usize>(
    info: &DeviceInfo<C, R, E, CF>,
) -> (r: Tree)
    ensures
        r is Object,
        keys(r) == device_info_keys(*info),
        economy_keys(info.economy).len() > 0 ==> keys(entries(r)[0].1) == economy_keys(info.economy),
        energy_keys(info.energy).len() > 0 ==> keys(entries(r).last().1) == energy_keys(info.energy),
{
    let mut fields: Vec<(&'static str, Tree)> = Vec::new();
    if !info.economy.is_empty() {
        push_field(&mut fields, "economy", encode_economy(&info.economy));
    }
    if !info.energy.is_empty() {
        push_field(&mut fields, "energy", encode_energy(&info.energy));
    }
    let r = Tree::Object(fields);
    proof {
        assert(keys(r) =~= device_info_keys(*info));
    }
    r
}

/// Encodes an informative response: the device information itself.
pub fn encode_info_response<const C: usize, const R: usize, const E: usize, const CF: usize>(
    response: &InfoResponse<C, R, E, CF>,
) -> (r: Tree)
    ensures
        keys(r) == device_info_keys(response.spec_data()),
{
    encode_device_info(response.data())
}

/// Encodes an error response: kind, description and information, the last
/// being `Null` when absent.
pub fn encode_error_response<const N: usize>(response: &ErrorResponse<N>) -> (r: Tree)
    ensures
        keys(r) == seq!["error"@, "description"@, "info"@],
        is_text(entries(r)[0].1, match response.error {
            ErrorKind::InvalidData => "InvalidData"@,
            ErrorKind::Internal => "Internal"@,
        }),
        is_text(entries(r)[1].1, response.description@),
        match response.info {
            Some(i) => is_text(entries(r)[2].1, i@),
            None => entries(r)[2].1 == Tree::Null,
        },
{
    let mut fields: Vec<(&'static str, Tree)> = Vec::new();
    let kind = match response.error {
        ErrorKind::InvalidData => "InvalidData",
        ErrorKind::Internal => "Internal",
    };
    push_field(&mut fields, "error", text(kind));
    push_field(&mut fields, "description", text(response.description.as_str()));
    match &response.info {
        Some(i) => push_field(&mut fields, "info", text(i.as_str())),
        None => push_field(&mut fields, "info", Tree::Null),
    }
    let r = Tree::Object(fields);
    proof {
        assert(keys(r) =~= seq!["error"@, "description"@, "info"@]);
    }
    r
}

/// Encodes the whole descriptor of a device; its routes are encoded one by
/// one, in order.
pub fn encode_device_data<const H: usize, const I: usize, const N: usize>(
    device: &DeviceData<H, I, N>,
) -> (r: Tree)
    ensures
        keys(r) == seq!["kind"@, "environment"@, "main route"@, "route_configs"@],
        entries(r)[0].1 == Tree::DeviceKind(device.kind),
        entries(r)[1].1 == Tree::DeviceEnvironment(device.environment),
        is_text(entries(r)[2].1, device.main_route@),
        items(entries(r)[3].1).len() == device.route_configs@.len(),
        forall|i: int|
            0 <= i < device.route_configs@.len() ==> encodes_route(
                #[trigger] items(entries(r)[3].1)[i],
                device.route_configs@[i],
            ),
{
    let routes = device.route_configs.iter();
    let mut encoded: Vec<Tree> = Vec::new();
    let mut i: usize = 0;
    while i < routes.len()
        invariant
            i <= routes@.len(),
            routes@ == device.route_configs@,
            encoded@.len() == i,
            forall|j: int| 0 <= j < i ==> encodes_route(#[trigger] encoded@[j], routes@[j]),
        decreases routes@.len() - i,
    {
        encoded.push(encode_route(&routes[i]));
        i = i + 1;
    }
    let mut fields: Vec<(&'static str, Tree)> = Vec::new();
    push_field(&mut fields, "kind", Tree::DeviceKind(device.kind));
    push_field(&mut fields, "environment", Tree::DeviceEnvironment(device.environment));
    push_field(&mut fields, "main route", text(device.main_route));
    push_field(&mut fields, "route_configs", Tree::Array(encoded));
    let r = Tree::Object(fields);
    proof {
        assert(keys(r) =~= seq!["kind"@, "environment"@, "main route"@, "route_configs"@]);
    }
    r
}

/// Device information is encoded with an `energy` field exactly when some
/// group of its energy record is present, and that field lists exactly the
/// groups present; the same holds of `economy`.
pub proof fn lemma_empty_records_omitted<const C: usize, const R: usize, const E: usize, const CF: usize>(
    info: DeviceInfo<C, R, E, CF>,
)
    ensures
        device_info_keys(info).contains("energy"@) <==> !(info.energy.energy_efficiencies is None
            && info.energy.carbon_footprints is None && info.energy.water_use_efficiency is None),
        device_info_keys(info).contains("economy"@) <==> !(info.economy.costs is None
            && info.economy.roi is None),
        energy_keys(info.energy).contains("energy-efficiencies"@)
            <==> info.energy.energy_efficiencies is Some,
        energy_keys(info.energy).contains("carbon-footprints"@)
            <==> info.energy.carbon_footprints is Some,
        energy_keys(info.energy).contains("water-use-efficiency"@)
            <==> info.energy.water_use_efficiency is Some,
{
    reveal_strlit("energy");
    reveal_strlit("economy");
    reveal_strlit("energy-efficiencies");
    reveal_strlit("carbon-footprints");
    reveal_strlit("water-use-efficiency");
    let k = device_info_keys(info);
    let ek = energy_keys(info.energy);
    if k.contains("energy"@) {
        let i = choose|i: int| 0 <= i < k.len() && k[i] == "energy"@;
        assert(k[i] == "energy"@);
    }
    if ek.contains("energy-efficiencies"@) {
        let i = choose|i: int| 0 <= i < ek.len() && ek[i] == "energy-efficiencies"@;
        assert(ek[i] == "energy-efficiencies"@);
    }
    if ek.contains("carbon-footprints"@) {
        let i = choose|i: int| 0 <= i < ek.len() && ek[i] == "carbon-footprints"@;
        assert(ek[i] == "carbon-footprints"@);
    }
    if ek.contains("water-use-efficiency"@) {
        let i = choose|i: int| 0 <= i < ek.len() && ek[i] == "water-use-efficiency"@;
        assert(ek[i] == "water-use-efficiency"@);
    }
    if info.energy.energy_efficiencies is Some {
        assert(ek[0] == "energy-efficiencies"@);
    }
    if info.energy.carbon_footprints is Some {
        assert(ek[ek.len() - 1 - (if info.energy.water_use_efficiency is Some { 1int } else { 0int })] == "carbon-footprints"@);
    }
    if info.energy.water_use_efficiency is Some {
        assert(ek[ek.len() - 1] == "water-use-efficiency"@);
    }
    if ek.len() > 0 {
        assert(k[k.len() - 1] == "energy"@);
    }
    if info.economy.costs is Some || info.economy.roi is Some {
        assert(k[0] == "economy"@);
    }
}

} // verus!
