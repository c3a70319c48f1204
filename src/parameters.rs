use vstd::prelude::*;

use crate::collections::{SerialMap, StorageMap};
use crate::maps::with_entry;

verus! {

/// All supported kinds of route input parameters.
///
/// Floating-point values are held as their IEEE 754 bit patterns
/// (`f32::to_bits`, `f64::to_bits`), so that the descriptor stays a plain,
/// comparable value.
#[derive(Debug, Clone, Copy, PartialEq, Eq, Structural)]
pub enum ParameterKind {
    /// A `bool` value.
    Bool {
        /// The initial value, also used when the input is missing.
        default: bool,
    },
    /// An `u8` value.
    U8 {
        /// The initial value, also used when the input is missing.
        default: u8,
    },
    /// An `u16` value.
    U16 {
        /// The initial value, also used when the input is missing.
        default: u16,
    },
    /// An `u32` value.
    U32 {
        /// The initial value, also used when the input is missing.
        default: u32,
    },
    /// An `u64` value.
    U64 {
        /// The initial value, also used when the input is missing.
        default: u64,
    },
    /// An `f32` value, as its bit pattern.
    F32 {
        /// The bits of the initial value, also used when the input is missing.
        default: u32,
    },
    /// An `f64` value, as its bit pattern.
    F64 {
        /// The bits of the initial value, also used when the input is missing.
        default: u64,
    },
    /// A range of `u64` values.
    RangeU64 {
        /// Minimum allowed value.
        min: u64,
        /// Maximum allowed value.
        max: u64,
        /// The step from one allowed value to the next within the range.
        step: u64,
        /// Initial value.
        default: u64,
    },
    /// A range of `f64` values, each as its bit pattern.
    RangeF64 {
        /// Bits of the minimum allowed value.
        min: u64,
        /// Bits of the maximum allowed value.
        max: u64,
        /// Bits of the step from one allowed value to the next.
        step: u64,
        /// Bits of the initial value.
        default: u64,
    },
}

/// A map of serializable [`Parameters`] data.
pub type ParametersData<const N: usize> = SerialMap<&'static str, ParameterKind, N>;

/// Route input parameters: at most `N` of them, one per name, in the order
/// their names were first given; giving a name again replaces its kind.
#[derive(Debug, Clone)]
pub struct Parameters<const N: usize>(StorageMap<&'static str, ParameterKind, N>);

impl<const N: usize> View for Parameters<N> {
    type V = Seq<(&'static str, ParameterKind)>;

    closed spec fn view(&self) -> Seq<(&'static str, ParameterKind)> {
        self.0@
    }
}

impl<const N: usize> Default for Parameters<N> {
    fn default() -> (r: Self)
        ensures
            r@ == Seq::<(&'static str, ParameterKind)>::empty(),
            r.wf(),
    {
        Self::new()
    }
}

impl<const N: usize> Parameters<N> {
    /// The shape every value of this type has.
    pub closed spec fn wf(&self) -> bool {
        self.0.wf()
    }

    /// Creates an empty [`Parameters`].
    pub fn new() -> (r: Self)
        ensures
            r@ == Seq::<(&'static str, ParameterKind)>::empty(),
            r.wf(),
    {
        Parameters(StorageMap::new())
    }

    /// Adds A `bool` parameter.
    pub fn bool(self, name: &'static str, default: bool) -> (r: Self)
        requires
            self.wf(),
        ensures
            r@ == with_entry(self@, name, ParameterKind::Bool { default }, N as nat),
            r.wf(),
    {
        self.create_parameter(name, ParameterKind::Bool { default })
    }

    /// Adds An `u8` parameter.
    pub fn u8(self, name: &'static str, default: u8) -> (r: Self)
        requires
            self.wf(),
        ensures
            r@ == with_entry(self@, name, ParameterKind::U8 { default }, N as nat),
            r.wf(),
    {
        self.create_parameter(name, ParameterKind::U8 { default })
    }

    /// Adds An `u16` parameter.
    pub fn u16(self, name: &'static str, default: u16) -> (r: Self)
        requires
            self.wf(),
        ensures
            r@ == with_entry(self@, name, ParameterKind::U16 { default }, N as nat),
            r.wf(),
    {
        self.create_parameter(name, ParameterKind::U16 { default })
    }

    /// Adds An `u32` parameter.
    pub fn u32(self, name: &'static str, default: u32) -> (r: Self)
        requires
            self.wf(),
        ensures
            r@ == with_entry(self@, name, ParameterKind::U32 { default }, N as nat),
            r.wf(),
    {
        self.create_parameter(name, ParameterKind::U32 { default })
    }

    /// Adds An `u64` parameter.
    pub fn u64(self, name: &'static str, default: u64) -> (r: Self)
        requires
            self.wf(),
        ensures
            r@ == with_entry(self@, name, ParameterKind::U64 { default }, N as nat),
            r.wf(),
    {
        self.create_parameter(name, ParameterKind::U64 { default })
    }

    /// Adds an `f32` parameter, given by the bits of its default value.
    pub fn f32_bits(self, name: &'static str, default: u32) -> (r: Self)
        requires
            self.wf(),
        ensures
            r@ == with_entry(self@, name, ParameterKind::F32 { default }, N as nat),
            r.wf(),
    {
        self.create_parameter(name, ParameterKind::F32 { default })
    }

    /// Adds an `f64` parameter, given by the bits of its default value.
    pub fn f64_bits(self, name: &'static str, default: u64) -> (r: Self)
        requires
            self.wf(),
        ensures
            r@ == with_entry(self@, name, ParameterKind::F64 { default }, N as nat),
            r.wf(),
    {
        self.create_parameter(name, ParameterKind::F64 { default })
    }

    /// Adds an `u64` range `(min, max, step)` whose default is `0`.
    pub fn rangeu64(self, name: &'static str, range: (u64, u64, u64)) -> (r: Self)
        requires
            self.wf(),
        ensures
            r@ == with_entry(
                self@,
                name,
                ParameterKind::RangeU64 { min: range.0, max: range.1, step: range.2, default: 0 },
                N as nat,
            ),
            r.wf(),
    {
        self.rangeu64_with_default(name, range, 0)
    }

    /// Adds an `u64` range `(min, max, step)` with a default value.
    pub fn rangeu64_with_default(self, name: &'static str, range: (u64, u64, u64), default: u64) -> (r: Self)
        requires
            self.wf(),
        ensures
            r@ == with_entry(
                self@,
                name,
                ParameterKind::RangeU64 { min: range.0, max: range.1, step: range.2, default },
                N as nat,
            ),
            r.wf(),
    {
        self.create_parameter(
            name,
            ParameterKind::RangeU64 { min: range.0, max: range.1, step: range.2, default },
        )
    }

    /// Adds an `f64` range `(min, max, step)`, given by bits, whose default
    /// is `0.0` (all bits clear).
    pub fn rangef64(self, name: &'static str, range: (u64, u64, u64)) -> (r: Self)
        requires
            self.wf(),
        ensures
            r@ == with_entry(
                self@,
                name,
                ParameterKind::RangeF64 { min: range.0, max: range.1, step: range.2, default: 0 },
                N as nat,
            ),
            r.wf(),
    {
        self.rangef64_with_default(name, range, 0)
    }

    /// Adds an `f64` range `(min, max, step)` with a default value, all given
    /// by bits.
    pub fn rangef64_with_default(self, name: &'static str, range: (u64, u64, u64), default: u64) -> (r: Self)
        requires
            self.wf(),
        ensures
            r@ == with_entry(
                self@,
                name,
                ParameterKind::RangeF64 { min: range.0, max: range.1, step: range.2, default },
                N as nat,
            ),
            r.wf(),
    {
        self.create_parameter(
            name,
            ParameterKind::RangeF64 { min: range.0, max: range.1, step: range.2, default },
        )
    }

    /// Turns the parameters into their serializable form, consuming them;
    /// entries and order stay as they are.
    pub fn serialize_data(self) -> (r: ParametersData<N>)
        requires
            self.wf(),
        ensures
            r@ == self@,
            r.wf(),
    {
        SerialMap::from_storage(self.0)
    }

    fn create_parameter(self, name: &'static str, parameter_kind: ParameterKind) -> (r: Self)
        requires
            self.wf(),
        ensures
            r@ == with_entry(self@, name, parameter_kind, N as nat),
            r.wf(),
    {
        Parameters(self.0.insert(name, parameter_kind))
    }
}

} // verus!
