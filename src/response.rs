use vstd::prelude::*;

use crate::device::DeviceInfo;
use crate::string::{byte_length, String};

pub use tosca::response::{OkResponse, ResponseKind, SerialResponse};

verus! {

/// Informative response: the economy and energy information of a device.
#[derive(Debug)]
pub struct InfoResponse<const C: usize, const R: usize, const E: usize, const CF: usize> {
    data: DeviceInfo<C, R, E, CF>,
}

impl<const C: usize, const R: usize, const E: usize, const CF: usize> InfoResponse<C, R, E, CF> {
    pub closed spec fn spec_data(&self) -> DeviceInfo<C, R, E, CF> {
        self.data
    }

    /// Creates an [`InfoResponse`].
    pub fn new(data: DeviceInfo<C, R, E, CF>) -> (r: Self)
        ensures
            r.spec_data() == data,
    {
        InfoResponse { data }
    }

    /// Returns the device information.
    pub fn data(&self) -> (r: &DeviceInfo<C, R, E, CF>)
        ensures
            *r == self.spec_data(),
    {
        &self.data
    }
}

/// All possible errors that may cause a device operation to fail.
#[derive(Debug, Clone, Copy, PartialEq, Eq, Structural)]
pub enum ErrorKind {
    /// Some data encountered during a device operation is invalid or malformed.
    InvalidData,
    /// An internal error has occurred during the execution of a device
    /// operation.
    Internal,
}

/// What a text that cannot fail to be made holds: `text` when it fits in `n`
/// bytes, nothing otherwise.
pub open spec fn fitted(text: Seq<char>, n: nat) -> Seq<char> {
    if byte_length(text) <= n {
        text
    } else {
        Seq::empty()
    }
}

/// A response describing an error that occurred during an action: its kind,
/// a description and optional further information.
///
/// A text that does not fit in `N` bytes is left empty.
#[derive(Debug)]
pub struct ErrorResponse<const N: usize> {
    /// Action error kind.
    pub error: ErrorKind,
    /// Error description.
    pub description: String<N>,
    /// Information about an error.
    pub info: Option<String<N>>,
}

impl<const N: usize> PartialEq for ErrorResponse<N> {
    fn eq(&self, other: &Self) -> (r: bool) {
        let same_info = match (&self.info, &other.info) {
            (Some(a), Some(b)) => a == b,
            (None, None) => true,
            _ => false,
        };
        self.error == other.error && self.description == other.description && same_info
    }
}

impl<const N: usize> vstd::std_specs::cmp::PartialEqSpecImpl for ErrorResponse<N> {
    open spec fn obeys_eq_spec() -> bool {
        true
    }

    open spec fn eq_spec(&self, other: &Self) -> bool {
        &&& self.error == other.error
        &&& self.description@ == other.description@
        &&& match (self.info, other.info) {
            (Some(a), Some(b)) => a@ == b@,
            (None, None) => true,
            _ => false,
        }
    }
}

impl<const N: usize> ErrorResponse<N> {
    /// Creates an [`ErrorResponse`] with a kind and a description.
    pub fn with_description(error: ErrorKind, description: &str) -> (r: Self)
        ensures
            r.error == error,
            r.description@ == fitted(description@, N as nat),
            r.info is None,
    {
        ErrorResponse { error, description: String::infallible(description), info: None }
    }

    /// Creates an [`ErrorResponse`] with a kind, a description and further
    /// information.
    pub fn with_description_error(error: ErrorKind, description: &str, info: &str) -> (r: Self)
        ensures
            r.error == error,
            r.description@ == fitted(description@, N as nat),
            r.info matches Some(i) && i@ == fitted(info@, N as nat),
    {
        ErrorResponse {
            error,
            description: String::infallible(description),
            info: Some(String::infallible(info)),
        }
    }

    /// Creates an [`ErrorResponse`] for invalid data with a description.
    pub fn invalid_data(description: &str) -> (r: Self)
        ensures
            r.error == ErrorKind::InvalidData,
            r.description@ == fitted(description@, N as nat),
            r.info is None,
    {
        Self::with_description(ErrorKind::InvalidData, description)
    }

    /// Creates an [`ErrorResponse`] for invalid data with a description and
    /// further information.
    pub fn invalid_data_with_error(description: &str, info: &str) -> (r: Self)
        ensures
            r.error == ErrorKind::InvalidData,
            r.description@ == fitted(description@, N as nat),
            r.info matches Some(i) && i@ == fitted(info@, N as nat),
    {
        Self::with_description_error(ErrorKind::InvalidData, description, info)
    }

    /// Creates an [`ErrorResponse`] for an internal error with a description.
    pub fn internal(description: &str) -> (r: Self)
        ensures
            r.error == ErrorKind::Internal,
            r.description@ == fitted(description@, N as nat),
            r.info is None,
    {
        Self::with_description(ErrorKind::Internal, description)
    }

    /// Creates an [`ErrorResponse`] for an internal error with a description
    /// and further information.
    pub fn internal_with_error(description: &str, info: &str) -> (r: Self)
        ensures
            r.error == ErrorKind::Internal,
            r.description@ == fitted(description@, N as nat),
            r.info matches Some(i) && i@ == fitted(info@, N as nat),
    {
        Self::with_description_error(ErrorKind::Internal, description, info)
    }
}

} // verus!
