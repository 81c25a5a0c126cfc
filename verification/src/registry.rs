//! Registries: where each keeps the latest version of a package, and how to
//! read it from what the registry sends back.

pub mod crates;
pub mod github;
pub mod pypi;

pub use crates::Crates;
pub use github::GitHub;
pub use pypi::PyPI;

use crate::error::TransportError;
use crate::http_client::{Fetched, GenericHttpClient, Request};
use crate::package::Package;
use crate::text::{chars_of, extend, string_of};
use vstd::prelude::*;

verus! {

/// A service that publishes the releases of packages.
///
/// A registry says which `GET` answers the question for the latest version
/// of a package, and reads that version from the decoded answer. It neither
/// sends the request nor decodes the body.
pub trait Registry {
    /// The body of the registry's answer, decoded.
    type Response;

    /// The name of the registry.
    fn name() -> String;

    /// The request for the latest version of `pkg`, on the terms of
    /// `http_client`.
    fn request<T>(http_client: GenericHttpClient<T>, pkg: &Package) -> Request<T>;

    /// The latest version that the registry has of the package, as the
    /// registry writes it, or `None` where it has none to offer. A request
    /// that fetched no body is an error.
    fn get_latest_version(fetched: Fetched<Self::Response>) -> Result<
        Option<String>,
        TransportError,
    >;
}

/// The address `base/pkg` followed by `tail`, with `pkg` as it is shown.
pub fn endpoint(base: &str, pkg: &Package, tail: &str) -> (url: String)
    ensures
        url@ == base@ + seq!['/'] + pkg@.display() + tail@,
{
    let mut out = chars_of(base);
    out.push('/');
    let shown = pkg.to_string();
    extend(&mut out, &chars_of(shown.as_str()));
    extend(&mut out, &chars_of(tail));
    string_of(&out)
}

} // verus!
