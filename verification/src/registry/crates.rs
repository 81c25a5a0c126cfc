//! The registry of Rust crates.

use crate::error::TransportError;
use crate::http_client::{Fetched, GenericHttpClient, Request, RequestView};
use crate::package::{Package, PackageView};
use crate::registry::{endpoint, Registry};
use crate::text::option_text;
use vstd::prelude::*;

verus! {

/// The Rust community's crate registry.
#[derive(Debug, Clone, Copy, PartialEq, Eq, Structural)]
pub struct Crates;

/// One published version of a crate.
#[derive(Debug, Clone, PartialEq, Eq)]
pub struct Release {
    pub num: String,
}

/// The versions of a crate, the newest first.
#[derive(Debug, Clone, PartialEq, Eq)]
pub struct Response {
    pub versions: Vec<Release>,
}

/// The address under which the registry lists crates.
pub fn get_base_url() -> (url: String)
    ensures
        url@ == "https://crates.io/api/v1/crates"@,
{
    "https://crates.io/api/v1/crates".to_owned()
}

/// The address of the versions of `pkg`.
pub open spec fn versions_url(pkg: PackageView) -> Seq<char> {
    "https://crates.io/api/v1/crates"@ + seq!['/'] + pkg.display() + "/versions"@
}

/// The first version of the listing, if it has one.
pub open spec fn newest(response: Response) -> Option<Seq<char>> {
    if response.versions@.len() > 0 {
        Some(response.versions@[0].num@)
    } else {
        None
    }
}

impl Registry for Crates {
    type Response = Response;

    fn name() -> (name: String)
        ensures
            name@ == "crates"@,
    {
        "crates".to_owned()
    }

    fn request<T>(http_client: GenericHttpClient<T>, pkg: &Package) -> (request: Request<T>)
        ensures
            request@ == (RequestView { url: versions_url(pkg@), ..http_client@ }),
            request.client == http_client.backend(),
    {
        let url = endpoint(get_base_url().as_str(), pkg, "/versions");
        http_client.get(url.as_str())
    }

    fn get_latest_version(fetched: Fetched<Response>) -> (r: Result<Option<String>, TransportError>)
        ensures
            match fetched.body() {
                Some(response) => r matches Ok(latest) && option_text(latest) == newest(response),
                None => r matches Err(e) && e@ == fetched.failure(),
            },
    {
        let response = fetched.settle()?;
        if response.versions.len() > 0 {
            Ok(Some(response.versions[0].num.clone()))
        } else {
            Ok(None)
        }
    }
}

} // verus!
