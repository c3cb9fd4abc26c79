//! The agent's configuration and the checks made on it before anything starts.
use vstd::prelude::*;

verus! {

/// Whether `http`'s URI parser accepts the text.
pub uninterp spec fn uri_accepted(s: Seq<char>) -> bool;

/// Relies on `http::Uri`'s `FromStr` impl: whether the text parses as a URI.
/// The answer depends on the text alone.
#[verifier::external_body]
pub(crate) fn is_valid_uri(s: &str) -> (r: bool)
    ensures
        r == uri_accepted(s@),
{
    s.parse::<http::Uri>().is_ok()
}

/// A configuration that cannot be used.
#[derive(Clone, Copy, Debug, PartialEq, Eq, Structural)]
pub enum ConfError {
    /// The controller's endpoint is not a URI.
    ControllerUrl,
    /// The collector's endpoint is not a URI.
    CollectorUrl,
}

/// The agent's identity in the fleet.
#[derive(Clone, Debug)]
pub struct Agent {
    pub id: u32,
}

/// Where the controller listens.
#[derive(Clone, Debug)]
pub struct Controller {
    pub url: String,
}

/// Where the collector listens.
#[derive(Clone, Debug)]
pub struct Collector {
    pub url: String,
}

/// The whole configuration file.
#[derive(Clone, Debug)]
pub struct Conf {
    pub agent: Agent,
    pub controller: Controller,
    pub collector: Collector,
}

/// The verdict on a configuration whose controller and collector endpoints
/// are, or are not, URIs; the controller's is reported first.
pub open spec fn endpoints_verdict(controller_ok: bool, collector_ok: bool) -> Result<(), ConfError> {
    if !controller_ok {
        Err(ConfError::ControllerUrl)
    } else if !collector_ok {
        Err(ConfError::CollectorUrl)
    } else {
        Ok(())
    }
}

/// Judges a configuration from whether each endpoint parsed.
pub fn check_endpoints(controller_ok: bool, collector_ok: bool) -> (r: Result<(), ConfError>)
    ensures
        r == endpoints_verdict(controller_ok, collector_ok),
{
    if !controller_ok {
        Err(ConfError::ControllerUrl)
    } else if !collector_ok {
        Err(ConfError::CollectorUrl)
    } else {
        Ok(())
    }
}

impl Conf {
    /// Checks that both endpoints are URIs.
    pub fn check(&self) -> (r: Result<(), ConfError>)
        ensures
            r == endpoints_verdict(uri_accepted(self.controller.url@), uri_accepted(self.collector.url@)),
    {
        let controller_ok = is_valid_uri(self.controller.url.as_str());
        let collector_ok = is_valid_uri(self.collector.url.as_str());
        check_endpoints(controller_ok, collector_ok)
    }
}

} // verus!
