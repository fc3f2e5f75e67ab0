//! A client for the IronLicensing service that does no I/O of its own.
//!
//! The crate holds what a licensing client decides: which request each
//! operation sends, what each reply means, which license is held on this
//! machine after each operation, and what that license entitles the
//! application to. Sending requests, reading and writing the file that holds
//! the machine's identity, and sharing one client between threads are left
//! to the embedding, which hands the crate plain values and gets plain
//! values back.
//!
//! [`LicenseClient`] is the client. [`GlobalRegistry`] is the slot for one
//! client that a whole process shares; the functions of this module work on
//! the client in such a slot.

pub mod client;
pub mod config;
pub mod error;
pub mod http;
pub mod identity;
pub mod text;
pub mod transport;
pub mod types;

pub use crate::client::{LicenseClient, LicenseClientView};
pub use crate::config::{LicenseOptions, LicenseOptionsView};
pub use crate::error::{LicenseError, LicenseErrorView, Result};
pub use crate::http::{Field, HttpMethod, HttpReply, HttpRequest};
pub use crate::identity::{Host, MachineIdentity};
pub use crate::transport::Transport;
pub use crate::types::{Activation, CheckoutResult, Feature, License, LicenseResult, LicenseStatus, LicenseType, Metadata, ProductTier};

use crate::client::{feature_view, missing_credential};
use crate::transport::{checkout_result_of, license_result_of, tiers_of, tiers_view};
use crate::types::license_view;
use vstd::prelude::*;
use vstd::string::StringExecFns;

verus! {

/// The reason given for setting up the shared client a second time.
pub const ALREADY_INITIALIZED: &'static str = "Client already initialized";

/// The slot for the one client that a process shares. It is empty until the
/// client is set up, and is set up at most once.
#[derive(Debug)]
pub struct GlobalRegistry {
    client: Option<LicenseClient>,
}

impl View for GlobalRegistry {
    type V = Option<LicenseClientView>;

    closed spec fn view(&self) -> Option<LicenseClientView> {
        match self.client {
            Some(client) => Some(client@),
            None => None,
        }
    }
}

impl GlobalRegistry {
    /// The empty slot.
    pub fn new() -> (registry: Self)
        ensures
            registry@ is None,
    {
        GlobalRegistry { client: None }
    }
}

/// Whether `done` and `after` are what setting up the shared client with
/// `options` on `host` gives where the slot held `before`.
///
/// Options that lack a credential fail with the error that names it. Valid
/// options fail where a client is set up already. In both cases the slot is
/// unchanged. Else the slot holds a new client made of the options.
pub open spec fn init_outcome(
    before: Option<LicenseClientView>,
    after: Option<LicenseClientView>,
    options: LicenseOptionsView,
    host: Host,
    done: Result<()>,
) -> bool {
    match missing_credential(options) {
        Some(missing) => done matches Err(error) && error@ == missing && after == before,
        None => match before {
            Some(_) => done matches Err(error) && error@ == LicenseErrorView::Api(ALREADY_INITIALIZED@)
                && after == before,
            None => after matches Some(client) && client.made_for(options, host) && done is Ok,
        },
    }
}

/// Sets up the shared client with the default options for the product with
/// the given credentials.
pub fn init(registry: &mut GlobalRegistry, public_key: &str, product_slug: &str, host: &Host) -> (done: Result<()>)
    ensures
        init_outcome(
            old(registry)@,
            final(registry)@,
            LicenseOptionsView::for_product(public_key@, product_slug@),
            *host,
            done,
        ),
{
    init_with_options(registry, LicenseOptions::new(public_key, product_slug), host)
}

/// Sets up the shared client with `options`.
pub fn init_with_options(registry: &mut GlobalRegistry, options: LicenseOptions, host: &Host) -> (done: Result<()>)
    ensures
        init_outcome(old(registry)@, final(registry)@, options@, *host, done),
{
    let client = match LicenseClient::new(options, host) {
        Ok(client) => client,
        Err(error) => {
            return Err(error);
        },
    };
    if registry.client.is_some() {
        return Err(LicenseError::Api(String::from_str(ALREADY_INITIALIZED)));
    }
    registry.client = Some(client);
    Ok(())
}

/// The shared client, or the error that says it was not set up.
pub fn get_client(registry: &GlobalRegistry) -> (found: Result<&LicenseClient>)
    ensures
        match registry@ {
            Some(client) => found matches Ok(shared) && shared@ == client,
            None => found matches Err(error) && error@ == LicenseErrorView::NotInitialized,
        },
{
    match &registry.client {
        Some(client) => Ok(client),
        None => Err(LicenseError::NotInitialized),
    }
}

/// [`LicenseClient::validate`] on the shared client.
pub fn validate(registry: &mut GlobalRegistry, license_key: &str, reply: HttpReply<LicenseResult>) -> (done: Result<
    LicenseResult,
>)
    ensures
        match old(registry)@ {
            Some(client) => done matches Ok(result) && result@ == license_result_of(reply)
                && final(registry)@ == Some(client.accept(license_key@, result@)),
            None => done matches Err(error) && error@ == LicenseErrorView::NotInitialized
                && final(registry)@ is None,
        },
{
    match &mut registry.client {
        Some(client) => Ok(client.validate(license_key, reply)),
        None => Err(LicenseError::NotInitialized),
    }
}

/// [`LicenseClient::activate`] on the shared client.
pub fn activate(registry: &mut GlobalRegistry, license_key: &str, reply: HttpReply<LicenseResult>) -> (done: Result<
    LicenseResult,
>)
    ensures
        match old(registry)@ {
            Some(client) => done matches Ok(result) && result@ == license_result_of(reply)
                && final(registry)@ == Some(client.accept(license_key@, result@)),
            None => done matches Err(error) && error@ == LicenseErrorView::NotInitialized
                && final(registry)@ is None,
        },
{
    match &mut registry.client {
        Some(client) => Ok(client.activate(license_key, reply)),
        None => Err(LicenseError::NotInitialized),
    }
}

/// [`LicenseClient::activate_with_name`] on the shared client.
pub fn activate_with_name(
    registry: &mut GlobalRegistry,
    license_key: &str,
    reply: HttpReply<LicenseResult>,
) -> (done: Result<LicenseResult>)
    ensures
        match old(registry)@ {
            Some(client) => done matches Ok(result) && result@ == license_result_of(reply)
                && final(registry)@ == Some(client.accept(license_key@, result@)),
            None => done matches Err(error) && error@ == LicenseErrorView::NotInitialized
                && final(registry)@ is None,
        },
{
    match &mut registry.client {
        Some(client) => Ok(client.activate_with_name(license_key, reply)),
        None => Err(LicenseError::NotInitialized),
    }
}

/// [`LicenseClient::deactivate`] on the shared client.
pub fn deactivate<T>(registry: &mut GlobalRegistry, reply: Option<HttpReply<T>>) -> (done: Result<bool>)
    ensures
        match old(registry)@ {
            Some(client) => done == Ok::<bool, LicenseError>(client.releases(reply)) && final(registry)@
                == Some(client.deactivate(reply)),
            None => done matches Err(error) && error@ == LicenseErrorView::NotInitialized
                && final(registry)@ is None,
        },
{
    match &mut registry.client {
        Some(client) => Ok(client.deactivate(reply)),
        None => Err(LicenseError::NotInitialized),
    }
}

/// [`LicenseClient::start_trial`] on the shared client.
pub fn start_trial(registry: &mut GlobalRegistry, reply: HttpReply<LicenseResult>) -> (done: Result<LicenseResult>)
    ensures
        match old(registry)@ {
            Some(client) => done matches Ok(result) && result@ == license_result_of(reply)
                && final(registry)@ == Some(client.accept_trial(result@)),
            None => done matches Err(error) && error@ == LicenseErrorView::NotInitialized
                && final(registry)@ is None,
        },
{
    match &mut registry.client {
        Some(client) => Ok(client.start_trial(reply)),
        None => Err(LicenseError::NotInitialized),
    }
}

/// [`LicenseClient::has_feature`] on the shared client.
pub fn has_feature(registry: &GlobalRegistry, feature_key: &str) -> (done: Result<bool>)
    ensures
        match registry@ {
            Some(client) => done == Ok::<bool, LicenseError>(client.has_feature(feature_key@)),
            None => done matches Err(error) && error@ == LicenseErrorView::NotInitialized,
        },
{
    match &registry.client {
        Some(client) => Ok(client.has_feature(feature_key)),
        None => Err(LicenseError::NotInitialized),
    }
}

/// [`LicenseClient::require_feature`] on the shared client: succeeds where
/// the client is set up and the feature is available.
pub fn require_feature(registry: &GlobalRegistry, feature_key: &str) -> (done: Result<()>)
    ensures
        match registry@ {
            Some(client) => match done {
                Ok(_) => client.has_feature(feature_key@),
                Err(error) => !client.has_feature(feature_key@) && error@
                    == LicenseErrorView::FeatureRequired(feature_key@),
            },
            None => done matches Err(error) && error@ == LicenseErrorView::NotInitialized,
        },
{
    match &registry.client {
        Some(client) => client.require_feature(feature_key),
        None => Err(LicenseError::NotInitialized),
    }
}

/// [`LicenseClient::get_feature`] on the shared client.
pub fn get_feature(registry: &GlobalRegistry, feature_key: &str) -> (done: Result<Option<Feature>>)
    ensures
        match registry@ {
            Some(client) => done matches Ok(found) && feature_view(found) == client.get_feature(
                feature_key@,
            ),
            None => done matches Err(error) && error@ == LicenseErrorView::NotInitialized,
        },
{
    match &registry.client {
        Some(client) => Ok(client.get_feature(feature_key)),
        None => Err(LicenseError::NotInitialized),
    }
}

/// [`LicenseClient::license`] on the shared client.
pub fn license(registry: &GlobalRegistry) -> (done: Result<Option<License>>)
    ensures
        match registry@ {
            Some(client) => done matches Ok(held) && license_view(held) == client.license(),
            None => done matches Err(error) && error@ == LicenseErrorView::NotInitialized,
        },
{
    match &registry.client {
        Some(client) => Ok(client.license()),
        None => Err(LicenseError::NotInitialized),
    }
}

/// [`LicenseClient::status`] on the shared client.
pub fn status(registry: &GlobalRegistry) -> (done: Result<LicenseStatus>)
    ensures
        match registry@ {
            Some(client) => done == Ok::<LicenseStatus, LicenseError>(client.status()),
            None => done matches Err(error) && error@ == LicenseErrorView::NotInitialized,
        },
{
    match &registry.client {
        Some(client) => Ok(client.status()),
        None => Err(LicenseError::NotInitialized),
    }
}

/// [`LicenseClient::is_licensed`] on the shared client.
pub fn is_licensed(registry: &GlobalRegistry) -> (done: Result<bool>)
    ensures
        match registry@ {
            Some(client) => done == Ok::<bool, LicenseError>(client.is_licensed()),
            None => done matches Err(error) && error@ == LicenseErrorView::NotInitialized,
        },
{
    match &registry.client {
        Some(client) => Ok(client.is_licensed()),
        None => Err(LicenseError::NotInitialized),
    }
}

/// [`LicenseClient::is_trial`] on the shared client.
pub fn is_trial(registry: &GlobalRegistry) -> (done: Result<bool>)
    ensures
        match registry@ {
            Some(client) => done == Ok::<bool, LicenseError>(client.is_trial()),
            None => done matches Err(error) && error@ == LicenseErrorView::NotInitialized,
        },
{
    match &registry.client {
        Some(client) => Ok(client.is_trial()),
        None => Err(LicenseError::NotInitialized),
    }
}

/// [`LicenseClient::get_tiers`] on the shared client.
pub fn get_tiers(registry: &GlobalRegistry, reply: HttpReply<Vec<ProductTier>>) -> (done: Result<Vec<ProductTier>>)
    ensures
        match registry@ {
            Some(_) => done matches Ok(tiers) && tiers_view(tiers@) == tiers_of(reply),
            None => done matches Err(error) && error@ == LicenseErrorView::NotInitialized,
        },
{
    match &registry.client {
        Some(client) => Ok(client.get_tiers(reply)),
        None => Err(LicenseError::NotInitialized),
    }
}

/// [`LicenseClient::start_purchase`] on the shared client.
pub fn start_purchase(registry: &GlobalRegistry, reply: HttpReply<CheckoutResult>) -> (done: Result<CheckoutResult>)
    ensures
        match registry@ {
            Some(_) => done matches Ok(result) && result@ == checkout_result_of(reply),
            None => done matches Err(error) && error@ == LicenseErrorView::NotInitialized,
        },
{
    match &registry.client {
        Some(client) => Ok(client.start_purchase(reply)),
        None => Err(LicenseError::NotInitialized),
    }
}

/// Once set up, the slot stays set up, and no second set-up replaces the
/// client in it: every outcome of setting up a slot that holds a client is
/// an error that leaves the slot as it was.
pub proof fn lemma_set_up_at_most_once(
    before: Option<LicenseClientView>,
    after: Option<LicenseClientView>,
    options: LicenseOptionsView,
    host: Host,
    done: Result<()>,
)
    requires
        before is Some,
        init_outcome(before, after, options, host, done),
    ensures
        done is Err,
        after == before,
{
}

} // verus!
