//! The client: the license held on this machine, and the operations that
//! change it and ask about it.
//!
//! The client holds either nothing or one license together with the key it
//! was obtained under. Each operation that talks to the service comes in two
//! halves. The first, named `.._request`, says which request is to be sent.
//! The second takes the reply and, where the reply warrants it, replaces what
//! is held. Between the two the embedding sends the request; the client is
//! not borrowed meanwhile, so questions about the license can go on being
//! answered from what is held.

use crate::config::{LicenseOptions, LicenseOptionsView};
use crate::error::{LicenseError, LicenseErrorView, Result};
use crate::http::{HttpReply, HttpRequest, HttpRequestView};
use crate::identity::Host;
use crate::transport::{checkout_result_of, license_result_of, tiers_of, tiers_view, Transport, TransportView};
use crate::types::{license_view, CheckoutResult, Feature, FeatureView, License, LicenseResult, LicenseResultView, LicenseStatus, LicenseView, ProductTier};
use vstd::prelude::*;

verus! {

/// A license with the key it was obtained under.
#[derive(Debug)]
struct HeldLicense {
    license: License,
    key: String,
}

pub struct HeldLicenseView {
    pub license: LicenseView,
    pub key: Seq<char>,
}

/// The client of the licensing service for one product on one machine.
#[derive(Debug)]
pub struct LicenseClient {
    options: LicenseOptions,
    transport: Transport,
    held: Option<HeldLicense>,
}

/// The client as the contracts see it.
pub struct LicenseClientView {
    pub options: LicenseOptionsView,
    pub transport: TransportView,
    /// The license that is held, with its key; `None` where none is held.
    pub held: Option<HeldLicenseView>,
}

/// The credential that `options` lacks: the public key where that is empty,
/// else the product slug where that is empty, else none.
pub open spec fn missing_credential(options: LicenseOptionsView) -> Option<LicenseErrorView> {
    if options.public_key.len() == 0 {
        Some(LicenseErrorView::PublicKeyRequired)
    } else if options.product_slug.len() == 0 {
        Some(LicenseErrorView::ProductSlugRequired)
    } else {
        None
    }
}

/// The view of an optional feature.
pub open spec fn feature_view(feature: Option<Feature>) -> Option<FeatureView> {
    match feature {
        Some(f) => Some(f@),
        None => None,
    }
}

impl LicenseClientView {
    /// Whether this is a client that [`LicenseClient::new`] may make of
    /// `options` on `host`: it has those options, a transport made for them,
    /// and holds no license.
    pub open spec fn made_for(self, options: LicenseOptionsView, host: Host) -> bool {
        &&& self.options == options
        &&& self.transport.made_for(options, host)
        &&& self.held is None
    }

    /// The license that is held.
    pub open spec fn license(self) -> Option<LicenseView> {
        match self.held {
            Some(held) => Some(held.license),
            None => None,
        }
    }

    /// The key under which the held license was obtained.
    pub open spec fn license_key(self) -> Option<Seq<char>> {
        match self.held {
            Some(held) => Some(held.key),
            None => None,
        }
    }

    /// The status of the held license; not activated where none is held.
    pub open spec fn status(self) -> LicenseStatus {
        match self.held {
            Some(held) => held.license.status,
            None => LicenseStatus::NotActivated,
        }
    }

    /// Whether the application may run: a license is held whose status is
    /// valid or trial.
    pub open spec fn is_licensed(self) -> bool {
        self.status().grants_use()
    }

    /// Whether a license is held that is a trial, by its status or by its
    /// type.
    pub open spec fn is_trial(self) -> bool {
        match self.held {
            Some(held) => held.license.is_trial(),
            None => false,
        }
    }

    /// Whether a license is held that has an enabled feature with the key
    /// `key`.
    pub open spec fn has_feature(self, key: Seq<char>) -> bool {
        match self.held {
            Some(held) => held.license.has_feature(key),
            None => false,
        }
    }

    /// The first feature with the key `key` of the held license.
    pub open spec fn get_feature(self, key: Seq<char>) -> Option<FeatureView> {
        match self.held {
            Some(held) => held.license.get_feature(key),
            None => None,
        }
    }

    /// The client after it has taken in `result`, which was obtained under
    /// `license_key`: it holds the license of the result with that key where
    /// the result is valid and has a license, and is unchanged else.
    pub open spec fn accept(self, license_key: Seq<char>, result: LicenseResultView) -> LicenseClientView {
        if result.updates_store() {
            LicenseClientView {
                held: Some(HeldLicenseView { license: result.license->0, key: license_key }),
                ..self
            }
        } else {
            self
        }
    }

    /// The client after it has taken in the result of a trial request: as
    /// [`Self::accept`], under the key that the license itself names.
    pub open spec fn accept_trial(self, result: LicenseResultView) -> LicenseClientView {
        match result.license {
            Some(license) => self.accept(license.key, result),
            None => self,
        }
    }

    /// The request that releases the held license from this machine; none
    /// where no license is held.
    pub open spec fn deactivate_request(self) -> Option<HttpRequestView> {
        match self.held {
            Some(held) => Some(self.transport.deactivate(held.key)),
            None => None,
        }
    }

    /// Whether a deactivation releases the held license, given the reply to
    /// its request (`None` where none was sent): a license is held, and the
    /// service answered with a status that reports success.
    pub open spec fn releases<T>(self, reply: Option<HttpReply<T>>) -> bool {
        self.held is Some && reply is Some && reply->0.succeeded()
    }

    /// The client after a deactivation with the given reply: it holds
    /// nothing where the license is released, and is unchanged else.
    pub open spec fn deactivate<T>(self, reply: Option<HttpReply<T>>) -> LicenseClientView {
        if self.releases(reply) {
            LicenseClientView { held: None, ..self }
        } else {
            self
        }
    }
}

impl View for LicenseClient {
    type V = LicenseClientView;

    closed spec fn view(&self) -> LicenseClientView {
        LicenseClientView {
            options: self.options@,
            transport: self.transport@,
            held: match self.held {
                Some(held) => Some(HeldLicenseView { license: held.license@, key: held.key@ }),
                None => None,
            },
        }
    }
}

impl LicenseClient {
    /// A client for the product that `options` names, on the machine that
    /// `host` describes.
    ///
    /// Fails where the options lack the public key or the product slug, and
    /// only then. The new client holds no license. Nothing is sent.
    pub fn new(options: LicenseOptions, host: &Host) -> (made: Result<Self>)
        ensures
            match missing_credential(options@) {
                Some(missing) => made matches Err(error) && error@ == missing,
                None => made matches Ok(client) && client@.made_for(options@, *host),
            },
    {
        if options.public_key.as_str().is_empty() {
            return Err(LicenseError::PublicKeyRequired);
        }
        if options.product_slug.as_str().is_empty() {
            return Err(LicenseError::ProductSlugRequired);
        }
        let transport = Transport::new(&options, host);
        Ok(LicenseClient { options, transport, held: None })
    }

    /// A client with the default options for the product with the given
    /// credentials.
    pub fn with_credentials(public_key: &str, product_slug: &str, host: &Host) -> (made: Result<Self>)
        ensures
            match missing_credential(LicenseOptionsView::for_product(public_key@, product_slug@)) {
                Some(missing) => made matches Err(error) && error@ == missing,
                None => made matches Ok(client) && client@.made_for(
                    LicenseOptionsView::for_product(public_key@, product_slug@),
                    *host,
                ),
            },
    {
        Self::new(LicenseOptions::new(public_key, product_slug), host)
    }

    /// The options the client was made with.
    pub fn options(&self) -> (options: &LicenseOptions)
        ensures
            options@ == self@.options,
    {
        &self.options
    }

    /// The transport the client builds its requests with.
    pub fn transport(&self) -> (transport: &Transport)
        ensures
            transport@ == self@.transport,
    {
        &self.transport
    }

    /// Takes in a result that was obtained under `license_key`.
    fn store(&mut self, license_key: String, result: &LicenseResult)
        ensures
            final(self)@ == old(self)@.accept(license_key@, result@),
    {
        if result.valid {
            match &result.license {
                Some(license) => {
                    self.held = Some(HeldLicense { license: license.clone(), key: license_key });
                },
                None => {},
            }
        }
    }

    /// The request that validates `license_key`.
    pub fn validate_request(&self, license_key: &str) -> (request: HttpRequest)
        ensures
            request@ == self@.transport.validate(license_key@),
    {
        self.transport.validate(license_key)
    }

    /// Takes in the reply to the request that validates `license_key`.
    ///
    /// Returns the result that the reply stands for. Where that result is
    /// valid and has a license, the client holds that license and the key
    /// from now on; else it holds what it held.
    pub fn validate(&mut self, license_key: &str, reply: HttpReply<LicenseResult>) -> (result: LicenseResult)
        ensures
            result@ == license_result_of(reply),
            final(self)@ == old(self)@.accept(license_key@, result@),
    {
        let result = Transport::read_license_result(reply);
        self.store(license_key.to_owned(), &result);
        result
    }

    /// The request that activates `license_key` on this machine under its
    /// host name.
    pub fn activate_request(&self, license_key: &str) -> (request: HttpRequest)
        ensures
            exists|name: Seq<char>| request@ == self@.transport.activate(license_key@, name),
    {
        self.activate_with_name_request(license_key, None)
    }

    /// Takes in the reply to the request that activates `license_key`, as
    /// [`Self::validate`] does.
    pub fn activate(&mut self, license_key: &str, reply: HttpReply<LicenseResult>) -> (result: LicenseResult)
        ensures
            result@ == license_result_of(reply),
            final(self)@ == old(self)@.accept(license_key@, result@),
    {
        self.activate_with_name(license_key, reply)
    }

    /// The request that activates `license_key` on this machine under the
    /// name `machine_name`, or under its host name where that is `None`.
    pub fn activate_with_name_request(&self, license_key: &str, machine_name: Option<&str>) -> (request:
        HttpRequest)
        ensures
            match machine_name {
                Some(name) => request@ == self@.transport.activate(license_key@, name@),
                None => exists|name: Seq<char>| request@ == self@.transport.activate(license_key@, name),
            },
    {
        self.transport.activate(license_key, machine_name)
    }

    /// Takes in the reply to the request that activates `license_key` under
    /// a name, as [`Self::validate`] does.
    pub fn activate_with_name(&mut self, license_key: &str, reply: HttpReply<LicenseResult>) -> (result:
        LicenseResult)
        ensures
            result@ == license_result_of(reply),
            final(self)@ == old(self)@.accept(license_key@, result@),
    {
        let result = Transport::read_license_result(reply);
        self.store(license_key.to_owned(), &result);
        result
    }

    /// The request that releases the held license from this machine; `None`
    /// where no license is held, and nothing is to be sent.
    pub fn deactivate_request(&self) -> (request: Option<HttpRequest>)
        ensures
            match request {
                Some(r) => self@.deactivate_request() == Some(r@),
                None => self@.deactivate_request() is None,
            },
    {
        match &self.held {
            Some(held) => Some(self.transport.deactivate(held.key.as_str())),
            None => None,
        }
    }

    /// Takes in the reply to the deactivation request; `None` where none was
    /// sent.
    ///
    /// Returns whether the license was released: one was held, and the
    /// service answered with a status that reports success. The client then
    /// holds nothing; else it holds what it held.
    pub fn deactivate<T>(&mut self, reply: Option<HttpReply<T>>) -> (released: bool)
        ensures
            released == old(self)@.releases(reply),
            final(self)@ == old(self)@.deactivate(reply),
    {
        let released = self.held.is_some() && match &reply {
            Some(r) => Transport::read_deactivated(r),
            None => false,
        };
        if released {
            self.held = None;
        }
        released
    }

    /// The request that starts a trial for `email`.
    pub fn start_trial_request(&self, email: &str) -> (request: HttpRequest)
        ensures
            request@ == self@.transport.start_trial(email@),
    {
        self.transport.start_trial(email)
    }

    /// Takes in the reply to a trial request.
    ///
    /// Returns the result that the reply stands for. Where that result is
    /// valid and has a license, the client holds that license from now on,
    /// under the key that the license names; else it holds what it held.
    pub fn start_trial(&mut self, reply: HttpReply<LicenseResult>) -> (result: LicenseResult)
        ensures
            result@ == license_result_of(reply),
            final(self)@ == old(self)@.accept_trial(result@),
    {
        let result = Transport::read_license_result(reply);
        match &result.license {
            Some(license) => {
                self.store(license.key.clone(), &result);
            },
            None => {},
        }
        result
    }

    /// Whether a license is held that has an enabled feature with the key
    /// `feature_key`.
    pub fn has_feature(&self, feature_key: &str) -> (found: bool)
        ensures
            found == self@.has_feature(feature_key@),
    {
        match &self.held {
            Some(held) => held.license.has_feature(feature_key),
            None => false,
        }
    }

    /// Succeeds where [`Self::has_feature`] holds of `feature_key`, and fails
    /// with an error that names the feature where it does not.
    pub fn require_feature(&self, feature_key: &str) -> (checked: Result<()>)
        ensures
            match checked {
                Ok(_) => self@.has_feature(feature_key@),
                Err(error) => !self@.has_feature(feature_key@) && error@
                    == LicenseErrorView::FeatureRequired(feature_key@),
            },
    {
        if !self.has_feature(feature_key) {
            return Err(LicenseError::FeatureRequired(feature_key.to_owned()));
        }
        Ok(())
    }

    /// A copy of the first feature with the key `feature_key` of the held
    /// license, enabled or not.
    pub fn get_feature(&self, feature_key: &str) -> (found: Option<Feature>)
        ensures
            feature_view(found) == self@.get_feature(feature_key@),
    {
        match &self.held {
            Some(held) => match held.license.get_feature(feature_key) {
                Some(feature) => Some(feature.clone()),
                None => None,
            },
            None => None,
        }
    }

    /// A copy of the license that is held.
    pub fn license(&self) -> (held: Option<License>)
        ensures
            license_view(held) == self@.license(),
    {
        match &self.held {
            Some(held) => Some(held.license.clone()),
            None => None,
        }
    }

    /// The status of the held license; not activated where none is held.
    pub fn status(&self) -> (status: LicenseStatus)
        ensures
            status == self@.status(),
    {
        match &self.held {
            Some(held) => held.license.status,
            None => LicenseStatus::NotActivated,
        }
    }

    /// Whether the application may run: a license is held whose status is
    /// valid or trial.
    pub fn is_licensed(&self) -> (licensed: bool)
        ensures
            licensed == self@.is_licensed(),
    {
        match self.status() {
            LicenseStatus::Valid => true,
            LicenseStatus::Trial => true,
            _ => false,
        }
    }

    /// Whether a license is held that is a trial, by its status or by its
    /// type.
    pub fn is_trial(&self) -> (trial: bool)
        ensures
            trial == self@.is_trial(),
    {
        match &self.held {
            Some(held) => held.license.status == LicenseStatus::Trial || held.license.license_type
                == crate::types::LicenseType::Trial,
            None => false,
        }
    }

    /// The request for the tiers of the product.
    pub fn get_tiers_request(&self) -> (request: HttpRequest)
        ensures
            request@ == self@.transport.get_tiers(),
    {
        self.transport.get_tiers()
    }

    /// The tiers that the reply to the request for the tiers stands for:
    /// those it lists where the service answered with success and the list
    /// could be read, and none in every other case.
    pub fn get_tiers(&self, reply: HttpReply<Vec<ProductTier>>) -> (tiers: Vec<ProductTier>)
        ensures
            tiers_view(tiers@) == tiers_of(reply),
    {
        Transport::read_tiers(reply)
    }

    /// The request that opens a checkout of the tier `tier_id` for `email`.
    pub fn start_purchase_request(&self, tier_id: &str, email: &str) -> (request: HttpRequest)
        ensures
            request@ == self@.transport.start_checkout(tier_id@, email@),
    {
        self.transport.start_checkout(tier_id, email)
    }

    /// The result that the reply to a checkout request stands for.
    pub fn start_purchase(&self, reply: HttpReply<CheckoutResult>) -> (result: CheckoutResult)
        ensures
            result@ == checkout_result_of(reply),
    {
        Transport::read_checkout_result(reply)
    }

    /// The identity of this machine, by which activations are bound to it.
    pub fn machine_id(&self) -> (id: &str)
        ensures
            id@ == self@.transport.machine.id,
    {
        self.transport.machine_id()
    }

    /// Whether the identity of this machine was made when the client was
    /// made, and so is still to be written to the identity file.
    pub fn machine_id_is_new(&self) -> (is_new: bool)
        ensures
            is_new == self@.transport.machine.is_new,
    {
        self.transport.machine_id_is_new()
    }
}

/// A client holds a license exactly when it holds a license key: at every
/// moment, whatever was done with it before.
pub proof fn lemma_license_iff_key(client: LicenseClient)
    ensures
        client@.license() is Some <==> client@.license_key() is Some,
{
}

/// No operation that takes in a reply parts a license from its key: what a
/// client holds afterwards is again a license with a key, or nothing.
pub proof fn lemma_operations_keep_license_with_key<T>(
    client: LicenseClientView,
    license_key: Seq<char>,
    result: LicenseResultView,
    reply: Option<HttpReply<T>>,
)
    ensures
        client.accept(license_key, result).license() is Some <==> client.accept(
            license_key,
            result,
        ).license_key() is Some,
        client.accept_trial(result).license() is Some <==> client.accept_trial(result).license_key() is Some,
        client.deactivate(reply).license() is Some <==> client.deactivate(reply).license_key() is Some,
{
}

/// No operation that takes in a reply changes the options, the transport or
/// the identity of the machine: what `machine_id` returns stays the same for
/// as long as the client lives.
pub proof fn lemma_operations_keep_identity<T>(
    client: LicenseClientView,
    license_key: Seq<char>,
    result: LicenseResultView,
    reply: Option<HttpReply<T>>,
)
    ensures
        client.accept(license_key, result).options == client.options,
        client.accept(license_key, result).transport == client.transport,
        client.accept_trial(result).options == client.options,
        client.accept_trial(result).transport == client.transport,
        client.deactivate(reply).options == client.options,
        client.deactivate(reply).transport == client.transport,
{
}

/// Without a license no feature is available. With one, a feature is
/// available exactly when the license lists a feature with that key that is
/// enabled.
pub proof fn lemma_has_feature(client: LicenseClientView, key: Seq<char>)
    ensures
        client.license() is None ==> !client.has_feature(key),
        client.license() matches Some(license) ==> (client.has_feature(key) <==> exists|i: int|
            0 <= i < license.features.len() && (#[trigger] license.features[i]).key == key
                && license.features[i].enabled),
{
}

/// After a result that is valid and has a license was taken in, the status
/// of the client is the status of that license, the license is the one
/// held, and the client counts as licensed exactly when that status is valid
/// or trial.
pub proof fn lemma_status_after_success(client: LicenseClientView, license_key: Seq<char>, result: LicenseResultView)
    requires
        result.updates_store(),
    ensures
        client.accept(license_key, result).license() == result.license,
        client.accept(license_key, result).license_key() == Some(license_key),
        client.accept(license_key, result).status() == result.license->0.status,
        client.accept(license_key, result).is_licensed() <==> (result.license->0.status
            == LicenseStatus::Valid || result.license->0.status == LicenseStatus::Trial),
        client.accept_trial(result).license() == result.license,
        client.accept_trial(result).license_key() == Some(result.license->0.key),
        client.accept_trial(result).status() == result.license->0.status,
        client.accept_trial(result).is_licensed() <==> (result.license->0.status == LicenseStatus::Valid
            || result.license->0.status == LicenseStatus::Trial),
{
}

/// A result that is not valid, or has no license, changes nothing.
pub proof fn lemma_failure_keeps_state(client: LicenseClientView, license_key: Seq<char>, result: LicenseResultView)
    requires
        !result.updates_store(),
    ensures
        client.accept(license_key, result) == client,
        client.accept_trial(result) == client,
{
}

/// After a deactivation that released the license, the client holds none,
/// its status is not activated, and no feature is available. After one that
/// did not, because no license was held, nothing was sent or the service did
/// not answer with success, the client is as it was.
pub proof fn lemma_after_deactivate<T>(client: LicenseClientView, reply: Option<HttpReply<T>>)
    ensures
        client.releases(reply) ==> {
            &&& client.deactivate(reply).license() is None
            &&& client.deactivate(reply).license_key() is None
            &&& client.deactivate(reply).status() == LicenseStatus::NotActivated
            &&& !client.deactivate(reply).is_licensed()
            &&& forall|key: Seq<char>| !client.deactivate(reply).has_feature(key)
        },
        !client.releases(reply) ==> client.deactivate(reply) == client,
        client.held is None ==> !client.releases(reply),
        reply is None ==> !client.releases(reply),
{
}

} // verus!
