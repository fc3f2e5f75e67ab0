//! The protocol of the licensing service: which request each operation
//! sends, and what the client makes of each reply.
//!
//! No failure of the network or of the service is an error here. Whatever
//! comes back, a reply is read into a result that says what happened.

use crate::config::{LicenseOptions, LicenseOptionsView};
use crate::http::{field_view, fields_view, Field, FieldView, HttpMethod, HttpReply, HttpRequest, HttpRequestView, is_success, status_is_success};
use crate::identity::{Host, MachineIdentity, MachineIdentityView};
use crate::text::{concat, text_eq};
use crate::types::{text_view, CheckoutResult, CheckoutResultView, LicenseResult, LicenseResultView, ProductTier, ProductTierView};
use vstd::prelude::*;
use vstd::string::StringExecFns;

verus! {

pub const VALIDATE_PATH: &'static str = "/api/v1/validate";

pub const ACTIVATE_PATH: &'static str = "/api/v1/activate";

pub const DEACTIVATE_PATH: &'static str = "/api/v1/deactivate";

pub const TRIAL_PATH: &'static str = "/api/v1/trial";

pub const TIERS_PATH: &'static str = "/api/v1/tiers";

pub const CHECKOUT_PATH: &'static str = "/api/v1/checkout";

/// The reason given for a request that the service refused without saying
/// why.
pub const REQUEST_FAILED: &'static str = "Request failed";

/// The reason given for a checkout that the service refused without saying
/// why.
pub const CHECKOUT_FAILED: &'static str = "Checkout failed";

/// The machine name and the platform that are sent where the real one is not
/// known.
pub const UNKNOWN: &'static str = "unknown";

/// The platform that is reported for the operating system `os`, where `os`
/// is the name under which Rust knows it: Windows, macOS and Linux under
/// that name, any other as `unknown`.
pub open spec fn platform_of(os: Seq<char>) -> Seq<char> {
    if os == "windows"@ || os == "macos"@ || os == "linux"@ {
        os
    } else {
        UNKNOWN@
    }
}

/// The machine name that is sent where the caller gave none: the host name
/// where the system told it, else `unknown`.
pub open spec fn hostname_or_unknown(found: Option<Seq<char>>) -> Seq<char> {
    match found {
        Some(name) => name,
        None => UNKNOWN@,
    }
}

/// The views of a list of tiers, in order.
pub open spec fn tiers_view(tiers: Seq<ProductTier>) -> Seq<ProductTierView> {
    tiers.map_values(|t: ProductTier| t@)
}

/// The result that a reply to a validation, an activation or a trial request
/// stands for.
///
/// No answer: a failure with what the transport said. An answer that reports
/// success: the result in its body, or a failure with the reason for which
/// the body could not be read. Any other answer: a failure with the error
/// the body names, or with [`REQUEST_FAILED`] where it names none.
///
/// No result is marked as cached, whatever the body says of that: a result
/// that was read from a reply did not come from a cache.
pub open spec fn license_result_of(reply: HttpReply<LicenseResult>) -> LicenseResultView {
    match reply {
        HttpReply::Failed { message } => LicenseResultView::failure(message@),
        HttpReply::Answered { status, payload, error } => if is_success(status) {
            match payload {
                Ok(result) => LicenseResultView { cached: false, ..result@ },
                Err(reason) => LicenseResultView::failure(reason@),
            }
        } else {
            match error {
                Some(text) => LicenseResultView::failure(text@),
                None => LicenseResultView::failure(REQUEST_FAILED@),
            }
        },
    }
}

/// The result that a reply to a checkout request stands for.
///
/// As for [`license_result_of`], but a result that was read from an answer
/// that reports success is marked as a success whatever its body says of
/// that, and the reason given where the service names none is
/// [`CHECKOUT_FAILED`].
pub open spec fn checkout_result_of(reply: HttpReply<CheckoutResult>) -> CheckoutResultView {
    match reply {
        HttpReply::Failed { message } => CheckoutResultView::failure(message@),
        HttpReply::Answered { status, payload, error } => if is_success(status) {
            match payload {
                Ok(result) => CheckoutResultView { success: true, ..result@ },
                Err(reason) => CheckoutResultView::failure(reason@),
            }
        } else {
            match error {
                Some(text) => CheckoutResultView::failure(text@),
                None => CheckoutResultView::failure(CHECKOUT_FAILED@),
            }
        },
    }
}

/// The tiers that a reply to a request for the tiers stands for: those in
/// the body of an answer that reports success, and none in every other case.
pub open spec fn tiers_of(reply: HttpReply<Vec<ProductTier>>) -> Seq<ProductTierView> {
    match reply {
        HttpReply::Answered { status, payload: Ok(tiers), .. } if is_success(status) => tiers_view(
            tiers@,
        ),
        _ => Seq::empty(),
    }
}

/// `hostname::get`: the host name of the system, with what is not Unicode in
/// it replaced, or `None` where the system does not tell it. Nothing is
/// claimed of the name: it is whatever the system says at the time.
#[verifier::external_body]
fn system_hostname() -> Option<String> {
    hostname::get().ok().map(|name| name.to_string_lossy().into_owned())
}

/// What identifies the product and the machine to the service.
#[derive(Debug)]
pub struct Transport {
    base_url: String,
    public_key: String,
    product_slug: String,
    debug: bool,
    machine: MachineIdentity,
    platform: String,
}

pub struct TransportView {
    /// Where the service is reached.
    pub base_url: Seq<char>,
    pub public_key: Seq<char>,
    pub product_slug: Seq<char>,
    pub debug: bool,
    pub machine: MachineIdentityView,
    /// The platform as it is reported to the service.
    pub platform: Seq<char>,
}

impl TransportView {
    /// Whether this is a transport that [`Transport::new`] may make of
    /// `options` on `host`: it holds the address and the credentials of the
    /// options, the platform of the host, and an identity that is read from
    /// the host's identity file or, where there is none, a new one.
    pub open spec fn made_for(self, options: LicenseOptionsView, host: Host) -> bool {
        &&& self.base_url == options.api_base_url
        &&& self.public_key == options.public_key
        &&& self.product_slug == options.product_slug
        &&& self.debug == options.debug
        &&& self.platform == platform_of(host.os@)
        &&& self.machine.resolves(text_view(host.stored_machine_id))
    }

    /// The headers that every request carries: the type of the body, and the
    /// two credentials of the product.
    pub open spec fn headers(self) -> Seq<FieldView> {
        seq![
            field_view("Content-Type"@, "application/json"@),
            field_view("X-Public-Key"@, self.public_key),
            field_view("X-Product-Slug"@, self.product_slug),
        ]
    }

    /// The POST request to `path` with the JSON object `body`.
    pub open spec fn post(self, path: Seq<char>, body: Seq<FieldView>) -> HttpRequestView {
        HttpRequestView {
            method: HttpMethod::Post,
            url: self.base_url + path,
            headers: self.headers(),
            body: Some(body),
        }
    }

    /// The GET request to `path`.
    pub open spec fn get(self, path: Seq<char>) -> HttpRequestView {
        HttpRequestView {
            method: HttpMethod::Get,
            url: self.base_url + path,
            headers: self.headers(),
            body: None,
        }
    }

    /// The request that validates `license_key` for this machine.
    pub open spec fn validate(self, license_key: Seq<char>) -> HttpRequestView {
        self.post(
            VALIDATE_PATH@,
            seq![field_view("licenseKey"@, license_key), field_view("machineId"@, self.machine.id)],
        )
    }

    /// The request that activates `license_key` on this machine under the
    /// name `machine_name`.
    pub open spec fn activate(self, license_key: Seq<char>, machine_name: Seq<char>) -> HttpRequestView {
        self.post(
            ACTIVATE_PATH@,
            seq![
                field_view("licenseKey"@, license_key),
                field_view("machineId"@, self.machine.id),
                field_view("machineName"@, machine_name),
                field_view("platform"@, self.platform),
            ],
        )
    }

    /// The request that releases `license_key` from this machine.
    pub open spec fn deactivate(self, license_key: Seq<char>) -> HttpRequestView {
        self.post(
            DEACTIVATE_PATH@,
            seq![field_view("licenseKey"@, license_key), field_view("machineId"@, self.machine.id)],
        )
    }

    /// The request that starts a trial for `email` on this machine.
    pub open spec fn start_trial(self, email: Seq<char>) -> HttpRequestView {
        self.post(
            TRIAL_PATH@,
            seq![field_view("email"@, email), field_view("machineId"@, self.machine.id)],
        )
    }

    /// The request for the tiers of the product.
    pub open spec fn get_tiers(self) -> HttpRequestView {
        self.get(TIERS_PATH@)
    }

    /// The request that opens a checkout of the tier `tier_id` for `email`.
    pub open spec fn start_checkout(self, tier_id: Seq<char>, email: Seq<char>) -> HttpRequestView {
        self.post(CHECKOUT_PATH@, seq![field_view("tierId"@, tier_id), field_view("email"@, email)])
    }
}

impl View for Transport {
    type V = TransportView;

    closed spec fn view(&self) -> TransportView {
        TransportView {
            base_url: self.base_url@,
            public_key: self.public_key@,
            product_slug: self.product_slug@,
            debug: self.debug,
            machine: self.machine@,
            platform: self.platform@,
        }
    }
}

impl Transport {
    /// The transport for the product that `options` names, on the machine
    /// that `host` describes. The machine's identity is read from what the
    /// identity file holds, or made anew where there is no such file.
    pub fn new(options: &LicenseOptions, host: &Host) -> (transport: Self)
        ensures
            transport@.made_for(options@, *host),
    {
        let machine = match &host.stored_machine_id {
            Some(text) => MachineIdentity::get_or_create(Some(text.as_str())),
            None => MachineIdentity::get_or_create(None),
        };
        Transport {
            base_url: options.api_base_url.clone(),
            public_key: options.public_key.clone(),
            product_slug: options.product_slug.clone(),
            debug: options.debug,
            machine,
            platform: Self::get_platform(host.os.as_str()).to_owned(),
        }
    }

    /// The identity of this machine.
    pub fn machine_id(&self) -> (id: &str)
        ensures
            id@ == self@.machine.id,
    {
        self.machine.id.as_str()
    }

    /// Whether the identity of this machine was made when this transport was
    /// made, and so is still to be written to the identity file.
    pub fn machine_id_is_new(&self) -> (is_new: bool)
        ensures
            is_new == self@.machine.is_new,
    {
        self.machine.is_new
    }

    /// Whether the embedding should log what is sent and received.
    pub fn debug(&self) -> (debug: bool)
        ensures
            debug == self@.debug,
    {
        self.debug
    }

    /// The platform that is reported for the operating system `os`.
    pub fn get_platform(os: &str) -> (platform: &'static str)
        ensures
            platform@ == platform_of(os@),
    {
        if text_eq(os, "windows") {
            "windows"
        } else if text_eq(os, "macos") {
            "macos"
        } else if text_eq(os, "linux") {
            "linux"
        } else {
            UNKNOWN
        }
    }

    /// The machine name to send where the caller gave none, given the host
    /// name that was found.
    pub fn machine_name_or_unknown(found: Option<String>) -> (name: String)
        ensures
            name@ == hostname_or_unknown(
                match found {
                    Some(text) => Some(text@),
                    None => None,
                },
            ),
    {
        match found {
            Some(name) => name,
            None => String::from_str(UNKNOWN),
        }
    }

    /// The host name of this machine, or `unknown`.
    fn get_hostname() -> String {
        Self::machine_name_or_unknown(system_hostname())
    }

    /// The three headers that every request carries.
    fn headers(&self) -> (headers: Vec<Field>)
        ensures
            fields_view(headers@) == self@.headers(),
    {
        let mut headers: Vec<Field> = Vec::new();
        headers.push(Field::new("Content-Type", "application/json"));
        headers.push(Field::new("X-Public-Key", self.public_key.as_str()));
        headers.push(Field::new("X-Product-Slug", self.product_slug.as_str()));
        assert(fields_view(headers@) =~= self@.headers());
        headers
    }

    /// The POST request to `path` of the service, with the JSON object
    /// `body`.
    pub fn post(&self, path: &str, body: Vec<Field>) -> (request: HttpRequest)
        ensures
            request@ == self@.post(path@, fields_view(body@)),
    {
        HttpRequest {
            method: HttpMethod::Post,
            url: concat(self.base_url.as_str(), path),
            headers: self.headers(),
            body: Some(body),
        }
    }

    /// The request that validates `license_key` for this machine.
    pub fn validate(&self, license_key: &str) -> (request: HttpRequest)
        ensures
            request@ == self@.validate(license_key@),
    {
        let mut body: Vec<Field> = Vec::new();
        body.push(Field::new("licenseKey", license_key));
        body.push(Field::new("machineId", self.machine.id.as_str()));
        assert(fields_view(body@) =~= seq![
            field_view("licenseKey"@, license_key@),
            field_view("machineId"@, self@.machine.id),
        ]);
        self.post(VALIDATE_PATH, body)
    }

    /// The request that activates `license_key` on this machine.
    ///
    /// The machine is named `machine_name` where one is given. Where none
    /// is, it is named by its host name, or `unknown` where the system does
    /// not tell it; the contract then leaves the name open.
    pub fn activate(&self, license_key: &str, machine_name: Option<&str>) -> (request: HttpRequest)
        ensures
            match machine_name {
                Some(name) => request@ == self@.activate(license_key@, name@),
                None => exists|name: Seq<char>| request@ == self@.activate(license_key@, name),
            },
    {
        match machine_name {
            Some(name) => self.activate_as(license_key, name),
            None => {
                let name = Self::get_hostname();
                self.activate_as(license_key, name.as_str())
            },
        }
    }

    /// The request that activates `license_key` on this machine under the
    /// name `machine_name`.
    pub fn activate_as(&self, license_key: &str, machine_name: &str) -> (request: HttpRequest)
        ensures
            request@ == self@.activate(license_key@, machine_name@),
    {
        let mut body: Vec<Field> = Vec::new();
        body.push(Field::new("licenseKey", license_key));
        body.push(Field::new("machineId", self.machine.id.as_str()));
        body.push(Field::new("machineName", machine_name));
        body.push(Field::new("platform", self.platform.as_str()));
        assert(fields_view(body@) =~= seq![
            field_view("licenseKey"@, license_key@),
            field_view("machineId"@, self@.machine.id),
            field_view("machineName"@, machine_name@),
            field_view("platform"@, self@.platform),
        ]);
        self.post(ACTIVATE_PATH, body)
    }

    /// The request that releases `license_key` from this machine.
    pub fn deactivate(&self, license_key: &str) -> (request: HttpRequest)
        ensures
            request@ == self@.deactivate(license_key@),
    {
        let mut body: Vec<Field> = Vec::new();
        body.push(Field::new("licenseKey", license_key));
        body.push(Field::new("machineId", self.machine.id.as_str()));
        assert(fields_view(body@) =~= seq![
            field_view("licenseKey"@, license_key@),
            field_view("machineId"@, self@.machine.id),
        ]);
        self.post(DEACTIVATE_PATH, body)
    }

    /// The request that starts a trial for `email` on this machine.
    pub fn start_trial(&self, email: &str) -> (request: HttpRequest)
        ensures
            request@ == self@.start_trial(email@),
    {
        let mut body: Vec<Field> = Vec::new();
        body.push(Field::new("email", email));
        body.push(Field::new("machineId", self.machine.id.as_str()));
        assert(fields_view(body@) =~= seq![
            field_view("email"@, email@),
            field_view("machineId"@, self@.machine.id),
        ]);
        self.post(TRIAL_PATH, body)
    }

    /// The request for the tiers of the product.
    pub fn get_tiers(&self) -> (request: HttpRequest)
        ensures
            request@ == self@.get_tiers(),
    {
        HttpRequest {
            method: HttpMethod::Get,
            url: concat(self.base_url.as_str(), TIERS_PATH),
            headers: self.headers(),
            body: None,
        }
    }

    /// The request that opens a checkout of the tier `tier_id` for `email`.
    pub fn start_checkout(&self, tier_id: &str, email: &str) -> (request: HttpRequest)
        ensures
            request@ == self@.start_checkout(tier_id@, email@),
    {
        let mut body: Vec<Field> = Vec::new();
        body.push(Field::new("tierId", tier_id));
        body.push(Field::new("email", email));
        assert(fields_view(body@) =~= seq![
            field_view("tierId"@, tier_id@),
            field_view("email"@, email@),
        ]);
        self.post(CHECKOUT_PATH, body)
    }

    /// The result that a reply to a validation, an activation or a trial
    /// request stands for.
    pub fn read_license_result(reply: HttpReply<LicenseResult>) -> (result: LicenseResult)
        ensures
            result@ == license_result_of(reply),
    {
        match reply {
            HttpReply::Failed { message } => LicenseResult::failure(message),
            HttpReply::Answered { status, payload, error } => {
                if status_is_success(status) {
                    match payload {
                        Ok(result) => {
                            let mut result = result;
                            result.cached = false;
                            result
                        },
                        Err(reason) => LicenseResult::failure(reason),
                    }
                } else {
                    match error {
                        Some(text) => LicenseResult::failure(text),
                        None => LicenseResult::failure(String::from_str(REQUEST_FAILED)),
                    }
                }
            },
        }
    }

    /// Whether a reply to a deactivation request says that the license was
    /// released: the service answered, with a status that reports success.
    pub fn read_deactivated<T>(reply: &HttpReply<T>) -> (released: bool)
        ensures
            released == reply.succeeded(),
    {
        reply.is_success()
    }

    /// The tiers that a reply to a request for the tiers stands for.
    pub fn read_tiers(reply: HttpReply<Vec<ProductTier>>) -> (tiers: Vec<ProductTier>)
        ensures
            tiers_view(tiers@) == tiers_of(reply),
    {
        match reply {
            HttpReply::Answered { status, payload, .. } => {
                if status_is_success(status) {
                    match payload {
                        Ok(tiers) => tiers,
                        Err(_) => Self::no_tiers(),
                    }
                } else {
                    Self::no_tiers()
                }
            },
            HttpReply::Failed { .. } => Self::no_tiers(),
        }
    }

    /// The empty list of tiers.
    fn no_tiers() -> (tiers: Vec<ProductTier>)
        ensures
            tiers_view(tiers@) == Seq::<ProductTierView>::empty(),
    {
        let tiers: Vec<ProductTier> = Vec::new();
        assert(tiers_view(tiers@) =~= Seq::<ProductTierView>::empty());
        tiers
    }

    /// The result that a reply to a checkout request stands for.
    pub fn read_checkout_result(reply: HttpReply<CheckoutResult>) -> (result: CheckoutResult)
        ensures
            result@ == checkout_result_of(reply),
    {
        match reply {
            HttpReply::Failed { message } => CheckoutResult::failure(message),
            HttpReply::Answered { status, payload, error } => {
                if status_is_success(status) {
                    match payload {
                        Ok(result) => {
                            let mut result = result;
                            result.success = true;
                            result
                        },
                        Err(reason) => CheckoutResult::failure(reason),
                    }
                } else {
                    match error {
                        Some(text) => CheckoutResult::failure(text),
                        None => CheckoutResult::failure(String::from_str(CHECKOUT_FAILED)),
                    }
                }
            },
        }
    }
}

/// No reply gives a result that is marked as cached: not a failure that the
/// client made up, and not a result that the service sent, whatever its body
/// says.
pub proof fn lemma_results_are_never_cached(reply: HttpReply<LicenseResult>)
    ensures
        !license_result_of(reply).cached,
{
}

/// Every request is framed alike: it goes to an address under the base
/// address of the service and carries the same three headers, the type of
/// the body and the two credentials of the product. Only the request for the
/// tiers is a GET and has no body; every other is a POST with a JSON object.
pub proof fn lemma_requests_are_framed_alike(
    transport: TransportView,
    license_key: Seq<char>,
    machine_name: Seq<char>,
    email: Seq<char>,
    tier_id: Seq<char>,
)
    ensures
        forall|request: HttpRequestView|
            #![trigger request.headers]
            request == transport.validate(license_key) || request == transport.activate(
                license_key,
                machine_name,
            ) || request == transport.deactivate(license_key) || request == transport.start_trial(email)
                || request == transport.start_checkout(tier_id, email) ==> {
                &&& request.method == HttpMethod::Post
                &&& request.headers == transport.headers()
                &&& request.body is Some
                &&& transport.base_url.is_prefix_of(request.url)
            },
        transport.get_tiers().method == HttpMethod::Get,
        transport.get_tiers().headers == transport.headers(),
        transport.get_tiers().body is None,
        transport.base_url.is_prefix_of(transport.get_tiers().url),
        transport.headers().len() == 3,
        transport.headers()[1] == field_view("X-Public-Key"@, transport.public_key),
        transport.headers()[2] == field_view("X-Product-Slug"@, transport.product_slug),
{
    assert forall|path: Seq<char>| transport.base_url.is_prefix_of(#[trigger] (transport.base_url + path)) by {
        assert((transport.base_url + path).subrange(0, transport.base_url.len() as int) =~= transport.base_url);
    }
}

} // verus!
