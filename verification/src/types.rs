//! The values the licensing service hands out: licenses, their features,
//! activation records and the envelopes they travel in.
//!
//! Every type has a view that holds its text as `Seq<char>`; the contracts of
//! the crate are stated over those views.

use std::collections::HashMap;
use vstd::prelude::*;

verus! {

/// The state a license is in, as the service last reported it.
#[derive(Debug, Clone, Copy, PartialEq, Eq, Structural)]
pub enum LicenseStatus {
    Valid,
    Expired,
    Suspended,
    Revoked,
    Invalid,
    Trial,
    TrialExpired,
    /// No license is held on this machine.
    NotActivated,
    /// A state this version of the client does not know.
    Unknown,
}

impl Default for LicenseStatus {
    fn default() -> (status: Self)
        ensures
            status == LicenseStatus::NotActivated,
    {
        LicenseStatus::NotActivated
    }
}

impl LicenseStatus {
    /// Whether the status entitles the application to run: valid or trial.
    pub open spec fn grants_use(self) -> bool {
        self == LicenseStatus::Valid || self == LicenseStatus::Trial
    }
}

/// How a license was granted.
#[derive(Debug, Clone, Copy, PartialEq, Eq, Structural)]
pub enum LicenseType {
    Perpetual,
    Subscription,
    Trial,
}

impl Default for LicenseType {
    fn default() -> (license_type: Self)
        ensures
            license_type == LicenseType::Perpetual,
    {
        LicenseType::Perpetual
    }
}

/// Free-form data attached to a license or a feature. The client carries it
/// and never looks inside.
pub type Metadata = HashMap<String, serde_json::Value>;

/// `serde_json::Value`, a JSON value of any shape. Nothing is claimed of it:
/// it only travels inside [`Metadata`].
#[verifier::external_type_specification]
#[verifier::external_body]
pub struct ExJsonValue(serde_json::Value);

/// The view of an optional text.
pub open spec fn text_view(text: Option<String>) -> Option<Seq<char>> {
    match text {
        Some(t) => Some(t@),
        None => None,
    }
}

/// The view of optional metadata.
pub open spec fn metadata_view(metadata: Option<Metadata>) -> Option<Map<String, serde_json::Value>> {
    match metadata {
        Some(m) => Some(m@),
        None => None,
    }
}

/// A copy of an optional text.
pub fn clone_text(text: &Option<String>) -> (copy: Option<String>)
    ensures
        copy == *text,
{
    match text {
        Some(t) => Some(t.clone()),
        None => None,
    }
}

/// A copy of optional metadata.
pub fn clone_metadata(metadata: &Option<Metadata>) -> (copy: Option<Metadata>)
    ensures
        metadata_view(copy) == metadata_view(*metadata),
{
    match metadata {
        Some(m) => Some(m.clone()),
        None => None,
    }
}

/// A named capability that a license switches on or off.
#[derive(Debug)]
pub struct Feature {
    pub key: String,
    pub name: String,
    pub enabled: bool,
    pub description: Option<String>,
    pub metadata: Option<Metadata>,
}

pub struct FeatureView {
    pub key: Seq<char>,
    pub name: Seq<char>,
    pub enabled: bool,
    pub description: Option<Seq<char>>,
    pub metadata: Option<Map<String, serde_json::Value>>,
}

impl View for Feature {
    type V = FeatureView;

    open spec fn view(&self) -> FeatureView {
        FeatureView {
            key: self.key@,
            name: self.name@,
            enabled: self.enabled,
            description: text_view(self.description),
            metadata: metadata_view(self.metadata),
        }
    }
}

impl Clone for Feature {
    fn clone(&self) -> (copy: Self)
        ensures
            copy@ == self@,
    {
        Feature {
            key: self.key.clone(),
            name: self.name.clone(),
            enabled: self.enabled,
            description: clone_text(&self.description),
            metadata: clone_metadata(&self.metadata),
        }
    }
}

/// The views of a list of features, in order.
pub open spec fn features_view(features: Seq<Feature>) -> Seq<FeatureView> {
    features.map_values(|f: Feature| f@)
}

/// A copy of a list of features.
pub fn clone_features(features: &Vec<Feature>) -> (copy: Vec<Feature>)
    ensures
        features_view(copy@) == features_view(features@),
{
    let mut copy: Vec<Feature> = Vec::new();
    let mut i: usize = 0;
    while i < features.len()
        invariant
            i <= features.len(),
            copy@.len() == i,
            forall|j: int| 0 <= j < i ==> copy@[j]@ == features@[j]@,
        decreases features.len() - i,
    {
        copy.push(features[i].clone());
        i = i + 1;
    }
    assert(features_view(copy@) =~= features_view(features@));
    copy
}

/// Whether `i` is the position of the first feature with the key `key`.
pub open spec fn is_first_with_key(features: Seq<FeatureView>, key: Seq<char>, i: int) -> bool {
    &&& 0 <= i < features.len()
    &&& features[i].key == key
    &&& forall|j: int| 0 <= j < i ==> (#[trigger] features[j]).key != key
}

/// The first feature with the key `key`, enabled or not.
pub open spec fn first_with_key(features: Seq<FeatureView>, key: Seq<char>) -> Option<FeatureView> {
    if exists|i: int| is_first_with_key(features, key, i) {
        Some(features[choose|i: int| is_first_with_key(features, key, i)])
    } else {
        None
    }
}

/// Whether some feature has the key `key` and is enabled.
pub open spec fn has_enabled(features: Seq<FeatureView>, key: Seq<char>) -> bool {
    exists|i: int| 0 <= i < features.len() && (#[trigger] features[i]).key == key && features[i].enabled
}

/// The entitlement record of one grant, as the service last sent it.
#[derive(Debug)]
pub struct License {
    pub id: String,
    pub key: String,
    pub status: LicenseStatus,
    pub license_type: LicenseType,
    pub email: Option<String>,
    pub name: Option<String>,
    pub company: Option<String>,
    pub features: Vec<Feature>,
    pub max_activations: i32,
    pub current_activations: i32,
    pub expires_at: Option<String>,
    pub created_at: Option<String>,
    pub last_validated_at: Option<String>,
    pub metadata: Option<Metadata>,
}

pub struct LicenseView {
    pub id: Seq<char>,
    pub key: Seq<char>,
    pub status: LicenseStatus,
    pub license_type: LicenseType,
    pub email: Option<Seq<char>>,
    pub name: Option<Seq<char>>,
    pub company: Option<Seq<char>>,
    pub features: Seq<FeatureView>,
    pub max_activations: i32,
    pub current_activations: i32,
    pub expires_at: Option<Seq<char>>,
    pub created_at: Option<Seq<char>>,
    pub last_validated_at: Option<Seq<char>>,
    pub metadata: Option<Map<String, serde_json::Value>>,
}

impl LicenseView {
    /// Whether the license has an enabled feature with the key `key`.
    pub open spec fn has_feature(self, key: Seq<char>) -> bool {
        has_enabled(self.features, key)
    }

    /// The first feature with the key `key`, enabled or not.
    pub open spec fn get_feature(self, key: Seq<char>) -> Option<FeatureView> {
        first_with_key(self.features, key)
    }

    /// Whether the license is a trial: by its status or by its type.
    pub open spec fn is_trial(self) -> bool {
        self.status == LicenseStatus::Trial || self.license_type == LicenseType::Trial
    }
}

impl View for License {
    type V = LicenseView;

    open spec fn view(&self) -> LicenseView {
        LicenseView {
            id: self.id@,
            key: self.key@,
            status: self.status,
            license_type: self.license_type,
            email: text_view(self.email),
            name: text_view(self.name),
            company: text_view(self.company),
            features: features_view(self.features@),
            max_activations: self.max_activations,
            current_activations: self.current_activations,
            expires_at: text_view(self.expires_at),
            created_at: text_view(self.created_at),
            last_validated_at: text_view(self.last_validated_at),
            metadata: metadata_view(self.metadata),
        }
    }
}

impl Clone for License {
    fn clone(&self) -> (copy: Self)
        ensures
            copy@ == self@,
    {
        License {
            id: self.id.clone(),
            key: self.key.clone(),
            status: self.status,
            license_type: self.license_type,
            email: clone_text(&self.email),
            name: clone_text(&self.name),
            company: clone_text(&self.company),
            features: clone_features(&self.features),
            max_activations: self.max_activations,
            current_activations: self.current_activations,
            expires_at: clone_text(&self.expires_at),
            created_at: clone_text(&self.created_at),
            last_validated_at: clone_text(&self.last_validated_at),
            metadata: clone_metadata(&self.metadata),
        }
    }
}

impl License {
    /// Whether the license has an enabled feature with the key `feature_key`.
    pub fn has_feature(&self, feature_key: &str) -> (found: bool)
        ensures
            found == self@.has_feature(feature_key@),
    {
        let wanted = feature_key.to_owned();
        let mut i: usize = 0;
        while i < self.features.len()
            invariant
                i <= self.features.len(),
                wanted@ == feature_key@,
                forall|j: int|
                    0 <= j < i ==> !((#[trigger] self@.features[j]).key == feature_key@
                        && self@.features[j].enabled),
            decreases self.features.len() - i,
        {
            if self.features[i].key == wanted && self.features[i].enabled {
                assert(self@.features[i as int].key == feature_key@);
                return true;
            }
            i = i + 1;
        }
        false
    }

    /// The first feature with the key `feature_key`, enabled or not.
    pub fn get_feature(&self, feature_key: &str) -> (found: Option<&Feature>)
        ensures
            match found {
                Some(feature) => self@.get_feature(feature_key@) == Some(feature@),
                None => self@.get_feature(feature_key@) is None,
            },
    {
        let wanted = feature_key.to_owned();
        let mut i: usize = 0;
        while i < self.features.len()
            invariant
                i <= self.features.len(),
                wanted@ == feature_key@,
                forall|j: int| 0 <= j < i ==> (#[trigger] self@.features[j]).key != feature_key@,
            decreases self.features.len() - i,
        {
            if self.features[i].key == wanted {
                assert(is_first_with_key(self@.features, feature_key@, i as int));
                return Some(&self.features[i]);
            }
            i = i + 1;
        }
        None
    }
}

/// One machine bound to a license.
#[derive(Debug)]
pub struct Activation {
    pub id: String,
    pub machine_id: String,
    pub machine_name: Option<String>,
    pub platform: Option<String>,
    pub activated_at: Option<String>,
    pub last_seen_at: Option<String>,
}

pub struct ActivationView {
    pub id: Seq<char>,
    pub machine_id: Seq<char>,
    pub machine_name: Option<Seq<char>>,
    pub platform: Option<Seq<char>>,
    pub activated_at: Option<Seq<char>>,
    pub last_seen_at: Option<Seq<char>>,
}

impl View for Activation {
    type V = ActivationView;

    open spec fn view(&self) -> ActivationView {
        ActivationView {
            id: self.id@,
            machine_id: self.machine_id@,
            machine_name: text_view(self.machine_name),
            platform: text_view(self.platform),
            activated_at: text_view(self.activated_at),
            last_seen_at: text_view(self.last_seen_at),
        }
    }
}

impl Clone for Activation {
    fn clone(&self) -> (copy: Self)
        ensures
            copy@ == self@,
    {
        Activation {
            id: self.id.clone(),
            machine_id: self.machine_id.clone(),
            machine_name: clone_text(&self.machine_name),
            platform: clone_text(&self.platform),
            activated_at: clone_text(&self.activated_at),
            last_seen_at: clone_text(&self.last_seen_at),
        }
    }
}

/// The view of an optional license.
pub open spec fn license_view(license: Option<License>) -> Option<LicenseView> {
    match license {
        Some(l) => Some(l@),
        None => None,
    }
}

/// The view of an optional list of activations.
pub open spec fn activations_view(activations: Option<Vec<Activation>>) -> Option<Seq<ActivationView>> {
    match activations {
        Some(list) => Some(list@.map_values(|a: Activation| a@)),
        None => None,
    }
}

/// A copy of a list of activations.
pub fn clone_activations(activations: &Option<Vec<Activation>>) -> (copy: Option<Vec<Activation>>)
    ensures
        activations_view(copy) == activations_view(*activations),
{
    match activations {
        Some(list) => {
            let mut out: Vec<Activation> = Vec::new();
            let mut i: usize = 0;
            while i < list.len()
                invariant
                    i <= list.len(),
                    out@.len() == i,
                    forall|j: int| 0 <= j < i ==> out@[j]@ == list@[j]@,
                decreases list.len() - i,
            {
                out.push(list[i].clone());
                i = i + 1;
            }
            assert(out@.map_values(|a: Activation| a@) =~= list@.map_values(|a: Activation| a@));
            Some(out)
        },
        None => None,
    }
}

/// What the service answered to a validation, an activation or a trial
/// request, or what the client made of a request that failed.
#[derive(Debug)]
pub struct LicenseResult {
    pub valid: bool,
    pub license: Option<License>,
    pub activations: Option<Vec<Activation>>,
    pub error: Option<String>,
    /// Whether the answer came from a local cache. There is no cache yet:
    /// every result that the client reads from a reply has this unset.
    pub cached: bool,
}

pub struct LicenseResultView {
    pub valid: bool,
    pub license: Option<LicenseView>,
    pub activations: Option<Seq<ActivationView>>,
    pub error: Option<Seq<char>>,
    pub cached: bool,
}

impl LicenseResultView {
    /// The result that reports a valid license and nothing else.
    pub open spec fn success(license: LicenseView) -> LicenseResultView {
        LicenseResultView {
            valid: true,
            license: Some(license),
            activations: None,
            error: None,
            cached: false,
        }
    }

    /// The result that reports a failure with its reason and nothing else.
    pub open spec fn failure(error: Seq<char>) -> LicenseResultView {
        LicenseResultView {
            valid: false,
            license: None,
            activations: None,
            error: Some(error),
            cached: false,
        }
    }

    /// Whether the result is to replace the license held locally: it is
    /// valid and carries a license.
    pub open spec fn updates_store(self) -> bool {
        self.valid && self.license is Some
    }
}

impl View for LicenseResult {
    type V = LicenseResultView;

    open spec fn view(&self) -> LicenseResultView {
        LicenseResultView {
            valid: self.valid,
            license: license_view(self.license),
            activations: activations_view(self.activations),
            error: text_view(self.error),
            cached: self.cached,
        }
    }
}

impl Clone for LicenseResult {
    fn clone(&self) -> (copy: Self)
        ensures
            copy@ == self@,
    {
        LicenseResult {
            valid: self.valid,
            license: match &self.license {
                Some(l) => Some(l.clone()),
                None => None,
            },
            activations: clone_activations(&self.activations),
            error: clone_text(&self.error),
            cached: self.cached,
        }
    }
}

impl LicenseResult {
    /// The result that reports `license` as valid.
    pub fn success(license: License) -> (result: Self)
        ensures
            result@ == LicenseResultView::success(license@),
    {
        LicenseResult { valid: true, license: Some(license), activations: None, error: None, cached: false }
    }

    /// The result that reports a failure and gives `error` as the reason.
    pub fn failure(error: String) -> (result: Self)
        ensures
            result@ == LicenseResultView::failure(error@),
    {
        LicenseResult { valid: false, license: None, activations: None, error: Some(error), cached: false }
    }
}

/// What came of starting a purchase.
#[derive(Debug)]
pub struct CheckoutResult {
    pub success: bool,
    pub checkout_url: Option<String>,
    pub session_id: Option<String>,
    pub error: Option<String>,
}

pub struct CheckoutResultView {
    pub success: bool,
    pub checkout_url: Option<Seq<char>>,
    pub session_id: Option<Seq<char>>,
    pub error: Option<Seq<char>>,
}

impl CheckoutResultView {
    /// The result of a checkout that was opened at `checkout_url`.
    pub open spec fn success(checkout_url: Seq<char>, session_id: Seq<char>) -> CheckoutResultView {
        CheckoutResultView {
            success: true,
            checkout_url: Some(checkout_url),
            session_id: Some(session_id),
            error: None,
        }
    }

    /// The result of a checkout that could not be opened.
    pub open spec fn failure(error: Seq<char>) -> CheckoutResultView {
        CheckoutResultView { success: false, checkout_url: None, session_id: None, error: Some(error) }
    }
}

impl View for CheckoutResult {
    type V = CheckoutResultView;

    open spec fn view(&self) -> CheckoutResultView {
        CheckoutResultView {
            success: self.success,
            checkout_url: text_view(self.checkout_url),
            session_id: text_view(self.session_id),
            error: text_view(self.error),
        }
    }
}

impl Clone for CheckoutResult {
    fn clone(&self) -> (copy: Self)
        ensures
            copy@ == self@,
    {
        CheckoutResult {
            success: self.success,
            checkout_url: clone_text(&self.checkout_url),
            session_id: clone_text(&self.session_id),
            error: clone_text(&self.error),
        }
    }
}

impl CheckoutResult {
    /// The result of a checkout that was opened at `checkout_url`.
    pub fn success(checkout_url: String, session_id: String) -> (result: Self)
        ensures
            result@ == CheckoutResultView::success(checkout_url@, session_id@),
    {
        CheckoutResult {
            success: true,
            checkout_url: Some(checkout_url),
            session_id: Some(session_id),
            error: None,
        }
    }

    /// The result of a checkout that could not be opened, with the reason.
    pub fn failure(error: String) -> (result: Self)
        ensures
            result@ == CheckoutResultView::failure(error@),
    {
        CheckoutResult { success: false, checkout_url: None, session_id: None, error: Some(error) }
    }
}

/// A tier of the product that can be bought.
#[derive(Debug)]
pub struct ProductTier {
    pub id: String,
    pub slug: String,
    pub name: String,
    pub description: Option<String>,
    /// The price as the bit pattern of an IEEE 754 double. The client hands
    /// it on and never computes with it.
    pub price_bits: u64,
    pub currency: String,
    pub billing_period: Option<String>,
    pub features: Vec<Feature>,
}

pub struct ProductTierView {
    pub id: Seq<char>,
    pub slug: Seq<char>,
    pub name: Seq<char>,
    pub description: Option<Seq<char>>,
    pub price_bits: u64,
    pub currency: Seq<char>,
    pub billing_period: Option<Seq<char>>,
    pub features: Seq<FeatureView>,
}

impl View for ProductTier {
    type V = ProductTierView;

    open spec fn view(&self) -> ProductTierView {
        ProductTierView {
            id: self.id@,
            slug: self.slug@,
            name: self.name@,
            description: text_view(self.description),
            price_bits: self.price_bits,
            currency: self.currency@,
            billing_period: text_view(self.billing_period),
            features: features_view(self.features@),
        }
    }
}

impl Clone for ProductTier {
    fn clone(&self) -> (copy: Self)
        ensures
            copy@ == self@,
    {
        ProductTier {
            id: self.id.clone(),
            slug: self.slug.clone(),
            name: self.name.clone(),
            description: clone_text(&self.description),
            price_bits: self.price_bits,
            currency: self.currency.clone(),
            billing_period: clone_text(&self.billing_period),
            features: clone_features(&self.features),
        }
    }
}

} // verus!
