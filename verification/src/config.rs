//! The settings a client is made with.

use std::time::Duration;
use vstd::prelude::*;
use vstd::string::StringExecFns;

verus! {

/// The address of the licensing service that a client talks to unless it is
/// told another.
pub const DEFAULT_API_BASE_URL: &'static str = "https://api.ironlicensing.com";

/// The time a request may take unless the options say otherwise, in seconds.
pub const DEFAULT_HTTP_TIMEOUT_SECS: u64 = 30;

/// The span of time that `Duration::from_secs` makes of a number of seconds.
pub uninterp spec fn duration_of_secs(secs: u64) -> Duration;

/// `Duration::from_secs`: the result is the span of `secs` whole seconds. It
/// depends on `secs` alone, so it has the name [`duration_of_secs`].
pub assume_specification[ Duration::from_secs ](secs: u64) -> (span: Duration)
    ensures
        span == duration_of_secs(secs),
;

/// The settings of a client. The public key and the product slug identify
/// the product and have to be given; the rest has defaults.
#[derive(Debug)]
pub struct LicenseOptions {
    /// The public key of the product.
    pub public_key: String,
    /// The slug of the product.
    pub product_slug: String,
    /// Where the licensing service is reached.
    pub api_base_url: String,
    /// Whether the embedding should log what the client does.
    pub debug: bool,
    /// Whether licenses may be cached for use without a connection.
    pub enable_offline_cache: bool,
    /// How often a cached license is validated again, in minutes.
    pub cache_validation_minutes: u32,
    /// How long a cached license stays usable without a connection, in days.
    pub offline_grace_days: u32,
    /// How long a request may take.
    pub http_timeout: Duration,
}

pub struct LicenseOptionsView {
    pub public_key: Seq<char>,
    pub product_slug: Seq<char>,
    pub api_base_url: Seq<char>,
    pub debug: bool,
    pub enable_offline_cache: bool,
    pub cache_validation_minutes: u32,
    pub offline_grace_days: u32,
    pub http_timeout: Duration,
}

impl LicenseOptionsView {
    /// The settings that name no product and leave everything else at its
    /// default.
    pub open spec fn defaults() -> LicenseOptionsView {
        LicenseOptionsView {
            public_key: Seq::empty(),
            product_slug: Seq::empty(),
            api_base_url: DEFAULT_API_BASE_URL@,
            debug: false,
            enable_offline_cache: true,
            cache_validation_minutes: 60,
            offline_grace_days: 7,
            http_timeout: duration_of_secs(DEFAULT_HTTP_TIMEOUT_SECS),
        }
    }

    /// The default settings for the product with the given credentials.
    pub open spec fn for_product(public_key: Seq<char>, product_slug: Seq<char>) -> LicenseOptionsView {
        LicenseOptionsView { public_key, product_slug, ..Self::defaults() }
    }

    /// Whether both credentials are given.
    pub open spec fn has_credentials(self) -> bool {
        self.public_key.len() > 0 && self.product_slug.len() > 0
    }
}

impl View for LicenseOptions {
    type V = LicenseOptionsView;

    open spec fn view(&self) -> LicenseOptionsView {
        LicenseOptionsView {
            public_key: self.public_key@,
            product_slug: self.product_slug@,
            api_base_url: self.api_base_url@,
            debug: self.debug,
            enable_offline_cache: self.enable_offline_cache,
            cache_validation_minutes: self.cache_validation_minutes,
            offline_grace_days: self.offline_grace_days,
            http_timeout: self.http_timeout,
        }
    }
}

impl Clone for LicenseOptions {
    fn clone(&self) -> (copy: Self)
        ensures
            copy@ == self@,
    {
        LicenseOptions {
            public_key: self.public_key.clone(),
            product_slug: self.product_slug.clone(),
            api_base_url: self.api_base_url.clone(),
            debug: self.debug,
            enable_offline_cache: self.enable_offline_cache,
            cache_validation_minutes: self.cache_validation_minutes,
            offline_grace_days: self.offline_grace_days,
            http_timeout: self.http_timeout,
        }
    }
}

impl Default for LicenseOptions {
    fn default() -> (options: Self)
        ensures
            options@ == LicenseOptionsView::defaults(),
    {
        LicenseOptions {
            public_key: String::new(),
            product_slug: String::new(),
            api_base_url: String::from_str(DEFAULT_API_BASE_URL),
            debug: false,
            enable_offline_cache: true,
            cache_validation_minutes: 60,
            offline_grace_days: 7,
            http_timeout: Duration::from_secs(DEFAULT_HTTP_TIMEOUT_SECS),
        }
    }
}

impl LicenseOptions {
    /// The default settings for the product with the given credentials.
    pub fn new(public_key: &str, product_slug: &str) -> (options: Self)
        ensures
            options@ == LicenseOptionsView::for_product(public_key@, product_slug@),
    {
        let mut options = LicenseOptions::default();
        options.public_key = public_key.to_owned();
        options.product_slug = product_slug.to_owned();
        options
    }

    /// The same settings with the service reached at `url`.
    pub fn api_base_url(self, url: &str) -> (options: Self)
        ensures
            options@ == (LicenseOptionsView { api_base_url: url@, ..self@ }),
    {
        let mut options = self;
        options.api_base_url = url.to_owned();
        options
    }

    /// The same settings with logging switched on or off.
    pub fn debug(self, debug: bool) -> (options: Self)
        ensures
            options@ == (LicenseOptionsView { debug, ..self@ }),
    {
        let mut options = self;
        options.debug = debug;
        options
    }

    /// The same settings with the offline cache switched on or off.
    pub fn enable_offline_cache(self, enable: bool) -> (options: Self)
        ensures
            options@ == (LicenseOptionsView { enable_offline_cache: enable, ..self@ }),
    {
        let mut options = self;
        options.enable_offline_cache = enable;
        options
    }

    /// The same settings with a cached license validated again every
    /// `minutes` minutes.
    pub fn cache_validation_minutes(self, minutes: u32) -> (options: Self)
        ensures
            options@ == (LicenseOptionsView { cache_validation_minutes: minutes, ..self@ }),
    {
        let mut options = self;
        options.cache_validation_minutes = minutes;
        options
    }

    /// The same settings with a cached license usable for `days` days
    /// without a connection.
    pub fn offline_grace_days(self, days: u32) -> (options: Self)
        ensures
            options@ == (LicenseOptionsView { offline_grace_days: days, ..self@ }),
    {
        let mut options = self;
        options.offline_grace_days = days;
        options
    }

    /// The same settings with requests given `timeout` to complete.
    pub fn http_timeout(self, timeout: Duration) -> (options: Self)
        ensures
            options@ == (LicenseOptionsView { http_timeout: timeout, ..self@ }),
    {
        let mut options = self;
        options.http_timeout = timeout;
        options
    }
}

} // verus!
