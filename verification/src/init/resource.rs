//! Who the process is: the name and the version of the service, as they
//! are attached to everything that it exports.

use vstd::prelude::*;

verus! {

/// The values of the variables that name the service. A variable that is
/// not set, or set to something that is no text, is `None`.
pub struct ServiceEnv {
    /// `OTEL_SERVICE_NAME`
    pub otel_service_name: Option<String>,
    /// `SERVICE_NAME`
    pub service_name: Option<String>,
    /// `APP_NAME`
    pub app_name: Option<String>,
    /// `SERVICE_VERSION`
    pub service_version: Option<String>,
    /// `APP_VERSION`
    pub app_version: Option<String>,
}

/// What was found out about the service.
#[derive(Debug)]
pub struct ServiceInfo {
    /// The value of the `service.name` attribute, if there is one.
    pub name: Option<String>,
    /// The value of the `service.version` attribute, if there is one.
    pub version: Option<String>,
}

/// Collects what is known about the service. The environment goes first;
/// the fallbacks are for what it leaves open.
#[derive(Debug, Default)]
pub struct DetectResource {
    pub fallback_service_name: Option<&'static str>,
    pub fallback_service_version: Option<&'static str>,
}

/// Optional text as a mathematical value.
pub open spec fn text_view(s: Option<String>) -> Option<Seq<char>> {
    match s {
        Some(t) => Some(t@),
        None => None,
    }
}

/// Optional static text as a mathematical value.
pub open spec fn static_view(s: Option<&'static str>) -> Option<Seq<char>> {
    match s {
        Some(t) => Some(t@),
        None => None,
    }
}

/// The first value where there is one, else the second.
pub open spec fn or_else(first: Option<Seq<char>>, second: Option<Seq<char>>) -> Option<
    Seq<char>,
> {
    match first {
        Some(t) => Some(t),
        None => second,
    }
}

/// The name of the service: `OTEL_SERVICE_NAME`, else `SERVICE_NAME`,
/// else `APP_NAME`, else the fallback.
pub open spec fn detected_name(env: ServiceEnv, fallback: Option<&'static str>) -> Option<
    Seq<char>,
> {
    or_else(
        text_view(env.otel_service_name),
        or_else(
            text_view(env.service_name),
            or_else(text_view(env.app_name), static_view(fallback)),
        ),
    )
}

/// The version of the service: `SERVICE_VERSION`, else `APP_VERSION`,
/// else the fallback.
pub open spec fn detected_version(env: ServiceEnv, fallback: Option<&'static str>) -> Option<
    Seq<char>,
> {
    or_else(
        text_view(env.service_version),
        or_else(text_view(env.app_version), static_view(fallback)),
    )
}

impl DetectResource {
    /// A detector without fallbacks.
    pub fn new() -> (d: DetectResource)
        ensures
            d.fallback_service_name.is_none(),
            d.fallback_service_version.is_none(),
    {
        DetectResource { fallback_service_name: None, fallback_service_version: None }
    }

    /// Sets the name to use where the environment has none.
    pub fn with_fallback_service_name(self, fallback_service_name: &'static str) -> (d: Self)
        ensures
            d.fallback_service_name == Some(fallback_service_name),
            d.fallback_service_version == self.fallback_service_version,
    {
        let mut me = self;
        me.fallback_service_name = Some(fallback_service_name);
        me
    }

    /// Sets the version to use where the environment has none.
    pub fn with_fallback_service_version(self, fallback_service_version: &'static str) -> (d: Self)
        ensures
            d.fallback_service_name == self.fallback_service_name,
            d.fallback_service_version == Some(fallback_service_version),
    {
        let mut me = self;
        me.fallback_service_version = Some(fallback_service_version);
        me
    }

    /// Finds out name and version of the service.
    pub fn build(self, env: &ServiceEnv) -> (info: ServiceInfo)
        ensures
            text_view(info.name) == detected_name(*env, self.fallback_service_name),
            text_view(info.version) == detected_version(*env, self.fallback_service_version),
    {
        let detector = ServiceInfoDetector {
            fallback_service_name: self.fallback_service_name,
            fallback_service_version: self.fallback_service_version,
        };
        detector.detect(env)
    }
}

/// Finds name and version of the service in the environment.
#[derive(Debug)]
pub struct ServiceInfoDetector {
    pub fallback_service_name: Option<&'static str>,
    pub fallback_service_version: Option<&'static str>,
}

fn or_text(first: &Option<String>, second: Option<String>) -> (r: Option<String>)
    ensures
        text_view(r) == or_else(text_view(*first), text_view(second)),
{
    match first {
        Some(t) => Some(t.clone()),
        None => second,
    }
}

fn owned(s: Option<&'static str>) -> (r: Option<String>)
    ensures
        text_view(r) == static_view(s),
{
    match s {
        Some(t) => Some(t.to_owned()),
        None => None,
    }
}

impl ServiceInfoDetector {
    /// Finds out name and version of the service.
    pub fn detect(&self, env: &ServiceEnv) -> (info: ServiceInfo)
        ensures
            text_view(info.name) == detected_name(*env, self.fallback_service_name),
            text_view(info.version) == detected_version(*env, self.fallback_service_version),
    {
        let name = or_text(
            &env.otel_service_name,
            or_text(&env.service_name, or_text(&env.app_name, owned(self.fallback_service_name))),
        );
        let version = or_text(
            &env.service_version,
            or_text(&env.app_version, owned(self.fallback_service_version)),
        );
        ServiceInfo { name, version }
    }
}

} // verus!
