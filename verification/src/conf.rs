//! The configuration of the storage tool.
//!
//! A configuration is put together from a default, an optional file, the
//! environment and the command line, in that order. The command line takes
//! part by way of the environment: before the configuration is read, some of
//! its arguments are written to environment variables. Which variables get
//! which values is decided here; reading and writing the environment is the
//! caller's business.

use vstd::prelude::*;
use crate::cmd::{source_name, DevopsCmd, StorageSource};
use crate::text::{option_text, owned};

verus! {

/// Where the objects are and how to sign in.
#[derive(Debug, Clone, PartialEq, Eq)]
pub struct StorageConf {
    pub endpoint: String,
    pub bucket: String,
    pub ak: String,
    pub sk: String,
}

/// The configuration: the service, and the storage settings if any were
/// given.
#[derive(Debug)]
pub struct DevopsConf {
    service: StorageSource,
    storage: Option<StorageConf>,
}

impl DevopsConf {
    /// The service that the configuration names.
    pub closed spec fn spec_service(&self) -> StorageSource {
        self.service
    }

    /// The storage settings of the configuration.
    pub closed spec fn spec_storage(&self) -> Option<StorageConf> {
        self.storage
    }

    /// A configuration with this service and these storage settings.
    pub fn new(service: StorageSource, storage: Option<StorageConf>) -> (conf: Self)
        ensures
            conf.spec_service() == service,
            conf.spec_storage() == storage,
    {
        DevopsConf { service, storage }
    }

    pub fn service(&self) -> (service: &StorageSource)
        ensures
            *service == self.spec_service(),
    {
        &self.service
    }

    pub fn storage(&self) -> (storage: Option<&StorageConf>)
        ensures
            match storage {
                Some(conf) => self.spec_storage() == Some(*conf),
                None => self.spec_storage() is None,
            },
    {
        self.storage.as_ref()
    }
}

/// An environment variable and the value to give it.
#[derive(Debug, Clone, PartialEq, Eq)]
pub struct EnvVar {
    pub name: String,
    pub value: String,
}

impl View for EnvVar {
    type V = (Seq<char>, Seq<char>);

    open spec fn view(&self) -> (Seq<char>, Seq<char>) {
        (self.name@, self.value@)
    }
}

impl DeepView for EnvVar {
    type V = (Seq<char>, Seq<char>);

    open spec fn deep_view(&self) -> (Seq<char>, Seq<char>) {
        self@
    }
}

/// The environment names a service: the variable is set and not empty.
pub open spec fn names_service(env: Option<Seq<char>>) -> bool {
    env matches Some(name) && name.len() > 0
}

/// The service to configure: the one that the environment names, else the
/// one on the command line.
pub open spec fn resolved_service(env: Option<Seq<char>>, arg: Option<StorageSource>) -> Seq<char>
    recommends
        names_service(env) || arg is Some,
{
    if names_service(env) {
        env->Some_0
    } else {
        source_name(arg->Some_0)
    }
}

/// The variable `name` set to `value`, where there is a value.
pub open spec fn override_of(name: Seq<char>, value: Option<Seq<char>>) -> Seq<
    (Seq<char>, Seq<char>),
> {
    match value {
        Some(value) => seq![(name, value)],
        None => Seq::empty(),
    }
}

/// The variables to set before the configuration is read, in order:
/// `SERVICE` always, then `STORAGE__AK`, `STORAGE__SK` and `STORAGE__BUCKET`,
/// each only where the command line gives it.
pub open spec fn overrides(
    env: Option<Seq<char>>,
    service: Option<StorageSource>,
    ak: Option<Seq<char>>,
    sk: Option<Seq<char>>,
    bucket: Option<Seq<char>>,
) -> Seq<(Seq<char>, Seq<char>)> {
    seq![("SERVICE"@, resolved_service(env, service))] + override_of("STORAGE__AK"@, ak)
        + override_of("STORAGE__SK"@, sk) + override_of("STORAGE__BUCKET"@, bucket)
}

/// The view of an optional borrowed text.
pub open spec fn borrowed_text(o: Option<&str>) -> Option<Seq<char>> {
    match o {
        Some(s) => Some(s@),
        None => None,
    }
}

/// Adds the variable `name` to `vars` where there is a value for it.
fn push_override(vars: &mut Vec<EnvVar>, name: &str, value: &Option<String>)
    ensures
        final(vars).deep_view() == old(vars).deep_view() + override_of(name@, option_text(*value)),
{
    let ghost before = vars.deep_view();
    match value {
        Some(value) => {
            vars.push(EnvVar { name: owned(name), value: value.clone() });
            assert(vars.deep_view() =~= before + seq![(name@, value@)]);
        },
        None => {
            assert(vars.deep_view() =~= before + Seq::empty());
        },
    }
}

/// Decides which environment variables the command line overrides.
///
/// `service_env` is the value of the variable `SERVICE` as it is now, `None`
/// if it is not set. A service named there wins over the one on the command
/// line. One of the two has to name a service.
pub fn env_overrides(cmd: &DevopsCmd, service_env: Option<&str>) -> (vars: Vec<EnvVar>)
    requires
        names_service(borrowed_text(service_env)) || cmd.service is Some,
    ensures
        vars.deep_view() == overrides(
            borrowed_text(service_env),
            cmd.service,
            option_text(cmd.ak),
            option_text(cmd.sk),
            option_text(cmd.bucket),
        ),
{
    let from_env = match service_env {
        Some(name) => if name.unicode_len() > 0 {
            Some(owned(name))
        } else {
            None
        },
        None => None,
    };
    let service = match from_env {
        Some(name) => name,
        None => match &cmd.service {
            Some(source) => source.to_string(),
            None => vstd::pervasive::unreached(),
        },
    };
    let mut vars: Vec<EnvVar> = Vec::new();
    vars.push(EnvVar { name: owned("SERVICE"), value: service });
    assert(vars.deep_view() =~= seq![
        ("SERVICE"@, resolved_service(borrowed_text(service_env), cmd.service)),
    ]);
    push_override(&mut vars, "STORAGE__AK", &cmd.ak);
    push_override(&mut vars, "STORAGE__SK", &cmd.sk);
    push_override(&mut vars, "STORAGE__BUCKET", &cmd.bucket);
    vars
}

} // verus!
