//! Deployment environments and the static per-environment service tables.
//!
//! An [`Environment`] selects a bundle of service domains: the hostname and
//! port of each backend service together with the fronting hostnames that may
//! stand in for it when censorship-circumvention fallback routes are enabled.
//! The bundle is pure data, fixed at construction, and never does I/O.

use vstd::prelude::*;

verus! {

/// Mathematical view of a [`DomainConfig`].
pub struct DomainConfigView {
    pub hostname: Seq<char>,
    pub port: u16,
    pub fronting_hostnames: Seq<Seq<char>>,
}

/// Connection table for one backend service: its direct hostname and port,
/// and the ordered fronting hostnames available as fallback routes.
pub struct DomainConfig {
    pub hostname: String,
    pub port: u16,
    pub fronting_hostnames: Vec<String>,
}

impl View for DomainConfig {
    type V = DomainConfigView;

    open spec fn view(&self) -> DomainConfigView {
        DomainConfigView {
            hostname: self.hostname@,
            port: self.port,
            fronting_hostnames: self.fronting_hostnames@.map_values(|h: String| h@),
        }
    }
}

/// Mathematical view of an [`Env`].
pub struct EnvView {
    pub chat: DomainConfigView,
    pub cdsi: DomainConfigView,
}

/// The static service tables of one deployment: the messaging service and the
/// attested contact-discovery enclave service.
pub struct Env {
    pub chat: DomainConfig,
    pub cdsi: DomainConfig,
}

impl View for Env {
    type V = EnvView;

    open spec fn view(&self) -> EnvView {
        EnvView { chat: self.chat@, cdsi: self.cdsi@ }
    }
}

/// The service tables of the staging deployment.
pub open spec fn spec_staging_env() -> EnvView {
    EnvView {
        chat: DomainConfigView {
            hostname: "chat.staging.signal.org"@,
            port: 443,
            fronting_hostnames: seq!["reflector.staging-front.example.net"@],
        },
        cdsi: DomainConfigView {
            hostname: "cdsi.staging.signal.org"@,
            port: 443,
            fronting_hostnames: seq!["reflector.staging-front.example.net"@],
        },
    }
}

/// The service tables of the production deployment.
pub open spec fn spec_prod_env() -> EnvView {
    EnvView {
        chat: DomainConfigView {
            hostname: "chat.signal.org"@,
            port: 443,
            fronting_hostnames: seq!["reflector.front.example.net"@],
        },
        cdsi: DomainConfigView {
            hostname: "cdsi.signal.org"@,
            port: 443,
            fronting_hostnames: seq!["reflector.front.example.net"@],
        },
    }
}

/// One deployment of the backend services, chosen once at construction.
#[derive(Clone, Copy, PartialEq, Eq, Structural)]
pub enum Environment {
    Staging,
    Prod,
}

/// The environment selected by a small-integer tag, as used by host
/// applications that hand the choice across a language boundary.
pub open spec fn spec_environment_from_u8(value: u8) -> Option<Environment> {
    if value == 0 {
        Some(Environment::Staging)
    } else if value == 1 {
        Some(Environment::Prod)
    } else {
        None
    }
}

/// The service tables selected by an [`Environment`].
pub open spec fn spec_env(environment: Environment) -> EnvView {
    match environment {
        Environment::Staging => spec_staging_env(),
        Environment::Prod => spec_prod_env(),
    }
}

impl Environment {
    /// Decodes the small-integer tag used across the host-application boundary.
    pub fn try_from_u8(value: u8) -> (r: Option<Environment>)
        ensures
            r == spec_environment_from_u8(value),
    {
        if value == 0 {
            Some(Environment::Staging)
        } else if value == 1 {
            Some(Environment::Prod)
        } else {
            None
        }
    }

    /// A human-readable name for the environment.
    pub fn name(&self) -> (r: &'static str)
        ensures
            *self == Environment::Staging ==> r@ == "Staging"@,
            *self == Environment::Prod ==> r@ == "Prod"@,
    {
        match self {
            Environment::Staging => "Staging",
            Environment::Prod => "Prod",
        }
    }

    /// Builds the static service tables for this environment.
    pub fn env(self) -> (r: Env)
        ensures
            r@ == spec_env(self),
    {
        match self {
            Environment::Staging => staging_env(),
            Environment::Prod => prod_env(),
        }
    }
}

fn staging_env() -> (r: Env)
    ensures
        r@ == spec_staging_env(),
{
    let mut chat_fronts: Vec<String> = Vec::new();
    chat_fronts.push(String::from_str("reflector.staging-front.example.net"));
    let mut cdsi_fronts: Vec<String> = Vec::new();
    cdsi_fronts.push(String::from_str("reflector.staging-front.example.net"));
    let r = Env {
        chat: DomainConfig {
            hostname: String::from_str("chat.staging.signal.org"),
            port: 443,
            fronting_hostnames: chat_fronts,
        },
        cdsi: DomainConfig {
            hostname: String::from_str("cdsi.staging.signal.org"),
            port: 443,
            fronting_hostnames: cdsi_fronts,
        },
    };
    proof {
        assert(r@.chat.fronting_hostnames =~= spec_staging_env().chat.fronting_hostnames);
        assert(r@.cdsi.fronting_hostnames =~= spec_staging_env().cdsi.fronting_hostnames);
    }
    r
}

fn prod_env() -> (r: Env)
    ensures
        r@ == spec_prod_env(),
{
    let mut chat_fronts: Vec<String> = Vec::new();
    chat_fronts.push(String::from_str("reflector.front.example.net"));
    let mut cdsi_fronts: Vec<String> = Vec::new();
    cdsi_fronts.push(String::from_str("reflector.front.example.net"));
    let r = Env {
        chat: DomainConfig {
            hostname: String::from_str("chat.signal.org"),
            port: 443,
            fronting_hostnames: chat_fronts,
        },
        cdsi: DomainConfig {
            hostname: String::from_str("cdsi.signal.org"),
            port: 443,
            fronting_hostnames: cdsi_fronts,
        },
    };
    proof {
        assert(r@.chat.fronting_hostnames =~= spec_prod_env().chat.fronting_hostnames);
        assert(r@.cdsi.fronting_hostnames =~= spec_prod_env().cdsi.fronting_hostnames);
    }
    r
}

} // verus!
