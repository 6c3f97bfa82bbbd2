//! The service configuration: plain data describing the surrounding
//! endpoints and credentials. Loading it from a file or the environment is
//! left to the program around the library.

use vstd::prelude::*;

verus! {

/// Endpoints of the organisational chart service.
#[derive(Clone, Debug)]
pub struct Orgchart {
    pub related_endpoint: String,
    pub full_endpoint: String,
    pub trace_endpoint: String,
}

/// Endpoint of the search service.
#[derive(Clone, Debug)]
pub struct Search {
    pub simple_endpoint: String,
}

/// Endpoint of the avatar storage service.
#[derive(Clone, Debug)]
pub struct Fossil {
    pub upload_endpoint: String,
}

/// Endpoint and switch for the internal update notification.
#[derive(Clone, Debug)]
pub struct Lookout {
    pub internal_update_endpoint: String,
    pub internal_update_enabled: bool,
}

/// The collaborating services, gathered in one place.
#[derive(Clone, Debug)]
pub struct DinoParkServices {
    pub orgchart: Orgchart,
    pub search: Search,
    pub fossil: Fossil,
    pub lookout: Lookout,
}

/// The credentials used to request a bearer token from the token endpoint.
#[derive(Clone, Debug)]
pub struct ClientConfig {
    pub client_id: String,
    pub client_secret: String,
    pub audience: String,
}

/// Where the signing keys come from and which keys are configured.
#[derive(Clone, Debug)]
pub struct CisKeys {
    pub source: String,
    pub mozilliansorg_key: String,
    pub hris_key: Option<String>,
    pub ldap_key: Option<String>,
    pub cis_key: Option<String>,
    pub access_provider_key: Option<String>,
}

/// Everything needed to talk to the profile service: its endpoints, the
/// token-client credentials and the signing keys.
#[derive(Clone, Debug)]
pub struct CisSettings {
    pub person_api_user_endpoint: String,
    pub change_api_user_endpoint: String,
    pub client_config: ClientConfig,
    pub keys: CisKeys,
}

/// The full configuration of the service.
#[derive(Clone, Debug)]
pub struct Settings {
    pub cis: CisSettings,
    pub dino_park: DinoParkServices,
}

} // verus!
