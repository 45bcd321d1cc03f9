//! Static configuration of the authentication flow: the OAuth scopes the
//! companion asks for, the local callback address and the user agent. The
//! credentials themselves come from the host, which owns the build
//! environment; nothing here talks to the network.

use vstd::prelude::*;

use vstd::string::StringExecFns;

verus! {

/// The fixed application data handed to the authentication layer.
pub struct AppData {
    pub user_agent: String,
    pub scope: Vec<String>,
    pub secret_key: String,
    pub client_id: String,
    pub url: String,
}

impl AppData {
    /// Application data for the given credentials, with the fixed scope
    /// list, callback address and user agent.
    pub fn new(client_id: String, secret_key: String) -> (d: AppData)
        ensures
            d.client_id@ == client_id@,
            d.secret_key@ == secret_key@,
            d.url@ == "http://localhost:56123/login"@,
            d.user_agent@ == "telescope/dev"@,
            d.scope@.len() == 8,
            d.scope@[0]@ == "publicData"@,
            d.scope@[1]@ == "esi-location.read_location.v1"@,
            d.scope@[2]@ == "esi-clones.read_clones.v1"@,
            d.scope@[3]@ == "esi-characters.read_contacts.v1"@,
            d.scope@[4]@ == "esi-ui.write_waypoint.v1"@,
            d.scope@[5]@ == "esi-location.read_online.v1"@,
            d.scope@[6]@ == "esi-corporations.read_standings.v1"@,
            d.scope@[7]@ == "esi-alliances.read_contacts.v1"@,
    {
        let mut scope: Vec<String> = Vec::new();
        scope.push(String::from_str("publicData"));
        scope.push(String::from_str("esi-location.read_location.v1"));
        scope.push(String::from_str("esi-clones.read_clones.v1"));
        scope.push(String::from_str("esi-characters.read_contacts.v1"));
        scope.push(String::from_str("esi-ui.write_waypoint.v1"));
        scope.push(String::from_str("esi-location.read_online.v1"));
        scope.push(String::from_str("esi-corporations.read_standings.v1"));
        scope.push(String::from_str("esi-alliances.read_contacts.v1"));
        AppData {
            user_agent: String::from_str("telescope/dev"),
            scope,
            secret_key,
            client_id,
            url: String::from_str("http://localhost:56123/login"),
        }
    }
}

} // verus!
