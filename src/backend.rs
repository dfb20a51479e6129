use vstd::prelude::*;
use crate::wire::{json_string, json_string_of};

verus! {

/// Command-line options.
#[derive(Debug, Clone)]
pub struct Opts {
    /// Disable controller emulation (only connect and stream).
    pub no_controller: bool,
    /// Directory holding the configuration and the stored relay assignment.
    pub config_dir: String,
}

impl Opts {
    /// The configuration file.
    pub fn config_file(&self) -> (r: String)
        ensures
            r@ == self.config_dir@ + "/vulcast.conf"@,
    {
        let mut r = self.config_dir.clone();
        r.append("/vulcast.conf");
        r
    }

    /// The file of the stored relay assignment.
    pub fn assignment_file(&self) -> (r: String)
        ensures
            r@ == self.config_dir@ + "/assigned_relay"@,
    {
        let mut r = self.config_dir.clone();
        r.append("/assigned_relay");
        r
    }
}

/// The JSON body of a GraphQL request.
pub open spec fn graphql_body(query: Seq<char>, variables: Seq<char>, operation: Seq<char>) -> Seq<char> {
    "{\"query\":"@ + json_string_of(query) + ",\"variables\":"@ + variables + ",\"operationName\":"@
        + json_string_of(operation) + "}"@
}

/// Builds the JSON body of a GraphQL request; `variables` is a JSON object.
pub fn graphql_request_body(query: &str, variables: &str, operation: &str) -> (r: String)
    ensures
        r@ == graphql_body(query@, variables@, operation@),
{
    let mut r = String::from_str("{\"query\":");
    let q = json_string(query);
    r.append(q.as_str());
    r.append(",\"variables\":");
    r.append(variables);
    r.append(",\"operationName\":");
    let o = json_string(operation);
    r.append(o.as_str());
    r.append("}");
    r
}

/// The authentication request: the device id and its shared secret.
#[derive(Debug, Clone)]
pub struct LogInAsVulcast {
    pub vulcast_id: String,
    pub secret: String,
}

/// The variables of the authentication request.
pub open spec fn login_variables(vulcast_id: Seq<char>, secret: Seq<char>) -> Seq<char> {
    "{\"vulcastId\":"@ + json_string_of(vulcast_id) + ",\"secret\":"@ + json_string_of(secret) + "}"@
}

impl LogInAsVulcast {
    /// The variables, as a JSON object.
    pub fn variables(&self) -> (r: String)
        ensures
            r@ == login_variables(self.vulcast_id@, self.secret@),
    {
        let mut r = String::from_str("{\"vulcastId\":");
        let id = json_string(self.vulcast_id.as_str());
        r.append(id.as_str());
        r.append(",\"secret\":");
        let s = json_string(self.secret.as_str());
        r.append(s.as_str());
        r.append("}");
        r
    }

    /// The request body for the query document `query`.
    pub fn request_body(&self, query: &str) -> (r: String)
        ensures
            r@ == graphql_body(query@, login_variables(self.vulcast_id@, self.secret@), "LogInAsVulcast"@),
    {
        let v = self.variables();
        graphql_request_body(query, v.as_str(), "LogInAsVulcast")
    }
}

/// The relay-assignment request, made with the access token that
/// authentication gave.
#[derive(Debug, Clone)]
pub struct AssignVulcastToRelay {
    pub access_token: String,
}

impl AssignVulcastToRelay {
    /// The bearer credential: the access token under the device prefix.
    pub fn bearer(&self) -> (r: String)
        ensures
            r@ == "vulcast_"@ + self.access_token@,
    {
        let mut r = String::from_str("vulcast_");
        r.append(self.access_token.as_str());
        r
    }

    /// The request body for the query document `query`; it takes no variables.
    pub fn request_body(&self, query: &str) -> (r: String)
        ensures
            r@ == graphql_body(query@, "{}"@, "AssignVulcastToRelay"@),
    {
        graphql_request_body(query, "{}", "AssignVulcastToRelay")
    }
}

} // verus!
