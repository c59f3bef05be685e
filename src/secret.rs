//! The registry endpoint, and the pull-secret document built from a
//! credential: a JSON registry-credential text, base64-encoded, whose `auth`
//! field is itself the base64 of `username:password`.
use vstd::prelude::*;
use vstd::string::StringExecFns;
use vstd::utf8::{decode_utf8, encode_utf8, encode_utf8_decode_utf8};

use crate::codec::Credential;
use crate::encoding::{base64_decoding, base64_encode, base64_encoding, json_quote, json_string_literal};

verus! {

/// The registry host, as a full `https://` URL, and its region.
#[derive(Debug)]
pub struct RegistryEndpoint {
    pub url: String,
    pub region: String,
}

/// The URL of an account's registry in a region.
pub open spec fn registry_url_text(account_id: Seq<char>, region: Seq<char>) -> Seq<char> {
    "https://"@ + account_id + ".dkr.ecr."@ + region + ".amazonaws.com"@
}

/// The name of the pull secret for a region.
pub open spec fn secret_name_text(region: Seq<char>) -> Seq<char> {
    region + "-ecr-registry"@
}

/// The secret type the cluster expects for registry credentials.
pub open spec fn pull_secret_type() -> Seq<char> {
    "kubernetes.io/dockerconfigjson"@
}

/// The text `username:password`.
pub open spec fn login_text(c: (Seq<char>, Seq<char>)) -> Seq<char> {
    c.0 + ":"@ + c.1
}

/// The `auth` field: base64 of the UTF-8 bytes of `username:password`.
pub open spec fn auth_field(c: (Seq<char>, Seq<char>)) -> Seq<char> {
    base64_encoding(encode_utf8(login_text(c)))
}

/// The registry-credential JSON text, keys in sorted order.
pub open spec fn docker_config_text(url: Seq<char>, c: (Seq<char>, Seq<char>), email: Seq<char>) -> Seq<char> {
    "{\"auths\":{"@ + json_string_literal(url) + ":{\"auth\":"@ + json_string_literal(auth_field(c))
        + ",\"email\":"@ + json_string_literal(email) + ",\"password\":"@ + json_string_literal(c.1)
        + ",\"username\":"@ + json_string_literal(c.0) + "}}}"@
}

/// The `.dockerconfigjson` payload: base64 of the credential JSON text.
pub open spec fn docker_config_payload(url: Seq<char>, c: (Seq<char>, Seq<char>), email: Seq<char>) -> Seq<char> {
    base64_encoding(encode_utf8(docker_config_text(url, c, email)))
}

/// The JSON manifest of a secret, keys in sorted order.
pub open spec fn manifest_text(name: Seq<char>, namespace: Seq<char>, secret_type: Seq<char>, payload: Seq<char>) -> Seq<char> {
    "{\"apiVersion\":\"v1\",\"data\":{\".dockerconfigjson\":"@ + json_string_literal(payload)
        + "},\"metadata\":{\"name\":"@ + json_string_literal(name) + ",\"namespace\":"@
        + json_string_literal(namespace) + "},\"type\":"@ + json_string_literal(secret_type) + "}"@
}

impl RegistryEndpoint {
    /// The endpoint of an account's registry in a region.
    pub fn for_account(account_id: &str, region: &str) -> (r: RegistryEndpoint)
        ensures
            r.url@ == registry_url_text(account_id@, region@),
            r.region@ == region@,
    {
        let mut url = String::from_str("https://");
        url.append(account_id);
        url.append(".dkr.ecr.");
        url.append(region);
        url.append(".amazonaws.com");
        RegistryEndpoint { url, region: region.to_owned() }
    }
}

/// The name of the pull secret for a region: `<region>-ecr-registry`.
pub fn secret_name_for_region(region: &str) -> (r: String)
    ensures
        r@ == secret_name_text(region@),
{
    let mut name = region.to_owned();
    name.append("-ecr-registry");
    name
}

/// A pull secret for one namespace, in the cluster's own shape.
#[derive(Debug)]
pub struct PullSecretDocument {
    pub name: String,
    pub namespace: String,
    pub secret_type: String,
    /// The `.dockerconfigjson` data entry.
    pub docker_config_json: String,
}

/// Appends `"text"` as a JSON string literal.
fn append_quoted(out: &mut String, text: &str)
    ensures
        final(out)@ == old(out)@ + json_string_literal(text@),
{
    let q = json_quote(text);
    out.append(q.as_str());
}

/// The registry-credential JSON text for a credential at a registry.
pub fn docker_config(url: &str, cred: &Credential, email: &str) -> (r: String)
    ensures
        r@ == docker_config_text(url@, cred@, email@),
        base64_decoding(auth_field(cred@)) == Some(encode_utf8(login_text(cred@))),
{
    let mut login = cred.username.clone();
    login.append(":");
    login.append(cred.password.as_str());
    let auth = base64_encode(login.as_str().as_bytes());
    let mut out = String::from_str("{\"auths\":{");
    append_quoted(&mut out, url);
    out.append(":{\"auth\":");
    append_quoted(&mut out, auth.as_str());
    out.append(",\"email\":");
    append_quoted(&mut out, email);
    out.append(",\"password\":");
    append_quoted(&mut out, cred.password.as_str());
    out.append(",\"username\":");
    append_quoted(&mut out, cred.username.as_str());
    out.append("}}}");
    out
}

/// Builds the pull secret for a credential.
///
/// The payload is base64 of the credential JSON text, whose `auth` field is
/// base64 of `username:password`; both encodings decode back.
/// Empty names or email are carried through as they are.
pub fn build_pull_secret(
    cred: &Credential,
    endpoint: &RegistryEndpoint,
    email: &str,
    secret_name: &str,
    namespace: &str,
) -> (r: PullSecretDocument)
    ensures
        r.name@ == secret_name@,
        r.namespace@ == namespace@,
        r.secret_type@ == pull_secret_type(),
        r.docker_config_json@ == docker_config_payload(endpoint.url@, cred@, email@),
        base64_decoding(r.docker_config_json@) == Some(encode_utf8(docker_config_text(endpoint.url@, cred@, email@))),
        decode_utf8(encode_utf8(docker_config_text(endpoint.url@, cred@, email@))) == docker_config_text(endpoint.url@, cred@, email@),
        base64_decoding(auth_field(cred@)) == Some(encode_utf8(login_text(cred@))),
        decode_utf8(encode_utf8(login_text(cred@))) == login_text(cred@),
{
    let text = docker_config(endpoint.url.as_str(), cred, email);
    let payload = base64_encode(text.as_str().as_bytes());
    proof {
        encode_utf8_decode_utf8(text@);
        encode_utf8_decode_utf8(login_text(cred@));
    }
    PullSecretDocument {
        name: secret_name.to_owned(),
        namespace: namespace.to_owned(),
        secret_type: String::from_str("kubernetes.io/dockerconfigjson"),
        docker_config_json: payload,
    }
}

/// Two builds from the same credential, registry URL and email give the same
/// payload, byte for byte.
pub proof fn law_payload_deterministic(
    url1: Seq<char>,
    c1: (Seq<char>, Seq<char>),
    email1: Seq<char>,
    url2: Seq<char>,
    c2: (Seq<char>, Seq<char>),
    email2: Seq<char>,
)
    requires
        url1 == url2,
        c1 == c2,
        email1 == email2,
    ensures
        docker_config_payload(url1, c1, email1) == docker_config_payload(url2, c2, email2),
{
}

impl PullSecretDocument {
    /// The same secret, addressed to another namespace.
    pub fn in_namespace(&self, namespace: &str) -> (r: PullSecretDocument)
        ensures
            r.name@ == self.name@,
            r.namespace@ == namespace@,
            r.secret_type@ == self.secret_type@,
            r.docker_config_json@ == self.docker_config_json@,
    {
        PullSecretDocument {
            name: self.name.clone(),
            namespace: namespace.to_owned(),
            secret_type: self.secret_type.clone(),
            docker_config_json: self.docker_config_json.clone(),
        }
    }

    /// The JSON manifest sent to the cluster to create this secret.
    pub fn manifest(&self) -> (r: String)
        ensures
            r@ == manifest_text(self.name@, self.namespace@, self.secret_type@, self.docker_config_json@),
    {
        let mut out = String::from_str("{\"apiVersion\":\"v1\",\"data\":{\".dockerconfigjson\":");
        append_quoted(&mut out, self.docker_config_json.as_str());
        out.append("},\"metadata\":{\"name\":");
        append_quoted(&mut out, self.name.as_str());
        out.append(",\"namespace\":");
        append_quoted(&mut out, self.namespace.as_str());
        out.append("},\"type\":");
        append_quoted(&mut out, self.secret_type.as_str());
        out.append("}");
        out
    }
}

} // verus!
