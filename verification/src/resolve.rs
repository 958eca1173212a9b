//! Credential resolution: the ordered, short-circuiting fallback chain that
//! turns an environment-variable value or a secret-store fetch result into
//! usable [`ApiOptions`].
//!
//! The reads themselves (environment access, the network fetch) happen
//! outside the library; the functions here are given their results and
//! decide. The environment step never consults the secret store: the caller
//! fetches a secret only when [`resolve_from_env`] returned `None`.

use vstd::prelude::*;
use vstd::string::StrSliceExecFns;
use vstd::string::StringExecFns;
use crate::client::ApiOptions;
use crate::text::{is_blank, lemma_trim_blank, lemma_trim_not_blank, trim_spec, trimmed};

verus! {

/// The fixed production ingestion endpoint.
pub open spec fn production_endpoint() -> Seq<char> {
    "https://app.posthog.com/"@
}

/// The fixed production ingestion endpoint.
pub fn production_endpoint_str() -> (r: &'static str)
    ensures
        r@ == production_endpoint(),
{
    "https://app.posthog.com/"
}

/// The environment variable consulted first during resolution.
pub fn env_var_name() -> (r: &'static str)
    ensures
        r@ == "POSTHOG_API_KEY"@,
{
    "POSTHOG_API_KEY"
}

/// The resource name under which a cloud secret manager addresses the
/// latest version of a project's secret.
pub fn secret_version_path(project: &str, secret: &str) -> (r: String)
    ensures
        r@ == "projects/"@ + project@ + "/secrets/"@ + secret@ + "/versions/latest"@,
{
    let mut r = String::from_str("projects/");
    r.append(project);
    r.append("/secrets/");
    r.append(secret);
    r.append("/versions/latest");
    proof {
        assert(r@ =~= "projects/"@ + project@ + "/secrets/"@ + secret@ + "/versions/latest"@);
    }
    r
}

/// A failure reported by a secret store: the secret does not exist, the
/// caller could not authenticate, or the service failed in some other way.
#[derive(Debug, PartialEq, Eq)]
pub enum SecretStoreError {
    NotFound,
    Auth(String),
    Service(String),
}

/// Why no credential source produced a usable key.
#[derive(Debug, PartialEq, Eq)]
pub enum ResolutionError {
    /// The terminal secret-store failure, wrapped.
    Store(SecretStoreError),
    /// The secret's bytes are not UTF-8.
    NotUtf8,
    /// The source produced an empty or whitespace-only key.
    BlankKey,
}

/// Options for the production endpoint with `text`'s trimmed value as key,
/// or `None` when `text` is blank.
fn options_from_key_text(text: &str) -> (r: Option<ApiOptions>)
    ensures
        r is Some <==> !is_blank(text@),
        r matches Some(o) ==> o@.key == trim_spec(text@) && o@.endpoint == production_endpoint()
            && o.wf(),
{
    let key = trimmed(text);
    proof {
        lemma_trim_blank(text@);
        lemma_trim_not_blank(text@);
    }
    if key.as_str().unicode_len() == 0 {
        None
    } else {
        let endpoint = String::from_str(production_endpoint_str());
        proof {
            reveal_strlit("https://app.posthog.com/");
        }
        Some(ApiOptions::new(endpoint, key))
    }
}

/// The first step of the fallback chain: a set, non-blank environment value
/// yields options with the trimmed value as key and the fixed production
/// endpoint, and the secret store is then never consulted. An unset or
/// blank value yields `None`, which is not itself an error: the caller goes
/// on to the secret store.
pub fn resolve_from_env(value: Option<String>) -> (r: Option<ApiOptions>)
    ensures
        r is Some <==> (value matches Some(v) && !is_blank(v@)),
        value matches Some(v) ==> (!is_blank(v@) ==> (r matches Some(o) && o@.key == trim_spec(v@)
            && o@.endpoint == production_endpoint() && o.wf())),
{
    match value {
        None => None,
        Some(v) => options_from_key_text(v.as_str()),
    }
}

/// The second, terminal step of the fallback chain, given what the secret
/// store returned. A fetch failure is wrapped and surfaced; bytes that are
/// not UTF-8, or that decode to a blank string, are refused rather than
/// accepted as a key; otherwise the trimmed decoded text becomes the key,
/// against the fixed production endpoint.
pub fn resolve_from_secret(fetched: Result<Vec<u8>, SecretStoreError>) -> (r: Result<
    ApiOptions,
    ResolutionError,
>)
    ensures
        fetched matches Err(e) ==> r == Err::<ApiOptions, ResolutionError>(
            ResolutionError::Store(e),
        ),
        fetched matches Ok(bytes) ==> {
            &&& !vstd::utf8::valid_utf8(bytes@) ==> r == Err::<ApiOptions, ResolutionError>(
                ResolutionError::NotUtf8,
            )
            &&& vstd::utf8::valid_utf8(bytes@) && is_blank(vstd::utf8::decode_utf8(bytes@)) ==> r
                == Err::<ApiOptions, ResolutionError>(ResolutionError::BlankKey)
            &&& vstd::utf8::valid_utf8(bytes@) && !is_blank(vstd::utf8::decode_utf8(bytes@)) ==> (
            r matches Ok(o) && o@.key == trim_spec(vstd::utf8::decode_utf8(bytes@)) && o@.endpoint
                == production_endpoint() && o.wf())
        },
{
    match fetched {
        Err(e) => Err(ResolutionError::Store(e)),
        Ok(bytes) => match crate::text::decode_utf8_bytes(bytes) {
            None => Err(ResolutionError::NotUtf8),
            Some(text) => match options_from_key_text(text.as_str()) {
                None => Err(ResolutionError::BlankKey),
                Some(o) => Ok(o),
            },
        },
    }
}

} // verus!
