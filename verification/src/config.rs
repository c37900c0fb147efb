//! Connection configuration and the builder that applies caller overrides to
//! it. Setters apply only non-empty overrides; validation happens once, at
//! build time.
use vstd::prelude::*;

use vstd::string::StringExecFns;

use std::sync::Arc;

use crate::backend::AzdlsBackend;
use crate::endpoint::{infer_storage_name_from_endpoint, normalize_root, spec_normalize_root};
use crate::error::{Error, ErrorKind};
use crate::request::{new_credential_loader, new_http_client, new_request_signer, AzdlsCore};
use crate::text::{str_to_chars, chars_to_string, trim_trailing};

verus! {

/// Validated connection parameters for one backend.
pub struct AzdlsConfig {
    /// Root of this backend; all operation paths are relative to it.
    pub root: Option<String>,
    /// Filesystem (container) name of this backend; required, non-empty.
    pub filesystem: String,
    /// Endpoint of this backend; required, an absolute URL.
    pub endpoint: Option<String>,
    /// Account name; inferred from the endpoint when unset.
    pub account_name: Option<String>,
    /// Account key, for shared-key authentication.
    pub account_key: Option<String>,
    /// Client secret of the service principal, for client-credential
    /// authentication.
    pub client_secret: Option<String>,
    /// Tenant id of the service principal.
    pub tenant_id: Option<String>,
    /// Client id of the service principal.
    pub client_id: Option<String>,
    /// Authority host of the service principal; a fixed well-known host is
    /// used when unset.
    pub authority_host: Option<String>,
}

impl AzdlsConfig {
    /// An empty configuration: nothing set, filesystem blank.
    pub fn new() -> (c: AzdlsConfig)
        ensures
            c.root is None,
            c.filesystem@ == Seq::<char>::empty(),
            c.endpoint is None,
            c.account_name is None,
            c.account_key is None,
            c.client_secret is None,
            c.tenant_id is None,
            c.client_id is None,
            c.authority_host is None,
    {
        AzdlsConfig {
            root: None,
            filesystem: String::new(),
            endpoint: None,
            account_name: None,
            account_key: None,
            client_secret: None,
            tenant_id: None,
            client_id: None,
            authority_host: None,
        }
    }

    /// Turn a configuration into a builder.
    pub fn into_builder(self) -> (b: AzdlsBuilder)
        ensures
            b.config == self,
            b.http_client is None,
    {
        AzdlsBuilder { config: self, http_client: None }
    }
}

/// Applies caller overrides to an [`AzdlsConfig`] and, with
/// [`AzdlsBuilder::build`], turns it into a ready backend.
pub struct AzdlsBuilder {
    /// The configuration under construction.
    pub config: AzdlsConfig,
    /// An adopted transport, when the caller supplies one.
    pub http_client: Option<reqwest::Client>,
}

impl AzdlsBuilder {
    /// A builder over an empty configuration.
    pub fn new() -> (b: AzdlsBuilder)
        ensures
            b.config.root is None,
            b.config.filesystem@ == Seq::<char>::empty(),
            b.config.endpoint is None,
            b.config.account_name is None,
            b.config.account_key is None,
            b.config.client_secret is None,
            b.config.tenant_id is None,
            b.config.client_id is None,
            b.config.authority_host is None,
            b.http_client is None,
    {
        AzdlsConfig::new().into_builder()
    }

    /// Set the root of this backend; an empty override is ignored.
    ///
    /// All operations will happen under this root.
    pub fn root(self, root: &str) -> (b: AzdlsBuilder)
        ensures
            b.config.root.deep_view() == (if root@.len() == 0 {
                self.config.root.deep_view()
            } else {
                Some(root@)
            }),
            b == (AzdlsBuilder {
                config: AzdlsConfig { root: b.config.root, ..self.config },
                ..self
            }),
    {
        let mut b = self;
        if !root.is_empty() {
            b.config.root = Some(String::from_str(root));
        }
        b
    }

    /// Set the filesystem name of this backend.
    pub fn filesystem(self, filesystem: &str) -> (b: AzdlsBuilder)
        ensures
            b.config.filesystem@ == filesystem@,
            b == (AzdlsBuilder {
                config: AzdlsConfig { filesystem: b.config.filesystem, ..self.config },
                ..self
            }),
    {
        let mut b = self;
        b.config.filesystem = String::from_str(filesystem);
        b
    }

    /// Set the endpoint of this backend, trimming any trailing slash; an
    /// empty override is ignored.
    ///
    /// The endpoint must be a full URI.
    pub fn endpoint(self, endpoint: &str) -> (b: AzdlsBuilder)
        ensures
            b.config.endpoint.deep_view() == (if endpoint@.len() == 0 {
                self.config.endpoint.deep_view()
            } else {
                Some(trim_trailing(endpoint@, '/'))
            }),
            b == (AzdlsBuilder {
                config: AzdlsConfig { endpoint: b.config.endpoint, ..self.config },
                ..self
            }),
    {
        let mut b = self;
        if !endpoint.is_empty() {
            b.config.endpoint = Some(trim_trailing_slashes(endpoint));
        }
        b
    }

    /// Set the account name of this backend; an empty override is ignored.
    pub fn account_name(self, account_name: &str) -> (b: AzdlsBuilder)
        ensures
            b.config.account_name.deep_view() == (if account_name@.len() == 0 {
                self.config.account_name.deep_view()
            } else {
                Some(account_name@)
            }),
            b == (AzdlsBuilder {
                config: AzdlsConfig { account_name: b.config.account_name, ..self.config },
                ..self
            }),
    {
        let mut b = self;
        if !account_name.is_empty() {
            b.config.account_name = Some(String::from_str(account_name));
        }
        b
    }

    /// Set the account key of this backend; an empty override is ignored.
    pub fn account_key(self, account_key: &str) -> (b: AzdlsBuilder)
        ensures
            b.config.account_key.deep_view() == (if account_key@.len() == 0 {
                self.config.account_key.deep_view()
            } else {
                Some(account_key@)
            }),
            b == (AzdlsBuilder {
                config: AzdlsConfig { account_key: b.config.account_key, ..self.config },
                ..self
            }),
    {
        let mut b = self;
        if !account_key.is_empty() {
            b.config.account_key = Some(String::from_str(account_key));
        }
        b
    }

    /// Set the client secret of the service principal; an empty override is
    /// ignored.
    pub fn client_secret(self, client_secret: &str) -> (b: AzdlsBuilder)
        ensures
            b.config.client_secret.deep_view() == (if client_secret@.len() == 0 {
                self.config.client_secret.deep_view()
            } else {
                Some(client_secret@)
            }),
            b == (AzdlsBuilder {
                config: AzdlsConfig { client_secret: b.config.client_secret, ..self.config },
                ..self
            }),
    {
        let mut b = self;
        if !client_secret.is_empty() {
            b.config.client_secret = Some(String::from_str(client_secret));
        }
        b
    }

    /// Set the tenant id of the service principal; an empty override is
    /// ignored.
    pub fn tenant_id(self, tenant_id: &str) -> (b: AzdlsBuilder)
        ensures
            b.config.tenant_id.deep_view() == (if tenant_id@.len() == 0 {
                self.config.tenant_id.deep_view()
            } else {
                Some(tenant_id@)
            }),
            b == (AzdlsBuilder {
                config: AzdlsConfig { tenant_id: b.config.tenant_id, ..self.config },
                ..self
            }),
    {
        let mut b = self;
        if !tenant_id.is_empty() {
            b.config.tenant_id = Some(String::from_str(tenant_id));
        }
        b
    }

    /// Set the client id of the service principal; an empty override is
    /// ignored.
    pub fn client_id(self, client_id: &str) -> (b: AzdlsBuilder)
        ensures
            b.config.client_id.deep_view() == (if client_id@.len() == 0 {
                self.config.client_id.deep_view()
            } else {
                Some(client_id@)
            }),
            b == (AzdlsBuilder {
                config: AzdlsConfig { client_id: b.config.client_id, ..self.config },
                ..self
            }),
    {
        let mut b = self;
        if !client_id.is_empty() {
            b.config.client_id = Some(String::from_str(client_id));
        }
        b
    }

    /// Set the authority host of the service principal; an empty override is
    /// ignored.
    pub fn authority_host(self, authority_host: &str) -> (b: AzdlsBuilder)
        ensures
            b.config.authority_host.deep_view() == (if authority_host@.len() == 0 {
                self.config.authority_host.deep_view()
            } else {
                Some(authority_host@)
            }),
            b == (AzdlsBuilder {
                config: AzdlsConfig { authority_host: b.config.authority_host, ..self.config },
                ..self
            }),
    {
        let mut b = self;
        if !authority_host.is_empty() {
            b.config.authority_host = Some(String::from_str(authority_host));
        }
        b
    }

    /// Supply a pre-built transport for this backend to adopt.
    pub fn http_client(self, client: reqwest::Client) -> (b: AzdlsBuilder)
        ensures
            b.config == self.config,
            b.http_client == Some(client),
    {
        let mut b = self;
        b.http_client = Some(client);
        b
    }
}

/// The endpoint is usable: set, and not empty once its trailing slashes are
/// gone.
pub open spec fn spec_endpoint_usable(endpoint: Option<String>) -> bool {
    endpoint matches Some(e) && trim_trailing(e@, '/').len() > 0
}

impl AzdlsBuilder {
    /// Validate the configuration and assemble the backend.
    ///
    /// The filesystem name and the endpoint must be non-empty (an endpoint
    /// that is blank once trailing slashes are trimmed counts as empty), else
    /// this fails with a configuration error naming the missing field; the
    /// root is normalized, the endpoint loses its trailing slash, and the
    /// credential loader and signer are constructed. No network activity
    /// happens here.
    pub fn build(self) -> (r: Result<AzdlsBackend, Error>)
        ensures
            self.config.filesystem@.len() == 0 ==> (r matches Err(e) && {
                &&& e.kind == ErrorKind::ConfigInvalid
                &&& e.message@ == "filesystem is empty"@
                &&& e.operation@ == "Builder::build"@
            }),
            self.config.filesystem@.len() > 0 && !spec_endpoint_usable(self.config.endpoint)
                ==> (r matches Err(e) && {
                &&& e.kind == ErrorKind::ConfigInvalid
                &&& e.message@ == "endpoint is empty"@
                &&& e.operation@ == "Builder::build"@
            }),
            self.config.filesystem@.len() > 0 && spec_endpoint_usable(self.config.endpoint)
                && self.http_client is Some ==> r is Ok,
            self.config.filesystem@.len() > 0 && spec_endpoint_usable(self.config.endpoint) ==> (
            r is Ok || (r matches Err(e) && e.kind == ErrorKind::Unexpected)),
            r matches Ok(b) ==> {
                &&& b.wf()
                &&& b.core.root@ == spec_normalize_root(
                    match self.config.root {
                        Some(t) => t@,
                        None => Seq::<char>::empty(),
                    },
                )
                &&& b.core.filesystem@ == self.config.filesystem@
                &&& b.core.endpoint@ == trim_trailing(self.config.endpoint->Some_0@, '/')
            },
            self.http_client matches Some(c) ==> (r matches Ok(b) ==> b.core.client == c),
    {
        proof {
            reveal_strlit("");
            assert(""@ =~= Seq::<char>::empty());
        }
        let root = match &self.config.root {
            Some(t) => normalize_root(t.as_str()),
            None => normalize_root(""),
        };
        if self.config.filesystem.as_str().is_empty() {
            return Err(Error::config_invalid("Builder::build", "filesystem is empty"));
        }
        let endpoint = match &self.config.endpoint {
            Some(e) => trim_trailing_slashes(e.as_str()),
            None => {
                return Err(Error::config_invalid("Builder::build", "endpoint is empty"));
            },
        };
        if endpoint.as_str().is_empty() {
            return Err(Error::config_invalid("Builder::build", "endpoint is empty"));
        }
        let client = match self.http_client {
            Some(c) => c,
            None => match new_http_client() {
                Some(c) => c,
                None => {
                    return Err(
                        Error::unexpected(
                            "Builder::build",
                            "the transport could not be initialized",
                        ),
                    );
                },
            },
        };
        let account_name = match &self.config.account_name {
            Some(s) => Some(s.clone()),
            None => infer_storage_name_from_endpoint(endpoint.as_str()),
        };
        let authority_host = match self.config.authority_host {
            Some(h) => h,
            None => String::from_str("https://login.microsoftonline.com"),
        };
        let loader = new_credential_loader(
            account_name,
            self.config.account_key,
            self.config.client_id,
            self.config.client_secret,
            self.config.tenant_id,
            Some(authority_host),
        );
        let signer = new_request_signer();
        Ok(
            AzdlsBackend {
                core: Arc::new(
                    AzdlsCore {
                        root,
                        filesystem: self.config.filesystem,
                        endpoint,
                        client,
                        loader,
                        signer,
                    },
                ),
            },
        )
    }
}

/// `s` with every trailing slash removed.
pub fn trim_trailing_slashes(s: &str) -> (r: String)
    ensures
        r@ == trim_trailing(s@, '/'),
{
    let chars = str_to_chars(s);
    let n = chars.len();
    let mut hi: usize = n;
    while hi > 0 && chars[hi - 1] == '/'
        invariant
            n == chars@.len(),
            hi <= n,
            forall|j: int| hi <= j < n ==> chars@[j] == '/',
        decreases hi,
    {
        hi = hi - 1;
    }
    let out = crate::text::chars_subvec(&chars, 0, hi);
    proof {
        crate::text::lemma_trim_trailing_cut(s@, '/', hi as int);
        assert(out@ =~= trim_trailing(s@, '/'));
    }
    chars_to_string(&out)
}

} // verus!
