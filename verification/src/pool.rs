use vstd::prelude::*;

use crate::config::AppConfig;
use crate::gmail::client::{
    clone_optional_string, effective_proxy, proxy_address_accepted, ClientError, GmailClient,
};

verus! {

/// Keeps one Gmail client and rebuilds it only when the configured proxy
/// changes.
pub struct ClientPool {
    inner: Option<GmailClient>,
    last_proxy_fingerprint: Option<String>,
}

impl ClientPool {
    /// The kept client, if any, was built for the remembered proxy address.
    #[verifier::type_invariant]
    spec fn client_matches_fingerprint(self) -> bool {
        self.inner matches Some(c) ==> c.applied_proxy() == effective_proxy(
            self.last_proxy_fingerprint.deep_view(),
        )
    }

    /// Whether a client is kept.
    pub closed spec fn has_client(&self) -> bool {
        self.inner is Some
    }

    /// The kept client, if any.
    pub closed spec fn kept(&self) -> Option<GmailClient> {
        self.inner
    }

    /// The proxy address the kept client was made for.
    pub closed spec fn fingerprint(&self) -> Option<Seq<char>> {
        self.last_proxy_fingerprint.deep_view()
    }

    /// A new client is needed: none is kept, or the proxy address changed.
    pub open spec fn spec_should_recreate(&self, cfg: &AppConfig) -> bool {
        !self.has_client() || self.fingerprint() != cfg.proxy_addr.deep_view()
    }

    /// An empty pool.
    pub fn new() -> (pool: Self)
        ensures
            !pool.has_client(),
            pool.fingerprint() is None,
    {
        ClientPool { inner: None, last_proxy_fingerprint: None }
    }

    fn should_recreate(&self, cfg: &AppConfig) -> (r: bool)
        ensures
            r == self.spec_should_recreate(cfg),
    {
        if self.inner.is_none() {
            return true;
        }
        match (&self.last_proxy_fingerprint, &cfg.proxy_addr) {
            (Some(a), Some(b)) => !(*a == *b),
            (None, None) => false,
            _ => true,
        }
    }

    /// A client for `cfg`: the kept one while the proxy address is unchanged,
    /// otherwise a new one, which is then kept.
    pub fn get(&mut self, cfg: &AppConfig) -> (r: Result<GmailClient, ClientError>)
        ensures
            r matches Ok(c) ==> c.applied_proxy() == effective_proxy(cfg.proxy_addr.deep_view()),
            r is Ok ==> !final(self).spec_should_recreate(cfg),
            !old(self).spec_should_recreate(cfg) ==> {
                &&& r == Ok::<GmailClient, ClientError>(old(self).kept()->0)
                &&& *final(self) == *old(self)
            },
            old(self).spec_should_recreate(cfg) ==> {
                &&& r matches Ok(c) ==> final(self).kept() == Some(c) && final(self).fingerprint()
                    == cfg.proxy_addr.deep_view()
                &&& r is Err ==> *final(self) == *old(self)
                &&& (r matches Err(ClientError::InvalidProxy(_)) <==> (effective_proxy(
                    cfg.proxy_addr.deep_view(),
                ) matches Some(url) && !proxy_address_accepted(url)))
            },
    {
        proof {
            use_type_invariant(&*self);
        }
        if !self.should_recreate(cfg) {
            let kept = self.inner.as_ref().unwrap();
            return Ok(kept.clone());
        }
        let new_client = GmailClient::new(clone_optional_string(&cfg.proxy_addr))?;
        *self = ClientPool {
            inner: Some(new_client.clone()),
            last_proxy_fingerprint: clone_optional_string(&cfg.proxy_addr),
        };
        Ok(new_client)
    }
}

} // verus!
