//! The device's persisted secrets, as the core observes them: the
//! application id and secret granted at authorization, and the one-time
//! installation code.
//!
//! The backing store is a collaborator; within a process the core relies
//! only on read-after-write, which this in-memory state models exactly.
//! The embedding application mirrors every change to its persistent
//! backend.
use vstd::prelude::*;

verus! {

/// Which secret an operation addresses.
#[derive(Clone, Copy, Debug, PartialEq, Eq, Structural)]
pub enum Secret {
    AppId,
    AppSecret,
    InstallationCode,
}

/// The three secrets, each possibly absent.
pub struct SecretStore {
    pub app_id: Option<String>,
    pub app_secret: Option<String>,
    pub installation_code: Option<String>,
}

/// The spec-level value of one secret slot.
pub open spec fn slot(store: &SecretStore, kind: Secret) -> Option<Seq<char>> {
    let field = match kind {
        Secret::AppId => store.app_id,
        Secret::AppSecret => store.app_secret,
        Secret::InstallationCode => store.installation_code,
    };
    match field {
        Some(v) => Some(v@),
        None => None,
    }
}

impl SecretStore {
    /// An empty store: nothing persisted yet.
    pub fn new() -> (s: Self)
        ensures
            slot(&s, Secret::AppId) is None,
            slot(&s, Secret::AppSecret) is None,
            slot(&s, Secret::InstallationCode) is None,
    {
        SecretStore { app_id: None, app_secret: None, installation_code: None }
    }

    /// Reads one secret.
    pub fn get_value(&self, kind: Secret) -> (r: Option<String>)
        ensures
            match r {
                Some(v) => slot(self, kind) == Some(v@),
                None => slot(self, kind) is None,
            },
    {
        let field = match kind {
            Secret::AppId => &self.app_id,
            Secret::AppSecret => &self.app_secret,
            Secret::InstallationCode => &self.installation_code,
        };
        match field {
            Some(v) => Some(v.clone()),
            None => None,
        }
    }

    /// Writes one secret; the other slots are untouched.
    pub fn set_value(&mut self, kind: Secret, value: String)
        ensures
            slot(final(self), kind) == Some(value@),
            forall|other: Secret|
                other != kind ==> slot(final(self), other) == slot(old(self), other),
    {
        match kind {
            Secret::AppId => self.app_id = Some(value),
            Secret::AppSecret => self.app_secret = Some(value),
            Secret::InstallationCode => self.installation_code = Some(value),
        }
    }

    /// Deletes one secret; the other slots are untouched.
    pub fn delete_value(&mut self, kind: Secret)
        ensures
            slot(final(self), kind) is None,
            forall|other: Secret|
                other != kind ==> slot(final(self), other) == slot(old(self), other),
    {
        match kind {
            Secret::AppId => self.app_id = None,
            Secret::AppSecret => self.app_secret = None,
            Secret::InstallationCode => self.installation_code = None,
        }
    }
}

} // verus!
