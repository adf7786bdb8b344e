//! Connection parameters and the target they resolve to.
use vstd::prelude::*;
use crate::error::{KuoriError, MissingField};

verus! {

/// The port used when the resolver gives none.
pub const DEFAULT_PORT: u16 = 22;

/// What the SSH client configuration gives for one host alias.
pub struct ConnectionParams {
    pub host_name: Option<String>,
    pub port: Option<u16>,
    pub user: Option<String>,
    /// Identity files in order; the first is used.
    pub identity_file: Option<Vec<String>>,
}

/// A complete set of parameters to connect and authenticate with.
pub struct ConnectionTarget {
    pub host_name: String,
    pub port: u16,
    pub user: String,
    pub identity_file: String,
}

/// Whether the identity file list is absent or empty.
pub open spec fn lacks_identity(p: ConnectionParams) -> bool {
    p.identity_file is None || p.identity_file.unwrap()@.len() == 0
}

/// The field reported missing for `p`, checked in the order host name, user, identity file.
pub open spec fn missing_field(p: ConnectionParams) -> Option<MissingField> {
    if p.host_name is None {
        Some(MissingField::HostName)
    } else if p.user is None {
        Some(MissingField::User)
    } else if lacks_identity(p) {
        Some(MissingField::IdentityFile)
    } else {
        None
    }
}

impl ConnectionParams {
    /// Resolves the parameters into a target: port 22 unless one is given,
    /// the first identity file; no fallback for a missing field.
    pub fn resolve(self) -> (r: Result<ConnectionTarget, KuoriError>)
        ensures
            missing_field(self) is Some ==> r == Err::<ConnectionTarget, KuoriError>(
                KuoriError::MissingParameter { field: missing_field(self).unwrap() },
            ),
            missing_field(self) is None ==> r is Ok && ({
                let t = r.unwrap();
                &&& t.host_name == self.host_name.unwrap()
                &&& t.user == self.user.unwrap()
                &&& t.identity_file == self.identity_file.unwrap()@[0]
                &&& t.port == (match self.port {
                    Some(p) => p,
                    None => DEFAULT_PORT,
                })
            }),
    {
        let ghost orig = self;
        let host_name = match self.host_name {
            Some(h) => h,
            None => return Err(KuoriError::MissingParameter { field: MissingField::HostName }),
        };
        let user = match self.user {
            Some(u) => u,
            None => return Err(KuoriError::MissingParameter { field: MissingField::User }),
        };
        let mut files = match self.identity_file {
            Some(f) => f,
            None => return Err(KuoriError::MissingParameter { field: MissingField::IdentityFile }),
        };
        if files.len() == 0 {
            return Err(KuoriError::MissingParameter { field: MissingField::IdentityFile });
        }
        let identity_file = files.swap_remove(0);
        let port = match self.port {
            Some(p) => p,
            None => DEFAULT_PORT,
        };
        Ok(ConnectionTarget { host_name, port, user, identity_file })
    }
}

} // verus!
