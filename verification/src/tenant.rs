//! The tenant context that every authenticated request carries, and the
//! platform-wide error kinds.
use crate::text::{str_eq, strings_view};
use vstd::prelude::*;
use vstd::string::*;

verus! {

/// Who is calling: the tenant (a UUID by its 128-bit value), optionally the
/// workspace and user, and the caller's role names.
#[derive(Debug)]
pub struct TenantContext {
    pub tenant_id: u128,
    pub workspace_id: Option<u128>,
    pub user_id: Option<u128>,
    pub roles: Vec<String>,
}

impl TenantContext {
    /// The role names as character sequences.
    pub open spec fn role_names(&self) -> Seq<Seq<char>> {
        strings_view(self.roles@)
    }

    /// Whether the caller holds the role named `role`.
    pub fn has_role(&self, role: &str) -> (r: bool)
        ensures
            r == self.role_names().contains(role@),
    {
        let n = self.roles.len();
        let mut i: usize = 0;
        while i < n
            invariant
                n == self.roles@.len(),
                i <= n,
                forall|k: int| 0 <= k < i ==> self.roles@[k]@ != role@,
            decreases n - i,
        {
            if str_eq(self.roles[i].as_str(), role) {
                assert(self.role_names()[i as int] == role@);
                return true;
            }
            i = i + 1;
        }
        assert forall|k: int| 0 <= k < self.role_names().len() implies self.role_names()[k]
            != role@ by {
            assert(self.role_names()[k] == self.roles@[k]@);
        }
        false
    }
}

/// Errors of the platform's tenant handling.
#[derive(Debug, Clone, Copy, PartialEq, Eq, Structural)]
pub enum PlatformError {
    MissingTenantContext,
    Unauthorized,
    Forbidden,
}

/// The message each platform error displays.
pub open spec fn platform_error_text(e: PlatformError) -> Seq<char> {
    match e {
        PlatformError::MissingTenantContext => "missing tenant context"@,
        PlatformError::Unauthorized => "unauthorized"@,
        PlatformError::Forbidden => "forbidden"@,
    }
}

impl PlatformError {
    /// The error's message.
    pub fn message(&self) -> (r: &'static str)
        ensures
            r@ == platform_error_text(*self),
    {
        match self {
            PlatformError::MissingTenantContext => "missing tenant context",
            PlatformError::Unauthorized => "unauthorized",
            PlatformError::Forbidden => "forbidden",
        }
    }
}

} // verus!
