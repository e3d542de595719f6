//! Mapping of request paths to backends.

use crate::text::{contains_subseq, str_contains, str_starts_with};
use vstd::prelude::*;

verus! {

/// A backend that the gateway forwards requests to.
#[derive(Debug, Clone, Copy, PartialEq, Eq, Structural)]
pub enum TargetService {
    UserService,
    ProductService,
}

impl TargetService {
    /// The TCP port on which the backend listens.
    pub open spec fn spec_port(&self) -> u16 {
        match self {
            TargetService::UserService => 8080,
            TargetService::ProductService => 8081,
        }
    }

    /// The display name of the backend.
    pub open spec fn spec_name(&self) -> Seq<char> {
        match self {
            TargetService::UserService => "User Service"@,
            TargetService::ProductService => "Product Service"@,
        }
    }

    /// The TCP port on which the backend listens.
    #[verifier::when_used_as_spec(spec_port)]
    pub fn port(&self) -> (p: u16)
        ensures
            p == self.spec_port(),
    {
        match self {
            TargetService::UserService => 8080,
            TargetService::ProductService => 8081,
        }
    }

    /// The display name of the backend.
    pub fn name(&self) -> (n: &'static str)
        ensures
            n@ == self.spec_name(),
    {
        match self {
            TargetService::UserService => "User Service",
            TargetService::ProductService => "Product Service",
        }
    }
}

/// The path asks for the user backend: it begins with `/api/users` or
/// mentions `user` anywhere.
pub open spec fn matches_users(path: Seq<char>) -> bool {
    "/api/users"@.is_prefix_of(path) || contains_subseq(path, "user"@)
}

/// The path asks for the product backend: it begins with `/api/products` or
/// mentions `product` anywhere.
pub open spec fn matches_products(path: Seq<char>) -> bool {
    "/api/products"@.is_prefix_of(path) || contains_subseq(path, "product"@)
}

/// The routing policy. The user rule is tried first, so a path that matches
/// both rules goes to the user backend; a path that matches neither goes
/// there too.
pub open spec fn resolve(path: Seq<char>) -> TargetService {
    if matches_users(path) {
        TargetService::UserService
    } else if matches_products(path) {
        TargetService::ProductService
    } else {
        TargetService::UserService
    }
}

/// Picks the backend for a request path.
pub fn determine_target_service(path: &str) -> (target: TargetService)
    ensures
        target == resolve(path@),
{
    if str_starts_with(path, "/api/users") || str_contains(path, "user") {
        TargetService::UserService
    } else if str_starts_with(path, "/api/products") || str_contains(path, "product") {
        TargetService::ProductService
    } else {
        TargetService::UserService
    }
}

/// A path is routed to the product backend exactly when only the product
/// rule matches it; every other path is routed to the user backend.
pub proof fn lemma_resolve_characterised(path: Seq<char>)
    ensures
        resolve(path) == TargetService::ProductService <==> (!matches_users(path)
            && matches_products(path)),
        resolve(path) == TargetService::UserService <==> (matches_users(path) || !matches_products(
            path,
        )),
{
}

/// The user rule wins: whatever else a path matches, once it matches the user
/// rule it is routed to the user backend.
pub proof fn lemma_user_rule_wins(path: Seq<char>)
    requires
        matches_users(path),
    ensures
        resolve(path) == TargetService::UserService,
{
}

} // verus!
