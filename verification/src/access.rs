//! Request admission at the gateway: public paths, the tenant context taken
//! from the request headers, and the role each operation requires.
use crate::ids::{is_v4, new_trace_id, parse_uuid, trace_text, uuid_hyphenated_text, uuid_parse};
use crate::tenant::TenantContext;
use crate::text::{
    lemma_trim_idempotent, split_commas, split_on, str_eq, strings_view, strs_view, trim,
    trim_text,
};
use vstd::prelude::*;
use vstd::string::*;

verus! {

/// The refusals the services answer with.
#[derive(Debug, Clone, Copy, PartialEq, Eq, Structural)]
pub enum ApiError {
    InvalidDecision,
    EmptyInput,
    Unauthorized,
    Forbidden,
    NotFound,
    Conflict,
    Internal,
}

/// The HTTP status code of each refusal.
pub open spec fn status_code_of(e: ApiError) -> u16 {
    match e {
        ApiError::InvalidDecision => 400,
        ApiError::EmptyInput => 400,
        ApiError::Unauthorized => 401,
        ApiError::Forbidden => 403,
        ApiError::NotFound => 404,
        ApiError::Conflict => 409,
        ApiError::Internal => 500,
    }
}

impl ApiError {
    /// The HTTP status code that answers this refusal.
    pub fn status_code(&self) -> (r: u16)
        ensures
            r == status_code_of(*self),
    {
        match self {
            ApiError::InvalidDecision => 400,
            ApiError::EmptyInput => 400,
            ApiError::Unauthorized => 401,
            ApiError::Forbidden => 403,
            ApiError::NotFound => 404,
            ApiError::Conflict => 409,
            ApiError::Internal => 500,
        }
    }

    /// The machine-readable code of this refusal in the error envelope.
    pub fn code(&self) -> (r: &'static str)
        ensures
            r@ == error_code_text(*self),
    {
        match self {
            ApiError::InvalidDecision => "invalid_decision",
            ApiError::EmptyInput => "empty_input",
            ApiError::Unauthorized => "unauthorized",
            ApiError::Forbidden => "forbidden",
            ApiError::NotFound => "not_found",
            ApiError::Conflict => "conflict",
            ApiError::Internal => "internal",
        }
    }

    /// The human-readable message of this refusal in the error envelope.
    pub fn message(&self) -> (r: &'static str)
        ensures
            r@ == error_message_text(*self),
    {
        match self {
            ApiError::InvalidDecision => "decision must be approve or reject",
            ApiError::EmptyInput => "input cannot be empty",
            ApiError::Unauthorized => "missing or invalid tenant context",
            ApiError::Forbidden => "role does not permit this action",
            ApiError::NotFound => "resource not found",
            ApiError::Conflict => "conflicts with the recorded decision",
            ApiError::Internal => "internal error",
        }
    }
}

/// The HTTP statuses of the refusals: invalid input 400, no tenant context
/// 401, a role that does not permit 403, an unknown resource 404, a
/// conflicting decision 409, an internal failure 500.
pub proof fn lemma_refusal_statuses()
    ensures
        status_code_of(ApiError::InvalidDecision) == 400,
        status_code_of(ApiError::EmptyInput) == 400,
        status_code_of(ApiError::Unauthorized) == 401,
        status_code_of(ApiError::Forbidden) == 403,
        status_code_of(ApiError::NotFound) == 404,
        status_code_of(ApiError::Conflict) == 409,
        status_code_of(ApiError::Internal) == 500,
{
}

/// The code of each refusal in the error envelope.
pub open spec fn error_code_text(e: ApiError) -> Seq<char> {
    match e {
        ApiError::InvalidDecision => "invalid_decision"@,
        ApiError::EmptyInput => "empty_input"@,
        ApiError::Unauthorized => "unauthorized"@,
        ApiError::Forbidden => "forbidden"@,
        ApiError::NotFound => "not_found"@,
        ApiError::Conflict => "conflict"@,
        ApiError::Internal => "internal"@,
    }
}

/// The message of each refusal in the error envelope.
pub open spec fn error_message_text(e: ApiError) -> Seq<char> {
    match e {
        ApiError::InvalidDecision => "decision must be approve or reject"@,
        ApiError::EmptyInput => "input cannot be empty"@,
        ApiError::Unauthorized => "missing or invalid tenant context"@,
        ApiError::Forbidden => "role does not permit this action"@,
        ApiError::NotFound => "resource not found"@,
        ApiError::Conflict => "conflicts with the recorded decision"@,
        ApiError::Internal => "internal error"@,
    }
}

/// The body of an error answer: `{"error": {"code", "message", "trace_id"}}`.
#[derive(Debug)]
pub struct ErrorEnvelope {
    pub code: String,
    pub message: String,
    pub trace_id: String,
}

/// The error envelope for a refusal, with a fresh trace id.
pub fn error_envelope(e: ApiError) -> (r: ErrorEnvelope)
    ensures
        r.code@ == error_code_text(e),
        r.message@ == error_message_text(e),
        exists|v: u128| r.trace_id@ == trace_text(v) && is_v4(v),
{
    ErrorEnvelope {
        code: String::from_str(e.code()),
        message: String::from_str(e.message()),
        trace_id: new_trace_id(),
    }
}

/// Paths served without a tenant context.
pub open spec fn public_path(path: Seq<char>) -> bool {
    path == "/"@ || path == "/health"@
}

/// Whether `path` is served without a tenant context: the UI shell and the
/// health check.
pub fn is_public_path(path: &str) -> (r: bool)
    ensures
        r == public_path(path@),
{
    str_eq(path, "/") || str_eq(path, "/health")
}

/// `s` begins with `p`.
pub open spec fn starts_with(s: Seq<char>, p: Seq<char>) -> bool {
    p.len() <= s.len() && s.subrange(0, p.len() as int) == p
}

/// `s` without the prefix `p`, when it has it (as `str::strip_prefix`).
pub fn strip_prefix_text<'a>(s: &'a str, p: &str) -> (r: Option<&'a str>)
    ensures
        match r {
            Some(t) => starts_with(s@, p@) && t@ == s@.subrange(p@.len() as int, s@.len() as int),
            None => !starts_with(s@, p@),
        },
{
    let n = s.unicode_len();
    let m = p.unicode_len();
    if m > n {
        return None;
    }
    let mut k: usize = 0;
    while k < m
        invariant
            n == s@.len(),
            m == p@.len(),
            m <= n,
            k <= m,
            forall|t: int| 0 <= t < k ==> s@[t] == p@[t],
        decreases m - k,
    {
        if s.get_char(k) != p.get_char(k) {
            assert(s@.subrange(0, m as int)[k as int] != p@[k as int]);
            return None;
        }
        k = k + 1;
    }
    assert(s@.subrange(0, m as int) =~= p@);
    Some(s.substring_char(m, n))
}

/// The non-empty pieces, trimmed, of a comma-separated list.
pub open spec fn nonempty_trimmed(pieces: Seq<Seq<char>>) -> Seq<Seq<char>>
    decreases pieces.len(),
{
    if pieces.len() == 0 {
        Seq::<Seq<char>>::empty()
    } else {
        let rest = nonempty_trimmed(pieces.drop_last());
        let t = trim(pieces.last());
        if t.len() > 0 {
            rest.push(t)
        } else {
            rest
        }
    }
}

/// The role names that an `x-roles` header lists: split at commas, each
/// trimmed, empty ones dropped, in their order.
pub open spec fn roles_from_header(h: Seq<char>) -> Seq<Seq<char>> {
    nonempty_trimmed(split_on(h, ','))
}

/// The role names listed in an `x-roles` header value.
pub fn parse_roles(header: &str) -> (r: Vec<String>)
    ensures
        strings_view(r@) == roles_from_header(header@),
{
    let pieces = split_commas(header);
    let ghost pv = strs_view(pieces@);
    let n = pieces.len();
    let mut roles: Vec<String> = Vec::new();
    let mut i: usize = 0;
    assert(pv.take(0) =~= Seq::<Seq<char>>::empty());
    assert(strings_view(roles@) =~= Seq::<Seq<char>>::empty());
    while i < n
        invariant
            n == pieces@.len(),
            pv == strs_view(pieces@),
            i <= n,
            strings_view(roles@) == nonempty_trimmed(pv.take(i as int)),
        decreases n - i,
    {
        let t = trim_text(pieces[i]);
        proof {
            assert(pv.take(i + 1).drop_last() =~= pv.take(i as int));
            assert(pv.take(i + 1).last() == pieces@[i as int]@);
        }
        if t.unicode_len() > 0 {
            let ghost prev = roles@;
            roles.push(String::from_str(t));
            assert(strings_view(roles@) =~= strings_view(prev).push(t@));
        }
        i = i + 1;
    }
    assert(pv.take(n as int) =~= pv);
    roles
}

/// Every role name read from an `x-roles` header is non-empty and has no
/// whitespace around it.
pub proof fn lemma_header_roles_are_clean(h: Seq<char>)
    ensures
        forall|i: int|
            0 <= i < roles_from_header(h).len() ==> #[trigger] roles_from_header(h)[i].len() > 0
                && trim(roles_from_header(h)[i]) == roles_from_header(h)[i],
{
    lemma_nonempty_trimmed(split_on(h, ','));
}

proof fn lemma_nonempty_trimmed(pieces: Seq<Seq<char>>)
    ensures
        forall|i: int|
            0 <= i < nonempty_trimmed(pieces).len() ==> #[trigger] nonempty_trimmed(pieces)[i].len()
                > 0 && trim(nonempty_trimmed(pieces)[i]) == nonempty_trimmed(pieces)[i],
    decreases pieces.len(),
{
    if pieces.len() > 0 {
        let rest = nonempty_trimmed(pieces.drop_last());
        lemma_nonempty_trimmed(pieces.drop_last());
        let t = trim(pieces.last());
        lemma_trim_idempotent(pieces.last());
        if t.len() > 0 {
            assert forall|i: int| 0 <= i < rest.push(t).len() implies #[trigger] rest.push(t)[i].len()
                > 0 && trim(rest.push(t)[i]) == rest.push(t)[i] by {
                if i < rest.len() {
                    assert(rest.push(t)[i] == rest[i]);
                }
            }
        }
    }
}

/// Every piece of an `x-roles` header that is not blank once trimmed is
/// read as a role, and every role read is a trimmed piece of the header.
pub proof fn lemma_header_roles_complete(h: Seq<char>)
    ensures
        forall|i: int|
            0 <= i < split_on(h, ',').len() && trim(#[trigger] split_on(h, ',')[i]).len() > 0
                ==> roles_from_header(h).contains(trim(split_on(h, ',')[i])),
        forall|j: int|
            0 <= j < roles_from_header(h).len() ==> exists|i: int|
                0 <= i < split_on(h, ',').len() && #[trigger] roles_from_header(h)[j] == trim(
                    split_on(h, ',')[i],
                ),
{
    lemma_nonempty_trimmed_complete(split_on(h, ','));
}

proof fn lemma_nonempty_trimmed_complete(pieces: Seq<Seq<char>>)
    ensures
        forall|i: int|
            0 <= i < pieces.len() && trim(#[trigger] pieces[i]).len() > 0 ==> nonempty_trimmed(
                pieces,
            ).contains(trim(pieces[i])),
        forall|j: int|
            0 <= j < nonempty_trimmed(pieces).len() ==> exists|i: int|
                0 <= i < pieces.len() && #[trigger] nonempty_trimmed(pieces)[j] == trim(pieces[i]),
    decreases pieces.len(),
{
    if pieces.len() > 0 {
        let init = pieces.drop_last();
        let rest = nonempty_trimmed(init);
        lemma_nonempty_trimmed_complete(init);
        let t = trim(pieces.last());
        let out = nonempty_trimmed(pieces);
        assert forall|i: int|
            0 <= i < pieces.len() && trim(#[trigger] pieces[i]).len() > 0 implies out.contains(
            trim(pieces[i]),
        ) by {
            if i < pieces.len() - 1 {
                assert(pieces[i] == init[i]);
                let k = choose|k: int| 0 <= k < rest.len() && rest[k] == trim(init[i]);
                if t.len() > 0 {
                    assert(out[k] == rest[k]);
                } else {
                    assert(out[k] == rest[k]);
                }
            } else {
                assert(out[out.len() - 1] == t);
            }
        }
        assert forall|j: int| 0 <= j < out.len() implies exists|i: int|
            0 <= i < pieces.len() && #[trigger] out[j] == trim(pieces[i]) by {
            if j < rest.len() {
                let i = choose|i: int| 0 <= i < init.len() && rest[j] == trim(init[i]);
                assert(out[j] == rest[j]);
                assert(init[i] == pieces[i]);
            } else {
                assert(out[j] == trim(pieces[pieces.len() - 1]));
            }
        }
    }
}

/// The scheme prefix of a bearer `Authorization` header.
pub open spec fn bearer_prefix() -> Seq<char> {
    "Bearer "@
}

/// The token that a bearer `Authorization` header carries, when a token
/// secret is configured: the rest of the header after `Bearer `, trimmed.
pub open spec fn bearer_token_of(jwt_configured: bool, authorization: Option<Seq<char>>) -> Option<
    Seq<char>,
> {
    if jwt_configured && authorization is Some && starts_with(
        authorization->0,
        bearer_prefix(),
    ) {
        Some(
            trim(
                authorization->0.subrange(
                    bearer_prefix().len() as int,
                    authorization->0.len() as int,
                ),
            ),
        )
    } else {
        None
    }
}

/// The view of an optional string slice.
pub open spec fn opt_view(s: Option<&str>) -> Option<Seq<char>> {
    match s {
        Some(t) => Some(t@),
        None => None,
    }
}

/// Where the tenant context of a request comes from: a bearer token that the
/// caller decodes, or the development headers, already read.
#[derive(Debug)]
pub enum ContextSource {
    BearerToken(String),
    Headers(TenantContext),
}

/// What the request headers give: the bearer token when a secret is
/// configured and one is sent; otherwise the context from `x-tenant-id`
/// (which must parse as a UUID) and `x-roles`, with no workspace or user.
pub open spec fn context_from_headers(
    jwt_configured: bool,
    authorization: Option<Seq<char>>,
    tenant_header: Option<Seq<char>>,
    roles_header: Option<Seq<char>>,
    r: Result<ContextSource, ApiError>,
) -> bool {
    match bearer_token_of(jwt_configured, authorization) {
        Some(token) => r matches Ok(ContextSource::BearerToken(t)) && t@ == token,
        None => match tenant_header {
            None => r == Err::<ContextSource, ApiError>(ApiError::Unauthorized),
            Some(h) => match uuid_parse(h) {
                None => r == Err::<ContextSource, ApiError>(ApiError::Unauthorized),
                Some(id) => r matches Ok(ContextSource::Headers(ctx)) && ctx.tenant_id == id
                    && ctx.workspace_id is None && ctx.user_id is None && ctx.role_names() == (
                match roles_header {
                    Some(rh) => roles_from_header(rh),
                    None => Seq::<Seq<char>>::empty(),
                }),
            },
        },
    }
}

/// Reads the tenant context of a request from its header values (each
/// present only when it is valid visible text): `Authorization`,
/// `x-tenant-id` and `x-roles`. `jwt_secret` is the configured token secret.
pub fn extract_context(
    jwt_secret: Option<&str>,
    authorization: Option<&str>,
    tenant_header: Option<&str>,
    roles_header: Option<&str>,
) -> (r: Result<ContextSource, ApiError>)
    ensures
        context_from_headers(
            jwt_secret is Some,
            opt_view(authorization),
            opt_view(tenant_header),
            opt_view(roles_header),
            r,
        ),
        forall|v: u128|
            bearer_token_of(jwt_secret is Some, opt_view(authorization)) is None && opt_view(
                tenant_header,
            ) == Some(#[trigger] uuid_hyphenated_text(v)) ==> (r matches Ok(
                ContextSource::Headers(ctx),
            ) && ctx.tenant_id == v),
{
    if jwt_secret.is_some() {
        if let Some(auth) = authorization {
            if let Some(rest) = strip_prefix_text(auth, "Bearer ") {
                let token = trim_text(rest);
                return Ok(ContextSource::BearerToken(String::from_str(token)));
            }
        }
    }
    let tenant_id = match tenant_header {
        Some(h) => match parse_uuid(h) {
            Some(id) => id,
            None => return Err(ApiError::Unauthorized),
        },
        None => return Err(ApiError::Unauthorized),
    };
    let roles = match roles_header {
        Some(h) => parse_roles(h),
        None => {
            let v: Vec<String> = Vec::new();
            assert(strings_view(v@) =~= Seq::<Seq<char>>::empty());
            v
        },
    };
    Ok(ContextSource::Headers(TenantContext { tenant_id, workspace_id: None, user_id: None, roles }))
}

/// The caller holds a role named `role`.
pub open spec fn holds(ctx: &TenantContext, role: Seq<char>) -> bool {
    ctx.role_names().contains(role)
}

/// Listing tenants is for `tenant_admin` only.
pub fn authorize_tenant_listing(ctx: &TenantContext) -> (r: Result<(), ApiError>)
    ensures
        r is Ok <==> holds(ctx, "tenant_admin"@),
        r is Err ==> r == Err::<(), ApiError>(ApiError::Forbidden),
{
    if !ctx.has_role("tenant_admin") {
        return Err(ApiError::Forbidden);
    }
    Ok(())
}

/// Starting a workflow run is for `tenant_admin` or `builder`.
pub fn authorize_workflow_run(ctx: &TenantContext) -> (r: Result<(), ApiError>)
    ensures
        r is Ok <==> (holds(ctx, "tenant_admin"@) || holds(ctx, "builder"@)),
        r is Err ==> r == Err::<(), ApiError>(ApiError::Forbidden),
{
    if !ctx.has_role("tenant_admin") && !ctx.has_role("builder") {
        return Err(ApiError::Forbidden);
    }
    Ok(())
}

/// Deciding an approval is for `tenant_admin` or `approver`.
pub fn authorize_approval_decision(ctx: &TenantContext) -> (r: Result<(), ApiError>)
    ensures
        r is Ok <==> (holds(ctx, "tenant_admin"@) || holds(ctx, "approver"@)),
        r is Err ==> r == Err::<(), ApiError>(ApiError::Forbidden),
{
    if !ctx.has_role("tenant_admin") && !ctx.has_role("approver") {
        return Err(ApiError::Forbidden);
    }
    Ok(())
}

} // verus!
