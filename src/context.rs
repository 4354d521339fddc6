use vstd::prelude::*;
use vstd::string::*;

use crate::http::{encode_params, Request, RequestError, WireRequest, API_BASE, USER_AGENT};
use crate::permission::{PermissionSet, Permissions};

verus! {

/// What a context is made from.
#[derive(Clone, Debug)]
pub struct ContextConfig<'conf> {
    /// The bot's token, as the platform's application page shows it.
    pub token: &'conf str,
}

/// The bot's credentials and the permissions it holds: every request is
/// checked against those permissions before anything is sent.
#[derive(Clone, Debug)]
pub struct Context {
    /// The value of the `Authorization` header: the token after `Bot `.
    pub token: String,
    /// The permissions the bot holds.
    pub permissions: PermissionSet,
}

/// Whether a request's permissions are all held.
pub open spec fn authorized(granted: PermissionSet, request: Request) -> bool {
    request.required_permissions@.subset_of(granted@)
}

/// The wire form of an authorized request.
pub open spec fn wire_form(ctx: Context, request: Request, body: Option<String>, w: WireRequest) -> bool {
    &&& w.method == request.method
    &&& w.uri@ == API_BASE@ + request.endpoint@
    &&& w.user_agent@ == USER_AGENT@
    &&& w.authorization@ == ctx.token@
    &&& w.body == body
}

/// The refusal of an unauthorized request: exactly the permissions it lacks.
pub open spec fn refusal(ctx: Context, request: Request, e: RequestError) -> bool {
    &&& e == RequestError::MissingPermissions(ctx.permissions.spec_missing(request.required_permissions))
    &&& e matches RequestError::MissingPermissions(lacking)
        && lacking@ == request.required_permissions@.difference(ctx.permissions@)
}

impl Context {
    /// A context for the configured token, holding every permission.
    pub fn new(config: &ContextConfig) -> (r: Context)
        ensures
            r.token@ == "Bot "@ + config.token@,
            r.permissions.wf(),
            r.permissions@ == Set::<Permissions>::full(),
    {
        let mut token = String::from_str("Bot ");
        token.append(config.token);
        Context { token, permissions: PermissionSet::all() }
    }

    /// The same context, holding the given permissions instead.
    pub fn with_permissions(self, permissions: PermissionSet) -> (r: Context)
        ensures
            r.token == self.token,
            r.permissions == permissions,
    {
        Context { permissions, ..self }
    }

    /// Checks the request's permissions and, where they are all held, forms the
    /// request to send with the given JSON body. Nothing is sent here: a
    /// refused request never reaches the transport.
    pub fn prepare(&self, request: Request, body: Option<String>) -> (r: Result<
        WireRequest,
        RequestError,
    >)
        requires
            self.permissions.wf(),
            request.required_permissions.wf(),
        ensures
            r is Ok <==> authorized(self.permissions, request),
            r matches Ok(w) ==> wire_form(*self, request, body, w),
            r matches Err(e) ==> refusal(*self, request, e),
    {
        if !self.permissions.contains(request.required_permissions) {
            return Err(RequestError::MissingPermissions(self.permissions.missing(request.required_permissions)));
        }
        let mut uri = String::from_str(API_BASE);
        uri.append(request.endpoint.as_str());
        Ok(WireRequest {
            method: request.method,
            uri,
            user_agent: String::from_str(USER_AGENT),
            authorization: self.token.clone(),
            body,
        })
    }

    /// Forms a request without a body.
    pub fn empty_request(&self, request: Request) -> (r: Result<WireRequest, RequestError>)
        requires
            self.permissions.wf(),
            request.required_permissions.wf(),
        ensures
            r is Ok <==> authorized(self.permissions, request),
            r matches Ok(w) ==> wire_form(*self, request, None, w),
            r matches Err(e) ==> refusal(*self, request, e),
    {
        self.prepare(request, None)
    }

    /// Forms a request whose body is the JSON text of `params`. The
    /// permissions are checked first; a value that cannot be written as JSON
    /// is a decode error.
    pub fn request_with_params<P: serde::Serialize>(&self, request: Request, params: &P) -> (r:
        Result<WireRequest, RequestError>)
        requires
            self.permissions.wf(),
            request.required_permissions.wf(),
        ensures
            !authorized(self.permissions, request) ==> (r matches Err(e) && refusal(*self, request, e)),
            authorized(self.permissions, request) ==> match r {
                Ok(w) => w.body is Some && wire_form(*self, request, w.body, w),
                Err(e) => e is Decode,
            },
    {
        if !self.permissions.contains(request.required_permissions) {
            return Err(RequestError::MissingPermissions(self.permissions.missing(request.required_permissions)));
        }
        match encode_params(params) {
            Ok(text) => self.prepare(request, Some(text)),
            Err(e) => Err(e),
        }
    }
}

} // verus!
