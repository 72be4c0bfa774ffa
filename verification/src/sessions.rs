//! Decision logic of the controller's account routes.
//!
//! The HTTP handlers and their database calls are outside collaborators; this
//! module holds what they decide and compute: recognising a bearer token in
//! an authorization header, naming a session from parsed user-agent parts,
//! shaping the session listing, choosing what a logout request invalidates,
//! and judging whether an account may be deleted.

use vstd::prelude::*;
use vstd::string::{StringExecFns, StrSliceExecFns};

verus! {

/// What a member may do within a team.
#[derive(Clone, Copy, Debug, PartialEq, Eq, Structural)]
pub enum TeamPermissions {
    OWNER,
    ADMIN,
    EDITOR,
    VIEWER,
}

impl TeamPermissions {
    /// The value persisted for this permission level.
    pub open spec fn spec_str(self) -> Seq<char> {
        match self {
            TeamPermissions::OWNER => "OWNER"@,
            TeamPermissions::ADMIN => "ADMIN"@,
            TeamPermissions::EDITOR => "EDITOR"@,
            TeamPermissions::VIEWER => "VIEWER"@,
        }
    }

    /// Stable textual form of the permission level.
    pub fn as_str(&self) -> (r: &'static str)
        ensures
            r@ == self.spec_str(),
    {
        match self {
            TeamPermissions::OWNER => "OWNER",
            TeamPermissions::ADMIN => "ADMIN",
            TeamPermissions::EDITOR => "EDITOR",
            TeamPermissions::VIEWER => "VIEWER",
        }
    }
}

/// What the session logic reads of a stored session: its identifier, display
/// name, source address and the identifier of the user it belongs to.
pub struct SessionSummary {
    pub id: String,
    pub name: String,
    pub ip: String,
    pub context: String,
}

/// One session as presented in the session listing.
pub struct ListSession {
    pub id: String,
    pub name: String,
    pub ip: String,
}

/// The body of the session-listing response.
pub struct ListSessionsResponse {
    pub sessions: Vec<ListSession>,
}

/// Shapes the session listing for a user: every stored session, in order,
/// reduced to its presentable fields.
pub fn list_sessions(user_sessions: &Vec<SessionSummary>) -> (r: ListSessionsResponse)
    ensures
        r.sessions@.len() == user_sessions@.len(),
        forall|i: int|
            0 <= i < user_sessions@.len() ==> {
                &&& (#[trigger] r.sessions@[i]).id@ == user_sessions@[i].id@
                &&& r.sessions@[i].name@ == user_sessions@[i].name@
                &&& r.sessions@[i].ip@ == user_sessions@[i].ip@
            },
{
    let mut listed: Vec<ListSession> = Vec::new();
    let n = user_sessions.len();
    for i in 0..n
        invariant
            n == user_sessions@.len(),
            listed@.len() == i,
            forall|k: int|
                0 <= k < i ==> {
                    &&& (#[trigger] listed@[k]).id@ == user_sessions@[k].id@
                    &&& listed@[k].name@ == user_sessions@[k].name@
                    &&& listed@[k].ip@ == user_sessions@[k].ip@
                },
    {
        let s = &user_sessions[i];
        listed.push(ListSession { id: s.id.clone(), name: s.name.clone(), ip: s.ip.clone() });
    }
    ListSessionsResponse { sessions: listed }
}

/// Extracts the token from a bearer authorization header: the text after the
/// `"Bearer "` prefix, or nothing if the header is not a bearer credential.
pub fn parse_bearer_token(header: &str) -> (r: Option<&str>)
    ensures
        match r {
            Some(token) => {
                &&& header@.len() >= 7
                &&& header@.subrange(0, 7) == "Bearer "@
                &&& token@ == header@.skip(7)
            },
            None => !(header@.len() >= 7 && header@.subrange(0, 7) =~= "Bearer "@),
        },
{
    let pattern = "Bearer ";
    proof {
        reveal_strlit("Bearer ");
    }
    let n = header.unicode_len();
    if n < 7 {
        return None;
    }
    for i in 0..7usize
        invariant
            n == header@.len(),
            n >= 7,
            pattern@ == "Bearer "@ && pattern@.len() == 7,
            forall|k: int| 0 <= k < i ==> header@[k] == pattern@[k],
    {
        if header.get_char(i) != pattern.get_char(i) {
            return None;
        }
    }
    proof {
        assert(header@.subrange(0, 7) =~= "Bearer "@);
    }
    let token = header.substring_char(7, n);
    proof {
        assert(token@ =~= header@.skip(7));
    }
    Some(token)
}

/// Builds the display name of a session from the parsed user-agent: product
/// name and major version, then a separator, then operating system name and
/// major version, with `"Unknown"` standing in for an unparsed name.
pub open spec fn spec_agent_part(name: Option<Seq<char>>, major: Option<Seq<char>>) -> Seq<char> {
    (match name {
        Some(n) => n,
        None => "Unknown"@,
    }) + (match major {
        Some(m) => " "@ + m,
        None => Seq::<char>::empty(),
    })
}

/// View of an optional borrowed string.
pub open spec fn opt_view(s: Option<&str>) -> Option<Seq<char>> {
    match s {
        Some(x) => Some(x@),
        None => None,
    }
}

/// Assembles a session's display name from the product and operating-system
/// parts the user-agent parser extracted from the request header.
pub fn assemble_session_name(
    product_name: Option<&str>,
    product_major: Option<&str>,
    os_name: Option<&str>,
    os_major: Option<&str>,
) -> (r: String)
    ensures
        r@ == spec_agent_part(opt_view(product_name), opt_view(product_major)) + " / "@
            + spec_agent_part(opt_view(os_name), opt_view(os_major)),
{
    let mut out = String::new();
    match product_name {
        Some(n) => out.append(n),
        None => out.append("Unknown"),
    }
    if let Some(m) = product_major {
        out.append(" ");
        out.append(m);
    }
    out.append(" / ");
    match os_name {
        Some(n) => out.append(n),
        None => out.append("Unknown"),
    }
    if let Some(m) = os_major {
        out.append(" ");
        out.append(m);
    }
    proof {
        assert(out@ =~= spec_agent_part(opt_view(product_name), opt_view(product_major)) + " / "@
            + spec_agent_part(opt_view(os_name), opt_view(os_major)));
    }
    out
}

/// Why a bearer credential was rejected: the header was absent, it was not
/// a bearer credential, or its token named no live session.
#[derive(Clone, Copy, Debug, PartialEq, Eq, Structural)]
pub enum BearerRejection {
    MissingHeader,
    NotBearer,
    UnknownToken,
}

/// What the account routes read of a stored user: identifier and display
/// name.
pub struct UserSummary {
    pub id: String,
    pub name: String,
}

/// An authenticated caller: the user resolved from a bearer token, together
/// with the identifier of the session that token named.
pub struct UserFromBearer(pub (UserSummary, String));

/// Recognises the bearer credential in an optional authorization header: the
/// token to look up, or the exact reason the request is rejected.
pub fn bearer_token(header: Option<&str>) -> (r: Result<&str, BearerRejection>)
    ensures
        match r {
            Ok(token) => header matches Some(h) && h@.len() >= 7 && h@.subrange(0, 7)
                == "Bearer "@ && token@ == h@.skip(7),
            Err(e) => match e {
                BearerRejection::MissingHeader => header is None,
                BearerRejection::NotBearer => header matches Some(h) && !(h@.len() >= 7
                    && h@.subrange(0, 7) =~= "Bearer "@),
                BearerRejection::UnknownToken => false,
            },
        },
{
    match header {
        Some(h) => match parse_bearer_token(h) {
            Some(token) => Ok(token),
            None => Err(BearerRejection::NotBearer),
        },
        None => Err(BearerRejection::MissingHeader),
    }
}

impl UserFromBearer {
    /// Finishes the extraction once the token lookup has answered: a
    /// resolved user and session become the authenticated caller, and no
    /// match rejects the token.
    pub fn from_lookup(found: Option<(UserSummary, String)>) -> (r: Result<
        UserFromBearer,
        BearerRejection,
    >)
        ensures
            match r {
                Ok(u) => found matches Some(f) && u.0 == f,
                Err(e) => e == BearerRejection::UnknownToken && found is None,
            },
    {
        match found {
            Some(f) => Ok(UserFromBearer(f)),
            None => Err(BearerRejection::UnknownToken),
        }
    }
}

/// The body of a logout request: which session to invalidate.
pub struct LogoutInput {
    pub session_id: String,
}

/// What a logout request asks for: all of the user's sessions, the session
/// used for the request itself, or one named session.
#[derive(Clone, Copy, Debug, PartialEq, Eq, Structural)]
pub enum LogoutAction {
    InvalidateAll,
    InvalidateCurrent,
    InvalidateRequested,
}

/// Chooses what a logout request invalidates: `"ALL"` asks for every
/// session, the empty string for the current one, and anything else names a
/// session to look up.
pub fn logout_plan(payload: &LogoutInput) -> (r: LogoutAction)
    ensures
        payload.session_id@ == "ALL"@ ==> r == LogoutAction::InvalidateAll,
        payload.session_id@ == ""@ ==> r == LogoutAction::InvalidateCurrent,
        (payload.session_id@ != "ALL"@ && payload.session_id@ != ""@) ==> r
            == LogoutAction::InvalidateRequested,
{
    proof {
        reveal_strlit("ALL");
        reveal_strlit("");
        assert("ALL"@.len() == 3);
        assert(""@.len() == 0);
    }
    if payload.session_id == String::from_str("ALL") {
        LogoutAction::InvalidateAll
    } else if payload.session_id == String::from_str("") {
        LogoutAction::InvalidateCurrent
    } else {
        LogoutAction::InvalidateRequested
    }
}

/// Decides whether a looked-up session may be invalidated by this user: only
/// a session that exists and belongs to the requesting user, in which case
/// its identifier is the one to delete.
pub fn authorize_requested(requested: Option<&SessionSummary>, user_id: &String) -> (r: Option<
    String,
>)
    ensures
        match r {
            Some(id) => requested matches Some(s) && s.context@ == user_id@ && id@ == s.id@,
            None => !(requested matches Some(s) && s.context@ == user_id@),
        },
{
    match requested {
        Some(s) => {
            if s.context == *user_id {
                Some(s.id.clone())
            } else {
                None
            }
        },
        None => None,
    }
}

/// One team a user owns, as the deletion route sees it: the result of
/// looking the team up by its membership row, and whether it is the user's
/// personal team.
pub struct OwnedTeam {
    /// Whether the team the membership row points at still exists.
    pub found: bool,
    /// Whether the team is the user's personal team.
    pub personal: bool,
    /// The team's identifier.
    pub id: String,
}

/// What an account-deletion request comes to.
pub enum DeletePlan {
    /// A membership row points at a team that no longer exists: an internal
    /// inconsistency, reported and nothing deleted.
    MissingTeam,
    /// The user owns a team that is not their personal team: deletion is
    /// refused until they hand those teams over.
    OwnsNonPersonal,
    /// No personal team was found for the user: an internal inconsistency.
    NoPersonalTeam,
    /// Deletion may proceed: empty and remove this personal team, then the
    /// account.
    DeleteTeam(String),
}

/// Judges an account-deletion request from the teams the user owns, in the
/// order they were looked up: the first team that no longer exists makes the
/// request an internal inconsistency, the first non-personal team makes it
/// refused, and otherwise the user's personal team is the one to delete.
pub fn plan_user_deletion(owned: &Vec<OwnedTeam>) -> (r: DeletePlan)
    ensures
        match r {
            DeletePlan::MissingTeam => exists|i: int|
                0 <= i < owned@.len() && !(#[trigger] owned@[i]).found && (forall|j: int|
                    0 <= j < i ==> (#[trigger] owned@[j]).found && owned@[j].personal),
            DeletePlan::OwnsNonPersonal => exists|i: int|
                0 <= i < owned@.len() && (#[trigger] owned@[i]).found && !owned@[i].personal && (
                forall|j: int| 0 <= j < i ==> (#[trigger] owned@[j]).found && owned@[j].personal),
            DeletePlan::NoPersonalTeam => owned@.len() == 0,
            DeletePlan::DeleteTeam(id) => {
                &&& owned@.len() > 0
                &&& forall|i: int|
                    0 <= i < owned@.len() ==> (#[trigger] owned@[i]).found && owned@[i].personal
                &&& id@ == owned@.last().id@
            },
        },
{
    let n = owned.len();
    for i in 0..n
        invariant
            n == owned@.len(),
            forall|j: int| 0 <= j < i ==> (#[trigger] owned@[j]).found && owned@[j].personal,
    {
        if !owned[i].found {
            return DeletePlan::MissingTeam;
        }
        if !owned[i].personal {
            return DeletePlan::OwnsNonPersonal;
        }
    }
    if n == 0 {
        DeletePlan::NoPersonalTeam
    } else {
        DeletePlan::DeleteTeam(owned[n - 1].id.clone())
    }
}

} // verus!
