//! The state machine behind accepting and rejecting an invitation.
//!
//! [`InviteFlow::begin`] hashes the link's verifier and asks for a session;
//! afterwards [`InviteFlow::step`] takes what the store answered to the last action
//! and gives the next state and the next action, until the action is
//! [`InviteAction::Finish`] and [`InviteFlow::outcome`] holds the handler's answer.
use vstd::prelude::*;
use vstd::string::*;

use crate::error::{CustomError, ErrorModel};
use crate::foreign::utf8_len;
use crate::invitation::{
    hash_invitation_verifier, strings_view, team_full, team_is_full, unnamed,
    verifier_accepted, verifier_hash_of, verifier_matches, Invitation, InvitationModel,
    UserModel, UserRecord,
};

verus! {

/// Whether the link is followed to join the team or to turn the invitation down.
#[derive(Clone, Copy, Debug, PartialEq, Eq)]
pub enum Purpose {
    Accept,
    Reject,
}

/// What the store answered to the last action.
pub enum InviteEvent {
    /// A transaction is open and row-level security is set for the user `user_id`.
    Session { user_id: i32 },
    /// The invitation that the selector finds.
    Invitation(Invitation),
    /// The license of the invitation's team.
    License { tier: i32 },
    /// The tier of that license.
    Tier { team_limit: i32 },
    /// The number of the team's members.
    TeamUsers { count: usize },
    /// A user record.
    User(UserRecord),
    /// A write or the commit went through.
    Written,
    /// The store failed, with its message.
    Failed(String),
}

/// The model of an [`InviteEvent`].
pub enum EventModel {
    Session { user_id: i32 },
    Invitation(InvitationModel),
    License { tier: i32 },
    Tier { team_limit: i32 },
    TeamUsers { count: usize },
    User(UserModel),
    Written,
    Failed(Seq<char>),
}

impl View for InviteEvent {
    type V = EventModel;

    open spec fn view(&self) -> EventModel {
        match self {
            InviteEvent::Session { user_id } => EventModel::Session { user_id: *user_id },
            InviteEvent::Invitation(inv) => EventModel::Invitation(inv@),
            InviteEvent::License { tier } => EventModel::License { tier: *tier },
            InviteEvent::Tier { team_limit } => EventModel::Tier { team_limit: *team_limit },
            InviteEvent::TeamUsers { count } => EventModel::TeamUsers { count: *count },
            InviteEvent::User(u) => EventModel::User(u@),
            InviteEvent::Written => EventModel::Written,
            InviteEvent::Failed(m) => EventModel::Failed(m@),
        }
    }
}

/// What the machine asks of the store next.
pub enum InviteAction {
    /// Open a transaction and set row-level security for the current user.
    OpenSession,
    /// Read the invitation with this selector.
    FetchInvitation { selector: String },
    /// Read the license of the team.
    FetchLicense { team_id: i32 },
    /// Read the tier.
    FetchTier { tier: i32 },
    /// Count the team's members.
    FetchTeamUsers { team_id: i32 },
    /// Read the user with this id.
    FetchUser { user_id: i32 },
    /// Read the user with this email address.
    FetchUserByEmail { email: String },
    /// Make the user a member of the team with these roles.
    AddUserToTeam { user_id: i32, team_id: i32, roles: Vec<String> },
    /// Give the user these names.
    SetName { first_name: String, last_name: String, user_id: i32 },
    /// Delete the invitation sent to this address for this team.
    DeleteInvitation { email: String, team_id: i32 },
    /// Commit the transaction.
    Commit,
    /// Nothing more: the outcome is ready (an open transaction is dropped, not committed).
    Finish,
}

/// The model of an [`InviteAction`].
pub enum ActionModel {
    OpenSession,
    FetchInvitation { selector: Seq<char> },
    FetchLicense { team_id: i32 },
    FetchTier { tier: i32 },
    FetchTeamUsers { team_id: i32 },
    FetchUser { user_id: i32 },
    FetchUserByEmail { email: Seq<char> },
    AddUserToTeam { user_id: i32, team_id: i32, roles: Seq<Seq<char>> },
    SetName { first_name: Seq<char>, last_name: Seq<char>, user_id: i32 },
    DeleteInvitation { email: Seq<char>, team_id: i32 },
    Commit,
    Finish,
}

impl View for InviteAction {
    type V = ActionModel;

    open spec fn view(&self) -> ActionModel {
        match self {
            InviteAction::OpenSession => ActionModel::OpenSession,
            InviteAction::FetchInvitation { selector } => ActionModel::FetchInvitation { selector: selector@ },
            InviteAction::FetchLicense { team_id } => ActionModel::FetchLicense { team_id: *team_id },
            InviteAction::FetchTier { tier } => ActionModel::FetchTier { tier: *tier },
            InviteAction::FetchTeamUsers { team_id } => ActionModel::FetchTeamUsers { team_id: *team_id },
            InviteAction::FetchUser { user_id } => ActionModel::FetchUser { user_id: *user_id },
            InviteAction::FetchUserByEmail { email } => ActionModel::FetchUserByEmail { email: email@ },
            InviteAction::AddUserToTeam { user_id, team_id, roles } => ActionModel::AddUserToTeam {
                user_id: *user_id,
                team_id: *team_id,
                roles: strings_view(*roles),
            },
            InviteAction::SetName { first_name, last_name, user_id } => ActionModel::SetName {
                first_name: first_name@,
                last_name: last_name@,
                user_id: *user_id,
            },
            InviteAction::DeleteInvitation { email, team_id } => ActionModel::DeleteInvitation {
                email: email@,
                team_id: *team_id,
            },
            InviteAction::Commit => ActionModel::Commit,
            InviteAction::Finish => ActionModel::Finish,
        }
    }
}

/// What is known once the invitation is read.
pub struct Pending {
    pub purpose: Purpose,
    /// The current user, as the session knows them.
    pub user_id: i32,
    /// Whether the link's verifier is accepted for the stored invitation.
    pub verified: bool,
    pub invitation: Invitation,
}

/// The model of a [`Pending`].
pub struct PendingModel {
    pub purpose: Purpose,
    pub user_id: i32,
    pub verified: bool,
    pub invitation: InvitationModel,
}

impl View for Pending {
    type V = PendingModel;

    open spec fn view(&self) -> PendingModel {
        PendingModel {
            purpose: self.purpose,
            user_id: self.user_id,
            verified: self.verified,
            invitation: self.invitation@,
        }
    }
}

/// The state of an invitation being accepted or rejected; each state but `Done`
/// waits for the answer to one action.
pub enum InviteFlow {
    AwaitSession { purpose: Purpose, selector: String, verifier: String, verifier_hash: String },
    AwaitInvitation { purpose: Purpose, verifier: String, verifier_hash: String, user_id: i32 },
    AwaitLicense(Pending),
    AwaitTier(Pending),
    AwaitTeamUsers(Pending, i32),
    AwaitUser(Pending),
    AwaitUserByEmail(Pending),
    AwaitAdded {
        user_id: i32,
        team_id: i32,
        email: String,
        first_name: String,
        last_name: String,
        unnamed: bool,
    },
    AwaitNameSet { team_id: i32, email: String },
    AwaitDeleted { team_id: i32 },
    AwaitCommit { team_id: i32 },
    /// The handler's answer: the invitation's team, or an error.
    Done(Result<i32, CustomError>),
}

/// The model of an [`InviteFlow`].
pub enum FlowModel {
    AwaitSession { purpose: Purpose, selector: Seq<char>, verifier: Seq<char>, verifier_hash: Seq<char> },
    AwaitInvitation { purpose: Purpose, verifier: Seq<char>, verifier_hash: Seq<char>, user_id: i32 },
    AwaitLicense(PendingModel),
    AwaitTier(PendingModel),
    AwaitTeamUsers(PendingModel, i32),
    AwaitUser(PendingModel),
    AwaitUserByEmail(PendingModel),
    AwaitAdded {
        user_id: i32,
        team_id: i32,
        email: Seq<char>,
        first_name: Seq<char>,
        last_name: Seq<char>,
        unnamed: bool,
    },
    AwaitNameSet { team_id: i32, email: Seq<char> },
    AwaitDeleted { team_id: i32 },
    AwaitCommit { team_id: i32 },
    Done(Result<i32, ErrorModel>),
}

/// A handler's answer taken by its view.
pub open spec fn outcome_view(r: Result<i32, CustomError>) -> Result<i32, ErrorModel> {
    match r {
        Ok(team_id) => Ok(team_id),
        Err(e) => Err(e@),
    }
}

impl View for InviteFlow {
    type V = FlowModel;

    open spec fn view(&self) -> FlowModel {
        match self {
            InviteFlow::AwaitSession { purpose, selector, verifier, verifier_hash } => FlowModel::AwaitSession {
                purpose: *purpose,
                selector: selector@,
                verifier: verifier@,
                verifier_hash: verifier_hash@,
            },
            InviteFlow::AwaitInvitation { purpose, verifier, verifier_hash, user_id } => FlowModel::AwaitInvitation {
                purpose: *purpose,
                verifier: verifier@,
                verifier_hash: verifier_hash@,
                user_id: *user_id,
            },
            InviteFlow::AwaitLicense(p) => FlowModel::AwaitLicense(p@),
            InviteFlow::AwaitTier(p) => FlowModel::AwaitTier(p@),
            InviteFlow::AwaitTeamUsers(p, limit) => FlowModel::AwaitTeamUsers(p@, *limit),
            InviteFlow::AwaitUser(p) => FlowModel::AwaitUser(p@),
            InviteFlow::AwaitUserByEmail(p) => FlowModel::AwaitUserByEmail(p@),
            InviteFlow::AwaitAdded { user_id, team_id, email, first_name, last_name, unnamed } => FlowModel::AwaitAdded {
                user_id: *user_id,
                team_id: *team_id,
                email: email@,
                first_name: first_name@,
                last_name: last_name@,
                unnamed: *unnamed,
            },
            InviteFlow::AwaitNameSet { team_id, email } => FlowModel::AwaitNameSet { team_id: *team_id, email: email@ },
            InviteFlow::AwaitDeleted { team_id } => FlowModel::AwaitDeleted { team_id: *team_id },
            InviteFlow::AwaitCommit { team_id } => FlowModel::AwaitCommit { team_id: *team_id },
            InviteFlow::Done(r) => FlowModel::Done(outcome_view(*r)),
        }
    }
}

/// The message of the error that an answer out of turn ends the flow with.
pub open spec fn out_of_turn_message() -> Seq<char> {
    "the store answered out of turn"@
}

/// An answer that does not fit the state ends the flow.
pub open spec fn out_of_turn() -> (FlowModel, ActionModel) {
    (FlowModel::Done(Err(ErrorModel::FaultySetup(out_of_turn_message()))), ActionModel::Finish)
}

/// The state in which the handler only has to commit.
pub open spec fn to_commit(team_id: i32) -> (FlowModel, ActionModel) {
    (FlowModel::AwaitCommit { team_id }, ActionModel::Commit)
}

/// The first state and action for a link with this selector and verifier.
pub open spec fn spec_begin(purpose: Purpose, selector: Seq<char>, verifier: Seq<char>) -> (FlowModel, ActionModel) {
    match verifier_hash_of(verifier) {
        Ok(hash) => (
            FlowModel::AwaitSession { purpose, selector, verifier, verifier_hash: hash },
            ActionModel::OpenSession,
        ),
        Err(message) => (FlowModel::Done(Err(ErrorModel::FaultySetup(message))), ActionModel::Finish),
    }
}

/// The next state and action, given the store's answer to the last action.
pub open spec fn spec_step(flow: FlowModel, event: EventModel) -> (FlowModel, ActionModel) {
    match flow {
        FlowModel::Done(r) => (FlowModel::Done(r), ActionModel::Finish),
        _ => match event {
            EventModel::Failed(m) => (FlowModel::Done(Err(ErrorModel::Database(m))), ActionModel::Finish),
            _ => spec_answer(flow, event),
        },
    }
}

/// [`spec_step`] for a flow that is not done and an answer that is not a failure.
pub open spec fn spec_answer(flow: FlowModel, event: EventModel) -> (FlowModel, ActionModel) {
    match flow {
        FlowModel::AwaitSession { purpose, selector, verifier, verifier_hash } => match event {
            EventModel::Session { user_id } => (
                FlowModel::AwaitInvitation { purpose, verifier, verifier_hash, user_id },
                ActionModel::FetchInvitation { selector },
            ),
            _ => out_of_turn(),
        },
        FlowModel::AwaitInvitation { purpose, verifier, verifier_hash, user_id } => match event {
            EventModel::Invitation(inv) => {
                let verified = verifier_accepted(inv.verifier_hash, verifier_hash, verifier);
                let p = PendingModel { purpose, user_id, verified, invitation: inv };
                match purpose {
                    Purpose::Accept => (FlowModel::AwaitLicense(p), ActionModel::FetchLicense { team_id: inv.team_id }),
                    Purpose::Reject => if verified {
                        (FlowModel::AwaitUser(p), ActionModel::FetchUser { user_id })
                    } else {
                        to_commit(inv.team_id)
                    },
                }
            },
            _ => out_of_turn(),
        },
        FlowModel::AwaitLicense(p) => match event {
            EventModel::License { tier } => (FlowModel::AwaitTier(p), ActionModel::FetchTier { tier }),
            _ => out_of_turn(),
        },
        FlowModel::AwaitTier(p) => match event {
            EventModel::Tier { team_limit } => (
                FlowModel::AwaitTeamUsers(p, team_limit),
                ActionModel::FetchTeamUsers { team_id: p.invitation.team_id },
            ),
            _ => out_of_turn(),
        },
        FlowModel::AwaitTeamUsers(p, team_limit) => match event {
            EventModel::TeamUsers { count } => if team_is_full(count, team_limit) {
                (FlowModel::Done(Err(ErrorModel::TeamFull)), ActionModel::Finish)
            } else if p.verified {
                (FlowModel::AwaitUser(p), ActionModel::FetchUser { user_id: p.user_id })
            } else {
                to_commit(p.invitation.team_id)
            },
            _ => out_of_turn(),
        },
        FlowModel::AwaitUser(p) => match event {
            EventModel::User(u) => if u.email == p.invitation.email {
                match p.purpose {
                    Purpose::Accept => (FlowModel::AwaitUserByEmail(p), ActionModel::FetchUserByEmail { email: u.email }),
                    Purpose::Reject => (
                        FlowModel::AwaitDeleted { team_id: p.invitation.team_id },
                        ActionModel::DeleteInvitation { email: p.invitation.email, team_id: p.invitation.team_id },
                    ),
                }
            } else {
                to_commit(p.invitation.team_id)
            },
            _ => out_of_turn(),
        },
        FlowModel::AwaitUserByEmail(p) => match event {
            EventModel::User(u) => (
                FlowModel::AwaitAdded {
                    user_id: p.user_id,
                    team_id: p.invitation.team_id,
                    email: p.invitation.email,
                    first_name: p.invitation.first_name,
                    last_name: p.invitation.last_name,
                    unnamed: unnamed(u),
                },
                ActionModel::AddUserToTeam { user_id: u.id, team_id: p.invitation.team_id, roles: p.invitation.roles },
            ),
            _ => out_of_turn(),
        },
        FlowModel::AwaitAdded { user_id, team_id, email, first_name, last_name, unnamed } => match event {
            EventModel::Written => if unnamed {
                (FlowModel::AwaitNameSet { team_id, email }, ActionModel::SetName { first_name, last_name, user_id })
            } else {
                (FlowModel::AwaitDeleted { team_id }, ActionModel::DeleteInvitation { email, team_id })
            },
            _ => out_of_turn(),
        },
        FlowModel::AwaitNameSet { team_id, email } => match event {
            EventModel::Written => (FlowModel::AwaitDeleted { team_id }, ActionModel::DeleteInvitation { email, team_id }),
            _ => out_of_turn(),
        },
        FlowModel::AwaitDeleted { team_id } => match event {
            EventModel::Written => to_commit(team_id),
            _ => out_of_turn(),
        },
        FlowModel::AwaitCommit { team_id } => match event {
            EventModel::Written => (FlowModel::Done(Ok(team_id)), ActionModel::Finish),
            _ => out_of_turn(),
        },
        FlowModel::Done(r) => (FlowModel::Done(r), ActionModel::Finish),
    }
}

/// The error that an answer out of turn ends the flow with.
fn out_of_turn_exec() -> (r: (InviteFlow, InviteAction))
    ensures
        (r.0@, r.1@) == out_of_turn(),
{
    let message = String::from_str("the store answered out of turn");
    (InviteFlow::Done(Err(CustomError::FaultySetup(message))), InviteAction::Finish)
}

impl InviteFlow {
    /// Starts accepting or rejecting the invitation of a link: hashes the verifier
    /// (a verifier that is not URL-safe Base64 ends the flow with `FaultySetup`) and
    /// asks for a session.
    pub fn begin(purpose: Purpose, selector: String, verifier: String) -> (r: (InviteFlow, InviteAction))
        requires
            utf8_len(verifier@) <= isize::MAX,
        ensures
            (r.0@, r.1@) == spec_begin(purpose, selector@, verifier@),
    {
        match hash_invitation_verifier(verifier.as_str()) {
            Ok(verifier_hash) => (
                InviteFlow::AwaitSession { purpose, selector, verifier, verifier_hash },
                InviteAction::OpenSession,
            ),
            Err(e) => (InviteFlow::Done(Err(e)), InviteAction::Finish),
        }
    }

    /// Whether the flow has its outcome.
    pub fn is_done(&self) -> (r: bool)
        ensures
            r == (self@ is Done),
    {
        match self {
            InviteFlow::Done(_) => true,
            _ => false,
        }
    }

    /// The handler's answer, once the flow is done.
    pub fn outcome(self) -> (r: Option<Result<i32, CustomError>>)
        ensures
            match self@ {
                FlowModel::Done(o) => r matches Some(x) && outcome_view(x) == o,
                _ => r is None,
            },
    {
        match self {
            InviteFlow::Done(o) => Some(o),
            _ => None,
        }
    }

    /// Takes the store's answer to the last action; gives the next state and action.
    pub fn step(self, event: InviteEvent) -> (r: (InviteFlow, InviteAction))
        ensures
            (r.0@, r.1@) == spec_step(self@, event@),
    {
        if let InviteFlow::Done(o) = self {
            return (InviteFlow::Done(o), InviteAction::Finish);
        }
        match event {
            InviteEvent::Failed(m) => (InviteFlow::Done(Err(CustomError::Database(m))), InviteAction::Finish),
            event => self.answer(event),
        }
    }

    /// [`InviteFlow::step`] for a flow that is not done and an answer that is not a failure.
    fn answer(self, event: InviteEvent) -> (r: (InviteFlow, InviteAction))
        ensures
            (r.0@, r.1@) == spec_answer(self@, event@),
    {
        match self {
            InviteFlow::AwaitSession { purpose, selector, verifier, verifier_hash } => match event {
                InviteEvent::Session { user_id } => (
                    InviteFlow::AwaitInvitation { purpose, verifier, verifier_hash, user_id },
                    InviteAction::FetchInvitation { selector },
                ),
                _ => out_of_turn_exec(),
            },
            InviteFlow::AwaitInvitation { purpose, verifier, verifier_hash, user_id } => match event {
                InviteEvent::Invitation(invitation) => {
                    let verified = verifier_matches(&invitation.invitation_verifier_hash, &verifier_hash, &verifier);
                    let team_id = invitation.team_id;
                    let p = Pending { purpose, user_id, verified, invitation };
                    match purpose {
                        Purpose::Accept => (InviteFlow::AwaitLicense(p), InviteAction::FetchLicense { team_id }),
                        Purpose::Reject => if verified {
                            (InviteFlow::AwaitUser(p), InviteAction::FetchUser { user_id })
                        } else {
                            (InviteFlow::AwaitCommit { team_id }, InviteAction::Commit)
                        },
                    }
                },
                _ => out_of_turn_exec(),
            },
            InviteFlow::AwaitLicense(p) => match event {
                InviteEvent::License { tier } => (InviteFlow::AwaitTier(p), InviteAction::FetchTier { tier }),
                _ => out_of_turn_exec(),
            },
            InviteFlow::AwaitTier(p) => match event {
                InviteEvent::Tier { team_limit } => {
                    let team_id = p.invitation.team_id;
                    (InviteFlow::AwaitTeamUsers(p, team_limit), InviteAction::FetchTeamUsers { team_id })
                },
                _ => out_of_turn_exec(),
            },
            InviteFlow::AwaitTeamUsers(p, team_limit) => match event {
                InviteEvent::TeamUsers { count } => if team_full(count, team_limit) {
                    (InviteFlow::Done(Err(CustomError::TeamFull)), InviteAction::Finish)
                } else if p.verified {
                    let user_id = p.user_id;
                    (InviteFlow::AwaitUser(p), InviteAction::FetchUser { user_id })
                } else {
                    let team_id = p.invitation.team_id;
                    (InviteFlow::AwaitCommit { team_id }, InviteAction::Commit)
                },
                _ => out_of_turn_exec(),
            },
            InviteFlow::AwaitUser(p) => match event {
                InviteEvent::User(u) => {
                    let team_id = p.invitation.team_id;
                    if u.email == p.invitation.email {
                        match p.purpose {
                            Purpose::Accept => (
                                InviteFlow::AwaitUserByEmail(p),
                                InviteAction::FetchUserByEmail { email: u.email },
                            ),
                            Purpose::Reject => (
                                InviteFlow::AwaitDeleted { team_id },
                                InviteAction::DeleteInvitation { email: p.invitation.email, team_id },
                            ),
                        }
                    } else {
                        (InviteFlow::AwaitCommit { team_id }, InviteAction::Commit)
                    }
                },
                _ => out_of_turn_exec(),
            },
            InviteFlow::AwaitUserByEmail(p) => match event {
                InviteEvent::User(u) => {
                    let unnamed = u.first_name.is_none() && u.last_name.is_none();
                    let Invitation { team_id, email, first_name, last_name, invitation_verifier_hash: _, roles } =
                        p.invitation;
                    (
                        InviteFlow::AwaitAdded { user_id: p.user_id, team_id, email, first_name, last_name, unnamed },
                        InviteAction::AddUserToTeam { user_id: u.id, team_id, roles },
                    )
                },
                _ => out_of_turn_exec(),
            },
            InviteFlow::AwaitAdded { user_id, team_id, email, first_name, last_name, unnamed } => match event {
                InviteEvent::Written => if unnamed {
                    (InviteFlow::AwaitNameSet { team_id, email }, InviteAction::SetName { first_name, last_name, user_id })
                } else {
                    (InviteFlow::AwaitDeleted { team_id }, InviteAction::DeleteInvitation { email, team_id })
                },
                _ => out_of_turn_exec(),
            },
            InviteFlow::AwaitNameSet { team_id, email } => match event {
                InviteEvent::Written => (InviteFlow::AwaitDeleted { team_id }, InviteAction::DeleteInvitation { email, team_id }),
                _ => out_of_turn_exec(),
            },
            InviteFlow::AwaitDeleted { team_id } => match event {
                InviteEvent::Written => (InviteFlow::AwaitCommit { team_id }, InviteAction::Commit),
                _ => out_of_turn_exec(),
            },
            InviteFlow::AwaitCommit { team_id } => match event {
                InviteEvent::Written => (InviteFlow::Done(Ok(team_id)), InviteAction::Finish),
                _ => out_of_turn_exec(),
            },
            InviteFlow::Done(o) => (InviteFlow::Done(o), InviteAction::Finish),
        }
    }
}

} // verus!
