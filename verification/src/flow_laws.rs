//! What a whole run of [`InviteFlow`](crate::flow::InviteFlow) does against a store
//! that finds every record and performs every write, and the laws that follow.
use vstd::prelude::*;

use crate::error::ErrorModel;
use crate::flow::{spec_begin, spec_step, ActionModel, EventModel, FlowModel, Purpose};
use crate::invitation::{verifier_hash_of, InvitationModel, UserModel};

verus! {

/// The records of a store in which every read finds its record and every write
/// goes through.
pub struct InviteWorld {
    /// The current user, as the session knows them.
    pub user_id: i32,
    /// The invitation that the selector finds.
    pub invitation: InvitationModel,
    /// The tier of the team's license.
    pub license_tier: i32,
    /// The member limit of that tier.
    pub team_limit: i32,
    /// The number of the team's members.
    pub members: usize,
    /// The user that the session's user id finds.
    pub user: UserModel,
    /// The user that the email address finds.
    pub user_by_email: UserModel,
}

/// What the store answers to an action.
pub open spec fn world_answer(world: InviteWorld, action: ActionModel) -> EventModel {
    match action {
        ActionModel::OpenSession => EventModel::Session { user_id: world.user_id },
        ActionModel::FetchInvitation { .. } => EventModel::Invitation(world.invitation),
        ActionModel::FetchLicense { .. } => EventModel::License { tier: world.license_tier },
        ActionModel::FetchTier { .. } => EventModel::Tier { team_limit: world.team_limit },
        ActionModel::FetchTeamUsers { .. } => EventModel::TeamUsers { count: world.members },
        ActionModel::FetchUser { .. } => EventModel::User(world.user),
        ActionModel::FetchUserByEmail { .. } => EventModel::User(world.user_by_email),
        _ => EventModel::Written,
    }
}

/// Drives the flow for at most `fuel` answers: the last state, and every action
/// asked for, the given one first.
pub open spec fn run(flow: FlowModel, action: ActionModel, world: InviteWorld, fuel: nat) -> (FlowModel, Seq<ActionModel>)
    decreases fuel,
{
    if fuel == 0 || action is Finish {
        (flow, seq![action])
    } else {
        let (next, next_action) = spec_step(flow, world_answer(world, action));
        let (last, rest) = run(next, next_action, world, (fuel - 1) as nat);
        (last, seq![action] + rest)
    }
}

/// A whole run of the handler for a link with this selector and verifier.
pub open spec fn handle(purpose: Purpose, selector: Seq<char>, verifier: Seq<char>, world: InviteWorld) -> (FlowModel, Seq<ActionModel>) {
    let (flow, action) = spec_begin(purpose, selector, verifier);
    run(flow, action, world, 12)
}

/// The reads before the decision whether the team is full.
pub open spec fn team_reads(selector: Seq<char>, world: InviteWorld) -> Seq<ActionModel> {
    seq![
        ActionModel::OpenSession,
        ActionModel::FetchInvitation { selector },
        ActionModel::FetchLicense { team_id: world.invitation.team_id },
        ActionModel::FetchTier { tier: world.license_tier },
        ActionModel::FetchTeamUsers { team_id: world.invitation.team_id },
    ]
}

/// Whether the team is full: it has at least as many members as the tier's limit read
/// as a `usize`, or the limit is zero.
pub open spec fn world_team_full(world: InviteWorld) -> bool {
    world.members >= world.team_limit as usize || world.team_limit == 0
}

/// Whether the link's verifier is accepted for the world's invitation: the stored hash
/// is the hash of the verifier, or the verifier is the stored hash itself.
pub open spec fn link_verified(verifier: Seq<char>, world: InviteWorld) -> bool {
    verifier_hash_of(verifier) matches Ok(hash) && (world.invitation.verifier_hash == hash
        || verifier == world.invitation.verifier_hash)
}

/// Whether the user that the invited address finds has neither a first nor a last name.
pub open spec fn joining_user_unnamed(world: InviteWorld) -> bool {
    world.user_by_email.first_name is None && world.user_by_email.last_name is None
}

/// Whether the user that follows the link is the one that the invitation was sent to.
pub open spec fn invited_user(world: InviteWorld) -> bool {
    world.user.email == world.invitation.email
}

/// The writes of an accepted invitation: make the user a member, name them after the
/// invitation where they have no name yet, delete the invitation.
pub open spec fn joining_writes(world: InviteWorld) -> Seq<ActionModel> {
    let inv = world.invitation;
    seq![
        ActionModel::FetchUserByEmail { email: world.user.email },
        ActionModel::AddUserToTeam { user_id: world.user_by_email.id, team_id: inv.team_id, roles: inv.roles },
    ] + (if joining_user_unnamed(world) {
        seq![ActionModel::SetName { first_name: inv.first_name, last_name: inv.last_name, user_id: world.user_id }]
    } else {
        seq![]
    }) + seq![ActionModel::DeleteInvitation { email: inv.email, team_id: inv.team_id }]
}

/// The answer and the actions of accepting, read off the handler: a verifier that
/// does not decode is a `FaultySetup` error before anything is read; a full team is
/// refused with `TeamFull` before anything is written or committed; otherwise the
/// user is read where the verifier is accepted, joins where they are the invited
/// user, and the transaction is committed with the team as the answer.
pub open spec fn expected_accept(selector: Seq<char>, verifier: Seq<char>, world: InviteWorld) -> (Result<i32, ErrorModel>, Seq<ActionModel>) {
    match verifier_hash_of(verifier) {
        Err(message) => (Err(ErrorModel::FaultySetup(message)), seq![ActionModel::Finish]),
        Ok(_) => if world_team_full(world) {
            (Err(ErrorModel::TeamFull), team_reads(selector, world).push(ActionModel::Finish))
        } else {
            let middle = if !link_verified(verifier, world) {
                seq![]
            } else if !invited_user(world) {
                seq![ActionModel::FetchUser { user_id: world.user_id }]
            } else {
                seq![ActionModel::FetchUser { user_id: world.user_id }] + joining_writes(world)
            };
            (
                Ok(world.invitation.team_id),
                team_reads(selector, world) + middle + seq![ActionModel::Commit, ActionModel::Finish],
            )
        },
    }
}

/// The answer and the actions of rejecting: a verifier that does not decode is a
/// `FaultySetup` error; otherwise the invitation is read, the user is read where the
/// verifier is accepted, the invitation is deleted where they are the invited user,
/// and the transaction is committed.
pub open spec fn expected_reject(selector: Seq<char>, verifier: Seq<char>, world: InviteWorld) -> (Result<i32, ErrorModel>, Seq<ActionModel>) {
    match verifier_hash_of(verifier) {
        Err(message) => (Err(ErrorModel::FaultySetup(message)), seq![ActionModel::Finish]),
        Ok(_) => {
            let inv = world.invitation;
            let middle = if !link_verified(verifier, world) {
                seq![]
            } else if !invited_user(world) {
                seq![ActionModel::FetchUser { user_id: world.user_id }]
            } else {
                seq![
                    ActionModel::FetchUser { user_id: world.user_id },
                    ActionModel::DeleteInvitation { email: inv.email, team_id: inv.team_id },
                ]
            };
            (
                Ok(inv.team_id),
                seq![ActionModel::OpenSession, ActionModel::FetchInvitation { selector }] + middle
                    + seq![ActionModel::Commit, ActionModel::Finish],
            )
        },
    }
}

/// Accepting an invitation does, against every store that finds its records, exactly
/// what [`expected_accept`] says: the same answer and the same actions in the same order.
pub proof fn law_accept_run(selector: Seq<char>, verifier: Seq<char>, world: InviteWorld)
    ensures
        handle(Purpose::Accept, selector, verifier, world)
            == (FlowModel::Done(expected_accept(selector, verifier, world).0), expected_accept(selector, verifier, world).1),
{
    reveal_with_fuel(run, 13);
}

/// Rejecting an invitation does, against every store that finds its records, exactly
/// what [`expected_reject`] says.
pub proof fn law_reject_run(selector: Seq<char>, verifier: Seq<char>, world: InviteWorld)
    ensures
        handle(Purpose::Reject, selector, verifier, world)
            == (FlowModel::Done(expected_reject(selector, verifier, world).0), expected_reject(selector, verifier, world).1),
{
    reveal_with_fuel(run, 13);
}

/// An action that changes the store.
pub open spec fn is_write(action: ActionModel) -> bool {
    ||| action is AddUserToTeam
    ||| action is SetName
    ||| action is DeleteInvitation
    ||| action is Commit
}

/// Whether some action of the trace makes a user a member of a team.
pub open spec fn adds_member(trace: Seq<ActionModel>) -> bool {
    exists|i: int| 0 <= i < trace.len() && (#[trigger] trace[i]) is AddUserToTeam
}

/// Whether some action of the trace deletes an invitation.
pub open spec fn deletes_invitation(trace: Seq<ActionModel>) -> bool {
    exists|i: int| 0 <= i < trace.len() && (#[trigger] trace[i]) is DeleteInvitation
}

/// Whether some action of the trace names a user.
pub open spec fn sets_name(trace: Seq<ActionModel>) -> bool {
    exists|i: int| 0 <= i < trace.len() && (#[trigger] trace[i]) is SetName
}

/// A refused request: where the team is full, accepting answers `TeamFull` and
/// neither writes to the store nor commits.
pub proof fn law_full_team_refused(selector: Seq<char>, verifier: Seq<char>, world: InviteWorld)
    requires
        verifier_hash_of(verifier) is Ok,
        world_team_full(world),
    ensures
        handle(Purpose::Accept, selector, verifier, world).0 == FlowModel::Done(Err(ErrorModel::TeamFull)),
        forall|i: int|
            0 <= i < handle(Purpose::Accept, selector, verifier, world).1.len()
                ==> !is_write(#[trigger] handle(Purpose::Accept, selector, verifier, world).1[i]),
{
    law_accept_run(selector, verifier, world);
}

/// Unless the verifier does not decode or the team is full, accepting answers with
/// the invitation's team and commits, whether or not the user joins.
pub proof fn law_accept_answers_team(selector: Seq<char>, verifier: Seq<char>, world: InviteWorld)
    requires
        verifier_hash_of(verifier) is Ok,
        !world_team_full(world),
    ensures
        handle(Purpose::Accept, selector, verifier, world).0 == FlowModel::Done(Ok(world.invitation.team_id)),
{
    law_accept_run(selector, verifier, world);
}

/// A verifier that does not decode is answered with `FaultySetup` and the decoder's
/// text, before anything is asked of the store, whichever the purpose.
pub proof fn law_undecodable_verifier(purpose: Purpose, selector: Seq<char>, verifier: Seq<char>, world: InviteWorld)
    requires
        verifier_hash_of(verifier) is Err,
    ensures
        handle(purpose, selector, verifier, world).0
            == FlowModel::Done(Err(ErrorModel::FaultySetup(verifier_hash_of(verifier)->Err_0))),
        handle(purpose, selector, verifier, world).1 == seq![ActionModel::Finish],
{
    law_accept_run(selector, verifier, world);
    law_reject_run(selector, verifier, world);
}

/// Accepting makes the user a member exactly when the verifier decodes, the team is
/// not full, the verifier is accepted and the user is the invited one; and then it
/// adds the user that the invited address finds, to the invitation's team, with the
/// invitation's roles.
pub proof fn law_join_iff_invited(selector: Seq<char>, verifier: Seq<char>, world: InviteWorld)
    ensures
        adds_member(handle(Purpose::Accept, selector, verifier, world).1) <==> {
            &&& verifier_hash_of(verifier) is Ok
            &&& !world_team_full(world)
            &&& link_verified(verifier, world)
            &&& invited_user(world)
        },
        forall|i: int|
            0 <= i < handle(Purpose::Accept, selector, verifier, world).1.len()
                && (#[trigger] handle(Purpose::Accept, selector, verifier, world).1[i]) is AddUserToTeam
                ==> handle(Purpose::Accept, selector, verifier, world).1[i] == (ActionModel::AddUserToTeam {
                    user_id: world.user_by_email.id,
                    team_id: world.invitation.team_id,
                    roles: world.invitation.roles,
                }),
{
    law_accept_run(selector, verifier, world);
    let t = handle(Purpose::Accept, selector, verifier, world).1;
    if verifier_hash_of(verifier) is Ok && !world_team_full(world)
        && link_verified(verifier, world) && invited_user(world) {
        assert(t[7] is AddUserToTeam);
    }
}

/// Accepting deletes the invitation exactly when the user joins, and names the user
/// after the invitation only when they join without a name of their own.
pub proof fn law_accept_deletes_iff_joins(selector: Seq<char>, verifier: Seq<char>, world: InviteWorld)
    ensures
        deletes_invitation(handle(Purpose::Accept, selector, verifier, world).1)
            <==> adds_member(handle(Purpose::Accept, selector, verifier, world).1),
        sets_name(handle(Purpose::Accept, selector, verifier, world).1)
            <==> adds_member(handle(Purpose::Accept, selector, verifier, world).1) && joining_user_unnamed(world),
{
    law_accept_run(selector, verifier, world);
    law_join_iff_invited(selector, verifier, world);
    let t = handle(Purpose::Accept, selector, verifier, world).1;
    if adds_member(t) {
        if joining_user_unnamed(world) {
            assert(t[8] is SetName);
            assert(t[9] is DeleteInvitation);
        } else {
            assert(t[8] is DeleteInvitation);
        }
    }
}

/// A joining user who has a first or a last name keeps it: accepting names the user
/// only when they have neither, and then after the invitation, for the session's user.
pub proof fn law_accept_keeps_names(selector: Seq<char>, verifier: Seq<char>, world: InviteWorld)
    ensures
        world.user_by_email.first_name is Some || world.user_by_email.last_name is Some
            ==> !sets_name(handle(Purpose::Accept, selector, verifier, world).1),
        forall|i: int|
            0 <= i < handle(Purpose::Accept, selector, verifier, world).1.len()
                && (#[trigger] handle(Purpose::Accept, selector, verifier, world).1[i]) is SetName
                ==> handle(Purpose::Accept, selector, verifier, world).1[i] == (ActionModel::SetName {
                    first_name: world.invitation.first_name,
                    last_name: world.invitation.last_name,
                    user_id: world.user_id,
                }),
{
    law_accept_run(selector, verifier, world);
    law_accept_deletes_iff_joins(selector, verifier, world);
}

/// Rejecting never makes anyone a member nor names anyone; it deletes the invitation
/// exactly when the verifier is accepted and the user is the invited one, and it
/// answers with the invitation's team unless the verifier does not decode.
pub proof fn law_reject(selector: Seq<char>, verifier: Seq<char>, world: InviteWorld)
    ensures
        !adds_member(handle(Purpose::Reject, selector, verifier, world).1),
        !sets_name(handle(Purpose::Reject, selector, verifier, world).1),
        deletes_invitation(handle(Purpose::Reject, selector, verifier, world).1)
            <==> link_verified(verifier, world) && invited_user(world),
        verifier_hash_of(verifier) is Ok
            ==> handle(Purpose::Reject, selector, verifier, world).0 == FlowModel::Done(Ok(world.invitation.team_id)),
{
    law_reject_run(selector, verifier, world);
    let t = handle(Purpose::Reject, selector, verifier, world).1;
    if link_verified(verifier, world) && invited_user(world) {
        assert(t[3] is DeleteInvitation);
    }
}

/// Once done, a flow stays done with the same answer, whatever it is told.
pub proof fn law_done_is_final(r: Result<i32, ErrorModel>, event: EventModel)
    ensures
        spec_step(FlowModel::Done(r), event) == (FlowModel::Done(r), ActionModel::Finish),
{
}

/// A failure of the store ends a flow that is not done with a `Database` error that
/// carries the store's message, and nothing more is asked of the store.
pub proof fn law_failure_ends(flow: FlowModel, message: Seq<char>)
    requires
        !(flow is Done),
    ensures
        spec_step(flow, EventModel::Failed(message))
            == (FlowModel::Done(Err(ErrorModel::Database(message))), ActionModel::Finish),
{
}

} // verus!
