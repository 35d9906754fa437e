//! Choosing a license tier: the state machine of the tier form's handler, and what a
//! whole run of it does to the licenses of a store whose transactions take effect
//! only when they are committed.
use vstd::prelude::*;
use vstd::string::*;

use crate::error::{CustomError, ErrorModel};
use crate::licensing::{license_tier_message, license_tier_update, tier_message, SetTier, TierUpdate};

verus! {

/// What the store answered to the last action.
pub enum TierEvent {
    /// The check or the write went through.
    Answered,
    /// The store failed, with its message.
    Failed(String),
}

/// The model of a [`TierEvent`].
pub enum TierEventModel {
    Answered,
    Failed(Seq<char>),
}

impl View for TierEvent {
    type V = TierEventModel;

    open spec fn view(&self) -> TierEventModel {
        match self {
            TierEvent::Answered => TierEventModel::Answered,
            TierEvent::Failed(m) => TierEventModel::Failed(m@),
        }
    }
}

/// What the handler asks of the store next.
#[derive(Clone, Copy, Debug, PartialEq, Eq)]
pub enum TierAction {
    /// Open a transaction and check that the current user belongs to the team.
    CheckPermissions { team_id: i32 },
    /// Give the team's license this tier.
    SetLicenseTier { tier: i32, team_id: i32 },
    /// Commit the transaction.
    Commit,
    /// Nothing more: the answer is ready (an open transaction is dropped, not committed).
    Finish,
}

/// The handler's answer when all went through: redirect to the team's license page
/// and show the message.
#[derive(Debug, PartialEq, Eq)]
pub struct TierAnswer {
    pub team_id: i32,
    pub message: String,
}

/// The model of a [`TierAnswer`].
pub struct TierAnswerModel {
    pub team_id: i32,
    pub message: Seq<char>,
}

/// The state of a submitted tier form.
pub enum TierFlow {
    AwaitPermissions(TierUpdate),
    AwaitWrite(TierUpdate),
    AwaitCommit(TierUpdate),
    Done(Result<TierAnswer, CustomError>),
}

/// The model of a [`TierFlow`].
pub enum TierFlowModel {
    AwaitPermissions(TierUpdate),
    AwaitWrite(TierUpdate),
    AwaitCommit(TierUpdate),
    Done(Result<TierAnswerModel, ErrorModel>),
}

/// An answer of the handler taken by its view.
pub open spec fn tier_outcome_view(r: Result<TierAnswer, CustomError>) -> Result<TierAnswerModel, ErrorModel> {
    match r {
        Ok(a) => Ok(TierAnswerModel { team_id: a.team_id, message: a.message@ }),
        Err(e) => Err(e@),
    }
}

impl View for TierFlow {
    type V = TierFlowModel;

    open spec fn view(&self) -> TierFlowModel {
        match self {
            TierFlow::AwaitPermissions(u) => TierFlowModel::AwaitPermissions(*u),
            TierFlow::AwaitWrite(u) => TierFlowModel::AwaitWrite(*u),
            TierFlow::AwaitCommit(u) => TierFlowModel::AwaitCommit(*u),
            TierFlow::Done(r) => TierFlowModel::Done(tier_outcome_view(*r)),
        }
    }
}

/// The first state and action for a submitted form: check the user's permissions for
/// the form's team, then write the form's tier, widened.
pub open spec fn spec_tier_begin(form: SetTier) -> (TierFlowModel, TierAction) {
    let update = TierUpdate { team_id: form.team_id, tier: form.tier as i32 };
    (TierFlowModel::AwaitPermissions(update), TierAction::CheckPermissions { team_id: form.team_id })
}

/// The next state and action, given the store's answer to the last action. Every
/// form is valid, so the tier is always written and the answer after the commit is
/// the message of an applied tier.
pub open spec fn spec_tier_step(flow: TierFlowModel, event: TierEventModel) -> (TierFlowModel, TierAction) {
    match flow {
        TierFlowModel::Done(r) => (TierFlowModel::Done(r), TierAction::Finish),
        _ => match event {
            TierEventModel::Failed(m) => (TierFlowModel::Done(Err(ErrorModel::Database(m))), TierAction::Finish),
            TierEventModel::Answered => match flow {
                TierFlowModel::AwaitPermissions(u) => (
                    TierFlowModel::AwaitWrite(u),
                    TierAction::SetLicenseTier { tier: u.tier, team_id: u.team_id },
                ),
                TierFlowModel::AwaitWrite(u) => (TierFlowModel::AwaitCommit(u), TierAction::Commit),
                TierFlowModel::AwaitCommit(u) => (
                    TierFlowModel::Done(Ok(TierAnswerModel { team_id: u.team_id, message: tier_message(true) })),
                    TierAction::Finish,
                ),
                TierFlowModel::Done(r) => (TierFlowModel::Done(r), TierAction::Finish),
            },
        },
    }
}

impl TierFlow {
    /// Starts handling a submitted tier form.
    pub fn begin(form: &SetTier) -> (r: (TierFlow, TierAction))
        ensures
            (r.0@, r.1) == spec_tier_begin(*form),
    {
        let update = license_tier_update(form);
        (TierFlow::AwaitPermissions(update), TierAction::CheckPermissions { team_id: form.team_id })
    }

    /// Takes the store's answer to the last action; gives the next state and action.
    pub fn step(self, event: TierEvent) -> (r: (TierFlow, TierAction))
        ensures
            (r.0@, r.1) == spec_tier_step(self@, event@),
    {
        if let TierFlow::Done(o) = self {
            return (TierFlow::Done(o), TierAction::Finish);
        }
        match event {
            TierEvent::Failed(m) => (TierFlow::Done(Err(CustomError::Database(m))), TierAction::Finish),
            TierEvent::Answered => match self {
                TierFlow::AwaitPermissions(u) => (
                    TierFlow::AwaitWrite(u),
                    TierAction::SetLicenseTier { tier: u.tier, team_id: u.team_id },
                ),
                TierFlow::AwaitWrite(u) => (TierFlow::AwaitCommit(u), TierAction::Commit),
                TierFlow::AwaitCommit(u) => {
                    let valid = true;
                    (
                        TierFlow::Done(Ok(TierAnswer { team_id: u.team_id, message: license_tier_message(valid) })),
                        TierAction::Finish,
                    )
                },
                TierFlow::Done(o) => (TierFlow::Done(o), TierAction::Finish),
            },
        }
    }

    /// The handler's answer, once the flow is done.
    pub fn outcome(self) -> (r: Option<Result<TierAnswer, CustomError>>)
        ensures
            match self@ {
                TierFlowModel::Done(o) => r matches Some(x) && tier_outcome_view(x) == o,
                _ => r is None,
            },
    {
        match self {
            TierFlow::Done(o) => Some(o),
            _ => None,
        }
    }
}

/// The licenses of a store, by team: the committed tiers, and the tiers written in the
/// open transaction. A write takes effect when the transaction is committed; a dropped
/// transaction leaves the committed tiers as they were.
pub struct TierStore {
    pub committed: Map<i32, i32>,
    pub pending: Map<i32, i32>,
}

/// The store after an action that went through.
pub open spec fn perform(store: TierStore, action: TierAction) -> TierStore {
    match action {
        TierAction::SetLicenseTier { tier, team_id } => TierStore {
            committed: store.committed,
            pending: store.pending.insert(team_id, tier),
        },
        TierAction::Commit => TierStore {
            committed: store.committed.union_prefer_right(store.pending),
            pending: Map::empty(),
        },
        _ => store,
    }
}

/// A store that answers every action, but the one at position `fails_at` (counted
/// from zero), which fails with `message`.
pub struct TierWorld {
    pub fails_at: Option<nat>,
    pub message: Seq<char>,
}

/// Drives the flow for at most `fuel` answers, from the action at position `at`:
/// the last state and the store's state after it.
pub open spec fn tier_run(
    flow: TierFlowModel,
    action: TierAction,
    world: TierWorld,
    at: nat,
    store: TierStore,
    fuel: nat,
) -> (TierFlowModel, TierStore)
    decreases fuel,
{
    if fuel == 0 || action is Finish {
        (flow, store)
    } else if world.fails_at == Some(at) {
        let (next, next_action) = spec_tier_step(flow, TierEventModel::Failed(world.message));
        tier_run(next, next_action, world, at + 1, store, (fuel - 1) as nat)
    } else {
        let (next, next_action) = spec_tier_step(flow, TierEventModel::Answered);
        tier_run(next, next_action, world, at + 1, perform(store, action), (fuel - 1) as nat)
    }
}

/// A whole run of the tier handler for `form` on a store whose committed tiers are
/// `licenses`: the answer, and the committed tiers once the transaction is committed or
/// dropped.
pub open spec fn tier_handle(form: SetTier, licenses: Map<i32, i32>, world: TierWorld) -> (TierFlowModel, Map<i32, i32>) {
    let (flow, action) = spec_tier_begin(form);
    let (last, store) = tier_run(flow, action, world, 0, TierStore { committed: licenses, pending: Map::empty() }, 4);
    (last, store.committed)
}

/// Choosing a tier either answers with the redirect to the form's team and the message
/// "License tier set", and the team's license then has the form's tier and every other
/// license is as it was; or answers with a `Database` error, and every license is as it
/// was. It never answers "License tier not set".
pub proof fn law_set_tier(form: SetTier, licenses: Map<i32, i32>, world: TierWorld)
    ensures
        tier_handle(form, licenses, world).0 is Done,
        tier_handle(form, licenses, world).0 matches TierFlowModel::Done(Ok(answer)) ==> {
            &&& answer.team_id == form.team_id
            &&& answer.message == "License tier set"@
            &&& tier_handle(form, licenses, world).1 == licenses.insert(form.team_id, form.tier as i32)
        },
        tier_handle(form, licenses, world).0 matches TierFlowModel::Done(Err(e)) ==> {
            &&& e is Database
            &&& tier_handle(form, licenses, world).1 == licenses
        },
        !(tier_handle(form, licenses, world).0 matches TierFlowModel::Done(Ok(answer))
            && answer.message == "License tier not set"@),
{
    reveal_with_fuel(tier_run, 5);
    let team_id = form.team_id;
    let tier = form.tier as i32;
    assert(licenses.union_prefer_right(Map::<i32, i32>::empty().insert(team_id, tier)) =~= licenses.insert(team_id, tier));
    assert(licenses.union_prefer_right(Map::<i32, i32>::empty()) =~= licenses);
    reveal_strlit("License tier set");
    reveal_strlit("License tier not set");
    assert("License tier set"@.len() != "License tier not set"@.len());
}

/// Which step fails decides the answer: where the store answers the permission check,
/// the write and the commit, the form's tier is set for the form's team alone and the
/// answer is "License tier set" for that team; where one of those three fails, the
/// answer is a `Database` error with the store's message and no license changes. A
/// failure after the commit changes nothing of this.
pub proof fn law_set_tier_outcome(form: SetTier, licenses: Map<i32, i32>, world: TierWorld)
    ensures
        (world.fails_at is None || world.fails_at.unwrap() >= 3) ==> {
            &&& tier_handle(form, licenses, world).0 matches TierFlowModel::Done(Ok(answer))
            &&& answer.team_id == form.team_id
            &&& answer.message == "License tier set"@
            &&& tier_handle(form, licenses, world).1 == licenses.insert(form.team_id, form.tier as i32)
        },
        (world.fails_at matches Some(k) && k < 3) ==> {
            &&& tier_handle(form, licenses, world).0 matches TierFlowModel::Done(Err(e))
            &&& e == ErrorModel::Database(world.message)
            &&& tier_handle(form, licenses, world).1 == licenses
        },
{
    law_set_tier(form, licenses, world);
    reveal_with_fuel(tier_run, 5);
}

} // verus!
