use std::collections::HashMap;

use teamgate::error::CustomError;
use teamgate::licensing::{tier_button, tier_cards, SetTier};
use teamgate::tier_flow::{TierAction, TierAnswer, TierEvent, TierFlow};

/// Runs the tier form against licenses that take effect on commit; the store fails
/// the action at position `fails_at`. The answer, the actions and the licenses after.
fn run(
    form: SetTier,
    licenses: &HashMap<i32, i32>,
    fails_at: Option<usize>,
) -> (Result<TierAnswer, CustomError>, Vec<TierAction>, HashMap<i32, i32>) {
    let mut committed = licenses.clone();
    let mut pending: HashMap<i32, i32> = HashMap::new();
    let (mut flow, mut action) = TierFlow::begin(&form);
    let mut trace = Vec::new();
    while action != TierAction::Finish {
        trace.push(action);
        let event = if fails_at == Some(trace.len() - 1) {
            TierEvent::Failed("disk full".to_string())
        } else {
            match action {
                TierAction::SetLicenseTier { tier, team_id } => {
                    pending.insert(team_id, tier);
                }
                TierAction::Commit => committed.extend(pending.drain()),
                _ => {}
            }
            TierEvent::Answered
        };
        let (next, next_action) = flow.step(event);
        flow = next;
        action = next_action;
    }
    (flow.outcome().unwrap(), trace, committed)
}

#[test]
fn chosen_tier_is_written_and_announced() {
    let licenses: HashMap<i32, i32> = [(3, 0), (4, 2)].into_iter().collect();
    let (outcome, trace, after) = run(SetTier { team_id: 3, tier: 2 }, &licenses, None);
    assert_eq!(outcome, Ok(TierAnswer { team_id: 3, message: "License tier set".to_string() }));
    assert_eq!(
        trace,
        vec![
            TierAction::CheckPermissions { team_id: 3 },
            TierAction::SetLicenseTier { tier: 2, team_id: 3 },
            TierAction::Commit,
        ]
    );
    let expected: HashMap<i32, i32> = [(3, 2), (4, 2)].into_iter().collect();
    assert_eq!(after, expected);
}

#[test]
fn failed_step_leaves_licenses_unchanged() {
    let licenses: HashMap<i32, i32> = [(3, 0), (4, 2)].into_iter().collect();
    for at in 0..3 {
        let (outcome, _, after) = run(SetTier { team_id: 3, tier: 1 }, &licenses, Some(at));
        assert_eq!(outcome, Err(CustomError::Database("disk full".to_string())));
        assert_eq!(after, licenses);
    }
}

#[test]
fn negative_tier_is_widened() {
    let (outcome, trace, after) = run(SetTier { team_id: 9, tier: -1 }, &HashMap::new(), None);
    assert!(outcome.is_ok());
    assert_eq!(trace[1], TierAction::SetLicenseTier { tier: -1, team_id: 9 });
    assert_eq!(after.get(&9), Some(&-1));
}

#[test]
fn tier_buttons() {
    let cards = tier_cards(5, 0);
    let selected = tier_button(&cards[0]);
    assert_eq!(selected.label, "Selected");
    assert_eq!(selected.drawer_trigger, None);
    let other = tier_button(&cards[1]);
    assert_eq!(other.label, "Select");
    assert_eq!(other.drawer_trigger, Some("set-tier-trigger-5-1".to_string()));
}
