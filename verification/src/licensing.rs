//! License tiers of a team: who may see them, what the tier page shows, and what
//! choosing a tier writes.
use vstd::prelude::*;
use vstd::string::*;

use crate::error::{CustomError, ErrorModel};
use crate::text::{decimal, decimal_text, digit_char, digits};

verus! {

/// The form that chooses a license tier for a team.
pub struct SetTier {
    pub team_id: i32,
    pub tier: i8,
}

/// The license of a team, as far as the pages read it.
#[derive(Clone, Copy, Debug, PartialEq, Eq)]
pub struct License {
    pub tier: i32,
}

/// The write that choosing a tier makes: the team's license gets this tier.
#[derive(Clone, Copy, Debug, PartialEq, Eq)]
pub struct TierUpdate {
    pub team_id: i32,
    pub tier: i32,
}

/// The write for a submitted tier form: the form's tier, widened, for the form's team.
pub fn license_tier_update(form: &SetTier) -> (r: TierUpdate)
    ensures
        r.team_id == form.team_id,
        r.tier == form.tier as int,
{
    TierUpdate { team_id: form.team_id, tier: form.tier as i32 }
}

/// The message shown after a tier form, by whether the tier was written.
pub open spec fn tier_message(applied: bool) -> Seq<char> {
    if applied { "License tier set"@ } else { "License tier not set"@ }
}

/// The message shown after a tier form.
pub fn license_tier_message(applied: bool) -> (r: String)
    ensures
        r@ == tier_message(applied),
{
    if applied {
        String::from_str("License tier set")
    } else {
        String::from_str("License tier not set")
    }
}

/// Only a user who may use API keys may see the license page.
pub fn check_license_access(can_use_api_keys: bool) -> (r: Result<(), CustomError>)
    ensures
        r is Ok <==> can_use_api_keys,
        r matches Err(e) ==> e@ == ErrorModel::Authorization,
{
    if can_use_api_keys {
        Ok(())
    } else {
        Err(CustomError::Authorization)
    }
}

/// The name of a tier value.
pub open spec fn tier_name(value: int) -> Seq<char> {
    if value == 0 { "Free"@ } else if value == 1 { "Basic"@ } else { "Enterprise"@ }
}

/// The description of a tier value.
pub open spec fn tier_description(value: int) -> Seq<char> {
    if value == 0 {
        "This is a Free description"@
    } else if value == 1 {
        "This is a Basic description"@
    } else {
        "This is a Enterprise description"@
    }
}

/// The id that ties a tier's select button to its confirmation drawer.
pub open spec fn trigger_id(team_id: int, value: int) -> Seq<char> {
    "set-tier-trigger-"@ + decimal(team_id) + "-"@ + decimal(value)
}

/// A tier as the license page shows it.
#[derive(Debug, PartialEq, Eq)]
pub struct TierCard {
    pub value: i32,
    pub name: String,
    pub description: String,
    pub trigger_id: String,
    /// Whether this is the team's current tier (shown as "Selected"; the others offer "Select").
    pub selected: bool,
}

/// What the license page shows of tier `value` for the team.
pub open spec fn card_shows(card: TierCard, team_id: int, license_tier: int, value: int) -> bool {
    &&& card.value == value
    &&& card.name@ == tier_name(value)
    &&& card.description@ == tier_description(value)
    &&& card.trigger_id@ == trigger_id(team_id, value)
    &&& card.selected == (license_tier == value)
}

/// The trigger id of tier `value` of the team.
pub fn tier_trigger_id(team_id: i32, value: i32) -> (r: String)
    ensures
        r@ == trigger_id(team_id as int, value as int),
{
    String::from_str("set-tier-trigger-")
        .concat(decimal_text(team_id).as_str())
        .concat("-")
        .concat(decimal_text(value).as_str())
}

fn tier_card(team_id: i32, license_tier: i32, value: i32, name: &str, description: &str) -> (r: TierCard)
    requires
        0 <= value < 3,
        name@ == tier_name(value as int),
        description@ == tier_description(value as int),
    ensures
        card_shows(r, team_id as int, license_tier as int, value as int),
{
    TierCard {
        value,
        name: String::from_str(name),
        description: String::from_str(description),
        trigger_id: tier_trigger_id(team_id, value),
        selected: license_tier == value,
    }
}

/// The tiers that the license page offers the team, in order: Free, Basic, Enterprise.
pub fn tier_cards(team_id: i32, license_tier: i32) -> (r: Vec<TierCard>)
    ensures
        r.len() == 3,
        forall|i: int| 0 <= i < 3 ==> card_shows(#[trigger] r@[i], team_id as int, license_tier as int, i),
{
    proof {
        reveal_strlit("Free");
        reveal_strlit("Basic");
        reveal_strlit("Enterprise");
        reveal_strlit("This is a Free description");
        reveal_strlit("This is a Basic description");
        reveal_strlit("This is a Enterprise description");
    }
    let mut cards: Vec<TierCard> = Vec::new();
    cards.push(tier_card(team_id, license_tier, 0, "Free", "This is a Free description"));
    cards.push(tier_card(team_id, license_tier, 1, "Basic", "This is a Basic description"));
    cards.push(tier_card(team_id, license_tier, 2, "Enterprise", "This is a Enterprise description"));
    cards
}

/// The button of a tier card.
pub struct TierButton {
    pub label: String,
    /// The drawer that the button opens; none for the team's current tier.
    pub drawer_trigger: Option<String>,
}

/// The button of a tier card: the team's current tier shows "Selected" and opens
/// nothing; any other tier shows "Select" and opens the tier's confirmation drawer.
pub fn tier_button(card: &TierCard) -> (r: TierButton)
    ensures
        card.selected ==> r.label@ == "Selected"@ && r.drawer_trigger is None,
        !card.selected ==> r.label@ == "Select"@ && (r.drawer_trigger matches Some(t) && t@ == card.trigger_id@),
{
    if card.selected {
        TierButton { label: String::from_str("Selected"), drawer_trigger: None }
    } else {
        TierButton { label: String::from_str("Select"), drawer_trigger: Some(card.trigger_id.clone()) }
    }
}

/// The license page of a team: its license (the first of those read) and the tiers.
#[derive(Debug, PartialEq, Eq)]
pub struct LicensePage {
    pub team_id: i32,
    pub license: License,
    pub cards: Vec<TierCard>,
}

/// The license page of the team; the first license read is the team's. Where none
/// was read the handler panics, which the `requires` leaves out.
pub fn license_page(team_id: i32, licenses: &Vec<License>) -> (r: LicensePage)
    requires
        licenses.len() > 0,
    ensures
        r.team_id == team_id,
        r.license == licenses@[0],
        r.cards.len() == 3,
        forall|i: int| 0 <= i < 3 ==> card_shows(#[trigger] r.cards@[i], team_id as int, licenses@[0].tier as int, i),
{
    let license = licenses[0];
    LicensePage { team_id, license, cards: tier_cards(team_id, license.tier) }
}

/// The confirmation drawer of a tier.
pub struct TierDrawer {
    /// The drawer's title.
    pub label: String,
    /// The value of the form's hidden `team_id` field.
    pub team_id_value: String,
    /// The value of the form's hidden `tier` field.
    pub tier_value: String,
}

/// The title of the drawer that confirms a tier.
pub open spec fn drawer_label(tier_name: Seq<char>) -> Seq<char> {
    "Choose "@ + tier_name + " tier?"@
}

/// The confirmation drawer of tier `tier_value`, named `tier_name`, for the team.
pub fn tier_drawer(team_id: i32, tier_name: &str, tier_value: i32) -> (r: TierDrawer)
    ensures
        r.label@ == drawer_label(tier_name@),
        r.team_id_value@ == decimal(team_id as int),
        r.tier_value@ == decimal(tier_value as int),
{
    TierDrawer {
        label: String::from_str("Choose ").concat(tier_name).concat(" tier?"),
        team_id_value: decimal_text(team_id),
        tier_value: decimal_text(tier_value),
    }
}

/// The decimal text of a single digit is that digit.
pub proof fn lemma_decimal_digit(d: int)
    requires
        0 <= d < 10,
    ensures
        decimal(d) == seq![digit_char(d as nat)],
{
    assert(digits(d as nat) == seq![digit_char(d as nat)]);
}

/// The last character of a tier's trigger id is the tier's digit.
pub proof fn lemma_trigger_id_last(team_id: int, value: int)
    requires
        0 <= value < 10,
    ensures
        trigger_id(team_id, value).len() > 0,
        trigger_id(team_id, value).last() == digit_char(value as nat),
{
    lemma_decimal_digit(value);
}

/// Of the tiers that the license page shows, no two share a trigger id, at most one
/// is selected, and one is selected exactly when the team's tier is one of them.
pub proof fn law_tier_cards(cards: Seq<TierCard>, team_id: int, license_tier: int)
    requires
        cards.len() == 3,
        forall|i: int| 0 <= i < 3 ==> card_shows(#[trigger] cards[i], team_id, license_tier, i),
    ensures
        forall|i: int, j: int| 0 <= i < j < 3 ==> (#[trigger] cards[i]).trigger_id@ != (#[trigger] cards[j]).trigger_id@,
        forall|i: int, j: int|
            0 <= i < 3 && 0 <= j < 3 && (#[trigger] cards[i]).selected && (#[trigger] cards[j]).selected ==> i == j,
        (exists|i: int| 0 <= i < 3 && (#[trigger] cards[i]).selected) <==> 0 <= license_tier < 3,
{
    assert forall|i: int, j: int| 0 <= i < j < 3 implies (#[trigger] cards[i]).trigger_id@ != (#[trigger] cards[j]).trigger_id@ by {
        lemma_trigger_id_last(team_id, i);
        lemma_trigger_id_last(team_id, j);
    }
    if 0 <= license_tier < 3 {
        assert(cards[license_tier].selected);
    }
}

/// What a tier card shows: the tiers are Free, Basic and Enterprise in that order,
/// each with its description; the card of the team's tier is the selected one; and
/// the trigger id is `set-tier-trigger-`, the team, `-` and the tier's digit.
pub proof fn law_card_contents(card: TierCard, team_id: int, license_tier: int, value: int)
    requires
        0 <= value < 3,
        card_shows(card, team_id, license_tier, value),
    ensures
        card.value == value,
        card.selected <==> license_tier == value,
        value == 0 ==> card.name@ == "Free"@ && card.description@ == "This is a Free description"@,
        value == 1 ==> card.name@ == "Basic"@ && card.description@ == "This is a Basic description"@,
        value == 2 ==> card.name@ == "Enterprise"@ && card.description@ == "This is a Enterprise description"@,
        card.trigger_id@ == "set-tier-trigger-"@ + decimal(team_id) + "-"@ + seq![digit_char(value as nat)],
{
    lemma_decimal_digit(value);
}

/// The drawer of a tier is titled "Choose", the tier's name and "tier?"; the message
/// after the tier form says whether the tier was set.
pub proof fn law_labels(tier_name: Seq<char>)
    ensures
        drawer_label(tier_name) == "Choose "@ + tier_name + " tier?"@,
        tier_message(true) == "License tier set"@,
        tier_message(false) == "License tier not set"@,
{
}

} // verus!
