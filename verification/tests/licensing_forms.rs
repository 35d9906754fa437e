use teamgate::error::CustomError;
use teamgate::licensing::{
    check_license_access, license_page, license_tier_message, license_tier_update, tier_cards,
    tier_drawer, tier_trigger_id, License, SetTier, TierUpdate,
};
use teamgate::model_form::{model_type_of, plan_upsert, FieldError, ModelForm, ModelType, UpsertPlan};
use teamgate::text::decimal_text;

#[test]
fn decimal_text_formats_like_display() {
    for n in [0, 7, 10, 42, 1234567, -5, -10, i32::MAX, i32::MIN] {
        assert_eq!(decimal_text(n), n.to_string());
    }
}

#[test]
fn tier_update_widens_the_tier() {
    let form = SetTier { team_id: 3, tier: -2 };
    assert_eq!(license_tier_update(&form), TierUpdate { team_id: 3, tier: -2 });
    let form = SetTier { team_id: 11, tier: 127 };
    assert_eq!(license_tier_update(&form), TierUpdate { team_id: 11, tier: 127 });
    assert_eq!(license_tier_message(true), "License tier set");
    assert_eq!(license_tier_message(false), "License tier not set");
}

#[test]
fn license_page_needs_api_key_permission() {
    assert_eq!(check_license_access(true), Ok(()));
    assert_eq!(check_license_access(false), Err(CustomError::Authorization));
}

#[test]
fn tier_cards_mark_current_tier() {
    let cards = tier_cards(12, 1);
    assert_eq!(cards.len(), 3);
    let names: Vec<&str> = cards.iter().map(|c| c.name.as_str()).collect();
    assert_eq!(names, vec!["Free", "Basic", "Enterprise"]);
    assert_eq!(cards[2].description, "This is a Enterprise description");
    let ids: Vec<&str> = cards.iter().map(|c| c.trigger_id.as_str()).collect();
    assert_eq!(ids, vec!["set-tier-trigger-12-0", "set-tier-trigger-12-1", "set-tier-trigger-12-2"]);
    let selected: Vec<bool> = cards.iter().map(|c| c.selected).collect();
    assert_eq!(selected, vec![false, true, false]);
    assert!(tier_cards(12, 7).iter().all(|c| !c.selected));
    assert_eq!(tier_trigger_id(-4, 2), "set-tier-trigger--4-2");
}

#[test]
fn license_page_takes_first_license() {
    let page = license_page(5, &vec![License { tier: 2 }, License { tier: 0 }]);
    assert_eq!(page.team_id, 5);
    assert_eq!(page.license, License { tier: 2 });
    assert!(page.cards[2].selected && !page.cards[0].selected);
}

#[test]
fn drawer_label_and_values() {
    let drawer = tier_drawer(8, "Basic", 1);
    assert_eq!(drawer.label, "Choose Basic tier?");
    assert_eq!(drawer.team_id_value, "8");
    assert_eq!(drawer.tier_value, "1");
}

fn form(id: Option<i32>, name: &str, base_url: &str, model_type: &str) -> ModelForm {
    ModelForm {
        id,
        name: name.to_string(),
        base_url: base_url.to_string(),
        model_type: model_type.to_string(),
        api_key: None,
        billion_parameters: 7,
        context_size: 2048,
        tier: 0,
    }
}

#[test]
fn model_type_from_text() {
    assert_eq!(model_type_of(&"LLM".to_string()), ModelType::LLM);
    assert_eq!(model_type_of(&"Embeddings".to_string()), ModelType::Embeddings);
    assert_eq!(model_type_of(&"llm".to_string()), ModelType::Embeddings);
}

#[test]
fn validation_reports_missing_fields_in_order() {
    assert_eq!(form(None, "m", "http://x", "LLM").validate(), Ok(()));
    assert_eq!(form(None, "日本", "u", "LLM").validate(), Ok(()));
    let errors = form(None, "", "", "LLM").validate().unwrap_err();
    assert_eq!(
        errors,
        vec![
            FieldError { field: "name".to_string(), message: "The name is mandatory".to_string() },
            FieldError { field: "base_url".to_string(), message: "The prompt is mandatory".to_string() },
        ]
    );
    let errors = form(None, "m", "", "LLM").validate().unwrap_err();
    assert_eq!(errors.len(), 1);
    assert_eq!(errors[0].field, "base_url");
}

#[test]
fn upsert_plan_and_messages() {
    let p = plan_upsert(&form(Some(4), "m", "u", "LLM"));
    assert_eq!(p, UpsertPlan::Update { id: 4, model_type: ModelType::LLM });
    assert_eq!(p.snackbar(), "Model Updated");
    let p = plan_upsert(&form(None, "m", "u", "Embeddings"));
    assert_eq!(p, UpsertPlan::Insert { model_type: ModelType::Embeddings });
    assert_eq!(p.snackbar(), "Model Created");
    let p = plan_upsert(&form(Some(4), "", "u", "LLM"));
    assert_eq!(p, UpsertPlan::Rejected);
    assert_eq!(p.snackbar(), "Problem with Model Validation");
}

#[test]
fn default_form_is_empty_and_invalid() {
    let f = ModelForm::default();
    assert_eq!(f.id, None);
    assert!(f.name.is_empty() && f.base_url.is_empty());
    assert_eq!(plan_upsert(&f), UpsertPlan::Rejected);
}
