//! The form that creates or updates a language model of a team.
use vstd::prelude::*;
use vstd::string::*;

use crate::foreign::{length_accepted, validate_length};

verus! {

/// The kind of a model.
#[derive(Clone, Copy, Debug, PartialEq, Eq)]
pub enum ModelType {
    LLM,
    Embeddings,
}

/// The submitted model form.
#[derive(Debug)]
pub struct ModelForm {
    /// The model to update; none to create one.
    pub id: Option<i32>,
    pub name: String,
    pub base_url: String,
    pub model_type: String,
    pub api_key: Option<String>,
    pub billion_parameters: i32,
    pub context_size: i32,
    pub tier: i32,
}

impl Default for ModelForm {
    fn default() -> (r: ModelForm)
        ensures
            r.id is None,
            r.name@ == Seq::<char>::empty(),
            r.base_url@ == Seq::<char>::empty(),
            r.model_type@ == Seq::<char>::empty(),
            r.api_key is None,
            r.billion_parameters == 0,
            r.context_size == 0,
            r.tier == 0,
    {
        ModelForm {
            id: None,
            name: String::new(),
            base_url: String::new(),
            model_type: String::new(),
            api_key: None,
            billion_parameters: 0,
            context_size: 0,
            tier: 0,
        }
    }
}

/// The model type that a form's text names: "LLM" is a language model, any other
/// text an embeddings model.
pub open spec fn model_type_named(text: Seq<char>) -> ModelType {
    if text == "LLM"@ { ModelType::LLM } else { ModelType::Embeddings }
}

/// The model type that the form's text names.
pub fn model_type_of(text: &String) -> (r: ModelType)
    ensures
        r == model_type_named(text@),
{
    let llm = String::from_str("LLM");
    if *text == llm {
        ModelType::LLM
    } else {
        ModelType::Embeddings
    }
}

/// A field that failed validation, with the message shown for it.
#[derive(Debug, PartialEq, Eq)]
pub struct FieldError {
    pub field: String,
    pub message: String,
}

/// A [`FieldError`] taken by its view.
pub open spec fn field_error_view(e: FieldError) -> (Seq<char>, Seq<char>) {
    (e.field@, e.message@)
}

/// The name is valid when it has at least one character.
pub open spec fn name_valid(name: Seq<char>) -> bool {
    length_accepted(name.len() as int, Some(1u64), None, None)
}

/// The base URL is valid when it has at least one character.
pub open spec fn base_url_valid(base_url: Seq<char>) -> bool {
    length_accepted(base_url.len() as int, Some(1u64), None, None)
}

/// The failures of a form with this name and base URL, in the order of the fields.
pub open spec fn form_errors(name: Seq<char>, base_url: Seq<char>) -> Seq<(Seq<char>, Seq<char>)> {
    (if name_valid(name) { seq![] } else { seq![("name"@, "The name is mandatory"@)] })
        + (if base_url_valid(base_url) { seq![] } else { seq![("base_url"@, "The prompt is mandatory"@)] })
}

impl ModelForm {
    /// Checks that the name and the base URL are given; the failures come in the
    /// order of the fields.
    pub fn validate(&self) -> (r: Result<(), Vec<FieldError>>)
        ensures
            r is Ok <==> name_valid(self.name@) && base_url_valid(self.base_url@),
            r matches Err(errors) ==> errors@.map_values(|e: FieldError| field_error_view(e))
                == form_errors(self.name@, self.base_url@),
    {
        let mut errors: Vec<FieldError> = Vec::new();
        if !validate_length(&self.name, Some(1), None, None) {
            errors.push(FieldError {
                field: String::from_str("name"),
                message: String::from_str("The name is mandatory"),
            });
        }
        if !validate_length(&self.base_url, Some(1), None, None) {
            errors.push(FieldError {
                field: String::from_str("base_url"),
                message: String::from_str("The prompt is mandatory"),
            });
        }
        if errors.len() == 0 {
            Ok(())
        } else {
            assert(errors@.map_values(|e: FieldError| field_error_view(e)) =~= form_errors(self.name@, self.base_url@));
            Err(errors)
        }
    }
}

/// What submitting the form does.
#[derive(Clone, Copy, Debug, PartialEq, Eq)]
pub enum UpsertPlan {
    /// Update the model with this id.
    Update { id: i32, model_type: ModelType },
    /// Create a model.
    Insert { model_type: ModelType },
    /// Write nothing: the form is not valid.
    Rejected,
}

/// What submitting a form with this content does: a valid form updates the model it
/// names, or creates one where it names none; an invalid form writes nothing.
pub open spec fn upsert_plan_of(form: ModelForm) -> UpsertPlan {
    if !(name_valid(form.name@) && base_url_valid(form.base_url@)) {
        UpsertPlan::Rejected
    } else {
        match form.id {
            Some(id) => UpsertPlan::Update { id, model_type: model_type_named(form.model_type@) },
            None => UpsertPlan::Insert { model_type: model_type_named(form.model_type@) },
        }
    }
}

/// What submitting the form does.
pub fn plan_upsert(form: &ModelForm) -> (r: UpsertPlan)
    ensures
        r == upsert_plan_of(*form),
{
    let model_type = model_type_of(&form.model_type);
    match (form.validate(), form.id) {
        (Ok(_), Some(id)) => UpsertPlan::Update { id, model_type },
        (Ok(_), None) => UpsertPlan::Insert { model_type },
        (Err(_), _) => UpsertPlan::Rejected,
    }
}

/// The message shown after the form is submitted.
pub open spec fn upsert_message(plan: UpsertPlan) -> Seq<char> {
    match plan {
        UpsertPlan::Update { .. } => "Model Updated"@,
        UpsertPlan::Insert { .. } => "Model Created"@,
        UpsertPlan::Rejected => "Problem with Model Validation"@,
    }
}

impl UpsertPlan {
    /// The message shown after the form is submitted.
    pub fn snackbar(&self) -> (r: String)
        ensures
            r@ == upsert_message(*self),
    {
        match self {
            UpsertPlan::Update { .. } => String::from_str("Model Updated"),
            UpsertPlan::Insert { .. } => String::from_str("Model Created"),
            UpsertPlan::Rejected => String::from_str("Problem with Model Validation"),
        }
    }
}

/// A form is valid exactly when its name and its base URL are not empty.
pub proof fn law_valid_iff_filled(name: Seq<char>, base_url: Seq<char>)
    ensures
        name_valid(name) && base_url_valid(base_url) <==> name.len() > 0 && base_url.len() > 0,
        form_errors(name, base_url).len() == 0 <==> name.len() > 0 && base_url.len() > 0,
{
}

/// Submitting a form writes exactly when both its name and its base URL are filled in;
/// it updates the model that the form names, or creates one where it names none; and
/// the model's type is a language model exactly when the form's text is "LLM".
pub proof fn law_upsert_plan(form: ModelForm)
    ensures
        upsert_plan_of(form) is Rejected <==> !(form.name@.len() > 0 && form.base_url@.len() > 0),
        upsert_plan_of(form) matches UpsertPlan::Update { id, model_type } ==> {
            &&& form.id == Some(id)
            &&& (model_type == ModelType::LLM <==> form.model_type@ == "LLM"@)
            &&& (model_type == ModelType::Embeddings <==> form.model_type@ != "LLM"@)
        },
        upsert_plan_of(form) matches UpsertPlan::Insert { model_type } ==> {
            &&& form.id is None
            &&& (model_type == ModelType::LLM <==> form.model_type@ == "LLM"@)
            &&& (model_type == ModelType::Embeddings <==> form.model_type@ != "LLM"@)
        },
        form.name@.len() > 0 && form.base_url@.len() > 0 && form.id is Some ==> upsert_plan_of(form) is Update,
        form.name@.len() > 0 && form.base_url@.len() > 0 && form.id is None ==> upsert_plan_of(form) is Insert,
{
}

/// The model type is a language model exactly for the text "LLM"; any other text,
/// whatever its case, names an embeddings model.
pub proof fn law_model_type_named(text: Seq<char>)
    ensures
        model_type_named(text) == ModelType::LLM <==> text == "LLM"@,
        model_type_named(text) == ModelType::Embeddings <==> text != "LLM"@,
{
}

/// Each missing field is reported once, the name before the base URL, with its message;
/// and the message after submitting tells update, creation and refusal apart.
pub proof fn law_form_errors(name: Seq<char>, base_url: Seq<char>)
    ensures
        name.len() == 0 && base_url.len() == 0 ==> form_errors(name, base_url)
            == seq![("name"@, "The name is mandatory"@), ("base_url"@, "The prompt is mandatory"@)],
        name.len() == 0 && base_url.len() > 0 ==> form_errors(name, base_url) == seq![("name"@, "The name is mandatory"@)],
        name.len() > 0 && base_url.len() == 0 ==> form_errors(name, base_url)
            == seq![("base_url"@, "The prompt is mandatory"@)],
        name.len() > 0 && base_url.len() > 0 ==> form_errors(name, base_url).len() == 0,
        forall|id: i32, t: ModelType| upsert_message(UpsertPlan::Update { id, model_type: t }) == "Model Updated"@,
        forall|t: ModelType| upsert_message(UpsertPlan::Insert { model_type: t }) == "Model Created"@,
        upsert_message(UpsertPlan::Rejected) == "Problem with Model Validation"@,
{
    assert(seq![("name"@, "The name is mandatory"@)] + seq![("base_url"@, "The prompt is mandatory"@)]
        =~= seq![("name"@, "The name is mandatory"@), ("base_url"@, "The prompt is mandatory"@)]);
    assert(Seq::<(Seq<char>, Seq<char>)>::empty() + seq![("base_url"@, "The prompt is mandatory"@)]
        =~= seq![("base_url"@, "The prompt is mandatory"@)]);
    assert(seq![("name"@, "The name is mandatory"@)] + Seq::<(Seq<char>, Seq<char>)>::empty()
        =~= seq![("name"@, "The name is mandatory"@)]);
}

} // verus!
