//! Verified decision logic of a team console: invitation acceptance and
//! rejection, license tiers and model forms.
pub mod foreign;

pub mod error;
pub mod invitation;
pub mod flow;
pub mod flow_laws;
pub mod text;
pub mod licensing;
pub mod model_form;
pub mod tier_flow;
