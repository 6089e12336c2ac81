//! Variables of the environment, as the driver looked them up.

use crate::error::{SetupError, SetupErrorView};
use crate::text::optional_text;
use vstd::prelude::*;

verus! {

/// What the lookup of the variable `name` gives: its value, or a failure
/// that names the variable where it is absent or empty.
pub open spec fn lookup(name: Seq<char>, value: Option<Seq<char>>) -> Result<
    Seq<char>,
    SetupErrorView,
> {
    match value {
        Some(text) => if text.len() > 0 {
            Ok(text)
        } else {
            Err(SetupErrorView::MissingVariable { name })
        },
        None => Err(SetupErrorView::MissingVariable { name }),
    }
}

/// Validates what the environment held for the variable `env_var`: a value
/// that is there and not empty is handed on; an absent or empty one is
/// refused with a failure that names the variable.
pub fn validate_env_var(env_var: &str, value: Option<String>) -> (found: Result<
    String,
    SetupError,
>)
    ensures
        match lookup(env_var@, optional_text(value)) {
            Ok(text) => found is Ok && found->Ok_0@ == text,
            Err(e) => found is Err && found->Err_0@ == e,
        },
{
    match value {
        Some(text) => {
            if text.as_str().is_empty() {
                Err(SetupError::MissingVariable { name: env_var.to_owned() })
            } else {
                Ok(text)
            }
        },
        None => Err(SetupError::MissingVariable { name: env_var.to_owned() }),
    }
}

/// Judges the lookup of the variable `env_var`, of which `value` is what the
/// environment held. An empty value counts as an absent one.
pub fn get_env_var(env_var: &str, value: Option<String>) -> (found: Result<String, SetupError>)
    ensures
        match lookup(env_var@, optional_text(value)) {
            Ok(text) => found is Ok && found->Ok_0@ == text,
            Err(e) => found is Err && found->Err_0@ == e,
        },
{
    validate_env_var(env_var, value)
}

} // verus!
