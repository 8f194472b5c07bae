//! The models available at the server, and the one that is loaded.

use crate::errors::{DecodeCause, DecodeCauseView, Fault, FaultView};
use crate::text::{copy_optional_text, debug_text, render_text, same_text};
use vstd::prelude::*;
use vstd::string::*;

verus! {

/// The key under which the configuration of the server names the loaded checkpoint.
pub const MODEL_CHECKPOINT_KEY: &'static str = "sd_model_checkpoint";

/// A model as the server lists it.
#[derive(Debug, PartialEq)]
pub struct StableDiffusionModel {
    pub title: String,
    pub model_name: String,
    pub filename: String,
    pub model_type: String,
    pub sha256: Option<String>,
    pub hash: Option<String>,
    pub config: Option<String>,
}

/// What a [`StableDiffusionModel`] holds.
pub struct StableDiffusionModelView {
    pub title: Seq<char>,
    pub model_name: Seq<char>,
    pub filename: Seq<char>,
    pub model_type: Seq<char>,
    pub sha256: Option<Seq<char>>,
    pub hash: Option<Seq<char>>,
    pub config: Option<Seq<char>>,
}

impl View for StableDiffusionModel {
    type V = StableDiffusionModelView;

    open spec fn view(&self) -> StableDiffusionModelView {
        StableDiffusionModelView {
            title: self.title@,
            model_name: self.model_name@,
            filename: self.filename@,
            model_type: self.model_type@,
            sha256: self.sha256.deep_view(),
            hash: self.hash.deep_view(),
            config: self.config.deep_view(),
        }
    }
}

impl Clone for StableDiffusionModel {
    fn clone(&self) -> (r: Self)
        ensures
            r@ == self@,
    {
        StableDiffusionModel {
            title: self.title.clone(),
            model_name: self.model_name.clone(),
            filename: self.filename.clone(),
            model_type: self.model_type.clone(),
            sha256: copy_optional_text(&self.sha256),
            hash: copy_optional_text(&self.hash),
            config: copy_optional_text(&self.config),
        }
    }
}

/// The failure of every change of model that did not take.
pub open spec fn update_failure() -> FaultView {
    FaultView::Decode {
        cause: DecodeCauseView::Malformed { detail: "Failed to update model."@ },
    }
}

/// The failure to find the name of the loaded checkpoint in the configuration, given how
/// the configuration is shown.
pub open spec fn missing_model_name(shown: Seq<char>) -> FaultView {
    FaultView::Decode {
        cause: DecodeCauseView::Malformed {
            detail: "Config response did not contain the model name. Response: "@ + shown,
        },
    }
}

/// The name of the loaded checkpoint as the configuration gives it, or the failure to
/// find it there, which shows the configuration.
pub open spec fn loaded_model(checkpoint: Option<Seq<char>>, response: Seq<char>) -> Result<
    Seq<char>,
    FaultView,
> {
    match checkpoint {
        Some(name) => Ok(name),
        None => Err(missing_model_name(debug_text(response))),
    }
}

/// Makes the failure to find the name of the loaded checkpoint in the configuration, given
/// how the configuration is shown.
pub fn model_name_missing(shown: &str) -> (fault: Fault)
    ensures
        fault@ == missing_model_name(shown@),
{
    let mut detail = String::from_str("Config response did not contain the model name. Response: ");
    detail.append(shown);
    Fault::Decode { cause: DecodeCause::Malformed { detail } }
}

/// Get the name of the currently loaded checkpoint from what the configuration holds
/// under [`MODEL_CHECKPOINT_KEY`]. `checkpoint` is the text found there, if one was found,
/// and `response` the configuration as a whole.
pub fn model_name_from_config(checkpoint: Option<String>, response: &str) -> (r: Result<
    String,
    Fault,
>)
    ensures
        match r {
            Ok(name) => loaded_model(checkpoint.deep_view(), response@) == Ok::<
                Seq<char>,
                FaultView,
            >(name@),
            Err(fault) => loaded_model(checkpoint.deep_view(), response@) == Err::<
                Seq<char>,
                FaultView,
            >(fault@),
        },
{
    match checkpoint {
        Some(name) => Ok(name),
        None => {
            let shown = render_text(response);
            Err(model_name_missing(shown.as_str()))
        },
    }
}

/// Decides whether the server took a change of model: it did where it reported success.
pub fn check_update_accepted(success: bool) -> (r: Result<(), Fault>)
    ensures
        success ==> r is Ok,
        !success ==> (r matches Err(fault) && fault@ == update_failure()),
{
    if success {
        Ok(())
    } else {
        Err(update_failed())
    }
}

/// Decides whether a change of model took: it did where the model that is loaded now is
/// the one that was asked for.
pub fn check_model_loaded(loaded: &str, requested: &str) -> (r: Result<(), Fault>)
    ensures
        loaded@ == requested@ ==> r is Ok,
        loaded@ != requested@ ==> (r matches Err(fault) && fault@ == update_failure()),
{
    if same_text(loaded, requested) {
        Ok(())
    } else {
        Err(update_failed())
    }
}

fn update_failed() -> (fault: Fault)
    ensures
        fault@ == update_failure(),
{
    Fault::Decode {
        cause: DecodeCause::Malformed { detail: String::from_str("Failed to update model.") },
    }
}

} // verus!
