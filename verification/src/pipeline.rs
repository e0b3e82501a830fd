//! Request routing: one conversion request enters here, the destination
//! path is derived, and exactly one of the three strategies is planned.
//! The host carries the plan out and feeds what comes back to the
//! interpreting functions of this library.

use vstd::prelude::*;
use vstd::string::*;
use crate::error::{ConversionError, ErrorKind};
use crate::engine::{engine_args, views_of, build_engine_args};
use crate::paths::{file_name_of, resolved_output, resolve_output_path};
use crate::strategy::{Strategy, classify, classify_format};
use crate::text::{lower_seq, lower_ascii};

verus! {

/// What the host must do to carry a planned conversion out.
#[derive(Debug)]
pub enum PlannedAction {
    /// Read the source file's bytes, hand them to `embed_document`, and
    /// write the produced document to the plan's output path. The engine
    /// is not called.
    VectorEmbed,
    /// Launch the engine with exactly these arguments and hand its exit
    /// status and captured standard error to `interpret_engine_outcome`.
    RunEngine { args: Vec<String> },
}

/// A planned conversion: the destination path and the action that
/// produces the file there.
#[derive(Debug)]
pub struct ConversionPlan {
    pub output_path: String,
    pub action: PlannedAction,
}

/// Routes a conversion request: derives the destination path and selects
/// the strategy for the lower-cased requested format. Fails with
/// `InvalidInput`, planning no action at all, exactly when the input
/// path has no file-name stem.
pub fn plan_conversion(input_path: &str, output_format: &str, scratch_dir: &str) -> (r: Result<
    ConversionPlan,
    ConversionError,
>)
    ensures
        r is Err <==> file_name_of(input_path@).len() == 0,
        r matches Err(e) ==> e.kind == ErrorKind::InvalidInput,
        r matches Ok(plan) ==> {
            &&& plan.output_path@ == resolved_output(input_path@, output_format@, scratch_dir@)
            &&& (plan.action is VectorEmbed <==> classify(lower_seq(output_format@))
                is VectorEmbed)
            &&& (plan.action matches PlannedAction::RunEngine { args } ==> views_of(args@)
                == engine_args(
                input_path@,
                plan.output_path@,
                classify(lower_seq(output_format@)),
            ))
        },
{
    let output_path = match resolve_output_path(input_path, output_format, scratch_dir) {
        Err(e) => {
            return Err(e);
        },
        Ok(p) => p,
    };
    let format_lower = lower_ascii(output_format);
    let strat = classify_format(format_lower.as_str());
    match strat {
        Strategy::VectorEmbed => Ok(
            ConversionPlan { output_path, action: PlannedAction::VectorEmbed },
        ),
        _ => {
            let args = build_engine_args(input_path, output_path.as_str(), strat);
            Ok(ConversionPlan { output_path, action: PlannedAction::RunEngine { args } })
        },
    }
}

} // verus!
