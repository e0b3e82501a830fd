//! Engine invocation support: the exact argument list handed to the
//! external conversion engine, and the interpretation of its outcome.
//! Launching the subprocess itself is the host's work; every argument and
//! every outcome message comes from here.

use vstd::prelude::*;
use vstd::string::*;
use crate::error::{ConversionError, ErrorKind, engine_execution_failure};
use crate::strategy::Strategy;

verus! {

/// The scale filter of the size-constrained strategy: caps both
/// dimensions at 256 units, keeps the aspect ratio, and never upscales.
pub open spec fn scale_filter() -> Seq<char> {
    "scale='min(256,iw)':'min(256,ih)':force_original_aspect_ratio=decrease"@
}

/// The views of a list of owned strings.
pub open spec fn views_of(v: Seq<String>) -> Seq<Seq<char>> {
    v.map_values(|s: String| s@)
}

/// The engine argument list for one strategy: the input, the overwrite
/// flag, the strategy's filter arguments if any, and the destination, in
/// that fixed order. The embedding strategy calls no engine and has no
/// argument list.
pub open spec fn engine_args(input: Seq<char>, output: Seq<char>, s: Strategy) -> Seq<Seq<char>> {
    match s {
        Strategy::PassThrough => seq!["-i"@, input, "-y"@, output],
        Strategy::SizeConstrained => seq!["-i"@, input, "-y"@, "-vf"@, scale_filter(), output],
        Strategy::VectorEmbed => Seq::<Seq<char>>::empty(),
    }
}

/// Builds the engine argument list for a strategy.
pub fn build_engine_args(input: &str, output: &str, s: Strategy) -> (r: Vec<String>)
    ensures
        views_of(r@) == engine_args(input@, output@, s),
{
    let mut args: Vec<String> = Vec::new();
    match s {
        Strategy::VectorEmbed => {
            proof {
                assert(views_of(args@) =~= engine_args(input@, output@, s));
            }
        },
        Strategy::PassThrough => {
            args.push(String::from_str("-i"));
            args.push(String::from_str(input));
            args.push(String::from_str("-y"));
            args.push(String::from_str(output));
            proof {
                assert(views_of(args@) =~= engine_args(input@, output@, s));
            }
        },
        Strategy::SizeConstrained => {
            args.push(String::from_str("-i"));
            args.push(String::from_str(input));
            args.push(String::from_str("-y"));
            args.push(String::from_str("-vf"));
            args.push(
                String::from_str(
                    "scale='min(256,iw)':'min(256,ih)':force_original_aspect_ratio=decrease",
                ),
            );
            args.push(String::from_str(output));
            proof {
                assert(views_of(args@) =~= engine_args(input@, output@, s));
            }
        },
    }
    args
}

/// Interprets the engine's exit: success yields the destination path,
/// failure yields `EngineExecutionError` carrying the engine's captured
/// standard-error text.
pub fn interpret_engine_outcome(success: bool, stderr: &str, output_path: String) -> (r: Result<
    String,
    ConversionError,
>)
    ensures
        success ==> (r matches Ok(p) && p@ == output_path@),
        !success ==> (r matches Err(e) && e.kind == ErrorKind::EngineExecutionError && e.message@
            == "engine failed: "@ + stderr@),
{
    if success {
        Ok(output_path)
    } else {
        Err(engine_execution_failure(stderr))
    }
}

} // verus!
