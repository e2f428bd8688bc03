//! The instance bootstrapper: the decision chain of the bootstrap sequence,
//! from the outcomes reported by the windowing and driver/loader
//! collaborators to either a fully assembled parameter set or a uniform
//! application-level error.
//!
//! Every environment-dependent primitive (loading the loader library,
//! querying layer properties, creating the instance) is performed by the
//! caller; its outcome enters here as a plain value, so that each decision of
//! the sequence is made — and specified — in this module.

use vstd::prelude::*;

use crate::error::{ApplicationError, InstanceCreationError, LoadingError, OomError};
use crate::error::{instance_creation_message, loading_message};
use crate::names::{contains_name, dedup_names, same_name_set, vec_contains_name};
use crate::params::InstanceCreationParameters;

verus! {

/// Whether every name of `required` occurs in the `supported` set.
pub open spec fn all_layers_supported(required: Seq<String>, supported: Seq<String>) -> bool {
    forall|i: int| 0 <= i < required.len() ==> contains_name(supported, required[i]@)
}

/// Whether `k` is the position of the first required layer missing from the
/// supported set: every earlier requirement is supported, this one is not.
pub open spec fn first_missing_layer(
    required: Seq<String>,
    supported: Seq<String>,
    k: int,
) -> bool {
    &&& 0 <= k < required.len()
    &&& !contains_name(supported, required[k]@)
    &&& forall|j: int| 0 <= j < k ==> contains_name(supported, required[j]@)
}

/// The message of a validation-layer failure naming the missing layer.
pub open spec fn missing_layer_message(name: Seq<char>) -> Seq<char> {
    "This driver does not support the \""@ + name + "\" validation layer"@
}

/// The validation-layer requirement of this application: the single Khronos
/// validation layer, insisted on in debug mode.  Static in this version, but
/// handed to the bootstrapper as a value so other requirement lists can be
/// exercised.
pub fn khronos_validation_layers() -> (r: Vec<String>)
    ensures
        r@.len() == 1,
        r@[0]@ == "VK_LAYER_KHRONOS_validation"@,
{
    let mut v: Vec<String> = Vec::new();
    v.push(String::from_str("VK_LAYER_KHRONOS_validation"));
    v
}

/// Checks the required validation layers against the supported set, in list
/// order.  On the first miss it stops and fails with a "Validation Layers"
/// error naming exactly that layer; no later requirement is examined.
pub fn check_validation_layer_support(required: &Vec<String>, supported: &Vec<String>) -> (r:
    Result<(), ApplicationError>)
    ensures
        r is Ok <==> all_layers_supported(required@, supported@),
        r is Err ==> exists|k: int|
            #[trigger] first_missing_layer(required@, supported@, k) && r->Err_0.which@
                == "Validation Layers"@ && r->Err_0.what@ == missing_layer_message(
                required@[k]@,
            ),
{
    let mut k: usize = 0;
    while k < required.len()
        invariant
            k <= required.len(),
            forall|j: int| 0 <= j < k ==> contains_name(supported@, required@[j]@),
        decreases required.len() - k,
    {
        let name = &required[k];
        if !vec_contains_name(supported, name) {
            let what = String::from_str("This driver does not support the \"").concat(
                name.as_str(),
            ).concat("\" validation layer");
            proof {
                assert(first_missing_layer(required@, supported@, k as int));
            }
            return Err(
                ApplicationError {
                    which: String::from_str("Validation Layers"),
                    what,
                },
            );
        }
        k += 1;
    }
    Ok(())
}

/// Verifies support for every required validation layer and, only when all
/// are present, attaches the full requirement list to the parameter set in
/// its original order (all-or-nothing).  On a miss the parameter set is left
/// unchanged and the failure names the first missing layer.
pub fn register_validation_layers(
    create_info: &mut InstanceCreationParameters,
    requirement: &Vec<String>,
    supported: &Vec<String>,
) -> (r: Result<(), ApplicationError>)
    ensures
        r is Ok <==> all_layers_supported(requirement@, supported@),
        r is Ok ==> final(create_info).enabled_layers@ == requirement@,
        r is Err ==> *final(create_info) == *old(create_info) && exists|k: int|
            #[trigger] first_missing_layer(requirement@, supported@, k) && r->Err_0.which@
                == "Validation Layers"@ && r->Err_0.what@ == missing_layer_message(
                requirement@[k]@,
            ),
        final(create_info).enabled_extensions == old(create_info).enabled_extensions,
        final(create_info).application_name == old(create_info).application_name,
        final(create_info).application_version == old(create_info).application_version,
        final(create_info).engine_name == old(create_info).engine_name,
        final(create_info).engine_version == old(create_info).engine_version,
        final(create_info).max_api_version == old(create_info).max_api_version,
{
    let support = check_validation_layer_support(requirement, supported);
    match support {
        Ok(()) => {},
        Err(e) => {
            return Err(e);
        },
    }
    let mut layers: Vec<String> = Vec::new();
    let mut k: usize = 0;
    while k < requirement.len()
        invariant
            k <= requirement.len(),
            layers@.len() == k,
            forall|i: int| 0 <= i < k ==> layers@[i] == requirement@[i],
        decreases requirement.len() - k,
    {
        layers.push(requirement[k].clone());
        k += 1;
    }
    proof {
        assert(layers@ =~= requirement@);
    }
    create_info.enabled_layers = layers;
    Ok(())
}

/// The full decision chain of one bootstrap attempt, from the collaborator
/// outcomes to either a well-formed parameter set or the error that aborts
/// the sequence.  In order: a loading failure aborts first; an absent
/// required-extension list (distinct from an empty one) is a windowing
/// precondition failure; the extension names are copied deduplicated; in
/// debug mode the layer enumeration outcome is consulted and the validation
/// layers are attached all-or-nothing.  No step is retried.
pub fn bootstrap_parameters(
    loader_outcome: Result<(), LoadingError>,
    required_extensions: Option<Vec<String>>,
    debug_mode: bool,
    layer_requirement: &Vec<String>,
    layer_query_outcome: Result<Vec<String>, OomError>,
) -> (r: Result<InstanceCreationParameters, ApplicationError>)
    ensures
        loader_outcome is Err ==> {
            &&& r is Err
            &&& r->Err_0.which@ == "Loading Error"@
            &&& r->Err_0.what@ == loading_message(loader_outcome->Err_0)
        },
        loader_outcome is Ok && required_extensions is None ==> {
            &&& r is Err
            &&& r->Err_0.which@ == "GLFW"@
            &&& r->Err_0.what@ == "Failed to get required GLFW extensions"@
        },
        loader_outcome is Ok && required_extensions is Some && debug_mode
            && layer_query_outcome is Err ==> {
            &&& r is Err
            &&& r->Err_0.which@ == "Out of Memory"@
            &&& r->Err_0.what@ == layer_query_outcome->Err_0.what@
        },
        loader_outcome is Ok && required_extensions is Some && debug_mode
            && layer_query_outcome is Ok && !all_layers_supported(
            layer_requirement@,
            layer_query_outcome->Ok_0@,
        ) ==> {
            &&& r is Err
            &&& exists|k: int|
                #[trigger] first_missing_layer(layer_requirement@, layer_query_outcome->Ok_0@, k)
                    && r->Err_0.which@ == "Validation Layers"@ && r->Err_0.what@
                    == missing_layer_message(layer_requirement@[k]@)
        },
        loader_outcome is Ok && required_extensions is Some && (debug_mode
            ==> layer_query_outcome is Ok && all_layers_supported(
            layer_requirement@,
            layer_query_outcome->Ok_0@,
        )) ==> {
            &&& r is Ok
            &&& r->Ok_0.wf()
            &&& r->Ok_0.has_fixed_metadata()
            &&& same_name_set(r->Ok_0.enabled_extensions@, required_extensions->0@)
            &&& debug_mode ==> r->Ok_0.enabled_layers@ == layer_requirement@
            &&& !debug_mode ==> r->Ok_0.enabled_layers@ == Seq::<String>::empty()
        },
{
    match loader_outcome {
        Ok(()) => {},
        Err(e) => {
            return Err(ApplicationError::from_loading_error(e));
        },
    }
    let req = match required_extensions {
        Some(req) => req,
        None => {
            return Err(ApplicationError::new("GLFW", "Failed to get required GLFW extensions"));
        },
    };
    let mut create_info = InstanceCreationParameters::base();
    create_info.enabled_extensions = dedup_names(&req);
    if debug_mode {
        let sup = match layer_query_outcome {
            Ok(sup) => sup,
            Err(o) => {
                return Err(ApplicationError::from_oom_error(o));
            },
        };
        let registered = register_validation_layers(&mut create_info, layer_requirement, &sup);
        match registered {
            Ok(()) => {},
            Err(e) => {
                return Err(e);
            },
        }
    }
    Ok(create_info)
}

/// Applies the error translator to the outcome of the instance-creation
/// primitive: a success handle passes through untouched — no partial
/// instance is ever exposed on failure — and any failure becomes its
/// "Instance Creation Error" category/message pair.
pub fn translate_creation_result<T>(outcome: Result<T, InstanceCreationError>) -> (r: Result<
    T,
    ApplicationError,
>)
    ensures
        outcome is Ok ==> r is Ok && r->Ok_0 == outcome->Ok_0,
        outcome is Err ==> {
            &&& r is Err
            &&& r->Err_0.which@ == "Instance Creation Error"@
            &&& r->Err_0.what@ == instance_creation_message(outcome->Err_0)
        },
{
    match outcome {
        Ok(h) => Ok(h),
        Err(e) => Err(ApplicationError::from_instance_creation_error(e)),
    }
}

} // verus!
