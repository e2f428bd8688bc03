use vulkan_bootstrap::error::ApplicationError;
use vulkan_bootstrap::error::InstanceCreationError;
use vulkan_bootstrap::error::LoadingError;
use vulkan_bootstrap::error::OomError;

#[test]
fn application_error_new_keeps_category_and_message() {
    let e = ApplicationError::new("GLFW", "Failed to initialize GLFW");
    assert_eq!(e.which, "GLFW");
    assert_eq!(e.what, "Failed to initialize GLFW");
}

#[test]
fn display_line_brackets_the_category() {
    let e = ApplicationError::new("Loading Error", "libvulkan not found");
    assert_eq!(e.display_line(), "[Loading Error] libvulkan not found");
}

#[test]
fn library_load_failure_maps_to_loading_error() {
    let e = ApplicationError::from_loading_error(LoadingError::LibraryLoadFailure(String::from(
        "libvulkan.so.1: cannot open shared object file",
    )));
    assert_eq!(e.which, "Loading Error");
    assert_eq!(e.what, "libvulkan.so.1: cannot open shared object file");
}

#[test]
fn loader_oom_maps_to_loading_error() {
    let e = ApplicationError::from_loading_error(LoadingError::OomError(String::from(
        "no memory available on the host",
    )));
    assert_eq!(e.which, "Loading Error");
    assert_eq!(e.what, "no memory available on the host");
}

#[test]
fn extension_not_present_maps_to_fixed_literal() {
    let e = ApplicationError::from_instance_creation_error(
        InstanceCreationError::ExtensionNotPresent,
    );
    assert_eq!(e.which, "Instance Creation Error");
    assert_eq!(e.what, "Extension not present");
}

#[test]
fn extension_restriction_keeps_diagnostic_text() {
    let e = ApplicationError::from_instance_creation_error(
        InstanceCreationError::ExtensionRestrictionNotMet(String::from(
            "the extension VK_KHR_surface is restricted on this platform",
        )),
    );
    assert_eq!(e.which, "Instance Creation Error");
    assert_eq!(
        e.what,
        "the extension VK_KHR_surface is restricted on this platform"
    );
}

#[test]
fn incompatible_driver_maps_to_fixed_literal() {
    let e = ApplicationError::from_instance_creation_error(
        InstanceCreationError::IncompatibleDriver,
    );
    assert_eq!(e.which, "Instance Creation Error");
    assert_eq!(e.what, "Incompatible driver");
}

#[test]
fn initialization_failed_maps_to_fixed_literal() {
    let e = ApplicationError::from_instance_creation_error(
        InstanceCreationError::InitializationFailed,
    );
    assert_eq!(e.which, "Instance Creation Error");
    assert_eq!(e.what, "Initialization failed");
}

#[test]
fn layer_not_present_maps_to_fixed_literal() {
    let e =
        ApplicationError::from_instance_creation_error(InstanceCreationError::LayerNotPresent);
    assert_eq!(e.which, "Instance Creation Error");
    assert_eq!(e.what, "Layer not present");
}

#[test]
fn creation_oom_keeps_diagnostic_text() {
    let e = ApplicationError::from_instance_creation_error(InstanceCreationError::OomError(
        String::from("no memory available on the device"),
    ));
    assert_eq!(e.which, "Instance Creation Error");
    assert_eq!(e.what, "no memory available on the device");
}

#[test]
fn requirement_not_met_formats_both_parts() {
    let e = ApplicationError::from_instance_creation_error(
        InstanceCreationError::RequirementNotMet {
            required_for: String::from("enabled_extensions.khr_surface"),
            requires_one_of: String::from("Vulkan API version 1.1"),
        },
    );
    assert_eq!(e.which, "Instance Creation Error");
    assert_eq!(
        e.what,
        "enabled_extensions.khr_surface requires one of Vulkan API version 1.1"
    );
}

#[test]
fn enumeration_oom_maps_to_out_of_memory() {
    let e = ApplicationError::from_oom_error(OomError {
        what: String::from("no memory available on the host"),
    });
    assert_eq!(e.which, "Out of Memory");
    assert_eq!(e.what, "no memory available on the host");
}

#[test]
fn translation_is_idempotent_across_repeated_calls() {
    let first = ApplicationError::from_instance_creation_error(
        InstanceCreationError::ExtensionRestrictionNotMet(String::from("restricted")),
    );
    let second = ApplicationError::from_instance_creation_error(
        InstanceCreationError::ExtensionRestrictionNotMet(String::from("restricted")),
    );
    assert_eq!(first.which, second.which);
    assert_eq!(first.what, second.what);

    let first = ApplicationError::from_loading_error(LoadingError::LibraryLoadFailure(
        String::from("not found"),
    ));
    let second = ApplicationError::from_loading_error(LoadingError::LibraryLoadFailure(
        String::from("not found"),
    ));
    assert_eq!(first.which, second.which);
    assert_eq!(first.what, second.what);
}
