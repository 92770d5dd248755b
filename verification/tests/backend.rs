use openstar_linux_worker::backend::{
    cpu_attempted, initialize, input_outcome, vulkan_attempted, BackendChoice, BackendError, BackendKind,
    Initialization, VulkanReady,
};
use openstar_linux_worker::kernel::ComputeError;

#[test]
fn backend_choice_parses() {
    assert_eq!(BackendChoice::parse("auto").unwrap(), BackendChoice::Auto);
    assert_eq!(BackendChoice::parse("cpu").unwrap(), BackendChoice::Cpu);
    assert_eq!(BackendChoice::parse("vulkan").unwrap(), BackendChoice::Vulkan);
}

#[test]
fn explicit_cpu_never_requires_vulkan() {
    assert!(matches!(initialize(BackendChoice::Cpu, 1), Initialization::StartCpu(1)));
    match cpu_attempted(Ok(())) {
        Initialization::Selected(backend) => assert_eq!(backend.kind.id(), "cpu"),
        _ => panic!(),
    }
}

#[test]
fn backend_choices_are_named_as_they_parse() {
    for choice in [BackendChoice::Auto, BackendChoice::Cpu, BackendChoice::Vulkan] {
        assert_eq!(BackendChoice::parse(choice.name()), Some(choice));
    }
    assert_eq!(BackendChoice::parse("CPU"), None);
    assert_eq!(BackendChoice::parse(""), None);
    assert_eq!(BackendChoice::default(), BackendChoice::Auto);
}

fn ready(device_rank: u8) -> Result<VulkanReady, String> {
    Ok(VulkanReady { name: "GPU".to_owned(), device_rank })
}

#[test]
fn automatic_choice_takes_a_gpu_and_falls_back_to_the_cpu() {
    assert!(matches!(initialize(BackendChoice::Auto, 3), Initialization::TryVulkan));
    match vulkan_attempted(BackendChoice::Auto, 3, ready(1)) {
        Initialization::Selected(backend) => {
            assert_eq!(backend.kind, BackendKind::Vulkan);
            assert_eq!(backend.kind.id(), "vulkan");
            assert_eq!(backend.gpu_name(), "GPU");
        }
        _ => panic!(),
    }
    assert!(matches!(
        vulkan_attempted(BackendChoice::Auto, 3, ready(0)),
        Initialization::StartCpu(3)
    ));
    assert!(matches!(
        vulkan_attempted(BackendChoice::Auto, 3, Err("no loader".to_owned())),
        Initialization::StartCpu(3)
    ));
}

#[test]
fn explicit_vulkan_takes_any_device_and_never_falls_back() {
    assert!(matches!(
        vulkan_attempted(BackendChoice::Vulkan, 3, ready(0)),
        Initialization::Selected(_)
    ));
    match vulkan_attempted(BackendChoice::Vulkan, 3, Err("no loader".to_owned())) {
        Initialization::Failed(reason) => {
            assert_eq!(reason, "Vulkan backend initialization failed: no loader")
        }
        _ => panic!(),
    }
}

#[test]
fn a_cpu_backend_may_fail_and_has_no_gpu() {
    match cpu_attempted(Err("no threads".to_owned())) {
        Initialization::Failed(reason) => assert_eq!(reason, "no threads"),
        _ => panic!(),
    }
    match cpu_attempted(Ok(())) {
        Initialization::Selected(backend) => assert_eq!(backend.gpu_name(), "none"),
        _ => panic!(),
    }
}

#[test]
fn backend_errors_speak_for_themselves() {
    assert_eq!(
        BackendError::InvalidInput(ComputeError::InvalidCount).message(),
        "frequency count must be positive"
    );
    assert_eq!(BackendError::Execution("device lost".to_owned()).message(), "device lost");
}

#[test]
fn kernel_errors_are_errors_of_the_input() {
    assert!(matches!(input_outcome(Ok(7)), Ok(7)));
    assert!(matches!(
        input_outcome::<u8>(Err(ComputeError::NonFinite)),
        Err(BackendError::InvalidInput(ComputeError::NonFinite))
    ));
}
