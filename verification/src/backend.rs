//! Choosing a compute backend.

use crate::kernel::ComputeError;
use crate::text::same_text;
use crate::vulkan::device_rank_spec;
use vstd::prelude::*;

verus! {

/// Which backend the user asked for.
#[derive(Clone, Copy, Debug, PartialEq, Eq, Structural)]
pub enum BackendChoice {
    Auto,
    Cpu,
    Vulkan,
}

/// A backend that computes.
#[derive(Clone, Copy, Debug, PartialEq, Eq, Structural)]
pub enum BackendKind {
    Cpu,
    Vulkan,
}

/// Why a backend did not produce a result.
pub enum BackendError {
    InvalidInput(ComputeError),
    Execution(String),
}

impl BackendError {
    pub open spec fn message_spec(self) -> Seq<char> {
        match self {
            BackendError::InvalidInput(error) => error.message_spec(),
            BackendError::Execution(reason) => reason@,
        }
    }

    pub fn message(&self) -> (r: String)
        ensures
            r@ == self.message_spec(),
    {
        match self {
            BackendError::InvalidInput(error) => error.message().to_owned(),
            BackendError::Execution(reason) => reason.clone(),
        }
    }
}

/// An error of the kernel is an error of the input, on every backend.
pub fn input_outcome<T>(outcome: Result<T, ComputeError>) -> (r: Result<T, BackendError>)
    ensures
        match outcome {
            Ok(value) => r == Ok::<T, BackendError>(value),
            Err(error) => r == Err::<T, BackendError>(BackendError::InvalidInput(error)),
        },
{
    match outcome {
        Ok(value) => Ok(value),
        Err(error) => Err(BackendError::InvalidInput(error)),
    }
}

impl Default for BackendChoice {
    fn default() -> (r: BackendChoice)
        ensures
            r == BackendChoice::Auto,
    {
        BackendChoice::Auto
    }
}

impl BackendChoice {
    pub open spec fn name_spec(self) -> Seq<char> {
        match self {
            BackendChoice::Auto => "auto"@,
            BackendChoice::Cpu => "cpu"@,
            BackendChoice::Vulkan => "vulkan"@,
        }
    }

    /// The name by which the choice is written.
    pub fn name(self) -> (r: &'static str)
        ensures
            r@ == self.name_spec(),
    {
        match self {
            BackendChoice::Auto => "auto",
            BackendChoice::Cpu => "cpu",
            BackendChoice::Vulkan => "vulkan",
        }
    }

    /// The choice that a name stands for. Names are written in lower case.
    pub fn parse(name: &str) -> (r: Option<BackendChoice>)
        ensures
            match r {
                Some(choice) => name@ == choice.name_spec(),
                None => forall|other: BackendChoice| name@ != #[trigger] other.name_spec(),
            },
    {
        if same_text(name, "auto") {
            Some(BackendChoice::Auto)
        } else if same_text(name, "cpu") {
            Some(BackendChoice::Cpu)
        } else if same_text(name, "vulkan") {
            Some(BackendChoice::Vulkan)
        } else {
            None
        }
    }
}

/// Names tell choices apart, so reading a written choice gives it back.
pub proof fn choice_names_are_distinct(a: BackendChoice, b: BackendChoice)
    ensures
        a.name_spec() == b.name_spec() ==> a == b,
{
    reveal_strlit("auto");
    reveal_strlit("cpu");
    reveal_strlit("vulkan");
    if a.name_spec() == b.name_spec() {
        assert(a.name_spec().len() == b.name_spec().len());
    }
}

impl BackendKind {
    pub open spec fn id_spec(self) -> Seq<char> {
        match self {
            BackendKind::Cpu => "cpu"@,
            BackendKind::Vulkan => "vulkan"@,
        }
    }

    /// The identifier that is advertised and reported.
    pub fn id(self) -> (r: &'static str)
        ensures
            r@ == self.id_spec(),
    {
        match self {
            BackendKind::Cpu => "cpu",
            BackendKind::Vulkan => "vulkan",
        }
    }
}

/// A backend that is ready.
pub struct SelectedBackend {
    pub kind: BackendKind,
    /// The name of the GPU, where there is one.
    pub gpu_name: Option<String>,
}

impl SelectedBackend {
    pub open spec fn gpu_name_spec(self) -> Seq<char> {
        match self.gpu_name {
            Some(name) => name@,
            None => "none"@,
        }
    }

    /// The name of the GPU, or `none`.
    pub fn gpu_name(&self) -> (r: &str)
        ensures
            r@ == self.gpu_name_spec(),
    {
        match &self.gpu_name {
            Some(name) => name.as_str(),
            None => "none",
        }
    }
}

/// A Vulkan backend that came up.
pub struct VulkanReady {
    pub name: String,
    /// The rank of its device: zero is neither a discrete nor an integrated
    /// GPU.
    pub device_rank: u8,
}

/// The next step of an initialization.
pub enum Initialization {
    /// Bring up the Vulkan backend.
    TryVulkan,
    /// Bring up the CPU backend with this many threads.
    StartCpu(usize),
    /// The backend is chosen.
    Selected(SelectedBackend),
    /// There is no backend, for this reason.
    Failed(String),
}

/// Only an explicit CPU choice starts without Vulkan.
pub fn initialize(choice: BackendChoice, threads: usize) -> (r: Initialization)
    ensures
        match choice {
            BackendChoice::Cpu => r == Initialization::StartCpu(threads),
            _ => r is TryVulkan,
        },
{
    match choice {
        BackendChoice::Cpu => Initialization::StartCpu(threads),
        BackendChoice::Vulkan | BackendChoice::Auto => Initialization::TryVulkan,
    }
}

/// Whether a device of this rank is kept: by an explicit choice of Vulkan always,
/// by the automatic choice where it is a GPU.
pub open spec fn keeps_device(choice: BackendChoice, rank: u8) -> bool {
    choice == BackendChoice::Vulkan || rank > 0
}

/// The automatic choice keeps discrete and integrated GPUs and no other device;
/// an explicit choice of Vulkan keeps every device.
pub proof fn only_gpus_are_kept_automatically(kind: i32)
    ensures
        keeps_device(BackendChoice::Auto, device_rank_spec(kind)) <==> kind == 2 || kind == 1,
        keeps_device(BackendChoice::Vulkan, device_rank_spec(kind)),
{
}

/// What follows an attempt to bring up Vulkan. An explicit Vulkan choice takes
/// any device and makes a failure fatal; the automatic choice takes a discrete
/// or integrated GPU, and the CPU otherwise.
pub fn vulkan_attempted(
    choice: BackendChoice,
    threads: usize,
    attempt: Result<VulkanReady, String>,
) -> (r: Initialization)
    requires
        choice != BackendChoice::Cpu,
    ensures
        match attempt {
            Ok(ready) => if keeps_device(choice, ready.device_rank) {
                r == Initialization::Selected(
                    (SelectedBackend { kind: BackendKind::Vulkan, gpu_name: Some(ready.name) }),
                )
            } else {
                r == Initialization::StartCpu(threads)
            },
            Err(reason) => if choice == BackendChoice::Vulkan {
                r matches Initialization::Failed(message) && message@
                    == "Vulkan backend initialization failed: "@ + reason@
            } else {
                r == Initialization::StartCpu(threads)
            },
        },
{
    match attempt {
        Ok(ready) => if choice == BackendChoice::Vulkan || ready.device_rank > 0 {
            Initialization::Selected(
                SelectedBackend { kind: BackendKind::Vulkan, gpu_name: Some(ready.name) },
            )
        } else {
            Initialization::StartCpu(threads)
        },
        Err(reason) => if choice == BackendChoice::Vulkan {
            Initialization::Failed(
                crate::text::joined("Vulkan backend initialization failed: ", reason.as_str()),
            )
        } else {
            Initialization::StartCpu(threads)
        },
    }
}

/// What follows an attempt to bring up the CPU backend.
pub fn cpu_attempted(attempt: Result<(), String>) -> (r: Initialization)
    ensures
        match attempt {
            Ok(_) => r == Initialization::Selected(
                (SelectedBackend { kind: BackendKind::Cpu, gpu_name: None }),
            ),
            Err(reason) => r == Initialization::Failed(reason),
        },
{
    match attempt {
        Ok(()) => Initialization::Selected(
            SelectedBackend { kind: BackendKind::Cpu, gpu_name: None },
        ),
        Err(reason) => Initialization::Failed(reason),
    }
}

/// An explicit choice is honoured: the CPU is started without a look at Vulkan,
/// and Vulkan is never replaced by the CPU. The automatic choice has the CPU to
/// fall back on, so Vulkan alone cannot make it fail.
pub proof fn explicit_choices_are_honoured(
    choice: BackendChoice,
    threads: usize,
    attempt: Result<VulkanReady, String>,
    first: Initialization,
    second: Initialization,
)
    requires
        call_ensures(initialize, (choice, threads), first),
        first is TryVulkan ==> call_ensures(vulkan_attempted, (choice, threads, attempt), second),
    ensures
        first is TryVulkan <==> choice != BackendChoice::Cpu,
        choice == BackendChoice::Cpu ==> first == Initialization::StartCpu(threads),
        choice == BackendChoice::Vulkan ==> {
            &&& second is Selected <==> attempt is Ok
            &&& second is Failed <==> attempt is Err
        },
        choice == BackendChoice::Auto ==> {
            &&& second is Selected || second == Initialization::StartCpu(threads)
            &&& second is Selected <==> (attempt is Ok && attempt->Ok_0.device_rank >= 1)
        },
        first is TryVulkan && second is Selected ==> {
            &&& second->Selected_0.kind == BackendKind::Vulkan
            &&& second->Selected_0.gpu_name == Some(attempt->Ok_0.name)
        },
{
}

/// A CPU that came up is selected and names no GPU; one that did not is the end,
/// for the reason that was given.
pub proof fn a_started_cpu_is_selected(attempt: Result<(), String>, r: Initialization)
    requires
        call_ensures(cpu_attempted, (attempt,), r),
    ensures
        attempt is Ok ==> r is Selected && r->Selected_0.kind == BackendKind::Cpu
            && r->Selected_0.gpu_name_spec() == "none"@,
        attempt is Err ==> r is Failed && r->Failed_0 == attempt->Err_0,
{
}

} // verus!
