//! What a whole selection comes to, whatever the files and programs do.
use vstd::prelude::*;

use crate::arch;
use crate::capability;
use crate::capability::ComputeCapability;
use crate::probe;
use crate::process;
use crate::process::{ProcessOutput, ProcessOutputView};
use crate::selection;
use crate::selection::{
    ArchSelection, ArchSelectionView, ArchSource, ArchSourceView, Argument, Places, PlacesView,
    Program, RunRequest, RunRequestView, RunTask, RunTaskView, SelectionStep, SelectionStepView,
    WriteRequest, WriteRequestView, WriteTask, WriteTaskView,
};
use crate::standard;
use crate::text;

verus! {

/// How the outside answers: to the writing of the probe, its compilation and
/// its run, and to the writing and the compilation of the check of each
/// architecture.
pub struct World {
    pub probe_written: Result<(), Seq<char>>,
    pub probe_compiled: Result<ProcessOutputView, Seq<char>>,
    pub probe_run: Result<ProcessOutputView, Seq<char>>,
    pub check_written: spec_fn(Seq<char>) -> Result<(), Seq<char>>,
    pub check_run: spec_fn(Seq<char>) -> Result<ProcessOutputView, Seq<char>>,
}

/// What is asked for: the architectures given, and the two machines.
pub struct Wish {
    pub explicit_nvcc: Option<Seq<char>>,
    pub explicit_cutlass: Option<Seq<char>>,
    pub host: Seq<char>,
    pub target: Seq<char>,
}

/// How the outside answers a request to write.
pub open spec fn write_reply(world: World, request: WriteRequestView) -> Result<(), Seq<char>> {
    match request.task {
        WriteTaskView::Probe { .. } => world.probe_written,
        WriteTaskView::Check { selection, cutlass } => (world.check_written)(
            selection::checked_arch(selection, cutlass),
        ),
    }
}

/// How the outside answers a request to run.
pub open spec fn run_reply(world: World, request: RunRequestView) -> Result<
    ProcessOutputView,
    Seq<char>,
> {
    match request.task {
        RunTaskView::CompileProbe { .. } => world.probe_compiled,
        RunTaskView::RunProbe { .. } => world.probe_run,
        RunTaskView::Check { selection, cutlass } => (world.check_run)(
            selection::checked_arch(selection, cutlass),
        ),
    }
}

/// The most requests that are still to come.
pub open spec fn requests_left(step: SelectionStepView) -> nat {
    match step {
        SelectionStepView::Done(_) => 0,
        SelectionStepView::Run(request) => match request.task {
            RunTaskView::Check { cutlass, .. } => if cutlass {
                1
            } else {
                3
            },
            RunTaskView::RunProbe { .. } => 5,
            RunTaskView::CompileProbe { .. } => 6,
        },
        SelectionStepView::Write(request) => match request.task {
            WriteTaskView::Check { cutlass, .. } => if cutlass {
                2
            } else {
                4
            },
            WriteTaskView::Probe { .. } => 7,
        },
    }
}

/// The step that follows, as the outside answers.
pub open spec fn next_step(world: World, step: SelectionStepView) -> Result<
    SelectionStepView,
    Seq<char>,
> {
    match step {
        SelectionStepView::Done(_) => Ok(step),
        SelectionStepView::Write(request) => selection::after_write(
            request,
            write_reply(world, request),
        ),
        SelectionStepView::Run(request) => selection::after_run(request, run_reply(world, request)),
    }
}

/// Where the steps lead, each request answered in turn.
pub open spec fn driven(world: World, step: SelectionStepView) -> Result<
    ArchSelectionView,
    Seq<char>,
>
    decreases requests_left(step),
{
    match step {
        SelectionStepView::Done(selection) => Ok(selection),
        _ => match next_step(world, step) {
            Err(message) => Err(message),
            Ok(next) => driven(world, next),
        },
    }
}

/// Where a selection leads from its first step on.
pub open spec fn selected(world: World, wish: Wish, places: PlacesView) -> Result<
    ArchSelectionView,
    Seq<char>,
> {
    match selection::first_step(
        wish.explicit_nvcc,
        wish.explicit_cutlass,
        wish.host,
        wish.target,
        places,
    ) {
        Err(message) => Err(message),
        Ok(step) => driven(world, step),
    }
}

/// The capabilities of the visible devices: the probe is written, compiled and
/// run, and what it prints is read.
pub open spec fn detected(world: World, places: PlacesView) -> Result<
    Seq<ComputeCapability>,
    Seq<char>,
> {
    match world.probe_written {
        Err(error) => Err(
            "write CUDA device probe "@ + (places.out_dir + selection::probe_source_file()) + ": "@
                + error,
        ),
        Ok(()) => match world.probe_compiled {
            Err(error) => Err("run "@ + places.nvcc + " for CUDA device probe: "@ + error),
            Ok(compiled) => match process::success_of("compile CUDA device probe"@, compiled) {
                Err(message) => Err(message),
                Ok(()) => match world.probe_run {
                    Err(error) => Err(
                        "run CUDA device probe "@ + (places.out_dir
                            + selection::probe_executable_file(places.exe_suffix)) + ": "@ + error,
                    ),
                    Ok(output) => match process::success_of("run CUDA device probe"@, output) {
                        Err(message) => Err(message),
                        Ok(()) => probe::probed_capabilities(standard::utf8_lossy(output.stdout)),
                    },
                },
            },
        },
    }
}

/// Whether the compiler accepts an architecture: the check is written, and
/// compiled for it.
pub open spec fn accepted(world: World, places: PlacesView, arch: Seq<char>) -> Result<
    (),
    Seq<char>,
> {
    match (world.check_written)(arch) {
        Err(error) => Err(
            "write NVCC architecture check "@ + (places.out_dir + selection::check_source_file())
                + ": "@ + error,
        ),
        Ok(()) => match (world.check_run)(arch) {
            Err(error) => Err(selection::check_run_error(places, arch, error)),
            Ok(output) => process::success_of("validate CUDA architecture "@ + arch, output),
        },
    }
}

/// The architecture for the compiler, and where it comes from.
pub open spec fn chosen_nvcc(world: World, wish: Wish, places: PlacesView) -> Result<
    (Seq<char>, ArchSourceView),
    Seq<char>,
> {
    match wish.explicit_nvcc {
        Some(name) => if arch::is_arch_name(name) {
            Ok((name, ArchSourceView::Explicit))
        } else {
            Err(arch::arch_name_error(name))
        },
        None => if wish.host != wish.target {
            Err(selection::cross_compiling_error(wish.host, wish.target))
        } else {
            match detected(world, places) {
                Err(message) => Err(message),
                Ok(capabilities) => match capability::uniform_arch(capabilities) {
                    Err(message) => Err(message),
                    Ok(name) => Ok(
                        (name, ArchSourceView::Detected { device_count: capabilities.len() }),
                    ),
                },
            }
        },
    }
}

/// The architecture for CUTLASS.
pub open spec fn chosen_cutlass(wish: Wish, nvcc_arch: Seq<char>) -> Result<Seq<char>, Seq<char>> {
    match wish.explicit_cutlass {
        Some(name) => if arch::is_arch_name(name) {
            Ok(name)
        } else {
            Err(arch::arch_name_error(name))
        },
        None => Ok(arch::cutlass_arch(nvcc_arch)),
    }
}

/// What a selection comes to: both architectures are chosen, and the compiler
/// must accept each of them.
pub open spec fn selection_of(world: World, wish: Wish, places: PlacesView) -> Result<
    ArchSelectionView,
    Seq<char>,
> {
    match chosen_nvcc(world, wish, places) {
        Err(message) => Err(message),
        Ok((nvcc_arch, source)) => match chosen_cutlass(wish, nvcc_arch) {
            Err(message) => Err(message),
            Ok(cutlass_arch) => match accepted(world, places, nvcc_arch) {
                Err(message) => Err(message),
                Ok(()) => match accepted(world, places, cutlass_arch) {
                    Err(message) => Err(message),
                    Ok(()) => Ok(ArchSelectionView { nvcc_arch, cutlass_arch, source }),
                },
            },
        },
    }
}

/// Each answer leads to a step with fewer requests still to come, or ends the
/// selection.
pub proof fn law_each_answer_comes_nearer_to_the_end(world: World, step: SelectionStepView)
    requires
        !(step is Done),
    ensures
        next_step(world, step) matches Ok(next) ==> requests_left(next) < requests_left(step),
{
}

/// Where the checks of a selection lead.
proof fn lemma_checks(
    world: World,
    places: PlacesView,
    nvcc_arch: Seq<char>,
    source: ArchSourceView,
    cutlass_arch: Seq<char>,
)
    ensures
        driven(world, selection::first_check(places, nvcc_arch, source, cutlass_arch)) == match accepted(
            world,
            places,
            nvcc_arch,
        ) {
            Err(message) => Err(message),
            Ok(()) => match accepted(world, places, cutlass_arch) {
                Err(message) => Err(message),
                Ok(()) => Ok(ArchSelectionView { nvcc_arch, cutlass_arch, source }),
            },
        },
{
    reveal_with_fuel(driven, 6);
}

/// The steps of a selection, each request answered in turn, lead to what the
/// selection as a whole comes to.
pub proof fn law_the_steps_make_the_selection(world: World, wish: Wish, places: PlacesView)
    ensures
        selected(world, wish, places) == selection_of(world, wish, places),
{
    reveal_with_fuel(driven, 4);
    match chosen_nvcc(world, wish, places) {
        Err(_) => {},
        Ok((nvcc_arch, source)) => {
            match chosen_cutlass(wish, nvcc_arch) {
                Err(_) => {},
                Ok(cutlass_arch) => {
                    lemma_checks(world, places, nvcc_arch, source, cutlass_arch);
                },
            }
        },
    }
}

/// Without an architecture for the compiler, a selection for a target that is
/// not the host is refused, whatever the outside does.
pub proof fn law_cross_compilation_is_refused(world: World, wish: Wish, places: PlacesView)
    requires
        wish.explicit_nvcc is None,
        wish.host != wish.target,
    ensures
        selected(world, wish, places) == Err::<ArchSelectionView, Seq<char>>(
            selection::cross_compiling_error(wish.host, wish.target),
        ),
{
}

/// Both architectures of a selection have the form of names, and the compiler
/// has accepted them.
pub proof fn law_selected_archs_are_valid_and_accepted(world: World, wish: Wish, places: PlacesView)
    ensures
        selected(world, wish, places) matches Ok(selection) ==> {
            &&& arch::is_arch_name(selection.nvcc_arch)
            &&& arch::is_arch_name(selection.cutlass_arch)
            &&& accepted(world, places, selection.nvcc_arch) is Ok
            &&& accepted(world, places, selection.cutlass_arch) is Ok
        },
{
    law_the_steps_make_the_selection(world, wish, places);
    if let Ok((nvcc_arch, source)) = chosen_nvcc(world, wish, places) {
        if wish.explicit_nvcc is None {
            let capabilities = detected(world, places)->Ok_0;
            capability::law_arch_of_a_device_is_valid(capabilities[0]);
        }
        arch::law_cutlass_arch_is_valid(nvcc_arch);
    }
}

/// An architecture that is given is the one selected, and is said to be given;
/// one that is not given for CUTLASS follows from that for the compiler.
pub proof fn law_given_archs_are_selected(world: World, wish: Wish, places: PlacesView)
    ensures
        selected(world, wish, places) matches Ok(selection) ==> {
            &&& wish.explicit_nvcc matches Some(name) ==> selection.nvcc_arch == name
            &&& (wish.explicit_nvcc is Some) == (selection.source is Explicit)
            &&& selection.cutlass_arch == match wish.explicit_cutlass {
                Some(name) => name,
                None => arch::cutlass_arch(selection.nvcc_arch),
            }
        },
{
    law_the_steps_make_the_selection(world, wish, places);
}

/// Where the architecture was detected, there are devices, as many as is said,
/// and each of them has that architecture.
pub proof fn law_detected_arch_is_that_of_every_device(world: World, wish: Wish, places: PlacesView)
    ensures
        selected(world, wish, places) matches Ok(selection) ==> selection.source matches
            ArchSourceView::Detected { device_count } ==> {
            &&& device_count > 0
            &&& wish.host == wish.target
            &&& detected(world, places) matches Ok(capabilities)
            &&& capabilities.len() == device_count
            &&& forall|i: int|
                0 <= i < capabilities.len() ==> capability::arch_of(#[trigger] capabilities[i])
                    == selection.nvcc_arch
        },
{
    law_the_steps_make_the_selection(world, wish, places);
}

/// Where the probe is written, compiled and run, and prints a record for each
/// visible device, the devices that are detected are those.
pub proof fn law_listed_devices_are_detected(
    world: World,
    places: PlacesView,
    devices: Seq<probe::ListedDevice>,
)
    requires
        world.probe_written is Ok,
        world.probe_compiled matches Ok(compiled) && compiled.success,
        world.probe_run matches Ok(output) && output.success && standard::utf8_lossy(output.stdout)
            == probe::printed(0, devices),
        devices.len() > 0,
        forall|i: int| 0 <= i < devices.len() ==> !(#[trigger] devices[i]).name.contains('\n'),
    ensures
        detected(world, places) == Ok::<Seq<ComputeCapability>, Seq<char>>(
            probe::capabilities_of(devices),
        ),
{
    probe::law_probe_output_is_read_back(devices);
}

/// Whether a step asks for something that only listing the devices needs.
pub open spec fn is_of_the_probe(step: SelectionStepView) -> bool {
    match step {
        SelectionStepView::Done(_) => false,
        SelectionStepView::Write(request) => request.task is Probe,
        SelectionStepView::Run(request) => request.task is CompileProbe
            || request.task is RunProbe,
    }
}

/// The devices are not listed where an architecture for the compiler is given,
/// nor where the host is not the target: the first step does not ask for it,
/// and no step that does not ask for it leads to one that does.
pub proof fn law_the_probe_is_not_run_in_vain(world: World, wish: Wish, places: PlacesView)
    ensures
        wish.explicit_nvcc is Some || wish.host != wish.target ==> (selection::first_step(
            wish.explicit_nvcc,
            wish.explicit_cutlass,
            wish.host,
            wish.target,
            places,
        ) matches Ok(step) ==> !is_of_the_probe(step)),
        forall|step: SelectionStepView|
            !is_of_the_probe(step) ==> (#[trigger] next_step(world, step) matches Ok(next)
                ==> !is_of_the_probe(next)),
{
}

/// An architecture that is given is enough: where it has the form of a name, the
/// one for CUTLASS is not given or has it too, and the compiler takes both, they
/// are selected, whatever the host, the target and the devices are.
pub proof fn law_a_given_architecture_is_enough(
    world: World,
    wish: Wish,
    places: PlacesView,
    nvcc_arch: Seq<char>,
    cutlass_arch: Seq<char>,
)
    requires
        wish.explicit_nvcc == Some(nvcc_arch),
        arch::is_arch_name(nvcc_arch),
        match wish.explicit_cutlass {
            Some(name) => name == cutlass_arch && arch::is_arch_name(name),
            None => cutlass_arch == arch::cutlass_arch(nvcc_arch),
        },
        (world.check_written)(nvcc_arch) is Ok,
        (world.check_run)(nvcc_arch) matches Ok(output) && output.success,
        (world.check_written)(cutlass_arch) is Ok,
        (world.check_run)(cutlass_arch) matches Ok(output) && output.success,
    ensures
        selected(world, wish, places) matches Ok(selection) && selection.nvcc_arch == nvcc_arch
            && selection.cutlass_arch == cutlass_arch && selection.source is Explicit,
{
    law_the_steps_make_the_selection(world, wish, places);
}

/// Neither the host nor the target nor the devices have a say where an
/// architecture for the compiler is given.
pub proof fn law_a_given_architecture_decides(
    world: World,
    other: World,
    wish: Wish,
    host: Seq<char>,
    target: Seq<char>,
    places: PlacesView,
)
    requires
        wish.explicit_nvcc is Some,
        other.check_written == world.check_written,
        other.check_run == world.check_run,
    ensures
        selected(world, wish, places) == selected(
            other,
            Wish {
                explicit_nvcc: wish.explicit_nvcc,
                explicit_cutlass: wish.explicit_cutlass,
                host,
                target,
            },
            places,
        ),
{
    let elsewhere = Wish {
        explicit_nvcc: wish.explicit_nvcc,
        explicit_cutlass: wish.explicit_cutlass,
        host,
        target,
    };
    law_the_steps_make_the_selection(world, wish, places);
    law_the_steps_make_the_selection(other, elsewhere, places);
}

/// Devices that are alike are enough: where none is given for the compiler, the
/// host is the target, the probe lists one or more devices that all have one
/// capability, and the compiler takes both architectures, the one of the devices
/// is selected, and how many there are is said.
pub proof fn law_devices_that_are_alike_are_enough(
    world: World,
    wish: Wish,
    places: PlacesView,
    devices: Seq<probe::ListedDevice>,
    major: u32,
    minor: u32,
    nvcc_arch: Seq<char>,
    cutlass_arch: Seq<char>,
)
    requires
        wish.explicit_nvcc is None,
        wish.host == wish.target,
        world.probe_written is Ok,
        world.probe_compiled matches Ok(compiled) && compiled.success,
        world.probe_run matches Ok(output) && output.success && standard::utf8_lossy(output.stdout)
            == probe::printed(0, devices),
        devices.len() > 0,
        forall|i: int|
            0 <= i < devices.len() ==> !(#[trigger] devices[i]).name.contains('\n')
                && devices[i].capability.major == major && devices[i].capability.minor == minor,
        nvcc_arch == "sm_"@ + text::decimal(major as nat) + text::decimal(minor as nat),
        match wish.explicit_cutlass {
            Some(name) => name == cutlass_arch && arch::is_arch_name(name),
            None => cutlass_arch == arch::cutlass_arch(nvcc_arch),
        },
        (world.check_written)(nvcc_arch) is Ok,
        (world.check_run)(nvcc_arch) matches Ok(output) && output.success,
        (world.check_written)(cutlass_arch) is Ok,
        (world.check_run)(cutlass_arch) matches Ok(output) && output.success,
    ensures
        selected(world, wish, places) matches Ok(selection) && selection.nvcc_arch == nvcc_arch
            && selection.cutlass_arch == cutlass_arch
            && selection.source == (ArchSourceView::Detected { device_count: devices.len() }),
{
    law_the_steps_make_the_selection(world, wish, places);
    law_listed_devices_are_detected(world, places, devices);
    let capabilities = probe::capabilities_of(devices);
    assert forall|i: int| 0 <= i < capabilities.len() implies #[trigger] capabilities[i]
        == capabilities[0] by {
        assert(devices[i].capability == devices[0].capability);
    }
    assert(capabilities[0] == devices[0].capability);
}

/// A selection is made only where nothing failed: what is given has the form of
/// names, the compiler takes both architectures, and, where the devices decide,
/// the host is the target, the probe was written, compiled and run with success,
/// and what it printed gives devices that are alike.
pub proof fn law_a_selection_is_made_only_without_failure(
    world: World,
    wish: Wish,
    places: PlacesView,
)
    ensures
        selected(world, wish, places) matches Ok(selection) ==> {
            &&& wish.explicit_nvcc matches Some(name) ==> arch::is_arch_name(name)
            &&& wish.explicit_cutlass matches Some(name) ==> arch::is_arch_name(name)
            &&& (world.check_written)(selection.nvcc_arch) is Ok
            &&& (world.check_run)(selection.nvcc_arch) matches Ok(checked)
            &&& checked.success
            &&& (world.check_written)(selection.cutlass_arch) is Ok
            &&& (world.check_run)(selection.cutlass_arch) matches Ok(checked)
            &&& checked.success
            &&& wish.explicit_nvcc is None ==> {
                &&& wish.host == wish.target
                &&& world.probe_written is Ok
                &&& world.probe_compiled matches Ok(compiled)
                &&& compiled.success
                &&& world.probe_run matches Ok(output)
                &&& output.success
                &&& probe::device_records(text::lines(standard::utf8_lossy(output.stdout)))
                    matches Ok(capabilities)
                &&& capabilities.len() > 0
                &&& selection.source == ArchSourceView::Detected {
                    device_count: capabilities.len(),
                }
                &&& forall|i: int|
                    0 <= i < capabilities.len() ==> selection.nvcc_arch == "sm_"@ + text::decimal(
                        (#[trigger] capabilities[i]).major as nat,
                    ) + text::decimal(capabilities[i].minor as nat)
            }
        },
{
    law_the_steps_make_the_selection(world, wish, places);
}

/// What beginning a selection gives. With an architecture given for the compiler
/// it is either refused for the form of what is given, or its check is asked
/// for, whatever the host and the target are. Without one it is refused where
/// the host is not the target, and else the probe is asked for.
pub proof fn law_started_selection(
    explicit_nvcc_arch: Option<String>,
    explicit_cutlass_arch: Option<String>,
    host: &str,
    target: &str,
    nvcc: &str,
    out_dir: &str,
    exe_suffix: &str,
    step: Result<SelectionStep, String>,
)
    requires
        call_ensures(
            selection::select_cuda_arch,
            (
                explicit_nvcc_arch,
                explicit_cutlass_arch,
                host,
                target,
                nvcc,
                out_dir,
                exe_suffix,
            ),
            step,
        ),
    ensures
        explicit_nvcc_arch matches Some(name) ==> {
            &&& !arch::is_arch_name(name@) ==> (step matches Err(message) && message@
                == "invalid CUDA architecture "@ + standard::debug_form(name@)
                + "; expected a value such as sm_87, sm_101, or sm_110"@)
            &&& arch::is_arch_name(name@) ==> {
                &&& explicit_cutlass_arch matches Some(given) ==> (!arch::is_arch_name(given@) ==> (
                step matches Err(message) && message@ == "invalid CUDA architecture "@
                    + standard::debug_form(given@)
                    + "; expected a value such as sm_87, sm_101, or sm_110"@))
                &&& (explicit_cutlass_arch matches Some(given) ==> arch::is_arch_name(given@)) ==> (
                step matches Ok(next) && next matches SelectionStep::Write(request)
                    && request.task matches WriteTask::Check { selection, cutlass } && {
                    &&& !cutlass
                    &&& selection.nvcc_arch@ == name@
                    &&& selection.source == ArchSource::Explicit
                    &&& explicit_cutlass_arch matches Some(given) ==> selection.cutlass_arch@
                        == given@
                    &&& explicit_cutlass_arch is None ==> selection.cutlass_arch@
                        == arch::cutlass_arch(name@)
                    &&& request.places.nvcc@ == nvcc@
                    &&& request.places.out_dir@ == out_dir@
                    &&& request.places.exe_suffix@ == exe_suffix@
                })
            }
        },
        explicit_nvcc_arch is None && host@ != target@ ==> (step matches Err(message) && message@
            == "cannot auto-detect the target GPU while cross-compiling ("@ + host@ + " -> "@
            + target@ + ")"@),
        explicit_nvcc_arch is None && host@ == target@ ==> (step matches Ok(next)
            && next matches SelectionStep::Write(request) && request.task matches WriteTask::Probe {
            explicit_cutlass,
        } && {
            &&& explicit_cutlass is Some <==> explicit_cutlass_arch is Some
            &&& explicit_cutlass_arch matches Some(given) ==> explicit_cutlass->Some_0@ == given@
            &&& request.places.nvcc@ == nvcc@
            &&& request.places.out_dir@ == out_dir@
            &&& request.places.exe_suffix@ == exe_suffix@
        }),
{
}

/// What settling gives, once the architecture for the compiler is known: the
/// check of it, with the architecture for CUTLASS that is given, or that follows
/// where none is; one that is given and has not the form of a name is refused.
pub proof fn law_settled(
    places: Places,
    nvcc_arch: String,
    source: ArchSource,
    explicit_cutlass: Option<String>,
    step: Result<SelectionStep, String>,
)
    requires
        call_ensures(selection::settle, (places, nvcc_arch, source, explicit_cutlass), step),
    ensures
        explicit_cutlass matches Some(given) ==> (!arch::is_arch_name(given@) ==> (
        step matches Err(message) && message@ == "invalid CUDA architecture "@
            + standard::debug_form(given@)
            + "; expected a value such as sm_87, sm_101, or sm_110"@)),
        (explicit_cutlass matches Some(given) ==> arch::is_arch_name(given@)) ==> (
        step matches Ok(next) && next matches SelectionStep::Write(request)
            && request.task matches WriteTask::Check { selection, cutlass } && {
            &&& !cutlass
            &&& selection.nvcc_arch@ == nvcc_arch@
            &&& selection.source == source
            &&& explicit_cutlass matches Some(given) ==> selection.cutlass_arch@ == given@
            &&& explicit_cutlass is None ==> selection.cutlass_arch@ == arch::cutlass_arch(
                nvcc_arch@,
            )
            &&& request.places.nvcc@ == places.nvcc@
            &&& request.places.out_dir@ == places.out_dir@
            &&& request.places.exe_suffix@ == places.exe_suffix@
        }),
{
}

/// What settling what the probe has listed gives: what is wrong with it, that
/// the devices are not alike, or what settling their architecture gives.
pub proof fn law_settled_listing(
    places: Places,
    explicit_cutlass: Option<String>,
    listing: &str,
    parsed: Result<Vec<ComputeCapability>, String>,
    listed: &[ComputeCapability],
    shared: Result<String, String>,
    step: Result<SelectionStep, String>,
)
    requires
        call_ensures(selection::settle_listing, (places, explicit_cutlass, listing), step),
        call_ensures(probe::parse_probe_output, (listing,), parsed),
        parsed matches Ok(capabilities) ==> listed@ == capabilities@ && call_ensures(
            capability::select_uniform_arch,
            (listed,),
            shared,
        ),
    ensures
        parsed matches Err(said) ==> (step matches Err(message) && message@ == said@),
        parsed matches Ok(capabilities) ==> {
            &&& shared matches Err(said) ==> (step matches Err(message) && message@ == said@)
            &&& shared matches Ok(name) ==> {
                &&& explicit_cutlass matches Some(given) ==> (!arch::is_arch_name(given@) ==> (
                step matches Err(message) && message@ == "invalid CUDA architecture "@
                    + standard::debug_form(given@)
                    + "; expected a value such as sm_87, sm_101, or sm_110"@))
                &&& (explicit_cutlass matches Some(given) ==> arch::is_arch_name(given@)) ==> (
                step matches Ok(next) && next matches SelectionStep::Write(request)
                    && request.task matches WriteTask::Check { selection, cutlass } && {
                    &&& !cutlass
                    &&& selection.nvcc_arch@ == name@
                    &&& selection.source == (ArchSource::Detected {
                        device_count: capabilities@.len() as usize,
                    })
                    &&& explicit_cutlass matches Some(given) ==> selection.cutlass_arch@ == given@
                    &&& explicit_cutlass is None ==> selection.cutlass_arch@ == arch::cutlass_arch(
                        name@,
                    )
                    &&& request.places.nvcc@ == places.nvcc@
                    &&& request.places.out_dir@ == places.out_dir@
                    &&& request.places.exe_suffix@ == places.exe_suffix@
                })
            }
        },
{
}

/// What a request to write asks for: the source of the probe or of the check, in
/// the file that bears its name. The probe prints the number, the major part, the
/// minor part and the name of each visible device, in that order; the check is an
/// empty kernel.
pub proof fn law_requested_file(request: WriteRequest, name: String, contents: String)
    requires
        call_ensures(WriteRequest::file_name, (&request,), name),
        call_ensures(WriteRequest::contents, (&request,), contents),
    ensures
        request.task is Probe ==> name@ == "apxinf_cuda_device_probe.cu"@ && contents@
            == probe::DEVICE_PROBE_SOURCE@,
        request.task is Check ==> name@ == "apxinf_cuda_arch_check.cu"@ && contents@
            == selection::ARCH_CHECK_SOURCE@,
        request.task is Probe ==> contents@ == r#"
#include <cuda_runtime_api.h>
#include <cstdio>

int main() {
    int device_count = 0;
    cudaError_t status = cudaGetDeviceCount(&device_count);
    if (status != cudaSuccess) {
        std::fprintf(stderr, "cudaGetDeviceCount failed: %s\n", cudaGetErrorString(status));
        return 2;
    }
    if (device_count == 0) {
        std::fprintf(stderr, "CUDA reported zero visible devices\n");
        return 3;
    }

    for (int device = 0; device < device_count; ++device) {
        cudaDeviceProp properties{};
        status = cudaGetDeviceProperties(&properties, device);
        if (status != cudaSuccess) {
            std::fprintf(
                stderr,
                "cudaGetDeviceProperties(%d) failed: %s\n",
                device,
                cudaGetErrorString(status));
            return 4;
        }
        std::printf(
            "APXINF_CUDA_DEVICE %d %d %d %s\n",
            device,
            properties.major,
            properties.minor,
            properties.name);
    }
    return 0;
}
"#@,
        request.task is Check ==> contents@ == r#"
__global__ void apxinf_cuda_arch_check() {}
"#@,
{
}

/// What a request to run asks for: the compiler on the probe, the compiled probe
/// itself, or the compiler on the check, for the architecture that is checked.
pub proof fn law_requested_run(request: RunRequest, program: Program, arguments: Vec<Argument>)
    requires
        call_ensures(RunRequest::program, (&request,), program),
        call_ensures(RunRequest::arguments, (&request,), arguments),
    ensures
        request.task is CompileProbe ==> {
            &&& program is Compiler
            &&& arguments@.len() == 5
            &&& arguments@[0] matches Argument::Plain { value }
            &&& value@ == "-std=c++17"@
            &&& arguments@[1] matches Argument::Plain { value }
            &&& value@ == "-O0"@
            &&& arguments@[2] matches Argument::OutputFile { file }
            &&& file@ == "apxinf_cuda_device_probe.cu"@
            &&& arguments@[3] matches Argument::Plain { value }
            &&& value@ == "-o"@
            &&& arguments@[4] matches Argument::OutputFile { file }
            &&& file@ == "apxinf_cuda_device_probe"@ + request.places.exe_suffix@
        },
        request.task is RunProbe ==> {
            &&& program matches Program::Built { file }
            &&& file@ == "apxinf_cuda_device_probe"@ + request.places.exe_suffix@
            &&& arguments@.len() == 0
        },
        request.task matches RunTask::Check { selection, cutlass } ==> {
            let arch = if cutlass {
                selection.cutlass_arch@
            } else {
                selection.nvcc_arch@
            };
            &&& program is Compiler
            &&& arguments@.len() == 5
            &&& arguments@[0] matches Argument::Plain { value }
            &&& value@ == "-c"@
            &&& arguments@[1] matches Argument::OutputFile { file }
            &&& file@ == "apxinf_cuda_arch_check.cu"@
            &&& arguments@[2] matches Argument::Plain { value }
            &&& value@ == "-o"@
            &&& arguments@[3] matches Argument::OutputFile { file }
            &&& file@ == "apxinf_cuda_arch_check_"@ + arch + ".o"@
            &&& arguments@[4] matches Argument::Plain { value }
            &&& value@ == "-arch="@ + arch
        },
{
    let views = selection::argument_views(arguments@);
    assert(views.len() == arguments@.len());
    assert(arguments@.len() > 0 ==> views[0] == arguments@[0]@);
    assert(arguments@.len() > 1 ==> views[1] == arguments@[1]@);
    assert(arguments@.len() > 2 ==> views[2] == arguments@[2]@);
    assert(arguments@.len() > 3 ==> views[3] == arguments@[3]@);
    assert(arguments@.len() > 4 ==> views[4] == arguments@[4]@);
}

/// What answering a request to write gives: that the file could not be written
/// and why, or the request to run the compiler on it, with nothing else changed.
pub proof fn law_answered_write(
    request: WriteRequest,
    reply: Result<(), String>,
    step: Result<SelectionStep, String>,
)
    requires
        call_ensures(WriteRequest::answer, (request, reply), step),
    ensures
        reply matches Err(error) ==> {
            &&& request.task is Probe ==> (step matches Err(message) && message@
                == "write CUDA device probe "@ + (request.places.out_dir@
                + "apxinf_cuda_device_probe.cu"@) + ": "@ + error@)
            &&& request.task is Check ==> (step matches Err(message) && message@
                == "write NVCC architecture check "@ + (request.places.out_dir@
                + "apxinf_cuda_arch_check.cu"@) + ": "@ + error@)
        },
        reply is Ok ==> (step matches Ok(next) && next matches SelectionStep::Run(run) && {
            &&& run.places.nvcc@ == request.places.nvcc@
            &&& run.places.out_dir@ == request.places.out_dir@
            &&& run.places.exe_suffix@ == request.places.exe_suffix@
            &&& request.task matches WriteTask::Probe { explicit_cutlass } ==> {
                &&& run.task matches RunTask::CompileProbe { explicit_cutlass: kept }
                &&& kept is Some <==> explicit_cutlass is Some
                &&& explicit_cutlass matches Some(given) ==> kept->Some_0@ == given@
            }
            &&& request.task matches WriteTask::Check { selection, cutlass } ==> {
                &&& run.task matches RunTask::Check { selection: kept, cutlass: second }
                &&& second == cutlass
                &&& kept.nvcc_arch@ == selection.nvcc_arch@
                &&& kept.cutlass_arch@ == selection.cutlass_arch@
                &&& kept.source == selection.source
            }
        }),
{
}

/// What answering a request to run gives, where the program could not be run or
/// did not succeed: the message about that.
pub proof fn law_answered_failed_run(
    request: RunRequest,
    reply: Result<ProcessOutput, String>,
    action: &str,
    checked: Result<(), String>,
    step: Result<SelectionStep, String>,
)
    requires
        call_ensures(RunRequest::answer, (request, reply), step),
        action@ == match request.task {
            RunTask::CompileProbe { .. } => "compile CUDA device probe"@,
            RunTask::RunProbe { .. } => "run CUDA device probe"@,
            RunTask::Check { selection, cutlass } => "validate CUDA architecture "@ + (if cutlass {
                selection.cutlass_arch@
            } else {
                selection.nvcc_arch@
            }),
        },
        reply matches Ok(output) ==> call_ensures(process::ensure_success, (action, &output), checked),
    ensures
        reply matches Err(error) ==> (step matches Err(message) && message@ == (
        match request.task {
            RunTask::CompileProbe { .. } => "run "@ + request.places.nvcc@
                + " for CUDA device probe: "@ + error@,
            RunTask::RunProbe { .. } => "run CUDA device probe "@ + (request.places.out_dir@ + (
            "apxinf_cuda_device_probe"@ + request.places.exe_suffix@)) + ": "@ + error@,
            RunTask::Check { selection, cutlass } => "run "@ + request.places.nvcc@
                + " to validate "@ + (if cutlass {
                selection.cutlass_arch@
            } else {
                selection.nvcc_arch@
            }) + ": "@ + error@,
        })),
        reply matches Ok(output) ==> (!output.success ==> (step matches Err(message)
            && checked matches Err(report) && message@ == report@)),
{
}

/// What answering a request to run gives, where the program succeeded: after the
/// compilation of the probe its run; after its run what settling its output
/// gives; after the first check the second, unless both architectures are the
/// same; and after the last check the selection, as it was to be checked.
pub proof fn law_answered_successful_run(
    request: RunRequest,
    output: ProcessOutput,
    listing: &str,
    settled: Result<SelectionStep, String>,
    step: Result<SelectionStep, String>,
)
    requires
        output.success,
        call_ensures(RunRequest::answer, (request, Ok(output)), step),
        listing@ == standard::utf8_lossy(output.stdout@),
        request.task matches RunTask::RunProbe { explicit_cutlass } ==> call_ensures(
            selection::settle_listing,
            (request.places, explicit_cutlass, listing),
            settled,
        ),
    ensures
        request.task matches RunTask::CompileProbe { explicit_cutlass } ==> (step matches Ok(next)
            && next matches SelectionStep::Run(run) && {
            &&& run.task matches RunTask::RunProbe { explicit_cutlass: kept }
            &&& kept is Some <==> explicit_cutlass is Some
            &&& explicit_cutlass matches Some(given) ==> kept->Some_0@ == given@
            &&& run.places.nvcc@ == request.places.nvcc@
            &&& run.places.out_dir@ == request.places.out_dir@
            &&& run.places.exe_suffix@ == request.places.exe_suffix@
        }),
        request.task is RunProbe ==> selection::outcome(step) == selection::outcome(settled),
        request.task matches RunTask::Check { selection, cutlass } ==> {
            let again = !cutlass && selection.nvcc_arch@ != selection.cutlass_arch@;
            &&& again ==> (step matches Ok(next) && next matches SelectionStep::Write(write) && {
                &&& write.task matches WriteTask::Check { selection: kept, cutlass: second }
                &&& second
                &&& kept.nvcc_arch@ == selection.nvcc_arch@
                &&& kept.cutlass_arch@ == selection.cutlass_arch@
                &&& kept.source == selection.source
                &&& write.places.nvcc@ == request.places.nvcc@
                &&& write.places.out_dir@ == request.places.out_dir@
                &&& write.places.exe_suffix@ == request.places.exe_suffix@
            })
            &&& !again ==> (step matches Ok(next) && next matches SelectionStep::Done(kept) && {
                &&& kept.nvcc_arch@ == selection.nvcc_arch@
                &&& kept.cutlass_arch@ == selection.cutlass_arch@
                &&& kept.source == selection.source
            })
        },
{
}

/// A whole selection with an architecture given for the compiler, step by step:
/// where the given names have the form of names, every file is written and every
/// run of the compiler succeeds, it ends in a selection of them, whatever the
/// host and the target are. It ends after the first check where both
/// architectures are the same, and after the second where they are not.
pub proof fn law_a_given_architecture_is_selected(
    name: String,
    explicit_cutlass_arch: Option<String>,
    host: &str,
    target: &str,
    nvcc: &str,
    out_dir: &str,
    exe_suffix: &str,
    first_output: ProcessOutput,
    second_output: ProcessOutput,
    started: Result<SelectionStep, String>,
    first_written: Result<SelectionStep, String>,
    first_run: Result<SelectionStep, String>,
    second_written: Result<SelectionStep, String>,
    second_run: Result<SelectionStep, String>,
)
    requires
        arch::is_arch_name(name@),
        explicit_cutlass_arch matches Some(given) ==> arch::is_arch_name(given@),
        first_output.success,
        second_output.success,
        call_ensures(
            selection::select_cuda_arch,
            (
                Some(name),
                explicit_cutlass_arch,
                host,
                target,
                nvcc,
                out_dir,
                exe_suffix,
            ),
            started,
        ),
        started matches Ok(SelectionStep::Write(request)) ==> call_ensures(
            WriteRequest::answer,
            (request, Ok(())),
            first_written,
        ),
        first_written matches Ok(SelectionStep::Run(request)) ==> call_ensures(
            RunRequest::answer,
            (request, Ok(first_output)),
            first_run,
        ),
        first_run matches Ok(SelectionStep::Write(request)) ==> call_ensures(
            WriteRequest::answer,
            (request, Ok(())),
            second_written,
        ),
        second_written matches Ok(SelectionStep::Run(request)) ==> call_ensures(
            RunRequest::answer,
            (request, Ok(second_output)),
            second_run,
        ),
    ensures
        ({
            let cutlass_arch = match explicit_cutlass_arch {
                Some(given) => given@,
                None => arch::cutlass_arch(name@),
            };
            let ended = if cutlass_arch == name@ {
                first_run
            } else {
                second_run
            };
            ended matches Ok(last) && last matches SelectionStep::Done(selection) && {
                &&& selection.nvcc_arch@ == name@
                &&& selection.cutlass_arch@ == cutlass_arch
                &&& selection.source == ArchSource::Explicit
            }
        }),
{
}

/// What naming an executable gives.
pub proof fn law_named_executable(stem: &str, exe_suffix: &str, name: String)
    requires
        call_ensures(selection::executable_name, (stem, exe_suffix), name),
    ensures
        name@ == stem@ + exe_suffix@,
{
}

} // verus!
