//! The choice of the architectures to compile for, step by step.
//!
//! `select_cuda_arch` and the answers to its requests decide; who drives them
//! writes the files and runs the programs that the requests name.
use vstd::prelude::*;

use crate::arch;
use crate::capability;
use crate::probe;
use crate::process;
use crate::process::{ProcessOutput, ProcessOutputView};
use crate::standard;
use crate::text;

verus! {

/// The source that is compiled to see whether the compiler knows an
/// architecture.
pub const ARCH_CHECK_SOURCE: &'static str = r#"
__global__ void apxinf_cuda_arch_check() {}
"#;

/// Where the architecture comes from.
#[derive(Debug, Clone, PartialEq, Eq, Structural)]
pub enum ArchSource {
    Explicit,
    Detected { device_count: usize },
}

/// The architectures to compile for.
#[derive(Debug, Clone, PartialEq, Eq)]
pub struct ArchSelection {
    pub nvcc_arch: String,
    pub cutlass_arch: String,
    pub source: ArchSource,
}

/// The model of an `ArchSource`.
pub enum ArchSourceView {
    Explicit,
    Detected { device_count: nat },
}

impl View for ArchSource {
    type V = ArchSourceView;

    open spec fn view(&self) -> ArchSourceView {
        match *self {
            ArchSource::Explicit => ArchSourceView::Explicit,
            ArchSource::Detected { device_count } => ArchSourceView::Detected {
                device_count: device_count as nat,
            },
        }
    }
}

/// The model of an `ArchSelection`.
pub struct ArchSelectionView {
    pub nvcc_arch: Seq<char>,
    pub cutlass_arch: Seq<char>,
    pub source: ArchSourceView,
}

impl View for ArchSelection {
    type V = ArchSelectionView;

    open spec fn view(&self) -> ArchSelectionView {
        ArchSelectionView {
            nvcc_arch: self.nvcc_arch@,
            cutlass_arch: self.cutlass_arch@,
            source: self.source@,
        }
    }
}

/// How the programs and files of a selection are shown in messages: the
/// compiler; the output directory, with the separator that comes before a file
/// name; and the ending of the names of executables.
#[derive(Debug)]
pub struct Places {
    pub nvcc: String,
    pub out_dir: String,
    pub exe_suffix: String,
}

/// The model of `Places`.
pub struct PlacesView {
    pub nvcc: Seq<char>,
    pub out_dir: Seq<char>,
    pub exe_suffix: Seq<char>,
}

impl View for Places {
    type V = PlacesView;

    open spec fn view(&self) -> PlacesView {
        PlacesView { nvcc: self.nvcc@, out_dir: self.out_dir@, exe_suffix: self.exe_suffix@ }
    }
}

/// A text that may be missing.
pub open spec fn optional(given: Option<String>) -> Option<Seq<char>> {
    match given {
        Some(value) => Some(value@),
        None => None,
    }
}

/// What a file is written for: to list the devices, or to check one of the two
/// architectures of a selection.
#[derive(Debug)]
pub enum WriteTask {
    Probe { explicit_cutlass: Option<String> },
    Check { selection: ArchSelection, cutlass: bool },
}

/// The model of a `WriteTask`.
pub enum WriteTaskView {
    Probe { explicit_cutlass: Option<Seq<char>> },
    Check { selection: ArchSelectionView, cutlass: bool },
}

impl View for WriteTask {
    type V = WriteTaskView;

    open spec fn view(&self) -> WriteTaskView {
        match *self {
            WriteTask::Probe { explicit_cutlass } => WriteTaskView::Probe {
                explicit_cutlass: optional(explicit_cutlass),
            },
            WriteTask::Check { selection, cutlass } => WriteTaskView::Check {
                selection: selection@,
                cutlass,
            },
        }
    }
}

/// What a program is run for: to compile the program that lists the devices, to
/// list them, or to check one of the two architectures of a selection.
#[derive(Debug)]
pub enum RunTask {
    CompileProbe { explicit_cutlass: Option<String> },
    RunProbe { explicit_cutlass: Option<String> },
    Check { selection: ArchSelection, cutlass: bool },
}

/// The model of a `RunTask`.
pub enum RunTaskView {
    CompileProbe { explicit_cutlass: Option<Seq<char>> },
    RunProbe { explicit_cutlass: Option<Seq<char>> },
    Check { selection: ArchSelectionView, cutlass: bool },
}

impl View for RunTask {
    type V = RunTaskView;

    open spec fn view(&self) -> RunTaskView {
        match *self {
            RunTask::CompileProbe { explicit_cutlass } => RunTaskView::CompileProbe {
                explicit_cutlass: optional(explicit_cutlass),
            },
            RunTask::RunProbe { explicit_cutlass } => RunTaskView::RunProbe {
                explicit_cutlass: optional(explicit_cutlass),
            },
            RunTask::Check { selection, cutlass } => RunTaskView::Check {
                selection: selection@,
                cutlass,
            },
        }
    }
}

/// A request to write a file into the output directory.
#[derive(Debug)]
pub struct WriteRequest {
    pub places: Places,
    pub task: WriteTask,
}

/// The model of a `WriteRequest`.
pub struct WriteRequestView {
    pub places: PlacesView,
    pub task: WriteTaskView,
}

impl View for WriteRequest {
    type V = WriteRequestView;

    open spec fn view(&self) -> WriteRequestView {
        WriteRequestView { places: self.places@, task: self.task@ }
    }
}

/// A request to run a program to its end.
#[derive(Debug)]
pub struct RunRequest {
    pub places: Places,
    pub task: RunTask,
}

/// The model of a `RunRequest`.
pub struct RunRequestView {
    pub places: PlacesView,
    pub task: RunTaskView,
}

impl View for RunRequest {
    type V = RunRequestView;

    open spec fn view(&self) -> RunRequestView {
        RunRequestView { places: self.places@, task: self.task@ }
    }
}

/// What comes next in a selection: a request to answer, or the selection made.
#[derive(Debug)]
pub enum SelectionStep {
    Write(WriteRequest),
    Run(RunRequest),
    Done(ArchSelection),
}

/// The model of a `SelectionStep`.
pub enum SelectionStepView {
    Write(WriteRequestView),
    Run(RunRequestView),
    Done(ArchSelectionView),
}

impl View for SelectionStep {
    type V = SelectionStepView;

    open spec fn view(&self) -> SelectionStepView {
        match *self {
            SelectionStep::Write(request) => SelectionStepView::Write(request@),
            SelectionStep::Run(request) => SelectionStepView::Run(request@),
            SelectionStep::Done(selection) => SelectionStepView::Done(selection@),
        }
    }
}

/// What a step says: the next one, or why there is none.
pub open spec fn outcome(step: Result<SelectionStep, String>) -> Result<
    SelectionStepView,
    Seq<char>,
> {
    match step {
        Ok(next) => Ok(next@),
        Err(message) => Err(message@),
    }
}

/// The first check of a selection.
pub open spec fn first_check(
    places: PlacesView,
    nvcc_arch: Seq<char>,
    source: ArchSourceView,
    cutlass_arch: Seq<char>,
) -> SelectionStepView {
    SelectionStepView::Write(
        WriteRequestView {
            places,
            task: WriteTaskView::Check {
                selection: ArchSelectionView { nvcc_arch, cutlass_arch, source },
                cutlass: false,
            },
        },
    )
}

/// The step after the architecture for the compiler is known: the one for
/// CUTLASS is chosen, and the first of the two is checked.
pub open spec fn settled(
    places: PlacesView,
    nvcc_arch: Seq<char>,
    source: ArchSourceView,
    explicit_cutlass: Option<Seq<char>>,
) -> Result<SelectionStepView, Seq<char>> {
    match explicit_cutlass {
        Some(name) => if arch::is_arch_name(name) {
            Ok(first_check(places, nvcc_arch, source, name))
        } else {
            Err(arch::arch_name_error(name))
        },
        None => Ok(first_check(places, nvcc_arch, source, arch::cutlass_arch(nvcc_arch))),
    }
}

/// Why the devices of another machine cannot be listed.
pub open spec fn cross_compiling_error(host: Seq<char>, target: Seq<char>) -> Seq<char> {
    "cannot auto-detect the target GPU while cross-compiling ("@ + host + " -> "@ + target + ")"@
}

/// The first step of a selection.
pub open spec fn first_step(
    explicit_nvcc: Option<Seq<char>>,
    explicit_cutlass: Option<Seq<char>>,
    host: Seq<char>,
    target: Seq<char>,
    places: PlacesView,
) -> Result<SelectionStepView, Seq<char>> {
    match explicit_nvcc {
        Some(name) => if arch::is_arch_name(name) {
            settled(places, name, ArchSourceView::Explicit, explicit_cutlass)
        } else {
            Err(arch::arch_name_error(name))
        },
        None => if host != target {
            Err(cross_compiling_error(host, target))
        } else {
            Ok(
                SelectionStepView::Write(
                    WriteRequestView {
                        places,
                        task: WriteTaskView::Probe { explicit_cutlass },
                    },
                ),
            )
        },
    }
}

/// Goes on once the architecture for the compiler is known.
pub fn settle(
    places: Places,
    nvcc_arch: String,
    source: ArchSource,
    explicit_cutlass: Option<String>,
) -> (step: Result<SelectionStep, String>)
    ensures
        outcome(step) == settled(places@, nvcc_arch@, source@, optional(explicit_cutlass)),
{
    let cutlass_arch = match explicit_cutlass {
        Some(name) => match arch::validate_arch_name(name.as_str()) {
            Ok(valid) => valid.to_owned(),
            Err(message) => {
                return Err(message);
            },
        },
        None => arch::cutlass_arch_for(nvcc_arch.as_str()),
    };
    let selection = ArchSelection { nvcc_arch, cutlass_arch, source };
    Ok(
        SelectionStep::Write(
            WriteRequest { places, task: WriteTask::Check { selection, cutlass: false } },
        ),
    )
}

/// Begins the choice of the architectures to compile for.
///
/// An architecture that is given is taken, once it has the form of a name. Where
/// none is given for the compiler, the visible devices decide, which they can
/// only where the host is the target.
///
/// `nvcc`, `out_dir` and `exe_suffix` are as `Places` has them.
pub fn select_cuda_arch(
    explicit_nvcc_arch: Option<String>,
    explicit_cutlass_arch: Option<String>,
    host: &str,
    target: &str,
    nvcc: &str,
    out_dir: &str,
    exe_suffix: &str,
) -> (step: Result<SelectionStep, String>)
    ensures
        outcome(step) == first_step(
            optional(explicit_nvcc_arch),
            optional(explicit_cutlass_arch),
            host@,
            target@,
            (PlacesView { nvcc: nvcc@, out_dir: out_dir@, exe_suffix: exe_suffix@ }),
        ),
{
    let places = Places {
        nvcc: nvcc.to_owned(),
        out_dir: out_dir.to_owned(),
        exe_suffix: exe_suffix.to_owned(),
    };
    match explicit_nvcc_arch {
        Some(name) => match arch::validate_arch_name(name.as_str()) {
            Ok(valid) => settle(
                places,
                valid.to_owned(),
                ArchSource::Explicit,
                explicit_cutlass_arch,
            ),
            Err(message) => Err(message),
        },
        None => {
            if !text::same_text(host, target) {
                let mut message =
                    "cannot auto-detect the target GPU while cross-compiling (".to_owned();
                message.append(host);
                message.append(" -> ");
                message.append(target);
                message.append(")");
                return Err(message);
            }
            Ok(
                SelectionStep::Write(
                    WriteRequest {
                        places,
                        task: WriteTask::Probe { explicit_cutlass: explicit_cutlass_arch },
                    },
                ),
            )
        },
    }
}

/// The name of the file with the source of the probe.
pub open spec fn probe_source_file() -> Seq<char> {
    "apxinf_cuda_device_probe.cu"@
}

/// The name of the file with the compiled probe.
pub open spec fn probe_executable_file(exe_suffix: Seq<char>) -> Seq<char> {
    "apxinf_cuda_device_probe"@ + exe_suffix
}

/// The name of the file with the source of the check.
pub open spec fn check_source_file() -> Seq<char> {
    "apxinf_cuda_arch_check.cu"@
}

/// The name of the file with the compiled check of an architecture.
pub open spec fn check_object_file(arch: Seq<char>) -> Seq<char> {
    "apxinf_cuda_arch_check_"@ + arch + ".o"@
}

/// The architecture that is checked first or second.
pub open spec fn checked_arch(selection: ArchSelectionView, cutlass: bool) -> Seq<char> {
    if cutlass {
        selection.cutlass_arch
    } else {
        selection.nvcc_arch
    }
}

/// The step after a file was written, or could not be for the reason given.
pub open spec fn after_write(request: WriteRequestView, reply: Result<(), Seq<char>>) -> Result<
    SelectionStepView,
    Seq<char>,
> {
    let places = request.places;
    match (request.task, reply) {
        (WriteTaskView::Probe { explicit_cutlass }, Ok(())) => Ok(
            SelectionStepView::Run(
                RunRequestView { places, task: RunTaskView::CompileProbe { explicit_cutlass } },
            ),
        ),
        (WriteTaskView::Probe { .. }, Err(error)) => Err(
            "write CUDA device probe "@ + (places.out_dir + probe_source_file()) + ": "@ + error,
        ),
        (WriteTaskView::Check { selection, cutlass }, Ok(())) => Ok(
            SelectionStepView::Run(
                RunRequestView { places, task: RunTaskView::Check { selection, cutlass } },
            ),
        ),
        (WriteTaskView::Check { .. }, Err(error)) => Err(
            "write NVCC architecture check "@ + (places.out_dir + check_source_file()) + ": "@
                + error,
        ),
    }
}

/// The step after the probe has listed the devices.
pub open spec fn after_probe(
    places: PlacesView,
    explicit_cutlass: Option<Seq<char>>,
    listing: Seq<char>,
) -> Result<SelectionStepView, Seq<char>> {
    match probe::probed_capabilities(listing) {
        Err(message) => Err(message),
        Ok(capabilities) => match capability::uniform_arch(capabilities) {
            Err(message) => Err(message),
            Ok(nvcc_arch) => settled(
                places,
                nvcc_arch,
                ArchSourceView::Detected { device_count: capabilities.len() },
                explicit_cutlass,
            ),
        },
    }
}

/// What is said where the compiler cannot be run to check an architecture.
pub open spec fn check_run_error(
    places: PlacesView,
    arch: Seq<char>,
    error: Seq<char>,
) -> Seq<char> {
    "run "@ + places.nvcc + " to validate "@ + arch + ": "@ + error
}

/// The step after an architecture was checked: the second check where there is
/// one to make, or the end.
pub open spec fn after_check(
    places: PlacesView,
    selection: ArchSelectionView,
    cutlass: bool,
) -> SelectionStepView {
    if !cutlass && selection.cutlass_arch != selection.nvcc_arch {
        SelectionStepView::Write(
            WriteRequestView { places, task: WriteTaskView::Check { selection, cutlass: true } },
        )
    } else {
        SelectionStepView::Done(selection)
    }
}

/// The action for which a program is run, as reports of its failure name it.
pub open spec fn requested_action(request: RunRequestView) -> Seq<char> {
    match request.task {
        RunTaskView::CompileProbe { .. } => "compile CUDA device probe"@,
        RunTaskView::RunProbe { .. } => "run CUDA device probe"@,
        RunTaskView::Check { selection, cutlass } => "validate CUDA architecture "@ + checked_arch(
            selection,
            cutlass,
        ),
    }
}

/// The step after a program has ended, or could not be run for the reason
/// given.
pub open spec fn after_run(
    request: RunRequestView,
    reply: Result<ProcessOutputView, Seq<char>>,
) -> Result<SelectionStepView, Seq<char>> {
    let places = request.places;
    match (request.task, reply) {
        (RunTaskView::CompileProbe { .. }, Err(error)) => Err(
            "run "@ + places.nvcc + " for CUDA device probe: "@ + error,
        ),
        (RunTaskView::CompileProbe { explicit_cutlass }, Ok(output)) => match process::success_of(
            requested_action(request),
            output,
        ) {
            Err(message) => Err(message),
            Ok(()) => Ok(
                SelectionStepView::Run(
                    RunRequestView { places, task: RunTaskView::RunProbe { explicit_cutlass } },
                ),
            ),
        },
        (RunTaskView::RunProbe { .. }, Err(error)) => Err(
            "run CUDA device probe "@ + (places.out_dir + probe_executable_file(places.exe_suffix))
                + ": "@ + error,
        ),
        (RunTaskView::RunProbe { explicit_cutlass }, Ok(output)) => match process::success_of(
            requested_action(request),
            output,
        ) {
            Err(message) => Err(message),
            Ok(()) => after_probe(places, explicit_cutlass, standard::utf8_lossy(output.stdout)),
        },
        (RunTaskView::Check { selection, cutlass }, Err(error)) => Err(
            check_run_error(places, checked_arch(selection, cutlass), error),
        ),
        (RunTaskView::Check { selection, cutlass }, Ok(output)) => match process::success_of(
            requested_action(request),
            output,
        ) {
            Err(message) => Err(message),
            Ok(()) => Ok(after_check(places, selection, cutlass)),
        },
    }
}

/// What a reply from a program says.
pub open spec fn run_reply(reply: Result<ProcessOutput, String>) -> Result<
    ProcessOutputView,
    Seq<char>,
> {
    match reply {
        Ok(output) => Ok(output@),
        Err(error) => Err(error@),
    }
}

/// Names the file with an executable.
pub fn executable_name(stem: &str, exe_suffix: &str) -> (name: String)
    ensures
        name@ == stem@ + exe_suffix@,
{
    let mut name = stem.to_owned();
    name.append(exe_suffix);
    name
}

/// Goes on from what the probe has listed.
pub fn settle_listing(places: Places, explicit_cutlass: Option<String>, listing: &str) -> (step: Result<
    SelectionStep,
    String,
>)
    ensures
        outcome(step) == after_probe(places@, optional(explicit_cutlass), listing@),
{
    let capabilities = match probe::parse_probe_output(listing) {
        Ok(capabilities) => capabilities,
        Err(message) => {
            return Err(message);
        },
    };
    let device_count: usize = capabilities.len();
    match capability::select_uniform_arch(capabilities.as_slice()) {
        Ok(nvcc_arch) => settle(
            places,
            nvcc_arch,
            ArchSource::Detected { device_count },
            explicit_cutlass,
        ),
        Err(message) => Err(message),
    }
}

impl WriteRequest {
    /// The file to write, by its name in the output directory.
    pub fn file_name(&self) -> (name: String)
        ensures
            name@ == match self@.task {
                WriteTaskView::Probe { .. } => probe_source_file(),
                WriteTaskView::Check { .. } => check_source_file(),
            },
    {
        match &self.task {
            WriteTask::Probe { .. } => "apxinf_cuda_device_probe.cu".to_owned(),
            WriteTask::Check { .. } => "apxinf_cuda_arch_check.cu".to_owned(),
        }
    }

    /// What to write into the file.
    pub fn contents(&self) -> (contents: String)
        ensures
            contents@ == match self@.task {
                WriteTaskView::Probe { .. } => probe::DEVICE_PROBE_SOURCE@,
                WriteTaskView::Check { .. } => ARCH_CHECK_SOURCE@,
            },
    {
        match &self.task {
            WriteTask::Probe { .. } => probe::DEVICE_PROBE_SOURCE.to_owned(),
            WriteTask::Check { .. } => ARCH_CHECK_SOURCE.to_owned(),
        }
    }

    /// Goes on after the file was written, or could not be for the reason given.
    pub fn answer(self, reply: Result<(), String>) -> (step: Result<SelectionStep, String>)
        ensures
            outcome(step) == after_write(self@, process::outcome(reply)),
    {
        let file = self.file_name();
        let WriteRequest { places, task } = self;
        match task {
            WriteTask::Probe { explicit_cutlass } => match reply {
                Ok(()) => Ok(
                    SelectionStep::Run(
                        RunRequest { places, task: RunTask::CompileProbe { explicit_cutlass } },
                    ),
                ),
                Err(error) => {
                    let mut message = "write CUDA device probe ".to_owned();
                    message.append(shown_file(&places, file.as_str()).as_str());
                    message.append(": ");
                    message.append(error.as_str());
                    Err(message)
                },
            },
            WriteTask::Check { selection, cutlass } => match reply {
                Ok(()) => Ok(
                    SelectionStep::Run(
                        RunRequest { places, task: RunTask::Check { selection, cutlass } },
                    ),
                ),
                Err(error) => {
                    let mut message = "write NVCC architecture check ".to_owned();
                    message.append(shown_file(&places, file.as_str()).as_str());
                    message.append(": ");
                    message.append(error.as_str());
                    Err(message)
                },
            },
        }
    }
}

/// Shows a file of the output directory.
fn shown_file(places: &Places, file: &str) -> (shown: String)
    ensures
        shown@ == places@.out_dir + file@,
{
    let mut shown = places.out_dir.clone();
    shown.append(file);
    shown
}

/// A program to run: the compiler, or a file in the output directory.
#[derive(Debug)]
pub enum Program {
    Compiler,
    Built { file: String },
}

/// The model of a `Program`.
pub enum ProgramView {
    Compiler,
    Built { file: Seq<char> },
}

impl View for Program {
    type V = ProgramView;

    open spec fn view(&self) -> ProgramView {
        match *self {
            Program::Compiler => ProgramView::Compiler,
            Program::Built { file } => ProgramView::Built { file: file@ },
        }
    }
}

/// An argument of a program: as it stands, or the path of a file in the output
/// directory.
#[derive(Debug)]
pub enum Argument {
    Plain { value: String },
    OutputFile { file: String },
}

/// The model of an `Argument`.
pub enum ArgumentView {
    Plain { value: Seq<char> },
    OutputFile { file: Seq<char> },
}

impl View for Argument {
    type V = ArgumentView;

    open spec fn view(&self) -> ArgumentView {
        match *self {
            Argument::Plain { value } => ArgumentView::Plain { value: value@ },
            Argument::OutputFile { file } => ArgumentView::OutputFile { file: file@ },
        }
    }
}

/// The models of arguments.
pub open spec fn argument_views(arguments: Seq<Argument>) -> Seq<ArgumentView> {
    Seq::new(arguments.len(), |i: int| arguments[i]@)
}

/// The program that a request asks to be run.
pub open spec fn requested_program(request: RunRequestView) -> ProgramView {
    match request.task {
        RunTaskView::CompileProbe { .. } => ProgramView::Compiler,
        RunTaskView::RunProbe { .. } => ProgramView::Built {
            file: probe_executable_file(request.places.exe_suffix),
        },
        RunTaskView::Check { .. } => ProgramView::Compiler,
    }
}

/// The arguments with which a request asks its program to be run.
pub open spec fn requested_arguments(request: RunRequestView) -> Seq<ArgumentView> {
    match request.task {
        RunTaskView::CompileProbe { .. } => seq![
            ArgumentView::Plain { value: "-std=c++17"@ },
            ArgumentView::Plain { value: "-O0"@ },
            ArgumentView::OutputFile { file: probe_source_file() },
            ArgumentView::Plain { value: "-o"@ },
            ArgumentView::OutputFile { file: probe_executable_file(request.places.exe_suffix) },
        ],
        RunTaskView::RunProbe { .. } => Seq::empty(),
        RunTaskView::Check { selection, cutlass } => seq![
            ArgumentView::Plain { value: "-c"@ },
            ArgumentView::OutputFile { file: check_source_file() },
            ArgumentView::Plain { value: "-o"@ },
            ArgumentView::OutputFile { file: check_object_file(checked_arch(selection, cutlass)) },
            ArgumentView::Plain { value: "-arch="@ + checked_arch(selection, cutlass) },
        ],
    }
}

/// An argument that stands as it is.
fn plain(value: &str) -> (argument: Argument)
    ensures
        argument@ == (ArgumentView::Plain { value: value@ }),
{
    Argument::Plain { value: value.to_owned() }
}

/// An argument that is a file in the output directory.
fn output_file(file: &str) -> (argument: Argument)
    ensures
        argument@ == (ArgumentView::OutputFile { file: file@ }),
{
    Argument::OutputFile { file: file.to_owned() }
}

/// Goes on after an architecture was checked.
fn settle_check(places: Places, selection: ArchSelection, cutlass: bool) -> (step: SelectionStep)
    ensures
        step@ == after_check(places@, selection@, cutlass),
{
    let same = text::same_text(selection.cutlass_arch.as_str(), selection.nvcc_arch.as_str());
    if !cutlass && !same {
        SelectionStep::Write(
            WriteRequest { places, task: WriteTask::Check { selection, cutlass: true } },
        )
    } else {
        SelectionStep::Done(selection)
    }
}

/// The architecture that is checked first or second.
fn arch_to_check(selection: &ArchSelection, cutlass: bool) -> (arch: String)
    ensures
        arch@ == checked_arch(selection@, cutlass),
{
    if cutlass {
        selection.cutlass_arch.clone()
    } else {
        selection.nvcc_arch.clone()
    }
}

impl RunRequest {
    /// The program to run.
    pub fn program(&self) -> (program: Program)
        ensures
            program@ == requested_program(self@),
    {
        match &self.task {
            RunTask::CompileProbe { .. } => Program::Compiler,
            RunTask::RunProbe { .. } => Program::Built {
                file: executable_name("apxinf_cuda_device_probe", self.places.exe_suffix.as_str()),
            },
            RunTask::Check { .. } => Program::Compiler,
        }
    }

    /// The arguments to run it with.
    pub fn arguments(&self) -> (arguments: Vec<Argument>)
        ensures
            argument_views(arguments@) == requested_arguments(self@),
    {
        let mut arguments: Vec<Argument> = Vec::new();
        match &self.task {
            RunTask::CompileProbe { .. } => {
                let executable = executable_name(
                    "apxinf_cuda_device_probe",
                    self.places.exe_suffix.as_str(),
                );
                arguments.push(plain("-std=c++17"));
                arguments.push(plain("-O0"));
                arguments.push(output_file("apxinf_cuda_device_probe.cu"));
                arguments.push(plain("-o"));
                arguments.push(output_file(executable.as_str()));
            },
            RunTask::RunProbe { .. } => {},
            RunTask::Check { selection, cutlass } => {
                let arch = arch_to_check(selection, *cutlass);
                let mut object = "apxinf_cuda_arch_check_".to_owned();
                object.append(arch.as_str());
                object.append(".o");
                let mut option = "-arch=".to_owned();
                option.append(arch.as_str());
                arguments.push(plain("-c"));
                arguments.push(output_file("apxinf_cuda_arch_check.cu"));
                arguments.push(plain("-o"));
                arguments.push(output_file(object.as_str()));
                arguments.push(plain(option.as_str()));
            },
        }
        assert(argument_views(arguments@) =~= requested_arguments(self@));
        arguments
    }

    /// Goes on after the program has ended, or could not be run for the reason
    /// given.
    pub fn answer(self, reply: Result<ProcessOutput, String>) -> (step: Result<
        SelectionStep,
        String,
    >)
        ensures
            outcome(step) == after_run(self@, run_reply(reply)),
            self@.task matches RunTaskView::RunProbe { explicit_cutlass } ==> (reply matches Ok(
                output,
            ) ==> (output.success && vstd::utf8::valid_utf8(output.stdout@) ==> outcome(step)
                == after_probe(
                self@.places,
                explicit_cutlass,
                vstd::utf8::decode_utf8(output.stdout@),
            ))),
            reply matches Ok(output) ==> (!output.success && vstd::utf8::valid_utf8(output.stdout@)
                && vstd::utf8::valid_utf8(output.stderr@) ==> outcome(step) == Err::<
                SelectionStepView,
                Seq<char>,
            >(
                process::failure(
                    requested_action(self@),
                    output.status@,
                    vstd::utf8::decode_utf8(output.stdout@),
                    vstd::utf8::decode_utf8(output.stderr@),
                ),
            )),
    {
        let RunRequest { places, task } = self;
        match task {
            RunTask::CompileProbe { explicit_cutlass } => match reply {
                Err(error) => {
                    let mut message = "run ".to_owned();
                    message.append(places.nvcc.as_str());
                    message.append(" for CUDA device probe: ");
                    message.append(error.as_str());
                    Err(message)
                },
                Ok(output) => match process::ensure_success("compile CUDA device probe", &output) {
                    Err(message) => Err(message),
                    Ok(()) => Ok(
                        SelectionStep::Run(
                            RunRequest { places, task: RunTask::RunProbe { explicit_cutlass } },
                        ),
                    ),
                },
            },
            RunTask::RunProbe { explicit_cutlass } => match reply {
                Err(error) => {
                    let executable = executable_name(
                        "apxinf_cuda_device_probe",
                        places.exe_suffix.as_str(),
                    );
                    let mut message = "run CUDA device probe ".to_owned();
                    message.append(shown_file(&places, executable.as_str()).as_str());
                    message.append(": ");
                    message.append(error.as_str());
                    Err(message)
                },
                Ok(output) => match process::ensure_success("run CUDA device probe", &output) {
                    Err(message) => Err(message),
                    Ok(()) => {
                        let listing = standard::lossy_text(output.stdout.as_slice());
                        settle_listing(places, explicit_cutlass, listing.as_str())
                    },
                },
            },
            RunTask::Check { selection, cutlass } => {
                let arch = arch_to_check(&selection, cutlass);
                match reply {
                    Err(error) => {
                        let mut message = "run ".to_owned();
                        message.append(places.nvcc.as_str());
                        message.append(" to validate ");
                        message.append(arch.as_str());
                        message.append(": ");
                        message.append(error.as_str());
                        Err(message)
                    },
                    Ok(output) => {
                        let mut action = "validate CUDA architecture ".to_owned();
                        action.append(arch.as_str());
                        match process::ensure_success(action.as_str(), &output) {
                            Err(message) => Err(message),
                            Ok(()) => Ok(settle_check(places, selection, cutlass)),
                        }
                    },
                }
            },
        }
    }
}

} // verus!
