//! The choice of the architectures, from names to the whole selection.
use apxinf_cuda::arch::{
    cutlass_arch_for, is_cutlass_sm100_family, reject_arch_name, validate_arch_name,
};
use apxinf_cuda::capability::{capability_to_arch, select_uniform_arch, ComputeCapability};
use apxinf_cuda::probe::{
    parse_probe_output, reject_output, reject_part, reject_record, DEVICE_PROBE_SOURCE,
};
use apxinf_cuda::process::ProcessOutput;
use apxinf_cuda::selection::{
    executable_name, select_cuda_arch, settle, settle_listing, ArchSelection, ArchSource, Argument,
    Places, Program, SelectionStep, ARCH_CHECK_SOURCE,
};

#[test]
fn parses_compute_capabilities() {
    let parsed = parse_probe_output(
        "APXINF_CUDA_DEVICE 0 11 0 NVIDIA Thor\nAPXINF_CUDA_DEVICE 1 11 0 NVIDIA Thor\n",
    )
    .unwrap();
    assert_eq!(
        parsed,
        vec![
            ComputeCapability { major: 11, minor: 0 },
            ComputeCapability { major: 11, minor: 0 }
        ]
    );
    assert_eq!(select_uniform_arch(&parsed).unwrap(), "sm_110");
}

#[test]
fn rejects_mixed_visible_architectures() {
    let capabilities = [
        ComputeCapability { major: 8, minor: 7 },
        ComputeCapability { major: 11, minor: 0 },
    ];
    let error = select_uniform_arch(&capabilities).unwrap_err();
    assert!(error.contains("sm_87, sm_110"), "{error}");
}

#[test]
fn maps_known_blackwell_targets_to_arch_specific_cutlass() {
    assert_eq!(cutlass_arch_for("sm_101"), "sm_101a");
    assert_eq!(cutlass_arch_for("sm_110"), "sm_110a");
    assert_eq!(cutlass_arch_for("sm_87"), "sm_87");
    assert_eq!(cutlass_arch_for("sm_110a"), "sm_110a");
}

#[test]
fn validates_architecture_names() {
    for valid in ["sm_87", "sm_101", "sm_110a"] {
        assert_eq!(validate_arch_name(valid).unwrap(), valid);
    }
    for invalid in ["", "87", "compute_87", "sm_", "sm_xx", "sm_87aa"] {
        assert!(validate_arch_name(invalid).is_err(), "{invalid}");
    }
}

#[test]
fn cross_compilation_never_probes_the_host_gpu() {
    let error = select_cuda_arch(
        None,
        None,
        "x86_64-unknown-linux-gnu",
        "aarch64-unknown-linux-gnu",
        "nvcc-must-not-run",
        "unused-out-dir",
        "",
    )
    .unwrap_err();
    assert!(error.contains("cross-compiling"), "{error}");
    assert_eq!(
        error,
        "cannot auto-detect the target GPU while cross-compiling \
         (x86_64-unknown-linux-gnu -> aarch64-unknown-linux-gnu)"
    );
}

#[test]
fn the_blackwell_family_has_ten_names() {
    for member in [
        "sm_100", "sm_100a", "sm_101", "sm_101a", "sm_110", "sm_110a", "sm_120", "sm_120a",
        "sm_121", "sm_121a",
    ] {
        assert!(is_cutlass_sm100_family(member), "{member}");
        assert!(validate_arch_name(member).is_ok(), "{member}");
        let chosen = cutlass_arch_for(member);
        assert!(chosen.ends_with('a') && is_cutlass_sm100_family(&chosen), "{chosen}");
        assert_eq!(cutlass_arch_for(&chosen), chosen);
    }
    for other in ["", "sm_10", "sm_1000", "sm_100b", "SM_100", "sm_87", "sm_90a", " sm_100"] {
        assert!(!is_cutlass_sm100_family(other), "{other}");
        assert_eq!(cutlass_arch_for(other), other);
    }
}

#[test]
fn rejected_names_are_shown_quoted_and_escaped() {
    assert_eq!(
        validate_arch_name("sm_\"8\n").unwrap_err(),
        "invalid CUDA architecture \"sm_\\\"8\\n\"; \
         expected a value such as sm_87, sm_101, or sm_110"
    );
}

#[test]
fn messages_are_put_together() {
    assert_eq!(
        reject_arch_name("'x'"),
        "invalid CUDA architecture 'x'; expected a value such as sm_87, sm_101, or sm_110"
    );
    assert_eq!(reject_part("0", "bad"), "invalid compute capability for CUDA device 0: bad");
    assert_eq!(reject_record("'l'"), "malformed CUDA device probe output: 'l'");
    assert_eq!(
        reject_output("'o'"),
        "CUDA device probe produced no device records; stdout was 'o'"
    );
}

#[test]
fn names_at_the_edges() {
    for valid in ["sm_00", "sm_00a", "sm_123456789012345678901234567890"] {
        assert_eq!(validate_arch_name(valid).unwrap(), valid);
    }
    for invalid in ["sm", "sm_a", "sm_8", "sm_8a", "sm_\u{0661}\u{0662}", "sm_\u{0661}", "sm_87b", "sm_87A", "sm_+87"] {
        assert!(validate_arch_name(invalid).is_err(), "{invalid}");
    }
}

#[test]
fn architectures_are_named_by_both_parts() {
    for (major, minor, name) in [
        (8, 7, "sm_87"),
        (11, 0, "sm_110"),
        (0, 0, "sm_00"),
        (1, 11, "sm_111"),
        (11, 1, "sm_111"),
        (u32::MAX, 10, "sm_429496729510"),
    ] {
        assert_eq!(capability_to_arch(ComputeCapability { major, minor }), name);
        assert!(validate_arch_name(name).is_ok());
    }
}

#[test]
fn no_devices_share_no_architecture() {
    assert_eq!(select_uniform_arch(&[]).unwrap_err(), "CUDA reported zero visible devices");
}

#[test]
fn different_architectures_are_listed_once_in_ascending_order() {
    let thor = ComputeCapability { major: 11, minor: 0 };
    let orin = ComputeCapability { major: 8, minor: 7 };
    let ampere = ComputeCapability { major: 8, minor: 0 };
    let expected = "visible CUDA devices have different architectures (sm_80, sm_87, sm_110)";
    assert_eq!(select_uniform_arch(&[thor, orin, thor, ampere, orin]).unwrap_err(), expected);
    assert_eq!(select_uniform_arch(&[ampere, orin, thor]).unwrap_err(), expected);
    assert_eq!(select_uniform_arch(&[orin, orin, orin]).unwrap(), "sm_87");
    let twins = [ComputeCapability { major: 11, minor: 1 }, ComputeCapability { major: 1, minor: 11 }];
    assert_eq!(
        select_uniform_arch(&twins).unwrap_err(),
        "visible CUDA devices have different architectures (sm_111, sm_111)"
    );
}

#[test]
fn other_lines_of_the_listing_are_ignored() {
    let parsed = parse_probe_output(
        "warning: driver\n\n \tAPXINF_CUDA_DEVICE\u{a0}7 +8 007\r\nAPXINF_CUDA_DEVICES 0 1 2\nAPXINF_CUDA_DEVICE x 8 9",
    )
    .unwrap();
    assert_eq!(
        parsed,
        vec![ComputeCapability { major: 8, minor: 7 }, ComputeCapability { major: 8, minor: 9 }]
    );
}

#[test]
fn wrong_records_are_reported() {
    let cases = [
        ("", "CUDA device probe produced no device records; stdout was \"\""),
        ("none\n", "CUDA device probe produced no device records; stdout was \"none\\n\""),
        ("APXINF_CUDA_DEVICE\r\n", "malformed CUDA device probe output: \"APXINF_CUDA_DEVICE\""),
        ("APXINF_CUDA_DEVICE\r", "malformed CUDA device probe output: \"APXINF_CUDA_DEVICE\\r\""),
        ("APXINF_CUDA_DEVICE 3", "missing compute capability for CUDA device 3"),
        ("APXINF_CUDA_DEVICE 3 8", "missing compute capability for CUDA device 3"),
        (
            "APXINF_CUDA_DEVICE 3 x 8",
            "invalid compute capability for CUDA device 3: invalid digit found in string",
        ),
        (
            "APXINF_CUDA_DEVICE 3 8 -1",
            "invalid compute capability for CUDA device 3: invalid digit found in string",
        ),
        (
            "APXINF_CUDA_DEVICE 3 8 +",
            "invalid compute capability for CUDA device 3: invalid digit found in string",
        ),
        (
            "APXINF_CUDA_DEVICE 3 4294967296 0",
            "invalid compute capability for CUDA device 3: number too large to fit in target type",
        ),
        (
            "APXINF_CUDA_DEVICE 0 8 7\nAPXINF_CUDA_DEVICE 1\nAPXINF_CUDA_DEVICE\n",
            "missing compute capability for CUDA device 1",
        ),
    ];
    for (output, expected) in cases {
        assert_eq!(parse_probe_output(output).unwrap_err(), expected);
    }
    let largest = parse_probe_output("APXINF_CUDA_DEVICE 3 4294967295 0000000000000").unwrap();
    assert_eq!(largest, vec![ComputeCapability { major: u32::MAX, minor: 0 }]);
}

#[test]
fn what_the_probe_prints_is_read_back() {
    assert!(DEVICE_PROBE_SOURCE.contains("\"APXINF_CUDA_DEVICE %d %d %d %s\\n\""));
    let devices = [(8u32, 7u32, "Orin"), (11, 0, ""), (12, 1, "a name\r"), (0, 4_000_000_000, " 9 9 ")];
    let mut output = String::new();
    for (index, (major, minor, name)) in devices.iter().enumerate() {
        output.push_str(&format!("APXINF_CUDA_DEVICE {index} {major} {minor} {name}\n"));
    }
    let expected: Vec<ComputeCapability> =
        devices.iter().map(|&(major, minor, _)| ComputeCapability { major, minor }).collect();
    assert_eq!(parse_probe_output(&output).unwrap(), expected);
}

fn ended(success: bool, stdout: &str, stderr: &str) -> ProcessOutput {
    ProcessOutput {
        success,
        status: if success { "exit status: 0".to_string() } else { "exit status: 2".to_string() },
        stdout: stdout.as_bytes().to_vec(),
        stderr: stderr.as_bytes().to_vec(),
    }
}

fn shown_arguments(arguments: Vec<Argument>) -> Vec<String> {
    arguments
        .into_iter()
        .map(|argument| match argument {
            Argument::Plain { value } => value,
            Argument::OutputFile { file } => format!("out/{file}"),
        })
        .collect()
}

/// Drives a selection with fixed answers, and notes each request.
fn drive(
    explicit_nvcc: Option<&str>,
    explicit_cutlass: Option<&str>,
    listing: &str,
    refused: &str,
) -> (Result<ArchSelection, String>, Vec<String>) {
    let mut requests: Vec<String> = Vec::new();
    let mut step = match select_cuda_arch(
        explicit_nvcc.map(str::to_string),
        explicit_cutlass.map(str::to_string),
        "host",
        "host",
        "/cuda/nvcc",
        "out/",
        ".exe",
    ) {
        Ok(step) => step,
        Err(message) => return (Err(message), requests),
    };
    loop {
        let next = match step {
            SelectionStep::Done(selection) => return (Ok(selection), requests),
            SelectionStep::Write(request) => {
                requests.push(format!("write {}", request.file_name()));
                if request.file_name() == "apxinf_cuda_device_probe.cu" {
                    assert_eq!(request.contents(), DEVICE_PROBE_SOURCE);
                } else {
                    assert_eq!(request.contents(), ARCH_CHECK_SOURCE);
                }
                request.answer(Ok(()))
            }
            SelectionStep::Run(request) => {
                let program = match request.program() {
                    Program::Compiler => "nvcc".to_string(),
                    Program::Built { file } => format!("out/{file}"),
                };
                let arguments = shown_arguments(request.arguments()).join(" ");
                let success = !arguments.ends_with(&format!("-arch={refused}"));
                requests.push(format!("{program} {arguments}"));
                let stdout = if program == "nvcc" { "" } else { listing };
                request.answer(Ok(ended(success, stdout, "no\n")))
            }
        };
        step = match next {
            Ok(step) => step,
            Err(message) => return (Err(message), requests),
        };
    }
}

#[test]
fn a_given_architecture_is_checked_and_never_probed() {
    let (selection, requests) = drive(Some("sm_87"), None, "unused", "none");
    assert_eq!(
        selection.unwrap(),
        ArchSelection {
            nvcc_arch: "sm_87".to_string(),
            cutlass_arch: "sm_87".to_string(),
            source: ArchSource::Explicit,
        }
    );
    assert_eq!(
        requests,
        vec![
            "write apxinf_cuda_arch_check.cu",
            "nvcc -c out/apxinf_cuda_arch_check.cu -o out/apxinf_cuda_arch_check_sm_87.o -arch=sm_87",
        ]
    );
}

#[test]
fn a_detected_architecture_is_probed_and_both_are_checked() {
    let listing = "APXINF_CUDA_DEVICE 0 11 0 NVIDIA Thor\nAPXINF_CUDA_DEVICE 1 11 0 NVIDIA Thor\n";
    let (selection, requests) = drive(None, None, listing, "none");
    assert_eq!(
        selection.unwrap(),
        ArchSelection {
            nvcc_arch: "sm_110".to_string(),
            cutlass_arch: "sm_110a".to_string(),
            source: ArchSource::Detected { device_count: 2 },
        }
    );
    assert_eq!(
        requests,
        vec![
            "write apxinf_cuda_device_probe.cu",
            "nvcc -std=c++17 -O0 out/apxinf_cuda_device_probe.cu -o out/apxinf_cuda_device_probe.exe",
            "out/apxinf_cuda_device_probe.exe ",
            "write apxinf_cuda_arch_check.cu",
            "nvcc -c out/apxinf_cuda_arch_check.cu -o out/apxinf_cuda_arch_check_sm_110.o -arch=sm_110",
            "write apxinf_cuda_arch_check.cu",
            "nvcc -c out/apxinf_cuda_arch_check.cu -o out/apxinf_cuda_arch_check_sm_110a.o -arch=sm_110a",
        ]
    );
}

#[test]
fn a_given_cutlass_architecture_is_judged_after_the_probe() {
    let listing = "APXINF_CUDA_DEVICE 0 8 7 Orin\n";
    let (selection, requests) = drive(None, Some("sm_90a"), listing, "none");
    assert_eq!(selection.unwrap().cutlass_arch, "sm_90a");
    assert_eq!(requests.len(), 7);
    let (selection, requests) = drive(None, Some("90a"), listing, "none");
    assert_eq!(
        selection.unwrap_err(),
        "invalid CUDA architecture \"90a\"; expected a value such as sm_87, sm_101, or sm_110"
    );
    assert_eq!(requests.len(), 3);
    let (selection, requests) = drive(Some("sm_87"), Some("sm_87"), listing, "none");
    assert_eq!(selection.unwrap().cutlass_arch, "sm_87");
    assert_eq!(requests.len(), 2);
    let (selection, requests) = drive(Some("87"), Some("87a"), listing, "none");
    assert_eq!(
        selection.unwrap_err(),
        "invalid CUDA architecture \"87\"; expected a value such as sm_87, sm_101, or sm_110"
    );
    assert!(requests.is_empty());
}

#[test]
fn an_architecture_that_the_compiler_refuses_ends_the_selection() {
    let (selection, requests) = drive(Some("sm_110"), None, "", "sm_110a");
    assert_eq!(
        selection.unwrap_err(),
        "validate CUDA architecture sm_110a failed with exit status: 2\n\
         stdout:\n<empty>\nstderr:\nno"
    );
    assert_eq!(requests.len(), 4);
    let (selection, requests) = drive(Some("sm_110"), None, "", "sm_110");
    assert!(selection.unwrap_err().starts_with("validate CUDA architecture sm_110 failed with"));
    assert_eq!(requests.len(), 2);
}

#[test]
fn a_listing_without_a_shared_architecture_ends_the_selection() {
    let mixed = "APXINF_CUDA_DEVICE 0 11 0 a\nAPXINF_CUDA_DEVICE 1 8 7 b\n";
    let (selection, _) = drive(None, None, mixed, "none");
    assert_eq!(
        selection.unwrap_err(),
        "visible CUDA devices have different architectures (sm_87, sm_110)"
    );
    let (selection, _) = drive(None, None, "nothing", "none");
    assert_eq!(
        selection.unwrap_err(),
        "CUDA device probe produced no device records; stdout was \"nothing\""
    );
}

fn first(explicit: Option<&str>) -> SelectionStep {
    match select_cuda_arch(explicit.map(str::to_string), None, "h", "h", "NVCC", "dir/", ".x") {
        Ok(step) => step,
        Err(message) => panic!("{message}"),
    }
}

fn write_step(step: SelectionStep, reply: Result<(), String>) -> Result<SelectionStep, String> {
    match step {
        SelectionStep::Write(request) => request.answer(reply),
        _ => panic!("a file was to be written"),
    }
}

fn run_step(
    step: SelectionStep,
    reply: Result<ProcessOutput, String>,
) -> Result<SelectionStep, String> {
    match step {
        SelectionStep::Run(request) => request.answer(reply),
        _ => panic!("a program was to be run"),
    }
}

fn failed(step: Result<SelectionStep, String>) -> String {
    match step {
        Ok(_) => panic!("the selection went on"),
        Err(message) => message,
    }
}

fn reached(step: Result<SelectionStep, String>) -> SelectionStep {
    match step {
        Ok(step) => step,
        Err(message) => panic!("{message}"),
    }
}

#[test]
fn each_failure_of_the_probe_has_its_message() {
    let no = || "denied".to_string();
    assert_eq!(
        failed(write_step(first(None), Err(no()))),
        "write CUDA device probe dir/apxinf_cuda_device_probe.cu: denied"
    );
    let compile = || reached(write_step(first(None), Ok(())));
    assert_eq!(failed(run_step(compile(), Err(no()))), "run NVCC for CUDA device probe: denied");
    assert_eq!(
        failed(run_step(compile(), Ok(ended(false, " a \n", "")))),
        "compile CUDA device probe failed with exit status: 2\nstdout:\na\nstderr:\n<empty>"
    );
    let run = || reached(run_step(compile(), Ok(ended(true, "", ""))));
    assert_eq!(
        failed(run_step(run(), Err(no()))),
        "run CUDA device probe dir/apxinf_cuda_device_probe.x: denied"
    );
    assert_eq!(
        failed(run_step(run(), Ok(ended(false, "", "CUDA reported zero visible devices\n")))),
        "run CUDA device probe failed with exit status: 2\nstdout:\n<empty>\n\
         stderr:\nCUDA reported zero visible devices"
    );
}

#[test]
fn each_failure_of_a_check_has_its_message() {
    let no = || "denied".to_string();
    assert_eq!(
        failed(write_step(first(Some("sm_87")), Err(no()))),
        "write NVCC architecture check dir/apxinf_cuda_arch_check.cu: denied"
    );
    let check = || reached(write_step(first(Some("sm_87")), Ok(())));
    assert_eq!(failed(run_step(check(), Err(no()))), "run NVCC to validate sm_87: denied");
}

#[test]
fn the_listing_is_decoded_with_replacements() {
    let run = reached(run_step(
        reached(write_step(first(None), Ok(()))),
        Ok(ended(true, "", "")),
    ));
    let mut output = ended(true, "", "");
    output.stdout = b"APXINF_CUDA_DEVICE 0 8 7 \xff\xfe\n".to_vec();
    assert!(run_step(run, Ok(output)).is_ok());
}

#[test]
fn settling_takes_what_is_known() {
    let places = || Places {
        nvcc: "nvcc".to_string(),
        out_dir: "".to_string(),
        exe_suffix: "".to_string(),
    };
    let step = settle(places(), "sm_121".to_string(), ArchSource::Explicit, None);
    match reached(step) {
        SelectionStep::Write(request) => {
            assert_eq!(request.file_name(), "apxinf_cuda_arch_check.cu");
            assert_eq!(request.contents(), ARCH_CHECK_SOURCE);
        }
        _ => panic!("the check was to be written"),
    }
    assert!(settle(places(), "sm_121".to_string(), ArchSource::Explicit, Some("x".to_string())).is_err());
    assert!(settle_listing(places(), None, "APXINF_CUDA_DEVICE 0 8 7").is_ok());
    assert_eq!(
        failed(settle_listing(places(), None, "APXINF_CUDA_DEVICE 0")),
        "missing compute capability for CUDA device 0"
    );
    assert_eq!(executable_name("probe", ".exe"), "probe.exe");
}

#[test]
fn joined_listings_and_the_first_wrong_line() {
    let (first, second) = ("APXINF_CUDA_DEVICE 0 8 7 a\n", "x\nAPXINF_CUDA_DEVICE 1 11 0 b\n");
    let mut expected = parse_probe_output(first).unwrap();
    expected.extend(parse_probe_output(second).unwrap());
    assert_eq!(parse_probe_output(&format!("{first}{second}")).unwrap(), expected);
    let wrong = format!("{first}APXINF_CUDA_DEVICE 5\nAPXINF_CUDA_DEVICE\n{second}");
    assert_eq!(
        parse_probe_output(&wrong).unwrap_err(),
        "missing compute capability for CUDA device 5"
    );
}

#[test]
fn one_digit_minors_give_different_names() {
    let mut names: Vec<String> = Vec::new();
    for major in 0..130 {
        for minor in 0..10 {
            names.push(capability_to_arch(ComputeCapability { major, minor }));
        }
    }
    let count = names.len();
    names.sort();
    names.dedup();
    assert_eq!(names.len(), count);
}
