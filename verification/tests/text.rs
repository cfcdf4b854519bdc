//! Texts and reports, held against the standard library.
use apxinf_cuda::process::{ensure_success, report_failure, ProcessOutput};
use apxinf_cuda::text::{
    characters, decimal_text, join, same_text, signed_decimal_text, split_lines, split_words, trim,
};

const WHITE_SPACE: [u32; 25] = [
    0x09, 0x0a, 0x0b, 0x0c, 0x0d, 0x20, 0x85, 0xa0, 0x1680, 0x2000, 0x2001, 0x2002, 0x2003, 0x2004,
    0x2005, 0x2006, 0x2007, 0x2008, 0x2009, 0x200a, 0x2028, 0x2029, 0x202f, 0x205f, 0x3000,
];

#[test]
fn white_space_is_the_unicode_property() {
    for code in 0..=0x10ffffu32 {
        if let Some(c) = char::from_u32(code) {
            assert_eq!(c.is_whitespace(), WHITE_SPACE.contains(&code), "{code:x}");
        }
    }
}

#[test]
fn numbers_are_written_in_decimal() {
    for n in [0u64, 7, 9, 10, 99, 100, 101, 1_000_000, u64::MAX] {
        assert_eq!(decimal_text(n), n.to_string());
    }
    for n in [0i32, 5, -5, 10, -10, i32::MAX, i32::MIN] {
        assert_eq!(signed_decimal_text(n), n.to_string());
    }
}

#[test]
fn texts_are_split_and_trimmed() {
    let samples = [
        "",
        "\n",
        "\r",
        "\r\n",
        "a",
        "a\n",
        "a\nb",
        "a\r\nb\r",
        "a\r\r\nb\n\n",
        "\n\na b  c\t\u{3000}d\u{85}e ",
        "  caf\u{e9} \u{1f600}\u{2028}x\u{200b}",
        "\u{a0}\u{1680}",
        "foo\nbar\n\r\nbaz\r",
    ];
    for sample in samples {
        let lines: Vec<&str> = sample.lines().collect();
        assert_eq!(split_lines(sample), lines, "{sample:?}");
        let words: Vec<&str> = sample.split_whitespace().collect();
        assert_eq!(split_words(sample), words, "{sample:?}");
        assert_eq!(trim(sample), sample.trim(), "{sample:?}");
        let chars: Vec<char> = sample.chars().collect();
        assert_eq!(characters(sample), chars);
        for other in samples {
            assert_eq!(same_text(sample, other), sample == other);
        }
    }
}

#[test]
fn texts_are_joined() {
    let parts = |list: &[&str]| list.iter().map(|part| part.to_string()).collect::<Vec<String>>();
    assert_eq!(join(&parts(&[]), ", "), "");
    assert_eq!(join(&parts(&["a"]), ", "), "a");
    assert_eq!(join(&parts(&["a", "", "c"]), ", "), "a, , c");
}

#[test]
fn failures_are_reported_with_both_streams() {
    assert_eq!(
        report_failure("build", "exit status: 1", " out \n", "\t\n"),
        "build failed with exit status: 1\nstdout:\nout\nstderr:\n<empty>"
    );
    let mut output = ProcessOutput {
        success: false,
        status: "signal: 9".to_string(),
        stdout: b"\xc3(\n".to_vec(),
        stderr: b" one\ntwo ".to_vec(),
    };
    assert_eq!(
        ensure_success("run", &output).unwrap_err(),
        "run failed with signal: 9\nstdout:\n\u{fffd}(\nstderr:\none\ntwo"
    );
    output.success = true;
    assert!(ensure_success("run", &output).is_ok());
}
