//! The program that lists the visible devices, and what it prints.
use vstd::prelude::*;

use crate::capability::ComputeCapability;
use crate::standard;
use crate::text;

verus! {

/// The source of the program that lists the visible devices, one record a line.
pub const DEVICE_PROBE_SOURCE: &'static str = r#"
#include <cuda_runtime_api.h>
#include <cstdio>

int main() {
    int device_count = 0;
    cudaError_t status = cudaGetDeviceCount(&device_count);
    if (status != cudaSuccess) {
        std::fprintf(stderr, "cudaGetDeviceCount failed: %s\n", cudaGetErrorString(status));
        return 2;
    }
    if (device_count == 0) {
        std::fprintf(stderr, "CUDA reported zero visible devices\n");
        return 3;
    }

    for (int device = 0; device < device_count; ++device) {
        cudaDeviceProp properties{};
        status = cudaGetDeviceProperties(&properties, device);
        if (status != cudaSuccess) {
            std::fprintf(
                stderr,
                "cudaGetDeviceProperties(%d) failed: %s\n",
                device,
                cudaGetErrorString(status));
            return 4;
        }
        std::printf(
            "APXINF_CUDA_DEVICE %d %d %d %s\n",
            device,
            properties.major,
            properties.minor,
            properties.name);
    }
    return 0;
}
"#;

/// The message about the number in a device record that is none, with what is
/// wrong with it.
pub open spec fn invalid_part_message(device: Seq<char>, error: Seq<char>) -> Seq<char> {
    "invalid compute capability for CUDA device "@ + device + ": "@ + error
}

/// The message about a device record without a device, with its line quoted in
/// it.
pub open spec fn malformed_message(quoted: Seq<char>) -> Seq<char> {
    "malformed CUDA device probe output: "@ + quoted
}

/// The message about output without device records, with the output quoted in
/// it.
pub open spec fn no_records_message(quoted: Seq<char>) -> Seq<char> {
    "CUDA device probe produced no device records; stdout was "@ + quoted
}

/// One part of the capability in a device record: the number in the field at
/// `index`, or what is said where there is none.
pub open spec fn capability_part(fields: Seq<Seq<char>>, index: int) -> Result<u32, Seq<char>> {
    if fields.len() <= index {
        Err("missing compute capability for CUDA device "@ + fields[1])
    } else {
        match standard::u32_of(fields[index]) {
            Some(number) => Ok(number),
            None => Err(
                invalid_part_message(fields[1], standard::u32_error(fields[index])),
            ),
        }
    }
}

/// What a line says of a device: nothing, where its first word does not mark
/// it as a device record; else the capability in it, or what is wrong with it.
pub open spec fn device_record(line: Seq<char>) -> Result<Option<ComputeCapability>, Seq<char>> {
    let fields = text::words(line);
    if fields.len() == 0 || fields[0] != "APXINF_CUDA_DEVICE"@ {
        Ok(None)
    } else if fields.len() == 1 {
        Err(malformed_message(standard::debug_form(line)))
    } else {
        match capability_part(fields, 2) {
            Err(message) => Err(message),
            Ok(major) => match capability_part(fields, 3) {
                Err(message) => Err(message),
                Ok(minor) => Ok(Some(ComputeCapability { major, minor })),
            },
        }
    }
}

/// The capabilities that lines give, in order, or what is said of the first
/// line that is wrong.
pub open spec fn device_records(lines: Seq<Seq<char>>) -> Result<
    Seq<ComputeCapability>,
    Seq<char>,
>
    decreases lines.len(),
{
    if lines.len() == 0 {
        Ok(Seq::empty())
    } else {
        match device_record(lines[0]) {
            Err(message) => Err(message),
            Ok(None) => device_records(lines.skip(1)),
            Ok(Some(capability)) => match device_records(lines.skip(1)) {
                Err(message) => Err(message),
                Ok(rest) => Ok(seq![capability] + rest),
            },
        }
    }
}

/// The capabilities that the whole output gives, of which there must be one.
pub open spec fn probed_capabilities(output: Seq<char>) -> Result<
    Seq<ComputeCapability>,
    Seq<char>,
> {
    match device_records(text::lines(output)) {
        Err(message) => Err(message),
        Ok(capabilities) => if capabilities.len() == 0 {
            Err(no_records_message(standard::debug_form(output)))
        } else {
            Ok(capabilities)
        },
    }
}

/// What a result of reading capabilities says.
pub open spec fn outcome(result: Result<Vec<ComputeCapability>, String>) -> Result<
    Seq<ComputeCapability>,
    Seq<char>,
> {
    match result {
        Ok(capabilities) => Ok(capabilities@),
        Err(message) => Err(message@),
    }
}

/// Puts what is wrong with a number into the message about its device record.
pub fn reject_part(device: &str, error: &str) -> (message: String)
    ensures
        message@ == invalid_part_message(device@, error@),
{
    let mut message = "invalid compute capability for CUDA device ".to_owned();
    message.append(device);
    message.append(": ");
    message.append(error);
    message
}

/// Puts a quoted line into the message that it is no device record.
pub fn reject_record(quoted: &str) -> (message: String)
    ensures
        message@ == malformed_message(quoted@),
{
    let mut message = "malformed CUDA device probe output: ".to_owned();
    message.append(quoted);
    message
}

/// Puts quoted output into the message that it holds no device records.
pub fn reject_output(quoted: &str) -> (message: String)
    ensures
        message@ == no_records_message(quoted@),
{
    let mut message = "CUDA device probe produced no device records; stdout was ".to_owned();
    message.append(quoted);
    message
}

/// Reads one part of the capability in a device record.
fn parse_capability_part(fields: &Vec<String>, index: usize) -> (part: Result<u32, String>)
    requires
        fields.len() >= 2,
    ensures
        match part {
            Ok(number) => capability_part(text::texts(fields@), index as int) == Ok::<
                u32,
                Seq<char>,
            >(number),
            Err(message) => capability_part(text::texts(fields@), index as int) == Err::<
                u32,
                Seq<char>,
            >(message@),
        },
{
    if fields.len() <= index {
        let mut message = "missing compute capability for CUDA device ".to_owned();
        message.append(fields[1].as_str());
        return Err(message);
    }
    match standard::parse_u32(fields[index].as_str()) {
        Ok(number) => Ok(number),
        Err(error) => Err(reject_part(fields[1].as_str(), error.as_str())),
    }
}

/// Reads what one line says of a device.
fn parse_device_record(line: &str) -> (record: Result<Option<ComputeCapability>, String>)
    ensures
        match record {
            Ok(found) => device_record(line@) == Ok::<Option<ComputeCapability>, Seq<char>>(found),
            Err(message) => device_record(line@) == Err::<Option<ComputeCapability>, Seq<char>>(
                message@,
            ),
        },
{
    let fields = text::split_words(line);
    assert(text::texts(fields@).len() == fields@.len());
    if fields.len() == 0 || !text::same_text(fields[0].as_str(), "APXINF_CUDA_DEVICE") {
        return Ok(None);
    }
    if fields.len() == 1 {
        return Err(reject_record(standard::debug_text(line).as_str()));
    }
    let major: u32 = match parse_capability_part(&fields, 2) {
        Ok(major) => major,
        Err(message) => {
            return Err(message);
        },
    };
    let minor: u32 = match parse_capability_part(&fields, 3) {
        Ok(minor) => minor,
        Err(message) => {
            return Err(message);
        },
    };
    Ok(Some(ComputeCapability { major, minor }))
}

/// Reads the capabilities of the visible devices from what the probe printed.
pub fn parse_probe_output(output: &str) -> (parsed: Result<Vec<ComputeCapability>, String>)
    ensures
        outcome(parsed) == probed_capabilities(output@),
{
    let lines = text::split_lines(output);
    let ghost all = text::lines(output@);
    let mut capabilities: Vec<ComputeCapability> = Vec::new();
    assert(all.skip(0) =~= all);
    assert(all.len() == lines@.len());
    for i in 0..lines.len()
        invariant
            all == text::texts(lines@),
            all == text::lines(output@),
            match device_records(all.skip(i as int)) {
                Ok(rest) => device_records(all) == Ok::<Seq<ComputeCapability>, Seq<char>>(
                    capabilities@ + rest,
                ),
                Err(message) => device_records(all) == Err::<Seq<ComputeCapability>, Seq<char>>(
                    message,
                ),
            },
    {
        let ghost rest = all.skip(i as int);
        assert(rest[0] == lines@[i as int]@);
        assert(rest.skip(1) =~= all.skip(i + 1));
        match parse_device_record(lines[i].as_str()) {
            Err(message) => {
                return Err(message);
            },
            Ok(None) => {},
            Ok(Some(capability)) => {
                let ghost before = capabilities@;
                capabilities.push(capability);
                proof {
                    if let Ok(tail) = device_records(rest.skip(1)) {
                        assert(before + (seq![capability] + tail) =~= capabilities@ + tail);
                    }
                }
            },
        }
    }
    assert(all.skip(lines@.len() as int) =~= Seq::<Seq<char>>::empty());
    assert(capabilities@ + Seq::<ComputeCapability>::empty() =~= capabilities@);
    if capabilities.len() == 0 {
        Err(reject_output(standard::debug_text(output).as_str()))
    } else {
        Ok(capabilities)
    }
}

/// A device that the probe lists.
pub struct ListedDevice {
    pub capability: ComputeCapability,
    pub name: Seq<char>,
}

/// The record that the probe prints for a device, up to the end of its line.
pub open spec fn printed_record(index: nat, device: ListedDevice) -> Seq<char> {
    "APXINF_CUDA_DEVICE"@.push(' ') + (text::decimal(index).push(' ') + (text::decimal(
        device.capability.major as nat,
    ).push(' ') + (text::decimal(device.capability.minor as nat).push(' ') + device.name)))
}

/// What the probe prints for devices, of which the first has the number
/// `first`.
pub open spec fn printed(first: nat, devices: Seq<ListedDevice>) -> Seq<char>
    decreases devices.len(),
{
    if devices.len() == 0 {
        Seq::empty()
    } else {
        printed_record(first, devices[0]).push('\n') + printed(first + 1, devices.skip(1))
    }
}

/// The capabilities of listed devices.
pub open spec fn capabilities_of(devices: Seq<ListedDevice>) -> Seq<ComputeCapability> {
    Seq::new(devices.len(), |i: int| devices[i].capability)
}

/// A number in decimal holds no white space.
proof fn lemma_decimal_is_a_word(n: nat)
    ensures
        text::decimal(n).len() > 0,
        forall|k: int|
            0 <= k < text::decimal(n).len() ==> !standard::is_white_space(
                #[trigger] text::decimal(n)[k],
            ),
{
    text::lemma_decimal(n);
    assert forall|k: int| 0 <= k < text::decimal(n).len() implies !standard::is_white_space(
        #[trigger] text::decimal(n)[k],
    ) by {
        assert(standard::is_digit(text::decimal(n)[k]));
    }
}

/// The record printed for a device gives its capability.
proof fn lemma_printed_record(index: nat, device: ListedDevice)
    ensures
        device_record(printed_record(index, device)) == Ok::<Option<ComputeCapability>, Seq<char>>(
            Some(device.capability),
        ),
{
    let major = device.capability.major;
    let minor = device.capability.minor;
    let marker = "APXINF_CUDA_DEVICE"@;
    reveal_strlit("APXINF_CUDA_DEVICE");
    lemma_decimal_is_a_word(index);
    lemma_decimal_is_a_word(major as nat);
    lemma_decimal_is_a_word(minor as nat);
    text::law_decimal_is_read_back(major);
    text::law_decimal_is_read_back(minor);
    let after_minor = device.name;
    let after_major = text::decimal(minor as nat).push(' ') + after_minor;
    let after_index = text::decimal(major as nat).push(' ') + after_major;
    let after_marker = text::decimal(index).push(' ') + after_index;
    text::lemma_first_word(marker, ' ', after_marker);
    text::lemma_first_word(text::decimal(index), ' ', after_index);
    text::lemma_first_word(text::decimal(major as nat), ' ', after_major);
    text::lemma_first_word(text::decimal(minor as nat), ' ', after_minor);
    let fields = text::words(printed_record(index, device));
    assert(fields[0] == marker);
    assert(fields[1] == text::decimal(index));
    assert(fields[2] == text::decimal(major as nat));
    assert(fields[3] == text::decimal(minor as nat));
}

/// The lines of what the probe prints give the capabilities that it printed.
proof fn lemma_printed_records(first: nat, devices: Seq<ListedDevice>)
    requires
        forall|i: int| 0 <= i < devices.len() ==> !(#[trigger] devices[i]).name.contains('\n'),
    ensures
        device_records(text::lines(printed(first, devices))) == Ok::<
            Seq<ComputeCapability>,
            Seq<char>,
        >(capabilities_of(devices)),
    decreases devices.len(),
{
    if devices.len() == 0 {
        assert(capabilities_of(devices) =~= Seq::<ComputeCapability>::empty());
    } else {
        let device = devices[0];
        let record = printed_record(first, device);
        let rest = printed(first + 1, devices.skip(1));
        lemma_printed_records(first + 1, devices.skip(1));
        lemma_record_is_a_line(first, device);
        text::lemma_first_line(record, rest);
        let kept = ListedDevice {
            capability: device.capability,
            name: text::without_carriage_return(device.name),
        };
        assert(text::without_carriage_return(record) =~= printed_record(first, kept)) by {
            if device.name.len() > 0 {
                assert(record.last() == device.name.last());
            } else {
                assert(record.last() == ' ');
            }
        }
        lemma_printed_record(first, kept);
        let all = text::lines(printed(first, devices));
        assert(all[0] == text::without_carriage_return(record));
        assert(all.skip(1) =~= text::lines(rest));
        assert(capabilities_of(devices) =~= seq![device.capability] + capabilities_of(
            devices.skip(1),
        ));
    }
}

/// The record printed for a device stays on one line where its name does.
proof fn lemma_record_is_a_line(index: nat, device: ListedDevice)
    requires
        !device.name.contains('\n'),
    ensures
        forall|k: int|
            0 <= k < printed_record(index, device).len() ==> #[trigger] printed_record(
                index,
                device,
            )[k] != '\n',
{
    let major = text::decimal(device.capability.major as nat);
    let minor = text::decimal(device.capability.minor as nat);
    let number = text::decimal(index);
    lemma_decimal_is_a_word(index);
    lemma_decimal_is_a_word(device.capability.major as nat);
    lemma_decimal_is_a_word(device.capability.minor as nat);
    reveal_strlit("APXINF_CUDA_DEVICE");
    let a = minor.push(' ') + device.name;
    assert forall|k: int| 0 <= k < a.len() implies #[trigger] a[k] != '\n' by {
        if k < minor.len() {
            assert(a[k] == minor[k]);
        } else if k > minor.len() {
            assert(a[k] == device.name[k - minor.len() - 1]);
        }
    }
    let b = major.push(' ') + a;
    assert forall|k: int| 0 <= k < b.len() implies #[trigger] b[k] != '\n' by {
        if k < major.len() {
            assert(b[k] == major[k]);
        } else if k > major.len() {
            assert(b[k] == a[k - major.len() - 1]);
        }
    }
    let c = number.push(' ') + b;
    assert forall|k: int| 0 <= k < c.len() implies #[trigger] c[k] != '\n' by {
        if k < number.len() {
            assert(c[k] == number[k]);
        } else if k > number.len() {
            assert(c[k] == b[k - number.len() - 1]);
        }
    }
}

/// What the probe prints is read back: for one or more devices whose names
/// hold no line feed, the output gives their capabilities, in order.
pub proof fn law_probe_output_is_read_back(devices: Seq<ListedDevice>)
    requires
        devices.len() > 0,
        forall|i: int| 0 <= i < devices.len() ==> !(#[trigger] devices[i]).name.contains('\n'),
    ensures
        probed_capabilities(printed(0, devices)) == Ok::<Seq<ComputeCapability>, Seq<char>>(
            capabilities_of(devices),
        ),
{
    lemma_printed_records(0, devices);
}

/// A line that is no device record changes nothing of what the lines around it
/// give.
pub proof fn law_other_lines_are_ignored(
    before: Seq<Seq<char>>,
    line: Seq<char>,
    after: Seq<Seq<char>>,
)
    requires
        text::words(line).len() == 0 || text::words(line)[0] != "APXINF_CUDA_DEVICE"@,
    ensures
        device_records(before + seq![line] + after) == device_records(before + after),
    decreases before.len(),
{
    let whole = before + seq![line] + after;
    let kept = before + after;
    if before.len() == 0 {
        assert(whole[0] == line);
        assert(whole.skip(1) =~= kept);
    } else {
        law_other_lines_are_ignored(before.skip(1), line, after);
        assert(whole[0] == kept[0]);
        assert(whole.skip(1) =~= before.skip(1) + seq![line] + after);
        assert(kept.skip(1) =~= before.skip(1) + after);
    }
}

/// Lines that come one after the other give what the first give and then what
/// the second give; where the first are wrong, that is what is said.
pub proof fn law_joined_lines_give_joined_records(first: Seq<Seq<char>>, second: Seq<Seq<char>>)
    ensures
        device_records(first + second) == match device_records(first) {
            Err(message) => Err(message),
            Ok(front) => match device_records(second) {
                Err(message) => Err(message),
                Ok(back) => Ok(front + back),
            },
        },
    decreases first.len(),
{
    let whole = first + second;
    if first.len() == 0 {
        assert(whole =~= second);
        if let Ok(back) = device_records(second) {
            assert(Seq::<ComputeCapability>::empty() + back =~= back);
        }
    } else {
        law_joined_lines_give_joined_records(first.skip(1), second);
        assert(whole[0] == first[0]);
        assert(whole.skip(1) =~= first.skip(1) + second);
        if let Ok(Some(capability)) = device_record(first[0]) {
            if let (Ok(front), Ok(back)) = (device_records(first.skip(1)), device_records(second)) {
                assert(seq![capability] + (front + back) =~= (seq![capability] + front) + back);
            }
        }
    }
}

/// The first line that is wrong decides what is said, whatever follows it.
pub proof fn law_the_first_wrong_line_decides(
    before: Seq<Seq<char>>,
    line: Seq<char>,
    after: Seq<Seq<char>>,
)
    requires
        device_records(before) is Ok,
        device_record(line) is Err,
    ensures
        device_records(before + (seq![line] + after)) == Err::<Seq<ComputeCapability>, Seq<char>>(
            device_record(line)->Err_0,
        ),
{
    assert((seq![line] + after)[0] == line);
    law_joined_lines_give_joined_records(before, seq![line] + after);
}

/// What a line says, by its words: nothing, unless the first is the marker;
/// else the two numbers in the third and fourth, or what is wrong with the first
/// of them that is missing or no number.
pub proof fn law_what_a_line_says(line: Seq<char>)
    ensures
        ({
            let fields = text::words(line);
            let marked = fields.len() > 0 && fields[0] == "APXINF_CUDA_DEVICE"@;
            let missing = "missing compute capability for CUDA device "@ + fields[1];
            let invalid = "invalid compute capability for CUDA device "@ + fields[1] + ": "@;
            let said = device_record(line);
            &&& !marked ==> (said matches Ok(found) && found is None)
            &&& marked && fields.len() == 1 ==> (said matches Err(message) && message
                == "malformed CUDA device probe output: "@ + standard::debug_form(line))
            &&& marked && fields.len() == 2 ==> (said matches Err(message) && message == missing)
            &&& marked && fields.len() >= 3 && standard::u32_of(fields[2]) is None ==> (
            said matches Err(message) && message == invalid + standard::u32_error(fields[2]))
            &&& marked && fields.len() == 3 && standard::u32_of(fields[2]) is Some ==> (
            said matches Err(message) && message == missing)
            &&& marked && fields.len() >= 4 && standard::u32_of(fields[2]) is Some
                && standard::u32_of(fields[3]) is None ==> (said matches Err(message) && message
                == invalid + standard::u32_error(fields[3]))
            &&& marked && fields.len() >= 4 ==> (standard::u32_of(fields[2]) matches Some(major)
                ==> (standard::u32_of(fields[3]) matches Some(minor) ==> (said matches Ok(found)
                && found matches Some(capability) && capability.major == major && capability.minor
                == minor)))
        }),
{
}

/// No lines give no records, and one line gives its record or nothing, or is
/// wrong.
pub proof fn law_records_of_one_line(line: Seq<char>)
    ensures
        device_records(Seq::empty()) == Ok::<Seq<ComputeCapability>, Seq<char>>(Seq::empty()),
        device_record(line) matches Err(message) ==> device_records(seq![line]) == Err::<
            Seq<ComputeCapability>,
            Seq<char>,
        >(message),
        device_record(line) matches Ok(found) ==> device_records(seq![line]) == Ok::<
            Seq<ComputeCapability>,
            Seq<char>,
        >(
            match found {
                Some(capability) => seq![capability],
                None => Seq::empty(),
            },
        ),
{
    assert(seq![line].skip(1) =~= Seq::<Seq<char>>::empty());
    assert(device_records(Seq::empty()) == Ok::<Seq<ComputeCapability>, Seq<char>>(Seq::empty()));
    if let Ok(Some(capability)) = device_record(line) {
        assert(seq![capability] + Seq::<ComputeCapability>::empty() =~= seq![capability]);
    }
}

/// What reading the output gives: the records of its lines, of which there must
/// be one, or what is said of the first line that is wrong.
pub proof fn law_read_output(output: &str, parsed: Result<Vec<ComputeCapability>, String>)
    requires
        call_ensures(parse_probe_output, (output,), parsed),
    ensures
        device_records(text::lines(output@)) matches Err(said) ==> (parsed matches Err(message)
            && message@ == said),
        device_records(text::lines(output@)) matches Ok(records) ==> {
            &&& records.len() == 0 ==> (parsed matches Err(message) && message@
                == "CUDA device probe produced no device records; stdout was "@
                + standard::debug_form(output@))
            &&& records.len() > 0 ==> (parsed matches Ok(capabilities) && capabilities@ == records)
        },
{
}

/// The record that the probe prints for a device is read as its capability,
/// whatever its number and its name.
pub proof fn law_a_printed_record_is_read_back(index: nat, major: u32, minor: u32, name: Seq<char>)
    ensures
        device_record(
            "APXINF_CUDA_DEVICE"@ + seq![' '] + text::decimal(index) + seq![' '] + text::decimal(
                major as nat,
            ) + seq![' '] + text::decimal(minor as nat) + seq![' '] + name,
        ) matches Ok(found) && found matches Some(capability) && capability.major == major
            && capability.minor == minor,
{
    let device = ListedDevice { capability: ComputeCapability { major, minor }, name };
    lemma_printed_record(index, device);
    assert(printed_record(index, device) =~= "APXINF_CUDA_DEVICE"@ + seq![' '] + text::decimal(
        index,
    ) + seq![' '] + text::decimal(major as nat) + seq![' '] + text::decimal(minor as nat) + seq![
        ' ',
    ] + name);
}

/// What the probe prints: for no devices nothing, and for each device its
/// record and a line feed, the devices numbered in turn.
pub proof fn law_what_the_probe_prints(
    first: nat,
    device: ListedDevice,
    others: Seq<ListedDevice>,
)
    ensures
        printed(first, Seq::empty()) == Seq::<char>::empty(),
        printed(first, seq![device] + others) == "APXINF_CUDA_DEVICE"@ + seq![' ']
            + text::decimal(first) + seq![' '] + text::decimal(device.capability.major as nat)
            + seq![' '] + text::decimal(device.capability.minor as nat) + seq![' '] + device.name
            + seq!['\n'] + printed(first + 1, others),
        capabilities_of(Seq::empty()) == Seq::<ComputeCapability>::empty(),
        capabilities_of(seq![device] + others) == seq![device.capability] + capabilities_of(others),
{
    let all = seq![device] + others;
    assert(all[0] == device);
    assert(all.skip(1) =~= others);
    assert(printed(first, all) =~= "APXINF_CUDA_DEVICE"@ + seq![' '] + text::decimal(first) + seq![
        ' ',
    ] + text::decimal(device.capability.major as nat) + seq![' '] + text::decimal(
        device.capability.minor as nat,
    ) + seq![' '] + device.name + seq!['\n'] + printed(first + 1, others));
    assert(capabilities_of(all) =~= seq![device.capability] + capabilities_of(others));
    assert(capabilities_of(Seq::empty()) =~= Seq::<ComputeCapability>::empty());
}

/// What the messages about wrong output are.
pub proof fn law_rejected_output(
    device: &str,
    error: &str,
    quoted: &str,
    part: String,
    record: String,
    output: String,
)
    requires
        call_ensures(reject_part, (device, error), part),
        call_ensures(reject_record, (quoted,), record),
        call_ensures(reject_output, (quoted,), output),
    ensures
        part@ == "invalid compute capability for CUDA device "@ + device@ + ": "@ + error@,
        record@ == "malformed CUDA device probe output: "@ + quoted@,
        output@ == "CUDA device probe produced no device records; stdout was "@ + quoted@,
{
}

} // verus!
