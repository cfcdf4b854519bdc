//! Immutable facts about a CUDA device, by which kernels are chosen.
//!
//! `CudaDeviceCaps::query` and the answers to its requests decide; who drives
//! them reads the attributes and the name that the requests ask for.
use vstd::prelude::*;
use vstd::slice::slice_subrange;

use crate::arch;
use crate::capability;
use crate::capability::ComputeCapability;
use crate::standard;
use crate::text;

verus! {

/// NVIDIA architecture families whose members share kernel implementations.
#[derive(Clone, Copy, Debug, PartialEq, Eq, Hash, Structural)]
pub enum CudaArchFamily {
    Sm80,
    Sm100,
    Other(u32),
}

/// How a family is shown.
pub open spec fn family_text(family: CudaArchFamily) -> Seq<char> {
    match family {
        CudaArchFamily::Sm80 => "sm80-family"@,
        CudaArchFamily::Sm100 => "sm100-family"@,
        CudaArchFamily::Other(sm) => "sm"@ + text::decimal(sm as nat),
    }
}

impl CudaArchFamily {
    /// Shows the family.
    pub fn to_string(&self) -> (shown: String)
        ensures
            shown@ == family_text(*self),
    {
        match *self {
            CudaArchFamily::Sm80 => "sm80-family".to_owned(),
            CudaArchFamily::Sm100 => "sm100-family".to_owned(),
            CudaArchFamily::Other(sm) => {
                let mut shown = "sm".to_owned();
                shown.append(text::decimal_text(sm as u64).as_str());
                shown
            },
        }
    }
}

/// The family of an architecture, by its number.
pub open spec fn family_of(sm: u32) -> CudaArchFamily {
    if sm == 80 || sm == 86 || sm == 87 || sm == 89 {
        CudaArchFamily::Sm80
    } else if sm == 100 || sm == 101 || sm == 110 || sm == 120 || sm == 121 {
        CudaArchFamily::Sm100
    } else {
        CudaArchFamily::Other(sm)
    }
}

/// Hardware capabilities of a device, queried once.
///
/// These are hardware facts only. Model names, precision policy and selected
/// tactics belong elsewhere.
#[derive(Clone, Debug, PartialEq, Eq)]
pub struct CudaDeviceCaps {
    pub device_name: String,
    pub compute_major: u32,
    pub compute_minor: u32,
    pub sm: u32,
    pub multiprocessor_count: u32,
    pub arch_family: CudaArchFamily,
}

/// The model of `CudaDeviceCaps`.
pub struct CudaDeviceCapsView {
    pub device_name: Seq<char>,
    pub compute_major: u32,
    pub compute_minor: u32,
    pub sm: u32,
    pub multiprocessor_count: u32,
    pub arch_family: CudaArchFamily,
}

impl View for CudaDeviceCaps {
    type V = CudaDeviceCapsView;

    open spec fn view(&self) -> CudaDeviceCapsView {
        CudaDeviceCapsView {
            device_name: self.device_name@,
            compute_major: self.compute_major,
            compute_minor: self.compute_minor,
            sm: self.sm,
            multiprocessor_count: self.multiprocessor_count,
            arch_family: self.arch_family,
        }
    }
}

impl CudaDeviceCapsView {
    /// Whether the facts agree with each other: the number of the architecture
    /// with the compute capability, and the family with that number.
    pub open spec fn wf(self) -> bool {
        &&& self.sm == 10 * self.compute_major + self.compute_minor
        &&& self.arch_family == family_of(self.sm)
    }
}

/// The numbers by which the attributes of a device are asked for.
#[derive(Clone, Copy, Debug, PartialEq, Eq, Structural)]
pub struct AttributeIds {
    pub compute_major: i32,
    pub compute_minor: i32,
    pub multiprocessor_count: i32,
}

/// The attributes of a device that are known.
#[derive(Clone, Copy, Debug, PartialEq, Eq, Structural)]
pub enum KnownAttributes {
    Nothing,
    Major { major: u32 },
    MajorAndMinor { major: u32, minor: u32 },
}

/// A request to read an attribute of a device: the first that is not known.
#[derive(Clone, Copy, Debug, PartialEq, Eq, Structural)]
pub struct AttributeRequest {
    pub device: i32,
    pub ids: AttributeIds,
    pub known: KnownAttributes,
}

/// The number of the attribute that a request asks for.
pub open spec fn requested_attribute(request: AttributeRequest) -> i32 {
    match request.known {
        KnownAttributes::Nothing => request.ids.compute_major,
        KnownAttributes::Major { .. } => request.ids.compute_minor,
        KnownAttributes::MajorAndMinor { .. } => request.ids.multiprocessor_count,
    }
}

/// A request to read the name of a device, all else being known.
#[derive(Debug)]
pub struct NameRequest {
    device: i32,
    major: u32,
    minor: u32,
    sm: u32,
    multiprocessor_count: u32,
}

/// The model of a `NameRequest`.
pub struct NameRequestView {
    pub device: i32,
    pub major: u32,
    pub minor: u32,
    pub sm: u32,
    pub multiprocessor_count: u32,
}

impl View for NameRequest {
    type V = NameRequestView;

    closed spec fn view(&self) -> NameRequestView {
        NameRequestView {
            device: self.device,
            major: self.major,
            minor: self.minor,
            sm: self.sm,
            multiprocessor_count: self.multiprocessor_count,
        }
    }
}

/// What comes next in a query.
#[derive(Debug)]
pub enum QueryStep {
    Attribute(AttributeRequest),
    Name(NameRequest),
}

/// The model of a `QueryStep`.
pub enum QueryStepView {
    Attribute(AttributeRequest),
    Name(NameRequestView),
}

impl View for QueryStep {
    type V = QueryStepView;

    open spec fn view(&self) -> QueryStepView {
        match *self {
            QueryStep::Attribute(request) => QueryStepView::Attribute(request),
            QueryStep::Name(request) => QueryStepView::Name(request@),
        }
    }
}

/// What is said of a device number that is too large.
pub open spec fn device_id_error(device_id: nat) -> Seq<char> {
    "CUDA device id "@ + text::decimal(device_id) + " does not fit in i32"@
}

/// The value of an attribute, from what was read or why it was not: one that
/// is negative is wrong.
pub open spec fn attribute_value(
    device: i32,
    attribute: i32,
    reply: Result<i32, Seq<char>>,
) -> Result<u32, Seq<char>> {
    match reply {
        Err(error) => Err(error),
        Ok(value) => if value < 0 {
            Err(
                "CUDA device "@ + text::signed_decimal(device as int)
                    + " returned negative attribute "@ + text::signed_decimal(attribute as int)
                    + ": "@ + text::signed_decimal(value as int),
            )
        } else {
            Ok(value as u32)
        },
    }
}

/// The step after all attributes are known, provided that the number of the
/// architecture can be held.
pub open spec fn after_attributes(
    device: i32,
    major: u32,
    minor: u32,
    multiprocessor_count: u32,
) -> Result<QueryStepView, Seq<char>> {
    if 10 * major + minor > u32::MAX {
        Err("CUDA compute capability overflow"@)
    } else {
        Ok(
            QueryStepView::Name(
                NameRequestView {
                    device,
                    major,
                    minor,
                    sm: (10 * major + minor) as u32,
                    multiprocessor_count,
                },
            ),
        )
    }
}

/// The step after an attribute was read, or could not be for the reason given.
pub open spec fn after_attribute(
    request: AttributeRequest,
    reply: Result<i32, Seq<char>>,
) -> Result<QueryStepView, Seq<char>> {
    match attribute_value(request.device, requested_attribute(request), reply) {
        Err(message) => Err(message),
        Ok(value) => match request.known {
            KnownAttributes::Nothing => Ok(
                QueryStepView::Attribute(
                    AttributeRequest {
                        device: request.device,
                        ids: request.ids,
                        known: KnownAttributes::Major { major: value },
                    },
                ),
            ),
            KnownAttributes::Major { major } => Ok(
                QueryStepView::Attribute(
                    AttributeRequest {
                        device: request.device,
                        ids: request.ids,
                        known: KnownAttributes::MajorAndMinor { major, minor: value },
                    },
                ),
            ),
            KnownAttributes::MajorAndMinor { major, minor } => after_attributes(
                request.device,
                major,
                minor,
                value,
            ),
        },
    }
}

/// The bytes before the first zero, or all of them where there is none.
pub open spec fn before_zero(bytes: Seq<u8>) -> Seq<u8>
    decreases bytes.len(),
{
    if bytes.len() == 0 || bytes[0] == 0 {
        Seq::empty()
    } else {
        seq![bytes[0]] + before_zero(bytes.skip(1))
    }
}

/// The facts about a device with a given name.
pub open spec fn described(request: NameRequestView, device_name: Seq<char>) -> CudaDeviceCapsView {
    CudaDeviceCapsView {
        device_name,
        compute_major: request.major,
        compute_minor: request.minor,
        sm: request.sm,
        multiprocessor_count: request.multiprocessor_count,
        arch_family: family_of(request.sm),
    }
}

/// The facts about a device after its name was read into a buffer, which a zero
/// ends it in, or could not be for the reason given.
pub open spec fn after_name(request: NameRequestView, reply: Result<Seq<u8>, Seq<char>>) -> Result<
    CudaDeviceCapsView,
    Seq<char>,
> {
    match reply {
        Err(error) => Err(error),
        Ok(buffer) => Ok(described(request, standard::utf8_lossy(before_zero(buffer)))),
    }
}

/// What a reply with a number says.
pub open spec fn attribute_reply(reply: Result<i32, String>) -> Result<i32, Seq<char>> {
    match reply {
        Ok(value) => Ok(value),
        Err(error) => Err(error@),
    }
}

/// What a reply with a buffer says.
pub open spec fn name_reply(reply: Result<Vec<u8>, String>) -> Result<Seq<u8>, Seq<char>> {
    match reply {
        Ok(buffer) => Ok(buffer@),
        Err(error) => Err(error@),
    }
}

/// What a step of a query says: the next one, or why there is none.
pub open spec fn step_outcome(step: Result<QueryStep, String>) -> Result<QueryStepView, Seq<char>> {
    match step {
        Ok(next) => Ok(next@),
        Err(message) => Err(message@),
    }
}

/// What a query says at its end.
pub open spec fn caps_outcome(caps: Result<CudaDeviceCaps, String>) -> Result<
    CudaDeviceCapsView,
    Seq<char>,
> {
    match caps {
        Ok(facts) => Ok(facts@),
        Err(message) => Err(message@),
    }
}

/// The value of an attribute, from what was read or why it was not.
pub fn query_attribute(device: i32, attribute: i32, reply: Result<i32, String>) -> (value: Result<
    u32,
    String,
>)
    ensures
        match value {
            Ok(number) => attribute_value(device, attribute, attribute_reply(reply)) == Ok::<
                u32,
                Seq<char>,
            >(number),
            Err(message) => attribute_value(device, attribute, attribute_reply(reply)) == Err::<
                u32,
                Seq<char>,
            >(message@),
        },
{
    match reply {
        Err(error) => Err(error),
        Ok(number) => {
            if number < 0 {
                let mut message = "CUDA device ".to_owned();
                message.append(text::signed_decimal_text(device).as_str());
                message.append(" returned negative attribute ");
                message.append(text::signed_decimal_text(attribute).as_str());
                message.append(": ");
                message.append(text::signed_decimal_text(number).as_str());
                Err(message)
            } else {
                Ok(number as u32)
            }
        },
    }
}

/// Where the first zero comes after `n` bytes, or never and there are `n` of
/// them, those are the bytes before it.
proof fn lemma_before_zero(bytes: Seq<u8>, n: int)
    requires
        0 <= n <= bytes.len(),
        forall|k: int| 0 <= k < n ==> #[trigger] bytes[k] != 0,
        n == bytes.len() || bytes[n] == 0,
    ensures
        before_zero(bytes) == bytes.take(n),
    decreases bytes.len(),
{
    if n > 0 {
        let rest = bytes.skip(1);
        assert forall|k: int| 0 <= k < n - 1 implies #[trigger] rest[k] != 0 by {
            assert(rest[k] == bytes[k + 1]);
        }
        lemma_before_zero(rest, n - 1);
        assert(seq![bytes[0]] + rest.take(n - 1) =~= bytes.take(n));
    } else {
        assert(bytes.take(0) =~= Seq::<u8>::empty());
    }
}

impl CudaDeviceCaps {
    /// Begins the query of a device.
    pub fn query(device_id: usize, ids: AttributeIds) -> (request: Result<AttributeRequest, String>)
        ensures
            match request {
                Ok(first) => device_id <= i32::MAX && first == (AttributeRequest {
                    device: device_id as i32,
                    ids,
                    known: KnownAttributes::Nothing,
                }),
                Err(message) => device_id > i32::MAX && message@ == device_id_error(
                    device_id as nat,
                ),
            },
    {
        match i32::try_from(device_id) {
            Ok(device) => Ok(AttributeRequest { device, ids, known: KnownAttributes::Nothing }),
            Err(_) => {
                let mut message = "CUDA device id ".to_owned();
                message.append(text::decimal_text(device_id as u64).as_str());
                message.append(" does not fit in i32");
                Err(message)
            },
        }
    }

    /// The family of an architecture, by its number.
    pub fn classify(sm: u32) -> (family: CudaArchFamily)
        ensures
            family == family_of(sm),
    {
        match sm {
            80 | 86 | 87 | 89 => CudaArchFamily::Sm80,
            100 | 101 | 110 | 120 | 121 => CudaArchFamily::Sm100,
            other => CudaArchFamily::Other(other),
        }
    }
}

impl AttributeRequest {
    /// The number of the attribute to read.
    pub fn attribute(&self) -> (attribute: i32)
        ensures
            attribute == requested_attribute(*self),
    {
        match self.known {
            KnownAttributes::Nothing => self.ids.compute_major,
            KnownAttributes::Major { .. } => self.ids.compute_minor,
            KnownAttributes::MajorAndMinor { .. } => self.ids.multiprocessor_count,
        }
    }

    /// Goes on after the attribute was read, or could not be for the reason
    /// given.
    pub fn answer(self, reply: Result<i32, String>) -> (step: Result<QueryStep, String>)
        ensures
            step_outcome(step) == after_attribute(self, attribute_reply(reply)),
    {
        let value: u32 = match query_attribute(self.device, self.attribute(), reply) {
            Ok(value) => value,
            Err(message) => {
                return Err(message);
            },
        };
        match self.known {
            KnownAttributes::Nothing => Ok(
                QueryStep::Attribute(
                    AttributeRequest {
                        device: self.device,
                        ids: self.ids,
                        known: KnownAttributes::Major { major: value },
                    },
                ),
            ),
            KnownAttributes::Major { major } => Ok(
                QueryStep::Attribute(
                    AttributeRequest {
                        device: self.device,
                        ids: self.ids,
                        known: KnownAttributes::MajorAndMinor { major, minor: value },
                    },
                ),
            ),
            KnownAttributes::MajorAndMinor { major, minor } => {
                let tens: Option<u32> = major.checked_mul(10);
                let number: Option<u32> = match tens {
                    Some(tens) => tens.checked_add(minor),
                    None => None,
                };
                match number {
                    Some(sm) => Ok(
                        QueryStep::Name(
                            NameRequest {
                                device: self.device,
                                major,
                                minor,
                                sm,
                                multiprocessor_count: value,
                            },
                        ),
                    ),
                    None => Err("CUDA compute capability overflow".to_owned()),
                }
            },
        }
    }
}

impl NameRequest {
    #[verifier::type_invariant]
    spec fn sm_agrees(self) -> bool {
        self.sm == 10 * self.major + self.minor
    }

    /// The device whose name to read.
    pub fn device(&self) -> (device: i32)
        ensures
            device == self@.device,
    {
        self.device
    }

    /// Puts the facts about a device together, once its name is known.
    pub fn describe(self, device_name: String) -> (caps: CudaDeviceCaps)
        ensures
            caps@ == described(self@, device_name@),
            caps@.wf(),
    {
        proof {
            use_type_invariant(&self);
        }
        CudaDeviceCaps {
            device_name,
            compute_major: self.major,
            compute_minor: self.minor,
            sm: self.sm,
            multiprocessor_count: self.multiprocessor_count,
            arch_family: CudaDeviceCaps::classify(self.sm),
        }
    }

    /// Ends the query after the name was read into a buffer, or could not be for
    /// the reason given.
    pub fn answer(self, reply: Result<Vec<u8>, String>) -> (caps: Result<CudaDeviceCaps, String>)
        ensures
            caps_outcome(caps) == after_name(self@, name_reply(reply)),
            reply matches Ok(buffer) ==> (vstd::utf8::valid_utf8(before_zero(buffer@))
                ==> caps_outcome(caps) == Ok::<CudaDeviceCapsView, Seq<char>>(
                described(self@, vstd::utf8::decode_utf8(before_zero(buffer@))),
            )),
            caps matches Ok(facts) ==> facts@.wf(),
    {
        let buffer = match reply {
            Ok(buffer) => buffer,
            Err(error) => {
                return Err(error);
            },
        };
        let mut end: usize = 0;
        while end < buffer.len() && buffer[end] != 0
            invariant
                end <= buffer.len(),
                forall|k: int| 0 <= k < end ==> #[trigger] buffer@[k] != 0,
            decreases buffer.len() - end,
        {
            end = end + 1;
        }
        proof {
            lemma_before_zero(buffer@, end as int);
        }
        let name = standard::lossy_text(slice_subrange(buffer.as_slice(), 0, end));
        Ok(self.describe(name))
    }
}

/// What reading gives: each attribute, and the buffer with the name.
pub struct Readings {
    pub major: Result<i32, Seq<char>>,
    pub minor: Result<i32, Seq<char>>,
    pub multiprocessor_count: Result<i32, Seq<char>>,
    pub name: Result<Seq<u8>, Seq<char>>,
}

/// Where the steps of a query lead, each request answered in turn.
pub open spec fn driven(readings: Readings, step: QueryStepView) -> Result<
    CudaDeviceCapsView,
    Seq<char>,
>
    decreases
            match step {
                QueryStepView::Name(_) => 0nat,
                QueryStepView::Attribute(request) => match request.known {
                    KnownAttributes::MajorAndMinor { .. } => 1nat,
                    KnownAttributes::Major { .. } => 2nat,
                    KnownAttributes::Nothing => 3nat,
                },
            },
{
    match step {
        QueryStepView::Name(request) => after_name(request, readings.name),
        QueryStepView::Attribute(request) => {
            let reply = match request.known {
                KnownAttributes::Nothing => readings.major,
                KnownAttributes::Major { .. } => readings.minor,
                KnownAttributes::MajorAndMinor { .. } => readings.multiprocessor_count,
            };
            match after_attribute(request, reply) {
                Err(message) => Err(message),
                Ok(next) => driven(readings, next),
            }
        },
    }
}

/// What the query of a device comes to: the three attributes, the number of the
/// architecture and the name are found in that order, and the first that fails
/// decides.
pub open spec fn caps_of(readings: Readings, device: i32, ids: AttributeIds) -> Result<
    CudaDeviceCapsView,
    Seq<char>,
> {
    match attribute_value(device, ids.compute_major, readings.major) {
        Err(message) => Err(message),
        Ok(major) => match attribute_value(device, ids.compute_minor, readings.minor) {
            Err(message) => Err(message),
            Ok(minor) => match attribute_value(
                device,
                ids.multiprocessor_count,
                readings.multiprocessor_count,
            ) {
                Err(message) => Err(message),
                Ok(multiprocessor_count) => if 10 * major + minor > u32::MAX {
                    Err("CUDA compute capability overflow"@)
                } else {
                    match readings.name {
                        Err(error) => Err(error),
                        Ok(buffer) => Ok(
                            CudaDeviceCapsView {
                                device_name: standard::utf8_lossy(before_zero(buffer)),
                                compute_major: major,
                                compute_minor: minor,
                                sm: (10 * major + minor) as u32,
                                multiprocessor_count,
                                arch_family: family_of((10 * major + minor) as u32),
                            },
                        ),
                    }
                },
            },
        },
    }
}

/// The steps of a query, each request answered in turn, lead to what the query
/// as a whole comes to, and the facts it gives agree with each other.
pub proof fn law_the_steps_make_the_query(readings: Readings, device: i32, ids: AttributeIds)
    ensures
        driven(
            readings,
            QueryStepView::Attribute(
                AttributeRequest { device, ids, known: KnownAttributes::Nothing },
            ),
        ) == caps_of(readings, device, ids),
        caps_of(readings, device, ids) matches Ok(caps) ==> caps.wf(),
{
    reveal_with_fuel(driven, 5);
}

/// Each family is shown in its own way.
pub proof fn law_family_text_is_injective(a: CudaArchFamily, b: CudaArchFamily)
    requires
        family_text(a) == family_text(b),
    ensures
        a == b,
{
    reveal_strlit("sm");
    reveal_strlit("sm80-family");
    reveal_strlit("sm100-family");
    assert("sm80-family"@.last() == 'y');
    assert("sm100-family"@.last() == 'y');
    if let CudaArchFamily::Other(sm) = a {
        text::lemma_decimal(sm as nat);
        assert(standard::is_digit(family_text(a).last()));
        assert(family_text(a).skip(2) =~= text::decimal(sm as nat));
    }
    if let CudaArchFamily::Other(sm) = b {
        text::lemma_decimal(sm as nat);
        assert(standard::is_digit(family_text(b).last()));
        assert(family_text(b).skip(2) =~= text::decimal(sm as nat));
    }
    if let (CudaArchFamily::Other(m), CudaArchFamily::Other(n)) = (a, b) {
        text::law_decimal_is_injective(m as nat, n as nat);
    }
}

/// The five numbers of the Blackwell family, in decimal.
proof fn lemma_sm100_names()
    ensures
        "sm_"@ + text::decimal(100) == "sm_100"@,
        "sm_"@ + text::decimal(101) == "sm_101"@,
        "sm_"@ + text::decimal(110) == "sm_110"@,
        "sm_"@ + text::decimal(120) == "sm_120"@,
        "sm_"@ + text::decimal(121) == "sm_121"@,
{
    arch::lemma_sm100_numbers();
}

/// A number belongs to the Blackwell family of devices if and only if the name
/// with that number belongs to the Blackwell family of CUTLASS.
pub proof fn law_the_families_agree(sm: u32)
    ensures
        (family_of(sm) == CudaArchFamily::Sm100) == arch::in_sm100_family(
            "sm_"@ + text::decimal(sm as nat),
        ),
{
    let name = "sm_"@ + text::decimal(sm as nat);
    lemma_sm100_names();
    if arch::in_sm100_family(name) {
        reveal_strlit("sm_");
        reveal_strlit("sm_100a");
        reveal_strlit("sm_101a");
        reveal_strlit("sm_110a");
        reveal_strlit("sm_120a");
        reveal_strlit("sm_121a");
        text::lemma_decimal(sm as nat);
        assert(standard::is_digit(name.last()));
        assert(name.skip(3) =~= text::decimal(sm as nat));
        let n: nat = if name == "sm_100"@ {
            100
        } else if name == "sm_101"@ {
            101
        } else if name == "sm_110"@ {
            110
        } else if name == "sm_120"@ {
            120
        } else {
            121
        };
        assert(("sm_"@ + text::decimal(n)).skip(3) =~= text::decimal(n));
        text::law_decimal_is_injective(sm as nat, n);
    }
}

/// Where the major part of a capability is not zero and the minor part is one
/// digit, the architecture of the device is named by its number, and the device
/// and its architecture are in the Blackwell family together.
pub proof fn law_arch_of_a_device_has_its_number(capability: ComputeCapability, sm: u32)
    requires
        capability.major > 0,
        capability.minor < 10,
        sm == 10 * capability.major + capability.minor,
    ensures
        capability::arch_of(capability) == "sm_"@ + text::decimal(sm as nat),
        (family_of(sm) == CudaArchFamily::Sm100) == arch::in_sm100_family(
            capability::arch_of(capability),
        ),
{
    let major = capability.major as nat;
    let minor = capability.minor as nat;
    assert(sm as nat / 10 == major && sm as nat % 10 == minor);
    assert(text::decimal(sm as nat) == text::decimal(major).push(text::digit(minor)));
    assert(text::decimal(minor) == seq![text::digit(minor)]);
    assert(capability::arch_of(capability) =~= "sm_"@ + text::decimal(sm as nat));
    law_the_families_agree(sm);
}

/// A number belongs to the Blackwell family of devices if and only if the name
/// with that number and the letter `a` belongs to the Blackwell family of
/// CUTLASS.
pub proof fn law_the_families_agree_on_specific_names(sm: u32)
    ensures
        (family_of(sm) == CudaArchFamily::Sm100) == arch::in_sm100_family(
            ("sm_"@ + text::decimal(sm as nat)).push('a'),
        ),
{
    let name = "sm_"@ + text::decimal(sm as nat);
    law_the_families_agree(sm);
    text::lemma_decimal(sm as nat);
    assert(standard::is_digit(name.last()));
    if family_of(sm) == CudaArchFamily::Sm100 {
        arch::law_cutlass_arch_keeps_the_family(name);
        assert(arch::cutlass_arch(name) == name.push('a'));
    } else if arch::in_sm100_family(name.push('a')) {
        reveal_strlit("sm_100");
        reveal_strlit("sm_100a");
        reveal_strlit("sm_101");
        reveal_strlit("sm_101a");
        reveal_strlit("sm_110");
        reveal_strlit("sm_110a");
        reveal_strlit("sm_120");
        reveal_strlit("sm_120a");
        reveal_strlit("sm_121");
        reveal_strlit("sm_121a");
        let whole = name.push('a');
        assert(whole.last() == 'a');
        assert(whole.drop_last() =~= name);
        if whole == "sm_100a"@ {
            assert(whole.drop_last() =~= "sm_100"@);
        } else if whole == "sm_101a"@ {
            assert(whole.drop_last() =~= "sm_101"@);
        } else if whole == "sm_110a"@ {
            assert(whole.drop_last() =~= "sm_110"@);
        } else if whole == "sm_120a"@ {
            assert(whole.drop_last() =~= "sm_120"@);
        } else {
            assert(whole.drop_last() =~= "sm_121"@);
        }
    }
}

/// What classifying a number gives, with the two named families written out:
/// every number in neither of them is kept.
pub proof fn law_classified(sm: u32, family: CudaArchFamily)
    requires
        call_ensures(CudaDeviceCaps::classify, (sm,), family),
    ensures
        family == family_of(sm),
        family == CudaArchFamily::Sm80 <==> sm == 80 || sm == 86 || sm == 87 || sm == 89,
        family == CudaArchFamily::Sm100 <==> sm == 100 || sm == 101 || sm == 110 || sm == 120 || sm
            == 121,
        family matches CudaArchFamily::Other(kept) ==> kept == sm,
{
}

/// What showing a family gives.
pub proof fn law_shown_family(family: CudaArchFamily, shown: String)
    requires
        call_ensures(CudaArchFamily::to_string, (&family,), shown),
    ensures
        family == CudaArchFamily::Sm80 ==> shown@ == "sm80-family"@,
        family == CudaArchFamily::Sm100 ==> shown@ == "sm100-family"@,
        family matches CudaArchFamily::Other(sm) ==> shown@ == "sm"@ + text::decimal(sm as nat),
{
}

/// What beginning a query gives: the request for the first attribute of the
/// device, if and only if its number fits.
pub proof fn law_started_query(
    device_id: usize,
    ids: AttributeIds,
    request: Result<AttributeRequest, String>,
)
    requires
        call_ensures(CudaDeviceCaps::query, (device_id, ids), request),
    ensures
        request is Ok <==> device_id <= 0x7fff_ffff,
        request matches Ok(first) ==> first.device == device_id && first.ids == ids
            && first.known == KnownAttributes::Nothing,
        request matches Err(message) ==> message@ == "CUDA device id "@ + text::decimal(
            device_id as nat,
        ) + " does not fit in i32"@,
{
}

/// What judging an attribute gives: the value read, if and only if one was read
/// and is not negative; else why it was not read, or that it is negative.
pub proof fn law_judged_attribute(
    device: i32,
    attribute: i32,
    reply: Result<i32, String>,
    value: Result<u32, String>,
)
    requires
        call_ensures(query_attribute, (device, attribute, reply), value),
    ensures
        reply matches Err(error) ==> (value matches Err(message) && message@ == error@),
        reply matches Ok(read) ==> {
            &&& read >= 0 ==> (value matches Ok(number) && number == read)
            &&& read < 0 ==> (value matches Err(message) && message@ == "CUDA device "@
                + text::signed_decimal(device as int) + " returned negative attribute "@
                + text::signed_decimal(attribute as int) + ": "@ + text::signed_decimal(read as int))
        },
{
}

/// What a request asks for: the major part first, then the minor part, then the
/// count of multiprocessors.
pub proof fn law_requested_attribute(request: AttributeRequest, attribute: i32)
    requires
        call_ensures(AttributeRequest::attribute, (&request,), attribute),
    ensures
        request.known is Nothing ==> attribute == request.ids.compute_major,
        request.known is Major ==> attribute == request.ids.compute_minor,
        request.known is MajorAndMinor ==> attribute == request.ids.multiprocessor_count,
{
}

/// What answering a request for an attribute gives. A reply that is a reason, or
/// a negative number, ends the query with a message. Any other is kept, along
/// with all that was known, and the next request follows, unless the number of
/// the architecture cannot be held.
pub proof fn law_answered_attribute(
    request: AttributeRequest,
    reply: Result<i32, String>,
    attribute: i32,
    step: Result<QueryStep, String>,
)
    requires
        call_ensures(AttributeRequest::attribute, (&request,), attribute),
        call_ensures(AttributeRequest::answer, (request, reply), step),
    ensures
        reply matches Err(error) ==> (step matches Err(message) && message@ == error@),
        reply matches Ok(read) ==> {
            &&& read < 0 ==> (step matches Err(message) && message@ == "CUDA device "@
                + text::signed_decimal(request.device as int) + " returned negative attribute "@
                + text::signed_decimal(attribute as int) + ": "@ + text::signed_decimal(read as int))
            &&& read >= 0 && request.known is Nothing ==> (step matches Ok(next)
                && next matches QueryStep::Attribute(asked) && asked == (AttributeRequest {
                device: request.device,
                ids: request.ids,
                known: KnownAttributes::Major { major: read as u32 },
            }))
            &&& read >= 0 ==> (request.known matches KnownAttributes::Major { major } ==> (
            step matches Ok(next) && next matches QueryStep::Attribute(asked) && asked == (
            AttributeRequest {
                device: request.device,
                ids: request.ids,
                known: KnownAttributes::MajorAndMinor { major, minor: read as u32 },
            })))
            &&& read >= 0 ==> (request.known matches KnownAttributes::MajorAndMinor {
                major,
                minor,
            } ==> {
                &&& 10 * major + minor > 0xffff_ffff ==> (step matches Err(message) && message@
                    == "CUDA compute capability overflow"@)
                &&& 10 * major + minor <= 0xffff_ffff ==> (step matches Ok(next)
                    && next matches QueryStep::Name(asked) && asked@.device == request.device
                    && asked@.major == major && asked@.minor == minor && asked@.sm == 10 * major
                    + minor && asked@.multiprocessor_count == read)
            })
        },
{
}

/// A name ends before the first zero, and is the whole where there is none.
pub proof fn law_a_name_ends_before_the_first_zero(name: Seq<u8>, rest: Seq<u8>)
    requires
        forall|k: int| 0 <= k < name.len() ==> #[trigger] name[k] != 0,
    ensures
        before_zero(name) == name,
        before_zero(name.push(0) + rest) == name,
{
    lemma_before_zero(name, name.len() as int);
    assert(name.take(name.len() as int) =~= name);
    let whole = name.push(0) + rest;
    assert forall|k: int| 0 <= k < name.len() implies #[trigger] whole[k] != 0 by {
        assert(whole[k] == name[k]);
    }
    lemma_before_zero(whole, name.len() as int);
    assert(whole.take(name.len() as int) =~= name);
}

/// What answering a request for a name gives: the reason why it was not read, or
/// the facts about the device, the name among them.
pub proof fn law_answered_name(
    request: NameRequest,
    reply: Result<Vec<u8>, String>,
    device: i32,
    caps: Result<CudaDeviceCaps, String>,
)
    requires
        call_ensures(NameRequest::device, (&request,), device),
        call_ensures(NameRequest::answer, (request, reply), caps),
    ensures
        device == request@.device,
        reply matches Err(error) ==> (caps matches Err(message) && message@ == error@),
        reply matches Ok(buffer) ==> (caps matches Ok(facts) && facts.device_name@
            == standard::utf8_lossy(before_zero(buffer@)) && facts.compute_major == request@.major
            && facts.compute_minor == request@.minor && facts.sm == request@.sm
            && facts.multiprocessor_count == request@.multiprocessor_count && facts.arch_family
            == family_of(request@.sm)),
{
}

/// Where every attribute reads as a number that is not negative, and the number
/// of the architecture can be held, a query ends in facts, and these are what
/// was read: the parts of the capability, the count of multiprocessors and the
/// name are the replies to the requests for them, made of the device asked for;
/// the rest follows from the capability.
pub proof fn law_the_facts_are_what_was_read(
    device_id: usize,
    ids: AttributeIds,
    major: i32,
    minor: i32,
    multiprocessor_count: i32,
    buffer: Vec<u8>,
    name: String,
    started: Result<AttributeRequest, String>,
    after_major: Result<QueryStep, String>,
    after_minor: Result<QueryStep, String>,
    after_count: Result<QueryStep, String>,
    ended: Result<CudaDeviceCaps, String>,
    described: CudaDeviceCaps,
)
    requires
        device_id <= i32::MAX,
        major >= 0,
        minor >= 0,
        multiprocessor_count >= 0,
        10 * major + minor <= u32::MAX,
        call_ensures(CudaDeviceCaps::query, (device_id, ids), started),
        started matches Ok(request) ==> call_ensures(
            AttributeRequest::answer,
            (request, Ok(major)),
            after_major,
        ),
        after_major matches Ok(QueryStep::Attribute(request)) ==> call_ensures(
            AttributeRequest::answer,
            (request, Ok(minor)),
            after_minor,
        ),
        after_minor matches Ok(QueryStep::Attribute(request)) ==> call_ensures(
            AttributeRequest::answer,
            (request, Ok(multiprocessor_count)),
            after_count,
        ),
        after_count matches Ok(QueryStep::Name(request)) ==> call_ensures(
            NameRequest::answer,
            (request, Ok(buffer)),
            ended,
        ),
        after_count matches Ok(QueryStep::Name(request)) ==> call_ensures(
            NameRequest::describe,
            (request, name),
            described,
        ),
    ensures
        started matches Ok(request) && request.device == device_id && (forall|attribute: i32|
            call_ensures(AttributeRequest::attribute, (&request,), attribute) ==> attribute
                == ids.compute_major),
        after_major matches Ok(QueryStep::Attribute(request)) && request.device == device_id && (
        forall|attribute: i32|
            call_ensures(AttributeRequest::attribute, (&request,), attribute) ==> attribute
                == ids.compute_minor),
        after_minor matches Ok(QueryStep::Attribute(request)) && request.device == device_id && (
        forall|attribute: i32|
            call_ensures(AttributeRequest::attribute, (&request,), attribute) ==> attribute
                == ids.multiprocessor_count),
        after_count matches Ok(QueryStep::Name(request)) && (forall|device: i32|
            call_ensures(NameRequest::device, (&request,), device) ==> device == device_id),
        ended matches Ok(caps) && {
            &&& caps.device_name@ == standard::utf8_lossy(before_zero(buffer@))
            &&& caps.compute_major == major
            &&& caps.compute_minor == minor
            &&& caps.multiprocessor_count == multiprocessor_count
            &&& caps.sm == 10 * major + minor
            &&& caps.arch_family == family_of(caps.sm)
        },
        described.device_name@ == name@,
        described.compute_major == major,
        described.compute_minor == minor,
        described.multiprocessor_count == multiprocessor_count,
        described.sm == 10 * major + minor,
        described.arch_family == family_of(described.sm),
{
}

} // verus!
