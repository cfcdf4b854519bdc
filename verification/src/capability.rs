//! Compute capabilities of devices, and the one architecture that they share.
use vstd::prelude::*;

use crate::arch;
use crate::standard;
use crate::text;

verus! {

/// The compute capability of a device: its version, in two parts.
#[derive(Debug, Clone, Copy, PartialEq, Eq, PartialOrd, Ord, Structural)]
pub struct ComputeCapability {
    pub major: u32,
    pub minor: u32,
}

/// The architecture of a device: `sm_` and both parts of its capability.
pub open spec fn arch_of(capability: ComputeCapability) -> Seq<char> {
    "sm_"@ + text::decimal(capability.major as nat) + text::decimal(capability.minor as nat)
}

/// The architecture of each device.
pub open spec fn archs_of(list: Seq<ComputeCapability>) -> Seq<Seq<char>> {
    Seq::new(list.len(), |i: int| arch_of(list[i]))
}

/// Names the architecture of a device.
pub fn capability_to_arch(capability: ComputeCapability) -> (arch: String)
    ensures
        arch@ == arch_of(capability),
{
    let mut arch = "sm_".to_owned();
    arch.append(text::decimal_text(capability.major as u64).as_str());
    arch.append(text::decimal_text(capability.minor as u64).as_str());
    arch
}

/// The order of capabilities: by the major part, then by the minor part.
pub open spec fn precedes(a: ComputeCapability, b: ComputeCapability) -> bool {
    a.major < b.major || (a.major == b.major && a.minor < b.minor)
}

/// Whether each capability precedes all that follow it.
pub open spec fn is_ascending(list: Seq<ComputeCapability>) -> bool {
    forall|i: int, j: int| 0 <= i < j < list.len() ==> precedes(#[trigger] list[i], #[trigger] list[j])
}

/// An ascending list with `capability` at its place in it, once.
pub open spec fn with_capability(
    list: Seq<ComputeCapability>,
    capability: ComputeCapability,
) -> Seq<ComputeCapability>
    decreases list.len(),
{
    if list.len() == 0 {
        seq![capability]
    } else if capability == list[0] {
        list
    } else if precedes(capability, list[0]) {
        seq![capability] + list
    } else {
        seq![list[0]] + with_capability(list.skip(1), capability)
    }
}

/// The different capabilities of a list, in ascending order.
pub open spec fn different(list: Seq<ComputeCapability>) -> Seq<ComputeCapability>
    decreases list.len(),
{
    if list.len() == 0 {
        Seq::empty()
    } else {
        with_capability(different(list.drop_last()), list.last())
    }
}

/// Where `place` parts an ascending list into what precedes a capability and
/// what does not, that is where the capability goes.
proof fn lemma_with_capability(
    list: Seq<ComputeCapability>,
    capability: ComputeCapability,
    place: int,
)
    requires
        0 <= place <= list.len(),
        forall|k: int| 0 <= k < place ==> precedes(#[trigger] list[k], capability),
        place < list.len() ==> !precedes(list[place], capability),
    ensures
        with_capability(list, capability) == if place < list.len() && list[place] == capability {
            list
        } else {
            list.insert(place, capability)
        },
    decreases list.len(),
{
    if place > 0 {
        let rest = list.skip(1);
        assert(precedes(list[0], capability));
        assert forall|k: int| 0 <= k < place - 1 implies precedes(#[trigger] rest[k], capability) by {
            assert(rest[k] == list[k + 1]);
        }
        lemma_with_capability(rest, capability, place - 1);
        if place < list.len() && list[place] == capability {
            assert(seq![list[0]] + rest =~= list);
        } else {
            assert(seq![list[0]] + rest.insert(place - 1, capability) =~= list.insert(
                place,
                capability,
            ));
        }
    } else if list.len() > 0 && list[0] != capability {
        assert(seq![capability] + list =~= list.insert(0, capability));
    } else if list.len() == 0 {
        assert(seq![capability] =~= list.insert(0, capability));
    }
}

/// Putting a capability into an ascending list keeps it ascending, and adds
/// that capability and no other.
proof fn lemma_with_capability_contents(
    list: Seq<ComputeCapability>,
    capability: ComputeCapability,
)
    requires
        is_ascending(list),
    ensures
        is_ascending(with_capability(list, capability)),
        forall|c: ComputeCapability| #[trigger]
            with_capability(list, capability).contains(c) <==> c == capability || list.contains(c),
    decreases list.len(),
{
    let whole = with_capability(list, capability);
    if list.len() == 0 {
        assert(whole[0] == capability);
    } else if capability == list[0] {
    } else if precedes(capability, list[0]) {
        assert(whole[0] == capability);
        assert(whole.skip(1) =~= list);
        assert forall|c: ComputeCapability| #[trigger]
            whole.contains(c) <==> c == capability || list.contains(c) by {
            if list.contains(c) {
                let k = choose|k: int| 0 <= k < list.len() && list[k] == c;
                assert(whole[k + 1] == c);
            }
        }
    } else {
        let rest = list.skip(1);
        let tail = with_capability(rest, capability);
        lemma_with_capability_contents(rest, capability);
        assert(whole =~= seq![list[0]] + tail);
        assert forall|c: ComputeCapability| #[trigger]
            whole.contains(c) <==> c == capability || list.contains(c) by {
            if whole.contains(c) {
                let k = choose|k: int| 0 <= k < whole.len() && whole[k] == c;
                if k > 0 {
                    assert(tail[k - 1] == c);
                    assert(tail.contains(c));
                    if rest.contains(c) {
                        let j = choose|j: int| 0 <= j < rest.len() && rest[j] == c;
                        assert(list[j + 1] == c);
                    }
                }
            }
            if c == capability || list.contains(c) {
                if list.contains(c) {
                    let k = choose|k: int| 0 <= k < list.len() && list[k] == c;
                    if k > 0 {
                        assert(rest[k - 1] == c);
                    } else {
                        assert(whole[0] == c);
                    }
                }
                if c == capability || rest.contains(c) {
                    assert(tail.contains(c));
                    let j = choose|j: int| 0 <= j < tail.len() && tail[j] == c;
                    assert(whole[j + 1] == c);
                }
            }
        }
        assert forall|i: int, j: int| 0 <= i < j < whole.len() implies precedes(
            #[trigger] whole[i],
            #[trigger] whole[j],
        ) by {
            assert(whole[j] == tail[j - 1]);
            if i == 0 {
                assert(tail.contains(tail[j - 1]));
                if rest.contains(tail[j - 1]) {
                    let k = choose|k: int| 0 <= k < rest.len() && rest[k] == tail[j - 1];
                    assert(list[k + 1] == tail[j - 1]);
                }
            } else {
                assert(whole[i] == tail[i - 1]);
            }
        }
    }
}

/// The different capabilities of a list are in ascending order, and are those
/// that the list holds.
pub proof fn law_different_capabilities(list: Seq<ComputeCapability>)
    ensures
        is_ascending(different(list)),
        forall|c: ComputeCapability| #[trigger] different(list).contains(c) <==> list.contains(c),
    decreases list.len(),
{
    if list.len() > 0 {
        let front = list.drop_last();
        law_different_capabilities(front);
        lemma_with_capability_contents(different(front), list.last());
        assert forall|c: ComputeCapability| #[trigger]
            different(list).contains(c) <==> list.contains(c) by {
            if front.contains(c) {
                let k = choose|k: int| 0 <= k < front.len() && front[k] == c;
                assert(list[k] == c);
            }
            if list.contains(c) && c != list.last() {
                let k = choose|k: int| 0 <= k < list.len() && list[k] == c;
                assert(front[k] == c);
            }
            assert(list[list.len() - 1] == list.last());
        }
    }
}

/// Whether all devices have the same capability.
pub open spec fn is_uniform(list: Seq<ComputeCapability>) -> bool {
    forall|i: int| 0 <= i < list.len() ==> #[trigger] list[i] == list[0]
}

/// The architecture that all devices share, or what is said where there is
/// none.
pub open spec fn uniform_arch(list: Seq<ComputeCapability>) -> Result<Seq<char>, Seq<char>> {
    if list.len() == 0 {
        Err("CUDA reported zero visible devices"@)
    } else if is_uniform(list) {
        Ok(arch_of(list[0]))
    } else {
        Err(
            "visible CUDA devices have different architectures ("@ + text::joined(
                archs_of(different(list)),
                ", "@,
            ) + ")"@,
        )
    }
}

/// A list is uniform if and only if it holds one capability.
proof fn lemma_uniform_has_one(list: Seq<ComputeCapability>)
    requires
        list.len() > 0,
    ensures
        is_uniform(list) == (different(list).len() == 1),
        is_uniform(list) ==> different(list)[0] == list[0],
{
    law_different_capabilities(list);
    let unique = different(list);
    assert(list.contains(list[0]));
    assert(unique.contains(list[0]));
    if unique.len() == 1 {
        assert forall|i: int| 0 <= i < list.len() implies #[trigger] list[i] == list[0] by {
            assert(list.contains(list[i]));
            assert(unique.contains(list[i]));
        }
    }
    if is_uniform(list) {
        assert forall|i: int| 0 <= i < unique.len() implies #[trigger] unique[i] == list[0] by {
            assert(unique.contains(unique[i]));
            assert(list.contains(unique[i]));
        }
        if unique.len() > 1 {
            assert(precedes(unique[0], unique[1]));
        }
    }
}

/// Chooses the architecture that all devices share.
pub fn select_uniform_arch(capabilities: &[ComputeCapability]) -> (selected: Result<String, String>)
    ensures
        text::outcome(selected) == uniform_arch(capabilities@),
{
    if capabilities.len() == 0 {
        return Err("CUDA reported zero visible devices".to_owned());
    }
    let mut unique: Vec<ComputeCapability> = Vec::new();
    for i in 0..capabilities.len()
        invariant
            unique@ == different(capabilities@.take(i as int)),
    {
        let capability = capabilities[i];
        let mut place: usize = 0;
        while place < unique.len() && (unique[place].major < capability.major || (
        unique[place].major == capability.major && unique[place].minor < capability.minor))
            invariant
                place <= unique.len(),
                forall|k: int| 0 <= k < place ==> precedes(#[trigger] unique@[k], capability),
            decreases unique.len() - place,
        {
            place = place + 1;
        }
        proof {
            lemma_with_capability(unique@, capability, place as int);
            assert(capabilities@.take(i + 1).drop_last() =~= capabilities@.take(i as int));
            assert(capabilities@.take(i + 1).last() == capability);
        }
        if !(place < unique.len() && unique[place] == capability) {
            unique.insert(place, capability);
        }
    }
    assert(capabilities@.take(capabilities@.len() as int) =~= capabilities@);
    proof {
        lemma_uniform_has_one(capabilities@);
    }
    if unique.len() != 1 {
        let mut architectures: Vec<String> = Vec::new();
        for i in 0..unique.len()
            invariant
                text::texts(architectures@) == archs_of(unique@.take(i as int)),
        {
            let ghost before = text::texts(architectures@);
            architectures.push(capability_to_arch(unique[i]));
            proof {
                let arch = arch_of(unique@[i as int]);
                assert(text::texts(architectures@) =~= before.push(arch));
                assert(archs_of(unique@.take(i + 1)) =~= archs_of(unique@.take(i as int)).push(arch));
            }
        }
        assert(unique@.take(unique@.len() as int) =~= unique@);
        let mut message = "visible CUDA devices have different architectures (".to_owned();
        message.append(text::join(&architectures, ", ").as_str());
        message.append(")");
        return Err(message);
    }
    Ok(capability_to_arch(unique[0]))
}

/// The architecture of every device has the form of an architecture name.
pub proof fn law_arch_of_a_device_is_valid(capability: ComputeCapability)
    ensures
        arch::is_arch_name(arch_of(capability)),
{
    let major = text::decimal(capability.major as nat);
    let minor = text::decimal(capability.minor as nat);
    let whole = arch_of(capability);
    text::lemma_decimal(capability.major as nat);
    text::lemma_decimal(capability.minor as nat);
    reveal_strlit("sm_");
    assert(whole.take(3) =~= "sm_"@);
    assert(whole.skip(3) =~= major + minor);
    assert forall|i: int| 0 <= i < (major + minor).len() implies standard::is_digit(
        #[trigger] (major + minor)[i],
    ) by {
        if i < major.len() {
            assert((major + minor)[i] == major[i]);
        } else {
            assert((major + minor)[i] == minor[i - major.len()]);
        }
    }
    assert(standard::is_digit((major + minor).last()));
}

/// Two ascending lists that hold the same capabilities are the same.
proof fn lemma_ascending_is_unique(a: Seq<ComputeCapability>, b: Seq<ComputeCapability>)
    requires
        is_ascending(a),
        is_ascending(b),
        forall|c: ComputeCapability| #[trigger] a.contains(c) <==> b.contains(c),
    ensures
        a == b,
    decreases a.len(),
{
    if a.len() == 0 {
        if b.len() > 0 {
            assert(b.contains(b[0]));
            assert(a.contains(b[0]));
        }
        assert(a =~= b);
    } else {
        assert(a.contains(a[0]));
        let j = choose|j: int| 0 <= j < b.len() && b[j] == a[0];
        assert(b.contains(b[0]));
        assert(a.contains(b[0]));
        let k = choose|k: int| 0 <= k < a.len() && a[k] == b[0];
        if j > 0 {
            assert(precedes(b[0], b[j]));
            if k > 0 {
                assert(precedes(a[0], a[k]));
            }
        }
        assert(a[0] == b[0]);
        let s = a.skip(1);
        let t = b.skip(1);
        assert forall|c: ComputeCapability| #[trigger] s.contains(c) <==> t.contains(c) by {
            if s.contains(c) {
                let m = choose|m: int| 0 <= m < s.len() && s[m] == c;
                assert(a[m + 1] == c && precedes(a[0], a[m + 1]));
                assert(a.contains(c));
                let n = choose|n: int| 0 <= n < b.len() && b[n] == c;
                assert(n > 0);
                assert(t[n - 1] == c);
            }
            if t.contains(c) {
                let m = choose|m: int| 0 <= m < t.len() && t[m] == c;
                assert(b[m + 1] == c && precedes(b[0], b[m + 1]));
                assert(b.contains(c));
                assert(a.contains(c));
                let n = choose|n: int| 0 <= n < a.len() && a[n] == c;
                assert(n > 0);
                assert(s[n - 1] == c);
            }
        }
        lemma_ascending_is_unique(s, t);
        assert(a =~= seq![a[0]] + s);
        assert(b =~= seq![b[0]] + t);
    }
}

/// Neither the order of the devices nor how many are alike matters: devices
/// with the same capabilities among them share the same architecture, or fail
/// to with the same message.
pub proof fn law_uniform_arch_ignores_order_and_repeats(
    a: Seq<ComputeCapability>,
    b: Seq<ComputeCapability>,
)
    requires
        forall|c: ComputeCapability| #[trigger] a.contains(c) <==> b.contains(c),
    ensures
        uniform_arch(a) == uniform_arch(b),
{
    law_different_capabilities(a);
    law_different_capabilities(b);
    lemma_ascending_is_unique(different(a), different(b));
    if a.len() > 0 {
        assert(a.contains(a[0]));
        assert(b.contains(a[0]));
        lemma_uniform_has_one(a);
    }
    if b.len() > 0 {
        assert(b.contains(b[0]));
        assert(a.contains(b[0]));
        lemma_uniform_has_one(b);
    }
}

/// Where the minor parts are one digit each, devices whose architectures have
/// the same name have the same capability.
pub proof fn law_arch_tells_capabilities_apart(a: ComputeCapability, b: ComputeCapability)
    requires
        a.minor < 10,
        b.minor < 10,
        arch_of(a) == arch_of(b),
    ensures
        a == b,
{
    reveal_strlit("sm_");
    let x = text::decimal(a.major as nat);
    let y = text::decimal(b.major as nat);
    assert(text::decimal(a.minor as nat) == seq![text::digit(a.minor as nat)]);
    assert(text::decimal(b.minor as nat) == seq![text::digit(b.minor as nat)]);
    assert(arch_of(a).last() == text::digit(a.minor as nat));
    assert(arch_of(b).last() == text::digit(b.minor as nat));
    assert(arch_of(a).drop_last().skip(3) =~= x);
    assert(arch_of(b).drop_last().skip(3) =~= y);
    text::law_decimal_is_injective(a.major as nat, b.major as nat);
}

/// What the selection of a shared architecture gives: devices share one if and
/// only if there are any and all have the same capability, and it is then named
/// by the two parts of that capability.
pub proof fn law_shared_architecture(
    capabilities: &[ComputeCapability],
    selected: Result<String, String>,
)
    requires
        call_ensures(select_uniform_arch, (capabilities,), selected),
    ensures
        selected is Ok <==> capabilities@.len() > 0 && forall|i: int, j: int|
            0 <= i < capabilities@.len() && 0 <= j < capabilities@.len()
                ==> #[trigger] capabilities@[i] == #[trigger] capabilities@[j],
        selected matches Ok(arch) ==> forall|i: int|
            0 <= i < capabilities@.len() ==> arch@ == "sm_"@ + text::decimal(
                (#[trigger] capabilities@[i]).major as nat,
            ) + text::decimal(capabilities@[i].minor as nat),
{
}

/// What naming the architecture of a device gives: `sm_`, the major part and the
/// minor part in decimal.
pub proof fn law_named_architecture(capability: ComputeCapability, arch: String)
    requires
        call_ensures(capability_to_arch, (capability,), arch),
    ensures
        arch@ == "sm_"@ + text::decimal(capability.major as nat) + text::decimal(
            capability.minor as nat,
        ),
        arch@ == arch_of(capability),
{
}

/// What is said where devices share no architecture: that there are none, or
/// which different ones there are, each once, by ascending major and then minor
/// part.
pub proof fn law_refused_devices(
    capabilities: &[ComputeCapability],
    selected: Result<String, String>,
)
    requires
        call_ensures(select_uniform_arch, (capabilities,), selected),
    ensures
        capabilities@.len() == 0 ==> (selected matches Err(message) && message@
            == "CUDA reported zero visible devices"@),
        capabilities@.len() > 0 ==> (selected matches Err(message) ==> {
            let listed = different(capabilities@);
            &&& forall|i: int, j: int|
                0 <= i < j < listed.len() ==> {
                    ||| (#[trigger] listed[i]).major < (#[trigger] listed[j]).major
                    ||| listed[i].major == listed[j].major && listed[i].minor < listed[j].minor
                }
            &&& forall|c: ComputeCapability| #[trigger]
                listed.contains(c) <==> capabilities@.contains(c)
            &&& message@ == "visible CUDA devices have different architectures ("@ + text::joined(
                Seq::new(
                    listed.len(),
                    |i: int|
                        "sm_"@ + text::decimal(listed[i].major as nat) + text::decimal(
                            listed[i].minor as nat,
                        ),
                ),
                ", "@,
            ) + ")"@
        }),
{
    let listed = different(capabilities@);
    law_different_capabilities(capabilities@);
    assert forall|i: int, j: int| 0 <= i < j < listed.len() implies {
        ||| (#[trigger] listed[i]).major < (#[trigger] listed[j]).major
        ||| listed[i].major == listed[j].major && listed[i].minor < listed[j].minor
    } by {
        assert(precedes(listed[i], listed[j]));
    }
    assert(archs_of(listed) =~= Seq::new(
        listed.len(),
        |i: int|
            "sm_"@ + text::decimal(listed[i].major as nat) + text::decimal(
                listed[i].minor as nat,
            ),
    ));
}

} // verus!
