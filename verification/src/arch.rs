//! Names of GPU architectures, such as `sm_87` or `sm_110a`.
use vstd::prelude::*;

use crate::standard;
use crate::text;

verus! {

/// The architectures for which CUTLASS has kernels of the Blackwell family.
pub open spec fn in_sm100_family(arch: Seq<char>) -> bool {
    ||| arch == "sm_100"@
    ||| arch == "sm_100a"@
    ||| arch == "sm_101"@
    ||| arch == "sm_101a"@
    ||| arch == "sm_110"@
    ||| arch == "sm_110a"@
    ||| arch == "sm_120"@
    ||| arch == "sm_120a"@
    ||| arch == "sm_121"@
    ||| arch == "sm_121a"@
}

/// Whether CUTLASS has kernels of the Blackwell family for `arch`.
pub fn is_cutlass_sm100_family(arch: &str) -> (member: bool)
    ensures
        member == in_sm100_family(arch@),
{
    text::same_text(arch, "sm_100") || text::same_text(arch, "sm_100a")
        || text::same_text(arch, "sm_101") || text::same_text(arch, "sm_101a")
        || text::same_text(arch, "sm_110") || text::same_text(arch, "sm_110a")
        || text::same_text(arch, "sm_120") || text::same_text(arch, "sm_120a")
        || text::same_text(arch, "sm_121") || text::same_text(arch, "sm_121a")
}

/// The text without the letter `a` at its end.
pub open spec fn without_final_a(suffix: Seq<char>) -> Seq<char> {
    if ends_in_a(suffix) {
        suffix.drop_last()
    } else {
        suffix
    }
}

/// Whether the last character is the letter `a`.
pub open spec fn ends_in_a(arch: Seq<char>) -> bool {
    arch.len() > 0 && arch.last() == 'a'
}

/// The form of an architecture name: `sm_`, two or more decimal digits, and
/// perhaps the letter `a`.
pub open spec fn is_arch_name(arch: Seq<char>) -> bool {
    &&& arch.len() >= 3
    &&& arch.take(3) == "sm_"@
    &&& without_final_a(arch.skip(3)).len() >= 2
    &&& standard::all_digits(without_final_a(arch.skip(3)))
}

/// The message about a text that is no architecture name, with the text quoted
/// in it.
pub open spec fn arch_name_message(quoted: Seq<char>) -> Seq<char> {
    "invalid CUDA architecture "@ + quoted
        + "; expected a value such as sm_87, sm_101, or sm_110"@
}

/// What is said of a text that is no architecture name.
pub open spec fn arch_name_error(arch: Seq<char>) -> Seq<char> {
    arch_name_message(standard::debug_form(arch))
}

/// Puts a quoted text into the message that it is no architecture name.
pub fn reject_arch_name(quoted: &str) -> (message: String)
    ensures
        message@ == arch_name_message(quoted@),
{
    let mut message = "invalid CUDA architecture ".to_owned();
    message.append(quoted);
    message.append("; expected a value such as sm_87, sm_101, or sm_110");
    message
}

/// Whether `arch` has the form of an architecture name.
fn has_arch_form(arch: &str) -> (valid: bool)
    ensures
        valid == is_arch_name(arch@),
{
    let chars = text::characters(arch);
    proof {
        reveal_strlit("sm_");
        if arch@.len() >= 3 {
            assert(arch@.take(3) == "sm_"@ <==> arch@[0] == 's' && arch@[1] == 'm' && arch@[2]
                == '_') by {
                if arch@[0] == 's' && arch@[1] == 'm' && arch@[2] == '_' {
                    assert(arch@.take(3) =~= "sm_"@);
                } else if arch@.take(3) == "sm_"@ {
                    assert(arch@.take(3)[0] == 's');
                    assert(arch@.take(3)[1] == 'm');
                    assert(arch@.take(3)[2] == '_');
                }
            }
        }
    }
    if chars.len() < 3 || chars[0] != 's' || chars[1] != 'm' || chars[2] != '_' {
        return false;
    }
    let end: usize = if chars.len() > 3 && chars[chars.len() - 1] == 'a' {
        chars.len() - 1
    } else {
        chars.len()
    };
    let ghost digits = without_final_a(arch@.skip(3));
    assert(digits =~= arch@.subrange(3, end as int));
    if end - 3 < 2 {
        return false;
    }
    let mut i: usize = 3;
    while i < end
        invariant
            3 <= i <= end <= chars.len(),
            chars@ == arch@,
            digits == arch@.subrange(3, end as int),
            digits == without_final_a(arch@.skip(3)),
            forall|k: int| 0 <= k < i - 3 ==> standard::is_digit(#[trigger] digits[k]),
        decreases end - i,
    {
        assert(digits[i - 3] == chars@[i as int]);
        if chars[i] < '0' || chars[i] > '9' {
            return false;
        }
        i = i + 1;
    }
    true
}

/// Accepts `arch` where it has the form of an architecture name.
pub fn validate_arch_name(arch: &str) -> (valid: Result<&str, String>)
    ensures
        match valid {
            Ok(name) => is_arch_name(arch@) && name@ == arch@,
            Err(message) => !is_arch_name(arch@) && message@ == arch_name_error(arch@),
        },
{
    if has_arch_form(arch) {
        Ok(arch)
    } else {
        Err(reject_arch_name(standard::debug_text(arch).as_str()))
    }
}

/// The architecture that CUTLASS is compiled for beside `arch`: a member of the
/// Blackwell family in its architecture-specific form, and any other unchanged.
pub open spec fn cutlass_arch(arch: Seq<char>) -> Seq<char> {
    if in_sm100_family(arch) && !ends_in_a(arch) {
        arch.push('a')
    } else {
        arch
    }
}

/// Chooses the architecture that CUTLASS is compiled for beside `nvcc_arch`.
pub fn cutlass_arch_for(nvcc_arch: &str) -> (arch: String)
    ensures
        arch@ == cutlass_arch(nvcc_arch@),
{
    let mut arch = nvcc_arch.to_owned();
    let chars = text::characters(nvcc_arch);
    let specific = chars.len() > 0 && chars[chars.len() - 1] == 'a';
    if is_cutlass_sm100_family(nvcc_arch) && !specific {
        arch.push('a');
    }
    arch
}

/// What the names of the Blackwell family look like.
proof fn lemma_sm100_family_shape(arch: Seq<char>)
    requires
        in_sm100_family(arch),
    ensures
        is_arch_name(arch),
        arch.len() == 6 || arch.len() == 7,
        ends_in_a(arch) == (arch.len() == 7),
{
    reveal_strlit("sm_");
    reveal_strlit("sm_100");
    reveal_strlit("sm_100a");
    reveal_strlit("sm_101");
    reveal_strlit("sm_101a");
    reveal_strlit("sm_110");
    reveal_strlit("sm_110a");
    reveal_strlit("sm_120");
    reveal_strlit("sm_120a");
    reveal_strlit("sm_121");
    reveal_strlit("sm_121a");
    assert(arch.take(3) =~= "sm_"@);
}

/// Each member of the Blackwell family has the form of an architecture name.
pub proof fn law_sm100_family_is_valid(arch: Seq<char>)
    requires
        in_sm100_family(arch),
    ensures
        is_arch_name(arch),
{
    lemma_sm100_family_shape(arch);
}

/// The architecture chosen for CUTLASS is in the Blackwell family if and only
/// if the one it was chosen for is, and is then architecture-specific.
pub proof fn law_cutlass_arch_keeps_the_family(arch: Seq<char>)
    ensures
        in_sm100_family(cutlass_arch(arch)) == in_sm100_family(arch),
        in_sm100_family(arch) ==> ends_in_a(cutlass_arch(arch)),
{
    if in_sm100_family(arch) && !ends_in_a(arch) {
        lemma_sm100_family_shape(arch);
        reveal_strlit("sm_100");
        reveal_strlit("sm_100a");
        reveal_strlit("sm_101");
        reveal_strlit("sm_101a");
        reveal_strlit("sm_110");
        reveal_strlit("sm_110a");
        reveal_strlit("sm_120");
        reveal_strlit("sm_120a");
        reveal_strlit("sm_121");
        reveal_strlit("sm_121a");
        if arch == "sm_100"@ {
            assert(arch.push('a') =~= "sm_100a"@);
        } else if arch == "sm_101"@ {
            assert(arch.push('a') =~= "sm_101a"@);
        } else if arch == "sm_110"@ {
            assert(arch.push('a') =~= "sm_110a"@);
        } else if arch == "sm_120"@ {
            assert(arch.push('a') =~= "sm_120a"@);
        } else {
            assert(arch.push('a') =~= "sm_121a"@);
        }
    }
}

/// Choosing an architecture for CUTLASS a second time changes nothing.
pub proof fn law_cutlass_arch_is_idempotent(arch: Seq<char>)
    ensures
        cutlass_arch(cutlass_arch(arch)) == cutlass_arch(arch),
{
    law_cutlass_arch_keeps_the_family(arch);
}

/// The architecture chosen for CUTLASS has the form of an architecture name
/// where the one it was chosen for has.
pub proof fn law_cutlass_arch_is_valid(arch: Seq<char>)
    requires
        is_arch_name(arch),
    ensures
        is_arch_name(cutlass_arch(arch)),
{
    if in_sm100_family(arch) {
        law_cutlass_arch_keeps_the_family(arch);
        lemma_sm100_family_shape(cutlass_arch(arch));
    }
}

/// An architecture name is `sm_` and two or more decimal digits, with or without
/// the letter `a` behind them, and nothing else is one.
pub proof fn law_the_form_of_a_name(arch: Seq<char>)
    ensures
        is_arch_name(arch) <==> exists|digits: Seq<char>|
            {
                &&& digits.len() >= 2
                &&& forall|k: int| 0 <= k < digits.len() ==> '0' <= #[trigger] digits[k] <= '9'
                &&& arch == #[trigger] ("sm_"@ + digits) || arch == ("sm_"@ + digits).push('a')
            },
{
    reveal_strlit("sm_");
    if is_arch_name(arch) {
        let digits = without_final_a(arch.skip(3));
        assert forall|k: int| 0 <= k < digits.len() implies '0' <= #[trigger] digits[k] <= '9' by {
            assert(standard::is_digit(digits[k]));
        }
        assert(arch =~= arch.take(3) + arch.skip(3));
        if ends_in_a(arch.skip(3)) {
            assert(arch =~= ("sm_"@ + digits).push('a'));
        } else {
            assert(arch =~= "sm_"@ + digits);
        }
    }
    if exists|digits: Seq<char>|
        {
            &&& digits.len() >= 2
            &&& forall|k: int| 0 <= k < digits.len() ==> '0' <= #[trigger] digits[k] <= '9'
            &&& arch == #[trigger] ("sm_"@ + digits) || arch == ("sm_"@ + digits).push('a')
        } {
        let digits = choose|digits: Seq<char>|
            {
                &&& digits.len() >= 2
                &&& forall|k: int| 0 <= k < digits.len() ==> '0' <= #[trigger] digits[k] <= '9'
                &&& arch == #[trigger] ("sm_"@ + digits) || arch == ("sm_"@ + digits).push('a')
            };
        assert(arch.take(3) =~= "sm_"@);
        assert('0' <= digits[digits.len() - 1] <= '9');
        if arch == "sm_"@ + digits {
            assert(arch.skip(3) =~= digits);
            assert(arch.skip(3).last() == digits[digits.len() - 1]);
        } else {
            assert(arch.skip(3) =~= digits.push('a'));
            assert(arch.skip(3).drop_last() =~= digits);
        }
    }
}

/// What validating a name gives: the name where it has the form of one, and
/// else a message that quotes it.
pub proof fn law_validated_names(arch: &str, valid: Result<&str, String>)
    requires
        call_ensures(validate_arch_name, (arch,), valid),
    ensures
        valid is Ok <==> is_arch_name(arch@),
        valid matches Ok(name) ==> name@ == arch@,
        valid matches Err(message) ==> message@ == "invalid CUDA architecture "@
            + standard::debug_form(arch@)
            + "; expected a value such as sm_87, sm_101, or sm_110"@,
{
}

/// What the message about a rejected name is.
pub proof fn law_rejected_names(quoted: &str, message: String)
    requires
        call_ensures(reject_arch_name, (quoted,), message),
    ensures
        message@ == "invalid CUDA architecture "@ + quoted@
            + "; expected a value such as sm_87, sm_101, or sm_110"@,
{
}

/// The names of the Blackwell family in decimal.
pub proof fn lemma_sm100_numbers()
    ensures
        "sm_"@ + text::decimal(100) == "sm_100"@,
        "sm_"@ + text::decimal(101) == "sm_101"@,
        "sm_"@ + text::decimal(110) == "sm_110"@,
        "sm_"@ + text::decimal(120) == "sm_120"@,
        "sm_"@ + text::decimal(121) == "sm_121"@,
        "sm_100"@.push('a') == "sm_100a"@,
        "sm_101"@.push('a') == "sm_101a"@,
        "sm_110"@.push('a') == "sm_110a"@,
        "sm_120"@.push('a') == "sm_120a"@,
        "sm_121"@.push('a') == "sm_121a"@,
{
    reveal_strlit("sm_");
    reveal_strlit("sm_100");
    reveal_strlit("sm_100a");
    reveal_strlit("sm_101");
    reveal_strlit("sm_101a");
    reveal_strlit("sm_110");
    reveal_strlit("sm_110a");
    reveal_strlit("sm_120");
    reveal_strlit("sm_120a");
    reveal_strlit("sm_121");
    reveal_strlit("sm_121a");
    reveal_with_fuel(text::decimal, 4);
    assert("sm_"@ + text::decimal(100) =~= "sm_100"@);
    assert("sm_"@ + text::decimal(101) =~= "sm_101"@);
    assert("sm_"@ + text::decimal(110) =~= "sm_110"@);
    assert("sm_"@ + text::decimal(120) =~= "sm_120"@);
    assert("sm_"@ + text::decimal(121) =~= "sm_121"@);
    assert("sm_100"@.push('a') =~= "sm_100a"@);
    assert("sm_101"@.push('a') =~= "sm_101a"@);
    assert("sm_110"@.push('a') =~= "sm_110a"@);
    assert("sm_120"@.push('a') =~= "sm_120a"@);
    assert("sm_121"@.push('a') =~= "sm_121a"@);
}

/// The Blackwell family is made of five numbers: a name is in it if and only if
/// it is `sm_` and one of them, with or without the letter `a` behind it.
pub proof fn law_members_of_the_sm100_family(arch: &str, member: bool)
    requires
        call_ensures(is_cutlass_sm100_family, (arch,), member),
    ensures
        member == in_sm100_family(arch@),
        member <==> exists|sm: nat|
            {
                &&& sm == 100 || sm == 101 || sm == 110 || sm == 120 || sm == 121
                &&& arch@ == "sm_"@ + #[trigger] text::decimal(sm) || arch@ == ("sm_"@
                    + text::decimal(sm)).push('a')
            },
{
    lemma_sm100_numbers();
    if member {
        let sm: nat = if arch@ == "sm_100"@ || arch@ == "sm_100a"@ {
            100
        } else if arch@ == "sm_101"@ || arch@ == "sm_101a"@ {
            101
        } else if arch@ == "sm_110"@ || arch@ == "sm_110a"@ {
            110
        } else if arch@ == "sm_120"@ || arch@ == "sm_120a"@ {
            120
        } else {
            121
        };
        assert(arch@ == "sm_"@ + text::decimal(sm) || arch@ == ("sm_"@ + text::decimal(sm)).push(
            'a',
        ));
    }
}

/// What the choice for CUTLASS gives: `sm_` and one of the five numbers of the
/// Blackwell family gets the letter `a` put behind it, and every other name is
/// given back as it is.
pub proof fn law_chosen_for_cutlass(nvcc_arch: &str, arch: String)
    requires
        call_ensures(cutlass_arch_for, (nvcc_arch,), arch),
    ensures
        forall|sm: nat|
            (sm == 100 || sm == 101 || sm == 110 || sm == 120 || sm == 121) && nvcc_arch@ == "sm_"@
                + #[trigger] text::decimal(sm) ==> arch@ == nvcc_arch@.push('a'),
        (forall|sm: nat|
            sm == 100 || sm == 101 || sm == 110 || sm == 120 || sm == 121 ==> nvcc_arch@ != "sm_"@
                + #[trigger] text::decimal(sm)) ==> arch@ == nvcc_arch@,
{
    law_cutlass_arch_adds_the_letter(nvcc_arch@);
}

/// The architecture chosen for CUTLASS is the name itself, and behind it the
/// letter `a` where the name is `sm_` and one of the five numbers of the
/// Blackwell family.
pub proof fn law_cutlass_arch_adds_the_letter(arch: Seq<char>)
    ensures
        forall|sm: nat|
            (sm == 100 || sm == 101 || sm == 110 || sm == 120 || sm == 121) && arch == "sm_"@
                + #[trigger] text::decimal(sm) ==> cutlass_arch(arch) == arch.push('a'),
        (forall|sm: nat|
            sm == 100 || sm == 101 || sm == 110 || sm == 120 || sm == 121 ==> arch != "sm_"@
                + #[trigger] text::decimal(sm)) ==> cutlass_arch(arch) == arch,
{
    lemma_sm100_numbers();
    if in_sm100_family(arch) {
        lemma_sm100_family_shape(arch);
    }
    reveal_strlit("sm_100");
    reveal_strlit("sm_100a");
    reveal_strlit("sm_101");
    reveal_strlit("sm_101a");
    reveal_strlit("sm_110");
    reveal_strlit("sm_110a");
    reveal_strlit("sm_120");
    reveal_strlit("sm_120a");
    reveal_strlit("sm_121");
    reveal_strlit("sm_121a");
    if forall|sm: nat|
        sm == 100 || sm == 101 || sm == 110 || sm == 120 || sm == 121 ==> arch != "sm_"@
            + #[trigger] text::decimal(sm) {
        assert(arch != "sm_"@ + text::decimal(100));
        assert(arch != "sm_"@ + text::decimal(101));
        assert(arch != "sm_"@ + text::decimal(110));
        assert(arch != "sm_"@ + text::decimal(120));
        assert(arch != "sm_"@ + text::decimal(121));
    }
}

} // verus!
