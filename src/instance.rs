//! Names and arguments of the launcher instance: a collision-free directory
//! name, the pre-launch command, launch and shortcut arguments.

use vstd::prelude::*;
use vstd::string::*;
use crate::error::InstallError;
use crate::text::{answered, decimal, decimal_string};

verus! {

/// How many numbered names are tried after the plain one.
pub const MAX_SUFFIX: u64 = 50;

/// The numbered form `"{desired} ({i})"` of a name.
pub open spec fn numbered_name(desired: Seq<char>, i: nat) -> Seq<char> {
    desired + " ("@ + decimal(i) + ")"@
}

/// The `k`-th name tried: the desired name first, then its numbered forms
/// from 0 upwards.
pub open spec fn candidate(desired: Seq<char>, k: nat) -> Seq<char> {
    if k == 0 {
        desired
    } else {
        numbered_name(desired, (k - 1) as nat)
    }
}

/// The text of `"{desired} ({i})"`.
pub fn numbered_instance_name(desired: &str, i: u64) -> (r: String)
    ensures
        r@ == numbered_name(desired@, i as nat),
{
    let mut r = String::from_str(desired);
    r.append(" (");
    let digits = decimal_string(i);
    r.append(digits.as_str());
    r.append(")");
    r
}

/// Picks the name of a new instance directory. `is_taken` tells whether a name
/// is taken; names are tried in order (the desired one, then `" (0)"` to
/// `" (49)"` appended) and the first free one is returned.
pub fn allocate_instance_name<F: Fn(&str) -> bool>(desired: &str, is_taken: &F) -> (r: Result<
    String,
    InstallError,
>)
    requires
        forall|s: &str| #[trigger] is_taken.requires((s,)),
    ensures
        match r {
            Ok(name) => exists|k: nat| {
                &&& k <= MAX_SUFFIX
                &&& name@ == #[trigger] candidate(desired@, k)
                &&& answered(*is_taken, name@, false)
                &&& forall|j: nat| j < k ==> answered(*is_taken, #[trigger] candidate(desired@, j), true)
            },
            Err(e) => {
                &&& e is AllocationExhausted
                &&& forall|j: nat| j <= MAX_SUFFIX ==> answered(*is_taken, #[trigger] candidate(desired@, j), true)
            },
        },
{
    if !is_taken(desired) {
        let name = String::from_str(desired);
        assert(answered(*is_taken, name@, false));
        assert(name@ == candidate(desired@, 0nat));
        return Ok(name);
    }
    assert(answered(*is_taken, candidate(desired@, 0), true));
    let mut i: u64 = 0;
    while i < MAX_SUFFIX
        invariant
            i <= MAX_SUFFIX,
            forall|s: &str| #[trigger] is_taken.requires((s,)),
            forall|j: nat| j <= i ==> answered(*is_taken, #[trigger] candidate(desired@, j), true),
        decreases MAX_SUFFIX - i,
    {
        let name = numbered_instance_name(desired, i);
        let taken = is_taken(name.as_str());
        assert(candidate(desired@, (i + 1) as nat) == name@);
        if !taken {
            assert(answered(*is_taken, name@, false));
            return Ok(name);
        }
        assert(answered(*is_taken, candidate(desired@, (i + 1) as nat), true));
        i = i + 1;
    }
    Err(InstallError::AllocationExhausted)
}

/// The command the launcher runs before the game starts: the bootstrap jar
/// with the pack's address.
pub open spec fn pre_launch_spec(packwiz_url: Seq<char>) -> Seq<char> {
    "$INST_JAVA -jar packwiz_bootstrap.jar "@ + packwiz_url
}

pub fn pre_launch_command(packwiz_url: &str) -> (r: String)
    ensures
        r@ == pre_launch_spec(packwiz_url@),
{
    let mut r = String::from_str("$INST_JAVA -jar packwiz_bootstrap.jar ");
    r.append(packwiz_url);
    r
}

/// The arguments that start the launcher on an instance.
pub fn launch_arguments(instance_name: &str) -> (r: Vec<String>)
    ensures
        r@.len() == 2,
        r@[0]@ == "-l"@,
        r@[1]@ == instance_name@,
{
    let mut r: Vec<String> = Vec::new();
    r.push(String::from_str("-l"));
    r.push(instance_name.to_string());
    r
}

/// The argument line of a desktop shortcut to an instance: `-l "{name}"`.
pub fn shortcut_arguments(instance_name: &str) -> (r: String)
    ensures
        r@ == "-l \""@ + instance_name@ + "\""@,
{
    let mut r = String::from_str("-l \"");
    r.append(instance_name);
    r.append("\"");
    r
}

/// The file name of a shortcut: `{display_name}.lnk`.
pub fn shortcut_file_name(display_name: &str) -> (r: String)
    ensures
        r@ == display_name@ + ".lnk"@,
{
    let mut r = String::from_str(display_name);
    r.append(".lnk");
    r
}

} // verus!
