//! Patching the launcher's instance configuration, an INI file, through
//! configparser: edits are upserts, and the text written is a function of the
//! starting text and the edits.

use vstd::prelude::*;
use vstd::string::*;
use configparser::ini::Ini;
use crate::error::InstallError;
use crate::instance::pre_launch_command;

verus! {

#[verifier::external_type_specification]
#[verifier::external_body]
pub struct ExIni(Ini);

/// The keys of one section, in order, each with its value if it has one.
pub type KeyValues = Seq<(Seq<char>, Option<Seq<char>>)>;

/// The sections of a configuration, in order, with their keys.
pub type Sections = Seq<(Seq<char>, KeyValues)>;

/// The sections and keys that an `Ini` holds, in insertion order.
pub uninterp spec fn ini_sections(ini: Ini) -> Sections;

/// What `Ini::read` on a case-sensitive `Ini` makes of a text: `None` where
/// the text does not parse.
pub uninterp spec fn ini_parse_of(text: Seq<char>) -> Option<Sections>;

/// The text that `Ini::pretty_writes` gives for the sections of a
/// case-sensitive `Ini`, with `" = "` between key and value, an indentation
/// of two and one blank line between sections; lines end as the build
/// target's do.
pub uninterp spec fn ini_text_of(sections: Sections) -> Seq<char>;

/// Relies on `Ini::new_cs`: a case-sensitive configuration with nothing in it.
#[verifier::external_body]
fn ini_new() -> (r: Ini)
    ensures
        ini_sections(r) == Seq::<(Seq<char>, KeyValues)>::empty(),
{
    Ini::new_cs()
}

/// Relies on `Ini::read`: replaces the contents with the parsed text, or
/// leaves them as they were where the text does not parse.
#[verifier::external_body]
fn ini_read(ini: &mut Ini, text: String) -> (r: bool)
    ensures
        r <==> ini_parse_of(text@) is Some,
        r ==> ini_sections(*final(ini)) == ini_parse_of(text@)->0,
        !r ==> ini_sections(*final(ini)) == ini_sections(*old(ini)),
{
    ini.read(text).is_ok()
}

/// The key-value pairs with `key` set to `value`: in its place where the key
/// is present, appended where it is not.
pub open spec fn upsert_key(kvs: KeyValues, key: Seq<char>, value: Option<Seq<char>>) -> KeyValues {
    if exists|i: int| 0 <= i < kvs.len() && (#[trigger] kvs[i]).0 == key {
        let i = choose|i: int| 0 <= i < kvs.len() && (#[trigger] kvs[i]).0 == key;
        kvs.update(i, (key, value))
    } else {
        kvs.push((key, value))
    }
}

/// The sections with `key` of `section` set to `value`; a missing section is
/// appended, holding that key alone.
pub open spec fn upsert(
    secs: Sections,
    section: Seq<char>,
    key: Seq<char>,
    value: Option<Seq<char>>,
) -> Sections {
    if exists|i: int| 0 <= i < secs.len() && (#[trigger] secs[i]).0 == section {
        let i = choose|i: int| 0 <= i < secs.len() && (#[trigger] secs[i]).0 == section;
        secs.update(i, (section, upsert_key(secs[i].1, key, value)))
    } else {
        secs.push((section, seq![(key, value)]))
    }
}

/// Relies on `Ini::set` of a case-sensitive `Ini`, whose map keeps insertion
/// order: sets one key of one section, creating either where missing.
#[verifier::external_body]
fn ini_set(ini: &mut Ini, section: &str, key: &str, value: String)
    ensures
        ini_sections(*final(ini)) == upsert(ini_sections(*old(ini)), section@, key@, Some(value@)),
{
    ini.set(section, key, Some(value));
}

/// Relies on `Ini::pretty_writes` with `WriteOptions::new_with_params(true, 2, 1)`.
#[verifier::external_body]
fn ini_pretty_text(ini: &Ini) -> (r: String)
    ensures
        r@ == ini_text_of(ini_sections(*ini)),
{
    ini.pretty_writes(&configparser::ini::WriteOptions::new_with_params(true, 2, 1))
}

/// One key to set in one section.
pub struct ConfigEdit {
    pub section: String,
    pub key: String,
    pub value: String,
}

/// The sections after applying `edits` in order.
pub open spec fn apply_edits(secs: Sections, edits: Seq<ConfigEdit>) -> Sections
    decreases edits.len(),
{
    if edits.len() == 0 {
        secs
    } else {
        let e = edits.last();
        upsert(apply_edits(secs, edits.drop_last()), e.section@, e.key@, Some(e.value@))
    }
}

/// The text that patching gives: `None` where a present file does not parse.
pub open spec fn patched_text(existing: Option<Seq<char>>, edits: Seq<ConfigEdit>) -> Option<Seq<char>> {
    match existing {
        None => Some(ini_text_of(apply_edits(Seq::empty(), edits))),
        Some(t) => match ini_parse_of(t) {
            None => None,
            Some(secs) => Some(ini_text_of(apply_edits(secs, edits))),
        },
    }
}

/// Applies `edits` to a configuration file's text, `existing` being `None`
/// where there is no file yet, and gives the text to write back. A present
/// text that does not parse is a `Format` error.
pub fn patch_config_text(existing: Option<String>, edits: &Vec<ConfigEdit>) -> (r: Result<
    String,
    InstallError,
>)
    ensures
        match patched_text(
            match existing {
                Some(t) => Some(t@),
                None => None,
            },
            edits@,
        ) {
            Some(t) => r is Ok && r->Ok_0@ == t,
            None => r is Err && r->Err_0 is Format,
        },
{
    let mut ini = ini_new();
    match existing {
        Some(text) => {
            if !ini_read(&mut ini, text) {
                return Err(InstallError::Format(String::from_str("Failed to parse instance config")));
            }
        },
        None => {},
    }
    let ghost start = ini_sections(ini);
    let mut i: usize = 0;
    while i < edits.len()
        invariant
            i <= edits@.len(),
            ini_sections(ini) == apply_edits(start, edits@.subrange(0, i as int)),
        decreases edits@.len() - i,
    {
        let e = &edits[i];
        ini_set(&mut ini, e.section.as_str(), e.key.as_str(), e.value.clone());
        proof {
            let p = edits@.subrange(0, i + 1);
            assert(p.drop_last() =~= edits@.subrange(0, i as int));
            assert(p.last() == edits@[i as int]);
        }
        i = i + 1;
    }
    assert(edits@.subrange(0, edits@.len() as int) =~= edits@);
    Ok(ini_pretty_text(&ini))
}

/// Patching is deterministic: two runs with the same edits on the same
/// starting file write the same text.
pub proof fn lemma_patch_deterministic(
    existing: Option<Seq<char>>,
    edits: Seq<ConfigEdit>,
    first: Seq<char>,
    second: Seq<char>,
)
    requires
        patched_text(existing, edits) == Some(first),
        patched_text(existing, edits) == Some(second),
    ensures
        first == second,
{
}

/// The edits that point an instance at the pack: the pre-launch command with
/// the pack's address, command overriding on, its display name and its icon.
pub fn instance_config_edits(name: &str, packwiz_url: &str, icon_key: &str) -> (r: Vec<ConfigEdit>)
    ensures
        r@.len() == 4,
        forall|i: int| 0 <= i < 4 ==> (#[trigger] r@[i]).section@ == "General"@,
        r@[0].key@ == "PreLaunchCommand"@,
        r@[0].value@ == crate::instance::pre_launch_spec(packwiz_url@),
        r@[1].key@ == "OverrideCommands"@,
        r@[1].value@ == "true"@,
        r@[2].key@ == "name"@,
        r@[2].value@ == name@,
        r@[3].key@ == "iconKey"@,
        r@[3].value@ == icon_key@,
{
    let mut r: Vec<ConfigEdit> = Vec::new();
    r.push(ConfigEdit {
        section: String::from_str("General"),
        key: String::from_str("PreLaunchCommand"),
        value: pre_launch_command(packwiz_url),
    });
    r.push(ConfigEdit {
        section: String::from_str("General"),
        key: String::from_str("OverrideCommands"),
        value: String::from_str("true"),
    });
    r.push(ConfigEdit {
        section: String::from_str("General"),
        key: String::from_str("name"),
        value: String::from_str(name),
    });
    r.push(ConfigEdit {
        section: String::from_str("General"),
        key: String::from_str("iconKey"),
        value: String::from_str(icon_key),
    });
    r
}

} // verus!
