//! Reading the sections and keys of an INI file through the `ini` crate.

use vstd::prelude::*;

verus! {

/// The keys of one section with the first value of each.
pub type Props = Map<Seq<char>, Seq<char>>;

/// The named sections of a file: under each name its occurrences in the
/// order of the file.
pub type Sections = Map<Seq<char>, Seq<Props>>;

/// The occurrences of the section `name`, in the order of the file.
pub open spec fn occurrences(sections: Sections, name: Seq<char>) -> Seq<Props> {
    if sections.contains_key(name) {
        sections[name]
    } else {
        Seq::empty()
    }
}

/// The first value of `key` in a section, if the section has the key.
pub open spec fn field(props: Props, key: Seq<char>) -> Option<Seq<char>> {
    if props.contains_key(key) {
        Some(props[key])
    } else {
        None
    }
}

/// The named sections that an `ini::Ini` holds.
pub uninterp spec fn ini_sections(i: ini::Ini) -> Sections;

/// The keys that an `ini::Properties` holds, with the first value of each.
pub uninterp spec fn properties(p: ini::Properties) -> Props;

/// The named sections that `ini::Ini::load_from_str` reads from a text, or
/// `None` where it refuses the text.
pub uninterp spec fn parsed_ini(text: Seq<char>) -> Option<Sections>;

#[verifier::external_type_specification]
#[verifier::external_body]
pub struct ExIni(ini::Ini);

#[verifier::external_type_specification]
#[verifier::external_body]
pub struct ExProperties(ini::Properties);

#[verifier::external_type_specification]
#[verifier::external_body]
pub struct ExIniParseError(ini::ParseError);

/// `ini::Ini::load_from_str`: parses a text into its sections; what it reads
/// depends on the text alone.
#[verifier::external_body]
pub(crate) fn load_ini(text: &str) -> (r: Result<ini::Ini, ini::ParseError>)
    ensures
        match r {
            Ok(i) => parsed_ini(text@) == Some(ini_sections(i)),
            Err(_) => parsed_ini(text@) is None,
        },
{
    ini::Ini::load_from_str(text)
}

/// `ini::Ini::section` with a name: the first section of that name, if
/// there is one.
#[verifier::external_body]
pub(crate) fn ini_section<'a>(ini: &'a ini::Ini, name: &str) -> (r: Option<&'a ini::Properties>)
    ensures
        match r {
            Some(p) => occurrences(ini_sections(*ini), name@).len() > 0 && properties(*p)
                == occurrences(ini_sections(*ini), name@)[0],
            None => occurrences(ini_sections(*ini), name@).len() == 0,
        },
{
    ini.section(Some(name))
}

/// `ini::Ini::section_all` with a name: every section of that name, in the
/// order of the file.
#[verifier::external_body]
pub(crate) fn ini_section_all<'a>(ini: &'a ini::Ini, name: &str) -> (r: Vec<&'a ini::Properties>)
    ensures
        r@.len() == occurrences(ini_sections(*ini), name@).len(),
        forall|k: int|
            0 <= k < r@.len() ==> properties(*#[trigger] r@[k]) == occurrences(
                ini_sections(*ini),
                name@,
            )[k],
{
    ini.section_all(Some(name)).collect()
}

/// `ini::Properties::get`: the first value of a key, if the section has the
/// key.
#[verifier::external_body]
pub(crate) fn property_get(props: &ini::Properties, key: &str) -> (r: Option<String>)
    ensures
        match r {
            Some(v) => field(properties(*props), key@) == Some(v@),
            None => field(properties(*props), key@) is None,
        },
{
    props.get(key).map(String::from)
}

} // verus!
