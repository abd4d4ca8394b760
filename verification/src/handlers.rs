use vstd::prelude::*;
use crate::store::{Properties, Section, SectionView, Store, lookup, named_index, named_index_from,
    opt_name_view};
use crate::text::str_eq;

pub mod common;
pub mod get;
pub mod set;

verus! {

/// Whether a section name is present and differs from the exact word
/// "default".
pub open spec fn name_is_not_default(name: Option<Seq<char>>) -> bool {
    match name {
        Some(n) => n != "default"@,
        None => false,
    }
}

/// Whether the given name is present and is not exactly "default".
pub fn section_is_not_default(section: &Option<String>) -> (r: bool)
    ensures
        r == name_is_not_default(opt_name_view(*section)),
{
    match section {
        Some(name) => !str_eq(name.as_str(), "default"),
        None => false,
    }
}

/// Whether the section body carries `default_access_key_id` under
/// `aws_access_key_id`.
pub fn section_has_same_access_key_id(default_access_key_id: &String, properties: &Properties) -> (r:
    bool)
    ensures
        r == (lookup(properties@, "aws_access_key_id"@) == Some(default_access_key_id@)),
{
    match properties.get("aws_access_key_id") {
        Some(value) => str_eq(value.as_str(), default_access_key_id.as_str()),
        None => false,
    }
}

/// Index of the first section, from `j` on, that bears a name other than the
/// exact word "default" and carries `key` under `aws_access_key_id`.
pub open spec fn same_key_exact_index_from(s: Seq<SectionView>, key: Seq<char>, j: int) -> Option<
    int,
>
    decreases s.len() - j,
{
    if j >= s.len() {
        None
    } else if name_is_not_default(s[j].name) && lookup(s[j].properties, "aws_access_key_id"@)
        == Some(key) {
        Some(j)
    } else {
        same_key_exact_index_from(s, key, j + 1)
    }
}

/// Index of the first such section.
pub open spec fn same_key_exact_index(s: Seq<SectionView>, key: Seq<char>) -> Option<int> {
    same_key_exact_index_from(s, key, 0)
}

/// Returns the first non-default section whose `aws_access_key_id` equals
/// `default_access_key_id`.
pub fn find_section_with_same_access_key(
    default_access_key_id: &String,
    credentials_file: &Store,
) -> (r: Option<Section>)
    ensures
        match r {
            Some(sec) => same_key_exact_index(credentials_file@, default_access_key_id@)
                matches Some(i) && sec@ == credentials_file@[i],
            None => same_key_exact_index(credentials_file@, default_access_key_id@) is None,
        },
{
    let n = credentials_file.sections.len();
    let mut i: usize = 0;
    while i < n
        invariant
            n == credentials_file.sections.len(),
            i <= n,
            same_key_exact_index(credentials_file@, default_access_key_id@)
                == same_key_exact_index_from(credentials_file@, default_access_key_id@, i as int),
        decreases n - i,
    {
        let sec = &credentials_file.sections[i];
        if section_is_not_default(&sec.name) && section_has_same_access_key_id(
            default_access_key_id,
            &sec.properties,
        ) {
            return Some(credentials_file.sections[i].clone());
        }
        i += 1;
    }
    None
}

/// The `aws_access_key_id` of a found default section, if any.
pub fn get_default_access_key_id(section: &Section) -> (r: Option<String>)
    ensures
        match r {
            Some(v) => lookup(section@.properties, "aws_access_key_id"@) == Some(v@),
            None => lookup(section@.properties, "aws_access_key_id"@) is None,
        },
{
    section.properties.get("aws_access_key_id")
}

/// Returns the first section named exactly "default".
pub fn find_default_section(credentials_file: &Store) -> (r: Option<Section>)
    ensures
        match r {
            Some(sec) => named_index(credentials_file@, Some("default"@)) matches Some(i) && sec@
                == credentials_file@[i],
            None => named_index(credentials_file@, Some("default"@)) is None,
        },
{
    let n = credentials_file.sections.len();
    let mut i: usize = 0;
    while i < n
        invariant
            n == credentials_file.sections.len(),
            i <= n,
            named_index(credentials_file@, Some("default"@)) == named_index_from(
                credentials_file@,
                Some("default"@),
                i as int,
            ),
        decreases n - i,
    {
        let hit = match &credentials_file.sections[i].name {
            Some(n) => str_eq(n.as_str(), "default"),
            None => false,
        };
        if hit {
            proof {
                assert(credentials_file@[i as int].name == Some("default"@));
            }
            return Some(credentials_file.sections[i].clone());
        }
        proof {
            assert(credentials_file@[i as int].name != Some("default"@));
        }
        i += 1;
    }
    None
}

} // verus!
