use vstd::prelude::*;
use vstd::string::StringExecFns;
use crate::handlers::common::{find_profile_with_name, get_assume_settings, named_ci_index,
    spec_assume_settings};
use crate::store::{EntriesView, Properties, Section, SectionView, Store, lookup};
use crate::text::{eq_ignore_case, str_eq, str_eq_ignore_ascii_case};

verus! {

/// Resolution failure: no named profile backs the default section.
#[derive(Debug, PartialEq, Eq, Structural)]
pub enum ResolutionError {
    NoDefaultProfile,
}

impl ResolutionError {
    /// The wording under which this failure is reported.
    pub fn message(&self) -> (r: String)
        ensures
            r@ == "no default profile set"@,
    {
        String::from_str("no default profile set")
    }
}

/// The credential fingerprint of a section body: its `aws_access_key_id`.
pub open spec fn spec_access_key_id(entries: EntriesView) -> Option<Seq<char>> {
    lookup(entries, "aws_access_key_id"@)
}

/// The `aws_access_key_id` of a section body, if present.
pub fn get_access_key_id(properties: &Properties) -> (r: Option<String>)
    ensures
        match r {
            Some(v) => spec_access_key_id(properties@) == Some(v@),
            None => spec_access_key_id(properties@) is None,
        },
{
    properties.get("aws_access_key_id")
}

/// Whether the section body carries `default_access_key_id` as its
/// fingerprint.
pub fn section_has_same_access_key_id(default_access_key_id: &String, properties: &Properties) -> (r:
    bool)
    ensures
        r == (spec_access_key_id(properties@) == Some(default_access_key_id@)),
{
    match get_access_key_id(properties) {
        Some(value) => str_eq(value.as_str(), default_access_key_id.as_str()),
        None => false,
    }
}

/// Whether the section body carries exactly the given delegation settings.
pub fn section_has_same_assume_settings(
    default_assume_settings: (&String, &String),
    properties: &Properties,
) -> (r: bool)
    ensures
        r == (spec_assume_settings(properties@) == Some(
            (default_assume_settings.0@, default_assume_settings.1@),
        )),
{
    match get_assume_settings(properties) {
        Some(settings) => str_eq(settings.0.as_str(), default_assume_settings.0.as_str())
            && str_eq(settings.1.as_str(), default_assume_settings.1.as_str()),
        None => false,
    }
}

/// Whether a section name is present and differs from "default" up to ASCII
/// case.
pub open spec fn name_not_default_ci(name: Option<Seq<char>>) -> bool {
    match name {
        Some(n) => !eq_ignore_case(n, "default"@),
        None => false,
    }
}

/// Whether the given name is present and is not "default" up to ASCII case.
pub fn section_is_not_default(section: &Option<String>) -> (r: bool)
    ensures
        r == name_not_default_ci(crate::store::opt_name_view(*section)),
{
    match section {
        Some(name) => !str_eq_ignore_ascii_case(name.as_str(), "default"),
        None => false,
    }
}

/// Index of the first non-default section, from `j` on, carrying exactly the
/// delegation settings `(arn, profile)`.
pub open spec fn same_assume_index_from(
    s: Seq<SectionView>,
    arn: Seq<char>,
    profile: Seq<char>,
    j: int,
) -> Option<int>
    decreases s.len() - j,
{
    if j >= s.len() {
        None
    } else if name_not_default_ci(s[j].name) && spec_assume_settings(s[j].properties) == Some(
        (arn, profile),
    ) {
        Some(j)
    } else {
        same_assume_index_from(s, arn, profile, j + 1)
    }
}

/// Index of the first non-default section carrying exactly `(arn, profile)`.
pub open spec fn same_assume_index(s: Seq<SectionView>, arn: Seq<char>, profile: Seq<char>) -> Option<
    int,
> {
    same_assume_index_from(s, arn, profile, 0)
}

/// Index of the first non-default section, from `j` on, whose fingerprint is
/// `key`.
pub open spec fn same_fingerprint_index_from(s: Seq<SectionView>, key: Seq<char>, j: int) -> Option<
    int,
>
    decreases s.len() - j,
{
    if j >= s.len() {
        None
    } else if name_not_default_ci(s[j].name) && spec_access_key_id(s[j].properties) == Some(key) {
        Some(j)
    } else {
        same_fingerprint_index_from(s, key, j + 1)
    }
}

/// Index of the first non-default section whose fingerprint is `key`.
pub open spec fn same_fingerprint_index(s: Seq<SectionView>, key: Seq<char>) -> Option<int> {
    same_fingerprint_index_from(s, key, 0)
}

/// Returns the first non-default section carrying exactly the given
/// delegation settings.
pub fn find_section_with_same_assume_settings(
    config_file: &Store,
    default_assume_settings: (&String, &String),
) -> (r: Option<Section>)
    ensures
        match r {
            Some(sec) => same_assume_index(
                config_file@,
                default_assume_settings.0@,
                default_assume_settings.1@,
            ) matches Some(i) && sec@ == config_file@[i],
            None => same_assume_index(
                config_file@,
                default_assume_settings.0@,
                default_assume_settings.1@,
            ) is None,
        },
{
    let n = config_file.sections.len();
    let mut i: usize = 0;
    while i < n
        invariant
            n == config_file.sections.len(),
            i <= n,
            same_assume_index(config_file@, default_assume_settings.0@, default_assume_settings.1@)
                == same_assume_index_from(
                config_file@,
                default_assume_settings.0@,
                default_assume_settings.1@,
                i as int,
            ),
        decreases n - i,
    {
        let sec = &config_file.sections[i];
        if section_is_not_default(&sec.name) && section_has_same_assume_settings(
            default_assume_settings,
            &sec.properties,
        ) {
            return Some(config_file.sections[i].clone());
        }
        i += 1;
    }
    None
}

/// Returns the first non-default section whose fingerprint equals
/// `default_access_key_id`.
pub fn find_section_with_same_access_key(
    credentials_file: &Store,
    default_access_key_id: &String,
) -> (r: Option<Section>)
    ensures
        match r {
            Some(sec) => same_fingerprint_index(credentials_file@, default_access_key_id@)
                matches Some(i) && sec@ == credentials_file@[i],
            None => same_fingerprint_index(credentials_file@, default_access_key_id@) is None,
        },
{
    let n = credentials_file.sections.len();
    let mut i: usize = 0;
    while i < n
        invariant
            n == credentials_file.sections.len(),
            i <= n,
            same_fingerprint_index(credentials_file@, default_access_key_id@)
                == same_fingerprint_index_from(
                credentials_file@,
                default_access_key_id@,
                i as int,
            ),
        decreases n - i,
    {
        let sec = &credentials_file.sections[i];
        if section_is_not_default(&sec.name) && section_has_same_access_key_id(
            default_access_key_id,
            &sec.properties,
        ) {
            return Some(credentials_file.sections[i].clone());
        }
        i += 1;
    }
    None
}

/// The profile backing the default section through delegation settings: the
/// first non-default section of the store whose `(role_arn, source_profile)`
/// pair equals the default section's, when the latter is defined.
pub open spec fn spec_resolve_assume(s: Seq<SectionView>) -> Option<int> {
    match named_ci_index(s, "default"@) {
        Some(d) => match spec_assume_settings(s[d].properties) {
            Some(settings) => same_assume_index(s, settings.0, settings.1),
            None => None,
        },
        None => None,
    }
}

/// The profile backing the default section through its fingerprint: the first
/// non-default section of the store whose `aws_access_key_id` equals the
/// default section's, when the latter is defined.
pub open spec fn spec_resolve_direct(s: Seq<SectionView>) -> Option<int> {
    match named_ci_index(s, "default"@) {
        Some(d) => match spec_access_key_id(s[d].properties) {
            Some(key) => same_fingerprint_index(s, key),
            None => None,
        },
        None => None,
    }
}

/// Returns the section of the settings store that the default section's
/// delegation settings were copied from.
pub fn find_current_assume_profile(file: &Store) -> (r: Option<Section>)
    ensures
        match r {
            Some(sec) => spec_resolve_assume(file@) matches Some(i) && sec@ == file@[i],
            None => spec_resolve_assume(file@) is None,
        },
{
    match find_profile_with_name(file, &String::from_str("default")) {
        Some(default_section) => match get_assume_settings(&default_section.properties) {
            Some(settings) => find_section_with_same_assume_settings(
                file,
                (&settings.0, &settings.1),
            ),
            None => None,
        },
        None => None,
    }
}

/// Returns the section of the credentials store that the default section's
/// fingerprint was copied from.
pub fn find_current_profile(file: &Store) -> (r: Option<Section>)
    ensures
        match r {
            Some(sec) => spec_resolve_direct(file@) matches Some(i) && sec@ == file@[i],
            None => spec_resolve_direct(file@) is None,
        },
{
    match find_profile_with_name(file, &String::from_str("default")) {
        Some(default_section) => match get_access_key_id(&default_section.properties) {
            Some(key) => find_section_with_same_access_key(file, &key),
            None => None,
        },
        None => None,
    }
}

/// The name of a found section, if it has one.
pub fn get_section_name(section: &Section) -> (r: Option<String>)
    ensures
        match r {
            Some(name) => section@.name == Some(name@),
            None => section@.name is None,
        },
{
    match &section.name {
        Some(name) => Some(name.clone()),
        None => None,
    }
}

/// The resolved active profile name: the delegation match in the settings
/// store when one exists, otherwise the fingerprint match in the credentials
/// store.
pub open spec fn spec_resolve(config: Seq<SectionView>, credentials: Seq<SectionView>) -> Option<
    Seq<char>,
> {
    match spec_resolve_assume(config) {
        Some(i) => config[i].name,
        None => match spec_resolve_direct(credentials) {
            Some(i) => credentials[i].name,
            None => None,
        },
    }
}

/// Resolves which named profile currently backs the default section, trying
/// the delegation match in the settings store first and the fingerprint match
/// in the credentials store second.
pub fn handle(config_file: &Store, credentials_file: &Store) -> (r: Result<String, ResolutionError>)
    ensures
        match r {
            Ok(name) => spec_resolve(config_file@, credentials_file@) == Some(name@),
            Err(e) => spec_resolve(config_file@, credentials_file@) is None && e
                == ResolutionError::NoDefaultProfile,
        },
{
    let section = match find_current_assume_profile(config_file) {
        Some(sec) => Some(sec),
        None => find_current_profile(credentials_file),
    };
    match section {
        Some(sec) => match get_section_name(&sec) {
            Some(name) => Ok(name),
            None => Err(ResolutionError::NoDefaultProfile),
        },
        None => Err(ResolutionError::NoDefaultProfile),
    }
}

} // verus!
