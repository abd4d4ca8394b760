use vstd::prelude::*;
use crate::store::{EntriesView, Properties, Section, SectionView, Store, lookup};
use crate::text::{eq_ignore_case, str_eq_ignore_ascii_case};

verus! {

/// Whether a section bears `name`, compared ignoring ASCII case.
pub open spec fn sec_named_ci(s: SectionView, name: Seq<char>) -> bool {
    match s.name {
        Some(m) => eq_ignore_case(m, name),
        None => false,
    }
}

/// Index of the first section bearing `name` up to ASCII case, from `j` on.
pub open spec fn named_ci_index_from(s: Seq<SectionView>, name: Seq<char>, j: int) -> Option<int>
    decreases s.len() - j,
{
    if j >= s.len() {
        None
    } else if sec_named_ci(s[j], name) {
        Some(j)
    } else {
        named_ci_index_from(s, name, j + 1)
    }
}

/// Index of the first section bearing `name` up to ASCII case.
pub open spec fn named_ci_index(s: Seq<SectionView>, name: Seq<char>) -> Option<int> {
    named_ci_index_from(s, name, 0)
}

/// Returns the first section whose name equals `selected_profile` up to ASCII
/// case.
pub fn find_profile_with_name(file: &Store, selected_profile: &String) -> (r: Option<Section>)
    ensures
        match r {
            Some(sec) => named_ci_index(file@, selected_profile@) matches Some(i) && sec@
                == file@[i],
            None => named_ci_index(file@, selected_profile@) is None,
        },
{
    let n = file.sections.len();
    let mut i: usize = 0;
    while i < n
        invariant
            n == file.sections.len(),
            i <= n,
            named_ci_index(file@, selected_profile@) == named_ci_index_from(
                file@,
                selected_profile@,
                i as int,
            ),
        decreases n - i,
    {
        let hit = match &file.sections[i].name {
            Some(m) => str_eq_ignore_ascii_case(m.as_str(), selected_profile.as_str()),
            None => false,
        };
        if hit {
            proof {
                assert(sec_named_ci(file@[i as int], selected_profile@));
            }
            return Some(file.sections[i].clone());
        }
        proof {
            assert(!sec_named_ci(file@[i as int], selected_profile@));
        }
        i += 1;
    }
    None
}

/// The delegation settings of a section body: the `(role_arn, source_profile)`
/// pair, defined only when both keys are present.
pub open spec fn spec_assume_settings(entries: EntriesView) -> Option<(Seq<char>, Seq<char>)> {
    match (lookup(entries, "role_arn"@), lookup(entries, "source_profile"@)) {
        (Some(arn), Some(profile)) => Some((arn, profile)),
        _ => None,
    }
}

/// Returns the `(role_arn, source_profile)` pair when both keys are present.
pub fn get_assume_settings(properties: &Properties) -> (r: Option<(String, String)>)
    ensures
        match r {
            Some(p) => spec_assume_settings(properties@) == Some((p.0@, p.1@)),
            None => spec_assume_settings(properties@) is None,
        },
{
    let role_arn = properties.get("role_arn");
    let source_profile = properties.get("source_profile");
    match (role_arn, source_profile) {
        (Some(arn), Some(profile)) => Some((arn, profile)),
        _ => None,
    }
}

/// Hands back the properties of a found section.
pub fn get_value_of_tuple(section: &Section) -> (r: &Properties)
    ensures
        r@ == section@.properties,
{
    &section.properties
}

/// Composes two functions into one that applies the first and then the second.
pub fn compose<A, B, C>(fn1: impl Fn(A) -> B, fn2: impl Fn(B) -> C) -> (r: impl Fn(A) -> C)
    ensures
        forall|a: A, c: C|
            call_ensures(r, (a,), c) ==> exists|b: B|
                call_ensures(fn1, (a,), b) && call_ensures(fn2, (b,), c),
{
    move |a: A| -> (c: C)
        requires
            call_requires(fn1, (a,)),
            forall|b: B| call_ensures(fn1, (a,), b) ==> call_requires(fn2, (b,)),
        ensures
            exists|b: B| call_ensures(fn1, (a,), b) && call_ensures(fn2, (b,), c),
        {
            fn2(fn1(a))
        }
}

} // verus!
