use vstd::prelude::*;
use vstd::string::StringExecFns;
use crate::handlers::common::{get_assume_settings, spec_assume_settings};
use crate::store::{EntriesView, Properties, Section, SectionView, Store, lookup, named_index,
    spec_set_to};
use crate::text::{lemma_lex_le_total, lemma_lex_le_trans, lex_le, str_eq, str_le};

verus! {

/// Promotion failure: the chosen name backs no usable profile in either
/// store.
#[derive(Debug, PartialEq, Eq)]
pub enum PromotionError {
    ProfileNotFound(String),
}

impl PromotionError {
    /// The wording under which this failure is reported.
    pub fn message(&self) -> (r: String)
        ensures
            (match self {
                PromotionError::ProfileNotFound(name) => r@ == "profile ["@ + name@
                    + "] not found"@,
            }),
    {
        match self {
            PromotionError::ProfileNotFound(name) => String::from_str("profile [").concat(
                name.as_str(),
            ).concat("] not found"),
        }
    }
}

/// Returns the first section named exactly `selected_profile`.
pub fn find_profile_with_exact_name(file: &Store, selected_profile: &String) -> (r: Option<Section>)
    ensures
        match r {
            Some(sec) => named_index(file@, Some(selected_profile@)) matches Some(i) && sec@
                == file@[i],
            None => named_index(file@, Some(selected_profile@)) is None,
        },
{
    let n = file.sections.len();
    let mut i: usize = 0;
    while i < n
        invariant
            n == file.sections.len(),
            i <= n,
            named_index(file@, Some(selected_profile@)) == crate::store::named_index_from(
                file@,
                Some(selected_profile@),
                i as int,
            ),
        decreases n - i,
    {
        let hit = match &file.sections[i].name {
            Some(m) => str_eq(m.as_str(), selected_profile.as_str()),
            None => false,
        };
        if hit {
            proof {
                assert(file@[i as int].name == Some(selected_profile@));
            }
            return Some(file.sections[i].clone());
        }
        proof {
            assert(file@[i as int].name != Some(selected_profile@));
        }
        i += 1;
    }
    None
}

/// The direct credentials of a section body: the pair
/// `(aws_access_key_id, aws_secret_access_key)`, defined only when both keys
/// are present.
pub open spec fn spec_profile_settings(entries: EntriesView) -> Option<(Seq<char>, Seq<char>)> {
    match (lookup(entries, "aws_access_key_id"@), lookup(entries, "aws_secret_access_key"@)) {
        (Some(key_id), Some(secret)) => Some((key_id, secret)),
        _ => None,
    }
}

/// Returns the `(aws_access_key_id, aws_secret_access_key)` pair when both
/// keys are present.
pub fn get_profile_settings(properties: &Properties) -> (r: Option<(String, String)>)
    ensures
        match r {
            Some(p) => spec_profile_settings(properties@) == Some((p.0@, p.1@)),
            None => spec_profile_settings(properties@) is None,
        },
{
    let aws_access_key_id = properties.get("aws_access_key_id");
    let aws_secret_access_key = properties.get("aws_secret_access_key");
    match (aws_access_key_id, aws_secret_access_key) {
        (Some(key_id), Some(secret)) => Some((key_id, secret)),
        _ => None,
    }
}

/// The delegation settings of the section named exactly `target`, when such a
/// section exists and both keys are present.
pub open spec fn spec_target_assume_settings(s: Seq<SectionView>, target: Seq<char>) -> Option<
    (Seq<char>, Seq<char>),
> {
    match named_index(s, Some(target)) {
        Some(i) => spec_assume_settings(s[i].properties),
        None => None,
    }
}

/// The direct credentials of the section named exactly `target`, when such a
/// section exists and both keys are present.
pub open spec fn spec_target_profile_settings(s: Seq<SectionView>, target: Seq<char>) -> Option<
    (Seq<char>, Seq<char>),
> {
    match named_index(s, Some(target)) {
        Some(i) => spec_profile_settings(s[i].properties),
        None => None,
    }
}

/// A store whose default section's delegation settings are overwritten with
/// the given pair; everything else is unchanged.
pub open spec fn spec_set_default_assume(s: Seq<SectionView>, arn: Seq<char>, profile: Seq<char>) -> Seq<
    SectionView,
> {
    spec_set_to(
        spec_set_to(s, Some("default"@), "role_arn"@, arn),
        Some("default"@),
        "source_profile"@,
        profile,
    )
}

/// A store whose default section's direct credentials are overwritten with
/// the given pair; everything else is unchanged.
pub open spec fn spec_set_default_credentials(
    s: Seq<SectionView>,
    key_id: Seq<char>,
    secret: Seq<char>,
) -> Seq<SectionView> {
    spec_set_to(
        spec_set_to(s, Some("default"@), "aws_access_key_id"@, key_id),
        Some("default"@),
        "aws_secret_access_key"@,
        secret,
    )
}

/// Overwrites the default section's `role_arn` and `source_profile` with the
/// given pair, returning a new store.
pub fn set_default_assume_settings(file: &Store, settings: (&String, &String)) -> (r: Store)
    ensures
        r@ == spec_set_default_assume(file@, settings.0@, settings.1@),
{
    let mut output = file.clone();
    output.set_to(
        Some(String::from_str("default")),
        String::from_str("role_arn"),
        settings.0.clone(),
    );
    output.set_to(
        Some(String::from_str("default")),
        String::from_str("source_profile"),
        settings.1.clone(),
    );
    output
}

/// Overwrites the default section's `aws_access_key_id` and
/// `aws_secret_access_key` with the given pair, returning a new store.
pub fn set_default_settings(file: &Store, settings: (&String, &String)) -> (r: Store)
    ensures
        r@ == spec_set_default_credentials(file@, settings.0@, settings.1@),
{
    let mut output = file.clone();
    output.set_to(
        Some(String::from_str("default")),
        String::from_str("aws_access_key_id"),
        settings.0.clone(),
    );
    output.set_to(
        Some(String::from_str("default")),
        String::from_str("aws_secret_access_key"),
        settings.1.clone(),
    );
    output
}

/// Delegation promotion: when the target section of the settings store
/// carries both delegation keys, copies them into the default section and
/// leaves the credentials store untouched.
pub fn set_assume_profile(
    config_file: &Store,
    credentials_file: &Store,
    selected_profile: &String,
) -> (r: Option<(Store, Store)>)
    ensures
        match r {
            Some(p) => spec_target_assume_settings(config_file@, selected_profile@)
                matches Some(st) && p.0@ == spec_set_default_assume(config_file@, st.0, st.1)
                && p.1@ == credentials_file@,
            None => spec_target_assume_settings(config_file@, selected_profile@) is None,
        },
{
    let found = match find_profile_with_exact_name(config_file, selected_profile) {
        Some(sec) => get_assume_settings(&sec.properties),
        None => None,
    };
    match found {
        Some(settings) => {
            let updated_config_file = set_default_assume_settings(
                config_file,
                (&settings.0, &settings.1),
            );
            Some((updated_config_file, credentials_file.clone()))
        }
        None => None,
    }
}

/// Direct promotion: when the target section of the credentials store carries
/// both credential keys, copies them into that store's default section and
/// resets the settings store's default delegation settings to empty strings.
pub fn set_profile(
    config_file: &Store,
    credentials_file: &Store,
    selected_profile: &String,
) -> (r: Option<(Store, Store)>)
    ensures
        match r {
            Some(p) => spec_target_profile_settings(credentials_file@, selected_profile@)
                matches Some(st) && p.0@ == spec_set_default_assume(
                config_file@,
                Seq::<char>::empty(),
                Seq::<char>::empty(),
            ) && p.1@ == spec_set_default_credentials(credentials_file@, st.0, st.1),
            None => spec_target_profile_settings(credentials_file@, selected_profile@) is None,
        },
{
    let found = match find_profile_with_exact_name(credentials_file, selected_profile) {
        Some(sec) => get_profile_settings(&sec.properties),
        None => None,
    };
    match found {
        Some(settings) => {
            let cleared_arn = String::new();
            let cleared_profile = String::new();
            let updated_config_file = set_default_assume_settings(
                config_file,
                (&cleared_arn, &cleared_profile),
            );
            let updated_credentials_file = set_default_settings(
                credentials_file,
                (&settings.0, &settings.1),
            );
            Some((updated_config_file, updated_credentials_file))
        }
        None => None,
    }
}

/// The promoted pair of stores: delegation promotion when the target carries
/// delegation settings in the settings store, otherwise direct promotion when
/// it carries credentials in the credentials store, otherwise nothing.
pub open spec fn spec_promote(
    config: Seq<SectionView>,
    credentials: Seq<SectionView>,
    target: Seq<char>,
) -> Option<(Seq<SectionView>, Seq<SectionView>)> {
    match spec_target_assume_settings(config, target) {
        Some(st) => Some((spec_set_default_assume(config, st.0, st.1), credentials)),
        None => match spec_target_profile_settings(credentials, target) {
            Some(st) => Some(
                (
                    spec_set_default_assume(config, Seq::<char>::empty(), Seq::<char>::empty()),
                    spec_set_default_credentials(credentials, st.0, st.1),
                ),
            ),
            None => None,
        },
    }
}

/// Makes the section named exactly `selected_profile` the new default,
/// trying delegation promotion first and direct promotion second, and
/// returning the updated `(settings store, credentials store)` pair.
pub fn promote(
    config_file: &Store,
    credentials_file: &Store,
    selected_profile: &String,
) -> (r: Result<(Store, Store), PromotionError>)
    ensures
        match r {
            Ok(p) => spec_promote(config_file@, credentials_file@, selected_profile@) == Some(
                (p.0@, p.1@),
            ),
            Err(e) => spec_promote(config_file@, credentials_file@, selected_profile@) is None && (
            e matches PromotionError::ProfileNotFound(n) && n@ == selected_profile@),
        },
{
    match set_assume_profile(config_file, credentials_file, selected_profile) {
        Some(p) => Ok(p),
        None => match set_profile(config_file, credentials_file, selected_profile) {
            Some(p) => Ok(p),
            None => Err(PromotionError::ProfileNotFound(selected_profile.clone())),
        },
    }
}

/// Whether delegation promotion applies to `selected_profile`: exactly then
/// does a promotion change the settings store alone.
pub fn delegation_promotion_applies(config_file: &Store, selected_profile: &String) -> (r: bool)
    ensures
        r == (spec_target_assume_settings(config_file@, selected_profile@) is Some),
{
    match find_profile_with_exact_name(config_file, selected_profile) {
        Some(sec) => match get_assume_settings(&sec.properties) {
            Some(_) => true,
            None => false,
        },
        None => false,
    }
}

/// Applies the picker's answer: an empty selection is the user's
/// cancellation and succeeds without touching either store; any other answer
/// is promoted.
pub fn apply_selection(
    config_file: &Store,
    credentials_file: &Store,
    selected_profile: &String,
) -> (r: Result<Option<(Store, Store)>, PromotionError>)
    ensures
        selected_profile@.len() == 0 ==> (r matches Ok(None)),
        selected_profile@.len() != 0 ==> (match r {
            Ok(Some(p)) => spec_promote(config_file@, credentials_file@, selected_profile@)
                == Some((p.0@, p.1@)),
            Ok(None) => false,
            Err(e) => spec_promote(config_file@, credentials_file@, selected_profile@) is None && (
            e matches PromotionError::ProfileNotFound(n) && n@ == selected_profile@),
        }),
{
    if selected_profile.as_str().is_empty() {
        return Ok(None);
    }
    match promote(config_file, credentials_file, selected_profile) {
        Ok(p) => Ok(Some(p)),
        Err(e) => Err(e),
    }
}

/// The names of a store's sections other than the one named exactly
/// "default", in store order.
pub open spec fn profile_names(s: Seq<SectionView>) -> Seq<Seq<char>>
    decreases s.len(),
{
    if s.len() == 0 {
        Seq::empty()
    } else {
        profile_names(s.drop_last()) + (match s.last().name {
            Some(n) => if n != "default"@ {
                seq![n]
            } else {
                Seq::empty()
            },
            None => Seq::empty(),
        })
    }
}

/// Whether a sequence of names is in ascending lexicographic order.
pub open spec fn sorted_names(s: Seq<Seq<char>>) -> bool {
    forall|x: int, y: int| 0 <= x < y < s.len() ==> lex_le(s[x], s[y])
}

/// Position at which `x` belongs in the sorted list `out`: the first place
/// whose element does not come before `x`.
fn insertion_point(out: &Vec<String>, x: &String) -> (p: usize)
    ensures
        p <= out.deep_view().len(),
        forall|k: int| 0 <= k < p ==> lex_le(out.deep_view()[k], x@),
        p < out.deep_view().len() ==> !lex_le(out.deep_view()[p as int], x@),
{
    let n = out.len();
    let mut p: usize = 0;
    while p < n
        invariant
            n == out.len(),
            p <= n,
            forall|k: int| 0 <= k < p ==> lex_le(out.deep_view()[k], x@),
        decreases n - p,
    {
        if !str_le(out[p].as_str(), x.as_str()) {
            return p;
        }
        p += 1;
    }
    p
}

/// Sorts a list of names into ascending lexicographic order, keeping exactly
/// the same names.
#[verifier::rlimit(50)]
fn sort_names(names: Vec<String>) -> (r: Vec<String>)
    ensures
        sorted_names(r.deep_view()),
        r.deep_view().to_multiset() == names.deep_view().to_multiset(),
{
    let n = names.len();
    let mut out: Vec<String> = Vec::new();
    proof {
        assert(out.deep_view() =~= names.deep_view().subrange(0, 0));
    }
    let mut i: usize = 0;
    while i < n
        invariant
            n == names.len(),
            i <= n,
            sorted_names(out.deep_view()),
            out.deep_view().to_multiset() == names.deep_view().subrange(0, i as int).to_multiset(),
        decreases n - i,
    {
        let ghost old_out = out.deep_view();
        let x = names[i].clone();
        let p = insertion_point(&out, &x);
        out.insert(p, x);
        proof {
            broadcast use vstd::seq_lib::group_to_multiset_ensures;

            let nd = out.deep_view();
            assert(nd =~= old_out.insert(p as int, x@));
            let pi = p as int;
            old_out.insert_ensures(pi, x@);
            assert forall|u: int, w: int| 0 <= u < w < nd.len() implies lex_le(nd[u], nd[w]) by {
                if u < pi {
                    assert(nd[u] == old_out[u]);
                } else if u == pi {
                    assert(nd[u] == x@);
                } else {
                    assert(nd[u] == old_out[u - 1]);
                }
                if w < pi {
                    assert(nd[w] == old_out[w]);
                } else if w == pi {
                    assert(nd[w] == x@);
                } else {
                    assert(nd[w] == old_out[w - 1]);
                }
                if u == pi && w > pi {
                    lemma_lex_le_total(old_out[pi], x@, 0);
                    assert(lex_le(x@, old_out[pi]));
                    if pi < w - 1 {
                        assert(lex_le(old_out[pi], old_out[w - 1]));
                        lemma_lex_le_trans(x@, old_out[pi], old_out[w - 1], 0);
                    }
                }
            }
            assert(nd.remove(p as int) =~= old_out);
            assert(nd.contains(x@)) by {
                assert(nd[p as int] == x@);
            }
            assert(nd.to_multiset() =~= old_out.to_multiset().insert(x@));
            assert(names.deep_view().subrange(0, i + 1) =~= names.deep_view().subrange(
                0,
                i as int,
            ).push(names.deep_view()[i as int]));
        }
        i += 1;
    }
    proof {
        assert(names.deep_view().subrange(0, n as int) =~= names.deep_view());
    }
    out
}

/// Lists the names of every section but the default one, in ascending
/// lexicographic order.
pub fn get_all_profile_names_except_default(file: &Store) -> (r: Vec<String>)
    ensures
        sorted_names(r.deep_view()),
        r.deep_view().to_multiset() == profile_names(file@).to_multiset(),
{
    let n = file.sections.len();
    let mut profiles: Vec<String> = Vec::new();
    let mut i: usize = 0;
    while i < n
        invariant
            n == file.sections.len(),
            i <= n,
            profiles.deep_view() == profile_names(file@.subrange(0, i as int)),
        decreases n - i,
    {
        let keep = match &file.sections[i].name {
            Some(name) => !str_eq(name.as_str(), "default"),
            None => false,
        };
        if keep {
            let name = match &file.sections[i].name {
                Some(name) => name.clone(),
                None => String::new(),
            };
            profiles.push(name);
        }
        proof {
            assert(file@.subrange(0, i + 1).drop_last() =~= file@.subrange(0, i as int));
            assert(file@.subrange(0, i + 1).last() == file@[i as int]);
            assert(profiles.deep_view() =~= profile_names(file@.subrange(0, i + 1)));
        }
        i += 1;
    }
    proof {
        assert(file@.subrange(0, n as int) =~= file@);
    }
    sort_names(profiles)
}

/// Lists the candidate profile names of both stores together: every section
/// name but the default one, from the credentials store and the settings
/// store, in one ascending lexicographic order.
pub fn all_profile_names(config_file: &Store, credentials_file: &Store) -> (r: Vec<String>)
    ensures
        sorted_names(r.deep_view()),
        r.deep_view().to_multiset() == (profile_names(credentials_file@) + profile_names(
            config_file@,
        )).to_multiset(),
{
    let mut names = get_all_profile_names_except_default(credentials_file);
    let mut more = get_all_profile_names_except_default(config_file);
    let ghost first = names.deep_view();
    let ghost second = more.deep_view();
    names.append(&mut more);
    proof {
        assert(names.deep_view() =~= first + second);
        vstd::seq_lib::lemma_multiset_commutative(first, second);
        vstd::seq_lib::lemma_multiset_commutative(
            profile_names(credentials_file@),
            profile_names(config_file@),
        );
    }
    sort_names(names)
}

} // verus!
