use vstd::prelude::*;
use crate::handlers::common::{named_ci_index, spec_assume_settings};
use crate::handlers::get::{name_not_default_ci, same_assume_index_from, same_fingerprint_index_from,
    spec_access_key_id, spec_resolve, spec_resolve_assume};
use crate::handlers::set::{spec_promote, spec_set_default_assume, spec_set_default_credentials,
    spec_target_assume_settings, spec_target_profile_settings};
use crate::store::{SectionView, lemma_insert_lookup, lemma_key_index_from,
    lemma_named_index_from, lemma_named_index_from_agree, lemma_named_index_from_unique,
    lemma_set_to_same, lookup, named_index, spec_insert, spec_set_to};

verus! {

/// A section matching the delegation pair at `i`, with none before, pins the
/// search down.
proof fn lemma_same_assume_index_from_found(
    s: Seq<SectionView>,
    arn: Seq<char>,
    profile: Seq<char>,
    j: int,
    i: int,
)
    requires
        0 <= j <= i < s.len(),
        name_not_default_ci(s[i].name),
        spec_assume_settings(s[i].properties) == Some((arn, profile)),
        forall|k: int|
            j <= k < i ==> !(name_not_default_ci(s[k].name) && spec_assume_settings(
                s[k].properties,
            ) == Some((arn, profile))),
    ensures
        same_assume_index_from(s, arn, profile, j) == Some(i),
    decreases i - j,
{
    if j < i {
        lemma_same_assume_index_from_found(s, arn, profile, j + 1, i);
    }
}

/// When no section matches the delegation pair, the search yields nothing.
proof fn lemma_same_assume_index_from_none(
    s: Seq<SectionView>,
    arn: Seq<char>,
    profile: Seq<char>,
    j: int,
)
    requires
        0 <= j,
        forall|k: int|
            j <= k < s.len() ==> !(name_not_default_ci(s[k].name) && spec_assume_settings(
                s[k].properties,
            ) == Some((arn, profile))),
    ensures
        same_assume_index_from(s, arn, profile, j) is None,
    decreases s.len() - j,
{
    if j < s.len() {
        lemma_same_assume_index_from_none(s, arn, profile, j + 1);
    }
}

/// A section matching the fingerprint at `i`, with none before, pins the
/// search down.
proof fn lemma_same_fingerprint_index_from_found(s: Seq<SectionView>, key: Seq<char>, j: int, i: int)
    requires
        0 <= j <= i < s.len(),
        name_not_default_ci(s[i].name),
        spec_access_key_id(s[i].properties) == Some(key),
        forall|k: int|
            j <= k < i ==> !(name_not_default_ci(s[k].name) && spec_access_key_id(s[k].properties)
                == Some(key)),
    ensures
        same_fingerprint_index_from(s, key, j) == Some(i),
    decreases i - j,
{
    if j < i {
        lemma_same_fingerprint_index_from_found(s, key, j + 1, i);
    }
}

/// When no section matches the fingerprint, the search yields nothing.
proof fn lemma_same_fingerprint_index_from_none(s: Seq<SectionView>, key: Seq<char>, j: int)
    requires
        0 <= j,
        forall|k: int|
            j <= k < s.len() ==> !(name_not_default_ci(s[k].name) && spec_access_key_id(
                s[k].properties,
            ) == Some(key)),
    ensures
        same_fingerprint_index_from(s, key, j) is None,
    decreases s.len() - j,
{
    if j < s.len() {
        lemma_same_fingerprint_index_from_none(s, key, j + 1);
    }
}

/// When the default section of the settings store carries delegation
/// settings equal to exactly one other section's, resolution returns that
/// section's name.
pub proof fn lemma_resolve_unique_delegation_match(
    config: Seq<SectionView>,
    credentials: Seq<SectionView>,
    i: int,
)
    requires
        0 <= i < config.len(),
        name_not_default_ci(config[i].name),
        spec_assume_settings(config[i].properties) is Some,
        (named_ci_index(config, "default"@) matches Some(d) && spec_assume_settings(
            config[d].properties,
        ) == spec_assume_settings(config[i].properties)),
        forall|k: int|
            0 <= k < config.len() && k != i && name_not_default_ci(config[k].name)
                ==> spec_assume_settings(config[k].properties) != spec_assume_settings(
                config[i].properties,
            ),
    ensures
        spec_resolve(config, credentials) == config[i].name,
{
    match spec_assume_settings(config[i].properties) {
        Some(st) => {
            assert(st == (st.0, st.1));
            lemma_same_assume_index_from_found(config, st.0, st.1, 0, i);
        }
        None => {
            assert(false);
        }
    }
}

/// When no delegation match exists and the default section of the
/// credentials store carries a fingerprint equal to exactly one other
/// section's, resolution returns that section's name.
pub proof fn lemma_resolve_unique_fingerprint_match(
    config: Seq<SectionView>,
    credentials: Seq<SectionView>,
    i: int,
)
    requires
        spec_resolve_assume(config) is None,
        0 <= i < credentials.len(),
        name_not_default_ci(credentials[i].name),
        spec_access_key_id(credentials[i].properties) is Some,
        (named_ci_index(credentials, "default"@) matches Some(d) && spec_access_key_id(
            credentials[d].properties,
        ) == spec_access_key_id(credentials[i].properties)),
        forall|k: int|
            0 <= k < credentials.len() && k != i && name_not_default_ci(credentials[k].name)
                ==> spec_access_key_id(credentials[k].properties) != spec_access_key_id(
                credentials[i].properties,
            ),
    ensures
        spec_resolve(config, credentials) == credentials[i].name,
{
    match spec_access_key_id(credentials[i].properties) {
        Some(key) => {
            lemma_same_fingerprint_index_from_found(credentials, key, 0, i);
        }
        None => {
            assert(false);
        }
    }
}

/// When the default section has neither a matching delegation pair in
/// the settings store nor a matching fingerprint in the credentials store,
/// resolution yields nothing, and so fails.
pub proof fn lemma_resolve_no_match(config: Seq<SectionView>, credentials: Seq<SectionView>)
    requires
        (match named_ci_index(config, "default"@) {
            Some(d) => match spec_assume_settings(config[d].properties) {
                Some(st) => forall|k: int|
                    0 <= k < config.len() && name_not_default_ci(config[k].name)
                        ==> spec_assume_settings(config[k].properties) != Some(st),
                None => true,
            },
            None => true,
        }),
        (match named_ci_index(credentials, "default"@) {
            Some(d) => match spec_access_key_id(credentials[d].properties) {
                Some(key) => forall|k: int|
                    0 <= k < credentials.len() && name_not_default_ci(credentials[k].name)
                        ==> spec_access_key_id(credentials[k].properties) != Some(key),
                None => true,
            },
            None => true,
        }),
    ensures
        spec_resolve(config, credentials) is None,
{
    match named_ci_index(config, "default"@) {
        Some(d) => match spec_assume_settings(config[d].properties) {
            Some(st) => {
                assert(st == (st.0, st.1));
                lemma_same_assume_index_from_none(config, st.0, st.1, 0);
            }
            None => {}
        },
        None => {}
    }
    match named_ci_index(credentials, "default"@) {
        Some(d) => match spec_access_key_id(credentials[d].properties) {
            Some(key) => {
                lemma_same_fingerprint_index_from_none(credentials, key, 0);
            }
            None => {}
        },
        None => {}
    }
}

/// What writing two bindings to the default section produces: the first
/// section named exactly "default" (appended when missing) carries both
/// bindings, and everything else stands as before.
proof fn lemma_set_default_pair(
    s: Seq<SectionView>,
    k1: Seq<char>,
    v1: Seq<char>,
    k2: Seq<char>,
    v2: Seq<char>,
)
    requires
        k1 != k2,
    ensures
        ({
            let s2 = spec_set_to(spec_set_to(s, Some("default"@), k1, v1), Some("default"@), k2, v2);
            let dd = (match named_index(s, Some("default"@)) {
                Some(d) => d,
                None => s.len() as int,
            });
            &&& (match named_index(s, Some("default"@)) {
                Some(_) => s2.len() == s.len(),
                None => s2.len() == s.len() + 1,
            })
            &&& 0 <= dd < s2.len()
            &&& forall|j: int| 0 <= j < s.len() && j != dd ==> s2[j] == s[j]
            &&& forall|j: int|
                0 <= j < s2.len() ==> s2[j].name == (if j < s.len() {
                    s[j].name
                } else {
                    Some("default"@)
                })
            &&& named_index(s2, Some("default"@)) == Some(dd)
            &&& lookup(s2[dd].properties, k1) == Some(v1)
            &&& lookup(s2[dd].properties, k2) == Some(v2)
            &&& forall|k: Seq<char>|
                k != k1 && k != k2 ==> lookup(s2[dd].properties, k) == (
                match named_index(s, Some("default"@)) {
                    Some(d) => lookup(s[d].properties, k),
                    None => None::<Seq<char>>,
                })
        }),
{
    let nm = Some("default"@);
    lemma_named_index_from(s, nm, 0);
    match named_index(s, nm) {
        Some(d) => {
            let mid = spec_set_to(s, nm, k1, v1);
            assert(forall|j: int| 0 <= j < s.len() ==> mid[j].name == s[j].name);
            lemma_named_index_from_agree(s, mid, nm, 0);
            let s2 = spec_set_to(mid, nm, k2, v2);
            assert(forall|j: int| 0 <= j < mid.len() ==> s2[j].name == mid[j].name);
            lemma_named_index_from_agree(mid, s2, nm, 0);
            lemma_insert_lookup(s[d].properties, k1, v1);
            lemma_insert_lookup(mid[d].properties, k2, v2);
        }
        None => {
            let mid = spec_set_to(s, nm, k1, v1);
            lemma_named_index_from_unique(mid, nm, 0, s.len() as int);
            let s2 = spec_set_to(mid, nm, k2, v2);
            assert(forall|j: int| 0 <= j < mid.len() ==> s2[j].name == mid[j].name);
            lemma_named_index_from_agree(mid, s2, nm, 0);
            lemma_insert_lookup(mid[s.len() as int].properties, k2, v2);
            lemma_key_index_from(mid[s.len() as int].properties, k1, 0);
            assert(lookup(mid[s.len() as int].properties, k1) == Some(v1));
            assert forall|k: Seq<char>| k != k1 && k != k2 implies lookup(
                s2[s.len() as int].properties,
                k,
            ) is None by {
                let lenp = s.len() as int;
                assert(s2[lenp].properties == spec_insert(mid[lenp].properties, k2, v2));
                assert(lookup(s2[lenp].properties, k) == lookup(mid[lenp].properties, k));
                lemma_key_index_from(mid[lenp].properties, k, 0);
            }
        }
    }
}

/// Promoting a profile found only by its credentials always resets the
/// settings store's default delegation settings to empty strings, whatever
/// they held before.
pub proof fn lemma_direct_promotion_clears_delegation(
    config: Seq<SectionView>,
    credentials: Seq<SectionView>,
    target: Seq<char>,
)
    requires
        spec_target_assume_settings(config, target) is None,
        spec_target_profile_settings(credentials, target) is Some,
    ensures
        (spec_promote(config, credentials, target) matches Some(p) && (named_index(
            p.0,
            Some("default"@),
        ) matches Some(d) && lookup(p.0[d].properties, "role_arn"@) == Some(Seq::<char>::empty())
            && lookup(p.0[d].properties, "source_profile"@) == Some(Seq::<char>::empty()))),
{
    reveal_strlit("role_arn");
    reveal_strlit("source_profile");
    assert("role_arn"@.len() == 8);
    assert("source_profile"@.len() == 14);
    assert("role_arn"@ != "source_profile"@);
    lemma_set_default_pair(
        config,
        "role_arn"@,
        Seq::<char>::empty(),
        "source_profile"@,
        Seq::<char>::empty(),
    );
}

/// Promoting a profile whose delegation settings stand in the settings
/// store never modifies the credentials store.
pub proof fn lemma_delegation_promotion_keeps_credentials(
    config: Seq<SectionView>,
    credentials: Seq<SectionView>,
    target: Seq<char>,
)
    requires
        spec_target_assume_settings(config, target) is Some,
    ensures
        (spec_promote(config, credentials, target) matches Some(p) && p.1 == credentials),
{
}

/// Promoting a name absent from both stores yields nothing, and so
/// fails without any store mutation.
pub proof fn lemma_promote_absent_target(
    config: Seq<SectionView>,
    credentials: Seq<SectionView>,
    target: Seq<char>,
)
    requires
        named_index(config, Some(target)) is None,
        named_index(credentials, Some(target)) is None,
    ensures
        spec_promote(config, credentials, target) is None,
{
}

/// Promotion is idempotent: promoting the same target a second time
/// yields exactly the stores the first promotion produced.
pub proof fn lemma_promote_idempotent(
    config: Seq<SectionView>,
    credentials: Seq<SectionView>,
    target: Seq<char>,
)
    ensures
        (match spec_promote(config, credentials, target) {
            Some(p) => spec_promote(p.0, p.1, target) == Some(p),
            None => true,
        }),
{
    let ra = "role_arn"@;
    let sp = "source_profile"@;
    let ak = "aws_access_key_id"@;
    let sk = "aws_secret_access_key"@;
    let dn = Some("default"@);
    let empty = Seq::<char>::empty();
    reveal_strlit("role_arn");
    reveal_strlit("source_profile");
    reveal_strlit("aws_access_key_id");
    reveal_strlit("aws_secret_access_key");
    assert(ra.len() == 8);
    assert(sp.len() == 14);
    assert(ak.len() == 17);
    assert(sk.len() == 21);
    assert(ra != sp);
    assert(ak != sk);
    lemma_named_index_from(config, dn, 0);
    lemma_named_index_from(credentials, dn, 0);
    match spec_target_assume_settings(config, target) {
        Some(st) => {
            match named_index(config, Some(target)) {
                Some(ti) => {
                    lemma_named_index_from(config, Some(target), 0);
                    assert(st == (st.0, st.1));
                    let c2 = spec_set_default_assume(config, st.0, st.1);
                    lemma_set_default_pair(config, ra, st.0, sp, st.1);
                    let dd = (match named_index(config, dn) {
                        Some(d) => d,
                        None => config.len() as int,
                    });
                    if target == "default"@ {
                        assert(named_index(c2, Some(target)) == Some(dd));
                        assert(spec_assume_settings(c2[dd].properties) == Some((st.0, st.1)));
                        assert(spec_target_assume_settings(c2, target) == Some(st));
                    } else {
                        lemma_named_index_from_agree(config, c2, Some(target), 0);
                        assert(config[ti].name == Some(target));
                        assert(ti != dd);
                        assert(c2[ti] == config[ti]);
                        assert(spec_target_assume_settings(c2, target) == Some(st));
                    }
                    lemma_set_to_same(c2, dn, ra, st.0);
                    lemma_set_to_same(c2, dn, sp, st.1);
                    assert(spec_set_default_assume(c2, st.0, st.1) == c2);
                }
                None => {
                    assert(false);
                }
            }
        }
        None => {
            match spec_target_profile_settings(credentials, target) {
                Some(st) => {
                    match named_index(credentials, Some(target)) {
                        Some(ci) => {
                            lemma_named_index_from(credentials, Some(target), 0);
                            assert(st == (st.0, st.1));
                            let c2 = spec_set_default_assume(config, empty, empty);
                            let r2 = spec_set_default_credentials(credentials, st.0, st.1);
                            lemma_set_default_pair(config, ra, empty, sp, empty);
                            lemma_set_default_pair(credentials, ak, st.0, sk, st.1);
                            let ddc = (match named_index(config, dn) {
                                Some(d) => d,
                                None => config.len() as int,
                            });
                            let ddr = (match named_index(credentials, dn) {
                                Some(d) => d,
                                None => credentials.len() as int,
                            });
                            if target == "default"@ {
                                assert(named_index(c2, Some(target)) == Some(ddc));
                                assert(spec_assume_settings(c2[ddc].properties) == Some(
                                    (empty, empty),
                                ));
                                assert(spec_target_assume_settings(c2, target) == Some(
                                    (empty, empty),
                                ));
                                lemma_set_to_same(c2, dn, ra, empty);
                                lemma_set_to_same(c2, dn, sp, empty);
                                assert(spec_set_default_assume(c2, empty, empty) == c2);
                                assert(spec_promote(c2, r2, target) == Some((c2, r2)));
                            } else {
                                lemma_named_index_from_agree(config, c2, Some(target), 0);
                                match named_index(config, Some(target)) {
                                    Some(ti) => {
                                        lemma_named_index_from(config, Some(target), 0);
                                        assert(config[ti].name == Some(target));
                                        assert(ti != ddc);
                                        assert(c2[ti] == config[ti]);
                                        assert(spec_target_assume_settings(c2, target) is None);
                                    }
                                    None => {
                                        assert(spec_target_assume_settings(c2, target) is None);
                                    }
                                }
                                lemma_named_index_from_agree(credentials, r2, Some(target), 0);
                                assert(credentials[ci].name == Some(target));
                                assert(ci != ddr);
                                assert(r2[ci] == credentials[ci]);
                                assert(spec_target_profile_settings(r2, target) == Some(st));
                                lemma_set_to_same(c2, dn, ra, empty);
                                lemma_set_to_same(c2, dn, sp, empty);
                                assert(spec_set_default_assume(c2, empty, empty) == c2);
                                lemma_set_to_same(r2, dn, ak, st.0);
                                lemma_set_to_same(r2, dn, sk, st.1);
                                assert(spec_set_default_credentials(r2, st.0, st.1) == r2);
                                assert(spec_promote(c2, r2, target) == Some((c2, r2)));
                            }
                        }
                        None => {
                            assert(false);
                        }
                    }
                }
                None => {}
            }
        }
    }
}

} // verus!
