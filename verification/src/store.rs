use vstd::prelude::*;
use crate::text::str_eq;

verus! {

/// The mathematical content of a section body: its key-value pairs in order.
pub type EntriesView = Seq<(Seq<char>, Seq<char>)>;

// ---------------------------------------------------------------------------
// Key-value entries
// ---------------------------------------------------------------------------

/// Index of the first entry bearing `key`, searching from position `j`.
pub open spec fn key_index_from(entries: EntriesView, key: Seq<char>, j: int) -> Option<int>
    decreases entries.len() - j,
{
    if j >= entries.len() {
        None
    } else if entries[j].0 == key {
        Some(j)
    } else {
        key_index_from(entries, key, j + 1)
    }
}

/// Index of the first entry bearing `key`.
pub open spec fn key_index(entries: EntriesView, key: Seq<char>) -> Option<int> {
    key_index_from(entries, key, 0)
}

/// The value stored under `key`: that of the first entry bearing it.
pub open spec fn lookup(entries: EntriesView, key: Seq<char>) -> Option<Seq<char>> {
    match key_index(entries, key) {
        Some(i) => Some(entries[i].1),
        None => None,
    }
}

/// Entries after `key` is bound to `value`: the first entry bearing `key` is
/// overwritten, or a fresh entry is appended when none bears it.
pub open spec fn spec_insert(entries: EntriesView, key: Seq<char>, value: Seq<char>) -> EntriesView {
    match key_index(entries, key) {
        Some(i) => entries.update(i, (key, value)),
        None => entries.push((key, value)),
    }
}

pub proof fn lemma_key_index_from(entries: EntriesView, key: Seq<char>, j: int)
    requires
        0 <= j <= entries.len(),
    ensures
        match key_index_from(entries, key, j) {
            Some(i) => j <= i < entries.len() && entries[i].0 == key && (forall|k: int|
                j <= k < i ==> entries[k].0 != key),
            None => forall|k: int| j <= k < entries.len() ==> entries[k].0 != key,
        },
    decreases entries.len() - j,
{
    if j < entries.len() && entries[j].0 != key {
        lemma_key_index_from(entries, key, j + 1);
    }
}

/// Two entry sequences that agree on their keys (the longer one only adding
/// keys other than `key`) agree on where `key` first occurs.
pub proof fn lemma_key_index_from_agree(e: EntriesView, e2: EntriesView, key: Seq<char>, j: int)
    requires
        0 <= j,
        e.len() <= e2.len(),
        forall|k: int| 0 <= k < e.len() ==> e2[k].0 == e[k].0,
        forall|k: int| e.len() <= k < e2.len() ==> e2[k].0 != key,
    ensures
        key_index_from(e2, key, j) == key_index_from(e, key, j),
    decreases e2.len() - j,
{
    if j >= e2.len() {
    } else if j >= e.len() {
        lemma_key_index_from_agree(e, e2, key, j + 1);
    } else if e[j].0 == key {
    } else {
        lemma_key_index_from_agree(e, e2, key, j + 1);
    }
}

/// A first occurrence of `key` at `i` with none before pins the search down.
pub proof fn lemma_key_index_from_unique(e: EntriesView, key: Seq<char>, j: int, i: int)
    requires
        0 <= j <= i < e.len(),
        e[i].0 == key,
        forall|k: int| j <= k < i ==> e[k].0 != key,
    ensures
        key_index_from(e, key, j) == Some(i),
    decreases i - j,
{
    if j < i {
        lemma_key_index_from_unique(e, key, j + 1, i);
    }
}

/// After a binding is written, looking its key up yields the new value and
/// every other key reads as before.
pub proof fn lemma_insert_lookup(entries: EntriesView, key: Seq<char>, value: Seq<char>)
    ensures
        lookup(spec_insert(entries, key, value), key) == Some(value),
        forall|k2: Seq<char>| k2 != key ==> lookup(spec_insert(entries, key, value), k2) == lookup(
            entries,
            k2,
        ),
{
    let e2 = spec_insert(entries, key, value);
    lemma_key_index_from(entries, key, 0);
    match key_index(entries, key) {
        Some(i) => {
            assert(forall|k: int| 0 <= k < entries.len() ==> e2[k].0 == entries[k].0);
            lemma_key_index_from_agree(entries, e2, key, 0);
            assert forall|k2: Seq<char>| k2 != key implies lookup(e2, k2) == lookup(
                entries,
                k2,
            ) by {
                lemma_key_index_from_agree(entries, e2, k2, 0);
                lemma_key_index_from(entries, k2, 0);
            }
        }
        None => {
            lemma_key_index_from_unique(e2, key, 0, entries.len() as int);
            assert forall|k2: Seq<char>| k2 != key implies lookup(e2, k2) == lookup(
                entries,
                k2,
            ) by {
                lemma_key_index_from_agree(entries, e2, k2, 0);
                lemma_key_index_from(entries, k2, 0);
            }
        }
    }
}

// ---------------------------------------------------------------------------
// Properties: one section's key-value pairs
// ---------------------------------------------------------------------------

/// An unordered string mapping, held as a sequence of key-value pairs in which
/// the first entry bearing a key carries its value.
#[derive(Debug)]
pub struct Properties {
    pub entries: Vec<(String, String)>,
}

impl View for Properties {
    type V = EntriesView;

    open spec fn view(&self) -> EntriesView {
        self.entries.deep_view()
    }
}

impl Properties {
    pub fn new() -> (r: Properties)
        ensures
            r@ == Seq::<(Seq<char>, Seq<char>)>::empty(),
    {
        let r = Properties { entries: Vec::new() };
        proof {
            assert(r@ =~= Seq::<(Seq<char>, Seq<char>)>::empty());
        }
        r
    }

    /// Position of the first entry bearing `key`, if any.
    fn key_position(&self, key: &str) -> (r: Option<usize>)
        ensures
            match r {
                Some(i) => i < self@.len() && key_index(self@, key@) == Some(i as int),
                None => key_index(self@, key@) is None,
            },
    {
        let n = self.entries.len();
        let mut i: usize = 0;
        while i < n
            invariant
                n == self.entries.len(),
                i <= n,
                key_index(self@, key@) == key_index_from(self@, key@, i as int),
            decreases n - i,
        {
            if str_eq(self.entries[i].0.as_str(), key) {
                return Some(i);
            }
            i += 1;
        }
        None
    }

    /// Binds `key` to `value`, overwriting the first entry bearing `key` or
    /// appending a fresh one.
    pub fn insert(&mut self, key: String, value: String)
        ensures
            final(self)@ == spec_insert(old(self)@, key@, value@),
    {
        match self.key_position(key.as_str()) {
            Some(i) => {
                self.entries.remove(i);
                self.entries.insert(i, (key, value));
                proof {
                    assert(self@ =~= spec_insert(old(self)@, key@, value@));
                }
            }
            None => {
                self.entries.push((key, value));
                proof {
                    assert(self@ =~= spec_insert(old(self)@, key@, value@));
                }
            }
        }
    }

    /// The value bound to `key`, if any.
    pub fn get(&self, key: &str) -> (r: Option<String>)
        ensures
            match r {
                Some(v) => lookup(self@, key@) == Some(v@),
                None => lookup(self@, key@) is None,
            },
    {
        match self.key_position(key) {
            Some(i) => Some(self.entries[i].1.clone()),
            None => None,
        }
    }
}

impl Clone for Properties {
    fn clone(&self) -> (r: Self)
        ensures
            r@ == self@,
    {
        let n = self.entries.len();
        let mut entries: Vec<(String, String)> = Vec::new();
        let mut i: usize = 0;
        while i < n
            invariant
                n == self.entries.len(),
                i <= n,
                entries.deep_view().len() == i,
                forall|j: int| 0 <= j < i ==> entries.deep_view()[j] == self@[j],
            decreases n - i,
        {
            let k = self.entries[i].0.clone();
            let v = self.entries[i].1.clone();
            entries.push((k, v));
            i += 1;
        }
        let r = Properties { entries };
        proof {
            assert(r@ =~= self@);
        }
        r
    }
}

// ---------------------------------------------------------------------------
// Sections and stores
// ---------------------------------------------------------------------------

/// The mathematical content of one section.
#[verifier::ext_equal]
pub ghost struct SectionView {
    pub name: Option<Seq<char>>,
    pub properties: EntriesView,
}

/// One named (or unnamed) group of key-value pairs.
#[derive(Debug)]
pub struct Section {
    pub name: Option<String>,
    pub properties: Properties,
}

/// The name of a section, viewed mathematically.
pub open spec fn opt_name_view(name: Option<String>) -> Option<Seq<char>> {
    match name {
        Some(n) => Some(n@),
        None => None,
    }
}

impl View for Section {
    type V = SectionView;

    open spec fn view(&self) -> SectionView {
        SectionView { name: opt_name_view(self.name), properties: self.properties@ }
    }
}

impl Clone for Section {
    fn clone(&self) -> (r: Self)
        ensures
            r@ == self@,
    {
        let name = match &self.name {
            Some(n) => Some(n.clone()),
            None => None,
        };
        Section { name, properties: self.properties.clone() }
    }
}

/// An in-memory configuration store: an ordered collection of sections.
#[derive(Debug)]
pub struct Store {
    pub sections: Vec<Section>,
}

impl View for Store {
    type V = Seq<SectionView>;

    open spec fn view(&self) -> Seq<SectionView> {
        Seq::new(self.sections@.len(), |i: int| self.sections@[i]@)
    }
}

impl Store {
    pub fn new() -> (r: Store)
        ensures
            r@ == Seq::<SectionView>::empty(),
    {
        let r = Store { sections: Vec::new() };
        proof {
            assert(r@ =~= Seq::<SectionView>::empty());
        }
        r
    }

    /// Position of the first section whose name equals `name` exactly.
    fn position_named(&self, name: &Option<String>) -> (r: Option<usize>)
        ensures
            match r {
                Some(i) => i < self@.len() && named_index(self@, opt_name_view(*name)) == Some(
                    i as int,
                ),
                None => named_index(self@, opt_name_view(*name)) is None,
            },
    {
        let n = self.sections.len();
        let mut i: usize = 0;
        while i < n
            invariant
                n == self.sections.len(),
                i <= n,
                named_index(self@, opt_name_view(*name)) == named_index_from(
                    self@,
                    opt_name_view(*name),
                    i as int,
                ),
            decreases n - i,
        {
            let here = match (&self.sections[i].name, name) {
                (Some(a), Some(b)) => str_eq(a.as_str(), b.as_str()),
                (None, None) => true,
                _ => false,
            };
            if here {
                proof {
                    assert(self@[i as int].name == opt_name_view(*name));
                }
                return Some(i);
            }
            proof {
                assert(self@[i as int].name != opt_name_view(*name));
            }
            i += 1;
        }
        None
    }

    /// Binds `key` to `value` inside the first section named `section_name`,
    /// appending a fresh section of that name when none exists.
    pub fn set_to(&mut self, section_name: Option<String>, key: String, value: String)
        ensures
            final(self)@ == spec_set_to(old(self)@, opt_name_view(section_name), key@, value@),
    {
        match self.position_named(&section_name) {
            Some(i) => {
                let mut sec = self.sections.remove(i);
                sec.properties.insert(key, value);
                self.sections.insert(i, sec);
                proof {
                    assert(final(self)@ =~= spec_set_to(
                        old(self)@,
                        opt_name_view(section_name),
                        key@,
                        value@,
                    ));
                }
            }
            None => {
                let mut properties = Properties::new();
                properties.insert(key, value);
                self.sections.push(Section { name: section_name, properties });
                proof {
                    assert(final(self)@ =~= spec_set_to(
                        old(self)@,
                        opt_name_view(section_name),
                        key@,
                        value@,
                    ));
                }
            }
        }
    }
}

impl Clone for Store {
    fn clone(&self) -> (r: Self)
        ensures
            r@ == self@,
    {
        let n = self.sections.len();
        let mut sections: Vec<Section> = Vec::new();
        let mut i: usize = 0;
        while i < n
            invariant
                n == self.sections.len(),
                i <= n,
                sections@.len() == i,
                forall|j: int| 0 <= j < i ==> sections@[j]@ == self@[j],
            decreases n - i,
        {
            let sec = self.sections[i].clone();
            sections.push(sec);
            i += 1;
        }
        let r = Store { sections };
        proof {
            assert(r@ =~= self@);
        }
        r
    }
}

/// Index of the first section named exactly `name`, searching from `j`.
pub open spec fn named_index_from(s: Seq<SectionView>, name: Option<Seq<char>>, j: int) -> Option<
    int,
>
    decreases s.len() - j,
{
    if j >= s.len() {
        None
    } else if s[j].name == name {
        Some(j)
    } else {
        named_index_from(s, name, j + 1)
    }
}

/// Index of the first section named exactly `name`.
pub open spec fn named_index(s: Seq<SectionView>, name: Option<Seq<char>>) -> Option<int> {
    named_index_from(s, name, 0)
}

pub proof fn lemma_named_index_from(s: Seq<SectionView>, name: Option<Seq<char>>, j: int)
    requires
        0 <= j <= s.len(),
    ensures
        match named_index_from(s, name, j) {
            Some(i) => j <= i < s.len() && s[i].name == name && (forall|k: int|
                j <= k < i ==> s[k].name != name),
            None => forall|k: int| j <= k < s.len() ==> s[k].name != name,
        },
    decreases s.len() - j,
{
    if j < s.len() && s[j].name != name {
        lemma_named_index_from(s, name, j + 1);
    }
}

/// Two stores that agree on their section names (the longer one only adding
/// sections named otherwise than `name`) agree on where `name` first occurs.
pub proof fn lemma_named_index_from_agree(
    s: Seq<SectionView>,
    s2: Seq<SectionView>,
    name: Option<Seq<char>>,
    j: int,
)
    requires
        0 <= j,
        s.len() <= s2.len(),
        forall|k: int| 0 <= k < s.len() ==> s2[k].name == s[k].name,
        forall|k: int| s.len() <= k < s2.len() ==> s2[k].name != name,
    ensures
        named_index_from(s2, name, j) == named_index_from(s, name, j),
    decreases s2.len() - j,
{
    if j >= s2.len() {
    } else if j >= s.len() {
        lemma_named_index_from_agree(s, s2, name, j + 1);
    } else if s[j].name == name {
    } else {
        lemma_named_index_from_agree(s, s2, name, j + 1);
    }
}

/// A first occurrence of `name` at `i` with none before pins the search down.
pub proof fn lemma_named_index_from_unique(
    s: Seq<SectionView>,
    name: Option<Seq<char>>,
    j: int,
    i: int,
)
    requires
        0 <= j <= i < s.len(),
        s[i].name == name,
        forall|k: int| j <= k < i ==> s[k].name != name,
    ensures
        named_index_from(s, name, j) == Some(i),
    decreases i - j,
{
    if j < i {
        lemma_named_index_from_unique(s, name, j + 1, i);
    }
}

/// Writing a binding that a section already carries, word for word, leaves
/// the store unchanged.
pub proof fn lemma_set_to_same(
    s: Seq<SectionView>,
    name: Option<Seq<char>>,
    key: Seq<char>,
    value: Seq<char>,
)
    requires
        (named_index(s, name) matches Some(d) && lookup(s[d].properties, key) == Some(value)),
    ensures
        spec_set_to(s, name, key, value) == s,
{
    lemma_named_index_from(s, name, 0);
    match named_index(s, name) {
        Some(d) => {
            let props = s[d].properties;
            lemma_key_index_from(props, key, 0);
            match key_index(props, key) {
                Some(ki) => {
                    assert(props[ki] == (key, value));
                    assert(spec_insert(props, key, value) =~= props);
                    assert(SectionView { name: s[d].name, properties: spec_insert(props, key, value) }
                        =~= s[d]);
                    assert(spec_set_to(s, name, key, value) =~= s);
                }
                None => {
                    assert(false);
                }
            }
        }
        None => {
            assert(false);
        }
    }
}

/// A store after `key` is bound to `value` inside the first section named
/// `name`: that section's entries gain the binding, or a fresh section holding
/// only the binding is appended when none bears the name.
pub open spec fn spec_set_to(
    s: Seq<SectionView>,
    name: Option<Seq<char>>,
    key: Seq<char>,
    value: Seq<char>,
) -> Seq<SectionView> {
    match named_index(s, name) {
        Some(i) => s.update(
            i,
            SectionView { name: s[i].name, properties: spec_insert(s[i].properties, key, value) },
        ),
        None => s.push(SectionView { name, properties: seq![(key, value)] }),
    }
}

} // verus!
