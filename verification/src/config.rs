//! Editor-facing configuration of a preset: option values keyed by option id.
use crate::text::str_eq;
use vstd::prelude::*;

verus! {

/// The value of one preset option.
#[derive(Debug, Clone, PartialEq, Eq)]
pub enum OptionValue {
    Bool(bool),
    String(String),
    /// One of a fixed list of variants.
    Enum { selected: String, variants: Vec<String> },
}

/// An option value as plain values.
pub enum OptionView {
    Bool(bool),
    Str(Seq<char>),
    Enum { selected: Seq<char>, variants: Seq<Seq<char>> },
}

impl View for OptionValue {
    type V = OptionView;

    open spec fn view(&self) -> OptionView {
        match self {
            OptionValue::Bool(b) => OptionView::Bool(*b),
            OptionValue::String(s) => OptionView::Str(s@),
            OptionValue::Enum { selected, variants } => OptionView::Enum {
                selected: selected@,
                variants: crate::text::views(variants@),
            },
        }
    }
}

impl OptionValue {
    /// A copy of this value.
    pub fn duplicate(&self) -> (r: OptionValue)
        ensures
            r@ == self@,
    {
        match self {
            OptionValue::Bool(b) => OptionValue::Bool(*b),
            OptionValue::String(s) => OptionValue::String(s.clone()),
            OptionValue::Enum { selected, variants } => {
                let mut vs: Vec<String> = Vec::new();
                let mut i: usize = 0;
                while i < variants.len()
                    invariant
                        0 <= i <= variants@.len(),
                        vs@.len() == i,
                        crate::text::views(vs@) =~= crate::text::views(variants@).take(i as int),
                    decreases variants@.len() - i,
                {
                    let c = variants[i].clone();
                    let ghost before = vs@;
                    vs.push(c);
                    proof {
                        assert forall|j: int| 0 <= j < i implies #[trigger] vs@[j]@ == variants@[j]@ by {
                            assert(vs@[j] == before[j]);
                            assert(crate::text::views(before)[j] == crate::text::views(variants@).take(i as int)[j]);
                        }
                        assert(crate::text::views(vs@) =~= crate::text::views(variants@).take(i + 1));
                    }
                    i = i + 1;
                }
                assert(crate::text::views(variants@).take(variants@.len() as int) =~= crate::text::views(
                    variants@,
                ));
                OptionValue::Enum { selected: selected.clone(), variants: vs }
            },
        }
    }
}

impl OptionValue {
    /// Whether two values are the same: the same kind holding the same
    /// flag, text, or selection and variants.
    pub fn same_as(&self, other: &OptionValue) -> (b: bool)
        ensures
            b == (self@ == other@),
    {
        match self {
            OptionValue::Bool(a) => match other {
                OptionValue::Bool(b) => *a == *b,
                _ => false,
            },
            OptionValue::String(a) => match other {
                OptionValue::String(b) => str_eq(a.as_str(), b.as_str()),
                _ => false,
            },
            OptionValue::Enum { selected: s1, variants: v1 } => match other {
                OptionValue::Enum { selected: s2, variants: v2 } => {
                    if !str_eq(s1.as_str(), s2.as_str()) {
                        return false;
                    }
                    if v1.len() != v2.len() {
                        assert(crate::text::views(v1@).len() != crate::text::views(v2@).len());
                        return false;
                    }
                    let mut i: usize = 0;
                    while i < v1.len()
                        invariant
                            0 <= i <= v1@.len(),
                            v1@.len() == v2@.len(),
                            self@ == (OptionView::Enum { selected: s1@, variants: crate::text::views(v1@) }),
                            other@ == (OptionView::Enum { selected: s2@, variants: crate::text::views(v2@) }),
                            forall|j: int| 0 <= j < i ==> (#[trigger] v1@[j])@ == v2@[j]@,
                        decreases v1@.len() - i,
                    {
                        if !str_eq(v1[i].as_str(), v2[i].as_str()) {
                            assert(crate::text::views(v1@)[i as int] != crate::text::views(v2@)[i as int]);
                            return false;
                        }
                        i = i + 1;
                    }
                    assert(crate::text::views(v1@) =~= crate::text::views(v2@));
                    true
                },
                _ => false,
            },
        }
    }
}

/// An option counts as enabled when it is a set flag or holds any other value.
pub open spec fn is_enabled(v: OptionView) -> bool {
    match v {
        OptionView::Bool(b) => b,
        _ => true,
    }
}

/// The position of the first entry with key `k`.
pub open spec fn key_index(vs: Seq<(Seq<char>, OptionView)>, k: Seq<char>) -> Option<int>
    decreases vs.len(),
{
    if vs.len() == 0 {
        None
    } else if vs[0].0 == k {
        Some(0)
    } else {
        match key_index(vs.drop_first(), k) {
            Some(i) => Some(i + 1),
            None => None,
        }
    }
}

/// The value stored under `k`.
pub open spec fn lookup(vs: Seq<(Seq<char>, OptionView)>, k: Seq<char>) -> Option<OptionView> {
    match key_index(vs, k) {
        Some(i) => Some(vs[i].1),
        None => None,
    }
}

/// The entries after storing `v` under `k`: the entry of `k` is replaced in
/// place, or a new entry is appended.
pub open spec fn store(vs: Seq<(Seq<char>, OptionView)>, k: Seq<char>, v: OptionView) -> Seq<
    (Seq<char>, OptionView),
> {
    match key_index(vs, k) {
        Some(i) => vs.update(i, (k, v)),
        None => vs.push((k, v)),
    }
}

pub proof fn lemma_key_index(vs: Seq<(Seq<char>, OptionView)>, k: Seq<char>)
    ensures
        match key_index(vs, k) {
            Some(i) => 0 <= i < vs.len() && vs[i].0 == k && forall|j: int|
                0 <= j < i ==> vs[j].0 != k,
            None => forall|j: int| 0 <= j < vs.len() ==> vs[j].0 != k,
        },
    decreases vs.len(),
{
    if vs.len() > 0 && vs[0].0 != k {
        lemma_key_index(vs.drop_first(), k);
        match key_index(vs.drop_first(), k) {
            Some(i) => {
                assert forall|j: int| 0 <= j < i + 1 implies vs[j].0 != k by {
                    if j > 0 {
                        assert(vs[j] == vs.drop_first()[j - 1]);
                    }
                }
            },
            None => {
                assert forall|j: int| 0 <= j < vs.len() implies vs[j].0 != k by {
                    if j > 0 {
                        assert(vs[j] == vs.drop_first()[j - 1]);
                    }
                }
            },
        }
    }
}

/// The first index whose key is `k` is `i`.
pub proof fn lemma_key_index_at(vs: Seq<(Seq<char>, OptionView)>, k: Seq<char>, i: int)
    requires
        0 <= i < vs.len(),
        vs[i].0 == k,
        forall|j: int| 0 <= j < i ==> vs[j].0 != k,
    ensures
        key_index(vs, k) == Some(i),
{
    lemma_key_index(vs, k);
}

/// No entry has key `k`.
pub proof fn lemma_key_index_none(vs: Seq<(Seq<char>, OptionView)>, k: Seq<char>)
    requires
        forall|j: int| 0 <= j < vs.len() ==> vs[j].0 != k,
    ensures
        key_index(vs, k) is None,
{
    lemma_key_index(vs, k);
}

/// Reading a key back after storing it gives the stored value.
pub proof fn lemma_lookup_store_same(vs: Seq<(Seq<char>, OptionView)>, k: Seq<char>, v: OptionView)
    ensures
        lookup(store(vs, k, v), k) == Some(v),
{
    lemma_key_index(vs, k);
    let s = store(vs, k, v);
    match key_index(vs, k) {
        Some(i) => {
            lemma_key_index_at(s, k, i);
        },
        None => {
            lemma_key_index_at(s, k, vs.len() as int);
        },
    }
}

/// Storing one key leaves every other key's value unchanged.
pub proof fn lemma_lookup_store_other(
    vs: Seq<(Seq<char>, OptionView)>,
    k: Seq<char>,
    v: OptionView,
    k2: Seq<char>,
)
    requires
        k2 != k,
    ensures
        lookup(store(vs, k, v), k2) == lookup(vs, k2),
{
    lemma_key_index(vs, k);
    lemma_key_index(vs, k2);
    let s = store(vs, k, v);
    match key_index(vs, k2) {
        Some(i) => {
            lemma_key_index_at(s, k2, i);
        },
        None => {
            lemma_key_index_none(s, k2);
        },
    }
}

/// The configuration of one preset in the editor.
pub struct PresetConfig {
    preset_id: String,
    values: Vec<(String, OptionValue)>,
}

/// A preset configuration as plain values.
pub struct PresetConfigView {
    pub preset_id: Seq<char>,
    pub values: Seq<(Seq<char>, OptionView)>,
}

pub open spec fn entries_view(v: Seq<(String, OptionValue)>) -> Seq<(Seq<char>, OptionView)> {
    v.map_values(|p: (String, OptionValue)| (p.0@, p.1@))
}

impl View for PresetConfig {
    type V = PresetConfigView;

    closed spec fn view(&self) -> PresetConfigView {
        PresetConfigView { preset_id: self.preset_id@, values: entries_view(self.values@) }
    }
}

/// The flag stored under `k`; anything else reads as `false`.
pub open spec fn bool_of(c: PresetConfigView, k: Seq<char>) -> bool {
    match lookup(c.values, k) {
        Some(OptionView::Bool(b)) => b,
        _ => false,
    }
}

/// The text stored under `k`.
pub open spec fn string_of_key(c: PresetConfigView, k: Seq<char>) -> Option<Seq<char>> {
    match lookup(c.values, k) {
        Some(OptionView::Str(s)) => Some(s),
        _ => None,
    }
}

/// The selected variant stored under `k`.
pub open spec fn enum_of(c: PresetConfigView, k: Seq<char>) -> Option<Seq<char>> {
    match lookup(c.values, k) {
        Some(OptionView::Enum { selected, .. }) => Some(selected),
        _ => None,
    }
}

/// Some option of the configuration is enabled.
pub open spec fn any_enabled(c: PresetConfigView) -> bool {
    exists|i: int| 0 <= i < c.values.len() && is_enabled(#[trigger] c.values[i].1)
}

impl PresetConfig {
    /// An empty configuration of a preset.
    pub fn new(preset_id: String) -> (c: PresetConfig)
        ensures
            c@.preset_id == preset_id@,
            c@.values == Seq::<(Seq<char>, OptionView)>::empty(),
    {
        let c = PresetConfig { preset_id, values: Vec::new() };
        assert(entries_view(c.values@) =~= Seq::<(Seq<char>, OptionView)>::empty());
        c
    }

    /// A configuration holding the given entries, in order.
    pub fn from_entries(preset_id: String, values: Vec<(String, OptionValue)>) -> (c: PresetConfig)
        ensures
            c@.preset_id == preset_id@,
            c@.values == entries_view(values@),
    {
        PresetConfig { preset_id, values }
    }

    /// The preset this configuration belongs to.
    pub fn preset_id(&self) -> (s: &String)
        ensures
            s@ == self@.preset_id,
    {
        &self.preset_id
    }

    fn index_of(&self, option_id: &str) -> (r: Option<usize>)
        ensures
            match r {
                Some(i) => key_index(self@.values, option_id@) == Some(i as int) && i
                    < self.values@.len(),
                None => key_index(self@.values, option_id@) is None,
            },
    {
        let ghost vs = self@.values;
        proof {
            lemma_key_index(vs, option_id@);
        }
        let mut i: usize = 0;
        while i < self.values.len()
            invariant
                0 <= i <= self.values@.len(),
                vs == entries_view(self.values@),
                forall|j: int| 0 <= j < i ==> vs[j].0 != option_id@,
            decreases self.values@.len() - i,
        {
            if str_eq(self.values[i].0.as_str(), option_id) {
                proof {
                    lemma_key_index_at(vs, option_id@, i as int);
                }
                return Some(i);
            }
            i = i + 1;
        }
        proof {
            lemma_key_index_none(vs, option_id@);
        }
        None
    }

    /// The value of an option.
    pub fn get(&self, option_id: &str) -> (r: Option<&OptionValue>)
        ensures
            match r {
                Some(v) => lookup(self@.values, option_id@) == Some(v@),
                None => lookup(self@.values, option_id@) is None,
            },
    {
        match self.index_of(option_id) {
            Some(i) => Some(&self.values[i].1),
            None => None,
        }
    }

    /// Stores a value under an option id, replacing any previous value.
    pub fn set(&mut self, option_id: String, value: OptionValue)
        ensures
            final(self)@.preset_id == old(self)@.preset_id,
            final(self)@.values == store(old(self)@.values, option_id@, value@),
    {
        let ghost old_values = self@.values;
        match self.index_of(option_id.as_str()) {
            Some(i) => {
                let ghost k = option_id@;
                let ghost v = value@;
                let mut values: Vec<(String, OptionValue)> = Vec::new();
                std::mem::swap(&mut values, &mut self.values);
                values.set(i, (option_id, value));
                assert(entries_view(values@) =~= old_values.update(i as int, (k, v)));
                self.values = values;
            },
            None => {
                let ghost k = option_id@;
                let ghost v = value@;
                let mut values: Vec<(String, OptionValue)> = Vec::new();
                std::mem::swap(&mut values, &mut self.values);
                values.push((option_id, value));
                assert(entries_view(values@) =~= old_values.push((k, v)));
                self.values = values;
            },
        }
    }

    /// The flag stored under an option id; anything else reads as `false`.
    pub fn get_bool(&self, option_id: &str) -> (b: bool)
        ensures
            b == bool_of(self@, option_id@),
    {
        match self.get(option_id) {
            Some(OptionValue::Bool(b)) => *b,
            _ => false,
        }
    }

    /// The text stored under an option id.
    pub fn get_string(&self, option_id: &str) -> (r: Option<String>)
        ensures
            crate::detection::opt_view(r) == string_of_key(self@, option_id@),
    {
        match self.get(option_id) {
            Some(OptionValue::String(s)) => Some(s.clone()),
            _ => None,
        }
    }

    /// The selected variant stored under an option id.
    pub fn get_enum(&self, option_id: &str) -> (r: Option<String>)
        ensures
            crate::detection::opt_view(r) == enum_of(self@, option_id@),
    {
        match self.get(option_id) {
            Some(OptionValue::Enum { selected, .. }) => Some(selected.clone()),
            _ => None,
        }
    }

    /// Whether some option is enabled: a set flag, or any non-flag value.
    pub fn has_any_enabled(&self) -> (b: bool)
        ensures
            b == any_enabled(self@),
    {
        let ghost vs = self@.values;
        let mut i: usize = 0;
        while i < self.values.len()
            invariant
                0 <= i <= self.values@.len(),
                vs == entries_view(self.values@),
                vs == self@.values,
                forall|j: int| 0 <= j < i ==> !is_enabled(#[trigger] vs[j].1),
            decreases self.values@.len() - i,
        {
            let enabled = match &self.values[i].1 {
                OptionValue::Bool(b) => *b,
                _ => true,
            };
            if enabled {
                assert(is_enabled(vs[i as int].1));
                return true;
            }
            i = i + 1;
        }
        false
    }

    /// The option ids and values, in the order they were first stored.
    pub fn entries(&self) -> (r: &Vec<(String, OptionValue)>)
        ensures
            entries_view(r@) == self@.values,
    {
        &self.values
    }

    /// A copy of this configuration.
    pub fn duplicate(&self) -> (r: PresetConfig)
        ensures
            r@ == self@,
    {
        let mut values: Vec<(String, OptionValue)> = Vec::new();
        let mut i: usize = 0;
        while i < self.values.len()
            invariant
                0 <= i <= self.values@.len(),
                values@.len() == i,
                entries_view(values@) =~= entries_view(self.values@).take(i as int),
            decreases self.values@.len() - i,
        {
            let k = self.values[i].0.clone();
            let v = self.values[i].1.duplicate();
            let ghost before = values@;
            values.push((k, v));
            proof {
                assert forall|j: int| 0 <= j < i implies #[trigger] entries_view(values@)[j] == entries_view(self.values@)[j] by {
                    assert(values@[j] == before[j]);
                    assert(entries_view(before)[j] == entries_view(self.values@).take(i as int)[j]);
                }
                assert(entries_view(values@) =~= entries_view(self.values@).take(i + 1));
            }
            i = i + 1;
        }
        assert(entries_view(self.values@).take(self.values@.len() as int) =~= entries_view(
            self.values@,
        ));
        PresetConfig { preset_id: self.preset_id.clone(), values }
    }
}

/// Reading an option back after setting it gives the value that was set, and
/// setting one option leaves every other option as it was.
pub proof fn law_get_after_set(before: PresetConfigView, after: PresetConfigView, k: Seq<char>, v: OptionView, other: Seq<char>)
    requires
        after.values == store(before.values, k, v),
    ensures
        lookup(after.values, k) == Some(v),
        other != k ==> lookup(after.values, other) == lookup(before.values, other),
{
    lemma_lookup_store_same(before.values, k, v);
    if other != k {
        lemma_lookup_store_other(before.values, k, v, other);
    }
}

/// Appends an entry to a list of option values.
pub fn push_value(v: &mut Vec<(String, OptionValue)>, option_id: &str, value: OptionValue)
    ensures
        entries_view(final(v)@) == entries_view(old(v)@).push((option_id@, value@)),
{
    let ghost x = value@;
    v.push((option_id.to_owned(), value));
    assert(entries_view(v@) =~= entries_view(old(v)@).push((option_id@, x)));
}

/// Metadata of one option of a preset.
pub struct OptionMeta {
    pub id: String,
    pub display_name: String,
    pub description: String,
    pub default_value: OptionValue,
    pub depends_on: Option<String>,
}

/// A group of related options of a preset.
pub struct FeatureMeta {
    pub id: String,
    pub display_name: String,
    pub description: String,
    pub options: Vec<OptionMeta>,
}

/// Option metadata as plain values.
pub struct OptionMetaView {
    pub id: Seq<char>,
    pub display_name: Seq<char>,
    pub description: Seq<char>,
    pub default_value: OptionView,
    pub depends_on: Option<Seq<char>>,
}

impl View for OptionMeta {
    type V = OptionMetaView;

    open spec fn view(&self) -> OptionMetaView {
        OptionMetaView {
            id: self.id@,
            display_name: self.display_name@,
            description: self.description@,
            default_value: self.default_value@,
            depends_on: crate::detection::opt_view(self.depends_on),
        }
    }
}

/// Feature metadata as plain values.
pub struct FeatureView {
    pub id: Seq<char>,
    pub display_name: Seq<char>,
    pub description: Seq<char>,
    pub options: Seq<OptionMetaView>,
}

impl View for FeatureMeta {
    type V = FeatureView;

    open spec fn view(&self) -> FeatureView {
        FeatureView {
            id: self.id@,
            display_name: self.display_name@,
            description: self.description@,
            options: self.options@.map_values(|o: OptionMeta| o@),
        }
    }
}

pub open spec fn features_view(v: Seq<FeatureMeta>) -> Seq<FeatureView> {
    v.map_values(|f: FeatureMeta| f@)
}

/// Metadata of an option without dependency.
pub open spec fn meta_v(id: Seq<char>, display: Seq<char>, description: Seq<char>, default_value: OptionView) -> OptionMetaView {
    OptionMetaView { id, display_name: display, description, default_value, depends_on: None }
}

pub open spec fn feature_v(id: Seq<char>, display: Seq<char>, description: Seq<char>, options: Seq<OptionMetaView>) -> FeatureView {
    FeatureView { id, display_name: display, description, options }
}

} // verus!
