//! The state of the interactive editor: which presets are configured how, the
//! tree of presets, features and options the user walks, the platform, and the
//! preview of the generated configuration.
use crate::config::{
    any_enabled, features_view, lookup, store, FeatureMeta, FeatureView, OptionMeta,
    OptionMetaView, OptionValue, OptionView, PresetConfig, PresetConfigView,
};
use crate::detection::{DetectionResult, DetectionView, ProjectType};
use crate::error::{error_message, CciError};
use crate::models::{pairs_v, strs_v};
use crate::presets::{
    build_registry, builtin_presets, kind_description, kind_features, kind_id, kind_matches,
    kind_default_config, kind_output, lemma_kind_index, next_platform, platform_index,
    platform_of_name, platforms, registry_get, Platform, PresetKind, PresetRegistry,
};
use crate::ron_types::{
    choice_config, config_choice, file_id_of, file_preset_id, preset_choice_to_config, preset_config_to_choice,
    choice_editor_id, ChoiceView, PresetChoice,
};
use crate::text::str_eq;
use vstd::prelude::*;

verus! {

/// An entry of the editor's tree: a preset, one of its features, or one of a
/// feature's options.
#[derive(Debug, Clone, PartialEq, Eq, Hash)]
pub enum TreeItem {
    Preset(String),
    Feature(String, String),
    Option(String, String, String),
}

/// A tree entry as plain values.
pub enum TreeItemView {
    Preset(Seq<char>),
    Feature(Seq<char>, Seq<char>),
    Option(Seq<char>, Seq<char>, Seq<char>),
}

impl View for TreeItem {
    type V = TreeItemView;

    open spec fn view(&self) -> TreeItemView {
        match self {
            TreeItem::Preset(p) => TreeItemView::Preset(p@),
            TreeItem::Feature(p, f) => TreeItemView::Feature(p@, f@),
            TreeItem::Option(p, f, o) => TreeItemView::Option(p@, f@, o@),
        }
    }
}

pub open spec fn items_view(v: Seq<TreeItem>) -> Seq<TreeItemView> {
    v.map_values(|t: TreeItem| t@)
}

pub open spec fn configs_view(v: Seq<PresetConfig>) -> Seq<PresetConfigView> {
    v.map_values(|c: PresetConfig| c@)
}

pub open spec fn text_set(v: Seq<String>) -> Set<Seq<char>> {
    strs_v(v).to_set()
}

pub open spec fn pair_set(v: Seq<(String, String)>) -> Set<(Seq<char>, Seq<char>)> {
    pairs_v(v).to_set()
}

/// The editor's state.
pub struct EditorState {
    pub project_type: ProjectType,
    pub language_version: String,
    pub working_dir: String,
    pub target_platform: Platform,
    pub registry: PresetRegistry,
    /// The configuration of each preset, one per preset identifier.
    pub preset_configs: Vec<PresetConfig>,
    /// The identifiers of the presets shown unfolded.
    pub expanded_presets: Vec<String>,
    /// The (preset, feature) pairs shown unfolded.
    pub expanded_features: Vec<(String, String)>,
    pub tree_items: Vec<TreeItem>,
    pub tree_cursor: usize,
    pub platform_menu_open: bool,
    pub platform_menu_cursor: usize,
    pub preview_scroll: u16,
    pub yaml_preview: String,
    pub generation_error: Option<String>,
    pub current_item_description: String,
    pub should_quit: bool,
    pub should_write: bool,
}

/// The editor's state as plain values.
pub struct EditorView {
    pub project_type: ProjectType,
    pub language_version: Seq<char>,
    pub working_dir: Seq<char>,
    pub target_platform: Platform,
    pub registry: Seq<PresetKind>,
    pub configs: Seq<PresetConfigView>,
    pub expanded_presets: Set<Seq<char>>,
    pub expanded_features: Set<(Seq<char>, Seq<char>)>,
    pub tree_items: Seq<TreeItemView>,
    pub tree_cursor: usize,
    pub platform_menu_open: bool,
    pub platform_menu_cursor: usize,
    pub preview_scroll: u16,
    pub yaml_preview: Seq<char>,
    pub generation_error: Option<Seq<char>>,
    pub current_item_description: Seq<char>,
    pub should_quit: bool,
    pub should_write: bool,
}

impl View for EditorState {
    type V = EditorView;

    open spec fn view(&self) -> EditorView {
        EditorView {
            project_type: self.project_type,
            language_version: self.language_version@,
            working_dir: self.working_dir@,
            target_platform: self.target_platform,
            registry: self.registry@,
            configs: configs_view(self.preset_configs@),
            expanded_presets: text_set(self.expanded_presets@),
            expanded_features: pair_set(self.expanded_features@),
            tree_items: items_view(self.tree_items@),
            tree_cursor: self.tree_cursor,
            platform_menu_open: self.platform_menu_open,
            platform_menu_cursor: self.platform_menu_cursor,
            preview_scroll: self.preview_scroll,
            yaml_preview: self.yaml_preview@,
            generation_error: crate::models::opt_v(self.generation_error),
            current_item_description: self.current_item_description@,
            should_quit: self.should_quit,
            should_write: self.should_write,
        }
    }
}

// ---------------------------------------------------------------- configurations by preset

/// The position of the first configuration of a preset.
pub open spec fn config_index(cs: Seq<PresetConfigView>, id: Seq<char>) -> Option<int>
    decreases cs.len(),
{
    if cs.len() == 0 {
        None
    } else if cs[0].preset_id == id {
        Some(0)
    } else {
        match config_index(cs.drop_first(), id) {
            Some(i) => Some(i + 1),
            None => None,
        }
    }
}

/// The configuration of a preset.
pub open spec fn config_of(cs: Seq<PresetConfigView>, id: Seq<char>) -> Option<PresetConfigView> {
    match config_index(cs, id) {
        Some(i) => Some(cs[i]),
        None => None,
    }
}

/// The value of an option of a preset.
pub open spec fn option_value_of(cs: Seq<PresetConfigView>, id: Seq<char>, option: Seq<char>) -> Option<
    OptionView,
> {
    match config_of(cs, id) {
        Some(c) => lookup(c.values, option),
        None => None,
    }
}

/// The configurations after storing a value under an option of a preset; a
/// preset without configuration is left as it is.
pub open spec fn set_in_configs(
    cs: Seq<PresetConfigView>,
    id: Seq<char>,
    option: Seq<char>,
    v: OptionView,
) -> Seq<PresetConfigView> {
    match config_index(cs, id) {
        Some(i) => cs.update(
            i,
            PresetConfigView { preset_id: cs[i].preset_id, values: store(cs[i].values, option, v) },
        ),
        None => cs,
    }
}

pub proof fn lemma_config_index(cs: Seq<PresetConfigView>, id: Seq<char>)
    ensures
        match config_index(cs, id) {
            Some(i) => 0 <= i < cs.len() && cs[i].preset_id == id && forall|j: int|
                0 <= j < i ==> (#[trigger] cs[j]).preset_id != id,
            None => forall|j: int| 0 <= j < cs.len() ==> (#[trigger] cs[j]).preset_id != id,
        },
    decreases cs.len(),
{
    if cs.len() > 0 && cs[0].preset_id != id {
        lemma_config_index(cs.drop_first(), id);
        assert forall|j: int| 0 < j < cs.len() implies cs[j] == cs.drop_first()[j - 1] by {}
    }
}

pub proof fn lemma_config_index_at(cs: Seq<PresetConfigView>, id: Seq<char>, i: int)
    requires
        0 <= i < cs.len(),
        cs[i].preset_id == id,
        forall|j: int| 0 <= j < i ==> (#[trigger] cs[j]).preset_id != id,
    ensures
        config_index(cs, id) == Some(i),
{
    lemma_config_index(cs, id);
}

/// Changing an option keeps every configuration where it was.
pub proof fn lemma_set_keeps_index(
    cs: Seq<PresetConfigView>,
    id: Seq<char>,
    option: Seq<char>,
    v: OptionView,
    other: Seq<char>,
)
    ensures
        config_index(set_in_configs(cs, id, option, v), other) == config_index(cs, other),
        set_in_configs(cs, id, option, v).len() == cs.len(),
{
    lemma_config_index(cs, id);
    lemma_config_index(cs, other);
    let after = set_in_configs(cs, id, option, v);
    assert forall|j: int| 0 <= j < cs.len() implies (#[trigger] after[j]).preset_id == cs[j].preset_id by {}
    match config_index(cs, other) {
        Some(i) => {
            lemma_config_index_at(after, other, i);
        },
        None => {
            lemma_config_index(after, other);
        },
    }
}

/// The preset identifiers of the configurations, in order.
pub open spec fn config_ids(cs: Seq<PresetConfigView>) -> Seq<Seq<char>> {
    cs.map_values(|c: PresetConfigView| c.preset_id)
}

/// No preset has two configurations: the editor's configurations are keyed
/// by preset.
pub open spec fn ids_unique(cs: Seq<PresetConfigView>) -> bool {
    forall|i: int, j: int|
        0 <= i < j < config_ids(cs).len() ==> #[trigger] config_ids(cs)[i] != #[trigger] config_ids(cs)[j]
}

/// Changing an option keeps the preset identifiers of all configurations.
pub proof fn lemma_set_keeps_ids(cs: Seq<PresetConfigView>, id: Seq<char>, option: Seq<char>, v: OptionView)
    ensures
        config_ids(set_in_configs(cs, id, option, v)) == config_ids(cs),
{
    lemma_config_index(cs, id);
    assert(config_ids(set_in_configs(cs, id, option, v)) =~= config_ids(cs));
}

/// Storing one value under several options keeps the preset identifiers.
pub proof fn lemma_set_all_keeps_ids(cs: Seq<PresetConfigView>, p: Seq<char>, ids: Seq<Seq<char>>, v: OptionView)
    ensures
        config_ids(set_all(cs, p, ids, v)) == config_ids(cs),
    decreases ids.len(),
{
    if ids.len() > 0 {
        lemma_set_all_keeps_ids(cs, p, ids.drop_last(), v);
        lemma_set_keeps_ids(set_all(cs, p, ids.drop_last(), v), p, ids.last(), v);
    }
}

/// Storing a configuration under its preset keeps one configuration per preset.
pub proof fn lemma_put_config_unique(cs: Seq<PresetConfigView>, c: PresetConfigView)
    requires
        ids_unique(cs),
    ensures
        ids_unique(put_config(cs, c)),
{
    lemma_config_index(cs, c.preset_id);
    let after = put_config(cs, c);
    match config_index(cs, c.preset_id) {
        Some(i) => {
            assert(config_ids(after) =~= config_ids(cs));
        },
        None => {
            assert(config_ids(after) =~= config_ids(cs).push(c.preset_id));
            assert forall|a: int, b: int| 0 <= a < b < config_ids(after).len() implies
                #[trigger] config_ids(after)[a] != #[trigger] config_ids(after)[b] by {
                if b == cs.len() {
                    assert(cs[a].preset_id != c.preset_id);
                } else {
                    assert(config_ids(cs)[a] != config_ids(cs)[b]);
                }
            }
        },
    }
}

// ---------------------------------------------------------------- the preview

/// A preset is active when its configuration enables some option.
pub open spec fn is_active(k: PresetKind, cs: Seq<PresetConfigView>) -> bool {
    match config_of(cs, kind_id(k)) {
        Some(c) => any_enabled(c),
        None => false,
    }
}

/// The position of the first active preset.
pub open spec fn active_index(ks: Seq<PresetKind>, cs: Seq<PresetConfigView>) -> Option<int>
    decreases ks.len(),
{
    if ks.len() == 0 {
        None
    } else if is_active(ks[0], cs) {
        Some(0)
    } else {
        match active_index(ks.drop_first(), cs) {
            Some(i) => Some(i + 1),
            None => None,
        }
    }
}

pub proof fn lemma_active_index(ks: Seq<PresetKind>, cs: Seq<PresetConfigView>)
    ensures
        match active_index(ks, cs) {
            Some(i) => 0 <= i < ks.len() && is_active(ks[i], cs) && forall|j: int|
                0 <= j < i ==> !is_active(#[trigger] ks[j], cs),
            None => forall|j: int| 0 <= j < ks.len() ==> !is_active(#[trigger] ks[j], cs),
        },
    decreases ks.len(),
{
    if ks.len() > 0 && !is_active(ks[0], cs) {
        lemma_active_index(ks.drop_first(), cs);
        assert forall|j: int| 0 < j < ks.len() implies ks[j] == ks.drop_first()[j - 1] by {}
    }
}

pub open spec fn no_preset_message() -> Seq<char> {
    "# No preset options enabled\n# Enable at least one option to generate configuration"@
}

/// The state after the preview is generated again: the first preset, in
/// registry order, with an enabled option generates it; a failure keeps the old
/// preview and records the error.
pub open spec fn regenerated(s: EditorView) -> EditorView {
    match active_index(s.registry, s.configs) {
        None => EditorView {
            preview_scroll: 0,
            yaml_preview: no_preset_message(),
            generation_error: None,
            ..s
        },
        Some(i) => {
            let k = s.registry[i];
            let c = config_of(s.configs, kind_id(k))->Some_0;
            match kind_output(k, c, s.target_platform, s.language_version) {
                Ok(text) => EditorView {
                    preview_scroll: 0,
                    yaml_preview: text,
                    generation_error: None,
                    ..s
                },
                Err(e) => EditorView {
                    preview_scroll: 0,
                    generation_error: Some(error_message(e)),
                    ..s
                },
            }
        },
    }
}

// ---------------------------------------------------------------- the tree

/// The presets, in order, whose match with the project is `want`.
pub open spec fn matching_part(ks: Seq<PresetKind>, t: ProjectType, want: bool) -> Seq<PresetKind>
    decreases ks.len(),
{
    if ks.len() == 0 {
        Seq::empty()
    } else {
        matching_part(ks.drop_last(), t, want) + if kind_matches(ks.last(), t) == want {
            seq![ks.last()]
        } else {
            Seq::empty()
        }
    }
}

pub open spec fn option_items(p: Seq<char>, f: Seq<char>, os: Seq<OptionMetaView>) -> Seq<TreeItemView> {
    os.map_values(|o: OptionMetaView| TreeItemView::Option(p, f, o.id))
}

/// The entries of a preset's features: each feature, followed by its options
/// when it is unfolded.
pub open spec fn feature_items(
    p: Seq<char>,
    fs: Seq<FeatureView>,
    ef: Set<(Seq<char>, Seq<char>)>,
) -> Seq<TreeItemView>
    decreases fs.len(),
{
    if fs.len() == 0 {
        Seq::empty()
    } else {
        let f = fs.last();
        feature_items(p, fs.drop_last(), ef) + seq![TreeItemView::Feature(p, f.id)] + if ef.contains(
            (p, f.id),
        ) {
            option_items(p, f.id, f.options)
        } else {
            Seq::empty()
        }
    }
}

/// The entries of a preset: the preset, followed by its features when it is unfolded.
pub open spec fn preset_items(
    k: PresetKind,
    ep: Set<Seq<char>>,
    ef: Set<(Seq<char>, Seq<char>)>,
) -> Seq<TreeItemView> {
    seq![TreeItemView::Preset(kind_id(k))] + if ep.contains(kind_id(k)) {
        feature_items(kind_id(k), kind_features(k), ef)
    } else {
        Seq::empty()
    }
}

pub open spec fn tree_of(ks: Seq<PresetKind>, ep: Set<Seq<char>>, ef: Set<(Seq<char>, Seq<char>)>) -> Seq<
    TreeItemView,
>
    decreases ks.len(),
{
    if ks.len() == 0 {
        Seq::empty()
    } else {
        tree_of(ks.drop_last(), ep, ef) + preset_items(ks.last(), ep, ef)
    }
}

/// The tree: the presets that match the project first, then the others, each
/// group in registry order.
pub open spec fn editor_tree(s: EditorView) -> Seq<TreeItemView> {
    tree_of(matching_part(s.registry, s.project_type, true), s.expanded_presets, s.expanded_features)
        + tree_of(
        matching_part(s.registry, s.project_type, false),
        s.expanded_presets,
        s.expanded_features,
    )
}

pub open spec fn rebuilt(s: EditorView) -> EditorView {
    EditorView { tree_items: editor_tree(s), ..s }
}

// ---------------------------------------------------------------- the description line

/// The first feature with the identifier.
pub open spec fn feature_named(fs: Seq<FeatureView>, id: Seq<char>) -> Option<FeatureView>
    decreases fs.len(),
{
    if fs.len() == 0 {
        None
    } else if fs[0].id == id {
        Some(fs[0])
    } else {
        feature_named(fs.drop_first(), id)
    }
}

/// The first option with the identifier.
pub open spec fn option_named(os: Seq<OptionMetaView>, id: Seq<char>) -> Option<OptionMetaView>
    decreases os.len(),
{
    if os.len() == 0 {
        None
    } else if os[0].id == id {
        Some(os[0])
    } else {
        option_named(os.drop_first(), id)
    }
}

/// The description of a tree entry; empty for what the registry does not know.
pub open spec fn item_description(ks: Seq<PresetKind>, t: TreeItemView) -> Seq<char> {
    match t {
        TreeItemView::Preset(p) => match registry_get(ks, p) {
            Some(k) => kind_description(k),
            None => Seq::empty(),
        },
        TreeItemView::Feature(p, f) => match registry_get(ks, p) {
            Some(k) => match feature_named(kind_features(k), f) {
                Some(fv) => fv.description,
                None => Seq::empty(),
            },
            None => Seq::empty(),
        },
        TreeItemView::Option(p, f, o) => match registry_get(ks, p) {
            Some(k) => match feature_named(kind_features(k), f) {
                Some(fv) => match option_named(fv.options, o) {
                    Some(ov) => ov.description,
                    None => Seq::empty(),
                },
                None => Seq::empty(),
            },
            None => Seq::empty(),
        },
    }
}

pub open spec fn described(s: EditorView) -> EditorView {
    EditorView {
        current_item_description: if s.tree_cursor < s.tree_items.len() {
            item_description(s.registry, s.tree_items[s.tree_cursor as int])
        } else {
            Seq::empty()
        },
        ..s
    }
}


// ---------------------------------------------------------------- sets held in vectors

proof fn lemma_push_to_set<A>(s: Seq<A>, x: A)
    ensures
        s.push(x).to_set() == s.to_set().insert(x),
{
    assert forall|a: A| s.push(x).contains(a) <==> (s.contains(a) || a == x) by {
        if s.push(x).contains(a) {
            let i = choose|i: int| 0 <= i < s.push(x).len() && s.push(x)[i] == a;
            if i < s.len() {
                assert(s[i] == a);
            }
        }
        if s.contains(a) {
            let i = choose|i: int| 0 <= i < s.len() && s[i] == a;
            assert(s.push(x)[i] == a);
        }
        if a == x {
            assert(s.push(x)[s.len() as int] == a);
        }
    }
    assert forall|a: A| s.push(x).to_set().contains(a) == s.to_set().insert(x).contains(a) by {
        assert(s.push(x).to_set().contains(a) == s.push(x).contains(a));
        assert(s.to_set().contains(a) == s.contains(a));
    }
    assert(s.push(x).to_set() =~= s.to_set().insert(x));
}

fn contains_text(v: &Vec<String>, s: &str) -> (b: bool)
    ensures
        b == text_set(v@).contains(s@),
{
    let mut i: usize = 0;
    while i < v.len()
        invariant
            0 <= i <= v@.len(),
            forall|j: int| 0 <= j < i ==> (#[trigger] v@[j])@ != s@,
        decreases v@.len() - i,
    {
        if str_eq(v[i].as_str(), s) {
            assert(strs_v(v@)[i as int] == s@);
            return true;
        }
        i = i + 1;
    }
    assert(!strs_v(v@).contains(s@)) by {
        if strs_v(v@).contains(s@) {
            let j = choose|j: int| 0 <= j < strs_v(v@).len() && strs_v(v@)[j] == s@;
            assert(v@[j]@ == s@);
        }
    }
    false
}

fn contains_pair(v: &Vec<(String, String)>, a: &str, b: &str) -> (r: bool)
    ensures
        r == pair_set(v@).contains((a@, b@)),
{
    let mut i: usize = 0;
    while i < v.len()
        invariant
            0 <= i <= v@.len(),
            forall|j: int| 0 <= j < i ==> ((#[trigger] v@[j]).0@, v@[j].1@) != (a@, b@),
        decreases v@.len() - i,
    {
        if str_eq(v[i].0.as_str(), a) && str_eq(v[i].1.as_str(), b) {
            assert(pairs_v(v@)[i as int] == (a@, b@));
            return true;
        }
        i = i + 1;
    }
    assert(!pairs_v(v@).contains((a@, b@))) by {
        if pairs_v(v@).contains((a@, b@)) {
            let j = choose|j: int| 0 <= j < pairs_v(v@).len() && pairs_v(v@)[j] == (a@, b@);
            assert((v@[j].0@, v@[j].1@) == (a@, b@));
        }
    }
    false
}

/// The pairs of a set that do not belong to a preset.
pub open spec fn without_preset(ef: Set<(Seq<char>, Seq<char>)>, p: Seq<char>) -> Set<(Seq<char>, Seq<char>)> {
    Set::new(|x: (Seq<char>, Seq<char>)| ef.contains(x) && x.0 != p)
}

fn remove_text(v: &Vec<String>, s: &str) -> (r: Vec<String>)
    ensures
        text_set(r@) == text_set(v@).remove(s@),
{
    let mut r: Vec<String> = Vec::new();
    let mut i: usize = 0;
    while i < v.len()
        invariant
            0 <= i <= v@.len(),
            forall|x: Seq<char>| strs_v(r@).contains(x) <==> (strs_v(v@.take(i as int)).contains(x) && x != s@),
        decreases v@.len() - i,
    {
        let ghost before = r@;
        proof {
            assert(strs_v(v@.take(i + 1)) =~= strs_v(v@.take(i as int)).push(v@[i as int]@));
            lemma_push_to_set(strs_v(v@.take(i as int)), v@[i as int]@);
        }
        if !str_eq(v[i].as_str(), s) {
            r.push(v[i].clone());
            proof {
                assert(strs_v(r@) =~= strs_v(before).push(v@[i as int]@));
                lemma_push_to_set(strs_v(before), v@[i as int]@);
                assert forall|x: Seq<char>| strs_v(r@).contains(x) <==> (strs_v(v@.take(i + 1)).contains(x)
                    && x != s@) by {
                    assert(strs_v(r@).to_set().contains(x) == strs_v(r@).contains(x));
                    assert(strs_v(before).to_set().contains(x) == strs_v(before).contains(x));
                    assert(strs_v(v@.take(i + 1)).to_set().contains(x) == strs_v(v@.take(i + 1)).contains(x));
                    assert(strs_v(v@.take(i as int)).to_set().contains(x) == strs_v(v@.take(i as int)).contains(x));
                }
            }
        } else {
            proof {
                assert forall|x: Seq<char>| strs_v(r@).contains(x) <==> (strs_v(v@.take(i + 1)).contains(x)
                    && x != s@) by {
                    assert(strs_v(v@.take(i + 1)).to_set().contains(x) == strs_v(v@.take(i + 1)).contains(x));
                    assert(strs_v(v@.take(i as int)).to_set().contains(x) == strs_v(v@.take(i as int)).contains(x));
                }
            }
        }
        i = i + 1;
    }
    assert(v@.take(v@.len() as int) =~= v@);
    assert(text_set(r@) =~= text_set(v@).remove(s@));
    r
}

/// Whether a pair is one of those to drop: of preset `a`, and of feature `b`
/// when one is given.
pub open spec fn pair_dropped(x: (Seq<char>, Seq<char>), a: Seq<char>, b: Option<Seq<char>>) -> bool {
    x.0 == a && match b {
        Some(b) => x.1 == b,
        None => true,
    }
}

pub open spec fn opt_text(b: Option<&str>) -> Option<Seq<char>> {
    match b {
        Some(b) => Some(b@),
        None => None,
    }
}

fn remove_pairs(v: &Vec<(String, String)>, a: &str, b: Option<&str>) -> (r: Vec<(String, String)>)
    ensures
        forall|x: (Seq<char>, Seq<char>)|
            #[trigger] pair_set(r@).contains(x) == (pair_set(v@).contains(x) && !pair_dropped(
                x,
                a@,
                opt_text(b),
            )),
{
    let ghost bb = opt_text(b);
    let mut r: Vec<(String, String)> = Vec::new();
    let mut i: usize = 0;
    while i < v.len()
        invariant
            0 <= i <= v@.len(),
            bb == opt_text(b),
            forall|x: (Seq<char>, Seq<char>)| pairs_v(r@).contains(x) <==> (pairs_v(v@.take(i as int)).contains(x)
                && !pair_dropped(x, a@, bb)),
        decreases v@.len() - i,
    {
        let ghost before = r@;
        let ghost x0 = (v@[i as int].0@, v@[i as int].1@);
        proof {
            assert(pairs_v(v@.take(i + 1)) =~= pairs_v(v@.take(i as int)).push(x0));
            lemma_push_to_set(pairs_v(v@.take(i as int)), x0);
        }
        let dropped = str_eq(v[i].0.as_str(), a) && match b {
            Some(b) => str_eq(v[i].1.as_str(), b),
            None => true,
        };
        if !dropped {
            r.push((v[i].0.clone(), v[i].1.clone()));
            proof {
                assert(pairs_v(r@) =~= pairs_v(before).push(x0));
                lemma_push_to_set(pairs_v(before), x0);
                assert forall|x: (Seq<char>, Seq<char>)| pairs_v(r@).contains(x) <==> (pairs_v(
                    v@.take(i + 1),
                ).contains(x) && !pair_dropped(x, a@, bb)) by {
                    assert(pairs_v(r@).to_set().contains(x) == pairs_v(r@).contains(x));
                    assert(pairs_v(before).to_set().contains(x) == pairs_v(before).contains(x));
                    assert(pairs_v(v@.take(i + 1)).to_set().contains(x) == pairs_v(v@.take(i + 1)).contains(x));
                    assert(pairs_v(v@.take(i as int)).to_set().contains(x) == pairs_v(v@.take(i as int)).contains(x));
                }
            }
        } else {
            proof {
                assert(pair_dropped(x0, a@, bb));
                assert forall|x: (Seq<char>, Seq<char>)| pairs_v(r@).contains(x) <==> (pairs_v(
                    v@.take(i + 1),
                ).contains(x) && !pair_dropped(x, a@, bb)) by {
                    assert(pairs_v(v@.take(i + 1)).to_set().contains(x) == pairs_v(v@.take(i + 1)).contains(x));
                    assert(pairs_v(v@.take(i as int)).to_set().contains(x) == pairs_v(v@.take(i as int)).contains(x));
                }
            }
        }
        i = i + 1;
    }
    assert(v@.take(v@.len() as int) =~= v@);
    r
}

pub proof fn lemma_active_index_at(ks: Seq<PresetKind>, cs: Seq<PresetConfigView>, i: int)
    requires
        0 <= i < ks.len(),
        is_active(ks[i], cs),
        forall|j: int| 0 <= j < i ==> !is_active(#[trigger] ks[j], cs),
    ensures
        active_index(ks, cs) == Some(i),
{
    lemma_active_index(ks, cs);
}

// ---------------------------------------------------------------- building the tree

fn push_option_items(items: &mut Vec<TreeItem>, p: &str, f: &str, os: &Vec<OptionMeta>)
    ensures
        items_view(final(items)@) == items_view(old(items)@) + option_items(
            p@,
            f@,
            os@.map_values(|o: OptionMeta| o@),
        ),
{
    let ghost base = items_view(items@);
    let ghost ov = os@.map_values(|o: OptionMeta| o@);
    let mut i: usize = 0;
    while i < os.len()
        invariant
            0 <= i <= os@.len(),
            ov == os@.map_values(|o: OptionMeta| o@),
            items_view(items@) == base + option_items(p@, f@, ov.take(i as int)),
        decreases os@.len() - i,
    {
        let ghost before = items_view(items@);
        items.push(TreeItem::Option(p.to_owned(), f.to_owned(), os[i].id.clone()));
        proof {
            assert(items_view(items@) =~= before.push(TreeItemView::Option(p@, f@, ov[i as int].id)));
            assert(option_items(p@, f@, ov.take(i + 1)) =~= option_items(p@, f@, ov.take(i as int)).push(
                TreeItemView::Option(p@, f@, ov[i as int].id),
            ));
        }
        i = i + 1;
    }
    assert(ov.take(os@.len() as int) =~= ov);
}

fn push_feature_items(items: &mut Vec<TreeItem>, p: &str, fs: &Vec<FeatureMeta>, ef: &Vec<(String, String)>)
    ensures
        items_view(final(items)@) == items_view(old(items)@) + feature_items(
            p@,
            features_view(fs@),
            pair_set(ef@),
        ),
{
    let ghost base = items_view(items@);
    let ghost fv = features_view(fs@);
    let ghost e = pair_set(ef@);
    let mut j: usize = 0;
    while j < fs.len()
        invariant
            0 <= j <= fs@.len(),
            fv == features_view(fs@),
            e == pair_set(ef@),
            items_view(items@) == base + feature_items(p@, fv.take(j as int), e),
        decreases fs@.len() - j,
    {
        let ghost before = items_view(items@);
        let f = &fs[j];
        items.push(TreeItem::Feature(p.to_owned(), f.id.clone()));
        let ghost mid = items_view(items@);
        assert(mid =~= before.push(TreeItemView::Feature(p@, f.id@)));
        if contains_pair(ef, p, f.id.as_str()) {
            push_option_items(items, p, f.id.as_str(), &f.options);
        }
        proof {
            assert(fv.take(j + 1).drop_last() =~= fv.take(j as int));
            assert(fv.take(j + 1).last() == f@);
            assert(items_view(items@) =~= base + feature_items(p@, fv.take(j + 1), e));
        }
        j = j + 1;
    }
    assert(fv.take(fs@.len() as int) =~= fv);
}

fn push_preset_items(items: &mut Vec<TreeItem>, k: PresetKind, ep: &Vec<String>, ef: &Vec<(String, String)>)
    ensures
        items_view(final(items)@) == items_view(old(items)@) + preset_items(k, text_set(ep@), pair_set(ef@)),
{
    let ghost base = items_view(items@);
    let id = k.preset_id();
    items.push(TreeItem::Preset(id.to_owned()));
    assert(items_view(items@) =~= base.push(TreeItemView::Preset(kind_id(k))));
    if contains_text(ep, id) {
        let fs = k.features();
        push_feature_items(items, id, &fs, ef);
    }
    assert(items_view(items@) =~= base + preset_items(k, text_set(ep@), pair_set(ef@)));
}

impl EditorState {
    /// The position of a preset's configuration.
    fn config_position(&self, id: &str) -> (r: Option<usize>)
        ensures
            match r {
                Some(i) => config_index(self@.configs, id@) == Some(i as int) && i < self.preset_configs@.len(),
                None => config_index(self@.configs, id@) is None,
            },
    {
        let ghost cs = self@.configs;
        let mut i: usize = 0;
        while i < self.preset_configs.len()
            invariant
                0 <= i <= self.preset_configs@.len(),
                cs == configs_view(self.preset_configs@),
                forall|j: int| 0 <= j < i ==> (#[trigger] cs[j]).preset_id != id@,
            decreases self.preset_configs@.len() - i,
        {
            if str_eq(self.preset_configs[i].preset_id().as_str(), id) {
                proof {
                    lemma_config_index_at(cs, id@, i as int);
                }
                return Some(i);
            }
            i = i + 1;
        }
        proof {
            lemma_config_index(cs, id@);
        }
        None
    }

    /// The configuration of a preset.
    pub fn preset_config(&self, preset_id: &str) -> (r: Option<&PresetConfig>)
        ensures
            match r {
                Some(c) => config_of(self@.configs, preset_id@) == Some(c@),
                None => config_of(self@.configs, preset_id@) is None,
            },
    {
        match self.config_position(preset_id) {
            Some(i) => Some(&self.preset_configs[i]),
            None => None,
        }
    }

    /// The value of an option of a preset.
    pub fn get_option_value(&self, preset_id: &str, option_id: &str) -> (r: Option<&OptionValue>)
        ensures
            match r {
                Some(v) => option_value_of(self@.configs, preset_id@, option_id@) == Some(v@),
                None => option_value_of(self@.configs, preset_id@, option_id@) is None,
            },
    {
        match self.config_position(preset_id) {
            Some(i) => self.preset_configs[i].get(option_id),
            None => None,
        }
    }

    /// Stores a value under an option of a preset; a preset without
    /// configuration is left as it is.
    pub fn set_option_value(&mut self, preset_id: &str, option_id: &str, value: OptionValue)
        ensures
            final(self)@ == (EditorView {
                configs: set_in_configs(old(self)@.configs, preset_id@, option_id@, value@),
                ..old(self)@
            }),
    {
        match self.config_position(preset_id) {
            Some(i) => {
                let ghost cs = self@.configs;
                let ghost vv = value@;
                let mut configs: Vec<PresetConfig> = Vec::new();
                std::mem::swap(&mut configs, &mut self.preset_configs);
                let ghost all = configs@;
                let mut c = configs.remove(i);
                c.set(option_id.to_owned(), value);
                configs.insert(i, c);
                proof {
                    assert(configs@ =~= all.update(i as int, c));
                    assert(configs_view(configs@) =~= set_in_configs(cs, preset_id@, option_id@, vv));
                }
                self.preset_configs = configs;
            },
            None => {},
        }
    }

    /// The positions of the first active preset and of its configuration.
    fn active_preset(&self) -> (r: Option<(usize, usize)>)
        ensures
            match r {
                Some((i, j)) => active_index(self@.registry, self@.configs) == Some(i as int)
                    && config_index(self@.configs, kind_id(self@.registry[i as int])) == Some(j as int)
                    && j < self.preset_configs@.len(),
                None => active_index(self@.registry, self@.configs) is None,
            },
    {
        let kinds = self.registry.all();
        let ghost ks = self@.registry;
        let ghost cs = self@.configs;
        let mut i: usize = 0;
        while i < kinds.len()
            invariant
                0 <= i <= kinds@.len(),
                kinds@ == ks,
                ks == self@.registry,
                cs == self@.configs,
                forall|j: int| 0 <= j < i ==> !is_active(#[trigger] ks[j], cs),
            decreases kinds@.len() - i,
        {
            let k = kinds[i];
            match self.config_position(k.preset_id()) {
                Some(j) => {
                    if self.preset_configs[j].has_any_enabled() {
                        proof {
                            assert(cs[j as int] == self.preset_configs@[j as int]@);
                            lemma_active_index_at(ks, cs, i as int);
                        }
                        return Some((i, j));
                    }
                    assert(cs[j as int] == self.preset_configs@[j as int]@);
                },
                None => {},
            }
            i = i + 1;
        }
        proof {
            lemma_active_index(ks, cs);
            if active_index(ks, cs) is Some {
                let x = active_index(ks, cs)->Some_0;
                assert(!is_active(ks[x], cs));
            }
        }
        None
    }

    /// Generates the preview again from the first preset, in registry order,
    /// that has an enabled option.
    pub fn regenerate_yaml(&mut self)
        ensures
            final(self)@ == regenerated(old(self)@),
    {
        self.preview_scroll = 0;
        match self.active_preset() {
            None => {
                self.yaml_preview = "# No preset options enabled\n# Enable at least one option to generate configuration".to_owned();
                self.generation_error = None;
            },
            Some((i, j)) => {
                proof {
                    lemma_active_index(self@.registry, self@.configs);
                }
                let kinds = self.registry.all();
                let k = kinds[i];
                let r = k.generate(&self.preset_configs[j], self.target_platform, self.language_version.as_str());
                assert(self@.configs[j as int] == self.preset_configs@[j as int]@);
                match r {
                    Ok(text) => {
                        self.yaml_preview = text;
                        self.generation_error = None;
                    },
                    Err(e) => {
                        self.generation_error = Some(e.message());
                    },
                }
            },
        }
    }

    /// Builds the tree again: the presets that match the project first, then
    /// the others, each with its unfolded features and options.
    pub fn rebuild_tree(&mut self)
        ensures
            final(self)@ == rebuilt(old(self)@),
    {
        let kinds = self.registry.all();
        let ghost ks = self@.registry;
        let ghost ep = self@.expanded_presets;
        let ghost ef = self@.expanded_features;
        let pt = self.project_type;
        let mut items: Vec<TreeItem> = Vec::new();
        let mut i: usize = 0;
        while i < kinds.len()
            invariant
                0 <= i <= kinds@.len(),
                kinds@ == ks,
                ep == text_set(self.expanded_presets@),
                ef == pair_set(self.expanded_features@),
                items_view(items@) == tree_of(matching_part(ks.take(i as int), pt, true), ep, ef),
            decreases kinds@.len() - i,
        {
            let k = kinds[i];
            proof {
                assert(ks.take(i + 1).drop_last() =~= ks.take(i as int));
            }
            if k.matches_project(pt) {
                push_preset_items(&mut items, k, &self.expanded_presets, &self.expanded_features);
                proof {
                    let m = matching_part(ks.take(i as int), pt, true);
                    assert(matching_part(ks.take(i + 1), pt, true) =~= m.push(k));
                    assert(m.push(k).drop_last() =~= m);
                }
            } else {
                assert(matching_part(ks.take(i + 1), pt, true) =~= matching_part(ks.take(i as int), pt, true));
            }
            i = i + 1;
        }
        assert(ks.take(ks.len() as int) =~= ks);
        let ghost first = items_view(items@);
        let mut i: usize = 0;
        while i < kinds.len()
            invariant
                0 <= i <= kinds@.len(),
                kinds@ == ks,
                ep == text_set(self.expanded_presets@),
                ef == pair_set(self.expanded_features@),
                first == tree_of(matching_part(ks, pt, true), ep, ef),
                items_view(items@) == first + tree_of(matching_part(ks.take(i as int), pt, false), ep, ef),
            decreases kinds@.len() - i,
        {
            let k = kinds[i];
            proof {
                assert(ks.take(i + 1).drop_last() =~= ks.take(i as int));
            }
            if !k.matches_project(pt) {
                push_preset_items(&mut items, k, &self.expanded_presets, &self.expanded_features);
                proof {
                    let m = matching_part(ks.take(i as int), pt, false);
                    assert(matching_part(ks.take(i + 1), pt, false) =~= m.push(k));
                    assert(m.push(k).drop_last() =~= m);
                    assert(items_view(items@) =~= first + tree_of(matching_part(ks.take(i + 1), pt, false), ep, ef));
                }
            } else {
                assert(matching_part(ks.take(i + 1), pt, false) =~= matching_part(ks.take(i as int), pt, false));
            }
            i = i + 1;
        }
        self.tree_items = items;
    }
}


// ---------------------------------------------------------------- the editor's operations

/// The state after a preset is folded or unfolded; folding it also folds its features.
pub open spec fn after_toggle_preset_expand(s: EditorView, p: Seq<char>) -> EditorView {
    rebuilt(
        if s.expanded_presets.contains(p) {
            EditorView {
                expanded_presets: s.expanded_presets.remove(p),
                expanded_features: without_preset(s.expanded_features, p),
                ..s
            }
        } else {
            EditorView { expanded_presets: s.expanded_presets.insert(p), ..s }
        },
    )
}

/// The state after a feature of a preset is folded or unfolded.
pub open spec fn after_toggle_feature_expand(s: EditorView, p: Seq<char>, f: Seq<char>) -> EditorView {
    rebuilt(
        EditorView {
            expanded_features: if s.expanded_features.contains((p, f)) {
                s.expanded_features.remove((p, f))
            } else {
                s.expanded_features.insert((p, f))
            },
            ..s
        },
    )
}

/// The first position of a text in a list.
pub open spec fn first_position(vs: Seq<Seq<char>>, x: Seq<char>) -> Option<int>
    decreases vs.len(),
{
    if vs.len() == 0 {
        None
    } else if vs[0] == x {
        Some(0)
    } else {
        match first_position(vs.drop_first(), x) {
            Some(i) => Some(i + 1),
            None => None,
        }
    }
}

pub open spec fn position_or_zero(vs: Seq<Seq<char>>, x: Seq<char>) -> int {
    match first_position(vs, x) {
        Some(i) => i,
        None => 0,
    }
}

pub proof fn lemma_first_position(vs: Seq<Seq<char>>, x: Seq<char>)
    ensures
        match first_position(vs, x) {
            Some(i) => 0 <= i < vs.len() && vs[i] == x && forall|j: int| 0 <= j < i ==> vs[j] != x,
            None => forall|j: int| 0 <= j < vs.len() ==> vs[j] != x,
        },
    decreases vs.len(),
{
    if vs.len() > 0 && vs[0] != x {
        lemma_first_position(vs.drop_first(), x);
        assert forall|j: int| 0 < j < vs.len() implies vs[j] == vs.drop_first()[j - 1] by {}
    }
}

/// A value after it is toggled: a flag flips, a choice moves to the next
/// variant (after the last comes the first; an unknown choice counts as the
/// first), and text stays as it is.
pub open spec fn toggled_value(v: OptionView) -> OptionView {
    match v {
        OptionView::Bool(b) => OptionView::Bool(!b),
        OptionView::Enum { selected, variants } => OptionView::Enum {
            selected: variants[(position_or_zero(variants, selected) + 1) % (variants.len() as int)],
            variants,
        },
        OptionView::Str(t) => OptionView::Str(t),
    }
}

/// Toggling is defined for every value but a choice without variants.
pub open spec fn toggle_allowed(s: EditorView, p: Seq<char>, o: Seq<char>) -> bool {
    match option_value_of(s.configs, p, o) {
        Some(OptionView::Enum { variants, .. }) => variants.len() > 0,
        _ => true,
    }
}

/// The state after an option is toggled and the preview generated again.
pub open spec fn after_toggle_option(s: EditorView, p: Seq<char>, o: Seq<char>) -> EditorView {
    regenerated(
        match option_value_of(s.configs, p, o) {
            Some(v) => EditorView { configs: set_in_configs(s.configs, p, o, toggled_value(v)), ..s },
            None => s,
        },
    )
}

/// The state after the next platform is chosen.
pub open spec fn after_cycle_platform(s: EditorView) -> EditorView {
    regenerated(EditorView { target_platform: next_platform(s.target_platform), ..s })
}

/// The identifiers of the options, in order, whose default is a flag.
pub open spec fn flag_ids_of(os: Seq<OptionMetaView>) -> Seq<Seq<char>>
    decreases os.len(),
{
    if os.len() == 0 {
        Seq::empty()
    } else {
        flag_ids_of(os.drop_last()) + if os.last().default_value is Bool {
            seq![os.last().id]
        } else {
            Seq::empty()
        }
    }
}

/// The identifiers of the flag options of all features, in order.
pub open spec fn flag_ids(fs: Seq<FeatureView>) -> Seq<Seq<char>>
    decreases fs.len(),
{
    if fs.len() == 0 {
        Seq::empty()
    } else {
        flag_ids(fs.drop_last()) + flag_ids_of(fs.last().options)
    }
}

/// The configurations after storing one value under several options of a preset, in order.
pub open spec fn set_all(cs: Seq<PresetConfigView>, p: Seq<char>, ids: Seq<Seq<char>>, v: OptionView) -> Seq<
    PresetConfigView,
>
    decreases ids.len(),
{
    if ids.len() == 0 {
        cs
    } else {
        set_in_configs(set_all(cs, p, ids.drop_last(), v), p, ids.last(), v)
    }
}

/// The state after a preset is switched as a whole: every flag option is set
/// off when some option was enabled, on otherwise.
pub open spec fn after_toggle_preset(s: EditorView, p: Seq<char>) -> EditorView {
    match config_of(s.configs, p) {
        None => s,
        Some(c) => match registry_get(s.registry, p) {
            None => s,
            Some(k) => regenerated(
                EditorView {
                    configs: set_all(s.configs, p, flag_ids(kind_features(k)), OptionView::Bool(!any_enabled(c))),
                    ..s
                },
            ),
        },
    }
}

/// The state after the platform under the menu's cursor is chosen; the menu closes.
pub open spec fn after_select_platform(s: EditorView) -> EditorView {
    let chosen = if s.platform_menu_cursor < 5 {
        regenerated(EditorView { target_platform: platforms()[s.platform_menu_cursor as int], ..s })
    } else {
        s
    };
    EditorView { platform_menu_open: false, ..chosen }
}

pub open spec fn scrolled_up(s: EditorView) -> EditorView {
    EditorView {
        preview_scroll: if s.preview_scroll > 0 {
            (s.preview_scroll - 1) as u16
        } else {
            0
        },
        ..s
    }
}

pub open spec fn scrolled_down(s: EditorView) -> EditorView {
    EditorView {
        preview_scroll: if s.preview_scroll < u16::MAX {
            (s.preview_scroll + 1) as u16
        } else {
            u16::MAX
        },
        ..s
    }
}

/// The state built from a detection, before the tree, preview and description
/// are made: every preset configured by default, on when it matches the
/// project, and the matching presets unfolded.
pub open spec fn initial_state(d: DetectionView, platform: Option<Seq<char>>, working_dir: Seq<char>) -> EditorView {
    let tp = match platform {
        Some(p) => platform_of_name(p),
        None => Platform::GitHub,
    };
    EditorView {
        project_type: d.project_type,
        language_version: match d.language_version {
            Some(v) => v,
            None => "stable"@,
        },
        working_dir,
        target_platform: tp,
        registry: builtin_presets(),
        configs: builtin_presets().map_values(
            |k: PresetKind| kind_default_config(k, kind_matches(k, d.project_type)),
        ),
        expanded_presets: matching_part(builtin_presets(), d.project_type, true).map_values(
            |k: PresetKind| kind_id(k),
        ).to_set(),
        expanded_features: Set::empty(),
        tree_items: Seq::empty(),
        tree_cursor: 0,
        platform_menu_open: false,
        platform_menu_cursor: platform_index(tp) as usize,
        preview_scroll: 0,
        yaml_preview: Seq::empty(),
        generation_error: None,
        current_item_description: Seq::empty(),
        should_quit: false,
        should_write: false,
    }
}

/// The editor's first state for a detected project.
pub open spec fn opened(d: DetectionView, platform: Option<Seq<char>>, working_dir: Seq<char>) -> EditorView {
    described(regenerated(rebuilt(initial_state(d, platform, working_dir))))
}

fn position_of(vs: &Vec<String>, x: &str) -> (r: usize)
    ensures
        r == position_or_zero(crate::text::views(vs@), x@),
{
    let ghost v = crate::text::views(vs@);
    let mut i: usize = 0;
    proof {
        lemma_first_position(v, x@);
    }
    while i < vs.len()
        invariant
            0 <= i <= vs@.len(),
            v == crate::text::views(vs@),
            forall|j: int| 0 <= j < i ==> v[j] != x@,
            match first_position(v, x@) {
                Some(k) => 0 <= k < v.len() && v[k] == x@ && forall|j: int| 0 <= j < k ==> v[j] != x@,
                None => forall|j: int| 0 <= j < v.len() ==> v[j] != x@,
            },
        decreases vs@.len() - i,
    {
        if str_eq(vs[i].as_str(), x) {
            assert(v[i as int] == vs@[i as int]@);
            assert(first_position(v, x@) == Some(i as int));
            return i;
        }
        assert(v[i as int] == vs@[i as int]@);
        i = i + 1;
    }
    0
}

fn copy_strings(vs: &Vec<String>) -> (r: Vec<String>)
    ensures
        crate::text::views(r@) == crate::text::views(vs@),
{
    let mut r: Vec<String> = Vec::new();
    let mut i: usize = 0;
    while i < vs.len()
        invariant
            0 <= i <= vs@.len(),
            crate::text::views(r@) =~= crate::text::views(vs@).take(i as int),
        decreases vs@.len() - i,
    {
        let ghost before = r@;
        r.push(vs[i].clone());
        proof {
            assert(crate::text::views(r@) =~= crate::text::views(before).push(vs@[i as int]@));
        }
        i = i + 1;
    }
    assert(crate::text::views(vs@).take(vs@.len() as int) =~= crate::text::views(vs@));
    r
}

fn toggled(v: &OptionValue) -> (r: OptionValue)
    requires
        match v@ {
            OptionView::Enum { variants, .. } => variants.len() > 0,
            _ => true,
        },
    ensures
        r@ == toggled_value(v@),
{
    match v {
        OptionValue::Bool(b) => OptionValue::Bool(!*b),
        OptionValue::String(t) => OptionValue::String(t.clone()),
        OptionValue::Enum { selected, variants } => {
            let ghost vs = crate::text::views(variants@);
            let pos = position_of(variants, selected.as_str());
            proof {
                lemma_first_position(vs, selected@);
                assert(vs.len() == variants@.len());
                assert(v@ == OptionView::Enum { selected: selected@, variants: vs });
                assert(vs.len() > 0);
                assert(pos < vs.len());
            }
            let len = variants.len();
            assert(pos < len);
            let next = (pos + 1) % len;
            let chosen = variants[next].clone();
            OptionValue::Enum { selected: chosen, variants: copy_strings(variants) }
        },
    }
}

fn find_feature(fs: &Vec<FeatureMeta>, id: &str) -> (r: Option<usize>)
    ensures
        match r {
            Some(j) => j < fs@.len() && feature_named(features_view(fs@), id@) == Some(fs@[j as int]@),
            None => feature_named(features_view(fs@), id@) is None,
        },
{
    let ghost fv = features_view(fs@);
    let mut i: usize = 0;
    assert(fv.subrange(0, fv.len() as int) =~= fv);
    while i < fs.len()
        invariant
            0 <= i <= fs@.len(),
            fv == features_view(fs@),
            feature_named(fv, id@) == feature_named(fv.subrange(i as int, fv.len() as int), id@),
        decreases fs@.len() - i,
    {
        let ghost rest = fv.subrange(i as int, fv.len() as int);
        assert(rest[0] == fs@[i as int]@);
        if str_eq(fs[i].id.as_str(), id) {
            return Some(i);
        }
        assert(rest.drop_first() =~= fv.subrange(i + 1, fv.len() as int));
        i = i + 1;
    }
    None
}

fn find_option(os: &Vec<OptionMeta>, id: &str) -> (r: Option<usize>)
    ensures
        match r {
            Some(j) => j < os@.len() && option_named(os@.map_values(|o: OptionMeta| o@), id@) == Some(
                os@[j as int]@,
            ),
            None => option_named(os@.map_values(|o: OptionMeta| o@), id@) is None,
        },
{
    let ghost ov = os@.map_values(|o: OptionMeta| o@);
    let mut i: usize = 0;
    assert(ov.subrange(0, ov.len() as int) =~= ov);
    while i < os.len()
        invariant
            0 <= i <= os@.len(),
            ov == os@.map_values(|o: OptionMeta| o@),
            option_named(ov, id@) == option_named(ov.subrange(i as int, ov.len() as int), id@),
        decreases os@.len() - i,
    {
        let ghost rest = ov.subrange(i as int, ov.len() as int);
        assert(rest[0] == os@[i as int]@);
        if str_eq(os[i].id.as_str(), id) {
            return Some(i);
        }
        assert(rest.drop_first() =~= ov.subrange(i + 1, ov.len() as int));
        i = i + 1;
    }
    None
}

impl EditorState {
    /// The editor's first state for a detected project: every preset
    /// configured, enabled when it matches the project, the matching presets
    /// unfolded, the tree, preview and description made.
    pub fn from_detection(detection: DetectionResult, platform: Option<String>, working_dir: String) -> (r:
        Result<EditorState, CciError>)
        ensures
            r is Ok,
            r->Ok_0@ == opened(detection@, crate::models::opt_v(platform), working_dir@),
            ids_unique(r->Ok_0@.configs),
    {
        let ghost d = detection@;
        let project_type = detection.project_type;
        let language_version = match detection.language_version {
            Some(v) => v,
            None => "stable".to_owned(),
        };
        let target_platform = match &platform {
            Some(p) => Platform::from_name(p.as_str()),
            None => Platform::GitHub,
        };
        let registry = build_registry();
        let kinds = registry.all();
        let ghost ks = kinds@;
        let mut configs: Vec<PresetConfig> = Vec::new();
        let mut expanded: Vec<String> = Vec::new();
        let mut i: usize = 0;
        while i < kinds.len()
            invariant
                0 <= i <= kinds@.len(),
                ks == kinds@,
                ks == builtin_presets(),
                configs_view(configs@) =~= ks.take(i as int).map_values(
                    |k: PresetKind| kind_default_config(k, kind_matches(k, project_type)),
                ),
                strs_v(expanded@) =~= matching_part(ks.take(i as int), project_type, true).map_values(
                    |k: PresetKind| kind_id(k),
                ),
            decreases kinds@.len() - i,
        {
            let k = kinds[i];
            let m = k.matches_project(project_type);
            let ghost before_c = configs@;
            let ghost before_e = expanded@;
            configs.push(k.default_config(m));
            proof {
                assert(ks.take(i + 1).drop_last() =~= ks.take(i as int));
                assert(configs_view(configs@) =~= configs_view(before_c).push(kind_default_config(k, m)));
            }
            if m {
                expanded.push(k.preset_id().to_owned());
                proof {
                    assert(strs_v(expanded@) =~= strs_v(before_e).push(kind_id(k)));
                }
            }
            i = i + 1;
        }
        proof {
            assert(ks.take(ks.len() as int) =~= ks);
        }
        let platform_menu_cursor = target_platform.position();
        let mut state = EditorState {
            project_type,
            language_version,
            working_dir,
            target_platform,
            registry,
            preset_configs: configs,
            expanded_presets: expanded,
            expanded_features: Vec::new(),
            tree_items: Vec::new(),
            tree_cursor: 0,
            platform_menu_open: false,
            platform_menu_cursor,
            preview_scroll: 0,
            yaml_preview: String::new(),
            generation_error: None,
            current_item_description: String::new(),
            should_quit: false,
            should_write: false,
        };
        proof {
            assert(pair_set(state.expanded_features@) =~= Set::<(Seq<char>, Seq<char>)>::empty());
            assert(items_view(state.tree_items@) =~= Seq::<TreeItemView>::empty());
            assert(state@ == initial_state(d, crate::models::opt_v(platform), state.working_dir@));
            lemma_initial_unique(d, crate::models::opt_v(platform), state.working_dir@);
        }
        state.rebuild_tree();
        state.regenerate_yaml();
        state.update_current_item_description();
        Ok(state)
    }

    /// Folds or unfolds a preset; folding it also folds its features.
    pub fn toggle_preset_expand(&mut self, preset_id: &str)
        ensures
            final(self)@ == after_toggle_preset_expand(old(self)@, preset_id@),
    {
        let ghost s0 = self@;
        if contains_text(&self.expanded_presets, preset_id) {
            self.expanded_presets = remove_text(&self.expanded_presets, preset_id);
            self.expanded_features = remove_pairs(&self.expanded_features, preset_id, None);
            proof {
                assert(pair_set(self.expanded_features@) =~= without_preset(s0.expanded_features, preset_id@));
            }
        } else {
            let ghost before = self.expanded_presets@;
            self.expanded_presets.push(preset_id.to_owned());
            proof {
                assert(strs_v(self.expanded_presets@) =~= strs_v(before).push(preset_id@));
                lemma_push_to_set(strs_v(before), preset_id@);
            }
        }
        self.rebuild_tree();
    }

    /// Folds or unfolds a feature of a preset.
    pub fn toggle_feature_expand(&mut self, preset_id: &str, feature_id: &str)
        ensures
            final(self)@ == after_toggle_feature_expand(old(self)@, preset_id@, feature_id@),
    {
        let ghost s0 = self@;
        if contains_pair(&self.expanded_features, preset_id, feature_id) {
            self.expanded_features = remove_pairs(&self.expanded_features, preset_id, Some(feature_id));
            proof {
                assert(pair_set(self.expanded_features@) =~= s0.expanded_features.remove(
                    (preset_id@, feature_id@),
                ));
            }
        } else {
            let ghost before = self.expanded_features@;
            self.expanded_features.push((preset_id.to_owned(), feature_id.to_owned()));
            proof {
                assert(pairs_v(self.expanded_features@) =~= pairs_v(before).push((preset_id@, feature_id@)));
                lemma_push_to_set(pairs_v(before), (preset_id@, feature_id@));
            }
        }
        self.rebuild_tree();
    }

    /// The entry under the cursor.
    pub fn current_item(&self) -> (r: Option<&TreeItem>)
        ensures
            match r {
                Some(t) => self.tree_cursor < self.tree_items@.len() && t@ == self@.tree_items[self.tree_cursor as int],
                None => self.tree_cursor >= self.tree_items@.len(),
            },
    {
        if self.tree_cursor < self.tree_items.len() {
            Some(&self.tree_items[self.tree_cursor])
        } else {
            None
        }
    }

    /// Toggles an option and generates the preview again.
    pub fn toggle_option(&mut self, preset_id: &str, option_id: &str)
        requires
            toggle_allowed(old(self)@, preset_id@, option_id@),
        ensures
            final(self)@ == after_toggle_option(old(self)@, preset_id@, option_id@),
    {
        let new_value = match self.get_option_value(preset_id, option_id) {
            Some(v) => Some(toggled(v)),
            None => None,
        };
        match new_value {
            Some(v) => {
                self.set_option_value(preset_id, option_id, v);
            },
            None => {},
        }
        self.regenerate_yaml();
    }

    /// Moves to the next platform and generates the preview again.
    pub fn cycle_platform(&mut self)
        ensures
            final(self)@ == after_cycle_platform(old(self)@),
    {
        self.target_platform = self.target_platform.next();
        self.regenerate_yaml();
    }

    /// Switches a preset as a whole: every flag option off when some option
    /// is enabled, on otherwise; then generates the preview again.
    pub fn toggle_preset(&mut self, preset_id: &str)
        ensures
            final(self)@ == after_toggle_preset(old(self)@, preset_id@),
    {
        let ghost s0 = self@;
        let i = match self.config_position(preset_id) {
            Some(i) => i,
            None => {
                return ;
            },
        };
        let has_enabled = self.preset_configs[i].has_any_enabled();
        assert(s0.configs[i as int] == self.preset_configs@[i as int]@);
        let k = match self.registry.get(preset_id) {
            Some(k) => k,
            None => {
                return ;
            },
        };
        let fs = k.features();
        let ghost fv = features_view(fs@);
        let ghost v = OptionView::Bool(!has_enabled);
        let mut j: usize = 0;
        while j < fs.len()
            invariant
                0 <= j <= fs@.len(),
                fv == features_view(fs@),
                fv == kind_features(k),
                v == OptionView::Bool(!has_enabled),
                self@ == (EditorView { configs: set_all(s0.configs, preset_id@, flag_ids(fv.take(j as int)), v), ..s0 }),
            decreases fs@.len() - j,
        {
            let opts = &fs[j].options;
            let ghost ov = opts@.map_values(|o: OptionMeta| o@);
            let ghost done = flag_ids(fv.take(j as int));
            let mut m: usize = 0;
            while m < opts.len()
                invariant
                    0 <= m <= opts@.len(),
                    ov == opts@.map_values(|o: OptionMeta| o@),
                    v == OptionView::Bool(!has_enabled),
                    self@ == (EditorView {
                        configs: set_all(s0.configs, preset_id@, done + flag_ids_of(ov.take(m as int)), v),
                        ..s0
                    }),
                decreases opts@.len() - m,
            {
                let is_flag = match &opts[m].default_value {
                    OptionValue::Bool(_) => true,
                    _ => false,
                };
                let ghost ids = done + flag_ids_of(ov.take(m as int));
                proof {
                    assert(ov.take(m + 1).drop_last() =~= ov.take(m as int));
                    assert(ov.take(m + 1).last() == opts@[m as int]@);
                }
                if is_flag {
                    self.set_option_value(preset_id, opts[m].id.as_str(), OptionValue::Bool(!has_enabled));
                    proof {
                        assert(ids.push(opts@[m as int].id@).drop_last() =~= ids);
                        assert(done + flag_ids_of(ov.take(m + 1)) =~= ids.push(opts@[m as int].id@));
                    }
                } else {
                    assert(done + flag_ids_of(ov.take(m + 1)) =~= ids);
                }
                m = m + 1;
            }
            proof {
                assert(ov.take(opts@.len() as int) =~= ov);
                assert(fv.take(j + 1).drop_last() =~= fv.take(j as int));
                assert(fv.take(j + 1).last() == fs@[j as int]@);
                assert(flag_ids(fv.take(j + 1)) =~= done + flag_ids_of(ov));
            }
            j = j + 1;
        }
        proof {
            assert(fv.take(fs@.len() as int) =~= fv);
        }
        self.regenerate_yaml();
    }

    pub fn open_platform_menu(&mut self)
        ensures
            final(self)@ == (EditorView { platform_menu_open: true, ..old(self)@ }),
    {
        self.platform_menu_open = true;
    }

    pub fn close_platform_menu(&mut self)
        ensures
            final(self)@ == (EditorView { platform_menu_open: false, ..old(self)@ }),
    {
        self.platform_menu_open = false;
    }

    /// Chooses the platform under the menu's cursor, if any, and closes the menu.
    pub fn select_platform_from_menu(&mut self)
        ensures
            final(self)@ == after_select_platform(old(self)@),
    {
        let platforms = Platform::all();
        if self.platform_menu_cursor < platforms.len() {
            self.target_platform = platforms[self.platform_menu_cursor];
            self.regenerate_yaml();
        }
        self.platform_menu_open = false;
    }

    /// Shows the description of the entry under the cursor.
    pub fn update_current_item_description(&mut self)
        ensures
            final(self)@ == described(old(self)@),
    {
        let description = match self.current_item() {
            None => String::new(),
            Some(TreeItem::Preset(p)) => match self.registry.get(p.as_str()) {
                Some(k) => k.preset_description().to_owned(),
                None => String::new(),
            },
            Some(TreeItem::Feature(p, f)) => match self.registry.get(p.as_str()) {
                Some(k) => {
                    let fs = k.features();
                    match find_feature(&fs, f.as_str()) {
                        Some(j) => fs[j].description.clone(),
                        None => String::new(),
                    }
                },
                None => String::new(),
            },
            Some(TreeItem::Option(p, f, o)) => match self.registry.get(p.as_str()) {
                Some(k) => {
                    let fs = k.features();
                    match find_feature(&fs, f.as_str()) {
                        Some(j) => match find_option(&fs[j].options, o.as_str()) {
                            Some(m) => fs[j].options[m].description.clone(),
                            None => String::new(),
                        },
                        None => String::new(),
                    }
                },
                None => String::new(),
            },
        };
        self.current_item_description = description;
    }

    pub fn scroll_preview_up(&mut self)
        ensures
            final(self)@ == scrolled_up(old(self)@),
    {
        if self.preview_scroll > 0 {
            self.preview_scroll = self.preview_scroll - 1;
        }
    }

    pub fn scroll_preview_down(&mut self)
        ensures
            final(self)@ == scrolled_down(old(self)@),
    {
        if self.preview_scroll < u16::MAX {
            self.preview_scroll = self.preview_scroll + 1;
        }
    }
}


/// The editor application: the state the terminal interface shows and changes.
pub struct EditorApp {
    state: EditorState,
}

impl View for EditorApp {
    type V = EditorView;

    closed spec fn view(&self) -> EditorView {
        self.state@
    }
}

impl EditorApp {
    /// The editor for a detected project in the current directory.
    pub fn new(detection: DetectionResult, platform: Option<String>) -> (r: Result<Self, CciError>)
        ensures
            r is Ok,
            r->Ok_0@ == opened(detection@, crate::models::opt_v(platform), "."@),
    {
        match EditorState::from_detection(detection, platform, ".".to_owned()) {
            Ok(state) => Ok(EditorApp { state }),
            Err(e) => Err(e),
        }
    }

    pub fn state(&self) -> (s: &EditorState)
        ensures
            s@ == self@,
    {
        &self.state
    }

    pub fn into_state(self) -> (s: EditorState)
        ensures
            s@ == self@,
    {
        self.state
    }
}

// ---------------------------------------------------------------- keys

/// A key the editor reacts to: the arrows (or h, j, k, l), Space or Enter to
/// toggle, Shift+J and Shift+K to scroll the preview, `p` for the platform
/// menu, `W` to write the configuration, `q` to quit, Esc to close the menu.
#[derive(PartialEq, Eq, Structural, Clone, Copy, Debug)]
pub enum EditorKey {
    Up,
    Down,
    Left,
    Right,
    Toggle,
    ScrollDown,
    ScrollUp,
    Platform,
    Write,
    Quit,
    Close,
}

pub open spec fn current_of(s: EditorView) -> Option<TreeItemView> {
    if s.tree_cursor < s.tree_items.len() {
        Some(s.tree_items[s.tree_cursor as int])
    } else {
        None
    }
}

/// What a key does in the tree: moving the cursor, unfolding (right) or
/// folding (left) the entry under it, toggling it, scrolling, opening the
/// platform menu at the current platform, asking to write or to quit.
pub open spec fn tree_key(s: EditorView, key: EditorKey) -> EditorView {
    match key {
        EditorKey::Up => EditorView {
            tree_cursor: if s.tree_cursor > 0 {
                (s.tree_cursor - 1) as usize
            } else {
                s.tree_cursor
            },
            ..s
        },
        EditorKey::Down => EditorView {
            tree_cursor: if s.tree_cursor + 1 < s.tree_items.len() {
                (s.tree_cursor + 1) as usize
            } else {
                s.tree_cursor
            },
            ..s
        },
        EditorKey::Right => match current_of(s) {
            Some(TreeItemView::Preset(p)) => if !s.expanded_presets.contains(p) {
                after_toggle_preset_expand(s, p)
            } else {
                s
            },
            Some(TreeItemView::Feature(p, f)) => if !s.expanded_features.contains((p, f)) {
                after_toggle_feature_expand(s, p, f)
            } else {
                s
            },
            _ => s,
        },
        EditorKey::Left => match current_of(s) {
            Some(TreeItemView::Preset(p)) => if s.expanded_presets.contains(p) {
                after_toggle_preset_expand(s, p)
            } else {
                s
            },
            Some(TreeItemView::Feature(p, f)) => if s.expanded_features.contains((p, f)) {
                after_toggle_feature_expand(s, p, f)
            } else {
                s
            },
            _ => s,
        },
        EditorKey::Toggle => match current_of(s) {
            Some(TreeItemView::Preset(p)) => after_toggle_preset(s, p),
            Some(TreeItemView::Feature(p, f)) => after_toggle_feature_expand(s, p, f),
            Some(TreeItemView::Option(p, _, o)) => if toggle_allowed(s, p, o) {
                after_toggle_option(s, p, o)
            } else {
                s
            },
            None => s,
        },
        EditorKey::ScrollDown => scrolled_down(s),
        EditorKey::ScrollUp => scrolled_up(s),
        EditorKey::Platform => EditorView {
            platform_menu_open: true,
            platform_menu_cursor: platform_index(s.target_platform) as usize,
            ..s
        },
        EditorKey::Write => EditorView { should_write: true, ..s },
        EditorKey::Quit => EditorView { should_quit: true, ..s },
        EditorKey::Close => s,
    }
}

/// What a key does in the platform menu: moving its cursor, choosing the
/// platform under it, or closing it.
pub open spec fn menu_key(s: EditorView, key: EditorKey) -> EditorView {
    match key {
        EditorKey::Up => EditorView {
            platform_menu_cursor: if s.platform_menu_cursor > 0 {
                (s.platform_menu_cursor - 1) as usize
            } else {
                0
            },
            ..s
        },
        EditorKey::Down => EditorView {
            platform_menu_cursor: if s.platform_menu_cursor < 4 {
                (s.platform_menu_cursor + 1) as usize
            } else {
                s.platform_menu_cursor
            },
            ..s
        },
        EditorKey::Toggle => after_select_platform(s),
        EditorKey::Close => EditorView { platform_menu_open: false, ..s },
        EditorKey::Quit => EditorView { platform_menu_open: false, ..s },
        _ => s,
    }
}

pub open spec fn after_key(s: EditorView, key: EditorKey) -> EditorView {
    if s.platform_menu_open {
        menu_key(s, key)
    } else {
        described(tree_key(s, key))
    }
}

fn copy_item(t: &TreeItem) -> (r: TreeItem)
    ensures
        r@ == t@,
{
    match t {
        TreeItem::Preset(p) => TreeItem::Preset(p.clone()),
        TreeItem::Feature(p, f) => TreeItem::Feature(p.clone(), f.clone()),
        TreeItem::Option(p, f, o) => TreeItem::Option(p.clone(), f.clone(), o.clone()),
    }
}

impl EditorState {
    fn toggle_ok(&self, preset_id: &str, option_id: &str) -> (b: bool)
        ensures
            b == toggle_allowed(self@, preset_id@, option_id@),
    {
        match self.get_option_value(preset_id, option_id) {
            Some(OptionValue::Enum { variants, .. }) => variants.len() > 0,
            _ => true,
        }
    }

    /// Reacts to a key: in the platform menu when it is open, in the tree
    /// otherwise, where the description then follows the cursor.
    pub fn handle_key(&mut self, key: EditorKey)
        ensures
            final(self)@ == after_key(old(self)@, key),
    {
        if self.platform_menu_open {
            match key {
                EditorKey::Up => {
                    if self.platform_menu_cursor > 0 {
                        self.platform_menu_cursor = self.platform_menu_cursor - 1;
                    }
                },
                EditorKey::Down => {
                    if self.platform_menu_cursor < 4 {
                        self.platform_menu_cursor = self.platform_menu_cursor + 1;
                    }
                },
                EditorKey::Toggle => self.select_platform_from_menu(),
                EditorKey::Close => self.close_platform_menu(),
                EditorKey::Quit => self.close_platform_menu(),
                _ => {},
            }
            return ;
        }
        let item = match self.current_item() {
            Some(t) => Some(copy_item(t)),
            None => None,
        };
        match key {
            EditorKey::Up => {
                if self.tree_cursor > 0 {
                    self.tree_cursor = self.tree_cursor - 1;
                }
            },
            EditorKey::Down => {
                if self.tree_cursor < self.tree_items.len() && self.tree_cursor + 1 < self.tree_items.len() {
                    self.tree_cursor = self.tree_cursor + 1;
                }
            },
            EditorKey::Right => match item {
                Some(TreeItem::Preset(p)) => {
                    if !contains_text(&self.expanded_presets, p.as_str()) {
                        self.toggle_preset_expand(p.as_str());
                    }
                },
                Some(TreeItem::Feature(p, f)) => {
                    if !contains_pair(&self.expanded_features, p.as_str(), f.as_str()) {
                        self.toggle_feature_expand(p.as_str(), f.as_str());
                    }
                },
                _ => {},
            },
            EditorKey::Left => match item {
                Some(TreeItem::Preset(p)) => {
                    if contains_text(&self.expanded_presets, p.as_str()) {
                        self.toggle_preset_expand(p.as_str());
                    }
                },
                Some(TreeItem::Feature(p, f)) => {
                    if contains_pair(&self.expanded_features, p.as_str(), f.as_str()) {
                        self.toggle_feature_expand(p.as_str(), f.as_str());
                    }
                },
                _ => {},
            },
            EditorKey::Toggle => match item {
                Some(TreeItem::Preset(p)) => self.toggle_preset(p.as_str()),
                Some(TreeItem::Feature(p, f)) => self.toggle_feature_expand(p.as_str(), f.as_str()),
                Some(TreeItem::Option(p, _, o)) => {
                    if self.toggle_ok(p.as_str(), o.as_str()) {
                        self.toggle_option(p.as_str(), o.as_str());
                    }
                },
                None => {},
            },
            EditorKey::ScrollDown => self.scroll_preview_down(),
            EditorKey::ScrollUp => self.scroll_preview_up(),
            EditorKey::Platform => {
                self.platform_menu_open = true;
                self.platform_menu_cursor = self.target_platform.position();
            },
            EditorKey::Write => {
                self.should_write = true;
            },
            EditorKey::Quit => {
                self.should_quit = true;
            },
            EditorKey::Close => {},
        }
        self.update_current_item_description();
    }
}

// ---------------------------------------------------------------- options away from their defaults

/// The metadata of the first option with the identifier, over the features in order.
pub open spec fn option_meta_in(fs: Seq<FeatureView>, o: Seq<char>) -> Option<OptionMetaView>
    decreases fs.len(),
{
    if fs.len() == 0 {
        None
    } else {
        match option_named(fs[0].options, o) {
            Some(m) => Some(m),
            None => option_meta_in(fs.drop_first(), o),
        }
    }
}

/// An option of a preset holds a value other than the default its metadata
/// gives; an option the registry or the configuration does not know does not.
pub open spec fn option_non_default(s: EditorView, p: Seq<char>, o: Seq<char>) -> bool {
    match registry_get(s.registry, p) {
        None => false,
        Some(k) => match option_meta_in(kind_features(k), o) {
            None => false,
            Some(m) => match option_value_of(s.configs, p, o) {
                None => false,
                Some(v) => v != m.default_value,
            },
        },
    }
}

/// Some option of a feature of a preset is away from its default.
pub open spec fn feature_non_default(s: EditorView, p: Seq<char>, f: Seq<char>) -> bool {
    match registry_get(s.registry, p) {
        None => false,
        Some(k) => match feature_named(kind_features(k), f) {
            None => false,
            Some(fv) => exists|j: int| 0 <= j < fv.options.len() && option_non_default(s, p, #[trigger] fv.options[j].id),
        },
    }
}

/// Some option of some feature of a preset is away from its default.
pub open spec fn preset_non_default(s: EditorView, p: Seq<char>) -> bool {
    match registry_get(s.registry, p) {
        None => false,
        Some(k) => exists|i: int, j: int|
            0 <= i < kind_features(k).len() && 0 <= j < kind_features(k)[i].options.len() && option_non_default(
                s,
                p,
                #[trigger] kind_features(k)[i].options[j].id,
            ),
    }
}

fn find_meta(fs: &Vec<FeatureMeta>, o: &str) -> (r: Option<(usize, usize)>)
    ensures
        match r {
            Some((i, j)) => i < fs@.len() && j < fs@[i as int].options@.len() && option_meta_in(features_view(fs@), o@)
                == Some(fs@[i as int].options@[j as int]@),
            None => option_meta_in(features_view(fs@), o@) is None,
        },
{
    let ghost fv = features_view(fs@);
    let mut i: usize = 0;
    assert(fv.subrange(0, fv.len() as int) =~= fv);
    while i < fs.len()
        invariant
            0 <= i <= fs@.len(),
            fv == features_view(fs@),
            option_meta_in(fv, o@) == option_meta_in(fv.subrange(i as int, fv.len() as int), o@),
        decreases fs@.len() - i,
    {
        let ghost rest = fv.subrange(i as int, fv.len() as int);
        assert(rest[0] == fs@[i as int]@);
        match find_option(&fs[i].options, o) {
            Some(j) => {
                return Some((i, j));
            },
            None => {},
        }
        assert(rest.drop_first() =~= fv.subrange(i + 1, fv.len() as int));
        i = i + 1;
    }
    None
}

impl EditorState {
    /// Whether an option of a preset holds a value other than its default.
    pub fn is_option_non_default(&self, preset_id: &str, option_id: &str) -> (b: bool)
        ensures
            b == option_non_default(self@, preset_id@, option_id@),
    {
        let k = match self.registry.get(preset_id) {
            Some(k) => k,
            None => return false,
        };
        let fs = k.features();
        let (i, j) = match find_meta(&fs, option_id) {
            Some(found) => found,
            None => return false,
        };
        match self.get_option_value(preset_id, option_id) {
            Some(v) => !v.same_as(&fs[i].options[j].default_value),
            None => false,
        }
    }

    /// Whether some option of a feature of a preset is away from its default.
    pub fn has_feature_non_defaults(&self, preset_id: &str, feature_id: &str) -> (b: bool)
        ensures
            b == feature_non_default(self@, preset_id@, feature_id@),
    {
        let k = match self.registry.get(preset_id) {
            Some(k) => k,
            None => return false,
        };
        let fs = k.features();
        let i = match find_feature(&fs, feature_id) {
            Some(i) => i,
            None => return false,
        };
        let os = &fs[i].options;
        let ghost fv = fs@[i as int]@;
        let mut j: usize = 0;
        while j < os.len()
            invariant
                0 <= j <= os@.len(),
                fv.options == os@.map_values(|o: OptionMeta| o@),
                registry_get(self@.registry, preset_id@) == Some(k),
                feature_named(kind_features(k), feature_id@) == Some(fv),
                forall|q: int| 0 <= q < j ==> !option_non_default(self@, preset_id@, #[trigger] fv.options[q].id),
            decreases os@.len() - j,
        {
            if self.is_option_non_default(preset_id, os[j].id.as_str()) {
                assert(option_non_default(self@, preset_id@, fv.options[j as int].id));
                return true;
            }
            j = j + 1;
        }
        false
    }

    /// Whether some option of some feature of a preset is away from its default.
    pub fn has_preset_non_defaults(&self, preset_id: &str) -> (b: bool)
        ensures
            b == preset_non_default(self@, preset_id@),
    {
        let k = match self.registry.get(preset_id) {
            Some(k) => k,
            None => return false,
        };
        let fs = k.features();
        let ghost kf = kind_features(k);
        let mut i: usize = 0;
        while i < fs.len()
            invariant
                0 <= i <= fs@.len(),
                kf == features_view(fs@),
                kf == kind_features(k),
                registry_get(self@.registry, preset_id@) == Some(k),
                forall|a: int, q: int|
                    0 <= a < i && 0 <= q < kf[a].options.len() ==> !option_non_default(
                        self@,
                        preset_id@,
                        #[trigger] kf[a].options[q].id,
                    ),
            decreases fs@.len() - i,
        {
            let os = &fs[i].options;
            let mut j: usize = 0;
            while j < os.len()
                invariant
                    0 <= i < fs@.len(),
                    0 <= j <= os@.len(),
                    os == fs@[i as int].options,
                    kf == features_view(fs@),
                    kf == kind_features(k),
                    registry_get(self@.registry, preset_id@) == Some(k),
                    forall|a: int, q: int|
                        0 <= a < i && 0 <= q < kf[a].options.len() ==> !option_non_default(
                            self@,
                            preset_id@,
                            #[trigger] kf[a].options[q].id,
                        ),
                    forall|q: int| 0 <= q < j ==> !option_non_default(self@, preset_id@, #[trigger] kf[i as int].options[q].id),
                decreases os@.len() - j,
            {
                if self.is_option_non_default(preset_id, os[j].id.as_str()) {
                    assert(kf[i as int].options[j as int].id == os@[j as int].id@);
                    assert(option_non_default(self@, preset_id@, kf[i as int].options[j as int].id));
                    return true;
                }
                assert(kf[i as int].options[j as int].id == os@[j as int].id@);
                j = j + 1;
            }
            assert forall|a: int, q: int|
                0 <= a < i + 1 && 0 <= q < kf[a].options.len() implies !option_non_default(
                    self@,
                    preset_id@,
                    #[trigger] kf[a].options[q].id,
                ) by {
                if a == i {
                    assert(!option_non_default(self@, preset_id@, kf[i as int].options[q].id));
                }
            }
            i = i + 1;
        }
        false
    }
}

// ---------------------------------------------------------------- configuration files

/// The configurations after one is stored under its preset: it replaces the
/// preset's configuration, or is added after the others.
pub open spec fn put_config(cs: Seq<PresetConfigView>, c: PresetConfigView) -> Seq<PresetConfigView> {
    match config_index(cs, c.preset_id) {
        Some(i) => cs.update(i, c),
        None => cs.push(c),
    }
}

/// The configurations of the presets of a configuration file, in order; a
/// preset listed twice keeps its last settings.
pub open spec fn configs_of_choices(chs: Seq<ChoiceView>) -> Seq<PresetConfigView>
    decreases chs.len(),
{
    if chs.len() == 0 {
        Seq::empty()
    } else {
        put_config(configs_of_choices(chs.drop_last()), choice_config(chs.last()))
    }
}

/// The editor's state for the presets of a configuration file, before the
/// tree, preview and description are made.
pub open spec fn loaded_state(chs: Seq<ChoiceView>, working_dir: Seq<char>) -> EditorView {
    EditorView {
        project_type: ProjectType::PythonApp,
        language_version: "stable"@,
        working_dir,
        target_platform: Platform::GitHub,
        registry: builtin_presets(),
        configs: configs_of_choices(chs),
        expanded_presets: Set::empty(),
        expanded_features: Set::empty(),
        tree_items: Seq::empty(),
        tree_cursor: 0,
        platform_menu_open: false,
        platform_menu_cursor: 0,
        preview_scroll: 0,
        yaml_preview: Seq::empty(),
        generation_error: None,
        current_item_description: Seq::empty(),
        should_quit: false,
        should_write: false,
    }
}

/// The presets, in order, whose configuration enables some option, as a
/// configuration file lists them.
pub open spec fn enabled_choices(cs: Seq<PresetConfigView>) -> Seq<ChoiceView>
    decreases cs.len(),
{
    if cs.len() == 0 {
        Seq::empty()
    } else {
        enabled_choices(cs.drop_last()) + if any_enabled(cs.last()) {
            seq![config_choice(file_id_of(cs.last().preset_id)->0, cs.last())]
        } else {
            Seq::empty()
        }
    }
}

/// Every configuration that would be saved belongs to a preset that
/// configuration files can name.
pub open spec fn savable(cs: Seq<PresetConfigView>) -> bool {
    forall|i: int| 0 <= i < cs.len() && any_enabled(#[trigger] cs[i]) ==> file_id_of(cs[i].preset_id) is Some
}

impl EditorState {
    /// The editor for the presets of a configuration file.
    pub fn from_choices(choices: &Vec<PresetChoice>, working_dir: String) -> (s: EditorState)
        ensures
            s@ == described(regenerated(rebuilt(loaded_state(choices@.map_values(|c: PresetChoice| c@), working_dir@)))),
            ids_unique(s@.configs),
    {
        let ghost chs = choices@.map_values(|c: PresetChoice| c@);
        let mut state = EditorState {
            project_type: ProjectType::PythonApp,
            language_version: "stable".to_owned(),
            working_dir,
            target_platform: Platform::GitHub,
            registry: build_registry(),
            preset_configs: Vec::new(),
            expanded_presets: Vec::new(),
            expanded_features: Vec::new(),
            tree_items: Vec::new(),
            tree_cursor: 0,
            platform_menu_open: false,
            platform_menu_cursor: 0,
            preview_scroll: 0,
            yaml_preview: String::new(),
            generation_error: None,
            current_item_description: String::new(),
            should_quit: false,
            should_write: false,
        };
        let ghost wd = state.working_dir@;
        let mut i: usize = 0;
        proof {
            assert(text_set(state.expanded_presets@) =~= Set::<Seq<char>>::empty());
            assert(pair_set(state.expanded_features@) =~= Set::<(Seq<char>, Seq<char>)>::empty());
            assert(items_view(state.tree_items@) =~= Seq::<TreeItemView>::empty());
            assert(configs_view(state.preset_configs@) =~= Seq::<PresetConfigView>::empty());
            assert(chs.take(0) =~= Seq::<ChoiceView>::empty());
        }
        while i < choices.len()
            invariant
                0 <= i <= choices@.len(),
                chs == choices@.map_values(|c: PresetChoice| c@),
                state@ == (EditorView { configs: configs_of_choices(chs.take(i as int)), ..loaded_state(chs, wd) }),
            decreases choices@.len() - i,
        {
            let (_file_id, config) = preset_choice_to_config(&choices[i]);
            proof {
                assert(chs.take(i + 1).drop_last() =~= chs.take(i as int));
                assert(chs.take(i + 1).last() == choices@[i as int]@);
            }
            match state.config_position(config.preset_id().as_str()) {
                Some(j) => {
                    let mut configs: Vec<PresetConfig> = Vec::new();
                    std::mem::swap(&mut configs, &mut state.preset_configs);
                    let ghost all = configs@;
                    configs.set(j, config);
                    proof {
                        assert(configs_view(configs@) =~= configs_view(all).update(j as int, choice_config(chs[i as int])));
                    }
                    state.preset_configs = configs;
                },
                None => {
                    let ghost all = state.preset_configs@;
                    state.preset_configs.push(config);
                    proof {
                        assert(configs_view(state.preset_configs@) =~= configs_view(all).push(choice_config(chs[i as int])));
                    }
                },
            }
            i = i + 1;
        }
        proof {
            assert(chs.take(choices@.len() as int) =~= chs);
            lemma_choices_unique(chs);
        }
        state.rebuild_tree();
        state.regenerate_yaml();
        state.update_current_item_description();
        state
    }

    /// The presets, in order, whose configuration enables some option, as a
    /// configuration file lists them.
    pub fn enabled_choices(&self) -> (r: Vec<PresetChoice>)
        requires
            savable(self@.configs),
        ensures
            r@.map_values(|c: PresetChoice| c@) == enabled_choices(self@.configs),
    {
        let ghost cs = self@.configs;
        let mut r: Vec<PresetChoice> = Vec::new();
        let mut i: usize = 0;
        while i < self.preset_configs.len()
            invariant
                0 <= i <= cs.len(),
                cs == self@.configs,
                savable(cs),
                r@.map_values(|c: PresetChoice| c@) == enabled_choices(cs.take(i as int)),
            decreases cs.len() - i,
        {
            let c = &self.preset_configs[i];
            proof {
                assert(cs[i as int] == c@);
                assert(cs.take(i + 1).drop_last() =~= cs.take(i as int));
                assert(cs.take(i + 1).last() == c@);
            }
            if c.has_any_enabled() {
                let ghost before = r@;
                if let Some(file_id) = file_preset_id(c.preset_id().as_str()) {
                    r.push(preset_config_to_choice(file_id.as_str(), c));
                    proof {
                        assert(r@.map_values(|x: PresetChoice| x@) =~= before.map_values(|x: PresetChoice| x@).push(
                            config_choice(file_id_of(c@.preset_id)->0, c@),
                        ));
                    }
                }
            } else {
                assert(enabled_choices(cs.take(i + 1)) =~= enabled_choices(cs.take(i as int)));
            }
            i = i + 1;
        }
        proof {
            assert(cs.take(cs.len() as int) =~= cs);
        }
        r
    }
}

// ---------------------------------------------------------------- one configuration per preset

proof fn lemma_toggle_option_keeps_ids(s: EditorView, p: Seq<char>, o: Seq<char>)
    ensures
        config_ids(after_toggle_option(s, p, o).configs) == config_ids(s.configs),
{
    match option_value_of(s.configs, p, o) {
        Some(v) => lemma_set_keeps_ids(s.configs, p, o, toggled_value(v)),
        None => {},
    }
}

proof fn lemma_toggle_preset_keeps_ids(s: EditorView, p: Seq<char>)
    ensures
        config_ids(after_toggle_preset(s, p).configs) == config_ids(s.configs),
{
    match config_of(s.configs, p) {
        Some(c) => match registry_get(s.registry, p) {
            Some(k) => lemma_set_all_keeps_ids(
                s.configs,
                p,
                flag_ids(kind_features(k)),
                OptionView::Bool(!any_enabled(c)),
            ),
            None => {},
        },
        None => {},
    }
}

proof fn lemma_key_keeps_ids(s: EditorView, key: EditorKey)
    ensures
        config_ids(after_key(s, key).configs) == config_ids(s.configs),
{
    if !s.platform_menu_open {
        match current_of(s) {
            Some(TreeItemView::Preset(p)) => lemma_toggle_preset_keeps_ids(s, p),
            Some(TreeItemView::Option(p, _, o)) => lemma_toggle_option_keeps_ids(s, p, o),
            _ => {},
        }
    }
}

proof fn lemma_choices_unique(chs: Seq<ChoiceView>)
    ensures
        ids_unique(configs_of_choices(chs)),
    decreases chs.len(),
{
    if chs.len() > 0 {
        lemma_choices_unique(chs.drop_last());
        lemma_put_config_unique(configs_of_choices(chs.drop_last()), choice_config(chs.last()));
    }
}

proof fn lemma_initial_unique(d: DetectionView, platform: Option<Seq<char>>, working_dir: Seq<char>)
    ensures
        ids_unique(initial_state(d, platform, working_dir).configs),
{
    crate::ron_types::lemma_distinct_ids();
    let cs = initial_state(d, platform, working_dir).configs;
    assert(config_ids(cs) =~= seq!["rust"@, "python-app"@, "go-app"@, "docker"@]);
}

/// Every operation of the editor keeps the presets that have a configuration,
/// in their order; so a state with one configuration per preset keeps one.
pub proof fn law_operations_keep_preset_ids(
    s: EditorView,
    p: Seq<char>,
    f: Seq<char>,
    o: Seq<char>,
    v: OptionView,
    key: EditorKey,
)
    ensures
        config_ids(set_in_configs(s.configs, p, o, v)) == config_ids(s.configs),
        config_ids(after_toggle_option(s, p, o).configs) == config_ids(s.configs),
        config_ids(after_toggle_preset(s, p).configs) == config_ids(s.configs),
        config_ids(after_toggle_preset_expand(s, p).configs) == config_ids(s.configs),
        config_ids(after_toggle_feature_expand(s, p, f).configs) == config_ids(s.configs),
        config_ids(after_cycle_platform(s).configs) == config_ids(s.configs),
        config_ids(after_select_platform(s).configs) == config_ids(s.configs),
        config_ids(regenerated(s).configs) == config_ids(s.configs),
        config_ids(rebuilt(s).configs) == config_ids(s.configs),
        config_ids(described(s).configs) == config_ids(s.configs),
        config_ids(scrolled_up(s).configs) == config_ids(s.configs),
        config_ids(scrolled_down(s).configs) == config_ids(s.configs),
        config_ids(after_key(s, key).configs) == config_ids(s.configs),
        ids_unique(s.configs) ==> ids_unique(after_key(s, key).configs),
        ids_unique(s.configs) ==> ids_unique(set_in_configs(s.configs, p, o, v)),
{
    lemma_set_keeps_ids(s.configs, p, o, v);
    lemma_toggle_option_keeps_ids(s, p, o);
    lemma_toggle_preset_keeps_ids(s, p);
    lemma_key_keeps_ids(s, key);
}

// ---------------------------------------------------------------- loading and saving

/// Each configuration belongs to a preset that configuration files can name.
pub open spec fn all_nameable(cs: Seq<PresetConfigView>) -> bool {
    forall|i: int| 0 <= i < cs.len() ==> (#[trigger] file_id_of(cs[i].preset_id)) is Some
}

/// No preset is listed twice in a configuration file.
pub open spec fn distinct_choices(chs: Seq<ChoiceView>) -> bool {
    forall|i: int, j: int|
        0 <= i < j < chs.len() ==> choice_editor_id(#[trigger] chs[i]) != choice_editor_id(#[trigger] chs[j])
}

proof fn lemma_loaded_nameable(chs: Seq<ChoiceView>)
    ensures
        all_nameable(configs_of_choices(chs)),
    decreases chs.len(),
{
    if chs.len() > 0 {
        lemma_loaded_nameable(chs.drop_last());
        let cs = configs_of_choices(chs.drop_last());
        let c = choice_config(chs.last());
        crate::ron_types::law_id_translation(chs.last());
        lemma_config_index(cs, c.preset_id);
        let after = put_config(cs, c);
        assert forall|i: int| 0 <= i < after.len() implies (#[trigger] file_id_of(after[i].preset_id)) is Some by {
            if i < cs.len() && after[i] == cs[i] {
                assert(file_id_of(cs[i].preset_id) is Some);
            }
        }
    }
}

proof fn lemma_loaded_in_order(chs: Seq<ChoiceView>)
    requires
        distinct_choices(chs),
    ensures
        configs_of_choices(chs) == chs.map_values(|ch: ChoiceView| choice_config(ch)),
    decreases chs.len(),
{
    if chs.len() > 0 {
        let front = chs.drop_last();
        assert(distinct_choices(front)) by {
            assert forall|i: int, j: int| 0 <= i < j < front.len() implies
                choice_editor_id(#[trigger] front[i]) != choice_editor_id(#[trigger] front[j]) by {
                assert(front[i] == chs[i] && front[j] == chs[j]);
            }
        }
        lemma_loaded_in_order(front);
        let cs = configs_of_choices(front);
        let c = choice_config(chs.last());
        assert forall|j: int| 0 <= j < cs.len() implies (#[trigger] cs[j]).preset_id != c.preset_id by {
            assert(cs[j] == choice_config(chs[j]));
            assert(choice_editor_id(chs[j]) != choice_editor_id(chs[chs.len() - 1]));
        }
        lemma_config_index(cs, c.preset_id);
        assert(chs.map_values(|ch: ChoiceView| choice_config(ch)) =~= cs.push(c));
    }
}

proof fn lemma_saved_in_order(chs: Seq<ChoiceView>)
    requires
        forall|i: int| 0 <= i < chs.len() ==> any_enabled(choice_config(#[trigger] chs[i])),
    ensures
        enabled_choices(chs.map_values(|ch: ChoiceView| choice_config(ch))) == chs,
    decreases chs.len(),
{
    if chs.len() > 0 {
        let front = chs.drop_last();
        assert forall|i: int| 0 <= i < front.len() implies any_enabled(choice_config(#[trigger] front[i])) by {
            assert(front[i] == chs[i]);
        }
        lemma_saved_in_order(front);
        let cs = chs.map_values(|ch: ChoiceView| choice_config(ch));
        assert(cs.drop_last() =~= front.map_values(|ch: ChoiceView| choice_config(ch)));
        assert(cs.last() == choice_config(chs.last()));
        assert(any_enabled(choice_config(chs[chs.len() - 1])));
        crate::ron_types::law_id_translation(chs.last());
        crate::ron_types::law_choice_round_trip(chs.last());
        assert(chs =~= front.push(chs.last()));
    }
}

/// Loading a configuration file into the editor and saving it again gives the
/// same presets with the same settings, in the same order, when no preset is
/// listed twice and each enables some option; whatever is loaded can be saved.
pub proof fn law_load_then_save(chs: Seq<ChoiceView>)
    ensures
        savable(configs_of_choices(chs)),
        distinct_choices(chs) && (forall|i: int| 0 <= i < chs.len() ==> any_enabled(choice_config(#[trigger] chs[i])))
            ==> enabled_choices(configs_of_choices(chs)) == chs,
{
    lemma_loaded_nameable(chs);
    let cs = configs_of_choices(chs);
    assert forall|i: int| 0 <= i < cs.len() && any_enabled(#[trigger] cs[i]) implies file_id_of(cs[i].preset_id) is Some by {
        assert(file_id_of(cs[i].preset_id) is Some);
    }
    if distinct_choices(chs) && (forall|i: int| 0 <= i < chs.len() ==> any_enabled(choice_config(#[trigger] chs[i]))) {
        lemma_loaded_in_order(chs);
        lemma_saved_in_order(chs);
    }
}

// ---------------------------------------------------------------- laws

/// The preview comes from the first preset, in registry order, that has an
/// enabled option; when no preset has one, the preview says so. Generating
/// resets the scroll position and changes no configuration.
pub proof fn law_preview_from_first_enabled_preset(s: EditorView)
    ensures
        match active_index(s.registry, s.configs) {
            Some(i) => 0 <= i < s.registry.len() && is_active(s.registry[i], s.configs) && (forall|j: int|
                0 <= j < i ==> !is_active(#[trigger] s.registry[j], s.configs)) && regenerated(s).yaml_preview
                == match kind_output(
                s.registry[i],
                config_of(s.configs, kind_id(s.registry[i]))->Some_0,
                s.target_platform,
                s.language_version,
            ) {
                Ok(text) => text,
                Err(_) => s.yaml_preview,
            },
            None => (forall|j: int| 0 <= j < s.registry.len() ==> !is_active(#[trigger] s.registry[j], s.configs))
                && regenerated(s).yaml_preview == no_preset_message() && regenerated(s).generation_error is None,
        },
        regenerated(s).preview_scroll == 0,
        regenerated(s).configs == s.configs,
        regenerated(s).target_platform == s.target_platform,
{
    lemma_active_index(s.registry, s.configs);
}

/// Setting an option and reading it back gives the value set; the preset's
/// other options and every other preset's configuration stay as they were.
pub proof fn law_option_read_after_set(
    cs: Seq<PresetConfigView>,
    p: Seq<char>,
    o: Seq<char>,
    v: OptionView,
    other_option: Seq<char>,
    other_preset: Seq<char>,
)
    requires
        config_of(cs, p) is Some,
    ensures
        option_value_of(set_in_configs(cs, p, o, v), p, o) == Some(v),
        other_option != o ==> option_value_of(set_in_configs(cs, p, o, v), p, other_option)
            == option_value_of(cs, p, other_option),
        other_preset != p ==> config_of(set_in_configs(cs, p, o, v), other_preset) == config_of(
            cs,
            other_preset,
        ),
{
    lemma_config_index(cs, p);
    lemma_set_keeps_index(cs, p, o, v, p);
    lemma_set_keeps_index(cs, p, o, v, other_preset);
    let i = config_index(cs, p)->Some_0;
    crate::config::lemma_lookup_store_same(cs[i].values, o, v);
    if other_option != o {
        crate::config::lemma_lookup_store_other(cs[i].values, o, v, other_option);
    }
    if other_preset != p {
        lemma_config_index(cs, other_preset);
    }
}

/// Storing the value a key already holds changes nothing.
proof fn lemma_store_back(vs: Seq<(Seq<char>, OptionView)>, k: Seq<char>, v1: OptionView, v0: OptionView)
    requires
        lookup(vs, k) == Some(v0),
    ensures
        store(store(vs, k, v1), k, v0) == vs,
{
    crate::config::lemma_key_index(vs, k);
    let x = crate::config::key_index(vs, k)->Some_0;
    let s1 = store(vs, k, v1);
    crate::config::lemma_key_index_at(s1, k, x);
    assert(store(s1, k, v0) =~= vs);
}

/// Toggling a flag flips it, and toggling it again gives every configuration
/// back as it was.
pub proof fn law_toggle_flag_twice(s: EditorView, p: Seq<char>, o: Seq<char>, b: bool)
    requires
        option_value_of(s.configs, p, o) == Some(OptionView::Bool(b)),
    ensures
        option_value_of(after_toggle_option(s, p, o).configs, p, o) == Some(OptionView::Bool(!b)),
        after_toggle_option(after_toggle_option(s, p, o), p, o).configs == s.configs,
{
    let cs = s.configs;
    lemma_config_index(cs, p);
    let i = config_index(cs, p)->Some_0;
    let c1 = set_in_configs(cs, p, o, OptionView::Bool(!b));
    law_option_read_after_set(cs, p, o, OptionView::Bool(!b), o, p);
    lemma_set_keeps_index(cs, p, o, OptionView::Bool(!b), p);
    let s1 = after_toggle_option(s, p, o);
    assert(s1.configs == c1);
    let c2 = set_in_configs(c1, p, o, OptionView::Bool(b));
    lemma_store_back(cs[i].values, o, OptionView::Bool(!b), OptionView::Bool(b));
    assert(after_toggle_option(s1, p, o).configs == c2);
    assert(c2 =~= cs);
}

/// Scrolling the preview down and back up returns to the same place.
pub proof fn law_scroll_down_then_up(s: EditorView)
    requires
        s.preview_scroll < u16::MAX,
    ensures
        scrolled_up(scrolled_down(s)) == s,
        scrolled_up(s).preview_scroll <= s.preview_scroll,
{
}

/// Cycling the platform five times comes back to the platform one started
/// from, with every configuration unchanged.
pub proof fn law_platform_cycle_returns(s: EditorView)
    ensures
        after_cycle_platform(after_cycle_platform(after_cycle_platform(after_cycle_platform(after_cycle_platform(s))))).target_platform
            == s.target_platform,
        after_cycle_platform(after_cycle_platform(after_cycle_platform(after_cycle_platform(after_cycle_platform(s))))).configs
            == s.configs,
{
    let s1 = after_cycle_platform(s);
    let s2 = after_cycle_platform(s1);
    let s3 = after_cycle_platform(s2);
    let s4 = after_cycle_platform(s3);
    law_preview_from_first_enabled_preset(EditorView { target_platform: next_platform(s.target_platform), ..s });
    law_preview_from_first_enabled_preset(EditorView { target_platform: next_platform(s1.target_platform), ..s1 });
    law_preview_from_first_enabled_preset(EditorView { target_platform: next_platform(s2.target_platform), ..s2 });
    law_preview_from_first_enabled_preset(EditorView { target_platform: next_platform(s3.target_platform), ..s3 });
    law_preview_from_first_enabled_preset(EditorView { target_platform: next_platform(s4.target_platform), ..s4 });
    crate::presets::law_platform_cycle(s.target_platform);
}

/// Folding or unfolding a preset twice gives the set of unfolded presets back.
pub proof fn law_preset_expand_twice(s: EditorView, p: Seq<char>)
    ensures
        after_toggle_preset_expand(after_toggle_preset_expand(s, p), p).expanded_presets == s.expanded_presets,
{
    let s1 = after_toggle_preset_expand(s, p);
    if s.expanded_presets.contains(p) {
        assert(!s1.expanded_presets.contains(p));
        assert(s1.expanded_presets.insert(p) =~= s.expanded_presets);
    } else {
        assert(s1.expanded_presets.contains(p));
        assert(s1.expanded_presets.remove(p) =~= s.expanded_presets);
    }
}

proof fn lemma_in_matching_part(ks: Seq<PresetKind>, t: ProjectType, k: PresetKind)
    requires
        ks.contains(k),
    ensures
        matching_part(ks, t, kind_matches(k, t)).contains(k),
    decreases ks.len(),
{
    let m = matching_part(ks, t, kind_matches(k, t));
    if ks.last() == k {
        assert(m[m.len() - 1] == k);
    } else {
        let i = choose|i: int| 0 <= i < ks.len() && ks[i] == k;
        assert(ks.drop_last()[i] == k);
        lemma_in_matching_part(ks.drop_last(), t, k);
        let prev = matching_part(ks.drop_last(), t, kind_matches(k, t));
        let j = choose|j: int| 0 <= j < prev.len() && prev[j] == k;
        assert(m[j] == k);
    }
}

proof fn lemma_tree_lists(ks: Seq<PresetKind>, ep: Set<Seq<char>>, ef: Set<(Seq<char>, Seq<char>)>, k: PresetKind)
    requires
        ks.contains(k),
    ensures
        tree_of(ks, ep, ef).contains(TreeItemView::Preset(kind_id(k))),
    decreases ks.len(),
{
    let t = tree_of(ks, ep, ef);
    let prev = tree_of(ks.drop_last(), ep, ef);
    if ks.last() == k {
        assert(t[prev.len() as int] == TreeItemView::Preset(kind_id(k)));
    } else {
        let i = choose|i: int| 0 <= i < ks.len() && ks[i] == k;
        assert(ks.drop_last()[i] == k);
        lemma_tree_lists(ks.drop_last(), ep, ef, k);
        let j = choose|j: int| 0 <= j < prev.len() && prev[j] == TreeItemView::Preset(kind_id(k));
        assert(t[j] == TreeItemView::Preset(kind_id(k)));
    }
}

/// Every registered preset has an entry in the tree, whether or not it
/// matches the project and whether or not it is unfolded.
pub proof fn law_tree_lists_every_preset(s: EditorView, k: PresetKind)
    requires
        s.registry.contains(k),
    ensures
        rebuilt(s).tree_items.contains(TreeItemView::Preset(kind_id(k))),
{
    let want = kind_matches(k, s.project_type);
    lemma_in_matching_part(s.registry, s.project_type, k);
    let t1 = tree_of(matching_part(s.registry, s.project_type, true), s.expanded_presets, s.expanded_features);
    let t2 = tree_of(matching_part(s.registry, s.project_type, false), s.expanded_presets, s.expanded_features);
    let item = TreeItemView::Preset(kind_id(k));
    if want {
        lemma_tree_lists(matching_part(s.registry, s.project_type, true), s.expanded_presets, s.expanded_features, k);
        let j = choose|j: int| 0 <= j < t1.len() && t1[j] == item;
        assert((t1 + t2)[j] == item);
    } else {
        lemma_tree_lists(matching_part(s.registry, s.project_type, false), s.expanded_presets, s.expanded_features, k);
        let j = choose|j: int| 0 <= j < t2.len() && t2[j] == item;
        assert((t1 + t2)[t1.len() + j] == item);
    }
}


/// A value toggled `k` times.
pub open spec fn toggled_times(v: OptionView, k: nat) -> OptionView
    decreases k,
{
    if k == 0 {
        v
    } else {
        toggled_value(toggled_times(v, (k - 1) as nat))
    }
}

pub open spec fn distinct_texts(vs: Seq<Seq<char>>) -> bool {
    forall|i: int, j: int| 0 <= i < j < vs.len() ==> vs[i] != vs[j]
}

proof fn lemma_position_of_distinct(vs: Seq<Seq<char>>, q: int)
    requires
        distinct_texts(vs),
        0 <= q < vs.len(),
    ensures
        position_or_zero(vs, vs[q]) == q,
{
    lemma_first_position(vs, vs[q]);
}

proof fn lemma_toggled_times(vs: Seq<Seq<char>>, p: int, k: nat)
    requires
        distinct_texts(vs),
        0 <= p < vs.len(),
    ensures
        toggled_times(OptionView::Enum { selected: vs[p], variants: vs }, k) == (OptionView::Enum {
            selected: vs[(p + k) % (vs.len() as int)],
            variants: vs,
        }),
    decreases k,
{
    let n = vs.len() as int;
    if k == 0 {
        vstd::arithmetic::div_mod::lemma_small_mod(p as nat, n as nat);
    } else {
        lemma_toggled_times(vs, p, (k - 1) as nat);
        let x = p + (k - 1);
        let q = x % n;
        vstd::arithmetic::div_mod::lemma_mod_pos_bound(x, n);
        lemma_position_of_distinct(vs, q);
        vstd::arithmetic::div_mod::lemma_add_mod_noop_right(1, x, n);
        assert((q + 1) % n == (p + k) % n);
    }
}

/// Toggling a choice as many times as it has variants comes back to it, when
/// its variants are distinct and the choice is one of them.
pub proof fn law_choice_cycle(selected: Seq<char>, variants: Seq<Seq<char>>)
    requires
        distinct_texts(variants),
        variants.contains(selected),
    ensures
        toggled_times(OptionView::Enum { selected, variants }, variants.len()) == (OptionView::Enum {
            selected,
            variants,
        }),
{
    let p = choose|p: int| 0 <= p < variants.len() && variants[p] == selected;
    lemma_toggled_times(variants, p, variants.len());
    let n = variants.len() as int;
    vstd::arithmetic::div_mod::lemma_mod_add_multiples_vanish(p, n);
    vstd::arithmetic::div_mod::lemma_small_mod(p as nat, n as nat);
    assert((p + n) % n == p);
}

} // verus!
