use vstd::prelude::*;
use vstd::hash_map::{HashMapWithView, StringHashMap};
use vstd::hash_set::HashSetWithView;
use vstd::string::*;

use crate::text::{decimal, decimal_string, is_decimal_of, str_equal};
use crate::search::{first_index, lemma_first_index_found, lemma_first_index_none, lemma_first_index_spec};
use crate::desktop::{NiriEvent, OutputInfo, Window, WorkspaceInfo};

verus! {

broadcast use vstd::std_specs::hash::group_hash_axioms;

/// The edge indicator settings of a workspace. `S` is the drawing style
/// (width, colours, transparency), which the rules carry but never read.
pub struct EdgePulseSettings<S> {
    pub enabled: bool,
    pub show_left: bool,
    pub show_right: bool,
    pub style: S,
}

/// The rules that apply to workspaces without rules of their own.
pub struct WorkspaceRuleSection<S> {
    /// `auto_width[n - 1]` lists the widths, as percentages such as `"50%"`,
    /// of the columns of a workspace with `n` columns.
    pub auto_width: Vec<Vec<String>>,
    pub auto_tile: bool,
    pub auto_fill: bool,
    pub auto_maximize: bool,
    pub edge_pulse: EdgePulseSettings<S>,
}

/// The rules of one named workspace.
pub struct WorkspaceRuleConfig<S> {
    pub auto_width: Vec<Vec<String>>,
    pub auto_tile: bool,
    pub auto_fill: bool,
    pub auto_maximize: bool,
    pub edge_pulse: EdgePulseSettings<S>,
}

/// The workspace rules: a default section and the rules of named workspaces.
#[verifier::reject_recursive_types(S)]
pub struct WorkspaceRulePluginConfig<S> {
    pub default: WorkspaceRuleSection<S>,
    pub workspaces: StringHashMap<WorkspaceRuleConfig<S>>,
}

impl<S> WorkspaceRulePluginConfig<S> {
    pub open spec fn has_rule(&self, name: Seq<char>) -> bool {
        self.workspaces@.contains_key(name)
    }

    pub open spec fn auto_width_for(&self, name: Seq<char>) -> Vec<Vec<String>> {
        if self.has_rule(name) { self.workspaces@[name].auto_width } else { self.default.auto_width }
    }

    pub open spec fn auto_tile_for(&self, name: Seq<char>) -> bool {
        if self.has_rule(name) { self.workspaces@[name].auto_tile } else { self.default.auto_tile }
    }

    pub open spec fn auto_fill_for(&self, name: Seq<char>) -> bool {
        if self.has_rule(name) { self.workspaces@[name].auto_fill } else { self.default.auto_fill }
    }

    pub open spec fn auto_maximize_for(&self, name: Seq<char>) -> bool {
        if self.has_rule(name) { self.workspaces@[name].auto_maximize } else { self.default.auto_maximize }
    }

    pub open spec fn edge_pulse_for(&self, name: Seq<char>) -> EdgePulseSettings<S> {
        if self.has_rule(name) { self.workspaces@[name].edge_pulse } else { self.default.edge_pulse }
    }

    /// Whether the default section asks for anything at all.
    pub open spec fn default_is_active(default: WorkspaceRuleSection<S>) -> bool {
        default.auto_width@.len() > 0 || default.auto_tile || default.auto_fill
            || default.auto_maximize || default.edge_pulse.enabled
    }

    /// The rules: the default section, and the rules of each named
    /// workspace (where a name comes twice, the later rules win).
    pub fn new(default: WorkspaceRuleSection<S>, workspaces: Vec<(String, WorkspaceRuleConfig<S>)>) -> (r: Self)
        ensures
            r.default == default,
            r.workspaces@ == rules_map(workspaces@),
    {
        let ghost entries = workspaces@;
        assert(entries.len() == workspaces.len());
        let mut rest = workspaces;
        let mut map: StringHashMap<WorkspaceRuleConfig<S>> = StringHashMap::new();
        let mut i: usize = 0;
        while rest.len() > 0
            invariant
                i + rest@.len() == entries.len(),
                entries.len() <= usize::MAX,
                rest@ == entries.skip(i as int),
                map@ == rules_map(entries.take(i as int)),
            decreases rest@.len(),
        {
            let (name, rule) = rest.remove(0);
            assert(entries.take(i + 1).drop_last() =~= entries.take(i as int));
            assert(entries[i as int] == (name, rule));
            map.insert(name, rule);
            i = i + 1;
            assert(rest@ =~= entries.skip(i as int));
        }
        assert(entries.take(i as int) =~= entries);
        WorkspaceRulePluginConfig { default, workspaces: map }
    }

    /// Builds the plugin's configuration, or `None` where there is nothing
    /// for the plugin to do: the default section asks for nothing and no
    /// workspace has rules of its own.
    pub fn from_config(default: WorkspaceRuleSection<S>, workspaces: Vec<(String, WorkspaceRuleConfig<S>)>) -> (r:
        Option<Self>)
        ensures
            from_config_result(default, workspaces@, r),
    {
        let has_default = default.auto_width.len() > 0 || default.auto_tile || default.auto_fill
            || default.auto_maximize || default.edge_pulse.enabled;
        // A workspace table that is present at all counts, whatever it asks for.
        let has_workspaces = workspaces.len() > 0;
        if !has_default && !has_workspaces {
            return None;
        }
        Some(Self::new(default, workspaces))
    }
}

/// What `from_config` gives: the configuration, where the default section
/// asks for something or some workspace has rules; `None` otherwise.
pub open spec fn from_config_result<S>(
    default: WorkspaceRuleSection<S>,
    entries: Seq<(String, WorkspaceRuleConfig<S>)>,
    r: Option<WorkspaceRulePluginConfig<S>>,
) -> bool {
    match r {
        Some(c) => c.default == default && c.workspaces@ == rules_map(entries)
            && (WorkspaceRulePluginConfig::<S>::default_is_active(default) || entries.len() > 0),
        None => !WorkspaceRulePluginConfig::<S>::default_is_active(default) && entries.len() == 0,
    }
}

/// The rules of named workspaces, later entries replacing earlier ones of the same name.
pub open spec fn rules_map<S>(entries: Seq<(String, WorkspaceRuleConfig<S>)>) -> Map<Seq<char>, WorkspaceRuleConfig<S>>
    decreases entries.len(),
{
    if entries.len() == 0 {
        Map::empty()
    } else {
        rules_map(entries.drop_last()).insert(entries.last().0@, entries.last().1)
    }
}

/// Which edge indicators are drawn.
#[derive(PartialEq, Eq, Structural, Clone, Copy, Debug)]
pub struct EdgePulseRenderState {
    pub show_left: bool,
    pub show_right: bool,
}

/// Both indicators hidden.
pub open spec fn hidden_render() -> EdgePulseRenderState {
    EdgePulseRenderState { show_left: false, show_right: false }
}

/// A tiled (not floating) window on the workspace with this name: the
/// window's workspace name is `name`, or its workspace id printed in decimal is.
pub open spec fn tiled_in_workspace(w: Window, name: Seq<char>) -> bool {
    &&& !w.floating
    &&& (w.workspace matches Some(s) && s@ == name)
        || (w.workspace_id matches Some(id) && decimal(id as nat) == name)
}

pub open spec fn tiled_windows(windows: Seq<Window>, name: Seq<char>) -> Seq<Window> {
    windows.filter(|w: Window| tiled_in_workspace(w, name))
}

/// A tiled window of the workspace with this id, in column `c`.
pub open spec fn in_column_of(w: Window, ws_id: u64, c: usize) -> bool {
    &&& !w.floating
    &&& w.workspace_id == Some(ws_id)
    &&& w.column == Some(c)
}

pub open spec fn strictly_increasing(s: Seq<usize>) -> bool {
    forall|i: int, j: int| 0 <= i < j < s.len() ==> s[i] < s[j]
}

/// Each column of `windows` mapped to the id of the last window in it.
pub open spec fn column_leaders(windows: Seq<Window>) -> Map<usize, u64>
    decreases windows.len(),
{
    if windows.len() == 0 {
        Map::empty()
    } else {
        let rest = column_leaders(windows.drop_last());
        match windows.last().column {
            Some(c) => rest.insert(c, windows.last().id),
            None => rest,
        }
    }
}

/// `l` lists the entries of `m` by ascending key.
pub open spec fn sorted_entries(l: Seq<(usize, u64)>, m: Map<usize, u64>) -> bool {
    &&& forall|i: int, j: int| 0 <= i < j < l.len() ==> l[i].0 < l[j].0
    &&& forall|i: int| 0 <= i < l.len() ==> m.contains_key(#[trigger] l[i].0) && m[l[i].0] == l[i].1
    &&& forall|c: usize| m.contains_key(c) ==> exists|i: int| 0 <= i < l.len() && #[trigger] l[i].0 == c
}

/// The number of entries of a map that a sorted list lists.
proof fn lemma_sorted_entries_len(l: Seq<(usize, u64)>, m: Map<usize, u64>)
    requires
        sorted_entries(l, m),
    ensures
        m.dom().len() == l.len(),
{
    let keys = l.map_values(|p: (usize, u64)| p.0);
    assert(keys.no_duplicates()) by {
        assert forall|i: int, j: int| 0 <= i < keys.len() && 0 <= j < keys.len() && i != j
            implies keys[i] != keys[j] by {
            if i < j {
                assert(l[i].0 < l[j].0);
            } else {
                assert(l[j].0 < l[i].0);
            }
        }
    }
    keys.unique_seq_to_set();
    assert(keys.to_set() =~= m.dom()) by {
        assert forall|c: usize| m.dom().contains(c) implies keys.to_set().contains(c) by {
            let i = choose|i: int| 0 <= i < l.len() && #[trigger] l[i].0 == c;
            assert(keys[i] == c);
        }
        assert forall|c: usize| keys.to_set().contains(c) implies m.dom().contains(c) by {
            let i = choose|i: int| 0 <= i < keys.len() && keys[i] == c;
            assert(l[i].0 == c);
        }
    }
}


/// Whether `w` is a tiled window of the workspace named `name`.
pub fn is_tiled_in_workspace(w: &Window, name: &str) -> (r: bool)
    ensures
        r == tiled_in_workspace(*w, name@),
{
    if w.floating {
        return false;
    }
    let by_name = match &w.workspace {
        Some(s) => str_equal(s.as_str(), name),
        None => false,
    };
    if by_name {
        return true;
    }
    match w.workspace_id {
        Some(id) => is_decimal_of(name, id),
        None => false,
    }
}

/// What the plugin remembers between events.
pub struct WorkspaceRuleState {
    /// Windows seen open at least once.
    pub seen_windows: Set<u64>,
    /// The floating state last reported for each window.
    pub window_floating_state: Map<u64, bool>,
    /// Windows that the plugin maximized and has not restored since.
    pub maximized_windows: Set<u64>,
    /// What the edge indicators last showed, when known.
    pub edge_pulse_last_render: Option<EdgePulseRenderState>,
    /// A column alignment is under way.
    pub autofill_executing: bool,
}

/// Per-workspace layout rules: automatic column widths, tiling into
/// existing columns, maximizing a lone window, aligning columns, and edge
/// indicators.
#[verifier::reject_recursive_types(S)]
pub struct WorkspaceRulePlugin<S> {
    config: WorkspaceRulePluginConfig<S>,
    seen_windows: HashSetWithView<u64>,
    window_floating_state: HashMapWithView<u64, bool>,
    maximized_windows: HashSetWithView<u64>,
    edge_pulse_last_render: Option<EdgePulseRenderState>,
    autofill_executing: bool,
}

impl<S> View for WorkspaceRulePlugin<S> {
    type V = WorkspaceRuleState;

    closed spec fn view(&self) -> WorkspaceRuleState {
        WorkspaceRuleState {
            seen_windows: self.seen_windows@,
            window_floating_state: self.window_floating_state@,
            maximized_windows: self.maximized_windows@,
            edge_pulse_last_render: self.edge_pulse_last_render,
            autofill_executing: self.autofill_executing,
        }
    }
}

impl<S> WorkspaceRulePlugin<S> {
    /// The rules in force.
    pub closed spec fn rules(&self) -> WorkspaceRulePluginConfig<S> {
        self.config
    }

    pub fn new(config: WorkspaceRulePluginConfig<S>) -> (r: Self)
        ensures
            r.rules() == config,
            r@.seen_windows == Set::<u64>::empty(),
            r@.window_floating_state == Map::<u64, bool>::empty(),
            r@.maximized_windows == Set::<u64>::empty(),
            r@.edge_pulse_last_render is None,
            !r@.autofill_executing,
    {
        WorkspaceRulePlugin {
            config,
            seen_windows: HashSetWithView::new(),
            window_floating_state: HashMapWithView::new(),
            maximized_windows: HashSetWithView::new(),
            edge_pulse_last_render: None,
            autofill_executing: false,
        }
    }

    /// The rules in force.
    pub fn config(&self) -> (r: &WorkspaceRulePluginConfig<S>)
        ensures
            *r == self.rules(),
    {
        &self.config
    }

    /// Replaces the rules; the indicators are redrawn from scratch afterwards.
    pub fn update_config(&mut self, config: WorkspaceRulePluginConfig<S>)
        ensures
            final(self).rules() == config,
            final(self)@ == (WorkspaceRuleState { edge_pulse_last_render: None, ..old(self)@ }),
    {
        self.config = config;
        self.edge_pulse_last_render = None;
    }

    /// Whether the plugin maximized this window and has not restored it since.
    pub fn is_maximized(&self, id: u64) -> (r: bool)
        ensures
            r == self@.maximized_windows.contains(id),
    {
        self.maximized_windows.contains(&id)
    }

    /// Whether this window was seen open.
    pub fn has_seen(&self, id: u64) -> (r: bool)
        ensures
            r == self@.seen_windows.contains(id),
    {
        self.seen_windows.contains(&id)
    }

    /// The floating state last reported for this window.
    pub fn floating_state(&self, id: u64) -> (r: Option<bool>)
        ensures
            r == if self@.window_floating_state.contains_key(id) {
                Some(self@.window_floating_state[id])
            } else {
                None
            },
    {
        match self.window_floating_state.get(&id) {
            Some(f) => Some(*f),
            None => None,
        }
    }

    /// What the edge indicators last showed, when known.
    pub fn edge_pulse_last_render(&self) -> (r: Option<EdgePulseRenderState>)
        ensures
            r == self@.edge_pulse_last_render,
    {
        self.edge_pulse_last_render
    }

    /// The column widths configured for the workspace.
    pub fn get_auto_width(&self, workspace_name: &str) -> (r: &Vec<Vec<String>>)
        ensures
            *r == self.rules().auto_width_for(workspace_name@),
    {
        match self.config.workspaces.get(workspace_name) {
            Some(c) => &c.auto_width,
            None => &self.config.default.auto_width,
        }
    }

    /// Whether new windows of the workspace are tiled into existing columns.
    pub fn get_auto_tile(&self, workspace_name: &str) -> (r: bool)
        ensures
            r == self.rules().auto_tile_for(workspace_name@),
    {
        match self.config.workspaces.get(workspace_name) {
            Some(c) => c.auto_tile,
            None => self.config.default.auto_tile,
        }
    }

    /// Whether the columns of the workspace are aligned after changes.
    pub fn get_auto_fill(&self, workspace_name: &str) -> (r: bool)
        ensures
            r == self.rules().auto_fill_for(workspace_name@),
    {
        match self.config.workspaces.get(workspace_name) {
            Some(c) => c.auto_fill,
            None => self.config.default.auto_fill,
        }
    }

    /// Whether a lone window of the workspace is maximized.
    pub fn get_auto_maximize(&self, workspace_name: &str) -> (r: bool)
        ensures
            r == self.rules().auto_maximize_for(workspace_name@),
    {
        match self.config.workspaces.get(workspace_name) {
            Some(c) => c.auto_maximize,
            None => self.config.default.auto_maximize,
        }
    }

    /// The edge indicator settings of the workspace.
    pub fn get_edge_pulse_config(&self, workspace_name: &str) -> (r: &EdgePulseSettings<S>)
        ensures
            *r == self.rules().edge_pulse_for(workspace_name@),
    {
        match self.config.workspaces.get(workspace_name) {
            Some(c) => &c.edge_pulse,
            None => &self.config.default.edge_pulse,
        }
    }

    /// The tiled windows of the named workspace, in their order.
    pub fn filter_tiled_windows_in_workspace(windows: &[Window], workspace_name: &str) -> (r: Vec<
        Window,
    >)
        ensures
            r@ == tiled_windows(windows@, workspace_name@),
    {
        let ghost pred = |w: Window| tiled_in_workspace(w, workspace_name@);
        let mut out: Vec<Window> = Vec::new();
        let mut i: usize = 0;
        while i < windows.len()
            invariant
                i <= windows@.len(),
                pred == (|w: Window| tiled_in_workspace(w, workspace_name@)),
                out@ == windows@.take(i as int).filter(pred),
            decreases windows@.len() - i,
        {
            proof {
                windows@.take(i as int).lemma_filter_push(windows@[i as int], pred);
                assert(windows@.take(i as int).push(windows@[i as int]) =~= windows@.take(i + 1));
            }
            if is_tiled_in_workspace(&windows[i], workspace_name) {
                out.push(windows[i].duplicate());
            }
            i = i + 1;
        }
        assert(windows@.take(windows@.len() as int) =~= windows@);
        out
    }
}


/// Inserts `c` into a strictly increasing list, keeping it so.
fn insert_column(v: &mut Vec<usize>, c: usize)
    requires
        strictly_increasing(old(v)@),
    ensures
        strictly_increasing(final(v)@),
        forall|x: usize| final(v)@.contains(x) <==> (old(v)@.contains(x) || x == c),
{
    let mut pos: usize = 0;
    while pos < v.len() && v[pos] < c
        invariant
            pos <= v@.len(),
            forall|j: int| 0 <= j < pos ==> v@[j] < c,
        decreases v@.len() - pos,
    {
        pos = pos + 1;
    }
    if pos < v.len() && v[pos] == c {
        assert(v@[pos as int] == c);
        return;
    }
    let ghost old_v = v@;
    assert(old_v == old(v)@);
    v.insert(pos, c);
    assert(v@ == old_v.insert(pos as int, c));
    assert forall|x: usize| #[trigger] v@.contains(x) <==> (old(v)@.contains(x) || x == c) by {
        if v@.contains(x) {
            let k = choose|k: int| 0 <= k < v@.len() && v@[k] == x;
            if k < pos {
                assert(old_v[k] == x);
            } else if k > pos {
                assert(old_v[k - 1] == x);
            }
        }
        if old_v.contains(x) {
            let k = choose|k: int| 0 <= k < old_v.len() && old_v[k] == x;
            if k < pos {
                assert(v@[k] == x);
            } else {
                assert(v@[k + 1] == x);
            }
        }
        if x == c {
            assert(v@[pos as int] == x);
        }
    }
    assert forall|i: int, j: int| 0 <= i < j < v@.len() implies v@[i] < v@[j] by {
        if j < pos {
        } else if j == pos {
        } else if i < pos {
            assert(v@[j] == old_v[j - 1]);
            assert(old_v[pos as int] > c);
        } else if i == pos {
            assert(v@[j] == old_v[j - 1]);
            assert(old_v[pos as int] > c);
        } else {
        }
    }
}

/// Inserts or replaces the entry of column `c` in a sorted entry list.
fn insert_leader(v: &mut Vec<(usize, u64)>, c: usize, id: u64, Ghost(m): Ghost<Map<usize, u64>>)
    requires
        sorted_entries(old(v)@, m),
    ensures
        sorted_entries(final(v)@, m.insert(c, id)),
{
    let mut pos: usize = 0;
    while pos < v.len() && v[pos].0 < c
        invariant
            pos <= v@.len(),
            forall|j: int| 0 <= j < pos ==> v@[j].0 < c,
        decreases v@.len() - pos,
    {
        pos = pos + 1;
    }
    let ghost old_v = v@;
    let ghost m2 = m.insert(c, id);
    if pos < v.len() && v[pos].0 == c {
        v.set(pos, (c, id));
        assert forall|x: usize| m2.contains_key(x) implies exists|i: int|
            0 <= i < v@.len() && #[trigger] v@[i].0 == x by {
            if x == c {
                assert(v@[pos as int].0 == x);
            } else {
                let i = choose|i: int| 0 <= i < old_v.len() && #[trigger] old_v[i].0 == x;
                assert(v@[i].0 == x);
            }
        }
    } else {
        v.insert(pos, (c, id));
        assert(v@ == old_v.insert(pos as int, (c, id)));
        assert forall|i: int, j: int| 0 <= i < j < v@.len() implies v@[i].0 < v@[j].0 by {
            if j < pos {
            } else if j == pos {
            } else if i < pos {
                assert(v@[j] == old_v[j - 1]);
                if pos < old_v.len() {
                    assert(old_v[pos as int].0 >= c);
                    assert(old_v[pos as int].0 <= old_v[j - 1].0);
                }
            } else if i == pos {
                assert(v@[j] == old_v[j - 1]);
                assert(old_v[pos as int].0 > c);
                assert(old_v[pos as int].0 <= old_v[j - 1].0);
            } else {
            }
        }
        assert forall|i: int| 0 <= i < v@.len() implies m2.contains_key(#[trigger] v@[i].0)
            && m2[v@[i].0] == v@[i].1 by {
            if i < pos {
                assert(v@[i] == old_v[i]);
                assert(old_v[i].0 < c);
            } else if i > pos {
                assert(v@[i] == old_v[i - 1]);
                assert(old_v[i - 1].0 >= old_v[pos as int].0);
                assert(old_v[pos as int].0 > c);
            }
        }
        assert forall|x: usize| m2.contains_key(x) implies exists|i: int|
            0 <= i < v@.len() && #[trigger] v@[i].0 == x by {
            if x == c {
                assert(v@[pos as int].0 == x);
            } else {
                let i = choose|i: int| 0 <= i < old_v.len() && #[trigger] old_v[i].0 == x;
                if i < pos {
                    assert(v@[i].0 == x);
                } else {
                    assert(v@[i + 1].0 == x);
                }
            }
        }
    }
}

/// The columns of `windows`, ascending, each with the id of the last window in it.
fn sorted_column_leaders(windows: &Vec<Window>) -> (r: Vec<(usize, u64)>)
    ensures
        sorted_entries(r@, column_leaders(windows@)),
{
    let mut out: Vec<(usize, u64)> = Vec::new();
    let mut i: usize = 0;
    while i < windows.len()
        invariant
            i <= windows@.len(),
            sorted_entries(out@, column_leaders(windows@.take(i as int))),
        decreases windows@.len() - i,
    {
        assert(windows@.take(i + 1).drop_last() =~= windows@.take(i as int));
        match windows[i].column {
            Some(c) => {
                insert_leader(&mut out, c, windows[i].id, Ghost(column_leaders(windows@.take(i as int))));
            },
            None => {},
        }
        i = i + 1;
    }
    assert(windows@.take(windows@.len() as int) =~= windows@);
    out
}

impl<S> WorkspaceRulePlugin<S> {
    /// The distinct columns of the tiled windows of the workspace with this
    /// id, in ascending order.
    pub fn collect_workspace_columns_by_id(windows: &[Window], ws_id: u64) -> (r: Vec<usize>)
        ensures
            strictly_increasing(r@),
            forall|c: usize| r@.contains(c) <==> exists|i: int|
                0 <= i < windows@.len() && in_column_of(#[trigger] windows@[i], ws_id, c),
    {
        let mut out: Vec<usize> = Vec::new();
        let mut i: usize = 0;
        while i < windows.len()
            invariant
                i <= windows@.len(),
                strictly_increasing(out@),
                forall|c: usize| out@.contains(c) <==> exists|k: int|
                    0 <= k < i && in_column_of(#[trigger] windows@[k], ws_id, c),
            decreases windows@.len() - i,
        {
            let w = &windows[i];
            if !w.floating && w.workspace_id == Some(ws_id) {
                match w.column {
                    Some(c) => insert_column(&mut out, c),
                    None => {},
                }
            }
            proof {
                assert forall|c: usize| out@.contains(c) <==> exists|k: int|
                    0 <= k < i + 1 && in_column_of(#[trigger] windows@[k], ws_id, c) by {
                    if in_column_of(windows@[i as int], ws_id, c) {
                        assert(out@.contains(c));
                    }
                }
            }
            i = i + 1;
        }
        out
    }
}


/// A change of layout for the compositor to make.
#[derive(Debug, PartialEq, Eq)]
pub enum LayoutAction {
    /// Toggles the window between maximized to the screen edges and not.
    MaximizeToEdges { window: u64 },
    /// Sets the width of the window's column to `width`, a percentage such as `"50%"`.
    SetWidth { column: usize, window: u64, width: String },
}

/// Why a width rule cannot be applied.
#[derive(PartialEq, Eq, Structural, Clone, Copy, Debug)]
pub enum WidthRuleError {
    /// The width list for the number of columns is empty.
    EmptyWidthConfig,
    /// A width does not end with `%`.
    MissingPercentSign,
}

pub open spec fn window_ids(windows: Seq<Window>) -> Seq<u64> {
    windows.map_values(|w: Window| w.id)
}

/// Restores the maximized windows among `ids`, in order: the windows
/// restored (each once) and the maximized set that remains.
pub open spec fn unmaximize(ids: Seq<u64>, maximized: Set<u64>) -> (Seq<u64>, Set<u64>)
    decreases ids.len(),
{
    if ids.len() == 0 {
        (Seq::empty(), maximized)
    } else {
        let (done, rest) = unmaximize(ids.drop_last(), maximized);
        if rest.contains(ids.last()) {
            (done.push(ids.last()), rest.remove(ids.last()))
        } else {
            (done, rest)
        }
    }
}

pub open spec fn maximize_actions(ids: Seq<u64>) -> Seq<LayoutAction> {
    ids.map_values(|id: u64| LayoutAction::MaximizeToEdges { window: id })
}

/// The width list for a workspace with `count` columns, if there is one:
/// layouts of one to five columns are adjusted.
pub open spec fn width_rule_index(auto_width: Seq<Vec<String>>, count: nat) -> bool {
    0 < count <= 5 && count - 1 < auto_width.len()
}

/// `actions` set, column by column in ascending order, the width of each
/// column of `leaders` from `widths`, the last width serving every column past the list.
pub open spec fn width_actions(actions: Seq<LayoutAction>, leaders: Map<usize, u64>, widths: Seq<String>) -> bool {
    &&& actions.len() == leaders.dom().len()
    &&& forall|i: int| #![trigger actions[i]] 0 <= i < actions.len() ==> {
        &&& actions[i] matches LayoutAction::SetWidth { column, window, width }
        &&& leaders.contains_key(column)
        &&& window == leaders[column]
        &&& width == widths[if i < widths.len() { i } else { widths.len() - 1 }]
    }
    &&& forall|i: int, j: int| 0 <= i < j < actions.len() ==>
        #[trigger] action_column(actions[i]) < #[trigger] action_column(actions[j])
}

/// The column that an action resizes (`-1` for other actions).
pub open spec fn action_column(a: LayoutAction) -> int {
    match a {
        LayoutAction::SetWidth { column, .. } => column as int,
        _ => -1,
    }
}


/// One run of `apply_widths` on the workspace `name` with these windows:
/// the state before and after it and its result.
pub open spec fn apply_widths_step<S>(
    old: WorkspaceRuleState,
    rules: WorkspaceRulePluginConfig<S>,
    name: Seq<char>,
    windows: Seq<Window>,
    new: WorkspaceRuleState,
    r: Result<Vec<LayoutAction>, WidthRuleError>,
) -> bool {
    let tiled = tiled_windows(windows, name);
    let ids = window_ids(tiled);
    let leaders = column_leaders(tiled);
    let count = leaders.dom().len();
    let auto_width = rules.auto_width_for(name)@;
    let maximized = old.maximized_windows;
    let has_widths = width_rule_index(auto_width, count);
    &&& new.seen_windows == old.seen_windows
    &&& new.window_floating_state == old.window_floating_state
    &&& new.edge_pulse_last_render == old.edge_pulse_last_render
    &&& new.autofill_executing == old.autofill_executing
    &&& if rules.auto_maximize_for(name) && tiled.len() == 0 {
        &&& r matches Ok(v) && v@.len() == 0
        &&& new.maximized_windows == maximized
    } else if rules.auto_maximize_for(name) && tiled.len() == 1 {
        &&& r matches Ok(v)
        &&& if maximized.contains(tiled[0].id) {
            v@.len() == 0 && new.maximized_windows == maximized
        } else {
            v@ == seq![LayoutAction::MaximizeToEdges { window: tiled[0].id }]
                && new.maximized_windows == maximized.insert(tiled[0].id)
        }
    } else if rules.auto_maximize_for(name) && !has_widths {
        &&& r matches Ok(v)
        &&& v@ == maximize_actions(unmaximize(ids, maximized).0)
        &&& new.maximized_windows == unmaximize(ids, maximized).1
    } else {
        &&& new.maximized_windows == if rules.auto_maximize_for(name) {
            unmaximize(ids, maximized).1
        } else {
            maximized
        }
        &&& if !has_widths {
            r matches Ok(v) && v@.len() == 0
        } else if auto_width[count - 1]@.len() == 0 {
            r == Err::<Vec<LayoutAction>, WidthRuleError>(WidthRuleError::EmptyWidthConfig)
        } else {
            r matches Ok(v) && width_actions(v@, leaders, auto_width[count - 1]@)
        }
    }
}

impl<S> WorkspaceRulePlugin<S> {
    fn release_maximized(&mut self, windows: &Vec<Window>) -> (r: Vec<LayoutAction>)
        ensures
            r@ == maximize_actions(unmaximize(window_ids(windows@), old(self)@.maximized_windows).0),
            final(self)@ == (WorkspaceRuleState {
                maximized_windows: unmaximize(window_ids(windows@), old(self)@.maximized_windows).1,
                ..old(self)@
            }),
            final(self).rules() == old(self).rules(),
    {
        let ghost ids = window_ids(windows@);
        let ghost m0 = self@.maximized_windows;
        let mut out: Vec<LayoutAction> = Vec::new();
        let mut i: usize = 0;
        while i < windows.len()
            invariant
                i <= windows@.len(),
                ids == window_ids(windows@),
                out@ == maximize_actions(unmaximize(ids.take(i as int), m0).0),
                self@ == (WorkspaceRuleState {
                    maximized_windows: unmaximize(ids.take(i as int), m0).1,
                    ..old(self)@
                }),
                self.rules() == old(self).rules(),
            decreases windows@.len() - i,
        {
            let id = windows[i].id;
            assert(ids.take(i + 1).drop_last() =~= ids.take(i as int));
            assert(ids.take(i + 1).last() == id);
            let ghost before = self@.maximized_windows;
            if self.maximized_windows.remove(&id) {
                out.push(LayoutAction::MaximizeToEdges { window: id });
            } else {
                assert(before.remove(id) =~= before);
            }
            assert(self@.maximized_windows =~= unmaximize(ids.take(i + 1), m0).1);
            assert(out@ =~= maximize_actions(unmaximize(ids.take(i + 1), m0).0));
            i = i + 1;
        }
        assert(ids.take(windows@.len() as int) =~= ids);
        out
    }

    /// Adjusts the layout of the named workspace after its windows changed.
    ///
    /// With `auto_maximize`, a lone tiled window is maximized (once), and when
    /// there are several, the windows maximized earlier are restored, or only
    /// forgotten when a width rule will resize them. Then, for a workspace of
    /// one to five columns with a width list for that many columns, each
    /// column gets its width from the list.
    pub fn apply_widths(&mut self, workspace_name: &str, windows: &[Window]) -> (r: Result<
        Vec<LayoutAction>,
        WidthRuleError,
    >)
        ensures
            final(self).rules() == old(self).rules(),
            apply_widths_step(
                old(self)@,
                old(self).rules(),
                workspace_name@,
                windows@,
                final(self)@,
                r,
            ),
    {
        let tiled = Self::filter_tiled_windows_in_workspace(windows, workspace_name);
        let leaders = sorted_column_leaders(&tiled);
        let column_count = leaders.len();
        proof {
            lemma_sorted_entries_len(leaders@, column_leaders(tiled@));
        }
        if self.get_auto_maximize(workspace_name) {
            if tiled.len() == 0 {
                return Ok(Vec::new());
            }
            if tiled.len() == 1 {
                let window_id = tiled[0].id;
                if self.maximized_windows.contains(&window_id) {
                    return Ok(Vec::new());
                }
                let mut actions: Vec<LayoutAction> = Vec::new();
                actions.push(LayoutAction::MaximizeToEdges { window: window_id });
                self.maximized_windows.insert(window_id);
                return Ok(actions);
            }
            let auto_width = self.get_auto_width(workspace_name);
            let has_width_config = column_count > 0 && column_count <= 5 && column_count - 1
                < auto_width.len();
            if !has_width_config {
                let actions = self.release_maximized(&tiled);
                return Ok(actions);
            } else {
                let _forgotten = self.release_maximized(&tiled);
            }
        }
        if column_count == 0 || column_count > 5 {
            return Ok(Vec::new());
        }
        let auto_width = self.get_auto_width(workspace_name);
        if column_count - 1 >= auto_width.len() {
            return Ok(Vec::new());
        }
        let width_config = &auto_width[column_count - 1];
        if width_config.len() == 0 {
            return Err(WidthRuleError::EmptyWidthConfig);
        }
        let mut actions: Vec<LayoutAction> = Vec::new();
        let mut i: usize = 0;
        while i < column_count
            invariant
                i <= column_count,
                column_count == leaders@.len(),
                width_config@.len() > 0,
                sorted_entries(leaders@, column_leaders(tiled@)),
                actions@.len() == i,
                forall|k: int| 0 <= k < i ==> #[trigger] actions@[k] == (LayoutAction::SetWidth {
                    column: leaders@[k].0,
                    window: leaders@[k].1,
                    width: width_config@[if k < width_config@.len() { k } else { width_config@.len() - 1 }],
                }),
            decreases column_count - i,
        {
            let k = if i < width_config.len() { i } else { width_config.len() - 1 };
            let (column, window) = leaders[i];
            actions.push(LayoutAction::SetWidth { column, window, width: width_config[k].clone() });
            i = i + 1;
        }
        Ok(actions)
    }
}


/// The number part of a width such as `"50%"`: the text before the final `%`.
pub fn percent_text(width: &str) -> (r: Result<&str, WidthRuleError>)
    ensures
        match r {
            Ok(t) => width@.len() > 0 && width@.last() == '%' && t@ == width@.drop_last(),
            Err(e) => e == WidthRuleError::MissingPercentSign && !(width@.len() > 0 && width@.last()
                == '%'),
        },
{
    let len = width.unicode_len();
    if len == 0 || width.get_char(len - 1) != '%' {
        return Err(WidthRuleError::MissingPercentSign);
    }
    let t = width.substring_char(0, len - 1);
    assert(t@ =~= width@.drop_last());
    Ok(t)
}

/// One step of realigning the columns of the focused workspace.
#[derive(Debug, PartialEq, Eq)]
pub enum AlignStep {
    FocusColumnFirst,
    FocusWindow { id: u64 },
    FocusColumnLast,
}

/// What happened to a window, as far as the layout rules care.
#[derive(Debug, PartialEq, Eq)]
pub struct WindowObservation {
    pub id: u64,
    pub floating: bool,
    /// The window was not seen before.
    pub is_new: bool,
    /// The window was seen with the other floating state last time.
    pub floating_changed: bool,
}

/// What the layout rules do after a window opened or changed.
#[derive(Debug, PartialEq, Eq)]
pub struct WindowFollowUp {
    /// Tile the window into an existing column (see `handle_auto_tile`).
    pub auto_tile: bool,
    /// Re-apply the column widths.
    pub adjust_widths: bool,
}

/// Where an event leads.
#[derive(Debug, PartialEq, Eq)]
pub enum EventRoute {
    Ignore,
    WindowOpenedOrChanged { id: u64, floating: bool },
    WindowClosed { id: u64 },
    /// Re-evaluate the edge indicators, for this workspace or the focused one.
    SyncEdgePulse { workspace_id: Option<u64> },
}

/// A column of the workspace to tile a new window into, with the window
/// already there.
#[derive(Debug, PartialEq, Eq, Clone, Copy)]
pub struct AutoTileMerge {
    pub column: usize,
    pub parent: u64,
}

/// The number of windows in column `c`.
pub open spec fn column_size(windows: Seq<Window>, c: usize) -> nat
    decreases windows.len(),
{
    if windows.len() == 0 {
        0
    } else {
        column_size(windows.drop_last(), c) + if windows.last().column == Some(c) { 1nat } else { 0nat }
    }
}

/// Matches the windows other than the one with this id.
pub open spec fn other_than(id: u64) -> spec_fn(Window) -> bool {
    |w: Window| w.id != id
}

/// The tiled windows of the workspace other than the new one.
pub open spec fn other_tiled_windows(windows: Seq<Window>, name: Seq<char>, new_window: u64) -> Seq<Window> {
    tiled_windows(windows, name).filter(other_than(new_window))
}

/// A column other than the first that holds exactly one of `windows`.
pub open spec fn lone_column(windows: Seq<Window>, c: usize) -> bool {
    c != 1 && column_size(windows, c) == 1
}

fn count_in_column(windows: &Vec<Window>, c: usize) -> (r: usize)
    ensures
        r == column_size(windows@, c),
{
    let mut n: usize = 0;
    let mut i: usize = 0;
    while i < windows.len()
        invariant
            i <= windows@.len(),
            n == column_size(windows@.take(i as int), c),
            n <= i,
        decreases windows@.len() - i,
    {
        assert(windows@.take(i + 1).drop_last() =~= windows@.take(i as int));
        if windows[i].column == Some(c) {
            n = n + 1;
        }
        i = i + 1;
    }
    assert(windows@.take(windows@.len() as int) =~= windows@);
    n
}

fn without_window(windows: Vec<Window>, id: u64) -> (r: Vec<Window>)
    ensures
        r@ == windows@.filter(other_than(id)),
{
    let ghost pred = other_than(id);
    let mut out: Vec<Window> = Vec::new();
    let mut i: usize = 0;
    while i < windows.len()
        invariant
            i <= windows@.len(),
            pred == other_than(id),
            out@ == windows@.take(i as int).filter(pred),
        decreases windows@.len() - i,
    {
        proof {
            windows@.take(i as int).lemma_filter_push(windows@[i as int], pred);
            assert(windows@.take(i as int).push(windows@[i as int]) =~= windows@.take(i + 1));
        }
        if windows[i].id != id {
            out.push(windows[i].duplicate());
        }
        i = i + 1;
    }
    assert(windows@.take(windows@.len() as int) =~= windows@);
    out
}

impl<S> WorkspaceRulePlugin<S> {
    /// Where to tile a newly opened window of the named workspace: with
    /// `auto_tile`, the lowest column other than the first that holds exactly
    /// one of the workspace's other tiled windows, together with that window.
    pub fn handle_auto_tile(&self, workspace_name: &str, new_window: u64, windows: &[Window]) -> (r:
        Option<AutoTileMerge>)
        ensures
            ({
                let others = other_tiled_windows(windows@, workspace_name@, new_window);
                match r {
                    Some(m) => {
                        &&& self.rules().auto_tile_for(workspace_name@)
                        &&& lone_column(others, m.column)
                        &&& forall|c: usize| c < m.column ==> !lone_column(others, c)
                        &&& exists|i: int| 0 <= i < others.len() && #[trigger] others[i].column == Some(m.column)
                            && others[i].id == m.parent
                    },
                    None => !self.rules().auto_tile_for(workspace_name@)
                        || forall|c: usize| !lone_column(others, c),
                }
            }),
    {
        if !self.get_auto_tile(workspace_name) {
            return None;
        }
        let tiled = Self::filter_tiled_windows_in_workspace(windows, workspace_name);
        let others = without_window(tiled, new_window);
        let mut best: Option<AutoTileMerge> = None;
        let mut i: usize = 0;
        while i < others.len()
            invariant
                i <= others@.len(),
                others@ == other_tiled_windows(windows@, workspace_name@, new_window),
                self.rules().auto_tile_for(workspace_name@),
                match best {
                    Some(m) => {
                        &&& lone_column(others@, m.column)
                        &&& exists|k: int| 0 <= k < others@.len() && #[trigger] others@[k].column == Some(m.column)
                            && others@[k].id == m.parent
                        &&& forall|k: int| 0 <= k < i ==> match (#[trigger] others@[k]).column {
                            Some(c) => lone_column(others@, c) ==> m.column <= c,
                            None => true,
                        }
                    },
                    None => forall|k: int| 0 <= k < i ==> match (#[trigger] others@[k]).column {
                        Some(c) => !lone_column(others@, c),
                        None => true,
                    },
                },
            decreases others@.len() - i,
        {
            match others[i].column {
                Some(c) => {
                    let better = match &best {
                        Some(m) => c < m.column,
                        None => true,
                    };
                    if better && c != 1 && count_in_column(&others, c) == 1 {
                        assert(others@[i as int].column == Some(c));
                        best = Some(AutoTileMerge { column: c, parent: others[i].id });
                    }
                },
                None => {},
            }
            i = i + 1;
        }
        proof {
            match best {
                Some(m) => {
                    assert forall|c: usize| c < m.column implies !lone_column(others@, c) by {
                        if lone_column(others@, c) {
                            lemma_column_size_member(others@, c);
                            let k = choose|k: int| 0 <= k < others@.len() && #[trigger] others@[k].column == Some(c);
                            assert(match others@[k].column {
                                Some(c2) => lone_column(others@, c2) ==> m.column <= c2,
                                None => true,
                            });
                        }
                    }
                },
                None => {
                    assert forall|c: usize| !lone_column(others@, c) by {
                        if lone_column(others@, c) {
                            lemma_column_size_member(others@, c);
                            let k = choose|k: int| 0 <= k < others@.len() && #[trigger] others@[k].column == Some(c);
                            assert(match others@[k].column {
                                Some(c2) => !lone_column(others@, c2),
                                None => true,
                            });
                        }
                    }
                },
            }
        }
        best
    }

    /// Whether the column alignment runs now: the workspace asks for it and
    /// no alignment is under way. When it runs, it is marked under way until
    /// `finish_autofill`.
    pub fn try_execute_autofill(&mut self, workspace_name: &str) -> (r: bool)
        ensures
            r == (old(self).rules().auto_fill_for(workspace_name@) && !old(self)@.autofill_executing),
            final(self)@ == (WorkspaceRuleState {
                autofill_executing: old(self)@.autofill_executing || r,
                ..old(self)@
            }),
            final(self).rules() == old(self).rules(),
    {
        if !self.get_auto_fill(workspace_name) {
            return false;
        }
        if self.autofill_executing {
            return false;
        }
        self.autofill_executing = true;
        true
    }

    /// Ends a column alignment, whether it succeeded or not.
    pub fn finish_autofill(&mut self)
        ensures
            final(self)@ == (WorkspaceRuleState { autofill_executing: false, ..old(self)@ }),
            final(self).rules() == old(self).rules(),
    {
        self.autofill_executing = false;
    }

    /// Whether a column alignment is under way.
    pub fn autofill_executing(&self) -> (r: bool)
        ensures
            r == self@.autofill_executing,
    {
        self.autofill_executing
    }

    /// Records the floating state of a window that opened or changed, and
    /// tells whether it is new and whether its floating state changed.
    pub fn handle_window_opened_or_changed(&mut self, id: u64, floating: bool) -> (r: WindowObservation)
        ensures
            r == (WindowObservation {
                id,
                floating,
                is_new: !old(self)@.seen_windows.contains(id),
                floating_changed: old(self)@.window_floating_state.contains_key(id)
                    && old(self)@.window_floating_state[id] != floating,
            }),
            final(self)@ == (WorkspaceRuleState {
                window_floating_state: old(self)@.window_floating_state.insert(id, floating),
                ..old(self)@
            }),
            final(self).rules() == old(self).rules(),
    {
        let is_new = !self.seen_windows.contains(&id);
        let floating_changed = match self.window_floating_state.get(&id) {
            Some(prev) => *prev != floating,
            None => false,
        };
        self.window_floating_state.insert(id, floating);
        WindowObservation { id, floating, is_new, floating_changed }
    }

    /// Marks a newly seen window as seen and says what follows: a new tiled
    /// window is tiled and the widths adjusted; a change of floating state
    /// adjusts the widths too.
    pub fn register_window(&mut self, observation: &WindowObservation) -> (r: WindowFollowUp)
        ensures
            r.auto_tile == (observation.is_new && !observation.floating),
            r.adjust_widths == ((observation.is_new && !observation.floating)
                || observation.floating_changed),
            final(self)@ == (WorkspaceRuleState {
                seen_windows: if observation.is_new {
                    old(self)@.seen_windows.insert(observation.id)
                } else {
                    old(self)@.seen_windows
                },
                ..old(self)@
            }),
            final(self).rules() == old(self).rules(),
    {
        let is_new_tiled = observation.is_new && !observation.floating;
        if observation.is_new {
            self.seen_windows.insert(observation.id);
        }
        WindowFollowUp {
            auto_tile: is_new_tiled,
            adjust_widths: is_new_tiled || observation.floating_changed,
        }
    }

    /// Forgets a closed window.
    pub fn handle_window_closed(&mut self, id: u64)
        ensures
            final(self)@ == (WorkspaceRuleState {
                seen_windows: old(self)@.seen_windows.remove(id),
                window_floating_state: old(self)@.window_floating_state.remove(id),
                maximized_windows: old(self)@.maximized_windows.remove(id),
                ..old(self)@
            }),
            final(self).rules() == old(self).rules(),
    {
        let ghost floating0 = self@.window_floating_state;
        self.seen_windows.remove(&id);
        self.window_floating_state.remove(&id);
        self.maximized_windows.remove(&id);
        assert(self@.window_floating_state =~= floating0.remove(id));
    }

    /// Whether the plugin reacts to the event.
    pub fn is_interested_in_event(&self, event: &NiriEvent) -> (r: bool)
        ensures
            r == match event {
                NiriEvent::WindowOpenedOrChanged { .. } => true,
                NiriEvent::WindowClosed { .. } => true,
                NiriEvent::WindowFocusChanged { id } => id is Some,
                NiriEvent::WorkspaceActivated { .. } => true,
                NiriEvent::Other => false,
            },
    {
        match event {
            NiriEvent::WindowOpenedOrChanged { .. } => true,
            NiriEvent::WindowClosed { .. } => true,
            NiriEvent::WindowFocusChanged { id: Some(_) } => true,
            NiriEvent::WorkspaceActivated { .. } => true,
            _ => false,
        }
    }

    /// Routes an event. Activating a workspace with focus forgets what the
    /// indicators showed, so that they are redrawn in that workspace's style.
    pub fn handle_event(&mut self, event: &NiriEvent) -> (r: EventRoute)
        ensures
            final(self).rules() == old(self).rules(),
            match *event {
                NiriEvent::WindowOpenedOrChanged { id, floating } => r == (EventRoute::WindowOpenedOrChanged { id, floating })
                    && final(self)@ == old(self)@,
                NiriEvent::WindowClosed { id } => r == (EventRoute::WindowClosed { id })
                    && final(self)@ == old(self)@,
                NiriEvent::WindowFocusChanged { id } => final(self)@ == old(self)@ && if id is Some {
                    r == (EventRoute::SyncEdgePulse { workspace_id: None })
                } else {
                    r == EventRoute::Ignore
                },
                NiriEvent::WorkspaceActivated { id, focused } => if focused {
                    r == (EventRoute::SyncEdgePulse { workspace_id: Some(id) })
                        && final(self)@ == (WorkspaceRuleState { edge_pulse_last_render: None, ..old(self)@ })
                } else {
                    r == EventRoute::Ignore && final(self)@ == old(self)@
                },
                NiriEvent::Other => r == EventRoute::Ignore && final(self)@ == old(self)@,
            },
    {
        match event {
            NiriEvent::WindowOpenedOrChanged { id, floating } => EventRoute::WindowOpenedOrChanged {
                id: *id,
                floating: *floating,
            },
            NiriEvent::WindowClosed { id } => EventRoute::WindowClosed { id: *id },
            NiriEvent::WindowFocusChanged { id: Some(_) } => EventRoute::SyncEdgePulse { workspace_id: None },
            NiriEvent::WorkspaceActivated { id, focused: true } => {
                self.edge_pulse_last_render = None;
                EventRoute::SyncEdgePulse { workspace_id: Some(*id) }
            },
            _ => EventRoute::Ignore,
        }
    }
}

/// A column of size one holds a window of `windows`.
proof fn lemma_column_size_member(windows: Seq<Window>, c: usize)
    requires
        column_size(windows, c) > 0,
    ensures
        exists|i: int| 0 <= i < windows.len() && #[trigger] windows[i].column == Some(c),
    decreases windows.len(),
{
    if windows.last().column == Some(c) {
        assert(windows[windows.len() - 1].column == Some(c));
    } else {
        lemma_column_size_member(windows.drop_last(), c);
        let i = choose|i: int| 0 <= i < windows.drop_last().len() && #[trigger] windows.drop_last()[i].column == Some(c);
        assert(windows[i].column == Some(c));
    }
}

/// The steps that realign the columns of the focused workspace: focus the
/// first column, then return to the window that had focus, or, when none
/// had, to the last column.
pub fn check_and_align_last_column(focused_window: Option<u64>) -> (r: Vec<AlignStep>)
    ensures
        r@.len() == 2,
        r@[0] == AlignStep::FocusColumnFirst,
        r@[1] == match focused_window {
            Some(id) => AlignStep::FocusWindow { id },
            None => AlignStep::FocusColumnLast,
        },
{
    let mut steps: Vec<AlignStep> = Vec::new();
    steps.push(AlignStep::FocusColumnFirst);
    let back = match focused_window {
        Some(id) => AlignStep::FocusWindow { id },
        None => AlignStep::FocusColumnLast,
    };
    steps.push(back);
    steps
}


/// What the edge indicator update has learned so far, handed back after
/// each step that the caller performs.
#[allow(inconsistent_fields)]
pub enum EdgePulseEvent {
    /// Update the indicators for this workspace, or for the focused one.
    Start { workspace_id: Option<u64> },
    /// The workspaces, fetched for the update of `workspace_id`.
    Workspaces { workspace_id: Option<u64>, workspaces: Vec<WorkspaceInfo> },
    /// The focused window, if any, fetched for the named workspace.
    FocusedWindow { ws_id: u64, ws_name: String, focused: Option<u64> },
    /// The windows, fetched for the named workspace and the focused window.
    Windows { ws_id: u64, ws_name: String, focused: u64, windows: Vec<Window> },
    /// Both indicators were hidden successfully.
    HiddenRendered,
}

/// What the caller does next to update the edge indicators.
#[derive(Debug, PartialEq, Eq)]
pub enum EdgePulseAction {
    FetchWorkspaces { workspace_id: Option<u64> },
    FetchFocusedWindow { ws_id: u64, ws_name: String },
    FetchWindows { ws_id: u64, ws_name: String, focused: u64 },
    /// Hide both indicators (default style), then report `HiddenRendered`.
    RenderHidden,
    /// Draw `state` in the style of the named workspace; the update ends.
    Render { state: EdgePulseRenderState, ws_name: String },
    /// The update ends.
    Done,
}

/// The workspace an update is for: the one with the given id, else the focused one.
pub open spec fn target_workspace(workspace_id: Option<u64>) -> spec_fn(WorkspaceInfo) -> bool {
    |ws: WorkspaceInfo| match workspace_id {
        Some(id) => ws.id == id,
        None => ws.is_focused,
    }
}

/// The focused window, tiled in the workspace with this id.
pub open spec fn focused_tiled_in(focused: u64, ws_id: u64) -> spec_fn(Window) -> bool {
    |w: Window| w.id == focused && !w.floating && w.workspace_id == Some(ws_id)
}


/// The focused window, floating in the workspace with this id.
pub open spec fn floating_focused_in(windows: Seq<Window>, focused: u64, ws_id: u64) -> bool {
    exists|j: int| 0 <= j < windows.len() && #[trigger] windows[j].id == focused && windows[j].floating
        && windows[j].workspace_id == Some(ws_id)
}

/// Column `c` holds a tiled window of the workspace with this id.
pub open spec fn column_present(windows: Seq<Window>, ws_id: u64, c: usize) -> bool {
    exists|i: int| 0 <= i < windows.len() && in_column_of(#[trigger] windows[i], ws_id, c)
}

/// The workspace has at least two columns of tiled windows.
pub open spec fn two_columns(windows: Seq<Window>, ws_id: u64) -> bool {
    exists|c1: usize, c2: usize| c1 != c2 && #[trigger] column_present(windows, ws_id, c1)
        && #[trigger] column_present(windows, ws_id, c2)
}

/// The indicators for a focused window in column `fc`: an edge shows where
/// the settings allow it and no column lies beyond the focused one on that side.
pub open spec fn edge_state<S>(cfg: EdgePulseSettings<S>, windows: Seq<Window>, ws_id: u64, fc: usize) -> EdgePulseRenderState {
    EdgePulseRenderState {
        show_left: cfg.show_left && !exists|c: usize| c < fc && #[trigger] column_present(windows, ws_id, c),
        show_right: cfg.show_right && !exists|c: usize| c > fc && #[trigger] column_present(windows, ws_id, c),
    }
}

/// Hiding the indicators: nothing to do where they are known to be hidden.
pub open spec fn hide_action(last: Option<EdgePulseRenderState>, r: EdgePulseAction) -> bool {
    if last == Some(hidden_render()) {
        r is Done
    } else {
        r is RenderHidden
    }
}


/// One step of `sync_edge_pulse_indicator` on `event`: the state before and
/// after it and the action it returns.
pub open spec fn edge_pulse_step<S>(
    old: WorkspaceRuleState,
    rules: WorkspaceRulePluginConfig<S>,
    event: EdgePulseEvent,
    new: WorkspaceRuleState,
    r: EdgePulseAction,
) -> bool {
    match event {
        EdgePulseEvent::Start { workspace_id } => r == (EdgePulseAction::FetchWorkspaces { workspace_id })
            && new == old,
        EdgePulseEvent::Workspaces { workspace_id, workspaces } => {
            match first_index(workspaces@, target_workspace(workspace_id)) {
                None => hide_action(old.edge_pulse_last_render, r) && new == old,
                Some(i) => {
                    let ws = workspaces@[i];
                    let name = decimal(ws.idx as nat);
                    if rules.edge_pulse_for(name).enabled {
                        &&& r matches EdgePulseAction::FetchFocusedWindow { ws_id, ws_name }
                        &&& ws_id == ws.id
                        &&& ws_name@ == name
                        &&& new == old
                    } else {
                        hide_action(old.edge_pulse_last_render, r) && new == old
                    }
                },
            }
        },
        EdgePulseEvent::FocusedWindow { ws_id, ws_name, focused } => new == old
            && match focused {
            None => hide_action(old.edge_pulse_last_render, r),
            Some(f) => r == (EdgePulseAction::FetchWindows { ws_id, ws_name, focused: f }),
        },
        EdgePulseEvent::Windows { ws_id, ws_name, focused, windows } => {
            let cfg = rules.edge_pulse_for(ws_name@);
            let fc = match first_index(windows@, focused_tiled_in(focused, ws_id)) {
                Some(i) => windows@[i].column,
                None => None,
            };
            if !two_columns(windows@, ws_id) {
                hide_action(old.edge_pulse_last_render, r) && new == old
            } else if fc is None {
                new == old && if floating_focused_in(windows@, focused, ws_id) {
                    r is Done
                } else {
                    hide_action(old.edge_pulse_last_render, r)
                }
            } else {
                let state = edge_state(cfg, windows@, ws_id, fc->0);
                if old.edge_pulse_last_render == Some(state) {
                    r is Done && new == old
                } else {
                    r == (EdgePulseAction::Render { state, ws_name }) && new
                        == (WorkspaceRuleState { edge_pulse_last_render: Some(state), ..old })
                }
            }
        },
        EdgePulseEvent::HiddenRendered => r is Done && new == (WorkspaceRuleState {
            edge_pulse_last_render: Some(hidden_render()),
            ..old
        }),
    }
}

impl<S> WorkspaceRulePlugin<S> {
    /// Whether hiding the indicators needs a render: not where they are
    /// known to be hidden already.
    pub fn hide_edge_pulse(&self) -> (r: bool)
        ensures
            r == (self@.edge_pulse_last_render != Some(hidden_render())),
    {
        match self.edge_pulse_last_render {
            Some(st) => st.show_left || st.show_right,
            None => true,
        }
    }

    fn hide_step(&self) -> (r: EdgePulseAction)
        ensures
            hide_action(self@.edge_pulse_last_render, r),
    {
        if self.hide_edge_pulse() {
            EdgePulseAction::RenderHidden
        } else {
            EdgePulseAction::Done
        }
    }

    fn find_target_workspace(workspaces: &Vec<WorkspaceInfo>, workspace_id: Option<u64>) -> (r: Option<usize>)
        ensures
            match r {
                Some(i) => first_index(workspaces@, target_workspace(workspace_id)) == Some(i as int),
                None => first_index(workspaces@, target_workspace(workspace_id)) is None,
            },
    {
        let ghost p = target_workspace(workspace_id);
        let mut i: usize = 0;
        while i < workspaces.len()
            invariant
                i <= workspaces@.len(),
                p == target_workspace(workspace_id),
                forall|j: int| 0 <= j < i ==> !p(#[trigger] workspaces@[j]),
            decreases workspaces@.len() - i,
        {
            let hit = match workspace_id {
                Some(id) => workspaces[i].id == id,
                None => workspaces[i].is_focused,
            };
            if hit {
                proof {
                    lemma_first_index_found(workspaces@, p, i as int);
                }
                return Some(i);
            }
            i = i + 1;
        }
        proof {
            lemma_first_index_none(workspaces@, p);
        }
        None
    }

    fn find_focused_tiled(windows: &Vec<Window>, focused: u64, ws_id: u64) -> (r: Option<usize>)
        ensures
            match r {
                Some(i) => first_index(windows@, focused_tiled_in(focused, ws_id)) == Some(i as int),
                None => first_index(windows@, focused_tiled_in(focused, ws_id)) is None,
            },
    {
        let ghost p = focused_tiled_in(focused, ws_id);
        let mut i: usize = 0;
        while i < windows.len()
            invariant
                i <= windows@.len(),
                p == focused_tiled_in(focused, ws_id),
                forall|j: int| 0 <= j < i ==> !p(#[trigger] windows@[j]),
            decreases windows@.len() - i,
        {
            let w = &windows[i];
            if w.id == focused && !w.floating && w.workspace_id == Some(ws_id) {
                proof {
                    lemma_first_index_found(windows@, p, i as int);
                }
                return Some(i);
            }
            i = i + 1;
        }
        proof {
            lemma_first_index_none(windows@, p);
        }
        None
    }

    fn any_focused_floating(windows: &Vec<Window>, focused: u64, ws_id: u64) -> (r: bool)
        ensures
            r == floating_focused_in(windows@, focused, ws_id),
    {
        let mut i: usize = 0;
        while i < windows.len()
            invariant
                i <= windows@.len(),
                forall|j: int| 0 <= j < i ==> !(#[trigger] windows@[j].id == focused && windows@[j].floating
                    && windows@[j].workspace_id == Some(ws_id)),
            decreases windows@.len() - i,
        {
            let w = &windows[i];
            if w.id == focused && w.floating && w.workspace_id == Some(ws_id) {
                return true;
            }
            i = i + 1;
        }
        false
    }

    /// One step of updating the edge indicators: from what was learned
    /// last, the next thing to fetch, to draw, or the end.
    ///
    /// The indicators are hidden when the workspace cannot be found, when
    /// its indicators are disabled, when no window has focus, when the
    /// workspace has fewer than two columns, and when the focused window is
    /// not tiled there; a focused window floating in the workspace leaves
    /// them as they are. Otherwise each edge shows where no column lies beyond
    /// the focused one on that side. What was drawn last is remembered, and
    /// nothing is drawn again when it would not change.
    pub fn sync_edge_pulse_indicator(&mut self, event: EdgePulseEvent) -> (r: EdgePulseAction)
        ensures
            final(self).rules() == old(self).rules(),
            final(self)@.seen_windows == old(self)@.seen_windows,
            final(self)@.window_floating_state == old(self)@.window_floating_state,
            final(self)@.maximized_windows == old(self)@.maximized_windows,
            edge_pulse_step(old(self)@, old(self).rules(), event, final(self)@, r),
    {
        match event {
            EdgePulseEvent::Start { workspace_id } => EdgePulseAction::FetchWorkspaces { workspace_id },
            EdgePulseEvent::Workspaces { workspace_id, workspaces } => {
                match Self::find_target_workspace(&workspaces, workspace_id) {
                    None => self.hide_step(),
                    Some(i) => {
                        proof {
                            lemma_first_index_spec(workspaces@, target_workspace(workspace_id));
                        }
                        let ws_name = decimal_string(workspaces[i].idx as u64);
                        let ws_id = workspaces[i].id;
                        let enabled = self.get_edge_pulse_config(ws_name.as_str()).enabled;
                        if !enabled {
                            self.hide_step()
                        } else {
                            EdgePulseAction::FetchFocusedWindow { ws_id, ws_name }
                        }
                    },
                }
            },
            EdgePulseEvent::FocusedWindow { ws_id, ws_name, focused } => {
                match focused {
                    None => self.hide_step(),
                    Some(f) => EdgePulseAction::FetchWindows { ws_id, ws_name, focused: f },
                }
            },
            EdgePulseEvent::Windows { ws_id, ws_name, focused, windows } => {
                let columns = Self::collect_workspace_columns_by_id(windows.as_slice(), ws_id);
                if columns.len() <= 1 {
                    proof {
                        assert forall|c1: usize, c2: usize| c1 != c2 && #[trigger] column_present(windows@, ws_id, c1)
                            implies !#[trigger] column_present(windows@, ws_id, c2) by {
                            assert(columns@.contains(c1));
                            if column_present(windows@, ws_id, c2) {
                                assert(columns@.contains(c2));
                            }
                        }
                    }
                    return self.hide_step();
                }
                proof {
                    assert(columns@.contains(columns@[0]));
                    assert(columns@.contains(columns@[1]));
                    assert(column_present(windows@, ws_id, columns@[0]));
                    assert(column_present(windows@, ws_id, columns@[1]));
                }
                let fc = match Self::find_focused_tiled(&windows, focused, ws_id) {
                    Some(i) => {
                        proof {
                            lemma_first_index_spec(windows@, focused_tiled_in(focused, ws_id));
                        }
                        windows[i].column
                    },
                    None => None,
                };
                match fc {
                    None => {
                        if Self::any_focused_floating(&windows, focused, ws_id) {
                            EdgePulseAction::Done
                        } else {
                            self.hide_step()
                        }
                    },
                    Some(fc) => {
                        let mut has_left = false;
                        let mut has_right = false;
                        let mut k: usize = 0;
                        while k < columns.len()
                            invariant
                                k <= columns@.len(),
                                forall|c: usize| columns@.contains(c) <==> column_present(windows@, ws_id, c),
                                has_left == exists|j: int| 0 <= j < k && #[trigger] columns@[j] < fc,
                                has_right == exists|j: int| 0 <= j < k && #[trigger] columns@[j] > fc,
                            decreases columns@.len() - k,
                        {
                            if columns[k] < fc {
                                has_left = true;
                            }
                            if columns[k] > fc {
                                has_right = true;
                            }
                            k = k + 1;
                        }
                        proof {
                            if has_left {
                                let j = choose|j: int| 0 <= j < columns@.len() && #[trigger] columns@[j] < fc;
                                assert(columns@.contains(columns@[j]));
                                assert(column_present(windows@, ws_id, columns@[j]));
                            } else {
                                assert forall|c: usize| c < fc implies !#[trigger] column_present(windows@, ws_id, c) by {
                                    if column_present(windows@, ws_id, c) {
                                        assert(columns@.contains(c));
                                        let j = choose|j: int| 0 <= j < columns@.len() && columns@[j] == c;
                                        assert(columns@[j] < fc);
                                    }
                                }
                            }
                            if has_right {
                                let j = choose|j: int| 0 <= j < columns@.len() && #[trigger] columns@[j] > fc;
                                assert(columns@.contains(columns@[j]));
                                assert(column_present(windows@, ws_id, columns@[j]));
                            } else {
                                assert forall|c: usize| c > fc implies !#[trigger] column_present(windows@, ws_id, c) by {
                                    if column_present(windows@, ws_id, c) {
                                        assert(columns@.contains(c));
                                        let j = choose|j: int| 0 <= j < columns@.len() && columns@[j] == c;
                                        assert(columns@[j] > fc);
                                    }
                                }
                            }
                        }
                        let cfg = self.get_edge_pulse_config(ws_name.as_str());
                        let state = EdgePulseRenderState {
                            show_left: cfg.show_left && !has_left,
                            show_right: cfg.show_right && !has_right,
                        };
                        let unchanged = match self.edge_pulse_last_render {
                            Some(last) => last.show_left == state.show_left && last.show_right == state.show_right,
                            None => false,
                        };
                        if unchanged {
                            return EdgePulseAction::Done;
                        }
                        self.edge_pulse_last_render = Some(state);
                        EdgePulseAction::Render { state, ws_name }
                    },
                }
            },
            EdgePulseEvent::HiddenRendered => {
                self.edge_pulse_last_render = Some(EdgePulseRenderState { show_left: false, show_right: false });
                EdgePulseAction::Done
            },
        }
    }
}


/// The focused column of an update: the column of the focused window, where
/// that window is tiled in the workspace.
pub open spec fn focused_column(windows: Seq<Window>, focused: u64, ws_id: u64) -> Option<usize> {
    match first_index(windows, focused_tiled_in(focused, ws_id)) {
        Some(i) => windows[i].column,
        None => None,
    }
}

/// Indicators are only drawn for a workspace of two columns or more.
pub proof fn render_needs_two_columns<S>(
    s: WorkspaceRuleState,
    rules: WorkspaceRulePluginConfig<S>,
    ws_id: u64,
    ws_name: String,
    focused: u64,
    windows: Vec<Window>,
    new: WorkspaceRuleState,
    r: EdgePulseAction,
)
    requires
        edge_pulse_step(s, rules, EdgePulseEvent::Windows { ws_id, ws_name, focused, windows }, new, r),
        r is Render,
    ensures
        two_columns(windows@, ws_id),
        focused_column(windows@, focused, ws_id) is Some,
{
}

/// What was drawn is remembered: the same update again draws nothing.
pub proof fn render_is_cached<S>(
    s: WorkspaceRuleState,
    rules: WorkspaceRulePluginConfig<S>,
    event: EdgePulseEvent,
    s1: WorkspaceRuleState,
    r1: EdgePulseAction,
    s2: WorkspaceRuleState,
    r2: EdgePulseAction,
)
    requires
        edge_pulse_step(s, rules, event, s1, r1),
        r1 is Render,
        edge_pulse_step(s1, rules, event, s2, r2),
    ensures
        r2 is Done,
        s2 == s1,
{
}

/// Once the indicators are hidden, hiding them again draws nothing.
pub proof fn hidden_stays_hidden<S>(
    s: WorkspaceRuleState,
    rules: WorkspaceRulePluginConfig<S>,
    s1: WorkspaceRuleState,
    r1: EdgePulseAction,
    r2: EdgePulseAction,
)
    requires
        edge_pulse_step(s, rules, EdgePulseEvent::HiddenRendered, s1, r1),
        hide_action(s1.edge_pulse_last_render, r2),
    ensures
        r2 is Done,
{
}

/// After a workspace switch (which forgets what was drawn), the indicators
/// are drawn whenever the focused window is tiled in a workspace of two
/// columns or more.
pub proof fn switch_forces_redraw<S>(
    s: WorkspaceRuleState,
    rules: WorkspaceRulePluginConfig<S>,
    ws_id: u64,
    ws_name: String,
    focused: u64,
    windows: Vec<Window>,
    new: WorkspaceRuleState,
    r: EdgePulseAction,
)
    requires
        s.edge_pulse_last_render is None,
        two_columns(windows@, ws_id),
        focused_column(windows@, focused, ws_id) is Some,
        edge_pulse_step(s, rules, EdgePulseEvent::Windows { ws_id, ws_name, focused, windows }, new, r),
    ensures
        r is Render,
        new.edge_pulse_last_render is Some,
{
}

/// A lone tiled window is maximized once: running the width rules again on
/// the same windows changes nothing.
pub proof fn lone_window_maximized_once<S>(
    s: WorkspaceRuleState,
    rules: WorkspaceRulePluginConfig<S>,
    name: Seq<char>,
    windows: Seq<Window>,
    s1: WorkspaceRuleState,
    r1: Result<Vec<LayoutAction>, WidthRuleError>,
    s2: WorkspaceRuleState,
    r2: Result<Vec<LayoutAction>, WidthRuleError>,
)
    requires
        rules.auto_maximize_for(name),
        tiled_windows(windows, name).len() == 1,
        apply_widths_step(s, rules, name, windows, s1, r1),
        apply_widths_step(s1, rules, name, windows, s2, r2),
    ensures
        s1.maximized_windows.contains(tiled_windows(windows, name)[0].id),
        r2 matches Ok(v) && v@.len() == 0,
        s2 == s1,
{
}

/// A window that closed is forgotten: when it shows up again it counts as
/// new, with no floating state to compare against and not maximized.
pub proof fn closed_window_is_forgotten(s: WorkspaceRuleState, id: u64)
    ensures
        ({
            let closed = WorkspaceRuleState {
                seen_windows: s.seen_windows.remove(id),
                window_floating_state: s.window_floating_state.remove(id),
                maximized_windows: s.maximized_windows.remove(id),
                ..s
            };
            &&& !closed.seen_windows.contains(id)
            &&& !closed.window_floating_state.contains_key(id)
            &&& !closed.maximized_windows.contains(id)
        }),
{
}


/// A logical height as a signed 32-bit number, the way `as i32` converts it
/// (heights past `i32::MAX` wrap around).
pub open spec fn height_as_i32(h: u32) -> int {
    if h <= i32::MAX { h as int } else { h - 0x1_0000_0000 }
}

/// Where the indicators are drawn: on the focused output, by name, with its
/// logical height; without a focused output (or when the query failed)
/// nowhere in particular, and 1080 as the height where none is known.
pub fn edge_pulse_target(focused_output: Option<OutputInfo>) -> (r: (Option<String>, i32))
    ensures
        match focused_output {
            None => r.0 is None && r.1 == 1080,
            Some(o) => r.0 == Some(o.name) && r.1 == match o.logical_height {
                Some(h) => height_as_i32(h),
                None => 1080,
            },
        },
{
    match focused_output {
        None => (None, 1080),
        Some(o) => {
            let height: i32 = match o.logical_height {
                Some(h) => if h <= 0x7fff_ffff {
                    h as i32
                } else {
                    (h as i64 - 0x1_0000_0000i64) as i32
                },
                None => 1080,
            };
            (Some(o.name), height)
        },
    }
}

/// Once an alignment has run (`try_execute_autofill`, then
/// `finish_autofill`), none is under way: the next one can start.
pub proof fn autofill_released<S>(
    s: WorkspaceRuleState,
    rules: WorkspaceRulePluginConfig<S>,
    name: Seq<char>,
    started: bool,
)
    requires
        started == (rules.auto_fill_for(name) && !s.autofill_executing),
    ensures
        ({
            let running = WorkspaceRuleState { autofill_executing: s.autofill_executing || started, ..s };
            let done = WorkspaceRuleState { autofill_executing: false, ..running };
            &&& started ==> running.autofill_executing
            &&& !done.autofill_executing
        }),
{
}

/// Hiding is remembered too: after the indicators were hidden, the same
/// update again (a missing workspace, disabled indicators, no focus, a single
/// column, a focused window elsewhere) draws nothing.
pub proof fn hide_is_cached<S>(
    s: WorkspaceRuleState,
    rules: WorkspaceRulePluginConfig<S>,
    event: EdgePulseEvent,
    s1: WorkspaceRuleState,
    r1: EdgePulseAction,
    s2: WorkspaceRuleState,
    r2: EdgePulseAction,
    s3: WorkspaceRuleState,
    r3: EdgePulseAction,
)
    requires
        edge_pulse_step(s, rules, event, s1, r1),
        r1 is RenderHidden,
        edge_pulse_step(s1, rules, EdgePulseEvent::HiddenRendered, s2, r2),
        edge_pulse_step(s2, rules, event, s3, r3),
    ensures
        r3 is Done,
        s3 == s2,
{
}


/// The plugin is loaded exactly when the configuration asks for something:
/// any feature of the default section turned on (column widths, tiling,
/// alignment, maximizing, edge indicators), or any workspace with rules.
pub proof fn plugin_loaded_when_asked<S>(
    default: WorkspaceRuleSection<S>,
    entries: Seq<(String, WorkspaceRuleConfig<S>)>,
    r: Option<WorkspaceRulePluginConfig<S>>,
)
    requires
        from_config_result(default, entries, r),
    ensures
        (default.auto_width@.len() > 0 || default.auto_tile || default.auto_fill || default.auto_maximize
            || default.edge_pulse.enabled || entries.len() > 0) ==> r is Some,
        (default.auto_width@.len() == 0 && !default.auto_tile && !default.auto_fill && !default.auto_maximize
            && !default.edge_pulse.enabled && entries.len() == 0) ==> r is None,
        r matches Some(c) ==> c.default == default,
{
}

/// A workspace's own rules replace the default section, setting by setting;
/// a workspace without rules of its own follows the default section.
pub proof fn workspace_rules_override_default<S>(rules: WorkspaceRulePluginConfig<S>, name: Seq<char>)
    ensures
        rules.workspaces@.contains_key(name) ==> {
            let own = rules.workspaces@[name];
            &&& rules.auto_width_for(name) == own.auto_width
            &&& rules.auto_tile_for(name) == own.auto_tile
            &&& rules.auto_fill_for(name) == own.auto_fill
            &&& rules.auto_maximize_for(name) == own.auto_maximize
            &&& rules.edge_pulse_for(name) == own.edge_pulse
        },
        !rules.workspaces@.contains_key(name) ==> {
            &&& rules.auto_width_for(name) == rules.default.auto_width
            &&& rules.auto_tile_for(name) == rules.default.auto_tile
            &&& rules.auto_fill_for(name) == rules.default.auto_fill
            &&& rules.auto_maximize_for(name) == rules.default.auto_maximize
            &&& rules.edge_pulse_for(name) == rules.default.edge_pulse
        },
{
}

/// A workspace whose own rules turn tiling off never gets a new window
/// tiled into a column, whatever the default section says.
pub proof fn auto_tile_off_means_no_merge<S>(rules: WorkspaceRulePluginConfig<S>, name: Seq<char>)
    requires
        rules.workspaces@.contains_key(name),
        !rules.workspaces@[name].auto_tile,
    ensures
        !rules.auto_tile_for(name),
{
}

/// Floating windows never count as tiled windows of a workspace. A
/// non-floating window counts when its workspace's name is `name`, or its
/// workspace id printed in decimal is; a window with neither does not.
pub proof fn tiled_means_not_floating_and_on_workspace(w: Window, name: Seq<char>)
    ensures
        w.floating ==> !tiled_in_workspace(w, name),
        (!w.floating && (w.workspace matches Some(n) && n@ == name)) ==> tiled_in_workspace(w, name),
        (!w.floating && (w.workspace_id matches Some(id) && decimal(id as nat) == name)) ==> tiled_in_workspace(w, name),
        (!(w.workspace matches Some(n) && n@ == name) && !(w.workspace_id matches Some(id) && decimal(id as nat)
            == name)) ==> !tiled_in_workspace(w, name),
{
}

/// Every window of the tiled-window list of a workspace is a non-floating
/// window of the input that is on that workspace.
pub proof fn tiled_windows_are_tiled(windows: Seq<Window>, name: Seq<char>)
    ensures
        forall|i: int| 0 <= i < tiled_windows(windows, name).len() ==> {
            &&& !(#[trigger] tiled_windows(windows, name)[i]).floating
            &&& windows.contains(tiled_windows(windows, name)[i])
        },
{
    broadcast use vstd::seq_lib::group_filter_ensures;
    assert forall|i: int| 0 <= i < tiled_windows(windows, name).len() implies {
        &&& !(#[trigger] tiled_windows(windows, name)[i]).floating
        &&& windows.contains(tiled_windows(windows, name)[i])
    } by {
        let p = |w: Window| tiled_in_workspace(w, name);
        windows.lemma_filter_pred(p, i);
        lemma_filter_member(windows, p, i);
    }
}

/// An element of a filtered sequence comes from the sequence.
proof fn lemma_filter_member<A>(s: Seq<A>, p: spec_fn(A) -> bool, i: int)
    requires
        0 <= i < s.filter(p).len(),
    ensures
        s.contains(s.filter(p)[i]),
    decreases s.len(),
{
    reveal(Seq::filter);
    if s.len() > 0 {
        let sub = s.drop_last().filter(p);
        if i < sub.len() {
            lemma_filter_member(s.drop_last(), p, i);
            let k = choose|k: int| 0 <= k < s.drop_last().len() && s.drop_last()[k] == sub[i];
            assert(s[k] == s.filter(p)[i]);
        } else {
            assert(s[s.len() - 1] == s.filter(p)[i]);
        }
    }
}

/// Filtering keeps exactly the one element that satisfies `p`.
proof fn lemma_filter_single<A>(s: Seq<A>, p: spec_fn(A) -> bool, i: int)
    requires
        0 <= i < s.len(),
        p(s[i]),
        forall|j: int| 0 <= j < s.len() && j != i ==> !p(#[trigger] s[j]),
    ensures
        s.filter(p) == seq![s[i]],
    decreases s.len(),
{
    reveal(Seq::filter);
    if i == s.len() - 1 {
        lemma_filter_none(s.drop_last(), p);
        assert(s.filter(p) =~= seq![s[i]]);
    } else {
        let t = s.drop_last();
        assert forall|j: int| 0 <= j < t.len() && j != i implies !p(#[trigger] t[j]) by {
            assert(t[j] == s[j]);
        }
        lemma_filter_single(t, p, i);
        assert(!p(s[s.len() - 1]));
    }
}

proof fn lemma_filter_none<A>(s: Seq<A>, p: spec_fn(A) -> bool)
    requires
        forall|j: int| 0 <= j < s.len() ==> !p(#[trigger] s[j]),
    ensures
        s.filter(p) == Seq::<A>::empty(),
    decreases s.len(),
{
    reveal(Seq::filter);
    if s.len() > 0 {
        let t = s.drop_last();
        assert forall|j: int| 0 <= j < t.len() implies !p(#[trigger] t[j]) by {
            assert(t[j] == s[j]);
        }
        lemma_filter_none(t, p);
        assert(!p(s[s.len() - 1]));
    }
}

/// With `auto_maximize`, the one non-floating window of a workspace whose
/// other windows all float is maximized (once): floating windows do not
/// count against it.
pub proof fn lone_tiled_window_is_maximized<S>(
    s: WorkspaceRuleState,
    rules: WorkspaceRulePluginConfig<S>,
    name: Seq<char>,
    windows: Seq<Window>,
    i: int,
    new: WorkspaceRuleState,
    r: Result<Vec<LayoutAction>, WidthRuleError>,
)
    requires
        rules.auto_maximize_for(name),
        0 <= i < windows.len(),
        !windows[i].floating,
        windows[i].workspace matches Some(n) && n@ == name,
        forall|j: int| 0 <= j < windows.len() && j != i ==> (#[trigger] windows[j]).floating,
        !s.maximized_windows.contains(windows[i].id),
        apply_widths_step(s, rules, name, windows, new, r),
    ensures
        r matches Ok(v) && v@ == seq![LayoutAction::MaximizeToEdges { window: windows[i].id }],
        new.maximized_windows == s.maximized_windows.insert(windows[i].id),
{
    let p = |w: Window| tiled_in_workspace(w, name);
    assert forall|j: int| 0 <= j < windows.len() && j != i implies !p(#[trigger] windows[j]) by {
        tiled_means_not_floating_and_on_workspace(windows[j], name);
    }
    tiled_means_not_floating_and_on_workspace(windows[i], name);
    lemma_filter_single(windows, p, i);
    assert(tiled_windows(windows, name) == seq![windows[i]]);
}

/// The indicators drawn for a workspace follow that workspace's own
/// settings (its rules where it has them, else the default section): an
/// edge shows only where the settings allow it, and whenever they allow it
/// and no tiled column of the workspace lies beyond the focused one on that side.
pub proof fn rendered_sides_follow_workspace_settings<S>(
    s: WorkspaceRuleState,
    rules: WorkspaceRulePluginConfig<S>,
    ws_id: u64,
    ws_name: String,
    focused: u64,
    windows: Vec<Window>,
    new: WorkspaceRuleState,
    r: EdgePulseAction,
)
    requires
        edge_pulse_step(s, rules, EdgePulseEvent::Windows { ws_id, ws_name, focused, windows }, new, r),
    ensures
        r matches EdgePulseAction::Render { state, .. } ==> {
            let cfg = if rules.workspaces@.contains_key(ws_name@) {
                rules.workspaces@[ws_name@].edge_pulse
            } else {
                rules.default.edge_pulse
            };
            let fc = focused_column(windows@, focused, ws_id)->0;
            &&& state.show_left ==> cfg.show_left
            &&& state.show_right ==> cfg.show_right
            &&& (cfg.show_left && forall|j: int, c: usize| 0 <= j < windows@.len() && c < fc ==> !#[trigger] in_column_of(windows@[j], ws_id, c)) ==> state.show_left
            &&& (cfg.show_right && forall|j: int, c: usize| 0 <= j < windows@.len() && c > fc ==> !#[trigger] in_column_of(windows@[j], ws_id, c)) ==> state.show_right
            &&& state.show_left ==> forall|j: int, c: usize| 0 <= j < windows@.len() && c < fc ==> !#[trigger] in_column_of(windows@[j], ws_id, c)
            &&& state.show_right ==> forall|j: int, c: usize| 0 <= j < windows@.len() && c > fc ==> !#[trigger] in_column_of(windows@[j], ws_id, c)
        },
{
    if r is Render {
        let fc = focused_column(windows@, focused, ws_id)->0;
        assert forall|j: int, c: usize| 0 <= j < windows@.len() && c < fc && #[trigger] in_column_of(windows@[j], ws_id, c)
            implies column_present(windows@, ws_id, c) by {}
        assert forall|j: int, c: usize| 0 <= j < windows@.len() && c > fc && #[trigger] in_column_of(windows@[j], ws_id, c)
            implies column_present(windows@, ws_id, c) by {}
    }
}


/// A window is in column `c` of a workspace when it is not floating, is on
/// that workspace, and sits in that column.
pub proof fn in_column_means_tiled_there(w: Window, ws_id: u64, c: usize)
    ensures
        in_column_of(w, ws_id, c) <==> (!w.floating && w.workspace_id == Some(ws_id) && w.column == Some(c)),
{
}

/// The columns that the width rules see are the columns of the windows, and
/// each is led by the last window in it.
pub proof fn column_leader_is_last_window(windows: Seq<Window>, c: usize)
    ensures
        column_leaders(windows).contains_key(c) <==> exists|i: int| 0 <= i < windows.len() && #[trigger] windows[i].column == Some(c),
        column_leaders(windows).contains_key(c) ==> exists|i: int|
            0 <= i < windows.len() && #[trigger] windows[i].column == Some(c) && windows[i].id == column_leaders(windows)[c]
                && forall|j: int| i < j < windows.len() ==> (#[trigger] windows[j]).column != Some(c),
    decreases windows.len(),
{
    if windows.len() > 0 {
        let t = windows.drop_last();
        let n = windows.len() - 1;
        column_leader_is_last_window(t, c);
        if windows.last().column == Some(c) {
            assert(windows[n].column == Some(c));
        } else {
            if column_leaders(windows).contains_key(c) {
                let i = choose|i: int| 0 <= i < t.len() && #[trigger] t[i].column == Some(c) && t[i].id == column_leaders(t)[c]
                    && forall|j: int| i < j < t.len() ==> (#[trigger] t[j]).column != Some(c);
                assert(windows[i] == t[i]);
                assert forall|j: int| i < j < windows.len() implies (#[trigger] windows[j]).column != Some(c) by {
                    if j < n {
                        assert(windows[j] == t[j]);
                    }
                }
            }
            if exists|i: int| 0 <= i < windows.len() && #[trigger] windows[i].column == Some(c) {
                let i = choose|i: int| 0 <= i < windows.len() && #[trigger] windows[i].column == Some(c);
                assert(i < n);
                assert(t[i].column == Some(c));
            }
        }
    }
}

/// The number of windows of `windows` in column `c`, counted one by one.
proof fn lemma_column_size_zero(windows: Seq<Window>, c: usize)
    ensures
        column_size(windows, c) == 0 <==> forall|j: int| 0 <= j < windows.len() ==> (#[trigger] windows[j]).column != Some(c),
    decreases windows.len(),
{
    if windows.len() > 0 {
        let t = windows.drop_last();
        lemma_column_size_zero(t, c);
        if column_size(windows, c) == 0 {
            assert forall|j: int| 0 <= j < windows.len() implies (#[trigger] windows[j]).column != Some(c) by {
                if j < windows.len() - 1 {
                    assert(windows[j] == t[j]);
                }
            }
        } else {
            if windows.last().column != Some(c) {
                let j = choose|j: int| 0 <= j < t.len() && !((#[trigger] t[j]).column != Some(c));
                assert(windows[j] == t[j]);
            } else {
                assert(windows[windows.len() - 1].column == Some(c));
            }
        }
    }
}

/// A lone column holds exactly one window: tiling joins a column with a
/// single window, never one with none or several.
pub proof fn lone_column_holds_one_window(windows: Seq<Window>, c: usize)
    ensures
        column_size(windows, c) == 1 <==> exists|i: int| 0 <= i < windows.len() && #[trigger] windows[i].column == Some(c)
            && forall|j: int| 0 <= j < windows.len() && j != i ==> (#[trigger] windows[j]).column != Some(c),
    decreases windows.len(),
{
    if windows.len() > 0 {
        let t = windows.drop_last();
        let n = windows.len() - 1;
        lone_column_holds_one_window(t, c);
        lemma_column_size_zero(t, c);
        if windows.last().column == Some(c) {
            if column_size(windows, c) == 1 {
                assert(windows[n].column == Some(c));
                assert forall|j: int| 0 <= j < windows.len() && j != n implies (#[trigger] windows[j]).column != Some(c) by {
                    assert(windows[j] == t[j]);
                }
            } else {
                if exists|i: int| 0 <= i < windows.len() && #[trigger] windows[i].column == Some(c)
                    && forall|j: int| 0 <= j < windows.len() && j != i ==> (#[trigger] windows[j]).column != Some(c) {
                    let i = choose|i: int| 0 <= i < windows.len() && #[trigger] windows[i].column == Some(c)
                        && forall|j: int| 0 <= j < windows.len() && j != i ==> (#[trigger] windows[j]).column != Some(c);
                    if i != n {
                        assert(windows[n].column != Some(c));
                    }
                    assert forall|j: int| 0 <= j < t.len() implies (#[trigger] t[j]).column != Some(c) by {
                        assert(windows[j] == t[j]);
                    }
                }
            }
        } else {
            if column_size(windows, c) == 1 {
                let i = choose|i: int| 0 <= i < t.len() && #[trigger] t[i].column == Some(c)
                    && forall|j: int| 0 <= j < t.len() && j != i ==> (#[trigger] t[j]).column != Some(c);
                assert(windows[i] == t[i]);
                assert forall|j: int| 0 <= j < windows.len() && j != i implies (#[trigger] windows[j]).column != Some(c) by {
                    if j < n {
                        assert(windows[j] == t[j]);
                    }
                }
            } else {
                if exists|i: int| 0 <= i < windows.len() && #[trigger] windows[i].column == Some(c)
                    && forall|j: int| 0 <= j < windows.len() && j != i ==> (#[trigger] windows[j]).column != Some(c) {
                    let i = choose|i: int| 0 <= i < windows.len() && #[trigger] windows[i].column == Some(c)
                        && forall|j: int| 0 <= j < windows.len() && j != i ==> (#[trigger] windows[j]).column != Some(c);
                    assert(i < n);
                    assert(t[i].column == Some(c));
                    assert forall|j: int| 0 <= j < t.len() && j != i implies (#[trigger] t[j]).column != Some(c) by {
                        assert(windows[j] == t[j]);
                    }
                }
            }
        }
    }
}

/// Restoring maximized windows restores exactly those of the given windows
/// that were maximized, each once, and forgets them; the others stay maximized.
pub proof fn unmaximize_restores_exactly(ids: Seq<u64>, maximized: Set<u64>)
    ensures
        forall|x: u64| #[trigger] unmaximize(ids, maximized).1.contains(x) <==> (maximized.contains(x) && !ids.contains(x)),
        forall|x: u64| #[trigger] unmaximize(ids, maximized).0.contains(x) <==> (maximized.contains(x) && ids.contains(x)),
        unmaximize(ids, maximized).0.no_duplicates(),
    decreases ids.len(),
{
    if ids.len() > 0 {
        let t = ids.drop_last();
        let x0 = ids.last();
        unmaximize_restores_exactly(t, maximized);
        let (done, rest) = unmaximize(t, maximized);
        assert forall|x: u64| ids.contains(x) <==> (t.contains(x) || x == x0) by {
            if ids.contains(x) {
                let k = choose|k: int| 0 <= k < ids.len() && ids[k] == x;
                if k < ids.len() - 1 {
                    assert(t[k] == x);
                }
            }
            if t.contains(x) {
                let k = choose|k: int| 0 <= k < t.len() && t[k] == x;
                assert(ids[k] == x);
            }
            if x == x0 {
                assert(ids[ids.len() - 1] == x);
            }
        }
        if rest.contains(x0) {
            let d2 = done.push(x0);
            assert forall|x: u64| #[trigger] d2.contains(x) <==> (done.contains(x) || x == x0) by {
                if d2.contains(x) {
                    let k = choose|k: int| 0 <= k < d2.len() && d2[k] == x;
                    if k < done.len() {
                        assert(done[k] == x);
                    }
                }
                if done.contains(x) {
                    let k = choose|k: int| 0 <= k < done.len() && done[k] == x;
                    assert(d2[k] == x);
                }
                if x == x0 {
                    assert(d2[done.len() as int] == x);
                }
            }
            assert(!done.contains(x0));
            assert forall|i: int, j: int| 0 <= i < d2.len() && 0 <= j < d2.len() && i != j implies d2[i] != d2[j] by {
                if i < done.len() && j < done.len() {
                } else if i < done.len() {
                    assert(done.contains(d2[i]));
                } else if j < done.len() {
                    assert(done.contains(d2[j]));
                }
            }
        }
    }
}

/// A render only happens for a workspace with tiled windows in two
/// different columns.
pub proof fn render_needs_two_distinct_columns<S>(
    s: WorkspaceRuleState,
    rules: WorkspaceRulePluginConfig<S>,
    ws_id: u64,
    ws_name: String,
    focused: u64,
    windows: Vec<Window>,
    new: WorkspaceRuleState,
    r: EdgePulseAction,
)
    requires
        edge_pulse_step(s, rules, EdgePulseEvent::Windows { ws_id, ws_name, focused, windows }, new, r),
        r is Render,
    ensures
        exists|j: int, k: int|
            0 <= j < windows@.len() && 0 <= k < windows@.len()
                && !(#[trigger] windows@[j]).floating && windows@[j].workspace_id == Some(ws_id) && windows@[j].column is Some
                && !(#[trigger] windows@[k]).floating && windows@[k].workspace_id == Some(ws_id) && windows@[k].column is Some
                && windows@[j].column != windows@[k].column,
{
    let (c1, c2) = choose|c1: usize, c2: usize| c1 != c2 && #[trigger] column_present(windows@, ws_id, c1)
        && #[trigger] column_present(windows@, ws_id, c2);
    let j = choose|j: int| 0 <= j < windows@.len() && in_column_of(#[trigger] windows@[j], ws_id, c1);
    let k = choose|k: int| 0 <= k < windows@.len() && in_column_of(#[trigger] windows@[k], ws_id, c2);
    assert(windows@[j].workspace_id == Some(ws_id));
    assert(windows@[k].workspace_id == Some(ws_id));
}

/// The width of the `i`-th column (from the left) is the `i`-th width of the
/// list for that many columns, the last width serving every column past the
/// list; each set width goes to a column that a tiled window of the
/// workspace sits in.
pub proof fn widths_follow_the_list<S>(
    s: WorkspaceRuleState,
    rules: WorkspaceRulePluginConfig<S>,
    name: Seq<char>,
    windows: Seq<Window>,
    new: WorkspaceRuleState,
    r: Result<Vec<LayoutAction>, WidthRuleError>,
)
    requires
        apply_widths_step(s, rules, name, windows, new, r),
        !rules.auto_maximize_for(name),
    ensures
        ({
            let tiled = tiled_windows(windows, name);
            let count = column_leaders(tiled).dom().len();
            let widths = rules.auto_width_for(name)@[count - 1]@;
            r matches Ok(v) ==> forall|i: int| 0 <= i < v@.len() ==> {
                &&& (#[trigger] v@[i]) matches LayoutAction::SetWidth { column, window, width }
                &&& i < widths.len() ==> width == widths[i]
                &&& i >= widths.len() ==> width == widths.last()
                &&& exists|k: int| 0 <= k < tiled.len() && tiled[k].column == Some(column) && tiled[k].id == window
            }
        }),
{
    let tiled = tiled_windows(windows, name);
    if r is Ok {
        let v = r->Ok_0;
        assert forall|i: int| 0 <= i < v@.len() implies (#[trigger] v@[i]) matches LayoutAction::SetWidth { column, window, .. }
            && exists|k: int| 0 <= k < tiled.len() && tiled[k].column == Some(column) && tiled[k].id == window by {
            let column = action_column(v@[i]) as usize;
            column_leader_is_last_window(tiled, column);
        }
    }
}

} // verus!
