//! Plugin files: which names count as plugins, how the private plugin
//! directory is brought in line with the external one, and which loaded
//! libraries become plugins.

use vstd::prelude::*;
use std::collections::HashSet;
use egui::ahash::RandomState;

verus! {

/// The hasher state behind the plugin name sets (`egui::ahash::HashSet`).
#[verifier::external_type_specification]
#[verifier::external_body]
pub struct ExRandomState(RandomState);

/// The set of names that a name set holds, each name taken as its characters.
pub uninterp spec fn name_set_contents(set: HashSet<String, RandomState>) -> Set<Seq<char>>;

/// Calls `HashSet::default` (with the `ahash` hasher state).  Claims the new set
/// holds no names.
#[verifier::external_body]
fn name_set_empty() -> (set: HashSet<String, RandomState>)
    ensures
        name_set_contents(set) == Set::<Seq<char>>::empty(),
{
    HashSet::default()
}

/// Calls `HashSet::insert`.  Claims the name is held afterwards, nothing else
/// changes, and the result says whether the name was new.
#[verifier::external_body]
fn name_set_insert(set: &mut HashSet<String, RandomState>, name: String) -> (added: bool)
    ensures
        name_set_contents(*final(set)) == name_set_contents(*old(set)).insert(name@),
        added == !name_set_contents(*old(set)).contains(name@),
{
    set.insert(name)
}

/// Calls `HashSet::contains`.  Claims the result says whether a name with the
/// same characters is held.
#[verifier::external_body]
fn name_set_contains(set: &HashSet<String, RandomState>, name: &str) -> (found: bool)
    ensures
        found == name_set_contents(*set).contains(name@),
{
    set.contains(name)
}

/// Calls `HashSet::iter` and clones each name into a `Vec`.  Claims every held
/// name comes out exactly once; the order is the set's own and is not stated.
#[verifier::external_body]
fn name_set_to_vec(set: &HashSet<String, RandomState>) -> (names: Vec<String>)
    ensures
        names@.map_values(|s: String| s@).no_duplicates(),
        names@.map_values(|s: String| s@).to_set() == name_set_contents(*set),
{
    set.iter().cloned().collect()
}

/// A set of plugin file names.
pub struct NameSet {
    names: HashSet<String, RandomState>,
}

impl View for NameSet {
    type V = Set<Seq<char>>;

    closed spec fn view(&self) -> Set<Seq<char>> {
        name_set_contents(self.names)
    }
}

impl NameSet {
    /// An empty set.
    pub fn new() -> (s: NameSet)
        ensures
            s@ == Set::<Seq<char>>::empty(),
    {
        NameSet { names: name_set_empty() }
    }

    /// Adds `name`; the result says whether it was not yet held.
    pub fn insert(&mut self, name: String) -> (added: bool)
        ensures
            final(self)@ == old(self)@.insert(name@),
            added == !old(self)@.contains(name@),
    {
        name_set_insert(&mut self.names, name)
    }

    /// Whether a name with the characters of `name` is held.
    pub fn contains(&self, name: &str) -> (found: bool)
        ensures
            found == self@.contains(name@),
    {
        name_set_contains(&self.names, name)
    }

    /// Every held name once, in no stated order.
    pub fn to_vec(&self) -> (names: Vec<String>)
        ensures
            names@.map_values(|s: String| s@).no_duplicates(),
            names@.map_values(|s: String| s@).to_set() == self@,
    {
        name_set_to_vec(&self.names)
    }
}

/// The name ends in ".so".
pub open spec fn ends_with_so(name: Seq<char>) -> bool {
    &&& name.len() >= 3
    &&& name[name.len() - 3] == '.'
    &&& name[name.len() - 2] == 's'
    &&& name[name.len() - 1] == 'o'
}

/// Whether a directory entry's name marks a shared library to be synced: it ends in ".so".
pub fn is_so_file_name(name: &str) -> (b: bool)
    ensures
        b == ends_with_so(name@),
{
    let n = name.unicode_len();
    if n < 3 {
        return false;
    }
    name.get_char(n - 3) == '.' && name.get_char(n - 2) == 's' && name.get_char(n - 1) == 'o'
}

/// The position of the last '.' in a name, or -1 when there is none.
pub open spec fn last_dot(name: Seq<char>) -> int
    decreases name.len(),
{
    if name.len() == 0 {
        -1
    } else if name.last() == '.' {
        name.len() - 1
    } else {
        last_dot(name.drop_last())
    }
}

/// The extension of a file name, as `Path::extension` documents it: none for
/// "..", none without a '.', none when the only '.' is the first character;
/// otherwise everything after the last '.'.
pub open spec fn file_extension(name: Seq<char>) -> Option<Seq<char>> {
    if name == seq!['.', '.'] || last_dot(name) <= 0 {
        None
    } else {
        Some(name.subrange(last_dot(name) + 1, name.len() as int))
    }
}

/// `last_dot` finds a '.' inside the name, and no '.' follows it.
pub proof fn lemma_last_dot(name: Seq<char>)
    ensures
        -1 <= last_dot(name) < name.len(),
        last_dot(name) >= 0 ==> name[last_dot(name)] == '.',
        forall|j: int| last_dot(name) < j < name.len() ==> name[j] != '.',
    decreases name.len(),
{
    if name.len() > 0 && name.last() != '.' {
        let init = name.drop_last();
        lemma_last_dot(init);
        assert forall|j: int| last_dot(name) < j < name.len() implies name[j] != '.' by {
            if j < name.len() - 1 {
                assert(name[j] == init[j]);
            }
        }
    }
}

/// A name has the extension "so" exactly when it ends in ".so" and has
/// something before that.
pub proof fn lemma_so_extension(name: Seq<char>)
    ensures
        (file_extension(name) == Some(seq!['s', 'o'])) == (ends_with_so(name) && name.len() > 3),
{
    lemma_last_dot(name);
    let i = last_dot(name);
    if ends_with_so(name) && name.len() > 3 {
        assert(last_dot(name.drop_last()) == last_dot(name));
        assert(name.drop_last().last() == 's');
        assert(last_dot(name.drop_last().drop_last()) == last_dot(name.drop_last()));
        assert(name.drop_last().drop_last().last() == '.');
        assert(i == name.len() - 3);
        assert(name != seq!['.', '.']);
        assert(name.subrange(i + 1, name.len() as int) =~= seq!['s', 'o']);
    }
    if file_extension(name) == Some(seq!['s', 'o']) {
        let ext = name.subrange(i + 1, name.len() as int);
        assert(ext.len() == 2);
        assert(ext[0] == name[i + 1]);
        assert(ext[1] == name[i + 2]);
    }
}

/// Whether a file in the plugin directory is loaded as a plugin: its
/// extension (in the sense of `Path::extension`) is "so".
pub fn has_so_extension(name: &str) -> (b: bool)
    ensures
        b == (file_extension(name@) == Some(seq!['s', 'o'])),
{
    proof {
        lemma_so_extension(name@);
    }
    let n = name.unicode_len();
    n > 3 && is_so_file_name(name)
}

/// Every file that is loaded as a plugin is also one that the directory sync copies.
pub proof fn lemma_loaded_files_are_synced(name: Seq<char>)
    requires
        file_extension(name) == Some(seq!['s', 'o']),
    ensures
        ends_with_so(name),
{
    lemma_so_extension(name);
}

/// The names of the shared libraries among a directory's entry names.
pub open spec fn so_names(names: Seq<String>) -> Set<Seq<char>> {
    names.map_values(|s: String| s@).to_set().filter(|n: Seq<char>| ends_with_so(n))
}

/// The set of ".so" names among the entry names of a plugin directory.
pub fn get_so_files(names: Vec<String>) -> (set: NameSet)
    ensures
        set@ == so_names(names@),
{
    let mut set = NameSet::new();
    let mut i: usize = 0;
    while i < names.len()
        invariant
            i <= names.len(),
            set@ == so_names(names@.subrange(0, i as int)),
        decreases names.len() - i,
    {
        let name = names[i].clone();
        let keep = is_so_file_name(name.as_str());
        if keep {
            set.insert(name);
        }
        proof {
            let prev = names@.subrange(0, i as int);
            let next = names@.subrange(0, i + 1);
            assert(next =~= prev.push(names@[i as int]));
            assert(next.map_values(|s: String| s@) =~= prev.map_values(|s: String| s@).push(names@[i as int]@));
            let v = names@[i as int]@;
            assert forall|x: Seq<char>| #[trigger] so_names(next).contains(x)
                == (if keep { so_names(prev).insert(v) } else { so_names(prev) }).contains(x) by {
                vstd::seq_lib::lemma_seq_contains_after_push(prev.map_values(|s: String| s@), v, x);
            }
            assert(so_names(next) =~= if keep { so_names(prev).insert(v) } else { so_names(prev) });
        }
        i = i + 1;
    }
    assert(names@.subrange(0, names.len() as int) =~= names@);
    set
}

/// What one step of the plugin directory sync does with one file name.
#[derive(Clone, Copy, Debug, PartialEq, Eq, Structural)]
pub enum StepKind {
    /// The plugin is new: copy it into the private directory.
    Copy,
    /// The plugin is in both directories: copy it over unless the two files
    /// have the same length and modification time.
    Refresh,
    /// The plugin is gone from the external directory: delete the private copy.
    Delete,
}

/// One step of the plugin directory sync.
#[derive(Clone, Debug)]
pub struct SyncStep {
    pub kind: StepKind,
    pub name: String,
}

/// A step as its kind and the characters of its file name.
pub open spec fn step_view(step: SyncStep) -> (StepKind, Seq<char>) {
    (step.kind, step.name@)
}

/// A step suits the two directories: copies are for names only the external
/// directory has, refreshes for names both have, deletions for names only the
/// private directory has.
pub open spec fn step_fits(external: Set<Seq<char>>, private: Set<Seq<char>>, step: (StepKind, Seq<char>)) -> bool {
    match step.0 {
        StepKind::Copy => external.contains(step.1) && !private.contains(step.1),
        StepKind::Refresh => external.contains(step.1) && private.contains(step.1),
        StepKind::Delete => private.contains(step.1) && !external.contains(step.1),
    }
}

/// A sync plan for the two directories: every name of either directory gets
/// exactly one step, each step suits the directories, and all deletions come
/// after all copies and refreshes.
pub open spec fn plan_matches(external: Set<Seq<char>>, private: Set<Seq<char>>, plan: Seq<(StepKind, Seq<char>)>) -> bool {
    &&& forall|i: int, j: int| 0 <= i < j < plan.len() ==> plan[i].1 != plan[j].1
    &&& forall|i: int| 0 <= i < plan.len() ==> step_fits(external, private, #[trigger] plan[i])
    &&& forall|n: Seq<char>| external.contains(n) || private.contains(n) ==>
            exists|i: int| 0 <= i < plan.len() && (#[trigger] plan[i]).1 == n
    &&& forall|i: int, j: int| 0 <= i < j < plan.len() && plan[i].0 == StepKind::Delete ==>
            plan[j].0 == StepKind::Delete
}

/// Plans how the private plugin directory is brought in line with the external
/// one: first each external plugin is copied (if new) or refreshed (if both
/// have it), in the external set's order; then each private plugin that the
/// external directory no longer has is deleted, in the private set's order.
pub fn plan_plugin_sync(external: &NameSet, private: &NameSet) -> (plan: Vec<SyncStep>)
    ensures
        plan_matches(external@, private@, plan@.map_values(|s: SyncStep| step_view(s))),
{
    let ext_names = external.to_vec();
    let priv_names = private.to_vec();
    let ghost ev = ext_names@.map_values(|s: String| s@);
    let ghost pv = priv_names@.map_values(|s: String| s@);
    let mut plan: Vec<SyncStep> = Vec::new();
    let mut i: usize = 0;
    while i < ext_names.len()
        invariant
            ev == ext_names@.map_values(|s: String| s@),
            ev.no_duplicates(),
            ev.to_set() == external@,
            i <= ext_names.len(),
            plan@.len() == i,
            forall|k: int| 0 <= k < i ==> (#[trigger] plan@[k]).name@ == ev[k],
            forall|k: int| 0 <= k < i ==> step_fits(external@, private@, step_view(#[trigger] plan@[k])),
            forall|k: int| 0 <= k < i ==> (#[trigger] plan@[k]).kind != StepKind::Delete,
        decreases ext_names.len() - i,
    {
        let name = ext_names[i].clone();
        assert(ev.contains(ev[i as int]));
        let kind = if private.contains(name.as_str()) { StepKind::Refresh } else { StepKind::Copy };
        plan.push(SyncStep { kind, name });
        i = i + 1;
    }
    let ext_len = plan.len();
    let mut j: usize = 0;
    while j < priv_names.len()
        invariant
            ev == ext_names@.map_values(|s: String| s@),
            pv == priv_names@.map_values(|s: String| s@),
            ev.no_duplicates(),
            pv.no_duplicates(),
            ev.to_set() == external@,
            pv.to_set() == private@,
            ext_len == ext_names@.len(),
            j <= priv_names.len(),
            ext_len <= plan@.len(),
            forall|k: int| 0 <= k < ext_len ==> (#[trigger] plan@[k]).name@ == ev[k],
            forall|k: int| 0 <= k < plan@.len() ==> step_fits(external@, private@, step_view(#[trigger] plan@[k])),
            forall|k: int| 0 <= k < ext_len ==> (#[trigger] plan@[k]).kind != StepKind::Delete,
            forall|k: int| ext_len <= k < plan@.len() ==> (#[trigger] plan@[k]).kind == StepKind::Delete,
            forall|k: int| ext_len <= k < plan@.len() ==>
                exists|m: int| 0 <= m < j && pv[m] == (#[trigger] plan@[k]).name@,
            forall|a: int, b: int| ext_len <= a < b < plan@.len() ==> plan@[a].name@ != plan@[b].name@,
            forall|m: int| 0 <= m < j && !external@.contains(#[trigger] pv[m]) ==>
                exists|k: int| ext_len <= k < plan@.len() && (#[trigger] plan@[k]).name@ == pv[m],
        decreases priv_names.len() - j,
    {
        assert(pv.contains(pv[j as int]));
        if !external.contains(priv_names[j].as_str()) {
            let name = priv_names[j].clone();
            let ghost old_plan = plan@;
            plan.push(SyncStep { kind: StepKind::Delete, name });
            assert forall|a: int, b: int| ext_len <= a < b < plan@.len() implies plan@[a].name@ != plan@[b].name@ by {
                if b == plan@.len() - 1 {
                    assert(plan@[a] == old_plan[a]);
                    let m = choose|m: int| 0 <= m < j && pv[m] == old_plan[a].name@;
                    assert(pv[m] != pv[j as int]);
                }
            }
            assert forall|k: int| ext_len <= k < plan@.len() implies
                exists|m: int| 0 <= m < j + 1 && pv[m] == (#[trigger] plan@[k]).name@ by {
                if k < plan@.len() - 1 {
                    assert(plan@[k] == old_plan[k]);
                    let m = choose|m: int| 0 <= m < j && pv[m] == old_plan[k].name@;
                    assert(0 <= m < j + 1 && pv[m] == plan@[k].name@);
                } else {
                    assert(pv[j as int] == plan@[k].name@);
                }
            }
            assert forall|m: int| 0 <= m < j + 1 && !external@.contains(#[trigger] pv[m]) implies
                exists|k: int| ext_len <= k < plan@.len() && (#[trigger] plan@[k]).name@ == pv[m] by {
                if m < j {
                    let k = choose|k: int| ext_len <= k < old_plan.len() && old_plan[k].name@ == pv[m];
                    assert(plan@[k] == old_plan[k]);
                } else {
                    assert(plan@[plan@.len() - 1].name@ == pv[m]);
                }
            }
        }
        j = j + 1;
    }
    let ghost sv = plan@.map_values(|s: SyncStep| step_view(s));
    assert forall|a: int, b: int| 0 <= a < b < sv.len() implies sv[a].1 != sv[b].1 by {
        if b < ext_len {
            assert(ev[a] != ev[b]);
        } else if a >= ext_len {
        } else {
            let m = choose|m: int| 0 <= m < j && pv[m] == plan@[b].name@;
            assert(!external@.contains(pv[m]));
            assert(ev.contains(ev[a]));
        }
    }
    assert forall|n: Seq<char>| external@.contains(n) || private@.contains(n) implies
        exists|i: int| 0 <= i < sv.len() && (#[trigger] sv[i]).1 == n by {
        if external@.contains(n) {
            assert(ev.contains(n));
            let k = choose|k: int| 0 <= k < ev.len() && ev[k] == n;
            assert(sv[k].1 == n);
        } else {
            assert(pv.contains(n));
            let m = choose|m: int| 0 <= m < pv.len() && pv[m] == n;
            let k = choose|k: int| ext_len <= k < plan@.len() && (#[trigger] plan@[k]).name@ == pv[m];
            assert(sv[k].1 == n);
        }
    }
    assert forall|a: int| 0 <= a < sv.len() implies step_fits(external@, private@, #[trigger] sv[a]) by {
        assert(step_fits(external@, private@, step_view(plan@[a])));
    }
    plan
}

/// The names a directory holds after one step: copies and refreshes leave the
/// name there, deletions remove it.
pub open spec fn apply_step(names: Set<Seq<char>>, step: (StepKind, Seq<char>)) -> Set<Seq<char>> {
    match step.0 {
        StepKind::Delete => names.remove(step.1),
        _ => names.insert(step.1),
    }
}

/// The names a directory holds after carrying out a sequence of steps in order.
pub open spec fn apply_steps(names: Set<Seq<char>>, steps: Seq<(StepKind, Seq<char>)>) -> Set<Seq<char>>
    decreases steps.len(),
{
    if steps.len() == 0 {
        names
    } else {
        apply_step(apply_steps(names, steps.drop_last()), steps.last())
    }
}

/// With every name in at most one step, a name is held after the steps when its
/// step is not a deletion, or, when it has no step, when it was held before.
proof fn lemma_apply_steps_membership(names: Set<Seq<char>>, steps: Seq<(StepKind, Seq<char>)>, n: Seq<char>)
    requires
        forall|i: int, j: int| 0 <= i < j < steps.len() ==> steps[i].1 != steps[j].1,
    ensures
        apply_steps(names, steps).contains(n) == if exists|i: int| 0 <= i < steps.len() && (#[trigger] steps[i]).1 == n {
            steps[choose|i: int| 0 <= i < steps.len() && (#[trigger] steps[i]).1 == n].0 != StepKind::Delete
        } else {
            names.contains(n)
        },
    decreases steps.len(),
{
    if steps.len() > 0 {
        let init = steps.drop_last();
        lemma_apply_steps_membership(names, init, n);
        let last = steps.len() - 1;
        if steps[last].1 == n {
            let c = choose|i: int| 0 <= i < steps.len() && (#[trigger] steps[i]).1 == n;
            assert(c == last);
        } else {
            if exists|i: int| 0 <= i < steps.len() && (#[trigger] steps[i]).1 == n {
                let c = choose|i: int| 0 <= i < steps.len() && (#[trigger] steps[i]).1 == n;
                assert(init[c].1 == n);
                let d = choose|i: int| 0 <= i < init.len() && (#[trigger] init[i]).1 == n;
                assert(steps[d].1 == n);
                assert(c == d);
            } else {
                assert forall|i: int| 0 <= i < init.len() implies (#[trigger] init[i]).1 != n by {
                    assert(steps[i].1 == init[i].1);
                }
            }
        }
    }
}

/// Carrying out a sync plan leaves the private directory with exactly the
/// plugin names of the external directory.
pub proof fn lemma_sync_mirrors_external(
    external: Set<Seq<char>>,
    private: Set<Seq<char>>,
    plan: Seq<(StepKind, Seq<char>)>,
)
    requires
        plan_matches(external, private, plan),
    ensures
        apply_steps(private, plan) == external,
{
    assert forall|n: Seq<char>| apply_steps(private, plan).contains(n) == external.contains(n) by {
        lemma_apply_steps_membership(private, plan, n);
        if exists|i: int| 0 <= i < plan.len() && (#[trigger] plan[i]).1 == n {
            let c = choose|i: int| 0 <= i < plan.len() && (#[trigger] plan[i]).1 == n;
            assert(step_fits(external, private, plan[c]));
        } else {
            if private.contains(n) {
                assert(exists|i: int| 0 <= i < plan.len() && (#[trigger] plan[i]).1 == n);
            }
            if external.contains(n) {
                assert(exists|i: int| 0 <= i < plan.len() && (#[trigger] plan[i]).1 == n);
            }
        }
    }
    assert(apply_steps(private, plan) =~= external);
}

/// Once the private directory holds the external directory's names, syncing
/// again copies and deletes nothing: every step is a refresh.
pub proof fn lemma_resync_only_refreshes(names: Set<Seq<char>>, plan: Seq<(StepKind, Seq<char>)>)
    requires
        plan_matches(names, names, plan),
    ensures
        forall|i: int| 0 <= i < plan.len() ==> (#[trigger] plan[i]).0 == StepKind::Refresh,
{
    assert forall|i: int| 0 <= i < plan.len() implies (#[trigger] plan[i]).0 == StepKind::Refresh by {
        assert(step_fits(names, names, plan[i]));
    }
}

/// Whether carrying out a step copies the external file into the private
/// directory: a copy always does, a refresh only when the two files differ,
/// a deletion never does.
pub open spec fn spec_step_needs_copy(kind: StepKind, same_file: bool) -> bool {
    kind == StepKind::Copy || (kind == StepKind::Refresh && !same_file)
}

/// Whether a step copies the external file; `same_file` is what
/// [`files_are_equal`] said of the two files (only looked at for a refresh).
pub fn step_needs_copy(kind: StepKind, same_file: bool) -> (b: bool)
    ensures
        b == spec_step_needs_copy(kind, same_file),
{
    match kind {
        StepKind::Copy => true,
        StepKind::Refresh => !same_file,
        StepKind::Delete => false,
    }
}

/// Syncing again after a sync, while every private file still equals its
/// external one, copies nothing and deletes nothing.
pub proof fn lemma_resync_copies_nothing(names: Set<Seq<char>>, plan: Seq<(StepKind, Seq<char>)>)
    requires
        plan_matches(names, names, plan),
    ensures
        forall|i: int| 0 <= i < plan.len() ==> !spec_step_needs_copy((#[trigger] plan[i]).0, true),
        forall|i: int| 0 <= i < plan.len() ==> (#[trigger] plan[i]).0 != StepKind::Delete,
{
    lemma_resync_only_refreshes(names, plan);
}

/// The names whose extension is "so", in the order given.
pub open spec fn loadable_names(names: Seq<Seq<char>>) -> Seq<Seq<char>> {
    names.filter(|n: Seq<char>| file_extension(n) == Some(seq!['s', 'o']))
}

/// The entry names of the plugin directory that are loaded as plugin
/// libraries: those whose extension is "so", in directory order.
pub fn loadable_plugin_names(names: Vec<String>) -> (out: Vec<String>)
    ensures
        out@.map_values(|s: String| s@) == loadable_names(names@.map_values(|s: String| s@)),
{
    let ghost nv = names@.map_values(|s: String| s@);
    let mut out: Vec<String> = Vec::new();
    let mut i: usize = 0;
    while i < names.len()
        invariant
            nv == names@.map_values(|s: String| s@),
            i <= names.len(),
            out@.map_values(|s: String| s@) == loadable_names(nv.subrange(0, i as int)),
        decreases names.len() - i,
    {
        let ghost before = out@;
        proof {
            assert(nv.subrange(0, i + 1) =~= nv.subrange(0, i as int).push(nv[i as int]));
            nv.subrange(0, i as int).lemma_filter_push(nv[i as int], |n: Seq<char>| file_extension(n) == Some(seq!['s', 'o']));
        }
        if has_so_extension(names[i].as_str()) {
            out.push(names[i].clone());
            assert(out@.map_values(|s: String| s@) =~= before.map_values(|s: String| s@).push(nv[i as int]));
        }
        i = i + 1;
    }
    assert(nv.subrange(0, names.len() as int) =~= nv);
    out
}

/// A file's modification time as seconds and nanoseconds (`filetime::FileTime`'s fields).
#[derive(Clone, Copy, Debug, PartialEq, Eq, Structural)]
pub struct FileStamp {
    pub seconds: i64,
    pub nanos: u32,
}

/// Two files count as equal when their lengths match and, if so, their
/// modification times match; a modification time that cannot be read is an
/// error (the first file's is read first), but only once the lengths match.
pub open spec fn spec_files_are_equal<E>(
    len1: u64,
    modified1: Result<FileStamp, E>,
    len2: u64,
    modified2: Result<FileStamp, E>,
) -> Result<bool, E> {
    if len1 != len2 {
        Ok(false)
    } else {
        match modified1 {
            Err(e) => Err(e),
            Ok(a) => match modified2 {
                Err(e) => Err(e),
                Ok(b) => Ok(a == b),
            },
        }
    }
}

/// Whether two plugin files count as the same, from their lengths and
/// modification times; see [`spec_files_are_equal`].
pub fn files_are_equal<E>(
    len1: u64,
    modified1: Result<FileStamp, E>,
    len2: u64,
    modified2: Result<FileStamp, E>,
) -> (r: Result<bool, E>)
    ensures
        r == spec_files_are_equal(len1, modified1, len2, modified2),
        len1 != len2 ==> r == Ok::<bool, E>(false),
        (modified1 is Ok && modified2 is Ok) ==> r == Ok::<bool, E>(len1 == len2 && modified1->Ok_0 == modified2->Ok_0),
{
    if len1 != len2 {
        return Ok(false);
    }
    let a = match modified1 {
        Ok(a) => a,
        Err(e) => return Err(e),
    };
    let b = match modified2 {
        Ok(b) => b,
        Err(e) => return Err(e),
    };
    Ok(a == b)
}

/// Files of different lengths never count as the same, whatever their
/// modification times; with both times readable, files count as the same
/// exactly when both the length and the time match.
pub proof fn lemma_files_equal_needs_same_length_and_time<E>(
    len1: u64,
    modified1: Result<FileStamp, E>,
    len2: u64,
    modified2: Result<FileStamp, E>,
)
    ensures
        len1 != len2 ==> spec_files_are_equal(len1, modified1, len2, modified2) == Ok::<bool, E>(false),
        spec_files_are_equal(len1, modified1, len2, modified2) == Ok::<bool, E>(true) ==> len1 == len2
            && modified1 is Ok && modified2 is Ok && modified1->Ok_0 == modified2->Ok_0,
        forall|a: FileStamp, b: FileStamp| #[trigger] spec_files_are_equal(len1, Ok::<FileStamp, E>(a), len2, Ok::<FileStamp, E>(b))
            == Ok::<bool, E>(len1 == len2 && a == b),
{
}

/// Comparing two files gives the same answer in either order once both
/// modification times can be read.
pub proof fn lemma_files_are_equal_symmetric<E>(len1: u64, stamp1: FileStamp, len2: u64, stamp2: FileStamp)
    ensures
        spec_files_are_equal(len1, Ok::<FileStamp, E>(stamp1), len2, Ok::<FileStamp, E>(stamp2))
            == spec_files_are_equal(len2, Ok::<FileStamp, E>(stamp2), len1, Ok::<FileStamp, E>(stamp1)),
{
}

/// A loaded plugin library: its file name and the address of its `hachimi_init` entry point.
#[derive(Clone, Debug)]
pub struct PluginRecord {
    pub name: String,
    pub init_addr: usize,
}

/// A plugin record as its name's characters and its entry address.
pub open spec fn record_view(r: PluginRecord) -> (Seq<char>, usize) {
    (r.name@, r.init_addr)
}

/// The entry is kept when the library exports an entry point.
pub open spec fn has_entry(r: (Seq<char>, usize)) -> bool {
    r.1 != 0
}

/// The loaded libraries that export an entry point, in load order.
pub open spec fn kept_entries(loaded: Seq<(Seq<char>, usize)>) -> Seq<(Seq<char>, usize)> {
    loaded.filter(|r: (Seq<char>, usize)| has_entry(r))
}

/// Every loaded library that exports an entry point at any non-zero address is
/// kept, and nothing else is: a record is among the kept ones exactly when it
/// was loaded and its address is not 0.
pub proof fn lemma_plugins_kept_iff_entry(loaded: Seq<(Seq<char>, usize)>, r: (Seq<char>, usize))
    ensures
        kept_entries(loaded).contains(r) <==> (loaded.contains(r) && r.1 != 0),
        forall|i: int| 0 <= i < kept_entries(loaded).len() ==> (#[trigger] kept_entries(loaded)[i]).1 != 0,
{
    let f = |x: (Seq<char>, usize)| has_entry(x);
    assert(kept_entries(loaded) == loaded.filter(f));
    if loaded.contains(r) && r.1 != 0 {
        let i = choose|i: int| 0 <= i < loaded.len() && loaded[i] == r;
        assert(f(loaded[i]));
        loaded.lemma_filter_contains(f, i);
    }
    if loaded.filter(f).contains(r) {
        loaded.lemma_filter_contains_rev(f, r);
        let i = choose|i: int| 0 <= i < loaded.filter(f).len() && loaded.filter(f)[i] == r;
        loaded.lemma_filter_pred(f, i);
    }
    assert forall|i: int| 0 <= i < kept_entries(loaded).len() implies (#[trigger] kept_entries(loaded)[i]).1 != 0 by {
        loaded.lemma_filter_pred(f, i);
    }
}

/// The plugins among the loaded libraries: those whose entry point was found
/// (a non-zero address), in the order they were loaded.
pub fn select_plugins(loaded: Vec<PluginRecord>) -> (plugins: Vec<PluginRecord>)
    ensures
        plugins@.map_values(|r: PluginRecord| record_view(r))
            == loaded@.map_values(|r: PluginRecord| record_view(r)).filter(|r: (Seq<char>, usize)| has_entry(r)),
        plugins@.map_values(|r: PluginRecord| record_view(r)) == kept_entries(loaded@.map_values(|r: PluginRecord| record_view(r))),
        forall|i: int| 0 <= i < plugins@.len() ==> (#[trigger] plugins@[i]).init_addr != 0,
        forall|j: int| 0 <= j < loaded@.len() && (#[trigger] loaded@[j]).init_addr != 0 ==>
            plugins@.map_values(|r: PluginRecord| record_view(r)).contains(record_view(loaded@[j])),
{
    let ghost lv = loaded@.map_values(|r: PluginRecord| record_view(r));
    let mut plugins: Vec<PluginRecord> = Vec::new();
    let mut i: usize = 0;
    while i < loaded.len()
        invariant
            lv == loaded@.map_values(|r: PluginRecord| record_view(r)),
            i <= loaded.len(),
            plugins@.map_values(|r: PluginRecord| record_view(r))
                == lv.subrange(0, i as int).filter(|r: (Seq<char>, usize)| has_entry(r)),
        decreases loaded.len() - i,
    {
        let ghost before = plugins@;
        let record = PluginRecord { name: loaded[i].name.clone(), init_addr: loaded[i].init_addr };
        proof {
            assert(lv.subrange(0, i + 1) =~= lv.subrange(0, i as int).push(lv[i as int]));
            lv.subrange(0, i as int).lemma_filter_push(lv[i as int], |r: (Seq<char>, usize)| has_entry(r));
        }
        if record.init_addr != 0 {
            plugins.push(record);
            assert(plugins@.map_values(|r: PluginRecord| record_view(r))
                =~= before.map_values(|r: PluginRecord| record_view(r)).push(lv[i as int]));
        }
        i = i + 1;
    }
    assert(lv.subrange(0, loaded.len() as int) =~= lv);
    let ghost pv = plugins@.map_values(|r: PluginRecord| record_view(r));
    assert(pv == kept_entries(lv));
    assert forall|i: int| 0 <= i < plugins@.len() implies (#[trigger] plugins@[i]).init_addr != 0 by {
        lemma_plugins_kept_iff_entry(lv, pv[i]);
        assert(pv[i] == record_view(plugins@[i]));
    }
    assert forall|j: int| 0 <= j < loaded@.len() && (#[trigger] loaded@[j]).init_addr != 0 implies
        pv.contains(record_view(loaded@[j])) by {
        assert(lv[j] == record_view(loaded@[j]));
        assert(lv.contains(lv[j]));
        lemma_plugins_kept_iff_entry(lv, lv[j]);
    }
    plugins
}

} // verus!
