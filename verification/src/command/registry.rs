use vstd::prelude::*;

use indexmap::IndexMap;

use super::workbench::{
    all_workbench_commands, lemma_all_commands_complete, lemma_all_commands_distinct,
    lemma_same_name_same_command, LapceWorkbenchCommand,
};
use super::{CommandKind, CoreCommand, LapceCommand};

verus! {

/// `indexmap::IndexMap`: a hash map that keeps its entries in the order of
/// their insertion.
#[verifier::external_type_specification]
#[verifier::external_body]
#[verifier::reject_recursive_types(K)]
#[verifier::reject_recursive_types(V)]
#[verifier::reject_recursive_types(S)]
pub struct ExIndexMap<K, V, S>(IndexMap<K, V, S>);

/// What a map of commands by name holds: its entries in the map's order, each
/// a name (by its characters) with the command stored under it.
pub uninterp spec fn map_entries(m: IndexMap<String, LapceCommand>) -> Seq<(Seq<char>, LapceCommand)>;

/// The position of the entry with key `k` (the last one, where several have it).
pub open spec fn key_position(e: Seq<(Seq<char>, LapceCommand)>, k: Seq<char>) -> Option<int>
    decreases e.len(),
{
    if e.len() == 0 {
        None
    } else if e.last().0 == k {
        Some(e.len() - 1)
    } else {
        key_position(e.drop_last(), k)
    }
}

/// The command stored under key `k`, where there is one.
pub open spec fn entry_value(e: Seq<(Seq<char>, LapceCommand)>, k: Seq<char>) -> Option<
    LapceCommand,
> {
    match key_position(e, k) {
        Some(i) => Some(e[i].1),
        None => None,
    }
}

/// The entries once `v` is inserted under `k`: an entry with that key keeps its
/// place and takes the new command; otherwise the pair comes last.
pub open spec fn map_insert(
    e: Seq<(Seq<char>, LapceCommand)>,
    k: Seq<char>,
    v: LapceCommand,
) -> Seq<(Seq<char>, LapceCommand)> {
    match key_position(e, k) {
        Some(i) => e.update(i, (k, v)),
        None => e.push((k, v)),
    }
}

/// The commands of the editor core, kind after kind.
pub open spec fn core_command_list(core: CoreCommands) -> Seq<CoreCommand> {
    core.edit@ + core.movement@ + core.focus@ + core.motion_mode@ + core.multi_selection@
}

/// No two commands of the editor core share a name, and none bears the name
/// of a workbench command.
pub open spec fn core_names_fresh(core: CoreCommands) -> bool {
    let list = core_command_list(core);
    &&& forall|i: int, j: int|
        0 <= i < list.len() && 0 <= j < list.len() && i != j ==> #[trigger] list[i].name@
            != #[trigger] list[j].name@
    &&& forall|i: int, w: LapceWorkbenchCommand|
        0 <= i < list.len() ==> #[trigger] list[i].name@ != #[trigger] w.name()
}

/// Where no two commands share a name, the entries are each workbench command
/// in the order of the declaration, then each list of the editor core in its
/// own order (edit, move, focus, motion mode, multi-selection), each command
/// under its name with no argument.
pub open spec fn laid_out_in_order(e: Seq<(Seq<char>, LapceCommand)>, core: CoreCommands) -> bool {
    let all = all_workbench_commands();
    let w = all.len() as int;
    let ne = core.edit@.len() as int;
    let nm = core.movement@.len() as int;
    let nf = core.focus@.len() as int;
    let nmm = core.motion_mode@.len() as int;
    let nms = core.multi_selection@.len() as int;
    &&& e.len() == w + ne + nm + nf + nmm + nms
    &&& forall|i: int|
        0 <= i < w ==> e[i] == (
            (#[trigger] all[i]).name(),
            LapceCommand { kind: CommandKind::Workbench(all[i]), data: None },
        )
    &&& forall|i: int|
        0 <= i < ne ==> e[w + i] == (
            (#[trigger] core.edit@[i]).name@,
            LapceCommand { kind: CommandKind::Edit(core.edit@[i]), data: None },
        )
    &&& forall|i: int|
        0 <= i < nm ==> e[w + ne + i] == (
            (#[trigger] core.movement@[i]).name@,
            LapceCommand { kind: CommandKind::Move(core.movement@[i]), data: None },
        )
    &&& forall|i: int|
        0 <= i < nf ==> e[w + ne + nm + i] == (
            (#[trigger] core.focus@[i]).name@,
            LapceCommand { kind: CommandKind::Focus(core.focus@[i]), data: None },
        )
    &&& forall|i: int|
        0 <= i < nmm ==> e[w + ne + nm + nf + i] == (
            (#[trigger] core.motion_mode@[i]).name@,
            LapceCommand { kind: CommandKind::MotionMode(core.motion_mode@[i]), data: None },
        )
    &&& forall|i: int|
        0 <= i < nms ==> e[w + ne + nm + nf + nmm + i] == (
            (#[trigger] core.multi_selection@[i]).name@,
            LapceCommand { kind: CommandKind::MultiSelection(core.multi_selection@[i]), data: None },
        )
}

/// `IndexMap::new`: the map it returns is empty.
#[verifier::external_body]
fn new_command_map() -> (m: IndexMap<String, LapceCommand>)
    ensures
        map_entries(m) == Seq::<(Seq<char>, LapceCommand)>::empty(),
{
    IndexMap::new()
}

/// `IndexMap::insert`: where an entry has an equal key, it keeps its place, its
/// command is replaced and the old one returned; otherwise the pair is appended
/// and nothing is returned.
#[verifier::external_body]
fn insert_command(m: &mut IndexMap<String, LapceCommand>, key: String, value: LapceCommand) -> (r:
    Option<LapceCommand>)
    ensures
        map_entries(*final(m)) == map_insert(map_entries(*old(m)), key@, value),
        r == entry_value(map_entries(*old(m)), key@),
{
    m.insert(key, value)
}

/// The commands of the editor core, each kind in its declaration order.
pub struct CoreCommands {
    pub edit: Vec<CoreCommand>,
    pub movement: Vec<CoreCommand>,
    pub focus: Vec<CoreCommand>,
    pub motion_mode: Vec<CoreCommand>,
    pub multi_selection: Vec<CoreCommand>,
}

/// Every internal command in the order of registration: the workbench
/// commands, then the edit, move, focus, motion mode and multi-selection
/// commands.
pub open spec fn internal_command_kinds(core: CoreCommands) -> Seq<CommandKind> {
    all_workbench_commands().map_values(|c: LapceWorkbenchCommand| CommandKind::Workbench(c))
        + core.edit@.map_values(|c: CoreCommand| CommandKind::Edit(c))
        + core.movement@.map_values(|c: CoreCommand| CommandKind::Move(c))
        + core.focus@.map_values(|c: CoreCommand| CommandKind::Focus(c))
        + core.motion_mode@.map_values(|c: CoreCommand| CommandKind::MotionMode(c))
        + core.multi_selection@.map_values(|c: CoreCommand| CommandKind::MultiSelection(c))
}

/// The command that registers a kind: that kind, with no argument.
pub open spec fn command_of(kind: CommandKind) -> LapceCommand {
    LapceCommand { kind, data: None }
}

/// The entries of an empty map once each kind is inserted in turn under its
/// name.
pub open spec fn registered(kinds: Seq<CommandKind>) -> Seq<(Seq<char>, LapceCommand)>
    decreases kinds.len(),
{
    if kinds.len() == 0 {
        Seq::empty()
    } else {
        map_insert(registered(kinds.drop_last()), kinds.last().name(), command_of(kinds.last()))
    }
}

proof fn lemma_registered_push(kinds: Seq<CommandKind>, k: CommandKind)
    ensures
        registered(kinds.push(k)) == map_insert(registered(kinds), k.name(), command_of(k)),
{
    assert(kinds.push(k).drop_last() =~= kinds);
}

/// The kinds of the editor core's commands.
#[derive(Clone, Copy)]
enum CoreKind {
    Edit,
    Move,
    Focus,
    MotionMode,
    MultiSelection,
}

impl CoreKind {
    spec fn wrap(self, c: CoreCommand) -> CommandKind {
        match self {
            CoreKind::Edit => CommandKind::Edit(c),
            CoreKind::Move => CommandKind::Move(c),
            CoreKind::Focus => CommandKind::Focus(c),
            CoreKind::MotionMode => CommandKind::MotionMode(c),
            CoreKind::MultiSelection => CommandKind::MultiSelection(c),
        }
    }

    fn kind_of(self, c: CoreCommand) -> (r: CommandKind)
        ensures
            r == self.wrap(c),
    {
        match self {
            CoreKind::Edit => CommandKind::Edit(c),
            CoreKind::Move => CommandKind::Move(c),
            CoreKind::Focus => CommandKind::Focus(c),
            CoreKind::MotionMode => CommandKind::MotionMode(c),
            CoreKind::MultiSelection => CommandKind::MultiSelection(c),
        }
    }
}

/// Inserts the command of `kind` under its name.
fn register(commands: &mut IndexMap<String, LapceCommand>, kind: CommandKind)
    ensures
        map_entries(*final(commands)) == map_insert(
            map_entries(*old(commands)),
            kind.name(),
            command_of(kind),
        ),
{
    let name = kind.str().to_owned();
    let command = LapceCommand { kind, data: None };
    insert_command(commands, name, command);
}

/// Registers each command of a list of the editor core, in order.
fn register_core(
    commands: &mut IndexMap<String, LapceCommand>,
    list: &Vec<CoreCommand>,
    which: CoreKind,
    Ghost(before): Ghost<Seq<CommandKind>>,
)
    requires
        map_entries(*old(commands)) == registered(before),
    ensures
        map_entries(*final(commands)) == registered(
            before + list@.map_values(|c: CoreCommand| which.wrap(c)),
        ),
{
    let ghost kinds = list@.map_values(|c: CoreCommand| which.wrap(c));
    let mut i: usize = 0;
    while i < list.len()
        invariant
            i <= list.len(),
            kinds == list@.map_values(|c: CoreCommand| which.wrap(c)),
            map_entries(*commands) == registered(before + kinds.take(i as int)),
        decreases list.len() - i,
    {
        let kind = which.kind_of(list[i]);
        proof {
            lemma_registered_push(before + kinds.take(i as int), kind);
            assert(before + kinds.take(i + 1) =~= (before + kinds.take(i as int)).push(kind));
        }
        register(commands, kind);
        i = i + 1;
    }
    assert(kinds.take(list.len() as int) =~= kinds);
}

/// Every internal command, by name, in the order of registration: the
/// workbench commands, then those of the editor core. A command whose name is
/// already taken replaces the one registered under it, in its place.
pub fn lapce_internal_commands(core: &CoreCommands) -> (commands: IndexMap<String, LapceCommand>)
    ensures
        map_entries(commands) == registered(internal_command_kinds(*core)),
        core_names_fresh(*core) ==> laid_out_in_order(map_entries(commands), *core),
{
    let mut commands = new_command_map();
    let all = LapceWorkbenchCommand::iter();
    let ghost workbench = all@.map_values(|c: LapceWorkbenchCommand| CommandKind::Workbench(c));
    let mut i: usize = 0;
    while i < all.len()
        invariant
            i <= all.len(),
            workbench == all@.map_values(|c: LapceWorkbenchCommand| CommandKind::Workbench(c)),
            map_entries(commands) == registered(workbench.take(i as int)),
        decreases all.len() - i,
    {
        let kind = CommandKind::Workbench(all[i]);
        proof {
            lemma_registered_push(workbench.take(i as int), kind);
            assert(workbench.take(i + 1) =~= workbench.take(i as int).push(kind));
        }
        register(&mut commands, kind);
        i = i + 1;
    }
    assert(workbench.take(all.len() as int) =~= workbench);
    let ghost edit = core.edit@.map_values(|c: CoreCommand| CommandKind::Edit(c));
    let ghost movement = core.movement@.map_values(|c: CoreCommand| CommandKind::Move(c));
    let ghost focus = core.focus@.map_values(|c: CoreCommand| CommandKind::Focus(c));
    let ghost motion_mode = core.motion_mode@.map_values(|c: CoreCommand| CommandKind::MotionMode(c));
    let ghost multi_selection = core.multi_selection@.map_values(
        |c: CoreCommand| CommandKind::MultiSelection(c),
    );
    assert(core.edit@.map_values(|c: CoreCommand| CoreKind::Edit.wrap(c)) =~= edit);
    assert(core.movement@.map_values(|c: CoreCommand| CoreKind::Move.wrap(c)) =~= movement);
    assert(core.focus@.map_values(|c: CoreCommand| CoreKind::Focus.wrap(c)) =~= focus);
    assert(core.motion_mode@.map_values(|c: CoreCommand| CoreKind::MotionMode.wrap(c))
        =~= motion_mode);
    assert(core.multi_selection@.map_values(|c: CoreCommand| CoreKind::MultiSelection.wrap(c))
        =~= multi_selection);
    register_core(&mut commands, &core.edit, CoreKind::Edit, Ghost(workbench));
    register_core(&mut commands, &core.movement, CoreKind::Move, Ghost(workbench + edit));
    register_core(&mut commands, &core.focus, CoreKind::Focus, Ghost(workbench + edit + movement));
    register_core(
        &mut commands,
        &core.motion_mode,
        CoreKind::MotionMode,
        Ghost(workbench + edit + movement + focus),
    );
    register_core(
        &mut commands,
        &core.multi_selection,
        CoreKind::MultiSelection,
        Ghost(workbench + edit + movement + focus + motion_mode),
    );
    assert(workbench + edit + movement + focus + motion_mode + multi_selection
        =~= internal_command_kinds(*core));
    proof {
        if core_names_fresh(*core) {
            lemma_internal_commands_in_order(*core);
        }
    }
    commands
}

/// No two entries share a key.
pub open spec fn keys_distinct(e: Seq<(Seq<char>, LapceCommand)>) -> bool {
    forall|i: int, j: int|
        0 <= i < e.len() && 0 <= j < e.len() && i != j ==> #[trigger] e[i].0 != #[trigger] e[j].0
}

proof fn lemma_key_position(e: Seq<(Seq<char>, LapceCommand)>, k: Seq<char>)
    ensures
        key_position(e, k) matches Some(i) ==> 0 <= i < e.len() && e[i].0 == k,
        key_position(e, k) is None ==> forall|j: int| 0 <= j < e.len() ==> e[j].0 != k,
    decreases e.len(),
{
    if e.len() > 0 {
        lemma_key_position(e.drop_last(), k);
        assert forall|j: int| 0 <= j < e.len() - 1 implies #[trigger] e[j] == e.drop_last()[j] by {}
    }
}

proof fn lemma_key_position_of_distinct(e: Seq<(Seq<char>, LapceCommand)>, k: Seq<char>, i: int)
    requires
        keys_distinct(e),
        0 <= i < e.len(),
        e[i].0 == k,
    ensures
        key_position(e, k) == Some(i),
{
    lemma_key_position(e, k);
    if let Some(p) = key_position(e, k) {
        assert(e[p].0 == e[i].0);
    }
}

proof fn lemma_map_insert(e: Seq<(Seq<char>, LapceCommand)>, k: Seq<char>, v: LapceCommand)
    requires
        keys_distinct(e),
    ensures
        keys_distinct(map_insert(e, k, v)),
        entry_value(map_insert(e, k, v), k) == Some(v),
        forall|x: Seq<char>|
            x != k ==> #[trigger] entry_value(map_insert(e, k, v), x) == entry_value(e, x),
        forall|i: int|
            0 <= i < map_insert(e, k, v).len() ==> #[trigger] map_insert(e, k, v)[i] == (k, v)
                || e.contains(map_insert(e, k, v)[i]),
{
    let ins = map_insert(e, k, v);
    lemma_key_position(e, k);
    match key_position(e, k) {
        Some(p) => {
            assert(keys_distinct(ins)) by {
                assert forall|i: int, j: int|
                    0 <= i < ins.len() && 0 <= j < ins.len() && i != j implies #[trigger] ins[i].0
                    != #[trigger] ins[j].0 by {
                    assert(ins[i].0 == e[i].0 && ins[j].0 == e[j].0);
                }
            }
            lemma_key_position_of_distinct(ins, k, p);
            assert forall|x: Seq<char>| x != k implies #[trigger] entry_value(ins, x) == entry_value(
                e,
                x,
            ) by {
                lemma_key_position(e, x);
                lemma_key_position(ins, x);
                if let Some(q) = key_position(e, x) {
                    assert(ins[q].0 == x);
                    lemma_key_position_of_distinct(ins, x, q);
                } else if let Some(q) = key_position(ins, x) {
                    assert(e[q].0 == x);
                }
            }
            assert forall|i: int| 0 <= i < ins.len() implies #[trigger] ins[i] == (k, v)
                || e.contains(ins[i]) by {
                if i != p {
                    assert(ins[i] == e[i]);
                }
            }
        },
        None => {
            assert(ins.drop_last() =~= e);
            assert(keys_distinct(ins));
            assert forall|x: Seq<char>| x != k implies #[trigger] entry_value(ins, x) == entry_value(
                e,
                x,
            ) by {
                assert(ins.drop_last() =~= e);
                lemma_key_position(e, x);
                if let Some(q) = key_position(e, x) {
                    assert(ins[q] == e[q]);
                }
            }
            lemma_key_position_of_distinct(ins, k, e.len() as int);
            assert forall|i: int| 0 <= i < ins.len() implies #[trigger] ins[i] == (k, v)
                || e.contains(ins[i]) by {
                if i < e.len() {
                    assert(ins[i] == e[i]);
                }
            }
        },
    }
}

/// Registering commands never gives two entries the same name.
pub proof fn lemma_registered_keys_distinct(kinds: Seq<CommandKind>)
    ensures
        keys_distinct(registered(kinds)),
    decreases kinds.len(),
{
    if kinds.len() > 0 {
        lemma_registered_keys_distinct(kinds.drop_last());
        lemma_map_insert(
            registered(kinds.drop_last()),
            kinds.last().name(),
            command_of(kinds.last()),
        );
    }
}

/// Each entry of the registered commands stores, under its name, a command of
/// that name with no argument.
pub proof fn lemma_registered_entries(kinds: Seq<CommandKind>)
    ensures
        forall|i: int|
            0 <= i < registered(kinds).len() ==> {
                let entry = #[trigger] registered(kinds)[i];
                &&& entry.1 == command_of(entry.1.kind)
                &&& entry.0 == entry.1.kind.name()
            },
    decreases kinds.len(),
{
    if kinds.len() > 0 {
        let before = registered(kinds.drop_last());
        lemma_registered_entries(kinds.drop_last());
        lemma_registered_keys_distinct(kinds.drop_last());
        lemma_map_insert(before, kinds.last().name(), command_of(kinds.last()));
        assert forall|i: int| 0 <= i < registered(kinds).len() implies {
            let entry = #[trigger] registered(kinds)[i];
            &&& entry.1 == command_of(entry.1.kind)
            &&& entry.0 == entry.1.kind.name()
        } by {
            let entry = registered(kinds)[i];
            if entry != (kinds.last().name(), command_of(kinds.last())) {
                let j = choose|j: int| 0 <= j < before.len() && before[j] == entry;
                assert(before[j] == entry);
            }
        }
    }
}

/// A name is registered exactly when some command of the list bears it.
pub proof fn lemma_registered_names(kinds: Seq<CommandKind>, name: Seq<char>)
    ensures
        entry_value(registered(kinds), name) is Some <==> exists|j: int|
            0 <= j < kinds.len() && #[trigger] kinds[j].name() == name,
    decreases kinds.len(),
{
    if kinds.len() > 0 {
        let rest = kinds.drop_last();
        lemma_registered_names(rest, name);
        lemma_registered_keys_distinct(rest);
        lemma_map_insert(registered(rest), kinds.last().name(), command_of(kinds.last()));
        if exists|j: int| 0 <= j < rest.len() && #[trigger] rest[j].name() == name {
            let j = choose|j: int| 0 <= j < rest.len() && #[trigger] rest[j].name() == name;
            assert(kinds[j].name() == name);
        }
        if exists|j: int| 0 <= j < kinds.len() && #[trigger] kinds[j].name() == name {
            let j = choose|j: int| 0 <= j < kinds.len() && #[trigger] kinds[j].name() == name;
            if j < rest.len() {
                assert(rest[j].name() == name);
            }
        }
    }
}

/// The command stored under a name is the last one registered under it.
pub proof fn lemma_registered_last_wins(kinds: Seq<CommandKind>, j: int)
    requires
        0 <= j < kinds.len(),
        forall|m: int| j < m < kinds.len() ==> #[trigger] kinds[m].name() != kinds[j].name(),
    ensures
        entry_value(registered(kinds), kinds[j].name()) == Some(command_of(kinds[j])),
    decreases kinds.len(),
{
    let rest = kinds.drop_last();
    lemma_registered_keys_distinct(rest);
    lemma_map_insert(registered(rest), kinds.last().name(), command_of(kinds.last()));
    if j < kinds.len() - 1 {
        assert forall|m: int| j < m < rest.len() implies #[trigger] rest[m].name()
            != rest[j].name() by {
            assert(rest[m] == kinds[m]);
        }
        lemma_registered_last_wins(rest, j);
        assert(kinds.last().name() != kinds[j].name());
    }
}

/// Where no two commands share a name, the registered entries are the
/// workbench commands in order, then each list of the editor core in order.
pub proof fn lemma_internal_commands_in_order(core: CoreCommands)
    requires
        core_names_fresh(core),
    ensures
        laid_out_in_order(registered(internal_command_kinds(core)), core),
{
    let kinds = internal_command_kinds(core);
    let all = all_workbench_commands();
    let list = core_command_list(core);
    let w = all.len() as int;
    let ne = core.edit@.len() as int;
    let nm = core.movement@.len() as int;
    let nf = core.focus@.len() as int;
    let nmm = core.motion_mode@.len() as int;
    assert(kinds.len() == w + list.len());
    assert forall|k: int| 0 <= k < w implies #[trigger] kinds[k] == CommandKind::Workbench(all[k]) by {}
    assert forall|k: int| w <= k < kinds.len() implies #[trigger] kinds[k].name() == list[k - w].name@ by {
        let x = k - w;
        if x < ne {
            assert(kinds[k] == CommandKind::Edit(core.edit@[x]));
        } else if x < ne + nm {
            assert(kinds[k] == CommandKind::Move(core.movement@[x - ne]));
        } else if x < ne + nm + nf {
            assert(kinds[k] == CommandKind::Focus(core.focus@[x - ne - nm]));
        } else if x < ne + nm + nf + nmm {
            assert(kinds[k] == CommandKind::MotionMode(core.motion_mode@[x - ne - nm - nf]));
        } else {
            assert(kinds[k] == CommandKind::MultiSelection(
                core.multi_selection@[x - ne - nm - nf - nmm],
            ));
        }
    }
    lemma_all_commands_distinct();
    assert forall|i: int, j: int|
        0 <= i < kinds.len() && 0 <= j < kinds.len() && i != j implies #[trigger] kinds[i].name()
        != #[trigger] kinds[j].name() by {
        if i < w && j < w {
            assert(kinds[i] == CommandKind::Workbench(all[i]));
            assert(kinds[j] == CommandKind::Workbench(all[j]));
            if all[i].name() == all[j].name() {
                lemma_same_name_same_command(all[i], all[j]);
            }
        } else if i < w {
            assert(kinds[i] == CommandKind::Workbench(all[i]));
            assert(kinds[j].name() == list[j - w].name@);
            assert(list[j - w].name@ != all[i].name());
        } else if j < w {
            assert(kinds[j] == CommandKind::Workbench(all[j]));
            assert(kinds[i].name() == list[i - w].name@);
            assert(list[i - w].name@ != all[j].name());
        } else {
            assert(kinds[i].name() == list[i - w].name@);
            assert(kinds[j].name() == list[j - w].name@);
        }
    }
    lemma_registered_in_order(kinds);
    let e = registered(kinds);
    assert(e =~= kinds.map_values(|k: CommandKind| (k.name(), command_of(k))));
}

/// Where no two commands share a name, each is registered under its name, in
/// the order of the list.
pub proof fn lemma_registered_in_order(kinds: Seq<CommandKind>)
    requires
        forall|i: int, j: int|
            0 <= i < kinds.len() && 0 <= j < kinds.len() && i != j ==> #[trigger] kinds[i].name()
                != #[trigger] kinds[j].name(),
    ensures
        registered(kinds) == kinds.map_values(|k: CommandKind| (k.name(), command_of(k))),
    decreases kinds.len(),
{
    if kinds.len() > 0 {
        let rest = kinds.drop_last();
        let k = kinds.last();
        lemma_registered_in_order(rest);
        lemma_registered_names(rest, k.name());
        if exists|j: int| 0 <= j < rest.len() && #[trigger] rest[j].name() == k.name() {
            let j = choose|j: int| 0 <= j < rest.len() && #[trigger] rest[j].name() == k.name();
            assert(kinds[j].name() == kinds[kinds.len() - 1].name());
        }
        assert(registered(kinds) =~= kinds.map_values(|k: CommandKind| (k.name(), command_of(k))));
    }
}

/// Each workbench command is registered under its name, unless a command of
/// the editor core bears the same name.
pub proof fn lemma_internal_workbench_command(core: CoreCommands, c: LapceWorkbenchCommand)
    requires
        forall|i: int| 0 <= i < core.edit@.len() ==> #[trigger] core.edit@[i].name@ != c.name(),
        forall|i: int|
            0 <= i < core.movement@.len() ==> #[trigger] core.movement@[i].name@ != c.name(),
        forall|i: int| 0 <= i < core.focus@.len() ==> #[trigger] core.focus@[i].name@ != c.name(),
        forall|i: int|
            0 <= i < core.motion_mode@.len() ==> #[trigger] core.motion_mode@[i].name@ != c.name(),
        forall|i: int|
            0 <= i < core.multi_selection@.len() ==> #[trigger] core.multi_selection@[i].name@
                != c.name(),
    ensures
        entry_value(registered(internal_command_kinds(core)), c.name()) == Some(
            command_of(CommandKind::Workbench(c)),
        ),
{
    let kinds = internal_command_kinds(core);
    let n = all_workbench_commands().len();
    lemma_all_commands_complete(c);
    lemma_all_commands_distinct();
    let j = c.ordinal();
    assert(kinds[j] == CommandKind::Workbench(c));
    assert forall|m: int| j < m < kinds.len() implies #[trigger] kinds[m].name() != kinds[j].name() by {
        if m < n {
            let d = all_workbench_commands()[m];
            assert(kinds[m] == CommandKind::Workbench(d));
            if d.name() == c.name() {
                lemma_same_name_same_command(d, c);
                assert(all_workbench_commands()[m] == all_workbench_commands()[j]);
            }
        }
    }
    lemma_registered_last_wins(kinds, j);
}

/// Without commands of the editor core, the internal commands are the
/// workbench commands, each under its name, in the order of the declaration.
pub proof fn lemma_internal_commands_without_core(core: CoreCommands)
    requires
        core.edit@.len() == 0,
        core.movement@.len() == 0,
        core.focus@.len() == 0,
        core.motion_mode@.len() == 0,
        core.multi_selection@.len() == 0,
    ensures
        registered(internal_command_kinds(core)) == all_workbench_commands().map_values(
            |c: LapceWorkbenchCommand| (c.name(), command_of(CommandKind::Workbench(c))),
        ),
{
    let kinds = internal_command_kinds(core);
    let all = all_workbench_commands();
    assert(kinds =~= all.map_values(|c: LapceWorkbenchCommand| CommandKind::Workbench(c)));
    lemma_all_commands_distinct();
    assert forall|i: int, j: int|
        0 <= i < kinds.len() && 0 <= j < kinds.len() && i != j implies #[trigger] kinds[i].name()
        != #[trigger] kinds[j].name() by {
        if all[i].name() == all[j].name() {
            lemma_same_name_same_command(all[i], all[j]);
        }
    }
    lemma_registered_in_order(kinds);
    assert(kinds.map_values(|k: CommandKind| (k.name(), command_of(k))) =~= all.map_values(
        |c: LapceWorkbenchCommand| (c.name(), command_of(CommandKind::Workbench(c))),
    ));
}

} // verus!
