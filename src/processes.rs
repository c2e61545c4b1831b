//! Matching the watched executables against the live process table,
//! resolving the presence to show, and editing the watched list.
use vstd::prelude::*;
use vstd::string::*;
use crate::config::{
    ProcessConfig, ProcessesConfig, DEFAULT_IDLE_IMAGE, DEFAULT_IDLE_TEXT,
};
use sysinfo::{ProcessRefreshKind, RefreshKind, System};

verus! {

#[verifier::external_type_specification]
#[verifier::external_body]
pub struct ExSystem(System);

/// A new watched entry, as given on the command line.
pub struct CliProcessesAdd {
    pub name: String,
    pub text: String,
    pub image: String,
}

/// How to move an entry in the watched list.
pub enum PriorityOperation {
    /// One place later (lower priority).
    Decrease,
    /// One place earlier (higher priority).
    Increase,
    /// To the given place.
    MoveTo(usize),
}

/// A reordering request, as given on the command line.
pub struct CliProcessesPriority {
    pub name: String,
    pub operation: PriorityOperation,
}

/// Failure of an edit of the watched list.
pub enum ProcessError {
    /// No watched entry carries this name.
    NotFound(String),
}

/// The views of a sequence of strings.
pub open spec fn names_of(v: Seq<String>) -> Seq<Seq<char>> {
    v.map_values(|t: String| t@)
}

/// The index of the first entry at or after `k` named `name`.
pub open spec fn find_from(s: Seq<ProcessConfig>, name: Seq<char>, k: nat) -> Option<nat>
    decreases s.len() - k,
{
    if k >= s.len() {
        None
    } else if s[k as int].name@ == name {
        Some(k)
    } else {
        find_from(s, name, k + 1)
    }
}

/// The index of the first entry named `name`.
pub open spec fn position_of(s: Seq<ProcessConfig>, name: Seq<char>) -> Option<nat> {
    find_from(s, name, 0)
}

/// The names of the entries whose flag in `found` is set, in list order.
pub open spec fn selected_names(s: Seq<ProcessConfig>, found: Seq<bool>) -> Seq<Seq<char>>
    decreases s.len(),
{
    if s.len() == 0 {
        seq![]
    } else {
        let rest = selected_names(s.drop_last(), found.drop_last());
        if found.last() {
            rest.push(s.last().name@)
        } else {
            rest
        }
    }
}

/// `value`, or `fallback` where `value` is empty.
pub open spec fn or_default(value: Seq<char>, fallback: Seq<char>) -> Seq<char> {
    if value.len() == 0 {
        fallback
    } else {
        value
    }
}

/// The presence shown when no watched entry is the active one.
pub open spec fn idle_data(cfg: ProcessesConfig) -> (Seq<char>, Seq<char>) {
    (or_default(cfg.idle_text@, DEFAULT_IDLE_TEXT@), or_default(cfg.idle_image@, DEFAULT_IDLE_IMAGE@))
}

/// The presence (text, icon) for the first running name `first`: the first
/// configured entry with that name, or the idle presence.
pub open spec fn active_data(cfg: ProcessesConfig, first: Option<Seq<char>>) -> (Seq<char>, Seq<char>) {
    match first {
        Some(n) => match position_of(cfg.processes@, n) {
            Some(i) => (cfg.processes@[i as int].text@, cfg.processes@[i as int].image@),
            None => idle_data(cfg),
        },
        None => idle_data(cfg),
    }
}

/// The place an operation asks for, before clamping.
pub open spec fn target_index(op: PriorityOperation, old_index: int) -> int {
    match op {
        PriorityOperation::Decrease => old_index + 1,
        PriorityOperation::Increase => old_index - 1,
        PriorityOperation::MoveTo(k) => k as int,
    }
}

/// `t` clamped to the valid indices `[0, len - 1]` of a non-empty list.
pub open spec fn clamp_index(t: int, len: int) -> int {
    if t < 0 {
        0
    } else if t > len - 1 {
        len - 1
    } else {
        t
    }
}

/// `s` with the entry at `from` taken out and put back in at `to`.
pub open spec fn moved<T>(s: Seq<T>, from: int, to: int) -> Seq<T> {
    s.remove(from).insert(to, s[from])
}

pub proof fn lemma_find_from(s: Seq<ProcessConfig>, name: Seq<char>, k: nat)
    ensures
        match find_from(s, name, k) {
            Some(i) => k <= i < s.len() && s[i as int].name@ == name && forall|j: int|
                k <= j < i ==> s[j].name@ != name,
            None => forall|j: int| k <= j < s.len() ==> s[j].name@ != name,
        },
    decreases s.len() - k,
{
    if k < s.len() && s[k as int].name@ != name {
        lemma_find_from(s, name, k + 1);
    }
}

/// Relies on sysinfo::System::new_with_specifics: a snapshot of the live
/// process table. It depends on the machine, so nothing is promised of it.
#[verifier::external_body]
fn process_table() -> (r: System) {
    System::new_with_specifics(RefreshKind::new().with_processes(ProcessRefreshKind::everything()))
}

/// Relies on sysinfo::System::processes_by_exact_name, which keeps the
/// processes whose name equals `name`: the name of the first of them.
#[verifier::external_body]
fn first_process_named(sys: &System, name: &str) -> (r: Option<String>)
    ensures
        r matches Some(n) ==> n@ == name@,
{
    sys.processes_by_exact_name(name).next().map(|p| p.name().to_owned())
}

/// The index of the first watched entry named `name`.
pub fn find_process(processes: &Vec<ProcessConfig>, name: &String) -> (r: Option<usize>)
    ensures
        match r {
            Some(i) => i < processes@.len() && position_of(processes@, name@) == Some(i as nat),
            None => position_of(processes@, name@).is_none(),
        },
{
    let mut i: usize = 0;
    while i < processes.len()
        invariant
            i <= processes@.len(),
            position_of(processes@, name@) == find_from(processes@, name@, i as nat),
        decreases processes@.len() - i,
    {
        if processes[i].name == *name {
            return Some(i);
        }
        i = i + 1;
    }
    None
}

/// Which entries a lookup found.
pub open spec fn found_flags(found: Seq<Option<String>>) -> Seq<bool> {
    Seq::new(found.len(), |i: int| found[i] is Some)
}

/// The names of the entries that a lookup found, in list order: `found[i]`
/// is what the process table gave for the `i`-th entry's name.
pub fn running_names(config: &ProcessesConfig, found: &Vec<Option<String>>) -> (r: Vec<String>)
    requires
        found@.len() == config.processes@.len(),
        forall|i: int|
            0 <= i < found@.len() ==> (#[trigger] found@[i] matches Some(n) ==> n@
                == config.processes@[i].name@),
    ensures
        names_of(r@) == selected_names(config.processes@, found_flags(found@)),
{
    let mut active: Vec<String> = Vec::new();
    let n = found.len();
    let mut i: usize = 0;
    while i < n
        invariant
            n == found@.len(),
            n == config.processes@.len(),
            i <= n,
            forall|k: int|
                0 <= k < found@.len() ==> (#[trigger] found@[k] matches Some(m) ==> m@
                    == config.processes@[k].name@),
            names_of(active@) == selected_names(
                config.processes@.take(i as int),
                found_flags(found@).take(i as int),
            ),
        decreases n - i,
    {
        let ghost prefix = config.processes@.take(i as int);
        let ghost flags = found_flags(found@);
        match &found[i] {
            Some(name) => {
                active.push(name.clone());
            },
            None => {},
        }
        proof {
            let next = config.processes@.take(i + 1);
            assert(next.drop_last() =~= prefix);
            assert(flags.take(i + 1).drop_last() =~= flags.take(i as int));
            assert(names_of(active@) =~= selected_names(next, flags.take(i + 1)));
        }
        i = i + 1;
    }
    assert(config.processes@.take(n as int) =~= config.processes@);
    assert(found_flags(found@).take(n as int) =~= found_flags(found@));
    active
}

/// The names of the watched entries that are running now, in list order.
/// Each entry's name is looked up in the process table once, in list
/// order, and `running_names` keeps those found. Which ones run depends on
/// the machine; what is promised is that the result is the names of some
/// choice of entries, kept in list order.
pub fn get_names(config: &ProcessesConfig) -> (r: Vec<String>)
    ensures
        exists|found: Seq<bool>|
            found.len() == config.processes@.len() && names_of(r@) == selected_names(
                config.processes@,
                found,
            ),
{
    let sys = process_table();
    let mut found: Vec<Option<String>> = Vec::new();
    let n = config.processes.len();
    let mut i: usize = 0;
    while i < n
        invariant
            n == config.processes@.len(),
            i <= n,
            found@.len() == i,
            forall|k: int|
                0 <= k < i ==> (#[trigger] found@[k] matches Some(m) ==> m@
                    == config.processes@[k].name@),
        decreases n - i,
    {
        found.push(first_process_named(&sys, config.processes[i].name.as_str()));
        i = i + 1;
    }
    let r = running_names(config, &found);
    assert(found_flags(found@).len() == config.processes@.len());
    r
}

/// The presence (text, icon) to show, given the running watched names in
/// list order: that of the first configured entry named like the first
/// running one, or the idle presence with "Idle" / "idle" where the
/// configured idle values are empty.
pub fn get_active_data(config: &ProcessesConfig, processes: &Vec<String>) -> (r: (String, String))
    ensures
        (r.0@, r.1@) == active_data(
            *config,
            if processes@.len() > 0 {
                Some(processes@[0]@)
            } else {
                None
            },
        ),
{
    if processes.len() > 0 {
        match find_process(&config.processes, &processes[0]) {
            Some(i) => {
                let entry = &config.processes[i];
                return (entry.text.clone(), entry.image.clone());
            },
            None => {},
        }
    }
    let idle_text = if config.idle_text.as_str().is_empty() {
        String::from_str(DEFAULT_IDLE_TEXT)
    } else {
        config.idle_text.clone()
    };
    let idle_image = if config.idle_image.as_str().is_empty() {
        String::from_str(DEFAULT_IDLE_IMAGE)
    } else {
        config.idle_image.clone()
    };
    (idle_text, idle_image)
}

impl ProcessError {
    /// The message shown to the user.
    pub fn message(&self) -> (r: String)
        ensures
            match self {
                ProcessError::NotFound(name) => r@ == "No process named "@ + name@ + " found"@,
            },
    {
        match self {
            ProcessError::NotFound(name) => {
                let m = String::from_str("No process named ");
                let m = m.concat(name.as_str());
                m.concat(" found")
            },
        }
    }
}

/// Appends a new watched entry at the end of the list (lowest priority) and
/// returns its index.
pub fn add_process(config: &mut ProcessesConfig, args: CliProcessesAdd) -> (r: usize)
    requires
        old(config).processes@.len() < usize::MAX,
    ensures
        r == old(config).processes@.len(),
        final(config).processes@ == old(config).processes@.push(
            ProcessConfig { name: args.name, text: args.text, image: args.image },
        ),
        final(config).idle_text == old(config).idle_text,
        final(config).idle_image == old(config).idle_image,
{
    let index = config.processes.len();
    config.processes.push(ProcessConfig::new(args.name, args.text, args.image));
    index
}

/// Moves the entry at `old_index` to `new_index`.
fn set_index(config: &mut ProcessesConfig, old_index: usize, new_index: usize)
    requires
        old_index < old(config).processes@.len(),
        new_index < old(config).processes@.len(),
    ensures
        final(config).processes@ == moved(
            old(config).processes@,
            old_index as int,
            new_index as int,
        ),
        final(config).idle_text == old(config).idle_text,
        final(config).idle_image == old(config).idle_image,
{
    let process = config.processes.remove(old_index);
    config.processes.insert(new_index, process);
}

/// The clamped place for `op` applied to the entry at `old_index` of a list
/// of `len` entries.
pub fn new_priority_index(op: &PriorityOperation, old_index: usize, len: usize) -> (r: usize)
    requires
        old_index < len,
    ensures
        r as int == clamp_index(target_index(*op, old_index as int), len as int),
{
    match op {
        PriorityOperation::Decrease => {
            if old_index + 1 > len - 1 {
                len - 1
            } else {
                old_index + 1
            }
        },
        PriorityOperation::Increase => {
            if old_index == 0 {
                0
            } else {
                old_index - 1
            }
        },
        PriorityOperation::MoveTo(k) => {
            if *k > len - 1 {
                len - 1
            } else {
                *k
            }
        },
    }
}

/// Moves the first entry named `arg.name` one place later, one place
/// earlier, or to a given place, clamped to the list, and returns its new
/// index. Without such an entry nothing changes.
pub fn change_process_priority(config: &mut ProcessesConfig, arg: CliProcessesPriority) -> (r:
    Result<usize, ProcessError>)
    ensures
        match position_of(old(config).processes@, arg.name@) {
            Some(i) => {
                let n = clamp_index(
                    target_index(arg.operation, i as int),
                    old(config).processes@.len() as int,
                );
                &&& r == Ok::<usize, ProcessError>(n as usize)
                &&& final(config).processes@ == moved(old(config).processes@, i as int, n)
                &&& final(config).idle_text == old(config).idle_text
                &&& final(config).idle_image == old(config).idle_image
            },
            None => {
                &&& r == Err::<usize, ProcessError>(ProcessError::NotFound(arg.name))
                &&& *final(config) == *old(config)
            },
        },
{
    match find_process(&config.processes, &arg.name) {
        Some(index) => {
            let new_index = new_priority_index(&arg.operation, index, config.processes.len());
            set_index(config, index, new_index);
            Ok(new_index)
        },
        None => Err(ProcessError::NotFound(arg.name)),
    }
}

/// Removes the first entry named `name`. Without such an entry nothing
/// changes.
pub fn remove_process(config: &mut ProcessesConfig, name: String) -> (r: Result<(), ProcessError>)
    ensures
        match position_of(old(config).processes@, name@) {
            Some(i) => {
                &&& r is Ok
                &&& final(config).processes@ == old(config).processes@.remove(i as int)
                &&& final(config).idle_text == old(config).idle_text
                &&& final(config).idle_image == old(config).idle_image
            },
            None => {
                &&& r == Err::<(), ProcessError>(ProcessError::NotFound(name))
                &&& *final(config) == *old(config)
            },
        },
{
    match find_process(&config.processes, &name) {
        Some(index) => {
            config.processes.remove(index);
            Ok(())
        },
        None => Err(ProcessError::NotFound(name)),
    }
}

/// Reordering keeps the list's length and puts the moved entry at its new
/// place; a move to the place it already holds (as a clamped move at either
/// end of the list) leaves the list as it was.
pub proof fn lemma_moved_entry<T>(s: Seq<T>, from: int, to: int)
    requires
        0 <= from < s.len(),
        0 <= to < s.len(),
    ensures
        moved(s, from, to).len() == s.len(),
        moved(s, from, to)[to] == s[from],
        from == to ==> moved(s, from, to) == s,
{
    if from == to {
        assert(moved(s, from, to) =~= s);
    }
}

/// For each entry, whether its name is among the `running` names.
pub open spec fn found_in(s: Seq<ProcessConfig>, running: Set<Seq<char>>) -> Seq<bool> {
    Seq::new(s.len(), |j: int| running.contains(s[j].name@))
}

/// When each lookup finds exactly the entries whose names are running, the
/// names that `running_names` keeps are the configured list filtered by the
/// set of running names: they follow the list's order, and the order in
/// which the process table was walked plays no part.
pub proof fn lemma_found_follows_running_set(
    cfg: ProcessesConfig,
    found: Seq<Option<String>>,
    running: Set<Seq<char>>,
)
    requires
        found.len() == cfg.processes@.len(),
        forall|i: int|
            0 <= i < found.len() ==> (#[trigger] found[i] is Some <==> running.contains(
                cfg.processes@[i].name@,
            )),
    ensures
        found_flags(found) == found_in(cfg.processes@, running),
{
    assert(found_flags(found) =~= found_in(cfg.processes@, running));
}

proof fn lemma_none_selected(s: Seq<ProcessConfig>, found: Seq<bool>)
    requires
        found.len() == s.len(),
        forall|j: int| 0 <= j < s.len() ==> !found[j],
    ensures
        selected_names(s, found).len() == 0,
    decreases s.len(),
{
    if s.len() > 0 {
        lemma_none_selected(s.drop_last(), found.drop_last());
    }
}

proof fn lemma_first_selected(s: Seq<ProcessConfig>, found: Seq<bool>, i: int)
    requires
        found.len() == s.len(),
        0 <= i < s.len(),
        found[i],
        forall|j: int| 0 <= j < i ==> !found[j],
    ensures
        selected_names(s, found).len() > 0,
        selected_names(s, found)[0] == s[i].name@,
    decreases s.len(),
{
    if i == s.len() - 1 {
        lemma_none_selected(s.drop_last(), found.drop_last());
    } else {
        lemma_first_selected(s.drop_last(), found.drop_last(), i);
    }
}

/// Of the watched entries, the first configured one that is running decides
/// the presence: whatever the order of the process table, resolving the
/// running names in list order gives that entry's text and icon.
pub proof fn lemma_first_configured_match_wins(
    cfg: ProcessesConfig,
    running: Set<Seq<char>>,
    i: int,
)
    requires
        0 <= i < cfg.processes@.len(),
        running.contains(cfg.processes@[i].name@),
        forall|j: int| 0 <= j < i ==> !running.contains(#[trigger] cfg.processes@[j].name@),
    ensures
        ({
            let names = selected_names(cfg.processes@, found_in(cfg.processes@, running));
            &&& names.len() > 0
            &&& active_data(cfg, Some(names[0])) == (
                cfg.processes@[i].text@,
                cfg.processes@[i].image@,
            )
        }),
{
    let s = cfg.processes@;
    let found = found_in(s, running);
    lemma_first_selected(s, found, i);
    lemma_find_from(s, s[i].name@, 0);
}

/// When none of the watched entries is running, the idle presence is shown.
pub proof fn lemma_idle_when_nothing_runs(cfg: ProcessesConfig, running: Set<Seq<char>>)
    requires
        forall|j: int|
            0 <= j < cfg.processes@.len() ==> !running.contains(#[trigger] cfg.processes@[j].name@),
    ensures
        selected_names(cfg.processes@, found_in(cfg.processes@, running)).len() == 0,
        active_data(cfg, None) == idle_data(cfg),
{
    lemma_none_selected(cfg.processes@, found_in(cfg.processes@, running));
}

/// The decimal digits, in order.
pub const DIGITS: &'static str = "0123456789";

/// The decimal form of `n`, without leading zeros.
pub open spec fn decimal(n: nat) -> Seq<char>
    decreases n,
{
    if n < 10 {
        DIGITS@.subrange(n as int, n + 1 as int)
    } else {
        decimal(n / 10) + DIGITS@.subrange((n % 10) as int, (n % 10) + 1 as int)
    }
}

/// The decimal form of `n`.
pub fn decimal_string(n: usize) -> (r: String)
    ensures
        r@ == decimal(n as nat),
    decreases n,
{
    proof {
        reveal_strlit("0123456789");
    }
    if n < 10 {
        String::from_str(DIGITS.substring_char(n, n + 1))
    } else {
        let d = n % 10;
        decimal_string(n / 10).concat(DIGITS.substring_char(d, d + 1))
    }
}

/// How one watched entry is listed, with its index.
pub open spec fn entry_text(index: nat, p: ProcessConfig) -> Seq<char> {
    "Process "@ + decimal(index) + "\n\tIcon: \""@ + p.image@ + "\"\n\tText: \""@ + p.text@
        + "\"\n\tName: \""@ + p.name@ + "\"\n"@
}

/// The listing of all watched entries, in priority order.
pub open spec fn list_text(s: Seq<ProcessConfig>) -> Seq<char>
    decreases s.len(),
{
    if s.len() == 0 {
        seq![]
    } else {
        list_text(s.drop_last()) + entry_text((s.len() - 1) as nat, s.last())
    }
}

fn entry_string(index: usize, p: &ProcessConfig) -> (r: String)
    ensures
        r@ == entry_text(index as nat, *p),
{
    let r = String::from_str("Process ").concat(decimal_string(index).as_str());
    let r = r.concat("\n\tIcon: \"").concat(p.image.as_str());
    let r = r.concat("\"\n\tText: \"").concat(p.text.as_str());
    let r = r.concat("\"\n\tName: \"").concat(p.name.as_str());
    r.concat("\"\n")
}

/// The listing that `processes list` prints: for each entry its index,
/// icon, text and name, one entry after another.
pub fn data_list_text(config: &ProcessesConfig) -> (r: String)
    ensures
        r@ == list_text(config.processes@),
{
    let mut out = String::new();
    let mut i: usize = 0;
    while i < config.processes.len()
        invariant
            i <= config.processes@.len(),
            out@ == list_text(config.processes@.take(i as int)),
        decreases config.processes@.len() - i,
    {
        let line = entry_string(i, &config.processes[i]);
        proof {
            let next = config.processes@.take(i + 1);
            assert(next.drop_last() =~= config.processes@.take(i as int));
        }
        out = out.concat(line.as_str());
        i = i + 1;
    }
    assert(config.processes@.take(i as int) =~= config.processes@);
    out
}

/// The line printed after a successful reordering.
pub fn priority_message(name: &String, new_index: usize) -> (r: String)
    ensures
        r@ == "Set process "@ + name@ + " to priority "@ + decimal(new_index as nat),
{
    String::from_str("Set process ").concat(name.as_str()).concat(" to priority ").concat(
        decimal_string(new_index).as_str(),
    )
}

/// The line printed after a successful removal.
pub fn removed_message(name: &String) -> (r: String)
    ensures
        r@ == "Removed process "@ + name@,
{
    String::from_str("Removed process ").concat(name.as_str())
}

} // verus!
