use vstd::prelude::*;

verus! {

/// One registered JDK: a unique label and the JDK home directory (the parent
/// of its `bin` directory).
pub struct JdkInfo {
    pub name: String,
    pub path: String,
}

/// The model of an entry: its name and its path.
pub type EntryModel = (Seq<char>, Seq<char>);

impl View for JdkInfo {
    type V = EntryModel;

    open spec fn view(&self) -> EntryModel {
        (self.name@, self.path@)
    }
}

impl JdkInfo {
    pub fn new(name: &str, path: &str) -> (r: JdkInfo)
        ensures
            r.name@ == name@,
            r.path@ == path@,
    {
        JdkInfo { name: String::from_str(name), path: String::from_str(path) }
    }

    /// The entry as text: `{Name: "<name>", Path: "<path>"}`.
    pub fn to_string(&self) -> (r: String)
        ensures
            r@ == entry_text(self@),
    {
        let mut r = String::from_str("{Name: \"");
        r.append(self.name.as_str());
        r.append("\", Path: \"");
        r.append(self.path.as_str());
        r.append("\"}");
        r
    }

    /// A copy of this entry, field by field.
    pub fn duplicate(&self) -> (r: JdkInfo)
        ensures
            r@ == self@,
    {
        JdkInfo { name: self.name.clone(), path: self.path.clone() }
    }
}

/// The registry: the registered JDKs in order, and the position of the
/// active one, if any.
pub struct Config {
    pub selected_jdk: Option<usize>,
    pub jdk_info_list: Vec<JdkInfo>,
}

/// The model of a registry: the selected position and the entries in order.
pub type RegistryModel = (Option<usize>, Seq<EntryModel>);

impl View for Config {
    type V = RegistryModel;

    open spec fn view(&self) -> RegistryModel {
        (self.selected_jdk, entries_of(self.jdk_info_list@))
    }
}

pub open spec fn entries_of(list: Seq<JdkInfo>) -> Seq<EntryModel> {
    list.map_values(|e: JdkInfo| e@)
}

/// Some entry is named `name`, exactly.
pub open spec fn has_name(entries: Seq<EntryModel>, name: Seq<char>) -> bool {
    exists|i: int| 0 <= i < entries.len() && #[trigger] entries[i].0 == name
}

/// `i` is the first position whose entry is named `name`.
pub open spec fn is_first_match(entries: Seq<EntryModel>, name: Seq<char>, i: int) -> bool {
    &&& 0 <= i < entries.len()
    &&& entries[i].0 == name
    &&& forall|j: int| 0 <= j < i ==> #[trigger] entries[j].0 != name
}

/// No two entries share a name.
pub open spec fn names_unique(entries: Seq<EntryModel>) -> bool {
    forall|i: int, j: int|
        0 <= i < entries.len() && 0 <= j < entries.len() && i != j ==> #[trigger] entries[i].0
            != #[trigger] entries[j].0
}

/// The selection, when present, addresses an entry.
pub open spec fn selection_in_range(r: RegistryModel) -> bool {
    match r.0 {
        Some(i) => i < r.1.len(),
        None => true,
    }
}

/// The registry's invariant: names are unique and the selection addresses an
/// entry. Adding and selecting keep it; removing keeps the names unique but
/// carries the selected position over unchanged, so it may then address a
/// different entry or none.
pub open spec fn well_formed(r: RegistryModel) -> bool {
    names_unique(r.1) && selection_in_range(r)
}

/// The registry after appending `(name, path)`: the new entry becomes the
/// selection when there was none.
pub open spec fn added(r: RegistryModel, name: Seq<char>, path: Seq<char>) -> RegistryModel {
    let selected = match r.0 {
        Some(i) => Some(i),
        None => Some(r.1.len() as usize),
    };
    (selected, r.1.push((name, path)))
}

/// The entries that are not named `name`, in their order.
pub open spec fn without_name(entries: Seq<EntryModel>, name: Seq<char>) -> Seq<EntryModel> {
    entries.filter(|e: EntryModel| e.0 != name)
}

/// The registry with `selected` at position `i`, entries unchanged.
pub open spec fn selected_at(r: RegistryModel, i: int) -> RegistryModel {
    (Some(i as usize), r.1)
}

/// The empty registry, with no selection.
pub open spec fn empty_registry() -> RegistryModel {
    (None, Seq::empty())
}

/// `{Name: "<name>", Path: "<path>"}`.
pub open spec fn entry_text(e: EntryModel) -> Seq<char> {
    "{Name: \""@ + e.0 + "\", Path: \""@ + e.1 + "\"}"@
}

/// The texts of the entries, one after another.
pub open spec fn entries_text(entries: Seq<EntryModel>) -> Seq<char>
    decreases entries.len(),
{
    if entries.len() == 0 {
        Seq::empty()
    } else {
        entries_text(entries.drop_last()) + entry_text(entries.last())
    }
}

/// The name of the selected entry, or `Undefined` when there is no selection
/// or it addresses no entry.
pub open spec fn selected_name_text(r: RegistryModel) -> Seq<char> {
    match r.0 {
        Some(i) if i < r.1.len() => r.1[i as int].0,
        _ => "Undefined"@,
    }
}

/// `Selected JDK name: <name> JDK info list: [<entries>]`.
pub open spec fn registry_text(r: RegistryModel) -> Seq<char> {
    "Selected JDK name: "@ + selected_name_text(r) + " "@ + "JDK info list: ["@ + entries_text(r.1)
        + "]"@
}

/// Why a change of the registry was refused; the registry is left as it was.
#[derive(Debug, PartialEq, Eq, Clone, Copy)]
pub enum RegistryError {
    /// An entry of that name is already registered.
    DuplicateName,
    /// No entry of that name is registered.
    NotFound,
}

/// The first position whose entry is named `name`, if any.
pub fn position_of(list: &Vec<JdkInfo>, name: &String) -> (r: Option<usize>)
    ensures
        match r {
            Some(i) => is_first_match(entries_of(list@), name@, i as int),
            None => !has_name(entries_of(list@), name@),
        },
{
    let mut i: usize = 0;
    while i < list.len()
        invariant
            i <= list@.len(),
            forall|j: int| 0 <= j < i ==> #[trigger] entries_of(list@)[j].0 != name@,
        decreases list@.len() - i,
    {
        if list[i].name == *name {
            return Some(i);
        }
        i = i + 1;
    }
    None
}

/// Copies of the entries of `list`, in order.
fn copy_list(list: &Vec<JdkInfo>) -> (r: Vec<JdkInfo>)
    ensures
        entries_of(r@) == entries_of(list@),
{
    let mut r: Vec<JdkInfo> = Vec::new();
    let mut i: usize = 0;
    while i < list.len()
        invariant
            i <= list@.len(),
            r@.len() == i,
            forall|j: int| 0 <= j < i ==> #[trigger] r@[j]@ == list@[j]@,
        decreases list@.len() - i,
    {
        r.push(list[i].duplicate());
        i = i + 1;
    }
    assert(entries_of(r@) =~= entries_of(list@));
    r
}

impl Config {
    /// The empty registry: no entries and no selection.
    pub fn new() -> (r: Config)
        ensures
            r@ == empty_registry(),
            well_formed(r@),
    {
        let r = Config { selected_jdk: None, jdk_info_list: Vec::new() };
        assert(well_formed(r@));
        assert(r@.1 =~= Seq::<EntryModel>::empty());
        r
    }

    /// The registry as text: the selected name, then every entry in order.
    pub fn to_string(&self) -> (r: String)
        ensures
            r@ == registry_text(self@),
    {
        let mut r = String::from_str("Selected JDK name: ");
        match self.selected_jdk {
            Some(i) if i < self.jdk_info_list.len() => r.append(self.jdk_info_list[i].name.as_str()),
            _ => r.append("Undefined"),
        }
        r.append(" ");
        r.append("JDK info list: [");
        let ghost head = r@;
        let ghost all = self@.1;
        let mut i: usize = 0;
        while i < self.jdk_info_list.len()
            invariant
                i <= all.len(),
                all == self@.1,
                r@ == head + entries_text(all.take(i as int)),
            decreases all.len() - i,
        {
            let piece = self.jdk_info_list[i].to_string();
            r.append(piece.as_str());
            assert(all.take(i + 1).drop_last() =~= all.take(i as int));
            i = i + 1;
            assert(r@ =~= head + entries_text(all.take(i as int)));
        }
        assert(all.take(all.len() as int) =~= all);
        r.append("]");
        r
    }

    /// Each entry in order, paired with whether it is the selected one.
    pub fn jdk_list(&self) -> (r: Vec<(JdkInfo, bool)>)
        ensures
            r@.len() == self@.1.len(),
            forall|i: int|
                0 <= i < r@.len() ==> (#[trigger] r@[i]).0@ == self@.1[i] && r@[i].1 == (
                self.selected_jdk == Some(i as usize)),
    {
        let mut r: Vec<(JdkInfo, bool)> = Vec::new();
        let mut i: usize = 0;
        while i < self.jdk_info_list.len()
            invariant
                i <= self@.1.len(),
                r@.len() == i,
                forall|j: int|
                    0 <= j < i ==> (#[trigger] r@[j]).0@ == self@.1[j] && r@[j].1 == (
                    self.selected_jdk == Some(j as usize)),
            decreases self@.1.len() - i,
        {
            let in_use = match self.selected_jdk {
                Some(s) => s == i,
                None => false,
            };
            r.push((self.jdk_info_list[i].duplicate(), in_use));
            i = i + 1;
        }
        r
    }
}

/// Registers `path` under `name`: refused when `name` is taken, else the entry
/// is appended and becomes the selection if there was none.
pub fn add_jdk_info(config: &Config, name: &String, path: &String) -> (r: Result<
    Config,
    RegistryError,
>)
    requires
        config.jdk_info_list@.len() < usize::MAX,
    ensures
        match r {
            Ok(c) => !has_name(config@.1, name@) && c@ == added(config@, name@, path@),
            Err(e) => has_name(config@.1, name@) && e == RegistryError::DuplicateName,
        },
        config@ == empty_registry() ==> r is Ok && r->Ok_0@.0 == Some(0usize),
        match (r, config.selected_jdk) {
            (Ok(c), Some(i)) => i < config@.1.len() ==> c.selected_jdk == Some(i) && c@.1[i as int]
                == config@.1[i as int],
            _ => true,
        },
        r is Ok ==> (names_unique(config@.1) ==> names_unique(r->Ok_0@.1)),
        r is Ok ==> (selection_in_range(config@) ==> selection_in_range(r->Ok_0@)),
        r is Ok ==> (well_formed(config@) ==> well_formed(r->Ok_0@)),
{
    if position_of(&config.jdk_info_list, name).is_some() {
        return Err(RegistryError::DuplicateName);
    }
    let mut list = copy_list(&config.jdk_info_list);
    list.push(JdkInfo { name: name.clone(), path: path.clone() });
    let selected_jdk = match config.selected_jdk {
        Some(i) => Some(i),
        None => Some(list.len() - 1),
    };
    let r = Config { selected_jdk, jdk_info_list: list };
    assert(r@.1 =~= config@.1.push((name@, path@)));
    Ok(r)
}

/// Dropping the entries named `name` leaves none of that name, keeps only
/// entries that were there, and keeps names unique when they were.
pub proof fn lemma_without_name(entries: Seq<EntryModel>, name: Seq<char>)
    ensures
        !has_name(without_name(entries, name), name),
        names_unique(entries) ==> names_unique(without_name(entries, name)),
        forall|k: int|
            0 <= k < without_name(entries, name).len() ==> entries.contains(
                #[trigger] without_name(entries, name)[k],
            ),
    decreases entries.len(),
{
    let keep = |e: EntryModel| e.0 != name;
    let w = without_name(entries, name);
    reveal(Seq::filter);
    if entries.len() > 0 {
        let init = entries.drop_last();
        lemma_without_name(init, name);
        let wi = without_name(init, name);
        assert(w == if keep(entries.last()) { wi.push(entries.last()) } else { wi });
        if has_name(w, name) {
            let i = choose|i: int| 0 <= i < w.len() && #[trigger] w[i].0 == name;
            if i < wi.len() as int {
                assert(wi[i].0 == name);
            }
        }
        assert forall|k: int| 0 <= k < w.len() implies entries.contains(#[trigger] w[k]) by {
            if k < wi.len() as int {
                assert(init.contains(wi[k]));
                let m = choose|m: int| 0 <= m < init.len() && init[m] == wi[k];
                assert(entries[m] == init[m]);
            } else {
                assert(entries[entries.len() - 1] == entries.last());
            }
        }
        if names_unique(entries) {
            assert(names_unique(init)) by {
                assert forall|i: int, j: int|
                    0 <= i < init.len() && 0 <= j < init.len() && i != j implies #[trigger] init[i].0
                    != #[trigger] init[j].0 by {
                    assert(init[i] == entries[i] && init[j] == entries[j]);
                }
            }
            assert forall|i: int, j: int|
                0 <= i < w.len() && 0 <= j < w.len() && i != j implies #[trigger] w[i].0
                != #[trigger] w[j].0 by {
                if keep(entries.last()) {
                    if i == wi.len() as int || j == wi.len() as int {
                        let k = if i == wi.len() as int { j } else { i };
                        assert(init.contains(wi[k]));
                        let m = choose|m: int| 0 <= m < init.len() && init[m] == wi[k];
                        assert(entries[m] == init[m]);
                        assert(entries[entries.len() - 1] == entries.last());
                    }
                }
            }
        }
    }
}

/// Unregisters the entry named `name`: refused when there is none, else the
/// entries of that name are dropped, the others keep their order, and the
/// selected position is carried over as it was.
pub fn remove_jdk_info(config: &Config, name: &String) -> (r: Result<Config, RegistryError>)
    ensures
        match r {
            Ok(c) => has_name(config@.1, name@) && c@ == (config@.0, without_name(config@.1, name@)),
            Err(e) => !has_name(config@.1, name@) && e == RegistryError::NotFound,
        },
        r is Ok ==> !has_name(r->Ok_0@.1, name@),
        r is Ok ==> (names_unique(config@.1) ==> names_unique(r->Ok_0@.1)),
{
    if position_of(&config.jdk_info_list, name).is_none() {
        return Err(RegistryError::NotFound);
    }
    let ghost all = entries_of(config.jdk_info_list@);
    let ghost keep = |e: EntryModel| e.0 != name@;
    let mut list: Vec<JdkInfo> = Vec::new();
    let mut i: usize = 0;
    while i < config.jdk_info_list.len()
        invariant
            i <= all.len(),
            all == entries_of(config.jdk_info_list@),
            keep == (|e: EntryModel| e.0 != name@),
            entries_of(list@) == all.take(i as int).filter(keep),
        decreases all.len() - i,
    {
        let e = &config.jdk_info_list[i];
        let ghost before = list@;
        if e.name != *name {
            list.push(e.duplicate());
            assert(entries_of(list@) =~= entries_of(before).push(e@));
        }
        proof {
            assert(all.take(i + 1).drop_last() =~= all.take(i as int));
            reveal(Seq::filter);
        }
        i = i + 1;
    }
    assert(all.take(all.len() as int) =~= all);
    let r = Config { selected_jdk: config.selected_jdk, jdk_info_list: list };
    proof {
        lemma_without_name(all, name@);
    }
    Ok(r)
}

/// Makes the entry named `name` the selection: refused when there is none,
/// else the selection is the position of the first entry of that name.
pub fn use_jdk(config: &Config, name: &String) -> (r: Result<Config, RegistryError>)
    ensures
        match r {
            Ok(c) => exists|i: int|
                is_first_match(config@.1, name@, i) && c@ == #[trigger] selected_at(config@, i),
            Err(e) => !has_name(config@.1, name@) && e == RegistryError::NotFound,
        },
        r is Ok ==> selection_in_range(r->Ok_0@) && (well_formed(config@) ==> well_formed(
            r->Ok_0@,
        )),
{
    match position_of(&config.jdk_info_list, name) {
        None => Err(RegistryError::NotFound),
        Some(i) => {
            let r = Config { selected_jdk: Some(i), jdk_info_list: copy_list(&config.jdk_info_list) };
            assert(r@ == selected_at(config@, i as int));
            Ok(r)
        },
    }
}

} // verus!
