//! The alias table: alias names mapped to the command text that replaces
//! them.

use vstd::hash_map::StringHashMap;
use vstd::prelude::*;
use vstd::string::StringExecFns;

verus! {

/// A table of aliases. Each name has at most one command; adding a name again
/// replaces its command.
///
/// Its view is the map from names to commands. `order()` lists the names in
/// the order in which `list` enumerates them.
pub struct AliasTable {
    commands: StringHashMap<String>,
    names: Vec<String>,
}

impl View for AliasTable {
    type V = Map<Seq<char>, Seq<char>>;

    closed spec fn view(&self) -> Map<Seq<char>, Seq<char>> {
        Map::new(
            |name: Seq<char>| self.commands@.contains_key(name),
            |name: Seq<char>| self.commands@[name]@,
        )
    }
}

impl AliasTable {
    #[verifier::type_invariant]
    spec fn inv(&self) -> bool {
        &&& self.names.deep_view().no_duplicates()
        &&& forall|name: Seq<char>|
            self.commands@.contains_key(name) <==> self.names.deep_view().contains(name)
    }

    /// The names of the table, each once, oldest first. A name keeps its
    /// place when its command is replaced.
    pub closed spec fn order(&self) -> Seq<Seq<char>> {
        self.names.deep_view()
    }

    /// An empty table.
    pub fn new() -> (table: AliasTable)
        ensures
            table@ == Map::<Seq<char>, Seq<char>>::empty(),
            table.order() == Seq::<Seq<char>>::empty(),
    {
        AliasTable { commands: StringHashMap::new(), names: Vec::new() }
    }
}

/// What `get` finds under `name` in a table with the contents `table`.
pub open spec fn lookup(table: Map<Seq<char>, Seq<char>>, name: Seq<char>) -> Option<Seq<char>> {
    if table.contains_key(name) {
        Some(table[name])
    } else {
        None
    }
}

/// The place of `name` in `order` after it was added: new names go to the
/// end, known names stay where they are.
pub open spec fn order_after_add(order: Seq<Seq<char>>, name: Seq<char>) -> Seq<Seq<char>> {
    if order.contains(name) {
        order
    } else {
        order.push(name)
    }
}

/// Adds the alias `name` for `command`, replacing any earlier command of that
/// name.
pub fn add(table: &mut AliasTable, name: &str, command: &str)
    ensures
        final(table)@ == old(table)@.insert(name@, command@),
        final(table).order() == order_after_add(old(table).order(), name@),
{
    let mut taken = AliasTable::new();
    std::mem::swap(table, &mut taken);
    proof {
        use_type_invariant(&taken);
    }
    let AliasTable { mut commands, mut names } = taken;
    let known = commands.contains_key(name);
    commands.insert(String::from_str(name), String::from_str(command));
    if !known {
        names.push(String::from_str(name));
    }
    proof {
        let before = old(table).names.deep_view();
        let after = names.deep_view();
        if !known {
            assert(after =~= before.push(name@));
            assert(!before.contains(name@));
            assert forall|n: Seq<char>| commands@.contains_key(n) <==> after.contains(n) by {
                if n == name@ {
                    assert(after[before.len() as int] == n);
                } else if before.contains(n) {
                    let i = choose|i: int| 0 <= i < before.len() && before[i] == n;
                    assert(after[i] == n);
                }
            }
            assert forall|i: int, j: int|
                0 <= i < after.len() && 0 <= j < after.len() && i != j implies after[i]
                != after[j] by {
                if i < before.len() {
                    assert(before[i] == after[i]);
                }
                if j < before.len() {
                    assert(before[j] == after[j]);
                }
            }
        }
    }
    *table = AliasTable { commands, names };
}

/// The command of the alias `name`, if there is one.
pub fn get(table: &AliasTable, name: &str) -> (command: Option<String>)
    ensures
        command.deep_view() == lookup(table@, name@),
{
    match table.commands.get(name) {
        Some(command) => Some(command.clone()),
        None => None,
    }
}

/// Removes the alias `name`. A name that is not in the table leaves it as it
/// is.
pub fn remove(table: &mut AliasTable, name: &str)
    ensures
        final(table)@ == old(table)@.remove(name@),
        final(table).order() == old(table).order().remove_value(name@),
{
    let mut taken = AliasTable::new();
    std::mem::swap(table, &mut taken);
    proof {
        use_type_invariant(&taken);
    }
    let AliasTable { mut commands, mut names } = taken;
    let ghost before = names.deep_view();
    proof {
        before.index_of_first_ensures(name@);
    }
    if commands.contains_key(name) {
        commands.remove(name);
        let wanted = String::from_str(name);
        let mut i: usize = 0;
        while i < names.len() && names[i] != wanted
            invariant
                i <= names.len(),
                names.deep_view() == before,
                wanted@ == name@,
                before.contains(name@),
                forall|j: int| 0 <= j < i ==> before[j] != name@,
            decreases names.len() - i,
        {
            i = i + 1;
        }
        proof {
            if i == names.len() {
                let k = choose|k: int| 0 <= k < before.len() && before[k] == name@;
                assert(before[k] != name@);
            }
            assert(before[i as int] == name@);
            assert(before.index_of_first(name@) == Some(i as int));
        }
        names.remove(i);
        proof {
            let after = names.deep_view();
            assert(after =~= before.remove(i as int));
            before.remove_ensures(i as int);
            assert forall|n: Seq<char>| commands@.contains_key(n) <==> after.contains(n) by {
                if before.contains(n) && n != name@ {
                    let k = choose|k: int| 0 <= k < before.len() && before[k] == n;
                    if k < i {
                        assert(after[k] == n);
                    } else {
                        assert(after[k - 1] == n);
                    }
                }
                if after.contains(n) {
                    let k = choose|k: int| 0 <= k < after.len() && after[k] == n;
                    if k < i {
                        assert(before[k] == n);
                    } else {
                        assert(before[k + 1] == n);
                    }
                }
            }
        }
    }
    *table = AliasTable { commands, names };
}

/// The pairs of name and command that list `table` in the order `order`.
pub open spec fn listing(table: Map<Seq<char>, Seq<char>>, order: Seq<Seq<char>>) -> Seq<
    (Seq<char>, Seq<char>),
> {
    order.map_values(|name: Seq<char>| (name, table[name]))
}

/// The aliases as pairs of name and command, in the order of `order()`,
/// which holds each name of the table once.
pub fn list(table: &AliasTable) -> (pairs: Vec<(String, String)>)
    ensures
        pairs.deep_view() == listing(table@, table.order()),
        table.order().no_duplicates(),
        table.order().to_set() == table@.dom(),
{
    proof {
        use_type_invariant(table);
    }
    let ghost order = table.names.deep_view();
    let mut pairs: Vec<(String, String)> = Vec::new();
    let mut i: usize = 0;
    while i < table.names.len()
        invariant
            i <= table.names.len(),
            order == table.names.deep_view(),
            forall|name: Seq<char>| table.commands@.contains_key(name) <==> order.contains(name),
            pairs.deep_view() == listing(table@, order.take(i as int)),
        decreases table.names.len() - i,
    {
        let name = table.names[i].clone();
        proof {
            assert(order[i as int] == name@);
            assert(order.contains(name@));
        }
        let command = table.commands.get(name.as_str()).unwrap().clone();
        pairs.push((name, command));
        proof {
            assert(listing(table@, order.take(i as int + 1)) =~= listing(
                table@,
                order.take(i as int),
            ).push((name@, table@[name@])));
        }
        i = i + 1;
    }
    proof {
        assert(order.take(i as int) =~= order);
    }
    pairs
}

/// Removes every alias.
pub fn clear(table: &mut AliasTable)
    ensures
        final(table)@ == Map::<Seq<char>, Seq<char>>::empty(),
        final(table).order() == Seq::<Seq<char>>::empty(),
{
    *table = AliasTable::new();
}

/// After `add(name, command)`, `get(name)` finds `command`, whatever the
/// table held before.
pub proof fn law_get_after_add(
    table: Map<Seq<char>, Seq<char>>,
    name: Seq<char>,
    command: Seq<char>,
)
    ensures
        lookup(table.insert(name, command), name) == Some(command),
{
}

/// After `remove(name)`, `get(name)` finds nothing.
pub proof fn law_get_after_remove(table: Map<Seq<char>, Seq<char>>, name: Seq<char>)
    ensures
        lookup(table.remove(name), name) is None,
{
}

/// After `clear()`, `get` finds nothing under any name.
pub proof fn law_get_after_clear(name: Seq<char>)
    ensures
        lookup(Map::<Seq<char>, Seq<char>>::empty(), name) is None,
{
}

/// `add` and `remove` of one name leave what `get` finds under every other
/// name as it was.
pub proof fn law_other_names_are_untouched(
    table: Map<Seq<char>, Seq<char>>,
    name: Seq<char>,
    command: Seq<char>,
    other: Seq<char>,
)
    requires
        other != name,
    ensures
        lookup(table.insert(name, command), other) == lookup(table, other),
        lookup(table.remove(name), other) == lookup(table, other),
{
}

} // verus!
