//! What the client remembers between runs: where the bridge is, the
//! credential it issued, and the operator's aliases for lights.

use vstd::prelude::*;
use vstd::string::*;

verus! {

/// The host used until a bridge has been discovered.
pub const DEFAULT_URL: &'static str = "127.0.0.1";

/// The table that a list of `(alias, name)` pairs describes: each alias maps
/// to the name in the last pair that mentions it.
pub open spec fn spec_table(pairs: Seq<(Seq<char>, Seq<char>)>) -> Map<Seq<char>, Seq<char>>
    decreases pairs.len(),
{
    if pairs.len() == 0 {
        Map::empty()
    } else {
        spec_table(pairs.drop_last()).insert(pairs.last().0, pairs.last().1)
    }
}

/// Whether no alias occurs in two pairs of the list.
pub open spec fn distinct_aliases(pairs: Seq<(Seq<char>, Seq<char>)>) -> bool {
    forall|i: int, j: int|
        0 <= i < pairs.len() && 0 <= j < pairs.len() && i != j ==> pairs[i].0 != pairs[j].0
}

/// The pairs of a list of owned strings, as plain text.
pub open spec fn pair_views(pairs: Seq<(String, String)>) -> Seq<(Seq<char>, Seq<char>)> {
    pairs.map_values(|pair: (String, String)| (pair.0@, pair.1@))
}

/// An alias is in the table exactly when some pair of the list mentions it.
pub proof fn lemma_table_domain(pairs: Seq<(Seq<char>, Seq<char>)>, alias: Seq<char>)
    ensures
        spec_table(pairs).contains_key(alias) <==> exists|i: int|
            0 <= i < pairs.len() && (#[trigger] pairs[i]).0 == alias,
    decreases pairs.len(),
{
    if pairs.len() > 0 {
        let front = pairs.drop_last();
        lemma_table_domain(front, alias);
        if spec_table(pairs).contains_key(alias) {
            if pairs.last().0 == alias {
                assert(pairs[pairs.len() - 1].0 == alias);
            } else {
                let i = choose|i: int| 0 <= i < front.len() && (#[trigger] front[i]).0 == alias;
                assert(pairs[i].0 == alias);
            }
        }
        if exists|i: int| 0 <= i < pairs.len() && (#[trigger] pairs[i]).0 == alias {
            let i = choose|i: int| 0 <= i < pairs.len() && (#[trigger] pairs[i]).0 == alias;
            if i < front.len() {
                assert(front[i].0 == alias);
            }
        }
    }
}

/// Where no alias occurs twice, the table maps the alias of each pair to the
/// name in that pair.
pub proof fn lemma_table_entry(pairs: Seq<(Seq<char>, Seq<char>)>, i: int)
    requires
        distinct_aliases(pairs),
        0 <= i < pairs.len(),
    ensures
        spec_table(pairs).contains_key(pairs[i].0),
        spec_table(pairs)[pairs[i].0] == pairs[i].1,
    decreases pairs.len(),
{
    let front = pairs.drop_last();
    if i < pairs.len() - 1 {
        assert(distinct_aliases(front)) by {
            assert forall|a: int, b: int|
                0 <= a < front.len() && 0 <= b < front.len() && a != b implies front[a].0
                != front[b].0 by {
                assert(front[a] == pairs[a] && front[b] == pairs[b]);
            }
        }
        lemma_table_entry(front, i);
        assert(front[i] == pairs[i]);
        assert(pairs[pairs.len() - 1].0 != pairs[i].0);
    }
}

/// Two lists that hold the same pairs, each alias once, describe the same
/// table, in whatever order they hold them.
pub proof fn lemma_table_ignores_order(
    a: Seq<(Seq<char>, Seq<char>)>,
    b: Seq<(Seq<char>, Seq<char>)>,
)
    requires
        distinct_aliases(a),
        distinct_aliases(b),
        forall|pair: (Seq<char>, Seq<char>)| a.contains(pair) <==> b.contains(pair),
    ensures
        spec_table(a) == spec_table(b),
{
    assert forall|alias: Seq<char>| #[trigger]
        spec_table(a).contains_key(alias) <==> spec_table(b).contains_key(alias) by {
        lemma_table_domain(a, alias);
        lemma_table_domain(b, alias);
        if spec_table(a).contains_key(alias) {
            let i = choose|i: int| 0 <= i < a.len() && (#[trigger] a[i]).0 == alias;
            assert(a.contains(a[i]));
            let j = choose|j: int| 0 <= j < b.len() && b[j] == a[i];
            assert(b[j].0 == alias);
        }
        if spec_table(b).contains_key(alias) {
            let i = choose|i: int| 0 <= i < b.len() && (#[trigger] b[i]).0 == alias;
            assert(b.contains(b[i]));
            let j = choose|j: int| 0 <= j < a.len() && a[j] == b[i];
            assert(a[j].0 == alias);
        }
    }
    assert forall|alias: Seq<char>| #[trigger]
        spec_table(a).contains_key(alias) implies spec_table(a)[alias] == spec_table(b)[alias] by {
        lemma_table_domain(a, alias);
        let i = choose|i: int| 0 <= i < a.len() && (#[trigger] a[i]).0 == alias;
        assert(a.contains(a[i]));
        let j = choose|j: int| 0 <= j < b.len() && b[j] == a[i];
        lemma_table_entry(a, i);
        lemma_table_entry(b, j);
    }
    assert(spec_table(a) =~= spec_table(b));
}

/// Replacing the name in one pair of a list without repeated aliases changes
/// the table at that alias only.
proof fn lemma_table_update(pairs: Seq<(Seq<char>, Seq<char>)>, i: int, name: Seq<char>)
    requires
        distinct_aliases(pairs),
        0 <= i < pairs.len(),
    ensures
        distinct_aliases(pairs.update(i, (pairs[i].0, name))),
        spec_table(pairs.update(i, (pairs[i].0, name))) == spec_table(pairs).insert(
            pairs[i].0,
            name,
        ),
{
    let alias = pairs[i].0;
    let changed = pairs.update(i, (alias, name));
    assert(distinct_aliases(changed)) by {
        assert forall|a: int, b: int|
            0 <= a < changed.len() && 0 <= b < changed.len() && a != b implies changed[a].0
            != changed[b].0 by {
            assert(changed[a].0 == pairs[a].0 && changed[b].0 == pairs[b].0);
        }
    }
    let expected = spec_table(pairs).insert(alias, name);
    assert forall|key: Seq<char>| #[trigger]
        spec_table(changed).contains_key(key) <==> expected.contains_key(key) by {
        lemma_table_domain(changed, key);
        lemma_table_domain(pairs, key);
        if spec_table(changed).contains_key(key) {
            let k = choose|k: int| 0 <= k < changed.len() && (#[trigger] changed[k]).0 == key;
            assert(pairs[k].0 == key);
        }
        if expected.contains_key(key) {
            if key == alias {
                assert(changed[i].0 == key);
            } else {
                let k = choose|k: int| 0 <= k < pairs.len() && (#[trigger] pairs[k]).0 == key;
                assert(changed[k].0 == key);
            }
        }
    }
    assert forall|key: Seq<char>| #[trigger]
        spec_table(changed).contains_key(key) implies spec_table(changed)[key]
        == expected[key] by {
        lemma_table_domain(changed, key);
        let k = choose|k: int| 0 <= k < changed.len() && (#[trigger] changed[k]).0 == key;
        lemma_table_entry(changed, k);
        if k != i {
            assert(changed[k] == pairs[k]);
            lemma_table_entry(pairs, k);
        }
    }
    assert(spec_table(changed) =~= expected);
}

/// The operator's aliases: each alias stands for the name of one light.
#[derive(Debug)]
pub struct AliasTable {
    entries: Vec<(String, String)>,
}

impl View for AliasTable {
    type V = Map<Seq<char>, Seq<char>>;

    closed spec fn view(&self) -> Map<Seq<char>, Seq<char>> {
        spec_table(pair_views(self.entries@))
    }
}

impl AliasTable {
    #[verifier::type_invariant]
    spec fn no_alias_twice(&self) -> bool {
        distinct_aliases(pair_views(self.entries@))
    }

    /// A table without aliases.
    pub fn new() -> (table: AliasTable)
        ensures
            table@ == Map::<Seq<char>, Seq<char>>::empty(),
    {
        let table = AliasTable { entries: Vec::new() };
        assert(pair_views(table.entries@) =~= Seq::empty());
        table
    }

    /// Where `alias` stands in the list, if it does.
    fn position(&self, alias: &String) -> (found: Option<usize>)
        ensures
            match found {
                Some(i) => i < self.entries@.len() && self.entries@[i as int].0@ == alias@,
                None => !self@.contains_key(alias@),
            },
    {
        let mut i: usize = 0;
        while i < self.entries.len()
            invariant
                i <= self.entries.len(),
                forall|k: int| 0 <= k < i ==> (#[trigger] self.entries@[k]).0@ != alias@,
            decreases self.entries.len() - i,
        {
            if self.entries[i].0 == *alias {
                return Some(i);
            }
            i += 1;
        }
        proof {
            let pairs = pair_views(self.entries@);
            lemma_table_domain(pairs, alias@);
            if spec_table(pairs).contains_key(alias@) {
                let k = choose|k: int| 0 <= k < pairs.len() && (#[trigger] pairs[k]).0 == alias@;
                assert(self.entries@[k].0@ == alias@);
            }
        }
        None
    }

    /// The name that `alias` stands for, if it is an alias.
    pub fn get(&self, alias: &str) -> (name: Option<&String>)
        ensures
            match name {
                Some(found) => self@.contains_key(alias@) && self@[alias@] == found@,
                None => !self@.contains_key(alias@),
            },
    {
        let wanted = alias.to_owned();
        match self.position(&wanted) {
            Some(i) => {
                proof {
                    use_type_invariant(self);
                    lemma_table_entry(pair_views(self.entries@), i as int);
                }
                Some(&self.entries[i].1)
            },
            None => None,
        }
    }

    /// Whether `alias` is an alias.
    pub fn contains_key(&self, alias: &str) -> (found: bool)
        ensures
            found == self@.contains_key(alias@),
    {
        self.get(alias).is_some()
    }

    /// Makes `alias` stand for `name`, whatever it stood for before.
    pub fn insert(&mut self, alias: String, name: String)
        ensures
            final(self)@ == old(self)@.insert(alias@, name@),
    {
        proof {
            use_type_invariant(&*self);
        }
        let ghost before = pair_views(self.entries@);
        let found = self.position(&alias);
        let mut entries: Vec<(String, String)> = Vec::new();
        core::mem::swap(&mut self.entries, &mut entries);
        assert(pair_views(self.entries@) =~= Seq::empty());
        match found {
            Some(i) => {
                proof {
                    lemma_table_update(before, i as int, name@);
                }
                entries.set(i, (alias, name));
                assert(pair_views(entries@) =~= before.update(i as int, (alias@, name@)));
            },
            None => {
                proof {
                    lemma_table_domain(before, alias@);
                }
                entries.push((alias, name));
                let ghost after = pair_views(entries@);
                assert(after.drop_last() =~= before);
                assert(after.last() == (alias@, name@));
                assert(distinct_aliases(after)) by {
                    assert forall|a: int, b: int|
                        0 <= a < after.len() && 0 <= b < after.len() && a != b implies after[a].0
                        != after[b].0 by {
                        if a < before.len() {
                            assert(after[a] == before[a]);
                        }
                        if b < before.len() {
                            assert(after[b] == before[b]);
                        }
                    }
                }
            },
        }
        self.entries = entries;
    }

    /// The table that a list of `(alias, name)` pairs describes. Where an
    /// alias occurs more than once, its last pair counts.
    pub fn from_pairs(pairs: Vec<(String, String)>) -> (table: AliasTable)
        ensures
            table@ == spec_table(pair_views(pairs@)),
    {
        let mut table = AliasTable::new();
        let ghost all = pair_views(pairs@);
        let mut i: usize = 0;
        while i < pairs.len()
            invariant
                i <= pairs.len(),
                all == pair_views(pairs@),
                table@ == spec_table(all.take(i as int)),
            decreases pairs.len() - i,
        {
            let alias = pairs[i].0.clone();
            let name = pairs[i].1.clone();
            table.insert(alias, name);
            proof {
                let next = all.take(i + 1);
                assert(next.drop_last() =~= all.take(i as int));
                assert(next.last() == (pairs@[i as int].0@, pairs@[i as int].1@));
            }
            i += 1;
        }
        assert(all.take(i as int) =~= all);
        table
    }

    /// The aliases with their names, each alias once, in no particular
    /// order.
    pub fn pairs(&self) -> (pairs: Vec<(String, String)>)
        ensures
            distinct_aliases(pair_views(pairs@)),
            spec_table(pair_views(pairs@)) == self@,
    {
        proof {
            use_type_invariant(self);
        }
        let mut pairs: Vec<(String, String)> = Vec::new();
        let mut i: usize = 0;
        while i < self.entries.len()
            invariant
                i <= self.entries.len(),
                pairs@.len() == i,
                forall|k: int|
                    0 <= k < i ==> (#[trigger] pairs@[k]).0@ == self.entries@[k].0@ && pairs@[k].1@
                        == self.entries@[k].1@,
            decreases self.entries.len() - i,
        {
            let alias = self.entries[i].0.clone();
            let name = self.entries[i].1.clone();
            pairs.push((alias, name));
            i += 1;
        }
        assert(pair_views(pairs@) =~= pair_views(self.entries@));
        pairs
    }
}

impl AliasTable {
    /// Whether `other` holds every alias of this table, with the same name.
    pub fn is_part_of(&self, other: &AliasTable) -> (yes: bool)
        ensures
            yes == (forall|alias: Seq<char>| #[trigger]
                self@.contains_key(alias) ==> other@.contains_key(alias) && other@[alias]
                    == self@[alias]),
    {
        proof {
            use_type_invariant(self);
        }
        let ghost pairs = pair_views(self.entries@);
        let mut i: usize = 0;
        while i < self.entries.len()
            invariant
                i <= self.entries.len(),
                pairs == pair_views(self.entries@),
                distinct_aliases(pairs),
                forall|k: int|
                    0 <= k < i ==> other@.contains_key((#[trigger] pairs[k]).0) && other@[pairs[k].0]
                        == pairs[k].1,
            decreases self.entries.len() - i,
        {
            let same = match other.get(self.entries[i].0.as_str()) {
                Some(name) => *name == self.entries[i].1,
                None => false,
            };
            if !same {
                proof {
                    lemma_table_entry(pairs, i as int);
                    let alias = pairs[i as int].0;
                    assert(alias == self.entries@[i as int].0@);
                    assert(pairs[i as int].1 == self.entries@[i as int].1@);
                    assert(self@.contains_key(alias) && self@[alias] == pairs[i as int].1);
                    assert(!(other@.contains_key(alias) && other@[alias] == self@[alias]));
                }
                return false;
            }
            i += 1;
        }
        proof {
            assert forall|alias: Seq<char>| #[trigger] self@.contains_key(alias) implies other@.contains_key(
                alias,
            ) && other@[alias] == self@[alias] by {
                lemma_table_domain(pairs, alias);
                let k = choose|k: int| 0 <= k < pairs.len() && (#[trigger] pairs[k]).0 == alias;
                lemma_table_entry(pairs, k);
            }
        }
        true
    }
}

impl PartialEq for AliasTable {
    /// Two tables are equal where they hold the same aliases for the same
    /// names, in whatever order they were filled.
    fn eq(&self, other: &AliasTable) -> (equal: bool) {
        let equal = self.is_part_of(other) && other.is_part_of(self);
        proof {
            if equal {
                assert(self@ =~= other@);
            }
        }
        equal
    }
}

impl vstd::std_specs::cmp::PartialEqSpecImpl for AliasTable {
    open spec fn obeys_eq_spec() -> bool {
        true
    }

    open spec fn eq_spec(&self, other: &AliasTable) -> bool {
        self@ == other@
    }
}

impl Clone for AliasTable {
    fn clone(&self) -> (copy: AliasTable)
        ensures
            copy@ == self@,
    {
        AliasTable::from_pairs(self.pairs())
    }
}

/// A `Config` as plain values.
pub struct ConfigView {
    pub url: Seq<char>,
    pub username: Seq<char>,
    pub aliases: Map<Seq<char>, Seq<char>>,
}

/// What the client remembers between runs.
#[derive(Debug)]
pub struct Config {
    /// Host or address of the bridge.
    pub url: String,
    /// The credential that the bridge issued; empty until paired.
    pub username: String,
    /// The operator's aliases for lights.
    pub aliases: AliasTable,
}

impl View for Config {
    type V = ConfigView;

    open spec fn view(&self) -> ConfigView {
        ConfigView { url: self.url@, username: self.username@, aliases: self.aliases@ }
    }
}

impl PartialEq for Config {
    /// Two configurations are equal where they agree field for field.
    fn eq(&self, other: &Config) -> (equal: bool) {
        self.url == other.url && self.username == other.username && self.aliases == other.aliases
    }
}

impl vstd::std_specs::cmp::PartialEqSpecImpl for Config {
    open spec fn obeys_eq_spec() -> bool {
        true
    }

    open spec fn eq_spec(&self, other: &Config) -> bool {
        self@ == other@
    }
}

/// The configuration of a client that has not met a bridge yet.
pub open spec fn spec_default_config() -> ConfigView {
    ConfigView { url: DEFAULT_URL@, username: Seq::empty(), aliases: Map::empty() }
}

impl Default for Config {
    fn default() -> (config: Config)
        ensures
            config@ == spec_default_config(),
    {
        Config {
            url: String::from_str(DEFAULT_URL),
            username: String::new(),
            aliases: AliasTable::new(),
        }
    }
}

impl Clone for Config {
    fn clone(&self) -> (copy: Config)
        ensures
            copy@ == self@,
    {
        Config {
            url: self.url.clone(),
            username: self.username.clone(),
            aliases: self.aliases.clone(),
        }
    }
}

} // verus!
