//! The configuration: how often to scan, what to show on Discord while
//! hiding, and which programs trigger hiding.
use toml::value::Table;
use vstd::prelude::*;
use vstd::string::StringExecFns;

verus! {

#[verifier::external_type_specification]
#[verifier::external_body]
#[verifier::reject_recursive_types(K)]
#[verifier::reject_recursive_types(V)]
pub struct ExTomlMap<K, V>(toml::map::Map<K, V>);

#[verifier::external_type_specification]
#[verifier::external_body]
pub struct ExTomlValue(toml::Value);

/// What a trigger table holds: for each key, the text of its value when that
/// value is a TOML string, and nothing when it is a value of another kind.
pub uninterp spec fn table_entries(t: Table) -> Map<Seq<char>, Option<Seq<char>>>;

/// `a` comes strictly before `b` in the order of `String` (byte-wise on UTF-8,
/// which is the order of the code points).
pub open spec fn text_lt(a: Seq<char>, b: Seq<char>) -> bool {
    exists|k: int|
        0 <= k <= a.len() && k <= b.len() && #[trigger] a.take(k) == b.take(k) && ((k == a.len()
            && k < b.len()) || (k < a.len() && k < b.len() && (a[k] as u32) < (b[k] as u32)))
}

/// `toml::map::Map::new`: a table with no entries.
#[verifier::external_body]
fn empty_table() -> (table: Table)
    ensures
        table_entries(table).dom().is_empty(),
{
    Table::new()
}

/// `toml::map::Map::iter`, each value given as its text when it is a TOML
/// string: every entry once, in ascending key order (without toml's
/// `preserve_order` feature the map is a `BTreeMap`).
#[verifier::external_body]
fn table_iter(t: &Table) -> (entries: Vec<(String, Option<String>)>)
    ensures
        forall|i: int|
            0 <= i < entries@.len() ==> table_entries(*t).contains_key(#[trigger] entries@[i].0@)
                && table_entries(*t)[entries@[i].0@] == entries@[i].1.deep_view(),
        forall|k: Seq<char>|
            #[trigger] table_entries(*t).contains_key(k) ==> exists|i: int|
                0 <= i < entries@.len() && #[trigger] entries@[i].0@ == k,
        forall|i: int, j: int|
            0 <= i < j < entries@.len() ==> text_lt(#[trigger] entries@[i].0@, #[trigger] entries@[j].0@),
{
    let mut out = Vec::new();
    for (k, v) in t.iter() {
        let text = match v {
            toml::Value::String(s) => Some(s.clone()),
            _ => None,
        };
        out.push((k.clone(), text));
    }
    out
}

/// What is shown on Discord while presence is hidden.
pub struct Discord {
    pub details: String,
    pub status: String,
}

/// A program whose running hides presence, with the window title that it
/// must also show, if any.
pub struct Trigger {
    pub process_name: String,
    pub window_name: Option<String>,
}

/// The settings of rphide.
pub struct Config {
    /// Milliseconds between two scans of the running programs.
    pub cycle: u64,
    pub discord: Discord,
    /// Program names, each mapped to a window title or to `"*"` for any window.
    pub triggers: Table,
}

/// The window title that a trigger's value asks for: its text, unless that is
/// `"*"` or the value is not a string, when any window will do.
pub open spec fn window_name_spec(value: Option<Seq<char>>) -> Option<Seq<char>> {
    match value {
        Some(s) => if s == seq!['*'] {
            None
        } else {
            Some(s)
        },
        None => None,
    }
}

/// The window title that a trigger's value asks for (see `window_name_spec`).
pub fn value_to_string(value: Option<String>) -> (r: Option<String>)
    ensures
        r.deep_view() == window_name_spec(value.deep_view()),
{
    match value {
        Some(a) => {
            let star = <String as StringExecFns>::from_str("*");
            proof {
                reveal_strlit("*");
                assert("*"@ =~= seq!['*']);
            }
            if a == star {
                None
            } else {
                Some(a)
            }
        },
        None => None,
    }
}

/// `v` lists the triggers of a table holding `entries`: one per key, in
/// ascending key order, each with the window title its value asks for.
pub open spec fn lists_triggers(v: Seq<Trigger>, entries: Map<Seq<char>, Option<Seq<char>>>) -> bool {
    &&& forall|i: int|
        0 <= i < v.len() ==> entries.contains_key(#[trigger] v[i].process_name@)
            && v[i].window_name.deep_view() == window_name_spec(entries[v[i].process_name@])
    &&& forall|k: Seq<char>|
        #[trigger] entries.contains_key(k) ==> exists|i: int|
            0 <= i < v.len() && #[trigger] v[i].process_name@ == k
    &&& forall|i: int, j: int|
        0 <= i < j < v.len() ==> text_lt(#[trigger] v[i].process_name@, #[trigger] v[j].process_name@)
}

/// No text comes before itself.
proof fn lemma_text_lt_irreflexive(a: Seq<char>)
    ensures
        !text_lt(a, a),
{
}

/// Of two texts, at most one comes before the other.
proof fn lemma_text_lt_asymmetric(a: Seq<char>, b: Seq<char>)
    requires
        text_lt(a, b),
    ensures
        !text_lt(b, a),
{
    let k1 = choose|k: int|
        0 <= k <= a.len() && k <= b.len() && #[trigger] a.take(k) == b.take(k) && ((k == a.len()
            && k < b.len()) || (k < a.len() && k < b.len() && (a[k] as u32) < (b[k] as u32)));
    if text_lt(b, a) {
        let k2 = choose|k: int|
            0 <= k <= b.len() && k <= a.len() && #[trigger] b.take(k) == a.take(k) && ((k == b.len()
                && k < a.len()) || (k < b.len() && k < a.len() && (b[k] as u32) < (a[k] as u32)));
        if k1 < k2 {
            assert(a.take(k2)[k1] == a[k1]);
            assert(b.take(k2)[k1] == b[k1]);
        } else if k2 < k1 {
            assert(a.take(k1)[k2] == a[k2]);
            assert(b.take(k1)[k2] == b[k2]);
        }
    }
}

/// The names of two trigger lists agree up to position `i` when both list
/// tables with the same keys.
proof fn lemma_trigger_names_agree_upto(
    v1: Seq<Trigger>,
    v2: Seq<Trigger>,
    e1: Map<Seq<char>, Option<Seq<char>>>,
    e2: Map<Seq<char>, Option<Seq<char>>>,
    i: int,
)
    requires
        lists_triggers(v1, e1),
        lists_triggers(v2, e2),
        e1.dom() == e2.dom(),
        0 <= i < v1.len(),
        i < v2.len(),
    ensures
        forall|m: int| 0 <= m <= i ==> #[trigger] v1[m].process_name@ == v2[m].process_name@,
    decreases i,
{
    if i > 0 {
        lemma_trigger_names_agree_upto(v1, v2, e1, e2, i - 1);
    }
    let x = v1[i].process_name@;
    let y = v2[i].process_name@;
    assert(e2.contains_key(x));
    let j = choose|j: int| 0 <= j < v2.len() && #[trigger] v2[j].process_name@ == x;
    assert(e1.contains_key(y));
    let k = choose|k: int| 0 <= k < v1.len() && #[trigger] v1[k].process_name@ == y;
    if j < i {
        assert(v1[j].process_name@ == v2[j].process_name@);
        assert(text_lt(v1[j].process_name@, v1[i].process_name@));
        lemma_text_lt_irreflexive(x);
    } else if j > i {
        assert(text_lt(v2[i].process_name@, v2[j].process_name@));
        if k < i {
            assert(v1[k].process_name@ == v2[k].process_name@);
            assert(text_lt(v2[k].process_name@, v2[i].process_name@));
            lemma_text_lt_irreflexive(y);
        } else if k > i {
            assert(text_lt(v1[i].process_name@, v1[k].process_name@));
            lemma_text_lt_asymmetric(x, y);
        } else {
        }
    }
}

/// A list of triggers of a table holds no name past the names of another
/// list of the same table's keys.
proof fn lemma_trigger_list_no_longer(
    v1: Seq<Trigger>,
    v2: Seq<Trigger>,
    e1: Map<Seq<char>, Option<Seq<char>>>,
    e2: Map<Seq<char>, Option<Seq<char>>>,
)
    requires
        lists_triggers(v1, e1),
        lists_triggers(v2, e2),
        e1.dom() == e2.dom(),
    ensures
        v1.len() <= v2.len(),
{
    if v1.len() > v2.len() {
        let n = v2.len() as int;
        let x = v1[n].process_name@;
        assert(e2.contains_key(x));
        let j = choose|j: int| 0 <= j < v2.len() && #[trigger] v2[j].process_name@ == x;
        lemma_trigger_names_agree_upto(v1, v2, e1, e2, n - 1);
        assert(v1[j].process_name@ == v2[j].process_name@);
        assert(text_lt(v1[j].process_name@, v1[n].process_name@));
        lemma_text_lt_irreflexive(x);
    }
}

/// Two tables with the same keys whose values ask for the same window titles
/// give the same triggers, position by position: turning a `"*"` value into
/// a value that is not a string, or back, changes no trigger.
pub proof fn lemma_triggers_follow_window_names(
    v1: Seq<Trigger>,
    v2: Seq<Trigger>,
    e1: Map<Seq<char>, Option<Seq<char>>>,
    e2: Map<Seq<char>, Option<Seq<char>>>,
)
    requires
        lists_triggers(v1, e1),
        lists_triggers(v2, e2),
        e1.dom() == e2.dom(),
        forall|k: Seq<char>|
            #[trigger] e1.contains_key(k) ==> window_name_spec(e1[k]) == window_name_spec(e2[k]),
    ensures
        v1.len() == v2.len(),
        forall|i: int|
            0 <= i < v1.len() ==> #[trigger] v1[i].process_name@ == v2[i].process_name@
                && v1[i].window_name.deep_view() == v2[i].window_name.deep_view(),
{
    lemma_trigger_list_no_longer(v1, v2, e1, e2);
    lemma_trigger_list_no_longer(v2, v1, e2, e1);
    if v1.len() > 0 {
        lemma_trigger_names_agree_upto(v1, v2, e1, e2, v1.len() - 1);
    }
    assert forall|i: int| 0 <= i < v1.len() implies #[trigger] v1[i].process_name@
        == v2[i].process_name@ && v1[i].window_name.deep_view()
        == v2[i].window_name.deep_view() by {
        let k = v1[i].process_name@;
        assert(e1.contains_key(k));
    }
}

/// The window title of a TOML string value: none exactly when the value is
/// the one-character text `"*"`, and otherwise the value's text unchanged. A
/// value that is not a string asks for no title.
pub proof fn lemma_window_name_of_value(text: Seq<char>)
    ensures
        window_name_spec(Some(text)) is None <==> text == seq!['*'],
        window_name_spec(Some(text)) is Some ==> window_name_spec(Some(text))->0 == text,
        window_name_spec(None) is None,
{
}

/// In a listed trigger whose table value is the text `text`, the window
/// title is none exactly when `text` is `"*"`, and otherwise is `text`.
pub proof fn lemma_trigger_window_title(
    v: Seq<Trigger>,
    entries: Map<Seq<char>, Option<Seq<char>>>,
    i: int,
    text: Seq<char>,
)
    requires
        lists_triggers(v, entries),
        0 <= i < v.len(),
        entries[v[i].process_name@] == Some(text),
    ensures
        v[i].window_name is None <==> text == seq!['*'],
        v[i].window_name matches Some(w) ==> w@ == text,
{
    lemma_window_name_of_value(text);
}

impl Config {
    /// The settings written when no configuration file exists yet.
    pub fn default() -> (c: Config)
        ensures
            c.cycle == 3000,
            c.discord.details@ == "https://github.com/Jhyub/rphide"@,
            c.discord.status@ == "Hiding discord activity"@,
            table_entries(c.triggers) == Map::<Seq<char>, Option<Seq<char>>>::empty(),
    {
        Config {
            cycle: 3000,
            discord: Discord {
                details: <String as StringExecFns>::from_str("https://github.com/Jhyub/rphide"),
                status: <String as StringExecFns>::from_str("Hiding discord activity"),
            },
            triggers: empty_table(),
        }
    }

    /// One trigger per entry of the trigger table, in ascending order of
    /// program name.
    pub fn triggers(&self) -> (v: Vec<Trigger>)
        ensures
            lists_triggers(v@, table_entries(self.triggers)),
    {
        let entries = table_iter(&self.triggers);
        let ghost table = table_entries(self.triggers);
        let mut vec: Vec<Trigger> = Vec::new();
        let n: usize = entries.len();
        let mut i: usize = 0;
        while i < n
            invariant
                n == entries@.len(),
                0 <= i <= n,
                vec@.len() == i,
                forall|m: int| 0 <= m < i ==> #[trigger] vec@[m].process_name@ == entries@[m].0@,
                forall|m: int|
                    0 <= m < i ==> #[trigger] vec@[m].window_name.deep_view() == window_name_spec(
                        entries@[m].1.deep_view(),
                    ),
            decreases n - i,
        {
            let k = entries[i].0.clone();
            let v = match &entries[i].1 {
                Some(s) => Some(s.clone()),
                None => None,
            };
            vec.push(Trigger { process_name: k, window_name: value_to_string(v) });
            i = i + 1;
        }
        proof {
            assert forall|k: Seq<char>| #[trigger] table.contains_key(k) implies exists|m: int|
                0 <= m < vec@.len() && #[trigger] vec@[m].process_name@ == k by {
                let m: int = choose|m: int| 0 <= m < entries@.len() && #[trigger] entries@[m].0@ == k;
                assert(vec@[m].process_name@ == k);
            }
        }
        vec
    }
}

} // verus!
