//! The static dialogue table and the pure description of how a candidate
//! pool is assembled from it: one mood tier, the lines for the current
//! phase of the day, and the lines for the action just performed.

use vstd::prelude::*;

verus! {

/// The candidate lines for one action, split into the sub-tier shown
/// while affection is still low and the one shown once it is high.
#[derive(Debug, Clone)]
pub struct ActionDialogues {
    pub name: String,
    pub low: Vec<String>,
    pub high: Vec<String>,
}

/// The dialogue table, loaded once at startup and never mutated: lines
/// per mood tier, per phase of the day, and per action. A tier that the
/// loaded resource does not provide is simply an empty list.
#[derive(Debug, Clone)]
pub struct DialogueTable {
    pub distrust: Vec<String>,
    pub neutral: Vec<String>,
    pub trust: Vec<String>,
    pub morning: Vec<String>,
    pub afternoon: Vec<String>,
    pub night: Vec<String>,
    pub actions: Vec<ActionDialogues>,
}

/// A table with no lines at all, the fallback when no dialogue resource
/// could be loaded.
pub open spec fn is_empty_table(t: DialogueTable) -> bool {
    &&& t.distrust@.len() == 0
    &&& t.neutral@.len() == 0
    &&& t.trust@.len() == 0
    &&& t.morning@.len() == 0
    &&& t.afternoon@.len() == 0
    &&& t.night@.len() == 0
    &&& t.actions@.len() == 0
}

impl DialogueTable {
    /// The empty table: every lookup against it degrades to the sentinel.
    pub fn empty() -> (t: DialogueTable)
        ensures
            is_empty_table(t),
    {
        DialogueTable {
            distrust: Vec::new(),
            neutral: Vec::new(),
            trust: Vec::new(),
            morning: Vec::new(),
            afternoon: Vec::new(),
            night: Vec::new(),
            actions: Vec::new(),
        }
    }
}

/// String slice comparison by contents, verified down to the views.
pub fn str_eq(a: &str, b: &str) -> (r: bool)
    ensures
        r == (a@ == b@),
{
    let sa: String = a.to_owned();
    let sb: String = b.to_owned();
    sa == sb
}

/// Append a copy of every line in `lines` to the pool.
pub(crate) fn extend_lines(pool: &mut Vec<String>, lines: &Vec<String>)
    ensures
        final(pool)@ == old(pool)@ + lines@,
{
    let n = lines.len();
    let mut i: usize = 0;
    while i < n
        invariant
            n == lines@.len(),
            i <= n,
            pool@ == old(pool)@ + lines@.subrange(0, i as int),
        decreases n - i,
    {
        pool.push(lines[i].clone());
        proof {
            assert(old(pool)@ + lines@.subrange(0, i + 1) =~= (old(pool)@ + lines@.subrange(
                0,
                i as int,
            )).push(lines@[i as int]));
        }
        i = i + 1;
    }
    proof {
        assert(lines@.subrange(0, n as int) =~= lines@);
    }
}

/// Find the first table entry for the given action name, as an index.
pub(crate) fn find_action(entries: &Vec<ActionDialogues>, action: &str) -> (r: Option<usize>)
    ensures
        (match r {
            Some(i) => i < entries@.len() && action_entry(entries@, action@) == Some(
                entries@[i as int],
            ),
            None => action_entry(entries@, action@) is None,
        }),
{
    let n = entries.len();
    let mut i: usize = 0;
    while i < n
        invariant
            n == entries@.len(),
            i <= n,
            forall|j: int| 0 <= j < i ==> entries@[j].name@ != action@,
        decreases n - i,
    {
        if str_eq(entries[i].name.as_str(), action) {
            proof {
                lemma_action_entry_index(entries@, action@, i as int);
            }
            return Some(i);
        }
        i = i + 1;
    }
    proof {
        lemma_action_entry_none(entries@, action@);
    }
    None
}

/// The mood tier's contribution to the pool. Exactly one tier speaks:
/// distrust while affection is under 20 or trust under 10, the trusting
/// tier once affection reaches 60 and trust 30, neutral in between.
pub open spec fn mood_lines(t: DialogueTable, affection: int, trust: int) -> Seq<String> {
    if affection < 20 || trust < 10 {
        t.distrust@
    } else if affection < 60 || trust < 30 {
        t.neutral@
    } else {
        t.trust@
    }
}

/// The contribution of the current phase of the day, keyed by the phase
/// string stored in the record; an unknown phase contributes nothing.
pub open spec fn time_lines(t: DialogueTable, tod: Seq<char>) -> Seq<String> {
    if tod == "morning"@ {
        t.morning@
    } else if tod == "afternoon"@ {
        t.afternoon@
    } else if tod == "night"@ {
        t.night@
    } else {
        Seq::empty()
    }
}

/// The first table entry for the given action name, if any.
pub open spec fn action_entry(entries: Seq<ActionDialogues>, action: Seq<char>) -> Option<
    ActionDialogues,
>
    decreases entries.len(),
{
    if entries.len() == 0 {
        None
    } else if entries[0].name@ == action {
        Some(entries[0])
    } else {
        action_entry(entries.drop_first(), action)
    }
}

/// The action's contribution to the pool: its high sub-tier once
/// affection reaches 40, its low sub-tier below that, and nothing when
/// the table has no entry for the action.
pub open spec fn action_lines(t: DialogueTable, action: Seq<char>, affection: int) -> Seq<String> {
    match action_entry(t.actions@, action) {
        Some(e) => if affection >= 40 {
            e.high@
        } else {
            e.low@
        },
        None => Seq::empty(),
    }
}

/// The full candidate pool: the mood tier, then the phase of the day,
/// then the action's sub-tier. Order is irrelevant to a uniform pick.
pub open spec fn dialogue_pool(
    t: DialogueTable,
    affection: int,
    trust: int,
    tod: Seq<char>,
    action: Seq<char>,
) -> Seq<String> {
    mood_lines(t, affection, trust) + time_lines(t, tod) + action_lines(t, action, affection)
}

/// The treat lines that pre-empt the pool when a treat was just given.
pub open spec fn treat_lines(t: DialogueTable, affection: int) -> Seq<String> {
    action_lines(t, "give_treat"@, affection)
}

/// Whether the action override is specifically the treat-giving action.
pub open spec fn is_treat_override(o: Option<&str>) -> bool {
    match o {
        Some(a) => a@ == "give_treat"@,
        None => false,
    }
}

/// The action a selection is made against: the override when one is
/// given, the record's last action otherwise.
pub open spec fn chosen_action(o: Option<&str>, last: Seq<char>) -> Seq<char> {
    match o {
        Some(a) => a@,
        None => last,
    }
}

/// What a selected line may be. Giving a treat with a non-empty treat
/// sub-tier short-circuits to exactly that list; otherwise an empty pool
/// yields the sentinel and a non-empty pool yields one of its entries.
pub open spec fn dialogue_ok(
    t: DialogueTable,
    affection: int,
    trust: int,
    tod: Seq<char>,
    o: Option<&str>,
    last: Seq<char>,
    r: Seq<char>,
) -> bool {
    let pool = dialogue_pool(t, affection, trust, tod, chosen_action(o, last));
    let tl = treat_lines(t, affection);
    if is_treat_override(o) && tl.len() > 0 {
        exists|i: int| 0 <= i < tl.len() && r == tl[i]@
    } else if pool.len() == 0 {
        r == "..."@
    } else {
        exists|i: int| 0 <= i < pool.len() && r == pool[i]@
    }
}

/// The line picked once chance has chosen the number `k`: the pick is
/// taken in the treat sub-tier or the pool at position `k` modulo the
/// list's length, so every `k` names a definite line.
pub open spec fn dialogue_choice(
    t: DialogueTable,
    affection: int,
    trust: int,
    tod: Seq<char>,
    o: Option<&str>,
    last: Seq<char>,
    k: int,
) -> Seq<char> {
    let pool = dialogue_pool(t, affection, trust, tod, chosen_action(o, last));
    let tl = treat_lines(t, affection);
    if is_treat_override(o) && tl.len() > 0 {
        tl[k % (tl.len() as int)]@
    } else if pool.len() == 0 {
        "..."@
    } else {
        pool[k % (pool.len() as int)]@
    }
}

/// Law: a selection against the empty table is always the sentinel.
pub proof fn lemma_empty_table_dialogue(
    t: DialogueTable,
    affection: int,
    trust: int,
    tod: Seq<char>,
    o: Option<&str>,
    last: Seq<char>,
    r: Seq<char>,
)
    requires
        is_empty_table(t),
        dialogue_ok(t, affection, trust, tod, o, last, r),
    ensures
        r == "..."@,
{
    let action = chosen_action(o, last);
    lemma_action_entry_none(t.actions@, action);
    lemma_action_entry_none(t.actions@, "give_treat"@);
    assert(dialogue_pool(t, affection, trust, tod, action).len() == 0);
}

/// Law: when a treat was just given and its sub-tier has at least one
/// line, the selected line comes from that sub-tier and nowhere else.
pub proof fn lemma_treat_short_circuit(
    t: DialogueTable,
    affection: int,
    trust: int,
    tod: Seq<char>,
    o: Option<&str>,
    last: Seq<char>,
    r: Seq<char>,
)
    requires
        is_treat_override(o),
        treat_lines(t, affection).len() > 0,
        dialogue_ok(t, affection, trust, tod, o, last, r),
    ensures
        exists|i: int|
            0 <= i < treat_lines(t, affection).len() && r == treat_lines(t, affection)[i]@,
{
}

/// An entry whose name matches, with no earlier match, is the entry the
/// table lookup finds.
pub proof fn lemma_action_entry_index(entries: Seq<ActionDialogues>, action: Seq<char>, i: int)
    requires
        0 <= i < entries.len(),
        entries[i].name@ == action,
        forall|j: int| 0 <= j < i ==> entries[j].name@ != action,
    ensures
        action_entry(entries, action) == Some(entries[i]),
    decreases i,
{
    if i == 0 {
    } else {
        lemma_action_entry_index(entries.drop_first(), action, i - 1);
    }
}

/// When no entry's name matches, the table lookup finds nothing.
pub proof fn lemma_action_entry_none(entries: Seq<ActionDialogues>, action: Seq<char>)
    requires
        forall|j: int| 0 <= j < entries.len() ==> entries[j].name@ != action,
    ensures
        action_entry(entries, action) is None,
    decreases entries.len(),
{
    if entries.len() == 0 {
    } else {
        lemma_action_entry_none(entries.drop_first(), action);
    }
}

} // verus!
