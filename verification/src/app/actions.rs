//! The commands that a key chord can stand for, and the set of them that
//! is enabled at a given moment.

use crate::inputs::key::Key;
use std::collections::HashSet;
use vstd::prelude::*;
use vstd::string::*;

verus! {

broadcast use vstd::std_specs::hash::group_hash_axioms;

/// A command of the application, apart from the chord that triggers it.
#[derive(Debug, Clone, Copy, Eq, PartialEq, Structural)]
pub enum Action {
    Quit,
    Tab,
    ShiftTab,
    Up,
    Down,
    Right,
    Left,
    SelectFolder,
    TakeUserInput,
    Escape,
    Enter,
    LogHelp,
    SaveSettings,
}

impl Action {
    /// Every command, in the order in which chords are resolved.
    pub open spec fn catalogue() -> Seq<Action> {
        seq![
            Action::Quit,
            Action::Tab,
            Action::ShiftTab,
            Action::Up,
            Action::Down,
            Action::Right,
            Action::Left,
            Action::SelectFolder,
            Action::TakeUserInput,
            Action::Escape,
            Action::Enter,
            Action::LogHelp,
            Action::SaveSettings,
        ]
    }

    /// The chords that trigger the command.
    pub open spec fn chords(self) -> Seq<Key> {
        match self {
            Action::Quit => seq![Key::Ctrl('c'), Key::Char('q')],
            Action::Tab => seq![Key::Tab],
            Action::ShiftTab => seq![Key::ShiftTab],
            Action::Up => seq![Key::Up],
            Action::Down => seq![Key::Down],
            Action::Right => seq![Key::Right],
            Action::Left => seq![Key::Left],
            Action::SelectFolder => seq![Key::Char('f')],
            Action::TakeUserInput => seq![Key::Char('i')],
            Action::Escape => seq![Key::Esc],
            Action::Enter => seq![Key::Enter],
            Action::LogHelp => seq![Key::Char('h')],
            Action::SaveSettings => seq![Key::Ctrl('s')],
        }
    }

    /// A short description of the command for the user.
    pub open spec fn label(self) -> Seq<char> {
        match self {
            Action::Quit => "Quit"@,
            Action::Tab => "Focus next"@,
            Action::ShiftTab => "Focus previous"@,
            Action::Up => "Go up"@,
            Action::Down => "Go down"@,
            Action::Right => "Go right"@,
            Action::Left => "Go left"@,
            Action::SelectFolder => "Select folder"@,
            Action::TakeUserInput => "Enter input mode"@,
            Action::Escape => "Go to previous mode"@,
            Action::Enter => "Accept"@,
            Action::LogHelp => "Show help"@,
            Action::SaveSettings => "Save settings"@,
        }
    }

    /// Every command, in the order in which chords are resolved.
    pub fn iterator() -> (all: Vec<Action>)
        ensures
            all@ == Action::catalogue(),
    {
        let all = vec![
            Action::Quit,
            Action::Tab,
            Action::ShiftTab,
            Action::Up,
            Action::Down,
            Action::Right,
            Action::Left,
            Action::SelectFolder,
            Action::TakeUserInput,
            Action::Escape,
            Action::Enter,
            Action::LogHelp,
            Action::SaveSettings,
        ];
        assert(all@ =~= Action::catalogue());
        all
    }

    /// The chords that trigger the command.
    pub fn keys(&self) -> (keys: Vec<Key>)
        ensures
            keys@ == self.chords(),
    {
        let keys = match self {
            Action::Quit => vec![Key::Ctrl('c'), Key::Char('q')],
            Action::Tab => vec![Key::Tab],
            Action::ShiftTab => vec![Key::ShiftTab],
            Action::Up => vec![Key::Up],
            Action::Down => vec![Key::Down],
            Action::Right => vec![Key::Right],
            Action::Left => vec![Key::Left],
            Action::SelectFolder => vec![Key::Char('f')],
            Action::TakeUserInput => vec![Key::Char('i')],
            Action::Escape => vec![Key::Esc],
            Action::Enter => vec![Key::Enter],
            Action::LogHelp => vec![Key::Char('h')],
            Action::SaveSettings => vec![Key::Ctrl('s')],
        };
        assert(keys@ =~= self.chords());
        keys
    }

    /// Every command.
    pub fn all() -> (all: Vec<Action>)
        ensures
            all@ == Action::catalogue(),
    {
        Action::iterator()
    }

    /// The short description of the command.
    pub fn to_string(&self) -> (s: String)
        ensures
            s@ == self.label(),
    {
        match self {
            Action::Quit => String::from_str("Quit"),
            Action::Tab => String::from_str("Focus next"),
            Action::ShiftTab => String::from_str("Focus previous"),
            Action::Up => String::from_str("Go up"),
            Action::Down => String::from_str("Go down"),
            Action::Right => String::from_str("Go right"),
            Action::Left => String::from_str("Go left"),
            Action::SelectFolder => String::from_str("Select folder"),
            Action::TakeUserInput => String::from_str("Enter input mode"),
            Action::Escape => String::from_str("Go to previous mode"),
            Action::Enter => String::from_str("Accept"),
            Action::LogHelp => String::from_str("Show help"),
            Action::SaveSettings => String::from_str("Save settings"),
        }
    }
}

/// The chords that the commands of `actions` claim, entry by entry.
pub open spec fn claimed(actions: Seq<Action>) -> Seq<Key>
    decreases actions.len(),
{
    if actions.len() == 0 {
        Seq::empty()
    } else {
        claimed(actions.drop_last()) + actions.last().chords()
    }
}

/// No chord is claimed twice by the entries of `actions`.
pub open spec fn conflict_free(actions: Seq<Action>) -> bool {
    claimed(actions).no_duplicates()
}

/// `keys[at]` is the first chord of `keys` that occurs earlier in it.
pub open spec fn repeats_at(keys: Seq<Key>, at: int) -> bool {
    &&& 0 <= at < keys.len()
    &&& keys.take(at).no_duplicates()
    &&& keys.take(at).contains(keys[at])
}

/// The first command of `order` that is enabled and has `key` among its
/// chords.
pub open spec fn first_match(order: Seq<Action>, enabled: Seq<Action>, key: Key) -> Option<Action>
    decreases order.len(),
{
    if order.len() == 0 {
        None
    } else if enabled.contains(order[0]) && order[0].chords().contains(key) {
        Some(order[0])
    } else {
        first_match(order.drop_first(), enabled, key)
    }
}

/// The command that `key` stands for while `enabled` is the enabled set.
pub open spec fn resolve(enabled: Seq<Action>, key: Key) -> Option<Action> {
    first_match(Action::catalogue(), enabled, key)
}

/// The entries of `actions` that claim `key`, in order.
pub open spec fn claimants(actions: Seq<Action>, key: Key) -> Seq<Action> {
    actions.filter(|a: Action| a.chords().contains(key))
}

/// The chords of the first entries are the first chords of all entries.
pub proof fn lemma_claimed_take(actions: Seq<Action>, n: int)
    requires
        0 <= n <= actions.len(),
    ensures
        claimed(actions.take(n)).is_prefix_of(claimed(actions)),
        n < actions.len() ==> claimed(actions.take(n + 1)) == claimed(actions.take(n))
            + actions[n].chords(),
    decreases actions.len() - n,
{
    if n == actions.len() {
        assert(actions.take(n) == actions);
    } else {
        assert(actions.take(n + 1).drop_last() == actions.take(n));
        assert(actions.take(n + 1).last() == actions[n]);
        lemma_claimed_take(actions, n + 1);
    }
}

/// In a set without conflict no two entries share a chord.
pub proof fn lemma_no_shared_chord(actions: Seq<Action>, i: int, j: int, key: Key)
    requires
        conflict_free(actions),
        0 <= i < j < actions.len(),
        actions[i].chords().contains(key),
    ensures
        !actions[j].chords().contains(key),
{
    if actions[j].chords().contains(key) {
        lemma_claimed_take(actions, i);
        lemma_claimed_take(actions, j);
        lemma_claimed_take(actions, i + 1);
        lemma_claimed_take(actions, j + 1);
        let all = claimed(actions);
        let a = claimed(actions.take(i));
        let b = claimed(actions.take(j));
        let x = actions[i].chords().index_of(key);
        let y = actions[j].chords().index_of(key);
        lemma_claimed_len(actions, i + 1, j);
        assert(claimed(actions.take(i + 1))[a.len() + x] == key);
        assert(claimed(actions.take(j + 1))[b.len() + y] == key);
        assert(all[a.len() + x] == key);
        assert(all[b.len() + y] == key);
    }
}

/// More entries claim at least as many chords.
pub proof fn lemma_claimed_len(actions: Seq<Action>, m: int, n: int)
    requires
        0 <= m <= n <= actions.len(),
    ensures
        claimed(actions.take(m)).len() <= claimed(actions.take(n)).len(),
    decreases n - m,
{
    if m < n {
        lemma_claimed_take(actions, m);
        lemma_claimed_len(actions, m + 1, n);
    }
}

/// A set in which a chord repeats is not free of conflict.
pub proof fn lemma_repeat_is_conflict(keys: Seq<Key>, at: int)
    requires
        repeats_at(keys, at),
    ensures
        !keys.no_duplicates(),
{
    let earlier = keys.take(at).index_of(keys[at]);
    assert(keys[earlier] == keys[at]);
}

/// At most one place is that of the first repeated chord.
pub proof fn lemma_repeat_unique(keys: Seq<Key>, a: int, b: int)
    requires
        repeats_at(keys, a),
        repeats_at(keys, b),
    ensures
        a == b,
{
    if a < b {
        let e = keys.take(a).index_of(keys[a]);
        assert(keys.take(b)[e] == keys.take(b)[a]);
    } else if b < a {
        let e = keys.take(b).index_of(keys[b]);
        assert(keys.take(a)[e] == keys.take(a)[b]);
    }
}

/// A set of one command is free of conflict.
pub proof fn lemma_single_conflict_free(action: Action)
    ensures
        conflict_free(seq![action]),
{
    let one = seq![action];
    assert(one.drop_last() =~= Seq::<Action>::empty());
    assert(claimed(one.drop_last()) =~= Seq::<Key>::empty());
    assert(claimed(one) =~= action.chords());
}

/// The whole catalogue is free of conflict.
pub proof fn lemma_catalogue_conflict_free()
    ensures
        conflict_free(Action::catalogue()),
{
    let c = Action::catalogue();
    let expected = seq![
        Key::Ctrl('c'),
        Key::Char('q'),
        Key::Tab,
        Key::ShiftTab,
        Key::Up,
        Key::Down,
        Key::Right,
        Key::Left,
        Key::Char('f'),
        Key::Char('i'),
        Key::Esc,
        Key::Enter,
        Key::Char('h'),
        Key::Ctrl('s'),
    ];
    assert(c.take(0) == Seq::<Action>::empty());
    assert(claimed(c.take(0)) =~= expected.take(0));
    lemma_claimed_take(c, 0);
    assert(claimed(c.take(1)) =~= expected.take(2));
    lemma_claimed_take(c, 1);
    assert(claimed(c.take(2)) =~= expected.take(3));
    lemma_claimed_take(c, 2);
    assert(claimed(c.take(3)) =~= expected.take(4));
    lemma_claimed_take(c, 3);
    assert(claimed(c.take(4)) =~= expected.take(5));
    lemma_claimed_take(c, 4);
    assert(claimed(c.take(5)) =~= expected.take(6));
    lemma_claimed_take(c, 5);
    assert(claimed(c.take(6)) =~= expected.take(7));
    lemma_claimed_take(c, 6);
    assert(claimed(c.take(7)) =~= expected.take(8));
    lemma_claimed_take(c, 7);
    assert(claimed(c.take(8)) =~= expected.take(9));
    lemma_claimed_take(c, 8);
    assert(claimed(c.take(9)) =~= expected.take(10));
    lemma_claimed_take(c, 9);
    assert(claimed(c.take(10)) =~= expected.take(11));
    lemma_claimed_take(c, 10);
    assert(claimed(c.take(11)) =~= expected.take(12));
    lemma_claimed_take(c, 11);
    assert(claimed(c.take(12)) =~= expected.take(13));
    lemma_claimed_take(c, 12);
    assert(claimed(c.take(13)) =~= expected.take(14));
    assert(c.take(13) == c);
    assert(expected.take(14) == expected);
    assert(claimed(c) =~= expected);
}

/// The enabled commands. No chord triggers two of them.
#[derive(Debug)]
pub struct Actions(Vec<Action>);

impl Clone for Actions {
    fn clone(&self) -> (copy: Actions)
        ensures
            copy@ == self@,
    {
        proof {
            use_type_invariant(self);
        }
        let mut entries: Vec<Action> = Vec::new();
        let mut i: usize = 0;
        while i < self.0.len()
            invariant
                i <= self.0.len(),
                entries@ == self.0@.take(i as int),
            decreases self.0.len() - i,
        {
            entries.push(self.0[i]);
            i += 1;
        }
        assert(self.0@.take(i as int) == self.0@);
        Actions(entries)
    }
}

impl View for Actions {
    type V = Seq<Action>;

    closed spec fn view(&self) -> Seq<Action> {
        self.0@
    }
}

impl Default for Actions {
    /// The empty set.
    fn default() -> (actions: Actions)
        ensures
            actions@ == Seq::<Action>::empty(),
    {
        Actions(Vec::new())
    }
}

fn position(actions: &Vec<Action>, action: Action) -> (at: Option<usize>)
    ensures
        match at {
            Some(i) => i < actions.len() && actions[i as int] == action,
            None => !actions@.contains(action),
        },
{
    let mut i: usize = 0;
    while i < actions.len()
        invariant
            i <= actions.len(),
            forall|j: int| 0 <= j < i ==> actions[j] != action,
        decreases actions.len() - i,
    {
        if actions[i] == action {
            return Some(i);
        }
        i += 1;
    }
    None
}

fn has_key(keys: &Vec<Key>, key: Key) -> (found: bool)
    ensures
        found == keys@.contains(key),
{
    let mut i: usize = 0;
    while i < keys.len()
        invariant
            i <= keys.len(),
            forall|j: int| 0 <= j < i ==> keys[j] != key,
        decreases keys.len() - i,
    {
        if keys[i] == key {
            return true;
        }
        i += 1;
    }
    false
}

impl Actions {
    #[verifier::type_invariant]
    spec fn inv(self) -> bool {
        conflict_free(self.0@)
    }

    /// The enabled set made of `actions`, or the first chord, in the order
    /// of the entries and of their chords, that an earlier entry claims too.
    pub fn build(actions: Vec<Action>) -> (built: Result<Actions, Key>)
        ensures
            match built {
                Ok(set) => conflict_free(actions@) && set@ == actions@,
                Err(key) => exists|at: int|
                    repeats_at(claimed(actions@), at) && claimed(actions@)[at] == key,
            },
    {
        let mut seen: HashSet<u64> = HashSet::new();
        let ghost mut prefix: Seq<Key> = Seq::empty();
        let mut i: usize = 0;
        assert(actions@.take(0) == Seq::<Action>::empty());
        while i < actions.len()
            invariant
                i <= actions.len(),
                prefix == claimed(actions@.take(i as int)),
                prefix.no_duplicates(),
                forall|k: Key| prefix.contains(k) <==> seen@.contains(k.code()),
            decreases actions.len() - i,
        {
            let keys = actions[i].keys();
            let ghost before = prefix;
            let mut j: usize = 0;
            proof {
                lemma_claimed_take(actions@, i as int);
                lemma_claimed_take(actions@, i + 1);
            }
            while j < keys.len()
                invariant
                    i < actions.len(),
                    j <= keys.len(),
                    keys@ == actions@[i as int].chords(),
                    prefix == before + keys@.take(j as int),
                    (before + keys@).is_prefix_of(claimed(actions@)),
                    prefix.no_duplicates(),
                    forall|k: Key| prefix.contains(k) <==> seen@.contains(k.code()),
                decreases keys.len() - j,
            {
                let key = keys[j];
                let fresh = seen.insert(key.to_code());
                proof {
                    let all = claimed(actions@);
                    let at = prefix.len() as int;
                    let whole = before + keys@;
                    assert(whole[at] == key);
                    assert(whole.take(at) == prefix);
                    assert(all.take(at) == whole.take(at));
                    assert(all[at] == key);
                    assert(prefix.contains(key) <==> !fresh);
                    if fresh {
                        assert(prefix.push(key).no_duplicates()) by {
                            assert forall|x: int, y: int|
                                0 <= x < y < prefix.len() + 1 implies prefix.push(key)[x]
                                != prefix.push(key)[y] by {
                                if y == prefix.len() {
                                    assert(prefix[x] != key);
                                }
                            }
                        }
                        assert forall|k: Key|
                            prefix.push(key).contains(k) <==> seen@.contains(k.code()) by {
                            if k.code() == key.code() {
                                Key::lemma_code_injective(k, key);
                                assert(prefix.push(key)[at] == key);
                            }
                            if prefix.contains(k) {
                                let w = prefix.index_of(k);
                                assert(prefix.push(key)[w] == k);
                            }
                        }
                        assert(keys@.take(j + 1) == keys@.take(j as int).push(key));
                        assert(before + keys@.take(j + 1) == prefix.push(key));
                        prefix = prefix.push(key);
                    } else {
                        assert(repeats_at(all, at));
                    }
                }
                if !fresh {
                    return Err(key);
                }
                j += 1;
            }
            proof {
                assert(keys@.take(j as int) == keys@);
            }
            i += 1;
        }
        proof {
            assert(actions@.take(i as int) == actions@);
        }
        Ok(Actions(actions))
    }

    /// The enabled set made of `actions`, which claim no chord twice.
    pub fn from(actions: Vec<Action>) -> (set: Actions)
        requires
            conflict_free(actions@),
        ensures
            set@ == actions@,
    {
        match Actions::build(actions) {
            Ok(set) => set,
            Err(key) => {
                proof {
                    let at = choose|at: int|
                        repeats_at(claimed(actions@), at) && claimed(actions@)[at] == key;
                    lemma_repeat_is_conflict(claimed(actions@), at);
                }
                vstd::pervasive::unreached()
            },
        }
    }

    /// The command that `key` stands for: the first of the catalogue that
    /// is enabled and has `key` among its chords.
    pub fn find(&self, key: Key) -> (found: Option<&Action>)
        ensures
            match found {
                Some(action) => resolve(self@, key) == Some(*action),
                None => resolve(self@, key) is None,
            },
    {
        let order = Action::iterator();
        let mut i: usize = 0;
        assert(order@.subrange(0, order@.len() as int) == order@);
        while i < order.len()
            invariant
                i <= order.len(),
                order@ == Action::catalogue(),
                resolve(self@, key) == first_match(
                    order@.subrange(i as int, order@.len() as int),
                    self@,
                    key,
                ),
            decreases order.len() - i,
        {
            let action = order[i];
            let keys = action.keys();
            if has_key(&keys, key) {
                match position(&self.0, action) {
                    Some(at) => {
                        return Some(&self.0[at]);
                    },
                    None => {},
                }
            }
            assert(order@.subrange(i as int, order@.len() as int).drop_first() == order@.subrange(
                i + 1,
                order@.len() as int,
            ));
            i += 1;
        }
        None
    }

    /// The enabled commands, in the order in which they were given. No two
    /// of them share a chord.
    pub fn actions(&self) -> (all: &[Action])
        ensures
            all@ == self@,
            conflict_free(self@),
    {
        proof {
            use_type_invariant(self);
        }
        self.0.as_slice()
    }
}

/// The entries of `actions` that claim `key`, in order.
pub fn claimants_of(actions: &Vec<Action>, key: Key) -> (out: Vec<Action>)
    ensures
        out@ == claimants(actions@, key),
{
    let mut out: Vec<Action> = Vec::new();
    let mut i: usize = 0;
    let ghost keep = |a: Action| a.chords().contains(key);
    assert(actions@.take(0) == Seq::<Action>::empty());
    while i < actions.len()
        invariant
            i <= actions.len(),
            keep == |a: Action| a.chords().contains(key),
            out@ == actions@.take(i as int).filter(keep),
        decreases actions.len() - i,
    {
        let keys = actions[i].keys();
        proof {
            assert(actions@.take(i + 1).drop_last() == actions@.take(i as int));
            reveal(Seq::filter);
        }
        if has_key(&keys, key) {
            out.push(actions[i]);
        }
        i += 1;
    }
    assert(actions@.take(i as int) == actions@);
    out
}

/// The labels of `actions`, with a comma and a blank between two of them.
pub open spec fn listed(actions: Seq<Action>) -> Seq<char>
    decreases actions.len(),
{
    if actions.len() == 0 {
        Seq::empty()
    } else if actions.len() == 1 {
        actions[0].label()
    } else {
        listed(actions.drop_last()) + ", "@ + actions.last().label()
    }
}

/// What is reported when `key` is claimed by the entries `by`.
pub open spec fn conflict_text(key: Key, by: Seq<Action>) -> Seq<char> {
    "Conflict key "@ + key.label() + " with actions "@ + listed(by)
}

/// The report of a chord that several entries of `actions` claim.
pub fn conflict_message(actions: &Vec<Action>, key: Key) -> (message: String)
    ensures
        message@ == conflict_text(key, claimants(actions@, key)),
{
    let by = claimants_of(actions, key);
    let mut names = String::new();
    let mut i: usize = 0;
    assert(by@.take(0) == Seq::<Action>::empty());
    while i < by.len()
        invariant
            i <= by.len(),
            names@ == listed(by@.take(i as int)),
        decreases by.len() - i,
    {
        proof {
            assert(by@.take(i + 1).drop_last() == by@.take(i as int));
            assert(by@.take(i + 1).last() == by@[i as int]);
            if i == 0 {
                assert(by@.take(1)[0] == by@[0]);
                assert(names@ + by@[0].label() == by@[0].label());
            }
        }
        if i > 0 {
            names.append(", ");
        }
        let label = by[i].to_string();
        names.append(label.as_str());
        i += 1;
    }
    assert(by@.take(i as int) == by@);
    let mut message = String::from_str("Conflict key ");
    let label = key.to_string();
    message.append(label.as_str());
    message.append(" with actions ");
    message.append(names.as_str());
    message
}

} // verus!
