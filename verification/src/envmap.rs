//! The resolved environment: a mapping from uppercase variable name to
//! value, unique keys, built once from the captured dump and immutable
//! afterwards, plus the parser that builds it from the dump's lines.

use vstd::prelude::*;

use crate::text::{
    chars_of, find_char, find_in, has_prefix, skip_prefix, spec_lines, split_lines, string_of,
    take_prefix, upper_ascii, upper_seq,
};

verus! {

/// A mapping from uppercase variable name to value with unique keys.
pub struct EnvMap {
    entries: Vec<(String, String)>,
}

/// The mathematical content of an entry list: later entries win.
pub open spec fn entries_map(es: Seq<(String, String)>) -> Map<Seq<char>, Seq<char>>
    decreases es.len(),
{
    if es.len() == 0 {
        Map::empty()
    } else {
        entries_map(es.drop_last()).insert(es.last().0@, es.last().1@)
    }
}

impl View for EnvMap {
    type V = Map<Seq<char>, Seq<char>>;

    closed spec fn view(&self) -> Map<Seq<char>, Seq<char>> {
        entries_map(self.entries@)
    }
}

proof fn lemma_entries_map_contains(es: Seq<(String, String)>, k: Seq<char>)
    ensures
        entries_map(es).contains_key(k) <==> exists|i: int| 0 <= i < es.len() && es[i].0@ == k,
    decreases es.len(),
{
    if es.len() > 0 {
        lemma_entries_map_contains(es.drop_last(), k);
        if entries_map(es).contains_key(k) {
            if es.last().0@ == k {
                assert(es[es.len() - 1].0@ == k);
            } else {
                let i = choose|i: int| 0 <= i < es.drop_last().len() && es.drop_last()[i].0@ == k;
                assert(es[i].0@ == k);
            }
        }
        if exists|i: int| 0 <= i < es.len() && es[i].0@ == k {
            let i = choose|i: int| 0 <= i < es.len() && es[i].0@ == k;
            if i < es.len() - 1 {
                assert(es.drop_last()[i].0@ == k);
            }
        }
    }
}

proof fn lemma_entries_map_at(es: Seq<(String, String)>, i: int)
    requires
        0 <= i < es.len(),
        forall|a: int, b: int| 0 <= a < b < es.len() ==> es[a].0@ != es[b].0@,
    ensures
        entries_map(es).contains_key(es[i].0@),
        entries_map(es)[es[i].0@] == es[i].1@,
    decreases es.len(),
{
    lemma_entries_map_contains(es, es[i].0@);
    if i < es.len() - 1 {
        assert(es.last().0@ != es[i].0@);
        assert(es.drop_last()[i] == es[i]);
        lemma_entries_map_at(es.drop_last(), i);
    }
}

impl EnvMap {
    /// Well-formed: keys are pairwise distinct and already uppercase.
    pub closed spec fn wf(&self) -> bool {
        &&& forall|a: int, b: int|
            0 <= a < b < self.entries@.len() ==> self.entries@[a].0@ != self.entries@[b].0@
        &&& forall|i: int|
            0 <= i < self.entries@.len() ==> upper_seq(#[trigger] self.entries@[i].0@)
                == self.entries@[i].0@
    }

    pub fn new() -> (r: EnvMap)
        ensures
            r.wf(),
            r@ == Map::<Seq<char>, Seq<char>>::empty(),
    {
        EnvMap { entries: Vec::new() }
    }

    /// Every key of the map is uppercase.
    pub proof fn lemma_keys_upper(&self, k: Seq<char>)
        requires
            self.wf(),
            self@.contains_key(k),
        ensures
            upper_seq(k) == k,
    {
        lemma_entries_map_contains(self.entries@, k);
    }

    /// Looks a key up exactly (no case folding here).
    pub fn lookup(&self, key: &String) -> (r: Option<String>)
        requires
            self.wf(),
        ensures
            match r {
                Some(v) => self@.contains_key(key@) && v@ == self@[key@],
                None => !self@.contains_key(key@),
            },
    {
        let mut i: usize = 0;
        while i < self.entries.len()
            invariant
                self.wf(),
                i <= self.entries.len(),
                forall|j: int| 0 <= j < i ==> self.entries@[j].0@ != key@,
            decreases self.entries.len() - i,
        {
            if self.entries[i].0.eq(key) {
                proof {
                    lemma_entries_map_at(self.entries@, i as int);
                }
                return Some(self.entries[i].1.clone());
            }
            i = i + 1;
        }
        proof {
            lemma_entries_map_contains(self.entries@, key@);
        }
        None
    }

    /// Inserts or replaces; the key must already be uppercase.
    pub fn insert(&mut self, key: String, value: String)
        requires
            old(self).wf(),
            upper_seq(key@) == key@,
        ensures
            final(self).wf(),
            final(self)@ == old(self)@.insert(key@, value@),
    {
        let mut i: usize = 0;
        while i < self.entries.len()
            invariant
                *self == *old(self),
                self.wf(),
                upper_seq(key@) == key@,
                i <= self.entries.len(),
                forall|j: int| 0 <= j < i ==> self.entries@[j].0@ != key@,
            decreases self.entries.len() - i,
        {
            if self.entries[i].0.eq(&key) {
                proof {
                    lemma_set_entry(self.entries@, i as int, key@, value@);
                }
                let ghost es_old = self.entries@;
                self.entries.set(i, (key, value));
                proof {
                    assert forall|a: int, b: int|
                        0 <= a < b < self.entries@.len() implies self.entries@[a].0@
                        != self.entries@[b].0@ by {
                        assert(es_old[a].0@ != es_old[b].0@);
                        assert(es_old[i as int].0@ == key@);
                    }
                    assert forall|j: int| 0 <= j < self.entries@.len() implies upper_seq(
                        #[trigger] self.entries@[j].0@,
                    ) == self.entries@[j].0@ by {
                        if j != i {
                            assert(upper_seq(es_old[j].0@) == es_old[j].0@);
                        }
                    }
                }
                return ;
            }
            i = i + 1;
        }
        let ghost es_old = self.entries@;
        proof {
            assert(self.entries@.push((key, value)).drop_last() =~= self.entries@);
        }
        self.entries.push((key, value));
        proof {
            assert forall|a: int, b: int|
                0 <= a < b < self.entries@.len() implies self.entries@[a].0@
                != self.entries@[b].0@ by {
                if b < self.entries@.len() - 1 {
                    assert(es_old[a].0@ != es_old[b].0@);
                } else {
                    assert(es_old[a].0@ != key@);
                }
            }
            assert forall|j: int| 0 <= j < self.entries@.len() implies upper_seq(
                #[trigger] self.entries@[j].0@,
            ) == self.entries@[j].0@ by {
                if j < self.entries@.len() - 1 {
                    assert(upper_seq(es_old[j].0@) == es_old[j].0@);
                }
            }
        }
    }
}

/// Replacing the entry whose key matches rewrites the map at that key.
proof fn lemma_set_entry(es: Seq<(String, String)>, i: int, k: Seq<char>, v: Seq<char>)
    requires
        0 <= i < es.len(),
        es[i].0@ == k,
        forall|a: int, b: int| 0 <= a < b < es.len() ==> es[a].0@ != es[b].0@,
    ensures
        forall|key: String, value: String|
            (key@ == k && value@ == v) ==> entries_map(
                #[trigger] es.update(i, (key, value)),
            ) =~= entries_map(es).insert(k, v),
    decreases es.len(),
{
    assert forall|key: String, value: String| (key@ == k && value@ == v) implies entries_map(
        #[trigger] es.update(i, (key, value)),
    ) =~= entries_map(es).insert(k, v) by {
        let es2 = es.update(i, (key, value));
        if i == es.len() - 1 {
            assert(es2.drop_last() =~= es.drop_last());
            assert(es2.last() == (key, value));
        } else {
            assert(es2.last() == es.last());
            assert(es2.drop_last() =~= es.drop_last().update(i, (key, value)));
            lemma_set_entry(es.drop_last(), i, k, v);
            assert(entries_map(es.drop_last().update(i, (key, value))) =~= entries_map(
                es.drop_last(),
            ).insert(k, v));
            assert(es.last().0@ != k);
        }
    }
}

// ---------------------------------------------------------------------------
// Case-insensitive querying
// ---------------------------------------------------------------------------

/// What a query for `name` answers on map `m`: names are folded to
/// uppercase before they are used as keys.
pub open spec fn get_spec(m: Map<Seq<char>, Seq<char>>, name: Seq<char>) -> Option<Seq<char>> {
    if m.contains_key(upper_seq(name)) {
        Some(m[upper_seq(name)])
    } else {
        None
    }
}

/// Lookups are case-insensitive: a name, its uppercased form and its
/// lowercased form all address the same entry.
pub proof fn lemma_get_case_insensitive(m: Map<Seq<char>, Seq<char>>, name: Seq<char>)
    ensures
        get_spec(m, upper_seq(name)) == get_spec(m, name),
        get_spec(m, crate::text::lower_seq(name)) == get_spec(m, name),
{
    crate::text::lemma_upper_idempotent(name);
    crate::text::lemma_upper_of_lower(name);
}

// ---------------------------------------------------------------------------
// Parsing the captured environment dump
// ---------------------------------------------------------------------------

/// One pass over the dump's lines from position `i`: lines are skipped until
/// one starts with the separator; after that, each line with a `=` becomes
/// an entry (name before the first `=`, uppercased; value after it) and a
/// line without one is ignored.
pub open spec fn parse_from(
    lines: Seq<Seq<char>>,
    sep: Seq<char>,
    i: int,
    collecting: bool,
    acc: Map<Seq<char>, Seq<char>>,
) -> Map<Seq<char>, Seq<char>>
    decreases lines.len() - i,
{
    if i < 0 || i >= lines.len() {
        acc
    } else {
        let l = lines[i];
        if collecting {
            let j = find_char(l, '=');
            if 0 <= j < l.len() {
                parse_from(
                    lines,
                    sep,
                    i + 1,
                    true,
                    acc.insert(upper_seq(l.take(j)), l.skip(j + 1)),
                )
            } else {
                parse_from(lines, sep, i + 1, true, acc)
            }
        } else {
            if sep.is_prefix_of(l) {
                parse_from(lines, sep, i + 1, true, acc)
            } else {
                parse_from(lines, sep, i + 1, false, acc)
            }
        }
    }
}

/// The map parsed out of a captured dump.
pub open spec fn parse_dump_spec(text: Seq<char>, sep: Seq<char>) -> Map<Seq<char>, Seq<char>> {
    parse_from(spec_lines(text), sep, 0, false, Map::empty())
}

/// Parses a captured environment dump: everything up to the line that starts
/// with `separator` is ignored; after it, each `NAME=value` line is upserted
/// with the name uppercased, and a line with no `=` is ignored. No separator
/// found gives the empty map.
pub fn parse_env_dump(text: &str, separator: &str) -> (r: EnvMap)
    ensures
        r.wf(),
        r@ == parse_dump_spec(text@, separator@),
{
    let tv = chars_of(text);
    let sv = chars_of(separator);
    let lines = split_lines(&tv);
    let mut env = EnvMap::new();
    let mut collecting = false;
    let mut i: usize = 0;
    while i < lines.len()
        invariant
            i <= lines.len(),
            env.wf(),
            lines.deep_view() == spec_lines(text@),
            sv@ == separator@,
            parse_dump_spec(text@, separator@) == parse_from(
                lines.deep_view(),
                separator@,
                i as int,
                collecting,
                env@,
            ),
        decreases lines.len() - i,
    {
        let ghost dv = lines.deep_view();
        let ghost env_before = env@;
        let ghost collecting_before = collecting;
        let line = &lines[i];
        proof {
            assert(line@ == dv[i as int]);
        }
        if collecting {
            let j = find_in(line, '=');
            if j < line.len() {
                let keyc = take_prefix(line, j);
                let valc = skip_prefix(line, j + 1);
                let key = upper_ascii(string_of(&keyc).as_str());
                let value = string_of(&valc);
                proof {
                    crate::text::lemma_upper_idempotent(keyc@);
                }
                env.insert(key, value);
            }
        } else {
            if has_prefix(line, &sv) {
                collecting = true;
            }
        }
        i = i + 1;
        proof {
            assert(parse_from(dv, separator@, i - 1, collecting_before, env_before) == parse_from(
                dv,
                separator@,
                i as int,
                collecting,
                env@,
            ));
        }
    }
    env
}

} // verus!
