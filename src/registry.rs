//! The macro registry: the built-in `DATE` macro and the user's macros, each
//! bound to the producer of its text. A later binding of a name overrides an
//! earlier one, and the built-in goes in first.

use vstd::prelude::*;
use vstd::string::StrSliceExecFns;
use crate::config::{assoc, pair_views, Config};
use crate::date::{iso_text, journal_day, now, resolve_today, CalendarDate, LocalTime};
use crate::preprocessor::{calls, macro_calls, name_views};
use crate::text::{is_whitespace, push_char, whitespace};

verus! {

/// What a macro's text comes from.
#[derive(Debug)]
pub enum Producer {
    /// The journal day, as `YYYY-MM-DD`.
    Date,
    /// The standard output of a command line.
    Command(String),
}

/// A producer as a value of specifications.
pub enum Source {
    Date,
    Command(Seq<char>),
}

impl Producer {
    pub open spec fn source(&self) -> Source {
        match self {
            Producer::Date => Source::Date,
            Producer::Command(c) => Source::Command(c@),
        }
    }

    /// A copy of the producer.
    pub fn duplicate(&self) -> (r: Producer)
        ensures
            r.source() == self.source(),
    {
        match self {
            Producer::Date => Producer::Date,
            Producer::Command(c) => Producer::Command(c.clone()),
        }
    }
}

pub open spec fn date_name() -> Seq<char> {
    seq!['D', 'A', 'T', 'E']
}

pub open spec fn lookup<V>(m: Map<Seq<char>, V>, k: Seq<char>) -> Option<V> {
    if m.contains_key(k) {
        Some(m[k])
    } else {
        None
    }
}

/// The producer that a name resolves to, given the user's macros: the
/// user's binding, else the built-in `DATE`, else none.
pub open spec fn resolve(user: Map<Seq<char>, Seq<char>>, name: Seq<char>) -> Option<Source> {
    if user.contains_key(name) {
        Some(Source::Command(user[name]))
    } else if name == date_name() {
        Some(Source::Date)
    } else {
        None
    }
}

pub open spec fn entry_views(v: Seq<(String, Producer)>) -> Seq<(Seq<char>, Source)> {
    v.map_values(|e: (String, Producer)| (e.0@, e.1.source()))
}

pub open spec fn as_sources(v: Seq<(Seq<char>, Seq<char>)>) -> Seq<(Seq<char>, Source)> {
    v.map_values(|e: (Seq<char>, Seq<char>)| (e.0, Source::Command(e.1)))
}

pub open spec fn opt_source(p: Option<Producer>) -> Option<Source> {
    match p {
        Some(q) => Some(q.source()),
        None => None,
    }
}

/// The built-in entry followed by the user's, read as a map, resolves names
/// as [`resolve`] says.
pub proof fn lemma_registry_resolves(user: Seq<(Seq<char>, Seq<char>)>, name: Seq<char>)
    ensures
        lookup(assoc(seq![(date_name(), Source::Date)] + as_sources(user)), name) == resolve(
            assoc(user),
            name,
        ),
    decreases user.len(),
{
    let all = seq![(date_name(), Source::Date)] + as_sources(user);
    if user.len() == 0 {
        assert(all.drop_last() =~= Seq::<(Seq<char>, Source)>::empty());
        assert(all.last() == (date_name(), Source::Date));
        assert(assoc(user) =~= Map::<Seq<char>, Seq<char>>::empty());
        assert(assoc(all.drop_last()) =~= Map::<Seq<char>, Source>::empty());
        assert(assoc(all) == Map::<Seq<char>, Source>::empty().insert(date_name(), Source::Date));
    } else {
        let l = user.last();
        lemma_registry_resolves(user.drop_last(), name);
        assert(all.drop_last() =~= seq![(date_name(), Source::Date)] + as_sources(user.drop_last()));
        assert(all.last() == (l.0, Source::Command(l.1)));
        assert(assoc(user) == assoc(user.drop_last()).insert(l.0, l.1));
        assert(assoc(all) == assoc(all.drop_last()).insert(l.0, Source::Command(l.1)));
        if name == l.0 {
            assert(assoc(user).contains_key(name));
        } else {
            assert(assoc(user).contains_key(name) == assoc(user.drop_last()).contains_key(name));
            assert(assoc(all).contains_key(name) == assoc(all.drop_last()).contains_key(name));
        }
    }
}

/// The macros of one command, by name.
pub struct Registry {
    entries: Vec<(String, Producer)>,
}

impl Registry {
    /// The bindings, in order of insertion.
    pub closed spec fn bindings(&self) -> Seq<(Seq<char>, Source)> {
        entry_views(self.entries@)
    }

    /// The registry read as a map.
    pub open spec fn table(&self) -> Map<Seq<char>, Source> {
        assoc(self.bindings())
    }

    /// The producer bound to a name, if any.
    pub fn get(&self, name: &String) -> (r: Option<Producer>)
        ensures
            opt_source(r) == lookup(self.table(), name@),
    {
        let mut found: Option<Producer> = None;
        let mut i: usize = 0;
        while i < self.entries.len()
            invariant
                i <= self.entries.len(),
                opt_source(found) == lookup(assoc(entry_views(self.entries@.take(i as int))), name@),
            decreases self.entries.len() - i,
        {
            let ghost t = entry_views(self.entries@.take(i as int + 1));
            assert(t.drop_last() =~= entry_views(self.entries@.take(i as int)));
            assert(t.last() == (self.entries@[i as int].0@, self.entries@[i as int].1.source()));
            if self.entries[i].0 == *name {
                found = Some(self.entries[i].1.duplicate());
            }
            i = i + 1;
        }
        assert(self.entries@.take(self.entries.len() as int) =~= self.entries@);
        found
    }

    /// For each macro occurrence of `text`, in document order, the producer
    /// to run; `None` for an unknown name, whose occurrence expands to nothing.
    pub fn producers_for(&self, text: &str) -> (r: Vec<Option<Producer>>)
        ensures
            r.len() == calls(text@).len(),
            forall|i: int|
                0 <= i < r.len() ==> opt_source(#[trigger] r@[i]) == lookup(self.table(), calls(text@)[i]),
    {
        let names = macro_calls(text);
        let mut out: Vec<Option<Producer>> = Vec::new();
        let mut i: usize = 0;
        while i < names.len()
            invariant
                i <= names.len(),
                out.len() == i,
                name_views(names@) == calls(text@),
                forall|j: int|
                    0 <= j < i ==> opt_source(#[trigger] out@[j]) == lookup(self.table(), calls(text@)[j]),
            decreases names.len() - i,
        {
            assert(name_views(names@)[i as int] == names@[i as int]@);
            out.push(self.get(&names[i]));
            i = i + 1;
        }
        out
    }
}

/// Builds the registry of a configuration: `DATE` first, then the user's
/// macros in their stored order.
pub fn build_registry(config: &Config) -> (r: Registry)
    ensures
        forall|name: Seq<char>| lookup(#[trigger] r.table(), name) == resolve(config.macro_map(), name),
{
    let mut entries: Vec<(String, Producer)> = Vec::new();
    proof {
        reveal_strlit("DATE");
    }
    let date = "DATE".to_string();
    assert(date@ =~= date_name());
    entries.push((date, Producer::Date));
    let ghost user = config.macro_entries();
    assert(entry_views(entries@) =~= seq![(date_name(), Source::Date)] + as_sources(user.take(0)));
    match &config.macros {
        Some(v) => {
            let mut i: usize = 0;
            while i < v.len()
                invariant
                    i <= v.len(),
                    user == pair_views(v@),
                    entry_views(entries@) == seq![(date_name(), Source::Date)] + as_sources(
                        user.take(i as int),
                    ),
                decreases v.len() - i,
            {
                let ghost before = entry_views(entries@);
                let e = (v[i].0.clone(), Producer::Command(v[i].1.clone()));
                assert(e.1.source() == Source::Command(user[i as int].1));
                entries.push(e);
                assert(entry_views(entries@) =~= before.push((user[i as int].0, Source::Command(user[i as int].1))));
                assert(user.take(i as int + 1) =~= user.take(i as int).push(user[i as int]));
                assert(as_sources(user.take(i as int + 1)) =~= as_sources(user.take(i as int)).push(
                    (user[i as int].0, Source::Command(user[i as int].1)),
                ));
                assert(entry_views(entries@) =~= seq![(date_name(), Source::Date)] + as_sources(
                    user.take(i as int + 1),
                ));
                i = i + 1;
            }
            assert(user.take(v.len() as int) =~= user);
        },
        None => {},
    }
    let r = Registry { entries };
    assert forall|name: Seq<char>| lookup(#[trigger] r.table(), name) == resolve(config.macro_map(), name) by {
        assert(user.take(user.len() as int) =~= user);
        lemma_registry_resolves(user, name);
    }
    r
}

/// What [`date_text`] promises of its result at time `now`.
pub open spec fn date_text_of(now: LocalTime, midnight_offset: u32, r: Option<String>) -> bool {
    let d = journal_day(now, midnight_offset);
    &&& r is Some <==> d is Some
    &&& r is Some && 0 <= d->0.year <= 9999 ==> r->0@ == iso_text(d->0)
}

/// The text of the `DATE` macro at a given time: the journal day as
/// `YYYY-MM-DD`. `None` where the journal day cannot be represented.
pub fn date_text(now: LocalTime, midnight_offset: u32) -> (r: Option<String>)
    requires
        now.wf(),
    ensures
        r is Some <==> journal_day(now, midnight_offset) is Some,
        r is Some && 0 <= journal_day(now, midnight_offset)->0.year <= 9999 ==> r->0@ == iso_text(
            journal_day(now, midnight_offset)->0,
        ),
{
    match resolve_today(now, midnight_offset) {
        Some(d) => Some(d.iso_string()),
        None => None,
    }
}

/// Runs the `DATE` producer: reads the clock and formats the journal day.
pub fn produce_date(midnight_offset: Option<u32>) -> (r: Option<String>)
    ensures
        exists|t: LocalTime|
            t.wf() && date_text_of(t, if midnight_offset is Some { midnight_offset->0 } else { 0 }, r),
{
    let offset: u32 = match midnight_offset {
        Some(o) => o,
        None => 0,
    };
    let t = now();
    let r = date_text(t, offset);
    assert(t.wf() && date_text_of(t, offset, r));
    r
}

/// The words of `s`, separated by white space, starting with the word
/// collected so far in `cur`.
pub open spec fn words_from(s: Seq<char>, cur: Seq<char>) -> Seq<Seq<char>>
    decreases s.len(),
{
    if s.len() == 0 {
        if cur.len() > 0 { seq![cur] } else { seq![] }
    } else if whitespace(s[0]) {
        (if cur.len() > 0 { seq![cur] } else { seq![] }) + words_from(s.drop_first(), seq![])
    } else {
        words_from(s.drop_first(), cur.push(s[0]))
    }
}

pub open spec fn words(s: Seq<char>) -> Seq<Seq<char>> {
    words_from(s, seq![])
}

/// Splits a command line at white space into its words.
pub fn split_words(s: &str) -> (r: Vec<String>)
    ensures
        name_views(r@) == words(s@),
{
    let n = s.unicode_len();
    let mut out: Vec<String> = Vec::new();
    let mut cur = String::new();
    let mut i: usize = 0;
    assert(s@.skip(0) =~= s@);
    assert(name_views(out@) + words(s@) =~= words(s@));
    while i < n
        invariant
            n == s@.len(),
            i <= n,
            words(s@) == name_views(out@) + words_from(s@.skip(i as int), cur@),
        decreases n - i,
    {
        let c = s.get_char(i);
        let ghost before = out@;
        let ghost w = cur@;
        assert(s@.skip(i as int).drop_first() =~= s@.skip(i as int + 1));
        if is_whitespace(c) {
            if cur.unicode_len() > 0 {
                let done = cur;
                cur = String::new();
                out.push(done);
                assert(name_views(out@) =~= name_views(before) + seq![w]);
            } else {
                cur = String::new();
                assert(name_views(out@) =~= name_views(before));
            }
            assert(name_views(out@) + words_from(s@.skip(i as int + 1), cur@) =~= name_views(before)
                + ((if w.len() > 0 { seq![w] } else { seq![] }) + words_from(s@.skip(i as int + 1), seq![])));
        } else {
            push_char(&mut cur, c);
        }
        i = i + 1;
    }
    if cur.unicode_len() > 0 {
        let ghost before = out@;
        let ghost w = cur@;
        out.push(cur);
        assert(name_views(out@) =~= name_views(before) + seq![w]);
    } else {
        assert(name_views(out@) =~= name_views(out@) + Seq::<Seq<char>>::empty());
    }
    assert(s@.skip(n as int).len() == 0);
    out
}

/// A command line split into its program and arguments; `None` for a line
/// without words, which names no program to start.
pub fn split_command(command: &str) -> (r: Option<(String, Vec<String>)>)
    ensures
        r is None <==> words(command@).len() == 0,
        r matches Some((p, a)) ==> seq![p@] + name_views(a@) == words(command@),
{
    let mut ws = split_words(command);
    if ws.len() == 0 {
        None
    } else {
        let ghost all = ws@;
        let program = ws.remove(0);
        assert(seq![program@] + name_views(ws@) =~= name_views(all));
        Some((program, ws))
    }
}

} // verus!
