//! The stored configuration and the edits that commands make to it.

use vstd::prelude::*;
use crate::args;
use crate::text::is_blank;

verus! {

/// The map that an association list stands for: the last entry for a name wins.
pub open spec fn assoc<V>(entries: Seq<(Seq<char>, V)>) -> Map<Seq<char>, V>
    decreases entries.len(),
{
    if entries.len() == 0 {
        Map::empty()
    } else {
        assoc(entries.drop_last()).insert(entries.last().0, entries.last().1)
    }
}

/// The entries whose name differs from `key`, in their order.
pub open spec fn without<V>(entries: Seq<(Seq<char>, V)>, key: Seq<char>) -> Seq<(Seq<char>, V)>
    decreases entries.len(),
{
    if entries.len() == 0 {
        entries
    } else if entries.last().0 == key {
        without(entries.drop_last(), key)
    } else {
        without(entries.drop_last(), key).push(entries.last())
    }
}

pub open spec fn pair_views(v: Seq<(String, String)>) -> Seq<(Seq<char>, Seq<char>)> {
    v.map_values(|p: (String, String)| (p.0@, p.1@))
}

/// Dropping the entries of a name removes that name from the map.
pub proof fn lemma_assoc_without<V>(entries: Seq<(Seq<char>, V)>, key: Seq<char>)
    ensures
        assoc(without(entries, key)) == assoc(entries).remove(key),
    decreases entries.len(),
{
    if entries.len() == 0 {
        assert(assoc(entries).remove(key) =~= assoc(entries));
    } else {
        let p = entries.drop_last();
        let l = entries.last();
        lemma_assoc_without(p, key);
        if l.0 == key {
            assert(assoc(entries).remove(key) =~= assoc(p).remove(key));
        } else {
            assert(without(p, key).push(l).drop_last() =~= without(p, key));
            assert(assoc(without(entries, key)) =~= assoc(entries).remove(key));
        }
    }
}

/// Appending an entry inserts it into the map.
pub proof fn lemma_assoc_push<V>(entries: Seq<(Seq<char>, V)>, e: (Seq<char>, V))
    ensures
        assoc(entries.push(e)) == assoc(entries).insert(e.0, e.1),
{
    assert(entries.push(e).drop_last() =~= entries);
}

/// The entries of `v` under another name than `key`.
fn entries_without(v: &Vec<(String, String)>, key: &String) -> (r: Vec<(String, String)>)
    ensures
        pair_views(r@) == without(pair_views(v@), key@),
{
    let mut out: Vec<(String, String)> = Vec::new();
    let mut i: usize = 0;
    while i < v.len()
        invariant
            i <= v.len(),
            pair_views(out@) == without(pair_views(v@.take(i as int)), key@),
        decreases v.len() - i,
    {
        let ghost before = out@;
        assert(pair_views(v@.take(i as int + 1)).drop_last() =~= pair_views(v@.take(i as int)));
        assert(pair_views(v@.take(i as int + 1)).last() == (v@[i as int].0@, v@[i as int].1@));
        if !(v[i].0 == *key) {
            out.push((v[i].0.clone(), v[i].1.clone()));
            assert(pair_views(out@) =~= pair_views(before).push((v@[i as int].0@, v@[i as int].1@)));
        }
        i = i + 1;
    }
    assert(v@.take(v.len() as int) =~= v@);
    out
}

/// The stored configuration. Absent values fall back to their defaults where
/// they are used.
#[derive(Debug)]
pub struct Config {
    pub editor: Option<String>,
    pub path: Option<String>,
    pub extension: Option<String>,
    pub midnight_offset: Option<u32>,
    pub macros: Option<Vec<(String, String)>>,
}

/// A fatal condition of a command.
#[derive(Clone, Copy, Debug, PartialEq, Eq, Structural)]
pub enum JournalError {
    MissingEditor,
    MissingJournalPath,
    EditorLaunch,
    MacroLaunch,
    AddFailed,
    CommitFailed,
    PushFailed,
}

/// The message printed for an error.
pub open spec fn error_text(e: JournalError) -> Seq<char> {
    match e {
        JournalError::MissingEditor => "Text editor wasn't set in config, nor EDITOR env variable was defined"@,
        JournalError::MissingJournalPath => "Journal path not set in config."@,
        JournalError::EditorLaunch => "Failed to start editor"@,
        JournalError::MacroLaunch => "Failed to start custom macro"@,
        JournalError::AddFailed => "Failed to add changes."@,
        JournalError::CommitFailed => "Failed to commit file."@,
        JournalError::PushFailed => "Failed to push changes."@,
    }
}

impl JournalError {
    /// The message printed for the error.
    pub fn message(&self) -> (r: String)
        ensures
            r@ == error_text(*self),
            r@.len() > 0,
    {
        let r = match self {
            JournalError::MissingEditor => "Text editor wasn't set in config, nor EDITOR env variable was defined",
            JournalError::MissingJournalPath => "Journal path not set in config.",
            JournalError::EditorLaunch => "Failed to start editor",
            JournalError::MacroLaunch => "Failed to start custom macro",
            JournalError::AddFailed => "Failed to add changes.",
            JournalError::CommitFailed => "Failed to commit file.",
            JournalError::PushFailed => "Failed to push changes.",
        };
        proof {
            reveal_strlit("Text editor wasn't set in config, nor EDITOR env variable was defined");
            reveal_strlit("Journal path not set in config.");
            reveal_strlit("Failed to start editor");
            reveal_strlit("Failed to start custom macro");
            reveal_strlit("Failed to add changes.");
            reveal_strlit("Failed to commit file.");
            reveal_strlit("Failed to push changes.");
        }
        r.to_string()
    }
}

impl Default for Config {
    fn default() -> (r: Config)
        ensures
            r.editor is None,
            r.path is None,
            r.extension is None,
            r.midnight_offset is None,
            r.macros is None,
    {
        Config { editor: None, path: None, extension: None, midnight_offset: None, macros: None }
    }
}

impl Config {
    /// The user-defined macros as stored, name and command.
    pub open spec fn macro_entries(&self) -> Seq<(Seq<char>, Seq<char>)> {
        match self.macros {
            Some(v) => pair_views(v@),
            None => seq![],
        }
    }

    /// The user-defined macros, name to command.
    pub open spec fn macro_map(&self) -> Map<Seq<char>, Seq<char>> {
        assoc(self.macro_entries())
    }

    /// Binds a macro name to a command, replacing an earlier binding.
    pub fn add_macro(&mut self, name: String, command: String)
        ensures
            final(self).macro_map() == old(self).macro_map().insert(name@, command@),
            final(self).macros is Some,
            final(self).editor == old(self).editor,
            final(self).path == old(self).path,
            final(self).extension == old(self).extension,
            final(self).midnight_offset == old(self).midnight_offset,
    {
        let mut kept = match &self.macros {
            Some(v) => entries_without(v, &name),
            None => Vec::new(),
        };
        let ghost k = pair_views(kept@);
        let ghost nv = name@;
        let ghost cv = command@;
        proof {
            match old(self).macros {
                Some(v) => lemma_assoc_without(pair_views(v@), name@),
                None => {},
            }
        }
        kept.push((name, command));
        proof {
            assert(pair_views(kept@) =~= k.push((nv, cv)));
            lemma_assoc_push(k, (nv, cv));
            assert(assoc(k) =~= old(self).macro_map().remove(nv));
            assert(assoc(pair_views(kept@)) =~= old(self).macro_map().insert(nv, cv));
        }
        self.macros = Some(kept);
    }

    /// Removes the binding of a macro name, if there is one.
    pub fn remove_macro(&mut self, name: &String)
        ensures
            final(self).macro_map() == old(self).macro_map().remove(name@),
            final(self).macros is Some,
            final(self).editor == old(self).editor,
            final(self).path == old(self).path,
            final(self).extension == old(self).extension,
            final(self).midnight_offset == old(self).midnight_offset,
    {
        let kept = match &self.macros {
            Some(v) => entries_without(v, name),
            None => Vec::new(),
        };
        proof {
            match old(self).macros {
                Some(v) => lemma_assoc_without(pair_views(v@), name@),
                None => {
                    assert(pair_views(kept@) =~= Seq::<(Seq<char>, Seq<char>)>::empty());
                    assert(Map::<Seq<char>, Seq<char>>::empty().remove(name@) =~= Map::empty());
                },
            }
        }
        self.macros = Some(kept);
    }

    /// Takes each value given on the command line, keeping the stored one
    /// where none is given.
    pub fn update(&mut self, given: args::Config)
        ensures
            final(self).editor == (if given.editor is Some { given.editor } else { old(self).editor }),
            final(self).path == (if given.path is Some { given.path } else { old(self).path }),
            final(self).extension == (if given.extension is Some { given.extension } else { old(self).extension }),
            final(self).midnight_offset == (if given.midnight_offset is Some { given.midnight_offset } else { old(self).midnight_offset }),
            final(self).macros == old(self).macros,
    {
        if given.editor.is_some() {
            self.editor = given.editor;
        }
        if given.path.is_some() {
            self.path = given.path;
        }
        if given.extension.is_some() {
            self.extension = given.extension;
        }
        if given.midnight_offset.is_some() {
            self.midnight_offset = given.midnight_offset;
        }
    }

    /// The journal's root directory, which must be configured.
    pub fn journal_root(&self) -> (r: Result<String, JournalError>)
        ensures
            self.path is Some ==> r == Ok::<String, JournalError>(self.path->0),
            self.path is None ==> r == Err::<String, JournalError>(JournalError::MissingJournalPath),
    {
        match &self.path {
            Some(p) => Ok(p.clone()),
            None => Err(JournalError::MissingJournalPath),
        }
    }

    /// The page extension; `txt` where none is configured.
    pub fn page_extension(&self) -> (r: String)
        ensures
            self.extension is Some ==> r == self.extension->0,
            self.extension is None ==> r@ == "txt"@,
    {
        match &self.extension {
            Some(e) => e.clone(),
            None => {
                proof {
                    reveal_strlit("txt");
                }
                "txt".to_string()
            },
        }
    }
}

/// Which editor to launch: the configured one, else the environment's value
/// unless that is blank.
pub open spec fn editor_choice(configured: Option<Seq<char>>, env_value: Option<Seq<char>>) -> Result<Seq<char>, JournalError> {
    match configured {
        Some(e) => Ok(e),
        None => match env_value {
            Some(v) if !crate::text::blank(v) => Ok(v),
            _ => Err(JournalError::MissingEditor),
        },
    }
}

pub open spec fn opt_view(o: Option<String>) -> Option<Seq<char>> {
    match o {
        Some(s) => Some(s@),
        None => None,
    }
}

pub open spec fn result_view(r: Result<String, JournalError>) -> Result<Seq<char>, JournalError> {
    match r {
        Ok(s) => Ok(s@),
        Err(e) => Err(e),
    }
}

/// Resolves the editor from the configuration and the `EDITOR` variable's
/// value, as read by the caller.
pub fn resolve_editor(configured: Option<String>, env_value: Option<String>) -> (r: Result<String, JournalError>)
    ensures
        result_view(r) == editor_choice(opt_view(configured), opt_view(env_value)),
{
    match configured {
        Some(e) => Ok(e),
        None => match env_value {
            Some(v) => {
                if !is_blank(v.as_str()) {
                    Ok(v)
                } else {
                    Err(JournalError::MissingEditor)
                }
            },
            None => Err(JournalError::MissingEditor),
        },
    }
}

} // verus!
