//! Application state: colour theme, chosen folder, the flag that widens
//! the search to subfolders, an unused in-memory database handle, and the
//! loaded replays.

use vstd::prelude::*;
use crate::replay::{replay_of_file, Replay, ReplayView};

verus! {

/// The colour theme of the user interface.
#[derive(Clone, Copy, Debug, PartialEq, Eq, Structural)]
pub enum Theme {
    Dark,
    Light,
}

/// The theme that one press of the theme button switches to.
pub open spec fn toggled(t: Theme) -> Theme {
    match t {
        Theme::Dark => Theme::Light,
        Theme::Light => Theme::Dark,
    }
}

impl Theme {
    /// Switches between the two themes.
    pub fn toggle(&mut self)
        ensures
            *final(self) == toggled(*old(self)),
    {
        *self = match *self {
            Theme::Dark => Theme::Light,
            Theme::Light => Theme::Dark,
        };
    }
}

/// Toggling the theme twice returns to the original theme.
pub proof fn lemma_toggle_twice(t: Theme)
    ensures
        toggled(toggled(t)) == t,
{
}

/// The error returned when the in-memory database cannot be opened.
#[derive(Clone, Copy, Debug, PartialEq, Eq, Structural)]
pub struct DbError;

#[verifier::external_type_specification]
#[verifier::external_body]
pub struct ExConnection(rusqlite::Connection);

#[verifier::external_type_specification]
#[verifier::external_body]
pub struct ExRusqliteError(rusqlite::Error);

/// Relies on rusqlite's `Connection::open_in_memory` to open the unused
/// in-memory database handle that the state keeps. Nothing is assumed of
/// the handle or of the error.
#[verifier::external_body]
fn open_memory_database() -> Result<rusqlite::Connection, rusqlite::Error> {
    rusqlite::Connection::open_in_memory()
}

/// The folder that the browser starts in.
pub open spec fn default_folder() -> Seq<char> {
    "/home/odd/.slippi"@
}

/// What is appended to the folder to form the glob pattern: replay files
/// of the folder itself, or of the folder and all its subfolders.
pub open spec fn pattern_suffix(include_subfolders: bool) -> Seq<char> {
    if include_subfolders {
        "/**/*.slp"@
    } else {
        "/*.slp"@
    }
}

/// The replay list that a sequence of candidate files' bytes yields: the
/// records of the files that are accepted, in enumeration order; the
/// files that the guard or the decoder rejects are dropped.
pub open spec fn replays_of(files: Seq<Seq<u8>>) -> Seq<ReplayView>
    decreases files.len(),
{
    if files.len() == 0 {
        Seq::empty()
    } else {
        let rest = replays_of(files.drop_last());
        match replay_of_file(files.last()) {
            Some(rep) => rest.push(rep),
            None => rest,
        }
    }
}

/// A folder with no matching files yields an empty replay list.
pub proof fn lemma_no_files_no_replays()
    ensures
        replays_of(Seq::<Seq<u8>>::empty()) == Seq::<ReplayView>::empty(),
{
}

/// A replay stands in the list only because some file's bytes decoded to
/// exactly that record.
pub proof fn lemma_replay_only_if_parsed(files: Seq<Seq<u8>>, i: int)
    requires
        0 <= i < replays_of(files).len(),
    ensures
        exists|j: int|
            0 <= j < files.len() && replay_of_file(files[j]) == Some(replays_of(files)[i]),
    decreases files.len(),
{
    let rs = replays_of(files);
    let rest = replays_of(files.drop_last());
    match replay_of_file(files.last()) {
        Some(rep) => {
            if i < rest.len() {
                lemma_replay_only_if_parsed(files.drop_last(), i);
                let j = choose|j: int|
                    0 <= j < files.drop_last().len()
                        && replay_of_file(files.drop_last()[j]) == Some(rest[i]);
                assert(0 <= j < files.len() && replay_of_file(files[j]) == Some(rs[i]));
            } else {
                let j = files.len() - 1;
                assert(0 <= j < files.len() && replay_of_file(files[j]) == Some(rs[i]));
            }
        }
        None => {
            lemma_replay_only_if_parsed(files.drop_last(), i);
            let j = choose|j: int|
                0 <= j < files.drop_last().len()
                    && replay_of_file(files.drop_last()[j]) == Some(rest[i]);
            assert(0 <= j < files.len() && replay_of_file(files[j]) == Some(rs[i]));
        }
    }
}

/// The state of the browser.
pub struct State {
    /// An in-memory database handle, opened at startup and not used for
    /// storage.
    pub connection: rusqlite::Connection,
    /// The colour theme.
    pub theme: Theme,
    /// The folder whose replays are listed.
    pub folder: String,
    /// Whether subfolders are searched too.
    pub include_subfolders: bool,
    /// The replays of the chosen folder, in enumeration order.
    pub replays: Vec<Replay>,
}

impl State {
    /// The fresh state around an already-opened database handle: light
    /// theme, the default folder, subfolders excluded, no replays.
    pub fn with_connection(connection: rusqlite::Connection) -> (s: State)
        ensures
            s.theme == Theme::Light,
            s.folder@ == default_folder(),
            !s.include_subfolders,
            s.replays@ == Seq::<Replay>::empty(),
            s.connection == connection,
    {
        State {
            connection,
            theme: Theme::Light,
            folder: String::from_str("/home/odd/.slippi"),
            include_subfolders: false,
            replays: Vec::new(),
        }
    }

    /// Opens the in-memory database and builds the fresh state around
    /// it; fails only when the database cannot be opened.
    pub fn new() -> (r: Result<State, DbError>)
        ensures
            r matches Ok(s) ==> s.theme == Theme::Light
                && s.folder@ == default_folder()
                && !s.include_subfolders
                && s.replays@ == Seq::<Replay>::empty(),
    {
        match open_memory_database() {
            Ok(connection) => Ok(State::with_connection(connection)),
            Err(_) => Err(DbError),
        }
    }

    /// The glob pattern that selects the folder's replay files: the
    /// chosen folder followed by the suffix that the subfolder flag
    /// calls for.
    pub fn files_pattern(&self) -> (r: String)
        ensures
            r@ == self.folder@ + pattern_suffix(self.include_subfolders),
    {
        let mut pattern = String::from_str(self.folder.as_str());
        if self.include_subfolders {
            pattern.append("/**/*.slp");
        } else {
            pattern.append("/*.slp");
        }
        pattern
    }

    /// Switches between the light and the dark theme; everything else is
    /// kept.
    pub fn toggle_theme(&mut self)
        ensures
            final(self).theme == toggled(old(self).theme),
            final(self).folder == old(self).folder,
            final(self).include_subfolders == old(self).include_subfolders,
            final(self).replays == old(self).replays,
            final(self).connection == old(self).connection,
    {
        self.theme.toggle();
    }

    /// Replaces the replay list wholesale with the records decoded from
    /// the given files' bytes: one record per accepted file, in the
    /// files' order; rejected files are dropped. Everything else is
    /// kept.
    pub fn load_replays(&mut self, files: &Vec<Vec<u8>>)
        ensures
            final(self).replays@.map_values(|r: Replay| r@)
                == replays_of(files@.map_values(|b: Vec<u8>| b@)),
            final(self).theme == old(self).theme,
            final(self).folder == old(self).folder,
            final(self).include_subfolders == old(self).include_subfolders,
            final(self).connection == old(self).connection,
    {
        let ghost fv: Seq<Seq<u8>> = files@.map_values(|b: Vec<u8>| b@);
        let mut replays: Vec<Replay> = Vec::new();
        for i in 0..files.len()
            invariant
                fv == files@.map_values(|b: Vec<u8>| b@),
                replays@.map_values(|r: Replay| r@) == replays_of(fv.take(i as int)),
        {
            proof {
                assert(fv.take(i + 1).drop_last() =~= fv.take(i as int));
                assert(fv.take(i + 1).last() == files@[i as int]@);
            }
            match Replay::new(files[i].as_slice()) {
                Ok(rep) => {
                    let ghost before = replays@;
                    replays.push(rep);
                    proof {
                        assert(replays@.map_values(|r: Replay| r@)
                            =~= before.map_values(|r: Replay| r@).push(rep@));
                    }
                }
                Err(_) => {}
            }
        }
        proof {
            assert(fv.take(files@.len() as int) =~= fv);
        }
        self.replays = replays;
    }
}

} // verus!
