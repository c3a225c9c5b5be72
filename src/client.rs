//! The client's own state: the cached server snapshot, which of the two file
//! lists is active and what is selected in each, and the key bindings.
use crate::events::{KeyCode, KeyInput};
use vstd::prelude::*;
use vstd::string::StringExecFns;

verus! {

/// The server's state as last pushed: listener count, song library and queue.
#[derive(Debug, Clone, PartialEq, Eq)]
pub struct ServerState {
    pub active_listeners: u8,
    pub song_library: Vec<String>,
    pub song_queue: Vec<String>,
}

impl Default for ServerState {
    /// No listeners, an empty library and an empty queue.
    fn default() -> (r: Self)
        ensures
            r.active_listeners == 0,
            r.song_library@.len() == 0,
            r.song_queue@.len() == 0,
    {
        ServerState { active_listeners: 0, song_library: Vec::new(), song_queue: Vec::new() }
    }
}

/// The bytes of a network update that hold the snapshot text: everything
/// before the first zero byte (the padding).
pub open spec fn snapshot_text_spec(message: Seq<u8>) -> Seq<u8> {
    if exists|i: int| 0 <= i < message.len() && message[i] == 0 {
        message.take(
            choose|i: int|
                0 <= i < message.len() && message[i] == 0 && forall|j: int|
                    0 <= j < i ==> message[j] != 0,
        )
    } else {
        message
    }
}

/// The bytes of a network update before its first zero byte.
pub fn snapshot_text(message: &[u8]) -> (r: Vec<u8>)
    ensures
        r@ == snapshot_text_spec(message@),
        r@ == message@.take(r@.len() as int),
        forall|j: int| 0 <= j < r@.len() ==> r@[j] != 0,
        r@.len() < message@.len() ==> message@[r@.len() as int] == 0,
{
    let mut r: Vec<u8> = Vec::new();
    let mut i: usize = 0;
    while i < message.len() && message[i] != 0
        invariant
            i <= message@.len(),
            r@ == message@.take(i as int),
            forall|j: int| 0 <= j < i ==> message@[j] != 0,
        decreases message@.len() - i,
    {
        r.push(message[i]);
        i = i + 1;
        assert(r@ =~= message@.take(i as int));
    }
    if i < message.len() {
        let ghost k = choose|k: int|
            0 <= k < message@.len() && message@[k] == 0 && forall|j: int|
                0 <= j < k ==> message@[j] != 0;
        assert(0 <= i < message@.len() && message@[i as int] == 0 && forall|j: int|
            0 <= j < i ==> message@[j] != 0);
        assert(k == i) by {
            if k < i {
                assert(message@[k] != 0);
            } else if k > i {
                assert(message@[i as int] != 0);
            }
        }
    } else {
        assert(r@ =~= message@);
    }
    r
}

/// A move of the selection in the active file list.
#[derive(Debug, Clone, Copy, PartialEq, Eq, Structural)]
pub enum Direction {
    Up,
    Down,
}

/// What activating the selected entry asks for.
#[derive(Debug, Clone, Copy, PartialEq, Eq, Structural)]
pub enum FsAction {
    /// Upload the selected local file to the server.
    SendFile,
    /// Add the selected server song to the playback queue.
    QueueSong,
}

/// The selection after moving down: the next entry, or the first if none was
/// selected (the index saturates; the list clamps it when drawn).
pub open spec fn select_next(sel: Option<usize>) -> Option<usize> {
    match sel {
        None => Some(0usize),
        Some(i) => Some(if i == usize::MAX { i } else { (i + 1) as usize }),
    }
}

/// The selection after moving up: the previous entry (staying at the first),
/// or the last (`usize::MAX`, clamped when drawn) if none was selected.
pub open spec fn select_previous(sel: Option<usize>) -> Option<usize> {
    match sel {
        None => Some(usize::MAX),
        Some(i) => Some(if i == 0 { 0usize } else { (i - 1) as usize }),
    }
}

fn next_index(sel: Option<usize>) -> (r: Option<usize>)
    ensures
        r == select_next(sel),
{
    match sel {
        None => Some(0),
        Some(i) => Some(i.saturating_add(1)),
    }
}

fn previous_index(sel: Option<usize>) -> (r: Option<usize>)
    ensures
        r == select_previous(sel),
{
    match sel {
        None => Some(usize::MAX),
        Some(i) => Some(i.saturating_sub(1)),
    }
}

/// The client application's state.
pub struct App {
    /// Whether the control loop keeps going.
    pub running: bool,
    /// Which list is active: the local files (`true`) or the server's library.
    pub client_fs_selected: bool,
    /// The selected entry of the local file list.
    pub client_selected: Option<usize>,
    /// The selected entry of the server's library.
    pub server_selected: Option<usize>,
    /// The last server snapshot received.
    pub state: ServerState,
    /// The directory that holds the local songs, with a trailing separator.
    pub song_dir: String,
}

impl App {
    /// A running client with the local list active, its first entry selected,
    /// nothing selected on the server side and an empty snapshot.
    pub fn new() -> (r: Self)
        ensures
            r.running,
            r.client_fs_selected,
            r.client_selected == Some(0usize),
            r.server_selected is None,
            r.state.active_listeners == 0,
            r.state.song_library@.len() == 0,
            r.state.song_queue@.len() == 0,
            r.song_dir@ == "./songs/"@,
    {
        App {
            running: true,
            client_fs_selected: true,
            client_selected: Some(0),
            server_selected: None,
            state: ServerState::default(),
            song_dir: String::from_str("./songs/"),
        }
    }

    /// The path of the selected local file, given the entries of the song
    /// directory in listing order: the directory followed by the entry's name.
    /// `None` when nothing is selected or the selection is past the end.
    pub fn get_client_song_path(&self, items: &Vec<String>) -> (r: Option<String>)
        ensures
            r is Some <==> (self.client_selected is Some && self.client_selected->Some_0
                < items@.len()),
            r is Some ==> r->Some_0@ == self.song_dir@ + items@[self.client_selected->Some_0 as int]@,
    {
        match self.client_selected {
            None => None,
            Some(i) => {
                if i < items.len() {
                    Some(self.song_dir.clone().concat(items[i].as_str()))
                } else {
                    None
                }
            },
        }
    }

    /// The selected song of the server's library; `None` when nothing is
    /// selected or the selection is past the end.
    pub fn get_song(&self) -> (r: Option<String>)
        ensures
            r is Some <==> (self.server_selected is Some && self.server_selected->Some_0
                < self.state.song_library@.len()),
            r is Some ==> r->Some_0@ == self.state.song_library@[self.server_selected->Some_0 as int]@,
    {
        match self.server_selected {
            None => None,
            Some(i) => {
                if i < self.state.song_library.len() {
                    Some(self.state.song_library[i].clone())
                } else {
                    None
                }
            },
        }
    }

    /// Stops the control loop.
    pub fn quit(&mut self)
        ensures
            !final(self).running,
            final(self).client_fs_selected == old(self).client_fs_selected,
            final(self).client_selected == old(self).client_selected,
            final(self).server_selected == old(self).server_selected,
            final(self).state == old(self).state,
            final(self).song_dir == old(self).song_dir,
    {
        self.running = false;
    }

    /// Moves the selection of the active list one entry up or down.
    pub fn handle_fs_state(&mut self, direction: Direction)
        ensures
            old(self).client_fs_selected ==> final(self).client_selected == (match direction {
                Direction::Down => select_next(old(self).client_selected),
                Direction::Up => select_previous(old(self).client_selected),
            }) && final(self).server_selected == old(self).server_selected,
            !old(self).client_fs_selected ==> final(self).server_selected == (match direction {
                Direction::Down => select_next(old(self).server_selected),
                Direction::Up => select_previous(old(self).server_selected),
            }) && final(self).client_selected == old(self).client_selected,
            final(self).running == old(self).running,
            final(self).client_fs_selected == old(self).client_fs_selected,
            final(self).state == old(self).state,
            final(self).song_dir == old(self).song_dir,
    {
        if self.client_fs_selected {
            self.client_selected = match direction {
                Direction::Down => next_index(self.client_selected),
                Direction::Up => previous_index(self.client_selected),
            };
        } else {
            self.server_selected = match direction {
                Direction::Down => next_index(self.server_selected),
                Direction::Up => previous_index(self.server_selected),
            };
        }
    }

    /// Makes the other list active, selecting its first entry and clearing
    /// the selection of the list left.
    pub fn switch_fs(&mut self)
        ensures
            final(self).client_fs_selected == !old(self).client_fs_selected,
            final(self).client_fs_selected ==> final(self).client_selected == Some(0usize)
                && final(self).server_selected is None,
            !final(self).client_fs_selected ==> final(self).server_selected == Some(0usize)
                && final(self).client_selected is None,
            final(self).running == old(self).running,
            final(self).state == old(self).state,
            final(self).song_dir == old(self).song_dir,
    {
        self.client_fs_selected = !self.client_fs_selected;
        if self.client_fs_selected {
            self.server_selected = None;
            self.client_selected = Some(0);
        } else {
            self.server_selected = Some(0);
            self.client_selected = None;
        }
    }

    /// Replaces the cached snapshot wholesale.
    pub fn update_state(&mut self, state: ServerState)
        ensures
            final(self).state == state,
            final(self).running == old(self).running,
            final(self).client_fs_selected == old(self).client_fs_selected,
            final(self).client_selected == old(self).client_selected,
            final(self).server_selected == old(self).server_selected,
            final(self).song_dir == old(self).song_dir,
    {
        self.state = state;
    }

    /// Takes a parsed snapshot: a valid one replaces the cache, a malformed
    /// one (`None`) leaves it as it was. Returns whether it was replaced.
    pub fn apply_snapshot(&mut self, parsed: Option<ServerState>) -> (r: bool)
        ensures
            r == parsed is Some,
            parsed is Some ==> final(self).state == parsed->Some_0,
            parsed is None ==> final(self).state == old(self).state,
            final(self).running == old(self).running,
            final(self).client_fs_selected == old(self).client_fs_selected,
            final(self).client_selected == old(self).client_selected,
            final(self).server_selected == old(self).server_selected,
            final(self).song_dir == old(self).song_dir,
    {
        match parsed {
            Some(state) => {
                self.update_state(state);
                true
            },
            None => false,
        }
    }

    /// What activating the selected entry of the active list asks for.
    pub fn handle_fs_actions(&self) -> (r: FsAction)
        ensures
            r == (if self.client_fs_selected {
                FsAction::SendFile
            } else {
                FsAction::QueueSong
            }),
    {
        if self.client_fs_selected {
            FsAction::SendFile
        } else {
            FsAction::QueueSong
        }
    }
}

/// Whether `key` quits: Esc, `q`, or Ctrl with `c` or `C`.
pub open spec fn is_quit_key(key: KeyInput) -> bool {
    key.code == KeyCode::Esc || key.code == KeyCode::Char('q') || (key.ctrl && (key.code
        == KeyCode::Char('c') || key.code == KeyCode::Char('C')))
}

/// Applies a key press to `app`: quit keys stop it, Up and Down move the
/// selection, Tab switches lists, Enter returns the action asked for; any
/// other key changes nothing.
pub fn handle_key_events(key: KeyInput, app: &mut App) -> (r: Option<FsAction>)
    ensures
        is_quit_key(key) ==> !final(app).running && r is None,
        key.code == KeyCode::Enter ==> r == Some(if old(app).client_fs_selected {
            FsAction::SendFile
        } else {
            FsAction::QueueSong
        }) && *final(app)
            == *old(app),
        key.code != KeyCode::Enter ==> r is None,
        !is_quit_key(key) ==> final(app).running == old(app).running,
        key.code == KeyCode::Tab ==> final(app).client_fs_selected == !old(app).client_fs_selected,
        (key.code == KeyCode::Up || key.code == KeyCode::Down) ==> final(app).client_fs_selected
            == old(app).client_fs_selected,
        key.code == KeyCode::Up && old(app).client_fs_selected ==> final(app).client_selected
            == select_previous(old(app).client_selected),
        key.code == KeyCode::Down && old(app).client_fs_selected ==> final(app).client_selected
            == select_next(old(app).client_selected),
        key.code == KeyCode::Up && !old(app).client_fs_selected ==> final(app).server_selected
            == select_previous(old(app).server_selected),
        key.code == KeyCode::Down && !old(app).client_fs_selected ==> final(app).server_selected
            == select_next(old(app).server_selected),
        !(is_quit_key(key) || key.code == KeyCode::Up || key.code == KeyCode::Down || key.code
            == KeyCode::Tab) ==> *final(app) == *old(app),
        final(app).state == old(app).state,
{
    match key.code {
        KeyCode::Esc => {
            app.quit();
            None
        },
        KeyCode::Char(c) => {
            if c == 'q' || (key.ctrl && (c == 'c' || c == 'C')) {
                app.quit();
            }
            None
        },
        KeyCode::Up => {
            app.handle_fs_state(Direction::Up);
            None
        },
        KeyCode::Down => {
            app.handle_fs_state(Direction::Down);
            None
        },
        KeyCode::Tab => {
            app.switch_fs();
            None
        },
        KeyCode::Enter => Some(app.handle_fs_actions()),
        KeyCode::Other => None,
    }
}

} // verus!
