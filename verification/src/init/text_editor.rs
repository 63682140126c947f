//! The text editor of `.prtgn` files: which files it opens, how a file's
//! text becomes its lines and back, and the decisions it takes on each key.

use vstd::prelude::*;
use crate::decimal::{decimal, push_decimal};
use crate::text::{lines, join, views, words, split_whitespace, chars_of, lines_of, join_strings, starts_with, plain_line, lemma_lines_join, string_of, push_chars};

verus! {

/// Why the editor cannot start.
#[derive(Debug, Clone, Copy, PartialEq, Eq, Structural)]
pub enum EditorError {
    /// No file name was given.
    Usage,
}

/// The files that the editor opens for `filename`, one buffer each: each
/// white-space separated word is one file; none is a usage error.
pub fn editor_paths(filename: &str) -> (r: Result<Vec<String>, EditorError>)
    ensures
        match r {
            Ok(paths) => words(filename@).len() > 0 && views(paths@) == words(filename@),
            Err(e) => words(filename@).len() == 0 && e == EditorError::Usage,
        },
{
    let paths = split_whitespace(filename);
    if paths.len() == 0 {
        Err(EditorError::Usage)
    } else {
        Ok(paths)
    }
}

/// The files that the editor opens for `filename` (see `editor_paths`).
pub fn editor(filename: String) -> (r: Result<Vec<String>, EditorError>)
    ensures
        match r {
            Ok(paths) => words(filename@).len() > 0 && views(paths@) == words(filename@),
            Err(e) => words(filename@).len() == 0 && e == EditorError::Usage,
        },
{
    editor_paths(filename.as_str())
}

/// The lines that the editor shows for a file's text.
pub fn buffer_lines(content: &str) -> (r: Vec<String>)
    ensures
        views(r@) == lines(content@),
{
    let v = chars_of(content);
    lines_of(&v)
}

/// Whether some line starts with a tab, so that the editor indents with tabs.
pub fn uses_hard_tabs(lines: &Vec<String>) -> (b: bool)
    ensures
        b == exists|i: int| 0 <= i < lines@.len() && starts_with(#[trigger] lines@[i]@, seq!['\t']),
{
    let mut i: usize = 0;
    while i < lines.len()
        invariant
            i <= lines.len(),
            forall|k: int| 0 <= k < i ==> !starts_with(#[trigger] lines@[k]@, seq!['\t']),
        decreases lines.len() - i,
    {
        let v = chars_of(lines[i].as_str());
        if v.len() > 0 && v[0] == '\t' {
            assert(v@.take(1) =~= seq!['\t']);
            assert(starts_with(lines@[i as int]@, seq!['\t']));
            return true;
        }
        proof {
            if v@.len() > 0 {
                assert(v@.take(1)[0] == v@[0]);
            }
        }
        i = i + 1;
    }
    false
}

/// The text that saving a buffer writes: its lines joined with newlines.
pub fn buffer_text(lines: &Vec<String>) -> (r: String)
    ensures
        r@ == join(views(lines@), '\n'),
{
    join_strings(lines, '\n')
}

/// Opening a saved file shows the lines that were saved, when each is a
/// plain line and the last is not empty; a buffer of one empty line is saved
/// as empty text, which reads back as no lines.
pub proof fn lemma_reopen_saved(ls: Seq<Seq<char>>)
    requires
        forall|i: int| 0 <= i < ls.len() ==> plain_line(#[trigger] ls[i]),
        ls.len() == 0 || ls.last().len() > 0 || ls == seq![Seq::<char>::empty()],
    ensures
        lines(join(ls, '\n')) == (if ls == seq![Seq::<char>::empty()] {
            Seq::<Seq<char>>::empty()
        } else {
            ls
        }),
{
    if ls == seq![Seq::<char>::empty()] {
        assert(join(ls, '\n') == Seq::<char>::empty());
        assert(lines(join(ls, '\n')) =~= Seq::<Seq<char>>::empty());
    } else {
        lemma_lines_join(ls);
    }
}

/// What a key means to the editor.
#[derive(Debug, Clone, Copy, PartialEq, Eq, Structural)]
pub enum EditorKey {
    /// Ctrl-Q.
    Quit,
    /// Ctrl-T.
    Switch,
    /// Ctrl-S.
    Save,
    /// Any other input, for the text area.
    Other,
}

/// The meaning of a key, from its character (if any) and whether Ctrl is held.
pub fn classify_key(c: Option<char>, ctrl: bool) -> (k: EditorKey)
    ensures
        k == (if ctrl && c == Some('q') {
            EditorKey::Quit
        } else if ctrl && c == Some('t') {
            EditorKey::Switch
        } else if ctrl && c == Some('s') {
            EditorKey::Save
        } else {
            EditorKey::Other
        }),
{
    if ctrl && c == Some('q') {
        EditorKey::Quit
    } else if ctrl && c == Some('t') {
        EditorKey::Switch
    } else if ctrl && c == Some('s') {
        EditorKey::Save
    } else {
        EditorKey::Other
    }
}

/// What the editor's caller is to do after a key.
#[derive(Debug, Clone, Copy, PartialEq, Eq, Structural)]
pub enum EditorAction {
    /// Leave the editor.
    Exit,
    /// Write the buffer with this index, then report it saved.
    Save(usize),
    /// Hand the input to the current buffer's text area, then report whether
    /// it changed the text.
    Edit,
    /// Nothing more; draw again.
    Redraw,
}

/// The editor's state between keys: the current buffer, which buffers hold
/// unsaved changes, and the message shown under the status line.
pub struct EditorState {
    current: usize,
    modified: Vec<bool>,
    message: Option<String>,
}

/// The abstract editor state.
pub ghost struct EditorView {
    pub current: nat,
    pub modified: Seq<bool>,
    pub message: Option<Seq<char>>,
}

/// The message after switching to the buffer with this index.
pub open spec fn switched_message(current: nat) -> Seq<char> {
    "Switched to buffer #"@ + decimal(current + 1)
}

/// The message after a save.
pub open spec fn saved_message() -> Seq<char> {
    "Saved!"@
}

/// The message after asking to save an unchanged buffer.
pub open spec fn unchanged_message() -> Seq<char> {
    "No changes to save"@
}

/// The buffer after `current` of `count`, wrapping around.
pub open spec fn next_buffer(current: nat, count: nat) -> nat {
    (current + 1) % count
}

impl View for EditorState {
    type V = EditorView;

    closed spec fn view(&self) -> EditorView {
        EditorView {
            current: self.current as nat,
            modified: self.modified@,
            message: match self.message {
                Some(m) => Some(m@),
                None => None,
            },
        }
    }
}

impl EditorState {
    #[verifier::type_invariant]
    spec fn inv(&self) -> bool {
        &&& self.modified.len() >= 1
        &&& self.current < self.modified.len()
    }

    /// A new editor on `count` buffers: the first is current, none is
    /// modified, and no message shows.
    pub fn new(count: usize) -> (r: EditorState)
        requires
            count >= 1,
        ensures
            r@.current == 0,
            r@.modified == Seq::new(count as nat, |i: int| false),
            r@.message is None,
    {
        let mut modified: Vec<bool> = Vec::new();
        let mut i: usize = 0;
        while i < count
            invariant
                i <= count,
                modified@ == Seq::new(i as nat, |k: int| false),
            decreases count - i,
        {
            modified.push(false);
            assert(modified@ =~= Seq::new(i as nat + 1, |k: int| false));
            i = i + 1;
        }
        EditorState { current: 0, modified, message: None }
    }

    /// The index of the current buffer.
    pub fn current(&self) -> (r: usize)
        ensures
            r == self@.current,
    {
        self.current
    }

    /// Whether the current buffer holds unsaved changes.
    pub fn current_modified(&self) -> (r: bool)
        ensures
            r == self@.modified[self@.current as int],
    {
        proof {
            use_type_invariant(self);
        }
        self.modified[self.current]
    }

    /// The message to show, if any.
    pub fn message(&self) -> (r: Option<String>)
        ensures
            match r {
                Some(m) => self@.message == Some(m@),
                None => self@.message is None,
            },
    {
        match &self.message {
            Some(m) => Some(m.clone()),
            None => None,
        }
    }

    /// Clears the message: a message shows for one drawing only.
    pub fn clear_message(&mut self)
        ensures
            final(self)@.current == old(self)@.current,
            final(self)@.modified == old(self)@.modified,
            final(self)@.message is None,
    {
        proof {
            use_type_invariant(&*self);
        }
        self.message = None;
    }

    /// Decides on a key. Ctrl-Q leaves; Ctrl-T makes the next buffer current
    /// (wrapping around) and says so; Ctrl-S saves the current buffer if it
    /// holds changes and otherwise says there are none; other input goes to
    /// the text area.
    pub fn on_key(&mut self, key: EditorKey) -> (a: EditorAction)
        ensures
            final(self)@.modified == old(self)@.modified,
            match key {
                EditorKey::Quit => a == EditorAction::Exit && final(self)@ == old(self)@,
                EditorKey::Switch => {
                    &&& a == EditorAction::Redraw
                    &&& final(self)@.current == next_buffer(old(self)@.current, old(self)@.modified.len())
                    &&& final(self)@.message == Some(switched_message(final(self)@.current))
                },
                EditorKey::Save => if old(self)@.modified[old(self)@.current as int] {
                    a == EditorAction::Save(old(self)@.current as usize) && final(self)@ == old(self)@
                } else {
                    &&& a == EditorAction::Redraw
                    &&& final(self)@.current == old(self)@.current
                    &&& final(self)@.message == Some(unchanged_message())
                },
                EditorKey::Other => a == EditorAction::Edit && final(self)@ == old(self)@,
            },
    {
        proof {
            use_type_invariant(&*self);
        }
        match key {
            EditorKey::Quit => EditorAction::Exit,
            EditorKey::Switch => {
                let next = (self.current + 1) % self.modified.len();
                self.current = next;
                let mut m = "Switched to buffer #".to_owned();
                let mut digits: Vec<char> = Vec::new();
                push_decimal(&mut digits, next as u64 + 1);
                push_chars(&mut m, &digits);
                assert(digits@ =~= decimal(next as nat + 1));
                self.message = Some(m);
                EditorAction::Redraw
            },
            EditorKey::Save => {
                if self.modified[self.current] {
                    EditorAction::Save(self.current)
                } else {
                    self.message = Some("No changes to save".to_owned());
                    EditorAction::Redraw
                }
            },
            EditorKey::Other => EditorAction::Edit,
        }
    }

    /// Records that the current buffer was written: it holds no unsaved
    /// changes, and the message says it was saved.
    pub fn saved(&mut self)
        ensures
            final(self)@.current == old(self)@.current,
            final(self)@.modified == old(self)@.modified.update(old(self)@.current as int, false),
            final(self)@.message == Some(saved_message()),
    {
        proof {
            use_type_invariant(&*self);
        }
        let c = self.current;
        let mut m = self.modified.clone();
        assert(m@ =~= self.modified@);
        m.set(c, false);
        self.modified = m;
        self.message = Some("Saved!".to_owned());
    }

    /// Records an input handed to the current buffer: it holds unsaved
    /// changes if it did before or the input changed its text.
    pub fn edited(&mut self, changed: bool)
        ensures
            final(self)@.current == old(self)@.current,
            final(self)@.modified == old(self)@.modified.update(
                old(self)@.current as int,
                old(self)@.modified[old(self)@.current as int] || changed,
            ),
            final(self)@.message == old(self)@.message,
    {
        proof {
            use_type_invariant(&*self);
        }
        let c = self.current;
        let now = self.modified[c] || changed;
        let mut m = self.modified.clone();
        assert(m@ =~= self.modified@);
        m.set(c, now);
        self.modified = m;
    }

    /// The status line's slot, `[current/count]` counted from one.
    pub fn status_slot(&self) -> (r: String)
        ensures
            r@ == seq!['['] + decimal(self@.current + 1) + seq!['/'] + decimal(self@.modified.len())
                + seq![']'],
    {
        proof {
            use_type_invariant(self);
        }
        let mut v: Vec<char> = Vec::new();
        v.push('[');
        push_decimal(&mut v, self.current as u64 + 1);
        v.push('/');
        push_decimal(&mut v, self.modified.len() as u64);
        v.push(']');
        assert(v@ =~= seq!['['] + decimal(self@.current + 1) + seq!['/'] + decimal(
            self@.modified.len(),
        ) + seq![']']);
        string_of(&v)
    }
}

/// The status line's file part: ` path ` with ` [modified]` after the path
/// when the buffer holds unsaved changes.
pub fn status_path(path: &str, modified: bool) -> (r: String)
    ensures
        r@ == seq![' '] + path@ + (if modified {
            " [modified]"@
        } else {
            Seq::empty()
        }) + seq![' '],
{
    let mut v: Vec<char> = Vec::new();
    v.push(' ');
    let mut r = string_of(&v);
    let p = chars_of(path);
    push_chars(&mut r, &p);
    if modified {
        let m = chars_of(" [modified]");
        push_chars(&mut r, &m);
    }
    let mut w: Vec<char> = Vec::new();
    w.push(' ');
    push_chars(&mut r, &w);
    assert(r@ =~= seq![' '] + path@ + (if modified {
        " [modified]"@
    } else {
        Seq::empty()
    }) + seq![' ']);
    r
}

/// The status line's cursor part, `(row,column)` counted from one.
pub fn status_cursor(row: usize, col: usize) -> (r: String)
    requires
        row < usize::MAX,
        col < usize::MAX,
    ensures
        r@ == seq!['('] + decimal((row + 1) as nat) + seq![','] + decimal((col + 1) as nat) + seq![')'],
{
    let mut v: Vec<char> = Vec::new();
    v.push('(');
    push_decimal(&mut v, row as u64 + 1);
    v.push(',');
    push_decimal(&mut v, col as u64 + 1);
    v.push(')');
    assert(v@ =~= seq!['('] + decimal((row + 1) as nat) + seq![','] + decimal((col + 1) as nat) + seq![')']);
    string_of(&v)
}

/// The buffer current after `k` switches from `current` among `count`.
pub open spec fn after_switches(current: nat, count: nat, k: nat) -> nat
    decreases k,
{
    if k == 0 {
        current
    } else {
        next_buffer(after_switches(current, count, (k - 1) as nat), count)
    }
}

/// Switching buffers goes round: after `k` switches the current buffer is
/// `current + k` modulo the count, and after `count` switches it is the one
/// the editor started from.
pub proof fn lemma_switches_go_round(current: nat, count: nat, k: nat)
    requires
        current < count,
    ensures
        after_switches(current, count, k) == (current + k) % count,
        after_switches(current, count, count) == current,
{
    lemma_switches_mod(current, count, k);
    lemma_switches_count(current, count);
}

/// After as many switches as buffers, the starting buffer is current again.
proof fn lemma_switches_count(current: nat, count: nat)
    requires
        current < count,
    ensures
        after_switches(current, count, count) == current,
{
    lemma_switches_mod(current, count, count);
    vstd::arithmetic::div_mod::lemma_mod_add_multiples_vanish(current as int, count as int);
    vstd::arithmetic::div_mod::lemma_small_mod(current, count);
}

/// After `k` switches the current buffer is `current + k` modulo the count.
proof fn lemma_switches_mod(current: nat, count: nat, k: nat)
    requires
        current < count,
    ensures
        after_switches(current, count, k) == (current + k) % count,
    decreases k,
{
    if k == 0 {
        vstd::arithmetic::div_mod::lemma_small_mod(current, count);
    } else {
        lemma_switches_mod(current, count, (k - 1) as nat);
        vstd::arithmetic::div_mod::lemma_add_mod_noop_right(1, current + k - 1, count as int);
    }
}

} // verus!
