//! The environment selector: a list of environments to pick from, and a
//! prompt for a custom path. Keys go in; what to write or resolve comes out.
//! Drawing, files and the file system are left to the caller.

use crate::text::{
    chars_of, pad_right, push_char, push_padded, push_str, string_from_chars, string_of, trim,
    trim_chars,
};
use crate::venv::SelectableVenv;
use vstd::prelude::*;

verus! {

/// How a selector run ended.
#[derive(Debug, Clone, Copy, PartialEq, Eq, Structural)]
pub enum SelectorRun {
    /// The user chose an environment; the handoff files were written.
    Selected,
    /// No environments were available; the `NO_ENVIRONMENTS` marker was written.
    NoEnvironments,
    /// The user cancelled; no handoff output was written.
    Cancelled,
}

/// A key press, as the selector reads it.
#[derive(Debug, Clone, Copy, PartialEq, Eq, Structural)]
pub enum SelectorKey {
    Char(char),
    Enter,
    Esc,
    Backspace,
    Up,
    Down,
    Other,
}

/// What the selector shows.
#[derive(Debug, Clone)]
pub enum SelectorMode {
    List,
    /// The typed path, and the reason the last one was refused.
    CustomPath { buffer: String, error: Option<String> },
}

/// What the caller does after a key.
#[derive(Debug, Clone)]
pub enum SelectorAction {
    Nothing,
    /// Write the handoff for the environment at this index, then call
    /// [`VenvSelector::mark_done`].
    WriteSelection(usize),
    /// Resolve this typed path into an environment and report back with
    /// [`VenvSelector::custom_path_resolved`].
    ResolveCustomPath(String),
}

pub struct VenvSelector {
    pub environments: Vec<SelectableVenv>,
    pub cursor: usize,
    pub mode: SelectorMode,
    pub quit: bool,
    pub done: bool,
}

/// `(cursor + delta) mod len`, always in range.
pub open spec fn wrap_cursor(cursor: int, delta: int, len: int) -> int {
    (cursor + delta) % len
}

impl VenvSelector {
    /// The cursor is on an environment.
    pub open spec fn well_formed(&self) -> bool {
        self.environments@.len() > 0 ==> self.cursor < self.environments@.len()
    }

    pub fn new(environments: Vec<SelectableVenv>) -> (res: Self)
        ensures
            res.well_formed(),
            res.environments@ == environments@,
            res.cursor == 0,
            res.mode is List,
            !res.quit,
            !res.done,
    {
        VenvSelector { environments, cursor: 0, mode: SelectorMode::List, quit: false, done: false }
    }

    /// Moves the cursor, wrapping around the list.
    pub fn move_cursor(&mut self, delta: i8)
        requires
            old(self).well_formed(),
        ensures
            final(self).well_formed(),
            final(self).environments@ == old(self).environments@,
            final(self).cursor == if old(self).environments@.len() == 0 {
                old(self).cursor as int
            } else {
                wrap_cursor(old(self).cursor as int, delta as int, old(self).environments@.len() as int)
            },
            final(self).mode == old(self).mode,
            final(self).quit == old(self).quit,
            final(self).done == old(self).done,
    {
        let len = self.environments.len();
        if len == 0 {
            return;
        }
        let l = len as u128;
        let cur = self.cursor as u128;
        let r: u128 = if delta >= 0 {
            (cur + delta as u128) % l
        } else {
            let d: u128 = ((0i16 - delta as i16) as u128) % l;
            (cur + l - d) % l
        };
        proof {
            let cu = self.cursor as int;
            let li = len as int;
            let de = delta as int;
            if delta >= 0 {
                assert(r == wrap_cursor(cu, de, li));
            } else {
                let d = (-de) % li;
                assert(0 <= d < li) by (nonlinear_arith)
                    requires
                        li > 0,
                        d == (-de) % li,
                ;
                assert((cu + li - d) % li == (cu + de) % li) by (nonlinear_arith)
                    requires
                        li > 0,
                        d == (-de) % li,
                        de < 0,
                {
                    vstd::arithmetic::div_mod::lemma_fundamental_div_mod(-de, li);
                    vstd::arithmetic::div_mod::lemma_mod_add_multiples_vanish(cu + de, li);
                    let q = (-de) / li;
                    assert(cu + li - d == cu + de + li * (q + 1));
                    vstd::arithmetic::div_mod::lemma_mod_multiples_vanish(q + 1, cu + de, li);
                }
            }
        }
        self.cursor = r as usize;
    }

    /// Reacts to one key.
    pub fn handle_key(&mut self, key: SelectorKey) -> (res: SelectorAction)
        requires
            old(self).well_formed(),
        ensures
            final(self).well_formed(),
            final(self).environments@ == old(self).environments@,
            final(self).done == old(self).done,
            match old(self).mode {
                SelectorMode::List => match key {
                    SelectorKey::Char('q') | SelectorKey::Esc => final(self).quit && res is Nothing,
                    SelectorKey::Enter | SelectorKey::Char(' ') => if old(self).environments@.len() > 0 {
                        res matches SelectorAction::WriteSelection(i) && i == old(self).cursor
                    } else {
                        res is Nothing
                    },
                    SelectorKey::Char('a') | SelectorKey::Char('A') => (final(self).mode matches SelectorMode::CustomPath {
                        buffer,
                        error,
                    } && buffer@.len() == 0 && error is None) && res is Nothing,
                    _ => res is Nothing,
                },
                SelectorMode::CustomPath { buffer, error } => match key {
                    SelectorKey::Esc => final(self).mode is List && res is Nothing,
                    SelectorKey::Enter => if trim(buffer@).len() == 0 {
                        final(self).quit && res is Nothing
                    } else {
                        res matches SelectorAction::ResolveCustomPath(p) && p@ == trim(buffer@)
                    },
                    SelectorKey::Backspace => (final(self).mode matches SelectorMode::CustomPath {
                        buffer: b,
                        error: e,
                    } && b@ == (if buffer@.len() > 0 {
                        buffer@.drop_last()
                    } else {
                        buffer@
                    }) && e is None) && res is Nothing,
                    SelectorKey::Char(ch) => (final(self).mode matches SelectorMode::CustomPath {
                        buffer: b,
                        error: e,
                    } && b@ == buffer@.push(ch) && e is None) && res is Nothing,
                    _ => res is Nothing,
                },
            },
    {
        let action = match &self.mode {
            SelectorMode::List => match key {
                SelectorKey::Char('q') | SelectorKey::Esc => {
                    self.quit = true;
                    SelectorAction::Nothing
                },
                SelectorKey::Enter | SelectorKey::Char(' ') => {
                    if self.cursor < self.environments.len() {
                        SelectorAction::WriteSelection(self.cursor)
                    } else {
                        SelectorAction::Nothing
                    }
                },
                SelectorKey::Up | SelectorKey::Char('k') => {
                    self.move_cursor(-1);
                    SelectorAction::Nothing
                },
                SelectorKey::Down | SelectorKey::Char('j') => {
                    self.move_cursor(1);
                    SelectorAction::Nothing
                },
                SelectorKey::Char('a') | SelectorKey::Char('A') => {
                    self.mode = SelectorMode::CustomPath { buffer: String::new(), error: None };
                    SelectorAction::Nothing
                },
                _ => SelectorAction::Nothing,
            },
            SelectorMode::CustomPath { buffer, error: _ } => match key {
                SelectorKey::Esc => {
                    self.mode = SelectorMode::List;
                    SelectorAction::Nothing
                },
                SelectorKey::Enter => {
                    let cs = chars_of(buffer.as_str());
                    let t = trim_chars(cs.as_slice());
                    if t.len() == 0 {
                        self.quit = true;
                        SelectorAction::Nothing
                    } else {
                        SelectorAction::ResolveCustomPath(string_from_chars(&t))
                    }
                },
                SelectorKey::Backspace => {
                    let cs = chars_of(buffer.as_str());
                    let mut kept: Vec<char> = Vec::new();
                    let n: usize = if cs.len() > 0 {
                        cs.len() - 1
                    } else {
                        0
                    };
                    let mut i: usize = 0;
                    while i < n
                        invariant
                            n <= cs.len(),
                            i <= n,
                            kept@ == cs@.take(i as int),
                        decreases n - i,
                    {
                        kept.push(cs[i]);
                        i = i + 1;
                        assert(kept@ =~= cs@.take(i as int));
                    }
                    let b = string_from_chars(&kept);
                    assert(b@ =~= (if cs@.len() > 0 {
                        cs@.drop_last()
                    } else {
                        cs@
                    }));
                    self.mode = SelectorMode::CustomPath { buffer: b, error: None };
                    SelectorAction::Nothing
                },
                SelectorKey::Char(ch) => {
                    let mut b = string_of(buffer.as_str());
                    push_char(&mut b, ch);
                    self.mode = SelectorMode::CustomPath { buffer: b, error: None };
                    SelectorAction::Nothing
                },
                _ => SelectorAction::Nothing,
            },
        };
        action
    }

    /// The handoff for the chosen environment was written.
    pub fn mark_done(&mut self)
        ensures
            final(self).done,
            final(self).environments@ == old(self).environments@,
            final(self).cursor == old(self).cursor,
            final(self).quit == old(self).quit,
    {
        self.done = true;
    }

    /// The outcome of resolving a typed path: on success the caller writes
    /// the handoff and marks the selector done; on failure the prompt shows
    /// the reason and keeps the typed text.
    pub fn custom_path_resolved(&mut self, outcome: Result<(), String>)
        requires
            old(self).well_formed(),
        ensures
            final(self).well_formed(),
            final(self).environments@ == old(self).environments@,
            match outcome {
                Ok(_) => final(self).done,
                Err(m) => match old(self).mode {
                    SelectorMode::CustomPath { buffer, error: _ } => final(self).mode matches SelectorMode::CustomPath {
                        buffer: b,
                        error: e,
                    } && b@ == buffer@ && (e matches Some(em) && em@ == m@),
                    SelectorMode::List => final(self).mode is List,
                },
            },
    {
        match outcome {
            Ok(_) => {
                self.done = true;
            },
            Err(m) => {
                let next = match &self.mode {
                    SelectorMode::CustomPath { buffer, error: _ } => SelectorMode::CustomPath {
                        buffer: string_of(buffer.as_str()),
                        error: Some(m),
                    },
                    SelectorMode::List => SelectorMode::List,
                };
                self.mode = next;
            },
        }
    }

    /// How the run ended, once it has: cancelled, or an environment chosen.
    pub fn result(&self) -> (res: Option<SelectorRun>)
        ensures
            res == if self.quit {
                Some(SelectorRun::Cancelled)
            } else if self.done {
                Some(SelectorRun::Selected)
            } else {
                None
            },
    {
        if self.quit {
            Some(SelectorRun::Cancelled)
        } else if self.done {
            Some(SelectorRun::Selected)
        } else {
            None
        }
    }
}

/// The marker written when there is nothing to select.
pub const NO_ENVIRONMENTS: &'static str = "NO_ENVIRONMENTS\n";

/// In a non-empty list, moving down and then up returns to the same entry.
pub proof fn lemma_down_then_up(cursor: int, len: int)
    requires
        0 <= cursor < len,
    ensures
        wrap_cursor(wrap_cursor(cursor, 1, len), -1, len) == cursor,
{
    let d = wrap_cursor(cursor, 1, len);
    if cursor + 1 < len {
        vstd::arithmetic::div_mod::lemma_small_mod((cursor + 1) as nat, len as nat);
        assert(d == cursor + 1);
        vstd::arithmetic::div_mod::lemma_small_mod(cursor as nat, len as nat);
        assert(wrap_cursor(d, -1, len) == cursor % len);
    } else {
        vstd::arithmetic::div_mod::lemma_mod_self_0(len);
        assert(d == 0);
        vstd::arithmetic::div_mod::lemma_mod_add_multiples_vanish(-1, len);
        vstd::arithmetic::div_mod::lemma_small_mod((len - 1) as nat, len as nat);
        assert(wrap_cursor(d, -1, len) == (-1) % len);
    }
}

/// A row of the environment list: `[x]` for the active environment, the
/// name padded to twenty characters, the type padded to eight, the path.
pub open spec fn environment_row_spec(env: SelectableVenv, active: bool) -> Seq<char> {
    "  "@ + (if active {
        "[x]"@
    } else {
        "[ ]"@
    }) + " "@ + pad_right(env.name@, 20) + "  "@ + pad_right(env.venv_type@, 8) + "  "@ + env.path@
}

pub fn environment_row(env: &SelectableVenv, active: bool) -> (res: String)
    ensures
        res@ == environment_row_spec(*env, active),
{
    let mut out = string_of("  ");
    push_str(&mut out, if active { "[x]" } else { "[ ]" });
    push_str(&mut out, " ");
    push_padded(&mut out, env.name.as_str(), 20);
    push_str(&mut out, "  ");
    push_padded(&mut out, env.venv_type.as_str(), 8);
    push_str(&mut out, "  ");
    push_str(&mut out, env.path.as_str());
    assert(out@ =~= environment_row_spec(*env, active));
    out
}

} // verus!
