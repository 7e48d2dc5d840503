//! Mementos: a text editor and a configuration store that capture snapshots
//! of their state and can be restored from them, with an undo-and-redo
//! history for the editor. Text positions count characters.

use vstd::prelude::*;

use crate::util::dec_rep;
use crate::util::fmt_u32;
use crate::util::fmt_u64;
use crate::util::fmt_usize;
use crate::util::now_unix_secs;
use crate::util::str_eq;

verus! {

/// A snapshot of the editor: content, cursor, selection, and when it was
/// taken.
#[derive(Debug, Clone)]
pub struct TextEditorMemento {
    pub content: String,
    pub cursor_position: usize,
    pub selection: Option<(usize, usize)>,
    pub timestamp: u64,
}

impl TextEditorMemento {
    /// Well-formedness: the cursor sits inside the content.
    pub open spec fn wf(self) -> bool {
        self.cursor_position <= self.content@.len()
    }

    /// A snapshot stamped with the current clock; nothing is promised of the
    /// stamp itself.
    pub fn new(content: String, cursor_position: usize, selection: Option<(usize, usize)>) -> (r:
        TextEditorMemento)
        ensures
            r.content == content,
            r.cursor_position == cursor_position,
            r.selection == selection,
    {
        TextEditorMemento { content, cursor_position, selection, timestamp: now_unix_secs() }
    }

    pub fn get_timestamp(&self) -> (r: u64)
        ensures
            r == self.timestamp,
    {
        self.timestamp
    }
}

/// How a selection is printed in the status line.
pub open spec fn selection_debug(sel: Option<(usize, usize)>) -> Seq<char> {
    match sel {
        Some(p) => "Some(("@ + dec_rep(p.0 as nat) + ", "@ + dec_rep(p.1 as nat) + "))"@,
        None => "None"@,
    }
}

/// An editing buffer: content, a character cursor, an optional selection,
/// and a count of changes.
#[derive(Debug)]
pub struct TextEditor {
    pub content: String,
    pub cursor_position: usize,
    pub selection: Option<(usize, usize)>,
    pub modification_count: u32,
}

impl TextEditor {
    /// Well-formedness: the cursor sits inside the content.
    pub open spec fn wf(self) -> bool {
        self.cursor_position <= self.content@.len()
    }

    /// An empty buffer.
    pub fn new() -> (r: TextEditor)
        ensures
            r.content@.len() == 0,
            r.cursor_position == 0,
            r.selection is None,
            r.modification_count == 0,
            r.wf(),
    {
        TextEditor {
            content: String::new(),
            cursor_position: 0,
            selection: None,
            modification_count: 0,
        }
    }

    /// Inserts text at the cursor; the cursor moves past it, the selection
    /// is dropped, the change is counted.
    pub fn insert_text(&mut self, text: &str)
        requires
            old(self).wf(),
            old(self).modification_count < u32::MAX,
        ensures
            final(self).wf(),
            final(self).content@ == old(self).content@.take(old(self).cursor_position as int)
                + text@ + old(self).content@.skip(old(self).cursor_position as int),
            final(self).cursor_position == old(self).cursor_position + text@.len(),
            final(self).selection is None,
            final(self).modification_count == old(self).modification_count + 1,
    {
        let prefix = self.content.as_str().substring_char(0, self.cursor_position);
        let total = self.content.as_str().unicode_len();
        let suffix = self.content.as_str().substring_char(self.cursor_position, total);
        let new_content = prefix.to_owned().concat(text).concat(suffix);
        let tlen = text.unicode_len();
        // The new content's length fits a machine word, which bounds the cursor.
        let new_total = new_content.as_str().unicode_len();
        proof {
            assert(new_content@ =~= old(self).content@.take(old(self).cursor_position as int)
                + text@ + old(self).content@.skip(old(self).cursor_position as int));
        }
        self.content = new_content;
        self.cursor_position = self.cursor_position + tlen;
        self.selection = None;
        self.modification_count = self.modification_count + 1;
    }

    /// Deletes the given number of characters before the cursor, when that
    /// many stand there; otherwise nothing happens.
    pub fn delete_text(&mut self, length: usize)
        requires
            old(self).wf(),
            old(self).modification_count < u32::MAX,
        ensures
            final(self).wf(),
            old(self).cursor_position >= length ==> final(self).content@ == old(self).content@.take(old(self).cursor_position - length) + old(self).content@.skip(
                old(self).cursor_position as int,
            ) && final(self).cursor_position == old(self).cursor_position - length && final(self).selection is None && final(self).modification_count == old(self).modification_count
                + 1,
            old(self).cursor_position < length ==> *final(self) == *old(self),
    {
        if self.cursor_position >= length {
            let start = self.cursor_position - length;
            let prefix = self.content.as_str().substring_char(0, start);
            let total = self.content.as_str().unicode_len();
            let suffix = self.content.as_str().substring_char(self.cursor_position, total);
            let new_content = prefix.to_owned().concat(suffix);
            proof {
                assert(new_content@ =~= old(self).content@.take(
                    old(self).cursor_position - length,
                ) + old(self).content@.skip(old(self).cursor_position as int));
            }
            self.content = new_content;
            self.cursor_position = start;
            self.selection = None;
            self.modification_count = self.modification_count + 1;
        }
    }

    /// Moves the cursor, capped at the end of the content; the selection is
    /// dropped.
    pub fn set_cursor_position(&mut self, position: usize)
        ensures
            final(self).wf(),
            final(self).content == old(self).content,
            final(self).cursor_position == (if position as int <= old(self).content@.len() {
                position as int
            } else {
                old(self).content@.len() as int
            }),
            final(self).selection is None,
            final(self).modification_count == old(self).modification_count,
    {
        let total = self.content.as_str().unicode_len();
        self.cursor_position = if position <= total {
            position
        } else {
            total
        };
        self.selection = None;
    }

    /// Selects a range, both ends capped at the end of the content; the
    /// cursor moves to the end of it. A backwards range changes nothing.
    pub fn select_text(&mut self, start: usize, end: usize)
        requires
            old(self).wf(),
        ensures
            final(self).wf(),
            final(self).content == old(self).content,
            final(self).modification_count == old(self).modification_count,
            ({
                let n = old(self).content@.len();
                let s = if start as int <= n {
                    start as int
                } else {
                    n as int
                };
                let e = if end as int <= n {
                    end as int
                } else {
                    n as int
                };
                if s <= e {
                    final(self).selection == Some((s as usize, e as usize)) && final(self).cursor_position == e
                } else {
                    final(self).selection == old(self).selection && final(self).cursor_position
                        == old(self).cursor_position
                }
            }),
    {
        let total = self.content.as_str().unicode_len();
        let s = if start <= total {
            start
        } else {
            total
        };
        let e = if end <= total {
            end
        } else {
            total
        };
        if s <= e {
            self.selection = Some((s, e));
            self.cursor_position = e;
        }
    }

    pub fn get_content(&self) -> (r: &str)
        ensures
            r@ == self.content@,
    {
        self.content.as_str()
    }

    pub fn get_cursor_position(&self) -> (r: usize)
        ensures
            r == self.cursor_position,
    {
        self.cursor_position
    }

    pub fn get_selection(&self) -> (r: Option<(usize, usize)>)
        ensures
            r == self.selection,
    {
        self.selection
    }

    pub fn get_modification_count(&self) -> (r: u32)
        ensures
            r == self.modification_count,
    {
        self.modification_count
    }

    /// A snapshot of content, cursor and selection.
    pub fn create_memento(&self) -> (r: TextEditorMemento)
        ensures
            r.content@ == self.content@,
            r.cursor_position == self.cursor_position,
            r.selection == self.selection,
            self.wf() ==> r.wf(),
    {
        TextEditorMemento::new(self.content.clone(), self.cursor_position, self.selection)
    }

    /// Returns to a snapshot; the restoration itself counts as a change.
    pub fn restore_from_memento(&mut self, memento: &TextEditorMemento)
        requires
            memento.wf(),
            old(self).modification_count < u32::MAX,
        ensures
            final(self).wf(),
            final(self).content@ == memento.content@,
            final(self).cursor_position == memento.cursor_position,
            final(self).selection == memento.selection,
            final(self).modification_count == old(self).modification_count + 1,
    {
        self.content = memento.content.clone();
        self.cursor_position = memento.cursor_position;
        self.selection = memento.selection;
        self.modification_count = self.modification_count + 1;
    }

    /// The one-line status: content, cursor, selection and change count.
    pub fn get_status(&self) -> (r: String)
        ensures
            r@ == "Content: '"@ + self.content@ + "' | Cursor: "@ + dec_rep(
                self.cursor_position as nat,
            ) + " | Selection: "@ + selection_debug(self.selection) + " | Modifications: "@
                + dec_rep(self.modification_count as nat),
    {
        let sel = match self.selection {
            Some((a, b)) => {
                let s = "Some((".to_owned().concat(fmt_usize(a).as_str()).concat(", ").concat(
                    fmt_usize(b).as_str(),
                ).concat("))");
                proof {
                    assert(s@ =~= selection_debug(self.selection));
                }
                s
            },
            None => "None".to_owned(),
        };
        let r = "Content: '".to_owned().concat(self.content.as_str()).concat(
            "' | Cursor: ",
        ).concat(fmt_usize(self.cursor_position).as_str()).concat(" | Selection: ").concat(
            sel.as_str(),
        ).concat(" | Modifications: ").concat(fmt_u32(self.modification_count).as_str());
        proof {
            assert(r@ =~= "Content: '"@ + self.content@ + "' | Cursor: "@ + dec_rep(
                self.cursor_position as nat,
            ) + " | Selection: "@ + selection_debug(self.selection) + " | Modifications: "@
                + dec_rep(self.modification_count as nat));
        }
        r
    }
}

impl Default for TextEditor {
    /// The same empty buffer `new` yields.
    fn default() -> (r: TextEditor)
        ensures
            r.content@.len() == 0,
            r.cursor_position == 0,
            r.selection is None,
            r.modification_count == 0,
    {
        TextEditor::new()
    }
}

/// Keeps editor snapshots, a pointer into them, and a size bound; undo and
/// redo walk the pointer.
pub struct EditorHistory {
    pub mementos: Vec<TextEditorMemento>,
    pub current_index: Option<usize>,
    pub max_history: usize,
}

impl EditorHistory {
    /// Well-formedness: the pointer, when set, points at a held snapshot.
    pub open spec fn wf(self) -> bool {
        match self.current_index {
            Some(c) => (c as int) < self.mementos@.len(),
            None => true,
        }
    }

    /// An empty history with the given bound.
    pub fn new(max_history: usize) -> (r: EditorHistory)
        ensures
            r.mementos@.len() == 0,
            r.current_index is None,
            r.max_history == max_history,
            r.wf(),
    {
        EditorHistory { mementos: Vec::new(), current_index: None, max_history }
    }

    /// Stores a snapshot: anything after the pointer is discarded, the
    /// snapshot is appended, and when the bound is exceeded the oldest entry
    /// falls out (the pointer then stays where it was).
    pub fn save_state(&mut self, memento: TextEditorMemento)
        requires
            old(self).wf(),
        ensures
            final(self).wf(),
            final(self).max_history == old(self).max_history,
            ({
                let kept = match old(self).current_index {
                    Some(c) => old(self).mementos@.take(c + 1),
                    None => old(self).mementos@,
                };
                let grown = kept.push(memento);
                if grown.len() > old(self).max_history {
                    final(self).mementos@ == grown.skip(1) && final(self).current_index == old(self).current_index
                } else {
                    final(self).mementos@ == grown && final(self).current_index == Some(
                        (grown.len() - 1) as usize,
                    )
                }
            }),
    {
        if let Some(current) = self.current_index {
            let n = self.mementos.len();
            proof {
                assert(current < n);
            }
            self.mementos.truncate(current + 1);
        }
        self.mementos.push(memento);
        proof {
            match old(self).current_index {
                Some(c) => {
                    assert(self.mementos@ =~= old(self).mementos@.take(c + 1).push(memento));
                },
                None => {},
            }
        }
        if self.mementos.len() > self.max_history {
            self.mementos.remove(0);
            proof {
                let kept = match old(self).current_index {
                    Some(c) => old(self).mementos@.take(c + 1),
                    None => old(self).mementos@,
                };
                assert(self.mementos@ =~= kept.push(memento).skip(1));
            }
        } else {
            self.current_index = Some(self.mementos.len() - 1);
        }
    }

    /// Steps the pointer back and hands out that snapshot; at the start, or
    /// with nothing held, nothing happens.
    pub fn undo(&mut self) -> (r: Option<&TextEditorMemento>)
        requires
            old(self).wf(),
        ensures
            final(self).wf(),
            final(self).mementos == old(self).mementos,
            final(self).max_history == old(self).max_history,
            ({
                match old(self).current_index {
                    Some(c) => {
                        if c > 0 {
                            final(self).current_index == Some((c - 1) as usize) && (match r {
                                Some(m) => *m == old(self).mementos@[c - 1],
                                None => false,
                            })
                        } else {
                            final(self).current_index == old(self).current_index && r is None
                        }
                    },
                    None => final(self).current_index == old(self).current_index && r is None,
                }
            }),
    {
        if let Some(current) = self.current_index {
            if current > 0 {
                self.current_index = Some(current - 1);
                return Some(&self.mementos[current - 1]);
            }
        }
        None
    }

    /// Steps the pointer forward and hands out that snapshot; at the end, or
    /// with nothing held, nothing happens.
    pub fn redo(&mut self) -> (r: Option<&TextEditorMemento>)
        requires
            old(self).wf(),
        ensures
            final(self).wf(),
            final(self).mementos == old(self).mementos,
            final(self).max_history == old(self).max_history,
            ({
                match old(self).current_index {
                    Some(c) => {
                        if c + 1 < old(self).mementos@.len() {
                            final(self).current_index == Some((c + 1) as usize) && (match r {
                                Some(m) => *m == old(self).mementos@[c + 1],
                                None => false,
                            })
                        } else {
                            final(self).current_index == old(self).current_index && r is None
                        }
                    },
                    None => final(self).current_index == old(self).current_index && r is None,
                }
            }),
    {
        if let Some(current) = self.current_index {
            let n = self.mementos.len();
            proof {
                assert(current < n);
            }
            if current + 1 < n {
                self.current_index = Some(current + 1);
                return Some(&self.mementos[current + 1]);
            }
        }
        None
    }

    /// Whether `undo` would step back.
    pub fn can_undo(&self) -> (r: bool)
        ensures
            r == match self.current_index {
                Some(c) => c > 0,
                None => false,
            },
    {
        match self.current_index {
            Some(c) => c > 0,
            None => false,
        }
    }

    /// Whether `redo` would step forward.
    pub fn can_redo(&self) -> (r: bool)
        requires
            self.wf(),
        ensures
            r == match self.current_index {
                Some(c) => c + 1 < self.mementos@.len(),
                None => false,
            },
    {
        match self.current_index {
            Some(c) => {
                let n = self.mementos.len();
                proof {
                    assert(c < n);
                }
                c + 1 < n
            },
            None => false,
        }
    }

    pub fn get_history_size(&self) -> (r: usize)
        ensures
            r == self.mementos@.len(),
    {
        self.mementos.len()
    }

    pub fn get_current_index(&self) -> (r: Option<usize>)
        ensures
            r == self.current_index,
    {
        self.current_index
    }

    /// One line per snapshot, the current one marked with `>`.
    pub fn get_history_summary(&self) -> (r: Vec<String>)
        ensures
            r@.len() == self.mementos@.len(),
            forall|k: int|
                0 <= k < r@.len() ==> (#[trigger] r@[k])@ == summary_line(
                    self.mementos@[k],
                    k as nat,
                    self.current_index == Some(k as usize),
                ),
    {
        let mut out: Vec<String> = Vec::new();
        let mut i: usize = 0;
        while i < self.mementos.len()
            invariant
                i <= self.mementos@.len(),
                out@.len() == i,
                forall|k: int|
                    0 <= k < i ==> (#[trigger] out@[k])@ == summary_line(
                        self.mementos@[k],
                        k as nat,
                        self.current_index == Some(k as usize),
                    ),
            decreases self.mementos@.len() - i,
        {
            let is_current = match self.current_index {
                Some(c) => c == i,
                None => false,
            };
            let marker = if is_current {
                ">"
            } else {
                " "
            };
            let line = marker.to_owned().concat(" ").concat(fmt_usize(i).as_str()).concat(
                ": '",
            ).concat(self.mementos[i].content.as_str()).concat("' (").concat(
                fmt_u64(self.mementos[i].timestamp).as_str(),
            ).concat(")");
            proof {
                assert(line@ =~= summary_line(
                    self.mementos@[i as int],
                    i as nat,
                    self.current_index == Some(i),
                ));
            }
            out.push(line);
            i += 1;
        }
        out
    }
}

/// One history summary line.
pub open spec fn summary_line(m: TextEditorMemento, index: nat, current: bool) -> Seq<char> {
    (if current {
        ">"@
    } else {
        " "@
    }) + " "@ + dec_rep(index) + ": '"@ + m.content@ + "' ("@ + dec_rep(m.timestamp as nat) + ")"@
}

impl Default for EditorHistory {
    /// An empty history bounded at ten snapshots.
    fn default() -> (r: EditorHistory)
        ensures
            r.mementos@.len() == 0,
            r.current_index is None,
            r.max_history == 10,
    {
        EditorHistory::new(10)
    }
}

/// The index of the first setting under a key, or -1.
pub open spec fn setting_index(s: Seq<(String, String)>, key: Seq<char>) -> int
    decreases s.len(),
{
    if s.len() == 0 {
        -1
    } else if s[0].0@ == key {
        0
    } else {
        let rest = setting_index(s.subrange(1, s.len() as int), key);
        if rest == -1 {
            -1
        } else {
            rest + 1
        }
    }
}

pub proof fn lemma_setting_index(s: Seq<(String, String)>, key: Seq<char>)
    ensures
        setting_index(s, key) == -1 ==> forall|k: int| 0 <= k < s.len() ==> s[k].0@ != key,
        setting_index(s, key) != -1 ==> {
            let j = setting_index(s, key);
            0 <= j < s.len() && s[j].0@ == key && forall|k: int| 0 <= k < j ==> s[k].0@ != key
        },
    decreases s.len(),
{
    if s.len() > 0 && s[0].0@ != key {
        let rest = s.subrange(1, s.len() as int);
        lemma_setting_index(rest, key);
        assert(forall|k: int| 1 <= k < s.len() ==> #[trigger] s[k] == rest[k - 1]);
        if setting_index(rest, key) == -1 {
            assert(forall|k: int| 0 <= k < s.len() ==> (#[trigger] s[k]).0@ != key);
        } else {
            let j = setting_index(rest, key);
            assert(s[j + 1].0@ == key);
            assert(forall|k: int| 0 <= k < j + 1 ==> (#[trigger] s[k]).0@ != key);
        }
    }
}

/// A snapshot of the whole settings table.
#[derive(Debug, Clone)]
pub struct ConfigurationMemento {
    pub settings: Vec<(String, String)>,
    pub timestamp: u64,
    pub description: String,
}

impl ConfigurationMemento {
    /// A snapshot stamped with the current clock.
    pub fn new(settings: Vec<(String, String)>, description: String) -> (r: ConfigurationMemento)
        ensures
            r.settings == settings,
            r.description == description,
    {
        ConfigurationMemento { settings, timestamp: now_unix_secs(), description }
    }

    pub fn get_description(&self) -> (r: &str)
        ensures
            r@ == self.description@,
    {
        self.description.as_str()
    }

    pub fn get_timestamp(&self) -> (r: u64)
        ensures
            r == self.timestamp,
    {
        self.timestamp
    }
}

/// A settings table under unique keys, counting its changes.
pub struct ConfigurationManager {
    pub settings: Vec<(String, String)>,
    pub change_count: u32,
}

impl ConfigurationManager {
    /// Well-formedness: no two settings share a key.
    pub open spec fn wf(self) -> bool {
        forall|i: int, j: int|
            0 <= i < j < self.settings@.len() ==> (#[trigger] self.settings@[i].0@)
                != (#[trigger] self.settings@[j].0@)
    }

    /// An empty table.
    pub fn new() -> (r: ConfigurationManager)
        ensures
            r.settings@.len() == 0,
            r.change_count == 0,
            r.wf(),
    {
        ConfigurationManager { settings: Vec::new(), change_count: 0 }
    }

    fn find_setting(&self, key: &str) -> (r: Option<usize>)
        ensures
            match r {
                Some(i) => i < self.settings@.len() && setting_index(self.settings@, key@)
                    == i as int,
                None => setting_index(self.settings@, key@) == -1,
            },
    {
        let mut i: usize = 0;
        while i < self.settings.len()
            invariant
                i <= self.settings@.len(),
                forall|k: int| 0 <= k < i ==> (#[trigger] self.settings@[k]).0@ != key@,
            decreases self.settings@.len() - i,
        {
            if str_eq(self.settings[i].0.as_str(), key) {
                proof {
                    lemma_setting_index(self.settings@, key@);
                    let j = setting_index(self.settings@, key@);
                    if j == -1 || j < i || j > i {
                        assert(false);
                    }
                }
                return Some(i);
            }
            i += 1;
        }
        proof {
            lemma_setting_index(self.settings@, key@);
            if setting_index(self.settings@, key@) != -1 {
                assert(false);
            }
        }
        None
    }

    /// Writes a setting: a held key is overwritten, a new one appended; the
    /// change is counted.
    pub fn set_setting(&mut self, key: &str, value: &str)
        requires
            old(self).wf(),
            old(self).change_count < u32::MAX,
        ensures
            final(self).wf(),
            final(self).change_count == old(self).change_count + 1,
            ({
                let j = setting_index(old(self).settings@, key@);
                if j == -1 {
                    final(self).settings@.len() == old(self).settings@.len() + 1 && final(self).settings@.subrange(0, old(self).settings@.len() as int) == old(self).settings@ && final(self).settings@.last().0@ == key@ && final(self).settings@.last().1@ == value@
                } else {
                    final(self).settings@ == old(self).settings@.update(
                        j,
                        (final(self).settings@[j].0, final(self).settings@[j].1),
                    ) && final(self).settings@[j].0@ == key@ && final(self).settings@[j].1@
                        == value@ && final(self).settings@.len() == old(self).settings@.len()
                }
            }),
    {
        let ghost s = self.settings@;
        match self.find_setting(key) {
            Some(i) => {
                proof {
                    lemma_setting_index(s, key@);
                }
                self.settings[i] = (key.to_owned(), value.to_owned());
                proof {
                    assert(self.settings@ =~= s.update(i as int, self.settings@[i as int]));
                    assert(forall|a: int, b: int|
                        0 <= a < b < self.settings@.len() ==> (#[trigger] self.settings@[a].0@)
                            != (#[trigger] self.settings@[b].0@));
                }
            },
            None => {
                proof {
                    lemma_setting_index(s, key@);
                }
                self.settings.push((key.to_owned(), value.to_owned()));
                proof {
                    assert(self.settings@.subrange(0, s.len() as int) =~= s);
                    assert(forall|a: int, b: int|
                        0 <= a < b < self.settings@.len() ==> (#[trigger] self.settings@[a].0@)
                            != (#[trigger] self.settings@[b].0@));
                }
            },
        }
        self.change_count = self.change_count + 1;
    }

    /// The value under a key, if any.
    pub fn get_setting(&self, key: &str) -> (r: Option<&String>)
        ensures
            ({
                let j = setting_index(self.settings@, key@);
                match r {
                    Some(v) => j >= 0 && v@ == self.settings@[j].1@,
                    None => j == -1,
                }
            }),
    {
        match self.find_setting(key) {
            Some(i) => Some(&self.settings[i].1),
            None => None,
        }
    }

    /// Removes and returns the value under a key; only a removal counts as a
    /// change.
    pub fn remove_setting(&mut self, key: &str) -> (r: Option<String>)
        requires
            old(self).wf(),
            old(self).change_count < u32::MAX,
        ensures
            final(self).wf(),
            ({
                let j = setting_index(old(self).settings@, key@);
                match r {
                    Some(v) => j >= 0 && v@ == old(self).settings@[j].1@ && final(self).settings@
                        == old(self).settings@.remove(j) && final(self).change_count == old(self).change_count + 1,
                    None => j == -1 && *final(self) == *old(self),
                }
            }),
    {
        match self.find_setting(key) {
            Some(i) => {
                let pair = self.settings.remove(i);
                self.change_count = self.change_count + 1;
                proof {
                    assert(forall|a: int, b: int|
                        0 <= a < b < self.settings@.len() ==> (#[trigger] self.settings@[a].0@)
                            != (#[trigger] self.settings@[b].0@));
                }
                Some(pair.1)
            },
            None => None,
        }
    }

    /// The whole table.
    pub fn get_all_settings(&self) -> (r: &Vec<(String, String)>)
        ensures
            r == self.settings,
    {
        &self.settings
    }

    pub fn get_change_count(&self) -> (r: u32)
        ensures
            r == self.change_count,
    {
        self.change_count
    }

    /// A described snapshot of the table, stamped with the clock.
    pub fn create_snapshot(&self, description: &str) -> (r: ConfigurationMemento)
        ensures
            settings_view(r.settings@) == settings_view(self.settings@),
            r.description@ == description@,
    {
        let mut copied: Vec<(String, String)> = Vec::new();
        let mut i: usize = 0;
        while i < self.settings.len()
            invariant
                i <= self.settings@.len(),
                copied@.len() == i,
                forall|k: int|
                    0 <= k < i ==> (#[trigger] copied@[k]).0@ == self.settings@[k].0@
                        && copied@[k].1@ == self.settings@[k].1@,
            decreases self.settings@.len() - i,
        {
            copied.push((self.settings[i].0.clone(), self.settings[i].1.clone()));
            i += 1;
        }
        proof {
            assert(settings_view(copied@) =~= settings_view(self.settings@));
        }
        ConfigurationMemento::new(copied, description.to_owned())
    }

    /// Returns the table to a snapshot; the restoration counts as a change.
    pub fn restore_snapshot(&mut self, memento: &ConfigurationMemento)
        requires
            old(self).change_count < u32::MAX,
        ensures
            settings_view(final(self).settings@) == settings_view(memento.settings@),
            final(self).change_count == old(self).change_count + 1,
    {
        let mut copied: Vec<(String, String)> = Vec::new();
        let mut i: usize = 0;
        while i < memento.settings.len()
            invariant
                i <= memento.settings@.len(),
                copied@.len() == i,
                forall|k: int|
                    0 <= k < i ==> (#[trigger] copied@[k]).0@ == memento.settings@[k].0@
                        && copied@[k].1@ == memento.settings@[k].1@,
            decreases memento.settings@.len() - i,
        {
            copied.push((memento.settings[i].0.clone(), memento.settings[i].1.clone()));
            i += 1;
        }
        proof {
            assert(settings_view(copied@) =~= settings_view(memento.settings@));
        }
        self.settings = copied;
        self.change_count = self.change_count + 1;
    }
}

/// The settings table, as pairs of character sequences.
pub open spec fn settings_view(s: Seq<(String, String)>) -> Seq<(Seq<char>, Seq<char>)> {
    s.map_values(|p: (String, String)| (p.0@, p.1@))
}

impl Default for ConfigurationManager {
    /// The same empty table `new` yields.
    fn default() -> (r: ConfigurationManager)
        ensures
            r.settings@.len() == 0,
            r.change_count == 0,
            r.wf(),
    {
        ConfigurationManager::new()
    }
}

} // verus!
