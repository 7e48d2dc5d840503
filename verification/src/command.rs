//! Commands as values: each one captures what it needs, runs against an
//! explicit receiver, and can undo itself. Around them: a manager with
//! undo-and-redo history, a macro that bundles commands, a remote control
//! with programmable slots, and a priority queue with retries. Text positions
//! count characters.

use vstd::prelude::*;

use crate::state::msg_result;
use crate::util::dec_rep;
use crate::util::fmt_u8;
use crate::util::fmt_usize;
use crate::util::join_strings;
use crate::util::join_with;

verus! {

/// The spec-level image of the editing buffer.
#[verifier::ext_equal]
pub struct EditorModel {
    pub content: Seq<char>,
    pub cursor: int,
}

/// A position clipped to the end of the content.
pub open spec fn em_clip(m: EditorModel, pos: int) -> int {
    if pos <= m.content.len() {
        pos
    } else {
        m.content.len() as int
    }
}

/// The buffer after inserting text at a clipped position.
pub open spec fn em_insert(m: EditorModel, pos: int, text: Seq<char>) -> EditorModel {
    let p = em_clip(m, pos);
    EditorModel {
        content: m.content.take(p) + text + m.content.skip(p),
        cursor: p + text.len(),
    }
}

/// How many characters a delete before a clipped position removes: the asked
/// length, or everything before the position.
pub open spec fn em_deleted_count(m: EditorModel, pos: int, len: int) -> int {
    let p = em_clip(m, pos);
    if p >= len {
        len
    } else {
        p
    }
}

/// The characters such a delete removes.
pub open spec fn em_deleted_text(m: EditorModel, pos: int, len: int) -> Seq<char> {
    let p = em_clip(m, pos);
    let d = em_deleted_count(m, pos, len);
    m.content.subrange(p - d, p)
}

/// The buffer after such a delete.
pub open spec fn em_delete(m: EditorModel, pos: int, len: int) -> EditorModel {
    let p = em_clip(m, pos);
    let d = em_deleted_count(m, pos, len);
    EditorModel { content: m.content.take(p - d) + m.content.skip(p), cursor: p - d }
}

/// The editing buffer commands work on: content and a character cursor.
#[derive(Debug)]
pub struct TextEditor {
    pub content: String,
    pub cursor_position: usize,
}

impl View for TextEditor {
    type V = EditorModel;

    open spec fn view(&self) -> EditorModel {
        EditorModel { content: self.content@, cursor: self.cursor_position as int }
    }
}

impl TextEditor {
    /// Well-formedness: the cursor sits inside the content.
    pub open spec fn wf(self) -> bool {
        self.cursor_position <= self.content@.len()
    }

    /// An empty buffer.
    pub fn new() -> (r: TextEditor)
        ensures
            r@ == (EditorModel { content: Seq::empty(), cursor: 0 }),
            r.wf(),
    {
        let r = TextEditor { content: String::new(), cursor_position: 0 };
        proof {
            assert(r@ =~= (EditorModel { content: Seq::empty(), cursor: 0 }));
        }
        r
    }

    /// Inserts text at the cursor and reports where.
    pub fn insert_text(&mut self, text: &str) -> (r: String)
        requires
            old(self).wf(),
        ensures
            final(self).wf(),
            final(self)@ == em_insert(old(self)@, old(self)@.cursor, text@),
            r@ == "Inserted '"@ + text@ + "' at position "@ + dec_rep(old(self)@.cursor as nat),
    {
        let ghost before = self@;
        let position = self.cursor_position;
        let prefix = self.content.as_str().substring_char(0, position);
        let total = self.content.as_str().unicode_len();
        let suffix = self.content.as_str().substring_char(position, total);
        let new_content = prefix.to_owned().concat(text).concat(suffix);
        let tlen = text.unicode_len();
        // The new content's length fits a machine word, which bounds the cursor.
        let new_total = new_content.as_str().unicode_len();
        proof {
            assert(new_content@ =~= before.content.take(before.cursor) + text@
                + before.content.skip(before.cursor));
        }
        self.content = new_content;
        self.cursor_position = position + tlen;
        let msg = "Inserted '".to_owned().concat(text).concat("' at position ").concat(
            fmt_usize(position).as_str(),
        );
        proof {
            assert(self@ =~= em_insert(before, before.cursor, text@));
            assert(msg@ =~= "Inserted '"@ + text@ + "' at position "@ + dec_rep(
                before.cursor as nat,
            ));
        }
        msg
    }

    /// Deletes up to `length` characters before the cursor — fewer when the
    /// cursor is close to the start — and hands back the removed text and a
    /// report of how many went.
    pub fn delete_text(&mut self, length: usize) -> (r: (String, String))
        requires
            old(self).wf(),
        ensures
            final(self).wf(),
            final(self)@ == em_delete(old(self)@, old(self)@.cursor, length as int),
            r.0@ == em_deleted_text(old(self)@, old(self)@.cursor, length as int),
            r.1@ == "Deleted "@ + dec_rep(
                em_deleted_count(old(self)@, old(self)@.cursor, length as int) as nat,
            ) + " characters"@,
    {
        let ghost before = self@;
        let position = self.cursor_position;
        let d = if position >= length {
            length
        } else {
            position
        };
        let start = position - d;
        let deleted = self.content.as_str().substring_char(start, position).to_owned();
        let total = self.content.as_str().unicode_len();
        let prefix = self.content.as_str().substring_char(0, start);
        let suffix = self.content.as_str().substring_char(position, total);
        let new_content = prefix.to_owned().concat(suffix);
        proof {
            assert(deleted@ =~= em_deleted_text(before, before.cursor, length as int));
            assert(new_content@ =~= before.content.take(start as int) + before.content.skip(
                before.cursor,
            ));
        }
        self.content = new_content;
        self.cursor_position = start;
        let msg = "Deleted ".to_owned().concat(fmt_usize(d).as_str()).concat(" characters");
        proof {
            assert(self@ =~= em_delete(before, before.cursor, length as int));
            assert(msg@ =~= "Deleted "@ + dec_rep(
                em_deleted_count(before, before.cursor, length as int) as nat,
            ) + " characters"@);
        }
        (deleted, msg)
    }

    /// Moves the cursor, capped at the end of the content.
    pub fn move_cursor(&mut self, position: usize) -> (r: String)
        requires
            old(self).wf(),
        ensures
            final(self).wf(),
            final(self)@ == (EditorModel {
                cursor: em_clip(old(self)@, position as int),
                ..old(self)@
            }),
            r@ == "Moved cursor from "@ + dec_rep(old(self)@.cursor as nat) + " to "@ + dec_rep(
                em_clip(old(self)@, position as int) as nat,
            ),
    {
        let old_position = self.cursor_position;
        let total = self.content.as_str().unicode_len();
        self.cursor_position = if position <= total {
            position
        } else {
            total
        };
        let msg = "Moved cursor from ".to_owned().concat(fmt_usize(old_position).as_str()).concat(
            " to ",
        ).concat(fmt_usize(self.cursor_position).as_str());
        proof {
            assert(self@ =~= (EditorModel {
                cursor: em_clip(old(self)@, position as int),
                ..old(self)@
            }));
            assert(msg@ =~= "Moved cursor from "@ + dec_rep(old(self)@.cursor as nat) + " to "@
                + dec_rep(em_clip(old(self)@, position as int) as nat));
        }
        msg
    }

    pub fn get_content(&self) -> (r: &str)
        ensures
            r@ == self@.content,
    {
        self.content.as_str()
    }

    pub fn get_cursor_position(&self) -> (r: usize)
        ensures
            r as int == self@.cursor,
    {
        self.cursor_position
    }

    /// The text of a clipped range; a backwards range reads as empty.
    pub fn select_text(&self, start: usize, end: usize) -> (r: String)
        requires
            self.wf(),
        ensures
            ({
                let n = self@.content.len();
                let s = em_clip(self@, start as int);
                let e = em_clip(self@, end as int);
                if s <= e {
                    r@ == self@.content.subrange(s, e)
                } else {
                    r@.len() == 0
                }
            }),
    {
        let total = self.content.as_str().unicode_len();
        let s = if start <= total {
            start
        } else {
            total
        };
        let e = if end <= total {
            end
        } else {
            total
        };
        if s <= e {
            self.content.as_str().substring_char(s, e).to_owned()
        } else {
            String::new()
        }
    }

    /// Replaces a clipped range with new text; the cursor lands after it.
    pub fn replace_text(&mut self, start: usize, end: usize, new_text: &str) -> (r: String)
        requires
            old(self).wf(),
        ensures
            final(self).wf(),
            ({
                let m = old(self)@;
                let s = em_clip(m, start as int);
                let e0 = em_clip(m, end as int);
                let e = if e0 >= s {
                    e0
                } else {
                    s
                };
                final(self)@.content == m.content.take(s) + new_text@ + m.content.skip(e)
                    && final(self)@.cursor == s + new_text@.len() && r@ == "Replaced '"@
                    + m.content.subrange(s, e) + "' with '"@ + new_text@ + "'"@
            }),
    {
        let ghost m = self@;
        let total = self.content.as_str().unicode_len();
        let s = if start <= total {
            start
        } else {
            total
        };
        let e0 = if end <= total {
            end
        } else {
            total
        };
        let e = if e0 >= s {
            e0
        } else {
            s
        };
        let old_text = self.content.as_str().substring_char(s, e).to_owned();
        let prefix = self.content.as_str().substring_char(0, s);
        let suffix = self.content.as_str().substring_char(e, total);
        let new_content = prefix.to_owned().concat(new_text).concat(suffix);
        let tlen = new_text.unicode_len();
        proof {
            assert(new_content@ =~= m.content.take(s as int) + new_text@ + m.content.skip(
                e as int,
            ));
        }
        // The new content's length fits a machine word, which bounds the cursor.
        let new_total = new_content.as_str().unicode_len();
        self.content = new_content;
        proof {
            assert(s + tlen <= new_total);
        }
        self.cursor_position = s + tlen;
        let msg = "Replaced '".to_owned().concat(old_text.as_str()).concat("' with '").concat(
            new_text,
        ).concat("'");
        proof {
            assert(msg@ =~= "Replaced '"@ + m.content.subrange(s as int, e as int) + "' with '"@
                + new_text@ + "'"@);
        }
        msg
    }
}

impl Default for TextEditor {
    /// The same empty buffer `new` yields.
    fn default() -> (r: TextEditor)
        ensures
            r@ == (EditorModel { content: Seq::empty(), cursor: 0 }),
            r.wf(),
    {
        TextEditor::new()
    }
}

/// What every command does: run against its receiver, and undo itself. Each
/// implementor fixes, as spec functions, when it may run, what it does to the
/// receiver's model, what it reports, and what it leaves of itself.
pub trait Command: Sized {
    /// What the command acts on.
    type Receiver: View;

    /// The receiver states the command is allowed to touch.
    spec fn receiver_wf(&self, m: <Self::Receiver as View>::V) -> bool;

    spec fn exec_enabled(&self) -> bool;

    spec fn exec_effect(&self, m: <Self::Receiver as View>::V) -> <Self::Receiver as View>::V;

    spec fn exec_msg(&self, m: <Self::Receiver as View>::V) -> Seq<char>;

    spec fn exec_err(&self) -> Seq<char>;

    /// What the command itself becomes on a successful run.
    spec fn post_exec(&self, m: <Self::Receiver as View>::V, next: Self) -> bool;

    spec fn undo_enabled(&self) -> bool;

    spec fn undo_effect(&self, m: <Self::Receiver as View>::V) -> <Self::Receiver as View>::V;

    spec fn undo_msg(&self, m: <Self::Receiver as View>::V) -> Seq<char>;

    spec fn undo_err(&self) -> Seq<char>;

    /// What the command itself becomes on a successful undo.
    spec fn post_undo(&self, m: <Self::Receiver as View>::V, next: Self) -> bool;

    spec fn description(&self) -> Seq<char>;

    spec fn undoable(&self) -> bool;

    fn execute(&mut self, receiver: &mut Self::Receiver) -> (r: Result<String, String>)
        requires
            old(self).receiver_wf(old(receiver)@),
        ensures
            old(self).exec_enabled() ==> old(self).post_exec(old(receiver)@, *final(self)) && final(receiver)@ == old(self).exec_effect(old(receiver)@) && msg_result(r) == Ok::<
                Seq<char>,
                Seq<char>,
            >(old(self).exec_msg(old(receiver)@)) && final(self).receiver_wf(final(receiver)@),
            !old(self).exec_enabled() ==> *final(self) == *old(self) && *final(receiver) == *old(receiver) && msg_result(r) == Err::<Seq<char>, Seq<char>>(old(self).exec_err()),
    ;

    fn undo(&mut self, receiver: &mut Self::Receiver) -> (r: Result<String, String>)
        requires
            old(self).receiver_wf(old(receiver)@),
        ensures
            old(self).undo_enabled() ==> old(self).post_undo(old(receiver)@, *final(self)) && final(receiver)@ == old(self).undo_effect(old(receiver)@) && msg_result(r) == Ok::<
                Seq<char>,
                Seq<char>,
            >(old(self).undo_msg(old(receiver)@)) && final(self).receiver_wf(final(receiver)@),
            !old(self).undo_enabled() ==> *final(self) == *old(self) && *final(receiver) == *old(receiver) && msg_result(r) == Err::<Seq<char>, Seq<char>>(old(self).undo_err()),
    ;

    fn get_description(&self) -> (r: String)
        ensures
            r@ == self.description(),
    ;

    fn can_undo(&self) -> (r: bool)
        ensures
            r == self.undoable(),
    ;
}

/// Inserts its text at the editor's cursor and remembers where; undo
/// deletes it again.
#[derive(Debug)]
pub struct InsertCommand {
    pub text: String,
    pub position: usize,
    pub executed: bool,
}

impl InsertCommand {
    /// Captures the editor's cursor as the insertion position; the editor is
    /// untouched.
    pub fn new(editor: &mut TextEditor, text: String) -> (r: InsertCommand)
        ensures
            *final(editor) == *old(editor),
            r.text == text,
            r.position as int == old(editor)@.cursor,
            !r.executed,
    {
        let position = editor.get_cursor_position();
        InsertCommand { text, position, executed: false }
    }
}

impl Command for InsertCommand {
    type Receiver = TextEditor;

    open spec fn receiver_wf(&self, m: EditorModel) -> bool {
        0 <= m.cursor <= m.content.len()
    }

    open spec fn exec_enabled(&self) -> bool {
        !self.executed
    }

    open spec fn exec_effect(&self, m: EditorModel) -> EditorModel {
        em_insert(m, m.cursor, self.text@)
    }

    open spec fn exec_msg(&self, m: EditorModel) -> Seq<char> {
        "Inserted '"@ + self.text@ + "' at position "@ + dec_rep(m.cursor as nat)
    }

    open spec fn exec_err(&self) -> Seq<char> {
        "Command already executed"@
    }

    open spec fn post_exec(&self, m: EditorModel, next: InsertCommand) -> bool {
        next.text@ == self.text@ && next.position as int == m.cursor && next.executed
    }

    open spec fn undo_enabled(&self) -> bool {
        self.executed
    }

    open spec fn undo_effect(&self, m: EditorModel) -> EditorModel {
        em_delete(m, self.position + self.text@.len(), self.text@.len() as int)
    }

    open spec fn undo_msg(&self, m: EditorModel) -> Seq<char> {
        "Undone: Deleted "@ + dec_rep(
            em_deleted_count(m, self.position + self.text@.len(), self.text@.len() as int) as nat,
        ) + " characters"@
    }

    open spec fn undo_err(&self) -> Seq<char> {
        "Command not executed"@
    }

    open spec fn post_undo(&self, m: EditorModel, next: InsertCommand) -> bool {
        next.text@ == self.text@ && next.position == self.position && !next.executed
    }

    open spec fn description(&self) -> Seq<char> {
        "Insert '"@ + self.text@ + "' at position "@ + dec_rep(self.position as nat)
    }

    open spec fn undoable(&self) -> bool {
        self.executed
    }

    fn execute(&mut self, receiver: &mut TextEditor) -> (r: Result<String, String>) {
        if self.executed {
            return Err("Command already executed".to_owned());
        }
        let position = receiver.get_cursor_position();
        let result = receiver.insert_text(self.text.clone().as_str());
        self.position = position;
        self.executed = true;
        Ok(result)
    }

    fn undo(&mut self, receiver: &mut TextEditor) -> (r: Result<String, String>) {
        if !self.executed {
            return Err("Command not executed".to_owned());
        }
        let tlen = self.text.as_str().unicode_len();
        if self.position > usize::MAX - tlen {
            let total = receiver.content.as_str().unicode_len();
            proof {
                assert(self.position + self.text@.len() > usize::MAX >= total);
                assert(em_clip(receiver@, self.position + self.text@.len() as int)
                    == receiver@.content.len());
            }
            receiver.move_cursor(total);
        } else {
            receiver.move_cursor(self.position + tlen);
        }
        let (_, result) = receiver.delete_text(tlen);
        self.executed = false;
        let msg = "Undone: ".to_owned().concat(result.as_str());
        proof {
            reveal_strlit("Undone: ");
            reveal_strlit("Deleted ");
            reveal_strlit("Undone: Deleted ");
            assert(msg@ =~= old(self).undo_msg(old(receiver)@));
            assert(receiver@ =~= old(self).undo_effect(old(receiver)@));
        }
        Ok(msg)
    }

    fn get_description(&self) -> (r: String) {
        let r = "Insert '".to_owned().concat(self.text.as_str()).concat(
            "' at position ",
        ).concat(fmt_usize(self.position).as_str());
        proof {
            assert(r@ =~= self.description());
        }
        r
    }

    fn can_undo(&self) -> (r: bool) {
        self.executed
    }
}

/// Deletes a stretch before the editor's cursor and remembers where; undo
/// puts the removed text back.
#[derive(Debug)]
pub struct DeleteCommand {
    pub deleted_text: String,
    pub position: usize,
    pub length: usize,
    pub executed: bool,
}

impl DeleteCommand {
    /// Captures the editor's cursor as the deletion position; the editor is
    /// untouched.
    pub fn new(editor: &mut TextEditor, length: usize) -> (r: DeleteCommand)
        ensures
            *final(editor) == *old(editor),
            r.deleted_text@.len() == 0,
            r.position as int == old(editor)@.cursor,
            r.length == length,
            !r.executed,
    {
        let position = editor.get_cursor_position();
        DeleteCommand { deleted_text: String::new(), position, length, executed: false }
    }
}

impl Command for DeleteCommand {
    type Receiver = TextEditor;

    open spec fn receiver_wf(&self, m: EditorModel) -> bool {
        0 <= m.cursor <= m.content.len()
    }

    open spec fn exec_enabled(&self) -> bool {
        !self.executed
    }

    open spec fn exec_effect(&self, m: EditorModel) -> EditorModel {
        em_delete(m, m.cursor, self.length as int)
    }

    open spec fn exec_msg(&self, m: EditorModel) -> Seq<char> {
        "Deleted "@ + dec_rep(em_deleted_count(m, m.cursor, self.length as int) as nat)
            + " characters"@
    }

    open spec fn exec_err(&self) -> Seq<char> {
        "Command already executed"@
    }

    open spec fn post_exec(&self, m: EditorModel, next: DeleteCommand) -> bool {
        next.position as int == em_delete(m, m.cursor, self.length as int).cursor && next.length
            == self.length && next.executed && next.deleted_text@ == em_deleted_text(
            m,
            m.cursor,
            self.length as int,
        )
    }

    open spec fn undo_enabled(&self) -> bool {
        self.executed
    }

    open spec fn undo_effect(&self, m: EditorModel) -> EditorModel {
        em_insert(m, self.position as int, self.deleted_text@)
    }

    open spec fn undo_msg(&self, m: EditorModel) -> Seq<char> {
        "Undone: Inserted '"@ + self.deleted_text@ + "' at position "@ + dec_rep(
            em_clip(m, self.position as int) as nat,
        )
    }

    open spec fn undo_err(&self) -> Seq<char> {
        "Command not executed"@
    }

    open spec fn post_undo(&self, m: EditorModel, next: DeleteCommand) -> bool {
        next.position == self.position && next.length == self.length && !next.executed
            && next.deleted_text@ == self.deleted_text@
    }

    open spec fn description(&self) -> Seq<char> {
        "Delete "@ + dec_rep(self.length as nat) + " characters at position "@ + dec_rep(
            self.position as nat,
        )
    }

    open spec fn undoable(&self) -> bool {
        self.executed
    }

    fn execute(&mut self, receiver: &mut TextEditor) -> (r: Result<String, String>) {
        if self.executed {
            return Err("Command already executed".to_owned());
        }
        let (deleted, result) = receiver.delete_text(self.length);
        self.deleted_text = deleted;
        self.position = receiver.get_cursor_position();
        self.executed = true;
        Ok(result)
    }

    fn undo(&mut self, receiver: &mut TextEditor) -> (r: Result<String, String>) {
        if !self.executed {
            return Err("Command not executed".to_owned());
        }
        receiver.move_cursor(self.position);
        let result = receiver.insert_text(self.deleted_text.clone().as_str());
        self.executed = false;
        let msg = "Undone: ".to_owned().concat(result.as_str());
        proof {
            reveal_strlit("Undone: ");
            reveal_strlit("Inserted '");
            reveal_strlit("Undone: Inserted '");
            assert(msg@ =~= old(self).undo_msg(old(receiver)@));
        }
        Ok(msg)
    }

    fn get_description(&self) -> (r: String) {
        let r = "Delete ".to_owned().concat(fmt_usize(self.length).as_str()).concat(
            " characters at position ",
        ).concat(fmt_usize(self.position).as_str());
        proof {
            assert(r@ =~= self.description());
        }
        r
    }

    fn can_undo(&self) -> (r: bool) {
        self.executed
    }
}

/// Either of the two editor commands.
pub enum EditorCommand {
    Insert(InsertCommand),
    Delete(DeleteCommand),
}

impl Command for EditorCommand {
    type Receiver = TextEditor;

    open spec fn receiver_wf(&self, m: EditorModel) -> bool {
        0 <= m.cursor <= m.content.len()
    }

    open spec fn exec_enabled(&self) -> bool {
        match self {
            EditorCommand::Insert(c) => c.exec_enabled(),
            EditorCommand::Delete(c) => c.exec_enabled(),
        }
    }

    open spec fn exec_effect(&self, m: EditorModel) -> EditorModel {
        match self {
            EditorCommand::Insert(c) => c.exec_effect(m),
            EditorCommand::Delete(c) => c.exec_effect(m),
        }
    }

    open spec fn exec_msg(&self, m: EditorModel) -> Seq<char> {
        match self {
            EditorCommand::Insert(c) => c.exec_msg(m),
            EditorCommand::Delete(c) => c.exec_msg(m),
        }
    }

    open spec fn exec_err(&self) -> Seq<char> {
        match self {
            EditorCommand::Insert(c) => c.exec_err(),
            EditorCommand::Delete(c) => c.exec_err(),
        }
    }

    open spec fn post_exec(&self, m: EditorModel, next: EditorCommand) -> bool {
        match (self, next) {
            (EditorCommand::Insert(c), EditorCommand::Insert(n)) => c.post_exec(m, n),
            (EditorCommand::Delete(c), EditorCommand::Delete(n)) => c.post_exec(m, n),
            _ => false,
        }
    }

    open spec fn undo_enabled(&self) -> bool {
        match self {
            EditorCommand::Insert(c) => c.undo_enabled(),
            EditorCommand::Delete(c) => c.undo_enabled(),
        }
    }

    open spec fn undo_effect(&self, m: EditorModel) -> EditorModel {
        match self {
            EditorCommand::Insert(c) => c.undo_effect(m),
            EditorCommand::Delete(c) => c.undo_effect(m),
        }
    }

    open spec fn undo_msg(&self, m: EditorModel) -> Seq<char> {
        match self {
            EditorCommand::Insert(c) => c.undo_msg(m),
            EditorCommand::Delete(c) => c.undo_msg(m),
        }
    }

    open spec fn undo_err(&self) -> Seq<char> {
        match self {
            EditorCommand::Insert(c) => c.undo_err(),
            EditorCommand::Delete(c) => c.undo_err(),
        }
    }

    open spec fn post_undo(&self, m: EditorModel, next: EditorCommand) -> bool {
        match (self, next) {
            (EditorCommand::Insert(c), EditorCommand::Insert(n)) => c.post_undo(m, n),
            (EditorCommand::Delete(c), EditorCommand::Delete(n)) => c.post_undo(m, n),
            _ => false,
        }
    }

    open spec fn description(&self) -> Seq<char> {
        match self {
            EditorCommand::Insert(c) => c.description(),
            EditorCommand::Delete(c) => c.description(),
        }
    }

    open spec fn undoable(&self) -> bool {
        match self {
            EditorCommand::Insert(c) => c.undoable(),
            EditorCommand::Delete(c) => c.undoable(),
        }
    }

    fn execute(&mut self, receiver: &mut TextEditor) -> (r: Result<String, String>) {
        match self {
            EditorCommand::Insert(c) => c.execute(receiver),
            EditorCommand::Delete(c) => c.execute(receiver),
        }
    }

    fn undo(&mut self, receiver: &mut TextEditor) -> (r: Result<String, String>) {
        match self {
            EditorCommand::Insert(c) => c.undo(receiver),
            EditorCommand::Delete(c) => c.undo(receiver),
        }
    }

    fn get_description(&self) -> (r: String) {
        match self {
            EditorCommand::Insert(c) => c.get_description(),
            EditorCommand::Delete(c) => c.get_description(),
        }
    }

    fn can_undo(&self) -> (r: bool) {
        match self {
            EditorCommand::Insert(c) => c.can_undo(),
            EditorCommand::Delete(c) => c.can_undo(),
        }
    }
}

/// Whether every command in a list may run.
pub open spec fn all_enabled(s: Seq<EditorCommand>) -> bool {
    forall|k: int| 0 <= k < s.len() ==> (#[trigger] s[k]).exec_enabled()
}

/// The buffer after running the commands front to back.
pub open spec fn run_all(s: Seq<EditorCommand>, m: EditorModel) -> EditorModel
    decreases s.len(),
{
    if s.len() == 0 {
        m
    } else {
        s.last().exec_effect(run_all(s.drop_last(), m))
    }
}

/// The reports of running the commands front to back.
pub open spec fn msgs_all(s: Seq<EditorCommand>, m: EditorModel) -> Seq<Seq<char>>
    decreases s.len(),
{
    if s.len() == 0 {
        Seq::empty()
    } else {
        msgs_all(s.drop_last(), m) + seq![s.last().exec_msg(run_all(s.drop_last(), m))]
    }
}

/// The buffer after undoing the commands from index `i` on, back to front.
pub open spec fn undo_from(s: Seq<EditorCommand>, m: EditorModel, i: int) -> EditorModel
    decreases s.len() - i,
{
    if i < 0 || i >= s.len() {
        m
    } else {
        s[i].undo_effect(undo_from(s, m, i + 1))
    }
}

/// Bundles editor commands and runs them as one; a failing member rolls the
/// earlier ones back.
pub struct MacroCommand {
    pub commands: Vec<EditorCommand>,
    pub description: String,
    pub executed: bool,
}

impl MacroCommand {
    /// An empty bundle under a description.
    pub fn new(description: String) -> (r: MacroCommand)
        ensures
            r.commands@.len() == 0,
            r.description == description,
            !r.executed,
    {
        MacroCommand { commands: Vec::new(), description, executed: false }
    }

    /// Appends one command to the bundle.
    pub fn add_command(&mut self, command: EditorCommand)
        ensures
            final(self).commands@ == old(self).commands@.push(command),
            final(self).description == old(self).description,
            final(self).executed == old(self).executed,
    {
        self.commands.push(command);
    }

    pub fn get_command_count(&self) -> (r: usize)
        ensures
            r == self.commands@.len(),
    {
        self.commands.len()
    }

    /// Runs the whole bundle. A bundle that already ran is refused; when
    /// every member may run, all of them do, in order, and the report joins
    /// their messages. When a member refuses, the members already run are
    /// undone and the error names the cause; the buffer may then hold any
    /// intermediate state the roll-back reached.
    pub fn execute(&mut self, editor: &mut TextEditor) -> (r: Result<String, String>)
        requires
            old(editor).wf(),
        ensures
            final(editor).wf(),
            final(self).description == old(self).description,
            old(self).executed ==> *final(self) == *old(self) && *final(editor) == *old(editor)
                && msg_result(r) == Err::<Seq<char>, Seq<char>>("Macro already executed"@),
            !old(self).executed && all_enabled(old(self).commands@) ==> final(self).executed
                && final(self).commands@.len() == old(self).commands@.len() && final(editor)@
                == run_all(old(self).commands@, old(editor)@) && msg_result(r) == Ok::<
                Seq<char>,
                Seq<char>,
            >(
                "Executed macro: "@ + join_with(
                    msgs_all(old(self).commands@, old(editor)@),
                    "; "@,
                ),
            ),
    {
        if self.executed {
            return Err("Macro already executed".to_owned());
        }
        let ghost s = self.commands@;
        let ghost m0 = editor@;
        let ghost good = all_enabled(s);
        let mut results: Vec<String> = Vec::new();
        let mut i: usize = 0;
        while i < self.commands.len()
            invariant
                editor.wf(),
                s == old(self).commands@,
                m0 == old(editor)@,
                old(self).executed == false,
                self.commands@.len() == s.len(),
                self.description == old(self).description,
                self.executed == false,
                i <= s.len(),
                good == all_enabled(s),
                good ==> (forall|k: int|
                    i <= k < s.len() ==> (#[trigger] self.commands@[k]) == s[k]),
                good ==> editor@ == run_all(s.take(i as int), m0),
                good ==> results@.map_values(|x: String| x@) == msgs_all(s.take(i as int), m0),
            decreases s.len() - i,
        {
            let outcome = self.commands[i].execute(editor);
            proof {
                if good {
                    assert(s[i as int].exec_enabled());
                    assert(s.take(i + 1).drop_last() =~= s.take(i as int));
                    assert(s.take(i + 1).last() == s[i as int]);
                }
            }
            match outcome {
                Ok(result) => {
                    results.push(result);
                    proof {
                        if good {
                            assert(results@.map_values(|x: String| x@) =~= msgs_all(
                                s.take(i + 1),
                                m0,
                            ));
                        }
                    }
                    i += 1;
                },
                Err(e) => {
                    proof {
                        if good {
                            assert(s[i as int].exec_enabled());
                            assert(false);
                        }
                    }
                    let mut j = i;
                    while j > 0
                        invariant
                            editor.wf(),
                            self.commands@.len() == s.len(),
                            self.description == old(self).description,
                            self.executed == false,
                            j <= s.len(),
                        decreases j,
                    {
                        j -= 1;
                        if self.commands[j].can_undo() {
                            let rolled_back = self.commands[j].undo(editor);
                        }
                    }
                    let msg = "Macro failed: ".to_owned().concat(e.as_str());
                    return Err(msg);
                },
            }
        }
        self.executed = true;
        let joined = join_strings(&results, "; ");
        let msg = "Executed macro: ".to_owned().concat(joined.as_str());
        proof {
            if good {
                assert(s.take(s.len() as int) =~= s);
                assert(msg@ =~= "Executed macro: "@ + join_with(msgs_all(s, m0), "; "@));
            }
        }
        Ok(msg)
    }

    /// Undoes the bundle, last member first. A bundle that never ran is
    /// refused; when every member can undo, all of them do and the report
    /// joins their messages.
    pub fn undo(&mut self, editor: &mut TextEditor) -> (r: Result<String, String>)
        requires
            old(editor).wf(),
        ensures
            final(editor).wf(),
            final(self).description == old(self).description,
            !old(self).executed ==> *final(self) == *old(self) && *final(editor) == *old(editor)
                && msg_result(r) == Err::<Seq<char>, Seq<char>>("Macro not executed"@),
            old(self).executed && (forall|k: int|
                0 <= k < old(self).commands@.len() ==> (#[trigger] old(self).commands@[k]).undoable() && old(self).commands@[k].undo_enabled()) ==> !final(self).executed && final(editor)@ == undo_from(old(self).commands@, old(editor)@, 0) && r
                is Ok,
    {
        if !self.executed {
            return Err("Macro not executed".to_owned());
        }
        let ghost s = self.commands@;
        let ghost m0 = editor@;
        let ghost good = forall|k: int|
            0 <= k < s.len() ==> (#[trigger] s[k]).undoable() && s[k].undo_enabled();
        let mut results: Vec<String> = Vec::new();
        let mut j = self.commands.len();
        while j > 0
            invariant
                editor.wf(),
                s == old(self).commands@,
                m0 == old(editor)@,
                old(self).executed == true,
                self.commands@.len() == s.len(),
                self.description == old(self).description,
                self.executed == true,
                j <= s.len(),
                good ==> (forall|k: int|
                    0 <= k < s.len() ==> (#[trigger] s[k]).undoable() && s[k].undo_enabled()),
                good ==> (forall|k: int|
                    0 <= k < j ==> (#[trigger] self.commands@[k]) == s[k]),
                good ==> editor@ == undo_from(s, m0, j as int),
            decreases j,
        {
            j -= 1;
            if self.commands[j].can_undo() {
                match self.commands[j].undo(editor) {
                    Ok(result) => {
                        results.push(result);
                    },
                    Err(e) => {
                        let msg = "Macro undo failed: ".to_owned().concat(e.as_str());
                        return Err(msg);
                    },
                }
            } else {
                proof {
                    if good {
                        assert(s[j as int].undoable());
                        assert(false);
                    }
                }
            }
        }
        self.executed = false;
        let joined = join_strings(&results, "; ");
        let msg = "Undone macro: ".to_owned().concat(joined.as_str());
        Ok(msg)
    }

    /// The description with the bundle's size.
    pub fn get_description(&self) -> (r: String)
        ensures
            r@ == self.description@ + " ("@ + dec_rep(self.commands@.len() as nat)
                + " commands)"@,
    {
        let r = self.description.clone().concat(" (").concat(
            fmt_usize(self.commands.len()).as_str(),
        ).concat(" commands)");
        proof {
            assert(r@ =~= self.description@ + " ("@ + dec_rep(self.commands@.len() as nat)
                + " commands)"@);
        }
        r
    }

    /// Whether the bundle ran and some member can undo.
    pub fn can_undo(&self) -> (r: bool)
        ensures
            r == (self.executed && exists|k: int|
                0 <= k < self.commands@.len() && (#[trigger] self.commands@[k]).undoable()),
    {
        if !self.executed {
            return false;
        }
        let mut i: usize = 0;
        while i < self.commands.len()
            invariant
                self.executed == true,
                i <= self.commands@.len(),
                forall|k: int| 0 <= k < i ==> !(#[trigger] self.commands@[k]).undoable(),
            decreases self.commands@.len() - i,
        {
            if self.commands[i].can_undo() {
                proof {
                    assert(self.commands@[i as int].undoable());
                }
                return true;
            }
            i += 1;
        }
        false
    }
}

/// Keeps run commands for undo and undone ones for redo, up to a history
/// bound.
pub struct CommandManager {
    pub history: Vec<EditorCommand>,
    pub undo_stack: Vec<EditorCommand>,
    pub max_history: usize,
}

impl CommandManager {
    /// An empty manager with the given history bound.
    pub fn new(max_history: usize) -> (r: CommandManager)
        ensures
            r.history@.len() == 0,
            r.undo_stack@.len() == 0,
            r.max_history == max_history,
    {
        CommandManager { history: Vec::new(), undo_stack: Vec::new(), max_history }
    }

    /// Runs a command against the editor: on success it enters the history
    /// (the oldest entry falls out over the bound) and the redo stack is
    /// cleared; a refused command is dropped and changes nothing.
    pub fn execute_command(&mut self, command: EditorCommand, editor: &mut TextEditor) -> (r:
        Result<String, String>)
        requires
            old(editor).wf(),
        ensures
            final(editor).wf(),
            final(self).max_history == old(self).max_history,
            command.exec_enabled() ==> final(editor)@ == command.exec_effect(old(editor)@)
                && msg_result(r) == Ok::<Seq<char>, Seq<char>>(command.exec_msg(old(editor)@))
                && final(self).undo_stack@.len() == 0 && (exists|c2: EditorCommand|
                command.post_exec(old(editor)@, c2) && final(self).history@ == (
                if old(self).history@.len() + 1 > old(self).max_history {
                    old(self).history@.push(c2).skip(1)
                } else {
                    old(self).history@.push(c2)
                })),
            !command.exec_enabled() ==> *final(self) == *old(self) && *final(editor) == *old(editor) && msg_result(r) == Err::<Seq<char>, Seq<char>>(command.exec_err()),
    {
        let mut command = command;
        let result = match command.execute(editor) {
            Ok(result) => result,
            Err(e) => {
                return Err(e);
            },
        };
        self.history.push(command);
        if self.history.len() > self.max_history {
            self.history.remove(0);
            proof {
                assert(self.history@ =~= old(self).history@.push(command).skip(1));
            }
        }
        self.undo_stack.clear();
        Ok(result)
    }

    /// Undoes the most recent history entry and moves it to the redo stack;
    /// one that cannot undo stays, and an empty history is reported.
    pub fn undo(&mut self, editor: &mut TextEditor) -> (r: Result<String, String>)
        requires
            old(editor).wf(),
        ensures
            final(editor).wf(),
            final(self).max_history == old(self).max_history,
            old(self).history@.len() == 0 ==> final(self).history@ == old(self).history@ && final(self).undo_stack@ == old(self).undo_stack@ && *final(editor) == *old(editor) && msg_result(
                r,
            ) == Err::<Seq<char>, Seq<char>>("No commands to undo"@),
            old(self).history@.len() > 0 && !old(self).history@.last().undoable() ==> final(self).history@ == old(self).history@ && final(self).undo_stack@ == old(self).undo_stack@
                && *final(editor) == *old(editor) && msg_result(r) == Err::<Seq<char>, Seq<char>>(
                "Command cannot be undone"@,
            ),
            old(self).history@.len() > 0 && old(self).history@.last().undoable() && old(self).history@.last().undo_enabled() ==> final(editor)@ == old(self).history@.last().undo_effect(old(editor)@) && msg_result(r) == Ok::<
                Seq<char>,
                Seq<char>,
            >(old(self).history@.last().undo_msg(old(editor)@)) && final(self).history@ == old(self).history@.drop_last() && (exists|c2: EditorCommand|
                old(self).history@.last().post_undo(old(editor)@, c2) && final(self).undo_stack@
                    == old(self).undo_stack@.push(c2)),
    {
        let popped = self.history.pop();
        match popped {
            Some(mut command) => {
                if command.can_undo() {
                    proof {
                        assert(old(self).history@.drop_last() =~= self.history@);
                    }
                    let result = match command.undo(editor) {
                        Ok(result) => result,
                        Err(e) => {
                            return Err(e);
                        },
                    };
                    self.undo_stack.push(command);
                    Ok(result)
                } else {
                    self.history.push(command);
                    proof {
                        assert(self.history@ =~= old(self).history@);
                    }
                    Err("Command cannot be undone".to_owned())
                }
            },
            None => Err("No commands to undo".to_owned()),
        }
    }

    /// Reruns the most recent redo entry and moves it back to the history;
    /// one that refuses is dropped, and an empty redo stack is reported.
    pub fn redo(&mut self, editor: &mut TextEditor) -> (r: Result<String, String>)
        requires
            old(editor).wf(),
        ensures
            final(editor).wf(),
            final(self).max_history == old(self).max_history,
            old(self).undo_stack@.len() == 0 ==> final(self).history@ == old(self).history@
                && final(self).undo_stack@ == old(self).undo_stack@ && *final(editor) == *old(editor) && msg_result(r) == Err::<Seq<char>, Seq<char>>("No commands to redo"@),
            old(self).undo_stack@.len() > 0 && old(self).undo_stack@.last().exec_enabled()
                ==> final(editor)@ == old(self).undo_stack@.last().exec_effect(old(editor)@)
                && msg_result(r) == Ok::<Seq<char>, Seq<char>>(
                old(self).undo_stack@.last().exec_msg(old(editor)@),
            ) && final(self).undo_stack@ == old(self).undo_stack@.drop_last() && (exists|
                c2: EditorCommand,
            |
                old(self).undo_stack@.last().post_exec(old(editor)@, c2) && final(self).history@
                    == old(self).history@.push(c2)),
            old(self).undo_stack@.len() > 0 && !old(self).undo_stack@.last().exec_enabled()
                ==> final(self).history@ == old(self).history@ && final(self).undo_stack@ == old(self).undo_stack@.drop_last() && *final(editor) == *old(editor) && msg_result(r) == Err::<
                Seq<char>,
                Seq<char>,
            >(old(self).undo_stack@.last().exec_err()),
    {
        let popped = self.undo_stack.pop();
        match popped {
            Some(mut command) => {
                let result = match command.execute(editor) {
                    Ok(result) => result,
                    Err(e) => {
                        return Err(e);
                    },
                };
                self.history.push(command);
                Ok(result)
            },
            None => Err("No commands to redo".to_owned()),
        }
    }

    /// The descriptions of the held history, oldest first.
    pub fn get_history(&self) -> (r: Vec<String>)
        ensures
            r@.len() == self.history@.len(),
            forall|k: int|
                0 <= k < r@.len() ==> (#[trigger] r@[k])@ == self.history@[k].description(),
    {
        let mut out: Vec<String> = Vec::new();
        let mut i: usize = 0;
        while i < self.history.len()
            invariant
                i <= self.history@.len(),
                out@.len() == i,
                forall|k: int|
                    0 <= k < i ==> (#[trigger] out@[k])@ == self.history@[k].description(),
            decreases self.history@.len() - i,
        {
            out.push(self.history[i].get_description());
            i += 1;
        }
        out
    }

    pub fn get_undo_stack_size(&self) -> (r: usize)
        ensures
            r == self.undo_stack@.len(),
    {
        self.undo_stack.len()
    }

    pub fn get_history_size(&self) -> (r: usize)
        ensures
            r == self.history@.len(),
    {
        self.history.len()
    }

    /// Whether the most recent history entry can undo.
    pub fn can_undo(&self) -> (r: bool)
        ensures
            r == (self.history@.len() > 0 && self.history@.last().undoable()),
    {
        let n = self.history.len();
        if n == 0 {
            return false;
        }
        self.history[n - 1].can_undo()
    }

    pub fn can_redo(&self) -> (r: bool)
        ensures
            r == (self.undo_stack@.len() > 0),
    {
        self.undo_stack.len() > 0
    }

    /// Drops both stacks.
    pub fn clear_history(&mut self)
        ensures
            final(self).history@.len() == 0,
            final(self).undo_stack@.len() == 0,
            final(self).max_history == old(self).max_history,
    {
        self.history.clear();
        self.undo_stack.clear();
    }
}

impl Default for CommandManager {
    /// An empty manager bounded at fifty entries.
    fn default() -> (r: CommandManager)
        ensures
            r.history@.len() == 0,
            r.undo_stack@.len() == 0,
            r.max_history == 50,
    {
        CommandManager::new(50)
    }
}

/// The spec-level image of a lamp.
#[verifier::ext_equal]
pub struct LightModel {
    pub location: Seq<char>,
    pub is_on: bool,
    pub brightness: u8,
}

/// A lamp in one room: on or off, with a brightness.
#[derive(Debug, Clone)]
pub struct Light {
    pub location: String,
    pub is_on: bool,
    pub brightness: u8,
}

impl View for Light {
    type V = LightModel;

    open spec fn view(&self) -> LightModel {
        LightModel { location: self.location@, is_on: self.is_on, brightness: self.brightness }
    }
}

impl Light {
    /// A lamp, off and dark.
    pub fn new(location: &str) -> (r: Light)
        ensures
            r@ == (LightModel { location: location@, is_on: false, brightness: 0 }),
    {
        Light { location: location.to_owned(), is_on: false, brightness: 0 }
    }

    /// Full brightness, on.
    pub fn turn_on(&mut self) -> (r: String)
        ensures
            final(self)@ == (LightModel { is_on: true, brightness: 100, ..old(self)@ }),
            r@ == old(self)@.location + " light turned ON"@,
    {
        self.is_on = true;
        self.brightness = 100;
        let r = self.location.clone().concat(" light turned ON");
        proof {
            assert(r@ =~= old(self)@.location + " light turned ON"@);
        }
        r
    }

    /// Dark, off.
    pub fn turn_off(&mut self) -> (r: String)
        ensures
            final(self)@ == (LightModel { is_on: false, brightness: 0, ..old(self)@ }),
            r@ == old(self)@.location + " light turned OFF"@,
    {
        self.is_on = false;
        self.brightness = 0;
        let r = self.location.clone().concat(" light turned OFF");
        proof {
            assert(r@ =~= old(self)@.location + " light turned OFF"@);
        }
        r
    }

    /// Any positive brightness turns the lamp on; zero turns it off.
    pub fn set_brightness(&mut self, brightness: u8) -> (r: String)
        ensures
            final(self)@ == (LightModel { is_on: brightness > 0, brightness, ..old(self)@ }),
            r@ == old(self)@.location + " light brightness set to "@ + dec_rep(brightness as nat)
                + "%"@,
    {
        self.brightness = brightness;
        self.is_on = brightness > 0;
        let r = self.location.clone().concat(" light brightness set to ").concat(
            fmt_u8(brightness).as_str(),
        ).concat("%");
        proof {
            assert(r@ =~= old(self)@.location + " light brightness set to "@ + dec_rep(
                brightness as nat,
            ) + "%"@);
        }
        r
    }

    pub fn is_on(&self) -> (r: bool)
        ensures
            r == self.is_on,
    {
        self.is_on
    }

    pub fn get_brightness(&self) -> (r: u8)
        ensures
            r == self.brightness,
    {
        self.brightness
    }
}

/// Turns a lamp on; undo restores what it remembers of the lamp.
#[derive(Debug)]
pub struct LightOnCommand {
    pub was_on: bool,
    pub previous_brightness: u8,
}

impl LightOnCommand {
    /// Remembers the lamp's current condition; the lamp is untouched.
    pub fn new(light: &mut Light) -> (r: LightOnCommand)
        ensures
            *final(light) == *old(light),
            r.was_on == old(light).is_on,
            r.previous_brightness == old(light).brightness,
    {
        let was_on = light.is_on();
        let previous_brightness = light.get_brightness();
        LightOnCommand { was_on, previous_brightness }
    }
}

impl Command for LightOnCommand {
    type Receiver = Light;

    open spec fn receiver_wf(&self, m: LightModel) -> bool {
        true
    }

    open spec fn exec_enabled(&self) -> bool {
        true
    }

    open spec fn exec_effect(&self, m: LightModel) -> LightModel {
        LightModel { is_on: true, brightness: 100, ..m }
    }

    open spec fn exec_msg(&self, m: LightModel) -> Seq<char> {
        m.location + " light turned ON"@
    }

    open spec fn exec_err(&self) -> Seq<char> {
        Seq::empty()
    }

    open spec fn post_exec(&self, m: LightModel, next: LightOnCommand) -> bool {
        next.was_on == m.is_on && next.previous_brightness == m.brightness
    }

    open spec fn undo_enabled(&self) -> bool {
        true
    }

    open spec fn undo_effect(&self, m: LightModel) -> LightModel {
        if self.was_on {
            LightModel {
                is_on: self.previous_brightness > 0,
                brightness: self.previous_brightness,
                ..m
            }
        } else {
            LightModel { is_on: false, brightness: 0, ..m }
        }
    }

    open spec fn undo_msg(&self, m: LightModel) -> Seq<char> {
        if self.was_on {
            m.location + " light brightness set to "@ + dec_rep(self.previous_brightness as nat)
                + "%"@
        } else {
            m.location + " light turned OFF"@
        }
    }

    open spec fn undo_err(&self) -> Seq<char> {
        Seq::empty()
    }

    open spec fn post_undo(&self, m: LightModel, next: LightOnCommand) -> bool {
        next == *self
    }

    open spec fn description(&self) -> Seq<char> {
        "Turn light ON"@
    }

    open spec fn undoable(&self) -> bool {
        true
    }

    fn execute(&mut self, receiver: &mut Light) -> (r: Result<String, String>) {
        let was_on = receiver.is_on();
        let previous_brightness = receiver.get_brightness();
        let result = receiver.turn_on();
        self.was_on = was_on;
        self.previous_brightness = previous_brightness;
        Ok(result)
    }

    fn undo(&mut self, receiver: &mut Light) -> (r: Result<String, String>) {
        if self.was_on {
            Ok(receiver.set_brightness(self.previous_brightness))
        } else {
            Ok(receiver.turn_off())
        }
    }

    fn get_description(&self) -> (r: String) {
        "Turn light ON".to_owned()
    }

    fn can_undo(&self) -> (r: bool) {
        true
    }
}

/// Turns a lamp off; undo restores what it remembers of the lamp.
#[derive(Debug)]
pub struct LightOffCommand {
    pub was_on: bool,
    pub previous_brightness: u8,
}

impl LightOffCommand {
    /// Remembers the lamp's current condition; the lamp is untouched.
    pub fn new(light: &mut Light) -> (r: LightOffCommand)
        ensures
            *final(light) == *old(light),
            r.was_on == old(light).is_on,
            r.previous_brightness == old(light).brightness,
    {
        let was_on = light.is_on();
        let previous_brightness = light.get_brightness();
        LightOffCommand { was_on, previous_brightness }
    }
}

impl Command for LightOffCommand {
    type Receiver = Light;

    open spec fn receiver_wf(&self, m: LightModel) -> bool {
        true
    }

    open spec fn exec_enabled(&self) -> bool {
        true
    }

    open spec fn exec_effect(&self, m: LightModel) -> LightModel {
        LightModel { is_on: false, brightness: 0, ..m }
    }

    open spec fn exec_msg(&self, m: LightModel) -> Seq<char> {
        m.location + " light turned OFF"@
    }

    open spec fn exec_err(&self) -> Seq<char> {
        Seq::empty()
    }

    open spec fn post_exec(&self, m: LightModel, next: LightOffCommand) -> bool {
        next.was_on == m.is_on && next.previous_brightness == m.brightness
    }

    open spec fn undo_enabled(&self) -> bool {
        true
    }

    open spec fn undo_effect(&self, m: LightModel) -> LightModel {
        if self.was_on {
            LightModel {
                is_on: self.previous_brightness > 0,
                brightness: self.previous_brightness,
                ..m
            }
        } else {
            LightModel { is_on: false, brightness: 0, ..m }
        }
    }

    open spec fn undo_msg(&self, m: LightModel) -> Seq<char> {
        if self.was_on {
            m.location + " light brightness set to "@ + dec_rep(self.previous_brightness as nat)
                + "%"@
        } else {
            m.location + " light turned OFF"@
        }
    }

    open spec fn undo_err(&self) -> Seq<char> {
        Seq::empty()
    }

    open spec fn post_undo(&self, m: LightModel, next: LightOffCommand) -> bool {
        next == *self
    }

    open spec fn description(&self) -> Seq<char> {
        "Turn light OFF"@
    }

    open spec fn undoable(&self) -> bool {
        true
    }

    fn execute(&mut self, receiver: &mut Light) -> (r: Result<String, String>) {
        let was_on = receiver.is_on();
        let previous_brightness = receiver.get_brightness();
        let result = receiver.turn_off();
        self.was_on = was_on;
        self.previous_brightness = previous_brightness;
        Ok(result)
    }

    fn undo(&mut self, receiver: &mut Light) -> (r: Result<String, String>) {
        if self.was_on {
            Ok(receiver.set_brightness(self.previous_brightness))
        } else {
            Ok(receiver.turn_off())
        }
    }

    fn get_description(&self) -> (r: String) {
        "Turn light OFF".to_owned()
    }

    fn can_undo(&self) -> (r: bool) {
        true
    }
}

/// Either of the two lamp commands.
pub enum LightCommand {
    On(LightOnCommand),
    Off(LightOffCommand),
}

impl Command for LightCommand {
    type Receiver = Light;

    open spec fn receiver_wf(&self, m: LightModel) -> bool {
        true
    }

    open spec fn exec_enabled(&self) -> bool {
        true
    }

    open spec fn exec_effect(&self, m: LightModel) -> LightModel {
        match self {
            LightCommand::On(c) => c.exec_effect(m),
            LightCommand::Off(c) => c.exec_effect(m),
        }
    }

    open spec fn exec_msg(&self, m: LightModel) -> Seq<char> {
        match self {
            LightCommand::On(c) => c.exec_msg(m),
            LightCommand::Off(c) => c.exec_msg(m),
        }
    }

    open spec fn exec_err(&self) -> Seq<char> {
        Seq::empty()
    }

    open spec fn post_exec(&self, m: LightModel, next: LightCommand) -> bool {
        match (self, next) {
            (LightCommand::On(c), LightCommand::On(n)) => c.post_exec(m, n),
            (LightCommand::Off(c), LightCommand::Off(n)) => c.post_exec(m, n),
            _ => false,
        }
    }

    open spec fn undo_enabled(&self) -> bool {
        true
    }

    open spec fn undo_effect(&self, m: LightModel) -> LightModel {
        match self {
            LightCommand::On(c) => c.undo_effect(m),
            LightCommand::Off(c) => c.undo_effect(m),
        }
    }

    open spec fn undo_msg(&self, m: LightModel) -> Seq<char> {
        match self {
            LightCommand::On(c) => c.undo_msg(m),
            LightCommand::Off(c) => c.undo_msg(m),
        }
    }

    open spec fn undo_err(&self) -> Seq<char> {
        Seq::empty()
    }

    open spec fn post_undo(&self, m: LightModel, next: LightCommand) -> bool {
        match (self, next) {
            (LightCommand::On(c), LightCommand::On(n)) => c.post_undo(m, n),
            (LightCommand::Off(c), LightCommand::Off(n)) => c.post_undo(m, n),
            _ => false,
        }
    }

    open spec fn description(&self) -> Seq<char> {
        match self {
            LightCommand::On(c) => c.description(),
            LightCommand::Off(c) => c.description(),
        }
    }

    open spec fn undoable(&self) -> bool {
        true
    }

    fn execute(&mut self, receiver: &mut Light) -> (r: Result<String, String>) {
        match self {
            LightCommand::On(c) => c.execute(receiver),
            LightCommand::Off(c) => c.execute(receiver),
        }
    }

    fn undo(&mut self, receiver: &mut Light) -> (r: Result<String, String>) {
        match self {
            LightCommand::On(c) => c.undo(receiver),
            LightCommand::Off(c) => c.undo(receiver),
        }
    }

    fn get_description(&self) -> (r: String) {
        match self {
            LightCommand::On(c) => c.get_description(),
            LightCommand::Off(c) => c.get_description(),
        }
    }

    fn can_undo(&self) -> (r: bool) {
        true
    }
}

/// Programmable slots of lamp commands, with a one-step undo. A pressed
/// button hands its command to the undo slot, leaving the button empty.
pub struct RemoteControl {
    pub on_commands: Vec<Option<LightCommand>>,
    pub off_commands: Vec<Option<LightCommand>>,
    pub last_command: Option<LightCommand>,
    pub slots: usize,
}

impl RemoteControl {
    /// Well-formedness: one on and one off slot per position.
    pub open spec fn wf(self) -> bool {
        self.on_commands@.len() == self.slots && self.off_commands@.len() == self.slots
    }

    /// Empty slots.
    pub fn new(slots: usize) -> (r: RemoteControl)
        ensures
            r.wf(),
            r.slots == slots,
            r.last_command is None,
            forall|k: int| 0 <= k < slots ==> (#[trigger] r.on_commands@[k]) is None,
            forall|k: int| 0 <= k < slots ==> (#[trigger] r.off_commands@[k]) is None,
    {
        let mut on_commands: Vec<Option<LightCommand>> = Vec::new();
        let mut off_commands: Vec<Option<LightCommand>> = Vec::new();
        let mut i: usize = 0;
        while i < slots
            invariant
                i <= slots,
                on_commands@.len() == i,
                off_commands@.len() == i,
                forall|k: int| 0 <= k < i ==> (#[trigger] on_commands@[k]) is None,
                forall|k: int| 0 <= k < i ==> (#[trigger] off_commands@[k]) is None,
            decreases slots - i,
        {
            on_commands.push(None);
            off_commands.push(None);
            i += 1;
        }
        RemoteControl { on_commands, off_commands, last_command: None, slots }
    }

    /// Loads one slot with its pair of commands; a slot out of range is
    /// refused.
    pub fn set_command(
        &mut self,
        slot: usize,
        on_command: LightCommand,
        off_command: LightCommand,
    ) -> (r: Result<(), String>)
        requires
            old(self).wf(),
        ensures
            final(self).wf(),
            final(self).slots == old(self).slots,
            r is Ok <==> slot < old(self).slots,
            r is Ok ==> final(self).on_commands@ == old(self).on_commands@.update(
                slot as int,
                Some(on_command),
            ) && final(self).off_commands@ == old(self).off_commands@.update(
                slot as int,
                Some(off_command),
            ) && final(self).last_command == old(self).last_command,
            r is Err ==> *final(self) == *old(self) && (r->Err_0)@ == "Invalid slot: "@ + dec_rep(
                slot as nat,
            ) + ". Must be < "@ + dec_rep(old(self).slots as nat),
    {
        if slot >= self.slots {
            let msg = "Invalid slot: ".to_owned().concat(fmt_usize(slot).as_str()).concat(
                ". Must be < ",
            ).concat(fmt_usize(self.slots).as_str());
            proof {
                assert(msg@ =~= "Invalid slot: "@ + dec_rep(slot as nat) + ". Must be < "@
                    + dec_rep(old(self).slots as nat));
            }
            return Err(msg);
        }
        self.on_commands[slot] = Some(on_command);
        self.off_commands[slot] = Some(off_command);
        Ok(())
    }

    /// Runs the slot's ON command against the lamp; the command then waits in
    /// the undo slot and the button is empty.
    pub fn press_on_button(&mut self, slot: usize, light: &mut Light) -> (r: Result<
        String,
        String,
    >)
        requires
            old(self).wf(),
        ensures
            final(self).wf(),
            final(self).slots == old(self).slots,
            slot >= old(self).slots ==> *final(self) == *old(self) && *final(light) == *old(light)
                && msg_result(r) == Err::<Seq<char>, Seq<char>>(
                "Invalid slot: "@ + dec_rep(slot as nat),
            ),
            slot < old(self).slots && old(self).on_commands@[slot as int] is None ==> final(self).on_commands@ == old(self).on_commands@ && final(self).off_commands == old(self).off_commands && final(self).last_command == old(self).last_command && *final(light)
                == *old(light) && msg_result(r) == Err::<Seq<char>, Seq<char>>(
                "No ON command set for this slot"@,
            ),
            slot < old(self).slots && old(self).on_commands@[slot as int] is Some ==> ({
                let cmd = old(self).on_commands@[slot as int]->0;
                final(light)@ == cmd.exec_effect(old(light)@) && msg_result(r) == Ok::<
                    Seq<char>,
                    Seq<char>,
                >(cmd.exec_msg(old(light)@)) && final(self).on_commands@ == old(self).on_commands@.update(slot as int, None) && final(self).off_commands == old(self).off_commands && final(self).last_command is Some
            }),
    {
        if slot >= self.slots {
            let msg = "Invalid slot: ".to_owned().concat(fmt_usize(slot).as_str());
            proof {
                assert(msg@ =~= "Invalid slot: "@ + dec_rep(slot as nat));
            }
            return Err(msg);
        }
        let taken = self.on_commands[slot].take();
        match taken {
            Some(mut command) => {
                proof {
                    assert(self.on_commands@ =~= old(self).on_commands@.update(slot as int, None));
                }
                let result = match command.execute(light) {
                    Ok(result) => result,
                    Err(e) => {
                        return Err(e);
                    },
                };
                self.last_command = Some(command);
                Ok(result)
            },
            None => {
                proof {
                    assert(self.on_commands@ =~= old(self).on_commands@);
                }
                Err("No ON command set for this slot".to_owned())
            },
        }
    }

    /// Runs the slot's OFF command against the lamp, as `press_on_button`
    /// does for ON.
    pub fn press_off_button(&mut self, slot: usize, light: &mut Light) -> (r: Result<
        String,
        String,
    >)
        requires
            old(self).wf(),
        ensures
            final(self).wf(),
            final(self).slots == old(self).slots,
            slot >= old(self).slots ==> *final(self) == *old(self) && *final(light) == *old(light)
                && msg_result(r) == Err::<Seq<char>, Seq<char>>(
                "Invalid slot: "@ + dec_rep(slot as nat),
            ),
            slot < old(self).slots && old(self).off_commands@[slot as int] is None ==> final(self).off_commands@ == old(self).off_commands@ && final(self).on_commands == old(self).on_commands && final(self).last_command == old(self).last_command && *final(light)
                == *old(light) && msg_result(r) == Err::<Seq<char>, Seq<char>>(
                "No OFF command set for this slot"@,
            ),
            slot < old(self).slots && old(self).off_commands@[slot as int] is Some ==> ({
                let cmd = old(self).off_commands@[slot as int]->0;
                final(light)@ == cmd.exec_effect(old(light)@) && msg_result(r) == Ok::<
                    Seq<char>,
                    Seq<char>,
                >(cmd.exec_msg(old(light)@)) && final(self).off_commands@ == old(self).off_commands@.update(slot as int, None) && final(self).on_commands == old(self).on_commands && final(self).last_command is Some
            }),
    {
        if slot >= self.slots {
            let msg = "Invalid slot: ".to_owned().concat(fmt_usize(slot).as_str());
            proof {
                assert(msg@ =~= "Invalid slot: "@ + dec_rep(slot as nat));
            }
            return Err(msg);
        }
        let taken = self.off_commands[slot].take();
        match taken {
            Some(mut command) => {
                proof {
                    assert(self.off_commands@ =~= old(self).off_commands@.update(
                        slot as int,
                        None,
                    ));
                }
                let result = match command.execute(light) {
                    Ok(result) => result,
                    Err(e) => {
                        return Err(e);
                    },
                };
                self.last_command = Some(command);
                Ok(result)
            },
            None => {
                proof {
                    assert(self.off_commands@ =~= old(self).off_commands@);
                }
                Err("No OFF command set for this slot".to_owned())
            },
        }
    }

    /// Undoes the last pressed command, which leaves the undo slot.
    pub fn press_undo_button(&mut self, light: &mut Light) -> (r: Result<String, String>)
        requires
            old(self).wf(),
        ensures
            final(self).wf(),
            final(self).slots == old(self).slots,
            old(self).last_command is None ==> *final(self) == *old(self) && *final(light) == *old(light) && msg_result(r) == Err::<Seq<char>, Seq<char>>("No command to undo"@),
            old(self).last_command is Some ==> ({
                let cmd = old(self).last_command->0;
                final(light)@ == cmd.undo_effect(old(light)@) && msg_result(r) == Ok::<
                    Seq<char>,
                    Seq<char>,
                >(cmd.undo_msg(old(light)@)) && final(self).last_command is None
            }),
    {
        let taken = self.last_command.take();
        match taken {
            Some(mut command) => command.undo(light),
            None => Err("No command to undo".to_owned()),
        }
    }

    pub fn get_slot_count(&self) -> (r: usize)
        ensures
            r == self.slots,
    {
        self.slots
    }

    /// Whether the slot's ON and OFF buttons are loaded; out of range reads
    /// as unloaded.
    pub fn is_slot_configured(&self, slot: usize) -> (r: (bool, bool))
        requires
            self.wf(),
        ensures
            slot < self.slots ==> r == (
                (self.on_commands@[slot as int] is Some),
                (self.off_commands@[slot as int] is Some),
            ),
            slot >= self.slots ==> r == ((false, false)),
    {
        if slot >= self.slots {
            return (false, false);
        }
        (self.on_commands[slot].is_some(), self.off_commands[slot].is_some())
    }
}

/// One queued command with its priority, optional schedule (seconds since
/// the Unix epoch) and retry budget.
pub struct QueuedCommand {
    pub command: EditorCommand,
    pub priority: u8,
    pub scheduled_time: Option<u64>,
    pub retry_count: u8,
    pub max_retries: u8,
}

/// Where a new priority enters the queue: before the first entry with a
/// lower one.
pub open spec fn queue_insert_pos(s: Seq<QueuedCommand>, priority: u8) -> int
    decreases s.len(),
{
    if s.len() == 0 {
        0
    } else if s[0].priority < priority {
        0
    } else {
        1 + queue_insert_pos(s.subrange(1, s.len() as int), priority)
    }
}

proof fn lemma_queue_insert_pos(s: Seq<QueuedCommand>, priority: u8)
    ensures
        0 <= queue_insert_pos(s, priority) <= s.len(),
        forall|k: int| 0 <= k < queue_insert_pos(s, priority) ==> s[k].priority >= priority,
        queue_insert_pos(s, priority) < s.len() ==> s[queue_insert_pos(s, priority)].priority
            < priority,
    decreases s.len(),
{
    if s.len() > 0 && s[0].priority >= priority {
        let rest = s.subrange(1, s.len() as int);
        lemma_queue_insert_pos(rest, priority);
        assert(forall|k: int| 1 <= k < s.len() ==> #[trigger] s[k] == rest[k - 1]);
        assert(forall|k: int|
            0 <= k < queue_insert_pos(s, priority) ==> (#[trigger] s[k]).priority >= priority);
    }
}

/// How much work one entry can still cause: its remaining attempts.
pub open spec fn retry_slot(qc: QueuedCommand) -> nat {
    if qc.retry_count <= qc.max_retries {
        (qc.max_retries - qc.retry_count + 1) as nat
    } else {
        0
    }
}

/// How much work the whole queue can still cause.
pub open spec fn queue_fuel(s: Seq<QueuedCommand>) -> nat
    decreases s.len(),
{
    if s.len() == 0 {
        0nat
    } else {
        retry_slot(s[0]) + queue_fuel(s.subrange(1, s.len() as int))
    }
}

proof fn lemma_queue_fuel_push(s: Seq<QueuedCommand>, x: QueuedCommand)
    ensures
        queue_fuel(s.push(x)) == queue_fuel(s) + retry_slot(x),
    decreases s.len(),
{
    let t = s.push(x);
    assert(queue_fuel(t) == retry_slot(t[0]) + queue_fuel(t.subrange(1, t.len() as int)));
    if s.len() == 0 {
        assert(t.subrange(1, t.len() as int) =~= Seq::<QueuedCommand>::empty());
        assert(t[0] == x);
    } else {
        assert(t[0] == s[0]);
        assert(t.subrange(1, t.len() as int) =~= s.subrange(1, s.len() as int).push(x));
        lemma_queue_fuel_push(s.subrange(1, s.len() as int), x);
    }
}

/// The commands of a queue, in order.
pub open spec fn queue_commands(s: Seq<QueuedCommand>) -> Seq<EditorCommand> {
    s.map_values(|qc: QueuedCommand| qc.command)
}

/// Whether every entry is unscheduled, fresh and ready to run.
pub open spec fn queue_all_ready(s: Seq<QueuedCommand>) -> bool {
    forall|k: int|
        0 <= k < s.len() ==> (#[trigger] s[k]).scheduled_time is None && s[k].command.exec_enabled()
}

/// One run of the queue at a given instant: entries are popped front to
/// back; an entry scheduled after the instant stops the run with the queue as
/// it stands; a ready entry runs and reports its message; a refusing entry is
/// requeued at the back with its retry counted, or dropped once its budget is
/// spent, either way with a report. The result is the remaining queue, the
/// buffer afterwards, and the reports in order.
pub open spec fn drain(q: Seq<QueuedCommand>, m: EditorModel, now: u64) -> (
    Seq<QueuedCommand>,
    EditorModel,
    Seq<Seq<char>>,
)
    decreases queue_fuel(q) + q.len(),
    via drain_decreases
{
    if q.len() == 0 {
        (q, m, Seq::empty())
    } else {
        let qc = q[0];
        let rest = q.subrange(1, q.len() as int);
        if qc.scheduled_time is Some && now < qc.scheduled_time->0 {
            (q, m, Seq::empty())
        } else if qc.command.exec_enabled() {
            let after = drain(rest, qc.command.exec_effect(m), now);
            (after.0, after.1, seq![qc.command.exec_msg(m)] + after.2)
        } else if qc.retry_count < qc.max_retries {
            let qc2 = QueuedCommand { retry_count: (qc.retry_count + 1) as u8, ..qc };
            let after = drain(rest.push(qc2), m, now);
            (
                after.0,
                after.1,
                seq![
                    "Retrying: "@ + qc.command.exec_err() + " (attempt "@ + dec_rep(
                        (qc.retry_count + 1) as nat,
                    ) + ")"@,
                ] + after.2,
            )
        } else {
            let after = drain(rest, m, now);
            (
                after.0,
                after.1,
                seq!["Failed: "@ + qc.command.exec_err() + " (max retries exceeded)"@] + after.2,
            )
        }
    }
}

#[via_fn]
proof fn drain_decreases(q: Seq<QueuedCommand>, m: EditorModel, now: u64) {
    if q.len() > 0 {
        let qc = q[0];
        let rest = q.subrange(1, q.len() as int);
        assert(queue_fuel(q) == retry_slot(qc) + queue_fuel(rest));
        if !(qc.scheduled_time is Some && now < qc.scheduled_time->0)
            && !qc.command.exec_enabled() && qc.retry_count < qc.max_retries {
            let qc2 = QueuedCommand { retry_count: (qc.retry_count + 1) as u8, ..qc };
            lemma_queue_fuel_push(rest, qc2);
            assert(retry_slot(qc2) + 1 == retry_slot(qc));
        }
    }
}

/// `run_all` also unfolds from the front.
proof fn lemma_run_all_front(s: Seq<EditorCommand>, m: EditorModel)
    requires
        s.len() > 0,
    ensures
        run_all(s, m) == run_all(s.subrange(1, s.len() as int), s[0].exec_effect(m)),
    decreases s.len(),
{
    let rest = s.subrange(1, s.len() as int);
    if s.len() == 1 {
        assert(s.drop_last() =~= Seq::<EditorCommand>::empty());
        assert(rest =~= Seq::<EditorCommand>::empty());
        assert(run_all(s.drop_last(), m) == m);
        assert(run_all(s, m) == s.last().exec_effect(run_all(s.drop_last(), m)));
        assert(run_all(rest, s[0].exec_effect(m)) == s[0].exec_effect(m));
        assert(s.last() == s[0]);
    } else {
        lemma_run_all_front(s.drop_last(), m);
        assert(s.drop_last()[0] == s[0]);
        assert(s.drop_last().subrange(1, s.drop_last().len() as int) =~= rest.drop_last());
        assert(s.last() == rest.last());
        assert(run_all(s, m) == s.last().exec_effect(run_all(s.drop_last(), m)));
        assert(run_all(rest, s[0].exec_effect(m)) == rest.last().exec_effect(
            run_all(rest.drop_last(), s[0].exec_effect(m)),
        ));
    }
}

/// On a queue whose entries are all unscheduled and ready, a run at any
/// instant empties the queue, applies every command in order, and reports
/// once per entry.
pub proof fn lemma_drain_all_ready(q: Seq<QueuedCommand>, m: EditorModel, now: u64)
    requires
        queue_all_ready(q),
    ensures
        drain(q, m, now).0.len() == 0,
        drain(q, m, now).1 == run_all(queue_commands(q), m),
        drain(q, m, now).2.len() == q.len(),
    decreases queue_fuel(q) + q.len(),
{
    if q.len() == 0 {
        assert(queue_commands(q).len() == 0);
    } else {
        let qc = q[0];
        let rest = q.subrange(1, q.len() as int);
        assert(qc.scheduled_time is None && qc.command.exec_enabled());
        assert(queue_fuel(q) == retry_slot(qc) + queue_fuel(rest));
        assert(forall|k: int| 0 <= k < rest.len() ==> #[trigger] rest[k] == q[k + 1]);
        lemma_drain_all_ready(rest, qc.command.exec_effect(m), now);
        lemma_run_all_front(queue_commands(q), m);
        assert(queue_commands(q).subrange(1, queue_commands(q).len() as int) =~= queue_commands(
            rest,
        ));
        assert(queue_commands(q)[0] == qc.command);
    }
}

/// Runs queued commands in priority order, retrying failures up to each
/// entry's budget; entries scheduled for a later time stop the run.
pub struct CommandQueue {
    pub queue: Vec<QueuedCommand>,
    pub processing: bool,
}

impl CommandQueue {
    /// An empty queue, not processing.
    pub fn new() -> (r: CommandQueue)
        ensures
            r.queue@.len() == 0,
            !r.processing,
    {
        CommandQueue { queue: Vec::new(), processing: false }
    }

    /// Enters a command before the first entry of lower priority, with a
    /// fresh retry count.
    pub fn enqueue_command(
        &mut self,
        command: EditorCommand,
        priority: u8,
        scheduled_time: Option<u64>,
        max_retries: u8,
    )
        ensures
            final(self).processing == old(self).processing,
            final(self).queue@ == old(self).queue@.insert(
                queue_insert_pos(old(self).queue@, priority),
                QueuedCommand { command, priority, scheduled_time, retry_count: 0, max_retries },
            ),
    {
        let qc = QueuedCommand { command, priority, scheduled_time, retry_count: 0, max_retries };
        let mut i: usize = 0;
        while i < self.queue.len()
            invariant
                self.processing == old(self).processing,
                self.queue@ == old(self).queue@,
                qc == (QueuedCommand { command, priority, scheduled_time, retry_count: 0, max_retries }),
                i <= self.queue@.len(),
                forall|k: int| 0 <= k < i ==> (#[trigger] self.queue@[k]).priority >= qc.priority,
            decreases self.queue@.len() - i,
        {
            if self.queue[i].priority < qc.priority {
                proof {
                    lemma_queue_insert_pos(self.queue@, qc.priority);
                    let j = queue_insert_pos(self.queue@, qc.priority);
                    if j < i || j > i {
                        assert(false);
                    }
                }
                self.queue.insert(i, qc);
                return ;
            }
            i += 1;
        }
        proof {
            lemma_queue_insert_pos(self.queue@, qc.priority);
            let j = queue_insert_pos(self.queue@, qc.priority);
            if j < self.queue@.len() {
                assert(false);
            }
        }
        let n = self.queue.len();
        self.queue.insert(n, qc);
    }

    /// Runs the queue front to back at a given instant; see `drain` for
    /// exactly what is popped, run, retried, dropped or left waiting. A queue
    /// already processing only reports so.
    pub fn process_commands_at(&mut self, editor: &mut TextEditor, now: u64) -> (r: Vec<String>)
        requires
            old(editor).wf(),
        ensures
            final(editor).wf(),
            old(self).processing ==> final(self).queue@ == old(self).queue@ && final(self).processing && *final(editor) == *old(editor) && r@.len() == 1 && r@[0]@
                == "Already processing commands"@,
            !old(self).processing ==> !final(self).processing && final(self).queue@ == drain(
                old(self).queue@,
                old(editor)@,
                now,
            ).0 && final(editor)@ == drain(old(self).queue@, old(editor)@, now).1
                && r@.map_values(|x: String| x@) == drain(old(self).queue@, old(editor)@, now).2,
    {
        if self.processing {
            let mut results: Vec<String> = Vec::new();
            results.push("Already processing commands".to_owned());
            return results;
        }
        self.processing = true;
        let ghost q0 = self.queue@;
        let ghost m0 = editor@;
        let mut results: Vec<String> = Vec::new();
        proof {
            assert(results@.map_values(|x: String| x@) + drain(q0, m0, now).2 =~= drain(
                q0,
                m0,
                now,
            ).2);
        }
        while self.queue.len() > 0
            invariant
                editor.wf(),
                self.processing,
                drain(self.queue@, editor@, now).0 == drain(q0, m0, now).0,
                drain(self.queue@, editor@, now).1 == drain(q0, m0, now).1,
                results@.map_values(|x: String| x@) + drain(self.queue@, editor@, now).2 == drain(
                    q0,
                    m0,
                    now,
                ).2,
            ensures
                editor.wf(),
                self.processing,
                self.queue@ == drain(q0, m0, now).0,
                editor@ == drain(q0, m0, now).1,
                results@.map_values(|x: String| x@) == drain(q0, m0, now).2,
            decreases queue_fuel(self.queue@) + self.queue@.len(),
        {
            let ghost pre = self.queue@;
            let ghost m_pre = editor@;
            let ghost step = drain(pre, m_pre, now);
            let mut qc = self.queue.remove(0);
            proof {
                assert(pre.remove(0) =~= pre.subrange(1, pre.len() as int));
                assert(queue_fuel(pre) == retry_slot(pre[0]) + queue_fuel(
                    pre.subrange(1, pre.len() as int),
                ));
            }
            let ghost rest = pre.subrange(1, pre.len() as int);
            if let Some(scheduled) = qc.scheduled_time {
                if now < scheduled {
                    self.queue.insert(0, qc);
                    proof {
                        assert(self.queue@ =~= pre);
                        assert(step == (pre, m_pre, Seq::<Seq<char>>::empty()));
                        assert(results@.map_values(|x: String| x@) + Seq::<Seq<char>>::empty()
                            =~= results@.map_values(|x: String| x@));
                    }
                    break ;
                }
            }
            let ghost qc_before = qc;
            let outcome = qc.command.execute(editor);
            match outcome {
                Ok(msg) => {
                    proof {
                        if !qc_before.command.exec_enabled() {
                            assert(false);
                        }
                        assert(self.queue@ =~= rest);
                        assert(step == (
                            drain(rest, editor@, now).0,
                            drain(rest, editor@, now).1,
                            seq![qc_before.command.exec_msg(m_pre)] + drain(
                                rest,
                                editor@,
                                now,
                            ).2,
                        ));
                        assert(msg@ == qc_before.command.exec_msg(m_pre));
                    }
                    results.push(msg);
                    proof {
                        assert(results@.map_values(|x: String| x@) + drain(
                            self.queue@,
                            editor@,
                            now,
                        ).2 =~= drain(q0, m0, now).2);
                    }
                },
                Err(e) => {
                    proof {
                        if qc_before.command.exec_enabled() {
                            assert(false);
                        }
                        assert(e@ == qc_before.command.exec_err());
                    }
                    if qc.retry_count < qc.max_retries {
                        let ghost qc0 = qc;
                        qc.retry_count = qc.retry_count + 1;
                        proof {
                            assert(retry_slot(qc) + 1 == retry_slot(qc0));
                        }
                        let msg = "Retrying: ".to_owned().concat(e.as_str()).concat(
                            " (attempt ",
                        ).concat(fmt_u8(qc.retry_count).as_str()).concat(")");
                        proof {
                            assert(msg@ =~= "Retrying: "@ + qc_before.command.exec_err()
                                + " (attempt "@ + dec_rep((qc_before.retry_count + 1) as nat)
                                + ")"@);
                        }
                        results.push(msg);
                        let ghost before_push = self.queue@;
                        proof {
                            lemma_queue_fuel_push(before_push, qc);
                        }
                        self.queue.push(qc);
                        proof {
                            assert(self.queue@ =~= rest.push(qc));
                            assert(qc == (QueuedCommand {
                                retry_count: (qc_before.retry_count + 1) as u8,
                                ..qc_before
                            }));
                            assert(step == (
                                drain(rest.push(qc), m_pre, now).0,
                                drain(rest.push(qc), m_pre, now).1,
                                seq![
                                    "Retrying: "@ + qc_before.command.exec_err() + " (attempt "@
                                        + dec_rep((qc_before.retry_count + 1) as nat) + ")"@,
                                ] + drain(rest.push(qc), m_pre, now).2,
                            ));
                            assert(results@.map_values(|x: String| x@) + drain(
                                self.queue@,
                                editor@,
                                now,
                            ).2 =~= drain(q0, m0, now).2);
                        }
                    } else {
                        let msg = "Failed: ".to_owned().concat(e.as_str()).concat(
                            " (max retries exceeded)",
                        );
                        proof {
                            assert(msg@ =~= "Failed: "@ + qc_before.command.exec_err()
                                + " (max retries exceeded)"@);
                        }
                        results.push(msg);
                        proof {
                            assert(self.queue@ =~= rest);
                            assert(step == (
                                drain(rest, m_pre, now).0,
                                drain(rest, m_pre, now).1,
                                seq![
                                    "Failed: "@ + qc_before.command.exec_err()
                                        + " (max retries exceeded)"@,
                                ] + drain(rest, m_pre, now).2,
                            ));
                            assert(results@.map_values(|x: String| x@) + drain(
                                self.queue@,
                                editor@,
                                now,
                            ).2 =~= drain(q0, m0, now).2);
                        }
                    }
                },
            }
        }
        self.processing = false;
        proof {
            if self.queue@.len() == 0 {
                assert(drain(self.queue@, editor@, now) == (
                    self.queue@,
                    editor@,
                    Seq::<Seq<char>>::empty(),
                ));
                assert(results@.map_values(|x: String| x@) + Seq::<Seq<char>>::empty()
                    =~= results@.map_values(|x: String| x@));
            }
        }
        results
    }

    /// Runs the queue at the clock's current instant. The clock decides the
    /// instant, so the outcome is `drain` at some instant; on a queue whose
    /// entries are all unscheduled and ready, every instant gives the same
    /// run: the queue empties, the commands apply in order, one report each.
    pub fn process_commands(&mut self, editor: &mut TextEditor) -> (r: Vec<String>)
        requires
            old(editor).wf(),
        ensures
            final(editor).wf(),
            old(self).processing ==> final(self).queue@ == old(self).queue@ && final(self).processing && *final(editor) == *old(editor) && r@.len() == 1 && r@[0]@
                == "Already processing commands"@,
            !old(self).processing ==> !final(self).processing && (exists|now: u64|
                final(self).queue@ == drain(old(self).queue@, old(editor)@, now).0 && final(editor)@ == drain(old(self).queue@, old(editor)@, now).1 && r@.map_values(
                    |x: String| x@,
                ) == #[trigger] drain(old(self).queue@, old(editor)@, now).2),
            !old(self).processing && queue_all_ready(old(self).queue@) ==> final(self).queue@.len()
                == 0 && final(editor)@ == run_all(queue_commands(old(self).queue@), old(editor)@)
                && r@.len() == old(self).queue@.len(),
    {
        let now = crate::util::now_unix_secs();
        let results = self.process_commands_at(editor, now);
        proof {
            if !old(self).processing {
                assert(drain(old(self).queue@, old(editor)@, now).2 == results@.map_values(
                    |x: String| x@,
                ));
                if queue_all_ready(old(self).queue@) {
                    lemma_drain_all_ready(old(self).queue@, old(editor)@, now);
                }
            }
        }
        results
    }

    pub fn get_queue_size(&self) -> (r: usize)
        ensures
            r == self.queue@.len(),
    {
        self.queue.len()
    }

    pub fn is_processing(&self) -> (r: bool)
        ensures
            r == self.processing,
    {
        self.processing
    }

    /// Drops every queued entry.
    pub fn clear_queue(&mut self)
        ensures
            final(self).queue@.len() == 0,
            final(self).processing == old(self).processing,
    {
        self.queue.clear();
    }

    /// Describes the entry at the front, if any.
    pub fn get_next_command_info(&self) -> (r: Option<String>)
        ensures
            self.queue@.len() == 0 <==> r is None,
            self.queue@.len() > 0 ==> (match r {
                Some(s) => ({
                    let qc = self.queue@[0];
                    s@ == qc.command.description() + " (priority: "@ + dec_rep(qc.priority as nat)
                        + ", retries: "@ + dec_rep(qc.retry_count as nat) + "/"@ + dec_rep(
                        qc.max_retries as nat,
                    ) + ")"@
                }),
                None => false,
            }),
    {
        if self.queue.len() == 0 {
            return None;
        }
        let qc = &self.queue[0];
        let s = qc.command.get_description().concat(" (priority: ").concat(
            fmt_u8(qc.priority).as_str(),
        ).concat(", retries: ").concat(fmt_u8(qc.retry_count).as_str()).concat("/").concat(
            fmt_u8(qc.max_retries).as_str(),
        ).concat(")");
        proof {
            let q = self.queue@[0];
            assert(s@ =~= q.command.description() + " (priority: "@ + dec_rep(q.priority as nat)
                + ", retries: "@ + dec_rep(q.retry_count as nat) + "/"@ + dec_rep(
                q.max_retries as nat,
            ) + ")"@);
        }
        Some(s)
    }
}

impl Default for CommandQueue {
    /// The same empty queue `new` yields.
    fn default() -> (r: CommandQueue)
        ensures
            r.queue@.len() == 0,
            !r.processing,
    {
        CommandQueue::new()
    }
}

} // verus!
