//! The text model: a single editable line of UTF-8 text, mutated by
//! append / delete-last-character / clear commands.

use vstd::prelude::*;

verus! {

/// One mutation of the text model, as the input mapper produces it.
pub enum EditCommand {
    /// Append the given text to the end of the line.
    Append(String),
    /// Remove the last character; a no-op on an empty line.
    DeleteLast,
    /// Reset the line to empty.
    Clear,
}

/// The reference model of one command: append concatenates, delete
/// drops the last scalar value (or does nothing when empty), clear
/// yields the empty sequence.
pub open spec fn apply_edit(s: Seq<char>, cmd: EditCommand) -> Seq<char> {
    match cmd {
        EditCommand::Append(t) => s + t@,
        EditCommand::DeleteLast => if s.len() == 0 { s } else { s.drop_last() },
        EditCommand::Clear => Seq::<char>::empty(),
    }
}

/// The reference model of a whole command sequence, applied in order.
pub open spec fn apply_edits(s: Seq<char>, cmds: Seq<EditCommand>) -> Seq<char>
    decreases cmds.len(),
{
    if cmds.len() == 0 {
        s
    } else {
        apply_edits(apply_edit(s, cmds[0]), cmds.drop_first())
    }
}

/// Applying one more command at the end of a sequence is applying the
/// sequence, then that command.
pub proof fn lemma_apply_edits_push(s: Seq<char>, cmds: Seq<EditCommand>, cmd: EditCommand)
    ensures
        apply_edits(s, cmds.push(cmd)) == apply_edit(apply_edits(s, cmds), cmd),
    decreases cmds.len(),
{
    if cmds.len() == 0 {
        assert(cmds.push(cmd)[0] == cmd);
        assert(cmds.push(cmd).drop_first() =~= Seq::<EditCommand>::empty());
        assert(apply_edits(s, cmds.push(cmd)) == apply_edits(
            apply_edit(s, cmd),
            Seq::<EditCommand>::empty(),
        ));
        assert(apply_edits(apply_edit(s, cmd), Seq::<EditCommand>::empty()) == apply_edit(s, cmd));
    } else {
        assert(cmds.push(cmd)[0] == cmds[0]);
        assert(cmds.push(cmd).drop_first() =~= cmds.drop_first().push(cmd));
        assert(apply_edits(s, cmds.push(cmd)) == apply_edits(
            apply_edit(s, cmds[0]),
            cmds.drop_first().push(cmd),
        ));
        lemma_apply_edits_push(apply_edit(s, cmds[0]), cmds.drop_first(), cmd);
        assert(apply_edits(s, cmds) == apply_edits(apply_edit(s, cmds[0]), cmds.drop_first()));
    }
}

/// A single editable line of text. Always valid UTF-8; every
/// operation acts on whole characters, never on a partial multi-byte
/// sequence.
pub struct EditableText {
    content: String,
}

impl View for EditableText {
    type V = Seq<char>;

    closed spec fn view(&self) -> Seq<char> {
        self.content@
    }
}

impl EditableText {
    /// Creates an empty line.
    pub fn new() -> (t: EditableText)
        ensures
            t@ == Seq::<char>::empty(),
    {
        EditableText { content: String::new() }
    }

    /// The current text.
    pub fn text(&self) -> (s: String)
        ensures
            s@ == self@,
    {
        self.content.clone()
    }

    /// The current text, borrowed.
    pub fn as_str(&self) -> (s: &str)
        ensures
            s@ == self@,
    {
        self.content.as_str()
    }

    /// Appends `text` to the end of the line.
    pub fn push_str(&mut self, text: &str)
        ensures
            final(self)@ == old(self)@ + text@,
    {
        self.content.append(text);
    }

    /// Removes the last character. On an empty line this is a no-op:
    /// it never underflows and never fails.
    pub fn pop_char(&mut self)
        ensures
            old(self)@.len() == 0 ==> final(self)@ == old(self)@,
            old(self)@.len() > 0 ==> final(self)@ == old(self)@.drop_last(),
    {
        let len: usize = self.content.as_str().unicode_len();
        if len > 0 {
            let shortened = String::from_str(self.content.as_str().substring_char(0, len - 1));
            self.content = shortened;
            proof {
                assert(self.content@ =~= old(self)@.drop_last());
            }
        }
    }

    /// Resets the line to empty.
    pub fn clear(&mut self)
        ensures
            final(self)@ == Seq::<char>::empty(),
    {
        self.content = String::new();
    }

    /// Applies one command; the content becomes the reference model's
    /// result on the old content.
    pub fn apply(&mut self, cmd: &EditCommand)
        ensures
            final(self)@ == apply_edit(old(self)@, *cmd),
    {
        match cmd {
            EditCommand::Append(t) => self.push_str(t.as_str()),
            EditCommand::DeleteLast => self.pop_char(),
            EditCommand::Clear => self.clear(),
        }
    }

    /// After any sequence of commands the content equals the reference
    /// model folded over the same commands.
    pub fn apply_all(&mut self, cmds: &Vec<EditCommand>)
        ensures
            final(self)@ == apply_edits(old(self)@, cmds@),
    {
        let n: usize = cmds.len();
        for i in 0..n
            invariant
                n == cmds@.len(),
                self@ == apply_edits(old(self)@, cmds@.take(i as int)),
        {
            self.apply(&cmds[i]);
            proof {
                assert(cmds@.take(i + 1 as int) =~= cmds@.take(i as int).push(cmds@[i as int]));
                lemma_apply_edits_push(old(self)@, cmds@.take(i as int), cmds@[i as int]);
            }
        }
        proof {
            assert(cmds@.take(n as int) =~= cmds@);
        }
    }
}

} // verus!
