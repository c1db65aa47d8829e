//! The chat window's state: the messages shown, the line being typed, and
//! whether the message list has to scroll to its end.

use std::collections::VecDeque;
use vstd::prelude::*;

verus! {

/// Whether `c` may stand in the line being typed: anything but a line break.
pub open spec fn fits_line(c: char) -> bool {
    c != '\n'
}

/// Whether `c` may stand in the line being typed.
pub fn keeps(c: char) -> (kept: bool)
    ensures
        kept == fits_line(c),
{
    c != '\n'
}

/// `String::retain` drops every character that its test refuses and keeps
/// the others in their order; the test here is `keeps`.
#[verifier::external_body]
fn retain_line(text: &mut String)
    ensures
        final(text)@ == old(text)@.filter(|c: char| fits_line(c)),
{
    text.retain(|c| keeps(c));
}

/// The state of the chat window.
pub struct Chat {
    messages: VecDeque<String>,
    input: String,
    new_messages: bool,
}

impl Chat {
    /// The messages shown, oldest first.
    pub closed spec fn messages(&self) -> Seq<String> {
        self.messages@
    }

    /// The line being typed.
    pub closed spec fn input(&self) -> Seq<char> {
        self.input@
    }

    /// Whether a message has been added since the list last scrolled.
    pub closed spec fn has_new_messages(&self) -> bool {
        self.new_messages
    }

    /// An empty chat window.
    pub fn new() -> (chat: Self)
        ensures
            chat.messages() == Seq::<String>::empty(),
            chat.input() == Seq::<char>::empty(),
            !chat.has_new_messages(),
    {
        Chat { messages: VecDeque::new(), input: String::new(), new_messages: false }
    }

    /// Adds `msg` below the messages shown and marks the list for scrolling.
    pub fn new_message(&mut self, msg: String)
        ensures
            final(self).messages() == old(self).messages().push(msg),
            final(self).input() == old(self).input(),
            final(self).has_new_messages(),
    {
        self.messages.push_back(msg);
        self.new_messages = true;
    }

    /// The number of messages shown.
    pub fn len(&self) -> (n: usize)
        ensures
            n == self.messages().len(),
    {
        self.messages.len()
    }

    /// The message in line `i`, counted from the oldest.
    pub fn message(&self, i: usize) -> (msg: &String)
        requires
            i < self.messages().len(),
        ensures
            *msg == self.messages()[i as int],
    {
        &self.messages[i]
    }

    /// Says whether the list has to scroll to its end, and takes the mark off.
    pub fn take_new_messages(&mut self) -> (scroll: bool)
        ensures
            scroll == old(self).has_new_messages(),
            !final(self).has_new_messages(),
            final(self).messages() == old(self).messages(),
            final(self).input() == old(self).input(),
    {
        let scroll = self.new_messages;
        self.new_messages = false;
        scroll
    }

    /// Replaces the line being typed by `line` without its line breaks.
    pub fn set_input(&mut self, line: String)
        ensures
            final(self).input() == line@.filter(|c: char| fits_line(c)),
            final(self).messages() == old(self).messages(),
            final(self).has_new_messages() == old(self).has_new_messages(),
    {
        let mut line = line;
        retain_line(&mut line);
        self.input = line;
    }

    /// Sends off the line being typed: it becomes the newest message shown,
    /// the line is emptied, and the text is handed back for the server.
    pub fn submit(&mut self) -> (sent: String)
        ensures
            sent@ == old(self).input(),
            final(self).input() == Seq::<char>::empty(),
            final(self).messages().len() == old(self).messages().len() + 1,
            final(self).messages().drop_last() == old(self).messages(),
            final(self).messages().last()@ == old(self).input(),
            final(self).has_new_messages(),
    {
        let mut line = String::new();
        core::mem::swap(&mut self.input, &mut line);
        let shown = line.clone();
        self.new_message(shown);
        assert(self.messages().drop_last() =~= old(self).messages());
        line
    }
}

} // verus!
