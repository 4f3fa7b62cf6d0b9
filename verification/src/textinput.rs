use vstd::prelude::*;

use crate::keys::MyKey;

verus! {

/// What a text field's contents become when one key is applied to it:
/// a character is appended, a backspace removes the last character (and
/// does nothing on an empty field), and every other key leaves it alone.
pub open spec fn spec_field_after_key(text: Seq<char>, key: MyKey) -> Seq<char> {
    match key {
        MyKey::Char(c) => text.push(c),
        MyKey::Backspace => if text.len() == 0 {
            text
        } else {
            text.drop_last()
        },
        _ => text,
    }
}

/// An editable text buffer holding one of the card's texts (question or
/// answer). Its view is the sequence of characters it holds.
pub struct Field {
    text: String,
}

impl View for Field {
    type V = Seq<char>;

    closed spec fn view(&self) -> Seq<char> {
        self.text@
    }
}

/// Relies on `String::push`: appends exactly the one character.
#[verifier::external_body]
fn push_last(s: &mut String, c: char)
    ensures
        final(s)@ == old(s)@.push(c),
{
    s.push(c);
}

/// Relies on `String::pop`: removes and returns the last character, or
/// returns `None` and leaves the string alone when it is empty.
#[verifier::external_body]
fn pop_last(s: &mut String) -> (r: Option<char>)
    ensures
        old(s)@.len() == 0 ==> r is None && final(s)@ == old(s)@,
        old(s)@.len() > 0 ==> r == Some(old(s)@.last()) && final(s)@ == old(s)@.drop_last(),
{
    s.pop()
}

impl Field {
    /// A fresh, empty field.
    pub fn new() -> (r: Field)
        ensures
            r@ == Seq::<char>::empty(),
    {
        Field { text: String::new() }
    }

    /// The current text, as an owned copy.
    pub fn return_text(&self) -> (r: String)
        ensures
            r@ == self@,
    {
        self.text.clone()
    }

    /// Replaces the whole contents.
    pub fn replace_text(&mut self, text: String)
        ensures
            final(self)@ == text@,
    {
        self.text = text;
    }

    /// Appends one character.
    pub fn push_char(&mut self, c: char)
        ensures
            final(self)@ == old(self)@.push(c),
    {
        push_last(&mut self.text, c);
    }

    /// Removes the last character; does nothing on an empty field.
    pub fn backspace(&mut self)
        ensures
            old(self)@.len() == 0 ==> final(self)@ == old(self)@,
            old(self)@.len() > 0 ==> final(self)@ == old(self)@.drop_last(),
    {
        let _ = pop_last(&mut self.text);
    }

    /// Applies one key to the field: exactly `spec_field_after_key`.
    pub fn keyhandler(&mut self, key: MyKey)
        ensures
            final(self)@ == spec_field_after_key(old(self)@, key),
    {
        match key {
            MyKey::Char(c) => self.push_char(c),
            MyKey::Backspace => self.backspace(),
            _ => {},
        }
    }
}

} // verus!
