use vstd::prelude::*;

verus! {

/// A message, as far as the matchers of this crate read it.
#[derive(Debug, Clone, PartialEq, Eq, Hash)]
pub struct Message {
    pub id: i32,
    pub date: i32,
    pub text: Option<String>,
}

impl Message {
    /// The text of the message, if it carries one.
    pub fn text(&self) -> (text: Option<&str>)
        ensures
            text is Some <==> self.text is Some,
            text matches Some(t) ==> t@ == self.text->0@,
    {
        match &self.text {
            Some(t) => Some(t.as_str()),
            None => None,
        }
    }
}

} // verus!
