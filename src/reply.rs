use vstd::prelude::*;

verus! {

/// What a handler asks to be sent back into the room it was called from.
#[derive(Clone, Debug, PartialEq, Eq)]
pub enum Reply {
    /// A plain-text message.
    Text(String),
    /// A message whose body is markdown.
    Markdown(String),
    /// No outbound action at all.
    Silent,
}

/// The mathematical value of a [`Reply`].
pub enum Payload {
    Text(Seq<char>),
    Markdown(Seq<char>),
    Silent,
}

impl View for Reply {
    type V = Payload;

    open spec fn view(&self) -> Payload {
        match self {
            Reply::Text(s) => Payload::Text(s@),
            Reply::Markdown(s) => Payload::Markdown(s@),
            Reply::Silent => Payload::Silent,
        }
    }
}

impl Payload {
    /// How many outbound actions sending this payload takes.
    pub open spec fn actions(self) -> nat {
        match self {
            Payload::Silent => 0,
            _ => 1,
        }
    }
}

impl Reply {
    /// A plain-text reply holding `s`.
    pub fn text(s: &str) -> (r: Reply)
        ensures
            r@ == Payload::Text(s@),
    {
        Reply::Text(s.to_owned())
    }

    /// A markdown reply holding `s`.
    pub fn markdown(s: &str) -> (r: Reply)
        ensures
            r@ == Payload::Markdown(s@),
    {
        Reply::Markdown(s.to_owned())
    }

    /// True when the reply asks for no outbound action.
    pub fn is_silent(&self) -> (r: bool)
        ensures
            r == (self@.actions() == 0),
    {
        match self {
            Reply::Silent => true,
            _ => false,
        }
    }
}

} // verus!
