//! What a command tells its user.

use vstd::prelude::*;

verus! {

/// How a message is presented.
#[derive(Clone, Copy, Debug, PartialEq, Eq, Structural)]
pub enum Level {
    /// Something failed.
    Error,
    /// Progress.
    Status,
    /// Something was completed.
    Success,
    /// A remark that is always shown.
    Info,
    /// A remark that is shown on request.
    Verbose,
    /// A line of a menu, printed as it is.
    Plain,
}

impl DeepView for Level {
    type V = Level;

    open spec fn deep_view(&self) -> Level {
        *self
    }
}

/// One message to the user.
#[derive(Debug, PartialEq, Eq)]
pub struct Message {
    pub level: Level,
    pub text: String,
}

/// What a [`Message`] says.
pub struct MessageView {
    pub level: Level,
    pub text: Seq<char>,
}

impl DeepView for Message {
    type V = MessageView;

    open spec fn deep_view(&self) -> MessageView {
        MessageView { level: self.level, text: self.text@ }
    }
}

/// The message `text` at `level`.
pub open spec fn says(level: Level, text: Seq<char>) -> MessageView {
    MessageView { level, text }
}

/// Makes the message `text` at `level`.
pub fn message(level: Level, text: String) -> (out: Message)
    ensures
        out.deep_view() == says(level, text@),
{
    Message { level, text }
}

/// Makes the message `text` at `level`.
pub fn fixed(level: Level, text: &str) -> (out: Message)
    ensures
        out.deep_view() == says(level, text@),
{
    Message { level, text: text.to_owned() }
}

/// No messages.
pub fn silent() -> (out: Vec<Message>)
    ensures
        out.deep_view() == Seq::<MessageView>::empty(),
{
    let out: Vec<Message> = Vec::new();
    assert(out.deep_view() =~= Seq::<MessageView>::empty());
    out
}

/// One message.
pub fn one(a: Message) -> (out: Vec<Message>)
    ensures
        out.deep_view() == seq![a.deep_view()],
{
    let mut out: Vec<Message> = Vec::new();
    out.push(a);
    assert(out.deep_view() =~= seq![a.deep_view()]);
    out
}

/// Two messages.
pub fn two(a: Message, b: Message) -> (out: Vec<Message>)
    ensures
        out.deep_view() == seq![a.deep_view(), b.deep_view()],
{
    let mut out: Vec<Message> = Vec::new();
    out.push(a);
    out.push(b);
    assert(out.deep_view() =~= seq![a.deep_view(), b.deep_view()]);
    out
}

/// Adds `b` behind the messages of `list`.
pub fn tell(list: &mut Vec<Message>, b: Message)
    ensures
        final(list).deep_view() == old(list).deep_view().push(b.deep_view()),
{
    let ghost before = list.deep_view();
    list.push(b);
    assert(list.deep_view() =~= before.push(b.deep_view()));
}

/// Adds the messages of `more` behind those of `list`.
pub fn tell_all(list: &mut Vec<Message>, more: Vec<Message>)
    ensures
        final(list).deep_view() == old(list).deep_view() + more.deep_view(),
{
    let ghost before = list.deep_view();
    let ghost behind = more.deep_view();
    let mut more = more;
    list.append(&mut more);
    assert(list.deep_view() =~= before + behind);
}

} // verus!
