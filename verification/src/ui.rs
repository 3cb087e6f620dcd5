//! The chat client's interface state: what the screen shows — connection
//! status, the text being typed, the messages received so far — and how
//! each interface event changes it. Rendering and the transport live
//! outside; they hand events in and perform the one action handed back.
use vstd::prelude::*;

verus! {

/// An interface event: connection status changed, the input field
/// changed, the user submitted the typed text, a send finished, or a chat
/// message arrived.
pub enum Message {
    Connected,
    Disconnected,
    InputChanged(String),
    SendTrollBoxMessage(String),
    SendTrollBoxMessageSuccess,
    SendTrollBoxMessageFailure,
    TrollBoxMessageReceived(crate::msg::Message),
}

/// What the surroundings are asked to do after an event: nothing, or send
/// the submitted text to the relay.
pub enum Action {
    Nothing,
    Send(String),
}

/// The interface state: disconnected, or connected with the input field's
/// current text and the messages shown.
pub enum State {
    Disconnected,
    Connected { input_value: String, messages: Vec<crate::msg::Message> },
}

impl State {
    /// A connection is shown as live.
    pub open spec fn is_connected(&self) -> bool {
        match *self {
            State::Disconnected => false,
            State::Connected { .. } => true,
        }
    }

    /// The input field's text; empty while disconnected.
    pub open spec fn input(&self) -> Seq<char> {
        match *self {
            State::Disconnected => Seq::empty(),
            State::Connected { input_value, .. } => input_value@,
        }
    }

    /// The messages shown; none while disconnected.
    pub open spec fn shown(&self) -> Seq<crate::msg::Message> {
        match *self {
            State::Disconnected => Seq::empty(),
            State::Connected { messages, .. } => messages@,
        }
    }

    /// The interface starts disconnected.
    pub fn new() -> (s: State)
        ensures
            !s.is_connected(),
    {
        State::Disconnected
    }

    /// Consumes one event. Connection changes reset the view; typing and
    /// received messages change it only while connected; submitting the
    /// typed text clears the input field and asks for exactly one send.
    pub fn update(&mut self, message: Message) -> (a: Action)
        ensures
            match message {
                Message::Connected => {
                    &&& final(self).is_connected()
                    &&& final(self).input() == Seq::<char>::empty()
                    &&& final(self).shown() == Seq::<crate::msg::Message>::empty()
                    &&& a == Action::Nothing
                },
                Message::Disconnected => {
                    &&& !final(self).is_connected()
                    &&& a == Action::Nothing
                },
                Message::InputChanged(s) => {
                    &&& final(self).is_connected() == old(self).is_connected()
                    &&& final(self).input() == if old(self).is_connected() {
                        s@
                    } else {
                        old(self).input()
                    }
                    &&& final(self).shown() == old(self).shown()
                    &&& a == Action::Nothing
                },
                Message::SendTrollBoxMessage(text) => {
                    &&& final(self).is_connected() == old(self).is_connected()
                    &&& final(self).input() == Seq::<char>::empty()
                    &&& final(self).shown() == old(self).shown()
                    &&& a == if old(self).is_connected() {
                        Action::Send(text)
                    } else {
                        Action::Nothing
                    }
                },
                Message::TrollBoxMessageReceived(m) => {
                    &&& final(self).is_connected() == old(self).is_connected()
                    &&& final(self).input() == old(self).input()
                    &&& final(self).shown() == if old(self).is_connected() {
                        old(self).shown().push(m)
                    } else {
                        old(self).shown()
                    }
                    &&& a == Action::Nothing
                },
                Message::SendTrollBoxMessageSuccess => {
                    &&& *final(self) == *old(self)
                    &&& a == Action::Nothing
                },
                Message::SendTrollBoxMessageFailure => {
                    &&& *final(self) == *old(self)
                    &&& a == Action::Nothing
                },
            },
    {
        match message {
            Message::Disconnected => {
                *self = State::Disconnected;
                Action::Nothing
            },
            Message::Connected => {
                *self = State::Connected { input_value: String::new(), messages: Vec::new() };
                Action::Nothing
            },
            Message::InputChanged(s) => {
                match self {
                    State::Connected { input_value, .. } => {
                        *input_value = s;
                    },
                    State::Disconnected => {},
                }
                Action::Nothing
            },
            Message::SendTrollBoxMessage(text) => {
                match self {
                    State::Connected { input_value, .. } => {
                        *input_value = String::new();
                        Action::Send(text)
                    },
                    State::Disconnected => Action::Nothing,
                }
            },
            Message::TrollBoxMessageReceived(m) => {
                match self {
                    State::Connected { messages, .. } => {
                        messages.push(m);
                    },
                    State::Disconnected => {},
                }
                Action::Nothing
            },
            Message::SendTrollBoxMessageSuccess => Action::Nothing,
            Message::SendTrollBoxMessageFailure => Action::Nothing,
        }
    }
}

} // verus!
