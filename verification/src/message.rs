//! WebSocket messages as plain values.

use vstd::prelude::*;

verus! {

/// A WebSocket message.
#[derive(Debug, PartialEq, Eq)]
pub enum Message {
    /// A text message.
    Text(String),
    /// A binary message.
    Binary(Vec<u8>),
    /// A ping with its payload.
    Ping(Vec<u8>),
    /// A pong with its payload.
    Pong(Vec<u8>),
    /// A request to close the connection.
    Close(Option<CloseFrame>),
    /// A raw frame. Connections never deliver one; it can only be sent.
    Frame(Frame),
}

/// Why a connection is being closed.
#[derive(Debug, PartialEq, Eq)]
pub struct CloseFrame {
    pub code: u16,
    pub reason: String,
}

/// A raw frame: the fields of its header, and its payload.
#[derive(Debug, PartialEq, Eq)]
pub struct Frame {
    pub is_final: bool,
    pub rsv1: bool,
    pub rsv2: bool,
    pub rsv3: bool,
    pub opcode: u8,
    pub mask: Option<[u8; 4]>,
    pub payload: Vec<u8>,
}

/// The contents of a [`Message`].
pub enum MessageView {
    Text(Seq<char>),
    Binary(Seq<u8>),
    Ping(Seq<u8>),
    Pong(Seq<u8>),
    Close(Option<CloseFrameView>),
    Frame(FrameView),
}

/// The contents of a [`CloseFrame`].
pub struct CloseFrameView {
    pub code: u16,
    pub reason: Seq<char>,
}

/// The contents of a [`Frame`].
pub struct FrameView {
    pub is_final: bool,
    pub rsv1: bool,
    pub rsv2: bool,
    pub rsv3: bool,
    pub opcode: u8,
    pub mask: Option<Seq<u8>>,
    pub payload: Seq<u8>,
}

impl View for CloseFrame {
    type V = CloseFrameView;

    open spec fn view(&self) -> CloseFrameView {
        CloseFrameView { code: self.code, reason: self.reason@ }
    }
}

impl View for Frame {
    type V = FrameView;

    open spec fn view(&self) -> FrameView {
        FrameView {
            is_final: self.is_final,
            rsv1: self.rsv1,
            rsv2: self.rsv2,
            rsv3: self.rsv3,
            opcode: self.opcode,
            mask: match self.mask {
                Some(mask) => Some(mask@),
                None => None,
            },
            payload: self.payload@,
        }
    }
}

impl View for Message {
    type V = MessageView;

    open spec fn view(&self) -> MessageView {
        match self {
            Message::Text(text) => MessageView::Text(text@),
            Message::Binary(data) => MessageView::Binary(data@),
            Message::Ping(data) => MessageView::Ping(data@),
            Message::Pong(data) => MessageView::Pong(data@),
            Message::Close(Some(frame)) => MessageView::Close(Some(frame@)),
            Message::Close(None) => MessageView::Close(None),
            Message::Frame(frame) => MessageView::Frame(frame@),
        }
    }
}

impl Clone for CloseFrame {
    fn clone(&self) -> (copy: Self)
        ensures
            copy@ == self@,
    {
        Self { code: self.code, reason: self.reason.clone() }
    }
}

impl Clone for Frame {
    fn clone(&self) -> (copy: Self)
        ensures
            copy@ == self@,
    {
        Self {
            is_final: self.is_final,
            rsv1: self.rsv1,
            rsv2: self.rsv2,
            rsv3: self.rsv3,
            opcode: self.opcode,
            mask: self.mask,
            payload: self.payload.clone(),
        }
    }
}

impl Clone for Message {
    fn clone(&self) -> (copy: Self)
        ensures
            copy@ == self@,
    {
        match self {
            Message::Text(text) => Message::Text(text.clone()),
            Message::Binary(data) => Message::Binary(data.clone()),
            Message::Ping(data) => Message::Ping(data.clone()),
            Message::Pong(data) => Message::Pong(data.clone()),
            Message::Close(Some(frame)) => Message::Close(Some(frame.clone())),
            Message::Close(None) => Message::Close(None),
            Message::Frame(frame) => Message::Frame(frame.clone()),
        }
    }
}

/// A message is viewed with its kind and with all that it holds.
pub proof fn a_view_shows_the_whole_message(msg: Message)
    ensures
        msg matches Message::Text(text) ==> msg@ == MessageView::Text(text@),
        msg matches Message::Binary(data) ==> msg@ == MessageView::Binary(data@),
        msg matches Message::Ping(data) ==> msg@ == MessageView::Ping(data@),
        msg matches Message::Pong(data) ==> msg@ == MessageView::Pong(data@),
        msg matches Message::Close(None) ==> msg@ == MessageView::Close(None),
        msg matches Message::Close(Some(frame)) ==> {
            &&& msg@ matches MessageView::Close(Some(view))
            &&& view.code == frame.code
            &&& view.reason == frame.reason@
        },
        msg matches Message::Frame(frame) ==> {
            &&& msg@ matches MessageView::Frame(view)
            &&& view.is_final == frame.is_final
            &&& view.rsv1 == frame.rsv1
            &&& view.rsv2 == frame.rsv2
            &&& view.rsv3 == frame.rsv3
            &&& view.opcode == frame.opcode
            &&& view.mask is Some <==> frame.mask is Some
            &&& frame.mask matches Some(mask) ==> view.mask == Some(mask@)
            &&& view.payload == frame.payload@
        },
{
}

/// A copy of a message has the kind of the message and holds what it holds.
pub proof fn a_copy_holds_the_same(msg: Message, copy: Message)
    requires
        call_ensures(<Message as Clone>::clone, (&msg,), copy),
    ensures
        match (msg, copy) {
            (Message::Text(text), Message::Text(copied)) => copied@ == text@,
            (Message::Binary(data), Message::Binary(copied)) => copied@ == data@,
            (Message::Ping(data), Message::Ping(copied)) => copied@ == data@,
            (Message::Pong(data), Message::Pong(copied)) => copied@ == data@,
            (Message::Close(None), Message::Close(None)) => true,
            (Message::Close(Some(frame)), Message::Close(Some(copied))) => {
                &&& copied.code == frame.code
                &&& copied.reason@ == frame.reason@
            },
            (Message::Frame(frame), Message::Frame(copied)) => {
                &&& copied.is_final == frame.is_final
                &&& copied.rsv1 == frame.rsv1
                &&& copied.rsv2 == frame.rsv2
                &&& copied.rsv3 == frame.rsv3
                &&& copied.opcode == frame.opcode
                &&& match (frame.mask, copied.mask) {
                    (Some(mask), Some(copied)) => copied@ == mask@,
                    (None, None) => true,
                    _ => false,
                }
                &&& copied.payload@ == frame.payload@
            },
            _ => false,
        },
{
}

} // verus!
