//! What the shell answers to a command.

use vstd::prelude::*;
use vstd::string::*;
use crate::room::{RoomModel, ShellRoom};

verus! {

/// A response as plain values.
pub struct ResponseModel {
    pub text: Seq<char>,
    pub room_changed: bool,
    pub new_room: Option<RoomModel>,
    pub events: Seq<Seq<char>>,
    pub module_output: Option<Seq<char>>,
}

/// Response returned after processing a command.
#[derive(Clone, Debug, PartialEq)]
pub struct ShellResponse {
    pub text: String,
    pub room_changed: bool,
    pub new_room: Option<ShellRoom>,
    pub events: Vec<String>,
    pub module_output: Option<String>,
}

impl View for ShellResponse {
    type V = ResponseModel;

    open spec fn view(&self) -> ResponseModel {
        ResponseModel {
            text: self.text@,
            room_changed: self.room_changed,
            new_room: match self.new_room {
                Some(r) => Some(r@),
                None => None,
            },
            events: self.events.deep_view(),
            module_output: match self.module_output {
                Some(o) => Some(o@),
                None => None,
            },
        }
    }
}

/// A plain text answer: no room change, no events, no module output.
pub open spec fn simple_response(text: Seq<char>) -> ResponseModel {
    ResponseModel {
        text,
        room_changed: false,
        new_room: None,
        events: Seq::empty(),
        module_output: None,
    }
}

/// An answer that moves the agent into `room`.
pub open spec fn room_response(text: Seq<char>, room: RoomModel) -> ResponseModel {
    ResponseModel {
        text,
        room_changed: true,
        new_room: Some(room),
        events: Seq::empty(),
        module_output: None,
    }
}

/// `r` with `event` added after its events.
pub open spec fn add_event(r: ResponseModel, event: Seq<char>) -> ResponseModel {
    ResponseModel { events: r.events.push(event), ..r }
}

/// `r` with its module output set to `output`.
pub open spec fn set_module_output(r: ResponseModel, output: Seq<char>) -> ResponseModel {
    ResponseModel { module_output: Some(output), ..r }
}

/// An optional response taken by its view.
pub open spec fn response_opt(o: Option<ShellResponse>) -> Option<ResponseModel> {
    match o {
        Some(r) => Some(r@),
        None => None,
    }
}

impl ShellResponse {
    /// A plain text answer.
    pub fn simple(text: &str) -> (r: Self)
        ensures
            r@ == simple_response(text@),
    {
        let events: Vec<String> = Vec::new();
        assert(events.deep_view() =~= Seq::<Seq<char>>::empty());
        ShellResponse {
            text: String::from_str(text),
            room_changed: false,
            new_room: None,
            events,
            module_output: None,
        }
    }

    /// An answer that moves the agent into `room`.
    pub fn with_room(text: &str, room: ShellRoom) -> (r: Self)
        ensures
            r@ == room_response(text@, room@),
    {
        let events: Vec<String> = Vec::new();
        assert(events.deep_view() =~= Seq::<Seq<char>>::empty());
        ShellResponse {
            text: String::from_str(text),
            room_changed: true,
            new_room: Some(room),
            events,
            module_output: None,
        }
    }

    /// The answer with `event` added after its events.
    pub fn with_event(self, event: &str) -> (r: Self)
        ensures
            r@ == add_event(self@, event@),
    {
        let mut s = self;
        let ghost before = s.events.deep_view();
        s.events.push(String::from_str(event));
        assert(s.events.deep_view() =~= before.push(event@));
        s
    }

    /// The answer with its module output set to `output`.
    pub fn with_module_output(self, output: &str) -> (r: Self)
        ensures
            r@ == set_module_output(self@, output@),
    {
        let mut s = self;
        s.module_output = Some(String::from_str(output));
        s
    }
}

} // verus!
