//! Rooms: what the agent stands in, and how a room reads as text.

use vstd::prelude::*;
use vstd::string::*;
use crate::text::{join, join_strings, str_eq, copy_strings};

verus! {

/// A room as plain text values.
pub struct RoomModel {
    pub title: Seq<char>,
    pub description: Seq<char>,
    pub exits: Seq<Seq<char>>,
    pub objects: Seq<Seq<char>>,
    pub agents_present: Seq<Seq<char>>,
    pub module_source: Seq<char>,
}

/// A room the agent can occupy: a desktop, a device, a knowledge room,
/// or anything a module provides.
#[derive(Clone, Debug, PartialEq)]
pub struct ShellRoom {
    pub title: String,
    pub description: String,
    pub exits: Vec<String>,
    pub objects: Vec<String>,
    pub agents_present: Vec<String>,
    pub module_source: String,
}

impl View for ShellRoom {
    type V = RoomModel;

    open spec fn view(&self) -> RoomModel {
        RoomModel {
            title: self.title@,
            description: self.description@,
            exits: self.exits.deep_view(),
            objects: self.objects.deep_view(),
            agents_present: self.agents_present.deep_view(),
            module_source: self.module_source@,
        }
    }
}

/// An optional room taken by its view.
pub open spec fn room_opt(o: Option<ShellRoom>) -> Option<RoomModel> {
    match o {
        Some(r) => Some(r@),
        None => None,
    }
}

/// The room the shell starts in, and the one `go hub` leads back to.
pub open spec fn hub_room() -> RoomModel {
    RoomModel {
        title: "Central Hub"@,
        description: "You stand in the Central Hub of Plato Shell. A soft hum of computation fills the air. Passages lead to various module rooms."@,
        exits: seq!["puppeteer"@, "manus"@, "vision"@],
        objects: seq!["status terminal"@, "help crystal"@],
        agents_present: Seq::empty(),
        module_source: "shell"@,
    }
}

/// The Vision Lab, behind the hub's `vision` exit: camera feeds read out as text.
pub open spec fn vision_lab() -> RoomModel {
    RoomModel {
        title: "Vision Lab"@,
        description: "Camera feeds stream as text descriptions. Objects detected: person, desk, laptop."@,
        exits: Seq::empty(),
        objects: Seq::empty(),
        agents_present: Seq::empty(),
        module_source: "shell"@,
    }
}

/// The room behind an exit that no loaded module provides (other than `vision`).
pub open spec fn generic_room_model(name: Seq<char>) -> RoomModel {
    RoomModel {
        title: name + " Chamber"@,
        description: "A room belonging to the "@ + name + " module. It's quiet here."@,
        exits: seq!["hub"@],
        objects: Seq::empty(),
        agents_present: Seq::empty(),
        module_source: name,
    }
}

/// The room the puppeteer module provides behind the exit `puppeteer`.
pub open spec fn puppeteer_room() -> RoomModel {
    RoomModel {
        title: "Puppeteer Chamber"@,
        description: "Rows of browser windows shimmer in the digital ether. Tabs flicker with activity."@,
        exits: seq!["hub"@],
        objects: seq!["browser console"@, "dom inspector"@],
        agents_present: Seq::empty(),
        module_source: "puppeteer"@,
    }
}

/// `label` and the items of `list` joined by ", ", on a line of its own;
/// nothing when `list` is empty.
pub open spec fn listing(label: Seq<char>, list: Seq<Seq<char>>) -> Seq<char> {
    if list.len() > 0 {
        label + join(list, ", "@) + "\n"@
    } else {
        Seq::empty()
    }
}

/// How a room reads: its title and description, then its exits, objects and
/// agents where it has any, then its source module where that is not the shell.
pub open spec fn room_text(r: RoomModel) -> Seq<char> {
    "📍 "@ + r.title + "\n"@ + r.description + "\n"@ + listing("\nExits: "@, r.exits) + listing(
        "Objects: "@,
        r.objects,
    ) + listing("Agents here: "@, r.agents_present) + (if r.module_source != "shell"@ {
        "["@ + r.module_source + "]\n"@
    } else {
        Seq::empty()
    })
}

fn push_listing(out: &mut String, label: &str, list: &Vec<String>)
    ensures
        final(out)@ == old(out)@ + listing(label@, list.deep_view()),
{
    if list.len() > 0 {
        out.append(label);
        let joined = join_strings(list, ", ");
        out.append(joined.as_str());
        out.append("\n");
    } else {
        assert(old(out)@ + listing(label@, list.deep_view()) =~= old(out)@);
    }
}

fn one_string(s: &str) -> (r: Vec<String>)
    ensures
        r.deep_view() == seq![s@],
{
    let mut v: Vec<String> = Vec::new();
    v.push(String::from_str(s));
    assert(v.deep_view() =~= seq![s@]);
    v
}

fn two_strings(a: &str, b: &str) -> (r: Vec<String>)
    ensures
        r.deep_view() == seq![a@, b@],
{
    let mut v: Vec<String> = Vec::new();
    v.push(String::from_str(a));
    v.push(String::from_str(b));
    assert(v.deep_view() =~= seq![a@, b@]);
    v
}

fn no_strings() -> (r: Vec<String>)
    ensures
        r.deep_view() == Seq::<Seq<char>>::empty(),
{
    let v: Vec<String> = Vec::new();
    assert(v.deep_view() =~= Seq::<Seq<char>>::empty());
    v
}

impl ShellRoom {
    /// A room with a title and a description, no exits, objects or agents,
    /// provided by the shell itself.
    pub fn new(title: &str, description: &str) -> (r: Self)
        ensures
            r@ == (RoomModel {
                title: title@,
                description: description@,
                exits: Seq::empty(),
                objects: Seq::empty(),
                agents_present: Seq::empty(),
                module_source: "shell"@,
            }),
    {
        ShellRoom {
            title: String::from_str(title),
            description: String::from_str(description),
            exits: no_strings(),
            objects: no_strings(),
            agents_present: no_strings(),
            module_source: String::from_str("shell"),
        }
    }

    /// The Central Hub.
    pub fn default_entry() -> (r: Self)
        ensures
            r@ == hub_room(),
    {
        let mut exits: Vec<String> = Vec::new();
        exits.push(String::from_str("puppeteer"));
        exits.push(String::from_str("manus"));
        exits.push(String::from_str("vision"));
        assert(exits.deep_view() =~= seq!["puppeteer"@, "manus"@, "vision"@]);
        ShellRoom {
            title: String::from_str("Central Hub"),
            description: String::from_str(
                "You stand in the Central Hub of Plato Shell. A soft hum of computation fills the air. Passages lead to various module rooms.",
            ),
            exits,
            objects: two_strings("status terminal", "help crystal"),
            agents_present: no_strings(),
            module_source: String::from_str("shell"),
        }
    }

    /// How the room reads as text (`room_text`).
    pub fn to_string(&self) -> (r: String)
        ensures
            r@ == room_text(self@),
    {
        let mut out = String::from_str("📍 ");
        out.append(self.title.as_str());
        out.append("\n");
        out.append(self.description.as_str());
        out.append("\n");
        push_listing(&mut out, "\nExits: ", &self.exits);
        push_listing(&mut out, "Objects: ", &self.objects);
        push_listing(&mut out, "Agents here: ", &self.agents_present);
        if !str_eq(self.module_source.as_str(), "shell") {
            out.append("[");
            out.append(self.module_source.as_str());
            out.append("]\n");
        } else {
            assert(out@ + Seq::<char>::empty() =~= out@);
        }
        out
    }

    /// A fresh copy of the room.
    pub fn duplicate(&self) -> (r: Self)
        ensures
            r@ == self@,
    {
        ShellRoom {
            title: self.title.clone(),
            description: self.description.clone(),
            exits: copy_strings(&self.exits),
            objects: copy_strings(&self.objects),
            agents_present: copy_strings(&self.agents_present),
            module_source: self.module_source.clone(),
        }
    }
}

/// The room behind an exit that no loaded module provides: `generic_room_model`.
pub fn generic_room(name: &str) -> (r: ShellRoom)
    ensures
        r@ == generic_room_model(name@),
{
    let title = String::from_str(name).concat(" Chamber");
    let description = String::from_str("A room belonging to the ").concat(name).concat(
        " module. It's quiet here.",
    );
    let mut room = ShellRoom::new(title.as_str(), description.as_str());
    room.exits = one_string("hub");
    room.module_source = String::from_str(name);
    room
}

/// The Vision Lab.
pub fn make_vision_lab() -> (r: ShellRoom)
    ensures
        r@ == vision_lab(),
{
    ShellRoom::new(
        "Vision Lab",
        "Camera feeds stream as text descriptions. Objects detected: person, desk, laptop.",
    )
}

/// The puppeteer module's room.
pub fn make_puppeteer_room() -> (r: ShellRoom)
    ensures
        r@ == puppeteer_room(),
{
    let mut room = ShellRoom::new(
        "Puppeteer Chamber",
        "Rows of browser windows shimmer in the digital ether. Tabs flicker with activity.",
    );
    room.exits = one_string("hub");
    room.objects = two_strings("browser console", "dom inspector");
    room.module_source = String::from_str("puppeteer");
    room
}

} // verus!
