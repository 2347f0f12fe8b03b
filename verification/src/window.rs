//! The window as the renderer sees it, and the little that is decided about
//! its input.

use vstd::prelude::*;
use crate::error::RendererError;

verus! {

/// A key that the renderer's host reacts to.
#[derive(Clone, Copy, Debug, PartialEq, Eq, Structural)]
pub enum KeyCode {
    Escape,
}

/// Something that happened to the window.
#[derive(Clone, Copy, Debug, PartialEq, Eq, Structural)]
pub enum Event {
    KeyPressed(KeyCode),
}

/// The windowing library's code for the Escape key.
pub const KEY_ESCAPE: i32 = 256;

/// The windowing library's code for a key going down.
pub const ACTION_PRESS: i32 = 1;

/// A window that can be drawn to.
///
/// The renderer asks it for its size, for the instance extensions that
/// presenting to it needs, and for a surface. Its host asks it for input.
pub trait Window {
    /// Starts delivering input to the window's event queue.
    fn set_callbacks(&mut self);

    /// The drawable area in pixels, width first.
    fn get_size(&self) -> (u32, u32);

    /// Whether the window has been asked to close.
    fn should_close(&self) -> bool;

    fn set_should_close(&mut self, value: bool);

    /// Hands out the events gathered since the last call.
    fn get_events(&mut self) -> Vec<Event>;

    /// The names of the instance extensions that presenting to this window
    /// needs.
    fn get_requested_extensions(&self) -> Vec<String>;

    /// Makes a surface for the instance with the given handle, and returns the
    /// surface's handle.
    fn create_surface(&self, instance: u64) -> Result<u64, RendererError>;
}

/// A windowing system that can open windows.
pub trait Backend: Sized {
    type Window: Window;

    fn init() -> Self;

    fn create_window(&mut self) -> Self::Window;
}

/// Something that draws to a window.
pub trait Renderer {
}

/// A window together with what draws to it.
pub struct GraphicsContext<W: Window, R: Renderer> {
    pub window: W,
    pub renderer: R,
}

/// The event that a key report stands for: a press of Escape is an event,
/// anything else is not.
pub open spec fn translated_key(key: i32, action: i32) -> Option<Event> {
    if action == ACTION_PRESS && key == KEY_ESCAPE {
        Some(Event::KeyPressed(KeyCode::Escape))
    } else {
        None
    }
}

/// Translates a key report of the windowing library.
pub fn translate_key(key: i32, action: i32) -> (r: Option<Event>)
    ensures
        r == translated_key(key, action),
{
    if action == ACTION_PRESS {
        if key == KEY_ESCAPE {
            Some(Event::KeyPressed(KeyCode::Escape))
        } else {
            None
        }
    } else {
        None
    }
}

/// The events of a window that have not been handed out yet, oldest first.
#[derive(Debug)]
pub struct EventQueue {
    events: Vec<Event>,
}

impl View for EventQueue {
    type V = Seq<Event>;

    closed spec fn view(&self) -> Seq<Event> {
        self.events@
    }
}

impl EventQueue {
    /// An empty queue.
    pub fn new() -> (q: EventQueue)
        ensures
            q@ == Seq::<Event>::empty(),
    {
        EventQueue { events: Vec::new() }
    }

    /// Takes a key report in: the event it stands for, if any, joins the
    /// queue's end.
    pub fn record_key(&mut self, key: i32, action: i32)
        ensures
            final(self)@ == match translated_key(key, action) {
                Some(event) => old(self)@.push(event),
                None => old(self)@,
            },
    {
        match translate_key(key, action) {
            Some(event) => {
                self.events.push(event);
            },
            None => {},
        }
    }

    /// Hands out the queued events and leaves the queue empty.
    pub fn drain(&mut self) -> (events: Vec<Event>)
        ensures
            events@ == old(self)@,
            final(self)@ == Seq::<Event>::empty(),
    {
        let mut events: Vec<Event> = Vec::new();
        std::mem::swap(&mut self.events, &mut events);
        events
    }
}

/// Whether the events ask for the window to close: a press of Escape does.
pub fn close_requested(events: &Vec<Event>) -> (r: bool)
    ensures
        r == events@.contains(Event::KeyPressed(KeyCode::Escape)),
{
    let mut i: usize = 0;
    while i < events.len()
        invariant
            i <= events.len(),
            forall|j: int| 0 <= j < i ==> events@[j] != Event::KeyPressed(KeyCode::Escape),
        decreases events.len() - i,
    {
        let Event::KeyPressed(key) = events[i];
        if key == KeyCode::Escape {
            assert(events@[i as int] == Event::KeyPressed(KeyCode::Escape));
            return true;
        }
        i += 1;
    }
    false
}

} // verus!
