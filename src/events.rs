use vstd::prelude::*;

use crate::geometry::Point3;

verus! {

/// The text carried by an optional string, as characters.
pub open spec fn opt_chars(o: Option<String>) -> Option<Seq<char>> {
    match o {
        Some(s) => Some(s@),
        None => None,
    }
}

/// The reason reported for a cancellation: the given text, or nothing.
pub open spec fn reason_text(o: Option<Seq<char>>) -> Seq<char> {
    match o {
        Some(s) => s,
        None => Seq::empty(),
    }
}

/// What a dispatch reports: every subscriber ran, or one of them cancelled.
#[derive(Clone, Debug, PartialEq, Eq)]
pub enum EventResult {
    EvPassed,
    EvCancelled(String),
}

impl EventResult {
    pub open spec fn is_passed(&self) -> bool {
        match self {
            EventResult::EvPassed => true,
            EventResult::EvCancelled(_) => false,
        }
    }

    /// The cancellation reason, when the dispatch was cancelled.
    pub open spec fn cancel_reason(&self) -> Option<Seq<char>> {
        match self {
            EventResult::EvPassed => None,
            EventResult::EvCancelled(r) => Some(r@),
        }
    }

    pub fn passed(&self) -> (r: bool)
        ensures
            r == self.is_passed(),
    {
        match self {
            EventResult::EvPassed => true,
            EventResult::EvCancelled(_) => false,
        }
    }
}

fn clone_reason(reason: &Option<String>) -> (r: Option<String>)
    ensures
        opt_chars(r) == opt_chars(*reason),
{
    match reason {
        Some(s) => Some(s.clone()),
        None => None,
    }
}

/// An event that travels through a bus and that a subscriber may cancel.
pub trait Event {
    spec fn is_cancelled(&self) -> bool;

    spec fn reason(&self) -> Option<Seq<char>>;

    fn cancellable(&self) -> (r: bool)
        ensures
            r,
    ;

    fn cancelled(&self) -> (r: bool)
        ensures
            r == self.is_cancelled(),
    ;

    fn get_cancelled_reason(&self) -> (r: Option<String>)
        ensures
            opt_chars(r) == self.reason(),
    ;

    fn set_cancelled(&mut self, cancel: bool, reason: Option<String>)
        ensures
            final(self).is_cancelled() == cancel,
            final(self).reason() == opt_chars(reason),
    ;

    fn cancel(&mut self, reason: Option<String>)
        ensures
            final(self).is_cancelled(),
            final(self).reason() == opt_chars(reason),
    ;
}

/// The kind of input behind an interaction: a key (by its key code) or the mouse.
#[derive(Clone, Copy, Debug, PartialEq, Eq, Structural)]
pub enum InteractType {
    Keyboard(i32),
    Mouse,
}

/// Which mouse button is held, if any.
#[derive(Clone, Copy, Debug, PartialEq, Eq, Structural)]
pub enum PressAction {
    NONE,
    PRESSED(i32),
}

/// Cursor position and movement since the previous sample, in whole pixels.
#[derive(Clone, Copy, Debug, PartialEq, Eq)]
pub struct MouseData {
    pub cursor: (i32, i32),
    pub delta: (i32, i32),
    pub pressed: PressAction,
}

impl MouseData {
    pub fn new() -> (r: Self)
        ensures
            r.cursor == (0i32, 0i32),
            r.delta == (0i32, 0i32),
            r.pressed == PressAction::NONE,
    {
        MouseData { cursor: (0, 0), delta: (0, 0), pressed: PressAction::NONE }
    }
}

/// A state change requested of the engine.
#[derive(Clone, Debug)]
pub enum Action {
    ChangeScene(String),
    ViewPortUpdate(Point3, Point3, Point3, i32),
    UpdateResolution(u32, u32),
}

pub struct InitEvent {
    pub cancelled: bool,
    pub reason: Option<String>,
}

pub struct ShutdownEvent {
    pub cancelled: bool,
    pub reason: Option<String>,
}

pub struct RefreshEvent {
    pub cancelled: bool,
    pub reason: Option<String>,
}

pub struct ClearEvent {
    pub cancelled: bool,
    pub reason: Option<String>,
}

pub struct InteractEvent {
    pub interact: InteractType,
    pub data: MouseData,
    pub cancelled: bool,
    pub reason: Option<String>,
}

pub struct ActionEvent {
    pub cancelled: bool,
    pub action: Action,
    pub reason: Option<String>,
}

impl InitEvent {
    pub fn new() -> (r: Self)
        ensures
            !r.cancelled,
            r.reason is None,
    {
        InitEvent { cancelled: false, reason: None }
    }
}

impl ShutdownEvent {
    pub fn new() -> (r: Self)
        ensures
            !r.cancelled,
            r.reason is None,
    {
        ShutdownEvent { cancelled: false, reason: None }
    }
}

impl RefreshEvent {
    pub fn new() -> (r: Self)
        ensures
            !r.cancelled,
            r.reason is None,
    {
        RefreshEvent { cancelled: false, reason: None }
    }
}

impl ClearEvent {
    pub fn new() -> (r: Self)
        ensures
            !r.cancelled,
            r.reason is None,
    {
        ClearEvent { cancelled: false, reason: None }
    }
}

impl InteractEvent {
    pub fn new(interact: InteractType) -> (r: Self)
        ensures
            r.interact == interact,
            r.data.cursor == (0i32, 0i32),
            r.data.delta == (0i32, 0i32),
            r.data.pressed == PressAction::NONE,
            !r.cancelled,
            r.reason is None,
    {
        InteractEvent { interact, data: MouseData::new(), cancelled: false, reason: None }
    }
}

impl ActionEvent {
    pub fn new(action: Action) -> (r: Self)
        ensures
            r.action == action,
            !r.cancelled,
            r.reason is None,
    {
        ActionEvent { cancelled: false, action, reason: None }
    }
}

impl Event for InitEvent {
    open spec fn is_cancelled(&self) -> bool {
        self.cancelled
    }

    open spec fn reason(&self) -> Option<Seq<char>> {
        opt_chars(self.reason)
    }

    fn cancellable(&self) -> (r: bool) {
        true
    }

    fn cancelled(&self) -> (r: bool) {
        self.cancelled
    }

    fn get_cancelled_reason(&self) -> (r: Option<String>) {
        clone_reason(&self.reason)
    }

    fn set_cancelled(&mut self, cancel: bool, reason: Option<String>) {
        self.cancelled = cancel;
        self.reason = reason;
    }

    fn cancel(&mut self, reason: Option<String>) {
        self.set_cancelled(true, reason);
    }
}

impl Event for ShutdownEvent {
    open spec fn is_cancelled(&self) -> bool {
        self.cancelled
    }

    open spec fn reason(&self) -> Option<Seq<char>> {
        opt_chars(self.reason)
    }

    fn cancellable(&self) -> (r: bool) {
        true
    }

    fn cancelled(&self) -> (r: bool) {
        self.cancelled
    }

    fn get_cancelled_reason(&self) -> (r: Option<String>) {
        clone_reason(&self.reason)
    }

    fn set_cancelled(&mut self, cancel: bool, reason: Option<String>) {
        self.cancelled = cancel;
        self.reason = reason;
    }

    fn cancel(&mut self, reason: Option<String>) {
        self.set_cancelled(true, reason);
    }
}

impl Event for RefreshEvent {
    open spec fn is_cancelled(&self) -> bool {
        self.cancelled
    }

    open spec fn reason(&self) -> Option<Seq<char>> {
        opt_chars(self.reason)
    }

    fn cancellable(&self) -> (r: bool) {
        true
    }

    fn cancelled(&self) -> (r: bool) {
        self.cancelled
    }

    fn get_cancelled_reason(&self) -> (r: Option<String>) {
        clone_reason(&self.reason)
    }

    fn set_cancelled(&mut self, cancel: bool, reason: Option<String>) {
        self.cancelled = cancel;
        self.reason = reason;
    }

    fn cancel(&mut self, reason: Option<String>) {
        self.set_cancelled(true, reason);
    }
}

impl Event for ClearEvent {
    open spec fn is_cancelled(&self) -> bool {
        self.cancelled
    }

    open spec fn reason(&self) -> Option<Seq<char>> {
        opt_chars(self.reason)
    }

    fn cancellable(&self) -> (r: bool) {
        true
    }

    fn cancelled(&self) -> (r: bool) {
        self.cancelled
    }

    fn get_cancelled_reason(&self) -> (r: Option<String>) {
        clone_reason(&self.reason)
    }

    fn set_cancelled(&mut self, cancel: bool, reason: Option<String>) {
        self.cancelled = cancel;
        self.reason = reason;
    }

    fn cancel(&mut self, reason: Option<String>) {
        self.set_cancelled(true, reason);
    }
}

impl Event for InteractEvent {
    open spec fn is_cancelled(&self) -> bool {
        self.cancelled
    }

    open spec fn reason(&self) -> Option<Seq<char>> {
        opt_chars(self.reason)
    }

    fn cancellable(&self) -> (r: bool) {
        true
    }

    fn cancelled(&self) -> (r: bool) {
        self.cancelled
    }

    fn get_cancelled_reason(&self) -> (r: Option<String>) {
        clone_reason(&self.reason)
    }

    fn set_cancelled(&mut self, cancel: bool, reason: Option<String>) {
        self.cancelled = cancel;
        self.reason = reason;
    }

    fn cancel(&mut self, reason: Option<String>) {
        self.set_cancelled(true, reason);
    }
}

impl Event for ActionEvent {
    open spec fn is_cancelled(&self) -> bool {
        self.cancelled
    }

    open spec fn reason(&self) -> Option<Seq<char>> {
        opt_chars(self.reason)
    }

    fn cancellable(&self) -> (r: bool) {
        true
    }

    fn cancelled(&self) -> (r: bool) {
        self.cancelled
    }

    fn get_cancelled_reason(&self) -> (r: Option<String>) {
        clone_reason(&self.reason)
    }

    fn set_cancelled(&mut self, cancel: bool, reason: Option<String>) {
        self.cancelled = cancel;
        self.reason = reason;
    }

    fn cancel(&mut self, reason: Option<String>) {
        self.set_cancelled(true, reason);
    }
}

} // verus!
