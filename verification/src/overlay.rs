//! Which overlay is open, and who is told when that changes.
//!
//! The watchers of a change are kept in an explicit list that the caller owns.
//! A watcher is a function from the new value to a message; setting the value
//! runs every watcher once, in the order of registration, and hands back the
//! messages for the caller to deliver.

use vstd::prelude::*;

verus! {

/// An overlay that can be open over the desktop.
#[derive(Clone, Copy, Debug, PartialEq, Eq, Hash, Structural)]
pub enum ActiveOverlay {
    Center,
}

/// A menu that can be open over the desktop.
#[derive(Clone, Copy, Debug, PartialEq, Eq, Hash, Structural)]
pub enum OpenMenu {
    Calendar,
}

/// The watchers of a value, oldest first.
pub struct Callbacks<F> {
    list: Vec<F>,
}

impl<F> View for Callbacks<F> {
    type V = Seq<F>;

    closed spec fn view(&self) -> Seq<F> {
        self.list@
    }
}

impl<F> Callbacks<F> {
    /// No watcher.
    pub fn new() -> (callbacks: Self)
        ensures
            callbacks@ == Seq::<F>::empty(),
    {
        Callbacks { list: Vec::new() }
    }

    /// How many watchers there are.
    pub fn len(&self) -> (n: usize)
        ensures
            n == self@.len(),
    {
        self.list.len()
    }

    /// Adds a watcher after those already there.
    pub fn push(&mut self, f: F)
        ensures
            final(self)@ == old(self)@.push(f),
    {
        self.list.push(f);
    }

    /// Runs every watcher on `value`, oldest first, and collects what they
    /// return.
    pub fn notify<T: Copy, M>(&self, value: T) -> (messages: Vec<M>) where F: Fn(T) -> M
        requires
            forall|i: int| 0 <= i < self@.len() ==> call_requires(#[trigger] self@[i], (value,)),
        ensures
            messages@.len() == self@.len(),
            forall|i: int|
                0 <= i < self@.len() ==> call_ensures(self@[i], (value,), #[trigger] messages@[i]),
    {
        let mut messages: Vec<M> = Vec::new();
        let mut done: usize = 0;
        while done < self.list.len()
            invariant
                done <= self.list.len(),
                messages@.len() == done,
                forall|i: int|
                    0 <= i < self@.len() ==> call_requires(#[trigger] self@[i], (value,)),
                forall|i: int|
                    0 <= i < done ==> call_ensures(self@[i], (value,), #[trigger] messages@[i]),
            decreases self.list.len() - done,
        {
            let watcher = &self.list[done];
            assert(call_requires(self@[done as int], (value,)));
            let message = watcher(value);
            messages.push(message);
            done += 1;
        }
        messages
    }
}

impl ActiveOverlay {
    /// Whether `open` is the centre overlay.
    pub fn is_center(open: Option<ActiveOverlay>) -> (b: bool)
        ensures
            b == (open == Some(ActiveOverlay::Center)),
    {
        match open {
            Some(overlay) => {
                assert(overlay is Center);
                true
            },
            None => false,
        }
    }

    /// Registers `f` to be run whenever the open overlay changes.
    pub fn on_change<F>(callbacks: &mut Callbacks<F>, f: F)
        ensures
            final(callbacks)@ == old(callbacks)@.push(f),
    {
        callbacks.push(f);
    }

    /// Announces that `value` is now the open overlay: every watcher is run on
    /// it once, oldest first. The messages they return are handed back in the
    /// same order.
    pub fn set<F, M>(callbacks: &Callbacks<F>, value: Option<ActiveOverlay>) -> (messages: Vec<
        M,
    >) where F: Fn(Option<ActiveOverlay>) -> M
        requires
            forall|i: int|
                0 <= i < callbacks@.len() ==> call_requires(#[trigger] callbacks@[i], (value,)),
        ensures
            messages@.len() == callbacks@.len(),
            forall|i: int|
                0 <= i < callbacks@.len() ==> call_ensures(
                    callbacks@[i],
                    (value,),
                    #[trigger] messages@[i],
                ),
    {
        callbacks.notify(value)
    }
}

impl OpenMenu {
    /// Whether `open` is the calendar.
    pub fn is_calendar(open: Option<OpenMenu>) -> (b: bool)
        ensures
            b == (open == Some(OpenMenu::Calendar)),
    {
        match open {
            Some(menu) => {
                assert(menu is Calendar);
                true
            },
            None => false,
        }
    }

    /// Registers `f` to be run whenever the open menu changes.
    pub fn on_change<F>(callbacks: &mut Callbacks<F>, f: F)
        ensures
            final(callbacks)@ == old(callbacks)@.push(f),
    {
        callbacks.push(f);
    }

    /// Announces that `value` is now the open menu: every watcher is run on it
    /// once, oldest first. The messages they return are handed back in the same
    /// order.
    pub fn set<F, M>(callbacks: &Callbacks<F>, value: Option<OpenMenu>) -> (messages: Vec<
        M,
    >) where F: Fn(Option<OpenMenu>) -> M
        requires
            forall|i: int|
                0 <= i < callbacks@.len() ==> call_requires(#[trigger] callbacks@[i], (value,)),
        ensures
            messages@.len() == callbacks@.len(),
            forall|i: int|
                0 <= i < callbacks@.len() ==> call_ensures(
                    callbacks@[i],
                    (value,),
                    #[trigger] messages@[i],
                ),
    {
        callbacks.notify(value)
    }
}

/// The layer that covers the desktop while a menu is open and closes the menu
/// when it is clicked.
pub struct Overlay {
    visible: bool,
}

impl Overlay {
    /// Whether the layer is shown.
    pub closed spec fn visible(&self) -> bool {
        self.visible
    }

    /// A hidden layer.
    pub fn new() -> (overlay: Self)
        ensures
            !overlay.visible(),
    {
        Overlay { visible: false }
    }

    /// Whether the layer is shown.
    pub fn is_visible(&self) -> (b: bool)
        ensures
            b == self.visible(),
    {
        self.visible
    }

    /// What the layer is told when the open menu changes: it is to be shown
    /// exactly while some menu is open.
    pub fn watch(open: Option<OpenMenu>) -> (visible: bool)
        ensures
            visible == open.is_some(),
    {
        open.is_some()
    }

    /// Shows or hides the layer.
    pub fn update(&mut self, message: bool)
        ensures
            final(self).visible() == message,
    {
        self.visible = message;
    }

    /// What a key press on the layer sets the open menu to: the escape key
    /// closes the menu, any other key changes nothing.
    pub fn on_key(escape: bool) -> (set: Option<Option<OpenMenu>>)
        ensures
            set == if escape {
                Some(None::<OpenMenu>)
            } else {
                None
            },
    {
        if escape {
            Some(None)
        } else {
            None
        }
    }
}

/// The menu in the middle of the bar.
pub struct CenterMenu {
    open: bool,
}

impl CenterMenu {
    /// Whether the menu is open.
    pub closed spec fn open(&self) -> bool {
        self.open
    }

    /// A closed menu.
    pub fn new() -> (menu: Self)
        ensures
            !menu.open(),
    {
        CenterMenu { open: false }
    }

    /// Whether the menu is open.
    pub fn is_open(&self) -> (b: bool)
        ensures
            b == self.open(),
    {
        self.open
    }

    /// Opens or closes the menu.
    pub fn update(&mut self, open: bool)
        ensures
            final(self).open() == open,
    {
        self.open = open;
    }
}

} // verus!
