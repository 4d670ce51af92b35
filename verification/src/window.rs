//! The label of the focused window: for some applications the bar shows a
//! shorter title or class than the window announces.

use crate::event::ActiveWindowData;
use crate::text::{equal, replace, replaced};
use vstd::prelude::*;

verus! {

/// The title shown for a window of class `class` whose own title is `title`.
pub open spec fn shown_title(class: Seq<char>, title: Seq<char>) -> Seq<char> {
    if class == "kitty"@ {
        "Terminal"@
    } else if class == "code"@ {
        replaced(title, " - Visual Studio Code"@, ""@)
    } else if class == "firefox"@ {
        replaced(title, "Mozilla Firefox"@, "Firefox"@)
    } else if class == ""@ {
        "Desktop"@
    } else {
        title
    }
}

/// The class shown for a window of class `class`.
pub open spec fn shown_class(class: Seq<char>) -> Seq<char> {
    if class == "dev.zed.Zed"@ {
        "zed"@
    } else if class == ""@ {
        "desktop"@
    } else {
        class
    }
}

/// The title to show for a window of class `class` and title `title`.
pub fn title_override(class: &str, title: String) -> (shown: String)
    ensures
        shown@ == shown_title(class@, title@),
{
    if equal(class, "kitty") {
        "Terminal".to_owned()
    } else if equal(class, "code") {
        proof {
            reveal_strlit(" - Visual Studio Code");
        }
        replace(title.as_str(), " - Visual Studio Code", "")
    } else if equal(class, "firefox") {
        proof {
            reveal_strlit("Mozilla Firefox");
        }
        replace(title.as_str(), "Mozilla Firefox", "Firefox")
    } else if equal(class, "") {
        "Desktop".to_owned()
    } else {
        title
    }
}

/// The class to show for a window of class `class`.
pub fn class_override(class: String) -> (shown: String)
    ensures
        shown@ == shown_class(class@),
{
    if equal(class.as_str(), "dev.zed.Zed") {
        "zed".to_owned()
    } else if equal(class.as_str(), "") {
        "desktop".to_owned()
    } else {
        class
    }
}

/// A message to the label of the focused window.
#[derive(Clone, Debug, PartialEq, Eq)]
pub enum Message {
    /// Another window received focus.
    Update(ActiveWindowData),
}

/// The label of the focused window.
pub struct ActiveWindow {
    active: ActiveWindowData,
}

impl ActiveWindow {
    /// The class of the focused window, as announced.
    pub closed spec fn class(&self) -> Seq<char> {
        self.active.class@
    }

    /// The title of the focused window, as announced.
    pub closed spec fn title(&self) -> Seq<char> {
        self.active.title@
    }

    /// A label for the window that has focus at the start.
    pub fn new(class: String, title: String) -> (label: Self)
        ensures
            label.class() == class@,
            label.title() == title@,
    {
        ActiveWindow { active: ActiveWindowData { class, title } }
    }

    /// Takes note of the window that now has focus.
    pub fn update(&mut self, message: Message)
        ensures
            message matches Message::Update(window) && final(self).class() == window.class@
                && final(self).title() == window.title@,
    {
        match message {
            Message::Update(window) => {
                self.active = window;
            },
        }
    }

    /// The first line of the label: the title to show.
    pub fn title_label(&self) -> (shown: String)
        ensures
            shown@ == shown_title(self.class(), self.title()),
    {
        title_override(self.active.class.as_str(), self.active.title.clone())
    }

    /// The second line of the label: the class to show.
    pub fn class_label(&self) -> (shown: String)
        ensures
            shown@ == shown_class(self.class()),
    {
        class_override(self.active.class.clone())
    }
}

} // verus!
