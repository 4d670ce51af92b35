//! Labels and styles for the front end that is built on the Astal toolkit.
//!
//! This front end draws the workspace slider as three segments, before, on and
//! after the active workspace, each sized by a style rule, and it learns the
//! class of a window under the name that the toolkit reports.

use crate::text::{decimal, equal, replace, replaced, to_decimal, views};
use vstd::prelude::*;
use vstd::string::*;

verus! {

/// The width of a dot of the slider, in pixels.
pub const W_DOT: u64 = 6;

/// The width of the space between two dots, in pixels.
pub const W_SPACE: u64 = 6;

/// How the title of a window is turned into the title shown.
#[derive(Clone, Copy, Debug, PartialEq, Eq, Structural)]
pub enum TitleTransformer {
    /// Show "Terminal".
    Terminal,
    /// Shorten the name of the editor.
    Editor,
    /// Shorten the name of the browser.
    Browser,
    /// Show "Desktop".
    Desktop,
    /// Show the title as it is.
    Keep,
}

impl TitleTransformer {
    /// The transformer for windows of class `class`.
    pub open spec fn of_class(class: Seq<char>) -> TitleTransformer {
        if class == "kitty"@ {
            TitleTransformer::Terminal
        } else if class == "code-url-handler"@ {
            TitleTransformer::Editor
        } else if class == "firefox"@ {
            TitleTransformer::Browser
        } else if class == ""@ {
            TitleTransformer::Desktop
        } else {
            TitleTransformer::Keep
        }
    }

    /// The title that the transformer makes of `title`.
    pub open spec fn applied(self, title: Seq<char>) -> Seq<char> {
        match self {
            TitleTransformer::Terminal => "Terminal"@,
            TitleTransformer::Editor => replaced(title, "Visual Studio Code"@, "VSCode"@),
            TitleTransformer::Browser => replaced(title, "Mozilla Firefox"@, "Firefox"@),
            TitleTransformer::Desktop => "Desktop"@,
            TitleTransformer::Keep => title,
        }
    }

    /// Transforms one title.
    pub fn apply(self, title: String) -> (shown: String)
        ensures
            shown@ == self.applied(title@),
    {
        match self {
            TitleTransformer::Terminal => "Terminal".to_owned(),
            TitleTransformer::Editor => {
                proof {
                    reveal_strlit("Visual Studio Code");
                }
                replace(title.as_str(), "Visual Studio Code", "VSCode")
            },
            TitleTransformer::Browser => {
                proof {
                    reveal_strlit("Mozilla Firefox");
                }
                replace(title.as_str(), "Mozilla Firefox", "Firefox")
            },
            TitleTransformer::Desktop => "Desktop".to_owned(),
            TitleTransformer::Keep => title,
        }
    }
}

/// The class shown for a window of class `class`.
pub open spec fn shown_class(class: Seq<char>) -> Seq<char> {
    if class == "code-url-handler"@ {
        "vscode"@
    } else if class == "dev.zed.Zed"@ {
        "zed"@
    } else if class == ""@ {
        "hyprland"@
    } else {
        class
    }
}

/// The transformer for the titles of windows of class `class`.
pub fn get_title_transformer(class: &String) -> (transformer: TitleTransformer)
    ensures
        transformer == TitleTransformer::of_class(class@),
{
    let class = class.as_str();
    if equal(class, "kitty") {
        TitleTransformer::Terminal
    } else if equal(class, "code-url-handler") {
        TitleTransformer::Editor
    } else if equal(class, "firefox") {
        TitleTransformer::Browser
    } else if equal(class, "") {
        TitleTransformer::Desktop
    } else {
        TitleTransformer::Keep
    }
}

/// The class to show for a window of class `class`.
pub fn override_class(class: String) -> (shown: String)
    ensures
        shown@ == shown_class(class@),
{
    if equal(class.as_str(), "code-url-handler") {
        "vscode".to_owned()
    } else if equal(class.as_str(), "dev.zed.Zed") {
        "zed".to_owned()
    } else if equal(class.as_str(), "") {
        "hyprland".to_owned()
    } else {
        class
    }
}

/// The title to show for a window of class `class` and title `title`.
pub fn override_title(title: String, class: &String) -> (shown: String)
    ensures
        shown@ == TitleTransformer::of_class(class@).applied(title@),
{
    get_title_transformer(class).apply(title)
}

/// The style rule that gives a segment a width of `pixels`.
pub open spec fn min_width(pixels: nat) -> Seq<char> {
    "min-width: "@ + decimal(pixels) + "px;"@
}

fn min_width_rule(pixels: u64) -> (rule: String)
    ensures
        rule@ == min_width(pixels as nat),
{
    "min-width: ".to_owned().concat(to_decimal(pixels).as_str()).concat("px;")
}

/// The style of the segment before the active workspace, which is the
/// workspace at position `id`, counted from zero: as wide as the dots and
/// spaces before it, and invisible when there are none.
pub fn class_before(id: u32) -> (rule: String)
    ensures
        rule@ == if id == 0 {
            "background-color: transparent;"@
        } else {
            min_width((id * 6 + (id - 1) * 6) as nat)
        },
{
    if id == 0 {
        "background-color: transparent;".to_owned()
    } else {
        let id = id as u64;
        min_width_rule(id * W_DOT + (id - 1) * W_SPACE)
    }
}

/// The style of the segment on the active workspace: one dot wide, without a
/// margin towards an end of the slider that it touches.
pub fn class_current(id: u32) -> (rule: String)
    ensures
        rule@ == "min-width: 6px; "@ + (if id == 0 {
            "margin-left: 0"@
        } else if id == 9 {
            "margin-right: 0"@
        } else {
            ""@
        }) + ";"@,
{
    let margin = if id == 0 {
        "margin-left: 0"
    } else if id == 9 {
        "margin-right: 0"
    } else {
        ""
    };
    "min-width: 6px; ".to_owned().concat(margin).concat(";")
}

/// The style of the segment after the active workspace: as wide as the dots
/// and spaces after it, and invisible when there are none. The slider has ten
/// positions, zero to nine.
pub fn class_after(id: u32) -> (rule: String)
    requires
        id <= 9,
    ensures
        rule@ == if id == 9 {
            "background-color: transparent;"@
        } else {
            min_width(((9 - id) * 6 + (8 - id) * 6) as nat)
        },
{
    if id == 9 {
        "background-color: transparent;".to_owned()
    } else {
        let id = id as u64;
        min_width_rule((9 - id) * W_DOT + (8 - id) * W_SPACE)
    }
}

/// Whether bit `n` of `mask` is set.
pub open spec fn bit(mask: u32, n: int) -> bool {
    0 <= n < 32 && mask & (1u32 << (n as u32)) != 0
}

/// The class names of the mark of the workspace at position `wksp`.
pub open spec fn mark_classes(bitmask: u32, wksp: u32) -> Seq<Seq<char>> {
    seq!["WorkspaceIndicator"@] + (if wksp == 9 {
        seq!["Last"@]
    } else {
        Seq::<Seq<char>>::empty()
    }) + (if bit(bitmask, wksp as int) {
        seq!["Windows"@]
    } else {
        Seq::<Seq<char>>::empty()
    })
}

/// The class names of the mark of the workspace at position `wksp`: every
/// mark is an indicator, the tenth is the last, and the mark of a workspace
/// that holds windows says so.
pub fn class_of(bitmask: u32, wksp: u32) -> (names: Vec<&'static str>)
    ensures
        views(names@) == mark_classes(bitmask, wksp),
{
    let mut names: Vec<&'static str> = Vec::new();
    names.push("WorkspaceIndicator");
    if wksp == 9 {
        names.push("Last");
    }
    if wksp < 32 && bitmask & (1u32 << wksp) != 0 {
        names.push("Windows");
    }
    assert(views(names@) =~= mark_classes(bitmask, wksp));
    names
}

/// The bit that stands for the workspace numbered `id`: workspaces are
/// numbered from one, and every lower number stands on the first bit.
pub open spec fn bit_of(id: i32) -> int {
    if id <= 1 {
        0
    } else {
        id - 1
    }
}

/// Whether workspace `j` of the list holds a window and stands on bit `n`.
/// A workspace is given as its number and the number of its windows.
pub open spec fn occupies(workspaces: Seq<(i32, usize)>, j: int, n: int) -> bool {
    0 <= j < workspaces.len() && workspaces[j].1 > 0 && bit_of(workspaces[j].0) == n
}

proof fn lemma_set_bit(mask: u32, i: u32, n: u32)
    requires
        i < 32,
        n < 32,
    ensures
        ((mask | (1u32 << i)) & (1u32 << n) != 0) == (n == i || mask & (1u32 << n) != 0),
        0u32 & (1u32 << n) == 0,
{
    assert(((mask | (1u32 << i)) & (1u32 << n) != 0) == (n == i || mask & (1u32 << n) != 0))
        by (bit_vector)
        requires
            i < 32,
            n < 32,
    ;
    assert(0u32 & (1u32 << n) == 0) by (bit_vector);
}

/// The mask of the workspaces that hold windows. A workspace whose bit would
/// lie outside the mask has none.
pub fn window_mask(workspaces: &[(i32, usize)]) -> (mask: u32)
    ensures
        forall|n: int|
            0 <= n < 32 ==> (bit(mask, n) <==> exists|j: int| occupies(workspaces@, j, n)),
{
    let mut mask: u32 = 0;
    let mut j: usize = 0;
    proof {
        assert forall|n: int| 0 <= n < 32 implies !bit(mask, n) by {
            lemma_set_bit(0, 0, n as u32);
        }
    }
    while j < workspaces.len()
        invariant
            j <= workspaces.len(),
            forall|n: int|
                0 <= n < 32 ==> (bit(mask, n) <==> exists|k: int|
                    k < j && occupies(workspaces@, k, n)),
        decreases workspaces.len() - j,
    {
        let (id, clients) = workspaces[j];
        let index: i64 = if id <= 1 {
            0
        } else {
            id as i64 - 1
        };
        let ghost before = mask;
        if clients > 0 && index < 32 {
            let shift = index as u32;
            mask = mask | (1u32 << shift);
            proof {
                assert forall|n: int| 0 <= n < 32 implies (bit(mask, n) <==> exists|k: int|
                    k < j + 1 && occupies(workspaces@, k, n)) by {
                    lemma_set_bit(before, shift, n as u32);
                    if n == index {
                        assert(occupies(workspaces@, j as int, n));
                    }
                    if bit(before, n) {
                        let k = choose|k: int| k < j && occupies(workspaces@, k, n);
                        assert(k < j + 1 && occupies(workspaces@, k, n));
                    }
                    if exists|k: int| k < j + 1 && occupies(workspaces@, k, n) {
                        let k = choose|k: int| k < j + 1 && occupies(workspaces@, k, n);
                        if k < j {
                            assert(bit(before, n));
                        }
                    }
                }
            }
        } else {
            proof {
                assert forall|n: int| 0 <= n < 32 implies (bit(mask, n) <==> exists|k: int|
                    k < j + 1 && occupies(workspaces@, k, n)) by {
                    assert(!occupies(workspaces@, j as int, n));
                    if bit(mask, n) {
                        let k = choose|k: int| k < j && occupies(workspaces@, k, n);
                        assert(k < j + 1 && occupies(workspaces@, k, n));
                    }
                    if exists|k: int| k < j + 1 && occupies(workspaces@, k, n) {
                        let k = choose|k: int| k < j + 1 && occupies(workspaces@, k, n);
                        assert(k < j);
                    }
                }
            }
        }
        j += 1;
    }
    proof {
        assert forall|n: int| 0 <= n < 32 implies (bit(mask, n) <==> exists|k: int|
            occupies(workspaces@, k, n)) by {
            if exists|k: int| occupies(workspaces@, k, n) {
                let k = choose|k: int| occupies(workspaces@, k, n);
                assert(k < j && occupies(workspaces@, k, n));
            }
            if bit(mask, n) {
                let k = choose|k: int| k < j && occupies(workspaces@, k, n);
                assert(occupies(workspaces@, k, n));
            }
        }
    }
    mask
}

} // verus!
