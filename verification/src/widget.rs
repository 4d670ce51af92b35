//! The words of the widget description language: the modifiers that may stand
//! before a widget and the kinds of binding that a field may ask for.

use crate::text::{equal, views};
use vstd::prelude::*;
use vstd::string::*;

verus! {

/// How the value of a widget expression is handed on.
#[derive(Clone, Copy, Debug, PartialEq, Eq, Structural)]
pub enum Modifier {
    /// As it is.
    Unset,
    /// By reference.
    Ref,
    /// As an optional reference.
    Optional,
    /// Converted to the toolkit's general widget type.
    Inherited,
}

/// What a `bind` field binds to.
#[derive(Clone, Copy, Debug, PartialEq, Eq, Structural)]
pub enum BindKind {
    /// A property of the widget.
    Normal,
    /// The style of the widget.
    Css,
    /// The class names of the widget.
    ClassName,
}

impl Modifier {
    /// The modifier that the word `ident` stands for; `Unset` for a word that
    /// is no modifier.
    pub open spec fn of_ident(ident: Seq<char>) -> Modifier {
        if ident == "bor"@ {
            Modifier::Ref
        } else if ident == "opt"@ {
            Modifier::Optional
        } else if ident == "inh"@ {
            Modifier::Inherited
        } else {
            Modifier::Unset
        }
    }

    /// Whether this is `Unset`.
    pub fn is_unset(&self) -> (b: bool)
        ensures
            b == (*self == Modifier::Unset),
    {
        match self {
            Modifier::Unset => true,
            _ => false,
        }
    }

    /// Reads one word as a modifier.
    pub fn from_ident(ident: &str) -> (modifier: Modifier)
        ensures
            modifier == Modifier::of_ident(ident@),
    {
        if equal(ident, "bor") {
            Modifier::Ref
        } else if equal(ident, "opt") {
            Modifier::Optional
        } else if equal(ident, "inh") {
            Modifier::Inherited
        } else {
            Modifier::Unset
        }
    }
}

impl BindKind {
    /// The kind of binding that a field named `ident` asks for.
    pub open spec fn of_ident(ident: Seq<char>) -> BindKind {
        if ident == "css"@ {
            BindKind::Css
        } else if ident == "class_name"@ {
            BindKind::ClassName
        } else {
            BindKind::Normal
        }
    }

    /// The kind of binding that a field named `ident` asks for.
    pub fn from_ident(ident: &str) -> (kind: BindKind)
        ensures
            kind == BindKind::of_ident(ident@),
    {
        if equal(ident, "css") {
            BindKind::Css
        } else if equal(ident, "class_name") {
            BindKind::ClassName
        } else {
            BindKind::Normal
        }
    }
}

/// How many of the words at the front of `idents` are modifiers.
pub open spec fn leading_modifiers(idents: Seq<Seq<char>>) -> nat
    decreases idents.len(),
{
    if idents.len() > 0 && Modifier::of_ident(idents[0]) != Modifier::Unset {
        1 + leading_modifiers(idents.drop_first())
    } else {
        0
    }
}

/// The modifiers of a widget as they are read from the words before its name:
/// one for each leading modifier word, in order, and a closing `Unset`.
pub open spec fn modifiers_of(idents: Seq<Seq<char>>) -> Seq<Modifier> {
    Seq::new(
        leading_modifiers(idents) + 1,
        |i: int|
            if i < leading_modifiers(idents) {
                Modifier::of_ident(idents[i])
            } else {
                Modifier::Unset
            },
    )
}

proof fn lemma_leading_modifiers(idents: Seq<Seq<char>>, k: int)
    requires
        0 <= k <= idents.len(),
        forall|j: int| 0 <= j < k ==> Modifier::of_ident(#[trigger] idents[j]) != Modifier::Unset,
        k < idents.len() ==> Modifier::of_ident(idents[k]) == Modifier::Unset,
    ensures
        leading_modifiers(idents) == k,
    decreases k,
{
    if k > 0 {
        let rest = idents.drop_first();
        assert(Modifier::of_ident(idents[0]) != Modifier::Unset);
        assert forall|j: int| 0 <= j < k - 1 implies Modifier::of_ident(#[trigger] rest[j])
            != Modifier::Unset by {
            assert(rest[j] == idents[j + 1]);
        }
        if k - 1 < rest.len() {
            assert(rest[k - 1] == idents[k]);
        }
        lemma_leading_modifiers(rest, k - 1);
    }
}

/// The modifiers in front of one widget. The list is never empty.
pub struct Modifiers {
    list: Vec<Modifier>,
}

impl View for Modifiers {
    type V = Seq<Modifier>;

    closed spec fn view(&self) -> Seq<Modifier> {
        self.list@
    }
}

impl Modifiers {
    #[verifier::type_invariant]
    spec fn not_empty(&self) -> bool {
        self.list@.len() > 0
    }

    /// Reads the modifiers from the words that stand before the name of a
    /// widget. Reading stops at the first word that is no modifier, which is
    /// not consumed, or where the words end. The second result is the number of
    /// words consumed.
    pub fn read(idents: &[&str]) -> (r: (Modifiers, usize))
        ensures
            r.0@ == modifiers_of(views(idents@)),
            r.1 == leading_modifiers(views(idents@)),
    {
        let mut list: Vec<Modifier> = Vec::new();
        let mut i: usize = 0;
        loop
            invariant_except_break
                list@.len() == i,
            invariant
                i <= idents.len(),
                forall|j: int|
                    0 <= j < i ==> list@[j] == Modifier::of_ident(#[trigger] views(idents@)[j])
                        && list@[j] != Modifier::Unset,
            ensures
                i <= idents.len(),
                list@.len() == i + 1,
                forall|j: int|
                    0 <= j < i ==> list@[j] == Modifier::of_ident(#[trigger] views(idents@)[j])
                        && list@[j] != Modifier::Unset,
                list@[i as int] == Modifier::Unset,
                i < idents.len() ==> Modifier::of_ident(views(idents@)[i as int])
                    == Modifier::Unset,
            decreases idents.len() - i,
        {
            if i >= idents.len() {
                list.push(Modifier::Unset);
                break ;
            }
            let modifier = Modifier::from_ident(idents[i]);
            list.push(modifier);
            if modifier.is_unset() {
                break ;
            }
            i += 1;
        }
        proof {
            lemma_leading_modifiers(views(idents@), i as int);
            assert(list@ =~= modifiers_of(views(idents@)));
        }
        (Modifiers { list }, i)
    }

    /// The modifiers, outermost first.
    pub fn as_slice(&self) -> (list: &[Modifier])
        ensures
            list@ == self@,
    {
        self.list.as_slice()
    }

    /// Gives the widget the modifier `m` unless it already has one of its own:
    /// the first modifier is replaced when it is `Unset`, and nothing changes
    /// otherwise.
    pub fn add_mod(self, m: Modifier) -> (modifiers: Self)
        ensures
            modifiers@ == if self@[0] == Modifier::Unset {
                self@.update(0, m)
            } else {
                self@
            },
    {
        proof {
            use_type_invariant(&self);
        }
        let mut list = self.list;
        if list[0].is_unset() {
            list[0] = m;
        }
        Modifiers { list }
    }
}

/// What the first word of a field announces.
#[derive(Clone, Copy, Debug, PartialEq, Eq, Structural)]
pub enum FieldKind {
    /// `class_name`: a list of class names follows.
    ClassName,
    /// `name`: the name of the widget follows.
    Name,
    /// `child`: one widget follows.
    Child,
    /// `children`: a list of widgets follows.
    Children,
    /// `bind`: the name of a property and a binding follow.
    Bind,
    /// Any other word: it names a property, and its value follows.
    Plain,
}

impl FieldKind {
    /// What a field that begins with the word `ident` holds.
    pub open spec fn of_ident(ident: Seq<char>) -> FieldKind {
        if ident == "class_name"@ {
            FieldKind::ClassName
        } else if ident == "name"@ {
            FieldKind::Name
        } else if ident == "child"@ {
            FieldKind::Child
        } else if ident == "children"@ {
            FieldKind::Children
        } else if ident == "bind"@ {
            FieldKind::Bind
        } else {
            FieldKind::Plain
        }
    }

    /// What a field that begins with the word `ident` holds.
    pub fn from_ident(ident: &str) -> (kind: FieldKind)
        ensures
            kind == FieldKind::of_ident(ident@),
    {
        if equal(ident, "class_name") {
            FieldKind::ClassName
        } else if equal(ident, "name") {
            FieldKind::Name
        } else if equal(ident, "child") {
            FieldKind::Child
        } else if equal(ident, "children") {
            FieldKind::Children
        } else if equal(ident, "bind") {
            FieldKind::Bind
        } else {
            FieldKind::Plain
        }
    }
}

/// The property that a field named `ident` sets: the field `name` sets the
/// property `widget_name`, every other field the property of its own name.
pub open spec fn property_of(ident: Seq<char>) -> Seq<char> {
    if ident == "name"@ {
        "widget_name"@
    } else {
        ident
    }
}

/// The property that a field named `ident` sets.
pub fn property(ident: &str) -> (name: String)
    ensures
        name@ == property_of(ident@),
{
    if equal(ident, "name") {
        "widget_name".to_owned()
    } else {
        ident.to_owned()
    }
}

/// The method that sets the property `property`.
pub fn setter(property: &str) -> (name: String)
    ensures
        name@ == "set_"@ + property@,
{
    "set_".to_owned().concat(property)
}

/// The expression `body` as one modifier hands it on.
pub open spec fn modified(modifier: Modifier, body: Seq<char>) -> Seq<char> {
    match modifier {
        Modifier::Ref => "&"@ + body,
        Modifier::Optional => "Some(&"@ + body + ")"@,
        Modifier::Inherited => "::gtk::Widget::from("@ + body + ")"@,
        Modifier::Unset => body,
    }
}

/// The expression `body` as a list of modifiers hands it on: the last
/// modifier is applied first, the first one last, so that the first stands
/// outermost.
pub open spec fn wrapped(modifiers: Seq<Modifier>, body: Seq<char>) -> Seq<char>
    decreases modifiers.len(),
{
    if modifiers.len() == 0 {
        body
    } else {
        wrapped(modifiers.drop_last(), modified(modifiers.last(), body))
    }
}

/// Applies one modifier to an expression.
pub fn modify(modifier: Modifier, body: String) -> (expression: String)
    ensures
        expression@ == modified(modifier, body@),
{
    match modifier {
        Modifier::Ref => "&".to_owned().concat(body.as_str()),
        Modifier::Optional => "Some(&".to_owned().concat(body.as_str()).concat(")"),
        Modifier::Inherited => "::gtk::Widget::from(".to_owned().concat(body.as_str()).concat(")"),
        Modifier::Unset => body,
    }
}

impl Modifiers {
    /// Applies the modifiers to the expression that builds the widget.
    pub fn wrap(&self, body: String) -> (expression: String)
        ensures
            expression@ == wrapped(self@, body@),
    {
        let mut expression = body;
        let mut left: usize = self.list.len();
        proof {
            assert(self@.take(left as int) =~= self@);
        }
        while left > 0
            invariant
                left <= self.list.len(),
                wrapped(self@.take(left as int), expression@) == wrapped(self@, body@),
            decreases left,
        {
            left -= 1;
            proof {
                let front = self@.take(left + 1);
                assert(front.drop_last() =~= self@.take(left as int));
                assert(front.last() == self@[left as int]);
            }
            expression = modify(self.list[left], expression);
        }
        proof {
            assert(self@.take(0) =~= Seq::<Modifier>::empty());
        }
        expression
    }
}

} // verus!
