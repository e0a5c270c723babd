//! The arguments by which a run is configured: the target directory, and for
//! each repository, keyed by its name, another source, another branch and
//! whether its checkout is replaced.

use crate::text::{chars_of, has_prefix_at, same_text, starts_with, text_from};
use vstd::prelude::*;

verus! {

/// What an argument sets.
#[derive(Clone, Copy, Debug, PartialEq, Eq, Structural)]
pub enum Field {
    /// The directory that the run works in.
    TargetDir,
    /// A local directory to take a repository from.
    Source,
    /// The branch taken from a repository.
    Branch,
    /// Whether the checkout of a repository is replaced.
    Clobber,
}

impl Field {
    /// The field is set by a switch, the others by a text.
    pub open spec fn is_switch(self) -> bool {
        self == Field::Clobber
    }
}

/// The value that an argument gives.
#[derive(Debug)]
pub enum ArgValue {
    Text(String),
    Switch(bool),
}

/// An `ArgValue` as a plain value.
pub enum ArgValueView {
    Text(Seq<char>),
    Switch(bool),
}

impl View for ArgValue {
    type V = ArgValueView;

    open spec fn view(&self) -> ArgValueView {
        match self {
            ArgValue::Text(text) => ArgValueView::Text(text@),
            ArgValue::Switch(on) => ArgValueView::Switch(*on),
        }
    }
}

/// One argument that a run understands: what it is called, the repository
/// name it is keyed by (none for the target directory), what it sets, and
/// the flag it is written with.
#[derive(Debug)]
pub struct ToolArg {
    pub name: String,
    pub key: String,
    pub field: Field,
    pub flag: String,
}

/// A `ToolArg` as plain text.
pub struct ToolArgView {
    pub name: Seq<char>,
    pub key: Seq<char>,
    pub field: Field,
    pub flag: Seq<char>,
}

impl View for ToolArg {
    type V = ToolArgView;

    open spec fn view(&self) -> ToolArgView {
        ToolArgView { name: self.name@, key: self.key@, field: self.field, flag: self.flag@ }
    }
}

impl DeepView for ToolArg {
    type V = ToolArgView;

    open spec fn deep_view(&self) -> ToolArgView {
        self@
    }
}

/// The value of an `Option` of text as plain text.
pub open spec fn text_view(text: Option<&str>) -> Option<Seq<char>> {
    match text {
        Some(text) => Some(text@),
        None => None,
    }
}

impl ToolArgView {
    /// The flag with its dashes.
    pub open spec fn dashed(self) -> Seq<char> {
        "--"@ + self.flag
    }

    /// The flag with its dashes and the `=` that a value follows in the
    /// same argument.
    pub open spec fn assigned(self) -> Seq<char> {
        "--"@ + self.flag + "="@
    }

    /// The flag that switches off.
    pub open spec fn negated(self) -> Seq<char> {
        "--no-"@ + self.flag
    }

    /// What the argument `arg` gives, with the argument `next` behind it,
    /// and how many arguments that takes. A text is given as `--flag=TEXT`
    /// in one argument, or as `--flag` with the text in the next; a switch
    /// is set by `--flag` and cleared by `--no-flag`. Anything else is not
    /// this argument.
    pub open spec fn recognize(self, arg: Seq<char>, next: Option<Seq<char>>) -> Option<
        (ArgValueView, usize),
    > {
        if self.field.is_switch() {
            if arg == self.dashed() {
                Some((ArgValueView::Switch(true), 1usize))
            } else if arg == self.negated() {
                Some((ArgValueView::Switch(false), 1usize))
            } else {
                None
            }
        } else if starts_with(arg, self.assigned()) {
            Some((ArgValueView::Text(arg.skip(self.assigned().len() as int)), 1usize))
        } else if arg == self.dashed() && next is Some {
            Some((ArgValueView::Text(next->0), 2usize))
        } else {
            None
        }
    }
}

/// What was recognized, as plain values.
pub open spec fn recognized_view(found: Option<(ArgValue, usize)>) -> Option<
    (ArgValueView, usize),
> {
    match found {
        Some((value, taken)) => Some((value@, taken)),
        None => None,
    }
}

impl ToolArg {
    /// Tells what the argument `arg` gives, with the argument `next` behind
    /// it, and how many arguments that takes; nothing where `arg` is not
    /// this argument.
    pub fn recognize(&self, arg: &str, next: Option<&str>) -> (found: Option<(ArgValue, usize)>)
        ensures
            recognized_view(found) == self@.recognize(arg@, text_view(next)),
    {
        let mut dashed = "--".to_owned();
        dashed.append(self.flag.as_str());
        if self.field == Field::Clobber {
            let mut negated = "--no-".to_owned();
            negated.append(self.flag.as_str());
            if same_text(arg, dashed.as_str()) {
                Some((ArgValue::Switch(true), 1))
            } else if same_text(arg, negated.as_str()) {
                Some((ArgValue::Switch(false), 1))
            } else {
                None
            }
        } else {
            let mut assigned = dashed.clone();
            assigned.append("=");
            let text = chars_of(arg);
            let head = chars_of(assigned.as_str());
            proof {
                assert(text@.skip(0) =~= text@);
            }
            if has_prefix_at(&text, 0, &head) {
                Some((ArgValue::Text(text_from(&text, head.len())), 1))
            } else if same_text(arg, dashed.as_str()) {
                match next {
                    Some(value) => Some((ArgValue::Text(value.to_owned()), 2)),
                    None => None,
                }
            } else {
                None
            }
        }
    }
}

} // verus!
