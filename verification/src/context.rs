//! A model of a 2D drawing context: the fill style, the path accumulated
//! since the last begin-path command, and the record of paint operations
//! issued so far. It interprets [`Command`] values exactly as a host canvas
//! context would, so the renderer's behavior can be stated and checked
//! against it, and a test can substitute it for the host context.

use vstd::prelude::*;

use crate::commands::Command;
use crate::commands::CommandView;
use crate::commands::PathCmd;

verus! {

/// One paint operation, as recorded by the model context.
#[derive(Debug, PartialEq, Eq)]
pub enum Paint {
    /// The outline of the given path was painted.
    Stroked(Vec<PathCmd>),
    /// The interior of the given path was painted with the given fill style.
    Filled(String, Vec<PathCmd>),
}

/// Mathematical image of a [`Paint`].
pub enum PaintView {
    Stroked(Seq<PathCmd>),
    Filled(Seq<char>, Seq<PathCmd>),
}

impl View for Paint {
    type V = PaintView;

    open spec fn view(&self) -> PaintView {
        match self {
            Paint::Stroked(p) => PaintView::Stroked(p@),
            Paint::Filled(s, p) => PaintView::Filled(s@, p@),
        }
    }
}

/// Mathematical image of a [`Context`].
#[verifier::ext_equal]
pub struct ContextView {
    /// The current fill style, a CSS color string.
    pub fill_style: Seq<char>,
    /// The path accumulated since the last begin-path command.
    pub path: Seq<PathCmd>,
    /// Every paint operation issued so far, oldest first.
    pub paints: Seq<PaintView>,
}

/// The fill style a context starts with: opaque black, the canvas default.
pub open spec fn default_fill_style_spec() -> Seq<char> {
    "#000000"@
}

/// The state of a context no command has touched yet.
pub open spec fn fresh_context() -> ContextView {
    ContextView {
        fill_style: default_fill_style_spec(),
        path: Seq::empty(),
        paints: Seq::empty(),
    }
}

/// The effect of one command on a context.
pub open spec fn apply_spec(c: ContextView, cmd: CommandView) -> ContextView {
    match cmd {
        CommandView::SetFillStyle(s) => ContextView { fill_style: s, ..c },
        CommandView::BeginPath => ContextView { path: Seq::empty(), ..c },
        CommandView::Path(p) => ContextView { path: c.path.push(p), ..c },
        CommandView::Stroke => ContextView { paints: c.paints.push(PaintView::Stroked(c.path)), ..c },
        CommandView::Fill => ContextView {
            paints: c.paints.push(PaintView::Filled(c.fill_style, c.path)),
            ..c
        },
    }
}

/// The effect of a command sequence, applied left to right.
pub open spec fn apply_all_spec(c: ContextView, cmds: Seq<CommandView>) -> ContextView
    decreases cmds.len(),
{
    if cmds.len() == 0 {
        c
    } else {
        apply_spec(apply_all_spec(c, cmds.drop_last()), cmds.last())
    }
}

/// A model 2D drawing context.
pub struct Context {
    style: String,
    path: Vec<PathCmd>,
    paints: Vec<Paint>,
}

impl View for Context {
    type V = ContextView;

    closed spec fn view(&self) -> ContextView {
        ContextView {
            fill_style: self.style@,
            path: self.path@,
            paints: self.paints@.map_values(|p: Paint| p@),
        }
    }
}

impl Context {
    /// A fresh context: default fill style, empty path, nothing painted.
    pub fn new() -> (r: Context)
        ensures
            r@ == fresh_context(),
    {
        let c = Context { style: "#000000".to_owned(), path: Vec::new(), paints: Vec::new() };
        proof {
            assert(c@.paints =~= fresh_context().paints);
            assert(c@ =~= fresh_context());
        }
        c
    }

    /// Executes one command against the model, exactly as [`apply_spec`]
    /// says.
    pub fn apply(&mut self, cmd: &Command)
        ensures
            final(self)@ == apply_spec(old(self)@, cmd@),
    {
        match cmd {
            Command::SetFillStyle(s) => {
                self.style = s.clone();
            },
            Command::BeginPath => {
                self.path = Vec::new();
            },
            Command::Path(p) => {
                self.path.push(*p);
            },
            Command::Stroke => {
                let snapshot = self.path.clone();
                proof {
                    assert(snapshot@ =~= self.path@);
                }
                self.paints.push(Paint::Stroked(snapshot));
            },
            Command::Fill => {
                let snapshot = self.path.clone();
                proof {
                    assert(snapshot@ =~= self.path@);
                }
                self.paints.push(Paint::Filled(self.style.clone(), snapshot));
            },
        }
        proof {
            assert(self@ =~= apply_spec(old(self)@, cmd@));
        }
    }

    /// Executes a command sequence against the model, left to right.
    pub fn apply_all(&mut self, cmds: &Vec<Command>)
        ensures
            final(self)@ == apply_all_spec(old(self)@, cmds@.map_values(|c: Command| c@)),
    {
        let ghost views = cmds@.map_values(|c: Command| c@);
        let n = cmds.len();
        let mut i: usize = 0;
        while i < n
            invariant
                n == cmds.len(),
                views == cmds@.map_values(|c: Command| c@),
                i <= n,
                self@ == apply_all_spec(old(self)@, views.take(i as int)),
            decreases n - i,
        {
            self.apply(&cmds[i]);
            proof {
                assert(views.take(i + 1 as int).drop_last() =~= views.take(i as int));
                assert(views.take(i + 1 as int).last() == views[i as int]);
            }
            i = i + 1;
        }
        proof {
            assert(views.take(n as int) =~= views);
        }
    }

    /// The current fill style, as the diagnostic reads it back.
    pub fn fill_style(&self) -> (r: String)
        ensures
            r@ == self@.fill_style,
    {
        self.style.clone()
    }

    /// The path accumulated since the last begin-path command.
    pub fn path(&self) -> (r: &Vec<PathCmd>)
        ensures
            r@ == self@.path,
    {
        &self.path
    }

    /// Every paint operation issued so far, oldest first.
    pub fn paints(&self) -> (r: &Vec<Paint>)
        ensures
            r@.map_values(|p: Paint| p@) == self@.paints,
    {
        &self.paints
    }
}

} // verus!
