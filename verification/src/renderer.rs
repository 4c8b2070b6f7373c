//! The renderer: once the acquisition chain is ready, it runs the fixed
//! draw sequence against a drawing context and reports the active fill
//! style; an aborted chain leaves the context untouched.

use vstd::prelude::*;

use crate::commands::CommandView;
use crate::commands::draw_commands;
use crate::commands::draw_sequence;
use crate::commands::fill_color_spec;
use crate::commands::triangle_path;
use crate::context::Context;
use crate::context::ContextView;
use crate::context::PaintView;
use crate::context::apply_all_spec;
use crate::context::apply_spec;
use crate::setup::EnvironmentPreconditionFailure;
use crate::setup::SetupState;
use crate::setup::Stage;
use crate::setup::lemma_first_failure_aborts;
use crate::setup::lemma_run_form;
use crate::setup::run_spec;
use crate::setup::run_steps;
use crate::setup::stage_at;

verus! {

/// Identifier of the canvas element that the renderer looks up.
pub open spec fn canvas_id_spec() -> Seq<char> {
    "canvas"@
}

/// The element identifier, as the host lookup call needs it.
pub fn canvas_id() -> (r: &'static str)
    ensures
        r@ == canvas_id_spec(),
{
    "canvas"
}

/// The label the diagnostic line starts with.
pub open spec fn log_label_spec() -> Seq<char> {
    "Color : %s "@
}

/// The label the diagnostic line starts with, as the logging call needs it.
pub fn log_label() -> (r: &'static str)
    ensures
        r@ == log_label_spec(),
{
    "Color : %s "
}

/// The context kind the renderer requests from the canvas element.
pub open spec fn context_kind_spec() -> Seq<char> {
    "2d"@
}

/// The context kind, as the context request needs it.
pub fn context_kind() -> (r: &'static str)
    ensures
        r@ == context_kind_spec(),
{
    "2d"
}

/// The two paint operations one rendering run issues: a stroke of the
/// triangle's outline, then a fill of its interior with the fill color.
pub open spec fn triangle_paints() -> Seq<PaintView> {
    seq![
        PaintView::Stroked(triangle_path()),
        PaintView::Filled(fill_color_spec(), triangle_path()),
    ]
}

/// The context state one rendering run leaves behind: the fill color set,
/// the triangle path current, and the two paint operations appended to
/// whatever was painted before.
pub open spec fn draw_result(c: ContextView) -> ContextView {
    ContextView {
        fill_style: fill_color_spec(),
        path: triangle_path(),
        paints: c.paints + triangle_paints(),
    }
}

/// Running the draw sequence on any context leaves exactly the state that
/// [`draw_result`] names.
pub proof fn lemma_draw_sequence_result(c: ContextView)
    ensures
        apply_all_spec(c, draw_sequence()) == draw_result(c),
{
    reveal_with_fuel(apply_all_spec, 10);
    let cmds = draw_sequence();
    assert(cmds.drop_last() =~= cmds.take(8));
    assert(cmds.take(8).drop_last() =~= cmds.take(7));
    assert(cmds.take(7).drop_last() =~= cmds.take(6));
    assert(cmds.take(6).drop_last() =~= cmds.take(5));
    assert(cmds.take(5).drop_last() =~= cmds.take(4));
    assert(cmds.take(4).drop_last() =~= cmds.take(3));
    assert(cmds.take(3).drop_last() =~= cmds.take(2));
    assert(cmds.take(2).drop_last() =~= cmds.take(1));
    assert(cmds.take(1).drop_last() =~= Seq::<CommandView>::empty());
    let c9 = apply_all_spec(c, cmds);
    assert(c9.path =~= triangle_path());
    assert(c9.paints =~= draw_result(c).paints);
    assert(c9 =~= draw_result(c));
}

/// The draw sequence carries no hidden state: whatever two contexts held
/// before, it sets the same fill style, constructs the same path, and
/// appends the same paint operations to each. Two runs on fresh contexts
/// therefore produce identical output.
pub proof fn lemma_draw_sequence_stateless(c1: ContextView, c2: ContextView)
    ensures
        apply_all_spec(c1, draw_sequence()).fill_style == apply_all_spec(
            c2,
            draw_sequence(),
        ).fill_style,
        apply_all_spec(c1, draw_sequence()).path == apply_all_spec(c2, draw_sequence()).path,
        apply_all_spec(c1, draw_sequence()).paints.skip(c1.paints.len() as int)
            == apply_all_spec(c2, draw_sequence()).paints.skip(c2.paints.len() as int),
{
    lemma_draw_sequence_result(c1);
    lemma_draw_sequence_result(c2);
    assert((c1.paints + triangle_paints()).skip(c1.paints.len() as int) =~= triangle_paints());
    assert((c2.paints + triangle_paints()).skip(c2.paints.len() as int) =~= triangle_paints());
}

/// Setting a fill style and reading it back returns the exact string that
/// was set: the diagnostic reports the set value unchanged.
pub proof fn lemma_fill_style_round_trip(c: ContextView, s: Seq<char>)
    ensures
        apply_spec(c, CommandView::SetFillStyle(s)).fill_style == s,
{
}

/// Runs the fixed draw sequence against the given context.
pub fn draw(ctx: &mut Context)
    ensures
        final(ctx)@ == apply_all_spec(old(ctx)@, draw_sequence()),
        final(ctx)@ == draw_result(old(ctx)@),
{
    let cmds = draw_commands();
    ctx.apply_all(&cmds);
    proof {
        lemma_draw_sequence_result(old(ctx)@);
    }
}

/// The diagnostic line: the fixed label, and the fill style the context
/// currently holds, read back unchanged.
pub fn diagnostic(ctx: &Context) -> (r: (String, String))
    ensures
        r.0@ == log_label_spec(),
        r.1@ == ctx@.fill_style,
{
    (log_label().to_owned(), ctx.fill_style())
}

/// Finishes one invocation of the renderer once the acquisition chain has
/// ended: a ready chain draws the triangle and yields the diagnostic line,
/// whose reported color is the fill color; an aborted chain leaves the
/// context untouched and yields the failure, named by the stage at which
/// the chain stopped.
pub fn render_if_ready(state: SetupState, ctx: &mut Context) -> (r: Result<
    (String, String),
    EnvironmentPreconditionFailure,
>)
    requires
        !(state is Pending),
    ensures
        state is Ready ==> final(ctx)@ == draw_result(old(ctx)@),
        state is Ready ==> (r matches Ok(d) && d.0@ == log_label_spec() && d.1@
            == fill_color_spec()),
        state matches SetupState::Aborted(s) ==> final(ctx)@ == old(ctx)@ && r == Err::<
            (String, String),
            EnvironmentPreconditionFailure,
        >(EnvironmentPreconditionFailure { stage: s }),
{
    match state {
        SetupState::Ready => {
            draw(ctx);
            Ok(diagnostic(ctx))
        },
        SetupState::Aborted(s) => Err(EnvironmentPreconditionFailure { stage: s }),
        SetupState::Pending(s) => {
            proof {
                assert(false);
            }
            Err(EnvironmentPreconditionFailure { stage: s })
        },
    }
}

/// One whole invocation of the renderer, given the outcomes of the six
/// acquisitions the environment is asked for, oldest first: when all of
/// them succeed it draws the triangle and yields the diagnostic line, and
/// otherwise it leaves the context untouched and yields the failure of the
/// first acquisition that did not hold.
pub fn invoke(events: &Vec<bool>, ctx: &mut Context) -> (r: Result<
    (String, String),
    EnvironmentPreconditionFailure,
>)
    requires
        events@.len() >= 6,
    ensures
        (forall|i: int| 0 <= i < 6 ==> events@[i]) ==> (final(ctx)@ == draw_result(old(ctx)@) && (
        r matches Ok(d) && d.0@ == log_label_spec() && d.1@ == fill_color_spec())),
        !(forall|i: int| 0 <= i < 6 ==> events@[i]) ==> (final(ctx)@ == old(ctx)@ && (
        r matches Err(e) && exists|i: int|
            0 <= i < 6 && !events@[i] && e.stage == stage_at(i) && (forall|j: int|
                0 <= j < i ==> events@[j]))),
{
    let state = run_steps(events);
    proof {
        lemma_run_form(events@);
        if !(forall|i: int| 0 <= i < 6 ==> events@[i]) {
            let i: int = if !events@[0] {
                0
            } else if !events@[1] {
                1
            } else if !events@[2] {
                2
            } else if !events@[3] {
                3
            } else if !events@[4] {
                4
            } else {
                5
            };
            lemma_first_failure_aborts(events@, i);
            assert(run_spec(events@) == SetupState::Aborted(stage_at(i)));
        } else {
            assert(!(state is Aborted));
            assert(!(state is Pending));
        }
    }
    render_if_ready(state, ctx)
}

/// What a failure report says of each stage, surfaced verbatim to the
/// hosting environment.
pub open spec fn failure_message_spec(s: Stage) -> Seq<char> {
    match s {
        Stage::Window => "no global window is available"@,
        Stage::Document => "the window has no document"@,
        Stage::Element => "no element has the expected id"@,
        Stage::Canvas => "the element is not a canvas"@,
        Stage::Context => "the canvas gave no drawing context"@,
        Stage::Context2d => "the drawing context is not 2d"@,
    }
}

/// A legible line for the failure report of an aborted chain.
pub fn failure_message(e: &EnvironmentPreconditionFailure) -> (r: &'static str)
    ensures
        r@ == failure_message_spec(e.stage),
{
    match e.stage {
        Stage::Window => "no global window is available",
        Stage::Document => "the window has no document",
        Stage::Element => "no element has the expected id",
        Stage::Canvas => "the element is not a canvas",
        Stage::Context => "the canvas gave no drawing context",
        Stage::Context2d => "the drawing context is not 2d",
    }
}

} // verus!
