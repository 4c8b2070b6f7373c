use canvas_triangle::commands::draw_commands;
use canvas_triangle::commands::fill_color;
use canvas_triangle::commands::Command;
use canvas_triangle::commands::PathCmd;
use canvas_triangle::context::Context;
use canvas_triangle::context::Paint;
use canvas_triangle::renderer::canvas_id;
use canvas_triangle::renderer::context_kind;
use canvas_triangle::renderer::diagnostic;
use canvas_triangle::renderer::draw;
use canvas_triangle::renderer::log_label;
use canvas_triangle::renderer::invoke;
use canvas_triangle::renderer::render_if_ready;
use canvas_triangle::setup::run_steps;
use canvas_triangle::setup::SetupState;
use canvas_triangle::setup::Stage;

fn triangle_path_cmds() -> Vec<PathCmd> {
    vec![
        PathCmd::MoveTo(300, 0),
        PathCmd::LineTo(0, 600),
        PathCmd::LineTo(600, 600),
        PathCmd::LineTo(300, 0),
        PathCmd::Close,
    ]
}

#[test]
fn happy_path_draws_triangle_and_reports_fill_color() {
    let state = run_steps(&vec![true, true, true, true, true, true]);
    assert_eq!(state, SetupState::Ready);

    let mut ctx = Context::new();
    let result = render_if_ready(state, &mut ctx);
    let (label, color) = result.expect("a ready chain must draw");
    assert_eq!(label, "Color : %s ");
    assert_eq!(color, "rgb(150,50,0)");

    assert_eq!(ctx.fill_style(), "rgb(150,50,0)");
    assert_eq!(ctx.path(), &triangle_path_cmds());
    assert_eq!(
        ctx.paints(),
        &vec![
            Paint::Stroked(triangle_path_cmds()),
            Paint::Filled("rgb(150,50,0)".to_string(), triangle_path_cmds()),
        ]
    );
}

#[test]
fn missing_element_aborts_before_any_draw() {
    let state = run_steps(&vec![true, true, false]);
    assert_eq!(state, SetupState::Aborted(Stage::Element));

    let mut ctx = Context::new();
    let result = render_if_ready(state, &mut ctx);
    let failure = result.expect_err("a missing element must abort");
    assert_eq!(failure.stage, Stage::Element);

    assert!(ctx.paints().is_empty());
    assert!(ctx.path().is_empty());
    assert_eq!(ctx.fill_style(), "#000000");
}

#[test]
fn wrong_element_type_aborts_at_the_narrowing_step() {
    let state = run_steps(&vec![true, true, true, false]);
    assert_eq!(state, SetupState::Aborted(Stage::Canvas));

    let mut ctx = Context::new();
    let result = render_if_ready(state, &mut ctx);
    let failure = result.expect_err("a non-canvas element must abort");
    assert_eq!(failure.stage, Stage::Canvas);
    assert!(ctx.paints().is_empty());
}

#[test]
fn drawing_twice_on_fresh_contexts_is_identical() {
    let mut first = Context::new();
    let mut second = Context::new();
    draw(&mut first);
    draw(&mut second);
    assert_eq!(first.fill_style(), second.fill_style());
    assert_eq!(first.path(), second.path());
    assert_eq!(first.paints(), second.paints());
}

#[test]
fn draw_output_ignores_the_prior_fill_style() {
    let mut plain = Context::new();
    let mut tinted = Context::new();
    tinted.apply(&Command::SetFillStyle("#0000FF".to_string()));
    draw(&mut plain);
    draw(&mut tinted);
    assert_eq!(plain.fill_style(), tinted.fill_style());
    assert_eq!(plain.paints(), tinted.paints());
}

#[test]
fn diagnostic_reports_the_set_value_unchanged() {
    let mut ctx = Context::new();
    ctx.apply(&Command::SetFillStyle("purple".to_string()));
    let (label, color) = diagnostic(&ctx);
    assert_eq!(label, "Color : %s ");
    assert_eq!(color, "purple");
}

#[test]
fn closing_segment_returns_to_the_start_point() {
    let path = triangle_path_cmds();
    assert_eq!(path[0], PathCmd::MoveTo(300, 0));
    assert_eq!(path[3], PathCmd::LineTo(300, 0));
    assert_eq!(path[4], PathCmd::Close);
}

#[test]
fn triangle_path_names_exactly_three_distinct_vertices() {
    let mut points: Vec<(i32, i32)> = Vec::new();
    for cmd in triangle_path_cmds() {
        let point = match cmd {
            PathCmd::MoveTo(x, y) => Some((x, y)),
            PathCmd::LineTo(x, y) => Some((x, y)),
            PathCmd::Close => None,
        };
        if let Some(p) = point {
            if !points.contains(&p) {
                points.push(p);
            }
        }
    }
    points.sort();
    assert_eq!(points, vec![(0, 600), (300, 0), (600, 600)]);
}

#[test]
fn draw_commands_is_the_exact_fixed_sequence() {
    let expected = vec![
        Command::SetFillStyle("rgb(150,50,0)".to_string()),
        Command::BeginPath,
        Command::Path(PathCmd::MoveTo(300, 0)),
        Command::Path(PathCmd::LineTo(0, 600)),
        Command::Path(PathCmd::LineTo(600, 600)),
        Command::Path(PathCmd::LineTo(300, 0)),
        Command::Path(PathCmd::Close),
        Command::Stroke,
        Command::Fill,
    ];
    assert_eq!(draw_commands(), expected);
}

#[test]
fn fixed_strings_match_the_host_conventions() {
    assert_eq!(canvas_id(), "canvas");
    assert_eq!(context_kind(), "2d");
    assert_eq!(fill_color(), "rgb(150,50,0)");
    assert_eq!(log_label(), "Color : %s ");
}

#[test]
fn invoke_draws_when_every_acquisition_holds() {
    let mut ctx = Context::new();
    let result = invoke(&vec![true, true, true, true, true, true], &mut ctx);
    let (label, color) = result.expect("every acquisition holds");
    assert_eq!(label, "Color : %s ");
    assert_eq!(color, "rgb(150,50,0)");
    assert_eq!(ctx.paints().len(), 2);
}

#[test]
fn invoke_reports_only_the_first_failure() {
    let mut ctx = Context::new();
    let result = invoke(&vec![true, true, false, false, true, true], &mut ctx);
    let failure = result.expect_err("the element lookup failed");
    assert_eq!(failure.stage, Stage::Element);
    assert!(ctx.paints().is_empty());
    assert_eq!(ctx.fill_style(), "#000000");
}

#[test]
fn begin_path_discards_the_accumulated_path() {
    let mut ctx = Context::new();
    ctx.apply(&Command::Path(PathCmd::MoveTo(1, 2)));
    ctx.apply(&Command::Path(PathCmd::LineTo(3, 4)));
    assert_eq!(ctx.path().len(), 2);
    ctx.apply(&Command::BeginPath);
    assert!(ctx.path().is_empty());
}

#[test]
fn stroke_and_fill_record_the_current_path_and_style() {
    let mut ctx = Context::new();
    ctx.apply(&Command::SetFillStyle("red".to_string()));
    ctx.apply(&Command::BeginPath);
    ctx.apply(&Command::Path(PathCmd::MoveTo(1, 1)));
    ctx.apply(&Command::Stroke);
    ctx.apply(&Command::Fill);
    assert_eq!(
        ctx.paints(),
        &vec![
            Paint::Stroked(vec![PathCmd::MoveTo(1, 1)]),
            Paint::Filled("red".to_string(), vec![PathCmd::MoveTo(1, 1)]),
        ]
    );
}
