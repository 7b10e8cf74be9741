use tbll::grid::is_drawable;
use tbll::project::project;
use tbll::{Cols, ConfigError, RenderConfig, TablePadding, TableStyle};

fn generate_data() -> Vec<Vec<String>> {
    let data = vec![
        ["row1col1", "row1col2", "row1col3"],
        ["row2col1", "row2col2", "row2col3"],
        ["row3col1", "row3col2", "row3col3"],
    ];
    data.into_iter()
        .map(|row| {
            row.into_iter()
                .map(|item| item.to_string())
                .collect::<Vec<String>>()
        })
        .collect::<Vec<Vec<String>>>()
}

fn small_data() -> Vec<Vec<String>> {
    vec![
        vec!["a".to_string(), "b".to_string()],
        vec!["c".to_string(), "d".to_string()],
        vec!["e".to_string(), "f".to_string()],
    ]
}

fn config(style: TableStyle, left: usize, right: usize) -> RenderConfig {
    RenderConfig {
        style,
        padding: TablePadding { left, right },
    }
}

fn styled(style: TableStyle) -> String {
    tbll::get_output(&small_data(), config(style, 1, 1))
}

#[test]
fn lib_renders_defaults_correctly() {
    // GIVEN
    let data = generate_data();
    let config = RenderConfig {
        style: TableStyle::Sharp,
        padding: TablePadding { left: 1, right: 1 },
    };

    // WHEN
    let got = tbll::get_output(&data, config);

    // THEN
    let expected = "
┌──────────┬──────────┬──────────┐
│ row1col1 │ row1col2 │ row1col3 │
├──────────┼──────────┼──────────┤
│ row2col1 │ row2col2 │ row2col3 │
│ row3col1 │ row3col2 │ row3col3 │
└──────────┴──────────┴──────────┘
";
    assert_eq!(got, expected.trim());
}

#[test]
fn lib_renders_ascii_style_correctly() {
    // GIVEN
    let data = generate_data();
    let config = RenderConfig {
        style: TableStyle::Ascii,
        padding: TablePadding { left: 1, right: 1 },
    };

    // WHEN
    let got = tbll::get_output(&data, config);

    // THEN
    let expected = "
+----------+----------+----------+
| row1col1 | row1col2 | row1col3 |
+----------+----------+----------+
| row2col1 | row2col2 | row2col3 |
+----------+----------+----------+
| row3col1 | row3col2 | row3col3 |
+----------+----------+----------+
";
    assert_eq!(got, expected.trim());
}

#[test]
fn lib_renders_padding_correctly() {
    // GIVEN
    let data = generate_data();
    let config = RenderConfig {
        style: TableStyle::Sharp,
        padding: TablePadding { left: 1, right: 2 },
    };

    // WHEN
    let got = tbll::get_output(&data, config);

    // THEN
    let expected = "
┌───────────┬───────────┬───────────┐
│ row1col1  │ row1col2  │ row1col3  │
├───────────┼───────────┼───────────┤
│ row2col1  │ row2col2  │ row2col3  │
│ row3col1  │ row3col2  │ row3col3  │
└───────────┴───────────┴───────────┘
";
    assert_eq!(got, expected.trim());
}

#[test]
fn output_renders_defaults_correctly() {
    // GIVEN
    let data = generate_data();
    let config = RenderConfig {
        style: TableStyle::Sharp,
        padding: TablePadding { left: 1, right: 1 },
    };

    // WHEN
    let got = tbll::output::get_output(&data, config, None)
        .expect("a string should've been returned");

    // THEN
    let expected = "
┌──────────┬──────────┬──────────┐
│ row1col1 │ row1col2 │ row1col3 │
├──────────┼──────────┼──────────┤
│ row2col1 │ row2col2 │ row2col3 │
│ row3col1 │ row3col2 │ row3col3 │
└──────────┴──────────┴──────────┘
";
    assert_eq!(got, expected.trim());
}

#[test]
fn output_renders_ascii_style_correctly() {
    // GIVEN
    let data = generate_data();
    let config = RenderConfig {
        style: TableStyle::Ascii,
        padding: TablePadding { left: 1, right: 1 },
    };

    // WHEN
    let got = tbll::output::get_output(&data, config, None)
        .expect("a string should've been returned");

    // THEN
    let expected = "
+----------+----------+----------+
| row1col1 | row1col2 | row1col3 |
+----------+----------+----------+
| row2col1 | row2col2 | row2col3 |
+----------+----------+----------+
| row3col1 | row3col2 | row3col3 |
+----------+----------+----------+
";
    assert_eq!(got, expected.trim());
}

#[test]
fn output_renders_padding_correctly() {
    // GIVEN
    let data = generate_data();
    let config = RenderConfig {
        style: TableStyle::Sharp,
        padding: TablePadding { left: 1, right: 2 },
    };

    // WHEN
    let got = tbll::output::get_output(&data, config, None)
        .expect("a string should've been returned");

    // THEN
    let expected = "
┌───────────┬───────────┬───────────┐
│ row1col1  │ row1col2  │ row1col3  │
├───────────┼───────────┼───────────┤
│ row2col1  │ row2col2  │ row2col3  │
│ row3col1  │ row3col2  │ row3col3  │
└───────────┴───────────┴───────────┘
";
    assert_eq!(got, expected.trim());
}

#[test]
fn selects_indices_correctly() {
    // GIVEN
    let data = generate_data();
    let config = RenderConfig {
        style: TableStyle::Sharp,
        padding: TablePadding { left: 1, right: 1 },
    };

    // WHEN
    let got = tbll::output::get_output(&data, config, Some(Cols::select(vec![0, 2])))
        .expect("a string should've been returned");

    // THEN
    let expected = "
┌──────────┬──────────┐
│ row1col1 │ row1col3 │
├──────────┼──────────┤
│ row2col1 │ row2col3 │
│ row3col1 │ row3col3 │
└──────────┴──────────┘
";
    assert_eq!(got, expected.trim());
}

#[test]
fn skips_indices_correctly() {
    // GIVEN
    let data = generate_data();
    let config = RenderConfig {
        style: TableStyle::Sharp,
        padding: TablePadding { left: 1, right: 1 },
    };

    // WHEN
    let got = tbll::output::get_output(&data, config, Some(Cols::skip(vec![0, 2])))
        .expect("a string should've been returned");

    // THEN
    let expected = "
┌──────────┐
│ row1col2 │
├──────────┤
│ row2col2 │
│ row3col2 │
└──────────┘
";
    assert_eq!(got, expected.trim());
}

#[test]
fn returns_nothing_if_indices_are_incorrect() {
    // GIVEN
    let data = generate_data();
    let config = RenderConfig {
        style: TableStyle::Sharp,
        padding: TablePadding { left: 1, right: 1 },
    };

    // WHEN
    let got = tbll::output::get_output(&data, config, Some(Cols::select(vec![5, 8])));

    // THEN
    assert!(got.is_none());
}

#[test]
fn rendering_twice_gives_the_same_text() {
    let data = generate_data();
    let first = tbll::output::get_output(&data, config(TableStyle::Rounded, 2, 0), Some(Cols::skip(vec![1])));
    let second = tbll::output::get_output(&data, config(TableStyle::Rounded, 2, 0), Some(Cols::skip(vec![1])));
    assert!(first.is_some());
    assert_eq!(first, second);
}

#[test]
fn a_single_row_has_no_separator() {
    let data = vec![vec!["only".to_string(), "row".to_string()]];
    let got = tbll::get_output(&data, config(TableStyle::Sharp, 1, 1));
    assert_eq!(got, "┌──────┬─────┐\n│ only │ row │\n└──────┴─────┘");
}

#[test]
fn a_single_row_is_not_ruled_under_by_any_preset() {
    let data = vec![vec!["a".to_string(), "b".to_string()]];
    let draw = |style: TableStyle| tbll::output::get_output(&data, config(style, 1, 1), None);
    assert_eq!(draw(TableStyle::Markdown).as_deref(), Some("| a | b |"));
    assert_eq!(draw(TableStyle::Psql).as_deref(), Some(" a | b "));
    assert_eq!(draw(TableStyle::ReStructuredText).as_deref(), Some("=== ===\n a   b \n=== ==="));
    assert_eq!(draw(TableStyle::Rounded).as_deref(), Some("╭───┬───╮\n│ a │ b │\n╰───┴───╯"));
    assert_eq!(draw(TableStyle::Sharp).as_deref(), Some("┌───┬───┐\n│ a │ b │\n└───┴───┘"));
    assert_eq!(draw(TableStyle::Ascii).as_deref(), Some("+---+---+\n| a | b |\n+---+---+"));
    assert_eq!(draw(TableStyle::Modern).as_deref(), Some("┌───┬───┐\n│ a │ b │\n└───┴───┘"));
}

#[test]
fn two_rows_are_parted_by_the_rule() {
    let data = vec![vec!["a".to_string()], vec!["b".to_string()]];
    let got = tbll::output::get_output(&data, config(TableStyle::Sharp, 1, 1), None);
    assert_eq!(got.as_deref(), Some("┌───┐\n│ a │\n├───┤\n│ b │\n└───┘"));
}

#[test]
fn short_rows_are_filled_with_empty_cells() {
    let data = vec![
        vec!["a".to_string()],
        vec!["b".to_string(), "cc".to_string(), "d".to_string()],
        vec![],
        vec!["e".to_string(), "f".to_string()],
    ];
    let got = tbll::get_output(&data, config(TableStyle::Ascii, 1, 1));
    let expected = "
+---+----+---+
| a |    |   |
+---+----+---+
| b | cc | d |
+---+----+---+
|   |    |   |
+---+----+---+
| e | f  |   |
+---+----+---+
";
    assert_eq!(got, expected.trim());
}

#[test]
fn zero_padding_leaves_the_text_alone_in_its_cell() {
    let got = tbll::get_output(&small_data(), config(TableStyle::Ascii, 0, 0));
    assert_eq!(got, "+-+-+\n|a|b|\n+-+-+\n|c|d|\n+-+-+\n|e|f|\n+-+-+");
}

#[test]
fn left_padding_widens_the_left_of_every_cell() {
    let got = tbll::get_output(&small_data(), config(TableStyle::Ascii, 3, 0));
    assert_eq!(
        got,
        "+----+----+\n|   a|   b|\n+----+----+\n|   c|   d|\n+----+----+\n|   e|   f|\n+----+----+"
    );
}

#[test]
fn no_rows_draw_as_nothing() {
    let data: Vec<Vec<String>> = Vec::new();
    assert_eq!(tbll::get_output(&data, config(TableStyle::Sharp, 1, 1)), "");
    assert!(tbll::output::get_output(&data, config(TableStyle::Sharp, 1, 1), None).is_none());
    assert!(
        tbll::output::get_output(&data, config(TableStyle::Sharp, 1, 1), Some(Cols::skip(vec![])))
            .is_none()
    );
}

#[test]
fn width_counts_characters_not_bytes() {
    let data = vec![vec!["é".to_string()], vec!["ab".to_string()]];
    let got = tbll::get_output(&data, config(TableStyle::Ascii, 1, 1));
    assert_eq!(got, "+----+\n| é  |\n+----+\n| ab |\n+----+");
}

#[test]
fn style_ascii_draws_its_borders() {
    assert_eq!(
        styled(TableStyle::Ascii),
        "+---+---+\n| a | b |\n+---+---+\n| c | d |\n+---+---+\n| e | f |\n+---+---+"
    );
}

#[test]
fn style_ascii_rounded_draws_its_borders() {
    assert_eq!(
        styled(TableStyle::AsciiRounded),
        ".-------.\n| a | b |\n| c | d |\n| e | f |\n'-------'"
    );
}

#[test]
fn style_blank_draws_its_borders() {
    assert_eq!(styled(TableStyle::Blank), " a   b \n c   d \n e   f ");
}

#[test]
fn style_dots_draws_its_borders() {
    assert_eq!(
        styled(TableStyle::Dots),
        ".........\n: a : b :\n:...:...:\n: c : d :\n:...:...:\n: e : f :\n:...:...:"
    );
}

#[test]
fn style_empty_draws_its_borders() {
    assert_eq!(styled(TableStyle::Empty), " a  b \n c  d \n e  f ");
}

#[test]
fn style_extended_draws_its_borders() {
    assert_eq!(
        styled(TableStyle::Extended),
        "╔═══╦═══╗\n║ a ║ b ║\n╠═══╬═══╣\n║ c ║ d ║\n╠═══╬═══╣\n║ e ║ f ║\n╚═══╩═══╝"
    );
}

#[test]
fn style_markdown_draws_its_borders() {
    assert_eq!(
        styled(TableStyle::Markdown),
        "| a | b |\n|---|---|\n| c | d |\n| e | f |"
    );
}

#[test]
fn style_modern_draws_its_borders() {
    assert_eq!(
        styled(TableStyle::Modern),
        "┌───┬───┐\n│ a │ b │\n├───┼───┤\n│ c │ d │\n├───┼───┤\n│ e │ f │\n└───┴───┘"
    );
}

#[test]
fn style_modern_rounded_draws_its_borders() {
    assert_eq!(
        styled(TableStyle::ModernRounded),
        "╭───┬───╮\n│ a │ b │\n├───┼───┤\n│ c │ d │\n├───┼───┤\n│ e │ f │\n╰───┴───╯"
    );
}

#[test]
fn style_psql_draws_its_borders() {
    assert_eq!(styled(TableStyle::Psql), " a | b \n---+---\n c | d \n e | f ");
}

#[test]
fn style_re_structured_text_draws_its_borders() {
    assert_eq!(
        styled(TableStyle::ReStructuredText),
        "=== ===\n a   b \n=== ===\n c   d \n e   f \n=== ==="
    );
}

#[test]
fn style_rounded_draws_its_borders() {
    assert_eq!(
        styled(TableStyle::Rounded),
        "╭───┬───╮\n│ a │ b │\n├───┼───┤\n│ c │ d │\n│ e │ f │\n╰───┴───╯"
    );
}

#[test]
fn style_sharp_draws_its_borders() {
    assert_eq!(
        styled(TableStyle::Sharp),
        "┌───┬───┐\n│ a │ b │\n├───┼───┤\n│ c │ d │\n│ e │ f │\n└───┴───┘"
    );
}

#[test]
fn project_without_selection_gives_the_grid_back() {
    let data = generate_data();
    assert_eq!(project(&data, &None), Some(data.clone()));
    let nothing: Vec<Vec<String>> = Vec::new();
    assert_eq!(project(&nothing, &None), Some(Vec::new()));
}

#[test]
fn project_keeps_the_selected_columns_in_order() {
    let data = generate_data();
    let got = project(&data, &Some(Cols::select(vec![2, 0]))).expect("rows should be left");
    assert_eq!(
        got,
        vec![
            vec!["row1col1".to_string(), "row1col3".to_string()],
            vec!["row2col1".to_string(), "row2col3".to_string()],
            vec!["row3col1".to_string(), "row3col3".to_string()],
        ]
    );
}

#[test]
fn project_skip_is_the_complement_of_select() {
    let data = generate_data();
    let got = project(&data, &Some(Cols::skip(vec![0, 2]))).expect("rows should be left");
    assert_eq!(
        got,
        vec![
            vec!["row1col2".to_string()],
            vec!["row2col2".to_string()],
            vec!["row3col2".to_string()],
        ]
    );
}

#[test]
fn project_drops_rows_of_which_nothing_is_shown() {
    let data = vec![
        vec!["a".to_string()],
        vec!["b".to_string(), "c".to_string()],
        vec![],
        vec!["d".to_string(), "e".to_string(), "f".to_string()],
    ];
    let got = project(&data, &Some(Cols::select(vec![1, 1, 7]))).expect("rows should be left");
    assert_eq!(got, vec![vec!["c".to_string()], vec!["e".to_string()]]);
    let got = project(&data, &Some(Cols::skip(vec![0]))).expect("rows should be left");
    assert_eq!(
        got,
        vec![vec!["c".to_string()], vec!["e".to_string(), "f".to_string()]]
    );
}

#[test]
fn project_out_of_range_leaves_nothing() {
    let data = generate_data();
    assert_eq!(project(&data, &Some(Cols::select(vec![5, 8]))), None);
    assert_eq!(project(&data, &Some(Cols::select(vec![]))), None);
    assert_eq!(project(&data, &Some(Cols::skip(vec![0, 1, 2]))), None);
}

#[test]
fn cols_shows_tells_listed_from_unlisted() {
    let shown = Cols::select(vec![0, 2]);
    assert!(shown.keep);
    assert_eq!(shown.values, vec![0, 2]);
    assert!(shown.shows(0) && !shown.shows(1) && shown.shows(2) && !shown.shows(3));
    let left_out = Cols::skip(vec![0, 2]);
    assert!(!left_out.keep);
    assert!(!left_out.shows(0) && left_out.shows(1) && !left_out.shows(2) && left_out.shows(3));
}

#[test]
fn both_lists_of_columns_are_a_conflict() {
    let got = Cols::choose_from(Some(vec![0, 3]), Some(vec![1, 2]));
    assert!(matches!(got, Err(ConfigError::ColsConflict)));
    assert_eq!(
        ConfigError::ColsConflict.message(),
        "--cols and --skip-cols cannot be used at the same time"
    );
}

#[test]
fn one_list_of_columns_makes_a_selection() {
    assert!(matches!(Cols::choose_from(None, None), Ok(None)));
    let shown = Cols::choose_from(Some(vec![1]), None).ok().flatten().expect("a selection");
    assert!(shown.keep);
    assert_eq!(shown.values, vec![1]);
    let left_out = Cols::choose_from(None, Some(vec![4])).ok().flatten().expect("a selection");
    assert!(!left_out.keep);
    assert_eq!(left_out.values, vec![4]);
}

#[test]
fn is_drawable_refuses_padding_that_overflows() {
    let data = generate_data();
    assert!(is_drawable(&data, &config(TableStyle::Sharp, 1, 1)));
    assert!(is_drawable(&data, &config(TableStyle::Sharp, 1000, 1000)));
    assert!(!is_drawable(&data, &config(TableStyle::Sharp, usize::MAX, 0)));
    assert!(!is_drawable(&data, &config(TableStyle::Sharp, usize::MAX / 2, usize::MAX / 2)));
    assert!(!is_drawable(&data, &config(TableStyle::Sharp, usize::MAX / 3, 0)));
    // three columns of cells of eight characters: 3 * (32 + left + 1) + 1
    let most = (usize::MAX - 1) / 3 - 33;
    assert!(is_drawable(&data, &config(TableStyle::Sharp, most, 0)));
    assert!(!is_drawable(&data, &config(TableStyle::Sharp, most + 1, 0)));
}

#[test]
fn is_drawable_accepts_grids_without_cells() {
    let nothing: Vec<Vec<String>> = Vec::new();
    assert!(is_drawable(&nothing, &config(TableStyle::Sharp, usize::MAX, usize::MAX)));
    let empty_rows: Vec<Vec<String>> = vec![vec![], vec![]];
    assert!(is_drawable(&empty_rows, &config(TableStyle::Sharp, usize::MAX, usize::MAX)));
}
